use loomox::app_config::{apply_settings_update, initial_settings, AppConfig, ConfigError, Settings, TlsSetup};

fn vars(pairs: &[(&str, &str)]) -> Vec<(String, String)> {
    pairs.iter().map(|(k, v)| (k.to_string(), v.to_string())).collect()
}

fn required() -> Vec<(&'static str, &'static str)> {
    vec![
        ("proxmox_url", "https://pve:8006"),
        ("proxmox_token_id", "api@pve!token"),
        ("proxmox_token_secret", "SECRET-REDACTED"),
    ]
}

fn with(extra: &[(&'static str, &'static str)]) -> Vec<(String, String)> {
    let mut all = required();
    all.extend_from_slice(extra);
    vars(&all)
}

#[test]
fn defaults_fill_what_is_not_set() {
    let cfg = AppConfig::load(&with(&[])).ok().unwrap();
    assert_eq!(cfg.server_port, 3000);
    assert!(cfg.ssl_verify);
    assert_eq!(cfg.ssl_cert_path, None);
    assert_eq!(cfg.username_admin, None);
    assert_eq!(cfg.password_admin, None);
    assert_eq!(cfg.cors_origin, None);
    assert_eq!(cfg.proxmox_url, "https://pve:8006");
    assert_eq!(cfg.role, "uro_bbzblit_PVELabUsers");
    assert_eq!(cfg.user_group_templates, "ugr_bbzblit_Lernende");
    assert_eq!(cfg.prefix_user_group, "ug");
    assert_eq!(cfg.prefix_resourcepool, "rp");
    assert_eq!(cfg.prefix_simple_zone, "sz");
    assert_eq!(cfg.prefix_vnets, "vn");
    assert_eq!(cfg.postfix_vnet_dmz, "DMZ");
    assert_eq!(cfg.postfix_vnet_lan, "LAN");
    assert_eq!(cfg.prefix_firewall, "fw");
    assert_eq!(cfg.vm_storage, "pvecephpool01");
    assert_eq!(cfg.template_storage, "templates");
    assert_eq!(cfg.wan_interface, "vmbr1");
}

#[test]
fn set_values_take_precedence() {
    let cfg = AppConfig::load(&with(&[
        ("server_port", "8080"),
        ("ssl_verify", "OFF"),
        ("ssl_cert_path", "/etc/pve.pem"),
        ("username_admin", "admin"),
        ("password_admin", "pw"),
        ("role", "PVEVMUser"),
        ("cors_origin", "http://localhost:3001"),
    ]))
    .ok()
    .unwrap();
    assert_eq!(cfg.server_port, 8080);
    assert!(!cfg.ssl_verify);
    assert_eq!(cfg.ssl_cert_path, Some("/etc/pve.pem".to_string()));
    assert_eq!(cfg.username_admin, Some("admin".to_string()));
    assert_eq!(cfg.password_admin, Some("pw".to_string()));
    assert_eq!(cfg.role, "PVEVMUser");
    assert_eq!(cfg.cors_origin, Some("http://localhost:3001".to_string()));
}

#[test]
fn numbers_and_booleans_are_read_as_the_config_crate_reads_them() {
    let cfg = AppConfig::load(&with(&[("server_port", "yes"), ("ssl_verify", "0")])).ok().unwrap();
    assert_eq!(cfg.server_port, 1);
    assert!(!cfg.ssl_verify);
    let cfg = AppConfig::load(&with(&[("server_port", "+80"), ("ssl_verify", "True")])).ok().unwrap();
    assert_eq!(cfg.server_port, 80);
    assert!(cfg.ssl_verify);
}

#[test]
fn a_missing_url_is_an_error() {
    let v = vars(&[("proxmox_token_id", "a"), ("proxmox_token_secret", "b")]);
    match AppConfig::load(&v) {
        Err(ConfigError::Missing(key)) => assert_eq!(key, "proxmox_url"),
        _ => panic!("expected a missing setting"),
    }
    let v = vars(&[("proxmox_url", "u"), ("proxmox_token_id", "a")]);
    match AppConfig::load(&v) {
        Err(ConfigError::Missing(key)) => assert_eq!(key, "proxmox_token_secret"),
        _ => panic!("expected a missing setting"),
    }
}

#[test]
fn values_of_the_wrong_type_are_errors() {
    match AppConfig::load(&with(&[("server_port", "70000")])) {
        Err(ConfigError::Invalid(key, text)) => {
            assert_eq!(key, "server_port");
            assert_eq!(text, "70000");
        }
        _ => panic!("expected an invalid port"),
    }
    match AppConfig::load(&with(&[("server_port", "http")])) {
        Err(ConfigError::Invalid(key, _)) => assert_eq!(key, "server_port"),
        _ => panic!("expected an invalid port"),
    }
    match AppConfig::load(&with(&[("ssl_verify", "maybe")])) {
        Err(ConfigError::Invalid(key, text)) => {
            assert_eq!(key, "ssl_verify");
            assert_eq!(text, "maybe");
        }
        _ => panic!("expected an invalid flag"),
    }
}

#[test]
fn the_port_is_checked_before_the_url() {
    let v = vars(&[("server_port", "x")]);
    match AppConfig::load(&v) {
        Err(ConfigError::Invalid(key, _)) => assert_eq!(key, "server_port"),
        _ => panic!("expected the port first"),
    }
}

#[test]
fn an_unreadable_flag_is_reported_before_a_missing_setting() {
    let v = vars(&[("ssl_verify", "perhaps"), ("proxmox_token_id", "a")]);
    match AppConfig::load(&v) {
        Err(ConfigError::Invalid(key, text)) => {
            assert_eq!(key, "ssl_verify");
            assert_eq!(text, "perhaps");
        }
        _ => panic!("expected the flag first"),
    }
}

#[test]
fn settings_from_the_configuration() {
    let cfg = AppConfig::load(&with(&[("vm_storage", "local-lvm")])).ok().unwrap();
    let s = cfg.settings();
    assert_eq!(s.role, "uro_bbzblit_PVELabUsers");
    assert_eq!(s.vm_storage, "local-lvm");
    assert_eq!(s.wan_interface, "vmbr1");
    let row = s.to_row();
    assert_eq!(row.len(), 12);
    assert_eq!(row[0], "uro_bbzblit_PVELabUsers");
    assert_eq!(row[9], "local-lvm");
    let back = Settings::from_row(&row).unwrap();
    assert_eq!(back.to_row(), row);
    assert!(Settings::from_row(&row[..11].to_vec()).is_none());
}

#[test]
fn stored_settings_win_over_the_configuration() {
    let cfg = AppConfig::load(&with(&[])).ok().unwrap();
    let mut stored = cfg.settings();
    stored.prefix_firewall = "firewall".to_string();
    let s = initial_settings(Some(stored), &cfg);
    assert_eq!(s.prefix_firewall, "firewall");
    let s = initial_settings(None, &cfg);
    assert_eq!(s.prefix_firewall, "fw");
}

#[test]
fn a_settings_update_takes_effect_only_when_stored() {
    let cfg = AppConfig::load(&with(&[])).ok().unwrap();
    let mut current = cfg.settings();
    let mut next = cfg.settings();
    next.role = "NewRole".to_string();
    assert_eq!(apply_settings_update(&mut current, next.copy(), false), 500);
    assert_eq!(current.role, "uro_bbzblit_PVELabUsers");
    assert_eq!(apply_settings_update(&mut current, next, true), 200);
    assert_eq!(current.role, "NewRole");
}

#[test]
fn certificate_checking() {
    let cfg = AppConfig::load(&with(&[("ssl_verify", "false"), ("ssl_cert_path", "/c.pem")])).ok().unwrap();
    assert!(matches!(cfg.tls_setup(), TlsSetup::AcceptInvalidCerts));
    let cfg = AppConfig::load(&with(&[("ssl_cert_path", "/c.pem")])).ok().unwrap();
    match cfg.tls_setup() {
        TlsSetup::TrustCertificateAt(p) => assert_eq!(p, "/c.pem"),
        _ => panic!("expected the certificate"),
    }
    let cfg = AppConfig::load(&with(&[])).ok().unwrap();
    assert!(matches!(cfg.tls_setup(), TlsSetup::DefaultRoots));
}
