use vstd::prelude::*;
use vstd::string::*;

use crate::text::{lower_case, owned, parse_unsigned, same_text};

verus! {

/// The settings that can change while the server runs: the naming of the resources that
/// provisioning creates and where it places them.
pub struct Settings {
    pub role: String,
    pub user_group_templates: String,
    pub prefix_user_group: String,
    pub prefix_resourcepool: String,
    pub prefix_simple_zone: String,
    pub prefix_vnets: String,
    pub postfix_vnet_dmz: String,
    pub postfix_vnet_lan: String,
    pub prefix_firewall: String,
    pub vm_storage: String,
    pub template_storage: String,
    pub wan_interface: String,
}

/// The configuration the server starts with.
pub struct AppConfig {
    pub server_port: u16,
    pub proxmox_url: String,
    pub proxmox_token_id: String,
    pub proxmox_token_secret: String,
    pub ssl_verify: bool,
    pub ssl_cert_path: Option<String>,
    pub username_admin: Option<String>,
    pub password_admin: Option<String>,
    pub role: String,
    pub user_group_templates: String,
    pub prefix_user_group: String,
    pub prefix_resourcepool: String,
    pub prefix_simple_zone: String,
    pub prefix_vnets: String,
    pub postfix_vnet_dmz: String,
    pub postfix_vnet_lan: String,
    pub prefix_firewall: String,
    pub vm_storage: String,
    pub template_storage: String,
    pub wan_interface: String,
    pub cors_origin: Option<String>,
}

/// Why the configuration could not be loaded.
pub enum ConfigError {
    /// A setting without a default is not set.
    Missing(String),
    /// A setting holds text that is not of its type: the setting, then the text.
    Invalid(String, String),
}

// ---------------------------------------------------------------------------
// Reading typed values the way the `config` crate reads them from text
// ---------------------------------------------------------------------------

/// The unsigned number that the `config` crate reads from a text value (`Value::into_uint`):
/// `true`, `on`, `yes` give 1 and `false`, `off`, `no` give 0, in any case; anything else is read
/// as a `u64` by `str::parse`.
pub open spec fn config_uint(text: Seq<char>) -> Option<nat> {
    let lowered = lower_case(text);
    if lowered == "true"@ || lowered == "on"@ || lowered == "yes"@ {
        Some(1)
    } else if lowered == "false"@ || lowered == "off"@ || lowered == "no"@ {
        Some(0)
    } else {
        parse_unsigned(text, u64::MAX as nat)
    }
}

/// The boolean that the `config` crate reads from a text value (`Value::into_bool`):
/// `1`, `true`, `on`, `yes` give true and `0`, `false`, `off`, `no` give false, in any case.
pub open spec fn config_bool(text: Seq<char>) -> Option<bool> {
    let lowered = lower_case(text);
    if lowered == "1"@ || lowered == "true"@ || lowered == "on"@ || lowered == "yes"@ {
        Some(true)
    } else if lowered == "0"@ || lowered == "false"@ || lowered == "off"@ || lowered == "no"@ {
        Some(false)
    } else {
        None
    }
}

/// Calls `config::Value::into_uint` on a text value; the contract restates what the crate's
/// source does with text: the six words of `config_uint`, compared after `str::to_lowercase`,
/// and otherwise `str::parse::<u64>`.
#[verifier::external_body]
fn read_config_uint(text: &str) -> (r: Option<u64>)
    ensures
        match r {
            Some(v) => config_uint(text@) == Some(v as nat),
            None => config_uint(text@) is None,
        },
{
    ::config::Value::new(None, text).into_uint().ok()
}

/// Calls `config::Value::into_bool` on a text value; the contract restates what the crate's
/// source does with text: the eight words of `config_bool`, compared after `str::to_lowercase`.
#[verifier::external_body]
fn read_config_bool(text: &str) -> (r: Option<bool>)
    ensures
        r == config_bool(text@),
{
    ::config::Value::new(None, text).into_bool().ok()
}

// ---------------------------------------------------------------------------
// Loading
// ---------------------------------------------------------------------------

/// The text of the first entry named `key`.
pub open spec fn entry_from(vars: Seq<(Seq<char>, Seq<char>)>, key: Seq<char>, from: int) -> Option<Seq<char>>
    decreases vars.len() - from,
{
    if from < 0 || from >= vars.len() {
        None
    } else if vars[from].0 == key {
        Some(vars[from].1)
    } else {
        entry_from(vars, key, from + 1)
    }
}

/// The text set for `key`, if any.
pub open spec fn entry(vars: Seq<(Seq<char>, Seq<char>)>, key: Seq<char>) -> Option<Seq<char>> {
    entry_from(vars, key, 0)
}

/// The text set for `key`, or `default`.
pub open spec fn text_or(vars: Seq<(Seq<char>, Seq<char>)>, key: Seq<char>, default: Seq<char>) -> Seq<char> {
    match entry(vars, key) {
        Some(t) => t,
        None => default,
    }
}

/// The values of environment entries.
pub open spec fn entries_view(vars: Seq<(String, String)>) -> Seq<(Seq<char>, Seq<char>)> {
    vars.map_values(|p: (String, String)| (p.0@, p.1@))
}

/// The value of an optional string.
pub open spec fn opt_view(s: Option<String>) -> Option<Seq<char>> {
    match s {
        Some(t) => Some(t@),
        None => None,
    }
}

/// The port: `server_port` read as an unsigned number that fits in 16 bits, 3000 by default.
pub open spec fn port_setting(vars: Seq<(Seq<char>, Seq<char>)>) -> Option<u16> {
    match entry(vars, "server_port"@) {
        None => Some(3000),
        Some(t) => match config_uint(t) {
            Some(v) => if v <= u16::MAX { Some(v as u16) } else { None },
            None => None,
        },
    }
}

/// Certificate checking: `ssl_verify` read as a boolean, true by default.
pub open spec fn ssl_verify_setting(vars: Seq<(Seq<char>, Seq<char>)>) -> Option<bool> {
    match entry(vars, "ssl_verify"@) {
        None => Some(true),
        Some(t) => config_bool(t),
    }
}

/// The first problem of the configuration, if any: a value that cannot be read as its type
/// (the port, then certificate checking) comes before a missing setting, and missing settings
/// come in the order of the fields.
pub open spec fn config_problem(vars: Seq<(Seq<char>, Seq<char>)>) -> Option<(Seq<char>, Option<Seq<char>>)> {
    if port_setting(vars) is None {
        Some(("server_port"@, entry(vars, "server_port"@)))
    } else if ssl_verify_setting(vars) is None {
        Some(("ssl_verify"@, entry(vars, "ssl_verify"@)))
    } else if entry(vars, "proxmox_url"@) is None {
        Some(("proxmox_url"@, None))
    } else if entry(vars, "proxmox_token_id"@) is None {
        Some(("proxmox_token_id"@, None))
    } else if entry(vars, "proxmox_token_secret"@) is None {
        Some(("proxmox_token_secret"@, None))
    } else {
        None
    }
}

/// A problem as the loader reports it: a missing setting, or a setting and the text it holds.
pub open spec fn error_view(e: ConfigError) -> (Seq<char>, Option<Seq<char>>) {
    match e {
        ConfigError::Missing(k) => (k@, None),
        ConfigError::Invalid(k, t) => (k@, Some(t@)),
    }
}

/// The text of the first entry named `key`.
fn entry_text<'a>(vars: &'a Vec<(String, String)>, key: &str) -> (r: Option<&'a String>)
    ensures
        match r {
            Some(t) => entry(entries_view(vars@), key@) == Some(t@),
            None => entry(entries_view(vars@), key@) is None,
        },
{
    let ghost ev = entries_view(vars@);
    let mut i: usize = 0;
    while i < vars.len()
        invariant
            i <= vars.len(),
            ev == entries_view(vars@),
            entry(ev, key@) == entry_from(ev, key@, i as int),
        decreases vars.len() - i,
    {
        assert(ev[i as int] == (vars@[i as int].0@, vars@[i as int].1@));
        if same_text(vars[i].0.as_str(), key) {
            return Some(&vars[i].1);
        }
        i = i + 1;
    }
    None
}

/// The text set for `key`, or `default`.
fn text_setting(vars: &Vec<(String, String)>, key: &str, default: &str) -> (r: String)
    ensures
        r@ == text_or(entries_view(vars@), key@, default@),
{
    match entry_text(vars, key) {
        Some(t) => t.clone(),
        None => owned(default),
    }
}

/// The text set for `key`, if any.
fn optional_setting(vars: &Vec<(String, String)>, key: &str) -> (r: Option<String>)
    ensures
        opt_view(r) == entry(entries_view(vars@), key@),
{
    match entry_text(vars, key) {
        Some(t) => Some(t.clone()),
        None => None,
    }
}

/// The text set for `key`, which has no default.
fn required_setting(vars: &Vec<(String, String)>, key: &str) -> (r: Result<String, ConfigError>)
    ensures
        match r {
            Ok(t) => entry(entries_view(vars@), key@) == Some(t@),
            Err(e) => entry(entries_view(vars@), key@) is None && error_view(e) == (key@, None::<Seq<char>>),
        },
{
    match entry_text(vars, key) {
        Some(t) => Ok(t.clone()),
        None => Err(ConfigError::Missing(owned(key))),
    }
}

impl AppConfig {
    /// Loads the configuration from the entries of the `APP_` environment source, each a
    /// setting's name (the variable's name lowercased, without `APP_`) and its text. A setting
    /// that is not set takes its default; `proxmox_url`, `proxmox_token_id` and
    /// `proxmox_token_secret` have none. The port and certificate checking are read from text as
    /// the `config` crate reads numbers and booleans. A value that cannot be read is reported
    /// before a missing setting.
    pub fn load(vars: &Vec<(String, String)>) -> (r: Result<AppConfig, ConfigError>)
        ensures
            ({
                let ev = entries_view(vars@);
                match r {
                    Ok(c) => config_problem(ev) is None
                        && Some(c.server_port) == port_setting(ev)
                        && Some(c.proxmox_url@) == entry(ev, "proxmox_url"@)
                        && Some(c.proxmox_token_id@) == entry(ev, "proxmox_token_id"@)
                        && Some(c.proxmox_token_secret@) == entry(ev, "proxmox_token_secret"@)
                        && Some(c.ssl_verify) == ssl_verify_setting(ev)
                        && opt_view(c.ssl_cert_path) == entry(ev, "ssl_cert_path"@)
                        && opt_view(c.username_admin) == entry(ev, "username_admin"@)
                        && opt_view(c.password_admin) == entry(ev, "password_admin"@)
                        && c.role@ == text_or(ev, "role"@, "uro_bbzblit_PVELabUsers"@)
                        && c.user_group_templates@ == text_or(ev, "user_group_templates"@, "ugr_bbzblit_Lernende"@)
                        && c.prefix_user_group@ == text_or(ev, "prefix_user_group"@, "ug"@)
                        && c.prefix_resourcepool@ == text_or(ev, "prefix_resourcepool"@, "rp"@)
                        && c.prefix_simple_zone@ == text_or(ev, "prefix_simple_zone"@, "sz"@)
                        && c.prefix_vnets@ == text_or(ev, "prefix_vnets"@, "vn"@)
                        && c.postfix_vnet_dmz@ == text_or(ev, "postfix_vnet_dmz"@, "DMZ"@)
                        && c.postfix_vnet_lan@ == text_or(ev, "postfix_vnet_lan"@, "LAN"@)
                        && c.prefix_firewall@ == text_or(ev, "prefix_firewall"@, "fw"@)
                        && c.vm_storage@ == text_or(ev, "vm_storage"@, "pvecephpool01"@)
                        && c.template_storage@ == text_or(ev, "template_storage"@, "templates"@)
                        && c.wan_interface@ == text_or(ev, "wan_interface"@, "vmbr1"@)
                        && opt_view(c.cors_origin) == entry(ev, "cors_origin"@),
                    Err(e) => config_problem(ev) == Some(error_view(e)),
                }
            }),
    {
        let ghost ev = entries_view(vars@);
        let server_port: u16 = match entry_text(vars, "server_port") {
            None => 3000,
            Some(t) => match read_config_uint(t.as_str()) {
                Some(v) => {
                    if v <= 65535 {
                        v as u16
                    } else {
                        return Err(ConfigError::Invalid(owned("server_port"), t.clone()));
                    }
                },
                None => return Err(ConfigError::Invalid(owned("server_port"), t.clone())),
            },
        };
        let ssl_verify: bool = match entry_text(vars, "ssl_verify") {
            None => true,
            Some(t) => match read_config_bool(t.as_str()) {
                Some(b) => b,
                None => return Err(ConfigError::Invalid(owned("ssl_verify"), t.clone())),
            },
        };
        let proxmox_url = required_setting(vars, "proxmox_url")?;
        let proxmox_token_id = required_setting(vars, "proxmox_token_id")?;
        let proxmox_token_secret = required_setting(vars, "proxmox_token_secret")?;
        Ok(AppConfig {
            server_port,
            proxmox_url,
            proxmox_token_id,
            proxmox_token_secret,
            ssl_verify,
            ssl_cert_path: optional_setting(vars, "ssl_cert_path"),
            username_admin: optional_setting(vars, "username_admin"),
            password_admin: optional_setting(vars, "password_admin"),
            role: text_setting(vars, "role", "uro_bbzblit_PVELabUsers"),
            user_group_templates: text_setting(vars, "user_group_templates", "ugr_bbzblit_Lernende"),
            prefix_user_group: text_setting(vars, "prefix_user_group", "ug"),
            prefix_resourcepool: text_setting(vars, "prefix_resourcepool", "rp"),
            prefix_simple_zone: text_setting(vars, "prefix_simple_zone", "sz"),
            prefix_vnets: text_setting(vars, "prefix_vnets", "vn"),
            postfix_vnet_dmz: text_setting(vars, "postfix_vnet_dmz", "DMZ"),
            postfix_vnet_lan: text_setting(vars, "postfix_vnet_lan", "LAN"),
            prefix_firewall: text_setting(vars, "prefix_firewall", "fw"),
            vm_storage: text_setting(vars, "vm_storage", "pvecephpool01"),
            template_storage: text_setting(vars, "template_storage", "templates"),
            wan_interface: text_setting(vars, "wan_interface", "vmbr1"),
            cors_origin: optional_setting(vars, "cors_origin"),
        })
    }
}


// ---------------------------------------------------------------------------
// Settings
// ---------------------------------------------------------------------------

/// The value of [`Settings`], field by field.
pub struct SettingsView {
    pub role: Seq<char>,
    pub user_group_templates: Seq<char>,
    pub prefix_user_group: Seq<char>,
    pub prefix_resourcepool: Seq<char>,
    pub prefix_simple_zone: Seq<char>,
    pub prefix_vnets: Seq<char>,
    pub postfix_vnet_dmz: Seq<char>,
    pub postfix_vnet_lan: Seq<char>,
    pub prefix_firewall: Seq<char>,
    pub vm_storage: Seq<char>,
    pub template_storage: Seq<char>,
    pub wan_interface: Seq<char>,
}

impl View for Settings {
    type V = SettingsView;

    open spec fn view(&self) -> SettingsView {
        SettingsView {
            role: self.role@,
            user_group_templates: self.user_group_templates@,
            prefix_user_group: self.prefix_user_group@,
            prefix_resourcepool: self.prefix_resourcepool@,
            prefix_simple_zone: self.prefix_simple_zone@,
            prefix_vnets: self.prefix_vnets@,
            postfix_vnet_dmz: self.postfix_vnet_dmz@,
            postfix_vnet_lan: self.postfix_vnet_lan@,
            prefix_firewall: self.prefix_firewall@,
            vm_storage: self.vm_storage@,
            template_storage: self.template_storage@,
            wan_interface: self.wan_interface@,
        }
    }
}

/// The settings as a stored row holds them, in the order of the columns.
pub open spec fn settings_row(s: SettingsView) -> Seq<Seq<char>> {
    seq![
        s.role,
        s.user_group_templates,
        s.prefix_user_group,
        s.prefix_resourcepool,
        s.prefix_simple_zone,
        s.prefix_vnets,
        s.postfix_vnet_dmz,
        s.postfix_vnet_lan,
        s.prefix_firewall,
        s.vm_storage,
        s.template_storage,
        s.wan_interface,
    ]
}

/// The values of the strings of a row.
pub open spec fn row_view(row: Seq<String>) -> Seq<Seq<char>> {
    row.map_values(|s: String| s@)
}

impl Settings {
    /// A copy of the settings.
    pub fn copy(&self) -> (r: Settings)
        ensures
            r@ == self@,
    {
        Settings {
            role: self.role.clone(),
            user_group_templates: self.user_group_templates.clone(),
            prefix_user_group: self.prefix_user_group.clone(),
            prefix_resourcepool: self.prefix_resourcepool.clone(),
            prefix_simple_zone: self.prefix_simple_zone.clone(),
            prefix_vnets: self.prefix_vnets.clone(),
            postfix_vnet_dmz: self.postfix_vnet_dmz.clone(),
            postfix_vnet_lan: self.postfix_vnet_lan.clone(),
            prefix_firewall: self.prefix_firewall.clone(),
            vm_storage: self.vm_storage.clone(),
            template_storage: self.template_storage.clone(),
            wan_interface: self.wan_interface.clone(),
        }
    }

    /// The values to store, one per column, in the order of the columns.
    pub fn to_row(&self) -> (r: Vec<String>)
        ensures
            row_view(r@) == settings_row(self@),
    {
        let c = self.copy();
        let r: Vec<String> = vec![
            c.role,
            c.user_group_templates,
            c.prefix_user_group,
            c.prefix_resourcepool,
            c.prefix_simple_zone,
            c.prefix_vnets,
            c.postfix_vnet_dmz,
            c.postfix_vnet_lan,
            c.prefix_firewall,
            c.vm_storage,
            c.template_storage,
            c.wan_interface,
        ];
        assert(row_view(r@) =~= settings_row(self@));
        r
    }

    /// The settings that a stored row holds, when it has one value per column.
    pub fn from_row(row: &Vec<String>) -> (r: Option<Settings>)
        ensures
            match r {
                Some(s) => row_view(row@) == settings_row(s@),
                None => row@.len() != 12,
            },
    {
        if row.len() != 12 {
            return None;
        }
        let s = Settings {
            role: row[0].clone(),
            user_group_templates: row[1].clone(),
            prefix_user_group: row[2].clone(),
            prefix_resourcepool: row[3].clone(),
            prefix_simple_zone: row[4].clone(),
            prefix_vnets: row[5].clone(),
            postfix_vnet_dmz: row[6].clone(),
            postfix_vnet_lan: row[7].clone(),
            prefix_firewall: row[8].clone(),
            vm_storage: row[9].clone(),
            template_storage: row[10].clone(),
            wan_interface: row[11].clone(),
        };
        assert(row_view(row@) =~= settings_row(s@));
        Some(s)
    }
}

/// Reading back a stored row gives the settings that were stored.
pub proof fn lemma_settings_row_round_trip(s: SettingsView, row: Seq<Seq<char>>, back: SettingsView)
    requires
        row == settings_row(s),
        row == settings_row(back),
    ensures
        back == s,
{
    assert(row[0] == s.role && row[0] == back.role);
    assert(row[1] == s.user_group_templates);
    assert(row[2] == s.prefix_user_group);
    assert(row[3] == s.prefix_resourcepool);
    assert(row[4] == s.prefix_simple_zone);
    assert(row[5] == s.prefix_vnets);
    assert(row[6] == s.postfix_vnet_dmz);
    assert(row[7] == s.postfix_vnet_lan);
    assert(row[8] == s.prefix_firewall);
    assert(row[9] == s.vm_storage);
    assert(row[10] == s.template_storage);
    assert(row[11] == s.wan_interface);
}

/// How the shared HTTP client checks the Proxmox server's certificate.
pub enum TlsSetup {
    /// Certificates are not checked.
    AcceptInvalidCerts,
    /// The PEM certificate at this path is trusted as a root, besides the default roots.
    TrustCertificateAt(String),
    /// The default roots.
    DefaultRoots,
}

/// The settings that a configuration gives.
pub open spec fn config_settings(c: &AppConfig) -> SettingsView {
    SettingsView {
        role: c.role@,
        user_group_templates: c.user_group_templates@,
        prefix_user_group: c.prefix_user_group@,
        prefix_resourcepool: c.prefix_resourcepool@,
        prefix_simple_zone: c.prefix_simple_zone@,
        prefix_vnets: c.prefix_vnets@,
        postfix_vnet_dmz: c.postfix_vnet_dmz@,
        postfix_vnet_lan: c.postfix_vnet_lan@,
        prefix_firewall: c.prefix_firewall@,
        vm_storage: c.vm_storage@,
        template_storage: c.template_storage@,
        wan_interface: c.wan_interface@,
    }
}

impl AppConfig {
    /// The settings that the configuration gives, used where none are stored.
    pub fn settings(&self) -> (s: Settings)
        ensures
            s@ == config_settings(self),
    {
        Settings {
            role: self.role.clone(),
            user_group_templates: self.user_group_templates.clone(),
            prefix_user_group: self.prefix_user_group.clone(),
            prefix_resourcepool: self.prefix_resourcepool.clone(),
            prefix_simple_zone: self.prefix_simple_zone.clone(),
            prefix_vnets: self.prefix_vnets.clone(),
            postfix_vnet_dmz: self.postfix_vnet_dmz.clone(),
            postfix_vnet_lan: self.postfix_vnet_lan.clone(),
            prefix_firewall: self.prefix_firewall.clone(),
            vm_storage: self.vm_storage.clone(),
            template_storage: self.template_storage.clone(),
            wan_interface: self.wan_interface.clone(),
        }
    }

    /// How the shared HTTP client checks certificates: not at all when `ssl_verify` is off;
    /// otherwise with the certificate at `ssl_cert_path` trusted, when there is one.
    pub fn tls_setup(&self) -> (r: TlsSetup)
        ensures
            !self.ssl_verify ==> r is AcceptInvalidCerts,
            self.ssl_verify && self.ssl_cert_path is None ==> r is DefaultRoots,
            self.ssl_verify && self.ssl_cert_path is Some ==> (r matches TlsSetup::TrustCertificateAt(p)
                && p@ == self.ssl_cert_path->0@),
    {
        if !self.ssl_verify {
            TlsSetup::AcceptInvalidCerts
        } else {
            match &self.ssl_cert_path {
                Some(p) => TlsSetup::TrustCertificateAt(p.clone()),
                None => TlsSetup::DefaultRoots,
            }
        }
    }
}

/// The settings the server starts with: those stored, or else those of the configuration.
pub fn initial_settings(stored: Option<Settings>, config: &AppConfig) -> (r: Settings)
    ensures
        match stored {
            Some(s) => r@ == s@,
            None => r@ == config_settings(config),
        },
{
    match stored {
        Some(s) => s,
        None => config.settings(),
    }
}

/// Applies an update of the settings once storing it has been tried: when it was stored, the
/// new settings take effect and the answer is 200; otherwise the settings stay as they were and
/// the answer is 500.
pub fn apply_settings_update(current: &mut Settings, new_settings: Settings, stored: bool) -> (status: u16)
    ensures
        stored ==> final(current)@ == new_settings@ && status == 200,
        !stored ==> final(current)@ == old(current)@ && status == 500,
{
    if stored {
        *current = new_settings;
        200
    } else {
        500
    }
}

} // verus!
