use loomox::app_config::Settings;
use loomox::naming::{
    class_for_names, firewall_vm_name_for, group_id_for_index, parse_group_name,
    provisioned_label_for, provisioned_pool_for, resource_pool_for, simple_zone_for, vnet_dmz_for,
    vnet_lan_for,
};

fn settings_with(pool: &str, zone: &str, vnets: &str, dmz: &str, lan: &str, firewall: &str) -> Settings {
    Settings {
        role: "uro_bbzblit_PVELabUsers".to_string(),
        user_group_templates: "ugr_bbzblit_Lernende".to_string(),
        prefix_user_group: "ug".to_string(),
        prefix_resourcepool: pool.to_string(),
        prefix_simple_zone: zone.to_string(),
        prefix_vnets: vnets.to_string(),
        postfix_vnet_dmz: dmz.to_string(),
        postfix_vnet_lan: lan.to_string(),
        prefix_firewall: firewall.to_string(),
        vm_storage: "pvecephpool01".to_string(),
        template_storage: "templates".to_string(),
        wan_interface: "vmbr1".to_string(),
    }
}

fn settings() -> Settings {
    settings_with("rp", "sz", "vn", "DMZ", "LAN", "fw")
}

#[test]
fn parses_a_group_name() {
    let p = parse_group_name("ugr_m306_inf23a_grp7").unwrap();
    assert_eq!(p.group_id, "007");
    assert_eq!(p.module, "M306");
    assert_eq!(p.class, "inf23a");
    assert_eq!(p.suffix, "m306_inf23a_grp7");
    assert_eq!(p.group_name, "ugr_m306_inf23a_grp7");
}

#[test]
fn the_last_grp_marker_counts() {
    let p = parse_group_name("ugr_m1_a_grp2_grp15").unwrap();
    assert_eq!(p.group_id, "015");
    assert_eq!(p.class, "a_grp2");
    assert_eq!(p.module, "M1");
}

#[test]
fn the_first_underscore_ends_the_module() {
    let p = parse_group_name("ugr_m1_inf_b_grp1000").unwrap();
    assert_eq!(p.module, "M1");
    assert_eq!(p.class, "inf_b");
    assert_eq!(p.group_id, "1000");
}

#[test]
fn names_that_are_not_environments() {
    assert!(parse_group_name("m306_inf23a_grp7").is_none());
    assert!(parse_group_name("ugr_m306_inf23a").is_none());
    assert!(parse_group_name("ugr_m306_inf23a_grpx").is_none());
    assert!(parse_group_name("ugr_m306_inf23a_grp").is_none());
    assert!(parse_group_name("ugr_m306_inf23a_grp4294967296").is_none());
    assert!(parse_group_name("ugr_m306inf23a_grp1").is_none());
    assert!(parse_group_name("ugr_bbzblit_Lernende").is_none());
    assert!(parse_group_name("").is_none());
}

#[test]
fn a_plus_sign_in_the_number_is_read() {
    let p = parse_group_name("ugr_m_c_grp+3").unwrap();
    assert_eq!(p.group_id, "003");
}

#[test]
fn resource_names_of_an_environment() {
    let st = settings();
    assert_eq!(resource_pool_for(&st, "m306_inf23a_grp7"), "rp_m306_inf23a_grp7");
    assert_eq!(simple_zone_for(&st, "007"), "sz007");
    assert_eq!(vnet_dmz_for(&st, "007"), "vn007DMZ");
    assert_eq!(vnet_lan_for(&st, "007"), "vn007LAN");
    let custom = settings_with("pool", "zone", "net", "-dmz", "-lan", "wall");
    assert_eq!(resource_pool_for(&custom, "m306_inf23a_grp7"), "pool_m306_inf23a_grp7");
    assert_eq!(simple_zone_for(&custom, "007"), "zone007");
    assert_eq!(vnet_dmz_for(&custom, "007"), "net007-dmz");
    assert_eq!(vnet_lan_for(&custom, "007"), "net007-lan");
    assert_eq!(group_id_for_index(0), "001");
    assert_eq!(group_id_for_index(41), "042");
}

#[test]
fn provisioning_names() {
    assert_eq!(class_for_names("INF-23-A"), "inf23a");
    assert_eq!(provisioned_label_for("M306", "INF-23a", 2), "m306_inf23a_grp2");
    let st = settings();
    assert_eq!(provisioned_pool_for(&st, "M306", "INF-23a", 2), "rp_m306_inf23a_grp2");
    assert_eq!(firewall_vm_name_for(&st, "M306", "INF-23a", 12), "fw_m306_inf23a_grp12");
    let custom = settings_with("pool", "zone", "net", "-dmz", "-lan", "wall");
    assert_eq!(provisioned_pool_for(&custom, "M306", "INF-23a", 2), "pool_m306_inf23a_grp2");
    assert_eq!(firewall_vm_name_for(&custom, "M306", "INF-23a", 12), "wall_m306_inf23a_grp12");
}

#[test]
fn listing_reads_back_the_names_of_provisioning() {
    let st = settings_with("pool", "zone", "net", "-dmz", "-lan", "wall");
    for n in [1u64, 7, 12, 123, 4242] {
        let label = provisioned_label_for("M306", "INF-23a", n);
        let group_name = format!("ugr_{}", label);
        let p = parse_group_name(&group_name).unwrap();
        let index = (n - 1) as usize;
        assert_eq!(p.group_id, group_id_for_index(index));
        assert_eq!(resource_pool_for(&st, &p.suffix), provisioned_pool_for(&st, "M306", "INF-23a", n));
        assert_eq!(simple_zone_for(&st, &p.group_id), simple_zone_for(&st, &group_id_for_index(index)));
        assert_eq!(p.module, "M306");
        assert_eq!(p.class, "inf23a");
    }
}
