use loomox::clients::{
    EnvironmentClient, HttpMethod, NodesClient, ProxmoxAPI, ProxmoxClient,
    UmgebungClient,
};
use loomox::state::AppState;

fn state() -> AppState {
    AppState {
        proxmox_url: "https://pve:8006".to_string(),
        proxmox_token_id: "api@pve!tok".to_string(),
        proxmox_token_secret: "SECRET-REDACTED".to_string(),
        username_admin: None,
        password_admin: None,
    }
}

fn form(pairs: &[(&str, &str)]) -> Vec<(String, String)> {
    pairs.iter().map(|(k, v)| (k.to_string(), v.to_string())).collect()
}

#[test]
fn clone_requests() {
    let s = state();
    let r = EnvironmentClient::create_environment(&s, "pve1", 100, 900, "fw_m_c_grp1");
    assert_eq!(r.method, HttpMethod::Post);
    assert_eq!(r.url, "https://pve:8006/api2/json/nodes/pve1/qemu/100/clone");
    assert_eq!(r.authorization, "PVEAPIToken=api@pve!tok=SECRET-REDACTED");
    assert_eq!(r.form, form(&[("newid", "900"), ("name", "fw_m_c_grp1"), ("full", "1")]));
    let r = ProxmoxAPI::clone_vm(&s, "pve1", 100, 901, "x");
    assert_eq!(r.url, "https://pve:8006/api2/json/nodes/pve1/qemu/100/clone");
    let r = UmgebungClient::create_umgebung(&s, "pve2", 7, 8, "y");
    assert_eq!(r.url, "https://pve:8006/api2/json/nodes/pve2/qemu/7/clone");
    assert_eq!(r.form, form(&[("newid", "8"), ("name", "y"), ("full", "1")]));
}

#[test]
fn environment_requests() {
    let s = state();
    assert_eq!(EnvironmentClient::list_groups(&s).url, "https://pve:8006/api2/json/access/groups");
    assert_eq!(EnvironmentClient::get_group(&s, "ugr_a_b_grp1").url, "https://pve:8006/api2/json/access/groups/ugr_a_b_grp1");
    assert_eq!(EnvironmentClient::get_pool(&s, "rp_x").url, "https://pve:8006/api2/json/pools/rp_x");
    let r = EnvironmentClient::stop_vm(&s, "pve1", 42);
    assert_eq!(r.method, HttpMethod::Post);
    assert_eq!(r.url, "https://pve:8006/api2/json/nodes/pve1/qemu/42/status/stop");
    assert!(r.form.is_empty());
    let r = EnvironmentClient::delete_vm(&s, "pve1", 42);
    assert_eq!(r.method, HttpMethod::Delete);
    assert_eq!(r.url, "https://pve:8006/api2/json/nodes/pve1/qemu/42");
    assert_eq!(EnvironmentClient::delete_vnet(&s, "vn001DMZ").url, "https://pve:8006/api2/json/cluster/sdn/vnets/vn001DMZ");
    assert_eq!(EnvironmentClient::delete_zone(&s, "sz001").url, "https://pve:8006/api2/json/cluster/sdn/zones/sz001");
    assert_eq!(EnvironmentClient::delete_pool(&s, "rp_x").method, HttpMethod::Delete);
    assert_eq!(EnvironmentClient::delete_group(&s, "g").url, "https://pve:8006/api2/json/access/groups/g");
}

#[test]
fn provisioning_requests() {
    let s = state();
    let r = ProxmoxAPI::create_group(&s, "ugr_g");
    assert_eq!(r.url, "https://pve:8006/api2/json/access/groups");
    assert_eq!(r.form, form(&[("groupid", "ugr_g")]));
    let r = ProxmoxAPI::set_acl(&s, "/pool/rp_x", "PVEVMUser", "ugr_g");
    assert_eq!(r.method, HttpMethod::Put);
    assert_eq!(r.url, "https://pve:8006/api2/json/access/acl");
    assert_eq!(r.form, form(&[("path", "/pool/rp_x"), ("roles", "PVEVMUser"), ("groups", "ugr_g"), ("propagate", "1")]));
    let r = ProxmoxAPI::set_group_members(&s, "ugr_g", "a,b");
    assert_eq!(r.url, "https://pve:8006/api2/json/access/groups/ugr_g");
    assert_eq!(r.form, form(&[("members", "a,b")]));
    assert_eq!(ProxmoxAPI::create_pool(&s, "rp_x").form, form(&[("poolid", "rp_x")]));
    assert_eq!(ProxmoxAPI::create_zone(&s, "sz001").form, form(&[("zone", "sz001"), ("type", "simple")]));
    assert_eq!(ProxmoxAPI::create_vnet(&s, "vn001LAN", "sz001").form, form(&[("vnet", "vn001LAN"), ("zone", "sz001")]));
    assert_eq!(ProxmoxAPI::list_vms(&s).url, "https://pve:8006/api2/json/cluster/resources?type=vm");
    assert_eq!(ProxmoxAPI::list_nodes(&s).url, "https://pve:8006/api2/json/nodes");
    assert_eq!(ProxmoxAPI::get_vm_config(&s, "n", 5).url, "https://pve:8006/api2/json/nodes/n/qemu/5/config");
    assert_eq!(ProxmoxAPI::delete_vnet(&s, "v").method, HttpMethod::Delete);
    assert_eq!(ProxmoxAPI::stop_vm(&s, "n", 5).url, "https://pve:8006/api2/json/nodes/n/qemu/5/status/stop");
}

#[test]
fn dropdown_requests() {
    let s = state();
    assert_eq!(ProxmoxClient::list_users(&s).url, "https://pve:8006/api2/json/access/users");
    assert_eq!(ProxmoxClient::list_roles(&s).url, "https://pve:8006/api2/json/access/roles");
    assert_eq!(ProxmoxClient::list_storage(&s).url, "https://pve:8006/api2/json/storage");
    assert_eq!(ProxmoxClient::list_vms(&s, "pve3").url, "https://pve:8006/api2/json/nodes/pve3/qemu");
    assert_eq!(
        ProxmoxClient::get_vm_firewall(&s, "pve3", 4294967295).url,
        "https://pve:8006/api2/json/nodes/pve3/qemu/4294967295/firewall/options"
    );
    let r = NodesClient::get_nodes(&s);
    assert_eq!(r.method, HttpMethod::Get);
    assert_eq!(r.url, "https://pve:8006/api2/json/nodes");
}
