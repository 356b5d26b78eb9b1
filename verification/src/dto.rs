use vstd::prelude::*;

verus! {

/// A request to create the environments of a module's class, one per group.
pub struct CreateEnvironmentRequest {
    pub modul_configuration: ModulConfiguration,
    pub global_infrastructure_setup: GlobalInfrastructureSetup,
    pub group_details: Vec<GroupDetail>,
}

/// The module and class that the environments are for.
pub struct ModulConfiguration {
    pub modulnumber: String,
    pub class: String,
    pub global_usernames: Vec<String>,
    pub group_amount: u32,
}

/// Where the environments are created, and their firewall.
pub struct GlobalInfrastructureSetup {
    pub node: String,
    pub firewall_setup: FirewallSetup,
}

/// Whether each environment gets a firewall VM, cloned from the VM `firewall_vm_id`.
pub struct FirewallSetup {
    pub firewall_enabled: bool,
    pub firewall_vm_id: Option<u32>,
    pub firewall_network_profile: Option<u32>,
    pub apply_firewall_interfaces_config: bool,
}

/// A group of users and the name of its user group.
pub struct GroupDetail {
    pub group_name: String,
    pub userlist: Vec<String>,
}

/// A request to delete the environments with the given group ids.
pub struct DeleteEnvironmentRequest {
    pub group_ids: Vec<String>,
}

/// The filters of an environment listing.
pub struct ListEnvironmentParams {
    pub module: Option<String>,
    pub class: Option<String>,
    pub group_id: Option<String>,
}

} // verus!
