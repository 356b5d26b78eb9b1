use vstd::prelude::*;

verus! {

/// Health check response.
pub struct HealthResponse {
    pub status: String,
    pub version: String,
}

/// Generic success message.
pub struct MessageResponse {
    pub message: String,
}

/// Generic error message.
pub struct ErrorResponse {
    pub error: String,
}

/// Top-level creation request payload.
pub struct CreateConfigRequest {
    pub modul_configuration: ModulConfiguration,
    pub global_infrastructure_setup: GlobalInfrastructureSetup,
    pub group_details: Vec<GroupDetail>,
}

/// Module configuration section of the creation form.
pub struct ModulConfiguration {
    pub modulnumber: String,
    pub class: String,
    pub global_usernames: Vec<String>,
    pub group_amount: i32,
}

/// Global infrastructure setup section of the creation form.
pub struct GlobalInfrastructureSetup {
    pub node: String,
    pub firewall_setup: FirewallSetup,
}

/// Firewall configuration.
pub struct FirewallSetup {
    pub firewall_enabled: bool,
    pub firewall_vm_id: Option<i64>,
    pub apply_firewall_interfaces_config: bool,
}

/// A single group with its name and member list.
pub struct GroupDetail {
    pub group_name: String,
    pub userlist: Vec<String>,
}

/// Update request payload for an existing resource.
pub struct UpdateConfigRequest {
    pub resource_type: String,
    pub resource_id: i64,
    pub firewall_networkconfig: String,
}

/// A storage entry with usage information.
pub struct StorageEntry {
    pub storage: String,
    pub r_type: String,
    pub content: String,
    pub active: bool,
    pub shared: bool,
    pub total: i64,
    pub used: i64,
    pub avail: i64,
}

/// Firewall / infrastructure information for a VM.
pub struct InfrastructureInfo {
    pub vm_id: i64,
    pub firewall_enabled: bool,
    pub network_interfaces: Option<Vec<NetworkInterface>>,
}

/// A network interface attached to a VM.
pub struct NetworkInterface {
    pub name: String,
    pub bridge: String,
    pub firewall: Option<bool>,
    pub tag: Option<i32>,
}

/// Answers of POST /api/config/create.
#[allow(non_camel_case_types)]
pub enum CreateConfigResponse {
    /// Configuration created successfully
    Status201_ConfigurationCreated(MessageResponse),
    /// Invalid request
    Status400_InvalidRequest(ErrorResponse),
}

/// Answers of PUT /api/config/update.
#[allow(non_camel_case_types)]
pub enum UpdateConfigResponse {
    /// Configuration update accepted
    Status202_ConfigurationUpdateAccepted(MessageResponse),
    /// Invalid request
    Status400_InvalidRequest(ErrorResponse),
}

/// Answers of GET /api/group/list.
#[allow(non_camel_case_types)]
pub enum ListGroupsResponse {
    /// List of group names
    Status200_ListOfGroupNames(Vec<String>),
}

/// Answers of GET /health.
#[allow(non_camel_case_types)]
pub enum CheckHealthResponse {
    /// Service is healthy
    Status200_ServiceIsHealthy(HealthResponse),
}

/// Answers of GET /api/infrastructure/{vm_id}.
#[allow(non_camel_case_types)]
pub enum GetInfrastructureResponse {
    /// Infrastructure information
    Status200_InfrastructureInformation(InfrastructureInfo),
    /// Invalid VM ID or VM not found
    Status400_InvalidVmId(ErrorResponse),
}

/// Answers of GET /api/node/list.
#[allow(non_camel_case_types)]
pub enum ListNodesResponse {
    /// List of node names
    Status200_ListOfNodeNames(Vec<String>),
}

/// Answers of GET /api/config/storage.
#[allow(non_camel_case_types)]
pub enum ListStorageResponse {
    /// List of storage entries
    Status200_ListOfStorageEntries(Vec<StorageEntry>),
}

/// Answers of GET /api/user/list.
#[allow(non_camel_case_types)]
pub enum ListUsersResponse {
    /// List of usernames
    Status200_ListOfUsernames(Vec<String>),
}

/// Answers of GET /api/vm/list.
#[allow(non_camel_case_types)]
pub enum ListVmsResponse {
    /// List of VM names
    Status200_ListOfVmNames(Vec<String>),
}

impl CreateConfigResponse {
    /// The HTTP status of the answer.
    pub fn status(&self) -> (r: u16)
        ensures
            r == (if self is Status201_ConfigurationCreated { 201u16 } else { 400u16 }),
    {
        match self {
            CreateConfigResponse::Status201_ConfigurationCreated(_) => 201,
            CreateConfigResponse::Status400_InvalidRequest(_) => 400,
        }
    }
}

impl UpdateConfigResponse {
    /// The HTTP status of the answer.
    pub fn status(&self) -> (r: u16)
        ensures
            r == (if self is Status202_ConfigurationUpdateAccepted { 202u16 } else { 400u16 }),
    {
        match self {
            UpdateConfigResponse::Status202_ConfigurationUpdateAccepted(_) => 202,
            UpdateConfigResponse::Status400_InvalidRequest(_) => 400,
        }
    }
}

impl GetInfrastructureResponse {
    /// The HTTP status of the answer.
    pub fn status(&self) -> (r: u16)
        ensures
            r == (if self is Status200_InfrastructureInformation { 200u16 } else { 400u16 }),
    {
        match self {
            GetInfrastructureResponse::Status200_InfrastructureInformation(_) => 200,
            GetInfrastructureResponse::Status400_InvalidVmId(_) => 400,
        }
    }
}

} // verus!
