use vstd::prelude::*;
use vstd::string::*;

use crate::state::AppState;
use crate::text::{decimal, decimal_string, owned, push_decimal};

verus! {

/// The HTTP method of a Proxmox API call.
#[derive(Clone, Copy, Debug, PartialEq, Eq)]
pub enum HttpMethod {
    Get,
    Post,
    Put,
    Delete,
}

/// A call of the Proxmox API: the request line, the `Authorization` header, and the form
/// fields of the body (none for a call without a form). Every call goes through the server's
/// shared HTTP client, whose certificate checking follows the configuration (`tls_setup`). The
/// answer is read as JSON.
pub struct ProxmoxRequest {
    pub method: HttpMethod,
    pub url: String,
    pub authorization: String,
    pub form: Vec<(String, String)>,
}

/// The value of a [`ProxmoxRequest`].
pub struct ProxmoxRequestView {
    pub method: HttpMethod,
    pub url: Seq<char>,
    pub authorization: Seq<char>,
    pub form: Seq<(Seq<char>, Seq<char>)>,
}

/// The values of form fields.
pub open spec fn form_view(f: Seq<(String, String)>) -> Seq<(Seq<char>, Seq<char>)> {
    f.map_values(|p: (String, String)| (p.0@, p.1@))
}

impl View for ProxmoxRequest {
    type V = ProxmoxRequestView;

    open spec fn view(&self) -> ProxmoxRequestView {
        ProxmoxRequestView {
            method: self.method,
            url: self.url@,
            authorization: self.authorization@,
            form: form_view(self.form@),
        }
    }
}

/// The `Authorization` header of the Proxmox API token: `PVEAPIToken=<id>=<secret>`.
pub open spec fn auth_text(state: &AppState) -> Seq<char> {
    "PVEAPIToken="@ + state.proxmox_token_id@ + "="@ + state.proxmox_token_secret@
}

/// The `Authorization` header of the Proxmox API token: `PVEAPIToken=<id>=<secret>`.
pub fn api_token_header(state: &AppState) -> (r: String)
    ensures
        r@ == auth_text(state),
{
    let mut r = owned("PVEAPIToken=");
    r.append(state.proxmox_token_id.as_str());
    r.append("=");
    r.append(state.proxmox_token_secret.as_str());
    r
}

/// The Proxmox calls that manage environments, made with the server's shared HTTP client.
pub struct EnvironmentClient;

impl EnvironmentClient {
    /// The `Authorization` header value for the API token.
    fn auth_header(state: &AppState) -> (r: String)
        ensures
            r@ == auth_text(state),
    {
        api_token_header(state)
    }

    /// Clones the template VM `template_vm_id` on `node` into a full copy `new_vm_id` named `name`.
    pub fn create_environment(state: &AppState, node: &str, template_vm_id: u32, new_vm_id: u32, name: &str) -> (r: ProxmoxRequest)
        ensures
            r@ == (ProxmoxRequestView {
                method: HttpMethod::Post,
                url: state.proxmox_url@ + "/api2/json/nodes/"@ + node@ + "/qemu/"@ + decimal(template_vm_id as nat) + "/clone"@,
                authorization: auth_text(state),
                form: seq![("newid"@, decimal(new_vm_id as nat)), ("name"@, name@), ("full"@, "1"@)],
            }),
    {
        let mut url = state.proxmox_url.clone();
        url.append("/api2/json/nodes/");
        url.append(node);
        url.append("/qemu/");
        push_decimal(&mut url, template_vm_id as u64);
        url.append("/clone");
        let form: Vec<(String, String)> = vec![(owned("newid"), decimal_string(new_vm_id as u64)), (owned("name"), owned(name)), (owned("full"), owned("1"))];
        assert(form_view(form@) =~= seq![("newid"@, decimal(new_vm_id as nat)), ("name"@, name@), ("full"@, "1"@)]);
        ProxmoxRequest { method: HttpMethod::Post, url, authorization: Self::auth_header(state), form }
    }

    /// Lists all user groups.
    pub fn list_groups(state: &AppState) -> (r: ProxmoxRequest)
        ensures
            r@ == (ProxmoxRequestView {
                method: HttpMethod::Get,
                url: state.proxmox_url@ + "/api2/json/access/groups"@,
                authorization: auth_text(state),
                form: Seq::empty(),
            }),
    {
        let mut url = state.proxmox_url.clone();
        url.append("/api2/json/access/groups");
        let form: Vec<(String, String)> = Vec::new();
        assert(form_view(form@) =~= Seq::empty());
        ProxmoxRequest { method: HttpMethod::Get, url, authorization: Self::auth_header(state), form }
    }

    /// Reads the user group `group_id`.
    pub fn get_group(state: &AppState, group_id: &str) -> (r: ProxmoxRequest)
        ensures
            r@ == (ProxmoxRequestView {
                method: HttpMethod::Get,
                url: state.proxmox_url@ + "/api2/json/access/groups/"@ + group_id@,
                authorization: auth_text(state),
                form: Seq::empty(),
            }),
    {
        let mut url = state.proxmox_url.clone();
        url.append("/api2/json/access/groups/");
        url.append(group_id);
        let form: Vec<(String, String)> = Vec::new();
        assert(form_view(form@) =~= Seq::empty());
        ProxmoxRequest { method: HttpMethod::Get, url, authorization: Self::auth_header(state), form }
    }

    /// Reads the resource pool `pool_id`.
    pub fn get_pool(state: &AppState, pool_id: &str) -> (r: ProxmoxRequest)
        ensures
            r@ == (ProxmoxRequestView {
                method: HttpMethod::Get,
                url: state.proxmox_url@ + "/api2/json/pools/"@ + pool_id@,
                authorization: auth_text(state),
                form: Seq::empty(),
            }),
    {
        let mut url = state.proxmox_url.clone();
        url.append("/api2/json/pools/");
        url.append(pool_id);
        let form: Vec<(String, String)> = Vec::new();
        assert(form_view(form@) =~= Seq::empty());
        ProxmoxRequest { method: HttpMethod::Get, url, authorization: Self::auth_header(state), form }
    }

    /// Stops the VM `vm_id` on `node`.
    pub fn stop_vm(state: &AppState, node: &str, vm_id: u32) -> (r: ProxmoxRequest)
        ensures
            r@ == (ProxmoxRequestView {
                method: HttpMethod::Post,
                url: state.proxmox_url@ + "/api2/json/nodes/"@ + node@ + "/qemu/"@ + decimal(vm_id as nat) + "/status/stop"@,
                authorization: auth_text(state),
                form: Seq::empty(),
            }),
    {
        let mut url = state.proxmox_url.clone();
        url.append("/api2/json/nodes/");
        url.append(node);
        url.append("/qemu/");
        push_decimal(&mut url, vm_id as u64);
        url.append("/status/stop");
        let form: Vec<(String, String)> = Vec::new();
        assert(form_view(form@) =~= Seq::empty());
        ProxmoxRequest { method: HttpMethod::Post, url, authorization: Self::auth_header(state), form }
    }

    /// Deletes the VM `vm_id` on `node`.
    pub fn delete_vm(state: &AppState, node: &str, vm_id: u32) -> (r: ProxmoxRequest)
        ensures
            r@ == (ProxmoxRequestView {
                method: HttpMethod::Delete,
                url: state.proxmox_url@ + "/api2/json/nodes/"@ + node@ + "/qemu/"@ + decimal(vm_id as nat),
                authorization: auth_text(state),
                form: Seq::empty(),
            }),
    {
        let mut url = state.proxmox_url.clone();
        url.append("/api2/json/nodes/");
        url.append(node);
        url.append("/qemu/");
        push_decimal(&mut url, vm_id as u64);
        let form: Vec<(String, String)> = Vec::new();
        assert(form_view(form@) =~= Seq::empty());
        ProxmoxRequest { method: HttpMethod::Delete, url, authorization: Self::auth_header(state), form }
    }

    /// Deletes the virtual network `vnet`.
    pub fn delete_vnet(state: &AppState, vnet: &str) -> (r: ProxmoxRequest)
        ensures
            r@ == (ProxmoxRequestView {
                method: HttpMethod::Delete,
                url: state.proxmox_url@ + "/api2/json/cluster/sdn/vnets/"@ + vnet@,
                authorization: auth_text(state),
                form: Seq::empty(),
            }),
    {
        let mut url = state.proxmox_url.clone();
        url.append("/api2/json/cluster/sdn/vnets/");
        url.append(vnet);
        let form: Vec<(String, String)> = Vec::new();
        assert(form_view(form@) =~= Seq::empty());
        ProxmoxRequest { method: HttpMethod::Delete, url, authorization: Self::auth_header(state), form }
    }

    /// Deletes the SDN zone `zone`.
    pub fn delete_zone(state: &AppState, zone: &str) -> (r: ProxmoxRequest)
        ensures
            r@ == (ProxmoxRequestView {
                method: HttpMethod::Delete,
                url: state.proxmox_url@ + "/api2/json/cluster/sdn/zones/"@ + zone@,
                authorization: auth_text(state),
                form: Seq::empty(),
            }),
    {
        let mut url = state.proxmox_url.clone();
        url.append("/api2/json/cluster/sdn/zones/");
        url.append(zone);
        let form: Vec<(String, String)> = Vec::new();
        assert(form_view(form@) =~= Seq::empty());
        ProxmoxRequest { method: HttpMethod::Delete, url, authorization: Self::auth_header(state), form }
    }

    /// Deletes the resource pool `pool_id`.
    pub fn delete_pool(state: &AppState, pool_id: &str) -> (r: ProxmoxRequest)
        ensures
            r@ == (ProxmoxRequestView {
                method: HttpMethod::Delete,
                url: state.proxmox_url@ + "/api2/json/pools/"@ + pool_id@,
                authorization: auth_text(state),
                form: Seq::empty(),
            }),
    {
        let mut url = state.proxmox_url.clone();
        url.append("/api2/json/pools/");
        url.append(pool_id);
        let form: Vec<(String, String)> = Vec::new();
        assert(form_view(form@) =~= Seq::empty());
        ProxmoxRequest { method: HttpMethod::Delete, url, authorization: Self::auth_header(state), form }
    }

    /// Deletes the user group `group_id`.
    pub fn delete_group(state: &AppState, group_id: &str) -> (r: ProxmoxRequest)
        ensures
            r@ == (ProxmoxRequestView {
                method: HttpMethod::Delete,
                url: state.proxmox_url@ + "/api2/json/access/groups/"@ + group_id@,
                authorization: auth_text(state),
                form: Seq::empty(),
            }),
    {
        let mut url = state.proxmox_url.clone();
        url.append("/api2/json/access/groups/");
        url.append(group_id);
        let form: Vec<(String, String)> = Vec::new();
        assert(form_view(form@) =~= Seq::empty());
        ProxmoxRequest { method: HttpMethod::Delete, url, authorization: Self::auth_header(state), form }
    }

}

/// The Proxmox calls of provisioning.
pub struct ProxmoxAPI;

impl ProxmoxAPI {
    /// The `Authorization` header value for the API token.
    fn auth_header(state: &AppState) -> (r: String)
        ensures
            r@ == auth_text(state),
    {
        api_token_header(state)
    }

    /// POST /api2/json/nodes/{node}/qemu/{template_vm_id}/clone
    pub fn clone_vm(state: &AppState, node: &str, template_vm_id: u32, new_vm_id: u32, name: &str) -> (r: ProxmoxRequest)
        ensures
            r@ == (ProxmoxRequestView {
                method: HttpMethod::Post,
                url: state.proxmox_url@ + "/api2/json/nodes/"@ + node@ + "/qemu/"@ + decimal(template_vm_id as nat) + "/clone"@,
                authorization: auth_text(state),
                form: seq![("newid"@, decimal(new_vm_id as nat)), ("name"@, name@), ("full"@, "1"@)],
            }),
    {
        let mut url = state.proxmox_url.clone();
        url.append("/api2/json/nodes/");
        url.append(node);
        url.append("/qemu/");
        push_decimal(&mut url, template_vm_id as u64);
        url.append("/clone");
        let form: Vec<(String, String)> = vec![(owned("newid"), decimal_string(new_vm_id as u64)), (owned("name"), owned(name)), (owned("full"), owned("1"))];
        assert(form_view(form@) =~= seq![("newid"@, decimal(new_vm_id as nat)), ("name"@, name@), ("full"@, "1"@)]);
        ProxmoxRequest { method: HttpMethod::Post, url, authorization: Self::auth_header(state), form }
    }

    /// GET /api2/json/access/users
    pub fn list_users(state: &AppState) -> (r: ProxmoxRequest)
        ensures
            r@ == (ProxmoxRequestView {
                method: HttpMethod::Get,
                url: state.proxmox_url@ + "/api2/json/access/users"@,
                authorization: auth_text(state),
                form: Seq::empty(),
            }),
    {
        let mut url = state.proxmox_url.clone();
        url.append("/api2/json/access/users");
        let form: Vec<(String, String)> = Vec::new();
        assert(form_view(form@) =~= Seq::empty());
        ProxmoxRequest { method: HttpMethod::Get, url, authorization: Self::auth_header(state), form }
    }

    /// GET /api2/json/access/groups
    pub fn list_groups(state: &AppState) -> (r: ProxmoxRequest)
        ensures
            r@ == (ProxmoxRequestView {
                method: HttpMethod::Get,
                url: state.proxmox_url@ + "/api2/json/access/groups"@,
                authorization: auth_text(state),
                form: Seq::empty(),
            }),
    {
        let mut url = state.proxmox_url.clone();
        url.append("/api2/json/access/groups");
        let form: Vec<(String, String)> = Vec::new();
        assert(form_view(form@) =~= Seq::empty());
        ProxmoxRequest { method: HttpMethod::Get, url, authorization: Self::auth_header(state), form }
    }

    /// GET /api2/json/nodes
    pub fn list_nodes(state: &AppState) -> (r: ProxmoxRequest)
        ensures
            r@ == (ProxmoxRequestView {
                method: HttpMethod::Get,
                url: state.proxmox_url@ + "/api2/json/nodes"@,
                authorization: auth_text(state),
                form: Seq::empty(),
            }),
    {
        let mut url = state.proxmox_url.clone();
        url.append("/api2/json/nodes");
        let form: Vec<(String, String)> = Vec::new();
        assert(form_view(form@) =~= Seq::empty());
        ProxmoxRequest { method: HttpMethod::Get, url, authorization: Self::auth_header(state), form }
    }

    /// GET /api2/json/cluster/resources?type=vm
    pub fn list_vms(state: &AppState) -> (r: ProxmoxRequest)
        ensures
            r@ == (ProxmoxRequestView {
                method: HttpMethod::Get,
                url: state.proxmox_url@ + "/api2/json/cluster/resources?type=vm"@,
                authorization: auth_text(state),
                form: Seq::empty(),
            }),
    {
        let mut url = state.proxmox_url.clone();
        url.append("/api2/json/cluster/resources?type=vm");
        let form: Vec<(String, String)> = Vec::new();
        assert(form_view(form@) =~= Seq::empty());
        ProxmoxRequest { method: HttpMethod::Get, url, authorization: Self::auth_header(state), form }
    }

    /// GET /api2/json/storage
    pub fn list_storage(state: &AppState) -> (r: ProxmoxRequest)
        ensures
            r@ == (ProxmoxRequestView {
                method: HttpMethod::Get,
                url: state.proxmox_url@ + "/api2/json/storage"@,
                authorization: auth_text(state),
                form: Seq::empty(),
            }),
    {
        let mut url = state.proxmox_url.clone();
        url.append("/api2/json/storage");
        let form: Vec<(String, String)> = Vec::new();
        assert(form_view(form@) =~= Seq::empty());
        ProxmoxRequest { method: HttpMethod::Get, url, authorization: Self::auth_header(state), form }
    }

    /// GET /api2/json/access/roles
    pub fn list_roles(state: &AppState) -> (r: ProxmoxRequest)
        ensures
            r@ == (ProxmoxRequestView {
                method: HttpMethod::Get,
                url: state.proxmox_url@ + "/api2/json/access/roles"@,
                authorization: auth_text(state),
                form: Seq::empty(),
            }),
    {
        let mut url = state.proxmox_url.clone();
        url.append("/api2/json/access/roles");
        let form: Vec<(String, String)> = Vec::new();
        assert(form_view(form@) =~= Seq::empty());
        ProxmoxRequest { method: HttpMethod::Get, url, authorization: Self::auth_header(state), form }
    }

    /// GET /api2/json/nodes/{node}/qemu/{vm_id}/config: the VM configuration, for its firewall.
    pub fn get_vm_config(state: &AppState, node: &str, vm_id: u32) -> (r: ProxmoxRequest)
        ensures
            r@ == (ProxmoxRequestView {
                method: HttpMethod::Get,
                url: state.proxmox_url@ + "/api2/json/nodes/"@ + node@ + "/qemu/"@ + decimal(vm_id as nat) + "/config"@,
                authorization: auth_text(state),
                form: Seq::empty(),
            }),
    {
        let mut url = state.proxmox_url.clone();
        url.append("/api2/json/nodes/");
        url.append(node);
        url.append("/qemu/");
        push_decimal(&mut url, vm_id as u64);
        url.append("/config");
        let form: Vec<(String, String)> = Vec::new();
        assert(form_view(form@) =~= Seq::empty());
        ProxmoxRequest { method: HttpMethod::Get, url, authorization: Self::auth_header(state), form }
    }

    /// POST /api2/json/access/groups: creates a user group.
    pub fn create_group(state: &AppState, groupid: &str) -> (r: ProxmoxRequest)
        ensures
            r@ == (ProxmoxRequestView {
                method: HttpMethod::Post,
                url: state.proxmox_url@ + "/api2/json/access/groups"@,
                authorization: auth_text(state),
                form: seq![("groupid"@, groupid@)],
            }),
    {
        let mut url = state.proxmox_url.clone();
        url.append("/api2/json/access/groups");
        let form: Vec<(String, String)> = vec![(owned("groupid"), owned(groupid))];
        assert(form_view(form@) =~= seq![("groupid"@, groupid@)]);
        ProxmoxRequest { method: HttpMethod::Post, url, authorization: Self::auth_header(state), form }
    }

    /// POST /api2/json/pools: creates a resource pool.
    pub fn create_pool(state: &AppState, poolid: &str) -> (r: ProxmoxRequest)
        ensures
            r@ == (ProxmoxRequestView {
                method: HttpMethod::Post,
                url: state.proxmox_url@ + "/api2/json/pools"@,
                authorization: auth_text(state),
                form: seq![("poolid"@, poolid@)],
            }),
    {
        let mut url = state.proxmox_url.clone();
        url.append("/api2/json/pools");
        let form: Vec<(String, String)> = vec![(owned("poolid"), owned(poolid))];
        assert(form_view(form@) =~= seq![("poolid"@, poolid@)]);
        ProxmoxRequest { method: HttpMethod::Post, url, authorization: Self::auth_header(state), form }
    }

    /// PUT /api2/json/access/acl: grants `roles` on `path` to `groups`, propagated.
    pub fn set_acl(state: &AppState, path: &str, roles: &str, groups: &str) -> (r: ProxmoxRequest)
        ensures
            r@ == (ProxmoxRequestView {
                method: HttpMethod::Put,
                url: state.proxmox_url@ + "/api2/json/access/acl"@,
                authorization: auth_text(state),
                form: seq![("path"@, path@), ("roles"@, roles@), ("groups"@, groups@), ("propagate"@, "1"@)],
            }),
    {
        let mut url = state.proxmox_url.clone();
        url.append("/api2/json/access/acl");
        let form: Vec<(String, String)> = vec![(owned("path"), owned(path)), (owned("roles"), owned(roles)), (owned("groups"), owned(groups)), (owned("propagate"), owned("1"))];
        assert(form_view(form@) =~= seq![("path"@, path@), ("roles"@, roles@), ("groups"@, groups@), ("propagate"@, "1"@)]);
        ProxmoxRequest { method: HttpMethod::Put, url, authorization: Self::auth_header(state), form }
    }

    /// PUT /api2/json/access/groups/{groupid}: sets the members of a group.
    pub fn set_group_members(state: &AppState, groupid: &str, members: &str) -> (r: ProxmoxRequest)
        ensures
            r@ == (ProxmoxRequestView {
                method: HttpMethod::Put,
                url: state.proxmox_url@ + "/api2/json/access/groups/"@ + groupid@,
                authorization: auth_text(state),
                form: seq![("members"@, members@)],
            }),
    {
        let mut url = state.proxmox_url.clone();
        url.append("/api2/json/access/groups/");
        url.append(groupid);
        let form: Vec<(String, String)> = vec![(owned("members"), owned(members))];
        assert(form_view(form@) =~= seq![("members"@, members@)]);
        ProxmoxRequest { method: HttpMethod::Put, url, authorization: Self::auth_header(state), form }
    }

    /// DELETE /api2/json/access/groups/{groupid}
    pub fn delete_group(state: &AppState, groupid: &str) -> (r: ProxmoxRequest)
        ensures
            r@ == (ProxmoxRequestView {
                method: HttpMethod::Delete,
                url: state.proxmox_url@ + "/api2/json/access/groups/"@ + groupid@,
                authorization: auth_text(state),
                form: Seq::empty(),
            }),
    {
        let mut url = state.proxmox_url.clone();
        url.append("/api2/json/access/groups/");
        url.append(groupid);
        let form: Vec<(String, String)> = Vec::new();
        assert(form_view(form@) =~= Seq::empty());
        ProxmoxRequest { method: HttpMethod::Delete, url, authorization: Self::auth_header(state), form }
    }

    /// DELETE /api2/json/pools/{poolid}
    pub fn delete_pool(state: &AppState, poolid: &str) -> (r: ProxmoxRequest)
        ensures
            r@ == (ProxmoxRequestView {
                method: HttpMethod::Delete,
                url: state.proxmox_url@ + "/api2/json/pools/"@ + poolid@,
                authorization: auth_text(state),
                form: Seq::empty(),
            }),
    {
        let mut url = state.proxmox_url.clone();
        url.append("/api2/json/pools/");
        url.append(poolid);
        let form: Vec<(String, String)> = Vec::new();
        assert(form_view(form@) =~= Seq::empty());
        ProxmoxRequest { method: HttpMethod::Delete, url, authorization: Self::auth_header(state), form }
    }

    /// POST /api2/json/nodes/{node}/qemu/{vmid}/status/stop
    pub fn stop_vm(state: &AppState, node: &str, vmid: u32) -> (r: ProxmoxRequest)
        ensures
            r@ == (ProxmoxRequestView {
                method: HttpMethod::Post,
                url: state.proxmox_url@ + "/api2/json/nodes/"@ + node@ + "/qemu/"@ + decimal(vmid as nat) + "/status/stop"@,
                authorization: auth_text(state),
                form: Seq::empty(),
            }),
    {
        let mut url = state.proxmox_url.clone();
        url.append("/api2/json/nodes/");
        url.append(node);
        url.append("/qemu/");
        push_decimal(&mut url, vmid as u64);
        url.append("/status/stop");
        let form: Vec<(String, String)> = Vec::new();
        assert(form_view(form@) =~= Seq::empty());
        ProxmoxRequest { method: HttpMethod::Post, url, authorization: Self::auth_header(state), form }
    }

    /// DELETE /api2/json/nodes/{node}/qemu/{vmid}
    pub fn delete_vm(state: &AppState, node: &str, vmid: u32) -> (r: ProxmoxRequest)
        ensures
            r@ == (ProxmoxRequestView {
                method: HttpMethod::Delete,
                url: state.proxmox_url@ + "/api2/json/nodes/"@ + node@ + "/qemu/"@ + decimal(vmid as nat),
                authorization: auth_text(state),
                form: Seq::empty(),
            }),
    {
        let mut url = state.proxmox_url.clone();
        url.append("/api2/json/nodes/");
        url.append(node);
        url.append("/qemu/");
        push_decimal(&mut url, vmid as u64);
        let form: Vec<(String, String)> = Vec::new();
        assert(form_view(form@) =~= Seq::empty());
        ProxmoxRequest { method: HttpMethod::Delete, url, authorization: Self::auth_header(state), form }
    }

    /// POST /api2/json/cluster/sdn/zones: creates a simple zone.
    pub fn create_zone(state: &AppState, zone: &str) -> (r: ProxmoxRequest)
        ensures
            r@ == (ProxmoxRequestView {
                method: HttpMethod::Post,
                url: state.proxmox_url@ + "/api2/json/cluster/sdn/zones"@,
                authorization: auth_text(state),
                form: seq![("zone"@, zone@), ("type"@, "simple"@)],
            }),
    {
        let mut url = state.proxmox_url.clone();
        url.append("/api2/json/cluster/sdn/zones");
        let form: Vec<(String, String)> = vec![(owned("zone"), owned(zone)), (owned("type"), owned("simple"))];
        assert(form_view(form@) =~= seq![("zone"@, zone@), ("type"@, "simple"@)]);
        ProxmoxRequest { method: HttpMethod::Post, url, authorization: Self::auth_header(state), form }
    }

    /// DELETE /api2/json/cluster/sdn/zones/{zone}
    pub fn delete_zone(state: &AppState, zone: &str) -> (r: ProxmoxRequest)
        ensures
            r@ == (ProxmoxRequestView {
                method: HttpMethod::Delete,
                url: state.proxmox_url@ + "/api2/json/cluster/sdn/zones/"@ + zone@,
                authorization: auth_text(state),
                form: Seq::empty(),
            }),
    {
        let mut url = state.proxmox_url.clone();
        url.append("/api2/json/cluster/sdn/zones/");
        url.append(zone);
        let form: Vec<(String, String)> = Vec::new();
        assert(form_view(form@) =~= Seq::empty());
        ProxmoxRequest { method: HttpMethod::Delete, url, authorization: Self::auth_header(state), form }
    }

    /// POST /api2/json/cluster/sdn/vnets: creates a virtual network in `zone`.
    pub fn create_vnet(state: &AppState, vnet: &str, zone: &str) -> (r: ProxmoxRequest)
        ensures
            r@ == (ProxmoxRequestView {
                method: HttpMethod::Post,
                url: state.proxmox_url@ + "/api2/json/cluster/sdn/vnets"@,
                authorization: auth_text(state),
                form: seq![("vnet"@, vnet@), ("zone"@, zone@)],
            }),
    {
        let mut url = state.proxmox_url.clone();
        url.append("/api2/json/cluster/sdn/vnets");
        let form: Vec<(String, String)> = vec![(owned("vnet"), owned(vnet)), (owned("zone"), owned(zone))];
        assert(form_view(form@) =~= seq![("vnet"@, vnet@), ("zone"@, zone@)]);
        ProxmoxRequest { method: HttpMethod::Post, url, authorization: Self::auth_header(state), form }
    }

    /// DELETE /api2/json/cluster/sdn/vnets/{vnet}
    pub fn delete_vnet(state: &AppState, vnet: &str) -> (r: ProxmoxRequest)
        ensures
            r@ == (ProxmoxRequestView {
                method: HttpMethod::Delete,
                url: state.proxmox_url@ + "/api2/json/cluster/sdn/vnets/"@ + vnet@,
                authorization: auth_text(state),
                form: Seq::empty(),
            }),
    {
        let mut url = state.proxmox_url.clone();
        url.append("/api2/json/cluster/sdn/vnets/");
        url.append(vnet);
        let form: Vec<(String, String)> = Vec::new();
        assert(form_view(form@) =~= Seq::empty());
        ProxmoxRequest { method: HttpMethod::Delete, url, authorization: Self::auth_header(state), form }
    }

}

/// The Proxmox calls behind the dropdown lists, made with the server's shared HTTP client.
pub struct ProxmoxClient;

impl ProxmoxClient {
    /// The `Authorization` header value for the API token.
    fn auth_header(state: &AppState) -> (r: String)
        ensures
            r@ == auth_text(state),
    {
        api_token_header(state)
    }

    /// Fetches all users via GET /api2/json/access/users.
    pub fn list_users(state: &AppState) -> (r: ProxmoxRequest)
        ensures
            r@ == (ProxmoxRequestView {
                method: HttpMethod::Get,
                url: state.proxmox_url@ + "/api2/json/access/users"@,
                authorization: auth_text(state),
                form: Seq::empty(),
            }),
    {
        let mut url = state.proxmox_url.clone();
        url.append("/api2/json/access/users");
        let form: Vec<(String, String)> = Vec::new();
        assert(form_view(form@) =~= Seq::empty());
        ProxmoxRequest { method: HttpMethod::Get, url, authorization: Self::auth_header(state), form }
    }

    /// Fetches all groups via GET /api2/json/access/groups.
    pub fn list_groups(state: &AppState) -> (r: ProxmoxRequest)
        ensures
            r@ == (ProxmoxRequestView {
                method: HttpMethod::Get,
                url: state.proxmox_url@ + "/api2/json/access/groups"@,
                authorization: auth_text(state),
                form: Seq::empty(),
            }),
    {
        let mut url = state.proxmox_url.clone();
        url.append("/api2/json/access/groups");
        let form: Vec<(String, String)> = Vec::new();
        assert(form_view(form@) =~= Seq::empty());
        ProxmoxRequest { method: HttpMethod::Get, url, authorization: Self::auth_header(state), form }
    }

    /// Fetches the VMs of `node` via GET /api2/json/nodes/{node}/qemu.
    pub fn list_vms(state: &AppState, node: &str) -> (r: ProxmoxRequest)
        ensures
            r@ == (ProxmoxRequestView {
                method: HttpMethod::Get,
                url: state.proxmox_url@ + "/api2/json/nodes/"@ + node@ + "/qemu"@,
                authorization: auth_text(state),
                form: Seq::empty(),
            }),
    {
        let mut url = state.proxmox_url.clone();
        url.append("/api2/json/nodes/");
        url.append(node);
        url.append("/qemu");
        let form: Vec<(String, String)> = Vec::new();
        assert(form_view(form@) =~= Seq::empty());
        ProxmoxRequest { method: HttpMethod::Get, url, authorization: Self::auth_header(state), form }
    }

    /// Fetches all storage pools via GET /api2/json/storage.
    pub fn list_storage(state: &AppState) -> (r: ProxmoxRequest)
        ensures
            r@ == (ProxmoxRequestView {
                method: HttpMethod::Get,
                url: state.proxmox_url@ + "/api2/json/storage"@,
                authorization: auth_text(state),
                form: Seq::empty(),
            }),
    {
        let mut url = state.proxmox_url.clone();
        url.append("/api2/json/storage");
        let form: Vec<(String, String)> = Vec::new();
        assert(form_view(form@) =~= Seq::empty());
        ProxmoxRequest { method: HttpMethod::Get, url, authorization: Self::auth_header(state), form }
    }

    /// Fetches all roles via GET /api2/json/access/roles.
    pub fn list_roles(state: &AppState) -> (r: ProxmoxRequest)
        ensures
            r@ == (ProxmoxRequestView {
                method: HttpMethod::Get,
                url: state.proxmox_url@ + "/api2/json/access/roles"@,
                authorization: auth_text(state),
                form: Seq::empty(),
            }),
    {
        let mut url = state.proxmox_url.clone();
        url.append("/api2/json/access/roles");
        let form: Vec<(String, String)> = Vec::new();
        assert(form_view(form@) =~= Seq::empty());
        ProxmoxRequest { method: HttpMethod::Get, url, authorization: Self::auth_header(state), form }
    }

    /// Fetches the firewall options of a VM via GET /api2/json/nodes/{node}/qemu/{vmid}/firewall/options.
    pub fn get_vm_firewall(state: &AppState, node: &str, vm_id: u32) -> (r: ProxmoxRequest)
        ensures
            r@ == (ProxmoxRequestView {
                method: HttpMethod::Get,
                url: state.proxmox_url@ + "/api2/json/nodes/"@ + node@ + "/qemu/"@ + decimal(vm_id as nat) + "/firewall/options"@,
                authorization: auth_text(state),
                form: Seq::empty(),
            }),
    {
        let mut url = state.proxmox_url.clone();
        url.append("/api2/json/nodes/");
        url.append(node);
        url.append("/qemu/");
        push_decimal(&mut url, vm_id as u64);
        url.append("/firewall/options");
        let form: Vec<(String, String)> = Vec::new();
        assert(form_view(form@) =~= Seq::empty());
        ProxmoxRequest { method: HttpMethod::Get, url, authorization: Self::auth_header(state), form }
    }

    /// Fetches the configuration of a VM, with its network interfaces, via GET /api2/json/nodes/{node}/qemu/{vmid}/config.
    pub fn get_vm_config(state: &AppState, node: &str, vm_id: u32) -> (r: ProxmoxRequest)
        ensures
            r@ == (ProxmoxRequestView {
                method: HttpMethod::Get,
                url: state.proxmox_url@ + "/api2/json/nodes/"@ + node@ + "/qemu/"@ + decimal(vm_id as nat) + "/config"@,
                authorization: auth_text(state),
                form: Seq::empty(),
            }),
    {
        let mut url = state.proxmox_url.clone();
        url.append("/api2/json/nodes/");
        url.append(node);
        url.append("/qemu/");
        push_decimal(&mut url, vm_id as u64);
        url.append("/config");
        let form: Vec<(String, String)> = Vec::new();
        assert(form_view(form@) =~= Seq::empty());
        ProxmoxRequest { method: HttpMethod::Get, url, authorization: Self::auth_header(state), form }
    }

}

/// The Proxmox call that lists the cluster nodes.
pub struct NodesClient;

impl NodesClient {
    /// Fetches the cluster nodes via GET /api2/json/nodes.
    pub fn get_nodes(state: &AppState) -> (r: ProxmoxRequest)
        ensures
            r@ == (ProxmoxRequestView {
                method: HttpMethod::Get,
                url: state.proxmox_url@ + "/api2/json/nodes"@,
                authorization: auth_text(state),
                form: Seq::empty(),
            }),
    {
        let mut url = state.proxmox_url.clone();
        url.append("/api2/json/nodes");
        let form: Vec<(String, String)> = Vec::new();
        assert(form_view(form@) =~= Seq::empty());
        ProxmoxRequest { method: HttpMethod::Get, url, authorization: api_token_header(state), form }
    }

}

/// The Proxmox call that clones a VM for an environment (Umgebung).
pub struct UmgebungClient;

impl UmgebungClient {
    /// Creates a new VM (Umgebung) by cloning a template.
    pub fn create_umgebung(state: &AppState, node: &str, template_vm_id: u32, new_vm_id: u32, name: &str) -> (r: ProxmoxRequest)
        ensures
            r@ == (ProxmoxRequestView {
                method: HttpMethod::Post,
                url: state.proxmox_url@ + "/api2/json/nodes/"@ + node@ + "/qemu/"@ + decimal(template_vm_id as nat) + "/clone"@,
                authorization: auth_text(state),
                form: seq![("newid"@, decimal(new_vm_id as nat)), ("name"@, name@), ("full"@, "1"@)],
            }),
    {
        let mut url = state.proxmox_url.clone();
        url.append("/api2/json/nodes/");
        url.append(node);
        url.append("/qemu/");
        push_decimal(&mut url, template_vm_id as u64);
        url.append("/clone");
        let form: Vec<(String, String)> = vec![(owned("newid"), decimal_string(new_vm_id as u64)), (owned("name"), owned(name)), (owned("full"), owned("1"))];
        assert(form_view(form@) =~= seq![("newid"@, decimal(new_vm_id as nat)), ("name"@, name@), ("full"@, "1"@)]);
        ProxmoxRequest { method: HttpMethod::Post, url, authorization: api_token_header(state), form }
    }

}
} // verus!
