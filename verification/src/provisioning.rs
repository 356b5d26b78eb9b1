use vstd::prelude::*;
use vstd::string::*;

use crate::app_config::{Settings, SettingsView};
use crate::clients::{auth_text, EnvironmentClient, HttpMethod, ProxmoxAPI, ProxmoxRequestView, UmgebungClient};
use crate::dropdown::{string_array, strings_to_json};
use crate::dto::{CreateEnvironmentRequest, GroupDetail};
use crate::json::{json_array, json_object, json_object1, json_str, json_values, member, member_values, Json, JsonValue};
use crate::naming::{
    firewall_vm_name, firewall_vm_name_for, group_id_for_index, group_id_text, provisioned_pool_for,
    provisioned_pool_name, simple_zone_for, simple_zone_name, vnet_dmz_for, vnet_dmz_name, vnet_lan_for,
    vnet_lan_name,
};
use crate::plan::{calls_view, failure_message, failures_view, OnFailure, OnFailureView, PlanRun, PlannedCall, PlannedCallView};
use crate::response::{error_body, json_response, HttpResponse, HttpResponseView};
use crate::state::AppState;
use crate::text::{concat2, decimal, joined, join_strings, owned, views};

verus! {

/// The template of the firewall VMs, when the request asks for them.
pub open spec fn firewall_template(body: &CreateEnvironmentRequest) -> Option<u32> {
    if body.global_infrastructure_setup.firewall_setup.firewall_enabled {
        body.global_infrastructure_setup.firewall_setup.firewall_vm_id
    } else {
        None
    }
}

/// The id of the firewall VM of the group at position `i` fits in `u32` for every group.
pub open spec fn firewall_ids_fit(body: &CreateEnvironmentRequest) -> bool {
    firewall_template(body) is Some ==> body.group_details.len() <= u32::MAX - 899
}

/// The request that clones the firewall VM of the group at position `i` from `template`.
pub open spec fn firewall_clone_request(
    state: &AppState,
    settings: SettingsView,
    body: &CreateEnvironmentRequest,
    i: int,
    template: u32,
) -> ProxmoxRequestView {
    ProxmoxRequestView {
        method: HttpMethod::Post,
        url: state.proxmox_url@ + "/api2/json/nodes/"@ + body.global_infrastructure_setup.node@ + "/qemu/"@
            + decimal(template as nat) + "/clone"@,
        authorization: auth_text(state),
        form: seq![
            ("newid"@, decimal((900 + i) as nat)),
            ("name"@, firewall_vm_name(settings, body.modul_configuration.modulnumber@, body.modul_configuration.class@, (i + 1) as nat)),
            ("full"@, "1"@),
        ],
    }
}

/// The calls that clone the firewall VMs of the first `k` groups, each stopping the creation
/// when it fails.
pub open spec fn firewall_clone_calls(state: &AppState, settings: SettingsView, body: &CreateEnvironmentRequest, k: int) -> Seq<PlannedCallView>
    decreases k,
{
    if k <= 0 {
        Seq::empty()
    } else {
        let rest = firewall_clone_calls(state, settings, body, k - 1);
        match firewall_template(body) {
            Some(t) => rest.push(
                PlannedCallView {
                    request: firewall_clone_request(state, settings, body, k - 1, t),
                    on_failure: OnFailureView::Abort("Failed to clone firewall VM"@),
                },
            ),
            None => rest,
        }
    }
}

/// The plan of an environment creation: one firewall clone per group, made by the environment
/// client when `umgebung` is false and by the Umgebung client otherwise.
fn firewall_clone_plan(state: &AppState, settings: &Settings, body: &CreateEnvironmentRequest, umgebung: bool) -> (r: Vec<PlannedCall>)
    requires
        firewall_ids_fit(body),
    ensures
        calls_view(r@) == firewall_clone_calls(state, settings@, body, body.group_details.len() as int),
{
    let mut plan: Vec<PlannedCall> = Vec::new();
    let setup = &body.global_infrastructure_setup.firewall_setup;
    let template = if setup.firewall_enabled { setup.firewall_vm_id } else { None };
    let mut i: usize = 0;
    while i < body.group_details.len()
        invariant
            i <= body.group_details.len(),
            firewall_ids_fit(body),
            template == firewall_template(body),
            calls_view(plan@) == firewall_clone_calls(state, settings@, body, i as int),
        decreases body.group_details.len() - i,
    {
        match template {
            Some(t) => {
                let name = firewall_vm_name_for(
                    settings,
                    body.modul_configuration.modulnumber.as_str(),
                    body.modul_configuration.class.as_str(),
                    (i + 1) as u64,
                );
                let new_id: u32 = 900 + (i as u32);
                let request = if umgebung {
                    UmgebungClient::create_umgebung(state, body.global_infrastructure_setup.node.as_str(), t, new_id, name.as_str())
                } else {
                    EnvironmentClient::create_environment(state, body.global_infrastructure_setup.node.as_str(), t, new_id, name.as_str())
                };
                let call = PlannedCall { request, on_failure: OnFailure::Abort(owned("Failed to clone firewall VM")) };
                let ghost cv = call@;
                assert(cv == PlannedCallView {
                    request: firewall_clone_request(state, settings@, body, i as int, t),
                    on_failure: OnFailureView::Abort("Failed to clone firewall VM"@),
                });
                plan.push(call);
                assert(calls_view(plan@) =~= firewall_clone_calls(state, settings@, body, i as int).push(cv));
            },
            None => {},
        }
        i = i + 1;
    }
    plan
}

/// The plan of an environment creation: one firewall clone per group, when the request asks for
/// a firewall, each VM named after the current settings.
pub fn environment_creation_plan(state: &AppState, settings: &Settings, body: &CreateEnvironmentRequest) -> (r: Vec<PlannedCall>)
    requires
        firewall_ids_fit(body),
    ensures
        calls_view(r@) == firewall_clone_calls(state, settings@, body, body.group_details.len() as int),
{
    firewall_clone_plan(state, settings, body, false)
}

/// The plan of an Umgebung creation: the same clones as an environment creation, made by the
/// Umgebung client.
pub fn umgebung_creation_plan(state: &AppState, settings: &Settings, body: &CreateEnvironmentRequest) -> (r: Vec<PlannedCall>)
    requires
        firewall_ids_fit(body),
    ensures
        calls_view(r@) == firewall_clone_calls(state, settings@, body, body.group_details.len() as int),
{
    firewall_clone_plan(state, settings, body, true)
}

/// A created environment as the creation answer shows it: its group id, group name and members.
pub open spec fn created_entry(i: int, g: GroupDetail) -> JsonValue {
    JsonValue::Object(
        seq![
            ("group_id"@, JsonValue::Str(group_id_text((i + 1) as nat))),
            ("group_name"@, JsonValue::Str(g.group_name@)),
            ("members"@, string_array(views(g.userlist@))),
        ],
    )
}

/// `{"created": [...]}`.
pub open spec fn created_body(entries: Seq<JsonValue>) -> JsonValue {
    JsonValue::Object(seq![("created"@, JsonValue::Array(entries))])
}

/// The answer of an environment creation once its plan ran: the error of the clone that failed,
/// or 201 with the created groups.
pub fn environment_creation_response(run: &PlanRun, body: &CreateEnvironmentRequest) -> (r: HttpResponse)
    requires
        run.wf(),
        run.done(),
        body.group_details.len() < usize::MAX,
    ensures
        run.aborted() ==> r@ == (HttpResponseView {
            status: 500,
            body: Some(error_body(failure_message(
                run.planned()[run.failures().len() - 1].on_failure->Abort_0,
                run.failures()[run.failures().len() - 1]->Some_0,
            ))),
        }),
        !run.aborted() ==> r@ == (HttpResponseView {
            status: 201,
            body: Some(created_body(Seq::new(body.group_details.len() as nat, |i: int| created_entry(i, body.group_details@[i])))),
        }),
{
    match run.abort_response() {
        Some(resp) => resp,
        None => {
            let mut entries: Vec<Json> = Vec::new();
            let mut i: usize = 0;
            while i < body.group_details.len()
                invariant
                    i <= body.group_details.len() < usize::MAX,
                    entries.len() == i,
                    forall|k: int| 0 <= k < i ==> (#[trigger] entries@[k])@ == created_entry(k, body.group_details@[k]),
                decreases body.group_details.len() - i,
            {
                let g = &body.group_details[i];
                let fields = vec![
                    member("group_id", json_str(group_id_for_index(i).as_str())),
                    member("group_name", json_str(g.group_name.as_str())),
                    member("members", strings_to_json(&g.userlist)),
                ];
                let ghost fv = fields@;
                let entry = json_object(fields);
                assert(member_values(fv) =~= created_entry(i as int, body.group_details@[i as int])->Object_0);
                entries.push(entry);
                i = i + 1;
            }
            let ghost ev = entries@;
            assert(json_values(ev) =~= Seq::new(body.group_details.len() as nat, |i: int| created_entry(i, body.group_details@[i])));
            json_response(201, json_object1("created", json_array(entries)))
        },
    }
}


// ---------------------------------------------------------------------------
// Provisioning: groups, pools, zones, networks, permissions and firewalls
// ---------------------------------------------------------------------------

/// A call of the provisioning client.
pub open spec fn api_call(method: HttpMethod, state: &AppState, path: Seq<char>, form: Seq<(Seq<char>, Seq<char>)>, on_failure: OnFailureView) -> PlannedCallView {
    PlannedCallView {
        request: ProxmoxRequestView {
            method: method,
            url: state.proxmox_url@ + path,
            authorization: auth_text(state),
            form: form,
        },
        on_failure: on_failure,
    }
}

/// The calls that provision the group at position `i`: create its user group (failure stops the
/// provisioning), give it its members, create its resource pool, simple zone and two virtual
/// networks, grant the group `PVEVMUser` on the pool, and clone its firewall VM when asked; the
/// failures of all but the first are left aside. The resources are named after the settings.
pub open spec fn group_provisioning_calls(state: &AppState, settings: SettingsView, body: &CreateEnvironmentRequest, i: int) -> Seq<PlannedCallView> {
    let g = body.group_details@[i];
    let n = (i + 1) as nat;
    let module = body.modul_configuration.modulnumber@;
    let class = body.modul_configuration.class@;
    let pool = provisioned_pool_name(settings, module, class, n);
    let zone = simple_zone_name(settings, group_id_text(n));
    let steps = seq![
        api_call(HttpMethod::Post, state, "/api2/json/access/groups"@, seq![("groupid"@, g.group_name@)],
            OnFailureView::Abort("Failed to create group "@ + g.group_name@)),
        PlannedCallView {
            request: ProxmoxRequestView {
                method: HttpMethod::Put,
                url: state.proxmox_url@ + "/api2/json/access/groups/"@ + g.group_name@,
                authorization: auth_text(state),
                form: seq![("members"@, joined(views(g.userlist@), ","@))],
            },
            on_failure: OnFailureView::Ignore,
        },
        api_call(HttpMethod::Post, state, "/api2/json/pools"@, seq![("poolid"@, pool)], OnFailureView::Ignore),
        api_call(HttpMethod::Post, state, "/api2/json/cluster/sdn/zones"@, seq![("zone"@, zone), ("type"@, "simple"@)], OnFailureView::Ignore),
        api_call(HttpMethod::Post, state, "/api2/json/cluster/sdn/vnets"@,
            seq![("vnet"@, vnet_dmz_name(settings, group_id_text(n))), ("zone"@, zone)], OnFailureView::Ignore),
        api_call(HttpMethod::Post, state, "/api2/json/cluster/sdn/vnets"@,
            seq![("vnet"@, vnet_lan_name(settings, group_id_text(n))), ("zone"@, zone)], OnFailureView::Ignore),
        api_call(HttpMethod::Put, state, "/api2/json/access/acl"@,
            seq![("path"@, "/pool/"@ + pool), ("roles"@, "PVEVMUser"@), ("groups"@, g.group_name@), ("propagate"@, "1"@)],
            OnFailureView::Ignore),
    ];
    match firewall_template(body) {
        Some(t) => steps.push(PlannedCallView {
            request: firewall_clone_request(state, settings, body, i, t),
            on_failure: OnFailureView::Ignore,
        }),
        None => steps,
    }
}

/// The calls that provision the first `k` groups, group after group.
pub open spec fn provisioning_calls(state: &AppState, settings: SettingsView, body: &CreateEnvironmentRequest, k: int) -> Seq<PlannedCallView>
    decreases k,
{
    if k <= 0 {
        Seq::empty()
    } else {
        provisioning_calls(state, settings, body, k - 1) + group_provisioning_calls(state, settings, body, k - 1)
    }
}

/// Appends a call to a plan.
fn add_call(plan: &mut Vec<PlannedCall>, call: PlannedCall)
    ensures
        calls_view(final(plan)@) == calls_view(old(plan)@).push(call@),
{
    let ghost c = call@;
    plan.push(call);
    assert(calls_view(final(plan)@) =~= calls_view(old(plan)@).push(c));
}

/// The plan that provisions every group of the request, group after group, its resources named
/// after the current settings.
pub fn provisioning_plan(state: &AppState, settings: &Settings, body: &CreateEnvironmentRequest) -> (r: Vec<PlannedCall>)
    requires
        firewall_ids_fit(body),
    ensures
        calls_view(r@) == provisioning_calls(state, settings@, body, body.group_details.len() as int),
{
    let mut plan: Vec<PlannedCall> = Vec::new();
    let module = body.modul_configuration.modulnumber.as_str();
    let class = body.modul_configuration.class.as_str();
    let node = body.global_infrastructure_setup.node.as_str();
    let setup = &body.global_infrastructure_setup.firewall_setup;
    let template = if setup.firewall_enabled { setup.firewall_vm_id } else { None };
    let mut i: usize = 0;
    while i < body.group_details.len()
        invariant
            i <= body.group_details.len(),
            firewall_ids_fit(body),
            template == firewall_template(body),
            module@ == body.modul_configuration.modulnumber@,
            class@ == body.modul_configuration.class@,
            node@ == body.global_infrastructure_setup.node@,
            calls_view(plan@) == provisioning_calls(state, settings@, body, i as int),
        decreases body.group_details.len() - i,
    {
        let ghost before = calls_view(plan@);
        let g = &body.group_details[i];
        let name = g.group_name.as_str();
        let n = (i + 1) as u64;
        let group_id = group_id_for_index(i);
        let pool = provisioned_pool_for(settings, module, class, n);
        let zone = simple_zone_for(settings, group_id.as_str());
        let vnet_dmz = vnet_dmz_for(settings, group_id.as_str());
        let vnet_lan = vnet_lan_for(settings, group_id.as_str());
        let members = join_strings(&g.userlist, ",");
        let acl_path = concat2("/pool/", pool.as_str());
        add_call(&mut plan, PlannedCall {
            request: ProxmoxAPI::create_group(state, name),
            on_failure: OnFailure::Abort(concat2("Failed to create group ", name)),
        });
        add_call(&mut plan, PlannedCall {
            request: ProxmoxAPI::set_group_members(state, name, members.as_str()),
            on_failure: OnFailure::Ignore,
        });
        add_call(&mut plan, PlannedCall { request: ProxmoxAPI::create_pool(state, pool.as_str()), on_failure: OnFailure::Ignore });
        add_call(&mut plan, PlannedCall { request: ProxmoxAPI::create_zone(state, zone.as_str()), on_failure: OnFailure::Ignore });
        add_call(&mut plan, PlannedCall {
            request: ProxmoxAPI::create_vnet(state, vnet_dmz.as_str(), zone.as_str()),
            on_failure: OnFailure::Ignore,
        });
        add_call(&mut plan, PlannedCall {
            request: ProxmoxAPI::create_vnet(state, vnet_lan.as_str(), zone.as_str()),
            on_failure: OnFailure::Ignore,
        });
        add_call(&mut plan, PlannedCall {
            request: ProxmoxAPI::set_acl(state, acl_path.as_str(), "PVEVMUser", name),
            on_failure: OnFailure::Ignore,
        });
        match template {
            Some(t) => {
                let fw_name = firewall_vm_name_for(settings, module, class, n);
                add_call(&mut plan, PlannedCall {
                    request: ProxmoxAPI::clone_vm(state, node, t, 900 + (i as u32), fw_name.as_str()),
                    on_failure: OnFailure::Ignore,
                });
            },
            None => {},
        }
        assert(calls_view(plan@) =~= before + group_provisioning_calls(state, settings@, body, i as int));
        i = i + 1;
    }
    plan
}

/// A provisioned group as the creation answer shows it: its group id and name, and the names of
/// its resource pool, simple zone and virtual networks.
pub open spec fn provisioned_entry(settings: SettingsView, body: &CreateEnvironmentRequest, i: int) -> JsonValue {
    let n = (i + 1) as nat;
    JsonValue::Object(
        seq![
            ("group_id"@, JsonValue::Str(group_id_text(n))),
            ("group_name"@, JsonValue::Str(body.group_details@[i].group_name@)),
            ("resource_pool"@, JsonValue::Str(provisioned_pool_name(settings, body.modul_configuration.modulnumber@, body.modul_configuration.class@, n))),
            ("simple_zone"@, JsonValue::Str(simple_zone_name(settings, group_id_text(n)))),
            ("vnets"@, string_array(seq![vnet_dmz_name(settings, group_id_text(n)), vnet_lan_name(settings, group_id_text(n))])),
        ],
    )
}

/// The answer of a provisioning once its plan ran: the error when a user group could not be
/// created, or 201 with the provisioned groups.
pub fn provisioning_response(run: &PlanRun, settings: &Settings, body: &CreateEnvironmentRequest) -> (r: HttpResponse)
    requires
        run.wf(),
        run.done(),
        body.group_details.len() < usize::MAX,
    ensures
        run.aborted() ==> r@ == (HttpResponseView {
            status: 500,
            body: Some(error_body(failure_message(
                run.planned()[run.failures().len() - 1].on_failure->Abort_0,
                run.failures()[run.failures().len() - 1]->Some_0,
            ))),
        }),
        !run.aborted() ==> r@ == (HttpResponseView {
            status: 201,
            body: Some(created_body(Seq::new(body.group_details.len() as nat, |i: int| provisioned_entry(settings@, body, i)))),
        }),
{
    match run.abort_response() {
        Some(resp) => resp,
        None => {
            let module = body.modul_configuration.modulnumber.as_str();
            let class = body.modul_configuration.class.as_str();
            let mut entries: Vec<Json> = Vec::new();
            let mut i: usize = 0;
            while i < body.group_details.len()
                invariant
                    i <= body.group_details.len() < usize::MAX,
                    module@ == body.modul_configuration.modulnumber@,
                    class@ == body.modul_configuration.class@,
                    entries.len() == i,
                    forall|k: int| 0 <= k < i ==> (#[trigger] entries@[k])@ == provisioned_entry(settings@, body, k),
                decreases body.group_details.len() - i,
            {
                let group_id = group_id_for_index(i);
                let vnets = vec![vnet_dmz_for(settings, group_id.as_str()), vnet_lan_for(settings, group_id.as_str())];
                let ghost vv = views(vnets@);
                let fields = vec![
                    member("group_id", json_str(group_id.as_str())),
                    member("group_name", json_str(body.group_details[i].group_name.as_str())),
                    member("resource_pool", json_str(provisioned_pool_for(settings, module, class, (i + 1) as u64).as_str())),
                    member("simple_zone", json_str(simple_zone_for(settings, group_id.as_str()).as_str())),
                    member("vnets", strings_to_json(&vnets)),
                ];
                assert(vv =~= seq![vnet_dmz_name(settings@, group_id@), vnet_lan_name(settings@, group_id@)]);
                let ghost fv = fields@;
                let entry = json_object(fields);
                assert(member_values(fv) =~= provisioned_entry(settings@, body, i as int)->Object_0);
                entries.push(entry);
                i = i + 1;
            }
            let ghost ev = entries@;
            assert(json_values(ev) =~= Seq::new(body.group_details.len() as nat, |i: int| provisioned_entry(settings@, body, i)));
            json_response(201, json_object1("created", json_array(entries)))
        },
    }
}


// ---------------------------------------------------------------------------
// Laws of provisioning
// ---------------------------------------------------------------------------

/// How many calls provisioning makes per group: seven, and an eighth for the firewall clone
/// when the request asks for one.
pub open spec fn calls_per_group(body: &CreateEnvironmentRequest) -> int {
    if firewall_template(body) is Some { 8 } else { 7 }
}

/// The calls of the first `k` groups come group after group, each group's calls in one block.
proof fn lemma_provisioning_blocks(state: &AppState, settings: SettingsView, body: &CreateEnvironmentRequest, k: int)
    requires
        0 <= k <= body.group_details.len(),
    ensures
        provisioning_calls(state, settings, body, k).len() == k * calls_per_group(body),
        forall|g: int, j: int| 0 <= g < k && 0 <= j < calls_per_group(body) ==>
            #[trigger] provisioning_calls(state, settings, body, k)[g * calls_per_group(body) + j]
                == group_provisioning_calls(state, settings, body, g)[j],
    decreases k,
{
    let per = calls_per_group(body);
    if k > 0 {
        lemma_provisioning_blocks(state, settings, body, k - 1);
        let rest = provisioning_calls(state, settings, body, k - 1);
        let all = provisioning_calls(state, settings, body, k);
        assert(group_provisioning_calls(state, settings, body, k - 1).len() == per);
        assert(all.len() == k * per) by (nonlinear_arith)
            requires
                all.len() == rest.len() + per,
                rest.len() == (k - 1) * per;
        assert forall|g: int, j: int| 0 <= g < k && 0 <= j < per implies
            #[trigger] all[g * per + j] == group_provisioning_calls(state, settings, body, g)[j] by {
            if g < k - 1 {
                assert(g * per + j < (k - 1) * per) by (nonlinear_arith)
                    requires
                        0 <= g < k - 1,
                        0 <= j < per;
                assert(all[g * per + j] == rest[g * per + j]);
            } else {
                assert(g * per + j == rest.len() + j) by (nonlinear_arith)
                    requires
                        g == k - 1,
                        rest.len() == (k - 1) * per;
            }
        }
    }
}

/// Provisioning grants each group `PVEVMUser` on its own resource pool: among its calls is the
/// ACL update whose form names the pool path, the role `PVEVMUser`, that group, and
/// propagation.
pub proof fn lemma_provisioning_grants_each_group_its_pool(
    state: &AppState,
    settings: SettingsView,
    body: &CreateEnvironmentRequest,
    i: int,
)
    requires
        0 <= i < body.group_details.len(),
    ensures
        exists|k: int| 0 <= k < provisioning_calls(state, settings, body, body.group_details.len() as int).len()
            && #[trigger] provisioning_calls(state, settings, body, body.group_details.len() as int)[k].request == (ProxmoxRequestView {
                method: HttpMethod::Put,
                url: state.proxmox_url@ + "/api2/json/access/acl"@,
                authorization: auth_text(state),
                form: seq![
                    ("path"@, "/pool/"@ + provisioned_pool_name(
                        settings,
                        body.modul_configuration.modulnumber@,
                        body.modul_configuration.class@,
                        (i + 1) as nat,
                    )),
                    ("roles"@, "PVEVMUser"@),
                    ("groups"@, body.group_details@[i].group_name@),
                    ("propagate"@, "1"@),
                ],
            }),
{
    let n = body.group_details.len() as int;
    let per = calls_per_group(body);
    lemma_provisioning_blocks(state, settings, body, n);
    let calls = provisioning_calls(state, settings, body, n);
    assert(i * per + 6 < n * per) by (nonlinear_arith)
        requires
            0 <= i < n,
            per >= 7;
    let g = body.group_details@[i];
    let pool = provisioned_pool_name(settings, body.modul_configuration.modulnumber@, body.modul_configuration.class@, (i + 1) as nat);
    let acl = api_call(HttpMethod::Put, state, "/api2/json/access/acl"@,
        seq![("path"@, "/pool/"@ + pool), ("roles"@, "PVEVMUser"@), ("groups"@, g.group_name@), ("propagate"@, "1"@)],
        OnFailureView::Ignore);
    let group_calls = group_provisioning_calls(state, settings, body, i);
    assert(group_calls[6] == acl);
    assert(calls[i * per + 6] == group_calls[6]);
    assert(calls[i * per + 6].request == acl.request);
}

/// Provisioning creates each group's user group, stopping with `Failed to create group <name>`
/// when that fails, and then gives it its members, joined by `,`.
pub proof fn lemma_provisioning_creates_each_group_with_its_members(
    state: &AppState,
    settings: SettingsView,
    body: &CreateEnvironmentRequest,
    i: int,
)
    requires
        0 <= i < body.group_details.len(),
    ensures
        exists|k: int| 0 <= k && k + 1 < provisioning_calls(state, settings, body, body.group_details.len() as int).len()
            && #[trigger] provisioning_calls(state, settings, body, body.group_details.len() as int)[k] == (PlannedCallView {
                request: ProxmoxRequestView {
                    method: HttpMethod::Post,
                    url: state.proxmox_url@ + "/api2/json/access/groups"@,
                    authorization: auth_text(state),
                    form: seq![("groupid"@, body.group_details@[i].group_name@)],
                },
                on_failure: OnFailureView::Abort("Failed to create group "@ + body.group_details@[i].group_name@),
            })
            && provisioning_calls(state, settings, body, body.group_details.len() as int)[k + 1].request == (ProxmoxRequestView {
                method: HttpMethod::Put,
                url: state.proxmox_url@ + "/api2/json/access/groups/"@ + body.group_details@[i].group_name@,
                authorization: auth_text(state),
                form: seq![("members"@, joined(views(body.group_details@[i].userlist@), ","@))],
            }),
{
    let n = body.group_details.len() as int;
    let per = calls_per_group(body);
    lemma_provisioning_blocks(state, settings, body, n);
    let calls = provisioning_calls(state, settings, body, n);
    assert(i * per + 1 < n * per) by (nonlinear_arith)
        requires
            0 <= i < n,
            per >= 7;
    let group_calls = group_provisioning_calls(state, settings, body, i);
    assert(calls[i * per + 0] == group_calls[0]);
    assert(calls[i * per + 0] == calls[i * per]);
    assert(calls[i * per + 1] == group_calls[1]);
}

} // verus!
