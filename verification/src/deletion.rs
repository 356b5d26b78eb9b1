use vstd::prelude::*;
use vstd::string::*;

use crate::clients::{auth_text, EnvironmentClient, HttpMethod, ProxmoxRequest, ProxmoxRequestView};
use crate::dropdown::{data_array, data_items, string_array, strings_to_json};
use crate::app_config::{Settings, SettingsView};
use crate::dto::ListEnvironmentParams;
use crate::environment::{
    group_item_environment, id_array, ids_to_json, item_environment, pool_contents, pool_request, pool_vms,
};
use crate::json::{json_array, json_object, json_object1, json_str, json_values, member, member_values, Json, JsonValue};
use crate::naming::{
    resource_pool_for, resource_pool_name, simple_zone_for, simple_zone_name, vnet_dmz_for, vnet_dmz_name,
    vnet_lan_for, vnet_lan_name, ParsedEnvironment, ParsedEnvironmentView,
};
use crate::plan::{calls_view, failure_message, failures_view, lemma_failed_reporting_call_is_reported, reported_failures, OnFailure, OnFailureView, PlanRun, PlannedCall, PlannedCallView};
use crate::response::{json_response, outcome_view, HttpResponse, HttpResponseView};
use crate::state::AppState;
use crate::text::{concat2, decimal, owned, push_decimal, same_text, views};

verus! {

// ---------------------------------------------------------------------------
// Finding the environment of a group id
// ---------------------------------------------------------------------------

/// The environment that a group item names, when its group id is `target`.
pub open spec fn environment_with_group_id(item: JsonValue, target: Seq<char>) -> Option<ParsedEnvironmentView> {
    match group_item_environment(item) {
        Some(p) => if p.group_id == target { Some(p) } else { None },
        None => None,
    }
}

/// The first environment among `items[k..]` whose group id is `target`.
pub open spec fn first_environment_from(items: Seq<JsonValue>, target: Seq<char>, k: int) -> Option<ParsedEnvironmentView>
    decreases items.len() - k,
{
    if k < 0 || k >= items.len() {
        None
    } else {
        match environment_with_group_id(items[k], target) {
            Some(p) => Some(p),
            None => first_environment_from(items, target, k + 1),
        }
    }
}

/// The first environment of a group list whose group id is `target`.
pub fn find_environment(groups: &Json, target: &str) -> (r: Option<ParsedEnvironment>)
    ensures
        match r {
            Some(p) => first_environment_from(data_items(groups@), target@, 0) == Some(p@),
            None => first_environment_from(data_items(groups@), target@, 0) is None,
        },
{
    match data_array(groups) {
        Some(items) => {
            let ghost all = json_values(items@);
            let mut i: usize = 0;
            while i < items.len()
                invariant
                    i <= items.len(),
                    all == json_values(items@),
                    all == data_items(groups@),
                    first_environment_from(all, target@, 0) == first_environment_from(all, target@, i as int),
                decreases items.len() - i,
            {
                assert(all[i as int] == items@[i as int]@);
                match item_environment(&items[i]) {
                    Some(p) => {
                        if same_text(p.group_id.as_str(), target) {
                            return Some(p);
                        }
                    },
                    None => {},
                }
                i = i + 1;
            }
            None
        },
        None => None,
    }
}

// ---------------------------------------------------------------------------
// The plan of a deletion
// ---------------------------------------------------------------------------

/// A call through the server's shared client, without form.
pub open spec fn shared_call(state: &AppState, method: HttpMethod, url: Seq<char>, on_failure: OnFailureView) -> PlannedCallView {
    PlannedCallView {
        request: ProxmoxRequestView {
            method: method,
            url: url,
            authorization: auth_text(state),
            form: Seq::empty(),
        },
        on_failure: on_failure,
    }
}

/// The calls that stop and delete the first `k` VMs on `node`; a VM that cannot be stopped is
/// still deleted, and a failed deletion is reported.
pub open spec fn vm_deletion_calls(state: &AppState, node: Seq<char>, vms: Seq<u32>, k: int) -> Seq<PlannedCallView>
    decreases k,
{
    if k <= 0 {
        Seq::empty()
    } else {
        let vm = vms[k - 1];
        vm_deletion_calls(state, node, vms, k - 1) + seq![
            shared_call(state, HttpMethod::Post,
                state.proxmox_url@ + "/api2/json/nodes/"@ + node + "/qemu/"@ + decimal(vm as nat) + "/status/stop"@,
                OnFailureView::Ignore),
            shared_call(state, HttpMethod::Delete,
                state.proxmox_url@ + "/api2/json/nodes/"@ + node + "/qemu/"@ + decimal(vm as nat),
                OnFailureView::Report("Failed to delete VM "@ + decimal(vm as nat))),
        ]
    }
}

/// The calls that delete an environment: its VMs (only when their node is known), its two
/// virtual networks, its simple zone, its resource pool (named after the current settings) and
/// its user group, each failure reported.
pub open spec fn deletion_calls(
    state: &AppState,
    settings: SettingsView,
    p: ParsedEnvironmentView,
    vms: Seq<u32>,
    node: Seq<char>,
) -> Seq<PlannedCallView> {
    let dmz = vnet_dmz_name(settings, p.group_id);
    let lan = vnet_lan_name(settings, p.group_id);
    let zone = simple_zone_name(settings, p.group_id);
    let pool = resource_pool_name(settings, p.suffix);
    (if node.len() == 0 { Seq::empty() } else { vm_deletion_calls(state, node, vms, vms.len() as int) }) + seq![
        shared_call(state, HttpMethod::Delete, state.proxmox_url@ + "/api2/json/cluster/sdn/vnets/"@ + dmz,
            OnFailureView::Report("Failed to delete VNet "@ + dmz)),
        shared_call(state, HttpMethod::Delete, state.proxmox_url@ + "/api2/json/cluster/sdn/vnets/"@ + lan,
            OnFailureView::Report("Failed to delete VNet "@ + lan)),
        shared_call(state, HttpMethod::Delete, state.proxmox_url@ + "/api2/json/cluster/sdn/zones/"@ + zone,
            OnFailureView::Report("Failed to delete zone "@ + zone)),
        shared_call(state, HttpMethod::Delete, state.proxmox_url@ + "/api2/json/pools/"@ + pool,
            OnFailureView::Report("Failed to delete pool "@ + pool)),
        shared_call(state, HttpMethod::Delete, state.proxmox_url@ + "/api2/json/access/groups/"@ + p.group_name,
            OnFailureView::Report("Failed to delete group "@ + p.group_name)),
    ]
}

/// Appends a call to a plan.
fn push_call(plan: &mut Vec<PlannedCall>, call: PlannedCall)
    ensures
        calls_view(final(plan)@) == calls_view(old(plan)@).push(call@),
{
    let ghost c = call@;
    plan.push(call);
    assert(calls_view(final(plan)@) =~= calls_view(old(plan)@).push(c));
}

/// The plan that deletes an environment, its VMs running on `node`, its resources named after
/// the current settings.
pub fn deletion_plan(state: &AppState, settings: &Settings, p: &ParsedEnvironment, vms: &Vec<u32>, node: &str) -> (r: Vec<PlannedCall>)
    ensures
        calls_view(r@) == deletion_calls(state, settings@, p@, vms@, node@),
{
    let mut plan: Vec<PlannedCall> = Vec::new();
    let has_node = node.unicode_len() > 0;
    if has_node {
        let mut i: usize = 0;
        while i < vms.len()
            invariant
                i <= vms.len(),
                calls_view(plan@) == vm_deletion_calls(state, node@, vms@, i as int),
            decreases vms.len() - i,
        {
            let ghost before = calls_view(plan@);
            let vm = vms[i];
            let mut context = owned("Failed to delete VM ");
            push_decimal(&mut context, vm as u64);
            push_call(&mut plan, PlannedCall { request: EnvironmentClient::stop_vm(state, node, vm), on_failure: OnFailure::Ignore });
            push_call(&mut plan, PlannedCall { request: EnvironmentClient::delete_vm(state, node, vm), on_failure: OnFailure::Report(context) });
            assert(calls_view(plan@) =~= vm_deletion_calls(state, node@, vms@, i + 1));
            i = i + 1;
        }
    }
    let ghost vm_part = calls_view(plan@);
    assert(vm_part == (if node@.len() == 0 { Seq::empty() } else { vm_deletion_calls(state, node@, vms@, vms@.len() as int) }));
    let dmz = vnet_dmz_for(settings, p.group_id.as_str());
    let lan = vnet_lan_for(settings, p.group_id.as_str());
    let zone = simple_zone_for(settings, p.group_id.as_str());
    let pool = resource_pool_for(settings, p.suffix.as_str());
    push_call(&mut plan, PlannedCall {
        request: EnvironmentClient::delete_vnet(state, dmz.as_str()),
        on_failure: OnFailure::Report(concat2("Failed to delete VNet ", dmz.as_str())),
    });
    push_call(&mut plan, PlannedCall {
        request: EnvironmentClient::delete_vnet(state, lan.as_str()),
        on_failure: OnFailure::Report(concat2("Failed to delete VNet ", lan.as_str())),
    });
    push_call(&mut plan, PlannedCall {
        request: EnvironmentClient::delete_zone(state, zone.as_str()),
        on_failure: OnFailure::Report(concat2("Failed to delete zone ", zone.as_str())),
    });
    push_call(&mut plan, PlannedCall {
        request: EnvironmentClient::delete_pool(state, pool.as_str()),
        on_failure: OnFailure::Report(concat2("Failed to delete pool ", pool.as_str())),
    });
    push_call(&mut plan, PlannedCall {
        request: EnvironmentClient::delete_group(state, p.group_name.as_str()),
        on_failure: OnFailure::Report(concat2("Failed to delete group ", p.group_name.as_str())),
    });
    assert(calls_view(plan@) =~= deletion_calls(state, settings@, p@, vms@, node@));
    plan
}


// ---------------------------------------------------------------------------
// The report of a deletion
// ---------------------------------------------------------------------------

/// An error of the deletion of the environment `target`.
pub open spec fn error_entry(target: Seq<char>, message: Seq<char>) -> JsonValue {
    JsonValue::Object(seq![("group_id"@, JsonValue::Str(target)), ("message"@, JsonValue::Str(message))])
}

/// A deleted environment: its group id, and the names of what was deleted.
pub open spec fn deleted_entry(settings: SettingsView, p: ParsedEnvironmentView, vms: Seq<u32>) -> JsonValue {
    JsonValue::Object(
        seq![
            ("group_id"@, JsonValue::Str(p.group_id)),
            ("status"@, JsonValue::Str("success"@)),
            (
                "deleted_resources"@,
                JsonValue::Object(
                    seq![
                        ("vms"@, id_array(vms)),
                        ("vnets"@, string_array(seq![vnet_dmz_name(settings, p.group_id), vnet_lan_name(settings, p.group_id)])),
                        ("simple_zone"@, JsonValue::Str(simple_zone_name(settings, p.group_id))),
                        ("resource_pool"@, JsonValue::Str(resource_pool_name(settings, p.suffix))),
                        ("user_group"@, JsonValue::Str(p.group_name)),
                    ],
                ),
            ),
        ],
    )
}

/// What a deletion request did: the environments deleted, and the errors met.
struct DeletionReport {
    deleted: Vec<Json>,
    errors: Vec<Json>,
}

/// An error entry.
fn error_json(target: &str, message: &str) -> (r: Json)
    ensures
        r@ == error_entry(target@, message@),
{
    let fields = vec![member("group_id", json_str(target)), member("message", json_str(message))];
    let ghost fv = fields@;
    let r = json_object(fields);
    assert(member_values(fv) =~= error_entry(target@, message@)->Object_0);
    r
}

impl DeletionReport {
    /// A report of nothing.
    fn new() -> (r: DeletionReport)
        ensures
            r.deleted@.len() == 0,
            r.errors@.len() == 0,
    {
        DeletionReport { deleted: Vec::new(), errors: Vec::new() }
    }

    /// Records that no environment has the group id `target`.
    fn record_missing(&mut self, target: &str)
        ensures
            json_values(final(self).deleted@) == json_values(old(self).deleted@),
            json_values(final(self).errors@) == json_values(old(self).errors@).push(
                error_entry(target@, "No environment found for group_id "@ + target@),
            ),
    {
        let message = concat2("No environment found for group_id ", target);
        let ghost before = json_values(self.errors@);
        let entry = error_json(target, message.as_str());
        self.errors.push(entry);
        assert(json_values(self.errors@) =~= before.push(error_entry(target@, message@)));
    }

    /// Records the run of the plan that deleted the environment `p` of the group id `target`: the
    /// environment is deleted when no call reported a failure; otherwise each reported failure
    /// is an error of `target`.
    fn record_run(&mut self, target: &str, settings: &Settings, p: &ParsedEnvironment, vms: &Vec<u32>, run: &PlanRun)
        requires
            run.wf(),
        ensures
            ({
                let reports = reported_failures(run.planned(), run.failures());
                if reports.len() == 0 {
                    &&& json_values(final(self).deleted@) == json_values(old(self).deleted@).push(deleted_entry(settings@, p@, vms@))
                    &&& json_values(final(self).errors@) == json_values(old(self).errors@)
                } else {
                    &&& json_values(final(self).deleted@) == json_values(old(self).deleted@)
                    &&& json_values(final(self).errors@) == json_values(old(self).errors@) + reports.map_values(
                        |m: Seq<char>| error_entry(target@, m),
                    )
                }
            }),
    {
        let reports = run.reports();
        if reports.len() == 0 {
            let vnets = vec![vnet_dmz_for(settings, p.group_id.as_str()), vnet_lan_for(settings, p.group_id.as_str())];
            assert(views(vnets@) =~= seq![vnet_dmz_name(settings@, p.group_id@), vnet_lan_name(settings@, p.group_id@)]);
            let resources = vec![
                member("vms", ids_to_json(vms)),
                member("vnets", strings_to_json(&vnets)),
                member("simple_zone", json_str(simple_zone_for(settings, p.group_id.as_str()).as_str())),
                member("resource_pool", json_str(resource_pool_for(settings, p.suffix.as_str()).as_str())),
                member("user_group", json_str(p.group_name.as_str())),
            ];
            let ghost rv = resources@;
            let resources_json = json_object(resources);
            let fields = vec![
                member("group_id", json_str(p.group_id.as_str())),
                member("status", json_str("success")),
                member("deleted_resources", resources_json),
            ];
            let ghost fv = fields@;
            let entry = json_object(fields);
            assert(member_values(rv) =~= deleted_entry(settings@, p@, vms@)->Object_0[2].1->Object_0);
            assert(member_values(fv) =~= deleted_entry(settings@, p@, vms@)->Object_0);
            let ghost before = json_values(self.deleted@);
            self.deleted.push(entry);
            assert(json_values(self.deleted@) =~= before.push(deleted_entry(settings@, p@, vms@)));
        } else {
            let ghost before = json_values(self.errors@);
            let ghost rs = views(reports@);
            let mut i: usize = 0;
            while i < reports.len()
                invariant
                    i <= reports.len(),
                    rs == views(reports@),
                    self.deleted@ == old(self).deleted@,
                    self.errors@.len() == before.len() + i,
                    forall|k: int| 0 <= k < before.len() ==> (#[trigger] self.errors@[k])@ == before[k],
                    forall|k: int| 0 <= k < i ==> (#[trigger] self.errors@[before.len() + k])@ == error_entry(target@, rs[k]),
                decreases reports.len() - i,
            {
                let entry = error_json(target, reports[i].as_str());
                self.errors.push(entry);
                assert(self.errors@[before.len() + i]@ == error_entry(target@, rs[i as int]));
                i = i + 1;
            }
            assert forall|k: int| 0 <= k < self.errors@.len() implies json_values(self.errors@)[k] == (before + rs.map_values(
                |m: Seq<char>| error_entry(target@, m),
            ))[k] by {
                if k >= before.len() {
                    let j = k - before.len();
                    assert(self.errors@[before.len() + j]@ == error_entry(target@, rs[j]));
                }
            }
            assert(json_values(self.errors@) =~= before + rs.map_values(|m: Seq<char>| error_entry(target@, m)));
        }
    }

    /// The answer of the deletion request: `{"deleted": [...], "errors": [...]}`, status 200.
    fn response(self) -> (r: HttpResponse)
        ensures
            r@ == (HttpResponseView {
                status: 200,
                body: Some(JsonValue::Object(seq![
                    ("deleted"@, JsonValue::Array(json_values(self.deleted@))),
                    ("errors"@, JsonValue::Array(json_values(self.errors@))),
                ])),
            }),
    {
        let ghost d = json_values(self.deleted@);
        let ghost e = json_values(self.errors@);
        let fields = vec![member("deleted", json_array(self.deleted)), member("errors", json_array(self.errors))];
        let ghost fv = fields@;
        let body = json_object(fields);
        assert(member_values(fv) =~= seq![("deleted"@, JsonValue::Array(d)), ("errors"@, JsonValue::Array(e))]);
        json_response(200, body)
    }
}


// ---------------------------------------------------------------------------
// A deletion request, from the answer about the user groups to the answer of the request
// ---------------------------------------------------------------------------

/// The answers that the deletion of one group id received: the answer about its resource pool,
/// once asked, and the failures of the calls of its plan made so far.
pub struct TargetAnswers {
    pub pool: Option<Result<JsonValue, Seq<char>>>,
    pub failures: Seq<Option<Seq<char>>>,
}

/// Where a deletion request stands: the group list it searches, the group ids to delete, and
/// the answers received for each group id taken up so far.
pub struct DeletionView {
    pub state: AppState,
    pub settings: SettingsView,
    pub items: Seq<JsonValue>,
    pub targets: Seq<Seq<char>>,
    pub answers: Seq<TargetAnswers>,
}

/// No answer yet.
pub open spec fn no_answers() -> TargetAnswers {
    TargetAnswers { pool: None, failures: Seq::empty() }
}

/// The environment of the group id at position `i`: the first one listed with that group id.
pub open spec fn target_environment(v: DeletionView, i: int) -> Option<ParsedEnvironmentView> {
    first_environment_from(v.items, v.targets[i], 0)
}

/// The calls that delete the environment `p`, given the answer about its resource pool.
pub open spec fn target_calls(v: DeletionView, p: ParsedEnvironmentView, pool: Result<JsonValue, Seq<char>>) -> Seq<PlannedCallView> {
    deletion_calls(&v.state, v.settings, p, pool_contents(pool).0, pool_contents(pool).1)
}

/// The group id at position `i` is dealt with: it names no environment, or every call that
/// deletes its environment was made.
pub open spec fn target_complete(v: DeletionView, i: int) -> bool {
    match target_environment(v, i) {
        None => true,
        Some(p) => match v.answers[i].pool {
            None => false,
            Some(pool) => v.answers[i].failures.len() == target_calls(v, p, pool).len(),
        },
    }
}

/// The request goes on to the next group ids until one needs an answer from Proxmox.
pub open spec fn deletion_settle(v: DeletionView) -> DeletionView
    decreases v.targets.len() - v.answers.len(),
{
    if v.answers.len() < v.targets.len() && (v.answers.len() == 0 || target_complete(v, v.answers.len() - 1)) {
        deletion_settle(DeletionView { answers: v.answers.push(no_answers()), ..v })
    } else {
        v
    }
}

/// The request that a deletion waits for: the resource pool of the environment taken up (named
/// after the settings), then the calls that delete it, in order; none once every group id is
/// dealt with.
pub open spec fn deletion_request(v: DeletionView) -> Option<ProxmoxRequestView> {
    if v.answers.len() == 0 || target_complete(v, v.answers.len() - 1) {
        None
    } else {
        let i = v.answers.len() - 1;
        match target_environment(v, i) {
            None => None,
            Some(p) => match v.answers[i].pool {
                None => Some(pool_request(&v.state, resource_pool_name(v.settings, p.suffix))),
                Some(pool) => Some(target_calls(v, p, pool)[v.answers[i].failures.len() as int].request),
            },
        }
    }
}

/// The failure that an answer stands for: none for a JSON answer, the error's text otherwise.
pub open spec fn failure_of(answer: Result<JsonValue, Seq<char>>) -> Option<Seq<char>> {
    match answer {
        Ok(_) => None,
        Err(e) => Some(e),
    }
}

/// A deletion after the answer to the request it waited for.
pub open spec fn deletion_after(v: DeletionView, answer: Result<JsonValue, Seq<char>>) -> DeletionView {
    let i = v.answers.len() - 1;
    let a = v.answers[i];
    let next = match a.pool {
        None => TargetAnswers { pool: Some(answer), failures: a.failures },
        Some(_) => TargetAnswers { pool: a.pool, failures: a.failures.push(failure_of(answer)) },
    };
    deletion_settle(DeletionView { answers: v.answers.update(i, next), ..v })
}

/// The deleted environments and the errors of the first `k` group ids.
pub open spec fn deletion_results(v: DeletionView, k: int) -> (Seq<JsonValue>, Seq<JsonValue>)
    decreases k,
{
    if k <= 0 {
        (Seq::empty(), Seq::empty())
    } else {
        let prev = deletion_results(v, k - 1);
        let t = v.targets[k - 1];
        match target_environment(v, k - 1) {
            None => (prev.0, prev.1.push(error_entry(t, "No environment found for group_id "@ + t))),
            Some(p) => {
                let pool = v.answers[k - 1].pool->Some_0;
                let reports = reported_failures(target_calls(v, p, pool), v.answers[k - 1].failures);
                if reports.len() == 0 {
                    (prev.0.push(deleted_entry(v.settings, p, pool_contents(pool).0)), prev.1)
                } else {
                    (prev.0, prev.1 + reports.map_values(|m: Seq<char>| error_entry(t, m)))
                }
            },
        }
    }
}

/// Every group id is dealt with.
pub open spec fn deletion_finished(v: DeletionView) -> bool {
    v.answers.len() == v.targets.len() && (v.answers.len() == 0 || target_complete(v, v.answers.len() - 1))
}

/// The answer of a finished deletion: `{"deleted": [...], "errors": [...]}`, status 200.
pub open spec fn deletion_answer(v: DeletionView) -> HttpResponseView {
    let r = deletion_results(v, v.answers.len() as int);
    HttpResponseView {
        status: 200,
        body: Some(JsonValue::Object(seq![("deleted"@, JsonValue::Array(r.0)), ("errors"@, JsonValue::Array(r.1))])),
    }
}

/// The number of group ids dealt with.
pub open spec fn done_count(v: DeletionView) -> int {
    if v.answers.len() > 0 && !target_complete(v, v.answers.len() - 1) {
        v.answers.len() - 1
    } else {
        v.answers.len() as int
    }
}

/// The answers for the group id at position `i` fit its environment.
pub open spec fn answers_fit(v: DeletionView, i: int) -> bool {
    &&& target_environment(v, i) is None ==> v.answers[i] == no_answers()
    &&& v.answers[i].pool is None ==> v.answers[i].failures.len() == 0
    &&& match (target_environment(v, i), v.answers[i].pool) {
        (Some(p), Some(pool)) => v.answers[i].failures.len() <= target_calls(v, p, pool).len(),
        _ => true,
    }
}

/// The group id taken up, once its environment is found.
enum Progress {
    /// Waiting for the answer about the environment's resource pool.
    AwaitingPool { env: ParsedEnvironment, request: ProxmoxRequest },
    /// Running the plan that deletes the environment.
    Running { env: ParsedEnvironment, vms: Vec<u32>, run: PlanRun },
}

/// A deletion request: the group ids taken up one after the other, each environment found,
/// its resource pool read and its deletion plan run, the report kept along.
pub struct DeletionSession {
    state: AppState,
    settings: Settings,
    groups: Json,
    targets: Vec<String>,
    next: usize,
    report: DeletionReport,
    current: Option<Progress>,
    answers: Ghost<Seq<TargetAnswers>>,
}

impl View for DeletionSession {
    type V = DeletionView;

    closed spec fn view(&self) -> DeletionView {
        DeletionView {
            state: self.state,
            settings: self.settings@,
            items: data_items(self.groups@),
            targets: views(self.targets@),
            answers: self.answers@,
        }
    }
}

impl DeletionSession {
    /// The state is consistent with the answers, whether or not the session moved on.
    closed spec fn consistent(&self) -> bool {
        let v = self@;
        &&& self.next == v.answers.len()
        &&& v.answers.len() <= v.targets.len()
        &&& forall|i: int| 0 <= i < v.answers.len() - 1 ==> target_complete(v, i)
        &&& forall|i: int| 0 <= i < v.answers.len() ==> answers_fit(v, i)
        &&& json_values(self.report.deleted@) == deletion_results(v, done_count(v)).0
        &&& json_values(self.report.errors@) == deletion_results(v, done_count(v)).1
        &&& match self.current {
            None => v.answers.len() == 0 || target_complete(v, v.answers.len() - 1),
            Some(Progress::AwaitingPool { env, request }) => {
                &&& v.answers.len() > 0
                &&& target_environment(v, v.answers.len() - 1) == Some(env@)
                &&& v.answers.last() == no_answers()
                &&& request@ == pool_request(&v.state, resource_pool_name(v.settings, env@.suffix))
            },
            Some(Progress::Running { env, vms, run }) => {
                &&& v.answers.len() > 0
                &&& target_environment(v, v.answers.len() - 1) == Some(env@)
                &&& v.answers.last().pool matches Some(pool)
                &&& vms@ == pool_contents(pool).0
                &&& run.wf()
                &&& run.planned() == target_calls(v, env@, pool)
                &&& run.failures() == v.answers.last().failures
                &&& v.answers.last().failures.len() < target_calls(v, env@, pool).len()
            },
        }
    }

    /// The session is consistent and waits for an answer unless every group id is dealt with.
    pub closed spec fn wf(&self) -> bool {
        &&& self.consistent()
        &&& (self@.answers.len() < self@.targets.len() ==> self.current is Some)
    }

    /// Takes up the next group ids until one needs an answer from Proxmox.
    fn settle(&mut self)
        requires
            old(self).consistent(),
            old(self).current is None,
        ensures
            final(self).wf(),
            final(self)@ == deletion_settle(old(self)@),
    {
        while self.next < self.targets.len() && self.current.is_none()
            invariant
                self.consistent(),
                deletion_settle(self@) == deletion_settle(old(self)@),
            decreases self.targets.len() - self.next,
        {
            let ghost before = self@;
            let target = self.targets[self.next].clone();
            assert(before.targets[before.answers.len() as int] == target@);
            match find_environment(&self.groups, target.as_str()) {
                None => {
                    self.report.record_missing(target.as_str());
                    proof {
                        self.answers@ = self.answers@.push(no_answers());
                    }
                    self.next = self.next + 1;
                    let ghost after = self@;
                    assert(after == DeletionView { answers: before.answers.push(no_answers()), ..before });
                    assert(target_complete(after, after.answers.len() - 1));
                    proof {
                        lemma_results_prefix(before, after, before.answers.len() as int);
                    }
                    assert(forall|i: int| 0 <= i < before.answers.len() ==> after.answers[i] == before.answers[i]);
                    assert forall|i: int| 0 <= i < after.answers.len() - 1 implies target_complete(after, i) by {
                        assert(after.answers[i] == before.answers[i]);
                        assert(target_complete(before, i));
                    }
                    assert forall|i: int| 0 <= i < after.answers.len() implies answers_fit(after, i) by {
                        if i < before.answers.len() {
                            assert(after.answers[i] == before.answers[i]);
                            assert(answers_fit(before, i));
                        } else {
                            assert(after.answers[i] == no_answers());
                            assert(target_environment(after, i) is None);
                        }
                    }
                },
                Some(env) => {
                    let pool = resource_pool_for(&self.settings, env.suffix.as_str());
                    let request = EnvironmentClient::get_pool(&self.state, pool.as_str());
                    proof {
                        self.answers@ = self.answers@.push(no_answers());
                    }
                    self.next = self.next + 1;
                    self.current = Some(Progress::AwaitingPool { env, request });
                    let ghost after = self@;
                    assert(after == DeletionView { answers: before.answers.push(no_answers()), ..before });
                    assert(!target_complete(after, after.answers.len() - 1));
                    proof {
                        lemma_results_prefix(before, after, before.answers.len() as int);
                    }
                    assert forall|i: int| 0 <= i < after.answers.len() - 1 implies target_complete(after, i) by {
                        assert(after.answers[i] == before.answers[i]);
                        assert(target_complete(before, i));
                    }
                    assert forall|i: int| 0 <= i < after.answers.len() implies answers_fit(after, i) by {
                        if i < before.answers.len() {
                            assert(after.answers[i] == before.answers[i]);
                            assert(answers_fit(before, i));
                        }
                    }
                },
            }
        }
    }

    /// A deletion of the environments of `targets`, found in `groups` (the answer about the user
    /// groups), their resources named after `settings`.
    pub fn new(state: AppState, settings: Settings, groups: Json, targets: Vec<String>) -> (r: DeletionSession)
        ensures
            r.wf(),
            r@ == deletion_settle(DeletionView {
                state: state,
                settings: settings@,
                items: data_items(groups@),
                targets: views(targets@),
                answers: Seq::empty(),
            }),
    {
        let mut r = DeletionSession {
            state,
            settings,
            groups,
            targets,
            next: 0,
            report: DeletionReport::new(),
            current: None,
            answers: Ghost(Seq::empty()),
        };
        assert(json_values(r.report.deleted@) =~= Seq::empty());
        assert(json_values(r.report.errors@) =~= Seq::empty());
        r.settle();
        r
    }

    /// The request to make next, if any.
    pub fn next_request(&self) -> (r: Option<&ProxmoxRequest>)
        requires
            self.wf(),
        ensures
            match r {
                Some(q) => deletion_request(self@) == Some(q@),
                None => deletion_request(self@) is None && deletion_finished(self@),
            },
    {
        match &self.current {
            None => None,
            Some(Progress::AwaitingPool { env, request }) => Some(request),
            Some(Progress::Running { env, vms, run }) => {
                let ghost v = self@;
                proof {
                    let pool = v.answers.last().pool->Some_0;
                    lemma_deletion_never_aborts(&v.state, v.settings, env@, pool_contents(pool).0, pool_contents(pool).1);
                    assert(!run.aborted());
                }
                let q = run.next_call();
                                q
            },
        }
    }

    /// Records the answer to the request made.
    pub fn record(&mut self, answer: Result<Json, String>)
        requires
            old(self).wf(),
            deletion_request(old(self)@) is Some,
        ensures
            final(self).wf(),
            final(self)@ == deletion_after(old(self)@, outcome_view(answer)),
    {
        let ghost before = self@;
        let ghost i = before.answers.len() - 1;
        let current = self.current.take();
        match current {
            None => {
                assert(false);
            },
            Some(Progress::AwaitingPool { env, request }) => {
                let (vms, node) = pool_vms(&answer);
                let plan = deletion_plan(&self.state, &self.settings, &env, &vms, node.as_str());
                let run = PlanRun::new(plan);
                let ghost pool = outcome_view(answer);
                proof {
                    self.answers@ = self.answers@.update(i, TargetAnswers { pool: Some(pool), failures: Seq::empty() });
                }
                self.current = Some(Progress::Running { env, vms, run });
                let ghost after = self@;
                assert(after == DeletionView {
                    answers: before.answers.update(i, TargetAnswers { pool: Some(pool), failures: before.answers[i].failures }),
                    ..before
                });
                assert(target_calls(after, env@, pool).len() >= 5);
                assert(!target_complete(after, i));
                assert(deletion_settle(after) == after);
                proof {
                    lemma_results_prefix(before, after, i);
                }
                assert forall|j: int| 0 <= j < after.answers.len() - 1 implies target_complete(after, j) by {
                    assert(after.answers[j] == before.answers[j]);
                    assert(target_complete(before, j));
                }
                assert forall|j: int| 0 <= j < after.answers.len() implies answers_fit(after, j) by {
                    if j < i {
                        assert(after.answers[j] == before.answers[j]);
                        assert(answers_fit(before, j));
                    }
                }
                assert(run.failures() =~= Seq::<Option<Seq<char>>>::empty());
            },
            Some(Progress::Running { env, vms, mut run }) => {
                let outcome = match &answer {
                    Ok(_) => None,
                    Err(e) => Some(e.clone()),
                };
                proof {
                    let pool = before.answers[i].pool->Some_0;
                    lemma_deletion_never_aborts(&before.state, before.settings, env@, pool_contents(pool).0, pool_contents(pool).1);
                }
                run.record(outcome);
                let ghost pool = before.answers[i].pool->Some_0;
                let ghost failures = before.answers[i].failures.push(failure_of(outcome_view(answer)));
                proof {
                    self.answers@ = self.answers@.update(i, TargetAnswers { pool: Some(pool), failures: failures });
                }
                let ghost after = self@;
                assert(run.failures() =~= failures);
                proof {
                    lemma_results_prefix(before, after, i);
                }
                assert forall|j: int| 0 <= j < after.answers.len() - 1 implies target_complete(after, j) by {
                    assert(after.answers[j] == before.answers[j]);
                    assert(target_complete(before, j));
                }
                assert forall|j: int| 0 <= j < after.answers.len() implies answers_fit(after, j) by {
                    if j < i {
                        assert(after.answers[j] == before.answers[j]);
                        assert(answers_fit(before, j));
                    }
                }
                if run.calls_made() < run.call_count() {
                    self.current = Some(Progress::Running { env, vms, run });
                    assert(!target_complete(after, i));
                    assert(deletion_settle(after) == after);
                } else {
                    let target = self.targets[self.next - 1].clone();
                    assert(after.targets[i] == target@);
                    self.report.record_run(target.as_str(), &self.settings, &env, &vms, &run);
                    assert(target_complete(after, i));
                    self.settle();
                }
            },
        }
    }

    /// The answer of the request once every group id is dealt with.
    pub fn response(self) -> (r: HttpResponse)
        requires
            self.wf(),
            deletion_finished(self@),
        ensures
            r@ == deletion_answer(self@),
    {
        self.report.response()
    }
}

/// The results of the first `k` group ids depend on their answers alone.
proof fn lemma_results_prefix(v1: DeletionView, v2: DeletionView, k: int)
    requires
        v1.state == v2.state,
        v1.settings == v2.settings,
        v1.items == v2.items,
        v1.targets == v2.targets,
        k <= v1.answers.len(),
        k <= v2.answers.len(),
        forall|j: int| 0 <= j < k ==> v1.answers[j] == v2.answers[j],
    ensures
        deletion_results(v1, k) == deletion_results(v2, k),
    decreases k,
{
    if k > 0 {
        lemma_results_prefix(v1, v2, k - 1);
        assert(v1.answers[k - 1] == v2.answers[k - 1]);
    }
}

/// The VM part of a deletion plan: for each VM in order, a stop whose failure is left aside,
/// then a deletion whose failure is reported.
proof fn lemma_vm_deletion_layout(state: &AppState, node: Seq<char>, vms: Seq<u32>, k: int)
    requires
        0 <= k <= vms.len(),
    ensures
        vm_deletion_calls(state, node, vms, k).len() == 2 * k,
        forall|j: int| 0 <= j < k ==> #[trigger] vm_deletion_calls(state, node, vms, k)[2 * j] == shared_call(
            state,
            HttpMethod::Post,
            state.proxmox_url@ + "/api2/json/nodes/"@ + node + "/qemu/"@ + decimal(vms[j] as nat) + "/status/stop"@,
            OnFailureView::Ignore,
        ),
        forall|j: int| 0 <= j < k ==> #[trigger] vm_deletion_calls(state, node, vms, k)[2 * j + 1] == shared_call(
            state,
            HttpMethod::Delete,
            state.proxmox_url@ + "/api2/json/nodes/"@ + node + "/qemu/"@ + decimal(vms[j] as nat),
            OnFailureView::Report("Failed to delete VM "@ + decimal(vms[j] as nat)),
        ),
    decreases k,
{
    if k > 0 {
        lemma_vm_deletion_layout(state, node, vms, k - 1);
        let rest = vm_deletion_calls(state, node, vms, k - 1);
        let all = vm_deletion_calls(state, node, vms, k);
        assert forall|j: int| 0 <= j < k implies #[trigger] all[2 * j + 1] == shared_call(
            state,
            HttpMethod::Delete,
            state.proxmox_url@ + "/api2/json/nodes/"@ + node + "/qemu/"@ + decimal(vms[j] as nat),
            OnFailureView::Report("Failed to delete VM "@ + decimal(vms[j] as nat)),
        ) by {
            if j < k - 1 {
                assert(all[2 * j + 1] == rest[2 * j + 1]);
            }
        }
        assert forall|j: int| 0 <= j < k implies #[trigger] all[2 * j] == shared_call(
            state,
            HttpMethod::Post,
            state.proxmox_url@ + "/api2/json/nodes/"@ + node + "/qemu/"@ + decimal(vms[j] as nat) + "/status/stop"@,
            OnFailureView::Ignore,
        ) by {
            if j < k - 1 {
                assert(all[2 * j] == rest[2 * j]);
            }
        }
    }
}

/// Each VM of an environment whose node is known is stopped first, and a failed stop is left
/// aside: the VM is deleted anyway, and the failure is not reported.
pub proof fn lemma_vm_stop_failure_is_left_aside(
    state: &AppState,
    settings: SettingsView,
    p: ParsedEnvironmentView,
    vms: Seq<u32>,
    node: Seq<char>,
    j: int,
)
    requires
        node.len() > 0,
        0 <= j < vms.len(),
    ensures
        deletion_calls(state, settings, p, vms, node)[2 * j].request.method == HttpMethod::Post,
        deletion_calls(state, settings, p, vms, node)[2 * j].request.url
            == state.proxmox_url@ + "/api2/json/nodes/"@ + node + "/qemu/"@ + decimal(vms[j] as nat) + "/status/stop"@,
        deletion_calls(state, settings, p, vms, node)[2 * j].on_failure == OnFailureView::Ignore,
{
    let calls = deletion_calls(state, settings, p, vms, node);
    let vm_part = vm_deletion_calls(state, node, vms, vms.len() as int);
    lemma_vm_deletion_layout(state, node, vms, vms.len() as int);
    assert(calls[2 * j] == vm_part[2 * j]);
}

/// Every VM of an environment whose node is known is deleted by a call of its own, and a
/// failure of that call is reported as `Failed to delete VM <id>: <error>`.
pub proof fn lemma_failed_vm_deletion_is_reported(
    state: &AppState,
    settings: SettingsView,
    p: ParsedEnvironmentView,
    vms: Seq<u32>,
    node: Seq<char>,
    failures: Seq<Option<Seq<char>>>,
    j: int,
    error: Seq<char>,
)
    requires
        node.len() > 0,
        0 <= j < vms.len(),
        failures.len() == deletion_calls(state, settings, p, vms, node).len(),
        failures[2 * j + 1] == Some(error),
    ensures
        deletion_calls(state, settings, p, vms, node)[2 * j + 1].request.method == HttpMethod::Delete,
        deletion_calls(state, settings, p, vms, node)[2 * j + 1].request.url
            == state.proxmox_url@ + "/api2/json/nodes/"@ + node + "/qemu/"@ + decimal(vms[j] as nat),
        deletion_calls(state, settings, p, vms, node)[2 * j + 1].on_failure
            == OnFailureView::Report("Failed to delete VM "@ + decimal(vms[j] as nat)),
        reported_failures(deletion_calls(state, settings, p, vms, node), failures).contains(
            failure_message("Failed to delete VM "@ + decimal(vms[j] as nat), error),
        ),
{
    let calls = deletion_calls(state, settings, p, vms, node);
    let vm_part = vm_deletion_calls(state, node, vms, vms.len() as int);
    lemma_vm_deletion_layout(state, node, vms, vms.len() as int);
    assert(calls[2 * j + 1] == vm_part[2 * j + 1]);
    lemma_failed_reporting_call_is_reported(calls, failures, 2 * j + 1);
}

/// An environment with a VM whose deletion failed is never reported deleted: the group id
/// adds nothing to `deleted`, and its errors hold `Failed to delete VM <id>: <error>`.
pub proof fn lemma_failed_vm_deletion_keeps_environment(v: DeletionView, k: int, j: int, error: Seq<char>)
    requires
        0 <= k < v.answers.len(),
        k < v.targets.len(),
        target_environment(v, k) is Some,
        v.answers[k].pool is Some,
        pool_contents(v.answers[k].pool->Some_0).1.len() > 0,
        0 <= j < pool_contents(v.answers[k].pool->Some_0).0.len(),
        v.answers[k].failures.len() == target_calls(v, target_environment(v, k)->Some_0, v.answers[k].pool->Some_0).len(),
        v.answers[k].failures[2 * j + 1] == Some(error),
    ensures
        deletion_results(v, k + 1).0 == deletion_results(v, k).0,
        deletion_results(v, k + 1).1.contains(error_entry(
            v.targets[k],
            failure_message("Failed to delete VM "@ + decimal(pool_contents(v.answers[k].pool->Some_0).0[j] as nat), error),
        )),
{
    let p = target_environment(v, k)->Some_0;
    let pool = v.answers[k].pool->Some_0;
    let (vms, node) = pool_contents(pool);
    let m = failure_message("Failed to delete VM "@ + decimal(vms[j] as nat), error);
    lemma_failed_vm_deletion_is_reported(&v.state, v.settings, p, vms, node, v.answers[k].failures, j, error);
    let reports = reported_failures(target_calls(v, p, pool), v.answers[k].failures);
    let i = choose|i: int| 0 <= i < reports.len() && reports[i] == m;
    let prev = deletion_results(v, k);
    let f = |x: Seq<char>| error_entry(v.targets[k], x);
    let errors = prev.1 + reports.map_values(f);
    assert(deletion_results(v, k + 1) == (prev.0, errors));
    assert(errors[prev.1.len() + i] == error_entry(v.targets[k], m));
}

/// No call of a deletion plan stops it: a failure is reported or left aside.
proof fn lemma_deletion_never_aborts(state: &AppState, settings: SettingsView, p: ParsedEnvironmentView, vms: Seq<u32>, node: Seq<char>)
    ensures
        forall|k: int| 0 <= k < deletion_calls(state, settings, p, vms, node).len()
            ==> !((#[trigger] deletion_calls(state, settings, p, vms, node)[k]).on_failure is Abort),
{
    let calls = deletion_calls(state, settings, p, vms, node);
    let vm_part = if node.len() == 0 { Seq::empty() } else { vm_deletion_calls(state, node, vms, vms.len() as int) };
    lemma_vm_deletion_never_aborts(state, node, vms, vms.len() as int);
    assert forall|k: int| 0 <= k < calls.len() implies !((#[trigger] calls[k]).on_failure is Abort) by {
        if k < vm_part.len() {
            assert(calls[k] == vm_part[k]);
        }
    }
}

/// No call of the VM part of a deletion plan stops it.
proof fn lemma_vm_deletion_never_aborts(state: &AppState, node: Seq<char>, vms: Seq<u32>, k: int)
    ensures
        forall|j: int| 0 <= j < vm_deletion_calls(state, node, vms, k).len()
            ==> !((#[trigger] vm_deletion_calls(state, node, vms, k)[j]).on_failure is Abort),
    decreases k,
{
    if k > 0 {
        lemma_vm_deletion_never_aborts(state, node, vms, k - 1);
        let rest = vm_deletion_calls(state, node, vms, k - 1);
        let all = vm_deletion_calls(state, node, vms, k);
        assert forall|j: int| 0 <= j < all.len() implies !((#[trigger] all[j]).on_failure is Abort) by {
            if j < rest.len() {
                assert(all[j] == rest[j]);
            }
        }
    }
}

// ---------------------------------------------------------------------------
// Laws of the deletion
// ---------------------------------------------------------------------------

/// Adding a group at the end of the list changes the search only where nothing was found.
proof fn lemma_first_environment_extend(items: Seq<JsonValue>, target: Seq<char>, k: int)
    requires
        items.len() > 0,
        0 <= k <= items.len() - 1,
    ensures
        first_environment_from(items, target, k) == match first_environment_from(items.drop_last(), target, k) {
            Some(p) => Some(p),
            None => environment_with_group_id(items.last(), target),
        },
    decreases items.len() - k,
{
    if k < items.len() - 1 {
        assert(items[k] == items.drop_last()[k]);
        lemma_first_environment_extend(items, target, k + 1);
    } else {
        assert(first_environment_from(items, target, k + 1) is None);
        assert(first_environment_from(items.drop_last(), target, k) is None);
        assert(items[k] == items.last());
    }
}

/// The deletion of a group id removes the environment that the listing filtered on that group
/// id shows first, and none when the listing shows none.
pub proof fn lemma_deletion_finds_first_listed(items: Seq<JsonValue>, params: &ListEnvironmentParams, target: Seq<char>)
    requires
        params.module is None,
        params.class is None,
        params.group_id matches Some(g) && g@ == target,
    ensures
        first_environment_from(items, target, 0) == (if crate::environment::listed_environments(items, params).len() > 0 {
            Some(crate::environment::listed_environments(items, params)[0])
        } else {
            None
        }),
    decreases items.len(),
{
    if items.len() > 0 {
        lemma_deletion_finds_first_listed(items.drop_last(), params, target);
        lemma_first_environment_extend(items, target, 0);
        let rest = crate::environment::listed_environments(items.drop_last(), params);
        let listed = crate::environment::listed_environments(items, params);
        if rest.len() > 0 {
            assert(listed[0] == rest[0]);
        }
    }
}

/// Deleting an environment removes the resources that the listing shows for it under the same
/// settings: its virtual networks, simple zone, resource pool and user group, each failure
/// reported, and, when their node is known, its VMs.
pub proof fn lemma_deletion_removes_listed_resources(
    state: &AppState,
    settings: SettingsView,
    p: ParsedEnvironmentView,
    members: Seq<Seq<char>>,
    vms: Seq<u32>,
    node: Seq<char>,
)
    ensures
        ({
            let calls = deletion_calls(state, settings, p, vms, node);
            let summary = crate::environment::environment_summary(settings, p, members, vms, node)->Object_0;
            let n = calls.len();
            &&& calls[n - 5].request.url == state.proxmox_url@ + "/api2/json/cluster/sdn/vnets/"@ + summary[7].1->Array_0[0]->Str_0
            &&& calls[n - 4].request.url == state.proxmox_url@ + "/api2/json/cluster/sdn/vnets/"@ + summary[7].1->Array_0[1]->Str_0
            &&& calls[n - 3].request.url == state.proxmox_url@ + "/api2/json/cluster/sdn/zones/"@ + summary[6].1->Str_0
            &&& calls[n - 2].request.url == state.proxmox_url@ + "/api2/json/pools/"@ + summary[5].1->Str_0
            &&& calls[n - 1].request.url == state.proxmox_url@ + "/api2/json/access/groups/"@ + summary[1].1->Str_0
            &&& calls[n - 5].on_failure == OnFailureView::Report("Failed to delete VNet "@ + summary[7].1->Array_0[0]->Str_0)
            &&& calls[n - 4].on_failure == OnFailureView::Report("Failed to delete VNet "@ + summary[7].1->Array_0[1]->Str_0)
            &&& calls[n - 3].on_failure == OnFailureView::Report("Failed to delete zone "@ + summary[6].1->Str_0)
            &&& calls[n - 2].on_failure == OnFailureView::Report("Failed to delete pool "@ + summary[5].1->Str_0)
            &&& calls[n - 1].on_failure == OnFailureView::Report("Failed to delete group "@ + summary[1].1->Str_0)
            &&& forall|k: int| 0 <= k < n ==> (#[trigger] calls[k]).request.method == HttpMethod::Delete
                || calls[k].request.method == HttpMethod::Post
        }),
{
    let calls = deletion_calls(state, settings, p, vms, node);
    let vm_part = if node.len() == 0 { Seq::empty() } else { vm_deletion_calls(state, node, vms, vms.len() as int) };
    assert(calls.len() == vm_part.len() + 5);
    lemma_vm_deletion_methods(state, node, vms, vms.len() as int);
    assert forall|k: int| 0 <= k < calls.len() implies (#[trigger] calls[k]).request.method == HttpMethod::Delete
        || calls[k].request.method == HttpMethod::Post by {
        if k < vm_part.len() {
            assert(calls[k] == vm_part[k]);
        }
    }
}

/// The VM part of a deletion stops (POST) and deletes (DELETE) VMs and does nothing else.
proof fn lemma_vm_deletion_methods(state: &AppState, node: Seq<char>, vms: Seq<u32>, k: int)
    ensures
        forall|j: int| 0 <= j < vm_deletion_calls(state, node, vms, k).len() ==>
            (#[trigger] vm_deletion_calls(state, node, vms, k)[j]).request.method == HttpMethod::Delete
            || vm_deletion_calls(state, node, vms, k)[j].request.method == HttpMethod::Post,
    decreases k,
{
    if k > 0 {
        lemma_vm_deletion_methods(state, node, vms, k - 1);
        let rest = vm_deletion_calls(state, node, vms, k - 1);
        let all = vm_deletion_calls(state, node, vms, k);
        assert forall|j: int| 0 <= j < all.len() implies (#[trigger] all[j]).request.method == HttpMethod::Delete
            || all[j].request.method == HttpMethod::Post by {
            if j < rest.len() {
                assert(all[j] == rest[j]);
            }
        }
    }
}

} // verus!
