use vstd::prelude::*;
use vstd::string::*;

use crate::dropdown::{data_items, data_array, json_number, number, string_array, strings_to_json};
use crate::app_config::{Settings, SettingsView};
use crate::clients::{auth_text, EnvironmentClient, HttpMethod, ProxmoxRequest, ProxmoxRequestView};
use crate::dto::ListEnvironmentParams;
use crate::state::AppState;
use crate::json::{json_array, json_object, json_str, json_values, member, member_values, Json, JsonValue};
use crate::naming::{
    parse_group_name, parsed_group_name, resource_pool_for, resource_pool_name, simple_zone_for,
    simple_zone_name, vnet_dmz_for, vnet_dmz_name, vnet_lan_for, vnet_lan_name, ParsedEnvironment,
    ParsedEnvironmentView,
};
use crate::response::{error_body, error_response, json_response, outcome_view, HttpResponse, HttpResponseView};
use crate::text::{
    eq_ignore_ascii_case, eq_ignore_ascii_case_spec, lower_case, remove_char, same_text, to_lower,
    views, without_char,
};

verus! {

// ---------------------------------------------------------------------------
// Which groups are environments
// ---------------------------------------------------------------------------

/// The views of parsed environments.
pub open spec fn parsed_views(v: Seq<ParsedEnvironment>) -> Seq<ParsedEnvironmentView> {
    v.map_values(|p: ParsedEnvironment| p@)
}

/// An environment passes the listing's filters: the module matches up to ASCII case, the class
/// matches the filter lowercased without `-`, and the group id matches exactly.
pub open spec fn passes_filters(p: ParsedEnvironmentView, params: &ListEnvironmentParams) -> bool {
    &&& (params.module matches Some(m) ==> eq_ignore_ascii_case_spec(p.module, m@))
    &&& (params.class matches Some(c) ==> p.class == without_char(lower_case(c@), '-'))
    &&& (params.group_id matches Some(g) ==> p.group_id == g@)
}

/// The environment that a group item names, if its `groupid` parses.
pub open spec fn group_item_environment(item: JsonValue) -> Option<ParsedEnvironmentView> {
    match item.field("groupid"@).as_str() {
        Some(name) => parsed_group_name(name),
        None => None,
    }
}

/// The environments that the group items name and that pass the filters, in order.
pub open spec fn listed_environments(items: Seq<JsonValue>, params: &ListEnvironmentParams) -> Seq<ParsedEnvironmentView>
    decreases items.len(),
{
    if items.len() == 0 {
        Seq::empty()
    } else {
        let rest = listed_environments(items.drop_last(), params);
        match group_item_environment(items.last()) {
            Some(p) => if passes_filters(p, params) { rest.push(p) } else { rest },
            None => rest,
        }
    }
}

/// The environment that a group item names, if its `groupid` parses.
pub fn item_environment(item: &Json) -> (r: Option<ParsedEnvironment>)
    ensures
        match r {
            Some(p) => group_item_environment(item@) == Some(p@),
            None => group_item_environment(item@) is None,
        },
{
    match item.field("groupid") {
        Some(v) => match v.as_str() {
            Some(name) => parse_group_name(name.as_str()),
            None => None,
        },
        None => None,
    }
}

/// The environment passes the listing's filters.
pub fn matches_filters(p: &ParsedEnvironment, params: &ListEnvironmentParams) -> (r: bool)
    ensures
        r == passes_filters(p@, params),
{
    match &params.module {
        Some(m) => {
            if !eq_ignore_ascii_case(p.module.as_str(), m.as_str()) {
                return false;
            }
        },
        None => {},
    }
    match &params.class {
        Some(c) => {
            let lowered = to_lower(c.as_str());
            let wanted = remove_char(lowered.as_str(), '-');
            if !same_text(p.class.as_str(), wanted.as_str()) {
                return false;
            }
        },
        None => {},
    }
    match &params.group_id {
        Some(g) => {
            if !same_text(p.group_id.as_str(), g.as_str()) {
                return false;
            }
        },
        None => {},
    }
    true
}

/// The environments of a group list that pass the filters, in the order of the groups.
pub fn environment_candidates(groups: &Json, params: &ListEnvironmentParams) -> (r: Vec<ParsedEnvironment>)
    ensures
        parsed_views(r@) == listed_environments(data_items(groups@), params),
{
    let mut r: Vec<ParsedEnvironment> = Vec::new();
    match data_array(groups) {
        Some(items) => {
            let ghost all = json_values(items@);
            let mut i: usize = 0;
            while i < items.len()
                invariant
                    i <= items.len(),
                    all == json_values(items@),
                    parsed_views(r@) == listed_environments(all.take(i as int), params),
                decreases items.len() - i,
            {
                assert(all.take(i + 1).drop_last() =~= all.take(i as int));
                assert(all.take(i + 1).last() == items@[i as int]@);
                match item_environment(&items[i]) {
                    Some(p) => {
                        if matches_filters(&p, params) {
                            let ghost pv = p@;
                            r.push(p);
                            assert(parsed_views(r@) =~= listed_environments(all.take(i as int), params).push(pv));
                        }
                    },
                    None => {},
                }
                i = i + 1;
            }
            assert(all.take(items.len() as int) =~= all);
        },
        None => {
            assert(parsed_views(r@) =~= Seq::<ParsedEnvironmentView>::empty());
        },
    }
    r
}


// ---------------------------------------------------------------------------
// What an environment holds
// ---------------------------------------------------------------------------

/// The items that are strings, in order.
pub open spec fn string_items(items: Seq<JsonValue>) -> Seq<Seq<char>>
    decreases items.len(),
{
    if items.len() == 0 {
        Seq::empty()
    } else {
        let rest = string_items(items.drop_last());
        match items.last().as_str() {
            Some(s) => rest.push(s),
            None => rest,
        }
    }
}

/// The members of a user group, from the answer about the group; none when it failed.
pub open spec fn group_member_names(outcome: Result<JsonValue, Seq<char>>) -> Seq<Seq<char>> {
    match outcome {
        Ok(answer) => string_items(answer.field("data"@).field("members"@).items()),
        Err(_) => Seq::empty(),
    }
}

/// Goes through the members of a resource pool: the ids of its QEMU VMs (truncated to 32 bits),
/// in order, and the first non-empty node that one of them names.
pub open spec fn scan_pool(items: Seq<JsonValue>) -> (Seq<u32>, Seq<char>)
    decreases items.len(),
{
    if items.len() == 0 {
        (Seq::empty(), Seq::empty())
    } else {
        let (vms, node) = scan_pool(items.drop_last());
        let m = items.last();
        if m.field("type"@).as_str() == Some("qemu"@) {
            let vms2 = match m.field("vmid"@).as_u64() {
                Some(v) => vms.push(v as u32),
                None => vms,
            };
            let node2 = if node.len() == 0 {
                match m.field("node"@).as_str() {
                    Some(n) => n,
                    None => node,
                }
            } else {
                node
            };
            (vms2, node2)
        } else {
            (vms, node)
        }
    }
}

/// The VMs of a resource pool and their node, from the answer about the pool; none when it
/// failed.
pub open spec fn pool_contents(outcome: Result<JsonValue, Seq<char>>) -> (Seq<u32>, Seq<char>) {
    match outcome {
        Ok(answer) => scan_pool(answer.field("data"@).field("members"@).items()),
        Err(_) => (Seq::empty(), Seq::empty()),
    }
}

/// The items of `answer["data"][key]`, when it is an array.
fn data_member_array<'a>(answer: &'a Json, key: &str) -> (r: Option<&'a Vec<Json>>)
    ensures
        match r {
            Some(v) => json_values(v@) == answer@.field("data"@).field(key@).items(),
            None => answer@.field("data"@).field(key@).items() == Seq::<JsonValue>::empty(),
        },
{
    match answer.field("data") {
        Some(d) => match d.field(key) {
            Some(m) => m.as_array(),
            None => None,
        },
        None => None,
    }
}

/// The members of a user group, from the answer about the group.
pub fn group_members(outcome: &Result<Json, String>) -> (r: Vec<String>)
    ensures
        views(r@) == group_member_names(outcome_view(*outcome)),
{
    let mut r: Vec<String> = Vec::new();
    match outcome {
        Ok(answer) => match data_member_array(answer, "members") {
            Some(items) => {
                let ghost all = json_values(items@);
                let mut i: usize = 0;
                while i < items.len()
                    invariant
                        i <= items.len(),
                        all == json_values(items@),
                        views(r@) == string_items(all.take(i as int)),
                    decreases items.len() - i,
                {
                    assert(all.take(i + 1).drop_last() =~= all.take(i as int));
                    assert(all.take(i + 1).last() == items@[i as int]@);
                    match items[i].as_str() {
                        Some(s) => {
                            r.push(s.clone());
                            assert(views(r@) =~= string_items(all.take(i as int)).push(s@));
                        },
                        None => {},
                    }
                    i = i + 1;
                }
                assert(all.take(items.len() as int) =~= all);
            },
            None => {
                assert(views(r@) =~= Seq::<Seq<char>>::empty());
            },
        },
        Err(_) => {
            assert(views(r@) =~= Seq::<Seq<char>>::empty());
        },
    }
    r
}

/// The VMs of a resource pool and their node, from the answer about the pool.
pub fn pool_vms(outcome: &Result<Json, String>) -> (r: (Vec<u32>, String))
    ensures
        (r.0@, r.1@) == pool_contents(outcome_view(*outcome)),
{
    let mut vms: Vec<u32> = Vec::new();
    let mut node = String::new();
    match outcome {
        Ok(answer) => match data_member_array(answer, "members") {
            Some(items) => {
                let ghost all = json_values(items@);
                let mut i: usize = 0;
                while i < items.len()
                    invariant
                        i <= items.len(),
                        all == json_values(items@),
                        (vms@, node@) == scan_pool(all.take(i as int)),
                    decreases items.len() - i,
                {
                    assert(all.take(i + 1).drop_last() =~= all.take(i as int));
                    assert(all.take(i + 1).last() == items@[i as int]@);
                    let m = &items[i];
                    let is_qemu = match m.field("type") {
                        Some(t) => match t.as_str() {
                            Some(k) => same_text(k.as_str(), "qemu"),
                            None => false,
                        },
                        None => false,
                    };
                    if is_qemu {
                        match m.field("vmid") {
                            Some(v) => match v.as_u64() {
                                Some(id) => vms.push(id as u32),
                                None => {},
                            },
                            None => {},
                        }
                        if node.as_str().unicode_len() == 0 {
                            match m.field("node") {
                                Some(n) => match n.as_str() {
                                    Some(name) => {
                                        node = name.clone();
                                    },
                                    None => {},
                                },
                                None => {},
                            }
                        }
                    }
                    i = i + 1;
                }
                assert(all.take(items.len() as int) =~= all);
            },
            None => {},
        },
        Err(_) => {},
    }
    (vms, node)
}

/// An array of VM ids.
pub open spec fn id_array(ids: Seq<u32>) -> JsonValue {
    JsonValue::Array(ids.map_values(|v: u32| number(v as u64)))
}

/// An array of VM ids.
pub fn ids_to_json(ids: &Vec<u32>) -> (r: Json)
    ensures
        r@ == id_array(ids@),
{
    let mut out: Vec<Json> = Vec::new();
    let mut i: usize = 0;
    while i < ids.len()
        invariant
            i <= ids.len(),
            out.len() == i,
            forall|k: int| 0 <= k < i ==> (#[trigger] out@[k])@ == number(ids@[k] as u64),
        decreases ids.len() - i,
    {
        out.push(json_number(ids[i] as u64));
        i = i + 1;
    }
    assert(json_values(out@) =~= ids@.map_values(|v: u32| number(v as u64)));
    json_array(out)
}

/// An environment as the listing shows it: its group, module and class, its node, the names of
/// its resource pool, simple zone and virtual networks under the current settings, its VMs and
/// the members of its group.
pub open spec fn environment_summary(
    settings: SettingsView,
    p: ParsedEnvironmentView,
    members: Seq<Seq<char>>,
    vms: Seq<u32>,
    node: Seq<char>,
) -> JsonValue {
    JsonValue::Object(
        seq![
            ("group_id"@, JsonValue::Str(p.group_id)),
            ("group_name"@, JsonValue::Str(p.group_name)),
            ("module"@, JsonValue::Str(p.module)),
            ("class"@, JsonValue::Str(p.class)),
            ("node"@, JsonValue::Str(node)),
            ("resource_pool"@, JsonValue::Str(resource_pool_name(settings, p.suffix))),
            ("simple_zone"@, JsonValue::Str(simple_zone_name(settings, p.group_id))),
            ("vnets"@, string_array(seq![vnet_dmz_name(settings, p.group_id), vnet_lan_name(settings, p.group_id)])),
            ("vms"@, id_array(vms)),
            ("members"@, string_array(members)),
        ],
    )
}

/// An environment as the listing shows it, from the answers about its user group and its
/// resource pool, its resources named after the current settings.
pub fn environment_entry(
    settings: &Settings,
    p: &ParsedEnvironment,
    group: &Result<Json, String>,
    pool: &Result<Json, String>,
) -> (r: Json)
    ensures
        r@ == environment_summary(
            settings@,
            p@,
            group_member_names(outcome_view(*group)),
            pool_contents(outcome_view(*pool)).0,
            pool_contents(outcome_view(*pool)).1,
        ),
{
    let members = group_members(group);
    let (vms, node) = pool_vms(pool);
    let vnets = vec![vnet_dmz_for(settings, p.group_id.as_str()), vnet_lan_for(settings, p.group_id.as_str())];
    assert(views(vnets@) =~= seq![vnet_dmz_name(settings@, p.group_id@), vnet_lan_name(settings@, p.group_id@)]);
    let fields = vec![
        member("group_id", json_str(p.group_id.as_str())),
        member("group_name", json_str(p.group_name.as_str())),
        member("module", json_str(p.module.as_str())),
        member("class", json_str(p.class.as_str())),
        member("node", json_str(node.as_str())),
        member("resource_pool", json_str(resource_pool_for(settings, p.suffix.as_str()).as_str())),
        member("simple_zone", json_str(simple_zone_for(settings, p.group_id.as_str()).as_str())),
        member("vnets", strings_to_json(&vnets)),
        member("vms", ids_to_json(&vms)),
        member("members", strings_to_json(&members)),
    ];
    let ghost fv = fields@;
    let r = json_object(fields);
    assert(member_values(fv) =~= environment_summary(
        settings@,
        p@,
        group_member_names(outcome_view(*group)),
        pool_contents(outcome_view(*pool)).0,
        pool_contents(outcome_view(*pool)).1,
    )->Object_0);
    r
}

/// The answer of the listing: the environments, in order.
pub fn environments_response(entries: Vec<Json>) -> (r: HttpResponse)
    ensures
        r@ == (HttpResponseView { status: 200, body: Some(JsonValue::Array(json_values(entries@))) }),
{
    json_response(200, json_array(entries))
}

/// The answer when the user groups could not be read.
pub fn groups_failure_response(error: &str) -> (r: HttpResponse)
    ensures
        r@ == (HttpResponseView { status: 500, body: Some(error_body("Failed to list groups: "@ + error@)) }),
{
    error_response(500, "Failed to list groups: ", error)
}


// ---------------------------------------------------------------------------
// A listing, from the answer about the user groups to the answer of the request
// ---------------------------------------------------------------------------

/// The request that reads the user group `group`.
pub open spec fn group_request(state: &AppState, group: Seq<char>) -> ProxmoxRequestView {
    ProxmoxRequestView {
        method: HttpMethod::Get,
        url: state.proxmox_url@ + "/api2/json/access/groups/"@ + group,
        authorization: auth_text(state),
        form: Seq::empty(),
    }
}

/// The request that reads the resource pool `pool`.
pub open spec fn pool_request(state: &AppState, pool: Seq<char>) -> ProxmoxRequestView {
    ProxmoxRequestView {
        method: HttpMethod::Get,
        url: state.proxmox_url@ + "/api2/json/pools/"@ + pool,
        authorization: auth_text(state),
        form: Seq::empty(),
    }
}

/// Where a listing stands: the environments it shows, and the answers received so far about
/// their user groups and resource pools, in the order of the environments.
pub struct ListingView {
    pub state: AppState,
    pub settings: SettingsView,
    pub environments: Seq<ParsedEnvironmentView>,
    pub group_answers: Seq<Result<JsonValue, Seq<char>>>,
    pub pool_answers: Seq<Result<JsonValue, Seq<char>>>,
}

/// The request a listing waits for: for each environment in turn, first its user group, then
/// its resource pool (named after the settings); none once every environment is read.
pub open spec fn listing_request(v: ListingView) -> Option<ProxmoxRequestView> {
    let k = v.pool_answers.len();
    if k >= v.environments.len() {
        None
    } else if v.group_answers.len() == k {
        Some(group_request(&v.state, v.environments[k as int].group_name))
    } else {
        Some(pool_request(&v.state, resource_pool_name(v.settings, v.environments[k as int].suffix)))
    }
}

/// A listing after the answer to the request it waited for.
pub open spec fn listing_after(v: ListingView, answer: Result<JsonValue, Seq<char>>) -> ListingView {
    if v.group_answers.len() == v.pool_answers.len() {
        ListingView { group_answers: v.group_answers.push(answer), ..v }
    } else {
        ListingView { pool_answers: v.pool_answers.push(answer), ..v }
    }
}

/// The entries of the first `n` environments, from the answers about them.
pub open spec fn listing_entries(v: ListingView, n: nat) -> Seq<JsonValue> {
    Seq::new(n, |i: int| environment_summary(
        v.settings,
        v.environments[i],
        group_member_names(v.group_answers[i]),
        pool_contents(v.pool_answers[i]).0,
        pool_contents(v.pool_answers[i]).1,
    ))
}

/// A listing: the environments of the group list that pass the filters, read one after the
/// other.
pub struct ListingSession {
    state: AppState,
    settings: Settings,
    environments: Vec<ParsedEnvironment>,
    entries: Vec<Json>,
    group_answer: Option<Result<Json, String>>,
    group_answers: Ghost<Seq<Result<JsonValue, Seq<char>>>>,
    pool_answers: Ghost<Seq<Result<JsonValue, Seq<char>>>>,
}

impl View for ListingSession {
    type V = ListingView;

    closed spec fn view(&self) -> ListingView {
        ListingView {
            state: self.state,
            settings: self.settings@,
            environments: parsed_views(self.environments@),
            group_answers: self.group_answers@,
            pool_answers: self.pool_answers@,
        }
    }
}

impl ListingSession {
    /// The session is consistent: the answers come in order, and the entries built so far are
    /// those of the environments fully read.
    pub closed spec fn wf(&self) -> bool {
        let v = self@;
        &&& v.pool_answers.len() <= v.environments.len()
        &&& v.group_answers.len() == v.pool_answers.len() || v.group_answers.len() == v.pool_answers.len() + 1
        &&& self.entries@.len() == v.pool_answers.len()
        &&& json_values(self.entries@) == listing_entries(v, v.pool_answers.len())
        &&& (v.group_answers.len() == v.pool_answers.len() <==> self.group_answer is None)
        &&& (self.group_answer matches Some(g) ==> outcome_view(g) == v.group_answers.last())
    }

    /// A listing of the environments that `groups` (the answer about the user groups) names and
    /// that pass `params`, their resources named after `settings`.
    pub fn new(state: AppState, settings: Settings, groups: &Json, params: &ListEnvironmentParams) -> (r: ListingSession)
        ensures
            r.wf(),
            r@ == (ListingView {
                state: state,
                settings: settings@,
                environments: listed_environments(data_items(groups@), params),
                group_answers: Seq::empty(),
                pool_answers: Seq::empty(),
            }),
    {
        let environments = environment_candidates(groups, params);
        let r = ListingSession {
            state,
            settings,
            environments,
            entries: Vec::new(),
            group_answer: None,
            group_answers: Ghost(Seq::empty()),
            pool_answers: Ghost(Seq::empty()),
        };
        assert(json_values(r.entries@) =~= listing_entries(r@, 0));
        r
    }

    /// The request to make next, if any.
    pub fn next_request(&self) -> (r: Option<ProxmoxRequest>)
        requires
            self.wf(),
        ensures
            match r {
                Some(q) => listing_request(self@) == Some(q@),
                None => listing_request(self@) is None,
            },
    {
        let k = self.entries.len();
        if k >= self.environments.len() {
            return None;
        }
        let env = &self.environments[k];
        assert(self@.environments[k as int] == env@);
        match &self.group_answer {
            None => Some(EnvironmentClient::get_group(&self.state, env.group_name.as_str())),
            Some(_) => {
                let pool = resource_pool_for(&self.settings, env.suffix.as_str());
                Some(EnvironmentClient::get_pool(&self.state, pool.as_str()))
            },
        }
    }

    /// Records the answer to the request made.
    pub fn record(&mut self, answer: Result<Json, String>)
        requires
            old(self).wf(),
            listing_request(old(self)@) is Some,
        ensures
            final(self).wf(),
            final(self)@ == listing_after(old(self)@, outcome_view(answer)),
    {
        let ghost before = self@;
        let k = self.entries.len();
        match self.group_answer.take() {
            None => {
                proof {
                    self.group_answers@ = self.group_answers@.push(outcome_view(answer));
                }
                self.group_answer = Some(answer);
                assert(self@ == listing_after(before, outcome_view(answer)));
                assert(json_values(self.entries@) =~= listing_entries(self@, self@.pool_answers.len()));
            },
            Some(group) => {
                let env = &self.environments[k];
                assert(before.environments[k as int] == env@);
                let entry = environment_entry(&self.settings, env, &group, &answer);
                proof {
                    self.pool_answers@ = self.pool_answers@.push(outcome_view(answer));
                }
                let ghost old_entries = json_values(self.entries@);
                self.entries.push(entry);
                assert(self@ =~= listing_after(before, outcome_view(answer)));
                assert(json_values(self.entries@) =~= listing_entries(self@, self@.pool_answers.len())) by {
                    assert forall|i: int| 0 <= i < self.entries@.len() implies json_values(self.entries@)[i]
                        == listing_entries(self@, self@.pool_answers.len())[i] by {
                        if i < k {
                            assert(json_values(self.entries@)[i] == old_entries[i]);
                            assert(old_entries[i] == listing_entries(before, before.pool_answers.len())[i]);
                        }
                    }
                }
            },
        }
    }

    /// The answer of the listing once every environment is read: status 200 and the entries,
    /// in order.
    pub fn response(self) -> (r: HttpResponse)
        requires
            self.wf(),
            listing_request(self@) is None,
        ensures
            r@ == (HttpResponseView {
                status: 200,
                body: Some(JsonValue::Array(listing_entries(self@, self@.environments.len()))),
            }),
    {
        environments_response(self.entries)
    }
}

// ---------------------------------------------------------------------------
// Laws of the listing
// ---------------------------------------------------------------------------

/// Every environment that the listing shows passes its filters and is named by one of the
/// groups.
pub proof fn lemma_listed_environments_pass_filters(items: Seq<JsonValue>, params: &ListEnvironmentParams)
    ensures
        forall|k: int| 0 <= k < listed_environments(items, params).len() ==> {
            &&& passes_filters(#[trigger] listed_environments(items, params)[k], params)
            &&& exists|j: int| 0 <= j < items.len() && group_item_environment(items[j]) == Some(listed_environments(items, params)[k])
        },
    decreases items.len(),
{
    if items.len() > 0 {
        let rest = items.drop_last();
        lemma_listed_environments_pass_filters(rest, params);
        let listed = listed_environments(items, params);
        assert forall|k: int| 0 <= k < listed.len() implies {
            &&& passes_filters(#[trigger] listed[k], params)
            &&& exists|j: int| 0 <= j < items.len() && group_item_environment(items[j]) == Some(listed[k])
        } by {
            if k < listed_environments(rest, params).len() {
                assert(listed[k] == listed_environments(rest, params)[k]);
                let j = choose|j: int| 0 <= j < rest.len() && group_item_environment(rest[j]) == Some(listed_environments(rest, params)[k]);
                assert(items[j] == rest[j]);
            } else {
                assert(group_item_environment(items[items.len() - 1]) == Some(listed[k]));
            }
        }
    }
}

/// Every environment that a group names and that passes the filters is listed: the listing
/// drops nothing else.
pub proof fn lemma_listing_keeps_every_passing_environment(items: Seq<JsonValue>, params: &ListEnvironmentParams, j: int)
    requires
        0 <= j < items.len(),
        group_item_environment(items[j]) is Some,
        passes_filters(group_item_environment(items[j])->Some_0, params),
    ensures
        listed_environments(items, params).contains(group_item_environment(items[j])->Some_0),
    decreases items.len(),
{
    let p = group_item_environment(items[j])->Some_0;
    let rest = listed_environments(items.drop_last(), params);
    let all = listed_environments(items, params);
    if j == items.len() - 1 {
        assert(items.last() == items[j]);
        assert(all == rest.push(p));
        assert(all[rest.len() as int] == p);
    } else {
        assert(items.drop_last()[j] == items[j]);
        lemma_listing_keeps_every_passing_environment(items.drop_last(), params, j);
        let i = choose|i: int| 0 <= i < rest.len() && rest[i] == p;
        assert(all.len() >= rest.len());
        assert(all[i] == rest[i]);
    }
}

/// Without filters, every group whose name parses is listed.
pub proof fn lemma_unfiltered_listing_keeps_every_environment(items: Seq<JsonValue>, params: &ListEnvironmentParams, j: int)
    requires
        params.module is None,
        params.class is None,
        params.group_id is None,
        0 <= j < items.len(),
        group_item_environment(items[j]) is Some,
    ensures
        listed_environments(items, params).contains(group_item_environment(items[j])->Some_0),
{
    lemma_listing_keeps_every_passing_environment(items, params, j);
}

} // verus!
