use vstd::prelude::*;
use vstd::string::*;

use crate::json::{json_array, json_object, json_object1, json_str, json_values, member, member_values, Json, JsonNumber, JsonValue};
use crate::response::{error_body, error_response, json_response, outcome_view, HttpResponse, HttpResponseView};
use crate::text::{before_first, before_first_of, decimal, owned, views};

verus! {

// ---------------------------------------------------------------------------
// Reading Proxmox answers
// ---------------------------------------------------------------------------

/// The items of `answer["data"]`, or none when it is not an array.
pub open spec fn data_items(answer: JsonValue) -> Seq<JsonValue> {
    answer.field("data"@).items()
}

/// The string values of member `key` of the items that have one, in order.
pub open spec fn string_members(items: Seq<JsonValue>, key: Seq<char>) -> Seq<Seq<char>>
    decreases items.len(),
{
    if items.len() == 0 {
        Seq::empty()
    } else {
        let rest = string_members(items.drop_last(), key);
        match items.last().field(key).as_str() {
            Some(s) => rest.push(s),
            None => rest,
        }
    }
}

/// The text of a member that is a string, or the empty text (`as_str().unwrap_or("")`).
pub open spec fn text_or_empty(v: JsonValue) -> Seq<char> {
    match v.as_str() {
        Some(s) => s,
        None => Seq::empty(),
    }
}

/// The number of a member that is a non-negative integer, or 0 (`as_u64().unwrap_or(0)`).
pub open spec fn count_or_zero(v: JsonValue) -> u64 {
    match v.as_u64() {
        Some(n) => n,
        None => 0,
    }
}

/// A JSON integer.
pub open spec fn number(n: u64) -> JsonValue {
    JsonValue::Number(JsonNumber::PosInt(n))
}

/// An array of strings.
pub open spec fn string_array(items: Seq<Seq<char>>) -> JsonValue {
    JsonValue::Array(items.map_values(|s: Seq<char>| JsonValue::Str(s)))
}

/// An object of one string member.
pub open spec fn labelled(label: Seq<char>, text: Seq<char>) -> JsonValue {
    JsonValue::Object(seq![(label, JsonValue::Str(text))])
}

/// The items of `answer["data"]`, when it is an array.
pub fn data_array<'a>(answer: &'a Json) -> (r: Option<&'a Vec<Json>>)
    ensures
        match r {
            Some(v) => json_values(v@) == data_items(answer@),
            None => data_items(answer@) == Seq::<JsonValue>::empty(),
        },
{
    match answer.field("data") {
        Some(d) => d.as_array(),
        None => None,
    }
}

/// The string values of member `key` of the items that have one, in order.
pub fn collect_string_members(items: &Vec<Json>, key: &str) -> (r: Vec<String>)
    ensures
        views(r@) == string_members(json_values(items@), key@),
{
    let ghost all = json_values(items@);
    let mut r: Vec<String> = Vec::new();
    let mut i: usize = 0;
    while i < items.len()
        invariant
            i <= items.len(),
            all == json_values(items@),
            views(r@) == string_members(all.take(i as int), key@),
        decreases items.len() - i,
    {
        assert(all.take(i + 1).drop_last() =~= all.take(i as int));
        assert(all.take(i + 1).last() == items@[i as int]@);
        let value = items[i].field(key);
        match value {
            Some(v) => match v.as_str() {
                Some(s) => {
                    r.push(s.clone());
                    assert(views(r@) =~= string_members(all.take(i as int), key@).push(s@));
                },
                None => {},
            },
            None => {},
        }
        i = i + 1;
    }
    assert(all.take(items.len() as int) =~= all);
    r
}

/// The string values of member `key` of the items of `answer["data"]`.
pub fn data_strings(answer: &Json, key: &str) -> (r: Vec<String>)
    ensures
        views(r@) == string_members(data_items(answer@), key@),
{
    match data_array(answer) {
        Some(items) => collect_string_members(items, key),
        None => Vec::new(),
    }
}

/// An array of strings.
pub fn strings_to_json(items: &Vec<String>) -> (r: Json)
    ensures
        r@ == string_array(views(items@)),
{
    let mut out: Vec<Json> = Vec::new();
    let mut i: usize = 0;
    while i < items.len()
        invariant
            i <= items.len(),
            out.len() == i,
            forall|k: int| 0 <= k < i ==> (#[trigger] out@[k])@ == JsonValue::Str(items@[k]@),
        decreases items.len() - i,
    {
        out.push(json_str(items[i].as_str()));
        i = i + 1;
    }
    assert(json_values(out@) =~= views(items@).map_values(|s: Seq<char>| JsonValue::Str(s)));
    json_array(out)
}

/// One object `{label: text}` per text, in order.
pub fn labelled_objects(texts: &Vec<String>, label: &str) -> (r: Json)
    ensures
        r@ == JsonValue::Array(views(texts@).map_values(|s: Seq<char>| labelled(label@, s))),
{
    let mut out: Vec<Json> = Vec::new();
    let mut i: usize = 0;
    while i < texts.len()
        invariant
            i <= texts.len(),
            out.len() == i,
            forall|k: int| 0 <= k < i ==> (#[trigger] out@[k])@ == labelled(label@, texts@[k]@),
        decreases texts.len() - i,
    {
        out.push(json_object1(label, json_str(texts[i].as_str())));
        i = i + 1;
    }
    assert(json_values(out@) =~= views(texts@).map_values(|s: Seq<char>| labelled(label@, s)));
    json_array(out)
}

// ---------------------------------------------------------------------------
// Users, groups, roles, nodes
// ---------------------------------------------------------------------------

/// The user names of a user list: each `userid`, cut before its realm (`@...`).
pub open spec fn user_names_of(answer: JsonValue) -> Seq<Seq<char>> {
    string_members(data_items(answer), "userid"@).map_values(|u: Seq<char>| before_first(u, '@'))
}

/// The user names of a user list: each `userid`, cut before its realm (`@...`).
pub fn user_names(answer: &Json) -> (r: Vec<String>)
    ensures
        views(r@) == user_names_of(answer@),
{
    let ids = data_strings(answer, "userid");
    let mut r: Vec<String> = Vec::new();
    let mut i: usize = 0;
    while i < ids.len()
        invariant
            i <= ids.len(),
            r.len() == i,
            forall|k: int| 0 <= k < i ==> (#[trigger] r@[k])@ == before_first(ids@[k]@, '@'),
        decreases ids.len() - i,
    {
        r.push(before_first_of(ids[i].as_str(), '@'));
        i = i + 1;
    }
    assert(views(r@) =~= views(ids@).map_values(|u: Seq<char>| before_first(u, '@')));
    r
}

/// The answer to a user list request: the user names, or an error when Proxmox could not be read.
pub fn users_response(outcome: &Result<Json, String>) -> (r: HttpResponse)
    ensures
        r@ == match outcome_view(*outcome) {
            Ok(answer) => HttpResponseView { status: 200, body: Some(string_array(user_names_of(answer))) },
            Err(e) => HttpResponseView { status: 500, body: Some(error_body("Failed to fetch users: "@ + e)) },
        },
{
    match outcome {
        Ok(answer) => {
            let names = user_names(answer);
            json_response(200, strings_to_json(&names))
        },
        Err(e) => error_response(500, "Failed to fetch users: ", e.as_str()),
    }
}

/// The answer to a list request whose items are `{label: <member source of each item>}`: one
/// object for each item of the answer that has a string `source`.
pub open spec fn labelled_list(answer: JsonValue, source: Seq<char>, label: Seq<char>) -> JsonValue {
    JsonValue::Array(string_members(data_items(answer), source).map_values(|s: Seq<char>| labelled(label, s)))
}

/// Answers a list request with one `{label: ...}` object per item that has a string `source`,
/// or with the error `<failure>: <error>`.
fn labelled_list_response(outcome: &Result<Json, String>, source: &str, label: &str, failure: &str) -> (r: HttpResponse)
    ensures
        r@ == match outcome_view(*outcome) {
            Ok(answer) => HttpResponseView { status: 200, body: Some(labelled_list(answer, source@, label@)) },
            Err(e) => HttpResponseView { status: 500, body: Some(error_body(failure@ + e)) },
        },
{
    match outcome {
        Ok(answer) => {
            let names = data_strings(answer, source);
            json_response(200, labelled_objects(&names, label))
        },
        Err(e) => error_response(500, failure, e.as_str()),
    }
}

/// The answer to a group list request: `{"group_name": ...}` for each group.
pub fn groups_response(outcome: &Result<Json, String>) -> (r: HttpResponse)
    ensures
        r@ == match outcome_view(*outcome) {
            Ok(answer) => HttpResponseView { status: 200, body: Some(labelled_list(answer, "groupid"@, "group_name"@)) },
            Err(e) => HttpResponseView { status: 500, body: Some(error_body("Failed to fetch groups: "@ + e)) },
        },
{
    labelled_list_response(outcome, "groupid", "group_name", "Failed to fetch groups: ")
}

/// The answer to a role list request: `{"role": ...}` for each role.
pub fn roles_response(outcome: &Result<Json, String>) -> (r: HttpResponse)
    ensures
        r@ == match outcome_view(*outcome) {
            Ok(answer) => HttpResponseView { status: 200, body: Some(labelled_list(answer, "roleid"@, "role"@)) },
            Err(e) => HttpResponseView { status: 500, body: Some(error_body("Failed to fetch roles: "@ + e)) },
        },
{
    labelled_list_response(outcome, "roleid", "role", "Failed to fetch roles: ")
}

/// The answer to a node list request: `{"node": ...}` for each node.
pub fn nodes_response(outcome: &Result<Json, String>) -> (r: HttpResponse)
    ensures
        r@ == match outcome_view(*outcome) {
            Ok(answer) => HttpResponseView { status: 200, body: Some(labelled_list(answer, "node"@, "node"@)) },
            Err(e) => HttpResponseView { status: 500, body: Some(error_body("Failed to fetch nodes: "@ + e)) },
        },
{
    labelled_list_response(outcome, "node", "node", "Failed to fetch nodes: ")
}


// ---------------------------------------------------------------------------
// Storage
// ---------------------------------------------------------------------------

/// The summary of a storage pool: its name, type and content kinds as text (empty when
/// missing), and its flags and sizes as numbers (0 when missing).
pub open spec fn storage_summary(e: JsonValue) -> JsonValue {
    JsonValue::Object(
        seq![
            ("storage"@, JsonValue::Str(text_or_empty(e.field("storage"@)))),
            ("type"@, JsonValue::Str(text_or_empty(e.field("type"@)))),
            ("content"@, JsonValue::Str(text_or_empty(e.field("content"@)))),
            ("active"@, number(count_or_zero(e.field("active"@)))),
            ("shared"@, number(count_or_zero(e.field("shared"@)))),
            ("total"@, number(count_or_zero(e.field("total"@)))),
            ("used"@, number(count_or_zero(e.field("used"@)))),
            ("avail"@, number(count_or_zero(e.field("avail"@)))),
        ],
    )
}

/// The text of member `key`, or the empty text.
pub fn text_member(e: &Json, key: &str) -> (r: String)
    ensures
        r@ == text_or_empty(e@.field(key@)),
{
    match e.field(key) {
        Some(v) => match v.as_str() {
            Some(s) => s.clone(),
            None => String::new(),
        },
        None => String::new(),
    }
}

/// The number of member `key`, or 0.
pub fn count_member(e: &Json, key: &str) -> (r: u64)
    ensures
        r == count_or_zero(e@.field(key@)),
{
    match e.field(key) {
        Some(v) => match v.as_u64() {
            Some(n) => n,
            None => 0,
        },
        None => 0,
    }
}

/// A JSON integer.
pub fn json_number(n: u64) -> (r: Json)
    ensures
        r@ == number(n),
{
    Json::Number(JsonNumber::PosInt(n))
}

/// The summary of one storage pool.
pub fn storage_entry(e: &Json) -> (r: Json)
    ensures
        r@ == storage_summary(e@),
{
    let members = vec![
        member("storage", json_str(text_member(e, "storage").as_str())),
        member("type", json_str(text_member(e, "type").as_str())),
        member("content", json_str(text_member(e, "content").as_str())),
        member("active", json_number(count_member(e, "active"))),
        member("shared", json_number(count_member(e, "shared"))),
        member("total", json_number(count_member(e, "total"))),
        member("used", json_number(count_member(e, "used"))),
        member("avail", json_number(count_member(e, "avail"))),
    ];
    let ghost mv = members@;
    let r = json_object(members);
    assert(member_values(mv) =~= storage_summary(e@)->Object_0);
    r
}

/// The answer to a storage list request: a summary of each storage pool.
pub fn storage_response(outcome: &Result<Json, String>) -> (r: HttpResponse)
    ensures
        r@ == match outcome_view(*outcome) {
            Ok(answer) => HttpResponseView {
                status: 200,
                body: Some(JsonValue::Array(data_items(answer).map_values(|e: JsonValue| storage_summary(e)))),
            },
            Err(e) => HttpResponseView { status: 500, body: Some(error_body("Failed to fetch storage: "@ + e)) },
        },
{
    match outcome {
        Ok(answer) => {
            let mut out: Vec<Json> = Vec::new();
            match data_array(answer) {
                Some(items) => {
                    let mut i: usize = 0;
                    while i < items.len()
                        invariant
                            i <= items.len(),
                            out.len() == i,
                            forall|k: int| 0 <= k < i ==> (#[trigger] out@[k])@ == storage_summary(items@[k]@),
                        decreases items.len() - i,
                    {
                        out.push(storage_entry(&items[i]));
                        i = i + 1;
                    }
                    assert(json_values(out@) =~= json_values(items@).map_values(|e: JsonValue| storage_summary(e)));
                },
                None => {
                    assert(json_values(out@) =~= data_items(answer@).map_values(|e: JsonValue| storage_summary(e)));
                },
            }
            json_response(200, json_array(out))
        },
        Err(e) => error_response(500, "Failed to fetch storage: ", e.as_str()),
    }
}

// ---------------------------------------------------------------------------
// VMs
// ---------------------------------------------------------------------------

/// The summary of a VM of `node`: its id (0 when missing, truncated to 32 bits), its name
/// (empty when missing) and the node.
pub open spec fn vm_summary(node: Seq<char>, e: JsonValue) -> JsonValue {
    JsonValue::Object(
        seq![
            ("vmid"@, number((count_or_zero(e.field("vmid"@)) as u32) as u64)),
            ("name"@, JsonValue::Str(text_or_empty(e.field("name"@)))),
            ("node"@, JsonValue::Str(node)),
        ],
    )
}

/// The summaries of the VMs in the answer of `node`: none when the call failed or the answer
/// holds no list.
pub open spec fn node_vm_summaries(node: Seq<char>, outcome: Result<JsonValue, Seq<char>>) -> Seq<JsonValue> {
    match outcome {
        Ok(answer) => match answer.field("data"@).as_array() {
            Some(items) => items.map_values(|e: JsonValue| vm_summary(node, e)),
            None => Seq::empty(),
        },
        Err(_) => Seq::empty(),
    }
}

/// The summaries of the VMs of all nodes, node after node.
pub open spec fn all_vm_summaries(nodes: Seq<Seq<char>>, outcomes: Seq<Result<JsonValue, Seq<char>>>) -> Seq<JsonValue>
    decreases nodes.len(),
{
    if nodes.len() == 0 || outcomes.len() == 0 {
        Seq::empty()
    } else {
        all_vm_summaries(nodes.drop_last(), outcomes.drop_last()) + node_vm_summaries(nodes.last(), outcomes.last())
    }
}

/// The outcomes of several calls.
pub open spec fn outcomes_view(v: Seq<Result<Json, String>>) -> Seq<Result<JsonValue, Seq<char>>> {
    v.map_values(|r: Result<Json, String>| outcome_view(r))
}

/// The node names of a node list.
pub open spec fn node_names_of(answer: JsonValue) -> Seq<Seq<char>> {
    string_members(data_items(answer), "node"@)
}

/// The node names of a node list, or the error answer when the nodes could not be read.
pub fn node_names(outcome: &Result<Json, String>) -> (r: Result<Vec<String>, HttpResponse>)
    ensures
        match outcome_view(*outcome) {
            Ok(answer) => r matches Ok(names) && views(names@) == node_names_of(answer),
            Err(e) => r matches Err(resp) && resp@ == (HttpResponseView {
                status: 500,
                body: Some(error_body("Failed to fetch nodes: "@ + e)),
            }),
        },
{
    match outcome {
        Ok(answer) => Ok(data_strings(answer, "node")),
        Err(e) => Err(error_response(500, "Failed to fetch nodes: ", e.as_str())),
    }
}

/// The summary of one VM of `node`.
pub fn vm_entry(node: &str, e: &Json) -> (r: Json)
    ensures
        r@ == vm_summary(node@, e@),
{
    let vmid = count_member(e, "vmid") as u32;
    let members = vec![
        member("vmid", json_number(vmid as u64)),
        member("name", json_str(text_member(e, "name").as_str())),
        member("node", json_str(node)),
    ];
    let ghost mv = members@;
    let r = json_object(members);
    assert(member_values(mv) =~= vm_summary(node@, e@)->Object_0);
    r
}

/// The answer to a VM list request, from the VM lists of the nodes, in the order of the nodes;
/// a node whose list could not be read adds no VM.
pub fn vm_list_response(nodes: &Vec<String>, outcomes: &Vec<Result<Json, String>>) -> (r: HttpResponse)
    requires
        nodes.len() == outcomes.len(),
    ensures
        r@ == (HttpResponseView {
            status: 200,
            body: Some(JsonValue::Array(all_vm_summaries(views(nodes@), outcomes_view(outcomes@)))),
        }),
{
    let ghost nv = views(nodes@);
    let ghost ov = outcomes_view(outcomes@);
    let mut out: Vec<Json> = Vec::new();
    let mut i: usize = 0;
    while i < nodes.len()
        invariant
            i <= nodes.len() == outcomes.len(),
            nv == views(nodes@),
            ov == outcomes_view(outcomes@),
            json_values(out@) == all_vm_summaries(nv.take(i as int), ov.take(i as int)),
        decreases nodes.len() - i,
    {
        assert(nv.take(i + 1).drop_last() =~= nv.take(i as int));
        assert(ov.take(i + 1).drop_last() =~= ov.take(i as int));
        let ghost before = json_values(out@);
        let ghost added = node_vm_summaries(nodes@[i as int]@, outcome_view(outcomes@[i as int]));
        match &outcomes[i] {
            Ok(answer) => match answer.field("data") {
                Some(d) => match d.as_array() {
                    Some(items) => {
                        let mut k: usize = 0;
                        let start = out.len();
                        assert(added == json_values(items@).map_values(|e: JsonValue| vm_summary(nodes@[i as int]@, e)));
                        while k < items.len()
                            invariant
                                i < nodes.len(),
                                added == json_values(items@).map_values(|e: JsonValue| vm_summary(nodes@[i as int]@, e)),
                                k <= items.len(),
                                out.len() == start + k,
                                forall|j: int| 0 <= j < start ==> (#[trigger] out@[j])@ == before[j],
                                before.len() == start,
                                forall|j: int| start <= j < start + k ==> (#[trigger] out@[j])@ == vm_summary(nodes@[i as int]@, items@[j - start]@),
                            decreases items.len() - k,
                        {
                            out.push(vm_entry(nodes[i].as_str(), &items[k]));
                            k = k + 1;
                        }
                        assert(json_values(out@) =~= before + added);
                    },
                    None => {
                        assert(json_values(out@) =~= before + added);
                    },
                },
                None => {
                    assert(json_values(out@) =~= before + added);
                },
            },
            Err(_) => {
                assert(json_values(out@) =~= before + added);
            },
        }
        i = i + 1;
    }
    assert(nv.take(nodes.len() as int) =~= nv);
    assert(ov.take(nodes.len() as int) =~= ov);
    json_response(200, json_array(out))
}


// ---------------------------------------------------------------------------
// Infrastructure of a VM
// ---------------------------------------------------------------------------

/// The VM list of a node holds the VM `vm_id`.
pub open spec fn lists_vm(outcome: Result<JsonValue, Seq<char>>, vm_id: u32) -> bool {
    match outcome {
        Ok(answer) => match answer.field("data"@).as_array() {
            Some(items) => exists|k: int| 0 <= k < items.len() && (#[trigger] items[k]).field("vmid"@).as_u64() == Some(vm_id as u64),
            None => false,
        },
        Err(_) => false,
    }
}

/// The VM list of a node holds the VM `vm_id`.
pub fn holds_vm(outcome: &Result<Json, String>, vm_id: u32) -> (r: bool)
    ensures
        r == lists_vm(outcome_view(*outcome), vm_id),
{
    match outcome {
        Ok(answer) => match answer.field("data") {
            Some(d) => match d.as_array() {
                Some(items) => {
                    let ghost iv = json_values(items@);
                    let mut k: usize = 0;
                    while k < items.len()
                        invariant
                            k <= items.len(),
                            iv == json_values(items@),
                            outcome_view(*outcome) == Ok::<JsonValue, Seq<char>>(answer@),
                            answer@.field("data"@).as_array() == Some(iv),
                            forall|j: int| 0 <= j < k ==> (#[trigger] iv[j]).field("vmid"@).as_u64() != Some(vm_id as u64),
                        decreases items.len() - k,
                    {
                        let hit = match items[k].field("vmid") {
                            Some(v) => v.as_u64() == Some(vm_id as u64),
                            None => false,
                        };
                        assert(iv[k as int] == items@[k as int]@);
                        if hit {
                            assert(iv[k as int].field("vmid"@).as_u64() == Some(vm_id as u64));
                            return true;
                        }
                        k = k + 1;
                    }
                    false
                },
                None => false,
            },
            None => false,
        },
        Err(_) => false,
    }
}

/// Where a search for the node of a VM stands: the VM, the nodes to ask in order, the answers
/// of the nodes asked so far, and the position of the node that lists the VM, once one does.
pub struct VmSearchView {
    pub vm_id: u32,
    pub nodes: Seq<Seq<char>>,
    pub answers: Seq<Result<JsonValue, Seq<char>>>,
    pub found: Option<int>,
}

/// The search for the node that runs a VM: the nodes are asked for their VM lists one after
/// the other, until one lists the VM.
pub struct VmSearch {
    vm_id: u32,
    nodes: Vec<String>,
    /// How many nodes have answered.
    asked: usize,
    /// The node that lists the VM, once one does.
    found: Option<usize>,
    /// The answers so far.
    answers: Ghost<Seq<Result<JsonValue, Seq<char>>>>,
}

impl View for VmSearch {
    type V = VmSearchView;

    closed spec fn view(&self) -> VmSearchView {
        VmSearchView {
            vm_id: self.vm_id,
            nodes: views(self.nodes@),
            answers: self.answers@,
            found: match self.found {
                Some(f) => Some(f as int),
                None => None,
            },
        }
    }
}

/// A search is consistent: the first nodes answered; the search found the last of them if it
/// lists the VM, and no earlier one lists it.
pub open spec fn search_consistent(v: VmSearchView) -> bool {
    &&& v.answers.len() <= v.nodes.len()
    &&& forall|j: int| 0 <= j < v.answers.len() && (v.found matches Some(f) ==> j < f) ==> !lists_vm(#[trigger] v.answers[j], v.vm_id)
    &&& (v.found matches Some(f) ==> f + 1 == v.answers.len() && lists_vm(v.answers[f], v.vm_id))
}

/// A search is over: a node lists the VM, or all nodes answered.
pub open spec fn search_done(v: VmSearchView) -> bool {
    v.found is Some || v.answers.len() == v.nodes.len()
}

impl VmSearch {
    /// The search is consistent, and its fields agree with its view.
    pub closed spec fn wf(&self) -> bool {
        &&& search_consistent(self@)
        &&& self.asked == self.answers@.len()
        &&& self.nodes@.len() == self@.nodes.len()
    }

    /// A search among `nodes` that has asked none of them yet.
    pub fn new(vm_id: u32, nodes: Vec<String>) -> (r: VmSearch)
        ensures
            r.wf(),
            r@ == (VmSearchView { vm_id: vm_id, nodes: views(nodes@), answers: Seq::empty(), found: None }),
    {
        VmSearch { vm_id, nodes, asked: 0, found: None, answers: Ghost(Seq::empty()) }
    }

    /// The node to ask next, while the search goes on.
    pub fn next_node(&self) -> (r: Option<&String>)
        requires
            self.wf(),
        ensures
            search_done(self@) ==> r is None,
            !search_done(self@) ==> (r matches Some(n) && n@ == self@.nodes[self@.answers.len() as int]),
    {
        if self.found.is_none() && self.asked < self.nodes.len() {
            Some(&self.nodes[self.asked])
        } else {
            None
        }
    }

    /// Takes the answer of the node asked.
    pub fn record(&mut self, outcome: &Result<Json, String>)
        requires
            old(self).wf(),
            !search_done(old(self)@),
        ensures
            final(self).wf(),
            final(self)@ == (VmSearchView {
                answers: old(self)@.answers.push(outcome_view(*outcome)),
                found: if lists_vm(outcome_view(*outcome), old(self)@.vm_id) {
                    Some(old(self)@.answers.len() as int)
                } else {
                    None
                },
                ..old(self)@
            }),
    {
        assert(self.asked < self.nodes.len());
        let hit = holds_vm(outcome, self.vm_id);
        if hit {
            self.found = Some(self.asked);
        }
        self.answers = Ghost(self.answers@.push(outcome_view(*outcome)));
        self.asked = self.asked + 1;
    }

    /// The node that lists the VM, once the search found one.
    pub fn found_node(&self) -> (r: Option<&String>)
        requires
            self.wf(),
        ensures
            match self@.found {
                Some(f) => (r matches Some(n) && n@ == self@.nodes[f]),
                None => r is None,
            },
    {
        match self.found {
            Some(f) => Some(&self.nodes[f]),
            None => None,
        }
    }
}

/// The firewall of a VM is on: its options answer `enable: 1`.
pub open spec fn firewall_on(outcome: Result<JsonValue, Seq<char>>) -> bool {
    match outcome {
        Ok(answer) => count_or_zero(answer.field("data"@).field("enable"@)) == 1,
        Err(_) => false,
    }
}

/// The firewall of a VM is on: its options answer `enable: 1`.
pub fn firewall_enabled(outcome: &Result<Json, String>) -> (r: bool)
    ensures
        r == firewall_on(outcome_view(*outcome)),
        r == (outcome_view(*outcome) matches Ok(answer)
            && answer.field("data"@).field("enable"@) == JsonValue::Number(JsonNumber::PosInt(1))),
{
    match outcome {
        Ok(answer) => {
            let enable = match answer.field("data") {
                Some(d) => count_member(d, "enable"),
                None => 0,
            };
            enable == 1
        },
        Err(_) => false,
    }
}

/// How many of the interfaces `net0` to `net<k-1>` a VM configuration defines.
pub open spec fn interface_count(config: JsonValue, k: nat) -> nat
    decreases k,
{
    if k == 0 {
        0
    } else {
        interface_count(config, (k - 1) as nat) + if config.field("net"@ + decimal((k - 1) as nat)).is_string() {
            1nat
        } else {
            0nat
        }
    }
}

/// The network profile of a VM: how many of the interfaces `net0` to `net9` its configuration
/// defines, when that is at least one.
pub open spec fn network_profile_of(outcome: Result<JsonValue, Seq<char>>) -> Option<nat> {
    match outcome {
        Ok(answer) => {
            let n = interface_count(answer.field("data"@), 10);
            if n > 0 { Some(n) } else { None }
        },
        Err(_) => None,
    }
}

/// The network profile of a VM, from its configuration.
pub fn network_profile(outcome: &Result<Json, String>) -> (r: Option<u32>)
    ensures
        match r {
            Some(n) => network_profile_of(outcome_view(*outcome)) == Some(n as nat),
            None => network_profile_of(outcome_view(*outcome)) is None,
        },
{
    match outcome {
        Ok(answer) => {
            let config = answer.field("data");
            let ghost cv = match config {
                Some(c) => c@,
                None => JsonValue::Null,
            };
            assert(cv == answer@.field("data"@));
            let mut count: u32 = 0;
            let mut i: u64 = 0;
            while i < 10
                invariant
                    i <= 10,
                    count == interface_count(cv, i as nat),
                    count <= i,
                    cv == match config {
                        Some(c) => c@,
                        None => JsonValue::Null,
                    },
                decreases 10 - i,
            {
                let key = crate::text::concat2("net", crate::text::decimal_string(i).as_str());
                let defined = match config {
                    Some(c) => match c.field(key.as_str()) {
                        Some(v) => v.is_string(),
                        None => false,
                    },
                    None => false,
                };
                if defined {
                    count = count + 1;
                }
                i = i + 1;
            }
            if count > 0 {
                Some(count)
            } else {
                None
            }
        },
        Err(_) => None,
    }
}

/// The answer of the infrastructure request for a VM that no node lists: 404.
pub fn vm_not_found_response(vm_id: u32) -> (r: HttpResponse)
    ensures
        r@ == (HttpResponseView { status: 404, body: Some(error_body("VM "@ + decimal(vm_id as nat) + " not found"@)) }),
{
    let mut message = owned("VM ");
    crate::text::push_decimal(&mut message, vm_id as u64);
    message.append(" not found");
    proof {
        reveal_strlit("");
        assert(message@ + ""@ =~= message@);
    }
    error_response(404, message.as_str(), "")
}

/// The firewall setup of a VM as the infrastructure answer shows it.
pub open spec fn firewall_setup_body(vm_id: u32, enabled: bool, profile: Option<nat>) -> JsonValue {
    JsonValue::Object(
        seq![
            (
                "firewall_setup"@,
                JsonValue::Object(
                    seq![
                        ("firewall_enabled"@, JsonValue::Bool(enabled)),
                        ("firewall_vm_id"@, number(vm_id as u64)),
                        ("firewall_network_profile"@, match profile {
                            Some(n) => number(n as u64),
                            None => JsonValue::Null,
                        }),
                        ("apply_firewall_interfaces_config"@, JsonValue::Bool(enabled)),
                    ],
                ),
            ),
        ],
    )
}

/// The infrastructure answer for a VM, from its firewall options and its configuration.
pub fn infrastructure_response(vm_id: u32, firewall: &Result<Json, String>, config: &Result<Json, String>) -> (r: HttpResponse)
    ensures
        r@ == (HttpResponseView {
            status: 200,
            body: Some(firewall_setup_body(vm_id, firewall_on(outcome_view(*firewall)), network_profile_of(outcome_view(*config)))),
        }),
{
    let enabled = firewall_enabled(firewall);
    let profile = network_profile(config);
    let profile_json = match profile {
        Some(n) => json_number(n as u64),
        None => Json::Null,
    };
    let members = vec![
        member("firewall_enabled", Json::Bool(enabled)),
        member("firewall_vm_id", json_number(vm_id as u64)),
        member("firewall_network_profile", profile_json),
        member("apply_firewall_interfaces_config", Json::Bool(enabled)),
    ];
    let ghost mv = members@;
    let setup = json_object(members);
    assert(member_values(mv) =~= firewall_setup_body(vm_id, enabled, network_profile_of(outcome_view(*config)))->Object_0[0].1->Object_0);
    let body = json_object1("firewall_setup", setup);
    json_response(200, body)
}


// ---------------------------------------------------------------------------
// Laws of the dropdown lists and the infrastructure answer
// ---------------------------------------------------------------------------

/// The user list has no names before any user is listed.
pub proof fn lemma_user_list_empty(answer: JsonValue)
    requires
        answer.field("data"@) == JsonValue::Array(Seq::empty()),
    ensures
        user_names_of(answer).len() == 0,
{
}

/// Listing one more user adds exactly one name, its `userid` cut before its realm, at the
/// end, whatever other fields the user has; an entry without a string `userid` adds nothing.
pub proof fn lemma_user_list_one_name_per_user(before: JsonValue, after: JsonValue, users: Seq<JsonValue>, user: JsonValue)
    requires
        before.field("data"@) == JsonValue::Array(users),
        after.field("data"@) == JsonValue::Array(users.push(user)),
    ensures
        user_names_of(after) == match user.field("userid"@) {
            JsonValue::Str(id) => user_names_of(before).push(before_first(id, '@')),
            _ => user_names_of(before),
        },
{
    let f = |u: Seq<char>| before_first(u, '@');
    assert(users.push(user).drop_last() =~= users);
    let sb = string_members(users, "userid"@);
    let sa = string_members(users.push(user), "userid"@);
    match user.field("userid"@) {
        JsonValue::Str(id) => {
            assert(sa == sb.push(id));
            assert(sa.map_values(f) =~= sb.map_values(f).push(before_first(id, '@')));
        },
        _ => {
            assert(sa == sb);
        },
    }
}

/// The user list has exactly one name per listed user with a string `userid`: when every
/// user has one, the list has as many names as there are users, in their order.
pub proof fn lemma_user_list_names_every_user(answer: JsonValue, users: Seq<JsonValue>)
    requires
        answer.field("data"@) == JsonValue::Array(users),
        forall|k: int| 0 <= k < users.len() ==> (#[trigger] users[k]).field("userid"@) is Str,
    ensures
        user_names_of(answer).len() == users.len(),
        forall|k: int| 0 <= k < users.len() ==> user_names_of(answer)[k]
            == before_first(#[trigger] users[k].field("userid"@)->Str_0, '@'),
{
    lemma_string_members_all(users, "userid"@);
}

/// When every item has a string member `key`, the strings are those members, one per item,
/// in order.
proof fn lemma_string_members_all(items: Seq<JsonValue>, key: Seq<char>)
    requires
        forall|k: int| 0 <= k < items.len() ==> (#[trigger] items[k]).field(key) is Str,
    ensures
        string_members(items, key).len() == items.len(),
        forall|k: int| 0 <= k < items.len() ==> string_members(items, key)[k] == (#[trigger] items[k]).field(key)->Str_0,
    decreases items.len(),
{
    if items.len() > 0 {
        let rest = items.drop_last();
        assert forall|k: int| 0 <= k < rest.len() implies (#[trigger] rest[k]).field(key) is Str by {
            assert(rest[k] == items[k]);
        }
        lemma_string_members_all(rest, key);
        assert(items.last() == items[items.len() - 1]);
        assert forall|k: int| 0 <= k < items.len() implies string_members(items, key)[k] == (#[trigger] items[k]).field(key)->Str_0 by {
            if k < rest.len() {
                assert(rest[k] == items[k]);
            }
        }
    }
}

/// The group, role and node lists keep one `{label: ...}` object per listed item with a string
/// `source`, in order, whatever other fields the item has; an item without one adds nothing.
pub proof fn lemma_labelled_list_one_object_per_item(
    before: JsonValue,
    after: JsonValue,
    items: Seq<JsonValue>,
    item: JsonValue,
    source: Seq<char>,
    label: Seq<char>,
)
    requires
        before.field("data"@) == JsonValue::Array(items),
        after.field("data"@) == JsonValue::Array(items.push(item)),
    ensures
        labelled_list(after, source, label)->Array_0 == match item.field(source) {
            JsonValue::Str(s) => labelled_list(before, source, label)->Array_0.push(labelled(label, s)),
            _ => labelled_list(before, source, label)->Array_0,
        },
        labelled_list(before, source, label) is Array,
{
    let f = |s: Seq<char>| labelled(label, s);
    assert(items.push(item).drop_last() =~= items);
    let sb = string_members(items, source);
    let sa = string_members(items.push(item), source);
    match item.field(source) {
        JsonValue::Str(s) => {
            assert(sa == sb.push(s));
            assert(sa.map_values(f) =~= sb.map_values(f).push(labelled(label, s)));
        },
        _ => {
            assert(sa == sb);
        },
    }
}

/// The nodes asked for their VMs are the listed nodes with a string `node`, one per entry, in
/// order: one more listed node adds exactly its name at the end.
pub proof fn lemma_node_names_one_per_node(before: JsonValue, after: JsonValue, entries: Seq<JsonValue>, entry: JsonValue)
    requires
        before.field("data"@) == JsonValue::Array(entries),
        after.field("data"@) == JsonValue::Array(entries.push(entry)),
    ensures
        node_names_of(after) == match entry.field("node"@) {
            JsonValue::Str(n) => node_names_of(before).push(n),
            _ => node_names_of(before),
        },
{
    assert(entries.push(entry).drop_last() =~= entries);
}

/// A node whose VM list could not be read adds nothing to the VM list.
pub proof fn lemma_vm_list_skips_failed_node(
    nodes: Seq<Seq<char>>,
    outcomes: Seq<Result<JsonValue, Seq<char>>>,
    node: Seq<char>,
    error: Seq<char>,
)
    requires
        nodes.len() == outcomes.len(),
    ensures
        all_vm_summaries(nodes.push(node), outcomes.push(Err(error))) == all_vm_summaries(nodes, outcomes),
{
    assert(nodes.push(node).drop_last() =~= nodes);
    assert(outcomes.push(Err(error)).drop_last() =~= outcomes);
    assert(all_vm_summaries(nodes, outcomes) + Seq::<JsonValue>::empty() =~= all_vm_summaries(nodes, outcomes));
}

/// The VM list keeps one entry per item of each node's list, whatever fields the item has: a
/// node whose answer lists `items` adds exactly `items.len()` entries after those of the
/// earlier nodes, the `j`-th the summary of `items[j]` on that node.
pub proof fn lemma_vm_list_one_entry_per_item(
    nodes: Seq<Seq<char>>,
    outcomes: Seq<Result<JsonValue, Seq<char>>>,
    node: Seq<char>,
    answer: JsonValue,
    items: Seq<JsonValue>,
)
    requires
        nodes.len() == outcomes.len(),
        answer.field("data"@) == JsonValue::Array(items),
    ensures
        ({
            let before = all_vm_summaries(nodes, outcomes);
            let after = all_vm_summaries(nodes.push(node), outcomes.push(Ok(answer)));
            &&& after.len() == before.len() + items.len()
            &&& after.take(before.len() as int) == before
            &&& forall|j: int| 0 <= j < items.len() ==> #[trigger] after[before.len() + j] == vm_summary(node, items[j])
        }),
{
    assert(nodes.push(node).drop_last() =~= nodes);
    assert(outcomes.push(Ok(answer)).drop_last() =~= outcomes);
    let before = all_vm_summaries(nodes, outcomes);
    let after = all_vm_summaries(nodes.push(node), outcomes.push(Ok(answer)));
    assert(after == before + items.map_values(|e: JsonValue| vm_summary(node, e)));
    assert(after.take(before.len() as int) =~= before);
}

/// The infrastructure answer shows the firewall on exactly when the VM's firewall options were
/// read and their `data.enable` is the integer 1: a missing, zero, textual or other `enable`
/// means off.
pub proof fn lemma_firewall_on_exactly_when_enabled(outcome: Result<JsonValue, Seq<char>>)
    ensures
        firewall_on(outcome) <==> (outcome matches Ok(answer)
            && answer.field("data"@).field("enable"@) == JsonValue::Number(JsonNumber::PosInt(1))),
        (outcome matches Ok(answer) && answer.field("data"@).field("enable"@) is Null) ==> !firewall_on(outcome),
{
}

} // verus!
