use loomox::dropdown::{
    firewall_enabled, groups_response, holds_vm, infrastructure_response, network_profile,
    node_names, nodes_response, roles_response, storage_response, user_names, users_response,
    vm_list_response, vm_not_found_response, VmSearch,
};
use loomox::json::{Json, JsonNumber};

fn s(t: &str) -> Json {
    Json::Str(t.to_string())
}

fn n(v: u64) -> Json {
    Json::Number(JsonNumber::PosInt(v))
}

fn obj(members: Vec<(&str, Json)>) -> Json {
    Json::Object(members.into_iter().map(|(k, v)| (k.to_string(), v)).collect())
}

fn arr(items: Vec<Json>) -> Json {
    Json::Array(items)
}

fn data(items: Vec<Json>) -> Json {
    obj(vec![("data", arr(items))])
}

fn same(a: &Json, b: &Json) -> bool {
    match (a, b) {
        (Json::Null, Json::Null) => true,
        (Json::Bool(x), Json::Bool(y)) => x == y,
        (Json::Number(x), Json::Number(y)) => x == y,
        (Json::Str(x), Json::Str(y)) => x == y,
        (Json::Array(x), Json::Array(y)) => x.len() == y.len() && x.iter().zip(y.iter()).all(|(p, q)| same(p, q)),
        (Json::Object(x), Json::Object(y)) => {
            x.len() == y.len() && x.iter().zip(y.iter()).all(|(p, q)| p.0 == q.0 && same(&p.1, &q.1))
        }
        _ => false,
    }
}

fn assert_body(resp: &loomox::response::HttpResponse, status: u16, expected: Json) {
    assert_eq!(resp.status, status);
    let body = resp.body.as_ref().expect("a body");
    assert!(same(body, &expected), "got {:?}", body);
}

#[test]
fn users_are_listed_without_their_realm() {
    let answer = data(vec![
        obj(vec![("userid", s("alice@pve"))]),
        obj(vec![("userid", n(5))]),
        obj(vec![("name", s("x"))]),
        obj(vec![("userid", s("root@pam"))]),
        obj(vec![("userid", s("plain"))]),
    ]);
    assert_eq!(user_names(&answer), vec!["alice".to_string(), "root".to_string(), "plain".to_string()]);
    let resp = users_response(&Ok(answer));
    assert_body(&resp, 200, arr(vec![s("alice"), s("root"), s("plain")]));
}

#[test]
fn a_failed_call_is_an_error_answer() {
    let resp = users_response(&Err("connection refused".to_string()));
    assert_body(&resp, 500, obj(vec![("error", s("Failed to fetch users: connection refused"))]));
    let resp = groups_response(&Err("e".to_string()));
    assert_body(&resp, 500, obj(vec![("error", s("Failed to fetch groups: e"))]));
    let resp = roles_response(&Err("e".to_string()));
    assert_body(&resp, 500, obj(vec![("error", s("Failed to fetch roles: e"))]));
    let resp = nodes_response(&Err("e".to_string()));
    assert_body(&resp, 500, obj(vec![("error", s("Failed to fetch nodes: e"))]));
    let resp = storage_response(&Err("e".to_string()));
    assert_body(&resp, 500, obj(vec![("error", s("Failed to fetch storage: e"))]));
}

#[test]
fn an_answer_without_a_list_lists_nothing() {
    let resp = users_response(&Ok(obj(vec![("data", s("nope"))])));
    assert_body(&resp, 200, arr(vec![]));
    let resp = nodes_response(&Ok(Json::Null));
    assert_body(&resp, 200, arr(vec![]));
}

#[test]
fn groups_roles_and_nodes() {
    let answer = data(vec![obj(vec![("groupid", s("ugr_a_b_grp1"))]), obj(vec![("comment", s("x"))])]);
    assert_body(&groups_response(&Ok(answer)), 200, arr(vec![obj(vec![("group_name", s("ugr_a_b_grp1"))])]));
    let answer = data(vec![obj(vec![("roleid", s("PVEVMUser"))])]);
    assert_body(&roles_response(&Ok(answer)), 200, arr(vec![obj(vec![("role", s("PVEVMUser"))])]));
    let answer = data(vec![obj(vec![("node", s("pve1"))]), obj(vec![("node", s("pve2"))])]);
    assert_body(&nodes_response(&Ok(answer)), 200, arr(vec![obj(vec![("node", s("pve1"))]), obj(vec![("node", s("pve2"))])]));
}

#[test]
fn storage_summaries_default_what_is_missing() {
    let answer = data(vec![obj(vec![
        ("storage", s("local")),
        ("type", s("dir")),
        ("active", n(1)),
        ("total", n(1000)),
        ("used", Json::Number(JsonNumber::NegInt(-3))),
    ])]);
    let expected = arr(vec![obj(vec![
        ("storage", s("local")),
        ("type", s("dir")),
        ("content", s("")),
        ("active", n(1)),
        ("shared", n(0)),
        ("total", n(1000)),
        ("used", n(0)),
        ("avail", n(0)),
    ])]);
    assert_body(&storage_response(&Ok(answer)), 200, expected);
}

#[test]
fn vms_of_all_nodes_in_order() {
    let nodes = vec!["pve1".to_string(), "pve2".to_string(), "pve3".to_string()];
    let outcomes = vec![
        Ok(data(vec![obj(vec![("vmid", n(100)), ("name", s("web"))]), obj(vec![("name", s("noid"))])])),
        Err("timeout".to_string()),
        Ok(data(vec![obj(vec![("vmid", n(4294967296 + 7))])])),
    ];
    let expected = arr(vec![
        obj(vec![("vmid", n(100)), ("name", s("web")), ("node", s("pve1"))]),
        obj(vec![("vmid", n(0)), ("name", s("noid")), ("node", s("pve1"))]),
        obj(vec![("vmid", n(7)), ("name", s("")), ("node", s("pve3"))]),
    ]);
    assert_body(&vm_list_response(&nodes, &outcomes), 200, expected);
}

#[test]
fn node_names_or_the_error() {
    let names = node_names(&Ok(data(vec![obj(vec![("node", s("a"))]), obj(vec![("node", n(1))])]))).ok().unwrap();
    assert_eq!(names, vec!["a".to_string()]);
    match node_names(&Err("down".to_string())) {
        Err(resp) => assert_body(&resp, 500, obj(vec![("error", s("Failed to fetch nodes: down"))])),
        Ok(_) => panic!("expected the error answer"),
    }
}

#[test]
fn the_search_stops_at_the_first_node_that_runs_the_vm() {
    let nodes = vec!["a".to_string(), "b".to_string(), "c".to_string()];
    let mut search = VmSearch::new(101, nodes);
    let answers = vec![
        Ok(data(vec![obj(vec![("vmid", n(100))])])),
        Ok(data(vec![obj(vec![("vmid", n(101))])])),
        Ok(data(vec![obj(vec![("vmid", n(101))])])),
    ];
    let mut asked = Vec::new();
    let mut k = 0;
    while let Some(node) = search.next_node() {
        asked.push(node.clone());
        let answer = &answers[k];
        search.record(answer);
        k += 1;
    }
    assert_eq!(asked, vec!["a".to_string(), "b".to_string()]);
    assert_eq!(search.found_node(), Some(&"b".to_string()));
}

#[test]
fn the_search_fails_when_no_node_runs_the_vm() {
    let mut search = VmSearch::new(5, vec!["a".to_string()]);
    assert_eq!(search.next_node(), Some(&"a".to_string()));
    search.record(&Err("x".to_string()));
    assert_eq!(search.next_node(), None);
    assert_eq!(search.found_node(), None);
    assert!(holds_vm(&Ok(data(vec![obj(vec![("vmid", n(5))])])), 5));
    assert!(!holds_vm(&Ok(data(vec![obj(vec![("vmid", s("5"))])])), 5));
    assert_body(&vm_not_found_response(5), 404, obj(vec![("error", s("VM 5 not found"))]));
}

#[test]
fn firewall_and_network_profile() {
    let options = obj(vec![("data", obj(vec![("enable", n(1))]))]);
    assert!(firewall_enabled(&Ok(options)));
    assert!(!firewall_enabled(&Ok(obj(vec![("data", obj(vec![("enable", n(0))]))]))));
    assert!(!firewall_enabled(&Err("x".to_string())));
    let config = obj(vec![(
        "data",
        obj(vec![("net0", s("virtio=..,bridge=vmbr0")), ("net1", s("e1000")), ("net3", n(1)), ("net9", s("x")), ("net10", s("y"))]),
    )]);
    assert_eq!(network_profile(&Ok(config)), Some(3));
    assert_eq!(network_profile(&Ok(obj(vec![("data", obj(vec![]))]))), None);
    assert_eq!(network_profile(&Err("x".to_string())), None);
}

#[test]
fn the_infrastructure_answer() {
    let fw = Ok(obj(vec![("data", obj(vec![("enable", n(1))]))]));
    let cfg = Ok(obj(vec![("data", obj(vec![("net0", s("a")), ("net1", s("b"))]))]));
    let expected = obj(vec![(
        "firewall_setup",
        obj(vec![
            ("firewall_enabled", Json::Bool(true)),
            ("firewall_vm_id", n(120)),
            ("firewall_network_profile", n(2)),
            ("apply_firewall_interfaces_config", Json::Bool(true)),
        ]),
    )]);
    assert_body(&infrastructure_response(120, &fw, &cfg), 200, expected);
    let expected = obj(vec![(
        "firewall_setup",
        obj(vec![
            ("firewall_enabled", Json::Bool(false)),
            ("firewall_vm_id", n(121)),
            ("firewall_network_profile", Json::Null),
            ("apply_firewall_interfaces_config", Json::Bool(false)),
        ]),
    )]);
    assert_body(&infrastructure_response(121, &Err("x".to_string()), &Err("y".to_string())), 200, expected);
}

#[test]
fn reading_members_of_json() {
    let doc = obj(vec![("a", n(1)), ("a", n(2)), ("b", s("x"))]);
    match doc.field("a") {
        Some(v) => assert_eq!(v.as_u64(), Some(1)),
        None => panic!("expected the first member"),
    }
    assert!(doc.field("c").is_none());
    assert!(s("x").field("a").is_none());
    assert_eq!(doc.field("b").unwrap().as_str(), Some(&"x".to_string()));
    assert!(doc.field("b").unwrap().is_string());
    assert_eq!(Json::Number(JsonNumber::NegInt(-1)).as_u64(), None);
    assert_eq!(Json::Number(JsonNumber::Float).as_u64(), None);
    assert!(arr(vec![n(1)]).as_array().is_some());
}
