use loomox::app_config::Settings;
use loomox::deletion::{deletion_plan, find_environment, DeletionSession};
use loomox::dto::ListEnvironmentParams;
use loomox::environment::{
    environment_candidates, environment_entry, environments_response, group_members, ListingSession,
    groups_failure_response, pool_vms,
};
use loomox::json::{Json, JsonNumber};
use loomox::naming::parse_group_name;
use loomox::state::AppState;

fn settings_with(pool: &str, zone: &str, vnets: &str, dmz: &str, lan: &str, firewall: &str) -> Settings {
    Settings {
        role: "uro_bbzblit_PVELabUsers".to_string(),
        user_group_templates: "ugr_bbzblit_Lernende".to_string(),
        prefix_user_group: "ug".to_string(),
        prefix_resourcepool: pool.to_string(),
        prefix_simple_zone: zone.to_string(),
        prefix_vnets: vnets.to_string(),
        postfix_vnet_dmz: dmz.to_string(),
        postfix_vnet_lan: lan.to_string(),
        prefix_firewall: firewall.to_string(),
        vm_storage: "pvecephpool01".to_string(),
        template_storage: "templates".to_string(),
        wan_interface: "vmbr1".to_string(),
    }
}

fn settings() -> Settings {
    settings_with("rp", "sz", "vn", "DMZ", "LAN", "fw")
}

fn s(t: &str) -> Json {
    Json::Str(t.to_string())
}

fn n(v: u64) -> Json {
    Json::Number(JsonNumber::PosInt(v))
}

fn obj(members: Vec<(&str, Json)>) -> Json {
    Json::Object(members.into_iter().map(|(k, v)| (k.to_string(), v)).collect())
}

fn arr(items: Vec<Json>) -> Json {
    Json::Array(items)
}

fn same(a: &Json, b: &Json) -> bool {
    match (a, b) {
        (Json::Null, Json::Null) => true,
        (Json::Bool(x), Json::Bool(y)) => x == y,
        (Json::Number(x), Json::Number(y)) => x == y,
        (Json::Str(x), Json::Str(y)) => x == y,
        (Json::Array(x), Json::Array(y)) => x.len() == y.len() && x.iter().zip(y.iter()).all(|(p, q)| same(p, q)),
        (Json::Object(x), Json::Object(y)) => {
            x.len() == y.len() && x.iter().zip(y.iter()).all(|(p, q)| p.0 == q.0 && same(&p.1, &q.1))
        }
        _ => false,
    }
}

fn state() -> AppState {
    AppState {
        proxmox_url: "https://pve".to_string(),
        proxmox_token_id: "id".to_string(),
        proxmox_token_secret: "SECRET-REDACTED".to_string(),
        username_admin: None,
        password_admin: None,
    }
}

fn groups() -> Json {
    obj(vec![(
        "data",
        arr(vec![
            obj(vec![("groupid", s("ugr_m306_inf23a_grp1"))]),
            obj(vec![("groupid", s("ugr_bbzblit_Lernende"))]),
            obj(vec![("groupid", s("ugr_m306_inf23b_grp2"))]),
            obj(vec![("groupid", s("ugr_m114_inf23a_grp2"))]),
            obj(vec![("comment", s("no id"))]),
        ]),
    )])
}

fn params(module: Option<&str>, class: Option<&str>, group_id: Option<&str>) -> ListEnvironmentParams {
    ListEnvironmentParams {
        module: module.map(|m| m.to_string()),
        class: class.map(|c| c.to_string()),
        group_id: group_id.map(|g| g.to_string()),
    }
}

fn names(v: &[loomox::naming::ParsedEnvironment]) -> Vec<String> {
    v.iter().map(|p| p.group_name.clone()).collect()
}

#[test]
fn listing_without_filters_shows_every_environment() {
    let c = environment_candidates(&groups(), &params(None, None, None));
    assert_eq!(names(&c), vec!["ugr_m306_inf23a_grp1", "ugr_m306_inf23b_grp2", "ugr_m114_inf23a_grp2"]);
}

#[test]
fn listing_filters_by_module_class_and_group_id() {
    let c = environment_candidates(&groups(), &params(Some("m306"), None, None));
    assert_eq!(names(&c), vec!["ugr_m306_inf23a_grp1", "ugr_m306_inf23b_grp2"]);
    let c = environment_candidates(&groups(), &params(None, Some("INF-23A"), None));
    assert_eq!(names(&c), vec!["ugr_m306_inf23a_grp1", "ugr_m114_inf23a_grp2"]);
    let c = environment_candidates(&groups(), &params(None, None, Some("002")));
    assert_eq!(names(&c), vec!["ugr_m306_inf23b_grp2", "ugr_m114_inf23a_grp2"]);
    let c = environment_candidates(&groups(), &params(Some("M306"), Some("inf23b"), Some("002")));
    assert_eq!(names(&c), vec!["ugr_m306_inf23b_grp2"]);
    let c = environment_candidates(&groups(), &params(None, None, Some("2")));
    assert!(c.is_empty());
}

#[test]
fn members_and_pool_contents() {
    let group = Ok(obj(vec![("data", obj(vec![("members", arr(vec![s("alice@pve"), n(3), s("bob@pve")]))]))]));
    assert_eq!(group_members(&group), vec!["alice@pve".to_string(), "bob@pve".to_string()]);
    assert!(group_members(&Err("x".to_string())).is_empty());
    let pool = Ok(obj(vec![(
        "data",
        obj(vec![(
            "members",
            arr(vec![
                obj(vec![("type", s("storage")), ("vmid", n(1)), ("node", s("x"))]),
                obj(vec![("type", s("qemu")), ("vmid", n(900)), ("node", s(""))]),
                obj(vec![("type", s("qemu")), ("node", s("pve2"))]),
                obj(vec![("type", s("qemu")), ("vmid", n(901)), ("node", s("pve3"))]),
            ]),
        )]),
    )]));
    let (vms, node) = pool_vms(&pool);
    assert_eq!(vms, vec![900, 901]);
    assert_eq!(node, "pve2");
    let (vms, node) = pool_vms(&Err("x".to_string()));
    assert!(vms.is_empty());
    assert_eq!(node, "");
}

#[test]
fn an_environment_entry() {
    let p = parse_group_name("ugr_m306_inf23a_grp1").unwrap();
    let group = Ok(obj(vec![("data", obj(vec![("members", arr(vec![s("alice")]))]))]));
    let pool = Ok(obj(vec![(
        "data",
        obj(vec![("members", arr(vec![obj(vec![("type", s("qemu")), ("vmid", n(900)), ("node", s("pve1"))])]))]),
    )]));
    let entry = environment_entry(&settings(), &p, &group, &pool);
    let expected = obj(vec![
        ("group_id", s("001")),
        ("group_name", s("ugr_m306_inf23a_grp1")),
        ("module", s("M306")),
        ("class", s("inf23a")),
        ("node", s("pve1")),
        ("resource_pool", s("rp_m306_inf23a_grp1")),
        ("simple_zone", s("sz001")),
        ("vnets", arr(vec![s("vn001DMZ"), s("vn001LAN")])),
        ("vms", arr(vec![n(900)])),
        ("members", arr(vec![s("alice")])),
    ]);
    assert!(same(&entry, &expected), "got {:?}", entry);
    let custom = settings_with("pool", "zone", "net", "-dmz", "-lan", "wall");
    let other = environment_entry(&custom, &p, &group, &pool);
    match &other {
        Json::Object(members) => {
            assert!(same(&members[5].1, &s("pool_m306_inf23a_grp1")));
            assert!(same(&members[6].1, &s("zone001")));
            assert!(same(&members[7].1, &arr(vec![s("net001-dmz"), s("net001-lan")])));
        }
        _ => panic!("expected an object"),
    }
    let resp = environments_response(vec![entry]);
    assert_eq!(resp.status, 200);
    let resp = groups_failure_response("refused");
    assert_eq!(resp.status, 500);
    assert!(same(resp.body.as_ref().unwrap(), &obj(vec![("error", s("Failed to list groups: refused"))])));
}

#[test]
fn deletion_finds_the_first_environment_of_a_group_id() {
    let p = find_environment(&groups(), "002").unwrap();
    assert_eq!(p.group_name, "ugr_m306_inf23b_grp2");
    assert!(find_environment(&groups(), "003").is_none());
    let listed = environment_candidates(&groups(), &params(None, None, Some("002")));
    assert_eq!(listed[0].group_name, p.group_name);
}

#[test]
fn the_plan_of_a_deletion() {
    let st = state();
    let p = parse_group_name("ugr_m306_inf23a_grp1").unwrap();
    let plan = deletion_plan(&st, &settings(), &p, &vec![900, 901], "pve1");
    let urls: Vec<String> = plan.iter().map(|c| c.request.url.clone()).collect();
    assert_eq!(
        urls,
        vec![
            "https://pve/api2/json/nodes/pve1/qemu/900/status/stop",
            "https://pve/api2/json/nodes/pve1/qemu/900",
            "https://pve/api2/json/nodes/pve1/qemu/901/status/stop",
            "https://pve/api2/json/nodes/pve1/qemu/901",
            "https://pve/api2/json/cluster/sdn/vnets/vn001DMZ",
            "https://pve/api2/json/cluster/sdn/vnets/vn001LAN",
            "https://pve/api2/json/cluster/sdn/zones/sz001",
            "https://pve/api2/json/pools/rp_m306_inf23a_grp1",
            "https://pve/api2/json/access/groups/ugr_m306_inf23a_grp1",
        ]
    );
    let plan = deletion_plan(&st, &settings(), &p, &vec![900], "");
    assert_eq!(plan.len(), 5);
    let custom = settings_with("pool", "zone", "net", "-dmz", "-lan", "wall");
    let urls: Vec<String> = deletion_plan(&st, &custom, &p, &vec![], "pve1").iter().map(|c| c.request.url.clone()).collect();
    assert_eq!(
        urls,
        vec![
            "https://pve/api2/json/cluster/sdn/vnets/net001-dmz",
            "https://pve/api2/json/cluster/sdn/vnets/net001-lan",
            "https://pve/api2/json/cluster/sdn/zones/zone001",
            "https://pve/api2/json/pools/pool_m306_inf23a_grp1",
            "https://pve/api2/json/access/groups/ugr_m306_inf23a_grp1",
        ]
    );
}

#[test]
fn a_listing_session_reads_each_environment_in_turn() {
    let custom = settings_with("pool", "zone", "net", "-dmz", "-lan", "wall");
    let mut listing = ListingSession::new(state(), custom, &groups(), &params(Some("m306"), None, None));
    let mut urls = Vec::new();
    while let Some(request) = listing.next_request() {
        urls.push(request.url.clone());
        let answer = if request.url.contains("/pools/") {
            if request.url.ends_with("grp1") {
                Ok(obj(vec![(
                    "data",
                    obj(vec![("members", arr(vec![obj(vec![("type", s("qemu")), ("vmid", n(900)), ("node", s("pve1"))])]))]),
                )]))
            } else {
                Err("no pool".to_string())
            }
        } else {
            Ok(obj(vec![("data", obj(vec![("members", arr(vec![s("alice")]))]))]))
        };
        listing.record(answer);
    }
    assert_eq!(
        urls,
        vec![
            "https://pve/api2/json/access/groups/ugr_m306_inf23a_grp1",
            "https://pve/api2/json/pools/pool_m306_inf23a_grp1",
            "https://pve/api2/json/access/groups/ugr_m306_inf23b_grp2",
            "https://pve/api2/json/pools/pool_m306_inf23b_grp2",
        ]
    );
    let resp = listing.response();
    assert_eq!(resp.status, 200);
    let expected = arr(vec![
        obj(vec![
            ("group_id", s("001")),
            ("group_name", s("ugr_m306_inf23a_grp1")),
            ("module", s("M306")),
            ("class", s("inf23a")),
            ("node", s("pve1")),
            ("resource_pool", s("pool_m306_inf23a_grp1")),
            ("simple_zone", s("zone001")),
            ("vnets", arr(vec![s("net001-dmz"), s("net001-lan")])),
            ("vms", arr(vec![n(900)])),
            ("members", arr(vec![s("alice")])),
        ]),
        obj(vec![
            ("group_id", s("002")),
            ("group_name", s("ugr_m306_inf23b_grp2")),
            ("module", s("M306")),
            ("class", s("inf23b")),
            ("node", s("")),
            ("resource_pool", s("pool_m306_inf23b_grp2")),
            ("simple_zone", s("zone002")),
            ("vnets", arr(vec![s("net002-dmz"), s("net002-lan")])),
            ("vms", arr(vec![])),
            ("members", arr(vec![s("alice")])),
        ]),
    ]);
    assert!(same(resp.body.as_ref().unwrap(), &expected), "got {:?}", resp.body);
}

#[test]
fn an_empty_listing_session() {
    let listing = ListingSession::new(state(), settings(), &groups(), &params(Some("m999"), None, None));
    assert!(listing.next_request().is_none());
    let resp = listing.response();
    assert!(same(resp.body.as_ref().unwrap(), &arr(vec![])));
}

#[test]
fn a_deletion_session_deletes_each_group_id_in_turn() {
    let targets = vec!["009".to_string(), "001".to_string(), "002".to_string()];
    let mut deletion = DeletionSession::new(state(), settings(), groups(), targets);
    let mut urls = Vec::new();
    while let Some(request) = deletion.next_request() {
        let url = request.url.clone();
        urls.push(url.clone());
        let answer = if url.contains("/pools/rp_m306_inf23a_grp1") && urls.len() == 1 {
            Ok(obj(vec![(
                "data",
                obj(vec![("members", arr(vec![obj(vec![("type", s("qemu")), ("vmid", n(900)), ("node", s("pve1"))])]))]),
            )]))
        } else if url.ends_with("/zones/sz002") {
            Err("busy".to_string())
        } else if url.ends_with("/status/stop") {
            Err("already stopped".to_string())
        } else {
            Ok(obj(vec![]))
        };
        deletion.record(answer);
    }
    assert_eq!(
        urls,
        vec![
            "https://pve/api2/json/pools/rp_m306_inf23a_grp1",
            "https://pve/api2/json/nodes/pve1/qemu/900/status/stop",
            "https://pve/api2/json/nodes/pve1/qemu/900",
            "https://pve/api2/json/cluster/sdn/vnets/vn001DMZ",
            "https://pve/api2/json/cluster/sdn/vnets/vn001LAN",
            "https://pve/api2/json/cluster/sdn/zones/sz001",
            "https://pve/api2/json/pools/rp_m306_inf23a_grp1",
            "https://pve/api2/json/access/groups/ugr_m306_inf23a_grp1",
            "https://pve/api2/json/pools/rp_m306_inf23b_grp2",
            "https://pve/api2/json/cluster/sdn/vnets/vn002DMZ",
            "https://pve/api2/json/cluster/sdn/vnets/vn002LAN",
            "https://pve/api2/json/cluster/sdn/zones/sz002",
            "https://pve/api2/json/pools/rp_m306_inf23b_grp2",
            "https://pve/api2/json/access/groups/ugr_m306_inf23b_grp2",
        ]
    );
    let resp = deletion.response();
    assert_eq!(resp.status, 200);
    let expected = obj(vec![
        (
            "deleted",
            arr(vec![obj(vec![
                ("group_id", s("001")),
                ("status", s("success")),
                (
                    "deleted_resources",
                    obj(vec![
                        ("vms", arr(vec![n(900)])),
                        ("vnets", arr(vec![s("vn001DMZ"), s("vn001LAN")])),
                        ("simple_zone", s("sz001")),
                        ("resource_pool", s("rp_m306_inf23a_grp1")),
                        ("user_group", s("ugr_m306_inf23a_grp1")),
                    ]),
                ),
            ])]),
        ),
        (
            "errors",
            arr(vec![
                obj(vec![("group_id", s("009")), ("message", s("No environment found for group_id 009"))]),
                obj(vec![("group_id", s("002")), ("message", s("Failed to delete zone sz002: busy"))]),
            ]),
        ),
    ]);
    assert!(same(resp.body.as_ref().unwrap(), &expected), "got {:?}", resp.body);
}

#[test]
fn a_deletion_session_without_environments_answers_at_once() {
    let deletion = DeletionSession::new(state(), settings(), groups(), vec!["404".to_string()]);
    assert!(deletion.next_request().is_none());
    let resp = deletion.response();
    let expected = obj(vec![
        ("deleted", arr(vec![])),
        ("errors", arr(vec![obj(vec![("group_id", s("404")), ("message", s("No environment found for group_id 404"))])])),
    ]);
    assert!(same(resp.body.as_ref().unwrap(), &expected));
}
