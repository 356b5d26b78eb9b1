use loomox::dto::{CreateEnvironmentRequest, FirewallSetup, GlobalInfrastructureSetup, GroupDetail, ModulConfiguration};
use loomox::json::Json;
use loomox::plan::{OnFailure, PlanRun};
use loomox::provisioning::{
    environment_creation_plan, environment_creation_response, provisioning_plan,
    provisioning_response, umgebung_creation_plan,
};
use loomox::app_config::Settings;
use loomox::clients::HttpMethod;
use loomox::state::AppState;

fn s(t: &str) -> Json {
    Json::Str(t.to_string())
}

fn obj(members: Vec<(&str, Json)>) -> Json {
    Json::Object(members.into_iter().map(|(k, v)| (k.to_string(), v)).collect())
}

fn arr(items: Vec<Json>) -> Json {
    Json::Array(items)
}

fn same(a: &Json, b: &Json) -> bool {
    match (a, b) {
        (Json::Null, Json::Null) => true,
        (Json::Bool(x), Json::Bool(y)) => x == y,
        (Json::Number(x), Json::Number(y)) => x == y,
        (Json::Str(x), Json::Str(y)) => x == y,
        (Json::Array(x), Json::Array(y)) => x.len() == y.len() && x.iter().zip(y.iter()).all(|(p, q)| same(p, q)),
        (Json::Object(x), Json::Object(y)) => {
            x.len() == y.len() && x.iter().zip(y.iter()).all(|(p, q)| p.0 == q.0 && same(&p.1, &q.1))
        }
        _ => false,
    }
}

fn settings_with(pool: &str, zone: &str, vnets: &str, dmz: &str, lan: &str, firewall: &str) -> Settings {
    Settings {
        role: "uro_bbzblit_PVELabUsers".to_string(),
        user_group_templates: "ugr_bbzblit_Lernende".to_string(),
        prefix_user_group: "ug".to_string(),
        prefix_resourcepool: pool.to_string(),
        prefix_simple_zone: zone.to_string(),
        prefix_vnets: vnets.to_string(),
        postfix_vnet_dmz: dmz.to_string(),
        postfix_vnet_lan: lan.to_string(),
        prefix_firewall: firewall.to_string(),
        vm_storage: "pvecephpool01".to_string(),
        template_storage: "templates".to_string(),
        wan_interface: "vmbr1".to_string(),
    }
}

fn settings() -> Settings {
    settings_with("rp", "sz", "vn", "DMZ", "LAN", "fw")
}

fn state() -> AppState {
    AppState {
        proxmox_url: "https://pve".to_string(),
        proxmox_token_id: "id".to_string(),
        proxmox_token_secret: "SECRET-REDACTED".to_string(),
        username_admin: None,
        password_admin: None,
    }
}

fn request(firewall: bool, vm: Option<u32>) -> CreateEnvironmentRequest {
    CreateEnvironmentRequest {
        modul_configuration: ModulConfiguration {
            modulnumber: "M306".to_string(),
            class: "INF-23a".to_string(),
            global_usernames: vec![],
            group_amount: 2,
        },
        global_infrastructure_setup: GlobalInfrastructureSetup {
            node: "pve1".to_string(),
            firewall_setup: FirewallSetup {
                firewall_enabled: firewall,
                firewall_vm_id: vm,
                firewall_network_profile: None,
                apply_firewall_interfaces_config: false,
            },
        },
        group_details: vec![
            GroupDetail { group_name: "ugr_a".to_string(), userlist: vec!["anna".to_string(), "ben".to_string()] },
            GroupDetail { group_name: "ugr_b".to_string(), userlist: vec![] },
        ],
    }
}

fn run_all(plan: Vec<loomox::plan::PlannedCall>, fail_at: Option<usize>) -> PlanRun {
    let mut run = PlanRun::new(plan);
    let mut k = 0;
    while run.next_call().is_some() {
        let outcome = if fail_at == Some(k) { Some("boom".to_string()) } else { None };
        run.record(outcome);
        k += 1;
    }
    run
}

#[test]
fn environment_creation_clones_one_firewall_per_group() {
    let body = request(true, Some(100));
    let plan = environment_creation_plan(&state(), &settings(), &body);
    assert_eq!(plan.len(), 2);
    assert_eq!(plan[0].request.url, "https://pve/api2/json/nodes/pve1/qemu/100/clone");
    assert_eq!(plan[1].request.form[0], ("newid".to_string(), "901".to_string()));
    assert_eq!(plan[1].request.form[1], ("name".to_string(), "fw_m306_inf23a_grp2".to_string()));
    assert!(matches!(plan[0].on_failure, OnFailure::Abort(_)));
    assert!(environment_creation_plan(&state(), &settings(), &request(false, Some(100))).is_empty());
    assert!(environment_creation_plan(&state(), &settings(), &request(true, None)).is_empty());
    let plan = umgebung_creation_plan(&state(), &settings(), &body);
    assert_eq!(plan.len(), 2);
    assert_eq!(plan[1].request.url, "https://pve/api2/json/nodes/pve1/qemu/100/clone");
    assert_eq!(plan[1].request.form[1], ("name".to_string(), "fw_m306_inf23a_grp2".to_string()));
}

#[test]
fn provisioning_names_resources_after_the_settings() {
    let custom = settings_with("pool", "zone", "net", "-dmz", "-lan", "wall");
    let body = request(true, Some(100));
    let plan = provisioning_plan(&state(), &custom, &body);
    assert_eq!(plan[2].request.form[0], ("poolid".to_string(), "pool_m306_inf23a_grp1".to_string()));
    assert_eq!(plan[3].request.form[0], ("zone".to_string(), "zone001".to_string()));
    assert_eq!(plan[4].request.form[0], ("vnet".to_string(), "net001-dmz".to_string()));
    assert_eq!(plan[5].request.form[0], ("vnet".to_string(), "net001-lan".to_string()));
    assert_eq!(plan[5].request.form[1], ("zone".to_string(), "zone001".to_string()));
    assert_eq!(plan[6].request.form[0], ("path".to_string(), "/pool/pool_m306_inf23a_grp1".to_string()));
    assert_eq!(plan[7].request.form[1], ("name".to_string(), "wall_m306_inf23a_grp1".to_string()));
    let plan = environment_creation_plan(&state(), &custom, &body);
    assert_eq!(plan[0].request.form[1], ("name".to_string(), "wall_m306_inf23a_grp1".to_string()));
    let run = run_all(provisioning_plan(&state(), &custom, &request(false, None)), None);
    let resp = provisioning_response(&run, &custom, &request(false, None));
    let expected = obj(vec![
        ("group_id", s("001")),
        ("group_name", s("ugr_a")),
        ("resource_pool", s("pool_m306_inf23a_grp1")),
        ("simple_zone", s("zone001")),
        ("vnets", arr(vec![s("net001-dmz"), s("net001-lan")])),
    ]);
    match resp.body.as_ref().unwrap() {
        Json::Object(members) => match &members[0].1 {
            Json::Array(items) => assert!(same(&items[0], &expected)),
            _ => panic!("expected an array"),
        },
        _ => panic!("expected an object"),
    }
}

#[test]
fn environment_creation_answers() {
    let body = request(true, Some(100));
    let run = run_all(environment_creation_plan(&state(), &settings(), &body), None);
    let resp = environment_creation_response(&run, &body);
    assert_eq!(resp.status, 201);
    let expected = obj(vec![(
        "created",
        arr(vec![
            obj(vec![("group_id", s("001")), ("group_name", s("ugr_a")), ("members", arr(vec![s("anna"), s("ben")]))]),
            obj(vec![("group_id", s("002")), ("group_name", s("ugr_b")), ("members", arr(vec![]))]),
        ]),
    )]);
    assert!(same(resp.body.as_ref().unwrap(), &expected));

    let run = run_all(environment_creation_plan(&state(), &settings(), &body), Some(0));
    assert_eq!(run.calls_made(), 1);
    let resp = environment_creation_response(&run, &body);
    assert_eq!(resp.status, 500);
    assert!(same(resp.body.as_ref().unwrap(), &obj(vec![("error", s("Failed to clone firewall VM: boom"))])));
}

#[test]
fn provisioning_plans_every_resource_of_each_group() {
    let body = request(true, Some(100));
    let plan = provisioning_plan(&state(), &settings(), &body);
    assert_eq!(plan.len(), 16);
    let urls: Vec<&str> = plan[..8].iter().map(|c| c.request.url.as_str()).collect();
    assert_eq!(
        urls,
        vec![
            "https://pve/api2/json/access/groups",
            "https://pve/api2/json/access/groups/ugr_a",
            "https://pve/api2/json/pools",
            "https://pve/api2/json/cluster/sdn/zones",
            "https://pve/api2/json/cluster/sdn/vnets",
            "https://pve/api2/json/cluster/sdn/vnets",
            "https://pve/api2/json/access/acl",
            "https://pve/api2/json/nodes/pve1/qemu/100/clone",
        ]
    );
    assert_eq!(plan[1].request.form[0], ("members".to_string(), "anna,ben".to_string()));
    assert_eq!(plan[2].request.form[0], ("poolid".to_string(), "rp_m306_inf23a_grp1".to_string()));
    assert_eq!(plan[3].request.form[0], ("zone".to_string(), "sz001".to_string()));
    assert_eq!(plan[5].request.form[0], ("vnet".to_string(), "vn001LAN".to_string()));
    assert_eq!(plan[6].request.method, HttpMethod::Put);
    assert_eq!(plan[6].request.form[0], ("path".to_string(), "/pool/rp_m306_inf23a_grp1".to_string()));
    assert_eq!(plan[15].request.form[0], ("newid".to_string(), "901".to_string()));
    assert!(matches!(plan[0].on_failure, OnFailure::Abort(_)));
    assert!(matches!(plan[2].on_failure, OnFailure::Ignore));
    assert_eq!(provisioning_plan(&state(), &settings(), &request(false, None)).len(), 14);
}

#[test]
fn provisioning_answers() {
    let body = request(false, None);
    let run = run_all(provisioning_plan(&state(), &settings(), &body), Some(3));
    assert_eq!(run.calls_made(), 14);
    let resp = provisioning_response(&run, &settings(), &body);
    assert_eq!(resp.status, 201);
    let expected = obj(vec![(
        "created",
        arr(vec![
            obj(vec![
                ("group_id", s("001")),
                ("group_name", s("ugr_a")),
                ("resource_pool", s("rp_m306_inf23a_grp1")),
                ("simple_zone", s("sz001")),
                ("vnets", arr(vec![s("vn001DMZ"), s("vn001LAN")])),
            ]),
            obj(vec![
                ("group_id", s("002")),
                ("group_name", s("ugr_b")),
                ("resource_pool", s("rp_m306_inf23a_grp2")),
                ("simple_zone", s("sz002")),
                ("vnets", arr(vec![s("vn002DMZ"), s("vn002LAN")])),
            ]),
        ]),
    )]);
    assert!(same(resp.body.as_ref().unwrap(), &expected), "got {:?}", resp.body);

    let run = run_all(provisioning_plan(&state(), &settings(), &body), Some(7));
    assert_eq!(run.calls_made(), 8);
    let resp = provisioning_response(&run, &settings(), &body);
    assert_eq!(resp.status, 500);
    assert!(same(resp.body.as_ref().unwrap(), &obj(vec![("error", s("Failed to create group ugr_b: boom"))])));
}
