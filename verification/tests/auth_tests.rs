use loomox::auth::authorize_basic;
use loomox::health::check_health;
use loomox::json::Json;

fn admin() -> (Option<String>, Option<String>) {
    (Some("admin".to_string()), Some("secret".to_string()))
}

#[test]
fn the_admin_passes() {
    let (u, p) = admin();
    // "admin:secret"
    assert!(authorize_basic(Some("Basic YWRtaW46c2VjcmV0"), &u, &p));
}

#[test]
fn other_credentials_are_refused() {
    let (u, p) = admin();
    // "admin:wrong"
    assert!(!authorize_basic(Some("Basic YWRtaW46d3Jvbmc="), &u, &p));
    // "admin" without a colon
    assert!(!authorize_basic(Some("Basic YWRtaW4="), &u, &p));
    // not Base64
    assert!(!authorize_basic(Some("Basic ***"), &u, &p));
    // the single byte 0xff, which is not UTF-8
    assert!(!authorize_basic(Some("Basic /w=="), &u, &p));
    // another scheme
    assert!(!authorize_basic(Some("Bearer YWRtaW46c2VjcmV0"), &u, &p));
    assert!(!authorize_basic(None, &u, &p));
}

#[test]
fn the_password_may_hold_a_colon() {
    let u = Some("admin".to_string());
    let p = Some("se:cret".to_string());
    // "admin:se:cret"
    assert!(authorize_basic(Some("Basic YWRtaW46c2U6Y3JldA=="), &u, &p));
}

#[test]
fn basic_auth_is_off_without_credentials() {
    // ":"
    assert!(authorize_basic(Some("Basic Og=="), &None, &None));
    assert!(authorize_basic(Some("Basic YWRtaW46c2VjcmV0"), &None, &None));
    assert!(authorize_basic(None, &None, &None));
    assert!(authorize_basic(Some("Bearer x"), &Some(String::new()), &Some(String::new())));
    assert!(authorize_basic(None, &Some(String::new()), &None));
}

#[test]
fn one_configured_credential_keeps_basic_auth_on() {
    let u = Some("admin".to_string());
    // "admin:"
    assert!(authorize_basic(Some("Basic YWRtaW46"), &u, &None));
    assert!(!authorize_basic(None, &u, &None));
    assert!(!authorize_basic(Some("Basic YWRtaW46c2VjcmV0"), &u, &None));
    let p = Some("secret".to_string());
    // ":secret"
    assert!(authorize_basic(Some("Basic OnNlY3JldA=="), &None, &p));
    assert!(!authorize_basic(None, &None, &p));
}

#[test]
fn the_health_check() {
    let resp = check_health("0.1.0");
    assert_eq!(resp.status, 200);
    match resp.body {
        Some(Json::Object(members)) => {
            assert_eq!(members.len(), 2);
            assert_eq!(members[0].0, "status");
            assert!(matches!(&members[0].1, Json::Str(t) if t == "ok"));
            assert_eq!(members[1].0, "version");
            assert!(matches!(&members[1].1, Json::Str(t) if t == "0.1.0"));
        }
        _ => panic!("expected an object"),
    }
}
