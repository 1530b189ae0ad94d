use pocket::{AuthResult, AuthStep, Claims, Error, FieldError, PocketBase, Token};

fn token(auth: &str, expires: i64) -> Token {
    Token {
        collection: "users".to_string(),
        user: "u1".to_string(),
        auth: auth.to_string(),
        expires,
        refreshable: true,
        ty: "auth".to_string(),
    }
}

fn claims(id: &str, exp: i64) -> Claims {
    Claims {
        id: id.to_string(),
        collection_id: "_pb_users_auth_".to_string(),
        exp,
        refreshable: true,
        ty: "auth".to_string(),
    }
}

fn session_with(t: Option<Token>) -> PocketBase {
    let mut pb = PocketBase::new("http://localhost:8090");
    pb.token = t;
    pb
}

#[test]
fn valid_strictly_before_expiry() {
    let pb = session_with(Some(token("old", 1_000)));
    assert!(pb.is_valid_at(999));
    assert!(!pb.is_valid_at(1_000));
    assert!(!pb.is_valid_at(1_001));
}

#[test]
fn no_token_is_never_valid() {
    let pb = session_with(None);
    assert!(!pb.is_valid_at(i64::MIN));
    assert!(!pb.is_valid());
}

#[test]
fn token_expired_only_after_expiry() {
    let t = token("old", 1_000);
    assert!(!t.is_expired_at(999));
    assert!(t.is_expired_at(1_000));
    assert!(t.is_expired_at(1_001));
    assert!(t.is_valid_at(999));
    assert!(!t.is_valid_at(1_000));
}

#[test]
fn far_past_token_is_expired_now() {
    let t = token("old", 0);
    assert!(t.is_expired());
    let pb = session_with(Some(token("old", 0)));
    assert!(!pb.is_valid());
    let fresh = session_with(Some(token("new", i64::MAX)));
    assert!(fresh.is_valid());
}

#[test]
fn refresh_without_token_is_unauthorized() {
    let mut pb = session_with(None);
    let r = pb.auth_refresh_request();
    assert!(matches!(r, Err(Error::Unauthorized)));
    assert!(pb.token.is_none());
}

#[test]
fn refresh_request_carries_old_bearer() {
    let mut pb = session_with(Some(token("old-bearer", 10)));
    let req = pb.auth_refresh_request().unwrap();
    assert_eq!(req.url, "http://localhost:8090/api/collections/users/auth-refresh");
    assert_eq!(req.authorization, "old-bearer");
    assert_eq!(req.collection, "users");
    assert!(pb.token.is_none());
}

#[test]
fn refresh_success_installs_new_token() {
    let mut pb = session_with(Some(token("old-bearer", 10)));
    let req = pb.auth_refresh_request().unwrap();
    let reply = AuthResult::Success { token: "new-bearer".to_string(), claims: Ok(claims("u2", 5_000)) };
    assert!(pb.auth_refresh_complete(req, reply).is_ok());
    let t = pb.token.clone().unwrap();
    assert_eq!(t.auth, "new-bearer");
    assert_ne!(t.auth, "old-bearer");
    assert_eq!(t.collection, "users");
    assert_eq!(t.user, "u2");
    assert_eq!(t.expires, 5_000);
    assert!(pb.is_valid_at(4_999));
}

#[test]
fn refresh_refusal_without_message_uses_fixed_text() {
    let mut pb = session_with(Some(token("old", 10)));
    let req = pb.auth_refresh_request().unwrap();
    let reply = AuthResult::Error { status: 401, message: None, data: Vec::new() };
    match pb.auth_refresh_complete(req, reply) {
        Err(Error::Authorization { message, data }) => {
            assert_eq!(message, "failed to authenticate user");
            assert!(data.is_empty());
        }
        other => panic!("unexpected {:?}", other),
    }
    assert!(pb.token.is_none());
}

#[test]
fn refresh_refusal_keeps_server_message_and_fields() {
    let mut pb = session_with(Some(token("old", 10)));
    let req = pb.auth_refresh_request().unwrap();
    let field = FieldError { code: "validation_required".to_string(), message: "Missing.".to_string() };
    let reply = AuthResult::Error {
        status: 400,
        message: Some("Bad token.".to_string()),
        data: vec![("token".to_string(), field)],
    };
    match pb.auth_refresh_complete(req, reply) {
        Err(Error::Authorization { message, data }) => {
            assert_eq!(message, "Bad token.");
            assert_eq!(data.len(), 1);
            assert_eq!(data[0].0, "token");
            assert_eq!(data[0].1.code, "validation_required");
        }
        other => panic!("unexpected {:?}", other),
    }
}

#[test]
fn unreadable_payload_is_custom_error() {
    let mut pb = session_with(Some(token("old", 10)));
    let req = pb.auth_refresh_request().unwrap();
    let reply = AuthResult::Success { token: "x.y.z".to_string(), claims: Err("InvalidToken".to_string()) };
    match pb.auth_refresh_complete(req, reply) {
        Err(Error::Custom(m)) => assert_eq!(m, "InvalidToken"),
        other => panic!("unexpected {:?}", other),
    }
    assert!(pb.token.is_none());
}

#[test]
fn password_auth_installs_token() {
    let mut pb = session_with(None);
    let reply = AuthResult::Success { token: "bearer".to_string(), claims: Ok(claims("u9", 7_000)) };
    assert!(pb.auth_with_password_complete("users", reply).is_ok());
    let t = pb.token.clone().unwrap();
    assert_eq!(t.collection, "users");
    assert_eq!(t.user, "u9");
    assert_eq!(t.auth, "bearer");
    assert_eq!(t.expires, 7_000);
    assert!(t.refreshable);
    assert_eq!(t.ty, "auth");
}

#[test]
fn password_refusal_keeps_previous_token() {
    let mut pb = session_with(Some(token("kept", 10)));
    let reply = AuthResult::Error { status: 400, message: Some("Failed to authenticate.".to_string()), data: Vec::new() };
    assert!(matches!(pb.auth_with_password_complete("users", reply), Err(Error::Authorization { .. })));
    assert_eq!(pb.token.unwrap().auth, "kept");
}

#[test]
fn decorator_attaches_valid_bearer_without_refresh() {
    let mut pb = session_with(Some(token("live", 1_000)));
    match pb.authenticate_at(500).unwrap() {
        AuthStep::Ready(Some(h)) => assert_eq!(h, "live"),
        other => panic!("unexpected {:?}", other),
    }
    assert_eq!(pb.token.unwrap().auth, "live");
}

#[test]
fn decorator_without_token_sends_unauthenticated() {
    let mut pb = session_with(None);
    assert!(matches!(pb.authenticate_at(500), Ok(AuthStep::Ready(None))));
    assert!(pb.token.is_none());
}

#[test]
fn decorator_refreshes_once_for_token_expired_a_second_ago() {
    let now = 1_000;
    let mut pb = session_with(Some(token("stale", now - 1)));
    let req = match pb.authenticate_at(now).unwrap() {
        AuthStep::Refresh(req) => req,
        other => panic!("unexpected {:?}", other),
    };
    assert_eq!(req.authorization, "stale");
    assert_eq!(req.url, "http://localhost:8090/api/collections/users/auth-refresh");
    let reply = AuthResult::Success { token: "fresh".to_string(), claims: Ok(claims("u1", now + 3_600)) };
    let header = pb.authenticate_complete(req, reply).unwrap();
    assert_eq!(header, Some("fresh".to_string()));
    match pb.authenticate_at(now).unwrap() {
        AuthStep::Ready(Some(h)) => assert_eq!(h, "fresh"),
        other => panic!("unexpected {:?}", other),
    }
}

#[test]
fn decorator_refreshes_at_expiry_second() {
    let mut pb = session_with(Some(token("stale", 1_000)));
    assert!(matches!(pb.authenticate_at(1_000), Ok(AuthStep::Refresh(_))));
    assert!(pb.token.is_none());
}

#[test]
fn decorator_propagates_refresh_failure() {
    let mut pb = session_with(Some(token("stale", 1)));
    let req = match pb.authenticate_at(2).unwrap() {
        AuthStep::Refresh(req) => req,
        other => panic!("unexpected {:?}", other),
    };
    let reply = AuthResult::Error { status: 401, message: Some("expired".to_string()), data: Vec::new() };
    match pb.authenticate_complete(req, reply) {
        Err(Error::Authorization { message, .. }) => assert_eq!(message, "expired"),
        other => panic!("unexpected {:?}", other),
    }
}

#[test]
fn token_from_claims_takes_payload_fields() {
    let t = Token::from_claims("admins".to_string(), "b".to_string(), claims("a1", 42));
    assert_eq!(t.collection, "admins");
    assert_eq!(t.user, "a1");
    assert_eq!(t.auth, "b");
    assert_eq!(t.expires, 42);
}

#[test]
fn refresh_with_empty_bearer_is_unauthorized() {
    let mut pb = session_with(Some(token("", 10)));
    assert!(matches!(pb.auth_refresh_request(), Err(Error::Unauthorized)));
    assert_eq!(pb.token.unwrap().collection, "users");
}

#[test]
fn refresh_with_empty_collection_is_unauthorized() {
    let mut t = token("bearer", 10);
    t.collection = String::new();
    let mut pb = session_with(Some(t));
    assert!(matches!(pb.auth_refresh_request(), Err(Error::Unauthorized)));
    assert_eq!(pb.token.unwrap().auth, "bearer");
}

#[test]
fn decorator_fails_when_stale_token_cannot_refresh() {
    let mut pb = session_with(Some(token("", 10)));
    assert!(matches!(pb.authenticate_at(10), Err(Error::Unauthorized)));
    assert!(pb.token.is_some());
    let mut live = session_with(Some(token("", 10)));
    assert!(matches!(live.authenticate_at(9), Ok(AuthStep::Ready(Some(h))) if h.is_empty()));
}

#[test]
fn refresh_address_ignores_trailing_slashes() {
    let mut pb = PocketBase::new("http://localhost:8090//");
    pb.token = Some(token("b", 10));
    let req = pb.auth_refresh_request().unwrap();
    assert_eq!(req.url, "http://localhost:8090/api/collections/users/auth-refresh");
}

#[test]
fn decorator_now_without_token_sends_unauthenticated() {
    let mut pb = session_with(None);
    assert!(matches!(pb.authenticate(), Ok(AuthStep::Ready(None))));
    assert!(pb.token.is_none());
}

#[test]
fn decorator_now_refreshes_expired_token() {
    let mut pb = session_with(Some(token("stale", 0)));
    assert!(matches!(pb.authenticate(), Ok(AuthStep::Refresh(r)) if r.authorization == "stale"));
}
