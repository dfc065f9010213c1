use graphql_authoriser::identity::{DebugTokenData, IdpReply};
use graphql_authoriser::issuer::SESSION_TTL_SECS;
use graphql_authoriser::json::{error_body, success_body};
use graphql_authoriser::pipeline::{Authorizer, Config, LoginInput, Phase, PipelineError};
use graphql_authoriser::resolver::{create_user, get_user_id, CreateReply, LookupReply, ResolveError, ResolveStep, StoreReply};
use std::time::{SystemTime, UNIX_EPOCH};

fn authorizer() -> Authorizer {
    Authorizer::new(Config::new(
        "admin-token".to_string(),
        "jwt-secret".to_string(),
        "http://store/v1/graphql".to_string(),
        "store-secret".to_string(),
    ))
}

fn idp(is_valid: bool, user_id: &str) -> IdpReply {
    IdpReply::Answered { status: 200, payload: Ok(DebugTokenData { is_valid, user_id: user_id.to_string() }) }
}

fn body_json(phase: &Phase) -> (u16, serde_json::Value) {
    let (status, body) = phase.response().unwrap();
    (status, serde_json::from_str(&body).unwrap())
}

#[test]
fn end_to_end_first_login() {
    let auth = authorizer();
    let phase = auth.begin(Ok(LoginInput { fb_token: "tok-abc".to_string() }));
    match &phase {
        Phase::Verify { url } => {
            assert_eq!(url, "https://graph.facebook.com/debug_token?input_token=tok-abc&access_token=admin-token")
        }
        other => panic!("unexpected {:?}", other),
    }
    let phase = auth.on_idp_reply(idp(true, "fb-123"));
    match &phase {
        Phase::Resolve { subject, step: ResolveStep::Lookup, request } => {
            assert_eq!(subject, "fb-123");
            assert!(request.contains("GetUserId"));
        }
        other => panic!("unexpected {:?}", other),
    }
    let lookup = get_user_id(LookupReply::Users { raw_body: "{\"data\":{\"users\":[]}}".to_string(), ids: vec![] });
    let phase = auth.on_store_reply(phase, StoreReply::Lookup(lookup));
    assert!(matches!(&phase, Phase::Resolve { step: ResolveStep::Create, request, .. } if request.contains("CreateUser")));
    let created = create_user(CreateReply::Created("u-42".to_string()));
    let phase = auth.on_store_reply(phase, StoreReply::Create(created));
    let internal_id = match &phase {
        Phase::Issue { internal_id } => internal_id.clone(),
        other => panic!("unexpected {:?}", other),
    };
    assert_eq!(internal_id, "u-42");
    let now = SystemTime::now().duration_since(UNIX_EPOCH).unwrap().as_secs();
    let phase = auth.on_clock(&internal_id, Some(now));
    let (status, body) = body_json(&phase);
    assert_eq!(status, 200);
    assert_eq!(body["ok"], true);
    let token = body["accessToken"].as_str().unwrap();
    let key = jsonwebtoken::DecodingKey::from_secret(b"jwt-secret");
    let validation = jsonwebtoken::Validation::new(jsonwebtoken::Algorithm::HS256);
    let claims = jsonwebtoken::decode::<serde_json::Value>(token, &key, &validation).unwrap().claims;
    assert_eq!(claims["https://hasura.io/jwt/claims"]["x-hasura-user-id"], "u-42");
    assert_eq!(claims["exp"].as_u64().unwrap() - claims["iat"].as_u64().unwrap(), SESSION_TTL_SECS);
}

#[test]
fn end_to_end_invalid_token() {
    let auth = authorizer();
    let phase = auth.on_idp_reply(idp(false, "fb-999"));
    assert!(matches!(&phase, Phase::Failed { .. }));
    let (status, body) = body_json(&phase);
    assert_eq!(status, 400);
    assert!(body["message"].as_str().unwrap().contains("invalid access token"));
    assert!(body["code"].is_null());
    assert!(!body.to_string().contains("admin-token"));
}

#[test]
fn undecodable_request_is_rejected() {
    let phase = authorizer().begin(Err("missing field `input`".to_string()));
    let (status, body) = body_json(&phase);
    assert_eq!(status, 400);
    assert_eq!(body["message"], "could not decode body: missing field `input`");
}

#[test]
fn ambiguous_identity_hides_details() {
    let auth = authorizer();
    let phase = auth.on_idp_reply(idp(true, "fb-1"));
    let lookup = get_user_id(LookupReply::Users { raw_body: "raw".to_string(), ids: vec!["a".to_string(), "b".to_string()] });
    let phase = auth.on_store_reply(phase, StoreReply::Lookup(lookup));
    match &phase {
        Phase::Failed { error } => {
            assert!(matches!(error, PipelineError::Resolve(ResolveError::AmbiguousIdentity(_))));
            assert!(error.is_operator_alarm());
        }
        other => panic!("unexpected {:?}", other),
    }
    let (status, body) = body_json(&phase);
    assert_eq!(status, 400);
    assert_eq!(body["message"], "Something went wrong");
}

#[test]
fn invalid_token_is_not_an_operator_alarm() {
    match authorizer().on_idp_reply(idp(false, "fb-1")) {
        Phase::Failed { error } => assert!(!error.is_operator_alarm()),
        other => panic!("unexpected {:?}", other),
    }
}

#[test]
fn store_failure_message() {
    let e = PipelineError::Resolve(ResolveError::RequestFailed("timeout".to_string()));
    assert_eq!(e.message(), "user store request failed: timeout");
    assert!(e.is_operator_alarm());
}

#[test]
fn missing_clock_fails_issue() {
    let phase = authorizer().on_clock("u-1", None);
    let (status, body) = body_json(&phase);
    assert_eq!(status, 400);
    assert_eq!(body["message"], "failed to issue token: system time is unavailable");
}

#[test]
fn open_phases_have_no_response() {
    assert!(Phase::Issue { internal_id: "u".to_string() }.response().is_none());
}

#[test]
fn response_documents_quote_their_text() {
    assert_eq!(success_body("a\"b"), "{\"ok\":true,\"accessToken\":\"a\\\"b\"}");
    assert_eq!(error_body("x\ny"), "{\"message\":\"x\\ny\",\"code\":null}");
}

#[test]
fn ttl_can_be_overridden() {
    let c = Config::new("a".to_string(), "b".to_string(), "c".to_string(), "d".to_string());
    assert_eq!(c.session_ttl_secs, SESSION_TTL_SECS);
    assert_eq!(c.clone().with_session_ttl(60).session_ttl_secs, 60);
    assert_eq!(c.idp_base, "https://graph.facebook.com");
}

#[test]
fn upstream_rejection_message() {
    let phase = authorizer().on_idp_reply(IdpReply::Answered { status: 503, payload: Err("x".to_string()) });
    let (status, body) = body_json(&phase);
    assert_eq!(status, 400);
    assert_eq!(body["message"], "get_fb_id failed: error while fetching debug_token");
}

#[test]
fn lost_insert_race_relooks_then_issues() {
    let auth = authorizer();
    let phase = auth.on_idp_reply(idp(true, "fb-5"));
    let lookup = get_user_id(LookupReply::Users { raw_body: "[]".to_string(), ids: vec![] });
    let phase = auth.on_store_reply(phase, StoreReply::Lookup(lookup));
    let conflict = create_user(CreateReply::Rejected {
        raw_body: "dup".to_string(),
        codes: vec!["constraint-violation".to_string()],
    });
    let phase = auth.on_store_reply(phase, StoreReply::Create(conflict));
    assert!(matches!(&phase, Phase::Resolve { step: ResolveStep::Relookup, request, .. } if request.contains("GetUserId")));
    let relook = get_user_id(LookupReply::Users { raw_body: "[..]".to_string(), ids: vec!["u-9".to_string()] });
    let phase = auth.on_store_reply(phase, StoreReply::Lookup(relook));
    assert!(matches!(&phase, Phase::Issue { internal_id } if internal_id == "u-9"));
}
