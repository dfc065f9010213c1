use graphql_authoriser::resolver::{
    create_request, create_user, get_user_id, lookup_request, to_create_req_failed, to_get_req_failed,
    CreateErrors, CreateReply, GetErrors, LookupReply, ResolveError, ResolveStep, StoreReply,
};

fn users(ids: &[&str]) -> LookupReply {
    LookupReply::Users {
        raw_body: "{}".to_string(),
        ids: ids.iter().map(|s| s.to_string()).collect(),
    }
}

#[test]
fn one_user_is_found() {
    assert_eq!(get_user_id(users(&["u-1"])).unwrap(), "u-1");
}

#[test]
fn no_user_is_reported() {
    match get_user_id(users(&[])) {
        Err(GetErrors::NoUsersFound(m)) => assert_eq!(m, "no users found in: {}"),
        other => panic!("unexpected {:?}", other),
    }
}

#[test]
fn several_users_are_reported() {
    match get_user_id(users(&["u-1", "u-2"])) {
        Err(GetErrors::TooManyUsersFound(m)) => assert_eq!(m, "too many users found in : {}"),
        other => panic!("unexpected {:?}", other),
    }
}

#[test]
fn failed_lookup_is_request_failure() {
    assert!(matches!(get_user_id(LookupReply::Failed("timeout".to_string())), Err(GetErrors::RequestFailed(m)) if m == "timeout"));
    assert!(matches!(to_get_req_failed::<String>("x".to_string()), Err(GetErrors::RequestFailed(m)) if m == "x"));
    assert!(matches!(to_create_req_failed::<String>("y".to_string()), Err(CreateErrors::RequestFailed(m)) if m == "y"));
}

#[test]
fn create_outcomes() {
    assert_eq!(create_user(CreateReply::Created("u-42".to_string())).unwrap(), "u-42");
    let conflict = CreateReply::Rejected {
        raw_body: "dup".to_string(),
        codes: vec!["validation-failed".to_string(), "constraint-violation".to_string()],
    };
    assert!(matches!(create_user(conflict), Err(CreateErrors::UsersExists(m)) if m == "dup"));
    let other = CreateReply::Rejected { raw_body: "bad".to_string(), codes: vec!["validation-failed".to_string()] };
    assert!(matches!(create_user(other), Err(CreateErrors::RequestFailed(m)) if m == "bad"));
    assert!(matches!(create_user(CreateReply::Failed("reset".to_string())), Err(CreateErrors::RequestFailed(m)) if m == "reset"));
}

#[test]
fn request_documents() {
    assert_eq!(
        lookup_request("fb-\"1"),
        "{\"operationName\":\"GetUserId\",\"query\":\"query GetUserId ($facebook_id: String!) { users(where: {facebook_id: {_eq: $facebook_id}}) { id }}\",\"variables\":{\"facebook_id\":\"fb-\\\"1\"}}"
    );
    let body: serde_json::Value = serde_json::from_str(&create_request("fb-123")).unwrap();
    assert_eq!(body["operationName"], "CreateUser");
    assert_eq!(body["variables"]["facebook_id"], "fb-123");
}

#[test]
fn first_login_creates_user() {
    let step = ResolveStep::start();
    let step = step.next(StoreReply::Lookup(get_user_id(users(&[]))));
    assert!(matches!(step, ResolveStep::Create));
    let step = step.next(StoreReply::Create(create_user(CreateReply::Created("u-42".to_string()))));
    assert!(matches!(step, ResolveStep::Done(ref id) if id == "u-42"));
}

#[test]
fn repeat_login_returns_same_id() {
    // first resolution creates the record, the second one finds it
    let mut store: Vec<(String, String)> = Vec::new();
    let mut results = Vec::new();
    for _ in 0..2 {
        let mut step = ResolveStep::start();
        loop {
            step = match step {
                ResolveStep::Lookup | ResolveStep::Relookup => {
                    let ids: Vec<&str> = store.iter().filter(|r| r.1 == "fb-1").map(|r| r.0.as_str()).collect();
                    let res = get_user_id(users(&ids));
                    step.next(StoreReply::Lookup(res))
                }
                ResolveStep::Create => {
                    store.push(("u-7".to_string(), "fb-1".to_string()));
                    step.next(StoreReply::Create(create_user(CreateReply::Created("u-7".to_string()))))
                }
                _ => break,
            };
        }
        results.push(step);
    }
    assert_eq!(store.len(), 1);
    assert!(matches!(&results[0], ResolveStep::Done(id) if id == "u-7"));
    assert!(matches!(&results[1], ResolveStep::Done(id) if id == "u-7"));
}

#[test]
fn lost_create_race_relooks_once() {
    let a = ResolveStep::start().next(StoreReply::Lookup(get_user_id(users(&[]))));
    let b = ResolveStep::start().next(StoreReply::Lookup(get_user_id(users(&[]))));
    let a = a.next(StoreReply::Create(create_user(CreateReply::Created("u-1".to_string()))));
    let conflict = CreateReply::Rejected { raw_body: "dup".to_string(), codes: vec!["constraint-violation".to_string()] };
    let b = b.next(StoreReply::Create(create_user(conflict)));
    assert!(matches!(b, ResolveStep::Relookup));
    let b = b.next(StoreReply::Lookup(get_user_id(users(&["u-1"]))));
    assert!(matches!(&a, ResolveStep::Done(id) if id == "u-1"));
    assert!(matches!(&b, ResolveStep::Done(id) if id == "u-1"));
}

#[test]
fn relookup_that_finds_nobody_gives_up() {
    let step = ResolveStep::Relookup.next(StoreReply::Lookup(get_user_id(users(&[]))));
    assert!(matches!(step, ResolveStep::Failed(ResolveError::ConcurrentCreateConflict(_))));
}

#[test]
fn ambiguous_identity_is_never_resolved() {
    let step = ResolveStep::start().next(StoreReply::Lookup(get_user_id(users(&["u-1", "u-2"]))));
    assert!(matches!(step, ResolveStep::Failed(ResolveError::AmbiguousIdentity(_))));
}

#[test]
fn failed_create_is_terminal() {
    let step = ResolveStep::Create.next(StoreReply::Create(create_user(CreateReply::Failed("x".to_string()))));
    assert!(matches!(step, ResolveStep::Failed(ResolveError::RequestFailed(m)) if m == "x"));
}
