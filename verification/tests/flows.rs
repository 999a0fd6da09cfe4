use dates_backend::models::palms;
use dates_backend::models::sea_orm_active_enums::Growth;
use dates_backend::models::users::Model;
use dates_backend::routes::flow::{Action, Event, Flow, NewPalm, NewUser, Reply, UserChanges};
use dates_backend::routes::users::{
    add_tree, create_user, logout, sign_in, update_user, Coins, Dates, Palm, RequestRegisterUser,
    RequestTree, RequestUpdate, RequestUser, UserProfileResponse, UserProfileResponseWithTree,
};
use dates_backend::utilities::errors::{AppError, DbError};
use dates_backend::utilities::jwt::{create_token_at, UserClaim};

fn alice() -> Model {
    Model {
        id: 7,
        name: "Alice".to_string(),
        email: "alice@example.com".to_string(),
        password: "$2b$hash".to_string(),
        token: None,
        coins: 12,
        dates: 34,
    }
}

fn one_palm(user_id: i32) -> Vec<palms::Model> {
    vec![palms::Model { id: 1, dpm: 3, growth: Some(Growth::Adult), user_id }]
}

fn db_err(text: &str) -> DbError {
    DbError::Other { error: text.to_string() }
}

fn failed(code: u16, message: &str) -> Action {
    Action::Respond(Reply::Failed(AppError { code, message: message.to_string() }))
}

fn claims_of(token: &str, secret: &str) -> serde_json::Value {
    let mut validation = jsonwebtoken::Validation::new(jsonwebtoken::Algorithm::HS256);
    validation.required_spec_claims.clear();
    validation.validate_exp = false;
    jsonwebtoken::decode::<serde_json::Value>(
        token,
        &jsonwebtoken::DecodingKey::from_secret(secret.as_bytes()),
        &validation,
    )
    .unwrap()
    .claims
}

const SECRET: &str = "server-secret";
const NOW: i64 = 1_700_000_000;

fn sign_in_request() -> RequestUser {
    RequestUser { email: "alice@example.com".to_string(), password: "pw".to_string() }
}

#[test]
fn sign_in_success_answers_stored_token() {
    let (flow, action) = sign_in(SECRET, sign_in_request());
    assert_eq!(action, Action::FindUserByEmail { email: "alice@example.com".to_string() });
    let (flow, action) = flow.step(Event::UserFound(Ok(Some(alice()))));
    assert_eq!(action, Action::VerifyPassword { password: "pw".to_string(), hash: "$2b$hash".to_string() });
    let (flow, action) = flow.step(Event::PasswordVerified(Ok(true), NOW));
    let token = match action {
        Action::StoreToken { user_id, token } => {
            assert_eq!(user_id, 7);
            token
        }
        other => panic!("unexpected {:?}", other),
    };
    assert_eq!(claims_of(&token, SECRET)["username"], serde_json::Value::from("alice@example.com"));
    assert_eq!(claims_of(&token, SECRET)["iat"], serde_json::Value::from(NOW));
    assert_eq!(
        token,
        create_token_at(SECRET, &UserClaim { username: "alice@example.com".to_string(), iat: NOW })
    );
    let (flow, action) = flow.step(Event::UserSaved(Ok(alice())));
    assert_eq!(action, Action::FindPalmsByUser { user_id: 7 });
    let (flow, action) = flow.step(Event::PalmsFound(Ok(one_palm(7))));
    assert_eq!(flow, Flow::Finished);
    assert_eq!(
        action,
        Action::Respond(Reply::ProfileWithTree(UserProfileResponseWithTree {
            id: 7,
            name: "Alice".to_string(),
            email: "alice@example.com".to_string(),
            dates: 34,
            coins: 12,
            token: Some(token),
            palms: vec![Palm { id: 1, dpm: 3, growth: Growth::Adult, user_id: 7 }],
        }))
    );
}

#[test]
fn sign_in_unknown_email_and_wrong_password_alike() {
    let (flow, _) = sign_in(SECRET, sign_in_request());
    let (done, unknown) = flow.step(Event::UserFound(Ok(None)));
    assert_eq!(done, Flow::Finished);
    let (flow, _) = sign_in(SECRET, sign_in_request());
    let (flow, _) = flow.step(Event::UserFound(Ok(Some(alice()))));
    let (_, wrong) = flow.step(Event::PasswordVerified(Ok(false), NOW));
    assert_eq!(unknown, wrong);
    assert_eq!(unknown, failed(400, "incorrect email and/or password"));
}

#[test]
fn sign_in_lookup_failure_is_500() {
    let (flow, _) = sign_in(SECRET, sign_in_request());
    let (_, action) = flow.step(Event::UserFound(Err(db_err("down"))));
    assert_eq!(action, failed(500, "Internal Server error please try again later"));
}

#[test]
fn sign_in_passes_check_error_on() {
    let (flow, _) = sign_in(SECRET, sign_in_request());
    let (flow, _) = flow.step(Event::UserFound(Ok(Some(alice()))));
    let (_, action) = flow.step(Event::PasswordVerified(Err(AppError { code: 500, message: "bad hash".to_string() }), NOW));
    assert_eq!(action, failed(500, "bad hash"));
}

#[test]
fn sign_in_store_failure_is_500_with_error_text() {
    let (flow, _) = sign_in(SECRET, sign_in_request());
    let (flow, _) = flow.step(Event::UserFound(Ok(Some(alice()))));
    let (flow, _) = flow.step(Event::PasswordVerified(Ok(true), NOW));
    let (_, action) = flow.step(Event::UserSaved(Err(DbError::Query {
        error: "Query Error: x".to_string(),
        query_error: "x".to_string(),
    })));
    assert_eq!(action, failed(500, "Query Error: x"));
}

#[test]
fn sign_in_palm_lookup_failure_is_translated() {
    let (flow, _) = sign_in(SECRET, sign_in_request());
    let (flow, _) = flow.step(Event::UserFound(Ok(Some(alice()))));
    let (flow, _) = flow.step(Event::PasswordVerified(Ok(true), NOW));
    let (flow, _) = flow.step(Event::UserSaved(Ok(alice())));
    let (_, action) = flow.step(Event::PalmsFound(Err(DbError::Query {
        error: "Query Error: q".to_string(),
        query_error: "q".to_string(),
    })));
    assert_eq!(action, failed(500, "q"));
}

fn register() -> RequestRegisterUser {
    RequestRegisterUser {
        name: "Bob".to_string(),
        email: "bob@example.com".to_string(),
        dates: 3,
        password: "secret".to_string(),
    }
}

fn bob(token: Option<&str>) -> Model {
    Model {
        id: 9,
        name: "Bob".to_string(),
        email: "bob@example.com".to_string(),
        password: "H".to_string(),
        token: token.map(|t| t.to_string()),
        coins: 0,
        dates: 3,
    }
}

#[test]
fn create_user_full_run() {
    let (flow, action) = create_user(SECRET, register(), NOW);
    assert_eq!(action, Action::HashPassword { password: "secret".to_string() });
    let (flow, action) = flow.step(Event::PasswordHashed(Ok("H".to_string())));
    let token = match &action {
        Action::InsertUser(NewUser { token: Some(token), .. }) => token.clone(),
        other => panic!("unexpected {:?}", other),
    };
    assert_eq!(claims_of(&token, SECRET)["username"], serde_json::Value::from("bob@example.com"));
    assert_eq!(
        token,
        create_token_at(SECRET, &UserClaim { username: "bob@example.com".to_string(), iat: NOW })
    );
    assert_eq!(
        action,
        Action::InsertUser(NewUser {
            name: "Bob".to_string(),
            email: "bob@example.com".to_string(),
            dates: 3,
            password: "H".to_string(),
            token: Some(token.clone()),
        })
    );
    let (flow, action) = flow.step(Event::UserInserted(Ok(bob(Some("T")))));
    assert_eq!(action, Action::InsertPalm(NewPalm { dpm: 3, growth: Some(Growth::Adult), user_id: 9 }));
    let (flow, action) = flow.step(Event::PalmInserted(Ok(palms::Model { id: 1, dpm: 3, growth: Some(Growth::Adult), user_id: 9 })));
    assert_eq!(action, Action::FindPalmsByUser { user_id: 9 });
    let (flow, action) = flow.step(Event::PalmsFound(Ok(one_palm(9))));
    assert_eq!(flow, Flow::Finished);
    match action {
        Action::Respond(Reply::ProfileWithTree(r)) => {
            assert_eq!(r.token, Some("T".to_string()));
            assert_eq!(r.palms.len(), 1);
            assert_eq!((r.id, r.coins, r.dates), (9, 0, 3));
        }
        other => panic!("unexpected {:?}", other),
    }
}

#[test]
fn create_user_without_stored_token_answers_empty_token() {
    let (flow, _) = create_user(SECRET, register(), NOW);
    let (flow, _) = flow.step(Event::PasswordHashed(Ok("H".to_string())));
    let (flow, _) = flow.step(Event::UserInserted(Ok(bob(None))));
    let (flow, _) = flow.step(Event::PalmInserted(Ok(palms::Model { id: 1, dpm: 3, growth: None, user_id: 9 })));
    let (_, action) = flow.step(Event::PalmsFound(Ok(Vec::new())));
    match action {
        Action::Respond(Reply::ProfileWithTree(r)) => assert_eq!(r.token, Some(String::new())),
        other => panic!("unexpected {:?}", other),
    }
}

#[test]
fn create_user_hash_failure_is_500() {
    let (flow, _) = create_user(SECRET, register(), NOW);
    let (_, action) = flow.step(Event::PasswordHashed(Err("cost".to_string())));
    assert_eq!(action, failed(500, "cost"));
}

#[test]
fn create_user_insert_failure_is_translated() {
    let (flow, _) = create_user(SECRET, register(), NOW);
    let (flow, _) = flow.step(Event::PasswordHashed(Ok("H".to_string())));
    let (_, action) = flow.step(Event::UserInserted(Err(DbError::Query {
        error: "Query Error: duplicate key".to_string(),
        query_error: "duplicate key".to_string(),
    })));
    assert_eq!(action, failed(500, "duplicate key"));
}

#[test]
fn accepts_refuses_panicking_outcomes() {
    let (flow, _) = create_user(SECRET, register(), NOW);
    assert!(flow.accepts(&Event::PasswordHashed(Ok("x".to_string()))));
    assert!(!flow.accepts(&Event::UserSaved(Ok(alice()))));
    let (flow, _) = flow.step(Event::PasswordHashed(Ok("H".to_string())));
    let (flow, _) = flow.step(Event::UserInserted(Ok(bob(None))));
    assert!(!flow.accepts(&Event::PalmInserted(Err(db_err("x")))));
    let (flow, _) = add_tree(alice(), RequestTree { dpm: 1, growth: Growth::New });
    let (flow, _) = flow.step(Event::PalmInserted(Ok(palms::Model { id: 1, dpm: 3, growth: None, user_id: 7 })));
    assert!(!flow.accepts(&Event::PalmsFound(Ok(vec![palms::Model { id: 1, dpm: 3, growth: None, user_id: 7 }]))));
    assert!(flow.accepts(&Event::PalmsFound(Ok(one_palm(7)))));
    assert!(flow.accepts(&Event::PalmsFound(Err(db_err("x")))));
    assert!(!Flow::Finished.accepts(&Event::UserSaved(Ok(alice()))));
}

#[test]
fn update_user_saves_named_fields() {
    let (flow, action) = update_user(alice(), RequestUpdate { coins: Some(Coins { number: 99 }), dates: None });
    assert_eq!(action, Action::SaveUser(UserChanges { id: 7, coins: Some(99), dates: None, clear_token: false }));
    let mut saved = alice();
    saved.coins = 99;
    let (flow, action) = flow.step(Event::UserSaved(Ok(saved)));
    assert_eq!(flow, Flow::Finished);
    assert_eq!(
        action,
        Action::Respond(Reply::Profile(UserProfileResponse {
            id: 7,
            name: "Alice".to_string(),
            email: "alice@example.com".to_string(),
            dates: 34,
            coins: 99,
        }))
    );
    let (_, action) = update_user(alice(), RequestUpdate { coins: None, dates: Some(Dates { number: 1 }) });
    assert_eq!(action, Action::SaveUser(UserChanges { id: 7, coins: None, dates: Some(1), clear_token: false }));
}

#[test]
fn update_user_failure_is_500() {
    let (flow, _) = update_user(alice(), RequestUpdate { coins: None, dates: None });
    let (_, action) = flow.step(Event::UserSaved(Err(db_err("gone"))));
    assert_eq!(action, failed(500, "gone"));
}

#[test]
fn logout_clears_token() {
    let (flow, action) = logout(alice());
    assert_eq!(action, Action::SaveUser(UserChanges { id: 7, coins: None, dates: None, clear_token: true }));
    let (flow, action) = flow.step(Event::UserSaved(Ok(alice())));
    assert_eq!((flow, action), (Flow::Finished, Action::Respond(Reply::Empty)));
    let (flow, _) = logout(alice());
    let (_, action) = flow.step(Event::UserSaved(Err(db_err("x"))));
    assert_eq!(action, failed(500, "x"));
}

#[test]
fn add_tree_always_adds_standard_palm() {
    let (flow, action) = add_tree(alice(), RequestTree { dpm: 100, growth: Growth::Young });
    assert_eq!(action, Action::InsertPalm(NewPalm { dpm: 3, growth: Some(Growth::Adult), user_id: 7 }));
    let (flow, action) = flow.step(Event::PalmInserted(Ok(palms::Model { id: 2, dpm: 3, growth: Some(Growth::Adult), user_id: 7 })));
    assert_eq!(action, Action::FindPalmsByUser { user_id: 7 });
    let (_, action) = flow.step(Event::PalmsFound(Ok(one_palm(7))));
    match action {
        Action::Respond(Reply::ProfileWithTree(r)) => {
            assert_eq!(r.token, None);
            assert_eq!(r.name, "Alice");
        }
        other => panic!("unexpected {:?}", other),
    }
}

#[test]
fn add_tree_insert_failure_is_500() {
    let (flow, _) = add_tree(alice(), RequestTree { dpm: 1, growth: Growth::New });
    let (_, action) = flow.step(Event::PalmInserted(Err(db_err("fk"))));
    assert_eq!(action, failed(500, "fk"));
}

#[test]
fn every_handler_answers_within_four_outcomes() {
    let (mut flow, mut action) = sign_in(SECRET, sign_in_request());
    let events = vec![
        Event::UserFound(Ok(Some(alice()))),
        Event::PasswordVerified(Ok(true), NOW),
        Event::UserSaved(Ok(alice())),
        Event::PalmsFound(Ok(Vec::new())),
    ];
    let mut steps = 0;
    for e in events {
        assert!(!matches!(action, Action::Respond(_)));
        let next = flow.step(e);
        flow = next.0;
        action = next.1;
        steps += 1;
    }
    assert!(matches!(action, Action::Respond(_)));
    assert_eq!(steps, 4);
}

#[test]
fn empty_update_keeps_row_and_answers_profile() {
    let (flow, action) = update_user(alice(), RequestUpdate { coins: None, dates: None });
    assert_eq!(action, Action::SaveUser(UserChanges { id: 7, coins: None, dates: None, clear_token: false }));
    let (_, action) = flow.step(Event::UserSaved(Ok(alice())));
    assert_eq!(
        action,
        Action::Respond(Reply::Profile(UserProfileResponse {
            id: 7,
            name: "Alice".to_string(),
            email: "alice@example.com".to_string(),
            dates: 34,
            coins: 12,
        }))
    );
}

#[test]
fn repeated_update_gives_same_answer() {
    let request = RequestUpdate { coins: Some(Coins { number: 5 }), dates: Some(Dates { number: 6 }) };
    let mut saved = alice();
    saved.coins = 5;
    saved.dates = 6;
    let (flow, first_changes) = update_user(alice(), request);
    let (_, first) = flow.step(Event::UserSaved(Ok(saved.duplicate())));
    let (flow, second_changes) = update_user(saved.duplicate(), request);
    let (_, second) = flow.step(Event::UserSaved(Ok(saved)));
    assert_eq!(first_changes, second_changes);
    assert_eq!(first, second);
}

#[test]
fn sign_in_token_is_signed_with_given_secret() {
    let (flow, _) = sign_in("one", sign_in_request());
    let (flow, _) = flow.step(Event::UserFound(Ok(Some(alice()))));
    let (_, action) = flow.step(Event::PasswordVerified(Ok(true), NOW));
    match action {
        Action::StoreToken { token, .. } => {
            assert_eq!(claims_of(&token, "one")["username"], serde_json::Value::from("alice@example.com"));
        }
        other => panic!("unexpected {:?}", other),
    }
}

#[test]
fn sign_in_token_carries_the_given_clock_reading() {
    let (flow, _) = sign_in(SECRET, sign_in_request());
    let (flow, _) = flow.step(Event::UserFound(Ok(Some(alice()))));
    let (_, action) = flow.step(Event::PasswordVerified(Ok(true), 42));
    match action {
        Action::StoreToken { token, .. } => {
            assert_eq!(claims_of(&token, SECRET)["iat"], serde_json::Value::from(42));
        }
        other => panic!("unexpected {:?}", other),
    }
}
