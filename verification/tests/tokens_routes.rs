use mongodb::bson::oid::ObjectId;
use rustplatform::model::{Args, Claim, ResponseBody, Role, UserRecord};
use rustplatform::routes::{create_collection, create_user, create_user_step, get_token, SignupAction, SignupEvent, SignupState};
use rustplatform::tokens::{refresh_access_token, refresh_step, RefreshAction, RefreshEvent, RefreshState};
use serde_json::Value;

fn s(x: &str) -> String {
    x.to_string()
}

#[test]
fn refresh_validates_then_issues_tokens() {
    let (st, a) = refresh_access_token::<u32, String, String>(Args::new(s("refresh-token")));
    assert_eq!(a, RefreshAction::ValidateRefreshToken { token: s("refresh-token") });
    let (st, a) = refresh_step(st, RefreshEvent::<u32, String, String>::Validated(7u32));
    assert_eq!(a, RefreshAction::CreateTokens { claims: 7u32 });
    let (st, a) = refresh_step(st, RefreshEvent::<u32, String, String>::Created(s("tokens")));
    assert_eq!(a, RefreshAction::Finish(Ok(s("tokens"))));
    assert_eq!(st, RefreshState::Done);
}

#[test]
fn refresh_with_invalid_token_fails() {
    let (st, _) = refresh_access_token::<u32, String, String>(Args::new(s("expired")));
    let (st, a) = refresh_step(st, RefreshEvent::<u32, String, String>::Failed(s("expired token")));
    assert_eq!(a, RefreshAction::Finish(Err(s("expired token"))));
    assert_eq!(st, RefreshState::Done);
}

#[test]
fn get_token_wraps_token_or_error() {
    assert_eq!(get_token(Ok(s("abc"))), Ok(ResponseBody::Token(s("abc"))));
    assert_eq!(get_token(Err(s("bad key"))), Err(ResponseBody::Error(s("bad key"))));
}

#[test]
fn create_collection_reports_insert() {
    assert_eq!(create_collection(Ok(s("42"))), "Inserted document with ID: 42");
    assert_eq!(create_collection(Err(s("dup"))), "Error inserting document: dup");
}

#[test]
fn signup_inserts_then_returns_account() {
    let claim = Claim { username: s("bob"), password: s("pw") };
    let (st, a) = create_user::<u64>(claim);
    assert_eq!(a, SignupAction::HashPassword { password: s("pw") });
    let (st, a) = create_user_step(st, SignupEvent::<u64>::Hashed(s("h")));
    assert_eq!(a, SignupAction::Stamp);
    let id = ObjectId::new();
    let (st, a) = create_user_step(st, SignupEvent::<u64>::Stamped { id, now: 77 });
    assert_eq!(
        a,
        SignupAction::InsertUser {
            record: UserRecord {
                id,
                username: s("bob"),
                name: None,
                created: 77,
                role: Role::User,
                modified: None,
            },
        }
    );
    let (st, a) = create_user_step(st, SignupEvent::Inserted(9u64));
    assert_eq!(a, SignupAction::FetchUser { id: 9u64 });
    let (st, a) = create_user_step(st, SignupEvent::<u64>::Fetched(Value::String(s("bob"))));
    assert_eq!(a, SignupAction::Respond(Ok(Value::String(s("bob")))));
    assert_eq!(st, SignupState::Done);
}

#[test]
fn signup_fetch_failure_is_bad_request() {
    let claim = Claim { username: s("bob"), password: s("pw") };
    let (st, _) = create_user::<u64>(claim);
    let (st, _) = create_user_step(st, SignupEvent::<u64>::Hashed(s("h")));
    let (st, _) = create_user_step(st, SignupEvent::<u64>::Stamped { id: ObjectId::new(), now: 1 });
    let (st, _) = create_user_step(st, SignupEvent::Inserted(9u64));
    let (_, a) = create_user_step(st, SignupEvent::<u64>::FetchFailed(s("gone")));
    assert_eq!(a, SignupAction::Respond(Err(ResponseBody::Error(s("gone")))));
}
