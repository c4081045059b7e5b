use mongodb::bson::oid::ObjectId;
use rustplatform::accounts::{
    account_step, create_admin, create_first_admin, create_user, error_parser, AccountAction,
    AccountEvent, AccountState, DbFailure, WriteFailure,
};
use rustplatform::model::{
    AccountRecord, AdminRecord, ApiResponse, Claim, ResponseBody, Role, SecretRecord, UserRecord,
    BAD_REQUEST,
};
use serde_json::Value;

fn claim(username: &str, password: &str) -> Claim {
    Claim { username: username.to_string(), password: password.to_string() }
}

fn text(s: &str) -> Value {
    Value::String(s.to_string())
}

fn stamp() -> AccountEvent {
    AccountEvent::Stamped { id: ObjectId::new(), now: 1 }
}

fn refusal(body: ResponseBody) -> AccountAction {
    AccountAction::Respond(Err(ApiResponse { json: body, status: BAD_REQUEST }))
}

#[test]
fn create_user_registers_hashes_and_returns_account() {
    let id = ObjectId::new();
    let record_id = ObjectId::new();
    let secret_id = ObjectId::new();
    let (s, a) = create_user(claim("bob", "secret"));
    assert_eq!(a, AccountAction::HashPassword { password: "secret".to_string() });
    let (s, a) = account_step(s, AccountEvent::Hashed("H1".to_string()));
    assert_eq!(a, AccountAction::Stamp);
    let (s, a) = account_step(s, AccountEvent::Stamped { id: record_id, now: 1_700_000_000_000 });
    assert_eq!(
        a,
        AccountAction::UpsertAccount {
            collection: "users".to_string(),
            username: "bob".to_string(),
            record: AccountRecord::User(UserRecord {
                id: record_id,
                username: "bob".to_string(),
                name: None,
                created: 1_700_000_000_000,
                role: Role::User,
                modified: None,
            }),
        }
    );
    let (s, a) = account_step(s, AccountEvent::Upserted(Some(id)));
    assert_eq!(a, AccountAction::Stamp);
    let (s, a) = account_step(s, AccountEvent::Stamped { id: secret_id, now: 1_700_000_000_005 });
    assert_eq!(
        a,
        AccountAction::InsertSecret {
            secret: SecretRecord {
                id: secret_id,
                user_id: id,
                created: 1_700_000_000_005,
                modified: None,
                hash: "H1".to_string(),
            },
        }
    );
    let (s, a) = account_step(s, AccountEvent::SecretInserted);
    assert_eq!(a, AccountAction::FetchAccount { collection: "users".to_string(), user_id: id });
    let (s, a) = account_step(s, AccountEvent::Fetched(text("bob's account")));
    assert_eq!(a, AccountAction::Respond(Ok(text("bob's account"))));
    assert_eq!(s, AccountState::Done);
}

#[test]
fn create_user_refuses_existing_username() {
    let (s, _) = create_user(claim("bob", "secret"));
    let (s, _) = account_step(s, AccountEvent::Hashed("H1".to_string()));
    let (s, _) = account_step(s, stamp());
    let (s, a) = account_step(s, AccountEvent::Upserted(None));
    assert_eq!(a, refusal(ResponseBody::Messsage("user already exist".to_string())));
    assert_eq!(s, AccountState::Done);
}

#[test]
fn create_admin_uses_admin_collection() {
    let id = ObjectId::new();
    let record_id = ObjectId::new();
    let (s, a) = create_admin(claim("root", "pw"));
    assert_eq!(a, AccountAction::HashPassword { password: "pw".to_string() });
    let (s, _) = account_step(s, AccountEvent::Hashed("H2".to_string()));
    let (s, a) = account_step(s, AccountEvent::Stamped { id: record_id, now: 42 });
    assert_eq!(
        a,
        AccountAction::UpsertAccount {
            collection: "admins".to_string(),
            username: "root".to_string(),
            record: AccountRecord::Admin(AdminRecord {
                id: record_id,
                username: "root".to_string(),
                name: None,
                created: 42,
                modified: None,
            }),
        }
    );
    let (s, _) = account_step(s, AccountEvent::Upserted(Some(id)));
    let (s, _) = account_step(s, stamp());
    let (_, a) = account_step(s, AccountEvent::SecretInserted);
    assert_eq!(a, AccountAction::FetchAccount { collection: "admins".to_string(), user_id: id });
}

#[test]
fn first_admin_registered_when_no_admin_exists() {
    let (s, a) = create_first_admin(claim("root", "pw"));
    assert_eq!(a, AccountAction::CountAccounts { collection: "admins".to_string(), limit: 1 });
    let (s, a) = account_step(s, AccountEvent::Counted(0));
    assert_eq!(a, AccountAction::HashPassword { password: "pw".to_string() });
    assert_eq!(s, AccountState::AwaitHash { role: Role::Admin, claim: claim("root", "pw") });
}

#[test]
fn first_admin_refused_when_admin_exists() {
    let (s, _) = create_first_admin(claim("root", "pw"));
    let (s, a) = account_step(s, AccountEvent::Counted(1));
    assert_eq!(a, refusal(ResponseBody::Messsage("admin exists".to_string())));
    assert_eq!(s, AccountState::Done);
}

#[test]
fn first_admin_count_failure_reported() {
    let (s, _) = create_first_admin(claim("root", "pw"));
    let (_, a) = account_step(s, AccountEvent::CountFailed("connection refused".to_string()));
    assert_eq!(a, refusal(ResponseBody::Messsage("connection refused".to_string())));
}

#[test]
fn upsert_failure_reported_as_json() {
    let (s, _) = create_user(claim("bob", "secret"));
    let (s, _) = account_step(s, AccountEvent::Hashed("H".to_string()));
    let (s, _) = account_step(s, stamp());
    let failure = DbFailure::Write(WriteFailure::WriteError(text("duplicate key")));
    let (s, a) = account_step(s, AccountEvent::Failed(failure));
    assert_eq!(a, refusal(ResponseBody::Json(text("duplicate key"))));
    assert_eq!(s, AccountState::Done);
}

#[test]
fn secret_failure_reported_as_json() {
    let id = ObjectId::new();
    let (s, _) = create_user(claim("bob", "secret"));
    let (s, _) = account_step(s, AccountEvent::Hashed("H".to_string()));
    let (s, _) = account_step(s, stamp());
    let (s, _) = account_step(s, AccountEvent::Upserted(Some(id)));
    let (s, _) = account_step(s, stamp());
    let failure = DbFailure::Write(WriteFailure::WriteConcernError(text("no quorum")));
    let (_, a) = account_step(s, AccountEvent::Failed(failure));
    assert_eq!(a, refusal(ResponseBody::Json(text("no quorum"))));
}

#[test]
fn fetch_failure_reported_as_json() {
    let id = ObjectId::new();
    let (s, _) = create_admin(claim("root", "pw"));
    let (s, _) = account_step(s, AccountEvent::Hashed("H".to_string()));
    let (s, _) = account_step(s, stamp());
    let (s, _) = account_step(s, AccountEvent::Upserted(Some(id)));
    let (s, _) = account_step(s, stamp());
    let (s, _) = account_step(s, AccountEvent::SecretInserted);
    let failure = DbFailure::Write(WriteFailure::Other(text("other")));
    let (_, a) = account_step(s, AccountEvent::Failed(failure));
    assert_eq!(a, refusal(ResponseBody::Json(text("other"))));
}

#[test]
fn error_parser_returns_the_carried_json() {
    assert_eq!(
        error_parser(DbFailure::Write(WriteFailure::WriteConcernError(text("a")))),
        text("a")
    );
    assert_eq!(error_parser(DbFailure::Write(WriteFailure::WriteError(text("b")))), text("b"));
    assert_eq!(error_parser(DbFailure::Write(WriteFailure::Other(text("c")))), text("c"));
}
