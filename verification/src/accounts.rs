use vstd::prelude::*;

use mongodb::bson::oid::ObjectId;
use serde_json::Value;

use crate::model::{
    collection_of_role, fresh_account, fresh_secret, is_json_refusal, is_messsage_refusal,
    json_refusal, messsage_refusal, new_account_record, new_secret_record, role_collection,
    AccountRecord, AdminRecord, ApiResponse, Claim, ResponseBody, Role, SecretRecord, UserRecord,
    BAD_REQUEST,
};

verus! {

/// How a failed database write is reported.
#[derive(Debug, PartialEq)]
pub enum WriteFailure {
    /// The write concern could not be satisfied; carries that error as JSON.
    WriteConcernError(Value),
    /// The write itself failed; carries that error as JSON.
    WriteError(Value),
    /// Any other write failure; carries the failure as JSON.
    Other(Value),
}

/// A failed database call.
#[derive(Debug, PartialEq)]
pub enum DbFailure {
    Write(WriteFailure),
    /// A failure that is not a write failure.
    Other,
}

/// The JSON reported for a write failure: the error it carries.
pub open spec fn write_failure_json(f: WriteFailure) -> Value {
    match f {
        WriteFailure::WriteConcernError(j) => j,
        WriteFailure::WriteError(j) => j,
        WriteFailure::Other(j) => j,
    }
}

/// A failure that `error_parser` can report.
pub open spec fn is_reportable(f: DbFailure) -> bool {
    f is Write
}

/// The JSON body of a refusal caused by a failed database write.
pub fn error_parser(err: DbFailure) -> (json: Value)
    requires
        is_reportable(err),
    ensures
        err matches DbFailure::Write(w) && json == write_failure_json(w),
{
    match err {
        DbFailure::Write(w) => match w {
            WriteFailure::WriteConcernError(f) => f,
            WriteFailure::WriteError(f) => f,
            WriteFailure::Other(f) => f,
        },
        DbFailure::Other => {
            proof {
                assert(false);
            }
            unreached()
        },
    }
}

/// Where a registration stands.
#[derive(Debug, PartialEq)]
pub enum AccountState {
    /// Waiting for the number of existing admins (first admin only).
    AwaitCount { claim: Claim },
    /// Waiting for the hash of the claim's password.
    AwaitHash { role: Role, claim: Claim },
    /// Waiting for a fresh id and the time, for the account record.
    AwaitAccountStamp { role: Role, username: String, hash: String },
    /// Waiting for the insert-if-absent of the account keyed by username.
    AwaitUpsert { role: Role, hash: String },
    /// Waiting for a fresh id and the time, for the secret record.
    AwaitSecretStamp { role: Role, user_id: ObjectId, hash: String },
    /// Waiting for the password secret of the new account to be stored.
    AwaitSecret { role: Role, user_id: ObjectId },
    /// Waiting for the stored account to be read back.
    AwaitFetch { role: Role, user_id: ObjectId },
    /// The response has been given.
    Done,
}

/// What the caller must do next.
#[derive(Debug, PartialEq)]
pub enum AccountAction {
    /// Count the documents of `collection`, counting at most `limit`.
    CountAccounts { collection: String, limit: u64 },
    /// Hash `password`.
    HashPassword { password: String },
    /// Make a fresh object id and read the clock.
    Stamp,
    /// Upsert into `collection` with the filter `{"username": username}` and
    /// the update `{"$setOnInsert": record}`: the record is stored only when
    /// no account has that username.
    UpsertAccount { collection: String, username: String, record: AccountRecord },
    /// Insert `secret` into the secrets collection.
    InsertSecret { secret: SecretRecord },
    /// Read the account `user_id` from `collection`, as JSON.
    FetchAccount { collection: String, user_id: ObjectId },
    /// Answer the request.
    Respond(Result<Value, ApiResponse>),
}

/// The outcome of the last action.
#[derive(Debug, PartialEq)]
pub enum AccountEvent {
    /// The count of `CountAccounts`.
    Counted(u64),
    /// `CountAccounts` failed; the error's text.
    CountFailed(String),
    /// The hash of `HashPassword`.
    Hashed(String),
    /// The fresh id and the time (milliseconds since the Unix epoch) of `Stamp`.
    Stamped { id: ObjectId, now: i64 },
    /// `UpsertAccount` succeeded; the id of the inserted account, or `None`
    /// when an account with that username already existed.
    Upserted(Option<ObjectId>),
    /// `InsertSecret` succeeded.
    SecretInserted,
    /// `FetchAccount` succeeded; the account as JSON.
    Fetched(Value),
    /// A database call failed.
    Failed(DbFailure),
}

/// The events the caller can report in a state.
pub open spec fn account_event_fits(s: AccountState, e: AccountEvent) -> bool {
    match s {
        AccountState::AwaitCount { .. } => e is Counted || e is CountFailed,
        AccountState::AwaitHash { .. } => e is Hashed,
        AccountState::AwaitAccountStamp { .. } => e is Stamped,
        AccountState::AwaitUpsert { .. } => e is Upserted || (e matches AccountEvent::Failed(f)
            && is_reportable(f)),
        AccountState::AwaitSecretStamp { .. } => e is Stamped,
        AccountState::AwaitSecret { .. } => e is SecretInserted || (e matches AccountEvent::Failed(
            f,
        ) && is_reportable(f)),
        AccountState::AwaitFetch { .. } => e is Fetched || (e matches AccountEvent::Failed(f)
            && is_reportable(f)),
        AccountState::Done => false,
    }
}

/// `act` answers with the refusal made of the write failure in `e`.
pub open spec fn responds_with_failure(e: AccountEvent, act: AccountAction) -> bool {
    e matches AccountEvent::Failed(DbFailure::Write(w)) && act matches AccountAction::Respond(
        Err(r),
    ) && is_json_refusal(r, write_failure_json(w))
}

/// One step of a registration: from state `s` and outcome `e` to state
/// `next` and action `act`.
pub open spec fn account_transition(
    s: AccountState,
    e: AccountEvent,
    next: AccountState,
    act: AccountAction,
) -> bool {
    match s {
        AccountState::AwaitCount { claim } => match e {
            AccountEvent::Counted(n) => if n == 0 {
                &&& next == AccountState::AwaitHash { role: Role::Admin, claim }
                &&& act == AccountAction::HashPassword { password: claim.password }
            } else {
                &&& next == AccountState::Done
                &&& act matches AccountAction::Respond(Err(r)) && is_messsage_refusal(
                    r,
                    "admin exists"@,
                )
            },
            AccountEvent::CountFailed(text) => {
                &&& next == AccountState::Done
                &&& act matches AccountAction::Respond(Err(r)) && is_messsage_refusal(r, text@)
            },
            _ => false,
        },
        AccountState::AwaitHash { role, claim } => match e {
            AccountEvent::Hashed(hash) => {
                &&& next == AccountState::AwaitAccountStamp { role, username: claim.username, hash }
                &&& act == AccountAction::Stamp
            },
            _ => false,
        },
        AccountState::AwaitAccountStamp { role, username, hash } => match e {
            AccountEvent::Stamped { id, now } => {
                &&& next == AccountState::AwaitUpsert { role, hash }
                &&& act matches AccountAction::UpsertAccount { collection, username: u, record }
                    && collection@ == role_collection(role) && u == username && record
                    == fresh_account(role, id, username, now)
            },
            _ => false,
        },
        AccountState::AwaitUpsert { role, hash } => match e {
            AccountEvent::Upserted(Some(user_id)) => {
                &&& next == AccountState::AwaitSecretStamp { role, user_id, hash }
                &&& act == AccountAction::Stamp
            },
            AccountEvent::Upserted(None) => {
                &&& next == AccountState::Done
                &&& act matches AccountAction::Respond(Err(r)) && is_messsage_refusal(
                    r,
                    "user already exist"@,
                )
            },
            _ => next == AccountState::Done && responds_with_failure(e, act),
        },
        AccountState::AwaitSecretStamp { role, user_id, hash } => match e {
            AccountEvent::Stamped { id, now } => {
                &&& next == AccountState::AwaitSecret { role, user_id }
                &&& act == AccountAction::InsertSecret { secret: fresh_secret(id, user_id, now, hash) }
            },
            _ => false,
        },
        AccountState::AwaitSecret { role, user_id } => match e {
            AccountEvent::SecretInserted => {
                &&& next == AccountState::AwaitFetch { role, user_id }
                &&& act matches AccountAction::FetchAccount { collection, user_id: id }
                    && collection@ == role_collection(role) && id == user_id
            },
            _ => next == AccountState::Done && responds_with_failure(e, act),
        },
        AccountState::AwaitFetch { .. } => match e {
            AccountEvent::Fetched(j) => {
                &&& next == AccountState::Done
                &&& act == AccountAction::Respond(Ok(j))
            },
            _ => next == AccountState::Done && responds_with_failure(e, act),
        },
        AccountState::Done => false,
    }
}

/// Registers an account of role `user`: the first action hashes the password.
pub fn create_user(claim: Claim) -> (res: (AccountState, AccountAction))
    ensures
        res.1 == (AccountAction::HashPassword { password: claim.password }),
        res.0 == (AccountState::AwaitHash { role: Role::User, claim }),
{
    let password = claim.password.clone();
    (AccountState::AwaitHash { role: Role::User, claim }, AccountAction::HashPassword { password })
}

/// Registers an account of role `admin`: the first action hashes the password.
pub fn create_admin(claim: Claim) -> (res: (AccountState, AccountAction))
    ensures
        res.1 == (AccountAction::HashPassword { password: claim.password }),
        res.0 == (AccountState::AwaitHash { role: Role::Admin, claim }),
{
    let password = claim.password.clone();
    (AccountState::AwaitHash { role: Role::Admin, claim }, AccountAction::HashPassword { password })
}

/// Registers the first admin: the first action counts the existing admins
/// (at most one), and the admin is only registered when there is none.
pub fn create_first_admin(claim: Claim) -> (res: (AccountState, AccountAction))
    ensures
        res.0 == (AccountState::AwaitCount { claim }),
        res.1 matches AccountAction::CountAccounts { collection, limit } && collection@
            == role_collection(Role::Admin) && limit == 1,
{
    (
        AccountState::AwaitCount { claim },
        AccountAction::CountAccounts { collection: collection_of_role(Role::Admin), limit: 1 },
    )
}

fn failure_response(f: DbFailure) -> (act: AccountAction)
    requires
        is_reportable(f),
    ensures
        responds_with_failure(AccountEvent::Failed(f), act),
{
    AccountAction::Respond(Err(json_refusal(error_parser(f))))
}

/// Advances a registration by the outcome of its last action.
pub fn account_step(s: AccountState, e: AccountEvent) -> (res: (AccountState, AccountAction))
    requires
        account_event_fits(s, e),
    ensures
        account_transition(s, e, res.0, res.1),
{
    match s {
        AccountState::AwaitCount { claim } => match e {
            AccountEvent::Counted(n) => {
                if n == 0 {
                    let password = claim.password.clone();
                    (
                        AccountState::AwaitHash { role: Role::Admin, claim },
                        AccountAction::HashPassword { password },
                    )
                } else {
                    (
                        AccountState::Done,
                        AccountAction::Respond(
                            Err(messsage_refusal(String::from_str("admin exists"))),
                        ),
                    )
                }
            },
            AccountEvent::CountFailed(text) => (
                AccountState::Done,
                AccountAction::Respond(Err(messsage_refusal(text))),
            ),
            _ => {
                proof {
                    assert(false);
                }
                unreached()
            },
        },
        AccountState::AwaitHash { role, claim } => match e {
            AccountEvent::Hashed(hash) => (
                AccountState::AwaitAccountStamp { role, username: claim.username, hash },
                AccountAction::Stamp,
            ),
            _ => {
                proof {
                    assert(false);
                }
                unreached()
            },
        },
        AccountState::AwaitAccountStamp { role, username, hash } => match e {
            AccountEvent::Stamped { id, now } => {
                let record = new_account_record(role, id, username.clone(), now);
                (
                    AccountState::AwaitUpsert { role, hash },
                    AccountAction::UpsertAccount {
                        collection: collection_of_role(role),
                        username,
                        record,
                    },
                )
            },
            _ => {
                proof {
                    assert(false);
                }
                unreached()
            },
        },
        AccountState::AwaitUpsert { role, hash } => match e {
            AccountEvent::Upserted(Some(user_id)) => (
                AccountState::AwaitSecretStamp { role, user_id, hash },
                AccountAction::Stamp,
            ),
            AccountEvent::Upserted(None) => (
                AccountState::Done,
                AccountAction::Respond(
                    Err(messsage_refusal(String::from_str("user already exist"))),
                ),
            ),
            AccountEvent::Failed(f) => (AccountState::Done, failure_response(f)),
            _ => {
                proof {
                    assert(false);
                }
                unreached()
            },
        },
        AccountState::AwaitSecretStamp { role, user_id, hash } => match e {
            AccountEvent::Stamped { id, now } => (
                AccountState::AwaitSecret { role, user_id },
                AccountAction::InsertSecret { secret: new_secret_record(id, user_id, now, hash) },
            ),
            _ => {
                proof {
                    assert(false);
                }
                unreached()
            },
        },
        AccountState::AwaitSecret { role, user_id } => match e {
            AccountEvent::SecretInserted => (
                AccountState::AwaitFetch { role, user_id },
                AccountAction::FetchAccount { collection: collection_of_role(role), user_id },
            ),
            AccountEvent::Failed(f) => (AccountState::Done, failure_response(f)),
            _ => {
                proof {
                    assert(false);
                }
                unreached()
            },
        },
        AccountState::AwaitFetch { .. } => match e {
            AccountEvent::Fetched(j) => (AccountState::Done, AccountAction::Respond(Ok(j))),
            AccountEvent::Failed(f) => (AccountState::Done, failure_response(f)),
            _ => {
                proof {
                    assert(false);
                }
                unreached()
            },
        },
        AccountState::Done => {
            proof {
                assert(false);
            }
            unreached()
        },
    }
}

/// The role a registration in progress is for.
pub open spec fn account_role(s: AccountState) -> Option<Role> {
    match s {
        AccountState::AwaitCount { .. } => Some(Role::Admin),
        AccountState::AwaitHash { role, .. } => Some(role),
        AccountState::AwaitAccountStamp { role, .. } => Some(role),
        AccountState::AwaitUpsert { role, .. } => Some(role),
        AccountState::AwaitSecretStamp { role, .. } => Some(role),
        AccountState::AwaitSecret { role, .. } => Some(role),
        AccountState::AwaitFetch { role, .. } => Some(role),
        AccountState::Done => None,
    }
}

/// The hash a registration in progress carries.
pub open spec fn account_hash(s: AccountState) -> Option<String> {
    match s {
        AccountState::AwaitAccountStamp { hash, .. } => Some(hash),
        AccountState::AwaitUpsert { hash, .. } => Some(hash),
        AccountState::AwaitSecretStamp { hash, .. } => Some(hash),
        _ => None,
    }
}

/// A password secret is only stored for the account that the upsert has just
/// inserted, and it holds the hash that was computed for the claim's
/// password: the hash is received once, from hashing, and carried unchanged
/// until the secret is built from it.
pub proof fn lemma_secret_only_for_new_account(
    s: AccountState,
    e: AccountEvent,
    next: AccountState,
    act: AccountAction,
)
    requires
        account_transition(s, e, next, act),
    ensures
        act matches AccountAction::InsertSecret { secret } ==> (s matches AccountState::AwaitSecretStamp { user_id, hash, .. } && secret.user_id == user_id && secret.hash == hash
            && secret.modified is None),
        next matches AccountState::AwaitSecretStamp { user_id, hash, .. } ==> (s is AwaitUpsert
            && account_hash(s) == Some(hash) && e == AccountEvent::Upserted(Some(user_id))),
        account_hash(next) is Some ==> (account_hash(s) == account_hash(next) || (s is AwaitHash
            && e == AccountEvent::Hashed(account_hash(next).unwrap()))),
{
}

/// The account stored by a registration is a fresh record of the
/// registration's role: the claimed username, no display name, not modified,
/// and (for a user) the user role; it holds no password or hash. It is stored
/// in the role's collection, and only when no account has that username.
pub proof fn lemma_account_record_is_fresh(
    s: AccountState,
    e: AccountEvent,
    next: AccountState,
    act: AccountAction,
)
    requires
        account_transition(s, e, next, act),
    ensures
        act matches AccountAction::UpsertAccount { collection, username, record } ==> {
            &&& s matches AccountState::AwaitAccountStamp { role, username: u, .. } && u == username
                && collection@ == role_collection(role)
            &&& e matches AccountEvent::Stamped { id, now } && record == fresh_account(
                account_role(s).unwrap(),
                id,
                username,
                now,
            )
        },
        next matches AccountState::AwaitAccountStamp { username, .. } ==> (s matches AccountState::AwaitHash { claim, .. } && claim.username == username),
{
}

/// A username that already has an account is refused with
/// "user already exist", and the registration ends without storing a secret.
pub proof fn lemma_existing_username_refused(s: AccountState, next: AccountState, act: AccountAction)
    requires
        s is AwaitUpsert,
        account_transition(s, AccountEvent::Upserted(None), next, act),
    ensures
        next == AccountState::Done,
        act matches AccountAction::Respond(Err(r)) && is_messsage_refusal(r, "user already exist"@),
{
}

/// The first admin is only registered when no admin exists; otherwise the
/// request is refused.
pub proof fn lemma_first_admin_only_when_none(
    claim: Claim,
    e: AccountEvent,
    next: AccountState,
    act: AccountAction,
)
    requires
        account_transition(AccountState::AwaitCount { claim }, e, next, act),
    ensures
        next is AwaitHash <==> e == AccountEvent::Counted(0),
        !(next is AwaitHash) ==> next == AccountState::Done && act matches AccountAction::Respond(
            Err(_),
        ),
{
}

/// A registration answers with success only with the account read back
/// after its secret was stored.
pub proof fn lemma_success_only_after_fetch(
    s: AccountState,
    e: AccountEvent,
    next: AccountState,
    act: AccountAction,
)
    requires
        account_transition(s, e, next, act),
    ensures
        act matches AccountAction::Respond(Ok(j)) ==> (s is AwaitFetch && e
            == AccountEvent::Fetched(j)),
{
}

/// Every step keeps the role of the registration, and after an answer
/// nothing more happens.
pub proof fn lemma_role_kept_and_done_final(
    s: AccountState,
    e: AccountEvent,
    next: AccountState,
    act: AccountAction,
)
    requires
        account_transition(s, e, next, act),
    ensures
        next != AccountState::Done ==> account_role(next) == account_role(s),
        next == AccountState::Done <==> act is Respond,
        !account_event_fits(AccountState::Done, e),
{
}

/// The JSON reported for a write failure is the error it carries, for every
/// kind of write failure.
pub proof fn lemma_write_failure_json(j: Value)
    ensures
        write_failure_json(WriteFailure::WriteConcernError(j)) == j,
        write_failure_json(WriteFailure::WriteError(j)) == j,
        write_failure_json(WriteFailure::Other(j)) == j,
{
}

/// What every outcome of a registration leads to, for every role: the
/// admin count gates the first admin; the hash, the fresh id and the time
/// go into the stored records unchanged; a fetched account is always the
/// successful answer; an existing username and every failure are answered
/// as bad requests with their exact bodies.
pub proof fn lemma_registration_answers(
    s: AccountState,
    e: AccountEvent,
    next: AccountState,
    act: AccountAction,
)
    requires
        account_transition(s, e, next, act),
    ensures
        s matches AccountState::AwaitCount { claim } ==> (e == AccountEvent::Counted(0) ==> (next
            == AccountState::AwaitHash { role: Role::Admin, claim } && act
            == AccountAction::HashPassword { password: claim.password })),
        s is AwaitCount ==> (e matches AccountEvent::Counted(n) ==> (n != 0 ==> {
            &&& next == AccountState::Done
            &&& act matches AccountAction::Respond(Err(r))
            &&& r.status == BAD_REQUEST
            &&& r.json matches ResponseBody::Messsage(m)
            &&& m@ == "admin exists"@
        })),
        s is AwaitCount ==> (e matches AccountEvent::CountFailed(t) ==> {
            &&& next == AccountState::Done
            &&& act matches AccountAction::Respond(Err(r))
            &&& r.status == BAD_REQUEST
            &&& r.json matches ResponseBody::Messsage(m)
            &&& m@ == t@
        }),
        s matches AccountState::AwaitHash { role, claim } ==> (e matches AccountEvent::Hashed(h)
            ==> (next == AccountState::AwaitAccountStamp { role, username: claim.username, hash: h }
            && act == AccountAction::Stamp)),
        s matches AccountState::AwaitAccountStamp { role, username, hash } ==> (e matches AccountEvent::Stamped { id, now } ==> {
            &&& next == AccountState::AwaitUpsert { role, hash }
            &&& act matches AccountAction::UpsertAccount { collection, username: u, record }
            &&& act->UpsertAccount_collection@ == role_collection(role)
            &&& act->UpsertAccount_username == username
            &&& role == Role::User ==> act->UpsertAccount_record == AccountRecord::User(
                (UserRecord { id, username, name: None, created: now, role: Role::User, modified: None }),
            )
            &&& role == Role::Admin ==> act->UpsertAccount_record == AccountRecord::Admin(
                (AdminRecord { id, username, name: None, created: now, modified: None }),
            )
        }),
        s matches AccountState::AwaitUpsert { role, hash } ==> (e matches AccountEvent::Upserted(Some(user_id)) ==> (next == AccountState::AwaitSecretStamp { role, user_id, hash } && act
            == AccountAction::Stamp)),
        s is AwaitUpsert ==> (e == AccountEvent::Upserted(None) ==> {
            &&& next == AccountState::Done
            &&& act matches AccountAction::Respond(Err(r))
            &&& r.status == BAD_REQUEST
            &&& r.json matches ResponseBody::Messsage(m)
            &&& m@ == "user already exist"@
        }),
        s matches AccountState::AwaitSecretStamp { role, user_id, hash } ==> (e matches AccountEvent::Stamped { id, now } ==> (next == AccountState::AwaitSecret { role, user_id } && act
            == AccountAction::InsertSecret {
            secret: (SecretRecord { id, user_id, created: now, modified: None, hash }),
        })),
        s matches AccountState::AwaitSecret { role, user_id } ==> (e == AccountEvent::SecretInserted
            ==> {
            &&& next == AccountState::AwaitFetch { role, user_id }
            &&& act matches AccountAction::FetchAccount { collection, user_id: id }
            &&& collection@ == role_collection(role)
            &&& id == user_id
        }),
        s is AwaitFetch ==> (e matches AccountEvent::Fetched(j) ==> (next == AccountState::Done
            && act == AccountAction::Respond(Ok(j)))),
        e matches AccountEvent::Failed(DbFailure::Write(w)) ==> {
            &&& next == AccountState::Done
            &&& act matches AccountAction::Respond(Err(r))
            &&& r.status == BAD_REQUEST
            &&& r.json == ResponseBody::Json(write_failure_json(w))
        },
{
}

} // verus!
