use vstd::prelude::*;

use mongodb::bson::oid::ObjectId;
use serde_json::Value;

use crate::model::{Claim, ResponseBody, Role, UserRecord};

verus! {

/// Answer to a token request, from the outcome of signing a token for the
/// password: `{"token": token}`, or `{"error": text}` as a bad request.
pub fn get_token(signed: Result<String, String>) -> (reply: Result<ResponseBody, ResponseBody>)
    ensures
        signed matches Ok(t) ==> reply == Ok::<ResponseBody, ResponseBody>(ResponseBody::Token(t)),
        signed matches Err(m) ==> reply == Err::<ResponseBody, ResponseBody>(ResponseBody::Error(m)),
{
    match signed {
        Ok(token) => Ok(ResponseBody::Token(token)),
        Err(err) => Err(ResponseBody::Error(err)),
    }
}

/// Answer to a request that stores a collection descriptor, from the outcome
/// of the insert: the inserted id's text, or the error's text.
pub fn create_collection(inserted: Result<String, String>) -> (reply: String)
    ensures
        inserted matches Ok(id) ==> reply@ == "Inserted document with ID: "@ + id@,
        inserted matches Err(err) ==> reply@ == "Error inserting document: "@ + err@,
{
    match inserted {
        Ok(id) => {
            let mut reply = String::from_str("Inserted document with ID: ");
            reply.append(id.as_str());
            reply
        },
        Err(err) => {
            let mut reply = String::from_str("Error inserting document: ");
            reply.append(err.as_str());
            reply
        },
    }
}

/// A newly signed-up user: the given id, username and creation time, no
/// display name, the user role, not modified.
pub open spec fn fresh_user(id: ObjectId, username: String, now: i64) -> UserRecord {
    UserRecord { id, username, name: None, created: now, role: Role::User, modified: None }
}

/// Where a sign-up stands.
#[derive(Debug, PartialEq, Eq)]
pub enum SignupState {
    /// Waiting for the hash of the password.
    AwaitHash { username: String },
    /// Waiting for a fresh id and the time, for the account record.
    AwaitStamp { username: String },
    /// Waiting for the new account to be inserted.
    AwaitInsert,
    /// Waiting for the inserted account to be read back.
    AwaitFetch,
    Done,
}

/// What the caller must do next.
#[derive(Debug, PartialEq)]
pub enum SignupAction<I> {
    /// Hash `password`.
    HashPassword { password: String },
    /// Make a fresh object id and read the clock.
    Stamp,
    /// Insert `record` into the users collection.
    InsertUser { record: UserRecord },
    /// Read the account whose id is `id`, as JSON.
    FetchUser { id: I },
    /// Answer: the account, or `{"error": text}` as a bad request.
    Respond(Result<Value, ResponseBody>),
}

/// The outcome of the last action.
#[derive(Debug, PartialEq)]
pub enum SignupEvent<I> {
    Hashed(String),
    /// The fresh id and the time (milliseconds since the Unix epoch) of `Stamp`.
    Stamped { id: ObjectId, now: i64 },
    /// The id under which the account was inserted.
    Inserted(I),
    Fetched(Value),
    /// Reading the account back failed; the error's text.
    FetchFailed(String),
}

pub open spec fn signup_event_fits<I>(s: SignupState, e: SignupEvent<I>) -> bool {
    match s {
        SignupState::AwaitHash { .. } => e is Hashed,
        SignupState::AwaitStamp { .. } => e is Stamped,
        SignupState::AwaitInsert => e is Inserted,
        SignupState::AwaitFetch => e is Fetched || e is FetchFailed,
        SignupState::Done => false,
    }
}

pub open spec fn signup_transition<I>(
    s: SignupState,
    e: SignupEvent<I>,
    next: SignupState,
    act: SignupAction<I>,
) -> bool {
    match (s, e) {
        (SignupState::AwaitHash { username }, SignupEvent::Hashed(_)) => {
            &&& next == SignupState::AwaitStamp { username }
            &&& act == SignupAction::<I>::Stamp
        },
        (SignupState::AwaitStamp { username }, SignupEvent::Stamped { id, now }) => {
            &&& next == SignupState::AwaitInsert
            &&& act == SignupAction::<I>::InsertUser { record: fresh_user(id, username, now) }
        },
        (SignupState::AwaitInsert, SignupEvent::Inserted(id)) => {
            &&& next == SignupState::AwaitFetch
            &&& act == SignupAction::<I>::FetchUser { id }
        },
        (SignupState::AwaitFetch, SignupEvent::Fetched(j)) => {
            &&& next == SignupState::Done
            &&& act == SignupAction::<I>::Respond(Ok(j))
        },
        (SignupState::AwaitFetch, SignupEvent::FetchFailed(m)) => {
            &&& next == SignupState::Done
            &&& act == SignupAction::<I>::Respond(Err(ResponseBody::Error(m)))
        },
        _ => false,
    }
}

/// Signs a user up: the first action hashes the password.
pub fn create_user<I>(claim: Claim) -> (res: (SignupState, SignupAction<I>))
    ensures
        res.0 == (SignupState::AwaitHash { username: claim.username }),
        res.1 == (SignupAction::<I>::HashPassword { password: claim.password }),
{
    (SignupState::AwaitHash { username: claim.username }, SignupAction::HashPassword { password: claim.password })
}

/// Advances a sign-up by the outcome of its last action.
pub fn create_user_step<I>(s: SignupState, e: SignupEvent<I>) -> (res: (SignupState, SignupAction<I>))
    requires
        signup_event_fits(s, e),
    ensures
        signup_transition(s, e, res.0, res.1),
{
    match (s, e) {
        (SignupState::AwaitHash { username }, SignupEvent::Hashed(_)) => (
            SignupState::AwaitStamp { username },
            SignupAction::Stamp,
        ),
        (SignupState::AwaitStamp { username }, SignupEvent::Stamped { id, now }) => (
            SignupState::AwaitInsert,
            SignupAction::InsertUser {
                record: UserRecord {
                    id,
                    username,
                    name: None,
                    created: now,
                    role: Role::User,
                    modified: None,
                },
            },
        ),
        (SignupState::AwaitInsert, SignupEvent::Inserted(id)) => (
            SignupState::AwaitFetch,
            SignupAction::FetchUser { id },
        ),
        (SignupState::AwaitFetch, SignupEvent::Fetched(j)) => (
            SignupState::Done,
            SignupAction::Respond(Ok(j)),
        ),
        (SignupState::AwaitFetch, SignupEvent::FetchFailed(m)) => (
            SignupState::Done,
            SignupAction::Respond(Err(ResponseBody::Error(m))),
        ),
        _ => {
            proof {
                assert(false);
            }
            unreached()
        },
    }
}

/// The account inserted by a sign-up is a fresh user record with the
/// requested username (no display name, not modified, no password); the
/// account read back is the one just inserted, and a sign-up answers with
/// success only with that account.
pub proof fn lemma_signup_fetches_inserted<I>(
    s: SignupState,
    e: SignupEvent<I>,
    next: SignupState,
    act: SignupAction<I>,
)
    requires
        signup_transition(s, e, next, act),
    ensures
        act matches SignupAction::InsertUser { record } ==> (s matches SignupState::AwaitStamp { username } && e matches SignupEvent::Stamped { id, now } && record == fresh_user(id, username, now)),
        next matches SignupState::AwaitStamp { username } ==> s == (SignupState::AwaitHash { username }),
        act matches SignupAction::FetchUser { id } ==> (s == SignupState::AwaitInsert && e
            == SignupEvent::<I>::Inserted(id)),
        act matches SignupAction::Respond(Ok(j)) ==> (s == SignupState::AwaitFetch && e
            == SignupEvent::<I>::Fetched(j)),
        next == SignupState::Done <==> act is Respond,
{
}

/// What every outcome of a sign-up leads to: the inserted account has
/// exactly the requested username, the fresh id and the time of the stamp,
/// the user role, no display name and no modification time; the account is
/// read back by the id it was inserted under; a read account is the
/// successful answer and a failed read is answered with its error text.
pub proof fn lemma_signup_answers<I>(
    s: SignupState,
    e: SignupEvent<I>,
    next: SignupState,
    act: SignupAction<I>,
)
    requires
        signup_transition(s, e, next, act),
    ensures
        s matches SignupState::AwaitHash { username } ==> (e is Hashed ==> (next
            == SignupState::AwaitStamp { username } && act == SignupAction::<I>::Stamp)),
        s matches SignupState::AwaitStamp { username } ==> (e matches SignupEvent::Stamped { id, now } ==> {
            &&& next == SignupState::AwaitInsert
            &&& act matches SignupAction::InsertUser { record }
            &&& record.id == id
            &&& record.username == username
            &&& record.created == now
            &&& record.name is None
            &&& record.role == Role::User
            &&& record.modified is None
        }),
        s == SignupState::AwaitInsert ==> (e matches SignupEvent::Inserted(id) ==> (next
            == SignupState::AwaitFetch && act == SignupAction::<I>::FetchUser { id })),
        s == SignupState::AwaitFetch ==> (e matches SignupEvent::Fetched(j) ==> (next
            == SignupState::Done && act == SignupAction::<I>::Respond(Ok(j)))),
        s == SignupState::AwaitFetch ==> (e matches SignupEvent::FetchFailed(m) ==> (next
            == SignupState::Done && act == SignupAction::<I>::Respond(Err(ResponseBody::Error(m))))),
{
}

} // verus!
