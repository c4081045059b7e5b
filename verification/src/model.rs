use vstd::prelude::*;

use mongodb::bson::oid::ObjectId;
use mongodb::bson::Document;
use serde_json::Value;

verus! {

/// HTTP status of every refusal the library produces.
pub const BAD_REQUEST: u16 = 400;

/// The kind of account a request acts on.
#[derive(Clone, Copy, Debug, PartialEq, Eq, Structural)]
pub enum Role {
    User,
    Admin,
}

/// Name of the collection that stores the accounts of a role.
pub open spec fn role_collection(role: Role) -> Seq<char> {
    match role {
        Role::User => "users"@,
        Role::Admin => "admins"@,
    }
}

/// Collection that stores the accounts of `role`.
pub fn collection_of_role(role: Role) -> (name: String)
    ensures
        name@ == role_collection(role),
{
    match role {
        Role::User => String::from_str("users"),
        Role::Admin => String::from_str("admins"),
    }
}

/// Credentials sent by a client.
#[derive(Clone, Debug, PartialEq, Eq)]
pub struct Claim {
    pub username: String,
    pub password: String,
}

/// Body of a token refresh request.
#[derive(Clone, Debug, PartialEq, Eq)]
pub struct Args {
    refresh_token: String,
}

impl Args {
    pub fn new(refresh_token: String) -> (args: Args)
        ensures
            args.refresh_token() == refresh_token,
    {
        Args { refresh_token }
    }

    pub closed spec fn refresh_token(&self) -> String {
        self.refresh_token
    }

    pub fn into_refresh_token(self) -> (token: String)
        ensures
            token == self.refresh_token(),
    {
        self.refresh_token
    }
}

/// An authenticated account together with the role it was authenticated for.
#[derive(Debug, PartialEq, Eq)]
pub struct ScopeUser {
    pub user_id: ObjectId,
    pub scope: Role,
}

/// What the authentication query reports of a stored account: its id and
/// the stored password hash.
#[derive(Debug, PartialEq, Eq)]
pub struct UserHash {
    pub user_id: ObjectId,
    pub hash: String,
}

/// JSON body of a response.
#[derive(Debug, PartialEq)]
pub enum ResponseBody {
    /// `{"message": text}`
    Message(String),
    /// `{"messsage": text}` (the key some refusals have always used)
    Messsage(String),
    /// `{"token": token}`
    Token(String),
    /// `{"error": text}`
    Error(String),
    /// A JSON value produced elsewhere, passed on unchanged.
    Json(Value),
}

/// A refusal: a JSON body and an HTTP status.
#[derive(Debug, PartialEq)]
pub struct ApiResponse {
    pub json: ResponseBody,
    pub status: u16,
}

/// A bad-request refusal whose body is `{"message": text}`.
pub open spec fn is_message_refusal(r: ApiResponse, text: Seq<char>) -> bool {
    &&& r.status == BAD_REQUEST
    &&& r.json matches ResponseBody::Message(m) && m@ == text
}

/// A bad-request refusal whose body is `{"messsage": text}`.
pub open spec fn is_messsage_refusal(r: ApiResponse, text: Seq<char>) -> bool {
    &&& r.status == BAD_REQUEST
    &&& r.json matches ResponseBody::Messsage(m) && m@ == text
}

/// A bad-request refusal whose body is the JSON value `j`.
pub open spec fn is_json_refusal(r: ApiResponse, j: Value) -> bool {
    &&& r.status == BAD_REQUEST
    &&& r.json == ResponseBody::Json(j)
}

pub fn message_refusal(text: &str) -> (r: ApiResponse)
    ensures
        is_message_refusal(r, text@),
{
    ApiResponse { json: ResponseBody::Message(String::from_str(text)), status: BAD_REQUEST }
}

pub fn messsage_refusal(text: String) -> (r: ApiResponse)
    ensures
        is_messsage_refusal(r, text@),
{
    ApiResponse { json: ResponseBody::Messsage(text), status: BAD_REQUEST }
}

pub fn json_refusal(j: Value) -> (r: ApiResponse)
    ensures
        is_json_refusal(r, j),
{
    ApiResponse { json: ResponseBody::Json(j), status: BAD_REQUEST }
}

/// A stored user account. Times are milliseconds since the Unix epoch.
#[derive(Debug, PartialEq, Eq)]
pub struct UserRecord {
    pub id: ObjectId,
    pub username: String,
    pub name: Option<String>,
    pub created: i64,
    pub role: Role,
    pub modified: Option<i64>,
}

/// A stored admin account. Times are milliseconds since the Unix epoch.
#[derive(Debug, PartialEq, Eq)]
pub struct AdminRecord {
    pub id: ObjectId,
    pub username: String,
    pub name: Option<String>,
    pub created: i64,
    pub modified: Option<i64>,
}

/// A stored account of either role.
#[derive(Debug, PartialEq, Eq)]
pub enum AccountRecord {
    User(UserRecord),
    Admin(AdminRecord),
}

/// A stored password secret: the hash of an account's password.
#[derive(Debug, PartialEq, Eq)]
pub struct SecretRecord {
    pub id: ObjectId,
    pub user_id: ObjectId,
    pub created: i64,
    pub modified: Option<i64>,
    pub hash: String,
}

/// The descriptor of a user collection: its name, access rules and the JSON
/// schema its documents must satisfy.
#[derive(Debug, PartialEq)]
pub struct Descriptor {
    pub id: ObjectId,
    pub name: String,
    pub created: i64,
    pub listrule: Option<String>,
    pub viewrule: Option<String>,
    pub createrule: Option<String>,
    pub updaterule: Option<String>,
    pub deleterule: Option<String>,
    pub modified: Option<i64>,
    pub schemas: Document,
}

/// What the database does with a document that fails validation.
#[derive(Clone, Copy, Debug, PartialEq, Eq)]
pub enum ValidationAction {
    /// Refuse the write.
    Error,
    /// Accept the write and log a warning.
    Warn,
}

/// Which writes the database validates.
#[derive(Clone, Copy, Debug, PartialEq, Eq)]
pub enum ValidationLevel {
    Off,
    /// All inserts and updates.
    Strict,
    /// Inserts, and updates of documents that were valid.
    Moderate,
}

/// A newly registered account of `role`: the given id, username and creation
/// time, no display name, not modified; a user account has the user role.
pub open spec fn fresh_account(role: Role, id: ObjectId, username: String, now: i64) -> AccountRecord {
    match role {
        Role::User => AccountRecord::User(
            UserRecord { id, username, name: None, created: now, role: Role::User, modified: None },
        ),
        Role::Admin => AccountRecord::Admin(
            AdminRecord { id, username, name: None, created: now, modified: None },
        ),
    }
}

/// A newly stored secret: the given id, account, creation time and hash, not
/// modified.
pub open spec fn fresh_secret(id: ObjectId, user_id: ObjectId, now: i64, hash: String) -> SecretRecord {
    SecretRecord { id, user_id, created: now, modified: None, hash }
}

/// Builds the record of a newly registered account.
pub fn new_account_record(role: Role, id: ObjectId, username: String, now: i64) -> (record: AccountRecord)
    ensures
        record == fresh_account(role, id, username, now),
        role == Role::User ==> record == AccountRecord::User(
            (UserRecord { id, username, name: None, created: now, role: Role::User, modified: None }),
        ),
        role == Role::Admin ==> record == AccountRecord::Admin(
            (AdminRecord { id, username, name: None, created: now, modified: None }),
        ),
{
    match role {
        Role::User => AccountRecord::User(
            UserRecord { id, username, name: None, created: now, role: Role::User, modified: None },
        ),
        Role::Admin => AccountRecord::Admin(
            AdminRecord { id, username, name: None, created: now, modified: None },
        ),
    }
}

/// Builds the record of a newly stored secret.
pub fn new_secret_record(id: ObjectId, user_id: ObjectId, now: i64, hash: String) -> (record: SecretRecord)
    ensures
        record == fresh_secret(id, user_id, now, hash),
        record.id == id,
        record.user_id == user_id,
        record.created == now,
        record.modified is None,
        record.hash == hash,
{
    SecretRecord { id, user_id, created: now, modified: None, hash }
}

/// Accounts live in "users" for the user role and "admins" for the admin
/// role, so the two roles never share a collection.
pub proof fn lemma_role_collections()
    ensures
        role_collection(Role::User) == "users"@,
        role_collection(Role::Admin) == "admins"@,
        role_collection(Role::User) != role_collection(Role::Admin),
{
    reveal_strlit("users");
    reveal_strlit("admins");
    assert("users"@[0] != "admins"@[0]);
}

/// A fresh account, for every role, id, username and time, is of the
/// requested role, has exactly that id, username and creation time, no
/// display name and no modification time; a fresh secret has exactly the
/// given id, account, time and hash and no modification time.
pub proof fn lemma_fresh_records(
    role: Role,
    id: ObjectId,
    user_id: ObjectId,
    username: String,
    hash: String,
    now: i64,
)
    ensures
        fresh_account(role, id, username, now) matches AccountRecord::User(r) ==> (role
            == Role::User && r.id == id && r.username == username && r.created == now && r.name
            is None && r.modified is None && r.role == Role::User),
        fresh_account(role, id, username, now) matches AccountRecord::Admin(r) ==> (role
            == Role::Admin && r.id == id && r.username == username && r.created == now && r.name
            is None && r.modified is None),
        fresh_secret(id, user_id, now, hash).id == id,
        fresh_secret(id, user_id, now, hash).user_id == user_id,
        fresh_secret(id, user_id, now, hash).created == now,
        fresh_secret(id, user_id, now, hash).modified is None,
        fresh_secret(id, user_id, now, hash).hash == hash,
{
}

} // verus!
