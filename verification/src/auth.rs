use vstd::prelude::*;

use mongodb::bson::oid::ObjectId;

use crate::model::{
    collection_of_role, is_message_refusal, message_refusal, role_collection, ApiResponse, Claim,
    ResponseBody, Role, ScopeUser, UserHash, BAD_REQUEST,
};

verus! {

/// One stage of the aggregation pipeline that looks an account up.
#[derive(Debug, PartialEq, Eq)]
pub enum PipelineStage {
    /// `{"$match": {field: value}}`
    Match { field: String, value: String },
    /// `{"$lookup": {"from", "localField", "foreignField", "as"}}`
    Lookup { from: String, local_field: String, foreign_field: String, as_field: String },
    /// `{"$unwind": {"path": path}}`
    Unwind { path: String },
    /// `{"$project": {name: expression, ...}}`, in this order.
    Project { fields: Vec<(String, String)> },
}

/// A pipeline stage as text.
pub enum StageSpec {
    Match(Seq<char>, Seq<char>),
    Lookup(Seq<char>, Seq<char>, Seq<char>, Seq<char>),
    Unwind(Seq<char>),
    Project(Seq<(Seq<char>, Seq<char>)>),
}

impl View for PipelineStage {
    type V = StageSpec;

    open spec fn view(&self) -> StageSpec {
        match self {
            PipelineStage::Match { field, value } => StageSpec::Match(field@, value@),
            PipelineStage::Lookup { from, local_field, foreign_field, as_field } => StageSpec::Lookup(
                from@,
                local_field@,
                foreign_field@,
                as_field@,
            ),
            PipelineStage::Unwind { path } => StageSpec::Unwind(path@),
            PipelineStage::Project { fields } => StageSpec::Project(
                fields@.map_values(|p: (String, String)| (p.0@, p.1@)),
            ),
        }
    }
}

/// The pipeline that finds the account `username` in `collection`, joins
/// its password secret and its account data, and keeps the account id, the
/// stored hash and the data.
pub open spec fn authentication_pipeline(username: Seq<char>, collection: Seq<char>) -> Seq<
    StageSpec,
> {
    seq![
        StageSpec::Match("username"@, username),
        StageSpec::Lookup("secrets"@, "_id"@, "user_id"@, "secrets"@),
        StageSpec::Unwind("$secrets"@),
        StageSpec::Lookup(collection, "_id"@, "_id"@, "user_data"@),
        StageSpec::Unwind("$user_data"@),
        StageSpec::Project(
            seq![
                ("user_id"@, "$secrets.user_id"@),
                ("hash"@, "$secrets.hash"@),
                ("data"@, "$user_data"@),
            ],
        ),
    ]
}

pub open spec fn stages_view(stages: Seq<PipelineStage>) -> Seq<StageSpec> {
    stages.map_values(|s: PipelineStage| s@)
}

fn text(s: &str) -> (r: String)
    ensures
        r@ == s@,
{
    String::from_str(s)
}

/// Builds the pipeline that looks up the account `username` of `collection`.
pub fn build_authentication_pipeline(username: String, collection: String) -> (pipeline: Vec<
    PipelineStage,
>)
    ensures
        stages_view(pipeline@) == authentication_pipeline(username@, collection@),
        pipeline@.len() == 6,
        pipeline@[0] matches PipelineStage::Match { field, value } && field@ == "username"@ && value
            == username,
        pipeline@[1] matches PipelineStage::Lookup { from, local_field, foreign_field, as_field }
            && from@ == "secrets"@ && local_field@ == "_id"@ && foreign_field@ == "user_id"@
            && as_field@ == "secrets"@,
        pipeline@[2] matches PipelineStage::Unwind { path } && path@ == "$secrets"@,
        pipeline@[3] matches PipelineStage::Lookup { from, local_field, foreign_field, as_field }
            && from == collection && local_field@ == "_id"@ && foreign_field@ == "_id"@ && as_field@
            == "user_data"@,
        pipeline@[4] matches PipelineStage::Unwind { path } && path@ == "$user_data"@,
        pipeline@[5] matches PipelineStage::Project { fields } && fields@.len() == 3 && fields@[0].0@
            == "user_id"@ && fields@[0].1@ == "$secrets.user_id"@ && fields@[1].0@ == "hash"@
            && fields@[1].1@ == "$secrets.hash"@ && fields@[2].0@ == "data"@ && fields@[2].1@
            == "$user_data"@,
{
    let ghost u = username@;
    let ghost c = collection@;
    let mut fields: Vec<(String, String)> = Vec::new();
    fields.push((text("user_id"), text("$secrets.user_id")));
    fields.push((text("hash"), text("$secrets.hash")));
    fields.push((text("data"), text("$user_data")));
    let mut pipeline: Vec<PipelineStage> = Vec::new();
    pipeline.push(PipelineStage::Match { field: text("username"), value: username });
    pipeline.push(
        PipelineStage::Lookup {
            from: text("secrets"),
            local_field: text("_id"),
            foreign_field: text("user_id"),
            as_field: text("secrets"),
        },
    );
    pipeline.push(PipelineStage::Unwind { path: text("$secrets") });
    pipeline.push(
        PipelineStage::Lookup {
            from: collection,
            local_field: text("_id"),
            foreign_field: text("_id"),
            as_field: text("user_data"),
        },
    );
    pipeline.push(PipelineStage::Unwind { path: text("$user_data") });
    let ghost fv = fields@;
    pipeline.push(PipelineStage::Project { fields });
    proof {
        assert(fv.map_values(|p: (String, String)| (p.0@, p.1@)) =~= seq![
            ("user_id"@, "$secrets.user_id"@),
            ("hash"@, "$secrets.hash"@),
            ("data"@, "$user_data"@),
        ]);
        assert(stages_view(pipeline@) =~= authentication_pipeline(u, c));
    }
    pipeline
}

/// Where an authentication stands.
#[derive(Debug, PartialEq, Eq)]
pub enum AuthState {
    /// Waiting for the result of the lookup pipeline.
    AwaitSearch { password: String, role: Role },
    /// Waiting for the check of the password against the stored hash.
    AwaitVerify { user_id: ObjectId, role: Role },
    /// The response has been given.
    Done,
}

/// What the caller must do next.
#[derive(Debug, PartialEq)]
pub enum AuthAction {
    /// Run `pipeline` on `collection` and report the last non-empty result.
    RunPipeline { collection: String, pipeline: Vec<PipelineStage> },
    /// Check `password` against the stored `hash`.
    VerifyPassword { password: String, hash: String },
    /// Answer the request.
    Respond(Result<ScopeUser, ApiResponse>),
}

/// The outcome of the last action.
#[derive(Debug, PartialEq)]
pub enum AuthEvent {
    /// The pipeline failed; the error's debug text.
    SearchFailed(String),
    /// The pipeline ran; the account's id and stored hash, if one was found.
    Found(Option<UserHash>),
    /// Whether the password matched the stored hash.
    Verified(bool),
}

pub open spec fn auth_event_fits(s: AuthState, e: AuthEvent) -> bool {
    match s {
        AuthState::AwaitSearch { .. } => e is SearchFailed || e is Found,
        AuthState::AwaitVerify { .. } => e is Verified,
        AuthState::Done => false,
    }
}

/// One step of an authentication.
pub open spec fn auth_transition(s: AuthState, e: AuthEvent, next: AuthState, act: AuthAction) -> bool {
    match s {
        AuthState::AwaitSearch { password, role } => match e {
            AuthEvent::SearchFailed(t) => {
                &&& next == AuthState::Done
                &&& act matches AuthAction::Respond(Err(r)) && is_message_refusal(
                    r,
                    "error: cant find user "@ + t@,
                )
            },
            AuthEvent::Found(None) => {
                &&& next == AuthState::Done
                &&& act matches AuthAction::Respond(Err(r)) && is_message_refusal(
                    r,
                    "can't find user"@,
                )
            },
            AuthEvent::Found(Some(found)) => {
                &&& next == AuthState::AwaitVerify { user_id: found.user_id, role }
                &&& act == AuthAction::VerifyPassword { password, hash: found.hash }
            },
            _ => false,
        },
        AuthState::AwaitVerify { user_id, role } => match e {
            AuthEvent::Verified(true) => {
                &&& next == AuthState::Done
                &&& act == AuthAction::Respond(Ok(ScopeUser { user_id, scope: role }))
            },
            AuthEvent::Verified(false) => {
                &&& next == AuthState::Done
                &&& act matches AuthAction::Respond(Err(r)) && is_message_refusal(
                    r,
                    "wrong password"@,
                )
            },
            _ => false,
        },
        AuthState::Done => false,
    }
}

/// Authenticates `claim` as an account of `role`: the first action looks the
/// username up in the role's collection.
pub fn authenticate_user(claim: Claim, role: Role) -> (res: (AuthState, AuthAction))
    ensures
        res.0 == (AuthState::AwaitSearch { password: claim.password, role }),
        res.1 matches AuthAction::RunPipeline { collection, pipeline } && collection@
            == role_collection(role) && stages_view(pipeline@) == authentication_pipeline(
            claim.username@,
            role_collection(role),
        ),
        res.1 matches AuthAction::RunPipeline { pipeline, .. } ==> {
            &&& pipeline@.len() == 6
            &&& pipeline@[0] matches PipelineStage::Match { value, .. }
            &&& value == claim.username
        },
        res.1 matches AuthAction::RunPipeline { pipeline, .. } ==> {
            &&& pipeline@.len() == 6
            &&& pipeline@[3] matches PipelineStage::Lookup { from, .. }
            &&& from@ == role_collection(role)
        },
{
    let pipeline = build_authentication_pipeline(claim.username, collection_of_role(role));
    (
        AuthState::AwaitSearch { password: claim.password, role },
        AuthAction::RunPipeline { collection: collection_of_role(role), pipeline },
    )
}

/// Advances an authentication by the outcome of its last action.
pub fn authenticate_step(s: AuthState, e: AuthEvent) -> (res: (AuthState, AuthAction))
    requires
        auth_event_fits(s, e),
    ensures
        auth_transition(s, e, res.0, res.1),
{
    match s {
        AuthState::AwaitSearch { password, role } => match e {
            AuthEvent::SearchFailed(t) => {
                let mut m = String::from_str("error: cant find user ");
                m.append(t.as_str());
                (
                    AuthState::Done,
                    AuthAction::Respond(Err(ApiResponse { json: ResponseBody::Message(m), status: BAD_REQUEST })),
                )
            },
            AuthEvent::Found(None) => (
                AuthState::Done,
                AuthAction::Respond(Err(message_refusal("can't find user"))),
            ),
            AuthEvent::Found(Some(found)) => (
                AuthState::AwaitVerify { user_id: found.user_id, role },
                AuthAction::VerifyPassword { password, hash: found.hash },
            ),
            AuthEvent::Verified(_) => {
                proof {
                    assert(false);
                }
                unreached()
            },
        },
        AuthState::AwaitVerify { user_id, role } => match e {
            AuthEvent::Verified(ok) => {
                if ok {
                    (AuthState::Done, AuthAction::Respond(Ok(ScopeUser { user_id, scope: role })))
                } else {
                    (AuthState::Done, AuthAction::Respond(Err(message_refusal("wrong password"))))
                }
            },
            _ => {
                proof {
                    assert(false);
                }
                unreached()
            },
        },
        AuthState::Done => {
            proof {
                assert(false);
            }
            unreached()
        },
    }
}

/// The role an authentication in progress is for.
pub open spec fn auth_role(s: AuthState) -> Option<Role> {
    match s {
        AuthState::AwaitSearch { role, .. } => Some(role),
        AuthState::AwaitVerify { role, .. } => Some(role),
        AuthState::Done => None,
    }
}

/// An account is only authenticated after its password matched the hash
/// stored for it, and it is authenticated with the id it was found under and
/// the role it was requested for.
pub proof fn lemma_authenticated_only_with_verified_password(
    s: AuthState,
    e: AuthEvent,
    next: AuthState,
    act: AuthAction,
)
    requires
        auth_transition(s, e, next, act),
    ensures
        act matches AuthAction::Respond(Ok(user)) ==> (s == AuthState::AwaitVerify {
            user_id: user.user_id,
            role: user.scope,
        } && e == AuthEvent::Verified(true)),
{
}

/// The password checked is the one the client sent, against the hash stored
/// with the account that the lookup found.
pub proof fn lemma_password_checked_against_stored_hash(
    s: AuthState,
    e: AuthEvent,
    next: AuthState,
    act: AuthAction,
)
    requires
        auth_transition(s, e, next, act),
    ensures
        act matches AuthAction::VerifyPassword { password, hash } ==> {
            &&& s matches AuthState::AwaitSearch { password: p, .. } && p == password
            &&& e matches AuthEvent::Found(Some(found)) && found.hash == hash && auth_role(next)
                == auth_role(s) && next == (AuthState::AwaitVerify {
                user_id: found.user_id,
                role: auth_role(s).unwrap(),
            })
        },
{
}

/// Every step keeps the role the authentication was requested for, and an
/// answer ends it.
pub proof fn lemma_auth_role_kept(s: AuthState, e: AuthEvent, next: AuthState, act: AuthAction)
    requires
        auth_transition(s, e, next, act),
    ensures
        next != AuthState::Done ==> auth_role(next) == auth_role(s),
        next == AuthState::Done <==> act is Respond,
        act matches AuthAction::Respond(Ok(user)) ==> auth_role(s) == Some(user.scope),
{
}

/// For every username and collection, the lookup pipeline has six stages:
/// it matches the username, joins and unwinds the password secret, joins
/// the account data from exactly the collection it was built for (not a
/// fixed one), unwinds it, and projects the account id, the stored hash and
/// the account data.
pub proof fn lemma_pipeline_stages(username: Seq<char>, collection: Seq<char>)
    ensures
        authentication_pipeline(username, collection).len() == 6,
        authentication_pipeline(username, collection)[0] == StageSpec::Match("username"@, username),
        authentication_pipeline(username, collection)[1] == StageSpec::Lookup(
            "secrets"@,
            "_id"@,
            "user_id"@,
            "secrets"@,
        ),
        authentication_pipeline(username, collection)[2] == StageSpec::Unwind("$secrets"@),
        authentication_pipeline(username, collection)[3] == StageSpec::Lookup(
            collection,
            "_id"@,
            "_id"@,
            "user_data"@,
        ),
        authentication_pipeline(username, collection)[4] == StageSpec::Unwind("$user_data"@),
        authentication_pipeline(username, collection)[5] == StageSpec::Project(
            seq![
                ("user_id"@, "$secrets.user_id"@),
                ("hash"@, "$secrets.hash"@),
                ("data"@, "$user_data"@),
            ],
        ),
{
}

/// Two pipelines built for the same username agree on every stage but the
/// join of the account data, which reads from the collection each was built
/// for; so the user and the admin pipelines differ exactly there.
pub proof fn lemma_pipelines_differ_only_in_account_join(
    username: Seq<char>,
    first: Seq<char>,
    second: Seq<char>,
)
    ensures
        forall|i: int|
            0 <= i < 6 && i != 3 ==> authentication_pipeline(username, first)[i]
                == #[trigger] authentication_pipeline(username, second)[i],
        authentication_pipeline(username, first)[3] matches StageSpec::Lookup(from, _, _, _) && from
            == first,
        first != second ==> authentication_pipeline(username, first)[3] != authentication_pipeline(
            username,
            second,
        )[3],
{
}

/// What every outcome of an authentication leads to: a failed lookup, a
/// missing account and a wrong password are refused with their exact
/// messages; a found account has the sent password checked against its
/// stored hash; a matching password authenticates the found account for the
/// requested role.
pub proof fn lemma_auth_answers(s: AuthState, e: AuthEvent, next: AuthState, act: AuthAction)
    requires
        auth_transition(s, e, next, act),
    ensures
        s is AwaitSearch ==> (e matches AuthEvent::SearchFailed(t) ==> {
            &&& next == AuthState::Done
            &&& act matches AuthAction::Respond(Err(r))
            &&& r.status == BAD_REQUEST
            &&& r.json matches ResponseBody::Message(m)
            &&& m@ == "error: cant find user "@ + t@
        }),
        s is AwaitSearch ==> (e == AuthEvent::Found(None) ==> {
            &&& next == AuthState::Done
            &&& act matches AuthAction::Respond(Err(r))
            &&& r.status == BAD_REQUEST
            &&& r.json matches ResponseBody::Message(m)
            &&& m@ == "can't find user"@
        }),
        s matches AuthState::AwaitSearch { password, role } ==> (e matches AuthEvent::Found(Some(found)) ==> (next == AuthState::AwaitVerify { user_id: found.user_id, role } && act
            == AuthAction::VerifyPassword { password, hash: found.hash })),
        s matches AuthState::AwaitVerify { user_id, role } ==> (e == AuthEvent::Verified(true) ==> (
        next == AuthState::Done && act == AuthAction::Respond(
            Ok((ScopeUser { user_id, scope: role })),
        ))),
        s is AwaitVerify ==> (e == AuthEvent::Verified(false) ==> {
            &&& next == AuthState::Done
            &&& act matches AuthAction::Respond(Err(r))
            &&& r.status == BAD_REQUEST
            &&& r.json matches ResponseBody::Message(m)
            &&& m@ == "wrong password"@
        }),
{
}

} // verus!
