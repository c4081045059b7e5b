use mongodb::bson::oid::ObjectId;
use rustplatform::auth::{
    authenticate_step, authenticate_user, build_authentication_pipeline, AuthAction, AuthEvent,
    AuthState, PipelineStage,
};
use rustplatform::model::{ApiResponse, Claim, ResponseBody, Role, ScopeUser, UserHash, BAD_REQUEST};

fn claim(username: &str, password: &str) -> Claim {
    Claim { username: username.to_string(), password: password.to_string() }
}

fn s(x: &str) -> String {
    x.to_string()
}

fn refused(message: &str) -> AuthAction {
    AuthAction::Respond(Err(ApiResponse {
        json: ResponseBody::Message(message.to_string()),
        status: BAD_REQUEST,
    }))
}

#[test]
fn pipeline_joins_secret_and_account_data() {
    let pipeline = build_authentication_pipeline(s("bob"), s("users"));
    let expected = vec![
        PipelineStage::Match { field: s("username"), value: s("bob") },
        PipelineStage::Lookup {
            from: s("secrets"),
            local_field: s("_id"),
            foreign_field: s("user_id"),
            as_field: s("secrets"),
        },
        PipelineStage::Unwind { path: s("$secrets") },
        PipelineStage::Lookup {
            from: s("users"),
            local_field: s("_id"),
            foreign_field: s("_id"),
            as_field: s("user_data"),
        },
        PipelineStage::Unwind { path: s("$user_data") },
        PipelineStage::Project {
            fields: vec![
                (s("user_id"), s("$secrets.user_id")),
                (s("hash"), s("$secrets.hash")),
                (s("data"), s("$user_data")),
            ],
        },
    ];
    assert_eq!(pipeline, expected);
}

#[test]
fn admin_authentication_searches_admins() {
    let (state, action) = authenticate_user(claim("root", "pw"), Role::Admin);
    assert_eq!(state, AuthState::AwaitSearch { password: s("pw"), role: Role::Admin });
    match action {
        AuthAction::RunPipeline { collection, pipeline } => {
            assert_eq!(collection, "admins");
            assert_eq!(pipeline, build_authentication_pipeline(s("root"), s("admins")));
        }
        other => panic!("unexpected action {:?}", other),
    }
}

#[test]
fn authentication_succeeds_with_verified_password() {
    let id = ObjectId::new();
    let (st, _) = authenticate_user(claim("bob", "pw"), Role::User);
    let found = UserHash { user_id: id, hash: s("stored-hash") };
    let (st, a) = authenticate_step(st, AuthEvent::Found(Some(found)));
    assert_eq!(a, AuthAction::VerifyPassword { password: s("pw"), hash: s("stored-hash") });
    let (st, a) = authenticate_step(st, AuthEvent::Verified(true));
    assert_eq!(a, AuthAction::Respond(Ok(ScopeUser { user_id: id, scope: Role::User })));
    assert_eq!(st, AuthState::Done);
}

#[test]
fn authentication_refuses_wrong_password() {
    let id = ObjectId::new();
    let (st, _) = authenticate_user(claim("bob", "bad"), Role::User);
    let (st, _) = authenticate_step(st, AuthEvent::Found(Some(UserHash { user_id: id, hash: s("h") })));
    let (_, a) = authenticate_step(st, AuthEvent::Verified(false));
    assert_eq!(a, refused("wrong password"));
}

#[test]
fn authentication_refuses_unknown_user() {
    let (st, _) = authenticate_user(claim("nobody", "pw"), Role::User);
    let (st, a) = authenticate_step(st, AuthEvent::Found(None));
    assert_eq!(a, refused("can't find user"));
    assert_eq!(st, AuthState::Done);
}

#[test]
fn authentication_reports_search_failure() {
    let (st, _) = authenticate_user(claim("bob", "pw"), Role::Admin);
    let (_, a) = authenticate_step(st, AuthEvent::SearchFailed(s("Timeout")));
    assert_eq!(a, refused("error: cant find user Timeout"));
}
