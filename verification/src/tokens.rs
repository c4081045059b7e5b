use vstd::prelude::*;

use crate::model::Args;

verus! {

/// Where a token refresh stands.
#[derive(Debug, PartialEq, Eq)]
pub enum RefreshState {
    /// Waiting for the claims of the refresh token.
    AwaitClaims,
    /// Waiting for new tokens.
    AwaitTokens,
    Done,
}

/// What the caller must do next.
#[derive(Debug, PartialEq)]
pub enum RefreshAction<C, T, E> {
    /// Check `token` as a refresh token and report its claims.
    ValidateRefreshToken { token: String },
    /// Issue tokens for `claims`.
    CreateTokens { claims: C },
    Finish(Result<T, E>),
}

/// The outcome of the last action.
#[derive(Debug, PartialEq)]
pub enum RefreshEvent<C, T, E> {
    /// The refresh token is valid and carries these claims.
    Validated(C),
    /// The tokens that were issued.
    Created(T),
    Failed(E),
}

pub open spec fn refresh_event_fits<C, T, E>(s: RefreshState, e: RefreshEvent<C, T, E>) -> bool {
    match s {
        RefreshState::AwaitClaims => !(e is Created),
        RefreshState::AwaitTokens => !(e is Validated),
        RefreshState::Done => false,
    }
}

pub open spec fn refresh_transition<C, T, E>(
    s: RefreshState,
    e: RefreshEvent<C, T, E>,
    next: RefreshState,
    act: RefreshAction<C, T, E>,
) -> bool {
    match e {
        RefreshEvent::Validated(claims) => {
            &&& s == RefreshState::AwaitClaims
            &&& next == RefreshState::AwaitTokens
            &&& act == RefreshAction::<C, T, E>::CreateTokens { claims }
        },
        RefreshEvent::Created(tokens) => {
            &&& s == RefreshState::AwaitTokens
            &&& next == RefreshState::Done
            &&& act == RefreshAction::<C, T, E>::Finish(Ok(tokens))
        },
        RefreshEvent::Failed(err) => {
            &&& s != RefreshState::Done
            &&& next == RefreshState::Done
            &&& act == RefreshAction::<C, T, E>::Finish(Err(err))
        },
    }
}

/// Refreshes the tokens of a client: the first action validates the refresh
/// token of the request.
pub fn refresh_access_token<C, T, E>(args: Args) -> (res: (RefreshState, RefreshAction<C, T, E>))
    ensures
        res.0 == RefreshState::AwaitClaims,
        res.1 == (RefreshAction::<C, T, E>::ValidateRefreshToken { token: args.refresh_token() }),
{
    (RefreshState::AwaitClaims, RefreshAction::ValidateRefreshToken { token: args.into_refresh_token() })
}

/// Advances a token refresh by the outcome of its last action.
pub fn refresh_step<C, T, E>(s: RefreshState, e: RefreshEvent<C, T, E>) -> (res: (
    RefreshState,
    RefreshAction<C, T, E>,
))
    requires
        refresh_event_fits(s, e),
    ensures
        refresh_transition(s, e, res.0, res.1),
{
    match e {
        RefreshEvent::Validated(claims) => (RefreshState::AwaitTokens, RefreshAction::CreateTokens { claims }),
        RefreshEvent::Created(tokens) => (RefreshState::Done, RefreshAction::Finish(Ok(tokens))),
        RefreshEvent::Failed(err) => (RefreshState::Done, RefreshAction::Finish(Err(err))),
    }
}

/// Tokens are only issued for the claims that the refresh token validated
/// to, and only those tokens are returned; a failure of either call is
/// returned as it is and ends the refresh.
pub proof fn lemma_tokens_only_from_validated_claims<C, T, E>(
    s: RefreshState,
    e: RefreshEvent<C, T, E>,
    next: RefreshState,
    act: RefreshAction<C, T, E>,
)
    requires
        refresh_transition(s, e, next, act),
    ensures
        act matches RefreshAction::CreateTokens { claims } ==> (s == RefreshState::AwaitClaims && e
            == RefreshEvent::<C, T, E>::Validated(claims)),
        act matches RefreshAction::Finish(Ok(tokens)) ==> (s == RefreshState::AwaitTokens && e
            == RefreshEvent::<C, T, E>::Created(tokens)),
        e matches RefreshEvent::Failed(err) ==> act == RefreshAction::<C, T, E>::Finish(Err(err)),
        next == RefreshState::Done <==> act is Finish,
{
}

/// What every outcome of a refresh leads to: claims validated from the
/// refresh token are the claims tokens are issued for; issued tokens are the
/// successful answer; a failure of either call is the answer, unchanged.
pub proof fn lemma_refresh_answers<C, T, E>(
    s: RefreshState,
    e: RefreshEvent<C, T, E>,
    next: RefreshState,
    act: RefreshAction<C, T, E>,
)
    requires
        refresh_transition(s, e, next, act),
    ensures
        e matches RefreshEvent::Validated(claims) ==> (s == RefreshState::AwaitClaims && next
            == RefreshState::AwaitTokens && act == RefreshAction::<C, T, E>::CreateTokens { claims }),
        e matches RefreshEvent::Created(tokens) ==> (s == RefreshState::AwaitTokens && next
            == RefreshState::Done && act == RefreshAction::<C, T, E>::Finish(Ok(tokens))),
        e matches RefreshEvent::Failed(err) ==> (next == RefreshState::Done && act
            == RefreshAction::<C, T, E>::Finish(Err(err))),
{
}

} // verus!
