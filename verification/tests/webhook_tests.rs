use sentrypeer::webhook::{
    DeliveryAction, DeliveryError, DeliveryPhase, DeliverySession, HttpOutcome,
};

#[test]
fn fresh_cache_requests_token_first() {
    let (session, action) = DeliverySession::start(None);
    assert_eq!(action, DeliveryAction::RequestToken);
    assert_eq!(session.phase, DeliveryPhase::AwaitingToken);
    assert_eq!(session.posts_made, 0);
}

#[test]
fn cached_token_posts_at_once() {
    let (session, action) = DeliverySession::start(Some(String::from("tok")));
    assert_eq!(action, DeliveryAction::PostEvent);
    assert_eq!(session.phase, DeliveryPhase::AwaitingPost);
    assert_eq!(session.posts_made, 1);
    assert_eq!(session.token.as_deref(), Some("tok"));
}

#[test]
fn token_success_then_delivery_success() {
    let (mut session, action) = DeliverySession::start(None);
    assert_eq!(action, DeliveryAction::RequestToken);
    let action = session.step(HttpOutcome::TokenResponse {
        status: 200,
        access_token: Some(String::from("fresh")),
    });
    assert_eq!(action, DeliveryAction::PostEvent);
    assert_eq!(session.token.as_deref(), Some("fresh"));
    let action = session.step(HttpOutcome::PostResponse { status: 201 });
    assert_eq!(action, DeliveryAction::Succeed);
    assert_eq!(session.phase, DeliveryPhase::Done);
    assert_eq!(session.posts_made, 1);
}

#[test]
fn token_endpoint_failure_is_fatal_without_retry() {
    let (mut session, _) = DeliverySession::start(None);
    let action = session.step(HttpOutcome::TokenResponse {
        status: 500,
        access_token: None,
    });
    assert_eq!(
        action,
        DeliveryAction::Fail(DeliveryError::TokenRequest(500))
    );
    assert_eq!(session.phase, DeliveryPhase::Done);
    assert_eq!(session.posts_made, 0);
}

#[test]
fn token_success_without_token_body_is_fatal() {
    let (mut session, _) = DeliverySession::start(None);
    let action = session.step(HttpOutcome::TokenResponse {
        status: 200,
        access_token: None,
    });
    assert_eq!(
        action,
        DeliveryAction::Fail(DeliveryError::TokenRequest(200))
    );
}

#[test]
fn other_webhook_status_is_fatal_without_retry() {
    let (mut session, _) = DeliverySession::start(Some(String::from("tok")));
    let action = session.step(HttpOutcome::PostResponse { status: 418 });
    assert_eq!(action, DeliveryAction::Fail(DeliveryError::Webhook(418)));
    assert_eq!(session.posts_made, 1);
}

#[test]
fn first_unauthorized_invalidates_and_retries_once() {
    let (mut session, _) = DeliverySession::start(Some(String::from("stale")));
    let action = session.step(HttpOutcome::PostResponse { status: 401 });
    assert_eq!(action, DeliveryAction::RequestToken);
    assert!(session.token.is_none(), "cached token must be discarded");
    assert!(session.retried);
    let action = session.step(HttpOutcome::TokenResponse {
        status: 200,
        access_token: Some(String::from("fresh")),
    });
    assert_eq!(action, DeliveryAction::PostEvent);
    let action = session.step(HttpOutcome::PostResponse { status: 200 });
    assert_eq!(action, DeliveryAction::Succeed);
    assert_eq!(session.posts_made, 2);
}

#[test]
fn second_unauthorized_is_fatal_with_no_third_post() {
    // Fresh (absent) token state; the webhook answers 401 twice.
    let (mut session, action) = DeliverySession::start(None);
    assert_eq!(action, DeliveryAction::RequestToken);
    let action = session.step(HttpOutcome::TokenResponse {
        status: 200,
        access_token: Some(String::from("t1")),
    });
    assert_eq!(action, DeliveryAction::PostEvent);
    let action = session.step(HttpOutcome::PostResponse { status: 401 });
    assert_eq!(action, DeliveryAction::RequestToken);
    assert!(session.token.is_none());
    let action = session.step(HttpOutcome::TokenResponse {
        status: 200,
        access_token: Some(String::from("t2")),
    });
    assert_eq!(action, DeliveryAction::PostEvent);
    let action = session.step(HttpOutcome::PostResponse { status: 401 });
    assert_eq!(action, DeliveryAction::Fail(DeliveryError::Unauthorized));
    assert_eq!(session.phase, DeliveryPhase::Done);
    assert_eq!(session.posts_made, 2, "no third POST may be attempted");
}

#[test]
fn forbidden_is_treated_like_unauthorized() {
    let (mut session, _) = DeliverySession::start(Some(String::from("tok")));
    let action = session.step(HttpOutcome::PostResponse { status: 403 });
    assert_eq!(action, DeliveryAction::RequestToken);
    let action = session.step(HttpOutcome::TokenResponse {
        status: 200,
        access_token: Some(String::from("t2")),
    });
    assert_eq!(action, DeliveryAction::PostEvent);
    let action = session.step(HttpOutcome::PostResponse { status: 403 });
    assert_eq!(action, DeliveryAction::Fail(DeliveryError::Unauthorized));
}
