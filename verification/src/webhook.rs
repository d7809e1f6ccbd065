//! The webhook delivery pipeline's OAuth2 token state machine.
//!
//! One delivery POSTs the serialized event to the webhook endpoint with a
//! bearer token obtained by the client-credentials flow. The token is
//! cached across deliveries; a delivery rejected as unauthorized discards
//! the cache and retries exactly once. The HTTP requests themselves happen
//! at the I/O edge: the edge performs the action this machine hands out
//! and feeds the response back in, and the machine decides everything —
//! including the hard bound that no delivery ever attempts a third POST.

use vstd::prelude::*;

verus! {

/// Why a delivery failed for good.
#[derive(Debug, PartialEq, Eq, Structural)]
pub enum DeliveryError {
    /// The token endpoint answered with this non-success status, or with no
    /// usable token.
    TokenRequest(u16),
    /// The webhook rejected the delivery as unauthorized twice in a row.
    Unauthorized,
    /// The webhook answered with this other non-success status.
    Webhook(u16),
}

/// What the delivery loop is to do next.
#[derive(Debug, PartialEq, Eq, Structural)]
pub enum DeliveryAction {
    /// POST the client-credentials request to the token endpoint.
    RequestToken,
    /// POST the serialized event to the webhook, with the cached token.
    PostEvent,
    /// Delivery succeeded; report success to the caller.
    Succeed,
    /// Delivery failed for good; report this error to the caller.
    Fail(DeliveryError),
}

/// What came back from the request the last action asked for.
pub enum HttpOutcome {
    /// The token endpoint's response: its status, and the access token its
    /// body carried, if any.
    TokenResponse { status: u16, access_token: Option<String> },
    /// The webhook endpoint's response status.
    PostResponse { status: u16 },
}

/// Which response the machine is waiting for, if any.
#[derive(Debug, PartialEq, Eq, Structural)]
pub enum DeliveryPhase {
    /// A token request is out.
    AwaitingToken,
    /// An event POST is out.
    AwaitingPost,
    /// The delivery has ended, in success or failure.
    Done,
}

/// One delivery in progress: the token cache as this delivery sees it,
/// whether the single allowed retry is spent, and how many POSTs were
/// attempted.
pub struct DeliverySession {
    /// The cached bearer token: absent initially and after invalidation.
    pub token: Option<String>,
    /// Whether the one 401/403-triggered retry has been used.
    pub retried: bool,
    /// How many event POSTs this delivery has attempted.
    pub posts_made: u8,
    /// What the machine waits for.
    pub phase: DeliveryPhase,
}

/// The machine's invariant: an event POST is only ever out with a token in
/// hand, and the POST count never passes two — one attempt, one retry. A
/// token request is only ever out before the next POST of its round.
pub open spec fn spec_session_wf(s: DeliverySession) -> bool {
    &&& s.phase == DeliveryPhase::AwaitingPost ==> s.token is Some
    &&& (if s.retried {
        s.posts_made <= 2
    } else {
        s.posts_made <= 1
    })
    &&& s.phase == DeliveryPhase::AwaitingToken ==> (if s.retried {
        s.posts_made <= 1
    } else {
        s.posts_made == 0
    })
}

/// Whether a response is the one the machine is waiting for.
pub open spec fn spec_expects(s: DeliverySession, outcome: HttpOutcome) -> bool {
    match outcome {
        HttpOutcome::TokenResponse { .. } => s.phase == DeliveryPhase::AwaitingToken,
        HttpOutcome::PostResponse { .. } => s.phase == DeliveryPhase::AwaitingPost,
    }
}

/// Where a fresh delivery starts from a token cache: with a token in hand
/// the event is POSTed at once, without one the token is requested first.
pub open spec fn spec_start(cache: Option<String>) -> (DeliverySession, DeliveryAction) {
    match cache {
        Option::Some(tok) => (
            DeliverySession {
                token: Option::Some(tok),
                retried: false,
                posts_made: 1,
                phase: DeliveryPhase::AwaitingPost,
            },
            DeliveryAction::PostEvent,
        ),
        Option::None => (
            DeliverySession {
                token: Option::None,
                retried: false,
                posts_made: 0,
                phase: DeliveryPhase::AwaitingToken,
            },
            DeliveryAction::RequestToken,
        ),
    }
}

/// One transition on a response.
///
/// Awaiting the token: status 200 with a token caches it and POSTs the
/// event; anything else ends the delivery at once, unretried. Awaiting the
/// POST: 200 or 201 succeeds; 401 or 403 discards the cached token and,
/// exactly once, goes back for a fresh token — a second one is fatal; any
/// other status is fatal without retry.
pub open spec fn spec_step(pre: DeliverySession, outcome: HttpOutcome) -> (
    DeliverySession,
    DeliveryAction,
) {
    match outcome {
        HttpOutcome::TokenResponse { status, access_token } => {
            if status == 200 && access_token is Some {
                (
                    DeliverySession {
                        token: access_token,
                        posts_made: (pre.posts_made + 1) as u8,
                        phase: DeliveryPhase::AwaitingPost,
                        ..pre
                    },
                    DeliveryAction::PostEvent,
                )
            } else {
                (
                    DeliverySession { phase: DeliveryPhase::Done, ..pre },
                    DeliveryAction::Fail(DeliveryError::TokenRequest(status)),
                )
            }
        },
        HttpOutcome::PostResponse { status } => {
            if status == 200 || status == 201 {
                (
                    DeliverySession { phase: DeliveryPhase::Done, ..pre },
                    DeliveryAction::Succeed,
                )
            } else if status == 401 || status == 403 {
                if !pre.retried {
                    (
                        DeliverySession {
                            token: Option::None,
                            retried: true,
                            phase: DeliveryPhase::AwaitingToken,
                            ..pre
                        },
                        DeliveryAction::RequestToken,
                    )
                } else {
                    (
                        DeliverySession {
                            token: Option::None,
                            phase: DeliveryPhase::Done,
                            ..pre
                        },
                        DeliveryAction::Fail(DeliveryError::Unauthorized),
                    )
                }
            } else {
                (
                    DeliverySession { phase: DeliveryPhase::Done, ..pre },
                    DeliveryAction::Fail(DeliveryError::Webhook(status)),
                )
            }
        },
    }
}

impl DeliverySession {
    /// Begins one delivery from the current token cache, handing back the
    /// first action to perform.
    pub fn start(cache: Option<String>) -> (r: (Self, DeliveryAction))
        ensures
            r == spec_start(cache),
            spec_session_wf(r.0),
    {
        match cache {
            Some(tok) => (
                DeliverySession {
                    token: Some(tok),
                    retried: false,
                    posts_made: 1,
                    phase: DeliveryPhase::AwaitingPost,
                },
                DeliveryAction::PostEvent,
            ),
            None => (
                DeliverySession {
                    token: None,
                    retried: false,
                    posts_made: 0,
                    phase: DeliveryPhase::AwaitingToken,
                },
                DeliveryAction::RequestToken,
            ),
        }
    }

    /// Feeds the response to the last action in, moving the machine one
    /// step and handing back the next action.
    pub fn step(&mut self, outcome: HttpOutcome) -> (r: DeliveryAction)
        requires
            old(self).phase != DeliveryPhase::Done,
            spec_session_wf(*old(self)),
            (old(self).phase == DeliveryPhase::AwaitingToken <==> outcome is TokenResponse),
        ensures
            (*final(self), r) == spec_step(*old(self), outcome),
            spec_session_wf(*final(self)),
    {
        match outcome {
            HttpOutcome::TokenResponse { status, access_token } => {
                if status == 200 && access_token.is_some() {
                    self.token = access_token;
                    self.posts_made = self.posts_made + 1;
                    self.phase = DeliveryPhase::AwaitingPost;
                    DeliveryAction::PostEvent
                } else {
                    self.phase = DeliveryPhase::Done;
                    DeliveryAction::Fail(DeliveryError::TokenRequest(status))
                }
            },
            HttpOutcome::PostResponse { status } => {
                if status == 200 || status == 201 {
                    self.phase = DeliveryPhase::Done;
                    DeliveryAction::Succeed
                } else if status == 401 || status == 403 {
                    if !self.retried {
                        self.token = None;
                        self.retried = true;
                        self.phase = DeliveryPhase::AwaitingToken;
                        DeliveryAction::RequestToken
                    } else {
                        self.token = None;
                        self.phase = DeliveryPhase::Done;
                        DeliveryAction::Fail(DeliveryError::Unauthorized)
                    }
                } else {
                    self.phase = DeliveryPhase::Done;
                    DeliveryAction::Fail(DeliveryError::Webhook(status))
                }
            },
        }
    }
}

/// How many POSTs a run of responses causes from a given state: one for
/// each `PostEvent` the machine hands out.
pub open spec fn spec_run_posts(s: DeliverySession, outcomes: Seq<HttpOutcome>) -> int
    decreases outcomes.len(),
{
    if outcomes.len() == 0 || !spec_expects(s, outcomes[0]) {
        0
    } else {
        let (s2, a) = spec_step(s, outcomes[0]);
        (if a == DeliveryAction::PostEvent {
            1int
        } else {
            0int
        }) + spec_run_posts(s2, outcomes.drop_first())
    }
}

/// A step keeps the invariant, and hands out `PostEvent` only by counting
/// it.
pub proof fn lemma_step_wf(s: DeliverySession, outcome: HttpOutcome)
    requires
        spec_session_wf(s),
        spec_expects(s, outcome),
    ensures
        spec_session_wf(spec_step(s, outcome).0),
        spec_step(s, outcome).0.posts_made >= s.posts_made,
        spec_step(s, outcome).1 == DeliveryAction::PostEvent ==> spec_step(s, outcome).0.posts_made
            == s.posts_made + 1,
{
}

/// The hard retry bound: from any well-formed state, whatever responses
/// the endpoints give, the machine attempts at most two POSTs in all —
/// those already made and those any run can still cause. In particular no
/// delivery ever attempts a third POST.
pub proof fn lemma_never_a_third_post(s: DeliverySession, outcomes: Seq<HttpOutcome>)
    requires
        spec_session_wf(s),
    ensures
        s.posts_made + spec_run_posts(s, outcomes) <= 2,
    decreases outcomes.len(),
{
    if outcomes.len() > 0 && spec_expects(s, outcomes[0]) {
        let (s2, a) = spec_step(s, outcomes[0]);
        lemma_step_wf(s, outcomes[0]);
        lemma_never_a_third_post(s2, outcomes.drop_first());
    }
}

/// The single-retry story in full: a delivery starting with an empty token
/// cache that acquires a token, is answered 401, reacquires a token and is
/// answered 401 again, ends in the unauthorized failure — after exactly
/// two POSTs, with the cache invalidated both times.
pub proof fn lemma_single_retry_then_fatal(tok1: String, tok2: String)
    ensures
        ({
            let (s0, a0) = spec_start(Option::None);
            let (s1, a1) = spec_step(
                s0,
                HttpOutcome::TokenResponse { status: 200, access_token: Option::Some(tok1) },
            );
            let (s2, a2) = spec_step(s1, HttpOutcome::PostResponse { status: 401 });
            let (s3, a3) = spec_step(
                s2,
                HttpOutcome::TokenResponse { status: 200, access_token: Option::Some(tok2) },
            );
            let (s4, a4) = spec_step(s3, HttpOutcome::PostResponse { status: 401 });
            &&& a0 == DeliveryAction::RequestToken
            &&& a1 == DeliveryAction::PostEvent
            &&& a2 == DeliveryAction::RequestToken
            &&& s2.token is None
            &&& s2.retried
            &&& a3 == DeliveryAction::PostEvent
            &&& a4 == DeliveryAction::Fail(DeliveryError::Unauthorized)
            &&& s4.phase == DeliveryPhase::Done
            &&& s4.posts_made == 2
        }),
{
}

} // verus!
