//! The course of one upstream fetch: wait for a permit, wait out the
//! throttle delay, then attempt the request a bounded number of times. The
//! caller does the waiting and the sending; this module decides what comes
//! next.

use crate::config::ServerConfig;
use crate::pick::{pick, picked_map, property_texts};
use crate::string_map::StringMap;
use crate::text::{eq_ignore_ascii_case, same_ignoring_case};
use vstd::prelude::*;
use vstd::string::StringExecFns;

verus! {

/// Picks the headers of a request that are forwarded upstream: those that
/// the settings name, under the names the settings give them.
pub fn upstream_headers(request_headers: &StringMap, config: &ServerConfig) -> (forwarded: StringMap)
    ensures
        forwarded@ == picked_map(
            request_headers.pairs(),
            property_texts(config.fetch_headers_to_pick@),
        ),
{
    pick(request_headers, config.fetch_headers_to_pick.as_slice())
}

/// What the upstream server answered.
#[derive(Debug)]
pub struct UpstreamResponse {
    /// The status code.
    pub status: u16,
    /// The headers, in the order in which they came.
    pub headers: Vec<(String, String)>,
    /// The body.
    pub body: Vec<u8>,
}

/// What a fetch hands to the rest of the pipeline.
#[derive(Debug)]
pub struct UpstreamFetchResult {
    /// The status code, whatever it is: the fetch does not judge it.
    pub status: u16,
    /// The content type that the server declared, or nothing.
    pub content_type: String,
    /// The body.
    pub data: Vec<u8>,
}

/// Why a fetch gave no result.
#[derive(Debug)]
pub enum FetchError {
    /// The pool of permits was closed.
    PoolClosed,
    /// The attempt was abandoned before it ended.
    Aborted(String),
    /// Every attempt failed in transport; this is what the last one reported.
    Transport(String),
    /// No attempt was allowed.
    NoAttempt,
}

impl FetchError {
    /// The text of the error as it is shown to an operator.
    pub open spec fn message_text(self) -> Seq<char> {
        match self {
            FetchError::PoolClosed => "Semaphore closed"@,
            FetchError::Aborted(detail) => "Join error: "@ + detail@,
            FetchError::Transport(detail) => "Fetch error: "@ + detail@,
            FetchError::NoAttempt => "Unknown fetch error"@,
        }
    }

    /// Renders the error for an operator.
    pub fn message(&self) -> (text: String)
        ensures
            text@ == self.message_text(),
    {
        match self {
            FetchError::PoolClosed => "Semaphore closed".to_owned(),
            FetchError::Aborted(detail) => "Join error: ".to_owned().concat(detail.as_str()),
            FetchError::Transport(detail) => "Fetch error: ".to_owned().concat(detail.as_str()),
            FetchError::NoAttempt => "Unknown fetch error".to_owned(),
        }
    }
}

/// The value of the first header named `content-type`, ASCII case aside, or
/// the empty text where there is none.
pub open spec fn content_type_of(headers: Seq<(String, String)>) -> Seq<char>
    decreases headers.len(),
{
    if headers.len() == 0 {
        Seq::empty()
    } else if same_ignoring_case(headers[0].0@, "content-type"@) {
        headers[0].1@
    } else {
        content_type_of(headers.drop_first())
    }
}

/// Finds the content type among the headers of a response.
pub fn content_type(headers: &Vec<(String, String)>) -> (value: String)
    ensures
        value@ == content_type_of(headers@),
{
    let mut i: usize = 0;
    assert(headers@.skip(0) =~= headers@);
    while i < headers.len()
        invariant
            i <= headers.len(),
            content_type_of(headers@) == content_type_of(headers@.skip(i as int)),
        decreases headers.len() - i,
    {
        assert(headers@.skip(i as int).drop_first() =~= headers@.skip(i + 1));
        if eq_ignore_ascii_case(headers[i].0.as_str(), "content-type") {
            return headers[i].1.clone();
        }
        i += 1;
    }
    String::new()
}

/// Where a fetch stands.
#[derive(Clone, Copy, Debug, PartialEq, Eq, Structural)]
pub enum FetchState {
    /// Waiting for a permit.
    Acquiring,
    /// Holding a permit and waiting out the throttle delay.
    Throttling,
    /// Holding a permit, with the attempt of this number under way.
    Attempting { attempt: u8 },
    /// Over: the permit is given back and the outcome handed out.
    Done,
}

/// What happened to a fetch.
#[derive(Debug)]
pub enum FetchEvent {
    /// A permit was granted.
    PermitGranted,
    /// The pool of permits was closed.
    PoolClosed,
    /// The throttle delay is over.
    DelayElapsed,
    /// The server answered, with whatever status.
    Responded(UpstreamResponse),
    /// The attempt failed to connect, timed out or broke off.
    TransportFailed(String),
    /// The attempt was abandoned before it ended.
    Aborted(String),
}

/// What the caller is to do next.
#[derive(Debug)]
pub enum FetchAction {
    /// Wait this many milliseconds, then report `DelayElapsed`.
    Wait(u64),
    /// Send the request once, with this timeout in milliseconds, and report
    /// how it went.
    Send(u64),
    /// Give back the permit, if one is held, and hand out the outcome.
    Finish(Result<UpstreamFetchResult, FetchError>),
    /// Nothing: the event does not belong to the state.
    Ignore,
}

impl FetchState {
    /// How many permits a fetch in this state holds.
    pub open spec fn permits_held(self) -> nat {
        match self {
            FetchState::Throttling => 1,
            FetchState::Attempting { .. } => 1,
            _ => 0,
        }
    }

    /// How many attempts a fetch in this state may still begin.
    pub open spec fn attempts_left(self, config: ServerConfig) -> nat {
        match self {
            FetchState::Acquiring => config.fetch_attempts as nat,
            FetchState::Throttling => config.fetch_attempts as nat,
            FetchState::Attempting { attempt } => if attempt < config.fetch_attempts {
                (config.fetch_attempts - attempt) as nat
            } else {
                0
            },
            FetchState::Done => 0,
        }
    }
}

/// The state that follows `state` on `event`.
pub open spec fn next_state(state: FetchState, event: FetchEvent, config: ServerConfig) -> FetchState {
    match (state, event) {
        (FetchState::Acquiring, FetchEvent::PermitGranted) => FetchState::Throttling,
        (FetchState::Acquiring, FetchEvent::PoolClosed) => FetchState::Done,
        (FetchState::Throttling, FetchEvent::DelayElapsed) => if config.fetch_attempts >= 1 {
            FetchState::Attempting { attempt: 1 }
        } else {
            FetchState::Done
        },
        (FetchState::Attempting { .. }, FetchEvent::Responded(_)) => FetchState::Done,
        (FetchState::Attempting { attempt }, FetchEvent::TransportFailed(_)) => if attempt
            < config.fetch_attempts {
            FetchState::Attempting { attempt: (attempt + 1) as u8 }
        } else {
            FetchState::Done
        },
        (FetchState::Attempting { .. }, FetchEvent::Aborted(_)) => FetchState::Done,
        _ => state,
    }
}

/// Whether the step from `state` on `event` begins an attempt.
pub open spec fn begins_attempt(state: FetchState, event: FetchEvent, config: ServerConfig) -> bool {
    next_state(state, event, config) is Attempting && next_state(state, event, config) != state
}

/// Whether `result` is what the fetch makes of a response: its status and
/// body, with the content type looked up among its headers.
pub open spec fn carries(result: UpstreamFetchResult, response: UpstreamResponse) -> bool {
    &&& result.status == response.status
    &&& result.content_type@ == content_type_of(response.headers@)
    &&& result.data@ == response.body@
}

/// Whether `action` is what the step from `state` on `event` asks of the
/// caller.
pub open spec fn action_fits(
    state: FetchState,
    event: FetchEvent,
    config: ServerConfig,
    action: FetchAction,
) -> bool {
    match (state, event) {
        (FetchState::Acquiring, FetchEvent::PermitGranted) => action == FetchAction::Wait(
            config.throttle_delay_millis,
        ),
        (FetchState::Acquiring, FetchEvent::PoolClosed) => action == FetchAction::Finish(
            Err(FetchError::PoolClosed),
        ),
        (FetchState::Throttling, FetchEvent::DelayElapsed) => if config.fetch_attempts >= 1 {
            action == FetchAction::Send(config.fetch_timeout_millis)
        } else {
            action == FetchAction::Finish(Err(FetchError::NoAttempt))
        },
        (FetchState::Attempting { .. }, FetchEvent::Responded(response)) => action matches FetchAction::Finish(
            Ok(result),
        ) && carries(result, response),
        (FetchState::Attempting { attempt }, FetchEvent::TransportFailed(detail)) => if attempt
            < config.fetch_attempts {
            action == FetchAction::Send(config.fetch_timeout_millis)
        } else {
            action matches FetchAction::Finish(Err(FetchError::Transport(last))) && last@
                == detail@
        },
        (FetchState::Attempting { .. }, FetchEvent::Aborted(detail)) => action matches FetchAction::Finish(
            Err(FetchError::Aborted(reported)),
        ) && reported@ == detail@,
        _ => action is Ignore,
    }
}

/// The state in which a fetch begins: waiting for a permit.
pub fn begin_fetch() -> (state: FetchState)
    ensures
        state == FetchState::Acquiring,
{
    FetchState::Acquiring
}

/// Takes one step: from the state of a fetch and what happened to it, to
/// its next state and what the caller is to do. A response ends the fetch
/// whatever its status. A transport failure leads to another attempt while
/// attempts are left, and ends the fetch with the failure after the last.
pub fn fetch_step(state: FetchState, event: FetchEvent, config: &ServerConfig) -> (step: (
    FetchState,
    FetchAction,
))
    ensures
        step.0 == next_state(state, event, *config),
        action_fits(state, event, *config, step.1),
{
    match state {
        FetchState::Acquiring => match event {
            FetchEvent::PermitGranted => (
                FetchState::Throttling,
                FetchAction::Wait(config.throttle_delay_millis),
            ),
            FetchEvent::PoolClosed => (
                FetchState::Done,
                FetchAction::Finish(Err(FetchError::PoolClosed)),
            ),
            _ => (state, FetchAction::Ignore),
        },
        FetchState::Throttling => match event {
            FetchEvent::DelayElapsed => if config.fetch_attempts >= 1 {
                (
                    FetchState::Attempting { attempt: 1 },
                    FetchAction::Send(config.fetch_timeout_millis),
                )
            } else {
                (FetchState::Done, FetchAction::Finish(Err(FetchError::NoAttempt)))
            },
            _ => (state, FetchAction::Ignore),
        },
        FetchState::Attempting { attempt } => match event {
            FetchEvent::Responded(response) => {
                let content_type = content_type(&response.headers);
                let result = UpstreamFetchResult {
                    status: response.status,
                    content_type,
                    data: response.body,
                };
                (FetchState::Done, FetchAction::Finish(Ok(result)))
            },
            FetchEvent::TransportFailed(detail) => if attempt < config.fetch_attempts {
                (
                    FetchState::Attempting { attempt: attempt + 1 },
                    FetchAction::Send(config.fetch_timeout_millis),
                )
            } else {
                (FetchState::Done, FetchAction::Finish(Err(FetchError::Transport(detail))))
            },
            FetchEvent::Aborted(detail) => (
                FetchState::Done,
                FetchAction::Finish(Err(FetchError::Aborted(detail))),
            ),
            _ => (state, FetchAction::Ignore),
        },
        FetchState::Done => (state, FetchAction::Ignore),
    }
}

/// The state after a run of events.
pub open spec fn state_after(state: FetchState, events: Seq<FetchEvent>, config: ServerConfig) -> FetchState
    decreases events.len(),
{
    if events.len() == 0 {
        state
    } else {
        next_state(state_after(state, events.drop_last(), config), events.last(), config)
    }
}

/// How many attempts a run of events begins.
pub open spec fn attempts_begun(state: FetchState, events: Seq<FetchEvent>, config: ServerConfig) -> nat
    decreases events.len(),
{
    if events.len() == 0 {
        0
    } else {
        let before = state_after(state, events.drop_last(), config);
        attempts_begun(state, events.drop_last(), config) + if begins_attempt(
            before,
            events.last(),
            config,
        ) {
            1nat
        } else {
            0nat
        }
    }
}

/// A fetch holds one permit from the moment it is granted until the fetch
/// is over, and none before or after; it is over exactly when its outcome
/// is handed out.
pub proof fn lemma_one_permit(
    state: FetchState,
    event: FetchEvent,
    config: ServerConfig,
    action: FetchAction,
)
    requires
        action_fits(state, event, config, action),
    ensures
        state.permits_held() <= 1,
        next_state(state, event, config).permits_held() <= 1,
        state.permits_held() == 0 && next_state(state, event, config).permits_held() == 1 <==> state
            is Acquiring && event is PermitGranted,
        action is Finish <==> !(state is Done) && next_state(state, event, config) is Done,
        action is Finish ==> next_state(state, event, config).permits_held() == 0,
        FetchState::Acquiring.permits_held() == 0,
{
}

/// How many permits a set of fetches holds together.
pub open spec fn permits_in_use(fetches: Seq<FetchState>) -> nat
    decreases fetches.len(),
{
    if fetches.len() == 0 {
        0
    } else {
        permits_in_use(fetches.drop_last()) + fetches.last().permits_held()
    }
}

/// Changing the state of one fetch changes the permits in use by what that
/// fetch holds more or less.
proof fn lemma_permits_after_step(fetches: Seq<FetchState>, which: int, state: FetchState)
    requires
        0 <= which < fetches.len(),
    ensures
        permits_in_use(fetches.update(which, state)) + fetches[which].permits_held()
            == permits_in_use(fetches) + state.permits_held(),
    decreases fetches.len(),
{
    let after = fetches.update(which, state);
    if which == fetches.len() - 1 {
        assert(after.drop_last() =~= fetches.drop_last());
    } else {
        lemma_permits_after_step(fetches.drop_last(), which, state);
        assert(after.drop_last() =~= fetches.drop_last().update(which, state));
    }
}

/// Fetches that run side by side never hold more permits than the pool has,
/// as long as the pool grants a permit only while one is free: each fetch
/// takes one when it is granted and gives it back when it ends.
pub proof fn lemma_pool_never_overdrawn(
    fetches: Seq<FetchState>,
    which: int,
    event: FetchEvent,
    config: ServerConfig,
    capacity: nat,
)
    requires
        0 <= which < fetches.len(),
        permits_in_use(fetches) <= capacity,
        fetches[which] is Acquiring && event is PermitGranted ==> permits_in_use(fetches)
            < capacity,
    ensures
        permits_in_use(fetches.update(which, next_state(fetches[which], event, config)))
            <= capacity,
{
    lemma_permits_after_step(fetches, which, next_state(fetches[which], event, config));
}

/// A transport failure is followed by another attempt exactly while
/// attempts are left, and by the failure itself after the last one. With
/// two attempts allowed, the first failure is retried once and the second
/// ends the fetch.
pub proof fn lemma_retry(attempt: u8, detail: String, config: ServerConfig, action: FetchAction)
    requires
        action_fits(
            FetchState::Attempting { attempt },
            FetchEvent::TransportFailed(detail),
            config,
            action,
        ),
    ensures
        attempt < config.fetch_attempts ==> action is Send && next_state(
            FetchState::Attempting { attempt },
            FetchEvent::TransportFailed(detail),
            config,
        ) == (FetchState::Attempting { attempt: (attempt + 1) as u8 }),
        attempt >= config.fetch_attempts ==> (action matches FetchAction::Finish(
            Err(FetchError::Transport(last)),
        ) && last@ == detail@),
        attempt >= config.fetch_attempts ==> next_state(
            FetchState::Attempting { attempt },
            FetchEvent::TransportFailed(detail),
            config,
        ) is Done,
{
}

/// Whatever happens, a fetch never begins more attempts than its state
/// leaves it.
pub proof fn lemma_attempts_left(state: FetchState, events: Seq<FetchEvent>, config: ServerConfig)
    ensures
        attempts_begun(state, events, config) + state_after(state, events, config).attempts_left(
            config,
        ) <= state.attempts_left(config),
    decreases events.len(),
{
    if events.len() > 0 {
        lemma_attempts_left(state, events.drop_last(), config);
    }
}

/// Whatever happens, a fetch begins no more attempts than the settings
/// allow: with two allowed, there is never a third.
pub proof fn lemma_attempts_bounded(events: Seq<FetchEvent>, config: ServerConfig)
    ensures
        attempts_begun(FetchState::Acquiring, events, config) <= config.fetch_attempts,
{
    lemma_attempts_left(FetchState::Acquiring, events, config);
}

} // verus!
