//! Provisioning poller loop.
//!
//! Owns its own fixed-interval timer, independent of the generator's; on
//! each tick, if idle, running, not yet done, and a pairing code is
//! known, it issues one `provision_by_code` call. The causal order
//! between "code known" and "redemption attempted" is enforced only by
//! the `CodeChanged` message: no tick attempts redemption before one has
//! been handled.

use vstd::prelude::*;

use crate::errors::ServiceError;
use crate::orchestrator::HandleMessage;
use crate::status::RunningStatus;

verus! {

/// Control messages accepted by the poller loop. `CodeChanged` stores or
/// replaces the current code; it does not itself trigger an attempt — the
/// next tick does.
#[derive(Clone, Debug)]
pub enum PCodeHandlerMessage {
    ChangeRunningStatus { status: RunningStatus },
    CodeChanged { code: String },
}

/// State owned by the provisioning poller loop.
#[derive(Clone, Debug)]
pub struct ProvisionCodeHandler {
    /// Call guard: `true` exactly while a `provision_by_code` call is
    /// outstanding.
    pub is_calling: bool,
    /// Whether a timer tick is permitted to issue a new call.
    pub status: RunningStatus,
    /// The current pairing code, once one is known.
    pub code: Option<String>,
    /// Terminal flag: set once a code was redeemed; no further polling.
    pub done: bool,
}

/// One observable event in the life of the poller loop.
pub enum PollEvent {
    Tick,
    Response { result: Result<bool, ServiceError> },
    Control { message: PCodeHandlerMessage },
}

/// Whether a tick in state `s` starts a `provision_by_code` call.
pub open spec fn poll_starts_call(s: ProvisionCodeHandler, ev: PollEvent) -> bool {
    ev is Tick && !s.is_calling && s.status == RunningStatus::START && s.code is Some && !s.done
}

/// The poller state after one event.
pub open spec fn poll_next(s: ProvisionCodeHandler, ev: PollEvent) -> ProvisionCodeHandler {
    match ev {
        PollEvent::Tick => ProvisionCodeHandler {
            is_calling: s.is_calling || poll_starts_call(s, ev),
            status: s.status,
            code: s.code,
            done: s.done,
        },
        PollEvent::Response { result } => ProvisionCodeHandler {
            is_calling: false,
            status: s.status,
            code: s.code,
            done: s.done || result matches Ok(true),
        },
        PollEvent::Control { message } => match message {
            PCodeHandlerMessage::ChangeRunningStatus { status } => ProvisionCodeHandler {
                is_calling: s.is_calling,
                status,
                code: s.code,
                done: s.done,
            },
            PCodeHandlerMessage::CodeChanged { code } => ProvisionCodeHandler {
                is_calling: s.is_calling,
                status: s.status,
                code: Some(code),
                done: s.done,
            },
        },
    }
}

/// The poller state after a sequence of events.
pub open spec fn poll_run(s: ProvisionCodeHandler, evs: Seq<PollEvent>) -> ProvisionCodeHandler
    decreases evs.len(),
{
    if evs.len() == 0 {
        s
    } else {
        poll_run(poll_next(s, evs[0]), evs.drop_first())
    }
}

/// A physically possible run: a call's completion can only be observed
/// while a call is outstanding.
pub open spec fn poll_valid(s: ProvisionCodeHandler, evs: Seq<PollEvent>) -> bool
    decreases evs.len(),
{
    evs.len() == 0 || {
        &&& (evs[0] is Response ==> s.is_calling)
        &&& poll_valid(poll_next(s, evs[0]), evs.drop_first())
    }
}

/// How many ticks of the run start a `provision_by_code` call.
pub open spec fn poll_call_count(s: ProvisionCodeHandler, evs: Seq<PollEvent>) -> int
    decreases evs.len(),
{
    if evs.len() == 0 {
        0
    } else {
        (if poll_starts_call(s, evs[0]) {
            1int
        } else {
            0int
        }) + poll_call_count(poll_next(s, evs[0]), evs.drop_first())
    }
}

/// How many call completions the run observes.
pub open spec fn poll_resp_count(evs: Seq<PollEvent>) -> int
    decreases evs.len(),
{
    if evs.len() == 0 {
        0
    } else {
        (if evs[0] is Response {
            1int
        } else {
            0int
        }) + poll_resp_count(evs.drop_first())
    }
}

/// Whether the run contains no `CodeChanged` message.
pub open spec fn poll_code_free(evs: Seq<PollEvent>) -> bool
    decreases evs.len(),
{
    evs.len() == 0 || {
        &&& !(evs[0] matches PollEvent::Control {
            message: PCodeHandlerMessage::CodeChanged { .. },
        })
        &&& poll_code_free(evs.drop_first())
    }
}

/// Whether the run contains no `ChangeRunningStatus` message.
pub open spec fn poll_status_control_free(evs: Seq<PollEvent>) -> bool
    decreases evs.len(),
{
    evs.len() == 0 || {
        &&& !(evs[0] matches PollEvent::Control {
            message: PCodeHandlerMessage::ChangeRunningStatus { .. },
        })
        &&& poll_status_control_free(evs.drop_first())
    }
}

impl ProvisionCodeHandler {
    /// A freshly spawned poller loop: idle, running, no code known.
    pub fn new() -> (s: Self)
        ensures
            !s.is_calling,
            s.status == RunningStatus::START,
            s.code is None,
            !s.done,
    {
        ProvisionCodeHandler {
            is_calling: false,
            status: RunningStatus::START,
            code: None,
            done: false,
        }
    }

    /// One timer tick. Returns the code to attempt redemption with, if
    /// the tick is permitted to: the guard is down, the loop is running,
    /// it is not done, and — checked before anything else may call — a
    /// code is known. If a call starts, the guard is raised first.
    pub fn tick_start(&mut self) -> (call: Option<String>)
        ensures
            (call is Some) == poll_starts_call(*old(self), PollEvent::Tick),
            *final(self) == poll_next(*old(self), PollEvent::Tick),
            call is Some ==> call == old(self).code,
            final(self).is_calling == (old(self).is_calling || call is Some),
            final(self).status == old(self).status,
            final(self).code == old(self).code,
            final(self).done == old(self).done,
    {
        if !self.is_calling && self.status == RunningStatus::START && !self.done {
            match &self.code {
                Some(code) => {
                    let current = code.clone();
                    self.is_calling = true;
                    Some(current)
                },
                None => None,
            }
        } else {
            None
        }
    }

    /// The outstanding `provision_by_code` call completed. On a redeemed
    /// code the loop becomes done — terminal, no further polling — and
    /// reports success to the orchestrator; "not yet redeemed" and failed
    /// calls are not surfaced, the loop just keeps polling.
    pub fn on_provision_result(&mut self, result: Result<bool, ServiceError>) -> (emit: Option<
        HandleMessage,
    >)
        requires
            old(self).is_calling,
        ensures
            *final(self) == poll_next(*old(self), PollEvent::Response { result }),
            !final(self).is_calling,
            final(self).status == old(self).status,
            final(self).code == old(self).code,
            final(self).done == (old(self).done || result matches Ok(true)),
            (emit is Some) == (result matches Ok(true)),
            emit matches Some(m) ==> m == (HandleMessage::ProvisionCodeRes {
                response: Ok(true),
            }),
    {
        self.is_calling = false;
        match result {
            Ok(redeemed) => {
                if redeemed {
                    self.done = true;
                    Some(HandleMessage::ProvisionCodeRes { response: Ok(true) })
                } else {
                    None
                }
            },
            Err(_) => None,
        }
    }

    /// A control message arrived: a new running status, or the current
    /// pairing code. Returns whether the loop must terminate, which it
    /// does exactly when told to stop.
    pub fn handle_message(&mut self, message: PCodeHandlerMessage) -> (stop: bool)
        ensures
            *final(self) == poll_next(*old(self), PollEvent::Control { message }),
            final(self).is_calling == old(self).is_calling,
            final(self).done == old(self).done,
            message matches PCodeHandlerMessage::ChangeRunningStatus { status } ==> {
                &&& final(self).status == status
                &&& final(self).code == old(self).code
                &&& stop == (status == RunningStatus::STOP)
            },
            message matches PCodeHandlerMessage::CodeChanged { code } ==> {
                &&& final(self).code == Some(code)
                &&& final(self).status == old(self).status
                &&& !stop
            },
    {
        match message {
            PCodeHandlerMessage::ChangeRunningStatus { status } => {
                self.status = status;
                status == RunningStatus::STOP
            },
            PCodeHandlerMessage::CodeChanged { code } => {
                self.code = Some(code);
                false
            },
        }
    }
}

/// Law: the poller's call guard tracks exactly the number of calls still
/// outstanding, so this loop too never has two calls in flight.
pub proof fn lemma_poll_guard_tracks_outstanding(s: ProvisionCodeHandler, evs: Seq<PollEvent>)
    requires
        poll_valid(s, evs),
    ensures
        poll_call_count(s, evs) + (if s.is_calling {
            1int
        } else {
            0int
        }) == poll_resp_count(evs) + (if poll_run(s, evs).is_calling {
            1int
        } else {
            0int
        }),
    decreases evs.len(),
{
    if evs.len() > 0 {
        lemma_poll_guard_tracks_outstanding(poll_next(s, evs[0]), evs.drop_first());
    }
}

/// Law: absence of a code implies absence of redemption attempts. In any
/// physically possible run that starts with no code known and delivers no
/// `CodeChanged` message, not a single `provision_by_code` call starts,
/// whatever the ticks, completions and status changes.
pub proof fn lemma_no_call_without_code(s: ProvisionCodeHandler, evs: Seq<PollEvent>)
    requires
        s.code is None,
        poll_valid(s, evs),
        poll_code_free(evs),
    ensures
        poll_call_count(s, evs) == 0,
    decreases evs.len(),
{
    if evs.len() > 0 {
        lemma_no_call_without_code(poll_next(s, evs[0]), evs.drop_first());
    }
}

/// Law: a stopped poller issues no further calls. In any physically
/// possible run from a stopped state that contains no further status
/// change, no tick starts a call — a `CodeChanged` message does not
/// resume it.
pub proof fn lemma_stopped_poller_never_calls(s: ProvisionCodeHandler, evs: Seq<PollEvent>)
    requires
        s.status == RunningStatus::STOP,
        poll_valid(s, evs),
        poll_status_control_free(evs),
    ensures
        poll_call_count(s, evs) == 0,
    decreases evs.len(),
{
    if evs.len() > 0 {
        lemma_stopped_poller_never_calls(poll_next(s, evs[0]), evs.drop_first());
    }
}

/// Law: redemption is terminal. Once the poller is done, no event of any
/// kind — tick, completion, status change or a fresh code — ever starts
/// another call.
pub proof fn lemma_done_poller_never_calls(s: ProvisionCodeHandler, evs: Seq<PollEvent>)
    requires
        s.done,
        poll_valid(s, evs),
    ensures
        poll_call_count(s, evs) == 0,
    decreases evs.len(),
{
    if evs.len() > 0 {
        lemma_done_poller_never_calls(poll_next(s, evs[0]), evs.drop_first());
    }
}

} // verus!
