//! Pairing-code generator loop.
//!
//! Owns a fixed-interval timer; on each tick, if idle and running, it
//! issues one `generate_code` call and reports the outcome to the
//! orchestrator. The timer, the channel and the RPC live outside the
//! library; they drive the state machine below through `tick_start`,
//! `on_generate_result` and `handle_message`.

use vstd::prelude::*;

use crate::errors::ServiceError;
use crate::orchestrator::HandleMessage;
use crate::status::RunningStatus;

verus! {

/// Control messages accepted by the generator loop.
#[derive(Clone, Debug)]
pub enum GCodeHandlerMessage {
    ChangeRunningStatus { status: RunningStatus },
}

/// State owned by the pairing-code generator loop.
#[derive(Clone, Copy, Debug)]
pub struct GenerateCodeHandler {
    /// Call guard: `true` exactly while a `generate_code` call is
    /// outstanding.
    pub is_calling: bool,
    /// Whether a timer tick is permitted to issue a new call.
    pub status: RunningStatus,
}

/// One observable event in the life of the generator loop: a timer tick,
/// the completion of an outstanding call, or a control message.
pub enum GenEvent {
    Tick,
    Response { result: Result<String, ServiceError> },
    Control { message: GCodeHandlerMessage },
}

/// Whether a tick in state `s` starts a `generate_code` call.
pub open spec fn gen_starts_call(s: GenerateCodeHandler, ev: GenEvent) -> bool {
    ev is Tick && !s.is_calling && s.status == RunningStatus::START
}

/// The generator state after one event.
pub open spec fn gen_next(s: GenerateCodeHandler, ev: GenEvent) -> GenerateCodeHandler {
    match ev {
        GenEvent::Tick => GenerateCodeHandler {
            is_calling: s.is_calling || gen_starts_call(s, ev),
            status: s.status,
        },
        GenEvent::Response { .. } => GenerateCodeHandler { is_calling: false, status: s.status },
        GenEvent::Control { message: GCodeHandlerMessage::ChangeRunningStatus { status } } =>
            GenerateCodeHandler { is_calling: s.is_calling, status },
    }
}

/// The generator state after a sequence of events.
pub open spec fn gen_run(s: GenerateCodeHandler, evs: Seq<GenEvent>) -> GenerateCodeHandler
    decreases evs.len(),
{
    if evs.len() == 0 {
        s
    } else {
        gen_run(gen_next(s, evs[0]), evs.drop_first())
    }
}

/// A physically possible run: a call's completion can only be observed
/// while a call is outstanding.
pub open spec fn gen_valid(s: GenerateCodeHandler, evs: Seq<GenEvent>) -> bool
    decreases evs.len(),
{
    evs.len() == 0 || {
        &&& (evs[0] is Response ==> s.is_calling)
        &&& gen_valid(gen_next(s, evs[0]), evs.drop_first())
    }
}

/// How many ticks of the run start a `generate_code` call.
pub open spec fn gen_call_count(s: GenerateCodeHandler, evs: Seq<GenEvent>) -> int
    decreases evs.len(),
{
    if evs.len() == 0 {
        0
    } else {
        (if gen_starts_call(s, evs[0]) {
            1int
        } else {
            0int
        }) + gen_call_count(gen_next(s, evs[0]), evs.drop_first())
    }
}

/// How many call completions the run observes.
pub open spec fn gen_resp_count(evs: Seq<GenEvent>) -> int
    decreases evs.len(),
{
    if evs.len() == 0 {
        0
    } else {
        (if evs[0] is Response {
            1int
        } else {
            0int
        }) + gen_resp_count(evs.drop_first())
    }
}

/// Whether the run contains no control messages.
pub open spec fn gen_control_free(evs: Seq<GenEvent>) -> bool
    decreases evs.len(),
{
    evs.len() == 0 || (!(evs[0] is Control) && gen_control_free(evs.drop_first()))
}

impl GenerateCodeHandler {
    /// A freshly spawned generator loop: idle and running.
    pub fn new() -> (s: Self)
        ensures
            !s.is_calling,
            s.status == RunningStatus::START,
    {
        GenerateCodeHandler { is_calling: false, status: RunningStatus::START }
    }

    /// One timer tick. Returns whether the caller must now issue a
    /// `generate_code` call; if so, the call guard is raised first.
    pub fn tick_start(&mut self) -> (call: bool)
        ensures
            call == gen_starts_call(*old(self), GenEvent::Tick),
            *final(self) == gen_next(*old(self), GenEvent::Tick),
            call == (!old(self).is_calling && old(self).status == RunningStatus::START),
            final(self).is_calling == (old(self).is_calling || call),
            final(self).status == old(self).status,
    {
        if !self.is_calling && self.status == RunningStatus::START {
            self.is_calling = true;
            true
        } else {
            false
        }
    }

    /// The outstanding `generate_code` call completed. The call guard is
    /// lowered whatever came back — a failure is retried on the next tick,
    /// without backoff and without a retry limit — and the outcome is
    /// reported to the orchestrator unchanged.
    pub fn on_generate_result(&mut self, result: Result<String, ServiceError>) -> (event:
        HandleMessage)
        requires
            old(self).is_calling,
        ensures
            *final(self) == gen_next(*old(self), GenEvent::Response { result }),
            !final(self).is_calling,
            final(self).status == old(self).status,
            event == (HandleMessage::GenerateCodeRes { response: result }),
    {
        self.is_calling = false;
        HandleMessage::GenerateCodeRes { response: result }
    }

    /// A control message arrived. Returns whether the loop must
    /// terminate: it does exactly when told to stop, and a stopped loop
    /// does not resume.
    pub fn handle_message(&mut self, message: GCodeHandlerMessage) -> (stop: bool)
        ensures
            *final(self) == gen_next(*old(self), GenEvent::Control { message }),
            final(self).is_calling == old(self).is_calling,
            message matches GCodeHandlerMessage::ChangeRunningStatus { status } ==> {
                &&& final(self).status == status
                &&& stop == (status == RunningStatus::STOP)
            },
    {
        match message {
            GCodeHandlerMessage::ChangeRunningStatus { status } => {
                self.status = status;
                status == RunningStatus::STOP
            },
        }
    }
}

/// Law: the call guard tracks exactly the number of calls still
/// outstanding. Along any physically possible run, calls started plus
/// calls outstanding at the start equal completions observed plus calls
/// outstanding at the end.
pub proof fn lemma_gen_guard_tracks_outstanding(s: GenerateCodeHandler, evs: Seq<GenEvent>)
    requires
        gen_valid(s, evs),
    ensures
        gen_call_count(s, evs) + (if s.is_calling {
            1int
        } else {
            0int
        }) == gen_resp_count(evs) + (if gen_run(s, evs).is_calling {
            1int
        } else {
            0int
        }),
    decreases evs.len(),
{
    if evs.len() > 0 {
        lemma_gen_guard_tracks_outstanding(gen_next(s, evs[0]), evs.drop_first());
    }
}

/// Validity is closed under taking prefixes of a run.
pub proof fn lemma_gen_valid_prefix(s: GenerateCodeHandler, evs: Seq<GenEvent>, i: int)
    requires
        gen_valid(s, evs),
        0 <= i <= evs.len(),
    ensures
        gen_valid(s, evs.take(i)),
    decreases evs.len(),
{
    if i > 0 && evs.len() > 0 {
        lemma_gen_valid_prefix(gen_next(s, evs[0]), evs.drop_first(), i - 1);
        assert(evs.take(i).drop_first() =~= evs.drop_first().take(i - 1));
        assert(gen_valid(s, evs.take(i)));
    } else {
        assert(evs.take(i).len() == 0);
    }
}

/// Law: never two overlapping `generate_code` calls. Starting idle, at
/// every point of any physically possible run the number of calls started
/// exceeds the number completed by at most one, and the guard is down
/// exactly when the two are equal.
pub proof fn lemma_no_overlapping_generate_calls(s: GenerateCodeHandler, evs: Seq<GenEvent>)
    requires
        !s.is_calling,
        gen_valid(s, evs),
    ensures
        forall|i: int|
            0 <= i <= evs.len() ==> {
                &&& gen_resp_count(#[trigger] evs.take(i)) <= gen_call_count(s, evs.take(i))
                &&& gen_call_count(s, evs.take(i)) <= gen_resp_count(evs.take(i)) + 1
            },
{
    assert forall|i: int| 0 <= i <= evs.len() implies {
        &&& gen_resp_count(#[trigger] evs.take(i)) <= gen_call_count(s, evs.take(i))
        &&& gen_call_count(s, evs.take(i)) <= gen_resp_count(evs.take(i)) + 1
    } by {
        lemma_gen_valid_prefix(s, evs, i);
        lemma_gen_guard_tracks_outstanding(s, evs.take(i));
    }
}

/// Law: the call guard is down immediately before and immediately after a
/// tick's handling. A tick that starts no call leaves the guard down; a
/// tick that starts a call raises it only until the call's completion is
/// handled.
pub proof fn lemma_guard_clear_around_tick(s: GenerateCodeHandler, result: Result<
    String,
    ServiceError,
>)
    requires
        !s.is_calling,
    ensures
        !gen_starts_call(s, GenEvent::Tick) ==> !gen_next(s, GenEvent::Tick).is_calling,
        !gen_next(gen_next(s, GenEvent::Tick), GenEvent::Response { result }).is_calling,
{
}

/// Law: retries are unbounded by design. After any completed call —
/// failed or not — a generator that is still running starts a new call on
/// the very next tick: no backoff, no retry limit, no error state.
pub proof fn lemma_retry_on_next_tick(s: GenerateCodeHandler, result: Result<String, ServiceError>)
    requires
        s.status == RunningStatus::START,
    ensures
        gen_starts_call(gen_next(s, GenEvent::Response { result }), GenEvent::Tick),
{
}

/// Law: a stopped generator issues no further calls. In any physically
/// possible run from a stopped state that contains no further control
/// messages, no tick starts a call.
pub proof fn lemma_stopped_generator_never_calls(s: GenerateCodeHandler, evs: Seq<GenEvent>)
    requires
        s.status == RunningStatus::STOP,
        gen_valid(s, evs),
        gen_control_free(evs),
    ensures
        gen_call_count(s, evs) == 0,
    decreases evs.len(),
{
    if evs.len() > 0 {
        lemma_stopped_generator_never_calls(gen_next(s, evs[0]), evs.drop_first());
    }
}

} // verus!
