//! Link-machine orchestrator.
//!
//! Wires the pairing-code generator and the provisioning poller together
//! and to the UI without either loop knowing about the other. The select
//! loop, the channels and the worker tasks live outside the library; each
//! received worker event is handed to `handle_event`, which returns the
//! messages to forward.
//!
//! Session state machine: `Idle -> Linking -> Linked | Failed`. A screen
//! activation restarts at `Linking`; nothing leaves `Linked` or `Failed`
//! without a fresh activation. A provisioning failure reported by the
//! poller is treated as terminal by policy: it is surfaced to the UI as a
//! distinct error signal — never conflated with success — and both
//! workers are stopped. A failed `generate_code` call is not terminal:
//! its message is surfaced and the loops keep running.

use vstd::prelude::*;

use crate::errors::ServiceError;
use crate::generator::GCodeHandlerMessage;
use crate::poller::PCodeHandlerMessage;
use crate::status::RunningStatus;

verus! {

/// Events the worker loops report into the orchestrator's shared channel.
#[derive(Debug)]
pub enum HandleMessage {
    GenerateCodeRes { response: Result<String, ServiceError> },
    ProvisionCodeRes { response: Result<bool, ServiceError> },
}

/// Messages the orchestrator (and the connectivity probe) emit to the UI.
#[derive(Clone, Debug)]
pub enum OutputMessage {
    CodeChanged(String),
    GenerateCodeError(String),
    ProvisionSuccess,
    ShowError(String),
    ConnectionNotFound,
    ProceedToNextScreen,
    BackRequested,
}

/// Where a linking session stands.
#[derive(Clone, Copy, Debug, PartialEq, Eq, Structural)]
pub enum LinkState {
    Idle,
    Linking,
    Linked,
    Failed,
}

/// What one orchestrator step asks its surroundings to do: at most one
/// message to each worker loop and one to the UI, and whether the session
/// is over. Sends are fire-and-forget; a failed send is logged by the
/// caller, not retried.
pub struct StepEffects {
    pub to_generator: Option<GCodeHandlerMessage>,
    pub to_poller: Option<PCodeHandlerMessage>,
    pub to_ui: Option<OutputMessage>,
    pub session_done: bool,
}

/// The coordinating event loop's own state.
#[derive(Clone, Copy, Debug)]
pub struct LinkMachineHandler {
    pub state: LinkState,
}

/// Whether an event ends the session when it arrives during `Linking`: a
/// redeemed code, or a provisioning failure (terminal by policy).
pub open spec fn orch_terminal_event(ev: HandleMessage) -> bool {
    ev matches HandleMessage::ProvisionCodeRes { response } && !(response matches Ok(false))
}

/// The session state after one worker event. Events arriving outside
/// `Linking` are ignored.
pub open spec fn orch_next_state(st: LinkState, ev: HandleMessage) -> LinkState {
    if st != LinkState::Linking {
        st
    } else {
        match ev {
            HandleMessage::GenerateCodeRes { .. } => LinkState::Linking,
            HandleMessage::ProvisionCodeRes { response } => match response {
                Ok(redeemed) => if redeemed {
                    LinkState::Linked
                } else {
                    LinkState::Linking
                },
                Err(_) => LinkState::Failed,
            },
        }
    }
}

/// Whether one step emits the stop pair: one `STOP` to each worker.
pub open spec fn orch_emits_stops(st: LinkState, ev: HandleMessage) -> bool {
    st == LinkState::Linking && orch_terminal_event(ev)
}

/// The session state after a sequence of worker events.
pub open spec fn orch_run(st: LinkState, evs: Seq<HandleMessage>) -> LinkState
    decreases evs.len(),
{
    if evs.len() == 0 {
        st
    } else {
        orch_run(orch_next_state(st, evs[0]), evs.drop_first())
    }
}

/// How many steps of the run emit the stop pair.
pub open spec fn orch_stop_count(st: LinkState, evs: Seq<HandleMessage>) -> int
    decreases evs.len(),
{
    if evs.len() == 0 {
        0
    } else {
        (if orch_emits_stops(st, evs[0]) {
            1int
        } else {
            0int
        }) + orch_stop_count(orch_next_state(st, evs[0]), evs.drop_first())
    }
}

impl LinkMachineHandler {
    /// A fresh orchestrator: no session yet.
    pub fn new() -> (s: Self)
        ensures
            s.state == LinkState::Idle,
    {
        LinkMachineHandler { state: LinkState::Idle }
    }

    /// Screen activation: the session (re)starts at `Linking`. Returns
    /// whether the worker loops must be spawned — they must not be when a
    /// session is already running, so repeated activation never
    /// double-spawns workers.
    pub fn activate(&mut self) -> (spawn: bool)
        ensures
            final(self).state == LinkState::Linking,
            spawn == (old(self).state != LinkState::Linking),
    {
        let spawn = !(self.state == LinkState::Linking);
        self.state = LinkState::Linking;
        spawn
    }

    /// The user navigated away: both workers are told to stop and the
    /// session returns to `Idle`.
    pub fn deactivate(&mut self) -> (eff: StepEffects)
        ensures
            final(self).state == LinkState::Idle,
            eff.to_generator == (Some(
                GCodeHandlerMessage::ChangeRunningStatus { status: RunningStatus::STOP },
            )),
            eff.to_poller == (Some(
                PCodeHandlerMessage::ChangeRunningStatus { status: RunningStatus::STOP },
            )),
            eff.to_ui is None,
            eff.session_done,
    {
        self.state = LinkState::Idle;
        StepEffects {
            to_generator: Some(
                GCodeHandlerMessage::ChangeRunningStatus { status: RunningStatus::STOP },
            ),
            to_poller: Some(
                PCodeHandlerMessage::ChangeRunningStatus { status: RunningStatus::STOP },
            ),
            to_ui: None,
            session_done: true,
        }
    }

    /// One step of the event loop. During `Linking`:
    /// - a generated code is forwarded to the poller and to the UI;
    /// - a failed `generate_code` call surfaces its message to the UI and
    ///   the loops keep running;
    /// - a redeemed code stops both workers, reports success to the UI
    ///   and ends the session in `Linked`;
    /// - "not yet redeemed" changes nothing;
    /// - a provisioning failure stops both workers, surfaces a distinct
    ///   error to the UI and ends the session in `Failed`.
    /// Outside `Linking` every event is ignored.
    pub fn handle_event(&mut self, event: HandleMessage) -> (eff: StepEffects)
        ensures
            final(self).state == orch_next_state(old(self).state, event),
            (eff.to_generator is Some) == orch_emits_stops(old(self).state, event),
            (eff.to_poller matches Some(PCodeHandlerMessage::ChangeRunningStatus { .. }))
                == orch_emits_stops(old(self).state, event),
            eff.session_done == orch_emits_stops(old(self).state, event),
            orch_emits_stops(old(self).state, event) ==> {
                &&& eff.to_generator == (Some(
                    GCodeHandlerMessage::ChangeRunningStatus { status: RunningStatus::STOP },
                ))
                &&& eff.to_poller == (Some(
                    PCodeHandlerMessage::ChangeRunningStatus { status: RunningStatus::STOP },
                ))
            },
            old(self).state != LinkState::Linking ==> {
                &&& eff.to_generator is None
                &&& eff.to_poller is None
                &&& eff.to_ui is None
                &&& !eff.session_done
            },
            old(self).state == LinkState::Linking ==> match event {
                HandleMessage::GenerateCodeRes { response: Ok(code) } => {
                    &&& eff.to_poller matches Some(PCodeHandlerMessage::CodeChanged { code: c })
                        && c@ == code@
                    &&& eff.to_ui matches Some(OutputMessage::CodeChanged(c)) && c@ == code@
                },
                HandleMessage::GenerateCodeRes { response: Err(e) } => {
                    &&& eff.to_poller is None
                    &&& eff.to_ui matches Some(OutputMessage::GenerateCodeError(m)) && m@
                        == e.message@
                },
                HandleMessage::ProvisionCodeRes { response: Ok(redeemed) } => if redeemed {
                    eff.to_ui == (Some(OutputMessage::ProvisionSuccess))
                } else {
                    eff.to_poller is None && eff.to_ui is None
                },
                HandleMessage::ProvisionCodeRes { response: Err(e) } => {
                    eff.to_ui matches Some(OutputMessage::ShowError(m)) && m@ == e.message@
                },
            },
    {
        if !(self.state == LinkState::Linking) {
            return StepEffects { to_generator: None, to_poller: None, to_ui: None, session_done: false };
        }
        match event {
            HandleMessage::GenerateCodeRes { response } => match response {
                Ok(code) => StepEffects {
                    to_generator: None,
                    to_poller: Some(PCodeHandlerMessage::CodeChanged { code: code.clone() }),
                    to_ui: Some(OutputMessage::CodeChanged(code)),
                    session_done: false,
                },
                Err(e) => StepEffects {
                    to_generator: None,
                    to_poller: None,
                    to_ui: Some(OutputMessage::GenerateCodeError(e.message)),
                    session_done: false,
                },
            },
            HandleMessage::ProvisionCodeRes { response } => match response {
                Ok(redeemed) => {
                    if redeemed {
                        self.state = LinkState::Linked;
                        StepEffects {
                            to_generator: Some(
                                GCodeHandlerMessage::ChangeRunningStatus {
                                    status: RunningStatus::STOP,
                                },
                            ),
                            to_poller: Some(
                                PCodeHandlerMessage::ChangeRunningStatus {
                                    status: RunningStatus::STOP,
                                },
                            ),
                            to_ui: Some(OutputMessage::ProvisionSuccess),
                            session_done: true,
                        }
                    } else {
                        StepEffects {
                            to_generator: None,
                            to_poller: None,
                            to_ui: None,
                            session_done: false,
                        }
                    }
                },
                Err(e) => {
                    self.state = LinkState::Failed;
                    StepEffects {
                        to_generator: Some(
                            GCodeHandlerMessage::ChangeRunningStatus {
                                status: RunningStatus::STOP,
                            },
                        ),
                        to_poller: Some(
                            PCodeHandlerMessage::ChangeRunningStatus {
                                status: RunningStatus::STOP,
                            },
                        ),
                        to_ui: Some(OutputMessage::ShowError(e.message)),
                        session_done: true,
                    }
                },
            },
        }
    }
}

/// What a link-screen shell does with a message the orchestrator emitted.
#[derive(Clone, Copy, Debug, PartialEq, Eq, Structural)]
pub enum LinkMachineOutput {
    BackPressed,
    NextPressed,
    ShowError,
}

/// How the link screen reacts to an orchestrator message: success moves
/// on, an error is shown; a changed code or a generate-code error only
/// updates the screen in place.
pub fn link_page_output(message: &OutputMessage) -> (r: Option<LinkMachineOutput>)
    ensures
        r == match *message {
            OutputMessage::ProvisionSuccess => Some(LinkMachineOutput::NextPressed),
            OutputMessage::ShowError(_) => Some(LinkMachineOutput::ShowError),
            OutputMessage::BackRequested => Some(LinkMachineOutput::BackPressed),
            _ => None::<LinkMachineOutput>,
        },
{
    match message {
        OutputMessage::ProvisionSuccess => Some(LinkMachineOutput::NextPressed),
        OutputMessage::ShowError(_) => Some(LinkMachineOutput::ShowError),
        OutputMessage::BackRequested => Some(LinkMachineOutput::BackPressed),
        _ => None,
    }
}

/// A settled session ignores everything: from any state other than
/// `Linking`, a run of worker events changes nothing and emits no stop
/// pair.
pub proof fn lemma_settled_session_is_inert(st: LinkState, evs: Seq<HandleMessage>)
    requires
        st != LinkState::Linking,
    ensures
        orch_run(st, evs) == st,
        orch_stop_count(st, evs) == 0,
    decreases evs.len(),
{
    if evs.len() > 0 {
        lemma_settled_session_is_inert(orch_next_state(st, evs[0]), evs.drop_first());
    }
}

/// Law: the stop pair is never emitted twice. Whatever events arrive in
/// whatever order, a run from `Linking` tells each worker to stop at most
/// once — the first terminal event settles the session, and a settled
/// session emits nothing.
pub proof fn lemma_at_most_one_stop_pair(evs: Seq<HandleMessage>)
    ensures
        orch_stop_count(LinkState::Linking, evs) <= 1,
    decreases evs.len(),
{
    if evs.len() > 0 {
        let st1 = orch_next_state(LinkState::Linking, evs[0]);
        if orch_terminal_event(evs[0]) {
            lemma_settled_session_is_inert(st1, evs.drop_first());
        } else {
            lemma_at_most_one_stop_pair(evs.drop_first());
        }
    }
}

/// Law: once the orchestrator observes the end of provisioning, each
/// worker is told to stop exactly once. If the i-th event of a run from
/// `Linking` is the first terminal one, the stop pair is emitted at that
/// step and at no other; afterwards the session sits in `Linked` or
/// `Failed` and ignores every further event. That no RPC follows the stop
/// at the workers' side is `lemma_stopped_generator_never_calls` and
/// `lemma_stopped_poller_never_calls`.
pub proof fn lemma_stop_pair_exactly_once(evs: Seq<HandleMessage>, i: int)
    requires
        0 <= i < evs.len(),
        orch_terminal_event(evs[i]),
        forall|j: int| 0 <= j < i ==> !orch_terminal_event(#[trigger] evs[j]),
    ensures
        orch_stop_count(LinkState::Linking, evs) == 1,
        orch_run(LinkState::Linking, evs) != LinkState::Linking,
    decreases i,
{
    if i == 0 {
        let st1 = orch_next_state(LinkState::Linking, evs[0]);
        assert(st1 != LinkState::Linking);
        lemma_settled_session_is_inert(st1, evs.drop_first());
    } else {
        assert(!orch_terminal_event(evs[0]));
        assert(orch_next_state(LinkState::Linking, evs[0]) == LinkState::Linking);
        assert(forall|j: int|
            0 <= j < i - 1 ==> !orch_terminal_event(#[trigger] evs.drop_first()[j]));
        lemma_stop_pair_exactly_once(evs.drop_first(), i - 1);
    }
}

} // verus!
