//! Connectivity probe.
//!
//! A one-shot delayed check: on activation it schedules a single delayed
//! `ping`, unless the cancellation flag is already set, and classifies
//! the result into one of four UI outcomes. Cancellation is advisory and
//! non-preemptive: navigating back sets a monotonic flag that prevents
//! scheduling a *new* check, but a check already scheduled still runs and
//! its outcome is still delivered. The delay, the task and the RPC live
//! outside the library.

use vstd::prelude::*;

use crate::errors::{ErrorClass, ServiceError};
use crate::orchestrator::OutputMessage;
use crate::responses::PingResponse;

verus! {

/// What the probe's screen forwards outward.
#[derive(Clone, Debug)]
pub enum CheckInternetOutput {
    BackPressed,
    LinkMachine,
    ConnectionNotFound,
    ShowError(String),
}

/// State owned by the connectivity-probe screen.
#[derive(Clone, Copy, Debug)]
pub struct CheckInternet {
    /// Monotonic cancellation flag: set on back-navigation, never
    /// cleared within the screen's lifetime.
    pub cancel_flag: bool,
    /// Whether a delayed check is scheduled or in flight.
    pub scheduled: bool,
}

/// One observable event in the life of the probe.
pub enum ProbeEvent {
    Activate,
    Back,
    Complete { ping: Result<PingResponse, ServiceError> },
}

/// Whether the agent's answer signals readiness.
pub open spec fn ping_ready(resp: PingResponse) -> bool {
    resp.code@ == "success"@
}

/// The one UI outcome a completed check must deliver for a given ping
/// result: ready moves on, reachable-but-not-ready reports a missing
/// connection, a refused connection and an in-call failure each show
/// their own error text.
pub open spec fn probe_outcome_ok(ping: Result<PingResponse, ServiceError>, out: OutputMessage) -> bool {
    match ping {
        Ok(resp) => if ping_ready(resp) {
            out is ProceedToNextScreen
        } else {
            out is ConnectionNotFound
        },
        Err(e) => if e.class is ConnectionRefused {
            out matches OutputMessage::ShowError(m) && m@ == "Machine Agent is not running"@
        } else {
            out matches OutputMessage::ShowError(m) && m@ == "Try after some time!"@
        },
    }
}

/// Whether an activation in state `s` schedules a new delayed check.
pub open spec fn probe_schedules(s: CheckInternet, ev: ProbeEvent) -> bool {
    ev is Activate && !s.cancel_flag && !s.scheduled
}

/// The probe state after one event.
pub open spec fn probe_next(s: CheckInternet, ev: ProbeEvent) -> CheckInternet {
    match ev {
        ProbeEvent::Activate => CheckInternet {
            cancel_flag: s.cancel_flag,
            scheduled: s.scheduled || probe_schedules(s, ev),
        },
        ProbeEvent::Back => CheckInternet { cancel_flag: true, scheduled: s.scheduled },
        ProbeEvent::Complete { .. } => CheckInternet {
            cancel_flag: s.cancel_flag,
            scheduled: false,
        },
    }
}

/// The probe state after a sequence of events.
pub open spec fn probe_run(s: CheckInternet, evs: Seq<ProbeEvent>) -> CheckInternet
    decreases evs.len(),
{
    if evs.len() == 0 {
        s
    } else {
        probe_run(probe_next(s, evs[0]), evs.drop_first())
    }
}

/// A physically possible run: a check only completes while one is
/// scheduled or in flight. The cancellation flag is deliberately absent
/// here — a check in flight completes whether or not the flag was set
/// after it was scheduled.
pub open spec fn probe_valid(s: CheckInternet, evs: Seq<ProbeEvent>) -> bool
    decreases evs.len(),
{
    evs.len() == 0 || {
        &&& (evs[0] is Complete ==> s.scheduled)
        &&& probe_valid(probe_next(s, evs[0]), evs.drop_first())
    }
}

/// How many activations of the run schedule a new check.
pub open spec fn probe_schedule_count(s: CheckInternet, evs: Seq<ProbeEvent>) -> int
    decreases evs.len(),
{
    if evs.len() == 0 {
        0
    } else {
        (if probe_schedules(s, evs[0]) {
            1int
        } else {
            0int
        }) + probe_schedule_count(probe_next(s, evs[0]), evs.drop_first())
    }
}

/// How many checks of the run complete — each delivers exactly one UI
/// outcome.
pub open spec fn probe_complete_count(evs: Seq<ProbeEvent>) -> int
    decreases evs.len(),
{
    if evs.len() == 0 {
        0
    } else {
        (if evs[0] is Complete {
            1int
        } else {
            0int
        }) + probe_complete_count(evs.drop_first())
    }
}

/// Classifies the result of the delayed `ping` into the single UI
/// outcome it must deliver.
pub fn classify_ping(ping: &Result<PingResponse, ServiceError>) -> (out: OutputMessage)
    ensures
        probe_outcome_ok(*ping, out),
{
    match ping {
        Ok(resp) => {
            let ready_code: String = "success".to_owned();
            if resp.code.eq(&ready_code) {
                OutputMessage::ProceedToNextScreen
            } else {
                OutputMessage::ConnectionNotFound
            }
        },
        Err(e) => match e.class {
            ErrorClass::ConnectionRefused => OutputMessage::ShowError(
                "Machine Agent is not running".to_owned(),
            ),
            _ => OutputMessage::ShowError("Try after some time!".to_owned()),
        },
    }
}

impl CheckInternet {
    /// A fresh probe screen: not cancelled, nothing scheduled.
    pub fn new() -> (s: Self)
        ensures
            !s.cancel_flag,
            !s.scheduled,
    {
        CheckInternet { cancel_flag: false, scheduled: false }
    }

    /// The screen was activated. Returns whether a new delayed check must
    /// be scheduled: only when the cancellation flag is unset and no check
    /// is already pending, so repeated activation never double-schedules.
    pub fn activate(&mut self) -> (schedule: bool)
        ensures
            schedule == probe_schedules(*old(self), ProbeEvent::Activate),
            *final(self) == probe_next(*old(self), ProbeEvent::Activate),
            schedule == (!old(self).cancel_flag && !old(self).scheduled),
            final(self).cancel_flag == old(self).cancel_flag,
            final(self).scheduled == (old(self).scheduled || schedule),
    {
        if !self.cancel_flag && !self.scheduled {
            self.scheduled = true;
            true
        } else {
            false
        }
    }

    /// The user navigated back: the cancellation flag is set — never to
    /// be cleared again — and the back-press is forwarded. A check
    /// already scheduled is not aborted.
    pub fn back(&mut self) -> (out: CheckInternetOutput)
        ensures
            *final(self) == probe_next(*old(self), ProbeEvent::Back),
            final(self).cancel_flag,
            final(self).scheduled == old(self).scheduled,
            out is BackPressed,
    {
        self.cancel_flag = true;
        CheckInternetOutput::BackPressed
    }

    /// The delayed check ran and its `ping` result came back: the pending
    /// check is consumed and the one outcome it must deliver is returned —
    /// even when the cancellation flag was set in the meantime.
    pub fn complete(&mut self, ping: &Result<PingResponse, ServiceError>) -> (out: OutputMessage)
        requires
            old(self).scheduled,
        ensures
            *final(self) == probe_next(*old(self), ProbeEvent::Complete { ping: *ping }),
            !final(self).scheduled,
            final(self).cancel_flag == old(self).cancel_flag,
            probe_outcome_ok(*ping, out),
    {
        self.scheduled = false;
        classify_ping(ping)
    }
}

/// How the probe's screen forwards a delivered outcome outward: readiness
/// moves on to the linking screen, the rest is passed through. Messages
/// the probe never produces are dropped.
pub fn to_page_output(message: OutputMessage) -> (r: Option<CheckInternetOutput>)
    ensures
        message is ProceedToNextScreen ==> (r matches Some(o) && o is LinkMachine),
        message is ConnectionNotFound ==> (r matches Some(o) && o is ConnectionNotFound),
        message matches OutputMessage::ShowError(m) ==> (r matches Some(
            CheckInternetOutput::ShowError(m2),
        ) && m2@ == m@),
        message is BackRequested ==> (r matches Some(o) && o is BackPressed),
        !(message is ProceedToNextScreen || message is ConnectionNotFound
            || message is ShowError || message is BackRequested) ==> r is None,
{
    match message {
        OutputMessage::ProceedToNextScreen => Some(CheckInternetOutput::LinkMachine),
        OutputMessage::ConnectionNotFound => Some(CheckInternetOutput::ConnectionNotFound),
        OutputMessage::ShowError(m) => Some(CheckInternetOutput::ShowError(m)),
        OutputMessage::BackRequested => Some(CheckInternetOutput::BackPressed),
        _ => None,
    }
}

/// Law: cancellation is monotonic. Once the flag is set, no sequence of
/// events ever clears it.
pub proof fn lemma_cancel_is_monotonic(s: CheckInternet, evs: Seq<ProbeEvent>)
    requires
        s.cancel_flag,
    ensures
        probe_run(s, evs).cancel_flag,
    decreases evs.len(),
{
    if evs.len() > 0 {
        lemma_cancel_is_monotonic(probe_next(s, evs[0]), evs.drop_first());
    }
}

/// Law: after cancellation no new check is ever scheduled, however often
/// the screen is re-activated.
pub proof fn lemma_no_schedule_after_cancel(s: CheckInternet, evs: Seq<ProbeEvent>)
    requires
        s.cancel_flag,
    ensures
        probe_schedule_count(s, evs) == 0,
    decreases evs.len(),
{
    if evs.len() > 0 {
        lemma_no_schedule_after_cancel(probe_next(s, evs[0]), evs.drop_first());
    }
}

/// Law: cancellation is advisory only. A check already scheduled when the
/// flag goes up still completes and still delivers its outcome: the
/// completion is a physically possible run from the cancelled state.
pub proof fn lemma_inflight_check_survives_cancel(s: CheckInternet, ping: Result<
    PingResponse,
    ServiceError,
>)
    requires
        s.scheduled,
    ensures
        probe_valid(probe_next(s, ProbeEvent::Back), seq![ProbeEvent::Complete { ping }]),
        probe_complete_count(seq![ProbeEvent::Complete { ping }]) == 1,
{
    let s1 = probe_next(s, ProbeEvent::Back);
    let evs = seq![ProbeEvent::Complete { ping }];
    assert(evs.drop_first().len() == 0);
    assert(probe_valid(probe_next(s1, evs[0]), evs.drop_first()));
    assert(probe_complete_count(evs.drop_first()) == 0);
    assert(probe_complete_count(evs) == 1);
}

/// Law: one outcome per scheduled check. Along any physically possible
/// run, checks scheduled plus checks pending at the start equal checks
/// completed plus checks pending at the end; in particular at most one
/// outcome is delivered per scheduled check and per activation.
pub proof fn lemma_one_outcome_per_schedule(s: CheckInternet, evs: Seq<ProbeEvent>)
    requires
        probe_valid(s, evs),
    ensures
        probe_schedule_count(s, evs) + (if s.scheduled {
            1int
        } else {
            0int
        }) == probe_complete_count(evs) + (if probe_run(s, evs).scheduled {
            1int
        } else {
            0int
        }),
    decreases evs.len(),
{
    if evs.len() > 0 {
        lemma_one_outcome_per_schedule(probe_next(s, evs[0]), evs.drop_first());
    }
}

} // verus!
