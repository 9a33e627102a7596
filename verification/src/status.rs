//! Running state shared by the two worker loops.

use vstd::prelude::*;

verus! {

/// Whether a worker loop's timer tick is permitted to issue a new request.
/// Transitions are driven only by explicit control messages, never by an
/// internal timeout.
#[allow(non_camel_case_types)]
#[derive(Clone, Copy, Debug, PartialEq, Eq, Structural)]
pub enum RunningStatus {
    INACTIVE,
    START,
    STOP,
}

} // verus!
