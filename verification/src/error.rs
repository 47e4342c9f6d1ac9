use vstd::prelude::*;

verus! {

/// Errors returned when a payload is asked for as a kind it is not.
#[derive(Clone, Copy, Debug, PartialEq, Eq, Structural)]
pub enum VitaError {
    /// The operation applies to control packets only.
    ControlOnly,
    /// The operation applies to cancellation packets only.
    CancellationOnly,
    /// The operation applies to validation ACK packets only.
    ValidationAckOnly,
    /// The operation applies to execution ACK packets only.
    ExecAckOnly,
    /// The operation applies to query ACK packets only.
    QueryAckOnly,
}

} // verus!
