use vstd::prelude::*;

verus! {

/// Lifecycle of a processing unit registered with the host audio engine.
///
/// A unit starts in `Init`, becomes `Ready` on successful registration,
/// `Runnning` once the host engine starts invoking its callback, and
/// `Stopped` on request. Registering while `Runnning`, or stopping while
/// already `Stopped`, is an invalid transition and must not mutate state.
#[derive(Debug, PartialEq, Eq, Structural, Copy, Clone)]
pub enum Status {
    Stopped,
    Init,
    Ready,
    Runnning,
}

/// A registration attempt succeeds exactly when the unit is not running.
pub open spec fn can_register(status: Status) -> bool {
    status != Status::Runnning
}

/// A stop request succeeds exactly when the unit is not already stopped.
pub open spec fn can_stop(status: Status) -> bool {
    status != Status::Stopped
}

} // verus!
