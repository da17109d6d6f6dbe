//! Supervision of the two long-lived services: the evidence service and the
//! revocation listener run together or not at all.
//!
//! When either service ends, for whatever reason, the other is cancelled and
//! the process exits with a failure status.

use vstd::prelude::*;

verus! {

/// One of the two services of the pair.
#[derive(Clone, Copy, Debug, PartialEq, Eq, Structural)]
pub enum Service {
    Evidence,
    Revocation,
}

impl Service {
    /// The other service of the pair.
    pub open spec fn spec_other(self) -> Service {
        match self {
            Service::Evidence => Service::Revocation,
            Service::Revocation => Service::Evidence,
        }
    }

    /// The other service of the pair.
    pub fn other(&self) -> (o: Service)
        ensures
            o == self.spec_other(),
            o != *self,
    {
        match self {
            Service::Evidence => Service::Revocation,
            Service::Revocation => Service::Evidence,
        }
    }
}

/// The life of the pair: both services run, or the process is going down.
#[derive(Clone, Copy, Debug, PartialEq, Eq, Structural)]
pub enum PairState {
    BothRunning,
    Terminating,
}

/// How a service ended.
#[derive(Clone, Copy, Debug, PartialEq, Eq, Structural)]
pub enum ServiceExit {
    /// It returned without an error.
    Completed,
    /// It returned an error.
    Failed,
}

/// The status with which the process exits when the pair breaks up.
pub const EXIT_FAILURE: i32 = 1;

/// The order to bring the process down.
#[derive(Clone, Copy, Debug, PartialEq, Eq, Structural)]
pub struct Shutdown {
    /// The service that ended.
    pub ended: Service,
    /// How it ended.
    pub exit: ServiceExit,
    /// The service that still runs and is to be cancelled.
    pub cancel: Service,
    /// The exit status of the process; never zero.
    pub exit_code: i32,
}

/// The reaction to the end of a service, as state and order.
pub open spec fn reaction(state: PairState, service: Service, exit: ServiceExit) -> (
    PairState,
    Option<Shutdown>,
) {
    match state {
        PairState::BothRunning => (
            PairState::Terminating,
            Some(
                Shutdown {
                    ended: service,
                    exit,
                    cancel: service.spec_other(),
                    exit_code: EXIT_FAILURE,
                },
            ),
        ),
        PairState::Terminating => (PairState::Terminating, None),
    }
}

/// Reacts to the end of one of the services.
///
/// While both run, the end of either one, with or without an error, brings
/// the process down: the other service is cancelled and the exit status is a
/// failure. Once the process is going down, nothing more is ordered.
pub fn on_service_exit(state: PairState, service: Service, exit: ServiceExit) -> (next: (
    PairState,
    Option<Shutdown>,
))
    ensures
        next == reaction(state, service, exit),
        next.0 is Terminating,
        state is BothRunning ==> next.1 is Some && next.1->0.cancel != service && next.1->0.exit_code
            != 0,
{
    match state {
        PairState::BothRunning => (
            PairState::Terminating,
            Some(Shutdown { ended: service, exit, cancel: service.other(), exit_code: EXIT_FAILURE }),
        ),
        PairState::Terminating => (PairState::Terminating, None),
    }
}

} // verus!
