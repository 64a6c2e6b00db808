//! The pipeline state machine: acquisition, relay, teardown.
//!
//! The controller holds every decision the pipeline makes; the unverified
//! shell only performs the action the controller names next and reports
//! the outcome back. Acquisition runs privilege check, open, grab, build,
//! settle, in that order; every failure is fatal, and a failure after the
//! grab releases it before termination so the physical device returns to
//! normal operation for other consumers.

use vstd::prelude::*;

use crate::error::RelayError;

verus! {

/// The phase the pipeline is in.
#[derive(Clone, Copy, PartialEq, Eq, Structural, Debug)]
pub enum Phase {
    /// Checking that the process holds elevated privilege, before any
    /// device is touched.
    CheckingPrivilege,
    /// Opening the physical device node.
    Opening,
    /// Requesting exclusive capture of the physical device.
    Grabbing,
    /// Building the synthetic device from the declared capability set.
    Building,
    /// Waiting the settling delay so device discovery can finish before
    /// the first forwarded event.
    Settling,
    /// The steady state: fetch a batch, forward it verbatim, block again.
    Relaying,
    /// Releasing the exclusive capture before terminating.
    ReleasingGrab,
    /// Nothing left to do but report the exit status.
    Terminated,
}

/// The next thing the shell must do for the controller.
#[derive(Clone, Copy, PartialEq, Eq, Structural, Debug)]
pub enum Action {
    /// Ask the OS whether the process runs with elevated privilege.
    CheckPrivilege,
    /// Open the physical device node.
    OpenDevice,
    /// Request exclusive capture of the opened device.
    GrabDevice,
    /// Build the synthetic device.
    BuildSyntheticDevice,
    /// Sleep the advisory settling delay.
    Settle,
    /// Block on the next batch and forward it.
    FetchAndForward,
    /// Release the exclusive capture.
    ReleaseGrab,
    /// Terminate with status zero.
    ExitSuccess,
    /// Print the failure and terminate with non-zero status.
    ExitFailure(RelayError),
}

/// What the shell reports after performing an action.
#[derive(Clone, Copy, Debug)]
pub enum Outcome {
    /// Whether the process holds elevated privilege.
    PrivilegeIs(bool),
    /// The physical device node was opened, or why not.
    OpenFinished(Result<(), RelayError>),
    /// Exclusive capture was acquired, or why not.
    GrabFinished(Result<(), RelayError>),
    /// The synthetic device was built, or why not.
    BuildFinished(Result<(), RelayError>),
    /// The settling delay elapsed.
    SettleFinished,
    /// A batch was fetched and every event of it emitted.
    BatchForwarded,
    /// The blocking fetch failed, e.g. after a disconnection.
    FetchFailed(RelayError),
    /// Emitting to the synthetic device failed.
    EmitFailed(RelayError),
    /// An external interrupt asked for a clean exit.
    Interrupted,
    /// The exclusive capture was released.
    GrabReleased,
}

/// The pipeline controller: current phase, which resources are held, and
/// the failure to report at termination, if any.
#[derive(Clone, Copy, PartialEq, Eq, Structural, Debug)]
pub struct Controller {
    /// The current phase.
    pub phase: Phase,
    /// Whether the exclusive capture of the physical device is held.
    pub grab_held: bool,
    /// Whether the synthetic device node exists.
    pub synthetic_built: bool,
    /// The fatal failure to report, once one happened.
    pub failure: Option<RelayError>,
}

/// Which outcomes a phase can produce: the shell reports only the result
/// of the action the controller asked for.
pub open spec fn outcome_fits(phase: Phase, outcome: Outcome) -> bool {
    match phase {
        Phase::CheckingPrivilege => outcome is PrivilegeIs,
        Phase::Opening => outcome is OpenFinished,
        Phase::Grabbing => outcome is GrabFinished,
        Phase::Building => outcome is BuildFinished,
        Phase::Settling => outcome is SettleFinished,
        Phase::Relaying => outcome is BatchForwarded || outcome is FetchFailed
            || outcome is EmitFailed || outcome is Interrupted,
        Phase::ReleasingGrab => outcome is GrabReleased,
        Phase::Terminated => false,
    }
}

/// The transition function of the pipeline: the controller after an
/// outcome is reported in a phase. Opaque so that a chain of steps is
/// reasoned about one transition at a time; `reveal(step_spec)` opens it.
#[verifier::opaque]
pub open spec fn step_spec(pre: Controller, outcome: Outcome) -> Controller {
    match (pre.phase, outcome) {
        (Phase::CheckingPrivilege, Outcome::PrivilegeIs(root)) => if root {
            Controller { phase: Phase::Opening, ..pre }
        } else {
            Controller {
                phase: Phase::Terminated,
                failure: Some(RelayError::PermissionDenied),
                ..pre
            }
        },
        (Phase::Opening, Outcome::OpenFinished(r)) => match r {
            Ok(()) => Controller { phase: Phase::Grabbing, ..pre },
            Err(e) => Controller { phase: Phase::Terminated, failure: Some(e), ..pre },
        },
        (Phase::Grabbing, Outcome::GrabFinished(r)) => match r {
            Ok(()) => Controller { phase: Phase::Building, grab_held: true, ..pre },
            Err(e) => Controller { phase: Phase::Terminated, failure: Some(e), ..pre },
        },
        (Phase::Building, Outcome::BuildFinished(r)) => match r {
            Ok(()) => Controller { phase: Phase::Settling, synthetic_built: true, ..pre },
            Err(e) => Controller { phase: Phase::ReleasingGrab, failure: Some(e), ..pre },
        },
        (Phase::Settling, Outcome::SettleFinished) => Controller {
            phase: Phase::Relaying,
            ..pre
        },
        (Phase::Relaying, Outcome::BatchForwarded) => pre,
        (Phase::Relaying, Outcome::FetchFailed(e)) => Controller {
            phase: Phase::ReleasingGrab,
            failure: Some(e),
            ..pre
        },
        (Phase::Relaying, Outcome::EmitFailed(e)) => Controller {
            phase: Phase::ReleasingGrab,
            failure: Some(e),
            ..pre
        },
        (Phase::Relaying, Outcome::Interrupted) => Controller {
            phase: Phase::ReleasingGrab,
            ..pre
        },
        (Phase::ReleasingGrab, Outcome::GrabReleased) => Controller {
            phase: Phase::Terminated,
            grab_held: false,
            ..pre
        },
        _ => pre,
    }
}

impl Controller {
    /// What holds of every reachable controller state: resources are held
    /// exactly in the phases that use them, a failure is only recorded on
    /// the way out, and — the teardown guarantee — a terminated pipeline
    /// holds no grab.
    pub open spec fn wf(self) -> bool {
        match self.phase {
            Phase::CheckingPrivilege => !self.grab_held && !self.synthetic_built
                && self.failure is None,
            Phase::Opening => !self.grab_held && !self.synthetic_built && self.failure is None,
            Phase::Grabbing => !self.grab_held && !self.synthetic_built && self.failure is None,
            Phase::Building => self.grab_held && !self.synthetic_built && self.failure is None,
            Phase::Settling => self.grab_held && self.synthetic_built && self.failure is None,
            Phase::Relaying => self.grab_held && self.synthetic_built && self.failure is None,
            Phase::ReleasingGrab => self.grab_held,
            Phase::Terminated => !self.grab_held,
        }
    }

    /// The state a pipeline starts in: privilege not yet checked, nothing
    /// held, nothing built, nothing failed.
    pub open spec fn initial_spec() -> Controller {
        Controller {
            phase: Phase::CheckingPrivilege,
            grab_held: false,
            synthetic_built: false,
            failure: None,
        }
    }

    /// Builds the initial controller.
    pub fn initial() -> (c: Controller)
        ensures
            c == Controller::initial_spec(),
            c.wf(),
    {
        Controller {
            phase: Phase::CheckingPrivilege,
            grab_held: false,
            synthetic_built: false,
            failure: None,
        }
    }

    /// The action the shell must perform in the current phase. At
    /// termination the action is the exit itself: status zero when no
    /// failure was recorded, otherwise the failure with non-zero status.
    pub fn next_action(&self) -> (a: Action)
        ensures
            a == (match self.phase {
                Phase::CheckingPrivilege => Action::CheckPrivilege,
                Phase::Opening => Action::OpenDevice,
                Phase::Grabbing => Action::GrabDevice,
                Phase::Building => Action::BuildSyntheticDevice,
                Phase::Settling => Action::Settle,
                Phase::Relaying => Action::FetchAndForward,
                Phase::ReleasingGrab => Action::ReleaseGrab,
                Phase::Terminated => match self.failure {
                    None => Action::ExitSuccess,
                    Some(e) => Action::ExitFailure(e),
                },
            }),
    {
        match self.phase {
            Phase::CheckingPrivilege => Action::CheckPrivilege,
            Phase::Opening => Action::OpenDevice,
            Phase::Grabbing => Action::GrabDevice,
            Phase::Building => Action::BuildSyntheticDevice,
            Phase::Settling => Action::Settle,
            Phase::Relaying => Action::FetchAndForward,
            Phase::ReleasingGrab => Action::ReleaseGrab,
            Phase::Terminated => match self.failure {
                None => Action::ExitSuccess,
                Some(e) => Action::ExitFailure(e),
            },
        }
    }

    /// Advances the controller by one reported outcome, exactly as the
    /// transition function says.
    pub fn step(&mut self, outcome: Outcome)
        requires
            old(self).wf(),
            outcome_fits(old(self).phase, outcome),
        ensures
            *final(self) == step_spec(*old(self), outcome),
            final(self).wf(),
    {
        proof {
            reveal(step_spec);
        }
        let pre = *self;
        match (pre.phase, outcome) {
            (Phase::CheckingPrivilege, Outcome::PrivilegeIs(root)) => {
                if root {
                    self.phase = Phase::Opening;
                } else {
                    self.phase = Phase::Terminated;
                    self.failure = Some(RelayError::PermissionDenied);
                }
            },
            (Phase::Opening, Outcome::OpenFinished(r)) => match r {
                Ok(()) => {
                    self.phase = Phase::Grabbing;
                },
                Err(e) => {
                    self.phase = Phase::Terminated;
                    self.failure = Some(e);
                },
            },
            (Phase::Grabbing, Outcome::GrabFinished(r)) => match r {
                Ok(()) => {
                    self.phase = Phase::Building;
                    self.grab_held = true;
                },
                Err(e) => {
                    self.phase = Phase::Terminated;
                    self.failure = Some(e);
                },
            },
            (Phase::Building, Outcome::BuildFinished(r)) => match r {
                Ok(()) => {
                    self.phase = Phase::Settling;
                    self.synthetic_built = true;
                },
                Err(e) => {
                    self.phase = Phase::ReleasingGrab;
                    self.failure = Some(e);
                },
            },
            (Phase::Settling, Outcome::SettleFinished) => {
                self.phase = Phase::Relaying;
            },
            (Phase::Relaying, Outcome::BatchForwarded) => {},
            (Phase::Relaying, Outcome::FetchFailed(e)) => {
                self.phase = Phase::ReleasingGrab;
                self.failure = Some(e);
            },
            (Phase::Relaying, Outcome::EmitFailed(e)) => {
                self.phase = Phase::ReleasingGrab;
                self.failure = Some(e);
            },
            (Phase::Relaying, Outcome::Interrupted) => {
                self.phase = Phase::ReleasingGrab;
            },
            (Phase::ReleasingGrab, Outcome::GrabReleased) => {
                self.phase = Phase::Terminated;
                self.grab_held = false;
            },
            _ => {},
        }
    }

    /// Whether the pipeline is finished.
    pub fn is_terminated(&self) -> (b: bool)
        ensures
            b == (self.phase == Phase::Terminated),
    {
        match self.phase {
            Phase::Terminated => true,
            _ => false,
        }
    }

    /// The process exit status at termination: zero exactly when no fatal
    /// failure was recorded.
    pub fn exit_code(&self) -> (c: i32)
        requires
            self.phase == Phase::Terminated,
        ensures
            c == 0 <==> self.failure is None,
            c == 0 || c == 1,
    {
        match self.failure {
            None => 0,
            Some(_) => 1,
        }
    }
}

/// Every run of the pipeline keeps the controller well formed: the
/// initial state is well formed, and each reported outcome preserves it.
/// In particular a terminated pipeline never holds the exclusive capture,
/// whichever path led there.
pub proof fn lemma_wf_preserved(pre: Controller, outcome: Outcome)
    requires
        pre.wf(),
        outcome_fits(pre.phase, outcome),
    ensures
        step_spec(pre, outcome).wf(),
        step_spec(pre, outcome).phase == Phase::Terminated ==> !step_spec(pre, outcome).grab_held,
{
    reveal(step_spec);
}

/// Started without elevated privilege, the pipeline terminates at once
/// with `PermissionDenied` and non-zero status: no device was opened, no
/// grab is held, no synthetic device was created.
pub proof fn lemma_no_privilege_fails_before_any_device(pre: Controller)
    requires
        pre == Controller::initial_spec(),
    ensures
        ({
            let post = step_spec(pre, Outcome::PrivilegeIs(false));
            &&& post.phase == Phase::Terminated
            &&& post.failure == Some(RelayError::PermissionDenied)
            &&& !post.grab_held
            &&& !post.synthetic_built
        }),
{
    reveal(step_spec);
}

} // verus!
