//! The order of the phases in the life of an application: what is run next,
//! and what a failed phase means.
//!
//! On the way up a failed phase ends the startup: nothing further is run and
//! the server is not served. On the way down a failed phase is reported and
//! the shutdown goes on.

use crate::lifecycle::Phase;
use vstd::prelude::*;

verus! {

/// How far the application has come.
#[derive(Debug, Clone, Copy, PartialEq, Eq, Structural)]
pub enum Stage {
    Unstarted,
    CoreInitialized,
    CustomInitialized,
    CoreStarted,
    /// Every module runs: the server is served until shutdown is asked for.
    CustomStarted,
    CustomStopped,
    CoreStopped,
    /// A phase of the startup failed.
    Aborted,
}

impl Stage {
    /// The phase that leads on from this stage, if one does.
    pub open spec fn next_phase_spec(self) -> Option<Phase> {
        match self {
            Stage::Unstarted => Some(Phase::InitCore),
            Stage::CoreInitialized => Some(Phase::InitCustom),
            Stage::CustomInitialized => Some(Phase::StartCore),
            Stage::CoreStarted => Some(Phase::StartCustom),
            Stage::CustomStarted => Some(Phase::StopCustom),
            Stage::CustomStopped => Some(Phase::StopCore),
            Stage::CoreStopped => None,
            Stage::Aborted => None,
        }
    }

    /// The stage that a completed phase leads to.
    pub open spec fn reached_by(phase: Phase) -> Stage {
        match phase {
            Phase::InitCore => Stage::CoreInitialized,
            Phase::InitCustom => Stage::CustomInitialized,
            Phase::StartCore => Stage::CoreStarted,
            Phase::StartCustom => Stage::CustomStarted,
            Phase::StopCustom => Stage::CustomStopped,
            Phase::StopCore => Stage::CoreStopped,
        }
    }

    /// Whether `phase` belongs to the shutdown.
    pub open spec fn is_shutdown(phase: Phase) -> bool {
        phase == Phase::StopCustom || phase == Phase::StopCore
    }

    /// The stage after the phase that leads on from this stage has ended,
    /// well or not. A failure on the way up aborts; a failure on the way down
    /// does not hold the shutdown up. A stage that nothing leads on from stays.
    pub open spec fn after_spec(self, succeeded: bool) -> Stage {
        match self.next_phase_spec() {
            Some(phase) => if succeeded || Self::is_shutdown(phase) {
                Self::reached_by(phase)
            } else {
                Stage::Aborted
            },
            None => self,
        }
    }

    /// The phase to run now, or nothing once the application has stopped or
    /// its startup was aborted. At `CustomStarted` the phase is the first of
    /// the shutdown, to be run when shutdown is asked for.
    pub fn next_phase(&self) -> (phase: Option<Phase>)
        ensures
            phase == self.next_phase_spec(),
    {
        match self {
            Stage::Unstarted => Some(Phase::InitCore),
            Stage::CoreInitialized => Some(Phase::InitCustom),
            Stage::CustomInitialized => Some(Phase::StartCore),
            Stage::CoreStarted => Some(Phase::StartCustom),
            Stage::CustomStarted => Some(Phase::StopCustom),
            Stage::CustomStopped => Some(Phase::StopCore),
            Stage::CoreStopped => None,
            Stage::Aborted => None,
        }
    }

    /// Whether the server is to be served at this stage: once every module
    /// was started, and not before.
    pub fn serves(&self) -> (serving: bool)
        ensures
            serving == (*self == Stage::CustomStarted),
    {
        match self {
            Stage::CustomStarted => true,
            _ => false,
        }
    }

    /// The stage after the phase that `next_phase` gave has ended.
    pub fn after(self, succeeded: bool) -> (stage: Stage)
        ensures
            stage == self.after_spec(succeeded),
    {
        match self {
            Stage::Unstarted => if succeeded {
                Stage::CoreInitialized
            } else {
                Stage::Aborted
            },
            Stage::CoreInitialized => if succeeded {
                Stage::CustomInitialized
            } else {
                Stage::Aborted
            },
            Stage::CustomInitialized => if succeeded {
                Stage::CoreStarted
            } else {
                Stage::Aborted
            },
            Stage::CoreStarted => if succeeded {
                Stage::CustomStarted
            } else {
                Stage::Aborted
            },
            Stage::CustomStarted => Stage::CustomStopped,
            Stage::CustomStopped => Stage::CoreStopped,
            Stage::CoreStopped => Stage::CoreStopped,
            Stage::Aborted => Stage::Aborted,
        }
    }
}

/// The stage that is reached from `stage` when the phases that are run end as
/// `outcomes` say, one after the other.
pub open spec fn stage_after(stage: Stage, outcomes: Seq<bool>) -> Stage
    decreases outcomes.len(),
{
    if outcomes.len() == 0 {
        stage
    } else {
        stage_after(stage, outcomes.drop_last()).after_spec(outcomes.last())
    }
}

/// A startup in which every phase succeeds brings the application up in four
/// phases, and a shutdown brings it down in two more whatever its phases
/// report.
pub proof fn lemma_life_in_order(stop_custom: bool, stop_core: bool)
    ensures
        stage_after(Stage::Unstarted, seq![true, true, true, true]) == Stage::CustomStarted,
        stage_after(Stage::CustomStarted, seq![stop_custom, stop_core]) == Stage::CoreStopped,
        Stage::CoreStopped.next_phase_spec() is None,
{
    reveal_with_fuel(stage_after, 5);
}

/// A failed phase of the startup is the last phase that is run: the stage is
/// `Aborted`, from which nothing leads on, whatever is reported afterwards.
pub proof fn lemma_startup_failure_is_final(stage: Stage, later: Seq<bool>)
    requires
        stage.next_phase_spec() matches Some(phase) && !Stage::is_shutdown(phase),
    ensures
        stage.after_spec(false) == Stage::Aborted,
        Stage::Aborted.next_phase_spec() is None,
        stage_after(stage.after_spec(false), later) == Stage::Aborted,
    decreases later.len(),
{
    if later.len() > 0 {
        lemma_startup_failure_is_final(stage, later.drop_last());
    }
}

} // verus!
