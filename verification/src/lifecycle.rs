//! One lifecycle phase as a sequence of decisions: which module is called
//! next, and what a failed call means. The calls themselves are made by the
//! driver, one at a time, each awaited before the next is asked for.

use vstd::prelude::*;
use vstd::string::StringExecFns;

verus! {

/// The six phases of a registry's life, in the order in which they are run.
#[derive(Debug, Clone, Copy, PartialEq, Eq, Structural)]
pub enum Phase {
    InitCore,
    InitCustom,
    StartCore,
    StartCustom,
    StopCustom,
    StopCore,
}

impl Phase {
    /// Whether the phase visits core modules rather than custom ones.
    pub open spec fn is_core_spec(self) -> bool {
        self == Phase::InitCore || self == Phase::StartCore || self == Phase::StopCore
    }

    /// Whether the phase visits core modules rather than custom ones.
    pub fn is_core(&self) -> (core_phase: bool)
        ensures
            core_phase == self.is_core_spec(),
    {
        match self {
            Phase::InitCore | Phase::StartCore | Phase::StopCore => true,
            _ => false,
        }
    }

    /// What is reported before the name of a module that failed in this phase.
    pub open spec fn failure_prefix(self) -> Seq<char> {
        match self {
            Phase::InitCore => "failed to initialize core module '"@,
            Phase::InitCustom => "failed to initialize custom module '"@,
            Phase::StartCore => "failed to start core module '"@,
            Phase::StartCustom => "failed to start custom module '"@,
            Phase::StopCustom => "failed to stop custom module '"@,
            Phase::StopCore => "failed to stop core module '"@,
        }
    }
}

/// A module's lifecycle call failed.
#[derive(Debug)]
pub struct LifecycleError {
    /// The module whose call failed.
    pub module_name: String,
    /// The phase in which it failed.
    pub phase: Phase,
    /// What the module reported.
    pub cause: String,
}

impl LifecycleError {
    /// The failure in words: the phase and the module, without the cause.
    pub open spec fn context_spec(self) -> Seq<char> {
        self.phase.failure_prefix() + self.module_name@ + "'"@
    }

    /// The failure in words: the phase and the module, without the cause.
    pub fn context(&self) -> (text: String)
        ensures
            text@ == self.context_spec(),
    {
        let mut text = match self.phase {
            Phase::InitCore => String::from_str("failed to initialize core module '"),
            Phase::InitCustom => String::from_str("failed to initialize custom module '"),
            Phase::StartCore => String::from_str("failed to start core module '"),
            Phase::StartCustom => String::from_str("failed to start custom module '"),
            Phase::StopCustom => String::from_str("failed to stop custom module '"),
            Phase::StopCore => String::from_str("failed to stop core module '"),
        };
        text.append(self.module_name.as_str());
        text.append("'");
        text
    }

    /// The failure with its cause: the context, a colon and what the module
    /// reported.
    pub fn message(&self) -> (text: String)
        ensures
            text@ == self.context_spec() + ": "@ + self.cause@,
    {
        let mut text = self.context();
        text.append(": ");
        text.append(self.cause.as_str());
        text
    }
}

/// A phase under way: the modules it visits, how many of them have done their
/// part, and whether one has failed.
pub struct PhaseRun {
    phase: Phase,
    plan: Vec<usize>,
    names: Vec<String>,
    cursor: usize,
    halted: bool,
}

impl PhaseRun {
    #[verifier::type_invariant]
    spec fn well_formed(self) -> bool {
        self.valid()
    }

    /// Whether the run is one that a registry began and outcomes were recorded
    /// in: every module to visit has its name, and no more calls have succeeded
    /// than there are modules. Every run that this library hands out is valid.
    pub closed spec fn valid(self) -> bool {
        &&& self.plan@.len() == self.names@.len()
        &&& self.cursor <= self.plan@.len() <= usize::MAX
    }

    /// The phase that is run.
    pub closed spec fn phase(self) -> Phase {
        self.phase
    }

    /// The positions of the modules that the phase visits, in visiting order.
    /// A position counts among the core modules in a core phase, among the
    /// custom modules in a custom phase.
    pub closed spec fn plan(self) -> Seq<int> {
        Seq::new(self.plan@.len(), |i: int| self.plan@[i] as int)
    }

    /// The names of the modules that the phase visits, in visiting order.
    pub closed spec fn names(self) -> Seq<Seq<char>> {
        Seq::new(self.plan@.len(), |i: int| self.names@[i]@)
    }

    /// How many calls have succeeded.
    pub closed spec fn completed(self) -> nat {
        self.cursor as nat
    }

    /// Whether a call has failed.
    pub closed spec fn halted(self) -> bool {
        self.halted
    }

    /// The place in the plan of the call that is due, if one is due: none is
    /// once a call has failed or every module was visited.
    pub open spec fn pending(self) -> Option<int> {
        if !self.halted() && self.completed() < self.plan().len() {
            Some(self.completed() as int)
        } else {
            None
        }
    }

    /// The positions of the modules that were called so far, in the order of
    /// the calls: those whose call succeeded and, once a call has failed, the
    /// one whose call failed.
    pub open spec fn called(self) -> Seq<int> {
        if self.halted() {
            self.plan().take(self.completed() as int + 1)
        } else {
            self.plan().take(self.completed() as int)
        }
    }

    /// Whether the run has just begun: `phase` over `plan`, whose modules are
    /// called `names`, with no call made.
    pub open spec fn begins(self, phase: Phase, plan: Seq<int>, names: Seq<Seq<char>>) -> bool {
        &&& self.valid()
        &&& self.phase() == phase
        &&& self.plan() == plan
        &&& self.names() == names
        &&& self.completed() == 0
        &&& !self.halted()
    }

    /// The run after the call that was due has ended, well or not. With no
    /// call due the run stays as it is.
    pub closed spec fn after(self, succeeded: bool) -> PhaseRun {
        if self.halted || self.cursor >= self.plan@.len() {
            self
        } else if succeeded {
            PhaseRun { cursor: (self.cursor + 1) as usize, ..self }
        } else {
            PhaseRun { halted: true, ..self }
        }
    }

    /// The run after the calls that were due have ended as `outcomes` say, one
    /// after the other.
    pub open spec fn after_all(self, outcomes: Seq<bool>) -> PhaseRun
        decreases outcomes.len(),
    {
        if outcomes.len() == 0 {
            self
        } else {
            self.after_all(outcomes.drop_last()).after(outcomes.last())
        }
    }

    /// What one outcome does to a run: a success moves on to the next module of
    /// the plan, a failure ends the phase, and with no call due nothing changes.
    /// Plan, names and phase stay.
    pub proof fn lemma_after(self, succeeded: bool)
        requires
            self.valid(),
        ensures
            self.after(succeeded).valid(),
            self.after(succeeded).phase() == self.phase(),
            self.after(succeeded).plan() == self.plan(),
            self.after(succeeded).names() == self.names(),
            match self.pending() {
                None => self.after(succeeded) == self,
                Some(at) => {
                    &&& 0 <= at < self.plan().len()
                    &&& self.after(succeeded).called() == self.called().push(self.plan()[at])
                    &&& self.after(succeeded).halted() == !succeeded
                    &&& self.after(succeeded).completed() == if succeeded {
                        self.completed() + 1
                    } else {
                        self.completed()
                    }
                },
            },
    {
    }

    /// A failed call is the last call of its phase: whatever is recorded
    /// afterwards, no further module is called and none is due.
    pub proof fn lemma_failure_ends_the_phase(self, later: Seq<bool>)
        requires
            self.valid(),
            self.pending() is Some,
        ensures
            self.after(false).pending() is None,
            self.after(false).called() == self.called().push(self.plan()[self.pending()->0]),
            self.after(false).after_all(later) == self.after(false),
        decreases later.len(),
    {
        self.lemma_after(false);
        if later.len() > 0 {
            self.lemma_failure_ends_the_phase(later.drop_last());
            self.after(false).lemma_after(later.last());
        }
    }

    /// Where every call succeeds, the modules of the plan are called one after
    /// the other in the order of the plan, each once, and then none is due.
    pub proof fn lemma_all_succeed(self, count: nat)
        requires
            self.valid(),
            self.completed() == 0,
            !self.halted(),
            count <= self.plan().len(),
        ensures
            self.after_all(Seq::new(count, |i: int| true)).valid(),
            self.after_all(Seq::new(count, |i: int| true)).called() == self.plan().take(
                count as int,
            ),
            !self.after_all(Seq::new(count, |i: int| true)).halted(),
            self.after_all(Seq::new(count, |i: int| true)).completed() == count,
            count == self.plan().len() ==> self.after_all(
                Seq::new(count, |i: int| true),
            ).pending() is None,
            self.after_all(Seq::new(count, |i: int| true)).plan() == self.plan(),
        decreases count,
    {
        let outcomes = Seq::new(count, |i: int| true);
        if count > 0 {
            let earlier = Seq::new((count - 1) as nat, |i: int| true);
            assert(outcomes.drop_last() =~= earlier);
            self.lemma_all_succeed((count - 1) as nat);
            let before = self.after_all(earlier);
            before.lemma_after(true);
            assert(self.plan().take(count - 1).push(self.plan()[count - 1]) =~= self.plan().take(
                count as int,
            ));
        }
    }

    /// Begins `phase` over the modules at `plan`, called `names`.
    pub(crate) fn begin(phase: Phase, plan: Vec<usize>, names: Vec<String>) -> (run: PhaseRun)
        requires
            plan@.len() == names@.len(),
        ensures
            run.begins(
                phase,
                Seq::new(plan@.len(), |i: int| plan@[i] as int),
                Seq::new(names@.len(), |i: int| names@[i]@),
            ),
    {
        let count: usize = plan.len();
        PhaseRun { phase, plan, names, cursor: 0, halted: false }
    }

    /// The position of the module to call now, or nothing when the phase is
    /// over.
    pub fn next(&self) -> (position: Option<usize>)
        ensures
            match position {
                Some(p) => self.pending() matches Some(at) && self.plan()[at] == p,
                None => self.pending() is None,
            },
    {
        proof {
            use_type_invariant(self);
        }
        if !self.halted && self.cursor < self.plan.len() {
            Some(self.plan[self.cursor])
        } else {
            None
        }
    }

    /// The name of the module to call now, or nothing when the phase is over.
    pub fn next_name(&self) -> (name: Option<&str>)
        ensures
            match name {
                Some(n) => self.pending() matches Some(at) && self.names()[at] == n@,
                None => self.pending() is None,
            },
    {
        proof {
            use_type_invariant(self);
        }
        if !self.halted && self.cursor < self.plan.len() {
            Some(self.names[self.cursor].as_str())
        } else {
            None
        }
    }

    /// The phase that is run.
    pub fn current_phase(&self) -> (phase: Phase)
        ensures
            phase == self.phase(),
    {
        self.phase
    }

    /// Whether every module of the plan was called and none failed.
    pub fn is_complete(&self) -> (complete: bool)
        ensures
            complete == (!self.halted() && self.completed() == self.plan().len()),
    {
        proof {
            use_type_invariant(self);
        }
        !self.halted && self.cursor == self.plan.len()
    }

    /// Takes the outcome of the call that was due. A success moves on to the
    /// next module. A failure ends the phase and is returned with the module's
    /// name and the phase. With no call due the outcome is ignored.
    pub fn record(&mut self, outcome: Result<(), String>) -> (verdict: Result<(), LifecycleError>)
        ensures
            *final(self) == old(self).after(outcome is Ok),
            final(self).valid(),
            final(self).phase() == old(self).phase(),
            final(self).plan() == old(self).plan(),
            final(self).names() == old(self).names(),
            match old(self).pending() {
                None => {
                    &&& verdict is Ok
                    &&& final(self).completed() == old(self).completed()
                    &&& final(self).halted() == old(self).halted()
                },
                Some(at) => match outcome {
                    Ok(_) => {
                        &&& verdict is Ok
                        &&& final(self).completed() == old(self).completed() + 1
                        &&& !final(self).halted()
                    },
                    Err(cause) => {
                        &&& verdict matches Err(error)
                        &&& error.module_name@ == old(self).names()[at]
                        &&& error.phase == old(self).phase()
                        &&& error.cause == cause
                        &&& final(self).completed() == old(self).completed()
                        &&& final(self).halted()
                        &&& final(self).pending() is None
                    },
                },
            },
    {
        proof {
            use_type_invariant(&*self);
        }
        if self.halted || self.cursor >= self.plan.len() {
            return Ok(());
        }
        match outcome {
            Ok(_) => {
                self.cursor = self.cursor + 1;
                Ok(())
            },
            Err(cause) => {
                self.halted = true;
                Err(
                    LifecycleError {
                        module_name: self.names[self.cursor].clone(),
                        phase: self.phase,
                        cause,
                    },
                )
            },
        }
    }
}

} // verus!
