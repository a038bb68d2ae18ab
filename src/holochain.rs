use vstd::prelude::*;
use crate::action::{Action, FnCall, NucleusAction};
use crate::context::{Context, Logger};
use crate::dna::Dna;
use crate::error::HolochainError;
use crate::instance::{Instance, InstanceModel};
use crate::state::State;

verus! {

/// The line logged once an instance of the application `name` is built.
pub open spec fn instantiated_line(name: Seq<char>) -> Seq<char> {
    name + " instantiated"@
}

/// The activity flag after `start`, and what `start` reports.
pub open spec fn start_step(active: bool) -> (bool, Result<(), HolochainError>) {
    if active {
        (true, Err(HolochainError::InstanceActive))
    } else {
        (true, Ok(()))
    }
}

/// The activity flag after `stop`, and what `stop` reports.
pub open spec fn stop_step(active: bool) -> (bool, Result<(), HolochainError>) {
    if active {
        (false, Ok(()))
    } else {
        (false, Err(HolochainError::InstanceNotActive))
    }
}

/// Stopping an application that is not active, as a newly built one is not,
/// fails with `InstanceNotActive` and leaves it inactive.
pub proof fn lemma_stop_when_inactive(active: bool)
    requires
        !active,
    ensures
        stop_step(active) == (false, Err::<(), HolochainError>(HolochainError::InstanceNotActive)),
{
}

/// Starting twice in a row fails the second time with `InstanceActive`, and
/// the application is still active after that failure.
pub proof fn lemma_second_start_fails(active: bool)
    ensures
        ({
            let (after_first, _) = start_step(active);
            let (after_second, r) = start_step(after_first);
            &&& r == Err::<(), HolochainError>(HolochainError::InstanceActive)
            &&& after_first
            &&& after_second
        }),
{
}

/// Starting and then stopping leaves the application inactive, the stop
/// succeeds, and a further stop fails with `InstanceNotActive`.
pub proof fn lemma_start_stop_stop(active: bool)
    ensures
        ({
            let (after_start, _) = start_step(active);
            let (after_stop, r1) = stop_step(after_start);
            let (after_again, r2) = stop_step(after_stop);
            &&& r1 == Ok::<(), HolochainError>(())
            &&& !after_stop
            &&& r2 == Err::<(), HolochainError>(HolochainError::InstanceNotActive)
            &&& !after_again
        }),
{
}

/// A running application: one instance, the context it is driven with, and
/// whether it is active.
#[derive(Clone)]
pub struct Holochain<L, P> {
    instance: Instance,
    context: Context<L, P>,
    active: bool,
}

impl<L: Logger, P> Holochain<L, P> {
    /// Whether the application is active.
    pub closed spec fn is_active(&self) -> bool {
        self.active
    }

    /// The instance's state and pending actions.
    pub closed spec fn model(&self) -> InstanceModel {
        self.instance@
    }

    /// The context the application is driven with.
    pub closed spec fn ctx(&self) -> Context<L, P> {
        self.context
    }

    /// Between calls no action is left pending: every action the facade
    /// dispatches it consumes at once.
    pub open spec fn wf(&self) -> bool {
        self.model().pending.len() == 0
    }

    /// Builds an instance, loads `dna` into it and logs
    /// "<name> instantiated". The result is inactive. Loading a package into
    /// a fresh instance cannot fail, so `new` fails only where the logger
    /// fails, with the logger's error, and always succeeds with a logger that
    /// cannot fail.
    pub fn new(dna: Dna, context: Context<L, P>) -> (r: Result<Self, HolochainError>)
        ensures
            r matches Ok(h) ==> {
                &&& h.wf()
                &&& !h.is_active()
                &&& h.model().state.nucleus.dna == Some(dna)
                &&& h.model().state.nucleus.call_result is None
                &&& h.ctx().agent == context.agent
                &&& h.ctx().persister == context.persister
                &&& h.ctx().logger.logged() == context.logger.logged().push(
                    instantiated_line(dna.name@),
                )
            },
            r is Err ==> r->Err_0 == HolochainError::LoggingError,
            context.logger.infallible() ==> r is Ok,
    {
        let mut instance = Instance::new();
        let mut line = dna.name.clone();
        line.append(" instantiated");
        instance.dispatch(Action::Nucleus(NucleusAction::InitApplication(dna)));
        let init = instance.consume_next_action();
        proof {
            assert(instance@.pending =~= Seq::<Action>::empty());
        }
        match init {
            Err(e) => Err(e),
            Ok(()) => {
                let mut context = context;
                match context.log(line) {
                    Err(e) => Err(e),
                    Ok(()) => Ok(Holochain { instance, context, active: false }),
                }
            },
        }
    }

    /// Makes the application active; fails with `InstanceActive` where it
    /// already is, changing nothing.
    pub fn start(&mut self) -> (r: Result<(), HolochainError>)
        ensures
            (final(self).is_active(), r) == start_step(old(self).is_active()),
            final(self).model() == old(self).model(),
            final(self).ctx() == old(self).ctx(),
    {
        if self.active {
            return Err(HolochainError::InstanceActive);
        }
        self.active = true;
        Ok(())
    }

    /// Makes the application inactive; fails with `InstanceNotActive` where
    /// it is not active, changing nothing.
    pub fn stop(&mut self) -> (r: Result<(), HolochainError>)
        ensures
            (final(self).is_active(), r) == stop_step(old(self).is_active()),
            final(self).model() == old(self).model(),
            final(self).ctx() == old(self).ctx(),
    {
        if !self.active {
            return Err(HolochainError::InstanceNotActive);
        }
        self.active = false;
        Ok(())
    }

    /// Runs the function `fn_name` of the application: dispatches a call
    /// action and consumes it at once. Fails with `InstanceNotActive` where
    /// the application is not active. Running a function is not implemented
    /// yet, so an active application reports `NotImplemented`; either way the
    /// state is left as it was.
    pub fn call(&mut self, fn_name: &str) -> (r: Result<(), HolochainError>)
        requires
            old(self).wf(),
        ensures
            !old(self).is_active() ==> r == Err::<(), HolochainError>(HolochainError::InstanceNotActive),
            old(self).is_active() ==> r == Err::<(), HolochainError>(HolochainError::NotImplemented),
            final(self).wf(),
            final(self).model() == old(self).model(),
            final(self).is_active() == old(self).is_active(),
            final(self).ctx() == old(self).ctx(),
    {
        if !self.active {
            return Err(HolochainError::InstanceNotActive);
        }
        let call_data = FnCall::new(fn_name);
        self.instance.dispatch(Action::Nucleus(NucleusAction::Call(call_data)));
        let r = self.instance.consume_next_action();
        proof {
            assert(self.instance@.pending =~= old(self).instance@.pending);
        }
        r
    }

    /// Whether the application is active.
    pub fn active(&self) -> (r: bool)
        ensures
            r == self.is_active(),
    {
        self.active
    }

    /// The instance's current state. Never fails.
    pub fn state(&mut self) -> (r: Result<&State, HolochainError>)
        ensures
            r matches Ok(s) && *s == old(self).model().state,
            *final(self) == *old(self),
    {
        Ok(self.instance.state())
    }

    /// The context the application is driven with.
    pub fn context(&self) -> (r: &Context<L, P>)
        ensures
            *r == self.ctx(),
    {
        &self.context
    }
}

} // verus!
