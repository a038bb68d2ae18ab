use vstd::prelude::*;
use std::collections::VecDeque;
use crate::action::Action;
use crate::error::HolochainError;
use crate::state::{apply, outcome, reduce_action, State};

verus! {

/// The abstract value of an instance: its state and its pending actions,
/// oldest first.
pub struct InstanceModel {
    pub state: State,
    pub pending: Seq<Action>,
}

impl InstanceModel {
    /// The model after `action` joins the back of the queue.
    pub open spec fn dispatched(self, action: Action) -> InstanceModel {
        InstanceModel { state: self.state, pending: self.pending.push(action) }
    }

    /// The model after one step of `consume_next_action`, and what that step
    /// reports: the oldest pending action leaves the queue and is applied.
    pub open spec fn consumed(self) -> (InstanceModel, Result<(), HolochainError>) {
        if self.pending.len() == 0 {
            (self, Err(HolochainError::EmptyActionQueue))
        } else {
            let action = self.pending[0];
            (
                InstanceModel {
                    state: apply(self.state, action),
                    pending: self.pending.drop_first(),
                },
                outcome(self.state, action),
            )
        }
    }
}

/// An application instance: one state, replaced only by whole reduction
/// steps, and a first-in first-out queue of actions waiting to be applied.
#[derive(Clone)]
pub struct Instance {
    state: State,
    pending: VecDeque<Action>,
}

impl View for Instance {
    type V = InstanceModel;

    closed spec fn view(&self) -> InstanceModel {
        InstanceModel { state: self.state, pending: self.pending@ }
    }
}

impl Instance {
    /// An instance with the initial state and nothing pending.
    pub fn new() -> (r: Instance)
        ensures
            r@.state == State::initial(),
            r@.pending.len() == 0,
    {
        Instance { state: State::new(), pending: VecDeque::new() }
    }

    /// Queues `action` behind those already pending. Never fails.
    pub fn dispatch(&mut self, action: Action)
        ensures
            final(self)@ == old(self)@.dispatched(action),
    {
        self.pending.push_back(action);
    }

    /// Takes the oldest pending action and applies it. On failure the state
    /// is left as it was, and the action is gone from the queue all the same.
    pub fn consume_next_action(&mut self) -> (r: Result<(), HolochainError>)
        ensures
            (final(self)@, r) == old(self)@.consumed(),
    {
        match self.pending.pop_front() {
            None => Err(HolochainError::EmptyActionQueue),
            Some(action) => {
                let result = reduce_action(&mut self.state, action);
                proof {
                    assert(self.pending@ =~= old(self)@.pending.drop_first());
                }
                result
            },
        }
    }

    /// The current state.
    pub fn state(&self) -> (r: &State)
        ensures
            *r == self@.state,
    {
        &self.state
    }
}

/// Actions leave the queue in the order they were dispatched: onto an empty
/// queue, dispatching `first` and then `second` and consuming twice applies
/// `first` and then `second`, reports each one's own outcome, and leaves the
/// queue empty.
pub proof fn lemma_two_dispatches_consumed_in_order(m: InstanceModel, first: Action, second: Action)
    requires
        m.pending.len() == 0,
    ensures
        ({
            let (after_one, r1) = m.dispatched(first).dispatched(second).consumed();
            let (after_two, r2) = after_one.consumed();
            &&& r1 == outcome(m.state, first)
            &&& after_one.state == apply(m.state, first)
            &&& after_one.pending == seq![second]
            &&& r2 == outcome(after_one.state, second)
            &&& after_two.state == apply(apply(m.state, first), second)
            &&& after_two.pending.len() == 0
        }),
{
    let q = m.dispatched(first).dispatched(second).pending;
    assert(q =~= seq![first, second]);
    assert(q.drop_first() =~= seq![second]);
    assert(seq![second].drop_first() =~= Seq::<Action>::empty());
}

/// A newly dispatched action waits behind every action already pending:
/// where the queue is not empty, consuming after a dispatch applies the same
/// action, reports the same outcome and leaves the same queue with the new
/// action at its back, as consuming before the dispatch would.
pub proof fn lemma_dispatch_waits_behind_pending(m: InstanceModel, action: Action)
    requires
        m.pending.len() > 0,
    ensures
        m.dispatched(action).consumed().1 == m.consumed().1,
        m.dispatched(action).consumed().0 == m.consumed().0.dispatched(action),
{
    assert(m.pending.push(action).drop_first() =~= m.pending.drop_first().push(action));
}

} // verus!
