use vstd::prelude::*;
use crate::action::{Action, NucleusAction};
use crate::dna::Dna;
use crate::error::HolochainError;

verus! {

/// The sub-state holding the loaded package and the outcome of the latest call.
#[derive(Clone, Debug, PartialEq, Eq)]
pub struct NucleusState {
    pub dna: Option<Dna>,
    pub call_result: Option<String>,
}

impl NucleusState {
    /// The state before any package is loaded.
    pub fn new() -> (r: NucleusState)
        ensures
            r == NucleusState::initial(),
    {
        NucleusState { dna: None, call_result: None }
    }

    pub open spec fn initial() -> NucleusState {
        NucleusState { dna: None, call_result: None }
    }

    /// The loaded package, if any.
    pub fn dna(&self) -> (r: Option<Dna>)
        ensures
            r == self.dna,
    {
        match &self.dna {
            Some(d) => Some(Dna { name: d.name.clone() }),
            None => None,
        }
    }

    /// The outcome of the latest function call, if any.
    pub fn call_result(&self) -> (r: Option<String>)
        ensures
            r == self.call_result,
    {
        match &self.call_result {
            Some(c) => Some(c.clone()),
            None => None,
        }
    }
}

/// The observable data of an application instance.
#[derive(Clone, Debug, PartialEq, Eq)]
pub struct State {
    pub nucleus: NucleusState,
}

impl State {
    /// The state of an instance that has consumed no action.
    pub fn new() -> (r: State)
        ensures
            r == State::initial(),
    {
        State { nucleus: NucleusState::new() }
    }

    pub open spec fn initial() -> State {
        State { nucleus: NucleusState::initial() }
    }

    /// The nucleus sub-state.
    pub fn nucleus(&self) -> (r: &NucleusState)
        ensures
            *r == self.nucleus,
    {
        &self.nucleus
    }
}

/// The reduction step: the state that `action` turns `state` into, or the
/// error it fails with. A package is loaded once: a second `InitApplication`
/// is rejected. Running a function is not implemented yet.
pub open spec fn reduce(state: State, action: Action) -> Result<State, HolochainError> {
    match action {
        Action::Nucleus(NucleusAction::InitApplication(dna)) => {
            if state.nucleus.dna is Some {
                Err(HolochainError::DnaAlreadyLoaded)
            } else {
                Ok(State { nucleus: NucleusState { dna: Some(dna), ..state.nucleus } })
            }
        },
        Action::Nucleus(NucleusAction::Call(_)) => Err(HolochainError::NotImplemented),
    }
}

/// The state after `action` is applied to `state`: the reduced state, or
/// `state` itself where the reduction fails.
pub open spec fn apply(state: State, action: Action) -> State {
    match reduce(state, action) {
        Ok(next) => next,
        Err(_) => state,
    }
}

/// What applying `action` to `state` reports.
pub open spec fn outcome(state: State, action: Action) -> Result<(), HolochainError> {
    match reduce(state, action) {
        Ok(_) => Ok(()),
        Err(e) => Err(e),
    }
}

/// Reduces `action` against `state` in one step; on failure `state` is
/// left untouched.
pub fn reduce_action(state: &mut State, action: Action) -> (r: Result<(), HolochainError>)
    ensures
        *final(state) == apply(*old(state), action),
        r == outcome(*old(state), action),
{
    match action {
        Action::Nucleus(NucleusAction::InitApplication(dna)) => {
            if state.nucleus.dna.is_some() {
                Err(HolochainError::DnaAlreadyLoaded)
            } else {
                state.nucleus.dna = Some(dna);
                Ok(())
            }
        },
        Action::Nucleus(NucleusAction::Call(_)) => Err(HolochainError::NotImplemented),
    }
}

} // verus!
