use vstd::prelude::*;
use crate::dna::Dna;

verus! {

/// A request to run a named function of the loaded application.
#[derive(Clone, Debug, PartialEq, Eq)]
pub struct FnCall {
    pub name: String,
}

impl FnCall {
    /// A call of the function named `name`.
    pub fn new(name: &str) -> (r: FnCall)
        ensures
            r.name@ == name@,
    {
        FnCall { name: name.to_owned() }
    }
}

/// The requests that the nucleus sub-state reduces.
#[derive(Clone, Debug, PartialEq, Eq)]
pub enum NucleusAction {
    /// Load the application package.
    InitApplication(Dna),
    /// Run a function of the loaded application.
    Call(FnCall),
}

/// A discrete request to change the state, tagged by the sub-state it is for.
#[derive(Clone, Debug, PartialEq, Eq)]
pub enum Action {
    Nucleus(NucleusAction),
}

} // verus!
