use vstd::prelude::*;

verus! {

/// The declarative description of an application. Its file format and loader
/// live elsewhere; the instance only needs to hold it and read its name.
#[derive(Clone, Debug, PartialEq, Eq)]
pub struct Dna {
    /// Human-readable name of the application.
    pub name: String,
}

impl Dna {
    /// A package with an empty name.
    pub fn new() -> (r: Dna)
        ensures
            r.name@ == Seq::<char>::empty(),
    {
        Dna { name: String::new() }
    }
}

} // verus!
