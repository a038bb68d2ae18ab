use vstd::prelude::*;

verus! {

/// The identity on whose behalf an instance runs; opaque to the instance.
#[derive(Clone, Debug, PartialEq, Eq)]
pub struct Agent {
    label: String,
}

impl Agent {
    /// An identity made from a caller-supplied label.
    pub fn from_string(label: &str) -> (r: Agent)
        ensures
            r.label()@ == label@,
    {
        Agent { label: label.to_owned() }
    }

    pub closed spec fn label(&self) -> String {
        self.label
    }
}

} // verus!
