//! A host-side facade that instantiates and drives one application instance,
//! built from a package (a DNA) and an agent identity, on top of an
//! action-dispatch state machine.
pub mod error;
pub mod dna;
pub mod agent;
pub mod context;
pub mod action;
pub mod state;
pub mod instance;
pub mod holochain;

pub use action::{Action, FnCall, NucleusAction};
pub use agent::Agent;
pub use context::{Context, Logger, MemoryLogger};
pub use dna::Dna;
pub use error::HolochainError;
pub use holochain::Holochain;
pub use instance::Instance;
pub use state::{NucleusState, State};
