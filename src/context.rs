use vstd::prelude::*;
use crate::agent::Agent;
use crate::error::HolochainError;

verus! {

/// A sink for human-readable log lines.
pub trait Logger {
    /// The lines this sink has recorded, oldest first. A sink whose `log`
    /// can succeed defines it, so that `log` meets its contract. The default,
    /// an empty record, fits only a sink whose `log` always fails.
    open spec fn logged(&self) -> Seq<Seq<char>> {
        Seq::empty()
    }

    /// Whether `log` on this sink always succeeds. By default nothing is
    /// promised.
    open spec fn infallible(&self) -> bool {
        false
    }

    /// Records `msg` as one more line. On failure nothing is recorded and the
    /// error is `LoggingError`.
    fn log(&mut self, msg: String) -> (r: Result<(), HolochainError>)
        ensures
            r is Ok ==> final(self).logged() == old(self).logged().push(msg@),
            r is Err ==> final(self).logged() == old(self).logged(),
            r is Err ==> r == Err::<(), HolochainError>(HolochainError::LoggingError),
            old(self).infallible() ==> r is Ok,
            final(self).infallible() == old(self).infallible(),
    ;
}

/// A logger that keeps every line in memory.
#[derive(Clone, Debug)]
pub struct MemoryLogger {
    pub lines: Vec<String>,
}

impl MemoryLogger {
    /// A logger that has recorded nothing.
    pub fn new() -> (r: MemoryLogger)
        ensures
            r.logged().len() == 0,
    {
        MemoryLogger { lines: Vec::new() }
    }
}

impl Logger for MemoryLogger {
    open spec fn logged(&self) -> Seq<Seq<char>> {
        self.lines@.map_values(|l: String| l@)
    }

    open spec fn infallible(&self) -> bool {
        true
    }

    fn log(&mut self, msg: String) -> (r: Result<(), HolochainError>) {
        self.lines.push(msg);
        proof {
            assert(self.logged() =~= old(self).logged().push(msg@));
        }
        Ok(())
    }
}

/// The collaborators an instance is driven with: the acting identity, a
/// logging capability and a persistence capability. The persister is only
/// held for the lifetime of the instance.
#[derive(Clone)]
pub struct Context<L, P> {
    pub agent: Agent,
    pub logger: L,
    pub persister: P,
}

impl<L: Logger, P> Context<L, P> {
    /// Records one line through the logger; a failure of the logger is
    /// handed back as it came, and with a logger that cannot fail the line
    /// is always recorded.
    pub fn log(&mut self, msg: String) -> (r: Result<(), HolochainError>)
        ensures
            final(self).agent == old(self).agent,
            final(self).persister == old(self).persister,
            r is Ok ==> final(self).logger.logged() == old(self).logger.logged().push(msg@),
            r is Err ==> final(self).logger.logged() == old(self).logger.logged(),
            r is Err ==> r == Err::<(), HolochainError>(HolochainError::LoggingError),
            old(self).logger.infallible() ==> r is Ok,
    {
        self.logger.log(msg)
    }
}

} // verus!
