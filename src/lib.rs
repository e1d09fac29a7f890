//! A marketplace registry of service agents and a reputation ledger fed by
//! paid feedback, written as deterministic, all-or-nothing state transitions
//! over the records an execution host keeps.
//!
//! Each operation takes the records it touches (bundled in a context struct),
//! the verified caller identity and the host clock, checks every rule, and
//! either commits all of its writes or leaves every record as it was.

pub mod state;
pub mod registry;
pub mod feedback;
pub mod laws;



