//! A verified protocol layer for an incremental SAT engine reached through C
//! entry points: validated literals, the clause encoding the engine expects,
//! the meaning of its solve and query results, the protocol states, and the
//! order in which a cancellation predicate is installed and freed.

pub mod bridge;
pub mod lit;
pub mod protocol;
mod sealed;
pub mod state;
pub mod terminator;

pub use lit::{Clause, Lit};
pub use state::{Configuring, Sat, State, Unknown, Unsat};
pub use terminator::{DummyTerminator, NoneTerminator, Terminator, TimeoutTerminator};
