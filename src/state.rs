use vstd::prelude::*;

use crate::sealed::Sealed;

verus! {

/// The protocol states a session can be in, as values.
#[derive(Debug, Clone, Copy, PartialEq, Eq, Structural)]
pub enum Phase {
    /// Just created; options may be set.
    Configuring,
    /// Clauses and assumptions may be added; no result is readable.
    Unknown,
    /// The last solve found a model; its values are readable.
    Sat,
    /// The last solve found no model; the failed assumptions are readable.
    Unsat,
}

/// A protocol state, carried by a session as a type parameter.
pub trait State: Sealed {}

/// Right after creation, before options are closed.
#[derive(Debug, Hash)]
pub struct Configuring(());

/// Ready to take clauses and assumptions, or interrupted.
#[derive(Debug, Hash)]
pub struct Unknown(());

/// Satisfiable: the model is readable.
#[derive(Debug, Hash)]
pub struct Sat(());

/// Unsatisfiable: the failed assumptions are readable.
#[derive(Debug, Hash)]
pub struct Unsat(());

impl State for Configuring {}

impl State for Unknown {}

impl State for Sat {}

impl State for Unsat {}

} // verus!
