use vstd::prelude::*;

use crate::state::{Configuring, Sat, Unknown, Unsat};

verus! {

/// Closes `State` to the four protocol states of this crate.
pub trait Sealed {}

impl Sealed for Configuring {}

impl Sealed for Unknown {}

impl Sealed for Sat {}

impl Sealed for Unsat {}

} // verus!
