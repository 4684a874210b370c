//! The ways a user command can be rejected. None of them is fatal: the
//! command is simply not applied and the current screen stays open.

use vstd::prelude::*;

verus! {

#[derive(Clone, Copy, Debug, PartialEq, Eq, Structural)]
pub enum UserError {
    /// The index given for an insert or replace lies past the end of the
    /// choice list.
    IndexOutOfRange,
    /// The index buffer does not hold a valid non-negative integer at commit
    /// time.
    ParseFailure,
    /// A random draw was requested while the choice list is empty; no draw
    /// is performed.
    EmptyListPick,
}

} // verus!
