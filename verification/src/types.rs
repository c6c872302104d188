//! Small types shared by the mutations.
use vstd::prelude::*;

verus! {

/// What a change to a list asks: add an item, update it, or remove it.
#[derive(Clone, Copy, Debug, PartialEq, Eq, Structural)]
pub enum ListItemAction {
    Add,
    Update,
    Remove,
}

} // verus!
