//! Items as the game's data lists them.

use vstd::prelude::*;

pub mod admin;
pub mod item;

verus! {

} // verus!
