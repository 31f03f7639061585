//! Monsters: as the game's data lists them, and as the guide's admin view holds them.

use vstd::prelude::*;

pub mod admin;
pub mod monster;
pub mod raw;

verus! {

} // verus!
