//! Helpers for reading the pages of the codex and of the guide.

use vstd::prelude::*;

pub mod dom;
pub mod html;

verus! {

} // verus!
