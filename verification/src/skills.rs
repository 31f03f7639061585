//! Skills as the guide's admin view holds them.

use vstd::prelude::*;

pub mod admin;

verus! {

} // verus!
