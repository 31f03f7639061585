//! Data model and text-level logic for Orna data taken from the public codex on
//! `playorna.com` and from the admin view of `orna.guide`.
//!
//! Every function here is verified with Verus. Fetching pages, walking the HTML
//! DOM, reading and writing JSON files live outside this crate.

pub mod text;
pub mod num;
pub mod error;
pub mod codex;
pub mod config;
pub mod lookup;
pub mod guide;
pub mod strmap;
pub mod misc;
pub mod data;
pub mod monsters;
pub mod pets;
pub mod utils;
pub mod items;
pub mod skills;
