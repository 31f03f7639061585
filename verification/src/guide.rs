//! The guide on `orna.guide` and what its admin view lists.

use vstd::prelude::*;

pub mod html_form_parser;
pub mod post_error_parser;
pub mod html_utils;
pub mod paging;
pub mod statics;

pub use statics::{
    Element, EquippedBy, ItemCategory, ItemType, MonsterFamily, SkillType, Spawn, Static,
    StatusEffect,
};

verus! {

/// A skill "row" when listing the skills from the admin guide. It does not contain much details.
#[derive(Debug)]
pub struct SkillRow {
    /// Id of the skill.
    pub id: u32,
    /// Name of the skill.
    pub name: String,
}

/// An item "row" when listing the items from the admin guide. It does not contain much details.
#[derive(Debug)]
pub struct ItemRow {
    /// Id of the item.
    pub id: u32,
    /// Name of the item.
    pub name: String,
}

/// A monster "row" when listing the monsters from the admin guide. It does not contain much
/// details.
#[derive(Debug)]
pub struct MonsterRow {
    /// Id of the monster.
    pub id: u32,
    /// Name of the monster.
    pub name: String,
}

/// A pet "row" when listing the pets from the admin guide. It does not contain much details.
#[derive(Debug)]
pub struct PetRow {
    /// Id of the pet.
    pub id: u32,
    /// Name of the pet.
    pub name: String,
}

} // verus!
