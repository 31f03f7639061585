//! Resources of the guide that change rarely: the lists that other entities
//! refer to by id.

use vstd::prelude::*;

use crate::lookup::{first_match, first_match_from};
use crate::text::{str_eq, to_owned};

verus! {

/// A spawn (an event or a place where monsters appear).
#[derive(Debug, Clone, PartialEq, Eq)]
pub struct Spawn {
    /// Id on the guide.
    pub id: u32,
    /// Name on the guide.
    pub name: String,
}

/// A category of items.
#[derive(Debug, Clone, PartialEq, Eq)]
pub struct ItemCategory {
    /// Id on the guide.
    pub id: u32,
    /// Name on the guide.
    pub name: String,
}

/// A type of items.
#[derive(Debug, Clone, PartialEq, Eq)]
pub struct ItemType {
    /// Id on the guide.
    pub id: u32,
    /// Name on the guide.
    pub name: String,
}

/// A family of monsters.
#[derive(Debug, Clone, PartialEq, Eq)]
pub struct MonsterFamily {
    /// Id on the guide.
    pub id: u32,
    /// Name on the guide.
    pub name: String,
}

/// A status effect.
#[derive(Debug, Clone, PartialEq, Eq)]
pub struct StatusEffect {
    /// Id on the guide.
    pub id: u32,
    /// Name on the guide.
    pub name: String,
}

/// An element.
#[derive(Debug, Clone, PartialEq, Eq)]
pub struct Element {
    /// Id on the guide.
    pub id: u32,
    /// Name on the guide.
    pub name: String,
}

/// A class of character that can equip an item.
#[derive(Debug, Clone, PartialEq, Eq)]
pub struct EquippedBy {
    /// Id on the guide.
    pub id: u32,
    /// Name on the guide.
    pub name: String,
}

/// A type of skills.
#[derive(Debug, Clone, PartialEq, Eq)]
pub struct SkillType {
    /// Id on the guide.
    pub id: u32,
    /// Name on the guide.
    pub name: String,
}

/// All the static resources of the guide.
#[derive(Debug, Clone, Default, PartialEq, Eq)]
pub struct Static {
    /// Spawns (events and places).
    pub spawns: Vec<Spawn>,
    /// Item categories.
    pub item_categories: Vec<ItemCategory>,
    /// Item types.
    pub item_types: Vec<ItemType>,
    /// Monster families.
    pub monster_families: Vec<MonsterFamily>,
    /// Status effects.
    pub status_effects: Vec<StatusEffect>,
    /// Elements.
    pub elements: Vec<Element>,
    /// Classes that can equip items.
    pub equipped_bys: Vec<EquippedBy>,
    /// Skill types.
    pub skill_types: Vec<SkillType>,
}

/// The names of `elements`, in order.
pub open spec fn element_names(elements: Seq<Element>) -> Seq<Seq<char>> {
    elements.map_values(|e: Element| e.name@)
}

/// The id of the first element of `elements` named `name`.
pub open spec fn element_id(elements: Seq<Element>, name: Seq<char>) -> Option<u32> {
    match first_match(element_names(elements), name) {
        Some(i) => Some(elements[i].id),
        None => None,
    }
}

/// Find the first element of the guide named `name`.
pub fn find_element_by_name<'a>(elements: &'a Vec<Element>, name: &str) -> (r: Option<&'a Element>)
    ensures
        match first_match(element_names(elements@), name@) {
            Some(i) => r matches Some(x) && *x == elements@[i],
            None => r is None,
        },
{
    let ghost keys = element_names(elements@);
    let mut i: usize = 0;
    while i < elements.len()
        invariant
            keys == element_names(elements@),
            i <= elements@.len(),
            first_match(keys, name@) == first_match_from(keys, name@, i as int),
        decreases elements.len() - i,
    {
        if str_eq(elements[i].name.as_str(), name) {
            return Some(&elements[i]);
        }
        i = i + 1;
    }
    None
}

/// The elements of the guide: their ids and names, in order.
pub open spec fn guide_elements() -> Seq<(u32, Seq<char>)> {
    seq![(1u32, "Fire"@), (2u32, "Water"@), (3u32, "Lightning"@), (4u32, "Earthen"@), (5u32, "Holy"@), (6u32, "Dark"@), (7u32, "Dragon"@), (9u32, "Physical"@), (11u32, "Arcane"@)]
}

/// The classes of the guide that equip items: their ids and names, in order.
pub open spec fn guide_equipped_bys() -> Seq<(u32, Seq<char>)> {
    seq![(1u32, "Warrior"@), (2u32, "Mage"@), (3u32, "Thief"@)]
}

/// The list of elements of the guide, which the admin view does not list: they are
/// fixed.
pub fn admin_retrieve_elements_list() -> (r: Vec<Element>)
    ensures
        r@.map_values(|e: Element| (e.id, e.name@)) == guide_elements(),
{
    let mut r: Vec<Element> = Vec::new();
    r.push(Element { id: 1, name: to_owned("Fire") });
    r.push(Element { id: 2, name: to_owned("Water") });
    r.push(Element { id: 3, name: to_owned("Lightning") });
    r.push(Element { id: 4, name: to_owned("Earthen") });
    r.push(Element { id: 5, name: to_owned("Holy") });
    r.push(Element { id: 6, name: to_owned("Dark") });
    r.push(Element { id: 7, name: to_owned("Dragon") });
    r.push(Element { id: 9, name: to_owned("Physical") });
    r.push(Element { id: 11, name: to_owned("Arcane") });
    assert(r@.map_values(|e: Element| (e.id, e.name@)) =~= guide_elements());
    r
}

/// The list of classes of the guide that equip items, which the admin view does not
/// list: they are fixed.
pub fn admin_retrieve_equipped_bys_list() -> (r: Vec<EquippedBy>)
    ensures
        r@.map_values(|e: EquippedBy| (e.id, e.name@)) == guide_equipped_bys(),
{
    let mut r: Vec<EquippedBy> = Vec::new();
    r.push(EquippedBy { id: 1, name: to_owned("Warrior") });
    r.push(EquippedBy { id: 2, name: to_owned("Mage") });
    r.push(EquippedBy { id: 3, name: to_owned("Thief") });
    assert(r@.map_values(|e: EquippedBy| (e.id, e.name@)) =~= guide_equipped_bys());
    r
}

} // verus!
