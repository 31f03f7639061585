//! Items of the game's data, split into their types.

use vstd::prelude::*;

use crate::error::{is_invalid_field, is_missing_field, Error, Kind};
use crate::text::{concat2, str_eq, to_owned};

verus! {

/// A material an item is made of.
#[derive(Clone, Debug)]
pub struct ItemMaterial {
    pub id: u32,
    pub name: String,
}

/// A monster that drops an item.
#[derive(Clone, Debug)]
pub struct ItemDroppedBy {
    pub id: u32,
    pub name: String,
}

/// A quest that rewards an item.
#[derive(Clone, Debug)]
pub struct ItemQuest {
    pub id: u32,
    pub name: String,
}

/// A class that can equip an item.
#[derive(Clone, Debug)]
pub struct ItemEquippedBy {
    pub id: u32,
    pub name: String,
}

/// The stats of an item as the game's data lists them; the library carries them
/// along without reading them (the JSON object, as text).
#[derive(Clone, Debug)]
pub struct ItemStats {
    pub json: String,
}

/// An object representation of an item in Orna from the API json.
#[derive(Clone, Debug)]
pub struct RawItem {
    pub name: String,
    pub id: u32,
    pub description: String,
    pub tier: u8,
    pub type_: String,
    pub boss: bool,
    pub arena: bool,
    pub image: String,
    pub category: Option<String>,
    pub view_distance: Option<u32>,
    pub stats: Option<ItemStats>,
    pub element: Option<String>,
    pub materials: Option<Vec<ItemMaterial>>,
    pub dropped_by: Option<Vec<ItemDroppedBy>>,
    pub quests: Option<Vec<ItemQuest>>,
    pub equipped_by: Option<Vec<ItemEquippedBy>>,
    pub prevents: Option<Vec<String>>,
    pub causes: Option<Vec<String>>,
    pub cures: Option<Vec<String>>,
    pub gives: Option<Vec<String>>,
}

/// The items of a list that may be absent, none when it is.
pub open spec fn or_empty_seq<T>(o: Option<Vec<T>>) -> Seq<T> {
    match o {
        Some(v) => v@,
        None => Seq::empty(),
    }
}

/// The list, or an empty one when it is absent.
fn or_empty<T>(o: Option<Vec<T>>) -> (r: Vec<T>)
    ensures
        r@ == or_empty_seq(o),
{
    match o {
        Some(v) => v,
        None => Vec::new(),
    }
}

/// The names of `v` joined with `,`.
pub open spec fn joined_names(v: Seq<ItemEquippedBy>) -> Seq<char>
    decreases v.len(),
{
    if v.len() == 0 {
        Seq::empty()
    } else if v.len() == 1 {
        v[0].name@
    } else {
        joined_names(v.drop_last()) + ","@ + v.last().name@
    }
}

/// The names of `v` joined with `,`.
fn join_names(v: &Vec<ItemEquippedBy>) -> (r: String)
    ensures
        r@ == joined_names(v@),
{
    let mut r = String::new();
    let mut i: usize = 0;
    while i < v.len()
        invariant
            i <= v@.len(),
            r@ == joined_names(v@.take(i as int)),
        decreases v.len() - i,
    {
        proof {
            assert(v@.take(i + 1).drop_last() =~= v@.take(i as int));
        }
        if i == 0 {
            r = v[0].name.clone();
        } else {
            r = concat2(r.as_str(), ",");
            r = concat2(r.as_str(), v[i].name.as_str());
        }
        i = i + 1;
    }
    assert(v@.take(v@.len() as int) =~= v@);
    r
}

/// Why a raw item does not make an item of a type.
pub enum ItemFailure {
    /// A field has an invalid value: the field and the value.
    Invalid(Seq<char>, Seq<char>),
    /// A field that the type does not have is there.
    Extra(Seq<char>),
    /// A field the type needs is missing.
    Missing(Seq<char>),
}

/// `e` reports the failure `f` of the raw item named `name`.
pub open spec fn fails_item(e: Error, name: Seq<char>, f: ItemFailure) -> bool {
    match f {
        ItemFailure::Invalid(field, value) => is_invalid_field(e, name, field, value),
        ItemFailure::Extra(field) => {
            &&& e.context@.len() == 0
            &&& e.kind matches Kind::ExtraField(o, g) && o@ == name && g@ == field
        },
        ItemFailure::Missing(field) => is_missing_field(e, name, field),
    }
}

/// The error that the field `field` of the item `name` has the value `value`.
fn invalid_field(name: String, field: &str, value: String) -> (e: Error)
    ensures
        is_invalid_field(e, name@, field@, value@),
{
    Kind::InvalidField(name, to_owned(field), Some(value)).into_err()
}

/// The error that the field `field` of the item `name` is missing.
fn missing_field(name: &String, field: &str) -> (e: Error)
    ensures
        is_missing_field(e, name@, field@),
{
    Kind::MissingField(name.clone(), to_owned(field)).into_err()
}

/// An item in Orna. This enum splits into types the different items.
#[derive(Clone)]
pub enum Item {
    /// An armor item.
    Armor(ArmorItem),
    /// A weapon item.
    Weapon(WeaponItem),
    /// A legs item.
    Legs(LegsItem),
    /// A head item.
    Head(HeadItem),
    /// A material item.
    Material(MaterialItem),
    /// An accessory item.
    Accessory(AccessoryItem),
    /// An off-hand item.
    OffHand(OffHandItem),
    /// An "item" item.
    Item(ItemItem),
    /// An adornment item.
    Adornment(AdornmentItem),
    /// A curative item.
    Curative(CurativeItem),
    /// A fish item.
    Fish(FishItem),
    /// An other item.
    Other(OtherItem),
}

impl Item {
    /// The id of the item.
    pub fn get_id(&self) -> (r: u32)
        ensures
            r == match self {
                Item::Armor(x) => x.id,
                Item::Weapon(x) => x.id,
                Item::Legs(x) => x.id,
                Item::Head(x) => x.id,
                Item::Material(x) => x.id,
                Item::Accessory(x) => x.id,
                Item::OffHand(x) => x.id,
                Item::Item(x) => x.id,
                Item::Adornment(x) => x.id,
                Item::Curative(x) => x.id,
                Item::Fish(x) => x.id,
                Item::Other(x) => x.id,
            },
    {
        match self {
            Item::Armor(x) => x.id,
            Item::Weapon(x) => x.id,
            Item::Legs(x) => x.id,
            Item::Head(x) => x.id,
            Item::Material(x) => x.id,
            Item::Accessory(x) => x.id,
            Item::OffHand(x) => x.id,
            Item::Item(x) => x.id,
            Item::Adornment(x) => x.id,
            Item::Curative(x) => x.id,
            Item::Fish(x) => x.id,
            Item::Other(x) => x.id,
        }
    }
}

/// An armor item in Orna.
#[derive(Clone)]
pub struct ArmorItem {
    pub name: String,
    pub id: u32,
    pub description: String,
    pub tier: u8,
    pub boss: bool,
    pub arena: bool,
    pub image: String,
    pub stats: ItemStats,
    pub element: Option<String>,
    pub materials: Vec<ItemMaterial>,
    pub dropped_by: Vec<ItemDroppedBy>,
    pub quests: Vec<ItemQuest>,
    pub equipped_by: Vec<ItemEquippedBy>,
    pub prevents: Vec<String>,
    pub causes: Vec<String>,
    pub cures: Vec<String>,
    pub gives: Vec<String>,
}

/// Why a raw item does not make a Armor item, if it does not.
pub open spec fn armoritem_failure(item: RawItem) -> Option<ItemFailure> {
    if item.type_@ != "Armor"@ {
        Some(ItemFailure::Invalid("type"@, item.type_@))
    } else if item.category is Some {
        Some(ItemFailure::Extra("category"@))
    } else if item.stats is None {
        Some(ItemFailure::Missing("stats"@))
    } else if item.materials is None {
        Some(ItemFailure::Missing("materials"@))
    } else {
        None
    }
}

/// The Armor item a raw item makes, when it makes one.
pub open spec fn is_armoritem_of(x: ArmorItem, item: RawItem) -> bool {
    &&& x.name == item.name
    &&& x.id == item.id
    &&& x.description == item.description
    &&& x.tier == item.tier
    &&& x.boss == item.boss
    &&& x.arena == item.arena
    &&& x.image == item.image
    &&& x.stats == item.stats.unwrap()
    &&& x.element == item.element
    &&& x.materials == item.materials.unwrap()
    &&& x.dropped_by@ == or_empty_seq(item.dropped_by)
    &&& x.quests@ == or_empty_seq(item.quests)
    &&& x.equipped_by@ == or_empty_seq(item.equipped_by)
    &&& x.prevents@ == or_empty_seq(item.prevents)
    &&& x.causes@ == or_empty_seq(item.causes)
    &&& x.cures@ == or_empty_seq(item.cures)
    &&& x.gives@ == or_empty_seq(item.gives)
}

impl ArmorItem {
    /// Create a `Armor` item from a `RawItem`.
    /// The `RawItem`'s `type` field must be `Armor`.
    pub fn try_from(item: RawItem) -> (r: Result<Self, Error>)
        ensures
            match armoritem_failure(item) {
                Some(f) => r matches Err(e) && fails_item(e, item.name@, f),
                None => r matches Ok(x) && is_armoritem_of(x, item),
            },
    {
        if !str_eq(item.type_.as_str(), "Armor") {
            return Err(invalid_field(item.name, "type", item.type_));
        }
        if item.category.is_some() {
            return Err(Kind::ExtraField(item.name, to_owned("category")).into_err());
        }
        if item.stats.is_none() {
            return Err(missing_field(&item.name, "stats"));
        }
        if item.materials.is_none() {
            return Err(missing_field(&item.name, "materials"));
        }
        Ok(ArmorItem {
            name: item.name,
            id: item.id,
            description: item.description,
            tier: item.tier,
            boss: item.boss,
            arena: item.arena,
            image: item.image,
            stats: item.stats.unwrap(),
            element: item.element,
            materials: item.materials.unwrap(),
            dropped_by: or_empty(item.dropped_by),
            quests: or_empty(item.quests),
            equipped_by: or_empty(item.equipped_by),
            prevents: or_empty(item.prevents),
            causes: or_empty(item.causes),
            cures: or_empty(item.cures),
            gives: or_empty(item.gives),
        })
    }
}

/// An weapon item in Orna.
#[derive(Clone)]
pub struct WeaponItem {
    pub name: String,
    pub id: u32,
    pub description: String,
    pub tier: u8,
    pub boss: bool,
    pub arena: bool,
    pub image: String,
    pub view_distance: Option<u32>,
    pub stats: ItemStats,
    pub element: Option<String>,
    pub materials: Vec<ItemMaterial>,
    pub dropped_by: Vec<ItemDroppedBy>,
    pub quests: Vec<ItemQuest>,
    pub equipped_by: Vec<ItemEquippedBy>,
    pub prevents: Vec<String>,
    pub causes: Vec<String>,
    pub cures: Vec<String>,
    pub gives: Vec<String>,
    pub category: String,
}

/// Why a raw item does not make a Weapon item, if it does not.
pub open spec fn weaponitem_failure(item: RawItem) -> Option<ItemFailure> {
    if item.type_@ != "Weapon"@ {
        Some(ItemFailure::Invalid("type"@, item.type_@))
    } else if item.stats is None {
        Some(ItemFailure::Missing("stats"@))
    } else if item.materials is None {
        Some(ItemFailure::Missing("materials"@))
    } else if item.category is None {
        Some(ItemFailure::Missing("category"@))
    } else {
        None
    }
}

/// The Weapon item a raw item makes, when it makes one.
pub open spec fn is_weaponitem_of(x: WeaponItem, item: RawItem) -> bool {
    &&& x.name == item.name
    &&& x.id == item.id
    &&& x.description == item.description
    &&& x.tier == item.tier
    &&& x.boss == item.boss
    &&& x.arena == item.arena
    &&& x.image == item.image
    &&& x.view_distance == item.view_distance
    &&& x.stats == item.stats.unwrap()
    &&& x.element == item.element
    &&& x.materials == item.materials.unwrap()
    &&& x.dropped_by@ == or_empty_seq(item.dropped_by)
    &&& x.quests@ == or_empty_seq(item.quests)
    &&& x.equipped_by@ == or_empty_seq(item.equipped_by)
    &&& x.prevents@ == or_empty_seq(item.prevents)
    &&& x.causes@ == or_empty_seq(item.causes)
    &&& x.cures@ == or_empty_seq(item.cures)
    &&& x.gives@ == or_empty_seq(item.gives)
    &&& x.category == item.category.unwrap()
}

impl WeaponItem {
    /// Create a `Weapon` item from a `RawItem`.
    /// The `RawItem`'s `type` field must be `Weapon`.
    pub fn try_from(item: RawItem) -> (r: Result<Self, Error>)
        ensures
            match weaponitem_failure(item) {
                Some(f) => r matches Err(e) && fails_item(e, item.name@, f),
                None => r matches Ok(x) && is_weaponitem_of(x, item),
            },
    {
        if !str_eq(item.type_.as_str(), "Weapon") {
            return Err(invalid_field(item.name, "type", item.type_));
        }
        if item.stats.is_none() {
            return Err(missing_field(&item.name, "stats"));
        }
        if item.materials.is_none() {
            return Err(missing_field(&item.name, "materials"));
        }
        if item.category.is_none() {
            return Err(missing_field(&item.name, "category"));
        }
        Ok(WeaponItem {
            name: item.name,
            id: item.id,
            description: item.description,
            tier: item.tier,
            boss: item.boss,
            arena: item.arena,
            image: item.image,
            view_distance: item.view_distance,
            stats: item.stats.unwrap(),
            element: item.element,
            materials: item.materials.unwrap(),
            dropped_by: or_empty(item.dropped_by),
            quests: or_empty(item.quests),
            equipped_by: or_empty(item.equipped_by),
            prevents: or_empty(item.prevents),
            causes: or_empty(item.causes),
            cures: or_empty(item.cures),
            gives: or_empty(item.gives),
            category: item.category.unwrap(),
        })
    }
}

/// An legs item in Orna.
#[derive(Clone)]
pub struct LegsItem {
    pub name: String,
    pub id: u32,
    pub description: String,
    pub tier: u8,
    pub boss: bool,
    pub arena: bool,
    pub image: String,
    pub stats: ItemStats,
    pub element: Option<String>,
    pub materials: Vec<ItemMaterial>,
    pub dropped_by: Vec<ItemDroppedBy>,
    pub quests: Vec<ItemQuest>,
    pub equipped_by: Vec<ItemEquippedBy>,
    pub prevents: Vec<String>,
    pub causes: Vec<String>,
    pub cures: Vec<String>,
    pub gives: Vec<String>,
}

/// Why a raw item does not make a Legs item, if it does not.
pub open spec fn legsitem_failure(item: RawItem) -> Option<ItemFailure> {
    if item.type_@ != "Legs"@ {
        Some(ItemFailure::Invalid("type"@, item.type_@))
    } else if item.stats is None {
        Some(ItemFailure::Missing("stats"@))
    } else if item.materials is None {
        Some(ItemFailure::Missing("materials"@))
    } else {
        None
    }
}

/// The Legs item a raw item makes, when it makes one.
pub open spec fn is_legsitem_of(x: LegsItem, item: RawItem) -> bool {
    &&& x.name == item.name
    &&& x.id == item.id
    &&& x.description == item.description
    &&& x.tier == item.tier
    &&& x.boss == item.boss
    &&& x.arena == item.arena
    &&& x.image == item.image
    &&& x.stats == item.stats.unwrap()
    &&& x.element == item.element
    &&& x.materials == item.materials.unwrap()
    &&& x.dropped_by@ == or_empty_seq(item.dropped_by)
    &&& x.quests@ == or_empty_seq(item.quests)
    &&& x.equipped_by@ == or_empty_seq(item.equipped_by)
    &&& x.prevents@ == or_empty_seq(item.prevents)
    &&& x.causes@ == or_empty_seq(item.causes)
    &&& x.cures@ == or_empty_seq(item.cures)
    &&& x.gives@ == or_empty_seq(item.gives)
}

impl LegsItem {
    /// Create a `Legs` item from a `RawItem`.
    /// The `RawItem`'s `type` field must be `Legs`.
    pub fn try_from(item: RawItem) -> (r: Result<Self, Error>)
        ensures
            match legsitem_failure(item) {
                Some(f) => r matches Err(e) && fails_item(e, item.name@, f),
                None => r matches Ok(x) && is_legsitem_of(x, item),
            },
    {
        if !str_eq(item.type_.as_str(), "Legs") {
            return Err(invalid_field(item.name, "type", item.type_));
        }
        if item.stats.is_none() {
            return Err(missing_field(&item.name, "stats"));
        }
        if item.materials.is_none() {
            return Err(missing_field(&item.name, "materials"));
        }
        Ok(LegsItem {
            name: item.name,
            id: item.id,
            description: item.description,
            tier: item.tier,
            boss: item.boss,
            arena: item.arena,
            image: item.image,
            stats: item.stats.unwrap(),
            element: item.element,
            materials: item.materials.unwrap(),
            dropped_by: or_empty(item.dropped_by),
            quests: or_empty(item.quests),
            equipped_by: or_empty(item.equipped_by),
            prevents: or_empty(item.prevents),
            causes: or_empty(item.causes),
            cures: or_empty(item.cures),
            gives: or_empty(item.gives),
        })
    }
}

/// A head item in Orna.
#[derive(Clone)]
pub struct HeadItem {
    pub name: String,
    pub id: u32,
    pub description: String,
    pub tier: u8,
    pub boss: bool,
    pub arena: bool,
    pub image: String,
    pub stats: ItemStats,
    pub element: Option<String>,
    pub materials: Vec<ItemMaterial>,
    pub dropped_by: Vec<ItemDroppedBy>,
    pub quests: Vec<ItemQuest>,
    pub equipped_by: Vec<ItemEquippedBy>,
    pub prevents: Vec<String>,
    pub causes: Vec<String>,
    pub cures: Vec<String>,
    pub gives: Vec<String>,
}

/// Why a raw item does not make a Head item, if it does not.
pub open spec fn headitem_failure(item: RawItem) -> Option<ItemFailure> {
    if item.type_@ != "Head"@ {
        Some(ItemFailure::Invalid("type"@, item.type_@))
    } else if item.stats is None {
        Some(ItemFailure::Missing("stats"@))
    } else if item.materials is None {
        Some(ItemFailure::Missing("materials"@))
    } else {
        None
    }
}

/// The Head item a raw item makes, when it makes one.
pub open spec fn is_headitem_of(x: HeadItem, item: RawItem) -> bool {
    &&& x.name == item.name
    &&& x.id == item.id
    &&& x.description == item.description
    &&& x.tier == item.tier
    &&& x.boss == item.boss
    &&& x.arena == item.arena
    &&& x.image == item.image
    &&& x.stats == item.stats.unwrap()
    &&& x.element == item.element
    &&& x.materials == item.materials.unwrap()
    &&& x.dropped_by@ == or_empty_seq(item.dropped_by)
    &&& x.quests@ == or_empty_seq(item.quests)
    &&& x.equipped_by@ == or_empty_seq(item.equipped_by)
    &&& x.prevents@ == or_empty_seq(item.prevents)
    &&& x.causes@ == or_empty_seq(item.causes)
    &&& x.cures@ == or_empty_seq(item.cures)
    &&& x.gives@ == or_empty_seq(item.gives)
}

impl HeadItem {
    /// Create a `Head` item from a `RawItem`.
    /// The `RawItem`'s `type` field must be `Head`.
    pub fn try_from(item: RawItem) -> (r: Result<Self, Error>)
        ensures
            match headitem_failure(item) {
                Some(f) => r matches Err(e) && fails_item(e, item.name@, f),
                None => r matches Ok(x) && is_headitem_of(x, item),
            },
    {
        if !str_eq(item.type_.as_str(), "Head") {
            return Err(invalid_field(item.name, "type", item.type_));
        }
        if item.stats.is_none() {
            return Err(missing_field(&item.name, "stats"));
        }
        if item.materials.is_none() {
            return Err(missing_field(&item.name, "materials"));
        }
        Ok(HeadItem {
            name: item.name,
            id: item.id,
            description: item.description,
            tier: item.tier,
            boss: item.boss,
            arena: item.arena,
            image: item.image,
            stats: item.stats.unwrap(),
            element: item.element,
            materials: item.materials.unwrap(),
            dropped_by: or_empty(item.dropped_by),
            quests: or_empty(item.quests),
            equipped_by: or_empty(item.equipped_by),
            prevents: or_empty(item.prevents),
            causes: or_empty(item.causes),
            cures: or_empty(item.cures),
            gives: or_empty(item.gives),
        })
    }
}

/// A material item in Orna.
#[derive(Clone)]
pub struct MaterialItem {
    pub name: String,
    pub id: u32,
    pub description: String,
    pub tier: u8,
    pub boss: bool,
    pub arena: bool,
    pub image: String,
    pub materials: Vec<ItemMaterial>,
    pub dropped_by: Vec<ItemDroppedBy>,
    pub equipped_by: Vec<ItemEquippedBy>,
    pub quests: Vec<ItemQuest>,
}

/// Why a raw item does not make a Material item, if it does not.
pub open spec fn materialitem_failure(item: RawItem) -> Option<ItemFailure> {
    if item.type_@ != "Material"@ {
        Some(ItemFailure::Invalid("type"@, item.type_@))
    } else if item.equipped_by matches Some(v) && v@.len() != 3 {
        Some(ItemFailure::Invalid("equipped_by[]"@, joined_names(item.equipped_by.unwrap()@)))
    } else if item.equipped_by is None {
        Some(ItemFailure::Missing("equipped_by"@))
    } else {
        None
    }
}

/// The Material item a raw item makes, when it makes one.
pub open spec fn is_materialitem_of(x: MaterialItem, item: RawItem) -> bool {
    &&& x.name == item.name
    &&& x.id == item.id
    &&& x.description == item.description
    &&& x.tier == item.tier
    &&& x.boss == item.boss
    &&& x.arena == item.arena
    &&& x.image == item.image
    &&& x.materials@ == or_empty_seq(item.materials)
    &&& x.dropped_by@ == or_empty_seq(item.dropped_by)
    &&& x.equipped_by == item.equipped_by.unwrap()
    &&& x.quests@ == or_empty_seq(item.quests)
}

impl MaterialItem {
    /// Create a `Material` item from a `RawItem`.
    /// The `RawItem`'s `type` field must be `Material`.
    pub fn try_from(item: RawItem) -> (r: Result<Self, Error>)
        ensures
            match materialitem_failure(item) {
                Some(f) => r matches Err(e) && fails_item(e, item.name@, f),
                None => r matches Ok(x) && is_materialitem_of(x, item),
            },
    {
        if !str_eq(item.type_.as_str(), "Material") {
            return Err(invalid_field(item.name, "type", item.type_));
        }
        match &item.equipped_by {
            Some(v) => {
                if v.len() != 3 {
                    let names = join_names(v);
                    return Err(invalid_field(item.name, "equipped_by[]", names));
                }
            },
            None => {},
        }
        if item.equipped_by.is_none() {
            return Err(missing_field(&item.name, "equipped_by"));
        }
        Ok(MaterialItem {
            name: item.name,
            id: item.id,
            description: item.description,
            tier: item.tier,
            boss: item.boss,
            arena: item.arena,
            image: item.image,
            materials: or_empty(item.materials),
            dropped_by: or_empty(item.dropped_by),
            equipped_by: item.equipped_by.unwrap(),
            quests: or_empty(item.quests),
        })
    }
}

/// An accessory item in Orna.
#[derive(Clone)]
pub struct AccessoryItem {
    pub name: String,
    pub id: u32,
    pub description: String,
    pub tier: u8,
    pub boss: bool,
    pub arena: bool,
    pub image: String,
    pub view_distance: Option<u32>,
    pub stats: Option<ItemStats>,
    pub element: Option<String>,
    pub dropped_by: Vec<ItemDroppedBy>,
    pub quests: Vec<ItemQuest>,
    pub equipped_by: Vec<ItemEquippedBy>,
    pub prevents: Vec<String>,
    pub causes: Vec<String>,
    pub cures: Vec<String>,
    pub gives: Vec<String>,
}

/// Why a raw item does not make a Accessory item, if it does not.
pub open spec fn accessoryitem_failure(item: RawItem) -> Option<ItemFailure> {
    if item.type_@ != "Accessory"@ {
        Some(ItemFailure::Invalid("type"@, item.type_@))
    } else if item.equipped_by matches Some(v) && v@.len() == 0 {
        Some(ItemFailure::Invalid("equipped_by[]"@, "[]"@))
    } else {
        None
    }
}

/// The Accessory item a raw item makes, when it makes one.
pub open spec fn is_accessoryitem_of(x: AccessoryItem, item: RawItem) -> bool {
    &&& x.name == item.name
    &&& x.id == item.id
    &&& x.description == item.description
    &&& x.tier == item.tier
    &&& x.boss == item.boss
    &&& x.arena == item.arena
    &&& x.image == item.image
    &&& x.view_distance == item.view_distance
    &&& x.stats == item.stats
    &&& x.element == item.element
    &&& x.dropped_by@ == or_empty_seq(item.dropped_by)
    &&& x.quests@ == or_empty_seq(item.quests)
    &&& x.equipped_by@ == or_empty_seq(item.equipped_by)
    &&& x.prevents@ == or_empty_seq(item.prevents)
    &&& x.causes@ == or_empty_seq(item.causes)
    &&& x.cures@ == or_empty_seq(item.cures)
    &&& x.gives@ == or_empty_seq(item.gives)
}

impl AccessoryItem {
    /// Create a `Accessory` item from a `RawItem`.
    /// The `RawItem`'s `type` field must be `Accessory`.
    pub fn try_from(item: RawItem) -> (r: Result<Self, Error>)
        ensures
            match accessoryitem_failure(item) {
                Some(f) => r matches Err(e) && fails_item(e, item.name@, f),
                None => r matches Ok(x) && is_accessoryitem_of(x, item),
            },
    {
        if !str_eq(item.type_.as_str(), "Accessory") {
            return Err(invalid_field(item.name, "type", item.type_));
        }
        match &item.equipped_by {
            Some(v) => {
                if v.len() == 0 {
                    return Err(invalid_field(item.name, "equipped_by[]", to_owned("[]")));
                }
            },
            None => {},
        }
        Ok(AccessoryItem {
            name: item.name,
            id: item.id,
            description: item.description,
            tier: item.tier,
            boss: item.boss,
            arena: item.arena,
            image: item.image,
            view_distance: item.view_distance,
            stats: item.stats,
            element: item.element,
            dropped_by: or_empty(item.dropped_by),
            quests: or_empty(item.quests),
            equipped_by: or_empty(item.equipped_by),
            prevents: or_empty(item.prevents),
            causes: or_empty(item.causes),
            cures: or_empty(item.cures),
            gives: or_empty(item.gives),
        })
    }
}

/// An off-hand item in Orna.
#[derive(Clone)]
pub struct OffHandItem {
    pub name: String,
    pub id: u32,
    pub description: String,
    pub tier: u8,
    pub boss: bool,
    pub arena: bool,
    pub image: String,
    pub view_distance: Option<u32>,
    pub stats: Option<ItemStats>,
    pub element: Option<String>,
    pub dropped_by: Vec<ItemDroppedBy>,
    pub quests: Vec<ItemQuest>,
    pub equipped_by: Vec<ItemEquippedBy>,
    pub prevents: Vec<String>,
    pub causes: Vec<String>,
    pub cures: Vec<String>,
    pub gives: Vec<String>,
}

/// Why a raw item does not make a Off-hand item, if it does not.
pub open spec fn offhanditem_failure(item: RawItem) -> Option<ItemFailure> {
    if item.type_@ != "Off-hand"@ {
        Some(ItemFailure::Invalid("type"@, item.type_@))
    } else {
        None
    }
}

/// The Off-hand item a raw item makes, when it makes one.
pub open spec fn is_offhanditem_of(x: OffHandItem, item: RawItem) -> bool {
    &&& x.name == item.name
    &&& x.id == item.id
    &&& x.description == item.description
    &&& x.tier == item.tier
    &&& x.boss == item.boss
    &&& x.arena == item.arena
    &&& x.image == item.image
    &&& x.view_distance == item.view_distance
    &&& x.stats == item.stats
    &&& x.element == item.element
    &&& x.dropped_by@ == or_empty_seq(item.dropped_by)
    &&& x.quests@ == or_empty_seq(item.quests)
    &&& x.equipped_by@ == or_empty_seq(item.equipped_by)
    &&& x.prevents@ == or_empty_seq(item.prevents)
    &&& x.causes@ == or_empty_seq(item.causes)
    &&& x.cures@ == or_empty_seq(item.cures)
    &&& x.gives@ == or_empty_seq(item.gives)
}

impl OffHandItem {
    /// Create a `OffHand` item from a `RawItem`.
    /// The `RawItem`'s `type` field must be `Off-hand`.
    pub fn try_from(item: RawItem) -> (r: Result<Self, Error>)
        ensures
            match offhanditem_failure(item) {
                Some(f) => r matches Err(e) && fails_item(e, item.name@, f),
                None => r matches Ok(x) && is_offhanditem_of(x, item),
            },
    {
        if !str_eq(item.type_.as_str(), "Off-hand") {
            return Err(invalid_field(item.name, "type", item.type_));
        }
        Ok(OffHandItem {
            name: item.name,
            id: item.id,
            description: item.description,
            tier: item.tier,
            boss: item.boss,
            arena: item.arena,
            image: item.image,
            view_distance: item.view_distance,
            stats: item.stats,
            element: item.element,
            dropped_by: or_empty(item.dropped_by),
            quests: or_empty(item.quests),
            equipped_by: or_empty(item.equipped_by),
            prevents: or_empty(item.prevents),
            causes: or_empty(item.causes),
            cures: or_empty(item.cures),
            gives: or_empty(item.gives),
        })
    }
}

/// An "item" item in Orna.
#[derive(Clone)]
pub struct ItemItem {
    pub name: String,
    pub id: u32,
    pub description: String,
    pub tier: u8,
    pub boss: bool,
    pub arena: bool,
    pub image: String,
    pub dropped_by: Vec<ItemDroppedBy>,
    pub equipped_by: Vec<ItemEquippedBy>,
    pub quests: Vec<ItemQuest>,
}

/// Why a raw item does not make a Item item, if it does not.
pub open spec fn itemitem_failure(item: RawItem) -> Option<ItemFailure> {
    if item.type_@ != "Item"@ {
        Some(ItemFailure::Invalid("type"@, item.type_@))
    } else if item.equipped_by matches Some(v) && v@.len() != 3 {
        Some(ItemFailure::Invalid("equipped_by[]"@, joined_names(item.equipped_by.unwrap()@)))
    } else if item.equipped_by is None {
        Some(ItemFailure::Missing("equipped_by"@))
    } else {
        None
    }
}

/// The Item item a raw item makes, when it makes one.
pub open spec fn is_itemitem_of(x: ItemItem, item: RawItem) -> bool {
    &&& x.name == item.name
    &&& x.id == item.id
    &&& x.description == item.description
    &&& x.tier == item.tier
    &&& x.boss == item.boss
    &&& x.arena == item.arena
    &&& x.image == item.image
    &&& x.dropped_by@ == or_empty_seq(item.dropped_by)
    &&& x.equipped_by == item.equipped_by.unwrap()
    &&& x.quests@ == or_empty_seq(item.quests)
}

impl ItemItem {
    /// Create a `Item` item from a `RawItem`.
    /// The `RawItem`'s `type` field must be `Item`.
    pub fn try_from(item: RawItem) -> (r: Result<Self, Error>)
        ensures
            match itemitem_failure(item) {
                Some(f) => r matches Err(e) && fails_item(e, item.name@, f),
                None => r matches Ok(x) && is_itemitem_of(x, item),
            },
    {
        if !str_eq(item.type_.as_str(), "Item") {
            return Err(invalid_field(item.name, "type", item.type_));
        }
        match &item.equipped_by {
            Some(v) => {
                if v.len() != 3 {
                    let names = join_names(v);
                    return Err(invalid_field(item.name, "equipped_by[]", names));
                }
            },
            None => {},
        }
        if item.equipped_by.is_none() {
            return Err(missing_field(&item.name, "equipped_by"));
        }
        Ok(ItemItem {
            name: item.name,
            id: item.id,
            description: item.description,
            tier: item.tier,
            boss: item.boss,
            arena: item.arena,
            image: item.image,
            dropped_by: or_empty(item.dropped_by),
            equipped_by: item.equipped_by.unwrap(),
            quests: or_empty(item.quests),
        })
    }
}

/// An adornment item in Orna.
#[derive(Clone)]
pub struct AdornmentItem {
    pub name: String,
    pub id: u32,
    pub description: String,
    pub tier: u8,
    pub boss: bool,
    pub arena: bool,
    pub image: String,
    pub view_distance: Option<u32>,
    pub stats: Option<ItemStats>,
    pub element: Option<String>,
    pub dropped_by: Vec<ItemDroppedBy>,
    pub quests: Vec<ItemQuest>,
    pub equipped_by: Vec<ItemEquippedBy>,
    pub prevents: Vec<String>,
    pub causes: Vec<String>,
    pub cures: Vec<String>,
    pub gives: Vec<String>,
}

/// Why a raw item does not make a Adornment item, if it does not.
pub open spec fn adornmentitem_failure(item: RawItem) -> Option<ItemFailure> {
    if item.type_@ != "Adornment"@ {
        Some(ItemFailure::Invalid("type"@, item.type_@))
    } else {
        None
    }
}

/// The Adornment item a raw item makes, when it makes one.
pub open spec fn is_adornmentitem_of(x: AdornmentItem, item: RawItem) -> bool {
    &&& x.name == item.name
    &&& x.id == item.id
    &&& x.description == item.description
    &&& x.tier == item.tier
    &&& x.boss == item.boss
    &&& x.arena == item.arena
    &&& x.image == item.image
    &&& x.view_distance == item.view_distance
    &&& x.stats == item.stats
    &&& x.element == item.element
    &&& x.dropped_by@ == or_empty_seq(item.dropped_by)
    &&& x.quests@ == or_empty_seq(item.quests)
    &&& x.equipped_by@ == or_empty_seq(item.equipped_by)
    &&& x.prevents@ == or_empty_seq(item.prevents)
    &&& x.causes@ == or_empty_seq(item.causes)
    &&& x.cures@ == or_empty_seq(item.cures)
    &&& x.gives@ == or_empty_seq(item.gives)
}

impl AdornmentItem {
    /// Create a `Adornment` item from a `RawItem`.
    /// The `RawItem`'s `type` field must be `Adornment`.
    pub fn try_from(item: RawItem) -> (r: Result<Self, Error>)
        ensures
            match adornmentitem_failure(item) {
                Some(f) => r matches Err(e) && fails_item(e, item.name@, f),
                None => r matches Ok(x) && is_adornmentitem_of(x, item),
            },
    {
        if !str_eq(item.type_.as_str(), "Adornment") {
            return Err(invalid_field(item.name, "type", item.type_));
        }
        Ok(AdornmentItem {
            name: item.name,
            id: item.id,
            description: item.description,
            tier: item.tier,
            boss: item.boss,
            arena: item.arena,
            image: item.image,
            view_distance: item.view_distance,
            stats: item.stats,
            element: item.element,
            dropped_by: or_empty(item.dropped_by),
            quests: or_empty(item.quests),
            equipped_by: or_empty(item.equipped_by),
            prevents: or_empty(item.prevents),
            causes: or_empty(item.causes),
            cures: or_empty(item.cures),
            gives: or_empty(item.gives),
        })
    }
}

/// A curative item in Orna.
#[derive(Clone)]
pub struct CurativeItem {
    pub name: String,
    pub id: u32,
    pub description: String,
    pub tier: u8,
    pub boss: bool,
    pub arena: bool,
    pub image: String,
    pub dropped_by: Vec<ItemDroppedBy>,
    pub equipped_by: Vec<ItemEquippedBy>,
    pub quests: Vec<ItemQuest>,
}

/// Why a raw item does not make a Curative item, if it does not.
pub open spec fn curativeitem_failure(item: RawItem) -> Option<ItemFailure> {
    if item.type_@ != "Curative"@ {
        Some(ItemFailure::Invalid("type"@, item.type_@))
    } else if item.equipped_by matches Some(v) && v@.len() != 3 {
        Some(ItemFailure::Invalid("equipped_by[]"@, joined_names(item.equipped_by.unwrap()@)))
    } else if item.equipped_by is None {
        Some(ItemFailure::Missing("equipped_by"@))
    } else {
        None
    }
}

/// The Curative item a raw item makes, when it makes one.
pub open spec fn is_curativeitem_of(x: CurativeItem, item: RawItem) -> bool {
    &&& x.name == item.name
    &&& x.id == item.id
    &&& x.description == item.description
    &&& x.tier == item.tier
    &&& x.boss == item.boss
    &&& x.arena == item.arena
    &&& x.image == item.image
    &&& x.dropped_by@ == or_empty_seq(item.dropped_by)
    &&& x.equipped_by == item.equipped_by.unwrap()
    &&& x.quests@ == or_empty_seq(item.quests)
}

impl CurativeItem {
    /// Create a `Curative` item from a `RawItem`.
    /// The `RawItem`'s `type` field must be `Curative`.
    pub fn try_from(item: RawItem) -> (r: Result<Self, Error>)
        ensures
            match curativeitem_failure(item) {
                Some(f) => r matches Err(e) && fails_item(e, item.name@, f),
                None => r matches Ok(x) && is_curativeitem_of(x, item),
            },
    {
        if !str_eq(item.type_.as_str(), "Curative") {
            return Err(invalid_field(item.name, "type", item.type_));
        }
        match &item.equipped_by {
            Some(v) => {
                if v.len() != 3 {
                    let names = join_names(v);
                    return Err(invalid_field(item.name, "equipped_by[]", names));
                }
            },
            None => {},
        }
        if item.equipped_by.is_none() {
            return Err(missing_field(&item.name, "equipped_by"));
        }
        Ok(CurativeItem {
            name: item.name,
            id: item.id,
            description: item.description,
            tier: item.tier,
            boss: item.boss,
            arena: item.arena,
            image: item.image,
            dropped_by: or_empty(item.dropped_by),
            equipped_by: item.equipped_by.unwrap(),
            quests: or_empty(item.quests),
        })
    }
}

/// A fish item in Orna.
#[derive(Clone)]
pub struct FishItem {
    pub name: String,
    pub id: u32,
    pub description: String,
    pub tier: u8,
    pub boss: bool,
    pub arena: bool,
    pub image: String,
    pub dropped_by: Vec<ItemDroppedBy>,
    pub quests: Vec<ItemQuest>,
}

/// Why a raw item does not make a Fish item, if it does not.
pub open spec fn fishitem_failure(item: RawItem) -> Option<ItemFailure> {
    if item.type_@ != "Fish"@ {
        Some(ItemFailure::Invalid("type"@, item.type_@))
    } else {
        None
    }
}

/// The Fish item a raw item makes, when it makes one.
pub open spec fn is_fishitem_of(x: FishItem, item: RawItem) -> bool {
    &&& x.name == item.name
    &&& x.id == item.id
    &&& x.description == item.description
    &&& x.tier == item.tier
    &&& x.boss == item.boss
    &&& x.arena == item.arena
    &&& x.image == item.image
    &&& x.dropped_by@ == or_empty_seq(item.dropped_by)
    &&& x.quests@ == or_empty_seq(item.quests)
}

impl FishItem {
    /// Create a `Fish` item from a `RawItem`.
    /// The `RawItem`'s `type` field must be `Fish`.
    pub fn try_from(item: RawItem) -> (r: Result<Self, Error>)
        ensures
            match fishitem_failure(item) {
                Some(f) => r matches Err(e) && fails_item(e, item.name@, f),
                None => r matches Ok(x) && is_fishitem_of(x, item),
            },
    {
        if !str_eq(item.type_.as_str(), "Fish") {
            return Err(invalid_field(item.name, "type", item.type_));
        }
        Ok(FishItem {
            name: item.name,
            id: item.id,
            description: item.description,
            tier: item.tier,
            boss: item.boss,
            arena: item.arena,
            image: item.image,
            dropped_by: or_empty(item.dropped_by),
            quests: or_empty(item.quests),
        })
    }
}

/// An other item in Orna.
#[derive(Clone)]
pub struct OtherItem {
    pub name: String,
    pub id: u32,
    pub description: String,
    pub tier: u8,
    pub boss: bool,
    pub arena: bool,
    pub image: String,
    pub dropped_by: Vec<ItemDroppedBy>,
    pub equipped_by: Vec<ItemEquippedBy>,
    pub quests: Vec<ItemQuest>,
}

/// Why a raw item does not make a Other item, if it does not.
pub open spec fn otheritem_failure(item: RawItem) -> Option<ItemFailure> {
    if item.type_@ != "Other"@ {
        Some(ItemFailure::Invalid("type"@, item.type_@))
    } else if item.equipped_by matches Some(v) && v@.len() != 3 {
        Some(ItemFailure::Invalid("equipped_by[]"@, joined_names(item.equipped_by.unwrap()@)))
    } else if item.equipped_by is None {
        Some(ItemFailure::Missing("equipped_by"@))
    } else {
        None
    }
}

/// The Other item a raw item makes, when it makes one.
pub open spec fn is_otheritem_of(x: OtherItem, item: RawItem) -> bool {
    &&& x.name == item.name
    &&& x.id == item.id
    &&& x.description == item.description
    &&& x.tier == item.tier
    &&& x.boss == item.boss
    &&& x.arena == item.arena
    &&& x.image == item.image
    &&& x.dropped_by@ == or_empty_seq(item.dropped_by)
    &&& x.equipped_by == item.equipped_by.unwrap()
    &&& x.quests@ == or_empty_seq(item.quests)
}

impl OtherItem {
    /// Create a `Other` item from a `RawItem`.
    /// The `RawItem`'s `type` field must be `Other`.
    pub fn try_from(item: RawItem) -> (r: Result<Self, Error>)
        ensures
            match otheritem_failure(item) {
                Some(f) => r matches Err(e) && fails_item(e, item.name@, f),
                None => r matches Ok(x) && is_otheritem_of(x, item),
            },
    {
        if !str_eq(item.type_.as_str(), "Other") {
            return Err(invalid_field(item.name, "type", item.type_));
        }
        match &item.equipped_by {
            Some(v) => {
                if v.len() != 3 {
                    let names = join_names(v);
                    return Err(invalid_field(item.name, "equipped_by[]", names));
                }
            },
            None => {},
        }
        if item.equipped_by.is_none() {
            return Err(missing_field(&item.name, "equipped_by"));
        }
        Ok(OtherItem {
            name: item.name,
            id: item.id,
            description: item.description,
            tier: item.tier,
            boss: item.boss,
            arena: item.arena,
            image: item.image,
            dropped_by: or_empty(item.dropped_by),
            equipped_by: item.equipped_by.unwrap(),
            quests: or_empty(item.quests),
        })
    }
}

/// The type names of raw items are distinct.
proof fn lemma_item_types_distinct()
    ensures
        "Armor"@ != "Weapon"@,
        "Armor"@ != "Legs"@,
        "Armor"@ != "Head"@,
        "Armor"@ != "Material"@,
        "Armor"@ != "Accessory"@,
        "Armor"@ != "Off-hand"@,
        "Armor"@ != "Item"@,
        "Armor"@ != "Adornment"@,
        "Armor"@ != "Curative"@,
        "Armor"@ != "Fish"@,
        "Armor"@ != "Other"@,
        "Weapon"@ != "Legs"@,
        "Weapon"@ != "Head"@,
        "Weapon"@ != "Material"@,
        "Weapon"@ != "Accessory"@,
        "Weapon"@ != "Off-hand"@,
        "Weapon"@ != "Item"@,
        "Weapon"@ != "Adornment"@,
        "Weapon"@ != "Curative"@,
        "Weapon"@ != "Fish"@,
        "Weapon"@ != "Other"@,
        "Legs"@ != "Head"@,
        "Legs"@ != "Material"@,
        "Legs"@ != "Accessory"@,
        "Legs"@ != "Off-hand"@,
        "Legs"@ != "Item"@,
        "Legs"@ != "Adornment"@,
        "Legs"@ != "Curative"@,
        "Legs"@ != "Fish"@,
        "Legs"@ != "Other"@,
        "Head"@ != "Material"@,
        "Head"@ != "Accessory"@,
        "Head"@ != "Off-hand"@,
        "Head"@ != "Item"@,
        "Head"@ != "Adornment"@,
        "Head"@ != "Curative"@,
        "Head"@ != "Fish"@,
        "Head"@ != "Other"@,
        "Material"@ != "Accessory"@,
        "Material"@ != "Off-hand"@,
        "Material"@ != "Item"@,
        "Material"@ != "Adornment"@,
        "Material"@ != "Curative"@,
        "Material"@ != "Fish"@,
        "Material"@ != "Other"@,
        "Accessory"@ != "Off-hand"@,
        "Accessory"@ != "Item"@,
        "Accessory"@ != "Adornment"@,
        "Accessory"@ != "Curative"@,
        "Accessory"@ != "Fish"@,
        "Accessory"@ != "Other"@,
        "Off-hand"@ != "Item"@,
        "Off-hand"@ != "Adornment"@,
        "Off-hand"@ != "Curative"@,
        "Off-hand"@ != "Fish"@,
        "Off-hand"@ != "Other"@,
        "Item"@ != "Adornment"@,
        "Item"@ != "Curative"@,
        "Item"@ != "Fish"@,
        "Item"@ != "Other"@,
        "Adornment"@ != "Curative"@,
        "Adornment"@ != "Fish"@,
        "Adornment"@ != "Other"@,
        "Curative"@ != "Fish"@,
        "Curative"@ != "Other"@,
        "Fish"@ != "Other"@,
{
    reveal_strlit("Armor");
    reveal_strlit("Weapon");
    reveal_strlit("Legs");
    reveal_strlit("Head");
    reveal_strlit("Material");
    reveal_strlit("Accessory");
    reveal_strlit("Off-hand");
    reveal_strlit("Item");
    reveal_strlit("Adornment");
    reveal_strlit("Curative");
    reveal_strlit("Fish");
    reveal_strlit("Other");
    assert("Armor"@.len() == 5);
    assert("Weapon"@.len() == 6);
    assert("Legs"@.len() == 4);
    assert("Head"@.len() == 4);
    assert("Material"@.len() == 8);
    assert("Accessory"@.len() == 9);
    assert("Off-hand"@.len() == 8);
    assert("Item"@.len() == 4);
    assert("Adornment"@.len() == 9);
    assert("Curative"@.len() == 8);
    assert("Fish"@.len() == 4);
    assert("Other"@.len() == 5);
    assert("Armor"@[0] != "Other"@[0]);
    assert("Legs"@[0] != "Head"@[0]);
    assert("Legs"@[0] != "Item"@[0]);
    assert("Legs"@[0] != "Fish"@[0]);
    assert("Head"@[0] != "Item"@[0]);
    assert("Head"@[0] != "Fish"@[0]);
    assert("Material"@[0] != "Off-hand"@[0]);
    assert("Material"@[0] != "Curative"@[0]);
    assert("Accessory"@[1] != "Adornment"@[1]);
    assert("Off-hand"@[0] != "Curative"@[0]);
    assert("Item"@[0] != "Fish"@[0]);
}

/// The type name a raw item gives for each variant.
pub open spec fn item_type_variant(t: Seq<char>) -> bool {
    t == "Armor"@ || t == "Weapon"@ || t == "Legs"@ || t == "Head"@ || t == "Material"@ || t == "Accessory"@ || t == "Off-hand"@ || t == "Item"@ || t == "Adornment"@ || t == "Curative"@ || t == "Fish"@ || t == "Other"@
}

impl Item {
    /// Sort a raw item into its type.
    ///
    /// # Errors
    /// Errors when the type is unknown, or the raw item does not make an item of its type.
    pub fn try_from(raw_item: RawItem) -> (r: Result<Self, Error>)
        ensures
            raw_item.type_@ == "Armor"@ ==> match armoritem_failure(raw_item) {
                Some(f) => r matches Err(e) && fails_item(e, raw_item.name@, f),
                None => r matches Ok(Item::Armor(x)) && is_armoritem_of(x, raw_item),
            },
            raw_item.type_@ == "Weapon"@ ==> match weaponitem_failure(raw_item) {
                Some(f) => r matches Err(e) && fails_item(e, raw_item.name@, f),
                None => r matches Ok(Item::Weapon(x)) && is_weaponitem_of(x, raw_item),
            },
            raw_item.type_@ == "Legs"@ ==> match legsitem_failure(raw_item) {
                Some(f) => r matches Err(e) && fails_item(e, raw_item.name@, f),
                None => r matches Ok(Item::Legs(x)) && is_legsitem_of(x, raw_item),
            },
            raw_item.type_@ == "Head"@ ==> match headitem_failure(raw_item) {
                Some(f) => r matches Err(e) && fails_item(e, raw_item.name@, f),
                None => r matches Ok(Item::Head(x)) && is_headitem_of(x, raw_item),
            },
            raw_item.type_@ == "Material"@ ==> match materialitem_failure(raw_item) {
                Some(f) => r matches Err(e) && fails_item(e, raw_item.name@, f),
                None => r matches Ok(Item::Material(x)) && is_materialitem_of(x, raw_item),
            },
            raw_item.type_@ == "Accessory"@ ==> match accessoryitem_failure(raw_item) {
                Some(f) => r matches Err(e) && fails_item(e, raw_item.name@, f),
                None => r matches Ok(Item::Accessory(x)) && is_accessoryitem_of(x, raw_item),
            },
            raw_item.type_@ == "Off-hand"@ ==> match offhanditem_failure(raw_item) {
                Some(f) => r matches Err(e) && fails_item(e, raw_item.name@, f),
                None => r matches Ok(Item::OffHand(x)) && is_offhanditem_of(x, raw_item),
            },
            raw_item.type_@ == "Item"@ ==> match itemitem_failure(raw_item) {
                Some(f) => r matches Err(e) && fails_item(e, raw_item.name@, f),
                None => r matches Ok(Item::Item(x)) && is_itemitem_of(x, raw_item),
            },
            raw_item.type_@ == "Adornment"@ ==> match adornmentitem_failure(raw_item) {
                Some(f) => r matches Err(e) && fails_item(e, raw_item.name@, f),
                None => r matches Ok(Item::Adornment(x)) && is_adornmentitem_of(x, raw_item),
            },
            raw_item.type_@ == "Curative"@ ==> match curativeitem_failure(raw_item) {
                Some(f) => r matches Err(e) && fails_item(e, raw_item.name@, f),
                None => r matches Ok(Item::Curative(x)) && is_curativeitem_of(x, raw_item),
            },
            raw_item.type_@ == "Fish"@ ==> match fishitem_failure(raw_item) {
                Some(f) => r matches Err(e) && fails_item(e, raw_item.name@, f),
                None => r matches Ok(Item::Fish(x)) && is_fishitem_of(x, raw_item),
            },
            raw_item.type_@ == "Other"@ ==> match otheritem_failure(raw_item) {
                Some(f) => r matches Err(e) && fails_item(e, raw_item.name@, f),
                None => r matches Ok(Item::Other(x)) && is_otheritem_of(x, raw_item),
            },
            !item_type_variant(raw_item.type_@) ==> (r matches Err(e) && is_invalid_field(
                e,
                "Item"@,
                "type"@,
                raw_item.type_@,
            )),
    {
        proof {
            lemma_item_types_distinct();
        }
        if str_eq(raw_item.type_.as_str(), "Armor") {
            match ArmorItem::try_from(raw_item) {
                Ok(x) => Ok(Item::Armor(x)),
                Err(e) => Err(e),
            }
        } else if str_eq(raw_item.type_.as_str(), "Weapon") {
            match WeaponItem::try_from(raw_item) {
                Ok(x) => Ok(Item::Weapon(x)),
                Err(e) => Err(e),
            }
        } else if str_eq(raw_item.type_.as_str(), "Legs") {
            match LegsItem::try_from(raw_item) {
                Ok(x) => Ok(Item::Legs(x)),
                Err(e) => Err(e),
            }
        } else if str_eq(raw_item.type_.as_str(), "Head") {
            match HeadItem::try_from(raw_item) {
                Ok(x) => Ok(Item::Head(x)),
                Err(e) => Err(e),
            }
        } else if str_eq(raw_item.type_.as_str(), "Material") {
            match MaterialItem::try_from(raw_item) {
                Ok(x) => Ok(Item::Material(x)),
                Err(e) => Err(e),
            }
        } else if str_eq(raw_item.type_.as_str(), "Accessory") {
            match AccessoryItem::try_from(raw_item) {
                Ok(x) => Ok(Item::Accessory(x)),
                Err(e) => Err(e),
            }
        } else if str_eq(raw_item.type_.as_str(), "Off-hand") {
            match OffHandItem::try_from(raw_item) {
                Ok(x) => Ok(Item::OffHand(x)),
                Err(e) => Err(e),
            }
        } else if str_eq(raw_item.type_.as_str(), "Item") {
            match ItemItem::try_from(raw_item) {
                Ok(x) => Ok(Item::Item(x)),
                Err(e) => Err(e),
            }
        } else if str_eq(raw_item.type_.as_str(), "Adornment") {
            match AdornmentItem::try_from(raw_item) {
                Ok(x) => Ok(Item::Adornment(x)),
                Err(e) => Err(e),
            }
        } else if str_eq(raw_item.type_.as_str(), "Curative") {
            match CurativeItem::try_from(raw_item) {
                Ok(x) => Ok(Item::Curative(x)),
                Err(e) => Err(e),
            }
        } else if str_eq(raw_item.type_.as_str(), "Fish") {
            match FishItem::try_from(raw_item) {
                Ok(x) => Ok(Item::Fish(x)),
                Err(e) => Err(e),
            }
        } else if str_eq(raw_item.type_.as_str(), "Other") {
            match OtherItem::try_from(raw_item) {
                Ok(x) => Ok(Item::Other(x)),
                Err(e) => Err(e),
            }
        } else {
            Err(invalid_field(to_owned("Item"), "type", raw_item.type_))
        }
    }
}

/// A raw item sorted into any kind of item keeps each field it has under the same
/// name: its name, id, description, tier, flags and image as they were, its stats,
/// materials and category unwrapped, and each list it may lack (who drops it, its
/// quests, who equips it, the statuses it prevents, causes, cures and gives) as it
/// was, or empty when absent.
pub proof fn law_sorted_item_fields(raw: RawItem, armor: ArmorItem, weapon: WeaponItem, legs: LegsItem, head: HeadItem, material: MaterialItem, accessory: AccessoryItem, off_hand: OffHandItem, plain: ItemItem, adornment: AdornmentItem, curative: CurativeItem, fish: FishItem, other: OtherItem)
    ensures
        is_armoritem_of(armor, raw) ==> {
            &&& armor.name == raw.name
            &&& armor.id == raw.id
            &&& armor.description == raw.description
            &&& armor.tier == raw.tier
            &&& armor.boss == raw.boss
            &&& armor.arena == raw.arena
            &&& armor.image == raw.image
            &&& armor.stats == raw.stats.unwrap()
            &&& armor.element == raw.element
            &&& armor.materials == raw.materials.unwrap()
            &&& armor.dropped_by@ == or_empty_seq(raw.dropped_by)
            &&& armor.quests@ == or_empty_seq(raw.quests)
            &&& armor.equipped_by@ == or_empty_seq(raw.equipped_by)
            &&& armor.prevents@ == or_empty_seq(raw.prevents)
            &&& armor.causes@ == or_empty_seq(raw.causes)
            &&& armor.cures@ == or_empty_seq(raw.cures)
            &&& armor.gives@ == or_empty_seq(raw.gives)
        },
        is_weaponitem_of(weapon, raw) ==> {
            &&& weapon.name == raw.name
            &&& weapon.id == raw.id
            &&& weapon.description == raw.description
            &&& weapon.tier == raw.tier
            &&& weapon.boss == raw.boss
            &&& weapon.arena == raw.arena
            &&& weapon.image == raw.image
            &&& weapon.view_distance == raw.view_distance
            &&& weapon.stats == raw.stats.unwrap()
            &&& weapon.element == raw.element
            &&& weapon.materials == raw.materials.unwrap()
            &&& weapon.dropped_by@ == or_empty_seq(raw.dropped_by)
            &&& weapon.quests@ == or_empty_seq(raw.quests)
            &&& weapon.equipped_by@ == or_empty_seq(raw.equipped_by)
            &&& weapon.prevents@ == or_empty_seq(raw.prevents)
            &&& weapon.causes@ == or_empty_seq(raw.causes)
            &&& weapon.cures@ == or_empty_seq(raw.cures)
            &&& weapon.gives@ == or_empty_seq(raw.gives)
            &&& weapon.category == raw.category.unwrap()
        },
        is_legsitem_of(legs, raw) ==> {
            &&& legs.name == raw.name
            &&& legs.id == raw.id
            &&& legs.description == raw.description
            &&& legs.tier == raw.tier
            &&& legs.boss == raw.boss
            &&& legs.arena == raw.arena
            &&& legs.image == raw.image
            &&& legs.stats == raw.stats.unwrap()
            &&& legs.element == raw.element
            &&& legs.materials == raw.materials.unwrap()
            &&& legs.dropped_by@ == or_empty_seq(raw.dropped_by)
            &&& legs.quests@ == or_empty_seq(raw.quests)
            &&& legs.equipped_by@ == or_empty_seq(raw.equipped_by)
            &&& legs.prevents@ == or_empty_seq(raw.prevents)
            &&& legs.causes@ == or_empty_seq(raw.causes)
            &&& legs.cures@ == or_empty_seq(raw.cures)
            &&& legs.gives@ == or_empty_seq(raw.gives)
        },
        is_headitem_of(head, raw) ==> {
            &&& head.name == raw.name
            &&& head.id == raw.id
            &&& head.description == raw.description
            &&& head.tier == raw.tier
            &&& head.boss == raw.boss
            &&& head.arena == raw.arena
            &&& head.image == raw.image
            &&& head.stats == raw.stats.unwrap()
            &&& head.element == raw.element
            &&& head.materials == raw.materials.unwrap()
            &&& head.dropped_by@ == or_empty_seq(raw.dropped_by)
            &&& head.quests@ == or_empty_seq(raw.quests)
            &&& head.equipped_by@ == or_empty_seq(raw.equipped_by)
            &&& head.prevents@ == or_empty_seq(raw.prevents)
            &&& head.causes@ == or_empty_seq(raw.causes)
            &&& head.cures@ == or_empty_seq(raw.cures)
            &&& head.gives@ == or_empty_seq(raw.gives)
        },
        is_materialitem_of(material, raw) ==> {
            &&& material.name == raw.name
            &&& material.id == raw.id
            &&& material.description == raw.description
            &&& material.tier == raw.tier
            &&& material.boss == raw.boss
            &&& material.arena == raw.arena
            &&& material.image == raw.image
            &&& material.materials@ == or_empty_seq(raw.materials)
            &&& material.dropped_by@ == or_empty_seq(raw.dropped_by)
            &&& material.equipped_by == raw.equipped_by.unwrap()
            &&& material.quests@ == or_empty_seq(raw.quests)
        },
        is_accessoryitem_of(accessory, raw) ==> {
            &&& accessory.name == raw.name
            &&& accessory.id == raw.id
            &&& accessory.description == raw.description
            &&& accessory.tier == raw.tier
            &&& accessory.boss == raw.boss
            &&& accessory.arena == raw.arena
            &&& accessory.image == raw.image
            &&& accessory.view_distance == raw.view_distance
            &&& accessory.stats == raw.stats
            &&& accessory.element == raw.element
            &&& accessory.dropped_by@ == or_empty_seq(raw.dropped_by)
            &&& accessory.quests@ == or_empty_seq(raw.quests)
            &&& accessory.equipped_by@ == or_empty_seq(raw.equipped_by)
            &&& accessory.prevents@ == or_empty_seq(raw.prevents)
            &&& accessory.causes@ == or_empty_seq(raw.causes)
            &&& accessory.cures@ == or_empty_seq(raw.cures)
            &&& accessory.gives@ == or_empty_seq(raw.gives)
        },
        is_offhanditem_of(off_hand, raw) ==> {
            &&& off_hand.name == raw.name
            &&& off_hand.id == raw.id
            &&& off_hand.description == raw.description
            &&& off_hand.tier == raw.tier
            &&& off_hand.boss == raw.boss
            &&& off_hand.arena == raw.arena
            &&& off_hand.image == raw.image
            &&& off_hand.view_distance == raw.view_distance
            &&& off_hand.stats == raw.stats
            &&& off_hand.element == raw.element
            &&& off_hand.dropped_by@ == or_empty_seq(raw.dropped_by)
            &&& off_hand.quests@ == or_empty_seq(raw.quests)
            &&& off_hand.equipped_by@ == or_empty_seq(raw.equipped_by)
            &&& off_hand.prevents@ == or_empty_seq(raw.prevents)
            &&& off_hand.causes@ == or_empty_seq(raw.causes)
            &&& off_hand.cures@ == or_empty_seq(raw.cures)
            &&& off_hand.gives@ == or_empty_seq(raw.gives)
        },
        is_itemitem_of(plain, raw) ==> {
            &&& plain.name == raw.name
            &&& plain.id == raw.id
            &&& plain.description == raw.description
            &&& plain.tier == raw.tier
            &&& plain.boss == raw.boss
            &&& plain.arena == raw.arena
            &&& plain.image == raw.image
            &&& plain.dropped_by@ == or_empty_seq(raw.dropped_by)
            &&& plain.equipped_by == raw.equipped_by.unwrap()
            &&& plain.quests@ == or_empty_seq(raw.quests)
        },
        is_adornmentitem_of(adornment, raw) ==> {
            &&& adornment.name == raw.name
            &&& adornment.id == raw.id
            &&& adornment.description == raw.description
            &&& adornment.tier == raw.tier
            &&& adornment.boss == raw.boss
            &&& adornment.arena == raw.arena
            &&& adornment.image == raw.image
            &&& adornment.view_distance == raw.view_distance
            &&& adornment.stats == raw.stats
            &&& adornment.element == raw.element
            &&& adornment.dropped_by@ == or_empty_seq(raw.dropped_by)
            &&& adornment.quests@ == or_empty_seq(raw.quests)
            &&& adornment.equipped_by@ == or_empty_seq(raw.equipped_by)
            &&& adornment.prevents@ == or_empty_seq(raw.prevents)
            &&& adornment.causes@ == or_empty_seq(raw.causes)
            &&& adornment.cures@ == or_empty_seq(raw.cures)
            &&& adornment.gives@ == or_empty_seq(raw.gives)
        },
        is_curativeitem_of(curative, raw) ==> {
            &&& curative.name == raw.name
            &&& curative.id == raw.id
            &&& curative.description == raw.description
            &&& curative.tier == raw.tier
            &&& curative.boss == raw.boss
            &&& curative.arena == raw.arena
            &&& curative.image == raw.image
            &&& curative.dropped_by@ == or_empty_seq(raw.dropped_by)
            &&& curative.equipped_by == raw.equipped_by.unwrap()
            &&& curative.quests@ == or_empty_seq(raw.quests)
        },
        is_fishitem_of(fish, raw) ==> {
            &&& fish.name == raw.name
            &&& fish.id == raw.id
            &&& fish.description == raw.description
            &&& fish.tier == raw.tier
            &&& fish.boss == raw.boss
            &&& fish.arena == raw.arena
            &&& fish.image == raw.image
            &&& fish.dropped_by@ == or_empty_seq(raw.dropped_by)
            &&& fish.quests@ == or_empty_seq(raw.quests)
        },
        is_otheritem_of(other, raw) ==> {
            &&& other.name == raw.name
            &&& other.id == raw.id
            &&& other.description == raw.description
            &&& other.tier == raw.tier
            &&& other.boss == raw.boss
            &&& other.arena == raw.arena
            &&& other.image == raw.image
            &&& other.dropped_by@ == or_empty_seq(raw.dropped_by)
            &&& other.equipped_by == raw.equipped_by.unwrap()
            &&& other.quests@ == or_empty_seq(raw.quests)
        },
{
}

} // verus!
