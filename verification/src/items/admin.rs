//! Items as the admin view of the guide holds them.
//!
//! The guide's form holds the bonuses of an item as decimal numbers; the library
//! keeps them as the text of the form, once it has checked that `str::parse::<f32>`
//! accepts it.

use vstd::prelude::*;
use vstd::seq_lib::lemma_concat_associative;

use crate::error::{
    fails_form, float_error, form_int, int_error, is_misc, lemma_form_int_dec, lemma_form_int_text, misc, Error,
    FormFailure, Kind,
};
use crate::guide::html_form_parser::{fields_view, lemma_fields_view_remove_first, ParsedForm};
use crate::lookup::{
    after_bytes_trimmed, bytes_cut_ok, cut_after_bytes, first_id, first_id_from, first_match, first_match_from,
};
use crate::monsters::admin::{flag_field, id_fields, opt_dec, push_field, push_flag, push_ids};
use crate::num::{
    parse_float, parse_i16, parse_i32, parse_i8, parse_u32, parse_u8, signed_to_string, spec_dec, spec_float_ok,
    spec_int_text, spec_parse_float, unsigned_to_string,
};
use crate::text::{concat2, str_eq, to_owned};

verus! {

/// An item fetched from the admin panel.
#[derive(Clone, Debug)]
pub struct AdminItem {
    /// The CSRF token that was given on the page where the item was fetched.
    pub csrfmiddlewaretoken: String,
    /// Id of the item on the guide.
    pub id: u32,
    /// The URI of the item on the codex.
    /// URI matches `/codex/items/{slug}/` with the trailing slash.
    pub codex_uri: String,
    /// The name of the item on the guide.
    pub name: String,
    /// The tier of the item.
    pub tier: u8,
    /// The id of the type of the item (Curative, Weapon, Head, Material, ...).
    /// Defaults to the type the guide calls "TBD".
    pub type_: u32,
    /// Path to the image of the item.
    pub image_name: String,
    /// In-game description of the item.
    pub description: String,
    /// Handwritten notes from the guide team on the item.
    pub notes: String,
    /// How much HP the item gives, if equippable.
    pub hp: i16,
    /// Whether HP scales with the quality of the item.
    pub hp_affected_by_quality: bool,
    /// How much mana the item gives, if equippable.
    pub mana: i16,
    /// Whether mana scales with the quality of the item.
    pub mana_affected_by_quality: bool,
    /// How much attack the item gives, if equippable.
    pub attack: i16,
    /// Whether attack scales with the quality of the item.
    pub attack_affected_by_quality: bool,
    /// How much magic the item gives, if equippable.
    pub magic: i16,
    /// Whether magic scales with the quality of the item.
    pub magic_affected_by_quality: bool,
    /// How much defense the item gives, if equippable.
    pub defense: i16,
    /// Whether defense scales with the quality of the item.
    pub defense_affected_by_quality: bool,
    /// How much resistance the item gives, if equippable.
    pub resistance: i16,
    /// Whether resistance scales with the quality of the item.
    pub resistance_affected_by_quality: bool,
    /// How much dexterity the item gives, if equippable.
    pub dexterity: i16,
    /// Whether dexterity scales with the quality of the item.
    pub dexterity_affected_by_quality: bool,
    /// How much ward the item gives, if equippable (%).
    pub ward: i8,
    /// Whether ward scales with the quality of the item.
    pub ward_affected_by_quality: bool,
    /// How much crit the item gives, if equippable.
    pub crit: u8,
    /// Whether crit scales with the quality of the item.
    pub crit_affected_by_quality: bool,
    /// How much foresight the item gives, if equippable.
    pub foresight: i16,
    /// How much view distance the item gives (%).
    pub view_distance: u32,
    /// How much the item increases the stats of your follower (%).
    pub follower_stats: u32,
    /// How much the item increases the action rate of your follower (%).
    pub follower_act: i32,
    /// How much the item increases your status infliction rate (%).
    pub status_infliction: u32,
    /// How much the item increases your status protection rate (%).
    pub status_protection: u32,
    /// How much mana you save with this item, if equippable (%).
    pub mana_saver: i8,
    /// How much more effective potions are, if equippable (%).
    pub potion_effectiveness: u8,
    /// Whether the item has adornment slots, if equippable.
    pub has_slots: bool,
    /// The number of adornment slots of the item at common quality level 10.
    /// Bonus slots are added (assuming level 10+, relative to the base adorn slots):
    ///   * 1 at legendary quality
    ///   * 2 at ornate quality
    ///   * 3 when Masterforged
    ///   * 4 when Godforged
    /// Meaning the maximum adorns that an item can have is this + 4.
    pub base_adornment_slots: u8,
    /// Rarity of the item (based on the background of the item at common quality).
    /// Rarity can be either:
    ///   - `NO`: None
    ///   - `CO`: Common
    ///   - `SP`: Superior (green)
    ///   - `FM`: Famed (blue)
    ///   - `LG`: Legendary (purple)
    pub rarity: String,
    /// Id of the element of the item, if equippable.
    pub element: Option<u32>,
    /// Ids of class categories who can equip the item, if equippable.
    pub equipped_by: Vec<u32>,
    /// Whether the item is two handed, if a weapon.
    pub two_handed: bool,
    /// How much more Orns you gain with this item (%), as the decimal text of the guide's form.
    pub orn_bonus: String,
    /// How much more Gold you gain with this item (%), as the decimal text of the guide's form.
    pub gold_bonus: String,
    /// How much more luck you have with this item (%), as the decimal text of the guide's form.
    pub drop_bonus: String,
    /// How much more spawns there are with this item (%), as the decimal text of the guide's form.
    pub spawn_bonus: String,
    /// How much more experience you gain with this item (%), as the decimal text of the guide's form.
    pub exp_bonus: String,
    /// Whether this item is a boss item (affects scaling and assessing).
    pub boss: bool,
    /// Whether this item is in the arena pool.
    pub arena: bool,
    /// Id of the category of the item, if a weapon (Staffs, Daggers, Polearms, ...).
    pub category: Option<u32>,
    /// Ids of statuses the item can inflict, if equippable.
    pub causes: Vec<u32>,
    /// Ids of statuses the item cures.
    pub cures: Vec<u32>,
    /// Ids of statuses the item gives.
    pub gives: Vec<u32>,
    /// Ids of statuses the item grants immunity to, if equippable.
    pub prevents: Vec<u32>,
    /// Ids of materials the item needs to be upgraded, if upgradable.
    pub materials: Vec<u32>,
    /// Price of the item, if it can be bought from shops.
    pub price: u32,
    /// Off-hand ability, if a weapon.
    pub ability: Option<u32>,
}

/// What describes an item: its uri, name, tier, type, image, description and notes.
pub struct ItemHead {
    pub codex_uri: Seq<char>,
    pub name: Seq<char>,
    pub tier: u8,
    pub type_: u32,
    pub image_name: Seq<char>,
    pub description: Seq<char>,
    pub notes: Seq<char>,
}

/// The HP, mana, attack and magic an item gives, and whether each scales with its
/// quality.
pub struct ItemStats {
    pub hp: i16,
    pub hp_affected_by_quality: bool,
    pub mana: i16,
    pub mana_affected_by_quality: bool,
    pub attack: i16,
    pub attack_affected_by_quality: bool,
    pub magic: i16,
    pub magic_affected_by_quality: bool,
}

/// The defense, resistance, dexterity, ward and crit an item gives, and whether each
/// scales with its quality.
pub struct ItemMoreStats {
    pub defense: i16,
    pub defense_affected_by_quality: bool,
    pub resistance: i16,
    pub resistance_affected_by_quality: bool,
    pub dexterity: i16,
    pub dexterity_affected_by_quality: bool,
    pub ward: i8,
    pub ward_affected_by_quality: bool,
    pub crit: u8,
    pub crit_affected_by_quality: bool,
}

/// The other bonuses of an item, its adornment slots and its rarity.
pub struct ItemBonuses {
    pub foresight: i16,
    pub view_distance: u32,
    pub follower_stats: u32,
    pub follower_act: i32,
    pub status_infliction: u32,
    pub status_protection: u32,
    pub mana_saver: i8,
    pub potion_effectiveness: u8,
    pub has_slots: bool,
    pub base_adornment_slots: u8,
    pub rarity: Seq<char>,
}

/// The links of an item to other guide entities, its gain bonuses, flags and price.
pub struct ItemRelations {
    pub element: Option<u32>,
    pub equipped_by: Seq<u32>,
    pub two_handed: bool,
    pub orn_bonus: Seq<char>,
    pub gold_bonus: Seq<char>,
    pub drop_bonus: Seq<char>,
    pub spawn_bonus: Seq<char>,
    pub exp_bonus: Seq<char>,
    pub boss: bool,
    pub arena: bool,
    pub category: Option<u32>,
    pub causes: Seq<u32>,
    pub cures: Seq<u32>,
    pub gives: Seq<u32>,
    pub prevents: Seq<u32>,
    pub materials: Seq<u32>,
    pub price: u32,
    pub ability: Option<u32>,
}

/// What an [`AdminItem`] holds, its fields in the parts its form lists them in.
pub struct AdminItemView {
    pub csrfmiddlewaretoken: Seq<char>,
    pub id: u32,
    pub head: ItemHead,
    pub stats: ItemStats,
    pub more_stats: ItemMoreStats,
    pub bonuses: ItemBonuses,
    pub relations: ItemRelations,
}

impl View for AdminItem {
    type V = AdminItemView;

    open spec fn view(&self) -> AdminItemView {
        AdminItemView {
            csrfmiddlewaretoken: self.csrfmiddlewaretoken@,
            id: self.id,
            head: ItemHead {
                codex_uri: self.codex_uri@,
                name: self.name@,
                tier: self.tier,
                type_: self.type_,
                image_name: self.image_name@,
                description: self.description@,
                notes: self.notes@,
            },
            stats: ItemStats {
                hp: self.hp,
                hp_affected_by_quality: self.hp_affected_by_quality,
                mana: self.mana,
                mana_affected_by_quality: self.mana_affected_by_quality,
                attack: self.attack,
                attack_affected_by_quality: self.attack_affected_by_quality,
                magic: self.magic,
                magic_affected_by_quality: self.magic_affected_by_quality,
            },
            more_stats: ItemMoreStats {
                defense: self.defense,
                defense_affected_by_quality: self.defense_affected_by_quality,
                resistance: self.resistance,
                resistance_affected_by_quality: self.resistance_affected_by_quality,
                dexterity: self.dexterity,
                dexterity_affected_by_quality: self.dexterity_affected_by_quality,
                ward: self.ward,
                ward_affected_by_quality: self.ward_affected_by_quality,
                crit: self.crit,
                crit_affected_by_quality: self.crit_affected_by_quality,
            },
            bonuses: ItemBonuses {
                foresight: self.foresight,
                view_distance: self.view_distance,
                follower_stats: self.follower_stats,
                follower_act: self.follower_act,
                status_infliction: self.status_infliction,
                status_protection: self.status_protection,
                mana_saver: self.mana_saver,
                potion_effectiveness: self.potion_effectiveness,
                has_slots: self.has_slots,
                base_adornment_slots: self.base_adornment_slots,
                rarity: self.rarity@,
            },
            relations: ItemRelations {
                element: self.element,
                equipped_by: self.equipped_by@,
                two_handed: self.two_handed,
                orn_bonus: self.orn_bonus@,
                gold_bonus: self.gold_bonus@,
                drop_bonus: self.drop_bonus@,
                spawn_bonus: self.spawn_bonus@,
                exp_bonus: self.exp_bonus@,
                boss: self.boss,
                arena: self.arena,
                category: self.category,
                causes: self.causes@,
                cures: self.cures@,
                gives: self.gives@,
                prevents: self.prevents@,
                materials: self.materials@,
                price: self.price,
                ability: self.ability,
            },
        }
    }
}

/// An item with the guide's defaults (type "TBD", rarity `NO`, the attack, magic,
/// defense, resistance and ward scaling with quality, bonuses of `0`) and everything
/// else empty, zero or `false`, but its csrf token.
pub open spec fn empty_item(csrf: Seq<char>) -> AdminItemView {
    AdminItemView {
        csrfmiddlewaretoken: csrf,
        id: 0,
        head: ItemHead {
            codex_uri: Seq::empty(),
            name: Seq::empty(),
            tier: 0,
            type_: 13,
            image_name: Seq::empty(),
            description: Seq::empty(),
            notes: Seq::empty(),
        },
        stats: ItemStats {
            hp: 0,
            hp_affected_by_quality: false,
            mana: 0,
            mana_affected_by_quality: false,
            attack: 0,
            attack_affected_by_quality: true,
            magic: 0,
            magic_affected_by_quality: true,
        },
        more_stats: ItemMoreStats {
            defense: 0,
            defense_affected_by_quality: true,
            resistance: 0,
            resistance_affected_by_quality: true,
            dexterity: 0,
            dexterity_affected_by_quality: false,
            ward: 0,
            ward_affected_by_quality: true,
            crit: 0,
            crit_affected_by_quality: false,
        },
        bonuses: ItemBonuses {
            foresight: 0,
            view_distance: 0,
            follower_stats: 0,
            follower_act: 0,
            status_infliction: 0,
            status_protection: 0,
            mana_saver: 0,
            potion_effectiveness: 0,
            has_slots: false,
            base_adornment_slots: 0,
            rarity: "NO"@,
        },
        relations: ItemRelations {
            element: None,
            equipped_by: Seq::empty(),
            two_handed: false,
            orn_bonus: "0"@,
            gold_bonus: "0"@,
            drop_bonus: "0"@,
            spawn_bonus: "0"@,
            exp_bonus: "0"@,
            boss: false,
            arena: false,
            category: None,
            causes: Seq::empty(),
            cures: Seq::empty(),
            gives: Seq::empty(),
            prevents: Seq::empty(),
            materials: Seq::empty(),
            price: 0,
            ability: None,
        },
    }
}

impl Default for AdminItem {
    fn default() -> (r: Self)
        ensures
            r@ == empty_item(Seq::empty()),
    {
        AdminItem {
            csrfmiddlewaretoken: String::new(),
            id: 0,
            codex_uri: String::new(),
            name: String::new(),
            tier: 0,
            type_: 13,
            image_name: String::new(),
            description: String::new(),
            notes: String::new(),
            hp: 0,
            hp_affected_by_quality: false,
            mana: 0,
            mana_affected_by_quality: false,
            attack: 0,
            attack_affected_by_quality: true,
            magic: 0,
            magic_affected_by_quality: true,
            defense: 0,
            defense_affected_by_quality: true,
            resistance: 0,
            resistance_affected_by_quality: true,
            dexterity: 0,
            dexterity_affected_by_quality: false,
            ward: 0,
            ward_affected_by_quality: true,
            crit: 0,
            crit_affected_by_quality: false,
            foresight: 0,
            view_distance: 0,
            follower_stats: 0,
            follower_act: 0,
            status_infliction: 0,
            status_protection: 0,
            mana_saver: 0,
            potion_effectiveness: 0,
            has_slots: false,
            base_adornment_slots: 0,
            rarity: to_owned("NO"),
            element: None,
            equipped_by: Vec::new(),
            two_handed: false,
            orn_bonus: to_owned("0"),
            gold_bonus: to_owned("0"),
            drop_bonus: to_owned("0"),
            spawn_bonus: to_owned("0"),
            exp_bonus: to_owned("0"),
            boss: false,
            arena: false,
            category: None,
            causes: Vec::new(),
            cures: Vec::new(),
            gives: Vec::new(),
            prevents: Vec::new(),
            materials: Vec::new(),
            price: 0,
            ability: None,
        }
    }
}

/// The item after reading one field of the admin form.
pub open spec fn item_field(v: AdminItemView, key: Seq<char>, value: Seq<char>) -> Result<AdminItemView, FormFailure> {
    if key == "codex"@ {
        Ok(AdminItemView { head: ItemHead { codex_uri: value, ..v.head }, ..v })
    } else if key == "name"@ {
        Ok(AdminItemView { head: ItemHead { name: value, ..v.head }, ..v })
    } else if key == "tier"@ {
        match form_int(value, 0, 255) {
            Ok(x) => Ok(AdminItemView { head: ItemHead { tier: x as u8, ..v.head }, ..v }),
            Err(e) => Err(e),
        }
    } else if key == "type"@ {
        match form_int(value, 0, 0xffff_ffff) {
            Ok(x) => Ok(AdminItemView { head: ItemHead { type_: x as u32, ..v.head }, ..v }),
            Err(e) => Err(e),
        }
    } else if key == "image_name"@ {
        Ok(AdminItemView { head: ItemHead { image_name: value, ..v.head }, ..v })
    } else if key == "description"@ {
        Ok(AdminItemView { head: ItemHead { description: value, ..v.head }, ..v })
    } else if key == "notes"@ {
        Ok(AdminItemView { head: ItemHead { notes: value, ..v.head }, ..v })
    } else {
        item_stat_field(v, key, value)
    }
}

/// The item after reading one field of the admin form among its HP, mana, attack
/// and magic and their scaling, or a field past those.
#[verifier::opaque]
pub open spec fn item_stat_field(v: AdminItemView, key: Seq<char>, value: Seq<char>) -> Result<AdminItemView, FormFailure> {
    if key == "hp"@ {
        match form_int(value, -32768, 32767) {
            Ok(x) => Ok(AdminItemView { stats: ItemStats { hp: x as i16, ..v.stats }, ..v }),
            Err(e) => Err(e),
        }
    } else if key == "hp_affected_by_quality"@ {
        Ok(AdminItemView { stats: ItemStats { hp_affected_by_quality: value == "on"@, ..v.stats }, ..v })
    } else if key == "mana"@ {
        match form_int(value, -32768, 32767) {
            Ok(x) => Ok(AdminItemView { stats: ItemStats { mana: x as i16, ..v.stats }, ..v }),
            Err(e) => Err(e),
        }
    } else if key == "mana_affected_by_quality"@ {
        Ok(AdminItemView { stats: ItemStats { mana_affected_by_quality: value == "on"@, ..v.stats }, ..v })
    } else if key == "attack"@ {
        match form_int(value, -32768, 32767) {
            Ok(x) => Ok(AdminItemView { stats: ItemStats { attack: x as i16, ..v.stats }, ..v }),
            Err(e) => Err(e),
        }
    } else if key == "attack_affected_by_quality"@ {
        Ok(AdminItemView { stats: ItemStats { attack_affected_by_quality: value == "on"@, ..v.stats }, ..v })
    } else if key == "magic"@ {
        match form_int(value, -32768, 32767) {
            Ok(x) => Ok(AdminItemView { stats: ItemStats { magic: x as i16, ..v.stats }, ..v }),
            Err(e) => Err(e),
        }
    } else if key == "magic_affected_by_quality"@ {
        Ok(AdminItemView { stats: ItemStats { magic_affected_by_quality: value == "on"@, ..v.stats }, ..v })
    } else {
        item_more_stat_field(v, key, value)
    }
}

/// The item after reading one field of the admin form among its defense, resistance,
/// dexterity, ward and crit and their scaling, or a field past those.
#[verifier::opaque]
pub open spec fn item_more_stat_field(v: AdminItemView, key: Seq<char>, value: Seq<char>) -> Result<AdminItemView, FormFailure> {
    if key == "defense"@ {
        match form_int(value, -32768, 32767) {
            Ok(x) => Ok(AdminItemView { more_stats: ItemMoreStats { defense: x as i16, ..v.more_stats }, ..v }),
            Err(e) => Err(e),
        }
    } else if key == "defense_affected_by_quality"@ {
        Ok(AdminItemView { more_stats: ItemMoreStats { defense_affected_by_quality: value == "on"@, ..v.more_stats }, ..v })
    } else if key == "resistance"@ {
        match form_int(value, -32768, 32767) {
            Ok(x) => Ok(AdminItemView { more_stats: ItemMoreStats { resistance: x as i16, ..v.more_stats }, ..v }),
            Err(e) => Err(e),
        }
    } else if key == "resistance_affected_by_quality"@ {
        Ok(AdminItemView { more_stats: ItemMoreStats { resistance_affected_by_quality: value == "on"@, ..v.more_stats }, ..v })
    } else if key == "dexterity"@ {
        match form_int(value, -32768, 32767) {
            Ok(x) => Ok(AdminItemView { more_stats: ItemMoreStats { dexterity: x as i16, ..v.more_stats }, ..v }),
            Err(e) => Err(e),
        }
    } else if key == "dexterity_affected_by_quality"@ {
        Ok(AdminItemView { more_stats: ItemMoreStats { dexterity_affected_by_quality: value == "on"@, ..v.more_stats }, ..v })
    } else if key == "ward"@ {
        match form_int(value, -128, 127) {
            Ok(x) => Ok(AdminItemView { more_stats: ItemMoreStats { ward: x as i8, ..v.more_stats }, ..v }),
            Err(e) => Err(e),
        }
    } else if key == "ward_affected_by_quality"@ {
        Ok(AdminItemView { more_stats: ItemMoreStats { ward_affected_by_quality: value == "on"@, ..v.more_stats }, ..v })
    } else if key == "crit"@ {
        match form_int(value, 0, 255) {
            Ok(x) => Ok(AdminItemView { more_stats: ItemMoreStats { crit: x as u8, ..v.more_stats }, ..v }),
            Err(e) => Err(e),
        }
    } else if key == "crit_affected_by_quality"@ {
        Ok(AdminItemView { more_stats: ItemMoreStats { crit_affected_by_quality: value == "on"@, ..v.more_stats }, ..v })
    } else {
        item_bonus_field(v, key, value)
    }
}

/// The item after reading one field of the admin form among its other bonuses, its
/// slots and its rarity, or a field past those.
#[verifier::opaque]
pub open spec fn item_bonus_field(v: AdminItemView, key: Seq<char>, value: Seq<char>) -> Result<AdminItemView, FormFailure> {
    if key == "foresight"@ {
        match form_int(value, -32768, 32767) {
            Ok(x) => Ok(AdminItemView { bonuses: ItemBonuses { foresight: x as i16, ..v.bonuses }, ..v }),
            Err(e) => Err(e),
        }
    } else if key == "view_distance"@ {
        match form_int(value, 0, 0xffff_ffff) {
            Ok(x) => Ok(AdminItemView { bonuses: ItemBonuses { view_distance: x as u32, ..v.bonuses }, ..v }),
            Err(e) => Err(e),
        }
    } else if key == "follower_stats"@ {
        match form_int(value, 0, 0xffff_ffff) {
            Ok(x) => Ok(AdminItemView { bonuses: ItemBonuses { follower_stats: x as u32, ..v.bonuses }, ..v }),
            Err(e) => Err(e),
        }
    } else if key == "follower_act"@ {
        match form_int(value, -0x8000_0000, 0x7fff_ffff) {
            Ok(x) => Ok(AdminItemView { bonuses: ItemBonuses { follower_act: x as i32, ..v.bonuses }, ..v }),
            Err(e) => Err(e),
        }
    } else if key == "status_infliction"@ {
        match form_int(value, 0, 0xffff_ffff) {
            Ok(x) => Ok(AdminItemView { bonuses: ItemBonuses { status_infliction: x as u32, ..v.bonuses }, ..v }),
            Err(e) => Err(e),
        }
    } else if key == "status_protection"@ {
        match form_int(value, 0, 0xffff_ffff) {
            Ok(x) => Ok(AdminItemView { bonuses: ItemBonuses { status_protection: x as u32, ..v.bonuses }, ..v }),
            Err(e) => Err(e),
        }
    } else if key == "mana_saver"@ {
        match form_int(value, -128, 127) {
            Ok(x) => Ok(AdminItemView { bonuses: ItemBonuses { mana_saver: x as i8, ..v.bonuses }, ..v }),
            Err(e) => Err(e),
        }
    } else if key == "potion_effectiveness"@ {
        match form_int(value, 0, 255) {
            Ok(x) => Ok(AdminItemView { bonuses: ItemBonuses { potion_effectiveness: x as u8, ..v.bonuses }, ..v }),
            Err(e) => Err(e),
        }
    } else if key == "has_slots"@ {
        Ok(AdminItemView { bonuses: ItemBonuses { has_slots: value == "on"@, ..v.bonuses }, ..v })
    } else if key == "base_adornment_slots"@ {
        match form_int(value, 0, 255) {
            Ok(x) => Ok(AdminItemView { bonuses: ItemBonuses { base_adornment_slots: x as u8, ..v.bonuses }, ..v }),
            Err(e) => Err(e),
        }
    } else if key == "rarity"@ {
        Ok(AdminItemView { bonuses: ItemBonuses { rarity: value, ..v.bonuses }, ..v })
    } else {
        item_relation_field(v, key, value)
    }
}

/// The item after reading one field of the admin form among its links to other guide
/// entities and its last flags, or the error a field of another name gives.
#[verifier::opaque]
pub open spec fn item_relation_field(v: AdminItemView, key: Seq<char>, value: Seq<char>) -> Result<AdminItemView, FormFailure> {
    if key == "element"@ {
        if value.len() == 0 {
            Ok(AdminItemView { relations: ItemRelations { element: None, ..v.relations }, ..v })
        } else {
            match form_int(value, 0, 0xffff_ffff) {
                Ok(x) => Ok(AdminItemView { relations: ItemRelations { element: Some(x as u32), ..v.relations }, ..v }),
                Err(e) => Err(e),
            }
        }
    } else if key == "equipped_by"@ {
        match form_int(value, 0, 0xffff_ffff) {
            Ok(x) => Ok(AdminItemView { relations: ItemRelations { equipped_by: v.relations.equipped_by.push(x as u32), ..v.relations }, ..v }),
            Err(e) => Err(e),
        }
    } else if key == "two_handed"@ {
        Ok(AdminItemView { relations: ItemRelations { two_handed: value == "on"@, ..v.relations }, ..v })
    } else if key == "orn_bonus"@ {
        match spec_parse_float(value) {
            Ok(_) => Ok(AdminItemView { relations: ItemRelations { orn_bonus: value, ..v.relations }, ..v }),
            Err(e) => Err(FormFailure::Float(e)),
        }
    } else if key == "gold_bonus"@ {
        match spec_parse_float(value) {
            Ok(_) => Ok(AdminItemView { relations: ItemRelations { gold_bonus: value, ..v.relations }, ..v }),
            Err(e) => Err(FormFailure::Float(e)),
        }
    } else if key == "drop_bonus"@ {
        match spec_parse_float(value) {
            Ok(_) => Ok(AdminItemView { relations: ItemRelations { drop_bonus: value, ..v.relations }, ..v }),
            Err(e) => Err(FormFailure::Float(e)),
        }
    } else if key == "spawn_bonus"@ {
        match spec_parse_float(value) {
            Ok(_) => Ok(AdminItemView { relations: ItemRelations { spawn_bonus: value, ..v.relations }, ..v }),
            Err(e) => Err(FormFailure::Float(e)),
        }
    } else if key == "exp_bonus"@ {
        match spec_parse_float(value) {
            Ok(_) => Ok(AdminItemView { relations: ItemRelations { exp_bonus: value, ..v.relations }, ..v }),
            Err(e) => Err(FormFailure::Float(e)),
        }
    } else if key == "boss"@ {
        Ok(AdminItemView { relations: ItemRelations { boss: value == "on"@, ..v.relations }, ..v })
    } else if key == "arena"@ {
        Ok(AdminItemView { relations: ItemRelations { arena: value == "on"@, ..v.relations }, ..v })
    } else if key == "category"@ {
        if value.len() == 0 {
            Ok(AdminItemView { relations: ItemRelations { category: None, ..v.relations }, ..v })
        } else {
            match form_int(value, 0, 0xffff_ffff) {
                Ok(x) => Ok(AdminItemView { relations: ItemRelations { category: Some(x as u32), ..v.relations }, ..v }),
                Err(e) => Err(e),
            }
        }
    } else if key == "causes"@ {
        match form_int(value, 0, 0xffff_ffff) {
            Ok(x) => Ok(AdminItemView { relations: ItemRelations { causes: v.relations.causes.push(x as u32), ..v.relations }, ..v }),
            Err(e) => Err(e),
        }
    } else if key == "cures"@ {
        match form_int(value, 0, 0xffff_ffff) {
            Ok(x) => Ok(AdminItemView { relations: ItemRelations { cures: v.relations.cures.push(x as u32), ..v.relations }, ..v }),
            Err(e) => Err(e),
        }
    } else if key == "gives"@ {
        match form_int(value, 0, 0xffff_ffff) {
            Ok(x) => Ok(AdminItemView { relations: ItemRelations { gives: v.relations.gives.push(x as u32), ..v.relations }, ..v }),
            Err(e) => Err(e),
        }
    } else if key == "prevents"@ {
        match form_int(value, 0, 0xffff_ffff) {
            Ok(x) => Ok(AdminItemView { relations: ItemRelations { prevents: v.relations.prevents.push(x as u32), ..v.relations }, ..v }),
            Err(e) => Err(e),
        }
    } else if key == "materials"@ {
        match form_int(value, 0, 0xffff_ffff) {
            Ok(x) => Ok(AdminItemView { relations: ItemRelations { materials: v.relations.materials.push(x as u32), ..v.relations }, ..v }),
            Err(e) => Err(e),
        }
    } else if key == "price"@ {
        match form_int(value, 0, 0xffff_ffff) {
            Ok(x) => Ok(AdminItemView { relations: ItemRelations { price: x as u32, ..v.relations }, ..v }),
            Err(e) => Err(e),
        }
    } else if key == "ability"@ {
        if value.len() == 0 {
            Ok(AdminItemView { relations: ItemRelations { ability: None, ..v.relations }, ..v })
        } else {
            match form_int(value, 0, 0xffff_ffff) {
                Ok(x) => Ok(AdminItemView { relations: ItemRelations { ability: Some(x as u32), ..v.relations }, ..v }),
                Err(e) => Err(e),
            }
        }
    } else {
        Err(FormFailure::Extra(key, value))
    }
}

/// The item after reading the fields of the admin form from index `i` on.
#[verifier::opaque]
pub open spec fn item_form(v: AdminItemView, fields: Seq<(Seq<char>, Seq<char>)>, i: int) -> Result<AdminItemView, FormFailure>
    decreases fields.len() - i,
{
    if i < 0 || i >= fields.len() {
        Ok(v)
    } else {
        match item_field(v, fields[i].0, fields[i].1) {
            Ok(w) => item_form(w, fields, i + 1),
            Err(e) => Err(e),
        }
    }
}

/// The fields of the admin form that describe an item: uri, name, tier, type, image,
/// description and notes.
#[verifier::opaque]
pub open spec fn item_form_head(v: AdminItemView) -> Seq<(Seq<char>, Seq<char>)> {
    seq![("codex"@, v.head.codex_uri)]
        + seq![("name"@, v.head.name)]
        + seq![("tier"@, spec_dec(v.head.tier as nat))]
        + seq![("type"@, spec_dec(v.head.type_ as nat))]
        + seq![("image_name"@, v.head.image_name)]
        + seq![("description"@, v.head.description)]
        + seq![("notes"@, v.head.notes)]
}

/// The fields of the admin form that hold the HP, mana, attack and magic of an item
/// and their scaling.
#[verifier::opaque]
pub open spec fn item_form_stats(v: AdminItemView) -> Seq<(Seq<char>, Seq<char>)> {
    seq![("hp"@, spec_int_text(v.stats.hp as int))]
        + flag_field("hp_affected_by_quality"@, v.stats.hp_affected_by_quality)
        + seq![("mana"@, spec_int_text(v.stats.mana as int))]
        + flag_field("mana_affected_by_quality"@, v.stats.mana_affected_by_quality)
        + seq![("attack"@, spec_int_text(v.stats.attack as int))]
        + flag_field("attack_affected_by_quality"@, v.stats.attack_affected_by_quality)
        + seq![("magic"@, spec_int_text(v.stats.magic as int))]
        + flag_field("magic_affected_by_quality"@, v.stats.magic_affected_by_quality)
}

/// The fields of the admin form that hold the defense, resistance, dexterity, ward and
/// crit of an item and their scaling.
#[verifier::opaque]
pub open spec fn item_form_more_stats(v: AdminItemView) -> Seq<(Seq<char>, Seq<char>)> {
    seq![("defense"@, spec_int_text(v.more_stats.defense as int))]
        + flag_field("defense_affected_by_quality"@, v.more_stats.defense_affected_by_quality)
        + seq![("resistance"@, spec_int_text(v.more_stats.resistance as int))]
        + flag_field("resistance_affected_by_quality"@, v.more_stats.resistance_affected_by_quality)
        + seq![("dexterity"@, spec_int_text(v.more_stats.dexterity as int))]
        + flag_field("dexterity_affected_by_quality"@, v.more_stats.dexterity_affected_by_quality)
        + seq![("ward"@, spec_int_text(v.more_stats.ward as int))]
        + flag_field("ward_affected_by_quality"@, v.more_stats.ward_affected_by_quality)
        + seq![("crit"@, spec_dec(v.more_stats.crit as nat))]
        + flag_field("crit_affected_by_quality"@, v.more_stats.crit_affected_by_quality)
}

/// The fields of the admin form that hold the other bonuses of an item, its slots and
/// its rarity.
#[verifier::opaque]
pub open spec fn item_form_bonuses(v: AdminItemView) -> Seq<(Seq<char>, Seq<char>)> {
    seq![("foresight"@, spec_int_text(v.bonuses.foresight as int))]
        + seq![("view_distance"@, spec_dec(v.bonuses.view_distance as nat))]
        + seq![("follower_stats"@, spec_dec(v.bonuses.follower_stats as nat))]
        + seq![("follower_act"@, spec_int_text(v.bonuses.follower_act as int))]
        + seq![("status_infliction"@, spec_dec(v.bonuses.status_infliction as nat))]
        + seq![("status_protection"@, spec_dec(v.bonuses.status_protection as nat))]
        + seq![("mana_saver"@, spec_int_text(v.bonuses.mana_saver as int))]
        + seq![("potion_effectiveness"@, spec_dec(v.bonuses.potion_effectiveness as nat))]
        + flag_field("has_slots"@, v.bonuses.has_slots)
        + seq![("base_adornment_slots"@, spec_dec(v.bonuses.base_adornment_slots as nat))]
        + seq![("rarity"@, v.bonuses.rarity)]
}

/// The fields of the admin form that link an item to other guide entities (element,
/// classes, statuses, materials, ability), with its gain bonuses, flags and price.
#[verifier::opaque]
pub open spec fn item_form_relations(v: AdminItemView) -> Seq<(Seq<char>, Seq<char>)> {
    seq![("element"@, opt_dec(v.relations.element))]
        + id_fields("equipped_by"@, v.relations.equipped_by)
        + flag_field("two_handed"@, v.relations.two_handed)
        + seq![("orn_bonus"@, v.relations.orn_bonus)]
        + seq![("gold_bonus"@, v.relations.gold_bonus)]
        + seq![("drop_bonus"@, v.relations.drop_bonus)]
        + seq![("spawn_bonus"@, v.relations.spawn_bonus)]
        + seq![("exp_bonus"@, v.relations.exp_bonus)]
        + flag_field("boss"@, v.relations.boss)
        + flag_field("arena"@, v.relations.arena)
        + seq![("category"@, opt_dec(v.relations.category))]
        + id_fields("causes"@, v.relations.causes)
        + id_fields("cures"@, v.relations.cures)
        + id_fields("gives"@, v.relations.gives)
        + id_fields("prevents"@, v.relations.prevents)
        + id_fields("materials"@, v.relations.materials)
        + seq![("price"@, spec_dec(v.relations.price as nat))]
        + seq![("ability"@, opt_dec(v.relations.ability))]
}

/// The fields of the admin form of an item, in the order the guide expects them.
pub open spec fn item_form_fields(v: AdminItemView) -> Seq<(Seq<char>, Seq<char>)> {
    item_form_head(v) + item_form_stats(v) + item_form_more_stats(v) + item_form_bonuses(v) + item_form_relations(v)
}

impl AdminItem {
    /// Sets `codex_uri`.
    fn set_codex_uri(&mut self, value: String)
        ensures
            final(self)@ == (AdminItemView { head: ItemHead { codex_uri: value@, ..old(self)@.head }, ..old(self)@ }),
    {
        self.codex_uri = value;
    }

    /// Sets `name`.
    fn set_name(&mut self, value: String)
        ensures
            final(self)@ == (AdminItemView { head: ItemHead { name: value@, ..old(self)@.head }, ..old(self)@ }),
    {
        self.name = value;
    }

    /// Sets `tier`.
    fn set_tier(&mut self, value: u8)
        ensures
            final(self)@ == (AdminItemView { head: ItemHead { tier: value, ..old(self)@.head }, ..old(self)@ }),
    {
        self.tier = value;
    }

    /// Sets `type_`.
    fn set_type_(&mut self, value: u32)
        ensures
            final(self)@ == (AdminItemView { head: ItemHead { type_: value, ..old(self)@.head }, ..old(self)@ }),
    {
        self.type_ = value;
    }

    /// Sets `image_name`.
    fn set_image_name(&mut self, value: String)
        ensures
            final(self)@ == (AdminItemView { head: ItemHead { image_name: value@, ..old(self)@.head }, ..old(self)@ }),
    {
        self.image_name = value;
    }

    /// Sets `description`.
    fn set_description(&mut self, value: String)
        ensures
            final(self)@ == (AdminItemView { head: ItemHead { description: value@, ..old(self)@.head }, ..old(self)@ }),
    {
        self.description = value;
    }

    /// Sets `notes`.
    fn set_notes(&mut self, value: String)
        ensures
            final(self)@ == (AdminItemView { head: ItemHead { notes: value@, ..old(self)@.head }, ..old(self)@ }),
    {
        self.notes = value;
    }

    /// Sets `hp`.
    fn set_hp(&mut self, value: i16)
        ensures
            final(self)@ == (AdminItemView { stats: ItemStats { hp: value, ..old(self)@.stats }, ..old(self)@ }),
    {
        self.hp = value;
    }

    /// Sets `hp_affected_by_quality`.
    fn set_hp_affected_by_quality(&mut self, value: bool)
        ensures
            final(self)@ == (AdminItemView { stats: ItemStats { hp_affected_by_quality: value, ..old(self)@.stats }, ..old(self)@ }),
    {
        self.hp_affected_by_quality = value;
    }

    /// Sets `mana`.
    fn set_mana(&mut self, value: i16)
        ensures
            final(self)@ == (AdminItemView { stats: ItemStats { mana: value, ..old(self)@.stats }, ..old(self)@ }),
    {
        self.mana = value;
    }

    /// Sets `mana_affected_by_quality`.
    fn set_mana_affected_by_quality(&mut self, value: bool)
        ensures
            final(self)@ == (AdminItemView { stats: ItemStats { mana_affected_by_quality: value, ..old(self)@.stats }, ..old(self)@ }),
    {
        self.mana_affected_by_quality = value;
    }

    /// Sets `attack`.
    fn set_attack(&mut self, value: i16)
        ensures
            final(self)@ == (AdminItemView { stats: ItemStats { attack: value, ..old(self)@.stats }, ..old(self)@ }),
    {
        self.attack = value;
    }

    /// Sets `attack_affected_by_quality`.
    fn set_attack_affected_by_quality(&mut self, value: bool)
        ensures
            final(self)@ == (AdminItemView { stats: ItemStats { attack_affected_by_quality: value, ..old(self)@.stats }, ..old(self)@ }),
    {
        self.attack_affected_by_quality = value;
    }

    /// Sets `magic`.
    fn set_magic(&mut self, value: i16)
        ensures
            final(self)@ == (AdminItemView { stats: ItemStats { magic: value, ..old(self)@.stats }, ..old(self)@ }),
    {
        self.magic = value;
    }

    /// Sets `magic_affected_by_quality`.
    fn set_magic_affected_by_quality(&mut self, value: bool)
        ensures
            final(self)@ == (AdminItemView { stats: ItemStats { magic_affected_by_quality: value, ..old(self)@.stats }, ..old(self)@ }),
    {
        self.magic_affected_by_quality = value;
    }

    /// Sets `defense`.
    fn set_defense(&mut self, value: i16)
        ensures
            final(self)@ == (AdminItemView { more_stats: ItemMoreStats { defense: value, ..old(self)@.more_stats }, ..old(self)@ }),
    {
        self.defense = value;
    }

    /// Sets `defense_affected_by_quality`.
    fn set_defense_affected_by_quality(&mut self, value: bool)
        ensures
            final(self)@ == (AdminItemView { more_stats: ItemMoreStats { defense_affected_by_quality: value, ..old(self)@.more_stats }, ..old(self)@ }),
    {
        self.defense_affected_by_quality = value;
    }

    /// Sets `resistance`.
    fn set_resistance(&mut self, value: i16)
        ensures
            final(self)@ == (AdminItemView { more_stats: ItemMoreStats { resistance: value, ..old(self)@.more_stats }, ..old(self)@ }),
    {
        self.resistance = value;
    }

    /// Sets `resistance_affected_by_quality`.
    fn set_resistance_affected_by_quality(&mut self, value: bool)
        ensures
            final(self)@ == (AdminItemView { more_stats: ItemMoreStats { resistance_affected_by_quality: value, ..old(self)@.more_stats }, ..old(self)@ }),
    {
        self.resistance_affected_by_quality = value;
    }

    /// Sets `dexterity`.
    fn set_dexterity(&mut self, value: i16)
        ensures
            final(self)@ == (AdminItemView { more_stats: ItemMoreStats { dexterity: value, ..old(self)@.more_stats }, ..old(self)@ }),
    {
        self.dexterity = value;
    }

    /// Sets `dexterity_affected_by_quality`.
    fn set_dexterity_affected_by_quality(&mut self, value: bool)
        ensures
            final(self)@ == (AdminItemView { more_stats: ItemMoreStats { dexterity_affected_by_quality: value, ..old(self)@.more_stats }, ..old(self)@ }),
    {
        self.dexterity_affected_by_quality = value;
    }

    /// Sets `ward`.
    fn set_ward(&mut self, value: i8)
        ensures
            final(self)@ == (AdminItemView { more_stats: ItemMoreStats { ward: value, ..old(self)@.more_stats }, ..old(self)@ }),
    {
        self.ward = value;
    }

    /// Sets `ward_affected_by_quality`.
    fn set_ward_affected_by_quality(&mut self, value: bool)
        ensures
            final(self)@ == (AdminItemView { more_stats: ItemMoreStats { ward_affected_by_quality: value, ..old(self)@.more_stats }, ..old(self)@ }),
    {
        self.ward_affected_by_quality = value;
    }

    /// Sets `crit`.
    fn set_crit(&mut self, value: u8)
        ensures
            final(self)@ == (AdminItemView { more_stats: ItemMoreStats { crit: value, ..old(self)@.more_stats }, ..old(self)@ }),
    {
        self.crit = value;
    }

    /// Sets `crit_affected_by_quality`.
    fn set_crit_affected_by_quality(&mut self, value: bool)
        ensures
            final(self)@ == (AdminItemView { more_stats: ItemMoreStats { crit_affected_by_quality: value, ..old(self)@.more_stats }, ..old(self)@ }),
    {
        self.crit_affected_by_quality = value;
    }

    /// Sets `foresight`.
    fn set_foresight(&mut self, value: i16)
        ensures
            final(self)@ == (AdminItemView { bonuses: ItemBonuses { foresight: value, ..old(self)@.bonuses }, ..old(self)@ }),
    {
        self.foresight = value;
    }

    /// Sets `view_distance`.
    fn set_view_distance(&mut self, value: u32)
        ensures
            final(self)@ == (AdminItemView { bonuses: ItemBonuses { view_distance: value, ..old(self)@.bonuses }, ..old(self)@ }),
    {
        self.view_distance = value;
    }

    /// Sets `follower_stats`.
    fn set_follower_stats(&mut self, value: u32)
        ensures
            final(self)@ == (AdminItemView { bonuses: ItemBonuses { follower_stats: value, ..old(self)@.bonuses }, ..old(self)@ }),
    {
        self.follower_stats = value;
    }

    /// Sets `follower_act`.
    fn set_follower_act(&mut self, value: i32)
        ensures
            final(self)@ == (AdminItemView { bonuses: ItemBonuses { follower_act: value, ..old(self)@.bonuses }, ..old(self)@ }),
    {
        self.follower_act = value;
    }

    /// Sets `status_infliction`.
    fn set_status_infliction(&mut self, value: u32)
        ensures
            final(self)@ == (AdminItemView { bonuses: ItemBonuses { status_infliction: value, ..old(self)@.bonuses }, ..old(self)@ }),
    {
        self.status_infliction = value;
    }

    /// Sets `status_protection`.
    fn set_status_protection(&mut self, value: u32)
        ensures
            final(self)@ == (AdminItemView { bonuses: ItemBonuses { status_protection: value, ..old(self)@.bonuses }, ..old(self)@ }),
    {
        self.status_protection = value;
    }

    /// Sets `mana_saver`.
    fn set_mana_saver(&mut self, value: i8)
        ensures
            final(self)@ == (AdminItemView { bonuses: ItemBonuses { mana_saver: value, ..old(self)@.bonuses }, ..old(self)@ }),
    {
        self.mana_saver = value;
    }

    /// Sets `potion_effectiveness`.
    fn set_potion_effectiveness(&mut self, value: u8)
        ensures
            final(self)@ == (AdminItemView { bonuses: ItemBonuses { potion_effectiveness: value, ..old(self)@.bonuses }, ..old(self)@ }),
    {
        self.potion_effectiveness = value;
    }

    /// Sets `has_slots`.
    fn set_has_slots(&mut self, value: bool)
        ensures
            final(self)@ == (AdminItemView { bonuses: ItemBonuses { has_slots: value, ..old(self)@.bonuses }, ..old(self)@ }),
    {
        self.has_slots = value;
    }

    /// Sets `base_adornment_slots`.
    fn set_base_adornment_slots(&mut self, value: u8)
        ensures
            final(self)@ == (AdminItemView { bonuses: ItemBonuses { base_adornment_slots: value, ..old(self)@.bonuses }, ..old(self)@ }),
    {
        self.base_adornment_slots = value;
    }

    /// Sets `rarity`.
    fn set_rarity(&mut self, value: String)
        ensures
            final(self)@ == (AdminItemView { bonuses: ItemBonuses { rarity: value@, ..old(self)@.bonuses }, ..old(self)@ }),
    {
        self.rarity = value;
    }

    /// Sets `element`.
    fn set_element(&mut self, value: Option<u32>)
        ensures
            final(self)@ == (AdminItemView { relations: ItemRelations { element: value, ..old(self)@.relations }, ..old(self)@ }),
    {
        self.element = value;
    }

    /// Appends `id` to `equipped_by`.
    fn append_equipped_by(&mut self, id: u32)
        ensures
            final(self)@ == (AdminItemView { relations: ItemRelations { equipped_by: old(self)@.relations.equipped_by.push(id), ..old(self)@.relations }, ..old(self)@ }),
    {
        self.equipped_by.push(id);
    }

    /// Sets `two_handed`.
    fn set_two_handed(&mut self, value: bool)
        ensures
            final(self)@ == (AdminItemView { relations: ItemRelations { two_handed: value, ..old(self)@.relations }, ..old(self)@ }),
    {
        self.two_handed = value;
    }

    /// Sets `orn_bonus`.
    fn set_orn_bonus(&mut self, value: String)
        ensures
            final(self)@ == (AdminItemView { relations: ItemRelations { orn_bonus: value@, ..old(self)@.relations }, ..old(self)@ }),
    {
        self.orn_bonus = value;
    }

    /// Sets `gold_bonus`.
    fn set_gold_bonus(&mut self, value: String)
        ensures
            final(self)@ == (AdminItemView { relations: ItemRelations { gold_bonus: value@, ..old(self)@.relations }, ..old(self)@ }),
    {
        self.gold_bonus = value;
    }

    /// Sets `drop_bonus`.
    fn set_drop_bonus(&mut self, value: String)
        ensures
            final(self)@ == (AdminItemView { relations: ItemRelations { drop_bonus: value@, ..old(self)@.relations }, ..old(self)@ }),
    {
        self.drop_bonus = value;
    }

    /// Sets `spawn_bonus`.
    fn set_spawn_bonus(&mut self, value: String)
        ensures
            final(self)@ == (AdminItemView { relations: ItemRelations { spawn_bonus: value@, ..old(self)@.relations }, ..old(self)@ }),
    {
        self.spawn_bonus = value;
    }

    /// Sets `exp_bonus`.
    fn set_exp_bonus(&mut self, value: String)
        ensures
            final(self)@ == (AdminItemView { relations: ItemRelations { exp_bonus: value@, ..old(self)@.relations }, ..old(self)@ }),
    {
        self.exp_bonus = value;
    }

    /// Sets `boss`.
    fn set_boss(&mut self, value: bool)
        ensures
            final(self)@ == (AdminItemView { relations: ItemRelations { boss: value, ..old(self)@.relations }, ..old(self)@ }),
    {
        self.boss = value;
    }

    /// Sets `arena`.
    fn set_arena(&mut self, value: bool)
        ensures
            final(self)@ == (AdminItemView { relations: ItemRelations { arena: value, ..old(self)@.relations }, ..old(self)@ }),
    {
        self.arena = value;
    }

    /// Sets `category`.
    fn set_category(&mut self, value: Option<u32>)
        ensures
            final(self)@ == (AdminItemView { relations: ItemRelations { category: value, ..old(self)@.relations }, ..old(self)@ }),
    {
        self.category = value;
    }

    /// Appends `id` to `causes`.
    fn append_causes(&mut self, id: u32)
        ensures
            final(self)@ == (AdminItemView { relations: ItemRelations { causes: old(self)@.relations.causes.push(id), ..old(self)@.relations }, ..old(self)@ }),
    {
        self.causes.push(id);
    }

    /// Appends `id` to `cures`.
    fn append_cures(&mut self, id: u32)
        ensures
            final(self)@ == (AdminItemView { relations: ItemRelations { cures: old(self)@.relations.cures.push(id), ..old(self)@.relations }, ..old(self)@ }),
    {
        self.cures.push(id);
    }

    /// Appends `id` to `gives`.
    fn append_gives(&mut self, id: u32)
        ensures
            final(self)@ == (AdminItemView { relations: ItemRelations { gives: old(self)@.relations.gives.push(id), ..old(self)@.relations }, ..old(self)@ }),
    {
        self.gives.push(id);
    }

    /// Appends `id` to `prevents`.
    fn append_prevents(&mut self, id: u32)
        ensures
            final(self)@ == (AdminItemView { relations: ItemRelations { prevents: old(self)@.relations.prevents.push(id), ..old(self)@.relations }, ..old(self)@ }),
    {
        self.prevents.push(id);
    }

    /// Appends `id` to `materials`.
    fn append_materials(&mut self, id: u32)
        ensures
            final(self)@ == (AdminItemView { relations: ItemRelations { materials: old(self)@.relations.materials.push(id), ..old(self)@.relations }, ..old(self)@ }),
    {
        self.materials.push(id);
    }

    /// Sets `price`.
    fn set_price(&mut self, value: u32)
        ensures
            final(self)@ == (AdminItemView { relations: ItemRelations { price: value, ..old(self)@.relations }, ..old(self)@ }),
    {
        self.price = value;
    }

    /// Sets `ability`.
    fn set_ability(&mut self, value: Option<u32>)
        ensures
            final(self)@ == (AdminItemView { relations: ItemRelations { ability: value, ..old(self)@.relations }, ..old(self)@ }),
    {
        self.ability = value;
    }
}

impl AdminItem {
    /// Read an item from the fields of its admin form.
    ///
    /// # Errors
    /// Errors when a value cannot be read or a field does not belong to the form.
    pub fn try_from(form: ParsedForm) -> (r: Result<Self, Error>)
        ensures
            match item_form(empty_item(form@.1), form@.0, 0) {
                Ok(v) => r matches Ok(x) && x@ == v,
                Err(f) => r matches Err(e) && fails_form(e, f),
            },
    {
        let ghost all = form@.0;
        let mut item = AdminItem::default();
        item.csrfmiddlewaretoken = form.csrfmiddlewaretoken;
        let ghost start = item@;
        let mut rest = form.fields;
        let ghost mut j: int = 0;
        assert(fields_view(rest@).skip(0) =~= all);
        while rest.len() > 0
            invariant
                0 <= j <= all.len(),
                all == form@.0,
                start == empty_item(form@.1),
                fields_view(rest@) == all.skip(j),
                item_form(start, all, 0) == item_form(item@, all, j),
            decreases rest.len(),
        {
            let ghost r0 = rest@;
            let (key, value) = rest.remove(0);
            proof {
                lemma_fields_view_remove_first(r0);
                assert(all.skip(j)[0] == all[j]);
                assert(all.skip(j).skip(1) =~= all.skip(j + 1));
            }
            let ghost before = item@;
            proof {
                reveal(item_form);
                assert(item_form(before, all, j) == match item_field(before, all[j].0, all[j].1) {
                    Ok(x) => item_form(x, all, j + 1),
                    Err(e) => Err(e),
                });
            }
            match item.read_field(key, value) {
                Ok(()) => {},
                Err(e) => {
                    return Err(e);
                },
            }
            proof {
                j = j + 1;
            }
        }
        proof {
            reveal(item_form);
            assert(item_form(item@, all, j) == Ok::<AdminItemView, FormFailure>(item@));
        }
        Ok(item)
    }

    /// Read one field of the admin form into the item.
    fn read_field(&mut self, key: String, value: String) -> (r: Result<(), Error>)
        ensures
            match item_field(old(self)@, key@, value@) {
                Ok(v) => r is Ok && final(self)@ == v,
                Err(f) => r matches Err(e) && fails_form(e, f),
            },
    {
        proof {
            reveal(form_int);
        }
        let k = key.as_str();
        if str_eq(k, "codex") {
            self.set_codex_uri(value);
        } else if str_eq(k, "name") {
            self.set_name(value);
        } else if str_eq(k, "tier") {
            match parse_u8(value.as_str()) {
                Ok(x) => self.set_tier(x),
                Err(e) => {
                    return Err(int_error(e));
                },
            }
        } else if str_eq(k, "type") {
            match parse_u32(value.as_str()) {
                Ok(x) => self.set_type_(x),
                Err(e) => {
                    return Err(int_error(e));
                },
            }
        } else if str_eq(k, "image_name") {
            self.set_image_name(value);
        } else if str_eq(k, "description") {
            self.set_description(value);
        } else if str_eq(k, "notes") {
            self.set_notes(value);
        } else {
            return self.read_stat_field(key, value);
        }
        Ok(())
    }

    /// Read one field of the admin form among the HP, mana, attack and magic of the item
    /// and their scaling, or a field past those.
    fn read_stat_field(&mut self, key: String, value: String) -> (r: Result<(), Error>)
        ensures
            match item_stat_field(old(self)@, key@, value@) {
                Ok(v) => r is Ok && final(self)@ == v,
                Err(f) => r matches Err(e) && fails_form(e, f),
            },
    {
        proof {
            reveal(item_stat_field);
            reveal(form_int);
        }
        let k = key.as_str();
        if str_eq(k, "hp") {
            match parse_i16(value.as_str()) {
                Ok(x) => self.set_hp(x),
                Err(e) => {
                    return Err(int_error(e));
                },
            }
        } else if str_eq(k, "hp_affected_by_quality") {
            self.set_hp_affected_by_quality(str_eq(value.as_str(), "on"));
        } else if str_eq(k, "mana") {
            match parse_i16(value.as_str()) {
                Ok(x) => self.set_mana(x),
                Err(e) => {
                    return Err(int_error(e));
                },
            }
        } else if str_eq(k, "mana_affected_by_quality") {
            self.set_mana_affected_by_quality(str_eq(value.as_str(), "on"));
        } else if str_eq(k, "attack") {
            match parse_i16(value.as_str()) {
                Ok(x) => self.set_attack(x),
                Err(e) => {
                    return Err(int_error(e));
                },
            }
        } else if str_eq(k, "attack_affected_by_quality") {
            self.set_attack_affected_by_quality(str_eq(value.as_str(), "on"));
        } else if str_eq(k, "magic") {
            match parse_i16(value.as_str()) {
                Ok(x) => self.set_magic(x),
                Err(e) => {
                    return Err(int_error(e));
                },
            }
        } else if str_eq(k, "magic_affected_by_quality") {
            self.set_magic_affected_by_quality(str_eq(value.as_str(), "on"));
        } else {
            return self.read_more_stat_field(key, value);
        }
        Ok(())
    }

    /// Read one field of the admin form among the defense, resistance, dexterity, ward
    /// and crit of the item and their scaling, or a field past those.
    fn read_more_stat_field(&mut self, key: String, value: String) -> (r: Result<(), Error>)
        ensures
            match item_more_stat_field(old(self)@, key@, value@) {
                Ok(v) => r is Ok && final(self)@ == v,
                Err(f) => r matches Err(e) && fails_form(e, f),
            },
    {
        proof {
            reveal(item_more_stat_field);
            reveal(form_int);
        }
        let k = key.as_str();
        if str_eq(k, "defense") {
            match parse_i16(value.as_str()) {
                Ok(x) => self.set_defense(x),
                Err(e) => {
                    return Err(int_error(e));
                },
            }
        } else if str_eq(k, "defense_affected_by_quality") {
            self.set_defense_affected_by_quality(str_eq(value.as_str(), "on"));
        } else if str_eq(k, "resistance") {
            match parse_i16(value.as_str()) {
                Ok(x) => self.set_resistance(x),
                Err(e) => {
                    return Err(int_error(e));
                },
            }
        } else if str_eq(k, "resistance_affected_by_quality") {
            self.set_resistance_affected_by_quality(str_eq(value.as_str(), "on"));
        } else if str_eq(k, "dexterity") {
            match parse_i16(value.as_str()) {
                Ok(x) => self.set_dexterity(x),
                Err(e) => {
                    return Err(int_error(e));
                },
            }
        } else if str_eq(k, "dexterity_affected_by_quality") {
            self.set_dexterity_affected_by_quality(str_eq(value.as_str(), "on"));
        } else if str_eq(k, "ward") {
            match parse_i8(value.as_str()) {
                Ok(x) => self.set_ward(x),
                Err(e) => {
                    return Err(int_error(e));
                },
            }
        } else if str_eq(k, "ward_affected_by_quality") {
            self.set_ward_affected_by_quality(str_eq(value.as_str(), "on"));
        } else if str_eq(k, "crit") {
            match parse_u8(value.as_str()) {
                Ok(x) => self.set_crit(x),
                Err(e) => {
                    return Err(int_error(e));
                },
            }
        } else if str_eq(k, "crit_affected_by_quality") {
            self.set_crit_affected_by_quality(str_eq(value.as_str(), "on"));
        } else {
            return self.read_bonus_field(key, value);
        }
        Ok(())
    }

    /// Read one field of the admin form among the other bonuses of the item, its slots
    /// and its rarity, or a field past those.
    fn read_bonus_field(&mut self, key: String, value: String) -> (r: Result<(), Error>)
        ensures
            match item_bonus_field(old(self)@, key@, value@) {
                Ok(v) => r is Ok && final(self)@ == v,
                Err(f) => r matches Err(e) && fails_form(e, f),
            },
    {
        proof {
            reveal(item_bonus_field);
            reveal(form_int);
        }
        let k = key.as_str();
        if str_eq(k, "foresight") {
            match parse_i16(value.as_str()) {
                Ok(x) => self.set_foresight(x),
                Err(e) => {
                    return Err(int_error(e));
                },
            }
        } else if str_eq(k, "view_distance") {
            match parse_u32(value.as_str()) {
                Ok(x) => self.set_view_distance(x),
                Err(e) => {
                    return Err(int_error(e));
                },
            }
        } else if str_eq(k, "follower_stats") {
            match parse_u32(value.as_str()) {
                Ok(x) => self.set_follower_stats(x),
                Err(e) => {
                    return Err(int_error(e));
                },
            }
        } else if str_eq(k, "follower_act") {
            match parse_i32(value.as_str()) {
                Ok(x) => self.set_follower_act(x),
                Err(e) => {
                    return Err(int_error(e));
                },
            }
        } else if str_eq(k, "status_infliction") {
            match parse_u32(value.as_str()) {
                Ok(x) => self.set_status_infliction(x),
                Err(e) => {
                    return Err(int_error(e));
                },
            }
        } else if str_eq(k, "status_protection") {
            match parse_u32(value.as_str()) {
                Ok(x) => self.set_status_protection(x),
                Err(e) => {
                    return Err(int_error(e));
                },
            }
        } else if str_eq(k, "mana_saver") {
            match parse_i8(value.as_str()) {
                Ok(x) => self.set_mana_saver(x),
                Err(e) => {
                    return Err(int_error(e));
                },
            }
        } else if str_eq(k, "potion_effectiveness") {
            match parse_u8(value.as_str()) {
                Ok(x) => self.set_potion_effectiveness(x),
                Err(e) => {
                    return Err(int_error(e));
                },
            }
        } else if str_eq(k, "has_slots") {
            self.set_has_slots(str_eq(value.as_str(), "on"));
        } else if str_eq(k, "base_adornment_slots") {
            match parse_u8(value.as_str()) {
                Ok(x) => self.set_base_adornment_slots(x),
                Err(e) => {
                    return Err(int_error(e));
                },
            }
        } else if str_eq(k, "rarity") {
            self.set_rarity(value);
        } else {
            return self.read_relation_field(key, value);
        }
        Ok(())
    }

    /// Read one field of the admin form among the links of the item to other guide
    /// entities and its last flags.
    fn read_relation_field(&mut self, key: String, value: String) -> (r: Result<(), Error>)
        ensures
            match item_relation_field(old(self)@, key@, value@) {
                Ok(v) => r is Ok && final(self)@ == v,
                Err(f) => r matches Err(e) && fails_form(e, f),
            },
    {
        proof {
            reveal(item_relation_field);
            reveal(form_int);
        }
        let k = key.as_str();
        if str_eq(k, "element") {
            if value.unicode_len() == 0 {
                self.set_element(None);
            } else {
                match parse_u32(value.as_str()) {
                    Ok(x) => self.set_element(Some(x)),
                    Err(e) => {
                        return Err(int_error(e));
                    },
                }
            }
        } else if str_eq(k, "equipped_by") {
            match parse_u32(value.as_str()) {
                Ok(x) => self.append_equipped_by(x),
                Err(e) => {
                    return Err(int_error(e));
                },
            }
        } else if str_eq(k, "two_handed") {
            self.set_two_handed(str_eq(value.as_str(), "on"));
        } else if str_eq(k, "orn_bonus") {
            match parse_float(value.as_str()) {
                Ok(()) => self.set_orn_bonus(value),
                Err(e) => {
                    return Err(float_error(e));
                },
            }
        } else if str_eq(k, "gold_bonus") {
            match parse_float(value.as_str()) {
                Ok(()) => self.set_gold_bonus(value),
                Err(e) => {
                    return Err(float_error(e));
                },
            }
        } else if str_eq(k, "drop_bonus") {
            match parse_float(value.as_str()) {
                Ok(()) => self.set_drop_bonus(value),
                Err(e) => {
                    return Err(float_error(e));
                },
            }
        } else if str_eq(k, "spawn_bonus") {
            match parse_float(value.as_str()) {
                Ok(()) => self.set_spawn_bonus(value),
                Err(e) => {
                    return Err(float_error(e));
                },
            }
        } else if str_eq(k, "exp_bonus") {
            match parse_float(value.as_str()) {
                Ok(()) => self.set_exp_bonus(value),
                Err(e) => {
                    return Err(float_error(e));
                },
            }
        } else if str_eq(k, "boss") {
            self.set_boss(str_eq(value.as_str(), "on"));
        } else if str_eq(k, "arena") {
            self.set_arena(str_eq(value.as_str(), "on"));
        } else if str_eq(k, "category") {
            if value.unicode_len() == 0 {
                self.set_category(None);
            } else {
                match parse_u32(value.as_str()) {
                    Ok(x) => self.set_category(Some(x)),
                    Err(e) => {
                        return Err(int_error(e));
                    },
                }
            }
        } else if str_eq(k, "causes") {
            match parse_u32(value.as_str()) {
                Ok(x) => self.append_causes(x),
                Err(e) => {
                    return Err(int_error(e));
                },
            }
        } else if str_eq(k, "cures") {
            match parse_u32(value.as_str()) {
                Ok(x) => self.append_cures(x),
                Err(e) => {
                    return Err(int_error(e));
                },
            }
        } else if str_eq(k, "gives") {
            match parse_u32(value.as_str()) {
                Ok(x) => self.append_gives(x),
                Err(e) => {
                    return Err(int_error(e));
                },
            }
        } else if str_eq(k, "prevents") {
            match parse_u32(value.as_str()) {
                Ok(x) => self.append_prevents(x),
                Err(e) => {
                    return Err(int_error(e));
                },
            }
        } else if str_eq(k, "materials") {
            match parse_u32(value.as_str()) {
                Ok(x) => self.append_materials(x),
                Err(e) => {
                    return Err(int_error(e));
                },
            }
        } else if str_eq(k, "price") {
            match parse_u32(value.as_str()) {
                Ok(x) => self.set_price(x),
                Err(e) => {
                    return Err(int_error(e));
                },
            }
        } else if str_eq(k, "ability") {
            if value.unicode_len() == 0 {
                self.set_ability(None);
            } else {
                match parse_u32(value.as_str()) {
                    Ok(x) => self.set_ability(Some(x)),
                    Err(e) => {
                        return Err(int_error(e));
                    },
                }
            }
        } else {
            return Err(Kind::ExtraField(key, value).into_err());
        }
        Ok(())
    }

    /// Appends the fields that describe the item.
    fn push_head(&self, fields: &mut Vec<(String, String)>)
        ensures
            fields_view(final(fields)@) == fields_view(old(fields)@) + item_form_head(self@),
    {
        let ghost start = fields_view(fields@);
        let ghost mut part: Seq<(Seq<char>, Seq<char>)> = Seq::empty();
        push_field(fields, "codex", to_owned(self.codex_uri.as_str()));
        proof {
            part = seq![("codex"@, self@.head.codex_uri)];
        }
        push_field(fields, "name", to_owned(self.name.as_str()));
        proof {
            lemma_concat_associative(start, part, seq![("name"@, self@.head.name)]);
            part = part + seq![("name"@, self@.head.name)];
        }
        push_field(fields, "tier", unsigned_to_string(self.tier as u64));
        proof {
            lemma_concat_associative(start, part, seq![("tier"@, spec_dec(self@.head.tier as nat))]);
            part = part + seq![("tier"@, spec_dec(self@.head.tier as nat))];
        }
        push_field(fields, "type", unsigned_to_string(self.type_ as u64));
        proof {
            lemma_concat_associative(start, part, seq![("type"@, spec_dec(self@.head.type_ as nat))]);
            part = part + seq![("type"@, spec_dec(self@.head.type_ as nat))];
        }
        push_field(fields, "image_name", to_owned(self.image_name.as_str()));
        proof {
            lemma_concat_associative(start, part, seq![("image_name"@, self@.head.image_name)]);
            part = part + seq![("image_name"@, self@.head.image_name)];
        }
        push_field(fields, "description", to_owned(self.description.as_str()));
        proof {
            lemma_concat_associative(start, part, seq![("description"@, self@.head.description)]);
            part = part + seq![("description"@, self@.head.description)];
        }
        push_field(fields, "notes", to_owned(self.notes.as_str()));
        proof {
            lemma_concat_associative(start, part, seq![("notes"@, self@.head.notes)]);
            part = part + seq![("notes"@, self@.head.notes)];
        }
        proof {
            reveal(item_form_head);
        }
    }

    /// Appends the fields of the HP, mana, attack and magic of the item and their
    /// scaling.
    fn push_stats(&self, fields: &mut Vec<(String, String)>)
        ensures
            fields_view(final(fields)@) == fields_view(old(fields)@) + item_form_stats(self@),
    {
        let ghost start = fields_view(fields@);
        let ghost mut part: Seq<(Seq<char>, Seq<char>)> = Seq::empty();
        push_field(fields, "hp", signed_to_string(self.hp as i64));
        proof {
            part = seq![("hp"@, spec_int_text(self@.stats.hp as int))];
        }
        push_flag(fields, "hp_affected_by_quality", self.hp_affected_by_quality);
        proof {
            lemma_concat_associative(start, part, flag_field("hp_affected_by_quality"@, self@.stats.hp_affected_by_quality));
            part = part + flag_field("hp_affected_by_quality"@, self@.stats.hp_affected_by_quality);
        }
        push_field(fields, "mana", signed_to_string(self.mana as i64));
        proof {
            lemma_concat_associative(start, part, seq![("mana"@, spec_int_text(self@.stats.mana as int))]);
            part = part + seq![("mana"@, spec_int_text(self@.stats.mana as int))];
        }
        push_flag(fields, "mana_affected_by_quality", self.mana_affected_by_quality);
        proof {
            lemma_concat_associative(start, part, flag_field("mana_affected_by_quality"@, self@.stats.mana_affected_by_quality));
            part = part + flag_field("mana_affected_by_quality"@, self@.stats.mana_affected_by_quality);
        }
        push_field(fields, "attack", signed_to_string(self.attack as i64));
        proof {
            lemma_concat_associative(start, part, seq![("attack"@, spec_int_text(self@.stats.attack as int))]);
            part = part + seq![("attack"@, spec_int_text(self@.stats.attack as int))];
        }
        push_flag(fields, "attack_affected_by_quality", self.attack_affected_by_quality);
        proof {
            lemma_concat_associative(start, part, flag_field("attack_affected_by_quality"@, self@.stats.attack_affected_by_quality));
            part = part + flag_field("attack_affected_by_quality"@, self@.stats.attack_affected_by_quality);
        }
        push_field(fields, "magic", signed_to_string(self.magic as i64));
        proof {
            lemma_concat_associative(start, part, seq![("magic"@, spec_int_text(self@.stats.magic as int))]);
            part = part + seq![("magic"@, spec_int_text(self@.stats.magic as int))];
        }
        push_flag(fields, "magic_affected_by_quality", self.magic_affected_by_quality);
        proof {
            lemma_concat_associative(start, part, flag_field("magic_affected_by_quality"@, self@.stats.magic_affected_by_quality));
            part = part + flag_field("magic_affected_by_quality"@, self@.stats.magic_affected_by_quality);
        }
        proof {
            reveal(item_form_stats);
        }
    }

    /// Appends the fields of the defense, resistance, dexterity, ward and crit of the item
    /// and their scaling.
    fn push_more_stats(&self, fields: &mut Vec<(String, String)>)
        ensures
            fields_view(final(fields)@) == fields_view(old(fields)@) + item_form_more_stats(self@),
    {
        let ghost start = fields_view(fields@);
        let ghost mut part: Seq<(Seq<char>, Seq<char>)> = Seq::empty();
        push_field(fields, "defense", signed_to_string(self.defense as i64));
        proof {
            part = seq![("defense"@, spec_int_text(self@.more_stats.defense as int))];
        }
        push_flag(fields, "defense_affected_by_quality", self.defense_affected_by_quality);
        proof {
            lemma_concat_associative(start, part, flag_field("defense_affected_by_quality"@, self@.more_stats.defense_affected_by_quality));
            part = part + flag_field("defense_affected_by_quality"@, self@.more_stats.defense_affected_by_quality);
        }
        push_field(fields, "resistance", signed_to_string(self.resistance as i64));
        proof {
            lemma_concat_associative(start, part, seq![("resistance"@, spec_int_text(self@.more_stats.resistance as int))]);
            part = part + seq![("resistance"@, spec_int_text(self@.more_stats.resistance as int))];
        }
        push_flag(fields, "resistance_affected_by_quality", self.resistance_affected_by_quality);
        proof {
            lemma_concat_associative(start, part, flag_field("resistance_affected_by_quality"@, self@.more_stats.resistance_affected_by_quality));
            part = part + flag_field("resistance_affected_by_quality"@, self@.more_stats.resistance_affected_by_quality);
        }
        push_field(fields, "dexterity", signed_to_string(self.dexterity as i64));
        proof {
            lemma_concat_associative(start, part, seq![("dexterity"@, spec_int_text(self@.more_stats.dexterity as int))]);
            part = part + seq![("dexterity"@, spec_int_text(self@.more_stats.dexterity as int))];
        }
        push_flag(fields, "dexterity_affected_by_quality", self.dexterity_affected_by_quality);
        proof {
            lemma_concat_associative(start, part, flag_field("dexterity_affected_by_quality"@, self@.more_stats.dexterity_affected_by_quality));
            part = part + flag_field("dexterity_affected_by_quality"@, self@.more_stats.dexterity_affected_by_quality);
        }
        push_field(fields, "ward", signed_to_string(self.ward as i64));
        proof {
            lemma_concat_associative(start, part, seq![("ward"@, spec_int_text(self@.more_stats.ward as int))]);
            part = part + seq![("ward"@, spec_int_text(self@.more_stats.ward as int))];
        }
        push_flag(fields, "ward_affected_by_quality", self.ward_affected_by_quality);
        proof {
            lemma_concat_associative(start, part, flag_field("ward_affected_by_quality"@, self@.more_stats.ward_affected_by_quality));
            part = part + flag_field("ward_affected_by_quality"@, self@.more_stats.ward_affected_by_quality);
        }
        push_field(fields, "crit", unsigned_to_string(self.crit as u64));
        proof {
            lemma_concat_associative(start, part, seq![("crit"@, spec_dec(self@.more_stats.crit as nat))]);
            part = part + seq![("crit"@, spec_dec(self@.more_stats.crit as nat))];
        }
        push_flag(fields, "crit_affected_by_quality", self.crit_affected_by_quality);
        proof {
            lemma_concat_associative(start, part, flag_field("crit_affected_by_quality"@, self@.more_stats.crit_affected_by_quality));
            part = part + flag_field("crit_affected_by_quality"@, self@.more_stats.crit_affected_by_quality);
        }
        proof {
            reveal(item_form_more_stats);
        }
    }

    /// Appends the fields of the other bonuses of the item, its slots and its rarity.
    fn push_bonuses(&self, fields: &mut Vec<(String, String)>)
        ensures
            fields_view(final(fields)@) == fields_view(old(fields)@) + item_form_bonuses(self@),
    {
        let ghost start = fields_view(fields@);
        let ghost mut part: Seq<(Seq<char>, Seq<char>)> = Seq::empty();
        push_field(fields, "foresight", signed_to_string(self.foresight as i64));
        proof {
            part = seq![("foresight"@, spec_int_text(self@.bonuses.foresight as int))];
        }
        push_field(fields, "view_distance", unsigned_to_string(self.view_distance as u64));
        proof {
            lemma_concat_associative(start, part, seq![("view_distance"@, spec_dec(self@.bonuses.view_distance as nat))]);
            part = part + seq![("view_distance"@, spec_dec(self@.bonuses.view_distance as nat))];
        }
        push_field(fields, "follower_stats", unsigned_to_string(self.follower_stats as u64));
        proof {
            lemma_concat_associative(start, part, seq![("follower_stats"@, spec_dec(self@.bonuses.follower_stats as nat))]);
            part = part + seq![("follower_stats"@, spec_dec(self@.bonuses.follower_stats as nat))];
        }
        push_field(fields, "follower_act", signed_to_string(self.follower_act as i64));
        proof {
            lemma_concat_associative(start, part, seq![("follower_act"@, spec_int_text(self@.bonuses.follower_act as int))]);
            part = part + seq![("follower_act"@, spec_int_text(self@.bonuses.follower_act as int))];
        }
        push_field(fields, "status_infliction", unsigned_to_string(self.status_infliction as u64));
        proof {
            lemma_concat_associative(start, part, seq![("status_infliction"@, spec_dec(self@.bonuses.status_infliction as nat))]);
            part = part + seq![("status_infliction"@, spec_dec(self@.bonuses.status_infliction as nat))];
        }
        push_field(fields, "status_protection", unsigned_to_string(self.status_protection as u64));
        proof {
            lemma_concat_associative(start, part, seq![("status_protection"@, spec_dec(self@.bonuses.status_protection as nat))]);
            part = part + seq![("status_protection"@, spec_dec(self@.bonuses.status_protection as nat))];
        }
        push_field(fields, "mana_saver", signed_to_string(self.mana_saver as i64));
        proof {
            lemma_concat_associative(start, part, seq![("mana_saver"@, spec_int_text(self@.bonuses.mana_saver as int))]);
            part = part + seq![("mana_saver"@, spec_int_text(self@.bonuses.mana_saver as int))];
        }
        push_field(fields, "potion_effectiveness", unsigned_to_string(self.potion_effectiveness as u64));
        proof {
            lemma_concat_associative(start, part, seq![("potion_effectiveness"@, spec_dec(self@.bonuses.potion_effectiveness as nat))]);
            part = part + seq![("potion_effectiveness"@, spec_dec(self@.bonuses.potion_effectiveness as nat))];
        }
        push_flag(fields, "has_slots", self.has_slots);
        proof {
            lemma_concat_associative(start, part, flag_field("has_slots"@, self@.bonuses.has_slots));
            part = part + flag_field("has_slots"@, self@.bonuses.has_slots);
        }
        push_field(fields, "base_adornment_slots", unsigned_to_string(self.base_adornment_slots as u64));
        proof {
            lemma_concat_associative(start, part, seq![("base_adornment_slots"@, spec_dec(self@.bonuses.base_adornment_slots as nat))]);
            part = part + seq![("base_adornment_slots"@, spec_dec(self@.bonuses.base_adornment_slots as nat))];
        }
        push_field(fields, "rarity", to_owned(self.rarity.as_str()));
        proof {
            lemma_concat_associative(start, part, seq![("rarity"@, self@.bonuses.rarity)]);
            part = part + seq![("rarity"@, self@.bonuses.rarity)];
        }
        proof {
            reveal(item_form_bonuses);
        }
    }

    /// Appends the fields that link the item to other guide entities, with its gain
    /// bonuses, flags and price.
    fn push_relations(&self, fields: &mut Vec<(String, String)>)
        ensures
            fields_view(final(fields)@) == fields_view(old(fields)@) + item_form_relations(self@),
    {
        let ghost start = fields_view(fields@);
        let ghost mut part: Seq<(Seq<char>, Seq<char>)> = Seq::empty();
        let element = match self.element {
            Some(x) => unsigned_to_string(x as u64),
            None => String::new(),
        };
        push_field(fields, "element", element);
        proof {
            part = seq![("element"@, opt_dec(self@.relations.element))];
        }
        push_ids(fields, "equipped_by", &self.equipped_by);
        proof {
            lemma_concat_associative(start, part, id_fields("equipped_by"@, self@.relations.equipped_by));
            part = part + id_fields("equipped_by"@, self@.relations.equipped_by);
        }
        push_flag(fields, "two_handed", self.two_handed);
        proof {
            lemma_concat_associative(start, part, flag_field("two_handed"@, self@.relations.two_handed));
            part = part + flag_field("two_handed"@, self@.relations.two_handed);
        }
        push_field(fields, "orn_bonus", to_owned(self.orn_bonus.as_str()));
        proof {
            lemma_concat_associative(start, part, seq![("orn_bonus"@, self@.relations.orn_bonus)]);
            part = part + seq![("orn_bonus"@, self@.relations.orn_bonus)];
        }
        push_field(fields, "gold_bonus", to_owned(self.gold_bonus.as_str()));
        proof {
            lemma_concat_associative(start, part, seq![("gold_bonus"@, self@.relations.gold_bonus)]);
            part = part + seq![("gold_bonus"@, self@.relations.gold_bonus)];
        }
        push_field(fields, "drop_bonus", to_owned(self.drop_bonus.as_str()));
        proof {
            lemma_concat_associative(start, part, seq![("drop_bonus"@, self@.relations.drop_bonus)]);
            part = part + seq![("drop_bonus"@, self@.relations.drop_bonus)];
        }
        push_field(fields, "spawn_bonus", to_owned(self.spawn_bonus.as_str()));
        proof {
            lemma_concat_associative(start, part, seq![("spawn_bonus"@, self@.relations.spawn_bonus)]);
            part = part + seq![("spawn_bonus"@, self@.relations.spawn_bonus)];
        }
        push_field(fields, "exp_bonus", to_owned(self.exp_bonus.as_str()));
        proof {
            lemma_concat_associative(start, part, seq![("exp_bonus"@, self@.relations.exp_bonus)]);
            part = part + seq![("exp_bonus"@, self@.relations.exp_bonus)];
        }
        push_flag(fields, "boss", self.boss);
        proof {
            lemma_concat_associative(start, part, flag_field("boss"@, self@.relations.boss));
            part = part + flag_field("boss"@, self@.relations.boss);
        }
        push_flag(fields, "arena", self.arena);
        proof {
            lemma_concat_associative(start, part, flag_field("arena"@, self@.relations.arena));
            part = part + flag_field("arena"@, self@.relations.arena);
        }
        let category = match self.category {
            Some(x) => unsigned_to_string(x as u64),
            None => String::new(),
        };
        push_field(fields, "category", category);
        proof {
            lemma_concat_associative(start, part, seq![("category"@, opt_dec(self@.relations.category))]);
            part = part + seq![("category"@, opt_dec(self@.relations.category))];
        }
        push_ids(fields, "causes", &self.causes);
        proof {
            lemma_concat_associative(start, part, id_fields("causes"@, self@.relations.causes));
            part = part + id_fields("causes"@, self@.relations.causes);
        }
        push_ids(fields, "cures", &self.cures);
        proof {
            lemma_concat_associative(start, part, id_fields("cures"@, self@.relations.cures));
            part = part + id_fields("cures"@, self@.relations.cures);
        }
        push_ids(fields, "gives", &self.gives);
        proof {
            lemma_concat_associative(start, part, id_fields("gives"@, self@.relations.gives));
            part = part + id_fields("gives"@, self@.relations.gives);
        }
        push_ids(fields, "prevents", &self.prevents);
        proof {
            lemma_concat_associative(start, part, id_fields("prevents"@, self@.relations.prevents));
            part = part + id_fields("prevents"@, self@.relations.prevents);
        }
        push_ids(fields, "materials", &self.materials);
        proof {
            lemma_concat_associative(start, part, id_fields("materials"@, self@.relations.materials));
            part = part + id_fields("materials"@, self@.relations.materials);
        }
        push_field(fields, "price", unsigned_to_string(self.price as u64));
        proof {
            lemma_concat_associative(start, part, seq![("price"@, spec_dec(self@.relations.price as nat))]);
            part = part + seq![("price"@, spec_dec(self@.relations.price as nat))];
        }
        let ability = match self.ability {
            Some(x) => unsigned_to_string(x as u64),
            None => String::new(),
        };
        push_field(fields, "ability", ability);
        proof {
            lemma_concat_associative(start, part, seq![("ability"@, opt_dec(self@.relations.ability))]);
            part = part + seq![("ability"@, opt_dec(self@.relations.ability))];
        }
        proof {
            reveal(item_form_relations);
        }
    }

    /// The fields of the admin form of the item, in the order the guide expects them.
    pub fn to_form(self) -> (r: ParsedForm)
        ensures
            r@ == (item_form_fields(self@), self@.csrfmiddlewaretoken),
    {
        let mut fields: Vec<(String, String)> = Vec::new();
        self.push_head(&mut fields);
        self.push_stats(&mut fields);
        self.push_more_stats(&mut fields);
        self.push_bonuses(&mut fields);
        self.push_relations(&mut fields);
        proof {
            assert(Seq::<(Seq<char>, Seq<char>)>::empty() + item_form_head(self@) =~= item_form_head(self@));
        }
        ParsedForm { fields, csrfmiddlewaretoken: self.csrfmiddlewaretoken }
    }
}

/// The lengths and a few letters of the names of the fields of the item form,
/// enough to tell each name from the others.
proof fn lemma_item_keys()
    ensures
        "codex"@.len() == 5,
        "codex"@[0] == 'c',
        "codex"@[1] == 'o',
        "name"@.len() == 4,
        "name"@[0] == 'n',
        "name"@[1] == 'a',
        "tier"@.len() == 4,
        "tier"@[0] == 't',
        "tier"@[1] == 'i',
        "type"@.len() == 4,
        "type"@[0] == 't',
        "type"@[1] == 'y',
        "image_name"@.len() == 10,
        "image_name"@[0] == 'i',
        "image_name"@[1] == 'm',
        "description"@.len() == 11,
        "description"@[0] == 'd',
        "description"@[1] == 'e',
        "notes"@.len() == 5,
        "notes"@[0] == 'n',
        "notes"@[1] == 'o',
        "hp"@.len() == 2,
        "hp"@[0] == 'h',
        "hp"@[1] == 'p',
        "hp_affected_by_quality"@.len() == 22,
        "hp_affected_by_quality"@[0] == 'h',
        "hp_affected_by_quality"@[1] == 'p',
        "mana"@.len() == 4,
        "mana"@[0] == 'm',
        "mana"@[1] == 'a',
        "mana_affected_by_quality"@.len() == 24,
        "mana_affected_by_quality"@[0] == 'm',
        "mana_affected_by_quality"@[1] == 'a',
        "attack"@.len() == 6,
        "attack"@[0] == 'a',
        "attack"@[1] == 't',
        "attack_affected_by_quality"@.len() == 26,
        "attack_affected_by_quality"@[0] == 'a',
        "attack_affected_by_quality"@[1] == 't',
        "magic"@.len() == 5,
        "magic"@[0] == 'm',
        "magic"@[1] == 'a',
        "magic_affected_by_quality"@.len() == 25,
        "magic_affected_by_quality"@[0] == 'm',
        "magic_affected_by_quality"@[1] == 'a',
        "defense"@.len() == 7,
        "defense"@[0] == 'd',
        "defense"@[1] == 'e',
        "defense_affected_by_quality"@.len() == 27,
        "defense_affected_by_quality"@[0] == 'd',
        "defense_affected_by_quality"@[1] == 'e',
        "resistance"@.len() == 10,
        "resistance"@[0] == 'r',
        "resistance"@[1] == 'e',
        "resistance_affected_by_quality"@.len() == 30,
        "resistance_affected_by_quality"@[0] == 'r',
        "resistance_affected_by_quality"@[1] == 'e',
        "dexterity"@.len() == 9,
        "dexterity"@[0] == 'd',
        "dexterity"@[1] == 'e',
        "dexterity_affected_by_quality"@.len() == 29,
        "dexterity_affected_by_quality"@[0] == 'd',
        "dexterity_affected_by_quality"@[1] == 'e',
        "ward"@.len() == 4,
        "ward"@[0] == 'w',
        "ward"@[1] == 'a',
        "ward_affected_by_quality"@.len() == 24,
        "ward_affected_by_quality"@[0] == 'w',
        "ward_affected_by_quality"@[1] == 'a',
        "crit"@.len() == 4,
        "crit"@[0] == 'c',
        "crit"@[1] == 'r',
        "crit_affected_by_quality"@.len() == 24,
        "crit_affected_by_quality"@[0] == 'c',
        "crit_affected_by_quality"@[1] == 'r',
        "foresight"@.len() == 9,
        "foresight"@[0] == 'f',
        "foresight"@[1] == 'o',
        "view_distance"@.len() == 13,
        "view_distance"@[0] == 'v',
        "view_distance"@[1] == 'i',
        "follower_stats"@.len() == 14,
        "follower_stats"@[0] == 'f',
        "follower_stats"@[1] == 'o',
        "follower_act"@.len() == 12,
        "follower_act"@[0] == 'f',
        "follower_act"@[1] == 'o',
        "status_infliction"@.len() == 17,
        "status_infliction"@[0] == 's',
        "status_infliction"@[1] == 't',
        "status_infliction"@[7] == 'i',
        "status_protection"@.len() == 17,
        "status_protection"@[0] == 's',
        "status_protection"@[1] == 't',
        "status_protection"@[7] == 'p',
        "mana_saver"@.len() == 10,
        "mana_saver"@[0] == 'm',
        "mana_saver"@[1] == 'a',
        "potion_effectiveness"@.len() == 20,
        "potion_effectiveness"@[0] == 'p',
        "potion_effectiveness"@[1] == 'o',
        "has_slots"@.len() == 9,
        "has_slots"@[0] == 'h',
        "has_slots"@[1] == 'a',
        "base_adornment_slots"@.len() == 20,
        "base_adornment_slots"@[0] == 'b',
        "base_adornment_slots"@[1] == 'a',
        "rarity"@.len() == 6,
        "rarity"@[0] == 'r',
        "rarity"@[1] == 'a',
        "element"@.len() == 7,
        "element"@[0] == 'e',
        "element"@[1] == 'l',
        "equipped_by"@.len() == 11,
        "equipped_by"@[0] == 'e',
        "equipped_by"@[1] == 'q',
        "two_handed"@.len() == 10,
        "two_handed"@[0] == 't',
        "two_handed"@[1] == 'w',
        "orn_bonus"@.len() == 9,
        "orn_bonus"@[0] == 'o',
        "orn_bonus"@[1] == 'r',
        "gold_bonus"@.len() == 10,
        "gold_bonus"@[0] == 'g',
        "gold_bonus"@[1] == 'o',
        "drop_bonus"@.len() == 10,
        "drop_bonus"@[0] == 'd',
        "drop_bonus"@[1] == 'r',
        "spawn_bonus"@.len() == 11,
        "spawn_bonus"@[0] == 's',
        "spawn_bonus"@[1] == 'p',
        "exp_bonus"@.len() == 9,
        "exp_bonus"@[0] == 'e',
        "exp_bonus"@[1] == 'x',
        "boss"@.len() == 4,
        "boss"@[0] == 'b',
        "boss"@[1] == 'o',
        "arena"@.len() == 5,
        "arena"@[0] == 'a',
        "arena"@[1] == 'r',
        "category"@.len() == 8,
        "category"@[0] == 'c',
        "category"@[1] == 'a',
        "causes"@.len() == 6,
        "causes"@[0] == 'c',
        "causes"@[1] == 'a',
        "cures"@.len() == 5,
        "cures"@[0] == 'c',
        "cures"@[1] == 'u',
        "gives"@.len() == 5,
        "gives"@[0] == 'g',
        "gives"@[1] == 'i',
        "prevents"@.len() == 8,
        "prevents"@[0] == 'p',
        "prevents"@[1] == 'r',
        "materials"@.len() == 9,
        "materials"@[0] == 'm',
        "materials"@[1] == 'a',
        "price"@.len() == 5,
        "price"@[0] == 'p',
        "price"@[1] == 'r',
        "ability"@.len() == 7,
        "ability"@[0] == 'a',
        "ability"@[1] == 'b',
{
    reveal_strlit("codex");
    reveal_strlit("name");
    reveal_strlit("tier");
    reveal_strlit("type");
    reveal_strlit("image_name");
    reveal_strlit("description");
    reveal_strlit("notes");
    reveal_strlit("hp");
    reveal_strlit("hp_affected_by_quality");
    reveal_strlit("mana");
    reveal_strlit("mana_affected_by_quality");
    reveal_strlit("attack");
    reveal_strlit("attack_affected_by_quality");
    reveal_strlit("magic");
    reveal_strlit("magic_affected_by_quality");
    reveal_strlit("defense");
    reveal_strlit("defense_affected_by_quality");
    reveal_strlit("resistance");
    reveal_strlit("resistance_affected_by_quality");
    reveal_strlit("dexterity");
    reveal_strlit("dexterity_affected_by_quality");
    reveal_strlit("ward");
    reveal_strlit("ward_affected_by_quality");
    reveal_strlit("crit");
    reveal_strlit("crit_affected_by_quality");
    reveal_strlit("foresight");
    reveal_strlit("view_distance");
    reveal_strlit("follower_stats");
    reveal_strlit("follower_act");
    reveal_strlit("status_infliction");
    reveal_strlit("status_protection");
    reveal_strlit("mana_saver");
    reveal_strlit("potion_effectiveness");
    reveal_strlit("has_slots");
    reveal_strlit("base_adornment_slots");
    reveal_strlit("rarity");
    reveal_strlit("element");
    reveal_strlit("equipped_by");
    reveal_strlit("two_handed");
    reveal_strlit("orn_bonus");
    reveal_strlit("gold_bonus");
    reveal_strlit("drop_bonus");
    reveal_strlit("spawn_bonus");
    reveal_strlit("exp_bonus");
    reveal_strlit("boss");
    reveal_strlit("arena");
    reveal_strlit("category");
    reveal_strlit("causes");
    reveal_strlit("cures");
    reveal_strlit("gives");
    reveal_strlit("prevents");
    reveal_strlit("materials");
    reveal_strlit("price");
    reveal_strlit("ability");
}

/// Reading the fields `b` after the fields `a` reads `a`, then `b`.
proof fn lemma_item_form_shift(w: AdminItemView, a: Seq<(Seq<char>, Seq<char>)>, b: Seq<(Seq<char>, Seq<char>)>, j: int)
    requires
        0 <= j <= b.len(),
    ensures
        item_form(w, a + b, a.len() + j) == item_form(w, b, j),
    decreases b.len() - j,
{
    reveal(item_form);
    if j < b.len() {
        assert((a + b)[a.len() + j] == b[j]);
        match item_field(w, b[j].0, b[j].1) {
            Ok(x) => lemma_item_form_shift(x, a, b, j + 1),
            Err(_) => {},
        }
    }
}

/// Reading the fields of `a + b` from index `i` of `a` on.
proof fn lemma_item_form_concat_from(w: AdminItemView, a: Seq<(Seq<char>, Seq<char>)>, b: Seq<(Seq<char>, Seq<char>)>, i: int)
    requires
        0 <= i <= a.len(),
    ensures
        item_form(w, a + b, i) == match item_form(w, a, i) {
            Ok(x) => item_form(x, b, 0),
            Err(e) => Err(e),
        },
    decreases a.len() - i,
{
    reveal(item_form);
    if i == a.len() {
        lemma_item_form_shift(w, a, b, 0);
    } else {
        assert((a + b)[i] == a[i]);
        match item_field(w, a[i].0, a[i].1) {
            Ok(x) => lemma_item_form_concat_from(x, a, b, i + 1),
            Err(_) => {},
        }
    }
}

/// Reading the fields of `a + b` reads those of `a`, then those of `b`.
proof fn lemma_item_form_concat(w: AdminItemView, a: Seq<(Seq<char>, Seq<char>)>, b: Seq<(Seq<char>, Seq<char>)>)
    ensures
        item_form(w, a + b, 0) == match item_form(w, a, 0) {
            Ok(x) => item_form(x, b, 0),
            Err(e) => Err(e),
        },
{
    lemma_item_form_concat_from(w, a, b, 0);
}

/// Reading a form of one field reads that field.
proof fn lemma_item_form_one(w: AdminItemView, key: Seq<char>, value: Seq<char>)
    ensures
        item_form(w, seq![(key, value)], 0) == item_field(w, key, value),
{
    reveal(item_form);
    match item_field(w, key, value) {
        Ok(x) => assert(item_form(x, seq![(key, value)], 1) == Ok::<AdminItemView, FormFailure>(x)),
        Err(_) => {},
    }
}

/// Reading the `equipped_by` fields appends their ids to that list.
proof fn lemma_item_form_equipped_by(w: AdminItemView, ids: Seq<u32>)
    ensures
        item_form(w, id_fields("equipped_by"@, ids), 0) == Ok::<AdminItemView, FormFailure>(AdminItemView { relations: ItemRelations { equipped_by: w.relations.equipped_by + ids, ..w.relations }, ..w }),
    decreases ids.len(),
{
    lemma_item_keys();
    reveal(item_stat_field);
    reveal(item_more_stat_field);
    reveal(item_bonus_field);
    reveal(item_relation_field);
    if ids.len() == 0 {
        reveal(item_form);
        assert(id_fields("equipped_by"@, ids) =~= Seq::<(Seq<char>, Seq<char>)>::empty());
        assert(w.relations.equipped_by + ids =~= w.relations.equipped_by);
    } else {
        let front = ids.drop_last();
        let x = ids.last();
        assert(id_fields("equipped_by"@, ids) =~= id_fields("equipped_by"@, front) + seq![("equipped_by"@, spec_dec(x as nat))]);
        lemma_item_form_equipped_by(w, front);
        lemma_item_form_concat(w, id_fields("equipped_by"@, front), seq![("equipped_by"@, spec_dec(x as nat))]);
        lemma_item_form_one(AdminItemView { relations: ItemRelations { equipped_by: w.relations.equipped_by + front, ..w.relations }, ..w }, "equipped_by"@, spec_dec(x as nat));
        lemma_form_int_dec(x as nat, 0xffff_ffff);
        assert((w.relations.equipped_by + front).push(x) =~= w.relations.equipped_by + ids);
    }
}

/// Reading the `causes` fields appends their ids to that list.
proof fn lemma_item_form_causes(w: AdminItemView, ids: Seq<u32>)
    ensures
        item_form(w, id_fields("causes"@, ids), 0) == Ok::<AdminItemView, FormFailure>(AdminItemView { relations: ItemRelations { causes: w.relations.causes + ids, ..w.relations }, ..w }),
    decreases ids.len(),
{
    lemma_item_keys();
    reveal(item_stat_field);
    reveal(item_more_stat_field);
    reveal(item_bonus_field);
    reveal(item_relation_field);
    if ids.len() == 0 {
        reveal(item_form);
        assert(id_fields("causes"@, ids) =~= Seq::<(Seq<char>, Seq<char>)>::empty());
        assert(w.relations.causes + ids =~= w.relations.causes);
    } else {
        let front = ids.drop_last();
        let x = ids.last();
        assert(id_fields("causes"@, ids) =~= id_fields("causes"@, front) + seq![("causes"@, spec_dec(x as nat))]);
        lemma_item_form_causes(w, front);
        lemma_item_form_concat(w, id_fields("causes"@, front), seq![("causes"@, spec_dec(x as nat))]);
        lemma_item_form_one(AdminItemView { relations: ItemRelations { causes: w.relations.causes + front, ..w.relations }, ..w }, "causes"@, spec_dec(x as nat));
        lemma_form_int_dec(x as nat, 0xffff_ffff);
        assert((w.relations.causes + front).push(x) =~= w.relations.causes + ids);
    }
}

/// Reading the `cures` fields appends their ids to that list.
proof fn lemma_item_form_cures(w: AdminItemView, ids: Seq<u32>)
    ensures
        item_form(w, id_fields("cures"@, ids), 0) == Ok::<AdminItemView, FormFailure>(AdminItemView { relations: ItemRelations { cures: w.relations.cures + ids, ..w.relations }, ..w }),
    decreases ids.len(),
{
    lemma_item_keys();
    reveal(item_stat_field);
    reveal(item_more_stat_field);
    reveal(item_bonus_field);
    reveal(item_relation_field);
    if ids.len() == 0 {
        reveal(item_form);
        assert(id_fields("cures"@, ids) =~= Seq::<(Seq<char>, Seq<char>)>::empty());
        assert(w.relations.cures + ids =~= w.relations.cures);
    } else {
        let front = ids.drop_last();
        let x = ids.last();
        assert(id_fields("cures"@, ids) =~= id_fields("cures"@, front) + seq![("cures"@, spec_dec(x as nat))]);
        lemma_item_form_cures(w, front);
        lemma_item_form_concat(w, id_fields("cures"@, front), seq![("cures"@, spec_dec(x as nat))]);
        lemma_item_form_one(AdminItemView { relations: ItemRelations { cures: w.relations.cures + front, ..w.relations }, ..w }, "cures"@, spec_dec(x as nat));
        lemma_form_int_dec(x as nat, 0xffff_ffff);
        assert((w.relations.cures + front).push(x) =~= w.relations.cures + ids);
    }
}

/// Reading the `gives` fields appends their ids to that list.
proof fn lemma_item_form_gives(w: AdminItemView, ids: Seq<u32>)
    ensures
        item_form(w, id_fields("gives"@, ids), 0) == Ok::<AdminItemView, FormFailure>(AdminItemView { relations: ItemRelations { gives: w.relations.gives + ids, ..w.relations }, ..w }),
    decreases ids.len(),
{
    lemma_item_keys();
    reveal(item_stat_field);
    reveal(item_more_stat_field);
    reveal(item_bonus_field);
    reveal(item_relation_field);
    if ids.len() == 0 {
        reveal(item_form);
        assert(id_fields("gives"@, ids) =~= Seq::<(Seq<char>, Seq<char>)>::empty());
        assert(w.relations.gives + ids =~= w.relations.gives);
    } else {
        let front = ids.drop_last();
        let x = ids.last();
        assert(id_fields("gives"@, ids) =~= id_fields("gives"@, front) + seq![("gives"@, spec_dec(x as nat))]);
        lemma_item_form_gives(w, front);
        lemma_item_form_concat(w, id_fields("gives"@, front), seq![("gives"@, spec_dec(x as nat))]);
        lemma_item_form_one(AdminItemView { relations: ItemRelations { gives: w.relations.gives + front, ..w.relations }, ..w }, "gives"@, spec_dec(x as nat));
        lemma_form_int_dec(x as nat, 0xffff_ffff);
        assert((w.relations.gives + front).push(x) =~= w.relations.gives + ids);
    }
}

/// Reading the `prevents` fields appends their ids to that list.
proof fn lemma_item_form_prevents(w: AdminItemView, ids: Seq<u32>)
    ensures
        item_form(w, id_fields("prevents"@, ids), 0) == Ok::<AdminItemView, FormFailure>(AdminItemView { relations: ItemRelations { prevents: w.relations.prevents + ids, ..w.relations }, ..w }),
    decreases ids.len(),
{
    lemma_item_keys();
    reveal(item_stat_field);
    reveal(item_more_stat_field);
    reveal(item_bonus_field);
    reveal(item_relation_field);
    if ids.len() == 0 {
        reveal(item_form);
        assert(id_fields("prevents"@, ids) =~= Seq::<(Seq<char>, Seq<char>)>::empty());
        assert(w.relations.prevents + ids =~= w.relations.prevents);
    } else {
        let front = ids.drop_last();
        let x = ids.last();
        assert(id_fields("prevents"@, ids) =~= id_fields("prevents"@, front) + seq![("prevents"@, spec_dec(x as nat))]);
        lemma_item_form_prevents(w, front);
        lemma_item_form_concat(w, id_fields("prevents"@, front), seq![("prevents"@, spec_dec(x as nat))]);
        lemma_item_form_one(AdminItemView { relations: ItemRelations { prevents: w.relations.prevents + front, ..w.relations }, ..w }, "prevents"@, spec_dec(x as nat));
        lemma_form_int_dec(x as nat, 0xffff_ffff);
        assert((w.relations.prevents + front).push(x) =~= w.relations.prevents + ids);
    }
}

/// Reading the `materials` fields appends their ids to that list.
proof fn lemma_item_form_materials(w: AdminItemView, ids: Seq<u32>)
    ensures
        item_form(w, id_fields("materials"@, ids), 0) == Ok::<AdminItemView, FormFailure>(AdminItemView { relations: ItemRelations { materials: w.relations.materials + ids, ..w.relations }, ..w }),
    decreases ids.len(),
{
    lemma_item_keys();
    reveal(item_stat_field);
    reveal(item_more_stat_field);
    reveal(item_bonus_field);
    reveal(item_relation_field);
    if ids.len() == 0 {
        reveal(item_form);
        assert(id_fields("materials"@, ids) =~= Seq::<(Seq<char>, Seq<char>)>::empty());
        assert(w.relations.materials + ids =~= w.relations.materials);
    } else {
        let front = ids.drop_last();
        let x = ids.last();
        assert(id_fields("materials"@, ids) =~= id_fields("materials"@, front) + seq![("materials"@, spec_dec(x as nat))]);
        lemma_item_form_materials(w, front);
        lemma_item_form_concat(w, id_fields("materials"@, front), seq![("materials"@, spec_dec(x as nat))]);
        lemma_item_form_one(AdminItemView { relations: ItemRelations { materials: w.relations.materials + front, ..w.relations }, ..w }, "materials"@, spec_dec(x as nat));
        lemma_form_int_dec(x as nat, 0xffff_ffff);
        assert((w.relations.materials + front).push(x) =~= w.relations.materials + ids);
    }
}

/// Reading the `codex` field sets `codex_uri`.
proof fn lemma_item_read_codex_uri(w: AdminItemView, x: Seq<char>)
    ensures
        item_form(w, seq![("codex"@, x)], 0) == Ok::<AdminItemView, FormFailure>(AdminItemView { head: ItemHead { codex_uri: x, ..w.head }, ..w }),
{
    lemma_item_keys();
    lemma_item_form_one(w, "codex"@, x);
}

/// Reading the `name` field sets `name`.
proof fn lemma_item_read_name(w: AdminItemView, x: Seq<char>)
    ensures
        item_form(w, seq![("name"@, x)], 0) == Ok::<AdminItemView, FormFailure>(AdminItemView { head: ItemHead { name: x, ..w.head }, ..w }),
{
    lemma_item_keys();
    lemma_item_form_one(w, "name"@, x);
}

/// Reading the `tier` field sets `tier`.
proof fn lemma_item_read_tier(w: AdminItemView, x: u8)
    ensures
        item_form(w, seq![("tier"@, spec_dec(x as nat))], 0) == Ok::<AdminItemView, FormFailure>(AdminItemView { head: ItemHead { tier: x, ..w.head }, ..w }),
{
    lemma_item_keys();
    lemma_form_int_dec(x as nat, 255);
    lemma_item_form_one(w, "tier"@, spec_dec(x as nat));
}

/// Reading the `type` field sets `type_`.
proof fn lemma_item_read_type_(w: AdminItemView, x: u32)
    ensures
        item_form(w, seq![("type"@, spec_dec(x as nat))], 0) == Ok::<AdminItemView, FormFailure>(AdminItemView { head: ItemHead { type_: x, ..w.head }, ..w }),
{
    lemma_item_keys();
    lemma_form_int_dec(x as nat, 0xffff_ffff);
    lemma_item_form_one(w, "type"@, spec_dec(x as nat));
}

/// Reading the `image_name` field sets `image_name`.
proof fn lemma_item_read_image_name(w: AdminItemView, x: Seq<char>)
    ensures
        item_form(w, seq![("image_name"@, x)], 0) == Ok::<AdminItemView, FormFailure>(AdminItemView { head: ItemHead { image_name: x, ..w.head }, ..w }),
{
    lemma_item_keys();
    lemma_item_form_one(w, "image_name"@, x);
}

/// Reading the `description` field sets `description`.
proof fn lemma_item_read_description(w: AdminItemView, x: Seq<char>)
    ensures
        item_form(w, seq![("description"@, x)], 0) == Ok::<AdminItemView, FormFailure>(AdminItemView { head: ItemHead { description: x, ..w.head }, ..w }),
{
    lemma_item_keys();
    lemma_item_form_one(w, "description"@, x);
}

/// Reading the `notes` field sets `notes`.
proof fn lemma_item_read_notes(w: AdminItemView, x: Seq<char>)
    ensures
        item_form(w, seq![("notes"@, x)], 0) == Ok::<AdminItemView, FormFailure>(AdminItemView { head: ItemHead { notes: x, ..w.head }, ..w }),
{
    lemma_item_keys();
    lemma_item_form_one(w, "notes"@, x);
}

/// Reading the `hp` field sets `hp`.
proof fn lemma_item_read_hp(w: AdminItemView, x: i16)
    ensures
        item_form(w, seq![("hp"@, spec_int_text(x as int))], 0) == Ok::<AdminItemView, FormFailure>(AdminItemView { stats: ItemStats { hp: x, ..w.stats }, ..w }),
{
    lemma_item_keys();
    reveal(item_stat_field);
    lemma_form_int_text(x as int, -32768, 32767);
    lemma_item_form_one(w, "hp"@, spec_int_text(x as int));
}

/// Reading the `hp_affected_by_quality` field, there when `x` holds, turns `hp_affected_by_quality` on then.
proof fn lemma_item_read_hp_affected_by_quality(w: AdminItemView, x: bool)
    ensures
        item_form(w, flag_field("hp_affected_by_quality"@, x), 0) == Ok::<AdminItemView, FormFailure>(AdminItemView { stats: ItemStats { hp_affected_by_quality: w.stats.hp_affected_by_quality || x, ..w.stats }, ..w }),
{
    lemma_item_keys();
    reveal(item_stat_field);
    reveal(flag_field);
    reveal_strlit("on");
    if x {
        lemma_item_form_one(w, "hp_affected_by_quality"@, "on"@);
    } else {
        reveal(item_form);
        assert(flag_field("hp_affected_by_quality"@, x) =~= Seq::<(Seq<char>, Seq<char>)>::empty());
        assert(AdminItemView { stats: ItemStats { hp_affected_by_quality: w.stats.hp_affected_by_quality || x, ..w.stats }, ..w } == w);
    }
}

/// Reading the `mana` field sets `mana`.
proof fn lemma_item_read_mana(w: AdminItemView, x: i16)
    ensures
        item_form(w, seq![("mana"@, spec_int_text(x as int))], 0) == Ok::<AdminItemView, FormFailure>(AdminItemView { stats: ItemStats { mana: x, ..w.stats }, ..w }),
{
    lemma_item_keys();
    reveal(item_stat_field);
    lemma_form_int_text(x as int, -32768, 32767);
    lemma_item_form_one(w, "mana"@, spec_int_text(x as int));
}

/// Reading the `mana_affected_by_quality` field, there when `x` holds, turns `mana_affected_by_quality` on then.
proof fn lemma_item_read_mana_affected_by_quality(w: AdminItemView, x: bool)
    ensures
        item_form(w, flag_field("mana_affected_by_quality"@, x), 0) == Ok::<AdminItemView, FormFailure>(AdminItemView { stats: ItemStats { mana_affected_by_quality: w.stats.mana_affected_by_quality || x, ..w.stats }, ..w }),
{
    lemma_item_keys();
    reveal(item_stat_field);
    reveal(flag_field);
    reveal_strlit("on");
    if x {
        lemma_item_form_one(w, "mana_affected_by_quality"@, "on"@);
    } else {
        reveal(item_form);
        assert(flag_field("mana_affected_by_quality"@, x) =~= Seq::<(Seq<char>, Seq<char>)>::empty());
        assert(AdminItemView { stats: ItemStats { mana_affected_by_quality: w.stats.mana_affected_by_quality || x, ..w.stats }, ..w } == w);
    }
}

/// Reading the `attack` field sets `attack`.
proof fn lemma_item_read_attack(w: AdminItemView, x: i16)
    ensures
        item_form(w, seq![("attack"@, spec_int_text(x as int))], 0) == Ok::<AdminItemView, FormFailure>(AdminItemView { stats: ItemStats { attack: x, ..w.stats }, ..w }),
{
    lemma_item_keys();
    reveal(item_stat_field);
    lemma_form_int_text(x as int, -32768, 32767);
    lemma_item_form_one(w, "attack"@, spec_int_text(x as int));
}

/// Reading the `attack_affected_by_quality` field, there when `x` holds, turns `attack_affected_by_quality` on then.
proof fn lemma_item_read_attack_affected_by_quality(w: AdminItemView, x: bool)
    ensures
        item_form(w, flag_field("attack_affected_by_quality"@, x), 0) == Ok::<AdminItemView, FormFailure>(AdminItemView { stats: ItemStats { attack_affected_by_quality: w.stats.attack_affected_by_quality || x, ..w.stats }, ..w }),
{
    lemma_item_keys();
    reveal(item_stat_field);
    reveal(flag_field);
    reveal_strlit("on");
    if x {
        lemma_item_form_one(w, "attack_affected_by_quality"@, "on"@);
    } else {
        reveal(item_form);
        assert(flag_field("attack_affected_by_quality"@, x) =~= Seq::<(Seq<char>, Seq<char>)>::empty());
        assert(AdminItemView { stats: ItemStats { attack_affected_by_quality: w.stats.attack_affected_by_quality || x, ..w.stats }, ..w } == w);
    }
}

/// Reading the `magic` field sets `magic`.
proof fn lemma_item_read_magic(w: AdminItemView, x: i16)
    ensures
        item_form(w, seq![("magic"@, spec_int_text(x as int))], 0) == Ok::<AdminItemView, FormFailure>(AdminItemView { stats: ItemStats { magic: x, ..w.stats }, ..w }),
{
    lemma_item_keys();
    reveal(item_stat_field);
    lemma_form_int_text(x as int, -32768, 32767);
    lemma_item_form_one(w, "magic"@, spec_int_text(x as int));
}

/// Reading the `magic_affected_by_quality` field, there when `x` holds, turns `magic_affected_by_quality` on then.
proof fn lemma_item_read_magic_affected_by_quality(w: AdminItemView, x: bool)
    ensures
        item_form(w, flag_field("magic_affected_by_quality"@, x), 0) == Ok::<AdminItemView, FormFailure>(AdminItemView { stats: ItemStats { magic_affected_by_quality: w.stats.magic_affected_by_quality || x, ..w.stats }, ..w }),
{
    lemma_item_keys();
    reveal(item_stat_field);
    reveal(flag_field);
    reveal_strlit("on");
    if x {
        lemma_item_form_one(w, "magic_affected_by_quality"@, "on"@);
    } else {
        reveal(item_form);
        assert(flag_field("magic_affected_by_quality"@, x) =~= Seq::<(Seq<char>, Seq<char>)>::empty());
        assert(AdminItemView { stats: ItemStats { magic_affected_by_quality: w.stats.magic_affected_by_quality || x, ..w.stats }, ..w } == w);
    }
}

/// Reading the `defense` field sets `defense`.
proof fn lemma_item_read_defense(w: AdminItemView, x: i16)
    ensures
        item_form(w, seq![("defense"@, spec_int_text(x as int))], 0) == Ok::<AdminItemView, FormFailure>(AdminItemView { more_stats: ItemMoreStats { defense: x, ..w.more_stats }, ..w }),
{
    lemma_item_keys();
    reveal(item_stat_field);
    reveal(item_more_stat_field);
    lemma_form_int_text(x as int, -32768, 32767);
    lemma_item_form_one(w, "defense"@, spec_int_text(x as int));
}

/// Reading the `defense_affected_by_quality` field, there when `x` holds, turns `defense_affected_by_quality` on then.
proof fn lemma_item_read_defense_affected_by_quality(w: AdminItemView, x: bool)
    ensures
        item_form(w, flag_field("defense_affected_by_quality"@, x), 0) == Ok::<AdminItemView, FormFailure>(AdminItemView { more_stats: ItemMoreStats { defense_affected_by_quality: w.more_stats.defense_affected_by_quality || x, ..w.more_stats }, ..w }),
{
    lemma_item_keys();
    reveal(item_stat_field);
    reveal(item_more_stat_field);
    reveal(flag_field);
    reveal_strlit("on");
    if x {
        lemma_item_form_one(w, "defense_affected_by_quality"@, "on"@);
    } else {
        reveal(item_form);
        assert(flag_field("defense_affected_by_quality"@, x) =~= Seq::<(Seq<char>, Seq<char>)>::empty());
        assert(AdminItemView { more_stats: ItemMoreStats { defense_affected_by_quality: w.more_stats.defense_affected_by_quality || x, ..w.more_stats }, ..w } == w);
    }
}

/// Reading the `resistance` field sets `resistance`.
proof fn lemma_item_read_resistance(w: AdminItemView, x: i16)
    ensures
        item_form(w, seq![("resistance"@, spec_int_text(x as int))], 0) == Ok::<AdminItemView, FormFailure>(AdminItemView { more_stats: ItemMoreStats { resistance: x, ..w.more_stats }, ..w }),
{
    lemma_item_keys();
    reveal(item_stat_field);
    reveal(item_more_stat_field);
    lemma_form_int_text(x as int, -32768, 32767);
    lemma_item_form_one(w, "resistance"@, spec_int_text(x as int));
}

/// Reading the `resistance_affected_by_quality` field, there when `x` holds, turns `resistance_affected_by_quality` on then.
proof fn lemma_item_read_resistance_affected_by_quality(w: AdminItemView, x: bool)
    ensures
        item_form(w, flag_field("resistance_affected_by_quality"@, x), 0) == Ok::<AdminItemView, FormFailure>(AdminItemView { more_stats: ItemMoreStats { resistance_affected_by_quality: w.more_stats.resistance_affected_by_quality || x, ..w.more_stats }, ..w }),
{
    lemma_item_keys();
    reveal(item_stat_field);
    reveal(item_more_stat_field);
    reveal(flag_field);
    reveal_strlit("on");
    if x {
        lemma_item_form_one(w, "resistance_affected_by_quality"@, "on"@);
    } else {
        reveal(item_form);
        assert(flag_field("resistance_affected_by_quality"@, x) =~= Seq::<(Seq<char>, Seq<char>)>::empty());
        assert(AdminItemView { more_stats: ItemMoreStats { resistance_affected_by_quality: w.more_stats.resistance_affected_by_quality || x, ..w.more_stats }, ..w } == w);
    }
}

/// Reading the `dexterity` field sets `dexterity`.
proof fn lemma_item_read_dexterity(w: AdminItemView, x: i16)
    ensures
        item_form(w, seq![("dexterity"@, spec_int_text(x as int))], 0) == Ok::<AdminItemView, FormFailure>(AdminItemView { more_stats: ItemMoreStats { dexterity: x, ..w.more_stats }, ..w }),
{
    lemma_item_keys();
    reveal(item_stat_field);
    reveal(item_more_stat_field);
    lemma_form_int_text(x as int, -32768, 32767);
    lemma_item_form_one(w, "dexterity"@, spec_int_text(x as int));
}

/// Reading the `dexterity_affected_by_quality` field, there when `x` holds, turns `dexterity_affected_by_quality` on then.
proof fn lemma_item_read_dexterity_affected_by_quality(w: AdminItemView, x: bool)
    ensures
        item_form(w, flag_field("dexterity_affected_by_quality"@, x), 0) == Ok::<AdminItemView, FormFailure>(AdminItemView { more_stats: ItemMoreStats { dexterity_affected_by_quality: w.more_stats.dexterity_affected_by_quality || x, ..w.more_stats }, ..w }),
{
    lemma_item_keys();
    reveal(item_stat_field);
    reveal(item_more_stat_field);
    reveal(flag_field);
    reveal_strlit("on");
    if x {
        lemma_item_form_one(w, "dexterity_affected_by_quality"@, "on"@);
    } else {
        reveal(item_form);
        assert(flag_field("dexterity_affected_by_quality"@, x) =~= Seq::<(Seq<char>, Seq<char>)>::empty());
        assert(AdminItemView { more_stats: ItemMoreStats { dexterity_affected_by_quality: w.more_stats.dexterity_affected_by_quality || x, ..w.more_stats }, ..w } == w);
    }
}

/// Reading the `ward` field sets `ward`.
proof fn lemma_item_read_ward(w: AdminItemView, x: i8)
    ensures
        item_form(w, seq![("ward"@, spec_int_text(x as int))], 0) == Ok::<AdminItemView, FormFailure>(AdminItemView { more_stats: ItemMoreStats { ward: x, ..w.more_stats }, ..w }),
{
    lemma_item_keys();
    reveal(item_stat_field);
    reveal(item_more_stat_field);
    lemma_form_int_text(x as int, -128, 127);
    lemma_item_form_one(w, "ward"@, spec_int_text(x as int));
}

/// Reading the `ward_affected_by_quality` field, there when `x` holds, turns `ward_affected_by_quality` on then.
proof fn lemma_item_read_ward_affected_by_quality(w: AdminItemView, x: bool)
    ensures
        item_form(w, flag_field("ward_affected_by_quality"@, x), 0) == Ok::<AdminItemView, FormFailure>(AdminItemView { more_stats: ItemMoreStats { ward_affected_by_quality: w.more_stats.ward_affected_by_quality || x, ..w.more_stats }, ..w }),
{
    lemma_item_keys();
    reveal(item_stat_field);
    reveal(item_more_stat_field);
    reveal(flag_field);
    reveal_strlit("on");
    if x {
        lemma_item_form_one(w, "ward_affected_by_quality"@, "on"@);
    } else {
        reveal(item_form);
        assert(flag_field("ward_affected_by_quality"@, x) =~= Seq::<(Seq<char>, Seq<char>)>::empty());
        assert(AdminItemView { more_stats: ItemMoreStats { ward_affected_by_quality: w.more_stats.ward_affected_by_quality || x, ..w.more_stats }, ..w } == w);
    }
}

/// Reading the `crit` field sets `crit`.
proof fn lemma_item_read_crit(w: AdminItemView, x: u8)
    ensures
        item_form(w, seq![("crit"@, spec_dec(x as nat))], 0) == Ok::<AdminItemView, FormFailure>(AdminItemView { more_stats: ItemMoreStats { crit: x, ..w.more_stats }, ..w }),
{
    lemma_item_keys();
    reveal(item_stat_field);
    reveal(item_more_stat_field);
    lemma_form_int_dec(x as nat, 255);
    lemma_item_form_one(w, "crit"@, spec_dec(x as nat));
}

/// Reading the `crit_affected_by_quality` field, there when `x` holds, turns `crit_affected_by_quality` on then.
proof fn lemma_item_read_crit_affected_by_quality(w: AdminItemView, x: bool)
    ensures
        item_form(w, flag_field("crit_affected_by_quality"@, x), 0) == Ok::<AdminItemView, FormFailure>(AdminItemView { more_stats: ItemMoreStats { crit_affected_by_quality: w.more_stats.crit_affected_by_quality || x, ..w.more_stats }, ..w }),
{
    lemma_item_keys();
    reveal(item_stat_field);
    reveal(item_more_stat_field);
    reveal(flag_field);
    reveal_strlit("on");
    if x {
        lemma_item_form_one(w, "crit_affected_by_quality"@, "on"@);
    } else {
        reveal(item_form);
        assert(flag_field("crit_affected_by_quality"@, x) =~= Seq::<(Seq<char>, Seq<char>)>::empty());
        assert(AdminItemView { more_stats: ItemMoreStats { crit_affected_by_quality: w.more_stats.crit_affected_by_quality || x, ..w.more_stats }, ..w } == w);
    }
}

/// Reading the `foresight` field sets `foresight`.
proof fn lemma_item_read_foresight(w: AdminItemView, x: i16)
    ensures
        item_form(w, seq![("foresight"@, spec_int_text(x as int))], 0) == Ok::<AdminItemView, FormFailure>(AdminItemView { bonuses: ItemBonuses { foresight: x, ..w.bonuses }, ..w }),
{
    lemma_item_keys();
    reveal(item_stat_field);
    reveal(item_more_stat_field);
    reveal(item_bonus_field);
    lemma_form_int_text(x as int, -32768, 32767);
    lemma_item_form_one(w, "foresight"@, spec_int_text(x as int));
}

/// Reading the `view_distance` field sets `view_distance`.
proof fn lemma_item_read_view_distance(w: AdminItemView, x: u32)
    ensures
        item_form(w, seq![("view_distance"@, spec_dec(x as nat))], 0) == Ok::<AdminItemView, FormFailure>(AdminItemView { bonuses: ItemBonuses { view_distance: x, ..w.bonuses }, ..w }),
{
    lemma_item_keys();
    reveal(item_stat_field);
    reveal(item_more_stat_field);
    reveal(item_bonus_field);
    lemma_form_int_dec(x as nat, 0xffff_ffff);
    lemma_item_form_one(w, "view_distance"@, spec_dec(x as nat));
}

/// Reading the `follower_stats` field sets `follower_stats`.
proof fn lemma_item_read_follower_stats(w: AdminItemView, x: u32)
    ensures
        item_form(w, seq![("follower_stats"@, spec_dec(x as nat))], 0) == Ok::<AdminItemView, FormFailure>(AdminItemView { bonuses: ItemBonuses { follower_stats: x, ..w.bonuses }, ..w }),
{
    lemma_item_keys();
    reveal(item_stat_field);
    reveal(item_more_stat_field);
    reveal(item_bonus_field);
    lemma_form_int_dec(x as nat, 0xffff_ffff);
    lemma_item_form_one(w, "follower_stats"@, spec_dec(x as nat));
}

/// Reading the `follower_act` field sets `follower_act`.
proof fn lemma_item_read_follower_act(w: AdminItemView, x: i32)
    ensures
        item_form(w, seq![("follower_act"@, spec_int_text(x as int))], 0) == Ok::<AdminItemView, FormFailure>(AdminItemView { bonuses: ItemBonuses { follower_act: x, ..w.bonuses }, ..w }),
{
    lemma_item_keys();
    reveal(item_stat_field);
    reveal(item_more_stat_field);
    reveal(item_bonus_field);
    lemma_form_int_text(x as int, -0x8000_0000, 0x7fff_ffff);
    lemma_item_form_one(w, "follower_act"@, spec_int_text(x as int));
}

/// Reading the `status_infliction` field sets `status_infliction`.
proof fn lemma_item_read_status_infliction(w: AdminItemView, x: u32)
    ensures
        item_form(w, seq![("status_infliction"@, spec_dec(x as nat))], 0) == Ok::<AdminItemView, FormFailure>(AdminItemView { bonuses: ItemBonuses { status_infliction: x, ..w.bonuses }, ..w }),
{
    lemma_item_keys();
    reveal(item_stat_field);
    reveal(item_more_stat_field);
    reveal(item_bonus_field);
    lemma_form_int_dec(x as nat, 0xffff_ffff);
    lemma_item_form_one(w, "status_infliction"@, spec_dec(x as nat));
}

/// Reading the `status_protection` field sets `status_protection`.
proof fn lemma_item_read_status_protection(w: AdminItemView, x: u32)
    ensures
        item_form(w, seq![("status_protection"@, spec_dec(x as nat))], 0) == Ok::<AdminItemView, FormFailure>(AdminItemView { bonuses: ItemBonuses { status_protection: x, ..w.bonuses }, ..w }),
{
    lemma_item_keys();
    reveal(item_stat_field);
    reveal(item_more_stat_field);
    reveal(item_bonus_field);
    lemma_form_int_dec(x as nat, 0xffff_ffff);
    lemma_item_form_one(w, "status_protection"@, spec_dec(x as nat));
}

/// Reading the `mana_saver` field sets `mana_saver`.
proof fn lemma_item_read_mana_saver(w: AdminItemView, x: i8)
    ensures
        item_form(w, seq![("mana_saver"@, spec_int_text(x as int))], 0) == Ok::<AdminItemView, FormFailure>(AdminItemView { bonuses: ItemBonuses { mana_saver: x, ..w.bonuses }, ..w }),
{
    lemma_item_keys();
    reveal(item_stat_field);
    reveal(item_more_stat_field);
    reveal(item_bonus_field);
    lemma_form_int_text(x as int, -128, 127);
    lemma_item_form_one(w, "mana_saver"@, spec_int_text(x as int));
}

/// Reading the `potion_effectiveness` field sets `potion_effectiveness`.
proof fn lemma_item_read_potion_effectiveness(w: AdminItemView, x: u8)
    ensures
        item_form(w, seq![("potion_effectiveness"@, spec_dec(x as nat))], 0) == Ok::<AdminItemView, FormFailure>(AdminItemView { bonuses: ItemBonuses { potion_effectiveness: x, ..w.bonuses }, ..w }),
{
    lemma_item_keys();
    reveal(item_stat_field);
    reveal(item_more_stat_field);
    reveal(item_bonus_field);
    lemma_form_int_dec(x as nat, 255);
    lemma_item_form_one(w, "potion_effectiveness"@, spec_dec(x as nat));
}

/// Reading the `has_slots` field, there when `x` holds, turns `has_slots` on then.
proof fn lemma_item_read_has_slots(w: AdminItemView, x: bool)
    ensures
        item_form(w, flag_field("has_slots"@, x), 0) == Ok::<AdminItemView, FormFailure>(AdminItemView { bonuses: ItemBonuses { has_slots: w.bonuses.has_slots || x, ..w.bonuses }, ..w }),
{
    lemma_item_keys();
    reveal(item_stat_field);
    reveal(item_more_stat_field);
    reveal(item_bonus_field);
    reveal(flag_field);
    reveal_strlit("on");
    if x {
        lemma_item_form_one(w, "has_slots"@, "on"@);
    } else {
        reveal(item_form);
        assert(flag_field("has_slots"@, x) =~= Seq::<(Seq<char>, Seq<char>)>::empty());
        assert(AdminItemView { bonuses: ItemBonuses { has_slots: w.bonuses.has_slots || x, ..w.bonuses }, ..w } == w);
    }
}

/// Reading the `base_adornment_slots` field sets `base_adornment_slots`.
proof fn lemma_item_read_base_adornment_slots(w: AdminItemView, x: u8)
    ensures
        item_form(w, seq![("base_adornment_slots"@, spec_dec(x as nat))], 0) == Ok::<AdminItemView, FormFailure>(AdminItemView { bonuses: ItemBonuses { base_adornment_slots: x, ..w.bonuses }, ..w }),
{
    lemma_item_keys();
    reveal(item_stat_field);
    reveal(item_more_stat_field);
    reveal(item_bonus_field);
    lemma_form_int_dec(x as nat, 255);
    lemma_item_form_one(w, "base_adornment_slots"@, spec_dec(x as nat));
}

/// Reading the `rarity` field sets `rarity`.
proof fn lemma_item_read_rarity(w: AdminItemView, x: Seq<char>)
    ensures
        item_form(w, seq![("rarity"@, x)], 0) == Ok::<AdminItemView, FormFailure>(AdminItemView { bonuses: ItemBonuses { rarity: x, ..w.bonuses }, ..w }),
{
    lemma_item_keys();
    reveal(item_stat_field);
    reveal(item_more_stat_field);
    reveal(item_bonus_field);
    lemma_item_form_one(w, "rarity"@, x);
}

/// Reading the `element` field sets `element`.
proof fn lemma_item_read_element(w: AdminItemView, x: Option<u32>)
    ensures
        item_form(w, seq![("element"@, opt_dec(x))], 0) == Ok::<AdminItemView, FormFailure>(AdminItemView { relations: ItemRelations { element: x, ..w.relations }, ..w }),
{
    lemma_item_keys();
    reveal(item_stat_field);
    reveal(item_more_stat_field);
    reveal(item_bonus_field);
    reveal(item_relation_field);
    if let Some(i) = x {
        lemma_form_int_dec(i as nat, 0xffff_ffff);
        crate::num::lemma_dec_nonempty(i as nat);
    }
    lemma_item_form_one(w, "element"@, opt_dec(x));
}

/// Reading the `two_handed` field, there when `x` holds, turns `two_handed` on then.
proof fn lemma_item_read_two_handed(w: AdminItemView, x: bool)
    ensures
        item_form(w, flag_field("two_handed"@, x), 0) == Ok::<AdminItemView, FormFailure>(AdminItemView { relations: ItemRelations { two_handed: w.relations.two_handed || x, ..w.relations }, ..w }),
{
    lemma_item_keys();
    reveal(item_stat_field);
    reveal(item_more_stat_field);
    reveal(item_bonus_field);
    reveal(item_relation_field);
    reveal(flag_field);
    reveal_strlit("on");
    if x {
        lemma_item_form_one(w, "two_handed"@, "on"@);
    } else {
        reveal(item_form);
        assert(flag_field("two_handed"@, x) =~= Seq::<(Seq<char>, Seq<char>)>::empty());
        assert(AdminItemView { relations: ItemRelations { two_handed: w.relations.two_handed || x, ..w.relations }, ..w } == w);
    }
}

/// Reading the `orn_bonus` field sets `orn_bonus`.
proof fn lemma_item_read_orn_bonus(w: AdminItemView, x: Seq<char>)
    requires
        spec_float_ok(x),
    ensures
        item_form(w, seq![("orn_bonus"@, x)], 0) == Ok::<AdminItemView, FormFailure>(AdminItemView { relations: ItemRelations { orn_bonus: x, ..w.relations }, ..w }),
{
    lemma_item_keys();
    reveal(item_stat_field);
    reveal(item_more_stat_field);
    reveal(item_bonus_field);
    reveal(item_relation_field);
    crate::num::lemma_float_ok_nonempty(x);
    lemma_item_form_one(w, "orn_bonus"@, x);
}

/// Reading the `gold_bonus` field sets `gold_bonus`.
proof fn lemma_item_read_gold_bonus(w: AdminItemView, x: Seq<char>)
    requires
        spec_float_ok(x),
    ensures
        item_form(w, seq![("gold_bonus"@, x)], 0) == Ok::<AdminItemView, FormFailure>(AdminItemView { relations: ItemRelations { gold_bonus: x, ..w.relations }, ..w }),
{
    lemma_item_keys();
    reveal(item_stat_field);
    reveal(item_more_stat_field);
    reveal(item_bonus_field);
    reveal(item_relation_field);
    crate::num::lemma_float_ok_nonempty(x);
    lemma_item_form_one(w, "gold_bonus"@, x);
}

/// Reading the `drop_bonus` field sets `drop_bonus`.
proof fn lemma_item_read_drop_bonus(w: AdminItemView, x: Seq<char>)
    requires
        spec_float_ok(x),
    ensures
        item_form(w, seq![("drop_bonus"@, x)], 0) == Ok::<AdminItemView, FormFailure>(AdminItemView { relations: ItemRelations { drop_bonus: x, ..w.relations }, ..w }),
{
    lemma_item_keys();
    reveal(item_stat_field);
    reveal(item_more_stat_field);
    reveal(item_bonus_field);
    reveal(item_relation_field);
    crate::num::lemma_float_ok_nonempty(x);
    lemma_item_form_one(w, "drop_bonus"@, x);
}

/// Reading the `spawn_bonus` field sets `spawn_bonus`.
proof fn lemma_item_read_spawn_bonus(w: AdminItemView, x: Seq<char>)
    requires
        spec_float_ok(x),
    ensures
        item_form(w, seq![("spawn_bonus"@, x)], 0) == Ok::<AdminItemView, FormFailure>(AdminItemView { relations: ItemRelations { spawn_bonus: x, ..w.relations }, ..w }),
{
    lemma_item_keys();
    reveal(item_stat_field);
    reveal(item_more_stat_field);
    reveal(item_bonus_field);
    reveal(item_relation_field);
    crate::num::lemma_float_ok_nonempty(x);
    lemma_item_form_one(w, "spawn_bonus"@, x);
}

/// Reading the `exp_bonus` field sets `exp_bonus`.
proof fn lemma_item_read_exp_bonus(w: AdminItemView, x: Seq<char>)
    requires
        spec_float_ok(x),
    ensures
        item_form(w, seq![("exp_bonus"@, x)], 0) == Ok::<AdminItemView, FormFailure>(AdminItemView { relations: ItemRelations { exp_bonus: x, ..w.relations }, ..w }),
{
    lemma_item_keys();
    reveal(item_stat_field);
    reveal(item_more_stat_field);
    reveal(item_bonus_field);
    reveal(item_relation_field);
    crate::num::lemma_float_ok_nonempty(x);
    lemma_item_form_one(w, "exp_bonus"@, x);
}

/// Reading the `boss` field, there when `x` holds, turns `boss` on then.
proof fn lemma_item_read_boss(w: AdminItemView, x: bool)
    ensures
        item_form(w, flag_field("boss"@, x), 0) == Ok::<AdminItemView, FormFailure>(AdminItemView { relations: ItemRelations { boss: w.relations.boss || x, ..w.relations }, ..w }),
{
    lemma_item_keys();
    reveal(item_stat_field);
    reveal(item_more_stat_field);
    reveal(item_bonus_field);
    reveal(item_relation_field);
    reveal(flag_field);
    reveal_strlit("on");
    if x {
        lemma_item_form_one(w, "boss"@, "on"@);
    } else {
        reveal(item_form);
        assert(flag_field("boss"@, x) =~= Seq::<(Seq<char>, Seq<char>)>::empty());
        assert(AdminItemView { relations: ItemRelations { boss: w.relations.boss || x, ..w.relations }, ..w } == w);
    }
}

/// Reading the `arena` field, there when `x` holds, turns `arena` on then.
proof fn lemma_item_read_arena(w: AdminItemView, x: bool)
    ensures
        item_form(w, flag_field("arena"@, x), 0) == Ok::<AdminItemView, FormFailure>(AdminItemView { relations: ItemRelations { arena: w.relations.arena || x, ..w.relations }, ..w }),
{
    lemma_item_keys();
    reveal(item_stat_field);
    reveal(item_more_stat_field);
    reveal(item_bonus_field);
    reveal(item_relation_field);
    reveal(flag_field);
    reveal_strlit("on");
    if x {
        lemma_item_form_one(w, "arena"@, "on"@);
    } else {
        reveal(item_form);
        assert(flag_field("arena"@, x) =~= Seq::<(Seq<char>, Seq<char>)>::empty());
        assert(AdminItemView { relations: ItemRelations { arena: w.relations.arena || x, ..w.relations }, ..w } == w);
    }
}

/// Reading the `category` field sets `category`.
proof fn lemma_item_read_category(w: AdminItemView, x: Option<u32>)
    ensures
        item_form(w, seq![("category"@, opt_dec(x))], 0) == Ok::<AdminItemView, FormFailure>(AdminItemView { relations: ItemRelations { category: x, ..w.relations }, ..w }),
{
    lemma_item_keys();
    reveal(item_stat_field);
    reveal(item_more_stat_field);
    reveal(item_bonus_field);
    reveal(item_relation_field);
    if let Some(i) = x {
        lemma_form_int_dec(i as nat, 0xffff_ffff);
        crate::num::lemma_dec_nonempty(i as nat);
    }
    lemma_item_form_one(w, "category"@, opt_dec(x));
}

/// Reading the `price` field sets `price`.
proof fn lemma_item_read_price(w: AdminItemView, x: u32)
    ensures
        item_form(w, seq![("price"@, spec_dec(x as nat))], 0) == Ok::<AdminItemView, FormFailure>(AdminItemView { relations: ItemRelations { price: x, ..w.relations }, ..w }),
{
    lemma_item_keys();
    reveal(item_stat_field);
    reveal(item_more_stat_field);
    reveal(item_bonus_field);
    reveal(item_relation_field);
    lemma_form_int_dec(x as nat, 0xffff_ffff);
    lemma_item_form_one(w, "price"@, spec_dec(x as nat));
}

/// Reading the `ability` field sets `ability`.
proof fn lemma_item_read_ability(w: AdminItemView, x: Option<u32>)
    ensures
        item_form(w, seq![("ability"@, opt_dec(x))], 0) == Ok::<AdminItemView, FormFailure>(AdminItemView { relations: ItemRelations { ability: x, ..w.relations }, ..w }),
{
    lemma_item_keys();
    reveal(item_stat_field);
    reveal(item_more_stat_field);
    reveal(item_bonus_field);
    reveal(item_relation_field);
    if let Some(i) = x {
        lemma_form_int_dec(i as nat, 0xffff_ffff);
        crate::num::lemma_dec_nonempty(i as nat);
    }
    lemma_item_form_one(w, "ability"@, opt_dec(x));
}

/// Reading the fields that describe an item sets them.
proof fn lemma_item_form_head(w: AdminItemView, v: AdminItemView)
    ensures
        item_form(w, item_form_head(v), 0) == Ok::<AdminItemView, FormFailure>(
            AdminItemView {
                head: ItemHead {
                    codex_uri: v.head.codex_uri,
                    name: v.head.name,
                    tier: v.head.tier,
                    type_: v.head.type_,
                    image_name: v.head.image_name,
                    description: v.head.description,
                    notes: v.head.notes,
                },
                ..w
            },
        ),
{
    let s1 = AdminItemView { head: ItemHead { codex_uri: v.head.codex_uri, ..w.head }, ..w };
    lemma_item_read_codex_uri(w, v.head.codex_uri);
    let q0 = seq![("codex"@, v.head.codex_uri)];
    let s2 = AdminItemView { head: ItemHead { name: v.head.name, ..s1.head }, ..s1 };
    lemma_item_read_name(s1, v.head.name);
    let q1 = q0 + seq![("name"@, v.head.name)];
    lemma_item_form_concat(w, q0, seq![("name"@, v.head.name)]);
    let s3 = AdminItemView { head: ItemHead { tier: v.head.tier, ..s2.head }, ..s2 };
    lemma_item_read_tier(s2, v.head.tier);
    let q2 = q1 + seq![("tier"@, spec_dec(v.head.tier as nat))];
    lemma_item_form_concat(w, q1, seq![("tier"@, spec_dec(v.head.tier as nat))]);
    let s4 = AdminItemView { head: ItemHead { type_: v.head.type_, ..s3.head }, ..s3 };
    lemma_item_read_type_(s3, v.head.type_);
    let q3 = q2 + seq![("type"@, spec_dec(v.head.type_ as nat))];
    lemma_item_form_concat(w, q2, seq![("type"@, spec_dec(v.head.type_ as nat))]);
    let s5 = AdminItemView { head: ItemHead { image_name: v.head.image_name, ..s4.head }, ..s4 };
    lemma_item_read_image_name(s4, v.head.image_name);
    let q4 = q3 + seq![("image_name"@, v.head.image_name)];
    lemma_item_form_concat(w, q3, seq![("image_name"@, v.head.image_name)]);
    let s6 = AdminItemView { head: ItemHead { description: v.head.description, ..s5.head }, ..s5 };
    lemma_item_read_description(s5, v.head.description);
    let q5 = q4 + seq![("description"@, v.head.description)];
    lemma_item_form_concat(w, q4, seq![("description"@, v.head.description)]);
    let s7 = AdminItemView { head: ItemHead { notes: v.head.notes, ..s6.head }, ..s6 };
    lemma_item_read_notes(s6, v.head.notes);
    let q6 = q5 + seq![("notes"@, v.head.notes)];
    lemma_item_form_concat(w, q5, seq![("notes"@, v.head.notes)]);
    assert(item_form_head(v) == q6) by {
        reveal(item_form_head);
    }
}

/// Reading the fields of the HP, mana, attack and magic of an item and their scaling
/// sets them.
proof fn lemma_item_form_stats(w: AdminItemView, v: AdminItemView)
    ensures
        item_form(w, item_form_stats(v), 0) == Ok::<AdminItemView, FormFailure>(
            AdminItemView {
                stats: ItemStats {
                    hp: v.stats.hp,
                    hp_affected_by_quality: w.stats.hp_affected_by_quality || v.stats.hp_affected_by_quality,
                    mana: v.stats.mana,
                    mana_affected_by_quality: w.stats.mana_affected_by_quality || v.stats.mana_affected_by_quality,
                    attack: v.stats.attack,
                    attack_affected_by_quality: w.stats.attack_affected_by_quality || v.stats.attack_affected_by_quality,
                    magic: v.stats.magic,
                    magic_affected_by_quality: w.stats.magic_affected_by_quality || v.stats.magic_affected_by_quality,
                },
                ..w
            },
        ),
{
    let s1 = AdminItemView { stats: ItemStats { hp: v.stats.hp, ..w.stats }, ..w };
    lemma_item_read_hp(w, v.stats.hp);
    let q0 = seq![("hp"@, spec_int_text(v.stats.hp as int))];
    let s2 = AdminItemView { stats: ItemStats { hp_affected_by_quality: s1.stats.hp_affected_by_quality || v.stats.hp_affected_by_quality, ..s1.stats }, ..s1 };
    lemma_item_read_hp_affected_by_quality(s1, v.stats.hp_affected_by_quality);
    let q1 = q0 + flag_field("hp_affected_by_quality"@, v.stats.hp_affected_by_quality);
    lemma_item_form_concat(w, q0, flag_field("hp_affected_by_quality"@, v.stats.hp_affected_by_quality));
    let s3 = AdminItemView { stats: ItemStats { mana: v.stats.mana, ..s2.stats }, ..s2 };
    lemma_item_read_mana(s2, v.stats.mana);
    let q2 = q1 + seq![("mana"@, spec_int_text(v.stats.mana as int))];
    lemma_item_form_concat(w, q1, seq![("mana"@, spec_int_text(v.stats.mana as int))]);
    let s4 = AdminItemView { stats: ItemStats { mana_affected_by_quality: s3.stats.mana_affected_by_quality || v.stats.mana_affected_by_quality, ..s3.stats }, ..s3 };
    lemma_item_read_mana_affected_by_quality(s3, v.stats.mana_affected_by_quality);
    let q3 = q2 + flag_field("mana_affected_by_quality"@, v.stats.mana_affected_by_quality);
    lemma_item_form_concat(w, q2, flag_field("mana_affected_by_quality"@, v.stats.mana_affected_by_quality));
    let s5 = AdminItemView { stats: ItemStats { attack: v.stats.attack, ..s4.stats }, ..s4 };
    lemma_item_read_attack(s4, v.stats.attack);
    let q4 = q3 + seq![("attack"@, spec_int_text(v.stats.attack as int))];
    lemma_item_form_concat(w, q3, seq![("attack"@, spec_int_text(v.stats.attack as int))]);
    let s6 = AdminItemView { stats: ItemStats { attack_affected_by_quality: s5.stats.attack_affected_by_quality || v.stats.attack_affected_by_quality, ..s5.stats }, ..s5 };
    lemma_item_read_attack_affected_by_quality(s5, v.stats.attack_affected_by_quality);
    let q5 = q4 + flag_field("attack_affected_by_quality"@, v.stats.attack_affected_by_quality);
    lemma_item_form_concat(w, q4, flag_field("attack_affected_by_quality"@, v.stats.attack_affected_by_quality));
    let s7 = AdminItemView { stats: ItemStats { magic: v.stats.magic, ..s6.stats }, ..s6 };
    lemma_item_read_magic(s6, v.stats.magic);
    let q6 = q5 + seq![("magic"@, spec_int_text(v.stats.magic as int))];
    lemma_item_form_concat(w, q5, seq![("magic"@, spec_int_text(v.stats.magic as int))]);
    let s8 = AdminItemView { stats: ItemStats { magic_affected_by_quality: s7.stats.magic_affected_by_quality || v.stats.magic_affected_by_quality, ..s7.stats }, ..s7 };
    lemma_item_read_magic_affected_by_quality(s7, v.stats.magic_affected_by_quality);
    let q7 = q6 + flag_field("magic_affected_by_quality"@, v.stats.magic_affected_by_quality);
    lemma_item_form_concat(w, q6, flag_field("magic_affected_by_quality"@, v.stats.magic_affected_by_quality));
    assert(item_form_stats(v) == q7) by {
        reveal(item_form_stats);
    }
}

/// Reading the fields of the defense, resistance, dexterity, ward and crit of an item
/// and their scaling sets them.
proof fn lemma_item_form_more_stats(w: AdminItemView, v: AdminItemView)
    ensures
        item_form(w, item_form_more_stats(v), 0) == Ok::<AdminItemView, FormFailure>(
            AdminItemView {
                more_stats: ItemMoreStats {
                    defense: v.more_stats.defense,
                    defense_affected_by_quality: w.more_stats.defense_affected_by_quality || v.more_stats.defense_affected_by_quality,
                    resistance: v.more_stats.resistance,
                    resistance_affected_by_quality: w.more_stats.resistance_affected_by_quality || v.more_stats.resistance_affected_by_quality,
                    dexterity: v.more_stats.dexterity,
                    dexterity_affected_by_quality: w.more_stats.dexterity_affected_by_quality || v.more_stats.dexterity_affected_by_quality,
                    ward: v.more_stats.ward,
                    ward_affected_by_quality: w.more_stats.ward_affected_by_quality || v.more_stats.ward_affected_by_quality,
                    crit: v.more_stats.crit,
                    crit_affected_by_quality: w.more_stats.crit_affected_by_quality || v.more_stats.crit_affected_by_quality,
                },
                ..w
            },
        ),
{
    let s1 = AdminItemView { more_stats: ItemMoreStats { defense: v.more_stats.defense, ..w.more_stats }, ..w };
    lemma_item_read_defense(w, v.more_stats.defense);
    let q0 = seq![("defense"@, spec_int_text(v.more_stats.defense as int))];
    let s2 = AdminItemView { more_stats: ItemMoreStats { defense_affected_by_quality: s1.more_stats.defense_affected_by_quality || v.more_stats.defense_affected_by_quality, ..s1.more_stats }, ..s1 };
    lemma_item_read_defense_affected_by_quality(s1, v.more_stats.defense_affected_by_quality);
    let q1 = q0 + flag_field("defense_affected_by_quality"@, v.more_stats.defense_affected_by_quality);
    lemma_item_form_concat(w, q0, flag_field("defense_affected_by_quality"@, v.more_stats.defense_affected_by_quality));
    let s3 = AdminItemView { more_stats: ItemMoreStats { resistance: v.more_stats.resistance, ..s2.more_stats }, ..s2 };
    lemma_item_read_resistance(s2, v.more_stats.resistance);
    let q2 = q1 + seq![("resistance"@, spec_int_text(v.more_stats.resistance as int))];
    lemma_item_form_concat(w, q1, seq![("resistance"@, spec_int_text(v.more_stats.resistance as int))]);
    let s4 = AdminItemView { more_stats: ItemMoreStats { resistance_affected_by_quality: s3.more_stats.resistance_affected_by_quality || v.more_stats.resistance_affected_by_quality, ..s3.more_stats }, ..s3 };
    lemma_item_read_resistance_affected_by_quality(s3, v.more_stats.resistance_affected_by_quality);
    let q3 = q2 + flag_field("resistance_affected_by_quality"@, v.more_stats.resistance_affected_by_quality);
    lemma_item_form_concat(w, q2, flag_field("resistance_affected_by_quality"@, v.more_stats.resistance_affected_by_quality));
    let s5 = AdminItemView { more_stats: ItemMoreStats { dexterity: v.more_stats.dexterity, ..s4.more_stats }, ..s4 };
    lemma_item_read_dexterity(s4, v.more_stats.dexterity);
    let q4 = q3 + seq![("dexterity"@, spec_int_text(v.more_stats.dexterity as int))];
    lemma_item_form_concat(w, q3, seq![("dexterity"@, spec_int_text(v.more_stats.dexterity as int))]);
    let s6 = AdminItemView { more_stats: ItemMoreStats { dexterity_affected_by_quality: s5.more_stats.dexterity_affected_by_quality || v.more_stats.dexterity_affected_by_quality, ..s5.more_stats }, ..s5 };
    lemma_item_read_dexterity_affected_by_quality(s5, v.more_stats.dexterity_affected_by_quality);
    let q5 = q4 + flag_field("dexterity_affected_by_quality"@, v.more_stats.dexterity_affected_by_quality);
    lemma_item_form_concat(w, q4, flag_field("dexterity_affected_by_quality"@, v.more_stats.dexterity_affected_by_quality));
    let s7 = AdminItemView { more_stats: ItemMoreStats { ward: v.more_stats.ward, ..s6.more_stats }, ..s6 };
    lemma_item_read_ward(s6, v.more_stats.ward);
    let q6 = q5 + seq![("ward"@, spec_int_text(v.more_stats.ward as int))];
    lemma_item_form_concat(w, q5, seq![("ward"@, spec_int_text(v.more_stats.ward as int))]);
    let s8 = AdminItemView { more_stats: ItemMoreStats { ward_affected_by_quality: s7.more_stats.ward_affected_by_quality || v.more_stats.ward_affected_by_quality, ..s7.more_stats }, ..s7 };
    lemma_item_read_ward_affected_by_quality(s7, v.more_stats.ward_affected_by_quality);
    let q7 = q6 + flag_field("ward_affected_by_quality"@, v.more_stats.ward_affected_by_quality);
    lemma_item_form_concat(w, q6, flag_field("ward_affected_by_quality"@, v.more_stats.ward_affected_by_quality));
    let s9 = AdminItemView { more_stats: ItemMoreStats { crit: v.more_stats.crit, ..s8.more_stats }, ..s8 };
    lemma_item_read_crit(s8, v.more_stats.crit);
    let q8 = q7 + seq![("crit"@, spec_dec(v.more_stats.crit as nat))];
    lemma_item_form_concat(w, q7, seq![("crit"@, spec_dec(v.more_stats.crit as nat))]);
    let s10 = AdminItemView { more_stats: ItemMoreStats { crit_affected_by_quality: s9.more_stats.crit_affected_by_quality || v.more_stats.crit_affected_by_quality, ..s9.more_stats }, ..s9 };
    lemma_item_read_crit_affected_by_quality(s9, v.more_stats.crit_affected_by_quality);
    let q9 = q8 + flag_field("crit_affected_by_quality"@, v.more_stats.crit_affected_by_quality);
    lemma_item_form_concat(w, q8, flag_field("crit_affected_by_quality"@, v.more_stats.crit_affected_by_quality));
    assert(item_form_more_stats(v) == q9) by {
        reveal(item_form_more_stats);
    }
}

/// Reading the fields of the other bonuses of an item, its slots and its rarity sets
/// them.
proof fn lemma_item_form_bonuses(w: AdminItemView, v: AdminItemView)
    ensures
        item_form(w, item_form_bonuses(v), 0) == Ok::<AdminItemView, FormFailure>(
            AdminItemView {
                bonuses: ItemBonuses {
                    foresight: v.bonuses.foresight,
                    view_distance: v.bonuses.view_distance,
                    follower_stats: v.bonuses.follower_stats,
                    follower_act: v.bonuses.follower_act,
                    status_infliction: v.bonuses.status_infliction,
                    status_protection: v.bonuses.status_protection,
                    mana_saver: v.bonuses.mana_saver,
                    potion_effectiveness: v.bonuses.potion_effectiveness,
                    has_slots: w.bonuses.has_slots || v.bonuses.has_slots,
                    base_adornment_slots: v.bonuses.base_adornment_slots,
                    rarity: v.bonuses.rarity,
                },
                ..w
            },
        ),
{
    let s1 = AdminItemView { bonuses: ItemBonuses { foresight: v.bonuses.foresight, ..w.bonuses }, ..w };
    lemma_item_read_foresight(w, v.bonuses.foresight);
    let q0 = seq![("foresight"@, spec_int_text(v.bonuses.foresight as int))];
    let s2 = AdminItemView { bonuses: ItemBonuses { view_distance: v.bonuses.view_distance, ..s1.bonuses }, ..s1 };
    lemma_item_read_view_distance(s1, v.bonuses.view_distance);
    let q1 = q0 + seq![("view_distance"@, spec_dec(v.bonuses.view_distance as nat))];
    lemma_item_form_concat(w, q0, seq![("view_distance"@, spec_dec(v.bonuses.view_distance as nat))]);
    let s3 = AdminItemView { bonuses: ItemBonuses { follower_stats: v.bonuses.follower_stats, ..s2.bonuses }, ..s2 };
    lemma_item_read_follower_stats(s2, v.bonuses.follower_stats);
    let q2 = q1 + seq![("follower_stats"@, spec_dec(v.bonuses.follower_stats as nat))];
    lemma_item_form_concat(w, q1, seq![("follower_stats"@, spec_dec(v.bonuses.follower_stats as nat))]);
    let s4 = AdminItemView { bonuses: ItemBonuses { follower_act: v.bonuses.follower_act, ..s3.bonuses }, ..s3 };
    lemma_item_read_follower_act(s3, v.bonuses.follower_act);
    let q3 = q2 + seq![("follower_act"@, spec_int_text(v.bonuses.follower_act as int))];
    lemma_item_form_concat(w, q2, seq![("follower_act"@, spec_int_text(v.bonuses.follower_act as int))]);
    let s5 = AdminItemView { bonuses: ItemBonuses { status_infliction: v.bonuses.status_infliction, ..s4.bonuses }, ..s4 };
    lemma_item_read_status_infliction(s4, v.bonuses.status_infliction);
    let q4 = q3 + seq![("status_infliction"@, spec_dec(v.bonuses.status_infliction as nat))];
    lemma_item_form_concat(w, q3, seq![("status_infliction"@, spec_dec(v.bonuses.status_infliction as nat))]);
    let s6 = AdminItemView { bonuses: ItemBonuses { status_protection: v.bonuses.status_protection, ..s5.bonuses }, ..s5 };
    lemma_item_read_status_protection(s5, v.bonuses.status_protection);
    let q5 = q4 + seq![("status_protection"@, spec_dec(v.bonuses.status_protection as nat))];
    lemma_item_form_concat(w, q4, seq![("status_protection"@, spec_dec(v.bonuses.status_protection as nat))]);
    let s7 = AdminItemView { bonuses: ItemBonuses { mana_saver: v.bonuses.mana_saver, ..s6.bonuses }, ..s6 };
    lemma_item_read_mana_saver(s6, v.bonuses.mana_saver);
    let q6 = q5 + seq![("mana_saver"@, spec_int_text(v.bonuses.mana_saver as int))];
    lemma_item_form_concat(w, q5, seq![("mana_saver"@, spec_int_text(v.bonuses.mana_saver as int))]);
    let s8 = AdminItemView { bonuses: ItemBonuses { potion_effectiveness: v.bonuses.potion_effectiveness, ..s7.bonuses }, ..s7 };
    lemma_item_read_potion_effectiveness(s7, v.bonuses.potion_effectiveness);
    let q7 = q6 + seq![("potion_effectiveness"@, spec_dec(v.bonuses.potion_effectiveness as nat))];
    lemma_item_form_concat(w, q6, seq![("potion_effectiveness"@, spec_dec(v.bonuses.potion_effectiveness as nat))]);
    let s9 = AdminItemView { bonuses: ItemBonuses { has_slots: s8.bonuses.has_slots || v.bonuses.has_slots, ..s8.bonuses }, ..s8 };
    lemma_item_read_has_slots(s8, v.bonuses.has_slots);
    let q8 = q7 + flag_field("has_slots"@, v.bonuses.has_slots);
    lemma_item_form_concat(w, q7, flag_field("has_slots"@, v.bonuses.has_slots));
    let s10 = AdminItemView { bonuses: ItemBonuses { base_adornment_slots: v.bonuses.base_adornment_slots, ..s9.bonuses }, ..s9 };
    lemma_item_read_base_adornment_slots(s9, v.bonuses.base_adornment_slots);
    let q9 = q8 + seq![("base_adornment_slots"@, spec_dec(v.bonuses.base_adornment_slots as nat))];
    lemma_item_form_concat(w, q8, seq![("base_adornment_slots"@, spec_dec(v.bonuses.base_adornment_slots as nat))]);
    let s11 = AdminItemView { bonuses: ItemBonuses { rarity: v.bonuses.rarity, ..s10.bonuses }, ..s10 };
    lemma_item_read_rarity(s10, v.bonuses.rarity);
    let q10 = q9 + seq![("rarity"@, v.bonuses.rarity)];
    lemma_item_form_concat(w, q9, seq![("rarity"@, v.bonuses.rarity)]);
    assert(item_form_bonuses(v) == q10) by {
        reveal(item_form_bonuses);
    }
}

/// Reading the fields that link an item to other guide entities, with its gain
/// bonuses, flags and price, sets them.
proof fn lemma_item_form_relations(w: AdminItemView, v: AdminItemView)
    requires
        spec_float_ok(v.relations.orn_bonus),
        spec_float_ok(v.relations.gold_bonus),
        spec_float_ok(v.relations.drop_bonus),
        spec_float_ok(v.relations.spawn_bonus),
        spec_float_ok(v.relations.exp_bonus),
    ensures
        item_form(w, item_form_relations(v), 0) == Ok::<AdminItemView, FormFailure>(
            AdminItemView {
                relations: ItemRelations {
                    element: v.relations.element,
                    equipped_by: w.relations.equipped_by + v.relations.equipped_by,
                    two_handed: w.relations.two_handed || v.relations.two_handed,
                    orn_bonus: v.relations.orn_bonus,
                    gold_bonus: v.relations.gold_bonus,
                    drop_bonus: v.relations.drop_bonus,
                    spawn_bonus: v.relations.spawn_bonus,
                    exp_bonus: v.relations.exp_bonus,
                    boss: w.relations.boss || v.relations.boss,
                    arena: w.relations.arena || v.relations.arena,
                    category: v.relations.category,
                    causes: w.relations.causes + v.relations.causes,
                    cures: w.relations.cures + v.relations.cures,
                    gives: w.relations.gives + v.relations.gives,
                    prevents: w.relations.prevents + v.relations.prevents,
                    materials: w.relations.materials + v.relations.materials,
                    price: v.relations.price,
                    ability: v.relations.ability,
                },
                ..w
            },
        ),
{
    let s1 = AdminItemView { relations: ItemRelations { element: v.relations.element, ..w.relations }, ..w };
    lemma_item_read_element(w, v.relations.element);
    let q0 = seq![("element"@, opt_dec(v.relations.element))];
    let s2 = AdminItemView { relations: ItemRelations { equipped_by: s1.relations.equipped_by + v.relations.equipped_by, ..s1.relations }, ..s1 };
    lemma_item_form_equipped_by(s1, v.relations.equipped_by);
    let q1 = q0 + id_fields("equipped_by"@, v.relations.equipped_by);
    lemma_item_form_concat(w, q0, id_fields("equipped_by"@, v.relations.equipped_by));
    let s3 = AdminItemView { relations: ItemRelations { two_handed: s2.relations.two_handed || v.relations.two_handed, ..s2.relations }, ..s2 };
    lemma_item_read_two_handed(s2, v.relations.two_handed);
    let q2 = q1 + flag_field("two_handed"@, v.relations.two_handed);
    lemma_item_form_concat(w, q1, flag_field("two_handed"@, v.relations.two_handed));
    let s4 = AdminItemView { relations: ItemRelations { orn_bonus: v.relations.orn_bonus, ..s3.relations }, ..s3 };
    lemma_item_read_orn_bonus(s3, v.relations.orn_bonus);
    let q3 = q2 + seq![("orn_bonus"@, v.relations.orn_bonus)];
    lemma_item_form_concat(w, q2, seq![("orn_bonus"@, v.relations.orn_bonus)]);
    let s5 = AdminItemView { relations: ItemRelations { gold_bonus: v.relations.gold_bonus, ..s4.relations }, ..s4 };
    lemma_item_read_gold_bonus(s4, v.relations.gold_bonus);
    let q4 = q3 + seq![("gold_bonus"@, v.relations.gold_bonus)];
    lemma_item_form_concat(w, q3, seq![("gold_bonus"@, v.relations.gold_bonus)]);
    let s6 = AdminItemView { relations: ItemRelations { drop_bonus: v.relations.drop_bonus, ..s5.relations }, ..s5 };
    lemma_item_read_drop_bonus(s5, v.relations.drop_bonus);
    let q5 = q4 + seq![("drop_bonus"@, v.relations.drop_bonus)];
    lemma_item_form_concat(w, q4, seq![("drop_bonus"@, v.relations.drop_bonus)]);
    let s7 = AdminItemView { relations: ItemRelations { spawn_bonus: v.relations.spawn_bonus, ..s6.relations }, ..s6 };
    lemma_item_read_spawn_bonus(s6, v.relations.spawn_bonus);
    let q6 = q5 + seq![("spawn_bonus"@, v.relations.spawn_bonus)];
    lemma_item_form_concat(w, q5, seq![("spawn_bonus"@, v.relations.spawn_bonus)]);
    let s8 = AdminItemView { relations: ItemRelations { exp_bonus: v.relations.exp_bonus, ..s7.relations }, ..s7 };
    lemma_item_read_exp_bonus(s7, v.relations.exp_bonus);
    let q7 = q6 + seq![("exp_bonus"@, v.relations.exp_bonus)];
    lemma_item_form_concat(w, q6, seq![("exp_bonus"@, v.relations.exp_bonus)]);
    let s9 = AdminItemView { relations: ItemRelations { boss: s8.relations.boss || v.relations.boss, ..s8.relations }, ..s8 };
    lemma_item_read_boss(s8, v.relations.boss);
    let q8 = q7 + flag_field("boss"@, v.relations.boss);
    lemma_item_form_concat(w, q7, flag_field("boss"@, v.relations.boss));
    let s10 = AdminItemView { relations: ItemRelations { arena: s9.relations.arena || v.relations.arena, ..s9.relations }, ..s9 };
    lemma_item_read_arena(s9, v.relations.arena);
    let q9 = q8 + flag_field("arena"@, v.relations.arena);
    lemma_item_form_concat(w, q8, flag_field("arena"@, v.relations.arena));
    let s11 = AdminItemView { relations: ItemRelations { category: v.relations.category, ..s10.relations }, ..s10 };
    lemma_item_read_category(s10, v.relations.category);
    let q10 = q9 + seq![("category"@, opt_dec(v.relations.category))];
    lemma_item_form_concat(w, q9, seq![("category"@, opt_dec(v.relations.category))]);
    let s12 = AdminItemView { relations: ItemRelations { causes: s11.relations.causes + v.relations.causes, ..s11.relations }, ..s11 };
    lemma_item_form_causes(s11, v.relations.causes);
    let q11 = q10 + id_fields("causes"@, v.relations.causes);
    lemma_item_form_concat(w, q10, id_fields("causes"@, v.relations.causes));
    let s13 = AdminItemView { relations: ItemRelations { cures: s12.relations.cures + v.relations.cures, ..s12.relations }, ..s12 };
    lemma_item_form_cures(s12, v.relations.cures);
    let q12 = q11 + id_fields("cures"@, v.relations.cures);
    lemma_item_form_concat(w, q11, id_fields("cures"@, v.relations.cures));
    let s14 = AdminItemView { relations: ItemRelations { gives: s13.relations.gives + v.relations.gives, ..s13.relations }, ..s13 };
    lemma_item_form_gives(s13, v.relations.gives);
    let q13 = q12 + id_fields("gives"@, v.relations.gives);
    lemma_item_form_concat(w, q12, id_fields("gives"@, v.relations.gives));
    let s15 = AdminItemView { relations: ItemRelations { prevents: s14.relations.prevents + v.relations.prevents, ..s14.relations }, ..s14 };
    lemma_item_form_prevents(s14, v.relations.prevents);
    let q14 = q13 + id_fields("prevents"@, v.relations.prevents);
    lemma_item_form_concat(w, q13, id_fields("prevents"@, v.relations.prevents));
    let s16 = AdminItemView { relations: ItemRelations { materials: s15.relations.materials + v.relations.materials, ..s15.relations }, ..s15 };
    lemma_item_form_materials(s15, v.relations.materials);
    let q15 = q14 + id_fields("materials"@, v.relations.materials);
    lemma_item_form_concat(w, q14, id_fields("materials"@, v.relations.materials));
    let s17 = AdminItemView { relations: ItemRelations { price: v.relations.price, ..s16.relations }, ..s16 };
    lemma_item_read_price(s16, v.relations.price);
    let q16 = q15 + seq![("price"@, spec_dec(v.relations.price as nat))];
    lemma_item_form_concat(w, q15, seq![("price"@, spec_dec(v.relations.price as nat))]);
    let s18 = AdminItemView { relations: ItemRelations { ability: v.relations.ability, ..s17.relations }, ..s17 };
    lemma_item_read_ability(s17, v.relations.ability);
    let q17 = q16 + seq![("ability"@, opt_dec(v.relations.ability))];
    lemma_item_form_concat(w, q16, seq![("ability"@, opt_dec(v.relations.ability))]);
    assert(item_form_relations(v) == q17) by {
        reveal(item_form_relations);
    }
}

/// Writing an item into its admin form and reading the form back gives the item
/// again, but for its id, which the form does not hold: for an item whose bonuses are
/// decimal numbers, and whose flags that are on by default are on (such a flag is only
/// written when on).
pub proof fn law_item_form_roundtrip(v: AdminItemView)
    requires
        spec_float_ok(v.relations.orn_bonus),
        spec_float_ok(v.relations.gold_bonus),
        spec_float_ok(v.relations.drop_bonus),
        spec_float_ok(v.relations.spawn_bonus),
        spec_float_ok(v.relations.exp_bonus),
        v.stats.attack_affected_by_quality,
        v.stats.magic_affected_by_quality,
        v.more_stats.defense_affected_by_quality,
        v.more_stats.resistance_affected_by_quality,
        v.more_stats.ward_affected_by_quality,
    ensures
        item_form(empty_item(v.csrfmiddlewaretoken), item_form_fields(v), 0) == Ok::<AdminItemView, FormFailure>(
            AdminItemView { id: 0, ..v },
        ),
{
    let w0 = empty_item(v.csrfmiddlewaretoken);
    lemma_item_form_head(w0, v);
    let t1 = AdminItemView { head: ItemHead { codex_uri: v.head.codex_uri, name: v.head.name, tier: v.head.tier, type_: v.head.type_, image_name: v.head.image_name, description: v.head.description, notes: v.head.notes }, ..w0 };
    lemma_item_form_stats(t1, v);
    let t2 = AdminItemView { stats: ItemStats { hp: v.stats.hp, hp_affected_by_quality: t1.stats.hp_affected_by_quality || v.stats.hp_affected_by_quality, mana: v.stats.mana, mana_affected_by_quality: t1.stats.mana_affected_by_quality || v.stats.mana_affected_by_quality, attack: v.stats.attack, attack_affected_by_quality: t1.stats.attack_affected_by_quality || v.stats.attack_affected_by_quality, magic: v.stats.magic, magic_affected_by_quality: t1.stats.magic_affected_by_quality || v.stats.magic_affected_by_quality }, ..t1 };
    lemma_item_form_concat(w0, item_form_head(v), item_form_stats(v));
    lemma_item_form_more_stats(t2, v);
    let t3 = AdminItemView { more_stats: ItemMoreStats { defense: v.more_stats.defense, defense_affected_by_quality: t2.more_stats.defense_affected_by_quality || v.more_stats.defense_affected_by_quality, resistance: v.more_stats.resistance, resistance_affected_by_quality: t2.more_stats.resistance_affected_by_quality || v.more_stats.resistance_affected_by_quality, dexterity: v.more_stats.dexterity, dexterity_affected_by_quality: t2.more_stats.dexterity_affected_by_quality || v.more_stats.dexterity_affected_by_quality, ward: v.more_stats.ward, ward_affected_by_quality: t2.more_stats.ward_affected_by_quality || v.more_stats.ward_affected_by_quality, crit: v.more_stats.crit, crit_affected_by_quality: t2.more_stats.crit_affected_by_quality || v.more_stats.crit_affected_by_quality }, ..t2 };
    lemma_item_form_concat(w0, item_form_head(v) + item_form_stats(v), item_form_more_stats(v));
    lemma_item_form_bonuses(t3, v);
    let t4 = AdminItemView { bonuses: ItemBonuses { foresight: v.bonuses.foresight, view_distance: v.bonuses.view_distance, follower_stats: v.bonuses.follower_stats, follower_act: v.bonuses.follower_act, status_infliction: v.bonuses.status_infliction, status_protection: v.bonuses.status_protection, mana_saver: v.bonuses.mana_saver, potion_effectiveness: v.bonuses.potion_effectiveness, has_slots: t3.bonuses.has_slots || v.bonuses.has_slots, base_adornment_slots: v.bonuses.base_adornment_slots, rarity: v.bonuses.rarity }, ..t3 };
    lemma_item_form_concat(w0, item_form_head(v) + item_form_stats(v) + item_form_more_stats(v), item_form_bonuses(v));
    lemma_item_form_relations(t4, v);
    let t5 = AdminItemView { relations: ItemRelations { element: v.relations.element, equipped_by: t4.relations.equipped_by + v.relations.equipped_by, two_handed: t4.relations.two_handed || v.relations.two_handed, orn_bonus: v.relations.orn_bonus, gold_bonus: v.relations.gold_bonus, drop_bonus: v.relations.drop_bonus, spawn_bonus: v.relations.spawn_bonus, exp_bonus: v.relations.exp_bonus, boss: t4.relations.boss || v.relations.boss, arena: t4.relations.arena || v.relations.arena, category: v.relations.category, causes: t4.relations.causes + v.relations.causes, cures: t4.relations.cures + v.relations.cures, gives: t4.relations.gives + v.relations.gives, prevents: t4.relations.prevents + v.relations.prevents, materials: t4.relations.materials + v.relations.materials, price: v.relations.price, ability: v.relations.ability }, ..t4 };
    lemma_item_form_concat(w0, item_form_head(v) + item_form_stats(v) + item_form_more_stats(v) + item_form_bonuses(v), item_form_relations(v));
    assert(t5 == AdminItemView { id: 0, ..v }) by {
        assert(Seq::<u32>::empty() + v.relations.equipped_by =~= v.relations.equipped_by);
        assert(Seq::<u32>::empty() + v.relations.causes =~= v.relations.causes);
        assert(Seq::<u32>::empty() + v.relations.cures =~= v.relations.cures);
        assert(Seq::<u32>::empty() + v.relations.gives =~= v.relations.gives);
        assert(Seq::<u32>::empty() + v.relations.prevents =~= v.relations.prevents);
        assert(Seq::<u32>::empty() + v.relations.materials =~= v.relations.materials);
    }
}

impl From<AdminItem> for ParsedForm {
    fn from(item: AdminItem) -> (r: ParsedForm)
        ensures
            r@ == (item_form_fields(item@), item@.csrfmiddlewaretoken),
    {
        item.to_form()
    }
}

impl vstd::std_specs::convert::FromSpecImpl<AdminItem> for ParsedForm {
    open spec fn obeys_from_spec() -> bool {
        false
    }

    open spec fn from_spec(v: AdminItem) -> ParsedForm {
        vstd::pervasive::arbitrary()
    }
}

/// The ids of `v`, in order.
pub open spec fn item_ids(v: Seq<AdminItem>) -> Seq<u32> {
    v.map_values(|s: AdminItem| s.id)
}

/// The codex uris of `v`, in order.
pub open spec fn item_uris(v: Seq<AdminItem>) -> Seq<Seq<char>> {
    v.map_values(|s: AdminItem| s.codex_uri@)
}

/// The first item of `v` with the id `id`.
pub open spec fn find_admin_item(v: Seq<AdminItem>, id: u32) -> Option<AdminItem> {
    match first_id(item_ids(v), id) {
        Some(i) => Some(v[i]),
        None => None,
    }
}

/// The first item of `v` with the codex uri `uri`.
pub open spec fn find_admin_item_by_uri(v: Seq<AdminItem>, uri: Seq<char>) -> Option<AdminItem> {
    match first_match(item_uris(v), uri) {
        Some(i) => Some(v[i]),
        None => None,
    }
}

/// Cutting `/codex/items/` (13 bytes) out of the codex uri of `s` does not panic,
/// when it has one.
pub open spec fn item_uri_ok(s: AdminItem) -> bool {
    s.codex_uri@.len() == 0 || bytes_cut_ok(s.codex_uri@, 13)
}

/// The item has a codex uri, whose slug is `slug`.
pub open spec fn item_has_slug(s: AdminItem, slug: Seq<char>) -> bool {
    s.codex_uri@.len() > 0 && after_bytes_trimmed(s.codex_uri@, 13) == slug
}

/// The index of the first item of `v`, from index `i` on, with the slug `slug`.
pub open spec fn first_item_with_slug(v: Seq<AdminItem>, slug: Seq<char>, i: int) -> Option<int>
    decreases v.len() - i,
{
    if i < 0 || i >= v.len() {
        None
    } else if item_has_slug(v[i], slug) {
        Some(i)
    } else {
        first_item_with_slug(v, slug, i + 1)
    }
}

/// Looking for the slug `slug` from index `i` on does not panic: each item looked at
/// before the first one with the slug can have the prefix of its codex uri cut out.
pub open spec fn item_slug_search_ok(v: Seq<AdminItem>, slug: Seq<char>, i: int) -> bool
    decreases v.len() - i,
{
    if i < 0 || i >= v.len() {
        true
    } else {
        item_uri_ok(v[i]) && (item_has_slug(v[i], slug) || item_slug_search_ok(v, slug, i + 1))
    }
}

/// Collection of items from the guide's admin view.
#[derive(Clone, Default)]
pub struct AdminItems {
    /// Items from the guide's admin view.
    pub items: Vec<AdminItem>,
}

impl<'a> AdminItems {
    /// Find the admin item corresponding to the given id.
    pub fn find_by_id(&'a self, needle: u32) -> (r: Option<&'a AdminItem>)
        ensures
            match find_admin_item(self.items@, needle) {
                Some(s) => r matches Some(x) && *x == s,
                None => r is None,
            },
    {
        let ghost keys = item_ids(self.items@);
        let mut i: usize = 0;
        while i < self.items.len()
            invariant
                keys == item_ids(self.items@),
                i <= self.items@.len(),
                first_id(keys, needle) == first_id_from(keys, needle, i as int),
            decreases self.items.len() - i,
        {
            if self.items[i].id == needle {
                return Some(&self.items[i]);
            }
            i = i + 1;
        }
        None
    }

    /// Find the admin item corresponding to the given id.
    /// If there is no match, return an `Err`.
    pub fn get_by_id(&'a self, needle: u32) -> (r: Result<&'a AdminItem, Error>)
        ensures
            match find_admin_item(self.items@, needle) {
                Some(s) => r matches Ok(x) && *x == s,
                None => r matches Err(e) && is_misc(
                    e,
                    "No match for admin item with id "@ + spec_dec(needle as nat),
                ),
            },
    {
        match self.find_by_id(needle) {
            Some(x) => Ok(x),
            None => Err(
                misc(concat2("No match for admin item with id ", unsigned_to_string(needle as u64).as_str())),
            ),
        }
    }

    /// Find the admin item corresponding to the given codex URI.
    pub fn find_by_uri(&'a self, needle: &str) -> (r: Option<&'a AdminItem>)
        ensures
            match find_admin_item_by_uri(self.items@, needle@) {
                Some(s) => r matches Some(x) && *x == s,
                None => r is None,
            },
    {
        let ghost keys = item_uris(self.items@);
        let mut i: usize = 0;
        while i < self.items.len()
            invariant
                keys == item_uris(self.items@),
                i <= self.items@.len(),
                first_match(keys, needle@) == first_match_from(keys, needle@, i as int),
            decreases self.items.len() - i,
        {
            if str_eq(self.items[i].codex_uri.as_str(), needle) {
                return Some(&self.items[i]);
            }
            i = i + 1;
        }
        None
    }

    /// Find the admin item corresponding to the given codex URI.
    /// If there is no match, return an `Err`.
    pub fn get_by_uri(&'a self, needle: &str) -> (r: Result<&'a AdminItem, Error>)
        ensures
            match find_admin_item_by_uri(self.items@, needle@) {
                Some(s) => r matches Ok(x) && *x == s,
                None => r matches Err(e) && is_misc(e, "No match for admin item with codex_uri "@ + needle@),
            },
    {
        match self.find_by_uri(needle) {
            Some(x) => Ok(x),
            None => Err(misc(concat2("No match for admin item with codex_uri ", needle))),
        }
    }

    /// Find the admin item associated with the given slug.
    pub fn find_by_slug(&'a self, needle: &str) -> (r: Option<&'a AdminItem>)
        requires
            item_slug_search_ok(self.items@, needle@, 0),
        ensures
            match first_item_with_slug(self.items@, needle@, 0) {
                Some(i) => r matches Some(x) && *x == self.items@[i],
                None => r is None,
            },
    {
        let mut i: usize = 0;
        while i < self.items.len()
            invariant
                i <= self.items@.len(),
                item_slug_search_ok(self.items@, needle@, i as int),
                first_item_with_slug(self.items@, needle@, 0) == first_item_with_slug(
                    self.items@,
                    needle@,
                    i as int,
                ),
            decreases self.items.len() - i,
        {
            let uri = self.items[i].codex_uri.as_str();
            if uri.unicode_len() > 0 {
                if str_eq(cut_after_bytes(uri, 13), needle) {
                    return Some(&self.items[i]);
                }
            }
            i = i + 1;
        }
        None
    }

    /// Find the admin item associated with the given slug.
    /// If there is no match, return an `Err`.
    pub fn get_by_slug(&'a self, needle: &str) -> (r: Result<&'a AdminItem, Error>)
        requires
            item_slug_search_ok(self.items@, needle@, 0),
        ensures
            match first_item_with_slug(self.items@, needle@, 0) {
                Some(i) => r matches Ok(x) && *x == self.items@[i],
                None => r matches Err(e) && is_misc(
                    e,
                    "No match for admin item with codex slug "@ + needle@,
                ),
            },
    {
        match self.find_by_slug(needle) {
            Some(x) => Ok(x),
            None => Err(misc(concat2("No match for admin item with codex slug ", needle))),
        }
    }
}

} // verus!
