//! Items of the codex.

use vstd::prelude::*;
use vstd::utf8::is_ascii_chars;

use crate::codex::affix::Affix;
use crate::codex::skill::{law_converted_offhand_skill_named, skill_as_admin, CodexSkill};
use crate::data::guide_data::item_uri_ids;
use crate::data::GuideData;
use crate::error::{is_misc, misc, Error, Kind};
use crate::guide::html_utils::Tag;
use crate::guide::statics::{element_id, find_element_by_name};
use crate::guide::{Static, StatusEffect};
use crate::items::admin::{
    empty_item, item_has_slug, item_uri_ok, AdminItem, AdminItemView, ItemBonuses, ItemHead, ItemMoreStats,
    ItemRelations, ItemStats,
};
use crate::lookup::{
    first_match, first_match_from, lemma_slug_uri_bytes, lemma_slug_uri_roundtrip, slug_of_uri, slug_uri, uri_ok,
    uri_slug,
};
use crate::misc::{
    codex_effect_name_to_guide_name, codex_names_to_guide_ids, guide_effect_name, names_converted, names_ids_found,
    VecIdConversionResult,
};
use crate::skills::admin::{first_offhand_named, is_offhand_named, offhand_search_ok, AdminSkill};
use crate::text::{concat2, concat3, sort_strs, str_eq, strs_view, texts_sorted, to_owned};

verus! {

/// An element (fire, water, arcane, ...).
#[derive(Debug, Clone, Copy, PartialEq, Eq, Structural)]
pub enum Element {
    Fire,
    Water,
    Earthen,
    Lightning,
    Holy,
    Dark,
    Arcane,
    Dragon,
    Physical,
}

/// An equipment slot in which the item can be equipped.
#[derive(Debug, Clone, Copy, PartialEq, Eq, Structural)]
pub enum Place {
    Head,
    Weapon,
    Torso,
    OffHand,
    Legs,
    Accessory,
    Armor,
    Material,
    Augment,
}

/// The name of an element, as the codex and the guide write it.
pub open spec fn element_name(e: Element) -> Seq<char> {
    match e {
        Element::Fire => "Fire"@,
        Element::Water => "Water"@,
        Element::Earthen => "Earthen"@,
        Element::Lightning => "Lightning"@,
        Element::Holy => "Holy"@,
        Element::Dark => "Dark"@,
        Element::Arcane => "Arcane"@,
        Element::Dragon => "Dragon"@,
        Element::Physical => "Physical"@,
    }
}

impl Element {
    /// The name of the element.
    pub fn to_string(&self) -> (r: String)
        ensures
            r@ == element_name(*self),
    {
        match self {
            Element::Fire => to_owned("Fire"),
            Element::Water => to_owned("Water"),
            Element::Earthen => to_owned("Earthen"),
            Element::Lightning => to_owned("Lightning"),
            Element::Holy => to_owned("Holy"),
            Element::Dark => to_owned("Dark"),
            Element::Arcane => to_owned("Arcane"),
            Element::Dragon => to_owned("Dragon"),
            Element::Physical => to_owned("Physical"),
        }
    }
}

/// The name of an equipment slot, as the codex writes it.
pub open spec fn place_name(p: Place) -> Seq<char> {
    match p {
        Place::Head => "Head"@,
        Place::Weapon => "Weapon"@,
        Place::Torso => "Torso"@,
        Place::OffHand => "Off-hand"@,
        Place::Legs => "Legs"@,
        Place::Accessory => "Accessory"@,
        Place::Armor => "Armor"@,
        Place::Augment => "Augment"@,
        Place::Material => "material"@,
    }
}

/// The equipment slot a codex text names.
pub open spec fn spec_place(s: Seq<char>) -> Option<Place> {
    if s == "Head"@ {
        Some(Place::Head)
    } else if s == "Weapon"@ {
        Some(Place::Weapon)
    } else if s == "Torso"@ {
        Some(Place::Torso)
    } else if s == "Off-hand"@ {
        Some(Place::OffHand)
    } else if s == "Legs"@ {
        Some(Place::Legs)
    } else if s == "Accessory"@ {
        Some(Place::Accessory)
    } else if s == "Armor"@ || s == "Armor (for adornments)"@ {
        Some(Place::Armor)
    } else if s == "Augment (for celestial weapons)"@ {
        Some(Place::Augment)
    } else if s == "material"@ {
        Some(Place::Material)
    } else {
        None
    }
}

/// `e` reports that the enum `name` has no value written `s`.
pub open spec fn is_parse_enum_error(e: Error, name: Seq<char>, s: Seq<char>) -> bool {
    &&& e.context@.len() == 0
    &&& e.kind matches Kind::ParseEnumError(n, m) && n@ == name && m@ == "Invalid value: "@ + s
}

impl Place {
    /// The name of the equipment slot.
    pub fn to_string(&self) -> (r: String)
        ensures
            r@ == place_name(*self),
    {
        match self {
            Place::Head => to_owned("Head"),
            Place::Weapon => to_owned("Weapon"),
            Place::Torso => to_owned("Torso"),
            Place::OffHand => to_owned("Off-hand"),
            Place::Legs => to_owned("Legs"),
            Place::Accessory => to_owned("Accessory"),
            Place::Armor => to_owned("Armor"),
            Place::Augment => to_owned("Augment"),
            Place::Material => to_owned("material"),
        }
    }

    /// Read an equipment slot from its codex text.
    pub fn from_str(s: &str) -> (r: Result<Place, Error>)
        ensures
            match spec_place(s@) {
                Some(p) => r matches Ok(q) && q == p,
                None => r matches Err(e) && is_parse_enum_error(e, "Place"@, s@),
            },
    {
        if str_eq(s, "Head") {
            Ok(Place::Head)
        } else if str_eq(s, "Weapon") {
            Ok(Place::Weapon)
        } else if str_eq(s, "Torso") {
            Ok(Place::Torso)
        } else if str_eq(s, "Off-hand") {
            Ok(Place::OffHand)
        } else if str_eq(s, "Legs") {
            Ok(Place::Legs)
        } else if str_eq(s, "Accessory") {
            Ok(Place::Accessory)
        } else if str_eq(s, "Armor") || str_eq(s, "Armor (for adornments)") {
            Ok(Place::Armor)
        } else if str_eq(s, "Augment (for celestial weapons)") {
            Ok(Place::Augment)
        } else if str_eq(s, "material") {
            Ok(Place::Material)
        } else {
            Err(
                Kind::ParseEnumError(to_owned("Place"), concat2("Invalid value: ", s)).into_err(),
            )
        }
    }
}

/// Reading back the name of an equipment slot gives the slot, for every slot but
/// augments, which the codex writes `Augment (for celestial weapons)`; armor is also
/// written `Armor (for adornments)`.
pub proof fn law_place_names(p: Place)
    ensures
        p != Place::Augment ==> spec_place(place_name(p)) == Some(p),
        spec_place("Augment (for celestial weapons)"@) == Some(Place::Augment),
        spec_place("Armor (for adornments)"@) == Some(Place::Armor),
{
    reveal_strlit("Head");
    reveal_strlit("Weapon");
    reveal_strlit("Torso");
    reveal_strlit("Off-hand");
    reveal_strlit("Legs");
    reveal_strlit("Accessory");
    reveal_strlit("Armor");
    reveal_strlit("Armor (for adornments)");
    reveal_strlit("Augment (for celestial weapons)");
    reveal_strlit("material");
    assert("Head"@.len() == 4 && "Head"@[0] == 'H');
    assert("Weapon"@.len() == 6 && "Weapon"@[0] == 'W');
    assert("Torso"@.len() == 5 && "Torso"@[0] == 'T');
    assert("Off-hand"@.len() == 8 && "Off-hand"@[0] == 'O');
    assert("Legs"@.len() == 4 && "Legs"@[0] == 'L');
    assert("Accessory"@.len() == 9 && "Accessory"@[0] == 'A');
    assert("Armor"@.len() == 5 && "Armor"@[0] == 'A' && "Armor"@[1] == 'r');
    assert("Armor (for adornments)"@.len() == 22 && "Armor (for adornments)"@[0] == 'A');
    assert("Augment (for celestial weapons)"@.len() == 31 && "Augment (for celestial weapons)"@[1] == 'u');
    assert("material"@.len() == 8 && "material"@[0] == 'm');
}

/// Stats of an item.
#[derive(Debug, Default, Clone, PartialEq, Eq)]
pub struct Stats {
    /// The base attack stat of the item.
    pub attack: Option<i16>,
    /// The base magic stat of the item.
    pub magic: Option<i16>,
    /// The base HP stat of the item.
    pub hp: Option<i16>,
    /// The base MP stat of the item.
    pub mana: Option<i16>,
    /// The base defense stat of the item.
    pub defense: Option<i16>,
    /// The base resistance stat of the item.
    pub resistance: Option<i16>,
    /// The base ward stat of the item (%).
    pub ward: Option<i8>,
    /// The base dexterity stat of the item.
    pub dexterity: Option<i16>,
    /// The crit stat of the item.
    pub crit: Option<u8>,
    /// The foresight of the item.
    pub foresight: Option<i16>,
    /// The number of adorn slots at level 10, common quality.
    pub adornment_slots: Option<u8>,
    /// The elment of the item.
    pub element: Option<Element>,
    /// Whether the item is `two_handed`.
    /// This will be set to false for all items to which this does not apply. The online codex has
    /// no mention along the lines of "not two-handed".
    pub two_handed: bool,
    /// Equipment slot on which the item is equipped.
    pub place: Option<Place>,
    /// The skills the item grants, either to oneself or the followers/summons.
    pub skills_granted: Vec<String>,
    /// The [affixes] the item grants.
    ///
    /// [affixes]: Affix
    pub affixes: Vec<Affix>,
}

/// The ability the item has in off-hand.
#[derive(Debug, Clone, PartialEq, Eq)]
pub struct Ability {
    /// The name of the ability.
    pub name: String,
    /// The description of the ability.
    pub description: String,
}

/// A monster dropping an item.
#[derive(Debug, Clone, PartialEq, Eq)]
pub struct DroppedBy {
    /// The name of the monster.
    pub name: String,
    /// The uri to the monster.
    pub uri: String,
    /// The icon of the monster.
    pub icon: String,
}

/// A material needed to upgrade an item.
#[derive(Debug, Clone, PartialEq, Eq)]
pub struct UpgradeMaterial {
    /// The name of the material.
    pub name: String,
    /// The uri to the material.
    pub uri: String,
    /// The icon of the material.
    pub icon: String,
}

/// A debuff the item causes.
#[derive(Debug, Clone, PartialEq, Eq)]
pub struct Cause {
    /// The name of the debuff.
    pub name: String,
    /// The icon of the debuff.
    pub icon: String,
}

/// A buff the item gives.
#[derive(Debug, Clone, PartialEq, Eq)]
pub struct Give {
    /// The name of the buff.
    pub name: String,
    /// The chance (0-100) of the effect happening.
    pub chance: i8,
    /// The icon of the buff.
    pub icon: String,
}

/// A debuff the item cures.
#[derive(Debug, Clone, PartialEq, Eq)]
pub struct Cure {
    /// The name of the buff.
    pub name: String,
    /// The icon of the buff.
    pub icon: String,
}

/// An debuff the item prevents.
#[derive(Debug, Clone, PartialEq, Eq)]
pub struct Immunity {
    /// The name of the debuff.
    pub name: String,
    /// The icon of the debuff.
    pub icon: String,
}

/// An item on the codex.
#[derive(Debug, Clone, PartialEq, Eq, Default)]
pub struct Item {
    /// The slug of the item (`https://playorna.com/codex/items/{slug}`).
    pub slug: String,
    /// The name of the item.
    pub name: String,
    /// The icon of the item.
    pub icon: String,
    /// The description of the item.
    pub description: String,
    /// The tier of the item.
    pub tier: u8,
    /// Tags attached to the item.
    pub tags: Vec<Tag>,
    /// The stats of the item.
    pub stats: Option<Stats>,
    /// The ability of the item.
    pub ability: Option<Ability>,
    /// Debuffs the item can cause.
    pub causes: Vec<Cause>,
    /// Debuffs the item cures.
    pub cures: Vec<Cure>,
    /// Buffs the item can give.
    pub gives: Vec<Give>,
    /// Immunities the item grants.
    pub immunities: Vec<Immunity>,
    /// The monsters that drop the item.
    pub dropped_by: Vec<DroppedBy>,
    /// The materials needed to upgrade the item.
    pub upgrade_materials: Vec<UpgradeMaterial>,
}

impl Item {
    /// Return whether the item can be found in shops.
    pub fn found_in_shops(&self) -> (r: bool)
        ensures
            r == self.tags@.contains(Tag::FoundInShops),
    {
        let mut i: usize = 0;
        while i < self.tags.len()
            invariant
                i <= self.tags@.len(),
                forall|j: int| 0 <= j < i ==> self.tags@[j] != Tag::FoundInShops,
            decreases self.tags.len() - i,
        {
            if self.tags[i] == Tag::FoundInShops {
                assert(self.tags@[i as int] == Tag::FoundInShops);
                return true;
            }
            i = i + 1;
        }
        false
    }
}

/// The value there, or zero.
pub open spec fn i16_or_zero(o: Option<i16>) -> i16 {
    match o {
        Some(x) => x,
        None => 0,
    }
}

/// The value there, or zero.
pub open spec fn i8_or_zero(o: Option<i8>) -> i8 {
    match o {
        Some(x) => x,
        None => 0,
    }
}

/// The value there, or zero.
pub open spec fn u8_or_zero(o: Option<u8>) -> u8 {
    match o {
        Some(x) => x,
        None => 0,
    }
}

/// The names of `v`, in order.
pub open spec fn cause_names(v: Seq<Cause>) -> Seq<Seq<char>> {
    v.map_values(|x: Cause| x.name@)
}

/// The names of `v`, in order.
pub open spec fn cure_names(v: Seq<Cure>) -> Seq<Seq<char>> {
    v.map_values(|x: Cure| x.name@)
}

/// The names of `v`, in order.
pub open spec fn give_names(v: Seq<Give>) -> Seq<Seq<char>> {
    v.map_values(|x: Give| x.name@)
}

/// The names of `v`, in order.
pub open spec fn immunity_names(v: Seq<Immunity>) -> Seq<Seq<char>> {
    v.map_values(|x: Immunity| x.name@)
}

/// The codex uris of `v`, in order.
pub open spec fn material_uris(v: Seq<UpgradeMaterial>) -> Seq<Seq<char>> {
    v.map_values(|x: UpgradeMaterial| x.uri@)
}

/// The guide id of the element of the stats, when they have one the guide knows.
pub open spec fn stats_element_id(s: Option<Stats>, g: GuideData) -> Option<u32> {
    match s {
        Some(st) => match st.element {
            Some(e) => element_id(g.static_.elements@, element_name(e)),
            None => None,
        },
        None => None,
    }
}

/// The guide id of the off-hand skill named as the ability, when there is one.
pub open spec fn ability_id(a: Option<Ability>, g: GuideData) -> Option<u32> {
    match a {
        Some(ab) => match first_offhand_named(g.skills.skills@, ab.name@, 0) {
            Some(k) => Some(g.skills.skills@[k].id),
            None => None,
        },
        None => None,
    }
}

/// The admin item a codex item becomes: its uri, name, tier, icon and description
/// (`.` when it has none), its stats (zero when missing), its element, off-hand
/// ability, statuses and upgrade materials as the guide knows them (those the guide
/// does not know left out), everything else as an item has by default.
pub open spec fn item_as_admin(i: Item, g: GuideData) -> AdminItemView {
    let e = empty_item(Seq::empty());
    let slots = match i.stats {
        Some(s) => u8_or_zero(s.adornment_slots),
        None => 0,
    };
    AdminItemView {
        head: ItemHead {
            codex_uri: "/codex/items/"@ + i.slug@ + "/"@,
            name: i.name@,
            tier: i.tier,
            image_name: i.icon@,
            description: if i.description@.len() == 0 {
                "."@
            } else {
                i.description@
            },
            ..e.head
        },
        stats: match i.stats {
            Some(s) => ItemStats {
                hp: i16_or_zero(s.hp),
                mana: i16_or_zero(s.mana),
                attack: i16_or_zero(s.attack),
                magic: i16_or_zero(s.magic),
                ..e.stats
            },
            None => e.stats,
        },
        more_stats: match i.stats {
            Some(s) => ItemMoreStats {
                defense: i16_or_zero(s.defense),
                resistance: i16_or_zero(s.resistance),
                dexterity: i16_or_zero(s.dexterity),
                ward: i8_or_zero(s.ward),
                crit: u8_or_zero(s.crit),
                ..e.more_stats
            },
            None => e.more_stats,
        },
        bonuses: ItemBonuses {
            foresight: match i.stats {
                Some(s) => i16_or_zero(s.foresight),
                None => 0,
            },
            base_adornment_slots: slots,
            has_slots: slots > 0,
            ..e.bonuses
        },
        relations: ItemRelations {
            element: stats_element_id(i.stats, g),
            ability: ability_id(i.ability, g),
            causes: names_ids_found(cause_names(i.causes@), g.static_.status_effects@),
            cures: names_ids_found(cure_names(i.cures@), g.static_.status_effects@),
            gives: names_ids_found(give_names(i.gives@), g.static_.status_effects@),
            prevents: names_ids_found(immunity_names(i.immunities@), g.static_.status_effects@),
            materials: item_uri_ids(material_uris(i.upgrade_materials@), g.items.items@),
            ..e.relations
        },
        ..e
    }
}

/// The ids of the statuses the conversion found, whether or not it found them all.
pub(crate) fn found_ids(r: Result<Vec<u32>, Error>, names: Ghost<Seq<Seq<char>>>, guide: Ghost<Seq<StatusEffect>>) -> (ids: Vec<u32>)
    requires
        names_converted(r, names@, guide@),
    ensures
        ids@ == names_ids_found(names@, guide@),
{
    match r.ignore_failed_id_conversions() {
        Ok(ids) => ids,
        Err(_) => Vec::new(),
    }
}

impl Item {
    /// Convert `self` to an `AdminItem`: statuses, materials, element and ability
    /// the guide does not know are left out.
    pub fn to_admin_item(&self, guide_data: &GuideData) -> (r: AdminItem)
        requires
            self.ability matches Some(a) ==> offhand_search_ok(guide_data.skills.skills@, a.name@, 0),
        ensures
            r@ == item_as_admin(*self, *guide_data),
    {
        let stats = &self.stats;
        let hp = match stats {
            Some(s) => match s.hp {
                Some(x) => x,
                None => 0,
            },
            None => 0,
        };
        let mana = match stats {
            Some(s) => match s.mana {
                Some(x) => x,
                None => 0,
            },
            None => 0,
        };
        let attack = match stats {
            Some(s) => match s.attack {
                Some(x) => x,
                None => 0,
            },
            None => 0,
        };
        let magic = match stats {
            Some(s) => match s.magic {
                Some(x) => x,
                None => 0,
            },
            None => 0,
        };
        let defense = match stats {
            Some(s) => match s.defense {
                Some(x) => x,
                None => 0,
            },
            None => 0,
        };
        let resistance = match stats {
            Some(s) => match s.resistance {
                Some(x) => x,
                None => 0,
            },
            None => 0,
        };
        let dexterity = match stats {
            Some(s) => match s.dexterity {
                Some(x) => x,
                None => 0,
            },
            None => 0,
        };
        let ward = match stats {
            Some(s) => match s.ward {
                Some(x) => x,
                None => 0,
            },
            None => 0,
        };
        let crit = match stats {
            Some(s) => match s.crit {
                Some(x) => x,
                None => 0,
            },
            None => 0,
        };
        let foresight = match stats {
            Some(s) => match s.foresight {
                Some(x) => x,
                None => 0,
            },
            None => 0,
        };
        let slots = match stats {
            Some(s) => match s.adornment_slots {
                Some(x) => x,
                None => 0,
            },
            None => 0,
        };
        let element = match stats {
            Some(s) => match &s.element {
                Some(e) => match find_element_by_name(&guide_data.static_.elements, e.to_string().as_str()) {
                    Some(el) => Some(el.id),
                    None => None,
                },
                None => None,
            },
            None => None,
        };
        let ability = match &self.ability {
            Some(a) => match guide_data.skills.find_offhand_from_name(a.name.as_str()) {
                Some(skill) => Some(skill.id),
                None => None,
            },
            None => None,
        };
        let effects = &guide_data.static_.status_effects;
        let causes = found_ids(
            self.causes.try_to_guide_ids(&guide_data.static_),
            Ghost(cause_names(self.causes@)),
            Ghost(effects@),
        );
        let cures = found_ids(
            self.cures.try_to_guide_ids(&guide_data.static_),
            Ghost(cure_names(self.cures@)),
            Ghost(effects@),
        );
        let gives = found_ids(
            self.gives.try_to_guide_ids(&guide_data.static_),
            Ghost(give_names(self.gives@)),
            Ghost(effects@),
        );
        let prevents = found_ids(
            self.immunities.try_to_guide_ids(&guide_data.static_),
            Ghost(immunity_names(self.immunities@)),
            Ghost(effects@),
        );
        let mut uris: Vec<&str> = Vec::new();
        let mut i: usize = 0;
        while i < self.upgrade_materials.len()
            invariant
                i <= self.upgrade_materials@.len(),
                uris@.map_values(|u: &str| u@) == material_uris(self.upgrade_materials@.take(i as int)),
            decreases self.upgrade_materials.len() - i,
        {
            proof {
                assert(material_uris(self.upgrade_materials@.take(i + 1)) =~= material_uris(
                    self.upgrade_materials@.take(i as int),
                ).push(self.upgrade_materials@[i as int].uri@));
            }
            uris.push(self.upgrade_materials[i].uri.as_str());
            assert(uris@.map_values(|u: &str| u@) =~= material_uris(self.upgrade_materials@.take(i + 1)));
            i = i + 1;
        }
        assert(self.upgrade_materials@.take(self.upgrade_materials@.len() as int) =~= self.upgrade_materials@);
        let materials = guide_data.item_uri_ids(&uris);
        let description = if self.description.unicode_len() == 0 {
            to_owned(".")
        } else {
            to_owned(self.description.as_str())
        };
        AdminItem {
            csrfmiddlewaretoken: String::new(),
            id: 0,
            codex_uri: concat3("/codex/items/", self.slug.as_str(), "/"),
            name: to_owned(self.name.as_str()),
            tier: self.tier,
            type_: 13,
            image_name: to_owned(self.icon.as_str()),
            description,
            notes: String::new(),
            hp,
            hp_affected_by_quality: false,
            mana,
            mana_affected_by_quality: false,
            attack,
            attack_affected_by_quality: true,
            magic,
            magic_affected_by_quality: true,
            defense,
            defense_affected_by_quality: true,
            resistance,
            resistance_affected_by_quality: true,
            dexterity,
            dexterity_affected_by_quality: false,
            ward,
            ward_affected_by_quality: true,
            crit,
            crit_affected_by_quality: false,
            foresight,
            view_distance: 0,
            follower_stats: 0,
            follower_act: 0,
            status_infliction: 0,
            status_protection: 0,
            mana_saver: 0,
            potion_effectiveness: 0,
            has_slots: slots > 0,
            base_adornment_slots: slots,
            rarity: to_owned("NO"),
            element,
            equipped_by: Vec::new(),
            two_handed: false,
            orn_bonus: to_owned("0"),
            gold_bonus: to_owned("0"),
            drop_bonus: to_owned("0"),
            spawn_bonus: to_owned("0"),
            exp_bonus: to_owned("0"),
            boss: false,
            arena: false,
            category: None,
            causes,
            cures,
            gives,
            prevents,
            materials,
            price: 0,
            ability,
        }
    }
}

/// The prefix of the codex uri of an item.
pub open spec fn item_uri_prefix() -> Seq<char> {
    "/codex/items/"@
}

/// The slugs of `items`, in order.
pub open spec fn item_slugs(items: Seq<Item>) -> Seq<Seq<char>> {
    items.map_values(|it: Item| it.slug@)
}

/// The item of `items` that a slug finds.
pub open spec fn find_item(items: Seq<Item>, slug: Seq<char>) -> Option<Item> {
    match first_match(item_slugs(items), slug) {
        Some(i) => Some(items[i]),
        None => None,
    }
}

/// The item of `items` that a uri finds.
pub open spec fn find_item_by_uri(items: Seq<Item>, uri: Seq<char>) -> Option<Item> {
    match uri_slug(uri, item_uri_prefix()) {
        Some(slug) => find_item(items, slug),
        None => None,
    }
}

/// Looking for an off-hand skill by name from index `i` finds one when a skill at or
/// after `i` has that name.
proof fn lemma_offhand_found(v: Seq<AdminSkill>, name: Seq<char>, i: int, k: int)
    requires
        0 <= i <= k < v.len(),
        is_offhand_named(v[k], name),
    ensures
        first_offhand_named(v, name, i) is Some,
    decreases k - i,
{
    if !is_offhand_named(v[i], name) {
        lemma_offhand_found(v, name, i + 1, k);
    }
}

/// An item whose off-hand ability is named as an off-hand codex skill that the guide
/// holds, once converted to an admin skill, gets an ability once converted to an admin
/// item (for a name without `[`).
pub proof fn law_item_ability_found(i: Item, g: GuideData, s: CodexSkill, st: Static, k: int)
    requires
        i.ability matches Some(ab) && ab.name@ == s.name@,
        s.tags@.contains(Tag::OffHandAbility),
        !s.name@.contains('['),
        0 <= k < g.skills.skills@.len(),
        g.skills.skills@[k]@ == skill_as_admin(s, st),
    ensures
        item_as_admin(i, g).relations.ability is Some,
{
    law_converted_offhand_skill_named(s, st, g.skills.skills@[k]);
    lemma_offhand_found(g.skills.skills@, s.name@, 0, k);
}

/// The value of a stat of the codex stats, or zero when the item has no stats or not
/// that one.
pub open spec fn codex_stat(stats: Option<Stats>, pick: spec_fn(Stats) -> Option<i16>) -> i16 {
    match stats {
        Some(s) => match pick(s) {
            Some(x) => x,
            None => 0,
        },
        None => 0,
    }
}

/// A codex item, converted to an admin item, gives each stat the admin item holds the
/// value of the codex stat of the same name (zero when the codex has none), keeps its
/// description (`.` when it has none), and has adornment slots exactly when its base
/// number of slots is above zero.
pub proof fn law_converted_item_stats(i: Item, g: GuideData, a: AdminItem)
    requires
        a@ == item_as_admin(i, g),
    ensures
        a.attack == codex_stat(i.stats, |s: Stats| s.attack),
        a.magic == codex_stat(i.stats, |s: Stats| s.magic),
        a.hp == codex_stat(i.stats, |s: Stats| s.hp),
        a.mana == codex_stat(i.stats, |s: Stats| s.mana),
        a.defense == codex_stat(i.stats, |s: Stats| s.defense),
        a.resistance == codex_stat(i.stats, |s: Stats| s.resistance),
        a.dexterity == codex_stat(i.stats, |s: Stats| s.dexterity),
        a.foresight == codex_stat(i.stats, |s: Stats| s.foresight),
        a.ward == (match i.stats {
            Some(s) => match s.ward {
                Some(x) => x,
                None => 0i8,
            },
            None => 0i8,
        }),
        a.crit == (match i.stats {
            Some(s) => match s.crit {
                Some(x) => x,
                None => 0u8,
            },
            None => 0u8,
        }),
        a.has_slots == (a.base_adornment_slots > 0),
        i.description@.len() > 0 ==> a.description@ == i.description@,
        i.description@.len() == 0 ==> a.description@ == "."@,
        a.name@ == i.name@,
        a.codex_uri@ == "/codex/items/"@ + i.slug@ + "/"@,
{
}

/// A codex item, converted to an admin item, keeps its tier and icon, takes the guide
/// element named as its element, the guide off-hand skill named as its ability, the
/// guide statuses named as the effects it causes, cures, gives and prevents, and the
/// guide items its upgrade materials link to.
pub proof fn law_converted_item_links(i: Item, g: GuideData, a: AdminItem)
    requires
        a@ == item_as_admin(i, g),
    ensures
        a.tier == i.tier,
        a.image_name@ == i.icon@,
        a.element == stats_element_id(i.stats, g),
        a.ability == ability_id(i.ability, g),
        a.causes@ == names_ids_found(cause_names(i.causes@), g.static_.status_effects@),
        a.cures@ == names_ids_found(cure_names(i.cures@), g.static_.status_effects@),
        a.gives@ == names_ids_found(give_names(i.gives@), g.static_.status_effects@),
        a.prevents@ == names_ids_found(immunity_names(i.immunities@), g.static_.status_effects@),
        a.materials@ == item_uri_ids(material_uris(i.upgrade_materials@), g.items.items@),
        i.stats is None ==> a.element is None,
        i.ability is None ==> a.ability is None,
{
}

/// The admin item a codex item becomes leads back to it: looking its codex uri up
/// among codex items does not panic, and finds the first item with its slug.
pub proof fn law_converted_item_leads_back(i: Item, g: GuideData, a: AdminItem, items: Seq<Item>)
    requires
        a@ == item_as_admin(i, g),
    ensures
        uri_ok(a.codex_uri@, item_uri_prefix()),
        find_item_by_uri(items, a.codex_uri@) == find_item(items, i.slug@),
{
    reveal_strlit("/");
    lemma_slug_uri_roundtrip(item_uri_prefix(), i.slug@);
    assert(a.codex_uri@ =~= slug_uri(item_uri_prefix(), i.slug@));
}

/// The admin item a codex item becomes is found among admin items by the item's slug
/// (for a slug that does not end with `/`): cutting the prefix out of its codex uri
/// does not panic and gives the slug back.
pub proof fn law_converted_item_found(i: Item, g: GuideData, a: AdminItem)
    requires
        a@ == item_as_admin(i, g),
        i.slug@.len() == 0 || i.slug@.last() != '/',
    ensures
        item_uri_ok(a),
        item_has_slug(a, i.slug@),
{
    reveal_strlit("/codex/items/");
    reveal_strlit("/");
    let prefix = "/codex/items/"@;
    assert(is_ascii_chars(prefix));
    lemma_slug_uri_bytes(prefix, i.slug@);
    assert(a.codex_uri@ =~= slug_uri(prefix, i.slug@));
}

/// Collection of items from the codex.
#[derive(Clone, Default, PartialEq, Eq)]
pub struct Items {
    /// Items from the codex.
    pub items: Vec<Item>,
}

impl<'a> Items {
    /// Find the codex item associated with the given uri.
    pub fn find_by_uri(&'a self, needle: &str) -> (r: Option<&'a Item>)
        requires
            uri_ok(needle@, item_uri_prefix()),
        ensures
            r matches Some(x) ==> find_item_by_uri(self.items@, needle@) == Some(*x),
            r is None ==> find_item_by_uri(self.items@, needle@) is None,
    {
        match slug_of_uri(needle, "/codex/items/") {
            Some(slug) => self.find_by_slug(slug),
            None => None,
        }
    }

    /// Find the codex item associated with the given uri.
    ///
    /// # Errors
    /// Errors if there is no match.
    pub fn get_by_uri(&'a self, needle: &str) -> (r: Result<&'a Item, Error>)
        requires
            uri_ok(needle@, item_uri_prefix()),
        ensures
            r matches Ok(x) ==> find_item_by_uri(self.items@, needle@) == Some(*x),
            r matches Err(e) ==> find_item_by_uri(self.items@, needle@) is None && is_misc(
                e,
                "No match for codex item with uri '"@ + needle@ + "'"@,
            ),
    {
        match self.find_by_uri(needle) {
            Some(x) => Ok(x),
            None => Err(misc(concat3("No match for codex item with uri '", needle, "'"))),
        }
    }

    /// Find the codex item associated with the given slug.
    pub fn find_by_slug(&'a self, needle: &str) -> (r: Option<&'a Item>)
        ensures
            r matches Some(x) ==> find_item(self.items@, needle@) == Some(*x),
            r is None ==> find_item(self.items@, needle@) is None,
    {
        let ghost keys = item_slugs(self.items@);
        let mut i: usize = 0;
        while i < self.items.len()
            invariant
                keys == item_slugs(self.items@),
                i <= self.items@.len(),
                first_match(keys, needle@) == first_match_from(keys, needle@, i as int),
            decreases self.items.len() - i,
        {
            if str_eq(self.items[i].slug.as_str(), needle) {
                return Some(&self.items[i]);
            }
            i = i + 1;
        }
        None
    }

    /// Find the codex item associated with the given slug.
    ///
    /// # Errors
    /// Errors if there is no match.
    pub fn get_by_slug(&'a self, needle: &str) -> (r: Result<&'a Item, Error>)
        ensures
            r matches Ok(x) ==> find_item(self.items@, needle@) == Some(*x),
            r matches Err(e) ==> find_item(self.items@, needle@) is None && is_misc(
                e,
                "No match for codex item with slug '"@ + needle@ + "'"@,
            ),
    {
        match self.find_by_slug(needle) {
            Some(x) => Ok(x),
            None => Err(misc(concat3("No match for codex item with slug '", needle, "'"))),
        }
    }
}

/// A trait to extend `Vec`s of `Cure`s, `Give`s, ....
pub trait ItemStatusEffects {
    /// Try to convert `self` to a `Vec<u32>`, with `u32`s being the guide `status_effect` ids.
    /// Returns `ErrorKind::PartialCodexStatusEffectConversion` if all fields have not been
    /// successfully converted.
    ///
    /// # Errors
    /// Errors if the array could not be converted in its entirety. Should the array be partially
    /// converted, partially converted content can be found in the error variant.
    fn try_to_guide_ids(&self, static_: &Static) -> Result<Vec<u32>, Error>;

    /// Convert the list of status effects to a list of effect names, matching those of the guide.
    fn to_guide_names(&self) -> Vec<&str>;
}

impl ItemStatusEffects for Vec<Cause> {
    fn try_to_guide_ids(&self, static_: &Static) -> (r: Result<Vec<u32>, Error>)
        ensures
            names_converted(r, self@.map_values(|x: Cause| x.name@), static_.status_effects@),
    {
        let mut names: Vec<&str> = Vec::new();
        let mut i: usize = 0;
        while i < self.len()
            invariant
                i <= self@.len(),
                strs_view(names@) == self@.take(i as int).map_values(|x: Cause| x.name@),
            decreases self.len() - i,
        {
            let ghost prev = names@;
            names.push(self[i].name.as_str());
            assert(self@.take(i + 1).map_values(|x: Cause| x.name@) =~= self@.take(i as int).map_values(
                |x: Cause| x.name@,
            ).push(self@[i as int].name@));
            assert(strs_view(names@) =~= strs_view(prev).push(self@[i as int].name@));
            i = i + 1;
        }
        assert(self@.take(self@.len() as int) =~= self@);
        codex_names_to_guide_ids(&names, &static_.status_effects)
    }

    fn to_guide_names(&self) -> (r: Vec<&str>)
        ensures
            texts_sorted(strs_view(r@)),
            strs_view(r@).to_multiset() == self@.map_values(|x: Cause| guide_effect_name(x.name@)).to_multiset(),
    {
        let mut names: Vec<&str> = Vec::new();
        let mut i: usize = 0;
        while i < self.len()
            invariant
                i <= self@.len(),
                strs_view(names@) == self@.take(i as int).map_values(|x: Cause| guide_effect_name(x.name@)),
            decreases self.len() - i,
        {
            let ghost prev = names@;
            names.push(codex_effect_name_to_guide_name(self[i].name.as_str()));
            assert(self@.take(i + 1).map_values(|x: Cause| guide_effect_name(x.name@)) =~= self@.take(
                i as int,
            ).map_values(|x: Cause| guide_effect_name(x.name@)).push(guide_effect_name(self@[i as int].name@)));
            assert(strs_view(names@) =~= strs_view(prev).push(guide_effect_name(self@[i as int].name@)));
            i = i + 1;
        }
        assert(self@.take(self@.len() as int) =~= self@);
        sort_strs(names)
    }
}

impl ItemStatusEffects for Vec<Give> {
    fn try_to_guide_ids(&self, static_: &Static) -> (r: Result<Vec<u32>, Error>)
        ensures
            names_converted(r, self@.map_values(|x: Give| x.name@), static_.status_effects@),
    {
        let mut names: Vec<&str> = Vec::new();
        let mut i: usize = 0;
        while i < self.len()
            invariant
                i <= self@.len(),
                strs_view(names@) == self@.take(i as int).map_values(|x: Give| x.name@),
            decreases self.len() - i,
        {
            let ghost prev = names@;
            names.push(self[i].name.as_str());
            assert(self@.take(i + 1).map_values(|x: Give| x.name@) =~= self@.take(i as int).map_values(
                |x: Give| x.name@,
            ).push(self@[i as int].name@));
            assert(strs_view(names@) =~= strs_view(prev).push(self@[i as int].name@));
            i = i + 1;
        }
        assert(self@.take(self@.len() as int) =~= self@);
        codex_names_to_guide_ids(&names, &static_.status_effects)
    }

    fn to_guide_names(&self) -> (r: Vec<&str>)
        ensures
            texts_sorted(strs_view(r@)),
            strs_view(r@).to_multiset() == self@.map_values(|x: Give| guide_effect_name(x.name@)).to_multiset(),
    {
        let mut names: Vec<&str> = Vec::new();
        let mut i: usize = 0;
        while i < self.len()
            invariant
                i <= self@.len(),
                strs_view(names@) == self@.take(i as int).map_values(|x: Give| guide_effect_name(x.name@)),
            decreases self.len() - i,
        {
            let ghost prev = names@;
            names.push(codex_effect_name_to_guide_name(self[i].name.as_str()));
            assert(self@.take(i + 1).map_values(|x: Give| guide_effect_name(x.name@)) =~= self@.take(
                i as int,
            ).map_values(|x: Give| guide_effect_name(x.name@)).push(guide_effect_name(self@[i as int].name@)));
            assert(strs_view(names@) =~= strs_view(prev).push(guide_effect_name(self@[i as int].name@)));
            i = i + 1;
        }
        assert(self@.take(self@.len() as int) =~= self@);
        sort_strs(names)
    }
}

impl ItemStatusEffects for Vec<Cure> {
    fn try_to_guide_ids(&self, static_: &Static) -> (r: Result<Vec<u32>, Error>)
        ensures
            names_converted(r, self@.map_values(|x: Cure| x.name@), static_.status_effects@),
    {
        let mut names: Vec<&str> = Vec::new();
        let mut i: usize = 0;
        while i < self.len()
            invariant
                i <= self@.len(),
                strs_view(names@) == self@.take(i as int).map_values(|x: Cure| x.name@),
            decreases self.len() - i,
        {
            let ghost prev = names@;
            names.push(self[i].name.as_str());
            assert(self@.take(i + 1).map_values(|x: Cure| x.name@) =~= self@.take(i as int).map_values(
                |x: Cure| x.name@,
            ).push(self@[i as int].name@));
            assert(strs_view(names@) =~= strs_view(prev).push(self@[i as int].name@));
            i = i + 1;
        }
        assert(self@.take(self@.len() as int) =~= self@);
        codex_names_to_guide_ids(&names, &static_.status_effects)
    }

    fn to_guide_names(&self) -> (r: Vec<&str>)
        ensures
            texts_sorted(strs_view(r@)),
            strs_view(r@).to_multiset() == self@.map_values(|x: Cure| guide_effect_name(x.name@)).to_multiset(),
    {
        let mut names: Vec<&str> = Vec::new();
        let mut i: usize = 0;
        while i < self.len()
            invariant
                i <= self@.len(),
                strs_view(names@) == self@.take(i as int).map_values(|x: Cure| guide_effect_name(x.name@)),
            decreases self.len() - i,
        {
            let ghost prev = names@;
            names.push(codex_effect_name_to_guide_name(self[i].name.as_str()));
            assert(self@.take(i + 1).map_values(|x: Cure| guide_effect_name(x.name@)) =~= self@.take(
                i as int,
            ).map_values(|x: Cure| guide_effect_name(x.name@)).push(guide_effect_name(self@[i as int].name@)));
            assert(strs_view(names@) =~= strs_view(prev).push(guide_effect_name(self@[i as int].name@)));
            i = i + 1;
        }
        assert(self@.take(self@.len() as int) =~= self@);
        sort_strs(names)
    }
}

impl ItemStatusEffects for Vec<Immunity> {
    fn try_to_guide_ids(&self, static_: &Static) -> (r: Result<Vec<u32>, Error>)
        ensures
            names_converted(r, self@.map_values(|x: Immunity| x.name@), static_.status_effects@),
    {
        let mut names: Vec<&str> = Vec::new();
        let mut i: usize = 0;
        while i < self.len()
            invariant
                i <= self@.len(),
                strs_view(names@) == self@.take(i as int).map_values(|x: Immunity| x.name@),
            decreases self.len() - i,
        {
            let ghost prev = names@;
            names.push(self[i].name.as_str());
            assert(self@.take(i + 1).map_values(|x: Immunity| x.name@) =~= self@.take(i as int).map_values(
                |x: Immunity| x.name@,
            ).push(self@[i as int].name@));
            assert(strs_view(names@) =~= strs_view(prev).push(self@[i as int].name@));
            i = i + 1;
        }
        assert(self@.take(self@.len() as int) =~= self@);
        codex_names_to_guide_ids(&names, &static_.status_effects)
    }

    fn to_guide_names(&self) -> (r: Vec<&str>)
        ensures
            texts_sorted(strs_view(r@)),
            strs_view(r@).to_multiset() == self@.map_values(|x: Immunity| guide_effect_name(x.name@)).to_multiset(),
    {
        let mut names: Vec<&str> = Vec::new();
        let mut i: usize = 0;
        while i < self.len()
            invariant
                i <= self@.len(),
                strs_view(names@) == self@.take(i as int).map_values(|x: Immunity| guide_effect_name(x.name@)),
            decreases self.len() - i,
        {
            let ghost prev = names@;
            names.push(codex_effect_name_to_guide_name(self[i].name.as_str()));
            assert(self@.take(i + 1).map_values(|x: Immunity| guide_effect_name(x.name@)) =~= self@.take(
                i as int,
            ).map_values(|x: Immunity| guide_effect_name(x.name@)).push(guide_effect_name(self@[i as int].name@)));
            assert(strs_view(names@) =~= strs_view(prev).push(guide_effect_name(self@[i as int].name@)));
            i = i + 1;
        }
        assert(self@.take(self@.len() as int) =~= self@);
        sort_strs(names)
    }
}

} // verus!
