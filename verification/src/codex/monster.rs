//! Monsters, bosses and raids of the codex.

use vstd::prelude::*;

pub use crate::guide::html_utils::Tag;
use crate::data::guide_data::{
    ability_uris, boss_as_admin, drop_uris, event_ids, events_ok, family_names, item_uri_ids, monster_as_admin,
    raid_as_admin, skill_uri_ids, tag_spawn_ids,
};
use crate::data::GuideData;
use crate::guide::MonsterFamily;
use crate::error::{is_misc, misc, Error};
use crate::monsters::admin::AdminMonster;
use crate::lookup::{
    first_match, first_match_from, lemma_first_match_from, lemma_slug_uri_roundtrip, slug_of_uri, slug_uri, uri_ok,
    uri_slug,
};
use crate::text::{concat3, str_eq, to_owned};

verus! {

/// An ability for a monster.
#[derive(Debug)]
pub struct Ability {
    /// The name of the ability.
    pub name: String,
    /// The uri to the ability.
    pub uri: String,
    /// The icon of the ability.
    pub icon: String,
}

/// A drop for a monster
#[derive(Debug)]
pub struct Drop {
    /// The name of the item.
    pub name: String,
    /// The uri to the item.
    pub uri: String,
    /// The icon of the item.
    pub icon: String,
}

/// A monster on the codex.
#[derive(Debug)]
pub struct Monster {
    /// The slug of the monster (`https://playorna.com/codex/monsters/{slug}`).
    pub slug: String,
    /// The name of the monster.
    pub name: String,
    /// The icon of the monster.
    pub icon: String,
    /// The events in which the monster appears.
    pub events: Vec<String>,
    /// The family to which the monster belongs.
    pub family: String,
    /// The rarity of the monster.
    pub rarity: String,
    /// The tier of the monster.
    pub tier: u8,
    /// The abilities of the monster.
    pub abilities: Vec<Ability>,
    /// The items the monster drops.
    pub drops: Vec<Drop>,
}

/// A boss on the codex.
#[derive(Debug)]
pub struct Boss {
    /// The slug of the boss (`https://playorna.com/codex/bosses/{slug}`).
    pub slug: String,
    /// The name of the boss.
    pub name: String,
    /// The icon of the boss.
    pub icon: String,
    /// The event in which the boss appears.
    pub events: Vec<String>,
    /// The family to which the boss belongs.
    pub family: String,
    /// The rarity of the boss.
    pub rarity: String,
    /// The tier of the boss.
    pub tier: u8,
    /// The abilities of the boss.
    pub abilities: Vec<Ability>,
    /// The items the boss drops.
    pub drops: Vec<Drop>,
}

/// A raid on the codex.
#[derive(Debug)]
pub struct Raid {
    /// The slug of the raid (`https://playorna.com/codex/raids/{slug}`).
    pub slug: String,
    /// The name of the raid.
    pub name: String,
    /// The description of the raid.
    pub description: String,
    /// The icon of the raid.
    pub icon: String,
    /// The event in which the raid appears.
    pub events: Vec<String>,
    /// The tier of the raid.
    pub tier: u8,
    /// Tags attached to the item.
    pub tags: Vec<Tag>,
    /// The abilities of the raid.
    pub abilities: Vec<Ability>,
    /// The items the raid drops.
    pub drops: Vec<Drop>,
}

/// Collection of monsters from the codex.
pub struct Monsters {
    /// Monsters from the codex.
    pub monsters: Vec<Monster>,
}

/// Collection of bosses from the codex.
pub struct Bosses {
    /// Bosses from the codex.
    pub bosses: Vec<Boss>,
}

/// Collection of raids from the codex.
pub struct Raids {
    /// Raids from the codex.
    pub raids: Vec<Raid>,
}

impl Monster {
    /// Try to convert `self` to an `AdminMonster`.
    ///
    ///  - An unknown family will be ignored, rather than returning an error.
    ///  - Unknown events are ignored, rather than returning an error.
    ///  - Unknown drops are ignored, rather than returning an error.
    ///  - Unknown skills are ignored, rather than returning an error.
    pub fn try_to_admin_monster(&self, guide_data: &GuideData) -> (r: Result<AdminMonster, Error>)
        requires
            self.events@.len() > 0 ==> events_ok(guide_data.static_.spawns@),
        ensures
            r matches Ok(m) && m@ == monster_as_admin(*self, *guide_data),
    {
        Ok(AdminMonster {
            csrfmiddlewaretoken: String::new(),
            id: 0,
            codex_uri: concat3("/codex/monsters/", self.slug.as_str(), "/"),
            name: to_owned(self.name.as_str()),
            tier: self.tier,
            family: guide_data.family_id(self.family.as_str()),
            image_name: to_owned(self.icon.as_str()),
            boss: false,
            hp: 0,
            level: 0,
            notes: String::new(),
            spawns: guide_data.event_ids(&self.events),
            weak_to: Vec::new(),
            resistant_to: Vec::new(),
            immune_to: Vec::new(),
            immune_to_status: Vec::new(),
            vulnerable_to_status: Vec::new(),
            drops: guide_data.drop_ids(&self.drops),
            skills: guide_data.ability_ids(&self.abilities),
        })
    }
}

impl Boss {
    /// Try to convert `self` to an `AdminMonster`.
    ///
    ///  - An unknown family will be ignored, rather than returning an error.
    ///  - Unknown events are ignored, rather than returning an error.
    ///  - Unknown drops are ignored, rather than returning an error.
    ///  - Unknown skills are ignored, rather than returning an error.
    pub fn try_to_admin_monster(&self, guide_data: &GuideData) -> (r: Result<AdminMonster, Error>)
        requires
            self.events@.len() > 0 ==> events_ok(guide_data.static_.spawns@),
        ensures
            r matches Ok(m) && m@ == boss_as_admin(*self, *guide_data),
    {
        Ok(AdminMonster {
            csrfmiddlewaretoken: String::new(),
            id: 0,
            codex_uri: concat3("/codex/bosses/", self.slug.as_str(), "/"),
            name: to_owned(self.name.as_str()),
            tier: self.tier,
            family: guide_data.family_id(self.family.as_str()),
            image_name: to_owned(self.icon.as_str()),
            boss: true,
            hp: 0,
            level: 0,
            notes: String::new(),
            spawns: guide_data.event_ids(&self.events),
            weak_to: Vec::new(),
            resistant_to: Vec::new(),
            immune_to: Vec::new(),
            immune_to_status: Vec::new(),
            vulnerable_to_status: Vec::new(),
            drops: guide_data.drop_ids(&self.drops),
            skills: guide_data.ability_ids(&self.abilities),
        })
    }
}

impl Raid {
    /// Try to convert `self` to an `AdminMonster`.
    ///
    ///  - Unknown events are ignored, rather than returning an error.
    ///  - Unknown spawns are ignored, rather than returning an error.
    ///  - Unknown drops are ignored, rather than returning an error.
    ///  - Unknown skills are ignored, rather than returning an error.
    pub fn try_to_admin_monster(&self, guide_data: &GuideData) -> (r: Result<AdminMonster, Error>)
        requires
            self.events@.len() > 0 ==> events_ok(guide_data.static_.spawns@),
        ensures
            r matches Ok(m) && m@ == raid_as_admin(*self, *guide_data),
    {
        let mut spawns = guide_data.event_ids(&self.events);
        let mut tag_spawns = guide_data.tag_spawn_ids(&self.tags);
        spawns.append(&mut tag_spawns);
        Ok(AdminMonster {
            csrfmiddlewaretoken: String::new(),
            id: 0,
            codex_uri: concat3("/codex/raids/", self.slug.as_str(), "/"),
            name: to_owned(self.name.as_str()),
            tier: self.tier,
            family: None,
            image_name: to_owned(self.icon.as_str()),
            boss: true,
            hp: 0,
            level: 0,
            notes: String::new(),
            spawns,
            weak_to: Vec::new(),
            resistant_to: Vec::new(),
            immune_to: Vec::new(),
            immune_to_status: Vec::new(),
            vulnerable_to_status: Vec::new(),
            drops: guide_data.drop_ids(&self.drops),
            skills: guide_data.ability_ids(&self.abilities),
        })
    }
}

/// The admin monster of a codex monster, boss or raid keeps its name, tier and icon,
/// has no HP, level, notes or element and status lists, and holds the guide ids of
/// its drops and abilities.
pub open spec fn keeps_codex_fields(
    a: AdminMonster,
    name: Seq<char>,
    tier: u8,
    icon: Seq<char>,
    drops: Seq<Drop>,
    abilities: Seq<Ability>,
    g: GuideData,
) -> bool {
    &&& a.name@ == name
    &&& a.tier == tier
    &&& a.image_name@ == icon
    &&& a.hp == 0 && a.level == 0 && a.notes@.len() == 0
    &&& a.weak_to@.len() == 0 && a.resistant_to@.len() == 0 && a.immune_to@.len() == 0
    &&& a.immune_to_status@.len() == 0 && a.vulnerable_to_status@.len() == 0
    &&& a.drops@ == item_uri_ids(drop_uris(drops), g.items.items@)
    &&& a.skills@ == skill_uri_ids(ability_uris(abilities), g.skills.skills@)
}

/// A codex monster, converted, is a regular monster (no boss) that keeps its fields and
/// spawns at the guide events of its events.
pub proof fn law_converted_monster_fields(m: Monster, g: GuideData, a: AdminMonster)
    requires
        a@ == monster_as_admin(m, g),
    ensures
        keeps_codex_fields(a, m.name@, m.tier, m.icon@, m.drops@, m.abilities@, g),
        !a.boss,
        a.spawns@ == event_ids(m.events@, g.static_.spawns@),
{
}

/// A codex boss, converted, is a boss that keeps its fields and spawns at the guide
/// events of its events.
pub proof fn law_converted_boss_fields(b: Boss, g: GuideData, a: AdminMonster)
    requires
        a@ == boss_as_admin(b, g),
    ensures
        keeps_codex_fields(a, b.name@, b.tier, b.icon@, b.drops@, b.abilities@, g),
        a.boss,
        a.spawns@ == event_ids(b.events@, g.static_.spawns@),
{
}

/// A codex raid, converted, is a boss of no family that keeps its fields and spawns at
/// the guide events of its events, then at the raid spawns its tags stand for.
pub proof fn law_converted_raid_fields(r: Raid, g: GuideData, a: AdminMonster)
    requires
        a@ == raid_as_admin(r, g),
    ensures
        keeps_codex_fields(a, r.name@, r.tier, r.icon@, r.drops@, r.abilities@, g),
        a.boss,
        a.family is None,
        a.spawns@ == event_ids(r.events@, g.static_.spawns@) + tag_spawn_ids(r.tags@, g.static_.spawns@),
{
}

/// The family the admin monster of a codex monster or boss named as `name` gets: the
/// id of the first guide family with that name, and none only when no guide family has
/// it.
pub open spec fn family_of_name(families: Seq<MonsterFamily>, name: Seq<char>, family: Option<u32>) -> bool {
    &&& family matches Some(id) ==> exists|k: int|
        0 <= k < families.len() && families[k].name@ == name && families[k].id == id && forall|j: int|
            0 <= j < k ==> families[j].name@ != name
    &&& family is None <==> forall|k: int| 0 <= k < families.len() ==> families[k].name@ != name
}

/// Shows [`family_of_name`] of the family a conversion looks up.
proof fn lemma_family_of_name(families: Seq<MonsterFamily>, name: Seq<char>)
    ensures
        family_of_name(families, name, crate::data::guide_data::family_id(families, name)),
{
    let names = family_names(families);
    lemma_first_match_from(names, name, 0);
    match first_match(names, name) {
        Some(k) => {
            assert(names[k] == families[k].name@);
            assert forall|j: int| 0 <= j < k implies families[j].name@ != name by {
                assert(names[j] == families[j].name@);
            }
        },
        None => {
            assert forall|k: int| 0 <= k < families.len() implies families[k].name@ != name by {
                assert(names[k] == families[k].name@);
            }
        },
    }
}

/// A codex monster, converted to an admin monster, belongs to the first guide family
/// named as its family, and to no family only when no guide family has that name.
pub proof fn law_converted_monster_family(m: Monster, g: GuideData, a: AdminMonster)
    requires
        a@ == monster_as_admin(m, g),
    ensures
        family_of_name(g.static_.monster_families@, m.family@, a.family),
{
    lemma_family_of_name(g.static_.monster_families@, m.family@);
}

/// A codex boss, converted to an admin monster, belongs to the first guide family
/// named as its family, and to no family only when no guide family has that name.
pub proof fn law_converted_boss_family(b: Boss, g: GuideData, a: AdminMonster)
    requires
        a@ == boss_as_admin(b, g),
    ensures
        family_of_name(g.static_.monster_families@, b.family@, a.family),
{
    lemma_family_of_name(g.static_.monster_families@, b.family@);
}

/// The admin monster a codex monster becomes leads back to it: looking its codex uri
/// up among monsters does not panic, and finds the first monster with its slug.
pub proof fn law_converted_monster_leads_back(m: Monster, g: GuideData, a: AdminMonster, monsters: Seq<Monster>)
    requires
        a@ == monster_as_admin(m, g),
    ensures
        uri_ok(a.codex_uri@, monster_uri_prefix()),
        find_monster_by_uri(monsters, a.codex_uri@) == find_monster(monsters, m.slug@),
{
    reveal_strlit("/");
    lemma_slug_uri_roundtrip(monster_uri_prefix(), m.slug@);
    assert(a.codex_uri@ =~= slug_uri(monster_uri_prefix(), m.slug@));
}

/// The admin monster a codex boss becomes leads back to it: looking its codex uri up
/// among bosses does not panic, and finds the first boss with its slug.
pub proof fn law_converted_boss_leads_back(b: Boss, g: GuideData, a: AdminMonster, bosses: Seq<Boss>)
    requires
        a@ == boss_as_admin(b, g),
    ensures
        uri_ok(a.codex_uri@, boss_uri_prefix()),
        find_boss_by_uri(bosses, a.codex_uri@) == find_boss(bosses, b.slug@),
{
    reveal_strlit("/");
    lemma_slug_uri_roundtrip(boss_uri_prefix(), b.slug@);
    assert(a.codex_uri@ =~= slug_uri(boss_uri_prefix(), b.slug@));
}

/// The admin monster a codex raid becomes leads back to it: looking its codex uri up
/// among raids does not panic, and finds the first raid with its slug.
pub proof fn law_converted_raid_leads_back(r: Raid, g: GuideData, a: AdminMonster, raids: Seq<Raid>)
    requires
        a@ == raid_as_admin(r, g),
    ensures
        uri_ok(a.codex_uri@, raid_uri_prefix()),
        find_raid_by_uri(raids, a.codex_uri@) == find_raid(raids, r.slug@),
{
    reveal_strlit("/");
    lemma_slug_uri_roundtrip(raid_uri_prefix(), r.slug@);
    assert(a.codex_uri@ =~= slug_uri(raid_uri_prefix(), r.slug@));
}

/// The prefix of the codex uri of a monster.
pub open spec fn monster_uri_prefix() -> Seq<char> {
    "/codex/monsters/"@
}

/// The slugs of `v`, in order.
pub open spec fn monster_slugs(v: Seq<Monster>) -> Seq<Seq<char>> {
    v.map_values(|x: Monster| x.slug@)
}

/// The monster of `v` that a slug finds: the first one with that slug.
pub open spec fn find_monster(v: Seq<Monster>, slug: Seq<char>) -> Option<Monster> {
    match first_match(monster_slugs(v), slug) {
        Some(i) => Some(v[i]),
        None => None,
    }
}

/// The monster of `v` that a uri finds.
pub open spec fn find_monster_by_uri(v: Seq<Monster>, uri: Seq<char>) -> Option<Monster> {
    match uri_slug(uri, monster_uri_prefix()) {
        Some(slug) => find_monster(v, slug),
        None => None,
    }
}

impl<'a> Monsters {
    /// Find the codex monster associated with the given uri.
    pub fn find_by_uri(&'a self, needle: &str) -> (r: Option<&'a Monster>)
        requires
            uri_ok(needle@, monster_uri_prefix()),
        ensures
            r matches Some(x) ==> find_monster_by_uri(self.monsters@, needle@) == Some(*x),
            r is None ==> find_monster_by_uri(self.monsters@, needle@) is None,
    {
        let slug = match slug_of_uri(needle, "/codex/monsters/") {
            Some(slug) => slug,
            None => {
                return None;
            },
        };
        let ghost keys = monster_slugs(self.monsters@);
        let mut i: usize = 0;
        while i < self.monsters.len()
            invariant
                keys == monster_slugs(self.monsters@),
                uri_slug(needle@, monster_uri_prefix()) == Some(slug@),
                i <= self.monsters@.len(),
                first_match(keys, slug@) == first_match_from(keys, slug@, i as int),
            decreases self.monsters.len() - i,
        {
            if str_eq(self.monsters[i].slug.as_str(), slug) {
                return Some(&self.monsters[i]);
            }
            i = i + 1;
        }
        None
    }

    /// Find the codex monster associated with the given uri.
    /// If there is no match, return an `Err`.
    pub fn get_by_uri(&'a self, needle: &str) -> (r: Result<&'a Monster, Error>)
        requires
            uri_ok(needle@, monster_uri_prefix()),
        ensures
            r matches Ok(x) ==> find_monster_by_uri(self.monsters@, needle@) == Some(*x),
            r matches Err(e) ==> find_monster_by_uri(self.monsters@, needle@) is None && is_misc(
                e,
                "No match for codex monster with uri '"@ + needle@ + "'"@,
            ),
    {
        match self.find_by_uri(needle) {
            Some(x) => Ok(x),
            None => Err(misc(concat3("No match for codex monster with uri '", needle, "'"))),
        }
    }
}

/// The prefix of the codex uri of a boss.
pub open spec fn boss_uri_prefix() -> Seq<char> {
    "/codex/bosses/"@
}

/// The slugs of `v`, in order.
pub open spec fn boss_slugs(v: Seq<Boss>) -> Seq<Seq<char>> {
    v.map_values(|x: Boss| x.slug@)
}

/// The boss of `v` that a slug finds: the first one with that slug.
pub open spec fn find_boss(v: Seq<Boss>, slug: Seq<char>) -> Option<Boss> {
    match first_match(boss_slugs(v), slug) {
        Some(i) => Some(v[i]),
        None => None,
    }
}

/// The boss of `v` that a uri finds.
pub open spec fn find_boss_by_uri(v: Seq<Boss>, uri: Seq<char>) -> Option<Boss> {
    match uri_slug(uri, boss_uri_prefix()) {
        Some(slug) => find_boss(v, slug),
        None => None,
    }
}

impl<'a> Bosses {
    /// Find the codex boss associated with the given uri.
    pub fn find_by_uri(&'a self, needle: &str) -> (r: Option<&'a Boss>)
        requires
            uri_ok(needle@, boss_uri_prefix()),
        ensures
            r matches Some(x) ==> find_boss_by_uri(self.bosses@, needle@) == Some(*x),
            r is None ==> find_boss_by_uri(self.bosses@, needle@) is None,
    {
        let slug = match slug_of_uri(needle, "/codex/bosses/") {
            Some(slug) => slug,
            None => {
                return None;
            },
        };
        let ghost keys = boss_slugs(self.bosses@);
        let mut i: usize = 0;
        while i < self.bosses.len()
            invariant
                keys == boss_slugs(self.bosses@),
                uri_slug(needle@, boss_uri_prefix()) == Some(slug@),
                i <= self.bosses@.len(),
                first_match(keys, slug@) == first_match_from(keys, slug@, i as int),
            decreases self.bosses.len() - i,
        {
            if str_eq(self.bosses[i].slug.as_str(), slug) {
                return Some(&self.bosses[i]);
            }
            i = i + 1;
        }
        None
    }

    /// Find the codex boss associated with the given uri.
    /// If there is no match, return an `Err`.
    pub fn get_by_uri(&'a self, needle: &str) -> (r: Result<&'a Boss, Error>)
        requires
            uri_ok(needle@, boss_uri_prefix()),
        ensures
            r matches Ok(x) ==> find_boss_by_uri(self.bosses@, needle@) == Some(*x),
            r matches Err(e) ==> find_boss_by_uri(self.bosses@, needle@) is None && is_misc(
                e,
                "No match for codex boses with uri '"@ + needle@ + "'"@,
            ),
    {
        match self.find_by_uri(needle) {
            Some(x) => Ok(x),
            None => Err(misc(concat3("No match for codex boses with uri '", needle, "'"))),
        }
    }
}

/// The prefix of the codex uri of a raid.
pub open spec fn raid_uri_prefix() -> Seq<char> {
    "/codex/raids/"@
}

/// The slugs of `v`, in order.
pub open spec fn raid_slugs(v: Seq<Raid>) -> Seq<Seq<char>> {
    v.map_values(|x: Raid| x.slug@)
}

/// The raid of `v` that a slug finds: the first one with that slug.
pub open spec fn find_raid(v: Seq<Raid>, slug: Seq<char>) -> Option<Raid> {
    match first_match(raid_slugs(v), slug) {
        Some(i) => Some(v[i]),
        None => None,
    }
}

/// The raid of `v` that a uri finds.
pub open spec fn find_raid_by_uri(v: Seq<Raid>, uri: Seq<char>) -> Option<Raid> {
    match uri_slug(uri, raid_uri_prefix()) {
        Some(slug) => find_raid(v, slug),
        None => None,
    }
}

impl<'a> Raids {
    /// Find the codex raid associated with the given uri.
    pub fn find_by_uri(&'a self, needle: &str) -> (r: Option<&'a Raid>)
        requires
            uri_ok(needle@, raid_uri_prefix()),
        ensures
            r matches Some(x) ==> find_raid_by_uri(self.raids@, needle@) == Some(*x),
            r is None ==> find_raid_by_uri(self.raids@, needle@) is None,
    {
        let slug = match slug_of_uri(needle, "/codex/raids/") {
            Some(slug) => slug,
            None => {
                return None;
            },
        };
        let ghost keys = raid_slugs(self.raids@);
        let mut i: usize = 0;
        while i < self.raids.len()
            invariant
                keys == raid_slugs(self.raids@),
                uri_slug(needle@, raid_uri_prefix()) == Some(slug@),
                i <= self.raids@.len(),
                first_match(keys, slug@) == first_match_from(keys, slug@, i as int),
            decreases self.raids.len() - i,
        {
            if str_eq(self.raids[i].slug.as_str(), slug) {
                return Some(&self.raids[i]);
            }
            i = i + 1;
        }
        None
    }

    /// Find the codex raid associated with the given uri.
    /// If there is no match, return an `Err`.
    pub fn get_by_uri(&'a self, needle: &str) -> (r: Result<&'a Raid, Error>)
        requires
            uri_ok(needle@, raid_uri_prefix()),
        ensures
            r matches Ok(x) ==> find_raid_by_uri(self.raids@, needle@) == Some(*x),
            r matches Err(e) ==> find_raid_by_uri(self.raids@, needle@) is None && is_misc(
                e,
                "No match for codex raid with uri '"@ + needle@ + "'"@,
            ),
    {
        match self.find_by_uri(needle) {
            Some(x) => Ok(x),
            None => Err(misc(concat3("No match for codex raid with uri '", needle, "'"))),
        }
    }
}

} // verus!
