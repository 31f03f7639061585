//! The data of the guide, as the conversions from the codex read it.

use vstd::prelude::*;

use vstd::utf8::is_ascii_chars;

use crate::codex::{CodexBoss, CodexMonster, CodexRaid, MonsterAbility, MonsterDrop};
use crate::guide::html_utils::Tag;
use crate::guide::{MonsterFamily, Spawn, Static};
use crate::error::{is_misc, misc, Error};
use crate::lookup::{
    after_bytes_trimmed, bytes_cut_ok, cut_after_bytes, first_id_from, first_match, first_match_from,
    lemma_slug_uri_bytes, slug_uri,
};
use crate::monsters::admin::{
    event_name_ok, event_of_name, has_raid_spawn, spawn_ids, spawn_is_raid, spawn_of, AdminMonster,
    AdminMonsterView, RaidSpawn,
};
use crate::data::CodexGenericMonster;
use crate::items::admin::{find_admin_item_by_uri, AdminItem, AdminItems};
use crate::pets::admin::AdminPets;
use crate::skills::admin::{find_admin_skill_by_uri, AdminSkill, AdminSkills};
use crate::monsters::admin::AdminMonsters;
use crate::text::{concat3, starts_with, str_eq};

verus! {

/// Aggregate for guide data.
pub struct GuideData {
    /// Items from the guide.
    pub items: AdminItems,
    /// Monsters from the guide (includes bosses and raids).
    pub monsters: AdminMonsters,
    /// Skills from the guide.
    pub skills: AdminSkills,
    /// Pets from the guide.
    pub pets: AdminPets,
    /// Static data from the guide.
    pub static_: Static,
}

/// The kind of codex monster an admin monster is matched against.
#[derive(Debug, Clone, Copy, PartialEq, Eq, Structural)]
pub enum CodexMonsterKind {
    /// A regular monster.
    Regular,
    /// A boss.
    Boss,
    /// A raid.
    Raid,
}

/// The length in bytes of the uri prefix of the kind: `/codex/monsters/`,
/// `/codex/bosses/` or `/codex/raids/`.
pub open spec fn kind_prefix_len(k: CodexMonsterKind) -> int {
    match k {
        CodexMonsterKind::Regular => 16,
        CodexMonsterKind::Boss => 14,
        CodexMonsterKind::Raid => 13,
    }
}

/// Whether the admin monster `m` is of the kind `k`.
pub open spec fn admin_is_kind(m: AdminMonster, spawns: Seq<Spawn>, k: CodexMonsterKind) -> bool {
    match k {
        CodexMonsterKind::Regular => !m.boss,
        CodexMonsterKind::Boss => m.boss && !has_raid_spawn(RaidSpawn::Any, m.spawns@, spawns),
        CodexMonsterKind::Raid => m.boss && has_raid_spawn(RaidSpawn::Any, m.spawns@, spawns),
    }
}

/// Whether the admin monster `m` is the codex monster of kind `k` with the slug.
pub open spec fn admin_matches(
    m: AdminMonster,
    spawns: Seq<Spawn>,
    k: CodexMonsterKind,
    slug: Seq<char>,
) -> bool {
    &&& m.codex_uri@.len() > 0
    &&& admin_is_kind(m, spawns, k)
    &&& after_bytes_trimmed(m.codex_uri@, kind_prefix_len(k)) == slug
}

/// Cutting the uri prefix of the kind out of the codex uri of `m` does not panic,
/// wherever the match looks at it.
pub open spec fn admin_cut_ok(m: AdminMonster, spawns: Seq<Spawn>, k: CodexMonsterKind) -> bool {
    m.codex_uri@.len() > 0 && admin_is_kind(m, spawns, k) ==> bytes_cut_ok(
        m.codex_uri@,
        kind_prefix_len(k),
    )
}

/// The index of the first admin monster, from index `i` on, that is the codex
/// monster of kind `k` with the slug.
pub open spec fn first_admin_match_from(
    ms: Seq<AdminMonster>,
    spawns: Seq<Spawn>,
    k: CodexMonsterKind,
    slug: Seq<char>,
    i: int,
) -> Option<int>
    decreases ms.len() - i,
{
    if i < 0 || i >= ms.len() {
        None
    } else if admin_matches(ms[i], spawns, k, slug) {
        Some(i)
    } else {
        first_admin_match_from(ms, spawns, k, slug, i + 1)
    }
}

/// The index of the first admin monster that is the codex monster of kind `k`
/// with the slug.
pub open spec fn first_admin_match(
    ms: Seq<AdminMonster>,
    spawns: Seq<Spawn>,
    k: CodexMonsterKind,
    slug: Seq<char>,
) -> Option<int> {
    first_admin_match_from(ms, spawns, k, slug, 0)
}

/// Every admin monster of `g` can have the uri prefix of the kind cut out.
pub open spec fn admins_cut_ok(g: GuideData, k: CodexMonsterKind) -> bool {
    forall|i: int|
        0 <= i < g.monsters.monsters@.len() ==> #[trigger] admin_cut_ok(
            g.monsters.monsters@[i],
            g.static_.spawns@,
            k,
        )
}

/// What a match of a codex monster of kind `k` with the slug gives: the first
/// matching admin monster, or the error with `msg`.
pub open spec fn match_found<'a>(
    g: GuideData,
    k: CodexMonsterKind,
    slug: Seq<char>,
    msg: Seq<char>,
    r: Result<&'a AdminMonster, Error>,
) -> bool {
    match first_admin_match(g.monsters.monsters@, g.static_.spawns@, k, slug) {
        Some(i) => r matches Ok(m) && *m == g.monsters.monsters@[i],
        None => r matches Err(e) && is_misc(e, msg),
    }
}

/// Keeps the values of `s` that are there, in order.
pub open spec fn somes(s: Seq<Option<u32>>) -> Seq<u32>
    decreases s.len(),
{
    if s.len() == 0 {
        Seq::empty()
    } else {
        match s.last() {
            Some(x) => somes(s.drop_last()).push(x),
            None => somes(s.drop_last()),
        }
    }
}

/// The names of `families`, in order.
pub open spec fn family_names(families: Seq<MonsterFamily>) -> Seq<Seq<char>> {
    families.map_values(|f: MonsterFamily| f.name@)
}

/// The id of the first family named `name`.
pub open spec fn family_id(families: Seq<MonsterFamily>, name: Seq<char>) -> Option<u32> {
    match first_match(family_names(families), name) {
        Some(i) => Some(families[i].id),
        None => None,
    }
}

/// The names of `spawns`, in order.
pub open spec fn spawn_names(spawns: Seq<Spawn>) -> Seq<Seq<char>> {
    spawns.map_values(|s: Spawn| s.name@)
}

/// The id of the first spawn named `name`.
pub open spec fn spawn_id_by_name(spawns: Seq<Spawn>, name: Seq<char>) -> Option<u32> {
    match first_match(spawn_names(spawns), name) {
        Some(i) => Some(spawns[i].id),
        None => None,
    }
}

/// The id of the first event spawn, from index `i` on, whose event name is `name`.
pub open spec fn event_id_from(spawns: Seq<Spawn>, name: Seq<char>, i: int) -> Option<u32>
    decreases spawns.len() - i,
{
    if i < 0 || i >= spawns.len() {
        None
    } else if event_of_name(spawns[i].name@) == Some(name) {
        Some(spawns[i].id)
    } else {
        event_id_from(spawns, name, i + 1)
    }
}

/// The id of the first event spawn whose event name is `name`.
pub open spec fn event_id(spawns: Seq<Spawn>, name: Seq<char>) -> Option<u32> {
    event_id_from(spawns, name, 0)
}

/// Every spawn can have its event prefix cut out.
pub open spec fn events_ok(spawns: Seq<Spawn>) -> bool {
    forall|i: int| 0 <= i < spawns.len() ==> #[trigger] event_name_ok(spawns[i].name@)
}

/// The ids of the events named `events` that the guide knows, in order.
pub open spec fn event_ids(events: Seq<String>, spawns: Seq<Spawn>) -> Seq<u32> {
    somes(events.map_values(|e: String| event_id(spawns, e@)))
}

/// The id of the first item of the guide whose codex uri is `uri`.
pub open spec fn item_id_by_uri(items: Seq<AdminItem>, uri: Seq<char>) -> Option<u32> {
    match find_admin_item_by_uri(items, uri) {
        Some(x) => Some(x.id),
        None => None,
    }
}

/// The id of the first skill of the guide whose codex uri is `uri`.
pub open spec fn skill_id_by_uri(skills: Seq<AdminSkill>, uri: Seq<char>) -> Option<u32> {
    match find_admin_skill_by_uri(skills, uri) {
        Some(x) => Some(x.id),
        None => None,
    }
}

/// The ids of the items of the guide whose codex uris are `uris`, those the guide
/// knows, in order.
pub open spec fn item_uri_ids(uris: Seq<Seq<char>>, items: Seq<AdminItem>) -> Seq<u32> {
    somes(uris.map_values(|u: Seq<char>| item_id_by_uri(items, u)))
}

/// The ids of the skills of the guide whose codex uris are `uris`, those the guide
/// knows, in order.
pub open spec fn skill_uri_ids(uris: Seq<Seq<char>>, skills: Seq<AdminSkill>) -> Seq<u32> {
    somes(uris.map_values(|u: Seq<char>| skill_id_by_uri(skills, u)))
}

/// The codex uris of `drops`, in order.
pub open spec fn drop_uris(drops: Seq<MonsterDrop>) -> Seq<Seq<char>> {
    drops.map_values(|d: MonsterDrop| d.uri@)
}

/// The codex uris of `abilities`, in order.
pub open spec fn ability_uris(abilities: Seq<MonsterAbility>) -> Seq<Seq<char>> {
    abilities.map_values(|a: MonsterAbility| a.uri@)
}

/// The spawn a raid tag stands for: world and kingdom raids have one.
pub open spec fn tag_spawn(spawns: Seq<Spawn>, t: Tag) -> Option<u32> {
    match t {
        Tag::WorldRaid => spawn_id_by_name(spawns, "World Raid"@),
        Tag::KingdomRaid => spawn_id_by_name(spawns, "Kingdom Raid"@),
        _ => None,
    }
}

/// The ids of the spawns that `tags` stand for, in order.
pub open spec fn tag_spawn_ids(tags: Seq<Tag>, spawns: Seq<Spawn>) -> Seq<u32> {
    somes(tags.map_values(|t: Tag| tag_spawn(spawns, t)))
}

/// The admin monster a codex entity becomes: the given uri, name, tier, family,
/// image, boss flag, spawns, drops and skills, everything else empty.
pub open spec fn converted_monster(
    codex_uri: Seq<char>,
    name: Seq<char>,
    tier: u8,
    family: Option<u32>,
    image_name: Seq<char>,
    boss: bool,
    spawns: Seq<u32>,
    drops: Seq<u32>,
    skills: Seq<u32>,
) -> AdminMonsterView {
    AdminMonsterView {
        csrfmiddlewaretoken: Seq::empty(),
        id: 0,
        codex_uri,
        name,
        tier,
        family,
        image_name,
        boss,
        hp: 0,
        level: 0,
        notes: Seq::empty(),
        spawns,
        weak_to: Seq::empty(),
        resistant_to: Seq::empty(),
        immune_to: Seq::empty(),
        immune_to_status: Seq::empty(),
        vulnerable_to_status: Seq::empty(),
        drops,
        skills,
    }
}

/// The admin monster a codex monster becomes.
pub open spec fn monster_as_admin(m: CodexMonster, g: GuideData) -> AdminMonsterView {
    converted_monster(
        "/codex/monsters/"@ + m.slug@ + "/"@,
        m.name@,
        m.tier,
        family_id(g.static_.monster_families@, m.family@),
        m.icon@,
        false,
        event_ids(m.events@, g.static_.spawns@),
        item_uri_ids(drop_uris(m.drops@), g.items.items@),
        skill_uri_ids(ability_uris(m.abilities@), g.skills.skills@),
    )
}

/// The admin monster a codex boss becomes.
pub open spec fn boss_as_admin(m: CodexBoss, g: GuideData) -> AdminMonsterView {
    converted_monster(
        "/codex/bosses/"@ + m.slug@ + "/"@,
        m.name@,
        m.tier,
        family_id(g.static_.monster_families@, m.family@),
        m.icon@,
        true,
        event_ids(m.events@, g.static_.spawns@),
        item_uri_ids(drop_uris(m.drops@), g.items.items@),
        skill_uri_ids(ability_uris(m.abilities@), g.skills.skills@),
    )
}

/// The admin monster a codex raid becomes: its spawns are its events, then the
/// spawns its tags stand for.
pub open spec fn raid_as_admin(m: CodexRaid, g: GuideData) -> AdminMonsterView {
    converted_monster(
        "/codex/raids/"@ + m.slug@ + "/"@,
        m.name@,
        m.tier,
        None,
        m.icon@,
        true,
        event_ids(m.events@, g.static_.spawns@) + tag_spawn_ids(m.tags@, g.static_.spawns@),
        item_uri_ids(drop_uris(m.drops@), g.items.items@),
        skill_uri_ids(ability_uris(m.abilities@), g.skills.skills@),
    )
}

/// A codex monster, once converted to an admin monster, is the admin monster that the
/// lookup of regular monsters finds for it: the admin monster is a regular one, and
/// cutting the prefix out of its codex uri gives the monster's slug back (for a slug
/// that does not end with `/`).
pub proof fn law_converted_monster_matches(m: CodexMonster, g: GuideData, a: AdminMonster)
    requires
        a@ == monster_as_admin(m, g),
        m.slug@.len() == 0 || m.slug@.last() != '/',
    ensures
        admin_cut_ok(a, g.static_.spawns@, CodexMonsterKind::Regular),
        admin_matches(a, g.static_.spawns@, CodexMonsterKind::Regular, m.slug@),
{
    reveal_strlit("/codex/monsters/");
    reveal_strlit("/");
    let prefix = "/codex/monsters/"@;
    assert(is_ascii_chars(prefix));
    lemma_slug_uri_bytes(prefix, m.slug@);
    assert(a.codex_uri@ =~= slug_uri(prefix, m.slug@));
}

/// A value there in `s` is kept by `somes`.
proof fn lemma_somes_keeps(s: Seq<Option<u32>>, j: int, x: u32)
    requires
        0 <= j < s.len(),
        s[j] == Some(x),
    ensures
        exists|k: int| 0 <= k < somes(s).len() && somes(s)[k] == x,
    decreases s.len(),
{
    if j == s.len() - 1 {
        assert(somes(s) == somes(s.drop_last()).push(x));
        assert(somes(s)[somes(s).len() - 1] == x);
    } else {
        lemma_somes_keeps(s.drop_last(), j, x);
        let k = choose|k: int| 0 <= k < somes(s.drop_last()).len() && somes(s.drop_last())[k] == x;
        match s.last() {
            Some(y) => {
                assert(somes(s) == somes(s.drop_last()).push(y));
                assert(somes(s)[k] == x);
            },
            None => {},
        }
    }
}

/// The index a search by key finds holds the key.
proof fn lemma_first_match_found(keys: Seq<Seq<char>>, needle: Seq<char>, i: int)
    ensures
        first_match_from(keys, needle, i) matches Some(k) ==> i <= k < keys.len() && keys[k] == needle,
    decreases keys.len() - i,
{
    if 0 <= i < keys.len() && keys[i] != needle {
        lemma_first_match_found(keys, needle, i + 1);
    }
}

/// With ids that differ, the spawn an id refers to is the one that has it.
proof fn lemma_unique_spawn_of(spawns: Seq<Spawn>, i: int, k: int)
    requires
        0 <= k <= i < spawns.len(),
        forall|a: int, b: int|
            0 <= a < spawns.len() && 0 <= b < spawns.len() && #[trigger] spawns[a].id == #[trigger] spawns[b].id
                ==> a == b,
    ensures
        first_id_from(spawn_ids(spawns), spawns[i].id, k) == Some(i),
    decreases i - k,
{
    if k < i {
        assert(spawn_ids(spawns)[k] == spawns[k].id);
        lemma_unique_spawn_of(spawns, i, k + 1);
    }
}

/// A codex raid tagged as a world or a kingdom raid, once converted to an admin
/// monster, is the admin monster that the lookup of raids finds for it, when the guide
/// has the spawn the tag stands for (`World Raid`, `Kingdom Raid`) and the ids of its
/// spawns differ: the admin monster is a raid, and cutting the prefix out of its codex
/// uri gives the raid's slug back (for a slug that does not end with `/`).
pub proof fn law_converted_raid_matches(r: CodexRaid, g: GuideData, a: AdminMonster, t: Tag)
    requires
        a@ == raid_as_admin(r, g),
        r.slug@.len() == 0 || r.slug@.last() != '/',
        t == Tag::WorldRaid || t == Tag::KingdomRaid,
        r.tags@.contains(t),
        tag_spawn(g.static_.spawns@, t) is Some,
        forall|i: int, j: int|
            0 <= i < g.static_.spawns@.len() && 0 <= j < g.static_.spawns@.len()
                && #[trigger] g.static_.spawns@[i].id == #[trigger] g.static_.spawns@[j].id ==> i == j,
    ensures
        admin_cut_ok(a, g.static_.spawns@, CodexMonsterKind::Raid),
        admin_matches(a, g.static_.spawns@, CodexMonsterKind::Raid, r.slug@),
{
    reveal_strlit("/codex/raids/");
    reveal_strlit("/");
    reveal_strlit("World Raid");
    reveal_strlit("Kingdom Raid");
    let prefix = "/codex/raids/"@;
    assert(is_ascii_chars(prefix));
    lemma_slug_uri_bytes(prefix, r.slug@);
    assert(a.codex_uri@ =~= slug_uri(prefix, r.slug@));
    let spawns = g.static_.spawns@;
    let names = spawn_names(spawns);
    let name = if t == Tag::WorldRaid {
        "World Raid"@
    } else {
        "Kingdom Raid"@
    };
    assert(tag_spawn(spawns, t) == spawn_id_by_name(spawns, name));
    lemma_first_match_found(names, name, 0);
    let i = first_match(names, name).unwrap();
    assert(spawns[i].name@ == name);
    let x = spawns[i].id;
    lemma_unique_spawn_of(spawns, i, 0);
    assert(spawn_of(spawns, x) == Some(spawns[i]));
    assert(spawn_is_raid(RaidSpawn::Any, spawns, x));
    let j = choose|j: int| 0 <= j < r.tags@.len() && r.tags@[j] == t;
    let mapped = r.tags@.map_values(|u: Tag| tag_spawn(spawns, u));
    assert(mapped[j] == Some(x));
    lemma_somes_keeps(mapped, j, x);
    let ev = event_ids(r.events@, spawns);
    let ts = tag_spawn_ids(r.tags@, spawns);
    let k = choose|k: int| 0 <= k < ts.len() && ts[k] == x;
    assert(a.spawns@ == ev + ts);
    assert(a.spawns@[ev.len() + k] == x);
    assert(has_raid_spawn(RaidSpawn::Any, a.spawns@, spawns));
}

/// Adding one more value to `s` adds it to what `somes` keeps.
proof fn lemma_somes_take(s: Seq<Option<u32>>, i: int)
    requires
        0 <= i < s.len(),
    ensures
        somes(s.take(i + 1)) == match s[i] {
            Some(x) => somes(s.take(i)).push(x),
            None => somes(s.take(i)),
        },
{
    assert(s.take(i + 1).drop_last() =~= s.take(i));
}

/// The event name of a spawn named `name`, without its `Event: ` or `Past Event: `
/// prefix, when it is an event.
fn event_name_of(name: &str) -> (r: Option<&str>)
    requires
        event_name_ok(name@),
    ensures
        r matches Some(e) ==> event_of_name(name@) == Some(e@),
        r is None ==> event_of_name(name@) is None,
{
    let n = name.unicode_len();
    if starts_with(name, "Event:") {
        proof {
            reveal_strlit("Event:");
        }
        Some(name.substring_char(7, n))
    } else if starts_with(name, "Past Event:") {
        proof {
            reveal_strlit("Past Event:");
        }
        Some(name.substring_char(12, n))
    } else {
        None
    }
}

impl GuideData {
    /// The id of the first family named `name`.
    pub(crate) fn family_id(&self, name: &str) -> (r: Option<u32>)
        ensures
            r == family_id(self.static_.monster_families@, name@),
    {
        let families = &self.static_.monster_families;
        let ghost keys = family_names(families@);
        let mut i: usize = 0;
        while i < families.len()
            invariant
                families == &self.static_.monster_families,
                keys == family_names(families@),
                i <= families@.len(),
                first_match(keys, name@) == first_match_from(keys, name@, i as int),
            decreases families.len() - i,
        {
            if str_eq(families[i].name.as_str(), name) {
                assert(keys[i as int] == name@);
                return Some(families[i].id);
            }
            i = i + 1;
        }
        None
    }

    /// The id of the first spawn named `name`.
    fn spawn_id(&self, name: &str) -> (r: Option<u32>)
        ensures
            r == spawn_id_by_name(self.static_.spawns@, name@),
    {
        let spawns = &self.static_.spawns;
        let ghost keys = spawn_names(spawns@);
        let mut i: usize = 0;
        while i < spawns.len()
            invariant
                spawns == &self.static_.spawns,
                keys == spawn_names(spawns@),
                i <= spawns@.len(),
                first_match(keys, name@) == first_match_from(keys, name@, i as int),
            decreases spawns.len() - i,
        {
            if str_eq(spawns[i].name.as_str(), name) {
                assert(keys[i as int] == name@);
                return Some(spawns[i].id);
            }
            i = i + 1;
        }
        None
    }

    /// The id of the first event spawn whose event name is `name`.
    fn event_id(&self, name: &str) -> (r: Option<u32>)
        requires
            events_ok(self.static_.spawns@),
        ensures
            r == event_id(self.static_.spawns@, name@),
    {
        let spawns = &self.static_.spawns;
        let mut i: usize = 0;
        while i < spawns.len()
            invariant
                spawns == &self.static_.spawns,
                events_ok(spawns@),
                i <= spawns@.len(),
                event_id(spawns@, name@) == event_id_from(spawns@, name@, i as int),
            decreases spawns.len() - i,
        {
            assert(event_name_ok(spawns@[i as int].name@));
            match event_name_of(spawns[i].name.as_str()) {
                Some(e) => {
                    if str_eq(e, name) {
                        assert(event_of_name(spawns@[i as int].name@) == Some(name@));
                        assert(event_id_from(spawns@, name@, i as int) == Some(spawns@[i as int].id));
                        return Some(spawns[i].id);
                    }
                },
                None => {},
            }
            i = i + 1;
        }
        None
    }

    /// The ids of the events named `events` that the guide knows, in order.
    pub(crate) fn event_ids(&self, events: &Vec<String>) -> (r: Vec<u32>)
        requires
            events@.len() > 0 ==> events_ok(self.static_.spawns@),
        ensures
            r@ == event_ids(events@, self.static_.spawns@),
    {
        let ghost mapped = events@.map_values(|e: String| event_id(self.static_.spawns@, e@));
        let mut r: Vec<u32> = Vec::new();
        let mut i: usize = 0;
        while i < events.len()
            invariant
                i <= events@.len(),
                events@.len() > 0 ==> events_ok(self.static_.spawns@),
                mapped == events@.map_values(|e: String| event_id(self.static_.spawns@, e@)),
                r@ == somes(mapped.take(i as int)),
            decreases events.len() - i,
        {
            proof {
                lemma_somes_take(mapped, i as int);
            }
            match self.event_id(events[i].as_str()) {
                Some(id) => r.push(id),
                None => {},
            }
            i = i + 1;
        }
        assert(mapped.take(events@.len() as int) =~= mapped);
        r
    }

    /// The ids of the items of the guide whose codex uris are `uris`, those the guide
    /// knows, in order.
    pub(crate) fn item_uri_ids(&self, uris: &Vec<&str>) -> (r: Vec<u32>)
        ensures
            r@ == item_uri_ids(uris@.map_values(|u: &str| u@), self.items.items@),
    {
        let ghost views = uris@.map_values(|u: &str| u@);
        let ghost mapped = views.map_values(|u: Seq<char>| item_id_by_uri(self.items.items@, u));
        let mut r: Vec<u32> = Vec::new();
        let mut i: usize = 0;
        while i < uris.len()
            invariant
                i <= uris@.len(),
                views == uris@.map_values(|u: &str| u@),
                mapped == views.map_values(|u: Seq<char>| item_id_by_uri(self.items.items@, u)),
                r@ == somes(mapped.take(i as int)),
            decreases uris.len() - i,
        {
            proof {
                lemma_somes_take(mapped, i as int);
            }
            match self.items.find_by_uri(uris[i]) {
                Some(item) => r.push(item.id),
                None => {},
            }
            i = i + 1;
        }
        assert(mapped.take(uris@.len() as int) =~= mapped);
        r
    }

    /// The ids of the skills of the guide whose codex uris are `uris`, those the guide
    /// knows, in order.
    pub(crate) fn skill_uri_ids(&self, uris: &Vec<&str>) -> (r: Vec<u32>)
        ensures
            r@ == skill_uri_ids(uris@.map_values(|u: &str| u@), self.skills.skills@),
    {
        let ghost views = uris@.map_values(|u: &str| u@);
        let ghost mapped = views.map_values(|u: Seq<char>| skill_id_by_uri(self.skills.skills@, u));
        let mut r: Vec<u32> = Vec::new();
        let mut i: usize = 0;
        while i < uris.len()
            invariant
                i <= uris@.len(),
                views == uris@.map_values(|u: &str| u@),
                mapped == views.map_values(|u: Seq<char>| skill_id_by_uri(self.skills.skills@, u)),
                r@ == somes(mapped.take(i as int)),
            decreases uris.len() - i,
        {
            proof {
                lemma_somes_take(mapped, i as int);
            }
            match self.skills.find_by_uri(uris[i]) {
                Some(skill) => r.push(skill.id),
                None => {},
            }
            i = i + 1;
        }
        assert(mapped.take(uris@.len() as int) =~= mapped);
        r
    }

    /// The ids of the items the drops are, those the guide knows, in order.
    pub(crate) fn drop_ids(&self, drops: &Vec<MonsterDrop>) -> (r: Vec<u32>)
        ensures
            r@ == item_uri_ids(drop_uris(drops@), self.items.items@),
    {
        let mut uris: Vec<&str> = Vec::new();
        let mut i: usize = 0;
        while i < drops.len()
            invariant
                i <= drops@.len(),
                uris@.map_values(|u: &str| u@) == drop_uris(drops@.take(i as int)),
            decreases drops.len() - i,
        {
            proof {
                assert(drop_uris(drops@.take(i + 1)) =~= drop_uris(drops@.take(i as int)).push(
                    drops@[i as int].uri@,
                ));
            }
            uris.push(drops[i].uri.as_str());
            assert(uris@.map_values(|u: &str| u@) =~= drop_uris(drops@.take(i + 1)));
            i = i + 1;
        }
        assert(drops@.take(drops@.len() as int) =~= drops@);
        self.item_uri_ids(&uris)
    }

    /// The ids of the skills the abilities are, those the guide knows, in order.
    pub(crate) fn ability_ids(&self, abilities: &Vec<MonsterAbility>) -> (r: Vec<u32>)
        ensures
            r@ == skill_uri_ids(ability_uris(abilities@), self.skills.skills@),
    {
        let mut uris: Vec<&str> = Vec::new();
        let mut i: usize = 0;
        while i < abilities.len()
            invariant
                i <= abilities@.len(),
                uris@.map_values(|u: &str| u@) == ability_uris(abilities@.take(i as int)),
            decreases abilities.len() - i,
        {
            proof {
                assert(ability_uris(abilities@.take(i + 1)) =~= ability_uris(
                    abilities@.take(i as int),
                ).push(abilities@[i as int].uri@));
            }
            uris.push(abilities[i].uri.as_str());
            assert(uris@.map_values(|u: &str| u@) =~= ability_uris(abilities@.take(i + 1)));
            i = i + 1;
        }
        assert(abilities@.take(abilities@.len() as int) =~= abilities@);
        self.skill_uri_ids(&uris)
    }

    /// The ids of the spawns that the raid tags stand for, in order.
    pub(crate) fn tag_spawn_ids(&self, tags: &Vec<Tag>) -> (r: Vec<u32>)
        ensures
            r@ == tag_spawn_ids(tags@, self.static_.spawns@),
    {
        let ghost mapped = tags@.map_values(|t: Tag| tag_spawn(self.static_.spawns@, t));
        let mut r: Vec<u32> = Vec::new();
        let mut i: usize = 0;
        while i < tags.len()
            invariant
                i <= tags@.len(),
                mapped == tags@.map_values(|t: Tag| tag_spawn(self.static_.spawns@, t)),
                r@ == somes(mapped.take(i as int)),
            decreases tags.len() - i,
        {
            proof {
                lemma_somes_take(mapped, i as int);
            }
            let found = match tags[i] {
                Tag::WorldRaid => self.spawn_id("World Raid"),
                Tag::KingdomRaid => self.spawn_id("Kingdom Raid"),
                _ => None,
            };
            match found {
                Some(id) => r.push(id),
                None => {},
            }
            i = i + 1;
        }
        assert(mapped.take(tags@.len() as int) =~= mapped);
        r
    }
}

impl<'a> GuideData {
    /// The index of the first admin monster that is the codex monster of kind `k`
    /// with the slug.
    fn find_admin_match(&self, k: CodexMonsterKind, slug: &str) -> (r: Option<usize>)
        requires
            admins_cut_ok(*self, k),
        ensures
            r matches Some(i) ==> i < self.monsters.monsters@.len() && first_admin_match(
                self.monsters.monsters@,
                self.static_.spawns@,
                k,
                slug@,
            ) == Some(i as int),
            r is None ==> first_admin_match(
                self.monsters.monsters@,
                self.static_.spawns@,
                k,
                slug@,
            ) is None,
    {
        let ms = &self.monsters.monsters;
        let n: usize = match k {
            CodexMonsterKind::Regular => 16,
            CodexMonsterKind::Boss => 14,
            CodexMonsterKind::Raid => 13,
        };
        let mut i: usize = 0;
        while i < ms.len()
            invariant
                ms == &self.monsters.monsters,
                n == kind_prefix_len(k),
                admins_cut_ok(*self, k),
                i <= ms@.len(),
                first_admin_match(ms@, self.static_.spawns@, k, slug@) == first_admin_match_from(
                    ms@,
                    self.static_.spawns@,
                    k,
                    slug@,
                    i as int,
                ),
            decreases ms.len() - i,
        {
            let m = &ms[i];
            let kind_ok = match k {
                CodexMonsterKind::Regular => m.is_regular_monster(),
                CodexMonsterKind::Boss => m.is_boss(self.static_.spawns.as_slice()),
                CodexMonsterKind::Raid => m.is_raid(self.static_.spawns.as_slice()),
            };
            if m.codex_uri.unicode_len() > 0 && kind_ok {
                assert(admin_cut_ok(ms@[i as int], self.static_.spawns@, k));
                if str_eq(cut_after_bytes(m.codex_uri.as_str(), n), slug) {
                    return Some(i);
                }
            }
            i = i + 1;
        }
        None
    }

    /// The first admin monster that is the codex monster of kind `k` with the
    /// slug, or an error with `msg`.
    fn find_match(&'a self, k: CodexMonsterKind, slug: &str, msg: String) -> (r: Result<
        &'a AdminMonster,
        Error,
    >)
        requires
            admins_cut_ok(*self, k),
        ensures
            match_found(*self, k, slug@, msg@, r),
    {
        match self.find_admin_match(k, slug) {
            Some(i) => Ok(&self.monsters.monsters[i]),
            None => Err(misc(msg)),
        }
    }

    /// Find the admin monster associated with the given codex monster.
    /// If there is no match, return an `Err`.
    pub fn find_match_for_codex_generic_monster(&'a self, needle: CodexGenericMonster) -> (r: Result<
        &'a AdminMonster,
        Error,
    >)
        requires
            match needle {
                CodexGenericMonster::Monster(_) => admins_cut_ok(*self, CodexMonsterKind::Regular),
                CodexGenericMonster::Boss(_) => admins_cut_ok(*self, CodexMonsterKind::Boss),
                CodexGenericMonster::Raid(_) => admins_cut_ok(*self, CodexMonsterKind::Raid),
            },
        ensures
            match needle {
                CodexGenericMonster::Monster(m) => match_found(
                    *self,
                    CodexMonsterKind::Regular,
                    m.slug@,
                    "No match for codex regular monster '"@ + m.slug@ + "'"@,
                    r,
                ),
                CodexGenericMonster::Boss(m) => match_found(
                    *self,
                    CodexMonsterKind::Boss,
                    m.slug@,
                    "No match for codex boss '"@ + m.slug@ + "'"@,
                    r,
                ),
                CodexGenericMonster::Raid(m) => match_found(
                    *self,
                    CodexMonsterKind::Raid,
                    m.slug@,
                    "No match for codex raid '"@ + m.slug@ + "'"@,
                    r,
                ),
            },
    {
        match needle {
            CodexGenericMonster::Monster(monster) => self.find_match_for_codex_regular_monster(monster),
            CodexGenericMonster::Boss(boss) => self.find_match_for_codex_boss(boss),
            CodexGenericMonster::Raid(raid) => self.find_match_for_codex_raid(raid),
        }
    }

    /// Find the admin monster associated with the given codex monster.
    /// If there is no match, return an `Err`.
    pub fn find_match_for_codex_regular_monster(&'a self, needle: &CodexMonster) -> (r: Result<
        &'a AdminMonster,
        Error,
    >)
        requires
            admins_cut_ok(*self, CodexMonsterKind::Regular),
        ensures
            match_found(
                *self,
                CodexMonsterKind::Regular,
                needle.slug@,
                "No match for codex regular monster '"@ + needle.slug@ + "'"@,
                r,
            ),
    {
        let msg = concat3("No match for codex regular monster '", needle.slug.as_str(), "'");
        self.find_match(CodexMonsterKind::Regular, needle.slug.as_str(), msg)
    }

    /// Find the admin monster associated with the given codex boss.
    /// If there is no match, return an `Err`.
    pub fn find_match_for_codex_boss(&'a self, needle: &CodexBoss) -> (r: Result<
        &'a AdminMonster,
        Error,
    >)
        requires
            admins_cut_ok(*self, CodexMonsterKind::Boss),
        ensures
            match_found(
                *self,
                CodexMonsterKind::Boss,
                needle.slug@,
                "No match for codex boss '"@ + needle.slug@ + "'"@,
                r,
            ),
    {
        let msg = concat3("No match for codex boss '", needle.slug.as_str(), "'");
        self.find_match(CodexMonsterKind::Boss, needle.slug.as_str(), msg)
    }

    /// Find the admin monster associated with the given codex raid.
    /// If there is no match, return an `Err`.
    pub fn find_match_for_codex_raid(&'a self, needle: &CodexRaid) -> (r: Result<
        &'a AdminMonster,
        Error,
    >)
        requires
            admins_cut_ok(*self, CodexMonsterKind::Raid),
        ensures
            match_found(
                *self,
                CodexMonsterKind::Raid,
                needle.slug@,
                "No match for codex raid '"@ + needle.slug@ + "'"@,
                r,
            ),
    {
        let msg = concat3("No match for codex raid '", needle.slug.as_str(), "'");
        self.find_match(CodexMonsterKind::Raid, needle.slug.as_str(), msg)
    }
}

} // verus!
