//! Strings of the codex in other languages than English.

use vstd::prelude::*;

use crate::codex::monster::{find_boss, find_monster, find_raid, boss_uri_prefix, monster_uri_prefix, raid_uri_prefix};
use crate::codex::follower::{find_follower, follower_uri_prefix};
use crate::codex::skill::{find_skill, skill_uri_prefix};
use crate::codex::{CodexBoss, CodexFollower, CodexItem, CodexMonster, CodexRaid, CodexSkill, SkillStatusEffect};
use crate::data::CodexData;
use crate::error::{is_misc, misc, Error};
use crate::lookup::lemma_slug_uri_roundtrip;
use crate::misc::{codex_effect_name_to_guide_name, guide_effect_name};
use crate::monsters::admin::{AdminMonster, AdminMonsterView};
use crate::pets::admin::{AdminPet, AdminPetView};
use crate::strmap::{keys_unique, pairs_map, StrMap};
use crate::text::{concat3, to_owned};

verus! {

/// Holds strings that can be translated for an item.
#[derive(Debug, Clone, Eq, PartialEq)]
pub struct ItemTranslation {
    /// The name of the item.
    pub name: String,
    /// The description of the item.
    pub description: String,
}

/// Holds strings that can be translated for a raid.
#[derive(Debug, Clone, Eq, PartialEq)]
pub struct RaidTranslation {
    /// The name of the raid.
    pub name: String,
    /// The description of the raid.
    pub description: String,
}

/// Holds strings that can be translated for a boss.
#[derive(Debug, Clone, Eq, PartialEq)]
pub struct BossTranslation {
    /// The name of the boss.
    pub name: String,
}

/// Holds strings that can be translated for a monster.
#[derive(Debug, Clone, Eq, PartialEq)]
pub struct MonsterTranslation {
    /// The name of the monster.
    pub name: String,
}

/// Holds strings that can be translated for any monster.
#[derive(Debug, Clone, Eq, PartialEq)]
pub enum GenericMonsterTranslation {
    /// `self` refers to a monster.
    Monster(MonsterTranslation),
    /// `self` refers to a raid.
    Raid(RaidTranslation),
    /// `self` refers to a boss.
    Boss(BossTranslation),
}

/// Holds strings that can be translated for a skill.
#[derive(Debug, Clone, Eq, PartialEq)]
pub struct SkillTranslation {
    /// The name of the skill.
    pub name: String,
    /// The description of the skill.
    pub description: String,
}

/// Holds strings that can be translated for a follower.
#[derive(Debug, Clone, Eq, PartialEq)]
pub struct FollowerTranslation {
    /// The name of the follower.
    pub name: String,
    /// The description of the follower.
    pub description: String,
}

/// A set of strings for a particular language.
#[derive(Debug)]
pub struct LocaleStrings {
    /// The locale in which the structure is.
    pub locale: String,
    /// Items from the codex.
    pub items: StrMap<ItemTranslation>,
    /// Raids from the codex.
    pub raids: StrMap<RaidTranslation>,
    /// Monsters from the codex.
    pub monsters: StrMap<MonsterTranslation>,
    /// Bosses from the codex.
    pub bosses: StrMap<BossTranslation>,
    /// Skills from the codex.
    pub skills: StrMap<SkillTranslation>,
    /// Followers from the codex.
    pub followers: StrMap<FollowerTranslation>,
    /// Statuses that can be inflicted.
    /// The key is the English string, the value is that in the target locale.
    pub statuses: StrMap<String>,
    /// Event names.
    /// The key is the English string, the value is that in the target locale.
    pub events: StrMap<String>,
    /// Spawn names.
    /// The key is the English string, the value is that in the target locale.
    pub spawns: StrMap<String>,
    /// Family names.
    /// The key is the English string, the value is that in the target locale.
    pub families: StrMap<String>,
    /// Rarity names.
    /// The key is the English string, the value is that in the target locale.
    pub rarities: StrMap<String>,
}

/// What a [`LocaleStrings`] holds: its locale and the contents of each map.
pub struct LocaleView {
    /// The locale.
    pub locale: Seq<char>,
    /// The contents of `items`.
    pub items: Map<Seq<char>, ItemTranslation>,
    /// The contents of `raids`.
    pub raids: Map<Seq<char>, RaidTranslation>,
    /// The contents of `monsters`.
    pub monsters: Map<Seq<char>, MonsterTranslation>,
    /// The contents of `bosses`.
    pub bosses: Map<Seq<char>, BossTranslation>,
    /// The contents of `skills`.
    pub skills: Map<Seq<char>, SkillTranslation>,
    /// The contents of `followers`.
    pub followers: Map<Seq<char>, FollowerTranslation>,
    /// The contents of `statuses`.
    pub statuses: Map<Seq<char>, String>,
    /// The contents of `events`.
    pub events: Map<Seq<char>, String>,
    /// The contents of `spawns`.
    pub spawns: Map<Seq<char>, String>,
    /// The contents of `families`.
    pub families: Map<Seq<char>, String>,
    /// The contents of `rarities`.
    pub rarities: Map<Seq<char>, String>,
}

impl View for LocaleStrings {
    type V = LocaleView;

    open spec fn view(&self) -> LocaleView {
        LocaleView {
            locale: self.locale@,
            items: self.items@,
            raids: self.raids@,
            monsters: self.monsters@,
            bosses: self.bosses@,
            skills: self.skills@,
            followers: self.followers@,
            statuses: self.statuses@,
            events: self.events@,
            spawns: self.spawns@,
            families: self.families@,
            rarities: self.rarities@,
        }
    }
}

/// The value of `k` in `m`, if any.
pub open spec fn lookup<V>(m: Map<Seq<char>, V>, k: Seq<char>) -> Option<V> {
    if m.contains_key(k) {
        Some(m[k])
    } else {
        None
    }
}

/// `r` refers to the value `s` holds, if any.
pub open spec fn refers_to<T>(r: Option<&T>, s: Option<T>) -> bool {
    match s {
        Some(v) => r matches Some(x) && *x == v,
        None => r is None,
    }
}

/// `r` holds the characters of the string `s` holds, if any.
pub open spec fn holds_text(r: Option<&str>, s: Option<String>) -> bool {
    match s {
        Some(v) => r matches Some(x) && x@ == v@,
        None => r is None,
    }
}

/// The view of `a` merged with that of `b`: each map of `b` takes precedence over
/// that of `a`, and the locale of `a` stays.
pub open spec fn merged(a: LocaleView, b: LocaleView) -> LocaleView {
    LocaleView {
        locale: a.locale,
        items: a.items.union_prefer_right(b.items),
        raids: a.raids.union_prefer_right(b.raids),
        monsters: a.monsters.union_prefer_right(b.monsters),
        bosses: a.bosses.union_prefer_right(b.bosses),
        skills: a.skills.union_prefer_right(b.skills),
        followers: a.followers.union_prefer_right(b.followers),
        statuses: a.statuses.union_prefer_right(b.statuses),
        events: a.events.union_prefer_right(b.events),
        spawns: a.spawns.union_prefer_right(b.spawns),
        families: a.families.union_prefer_right(b.families),
        rarities: a.rarities.union_prefer_right(b.rarities),
    }
}

/// The translation of a codex item.
pub open spec fn item_translation(item: CodexItem) -> ItemTranslation {
    ItemTranslation { name: item.name, description: item.description }
}

/// The item map after adding `items` in order: each slug maps to the translation
/// of the last item with that slug.
pub open spec fn items_added(m: Map<Seq<char>, ItemTranslation>, items: Seq<CodexItem>) -> Map<
    Seq<char>,
    ItemTranslation,
>
    decreases items.len(),
{
    if items.len() == 0 {
        m
    } else {
        items_added(m, items.drop_last()).insert(
            items.last().slug@,
            item_translation(items.last()),
        )
    }
}

/// The index of the last item of `items` with the slug `slug`.
pub open spec fn last_with_slug(items: Seq<CodexItem>, slug: Seq<char>) -> Option<int>
    decreases items.len(),
{
    if items.len() == 0 {
        None
    } else if items.last().slug@ == slug {
        Some(items.len() - 1)
    } else {
        last_with_slug(items.drop_last(), slug)
    }
}

proof fn lemma_last_with_slug_bound(items: Seq<CodexItem>, slug: Seq<char>)
    ensures
        last_with_slug(items, slug) matches Some(i) ==> 0 <= i < items.len(),
    decreases items.len(),
{
    if items.len() > 0 {
        lemma_last_with_slug_bound(items.drop_last(), slug);
    }
}

/// After adding items, the translation of a slug is that of the last added item
/// with that slug; a slug that no added item has keeps its translation.
pub proof fn law_added_item_lookup(
    m: Map<Seq<char>, ItemTranslation>,
    items: Seq<CodexItem>,
    slug: Seq<char>,
)
    ensures
        lookup(items_added(m, items), slug) == match last_with_slug(items, slug) {
            Some(i) => Some(item_translation(items[i])),
            None => lookup(m, slug),
        },
    decreases items.len(),
{
    if items.len() > 0 {
        law_added_item_lookup(m, items.drop_last(), slug);
        if let Some(i) = last_with_slug(items.drop_last(), slug) {
            lemma_last_with_slug_bound(items.drop_last(), slug);
            assert(items.drop_last()[i] == items[i]);
        }
    }
}

/// Every key of `r` has the value it has in `b`, or else the one it has in `a`.
pub open spec fn prefers_right<V>(r: Map<Seq<char>, V>, a: Map<Seq<char>, V>, b: Map<Seq<char>, V>) -> bool {
    forall|k: Seq<char>|
        #[trigger] lookup(r, k) == if b.contains_key(k) {
            Some(b[k])
        } else {
            lookup(a, k)
        }
}

/// Merging strings into others keeps the locale of the others, and in each map the
/// strings merged in take precedence over the strings that were there.
pub proof fn law_merge_precedence(a: LocaleView, b: LocaleView)
    ensures
        merged(a, b).locale == a.locale,
        prefers_right(merged(a, b).items, a.items, b.items),
        prefers_right(merged(a, b).raids, a.raids, b.raids),
        prefers_right(merged(a, b).monsters, a.monsters, b.monsters),
        prefers_right(merged(a, b).bosses, a.bosses, b.bosses),
        prefers_right(merged(a, b).skills, a.skills, b.skills),
        prefers_right(merged(a, b).followers, a.followers, b.followers),
        prefers_right(merged(a, b).statuses, a.statuses, b.statuses),
        prefers_right(merged(a, b).events, a.events, b.events),
        prefers_right(merged(a, b).spawns, a.spawns, b.spawns),
        prefers_right(merged(a, b).families, a.families, b.families),
        prefers_right(merged(a, b).rarities, a.rarities, b.rarities),
{
    assert forall|k: Seq<char>| #[trigger] lookup(merged(a, b).items, k) == if b.items.contains_key(k) {
        Some(b.items[k])
    } else {
        lookup(a.items, k)
    } by {}
    assert forall|k: Seq<char>| #[trigger] lookup(merged(a, b).raids, k) == if b.raids.contains_key(k) {
        Some(b.raids[k])
    } else {
        lookup(a.raids, k)
    } by {}
    assert forall|k: Seq<char>| #[trigger] lookup(merged(a, b).monsters, k) == if b.monsters.contains_key(k) {
        Some(b.monsters[k])
    } else {
        lookup(a.monsters, k)
    } by {}
    assert forall|k: Seq<char>| #[trigger] lookup(merged(a, b).bosses, k) == if b.bosses.contains_key(k) {
        Some(b.bosses[k])
    } else {
        lookup(a.bosses, k)
    } by {}
    assert forall|k: Seq<char>| #[trigger] lookup(merged(a, b).skills, k) == if b.skills.contains_key(k) {
        Some(b.skills[k])
    } else {
        lookup(a.skills, k)
    } by {}
    assert forall|k: Seq<char>| #[trigger] lookup(merged(a, b).followers, k) == if b.followers.contains_key(k) {
        Some(b.followers[k])
    } else {
        lookup(a.followers, k)
    } by {}
    assert forall|k: Seq<char>| #[trigger] lookup(merged(a, b).statuses, k) == if b.statuses.contains_key(k) {
        Some(b.statuses[k])
    } else {
        lookup(a.statuses, k)
    } by {}
    assert forall|k: Seq<char>| #[trigger] lookup(merged(a, b).events, k) == if b.events.contains_key(k) {
        Some(b.events[k])
    } else {
        lookup(a.events, k)
    } by {}
    assert forall|k: Seq<char>| #[trigger] lookup(merged(a, b).spawns, k) == if b.spawns.contains_key(k) {
        Some(b.spawns[k])
    } else {
        lookup(a.spawns, k)
    } by {}
    assert forall|k: Seq<char>| #[trigger] lookup(merged(a, b).families, k) == if b.families.contains_key(k) {
        Some(b.families[k])
    } else {
        lookup(a.families, k)
    } by {}
    assert forall|k: Seq<char>| #[trigger] lookup(merged(a, b).rarities, k) == if b.rarities.contains_key(k) {
        Some(b.rarities[k])
    } else {
        lookup(a.rarities, k)
    } by {}
}

impl LocaleStrings {
    /// An empty set of strings, for the empty locale.
    pub fn new() -> (r: Self)
        ensures
            r@.locale == Seq::<char>::empty(),
            r@.items == Map::<Seq<char>, ItemTranslation>::empty(),
            r@.raids == Map::<Seq<char>, RaidTranslation>::empty(),
            r@.monsters == Map::<Seq<char>, MonsterTranslation>::empty(),
            r@.bosses == Map::<Seq<char>, BossTranslation>::empty(),
            r@.skills == Map::<Seq<char>, SkillTranslation>::empty(),
            r@.followers == Map::<Seq<char>, FollowerTranslation>::empty(),
            r@.statuses == Map::<Seq<char>, String>::empty(),
            r@.events == Map::<Seq<char>, String>::empty(),
            r@.spawns == Map::<Seq<char>, String>::empty(),
            r@.families == Map::<Seq<char>, String>::empty(),
            r@.rarities == Map::<Seq<char>, String>::empty(),
    {
        LocaleStrings {
            locale: String::new(),
            items: StrMap::new(),
            raids: StrMap::new(),
            monsters: StrMap::new(),
            bosses: StrMap::new(),
            skills: StrMap::new(),
            followers: StrMap::new(),
            statuses: StrMap::new(),
            events: StrMap::new(),
            spawns: StrMap::new(),
            families: StrMap::new(),
            rarities: StrMap::new(),
        }
    }

    /// Add some codex items to the locale database.
    /// If an item is already present in `self`, it is updated with the strings from `items`.
    pub fn add_items(&mut self, items: Vec<CodexItem>)
        ensures
            final(self)@ == (LocaleView { items: items_added(old(self)@.items, items@), ..old(self)@ }),
    {
        let ghost all = items@;
        let ghost start = self@;
        let mut rest = items;
        let ghost mut j: int = 0;
        assert(all.take(0) =~= Seq::<CodexItem>::empty());
        assert(all.skip(0) =~= all);
        while rest.len() > 0
            invariant
                0 <= j <= all.len(),
                rest@ == all.skip(j),
                self@ == (LocaleView { items: items_added(start.items, all.take(j)), ..start }),
            decreases rest.len(),
        {
            let item = rest.remove(0);
            proof {
                assert(all[j] == item);
                assert(all.take(j + 1).drop_last() =~= all.take(j));
            }
            self.items.insert(
                item.slug,
                ItemTranslation { name: item.name, description: item.description },
            );
            proof {
                assert(rest@ =~= all.skip(j + 1));
                j = j + 1;
            }
        }
        assert(all.take(j) =~= all);
    }

    /// Get the given item from the locale database.
    pub fn item(&self, name: &str) -> (r: Option<&ItemTranslation>)
        ensures
            refers_to(r, lookup(self@.items, name@)),
    {
        self.items.get(name)
    }

    /// Get the name of the given item from the locale database.
    pub fn item_name(&self, name: &str) -> (r: Option<&str>)
        ensures
            match lookup(self@.items, name@) {
                Some(t) => r matches Some(x) && x@ == t.name@,
                None => r is None,
            },
    {
        match self.item(name) {
            Some(t) => Some(t.name.as_str()),
            None => None,
        }
    }

    /// Get the description of the given item from the locale database.
    pub fn item_description(&self, name: &str) -> (r: Option<&str>)
        ensures
            match lookup(self@.items, name@) {
                Some(t) => r matches Some(x) && x@ == t.description@,
                None => r is None,
            },
    {
        match self.item(name) {
            Some(t) => Some(t.description.as_str()),
            None => None,
        }
    }

    /// Get the given raid from the locale database.
    pub fn raid(&self, name: &str) -> (r: Option<&RaidTranslation>)
        ensures
            refers_to(r, lookup(self@.raids, name@)),
    {
        self.raids.get(name)
    }

    /// Get the name of the given raid from the locale database.
    pub fn raid_name(&self, name: &str) -> (r: Option<&str>)
        ensures
            match lookup(self@.raids, name@) {
                Some(t) => r matches Some(x) && x@ == t.name@,
                None => r is None,
            },
    {
        match self.raid(name) {
            Some(t) => Some(t.name.as_str()),
            None => None,
        }
    }

    /// Get the description of the given raid from the locale database.
    pub fn raid_description(&self, name: &str) -> (r: Option<&str>)
        ensures
            match lookup(self@.raids, name@) {
                Some(t) => r matches Some(x) && x@ == t.description@,
                None => r is None,
            },
    {
        match self.raid(name) {
            Some(t) => Some(t.description.as_str()),
            None => None,
        }
    }

    /// Get the given monster from the locale database.
    pub fn monster(&self, name: &str) -> (r: Option<&MonsterTranslation>)
        ensures
            refers_to(r, lookup(self@.monsters, name@)),
    {
        self.monsters.get(name)
    }

    /// Get the name of the given monster from the locale database.
    pub fn monster_name(&self, name: &str) -> (r: Option<&str>)
        ensures
            match lookup(self@.monsters, name@) {
                Some(t) => r matches Some(x) && x@ == t.name@,
                None => r is None,
            },
    {
        match self.monster(name) {
            Some(t) => Some(t.name.as_str()),
            None => None,
        }
    }

    /// Get the given boss from the locale database.
    pub fn boss(&self, name: &str) -> (r: Option<&BossTranslation>)
        ensures
            refers_to(r, lookup(self@.bosses, name@)),
    {
        self.bosses.get(name)
    }

    /// Get the name of the given boss from the locale database.
    pub fn boss_name(&self, name: &str) -> (r: Option<&str>)
        ensures
            match lookup(self@.bosses, name@) {
                Some(t) => r matches Some(x) && x@ == t.name@,
                None => r is None,
            },
    {
        match self.boss(name) {
            Some(t) => Some(t.name.as_str()),
            None => None,
        }
    }

    /// Get the given skill from the locale database.
    pub fn skill(&self, name: &str) -> (r: Option<&SkillTranslation>)
        ensures
            refers_to(r, lookup(self@.skills, name@)),
    {
        self.skills.get(name)
    }

    /// Get the name of the given skill from the locale database.
    pub fn skill_name(&self, name: &str) -> (r: Option<&str>)
        ensures
            match lookup(self@.skills, name@) {
                Some(t) => r matches Some(x) && x@ == t.name@,
                None => r is None,
            },
    {
        match self.skill(name) {
            Some(t) => Some(t.name.as_str()),
            None => None,
        }
    }

    /// Get the description of the given skill from the locale database.
    pub fn skill_description(&self, name: &str) -> (r: Option<&str>)
        ensures
            match lookup(self@.skills, name@) {
                Some(t) => r matches Some(x) && x@ == t.description@,
                None => r is None,
            },
    {
        match self.skill(name) {
            Some(t) => Some(t.description.as_str()),
            None => None,
        }
    }

    /// Get the given follower from the locale database.
    pub fn follower(&self, name: &str) -> (r: Option<&FollowerTranslation>)
        ensures
            refers_to(r, lookup(self@.followers, name@)),
    {
        self.followers.get(name)
    }

    /// Get the name of the given follower from the locale database.
    pub fn follower_name(&self, name: &str) -> (r: Option<&str>)
        ensures
            match lookup(self@.followers, name@) {
                Some(t) => r matches Some(x) && x@ == t.name@,
                None => r is None,
            },
    {
        match self.follower(name) {
            Some(t) => Some(t.name.as_str()),
            None => None,
        }
    }

    /// Get the description of the given follower from the locale database.
    pub fn follower_description(&self, name: &str) -> (r: Option<&str>)
        ensures
            match lookup(self@.followers, name@) {
                Some(t) => r matches Some(x) && x@ == t.description@,
                None => r is None,
            },
    {
        match self.follower(name) {
            Some(t) => Some(t.description.as_str()),
            None => None,
        }
    }

    /// Get the status effect from the locale database.
    pub fn status(&self, name: &str) -> (r: Option<&str>)
        ensures
            holds_text(r, lookup(self@.statuses, name@)),
    {
        match self.statuses.get(name) {
            Some(s) => Some(s.as_str()),
            None => None,
        }
    }

    /// Get the event from the locale database.
    pub fn event(&self, name: &str) -> (r: Option<&str>)
        ensures
            holds_text(r, lookup(self@.events, name@)),
    {
        match self.events.get(name) {
            Some(s) => Some(s.as_str()),
            None => None,
        }
    }

    /// Get the spawn from the locale database.
    pub fn spawn(&self, name: &str) -> (r: Option<&str>)
        ensures
            holds_text(r, lookup(self@.spawns, name@)),
    {
        match self.spawns.get(name) {
            Some(s) => Some(s.as_str()),
            None => None,
        }
    }

    /// Get the family from the locale database.
    pub fn family(&self, name: &str) -> (r: Option<&str>)
        ensures
            holds_text(r, lookup(self@.families, name@)),
    {
        match self.families.get(name) {
            Some(s) => Some(s.as_str()),
            None => None,
        }
    }

    /// Get the rarity from the locale database.
    pub fn rarity(&self, name: &str) -> (r: Option<&str>)
        ensures
            holds_text(r, lookup(self@.rarities, name@)),
    {
        match self.rarities.get(name) {
            Some(s) => Some(s.as_str()),
            None => None,
        }
    }

    /// Merge the contents of `self` with that of `other`.
    /// For each key in each hash map, the contents of `other` will take precedence over `self` and
    /// overwrite values in case of duplicate keys.
    /// `other.locale` is assumed to match `self.locale`. No check is performed.
    pub fn merge_with(&mut self, other: Self)
        ensures
            final(self)@ == merged(old(self)@, other@),
    {
        self.items.extend(other.items);
        self.raids.extend(other.raids);
        self.monsters.extend(other.monsters);
        self.bosses.extend(other.bosses);
        self.skills.extend(other.skills);
        self.followers.extend(other.followers);
        self.statuses.extend(other.statuses);
        self.events.extend(other.events);
        self.spawns.extend(other.spawns);
        self.families.extend(other.families);
        self.rarities.extend(other.rarities);
    }
}

/// Some entry of `all` before index `j` has the key `l`.
pub open spec fn done_before<V>(all: Seq<(String, V)>, j: int, l: Seq<char>) -> bool {
    exists|i: int| 0 <= i < j && all[i].0@ == l
}

/// `fin` is `old` merged with `other`: it has the locales of both; a locale of one
/// of them only keeps its strings, and the strings of a locale of both are merged,
/// those of `other` taking precedence.
pub open spec fn db_merged(
    fin: Map<Seq<char>, LocaleStrings>,
    old: Map<Seq<char>, LocaleStrings>,
    other: Map<Seq<char>, LocaleStrings>,
) -> bool {
    &&& forall|l: Seq<char>|
        #[trigger] fin.contains_key(l) <==> old.contains_key(l) || other.contains_key(l)
    &&& forall|l: Seq<char>|
        other.contains_key(l) && !old.contains_key(l) ==> #[trigger] fin[l] == other[l]
    &&& forall|l: Seq<char>|
        old.contains_key(l) && !other.contains_key(l) ==> #[trigger] fin[l] == old[l]
    &&& forall|l: Seq<char>|
        old.contains_key(l) && other.contains_key(l) ==> (#[trigger] fin[l])@ == merged(
            old[l]@,
            other[l]@,
        )
}

/// `cur` is `start` with the first `j` entries of `all` merged in.
pub open spec fn merged_prefix(
    cur: Map<Seq<char>, LocaleStrings>,
    start: Map<Seq<char>, LocaleStrings>,
    all: Seq<(String, LocaleStrings)>,
    j: int,
) -> bool {
    &&& forall|l: Seq<char>|
        #[trigger] cur.contains_key(l) <==> start.contains_key(l) || done_before(all, j, l)
    &&& forall|i: int|
        0 <= i < j ==> (start.contains_key(#[trigger] all[i].0@) ==> cur[all[i].0@]@ == merged(
            start[all[i].0@]@,
            all[i].1@,
        )) && (!start.contains_key(all[i].0@) ==> cur[all[i].0@] == all[i].1)
    &&& forall|l: Seq<char>|
        start.contains_key(l) && !done_before(all, j, l) ==> #[trigger] cur[l] == start[l]
}

proof fn lemma_merged_prefix_step(
    cur: Map<Seq<char>, LocaleStrings>,
    next: Map<Seq<char>, LocaleStrings>,
    start: Map<Seq<char>, LocaleStrings>,
    all: Seq<(String, LocaleStrings)>,
    j: int,
    x: LocaleStrings,
)
    requires
        merged_prefix(cur, start, all, j),
        keys_unique(all),
        0 <= j < all.len(),
        next == cur.insert(all[j].0@, x),
        cur.contains_key(all[j].0@) ==> x@ == merged(cur[all[j].0@]@, all[j].1@),
        !cur.contains_key(all[j].0@) ==> x == all[j].1,
    ensures
        merged_prefix(next, start, all, j + 1),
{
    let k = all[j].0@;
    assert(!done_before(all, j, k));
    assert forall|l: Seq<char>| done_before(all, j + 1, l) <==> done_before(all, j, l) || l == k by {
        if done_before(all, j + 1, l) && l != k {
            let i = choose|i: int| 0 <= i < j + 1 && all[i].0@ == l;
            assert(i < j);
        }
        if l == k {
            assert(all[j].0@ == l);
        }
    }
    assert forall|i: int| 0 <= i < j + 1 implies (start.contains_key(#[trigger] all[i].0@) ==> next[all[i].0@]@ == merged(
        start[all[i].0@]@,
        all[i].1@,
    )) && (!start.contains_key(all[i].0@) ==> next[all[i].0@] == all[i].1) by {
        if i < j {
            assert(all[i].0@ != k);
        }
    }
}

proof fn lemma_merged_prefix_done(
    cur: Map<Seq<char>, LocaleStrings>,
    start: Map<Seq<char>, LocaleStrings>,
    all: Seq<(String, LocaleStrings)>,
)
    requires
        merged_prefix(cur, start, all, all.len() as int),
        keys_unique(all),
    ensures
        db_merged(cur, start, pairs_map(all)),
{
    let other = pairs_map(all);
    assert forall|l: Seq<char>| other.contains_key(l) <==> done_before(all, all.len() as int, l) by {
        crate::strmap::lemma_pairs_map_dom(all, l);
    }
    assert forall|l: Seq<char>| other.contains_key(l) implies exists|i: int|
        0 <= i < all.len() && all[i].0@ == l && other[l] == all[i].1 by {
        crate::strmap::lemma_pairs_map_dom(all, l);
        let i = choose|i: int| 0 <= i < all.len() && all[i].0@ == l;
        crate::strmap::lemma_pairs_map_at(all, i);
    }
}

/// A set of `LocaleStrings`.
/// Strings organized in their respective locales.
#[derive(Debug)]
pub struct LocaleDB {
    /// Map of locales. The key is the locale name.
    pub locales: StrMap<LocaleStrings>,
}

/// The strings of `locale` in `db`, if any.
pub open spec fn db_locale(db: Map<Seq<char>, LocaleStrings>, locale: Seq<char>) -> Option<LocaleView> {
    if db.contains_key(locale) {
        Some(db[locale]@)
    } else {
        None
    }
}

impl LocaleDB {
    /// An empty database.
    pub fn new() -> (r: Self)
        ensures
            r.locales@ == Map::<Seq<char>, LocaleStrings>::empty(),
    {
        LocaleDB { locales: StrMap::new() }
    }

    /// Get the given item from the locale database.
    pub fn item(&self, locale: &str, name: &str) -> (r: Option<&ItemTranslation>)
        ensures
            refers_to(
                r,
                match db_locale(self.locales@, locale@) {
                    Some(l) => lookup(l.items, name@),
                    None => None,
                },
            ),
    {
        match self.locales.get(locale) {
            Some(l) => l.item(name),
            None => None,
        }
    }

    /// Get the name of the given item from the locale database.
    pub fn item_name(&self, locale: &str, name: &str) -> (r: Option<&str>)
        ensures
            match db_locale(self.locales@, locale@) {
                Some(l) => match lookup(l.items, name@) {
                    Some(t) => r matches Some(x) && x@ == t.name@,
                    None => r is None,
                },
                None => r is None,
            },
    {
        match self.locales.get(locale) {
            Some(l) => l.item_name(name),
            None => None,
        }
    }

    /// Get the description of the given item from the locale database.
    pub fn item_description(&self, locale: &str, name: &str) -> (r: Option<&str>)
        ensures
            match db_locale(self.locales@, locale@) {
                Some(l) => match lookup(l.items, name@) {
                    Some(t) => r matches Some(x) && x@ == t.description@,
                    None => r is None,
                },
                None => r is None,
            },
    {
        match self.locales.get(locale) {
            Some(l) => l.item_description(name),
            None => None,
        }
    }

    /// Get the given raid from the locale database.
    pub fn raid(&self, locale: &str, name: &str) -> (r: Option<&RaidTranslation>)
        ensures
            refers_to(
                r,
                match db_locale(self.locales@, locale@) {
                    Some(l) => lookup(l.raids, name@),
                    None => None,
                },
            ),
    {
        match self.locales.get(locale) {
            Some(l) => l.raid(name),
            None => None,
        }
    }

    /// Get the name of the given raid from the locale database.
    pub fn raid_name(&self, locale: &str, name: &str) -> (r: Option<&str>)
        ensures
            match db_locale(self.locales@, locale@) {
                Some(l) => match lookup(l.raids, name@) {
                    Some(t) => r matches Some(x) && x@ == t.name@,
                    None => r is None,
                },
                None => r is None,
            },
    {
        match self.locales.get(locale) {
            Some(l) => l.raid_name(name),
            None => None,
        }
    }

    /// Get the description of the given raid from the locale database.
    pub fn raid_description(&self, locale: &str, name: &str) -> (r: Option<&str>)
        ensures
            match db_locale(self.locales@, locale@) {
                Some(l) => match lookup(l.raids, name@) {
                    Some(t) => r matches Some(x) && x@ == t.description@,
                    None => r is None,
                },
                None => r is None,
            },
    {
        match self.locales.get(locale) {
            Some(l) => l.raid_description(name),
            None => None,
        }
    }

    /// Get the given monster from the locale database.
    pub fn monster(&self, locale: &str, name: &str) -> (r: Option<&MonsterTranslation>)
        ensures
            refers_to(
                r,
                match db_locale(self.locales@, locale@) {
                    Some(l) => lookup(l.monsters, name@),
                    None => None,
                },
            ),
    {
        match self.locales.get(locale) {
            Some(l) => l.monster(name),
            None => None,
        }
    }

    /// Get the name of the given monster from the locale database.
    pub fn monster_name(&self, locale: &str, name: &str) -> (r: Option<&str>)
        ensures
            match db_locale(self.locales@, locale@) {
                Some(l) => match lookup(l.monsters, name@) {
                    Some(t) => r matches Some(x) && x@ == t.name@,
                    None => r is None,
                },
                None => r is None,
            },
    {
        match self.locales.get(locale) {
            Some(l) => l.monster_name(name),
            None => None,
        }
    }

    /// Get the given boss from the locale database.
    pub fn boss(&self, locale: &str, name: &str) -> (r: Option<&BossTranslation>)
        ensures
            refers_to(
                r,
                match db_locale(self.locales@, locale@) {
                    Some(l) => lookup(l.bosses, name@),
                    None => None,
                },
            ),
    {
        match self.locales.get(locale) {
            Some(l) => l.boss(name),
            None => None,
        }
    }

    /// Get the name of the given boss from the locale database.
    pub fn boss_name(&self, locale: &str, name: &str) -> (r: Option<&str>)
        ensures
            match db_locale(self.locales@, locale@) {
                Some(l) => match lookup(l.bosses, name@) {
                    Some(t) => r matches Some(x) && x@ == t.name@,
                    None => r is None,
                },
                None => r is None,
            },
    {
        match self.locales.get(locale) {
            Some(l) => l.boss_name(name),
            None => None,
        }
    }

    /// Get the given skill from the locale database.
    pub fn skill(&self, locale: &str, name: &str) -> (r: Option<&SkillTranslation>)
        ensures
            refers_to(
                r,
                match db_locale(self.locales@, locale@) {
                    Some(l) => lookup(l.skills, name@),
                    None => None,
                },
            ),
    {
        match self.locales.get(locale) {
            Some(l) => l.skill(name),
            None => None,
        }
    }

    /// Get the name of the given skill from the locale database.
    pub fn skill_name(&self, locale: &str, name: &str) -> (r: Option<&str>)
        ensures
            match db_locale(self.locales@, locale@) {
                Some(l) => match lookup(l.skills, name@) {
                    Some(t) => r matches Some(x) && x@ == t.name@,
                    None => r is None,
                },
                None => r is None,
            },
    {
        match self.locales.get(locale) {
            Some(l) => l.skill_name(name),
            None => None,
        }
    }

    /// Get the description of the given skill from the locale database.
    pub fn skill_description(&self, locale: &str, name: &str) -> (r: Option<&str>)
        ensures
            match db_locale(self.locales@, locale@) {
                Some(l) => match lookup(l.skills, name@) {
                    Some(t) => r matches Some(x) && x@ == t.description@,
                    None => r is None,
                },
                None => r is None,
            },
    {
        match self.locales.get(locale) {
            Some(l) => l.skill_description(name),
            None => None,
        }
    }

    /// Get the given follower from the locale database.
    pub fn follower(&self, locale: &str, name: &str) -> (r: Option<&FollowerTranslation>)
        ensures
            refers_to(
                r,
                match db_locale(self.locales@, locale@) {
                    Some(l) => lookup(l.followers, name@),
                    None => None,
                },
            ),
    {
        match self.locales.get(locale) {
            Some(l) => l.follower(name),
            None => None,
        }
    }

    /// Get the name of the given follower from the locale database.
    pub fn follower_name(&self, locale: &str, name: &str) -> (r: Option<&str>)
        ensures
            match db_locale(self.locales@, locale@) {
                Some(l) => match lookup(l.followers, name@) {
                    Some(t) => r matches Some(x) && x@ == t.name@,
                    None => r is None,
                },
                None => r is None,
            },
    {
        match self.locales.get(locale) {
            Some(l) => l.follower_name(name),
            None => None,
        }
    }

    /// Get the description of the given follower from the locale database.
    pub fn follower_description(&self, locale: &str, name: &str) -> (r: Option<&str>)
        ensures
            match db_locale(self.locales@, locale@) {
                Some(l) => match lookup(l.followers, name@) {
                    Some(t) => r matches Some(x) && x@ == t.description@,
                    None => r is None,
                },
                None => r is None,
            },
    {
        match self.locales.get(locale) {
            Some(l) => l.follower_description(name),
            None => None,
        }
    }

    /// Get the status effect from the locale database.
    pub fn status(&self, locale: &str, name: &str) -> (r: Option<&str>)
        ensures
            holds_text(
                r,
                match db_locale(self.locales@, locale@) {
                    Some(l) => lookup(l.statuses, name@),
                    None => None,
                },
            ),
    {
        match self.locales.get(locale) {
            Some(l) => l.status(name),
            None => None,
        }
    }

    /// Get the event from the locale database.
    pub fn event(&self, locale: &str, name: &str) -> (r: Option<&str>)
        ensures
            holds_text(
                r,
                match db_locale(self.locales@, locale@) {
                    Some(l) => lookup(l.events, name@),
                    None => None,
                },
            ),
    {
        match self.locales.get(locale) {
            Some(l) => l.event(name),
            None => None,
        }
    }

    /// Get the spawn from the locale database.
    pub fn spawns(&self, locale: &str, name: &str) -> (r: Option<&str>)
        ensures
            holds_text(
                r,
                match db_locale(self.locales@, locale@) {
                    Some(l) => lookup(l.spawns, name@),
                    None => None,
                },
            ),
    {
        match self.locales.get(locale) {
            Some(l) => l.spawn(name),
            None => None,
        }
    }

    /// Get the family from the locale database.
    pub fn family(&self, locale: &str, name: &str) -> (r: Option<&str>)
        ensures
            holds_text(
                r,
                match db_locale(self.locales@, locale@) {
                    Some(l) => lookup(l.families, name@),
                    None => None,
                },
            ),
    {
        match self.locales.get(locale) {
            Some(l) => l.family(name),
            None => None,
        }
    }

    /// Get the rarity from the locale database.
    pub fn rarity(&self, locale: &str, name: &str) -> (r: Option<&str>)
        ensures
            holds_text(
                r,
                match db_locale(self.locales@, locale@) {
                    Some(l) => lookup(l.rarities, name@),
                    None => None,
                },
            ),
    {
        match self.locales.get(locale) {
            Some(l) => l.rarity(name),
            None => None,
        }
    }

    /// Merge the contents of `self` with that of `other`.
    /// For each locale, the contents of `other` will take precedence over `self` and overwrite
    /// values in case of duplicate keys.
    /// If `other` contains a locale not contained in `self`, it will be added to `self`.
    pub fn merge_with(&mut self, other: Self)
        ensures
            db_merged(final(self).locales@, old(self).locales@, other.locales@),
    {
        let ghost start = self.locales@;
        let ghost theirs = other.locales@;
        let entries = other.locales.into_entries();
        let ghost all = entries@;
        proof {
            assert(pairs_map(all) == theirs);
        }
        let mut rest = entries;
        let ghost mut j: int = 0;
        assert(all.skip(0) =~= all);
        while rest.len() > 0
            invariant
                0 <= j <= all.len(),
                rest@ == all.skip(j),
                keys_unique(all),
                merged_prefix(self.locales@, start, all, j),
            decreases rest.len(),
        {
            let (lang, db) = rest.remove(0);
            proof {
                assert(all[j] == (lang, db));
            }
            let ghost before = self.locales@;
            let ghost mut x = db;
            match self.locales.remove(lang.as_str()) {
                Some(mut cur) => {
                    cur.merge_with(db);
                    proof {
                        x = cur;
                    }
                    self.locales.insert(lang, cur);
                },
                None => {
                    self.locales.insert(lang, db);
                },
            }
            proof {
                assert(self.locales@ =~= before.insert(all[j].0@, x));
                lemma_merged_prefix_step(before, self.locales@, start, all, j, x);
                assert(rest@ =~= all.skip(j + 1));
                j = j + 1;
            }
        }
        proof {
            lemma_merged_prefix_done(self.locales@, start, all);
        }
    }
}

/// `m` with `keys[i]` mapped to `vals[i]` for each `i < n`, in order.
pub open spec fn zip_inserted(m: Map<Seq<char>, String>, keys: Seq<String>, vals: Seq<String>, n: int) -> Map<
    Seq<char>,
    String,
>
    decreases n,
{
    if n <= 0 {
        m
    } else {
        zip_inserted(m, keys, vals, n - 1).insert(keys[n - 1]@, vals[n - 1])
    }
}

/// The length of the shorter of two sequences.
pub open spec fn min_len<A, B>(a: Seq<A>, b: Seq<B>) -> int {
    if a.len() < b.len() {
        a.len() as int
    } else {
        b.len() as int
    }
}

/// Maps each English string of `en` to the string of `localed` at the same place.
fn insert_zipped(m: &mut StrMap<String>, localed: &Vec<String>, en: &Vec<String>)
    ensures
        final(m)@ == zip_inserted(old(m)@, en@, localed@, min_len(localed@, en@)),
{
    let n = if localed.len() < en.len() {
        localed.len()
    } else {
        en.len()
    };
    let mut k: usize = 0;
    while k < n
        invariant
            k <= n,
            n == min_len(localed@, en@),
            m@ == zip_inserted(old(m)@, en@, localed@, k as int),
        decreases n - k,
    {
        m.insert(en[k].clone(), localed[k].clone());
        k = k + 1;
    }
}

/// The message of an entity of a locale that the English codex lacks.
pub open spec fn locale_miss_message(kind: Seq<char>, slug: Seq<char>, locale: Seq<char>) -> Seq<
    char,
> {
    "Failed to find "@ + kind + " "@ + slug + " (found in locale "@ + locale + ")"@
}

/// The error of an entity of a locale that the English codex lacks.
fn locale_miss(kind: &str, slug: &str, locale: &str) -> (e: Error)
    ensures
        is_misc(e, locale_miss_message(kind@, slug@, locale@)),
{
    let a = concat3("Failed to find ", kind, " ");
    let b = concat3(a.as_str(), slug, " (found in locale ");
    misc(concat3(b.as_str(), locale, ")"))
}

/// The statuses map with the effects of `en` mapped, by their guide name, to the
/// effects of `localed` at the same place, for each place before `n`.
pub open spec fn effects_inserted(
    m: Map<Seq<char>, String>,
    en: Seq<SkillStatusEffect>,
    localed: Seq<SkillStatusEffect>,
    n: int,
) -> Map<Seq<char>, String>
    decreases n,
{
    if n <= 0 {
        m
    } else {
        effects_inserted(m, en, localed, n - 1).insert(
            guide_effect_name(en[n - 1].effect@),
            localed[n - 1].effect,
        )
    }
}

/// The strings after adding the raid `x`, or `None` when the English codex lacks it.
pub open spec fn raid_step(v: LocaleView, x: CodexRaid, data: Seq<CodexRaid>) -> Option<LocaleView> {
    match find_raid(data, x.slug@) {
        Some(d) => Some(
            LocaleView {
                events: zip_inserted(v.events, d.events@, x.events@, min_len(x.events@, d.events@)),
                raids: v.raids.insert(x.slug@, RaidTranslation { name: x.name, description: x.description }),
                ..v
            },
        ),
        None => None,
    }
}

/// The strings after adding the raids of `xs` from index `i` on, and the index of
/// the first one that the English codex lacks, if any.
pub open spec fn raids_added(v: LocaleView, xs: Seq<CodexRaid>, data: Seq<CodexRaid>, i: int) -> (LocaleView, Option<int>)
    decreases xs.len() - i,
{
    if i < 0 || i >= xs.len() {
        (v, None)
    } else {
        match raid_step(v, xs[i], data) {
            Some(w) => raids_added(w, xs, data, i + 1),
            None => (v, Some(i)),
        }
    }
}

/// The strings after adding the monster `x`, or `None` when the English codex lacks it.
pub open spec fn monster_step(v: LocaleView, x: CodexMonster, data: Seq<CodexMonster>) -> Option<LocaleView> {
    match find_monster(data, x.slug@) {
        Some(d) => Some(
            LocaleView {
                events: zip_inserted(v.events, d.events@, x.events@, min_len(x.events@, d.events@)),
                families: v.families.insert(d.family@, x.family),
                rarities: v.rarities.insert(d.rarity@, x.rarity),
                monsters: v.monsters.insert(x.slug@, MonsterTranslation { name: x.name }),
                ..v
            },
        ),
        None => None,
    }
}

/// The strings after adding the monsters of `xs` from index `i` on, and the index of
/// the first one that the English codex lacks, if any.
pub open spec fn monsters_added(v: LocaleView, xs: Seq<CodexMonster>, data: Seq<CodexMonster>, i: int) -> (LocaleView, Option<int>)
    decreases xs.len() - i,
{
    if i < 0 || i >= xs.len() {
        (v, None)
    } else {
        match monster_step(v, xs[i], data) {
            Some(w) => monsters_added(w, xs, data, i + 1),
            None => (v, Some(i)),
        }
    }
}

/// The strings after adding the boss `x`, or `None` when the English codex lacks it.
pub open spec fn boss_step(v: LocaleView, x: CodexBoss, data: Seq<CodexBoss>) -> Option<LocaleView> {
    match find_boss(data, x.slug@) {
        Some(d) => Some(
            LocaleView {
                events: zip_inserted(v.events, d.events@, x.events@, min_len(x.events@, d.events@)),
                families: v.families.insert(d.family@, x.family),
                rarities: v.rarities.insert(d.rarity@, x.rarity),
                bosses: v.bosses.insert(x.slug@, BossTranslation { name: x.name }),
                ..v
            },
        ),
        None => None,
    }
}

/// The strings after adding the bosses of `xs` from index `i` on, and the index of
/// the first one that the English codex lacks, if any.
pub open spec fn bosses_added(v: LocaleView, xs: Seq<CodexBoss>, data: Seq<CodexBoss>, i: int) -> (LocaleView, Option<int>)
    decreases xs.len() - i,
{
    if i < 0 || i >= xs.len() {
        (v, None)
    } else {
        match boss_step(v, xs[i], data) {
            Some(w) => bosses_added(w, xs, data, i + 1),
            None => (v, Some(i)),
        }
    }
}

/// The strings after adding the skill `x`, or `None` when the English codex lacks it.
pub open spec fn skill_step(v: LocaleView, x: CodexSkill, data: Seq<CodexSkill>) -> Option<LocaleView> {
    match find_skill(data, x.slug@) {
        Some(d) => Some(
            LocaleView {
                statuses: effects_inserted(v.statuses, d.causes@ + d.gives@, x.causes@, min_len(x.causes@, d.causes@ + d.gives@)),
                skills: v.skills.insert(x.slug@, SkillTranslation { name: x.name, description: x.description }),
                ..v
            },
        ),
        None => None,
    }
}

/// The strings after adding the skills of `xs` from index `i` on, and the index of
/// the first one that the English codex lacks, if any.
pub open spec fn skills_added(v: LocaleView, xs: Seq<CodexSkill>, data: Seq<CodexSkill>, i: int) -> (LocaleView, Option<int>)
    decreases xs.len() - i,
{
    if i < 0 || i >= xs.len() {
        (v, None)
    } else {
        match skill_step(v, xs[i], data) {
            Some(w) => skills_added(w, xs, data, i + 1),
            None => (v, Some(i)),
        }
    }
}

/// The strings after adding the follower `x`, or `None` when the English codex lacks it.
pub open spec fn follower_step(v: LocaleView, x: CodexFollower, data: Seq<CodexFollower>) -> Option<LocaleView> {
    match find_follower(data, x.slug@) {
        Some(d) => Some(
            LocaleView {
                events: zip_inserted(v.events, d.events@, x.events@, min_len(x.events@, d.events@)),
                followers: v.followers.insert(x.slug@, FollowerTranslation { name: x.name, description: x.description }),
                ..v
            },
        ),
        None => None,
    }
}

/// The strings after adding the followers of `xs` from index `i` on, and the index of
/// the first one that the English codex lacks, if any.
pub open spec fn followers_added(v: LocaleView, xs: Seq<CodexFollower>, data: Seq<CodexFollower>, i: int) -> (LocaleView, Option<int>)
    decreases xs.len() - i,
{
    if i < 0 || i >= xs.len() {
        (v, None)
    } else {
        match follower_step(v, xs[i], data) {
            Some(w) => followers_added(w, xs, data, i + 1),
            None => (v, Some(i)),
        }
    }
}

impl LocaleStrings {
    /// Maps the effects of the English skill `d` (those it causes, then those it
    /// gives), by their guide name, to the effects `x` causes in this locale.
    fn insert_statuses(&mut self, x: &CodexSkill, d: &CodexSkill)
        ensures
            final(self)@ == (LocaleView {
                statuses: effects_inserted(
                    old(self)@.statuses,
                    d.causes@ + d.gives@,
                    x.causes@,
                    min_len(x.causes@, d.causes@ + d.gives@),
                ),
                ..old(self)@
            }),
    {
        let ghost en = d.causes@ + d.gives@;
        let nc = d.causes.len();
        let total = if x.causes.len() <= nc {
            x.causes.len()
        } else if x.causes.len() - nc < d.gives.len() {
            x.causes.len()
        } else {
            nc + d.gives.len()
        };
        let mut k: usize = 0;
        while k < total
            invariant
                k <= total,
                total == min_len(x.causes@, en),
                en == d.causes@ + d.gives@,
                nc == d.causes@.len(),
                self@ == (LocaleView {
                    statuses: effects_inserted(old(self)@.statuses, en, x.causes@, k as int),
                    ..old(self)@
                }),
            decreases total - k,
        {
            let e = if k < nc {
                &d.causes[k]
            } else {
                &d.gives[k - nc]
            };
            assert(*e == en[k as int]);
            let key = to_owned(codex_effect_name_to_guide_name(e.effect.as_str()));
            self.statuses.insert(key, x.causes[k].effect.clone());
            k = k + 1;
        }
    }

    /// Add some codex raids to the locale database.
    /// If a raid is already present in `self`, it is updated with the strings from `raids`.
    /// Events associated to the raid are added to the events database.
    ///
    /// # Errors
    /// Errors if a raid cannot be found in the regular database.
    pub fn add_raids_and_events(&mut self, raids: Vec<CodexRaid>, data: &CodexData) -> (r: Result<(), Error>)
        ensures
            final(self)@ == raids_added(old(self)@, raids@, data.raids.raids@, 0).0,
            match raids_added(old(self)@, raids@, data.raids.raids@, 0).1 {
                None => r is Ok,
                Some(i) => r matches Err(e) && is_misc(
                    e,
                    locale_miss_message("raid"@, raids@[i].slug@, old(self)@.locale),
                ),
            },
    {
        let ghost all = raids@;
        let ghost start = self@;
        let ghost dv = data.raids.raids@;
        let mut rest = raids;
        let ghost mut j: int = 0;
        assert(all.skip(0) =~= all);
        while rest.len() > 0
            invariant
                0 <= j <= all.len(),
                rest@ == all.skip(j),
                all == raids@,
                start == old(self)@,
                dv == data.raids.raids@,
                self@.locale == start.locale,
                raids_added(start, all, dv, 0) == raids_added(self@, all, dv, j),
            decreases rest.len(),
        {
            let x = rest.remove(0);
            proof {
                assert(all[j] == x);
                reveal_strlit("/");
                lemma_slug_uri_roundtrip(raid_uri_prefix(), x.slug@);
            }
            let uri = concat3("/codex/raids/", x.slug.as_str(), "/");
            proof {
                assert(uri@ =~= crate::lookup::slug_uri(raid_uri_prefix(), x.slug@));
            }
            let d = match data.raids.find_by_uri(uri.as_str()) {
                Some(d) => d,
                None => {
                    proof {
                        assert(uri@ =~= crate::lookup::slug_uri(raid_uri_prefix(), x.slug@));
                        assert(raid_step(self@, all[j], dv) is None);
                        assert(j < all.len());
                        assert(raids_added(self@, all, dv, j) == (self@, Some(j)));
                    }
                    return Err(locale_miss("raid", x.slug.as_str(), self.locale.as_str()));
                },
            };
            let ghost before = self@;
            insert_zipped(&mut self.events, &x.events, &d.events);
            self.raids.insert(x.slug, RaidTranslation { name: x.name, description: x.description });
            assert(raid_step(before, all[j], dv) == Some(self@));
            proof {
                assert(rest@ =~= all.skip(j + 1));
                j = j + 1;
            }
        }
        Ok(())
    }

    /// Add some codex monsters to the locale database.
    /// If a monsters is already present in `self`, it is updated with the strings from `monsters`.
    /// Events, families and rarities associated to the monster are added to the database.
    ///
    /// # Errors
    /// Errors if a monster cannot be found in the regular database.
    pub fn add_monsters_events_families_and_rarities(&mut self, monsters: Vec<CodexMonster>, data: &CodexData) -> (r: Result<(), Error>)
        ensures
            final(self)@ == monsters_added(old(self)@, monsters@, data.monsters.monsters@, 0).0,
            match monsters_added(old(self)@, monsters@, data.monsters.monsters@, 0).1 {
                None => r is Ok,
                Some(i) => r matches Err(e) && is_misc(
                    e,
                    locale_miss_message("monster"@, monsters@[i].slug@, old(self)@.locale),
                ),
            },
    {
        let ghost all = monsters@;
        let ghost start = self@;
        let ghost dv = data.monsters.monsters@;
        let mut rest = monsters;
        let ghost mut j: int = 0;
        assert(all.skip(0) =~= all);
        while rest.len() > 0
            invariant
                0 <= j <= all.len(),
                rest@ == all.skip(j),
                all == monsters@,
                start == old(self)@,
                dv == data.monsters.monsters@,
                self@.locale == start.locale,
                monsters_added(start, all, dv, 0) == monsters_added(self@, all, dv, j),
            decreases rest.len(),
        {
            let x = rest.remove(0);
            proof {
                assert(all[j] == x);
                reveal_strlit("/");
                lemma_slug_uri_roundtrip(monster_uri_prefix(), x.slug@);
            }
            let uri = concat3("/codex/monsters/", x.slug.as_str(), "/");
            proof {
                assert(uri@ =~= crate::lookup::slug_uri(monster_uri_prefix(), x.slug@));
            }
            let d = match data.monsters.find_by_uri(uri.as_str()) {
                Some(d) => d,
                None => {
                    proof {
                        assert(uri@ =~= crate::lookup::slug_uri(monster_uri_prefix(), x.slug@));
                        assert(monster_step(self@, all[j], dv) is None);
                        assert(j < all.len());
                        assert(monsters_added(self@, all, dv, j) == (self@, Some(j)));
                    }
                    return Err(locale_miss("monster", x.slug.as_str(), self.locale.as_str()));
                },
            };
            let ghost before = self@;
            insert_zipped(&mut self.events, &x.events, &d.events);
            self.families.insert(d.family.clone(), x.family.clone());
            self.rarities.insert(d.rarity.clone(), x.rarity.clone());
            self.monsters.insert(x.slug, MonsterTranslation { name: x.name });
            assert(monster_step(before, all[j], dv) == Some(self@));
            proof {
                assert(rest@ =~= all.skip(j + 1));
                j = j + 1;
            }
        }
        Ok(())
    }

    /// Add some codex bosses to the locale database.
    /// If a boss is already present in `self`, it is updated with the strings from `bosses`.
    /// Events, families and rarities associated to the boss are added to the database.
    ///
    /// # Errors
    /// Errors if a boss cannot be found in the regular database.
    pub fn add_bosses_events_families_and_rarities(&mut self, bosses: Vec<CodexBoss>, data: &CodexData) -> (r: Result<(), Error>)
        ensures
            final(self)@ == bosses_added(old(self)@, bosses@, data.bosses.bosses@, 0).0,
            match bosses_added(old(self)@, bosses@, data.bosses.bosses@, 0).1 {
                None => r is Ok,
                Some(i) => r matches Err(e) && is_misc(
                    e,
                    locale_miss_message("boss"@, bosses@[i].slug@, old(self)@.locale),
                ),
            },
    {
        let ghost all = bosses@;
        let ghost start = self@;
        let ghost dv = data.bosses.bosses@;
        let mut rest = bosses;
        let ghost mut j: int = 0;
        assert(all.skip(0) =~= all);
        while rest.len() > 0
            invariant
                0 <= j <= all.len(),
                rest@ == all.skip(j),
                all == bosses@,
                start == old(self)@,
                dv == data.bosses.bosses@,
                self@.locale == start.locale,
                bosses_added(start, all, dv, 0) == bosses_added(self@, all, dv, j),
            decreases rest.len(),
        {
            let x = rest.remove(0);
            proof {
                assert(all[j] == x);
                reveal_strlit("/");
                lemma_slug_uri_roundtrip(boss_uri_prefix(), x.slug@);
            }
            let uri = concat3("/codex/bosses/", x.slug.as_str(), "/");
            proof {
                assert(uri@ =~= crate::lookup::slug_uri(boss_uri_prefix(), x.slug@));
            }
            let d = match data.bosses.find_by_uri(uri.as_str()) {
                Some(d) => d,
                None => {
                    proof {
                        assert(uri@ =~= crate::lookup::slug_uri(boss_uri_prefix(), x.slug@));
                        assert(boss_step(self@, all[j], dv) is None);
                        assert(j < all.len());
                        assert(bosses_added(self@, all, dv, j) == (self@, Some(j)));
                    }
                    return Err(locale_miss("boss", x.slug.as_str(), self.locale.as_str()));
                },
            };
            let ghost before = self@;
            insert_zipped(&mut self.events, &x.events, &d.events);
            self.families.insert(d.family.clone(), x.family.clone());
            self.rarities.insert(d.rarity.clone(), x.rarity.clone());
            self.bosses.insert(x.slug, BossTranslation { name: x.name });
            assert(boss_step(before, all[j], dv) == Some(self@));
            proof {
                assert(rest@ =~= all.skip(j + 1));
                j = j + 1;
            }
        }
        Ok(())
    }

    /// Add some codex skills to the locale database.
    /// If a skill is already present in `self`, it is updated with the strings from `skills`.
    /// Statuses associated to the skill are added to the database.
    ///
    /// # Errors
    /// Errors if a skill cannot be found in the regular database.
    pub fn add_skills_and_statuses(&mut self, skills: Vec<CodexSkill>, data: &CodexData) -> (r: Result<(), Error>)
        ensures
            final(self)@ == skills_added(old(self)@, skills@, data.skills.skills@, 0).0,
            match skills_added(old(self)@, skills@, data.skills.skills@, 0).1 {
                None => r is Ok,
                Some(i) => r matches Err(e) && is_misc(
                    e,
                    locale_miss_message("skill"@, skills@[i].slug@, old(self)@.locale),
                ),
            },
    {
        let ghost all = skills@;
        let ghost start = self@;
        let ghost dv = data.skills.skills@;
        let mut rest = skills;
        let ghost mut j: int = 0;
        assert(all.skip(0) =~= all);
        while rest.len() > 0
            invariant
                0 <= j <= all.len(),
                rest@ == all.skip(j),
                all == skills@,
                start == old(self)@,
                dv == data.skills.skills@,
                self@.locale == start.locale,
                skills_added(start, all, dv, 0) == skills_added(self@, all, dv, j),
            decreases rest.len(),
        {
            let x = rest.remove(0);
            proof {
                assert(all[j] == x);
                reveal_strlit("/");
                lemma_slug_uri_roundtrip(skill_uri_prefix(), x.slug@);
            }
            let uri = concat3("/codex/spells/", x.slug.as_str(), "/");
            proof {
                assert(uri@ =~= crate::lookup::slug_uri(skill_uri_prefix(), x.slug@));
            }
            let d = match data.skills.find_by_uri(uri.as_str()) {
                Some(d) => d,
                None => {
                    proof {
                        assert(uri@ =~= crate::lookup::slug_uri(skill_uri_prefix(), x.slug@));
                        assert(skill_step(self@, all[j], dv) is None);
                        assert(j < all.len());
                        assert(skills_added(self@, all, dv, j) == (self@, Some(j)));
                    }
                    return Err(locale_miss("skill", x.slug.as_str(), self.locale.as_str()));
                },
            };
            let ghost before = self@;
            self.insert_statuses(&x, d);
            self.skills.insert(x.slug, SkillTranslation { name: x.name, description: x.description });
            assert(skill_step(before, all[j], dv) == Some(self@));
            proof {
                assert(rest@ =~= all.skip(j + 1));
                j = j + 1;
            }
        }
        Ok(())
    }

    /// Add some codex followers to the locale database.
    /// If a follower is already present in `self`, it is updated with the strings from `followers`.
    /// Events associated to the follower are added to the database.
    ///
    /// # Errors
    /// Errors if a follower cannot be found in the regular database.
    pub fn add_followers_and_events(&mut self, followers: Vec<CodexFollower>, data: &CodexData) -> (r: Result<(), Error>)
        ensures
            final(self)@ == followers_added(old(self)@, followers@, data.followers.followers@, 0).0,
            match followers_added(old(self)@, followers@, data.followers.followers@, 0).1 {
                None => r is Ok,
                Some(i) => r matches Err(e) && is_misc(
                    e,
                    locale_miss_message("follower"@, followers@[i].slug@, old(self)@.locale),
                ),
            },
    {
        let ghost all = followers@;
        let ghost start = self@;
        let ghost dv = data.followers.followers@;
        let mut rest = followers;
        let ghost mut j: int = 0;
        assert(all.skip(0) =~= all);
        while rest.len() > 0
            invariant
                0 <= j <= all.len(),
                rest@ == all.skip(j),
                all == followers@,
                start == old(self)@,
                dv == data.followers.followers@,
                self@.locale == start.locale,
                followers_added(start, all, dv, 0) == followers_added(self@, all, dv, j),
            decreases rest.len(),
        {
            let x = rest.remove(0);
            proof {
                assert(all[j] == x);
                reveal_strlit("/");
                lemma_slug_uri_roundtrip(follower_uri_prefix(), x.slug@);
            }
            let uri = concat3("/codex/followers/", x.slug.as_str(), "/");
            proof {
                assert(uri@ =~= crate::lookup::slug_uri(follower_uri_prefix(), x.slug@));
            }
            let d = match data.followers.find_by_uri(uri.as_str()) {
                Some(d) => d,
                None => {
                    proof {
                        assert(uri@ =~= crate::lookup::slug_uri(follower_uri_prefix(), x.slug@));
                        assert(follower_step(self@, all[j], dv) is None);
                        assert(j < all.len());
                        assert(followers_added(self@, all, dv, j) == (self@, Some(j)));
                    }
                    return Err(locale_miss("follower", x.slug.as_str(), self.locale.as_str()));
                },
            };
            let ghost before = self@;
            insert_zipped(&mut self.events, &x.events, &d.events);
            self.followers.insert(x.slug, FollowerTranslation { name: x.name, description: x.description });
            assert(follower_step(before, all[j], dv) == Some(self@));
            proof {
                assert(rest@ =~= all.skip(j + 1));
                j = j + 1;
            }
        }
        Ok(())
    }
}


/// A trait for types that contain translation information and that are able to translate entities
/// of type `T`.
pub trait TranslationFor<T> {
    /// Translate the strings of `entity`.
    fn apply_to(&self, entity: &mut T);
}

impl TranslationFor<AdminMonster> for RaidTranslation {
    fn apply_to(&self, raid: &mut AdminMonster)
        ensures
            final(raid)@ == (AdminMonsterView { name: self.name@, ..old(raid)@ }),
    {
        raid.name = self.name.clone();
    }
}

impl TranslationFor<AdminMonster> for BossTranslation {
    fn apply_to(&self, boss: &mut AdminMonster)
        ensures
            final(boss)@ == (AdminMonsterView { name: self.name@, ..old(boss)@ }),
    {
        boss.name = self.name.clone();
    }
}

impl TranslationFor<AdminMonster> for MonsterTranslation {
    fn apply_to(&self, monster: &mut AdminMonster)
        ensures
            final(monster)@ == (AdminMonsterView { name: self.name@, ..old(monster)@ }),
    {
        monster.name = self.name.clone();
    }
}

/// The name a translation of any monster gives.
pub open spec fn generic_translated_name(t: GenericMonsterTranslation) -> Seq<char> {
    match t {
        GenericMonsterTranslation::Monster(x) => x.name@,
        GenericMonsterTranslation::Raid(x) => x.name@,
        GenericMonsterTranslation::Boss(x) => x.name@,
    }
}

impl TranslationFor<AdminMonster> for GenericMonsterTranslation {
    fn apply_to(&self, monster: &mut AdminMonster)
        ensures
            final(monster)@ == (AdminMonsterView {
                name: generic_translated_name(*self),
                ..old(monster)@
            }),
    {
        match self {
            GenericMonsterTranslation::Monster(x) => x.apply_to(monster),
            GenericMonsterTranslation::Raid(x) => x.apply_to(monster),
            GenericMonsterTranslation::Boss(x) => x.apply_to(monster),
        }
    }
}

impl TranslationFor<AdminPet> for FollowerTranslation {
    fn apply_to(&self, follower: &mut AdminPet)
        ensures
            final(follower)@ == (AdminPetView {
                name: self.name@,
                description: self.description@,
                ..old(follower)@
            }),
    {
        follower.name = self.name.clone();
        follower.description = self.description.clone();
    }
}

} // verus!
