//! Monsters of the game's data, split into regular monsters, bosses and raids.

use vstd::prelude::*;

use crate::error::{is_invalid_field, is_missing_field, Error, Kind};
pub use crate::monsters::raw::{MonsterBuff, MonsterDrop, MonsterQuest, MonsterSkill, RawMonster};
use crate::monsters::raw::spec_is_raid;
use crate::text::{string_views, to_owned};

verus! {

/// A monster in Orna. This enum splits into the different categories of monsters.
#[derive(Clone)]
pub enum Monster {
    /// A regular monster.
    Monster(MonsterMonster),
    /// A boss monster.
    Boss(BossMonster),
    /// A raid monster.
    Raid(RaidMonster),
}

/// A regular monster in Orna.
#[derive(Clone)]
pub struct MonsterMonster {
    pub name: String,
    pub id: u32,
    pub tier: u32,
    pub image: String,
    pub drops: Option<Vec<MonsterDrop>>,
    pub skills: Option<Vec<MonsterSkill>>,
    pub quests: Option<Vec<MonsterQuest>>,
    pub spawns: Option<Vec<String>>,
    pub resistant_to: Option<Vec<String>>,
    pub weak_to: Option<Vec<String>>,
    pub immune_to: Option<Vec<String>>,
    pub buffs: Option<Vec<MonsterBuff>>,
    pub immune_to_status: Option<Vec<String>>,
    pub vulnerable_to_status: Option<Vec<String>>,
}

/// A boss monster in Orna.
#[derive(Clone)]
pub struct BossMonster {
    pub name: String,
    pub id: u32,
    pub tier: u32,
    pub image: String,
    pub drops: Option<Vec<MonsterDrop>>,
    pub skills: Vec<MonsterSkill>,
    pub level: u32,
    pub spawns: Option<Vec<String>>,
    pub resistant_to: Option<Vec<String>>,
    pub weak_to: Option<Vec<String>>,
    pub immune_to: Option<Vec<String>>,
    pub buffs: Option<Vec<MonsterBuff>>,
    pub immune_to_status: Option<Vec<String>>,
    pub vulnerable_to_status: Option<Vec<String>>,
}

/// A raid monster in Orna.
#[derive(Clone)]
pub struct RaidMonster {
    pub name: String,
    pub id: u32,
    pub tier: u32,
    pub image: String,
    pub drops: Vec<MonsterDrop>,
    pub skills: Vec<MonsterSkill>,
    pub level: u32,
    pub spawns: Option<Vec<String>>,
    pub resistant_to: Option<Vec<String>>,
    pub weak_to: Option<Vec<String>>,
    pub immune_to: Option<Vec<String>>,
    pub buffs: Option<Vec<MonsterBuff>>,
    pub immune_to_status: Option<Vec<String>>,
    pub vulnerable_to_status: Option<Vec<String>>,
}

/// The characters of each spawn of a list that may be absent.
pub open spec fn spawns_view(spawns: Option<Vec<String>>) -> Option<Seq<Seq<char>>> {
    match spawns {
        Some(v) => Some(string_views(v@)),
        None => None,
    }
}

/// What `format!("{:?}", spawns)` writes for a list of spawns that may be absent.
pub uninterp spec fn spawns_debug_text(spawns: Option<Seq<Seq<char>>>) -> Seq<char>;

/// `format!("{:?}", spawns)`.
///
/// Formats with std's `Debug` for `Option<Vec<String>>`. The contract claims only that
/// the text is a function of the characters of the spawns (named `spawns_debug_text`);
/// the escaping std applies to each string is left unstated.
#[verifier::external_body]
fn debug_spawns(spawns: &Option<Vec<String>>) -> (r: String)
    ensures
        r@ == spawns_debug_text(spawns_view(*spawns)),
{
    format!("{:?}", spawns)
}

/// The regular monster a raw monster describes, field for field.
pub open spec fn monster_of(m: RawMonster) -> MonsterMonster {
    MonsterMonster {
        name: m.name,
        id: m.id,
        tier: m.tier,
        image: m.image,
        drops: m.drops,
        skills: m.skills,
        quests: m.quests,
        spawns: m.spawns,
        resistant_to: m.resistant_to,
        weak_to: m.weak_to,
        immune_to: m.immune_to,
        buffs: m.buffs,
        immune_to_status: m.immune_to_status,
        vulnerable_to_status: m.vulnerable_to_status,
    }
}

/// The boss a raw monster with skills and a level describes.
pub open spec fn boss_of(m: RawMonster) -> BossMonster {
    BossMonster {
        name: m.name,
        id: m.id,
        tier: m.tier,
        image: m.image,
        drops: m.drops,
        skills: m.skills.unwrap(),
        level: m.level.unwrap(),
        spawns: m.spawns,
        resistant_to: m.resistant_to,
        weak_to: m.weak_to,
        immune_to: m.immune_to,
        buffs: m.buffs,
        immune_to_status: m.immune_to_status,
        vulnerable_to_status: m.vulnerable_to_status,
    }
}

/// The raid a raw monster with drops, skills and a level describes.
pub open spec fn raid_of(m: RawMonster) -> RaidMonster {
    RaidMonster {
        name: m.name,
        id: m.id,
        tier: m.tier,
        image: m.image,
        drops: m.drops.unwrap(),
        skills: m.skills.unwrap(),
        level: m.level.unwrap(),
        spawns: m.spawns,
        resistant_to: m.resistant_to,
        weak_to: m.weak_to,
        immune_to: m.immune_to,
        buffs: m.buffs,
        immune_to_status: m.immune_to_status,
        vulnerable_to_status: m.vulnerable_to_status,
    }
}

/// A raw monster sorted as a regular monster, a boss or a raid keeps each field it has
/// under the same name (the skills, level and drops a boss or raid must have
/// unwrapped): its name, id, tier, image, drops, skills, quests, spawns, the elements
/// it resists, is weak to and immune to, its buffs, and the statuses it is immune and
/// vulnerable to.
pub proof fn law_sorted_monster_fields(m: RawMonster)
    ensures
        monster_of(m).name == m.name,
        monster_of(m).id == m.id,
        monster_of(m).tier == m.tier,
        monster_of(m).image == m.image,
        monster_of(m).drops == m.drops,
        monster_of(m).skills == m.skills,
        monster_of(m).quests == m.quests,
        monster_of(m).spawns == m.spawns,
        monster_of(m).resistant_to == m.resistant_to,
        monster_of(m).weak_to == m.weak_to,
        monster_of(m).immune_to == m.immune_to,
        monster_of(m).buffs == m.buffs,
        monster_of(m).immune_to_status == m.immune_to_status,
        monster_of(m).vulnerable_to_status == m.vulnerable_to_status,
        boss_of(m).name == m.name,
        boss_of(m).id == m.id,
        boss_of(m).tier == m.tier,
        boss_of(m).image == m.image,
        boss_of(m).drops == m.drops,
        boss_of(m).skills == m.skills.unwrap(),
        boss_of(m).level == m.level.unwrap(),
        boss_of(m).spawns == m.spawns,
        boss_of(m).resistant_to == m.resistant_to,
        boss_of(m).weak_to == m.weak_to,
        boss_of(m).immune_to == m.immune_to,
        boss_of(m).buffs == m.buffs,
        boss_of(m).immune_to_status == m.immune_to_status,
        boss_of(m).vulnerable_to_status == m.vulnerable_to_status,
        raid_of(m).name == m.name,
        raid_of(m).id == m.id,
        raid_of(m).tier == m.tier,
        raid_of(m).image == m.image,
        raid_of(m).drops == m.drops.unwrap(),
        raid_of(m).skills == m.skills.unwrap(),
        raid_of(m).level == m.level.unwrap(),
        raid_of(m).spawns == m.spawns,
        raid_of(m).resistant_to == m.resistant_to,
        raid_of(m).weak_to == m.weak_to,
        raid_of(m).immune_to == m.immune_to,
        raid_of(m).buffs == m.buffs,
        raid_of(m).immune_to_status == m.immune_to_status,
        raid_of(m).vulnerable_to_status == m.vulnerable_to_status,
{
}

/// A boss or raid that misses a field reports the first missing one, in the order
/// `drops` (raids only), `skills`, `level`.
pub open spec fn first_missing(m: RawMonster, raid: bool) -> Option<Seq<char>> {
    if raid && m.drops is None {
        Some("drops"@)
    } else if m.skills is None {
        Some("skills"@)
    } else if m.level is None {
        Some("level"@)
    } else {
        None
    }
}

/// The error that a field of `name` is missing.
fn missing_field(name: &String, field: &str) -> (e: Error)
    ensures
        is_missing_field(e, name@, field@),
{
    Kind::MissingField(name.clone(), to_owned(field)).into_err()
}

impl MonsterMonster {
    /// Create a `Monster` from a `RawMonster`.
    /// The `RawMonster`'s `boss` field must be `false`.
    pub fn try_from(monster: RawMonster) -> (r: Result<Self, Error>)
        ensures
            monster.boss ==> (r matches Err(e) && is_invalid_field(
                e,
                monster.name@,
                "boss"@,
                "true"@,
            )),
            !monster.boss ==> (r matches Ok(m) && m == monster_of(monster)),
    {
        if monster.boss {
            return Err(
                Kind::InvalidField(monster.name, to_owned("boss"), Some(to_owned("true"))).into_err(),
            );
        }
        Ok(MonsterMonster {
            name: monster.name,
            id: monster.id,
            tier: monster.tier,
            image: monster.image,
            drops: monster.drops,
            skills: monster.skills,
            quests: monster.quests,
            spawns: monster.spawns,
            resistant_to: monster.resistant_to,
            weak_to: monster.weak_to,
            immune_to: monster.immune_to,
            buffs: monster.buffs,
            immune_to_status: monster.immune_to_status,
            vulnerable_to_status: monster.vulnerable_to_status,
        })
    }
}

impl BossMonster {
    /// Create a `Boss` from a `RawMonster`.
    /// The `RawMonster`'s `boss` field must be `true` and its `spawns` must not contain `Kingdom
    /// Raid` or `World Raid`.
    pub fn try_from(monster: RawMonster) -> (r: Result<Self, Error>)
        ensures
            !monster.boss ==> (r matches Err(e) && is_invalid_field(
                e,
                monster.name@,
                "boss"@,
                "false"@,
            )),
            monster.boss && spec_is_raid(monster) ==> (r matches Err(e) && is_invalid_field(
                e,
                monster.name@,
                "spawns"@,
                spawns_debug_text(spawns_view(monster.spawns)),
            )),
            monster.boss && !spec_is_raid(monster) ==> match first_missing(monster, false) {
                Some(f) => r matches Err(e) && is_missing_field(e, monster.name@, f),
                None => r matches Ok(b) && b == boss_of(monster),
            },
    {
        if !monster.boss {
            return Err(
                Kind::InvalidField(monster.name, to_owned("boss"), Some(to_owned("false"))).into_err(),
            );
        }
        if monster.is_raid() {
            let text = debug_spawns(&monster.spawns);
            return Err(
                Kind::InvalidField(monster.name, to_owned("spawns"), Some(text)).into_err(),
            );
        }
        let skills = match monster.skills {
            Some(s) => s,
            None => {
                return Err(missing_field(&monster.name, "skills"));
            },
        };
        let level = match monster.level {
            Some(l) => l,
            None => {
                return Err(missing_field(&monster.name, "level"));
            },
        };
        Ok(BossMonster {
            name: monster.name,
            id: monster.id,
            tier: monster.tier,
            image: monster.image,
            drops: monster.drops,
            skills,
            level,
            spawns: monster.spawns,
            resistant_to: monster.resistant_to,
            weak_to: monster.weak_to,
            immune_to: monster.immune_to,
            buffs: monster.buffs,
            immune_to_status: monster.immune_to_status,
            vulnerable_to_status: monster.vulnerable_to_status,
        })
    }
}

impl RaidMonster {
    /// Create a `Raid` from a `RawMonster`.
    /// The `RawMonster`'s `boss` field must be `true` and its `spawns` must contain `Kingdom Raid`
    /// or `World Raid`.
    pub fn try_from(monster: RawMonster) -> (r: Result<Self, Error>)
        ensures
            !monster.boss ==> (r matches Err(e) && is_invalid_field(
                e,
                monster.name@,
                "boss"@,
                "false"@,
            )),
            monster.boss && !spec_is_raid(monster) ==> (r matches Err(e) && is_invalid_field(
                e,
                monster.name@,
                "spawns"@,
                spawns_debug_text(spawns_view(monster.spawns)),
            )),
            monster.boss && spec_is_raid(monster) ==> match first_missing(monster, true) {
                Some(f) => r matches Err(e) && is_missing_field(e, monster.name@, f),
                None => r matches Ok(b) && b == raid_of(monster),
            },
    {
        if !monster.boss {
            return Err(
                Kind::InvalidField(monster.name, to_owned("boss"), Some(to_owned("false"))).into_err(),
            );
        }
        if !monster.is_raid() {
            let text = debug_spawns(&monster.spawns);
            return Err(
                Kind::InvalidField(monster.name, to_owned("spawns"), Some(text)).into_err(),
            );
        }
        let drops = match monster.drops {
            Some(d) => d,
            None => {
                return Err(missing_field(&monster.name, "drops"));
            },
        };
        let skills = match monster.skills {
            Some(s) => s,
            None => {
                return Err(missing_field(&monster.name, "skills"));
            },
        };
        let level = match monster.level {
            Some(l) => l,
            None => {
                return Err(missing_field(&monster.name, "level"));
            },
        };
        Ok(RaidMonster {
            name: monster.name,
            id: monster.id,
            tier: monster.tier,
            image: monster.image,
            drops,
            skills,
            level,
            spawns: monster.spawns,
            resistant_to: monster.resistant_to,
            weak_to: monster.weak_to,
            immune_to: monster.immune_to,
            buffs: monster.buffs,
            immune_to_status: monster.immune_to_status,
            vulnerable_to_status: monster.vulnerable_to_status,
        })
    }
}

/// The category a raw monster falls in: regular when it is no boss, a raid when it
/// is a boss with a raid spawn, a boss otherwise.
pub open spec fn spec_classify(m: RawMonster) -> Result<Monster, Option<Seq<char>>> {
    if !m.boss {
        Ok(Monster::Monster(monster_of(m)))
    } else if !spec_is_raid(m) {
        match first_missing(m, false) {
            Some(f) => Err(Some(f)),
            None => Ok(Monster::Boss(boss_of(m))),
        }
    } else {
        match first_missing(m, true) {
            Some(f) => Err(Some(f)),
            None => Ok(Monster::Raid(raid_of(m))),
        }
    }
}

impl Monster {
    /// Sort a raw monster into a regular monster, a boss or a raid.
    ///
    /// # Errors
    /// Errors when a boss or a raid misses a field it needs.
    pub fn try_from(raw_monster: RawMonster) -> (r: Result<Self, Error>)
        ensures
            match spec_classify(raw_monster) {
                Ok(m) => r matches Ok(x) && x == m,
                Err(f) => r matches Err(e) && is_missing_field(e, raw_monster.name@, f.unwrap()),
            },
    {
        if !raw_monster.boss {
            match MonsterMonster::try_from(raw_monster) {
                Ok(m) => Ok(Monster::Monster(m)),
                Err(e) => Err(e),
            }
        } else if !raw_monster.is_raid() {
            match BossMonster::try_from(raw_monster) {
                Ok(m) => Ok(Monster::Boss(m)),
                Err(e) => Err(e),
            }
        } else {
            match RaidMonster::try_from(raw_monster) {
                Ok(m) => Ok(Monster::Raid(m)),
                Err(e) => Err(e),
            }
        }
    }
}

} // verus!
