//! Monsters as the game's data lists them.

use vstd::prelude::*;

use crate::text::{str_eq, string_views};

verus! {

/// A drop from the monster.
#[derive(Clone, Debug)]
pub struct MonsterDrop {
    pub id: u32,
    pub name: String,
}

/// A skill from the monster.
#[derive(Clone, Debug)]
pub struct MonsterSkill {
    pub id: u32,
    pub name: String,
}

/// A quest featuring the monster.
#[derive(Clone, Debug)]
pub struct MonsterQuest {
    pub id: u32,
    pub name: String,
}

/// A buff towards which that monster counts.
#[derive(Clone, Debug)]
pub struct MonsterBuff {
    pub id: u32,
    pub name: String,
}

/// An object representation of a monster in Orna from the API json. This encompasses regular
/// monsters, bosses and WRBs.
#[derive(Clone, Debug)]
pub struct RawMonster {
    pub name: String,
    pub id: u32,
    pub tier: u32,
    pub boss: bool,
    pub image: String,
    pub drops: Option<Vec<MonsterDrop>>,
    pub skills: Option<Vec<MonsterSkill>>,
    pub quests: Option<Vec<MonsterQuest>>,
    pub level: Option<u32>,
    pub spawns: Option<Vec<String>>,
    pub resistant_to: Option<Vec<String>>,
    pub weak_to: Option<Vec<String>>,
    pub immune_to: Option<Vec<String>>,
    pub buffs: Option<Vec<MonsterBuff>>,
    pub immune_to_status: Option<Vec<String>>,
    pub vulnerable_to_status: Option<Vec<String>>,
}

/// A spawn that marks a raid.
pub open spec fn is_raid_spawn(s: Seq<char>) -> bool {
    s == "Kingdom Raid"@ || s == "World Raid"@
}

/// The monster has a raid among its spawns.
pub open spec fn spec_is_raid(m: RawMonster) -> bool {
    match m.spawns {
        Some(v) => has_raid_spawn(string_views(v@)),
        None => false,
    }
}

/// One of `spawns` marks a raid.
pub open spec fn has_raid_spawn(spawns: Seq<Seq<char>>) -> bool {
    exists|i: int| 0 <= i < spawns.len() && is_raid_spawn(#[trigger] spawns[i])
}

impl RawMonster {
    /// Return true if `self` is a raid monster.
    pub fn is_raid(&self) -> (r: bool)
        ensures
            r == spec_is_raid(*self),
    {
        match &self.spawns {
            Some(v) => {
                let ghost views = string_views(v@);
                let mut i: usize = 0;
                while i < v.len()
                    invariant
                        views == string_views(v@),
                        self.spawns == Some(*v),
                        i <= v@.len(),
                        forall|j: int| 0 <= j < i ==> !is_raid_spawn(#[trigger] views[j]),
                    decreases v.len() - i,
                {
                    if str_eq(v[i].as_str(), "Kingdom Raid") || str_eq(v[i].as_str(), "World Raid") {
                        assert(is_raid_spawn(views[i as int]));
                        return true;
                    }
                    i = i + 1;
                }
                false
            },
            None => false,
        }
    }
}

/// A set of monsters json objects. This is used to attach methods for parsing.
pub struct RawMonsters {
    pub items: Vec<RawMonster>,
}

} // verus!
