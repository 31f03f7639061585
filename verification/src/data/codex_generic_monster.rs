//! A monster of the codex that may be a regular monster, a boss or a raid.

use vstd::prelude::*;

use crate::codex::{CodexBoss, CodexMonster, CodexRaid, MonsterAbility, MonsterDrop};
use crate::guide::html_utils::Tag;
use crate::monsters::admin::{repeated, str_views};
use crate::data::guide_data::{boss_as_admin, events_ok, monster_as_admin, raid_as_admin};
use crate::data::GuideData;
use crate::error::Error;
use crate::monsters::admin::AdminMonster;
use crate::text::concat3;

verus! {

/// A monster from the codex, which may be a regular monster, a boss or a raid.
#[derive(Debug, Clone, Copy)]
pub enum CodexGenericMonster<'a> {
    /// A regular monster.
    Monster(&'a CodexMonster),
    /// A boss.
    Boss(&'a CodexBoss),
    /// A raid.
    Raid(&'a CodexRaid),
}

/// How many of `tags` are `tag`.
pub open spec fn count_tag(tags: Seq<Tag>, tag: Tag) -> nat
    decreases tags.len(),
{
    if tags.len() == 0 {
        0
    } else {
        count_tag(tags.drop_last(), tag) + if tags.last() == tag {
            1nat
        } else {
            0nat
        }
    }
}

/// The tags a raid may have as guide spawns: world raids, kingdom raids, other
/// realms raids.
pub open spec fn is_spawn_tag(t: Tag) -> bool {
    t == Tag::WorldRaid || t == Tag::KingdomRaid || t == Tag::OtherRealmsRaid
}

impl<'a> CodexGenericMonster<'a> {
    /// The prefix of the codex uri of the monster.
    pub open spec fn uri_prefix(&self) -> Seq<char> {
        match self {
            CodexGenericMonster::Monster(_) => "/codex/monsters/"@,
            CodexGenericMonster::Boss(_) => "/codex/bosses/"@,
            CodexGenericMonster::Raid(_) => "/codex/raids/"@,
        }
    }

    /// The slug of the monster.
    pub open spec fn spec_slug(&self) -> Seq<char> {
        match self {
            CodexGenericMonster::Monster(x) => x.slug@,
            CodexGenericMonster::Boss(x) => x.slug@,
            CodexGenericMonster::Raid(x) => x.slug@,
        }
    }

    /// The events in which the monster appears.
    pub open spec fn spec_events(&self) -> Seq<String> {
        match self {
            CodexGenericMonster::Monster(x) => x.events@,
            CodexGenericMonster::Boss(x) => x.events@,
            CodexGenericMonster::Raid(x) => x.events@,
        }
    }

    /// The tags of the monster: a raid's, none for the others.
    pub open spec fn spec_tags(&self) -> Seq<Tag> {
        match self {
            CodexGenericMonster::Raid(x) => x.tags@,
            _ => Seq::empty(),
        }
    }

    /// Return the URI of the monster.
    /// URI matches `/codex/{kind}/{slug}/`.
    pub fn uri(&self) -> (r: String)
        ensures
            r@ == self.uri_prefix() + self.spec_slug() + "/"@,
    {
        match self {
            CodexGenericMonster::Monster(x) => concat3("/codex/monsters/", x.slug.as_str(), "/"),
            CodexGenericMonster::Boss(x) => concat3("/codex/bosses/", x.slug.as_str(), "/"),
            CodexGenericMonster::Raid(x) => concat3("/codex/raids/", x.slug.as_str(), "/"),
        }
    }

    /// Return the slug of the monster.
    pub fn slug(&self) -> (r: &str)
        ensures
            r@ == self.spec_slug(),
    {
        match self {
            CodexGenericMonster::Monster(x) => x.slug.as_str(),
            CodexGenericMonster::Boss(x) => x.slug.as_str(),
            CodexGenericMonster::Raid(x) => x.slug.as_str(),
        }
    }

    /// Return the name of the monster.
    pub fn name(&self) -> (r: &'a String)
        ensures
            *r == match self {
                CodexGenericMonster::Monster(x) => x.name,
                CodexGenericMonster::Boss(x) => x.name,
                CodexGenericMonster::Raid(x) => x.name,
            },
    {
        match self {
            CodexGenericMonster::Monster(x) => &x.name,
            CodexGenericMonster::Boss(x) => &x.name,
            CodexGenericMonster::Raid(x) => &x.name,
        }
    }

    /// Return the icon of the monster.
    pub fn icon(&self) -> (r: &'a String)
        ensures
            *r == match self {
                CodexGenericMonster::Monster(x) => x.icon,
                CodexGenericMonster::Boss(x) => x.icon,
                CodexGenericMonster::Raid(x) => x.icon,
            },
    {
        match self {
            CodexGenericMonster::Monster(x) => &x.icon,
            CodexGenericMonster::Boss(x) => &x.icon,
            CodexGenericMonster::Raid(x) => &x.icon,
        }
    }

    /// Return the events to which the monster belongs.
    pub fn events(&self) -> (r: &'a Vec<String>)
        ensures
            *r == match self {
                CodexGenericMonster::Monster(x) => x.events,
                CodexGenericMonster::Boss(x) => x.events,
                CodexGenericMonster::Raid(x) => x.events,
            },
    {
        match self {
            CodexGenericMonster::Monster(x) => &x.events,
            CodexGenericMonster::Boss(x) => &x.events,
            CodexGenericMonster::Raid(x) => &x.events,
        }
    }

    /// Return the family of the monster, if any.
    pub fn family(&self) -> (r: Option<&'a String>)
        ensures
            match self {
                CodexGenericMonster::Monster(x) => r matches Some(f) && *f == x.family,
                CodexGenericMonster::Boss(x) => r matches Some(f) && *f == x.family,
                CodexGenericMonster::Raid(_) => r is None,
            },
    {
        match self {
            CodexGenericMonster::Monster(x) => Some(&x.family),
            CodexGenericMonster::Boss(x) => Some(&x.family),
            CodexGenericMonster::Raid(_) => None,
        }
    }

    /// Return the rarity of the monster, if any.
    pub fn rarity(&self) -> (r: Option<&'a String>)
        ensures
            match self {
                CodexGenericMonster::Monster(x) => r matches Some(f) && *f == x.rarity,
                CodexGenericMonster::Boss(x) => r matches Some(f) && *f == x.rarity,
                CodexGenericMonster::Raid(_) => r is None,
            },
    {
        match self {
            CodexGenericMonster::Monster(x) => Some(&x.rarity),
            CodexGenericMonster::Boss(x) => Some(&x.rarity),
            CodexGenericMonster::Raid(_) => None,
        }
    }

    /// Return the tier of the monster.
    pub fn tier(&self) -> (r: u8)
        ensures
            r == match self {
                CodexGenericMonster::Monster(x) => x.tier,
                CodexGenericMonster::Boss(x) => x.tier,
                CodexGenericMonster::Raid(x) => x.tier,
            },
    {
        match self {
            CodexGenericMonster::Monster(x) => x.tier,
            CodexGenericMonster::Boss(x) => x.tier,
            CodexGenericMonster::Raid(x) => x.tier,
        }
    }

    /// Return the tags attached to the monster.
    pub fn tags(&self) -> (r: Vec<Tag>)
        ensures
            r@ == self.spec_tags(),
    {
        match self {
            CodexGenericMonster::Raid(x) => {
                let mut r: Vec<Tag> = Vec::new();
                let mut i: usize = 0;
                while i < x.tags.len()
                    invariant
                        i <= x.tags@.len(),
                        r@ == x.tags@.take(i as int),
                    decreases x.tags.len() - i,
                {
                    r.push(x.tags[i]);
                    proof {
                        assert(r@ =~= x.tags@.take(i + 1));
                    }
                    i = i + 1;
                }
                assert(x.tags@.take(x.tags@.len() as int) =~= x.tags@);
                r
            },
            _ => Vec::new(),
        }
    }

    /// Return the tags attached to the monster as guide spawns, sorted: the kingdom
    /// raids, then the world raids (other realms raids are no guide spawn).
    pub fn tags_as_guide_spawns(&self) -> (r: Vec<&'static str>)
        requires
            forall|i: int|
                0 <= i < self.spec_tags().len() ==> is_spawn_tag(#[trigger] self.spec_tags()[i]),
        ensures
            str_views(r@) == repeated(count_tag(self.spec_tags(), Tag::KingdomRaid), "Kingdom Raid"@)
                + repeated(count_tag(self.spec_tags(), Tag::WorldRaid), "World Raid"@),
    {
        let tags = self.tags();
        let mut kingdom: usize = 0;
        let mut world: usize = 0;
        let mut i: usize = 0;
        while i < tags.len()
            invariant
                i <= tags@.len(),
                tags@ == self.spec_tags(),
                kingdom == count_tag(tags@.take(i as int), Tag::KingdomRaid),
                world == count_tag(tags@.take(i as int), Tag::WorldRaid),
                kingdom <= i,
                world <= i,
            decreases tags.len() - i,
        {
            proof {
                assert(tags@.take(i + 1).drop_last() =~= tags@.take(i as int));
            }
            match tags[i] {
                Tag::KingdomRaid => kingdom = kingdom + 1,
                Tag::WorldRaid => world = world + 1,
                _ => {},
            }
            i = i + 1;
        }
        assert(tags@.take(tags@.len() as int) =~= tags@);
        let mut r: Vec<&'static str> = Vec::new();
        let mut k: usize = 0;
        while k < kingdom
            invariant
                k <= kingdom,
                str_views(r@) == repeated(k as nat, "Kingdom Raid"@),
            decreases kingdom - k,
        {
            let ghost before = r@;
            r.push("Kingdom Raid");
            proof {
                assert(str_views(r@) =~= str_views(before).push("Kingdom Raid"@));
                assert(repeated(k as nat, "Kingdom Raid"@).push("Kingdom Raid"@) =~= repeated(
                    (k + 1) as nat,
                    "Kingdom Raid"@,
                ));
            }
            k = k + 1;
        }
        let ghost kings = str_views(r@);
        let mut w: usize = 0;
        while w < world
            invariant
                w <= world,
                str_views(r@) == kings + repeated(w as nat, "World Raid"@),
            decreases world - w,
        {
            let ghost before = r@;
            r.push("World Raid");
            proof {
                assert(str_views(r@) =~= str_views(before).push("World Raid"@));
                assert((kings + repeated(w as nat, "World Raid"@)).push("World Raid"@) =~= kings
                    + repeated((w + 1) as nat, "World Raid"@));
            }
            w = w + 1;
        }
        r
    }

    /// Return the abilities of the monster.
    pub fn abilities(&self) -> (r: &'a Vec<MonsterAbility>)
        ensures
            *r == match self {
                CodexGenericMonster::Monster(x) => x.abilities,
                CodexGenericMonster::Boss(x) => x.abilities,
                CodexGenericMonster::Raid(x) => x.abilities,
            },
    {
        match self {
            CodexGenericMonster::Monster(x) => &x.abilities,
            CodexGenericMonster::Boss(x) => &x.abilities,
            CodexGenericMonster::Raid(x) => &x.abilities,
        }
    }

    /// Return the list of drops of the monster.
    pub fn drops(&self) -> (r: &'a Vec<MonsterDrop>)
        ensures
            *r == match self {
                CodexGenericMonster::Monster(x) => x.drops,
                CodexGenericMonster::Boss(x) => x.drops,
                CodexGenericMonster::Raid(x) => x.drops,
            },
    {
        match self {
            CodexGenericMonster::Monster(x) => &x.drops,
            CodexGenericMonster::Boss(x) => &x.drops,
            CodexGenericMonster::Raid(x) => &x.drops,
        }
    }

    /// Try to convert `self` to an `AdminMonster`.
    ///
    ///  - An unknown family will be ignored, rather than returning an error.
    ///  - Unknown events are ignored, rather than returning an error.
    ///  - Unknown spawns are ignored, rather than returning an error.
    ///  - Unknown drops are ignored, rather than returning an error.
    ///  - Unknown skills are ignored, rather than returning an error.
    pub fn try_to_admin_monster(&self, guide_data: &GuideData) -> (r: Result<AdminMonster, Error>)
        requires
            self.spec_events().len() > 0 ==> events_ok(guide_data.static_.spawns@),
        ensures
            r matches Ok(m) && m@ == match self {
                CodexGenericMonster::Monster(x) => monster_as_admin(**x, *guide_data),
                CodexGenericMonster::Boss(x) => boss_as_admin(**x, *guide_data),
                CodexGenericMonster::Raid(x) => raid_as_admin(**x, *guide_data),
            },
    {
        match self {
            CodexGenericMonster::Monster(x) => x.try_to_admin_monster(guide_data),
            CodexGenericMonster::Boss(x) => x.try_to_admin_monster(guide_data),
            CodexGenericMonster::Raid(x) => x.try_to_admin_monster(guide_data),
        }
    }
}

} // verus!
