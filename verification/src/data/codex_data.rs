//! The data of the public codex, all kinds together.

use vstd::prelude::*;

use vstd::string::*;
use vstd::utf8::*;

use crate::codex::monster::{find_boss, find_monster, find_raid};
use crate::codex::{CodexBosses, CodexFollowers, CodexItems, CodexMonsters, CodexRaids, CodexSkills};
use crate::data::CodexGenericMonster;
use crate::error::{is_misc, misc, Error};
use crate::guide::Spawn;
use crate::lookup::{after_bytes_trimmed, bytes_cut_ok, cut_after_bytes, first_match, first_match_from};
use crate::monsters::admin::{has_raid_spawn, AdminMonster, RaidSpawn};
use crate::num::{spec_dec, unsigned_to_string};
use crate::text::concat3;
use crate::text::{find_char, find_char_index, spec_trim_end_char, str_eq, trim_end_matches};

verus! {

/// Aggregate for codex data.
pub struct CodexData {
    /// Items from the codex.
    pub items: CodexItems,
    /// Raids from the codex.
    pub raids: CodexRaids,
    /// Monsters from the codex.
    pub monsters: CodexMonsters,
    /// Bosses from the codex.
    pub bosses: CodexBosses,
    /// Skills from the codex.
    pub skills: CodexSkills,
    /// Followers from the codex.
    pub followers: CodexFollowers,
}

/// Cutting `/codex/` (its length in bytes) out of `uri` does not panic: the uri is
/// empty, or that many bytes start it and end on a character.
pub open spec fn generic_uri_ok(uri: Seq<char>) -> bool {
    uri.len() == 0 || (encode_utf8(uri).len() >= 7 && is_char_boundary(encode_utf8(uri), 7))
}

/// The kind and the slug of a codex uri `/codex/{kind}/{slug}/`: what follows its
/// first 7 bytes, trailing `/` removed, split at its first `/`.
pub open spec fn generic_target(uri: Seq<char>) -> Option<(Seq<char>, Seq<char>)> {
    if uri.len() == 0 {
        None
    } else {
        let rest = spec_trim_end_char(
            decode_utf8(encode_utf8(uri).subrange(7, encode_utf8(uri).len() as int)),
            '/',
        );
        match find_char(rest, '/') {
            Some(p) => Some((rest.subrange(0, p), rest.subrange(p + 1, rest.len() as int))),
            None => None,
        }
    }
}

/// The first monster, boss or raid with the slug, found among the monsters, the
/// bosses or the raids as the kind says.
pub open spec fn generic_found<'a>(data: &'a CodexData, kind: Seq<char>, slug: Seq<char>, r: Option<CodexGenericMonster<'a>>) -> bool {
    if kind == "monsters"@ {
        match find_monster(data.monsters.monsters@, slug) {
            Some(m) => r matches Some(CodexGenericMonster::Monster(x)) && *x == m,
            None => r is None,
        }
    } else if kind == "bosses"@ {
        match find_boss(data.bosses.bosses@, slug) {
            Some(m) => r matches Some(CodexGenericMonster::Boss(x)) && *x == m,
            None => r is None,
        }
    } else if kind == "raids"@ {
        match find_raid(data.raids.raids@, slug) {
            Some(m) => r matches Some(CodexGenericMonster::Raid(x)) && *x == m,
            None => r is None,
        }
    } else {
        r is None
    }
}

/// The number of bytes of the codex uri prefix of an admin monster: that of
/// `/codex/monsters/` for a regular monster, `/codex/bosses/` for a boss,
/// `/codex/raids/` for a raid.
pub open spec fn admin_uri_cut(m: &AdminMonster, guide: Seq<Spawn>) -> int {
    if !m.boss {
        16
    } else if !has_raid_spawn(RaidSpawn::Any, m.spawns@, guide) {
        14
    } else {
        13
    }
}

/// `r` is the codex monster, boss or raid whose slug the uri of the admin monster
/// gives, or the error that none matches.
pub open spec fn admin_found<'a>(data: &'a CodexData, m: &AdminMonster, guide: Seq<Spawn>, r: Result<CodexGenericMonster<'a>, Error>) -> bool {
    let slug = after_bytes_trimmed(m.codex_uri@, admin_uri_cut(m, guide));
    let miss = |kind: Seq<char>|
        "No codex monster match for admin "@ + kind + " "@ + m.name@ + " (#"@ + spec_dec(m.id as nat) + ")"@;
    if !m.boss {
        match find_monster(data.monsters.monsters@, slug) {
            Some(x) => r matches Ok(CodexGenericMonster::Monster(y)) && *y == x,
            None => r matches Err(e) && is_misc(e, miss("monster"@)),
        }
    } else if !has_raid_spawn(RaidSpawn::Any, m.spawns@, guide) {
        match find_boss(data.bosses.bosses@, slug) {
            Some(x) => r matches Ok(CodexGenericMonster::Boss(y)) && *y == x,
            None => r matches Err(e) && is_misc(e, miss("boss"@)),
        }
    } else {
        match find_raid(data.raids.raids@, slug) {
            Some(x) => r matches Ok(CodexGenericMonster::Raid(y)) && *y == x,
            None => r matches Err(e) && is_misc(e, miss("raid"@)),
        }
    }
}

impl<'a> CodexData {
    /// Find which monster/boss/raid corresponds to the given URI.
    /// The URI must be of the form `/codex/{kind}/{slug}/` or empty.
    pub fn find_generic_monster_from_uri(&'a self, uri: &str) -> (r: Option<CodexGenericMonster<'a>>)
        requires
            generic_uri_ok(uri@),
        ensures
            match generic_target(uri@) {
                Some((kind, slug)) => generic_found(self, kind, slug, r),
                None => r is None,
            },
    {
        broadcast use vstd::utf8::encode_utf8_decode_utf8;

        if uri.unicode_len() == 0 {
            return None;
        }
        let (_, rest) = uri.split_at(7);
        proof {
            assert(rest.spec_bytes() =~= encode_utf8(uri@).subrange(7, encode_utf8(uri@).len() as int));
            encode_utf8_decode_utf8(rest@);
        }
        let rest = trim_end_matches(rest, '/');
        match find_char_index(rest, '/') {
            Some(pos) => {
                let n = rest.unicode_len();
                let kind = rest.substring_char(0, pos);
                let slug = rest.substring_char(pos + 1, n);
                proof {
                    reveal_strlit("bosses");
                    reveal_strlit("monsters");
                    reveal_strlit("raids");
                }
                if str_eq(kind, "monsters") {
                    self.find_monster_by_slug(slug)
                } else if str_eq(kind, "bosses") {
                    self.find_boss_by_slug(slug)
                } else if str_eq(kind, "raids") {
                    self.find_raid_by_slug(slug)
                } else {
                    None
                }
            },
            None => None,
        }
    }

    /// The first monster with the slug.
    fn find_monster_by_slug(&'a self, slug: &str) -> (r: Option<CodexGenericMonster<'a>>)
        ensures
            match find_monster(self.monsters.monsters@, slug@) {
                Some(m) => r matches Some(CodexGenericMonster::Monster(x)) && *x == m,
                None => r is None,
            },
    {
        let ghost keys = crate::codex::monster::monster_slugs(self.monsters.monsters@);
        let mut i: usize = 0;
        while i < self.monsters.monsters.len()
            invariant
                keys == crate::codex::monster::monster_slugs(self.monsters.monsters@),
                i <= self.monsters.monsters@.len(),
                first_match(keys, slug@) == first_match_from(keys, slug@, i as int),
            decreases self.monsters.monsters.len() - i,
        {
            if str_eq(self.monsters.monsters[i].slug.as_str(), slug) {
                return Some(CodexGenericMonster::Monster(&self.monsters.monsters[i]));
            }
            i = i + 1;
        }
        None
    }

    /// The first boss with the slug.
    fn find_boss_by_slug(&'a self, slug: &str) -> (r: Option<CodexGenericMonster<'a>>)
        ensures
            match find_boss(self.bosses.bosses@, slug@) {
                Some(m) => r matches Some(CodexGenericMonster::Boss(x)) && *x == m,
                None => r is None,
            },
    {
        let ghost keys = crate::codex::monster::boss_slugs(self.bosses.bosses@);
        let mut i: usize = 0;
        while i < self.bosses.bosses.len()
            invariant
                keys == crate::codex::monster::boss_slugs(self.bosses.bosses@),
                i <= self.bosses.bosses@.len(),
                first_match(keys, slug@) == first_match_from(keys, slug@, i as int),
            decreases self.bosses.bosses.len() - i,
        {
            if str_eq(self.bosses.bosses[i].slug.as_str(), slug) {
                return Some(CodexGenericMonster::Boss(&self.bosses.bosses[i]));
            }
            i = i + 1;
        }
        None
    }

    /// The first raid with the slug.
    fn find_raid_by_slug(&'a self, slug: &str) -> (r: Option<CodexGenericMonster<'a>>)
        ensures
            match find_raid(self.raids.raids@, slug@) {
                Some(m) => r matches Some(CodexGenericMonster::Raid(x)) && *x == m,
                None => r is None,
            },
    {
        let ghost keys = crate::codex::monster::raid_slugs(self.raids.raids@);
        let mut i: usize = 0;
        while i < self.raids.raids.len()
            invariant
                keys == crate::codex::monster::raid_slugs(self.raids.raids@),
                i <= self.raids.raids@.len(),
                first_match(keys, slug@) == first_match_from(keys, slug@, i as int),
            decreases self.raids.raids.len() - i,
        {
            if str_eq(self.raids.raids[i].slug.as_str(), slug) {
                return Some(CodexGenericMonster::Raid(&self.raids.raids[i]));
            }
            i = i + 1;
        }
        None
    }

    /// Find which monster/boss/raid in the codex corresponds to the given admin monster.
    ///
    /// # Errors
    /// Errors if the monster cannot be found.
    pub fn find_generic_codex_monster_from_admin_monster(
        &'a self,
        admin_monster: &AdminMonster,
        guide_spawns: &[Spawn],
    ) -> (r: Result<CodexGenericMonster<'a>, Error>)
        requires
            admin_monster.codex_uri@.len() > 0 ==> bytes_cut_ok(
                admin_monster.codex_uri@,
                admin_uri_cut(admin_monster, guide_spawns@),
            ),
        ensures
            admin_monster.codex_uri@.len() == 0 ==> (r matches Err(e) && is_misc(
                e,
                "Empty codex_uri for admin monster '"@ + admin_monster.name@ + "'"@,
            )),
            admin_monster.codex_uri@.len() > 0 ==> admin_found(
                self,
                admin_monster,
                guide_spawns@,
                r,
            ),
    {
        if admin_monster.codex_uri.unicode_len() == 0 {
            return Err(misc(concat3("Empty codex_uri for admin monster '", admin_monster.name.as_str(), "'")));
        }
        let (kind, n): (&str, usize) = if admin_monster.is_regular_monster() {
            ("monster", 16)
        } else if admin_monster.is_boss(guide_spawns) {
            ("boss", 14)
        } else {
            ("raid", 13)
        };
        let slug = cut_after_bytes(admin_monster.codex_uri.as_str(), n);
        let found = if admin_monster.is_regular_monster() {
            self.find_monster_by_slug(slug)
        } else if admin_monster.is_boss(guide_spawns) {
            self.find_boss_by_slug(slug)
        } else {
            self.find_raid_by_slug(slug)
        };
        match found {
            Some(m) => Ok(m),
            None => {
                let a = concat3("No codex monster match for admin ", kind, " ");
                let b = concat3(a.as_str(), admin_monster.name.as_str(), " (#");
                let id = unsigned_to_string(admin_monster.id as u64);
                Err(misc(concat3(b.as_str(), id.as_str(), ")")))
            },
        }
    }

    /// All monsters / bosses / raids, wrapped in the `CodexGenericMonster` enum: the
    /// monsters, then the bosses, then the raids, each in order.
    pub fn iter_all_monsters(&'a self) -> (r: Vec<CodexGenericMonster<'a>>)
        ensures
            r@.len() == self.monsters.monsters@.len() + self.bosses.bosses@.len()
                + self.raids.raids@.len(),
            forall|i: int|
                0 <= i < self.monsters.monsters@.len() ==> #[trigger] r@[i] == CodexGenericMonster::Monster(&self.monsters.monsters@[i]),
            forall|i: int|
                0 <= i < self.bosses.bosses@.len() ==> #[trigger] r@[self.monsters.monsters@.len() + i] == CodexGenericMonster::Boss(&self.bosses.bosses@[i]),
            forall|i: int|
                0 <= i < self.raids.raids@.len() ==> #[trigger] r@[self.monsters.monsters@.len() + self.bosses.bosses@.len() + i] == CodexGenericMonster::Raid(&self.raids.raids@[i]),
    {
        let mut r: Vec<CodexGenericMonster<'a>> = Vec::new();
        let nm = self.monsters.monsters.len();
        let nb = self.bosses.bosses.len();
        let mut i: usize = 0;
        while i < nm
            invariant
                nm == self.monsters.monsters@.len(),
                i <= nm,
                r@.len() == i,
                forall|k: int|
                    0 <= k < i ==> #[trigger] r@[k] == CodexGenericMonster::Monster(&self.monsters.monsters@[k]),
            decreases nm - i,
        {
            r.push(CodexGenericMonster::Monster(&self.monsters.monsters[i]));
            i = i + 1;
        }
        let mut i: usize = 0;
        while i < nb
            invariant
                nm == self.monsters.monsters@.len(),
                nb == self.bosses.bosses@.len(),
                i <= nb,
                r@.len() == nm + i,
                forall|k: int|
                    0 <= k < nm ==> #[trigger] r@[k] == CodexGenericMonster::Monster(&self.monsters.monsters@[k]),
                forall|k: int|
                    0 <= k < i ==> #[trigger] r@[nm + k] == CodexGenericMonster::Boss(&self.bosses.bosses@[k]),
            decreases nb - i,
        {
            r.push(CodexGenericMonster::Boss(&self.bosses.bosses[i]));
            i = i + 1;
        }
        let mut i: usize = 0;
        while i < self.raids.raids.len()
            invariant
                nm == self.monsters.monsters@.len(),
                nb == self.bosses.bosses@.len(),
                i <= self.raids.raids@.len(),
                r@.len() == nm + nb + i,
                forall|k: int|
                    0 <= k < nm ==> #[trigger] r@[k] == CodexGenericMonster::Monster(&self.monsters.monsters@[k]),
                forall|k: int|
                    0 <= k < nb ==> #[trigger] r@[nm + k] == CodexGenericMonster::Boss(&self.bosses.bosses@[k]),
                forall|k: int|
                    0 <= k < i ==> #[trigger] r@[nm + nb + k] == CodexGenericMonster::Raid(&self.raids.raids@[k]),
            decreases self.raids.raids.len() - i,
        {
            r.push(CodexGenericMonster::Raid(&self.raids.raids[i]));
            i = i + 1;
        }
        r
    }
}

} // verus!
