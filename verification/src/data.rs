//! Aggregates of the data of the codex and of the guide.

use vstd::prelude::*;

pub mod codex_data;
pub mod codex_generic_monster;
pub mod guide_data;

pub use codex_data::CodexData;
pub use codex_generic_monster::CodexGenericMonster;
pub use guide_data::GuideData;

use crate::data::codex_data::{admin_found, admin_uri_cut};
use crate::error::{is_misc, Error};
use crate::lookup::bytes_cut_ok;
use crate::monsters::admin::AdminMonster;

verus! {

/// Aggregate for both the codex and the guide data.
pub struct OrnaData {
    /// Data from the codex.
    pub codex: CodexData,
    /// Data from the guide.
    pub guide: GuideData,
}

impl OrnaData {
    /// Find which monster/boss/raid in the codex corresponds to the given admin monster.
    ///
    /// # Errors
    /// Errors if the monster cannot be found.
    pub fn find_generic_codex_monster_from_admin_monster<'a>(
        &'a self,
        admin_monster: &AdminMonster,
    ) -> (r: Result<CodexGenericMonster<'a>, Error>)
        requires
            admin_monster.codex_uri@.len() > 0 ==> bytes_cut_ok(
                admin_monster.codex_uri@,
                admin_uri_cut(admin_monster, self.guide.static_.spawns@),
            ),
        ensures
            admin_monster.codex_uri@.len() == 0 ==> (r matches Err(e) && is_misc(
                e,
                "Empty codex_uri for admin monster '"@ + admin_monster.name@ + "'"@,
            )),
            admin_monster.codex_uri@.len() > 0 ==> admin_found(
                &self.codex,
                admin_monster,
                self.guide.static_.spawns@,
                r,
            ),
    {
        self.codex.find_generic_codex_monster_from_admin_monster(admin_monster, &self.guide.static_.spawns)
    }
}

} // verus!
