//! Entities of the public codex on `playorna.com`.

use vstd::prelude::*;
use vstd::string::*;
use vstd::utf8::*;

pub mod affix;
pub mod follower;
pub mod html_follower_parser;
pub mod html_item_lists;
pub mod html_item_parser;
pub mod html_skill_parser;
pub mod html_list_parser;
pub mod item;
pub mod item_html;
pub mod item_page;
pub mod page_html;
pub mod monster;
pub mod skill;
pub mod translation;

pub use affix::Affix as CodexAffix;
pub use follower::{
    Ability as FollowerAbility, Follower as CodexFollower, Followers as CodexFollowers,
};
pub use item::{
    Ability as ItemAbility, DroppedBy as ItemDroppedBy, Element as CodexElement, Item as CodexItem,
    Items as CodexItems, Stats as ItemStats, UpgradeMaterial as ItemUpgradeMaterial,
};
pub use monster::{
    Ability as MonsterAbility, Boss as CodexBoss, Bosses as CodexBosses, Drop as MonsterDrop,
    Monster as CodexMonster, Monsters as CodexMonsters, Raid as CodexRaid, Raids as CodexRaids,
    Tag,
};
pub use skill::{CodexSkill, CodexSkills, SkillStatusEffect};

verus! {

/// A skill listed on the codex.
#[derive(Debug)]
pub struct SkillEntry {
    pub name: String,
    pub tier: u32,
    pub uri: String,
}

/// A monster listed on the codex.
#[derive(Debug)]
pub struct MonsterEntry {
    pub name: String,
    pub family: String,
    pub tier: u32,
    pub uri: String,
}

/// A boss listed on the codex.
#[derive(Debug)]
pub struct BossEntry {
    pub name: String,
    pub family: String,
    pub tier: u32,
    pub uri: String,
}

/// A raid listed on the codex.
#[derive(Debug)]
pub struct RaidEntry {
    pub name: String,
    pub tier: u32,
    pub uri: String,
}

/// An item listed on the codex.
#[derive(Debug)]
pub struct ItemEntry {
    pub name: String,
    pub tier: u32,
    pub uri: String,
}

/// A follower listed on the codex.
#[derive(Debug)]
pub struct FollowerEntry {
    pub name: String,
    pub tier: u32,
    pub uri: String,
}

/// The bytes of the UTF-8 encoding of `s`.
pub open spec fn utf8(s: Seq<char>) -> Seq<u8> {
    encode_utf8(s)
}

/// Cutting `uri` at byte `p` and before its last byte falls on character
/// boundaries and leaves the piece in between well-formed (`p` is at most the
/// index of the last byte).
pub open spec fn slug_cut_ok(uri: Seq<char>, p: int) -> bool {
    let b = utf8(uri);
    &&& 0 < b.len()
    &&& p <= b.len() - 1
    &&& is_char_boundary(b, p)
    &&& is_char_boundary(b, b.len() - 1)
}

/// The bytes of `uri` between byte `p` and its last byte (excluded).
pub open spec fn slug_cut(uri: Seq<char>, p: int) -> Seq<u8> {
    utf8(uri).subrange(p, utf8(uri).len() - 1)
}

/// The part of `s` between byte `p` and its last byte.
fn cut_slug<'a>(s: &'a str, p: usize) -> (r: &'a str)
    requires
        slug_cut_ok(s@, p as int),
    ensures
        r.spec_bytes() == slug_cut(s@, p as int),
{
    broadcast use vstd::utf8::encode_utf8_valid_utf8, vstd::slice::axiom_spec_len;

    let (_, rest) = s.split_at(p);
    let n = rest.as_bytes().len();
    proof {
        let b = utf8(s@);
        let rb = rest.spec_bytes();
        assert(rb =~= b.subrange(p as int, b.len() as int));
        let k = (b.len() - 1) as int;
        is_char_boundary_iff_not_is_continuation_byte(b, k);
        is_char_boundary_iff_not_is_continuation_byte(rb, k - p);
        assert(rb[k - p] == b[k]);
        assert(n == rb.len());
    }
    let (mid, _) = rest.split_at(n - 1);
    assert(mid.spec_bytes() =~= slug_cut(s@, p as int));
    mid
}

/// A trait to implement for things we can get a slug from.
pub trait Sluggable {
    /// The byte length of the part of the uri that comes before the slug.
    spec fn slug_start(&self) -> int;

    /// The uri the slug is taken from.
    spec fn slug_uri(&self) -> Seq<char>;

    /// Return the slug that corresponds to the entity: the uri without its
    /// leading `/codex/{kind}/` and its trailing `/`.
    fn slug(&self) -> (r: &str)
        requires
            slug_cut_ok(self.slug_uri(), self.slug_start()),
        ensures
            r.spec_bytes() == slug_cut(self.slug_uri(), self.slug_start()),
    ;
}

impl Sluggable for SkillEntry {
    open spec fn slug_start(&self) -> int {
        14
    }

    open spec fn slug_uri(&self) -> Seq<char> {
        self.uri@
    }

    /// The uri without its leading `/codex/spells/` and trailing `/`.
    fn slug(&self) -> (r: &str) {
        cut_slug(self.uri.as_str(), 14)
    }
}

impl Sluggable for MonsterEntry {
    open spec fn slug_start(&self) -> int {
        16
    }

    open spec fn slug_uri(&self) -> Seq<char> {
        self.uri@
    }

    /// The uri without its leading `/codex/monsters/` and trailing `/`.
    fn slug(&self) -> (r: &str) {
        cut_slug(self.uri.as_str(), 16)
    }
}

impl Sluggable for BossEntry {
    open spec fn slug_start(&self) -> int {
        14
    }

    open spec fn slug_uri(&self) -> Seq<char> {
        self.uri@
    }

    /// The uri without its leading `/codex/bosses/` and trailing `/`.
    fn slug(&self) -> (r: &str) {
        cut_slug(self.uri.as_str(), 14)
    }
}

impl Sluggable for RaidEntry {
    open spec fn slug_start(&self) -> int {
        13
    }

    open spec fn slug_uri(&self) -> Seq<char> {
        self.uri@
    }

    /// The uri without its leading `/codex/raids/` and trailing `/`.
    fn slug(&self) -> (r: &str) {
        cut_slug(self.uri.as_str(), 13)
    }
}

impl Sluggable for ItemEntry {
    open spec fn slug_start(&self) -> int {
        13
    }

    open spec fn slug_uri(&self) -> Seq<char> {
        self.uri@
    }

    /// The uri without its leading `/codex/items/` and trailing `/`.
    fn slug(&self) -> (r: &str) {
        cut_slug(self.uri.as_str(), 13)
    }
}

impl Sluggable for FollowerEntry {
    open spec fn slug_start(&self) -> int {
        17
    }

    open spec fn slug_uri(&self) -> Seq<char> {
        self.uri@
    }

    /// The uri without its leading `/codex/followers/` and trailing `/`.
    fn slug(&self) -> (r: &str) {
        cut_slug(self.uri.as_str(), 17)
    }
}

} // verus!
