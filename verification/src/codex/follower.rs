//! Followers of the codex.

use vstd::prelude::*;

use vstd::utf8::is_ascii_chars;

use crate::data::guide_data::skill_uri_ids;
use crate::data::GuideData;
use crate::error::{is_misc, misc, Error};
use crate::pets::admin::{pet_has_slug, pet_uri_ok, AdminPet, AdminPetView, CostType};
use crate::lookup::{
    first_match, first_match_from, lemma_slug_uri_bytes, lemma_slug_uri_roundtrip, slug_of_uri, slug_uri, uri_ok,
    uri_slug,
};
use crate::text::{concat3, join, spec_join, str_eq, string_views, to_owned};

verus! {

/// An ability for a follower.
#[derive(Debug, Clone, Eq, PartialEq)]
pub struct Ability {
    /// The name of the ability.
    pub name: String,
    /// The uri to the ability.
    pub uri: String,
    /// The icon of the ability.
    pub icon: String,
}

/// A follower on the codex.
#[derive(Debug, Clone, Eq, PartialEq)]
pub struct Follower {
    /// The name of the follower.
    pub name: String,
    /// The slug of the follower (`https://playorna.com/codex/followers/{slug}`).
    pub slug: String,
    /// The icon of the follower.
    pub icon: String,
    /// The description of the follower.
    pub description: String,
    /// The events in which the follower appears.
    pub events: Vec<String>,
    /// The rarity of the follower.
    pub rarity: String,
    /// The tier of the follower.
    pub tier: u8,
    /// The abilities of the follower.
    pub abilities: Vec<Ability>,
}

/// Collection of followers from the codex.
#[derive(Clone, Default, Eq, PartialEq)]
pub struct Followers {
    /// Followers from the codex.
    pub followers: Vec<Follower>,
}

/// The codex uris of `abilities`, in order.
pub open spec fn follower_ability_uris(abilities: Seq<Ability>) -> Seq<Seq<char>> {
    abilities.map_values(|a: Ability| a.uri@)
}

/// The admin pet a codex follower becomes: a description of `.` stands for an
/// empty one, followers of tier 8 and up cost orns, and followers of events are
/// limited to them.
pub open spec fn follower_as_admin(f: Follower, g: GuideData) -> AdminPetView {
    AdminPetView {
        csrfmiddlewaretoken: Seq::empty(),
        id: 0,
        codex_uri: "/codex/followers/"@ + f.slug@ + "/"@,
        name: f.name@,
        tier: f.tier,
        image_name: f.icon@,
        description: if f.description@.len() == 0 {
            "."@
        } else {
            f.description@
        },
        attack: 0,
        heal: 0,
        buff: 0,
        debuff: 0,
        spell: 0,
        protect: 0,
        cost: 0,
        cost_type: if f.tier >= 8 {
            CostType::Orn
        } else {
            CostType::Gold
        },
        limited: f.events@.len() > 0,
        limited_details: spec_join(string_views(f.events@), ", "@),
        skills: skill_uri_ids(follower_ability_uris(f.abilities@), g.skills.skills@),
    }
}

/// A codex follower, once converted to an admin pet, is the pet that the lookup of
/// pets by slug finds for it: cutting the prefix out of the pet's codex uri does not
/// panic, and gives the follower's slug back (for a slug that does not end with `/`).
pub proof fn law_converted_follower_found(f: Follower, g: GuideData, p: AdminPet)
    requires
        p@ == follower_as_admin(f, g),
        f.slug@.len() == 0 || f.slug@.last() != '/',
    ensures
        pet_uri_ok(p.codex_uri@),
        pet_has_slug(p, f.slug@),
{
    reveal_strlit("/codex/followers/");
    reveal_strlit("/");
    let prefix = "/codex/followers/"@;
    assert(is_ascii_chars(prefix));
    lemma_slug_uri_bytes(prefix, f.slug@);
    assert(p.codex_uri@ =~= slug_uri(prefix, f.slug@));
    assert(p.codex_uri@.len() > 0);
}

impl Follower {
    /// Try to convert `self` to an `AdminPet`.
    ///
    ///  - Unknown skills are ignored, rather than returning an error.
    pub fn to_admin_pet(&self, guide_data: &GuideData) -> (r: AdminPet)
        ensures
            r@ == follower_as_admin(*self, *guide_data),
    {
        let mut uris: Vec<&str> = Vec::new();
        let mut i: usize = 0;
        while i < self.abilities.len()
            invariant
                i <= self.abilities@.len(),
                uris@.map_values(|u: &str| u@) == follower_ability_uris(self.abilities@.take(i as int)),
            decreases self.abilities.len() - i,
        {
            proof {
                assert(follower_ability_uris(self.abilities@.take(i + 1)) =~= follower_ability_uris(
                    self.abilities@.take(i as int),
                ).push(self.abilities@[i as int].uri@));
            }
            uris.push(self.abilities[i].uri.as_str());
            assert(uris@.map_values(|u: &str| u@) =~= follower_ability_uris(
                self.abilities@.take(i + 1),
            ));
            i = i + 1;
        }
        assert(self.abilities@.take(self.abilities@.len() as int) =~= self.abilities@);
        AdminPet {
            csrfmiddlewaretoken: String::new(),
            id: 0,
            codex_uri: concat3("/codex/followers/", self.slug.as_str(), "/"),
            name: to_owned(self.name.as_str()),
            tier: self.tier,
            image_name: to_owned(self.icon.as_str()),
            description: if self.description.unicode_len() == 0 {
                to_owned(".")
            } else {
                to_owned(self.description.as_str())
            },
            attack: 0,
            heal: 0,
            buff: 0,
            debuff: 0,
            spell: 0,
            protect: 0,
            cost: 0,
            cost_type: if self.tier >= 8 {
                CostType::Orn
            } else {
                CostType::Gold
            },
            limited: self.events.len() > 0,
            limited_details: join(&self.events, ", "),
            skills: guide_data.skill_uri_ids(&uris),
        }
    }
}

/// The prefix of the codex uri of a follower.
pub open spec fn follower_uri_prefix() -> Seq<char> {
    "/codex/followers/"@
}

/// The slugs of `v`, in order.
pub open spec fn follower_slugs(v: Seq<Follower>) -> Seq<Seq<char>> {
    v.map_values(|x: Follower| x.slug@)
}

/// The follower of `v` that a slug finds: the first one with that slug.
pub open spec fn find_follower(v: Seq<Follower>, slug: Seq<char>) -> Option<Follower> {
    match first_match(follower_slugs(v), slug) {
        Some(i) => Some(v[i]),
        None => None,
    }
}

/// The follower of `v` that a uri finds.
pub open spec fn find_follower_by_uri(v: Seq<Follower>, uri: Seq<char>) -> Option<Follower> {
    match uri_slug(uri, follower_uri_prefix()) {
        Some(slug) => find_follower(v, slug),
        None => None,
    }
}

/// A codex follower, converted to an admin pet, keeps its name, tier and icon, its
/// description (`.` when it has none); costs orns from tier 8 on and gold below; is
/// limited exactly when it appears in events, whose names, joined by `, `, are its
/// details; and knows the guide skills of its abilities.
pub proof fn law_converted_follower_fields(f: Follower, g: GuideData, p: AdminPet)
    requires
        p@ == follower_as_admin(f, g),
    ensures
        p.name@ == f.name@,
        p.tier == f.tier,
        p.image_name@ == f.icon@,
        f.description@.len() > 0 ==> p.description@ == f.description@,
        f.description@.len() == 0 ==> p.description@ == "."@,
        f.tier >= 8 ==> p.cost_type == CostType::Orn,
        f.tier < 8 ==> p.cost_type == CostType::Gold,
        p.limited == (f.events@.len() > 0),
        p.limited_details@ == spec_join(string_views(f.events@), ", "@),
        p.skills@ == skill_uri_ids(follower_ability_uris(f.abilities@), g.skills.skills@),
        p.codex_uri@ == "/codex/followers/"@ + f.slug@ + "/"@,
{
}

/// The admin pet a codex follower becomes leads back to that follower: looking its
/// codex uri up among followers does not panic, and finds the first follower with
/// the follower's slug.
pub proof fn law_converted_follower_leads_back(f: Follower, g: GuideData, p: AdminPet, followers: Seq<Follower>)
    requires
        p@ == follower_as_admin(f, g),
    ensures
        uri_ok(p.codex_uri@, follower_uri_prefix()),
        find_follower_by_uri(followers, p.codex_uri@) == find_follower(followers, f.slug@),
{
    reveal_strlit("/");
    lemma_slug_uri_roundtrip(follower_uri_prefix(), f.slug@);
    assert(p.codex_uri@ =~= slug_uri(follower_uri_prefix(), f.slug@));
}

impl<'a> Followers {
    /// Find the codex follower associated with the given uri.
    pub fn find_by_uri(&'a self, needle: &str) -> (r: Option<&'a Follower>)
        requires
            uri_ok(needle@, follower_uri_prefix()),
        ensures
            r matches Some(x) ==> find_follower_by_uri(self.followers@, needle@) == Some(*x),
            r is None ==> find_follower_by_uri(self.followers@, needle@) is None,
    {
        let slug = match slug_of_uri(needle, "/codex/followers/") {
            Some(slug) => slug,
            None => {
                return None;
            },
        };
        let ghost keys = follower_slugs(self.followers@);
        let mut i: usize = 0;
        while i < self.followers.len()
            invariant
                keys == follower_slugs(self.followers@),
                uri_slug(needle@, follower_uri_prefix()) == Some(slug@),
                i <= self.followers@.len(),
                first_match(keys, slug@) == first_match_from(keys, slug@, i as int),
            decreases self.followers.len() - i,
        {
            if str_eq(self.followers[i].slug.as_str(), slug) {
                return Some(&self.followers[i]);
            }
            i = i + 1;
        }
        None
    }

    /// Find the codex follower associated with the given uri.
    /// If there is no match, return an `Err`.
    pub fn get_by_uri(&'a self, needle: &str) -> (r: Result<&'a Follower, Error>)
        requires
            uri_ok(needle@, follower_uri_prefix()),
        ensures
            r matches Ok(x) ==> find_follower_by_uri(self.followers@, needle@) == Some(*x),
            r matches Err(e) ==> find_follower_by_uri(self.followers@, needle@) is None && is_misc(
                e,
                "No match for follower with uri '"@ + needle@ + "'"@,
            ),
    {
        match self.find_by_uri(needle) {
            Some(x) => Ok(x),
            None => Err(misc(concat3("No match for follower with uri '", needle, "'"))),
        }
    }
}

} // verus!
