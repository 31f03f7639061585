//! Skills of the codex.

use vstd::prelude::*;
use vstd::utf8::is_ascii_chars;

use crate::codex::item::found_ids;
use crate::error::{is_misc, misc, Error};
use crate::guide::html_utils::Tag;
use crate::guide::Static;
use crate::lookup::{
    first_match, first_match_from, lemma_slug_uri_bytes, lemma_slug_uri_roundtrip, slug_of_uri, slug_uri, uri_ok,
    uri_slug,
};
use crate::misc::{
    codex_effect_name_to_guide_name, codex_names_to_guide_ids, guide_effect_name, names_converted, names_ids_found,
    sanitize_ok,
};
use crate::skills::admin::{empty_skill, is_offhand_named, skill_has_slug, skill_uri_ok, AdminSkill, AdminSkillView};
use crate::text::{
    concat2, concat3, find_char, find_char_from, seq_starts_with, sort_strings, starts_with, str_eq, string_views,
    strs_view, texts_sorted, to_owned,
};

verus! {

/// A status effect caused or given by a skill.
#[derive(Debug)]
pub struct SkillStatusEffect {
    /// The name of the effect.
    pub effect: String,
    /// The chance (0-100) of the effect happening.
    pub chance: i8,
}

/// The guide names of the effects, in order.
pub open spec fn effects_guide_names(effects: Seq<SkillStatusEffect>) -> Seq<Seq<char>> {
    effects.map_values(|e: SkillStatusEffect| guide_effect_name(e.effect@))
}

/// The codex names of the effects, in order.
pub open spec fn skill_effect_names(effects: Seq<SkillStatusEffect>) -> Seq<Seq<char>> {
    effects.map_values(|e: SkillStatusEffect| e.effect@)
}

/// A trait to extend `Vec<SkillStatusEffect>` specifically.
pub trait SkillStatusEffects {
    /// Try to convert `self` to a `Vec<u32>`, with `u32`s being the guide status_effect ids.
    /// Returns `Error::PartialCodexStatusEffectConversion` if all fields have not been
    /// successfully converted.
    fn try_to_guide_ids(&self, static_: &Static) -> Result<Vec<u32>, Error>;

    /// Convert the list of status effects to a list of effect names, matching those of the guide.
    fn to_guide_names(&self) -> Vec<String>;
}

impl SkillStatusEffects for Vec<SkillStatusEffect> {
    fn try_to_guide_ids(&self, static_: &Static) -> (r: Result<Vec<u32>, Error>)
        ensures
            names_converted(r, skill_effect_names(self@), static_.status_effects@),
    {
        let mut names: Vec<&str> = Vec::new();
        let mut i: usize = 0;
        while i < self.len()
            invariant
                i <= self@.len(),
                strs_view(names@) == skill_effect_names(self@.take(i as int)),
            decreases self.len() - i,
        {
            let ghost prev = names@;
            names.push(self[i].effect.as_str());
            assert(skill_effect_names(self@.take(i + 1)) =~= skill_effect_names(self@.take(i as int)).push(
                self@[i as int].effect@,
            ));
            assert(strs_view(names@) =~= strs_view(prev).push(self@[i as int].effect@));
            i = i + 1;
        }
        assert(self@.take(self@.len() as int) =~= self@);
        codex_names_to_guide_ids(&names, &static_.status_effects)
    }

    fn to_guide_names(&self) -> (r: Vec<String>)
        ensures
            texts_sorted(string_views(r@)),
            string_views(r@).to_multiset() == effects_guide_names(self@).to_multiset(),
    {
        let mut names: Vec<String> = Vec::new();
        let mut i: usize = 0;
        while i < self.len()
            invariant
                i <= self@.len(),
                string_views(names@) == effects_guide_names(self@.take(i as int)),
            decreases self.len() - i,
        {
            let ghost prev = names@;
            names.push(to_owned(codex_effect_name_to_guide_name(self[i].effect.as_str())));
            assert(effects_guide_names(self@.take(i + 1)) =~= effects_guide_names(self@.take(i as int)).push(
                guide_effect_name(self@[i as int].effect@),
            ));
            assert(string_views(names@) =~= string_views(prev).push(guide_effect_name(self@[i as int].effect@)));
            i = i + 1;
        }
        assert(self@.take(self@.len() as int) =~= self@);
        sort_strings(names)
    }
}

/// A skill on the codex.
#[derive(Debug)]
pub struct CodexSkill {
    /// The name of the skill.
    pub name: String,
    /// The slug to the skill.
    pub slug: String,
    /// The icon of the skill.
    pub icon: String,
    /// The description of the skill.
    pub description: String,
    /// The tier of the skill.
    pub tier: u8,
    /// Tags attached to the skill.
    pub tags: Vec<Tag>,
    /// The effects the skill causes to the opponent.
    pub causes: Vec<SkillStatusEffect>,
    /// The effects the skill gives to the caster.
    pub gives: Vec<SkillStatusEffect>,
}

/// Whether `tags` holds `tag`.
fn has_tag(tags: &Vec<Tag>, tag: Tag) -> (r: bool)
    ensures
        r == tags@.contains(tag),
{
    let mut i: usize = 0;
    while i < tags.len()
        invariant
            i <= tags@.len(),
            forall|j: int| 0 <= j < i ==> tags@[j] != tag,
        decreases tags.len() - i,
    {
        if tags[i] == tag {
            assert(tags@[i as int] == tag);
            return true;
        }
        i = i + 1;
    }
    false
}

/// The name an admin skill takes from a codex skill: with ` [off-hand]` for an
/// off-hand skill, else with ` [zwei]` when its slug starts with `Zwei`.
pub open spec fn admin_skill_name(s: CodexSkill) -> Seq<char> {
    if s.tags@.contains(Tag::OffHandAbility) {
        s.name@ + " [off-hand]"@
    } else if seq_starts_with(s.slug@, "Zwei"@) {
        s.name@ + " [zwei]"@
    } else {
        s.name@
    }
}

/// The admin skill a codex skill becomes: its uri, name, tier and description (`.`
/// when it has none), whether it is off-hand and bought at an arcanist, and the
/// statuses it causes and gives that the guide knows; everything else as a skill has
/// by default.
pub open spec fn skill_as_admin(s: CodexSkill, st: Static) -> AdminSkillView {
    AdminSkillView {
        codex_uri: "/codex/spells/"@ + s.slug@ + "/"@,
        name: admin_skill_name(s),
        tier: s.tier,
        description: if s.description@.len() == 0 {
            "."@
        } else {
            s.description@
        },
        offhand: s.tags@.contains(Tag::OffHandAbility),
        bought: s.tags@.contains(Tag::FoundInArcanists),
        causes: names_ids_found(skill_effect_names(s.causes@), st.status_effects@),
        gives: names_ids_found(skill_effect_names(s.gives@), st.status_effects@),
        ..empty_skill(Seq::empty())
    }
}

impl CodexSkill {
    /// Return true if the skill is an off-hand skill.
    pub fn is_offhand(&self) -> (r: bool)
        ensures
            r == self.tags@.contains(Tag::OffHandAbility),
    {
        has_tag(&self.tags, Tag::OffHandAbility)
    }

    /// Return true if the skill is bought at the arcanist.
    pub fn bought_at_arcanist(&self) -> (r: bool)
        ensures
            r == self.tags@.contains(Tag::FoundInArcanists),
    {
        has_tag(&self.tags, Tag::FoundInArcanists)
    }

    /// Try to convert `self` to an `AdminSkill`.
    /// Unknown status effects are ignored, rather than returning an error.
    pub fn try_to_admin_skill(&self, static_: &Static) -> (r: Result<AdminSkill, Error>)
        ensures
            r matches Ok(x) && x@ == skill_as_admin(*self, *static_),
    {
        let offhand = self.is_offhand();
        let name = if offhand {
            concat2(self.name.as_str(), " [off-hand]")
        } else if starts_with(self.slug.as_str(), "Zwei") {
            concat2(self.name.as_str(), " [zwei]")
        } else {
            to_owned(self.name.as_str())
        };
        let description = if self.description.unicode_len() > 0 {
            to_owned(self.description.as_str())
        } else {
            to_owned(".")
        };
        let causes = found_ids(
            self.causes.try_to_guide_ids(static_),
            Ghost(skill_effect_names(self.causes@)),
            Ghost(static_.status_effects@),
        );
        let gives = found_ids(
            self.gives.try_to_guide_ids(static_),
            Ghost(skill_effect_names(self.gives@)),
            Ghost(static_.status_effects@),
        );
        Ok(AdminSkill {
            csrfmiddlewaretoken: String::new(),
            id: 0,
            codex_uri: concat3("/codex/spells/", self.slug.as_str(), "/"),
            name,
            tier: self.tier,
            type_: 16,
            is_magic: false,
            mana_cost: 0,
            description,
            element: None,
            offhand,
            cost: 0,
            bought: self.bought_at_arcanist(),
            skill_power: to_owned("1"),
            strikes: 1,
            modifier_min: to_owned("1"),
            modifier_max: to_owned("1"),
            extra: String::new(),
            buffed_by: Vec::new(),
            causes,
            cures: Vec::new(),
            gives,
        })
    }
}

/// A codex skill, converted to an admin skill, keeps its description, or gets `.` when
/// it has none; keeps its name, marked ` [off-hand]` for an off-hand skill, else
/// ` [zwei]` when its slug starts with `Zwei`; is bought at an arcanist when the codex
/// says it is found there; and causes and gives the guide statuses named as its
/// effects.
pub proof fn law_converted_skill_text(s: CodexSkill, st: Static, a: AdminSkill)
    requires
        a@ == skill_as_admin(s, st),
    ensures
        s.description@.len() > 0 ==> a.description@ == s.description@,
        s.description@.len() == 0 ==> a.description@ == "."@,
        s.tags@.contains(Tag::OffHandAbility) ==> a.name@ == s.name@ + " [off-hand]"@ && a.offhand,
        !s.tags@.contains(Tag::OffHandAbility) ==> !a.offhand,
        !s.tags@.contains(Tag::OffHandAbility) && seq_starts_with(s.slug@, "Zwei"@) ==> a.name@ == s.name@
            + " [zwei]"@,
        !s.tags@.contains(Tag::OffHandAbility) && !seq_starts_with(s.slug@, "Zwei"@) ==> a.name@ == s.name@,
        a.bought == s.tags@.contains(Tag::FoundInArcanists),
        a.causes@ == names_ids_found(skill_effect_names(s.causes@), st.status_effects@),
        a.gives@ == names_ids_found(skill_effect_names(s.gives@), st.status_effects@),
        a.cures@.len() == 0 && a.buffed_by@.len() == 0,
        a.codex_uri@ == "/codex/spells/"@ + s.slug@ + "/"@,
        a.tier == s.tier,
{
}

/// The admin skill a codex skill becomes leads back to it: looking its codex uri up
/// among codex skills does not panic, and finds the first skill with its slug.
pub proof fn law_converted_skill_leads_back(s: CodexSkill, st: Static, a: AdminSkill, skills: Seq<CodexSkill>)
    requires
        a@ == skill_as_admin(s, st),
    ensures
        uri_ok(a.codex_uri@, skill_uri_prefix()),
        find_skill_by_uri(skills, a.codex_uri@) == find_skill(skills, s.slug@),
{
    reveal_strlit("/");
    lemma_slug_uri_roundtrip(skill_uri_prefix(), s.slug@);
    assert(a.codex_uri@ =~= slug_uri(skill_uri_prefix(), s.slug@));
}

/// The admin skill a codex skill becomes is found among admin skills by the skill's
/// slug (for a slug that does not end with `/`): cutting the prefix out of its codex
/// uri does not panic and gives the slug back.
pub proof fn law_converted_skill_found(s: CodexSkill, st: Static, a: AdminSkill)
    requires
        a@ == skill_as_admin(s, st),
        s.slug@.len() == 0 || s.slug@.last() != '/',
    ensures
        skill_uri_ok(a),
        skill_has_slug(a, s.slug@),
{
    reveal_strlit("/codex/spells/");
    reveal_strlit("/");
    let prefix = "/codex/spells/"@;
    assert(is_ascii_chars(prefix));
    lemma_slug_uri_bytes(prefix, s.slug@);
    assert(a.codex_uri@ =~= slug_uri(prefix, s.slug@));
}

/// The first `[` of a text without one, followed by ` [`, is the one after the space.
proof fn lemma_find_note(name: Seq<char>, note: Seq<char>, i: int)
    requires
        0 <= i <= name.len(),
        !name.contains('['),
        note.len() >= 2,
        note[0] == ' ',
        note[1] == '[',
    ensures
        find_char_from(name + note, '[', i) == Some::<int>(name.len() + 1 as int),
    decreases name.len() + 1 - i,
{
    let t = name + note;
    if i < name.len() {
        assert(t[i] == name[i]);
        assert(name[i] != '[');
        lemma_find_note(name, note, i + 1);
    } else {
        assert(t[i] == ' ');
        assert(t[i + 1] == '[');
        assert(find_char_from(t, '[', i + 1) == Some::<int>(i + 1));
    }
}

/// An off-hand codex skill, once converted to an admin skill, is the admin off-hand
/// skill found by the codex name (for a name without `[`): cutting the note out of
/// the admin name does not panic and gives the codex name back.
pub proof fn law_converted_offhand_skill_named(s: CodexSkill, st: Static, a: AdminSkill)
    requires
        a@ == skill_as_admin(s, st),
        s.tags@.contains(Tag::OffHandAbility),
        !s.name@.contains('['),
    ensures
        sanitize_ok(a.name@),
        is_offhand_named(a, s.name@),
{
    reveal_strlit(" [off-hand]");
    let note = " [off-hand]"@;
    assert(note[0] == ' ' && note[1] == '[');
    lemma_find_note(s.name@, note, 0);
    let n = a.name@;
    assert(n == s.name@ + note);
    assert(find_char(n, '[') == Some::<int>(s.name@.len() + 1 as int));
    assert(n[s.name@.len() as int] == ' ');
    assert(n.subrange(0, s.name@.len() as int) =~= s.name@);
}

/// Collection of skills from the codex.
pub struct CodexSkills {
    /// Skills from the codex.
    pub skills: Vec<CodexSkill>,
}

/// The prefix of the codex uri of a skill.
pub open spec fn skill_uri_prefix() -> Seq<char> {
    "/codex/spells/"@
}

/// The slugs of `v`, in order.
pub open spec fn skill_slugs(v: Seq<CodexSkill>) -> Seq<Seq<char>> {
    v.map_values(|x: CodexSkill| x.slug@)
}

/// The skill of `v` that a slug finds: the first one with that slug.
pub open spec fn find_skill(v: Seq<CodexSkill>, slug: Seq<char>) -> Option<CodexSkill> {
    match first_match(skill_slugs(v), slug) {
        Some(i) => Some(v[i]),
        None => None,
    }
}

/// The skill of `v` that a uri finds.
pub open spec fn find_skill_by_uri(v: Seq<CodexSkill>, uri: Seq<char>) -> Option<CodexSkill> {
    match uri_slug(uri, skill_uri_prefix()) {
        Some(slug) => find_skill(v, slug),
        None => None,
    }
}

impl<'a> CodexSkills {
    /// Find the codex skill associated with the given uri.
    pub fn find_by_uri(&'a self, needle: &str) -> (r: Option<&'a CodexSkill>)
        requires
            uri_ok(needle@, skill_uri_prefix()),
        ensures
            r matches Some(x) ==> find_skill_by_uri(self.skills@, needle@) == Some(*x),
            r is None ==> find_skill_by_uri(self.skills@, needle@) is None,
    {
        let slug = match slug_of_uri(needle, "/codex/spells/") {
            Some(slug) => slug,
            None => {
                return None;
            },
        };
        let ghost keys = skill_slugs(self.skills@);
        let mut i: usize = 0;
        while i < self.skills.len()
            invariant
                keys == skill_slugs(self.skills@),
                uri_slug(needle@, skill_uri_prefix()) == Some(slug@),
                i <= self.skills@.len(),
                first_match(keys, slug@) == first_match_from(keys, slug@, i as int),
            decreases self.skills.len() - i,
        {
            if str_eq(self.skills[i].slug.as_str(), slug) {
                return Some(&self.skills[i]);
            }
            i = i + 1;
        }
        None
    }

    /// Find the codex skill associated with the given uri.
    /// If there is no match, return an `Err`.
    pub fn get_by_uri(&'a self, needle: &str) -> (r: Result<&'a CodexSkill, Error>)
        requires
            uri_ok(needle@, skill_uri_prefix()),
        ensures
            r matches Ok(x) ==> find_skill_by_uri(self.skills@, needle@) == Some(*x),
            r matches Err(e) ==> find_skill_by_uri(self.skills@, needle@) is None && is_misc(
                e,
                "No match for codex skill with uri '"@ + needle@ + "'"@,
            ),
    {
        match self.find_by_uri(needle) {
            Some(x) => Ok(x),
            None => Err(misc(concat3("No match for codex skill with uri '", needle, "'"))),
        }
    }
}

} // verus!
