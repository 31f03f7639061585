//! The pages of skills on the codex.

use vstd::prelude::*;

pub use crate::codex::html_follower_parser::parse_tier;
use crate::codex::html_item_lists::{icon_of, img_ok, spec_icon, ImgNode};
use crate::codex::html_item_parser::spec_parse_tier_of;
use crate::codex::item_page::kind_fails;
use crate::codex::skill::{CodexSkill, SkillStatusEffect};
use crate::guide::html_utils::{parse_tags, spec_parse_tags, Tag};
use crate::text::string_views;
use crate::error::{fails_with, html_error, Error, Failure};
use crate::guide::html_utils::{parse_name_and_chance, spec_name_and_chance};
use crate::text::{spec_trim, str_eq, to_owned, trim};

pub use crate::codex::page_html::{
    parse_html_codex_skill, parse_html_codex_skill_translation, try_parse_html_codex_skill,
    try_parse_html_codex_skill_translation,
};

verus! {

/// The effects the `div`s of a status effect section give: each `div`'s `span` text
/// read as `<name> (<chance>%)`, or why the first that fails does not give one.
pub open spec fn spec_status_effects(divs: Seq<Option<String>>) -> Result<Seq<(Seq<char>, int)>, Failure>
    decreases divs.len(),
{
    if divs.len() == 0 {
        Ok(Seq::empty())
    } else {
        match spec_status_effects(divs.drop_last()) {
            Err(f) => Err(f),
            Ok(prev) => match divs.last() {
                None => Err(Failure::Html("Failed to find \"span\" in skill status effect"@)),
                Some(t) => match spec_name_and_chance(t@, "status effect"@) {
                    Err(f) => Err(f),
                    Ok(e) => Ok(prev.push(e)),
                },
            },
        }
    }
}

/// The name and chance of each effect.
pub open spec fn effects_view(v: Seq<SkillStatusEffect>) -> Seq<(Seq<char>, int)> {
    v.map_values(|e: SkillStatusEffect| (e.effect@, e.chance as int))
}

/// Once a `div` fails, the section fails the same way.
proof fn lemma_effects_err_sticks(divs: Seq<Option<String>>, k: int, n: int)
    requires
        0 < k <= n <= divs.len(),
        spec_status_effects(divs.take(k)) is Err,
    ensures
        spec_status_effects(divs.take(n)) == spec_status_effects(divs.take(k)),
    decreases n - k,
{
    if k < n {
        lemma_effects_err_sticks(divs, k, n - 1);
        assert(divs.take(n).drop_last() =~= divs.take(n - 1));
    }
}

/// Parse a status effect section: the `span` text of each of its `div`s, `None` for a
/// `div` without a `span`.
pub fn parse_status_effects(divs: &Vec<Option<String>>) -> (r: Result<Vec<SkillStatusEffect>, Error>)
    ensures
        match r {
            Ok(v) => spec_status_effects(divs@) == Ok::<Seq<(Seq<char>, int)>, Failure>(effects_view(v@)),
            Err(e) => fails_with(e, spec_status_effects(divs@)),
        },
{
    let mut effects: Vec<SkillStatusEffect> = Vec::new();
    assert(effects_view(effects@) =~= Seq::empty());
    assert(divs@.take(0) =~= Seq::empty());
    let mut i: usize = 0;
    while i < divs.len()
        invariant
            i <= divs@.len(),
            spec_status_effects(divs@.take(i as int)) == Ok::<Seq<(Seq<char>, int)>, Failure>(
                effects_view(effects@),
            ),
        decreases divs.len() - i,
    {
        proof {
            assert(divs@.take(i + 1).drop_last() =~= divs@.take(i as int));
            assert(divs@.take(i + 1).last() == divs@[i as int]);
        }
        match &divs[i] {
            None => {
                proof {
                    lemma_effects_err_sticks(divs@, i + 1, divs@.len() as int);
                    assert(divs@.take(divs@.len() as int) =~= divs@);
                }
                return Err(html_error(to_owned("Failed to find \"span\" in skill status effect")));
            },
            Some(t) => match parse_name_and_chance(t.as_str(), "status effect") {
                Err(e) => {
                    proof {
                        lemma_effects_err_sticks(divs@, i + 1, divs@.len() as int);
                        assert(divs@.take(divs@.len() as int) =~= divs@);
                    }
                    return Err(e);
                },
                Ok((name, chance)) => {
                    let ghost prev = effects@;
                    effects.push(SkillStatusEffect { effect: to_owned(name), chance });
                    assert(effects_view(effects@) =~= effects_view(prev).push((name@, chance as int)));
                },
            },
        }
        i = i + 1;
    }
    assert(divs@.take(divs@.len() as int) =~= divs@);
    Ok(effects)
}

/// An `h4` heading of a skill's page and the `span` texts of the `div`s that follow it.
#[derive(Debug, Clone)]
pub struct SkillSectionNode {
    /// The text of the heading.
    pub heading: String,
    /// The `span` text of each `div` after the heading, `None` for a `div` without one.
    pub divs: Vec<Option<String>>,
}

/// A skill page of the codex, as read from its HTML.
#[derive(Debug)]
pub struct SkillPage {
    /// The text of the page's `.herotext`, trimmed.
    pub name: String,
    /// The image of the page's `.codex-page-icon`.
    pub icon: ImgNode,
    /// The text of the page's `.codex-page-description`, trimmed.
    pub description: String,
    /// The text of the page's first `.codex-page-meta`, trimmed.
    pub tier_text: String,
    /// The texts of the page's `.codex-page-tag` nodes, in order.
    pub tags: Vec<String>,
    /// The `h4` headings of the page, in order.
    pub sections: Vec<SkillSectionNode>,
}

/// The effects a skill causes and gives, as its sections list them (each section
/// replaces the list of its kind; summons are not kept), or why the first that fails
/// does not give them.
pub open spec fn skill_sections(sections: Seq<SkillSectionNode>) -> Result<
    (Seq<(Seq<char>, int)>, Seq<(Seq<char>, int)>),
    Failure,
>
    decreases sections.len(),
{
    if sections.len() == 0 {
        Ok((Seq::empty(), Seq::empty()))
    } else {
        match skill_sections(sections.drop_last()) {
            Err(f) => Err(f),
            Ok((causes, gives)) => {
                let h = spec_trim(sections.last().heading@);
                if h == "Causes:"@ {
                    match spec_status_effects(sections.last().divs@) {
                        Ok(c) => Ok((c, gives)),
                        Err(f) => Err(f),
                    }
                } else if h == "Gives:"@ {
                    match spec_status_effects(sections.last().divs@) {
                        Ok(g) => Ok((causes, g)),
                        Err(f) => Err(f),
                    }
                } else {
                    Ok((causes, gives))
                }
            },
        }
    }
}

/// A skill page with one section lists the effects of that section as the effects the
/// skill causes when the section is headed `Causes:`, as those it gives when headed
/// `Gives:`, and lists none when headed `Summons:`.
pub proof fn law_skill_section_kinds(sec: SkillSectionNode, effects: Seq<(Seq<char>, int)>)
    requires
        spec_status_effects(sec.divs@) == Ok::<Seq<(Seq<char>, int)>, Failure>(effects),
    ensures
        spec_trim(sec.heading@) == "Causes:"@ ==> skill_sections(seq![sec]) == Ok::<
            (Seq<(Seq<char>, int)>, Seq<(Seq<char>, int)>),
            Failure,
        >((effects, Seq::empty())),
        spec_trim(sec.heading@) == "Gives:"@ ==> skill_sections(seq![sec]) == Ok::<
            (Seq<(Seq<char>, int)>, Seq<(Seq<char>, int)>),
            Failure,
        >((Seq::empty(), effects)),
        spec_trim(sec.heading@) == "Summons:"@ ==> skill_sections(seq![sec]) == Ok::<
            (Seq<(Seq<char>, int)>, Seq<(Seq<char>, int)>),
            Failure,
        >((Seq::empty(), Seq::empty())),
{
    reveal_strlit("Causes:");
    reveal_strlit("Gives:");
    reveal_strlit("Summons:");
    let s = seq![sec];
    assert(s.drop_last() =~= Seq::<SkillSectionNode>::empty());
    assert(s.last() == sec);
    assert(skill_sections(Seq::<SkillSectionNode>::empty()) == Ok::<
        (Seq<(Seq<char>, int)>, Seq<(Seq<char>, int)>),
        Failure,
    >((Seq::empty(), Seq::empty())));
    assert("Causes:"@[0] != "Gives:"@[0]);
    assert("Summons:"@[0] != "Gives:"@[0]);
    assert("Summons:"@[0] != "Causes:"@[0]);
}

/// Reading the skill page does not panic: its headings are `Causes:`, `Gives:` or
/// `Summons:`, and its icon is an absolute URL.
pub open spec fn skill_page_ok(page: SkillPage) -> bool {
    &&& forall|i: int|
        0 <= i < page.sections@.len() ==> {
            let h = spec_trim(#[trigger] page.sections@[i].heading@);
            h == "Causes:"@ || h == "Gives:"@ || h == "Summons:"@
        }
    &&& img_ok(page.icon)
}

/// What a skill page holds, read: the tags, the effects, the icon and the tier, in
/// that order; or the failure of the first part that fails.
pub open spec fn spec_skill_page(page: SkillPage) -> Result<
    (Seq<Tag>, (Seq<(Seq<char>, int)>, Seq<(Seq<char>, int)>), Seq<char>, int),
    Failure,
> {
    match spec_parse_tags(string_views(page.tags@)) {
        Err(m) => Err(Failure::Html(m)),
        Ok(tags) => match skill_sections(page.sections@) {
            Err(f) => Err(f),
            Ok(effects) => match spec_icon(
                page.icon,
                "Failed to find \"img\" in icon-node"@,
                "Failed to find src in img icon node"@,
            ) {
                Err(f) => Err(f),
                Ok(icon) => match spec_parse_tier_of("skill"@, spec_trim(page.tier_text@)) {
                    Err(f) => Err(f),
                    Ok(tier) => Ok((tags, effects, icon, tier)),
                },
            },
        },
    }
}

/// Once a section fails, the sections that follow do not change the failure.
proof fn lemma_skill_sections_err_sticks(sections: Seq<SkillSectionNode>, k: int, n: int)
    requires
        0 < k <= n <= sections.len(),
        skill_sections(sections.take(k)) is Err,
    ensures
        skill_sections(sections.take(n)) == skill_sections(sections.take(k)),
    decreases n - k,
{
    if k < n {
        lemma_skill_sections_err_sticks(sections, k, n - 1);
        assert(sections.take(n).drop_last() =~= sections.take(n - 1));
    }
}

/// Parses a skill page from `playorna.com` and returns the details about the given skill.
pub fn parse_codex_skill(page: &SkillPage, slug: String) -> (r: Result<CodexSkill, Error>)
    requires
        skill_page_ok(*page),
    ensures
        match spec_skill_page(*page) {
            Ok((tags, (causes, gives), icon, tier)) => r matches Ok(s) && s.name@ == page.name@
                && s.slug@ == slug@ && s.icon@ == icon && s.description@ == page.description@
                && s.tier == tier && s.tags@ == tags && effects_view(s.causes@) == causes
                && effects_view(s.gives@) == gives,
            Err(fail) => r matches Err(e) && kind_fails(e.kind, fail) && e.context@.len() == 0,
        },
{
    let tags = match parse_tags(&page.tags) {
        Ok(t) => t,
        Err(e) => {
            return Err(e);
        },
    };
    let mut causes: Vec<SkillStatusEffect> = Vec::new();
    let mut gives: Vec<SkillStatusEffect> = Vec::new();
    assert(effects_view(causes@) =~= Seq::empty());
    assert(effects_view(gives@) =~= Seq::empty());
    assert(page.sections@.take(0) =~= Seq::empty());
    let mut i: usize = 0;
    while i < page.sections.len()
        invariant
            i <= page.sections@.len(),
            skill_page_ok(*page),
            spec_parse_tags(string_views(page.tags@)) is Ok,
            skill_sections(page.sections@.take(i as int)) == Ok::<
                (Seq<(Seq<char>, int)>, Seq<(Seq<char>, int)>),
                Failure,
            >((effects_view(causes@), effects_view(gives@))),
        decreases page.sections.len() - i,
    {
        proof {
            assert(page.sections@.take(i + 1).drop_last() =~= page.sections@.take(i as int));
            assert(page.sections@.take(i + 1).last() == page.sections@[i as int]);
            reveal_strlit("Causes:");
            reveal_strlit("Gives:");
        }
        let section = &page.sections[i];
        let h = trim(section.heading.as_str());
        if str_eq(h, "Causes:") || str_eq(h, "Gives:") {
            match parse_status_effects(&section.divs) {
                Ok(v) => {
                    if str_eq(h, "Causes:") {
                        causes = v;
                    } else {
                        gives = v;
                    }
                },
                Err(e) => {
                    proof {
                        lemma_skill_sections_err_sticks(page.sections@, i + 1, page.sections@.len() as int);
                        assert(page.sections@.take(page.sections@.len() as int) =~= page.sections@);
                    }
                    return Err(e);
                },
            }
        }
        i = i + 1;
    }
    assert(page.sections@.take(page.sections@.len() as int) =~= page.sections@);
    let icon = match icon_of(&page.icon, "Failed to find \"img\" in icon-node", "Failed to find src in img icon node") {
        Ok(i) => i,
        Err(e) => {
            return Err(e);
        },
    };
    let tier = match parse_tier(page.tier_text.as_str()) {
        Ok(t) => t,
        Err(e) => {
            return Err(e);
        },
    };
    Ok(
        CodexSkill {
            name: to_owned(page.name.as_str()),
            slug,
            icon,
            description: to_owned(page.description.as_str()),
            tier,
            tags,
            causes,
            gives,
        },
    )
}

} // verus!
