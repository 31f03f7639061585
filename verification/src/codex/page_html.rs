//! Skill and follower pages of the codex, read from their HTML: the parts of the page
//! that `kuchiki` selects, turned into the pages that the page readers take.

use vstd::prelude::*;

use crate::codex::follower::Follower;
use crate::codex::html_follower_parser::{
    follower_page_ok, parse_codex_follower, spec_follower_page, DescriptionElement, FollowerPage,
    FollowerSectionNode,
};
use crate::codex::html_item_lists::{icon_of, img_ok, spec_icon};
use crate::codex::html_follower_parser::parse_tier;
use crate::codex::html_item_parser::spec_parse_tier_of;
use crate::codex::html_skill_parser::{
    effects_view, parse_codex_skill, parse_status_effects, skill_page_ok, spec_skill_page, spec_status_effects,
    SkillPage, SkillSectionNode,
};
use crate::codex::skill::SkillStatusEffect;
use crate::codex::item_html::{
    first_found, first_selected, img_fits, img_matches, img_node_of, not_found_message, page_contexts,
    section_matches, section_of, trimmed_texts,
};
use crate::codex::item_page::kind_fails;
use crate::codex::skill::CodexSkill;
use crate::error::{fails_with, html_error, Error, Failure, Kind};
use crate::text::{concat2, concat3, spec_split, spec_trim, split_str, str_eq, strs_view, to_owned, trim};
use crate::utils::dom::{
    attrs_view, events_text, events_view, first_open, first_open_of, first_tag_range, first_with_tag, html_select,
    page_scope, select_contexts, select_nodes, text_of, text_of_range, walks_view, ContextSelection, EventView,
    HtmlEvent, NodeContext, NodeContextView, Selection, SelectionView,
};

verus! {

/// The error of a missing part of a page.
fn not_found_error(selector: &str, from: &str) -> (e: Error)
    ensures
        e.kind matches Kind::HTMLParsingError(x) && x@ == not_found_message(selector@, from@),
        e.context@.len() == 0,
{
    let a = concat3("Failed to find \"", selector, "\" in ");
    let m = concat2(a.as_str(), from);
    proof {
        reveal_strlit("Failed to find \"");
        reveal_strlit("\" in ");
        assert(m@ =~= not_found_message(selector@, from@));
    }
    html_error(m)
}

/// The `div` elements that follow a heading, from the `i`-th node on, up to the first
/// element that is not a `div`.
pub open spec fn div_run_from(v: Seq<Seq<EventView>>, i: int) -> Seq<Seq<EventView>>
    decreases v.len() - i,
{
    if i < 0 || i >= v.len() {
        Seq::empty()
    } else {
        match first_open(v[i]) {
            None => div_run_from(v, i + 1),
            Some((t, _)) => if t == "div"@ {
                seq![v[i]] + div_run_from(v, i + 1)
            } else {
                Seq::empty()
            },
        }
    }
}

/// The section is the heading `h`: its text, and the text of the first `span` of each
/// `div` that follows it.
pub open spec fn skill_section_matches(sec: SkillSectionNode, h: NodeContextView) -> bool {
    let ds = div_run_from(h.following, 0);
    &&& sec.heading@ == events_text(h.events)
    &&& sec.divs@.len() == ds.len()
    &&& forall|i: int|
        0 <= i < ds.len() ==> match first_with_tag(#[trigger] ds[i], "span"@) {
            Some(n) => sec.divs@[i] matches Some(x) && x@ == events_text(n),
            None => sec.divs@[i] is None,
        }
}

/// The parts of a skill page that reading it selects.
pub struct SkillPageParts {
    pub name: Seq<EventView>,
    pub icon: Seq<EventView>,
    pub description: Seq<EventView>,
    pub tier: Seq<EventView>,
    pub tags: Seq<Seq<EventView>>,
    pub headings: Seq<NodeContextView>,
}

/// The parts of the skill page `html`, or the message of the error for the first part
/// that is missing.
pub open spec fn skill_page_parts(html: Seq<char>) -> Result<SkillPageParts, Seq<char>> {
    match first_found(html, page_scope(), ".herotext"@) {
        None => Err(not_found_message(".herotext"@, "html"@)),
        Some(name) => match first_found(html, page_scope(), ".codex-page"@) {
            None => Err(not_found_message(".codex-page"@, "html"@)),
            Some(_) => match first_found(html, ".codex-page"@, ".codex-page-icon"@) {
                None => Err(not_found_message(".codex-page-icon"@, "page"@)),
                Some(icon) => match first_found(html, ".codex-page"@, ".codex-page-description"@) {
                    None => Err(not_found_message(".codex-page-description"@, "page"@)),
                    Some(description) => match first_found(html, ".codex-page"@, ".codex-page-meta"@) {
                        None => Err(not_found_message(".codex-page-meta"@, "page"@)),
                        Some(tier) => match html_select(html, ".codex-page"@, ".codex-page-tag"@) {
                            SelectionView::Found(tags) => match page_contexts(html, "h4"@) {
                                None => Err(not_found_message("h4"@, "page"@)),
                                Some(headings) => Ok(SkillPageParts { name, icon, description, tier, tags, headings }),
                            },
                            _ => Err(not_found_message(".codex-page-tag"@, "page"@)),
                        },
                    },
                },
            },
        },
    }
}

/// The skill page `p` holds the parts of the page.
pub open spec fn skill_page_matches(p: SkillPage, parts: SkillPageParts) -> bool {
    &&& p.name@ == spec_trim(events_text(parts.name))
    &&& img_matches(p.icon, parts.icon)
    &&& p.description@ == spec_trim(events_text(parts.description))
    &&& p.tier_text@ == spec_trim(events_text(parts.tier))
    &&& p.tags@.len() == parts.tags.len()
    &&& forall|i: int| 0 <= i < parts.tags.len() ==> #[trigger] p.tags@[i]@ == spec_trim(events_text(parts.tags[i]))
    &&& p.sections@.len() == parts.headings.len()
    &&& forall|i: int| 0 <= i < parts.headings.len() ==> #[trigger] skill_section_matches(p.sections@[i], parts.headings[i])
}

/// Reading the skill page `html` does not panic: any page that holds its parts can be
/// read (its headings are known and its icon has an absolute URL).
pub open spec fn skill_html_ok(html: Seq<char>) -> bool {
    skill_page_parts(html) matches Ok(parts) ==> forall|p: SkillPage| #[trigger] skill_page_matches(p, parts) ==> skill_page_ok(p)
}

/// What reading the skill page `p` gives.
pub open spec fn skill_outcome(r: Result<CodexSkill, Error>, p: SkillPage, slug: Seq<char>) -> bool {
    match spec_skill_page(p) {
        Ok((tags, (causes, gives), icon, tier)) => r matches Ok(s) && s.name@ == p.name@ && s.slug@ == slug
            && s.icon@ == icon && s.description@ == p.description@ && s.tier == tier && s.tags@ == tags
            && crate::codex::html_skill_parser::effects_view(s.causes@) == causes
            && crate::codex::html_skill_parser::effects_view(s.gives@) == gives,
        Err(fail) => r matches Err(e) && kind_fails(e.kind, fail) && e.context@.len() == 0,
    }
}

/// What the parts of the skill page give.
pub open spec fn skill_parts_read(r: Result<CodexSkill, Error>, parts: SkillPageParts, slug: Seq<char>) -> bool {
    exists|p: SkillPage| #[trigger] skill_page_matches(p, parts) && skill_outcome(r, p, slug)
}

/// What the skill page `html` reads as, for the skill `slug`.
pub open spec fn skill_html_read(r: Result<CodexSkill, Error>, html: Seq<char>, slug: Seq<char>) -> bool {
    match skill_page_parts(html) {
        Err(m) => r matches Err(e) && e.kind matches Kind::HTMLParsingError(x) && x@ == m && e.context@.len() == 0,
        Ok(parts) => skill_parts_read(r, parts, slug),
    }
}

/// The section of a skill page the heading starts.
fn skill_section_of(h: &NodeContext) -> (r: SkillSectionNode)
    ensures
        skill_section_matches(r, h@),
{
    proof {
        reveal_strlit("div");
        reveal_strlit("span");
    }
    let ghost fv = walks_view(h.following@);
    let mut divs: Vec<Option<String>> = Vec::new();
    let ghost mut ds: Seq<Seq<EventView>> = Seq::empty();
    let mut i: usize = 0;
    let mut stop = false;
    while i < h.following.len() && !stop
        invariant
            i <= h.following@.len(),
            fv == walks_view(h.following@),
            stop ==> div_run_from(fv, 0) == ds,
            !stop ==> div_run_from(fv, 0) == ds + div_run_from(fv, i as int),
            divs@.len() == ds.len(),
            forall|k: int|
                0 <= k < ds.len() ==> match first_with_tag(#[trigger] ds[k], "span"@) {
                    Some(n) => divs@[k] matches Some(x) && x@ == events_text(n),
                    None => divs@[k] is None,
                },
        decreases h.following.len() - i,
    {
        let node = &h.following[i];
        assert(events_view(node@) == fv[i as int]);
        match first_open_of(node) {
            None => {},
            Some((t, _)) => {
                if str_eq(t.as_str(), "div") {
                    let span = match first_tag_range(node, "span") {
                        Some((s, e)) => Some(text_of_range(node, s, e)),
                        None => None,
                    };
                    divs.push(span);
                    proof {
                        assert(ds + (seq![fv[i as int]] + div_run_from(fv, i + 1)) =~= ds.push(fv[i as int])
                            + div_run_from(fv, i + 1));
                        ds = ds.push(fv[i as int]);
                    }
                } else {
                    proof {
                        assert(ds + Seq::<Seq<EventView>>::empty() =~= ds);
                    }
                    stop = true;
                }
            },
        }
        i = i + 1;
    }
    if !stop {
        assert(ds + div_run_from(fv, i as int) =~= ds);
    }
    SkillSectionNode { heading: text_of(&h.events), divs }
}

/// The page can be read without panicking.
fn skill_page_fits(page: &SkillPage) -> (r: bool)
    ensures
        r == skill_page_ok(*page),
{
    proof {
        reveal_strlit("Causes:");
        reveal_strlit("Gives:");
        reveal_strlit("Summons:");
    }
    if !img_fits(&page.icon) {
        return false;
    }
    let mut i: usize = 0;
    while i < page.sections.len()
        invariant
            i <= page.sections@.len(),
            img_ok(page.icon),
            forall|k: int|
                0 <= k < i ==> {
                    let h = spec_trim(#[trigger] page.sections@[k].heading@);
                    h == "Causes:"@ || h == "Gives:"@ || h == "Summons:"@
                },
        decreases page.sections.len() - i,
    {
        let h = trim(page.sections[i].heading.as_str());
        if !(str_eq(h, "Causes:") || str_eq(h, "Gives:") || str_eq(h, "Summons:")) {
            return false;
        }
        i = i + 1;
    }
    true
}

/// Two skill pages that hold the same parts are both readable, or both not.
proof fn lemma_skill_page_ok_unique(p: SkillPage, q: SkillPage, parts: SkillPageParts)
    requires
        skill_page_matches(p, parts),
        skill_page_matches(q, parts),
    ensures
        skill_page_ok(p) == skill_page_ok(q),
{
    assert forall|i: int| 0 <= i < parts.headings.len() implies #[trigger] p.sections@[i].heading@
        == q.sections@[i].heading@ by {
        assert(skill_section_matches(p.sections@[i], parts.headings[i]));
        assert(skill_section_matches(q.sections@[i], parts.headings[i]));
    }
    if skill_page_ok(p) {
        assert forall|i: int| 0 <= i < q.sections@.len() implies {
            let h = spec_trim(#[trigger] q.sections@[i].heading@);
            h == "Causes:"@ || h == "Gives:"@ || h == "Summons:"@
        } by {
            assert(p.sections@[i].heading@ == q.sections@[i].heading@);
            let hp = spec_trim(p.sections@[i].heading@);
            assert(hp == "Causes:"@ || hp == "Gives:"@ || hp == "Summons:"@);
        }
    }
    if skill_page_ok(q) {
        assert forall|i: int| 0 <= i < p.sections@.len() implies {
            let h = spec_trim(#[trigger] p.sections@[i].heading@);
            h == "Causes:"@ || h == "Gives:"@ || h == "Summons:"@
        } by {
            assert(p.sections@[i].heading@ == q.sections@[i].heading@);
            let hq = spec_trim(q.sections@[i].heading@);
            assert(hq == "Causes:"@ || hq == "Gives:"@ || hq == "Summons:"@);
        }
    }
}

/// Read the parts of the skill page; `None` where reading the page panics.
fn read_html_codex_skill(contents: &str, slug: String) -> (r: Option<Result<CodexSkill, Error>>)
    ensures
        r is None <==> !skill_html_ok(contents@),
        r matches Some(res) ==> skill_html_read(res, contents@, slug@),
{
    proof {
        reveal_strlit(":root");
        reveal_strlit(".herotext");
        reveal_strlit(".codex-page");
        reveal_strlit(".codex-page-icon");
        reveal_strlit(".codex-page-description");
        reveal_strlit(".codex-page-meta");
        reveal_strlit(".codex-page-tag");
        reveal_strlit("h4");
        reveal_strlit("html");
        reveal_strlit("page");
    }
    let name = match first_selected(select_nodes(contents, ":root", ".herotext")) {
        Some(n) => n,
        None => {
            return Some(Err(not_found_error(".herotext", "html")));
        },
    };
    if first_selected(select_nodes(contents, ":root", ".codex-page")).is_none() {
        return Some(Err(not_found_error(".codex-page", "html")));
    }
    let icon = match first_selected(select_nodes(contents, ".codex-page", ".codex-page-icon")) {
        Some(n) => n,
        None => {
            return Some(Err(not_found_error(".codex-page-icon", "page")));
        },
    };
    let description = match first_selected(select_nodes(contents, ".codex-page", ".codex-page-description")) {
        Some(n) => n,
        None => {
            return Some(Err(not_found_error(".codex-page-description", "page")));
        },
    };
    let tier = match first_selected(select_nodes(contents, ".codex-page", ".codex-page-meta")) {
        Some(n) => n,
        None => {
            return Some(Err(not_found_error(".codex-page-meta", "page")));
        },
    };
    let tag_nodes = match select_nodes(contents, ".codex-page", ".codex-page-tag") {
        Selection::Found(v) => v,
        _ => {
            return Some(Err(not_found_error(".codex-page-tag", "page")));
        },
    };
    let headings = match select_contexts(contents, ".codex-page", "h4") {
        ContextSelection::Found(v) => v,
        _ => {
            return Some(Err(not_found_error("h4", "page")));
        },
    };
    let ghost parts = match skill_page_parts(contents@) {
        Ok(p) => p,
        Err(_) => vstd::pervasive::arbitrary(),
    };
    let mut ss: Vec<SkillSectionNode> = Vec::new();
    let mut i: usize = 0;
    while i < headings.len()
        invariant
            i <= headings@.len(),
            ss@.len() == i,
            forall|k: int| 0 <= k < i ==> #[trigger] skill_section_matches(ss@[k], headings@[k]@),
        decreases headings.len() - i,
    {
        ss.push(skill_section_of(&headings[i]));
        i = i + 1;
    }
    let page = SkillPage {
        name: {
            let t = text_of(&name);
            to_owned(trim(t.as_str()))
        },
        icon: img_node_of(&icon),
        description: {
            let t = text_of(&description);
            to_owned(trim(t.as_str()))
        },
        tier_text: {
            let t = text_of(&tier);
            to_owned(trim(t.as_str()))
        },
        tags: trimmed_texts(&tag_nodes),
        sections: ss,
    };
    proof {
        assert(parts.headings == headings@.map_values(|c: NodeContext| c@));
        assert(parts.tags == walks_view(tag_nodes@));
        assert(skill_page_matches(page, parts));
    }
    if !skill_page_fits(&page) {
        return None;
    }
    proof {
        assert forall|q: SkillPage| #[trigger] skill_page_matches(q, parts) implies skill_page_ok(q) by {
            lemma_skill_page_ok_unique(page, q, parts);
        }
    }
    let ghost slug_view = slug@;
    let r = parse_codex_skill(&page, slug);
    proof {
        assert(skill_page_matches(page, parts) && skill_outcome(r, page, slug_view));
    }
    Some(r)
}

/// Parses a skill page from `playorna.com` and returns the details about the given skill.
pub fn parse_html_codex_skill(contents: &str, slug: String) -> (r: Result<CodexSkill, Error>)
    requires
        skill_html_ok(contents@),
    ensures
        skill_html_read(r, contents@, slug@),
{
    match read_html_codex_skill(contents, slug) {
        Some(r) => r,
        None => Err(html_error(String::new())),
    }
}

/// Parses a skill page from `playorna.com`, or `None` where reading it panics (see
/// [`skill_html_ok`]).
pub fn try_parse_html_codex_skill(contents: &str, slug: String) -> (r: Option<Result<CodexSkill, Error>>)
    ensures
        r is Some <==> skill_html_ok(contents@),
        r matches Some(res) ==> skill_html_read(res, contents@, slug@),
{
    let copy = to_owned(slug.as_str());
    match read_html_codex_skill(contents, copy) {
        None => None,
        Some(_) => Some(parse_html_codex_skill(contents, slug)),
    }
}

/// The words of the values of the attributes, each split at spaces.
pub open spec fn attr_words(a: Seq<(Seq<char>, Seq<char>)>) -> Seq<Seq<char>>
    decreases a.len(),
{
    if a.len() == 0 {
        Seq::empty()
    } else {
        attr_words(a.drop_last()) + spec_split(a.last().1, " "@)
    }
}

/// The description element is the element the walk goes through: its text, trimmed,
/// and the words of its attribute values.
pub open spec fn description_matches(d: DescriptionElement, events: Seq<EventView>) -> bool {
    &&& d.text@ == spec_trim(events_text(events))
    &&& match first_open(events) {
        Some((_, a)) => strs_of(d.attribute_words@) == attr_words(a),
        None => false,
    }
}

/// The characters of each string.
pub open spec fn strs_of(v: Seq<String>) -> Seq<Seq<char>> {
    v.map_values(|x: String| x@)
}

/// The section is the heading `h`: its text, and the elements that follow it.
pub open spec fn follower_section_matches(sec: FollowerSectionNode, h: NodeContextView) -> bool {
    let es = crate::codex::item_html::element_walks(h.following);
    &&& sec.heading@ == events_text(h.events)
    &&& sec.siblings@.len() == es.len()
    &&& forall|i: int| 0 <= i < es.len() ==> #[trigger] crate::codex::item_html::sibling_matches(sec.siblings@[i], es[i])
}

/// The parts of a follower page that reading it selects.
pub struct FollowerPageParts {
    pub name: Seq<EventView>,
    pub icon: Seq<EventView>,
    pub descriptions: Seq<Seq<EventView>>,
    pub tier: Seq<EventView>,
    pub headings: Seq<NodeContextView>,
}

/// The message of the error for a description node that is no element.
pub open spec fn description_attributes_message() -> Seq<char> {
    "Failed to get attributes from Description event node"@
}

/// The parts of the follower page `html`, or the message of the error for the first
/// part that is missing.
pub open spec fn follower_page_parts(html: Seq<char>, sections: bool) -> Result<FollowerPageParts, Seq<char>> {
    match first_found(html, page_scope(), ".herotext"@) {
        None => Err(not_found_message(".herotext"@, "html"@)),
        Some(name) => match first_found(html, page_scope(), ".codex-page"@) {
            None => Err(not_found_message(".codex-page"@, "html"@)),
            Some(_) => match first_found(html, ".codex-page"@, ".codex-page-icon"@) {
                None => Err(not_found_message(".codex-page-icon"@, "page"@)),
                Some(icon) => match html_select(html, ".codex-page"@, ".codex-page-description"@) {
                    SelectionView::Found(descriptions) => if !(forall|i: int|
                        0 <= i < descriptions.len() ==> (#[trigger] first_open(descriptions[i])) is Some) {
                        Err(description_attributes_message())
                    } else {
                        match first_found(html, ".codex-page"@, ".codex-page-meta"@) {
                            None => Err(not_found_message(".codex-page-meta"@, "page"@)),
                            Some(tier) => if !sections {
                                Ok(FollowerPageParts { name, icon, descriptions, tier, headings: Seq::empty() })
                            } else {
                                match page_contexts(html, "h4"@) {
                                    None => Err(not_found_message("h4"@, "page"@)),
                                    Some(headings) => Ok(FollowerPageParts { name, icon, descriptions, tier, headings }),
                                }
                            },
                        }
                    },
                    _ => Err(not_found_message(".codex-page-description"@, "page"@)),
                },
            },
        },
    }
}

/// The follower page `p` holds the parts of the page.
pub open spec fn follower_page_matches(p: FollowerPage, parts: FollowerPageParts) -> bool {
    &&& p.name@ == spec_trim(events_text(parts.name))
    &&& img_matches(p.icon, parts.icon)
    &&& p.tier_text@ == spec_trim(events_text(parts.tier))
    &&& p.descriptions@.len() == parts.descriptions.len()
    &&& forall|i: int| 0 <= i < parts.descriptions.len() ==> #[trigger] description_matches(p.descriptions@[i], parts.descriptions[i])
    &&& p.sections@.len() == parts.headings.len()
    &&& forall|i: int| 0 <= i < parts.headings.len() ==> #[trigger] follower_section_matches(p.sections@[i], parts.headings[i])
}

/// Reading the follower page `html` (its sections too, when `sections` holds) does not
/// panic: any page that holds its parts can be read (its headings are all `Abilities:`
/// and its icon has an absolute URL).
pub open spec fn follower_html_ok(html: Seq<char>, sections: bool) -> bool {
    follower_page_parts(html, sections) matches Ok(parts) ==> forall|p: FollowerPage| #[trigger] follower_page_matches(p, parts) ==> follower_page_ok(p)
}

/// What reading the follower page `p` gives.
pub open spec fn follower_outcome(r: Result<Follower, Error>, p: FollowerPage, slug: Seq<char>) -> bool {
    match spec_follower_page(p) {
        Ok(((d, es, rarity), abilities, icon, tier)) => r matches Ok(f) && f.name@ == p.name@ && f.slug@ == slug
            && f.icon@ == icon && f.description@ == d && f.rarity@ == rarity && f.tier == tier
            && crate::text::texts_sorted(crate::text::string_views(f.events@))
            && crate::text::string_views(f.events@).to_multiset() == es.to_multiset()
            && crate::codex::html_follower_parser::abilities_view(f.abilities@) == abilities,
        Err(fail) => r matches Err(e) && kind_fails(e.kind, fail) && e.context@.len() == 0,
    }
}

/// What the parts of the follower page give.
pub open spec fn follower_parts_read(r: Result<Follower, Error>, parts: FollowerPageParts, slug: Seq<char>) -> bool {
    exists|p: FollowerPage| #[trigger] follower_page_matches(p, parts) && follower_outcome(r, p, slug)
}

/// What the follower page `html` reads as, for the follower `slug` (its sections too,
/// when `sections` holds).
pub open spec fn follower_html_read(r: Result<Follower, Error>, html: Seq<char>, slug: Seq<char>, sections: bool) -> bool {
    match follower_page_parts(html, sections) {
        Err(m) => r matches Err(e) && e.kind matches Kind::HTMLParsingError(x) && x@ == m && e.context@.len() == 0,
        Ok(parts) => follower_parts_read(r, parts, slug),
    }
}

/// The words of the values of the attributes, each split at spaces.
pub(crate) fn attribute_words_of(a: &Vec<(String, String)>) -> (r: Vec<String>)
    ensures
        strs_of(r@) == attr_words(attrs_view(a@)),
{
    proof {
        reveal_strlit(" ");
    }
    let ghost av = attrs_view(a@);
    let mut words: Vec<String> = Vec::new();
    let mut i: usize = 0;
    while i < a.len()
        invariant
            i <= a@.len(),
            av == attrs_view(a@),
            " "@.len() == 1,
            strs_of(words@) == attr_words(av.take(i as int)),
        decreases a.len() - i,
    {
        proof {
            assert(av.take(i + 1).drop_last() =~= av.take(i as int));
        }
        let parts = split_str(a[i].1.as_str(), " ");
        let mut j: usize = 0;
        let ghost base = strs_of(words@);
        while j < parts.len()
            invariant
                j <= parts@.len(),
                strs_of(words@) == base + strs_view(parts@).take(j as int),
            decreases parts.len() - j,
        {
            let ghost prev = strs_of(words@);
            words.push(to_owned(parts[j]));
            assert(strs_of(words@) =~= prev.push(parts@[j as int]@));
            assert(strs_view(parts@).take(j + 1) =~= strs_view(parts@).take(j as int).push(parts@[j as int]@));
            assert(base + strs_view(parts@).take(j + 1) =~= (base + strs_view(parts@).take(j as int)).push(
                parts@[j as int]@,
            ));
            j = j + 1;
        }
        assert(strs_view(parts@).take(parts@.len() as int) =~= strs_view(parts@));
        i = i + 1;
    }
    assert(av.take(a@.len() as int) =~= av);
    words
}

/// The description element the walk goes through, or `None` when it is no element.
fn description_of(events: &Vec<HtmlEvent>) -> (r: Option<DescriptionElement>)
    ensures
        first_open(events_view(events@)) is None ==> r is None,
        first_open(events_view(events@)) is Some ==> (r matches Some(d) && description_matches(d, events_view(events@))),
{
    proof {
        reveal_strlit(" ");
    }
    match first_open_of(events) {
        None => None,
        Some((_, a)) => {
            let words = attribute_words_of(a);
            let t = text_of(events);
            Some(DescriptionElement { text: to_owned(trim(t.as_str())), attribute_words: words })
        },
    }
}

/// The page can be read without panicking.
fn follower_page_fits(page: &FollowerPage) -> (r: bool)
    ensures
        r == follower_page_ok(*page),
{
    proof {
        reveal_strlit("Abilities:");
    }
    if !img_fits(&page.icon) {
        return false;
    }
    let mut i: usize = 0;
    while i < page.sections.len()
        invariant
            i <= page.sections@.len(),
            img_ok(page.icon),
            forall|k: int| 0 <= k < i ==> spec_trim(#[trigger] page.sections@[k].heading@) == "Abilities:"@,
        decreases page.sections.len() - i,
    {
        if !str_eq(trim(page.sections[i].heading.as_str()), "Abilities:") {
            return false;
        }
        i = i + 1;
    }
    true
}

/// Two follower pages that hold the same parts are both readable, or both not.
proof fn lemma_follower_page_ok_unique(p: FollowerPage, q: FollowerPage, parts: FollowerPageParts)
    requires
        follower_page_matches(p, parts),
        follower_page_matches(q, parts),
    ensures
        follower_page_ok(p) == follower_page_ok(q),
{
    assert forall|i: int| 0 <= i < parts.headings.len() implies #[trigger] p.sections@[i].heading@
        == q.sections@[i].heading@ by {
        assert(follower_section_matches(p.sections@[i], parts.headings[i]));
        assert(follower_section_matches(q.sections@[i], parts.headings[i]));
    }
    if follower_page_ok(p) {
        assert forall|i: int| 0 <= i < q.sections@.len() implies spec_trim(#[trigger] q.sections@[i].heading@)
            == "Abilities:"@ by {
            assert(p.sections@[i].heading@ == q.sections@[i].heading@);
            assert(spec_trim(p.sections@[i].heading@) == "Abilities:"@);
        }
    }
    if follower_page_ok(q) {
        assert forall|i: int| 0 <= i < p.sections@.len() implies spec_trim(#[trigger] p.sections@[i].heading@)
            == "Abilities:"@ by {
            assert(p.sections@[i].heading@ == q.sections@[i].heading@);
            assert(spec_trim(q.sections@[i].heading@) == "Abilities:"@);
        }
    }
}

/// Read the parts of the follower page; `None` where reading the page panics.
fn read_html_codex_follower(contents: &str, slug: String, sections: bool) -> (r: Option<Result<Follower, Error>>)
    ensures
        r is None <==> !follower_html_ok(contents@, sections),
        r matches Some(res) ==> follower_html_read(res, contents@, slug@, sections),
{
    proof {
        reveal_strlit(":root");
        reveal_strlit(".herotext");
        reveal_strlit(".codex-page");
        reveal_strlit(".codex-page-icon");
        reveal_strlit(".codex-page-description");
        reveal_strlit(".codex-page-meta");
        reveal_strlit("h4");
        reveal_strlit("html");
        reveal_strlit("page");
    }
    let name = match first_selected(select_nodes(contents, ":root", ".herotext")) {
        Some(n) => n,
        None => {
            return Some(Err(not_found_error(".herotext", "html")));
        },
    };
    if first_selected(select_nodes(contents, ":root", ".codex-page")).is_none() {
        return Some(Err(not_found_error(".codex-page", "html")));
    }
    let icon = match first_selected(select_nodes(contents, ".codex-page", ".codex-page-icon")) {
        Some(n) => n,
        None => {
            return Some(Err(not_found_error(".codex-page-icon", "page")));
        },
    };
    let description_nodes = match select_nodes(contents, ".codex-page", ".codex-page-description") {
        Selection::Found(v) => v,
        _ => {
            return Some(Err(not_found_error(".codex-page-description", "page")));
        },
    };
    let ghost dv = walks_view(description_nodes@);
    let mut descriptions: Vec<DescriptionElement> = Vec::new();
    let mut i: usize = 0;
    while i < description_nodes.len()
        invariant
            i <= description_nodes@.len(),
            dv == walks_view(description_nodes@),
            html_select(contents@, ".codex-page"@, ".codex-page-description"@) == SelectionView::Found(dv),
            first_found(contents@, page_scope(), ".herotext"@) is Some,
            first_found(contents@, page_scope(), ".codex-page"@) is Some,
            first_found(contents@, ".codex-page"@, ".codex-page-icon"@) is Some,
            descriptions@.len() == i,
            forall|k: int| 0 <= k < i ==> (#[trigger] first_open(dv[k])) is Some,
            forall|k: int| 0 <= k < i ==> #[trigger] description_matches(descriptions@[k], dv[k]),
        decreases description_nodes.len() - i,
    {
        match description_of(&description_nodes[i]) {
            Some(d) => descriptions.push(d),
            None => {
                proof {
                    assert(first_open(dv[i as int]) is None);
                    assert(!(forall|k: int| 0 <= k < dv.len() ==> (#[trigger] first_open(dv[k])) is Some));
                    assert(follower_page_parts(contents@, sections) == Err::<FollowerPageParts, Seq<char>>(
                        description_attributes_message(),
                    ));
                }
                return Some(Err(html_error(to_owned("Failed to get attributes from Description event node"))));
            },
        }
        i = i + 1;
    }
    let tier = match first_selected(select_nodes(contents, ".codex-page", ".codex-page-meta")) {
        Some(n) => n,
        None => {
            return Some(Err(not_found_error(".codex-page-meta", "page")));
        },
    };
    let headings = if sections {
        match select_contexts(contents, ".codex-page", "h4") {
            ContextSelection::Found(v) => v,
            _ => {
                return Some(Err(not_found_error("h4", "page")));
            },
        }
    } else {
        Vec::new()
    };
    let ghost parts = match follower_page_parts(contents@, sections) {
        Ok(p) => p,
        Err(_) => vstd::pervasive::arbitrary(),
    };
    let mut ss: Vec<FollowerSectionNode> = Vec::new();
    let mut i: usize = 0;
    while i < headings.len()
        invariant
            i <= headings@.len(),
            ss@.len() == i,
            forall|k: int| 0 <= k < i ==> #[trigger] follower_section_matches(ss@[k], headings@[k]@),
        decreases headings.len() - i,
    {
        let sec = section_of(&headings[i]);
        ss.push(FollowerSectionNode { heading: sec.heading, siblings: sec.siblings });
        i = i + 1;
    }
    let page = FollowerPage {
        name: {
            let t = text_of(&name);
            to_owned(trim(t.as_str()))
        },
        icon: img_node_of(&icon),
        descriptions,
        tier_text: {
            let t = text_of(&tier);
            to_owned(trim(t.as_str()))
        },
        sections: ss,
    };
    proof {
        assert(parts.headings =~= headings@.map_values(|c: NodeContext| c@));
        assert(parts.descriptions == dv);
        assert(follower_page_matches(page, parts));
    }
    if !follower_page_fits(&page) {
        return None;
    }
    proof {
        assert forall|q: FollowerPage| #[trigger] follower_page_matches(q, parts) implies follower_page_ok(q) by {
            lemma_follower_page_ok_unique(page, q, parts);
        }
    }
    let ghost slug_view = slug@;
    let r = parse_codex_follower(&page, slug);
    proof {
        assert(follower_page_matches(page, parts) && follower_outcome(r, page, slug_view));
    }
    Some(r)
}

/// Parse a follower page from `playorna.com` for details about a follower.
pub fn parse_html_codex_follower(contents: &str, slug: String) -> (r: Result<Follower, Error>)
    requires
        follower_html_ok(contents@, true),
    ensures
        follower_html_read(r, contents@, slug@, true),
{
    match read_html_codex_follower(contents, slug, true) {
        Some(r) => r,
        None => Err(html_error(String::new())),
    }
}

/// Parse a follower page from `playorna.com`, or `None` where reading it panics (see
/// [`follower_html_ok`]).
pub fn try_parse_html_codex_follower(contents: &str, slug: String) -> (r: Option<Result<Follower, Error>>)
    ensures
        r is Some <==> follower_html_ok(contents@, true),
        r matches Some(res) ==> follower_html_read(res, contents@, slug@, true),
{
    let copy = to_owned(slug.as_str());
    match read_html_codex_follower(contents, copy, true) {
        None => None,
        Some(_) => Some(parse_html_codex_follower(contents, slug)),
    }
}

/// Parse a follower page from `playorna.com` for details about a follower.
/// The page needs not be in English and only some of the fields are selected: the
/// abilities are left out.
pub fn parse_html_codex_follower_translation(contents: &str, slug: String) -> (r: Result<Follower, Error>)
    requires
        follower_html_ok(contents@, false),
    ensures
        follower_html_read(r, contents@, slug@, false),
{
    match read_html_codex_follower(contents, slug, false) {
        Some(r) => r,
        None => Err(html_error(String::new())),
    }
}

/// Parse a translated follower page from `playorna.com`, or `None` where reading it
/// panics (see [`follower_html_ok`]).
pub fn try_parse_html_codex_follower_translation(contents: &str, slug: String) -> (r: Option<
    Result<Follower, Error>,
>)
    ensures
        r is Some <==> follower_html_ok(contents@, false),
        r matches Some(res) ==> follower_html_read(res, contents@, slug@, false),
{
    let copy = to_owned(slug.as_str());
    match read_html_codex_follower(contents, copy, false) {
        None => None,
        Some(_) => Some(parse_html_codex_follower_translation(contents, slug)),
    }
}

/// The parts of a translated skill page that reading it selects: those of a skill
/// page, without its tags.
pub open spec fn skill_translation_parts(html: Seq<char>) -> Result<SkillPageParts, Seq<char>> {
    match first_found(html, page_scope(), ".herotext"@) {
        None => Err(not_found_message(".herotext"@, "html"@)),
        Some(name) => match first_found(html, page_scope(), ".codex-page"@) {
            None => Err(not_found_message(".codex-page"@, "html"@)),
            Some(_) => match first_found(html, ".codex-page"@, ".codex-page-icon"@) {
                None => Err(not_found_message(".codex-page-icon"@, "page"@)),
                Some(icon) => match first_found(html, ".codex-page"@, ".codex-page-description"@) {
                    None => Err(not_found_message(".codex-page-description"@, "page"@)),
                    Some(description) => match first_found(html, ".codex-page"@, ".codex-page-meta"@) {
                        None => Err(not_found_message(".codex-page-meta"@, "page"@)),
                        Some(tier) => match page_contexts(html, "h4"@) {
                            None => Err(not_found_message("h4"@, "page"@)),
                            Some(headings) => Ok(
                                SkillPageParts { name, icon, description, tier, tags: Seq::empty(), headings },
                            ),
                        },
                    },
                },
            },
        },
    }
}

/// The effects of the sections, one after the other, or the failure of the first that
/// fails.
pub open spec fn sections_effects(sections: Seq<SkillSectionNode>) -> Result<Seq<(Seq<char>, int)>, Failure>
    decreases sections.len(),
{
    if sections.len() == 0 {
        Ok(Seq::empty())
    } else {
        match sections_effects(sections.drop_last()) {
            Err(f) => Err(f),
            Ok(prev) => match spec_status_effects(sections.last().divs@) {
                Err(f) => Err(f),
                Ok(es) => Ok(prev + es),
            },
        }
    }
}

/// What reading the translated skill page `p` gives: its effects, all read as caused,
/// its icon and its tier.
pub open spec fn skill_translation_outcome(r: Result<CodexSkill, Error>, p: SkillPage, slug: Seq<char>) -> bool {
    match sections_effects(p.sections@) {
        Err(f) => (r matches Err(e) && fails_with(e, Err::<(), Failure>(f))),
        Ok(causes) => match spec_icon(p.icon, "Failed to find \"img\" in icon-node"@, "Failed to find src in img icon node"@) {
            Err(f) => (r matches Err(e) && fails_with(e, Err::<(), Failure>(f))),
            Ok(icon) => match spec_parse_tier_of("skill"@, spec_trim(p.tier_text@)) {
                Err(f) => (r matches Err(e) && fails_with(e, Err::<(), Failure>(f))),
                Ok(tier) => r matches Ok(s) && s.name@ == p.name@ && s.slug@ == slug && s.icon@ == icon
                    && s.description@ == p.description@ && s.tier == tier && s.tags@.len() == 0
                    && effects_view(s.causes@) == causes && s.gives@.len() == 0,
            },
        },
    }
}

/// Reading the translated skill page `html` does not panic: its icon has an absolute
/// URL.
pub open spec fn skill_translation_ok(html: Seq<char>) -> bool {
    skill_translation_parts(html) matches Ok(parts) ==> forall|p: SkillPage| #[trigger] skill_page_matches(p, parts)
        ==> img_ok(p.icon)
}

/// What the translated skill page `html` reads as, for the skill `slug`.
pub open spec fn skill_translation_read(r: Result<CodexSkill, Error>, html: Seq<char>, slug: Seq<char>) -> bool {
    match skill_translation_parts(html) {
        Err(m) => r matches Err(e) && e.kind matches Kind::HTMLParsingError(x) && x@ == m && e.context@.len() == 0,
        Ok(parts) => exists|p: SkillPage| #[trigger] skill_page_matches(p, parts) && skill_translation_outcome(r, p, slug),
    }
}

/// Read the translated skill page; `None` where reading it panics.
fn read_html_codex_skill_translation(contents: &str, slug: String) -> (r: Option<Result<CodexSkill, Error>>)
    ensures
        r is None <==> !skill_translation_ok(contents@),
        r matches Some(res) ==> skill_translation_read(res, contents@, slug@),
{
    proof {
        reveal_strlit(":root");
        reveal_strlit(".herotext");
        reveal_strlit(".codex-page");
        reveal_strlit(".codex-page-icon");
        reveal_strlit(".codex-page-description");
        reveal_strlit(".codex-page-meta");
        reveal_strlit("h4");
        reveal_strlit("html");
        reveal_strlit("page");
    }
    let name = match first_selected(select_nodes(contents, ":root", ".herotext")) {
        Some(n) => n,
        None => {
            return Some(Err(not_found_error(".herotext", "html")));
        },
    };
    if first_selected(select_nodes(contents, ":root", ".codex-page")).is_none() {
        return Some(Err(not_found_error(".codex-page", "html")));
    }
    let icon = match first_selected(select_nodes(contents, ".codex-page", ".codex-page-icon")) {
        Some(n) => n,
        None => {
            return Some(Err(not_found_error(".codex-page-icon", "page")));
        },
    };
    let description = match first_selected(select_nodes(contents, ".codex-page", ".codex-page-description")) {
        Some(n) => n,
        None => {
            return Some(Err(not_found_error(".codex-page-description", "page")));
        },
    };
    let tier = match first_selected(select_nodes(contents, ".codex-page", ".codex-page-meta")) {
        Some(n) => n,
        None => {
            return Some(Err(not_found_error(".codex-page-meta", "page")));
        },
    };
    let headings = match select_contexts(contents, ".codex-page", "h4") {
        ContextSelection::Found(v) => v,
        _ => {
            return Some(Err(not_found_error("h4", "page")));
        },
    };
    let ghost parts = match skill_translation_parts(contents@) {
        Ok(p) => p,
        Err(_) => vstd::pervasive::arbitrary(),
    };
    let mut ss: Vec<SkillSectionNode> = Vec::new();
    let mut i: usize = 0;
    while i < headings.len()
        invariant
            i <= headings@.len(),
            ss@.len() == i,
            forall|k: int| 0 <= k < i ==> #[trigger] skill_section_matches(ss@[k], headings@[k]@),
        decreases headings.len() - i,
    {
        ss.push(skill_section_of(&headings[i]));
        i = i + 1;
    }
    let page = SkillPage {
        name: {
            let t = text_of(&name);
            to_owned(trim(t.as_str()))
        },
        icon: img_node_of(&icon),
        description: {
            let t = text_of(&description);
            to_owned(trim(t.as_str()))
        },
        tier_text: {
            let t = text_of(&tier);
            to_owned(trim(t.as_str()))
        },
        tags: Vec::new(),
        sections: ss,
    };
    proof {
        assert(parts.headings == headings@.map_values(|c: NodeContext| c@));
        assert(page.tags@ =~= Seq::<String>::empty());
        assert(skill_page_matches(page, parts));
    }
    if !img_fits(&page.icon) {
        return None;
    }
    proof {
        assert forall|q: SkillPage| #[trigger] skill_page_matches(q, parts) implies img_ok(q.icon) by {}
    }
    let ghost slug_view = slug@;
    let r = read_translation_page(&page, slug);
    proof {
        assert(skill_page_matches(page, parts) && skill_translation_outcome(r, page, slug_view));
    }
    Some(r)
}

/// Read a translated skill page: the effects of its sections, all as caused, its icon
/// and its tier.
fn read_translation_page(page: &SkillPage, slug: String) -> (r: Result<CodexSkill, Error>)
    requires
        img_ok(page.icon),
    ensures
        skill_translation_outcome(r, *page, slug@),
{
    let mut causes: Vec<SkillStatusEffect> = Vec::new();
    let mut i: usize = 0;
    assert(page.sections@.take(0) =~= Seq::<SkillSectionNode>::empty());
    assert(effects_view(causes@) =~= Seq::empty());
    while i < page.sections.len()
        invariant
            i <= page.sections@.len(),
            sections_effects(page.sections@.take(i as int)) == Ok::<Seq<(Seq<char>, int)>, Failure>(effects_view(causes@)),
        decreases page.sections.len() - i,
    {
        proof {
            assert(page.sections@.take(i + 1).drop_last() =~= page.sections@.take(i as int));
        }
        match parse_status_effects(&page.sections[i].divs) {
            Ok(mut es) => {
                let ghost before = effects_view(causes@);
                let ghost add = effects_view(es@);
                causes.append(&mut es);
                assert(effects_view(causes@) =~= before + add);
            },
            Err(e) => {
                proof {
                    lemma_sections_effects_err_sticks(page.sections@, i + 1, page.sections@.len() as int);
                    assert(page.sections@.take(page.sections@.len() as int) =~= page.sections@);
                }
                return Err(e);
            },
        }
        i = i + 1;
    }
    assert(page.sections@.take(page.sections@.len() as int) =~= page.sections@);
    let icon = match icon_of(&page.icon, "Failed to find \"img\" in icon-node", "Failed to find src in img icon node") {
        Ok(p) => p,
        Err(e) => {
            return Err(e);
        },
    };
    let tier = match parse_tier(page.tier_text.as_str()) {
        Ok(t) => t,
        Err(e) => {
            return Err(e);
        },
    };
    Ok(
        CodexSkill {
            name: to_owned(page.name.as_str()),
            slug,
            icon,
            description: to_owned(page.description.as_str()),
            tier,
            tags: Vec::new(),
            causes,
            gives: Vec::new(),
        },
    )
}

/// Once the effects of a section fail, the sections that follow do not change the
/// failure.
proof fn lemma_sections_effects_err_sticks(sections: Seq<SkillSectionNode>, k: int, n: int)
    requires
        0 < k <= n <= sections.len(),
        sections_effects(sections.take(k)) is Err,
    ensures
        sections_effects(sections.take(n)) == sections_effects(sections.take(k)),
    decreases n - k,
{
    if k < n {
        lemma_sections_effects_err_sticks(sections, k, n - 1);
        assert(sections.take(n).drop_last() =~= sections.take(n - 1));
    }
}

/// Parses a skill page from `playorna.com` and returns the details about the given skill.
/// The page needs not be in English and only some of the fields are selected: the tags
/// are left out, and the effects of every section, caused or given, are put into `causes`.
pub fn parse_html_codex_skill_translation(contents: &str, slug: String) -> (r: Result<CodexSkill, Error>)
    requires
        skill_translation_ok(contents@),
    ensures
        skill_translation_read(r, contents@, slug@),
{
    match read_html_codex_skill_translation(contents, slug) {
        Some(r) => r,
        None => Err(html_error(String::new())),
    }
}

/// Parses a translated skill page from `playorna.com`, or `None` where reading it
/// panics (see [`skill_translation_ok`]).
pub fn try_parse_html_codex_skill_translation(contents: &str, slug: String) -> (r: Option<
    Result<CodexSkill, Error>,
>)
    ensures
        r is Some <==> skill_translation_ok(contents@),
        r matches Some(res) ==> skill_translation_read(res, contents@, slug@),
{
    let copy = to_owned(slug.as_str());
    match read_html_codex_skill_translation(contents, copy) {
        None => None,
        Some(_) => Some(parse_html_codex_skill_translation(contents, slug)),
    }
}

} // verus!
