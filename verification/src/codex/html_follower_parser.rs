//! The pages of followers on the codex.

use vstd::prelude::*;

use crate::codex::follower::{Ability, Follower};
use crate::codex::html_item_lists::{icon_of, img_ok, spec_icon, unknown_tag_message, ImgNode, SiblingNode};
use crate::codex::html_item_parser::{parse_tier_of, spec_parse_tier_of};
use crate::codex::item_page::kind_fails;
use crate::text::concat2;
use crate::error::{fails_with, html_error, is_html_error, Error, Failure};
use crate::misc::{spec_truncate_until, truncate_str_until};
use crate::text::{
    spec_split, spec_trim, sort_strings, split_str, str_eq, string_views, strs_view, texts_sorted,
    to_owned, trim,
};

pub use crate::codex::page_html::{
    parse_html_codex_follower, parse_html_codex_follower_translation, try_parse_html_codex_follower,
    try_parse_html_codex_follower_translation,
};

verus! {

/// Parse the tier text of a follower's page (`Tier: ★<n>`).
pub fn parse_tier(text: &str) -> (r: Result<u8, Error>)
    ensures
        match r {
            Ok(t) => spec_parse_tier_of("skill"@, spec_trim(text@)) == Ok::<int, Failure>(t as int),
            Err(e) => fails_with(e, spec_parse_tier_of("skill"@, spec_trim(text@))),
        },
{
    parse_tier_of("skill", trim(text))
}

/// A `codex-page-description` element of a follower's page: its text, trimmed, and
/// the words of its attribute values.
#[derive(Debug, Clone)]
pub struct DescriptionElement {
    /// The text of the element, trimmed.
    pub text: String,
    /// The words of the attribute values of the element (split at spaces).
    pub attribute_words: Vec<String>,
}

/// The contents of the `codex-page-description` nodes.
#[derive(Debug)]
pub struct DescriptionNode {
    /// The description of the follower.
    pub description: String,
    /// The events in which the follower appears.
    pub events: Vec<String>,
    /// The rarity of the follower.
    pub rarity: String,
}

/// Whether the element highlights the events of the follower.
pub open spec fn is_highlight(e: DescriptionElement) -> bool {
    exists|i: int| 0 <= i < e.attribute_words@.len() && #[trigger] e.attribute_words@[i]@
        == "codex-page-description-highlight"@
}

/// The events an event text names: what follows its first `:`, trimmed, split at
/// `/`, each trimmed.
pub open spec fn events_of_text(text: Seq<char>) -> Seq<Seq<char>> {
    match spec_truncate_until(text, ':') {
        Some(t) => spec_split(spec_trim(t), "/"@).map_values(|e: Seq<char>| spec_trim(e)),
        None => Seq::empty(),
    }
}

/// Whether the second element holds the events: it is highlighted and has a `:`.
pub open spec fn has_event_node(nodes: Seq<DescriptionElement>) -> bool {
    nodes.len() > 1 && is_highlight(nodes[1]) && spec_truncate_until(nodes[1].text@, ':') is Some
}

/// The description, the events (in any order) and the rarity that the elements give,
/// or the message of the error.
pub open spec fn spec_description(nodes: Seq<DescriptionElement>) -> Result<
    (Seq<char>, Seq<Seq<char>>, Seq<char>),
    Seq<char>,
> {
    if nodes.len() == 0 {
        Err("No description node when parsing follower"@)
    } else {
        let events = if has_event_node(nodes) {
            events_of_text(nodes[1].text@)
        } else {
            Seq::empty()
        };
        let r: int = if has_event_node(nodes) {
            2
        } else {
            1
        };
        if nodes.len() <= r {
            Err("Failed to find rarity node"@)
        } else {
            match spec_truncate_until(nodes[r].text@, ':') {
                Some(t) => Ok((nodes[0].text@, events, spec_trim(t))),
                None => Err("Failed to find ':' in rarity node"@),
            }
        }
    }
}

/// The description of a follower is the text of its first description element and
/// its rarity what follows the `:` of the last, trimmed; a highlighted element with a
/// `:` between them lists its events, and without one it has none.
pub proof fn law_description_parts(d: DescriptionElement, e: DescriptionElement, rarity: DescriptionElement, t: Seq<char>)
    requires
        spec_truncate_until(rarity.text@, ':') == Some(t),
    ensures
        !is_highlight(rarity) ==> spec_description(seq![d, rarity]) == Ok::<
            (Seq<char>, Seq<Seq<char>>, Seq<char>),
            Seq<char>,
        >((d.text@, Seq::empty(), spec_trim(t))),
        is_highlight(e) && spec_truncate_until(e.text@, ':') is Some ==> spec_description(seq![d, e, rarity])
            == Ok::<(Seq<char>, Seq<Seq<char>>, Seq<char>), Seq<char>>(
            (d.text@, events_of_text(e.text@), spec_trim(t)),
        ),
{
    let two = seq![d, rarity];
    assert(two[0] == d && two[1] == rarity);
    let three = seq![d, e, rarity];
    assert(three[0] == d && three[1] == e && three[2] == rarity);
}

/// Whether one of the words is the highlight class.
fn has_highlight(words: &Vec<String>) -> (r: bool)
    ensures
        r == exists|i: int| 0 <= i < words@.len() && #[trigger] words@[i]@
            == "codex-page-description-highlight"@,
{
    let mut i: usize = 0;
    while i < words.len()
        invariant
            i <= words@.len(),
            forall|k: int| 0 <= k < i ==> #[trigger] words@[k]@ != "codex-page-description-highlight"@,
        decreases words.len() - i,
    {
        if str_eq(words[i].as_str(), "codex-page-description-highlight") {
            return true;
        }
        i = i + 1;
    }
    false
}

/// The events an event text names, trimmed, sorted.
fn parse_events(text: &str) -> (r: Vec<String>)
    requires
        spec_truncate_until(text@, ':') is Some,
    ensures
        texts_sorted(string_views(r@)),
        string_views(r@).to_multiset() == events_of_text(text@).to_multiset(),
{
    proof {
        reveal_strlit("/");
    }
    let after = match truncate_str_until(text, ':') {
        Some(t) => t,
        None => "",
    };
    let parts = split_str(trim(after), "/");
    let ghost all = spec_split(spec_trim(after@), "/"@);
    let mut events: Vec<String> = Vec::new();
    let mut i: usize = 0;
    while i < parts.len()
        invariant
            i <= parts@.len(),
            strs_view(parts@) == all,
            string_views(events@) == all.take(i as int).map_values(|e: Seq<char>| spec_trim(e)),
        decreases parts.len() - i,
    {
        let ghost prev = events@;
        events.push(to_owned(trim(parts[i])));
        assert(all.take(i + 1).map_values(|e: Seq<char>| spec_trim(e)) =~= all.take(i as int).map_values(
            |e: Seq<char>| spec_trim(e),
        ).push(spec_trim(parts@[i as int]@)));
        assert(string_views(events@) =~= string_views(prev).push(spec_trim(parts@[i as int]@)));
        i = i + 1;
    }
    assert(all.take(all.len() as int) =~= all);
    sort_strings(events)
}

/// Parse the events, family and rarity of the follower: the first element is the
/// description; the next, when highlighted and holding a `:`, lists the events
/// after it (separated by `/`), which come out sorted; the next holds the rarity
/// after its `:`.
pub fn parse_description_nodes(nodes: &Vec<DescriptionElement>) -> (r: Result<DescriptionNode, Error>)
    ensures
        match spec_description(nodes@) {
            Ok((d, es, rarity)) => r matches Ok(n) && n.description@ == d && n.rarity@ == rarity
                && texts_sorted(string_views(n.events@)) && string_views(n.events@).to_multiset()
                == es.to_multiset(),
            Err(m) => r matches Err(e) && is_html_error(e, m),
        },
{
    if nodes.len() == 0 {
        return Err(html_error(to_owned("No description node when parsing follower")));
    }
    let description = to_owned(nodes[0].text.as_str());
    let mut events: Vec<String> = Vec::new();
    let mut next: usize = 1;
    if nodes.len() > 1 && has_highlight(&nodes[1].attribute_words) {
        match truncate_str_until(nodes[1].text.as_str(), ':') {
            Some(_) => {
                events = parse_events(nodes[1].text.as_str());
                next = 2;
            },
            None => {},
        }
    }
    proof {
        if !has_event_node(nodes@) {
            assert(string_views(events@) =~= Seq::<Seq<char>>::empty());
        }
    }
    if nodes.len() <= next {
        return Err(html_error(to_owned("Failed to find rarity node")));
    }
    match truncate_str_until(nodes[next].text.as_str(), ':') {
        Some(t) => Ok(DescriptionNode { description, events, rarity: to_owned(trim(t)) }),
        None => Err(html_error(to_owned("Failed to find ':' in rarity node"))),
    }
}

/// The name, uri and icon of an ability's `a` element: its `href` and the `src` of its
/// image as they are.
pub open spec fn spec_ability_anchor(text: Seq<char>, href: Option<String>, img: ImgNode) -> Result<
    (Seq<char>, Seq<char>, Seq<char>),
    Failure,
> {
    match href {
        None => Err(Failure::Html("Failed to find href in monster <a>"@)),
        Some(h) => match img {
            ImgNode::Missing => Err(Failure::Html("Failed to find \"img\" in monster <a>"@)),
            ImgNode::NoSrc => Err(Failure::Html("Failed to find src in monster <a> img"@)),
            ImgNode::Src(src) => Ok((text, h@, src@)),
        },
    }
}

/// The abilities of the `div`s up to the end of the list, or why the first that fails
/// does not give one.
pub open spec fn spec_abilities(nodes: Seq<SiblingNode>, i: int) -> Result<Seq<(Seq<char>, Seq<char>, Seq<char>)>, Failure>
    decreases nodes.len() - i,
{
    if i < 0 || i >= nodes.len() {
        Ok(Seq::empty())
    } else {
        match nodes[i] {
            SiblingNode::End => Ok(Seq::empty()),
            SiblingNode::Other { tag } => Err(Failure::Html(unknown_tag_message(tag@))),
            SiblingNode::Div { anchor, .. } => match anchor {
                None => Err(Failure::Html("Failed to find \"a\" in div drop or ability"@)),
                Some(a) => match spec_ability_anchor(a.text@, a.href, a.img) {
                    Err(f) => Err(f),
                    Ok(x) => match spec_abilities(nodes, i + 1) {
                        Err(f) => Err(f),
                        Ok(rest) => Ok(seq![x] + rest),
                    },
                },
            },
        }
    }
}

/// The name, uri and icon of each ability.
pub open spec fn abilities_view(v: Seq<Ability>) -> Seq<(Seq<char>, Seq<char>, Seq<char>)> {
    v.map_values(|a: Ability| (a.name@, a.uri@, a.icon@))
}

/// Parse the abilities of a follower from the elements after their heading.
pub fn parse_abilities(nodes: &Vec<SiblingNode>) -> (r: Result<Vec<Ability>, Error>)
    ensures
        match r {
            Ok(v) => spec_abilities(nodes@, 0) == Ok::<Seq<(Seq<char>, Seq<char>, Seq<char>)>, Failure>(
                abilities_view(v@),
            ),
            Err(e) => fails_with(e, spec_abilities(nodes@, 0)),
        },
{
    let mut acc: Vec<Ability> = Vec::new();
    let mut i: usize = 0;
    while i < nodes.len()
        invariant
            i <= nodes@.len(),
            spec_abilities(nodes@, 0) == match spec_abilities(nodes@, i as int) {
                Ok(rest) => Ok(abilities_view(acc@) + rest),
                Err(f) => Err(f),
            },
        decreases nodes.len() - i,
    {
        let ghost views = abilities_view(acc@);
        assert(views + Seq::<(Seq<char>, Seq<char>, Seq<char>)>::empty() =~= views);
        match &nodes[i] {
            SiblingNode::End => {
                return Ok(acc);
            },
            SiblingNode::Other { tag } => {
                return Err(html_error(concat2("Unknown node tag when parsing drop or ability: ", tag.as_str())));
            },
            SiblingNode::Div { anchor, .. } => match anchor {
                None => {
                    return Err(html_error(to_owned("Failed to find \"a\" in div drop or ability")));
                },
                Some(a) => {
                    let uri = match &a.href {
                        Some(h) => to_owned(h.as_str()),
                        None => {
                            return Err(html_error(to_owned("Failed to find href in monster <a>")));
                        },
                    };
                    let icon = match &a.img {
                        ImgNode::Missing => {
                            return Err(html_error(to_owned("Failed to find \"img\" in monster <a>")));
                        },
                        ImgNode::NoSrc => {
                            return Err(html_error(to_owned("Failed to find src in monster <a> img")));
                        },
                        ImgNode::Src(src) => to_owned(src.as_str()),
                    };
                    let ghost xv = (a.text@, uri@, icon@);
                    acc.push(Ability { name: to_owned(a.text.as_str()), uri, icon });
                    proof {
                        let nv = abilities_view(acc@);
                        assert(nv =~= views.push(xv));
                        match spec_abilities(nodes@, i + 1) {
                            Ok(rest) => {
                                assert(views + (seq![xv] + rest) =~= nv + rest);
                            },
                            Err(_) => {},
                        }
                    }
                },
            },
        }
        i = i + 1;
    }
    assert(abilities_view(acc@) + Seq::<(Seq<char>, Seq<char>, Seq<char>)>::empty() =~= abilities_view(acc@));
    Ok(acc)
}

/// An `h4` heading of a follower's page and the elements that follow it.
#[derive(Debug, Clone)]
pub struct FollowerSectionNode {
    /// The text of the heading.
    pub heading: String,
    /// The elements after the heading, in order.
    pub siblings: Vec<SiblingNode>,
}

/// A follower page of the codex, as read from its HTML.
#[derive(Debug)]
pub struct FollowerPage {
    /// The text of the page's `.herotext`, trimmed.
    pub name: String,
    /// The image of the page's `.codex-page-icon`.
    pub icon: ImgNode,
    /// The `.codex-page-description` elements, in order.
    pub descriptions: Vec<DescriptionElement>,
    /// The text of the page's first `.codex-page-meta`, trimmed.
    pub tier_text: String,
    /// The `h4` headings of the page, in order.
    pub sections: Vec<FollowerSectionNode>,
}

/// The abilities the sections give (each `Abilities:` section replaces those read
/// before), or why the first that fails does not give them.
pub open spec fn sections_abilities(sections: Seq<FollowerSectionNode>) -> Result<Seq<(Seq<char>, Seq<char>, Seq<char>)>, Failure>
    decreases sections.len(),
{
    if sections.len() == 0 {
        Ok(Seq::empty())
    } else {
        match sections_abilities(sections.drop_last()) {
            Err(f) => Err(f),
            Ok(_) => spec_abilities(sections.last().siblings@, 0),
        }
    }
}

/// Reading the follower page does not panic: its only headings are `Abilities:` and
/// its icon is an absolute URL.
pub open spec fn follower_page_ok(page: FollowerPage) -> bool {
    &&& forall|i: int| 0 <= i < page.sections@.len() ==> spec_trim(#[trigger] page.sections@[i].heading@) == "Abilities:"@
    &&& img_ok(page.icon)
}

/// Once a section fails, the sections that follow do not change the failure.
proof fn lemma_abilities_err_sticks(sections: Seq<FollowerSectionNode>, k: int, n: int)
    requires
        0 < k <= n <= sections.len(),
        sections_abilities(sections.take(k)) is Err,
    ensures
        sections_abilities(sections.take(n)) == sections_abilities(sections.take(k)),
    decreases n - k,
{
    if k < n {
        lemma_abilities_err_sticks(sections, k, n - 1);
        assert(sections.take(n).drop_last() =~= sections.take(n - 1));
    }
}

/// What a follower page holds, read: the description nodes, the abilities, the
/// icon and the tier, in that order; or the failure of the first part that fails.
pub open spec fn spec_follower_page(page: FollowerPage) -> Result<
    ((Seq<char>, Seq<Seq<char>>, Seq<char>), Seq<(Seq<char>, Seq<char>, Seq<char>)>, Seq<char>, int),
    Failure,
> {
    match spec_description(page.descriptions@) {
        Err(m) => Err(Failure::Html(m)),
        Ok(d) => match sections_abilities(page.sections@) {
            Err(f) => Err(f),
            Ok(abilities) => match spec_icon(
                page.icon,
                "Failed to find \"img\" in icon-node"@,
                "Failed to find src in img icon node"@,
            ) {
                Err(f) => Err(f),
                Ok(icon) => match spec_parse_tier_of("skill"@, spec_trim(page.tier_text@)) {
                    Err(f) => Err(f),
                    Ok(tier) => Ok((d, abilities, icon, tier)),
                },
            },
        },
    }
}

/// Parse a follower page from `playorna.com` for details about a follower: its events
/// come out sorted.
pub fn parse_codex_follower(page: &FollowerPage, slug: String) -> (r: Result<Follower, Error>)
    requires
        follower_page_ok(*page),
    ensures
        match spec_follower_page(*page) {
            Ok(((d, es, rarity), abilities, icon, tier)) => r matches Ok(f) && f.name@ == page.name@
                && f.slug@ == slug@ && f.icon@ == icon && f.description@ == d && f.rarity@ == rarity
                && f.tier == tier && texts_sorted(string_views(f.events@)) && string_views(f.events@).to_multiset()
                == es.to_multiset() && abilities_view(f.abilities@) == abilities,
            Err(fail) => r matches Err(e) && kind_fails(e.kind, fail) && e.context@.len() == 0,
        },
{
    let description = match parse_description_nodes(&page.descriptions) {
        Ok(d) => d,
        Err(e) => {
            return Err(e);
        },
    };
    let mut abilities: Vec<Ability> = Vec::new();
    assert(abilities_view(abilities@) =~= Seq::empty());
    assert(page.sections@.take(0) =~= Seq::empty());
    let mut i: usize = 0;
    while i < page.sections.len()
        invariant
            i <= page.sections@.len(),
            spec_description(page.descriptions@) is Ok,
            sections_abilities(page.sections@.take(i as int)) == Ok::<Seq<(Seq<char>, Seq<char>, Seq<char>)>, Failure>(
                abilities_view(abilities@),
            ),
        decreases page.sections.len() - i,
    {
        proof {
            assert(page.sections@.take(i + 1).drop_last() =~= page.sections@.take(i as int));
            assert(page.sections@.take(i + 1).last() == page.sections@[i as int]);
        }
        match parse_abilities(&page.sections[i].siblings) {
            Ok(v) => {
                abilities = v;
            },
            Err(e) => {
                proof {
                    lemma_abilities_err_sticks(page.sections@, i + 1, page.sections@.len() as int);
                    assert(page.sections@.take(page.sections@.len() as int) =~= page.sections@);
                }
                return Err(e);
            },
        }
        i = i + 1;
    }
    assert(page.sections@.take(page.sections@.len() as int) =~= page.sections@);
    let icon = match icon_of(&page.icon, "Failed to find \"img\" in icon-node", "Failed to find src in img icon node") {
        Ok(i) => i,
        Err(e) => {
            return Err(e);
        },
    };
    let tier = match parse_tier(page.tier_text.as_str()) {
        Ok(t) => t,
        Err(e) => {
            return Err(e);
        },
    };
    let DescriptionNode { description, events, rarity } = description;
    Ok(
        Follower {
            name: to_owned(page.name.as_str()),
            slug,
            icon,
            description,
            events,
            rarity,
            tier,
            abilities,
        },
    )
}

} // verus!
