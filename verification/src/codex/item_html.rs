//! An item page of the codex, read from its HTML: the parts of the page that
//! `kuchiki` selects, turned into the [`ItemPage`] that the page reader takes.

use vstd::prelude::*;

use crate::codex::html_item_lists::{img_ok, siblings_ok, AnchorNode, ImgNode, SiblingNode};
use crate::codex::html_item_parser::{stats_fit, stats_ok, string_seq_view, AbilityNode, MetaNode};
use crate::codex::item::Item;
use crate::codex::item_page::{item_of_page, kind_fails, page_ok, parse_codex_item, spec_item_page, ItemPage, ItemSectionNode};
use crate::error::{html_error, Error, Kind};
use crate::text::{concat2, concat3, spec_trim, to_owned, trim};
use crate::utils::dom::{
    attr_value, attribute_of, class_ranges, events_text, events_view, first_open, first_open_of, first_tag_range,
    first_tagged, first_tagged_from, first_with_tag, html_select, html_select_context, page_scope, select_contexts,
    select_nodes, text_of, text_of_range, walks_view, with_class, ContextSelection, ContextSelectionView,
    EventView, HtmlEvent, NodeContext, NodeContextView, Selection, SelectionView,
};
use crate::utils::html::{checked_icon_url_to_path, icon_path, url_path};

verus! {

/// The parts of an item page that reading it selects.
pub struct ItemPageParts {
    /// The page's `.herotext`.
    pub name: Seq<EventView>,
    /// The `.codex-page-icon` of the `.codex-page`.
    pub icon: Seq<EventView>,
    /// The `.codex-page-description` nodes of the `.codex-page`.
    pub descriptions: Seq<NodeContextView>,
    /// The `.codex-page-meta` nodes of the `.codex-page`.
    pub meta: Seq<NodeContextView>,
    /// The `.codex-stat` nodes of the `.codex-stats` of the `.codex-page`, when it has one.
    pub stats: Option<Seq<Seq<EventView>>>,
    /// The `.codex-page-tag` nodes of the `.codex-page`.
    pub tags: Seq<Seq<EventView>>,
    /// The `h4` headings of the `.codex-page`.
    pub headings: Seq<NodeContextView>,
}

/// The message of the error when a node `from` holds nothing that `selector` matches.
pub open spec fn not_found_message(selector: Seq<char>, from: Seq<char>) -> Seq<char> {
    "Failed to find \""@ + selector + "\" in "@ + from
}

/// The first node of the page that `selector` matches within `scope`.
pub open spec fn first_found(html: Seq<char>, scope: Seq<char>, selector: Seq<char>) -> Option<Seq<EventView>> {
    match html_select(html, scope, selector) {
        SelectionView::Found(v) => if v.len() > 0 {
            Some(v[0])
        } else {
            None
        },
        _ => None,
    }
}

/// The nodes of the `.codex-page` that `selector` matches, with what surrounds them.
pub open spec fn page_contexts(html: Seq<char>, selector: Seq<char>) -> Option<Seq<NodeContextView>> {
    match html_select_context(html, ".codex-page"@, selector) {
        ContextSelectionView::Found(v) => Some(v),
        _ => None,
    }
}

/// The parts of the item page `html`, or the message of the error for the first part
/// that is missing.
pub open spec fn item_page_parts(html: Seq<char>) -> Result<ItemPageParts, Seq<char>> {
    match first_found(html, page_scope(), ".herotext"@) {
        None => Err(not_found_message(".herotext"@, "html"@)),
        Some(name) => match first_found(html, page_scope(), ".codex-page"@) {
            None => Err(not_found_message(".codex-page"@, "html"@)),
            Some(_) => match first_found(html, ".codex-page"@, ".codex-page-icon"@) {
                None => Err(not_found_message(".codex-page-icon"@, "page"@)),
                Some(icon) => match page_contexts(html, ".codex-page-description"@) {
                    None => Err(not_found_message(".codex-page-description"@, "page"@)),
                    Some(descriptions) => match page_contexts(html, ".codex-page-meta"@) {
                        None => Err(not_found_message(".codex-page-meta"@, "page"@)),
                        Some(meta) => match html_select(html, ".codex-page"@, ".codex-stats"@) {
                            SelectionView::Found(s) => match html_select(html, ".codex-page"@, ".codex-page-tag"@) {
                                SelectionView::Found(tags) => match page_contexts(html, "h4"@) {
                                    None => Err(not_found_message("h4"@, "page"@)),
                                    Some(headings) => Ok(
                                        ItemPageParts {
                                            name,
                                            icon,
                                            descriptions,
                                            meta,
                                            stats: if s.len() > 0 {
                                                Some(with_class(s[0], "codex-stat"@))
                                            } else {
                                                None
                                            },
                                            tags,
                                            headings,
                                        },
                                    ),
                                },
                                _ => Err(not_found_message(".codex-page-tag"@, "page"@)),
                            },
                            _ => Err(not_found_message(".codex-stats"@, "page"@)),
                        },
                    },
                },
            },
        },
    }
}

/// The image `img` is the first `img` element of the walk `events`: missing, without
/// a `src`, or its `src`.
pub open spec fn img_matches(img: ImgNode, events: Seq<EventView>) -> bool {
    match first_tagged_from(events, "img"@, 0) {
        None => img is Missing,
        Some(a) => match attr_value(a, "src"@) {
            Some(s) => img matches ImgNode::Src(x) && x@ == s,
            None => img is NoSrc,
        },
    }
}

/// The anchor is the first `a` element of the walk: its text, trimmed, its `href` and
/// its image.
pub open spec fn anchor_matches(anchor: Option<AnchorNode>, events: Seq<EventView>) -> bool {
    match first_with_tag(events, "a"@) {
        None => anchor is None,
        Some(n) => anchor matches Some(x) && x.text@ == spec_trim(events_text(n)) && img_matches(x.img, n) && match first_open(n) {
            Some((_, a)) => match attr_value(a, "href"@) {
                Some(h) => x.href matches Some(y) && y@ == h,
                None => x.href is None,
            },
            None => false,
        },
    }
}

/// The sibling node is the element the walk goes through: the end of a list for an
/// `h4` or `hr`, a `div` with its text, image and anchor, or another element.
pub open spec fn sibling_matches(s: SiblingNode, events: Seq<EventView>) -> bool {
    match first_open(events) {
        Some((t, _)) => if t == "h4"@ || t == "hr"@ {
            s is End
        } else if t == "div"@ {
            s matches SiblingNode::Div { text, img, anchor } && text@ == spec_trim(events_text(events))
                && img_matches(img, events) && anchor_matches(anchor, events)
        } else {
            s matches SiblingNode::Other { tag } && tag@ == t
        },
        None => false,
    }
}

/// The walks of `v` that go through elements, in order.
pub open spec fn element_walks(v: Seq<Seq<EventView>>) -> Seq<Seq<EventView>>
    decreases v.len(),
{
    if v.len() == 0 {
        Seq::empty()
    } else if first_open(v.last()) is Some {
        element_walks(v.drop_last()).push(v.last())
    } else {
        element_walks(v.drop_last())
    }
}

/// The section is the heading `h`: its text, and the elements that follow it.
pub open spec fn section_matches(sec: ItemSectionNode, h: NodeContextView) -> bool {
    let es = element_walks(h.following);
    &&& sec.heading@ == events_text(h.events)
    &&& sec.siblings@.len() == es.len()
    &&& forall|i: int| 0 <= i < es.len() ==> #[trigger] sibling_matches(sec.siblings@[i], es[i])
}

/// The ability node is the description `d`: its text, trimmed, and the text, trimmed,
/// of the node two before it.
pub open spec fn ability_matches(a: AbilityNode, d: NodeContextView) -> bool {
    &&& a.text@ == spec_trim(events_text(d.events))
    &&& if d.preceding.len() >= 2 {
        a.previous_text matches Some(p) && p@ == spec_trim(events_text(d.preceding[1]))
    } else {
        a.previous_text is None
    }
}

/// The meta node is the node `m`: its text, its HTML, and the text of its first
/// `.exotic` node.
pub open spec fn meta_matches(n: MetaNode, m: NodeContextView) -> bool {
    let ex = with_class(m.events, "exotic"@);
    &&& n.text@ == events_text(m.events)
    &&& n.html@ == m.html
    &&& if ex.len() > 0 {
        n.exotic_text matches Some(x) && x@ == events_text(ex[0])
    } else {
        n.exotic_text is None
    }
}

/// The item page `p` holds the parts of the page.
pub open spec fn page_matches(p: ItemPage, parts: ItemPageParts) -> bool {
    &&& p.name@ == spec_trim(events_text(parts.name))
    &&& img_matches(p.icon, parts.icon)
    &&& p.descriptions@.len() == parts.descriptions.len()
    &&& forall|i: int| 0 <= i < parts.descriptions.len() ==> #[trigger] ability_matches(p.descriptions@[i], parts.descriptions[i])
    &&& p.meta@.len() == parts.meta.len()
    &&& forall|i: int| 0 <= i < parts.meta.len() ==> #[trigger] meta_matches(p.meta@[i], parts.meta[i])
    &&& match parts.stats {
        None => p.stats is None,
        Some(v) => p.stats matches Some(t) && t@.len() == v.len() && forall|i: int|
            0 <= i < v.len() ==> #[trigger] t@[i]@ == spec_trim(events_text(v[i])),
    }
    &&& p.tags@.len() == parts.tags.len()
    &&& forall|i: int| 0 <= i < parts.tags.len() ==> #[trigger] p.tags@[i]@ == spec_trim(events_text(parts.tags[i]))
    &&& p.sections@.len() == parts.headings.len()
    &&& forall|i: int| 0 <= i < parts.headings.len() ==> #[trigger] section_matches(p.sections@[i], parts.headings[i])
}

/// Reading the item page `html` does not panic: any page that holds its parts can be
/// read (its stats fit their types and its images have absolute URLs).
pub open spec fn item_html_ok(html: Seq<char>) -> bool {
    item_page_parts(html) matches Ok(parts) ==> forall|p: ItemPage| #[trigger] page_matches(p, parts) ==> page_ok(p)
}

/// What reading the page `p` of the item `slug` gives.
pub open spec fn item_outcome(r: Result<Item, Error>, p: ItemPage, slug: Seq<char>) -> bool {
    match spec_item_page(p) {
        Ok(v) => r matches Ok(item) && item_of_page(item, slug, v),
        Err(f) => r matches Err(e) && kind_fails(e.kind, f) && e.context@.len() == 1 && e.context@[0]@ == "parsing "@
            + slug,
    }
}

/// What the parts of the item page give, read as the page of the item `slug`.
pub open spec fn item_parts_read(r: Result<Item, Error>, parts: ItemPageParts, slug: Seq<char>) -> bool {
    exists|p: ItemPage| #[trigger] page_matches(p, parts) && item_outcome(r, p, slug)
}

/// What the item page `html` reads as, for the item `slug`: the error for a missing
/// part, or what its parts give. Each error has `parsing {slug}` as its context.
pub open spec fn item_html_read(r: Result<Item, Error>, html: Seq<char>, slug: Seq<char>) -> bool {
    match item_page_parts(html) {
        Err(m) => r matches Err(e) && e.kind matches Kind::HTMLParsingError(x) && x@ == m && e.context@.len() == 1
            && e.context@[0]@ == "parsing "@ + slug,
        Ok(parts) => item_parts_read(r, parts, slug),
    }
}

/// The first image of the walk.
pub(crate) fn img_node_of(events: &Vec<HtmlEvent>) -> (r: ImgNode)
    ensures
        img_matches(r, events_view(events@)),
{
    proof {
        reveal_strlit("img");
        reveal_strlit("src");
    }
    match first_tagged(events, "img") {
        None => ImgNode::Missing,
        Some(a) => match attribute_of(a, "src") {
            Some(s) => ImgNode::Src(s),
            None => ImgNode::NoSrc,
        },
    }
}

/// A copy of the events from `start` to `end`.
pub(crate) fn events_range(events: &Vec<HtmlEvent>, start: usize, end: usize) -> (r: Vec<HtmlEvent>)
    requires
        start <= end <= events@.len(),
    ensures
        events_view(r@) == events_view(events@).subrange(start as int, end as int),
{
    let mut r: Vec<HtmlEvent> = Vec::new();
    let mut i = start;
    while i < end
        invariant
            start <= i <= end,
            end <= events@.len(),
            events_view(r@) == events_view(events@).subrange(start as int, i as int),
        decreases end - i,
    {
        let e = copy_event(&events[i]);
        let ghost prev = r@;
        r.push(e);
        assert(events_view(r@) =~= events_view(prev).push(e@));
        assert(events_view(events@).subrange(start as int, i + 1) =~= events_view(events@).subrange(
            start as int,
            i as int,
        ).push(events@[i as int]@));
        i = i + 1;
    }
    r
}

/// A copy of the attributes.
fn copy_attrs(attrs: &Vec<(String, String)>) -> (r: Vec<(String, String)>)
    ensures
        crate::utils::dom::attrs_view(r@) == crate::utils::dom::attrs_view(attrs@),
{
    let mut r: Vec<(String, String)> = Vec::new();
    let mut i: usize = 0;
    while i < attrs.len()
        invariant
            i <= attrs@.len(),
            crate::utils::dom::attrs_view(r@) == crate::utils::dom::attrs_view(attrs@).take(i as int),
        decreases attrs.len() - i,
    {
        let ghost prev = r@;
        r.push((to_owned(attrs[i].0.as_str()), to_owned(attrs[i].1.as_str())));
        assert(crate::utils::dom::attrs_view(r@) =~= crate::utils::dom::attrs_view(prev).push(
            (attrs@[i as int].0@, attrs@[i as int].1@),
        ));
        assert(crate::utils::dom::attrs_view(r@) =~= crate::utils::dom::attrs_view(attrs@).take(i + 1));
        i = i + 1;
    }
    assert(crate::utils::dom::attrs_view(attrs@).take(attrs@.len() as int) =~= crate::utils::dom::attrs_view(
        attrs@,
    ));
    r
}

/// A copy of the event.
fn copy_event(e: &HtmlEvent) -> (r: HtmlEvent)
    ensures
        r@ == e@,
{
    match e {
        HtmlEvent::Open(t, a) => HtmlEvent::Open(to_owned(t.as_str()), copy_attrs(a)),
        HtmlEvent::Text(t) => HtmlEvent::Text(to_owned(t.as_str())),
        HtmlEvent::Other => HtmlEvent::Other,
        HtmlEvent::Close => HtmlEvent::Close,
    }
}

/// The first anchor of the walk.
fn anchor_of(events: &Vec<HtmlEvent>) -> (r: Option<AnchorNode>)
    ensures
        anchor_matches(r, events_view(events@)),
{
    proof {
        reveal_strlit("a");
        reveal_strlit("href");
    }
    match first_tag_range(events, "a") {
        None => None,
        Some((s, e)) => {
            let a = events_range(events, s, e);
            assert(events_view(a@)[0] == events_view(events@)[s as int]);
            let text = text_of(&a);
            let href = match first_open_of(&a) {
                Some((_, attrs)) => attribute_of(attrs, "href"),
                None => None,
            };
            Some(AnchorNode { text: to_owned(trim(text.as_str())), href, img: img_node_of(&a) })
        },
    }
}

/// The sibling node the element walk goes through.
fn sibling_of(events: &Vec<HtmlEvent>) -> (r: SiblingNode)
    requires
        first_open(events_view(events@)) is Some,
    ensures
        sibling_matches(r, events_view(events@)),
{
    proof {
        reveal_strlit("h4");
        reveal_strlit("hr");
        reveal_strlit("div");
    }
    match first_open_of(events) {
        None => SiblingNode::Other { tag: String::new() },
        Some((t, _)) => {
            if crate::text::str_eq(t.as_str(), "h4") || crate::text::str_eq(t.as_str(), "hr") {
                SiblingNode::End
            } else if crate::text::str_eq(t.as_str(), "div") {
                let text = text_of(events);
                SiblingNode::Div { text: to_owned(trim(text.as_str())), img: img_node_of(events), anchor: anchor_of(events) }
            } else {
                SiblingNode::Other { tag: to_owned(t.as_str()) }
            }
        },
    }
}

/// The section the heading starts.
pub(crate) fn section_of(h: &NodeContext) -> (r: ItemSectionNode)
    ensures
        section_matches(r, h@),
{
    let ghost fv = walks_view(h.following@);
    let mut siblings: Vec<SiblingNode> = Vec::new();
    let ghost mut es: Seq<Seq<EventView>> = Seq::empty();
    let mut i: usize = 0;
    while i < h.following.len()
        invariant
            i <= h.following@.len(),
            fv == walks_view(h.following@),
            es == element_walks(fv.take(i as int)),
            siblings@.len() == es.len(),
            forall|k: int| 0 <= k < es.len() ==> #[trigger] sibling_matches(siblings@[k], es[k]),
        decreases h.following.len() - i,
    {
        proof {
            assert(fv.take(i + 1).drop_last() =~= fv.take(i as int));
            assert(fv.take(i + 1).last() == events_view(h.following@[i as int]@));
        }
        let is_element = first_open_of(&h.following[i]).is_some();
        if is_element {
            let s = sibling_of(&h.following[i]);
            siblings.push(s);
            proof {
                es = es.push(events_view(h.following@[i as int]@));
            }
        }
        i = i + 1;
    }
    assert(fv.take(h.following@.len() as int) =~= fv);
    ItemSectionNode { heading: text_of(&h.events), siblings }
}

/// The ability node the description is.
fn ability_of(d: &NodeContext) -> (r: AbilityNode)
    ensures
        ability_matches(r, d@),
{
    let text = text_of(&d.events);
    let previous_text = if d.preceding.len() >= 2 {
        let p = text_of(&d.preceding[1]);
        Some(to_owned(trim(p.as_str())))
    } else {
        None
    };
    AbilityNode { previous_text, text: to_owned(trim(text.as_str())) }
}

/// The meta node the node is.
fn meta_of(m: &NodeContext) -> (r: MetaNode)
    ensures
        meta_matches(r, m@),
{
    proof {
        reveal_strlit("exotic");
    }
    let ranges = class_ranges(&m.events, "exotic");
    let exotic_text = if ranges.len() > 0 {
        let (s, e) = ranges[0];
        Some(text_of_range(&m.events, s, e))
    } else {
        None
    };
    MetaNode { exotic_text, text: text_of(&m.events), html: to_owned(m.html.as_str()) }
}

/// The trimmed texts of the walks.
pub(crate) fn trimmed_texts(walks: &Vec<Vec<HtmlEvent>>) -> (r: Vec<String>)
    ensures
        r@.len() == walks@.len(),
        forall|i: int| 0 <= i < walks@.len() ==> #[trigger] r@[i]@ == spec_trim(events_text(events_view(walks@[i]@))),
{
    let mut r: Vec<String> = Vec::new();
    let mut i: usize = 0;
    while i < walks.len()
        invariant
            i <= walks@.len(),
            r@.len() == i,
            forall|k: int| 0 <= k < i ==> #[trigger] r@[k]@ == spec_trim(events_text(events_view(walks@[k]@))),
        decreases walks.len() - i,
    {
        let t = text_of(&walks[i]);
        r.push(to_owned(trim(t.as_str())));
        i = i + 1;
    }
    r
}

/// The first node that the selection found.
pub(crate) fn first_selected(sel: Selection) -> (r: Option<Vec<HtmlEvent>>)
    ensures
        match sel@ {
            SelectionView::Found(v) => if v.len() > 0 {
                r matches Some(x) && events_view(x@) == v[0]
            } else {
                r is None
            },
            _ => r is None,
        },
{
    match sel {
        Selection::Found(mut v) => {
            if v.len() > 0 {
                let ghost w = v@;
                let x = v.swap_remove(0);
                assert(events_view(x@) == walks_view(w)[0]);
                Some(x)
            } else {
                None
            }
        },
        _ => None,
    }
}

/// The error of a missing part of the page, with the context of the item.
fn missing_part(selector: &str, from: &str, slug: &str) -> (e: Error)
    ensures
        e.kind matches Kind::HTMLParsingError(x) && x@ == not_found_message(selector@, from@),
        e.context@.len() == 1,
        e.context@[0]@ == "parsing "@ + slug@,
{
    let a = concat3("Failed to find \"", selector, "\" in ");
    let m = concat2(a.as_str(), from);
    proof {
        reveal_strlit("Failed to find \"");
        reveal_strlit("\" in ");
        assert(m@ =~= not_found_message(selector@, from@));
    }
    html_error(m).ctx_push(concat2("parsing ", slug))
}

/// The icon of the image can be read: it has none, or an absolute URL.
pub(crate) fn img_fits(img: &ImgNode) -> (r: bool)
    ensures
        r == img_ok(*img),
{
    match img {
        ImgNode::Src(s) => checked_icon_url_to_path(s.as_str()).is_some(),
        _ => true,
    }
}

/// The page can be read without panicking.
fn page_fits(page: &ItemPage) -> (r: bool)
    ensures
        r == page_ok(*page),
{
    let stats = match &page.stats {
        Some(t) => stats_fit(t),
        None => true,
    };
    if !stats || !img_fits(&page.icon) {
        return false;
    }
    let mut i: usize = 0;
    while i < page.sections.len()
        invariant
            i <= page.sections@.len(),
            forall|k: int| 0 <= k < i ==> #[trigger] siblings_ok(page.sections@[k].siblings@),
            img_ok(page.icon),
            page.stats matches Some(t) ==> stats_ok(string_seq_view(t@)),
        decreases page.sections.len() - i,
    {
        let sib = &page.sections[i].siblings;
        let mut j: usize = 0;
        while j < sib.len()
            invariant
                j <= sib@.len(),
                i < page.sections@.len(),
                sib@ == page.sections@[i as int].siblings@,
                forall|k: int| 0 <= k < i ==> #[trigger] siblings_ok(page.sections@[k].siblings@),
                img_ok(page.icon),
                page.stats matches Some(t) ==> stats_ok(string_seq_view(t@)),
                forall|k: int|
                    0 <= k < j ==> match #[trigger] sib@[k] {
                        SiblingNode::Div { img, anchor, .. } => img_ok(img) && (anchor matches Some(a) ==> img_ok(
                            a.img,
                        )),
                        _ => true,
                    },
            decreases sib.len() - j,
        {
            match &sib[j] {
                SiblingNode::Div { img, anchor, .. } => {
                    if !img_fits(img) {
                        proof {
                            assert(!siblings_ok(sib@));
                            assert(!siblings_ok(page.sections@[i as int].siblings@));
                        }
                        return false;
                    }
                    match anchor {
                        Some(a) => {
                            if !img_fits(&a.img) {
                                proof {
                                    assert(!siblings_ok(sib@));
                                    assert(!siblings_ok(page.sections@[i as int].siblings@));
                                }
                                return false;
                            }
                        },
                        None => {},
                    }
                },
                _ => {},
            }
            j = j + 1;
        }
        assert(siblings_ok(sib@));
        i = i + 1;
    }
    true
}

/// Two pages that hold the same parts are both readable, or both not.
proof fn lemma_page_ok_unique(p: ItemPage, q: ItemPage, parts: ItemPageParts)
    requires
        page_matches(p, parts),
        page_matches(q, parts),
    ensures
        page_ok(p) == page_ok(q),
{
    match parts.stats {
        Some(v) => {
            let t1 = p.stats.unwrap();
            let t2 = q.stats.unwrap();
            assert(string_seq_view(t1@) =~= string_seq_view(t2@)) by {
                assert forall|i: int| 0 <= i < v.len() implies string_seq_view(t1@)[i] == string_seq_view(t2@)[i] by {
                    assert(t1@[i]@ == spec_trim(events_text(v[i])));
                    assert(t2@[i]@ == spec_trim(events_text(v[i])));
                }
            }
        },
        None => {},
    }
    assert forall|i: int| 0 <= i < parts.headings.len() implies siblings_ok(p.sections@[i].siblings@) == siblings_ok(
        q.sections@[i].siblings@,
    ) by {
        assert(section_matches(p.sections@[i], parts.headings[i]));
        assert(section_matches(q.sections@[i], parts.headings[i]));
        let es = element_walks(parts.headings[i].following);
        let a = p.sections@[i].siblings@;
        let b = q.sections@[i].siblings@;
        assert forall|j: int| 0 <= j < es.len() implies (match #[trigger] a[j] {
            SiblingNode::Div { img, anchor, .. } => img_ok(img) && (anchor matches Some(x) ==> img_ok(x.img)),
            _ => true,
        }) == (match b[j] {
            SiblingNode::Div { img, anchor, .. } => img_ok(img) && (anchor matches Some(x) ==> img_ok(x.img)),
            _ => true,
        }) by {
            assert(sibling_matches(a[j], es[j]));
            assert(sibling_matches(b[j], es[j]));
        }
        if siblings_ok(a) {
            assert forall|j: int| 0 <= j < b.len() implies match #[trigger] b[j] {
                SiblingNode::Div { img, anchor, .. } => img_ok(img) && (anchor matches Some(x) ==> img_ok(x.img)),
                _ => true,
            } by {
                assert(sibling_matches(a[j], es[j]));
            }
        }
        if siblings_ok(b) {
            assert forall|j: int| 0 <= j < a.len() implies match #[trigger] a[j] {
                SiblingNode::Div { img, anchor, .. } => img_ok(img) && (anchor matches Some(x) ==> img_ok(x.img)),
                _ => true,
            } by {
                assert(sibling_matches(b[j], es[j]));
            }
        }
    }
    if page_ok(p) {
        assert forall|i: int| 0 <= i < q.sections@.len() implies #[trigger] siblings_ok(q.sections@[i].siblings@) by {
            assert(siblings_ok(p.sections@[i].siblings@));
        }
    }
    if page_ok(q) {
        assert forall|i: int| 0 <= i < p.sections@.len() implies #[trigger] siblings_ok(p.sections@[i].siblings@) by {
            assert(siblings_ok(q.sections@[i].siblings@));
        }
    }
}

/// Read the parts of the item page, or the error of the first part missing; `None`
/// where reading the page panics.
fn read_html_codex_item(contents: &str, slug: &str) -> (r: Option<Result<Item, Error>>)
    ensures
        r is None <==> !item_html_ok(contents@),
        r matches Some(res) ==> item_html_read(res, contents@, slug@),
{
    proof {
        reveal_strlit(":root");
        reveal_strlit(".herotext");
        reveal_strlit(".codex-page");
        reveal_strlit(".codex-page-icon");
        reveal_strlit(".codex-page-description");
        reveal_strlit(".codex-page-meta");
        reveal_strlit(".codex-stats");
        reveal_strlit(".codex-page-tag");
        reveal_strlit("h4");
        reveal_strlit("codex-stat");
        reveal_strlit("html");
        reveal_strlit("page");
    }
    let name = match first_selected(select_nodes(contents, ":root", ".herotext")) {
        Some(n) => n,
        None => {
            return Some(Err(missing_part(".herotext", "html", slug)));
        },
    };
    if first_selected(select_nodes(contents, ":root", ".codex-page")).is_none() {
        return Some(Err(missing_part(".codex-page", "html", slug)));
    }
    let icon = match first_selected(select_nodes(contents, ".codex-page", ".codex-page-icon")) {
        Some(n) => n,
        None => {
            return Some(Err(missing_part(".codex-page-icon", "page", slug)));
        },
    };
    let descriptions = match select_contexts(contents, ".codex-page", ".codex-page-description") {
        ContextSelection::Found(v) => v,
        _ => {
            return Some(Err(missing_part(".codex-page-description", "page", slug)));
        },
    };
    let meta = match select_contexts(contents, ".codex-page", ".codex-page-meta") {
        ContextSelection::Found(v) => v,
        _ => {
            return Some(Err(missing_part(".codex-page-meta", "page", slug)));
        },
    };
    let stats_nodes = match select_nodes(contents, ".codex-page", ".codex-stats") {
        Selection::Found(v) => v,
        _ => {
            return Some(Err(missing_part(".codex-stats", "page", slug)));
        },
    };
    let tag_nodes = match select_nodes(contents, ".codex-page", ".codex-page-tag") {
        Selection::Found(v) => v,
        _ => {
            return Some(Err(missing_part(".codex-page-tag", "page", slug)));
        },
    };
    let headings = match select_contexts(contents, ".codex-page", "h4") {
        ContextSelection::Found(v) => v,
        _ => {
            return Some(Err(missing_part("h4", "page", slug)));
        },
    };
    let ghost parts = match item_page_parts(contents@) {
        Ok(p) => p,
        Err(_) => vstd::pervasive::arbitrary(),
    };
    let mut ds: Vec<AbilityNode> = Vec::new();
    let mut i: usize = 0;
    while i < descriptions.len()
        invariant
            i <= descriptions@.len(),
            ds@.len() == i,
            forall|k: int| 0 <= k < i ==> #[trigger] ability_matches(ds@[k], descriptions@[k]@),
        decreases descriptions.len() - i,
    {
        ds.push(ability_of(&descriptions[i]));
        i = i + 1;
    }
    let mut ms: Vec<MetaNode> = Vec::new();
    let mut i: usize = 0;
    while i < meta.len()
        invariant
            i <= meta@.len(),
            ms@.len() == i,
            forall|k: int| 0 <= k < i ==> #[trigger] meta_matches(ms@[k], meta@[k]@),
        decreases meta.len() - i,
    {
        ms.push(meta_of(&meta[i]));
        i = i + 1;
    }
    let mut ss: Vec<ItemSectionNode> = Vec::new();
    let mut i: usize = 0;
    while i < headings.len()
        invariant
            i <= headings@.len(),
            ss@.len() == i,
            forall|k: int| 0 <= k < i ==> #[trigger] section_matches(ss@[k], headings@[k]@),
        decreases headings.len() - i,
    {
        ss.push(section_of(&headings[i]));
        i = i + 1;
    }
    let stats = if stats_nodes.len() > 0 {
        let node = &stats_nodes[0];
        let ranges = class_ranges(node, "codex-stat");
        let mut texts: Vec<String> = Vec::new();
        let mut j: usize = 0;
        while j < ranges.len()
            invariant
                j <= ranges@.len(),
                ranges@.len() == with_class(events_view(node@), "codex-stat"@).len(),
                forall|k: int|
                    0 <= k < ranges@.len() ==> #[trigger] ranges@[k].0 < ranges@[k].1 <= node@.len()
                        && events_view(node@).subrange(ranges@[k].0 as int, ranges@[k].1 as int) == with_class(
                        events_view(node@),
                        "codex-stat"@,
                    )[k],
                texts@.len() == j,
                forall|k: int|
                    0 <= k < j ==> #[trigger] texts@[k]@ == spec_trim(
                        events_text(with_class(events_view(node@), "codex-stat"@)[k]),
                    ),
            decreases ranges.len() - j,
        {
            let (s, e) = ranges[j];
            let t = text_of_range(node, s, e);
            texts.push(to_owned(trim(t.as_str())));
            j = j + 1;
        }
        Some(texts)
    } else {
        None
    };
    let page = ItemPage {
        name: {
            let t = text_of(&name);
            to_owned(trim(t.as_str()))
        },
        icon: img_node_of(&icon),
        descriptions: ds,
        meta: ms,
        stats,
        tags: trimmed_texts(&tag_nodes),
        sections: ss,
    };
    proof {
        assert(parts.descriptions == descriptions@.map_values(|c: NodeContext| c@));
        assert(parts.meta == meta@.map_values(|c: NodeContext| c@));
        assert(parts.headings == headings@.map_values(|c: NodeContext| c@));
        assert(parts.tags == walks_view(tag_nodes@));
        assert(page_matches(page, parts));
    }
    if !page_fits(&page) {
        return None;
    }
    proof {
        assert forall|q: ItemPage| #[trigger] page_matches(q, parts) implies page_ok(q) by {
            lemma_page_ok_unique(page, q, parts);
        }
    }
    let r = parse_codex_item(&page, slug);
    proof {
        assert(page_matches(page, parts) && item_outcome(r, page, slug@));
    }
    Some(r)
}

/// Parses an item page from `playorna.com` and returns the details about the given item.
pub fn parse_html_codex_item(contents: &str, slug: &str) -> (r: Result<Item, Error>)
    requires
        item_html_ok(contents@),
    ensures
        item_html_read(r, contents@, slug@),
{
    match read_html_codex_item(contents, slug) {
        Some(r) => r,
        None => Err(html_error(String::new())),
    }
}

/// Parses an item page from `playorna.com` and returns the details about the given item,
/// or `None` where reading it panics (see [`item_html_ok`]).
pub fn try_parse_html_codex_item(contents: &str, slug: &str) -> (r: Option<Result<Item, Error>>)
    ensures
        r is Some <==> item_html_ok(contents@),
        r matches Some(res) ==> item_html_read(res, contents@, slug@),
{
    match read_html_codex_item(contents, slug) {
        None => None,
        Some(_) => Some(parse_html_codex_item(contents, slug)),
    }
}

/// The `src` of the first `img` of the icon walk, or the message of the error when
/// there is no `img` or it has no `src`.
pub open spec fn icon_src(icon: Seq<EventView>) -> Result<Seq<char>, Seq<char>> {
    match first_tagged_from(icon, "img"@, 0) {
        None => Err("Failed to find \"img\" in icon-node"@),
        Some(a) => match attr_value(a, "src"@) {
            Some(s) => Ok(s),
            None => Err("Failed to find src in img icon node"@),
        },
    }
}

/// Parse the icon of a codex page: the path of its image, without the host and
/// `/static/img`.
pub fn parse_icon(icon: &Vec<HtmlEvent>) -> (r: Result<String, Error>)
    requires
        icon_src(events_view(icon@)) matches Ok(s) ==> url_path(s) is Some,
    ensures
        match icon_src(events_view(icon@)) {
            Ok(s) => r matches Ok(p) && p@ == icon_path(url_path(s).unwrap()),
            Err(m) => r matches Err(e) && e.kind matches Kind::HTMLParsingError(x) && x@ == m && e.context@.len() == 0,
        },
{
    proof {
        reveal_strlit("img");
        reveal_strlit("src");
    }
    match first_tagged(icon, "img") {
        None => Err(html_error(to_owned("Failed to find \"img\" in icon-node"))),
        Some(a) => match attribute_of(a, "src") {
            None => Err(html_error(to_owned("Failed to find src in img icon node"))),
            Some(s) => Ok(crate::utils::html::icon_url_to_path(s.as_str())),
        },
    }
}

/// The icon source that reading the translated item page `html` reaches, if it
/// reaches one.
pub open spec fn translation_icon(html: Seq<char>) -> Option<Seq<char>> {
    match (
        first_found(html, page_scope(), ".herotext"@),
        first_found(html, page_scope(), ".codex-page"@),
        first_found(html, ".codex-page"@, ".codex-page-icon"@),
        html_select(html, ".codex-page"@, ".codex-page-description"@),
    ) {
        (Some(_), Some(_), Some(icon), SelectionView::Found(d)) => if d.len() > 0 {
            match icon_src(icon) {
                Ok(s) => Some(s),
                Err(_) => None,
            }
        } else {
            None
        },
        _ => None,
    }
}

/// Reading the translated item page `html` does not panic: the icon it reaches has an
/// absolute URL.
pub open spec fn item_translation_ok(html: Seq<char>) -> bool {
    translation_icon(html) matches Some(s) ==> url_path(s) is Some
}

/// `r` is the error of the message `m`, without context.
pub open spec fn fails_html(r: Result<Item, Error>, m: Seq<char>) -> bool {
    r matches Err(e) && e.kind matches Kind::HTMLParsingError(x) && x@ == m && e.context@.len() == 0
}

/// What the translated item page `html` reads as, for the item `slug`: its name,
/// icon and description, or the error for the first part that is missing.
pub open spec fn item_translation_read(r: Result<Item, Error>, html: Seq<char>, slug: Seq<char>) -> bool {
    match first_found(html, page_scope(), ".herotext"@) {
        None => fails_html(r, not_found_message(".herotext"@, "html"@)),
        Some(name) => match first_found(html, page_scope(), ".codex-page"@) {
            None => fails_html(r, not_found_message(".codex-page"@, "html"@)),
            Some(_) => match first_found(html, ".codex-page"@, ".codex-page-icon"@) {
                None => fails_html(r, not_found_message(".codex-page-icon"@, "page"@)),
                Some(icon) => match html_select(html, ".codex-page"@, ".codex-page-description"@) {
                    SelectionView::Found(d) => if d.len() == 0 {
                        fails_html(r, "Failed to find description"@)
                    } else {
                        match icon_src(icon) {
                            Err(m) => fails_html(r, m),
                            Ok(src) => r matches Ok(item) && item.slug@ == slug && item.name@ == spec_trim(
                                events_text(name),
                            ) && item.icon@ == icon_path(url_path(src).unwrap()) && item.description@
                                == spec_trim(events_text(d[0])) && item.tier == 0 && item.tags@.len() == 0
                                && item.stats is None && item.ability is None && item.causes@.len() == 0
                                && item.cures@.len() == 0 && item.gives@.len() == 0 && item.immunities@.len() == 0
                                && item.dropped_by@.len() == 0 && item.upgrade_materials@.len() == 0,
                        }
                    },
                    _ => fails_html(r, not_found_message(".codex-page-description"@, "page"@)),
                },
            },
        },
    }
}

/// The error of a missing part of a page, without context.
fn part_error(selector: &str, from: &str) -> (e: Error)
    ensures
        e.kind matches Kind::HTMLParsingError(x) && x@ == not_found_message(selector@, from@),
        e.context@.len() == 0,
{
    let a = concat3("Failed to find \"", selector, "\" in ");
    let m = concat2(a.as_str(), from);
    proof {
        reveal_strlit("Failed to find \"");
        reveal_strlit("\" in ");
        assert(m@ =~= not_found_message(selector@, from@));
    }
    html_error(m)
}

/// Read the translated item page; `None` where reading it panics.
fn read_html_codex_item_translation(contents: &str, slug: String) -> (r: Option<Result<Item, Error>>)
    ensures
        r is None <==> !item_translation_ok(contents@),
        r matches Some(res) ==> item_translation_read(res, contents@, slug@),
{
    proof {
        reveal_strlit(":root");
        reveal_strlit(".herotext");
        reveal_strlit(".codex-page");
        reveal_strlit(".codex-page-icon");
        reveal_strlit(".codex-page-description");
        reveal_strlit("html");
        reveal_strlit("page");
        reveal_strlit("img");
        reveal_strlit("src");
    }
    let name = match first_selected(select_nodes(contents, ":root", ".herotext")) {
        Some(n) => n,
        None => {
            return Some(Err(part_error(".herotext", "html")));
        },
    };
    if first_selected(select_nodes(contents, ":root", ".codex-page")).is_none() {
        return Some(Err(part_error(".codex-page", "html")));
    }
    let icon = match first_selected(select_nodes(contents, ".codex-page", ".codex-page-icon")) {
        Some(n) => n,
        None => {
            return Some(Err(part_error(".codex-page-icon", "page")));
        },
    };
    let descriptions = match select_nodes(contents, ".codex-page", ".codex-page-description") {
        Selection::Found(v) => v,
        _ => {
            return Some(Err(part_error(".codex-page-description", "page")));
        },
    };
    if descriptions.len() == 0 {
        return Some(Err(html_error(to_owned("Failed to find description"))));
    }
    let src = match first_tagged(&icon, "img") {
        None => {
            return Some(Err(html_error(to_owned("Failed to find \"img\" in icon-node"))));
        },
        Some(a) => match attribute_of(a, "src") {
            Some(s) => s,
            None => {
                return Some(Err(html_error(to_owned("Failed to find src in img icon node"))));
            },
        },
    };
    if checked_icon_url_to_path(src.as_str()).is_none() {
        return None;
    }
    let path = match parse_icon(&icon) {
        Ok(p) => p,
        Err(e) => {
            return Some(Err(e));
        },
    };
    let description = {
        let t = text_of(&descriptions[0]);
        to_owned(trim(t.as_str()))
    };
    let item_name = {
        let t = text_of(&name);
        to_owned(trim(t.as_str()))
    };
    Some(
        Ok(
            Item {
                slug,
                name: item_name,
                icon: path,
                description,
                tier: 0,
                tags: Vec::new(),
                stats: None,
                ability: None,
                causes: Vec::new(),
                cures: Vec::new(),
                gives: Vec::new(),
                immunities: Vec::new(),
                dropped_by: Vec::new(),
                upgrade_materials: Vec::new(),
            },
        ),
    )
}

/// Parses an item page from `playorna.com` and returns the details about the given item.
/// The page needs not be in English and only the name, icon and description are read.
pub fn parse_html_codex_item_translation(contents: &str, slug: String) -> (r: Result<Item, Error>)
    requires
        item_translation_ok(contents@),
    ensures
        item_translation_read(r, contents@, slug@),
{
    match read_html_codex_item_translation(contents, slug) {
        Some(r) => r,
        None => Err(html_error(String::new())),
    }
}

/// Parses a translated item page from `playorna.com`, or `None` where reading it
/// panics (see [`item_translation_ok`]).
pub fn try_parse_html_codex_item_translation(contents: &str, slug: String) -> (r: Option<Result<Item, Error>>)
    ensures
        r is Some <==> item_translation_ok(contents@),
        r matches Some(res) ==> item_translation_read(res, contents@, slug@),
{
    let copy = to_owned(slug.as_str());
    match read_html_codex_item_translation(contents, copy) {
        None => None,
        Some(_) => Some(parse_html_codex_item_translation(contents, slug)),
    }
}

} // verus!
