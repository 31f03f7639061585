//! Lists of entries of the codex, as its search pages show them.

use vstd::prelude::*;

use crate::codex::{BossEntry, FollowerEntry, ItemEntry, MonsterEntry, RaidEntry, SkillEntry};
use crate::error::{
    debug_text, fails_with, html_error, int_error, is_html_error, text_debug_text, Error, Failure,
};
use crate::num::{parse_u32, spec_parse_int};
use crate::text::{concat2, contains_sub, occurs_at, spec_trim, str_eq, to_owned, trim};
use crate::utils::dom::{
    attr_value, attribute_of, element_children, element_ranges, events_text, events_view, first_open, first_tagged,
    first_tagged_from, html_select, page_scope, select_nodes, text_of, text_of_range, EventView, HtmlEvent,
    Selection, SelectionView, element_ranges_of,
};

verus! {

/// An entry on the list.
#[derive(Debug, Default)]
pub struct Entry {
    /// Value of the element (the text).
    pub value: String,
    /// Meta information about the entry.
    pub meta: Option<String>,
    /// Tier of the element.
    pub tier: u32,
    /// Uri to the element.
    pub uri: String,
}

/// What an [`Entry`] holds.
pub struct EntryView {
    pub value: Seq<char>,
    pub meta: Option<Seq<char>>,
    pub tier: u32,
    pub uri: Seq<char>,
}

impl View for Entry {
    type V = EntryView;

    open spec fn view(&self) -> EntryView {
        EntryView {
            value: self.value@,
            meta: match self.meta {
                Some(m) => Some(m@),
                None => None,
            },
            tier: self.tier,
            uri: self.uri@,
        }
    }
}

/// A parsed list.
#[derive(Debug)]
pub struct ParsedList {
    /// The entries that were parsed.
    pub entries: Vec<Entry>,
    /// Whether there was a next page.
    pub has_next_page: bool,
}

/// An element child of an entry of the list: its text, trimmed, and its `class`
/// attribute, if it has one.
#[derive(Debug, Clone)]
pub struct EntryChildNode {
    /// The text of the element, trimmed.
    pub text: String,
    /// The `class` attribute of the element.
    pub class: Option<String>,
}

/// The link of an entry of the list.
#[derive(Debug, Clone)]
pub enum EntryLink {
    /// The entry holds no `a` element.
    NoAnchor,
    /// The `a` element of the entry has no `href` attribute.
    NoHref,
    /// The target of the `a` element of the entry.
    Href(String),
}

/// An entry of the list, as read from the page.
#[derive(Debug, Clone)]
pub struct EntryNode {
    /// The text of the whole entry, trimmed.
    pub text: String,
    /// The element children of the entry, in order: the image, the name, the meta
    /// information if any, the tier.
    pub children: Vec<EntryChildNode>,
    /// The link of the entry.
    pub link: EntryLink,
}

/// The children of an entry after its image.
pub open spec fn after_image(c: Seq<EntryChildNode>) -> Seq<EntryChildNode> {
    if c.len() == 0 {
        c
    } else {
        c.skip(1)
    }
}

/// Whether the child holds the meta information of the entry.
pub open spec fn is_meta_child(c: EntryChildNode) -> bool {
    c.class matches Some(k) && k@ == "codex-entries-entry-meta"@
}

/// The entry that the node describes, or why it does not describe one.
pub open spec fn spec_entry(node: EntryNode) -> Result<EntryView, Failure> {
    let cs = after_image(node.children@);
    if cs.len() == 0 {
        Err(Failure::Html("Failed to find name in codex entry: "@ + text_debug_text(node.text@)))
    } else {
        let has_meta = cs.len() > 1 && is_meta_child(cs[1]);
        let t: int = if has_meta {
            2
        } else {
            1
        };
        if cs.len() <= t {
            Err(Failure::Html("Failed to find tier in codex entry: "@ + text_debug_text(node.text@)))
        } else {
            let tier_str = spec_trim(cs[t].text@);
            if tier_str.len() == 0 {
                Err(Failure::Html("The tier string is empty in: "@ + text_debug_text(cs[t].text@)))
            } else if tier_str[0] != '★' {
                Err(
                    Failure::Html(
                        "Failed to find the star in tier in codex entry field: "@ + text_debug_text(
                            tier_str,
                        ),
                    ),
                )
            } else {
                match spec_parse_int(spec_trim(tier_str.skip(1)), 0, 0xffff_ffff) {
                    Err(k) => Err(Failure::Int(k)),
                    Ok(tier) => match node.link {
                        EntryLink::NoAnchor => Err(Failure::Html("Failed to find \"a\" in entry"@)),
                        EntryLink::NoHref => Err(Failure::Html("Failed to find href in a"@)),
                        EntryLink::Href(h) => Ok(
                            EntryView {
                                value: cs[0].text@,
                                meta: if has_meta {
                                    Some(spec_trim(cs[1].text@))
                                } else {
                                    None
                                },
                                tier: tier as u32,
                                uri: h@,
                            },
                        ),
                    },
                }
            }
        }
    }
}

/// An entry of a codex list whose children after its image are its name, its meta
/// information (a child of the meta class) when it has one, and its tier `★ <n>`,
/// and whose link has a target, is the entry of that name, meta information
/// (trimmed), tier and uri.
pub proof fn law_entry_parts(node: EntryNode, n: u32)
    requires
        node.link is Href,
    ensures
        node.children@.len() == 4 && is_meta_child(node.children@[2]) && node.children@[3].text@ == seq![
            '\u{2605}',
            ' ',
        ] + crate::num::spec_dec(n as nat) ==> spec_entry(node) == Ok::<EntryView, Failure>(
            EntryView {
                value: node.children@[1].text@,
                meta: Some(spec_trim(node.children@[2].text@)),
                tier: n,
                uri: node.link->Href_0@,
            },
        ),
        node.children@.len() == 3 && !is_meta_child(node.children@[2]) && node.children@[2].text@ == seq![
            '\u{2605}',
            ' ',
        ] + crate::num::spec_dec(n as nat) ==> spec_entry(node) == Ok::<EntryView, Failure>(
            EntryView { value: node.children@[1].text@, meta: None, tier: n, uri: node.link->Href_0@ },
        ),
{
    let d = crate::num::spec_dec(n as nat);
    let s = seq!['\u{2605}', ' '] + d;
    crate::num::lemma_dec_digits(n as nat);
    crate::num::lemma_parse_dec(n as nat, 0xffff_ffff);
    assert(s[0] == '\u{2605}');
    assert(!crate::text::is_whitespace('\u{2605}'));
    assert(crate::num::is_digit(d.last()));
    assert(s.last() == d.last());
    assert(crate::text::drop_while(s, |c: char| crate::text::is_whitespace(c)) == s);
    assert(crate::text::drop_last_while(s, |c: char| crate::text::is_whitespace(c)) == s);
    let rest = s.skip(1);
    assert(rest =~= seq![' '] + d);
    assert(crate::text::is_whitespace(' '));
    assert(rest.drop_first() =~= d);
    assert(crate::num::is_digit(d[0]));
    assert(crate::text::drop_while(d, |c: char| crate::text::is_whitespace(c)) == d);
    assert(crate::text::drop_while(rest, |c: char| crate::text::is_whitespace(c)) == d);
    assert(crate::text::drop_last_while(d, |c: char| crate::text::is_whitespace(c)) == d);
    let cs = after_image(node.children@);
    if node.children@.len() == 4 {
        assert(cs[1] == node.children@[2]);
        assert(cs[2] == node.children@[3]);
        assert(cs[0] == node.children@[1]);
    }
    if node.children@.len() == 3 {
        assert(cs[1] == node.children@[2]);
        assert(cs[0] == node.children@[1]);
    }
}

/// Create an entry from an entry of the list.
pub fn node_to_entry(node: &EntryNode) -> (r: Result<Entry, Error>)
    ensures
        match r {
            Ok(e) => spec_entry(*node) == Ok::<EntryView, Failure>(e@),
            Err(e) => fails_with(e, spec_entry(*node)),
        },
{
    let cs = &node.children;
    if cs.len() < 2 {
        return Err(html_error(concat2("Failed to find name in codex entry: ", debug_text(node.text.as_str()).as_str())));
    }
    let ghost after = after_image(cs@);
    assert(after.len() == cs@.len() - 1);
    assert(forall|i: int| 0 <= i < after.len() ==> after[i] == cs@[i + 1]);
    let value = to_owned(cs[1].text.as_str());
    let mut t: usize = 2;
    let mut meta: Option<String> = None;
    if cs.len() > 2 {
        match &cs[2].class {
            Some(k) => {
                if str_eq(k.as_str(), "codex-entries-entry-meta") {
                    meta = Some(to_owned(trim(cs[2].text.as_str())));
                    t = 3;
                }
            },
            None => {},
        }
    }
    if cs.len() <= t {
        return Err(html_error(concat2("Failed to find tier in codex entry: ", debug_text(node.text.as_str()).as_str())));
    }
    let tier_str = trim(cs[t].text.as_str());
    let n = tier_str.unicode_len();
    if n == 0 {
        return Err(html_error(concat2("The tier string is empty in: ", debug_text(cs[t].text.as_str()).as_str())));
    }
    if tier_str.get_char(0) != '★' {
        return Err(
            html_error(
                concat2("Failed to find the star in tier in codex entry field: ", debug_text(tier_str).as_str()),
            ),
        );
    }
    let rest = tier_str.substring_char(1, n);
    assert(rest@ =~= tier_str@.skip(1));
    let tier = match parse_u32(trim(rest)) {
        Ok(x) => x,
        Err(k) => {
            return Err(int_error(k));
        },
    };
    let uri = match &node.link {
        EntryLink::NoAnchor => {
            return Err(html_error(to_owned("Failed to find \"a\" in entry")));
        },
        EntryLink::NoHref => {
            return Err(html_error(to_owned("Failed to find href in a")));
        },
        EntryLink::Href(h) => to_owned(h.as_str()),
    };
    Ok(Entry { value, meta, tier, uri })
}

/// The entries that the nodes describe, or why the first one that fails does not
/// describe one.
pub open spec fn spec_entries(nodes: Seq<EntryNode>) -> Result<Seq<EntryView>, Failure>
    decreases nodes.len(),
{
    if nodes.len() == 0 {
        Ok(Seq::empty())
    } else {
        match spec_entries(nodes.drop_last()) {
            Err(f) => Err(f),
            Ok(prev) => match spec_entry(nodes.last()) {
                Err(f) => Err(f),
                Ok(e) => Ok(prev.push(e)),
            },
        }
    }
}

/// The views of `v`, in order.
pub open spec fn entry_views(v: Seq<Entry>) -> Seq<EntryView> {
    v.map_values(|e: Entry| e@)
}

/// Once an entry fails, the list of more entries fails the same way.
proof fn lemma_entries_err_sticks(nodes: Seq<EntryNode>, k: int, n: int)
    requires
        0 < k <= n <= nodes.len(),
        spec_entries(nodes.take(k)) is Err,
    ensures
        spec_entries(nodes.take(n)) == spec_entries(nodes.take(k)),
    decreases n - k,
{
    if k < n {
        lemma_entries_err_sticks(nodes, k, n - 1);
        assert(nodes.take(n).drop_last() =~= nodes.take(n - 1));
    }
}

/// Parses the entries of a page of the codex's lists, and whether there is a next
/// page (the pagination's text reads `Next page`).
pub fn parse_codex_list(entries: &Vec<EntryNode>, pagination_text: &str) -> (r: Result<ParsedList, Error>)
    ensures
        match spec_entries(entries@) {
            Ok(es) => r matches Ok(l) && entry_views(l.entries@) == es && l.has_next_page == (exists|
                i: int,
            | occurs_at(pagination_text@, "Next page"@, i)),
            Err(f) => r matches Err(e) && fails_with(e, Err::<Seq<EntryView>, Failure>(f)),
        },
{
    let mut parsed: Vec<Entry> = Vec::new();
    assert(entry_views(parsed@) =~= Seq::empty());
    assert(entries@.take(0) =~= Seq::empty());
    let mut i: usize = 0;
    while i < entries.len()
        invariant
            i <= entries@.len(),
            spec_entries(entries@.take(i as int)) == Ok::<Seq<EntryView>, Failure>(entry_views(parsed@)),
        decreases entries.len() - i,
    {
        proof {
            assert(entries@.take(i + 1).drop_last() =~= entries@.take(i as int));
            assert(entries@.take(i + 1).last() == entries@[i as int]);
        }
        match node_to_entry(&entries[i]) {
            Ok(e) => {
                let ghost prev = parsed@;
                let ghost ev = e@;
                parsed.push(e);
                assert(entry_views(parsed@) =~= entry_views(prev).push(ev));
            },
            Err(e) => {
                proof {
                    lemma_entries_err_sticks(entries@, i + 1, entries@.len() as int);
                    assert(entries@.take(entries@.len() as int) =~= entries@);
                }
                return Err(e);
            },
        }
        i = i + 1;
    }
    assert(entries@.take(entries@.len() as int) =~= entries@);
    Ok(ParsedList { entries: parsed, has_next_page: contains_sub(pagination_text, "Next page") })
}

/// The entries of the codex list as skills: their names, tiers and uris.
pub fn skill_entries(list: &Vec<Entry>) -> (r: Vec<SkillEntry>)
    ensures
        r@.len() == list@.len(),
        forall|i: int|
            0 <= i < list@.len() ==> (#[trigger] r@[i]).name@ == list@[i].value@ && r@[i].tier
                == list@[i].tier && r@[i].uri@ == list@[i].uri@,
{
    let mut r: Vec<SkillEntry> = Vec::new();
    let mut i: usize = 0;
    while i < list.len()
        invariant
            i <= list@.len(),
            r@.len() == i,
            forall|k: int|
                0 <= k < i ==> (#[trigger] r@[k]).name@ == list@[k].value@ && r@[k].tier == list@[k].tier
                    && r@[k].uri@ == list@[k].uri@,
        decreases list.len() - i,
    {
        let e = &list[i];
        r.push(SkillEntry { name: to_owned(e.value.as_str()), tier: e.tier, uri: to_owned(e.uri.as_str()) });
        i = i + 1;
    }
    r
}

/// The entries of the codex list as raids: their names, tiers and uris.
pub fn raid_entries(list: &Vec<Entry>) -> (r: Vec<RaidEntry>)
    ensures
        r@.len() == list@.len(),
        forall|i: int|
            0 <= i < list@.len() ==> (#[trigger] r@[i]).name@ == list@[i].value@ && r@[i].tier
                == list@[i].tier && r@[i].uri@ == list@[i].uri@,
{
    let mut r: Vec<RaidEntry> = Vec::new();
    let mut i: usize = 0;
    while i < list.len()
        invariant
            i <= list@.len(),
            r@.len() == i,
            forall|k: int|
                0 <= k < i ==> (#[trigger] r@[k]).name@ == list@[k].value@ && r@[k].tier == list@[k].tier
                    && r@[k].uri@ == list@[k].uri@,
        decreases list.len() - i,
    {
        let e = &list[i];
        r.push(RaidEntry { name: to_owned(e.value.as_str()), tier: e.tier, uri: to_owned(e.uri.as_str()) });
        i = i + 1;
    }
    r
}

/// The entries of the codex list as items: their names, tiers and uris.
pub fn item_entries(list: &Vec<Entry>) -> (r: Vec<ItemEntry>)
    ensures
        r@.len() == list@.len(),
        forall|i: int|
            0 <= i < list@.len() ==> (#[trigger] r@[i]).name@ == list@[i].value@ && r@[i].tier
                == list@[i].tier && r@[i].uri@ == list@[i].uri@,
{
    let mut r: Vec<ItemEntry> = Vec::new();
    let mut i: usize = 0;
    while i < list.len()
        invariant
            i <= list@.len(),
            r@.len() == i,
            forall|k: int|
                0 <= k < i ==> (#[trigger] r@[k]).name@ == list@[k].value@ && r@[k].tier == list@[k].tier
                    && r@[k].uri@ == list@[k].uri@,
        decreases list.len() - i,
    {
        let e = &list[i];
        r.push(ItemEntry { name: to_owned(e.value.as_str()), tier: e.tier, uri: to_owned(e.uri.as_str()) });
        i = i + 1;
    }
    r
}

/// The entries of the codex list as followers: their names, tiers and uris.
pub fn follower_entries(list: &Vec<Entry>) -> (r: Vec<FollowerEntry>)
    ensures
        r@.len() == list@.len(),
        forall|i: int|
            0 <= i < list@.len() ==> (#[trigger] r@[i]).name@ == list@[i].value@ && r@[i].tier
                == list@[i].tier && r@[i].uri@ == list@[i].uri@,
{
    let mut r: Vec<FollowerEntry> = Vec::new();
    let mut i: usize = 0;
    while i < list.len()
        invariant
            i <= list@.len(),
            r@.len() == i,
            forall|k: int|
                0 <= k < i ==> (#[trigger] r@[k]).name@ == list@[k].value@ && r@[k].tier == list@[k].tier
                    && r@[k].uri@ == list@[k].uri@,
        decreases list.len() - i,
    {
        let e = &list[i];
        r.push(FollowerEntry { name: to_owned(e.value.as_str()), tier: e.tier, uri: to_owned(e.uri.as_str()) });
        i = i + 1;
    }
    r
}

/// Every entry of the list has its meta information.
pub open spec fn all_have_meta(list: Seq<Entry>) -> bool {
    forall|i: int| 0 <= i < list.len() ==> (#[trigger] list[i]).meta is Some
}

/// An entry with a family is the entry of the list with those name, meta
/// information, tier and uri.
pub open spec fn family_entry(name: Seq<char>, family: Seq<char>, tier: u32, uri: Seq<char>, e: Entry) -> bool {
    &&& name == e.value@
    &&& e.meta matches Some(f)
    &&& family == f@
    &&& tier == e.tier
    &&& uri == e.uri@
}

/// The entries of the codex list as monsters: their names, families (the meta
/// information), tiers and uris; an entry without meta information fails the list.
pub fn monster_entries(list: &Vec<Entry>) -> (r: Result<Vec<MonsterEntry>, Error>)
    ensures
        match r {
            Ok(v) => all_have_meta(list@) && v@.len() == list@.len() && forall|i: int|
                0 <= i < list@.len() ==> #[trigger] family_entry(
                    v@[i].name@,
                    v@[i].family@,
                    v@[i].tier,
                    v@[i].uri@,
                    list@[i],
                ),
            Err(e) => !all_have_meta(list@) && is_html_error(e, "Failed to retrieve meta field of monster"@),
        },
{
    let mut r: Vec<MonsterEntry> = Vec::new();
    let mut i: usize = 0;
    while i < list.len()
        invariant
            i <= list@.len(),
            r@.len() == i,
            forall|k: int|
                0 <= k < i ==> #[trigger] family_entry(
                    r@[k].name@,
                    r@[k].family@,
                    r@[k].tier,
                    r@[k].uri@,
                    list@[k],
                ),
        decreases list.len() - i,
    {
        let e = &list[i];
        let family = match &e.meta {
            Some(f) => to_owned(f.as_str()),
            None => {
                assert(list@[i as int].meta is None);
                return Err(html_error(to_owned("Failed to retrieve meta field of monster")));
            },
        };
        r.push(MonsterEntry { name: to_owned(e.value.as_str()), family, tier: e.tier, uri: to_owned(e.uri.as_str()) });
        i = i + 1;
    }
    assert forall|k: int| 0 <= k < list@.len() implies (#[trigger] list@[k]).meta is Some by {
        assert(family_entry(r@[k].name@, r@[k].family@, r@[k].tier, r@[k].uri@, list@[k]));
    }
    Ok(r)
}

/// The entries of the codex list as bosses: their names, families (the meta
/// information), tiers and uris; an entry without meta information fails the list.
pub fn boss_entries(list: &Vec<Entry>) -> (r: Result<Vec<BossEntry>, Error>)
    ensures
        match r {
            Ok(v) => all_have_meta(list@) && v@.len() == list@.len() && forall|i: int|
                0 <= i < list@.len() ==> #[trigger] family_entry(
                    v@[i].name@,
                    v@[i].family@,
                    v@[i].tier,
                    v@[i].uri@,
                    list@[i],
                ),
            Err(e) => !all_have_meta(list@) && is_html_error(e, "Failed to retrieve meta field of boss"@),
        },
{
    let mut r: Vec<BossEntry> = Vec::new();
    let mut i: usize = 0;
    while i < list.len()
        invariant
            i <= list@.len(),
            r@.len() == i,
            forall|k: int|
                0 <= k < i ==> #[trigger] family_entry(
                    r@[k].name@,
                    r@[k].family@,
                    r@[k].tier,
                    r@[k].uri@,
                    list@[k],
                ),
        decreases list.len() - i,
    {
        let e = &list[i];
        let family = match &e.meta {
            Some(f) => to_owned(f.as_str()),
            None => {
                assert(list@[i as int].meta is None);
                return Err(html_error(to_owned("Failed to retrieve meta field of boss")));
            },
        };
        r.push(BossEntry { name: to_owned(e.value.as_str()), family, tier: e.tier, uri: to_owned(e.uri.as_str()) });
        i = i + 1;
    }
    assert forall|k: int| 0 <= k < list@.len() implies (#[trigger] list@[k]).meta is Some by {
        assert(family_entry(r@[k].name@, r@[k].family@, r@[k].tier, r@[k].uri@, list@[k]));
    }
    Ok(r)
}

/// The child `c` is the element the walk `events` goes through: its text, trimmed,
/// and its `class` attribute.
pub open spec fn child_matches(c: EntryChildNode, events: Seq<EventView>) -> bool {
    &&& c.text@ == spec_trim(events_text(events))
    &&& match first_open(events) {
        Some((_, a)) => match attr_value(a, "class"@) {
            Some(k) => c.class matches Some(x) && x@ == k,
            None => c.class is None,
        },
        None => false,
    }
}

/// The entry `n` is the element the walk `events` goes through: its text, trimmed,
/// its element children, and the `href` of its first `a` element.
pub open spec fn entry_matches(n: EntryNode, events: Seq<EventView>) -> bool {
    let cs = element_children(events);
    &&& n.text@ == spec_trim(events_text(events))
    &&& n.children@.len() == cs.len()
    &&& forall|i: int| 0 <= i < cs.len() ==> #[trigger] child_matches(n.children@[i], cs[i])
    &&& match first_tagged_from(events, "a"@, 0) {
        None => n.link is NoAnchor,
        Some(a) => match attr_value(a, "href"@) {
            Some(h) => n.link matches EntryLink::Href(x) && x@ == h,
            None => n.link is NoHref,
        },
    }
}

/// The entry of the list that the walk `events` goes through.
pub fn entry_node_of(events: &Vec<HtmlEvent>) -> (r: EntryNode)
    ensures
        entry_matches(r, events_view(events@)),
{
    let ghost ev = events_view(events@);
    let ranges = element_ranges_of(events);
    let ghost cs = element_children(ev);
    let mut children: Vec<EntryChildNode> = Vec::new();
    let mut i: usize = 0;
    while i < ranges.len()
        invariant
            i <= ranges@.len(),
            ev == events_view(events@),
            cs == element_children(ev),
            ranges@.map_values(|p: (usize, usize)| (p.0 as int, p.1 as int)) == element_ranges(ev),
            forall|k: int| 0 <= k < ranges@.len() ==> #[trigger] ranges@[k].0 < ranges@[k].1 <= events@.len(),
            forall|k: int| 0 <= k < ranges@.len() ==> ev[#[trigger] ranges@[k].0 as int] is Open,
            children@.len() == i,
            forall|k: int| 0 <= k < i ==> #[trigger] child_matches(children@[k], cs[k]),
        decreases ranges.len() - i,
    {
        let (a, b) = ranges[i];
        assert(element_ranges(ev)[i as int] == (a as int, b as int));
        assert(cs[i as int] == ev.subrange(a as int, b as int));
        let text = text_of_range(events, a, b);
        assert(ev[a as int] is Open);
        let class = match &events[a] {
            HtmlEvent::Open(_, attrs) => attribute_of(attrs, "class"),
            _ => None,
        };
        let child = EntryChildNode { text: to_owned(trim(text.as_str())), class };
        assert(ev.subrange(a as int, b as int)[0] == ev[a as int]);
        children.push(child);
        i = i + 1;
    }
    let all = text_of(events);
    let link = match first_tagged(events, "a") {
        None => EntryLink::NoAnchor,
        Some(attrs) => match attribute_of(attrs, "href") {
            Some(h) => EntryLink::Href(h),
            None => EntryLink::NoHref,
        },
    };
    proof {
        reveal_strlit("a");
    }
    EntryNode { text: to_owned(trim(all.as_str())), children, link }
}

/// The walks through the entries of the list page `html`.
pub open spec fn list_entry_events(html: Seq<char>) -> Option<Seq<Seq<EventView>>> {
    match html_select(html, ".codex-entries"@, ".codex-entries-entry"@) {
        SelectionView::Found(v) => Some(v),
        _ => None,
    }
}

/// The first element of the page `html` that `selector` matches.
pub open spec fn first_in_page(html: Seq<char>, selector: Seq<char>) -> Option<Seq<EventView>> {
    match html_select(html, page_scope(), selector) {
        SelectionView::Found(v) => if v.len() > 0 {
            Some(v[0])
        } else {
            None
        },
        _ => None,
    }
}

/// The message of the error when no element of the page matches `selector`.
pub open spec fn not_in_page_message(selector: Seq<char>) -> Seq<char> {
    "Failed to find \""@ + selector + "\" in html"@
}

/// The entries `nodes` are the elements the walks `evs` go through.
pub open spec fn entries_match(nodes: Seq<EntryNode>, evs: Seq<Seq<EventView>>) -> bool {
    &&& nodes.len() == evs.len()
    &&& forall|i: int| 0 <= i < evs.len() ==> #[trigger] entry_matches(nodes[i], evs[i])
}

/// The first element of the page that `selector` matches.
fn first_of_page(contents: &str, selector: &str) -> (r: Option<Vec<HtmlEvent>>)
    ensures
        match first_in_page(contents@, selector@) {
            Some(v) => r matches Some(x) && events_view(x@) == v,
            None => r is None,
        },
{
    proof {
        reveal_strlit(":root");
    }
    match select_nodes(contents, ":root", selector) {
        Selection::Found(mut v) => {
            if v.len() > 0 {
                let ghost w = v@;
                let x = v.swap_remove(0);
                assert(events_view(x@) == w.map_values(|n: Vec<HtmlEvent>| events_view(n@))[0]);
                Some(x)
            } else {
                None
            }
        },
        _ => None,
    }
}

/// What reading the entries `nodes` and the pagination text `pagination` gives.
pub open spec fn list_outcome(r: Result<ParsedList, Error>, nodes: Seq<EntryNode>, pagination: Seq<char>) -> bool {
    match spec_entries(nodes) {
        Ok(es) => r matches Ok(l) && entry_views(l.entries@) == es && l.has_next_page == (exists|i: int|
            occurs_at(pagination, "Next page"@, i)),
        Err(f) => r matches Err(e) && fails_with(e, Err::<Seq<EntryView>, Failure>(f)),
    }
}

/// What reading the entries that the walks `evs` go through, with the pagination `p`,
/// gives.
pub open spec fn entries_read(r: Result<ParsedList, Error>, evs: Seq<Seq<EventView>>, p: Seq<EventView>) -> bool {
    exists|nodes: Seq<EntryNode>| #[trigger] entries_match(nodes, evs) && list_outcome(r, nodes, events_text(p))
}

/// What the list page `html` reads as: the error for a missing part, or the entries
/// read from the elements of the entries, with whether the pagination offers a next
/// page.
pub open spec fn list_read(r: Result<ParsedList, Error>, html: Seq<char>) -> bool {
    if first_in_page(html, ".codex-entries"@) is None {
        r matches Err(e) && is_html_error(e, not_in_page_message(".codex-entries"@))
    } else {
        match first_in_page(html, ".pagination"@) {
            None => r matches Err(e) && is_html_error(e, not_in_page_message(".pagination"@)),
            Some(p) => match list_entry_events(html) {
                None => r matches Err(e) && is_html_error(
                    e,
                    "Failed to find \".codex-entries-entry\" in entries node"@,
                ),
                Some(evs) => entries_read(r, evs, p),
            },
        }
    }
}

/// Parses a page from `playorna.com` and returns the list of entries that were found and their
/// associated tiers.
pub fn parse_html_codex_list(contents: &str) -> (r: Result<ParsedList, Error>)
    ensures
        list_read(r, contents@),
{
    proof {
        reveal_strlit(".codex-entries");
        reveal_strlit(".codex-entries-entry");
        reveal_strlit(".pagination");
        reveal_strlit("Failed to find \".codex-entries\" in html");
        reveal_strlit("Failed to find \".pagination\" in html");
        reveal_strlit("Failed to find \"");
        reveal_strlit("\" in html");
        assert("Failed to find \".codex-entries\" in html"@ =~= not_in_page_message(".codex-entries"@));
        assert("Failed to find \".pagination\" in html"@ =~= not_in_page_message(".pagination"@));
    }
    let found = first_of_page(contents, ".codex-entries");
    if found.is_none() {
        return Err(html_error(to_owned("Failed to find \".codex-entries\" in html")));
    }
    let pagination = match first_of_page(contents, ".pagination") {
        Some(p) => p,
        None => {
            return Err(html_error(to_owned("Failed to find \".pagination\" in html")));
        },
    };
    let entries = match select_nodes(contents, ".codex-entries", ".codex-entries-entry") {
        Selection::Found(v) => v,
        _ => {
            return Err(html_error(to_owned("Failed to find \".codex-entries-entry\" in entries node")));
        },
    };
    let ghost evs = entries@.map_values(|n: Vec<HtmlEvent>| events_view(n@));
    let mut nodes: Vec<EntryNode> = Vec::new();
    let mut i: usize = 0;
    while i < entries.len()
        invariant
            i <= entries@.len(),
            evs == entries@.map_values(|n: Vec<HtmlEvent>| events_view(n@)),
            nodes@.len() == i,
            forall|k: int| 0 <= k < i ==> #[trigger] entry_matches(nodes@[k], evs[k]),
        decreases entries.len() - i,
    {
        nodes.push(entry_node_of(&entries[i]));
        i = i + 1;
    }
    assert(entries_match(nodes@, evs));
    let text = text_of(&pagination);
    let r = parse_codex_list(&nodes, text.as_str());
    proof {
        let p = events_view(pagination@);
        assert(list_entry_events(contents@) == Some(evs));
        assert(first_in_page(contents@, ".pagination"@) == Some(p));
        assert(entries_match(nodes@, evs) && list_outcome(r, nodes@, events_text(p)));
    }
    r
}

} // verus!
