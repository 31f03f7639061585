//! Pages read with `kuchiki`: the nodes a CSS selector finds, each handed over as the
//! walk through it meets its nodes (an element opens, its children follow, it closes).

use vstd::prelude::*;

use kuchiki::iter::NodeEdge;
use kuchiki::traits::TendrilSink;
use kuchiki::{NodeData, NodeRef};

use crate::text::{concat2, occurs_at, str_eq, to_owned};

verus! {

/// A node of a parsed page (`kuchiki::NodeRef`), carried through as is.
#[verifier::external_type_specification]
#[verifier::external_body]
pub struct ExNodeRef(kuchiki::NodeRef);

/// What a walk through a node meets.
#[derive(Debug, Clone)]
pub enum HtmlEvent {
    /// The start of an element: its tag and its attributes (names and values).
    Open(String, Vec<(String, String)>),
    /// The start of a text node, with its text.
    Text(String),
    /// The start of another node (a comment, a doctype).
    Other,
    /// The end of a node.
    Close,
}

/// What an [`HtmlEvent`] holds.
pub enum EventView {
    Open(Seq<char>, Seq<(Seq<char>, Seq<char>)>),
    Text(Seq<char>),
    Other,
    Close,
}

/// The characters of each name and value of `attrs`.
pub open spec fn attrs_view(attrs: Seq<(String, String)>) -> Seq<(Seq<char>, Seq<char>)> {
    attrs.map_values(|p: (String, String)| (p.0@, p.1@))
}

impl View for HtmlEvent {
    type V = EventView;

    open spec fn view(&self) -> EventView {
        match self {
            HtmlEvent::Open(t, a) => EventView::Open(t@, attrs_view(a@)),
            HtmlEvent::Text(t) => EventView::Text(t@),
            HtmlEvent::Other => EventView::Other,
            HtmlEvent::Close => EventView::Close,
        }
    }
}

/// The views of `events`, in order.
pub open spec fn events_view(events: Seq<HtmlEvent>) -> Seq<EventView> {
    events.map_values(|e: HtmlEvent| e@)
}

/// What selecting nodes in a page found.
#[derive(Debug)]
pub enum Selection {
    /// The selector of the scope is not a valid CSS selector.
    BadScope,
    /// No element matches the selector of the scope.
    NoScope,
    /// The selector is not a valid CSS selector.
    BadSelector,
    /// The elements the selector matches within the scope, in document order.
    Found(Vec<Vec<HtmlEvent>>),
}

/// What a [`Selection`] holds.
pub enum SelectionView {
    BadScope,
    NoScope,
    BadSelector,
    Found(Seq<Seq<EventView>>),
}

impl View for Selection {
    type V = SelectionView;

    open spec fn view(&self) -> SelectionView {
        match self {
            Selection::BadScope => SelectionView::BadScope,
            Selection::NoScope => SelectionView::NoScope,
            Selection::BadSelector => SelectionView::BadSelector,
            Selection::Found(v) => SelectionView::Found(v@.map_values(|n: Vec<HtmlEvent>| events_view(n@))),
        }
    }
}

/// What `kuchiki` finds in the page `html` (parsed as HTML) when it selects
/// `selector` within the first element that `scope` matches.
pub uninterp spec fn html_select(html: Seq<char>, scope: Seq<char>, selector: Seq<char>) -> SelectionView;

/// The walk through `node` (`NodeRef::traverse_inclusive`), each node's start and end
/// converted one for one.
#[verifier::external_body]
fn node_events(node: &NodeRef) -> Vec<HtmlEvent> {
    node.traverse_inclusive().map(|edge| match edge {
        NodeEdge::Start(n) => match n.data() {
            NodeData::Element(e) => HtmlEvent::Open(
                e.name.local.to_string(),
                e.attributes.borrow().map.iter().map(|(k, a)| (k.local.to_string(), a.value.clone())).collect(),
            ),
            NodeData::Text(t) => HtmlEvent::Text(t.borrow().clone()),
            _ => HtmlEvent::Other,
        },
        NodeEdge::End(_) => HtmlEvent::Close,
    }).collect()
}

/// Select, in the page `html`, the elements that `selector` matches within the first
/// element that `scope` matches (`kuchiki::parse_html`, then `NodeRef::select` twice).
///
/// The contract names the outcome (`html_select`): it is a function of the three
/// texts, and HTML parsing and CSS matching are not restated here.
#[verifier::external_body]
pub fn select_nodes(html: &str, scope: &str, selector: &str) -> (r: Selection)
    ensures
        r@ == html_select(html@, scope@, selector@),
{
    let doc = kuchiki::parse_html().one(html);
    let first = match doc.select(scope) {
        Ok(mut found) => found.next(),
        Err(()) => return Selection::BadScope,
    };
    match first.map(|s| s.as_node().select(selector)) {
        None => Selection::NoScope,
        Some(Err(())) => Selection::BadSelector,
        Some(Ok(found)) => Selection::Found(found.map(|m| node_events(m.as_node())).collect()),
    }
}

/// The scope that stands for the whole page: its root element.
pub open spec fn page_scope() -> Seq<char> {
    ":root"@
}

/// The texts of the text nodes met, one after the other.
pub open spec fn events_text(events: Seq<EventView>) -> Seq<char>
    decreases events.len(),
{
    if events.len() == 0 {
        Seq::empty()
    } else {
        events_text(events.drop_last()) + match events.last() {
            EventView::Text(t) => t,
            _ => Seq::empty(),
        }
    }
}

/// The tag and attributes of the element a walk starts with.
pub open spec fn first_open(events: Seq<EventView>) -> Option<(Seq<char>, Seq<(Seq<char>, Seq<char>)>)> {
    if events.len() > 0 {
        match events[0] {
            EventView::Open(t, a) => Some((t, a)),
            _ => None,
        }
    } else {
        None
    }
}

/// The value of the first attribute named `name`.
pub open spec fn attr_value(attrs: Seq<(Seq<char>, Seq<char>)>, name: Seq<char>) -> Option<Seq<char>>
    decreases attrs.len(),
{
    if attrs.len() == 0 {
        None
    } else if attrs[0].0 == name {
        Some(attrs[0].1)
    } else {
        attr_value(attrs.drop_first(), name)
    }
}

/// The text of a node: the texts of the text nodes in it, in order
/// (`NodeRef::text_contents`).
pub fn text_of(events: &Vec<HtmlEvent>) -> (r: String)
    ensures
        r@ == events_text(events_view(events@)),
{
    let mut r = String::new();
    let mut i: usize = 0;
    while i < events.len()
        invariant
            i <= events@.len(),
            r@ == events_text(events_view(events@.take(i as int))),
        decreases events.len() - i,
    {
        proof {
            assert(events_view(events@.take(i + 1)).drop_last() =~= events_view(events@.take(i as int)));
        }
        match &events[i] {
            HtmlEvent::Text(t) => {
                r = concat2(r.as_str(), t.as_str());
            },
            _ => {
                assert(r@ + Seq::<char>::empty() =~= r@);
            },
        }
        i = i + 1;
    }
    assert(events@.take(events@.len() as int) =~= events@);
    r
}

/// The tag and attributes of the element a walk starts with.
pub fn first_open_of(events: &Vec<HtmlEvent>) -> (r: Option<(&String, &Vec<(String, String)>)>)
    ensures
        match first_open(events_view(events@)) {
            Some((t, a)) => r matches Some(x) && x.0@ == t && attrs_view(x.1@) == a,
            None => r is None,
        },
{
    if events.len() > 0 {
        match &events[0] {
            HtmlEvent::Open(t, a) => Some((t, a)),
            _ => None,
        }
    } else {
        None
    }
}

/// The value of the first attribute named `name`.
pub fn attribute_of(attrs: &Vec<(String, String)>, name: &str) -> (r: Option<String>)
    ensures
        match attr_value(attrs_view(attrs@), name@) {
            Some(v) => r matches Some(x) && x@ == v,
            None => r is None,
        },
{
    let ghost all = attrs_view(attrs@);
    assert(all.skip(0) =~= all);
    let mut i: usize = 0;
    while i < attrs.len()
        invariant
            i <= attrs@.len(),
            all == attrs_view(attrs@),
            attr_value(all, name@) == attr_value(all.skip(i as int), name@),
        decreases attrs.len() - i,
    {
        proof {
            assert(all.skip(i as int).drop_first() =~= all.skip(i + 1));
        }
        if str_eq(attrs[i].0.as_str(), name) {
            return Some(to_owned(attrs[i].1.as_str()));
        }
        i = i + 1;
    }
    None
}

/// The ranges of the children of the node a walk goes through, those that are
/// elements, scanning from event `i` with `d` nodes open and the current child
/// started at `start`.
pub open spec fn element_ranges_scan(
    events: Seq<EventView>,
    i: int,
    d: int,
    start: int,
    acc: Seq<(int, int)>,
) -> Seq<(int, int)>
    decreases events.len() - i,
{
    if i < 0 || i >= events.len() {
        acc
    } else {
        let closes = events[i] is Close;
        if d <= 0 {
            element_ranges_scan(events, i + 1, 1, start, acc)
        } else if d == 1 {
            if closes {
                element_ranges_scan(events, i + 1, 0, start, acc)
            } else {
                element_ranges_scan(events, i + 1, 2, i, acc)
            }
        } else if closes {
            if d == 2 {
                element_ranges_scan(
                    events,
                    i + 1,
                    1,
                    start,
                    if events[start] is Open {
                        acc.push((start, i + 1))
                    } else {
                        acc
                    },
                )
            } else {
                element_ranges_scan(events, i + 1, d - 1, start, acc)
            }
        } else {
            element_ranges_scan(events, i + 1, d + 1, start, acc)
        }
    }
}

/// The ranges of events of the children of a node that are elements, in order.
pub open spec fn element_ranges(events: Seq<EventView>) -> Seq<(int, int)> {
    element_ranges_scan(events, 0, 0, 0, Seq::empty())
}

/// The children of a node that are elements (`NodeRef::children`, elements only),
/// each as the walk through it.
pub open spec fn element_children(events: Seq<EventView>) -> Seq<Seq<EventView>> {
    element_ranges(events).map_values(|r: (int, int)| events.subrange(r.0, r.1))
}

/// The attributes of the first element named `tag` met from event `i` on.
pub open spec fn first_tagged_from(events: Seq<EventView>, tag: Seq<char>, i: int) -> Option<
    Seq<(Seq<char>, Seq<char>)>,
>
    decreases events.len() - i,
{
    if i < 0 || i >= events.len() {
        None
    } else {
        match events[i] {
            EventView::Open(t, a) => if t == tag {
                Some(a)
            } else {
                first_tagged_from(events, tag, i + 1)
            },
            _ => first_tagged_from(events, tag, i + 1),
        }
    }
}

/// The ranges of the element children of a node, in order: pairs of the index of
/// the child's first event and the index just past its last.
pub fn element_ranges_of(events: &Vec<HtmlEvent>) -> (r: Vec<(usize, usize)>)
    ensures
        r@.map_values(|p: (usize, usize)| (p.0 as int, p.1 as int)) == element_ranges(events_view(events@)),
        forall|k: int| 0 <= k < r@.len() ==> #[trigger] r@[k].0 < r@[k].1 <= events@.len(),
        forall|k: int| 0 <= k < r@.len() ==> events_view(events@)[#[trigger] r@[k].0 as int] is Open,
{
    let ghost ev = events_view(events@);
    let mut acc: Vec<(usize, usize)> = Vec::new();
    assert(acc@.map_values(|p: (usize, usize)| (p.0 as int, p.1 as int)) =~= Seq::<(int, int)>::empty());
    let mut d: usize = 0;
    let mut start: usize = 0;
    let mut i: usize = 0;
    while i < events.len()
        invariant
            i <= events@.len(),
            ev == events_view(events@),
            d <= i,
            start < events@.len() || d < 2,
            d >= 2 ==> start < i,
            forall|k: int| 0 <= k < acc@.len() ==> #[trigger] acc@[k].0 < acc@[k].1 <= events@.len(),
            forall|k: int| 0 <= k < acc@.len() ==> ev[#[trigger] acc@[k].0 as int] is Open,
            element_ranges(ev) == element_ranges_scan(
                ev,
                i as int,
                d as int,
                start as int,
                acc@.map_values(|p: (usize, usize)| (p.0 as int, p.1 as int)),
            ),
        decreases events.len() - i,
    {
        let closes = match &events[i] {
            HtmlEvent::Close => true,
            _ => false,
        };
        assert(closes == (ev[i as int] is Close));
        if d == 0 {
            d = 1;
        } else if d == 1 {
            if closes {
                d = 0;
            } else {
                start = i;
                d = 2;
            }
        } else if closes {
            if d == 2 {
                let opens = match &events[start] {
                    HtmlEvent::Open(_, _) => true,
                    _ => false,
                };
                assert(opens == (ev[start as int] is Open));
                if opens {
                    let ghost before = acc@.map_values(|p: (usize, usize)| (p.0 as int, p.1 as int));
                    acc.push((start, i + 1));
                    assert(acc@.map_values(|p: (usize, usize)| (p.0 as int, p.1 as int)) =~= before.push(
                        (start as int, i + 1),
                    ));
                }
                d = 1;
            } else {
                d = d - 1;
            }
        } else {
            d = d + 1;
        }
        i = i + 1;
    }
    acc
}

/// The text of the events from `start` to `end`.
pub fn text_of_range(events: &Vec<HtmlEvent>, start: usize, end: usize) -> (r: String)
    requires
        start <= end <= events@.len(),
    ensures
        r@ == events_text(events_view(events@).subrange(start as int, end as int)),
{
    let ghost ev = events_view(events@);
    let mut r = String::new();
    assert(ev.subrange(start as int, start as int) =~= Seq::<EventView>::empty());
    let mut i: usize = start;
    while i < end
        invariant
            start <= i <= end,
            end <= events@.len(),
            ev == events_view(events@),
            r@ == events_text(ev.subrange(start as int, i as int)),
        decreases end - i,
    {
        proof {
            assert(ev.subrange(start as int, i + 1).drop_last() =~= ev.subrange(start as int, i as int));
        }
        match &events[i] {
            HtmlEvent::Text(t) => {
                r = concat2(r.as_str(), t.as_str());
            },
            _ => {
                assert(r@ + Seq::<char>::empty() =~= r@);
            },
        }
        i = i + 1;
    }
    r
}

/// The attributes of the first element named `tag` in the walk.
pub fn first_tagged<'a>(events: &'a Vec<HtmlEvent>, tag: &str) -> (r: Option<&'a Vec<(String, String)>>)
    ensures
        match first_tagged_from(events_view(events@), tag@, 0) {
            Some(a) => r matches Some(x) && attrs_view(x@) == a,
            None => r is None,
        },
{
    let ghost ev = events_view(events@);
    let mut i: usize = 0;
    while i < events.len()
        invariant
            i <= events@.len(),
            ev == events_view(events@),
            first_tagged_from(ev, tag@, 0) == first_tagged_from(ev, tag@, i as int),
        decreases events.len() - i,
    {
        match &events[i] {
            HtmlEvent::Open(t, a) => {
                if str_eq(t.as_str(), tag) {
                    return Some(a);
                }
            },
            _ => {},
        }
        i = i + 1;
    }
    None
}

/// A node that a selection found, with what surrounds it.
#[derive(Debug)]
pub struct NodeContext {
    /// The walk through the node.
    pub events: Vec<HtmlEvent>,
    /// The node written back as HTML.
    pub html: String,
    /// The walks through the nodes before it under the same parent, nearest first.
    pub preceding: Vec<Vec<HtmlEvent>>,
    /// The walks through the nodes after it under the same parent, in order.
    pub following: Vec<Vec<HtmlEvent>>,
}

/// What a [`NodeContext`] holds.
pub struct NodeContextView {
    pub events: Seq<EventView>,
    pub html: Seq<char>,
    pub preceding: Seq<Seq<EventView>>,
    pub following: Seq<Seq<EventView>>,
}

/// The views of walks, in order.
pub open spec fn walks_view(v: Seq<Vec<HtmlEvent>>) -> Seq<Seq<EventView>> {
    v.map_values(|n: Vec<HtmlEvent>| events_view(n@))
}

impl View for NodeContext {
    type V = NodeContextView;

    open spec fn view(&self) -> NodeContextView {
        NodeContextView {
            events: events_view(self.events@),
            html: self.html@,
            preceding: walks_view(self.preceding@),
            following: walks_view(self.following@),
        }
    }
}

/// What selecting nodes with what surrounds them found.
#[derive(Debug)]
pub enum ContextSelection {
    /// The selector of the scope is not a valid CSS selector.
    BadScope,
    /// No element matches the selector of the scope.
    NoScope,
    /// The selector is not a valid CSS selector.
    BadSelector,
    /// The elements the selector matches within the scope, in document order.
    Found(Vec<NodeContext>),
}

/// What a [`ContextSelection`] holds.
pub enum ContextSelectionView {
    BadScope,
    NoScope,
    BadSelector,
    Found(Seq<NodeContextView>),
}

impl View for ContextSelection {
    type V = ContextSelectionView;

    open spec fn view(&self) -> ContextSelectionView {
        match self {
            ContextSelection::BadScope => ContextSelectionView::BadScope,
            ContextSelection::NoScope => ContextSelectionView::NoScope,
            ContextSelection::BadSelector => ContextSelectionView::BadSelector,
            ContextSelection::Found(v) => ContextSelectionView::Found(v@.map_values(|c: NodeContext| c@)),
        }
    }
}

/// What `kuchiki` finds in the page `html` when it selects `selector` within the first
/// element that `scope` matches, each found node with its HTML and its siblings.
pub uninterp spec fn html_select_context(html: Seq<char>, scope: Seq<char>, selector: Seq<char>) -> ContextSelectionView;

/// A node with what surrounds it (`NodeRef::to_string`, `preceding_siblings`,
/// `following_siblings`), each node converted one for one.
#[verifier::external_body]
fn node_context(node: &NodeRef) -> NodeContext {
    NodeContext {
        events: node_events(node),
        html: node.to_string(),
        preceding: node.preceding_siblings().map(|n| node_events(&n)).collect(),
        following: node.following_siblings().map(|n| node_events(&n)).collect(),
    }
}

/// Select, in the page `html`, the elements that `selector` matches within the first
/// element that `scope` matches, each with its HTML and its siblings
/// (`kuchiki::parse_html`, then `NodeRef::select` twice).
///
/// The contract names the outcome (`html_select_context`): it is a function of the
/// three texts, and HTML parsing, CSS matching and HTML writing are not restated here.
#[verifier::external_body]
pub fn select_contexts(html: &str, scope: &str, selector: &str) -> (r: ContextSelection)
    ensures
        r@ == html_select_context(html@, scope@, selector@),
{
    let doc = kuchiki::parse_html().one(html);
    let first = match doc.select(scope) {
        Ok(mut found) => found.next(),
        Err(()) => return ContextSelection::BadScope,
    };
    match first.map(|s| s.as_node().select(selector)) {
        None => ContextSelection::NoScope,
        Some(Err(())) => ContextSelection::BadSelector,
        Some(Ok(found)) => ContextSelection::Found(found.map(|m| node_context(m.as_node())).collect()),
    }
}

/// The index just past the node that the walk is in at event `i`, with `d` of its
/// nodes open.
pub open spec fn node_end_from(events: Seq<EventView>, i: int, d: int) -> int
    decreases events.len() - i,
{
    if i < 0 || i >= events.len() {
        events.len() as int
    } else if events[i] is Close {
        if d <= 1 {
            i + 1
        } else {
            node_end_from(events, i + 1, d - 1)
        }
    } else {
        node_end_from(events, i + 1, d + 1)
    }
}

/// The walk through the node that starts at event `j`.
pub open spec fn node_at(events: Seq<EventView>, j: int) -> Seq<EventView> {
    events.subrange(j, node_end_from(events, j, 0))
}

/// The index just past the node that starts at event `j`.
pub fn node_end(events: &Vec<HtmlEvent>, j: usize) -> (r: usize)
    requires
        j < events@.len(),
    ensures
        r == node_end_from(events_view(events@), j as int, 0),
        j < r <= events@.len(),
{
    let ghost ev = events_view(events@);
    let mut i = j;
    let mut d: usize = 0;
    while i < events.len()
        invariant
            j <= i <= events@.len(),
            ev == events_view(events@),
            d <= i - j,
            i == j ==> d == 0,
            i > j ==> d >= 1,
            node_end_from(ev, j as int, 0) == node_end_from(ev, i as int, d as int),
        decreases events.len() - i,
    {
        let closes = match &events[i] {
            HtmlEvent::Close => true,
            _ => false,
        };
        assert(closes == (ev[i as int] is Close));
        if closes {
            if d <= 1 {
                return i + 1;
            }
            d = d - 1;
        } else {
            d = d + 1;
        }
        i = i + 1;
    }
    i
}

/// The character is ASCII whitespace, which separates the classes of an element.
pub open spec fn html_space(c: char) -> bool {
    c == ' ' || c == '\t' || c == '\n' || c == '\r' || c == '\u{c}'
}

/// The class list `classes` holds the class `name`: `name` stands in it between
/// whitespace or its ends.
pub open spec fn class_list_has(classes: Seq<char>, name: Seq<char>) -> bool {
    exists|i: int|
        #![trigger occurs_at(classes, name, i)]
        occurs_at(classes, name, i) && (i == 0 || html_space(classes[i - 1])) && (i + name.len() == classes.len()
            || html_space(classes[i + name.len()]))
}

/// A class list holds each of its words, whether the word stands alone, first, last or
/// between two others.
pub proof fn law_class_words(before: Seq<char>, name: Seq<char>, after: Seq<char>)
    ensures
        class_list_has(name, name),
        class_list_has(before + seq![' '] + name, name),
        class_list_has(name + seq![' '] + after, name),
        class_list_has(before + seq![' '] + name + seq![' '] + after, name),
{
    assert(name.subrange(0, name.len() as int) =~= name);
    assert(occurs_at(name, name, 0));
    let s1 = before + seq![' '] + name;
    let i1: int = before.len() as int + 1;
    assert(s1.subrange(i1, i1 + name.len()) =~= name);
    assert(occurs_at(s1, name, i1));
    assert(s1[i1 - 1] == ' ');
    let s2 = name + seq![' '] + after;
    assert(s2.subrange(0, name.len() as int) =~= name);
    assert(occurs_at(s2, name, 0));
    assert(s2[name.len() as int] == ' ');
    let s3 = before + seq![' '] + name + seq![' '] + after;
    assert(s3.subrange(i1, i1 + name.len()) =~= name);
    assert(occurs_at(s3, name, i1));
    assert(s3[i1 - 1] == ' ');
    assert(s3[i1 + name.len()] == ' ');
}

/// The element has the class `name`, as the selector `.name` asks.
pub open spec fn has_class(attrs: Seq<(Seq<char>, Seq<char>)>, name: Seq<char>) -> bool {
    attr_value(attrs, "class"@) matches Some(c) && class_list_has(c, name)
}

/// The starts of the elements from event `i` on that have the class `name`, in order.
pub open spec fn class_starts_from(events: Seq<EventView>, name: Seq<char>, i: int) -> Seq<int>
    decreases events.len() - i,
{
    if i < 0 || i >= events.len() {
        Seq::empty()
    } else {
        let rest = class_starts_from(events, name, i + 1);
        match events[i] {
            EventView::Open(_, a) => if has_class(a, name) {
                seq![i] + rest
            } else {
                rest
            },
            _ => rest,
        }
    }
}

/// The elements of the walk that have the class `name` (the node itself among them),
/// in document order, each as the walk through it.
pub open spec fn with_class(events: Seq<EventView>, name: Seq<char>) -> Seq<Seq<EventView>> {
    class_starts_from(events, name, 0).map_values(|j: int| node_at(events, j))
}

/// The index of the first element named `tag` from event `i` on.
pub open spec fn first_tag_index(events: Seq<EventView>, tag: Seq<char>, i: int) -> Option<int>
    decreases events.len() - i,
{
    if i < 0 || i >= events.len() {
        None
    } else {
        match events[i] {
            EventView::Open(t, _) => if t == tag {
                Some(i)
            } else {
                first_tag_index(events, tag, i + 1)
            },
            _ => first_tag_index(events, tag, i + 1),
        }
    }
}

/// The first element named `tag` of the walk (the node itself, or one in it), as the
/// walk through it.
pub open spec fn first_with_tag(events: Seq<EventView>, tag: Seq<char>) -> Option<Seq<EventView>> {
    match first_tag_index(events, tag, 0) {
        Some(j) => Some(node_at(events, j)),
        None => None,
    }
}

/// The class list holds the class `name`.
fn class_list_holds(classes: &str, name: &str) -> (r: bool)
    ensures
        r == class_list_has(classes@, name@),
{
    let n = classes.unicode_len();
    let m = name.unicode_len();
    if m > n {
        proof {
            assert forall|i: int| !#[trigger] occurs_at(classes@, name@, i) by {}
        }
        return false;
    }
    let mut i: usize = 0;
    while i <= n - m
        invariant
            n == classes@.len(),
            m == name@.len(),
            m <= n,
            i <= n - m,
            forall|k: int|
                0 <= k < i ==> !(#[trigger] occurs_at(classes@, name@, k) && (k == 0 || html_space(classes@[k - 1]))
                    && (k + m == n || html_space(classes@[k + m]))),
        ensures
            forall|k: int|
                0 <= k <= n - m ==> !(#[trigger] occurs_at(classes@, name@, k) && (k == 0 || html_space(classes@[k - 1]))
                    && (k + m == n || html_space(classes@[k + m]))),
        decreases n - m - i,
    {
        let sub = classes.substring_char(i, i + m);
        let before = i == 0 || {
            let c = classes.get_char(i - 1);
            c == ' ' || c == '\t' || c == '\n' || c == '\r' || c == '\u{c}'
        };
        let after = i + m == n || {
            let c = classes.get_char(i + m);
            c == ' ' || c == '\t' || c == '\n' || c == '\r' || c == '\u{c}'
        };
        if str_eq(sub, name) && before && after {
            assert(occurs_at(classes@, name@, i as int));
            return true;
        }
        assert(!(occurs_at(classes@, name@, i as int) && (i == 0 || html_space(classes@[i - 1])) && (i + m == n
            || html_space(classes@[i + m]))));
        if i == n - m {
            break;
        }
        i = i + 1;
    }
    proof {
        assert forall|k: int|
            !(#[trigger] occurs_at(classes@, name@, k) && (k == 0 || html_space(classes@[k - 1])) && (k + m == n
                || html_space(classes@[k + m]))) by {
            if occurs_at(classes@, name@, k) {
                assert(0 <= k <= n - m);
            }
        }
    }
    false
}

/// The element has the class `name`.
fn has_class_of(attrs: &Vec<(String, String)>, name: &str) -> (r: bool)
    ensures
        r == has_class(attrs_view(attrs@), name@),
{
    proof {
        reveal_strlit("class");
    }
    match attribute_of(attrs, "class") {
        Some(c) => class_list_holds(c.as_str(), name),
        None => false,
    }
}

/// The ranges of the elements of the walk that have the class `name`, in document
/// order.
pub fn class_ranges(events: &Vec<HtmlEvent>, name: &str) -> (r: Vec<(usize, usize)>)
    ensures
        r@.len() == with_class(events_view(events@), name@).len(),
        forall|k: int|
            0 <= k < r@.len() ==> #[trigger] r@[k].0 < r@[k].1 <= events@.len() && events_view(events@).subrange(
                r@[k].0 as int,
                r@[k].1 as int,
            ) == with_class(events_view(events@), name@)[k],
{
    let ghost ev = events_view(events@);
    let ghost all = class_starts_from(ev, name@, 0);
    let mut r: Vec<(usize, usize)> = Vec::new();
    let mut i: usize = 0;
    while i < events.len()
        invariant
            i <= events@.len(),
            ev == events_view(events@),
            all == class_starts_from(ev, name@, 0),
            all == r@.map_values(|p: (usize, usize)| p.0 as int) + class_starts_from(ev, name@, i as int),
            forall|k: int|
                #![trigger r@[k]]
                0 <= k < r@.len() ==> r@[k].0 < r@[k].1 <= events@.len() && r@[k].1 == node_end_from(
                    ev,
                    r@[k].0 as int,
                    0,
                ),
        decreases events.len() - i,
    {
        let ghost before = r@.map_values(|p: (usize, usize)| p.0 as int);
        match &events[i] {
            HtmlEvent::Open(_, a) => {
                if has_class_of(a, name) {
                    let e = node_end(events, i);
                    let ghost prev_r = r@;
                    r.push((i, e));
                    assert forall|k: int|
                        #![trigger r@[k]]
                        0 <= k < r@.len() implies r@[k].0 < r@[k].1 <= events@.len() && r@[k].1 == node_end_from(
                            ev,
                            r@[k].0 as int,
                            0,
                        ) by {
                        if k < prev_r.len() {
                            assert(r@[k] == prev_r[k]);
                        }
                    }
                    assert(r@.map_values(|p: (usize, usize)| p.0 as int) =~= before.push(i as int));
                    assert(before.push(i as int) + class_starts_from(ev, name@, i + 1) =~= before + (seq![i as int]
                        + class_starts_from(ev, name@, i + 1)));
                }
            },
            _ => {},
        }
        i = i + 1;
    }
    proof {
        assert(all =~= r@.map_values(|p: (usize, usize)| p.0 as int));
        assert forall|k: int| 0 <= k < r@.len() implies #[trigger] r@[k].0 < r@[k].1 <= events@.len()
            && ev.subrange(r@[k].0 as int, r@[k].1 as int) == with_class(ev, name@)[k] by {
            assert(all[k] == r@[k].0 as int);
        }
    }
    r
}

/// The range of the first element named `tag` of the walk.
pub fn first_tag_range(events: &Vec<HtmlEvent>, tag: &str) -> (r: Option<(usize, usize)>)
    ensures
        match first_with_tag(events_view(events@), tag@) {
            Some(n) => r matches Some(p) && p.0 < p.1 <= events@.len() && events_view(events@).subrange(
                p.0 as int,
                p.1 as int,
            ) == n && events_view(events@)[p.0 as int] is Open,
            None => r is None,
        },
{
    let ghost ev = events_view(events@);
    let mut i: usize = 0;
    while i < events.len()
        invariant
            i <= events@.len(),
            ev == events_view(events@),
            first_tag_index(ev, tag@, 0) == first_tag_index(ev, tag@, i as int),
        decreases events.len() - i,
    {
        match &events[i] {
            HtmlEvent::Open(t, _) => {
                if str_eq(t.as_str(), tag) {
                    let e = node_end(events, i);
                    assert(ev[i as int] is Open);
                    return Some((i, e));
                }
            },
            _ => {},
        }
        i = i + 1;
    }
    None
}

/// The starts of the elements named `tag` from event `i` on, in order.
pub open spec fn tag_starts_from(events: Seq<EventView>, tag: Seq<char>, i: int) -> Seq<int>
    decreases events.len() - i,
{
    if i < 0 || i >= events.len() {
        Seq::empty()
    } else {
        let rest = tag_starts_from(events, tag, i + 1);
        match events[i] {
            EventView::Open(t, _) => if t == tag {
                seq![i] + rest
            } else {
                rest
            },
            _ => rest,
        }
    }
}

/// The elements of the walk named `tag` (the node itself among them), in document
/// order, each as the walk through it.
pub open spec fn with_tag(events: Seq<EventView>, tag: Seq<char>) -> Seq<Seq<EventView>> {
    tag_starts_from(events, tag, 0).map_values(|j: int| node_at(events, j))
}

/// The ranges of the elements of the walk named `tag`, in document order.
pub fn tag_ranges(events: &Vec<HtmlEvent>, tag: &str) -> (r: Vec<(usize, usize)>)
    ensures
        r@.len() == with_tag(events_view(events@), tag@).len(),
        forall|k: int|
            0 <= k < r@.len() ==> #[trigger] r@[k].0 < r@[k].1 <= events@.len() && events_view(events@).subrange(
                r@[k].0 as int,
                r@[k].1 as int,
            ) == with_tag(events_view(events@), tag@)[k],
{
    let ghost ev = events_view(events@);
    let ghost all = tag_starts_from(ev, tag@, 0);
    let mut r: Vec<(usize, usize)> = Vec::new();
    let mut i: usize = 0;
    while i < events.len()
        invariant
            i <= events@.len(),
            ev == events_view(events@),
            all == tag_starts_from(ev, tag@, 0),
            all == r@.map_values(|p: (usize, usize)| p.0 as int) + tag_starts_from(ev, tag@, i as int),
            forall|k: int|
                #![trigger r@[k]]
                0 <= k < r@.len() ==> r@[k].0 < r@[k].1 <= events@.len() && r@[k].1 == node_end_from(
                    ev,
                    r@[k].0 as int,
                    0,
                ),
        decreases events.len() - i,
    {
        let ghost before = r@.map_values(|p: (usize, usize)| p.0 as int);
        match &events[i] {
            HtmlEvent::Open(t, _) => {
                if str_eq(t.as_str(), tag) {
                    let e = node_end(events, i);
                    let ghost prev_r = r@;
                    r.push((i, e));
                    assert forall|k: int|
                        #![trigger r@[k]]
                        0 <= k < r@.len() implies r@[k].0 < r@[k].1 <= events@.len() && r@[k].1 == node_end_from(
                            ev,
                            r@[k].0 as int,
                            0,
                        ) by {
                        if k < prev_r.len() {
                            assert(r@[k] == prev_r[k]);
                        }
                    }
                    assert(r@.map_values(|p: (usize, usize)| p.0 as int) =~= before.push(i as int));
                    assert(before.push(i as int) + tag_starts_from(ev, tag@, i + 1) =~= before + (seq![i as int]
                        + tag_starts_from(ev, tag@, i + 1)));
                }
            },
            _ => {},
        }
        i = i + 1;
    }
    proof {
        assert(all =~= r@.map_values(|p: (usize, usize)| p.0 as int));
        assert forall|k: int| 0 <= k < r@.len() implies #[trigger] r@[k].0 < r@[k].1 <= events@.len()
            && ev.subrange(r@[k].0 as int, r@[k].1 as int) == with_tag(ev, tag@)[k] by {
            assert(all[k] == r@[k].0 as int);
        }
    }
    r
}

} // verus!
