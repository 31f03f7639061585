//! The errors the guide reports on a form that was posted to it.

use vstd::prelude::*;

use crate::error::{html_error, is_html_error, Error, Kind};
use crate::codex::item_html::{element_walks, first_found};
use crate::codex::page_html::{attr_words, attribute_words_of, strs_of};
use crate::text::{concat3, seq_starts_with, spec_trim, string_views, strip_prefix, to_owned, trim};
use crate::utils::dom::{
    attrs_view, class_ranges, events_text, events_view, first_open, first_open_of, html_select, page_scope,
    select_nodes, tag_ranges, text_of, text_of_range, walks_view, with_class, with_tag, EventView, HtmlEvent,
    Selection, SelectionView,
};

verus! {

/// An `errors` element of the answer to a form: the words of its attribute values,
/// and the texts of the items of its error lists, in order.
#[derive(Debug, Clone)]
pub struct PostErrorsNode {
    /// The words of the attribute values of the element (split at spaces).
    pub attribute_words: Vec<String>,
    /// The texts of the `li` items of the element's error lists, trimmed.
    pub errors: Vec<String>,
}

/// The answer of the guide to a posted form.
#[derive(Debug, Clone)]
pub enum PostAnswer {
    /// The answer holds no form: the post succeeded.
    NoForm,
    /// The answer shows the form again: the text of its error note, if it has one,
    /// and its `errors` elements.
    Form { error_note: Option<String>, errors: Vec<PostErrorsNode> },
}

/// The fields that the words name: the words that start with `field-`, without it.
pub open spec fn field_names(words: Seq<String>) -> Seq<Seq<char>>
    decreases words.len(),
{
    if words.len() == 0 {
        Seq::empty()
    } else {
        let prev = field_names(words.drop_last());
        let w = words.last()@;
        if seq_starts_with(w, "field-"@) {
            prev.push(w.subrange(6, w.len() as int))
        } else {
            prev
        }
    }
}

/// The fields an errors element names are its class words that start with `field-`,
/// each without that prefix, in the order of the words; the other words name none.
pub proof fn law_field_names(words: Seq<String>)
    ensures
        field_names(words) == words.filter(|w: String| seq_starts_with(w@, "field-"@)).map_values(
            |w: String| w@.subrange(6, w@.len() as int),
        ),
    decreases words.len(),
{
    reveal(Seq::filter);
    let pred = |w: String| seq_starts_with(w@, "field-"@);
    let g = |w: String| w@.subrange(6, w@.len() as int);
    if words.len() > 0 {
        law_field_names(words.drop_last());
        let f = words.drop_last().filter(pred);
        assert(f.push(words.last()).map_values(g) =~= f.map_values(g).push(g(words.last())));
    } else {
        assert(words.filter(pred).map_values(g) =~= Seq::<Seq<char>>::empty());
    }
}

/// Each error, reported against the field: `{field}: {error}`.
pub open spec fn field_errors(field: Seq<char>, errors: Seq<String>) -> Seq<Seq<char>> {
    errors.map_values(|e: String| field + ": "@ + e@)
}

/// Each error reported against each field, field by field.
pub open spec fn fields_errors(fields: Seq<Seq<char>>, errors: Seq<String>) -> Seq<Seq<char>>
    decreases fields.len(),
{
    if fields.len() == 0 {
        Seq::empty()
    } else {
        fields_errors(fields.drop_last(), errors) + field_errors(fields.last(), errors)
    }
}

/// The errors of all the `errors` elements, element by element.
pub open spec fn answer_errors(nodes: Seq<PostErrorsNode>) -> Seq<Seq<char>>
    decreases nodes.len(),
{
    if nodes.len() == 0 {
        Seq::empty()
    } else {
        answer_errors(nodes.drop_last()) + fields_errors(
            field_names(nodes.last().attribute_words@),
            nodes.last().errors@,
        )
    }
}

/// `e` reports the errors of a posted form: the url, the error note and the errors,
/// with no context.
pub open spec fn is_post_form_error(e: Error, url: Seq<char>, note: Seq<char>, errors: Seq<Seq<char>>) -> bool {
    &&& e.context@.len() == 0
    &&& e.kind matches Kind::GuidePostFormError(u, g, v)
    &&& u@ == url
    &&& g@ == note
    &&& string_views(v@) == errors
}

/// The fields that the words name, in order.
fn strip_field_prefixes(words: &Vec<String>) -> (r: Vec<String>)
    ensures
        string_views(r@) == field_names(words@),
{
    let mut r: Vec<String> = Vec::new();
    let mut i: usize = 0;
    while i < words.len()
        invariant
            i <= words@.len(),
            string_views(r@) == field_names(words@.take(i as int)),
        decreases words.len() - i,
    {
        proof {
            assert(words@.take(i + 1).drop_last() =~= words@.take(i as int));
            reveal_strlit("field-");
        }
        let ghost prev = r@;
        match strip_prefix(words[i].as_str(), "field-") {
            Some(name) => {
                r.push(to_owned(name));
            },
            None => {},
        }
        assert(string_views(r@) =~= field_names(words@.take(i + 1)));
        i = i + 1;
    }
    assert(words@.take(words@.len() as int) =~= words@);
    r
}

/// Adds each error, reported against the field, to `out`.
fn push_field_errors(field: &str, errors: &Vec<String>, out: &mut Vec<String>)
    ensures
        string_views(final(out)@) == string_views(old(out)@) + field_errors(field@, errors@),
{
    let ghost start = out@;
    let mut i: usize = 0;
    while i < errors.len()
        invariant
            i <= errors@.len(),
            string_views(out@) == string_views(start) + field_errors(field@, errors@.take(i as int)),
        decreases errors.len() - i,
    {
        let ghost prev = out@;
        out.push(concat3(field, ": ", errors[i].as_str()));
        assert(field_errors(field@, errors@.take(i + 1)) =~= field_errors(field@, errors@.take(i as int)).push(
            field@ + ": "@ + errors@[i as int]@,
        ));
        assert(string_views(out@) =~= string_views(prev).push(field@ + ": "@ + errors@[i as int]@));
        i = i + 1;
    }
    assert(errors@.take(errors@.len() as int) =~= errors@);
}

/// The errors of an `errors` element: each error reported against each field the
/// element names.
fn node_errors(node: &PostErrorsNode, out: &mut Vec<String>)
    ensures
        string_views(final(out)@) == string_views(old(out)@) + fields_errors(
            field_names(node.attribute_words@),
            node.errors@,
        ),
{
    let fields = strip_field_prefixes(&node.attribute_words);
    let ghost start = out@;
    let mut i: usize = 0;
    while i < fields.len()
        invariant
            i <= fields@.len(),
            string_views(out@) == string_views(start) + fields_errors(
                string_views(fields@).take(i as int),
                node.errors@,
            ),
        decreases fields.len() - i,
    {
        let ghost prev = out@;
        push_field_errors(fields[i].as_str(), &node.errors, out);
        proof {
            let names = string_views(fields@);
            assert(names.take(i + 1).drop_last() =~= names.take(i as int));
            assert(names.take(i + 1).last() == fields@[i as int]@);
        }
        i = i + 1;
    }
    assert(string_views(fields@).take(fields@.len() as int) =~= string_views(fields@));
}

/// When receiving the response to a form POST request, look for errors in it: an
/// answer without the form is a success; otherwise the error reports the url, the
/// form's error note and each error reported against each field.
pub fn post_form_errors(url: &str, answer: &PostAnswer) -> (r: Result<(), Error>)
    ensures
        match *answer {
            PostAnswer::NoForm => r is Ok,
            PostAnswer::Form { error_note: None, .. } => r matches Err(e) && is_html_error(
                e,
                "Failed to find \".errornote\" in post error form"@,
            ),
            PostAnswer::Form { error_note: Some(note), errors } => r matches Err(e)
                && is_post_form_error(e, url@, note@, answer_errors(errors@)),
        },
{
    match answer {
        PostAnswer::NoForm => Ok(()),
        PostAnswer::Form { error_note: None, .. } => Err(
            html_error(to_owned("Failed to find \".errornote\" in post error form")),
        ),
        PostAnswer::Form { error_note: Some(note), errors } => {
            let mut specific: Vec<String> = Vec::new();
            assert(string_views(specific@) =~= Seq::empty());
            let mut i: usize = 0;
            while i < errors.len()
                invariant
                    i <= errors@.len(),
                    string_views(specific@) == answer_errors(errors@.take(i as int)),
                decreases errors.len() - i,
            {
                node_errors(&errors[i], &mut specific);
                proof {
                    assert(errors@.take(i + 1).drop_last() =~= errors@.take(i as int));
                    assert(errors@.take(i + 1).last() == errors@[i as int]);
                }
                i = i + 1;
            }
            assert(errors@.take(errors@.len() as int) =~= errors@);
            Err(
                Error {
                    kind: Kind::GuidePostFormError(to_owned(url), to_owned(note.as_str()), specific),
                    context: Vec::new(),
                },
            )
        },
    }
}

/// The texts, trimmed, of the `li` items of the lists, in order.
pub open spec fn list_items(lists: Seq<Seq<EventView>>) -> Seq<Seq<char>>
    decreases lists.len(),
{
    if lists.len() == 0 {
        Seq::empty()
    } else {
        list_items(lists.drop_last()) + with_tag(lists.last(), "li"@).map_values(
            |n: Seq<EventView>| spec_trim(events_text(n)),
        )
    }
}

/// The `errors` node is the element the walk goes through: the words of its attribute
/// values, and the items of its `.errorlist` elements.
pub open spec fn errors_node_matches(n: PostErrorsNode, events: Seq<EventView>) -> bool {
    match first_open(events) {
        Some((_, a)) => strs_of(n.attribute_words@) == attr_words(a) && strs_of(n.errors@) == list_items(
            with_class(events, "errorlist"@),
        ),
        None => false,
    }
}

/// The `errors` nodes are the elements the walks go through.
pub open spec fn errors_match(nodes: Seq<PostErrorsNode>, walks: Seq<Seq<EventView>>) -> bool {
    &&& nodes.len() == walks.len()
    &&& forall|i: int| 0 <= i < walks.len() ==> #[trigger] errors_node_matches(nodes[i], walks[i])
}

/// The message of the error when the answer shows no error note.
pub open spec fn no_note_message() -> Seq<char> {
    "Failed to find \".errornote\" in post error form"@
}

/// What the answer to a form gives, with the error note `note` and the `errors`
/// nodes `nodes`.
pub open spec fn post_outcome(r: Result<(), Error>, url: Seq<char>, note: Option<Seq<char>>, nodes: Seq<PostErrorsNode>) -> bool {
    match note {
        None => r matches Err(e) && is_html_error(e, no_note_message()),
        Some(n) => r matches Err(e) && is_post_form_error(e, url, n, answer_errors(nodes)),
    }
}

/// What the `errors` nodes `errs` and error notes `notes` of the answer give.
pub open spec fn post_errors_read(
    r: Result<(), Error>,
    url: Seq<char>,
    notes: Seq<Seq<EventView>>,
    errs: Seq<Seq<EventView>>,
) -> bool {
    exists|nodes: Seq<PostErrorsNode>|
        #[trigger] errors_match(nodes, element_walks(errs)) && post_outcome(
            r,
            url,
            if notes.len() > 0 {
                Some(spec_trim(events_text(notes[0])))
            } else {
                None
            },
            nodes,
        )
}

/// What the answer page `html` to the form `root` posted to `url` reads as: no form
/// means success; else the errors the form shows.
pub open spec fn post_answer_read(r: Result<(), Error>, url: Seq<char>, html: Seq<char>, root: Seq<char>) -> bool {
    match first_found(html, page_scope(), root) {
        None => r is Ok,
        Some(_) => match html_select(html, root, ".errornote"@) {
            SelectionView::Found(notes) => match html_select(html, root, ".errors"@) {
                SelectionView::Found(errs) => post_errors_read(r, url, notes, errs),
                _ => r matches Err(e) && is_html_error(e, "Failed to find \".errors\" in post error form"@),
            },
            _ => r matches Err(e) && is_html_error(e, no_note_message()),
        },
    }
}

/// The `errors` node the element walk goes through.
fn errors_node_of(events: &Vec<HtmlEvent>) -> (r: Option<PostErrorsNode>)
    ensures
        first_open(events_view(events@)) is None ==> r is None,
        first_open(events_view(events@)) is Some ==> (r matches Some(n) && errors_node_matches(n, events_view(events@))),
{
    proof {
        reveal_strlit("errorlist");
        reveal_strlit("li");
    }
    let a = match first_open_of(events) {
        None => {
            return None;
        },
        Some((_, a)) => a,
    };
    let attribute_words = attribute_words_of(a);
    let ghost ev = events_view(events@);
    let ghost lists = with_class(ev, "errorlist"@);
    let ranges = class_ranges(events, "errorlist");
    let mut errors: Vec<String> = Vec::new();
    let mut i: usize = 0;
    assert(lists.take(0) =~= Seq::<Seq<EventView>>::empty());
    assert(strs_of(errors@) =~= Seq::<Seq<char>>::empty());
    while i < ranges.len()
        invariant
            i <= ranges@.len(),
            ev == events_view(events@),
            lists == with_class(ev, "errorlist"@),
            ranges@.len() == lists.len(),
            forall|k: int|
                0 <= k < ranges@.len() ==> #[trigger] ranges@[k].0 < ranges@[k].1 <= events@.len() && ev.subrange(
                    ranges@[k].0 as int,
                    ranges@[k].1 as int,
                ) == lists[k],
            strs_of(errors@) == list_items(lists.take(i as int)),
        decreases ranges.len() - i,
    {
        let (s, e) = ranges[i];
        let list = events_range_of(events, s, e);
        assert(events_view(list@) == lists[i as int]);
        let items = tag_ranges(&list, "li");
        let ghost lis = with_tag(lists[i as int], "li"@);
        let ghost base = strs_of(errors@);
        let mut j: usize = 0;
        while j < items.len()
            invariant
                j <= items@.len(),
                items@.len() == lis.len(),
                lis == with_tag(events_view(list@), "li"@),
                forall|k: int|
                    0 <= k < items@.len() ==> #[trigger] items@[k].0 < items@[k].1 <= list@.len() && events_view(
                        list@,
                    ).subrange(items@[k].0 as int, items@[k].1 as int) == lis[k],
                strs_of(errors@) == base + lis.take(j as int).map_values(|n: Seq<EventView>| spec_trim(events_text(n))),
            decreases items.len() - j,
        {
            let (a0, b0) = items[j];
            let t = text_of_range(&list, a0, b0);
            let ghost prev = strs_of(errors@);
            errors.push(to_owned(trim(t.as_str())));
            assert(strs_of(errors@) =~= prev.push(spec_trim(events_text(lis[j as int]))));
            assert(lis.take(j + 1).map_values(|n: Seq<EventView>| spec_trim(events_text(n))) =~= lis.take(
                j as int,
            ).map_values(|n: Seq<EventView>| spec_trim(events_text(n))).push(spec_trim(events_text(lis[j as int]))));
            j = j + 1;
        }
        assert(lis.take(lis.len() as int) =~= lis);
        assert(lists.take(i + 1).drop_last() =~= lists.take(i as int));
        i = i + 1;
    }
    assert(lists.take(lists.len() as int) =~= lists);
    Some(PostErrorsNode { attribute_words, errors })
}

/// A copy of the events from `start` to `end`.
fn events_range_of(events: &Vec<HtmlEvent>, start: usize, end: usize) -> (r: Vec<HtmlEvent>)
    requires
        start <= end <= events@.len(),
    ensures
        events_view(r@) == events_view(events@).subrange(start as int, end as int),
{
    crate::codex::item_html::events_range(events, start, end)
}

/// When receiving the response to a form POST request, parse the response and look for errors.
pub fn parse_post_error_html(url: &str, contents: &str, form_root_name: &str) -> (r: Result<(), Error>)
    ensures
        post_answer_read(r, url@, contents@, form_root_name@),
{
    proof {
        reveal_strlit(":root");
        reveal_strlit(".errornote");
        reveal_strlit(".errors");
    }
    let found = match select_nodes(contents, ":root", form_root_name) {
        Selection::Found(v) => v.len() > 0,
        _ => false,
    };
    if !found {
        return Ok(());
    }
    let notes = match select_nodes(contents, form_root_name, ".errornote") {
        Selection::Found(v) => v,
        _ => {
            return Err(html_error(to_owned("Failed to find \".errornote\" in post error form")));
        },
    };
    let errs = match select_nodes(contents, form_root_name, ".errors") {
        Selection::Found(v) => v,
        _ => {
            return Err(html_error(to_owned("Failed to find \".errors\" in post error form")));
        },
    };
    let ghost ew = walks_view(errs@);
    let mut nodes: Vec<PostErrorsNode> = Vec::new();
    let ghost mut kept: Seq<Seq<EventView>> = Seq::empty();
    let mut i: usize = 0;
    while i < errs.len()
        invariant
            i <= errs@.len(),
            ew == walks_view(errs@),
            kept == element_walks(ew.take(i as int)),
            errors_match(nodes@, kept),
        decreases errs.len() - i,
    {
        proof {
            assert(ew.take(i + 1).drop_last() =~= ew.take(i as int));
            assert(ew.take(i + 1).last() == events_view(errs@[i as int]@));
        }
        match errors_node_of(&errs[i]) {
            Some(n) => {
                nodes.push(n);
                proof {
                    kept = kept.push(events_view(errs@[i as int]@));
                    assert forall|k: int| 0 <= k < kept.len() implies #[trigger] errors_node_matches(nodes@[k], kept[k]) by {
                        if k < kept.len() - 1 {
                            assert(errors_node_matches(nodes@[k], kept[k]));
                        }
                    }
                }
            },
            None => {},
        }
        i = i + 1;
    }
    assert(ew.take(errs@.len() as int) =~= ew);
    let error_note = if notes.len() > 0 {
        let t = text_of(&notes[0]);
        Some(to_owned(trim(t.as_str())))
    } else {
        None
    };
    let answer = PostAnswer::Form { error_note, errors: nodes };
    let r = post_form_errors(url, &answer);
    proof {
        assert(errors_match(nodes@, element_walks(ew)) && post_outcome(
            r,
            url@,
            if walks_view(notes@).len() > 0 {
                Some(spec_trim(events_text(walks_view(notes@)[0])))
            } else {
                None
            },
            nodes@,
        ));
    }
    r
}

} // verus!
