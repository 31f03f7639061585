//! Forms of the admin view of the guide, as lists of fields.

use vstd::prelude::*;

use crate::error::{html_error, is_html_error, Error};
use crate::text::{concat2, concat3, str_eq, to_owned};
use crate::utils::dom::{
    attr_value, attribute_of, events_text, events_view, first_open, first_open_of, html_select, page_scope,
    select_nodes, text_of, EventView, HtmlEvent, Selection, SelectionView,
};

verus! {

/// Parsed form, csrf token included.
#[derive(Debug, Default)]
pub struct ParsedForm {
    /// List of (key, value) pairs that were extracted from the form. The key component is the name
    /// of the field.
    pub fields: Vec<(String, String)>,
    /// The csrf token to pass when editing the item.
    pub csrfmiddlewaretoken: String,
}

/// The characters of each key and value of `fields`.
pub open spec fn fields_view(fields: Seq<(String, String)>) -> Seq<(Seq<char>, Seq<char>)> {
    fields.map_values(|p: (String, String)| (p.0@, p.1@))
}

/// Removing the first field removes its view.
pub proof fn lemma_fields_view_remove_first(s: Seq<(String, String)>)
    requires
        s.len() > 0,
    ensures
        fields_view(s.remove(0)) == fields_view(s).skip(1),
        fields_view(s)[0] == (s[0].0@, s[0].1@),
{
    assert(fields_view(s.remove(0)) =~= fields_view(s).skip(1));
}

impl View for ParsedForm {
    type V = (Seq<(Seq<char>, Seq<char>)>, Seq<char>);

    open spec fn view(&self) -> (Seq<(Seq<char>, Seq<char>)>, Seq<char>) {
        (fields_view(self.fields@), self.csrfmiddlewaretoken@)
    }
}

/// An option of a `select` element.
#[derive(Debug, Clone)]
pub struct FormOption {
    /// Whether the option is selected.
    pub selected: bool,
    /// The `value` attribute of the option, if it has one.
    pub value: Option<String>,
}

/// A field element of a form, as far as its values are read.
#[derive(Debug, Clone)]
pub enum FormFieldNode {
    /// An `input` element: its `type` and `value` attributes, if there, and whether it
    /// has a `checked` attribute.
    Input { input_type: Option<String>, value: Option<String>, checked: bool },
    /// A `select` element and its `option` children, in order.
    Select { options: Vec<FormOption> },
    /// A `textarea` element and the text it holds.
    Textarea { text: String },
    /// An element with another tag.
    Other { tag: String },
}

/// What looking for the element of a field (by its html id `#id_{name}`) in a form
/// found.
#[derive(Debug, Clone)]
pub enum FieldLookup {
    /// The html id made no valid selector.
    InvalidSelector,
    /// No element has the html id.
    Missing,
    /// The element with the html id.
    Found(FormFieldNode),
}

/// The input types whose value the form reads.
pub open spec fn known_input_type(t: Seq<char>) -> bool {
    t == "text"@ || t == "number"@ || t == "checkbox"@
}

/// Reading the values of the element does not panic: an input has a known type, a
/// selected option has a value, and the tag is one of a field.
pub open spec fn field_node_ok(node: FormFieldNode) -> bool {
    match node {
        FormFieldNode::Input { input_type, .. } => input_type matches Some(t) && known_input_type(
            t@,
        ),
        FormFieldNode::Select { options } => forall|i: int|
            0 <= i < options@.len() && #[trigger] options@[i].selected ==> options@[i].value is Some,
        FormFieldNode::Textarea { .. } => true,
        FormFieldNode::Other { .. } => false,
    }
}

/// Reading the field does not panic.
pub open spec fn field_lookup_ok(lookup: FieldLookup) -> bool {
    match lookup {
        FieldLookup::Found(node) => field_node_ok(node),
        _ => true,
    }
}

/// The value of an input: text and number inputs give their value (empty when
/// absent), a checkbox gives `on` when checked and nothing otherwise.
pub open spec fn input_value(input_type: Seq<char>, value: Option<String>, checked: bool) -> Option<
    Seq<char>,
> {
    if input_type == "checkbox"@ {
        if checked {
            Some("on"@)
        } else {
            None
        }
    } else {
        match value {
            Some(v) => Some(v@),
            None => Some(Seq::empty()),
        }
    }
}

/// The values of the selected options, in order.
pub open spec fn selected_values(options: Seq<FormOption>) -> Seq<Seq<char>>
    decreases options.len(),
{
    if options.len() == 0 {
        Seq::empty()
    } else {
        let prev = selected_values(options.drop_last());
        if options.last().selected {
            match options.last().value {
                Some(v) => prev.push(v@),
                None => prev,
            }
        } else {
            prev
        }
    }
}

/// A select gives the value of each of its selected options that has one, in the
/// order of the options, and nothing of the others.
pub proof fn law_selected_values(options: Seq<FormOption>)
    ensures
        selected_values(options) == options.filter(|o: FormOption| o.selected && o.value is Some).map_values(
            |o: FormOption| o.value->0@,
        ),
    decreases options.len(),
{
    reveal(Seq::filter);
    let pred = |o: FormOption| o.selected && o.value is Some;
    let g = |o: FormOption| o.value->0@;
    if options.len() > 0 {
        law_selected_values(options.drop_last());
        let f = options.drop_last().filter(pred);
        assert(f.push(options.last()).map_values(g) =~= f.map_values(g).push(g(options.last())));
    } else {
        assert(options.filter(pred).map_values(g) =~= Seq::<Seq<char>>::empty());
    }
}

/// The values a field element gives, in order.
pub open spec fn node_values(node: FormFieldNode) -> Seq<Seq<char>> {
    match node {
        FormFieldNode::Input { input_type, value, checked } => match input_type {
            Some(t) => match input_value(t@, value, checked) {
                Some(v) => seq![v],
                None => Seq::empty(),
            },
            None => Seq::empty(),
        },
        FormFieldNode::Select { options } => selected_values(options@),
        FormFieldNode::Textarea { text } => seq![text@],
        FormFieldNode::Other { .. } => Seq::empty(),
    }
}

/// The pairs a field named `name` adds to a form: one per value.
pub open spec fn named_values(name: Seq<char>, values: Seq<Seq<char>>) -> Seq<(Seq<char>, Seq<char>)> {
    values.map_values(|v: Seq<char>| (name, v))
}

/// The message of the error when the html id of the field `name` makes no selector.
pub open spec fn bad_selector_message(name: Seq<char>) -> Seq<char> {
    "Failed to select html id #id_"@ + name + " in guide form parsing"@
}

/// The message of the error when no element has the html id of the field `name`.
pub open spec fn missing_node_message(name: Seq<char>) -> Seq<char> {
    "No node #id_"@ + name + " in guide form parsing"@
}

/// The fields the first `n` names give, or the message of the first error.
pub open spec fn form_fields(names: Seq<Seq<char>>, lookups: Seq<FieldLookup>, n: int) -> Result<
    Seq<(Seq<char>, Seq<char>)>,
    Seq<char>,
>
    decreases n,
{
    if n <= 0 {
        Ok(Seq::empty())
    } else {
        match form_fields(names, lookups, n - 1) {
            Err(m) => Err(m),
            Ok(prev) => match lookups[n - 1] {
                FieldLookup::InvalidSelector => Err(bad_selector_message(names[n - 1])),
                FieldLookup::Missing => Err(missing_node_message(names[n - 1])),
                FieldLookup::Found(node) => Ok(prev + named_values(names[n - 1], node_values(node))),
            },
        }
    }
}

/// Once a field fails, the fields of more names fail the same way.
proof fn lemma_form_fields_err_sticks(names: Seq<Seq<char>>, lookups: Seq<FieldLookup>, k: int, n: int)
    requires
        0 < k <= n,
        form_fields(names, lookups, k) is Err,
    ensures
        form_fields(names, lookups, n) == form_fields(names, lookups, k),
    decreases n - k,
{
    if k < n {
        lemma_form_fields_err_sticks(names, lookups, k, n - 1);
    }
}

/// Find the value of the given `input` field.
pub fn find_input_field_value(input_type: &Option<String>, value: &Option<String>, checked: bool) -> (r: Option<String>)
    requires
        input_type matches Some(t) && known_input_type(t@),
    ensures
        match input_type {
            Some(t) => match input_value(t@, *value, checked) {
                Some(v) => r matches Some(x) && x@ == v,
                None => r is None,
            },
            None => false,
        },
{
    let t = match input_type {
        Some(t) => t.as_str(),
        None => {
            return None;
        },
    };
    if str_eq(t, "checkbox") {
        if checked {
            Some(to_owned("on"))
        } else {
            None
        }
    } else {
        match value {
            Some(v) => Some(to_owned(v.as_str())),
            None => Some(String::new()),
        }
    }
}

/// The values of the selected options of a `select` field, in order.
pub fn find_select_field_value(options: &Vec<FormOption>) -> (r: Vec<String>)
    requires
        forall|i: int|
            0 <= i < options@.len() && #[trigger] options@[i].selected ==> options@[i].value is Some,
    ensures
        r@.map_values(|s: String| s@) == selected_values(options@),
{
    let mut r: Vec<String> = Vec::new();
    let mut i: usize = 0;
    while i < options.len()
        invariant
            i <= options@.len(),
            forall|k: int|
                0 <= k < options@.len() && #[trigger] options@[k].selected ==> options@[k].value is Some,
            r@.map_values(|s: String| s@) == selected_values(options@.take(i as int)),
        decreases options.len() - i,
    {
        proof {
            assert(options@.take(i + 1).drop_last() =~= options@.take(i as int));
        }
        if options[i].selected {
            match &options[i].value {
                Some(v) => r.push(to_owned(v.as_str())),
                None => {},
            }
        }
        assert(r@.map_values(|s: String| s@) =~= selected_values(options@.take(i + 1)));
        i = i + 1;
    }
    assert(options@.take(options@.len() as int) =~= options@);
    r
}

/// Find the value of the given field in the form and add it to `fields`.
///
/// All fields have an id that is `#id_{name}` with `name` the name of the field (`tier`,
/// `image_name`, ...).
/// Depending on the kind of element that holds the field, one value (an input, a textarea),
/// none (an unchecked checkbox) or one per selected option (a select) is pushed into `fields`.
pub fn add_field_value(lookup: &FieldLookup, field_name: &str, fields: &mut Vec<(String, String)>) -> (r: Result<(), Error>)
    requires
        field_lookup_ok(*lookup),
    ensures
        match *lookup {
            FieldLookup::InvalidSelector => r matches Err(e) && is_html_error(
                e,
                bad_selector_message(field_name@),
            ) && final(fields)@ == old(fields)@,
            FieldLookup::Missing => r matches Err(e) && is_html_error(
                e,
                missing_node_message(field_name@),
            ) && final(fields)@ == old(fields)@,
            FieldLookup::Found(node) => r is Ok && fields_view(final(fields)@) == fields_view(old(fields)@)
                + named_values(field_name@, node_values(node)),
        },
{
    match lookup {
        FieldLookup::InvalidSelector => {
            let a = concat3("Failed to select html id #id_", field_name, " in guide form parsing");
            Err(html_error(a))
        },
        FieldLookup::Missing => Err(html_error(concat3("No node #id_", field_name, " in guide form parsing"))),
        FieldLookup::Found(node) => {
            let ghost before = fields@;
            let values: Vec<String> = match node {
                FormFieldNode::Input { input_type, value, checked } => {
                    match find_input_field_value(input_type, value, *checked) {
                        Some(v) => {
                            let mut vs: Vec<String> = Vec::new();
                            vs.push(v);
                            vs
                        },
                        None => Vec::new(),
                    }
                },
                FormFieldNode::Select { options } => find_select_field_value(options),
                FormFieldNode::Textarea { text } => {
                    let mut vs: Vec<String> = Vec::new();
                    vs.push(to_owned(text.as_str()));
                    vs
                },
                FormFieldNode::Other { .. } => Vec::new(),
            };
            assert(values@.map_values(|s: String| s@) =~= node_values(*node));
            let mut i: usize = 0;
            while i < values.len()
                invariant
                    i <= values@.len(),
                    fields_view(fields@) == fields_view(before) + named_values(
                        field_name@,
                        values@.take(i as int).map_values(|s: String| s@),
                    ),
                decreases values.len() - i,
            {
                let ghost prev = fields@;
                fields.push((to_owned(field_name), to_owned(values[i].as_str())));
                assert(fields_view(fields@) =~= fields_view(prev).push((field_name@, values@[i as int]@)));
                assert(named_values(field_name@, values@.take(i + 1).map_values(|s: String| s@))
                    =~= named_values(field_name@, values@.take(i as int).map_values(|s: String| s@)).push(
                    (field_name@, values@[i as int]@),
                ));
                assert(fields_view(fields@) =~= fields_view(before) + named_values(
                    field_name@,
                    values@.take(i + 1).map_values(|s: String| s@),
                ));
                i = i + 1;
            }
            assert(values@.take(values@.len() as int) =~= values@);
            Ok(())
        },
    }
}

/// Extract the given fields of a form, the element of each field looked up beforehand,
/// and pair them with the form's csrf token.
pub fn parse_form_fields(field_names: &[&str], lookups: &Vec<FieldLookup>, csrfmiddlewaretoken: String) -> (r: Result<ParsedForm, Error>)
    requires
        lookups@.len() == field_names@.len(),
        forall|i: int| 0 <= i < lookups@.len() ==> #[trigger] field_lookup_ok(lookups@[i]),
    ensures
        match form_fields(
            field_names@.map_values(|n: &str| n@),
            lookups@,
            field_names@.len() as int,
        ) {
            Ok(fs) => r matches Ok(f) && f@ == (fs, csrfmiddlewaretoken@),
            Err(m) => r matches Err(e) && is_html_error(e, m),
        },
{
    let ghost names = field_names@.map_values(|n: &str| n@);
    let mut fields: Vec<(String, String)> = Vec::new();
    assert(fields_view(fields@) =~= Seq::empty());
    let mut i: usize = 0;
    while i < field_names.len()
        invariant
            i <= field_names@.len(),
            lookups@.len() == field_names@.len(),
            names == field_names@.map_values(|n: &str| n@),
            forall|k: int| 0 <= k < lookups@.len() ==> #[trigger] field_lookup_ok(lookups@[k]),
            form_fields(names, lookups@, i as int) == Ok::<Seq<(Seq<char>, Seq<char>)>, Seq<char>>(
                fields_view(fields@),
            ),
        decreases field_names.len() - i,
    {
        assert(names[i as int] == field_names@[i as int]@);
        match add_field_value(&lookups[i], field_names[i], &mut fields) {
            Ok(()) => {},
            Err(e) => {
                proof {
                    lemma_form_fields_err_sticks(names, lookups@, i + 1, field_names@.len() as int);
                }
                return Err(e);
            },
        }
        i = i + 1;
    }
    Ok(ParsedForm { fields, csrfmiddlewaretoken })
}

/// Find the csrfmiddlewaretoken in the form: the value of its input.
pub fn find_csrfmiddlewaretoken(node: &FormFieldNode) -> (r: String)
    requires
        node matches FormFieldNode::Input { value, .. } && value is Some,
    ensures
        node matches FormFieldNode::Input { value, .. } && value matches Some(v) && r@ == v@,
{
    match node {
        FormFieldNode::Input { value: Some(v), .. } => to_owned(v.as_str()),
        _ => String::new(),
    }
}

/// The selector of the element of the field `name`.
pub open spec fn id_selector(name: Seq<char>) -> Seq<char> {
    "#id_"@ + name
}

/// The selector of the `option` children of the element of the field `name`.
pub open spec fn option_selector(name: Seq<char>) -> Seq<char> {
    "#id_"@ + name + " > option"@
}

/// The selector of the input that holds the csrf token of a form.
pub open spec fn token_selector() -> Seq<char> {
    "[name=\"csrfmiddlewaretoken\"]"@
}

/// The message of the error when no element of the page matches `root`.
pub open spec fn missing_form_message(root: Seq<char>) -> Seq<char> {
    "Failed to find \""@ + root + "\" in html"@
}

/// The `option` children of the element of the field `name` in the form.
pub open spec fn options_found(html: Seq<char>, root: Seq<char>, name: Seq<char>) -> Seq<Seq<EventView>> {
    match html_select(html, root, option_selector(name)) {
        SelectionView::Found(v) => v,
        _ => Seq::empty(),
    }
}

/// The values of the selected options, in order.
pub open spec fn option_values(options: Seq<Seq<EventView>>) -> Seq<Seq<char>>
    decreases options.len(),
{
    if options.len() == 0 {
        Seq::empty()
    } else {
        let prev = option_values(options.drop_last());
        match first_open(options.last()) {
            Some((_, a)) => if attr_value(a, "selected"@) is Some {
                match attr_value(a, "value"@) {
                    Some(v) => prev.push(v),
                    None => prev,
                }
            } else {
                prev
            },
            None => prev,
        }
    }
}

/// Reading the option does not panic: when selected, it has a value.
pub open spec fn option_ok(option: Seq<EventView>) -> bool {
    match first_open(option) {
        Some((_, a)) => attr_value(a, "selected"@) is Some ==> attr_value(a, "value"@) is Some,
        None => true,
    }
}

/// The values the element of a field gives: an input its value (empty when absent;
/// `on` for a checked checkbox, nothing for an unchecked one), a select the values of
/// its selected options, a textarea its text.
pub open spec fn element_values(element: Seq<EventView>, options: Seq<Seq<EventView>>) -> Seq<Seq<char>> {
    match first_open(element) {
        Some((tag, a)) => if tag == "input"@ {
            match attr_value(a, "type"@) {
                Some(t) => if t == "checkbox"@ {
                    if attr_value(a, "checked"@) is Some {
                        seq!["on"@]
                    } else {
                        Seq::empty()
                    }
                } else {
                    seq![
                        match attr_value(a, "value"@) {
                            Some(v) => v,
                            None => Seq::empty(),
                        },
                    ]
                },
                None => Seq::empty(),
            }
        } else if tag == "select"@ {
            option_values(options)
        } else if tag == "textarea"@ {
            seq![events_text(element)]
        } else {
            Seq::empty()
        },
        None => Seq::empty(),
    }
}

/// Reading the element of a field does not panic: it is an input of a known type, a
/// select whose selected options have a value, or a textarea.
pub open spec fn element_ok(element: Seq<EventView>, options: Seq<Seq<EventView>>) -> bool {
    match first_open(element) {
        Some((tag, a)) => if tag == "input"@ {
            attr_value(a, "type"@) matches Some(t) && known_input_type(t)
        } else if tag == "select"@ {
            forall|i: int| 0 <= i < options.len() ==> #[trigger] option_ok(options[i])
        } else {
            tag == "textarea"@
        },
        None => false,
    }
}

/// The fields the first `n` names give, read from the form `root` of the page
/// `html`, or the message of the first error.
pub open spec fn page_fields(html: Seq<char>, root: Seq<char>, names: Seq<Seq<char>>, n: int) -> Result<
    Seq<(Seq<char>, Seq<char>)>,
    Seq<char>,
>
    decreases n,
{
    if n <= 0 {
        Ok(Seq::empty())
    } else {
        match page_fields(html, root, names, n - 1) {
            Err(m) => Err(m),
            Ok(prev) => {
                let name = names[n - 1];
                match html_select(html, root, id_selector(name)) {
                    SelectionView::Found(v) => if v.len() == 0 {
                        Err(missing_node_message(name))
                    } else {
                        Ok(prev + named_values(name, element_values(v[0], options_found(html, root, name))))
                    },
                    SelectionView::BadSelector => Err(bad_selector_message(name)),
                    _ => Err(missing_form_message(root)),
                }
            },
        }
    }
}

/// Reading the fields of the first `n` names does not panic.
pub open spec fn page_fields_ok(html: Seq<char>, root: Seq<char>, names: Seq<Seq<char>>, n: int) -> bool
    decreases n,
{
    if n <= 0 {
        true
    } else {
        &&& page_fields_ok(html, root, names, n - 1)
        &&& page_fields(html, root, names, n - 1) is Ok ==> match html_select(html, root, id_selector(names[n - 1])) {
            SelectionView::Found(v) => v.len() > 0 ==> element_ok(v[0], options_found(html, root, names[n - 1])),
            _ => true,
        }
    }
}

/// The csrf token of the form: the value of its first token element, when that is an
/// input with a value.
pub open spec fn token_value(html: Seq<char>, root: Seq<char>) -> Option<Seq<char>> {
    match html_select(html, root, token_selector()) {
        SelectionView::Found(v) => if v.len() > 0 {
            match first_open(v[0]) {
                Some((t, a)) => if t == "input"@ {
                    attr_value(a, "value"@)
                } else {
                    None
                },
                None => None,
            }
        } else {
            None
        },
        _ => None,
    }
}

/// Some element of the page matches `root`.
pub open spec fn form_found(html: Seq<char>, root: Seq<char>) -> bool {
    html_select(html, page_scope(), root) matches SelectionView::Found(v) && v.len() > 0
}

/// The form `root` of the page `html` with the fields `names`: its fields and csrf
/// token, or the message of the first error.
pub open spec fn page_form(html: Seq<char>, root: Seq<char>, names: Seq<Seq<char>>) -> Result<
    (Seq<(Seq<char>, Seq<char>)>, Seq<char>),
    Seq<char>,
> {
    if !form_found(html, root) {
        Err(missing_form_message(root))
    } else {
        match page_fields(html, root, names, names.len() as int) {
            Err(m) => Err(m),
            Ok(fs) => Ok(
                (
                    fs,
                    match token_value(html, root) {
                        Some(t) => t,
                        None => Seq::empty(),
                    },
                ),
            ),
        }
    }
}

/// Reading the form `root` of the page `html` does not panic: each field element read
/// is one the form can read, and the form has an input with its csrf token.
pub open spec fn page_form_ok(html: Seq<char>, root: Seq<char>, names: Seq<Seq<char>>) -> bool {
    form_found(html, root) ==> {
        &&& page_fields_ok(html, root, names, names.len() as int)
        &&& page_fields(html, root, names, names.len() as int) is Ok ==> token_value(html, root) is Some
    }
}

/// The characters of each of `names`.
pub open spec fn names_view(names: Seq<&str>) -> Seq<Seq<char>> {
    names.map_values(|n: &str| n@)
}

/// What the page `html` reads as, for the form `root` with the fields `names`.
pub open spec fn form_read(r: Result<ParsedForm, Error>, html: Seq<char>, root: Seq<char>, names: Seq<Seq<char>>) -> bool {
    match page_form(html, root, names) {
        Ok((fs, t)) => r matches Ok(f) && f@ == (fs, t),
        Err(m) => r matches Err(e) && is_html_error(e, m),
    }
}

/// The values of the selected options, or `None` when a selected option has no value.
fn read_option_values(options: &Vec<Vec<HtmlEvent>>) -> (r: Option<Vec<String>>)
    ensures
        (forall|i: int| 0 <= i < options@.len() ==> #[trigger] option_ok(events_view(options@[i]@))) ==> (r matches Some(
            v,
        ) && v@.map_values(|s: String| s@) == option_values(
            options@.map_values(|n: Vec<HtmlEvent>| events_view(n@)),
        )),
        !(forall|i: int| 0 <= i < options@.len() ==> #[trigger] option_ok(events_view(options@[i]@))) ==> r is None,
{
    let ghost all = options@.map_values(|n: Vec<HtmlEvent>| events_view(n@));
    let mut r: Vec<String> = Vec::new();
    let mut i: usize = 0;
    while i < options.len()
        invariant
            i <= options@.len(),
            all == options@.map_values(|n: Vec<HtmlEvent>| events_view(n@)),
            forall|k: int| 0 <= k < i ==> #[trigger] option_ok(events_view(options@[k]@)),
            r@.map_values(|s: String| s@) == option_values(all.take(i as int)),
        decreases options.len() - i,
    {
        proof {
            assert(all.take(i + 1).drop_last() =~= all.take(i as int));
            assert(all.take(i + 1).last() == events_view(options@[i as int]@));
        }
        let ghost prev = r@;
        match first_open_of(&options[i]) {
            Some((_, a)) => {
                if attribute_of(a, "selected").is_some() {
                    match attribute_of(a, "value") {
                        Some(v) => {
                            r.push(v);
                            assert(r@.map_values(|s: String| s@) =~= prev.map_values(|s: String| s@).push(
                                r@.last()@,
                            ));
                        },
                        None => {
                            assert(!option_ok(events_view(options@[i as int]@)));
                            return None;
                        },
                    }
                }
            },
            None => {},
        }
        i = i + 1;
    }
    assert(all.take(options@.len() as int) =~= all);
    Some(r)
}

/// The values the element of the field `name` gives, or `None` where reading it
/// panics.
fn read_element_values(html: &str, root: &str, name: &str, element: &Vec<HtmlEvent>) -> (r: Option<Vec<String>>)
    ensures
        element_ok(events_view(element@), options_found(html@, root@, name@)) ==> (r matches Some(v)
            && v@.map_values(|s: String| s@) == element_values(
            events_view(element@),
            options_found(html@, root@, name@),
        )),
        !element_ok(events_view(element@), options_found(html@, root@, name@)) ==> r is None,
{
    let ghost opts = options_found(html@, root@, name@);
    match first_open_of(element) {
        None => None,
        Some((tag, a)) => {
            if str_eq(tag.as_str(), "input") {
                match attribute_of(a, "type") {
                    None => None,
                    Some(t) => {
                        if str_eq(t.as_str(), "checkbox") {
                            if attribute_of(a, "checked").is_some() {
                                let mut v: Vec<String> = Vec::new();
                                v.push(to_owned("on"));
                                assert(v@.map_values(|s: String| s@) =~= seq!["on"@]);
                                Some(v)
                            } else {
                                let v: Vec<String> = Vec::new();
                                assert(v@.map_values(|s: String| s@) =~= Seq::<Seq<char>>::empty());
                                Some(v)
                            }
                        } else if str_eq(t.as_str(), "text") || str_eq(t.as_str(), "number") {
                            let value = match attribute_of(a, "value") {
                                Some(x) => x,
                                None => String::new(),
                            };
                            let mut v: Vec<String> = Vec::new();
                            v.push(value);
                            assert(v@.map_values(|s: String| s@) =~= seq![v@[0]@]);
                            Some(v)
                        } else {
                            None
                        }
                    },
                }
            } else if str_eq(tag.as_str(), "select") {
                let selector = concat3("#id_", name, " > option");
                match select_nodes(html, root, selector.as_str()) {
                    Selection::Found(options) => {
                        assert(options@.map_values(|n: Vec<HtmlEvent>| events_view(n@)) == opts);
                        let r = read_option_values(&options);
                        proof {
                            if forall|i: int| 0 <= i < opts.len() ==> #[trigger] option_ok(opts[i]) {
                                assert forall|i: int| 0 <= i < options@.len() implies #[trigger] option_ok(
                                    events_view(options@[i]@),
                                ) by {
                                    assert(events_view(options@[i]@) == opts[i]);
                                }
                            } else {
                                let i = choose|i: int| 0 <= i < opts.len() && !#[trigger] option_ok(opts[i]);
                                assert(events_view(options@[i]@) == opts[i]);
                            }
                        }
                        r
                    },
                    _ => {
                        let v: Vec<String> = Vec::new();
                        assert(v@.map_values(|s: String| s@) =~= Seq::<Seq<char>>::empty());
                        assert(option_values(opts) == Seq::<Seq<char>>::empty());
                        Some(v)
                    },
                }
            } else if str_eq(tag.as_str(), "textarea") {
                let mut v: Vec<String> = Vec::new();
                v.push(text_of(element));
                assert(v@.map_values(|s: String| s@) =~= seq![v@[0]@]);
                Some(v)
            } else {
                None
            }
        },
    }
}

/// Read the form `root` of the page `contents` with the fields `field_names`, or
/// `None` where reading it panics (see [`page_form_ok`]).
pub fn read_html_form(contents: &str, form_root_name: &str, field_names: &[&str]) -> (r: Option<
    Result<ParsedForm, Error>,
>)
    ensures
        r is Some <==> page_form_ok(contents@, form_root_name@, names_view(field_names@)),
        r matches Some(res) ==> form_read(res, contents@, form_root_name@, names_view(field_names@)),
{
    let ghost html = contents@;
    let ghost root = form_root_name@;
    let ghost names = names_view(field_names@);
    let missing = match select_nodes(contents, ":root", form_root_name) {
        Selection::Found(v) => v.len() == 0,
        _ => true,
    };
    proof {
        reveal_strlit(":root");
    }
    if missing {
        return Some(Err(html_error(concat3("Failed to find \"", form_root_name, "\" in html"))));
    }
    let mut fields: Vec<(String, String)> = Vec::new();
    assert(fields_view(fields@) =~= Seq::empty());
    let mut i: usize = 0;
    while i < field_names.len()
        invariant
            i <= field_names@.len(),
            html == contents@,
            root == form_root_name@,
            names == names_view(field_names@),
            form_found(html, root),
            page_fields_ok(html, root, names, i as int),
            page_fields(html, root, names, i as int) == Ok::<Seq<(Seq<char>, Seq<char>)>, Seq<char>>(
                fields_view(fields@),
            ),
        decreases field_names.len() - i,
    {
        let name = field_names[i];
        assert(names[i as int] == name@);
        let selector = concat2("#id_", name);
        match select_nodes(contents, form_root_name, selector.as_str()) {
            Selection::Found(v) => {
                if v.len() == 0 {
                    proof {
                        lemma_page_fields_err_sticks(html, root, names, i + 1, names.len() as int);
                        lemma_page_fields_ok_after_err(html, root, names, i + 1, names.len() as int);
                    }
                    return Some(Err(html_error(concat3("No node #id_", name, " in guide form parsing"))));
                }
                match read_element_values(contents, form_root_name, name, &v[0]) {
                    None => {
                        proof {
                            lemma_page_fields_ok_mono(html, root, names, i + 1, names.len() as int);
                        }
                        return None;
                    },
                    Some(values) => {
                        let ghost before = fields_view(fields@);
                        let mut j: usize = 0;
                        while j < values.len()
                            invariant
                                j <= values@.len(),
                                fields_view(fields@) == before + named_values(
                                    name@,
                                    values@.map_values(|s: String| s@).take(j as int),
                                ),
                            decreases values.len() - j,
                        {
                            let ghost prev = fields_view(fields@);
                            fields.push((to_owned(name), to_owned(values[j].as_str())));
                            assert(fields_view(fields@) =~= prev.push((name@, values@[j as int]@)));
                            assert(named_values(name@, values@.map_values(|s: String| s@).take(j + 1)) =~= named_values(
                                name@,
                                values@.map_values(|s: String| s@).take(j as int),
                            ).push((name@, values@[j as int]@)));
                            j = j + 1;
                        }
                        assert(values@.map_values(|s: String| s@).take(values@.len() as int) =~= values@.map_values(
                            |s: String| s@,
                        ));
                    },
                }
            },
            Selection::BadSelector => {
                proof {
                    lemma_page_fields_err_sticks(html, root, names, i + 1, names.len() as int);
                    lemma_page_fields_ok_after_err(html, root, names, i + 1, names.len() as int);
                }
                return Some(Err(html_error(concat3("Failed to select html id #id_", name, " in guide form parsing"))));
            },
            _ => {
                proof {
                    lemma_page_fields_err_sticks(html, root, names, i + 1, names.len() as int);
                    lemma_page_fields_ok_after_err(html, root, names, i + 1, names.len() as int);
                }
                return Some(Err(html_error(concat3("Failed to find \"", form_root_name, "\" in html"))));
            },
        }
        i = i + 1;
    }
    let token = match select_nodes(contents, form_root_name, "[name=\"csrfmiddlewaretoken\"]") {
        Selection::Found(v) => {
            if v.len() == 0 {
                None
            } else {
                match first_open_of(&v[0]) {
                    Some((t, a)) => if str_eq(t.as_str(), "input") {
                        attribute_of(a, "value")
                    } else {
                        None
                    },
                    None => None,
                }
            }
        },
        _ => None,
    };
    proof {
        reveal_strlit("[name=\"csrfmiddlewaretoken\"]");
    }
    match token {
        None => None,
        Some(t) => Some(Ok(ParsedForm { fields, csrfmiddlewaretoken: t })),
    }
}

/// Once reading the fields fails, reading more fields fails the same way.
proof fn lemma_page_fields_err_sticks(html: Seq<char>, root: Seq<char>, names: Seq<Seq<char>>, k: int, n: int)
    requires
        0 < k <= n,
        page_fields(html, root, names, k) is Err,
    ensures
        page_fields(html, root, names, n) == page_fields(html, root, names, k),
    decreases n - k,
{
    if k < n {
        lemma_page_fields_err_sticks(html, root, names, k, n - 1);
    }
}

/// Once reading the fields fails, reading more fields does not panic.
proof fn lemma_page_fields_ok_after_err(html: Seq<char>, root: Seq<char>, names: Seq<Seq<char>>, k: int, n: int)
    requires
        0 < k <= n,
        page_fields(html, root, names, k) is Err,
        page_fields_ok(html, root, names, k),
    ensures
        page_fields_ok(html, root, names, n),
    decreases n - k,
{
    if k < n {
        lemma_page_fields_ok_after_err(html, root, names, k, n - 1);
        lemma_page_fields_err_sticks(html, root, names, k, n - 1);
    }
}

/// When reading the first `k` fields panics, reading more of them panics too.
proof fn lemma_page_fields_ok_mono(html: Seq<char>, root: Seq<char>, names: Seq<Seq<char>>, k: int, n: int)
    requires
        0 <= k <= n,
        !page_fields_ok(html, root, names, k),
    ensures
        !page_fields_ok(html, root, names, n),
    decreases n - k,
{
    if k < n {
        lemma_page_fields_ok_mono(html, root, names, k, n - 1);
    }
}

/// Extract the given fields from the form `form_root_name` of an HTML page.
pub fn parse_html_form(contents: &str, form_root_name: &str, field_names: &[&str]) -> (r: Result<ParsedForm, Error>)
    requires
        page_form_ok(contents@, form_root_name@, names_view(field_names@)),
    ensures
        form_read(r, contents@, form_root_name@, names_view(field_names@)),
{
    match read_html_form(contents, form_root_name, field_names) {
        Some(r) => r,
        None => Err(html_error(String::new())),
    }
}

/// Extract given fields from an admin item change HTML page.
pub fn parse_item_html(contents: &str, field_names: &[&str]) -> (r: Result<ParsedForm, Error>)
    requires
        page_form_ok(contents@, "#item_form"@, names_view(field_names@)),
    ensures
        form_read(r, contents@, "#item_form"@, names_view(field_names@)),
{
    parse_html_form(contents, "#item_form", field_names)
}

/// Extract given fields from an admin item change HTML page, or `None` where reading it panics.
pub fn try_parse_item_html(contents: &str, field_names: &[&str]) -> (r: Option<Result<ParsedForm, Error>>)
    ensures
        r is Some <==> page_form_ok(contents@, "#item_form"@, names_view(field_names@)),
        r matches Some(res) ==> form_read(res, contents@, "#item_form"@, names_view(field_names@)),
{
    match read_html_form(contents, "#item_form", field_names) {
        None => None,
        Some(_) => Some(parse_item_html(contents, field_names)),
    }
}

/// Extract given fields from an admin monster change HTML page.
pub fn parse_monster_html(contents: &str, field_names: &[&str]) -> (r: Result<ParsedForm, Error>)
    requires
        page_form_ok(contents@, "#monster_form"@, names_view(field_names@)),
    ensures
        form_read(r, contents@, "#monster_form"@, names_view(field_names@)),
{
    parse_html_form(contents, "#monster_form", field_names)
}

/// Extract given fields from an admin monster change HTML page, or `None` where reading it panics.
pub fn try_parse_monster_html(contents: &str, field_names: &[&str]) -> (r: Option<Result<ParsedForm, Error>>)
    ensures
        r is Some <==> page_form_ok(contents@, "#monster_form"@, names_view(field_names@)),
        r matches Some(res) ==> form_read(res, contents@, "#monster_form"@, names_view(field_names@)),
{
    match read_html_form(contents, "#monster_form", field_names) {
        None => None,
        Some(_) => Some(parse_monster_html(contents, field_names)),
    }
}

/// Extract given fields from an admin skill change HTML page.
pub fn parse_skill_html(contents: &str, field_names: &[&str]) -> (r: Result<ParsedForm, Error>)
    requires
        page_form_ok(contents@, "#skill_form"@, names_view(field_names@)),
    ensures
        form_read(r, contents@, "#skill_form"@, names_view(field_names@)),
{
    parse_html_form(contents, "#skill_form", field_names)
}

/// Extract given fields from an admin skill change HTML page, or `None` where reading it panics.
pub fn try_parse_skill_html(contents: &str, field_names: &[&str]) -> (r: Option<Result<ParsedForm, Error>>)
    ensures
        r is Some <==> page_form_ok(contents@, "#skill_form"@, names_view(field_names@)),
        r matches Some(res) ==> form_read(res, contents@, "#skill_form"@, names_view(field_names@)),
{
    match read_html_form(contents, "#skill_form", field_names) {
        None => None,
        Some(_) => Some(parse_skill_html(contents, field_names)),
    }
}

/// Extract given fields from an admin pet add HTML page.
pub fn parse_pet_html(contents: &str, field_names: &[&str]) -> (r: Result<ParsedForm, Error>)
    requires
        page_form_ok(contents@, "#pet_form"@, names_view(field_names@)),
    ensures
        form_read(r, contents@, "#pet_form"@, names_view(field_names@)),
{
    parse_html_form(contents, "#pet_form", field_names)
}

/// Extract given fields from an admin pet add HTML page, or `None` where reading it panics.
pub fn try_parse_pet_html(contents: &str, field_names: &[&str]) -> (r: Option<Result<ParsedForm, Error>>)
    ensures
        r is Some <==> page_form_ok(contents@, "#pet_form"@, names_view(field_names@)),
        r matches Some(res) ==> form_read(res, contents@, "#pet_form"@, names_view(field_names@)),
{
    match read_html_form(contents, "#pet_form", field_names) {
        None => None,
        Some(_) => Some(parse_pet_html(contents, field_names)),
    }
}

/// Extract given fields from an admin spawn add HTML page.
pub fn parse_spawn_html(contents: &str) -> (r: Result<ParsedForm, Error>)
    requires
        page_form_ok(contents@, "#spawn_form"@, Seq::empty()),
    ensures
        form_read(r, contents@, "#spawn_form"@, Seq::empty()),
{
    let field_names: &[&str] = &[];
    assert(names_view(field_names@) =~= Seq::<Seq<char>>::empty());
    parse_html_form(contents, "#spawn_form", field_names)
}

/// Extract given fields from an admin spawn add HTML page, or `None` where reading it panics.
pub fn try_parse_spawn_html(contents: &str) -> (r: Option<Result<ParsedForm, Error>>)
    ensures
        r is Some <==> page_form_ok(contents@, "#spawn_form"@, Seq::empty()),
        r matches Some(res) ==> form_read(res, contents@, "#spawn_form"@, Seq::empty()),
{
    let field_names: &[&str] = &[];
    assert(names_view(field_names@) =~= Seq::<Seq<char>>::empty());
    match read_html_form(contents, "#spawn_form", field_names) {
        None => None,
        Some(_) => Some(parse_spawn_html(contents)),
    }
}

/// Extract given fields from an admin status effect add HTML page.
pub fn parse_status_effect_html(contents: &str) -> (r: Result<ParsedForm, Error>)
    requires
        page_form_ok(contents@, "#statuseffect_form"@, Seq::empty()),
    ensures
        form_read(r, contents@, "#statuseffect_form"@, Seq::empty()),
{
    let field_names: &[&str] = &[];
    assert(names_view(field_names@) =~= Seq::<Seq<char>>::empty());
    parse_html_form(contents, "#statuseffect_form", field_names)
}

/// Extract given fields from an admin status effect add HTML page, or `None` where reading it panics.
pub fn try_parse_status_effect_html(contents: &str) -> (r: Option<Result<ParsedForm, Error>>)
    ensures
        r is Some <==> page_form_ok(contents@, "#statuseffect_form"@, Seq::empty()),
        r matches Some(res) ==> form_read(res, contents@, "#statuseffect_form"@, Seq::empty()),
{
    let field_names: &[&str] = &[];
    assert(names_view(field_names@) =~= Seq::<Seq<char>>::empty());
    match read_html_form(contents, "#statuseffect_form", field_names) {
        None => None,
        Some(_) => Some(parse_status_effect_html(contents)),
    }
}

} // verus!
