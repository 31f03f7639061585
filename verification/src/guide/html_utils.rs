//! Reading the text of HTML nodes into tags, names and chances.

use vstd::prelude::*;

use crate::error::{fails_with, html_error, is_html_error, read_i8, read_int, Error, Failure};
use crate::text::{
    concat2, concat3, find_char, find_char_index, spec_trim, spec_trim_end_char,
    spec_trim_start_char, str_eq, string_views, trim, trim_end_matches, trim_start_matches,
};

verus! {

/// A tag attached to an item, a monster or a skill.
#[derive(Debug, PartialEq, Eq, Structural, Clone, Copy)]
pub enum Tag {
    FoundInChests,
    FoundInShops,
    WorldRaid,
    KingdomRaid,
    OffHandAbility,
    FoundInArcanists,
    OtherRealmsRaid,
    FoundInArena,
}

/// The tag the text of a tag node names.
pub open spec fn spec_tag(text: Seq<char>) -> Option<Tag> {
    if text == "✓ Found in chests"@ {
        Some(Tag::FoundInChests)
    } else if text == "✓ Found in shops"@ {
        Some(Tag::FoundInShops)
    } else if text == "✓ World Raid"@ {
        Some(Tag::WorldRaid)
    } else if text == "✓ Kingdom Raid"@ {
        Some(Tag::KingdomRaid)
    } else if text == "✓ Off-hand ability"@ {
        Some(Tag::OffHandAbility)
    } else if text == "✓ Found in Arcanists"@ {
        Some(Tag::FoundInArcanists)
    } else if text == "✓ Other Realms Raid"@ {
        Some(Tag::OtherRealmsRaid)
    } else if text == "✓ Found in the arena"@ {
        Some(Tag::FoundInArena)
    } else {
        None
    }
}

/// The tag the text of a tag node names.
pub fn parse_tag(text: &str) -> (r: Option<Tag>)
    ensures
        r == spec_tag(text@),
{
    if str_eq(text, "✓ Found in chests") {
        Some(Tag::FoundInChests)
    } else if str_eq(text, "✓ Found in shops") {
        Some(Tag::FoundInShops)
    } else if str_eq(text, "✓ World Raid") {
        Some(Tag::WorldRaid)
    } else if str_eq(text, "✓ Kingdom Raid") {
        Some(Tag::KingdomRaid)
    } else if str_eq(text, "✓ Off-hand ability") {
        Some(Tag::OffHandAbility)
    } else if str_eq(text, "✓ Found in Arcanists") {
        Some(Tag::FoundInArcanists)
    } else if str_eq(text, "✓ Other Realms Raid") {
        Some(Tag::OtherRealmsRaid)
    } else if str_eq(text, "✓ Found in the arena") {
        Some(Tag::FoundInArena)
    } else {
        None
    }
}

/// The index of the first text, from index `i` on, that names no tag.
pub open spec fn first_unknown_tag_from(texts: Seq<Seq<char>>, i: int) -> Option<int>
    decreases texts.len() - i,
{
    if i < 0 || i >= texts.len() {
        None
    } else if spec_tag(texts[i]) is None {
        Some(i)
    } else {
        first_unknown_tag_from(texts, i + 1)
    }
}

/// The tags the texts of the tag nodes name, in order, or the message that
/// reports the first text that names none.
pub open spec fn spec_parse_tags(texts: Seq<Seq<char>>) -> Result<Seq<Tag>, Seq<char>> {
    match first_unknown_tag_from(texts, 0) {
        Some(i) => Err("Unknown tag: "@ + texts[i]),
        None => Ok(texts.map_values(|t: Seq<char>| spec_tag(t).unwrap())),
    }
}

/// Parse the tags of an entity, from the text of each tag node.
pub fn parse_tags(texts: &Vec<String>) -> (r: Result<Vec<Tag>, Error>)
    ensures
        match spec_parse_tags(string_views(texts@)) {
            Ok(tags) => r matches Ok(v) && v@ == tags,
            Err(m) => r matches Err(e) && is_html_error(e, m),
        },
{
    let ghost views = string_views(texts@);
    let mut tags: Vec<Tag> = Vec::new();
    let mut i: usize = 0;
    while i < texts.len()
        invariant
            views == string_views(texts@),
            i <= texts.len(),
            first_unknown_tag_from(views, 0) == first_unknown_tag_from(views, i as int),
            tags@.len() == i,
            forall|j: int| 0 <= j < i ==> spec_tag(#[trigger] views[j]) == Some(tags@[j]),
        decreases texts.len() - i,
    {
        let text = texts[i].as_str();
        match parse_tag(text) {
            Some(tag) => tags.push(tag),
            None => {
                return Err(html_error(concat2("Unknown tag: ", text)));
            },
        }
        i = i + 1;
    }
    proof {
        let full = views.map_values(|t: Seq<char>| spec_tag(t).unwrap());
        assert(tags@ =~= full);
    }
    Ok(tags)
}

/// The message of a text with no `(`.
pub open spec fn no_chance_message(text: Seq<char>, kind: Seq<char>) -> Seq<char> {
    "Failed to find '(' when parsing "@ + kind + " chance: \""@ + text + "\""@
}

/// The chance part of `<name> (<chance>%)`, from the `(` on, stripped of its
/// whitespace, parentheses and `%`.
pub open spec fn chance_text(s: Seq<char>) -> Seq<char> {
    spec_trim_end_char(
        spec_trim_end_char(spec_trim_start_char(spec_trim(s), '('), ')'),
        '%',
    )
}

/// A text of the form `<name> (<chance>%)`: the trimmed name and the chance.
pub open spec fn spec_name_and_chance(text: Seq<char>, kind: Seq<char>) -> Result<(Seq<char>, int), Failure> {
    let t = spec_trim(text);
    match find_char(t, '(') {
        Some(p) => match read_int(chance_text(t.subrange(p, t.len() as int)), -128, 127) {
            Ok(c) => Ok((spec_trim(t.subrange(0, p)), c)),
            Err(e) => Err(e),
        },
        None => Err(Failure::Html(no_chance_message(t, kind))),
    }
}

/// Parse a string of the form `<name> (<chance>%)`.
pub fn parse_name_and_chance<'a>(text: &'a str, kind: &str) -> (r: Result<(&'a str, i8), Error>)
    ensures
        match r {
            Ok((name, chance)) => spec_name_and_chance(text@, kind@) == Ok::<
                (Seq<char>, int),
                Failure,
            >((name@, chance as int)),
            Err(e) => fails_with(e, spec_name_and_chance(text@, kind@)),
        },
{
    let text = trim(text);
    if let Some(pos) = find_char_index(text, '(') {
        let n = text.unicode_len();
        let name = text.substring_char(0, pos);
        let chance = text.substring_char(pos, n);
        let chance = trim_end_matches(
            trim_end_matches(trim_start_matches(trim(chance), '('), ')'),
            '%',
        );
        match read_i8(chance) {
            Ok(c) => Ok((trim(name), c)),
            Err(e) => Err(e),
        }
    } else {
        let head = concat3("Failed to find '(' when parsing ", kind, " chance: \"");
        Err(html_error(concat3(head.as_str(), text, "\"")))
    }
}

} // verus!
