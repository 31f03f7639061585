//! Reading the texts of an item page of the codex.

use vstd::prelude::*;

use crate::codex::affix::{affix_value_fits, affix_value_ok, spec_affix_kind, spec_parse_affix, Affix};
use crate::codex::item::{spec_place, Ability, Element, Place, Stats};
use crate::error::{fails_with, html_error, is_html_error, read_i16, read_i8, read_int, read_u8, Error, Failure};
use crate::num::{is_digit, spec_dec, spec_int_text};
use crate::text::{
    drop_last_while, drop_while, find_char_from, is_char, lemma_find_char_first, is_whitespace, concat2, concat3, find_char, find_char_index, seq_starts_with, spec_split, spec_trim, spec_trim_end_char,
    spec_trim_start_char, split_str, starts_with, str_eq, strs_view, to_owned, trim, trim_end_matches,
    trim_start_matches,
};

pub use crate::codex::item_html::{
    parse_html_codex_item, parse_html_codex_item_translation, try_parse_html_codex_item,
    try_parse_html_codex_item_translation,
};

verus! {

/// What the stats of an item hold.
pub struct StatsView {
    pub attack: Option<i16>,
    pub magic: Option<i16>,
    pub hp: Option<i16>,
    pub mana: Option<i16>,
    pub defense: Option<i16>,
    pub resistance: Option<i16>,
    pub ward: Option<i8>,
    pub dexterity: Option<i16>,
    pub crit: Option<u8>,
    pub foresight: Option<i16>,
    pub adornment_slots: Option<u8>,
    pub element: Option<Element>,
    pub two_handed: bool,
    pub place: Option<Place>,
    pub skills_granted: Seq<Seq<char>>,
    pub affixes: Seq<Affix>,
}

/// The characters of each string of `v`.
pub open spec fn string_seq_view(v: Seq<String>) -> Seq<Seq<char>> {
    v.map_values(|s: String| s@)
}

impl View for Stats {
    type V = StatsView;

    open spec fn view(&self) -> StatsView {
        StatsView {
            attack: self.attack,
            magic: self.magic,
            hp: self.hp,
            mana: self.mana,
            defense: self.defense,
            resistance: self.resistance,
            ward: self.ward,
            dexterity: self.dexterity,
            crit: self.crit,
            foresight: self.foresight,
            adornment_slots: self.adornment_slots,
            element: self.element,
            two_handed: self.two_handed,
            place: self.place,
            skills_granted: string_seq_view(self.skills_granted@),
            affixes: self.affixes@,
        }
    }
}

/// The stats of an item with nothing set.
pub open spec fn empty_stats() -> StatsView {
    StatsView {
        attack: None,
        magic: None,
        hp: None,
        mana: None,
        defense: None,
        resistance: None,
        ward: None,
        dexterity: None,
        crit: None,
        foresight: None,
        adornment_slots: None,
        element: None,
        two_handed: false,
        place: None,
        skills_granted: Seq::empty(),
        affixes: Seq::empty(),
    }
}

/// Stats with nothing set.
pub fn new_stats() -> (r: Stats)
    ensures
        r@ == empty_stats(),
{
    let r = Stats {
        attack: None,
        magic: None,
        hp: None,
        mana: None,
        defense: None,
        resistance: None,
        ward: None,
        dexterity: None,
        crit: None,
        foresight: None,
        adornment_slots: None,
        element: None,
        two_handed: false,
        place: None,
        skills_granted: Vec::new(),
        affixes: Vec::new(),
    };
    assert(r@.skills_granted =~= Seq::<Seq<char>>::empty());
    r
}

/// The stat label of a `stat: value` text: up to its first `:` included, trimmed.
pub open spec fn stat_label(text: Seq<char>, p: int) -> Seq<char> {
    spec_trim(text.subrange(0, p + 1))
}

/// The value of a `stat: value` text: after its first `:`, trimmed, with no
/// trailing `%` nor leading `+`.
pub open spec fn stat_value(text: Seq<char>, p: int) -> Seq<char> {
    spec_trim_start_char(spec_trim_end_char(spec_trim(text.subrange(p + 1, text.len() as int)), '%'), '+')
}

/// Reading the stat text `text` does not panic: an affix it names has a value
/// that can be read without panicking.
pub open spec fn stat_ok(text: Seq<char>) -> bool {
    find_char(text, ':') matches Some(p) ==> (spec_affix_kind(stat_label(text, p)) matches Some(k)
        ==> affix_value_ok(k, stat_value(text, p)))
}

/// The message of a stat text that has no `:` and is no element.
pub open spec fn no_colon_stat_message(text: Seq<char>) -> Seq<char> {
    "Failed to find ':' when parsing stat: \""@ + text + "\""@
}

/// The stats after reading the stat text `text`.
pub open spec fn stat_step(v: StatsView, text: Seq<char>) -> Result<StatsView, Failure> {
    match find_char(text, ':') {
        Some(p) => {
            let stat = stat_label(text, p);
            let value = stat_value(text, p);
            if stat == "Attack:"@ {
                match read_int(value, -32768, 32767) {
                    Ok(x) => Ok(StatsView { attack: Some(x as i16), ..v }),
                    Err(e) => Err(e),
                }
            } else if stat == "Magic:"@ {
                match read_int(value, -32768, 32767) {
                    Ok(x) => Ok(StatsView { magic: Some(x as i16), ..v }),
                    Err(e) => Err(e),
                }
            } else if stat == "Defense:"@ {
                match read_int(value, -32768, 32767) {
                    Ok(x) => Ok(StatsView { defense: Some(x as i16), ..v }),
                    Err(e) => Err(e),
                }
            } else if stat == "Resistance:"@ {
                match read_int(value, -32768, 32767) {
                    Ok(x) => Ok(StatsView { resistance: Some(x as i16), ..v }),
                    Err(e) => Err(e),
                }
            } else if stat == "HP:"@ {
                match read_int(value, -32768, 32767) {
                    Ok(x) => Ok(StatsView { hp: Some(x as i16), ..v }),
                    Err(e) => Err(e),
                }
            } else if stat == "Mana:"@ {
                match read_int(value, -32768, 32767) {
                    Ok(x) => Ok(StatsView { mana: Some(x as i16), ..v }),
                    Err(e) => Err(e),
                }
            } else if stat == "Ward:"@ {
                match read_int(value, -128, 127) {
                    Ok(x) => Ok(StatsView { ward: Some(x as i8), ..v }),
                    Err(e) => Err(e),
                }
            } else if stat == "Dexterity:"@ {
                match read_int(value, -32768, 32767) {
                    Ok(x) => Ok(StatsView { dexterity: Some(x as i16), ..v }),
                    Err(e) => Err(e),
                }
            } else if stat == "Crit:"@ {
                match read_int(value, 0, 255) {
                    Ok(x) => Ok(StatsView { crit: Some(x as u8), ..v }),
                    Err(e) => Err(e),
                }
            } else if stat == "Foresight:"@ {
                match read_int(value, -32768, 32767) {
                    Ok(x) => Ok(StatsView { foresight: Some(x as i16), ..v }),
                    Err(e) => Err(e),
                }
            } else if stat == "Adornment Slots:"@ {
                match read_int(value, 0, 255) {
                    Ok(x) => Ok(StatsView { adornment_slots: Some(x as u8), ..v }),
                    Err(e) => Err(e),
                }
            } else {
                match spec_parse_affix(stat, value) {
                    Ok(a) => Ok(StatsView { affixes: v.affixes.push(a), ..v }),
                    Err(e) => Err(e),
                }
            }
        },
        None => if text.len() > 0 && text[0] == '+' {
            Ok(StatsView { skills_granted: v.skills_granted.push(text.drop_first()), ..v })
        } else if text == "Fire"@ {
            Ok(StatsView { element: Some(Element::Fire), ..v })
        } else if text == "Water"@ {
            Ok(StatsView { element: Some(Element::Water), ..v })
        } else if text == "Earthen"@ {
            Ok(StatsView { element: Some(Element::Earthen), ..v })
        } else if text == "Lightning"@ {
            Ok(StatsView { element: Some(Element::Lightning), ..v })
        } else if text == "Holy"@ {
            Ok(StatsView { element: Some(Element::Holy), ..v })
        } else if text == "Dark"@ {
            Ok(StatsView { element: Some(Element::Dark), ..v })
        } else if text == "Arcane"@ {
            Ok(StatsView { element: Some(Element::Arcane), ..v })
        } else if text == "Dragon"@ {
            Ok(StatsView { element: Some(Element::Dragon), ..v })
        } else if text == "Physical"@ {
            Ok(StatsView { element: Some(Element::Physical), ..v })
        } else if text == "Two handed"@ {
            Ok(StatsView { two_handed: true, ..v })
        } else {
            Err(Failure::Html(no_colon_stat_message(text)))
        },
    }
}

/// The first `c` of `a + b`, when `a` has it first at its last character, is that one.
proof fn lemma_find_char_in_prefix(a: Seq<char>, b: Seq<char>, c: char, i: int)
    requires
        0 <= i <= a.len() - 1,
        find_char_from(a, c, i) == Some(a.len() - 1),
    ensures
        find_char_from(a + b, c, i) == Some(a.len() - 1),
    decreases a.len() - i,
{
    assert((a + b)[i] == a[i]);
    if a[i] != c {
        lemma_find_char_in_prefix(a, b, c, i + 1);
    }
}

/// The index a search for `c` finds holds `c`.
proof fn lemma_find_char_found(s: Seq<char>, c: char, i: int)
    ensures
        find_char_from(s, c, i) matches Some(k) ==> 0 <= k < s.len() && s[k] == c,
    decreases s.len() - i,
{
    if 0 <= i < s.len() && s[i] != c {
        lemma_find_char_found(s, c, i + 1);
    }
}

/// The text of an integer starts with `-` or a digit and ends with a digit.
proof fn lemma_int_text_ends(v: int)
    ensures
        spec_int_text(v).len() > 0,
        spec_int_text(v)[0] == '-' || is_digit(spec_int_text(v)[0]),
        is_digit(spec_int_text(v).last()),
{
    reveal(spec_int_text);
    if v < 0 {
        crate::num::lemma_dec_digits((-v) as nat);
        let d = spec_dec((-v) as nat);
        assert((seq!['-'] + d).last() == d.last());
    } else {
        crate::num::lemma_dec_digits(v as nat);
    }
}

/// A stat text `label value`, its label ending with its first `:` and both parts
/// trimmed, splits into that label and that value.
proof fn lemma_stat_text(label: Seq<char>, t: Seq<char>)
    requires
        label.len() > 0,
        find_char(label, ':') == Some(label.len() - 1),
        !is_whitespace(label[0]),
        t.len() > 0,
        !is_whitespace(t[0]),
        t[0] != '+',
        !is_whitespace(t.last()),
        t.last() != '%',
    ensures
        find_char(label + seq![' '] + t, ':') == Some(label.len() - 1),
        stat_label(label + seq![' '] + t, label.len() - 1) == label,
        stat_value(label + seq![' '] + t, label.len() - 1) == t,
{
    let text = label + seq![' '] + t;
    assert(text =~= label + (seq![' '] + t));
    lemma_find_char_in_prefix(label, seq![' '] + t, ':', 0);
    lemma_find_char_found(label, ':', 0);
    assert(label[label.len() - 1] == ':');
    assert(text.subrange(0, label.len() as int) =~= label);
    assert(!is_whitespace(label.last()));
    assert(drop_while(label, |c: char| is_whitespace(c)) == label);
    assert(drop_last_while(label, |c: char| is_whitespace(c)) == label);
    let rest = text.subrange(label.len() as int, text.len() as int);
    assert(rest =~= seq![' '] + t);
    assert(is_whitespace(' '));
    assert(rest.drop_first() =~= t);
    assert(drop_while(t, |c: char| is_whitespace(c)) == t);
    assert(drop_while(rest, |c: char| is_whitespace(c)) == t);
    assert(drop_last_while(t, |c: char| is_whitespace(c)) == t);
    assert(drop_last_while(t, is_char('%')) == t);
    assert(drop_while(t, is_char('+')) == t);
}

/// Reading a stat text `label value` of a named stat (attack, magic, defense,
/// resistance, HP, mana, ward, dexterity, crit, foresight, adornment slots) sets the
/// stat its label names to the value, and leaves every other stat as it was.
pub proof fn law_named_stats(v: StatsView, n: i16, w: i8, c: u8)
    ensures
        stat_step(v, "Attack:"@ + seq![' '] + spec_int_text(n as int)) == Ok::<StatsView, Failure>(
            StatsView { attack: Some(n), ..v },
        ),
        stat_step(v, "Magic:"@ + seq![' '] + spec_int_text(n as int)) == Ok::<StatsView, Failure>(
            StatsView { magic: Some(n), ..v },
        ),
        stat_step(v, "Defense:"@ + seq![' '] + spec_int_text(n as int)) == Ok::<StatsView, Failure>(
            StatsView { defense: Some(n), ..v },
        ),
        stat_step(v, "Resistance:"@ + seq![' '] + spec_int_text(n as int)) == Ok::<StatsView, Failure>(
            StatsView { resistance: Some(n), ..v },
        ),
        stat_step(v, "HP:"@ + seq![' '] + spec_int_text(n as int)) == Ok::<StatsView, Failure>(
            StatsView { hp: Some(n), ..v },
        ),
        stat_step(v, "Mana:"@ + seq![' '] + spec_int_text(n as int)) == Ok::<StatsView, Failure>(
            StatsView { mana: Some(n), ..v },
        ),
        stat_step(v, "Ward:"@ + seq![' '] + spec_int_text(w as int)) == Ok::<StatsView, Failure>(
            StatsView { ward: Some(w), ..v },
        ),
        stat_step(v, "Dexterity:"@ + seq![' '] + spec_int_text(n as int)) == Ok::<StatsView, Failure>(
            StatsView { dexterity: Some(n), ..v },
        ),
        stat_step(v, "Crit:"@ + seq![' '] + spec_int_text(c as int)) == Ok::<StatsView, Failure>(
            StatsView { crit: Some(c), ..v },
        ),
        stat_step(v, "Foresight:"@ + seq![' '] + spec_int_text(n as int)) == Ok::<StatsView, Failure>(
            StatsView { foresight: Some(n), ..v },
        ),
        stat_step(v, "Adornment Slots:"@ + seq![' '] + spec_int_text(c as int)) == Ok::<StatsView, Failure>(
            StatsView { adornment_slots: Some(c), ..v },
        ),
{
    reveal_with_fuel(find_char_from, 20);
    reveal_strlit("Attack:");
    reveal_strlit("Magic:");
    reveal_strlit("Defense:");
    reveal_strlit("Resistance:");
    reveal_strlit("HP:");
    reveal_strlit("Mana:");
    reveal_strlit("Ward:");
    reveal_strlit("Dexterity:");
    reveal_strlit("Crit:");
    reveal_strlit("Foresight:");
    reveal_strlit("Adornment Slots:");
    assert("Attack:"@.len() == 7);
    assert("Attack:"@[0] == 'A');
    assert("Magic:"@.len() == 6);
    assert("Magic:"@[0] == 'M');
    assert("Defense:"@.len() == 8);
    assert("Defense:"@[0] == 'D');
    assert("Resistance:"@.len() == 11);
    assert("Resistance:"@[0] == 'R');
    assert("HP:"@.len() == 3);
    assert("HP:"@[0] == 'H');
    assert("Mana:"@.len() == 5);
    assert("Mana:"@[0] == 'M');
    assert("Ward:"@.len() == 5);
    assert("Ward:"@[0] == 'W');
    assert("Dexterity:"@.len() == 10);
    assert("Dexterity:"@[0] == 'D');
    assert("Crit:"@.len() == 5);
    assert("Crit:"@[0] == 'C');
    assert("Foresight:"@.len() == 10);
    assert("Foresight:"@[0] == 'F');
    assert("Adornment Slots:"@.len() == 16);
    assert("Adornment Slots:"@[0] == 'A');
    lemma_int_text_ends(n as int);
    crate::num::lemma_parse_int_text(n as int, -32768, 32767);
    lemma_int_text_ends(w as int);
    crate::num::lemma_parse_int_text(w as int, -128, 127);
    lemma_int_text_ends(c as int);
    crate::num::lemma_parse_int_text(c as int, 0, 255);
    assert(find_char("Attack:"@, ':') == Some(6int));
    lemma_stat_text("Attack:"@, spec_int_text(n as int));
    assert(find_char("Magic:"@, ':') == Some(5int));
    lemma_stat_text("Magic:"@, spec_int_text(n as int));
    assert(find_char("Defense:"@, ':') == Some(7int));
    lemma_stat_text("Defense:"@, spec_int_text(n as int));
    assert(find_char("Resistance:"@, ':') == Some(10int));
    lemma_stat_text("Resistance:"@, spec_int_text(n as int));
    assert(find_char("HP:"@, ':') == Some(2int));
    lemma_stat_text("HP:"@, spec_int_text(n as int));
    assert(find_char("Mana:"@, ':') == Some(4int));
    lemma_stat_text("Mana:"@, spec_int_text(n as int));
    assert(find_char("Ward:"@, ':') == Some(4int));
    lemma_stat_text("Ward:"@, spec_int_text(w as int));
    assert(find_char("Dexterity:"@, ':') == Some(9int));
    lemma_stat_text("Dexterity:"@, spec_int_text(n as int));
    assert(find_char("Crit:"@, ':') == Some(4int));
    lemma_stat_text("Crit:"@, spec_int_text(c as int));
    assert(find_char("Foresight:"@, ':') == Some(9int));
    lemma_stat_text("Foresight:"@, spec_int_text(n as int));
    assert(find_char("Adornment Slots:"@, ':') == Some(15int));
    lemma_stat_text("Adornment Slots:"@, spec_int_text(c as int));
}

/// Reading the name of an element as a stat text sets the element of the item to that
/// element, `Two handed` marks the item two-handed, and a text `+skill` adds `skill` to
/// the skills the item grants; every other stat stays as it was.
pub proof fn law_stat_words(v: StatsView, e: Element, text: Seq<char>)
    requires
        text.len() > 0 && text[0] == '+',
        find_char(text, ':') is None,
    ensures
        stat_step(v, crate::codex::item::element_name(e)) == Ok::<StatsView, Failure>(StatsView { element: Some(e), ..v }),
        stat_step(v, "Two handed"@) == Ok::<StatsView, Failure>(StatsView { two_handed: true, ..v }),
        stat_step(v, text) == Ok::<StatsView, Failure>(
            StatsView { skills_granted: v.skills_granted.push(text.drop_first()), ..v },
        ),
{
    reveal_with_fuel(find_char_from, 12);
    reveal_strlit("Fire");
    reveal_strlit("Water");
    reveal_strlit("Earthen");
    reveal_strlit("Lightning");
    reveal_strlit("Holy");
    reveal_strlit("Dark");
    reveal_strlit("Arcane");
    reveal_strlit("Dragon");
    reveal_strlit("Physical");
    reveal_strlit("Two handed");
    assert("Fire"@.len() == 4);
    assert("Fire"@[0] == 'F');
    assert(find_char("Fire"@, ':') is None);
    assert("Water"@.len() == 5);
    assert("Water"@[0] == 'W');
    assert(find_char("Water"@, ':') is None);
    assert("Earthen"@.len() == 7);
    assert("Earthen"@[0] == 'E');
    assert(find_char("Earthen"@, ':') is None);
    assert("Lightning"@.len() == 9);
    assert("Lightning"@[0] == 'L');
    assert(find_char("Lightning"@, ':') is None);
    assert("Holy"@.len() == 4);
    assert("Holy"@[0] == 'H');
    assert(find_char("Holy"@, ':') is None);
    assert("Dark"@.len() == 4);
    assert("Dark"@[0] == 'D');
    assert(find_char("Dark"@, ':') is None);
    assert("Arcane"@.len() == 6);
    assert("Arcane"@[0] == 'A');
    assert(find_char("Arcane"@, ':') is None);
    assert("Dragon"@.len() == 6);
    assert("Dragon"@[0] == 'D');
    assert(find_char("Dragon"@, ':') is None);
    assert("Physical"@.len() == 8);
    assert("Physical"@[0] == 'P');
    assert(find_char("Physical"@, ':') is None);
    assert("Two handed"@.len() == 10);
    assert("Two handed"@[0] == 'T');
    assert(find_char("Two handed"@, ':') is None);
}

/// Parse a stat of the item.
///
/// Takes as input the "xxx: x%" string.
pub fn parse_stat(text: &str, stats: &mut Stats) -> (r: Result<(), Error>)
    requires
        stat_ok(text@),
    ensures
        match stat_step(old(stats)@, text@) {
            Ok(v) => r is Ok && final(stats)@ == v,
            Err(f) => r matches Err(e) && fails_with(e, Err::<(), Failure>(f)),
        },
{
    if let Some(pos) = find_char_index(text, ':') {
        let n = text.unicode_len();
        let stat = trim(text.substring_char(0, pos + 1));
        let value = trim_start_matches(
            trim_end_matches(trim(text.substring_char(pos + 1, n)), '%'),
            '+',
        );
        if str_eq(stat, "Attack:") {
            match read_i16(value) {
                Ok(x) => stats.attack = Some(x),
                Err(e) => {
                    return Err(e);
                },
            }
        } else if str_eq(stat, "Magic:") {
            match read_i16(value) {
                Ok(x) => stats.magic = Some(x),
                Err(e) => {
                    return Err(e);
                },
            }
        } else if str_eq(stat, "Defense:") {
            match read_i16(value) {
                Ok(x) => stats.defense = Some(x),
                Err(e) => {
                    return Err(e);
                },
            }
        } else if str_eq(stat, "Resistance:") {
            match read_i16(value) {
                Ok(x) => stats.resistance = Some(x),
                Err(e) => {
                    return Err(e);
                },
            }
        } else if str_eq(stat, "HP:") {
            match read_i16(value) {
                Ok(x) => stats.hp = Some(x),
                Err(e) => {
                    return Err(e);
                },
            }
        } else if str_eq(stat, "Mana:") {
            match read_i16(value) {
                Ok(x) => stats.mana = Some(x),
                Err(e) => {
                    return Err(e);
                },
            }
        } else if str_eq(stat, "Ward:") {
            match read_i8(value) {
                Ok(x) => stats.ward = Some(x),
                Err(e) => {
                    return Err(e);
                },
            }
        } else if str_eq(stat, "Dexterity:") {
            match read_i16(value) {
                Ok(x) => stats.dexterity = Some(x),
                Err(e) => {
                    return Err(e);
                },
            }
        } else if str_eq(stat, "Crit:") {
            match read_u8(value) {
                Ok(x) => stats.crit = Some(x),
                Err(e) => {
                    return Err(e);
                },
            }
        } else if str_eq(stat, "Foresight:") {
            match read_i16(value) {
                Ok(x) => stats.foresight = Some(x),
                Err(e) => {
                    return Err(e);
                },
            }
        } else if str_eq(stat, "Adornment Slots:") {
            match read_u8(value) {
                Ok(x) => stats.adornment_slots = Some(x),
                Err(e) => {
                    return Err(e);
                },
            }
        } else {
            match Affix::parse_from_codex_html(stat, value) {
                Ok(a) => stats.affixes.push(a),
                Err(e) => {
                    return Err(e);
                },
            }
        }
    } else if text.unicode_len() > 0 && text.get_char(0) == '+' {
        let n = text.unicode_len();
        let ghost before = stats.skills_granted@;
        stats.skills_granted.push(to_owned(text.substring_char(1, n)));
        proof {
            assert(text@.subrange(1, n as int) =~= text@.drop_first());
            assert(string_seq_view(stats.skills_granted@) =~= string_seq_view(before).push(
                text@.drop_first(),
            ));
        }
    } else if str_eq(text, "Fire") {
        stats.element = Some(Element::Fire);
    } else if str_eq(text, "Water") {
        stats.element = Some(Element::Water);
    } else if str_eq(text, "Earthen") {
        stats.element = Some(Element::Earthen);
    } else if str_eq(text, "Lightning") {
        stats.element = Some(Element::Lightning);
    } else if str_eq(text, "Holy") {
        stats.element = Some(Element::Holy);
    } else if str_eq(text, "Dark") {
        stats.element = Some(Element::Dark);
    } else if str_eq(text, "Arcane") {
        stats.element = Some(Element::Arcane);
    } else if str_eq(text, "Dragon") {
        stats.element = Some(Element::Dragon);
    } else if str_eq(text, "Physical") {
        stats.element = Some(Element::Physical);
    } else if str_eq(text, "Two handed") {
        stats.two_handed = true;
    } else {
        return Err(html_error(concat3("Failed to find ':' when parsing stat: \"", text, "\"")));
    }
    Ok(())
}
/// Whether reading the stat text `text` does not panic.
pub fn stat_fits(text: &str) -> (r: bool)
    ensures
        r == stat_ok(text@),
{
    if let Some(pos) = find_char_index(text, ':') {
        let n = text.unicode_len();
        let stat = trim(text.substring_char(0, pos + 1));
        let value = trim_start_matches(
            trim_end_matches(trim(text.substring_char(pos + 1, n)), '%'),
            '+',
        );
        match crate::codex::affix::affix_kind(stat) {
            Some(k) => affix_value_fits(k, value),
            None => true,
        }
    } else {
        true
    }
}

/// Whether reading the stat texts `texts` (each split at ` / `) does not panic.
pub fn stats_fit(texts: &Vec<String>) -> (r: bool)
    ensures
        r == stats_ok(string_seq_view(texts@)),
{
    proof {
        reveal_strlit(" / ");
    }
    let ghost all = string_seq_view(texts@);
    let mut i: usize = 0;
    while i < texts.len()
        invariant
            i <= texts@.len(),
            all == string_seq_view(texts@),
            forall|k: int| 0 <= k < i ==> #[trigger] pieces_ok(spec_split(spec_trim(all[k]), " / "@)),
        decreases texts.len() - i,
    {
        proof {
            reveal_strlit(" / ");
        }
        let pieces = split_str(trim(texts[i].as_str()), " / ");
        let mut j: usize = 0;
        while j < pieces.len()
            invariant
                i < texts@.len(),
                all == string_seq_view(texts@),
                j <= pieces@.len(),
                strs_view(pieces@) == spec_split(spec_trim(all[i as int]), " / "@),
                forall|q: int| 0 <= q < j ==> stat_ok(#[trigger] strs_view(pieces@)[q]),
            decreases pieces.len() - j,
        {
            if !stat_fits(pieces[j]) {
                assert(!stat_ok(strs_view(pieces@)[j as int]));
                assert(!pieces_ok(spec_split(spec_trim(all[i as int]), " / "@)));
                return false;
            }
            j = j + 1;
        }
        assert(pieces_ok(spec_split(spec_trim(all[i as int]), " / "@)));
        i = i + 1;
    }
    true
}

/// Reading each stat text of `texts` does not panic.
pub open spec fn stats_ok(texts: Seq<Seq<char>>) -> bool {
    forall|i: int|
        0 <= i < texts.len() ==> #[trigger] pieces_ok(spec_split(spec_trim(texts[i]), " / "@))
}

/// Reading each stat text of `pieces` does not panic.
pub open spec fn pieces_ok(pieces: Seq<Seq<char>>) -> bool {
    forall|j: int| 0 <= j < pieces.len() ==> stat_ok(#[trigger] pieces[j])
}

/// The stats after reading the stat texts of `texts`, each split at ` / `.
pub open spec fn stats_fold(v: StatsView, texts: Seq<Seq<char>>) -> Result<StatsView, Failure>
    decreases texts.len(),
{
    if texts.len() == 0 {
        Ok(v)
    } else {
        match stats_fold(v, texts.drop_last()) {
            Ok(w) => stat_pieces_fold(w, spec_split(spec_trim(texts.last()), " / "@)),
            Err(e) => Err(e),
        }
    }
}

/// The stats after reading the stat texts `pieces`, in order.
pub open spec fn stat_pieces_fold(v: StatsView, pieces: Seq<Seq<char>>) -> Result<StatsView, Failure>
    decreases pieces.len(),
{
    if pieces.len() == 0 {
        Ok(v)
    } else {
        match stat_pieces_fold(v, pieces.drop_last()) {
            Ok(w) => stat_step(w, pieces.last()),
            Err(e) => Err(e),
        }
    }
}

/// Reads the stat texts `pieces` into `stats`.
fn parse_stat_pieces(pieces: &Vec<&str>, stats: &mut Stats) -> (r: Result<(), Error>)
    requires
        forall|j: int| 0 <= j < pieces@.len() ==> stat_ok(#[trigger] pieces@[j]@),
    ensures
        match stat_pieces_fold(old(stats)@, strs_view(pieces@)) {
            Ok(v) => r is Ok && final(stats)@ == v,
            Err(f) => r matches Err(e) && fails_with(e, Err::<(), Failure>(f)),
        },
{
    let ghost all = strs_view(pieces@);
    let mut i: usize = 0;
    while i < pieces.len()
        invariant
            i <= pieces@.len(),
            all == strs_view(pieces@),
            forall|j: int| 0 <= j < pieces@.len() ==> stat_ok(#[trigger] pieces@[j]@),
            stat_pieces_fold(old(stats)@, all.take(i as int)) == Ok::<StatsView, Failure>(stats@),
        decreases pieces.len() - i,
    {
        proof {
            assert(all.take(i + 1).drop_last() =~= all.take(i as int));
            assert(all.take(i + 1).last() == pieces@[i as int]@);
        }
        let r = parse_stat(pieces[i], stats);
        if r.is_err() {
            proof {
                lemma_pieces_fold_stops(old(stats)@, all, i as int);
            }
            return r;
        }
        i = i + 1;
    }
    assert(all.take(pieces@.len() as int) =~= all);
    Ok(())
}

proof fn lemma_pieces_fold_stops(v: StatsView, all: Seq<Seq<char>>, i: int)
    requires
        0 <= i < all.len(),
        stat_pieces_fold(v, all.take(i + 1)) is Err,
    ensures
        stat_pieces_fold(v, all) == stat_pieces_fold(v, all.take(i + 1)),
    decreases all.len() - i,
{
    if i + 1 < all.len() {
        assert(all.take(i + 2).drop_last() =~= all.take(i + 1));
        lemma_pieces_fold_stops(v, all, i + 1);
    } else {
        assert(all.take(i + 1) =~= all);
    }
}

proof fn lemma_stats_fold_stops(v: StatsView, all: Seq<Seq<char>>, i: int)
    requires
        0 <= i < all.len(),
        stats_fold(v, all.take(i + 1)) is Err,
    ensures
        stats_fold(v, all) == stats_fold(v, all.take(i + 1)),
    decreases all.len() - i,
{
    if i + 1 < all.len() {
        assert(all.take(i + 2).drop_last() =~= all.take(i + 1));
        lemma_stats_fold_stops(v, all, i + 1);
    } else {
        assert(all.take(i + 1) =~= all);
    }
}

/// Parse the stats of the item, from the text of each of its `codex-stat` nodes.
///
/// Arisen Colada has a single `codex-stat` tag with "Collateral Chance: +2% / Collateral Damage:
/// +20%". Each text is split at ` / ` only, as one of the affixes is "Def/Res Penetration".
pub fn parse_stats(texts: Option<&Vec<String>>) -> (r: Result<Option<Stats>, Error>)
    requires
        texts matches Some(t) ==> stats_ok(string_seq_view(t@)),
    ensures
        match texts {
            None => r matches Ok(None),
            Some(t) => match stats_fold(empty_stats(), string_seq_view(t@)) {
                Ok(v) => r matches Ok(Some(s)) && s@ == v,
                Err(f) => r matches Err(e) && fails_with(e, Err::<(), Failure>(f)),
            },
        },
{
    match texts {
        None => Ok(None),
        Some(t) => {
            let ghost all = string_seq_view(t@);
            let mut stats = new_stats();
            let mut i: usize = 0;
            while i < t.len()
                invariant
                    i <= t@.len(),
                    texts == Some(t),
                    all == string_seq_view(t@),
                    stats_ok(all),
                    stats_fold(empty_stats(), all.take(i as int)) == Ok::<StatsView, Failure>(
                        stats@,
                    ),
                decreases t.len() - i,
            {
                proof {
                    assert(all.take(i + 1).drop_last() =~= all.take(i as int));
                    assert(all.take(i + 1).last() == all[i as int]);
                }
                let text = trim(t[i].as_str());
                proof {
                    reveal_strlit(" / ");
                }
                let pieces = split_str(text, " / ");
                proof {
                    assert(pieces_ok(spec_split(spec_trim(all[i as int]), " / "@)));
                    assert forall|j: int| 0 <= j < pieces@.len() implies stat_ok(#[trigger] pieces@[j]@) by {
                        assert(strs_view(pieces@)[j] == pieces@[j]@);
                    }
                }
                let r = parse_stat_pieces(&pieces, &mut stats);
                if r.is_err() {
                    proof {
                        lemma_stats_fold_stops(empty_stats(), all, i as int);
                    }
                    return match r {
                        Err(e) => Err(e),
                        Ok(_) => Ok(None),
                    };
                }
                i = i + 1;
            }
            assert(all.take(t@.len() as int) =~= all);
            Ok(Some(stats))
        },
    }
}

/// The message of a tier text of a `what` (an item, a skill) with no `:`.
pub open spec fn no_colon_tier_message(what: Seq<char>, text: Seq<char>) -> Seq<char> {
    "Failed to find ':' when parsing "@ + what + " tier: \""@ + text + "\""@
}

/// A tier text `Tier: ★<n>` of a `what`: the number after the `:` and the character
/// that follows it.
pub open spec fn spec_parse_tier_of(what: Seq<char>, text: Seq<char>) -> Result<int, Failure> {
    match find_char(text, ':') {
        Some(p) => {
            let t = spec_trim(text.subrange(p + 1, text.len() as int));
            read_int(if t.len() > 0 { t.drop_first() } else { t }, 0, 255)
        },
        None => Err(Failure::Html(no_colon_tier_message(what, text))),
    }
}

/// A tier text `Tier: ★<n>` of an item.
pub open spec fn spec_parse_tier(text: Seq<char>) -> Result<int, Failure> {
    spec_parse_tier_of("item"@, text)
}

/// Parse the tier text of a `what` (an item, a skill).
pub(crate) fn parse_tier_of(what: &str, text: &str) -> (r: Result<u8, Error>)
    ensures
        match r {
            Ok(t) => spec_parse_tier_of(what@, text@) == Ok::<int, Failure>(t as int),
            Err(e) => fails_with(e, spec_parse_tier_of(what@, text@)),
        },
{
    if let Some(pos) = find_char_index(text, ':') {
        let n = text.unicode_len();
        let tier_with_star = trim(text.substring_char(pos + 1, n));
        let m = tier_with_star.unicode_len();
        let rest = if m > 0 {
            tier_with_star.substring_char(1, m)
        } else {
            tier_with_star
        };
        proof {
            if m > 0 {
                assert(rest@ =~= tier_with_star@.drop_first());
            }
        }
        read_u8(rest)
    } else {
        let a = concat3("Failed to find ':' when parsing ", what, " tier: \"");
        Err(html_error(concat3(a.as_str(), text, "\"")))
    }
}

/// A tier text `Tier: ★<n>` reads as the tier `n`, for every tier `n`, on the page of
/// an item, a skill or a follower alike.
pub proof fn law_tier_text(what: Seq<char>, n: u8)
    ensures
        spec_parse_tier_of(what, "Tier:"@ + seq![' ', '\u{2605}'] + spec_int_text(n as int)) == Ok::<int, Failure>(
            n as int,
        ),
{
    reveal_strlit("Tier:");
    let d = spec_int_text(n as int);
    let text = "Tier:"@ + seq![' ', '\u{2605}'] + d;
    lemma_int_text_ends(n as int);
    assert("Tier:"@.len() == 5);
    assert(text[0] == 'T' && text[1] == 'i' && text[2] == 'e' && text[3] == 'r' && text[4] == ':');
    reveal_with_fuel(find_char_from, 6);
    assert(find_char(text, ':') == Some(4int));
    let after = text.subrange(5, text.len() as int);
    let t = seq!['\u{2605}'] + d;
    assert(after =~= seq![' '] + t);
    assert(is_whitespace(' '));
    assert(!is_whitespace('\u{2605}'));
    assert(after.drop_first() =~= t);
    assert(drop_while(t, |c: char| is_whitespace(c)) == t);
    assert(drop_while(after, |c: char| is_whitespace(c)) == t);
    assert(t.last() == d.last());
    assert(drop_last_while(t, |c: char| is_whitespace(c)) == t);
    assert(t.drop_first() =~= d);
    crate::num::lemma_parse_int_text(n as int, 0, 255);
}

/// Parse the tier of the item.
pub fn parse_tier(text: &str) -> (r: Result<u8, Error>)
    ensures
        match r {
            Ok(t) => spec_parse_tier(text@) == Ok::<int, Failure>(t as int),
            Err(e) => fails_with(e, spec_parse_tier(text@)),
        },
{
    parse_tier_of("item", text)
}

/// The message of a status text with no `(`.
pub open spec fn no_paren_status_message(text: Seq<char>) -> Seq<char> {
    "Failed to find '(' when parsing status effect: \""@ + text + "\""@
}

/// A text `Status (x%)`: the trimmed status and the chance.
pub open spec fn spec_split_status_chance(text: Seq<char>) -> Result<(Seq<char>, int), Failure> {
    match find_char(text, '(') {
        Some(p) => match read_int(
            crate::guide::html_utils::chance_text(text.subrange(p, text.len() as int)),
            -128,
            127,
        ) {
            Ok(c) => Ok((spec_trim(text.subrange(0, p)), c)),
            Err(e) => Err(e),
        },
        None => Err(Failure::Html(no_paren_status_message(text))),
    }
}

/// From a string `Status (x%)`, return a tuple `("Status", x)`.
pub fn split_status_chance(text: &str) -> (r: Result<(String, i8), Error>)
    ensures
        match r {
            Ok((name, chance)) => spec_split_status_chance(text@) == Ok::<(Seq<char>, int), Failure>(
                (name@, chance as int),
            ),
            Err(e) => fails_with(e, spec_split_status_chance(text@)),
        },
{
    if let Some(pos) = find_char_index(text, '(') {
        let n = text.unicode_len();
        let status = text.substring_char(0, pos);
        let chance = text.substring_char(pos, n);
        let chance = trim_end_matches(
            trim_end_matches(trim_start_matches(trim(chance), '('), ')'),
            '%',
        );
        match read_i8(chance) {
            Ok(c) => Ok((to_owned(trim(status)), c)),
            Err(e) => Err(e),
        }
    } else {
        Err(html_error(concat3("Failed to find '(' when parsing status effect: \"", text, "\"")))
    }
}

/// A status text `<name> (<chance>%)` splits into the name and the chance, for every
/// name without `(` that starts and ends with other than whitespace, and every chance
/// that fits in an `i8`.
pub proof fn law_status_chance_text(name: Seq<char>, c: i8)
    requires
        name.len() > 0,
        !is_whitespace(name[0]),
        !is_whitespace(name.last()),
        forall|j: int| 0 <= j < name.len() ==> name[j] != '(',
    ensures
        spec_split_status_chance(name + seq![' ', '('] + spec_int_text(c as int) + seq!['%', ')']) == Ok::<
            (Seq<char>, int),
            Failure,
        >((name, c as int)),
{
    let d = spec_int_text(c as int);
    let text = name + seq![' ', '('] + d + seq!['%', ')'];
    let p: int = name.len() as int + 1;
    lemma_int_text_ends(c as int);
    assert(text[p] == '(');
    assert forall|j: int| 0 <= j < p implies text[j] != '(' by {
        if j < name.len() {
            assert(text[j] == name[j]);
        }
    }
    lemma_find_char_first(text, '(', 0, p);
    let head = text.subrange(0, p);
    assert(head =~= name + seq![' ']);
    assert(is_whitespace(' '));
    assert(head[0] == name[0]);
    assert(drop_while(head, |x: char| is_whitespace(x)) == head);
    assert(head.drop_last() =~= name);
    assert(drop_last_while(name, |x: char| is_whitespace(x)) == name);
    assert(drop_last_while(head, |x: char| is_whitespace(x)) == name);
    let tail = text.subrange(p, text.len() as int);
    let inner = d + seq!['%', ')'];
    assert(tail =~= seq!['('] + inner);
    assert(drop_while(tail, |x: char| is_whitespace(x)) == tail);
    assert(drop_last_while(tail, |x: char| is_whitespace(x)) == tail);
    assert(tail.drop_first() =~= inner);
    assert(inner[0] == d[0]);
    assert(drop_while(inner, is_char('(')) == inner);
    assert(drop_while(tail, is_char('(')) == inner);
    assert(inner.drop_last() =~= d + seq!['%']);
    assert((d + seq!['%']).last() == '%');
    assert(drop_last_while(d + seq!['%'], is_char(')')) == d + seq!['%']);
    assert(drop_last_while(inner, is_char(')')) == d + seq!['%']);
    assert((d + seq!['%']).drop_last() =~= d);
    assert(drop_last_while(d, is_char('%')) == d);
    assert(drop_last_while(d + seq!['%'], is_char('%')) == d);
    crate::num::lemma_parse_int_text(c as int, -128, 127);
}

/// Aggregation of all fields that are tagged with the `codex-page-meta` class.
/// This is kind of a dumpster class where all kinds of fields are put in.
#[derive(Debug)]
pub struct CodexMeta {
    /// Whether the item is exotic.
    pub exotic: bool,
    /// The tier of the item.
    pub tier: u8,
    /// The rarity of the item, if any.
    pub rarity: Option<String>,
    /// Which classes may use the item.
    pub useable_by: Option<String>,
    /// Equipment slot on which the item is equipped.
    pub place: Option<Place>,
    /// The type of a weapon.
    pub weapon_type: Option<String>,
}

/// What a [`CodexMeta`] holds.
pub struct CodexMetaView {
    pub exotic: bool,
    pub tier: u8,
    pub rarity: Option<Seq<char>>,
    pub useable_by: Option<Seq<char>>,
    pub place: Option<Place>,
    pub weapon_type: Option<Seq<char>>,
}

/// The characters of a string that may be absent.
pub open spec fn opt_view(s: Option<String>) -> Option<Seq<char>> {
    match s {
        Some(x) => Some(x@),
        None => None,
    }
}

impl View for CodexMeta {
    type V = CodexMetaView;

    open spec fn view(&self) -> CodexMetaView {
        CodexMetaView {
            exotic: self.exotic,
            tier: self.tier,
            rarity: opt_view(self.rarity),
            useable_by: opt_view(self.useable_by),
            place: self.place,
            weapon_type: opt_view(self.weapon_type),
        }
    }
}

/// The page meta of an item before any node is read: not exotic, tier 1.
pub open spec fn default_meta() -> CodexMetaView {
    CodexMetaView {
        exotic: false,
        tier: 1,
        rarity: None,
        useable_by: None,
        place: None,
        weapon_type: None,
    }
}

impl Default for CodexMeta {
    fn default() -> (r: Self)
        ensures
            r@ == default_meta(),
    {
        CodexMeta {
            exotic: false,
            tier: 1,
            rarity: None,
            useable_by: None,
            place: None,
            weapon_type: None,
        }
    }
}

/// A `codex-page-meta` node: the text of its `.exotic` child if it has one, its
/// text, and its HTML (for the error of an unknown node).
#[derive(Debug)]
pub struct MetaNode {
    pub exotic_text: Option<String>,
    pub text: String,
    pub html: String,
}

/// What follows `prefix` in `s`, trimmed.
pub open spec fn after_trimmed(s: Seq<char>, prefix: Seq<char>) -> Seq<char> {
    spec_trim(s.subrange(prefix.len() as int, s.len() as int))
}

/// The page meta after reading one `codex-page-meta` node.
pub open spec fn meta_step(m: CodexMetaView, node: MetaNode) -> Result<CodexMetaView, Failure> {
    match node.exotic_text {
        Some(c) => if spec_trim(c@) == "Exotic"@ {
            Ok(CodexMetaView { exotic: true, ..m })
        } else {
            Err(Failure::Html("Invalid exotic node contents: "@ + spec_trim(c@)))
        },
        None => {
            let c = spec_trim(node.text@);
            if seq_starts_with(c, "Tier:"@) {
                match spec_parse_tier(c) {
                    Ok(t) => Ok(CodexMetaView { tier: t as u8, ..m }),
                    Err(e) => Err(e),
                }
            } else if seq_starts_with(c, "Rarity:"@) {
                Ok(CodexMetaView { rarity: Some(after_trimmed(c, "Rarity:"@)), ..m })
            } else if seq_starts_with(c, "Useable by:"@) {
                Ok(CodexMetaView { useable_by: Some(after_trimmed(c, "Useable by:"@)), ..m })
            } else if seq_starts_with(c, "Place:"@) {
                match spec_place(after_trimmed(c, "Place:"@)) {
                    Some(p) => Ok(CodexMetaView { place: Some(p), ..m }),
                    None => Err(Failure::Enum("Place"@, after_trimmed(c, "Place:"@))),
                }
            } else if seq_starts_with(c, "Type:"@) {
                Ok(CodexMetaView { weapon_type: Some(after_trimmed(c, "Type:"@)), ..m })
            } else {
                Err(Failure::Html("Unknown codex-page-meta: "@ + node.html@))
            }
        },
    }
}

/// The page meta after reading the nodes of `nodes`, in order.
pub open spec fn meta_fold(m: CodexMetaView, nodes: Seq<MetaNode>) -> Result<CodexMetaView, Failure>
    decreases nodes.len(),
{
    if nodes.len() == 0 {
        Ok(m)
    } else {
        match meta_fold(m, nodes.drop_last()) {
            Ok(w) => meta_step(w, nodes.last()),
            Err(e) => Err(e),
        }
    }
}

/// A meta text `label value`, the label not starting with whitespace and the value
/// starting and ending with other than whitespace, is its own trim, starts with the
/// label, and holds the value after it.
proof fn lemma_meta_text(label: Seq<char>, v: Seq<char>)
    requires
        label.len() > 0,
        !is_whitespace(label[0]),
        v.len() > 0,
        !is_whitespace(v[0]),
        !is_whitespace(v.last()),
    ensures
        spec_trim(label + seq![' '] + v) == label + seq![' '] + v,
        seq_starts_with(label + seq![' '] + v, label),
        after_trimmed(label + seq![' '] + v, label) == v,
{
    let text = label + seq![' '] + v;
    assert(text[0] == label[0]);
    assert(text.last() == v.last());
    assert(drop_while(text, |c: char| is_whitespace(c)) == text);
    assert(drop_last_while(text, |c: char| is_whitespace(c)) == text);
    assert(text.subrange(0, label.len() as int) =~= label);
    let rest = text.subrange(label.len() as int, text.len() as int);
    assert(rest =~= seq![' '] + v);
    assert(is_whitespace(' '));
    assert(rest.drop_first() =~= v);
    assert(drop_while(v, |c: char| is_whitespace(c)) == v);
    assert(drop_while(rest, |c: char| is_whitespace(c)) == v);
    assert(drop_last_while(v, |c: char| is_whitespace(c)) == v);
}

/// Reading a `codex-page-meta` node sets the part of the page meta its text names and
/// leaves the rest as it was: `Rarity: <v>` the rarity, `Useable by: <v>` who may use
/// the item, `Type: <v>` its weapon type, `Tier: ★<n>` its tier, and an `.exotic`
/// child reading `Exotic` marks it exotic.
pub proof fn law_meta_texts(m: CodexMetaView, node: MetaNode, v: Seq<char>, n: u8)
    requires
        v.len() > 0,
        !is_whitespace(v[0]),
        !is_whitespace(v.last()),
    ensures
        node.exotic_text is None && node.text@ == "Rarity:"@ + seq![' '] + v ==> meta_step(m, node) == Ok::<
            CodexMetaView,
            Failure,
        >(CodexMetaView { rarity: Some(v), ..m }),
        node.exotic_text is None && node.text@ == "Useable by:"@ + seq![' '] + v ==> meta_step(m, node) == Ok::<
            CodexMetaView,
            Failure,
        >(CodexMetaView { useable_by: Some(v), ..m }),
        node.exotic_text is None && node.text@ == "Type:"@ + seq![' '] + v ==> meta_step(m, node) == Ok::<
            CodexMetaView,
            Failure,
        >(CodexMetaView { weapon_type: Some(v), ..m }),
        node.exotic_text is None && node.text@ == "Tier:"@ + seq![' ', '\u{2605}'] + spec_int_text(n as int)
            ==> meta_step(m, node) == Ok::<CodexMetaView, Failure>(CodexMetaView { tier: n, ..m }),
        node.exotic_text matches Some(c) && c@ == "Exotic"@ ==> meta_step(m, node) == Ok::<CodexMetaView, Failure>(
            CodexMetaView { exotic: true, ..m },
        ),
{
    reveal_strlit("Tier:");
    reveal_strlit("Rarity:");
    reveal_strlit("Useable by:");
    reveal_strlit("Type:");
    reveal_strlit("Exotic");
    assert("Tier:"@.len() == 5 && "Tier:"@[0] == 'T' && "Tier:"@[1] == 'i');
    assert("Rarity:"@.len() == 7 && "Rarity:"@[0] == 'R');
    assert("Useable by:"@.len() == 11 && "Useable by:"@[0] == 'U');
    assert("Type:"@.len() == 5 && "Type:"@[0] == 'T' && "Type:"@[1] == 'y');
    if node.exotic_text is None {
        let c = node.text@;
        if c == "Rarity:"@ + seq![' '] + v {
            lemma_meta_text("Rarity:"@, v);
            assert(c.subrange(0, 5)[0] == 'R');
            assert(!seq_starts_with(c, "Tier:"@));
        } else if c == "Useable by:"@ + seq![' '] + v {
            lemma_meta_text("Useable by:"@, v);
            assert(c.subrange(0, 5)[0] == 'U');
            assert(!seq_starts_with(c, "Tier:"@));
            assert(c.subrange(0, 7)[0] == 'U');
            assert(!seq_starts_with(c, "Rarity:"@));
        } else if c == "Type:"@ + seq![' '] + v {
            lemma_meta_text("Type:"@, v);
            assert(c.subrange(0, 5)[1] == 'y');
            assert(!seq_starts_with(c, "Tier:"@));
            assert(c.subrange(0, 7)[0] == 'T');
            assert(!seq_starts_with(c, "Rarity:"@));
            assert(!seq_starts_with(c, "Useable by:"@)) by {
                if c.len() >= 11 {
                    assert(c.subrange(0, 11)[0] == 'T');
                }
            }
            assert(!seq_starts_with(c, "Place:"@)) by {
                reveal_strlit("Place:");
                assert("Place:"@[0] == 'P');
                assert(c.subrange(0, 6)[0] == 'T');
            }
        } else if c == "Tier:"@ + seq![' ', '\u{2605}'] + spec_int_text(n as int) {
            let d = spec_int_text(n as int);
            lemma_int_text_ends(n as int);
            assert(c[0] == 'T');
            assert(c.last() == d.last());
            assert(drop_while(c, |x: char| is_whitespace(x)) == c);
            assert(drop_last_while(c, |x: char| is_whitespace(x)) == c);
            assert(c.subrange(0, 5) =~= "Tier:"@);
            law_tier_text("item"@, n);
        }
    } else {
        let e = node.exotic_text->0@;
        if e == "Exotic"@ {
            assert(e[0] == 'E' && e.last() == 'c');
            assert(drop_while(e, |x: char| is_whitespace(x)) == e);
            assert(drop_last_while(e, |x: char| is_whitespace(x)) == e);
        }
    }
}

/// Reads one `codex-page-meta` node into `meta`.
fn parse_meta_node(node: &MetaNode, meta: &mut CodexMeta) -> (r: Result<(), Error>)
    ensures
        match meta_step(old(meta)@, *node) {
            Ok(v) => r is Ok && final(meta)@ == v,
            Err(f) => r matches Err(e) && fails_with(e, Err::<(), Failure>(f)),
        },
{
    proof {
        reveal_strlit("Rarity:");
        reveal_strlit("Useable by:");
        reveal_strlit("Place:");
        reveal_strlit("Type:");
    }
    match &node.exotic_text {
        Some(c) => {
            let contents = trim(c.as_str());
            if str_eq(contents, "Exotic") {
                meta.exotic = true;
                Ok(())
            } else {
                Err(html_error(concat2("Invalid exotic node contents: ", contents)))
            }
        },
        None => {
            let contents = trim(node.text.as_str());
            let n = contents.unicode_len();
            if starts_with(contents, "Tier:") {
                match parse_tier(contents) {
                    Ok(t) => {
                        meta.tier = t;
                        Ok(())
                    },
                    Err(e) => Err(e),
                }
            } else if starts_with(contents, "Rarity:") {
                meta.rarity = Some(to_owned(trim(contents.substring_char(7, n))));
                Ok(())
            } else if starts_with(contents, "Useable by:") {
                meta.useable_by = Some(to_owned(trim(contents.substring_char(11, n))));
                Ok(())
            } else if starts_with(contents, "Place:") {
                match Place::from_str(trim(contents.substring_char(6, n))) {
                    Ok(p) => {
                        meta.place = Some(p);
                        Ok(())
                    },
                    Err(e) => Err(e),
                }
            } else if starts_with(contents, "Type:") {
                meta.weapon_type = Some(to_owned(trim(contents.substring_char(5, n))));
                Ok(())
            } else {
                Err(html_error(concat2("Unknown codex-page-meta: ", node.html.as_str())))
            }
        },
    }
}

proof fn lemma_meta_fold_stops(m: CodexMetaView, all: Seq<MetaNode>, i: int)
    requires
        0 <= i < all.len(),
        meta_fold(m, all.take(i + 1)) is Err,
    ensures
        meta_fold(m, all) == meta_fold(m, all.take(i + 1)),
    decreases all.len() - i,
{
    if i + 1 < all.len() {
        assert(all.take(i + 2).drop_last() =~= all.take(i + 1));
        lemma_meta_fold_stops(m, all, i + 1);
    } else {
        assert(all.take(i + 1) =~= all);
    }
}

/// Parse all `codex-page-meta` nodes and fill a `CodexMeta` struct.
pub fn parse_codex_page_meta(nodes: &Vec<MetaNode>) -> (r: Result<CodexMeta, Error>)
    ensures
        match meta_fold(default_meta(), nodes@) {
            Ok(v) => r matches Ok(m) && m@ == v,
            Err(f) => r matches Err(e) && fails_with(e, Err::<(), Failure>(f)),
        },
{
    let mut ret = CodexMeta::default();
    let mut i: usize = 0;
    while i < nodes.len()
        invariant
            i <= nodes@.len(),
            meta_fold(default_meta(), nodes@.take(i as int)) == Ok::<CodexMetaView, Failure>(ret@),
        decreases nodes.len() - i,
    {
        proof {
            assert(nodes@.take(i + 1).drop_last() =~= nodes@.take(i as int));
            assert(nodes@.take(i + 1).last() == nodes@[i as int]);
        }
        let r = parse_meta_node(&nodes[i], &mut ret);
        if r.is_err() {
            proof {
                lemma_meta_fold_stops(default_meta(), nodes@, i as int);
            }
            return match r {
                Err(e) => Err(e),
                Ok(_) => Ok(ret),
            };
        }
        i = i + 1;
    }
    assert(nodes@.take(nodes@.len() as int) =~= nodes@);
    Ok(ret)
}

/// The node of an item's ability: the text of the node before the node before it,
/// if any, and its own text.
#[derive(Debug)]
pub struct AbilityNode {
    pub previous_text: Option<String>,
    pub text: String,
}

/// The ability of an item, read from its ability node.
pub open spec fn spec_parse_ability(node: AbilityNode) -> Result<(Seq<char>, Seq<char>), Failure> {
    match node.previous_text {
        Some(prev) => {
            let text = spec_trim(prev@);
            match find_char(text, ':') {
                Some(p) => if spec_trim(text.subrange(0, p + 1)) == "Ability:"@ {
                    Ok((spec_trim(text.subrange(p + 1, text.len() as int)), node.text@))
                } else {
                    Err(Failure::Html("Failed to find 'Ability:' when parsing: \""@ + text + "\""@))
                },
                None => Err(
                    Failure::Html("Failed to find ':' when parsing ability name: \""@ + text + "\""@),
                ),
            }
        },
        None => Err(Failure::Html("Failed to find previous node when parsing ability"@)),
    }
}

/// Parse the ability of an item from its ability node, if it has one.
pub fn parse_ability(node: Option<&AbilityNode>) -> (r: Result<Option<Ability>, Error>)
    ensures
        match node {
            None => r matches Ok(None),
            Some(n) => match spec_parse_ability(*n) {
                Ok((name, description)) => r matches Ok(Some(a)) && a.name@ == name
                    && a.description@ == description,
                Err(f) => r matches Err(e) && fails_with(e, Err::<(), Failure>(f)),
            },
        },
{
    match node {
        None => Ok(None),
        Some(n) => match &n.previous_text {
            Some(prev) => {
                let text = trim(prev.as_str());
                match find_char_index(text, ':') {
                    Some(pos) => {
                        let len = text.unicode_len();
                        let left = trim(text.substring_char(0, pos + 1));
                        let right = trim(text.substring_char(pos + 1, len));
                        if str_eq(left, "Ability:") {
                            Ok(
                                Some(
                                    Ability {
                                        name: to_owned(right),
                                        description: to_owned(n.text.as_str()),
                                    },
                                ),
                            )
                        } else {
                            Err(
                                html_error(
                                    concat3("Failed to find 'Ability:' when parsing: \"", text, "\""),
                                ),
                            )
                        }
                    },
                    None => Err(
                        html_error(
                            concat3("Failed to find ':' when parsing ability name: \"", text, "\""),
                        ),
                    ),
                }
            },
            None => Err(html_error(to_owned("Failed to find previous node when parsing ability"))),
        },
    }
}

/// A section of an item page, named by its `h4` header.
#[derive(Debug, Clone, Copy, PartialEq, Eq, Structural)]
pub enum ItemSection {
    Causes,
    Gives,
    Cures,
    Immunities,
    DroppedBy,
    UpgradeMaterials,
}

/// The section an `h4` header names.
pub open spec fn spec_item_section(text: Seq<char>) -> Option<ItemSection> {
    if text == "Causes:"@ {
        Some(ItemSection::Causes)
    } else if text == "Gives:"@ {
        Some(ItemSection::Gives)
    } else if text == "Cures:"@ {
        Some(ItemSection::Cures)
    } else if text == "Immunities:"@ {
        Some(ItemSection::Immunities)
    } else if text == "Dropped by:"@ {
        Some(ItemSection::DroppedBy)
    } else if text == "Upgrade materials:"@ {
        Some(ItemSection::UpgradeMaterials)
    } else {
        None
    }
}

/// The section an `h4` header names, from the header's text.
pub fn item_section(text: &str) -> (r: Result<ItemSection, Error>)
    ensures
        match spec_item_section(spec_trim(text@)) {
            Some(s) => r matches Ok(x) && x == s,
            None => r matches Err(e) && is_html_error(e, "Unexpected h4: \""@ + spec_trim(text@) + "\""@),
        },
{
    let t = trim(text);
    if str_eq(t, "Causes:") {
        Ok(ItemSection::Causes)
    } else if str_eq(t, "Gives:") {
        Ok(ItemSection::Gives)
    } else if str_eq(t, "Cures:") {
        Ok(ItemSection::Cures)
    } else if str_eq(t, "Immunities:") {
        Ok(ItemSection::Immunities)
    } else if str_eq(t, "Dropped by:") {
        Ok(ItemSection::DroppedBy)
    } else if str_eq(t, "Upgrade materials:") {
        Ok(ItemSection::UpgradeMaterials)
    } else {
        Err(html_error(concat3("Unexpected h4: \"", t, "\"")))
    }
}


} // verus!
