//! Names that differ between the codex and the guide, and small conversions.

use vstd::prelude::*;

use crate::error::{Error, Kind};
use crate::guide::StatusEffect;
use crate::text::{find_char, find_char_index, str_eq, string_views, strs_view, to_owned};

verus! {

/// The guide name of an effect the codex names `name`, when the two differ.
pub open spec fn spec_guide_effect_name(name: Seq<char>) -> Option<Seq<char>> {
    if name == "Bloodshift"@ {
        Some("Bloodshift [temp]"@)
    }     else if name == "Brynhild"@ {
        Some("Call of Brynhild"@)
    }     else if name == "Darkblight"@ {
        Some("Darkblight [temp]"@)
    }     else if name == "Dark Immune"@ {
        Some("Dark Immune [temp]"@)
    }     else if name == "Dark Sigil"@ {
        Some("Dark Sigil [temp]"@)
    }     else if name == "Defending"@ {
        Some("Defending [Magical]"@)
    }     else if name == "Dragon Sigil"@ {
        Some("Dragon Sigil [temp]"@)
    }     else if name == "Drakeblight"@ {
        Some("Drakeblight [temp]"@)
    }     else if name == "Dumbr"@ {
        Some("Call of Dumbr"@)
    }     else if name == "Earthblight"@ {
        Some("Earthblight [temp]"@)
    }     else if name == "Earth Immune"@ {
        Some("Earth Immune [temp]"@)
    }     else if name == "Earth Sigil"@ {
        Some("Earth Sigil [temp]"@)
    }     else if name == "Fireblight"@ {
        Some("Fireblight [temp]"@)
    }     else if name == "Fire Immune"@ {
        Some("Fire Immune [temp]"@)
    }     else if name == "Fire Sigil"@ {
        Some("Fire Sigil [temp]"@)
    }     else if name == "Foresight ↑"@ {
        Some("Foresight ↑ [temp]"@)
    }     else if name == "Foresight ↓"@ {
        Some("Foresight ↓ [temp]"@)
    }     else if name == "Holyblight"@ {
        Some("Holyblight [temp]"@)
    }     else if name == "Holy Immune"@ {
        Some("Holy Immune [temp]"@)
    }     else if name == "Holy Sigil"@ {
        Some("Holy Sigil [temp]"@)
    }     else if name == "Idun"@ {
        Some("Call of Idun"@)
    }     else if name == "Jord"@ {
        Some("Call of Jord"@)
    }     else if name == "Lightningblight"@ {
        Some("Lightningblight [temp]"@)
    }     else if name == "Lightning Immune"@ {
        Some("Lightning Immune [temp]"@)
    }     else if name == "Lightning Sigil"@ {
        Some("Lightning Sigil [temp]"@)
    }     else if name == "Lyon's Mark"@ {
        Some("Lyon's Mark [temp]"@)
    }     else if name == "Skadi"@ {
        Some("Call of Skadi"@)
    }     else if name == "Target ↑"@ {
        Some("Target ↑ [temp]"@)
    }     else if name == "Target ↑↑"@ {
        Some("Target ↑↑ [temp]"@)
    }     else if name == "Target ↓"@ {
        Some("Target ↓ [temp]"@)
    }     else if name == "Target ↓↓"@ {
        Some("Target ↓↓ [temp]"@)
    }     else if name == "Tree of Demise"@ {
        Some("Tree of Demise [temp]"@)
    }     else if name == "Tree of Life"@ {
        Some("Tree of Life [temp]"@)
    }     else if name == "Waterblight"@ {
        Some("Waterblight [temp]"@)
    }     else if name == "Water Immune"@ {
        Some("Water Immune [temp]"@)
    }     else if name == "Water Sigil"@ {
        Some("Water Sigil [temp]"@)
    }     else if name == "Windblight"@ {
        Some("Windblight [temp]"@)
    }     else if name == "Windswept"@ {
        Some("Windswept [temp]"@)
    } else {
        None
    }
}

/// Each effect the guide names otherwise than the codex is the codex name with a note
/// ` [temp]` or ` [Magical]` after it, or `Call of ` before it.
pub proof fn law_guide_effect_renames(n: Seq<char>)
    ensures
        spec_guide_effect_name(n) matches Some(g) ==> g == n + " [temp]"@ || g == n + " [Magical]"@ || g
            == "Call of "@ + n,
{
    reveal_strlit(" [temp]");
    reveal_strlit(" [Magical]");
    reveal_strlit("Call of ");
    let g = spec_guide_effect_name(n)->0;
    if n == "Bloodshift"@ {
        reveal_strlit("Bloodshift");
        reveal_strlit("Bloodshift [temp]");
        assert(g =~= n + " [temp]"@);
    } else if n == "Brynhild"@ {
        reveal_strlit("Brynhild");
        reveal_strlit("Call of Brynhild");
        assert(g =~= "Call of "@ + n);
    } else if n == "Darkblight"@ {
        reveal_strlit("Darkblight");
        reveal_strlit("Darkblight [temp]");
        assert(g =~= n + " [temp]"@);
    } else if n == "Dark Immune"@ {
        reveal_strlit("Dark Immune");
        reveal_strlit("Dark Immune [temp]");
        assert(g =~= n + " [temp]"@);
    } else if n == "Dark Sigil"@ {
        reveal_strlit("Dark Sigil");
        reveal_strlit("Dark Sigil [temp]");
        assert(g =~= n + " [temp]"@);
    } else if n == "Defending"@ {
        reveal_strlit("Defending");
        reveal_strlit("Defending [Magical]");
        assert(g =~= n + " [Magical]"@);
    } else if n == "Dragon Sigil"@ {
        reveal_strlit("Dragon Sigil");
        reveal_strlit("Dragon Sigil [temp]");
        assert(g =~= n + " [temp]"@);
    } else if n == "Drakeblight"@ {
        reveal_strlit("Drakeblight");
        reveal_strlit("Drakeblight [temp]");
        assert(g =~= n + " [temp]"@);
    } else if n == "Dumbr"@ {
        reveal_strlit("Dumbr");
        reveal_strlit("Call of Dumbr");
        assert(g =~= "Call of "@ + n);
    } else if n == "Earthblight"@ {
        reveal_strlit("Earthblight");
        reveal_strlit("Earthblight [temp]");
        assert(g =~= n + " [temp]"@);
    } else if n == "Earth Immune"@ {
        reveal_strlit("Earth Immune");
        reveal_strlit("Earth Immune [temp]");
        assert(g =~= n + " [temp]"@);
    } else if n == "Earth Sigil"@ {
        reveal_strlit("Earth Sigil");
        reveal_strlit("Earth Sigil [temp]");
        assert(g =~= n + " [temp]"@);
    } else if n == "Fireblight"@ {
        reveal_strlit("Fireblight");
        reveal_strlit("Fireblight [temp]");
        assert(g =~= n + " [temp]"@);
    } else if n == "Fire Immune"@ {
        reveal_strlit("Fire Immune");
        reveal_strlit("Fire Immune [temp]");
        assert(g =~= n + " [temp]"@);
    } else if n == "Fire Sigil"@ {
        reveal_strlit("Fire Sigil");
        reveal_strlit("Fire Sigil [temp]");
        assert(g =~= n + " [temp]"@);
    } else if n == "Foresight ↑"@ {
        reveal_strlit("Foresight ↑");
        reveal_strlit("Foresight ↑ [temp]");
        assert(g =~= n + " [temp]"@);
    } else if n == "Foresight ↓"@ {
        reveal_strlit("Foresight ↓");
        reveal_strlit("Foresight ↓ [temp]");
        assert(g =~= n + " [temp]"@);
    } else if n == "Holyblight"@ {
        reveal_strlit("Holyblight");
        reveal_strlit("Holyblight [temp]");
        assert(g =~= n + " [temp]"@);
    } else if n == "Holy Immune"@ {
        reveal_strlit("Holy Immune");
        reveal_strlit("Holy Immune [temp]");
        assert(g =~= n + " [temp]"@);
    } else if n == "Holy Sigil"@ {
        reveal_strlit("Holy Sigil");
        reveal_strlit("Holy Sigil [temp]");
        assert(g =~= n + " [temp]"@);
    } else if n == "Idun"@ {
        reveal_strlit("Idun");
        reveal_strlit("Call of Idun");
        assert(g =~= "Call of "@ + n);
    } else if n == "Jord"@ {
        reveal_strlit("Jord");
        reveal_strlit("Call of Jord");
        assert(g =~= "Call of "@ + n);
    } else if n == "Lightningblight"@ {
        reveal_strlit("Lightningblight");
        reveal_strlit("Lightningblight [temp]");
        assert(g =~= n + " [temp]"@);
    } else if n == "Lightning Immune"@ {
        reveal_strlit("Lightning Immune");
        reveal_strlit("Lightning Immune [temp]");
        assert(g =~= n + " [temp]"@);
    } else if n == "Lightning Sigil"@ {
        reveal_strlit("Lightning Sigil");
        reveal_strlit("Lightning Sigil [temp]");
        assert(g =~= n + " [temp]"@);
    } else if n == "Lyon's Mark"@ {
        reveal_strlit("Lyon's Mark");
        reveal_strlit("Lyon's Mark [temp]");
        assert(g =~= n + " [temp]"@);
    } else if n == "Skadi"@ {
        reveal_strlit("Skadi");
        reveal_strlit("Call of Skadi");
        assert(g =~= "Call of "@ + n);
    } else if n == "Target ↑"@ {
        reveal_strlit("Target ↑");
        reveal_strlit("Target ↑ [temp]");
        assert(g =~= n + " [temp]"@);
    } else if n == "Target ↑↑"@ {
        reveal_strlit("Target ↑↑");
        reveal_strlit("Target ↑↑ [temp]");
        assert(g =~= n + " [temp]"@);
    } else if n == "Target ↓"@ {
        reveal_strlit("Target ↓");
        reveal_strlit("Target ↓ [temp]");
        assert(g =~= n + " [temp]"@);
    } else if n == "Target ↓↓"@ {
        reveal_strlit("Target ↓↓");
        reveal_strlit("Target ↓↓ [temp]");
        assert(g =~= n + " [temp]"@);
    } else if n == "Tree of Demise"@ {
        reveal_strlit("Tree of Demise");
        reveal_strlit("Tree of Demise [temp]");
        assert(g =~= n + " [temp]"@);
    } else if n == "Tree of Life"@ {
        reveal_strlit("Tree of Life");
        reveal_strlit("Tree of Life [temp]");
        assert(g =~= n + " [temp]"@);
    } else if n == "Waterblight"@ {
        reveal_strlit("Waterblight");
        reveal_strlit("Waterblight [temp]");
        assert(g =~= n + " [temp]"@);
    } else if n == "Water Immune"@ {
        reveal_strlit("Water Immune");
        reveal_strlit("Water Immune [temp]");
        assert(g =~= n + " [temp]"@);
    } else if n == "Water Sigil"@ {
        reveal_strlit("Water Sigil");
        reveal_strlit("Water Sigil [temp]");
        assert(g =~= n + " [temp]"@);
    } else if n == "Windblight"@ {
        reveal_strlit("Windblight");
        reveal_strlit("Windblight [temp]");
        assert(g =~= n + " [temp]"@);
    } else if n == "Windswept"@ {
        reveal_strlit("Windswept");
        reveal_strlit("Windswept [temp]");
        assert(g =~= n + " [temp]"@);
    }
}

/// The guide name of an effect the codex names `name`.
pub open spec fn guide_effect_name(name: Seq<char>) -> Seq<char> {
    match spec_guide_effect_name(name) {
        Some(g) => g,
        None => name,
    }
}

/// Rename effects whose name is different from the codex to the guide.
pub fn codex_effect_name_to_guide_name(name: &str) -> (r: &str)
    ensures
        r@ == guide_effect_name(name@),
{
    if str_eq(name, "Bloodshift") {
        "Bloodshift [temp]"
    }     else if str_eq(name, "Brynhild") {
        "Call of Brynhild"
    }     else if str_eq(name, "Darkblight") {
        "Darkblight [temp]"
    }     else if str_eq(name, "Dark Immune") {
        "Dark Immune [temp]"
    }     else if str_eq(name, "Dark Sigil") {
        "Dark Sigil [temp]"
    }     else if str_eq(name, "Defending") {
        "Defending [Magical]"
    }     else if str_eq(name, "Dragon Sigil") {
        "Dragon Sigil [temp]"
    }     else if str_eq(name, "Drakeblight") {
        "Drakeblight [temp]"
    }     else if str_eq(name, "Dumbr") {
        "Call of Dumbr"
    }     else if str_eq(name, "Earthblight") {
        "Earthblight [temp]"
    }     else if str_eq(name, "Earth Immune") {
        "Earth Immune [temp]"
    }     else if str_eq(name, "Earth Sigil") {
        "Earth Sigil [temp]"
    }     else if str_eq(name, "Fireblight") {
        "Fireblight [temp]"
    }     else if str_eq(name, "Fire Immune") {
        "Fire Immune [temp]"
    }     else if str_eq(name, "Fire Sigil") {
        "Fire Sigil [temp]"
    }     else if str_eq(name, "Foresight ↑") {
        "Foresight ↑ [temp]"
    }     else if str_eq(name, "Foresight ↓") {
        "Foresight ↓ [temp]"
    }     else if str_eq(name, "Holyblight") {
        "Holyblight [temp]"
    }     else if str_eq(name, "Holy Immune") {
        "Holy Immune [temp]"
    }     else if str_eq(name, "Holy Sigil") {
        "Holy Sigil [temp]"
    }     else if str_eq(name, "Idun") {
        "Call of Idun"
    }     else if str_eq(name, "Jord") {
        "Call of Jord"
    }     else if str_eq(name, "Lightningblight") {
        "Lightningblight [temp]"
    }     else if str_eq(name, "Lightning Immune") {
        "Lightning Immune [temp]"
    }     else if str_eq(name, "Lightning Sigil") {
        "Lightning Sigil [temp]"
    }     else if str_eq(name, "Lyon's Mark") {
        "Lyon's Mark [temp]"
    }     else if str_eq(name, "Skadi") {
        "Call of Skadi"
    }     else if str_eq(name, "Target ↑") {
        "Target ↑ [temp]"
    }     else if str_eq(name, "Target ↑↑") {
        "Target ↑↑ [temp]"
    }     else if str_eq(name, "Target ↓") {
        "Target ↓ [temp]"
    }     else if str_eq(name, "Target ↓↓") {
        "Target ↓↓ [temp]"
    }     else if str_eq(name, "Tree of Demise") {
        "Tree of Demise [temp]"
    }     else if str_eq(name, "Tree of Life") {
        "Tree of Life [temp]"
    }     else if str_eq(name, "Waterblight") {
        "Waterblight [temp]"
    }     else if str_eq(name, "Water Immune") {
        "Water Immune [temp]"
    }     else if str_eq(name, "Water Sigil") {
        "Water Sigil [temp]"
    }     else if str_eq(name, "Windblight") {
        "Windblight [temp]"
    }     else if str_eq(name, "Windswept") {
        "Windswept [temp]"
    } else {
        name
    }
}

/// The name a guide entry is known by in the game: `name` without a `[...]` note
/// and the character before it.
pub open spec fn spec_sanitize_guide_name(name: Seq<char>) -> Seq<char> {
    match find_char(name, '[') {
        Some(p) => name.subrange(0, p - 1),
        None => name,
    }
}

/// Cutting the note out of `name` does not panic: a `[` has a one-byte character
/// before it.
pub open spec fn sanitize_ok(name: Seq<char>) -> bool {
    find_char(name, '[') matches Some(p) ==> p > 0 && crate::text::is_ascii_char(name[p - 1])
}

/// A search for `[` from `i` that finds none shows that no `[` stands at or after `i`.
proof fn lemma_find_char_none(n: Seq<char>, i: int, j: int)
    requires
        0 <= i <= j < n.len(),
        crate::text::find_char_from(n, '[', i) is None,
    ensures
        n[j] != '[',
    decreases j - i,
{
    if i < j {
        lemma_find_char_none(n, i + 1, j);
    }
}

/// Cutting the note out of a name with a note ` [<note>]` gives the name back, for
/// every name without `[`; so the effects the guide keeps with a ` [temp]` or
/// ` [Magical]` note are found again under their codex names.
pub proof fn law_sanitize_note(n: Seq<char>, note: Seq<char>)
    requires
        find_char(n, '[') is None,
    ensures
        spec_sanitize_guide_name(n + seq![' ', '['] + note + seq![']']) == n,
        guide_effect_name(n) != "Call of "@ + n ==> spec_sanitize_guide_name(guide_effect_name(n)) == n,
{
    lemma_sanitize_note_of(n, note);
    law_guide_effect_renames(n);
    reveal_strlit(" [temp]");
    reveal_strlit(" [Magical]");
    reveal_strlit("temp");
    reveal_strlit("Magical");
    assert(n + " [temp]"@ =~= n + seq![' ', '['] + "temp"@ + seq![']']);
    assert(n + " [Magical]"@ =~= n + seq![' ', '['] + "Magical"@ + seq![']']);
    lemma_sanitize_note_of(n, "temp"@);
    lemma_sanitize_note_of(n, "Magical"@);
    if spec_guide_effect_name(n) is None {
        assert(guide_effect_name(n) == n);
    }
}

/// [`law_sanitize_note`] for one note.
proof fn lemma_sanitize_note_of(n: Seq<char>, note: Seq<char>)
    requires
        find_char(n, '[') is None,
    ensures
        spec_sanitize_guide_name(n + seq![' ', '['] + note + seq![']']) == n,
{
    let s = n + seq![' ', '['] + note + seq![']'];
    assert(s[n.len() as int + 1] == '[');
    assert forall|j: int| 0 <= j < n.len() + 1 implies s[j] != '[' by {
        if j < n.len() {
            assert(s[j] == n[j]);
            lemma_find_char_none(n, 0, j);
        }
    }
    crate::text::lemma_find_char_first(s, '[', 0, n.len() as int + 1);
    assert(s.subrange(0, n.len() as int) =~= n);
}

/// Remove any added text that may appear in the guide for a name, but not in the game or the
/// codex.
pub fn sanitize_guide_name(name: &str) -> (r: &str)
    requires
        sanitize_ok(name@),
    ensures
        r@ == spec_sanitize_guide_name(name@),
{
    match find_char_index(name, '[') {
        Some(pos) => name.substring_char(0, pos - 1),
        None => name,
    }
}

/// The id of the first status effect named `name`, or that name when there is none.
pub open spec fn spec_effect_id(effects: Seq<StatusEffect>, name: Seq<char>) -> Result<u32, Seq<char>> {
    match crate::lookup::first_match(effect_names(effects), name) {
        Some(i) => Ok(effects[i].id),
        None => Err(name),
    }
}

/// The names of `effects`, in order.
pub open spec fn effect_names(effects: Seq<StatusEffect>) -> Seq<Seq<char>> {
    effects.map_values(|e: StatusEffect| e.name@)
}

/// The guide id of the effect the codex names `name`.
fn effect_id(name: &str, effects: &Vec<StatusEffect>) -> (r: Result<u32, String>)
    ensures
        match spec_effect_id(effects@, guide_effect_name(name@)) {
            Ok(id) => r == Ok::<u32, String>(id),
            Err(n) => r matches Err(s) && s@ == n,
        },
{
    let g = codex_effect_name_to_guide_name(name);
    let ghost keys = effect_names(effects@);
    let mut i: usize = 0;
    while i < effects.len()
        invariant
            keys == effect_names(effects@),
            g@ == guide_effect_name(name@),
            i <= effects@.len(),
            crate::lookup::first_match(keys, g@) == crate::lookup::first_match_from(
                keys,
                g@,
                i as int,
            ),
        decreases effects.len() - i,
    {
        if str_eq(effects[i].name.as_str(), g) {
            return Ok(effects[i].id);
        }
        i = i + 1;
    }
    Err(crate::text::to_owned(g))
}

/// Convert a list of codex effects to a list of result of guide effect id.
/// On the right side of `Result` is the name of the effect if it wasn't found.
pub fn codex_effect_name_iter_to_guide_id_results(
    names: &Vec<String>,
    status_effects: &Vec<StatusEffect>,
) -> (r: Vec<Result<u32, String>>)
    ensures
        r@.len() == names@.len(),
        forall|i: int|
            0 <= i < names@.len() ==> match spec_effect_id(
                status_effects@,
                guide_effect_name(#[trigger] names@[i]@),
            ) {
                Ok(id) => r@[i] == Ok::<u32, String>(id),
                Err(n) => r@[i] matches Err(s) && s@ == n,
            },
{
    let mut r: Vec<Result<u32, String>> = Vec::new();
    let mut i: usize = 0;
    while i < names.len()
        invariant
            i <= names@.len(),
            r@.len() == i,
            forall|j: int|
                0 <= j < i ==> match spec_effect_id(
                    status_effects@,
                    guide_effect_name(#[trigger] names@[j]@),
                ) {
                    Ok(id) => r@[j] == Ok::<u32, String>(id),
                    Err(n) => r@[j] matches Err(s) && s@ == n,
                },
        decreases names.len() - i,
    {
        let x = effect_id(names[i].as_str(), status_effects);
        r.push(x);
        i = i + 1;
    }
    r
}

/// The ids an error of a partial conversion holds: those that were found.
pub open spec fn partial_found(e: Error) -> Option<Vec<u32>> {
    match e.kind {
        Kind::PartialCodexStatusEffectsConversion(found, _) => Some(found),
        Kind::PartialCodexSkillsConversion(found, _) => Some(found),
        Kind::PartialCodexItemDroppedBysConversion(found, _) => Some(found),
        Kind::PartialCodexItemUpgradeMaterialsConversion(found, _) => Some(found),
        Kind::PartialCodexFollowerAbilitiesConversion(found, _) => Some(found),
        Kind::PartialCodexMonsterAbilitiesConversion(found, _) => Some(found),
        Kind::PartialCodexEventsConversion(found, _) => Some(found),
        _ => None,
    }
}

/// A trait to extend `Result<Vec<u32>, Error>`, when it comes from an attempt to convert an array
/// of elements to an array of guide ids.
pub trait VecIdConversionResult: Sized {
    /// If the conversion errored because some or all elements could not be converted, return an
    /// `Ok` with the elements that could be converted.
    /// If all elements failed to be converted, return an `Ok(Vec::new())`.
    fn ignore_failed_id_conversions(self) -> Self;
}

impl VecIdConversionResult for Result<Vec<u32>, Error> {
    fn ignore_failed_id_conversions(self) -> (r: Self)
        ensures
            match self {
                Err(e) => match partial_found(e) {
                    Some(found) => r == Ok::<Vec<u32>, Error>(found),
                    None => r == self,
                },
                Ok(_) => r == self,
            },
    {
        match self {
            Ok(x) => Ok(x),
            Err(e) => match e.kind {
                Kind::PartialCodexStatusEffectsConversion(found, _) => Ok(found),
                Kind::PartialCodexSkillsConversion(found, _) => Ok(found),
                Kind::PartialCodexItemDroppedBysConversion(found, _) => Ok(found),
                Kind::PartialCodexItemUpgradeMaterialsConversion(found, _) => Ok(found),
                Kind::PartialCodexFollowerAbilitiesConversion(found, _) => Ok(found),
                Kind::PartialCodexMonsterAbilitiesConversion(found, _) => Ok(found),
                Kind::PartialCodexEventsConversion(found, _) => Ok(found),
                kind => Err(Error { kind, context: e.context }),
            },
        }
    }
}

/// The guide ids of the effects the codex names `names` that the guide knows, in
/// order.
pub open spec fn names_ids_found(names: Seq<Seq<char>>, guide: Seq<StatusEffect>) -> Seq<u32>
    decreases names.len(),
{
    if names.len() == 0 {
        Seq::empty()
    } else {
        let prev = names_ids_found(names.drop_last(), guide);
        match spec_effect_id(guide, guide_effect_name(names.last())) {
            Ok(id) => prev.push(id),
            Err(_) => prev,
        }
    }
}

/// The guide names of the effects the codex names `names` that the guide does not
/// know, in order.
pub open spec fn names_missing(names: Seq<Seq<char>>, guide: Seq<StatusEffect>) -> Seq<Seq<char>>
    decreases names.len(),
{
    if names.len() == 0 {
        Seq::empty()
    } else {
        let prev = names_missing(names.drop_last(), guide);
        match spec_effect_id(guide, guide_effect_name(names.last())) {
            Ok(_) => prev,
            Err(n) => prev.push(n),
        }
    }
}

/// `r` is the conversion of the effects the codex names `names` to guide ids: all of
/// them when the guide knows them all, or the error that holds those found and the
/// names of the others.
pub open spec fn names_converted(r: Result<Vec<u32>, Error>, names: Seq<Seq<char>>, guide: Seq<StatusEffect>) -> bool {
    let found = names_ids_found(names, guide);
    let missing = names_missing(names, guide);
    match r {
        Ok(ids) => missing.len() == 0 && ids@ == found,
        Err(e) => {
            &&& missing.len() > 0
            &&& e.context@.len() == 0
            &&& e.kind matches Kind::PartialCodexStatusEffectsConversion(f, m)
            &&& f@ == found
            &&& string_views(m@) == missing
        },
    }
}

/// Convert the effects the codex names `names` to guide ids; when some are unknown
/// to the guide, the error holds the ids found and the names of the others.
pub fn codex_names_to_guide_ids(names: &Vec<&str>, status_effects: &Vec<StatusEffect>) -> (r: Result<
    Vec<u32>,
    Error,
>)
    ensures
        names_converted(r, strs_view(names@), status_effects@),
{
    let mut owned: Vec<String> = Vec::new();
    let mut i: usize = 0;
    while i < names.len()
        invariant
            i <= names@.len(),
            owned@.len() == i,
            forall|k: int| 0 <= k < i ==> #[trigger] owned@[k]@ == names@[k]@,
        decreases names.len() - i,
    {
        owned.push(to_owned(names[i]));
        i = i + 1;
    }
    let results = codex_effect_name_iter_to_guide_id_results(&owned, status_effects);
    let ghost nv = strs_view(names@);
    let mut found: Vec<u32> = Vec::new();
    let mut missing: Vec<String> = Vec::new();
    let mut j: usize = 0;
    while j < results.len()
        invariant
            j <= results@.len(),
            results@.len() == owned@.len(),
            owned@.len() == names@.len(),
            nv == strs_view(names@),
            forall|k: int| 0 <= k < names@.len() ==> #[trigger] owned@[k]@ == names@[k]@,
            forall|k: int|
                0 <= k < owned@.len() ==> match spec_effect_id(
                    status_effects@,
                    guide_effect_name(#[trigger] owned@[k]@),
                ) {
                    Ok(id) => results@[k] == Ok::<u32, String>(id),
                    Err(n) => results@[k] matches Err(s) && s@ == n,
                },
            found@ == names_ids_found(nv.take(j as int), status_effects@),
            string_views(missing@) == names_missing(nv.take(j as int), status_effects@),
        decreases results.len() - j,
    {
        proof {
            assert(nv.take(j + 1).drop_last() =~= nv.take(j as int));
            assert(nv.take(j + 1).last() == owned@[j as int]@);
        }
        let ghost prev = missing@;
        match &results[j] {
            Ok(id) => found.push(*id),
            Err(n) => {
                missing.push(to_owned(n.as_str()));
                assert(string_views(missing@) =~= string_views(prev).push(n@));
            },
        }
        j = j + 1;
    }
    assert(nv.take(nv.len() as int) =~= nv);
    if missing.len() == 0 {
        Ok(found)
    } else {
        Err(Error { kind: Kind::PartialCodexStatusEffectsConversion(found, missing), context: Vec::new() })
    }
}

/// The part of `s` after the first `c`, when `s` holds a `c`.
pub open spec fn spec_truncate_until(s: Seq<char>, c: char) -> Option<Seq<char>> {
    match find_char(s, c) {
        Some(p) => Some(s.subrange(p + 1, s.len() as int)),
        None => None,
    }
}

/// Truncate a string until a given char is encountered.
pub fn truncate_str_until(s: &str, c: char) -> (r: Option<&str>)
    requires
        find_char(s@, c) is Some ==> crate::text::is_ascii_char(c),
    ensures
        r is Some <==> spec_truncate_until(s@, c) is Some,
        r matches Some(t) ==> spec_truncate_until(s@, c) == Some(t@),
{
    match find_char_index(s, c) {
        Some(pos) => {
            let n = s.unicode_len();
            Some(s.substring_char(pos + 1, n))
        },
        None => None,
    }
}

} // verus!
