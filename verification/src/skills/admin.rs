//! Skills as the admin view of the guide holds them.
//!
//! The guide's form holds the M1 and M2 of a skill as decimal numbers; the
//! library keeps them as the text of the form, once it has checked that `str::parse::<f32>`
//! accepts it.

use vstd::prelude::*;

use crate::error::{fails_form, float_error, int_error, is_misc, misc, Error, FormFailure, Kind};
use crate::guide::html_form_parser::{fields_view, lemma_fields_view_remove_first, ParsedForm};
use crate::lookup::{
    after_bytes_trimmed, bytes_cut_ok, cut_after_bytes, first_id, first_id_from, first_match, first_match_from,
};
use crate::misc::{sanitize_guide_name, sanitize_ok, spec_sanitize_guide_name};
use crate::monsters::admin::{flag_field, form_u32, id_fields, opt_dec, push_field, push_flag, push_ids};
use crate::num::{
    parse_float, parse_u32, parse_u64, parse_u8, spec_dec, spec_float_ok, spec_parse_float, spec_parse_int,
    unsigned_to_string,
};
use crate::text::{concat2, concat3, str_eq, to_owned};

verus! {

/// A skill fetched from the admin panel.
#[derive(Clone, Debug)]
pub struct AdminSkill {
    /// The CSRF token that was given on the page where the skill was fetched.
    pub csrfmiddlewaretoken: String,
    /// Id of the skill on the guide.
    pub id: u32,
    /// The URI of the skill on the codex.
    /// URI matches `/codex/spells/{slug}/` with the trailing slash.
    pub codex_uri: String,
    /// The name of the skill on the guide.
    pub name: String,
    /// The tier of the skill.
    pub tier: u8,
    /// The id of the type of the skill (Buff, Attack, AoE Debuff, ...).
    /// Defaults to the type the guide calls "TBD".
    pub type_: u32,
    /// Whether the skill is a magic one.
    pub is_magic: bool,
    /// The mana cost of the skill.
    pub mana_cost: u32,
    /// The in-game description of the skill.
    pub description: String,
    /// ID of the element of the skill.
    pub element: Option<u32>,
    /// Whether the skill is an off-hand skill.
    /// Off-hand skills have their own entry, that is distinct from the non-off-hand ones.
    pub offhand: bool,
    /// The gold cost of the skill if it can be bought at the arcanist.
    pub cost: u64,
    /// Whether the skill can be bought at an arcanist.
    pub bought: bool,
    /// M1 of the skill, as the decimal text of the guide's form.
    pub skill_power: String,
    /// Number of times the skill strikes.
    pub strikes: u8,
    /// Min M2 of the skill, as the decimal text of the guide's form.
    pub modifier_min: String,
    /// Max M2 of the skill, as the decimal text of the guide's form.
    pub modifier_max: String,
    /// Handwritten notes from the guide team on the item.
    pub extra: String,
    /// Ids of monsters who buff this skill (if a passive that requires kills).
    pub buffed_by: Vec<u32>,
    /// Ids of status effects the skill inflicts.
    pub causes: Vec<u32>,
    /// Ids of status effects the skill cures.
    pub cures: Vec<u32>,
    /// Ids of status effects the skill gives.
    pub gives: Vec<u32>,
}

/// What an [`AdminSkill`] holds.
pub struct AdminSkillView {
    pub csrfmiddlewaretoken: Seq<char>,
    pub id: u32,
    pub codex_uri: Seq<char>,
    pub name: Seq<char>,
    pub tier: u8,
    pub type_: u32,
    pub is_magic: bool,
    pub mana_cost: u32,
    pub description: Seq<char>,
    pub element: Option<u32>,
    pub offhand: bool,
    pub cost: u64,
    pub bought: bool,
    pub skill_power: Seq<char>,
    pub strikes: u8,
    pub modifier_min: Seq<char>,
    pub modifier_max: Seq<char>,
    pub extra: Seq<char>,
    pub buffed_by: Seq<u32>,
    pub causes: Seq<u32>,
    pub cures: Seq<u32>,
    pub gives: Seq<u32>,
}

impl View for AdminSkill {
    type V = AdminSkillView;

    open spec fn view(&self) -> AdminSkillView {
        AdminSkillView {
            csrfmiddlewaretoken: self.csrfmiddlewaretoken@,
            id: self.id,
            codex_uri: self.codex_uri@,
            name: self.name@,
            tier: self.tier,
            type_: self.type_,
            is_magic: self.is_magic,
            mana_cost: self.mana_cost,
            description: self.description@,
            element: self.element,
            offhand: self.offhand,
            cost: self.cost,
            bought: self.bought,
            skill_power: self.skill_power@,
            strikes: self.strikes,
            modifier_min: self.modifier_min@,
            modifier_max: self.modifier_max@,
            extra: self.extra@,
            buffed_by: self.buffed_by@,
            causes: self.causes@,
            cures: self.cures@,
            gives: self.gives@,
        }
    }
}

/// A skill with the guide's defaults (type "TBD", one strike, an M1 and M2 of 1)
/// and everything else empty, zero or `false`, but its csrf token.
pub open spec fn empty_skill(csrf: Seq<char>) -> AdminSkillView {
    AdminSkillView {
        csrfmiddlewaretoken: csrf,
        id: 0,
        codex_uri: Seq::empty(),
        name: Seq::empty(),
        tier: 0,
        type_: 16,
        is_magic: false,
        mana_cost: 0,
        description: Seq::empty(),
        element: None,
        offhand: false,
        cost: 0,
        bought: false,
        skill_power: "1"@,
        strikes: 1,
        modifier_min: "1"@,
        modifier_max: "1"@,
        extra: Seq::empty(),
        buffed_by: Seq::empty(),
        causes: Seq::empty(),
        cures: Seq::empty(),
        gives: Seq::empty(),
    }
}

impl Default for AdminSkill {
    fn default() -> (r: Self)
        ensures
            r@ == empty_skill(Seq::empty()),
    {
        AdminSkill {
            csrfmiddlewaretoken: String::new(),
            id: 0,
            codex_uri: String::new(),
            name: String::new(),
            tier: 0,
            type_: 16,
            is_magic: false,
            mana_cost: 0,
            description: String::new(),
            element: None,
            offhand: false,
            cost: 0,
            bought: false,
            skill_power: to_owned("1"),
            strikes: 1,
            modifier_min: to_owned("1"),
            modifier_max: to_owned("1"),
            extra: String::new(),
            buffed_by: Vec::new(),
            causes: Vec::new(),
            cures: Vec::new(),
            gives: Vec::new(),
        }
    }
}

/// The skill after reading one field of the admin form.
pub open spec fn skill_field(v: AdminSkillView, key: Seq<char>, value: Seq<char>) -> Result<AdminSkillView, FormFailure> {
    if key == "codex"@ {
        Ok(AdminSkillView { codex_uri: value, ..v })
    } else if key == "name"@ {
        Ok(AdminSkillView { name: value, ..v })
    } else if key == "tier"@ {
        match spec_parse_int(value, 0, 255) {
            Ok(x) => Ok(AdminSkillView { tier: x as u8, ..v }),
            Err(e) => Err(FormFailure::Int(e)),
        }
    } else if key == "type"@ {
        match spec_parse_int(value, 0, 0xffff_ffff) {
            Ok(x) => Ok(AdminSkillView { type_: x as u32, ..v }),
            Err(e) => Err(FormFailure::Int(e)),
        }
    } else if key == "is_magic"@ {
        Ok(AdminSkillView { is_magic: value == "on"@, ..v })
    } else if key == "mana_cost"@ {
        match spec_parse_int(value, 0, 0xffff_ffff) {
            Ok(x) => Ok(AdminSkillView { mana_cost: x as u32, ..v }),
            Err(e) => Err(FormFailure::Int(e)),
        }
    } else if key == "description"@ {
        Ok(AdminSkillView { description: value, ..v })
    } else if key == "element"@ {
        if value.len() == 0 {
            Ok(AdminSkillView { element: None, ..v })
        } else {
            match form_u32(value) {
                Ok(x) => Ok(AdminSkillView { element: Some(x), ..v }),
                Err(e) => Err(e),
            }
        }
    } else if key == "offhand"@ {
        Ok(AdminSkillView { offhand: value == "on"@, ..v })
    } else if key == "cost"@ {
        match spec_parse_int(value, 0, 0xffff_ffff_ffff_ffff) {
            Ok(x) => Ok(AdminSkillView { cost: x as u64, ..v }),
            Err(e) => Err(FormFailure::Int(e)),
        }
    } else if key == "bought"@ {
        Ok(AdminSkillView { bought: value == "on"@, ..v })
    } else if key == "skill_power"@ {
        match spec_parse_float(value) {
            Ok(_) => Ok(AdminSkillView { skill_power: value, ..v }),
            Err(e) => Err(FormFailure::Float(e)),
        }
    } else if key == "strikes"@ {
        match spec_parse_int(value, 0, 255) {
            Ok(x) => Ok(AdminSkillView { strikes: x as u8, ..v }),
            Err(e) => Err(FormFailure::Int(e)),
        }
    } else if key == "modifier_min"@ {
        match spec_parse_float(value) {
            Ok(_) => Ok(AdminSkillView { modifier_min: value, ..v }),
            Err(e) => Err(FormFailure::Float(e)),
        }
    } else if key == "modifier_max"@ {
        match spec_parse_float(value) {
            Ok(_) => Ok(AdminSkillView { modifier_max: value, ..v }),
            Err(e) => Err(FormFailure::Float(e)),
        }
    } else if key == "extra"@ {
        Ok(AdminSkillView { extra: value, ..v })
    } else if key == "buffed_by"@ {
        match form_u32(value) {
            Ok(x) => Ok(AdminSkillView { buffed_by: v.buffed_by.push(x), ..v }),
            Err(e) => Err(e),
        }
    } else if key == "causes"@ {
        match form_u32(value) {
            Ok(x) => Ok(AdminSkillView { causes: v.causes.push(x), ..v }),
            Err(e) => Err(e),
        }
    } else if key == "cures"@ {
        match form_u32(value) {
            Ok(x) => Ok(AdminSkillView { cures: v.cures.push(x), ..v }),
            Err(e) => Err(e),
        }
    } else if key == "gives"@ {
        match form_u32(value) {
            Ok(x) => Ok(AdminSkillView { gives: v.gives.push(x), ..v }),
            Err(e) => Err(e),
        }
    } else {
        Err(FormFailure::Extra(key, value))
    }
}

/// The skill after reading the fields of the admin form from index `i` on.
pub open spec fn skill_form(v: AdminSkillView, fields: Seq<(Seq<char>, Seq<char>)>, i: int) -> Result<AdminSkillView, FormFailure>
    decreases fields.len() - i,
{
    if i < 0 || i >= fields.len() {
        Ok(v)
    } else {
        match skill_field(v, fields[i].0, fields[i].1) {
            Ok(w) => skill_form(w, fields, i + 1),
            Err(e) => Err(e),
        }
    }
}

/// The fields of the admin form of a skill, in the order the guide expects them.
pub open spec fn skill_form_fields(v: AdminSkillView) -> Seq<(Seq<char>, Seq<char>)> {
    seq![("name"@, v.name)]
        + seq![("codex"@, v.codex_uri)]
        + seq![("tier"@, spec_dec(v.tier as nat))]
        + seq![("type"@, spec_dec(v.type_ as nat))]
        + flag_field("is_magic"@, v.is_magic)
        + seq![("mana_cost"@, spec_dec(v.mana_cost as nat))]
        + seq![("description"@, v.description)]
        + seq![("element"@, opt_dec(v.element))]
        + flag_field("offhand"@, v.offhand)
        + seq![("cost"@, spec_dec(v.cost as nat))]
        + flag_field("bought"@, v.bought)
        + seq![("skill_power"@, v.skill_power)]
        + seq![("strikes"@, spec_dec(v.strikes as nat))]
        + seq![("modifier_min"@, v.modifier_min)]
        + seq![("modifier_max"@, v.modifier_max)]
        + seq![("extra"@, v.extra)]
        + id_fields("causes"@, v.causes)
        + id_fields("cures"@, v.cures)
        + id_fields("gives"@, v.gives)
}

impl AdminSkill {
    /// Read a skill from the fields of its admin form.
    ///
    /// # Errors
    /// Errors when a value cannot be read or a field does not belong to the form.
    pub fn try_from(form: ParsedForm) -> (r: Result<Self, Error>)
        ensures
            match skill_form(empty_skill(form@.1), form@.0, 0) {
                Ok(v) => r matches Ok(x) && x@ == v,
                Err(f) => r matches Err(e) && fails_form(e, f),
            },
    {
        let ghost all = form@.0;
        let mut item = AdminSkill::default();
        item.csrfmiddlewaretoken = form.csrfmiddlewaretoken;
        let ghost start = item@;
        let mut rest = form.fields;
        let ghost mut j: int = 0;
        assert(fields_view(rest@).skip(0) =~= all);
        while rest.len() > 0
            invariant
                0 <= j <= all.len(),
                all == form@.0,
                start == empty_skill(form@.1),
                fields_view(rest@) == all.skip(j),
                skill_form(start, all, 0) == skill_form(item@, all, j),
            decreases rest.len(),
        {
            let ghost r0 = rest@;
            let (key, value) = rest.remove(0);
            proof {
                lemma_fields_view_remove_first(r0);
                assert(all.skip(j)[0] == all[j]);
                assert(all.skip(j).skip(1) =~= all.skip(j + 1));
            }
            match item.read_field(key, value) {
                Ok(()) => {},
                Err(e) => {
                    return Err(e);
                },
            }
            proof {
                j = j + 1;
            }
        }
        Ok(item)
    }

    /// Read one field of the admin form into the skill.
    fn read_field(&mut self, key: String, value: String) -> (r: Result<(), Error>)
        ensures
            match skill_field(old(self)@, key@, value@) {
                Ok(v) => r is Ok && final(self)@ == v,
                Err(f) => r matches Err(e) && fails_form(e, f),
            },
    {
        let k = key.as_str();
        if str_eq(k, "codex") {
            self.codex_uri = value;
        } else if str_eq(k, "name") {
            self.name = value;
        } else if str_eq(k, "tier") {
            match parse_u8(value.as_str()) {
                Ok(x) => self.tier = x,
                Err(e) => {
                    return Err(int_error(e));
                },
            }
        } else if str_eq(k, "type") {
            match parse_u32(value.as_str()) {
                Ok(x) => self.type_ = x,
                Err(e) => {
                    return Err(int_error(e));
                },
            }
        } else if str_eq(k, "is_magic") {
            self.is_magic = str_eq(value.as_str(), "on");
        } else if str_eq(k, "mana_cost") {
            match parse_u32(value.as_str()) {
                Ok(x) => self.mana_cost = x,
                Err(e) => {
                    return Err(int_error(e));
                },
            }
        } else if str_eq(k, "description") {
            self.description = value;
        } else if str_eq(k, "element") {
            if value.unicode_len() == 0 {
                self.element = None;
            } else {
                match parse_u32(value.as_str()) {
                    Ok(x) => self.element = Some(x),
                    Err(e) => {
                        return Err(int_error(e));
                    },
                }
            }
        } else if str_eq(k, "offhand") {
            self.offhand = str_eq(value.as_str(), "on");
        } else if str_eq(k, "cost") {
            match parse_u64(value.as_str()) {
                Ok(x) => self.cost = x,
                Err(e) => {
                    return Err(int_error(e));
                },
            }
        } else if str_eq(k, "bought") {
            self.bought = str_eq(value.as_str(), "on");
        } else if str_eq(k, "skill_power") {
            match parse_float(value.as_str()) {
                Ok(()) => self.skill_power = value,
                Err(e) => {
                    return Err(float_error(e));
                },
            }
        } else if str_eq(k, "strikes") {
            match parse_u8(value.as_str()) {
                Ok(x) => self.strikes = x,
                Err(e) => {
                    return Err(int_error(e));
                },
            }
        } else if str_eq(k, "modifier_min") {
            match parse_float(value.as_str()) {
                Ok(()) => self.modifier_min = value,
                Err(e) => {
                    return Err(float_error(e));
                },
            }
        } else if str_eq(k, "modifier_max") {
            match parse_float(value.as_str()) {
                Ok(()) => self.modifier_max = value,
                Err(e) => {
                    return Err(float_error(e));
                },
            }
        } else if str_eq(k, "extra") {
            self.extra = value;
        } else if str_eq(k, "buffed_by") {
            match parse_u32(value.as_str()) {
                Ok(x) => self.buffed_by.push(x),
                Err(e) => {
                    return Err(int_error(e));
                },
            }
        } else if str_eq(k, "causes") {
            match parse_u32(value.as_str()) {
                Ok(x) => self.causes.push(x),
                Err(e) => {
                    return Err(int_error(e));
                },
            }
        } else if str_eq(k, "cures") {
            match parse_u32(value.as_str()) {
                Ok(x) => self.cures.push(x),
                Err(e) => {
                    return Err(int_error(e));
                },
            }
        } else if str_eq(k, "gives") {
            match parse_u32(value.as_str()) {
                Ok(x) => self.gives.push(x),
                Err(e) => {
                    return Err(int_error(e));
                },
            }
        } else {
            return Err(Kind::ExtraField(key, value).into_err());
        }
        Ok(())
    }

    /// The fields of the admin form of the skill, in the order the guide expects them.
    pub fn to_form(self) -> (r: ParsedForm)
        ensures
            r@ == (skill_form_fields(self@), self@.csrfmiddlewaretoken),
    {
        let ghost v = self@;
        let mut fields: Vec<(String, String)> = Vec::new();
        push_field(&mut fields, "name", self.name);
        push_field(&mut fields, "codex", self.codex_uri);
        push_field(&mut fields, "tier", unsigned_to_string(self.tier as u64));
        push_field(&mut fields, "type", unsigned_to_string(self.type_ as u64));
        push_flag(&mut fields, "is_magic", self.is_magic);
        push_field(&mut fields, "mana_cost", unsigned_to_string(self.mana_cost as u64));
        push_field(&mut fields, "description", self.description);
        let element = match self.element {
            Some(x) => unsigned_to_string(x as u64),
            None => String::new(),
        };
        push_field(&mut fields, "element", element);
        push_flag(&mut fields, "offhand", self.offhand);
        push_field(&mut fields, "cost", unsigned_to_string(self.cost as u64));
        push_flag(&mut fields, "bought", self.bought);
        push_field(&mut fields, "skill_power", self.skill_power);
        push_field(&mut fields, "strikes", unsigned_to_string(self.strikes as u64));
        push_field(&mut fields, "modifier_min", self.modifier_min);
        push_field(&mut fields, "modifier_max", self.modifier_max);
        push_field(&mut fields, "extra", self.extra);
        push_ids(&mut fields, "causes", &self.causes);
        push_ids(&mut fields, "cures", &self.cures);
        push_ids(&mut fields, "gives", &self.gives);
        let r = ParsedForm { fields, csrfmiddlewaretoken: self.csrfmiddlewaretoken };
        proof {
            assert(fields_view(r.fields@) =~= skill_form_fields(v));
        }
        r
    }
}

/// The skill with `ids` appended to the list the form field `key` fills.
pub open spec fn append_skill_ids(w: AdminSkillView, key: Seq<char>, ids: Seq<u32>) -> AdminSkillView {
    if key == "buffed_by"@ {
        AdminSkillView { buffed_by: w.buffed_by + ids, ..w }
    } else if key == "causes"@ {
        AdminSkillView { causes: w.causes + ids, ..w }
    } else if key == "cures"@ {
        AdminSkillView { cures: w.cures + ids, ..w }
    } else if key == "gives"@ {
        AdminSkillView { gives: w.gives + ids, ..w }
    } else {
        w
    }
}

/// The fields of the skill form whose values are lists of ids.
pub open spec fn is_skill_list_key(key: Seq<char>) -> bool {
    key == "buffed_by"@
        || key == "causes"@
        || key == "cures"@
        || key == "gives"@
}

/// The lengths and a few letters of the names of the fields of the skill form,
/// enough to tell each name from the others.
proof fn lemma_skill_keys()
    ensures
        "codex"@.len() == 5,
        "codex"@[0] == 'c',
        "codex"@[1] == 'o',
        "name"@.len() == 4,
        "name"@[0] == 'n',
        "name"@[1] == 'a',
        "tier"@.len() == 4,
        "tier"@[0] == 't',
        "tier"@[1] == 'i',
        "type"@.len() == 4,
        "type"@[0] == 't',
        "type"@[1] == 'y',
        "is_magic"@.len() == 8,
        "is_magic"@[0] == 'i',
        "is_magic"@[1] == 's',
        "mana_cost"@.len() == 9,
        "mana_cost"@[0] == 'm',
        "mana_cost"@[1] == 'a',
        "description"@.len() == 11,
        "description"@[0] == 'd',
        "description"@[1] == 'e',
        "element"@.len() == 7,
        "element"@[0] == 'e',
        "element"@[1] == 'l',
        "offhand"@.len() == 7,
        "offhand"@[0] == 'o',
        "offhand"@[1] == 'f',
        "cost"@.len() == 4,
        "cost"@[0] == 'c',
        "cost"@[1] == 'o',
        "bought"@.len() == 6,
        "bought"@[0] == 'b',
        "bought"@[1] == 'o',
        "skill_power"@.len() == 11,
        "skill_power"@[0] == 's',
        "skill_power"@[1] == 'k',
        "strikes"@.len() == 7,
        "strikes"@[0] == 's',
        "strikes"@[1] == 't',
        "modifier_min"@.len() == 12,
        "modifier_min"@[0] == 'm',
        "modifier_min"@[1] == 'o',
        "modifier_min"@[10] == 'i',
        "modifier_max"@.len() == 12,
        "modifier_max"@[0] == 'm',
        "modifier_max"@[1] == 'o',
        "modifier_max"@[10] == 'a',
        "extra"@.len() == 5,
        "extra"@[0] == 'e',
        "extra"@[1] == 'x',
        "buffed_by"@.len() == 9,
        "buffed_by"@[0] == 'b',
        "buffed_by"@[1] == 'u',
        "causes"@.len() == 6,
        "causes"@[0] == 'c',
        "causes"@[1] == 'a',
        "cures"@.len() == 5,
        "cures"@[0] == 'c',
        "cures"@[1] == 'u',
        "gives"@.len() == 5,
        "gives"@[0] == 'g',
        "gives"@[1] == 'i',
{
    reveal_strlit("codex");
    reveal_strlit("name");
    reveal_strlit("tier");
    reveal_strlit("type");
    reveal_strlit("is_magic");
    reveal_strlit("mana_cost");
    reveal_strlit("description");
    reveal_strlit("element");
    reveal_strlit("offhand");
    reveal_strlit("cost");
    reveal_strlit("bought");
    reveal_strlit("skill_power");
    reveal_strlit("strikes");
    reveal_strlit("modifier_min");
    reveal_strlit("modifier_max");
    reveal_strlit("extra");
    reveal_strlit("buffed_by");
    reveal_strlit("causes");
    reveal_strlit("cures");
    reveal_strlit("gives");
}

/// Reading the fields `b` after the fields `a` reads `a`, then `b`.
proof fn lemma_skill_form_shift(w: AdminSkillView, a: Seq<(Seq<char>, Seq<char>)>, b: Seq<(Seq<char>, Seq<char>)>, j: int)
    requires
        0 <= j <= b.len(),
    ensures
        skill_form(w, a + b, a.len() + j) == skill_form(w, b, j),
    decreases b.len() - j,
{
    if j < b.len() {
        assert((a + b)[a.len() + j] == b[j]);
        match skill_field(w, b[j].0, b[j].1) {
            Ok(x) => lemma_skill_form_shift(x, a, b, j + 1),
            Err(_) => {},
        }
    }
}

/// Reading the fields of `a + b` from index `i` of `a` on.
proof fn lemma_skill_form_concat_from(w: AdminSkillView, a: Seq<(Seq<char>, Seq<char>)>, b: Seq<(Seq<char>, Seq<char>)>, i: int)
    requires
        0 <= i <= a.len(),
    ensures
        skill_form(w, a + b, i) == match skill_form(w, a, i) {
            Ok(x) => skill_form(x, b, 0),
            Err(e) => Err(e),
        },
    decreases a.len() - i,
{
    if i == a.len() {
        lemma_skill_form_shift(w, a, b, 0);
    } else {
        assert((a + b)[i] == a[i]);
        match skill_field(w, a[i].0, a[i].1) {
            Ok(x) => lemma_skill_form_concat_from(x, a, b, i + 1),
            Err(_) => {},
        }
    }
}

/// Reading the fields of `a + b` reads those of `a`, then those of `b`.
proof fn lemma_skill_form_concat(w: AdminSkillView, a: Seq<(Seq<char>, Seq<char>)>, b: Seq<(Seq<char>, Seq<char>)>)
    ensures
        skill_form(w, a + b, 0) == match skill_form(w, a, 0) {
            Ok(x) => skill_form(x, b, 0),
            Err(e) => Err(e),
        },
{
    lemma_skill_form_concat_from(w, a, b, 0);
}

/// Reading a form of one field reads that field.
proof fn lemma_skill_form_one(w: AdminSkillView, key: Seq<char>, value: Seq<char>)
    ensures
        skill_form(w, seq![(key, value)], 0) == skill_field(w, key, value),
{
    match skill_field(w, key, value) {
        Ok(x) => assert(skill_form(x, seq![(key, value)], 1) == Ok::<AdminSkillView, FormFailure>(x)),
        Err(_) => {},
    }
}

/// Reading the id fields of a list appends the ids to that list.
proof fn lemma_skill_form_ids(w: AdminSkillView, key: Seq<char>, ids: Seq<u32>)
    requires
        is_skill_list_key(key),
    ensures
        skill_form(w, id_fields(key, ids), 0) == Ok::<AdminSkillView, FormFailure>(append_skill_ids(w, key, ids)),
    decreases ids.len(),
{
    lemma_skill_keys();
    if ids.len() == 0 {
        assert(id_fields(key, ids) =~= Seq::<(Seq<char>, Seq<char>)>::empty());
        assert(append_skill_ids(w, key, ids) == w) by {
            assert(w.buffed_by + ids =~= w.buffed_by);
            assert(w.causes + ids =~= w.causes);
            assert(w.cures + ids =~= w.cures);
            assert(w.gives + ids =~= w.gives);
        }
    } else {
        let front = ids.drop_last();
        let x = ids.last();
        assert(id_fields(key, ids) =~= id_fields(key, front) + seq![(key, spec_dec(x as nat))]);
        lemma_skill_form_ids(w, key, front);
        lemma_skill_form_concat(w, id_fields(key, front), seq![(key, spec_dec(x as nat))]);
        lemma_skill_form_one(append_skill_ids(w, key, front), key, spec_dec(x as nat));
        crate::num::lemma_parse_dec(x as nat, 0xffff_ffff);
        assert(form_u32(spec_dec(x as nat)) == Ok::<u32, FormFailure>(x));
        if key == "buffed_by"@ {
            assert((w.buffed_by + front).push(x) =~= w.buffed_by + ids);
        } else if key == "causes"@ {
            assert((w.causes + front).push(x) =~= w.causes + ids);
        } else if key == "cures"@ {
            assert((w.cures + front).push(x) =~= w.cures + ids);
        } else if key == "gives"@ {
            assert((w.gives + front).push(x) =~= w.gives + ids);
        }
    }
}

/// Writing a skill into its admin form and reading the form back gives the skill
/// again, but for its id, which the form does not hold: for a skill whose M1 and M2 are
/// decimal numbers, and that no monster buffs (the form does not hold those).
pub proof fn law_skill_form_roundtrip(v: AdminSkillView)
    requires
        v.buffed_by.len() == 0,
        spec_float_ok(v.skill_power),
        spec_float_ok(v.modifier_min),
        spec_float_ok(v.modifier_max),
    ensures
        skill_form(empty_skill(v.csrfmiddlewaretoken), skill_form_fields(v), 0) == Ok::<AdminSkillView, FormFailure>(
            AdminSkillView { id: 0, ..v },
        ),
{
    lemma_skill_keys();
    reveal_strlit("on");
    let w0 = empty_skill(v.csrfmiddlewaretoken);
    let s1 = AdminSkillView { name: v.name, ..w0 };
    assert(skill_form(w0, seq![("name"@, v.name)], 0) == Ok::<AdminSkillView, FormFailure>(s1)) by {
        lemma_skill_form_one(w0, "name"@, v.name);
    }
    let q0 = seq![("name"@, v.name)];
    let s2 = AdminSkillView { codex_uri: v.codex_uri, ..s1 };
    assert(skill_form(s1, seq![("codex"@, v.codex_uri)], 0) == Ok::<AdminSkillView, FormFailure>(s2)) by {
        lemma_skill_form_one(s1, "codex"@, v.codex_uri);
    }
    let q1 = q0 + seq![("codex"@, v.codex_uri)];
    lemma_skill_form_concat(w0, q0, seq![("codex"@, v.codex_uri)]);
    let s3 = AdminSkillView { tier: v.tier, ..s2 };
    assert(skill_form(s2, seq![("tier"@, spec_dec(v.tier as nat))], 0) == Ok::<AdminSkillView, FormFailure>(s3)) by {
        crate::num::lemma_parse_dec(v.tier as nat, 255);
        lemma_skill_form_one(s2, "tier"@, spec_dec(v.tier as nat));
    }
    let q2 = q1 + seq![("tier"@, spec_dec(v.tier as nat))];
    lemma_skill_form_concat(w0, q1, seq![("tier"@, spec_dec(v.tier as nat))]);
    let s4 = AdminSkillView { type_: v.type_, ..s3 };
    assert(skill_form(s3, seq![("type"@, spec_dec(v.type_ as nat))], 0) == Ok::<AdminSkillView, FormFailure>(s4)) by {
        crate::num::lemma_parse_dec(v.type_ as nat, 0xffff_ffff);
        lemma_skill_form_one(s3, "type"@, spec_dec(v.type_ as nat));
    }
    let q3 = q2 + seq![("type"@, spec_dec(v.type_ as nat))];
    lemma_skill_form_concat(w0, q2, seq![("type"@, spec_dec(v.type_ as nat))]);
    let s5 = AdminSkillView { is_magic: v.is_magic, ..s4 };
    assert(skill_form(s4, flag_field("is_magic"@, v.is_magic), 0) == Ok::<AdminSkillView, FormFailure>(s5)) by {
        reveal(flag_field);
        if v.is_magic {
            lemma_skill_form_one(s4, "is_magic"@, "on"@);
        } else {
            assert(flag_field("is_magic"@, v.is_magic) =~= Seq::<(Seq<char>, Seq<char>)>::empty());
            assert(s5 == s4);
        }
    }
    let q4 = q3 + flag_field("is_magic"@, v.is_magic);
    lemma_skill_form_concat(w0, q3, flag_field("is_magic"@, v.is_magic));
    let s6 = AdminSkillView { mana_cost: v.mana_cost, ..s5 };
    assert(skill_form(s5, seq![("mana_cost"@, spec_dec(v.mana_cost as nat))], 0) == Ok::<AdminSkillView, FormFailure>(s6)) by {
        crate::num::lemma_parse_dec(v.mana_cost as nat, 0xffff_ffff);
        lemma_skill_form_one(s5, "mana_cost"@, spec_dec(v.mana_cost as nat));
    }
    let q5 = q4 + seq![("mana_cost"@, spec_dec(v.mana_cost as nat))];
    lemma_skill_form_concat(w0, q4, seq![("mana_cost"@, spec_dec(v.mana_cost as nat))]);
    let s7 = AdminSkillView { description: v.description, ..s6 };
    assert(skill_form(s6, seq![("description"@, v.description)], 0) == Ok::<AdminSkillView, FormFailure>(s7)) by {
        lemma_skill_form_one(s6, "description"@, v.description);
    }
    let q6 = q5 + seq![("description"@, v.description)];
    lemma_skill_form_concat(w0, q5, seq![("description"@, v.description)]);
    let s8 = AdminSkillView { element: v.element, ..s7 };
    assert(skill_form(s7, seq![("element"@, opt_dec(v.element))], 0) == Ok::<AdminSkillView, FormFailure>(s8)) by {
        if let Some(x) = v.element {
            crate::num::lemma_parse_dec(x as nat, 0xffff_ffff);
            crate::num::lemma_dec_nonempty(x as nat);
        }
        lemma_skill_form_one(s7, "element"@, opt_dec(v.element));
    }
    let q7 = q6 + seq![("element"@, opt_dec(v.element))];
    lemma_skill_form_concat(w0, q6, seq![("element"@, opt_dec(v.element))]);
    let s9 = AdminSkillView { offhand: v.offhand, ..s8 };
    assert(skill_form(s8, flag_field("offhand"@, v.offhand), 0) == Ok::<AdminSkillView, FormFailure>(s9)) by {
        reveal(flag_field);
        if v.offhand {
            lemma_skill_form_one(s8, "offhand"@, "on"@);
        } else {
            assert(flag_field("offhand"@, v.offhand) =~= Seq::<(Seq<char>, Seq<char>)>::empty());
            assert(s9 == s8);
        }
    }
    let q8 = q7 + flag_field("offhand"@, v.offhand);
    lemma_skill_form_concat(w0, q7, flag_field("offhand"@, v.offhand));
    let s10 = AdminSkillView { cost: v.cost, ..s9 };
    assert(skill_form(s9, seq![("cost"@, spec_dec(v.cost as nat))], 0) == Ok::<AdminSkillView, FormFailure>(s10)) by {
        crate::num::lemma_parse_dec(v.cost as nat, 0xffff_ffff_ffff_ffff);
        lemma_skill_form_one(s9, "cost"@, spec_dec(v.cost as nat));
    }
    let q9 = q8 + seq![("cost"@, spec_dec(v.cost as nat))];
    lemma_skill_form_concat(w0, q8, seq![("cost"@, spec_dec(v.cost as nat))]);
    let s11 = AdminSkillView { bought: v.bought, ..s10 };
    assert(skill_form(s10, flag_field("bought"@, v.bought), 0) == Ok::<AdminSkillView, FormFailure>(s11)) by {
        reveal(flag_field);
        if v.bought {
            lemma_skill_form_one(s10, "bought"@, "on"@);
        } else {
            assert(flag_field("bought"@, v.bought) =~= Seq::<(Seq<char>, Seq<char>)>::empty());
            assert(s11 == s10);
        }
    }
    let q10 = q9 + flag_field("bought"@, v.bought);
    lemma_skill_form_concat(w0, q9, flag_field("bought"@, v.bought));
    let s12 = AdminSkillView { skill_power: v.skill_power, ..s11 };
    assert(skill_form(s11, seq![("skill_power"@, v.skill_power)], 0) == Ok::<AdminSkillView, FormFailure>(s12)) by {
        crate::num::lemma_float_ok_nonempty(v.skill_power);
        lemma_skill_form_one(s11, "skill_power"@, v.skill_power);
    }
    let q11 = q10 + seq![("skill_power"@, v.skill_power)];
    lemma_skill_form_concat(w0, q10, seq![("skill_power"@, v.skill_power)]);
    let s13 = AdminSkillView { strikes: v.strikes, ..s12 };
    assert(skill_form(s12, seq![("strikes"@, spec_dec(v.strikes as nat))], 0) == Ok::<AdminSkillView, FormFailure>(s13)) by {
        crate::num::lemma_parse_dec(v.strikes as nat, 255);
        lemma_skill_form_one(s12, "strikes"@, spec_dec(v.strikes as nat));
    }
    let q12 = q11 + seq![("strikes"@, spec_dec(v.strikes as nat))];
    lemma_skill_form_concat(w0, q11, seq![("strikes"@, spec_dec(v.strikes as nat))]);
    let s14 = AdminSkillView { modifier_min: v.modifier_min, ..s13 };
    assert(skill_form(s13, seq![("modifier_min"@, v.modifier_min)], 0) == Ok::<AdminSkillView, FormFailure>(s14)) by {
        crate::num::lemma_float_ok_nonempty(v.modifier_min);
        lemma_skill_form_one(s13, "modifier_min"@, v.modifier_min);
    }
    let q13 = q12 + seq![("modifier_min"@, v.modifier_min)];
    lemma_skill_form_concat(w0, q12, seq![("modifier_min"@, v.modifier_min)]);
    let s15 = AdminSkillView { modifier_max: v.modifier_max, ..s14 };
    assert(skill_form(s14, seq![("modifier_max"@, v.modifier_max)], 0) == Ok::<AdminSkillView, FormFailure>(s15)) by {
        crate::num::lemma_float_ok_nonempty(v.modifier_max);
        lemma_skill_form_one(s14, "modifier_max"@, v.modifier_max);
    }
    let q14 = q13 + seq![("modifier_max"@, v.modifier_max)];
    lemma_skill_form_concat(w0, q13, seq![("modifier_max"@, v.modifier_max)]);
    let s16 = AdminSkillView { extra: v.extra, ..s15 };
    assert(skill_form(s15, seq![("extra"@, v.extra)], 0) == Ok::<AdminSkillView, FormFailure>(s16)) by {
        lemma_skill_form_one(s15, "extra"@, v.extra);
    }
    let q15 = q14 + seq![("extra"@, v.extra)];
    lemma_skill_form_concat(w0, q14, seq![("extra"@, v.extra)]);
    let s17 = append_skill_ids(s16, "causes"@, v.causes);
    lemma_skill_form_ids(s16, "causes"@, v.causes);
    let q16 = q15 + id_fields("causes"@, v.causes);
    lemma_skill_form_concat(w0, q15, id_fields("causes"@, v.causes));
    let s18 = append_skill_ids(s17, "cures"@, v.cures);
    lemma_skill_form_ids(s17, "cures"@, v.cures);
    let q17 = q16 + id_fields("cures"@, v.cures);
    lemma_skill_form_concat(w0, q16, id_fields("cures"@, v.cures));
    let s19 = append_skill_ids(s18, "gives"@, v.gives);
    lemma_skill_form_ids(s18, "gives"@, v.gives);
    let q18 = q17 + id_fields("gives"@, v.gives);
    lemma_skill_form_concat(w0, q17, id_fields("gives"@, v.gives));
    assert(skill_form_fields(v) == q18);
    assert(s19 == AdminSkillView { id: 0, ..v }) by {
        assert(Seq::<u32>::empty() + v.buffed_by =~= v.buffed_by);
        assert(Seq::<u32>::empty() + v.causes =~= v.causes);
        assert(Seq::<u32>::empty() + v.cures =~= v.cures);
        assert(Seq::<u32>::empty() + v.gives =~= v.gives);
    }
}

impl From<AdminSkill> for ParsedForm {
    fn from(item: AdminSkill) -> (r: ParsedForm)
        ensures
            r@ == (skill_form_fields(item@), item@.csrfmiddlewaretoken),
    {
        item.to_form()
    }
}

impl vstd::std_specs::convert::FromSpecImpl<AdminSkill> for ParsedForm {
    open spec fn obeys_from_spec() -> bool {
        false
    }

    open spec fn from_spec(v: AdminSkill) -> ParsedForm {
        vstd::pervasive::arbitrary()
    }
}

/// The ids of `v`, in order.
pub open spec fn skill_ids(v: Seq<AdminSkill>) -> Seq<u32> {
    v.map_values(|s: AdminSkill| s.id)
}

/// The codex uris of `v`, in order.
pub open spec fn skill_uris(v: Seq<AdminSkill>) -> Seq<Seq<char>> {
    v.map_values(|s: AdminSkill| s.codex_uri@)
}

/// The first skill of `v` with the id `id`.
pub open spec fn find_admin_skill(v: Seq<AdminSkill>, id: u32) -> Option<AdminSkill> {
    match first_id(skill_ids(v), id) {
        Some(i) => Some(v[i]),
        None => None,
    }
}

/// The first skill of `v` with the codex uri `uri`.
pub open spec fn find_admin_skill_by_uri(v: Seq<AdminSkill>, uri: Seq<char>) -> Option<AdminSkill> {
    match first_match(skill_uris(v), uri) {
        Some(i) => Some(v[i]),
        None => None,
    }
}

/// Cutting `/codex/spells/` (14 bytes) out of the codex uri of `s` does not panic,
/// when it has one.
pub open spec fn skill_uri_ok(s: AdminSkill) -> bool {
    s.codex_uri@.len() == 0 || bytes_cut_ok(s.codex_uri@, 14)
}

/// The skill has a codex uri, whose slug is `slug`.
pub open spec fn skill_has_slug(s: AdminSkill, slug: Seq<char>) -> bool {
    s.codex_uri@.len() > 0 && after_bytes_trimmed(s.codex_uri@, 14) == slug
}

/// The index of the first skill of `v`, from index `i` on, with the slug `slug`.
pub open spec fn first_skill_with_slug(v: Seq<AdminSkill>, slug: Seq<char>, i: int) -> Option<int>
    decreases v.len() - i,
{
    if i < 0 || i >= v.len() {
        None
    } else if skill_has_slug(v[i], slug) {
        Some(i)
    } else {
        first_skill_with_slug(v, slug, i + 1)
    }
}

/// The skill is an off-hand one whose name, its note cut out, is `name`.
pub open spec fn is_offhand_named(s: AdminSkill, name: Seq<char>) -> bool {
    spec_sanitize_guide_name(s.name@) == name && s.offhand
}

/// The index of the first off-hand skill of `v`, from index `i` on, named `name`.
pub open spec fn first_offhand_named(v: Seq<AdminSkill>, name: Seq<char>, i: int) -> Option<int>
    decreases v.len() - i,
{
    if i < 0 || i >= v.len() {
        None
    } else if is_offhand_named(v[i], name) {
        Some(i)
    } else {
        first_offhand_named(v, name, i + 1)
    }
}

/// Looking for the off-hand skill named `name` from index `i` on does not panic: the
/// name of each skill looked at before the first one found can have its note cut out.
pub open spec fn offhand_search_ok(v: Seq<AdminSkill>, name: Seq<char>, i: int) -> bool
    decreases v.len() - i,
{
    if i < 0 || i >= v.len() {
        true
    } else {
        sanitize_ok(v[i].name@) && (is_offhand_named(v[i], name) || offhand_search_ok(v, name, i + 1))
    }
}

/// Looking for the slug `slug` from index `i` on does not panic: each skill looked at
/// before the first one with the slug can have the prefix of its codex uri cut out.
pub open spec fn skill_slug_search_ok(v: Seq<AdminSkill>, slug: Seq<char>, i: int) -> bool
    decreases v.len() - i,
{
    if i < 0 || i >= v.len() {
        true
    } else {
        skill_uri_ok(v[i]) && (skill_has_slug(v[i], slug) || skill_slug_search_ok(v, slug, i + 1))
    }
}

/// Collection of skills from the guide's admin view.
#[derive(Clone, Default)]
pub struct AdminSkills {
    /// Skills from the guide's admin view.
    pub skills: Vec<AdminSkill>,
}

impl<'a> AdminSkills {
    /// Find the admin skill corresponding to the given id.
    pub fn find_by_id(&'a self, needle: u32) -> (r: Option<&'a AdminSkill>)
        ensures
            match find_admin_skill(self.skills@, needle) {
                Some(s) => r matches Some(x) && *x == s,
                None => r is None,
            },
    {
        let ghost keys = skill_ids(self.skills@);
        let mut i: usize = 0;
        while i < self.skills.len()
            invariant
                keys == skill_ids(self.skills@),
                i <= self.skills@.len(),
                first_id(keys, needle) == first_id_from(keys, needle, i as int),
            decreases self.skills.len() - i,
        {
            if self.skills[i].id == needle {
                return Some(&self.skills[i]);
            }
            i = i + 1;
        }
        None
    }

    /// Find the admin skill corresponding to the given id.
    /// If there is no match, return an `Err`.
    pub fn get_by_id(&'a self, needle: u32) -> (r: Result<&'a AdminSkill, Error>)
        ensures
            match find_admin_skill(self.skills@, needle) {
                Some(s) => r matches Ok(x) && *x == s,
                None => r matches Err(e) && is_misc(
                    e,
                    "No match for admin skill with id #"@ + spec_dec(needle as nat),
                ),
            },
    {
        match self.find_by_id(needle) {
            Some(x) => Ok(x),
            None => Err(
                misc(concat2("No match for admin skill with id #", unsigned_to_string(needle as u64).as_str())),
            ),
        }
    }

    /// Find the admin skill corresponding to the given codex URI.
    pub fn find_by_uri(&'a self, needle: &str) -> (r: Option<&'a AdminSkill>)
        ensures
            match find_admin_skill_by_uri(self.skills@, needle@) {
                Some(s) => r matches Some(x) && *x == s,
                None => r is None,
            },
    {
        let ghost keys = skill_uris(self.skills@);
        let mut i: usize = 0;
        while i < self.skills.len()
            invariant
                keys == skill_uris(self.skills@),
                i <= self.skills@.len(),
                first_match(keys, needle@) == first_match_from(keys, needle@, i as int),
            decreases self.skills.len() - i,
        {
            if str_eq(self.skills[i].codex_uri.as_str(), needle) {
                return Some(&self.skills[i]);
            }
            i = i + 1;
        }
        None
    }

    /// Find the admin skill corresponding to the given codex URI.
    /// If there is no match, return an `Err`.
    pub fn get_by_uri(&'a self, needle: &str) -> (r: Result<&'a AdminSkill, Error>)
        ensures
            match find_admin_skill_by_uri(self.skills@, needle@) {
                Some(s) => r matches Ok(x) && *x == s,
                None => r matches Err(e) && is_misc(e, "No match for admin skill with codex_uri "@ + needle@),
            },
    {
        match self.find_by_uri(needle) {
            Some(x) => Ok(x),
            None => Err(misc(concat2("No match for admin skill with codex_uri ", needle))),
        }
    }

    /// Find the admin skill associated with the given slug.
    pub fn find_by_slug(&'a self, needle: &str) -> (r: Option<&'a AdminSkill>)
        requires
            skill_slug_search_ok(self.skills@, needle@, 0),
        ensures
            match first_skill_with_slug(self.skills@, needle@, 0) {
                Some(i) => r matches Some(x) && *x == self.skills@[i],
                None => r is None,
            },
    {
        let mut i: usize = 0;
        while i < self.skills.len()
            invariant
                i <= self.skills@.len(),
                skill_slug_search_ok(self.skills@, needle@, i as int),
                first_skill_with_slug(self.skills@, needle@, 0) == first_skill_with_slug(
                    self.skills@,
                    needle@,
                    i as int,
                ),
            decreases self.skills.len() - i,
        {
            let uri = self.skills[i].codex_uri.as_str();
            if uri.unicode_len() > 0 {
                if str_eq(cut_after_bytes(uri, 14), needle) {
                    return Some(&self.skills[i]);
                }
            }
            i = i + 1;
        }
        None
    }

    /// Find the admin skill associated with the given slug.
    /// If there is no match, return an `Err`.
    pub fn get_by_slug(&'a self, needle: &str) -> (r: Result<&'a AdminSkill, Error>)
        requires
            skill_slug_search_ok(self.skills@, needle@, 0),
        ensures
            match first_skill_with_slug(self.skills@, needle@, 0) {
                Some(i) => r matches Ok(x) && *x == self.skills@[i],
                None => r matches Err(e) && is_misc(
                    e,
                    "No match for admin skill with codex slug '"@ + needle@ + "'"@,
                ),
            },
    {
        match self.find_by_slug(needle) {
            Some(x) => Ok(x),
            None => Err(misc(concat3("No match for admin skill with codex slug '", needle, "'"))),
        }
    }

    /// Find the admin offhand skill with the given name.
    pub fn find_offhand_from_name(&'a self, needle: &str) -> (r: Option<&'a AdminSkill>)
        requires
            offhand_search_ok(self.skills@, needle@, 0),
        ensures
            match first_offhand_named(self.skills@, needle@, 0) {
                Some(i) => r matches Some(x) && *x == self.skills@[i],
                None => r is None,
            },
    {
        let mut i: usize = 0;
        while i < self.skills.len()
            invariant
                i <= self.skills@.len(),
                offhand_search_ok(self.skills@, needle@, i as int),
                first_offhand_named(self.skills@, needle@, 0) == first_offhand_named(
                    self.skills@,
                    needle@,
                    i as int,
                ),
            decreases self.skills.len() - i,
        {
            let skill = &self.skills[i];
            if str_eq(sanitize_guide_name(skill.name.as_str()), needle) && skill.offhand {
                return Some(skill);
            }
            i = i + 1;
        }
        None
    }

    /// Find the admin offhand skill with the given name.
    /// If there is no match, return an `Err`.
    pub fn get_offhand_from_name(&'a self, needle: &str) -> (r: Result<&'a AdminSkill, Error>)
        requires
            offhand_search_ok(self.skills@, needle@, 0),
        ensures
            match first_offhand_named(self.skills@, needle@, 0) {
                Some(i) => r matches Ok(x) && *x == self.skills@[i],
                None => r matches Err(e) && is_misc(
                    e,
                    "No match for offhand admin skill with name '"@ + needle@ + "'"@,
                ),
            },
    {
        match self.find_offhand_from_name(needle) {
            Some(x) => Ok(x),
            None => Err(misc(concat3("No match for offhand admin skill with name '", needle, "'"))),
        }
    }
}

} // verus!
