//! Pets as the admin view of the guide holds them.

use vstd::prelude::*;
use vstd::string::*;
use vstd::utf8::*;

use crate::error::{fails_form, int_error, is_misc, misc, Error, FormFailure, Kind};
use crate::guide::html_form_parser::{fields_view, lemma_fields_view_remove_first, ParsedForm};
use crate::lookup::{first_id, first_id_from};
use crate::monsters::admin::{form_u32, id_fields, push_field, push_ids};
use crate::num::{parse_u32, parse_u64, parse_u8, spec_dec, spec_parse_int, unsigned_to_string};
use crate::text::{concat2, concat3, spec_trim_end_char, str_eq, to_owned, trim_end_matches};

verus! {

/// The kind of currency a pet costs.
#[derive(Clone, Copy, Debug, PartialEq, Eq, Structural)]
pub enum CostType {
    Orn,
    Gold,
}

/// A pet fetched from the admin panel.
#[derive(Clone, Debug)]
pub struct AdminPet {
    /// The CSRF token that was given on the page where the pet was fetched.
    pub csrfmiddlewaretoken: String,
    /// Id of the pet on the guide.
    pub id: u32,
    /// The URI of the pet on the codex.
    /// URI matches `/codex/followers/{slug}/` with the trailing slash.
    pub codex_uri: String,
    /// The name of the pet on the guide.
    pub name: String,
    /// The tier of the pet.
    pub tier: u8,
    /// Path to the image of the pet.
    pub image_name: String,
    /// In-game description of the pet.
    pub description: String,
    /// Pet attack chance (%).
    pub attack: u8,
    /// Pet heal chance (%).
    pub heal: u8,
    /// Pet buff chance (%).
    pub buff: u8,
    /// Pet debuff chance (%).
    pub debuff: u8,
    /// Pet spell chance (%).
    pub spell: u8,
    /// Pet protect chance (%).
    pub protect: u8,
    /// Pet cost.
    pub cost: u64,
    /// Pet cost type (Orns or Gold).
    pub cost_type: CostType,
    /// Whether the pet is limited (i.e.: tied to an event).
    pub limited: bool,
    /// Handwritten note from the guide team on availability.
    pub limited_details: String,
    /// Ids of skills the pet knows.
    pub skills: Vec<u32>,
}

/// What an [`AdminPet`] holds.
pub struct AdminPetView {
    pub csrfmiddlewaretoken: Seq<char>,
    pub id: u32,
    pub codex_uri: Seq<char>,
    pub name: Seq<char>,
    pub tier: u8,
    pub image_name: Seq<char>,
    pub description: Seq<char>,
    pub attack: u8,
    pub heal: u8,
    pub buff: u8,
    pub debuff: u8,
    pub spell: u8,
    pub protect: u8,
    pub cost: u64,
    pub cost_type: CostType,
    pub limited: bool,
    pub limited_details: Seq<char>,
    pub skills: Seq<u32>,
}

impl View for AdminPet {
    type V = AdminPetView;

    open spec fn view(&self) -> AdminPetView {
        AdminPetView {
            csrfmiddlewaretoken: self.csrfmiddlewaretoken@,
            id: self.id,
            codex_uri: self.codex_uri@,
            name: self.name@,
            tier: self.tier,
            image_name: self.image_name@,
            description: self.description@,
            attack: self.attack,
            heal: self.heal,
            buff: self.buff,
            debuff: self.debuff,
            spell: self.spell,
            protect: self.protect,
            cost: self.cost,
            cost_type: self.cost_type,
            limited: self.limited,
            limited_details: self.limited_details@,
            skills: self.skills@,
        }
    }
}

/// A pet with every field empty, zero, `false` or `Gold`, but its csrf token.
pub open spec fn empty_pet(csrf: Seq<char>) -> AdminPetView {
    AdminPetView {
        csrfmiddlewaretoken: csrf,
        id: 0,
        codex_uri: Seq::empty(),
        name: Seq::empty(),
        tier: 0,
        image_name: Seq::empty(),
        description: Seq::empty(),
        attack: 0,
        heal: 0,
        buff: 0,
        debuff: 0,
        spell: 0,
        protect: 0,
        cost: 0,
        cost_type: CostType::Gold,
        limited: false,
        limited_details: Seq::empty(),
        skills: Seq::empty(),
    }
}

impl Default for AdminPet {
    fn default() -> (r: Self)
        ensures
            r@ == empty_pet(Seq::empty()),
    {
        AdminPet {
            csrfmiddlewaretoken: String::new(),
            id: 0,
            codex_uri: String::new(),
            name: String::new(),
            tier: 0,
            image_name: String::new(),
            description: String::new(),
            attack: 0,
            heal: 0,
            buff: 0,
            debuff: 0,
            spell: 0,
            protect: 0,
            cost: 0,
            cost_type: CostType::Gold,
            limited: false,
            limited_details: String::new(),
            skills: Vec::new(),
        }
    }
}

/// `str::parse::<u8>` of a form value.
pub open spec fn form_u8(value: Seq<char>) -> Result<u8, FormFailure> {
    match spec_parse_int(value, 0, 255) {
        Ok(x) => Ok(x as u8),
        Err(k) => Err(FormFailure::Int(k)),
    }
}

/// The pet after reading one field of the admin form.
pub open spec fn pet_field(v: AdminPetView, key: Seq<char>, value: Seq<char>) -> Result<
    AdminPetView,
    FormFailure,
> {
    if key == "codex"@ {
        Ok(AdminPetView { codex_uri: value, ..v })
    } else if key == "name"@ {
        Ok(AdminPetView { name: value, ..v })
    } else if key == "tier"@ {
        match form_u8(value) {
            Ok(x) => Ok(AdminPetView { tier: x, ..v }),
            Err(e) => Err(e),
        }
    } else if key == "image_name"@ {
        Ok(AdminPetView { image_name: value, ..v })
    } else if key == "description"@ {
        Ok(AdminPetView { description: value, ..v })
    } else if key == "attack"@ {
        match form_u8(value) {
            Ok(x) => Ok(AdminPetView { attack: x, ..v }),
            Err(e) => Err(e),
        }
    } else if key == "heal"@ {
        match form_u8(value) {
            Ok(x) => Ok(AdminPetView { heal: x, ..v }),
            Err(e) => Err(e),
        }
    } else if key == "buff"@ {
        match form_u8(value) {
            Ok(x) => Ok(AdminPetView { buff: x, ..v }),
            Err(e) => Err(e),
        }
    } else if key == "debuff"@ {
        match form_u8(value) {
            Ok(x) => Ok(AdminPetView { debuff: x, ..v }),
            Err(e) => Err(e),
        }
    } else if key == "spell"@ {
        match form_u8(value) {
            Ok(x) => Ok(AdminPetView { spell: x, ..v }),
            Err(e) => Err(e),
        }
    } else if key == "protect"@ {
        match form_u8(value) {
            Ok(x) => Ok(AdminPetView { protect: x, ..v }),
            Err(e) => Err(e),
        }
    } else if key == "cost"@ {
        match spec_parse_int(value, 0, 0xffff_ffff_ffff_ffff) {
            Ok(x) => Ok(AdminPetView { cost: x as u64, ..v }),
            Err(k) => Err(FormFailure::Int(k)),
        }
    } else if key == "cost_type"@ {
        match form_u8(value) {
            Ok(x) => Ok(
                AdminPetView {
                    cost_type: if x == 1 {
                        CostType::Orn
                    } else {
                        CostType::Gold
                    },
                    ..v
                },
            ),
            Err(e) => Err(e),
        }
    } else if key == "limited"@ {
        Ok(AdminPetView { limited: value == "on"@, ..v })
    } else if key == "limited_details"@ {
        Ok(AdminPetView { limited_details: value, ..v })
    } else if key == "skills"@ {
        match form_u32(value) {
            Ok(x) => Ok(AdminPetView { skills: v.skills.push(x), ..v }),
            Err(e) => Err(e),
        }
    } else {
        Err(FormFailure::Extra(key, value))
    }
}

/// The pet after reading the fields of the admin form from index `i` on.
pub open spec fn pet_form(v: AdminPetView, fields: Seq<(Seq<char>, Seq<char>)>, i: int) -> Result<
    AdminPetView,
    FormFailure,
>
    decreases fields.len() - i,
{
    if i < 0 || i >= fields.len() {
        Ok(v)
    } else {
        match pet_field(v, fields[i].0, fields[i].1) {
            Ok(w) => pet_form(w, fields, i + 1),
            Err(e) => Err(e),
        }
    }
}

/// Reads a form value as a `u8`.
fn read_form_u8(value: &str) -> (r: Result<u8, Error>)
    ensures
        match form_u8(value@) {
            Ok(x) => r == Ok::<u8, Error>(x),
            Err(f) => r matches Err(e) && fails_form(e, f),
        },
{
    match parse_u8(value) {
        Ok(x) => Ok(x),
        Err(k) => Err(int_error(k)),
    }
}

/// The digit that stands for a cost type in the admin form.
pub open spec fn cost_type_text(c: CostType) -> Seq<char> {
    match c {
        CostType::Orn => "1"@,
        CostType::Gold => "2"@,
    }
}

/// The fields of the admin form of a pet, in the order the guide expects them.
pub open spec fn pet_form_fields(v: AdminPetView) -> Seq<(Seq<char>, Seq<char>)> {
    seq![
        ("codex"@, v.codex_uri),
        ("name"@, v.name),
        ("tier"@, spec_dec(v.tier as nat)),
        ("image_name"@, v.image_name),
        ("description"@, v.description),
        ("attack"@, spec_dec(v.attack as nat)),
        ("heal"@, spec_dec(v.heal as nat)),
        ("buff"@, spec_dec(v.buff as nat)),
        ("debuff"@, spec_dec(v.debuff as nat)),
        ("spell"@, spec_dec(v.spell as nat)),
        ("protect"@, spec_dec(v.protect as nat)),
        ("cost"@, spec_dec(v.cost as nat)),
        ("cost_type"@, cost_type_text(v.cost_type)),
    ] + (if v.limited {
        seq![("limited"@, "on"@)]
    } else {
        Seq::empty()
    }) + seq![("limited_details"@, v.limited_details)] + id_fields("skills"@, v.skills)
}

impl AdminPet {
    /// Read a pet from the fields of its admin form.
    ///
    /// # Errors
    /// Errors when a value cannot be read or a field does not belong to the form.
    pub fn try_from(form: ParsedForm) -> (r: Result<Self, Error>)
        ensures
            match pet_form(empty_pet(form@.1), form@.0, 0) {
                Ok(v) => r matches Ok(m) && m@ == v,
                Err(f) => r matches Err(e) && fails_form(e, f),
            },
    {
        let ghost all = form@.0;
        let mut pet = AdminPet::default();
        pet.csrfmiddlewaretoken = form.csrfmiddlewaretoken;
        let ghost start = pet@;
        let mut rest = form.fields;
        let ghost mut j: int = 0;
        assert(fields_view(rest@).skip(0) =~= all);
        while rest.len() > 0
            invariant
                0 <= j <= all.len(),
                all == form@.0,
                start == empty_pet(form@.1),
                fields_view(rest@) == all.skip(j),
                pet_form(start, all, 0) == pet_form(pet@, all, j),
            decreases rest.len(),
        {
            let ghost before = pet@;
            let ghost r0 = rest@;
            let (key, value) = rest.remove(0);
            proof {
                lemma_fields_view_remove_first(r0);
                assert(all.skip(j)[0] == all[j]);
                assert(all.skip(j).skip(1) =~= all.skip(j + 1));
            }
            let k = key.as_str();
            if str_eq(k, "codex") {
                pet.codex_uri = value;
            } else if str_eq(k, "name") {
                pet.name = value;
            } else if str_eq(k, "tier") {
                match read_form_u8(value.as_str()) {
                    Ok(x) => pet.tier = x,
                    Err(e) => {
                        return Err(e);
                    },
                }
            } else if str_eq(k, "image_name") {
                pet.image_name = value;
            } else if str_eq(k, "description") {
                pet.description = value;
            } else if str_eq(k, "attack") {
                match read_form_u8(value.as_str()) {
                    Ok(x) => pet.attack = x,
                    Err(e) => {
                        return Err(e);
                    },
                }
            } else if str_eq(k, "heal") {
                match read_form_u8(value.as_str()) {
                    Ok(x) => pet.heal = x,
                    Err(e) => {
                        return Err(e);
                    },
                }
            } else if str_eq(k, "buff") {
                match read_form_u8(value.as_str()) {
                    Ok(x) => pet.buff = x,
                    Err(e) => {
                        return Err(e);
                    },
                }
            } else if str_eq(k, "debuff") {
                match read_form_u8(value.as_str()) {
                    Ok(x) => pet.debuff = x,
                    Err(e) => {
                        return Err(e);
                    },
                }
            } else if str_eq(k, "spell") {
                match read_form_u8(value.as_str()) {
                    Ok(x) => pet.spell = x,
                    Err(e) => {
                        return Err(e);
                    },
                }
            } else if str_eq(k, "protect") {
                match read_form_u8(value.as_str()) {
                    Ok(x) => pet.protect = x,
                    Err(e) => {
                        return Err(e);
                    },
                }
            } else if str_eq(k, "cost") {
                match parse_u64(value.as_str()) {
                    Ok(x) => pet.cost = x,
                    Err(e) => {
                        return Err(int_error(e));
                    },
                }
            } else if str_eq(k, "cost_type") {
                match read_form_u8(value.as_str()) {
                    Ok(x) => {
                        pet.cost_type = if x == 1 {
                            CostType::Orn
                        } else {
                            CostType::Gold
                        };
                    },
                    Err(e) => {
                        return Err(e);
                    },
                }
            } else if str_eq(k, "limited") {
                pet.limited = str_eq(value.as_str(), "on");
            } else if str_eq(k, "limited_details") {
                pet.limited_details = value;
            } else if str_eq(k, "skills") {
                match parse_u32(value.as_str()) {
                    Ok(x) => pet.skills.push(x),
                    Err(e) => {
                        return Err(int_error(e));
                    },
                }
            } else {
                return Err(Kind::ExtraField(key, value).into_err());
            }
            proof {
                assert(pet_field(before, all[j].0, all[j].1) == Ok::<AdminPetView, FormFailure>(
                    pet@,
                ));
                j = j + 1;
            }
        }
        Ok(pet)
    }

    /// The fields of the admin form of the pet, in the order the guide expects them.
    pub fn to_form(self) -> (r: ParsedForm)
        ensures
            r@ == (pet_form_fields(self@), self@.csrfmiddlewaretoken),
    {
        let ghost v = self@;
        let mut fields: Vec<(String, String)> = Vec::new();
        push_field(&mut fields, "codex", self.codex_uri);
        push_field(&mut fields, "name", self.name);
        push_field(&mut fields, "tier", unsigned_to_string(self.tier as u64));
        push_field(&mut fields, "image_name", self.image_name);
        push_field(&mut fields, "description", self.description);
        push_field(&mut fields, "attack", unsigned_to_string(self.attack as u64));
        push_field(&mut fields, "heal", unsigned_to_string(self.heal as u64));
        push_field(&mut fields, "buff", unsigned_to_string(self.buff as u64));
        push_field(&mut fields, "debuff", unsigned_to_string(self.debuff as u64));
        push_field(&mut fields, "spell", unsigned_to_string(self.spell as u64));
        push_field(&mut fields, "protect", unsigned_to_string(self.protect as u64));
        push_field(&mut fields, "cost", unsigned_to_string(self.cost));
        let cost_type = match self.cost_type {
            CostType::Orn => to_owned("1"),
            CostType::Gold => to_owned("2"),
        };
        push_field(&mut fields, "cost_type", cost_type);
        if self.limited {
            push_field(&mut fields, "limited", to_owned("on"));
        }
        push_field(&mut fields, "limited_details", self.limited_details);
        push_ids(&mut fields, "skills", &self.skills);
        let r = ParsedForm { fields, csrfmiddlewaretoken: self.csrfmiddlewaretoken };
        proof {
            assert(fields_view(r.fields@) =~= pet_form_fields(v));
        }
        r
    }
}

/// The names of the fields of the admin form of a pet are distinct.
proof fn lemma_pet_keys_distinct()
    ensures
        "codex"@ != "name"@,
        "codex"@ != "tier"@,
        "codex"@ != "image_name"@,
        "codex"@ != "description"@,
        "codex"@ != "attack"@,
        "codex"@ != "heal"@,
        "codex"@ != "buff"@,
        "codex"@ != "debuff"@,
        "codex"@ != "spell"@,
        "codex"@ != "protect"@,
        "codex"@ != "cost"@,
        "codex"@ != "cost_type"@,
        "codex"@ != "limited"@,
        "codex"@ != "limited_details"@,
        "codex"@ != "skills"@,
        "name"@ != "tier"@,
        "name"@ != "image_name"@,
        "name"@ != "description"@,
        "name"@ != "attack"@,
        "name"@ != "heal"@,
        "name"@ != "buff"@,
        "name"@ != "debuff"@,
        "name"@ != "spell"@,
        "name"@ != "protect"@,
        "name"@ != "cost"@,
        "name"@ != "cost_type"@,
        "name"@ != "limited"@,
        "name"@ != "limited_details"@,
        "name"@ != "skills"@,
        "tier"@ != "image_name"@,
        "tier"@ != "description"@,
        "tier"@ != "attack"@,
        "tier"@ != "heal"@,
        "tier"@ != "buff"@,
        "tier"@ != "debuff"@,
        "tier"@ != "spell"@,
        "tier"@ != "protect"@,
        "tier"@ != "cost"@,
        "tier"@ != "cost_type"@,
        "tier"@ != "limited"@,
        "tier"@ != "limited_details"@,
        "tier"@ != "skills"@,
        "image_name"@ != "description"@,
        "image_name"@ != "attack"@,
        "image_name"@ != "heal"@,
        "image_name"@ != "buff"@,
        "image_name"@ != "debuff"@,
        "image_name"@ != "spell"@,
        "image_name"@ != "protect"@,
        "image_name"@ != "cost"@,
        "image_name"@ != "cost_type"@,
        "image_name"@ != "limited"@,
        "image_name"@ != "limited_details"@,
        "image_name"@ != "skills"@,
        "description"@ != "attack"@,
        "description"@ != "heal"@,
        "description"@ != "buff"@,
        "description"@ != "debuff"@,
        "description"@ != "spell"@,
        "description"@ != "protect"@,
        "description"@ != "cost"@,
        "description"@ != "cost_type"@,
        "description"@ != "limited"@,
        "description"@ != "limited_details"@,
        "description"@ != "skills"@,
        "attack"@ != "heal"@,
        "attack"@ != "buff"@,
        "attack"@ != "debuff"@,
        "attack"@ != "spell"@,
        "attack"@ != "protect"@,
        "attack"@ != "cost"@,
        "attack"@ != "cost_type"@,
        "attack"@ != "limited"@,
        "attack"@ != "limited_details"@,
        "attack"@ != "skills"@,
        "heal"@ != "buff"@,
        "heal"@ != "debuff"@,
        "heal"@ != "spell"@,
        "heal"@ != "protect"@,
        "heal"@ != "cost"@,
        "heal"@ != "cost_type"@,
        "heal"@ != "limited"@,
        "heal"@ != "limited_details"@,
        "heal"@ != "skills"@,
        "buff"@ != "debuff"@,
        "buff"@ != "spell"@,
        "buff"@ != "protect"@,
        "buff"@ != "cost"@,
        "buff"@ != "cost_type"@,
        "buff"@ != "limited"@,
        "buff"@ != "limited_details"@,
        "buff"@ != "skills"@,
        "debuff"@ != "spell"@,
        "debuff"@ != "protect"@,
        "debuff"@ != "cost"@,
        "debuff"@ != "cost_type"@,
        "debuff"@ != "limited"@,
        "debuff"@ != "limited_details"@,
        "debuff"@ != "skills"@,
        "spell"@ != "protect"@,
        "spell"@ != "cost"@,
        "spell"@ != "cost_type"@,
        "spell"@ != "limited"@,
        "spell"@ != "limited_details"@,
        "spell"@ != "skills"@,
        "protect"@ != "cost"@,
        "protect"@ != "cost_type"@,
        "protect"@ != "limited"@,
        "protect"@ != "limited_details"@,
        "protect"@ != "skills"@,
        "cost"@ != "cost_type"@,
        "cost"@ != "limited"@,
        "cost"@ != "limited_details"@,
        "cost"@ != "skills"@,
        "cost_type"@ != "limited"@,
        "cost_type"@ != "limited_details"@,
        "cost_type"@ != "skills"@,
        "limited"@ != "limited_details"@,
        "limited"@ != "skills"@,
        "limited_details"@ != "skills"@,
{
    reveal_strlit("codex");
    reveal_strlit("name");
    reveal_strlit("tier");
    reveal_strlit("image_name");
    reveal_strlit("description");
    reveal_strlit("attack");
    reveal_strlit("heal");
    reveal_strlit("buff");
    reveal_strlit("debuff");
    reveal_strlit("spell");
    reveal_strlit("protect");
    reveal_strlit("cost");
    reveal_strlit("cost_type");
    reveal_strlit("limited");
    reveal_strlit("limited_details");
    reveal_strlit("skills");
    assert("codex"@.len() == 5);
    assert("name"@.len() == 4);
    assert("tier"@.len() == 4);
    assert("image_name"@.len() == 10);
    assert("description"@.len() == 11);
    assert("attack"@.len() == 6);
    assert("heal"@.len() == 4);
    assert("buff"@.len() == 4);
    assert("debuff"@.len() == 6);
    assert("spell"@.len() == 5);
    assert("protect"@.len() == 7);
    assert("cost"@.len() == 4);
    assert("cost_type"@.len() == 9);
    assert("limited"@.len() == 7);
    assert("limited_details"@.len() == 15);
    assert("skills"@.len() == 6);
    assert("codex"@[0] != "spell"@[0]);
    assert("name"@[0] != "tier"@[0]);
    assert("name"@[0] != "heal"@[0]);
    assert("name"@[0] != "buff"@[0]);
    assert("name"@[0] != "cost"@[0]);
    assert("tier"@[0] != "heal"@[0]);
    assert("tier"@[0] != "buff"@[0]);
    assert("tier"@[0] != "cost"@[0]);
    assert("attack"@[0] != "debuff"@[0]);
    assert("attack"@[0] != "skills"@[0]);
    assert("heal"@[0] != "buff"@[0]);
    assert("heal"@[0] != "cost"@[0]);
    assert("buff"@[0] != "cost"@[0]);
    assert("debuff"@[0] != "skills"@[0]);
    assert("protect"@[0] != "limited"@[0]);
}

/// Reading the fields `b` after the fields `a` reads `a`, then `b`.
proof fn lemma_pet_form_shift(w: AdminPetView, a: Seq<(Seq<char>, Seq<char>)>, b: Seq<(Seq<char>, Seq<char>)>, j: int)
    requires
        0 <= j <= b.len(),
    ensures
        pet_form(w, a + b, a.len() + j) == pet_form(w, b, j),
    decreases b.len() - j,
{
    if j < b.len() {
        assert((a + b)[a.len() + j] == b[j]);
        match pet_field(w, b[j].0, b[j].1) {
            Ok(x) => lemma_pet_form_shift(x, a, b, j + 1),
            Err(_) => {},
        }
    }
}

proof fn lemma_pet_form_concat_from(w: AdminPetView, a: Seq<(Seq<char>, Seq<char>)>, b: Seq<(Seq<char>, Seq<char>)>, i: int)
    requires
        0 <= i <= a.len(),
    ensures
        pet_form(w, a + b, i) == match pet_form(w, a, i) {
            Ok(x) => pet_form(x, b, 0),
            Err(e) => Err(e),
        },
    decreases a.len() - i,
{
    if i == a.len() {
        lemma_pet_form_shift(w, a, b, 0);
    } else {
        assert((a + b)[i] == a[i]);
        match pet_field(w, a[i].0, a[i].1) {
            Ok(x) => lemma_pet_form_concat_from(x, a, b, i + 1),
            Err(_) => {},
        }
    }
}

/// Reading the fields of `a + b` reads those of `a`, then those of `b`.
proof fn lemma_pet_form_concat(w: AdminPetView, a: Seq<(Seq<char>, Seq<char>)>, b: Seq<(Seq<char>, Seq<char>)>)
    ensures
        pet_form(w, a + b, 0) == match pet_form(w, a, 0) {
            Ok(x) => pet_form(x, b, 0),
            Err(e) => Err(e),
        },
{
    lemma_pet_form_concat_from(w, a, b, 0);
}

/// Reading the `skills` fields appends their ids to the skills.
proof fn lemma_pet_form_skills(w: AdminPetView, ids: Seq<u32>)
    ensures
        pet_form(w, id_fields("skills"@, ids), 0) == Ok::<AdminPetView, FormFailure>(
            AdminPetView { skills: w.skills + ids, ..w },
        ),
    decreases ids.len(),
{
    lemma_pet_keys_distinct();
    if ids.len() == 0 {
        assert(id_fields("skills"@, ids) =~= Seq::<(Seq<char>, Seq<char>)>::empty());
        assert(w.skills + ids =~= w.skills);
    } else {
        let front = ids.drop_last();
        let x = ids.last();
        assert(id_fields("skills"@, ids) =~= id_fields("skills"@, front) + seq![("skills"@, spec_dec(x as nat))]);
        lemma_pet_form_skills(w, front);
        lemma_pet_form_concat(w, id_fields("skills"@, front), seq![("skills"@, spec_dec(x as nat))]);
        crate::num::lemma_parse_dec(x as nat, 0xffff_ffff);
        let mid = AdminPetView { skills: w.skills + front, ..w };
        assert(form_u32(spec_dec(x as nat)) == Ok::<u32, FormFailure>(x));
        assert((w.skills + front).push(x) =~= w.skills + ids);
        assert(pet_field(mid, "skills"@, spec_dec(x as nat)) == Ok::<AdminPetView, FormFailure>(
            AdminPetView { skills: w.skills + ids, ..w },
        ));
        assert(pet_form(AdminPetView { skills: w.skills + ids, ..w }, seq![("skills"@, spec_dec(x as nat))], 1) == Ok::<
            AdminPetView,
            FormFailure,
        >(AdminPetView { skills: w.skills + ids, ..w }));
    }
}

/// Writing a pet into its admin form and reading the form back gives the pet
/// again, but for its id, which the form does not hold.
pub proof fn law_pet_form_roundtrip(v: AdminPetView)
    ensures
        pet_form(empty_pet(v.csrfmiddlewaretoken), pet_form_fields(v), 0) == Ok::<
            AdminPetView,
            FormFailure,
        >(AdminPetView { id: 0, ..v }),
{
    lemma_pet_keys_distinct();
    reveal_strlit("1");
    reveal_strlit("2");
    reveal_strlit("on");
    crate::num::lemma_parse_dec(v.tier as nat, 255);
    crate::num::lemma_parse_dec(v.attack as nat, 255);
    crate::num::lemma_parse_dec(v.heal as nat, 255);
    crate::num::lemma_parse_dec(v.buff as nat, 255);
    crate::num::lemma_parse_dec(v.debuff as nat, 255);
    crate::num::lemma_parse_dec(v.spell as nat, 255);
    crate::num::lemma_parse_dec(v.protect as nat, 255);
    crate::num::lemma_parse_dec(v.cost as nat, 0xffff_ffff_ffff_ffff);
    crate::num::lemma_parse_dec(1, 255);
    crate::num::lemma_parse_dec(2, 255);
    assert(spec_dec(1) =~= "1"@);
    assert(spec_dec(2) =~= "2"@);
    let w0 = empty_pet(v.csrfmiddlewaretoken);
    let a = seq![
        ("codex"@, v.codex_uri),
        ("name"@, v.name),
        ("tier"@, spec_dec(v.tier as nat)),
        ("image_name"@, v.image_name),
        ("description"@, v.description),
        ("attack"@, spec_dec(v.attack as nat)),
        ("heal"@, spec_dec(v.heal as nat)),
        ("buff"@, spec_dec(v.buff as nat)),
        ("debuff"@, spec_dec(v.debuff as nat)),
        ("spell"@, spec_dec(v.spell as nat)),
        ("protect"@, spec_dec(v.protect as nat)),
        ("cost"@, spec_dec(v.cost as nat)),
        ("cost_type"@, cost_type_text(v.cost_type)),
    ];
    let bseq: Seq<(Seq<char>, Seq<char>)> = if v.limited {
        seq![("limited"@, "on"@)]
    } else {
        Seq::empty()
    };
    let c = seq![("limited_details"@, v.limited_details)];
    let s0 = w0;
    let s1 = AdminPetView { codex_uri: v.codex_uri, ..s0 };
    let s2 = AdminPetView { name: v.name, ..s1 };
    let s3 = AdminPetView { tier: v.tier, ..s2 };
    let s4 = AdminPetView { image_name: v.image_name, ..s3 };
    let s5 = AdminPetView { description: v.description, ..s4 };
    let s6 = AdminPetView { attack: v.attack, ..s5 };
    let s7 = AdminPetView { heal: v.heal, ..s6 };
    let s8 = AdminPetView { buff: v.buff, ..s7 };
    let s9 = AdminPetView { debuff: v.debuff, ..s8 };
    let s10 = AdminPetView { spell: v.spell, ..s9 };
    let s11 = AdminPetView { protect: v.protect, ..s10 };
    let s12 = AdminPetView { cost: v.cost, ..s11 };
    let s13 = AdminPetView { cost_type: v.cost_type, ..s12 };
    assert(pet_form(w0, a, 0) == Ok::<AdminPetView, FormFailure>(s13)) by {
        assert(pet_form(s13, a, 13) == Ok::<AdminPetView, FormFailure>(s13));
        assert(pet_field(s12, a[12].0, a[12].1) == Ok::<AdminPetView, FormFailure>(s13));
        assert(pet_form(s12, a, 12) == Ok::<AdminPetView, FormFailure>(s13));
        assert(pet_field(s11, a[11].0, a[11].1) == Ok::<AdminPetView, FormFailure>(s12));
        assert(pet_form(s11, a, 11) == Ok::<AdminPetView, FormFailure>(s13));
        assert(pet_field(s10, a[10].0, a[10].1) == Ok::<AdminPetView, FormFailure>(s11));
        assert(pet_form(s10, a, 10) == Ok::<AdminPetView, FormFailure>(s13));
        assert(pet_field(s9, a[9].0, a[9].1) == Ok::<AdminPetView, FormFailure>(s10));
        assert(pet_form(s9, a, 9) == Ok::<AdminPetView, FormFailure>(s13));
        assert(pet_field(s8, a[8].0, a[8].1) == Ok::<AdminPetView, FormFailure>(s9));
        assert(pet_form(s8, a, 8) == Ok::<AdminPetView, FormFailure>(s13));
        assert(pet_field(s7, a[7].0, a[7].1) == Ok::<AdminPetView, FormFailure>(s8));
        assert(pet_form(s7, a, 7) == Ok::<AdminPetView, FormFailure>(s13));
        assert(pet_field(s6, a[6].0, a[6].1) == Ok::<AdminPetView, FormFailure>(s7));
        assert(pet_form(s6, a, 6) == Ok::<AdminPetView, FormFailure>(s13));
        assert(pet_field(s5, a[5].0, a[5].1) == Ok::<AdminPetView, FormFailure>(s6));
        assert(pet_form(s5, a, 5) == Ok::<AdminPetView, FormFailure>(s13));
        assert(pet_field(s4, a[4].0, a[4].1) == Ok::<AdminPetView, FormFailure>(s5));
        assert(pet_form(s4, a, 4) == Ok::<AdminPetView, FormFailure>(s13));
        assert(pet_field(s3, a[3].0, a[3].1) == Ok::<AdminPetView, FormFailure>(s4));
        assert(pet_form(s3, a, 3) == Ok::<AdminPetView, FormFailure>(s13));
        assert(pet_field(s2, a[2].0, a[2].1) == Ok::<AdminPetView, FormFailure>(s3));
        assert(pet_form(s2, a, 2) == Ok::<AdminPetView, FormFailure>(s13));
        assert(pet_field(s1, a[1].0, a[1].1) == Ok::<AdminPetView, FormFailure>(s2));
        assert(pet_form(s1, a, 1) == Ok::<AdminPetView, FormFailure>(s13));
        assert(pet_field(s0, a[0].0, a[0].1) == Ok::<AdminPetView, FormFailure>(s1));
        assert(pet_form(s0, a, 0) == Ok::<AdminPetView, FormFailure>(s13));
    }
    let t1 = AdminPetView { limited: v.limited, ..s13 };
    assert(pet_form(s13, bseq, 0) == Ok::<AdminPetView, FormFailure>(t1)) by {
        if v.limited {
            assert(pet_form(t1, bseq, 1) == Ok::<AdminPetView, FormFailure>(t1));
        } else {
            assert(t1 == s13);
        }
    }
    let t2 = AdminPetView { limited_details: v.limited_details, ..t1 };
    assert(pet_form(t1, c, 0) == Ok::<AdminPetView, FormFailure>(t2)) by {
        assert(pet_form(t2, c, 1) == Ok::<AdminPetView, FormFailure>(t2));
    }
    lemma_pet_form_concat(w0, a, bseq);
    lemma_pet_form_concat(w0, a + bseq, c);
    lemma_pet_form_skills(t2, v.skills);
    lemma_pet_form_concat(w0, a + bseq + c, id_fields("skills"@, v.skills));
    assert(pet_form_fields(v) == a + bseq + c + id_fields("skills"@, v.skills));
    assert(AdminPetView { skills: t2.skills + v.skills, ..t2 } == AdminPetView { id: 0, ..v }) by {
        assert(Seq::<u32>::empty() + v.skills =~= v.skills);
    }
}

impl From<AdminPet> for ParsedForm {
    fn from(pet: AdminPet) -> (r: ParsedForm)
        ensures
            r@ == (pet_form_fields(pet@), pet@.csrfmiddlewaretoken),
    {
        pet.to_form()
    }
}

impl vstd::std_specs::convert::FromSpecImpl<AdminPet> for ParsedForm {
    open spec fn obeys_from_spec() -> bool {
        false
    }

    open spec fn from_spec(v: AdminPet) -> ParsedForm {
        vstd::pervasive::arbitrary()
    }
}

/// Cutting `/codex/followers/` (its length in bytes) out of a pet uri does not
/// panic: the uri is empty, or that many bytes start it and end on a character.
pub open spec fn pet_uri_ok(uri: Seq<char>) -> bool {
    uri.len() == 0 || (encode_utf8(uri).len() >= 17 && is_char_boundary(encode_utf8(uri), 17))
}

/// The slug of a pet uri: what follows its first 17 bytes, trailing `/` removed.
pub open spec fn pet_slug(uri: Seq<char>) -> Seq<char> {
    spec_trim_end_char(decode_utf8(encode_utf8(uri).subrange(17, encode_utf8(uri).len() as int)), '/')
}

/// The pet finds the slug `slug`: its uri is not empty and gives that slug.
pub open spec fn pet_has_slug(p: AdminPet, slug: Seq<char>) -> bool {
    p.codex_uri@.len() > 0 && pet_slug(p.codex_uri@) == slug
}

/// The index of the first pet, from index `i` on, that finds the slug.
pub open spec fn first_pet_with_slug(v: Seq<AdminPet>, slug: Seq<char>, i: int) -> Option<int>
    decreases v.len() - i,
{
    if i < 0 || i >= v.len() {
        None
    } else if pet_has_slug(v[i], slug) {
        Some(i)
    } else {
        first_pet_with_slug(v, slug, i + 1)
    }
}

/// Looking for the slug `slug` from index `i` on does not panic: each pet looked at
/// before the first one with the slug can have the prefix of its codex uri cut out.
pub open spec fn pet_slug_search_ok(v: Seq<AdminPet>, slug: Seq<char>, i: int) -> bool
    decreases v.len() - i,
{
    if i < 0 || i >= v.len() {
        true
    } else {
        pet_uri_ok(v[i].codex_uri@) && (pet_has_slug(v[i], slug) || pet_slug_search_ok(v, slug, i + 1))
    }
}

/// The pets' ids, in order.
pub open spec fn pet_ids(v: Seq<AdminPet>) -> Seq<u32> {
    v.map_values(|p: AdminPet| p.id)
}

/// The slug of a pet uri that [`pet_uri_ok`] allows to cut.
fn slug_of_pet_uri(uri: &str) -> (r: &str)
    requires
        uri@.len() > 0,
        pet_uri_ok(uri@),
    ensures
        r@ == pet_slug(uri@),
{
    broadcast use vstd::utf8::encode_utf8_decode_utf8;

    let (_, rest) = uri.split_at(17);
    proof {
        assert(rest.spec_bytes() =~= encode_utf8(uri@).subrange(17, encode_utf8(uri@).len() as int));
        encode_utf8_decode_utf8(rest@);
    }
    trim_end_matches(rest, '/')
}

/// Collection of pets from the guide's admin view.
pub struct AdminPets {
    /// Pets from the guide's admin view.
    pub pets: Vec<AdminPet>,
}

impl<'a> AdminPets {
    /// Find the admin pet associated with the given slug.
    pub fn find_by_slug(&'a self, needle: &str) -> (r: Option<&'a AdminPet>)
        requires
            pet_slug_search_ok(self.pets@, needle@, 0),
        ensures
            match first_pet_with_slug(self.pets@, needle@, 0) {
                Some(i) => r matches Some(x) && *x == self.pets@[i],
                None => r is None,
            },
    {
        let mut i: usize = 0;
        while i < self.pets.len()
            invariant
                i <= self.pets@.len(),
                pet_slug_search_ok(self.pets@, needle@, i as int),
                first_pet_with_slug(self.pets@, needle@, 0) == first_pet_with_slug(self.pets@, needle@, i as int),
            decreases self.pets.len() - i,
        {
            let uri = self.pets[i].codex_uri.as_str();
            if uri.unicode_len() > 0 {
                if str_eq(slug_of_pet_uri(uri), needle) {
                    return Some(&self.pets[i]);
                }
            }
            i = i + 1;
        }
        None
    }

    /// Find the admin pet associated with the given codex follower.
    /// If there is no match, return an `Err`.
    pub fn get_by_slug(&'a self, needle: &str) -> (r: Result<&'a AdminPet, Error>)
        requires
            pet_slug_search_ok(self.pets@, needle@, 0),
        ensures
            match first_pet_with_slug(self.pets@, needle@, 0) {
                Some(i) => r matches Ok(x) && *x == self.pets@[i],
                None => r matches Err(e) && is_misc(
                    e,
                    "No match for admin pet with codex slug '"@ + needle@ + "'"@,
                ),
            },
    {
        match self.find_by_slug(needle) {
            Some(x) => Ok(x),
            None => Err(misc(concat3("No match for admin pet with codex slug '", needle, "'"))),
        }
    }

    /// Find the admin pet associated with the given id.
    pub fn find_by_id(&'a self, needle: u32) -> (r: Option<&'a AdminPet>)
        ensures
            match first_id(pet_ids(self.pets@), needle) {
                Some(i) => r matches Some(x) && *x == self.pets@[i],
                None => r is None,
            },
    {
        let ghost keys = pet_ids(self.pets@);
        let mut i: usize = 0;
        while i < self.pets.len()
            invariant
                keys == pet_ids(self.pets@),
                i <= self.pets@.len(),
                first_id(keys, needle) == first_id_from(keys, needle, i as int),
            decreases self.pets.len() - i,
        {
            if self.pets[i].id == needle {
                return Some(&self.pets[i]);
            }
            i = i + 1;
        }
        None
    }

    /// Find the admin pet associated with the given id.
    /// If there is no match, return an `Err`.
    pub fn get_by_id(&'a self, needle: u32) -> (r: Result<&'a AdminPet, Error>)
        ensures
            match first_id(pet_ids(self.pets@), needle) {
                Some(i) => r matches Ok(x) && *x == self.pets@[i],
                None => r matches Err(e) && is_misc(
                    e,
                    "No match for admin pet with id #"@ + spec_dec(needle as nat),
                ),
            },
    {
        match self.find_by_id(needle) {
            Some(x) => Ok(x),
            None => Err(
                misc(concat2("No match for admin pet with id #", unsigned_to_string(needle as u64).as_str())),
            ),
        }
    }
}

} // verus!
