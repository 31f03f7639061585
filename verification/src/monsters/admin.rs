//! Monsters as the admin view of the guide holds them.

use vstd::prelude::*;

use crate::error::{fails_form, int_error, is_misc, misc, Error, FormFailure, Kind};
use crate::guide::html_form_parser::{fields_view, lemma_fields_view_remove_first, ParsedForm};
use crate::guide::Spawn;
use crate::lookup::{first_id, first_id_from, first_match, first_match_from};
use crate::misc::{sanitize_guide_name, sanitize_ok, spec_sanitize_guide_name};
use crate::num::{parse_u32, parse_u8, spec_dec, spec_parse_int, unsigned_to_string};
use crate::text::{concat2, concat3, seq_starts_with, starts_with, str_eq, strip_prefix, to_owned};

verus! {

/// A monster fetched from the admin panel.
#[derive(Clone, Debug)]
pub struct AdminMonster {
    /// The CSRF token that was given on the page where the monster was fetched.
    pub csrfmiddlewaretoken: String,
    /// Id of the monster on the guide.
    pub id: u32,
    /// The URI of the monster on the codex.
    /// URI matches `/codex/{entity}/{slug}/` with the trailing slash.
    /// `entity` is either `monsters`, `bosses` or `raids`.
    pub codex_uri: String,
    /// The name of the monster on the guide.
    pub name: String,
    /// The tier of the monster.
    pub tier: u8,
    /// The family to which the monster belongs.
    pub family: Option<u32>,
    /// Path to the image of the monster.
    pub image_name: String,
    /// Whether the monster is a boss (WRB & KRB included).
    pub boss: bool,
    /// The HP of the monster, if specifyable.
    /// This should be set for raids and bosses.
    pub hp: u32,
    /// The level at which the monster is encountered.
    /// This should be set for raids and bosses.
    pub level: u32,
    /// Handwritten notes from the guide team on the monster.
    pub notes: String,
    /// Ids of where the monster spawns.
    pub spawns: Vec<u32>,
    /// Ids of elements to which the monster is weak.
    pub weak_to: Vec<u32>,
    /// Ids of elements to which the monster is resistant.
    pub resistant_to: Vec<u32>,
    /// Ids of elements to which the monster is immune.
    pub immune_to: Vec<u32>,
    /// Ids of statuses to which the monster is immune.
    pub immune_to_status: Vec<u32>,
    /// Ids of statuses to which the monster is vulnerable.
    /// This field is likely to disappear.
    pub vulnerable_to_status: Vec<u32>,
    /// Ids of items the monster drops.
    pub drops: Vec<u32>,
    /// Ids of skills the monster uses.
    pub skills: Vec<u32>,
}

/// What an [`AdminMonster`] holds.
pub struct AdminMonsterView {
    pub csrfmiddlewaretoken: Seq<char>,
    pub id: u32,
    pub codex_uri: Seq<char>,
    pub name: Seq<char>,
    pub tier: u8,
    pub family: Option<u32>,
    pub image_name: Seq<char>,
    pub boss: bool,
    pub hp: u32,
    pub level: u32,
    pub notes: Seq<char>,
    pub spawns: Seq<u32>,
    pub weak_to: Seq<u32>,
    pub resistant_to: Seq<u32>,
    pub immune_to: Seq<u32>,
    pub immune_to_status: Seq<u32>,
    pub vulnerable_to_status: Seq<u32>,
    pub drops: Seq<u32>,
    pub skills: Seq<u32>,
}

impl View for AdminMonster {
    type V = AdminMonsterView;

    open spec fn view(&self) -> AdminMonsterView {
        AdminMonsterView {
            csrfmiddlewaretoken: self.csrfmiddlewaretoken@,
            id: self.id,
            codex_uri: self.codex_uri@,
            name: self.name@,
            tier: self.tier,
            family: self.family,
            image_name: self.image_name@,
            boss: self.boss,
            hp: self.hp,
            level: self.level,
            notes: self.notes@,
            spawns: self.spawns@,
            weak_to: self.weak_to@,
            resistant_to: self.resistant_to@,
            immune_to: self.immune_to@,
            immune_to_status: self.immune_to_status@,
            vulnerable_to_status: self.vulnerable_to_status@,
            drops: self.drops@,
            skills: self.skills@,
        }
    }
}

/// A monster with every field empty, zero or `false`, but its csrf token.
pub open spec fn empty_monster(csrf: Seq<char>) -> AdminMonsterView {
    AdminMonsterView {
        csrfmiddlewaretoken: csrf,
        id: 0,
        codex_uri: Seq::empty(),
        name: Seq::empty(),
        tier: 0,
        family: None,
        image_name: Seq::empty(),
        boss: false,
        hp: 0,
        level: 0,
        notes: Seq::empty(),
        spawns: Seq::empty(),
        weak_to: Seq::empty(),
        resistant_to: Seq::empty(),
        immune_to: Seq::empty(),
        immune_to_status: Seq::empty(),
        vulnerable_to_status: Seq::empty(),
        drops: Seq::empty(),
        skills: Seq::empty(),
    }
}

impl Default for AdminMonster {
    fn default() -> (r: Self)
        ensures
            r@ == empty_monster(Seq::empty()),
    {
        AdminMonster {
            csrfmiddlewaretoken: String::new(),
            id: 0,
            codex_uri: String::new(),
            name: String::new(),
            tier: 0,
            family: None,
            image_name: String::new(),
            boss: false,
            hp: 0,
            level: 0,
            notes: String::new(),
            spawns: Vec::new(),
            weak_to: Vec::new(),
            resistant_to: Vec::new(),
            immune_to: Vec::new(),
            immune_to_status: Vec::new(),
            vulnerable_to_status: Vec::new(),
            drops: Vec::new(),
            skills: Vec::new(),
        }
    }
}

/// `str::parse::<u32>` of a form value.
pub open spec fn form_u32(value: Seq<char>) -> Result<u32, FormFailure> {
    match spec_parse_int(value, 0, 0xffff_ffff) {
        Ok(x) => Ok(x as u32),
        Err(k) => Err(FormFailure::Int(k)),
    }
}

/// The monster after reading one field of the admin form.
pub open spec fn monster_field(v: AdminMonsterView, key: Seq<char>, value: Seq<char>) -> Result<
    AdminMonsterView,
    FormFailure,
> {
    if key == "codex"@ {
        Ok(AdminMonsterView { codex_uri: value, ..v })
    } else if key == "name"@ {
        Ok(AdminMonsterView { name: value, ..v })
    } else if key == "tier"@ {
        match spec_parse_int(value, 0, 255) {
            Ok(t) => Ok(AdminMonsterView { tier: t as u8, ..v }),
            Err(k) => Err(FormFailure::Int(k)),
        }
    } else if key == "family"@ {
        if value.len() == 0 {
            Ok(AdminMonsterView { family: None, ..v })
        } else {
            match form_u32(value) {
                Ok(f) => Ok(AdminMonsterView { family: Some(f), ..v }),
                Err(e) => Err(e),
            }
        }
    } else if key == "image_name"@ {
        Ok(AdminMonsterView { image_name: value, ..v })
    } else if key == "boss"@ {
        Ok(AdminMonsterView { boss: value == "on"@, ..v })
    } else if key == "level"@ {
        match form_u32(value) {
            Ok(x) => Ok(AdminMonsterView { level: x, ..v }),
            Err(e) => Err(e),
        }
    } else if key == "hp"@ {
        match form_u32(value) {
            Ok(x) => Ok(AdminMonsterView { hp: x, ..v }),
            Err(e) => Err(e),
        }
    } else if key == "notes"@ {
        Ok(AdminMonsterView { notes: value, ..v })
    } else if key == "spawns"@ {
        match form_u32(value) {
            Ok(x) => Ok(AdminMonsterView { spawns: v.spawns.push(x), ..v }),
            Err(e) => Err(e),
        }
    } else if key == "weak_to"@ {
        match form_u32(value) {
            Ok(x) => Ok(AdminMonsterView { weak_to: v.weak_to.push(x), ..v }),
            Err(e) => Err(e),
        }
    } else if key == "resistant_to"@ {
        match form_u32(value) {
            Ok(x) => Ok(AdminMonsterView { resistant_to: v.resistant_to.push(x), ..v }),
            Err(e) => Err(e),
        }
    } else if key == "immune_to"@ {
        match form_u32(value) {
            Ok(x) => Ok(AdminMonsterView { immune_to: v.immune_to.push(x), ..v }),
            Err(e) => Err(e),
        }
    } else if key == "immune_to_status"@ {
        match form_u32(value) {
            Ok(x) => Ok(AdminMonsterView { immune_to_status: v.immune_to_status.push(x), ..v }),
            Err(e) => Err(e),
        }
    } else if key == "vulnerable_to_status"@ {
        match form_u32(value) {
            Ok(x) => Ok(AdminMonsterView { vulnerable_to_status: v.vulnerable_to_status.push(x), ..v }),
            Err(e) => Err(e),
        }
    } else if key == "drops"@ {
        match form_u32(value) {
            Ok(x) => Ok(AdminMonsterView { drops: v.drops.push(x), ..v }),
            Err(e) => Err(e),
        }
    } else if key == "skills"@ {
        match form_u32(value) {
            Ok(x) => Ok(AdminMonsterView { skills: v.skills.push(x), ..v }),
            Err(e) => Err(e),
        }
    } else {
        Err(FormFailure::Extra(key, value))
    }
}

/// The monster after reading the fields of the admin form from index `i` on.
pub open spec fn monster_form(v: AdminMonsterView, fields: Seq<(Seq<char>, Seq<char>)>, i: int) -> Result<
    AdminMonsterView,
    FormFailure,
>
    decreases fields.len() - i,
{
    if i < 0 || i >= fields.len() {
        Ok(v)
    } else {
        match monster_field(v, fields[i].0, fields[i].1) {
            Ok(w) => monster_form(w, fields, i + 1),
            Err(e) => Err(e),
        }
    }
}

/// Reads a form value as a `u32`.
fn read_form_u32(value: &str) -> (r: Result<u32, Error>)
    ensures
        match form_u32(value@) {
            Ok(x) => r == Ok::<u32, Error>(x),
            Err(f) => r matches Err(e) && fails_form(e, f),
        },
{
    match parse_u32(value) {
        Ok(x) => Ok(x),
        Err(k) => Err(int_error(k)),
    }
}

impl AdminMonster {
    /// Read a monster from the fields of its admin form.
    ///
    /// # Errors
    /// Errors when a value cannot be read or a field does not belong to the form.
    pub fn try_from(form: ParsedForm) -> (r: Result<Self, Error>)
        ensures
            match monster_form(empty_monster(form@.1), form@.0, 0) {
                Ok(v) => r matches Ok(m) && m@ == v,
                Err(f) => r matches Err(e) && fails_form(e, f),
            },
    {
        let ghost all = form@.0;
        let mut item = AdminMonster::default();
        item.csrfmiddlewaretoken = form.csrfmiddlewaretoken;
        let ghost start = item@;
        let mut rest = form.fields;
        let ghost mut j: int = 0;
        assert(fields_view(rest@).skip(0) =~= all);
        while rest.len() > 0
            invariant
                0 <= j <= all.len(),
                all == form@.0,
                start == empty_monster(form@.1),
                fields_view(rest@) == all.skip(j),
                monster_form(start, all, 0) == monster_form(item@, all, j),
            decreases rest.len(),
        {
            let ghost before = item@;
            let ghost r0 = rest@;
            let (key, value) = rest.remove(0);
            proof {
                lemma_fields_view_remove_first(r0);
                assert(all.skip(j)[0] == all[j]);
                assert(all.skip(j).skip(1) =~= all.skip(j + 1));
            }
            let k = key.as_str();
            if str_eq(k, "codex") {
                item.codex_uri = value;
            } else if str_eq(k, "name") {
                item.name = value;
            } else if str_eq(k, "tier") {
                match parse_u8(value.as_str()) {
                    Ok(t) => item.tier = t,
                    Err(e) => {
                        return Err(int_error(e));
                    },
                }
            } else if str_eq(k, "family") {
                if value.unicode_len() == 0 {
                    item.family = None;
                } else {
                    match read_form_u32(value.as_str()) {
                        Ok(f) => item.family = Some(f),
                        Err(e) => {
                            return Err(e);
                        },
                    }
                }
            } else if str_eq(k, "image_name") {
                item.image_name = value;
            } else if str_eq(k, "boss") {
                item.boss = str_eq(value.as_str(), "on");
            } else if str_eq(k, "level") {
                match read_form_u32(value.as_str()) {
                    Ok(x) => item.level = x,
                    Err(e) => {
                        return Err(e);
                    },
                }
            } else if str_eq(k, "hp") {
                match read_form_u32(value.as_str()) {
                    Ok(x) => item.hp = x,
                    Err(e) => {
                        return Err(e);
                    },
                }
            } else if str_eq(k, "notes") {
                item.notes = value;
            } else if str_eq(k, "spawns") {
                match read_form_u32(value.as_str()) {
                    Ok(x) => item.spawns.push(x),
                    Err(e) => {
                        return Err(e);
                    },
                }
            } else if str_eq(k, "weak_to") {
                match read_form_u32(value.as_str()) {
                    Ok(x) => item.weak_to.push(x),
                    Err(e) => {
                        return Err(e);
                    },
                }
            } else if str_eq(k, "resistant_to") {
                match read_form_u32(value.as_str()) {
                    Ok(x) => item.resistant_to.push(x),
                    Err(e) => {
                        return Err(e);
                    },
                }
            } else if str_eq(k, "immune_to") {
                match read_form_u32(value.as_str()) {
                    Ok(x) => item.immune_to.push(x),
                    Err(e) => {
                        return Err(e);
                    },
                }
            } else if str_eq(k, "immune_to_status") {
                match read_form_u32(value.as_str()) {
                    Ok(x) => item.immune_to_status.push(x),
                    Err(e) => {
                        return Err(e);
                    },
                }
            } else if str_eq(k, "vulnerable_to_status") {
                match read_form_u32(value.as_str()) {
                    Ok(x) => item.vulnerable_to_status.push(x),
                    Err(e) => {
                        return Err(e);
                    },
                }
            } else if str_eq(k, "drops") {
                match read_form_u32(value.as_str()) {
                    Ok(x) => item.drops.push(x),
                    Err(e) => {
                        return Err(e);
                    },
                }
            } else if str_eq(k, "skills") {
                match read_form_u32(value.as_str()) {
                    Ok(x) => item.skills.push(x),
                    Err(e) => {
                        return Err(e);
                    },
                }
            } else {
                return Err(Kind::ExtraField(key, value).into_err());
            }
            proof {
                assert(monster_field(before, all[j].0, all[j].1) == Ok::<
                    AdminMonsterView,
                    FormFailure,
                >(item@));
                j = j + 1;
            }
        }
        Ok(item)
    }
    /// The fields of the admin form of the monster, in the order the guide expects them.
    pub fn to_form(self) -> (r: ParsedForm)
        ensures
            r@ == (monster_form_fields(self@), self@.csrfmiddlewaretoken),
    {
        let ghost v = self@;
        let mut fields: Vec<(String, String)> = Vec::new();
        push_field(&mut fields, "name", self.name);
        push_field(&mut fields, "codex", self.codex_uri);
        push_field(&mut fields, "tier", unsigned_to_string(self.tier as u64));
        let family = match self.family {
            Some(f) => unsigned_to_string(f as u64),
            None => String::new(),
        };
        push_field(&mut fields, "family", family);
        push_field(&mut fields, "image_name", self.image_name);
        if self.boss {
            push_field(&mut fields, "boss", to_owned("on"));
        }
        push_field(&mut fields, "level", unsigned_to_string(self.level as u64));
        push_field(&mut fields, "hp", unsigned_to_string(self.hp as u64));
        push_field(&mut fields, "notes", self.notes);
        push_ids(&mut fields, "spawns", &self.spawns);
        push_ids(&mut fields, "weak_to", &self.weak_to);
        push_ids(&mut fields, "resistant_to", &self.resistant_to);
        push_ids(&mut fields, "immune_to", &self.immune_to);
        push_ids(&mut fields, "immune_to_status", &self.immune_to_status);
        push_ids(&mut fields, "vulnerable_to_status", &self.vulnerable_to_status);
        push_ids(&mut fields, "drops", &self.drops);
        push_ids(&mut fields, "skills", &self.skills);
        let r = ParsedForm { fields, csrfmiddlewaretoken: self.csrfmiddlewaretoken };
        proof {
            assert(fields_view(r.fields@) =~= monster_form_fields(v));
        }
        r
    }
}

/// The decimal text of an optional id, empty when there is none.
pub open spec fn opt_dec(f: Option<u32>) -> Seq<char> {
    match f {
        Some(x) => spec_dec(x as nat),
        None => Seq::empty(),
    }
}

/// The field `key` set to `on` when `b` holds; no field when it does not.
#[verifier::opaque]
pub open spec fn flag_field(key: Seq<char>, b: bool) -> Seq<(Seq<char>, Seq<char>)> {
    if b {
        seq![(key, "on"@)]
    } else {
        Seq::empty()
    }
}

/// A field `key` for each id of `ids`, with the id in decimal.
pub open spec fn id_fields(key: Seq<char>, ids: Seq<u32>) -> Seq<(Seq<char>, Seq<char>)> {
    ids.map_values(|x: u32| (key, spec_dec(x as nat)))
}

/// The fields of the admin form of a monster, in the order the guide expects them.
pub open spec fn monster_form_fields(v: AdminMonsterView) -> Seq<(Seq<char>, Seq<char>)> {
    seq![
        ("name"@, v.name),
        ("codex"@, v.codex_uri),
        ("tier"@, spec_dec(v.tier as nat)),
        ("family"@, opt_dec(v.family)),
        ("image_name"@, v.image_name),
    ] + (if v.boss {
        seq![("boss"@, "on"@)]
    } else {
        Seq::empty()
    }) + seq![("level"@, spec_dec(v.level as nat)), ("hp"@, spec_dec(v.hp as nat)), ("notes"@, v.notes)]
        + id_fields("spawns"@, v.spawns)
        + id_fields("weak_to"@, v.weak_to)
        + id_fields("resistant_to"@, v.resistant_to)
        + id_fields("immune_to"@, v.immune_to)
        + id_fields("immune_to_status"@, v.immune_to_status)
        + id_fields("vulnerable_to_status"@, v.vulnerable_to_status)
        + id_fields("drops"@, v.drops)
        + id_fields("skills"@, v.skills)
}

/// Appends the field `key` with the value `value`.
pub fn push_field(fields: &mut Vec<(String, String)>, key: &str, value: String)
    ensures
        fields_view(final(fields)@) == fields_view(old(fields)@).push((key@, value@)),
        fields_view(final(fields)@) == fields_view(old(fields)@) + seq![(key@, value@)],
{
    fields.push((to_owned(key), value));
    proof {
        assert(fields_view(fields@) =~= fields_view(old(fields)@).push((key@, value@)));
        assert(fields_view(fields@) =~= fields_view(old(fields)@) + seq![(key@, value@)]);
    }
}

/// Appends the field `key` set to `on` when `on` holds.
pub fn push_flag(fields: &mut Vec<(String, String)>, key: &str, on: bool)
    ensures
        fields_view(final(fields)@) == fields_view(old(fields)@) + flag_field(key@, on),
{
    proof {
        reveal(flag_field);
    }
    if on {
        push_field(fields, key, to_owned("on"));
        assert(fields_view(fields@) =~= fields_view(old(fields)@) + flag_field(key@, on));
    } else {
        assert(fields_view(fields@) =~= fields_view(old(fields)@) + flag_field(key@, on));
    }
}

/// Appends a field `key` for each id of `ids`.
pub fn push_ids(fields: &mut Vec<(String, String)>, key: &str, ids: &Vec<u32>)
    ensures
        fields_view(final(fields)@) == fields_view(old(fields)@) + id_fields(key@, ids@),
{
    let mut i: usize = 0;
    while i < ids.len()
        invariant
            i <= ids@.len(),
            fields_view(fields@) == fields_view(old(fields)@) + id_fields(key@, ids@.take(i as int)),
        decreases ids.len() - i,
    {
        let ghost before = fields_view(fields@);
        fields.push((to_owned(key), unsigned_to_string(ids[i] as u64)));
        proof {
            assert(fields_view(fields@) =~= before.push((key@, spec_dec(ids@[i as int] as nat))));
            assert(id_fields(key@, ids@.take(i + 1)) =~= id_fields(key@, ids@.take(i as int)).push(
                (key@, spec_dec(ids@[i as int] as nat)),
            ));
        }
        i = i + 1;
    }
    assert(ids@.take(ids@.len() as int) =~= ids@);
}

/// The ids of `spawns`, in order.
pub open spec fn spawn_ids(spawns: Seq<Spawn>) -> Seq<u32> {
    spawns.map_values(|s: Spawn| s.id)
}

/// The first spawn of the guide with the id `id`.
pub open spec fn spawn_of(guide: Seq<Spawn>, id: u32) -> Option<Spawn> {
    match first_id(spawn_ids(guide), id) {
        Some(i) => Some(guide[i]),
        None => None,
    }
}

/// Which spawns mark a raid.
pub enum RaidSpawn {
    /// A kingdom raid or a world raid.
    Any,
    /// A world raid, year-round or not.
    World,
    /// A kingdom raid.
    Kingdom,
}

/// The spawn named `n` marks a raid of the kind `k`.
pub open spec fn is_raid_name(k: RaidSpawn, n: Seq<char>) -> bool {
    match k {
        RaidSpawn::Any => n == "Kingdom Raid"@ || n == "World Raid"@ || n == "World Raid year-round"@,
        RaidSpawn::World => n == "World Raid"@ || n == "World Raid year-round"@,
        RaidSpawn::Kingdom => n == "Kingdom Raid"@,
    }
}

/// The spawn `id` refers to marks a raid of the kind `k`.
pub open spec fn spawn_is_raid(k: RaidSpawn, guide: Seq<Spawn>, id: u32) -> bool {
    match spawn_of(guide, id) {
        Some(s) => is_raid_name(k, s.name@),
        None => false,
    }
}

/// One of the spawns `ids` refer to marks a raid of the kind `k`.
pub open spec fn has_raid_spawn(k: RaidSpawn, ids: Seq<u32>, guide: Seq<Spawn>) -> bool {
    exists|i: int| 0 <= i < ids.len() && #[trigger] spawn_is_raid(k, guide, ids[i])
}

/// The spawn `id` refers to, if any, can have its event prefix cut out.
pub open spec fn spawn_event_ok(guide: Seq<Spawn>, id: u32) -> bool {
    match spawn_of(guide, id) {
        Some(s) => event_name_ok(s.name@),
        None => true,
    }
}

/// The first spawn of the guide with the id `id`.
fn find_spawn<'a>(guide: &'a [Spawn], id: u32) -> (r: Option<&'a Spawn>)
    ensures
        match spawn_of(guide@, id) {
            Some(s) => r matches Some(x) && *x == s,
            None => r is None,
        },
{
    let ghost keys = spawn_ids(guide@);
    let mut i: usize = 0;
    while i < guide.len()
        invariant
            keys == spawn_ids(guide@),
            i <= guide@.len(),
            first_id(keys, id) == first_id_from(keys, id, i as int),
        decreases guide.len() - i,
    {
        if guide[i].id == id {
            return Some(&guide[i]);
        }
        i = i + 1;
    }
    None
}

/// Whether the spawn named `n` marks a raid of the kind `k`.
fn raid_name(k: &RaidSpawn, n: &str) -> (r: bool)
    ensures
        r == is_raid_name(*k, n@),
{
    match k {
        RaidSpawn::Any => str_eq(n, "Kingdom Raid") || str_eq(n, "World Raid") || str_eq(
            n,
            "World Raid year-round",
        ),
        RaidSpawn::World => str_eq(n, "World Raid") || str_eq(n, "World Raid year-round"),
        RaidSpawn::Kingdom => str_eq(n, "Kingdom Raid"),
    }
}

/// Whether one of the spawns `ids` refer to marks a raid of the kind `k`.
fn any_raid_spawn(k: RaidSpawn, ids: &Vec<u32>, guide: &[Spawn]) -> (r: bool)
    ensures
        r == has_raid_spawn(k, ids@, guide@),
{
    let mut i: usize = 0;
    while i < ids.len()
        invariant
            i <= ids@.len(),
            forall|j: int| 0 <= j < i ==> !#[trigger] spawn_is_raid(k, guide@, ids@[j]),
        decreases ids.len() - i,
    {
        match find_spawn(guide, ids[i]) {
            Some(s) => {
                if raid_name(&k, s.name.as_str()) {
                    assert(spawn_is_raid(k, guide@, ids@[i as int]));
                    return true;
                }
            },
            None => {},
        }
        i = i + 1;
    }
    false
}

/// The event a spawn named `n` stands for, without its `Event: ` or `Past Event: `
/// prefix.
pub open spec fn event_of_name(n: Seq<char>) -> Option<Seq<char>> {
    if seq_starts_with(n, "Event:"@) {
        Some(n.subrange(7, n.len() as int))
    } else if seq_starts_with(n, "Past Event:"@) {
        Some(n.subrange(12, n.len() as int))
    } else {
        None
    }
}

/// Cutting the prefix out of an event spawn named `n` does not panic: a one-byte
/// character follows the prefix.
pub open spec fn event_name_ok(n: Seq<char>) -> bool {
    &&& seq_starts_with(n, "Event:"@) ==> n.len() > 6 && crate::text::is_ascii_char(n[6])
    &&& seq_starts_with(n, "Past Event:"@) ==> n.len() > 11 && crate::text::is_ascii_char(n[11])
}

/// The events of the spawns `ids` refer to, in order.
pub open spec fn events_of(ids: Seq<u32>, guide: Seq<Spawn>) -> Seq<Seq<char>>
    decreases ids.len(),
{
    if ids.len() == 0 {
        Seq::empty()
    } else {
        let prev = events_of(ids.drop_last(), guide);
        match spawn_of(guide, ids.last()) {
            Some(s) => match event_of_name(s.name@) {
                Some(e) => prev.push(e),
                None => prev,
            },
            None => prev,
        }
    }
}

/// The ids of the spawns `ids` refer to that are events, in order.
pub open spec fn event_ids_of(ids: Seq<u32>, guide: Seq<Spawn>) -> Seq<u32>
    decreases ids.len(),
{
    if ids.len() == 0 {
        Seq::empty()
    } else {
        let prev = event_ids_of(ids.drop_last(), guide);
        match spawn_of(guide, ids.last()) {
            Some(s) => if seq_starts_with(s.name@, "Event:"@) || seq_starts_with(
                s.name@,
                "Past Event:"@,
            ) {
                prev.push(s.id)
            } else {
                prev
            },
            None => prev,
        }
    }
}

/// How many of the spawns `ids` refer to are named `name`.
pub open spec fn count_named(ids: Seq<u32>, guide: Seq<Spawn>, name: Seq<char>) -> nat
    decreases ids.len(),
{
    if ids.len() == 0 {
        0
    } else {
        count_named(ids.drop_last(), guide, name) + if spawn_of(guide, ids.last()) matches Some(s)
            && s.name@ == name {
            1nat
        } else {
            0nat
        }
    }
}

/// The raid spawns among those `ids` refer to, sorted: the kingdom raids, then the
/// world raids.
pub open spec fn raid_spawns_of(ids: Seq<u32>, guide: Seq<Spawn>) -> Seq<Seq<char>> {
    repeated(count_named(ids, guide, "Kingdom Raid"@), "Kingdom Raid"@) + repeated(
        count_named(ids, guide, "World Raid"@),
        "World Raid"@,
    )
}

/// `n` times the text `s`.
pub open spec fn repeated(n: nat, s: Seq<char>) -> Seq<Seq<char>> {
    Seq::new(n, |i: int| s)
}

/// The characters of each string of `v`.
pub open spec fn str_views(v: Seq<&str>) -> Seq<Seq<char>> {
    v.map_values(|s: &str| s@)
}

/// The name the codex likely gives the monster, before any note is cut out.
pub open spec fn codex_name_base(m: AdminMonsterView) -> Seq<char> {
    if !m.boss {
        if seq_starts_with(m.name, "Arisen "@) {
            m.name.subrange(7, m.name.len() as int) + " (Arisen)"@
        } else {
            m.name
        }
    } else if m.name == "Arisen Kin of Kerberos"@ {
        "Kin of Kerberos (Arisen)"@
    } else {
        m.name
    }
}

impl AdminMonster {
    /// Returns true if the monster is a regular one (not a boss, nor a raid).
    pub fn is_regular_monster(&self) -> (r: bool)
        ensures
            r == !self.boss,
    {
        !self.boss
    }

    /// Returns true if the monster is a boss (not a regular monster, nor a raid).
    pub fn is_boss(&self, guide_spawns: &[Spawn]) -> (r: bool)
        ensures
            r == (self.boss && !has_raid_spawn(RaidSpawn::Any, self.spawns@, guide_spawns@)),
    {
        self.boss && !any_raid_spawn(RaidSpawn::Any, &self.spawns, guide_spawns)
    }

    /// Returns true if the monster is a raid (not a regular monster, nor a boss).
    pub fn is_raid(&self, guide_spawns: &[Spawn]) -> (r: bool)
        ensures
            r == (self.boss && has_raid_spawn(RaidSpawn::Any, self.spawns@, guide_spawns@)),
    {
        self.boss && any_raid_spawn(RaidSpawn::Any, &self.spawns, guide_spawns)
    }

    /// Returns true if the monster is a world raid.
    pub fn is_world_raid(&self, guide_spawns: &[Spawn]) -> (r: bool)
        ensures
            r == (self.boss && has_raid_spawn(RaidSpawn::World, self.spawns@, guide_spawns@)),
    {
        self.boss && any_raid_spawn(RaidSpawn::World, &self.spawns, guide_spawns)
    }

    /// Returns true if the monster is a kingdom raid.
    pub fn is_kingdom_raid(&self, guide_spawns: &[Spawn]) -> (r: bool)
        ensures
            r == (self.boss && has_raid_spawn(RaidSpawn::Kingdom, self.spawns@, guide_spawns@)),
    {
        self.boss && any_raid_spawn(RaidSpawn::Kingdom, &self.spawns, guide_spawns)
    }

    /// Try to guess what the codex name for the monster is.
    pub fn codex_name(&self) -> (r: String)
        requires
            sanitize_ok(codex_name_base(self@)),
        ensures
            r@ == spec_sanitize_guide_name(codex_name_base(self@)),
    {
        proof {
            reveal_strlit("Arisen ");
        }
        let monster_name = if self.is_regular_monster() {
            match strip_prefix(self.name.as_str(), "Arisen ") {
                Some(stripped) => concat2(stripped, " (Arisen)"),
                None => self.name.clone(),
            }
        } else if str_eq(self.name.as_str(), "Arisen Kin of Kerberos") {
            to_owned("Kin of Kerberos (Arisen)")
        } else {
            self.name.clone()
        };
        to_owned(sanitize_guide_name(monster_name.as_str()))
    }

    /// List the events to which the monster belongs.
    /// The events returned won't have the `Event:` or `Past Event` prefix.
    pub fn get_events<'a>(&self, guide_spawns: &'a [Spawn]) -> (r: Vec<&'a str>)
        requires
            forall|i: int|
                0 <= i < self.spawns@.len() ==> #[trigger] spawn_event_ok(
                    guide_spawns@,
                    self.spawns@[i],
                ),
        ensures
            str_views(r@) == events_of(self.spawns@, guide_spawns@),
    {
        let mut r: Vec<&'a str> = Vec::new();
        let mut i: usize = 0;
        while i < self.spawns.len()
            invariant
                i <= self.spawns@.len(),
                forall|k: int|
                    0 <= k < self.spawns@.len() ==> #[trigger] spawn_event_ok(
                        guide_spawns@,
                        self.spawns@[k],
                    ),
                str_views(r@) == events_of(self.spawns@.take(i as int), guide_spawns@),
            decreases self.spawns.len() - i,
        {
            let ghost before = r@;
            proof {
                assert(self.spawns@.take(i + 1).drop_last() =~= self.spawns@.take(i as int));
                assert(self.spawns@.take(i + 1).last() == self.spawns@[i as int]);
            }
            match find_spawn(guide_spawns, self.spawns[i]) {
                Some(spawn) => {
                    let name = spawn.name.as_str();
                    let n = name.unicode_len();
                    assert(spawn_event_ok(guide_spawns@, self.spawns@[i as int]));
                    if starts_with(name, "Event:") {
                        proof {
                            reveal_strlit("Event:");
                        }
                        r.push(name.substring_char(7, n));
                    } else if starts_with(name, "Past Event:") {
                        proof {
                            reveal_strlit("Past Event:");
                        }
                        r.push(name.substring_char(12, n));
                    }
                },
                None => {},
            }
            proof {
                assert(str_views(r@) =~= events_of(self.spawns@.take(i + 1), guide_spawns@));
            }
            i = i + 1;
        }
        assert(self.spawns@.take(self.spawns@.len() as int) =~= self.spawns@);
        r
    }

    /// List the events IDs to which the monster belongs.
    pub fn get_event_ids(&self, guide_spawns: &[Spawn]) -> (r: Vec<u32>)
        ensures
            r@ == event_ids_of(self.spawns@, guide_spawns@),
    {
        let mut r: Vec<u32> = Vec::new();
        let mut i: usize = 0;
        while i < self.spawns.len()
            invariant
                i <= self.spawns@.len(),
                r@ == event_ids_of(self.spawns@.take(i as int), guide_spawns@),
            decreases self.spawns.len() - i,
        {
            proof {
                assert(self.spawns@.take(i + 1).drop_last() =~= self.spawns@.take(i as int));
                assert(self.spawns@.take(i + 1).last() == self.spawns@[i as int]);
            }
            match find_spawn(guide_spawns, self.spawns[i]) {
                Some(spawn) => {
                    if starts_with(spawn.name.as_str(), "Event:") || starts_with(
                        spawn.name.as_str(),
                        "Past Event:",
                    ) {
                        r.push(spawn.id);
                    }
                },
                None => {},
            }
            i = i + 1;
        }
        assert(self.spawns@.take(self.spawns@.len() as int) =~= self.spawns@);
        r
    }

    /// List the raid spawns associated to the monster.
    /// The spawns are either "Kingdom Raid" or "World Raid" (may be inclusive).
    pub fn get_raid_spawns<'a>(&self, guide_spawns: &'a [Spawn]) -> (r: Vec<&'a str>)
        requires
            forall|i: int|
                0 <= i < self.spawns@.len() ==> (#[trigger] spawn_of(
                    guide_spawns@,
                    self.spawns@[i],
                )) is Some,
        ensures
            str_views(r@) == raid_spawns_of(self.spawns@, guide_spawns@),
    {
        let mut kingdom: usize = 0;
        let mut world: usize = 0;
        let mut i: usize = 0;
        while i < self.spawns.len()
            invariant
                i <= self.spawns@.len(),
                kingdom == count_named(self.spawns@.take(i as int), guide_spawns@, "Kingdom Raid"@),
                world == count_named(self.spawns@.take(i as int), guide_spawns@, "World Raid"@),
                kingdom <= i,
                world <= i,
            decreases self.spawns.len() - i,
        {
            proof {
                assert(self.spawns@.take(i + 1).drop_last() =~= self.spawns@.take(i as int));
                assert(self.spawns@.take(i + 1).last() == self.spawns@[i as int]);
                reveal_strlit("Kingdom Raid");
                reveal_strlit("World Raid");
                assert("Kingdom Raid"@.len() != "World Raid"@.len());
            }
            match find_spawn(guide_spawns, self.spawns[i]) {
                Some(spawn) => {
                    if str_eq(spawn.name.as_str(), "Kingdom Raid") {
                        kingdom = kingdom + 1;
                    } else if str_eq(spawn.name.as_str(), "World Raid") {
                        world = world + 1;
                    }
                },
                None => {},
            }
            i = i + 1;
        }
        assert(self.spawns@.take(self.spawns@.len() as int) =~= self.spawns@);
        let mut r: Vec<&'a str> = Vec::new();
        let mut k: usize = 0;
        while k < kingdom
            invariant
                k <= kingdom,
                str_views(r@) == repeated(k as nat, "Kingdom Raid"@),
            decreases kingdom - k,
        {
            let ghost before = r@;
            r.push("Kingdom Raid");
            proof {
                assert(str_views(r@) =~= str_views(before).push("Kingdom Raid"@));
                assert(repeated(k as nat, "Kingdom Raid"@).push("Kingdom Raid"@) =~= repeated(
                    (k + 1) as nat,
                    "Kingdom Raid"@,
                ));
            }
            k = k + 1;
        }
        let ghost kings = str_views(r@);
        let mut w: usize = 0;
        while w < world
            invariant
                w <= world,
                str_views(r@) == kings + repeated(w as nat, "World Raid"@),
            decreases world - w,
        {
            let ghost before = r@;
            r.push("World Raid");
            proof {
                assert(str_views(r@) =~= str_views(before).push("World Raid"@));
                assert((kings + repeated(w as nat, "World Raid"@)).push("World Raid"@) =~= kings
                    + repeated((w + 1) as nat, "World Raid"@));
            }
            w = w + 1;
        }
        r
    }
}

/// A guide monster is exactly one of a regular monster, a boss and a raid; a world
/// raid and a kingdom raid are raids, and a raid is a world raid or a kingdom raid.
pub proof fn law_monster_categories(boss: bool, ids: Seq<u32>, guide: Seq<Spawn>)
    ensures
        !boss || (boss && !has_raid_spawn(RaidSpawn::Any, ids, guide)) || (boss && has_raid_spawn(
            RaidSpawn::Any,
            ids,
            guide,
        )),
        !(!boss && boss),
        !((boss && !has_raid_spawn(RaidSpawn::Any, ids, guide)) && (boss && has_raid_spawn(
            RaidSpawn::Any,
            ids,
            guide,
        ))),
        has_raid_spawn(RaidSpawn::World, ids, guide) ==> has_raid_spawn(RaidSpawn::Any, ids, guide),
        has_raid_spawn(RaidSpawn::Kingdom, ids, guide) ==> has_raid_spawn(RaidSpawn::Any, ids, guide),
        has_raid_spawn(RaidSpawn::Any, ids, guide) ==> has_raid_spawn(RaidSpawn::World, ids, guide)
            || has_raid_spawn(RaidSpawn::Kingdom, ids, guide),
{
    if has_raid_spawn(RaidSpawn::World, ids, guide) {
        let i = choose|i: int|
            0 <= i < ids.len() && #[trigger] spawn_is_raid(RaidSpawn::World, guide, ids[i]);
        assert(spawn_is_raid(RaidSpawn::Any, guide, ids[i]));
    }
    if has_raid_spawn(RaidSpawn::Kingdom, ids, guide) {
        let i = choose|i: int|
            0 <= i < ids.len() && #[trigger] spawn_is_raid(RaidSpawn::Kingdom, guide, ids[i]);
        assert(spawn_is_raid(RaidSpawn::Any, guide, ids[i]));
    }
    if has_raid_spawn(RaidSpawn::Any, ids, guide) {
        let i = choose|i: int|
            0 <= i < ids.len() && #[trigger] spawn_is_raid(RaidSpawn::Any, guide, ids[i]);
        let s = spawn_of(guide, ids[i]).unwrap();
        if s.name@ == "Kingdom Raid"@ {
            assert(spawn_is_raid(RaidSpawn::Kingdom, guide, ids[i]));
        } else {
            assert(spawn_is_raid(RaidSpawn::World, guide, ids[i]));
        }
    }
}

/// The admin monsters' ids, in order.
pub open spec fn monster_ids(v: Seq<AdminMonster>) -> Seq<u32> {
    v.map_values(|m: AdminMonster| m.id)
}

/// The admin monsters' codex uris, in order.
pub open spec fn monster_uris(v: Seq<AdminMonster>) -> Seq<Seq<char>> {
    v.map_values(|m: AdminMonster| m.codex_uri@)
}

/// The first admin monster with the id `id`.
pub open spec fn find_admin_monster(v: Seq<AdminMonster>, id: u32) -> Option<AdminMonster> {
    match first_id(monster_ids(v), id) {
        Some(i) => Some(v[i]),
        None => None,
    }
}

/// The first admin monster with the codex uri `uri`.
pub open spec fn find_admin_monster_by_uri(v: Seq<AdminMonster>, uri: Seq<char>) -> Option<AdminMonster> {
    match first_match(monster_uris(v), uri) {
        Some(i) => Some(v[i]),
        None => None,
    }
}

/// Collection of monsters from the guide's admin view.
#[derive(Clone)]
pub struct AdminMonsters {
    /// Monsters from the guide's admin view.
    pub monsters: Vec<AdminMonster>,
}

impl<'a> AdminMonsters {
    /// Find the monster with the given id.
    pub fn find_by_id(&'a self, needle: u32) -> (r: Option<&'a AdminMonster>)
        ensures
            match find_admin_monster(self.monsters@, needle) {
                Some(m) => r matches Some(x) && *x == m,
                None => r is None,
            },
    {
        let ghost keys = monster_ids(self.monsters@);
        let mut i: usize = 0;
        while i < self.monsters.len()
            invariant
                keys == monster_ids(self.monsters@),
                i <= self.monsters@.len(),
                first_id(keys, needle) == first_id_from(keys, needle, i as int),
            decreases self.monsters.len() - i,
        {
            if self.monsters[i].id == needle {
                return Some(&self.monsters[i]);
            }
            i = i + 1;
        }
        None
    }

    /// Find the monster with the given id
    /// If there is no match, return an `Err`.
    pub fn get_by_id(&'a self, needle: u32) -> (r: Result<&'a AdminMonster, Error>)
        ensures
            match find_admin_monster(self.monsters@, needle) {
                Some(m) => r matches Ok(x) && *x == m,
                None => r matches Err(e) && is_misc(
                    e,
                    "No match for admin monster with id "@ + spec_dec(needle as nat),
                ),
            },
    {
        match self.find_by_id(needle) {
            Some(x) => Ok(x),
            None => Err(
                misc(
                    concat2(
                        "No match for admin monster with id ",
                        unsigned_to_string(needle as u64).as_str(),
                    ),
                ),
            ),
        }
    }

    /// Find the monster with the given codex uri.
    pub fn find_by_uri(&'a self, needle: &str) -> (r: Option<&'a AdminMonster>)
        ensures
            match find_admin_monster_by_uri(self.monsters@, needle@) {
                Some(m) => r matches Some(x) && *x == m,
                None => r is None,
            },
    {
        let ghost keys = monster_uris(self.monsters@);
        let mut i: usize = 0;
        while i < self.monsters.len()
            invariant
                keys == monster_uris(self.monsters@),
                i <= self.monsters@.len(),
                first_match(keys, needle@) == first_match_from(keys, needle@, i as int),
            decreases self.monsters.len() - i,
        {
            if str_eq(self.monsters[i].codex_uri.as_str(), needle) {
                return Some(&self.monsters[i]);
            }
            i = i + 1;
        }
        None
    }

    /// Find the monster with the given codex uri.
    /// If there is no match, return an `Err`.
    pub fn get_by_uri(&'a self, needle: &str) -> (r: Result<&'a AdminMonster, Error>)
        ensures
            match find_admin_monster_by_uri(self.monsters@, needle@) {
                Some(m) => r matches Ok(x) && *x == m,
                None => r matches Err(e) && is_misc(
                    e,
                    "No match for admin monster with codex_uri '"@ + needle@ + "'"@,
                ),
            },
    {
        match self.find_by_uri(needle) {
            Some(x) => Ok(x),
            None => Err(misc(concat3("No match for admin monster with codex_uri '", needle, "'"))),
        }
    }
}

/// The monster with `ids` appended to the list the form field `key` fills.
pub open spec fn append_ids(w: AdminMonsterView, key: Seq<char>, ids: Seq<u32>) -> AdminMonsterView {
    if key == "spawns"@ {
        AdminMonsterView { spawns: w.spawns + ids, ..w }
    }     else if key == "weak_to"@ {
        AdminMonsterView { weak_to: w.weak_to + ids, ..w }
    }     else if key == "resistant_to"@ {
        AdminMonsterView { resistant_to: w.resistant_to + ids, ..w }
    }     else if key == "immune_to"@ {
        AdminMonsterView { immune_to: w.immune_to + ids, ..w }
    }     else if key == "immune_to_status"@ {
        AdminMonsterView { immune_to_status: w.immune_to_status + ids, ..w }
    }     else if key == "vulnerable_to_status"@ {
        AdminMonsterView { vulnerable_to_status: w.vulnerable_to_status + ids, ..w }
    }     else if key == "drops"@ {
        AdminMonsterView { drops: w.drops + ids, ..w }
    }     else if key == "skills"@ {
        AdminMonsterView { skills: w.skills + ids, ..w }
    } else {
        w
    }
}

/// The form fields whose values are lists of ids.
pub open spec fn is_list_key(key: Seq<char>) -> bool {
    key == "spawns"@ || key == "weak_to"@ || key == "resistant_to"@ || key == "immune_to"@ || key == "immune_to_status"@ || key == "vulnerable_to_status"@ || key == "drops"@ || key == "skills"@
}


/// The names of the fields of the admin form of a monster are distinct.
proof fn lemma_monster_keys_distinct()
    ensures
        "codex"@ != "name"@,
        "codex"@ != "tier"@,
        "codex"@ != "family"@,
        "codex"@ != "image_name"@,
        "codex"@ != "boss"@,
        "codex"@ != "level"@,
        "codex"@ != "hp"@,
        "codex"@ != "notes"@,
        "codex"@ != "spawns"@,
        "codex"@ != "weak_to"@,
        "codex"@ != "resistant_to"@,
        "codex"@ != "immune_to"@,
        "codex"@ != "immune_to_status"@,
        "codex"@ != "vulnerable_to_status"@,
        "codex"@ != "drops"@,
        "codex"@ != "skills"@,
        "name"@ != "tier"@,
        "name"@ != "family"@,
        "name"@ != "image_name"@,
        "name"@ != "boss"@,
        "name"@ != "level"@,
        "name"@ != "hp"@,
        "name"@ != "notes"@,
        "name"@ != "spawns"@,
        "name"@ != "weak_to"@,
        "name"@ != "resistant_to"@,
        "name"@ != "immune_to"@,
        "name"@ != "immune_to_status"@,
        "name"@ != "vulnerable_to_status"@,
        "name"@ != "drops"@,
        "name"@ != "skills"@,
        "tier"@ != "family"@,
        "tier"@ != "image_name"@,
        "tier"@ != "boss"@,
        "tier"@ != "level"@,
        "tier"@ != "hp"@,
        "tier"@ != "notes"@,
        "tier"@ != "spawns"@,
        "tier"@ != "weak_to"@,
        "tier"@ != "resistant_to"@,
        "tier"@ != "immune_to"@,
        "tier"@ != "immune_to_status"@,
        "tier"@ != "vulnerable_to_status"@,
        "tier"@ != "drops"@,
        "tier"@ != "skills"@,
        "family"@ != "image_name"@,
        "family"@ != "boss"@,
        "family"@ != "level"@,
        "family"@ != "hp"@,
        "family"@ != "notes"@,
        "family"@ != "spawns"@,
        "family"@ != "weak_to"@,
        "family"@ != "resistant_to"@,
        "family"@ != "immune_to"@,
        "family"@ != "immune_to_status"@,
        "family"@ != "vulnerable_to_status"@,
        "family"@ != "drops"@,
        "family"@ != "skills"@,
        "image_name"@ != "boss"@,
        "image_name"@ != "level"@,
        "image_name"@ != "hp"@,
        "image_name"@ != "notes"@,
        "image_name"@ != "spawns"@,
        "image_name"@ != "weak_to"@,
        "image_name"@ != "resistant_to"@,
        "image_name"@ != "immune_to"@,
        "image_name"@ != "immune_to_status"@,
        "image_name"@ != "vulnerable_to_status"@,
        "image_name"@ != "drops"@,
        "image_name"@ != "skills"@,
        "boss"@ != "level"@,
        "boss"@ != "hp"@,
        "boss"@ != "notes"@,
        "boss"@ != "spawns"@,
        "boss"@ != "weak_to"@,
        "boss"@ != "resistant_to"@,
        "boss"@ != "immune_to"@,
        "boss"@ != "immune_to_status"@,
        "boss"@ != "vulnerable_to_status"@,
        "boss"@ != "drops"@,
        "boss"@ != "skills"@,
        "level"@ != "hp"@,
        "level"@ != "notes"@,
        "level"@ != "spawns"@,
        "level"@ != "weak_to"@,
        "level"@ != "resistant_to"@,
        "level"@ != "immune_to"@,
        "level"@ != "immune_to_status"@,
        "level"@ != "vulnerable_to_status"@,
        "level"@ != "drops"@,
        "level"@ != "skills"@,
        "hp"@ != "notes"@,
        "hp"@ != "spawns"@,
        "hp"@ != "weak_to"@,
        "hp"@ != "resistant_to"@,
        "hp"@ != "immune_to"@,
        "hp"@ != "immune_to_status"@,
        "hp"@ != "vulnerable_to_status"@,
        "hp"@ != "drops"@,
        "hp"@ != "skills"@,
        "notes"@ != "spawns"@,
        "notes"@ != "weak_to"@,
        "notes"@ != "resistant_to"@,
        "notes"@ != "immune_to"@,
        "notes"@ != "immune_to_status"@,
        "notes"@ != "vulnerable_to_status"@,
        "notes"@ != "drops"@,
        "notes"@ != "skills"@,
        "spawns"@ != "weak_to"@,
        "spawns"@ != "resistant_to"@,
        "spawns"@ != "immune_to"@,
        "spawns"@ != "immune_to_status"@,
        "spawns"@ != "vulnerable_to_status"@,
        "spawns"@ != "drops"@,
        "spawns"@ != "skills"@,
        "weak_to"@ != "resistant_to"@,
        "weak_to"@ != "immune_to"@,
        "weak_to"@ != "immune_to_status"@,
        "weak_to"@ != "vulnerable_to_status"@,
        "weak_to"@ != "drops"@,
        "weak_to"@ != "skills"@,
        "resistant_to"@ != "immune_to"@,
        "resistant_to"@ != "immune_to_status"@,
        "resistant_to"@ != "vulnerable_to_status"@,
        "resistant_to"@ != "drops"@,
        "resistant_to"@ != "skills"@,
        "immune_to"@ != "immune_to_status"@,
        "immune_to"@ != "vulnerable_to_status"@,
        "immune_to"@ != "drops"@,
        "immune_to"@ != "skills"@,
        "immune_to_status"@ != "vulnerable_to_status"@,
        "immune_to_status"@ != "drops"@,
        "immune_to_status"@ != "skills"@,
        "vulnerable_to_status"@ != "drops"@,
        "vulnerable_to_status"@ != "skills"@,
        "drops"@ != "skills"@,
{
    reveal_strlit("codex");
    reveal_strlit("name");
    reveal_strlit("tier");
    reveal_strlit("family");
    reveal_strlit("image_name");
    reveal_strlit("boss");
    reveal_strlit("level");
    reveal_strlit("hp");
    reveal_strlit("notes");
    reveal_strlit("spawns");
    reveal_strlit("weak_to");
    reveal_strlit("resistant_to");
    reveal_strlit("immune_to");
    reveal_strlit("immune_to_status");
    reveal_strlit("vulnerable_to_status");
    reveal_strlit("drops");
    reveal_strlit("skills");
    assert("codex"@.len() == 5);
    assert("name"@.len() == 4);
    assert("tier"@.len() == 4);
    assert("family"@.len() == 6);
    assert("image_name"@.len() == 10);
    assert("boss"@.len() == 4);
    assert("level"@.len() == 5);
    assert("hp"@.len() == 2);
    assert("notes"@.len() == 5);
    assert("spawns"@.len() == 6);
    assert("weak_to"@.len() == 7);
    assert("resistant_to"@.len() == 12);
    assert("immune_to"@.len() == 9);
    assert("immune_to_status"@.len() == 16);
    assert("vulnerable_to_status"@.len() == 20);
    assert("drops"@.len() == 5);
    assert("skills"@.len() == 6);
    assert("codex"@[0] != "level"@[0]);
    assert("codex"@[0] != "notes"@[0]);
    assert("codex"@[0] != "drops"@[0]);
    assert("name"@[0] != "tier"@[0]);
    assert("name"@[0] != "boss"@[0]);
    assert("tier"@[0] != "boss"@[0]);
    assert("family"@[0] != "spawns"@[0]);
    assert("family"@[0] != "skills"@[0]);
    assert("level"@[0] != "notes"@[0]);
    assert("level"@[0] != "drops"@[0]);
    assert("notes"@[0] != "drops"@[0]);
    assert("spawns"@[1] != "skills"@[1]);
}

/// Reading the fields `b` after the fields `a` reads `a`, then `b`.
proof fn lemma_monster_form_shift(w: AdminMonsterView, a: Seq<(Seq<char>, Seq<char>)>, b: Seq<(Seq<char>, Seq<char>)>, j: int)
    requires
        0 <= j <= b.len(),
    ensures
        monster_form(w, a + b, a.len() + j) == monster_form(w, b, j),
    decreases b.len() - j,
{
    if j < b.len() {
        assert((a + b)[a.len() + j] == b[j]);
        match monster_field(w, b[j].0, b[j].1) {
            Ok(x) => lemma_monster_form_shift(x, a, b, j + 1),
            Err(_) => {},
        }
    }
}

/// Reading the fields of `a + b` from index `i` of `a` on.
proof fn lemma_monster_form_concat_from(w: AdminMonsterView, a: Seq<(Seq<char>, Seq<char>)>, b: Seq<(Seq<char>, Seq<char>)>, i: int)
    requires
        0 <= i <= a.len(),
    ensures
        monster_form(w, a + b, i) == match monster_form(w, a, i) {
            Ok(x) => monster_form(x, b, 0),
            Err(e) => Err(e),
        },
    decreases a.len() - i,
{
    if i == a.len() {
        lemma_monster_form_shift(w, a, b, 0);
    } else {
        assert((a + b)[i] == a[i]);
        match monster_field(w, a[i].0, a[i].1) {
            Ok(x) => lemma_monster_form_concat_from(x, a, b, i + 1),
            Err(_) => {},
        }
    }
}

/// Reading the fields of `a + b` reads those of `a`, then those of `b`.
proof fn lemma_monster_form_concat(w: AdminMonsterView, a: Seq<(Seq<char>, Seq<char>)>, b: Seq<(Seq<char>, Seq<char>)>)
    ensures
        monster_form(w, a + b, 0) == match monster_form(w, a, 0) {
            Ok(x) => monster_form(x, b, 0),
            Err(e) => Err(e),
        },
{
    lemma_monster_form_concat_from(w, a, b, 0);
}

/// Reading the id fields of a list appends the ids to that list.
proof fn lemma_monster_form_ids(w: AdminMonsterView, key: Seq<char>, ids: Seq<u32>)
    requires
        is_list_key(key),
    ensures
        monster_form(w, id_fields(key, ids), 0) == Ok::<AdminMonsterView, FormFailure>(append_ids(w, key, ids)),
    decreases ids.len(),
{
    lemma_monster_keys_distinct();
    reveal_strlit("codex");
    reveal_strlit("name");
    reveal_strlit("tier");
    reveal_strlit("family");
    reveal_strlit("image_name");
    reveal_strlit("boss");
    reveal_strlit("level");
    reveal_strlit("hp");
    reveal_strlit("notes");
    reveal_strlit("spawns");
    reveal_strlit("weak_to");
    reveal_strlit("resistant_to");
    reveal_strlit("immune_to");
    reveal_strlit("immune_to_status");
    reveal_strlit("vulnerable_to_status");
    reveal_strlit("drops");
    reveal_strlit("skills");
    reveal_strlit("on");
    if ids.len() == 0 {
        assert(id_fields(key, ids) =~= Seq::<(Seq<char>, Seq<char>)>::empty());
        assert(append_ids(w, key, ids) == w) by {
            assert(w.spawns + ids =~= w.spawns);
            assert(w.weak_to + ids =~= w.weak_to);
            assert(w.resistant_to + ids =~= w.resistant_to);
            assert(w.immune_to + ids =~= w.immune_to);
            assert(w.immune_to_status + ids =~= w.immune_to_status);
            assert(w.vulnerable_to_status + ids =~= w.vulnerable_to_status);
            assert(w.drops + ids =~= w.drops);
            assert(w.skills + ids =~= w.skills);
        }
    } else {
        let front = ids.drop_last();
        let x = ids.last();
        assert(id_fields(key, ids) =~= id_fields(key, front) + seq![(key, spec_dec(x as nat))]);
        lemma_monster_form_ids(w, key, front);
        lemma_monster_form_concat(w, id_fields(key, front), seq![(key, spec_dec(x as nat))]);
        crate::num::lemma_parse_dec(x as nat, 0xffff_ffff);
        let mid = append_ids(w, key, front);
        assert(form_u32(spec_dec(x as nat)) == Ok::<u32, FormFailure>(x));
        if key == "spawns"@ {
            assert((w.spawns + front).push(x) =~= w.spawns + ids);
            assert(monster_field(mid, key, spec_dec(x as nat)) == Ok::<AdminMonsterView, FormFailure>(
                append_ids(w, key, ids),
            ));
        }         else if key == "weak_to"@ {
            assert((w.weak_to + front).push(x) =~= w.weak_to + ids);
            assert(monster_field(mid, key, spec_dec(x as nat)) == Ok::<AdminMonsterView, FormFailure>(
                append_ids(w, key, ids),
            ));
        }         else if key == "resistant_to"@ {
            assert((w.resistant_to + front).push(x) =~= w.resistant_to + ids);
            assert(monster_field(mid, key, spec_dec(x as nat)) == Ok::<AdminMonsterView, FormFailure>(
                append_ids(w, key, ids),
            ));
        }         else if key == "immune_to"@ {
            assert((w.immune_to + front).push(x) =~= w.immune_to + ids);
            assert(monster_field(mid, key, spec_dec(x as nat)) == Ok::<AdminMonsterView, FormFailure>(
                append_ids(w, key, ids),
            ));
        }         else if key == "immune_to_status"@ {
            assert((w.immune_to_status + front).push(x) =~= w.immune_to_status + ids);
            assert(monster_field(mid, key, spec_dec(x as nat)) == Ok::<AdminMonsterView, FormFailure>(
                append_ids(w, key, ids),
            ));
        }         else if key == "vulnerable_to_status"@ {
            assert((w.vulnerable_to_status + front).push(x) =~= w.vulnerable_to_status + ids);
            assert(monster_field(mid, key, spec_dec(x as nat)) == Ok::<AdminMonsterView, FormFailure>(
                append_ids(w, key, ids),
            ));
        }         else if key == "drops"@ {
            assert((w.drops + front).push(x) =~= w.drops + ids);
            assert(monster_field(mid, key, spec_dec(x as nat)) == Ok::<AdminMonsterView, FormFailure>(
                append_ids(w, key, ids),
            ));
        }         else if key == "skills"@ {
            assert((w.skills + front).push(x) =~= w.skills + ids);
            assert(monster_field(mid, key, spec_dec(x as nat)) == Ok::<AdminMonsterView, FormFailure>(
                append_ids(w, key, ids),
            ));
        } 
        assert(monster_form(append_ids(w, key, ids), seq![(key, spec_dec(x as nat))], 1) == Ok::<
            AdminMonsterView,
            FormFailure,
        >(append_ids(w, key, ids)));
    }
}

/// Writing a monster into its admin form and reading the form back gives the
/// monster again, but for its id, which the form does not hold.
pub proof fn law_monster_form_roundtrip(v: AdminMonsterView)
    ensures
        monster_form(empty_monster(v.csrfmiddlewaretoken), monster_form_fields(v), 0) == Ok::<
            AdminMonsterView,
            FormFailure,
        >(AdminMonsterView { id: 0, ..v }),
{
    lemma_monster_keys_distinct();
    reveal_strlit("codex");
    reveal_strlit("name");
    reveal_strlit("tier");
    reveal_strlit("family");
    reveal_strlit("image_name");
    reveal_strlit("boss");
    reveal_strlit("level");
    reveal_strlit("hp");
    reveal_strlit("notes");
    reveal_strlit("spawns");
    reveal_strlit("weak_to");
    reveal_strlit("resistant_to");
    reveal_strlit("immune_to");
    reveal_strlit("immune_to_status");
    reveal_strlit("vulnerable_to_status");
    reveal_strlit("drops");
    reveal_strlit("skills");
    reveal_strlit("on");
    crate::num::lemma_parse_dec(v.tier as nat, 255);
    crate::num::lemma_parse_dec(v.level as nat, 0xffff_ffff);
    crate::num::lemma_parse_dec(v.hp as nat, 0xffff_ffff);
    if let Some(f) = v.family {
        crate::num::lemma_parse_dec(f as nat, 0xffff_ffff);
        crate::num::lemma_dec_nonempty(f as nat);
    }
    let w0 = empty_monster(v.csrfmiddlewaretoken);
    let a = seq![
        ("name"@, v.name),
        ("codex"@, v.codex_uri),
        ("tier"@, spec_dec(v.tier as nat)),
        ("family"@, opt_dec(v.family)),
        ("image_name"@, v.image_name),
    ];
    let bseq: Seq<(Seq<char>, Seq<char>)> = if v.boss {
        seq![("boss"@, "on"@)]
    } else {
        Seq::empty()
    };
    let c = seq![("level"@, spec_dec(v.level as nat)), ("hp"@, spec_dec(v.hp as nat)), ("notes"@, v.notes)];
    let w1 = AdminMonsterView {
        name: v.name,
        codex_uri: v.codex_uri,
        tier: v.tier,
        family: v.family,
        image_name: v.image_name,
        ..w0
    };
    let x1 = AdminMonsterView { name: v.name, ..w0 };
    let x2 = AdminMonsterView { codex_uri: v.codex_uri, ..x1 };
    let x3 = AdminMonsterView { tier: v.tier, ..x2 };
    let x4 = AdminMonsterView { family: v.family, ..x3 };
    assert(monster_form(w0, a, 0) == Ok::<AdminMonsterView, FormFailure>(w1)) by {
        assert(monster_form(w1, a, 5) == Ok::<AdminMonsterView, FormFailure>(w1));
        assert(monster_field(x4, a[4].0, a[4].1) == Ok::<AdminMonsterView, FormFailure>(w1));
        assert(monster_form(x4, a, 4) == Ok::<AdminMonsterView, FormFailure>(w1));
        assert(monster_field(x3, a[3].0, a[3].1) == Ok::<AdminMonsterView, FormFailure>(x4));
        assert(monster_form(x3, a, 3) == Ok::<AdminMonsterView, FormFailure>(w1));
        assert(monster_field(x2, a[2].0, a[2].1) == Ok::<AdminMonsterView, FormFailure>(x3));
        assert(monster_form(x2, a, 2) == Ok::<AdminMonsterView, FormFailure>(w1));
        assert(monster_field(x1, a[1].0, a[1].1) == Ok::<AdminMonsterView, FormFailure>(x2));
        assert(monster_form(x1, a, 1) == Ok::<AdminMonsterView, FormFailure>(w1));
        assert(monster_field(w0, a[0].0, a[0].1) == Ok::<AdminMonsterView, FormFailure>(x1));
    }
    let w2 = AdminMonsterView { boss: v.boss, ..w1 };
    assert(monster_form(w1, bseq, 0) == Ok::<AdminMonsterView, FormFailure>(w2)) by {
        if v.boss {
            assert(monster_form(w2, bseq, 1) == Ok::<AdminMonsterView, FormFailure>(w2));
        } else {
            assert(w2 == w1);
        }
    }
    let w3 = AdminMonsterView { level: v.level, hp: v.hp, notes: v.notes, ..w2 };
    let y1 = AdminMonsterView { level: v.level, ..w2 };
    let y2 = AdminMonsterView { hp: v.hp, ..y1 };
    assert(monster_form(w2, c, 0) == Ok::<AdminMonsterView, FormFailure>(w3)) by {
        assert(monster_form(w3, c, 3) == Ok::<AdminMonsterView, FormFailure>(w3));
        assert(monster_field(y2, c[2].0, c[2].1) == Ok::<AdminMonsterView, FormFailure>(w3));
        assert(monster_form(y2, c, 2) == Ok::<AdminMonsterView, FormFailure>(w3));
        assert(monster_field(y1, c[1].0, c[1].1) == Ok::<AdminMonsterView, FormFailure>(y2));
        assert(monster_form(y1, c, 1) == Ok::<AdminMonsterView, FormFailure>(w3));
        assert(monster_field(w2, c[0].0, c[0].1) == Ok::<AdminMonsterView, FormFailure>(y1));
    }
    lemma_monster_form_concat(w0, a, bseq);
    lemma_monster_form_concat(w0, a + bseq, c);
    lemma_monster_form_ids(w3, "spawns"@, v.spawns);
    let u0 = append_ids(w3, "spawns"@, v.spawns);
    lemma_monster_form_concat(w0, a + bseq + c, id_fields("spawns"@, v.spawns));
    lemma_monster_form_ids(u0, "weak_to"@, v.weak_to);
    let u1 = append_ids(u0, "weak_to"@, v.weak_to);
    lemma_monster_form_concat(w0, a + bseq + c + id_fields("spawns"@, v.spawns), id_fields("weak_to"@, v.weak_to));
    lemma_monster_form_ids(u1, "resistant_to"@, v.resistant_to);
    let u2 = append_ids(u1, "resistant_to"@, v.resistant_to);
    lemma_monster_form_concat(w0, a + bseq + c + id_fields("spawns"@, v.spawns) + id_fields("weak_to"@, v.weak_to), id_fields("resistant_to"@, v.resistant_to));
    lemma_monster_form_ids(u2, "immune_to"@, v.immune_to);
    let u3 = append_ids(u2, "immune_to"@, v.immune_to);
    lemma_monster_form_concat(w0, a + bseq + c + id_fields("spawns"@, v.spawns) + id_fields("weak_to"@, v.weak_to) + id_fields("resistant_to"@, v.resistant_to), id_fields("immune_to"@, v.immune_to));
    lemma_monster_form_ids(u3, "immune_to_status"@, v.immune_to_status);
    let u4 = append_ids(u3, "immune_to_status"@, v.immune_to_status);
    lemma_monster_form_concat(w0, a + bseq + c + id_fields("spawns"@, v.spawns) + id_fields("weak_to"@, v.weak_to) + id_fields("resistant_to"@, v.resistant_to) + id_fields("immune_to"@, v.immune_to), id_fields("immune_to_status"@, v.immune_to_status));
    lemma_monster_form_ids(u4, "vulnerable_to_status"@, v.vulnerable_to_status);
    let u5 = append_ids(u4, "vulnerable_to_status"@, v.vulnerable_to_status);
    lemma_monster_form_concat(w0, a + bseq + c + id_fields("spawns"@, v.spawns) + id_fields("weak_to"@, v.weak_to) + id_fields("resistant_to"@, v.resistant_to) + id_fields("immune_to"@, v.immune_to) + id_fields("immune_to_status"@, v.immune_to_status), id_fields("vulnerable_to_status"@, v.vulnerable_to_status));
    lemma_monster_form_ids(u5, "drops"@, v.drops);
    let u6 = append_ids(u5, "drops"@, v.drops);
    lemma_monster_form_concat(w0, a + bseq + c + id_fields("spawns"@, v.spawns) + id_fields("weak_to"@, v.weak_to) + id_fields("resistant_to"@, v.resistant_to) + id_fields("immune_to"@, v.immune_to) + id_fields("immune_to_status"@, v.immune_to_status) + id_fields("vulnerable_to_status"@, v.vulnerable_to_status), id_fields("drops"@, v.drops));
    lemma_monster_form_ids(u6, "skills"@, v.skills);
    let u7 = append_ids(u6, "skills"@, v.skills);
    lemma_monster_form_concat(w0, a + bseq + c + id_fields("spawns"@, v.spawns) + id_fields("weak_to"@, v.weak_to) + id_fields("resistant_to"@, v.resistant_to) + id_fields("immune_to"@, v.immune_to) + id_fields("immune_to_status"@, v.immune_to_status) + id_fields("vulnerable_to_status"@, v.vulnerable_to_status) + id_fields("drops"@, v.drops), id_fields("skills"@, v.skills));
    assert(monster_form_fields(v) == a + bseq + c + id_fields("spawns"@, v.spawns) + id_fields("weak_to"@, v.weak_to) + id_fields("resistant_to"@, v.resistant_to) + id_fields("immune_to"@, v.immune_to) + id_fields("immune_to_status"@, v.immune_to_status) + id_fields("vulnerable_to_status"@, v.vulnerable_to_status) + id_fields("drops"@, v.drops) + id_fields("skills"@, v.skills));
    assert(u7 == AdminMonsterView { id: 0, ..v }) by {
        assert(Seq::<u32>::empty() + v.spawns =~= v.spawns);
        assert(Seq::<u32>::empty() + v.weak_to =~= v.weak_to);
        assert(Seq::<u32>::empty() + v.resistant_to =~= v.resistant_to);
        assert(Seq::<u32>::empty() + v.immune_to =~= v.immune_to);
        assert(Seq::<u32>::empty() + v.immune_to_status =~= v.immune_to_status);
        assert(Seq::<u32>::empty() + v.vulnerable_to_status =~= v.vulnerable_to_status);
        assert(Seq::<u32>::empty() + v.drops =~= v.drops);
        assert(Seq::<u32>::empty() + v.skills =~= v.skills);
    }
}

impl From<AdminMonster> for ParsedForm {
    fn from(item: AdminMonster) -> (r: ParsedForm)
        ensures
            r@ == (monster_form_fields(item@), item@.csrfmiddlewaretoken),
    {
        item.to_form()
    }
}

impl vstd::std_specs::convert::FromSpecImpl<AdminMonster> for ParsedForm {
    open spec fn obeys_from_spec() -> bool {
        false
    }

    open spec fn from_spec(v: AdminMonster) -> ParsedForm {
        vstd::pervasive::arbitrary()
    }
}

} // verus!
