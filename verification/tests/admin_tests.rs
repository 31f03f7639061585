use ornaguide::codex::item::{Cause, Cure, Give, Immunity};
use ornaguide::codex::{
    CodexElement, CodexItem, CodexItems, CodexSkills, CodexSkill, ItemAbility, ItemStats, ItemUpgradeMaterial, SkillStatusEffect, Tag,
};
use ornaguide::data::GuideData;
use ornaguide::error::Kind;
use ornaguide::guide::html_form_parser::ParsedForm;
use ornaguide::guide::statics::find_element_by_name;
use ornaguide::guide::{Element, Static, StatusEffect};
use ornaguide::items::admin::{AdminItem, AdminItems};
use ornaguide::monsters::admin::AdminMonsters;
use ornaguide::num::{parse_float, FloatErrorKind};
use ornaguide::pets::admin::AdminPets;
use ornaguide::skills::admin::{AdminSkill, AdminSkills};

fn s(x: &str) -> String {
    x.to_string()
}

fn form(fields: &[(&str, &str)]) -> ParsedForm {
    ParsedForm {
        fields: fields.iter().map(|(k, v)| (s(k), s(v))).collect(),
        csrfmiddlewaretoken: s("token"),
    }
}

fn keys(f: &ParsedForm) -> Vec<&str> {
    f.fields.iter().map(|(k, _)| k.as_str()).collect()
}

fn value<'a>(f: &'a ParsedForm, key: &str) -> Vec<&'a str> {
    f.fields.iter().filter(|(k, _)| k == key).map(|(_, v)| v.as_str()).collect()
}

#[test]
fn admin_item_defaults() {
    let item = AdminItem::default();
    assert_eq!(item.type_, 13);
    assert_eq!(item.rarity, "NO");
    assert!(item.attack_affected_by_quality && item.magic_affected_by_quality);
    assert!(item.defense_affected_by_quality && item.resistance_affected_by_quality);
    assert!(item.ward_affected_by_quality);
    assert!(!item.hp_affected_by_quality && !item.crit_affected_by_quality);
    assert_eq!(item.orn_bonus, "0");
    assert_eq!(item.exp_bonus, "0");
    assert_eq!(item.element, None);
    assert!(item.causes.is_empty());
}

#[test]
fn admin_item_from_form() {
    let f = form(&[
        ("codex", "/codex/items/sword/"),
        ("name", "Sword"),
        ("tier", "3"),
        ("type", "2"),
        ("hp", "-12"),
        ("ward", "-5"),
        ("follower_act", "-40"),
        ("attack_affected_by_quality", "off"),
        ("crit_affected_by_quality", "on"),
        ("element", ""),
        ("category", "7"),
        ("causes", "4"),
        ("causes", "9"),
        ("orn_bonus", "2.5"),
        ("ability", "31"),
    ]);
    let item = AdminItem::try_from(f).unwrap();
    assert_eq!(item.csrfmiddlewaretoken, "token");
    assert_eq!(item.codex_uri, "/codex/items/sword/");
    assert_eq!(item.name, "Sword");
    assert_eq!(item.tier, 3);
    assert_eq!(item.type_, 2);
    assert_eq!(item.hp, -12);
    assert_eq!(item.ward, -5);
    assert_eq!(item.follower_act, -40);
    assert!(!item.attack_affected_by_quality);
    assert!(item.crit_affected_by_quality);
    assert_eq!(item.element, None);
    assert_eq!(item.category, Some(7));
    assert_eq!(item.causes, vec![4, 9]);
    assert_eq!(item.orn_bonus, "2.5");
    assert_eq!(item.ability, Some(31));
}

#[test]
fn admin_item_form_errors() {
    let e = AdminItem::try_from(form(&[("name", "Sword"), ("color", "red")])).unwrap_err();
    assert!(matches!(e.kind, Kind::ExtraField(ref k, ref v) if k == "color" && v == "red"));
    let e = AdminItem::try_from(form(&[("tier", "300")])).unwrap_err();
    assert!(matches!(e.kind, Kind::ParseIntError(_)));
    let e = AdminItem::try_from(form(&[("ward", "200")])).unwrap_err();
    assert!(matches!(e.kind, Kind::ParseIntError(_)));
    let e = AdminItem::try_from(form(&[("materials", "x")])).unwrap_err();
    assert!(matches!(e.kind, Kind::ParseIntError(_)));
}

#[test]
fn admin_item_to_form() {
    let mut item = AdminItem::default();
    item.codex_uri = s("/codex/items/sword/");
    item.name = s("Sword");
    item.hp = -3;
    item.hp_affected_by_quality = true;
    item.equipped_by = vec![1, 2];
    item.element = Some(4);
    item.gold_bonus = s("1.5");
    let f = ParsedForm::from(item);
    assert_eq!(f.csrfmiddlewaretoken, "");
    let k = keys(&f);
    assert_eq!(&k[..9], &["codex", "name", "tier", "type", "image_name", "description", "notes", "hp", "hp_affected_by_quality"]);
    assert_eq!(k.last(), Some(&"ability"));
    assert_eq!(value(&f, "hp"), vec!["-3"]);
    assert_eq!(value(&f, "hp_affected_by_quality"), vec!["on"]);
    assert!(value(&f, "mana_affected_by_quality").is_empty());
    assert_eq!(value(&f, "attack_affected_by_quality"), vec!["on"]);
    assert_eq!(value(&f, "equipped_by"), vec!["1", "2"]);
    assert_eq!(value(&f, "element"), vec!["4"]);
    assert_eq!(value(&f, "category"), vec![""]);
    assert_eq!(value(&f, "ability"), vec![""]);
    assert_eq!(value(&f, "gold_bonus"), vec!["1.5"]);
    assert_eq!(value(&f, "type"), vec!["13"]);
    assert_eq!(value(&f, "rarity"), vec!["NO"]);
}

#[test]
fn admin_item_form_roundtrip() {
    let mut item = AdminItem::default();
    item.csrfmiddlewaretoken = s("abc");
    item.id = 0;
    item.codex_uri = s("/codex/items/bow/");
    item.name = s("Bow");
    item.tier = 9;
    item.attack = 120;
    item.mana_saver = -7;
    item.foresight = -20;
    item.view_distance = 30;
    item.follower_act = -100;
    item.two_handed = true;
    item.boss = true;
    item.causes = vec![1, 2];
    item.materials = vec![5];
    item.price = 1000;
    item.ability = Some(3);
    item.exp_bonus = s("10");
    let back = AdminItem::try_from(item.clone().to_form()).unwrap();
    assert_eq!(back.csrfmiddlewaretoken, "abc");
    assert_eq!(back.codex_uri, item.codex_uri);
    assert_eq!(back.tier, 9);
    assert_eq!(back.attack, 120);
    assert_eq!(back.mana_saver, -7);
    assert_eq!(back.foresight, -20);
    assert_eq!(back.view_distance, 30);
    assert_eq!(back.follower_act, -100);
    assert!(back.two_handed && back.boss && !back.arena);
    assert_eq!(back.causes, vec![1, 2]);
    assert_eq!(back.materials, vec![5]);
    assert_eq!(back.price, 1000);
    assert_eq!(back.ability, Some(3));
    assert_eq!(back.exp_bonus, "10");
}

#[test]
fn admin_item_scaling_off_is_lost() {
    // A flag on by default is only written when on: reading the form back turns it on.
    let mut item = AdminItem::default();
    item.attack_affected_by_quality = false;
    let back = AdminItem::try_from(item.to_form()).unwrap();
    assert!(back.attack_affected_by_quality);
}

fn items() -> AdminItems {
    let mut a = AdminItem::default();
    a.id = 1;
    a.codex_uri = s("/codex/items/sword/");
    let mut b = AdminItem::default();
    b.id = 2;
    b.codex_uri = s("/codex/items/bow/");
    AdminItems { items: vec![a, b, AdminItem::default()] }
}

#[test]
fn admin_items_lookups() {
    let v = items();
    assert_eq!(v.find_by_id(2).unwrap().codex_uri, "/codex/items/bow/");
    assert!(v.find_by_id(7).is_none());
    assert!(matches!(v.get_by_id(7).unwrap_err().kind, Kind::Misc(ref m) if m == "No match for admin item with id 7"));
    assert_eq!(v.find_by_uri("/codex/items/sword/").unwrap().id, 1);
    assert!(matches!(v.get_by_uri("/x").unwrap_err().kind, Kind::Misc(ref m) if m == "No match for admin item with codex_uri /x"));
    assert_eq!(v.find_by_slug("bow").unwrap().id, 2);
    assert!(v.find_by_slug("").is_none());
    assert!(matches!(v.get_by_slug("axe").unwrap_err().kind, Kind::Misc(ref m) if m == "No match for admin item with codex slug axe"));
}

#[test]
fn admin_skill_defaults_and_form() {
    let skill = AdminSkill::default();
    assert_eq!(skill.type_, 16);
    assert_eq!(skill.strikes, 1);
    assert_eq!(skill.skill_power, "1");
    assert_eq!(skill.modifier_min, "1");
    assert_eq!(skill.modifier_max, "1");
    let f = form(&[
        ("codex", "/codex/spells/fire/"),
        ("name", "Fire"),
        ("is_magic", "on"),
        ("cost", "18446744073709551615"),
        ("skill_power", "1.5"),
        ("element", "2"),
        ("buffed_by", "8"),
        ("gives", "3"),
    ]);
    let skill = AdminSkill::try_from(f).unwrap();
    assert!(skill.is_magic && !skill.offhand);
    assert_eq!(skill.cost, u64::MAX);
    assert_eq!(skill.skill_power, "1.5");
    assert_eq!(skill.element, Some(2));
    assert_eq!(skill.buffed_by, vec![8]);
    assert_eq!(skill.gives, vec![3]);
    let e = AdminSkill::try_from(form(&[("strikes", "-1")])).unwrap_err();
    assert!(matches!(e.kind, Kind::ParseIntError(_)));
    let e = AdminSkill::try_from(form(&[("power", "1")])).unwrap_err();
    assert!(matches!(e.kind, Kind::ExtraField(ref k, _) if k == "power"));
}

#[test]
fn admin_skill_to_form() {
    let mut skill = AdminSkill::default();
    skill.name = s("Fire");
    skill.offhand = true;
    skill.buffed_by = vec![4];
    skill.causes = vec![6];
    let f = ParsedForm::from(skill);
    assert_eq!(
        keys(&f),
        vec![
            "name", "codex", "tier", "type", "mana_cost", "description", "element", "offhand", "cost",
            "skill_power", "strikes", "modifier_min", "modifier_max", "extra", "causes"
        ]
    );
    assert_eq!(value(&f, "offhand"), vec!["on"]);
    assert_eq!(value(&f, "type"), vec!["16"]);
    assert_eq!(value(&f, "element"), vec![""]);
    // Monsters that buff a skill are not written to the form.
    let back = AdminSkill::try_from(f).unwrap();
    assert!(back.buffed_by.is_empty());
    assert_eq!(back.causes, vec![6]);
    assert!(back.offhand);
}

fn skills() -> AdminSkills {
    let mut a = AdminSkill::default();
    a.id = 1;
    a.name = s("Cleave [off-hand]");
    a.offhand = true;
    a.codex_uri = s("/codex/spells/cleave-offhand/");
    let mut b = AdminSkill::default();
    b.id = 2;
    b.name = s("Cleave");
    b.codex_uri = s("/codex/spells/cleave/");
    AdminSkills { skills: vec![b, a] }
}

#[test]
fn admin_skills_lookups() {
    let v = skills();
    assert_eq!(v.find_by_id(1).unwrap().name, "Cleave [off-hand]");
    assert!(matches!(v.get_by_id(9).unwrap_err().kind, Kind::Misc(ref m) if m == "No match for admin skill with id #9"));
    assert_eq!(v.find_by_uri("/codex/spells/cleave/").unwrap().id, 2);
    assert!(matches!(v.get_by_uri("/y").unwrap_err().kind, Kind::Misc(ref m) if m == "No match for admin skill with codex_uri /y"));
    assert_eq!(v.find_by_slug("cleave-offhand").unwrap().id, 1);
    assert!(matches!(v.get_by_slug("z").unwrap_err().kind, Kind::Misc(ref m) if m == "No match for admin skill with codex slug 'z'"));
    assert_eq!(v.find_offhand_from_name("Cleave").unwrap().id, 1);
    assert!(v.find_offhand_from_name("Cleave [off-hand]").is_none());
    assert!(matches!(v.get_offhand_from_name("Bash").unwrap_err().kind, Kind::Misc(ref m) if m == "No match for offhand admin skill with name 'Bash'"));
}

fn guide() -> GuideData {
    let mut static_ = Static::default();
    static_.elements = vec![Element { id: 1, name: s("Fire") }, Element { id: 11, name: s("Arcane") }];
    static_.status_effects = vec![StatusEffect { id: 4, name: s("Poison") }, StatusEffect { id: 5, name: s("Blind") }];
    let mut axe = AdminItem::default();
    axe.id = 77;
    axe.codex_uri = s("/codex/items/axe/");
    GuideData {
        items: AdminItems { items: vec![axe] },
        monsters: AdminMonsters { monsters: vec![] },
        skills: skills(),
        pets: AdminPets { pets: vec![] },
        static_,
    }
}

fn codex_item() -> CodexItem {
    let mut stats = ItemStats::default();
    stats.attack = Some(50);
    stats.ward = Some(-4);
    stats.crit = Some(3);
    stats.foresight = Some(-10);
    stats.adornment_slots = Some(2);
    stats.element = Some(CodexElement::Arcane);
    let mut item = CodexItem::default();
    item.slug = s("great-sword");
    item.name = s("Great Sword");
    item.icon = s("items/great_sword.png");
    item.tier = 5;
    item.stats = Some(stats);
    item.ability = Some(ItemAbility { name: s("Cleave"), description: s("...") });
    item.causes = vec![Cause { name: s("Poison"), icon: s("p.png") }, Cause { name: s("Unknown"), icon: s("u.png") }];
    item.cures = vec![Cure { name: s("Blind"), icon: s("b.png") }];
    item.gives = vec![Give { name: s("Nothing"), chance: 10, icon: s("n.png") }];
    item.immunities = vec![Immunity { name: s("Poison"), icon: s("p.png") }];
    item.upgrade_materials = vec![
        ItemUpgradeMaterial { name: s("Axe"), uri: s("/codex/items/axe/"), icon: s("a.png") },
        ItemUpgradeMaterial { name: s("Rock"), uri: s("/codex/items/rock/"), icon: s("r.png") },
    ];
    item
}

#[test]
fn codex_item_to_admin_item() {
    let g = guide();
    let a = codex_item().to_admin_item(&g);
    assert_eq!(a.id, 0);
    assert_eq!(a.codex_uri, "/codex/items/great-sword/");
    assert_eq!(a.name, "Great Sword");
    assert_eq!(a.tier, 5);
    assert_eq!(a.image_name, "items/great_sword.png");
    assert_eq!(a.description, ".");
    assert_eq!(a.attack, 50);
    assert_eq!(a.hp, 0);
    assert_eq!(a.ward, -4);
    assert_eq!(a.crit, 3);
    assert_eq!(a.foresight, -10);
    assert_eq!(a.base_adornment_slots, 2);
    assert!(a.has_slots);
    assert_eq!(a.element, Some(11));
    assert_eq!(a.ability, Some(1));
    assert_eq!(a.causes, vec![4]);
    assert_eq!(a.cures, vec![5]);
    assert!(a.gives.is_empty());
    assert_eq!(a.prevents, vec![4]);
    assert_eq!(a.materials, vec![77]);
    assert_eq!(a.type_, 13);
    assert_eq!(a.rarity, "NO");
    assert!(a.attack_affected_by_quality);
}

#[test]
fn codex_item_without_stats_to_admin_item() {
    let mut item = codex_item();
    item.stats = None;
    item.ability = None;
    item.description = s("A big sword.");
    let a = item.to_admin_item(&guide());
    assert_eq!(a.description, "A big sword.");
    assert_eq!(a.attack, 0);
    assert_eq!(a.base_adornment_slots, 0);
    assert!(!a.has_slots);
    assert_eq!(a.element, None);
    assert_eq!(a.ability, None);
}

fn codex_skill(name: &str, slug: &str, tags: Vec<Tag>) -> CodexSkill {
    CodexSkill {
        name: s(name),
        slug: s(slug),
        icon: s("skills/x.png"),
        description: s(""),
        tier: 4,
        tags,
        causes: vec![SkillStatusEffect { effect: s("Poison"), chance: 50 }, SkillStatusEffect { effect: s("Burning"), chance: 5 }],
        gives: vec![],
    }
}

#[test]
fn codex_skill_to_admin_skill() {
    let st = guide().static_;
    let a = codex_skill("Cleave", "cleave-offhand", vec![Tag::OffHandAbility, Tag::FoundInArcanists])
        .try_to_admin_skill(&st)
        .unwrap();
    assert_eq!(a.name, "Cleave [off-hand]");
    assert_eq!(a.codex_uri, "/codex/spells/cleave-offhand/");
    assert!(a.offhand && a.bought);
    assert_eq!(a.description, ".");
    assert_eq!(a.tier, 4);
    assert_eq!(a.causes, vec![4]);
    assert!(a.gives.is_empty());
    assert_eq!(a.type_, 16);
    assert_eq!(a.skill_power, "1");
    let z = codex_skill("Slash", "Zwei-slash", vec![]).try_to_admin_skill(&st).unwrap();
    assert_eq!(z.name, "Slash [zwei]");
    assert!(!z.offhand && !z.bought);
    let p = codex_skill("Slash", "slash", vec![]).try_to_admin_skill(&st).unwrap();
    assert_eq!(p.name, "Slash");
}

#[test]
fn converted_offhand_skill_found_by_name() {
    let st = guide().static_;
    let a = codex_skill("Cleave", "cleave", vec![Tag::OffHandAbility]).try_to_admin_skill(&st).unwrap();
    let v = AdminSkills { skills: vec![a] };
    assert!(v.find_offhand_from_name("Cleave").is_some());
    assert!(v.find_by_slug("cleave").is_some());
}

#[test]
fn elements_by_name() {
    let elements = vec![Element { id: 1, name: s("Fire") }, Element { id: 2, name: s("Fire") }];
    assert_eq!(find_element_by_name(&elements, "Fire").unwrap().id, 1);
    assert!(find_element_by_name(&elements, "fire").is_none());
}

#[test]
fn converted_item_leads_back() {
    let item = codex_item();
    let a = item.to_admin_item(&guide());
    let codex = CodexItems { items: vec![item.clone()] };
    assert_eq!(codex.find_by_uri(&a.codex_uri).unwrap().slug, "great-sword");
    let admin = AdminItems { items: vec![a] };
    assert!(admin.find_by_slug("great-sword").is_some());
    let skill = codex_skill("Cleave", "cleave", vec![]);
    let b = skill.try_to_admin_skill(&guide().static_).unwrap();
    let skills = CodexSkills { skills: vec![skill] };
    assert_eq!(skills.find_by_uri(&b.codex_uri).unwrap().slug, "cleave");
}

#[test]
fn decimal_fields_of_forms() {
    let e = AdminItem::try_from(form(&[("orn_bonus", "abc")])).unwrap_err();
    assert!(matches!(e.kind, Kind::ParseFloatError(FloatErrorKind::Invalid)));
    let e = AdminItem::try_from(form(&[("gold_bonus", "")])).unwrap_err();
    assert!(matches!(e.kind, Kind::ParseFloatError(FloatErrorKind::Empty)));
    let e = AdminSkill::try_from(form(&[("modifier_max", "1,5")])).unwrap_err();
    assert!(matches!(e.kind, Kind::ParseFloatError(FloatErrorKind::Invalid)));
    assert_eq!(AdminSkill::try_from(form(&[("skill_power", "1.25e1")])).unwrap().skill_power, "1.25e1");
    assert_eq!(Kind::ParseFloatError(FloatErrorKind::Invalid).to_string(), "invalid float literal");
    assert_eq!(Kind::ParseFloatError(FloatErrorKind::Empty).to_string(), "cannot parse float from empty string");
}

#[test]
fn float_texts_as_std_reads_them() {
    for ok in ["0", "1.5", ".5", "5.", "-3", "+2", "1e5", "1E-5", "2.5e+3", "inf", "-INF", "Infinity", "NaN", "+nan"] {
        assert_eq!(parse_float(ok), Ok(()), "{ok}");
        assert!(ok.parse::<f32>().is_ok(), "{ok}");
    }
    for bad in [".", "e5", "1e", "1e+", "--1", "1.2.3", " 1", "1 ", "+", "infinit", "0x10", "1_000"] {
        assert_eq!(parse_float(bad), Err(FloatErrorKind::Invalid), "{bad}");
        assert!(bad.parse::<f32>().is_err(), "{bad}");
    }
    assert_eq!(parse_float(""), Err(FloatErrorKind::Empty));
}
