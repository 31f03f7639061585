use ornaguide::codex::follower::Followers;
use ornaguide::codex::item::Items;
use ornaguide::codex::translation::LocaleStrings;
use ornaguide::codex::{
    CodexBoss, CodexBosses, CodexMonster, CodexMonsters, CodexRaid, CodexRaids, CodexSkill, CodexSkills,
    SkillStatusEffect, Tag,
};
use ornaguide::data::{CodexData, CodexGenericMonster, GuideData, OrnaData};
use ornaguide::guide::{Spawn, Static};
use ornaguide::items::admin::AdminItems;
use ornaguide::monsters::admin::{AdminMonster, AdminMonsters};
use ornaguide::pets::admin::AdminPets;
use ornaguide::skills::admin::AdminSkills;
use ornaguide::error::Kind;
use ornaguide::items::item::{Item, ItemEquippedBy, RawItem};
use ornaguide::utils::html::checked_icon_url_to_path;

fn s(x: &str) -> String {
    x.to_string()
}

fn monster(slug: &str, name: &str, events: Vec<&str>, family: &str, rarity: &str) -> CodexMonster {
    CodexMonster {
        slug: s(slug),
        name: s(name),
        icon: s("m.png"),
        events: events.into_iter().map(s).collect(),
        family: s(family),
        rarity: s(rarity),
        tier: 1,
        abilities: vec![],
        drops: vec![],
    }
}

fn raid(slug: &str, tags: Vec<Tag>) -> CodexRaid {
    CodexRaid {
        slug: s(slug),
        name: s("Raid"),
        description: s("Big"),
        icon: s("r.png"),
        events: vec![],
        tier: 10,
        tags,
        abilities: vec![],
        drops: vec![],
    }
}

fn skill(slug: &str, name: &str, causes: Vec<&str>, gives: Vec<&str>) -> CodexSkill {
    let effects = |v: Vec<&str>| v.into_iter().map(|e| SkillStatusEffect { effect: s(e), chance: 10 }).collect();
    CodexSkill {
        name: s(name),
        slug: s(slug),
        icon: s("s.png"),
        description: s("desc"),
        tier: 1,
        tags: vec![Tag::FoundInArcanists],
        causes: effects(causes),
        gives: effects(gives),
    }
}

fn data() -> CodexData {
    CodexData {
        items: Items { items: vec![] },
        raids: CodexRaids { raids: vec![raid("dragon", vec![Tag::KingdomRaid, Tag::WorldRaid, Tag::KingdomRaid])] },
        monsters: CodexMonsters { monsters: vec![monster("slime", "Slime", vec!["Spring"], "Blob", "Common")] },
        bosses: CodexBosses {
            bosses: vec![CodexBoss {
                slug: s("king"),
                name: s("King"),
                icon: s("k.png"),
                events: vec![],
                family: s("Royal"),
                rarity: s("Rare"),
                tier: 5,
                abilities: vec![],
                drops: vec![],
            }],
        },
        skills: CodexSkills { skills: vec![skill("bite", "Bite", vec!["Poison"], vec!["Bloodshift"])] },
        followers: Followers { followers: vec![] },
    }
}

#[test]
fn generic_monster_lookups() {
    let d = data();
    match d.find_generic_monster_from_uri("/codex/raids/dragon/") {
        Some(CodexGenericMonster::Raid(r)) => assert_eq!(r.slug, "dragon"),
        _ => panic!("raid not found"),
    }
    match d.find_generic_monster_from_uri("/codex/bosses/king/") {
        Some(CodexGenericMonster::Boss(b)) => assert_eq!(b.slug, "king"),
        _ => panic!("boss not found"),
    }
    assert!(d.find_generic_monster_from_uri("/codex/monsters/nothing/").is_none());
    assert!(d.find_generic_monster_from_uri("/codex/items/slime/").is_none());
    assert!(d.find_generic_monster_from_uri("").is_none());
    let all = d.iter_all_monsters();
    assert_eq!(all.len(), 3);
    assert_eq!(all[0].slug(), "slime");
    assert_eq!(all[1].slug(), "king");
    assert_eq!(all[2].slug(), "dragon");
    assert_eq!(all[2].uri(), "/codex/raids/dragon/");
    assert_eq!(all[2].tags_as_guide_spawns(), vec!["Kingdom Raid", "Kingdom Raid", "World Raid"]);
}

#[test]
fn localized_monsters_and_skills() {
    let d = data();
    let mut fr = LocaleStrings::new();
    fr.locale = s("fr");
    fr.add_monsters_events_families_and_rarities(
        vec![monster("slime", "Gluant", vec!["Printemps"], "Gelée", "Commun")],
        &d,
    )
    .unwrap();
    assert_eq!(fr.monster_name("slime"), Some("Gluant"));
    assert_eq!(fr.events.get("Spring"), Some(&s("Printemps")));
    assert_eq!(fr.families.get("Blob"), Some(&s("Gelée")));
    assert_eq!(fr.rarities.get("Common"), Some(&s("Commun")));
    let e = fr.add_monsters_events_families_and_rarities(vec![monster("ghost", "Fantôme", vec![], "", "")], &d);
    assert!(matches!(e.unwrap_err().kind, Kind::Misc(ref m) if m == "Failed to find monster ghost (found in locale fr)"));
    fr.add_skills_and_statuses(vec![skill("bite", "Morsure", vec!["Poison FR", "Sang"], vec![])], &d).unwrap();
    assert_eq!(fr.skill_name("bite"), Some("Morsure"));
    assert_eq!(fr.statuses.get("Poison"), Some(&s("Poison FR")));
    assert_eq!(fr.statuses.get("Bloodshift [temp]"), Some(&s("Sang")));
    assert!(data().skills.skills[0].bought_at_arcanist());
}

fn raw(type_: &str) -> RawItem {
    RawItem {
        name: s("Stone"),
        id: 77,
        description: s("A stone"),
        tier: 1,
        type_: s(type_),
        boss: false,
        arena: false,
        image: s("stone.png"),
        category: None,
        view_distance: None,
        stats: None,
        element: None,
        materials: None,
        dropped_by: None,
        quests: None,
        equipped_by: None,
        prevents: None,
        causes: None,
        cures: None,
        gives: None,
    }
}

#[test]
fn raw_items_sorted_by_type() {
    assert_eq!(Item::try_from(raw("Fish")).unwrap().get_id(), 77);
    let e = match Item::try_from(raw("Rock")) {
        Err(e) => e,
        Ok(_) => panic!("an unknown type makes no item"),
    };
    assert!(matches!(e.kind, Kind::InvalidField(ref o, ref f, Some(ref v)) if o == "Item" && f == "type" && v == "Rock"));
    let e = match Item::try_from(raw("Material")) {
        Err(e) => e,
        Ok(_) => panic!("a material needs its classes"),
    };
    assert!(matches!(e.kind, Kind::MissingField(ref o, ref f) if o == "Stone" && f == "equipped_by"));
    let mut m = raw("Material");
    let by = |n: &str| ItemEquippedBy { id: 1, name: s(n) };
    m.equipped_by = Some(vec![by("Warrior"), by("Mage"), by("Thief")]);
    assert_eq!(Item::try_from(m).unwrap().get_id(), 77);
}

#[test]
fn icon_paths() {
    assert_eq!(checked_icon_url_to_path("https://playorna.com/static/img/items/stone.png"), Some(s("items/stone.png")));
    assert_eq!(checked_icon_url_to_path("https://playorna.com/other/x.png"), Some(s("other/x.png")));
    assert_eq!(checked_icon_url_to_path("not a url"), None);
}

fn orna_data() -> OrnaData {
    let mut static_ = Static::default();
    static_.spawns = vec![Spawn { id: 1, name: s("World Raid") }, Spawn { id: 2, name: s("Forest") }];
    OrnaData {
        codex: data(),
        guide: GuideData {
            items: AdminItems { items: vec![] },
            monsters: AdminMonsters { monsters: vec![] },
            skills: AdminSkills { skills: vec![] },
            pets: AdminPets { pets: vec![] },
            static_,
        },
    }
}

fn admin(uri: &str, boss: bool, spawns: Vec<u32>) -> AdminMonster {
    let mut m = AdminMonster::default();
    m.id = 42;
    m.name = s("Admin");
    m.codex_uri = s(uri);
    m.boss = boss;
    m.spawns = spawns;
    m
}

#[test]
fn generic_codex_monster_from_admin_monster() {
    let d = orna_data();
    match d.find_generic_codex_monster_from_admin_monster(&admin("/codex/monsters/slime/", false, vec![2])) {
        Ok(CodexGenericMonster::Monster(m)) => assert_eq!(m.slug, "slime"),
        _ => panic!("monster not found"),
    }
    match d.find_generic_codex_monster_from_admin_monster(&admin("/codex/bosses/king/", true, vec![2])) {
        Ok(CodexGenericMonster::Boss(b)) => assert_eq!(b.slug, "king"),
        _ => panic!("boss not found"),
    }
    match d.find_generic_codex_monster_from_admin_monster(&admin("/codex/raids/dragon/", true, vec![1])) {
        Ok(CodexGenericMonster::Raid(r)) => assert_eq!(r.slug, "dragon"),
        _ => panic!("raid not found"),
    }
    let e = d.find_generic_codex_monster_from_admin_monster(&admin("/codex/bosses/queen/", true, vec![])).unwrap_err();
    assert!(matches!(e.kind, Kind::Misc(ref m) if m == "No codex monster match for admin boss Admin (#42)"));
    let e = d.find_generic_codex_monster_from_admin_monster(&admin("", false, vec![])).unwrap_err();
    assert!(matches!(e.kind, Kind::Misc(ref m) if m == "Empty codex_uri for admin monster 'Admin'"));
}
