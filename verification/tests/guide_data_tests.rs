use ornaguide::codex::follower::{Ability as FollowerAbility, Follower};
use ornaguide::codex::{CodexBoss, CodexMonster, CodexRaid, MonsterAbility, MonsterDrop, Tag};
use ornaguide::data::{CodexGenericMonster, GuideData};
use ornaguide::items::admin::{AdminItem, AdminItems};
use ornaguide::skills::admin::{AdminSkill, AdminSkills};
use ornaguide::error::Kind;
use ornaguide::guide::{MonsterFamily, Spawn, Static};
use ornaguide::monsters::admin::{AdminMonster, AdminMonsters};
use ornaguide::pets::admin::{AdminPets, CostType};

fn guide() -> GuideData {
    let mut static_ = Static::default();
    static_.spawns = vec![
        Spawn { id: 1, name: "Kingdom Raid".to_string() },
        Spawn { id: 2, name: "World Raid".to_string() },
        Spawn { id: 3, name: "Event: Spring".to_string() },
        Spawn { id: 4, name: "Past Event: Winter".to_string() },
        Spawn { id: 5, name: "Forest".to_string() },
    ];
    static_.monster_families = vec![
        MonsterFamily { id: 7, name: "Beast".to_string() },
        MonsterFamily { id: 8, name: "Undead".to_string() },
    ];
    let mut slime = AdminMonster::default();
    slime.id = 10;
    slime.codex_uri = "/codex/monsters/slime/".to_string();
    let mut king = AdminMonster::default();
    king.id = 11;
    king.boss = true;
    king.codex_uri = "/codex/bosses/king/".to_string();
    let mut dragon = AdminMonster::default();
    dragon.id = 12;
    dragon.boss = true;
    dragon.spawns = vec![2];
    dragon.codex_uri = "/codex/raids/dragon/".to_string();
    let mut sword = AdminItem::default();
    sword.id = 100;
    sword.codex_uri = "/codex/items/sword/".to_string();
    let mut shield = AdminItem::default();
    shield.id = 101;
    shield.codex_uri = "/codex/items/shield/".to_string();
    let mut fire = AdminSkill::default();
    fire.id = 200;
    fire.codex_uri = "/codex/spells/fire/".to_string();
    GuideData {
        items: AdminItems { items: vec![sword, shield] },
        monsters: AdminMonsters { monsters: vec![slime, king, dragon] },
        skills: AdminSkills { skills: vec![fire] },
        pets: AdminPets { pets: vec![] },
        static_,
    }
}

fn drop(uri: &str) -> MonsterDrop {
    MonsterDrop { name: "x".to_string(), uri: uri.to_string(), icon: "x.png".to_string() }
}

fn ability(uri: &str) -> MonsterAbility {
    MonsterAbility { name: "x".to_string(), uri: uri.to_string(), icon: "x.png".to_string() }
}

fn monster() -> CodexMonster {
    CodexMonster {
        slug: "slime".to_string(),
        name: "Slime".to_string(),
        icon: "monsters/slime.png".to_string(),
        events: vec!["Winter".to_string(), "Unknown".to_string(), "Spring".to_string()],
        family: "Undead".to_string(),
        rarity: "Common".to_string(),
        tier: 2,
        abilities: vec![ability("/codex/spells/fire/"), ability("/codex/spells/ice/")],
        drops: vec![drop("/codex/items/shield/"), drop("/codex/items/none/"), drop("/codex/items/sword/")],
    }
}

#[test]
fn monster_to_admin_monster() {
    let g = guide();
    let m = monster().try_to_admin_monster(&g).unwrap();
    assert_eq!(m.codex_uri, "/codex/monsters/slime/");
    assert_eq!(m.name, "Slime");
    assert_eq!(m.tier, 2);
    assert_eq!(m.family, Some(8));
    assert_eq!(m.image_name, "monsters/slime.png");
    assert!(!m.boss);
    assert_eq!(m.spawns, vec![4, 3]);
    assert_eq!(m.drops, vec![101, 100]);
    assert_eq!(m.skills, vec![200]);
    assert_eq!(m.id, 0);
    assert_eq!(m.hp, 0);
    assert!(m.weak_to.is_empty());
}

#[test]
fn boss_to_admin_monster_unknown_family() {
    let g = guide();
    let b = CodexBoss {
        slug: "king".to_string(),
        name: "King".to_string(),
        icon: "king.png".to_string(),
        events: vec![],
        family: "Dragon".to_string(),
        rarity: "Rare".to_string(),
        tier: 9,
        abilities: vec![],
        drops: vec![],
    };
    let m = b.try_to_admin_monster(&g).unwrap();
    assert_eq!(m.codex_uri, "/codex/bosses/king/");
    assert!(m.boss);
    assert_eq!(m.family, None);
    assert!(m.spawns.is_empty());
}

fn raid() -> CodexRaid {
    CodexRaid {
        slug: "dragon".to_string(),
        name: "Dragon".to_string(),
        description: "Big".to_string(),
        icon: "dragon.png".to_string(),
        events: vec!["Spring".to_string()],
        tier: 10,
        tags: vec![Tag::FoundInChests, Tag::WorldRaid, Tag::OtherRealmsRaid, Tag::KingdomRaid],
        abilities: vec![],
        drops: vec![drop("/codex/items/sword/")],
    }
}

#[test]
fn raid_to_admin_monster_adds_tag_spawns() {
    let g = guide();
    let m = raid().try_to_admin_monster(&g).unwrap();
    assert_eq!(m.codex_uri, "/codex/raids/dragon/");
    assert!(m.boss);
    assert_eq!(m.family, None);
    assert_eq!(m.spawns, vec![3, 2, 1]);
    assert_eq!(m.drops, vec![100]);
}

#[test]
fn generic_monster_to_admin_monster() {
    let g = guide();
    let r = raid();
    let m = CodexGenericMonster::Raid(&r).try_to_admin_monster(&g).unwrap();
    assert_eq!(m.spawns, vec![3, 2, 1]);
}

#[test]
fn find_matches_for_codex_monsters() {
    let g = guide();
    let m = monster();
    assert_eq!(g.find_match_for_codex_regular_monster(&m).unwrap().id, 10);
    let r = raid();
    assert_eq!(g.find_match_for_codex_raid(&r).unwrap().id, 12);
    assert_eq!(g.find_match_for_codex_generic_monster(CodexGenericMonster::Raid(&r)).unwrap().id, 12);
    let mut other = monster();
    other.slug = "king".to_string();
    let b = CodexBoss {
        slug: "king".to_string(),
        name: "King".to_string(),
        icon: "king.png".to_string(),
        events: vec![],
        family: "Beast".to_string(),
        rarity: "Rare".to_string(),
        tier: 9,
        abilities: vec![],
        drops: vec![],
    };
    assert_eq!(g.find_match_for_codex_boss(&b).unwrap().id, 11);
    match g.find_match_for_codex_regular_monster(&other) {
        Err(e) => assert!(matches!(e.kind, Kind::Misc(ref m) if m == "No match for codex regular monster 'king'")),
        Ok(_) => panic!("a boss is no regular monster"),
    }
    let mut r2 = raid();
    r2.slug = "king".to_string();
    match g.find_match_for_codex_raid(&r2) {
        Err(e) => assert!(matches!(e.kind, Kind::Misc(ref m) if m == "No match for codex raid 'king'")),
        Ok(_) => panic!("a boss is no raid"),
    }
}

#[test]
fn follower_to_admin_pet() {
    let g = guide();
    let f = Follower {
        name: "Wolf".to_string(),
        slug: "wolf".to_string(),
        icon: "wolf.png".to_string(),
        description: String::new(),
        events: vec!["Spring".to_string(), "Winter".to_string()],
        rarity: "Rare".to_string(),
        tier: 8,
        abilities: vec![
            FollowerAbility { name: "Fire".to_string(), uri: "/codex/spells/fire/".to_string(), icon: "f.png".to_string() },
            FollowerAbility { name: "Bite".to_string(), uri: "/codex/spells/bite/".to_string(), icon: "b.png".to_string() },
        ],
    };
    let p = f.to_admin_pet(&g);
    assert_eq!(p.codex_uri, "/codex/followers/wolf/");
    assert_eq!(p.description, ".");
    assert_eq!(p.cost_type, CostType::Orn);
    assert!(p.limited);
    assert_eq!(p.limited_details, "Spring, Winter");
    assert_eq!(p.skills, vec![200]);
    let mut f2 = f.clone();
    f2.tier = 7;
    f2.events = vec![];
    f2.description = "A wolf".to_string();
    let p2 = f2.to_admin_pet(&g);
    assert_eq!(p2.cost_type, CostType::Gold);
    assert!(!p2.limited);
    assert_eq!(p2.limited_details, "");
    assert_eq!(p2.description, "A wolf");
}

#[test]
fn converted_entities_are_found_back() {
    let mut g = guide();
    let m = monster();
    let mut admin = m.try_to_admin_monster(&g).unwrap();
    admin.id = 42;
    g.monsters.monsters = vec![admin];
    assert_eq!(g.find_match_for_codex_regular_monster(&m).unwrap().id, 42);
    let f = Follower {
        name: "Wolf".to_string(),
        slug: "wolf-pup".to_string(),
        icon: "wolf.png".to_string(),
        description: "A wolf".to_string(),
        events: vec![],
        rarity: "Rare".to_string(),
        tier: 3,
        abilities: vec![],
    };
    let mut pet = f.to_admin_pet(&g);
    pet.id = 7;
    let pets = AdminPets { pets: vec![pet] };
    assert_eq!(pets.find_by_slug("wolf-pup").unwrap().id, 7);
}

#[test]
fn converted_raid_is_found_back() {
    let mut g = guide();
    let r = raid();
    let mut admin = r.try_to_admin_monster(&g).unwrap();
    admin.id = 99;
    g.monsters.monsters = vec![admin];
    assert_eq!(g.find_match_for_codex_raid(&r).unwrap().id, 99);
}
