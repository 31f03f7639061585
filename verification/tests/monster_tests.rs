use ornaguide::error::Kind;
use ornaguide::guide::html_form_parser::ParsedForm;
use ornaguide::guide::Spawn;
use ornaguide::monsters::admin::{AdminMonster, AdminMonsters};
use ornaguide::monsters::monster::{BossMonster, Monster, MonsterMonster, RaidMonster};
use ornaguide::monsters::raw::{MonsterSkill, RawMonster};
use ornaguide::num::IntErrorKind;

fn raw(boss: bool, spawns: Option<Vec<&str>>) -> RawMonster {
    RawMonster {
        name: "Thing".to_string(),
        id: 4,
        tier: 3,
        boss,
        image: "thing.png".to_string(),
        drops: Some(vec![]),
        skills: Some(vec![MonsterSkill { id: 1, name: "Bite".to_string() }]),
        quests: None,
        level: Some(10),
        spawns: spawns.map(|v| v.into_iter().map(|s| s.to_string()).collect()),
        resistant_to: None,
        weak_to: None,
        immune_to: None,
        buffs: None,
        immune_to_status: None,
        vulnerable_to_status: None,
    }
}

fn spawns() -> Vec<Spawn> {
    vec![
        Spawn { id: 1, name: "Kingdom Raid".to_string() },
        Spawn { id: 2, name: "World Raid".to_string() },
        Spawn { id: 3, name: "Event: Spring".to_string() },
        Spawn { id: 4, name: "Past Event: Winter".to_string() },
        Spawn { id: 5, name: "Forest".to_string() },
        Spawn { id: 6, name: "World Raid year-round".to_string() },
    ]
}

fn admin(boss: bool, spawns: Vec<u32>) -> AdminMonster {
    AdminMonster { name: "Arisen Bat [x]".to_string(), boss, spawns, ..Default::default() }
}

#[test]
fn classify_raw_monsters() {
    assert!(matches!(Monster::try_from(raw(false, None)), Ok(Monster::Monster(_))));
    assert!(matches!(Monster::try_from(raw(true, Some(vec!["Forest"]))), Ok(Monster::Boss(_))));
    assert!(matches!(Monster::try_from(raw(true, Some(vec!["World Raid"]))), Ok(Monster::Raid(_))));
    let mut r = raw(true, Some(vec!["Kingdom Raid"]));
    r.drops = None;
    let e = Monster::try_from(r).err().unwrap();
    assert!(matches!(&e.kind, Kind::MissingField(n, f) if n == "Thing" && f == "drops"));
}

#[test]
fn category_errors() {
    let e = MonsterMonster::try_from(raw(true, None)).err().unwrap();
    assert!(matches!(&e.kind, Kind::InvalidField(n, f, Some(v)) if n == "Thing" && f == "boss" && v == "true"));
    let e = BossMonster::try_from(raw(true, Some(vec!["World Raid"]))).err().unwrap();
    assert!(matches!(&e.kind, Kind::InvalidField(_, f, Some(v)) if f == "spawns" && v == "Some([\"World Raid\"])"));
    let e = RaidMonster::try_from(raw(false, None)).err().unwrap();
    assert!(matches!(&e.kind, Kind::InvalidField(_, f, Some(v)) if f == "boss" && v == "false"));
    let mut b = raw(true, None);
    b.level = None;
    let e = BossMonster::try_from(b).err().unwrap();
    assert!(matches!(&e.kind, Kind::MissingField(_, f) if f == "level"));
}

#[test]
fn admin_categories() {
    let g = spawns();
    let regular = admin(false, vec![1]);
    assert!(regular.is_regular_monster());
    assert!(!regular.is_boss(&g) && !regular.is_raid(&g));
    let boss = admin(true, vec![5]);
    assert!(boss.is_boss(&g) && !boss.is_raid(&g));
    let wrb = admin(true, vec![6, 5]);
    assert!(wrb.is_raid(&g) && wrb.is_world_raid(&g) && !wrb.is_kingdom_raid(&g));
    let krb = admin(true, vec![1]);
    assert!(krb.is_raid(&g) && krb.is_kingdom_raid(&g) && !krb.is_world_raid(&g));
}

#[test]
fn admin_events_and_raid_spawns() {
    let g = spawns();
    let m = admin(true, vec![3, 2, 4, 1, 5, 2]);
    assert_eq!(m.get_events(&g), vec!["Spring", "Winter"]);
    assert_eq!(m.get_event_ids(&g), vec![3, 4]);
    assert_eq!(m.get_raid_spawns(&g), vec!["Kingdom Raid", "World Raid", "World Raid"]);
}

#[test]
fn admin_codex_name() {
    assert_eq!(admin(false, vec![]).codex_name(), "Bat");
    let mut plain = admin(false, vec![]);
    plain.name = "Arisen Bat".to_string();
    assert_eq!(plain.codex_name(), "Bat (Arisen)");
    let mut kin = admin(true, vec![]);
    kin.name = "Arisen Kin of Kerberos".to_string();
    assert_eq!(kin.codex_name(), "Kin of Kerberos (Arisen)");
}

#[test]
fn admin_monster_lookup() {
    let mut a = admin(false, vec![]);
    a.id = 7;
    a.codex_uri = "/codex/monsters/bat/".to_string();
    let monsters = AdminMonsters { monsters: vec![a] };
    assert_eq!(monsters.find_by_id(7).unwrap().id, 7);
    assert!(monsters.find_by_uri("/codex/monsters/bat/").is_some());
    let e = monsters.get_by_id(8).err().unwrap();
    assert!(matches!(&e.kind, Kind::Misc(m) if m == "No match for admin monster with id 8"));
    let e = monsters.get_by_uri("/x/").err().unwrap();
    assert!(matches!(&e.kind, Kind::Misc(m) if m == "No match for admin monster with codex_uri '/x/'"));
}

#[test]
fn admin_monster_form_roundtrip() {
    let m = AdminMonster {
        id: 12,
        codex_uri: "/codex/bosses/bat/".to_string(),
        name: "Bat".to_string(),
        tier: 4,
        family: Some(9),
        image_name: "bat.png".to_string(),
        boss: true,
        hp: 1000,
        level: 25,
        notes: "note".to_string(),
        spawns: vec![1, 2],
        drops: vec![3],
        ..Default::default()
    };
    let form = m.clone().to_form();
    assert_eq!(form.fields[0], ("name".to_string(), "Bat".to_string()));
    assert_eq!(form.fields[2], ("tier".to_string(), "4".to_string()));
    assert!(form.fields.contains(&("boss".to_string(), "on".to_string())));
    let back = AdminMonster::try_from(form).unwrap();
    assert_eq!(back.id, 0);
    assert_eq!(back.name, m.name);
    assert_eq!(back.family, Some(9));
    assert_eq!(back.spawns, vec![1, 2]);
    assert_eq!(back.drops, vec![3]);
    assert!(back.boss);
    assert_eq!(back.hp, 1000);
}

#[test]
fn admin_monster_form_errors() {
    let form = ParsedForm {
        fields: vec![("tier".to_string(), "x".to_string())],
        csrfmiddlewaretoken: String::new(),
    };
    let e = AdminMonster::try_from(form).err().unwrap();
    assert!(matches!(e.kind, Kind::ParseIntError(IntErrorKind::InvalidDigit)));
    let form = ParsedForm {
        fields: vec![("colour".to_string(), "red".to_string())],
        csrfmiddlewaretoken: String::new(),
    };
    let e = AdminMonster::try_from(form).err().unwrap();
    assert!(matches!(&e.kind, Kind::ExtraField(k, v) if k == "colour" && v == "red"));
}
