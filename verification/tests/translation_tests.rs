use ornaguide::codex::translation::{ItemTranslation, LocaleDB, LocaleStrings};
use ornaguide::codex::{CodexItem, CodexRaid, CodexRaids};
use ornaguide::data::CodexData;
use ornaguide::codex::{CodexBosses, CodexFollowers, CodexItems, CodexMonsters, CodexSkills};
use ornaguide::error::Kind;
use ornaguide::strmap::StrMap;

fn item(slug: &str, name: &str, description: &str) -> CodexItem {
    CodexItem {
        slug: slug.to_string(),
        name: name.to_string(),
        description: description.to_string(),
        ..Default::default()
    }
}

fn raid(slug: &str, name: &str, events: Vec<&str>) -> CodexRaid {
    CodexRaid {
        slug: slug.to_string(),
        name: name.to_string(),
        description: format!("{name} description"),
        icon: String::new(),
        events: events.into_iter().map(|s| s.to_string()).collect(),
        tier: 10,
        tags: vec![],
        abilities: vec![],
        drops: vec![],
    }
}

fn data_with_raids(raids: Vec<CodexRaid>) -> CodexData {
    CodexData {
        items: CodexItems { items: vec![] },
        raids: CodexRaids { raids },
        monsters: CodexMonsters { monsters: vec![] },
        bosses: CodexBosses { bosses: vec![] },
        skills: CodexSkills { skills: vec![] },
        followers: CodexFollowers { followers: vec![] },
    }
}

#[test]
fn map_read_after_write() {
    let mut m: StrMap<u32> = StrMap::new();
    m.insert("a".to_string(), 1);
    m.insert("b".to_string(), 2);
    m.insert("a".to_string(), 3);
    assert_eq!(m.get("a"), Some(&3));
    assert_eq!(m.get("b"), Some(&2));
    assert_eq!(m.get("c"), None);
    assert_eq!(m.remove("a"), Some(3));
    assert_eq!(m.get("a"), None);
    assert_eq!(m.entries().len(), 1);
}

#[test]
fn map_extend_prefers_right() {
    let mut a: StrMap<u32> = StrMap::new();
    a.insert("x".to_string(), 1);
    a.insert("y".to_string(), 2);
    let mut b: StrMap<u32> = StrMap::new();
    b.insert("y".to_string(), 20);
    b.insert("z".to_string(), 30);
    a.extend(b);
    assert_eq!(a.get("x"), Some(&1));
    assert_eq!(a.get("y"), Some(&20));
    assert_eq!(a.get("z"), Some(&30));
}

#[test]
fn add_items_last_wins() {
    let mut fr = LocaleStrings::new();
    fr.add_items(vec![item("sword", "Epée", "Une épée"), item("sword", "Glaive", "Un glaive")]);
    assert_eq!(fr.item_name("sword"), Some("Glaive"));
    assert_eq!(fr.item_description("sword"), Some("Un glaive"));
    assert_eq!(fr.item("axe"), None);
}

#[test]
fn merge_strings_other_wins() {
    let mut a = LocaleStrings::new();
    a.add_items(vec![item("sword", "A", "a"), item("axe", "Axe", "axe")]);
    let mut b = LocaleStrings::new();
    b.add_items(vec![item("sword", "B", "b")]);
    a.merge_with(b);
    assert_eq!(a.item_name("sword"), Some("B"));
    assert_eq!(a.item_name("axe"), Some("Axe"));
}

#[test]
fn merge_db_adds_missing_locales() {
    let mut db = LocaleDB::new();
    let mut fr = LocaleStrings::new();
    fr.add_items(vec![item("sword", "Epée", "")]);
    db.locales.insert("fr".to_string(), fr);
    let mut other = LocaleDB::new();
    let mut de = LocaleStrings::new();
    de.add_items(vec![item("sword", "Schwert", "")]);
    other.locales.insert("de".to_string(), de);
    let mut fr2 = LocaleStrings::new();
    fr2.add_items(vec![item("axe", "Hache", "")]);
    other.locales.insert("fr".to_string(), fr2);
    db.merge_with(other);
    assert_eq!(db.item_name("de", "sword"), Some("Schwert"));
    assert_eq!(db.item_name("fr", "sword"), Some("Epée"));
    assert_eq!(db.item_name("fr", "axe"), Some("Hache"));
    assert_eq!(db.item_name("es", "sword"), None);
    assert_eq!(
        db.item("fr", "sword"),
        Some(&ItemTranslation { name: "Epée".to_string(), description: String::new() })
    );
}

#[test]
fn add_raids_and_events() {
    let data = data_with_raids(vec![raid("dragon", "Dragon", vec!["Spring", "Summer"])]);
    let mut fr = LocaleStrings::new();
    fr.locale = "fr".to_string();
    fr.add_raids_and_events(vec![raid("dragon", "Dragon FR", vec!["Printemps", "Eté"])], &data)
        .unwrap();
    assert_eq!(fr.raid_name("dragon"), Some("Dragon FR"));
    assert_eq!(fr.event("Spring"), Some("Printemps"));
    assert_eq!(fr.event("Summer"), Some("Eté"));
    let e = fr
        .add_raids_and_events(vec![raid("wyrm", "Wyrm", vec![])], &data)
        .unwrap_err();
    assert!(matches!(&e.kind, Kind::Misc(m) if m == "Failed to find raid wyrm (found in locale fr)"));
}
