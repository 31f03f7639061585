use ornaguide::codex::html_item_parser::{
    item_section, parse_ability, parse_codex_page_meta, parse_stat, parse_stats, parse_tier,
    split_status_chance, AbilityNode, ItemSection, MetaNode,
};
use ornaguide::codex::item::{Element, Place};
use ornaguide::codex::{
    CodexAffix, CodexItem, CodexItems, CodexMonster, CodexMonsters, ItemEntry, Sluggable, Tag,
};
use ornaguide::error::Kind;
use ornaguide::guide::html_utils::{parse_name_and_chance, parse_tags};

fn item(slug: &str, name: &str) -> CodexItem {
    CodexItem {
        slug: slug.to_string(),
        name: name.to_string(),
        ..Default::default()
    }
}

fn monster(slug: &str, name: &str) -> CodexMonster {
    CodexMonster {
        slug: slug.to_string(),
        name: name.to_string(),
        icon: String::new(),
        events: vec![],
        family: String::new(),
        rarity: String::new(),
        tier: 1,
        abilities: vec![],
        drops: vec![],
    }
}

#[test]
fn items_find_by_uri_and_slug() {
    let items = CodexItems {
        items: vec![item("sword", "Sword"), item("shield", "Shield"), item("sword", "Other")],
    };
    assert_eq!(items.find_by_uri("/codex/items/shield/").unwrap().name, "Shield");
    assert_eq!(items.find_by_slug("sword").unwrap().name, "Sword");
    assert!(items.find_by_uri("/codex/monsters/shield/").is_none());
    assert!(items.find_by_slug("axe").is_none());
    let e = items.get_by_uri("/codex/items/axe/").unwrap_err();
    assert!(matches!(&e.kind, Kind::Misc(m) if m == "No match for codex item with uri '/codex/items/axe/'"));
    let e = items.get_by_slug("axe").unwrap_err();
    assert!(matches!(&e.kind, Kind::Misc(m) if m == "No match for codex item with slug 'axe'"));
}

#[test]
fn monsters_find_by_uri() {
    let monsters = CodexMonsters { monsters: vec![monster("slime", "Slime")] };
    assert_eq!(monsters.find_by_uri("/codex/monsters/slime/").unwrap().name, "Slime");
    assert!(monsters.get_by_uri("/codex/monsters/bat/").is_err());
}

#[test]
fn entry_slug() {
    let entry = ItemEntry { name: "Sword".to_string(), tier: 1, uri: "/codex/items/sword/".to_string() };
    assert_eq!(entry.slug(), "sword");
}

#[test]
fn found_in_shops() {
    let mut it = item("a", "A");
    assert!(!it.found_in_shops());
    it.tags = vec![Tag::FoundInChests, Tag::FoundInShops];
    assert!(it.found_in_shops());
}

#[test]
fn places_and_elements() {
    assert_eq!(Place::from_str("Off-hand").unwrap(), Place::OffHand);
    assert_eq!(Place::from_str("Armor (for adornments)").unwrap(), Place::Armor);
    assert_eq!(Place::OffHand.to_string(), "Off-hand");
    assert_eq!(Place::Material.to_string(), "material");
    assert_eq!(Element::Dragon.to_string(), "Dragon");
    let e = Place::from_str("Feet").unwrap_err();
    assert!(matches!(&e.kind, Kind::ParseEnumError(n, m) if n == "Place" && m == "Invalid value: Feet"));
}

#[test]
fn tags_from_texts() {
    let texts = vec!["✓ Found in shops".to_string(), "✓ World Raid".to_string()];
    assert_eq!(parse_tags(&texts).unwrap(), vec![Tag::FoundInShops, Tag::WorldRaid]);
    let e = parse_tags(&vec!["✓ Nowhere".to_string()]).unwrap_err();
    assert!(matches!(&e.kind, Kind::HTMLParsingError(m) if m == "Unknown tag: ✓ Nowhere"));
}

#[test]
fn name_and_chance() {
    assert_eq!(parse_name_and_chance("  Poison (25%) ", "cause").unwrap(), ("Poison", 25));
    let e = parse_name_and_chance("Poison", "cause").unwrap_err();
    assert!(matches!(&e.kind, Kind::HTMLParsingError(m)
        if m == "Failed to find '(' when parsing cause chance: \"Poison\""));
}

#[test]
fn item_stats() {
    let mut stats = ornaguide::codex::html_item_parser::new_stats();
    parse_stat("Attack: 12", &mut stats).unwrap();
    parse_stat("Ward: 5%", &mut stats).unwrap();
    parse_stat("+Fireball", &mut stats).unwrap();
    parse_stat("Fire", &mut stats).unwrap();
    parse_stat("Two handed", &mut stats).unwrap();
    parse_stat("Gold Bonus: +5%", &mut stats).unwrap();
    assert_eq!(stats.attack, Some(12));
    assert_eq!(stats.ward, Some(5));
    assert_eq!(stats.skills_granted, vec!["Fireball".to_string()]);
    assert_eq!(stats.element, Some(Element::Fire));
    assert!(stats.two_handed);
    assert_eq!(stats.affixes, vec![CodexAffix::GoldBonus(5)]);
    let e = parse_stat("Shiny", &mut stats).unwrap_err();
    assert!(matches!(&e.kind, Kind::HTMLParsingError(m)
        if m == "Failed to find ':' when parsing stat: \"Shiny\""));
}

#[test]
fn item_stats_split() {
    let texts = vec!["Collateral Chance: +2% / Collateral Damage: +20%".to_string()];
    let stats = parse_stats(Some(&texts)).unwrap().unwrap();
    assert_eq!(
        stats.affixes,
        vec![CodexAffix::CollateralChance(2), CodexAffix::CollateralDamage(20)]
    );
    assert!(parse_stats(None).unwrap().is_none());
}

#[test]
fn item_tier_and_status() {
    assert_eq!(parse_tier("Tier: ★7").unwrap(), 7);
    let e = parse_tier("Tier 7").unwrap_err();
    assert!(matches!(&e.kind, Kind::HTMLParsingError(m)
        if m == "Failed to find ':' when parsing item tier: \"Tier 7\""));
    assert_eq!(split_status_chance("Blind (10%)").unwrap(), ("Blind".to_string(), 10));
}

#[test]
fn item_page_meta() {
    let nodes = vec![
        MetaNode { exotic_text: None, text: " Tier: ★5 ".to_string(), html: String::new() },
        MetaNode { exotic_text: None, text: "Rarity: Epic".to_string(), html: String::new() },
        MetaNode { exotic_text: None, text: "Place: Head".to_string(), html: String::new() },
        MetaNode { exotic_text: Some(" Exotic ".to_string()), text: String::new(), html: String::new() },
    ];
    let meta = parse_codex_page_meta(&nodes).unwrap();
    assert_eq!(meta.tier, 5);
    assert_eq!(meta.rarity.as_deref(), Some("Epic"));
    assert_eq!(meta.place, Some(Place::Head));
    assert!(meta.exotic);
    let unknown = vec![MetaNode { exotic_text: None, text: "Weird".to_string(), html: "<div>Weird</div>".to_string() }];
    let e = parse_codex_page_meta(&unknown).unwrap_err();
    assert!(matches!(&e.kind, Kind::HTMLParsingError(m) if m == "Unknown codex-page-meta: <div>Weird</div>"));
    let none = parse_codex_page_meta(&vec![]).unwrap();
    assert_eq!(none.tier, 1);
}

#[test]
fn item_ability_and_sections() {
    let node = AbilityNode { previous_text: Some("Ability: Sting".to_string()), text: "Hurts".to_string() };
    let ability = parse_ability(Some(&node)).unwrap().unwrap();
    assert_eq!(ability.name, "Sting");
    assert_eq!(ability.description, "Hurts");
    assert!(parse_ability(None).unwrap().is_none());
    assert_eq!(item_section(" Dropped by: ").unwrap(), ItemSection::DroppedBy);
    let e = item_section("Foo").unwrap_err();
    assert!(matches!(&e.kind, Kind::HTMLParsingError(m) if m == "Unexpected h4: \"Foo\""));
}
