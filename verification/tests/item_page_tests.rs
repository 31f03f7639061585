use ornaguide::codex::html_item_lists::{AnchorNode, ImgNode, SiblingNode};
use ornaguide::codex::html_item_parser::{AbilityNode, MetaNode};
use ornaguide::codex::item::{ItemStatusEffects, Place};
use ornaguide::codex::item_page::{item_from_page, parse_codex_item, ItemPage, ItemSectionNode};
use ornaguide::codex::Tag;
use ornaguide::error::Kind;
use ornaguide::guide::{Static, StatusEffect};

fn s(x: &str) -> String {
    x.to_string()
}

fn meta(text: &str) -> MetaNode {
    MetaNode { exotic_text: None, text: s(text), html: String::new() }
}

fn page() -> ItemPage {
    ItemPage {
        name: s("Hood"),
        icon: ImgNode::Src(s("https://playorna.com/static/img/armor/hood.png")),
        descriptions: vec![
            AbilityNode { previous_text: None, text: s("A hood.") },
            AbilityNode { previous_text: Some(s("Ability: Sting")), text: s("Hurts") },
        ],
        meta: vec![meta("Tier: ★3"), meta("Place: Head")],
        stats: None,
        tags: vec![s("✓ Found in shops")],
        sections: vec![
            ItemSectionNode {
                heading: s(" Gives: "),
                siblings: vec![
                    SiblingNode::Div {
                        text: s("Bloodshift (50%)"),
                        img: ImgNode::Src(s("https://playorna.com/static/img/statuses/b.png")),
                        anchor: None,
                    },
                    SiblingNode::End,
                ],
            },
            ItemSectionNode {
                heading: s("Dropped by:"),
                siblings: vec![SiblingNode::Div {
                    text: s("Slime"),
                    img: ImgNode::Missing,
                    anchor: Some(AnchorNode {
                        text: s("Slime"),
                        href: Some(s("/codex/monsters/slime/")),
                        img: ImgNode::Src(s("https://playorna.com/static/img/monsters/slime.png")),
                    }),
                }],
            },
        ],
    }
}

#[test]
fn item_page_read() {
    let item = item_from_page(&page(), s("hood")).unwrap();
    assert_eq!(item.slug, "hood");
    assert_eq!(item.name, "Hood");
    assert_eq!(item.icon, "armor/hood.png");
    assert_eq!(item.description, "A hood.");
    assert_eq!(item.tier, 3);
    assert_eq!(item.tags, vec![Tag::FoundInShops]);
    assert!(item.found_in_shops());
    let stats = item.stats.clone().unwrap();
    assert_eq!(stats.place, Some(Place::Head));
    assert_eq!(stats.attack, None);
    let ability = item.ability.clone().unwrap();
    assert_eq!(ability.name, "Sting");
    assert_eq!(ability.description, "Hurts");
    assert_eq!(item.gives.len(), 1);
    assert_eq!(item.gives[0].name, "Bloodshift");
    assert_eq!(item.gives[0].chance, 50);
    assert_eq!(item.dropped_by[0].icon, "monsters/slime.png");
    assert!(item.causes.is_empty());
    assert_eq!(item.gives.to_guide_names(), vec!["Bloodshift [temp]"]);
    let mut static_ = Static::default();
    static_.status_effects = vec![StatusEffect { id: 4, name: s("Bloodshift [temp]") }];
    assert_eq!(item.gives.try_to_guide_ids(&static_).unwrap(), vec![4]);
}

#[test]
fn item_page_errors() {
    let mut p = page();
    p.descriptions = vec![];
    let e = item_from_page(&p, s("hood")).unwrap_err();
    assert!(matches!(e.kind, Kind::HTMLParsingError(ref m) if m == "Failed to find description"));
    let mut p = page();
    p.sections.push(ItemSectionNode { heading: s("Weird:"), siblings: vec![] });
    let e = parse_codex_item(&p, "hood").unwrap_err();
    assert!(matches!(e.kind, Kind::HTMLParsingError(ref m) if m == "Unexpected h4: \"Weird:\""));
    assert_eq!(e.context, vec![s("parsing hood")]);
    let mut p = page();
    p.icon = ImgNode::NoSrc;
    let e = item_from_page(&p, s("hood")).unwrap_err();
    assert!(matches!(e.kind, Kind::HTMLParsingError(ref m) if m == "Failed to find src in img icon node"));
    let mut p = page();
    p.tags = vec![s("✓ Found nowhere")];
    let e = item_from_page(&p, s("hood")).unwrap_err();
    assert!(matches!(e.kind, Kind::HTMLParsingError(ref m) if m == "Unknown tag: ✓ Found nowhere"));
}
