use ornaguide::codex::html_follower_parser::{parse_description_nodes, parse_tier, DescriptionElement};
use ornaguide::codex::html_item_lists::{
    parse_causes, parse_dropped_by, parse_gives, AnchorNode, ImgNode, SiblingNode,
};
use ornaguide::codex::html_list_parser::{
    boss_entries, monster_entries, node_to_entry, parse_codex_list, skill_entries, Entry, EntryChildNode,
    EntryLink, EntryNode,
};
use ornaguide::codex::html_skill_parser::parse_status_effects;
use ornaguide::codex::skill::{SkillStatusEffect, SkillStatusEffects};
use ornaguide::config::Config;
use ornaguide::error::Kind;
use ornaguide::guide::html_form_parser::{
    add_field_value, find_csrfmiddlewaretoken, parse_form_fields, FieldLookup, FormFieldNode, FormOption,
};
use ornaguide::guide::paging::{AdminPages, CodexPages, PageAction};
use ornaguide::guide::post_error_parser::{post_form_errors, PostAnswer, PostErrorsNode};
use ornaguide::guide::{Static, StatusEffect};
use ornaguide::num::IntErrorKind;

fn s(x: &str) -> String {
    x.to_string()
}

fn input(t: &str, v: Option<&str>, checked: bool) -> FormFieldNode {
    FormFieldNode::Input { input_type: Some(s(t)), value: v.map(s), checked }
}

#[test]
fn form_fields_of_each_kind() {
    let names = ["name", "boss", "hp", "spawns", "notes", "tier"];
    let lookups = vec![
        FieldLookup::Found(input("text", Some("Slime"), false)),
        FieldLookup::Found(input("checkbox", None, false)),
        FieldLookup::Found(input("number", None, false)),
        FieldLookup::Found(FormFieldNode::Select {
            options: vec![
                FormOption { selected: true, value: Some(s("3")) },
                FormOption { selected: false, value: None },
                FormOption { selected: true, value: Some(s("5")) },
            ],
        }),
        FieldLookup::Found(FormFieldNode::Textarea { text: s("some notes") }),
        FieldLookup::Found(input("checkbox", None, true)),
    ];
    let form = parse_form_fields(&names, &lookups, s("tok")).unwrap();
    assert_eq!(form.csrfmiddlewaretoken, "tok");
    assert_eq!(
        form.fields,
        vec![
            (s("name"), s("Slime")),
            (s("hp"), s("")),
            (s("spawns"), s("3")),
            (s("spawns"), s("5")),
            (s("notes"), s("some notes")),
            (s("tier"), s("on")),
        ]
    );
}

#[test]
fn form_field_errors() {
    let names = ["name", "tier"];
    let lookups = vec![FieldLookup::Found(input("text", Some("x"), false)), FieldLookup::Missing];
    let e = parse_form_fields(&names, &lookups, s("tok")).unwrap_err();
    assert!(matches!(e.kind, Kind::HTMLParsingError(ref m) if m == "No node #id_tier in guide form parsing"));
    let mut fields = vec![];
    let e = add_field_value(&FieldLookup::InvalidSelector, "a b", &mut fields).unwrap_err();
    assert!(matches!(e.kind, Kind::HTMLParsingError(ref m) if m == "Failed to select html id #id_a b in guide form parsing"));
    assert!(fields.is_empty());
    assert_eq!(find_csrfmiddlewaretoken(&input("hidden", Some("abc"), false)), "abc");
}

fn child(text: &str, class: Option<&str>) -> EntryChildNode {
    EntryChildNode { text: s(text), class: class.map(s) }
}

fn entry_node(children: Vec<EntryChildNode>, link: EntryLink) -> EntryNode {
    EntryNode { text: s("whole entry"), children, link }
}

#[test]
fn codex_list_entries() {
    let e = node_to_entry(&entry_node(
        vec![child("", None), child("Slime", None), child(" Beast ", Some("codex-entries-entry-meta")), child("★ 3", None)],
        EntryLink::Href(s("/codex/monsters/slime/")),
    ))
    .unwrap();
    assert_eq!(e.value, "Slime");
    assert_eq!(e.meta, Some(s("Beast")));
    assert_eq!(e.tier, 3);
    assert_eq!(e.uri, "/codex/monsters/slime/");
    let e = node_to_entry(&entry_node(
        vec![child("", None), child("Sword", None), child("★10", Some("other"))],
        EntryLink::Href(s("/codex/items/sword/")),
    ))
    .unwrap();
    assert_eq!(e.meta, None);
    assert_eq!(e.tier, 10);
}

#[test]
fn codex_list_entry_errors() {
    let e = node_to_entry(&entry_node(vec![child("", None)], EntryLink::NoAnchor)).unwrap_err();
    assert!(matches!(e.kind, Kind::HTMLParsingError(ref m) if m == "Failed to find name in codex entry: \"whole entry\""));
    let e = node_to_entry(&entry_node(vec![child("", None), child("A", None)], EntryLink::NoAnchor)).unwrap_err();
    assert!(matches!(e.kind, Kind::HTMLParsingError(ref m) if m == "Failed to find tier in codex entry: \"whole entry\""));
    let e = node_to_entry(&entry_node(vec![child("", None), child("A", None), child("T3", None)], EntryLink::NoAnchor))
        .unwrap_err();
    assert!(matches!(e.kind, Kind::HTMLParsingError(ref m) if m == "Failed to find the star in tier in codex entry field: \"T3\""));
    let e = node_to_entry(&entry_node(vec![child("", None), child("A", None), child("", None)], EntryLink::NoAnchor))
        .unwrap_err();
    assert!(matches!(e.kind, Kind::HTMLParsingError(ref m) if m == "The tier string is empty in: \"\""));
    let e = node_to_entry(&entry_node(vec![child("", None), child("A", None), child("★x", None)], EntryLink::NoAnchor))
        .unwrap_err();
    assert!(matches!(e.kind, Kind::ParseIntError(IntErrorKind::InvalidDigit)));
    let e = node_to_entry(&entry_node(vec![child("", None), child("A", None), child("★1", None)], EntryLink::NoHref))
        .unwrap_err();
    assert!(matches!(e.kind, Kind::HTMLParsingError(ref m) if m == "Failed to find href in a"));
}

#[test]
fn codex_list_pages() {
    let nodes = vec![entry_node(vec![child("", None), child("A", None), child("★1", None)], EntryLink::Href(s("/a/")))];
    let l = parse_codex_list(&nodes, "Previous page - Next page").unwrap();
    assert!(l.has_next_page);
    assert_eq!(l.entries.len(), 1);
    let l = parse_codex_list(&nodes, "Previous page").unwrap();
    assert!(!l.has_next_page);
    let (state, action) = CodexPages::start("https://playorna.com/codex/items");
    assert_eq!(action, PageAction::Fetch(s("https://playorna.com/codex/items")));
    let (state, action) = state.step("https://playorna.com/codex/items", l);
    assert_eq!(action, PageAction::Done);
    assert_eq!(state.entries.len(), 1);
    let l2 = parse_codex_list(&nodes, "Next page").unwrap();
    let (state, action) = CodexPages::start("base").0.step("base", l2);
    assert_eq!(action, PageAction::Fetch(s("base/?p=2")));
    assert_eq!(state.page, 2);
}

#[test]
fn admin_pages() {
    let (state, action) = AdminPages::<u32>::start("admin");
    assert_eq!(action, PageAction::Fetch(s("admin")));
    let (state, action) = state.step("admin", vec![1, 2], 5);
    assert_eq!(action, PageAction::Fetch(s("admin/?p=1")));
    let (state, action) = state.step("admin", vec![3, 4], 5);
    assert_eq!(action, PageAction::Fetch(s("admin/?p=2")));
    let (state, action) = state.step("admin", vec![5], 0);
    assert_eq!(action, PageAction::Done);
    assert_eq!(state.entries, vec![1, 2, 3, 4, 5]);
    let (_, action) = AdminPages::<u32>::start("admin").0.step("admin", vec![1], 1);
    assert_eq!(action, PageAction::Done);
}

#[test]
fn list_entries_conversions() {
    let list = vec![
        Entry { value: s("Slime"), meta: Some(s("Beast")), tier: 1, uri: s("/codex/monsters/slime/") },
        Entry { value: s("Wolf"), meta: None, tier: 2, uri: s("/codex/monsters/wolf/") },
    ];
    let skills = skill_entries(&list);
    assert_eq!(skills[1].name, "Wolf");
    assert_eq!(skills[1].tier, 2);
    let e = monster_entries(&list).unwrap_err();
    assert!(matches!(e.kind, Kind::HTMLParsingError(ref m) if m == "Failed to retrieve meta field of monster"));
    let bosses = boss_entries(&list[..1].iter().map(|e| Entry { value: e.value.clone(), meta: e.meta.clone(), tier: e.tier, uri: e.uri.clone() }).collect()).unwrap();
    assert_eq!(bosses[0].family, "Beast");
}

#[test]
fn post_errors() {
    assert!(post_form_errors("u", &PostAnswer::NoForm).is_ok());
    let e = post_form_errors("u", &PostAnswer::Form { error_note: None, errors: vec![] }).unwrap_err();
    assert!(matches!(e.kind, Kind::HTMLParsingError(ref m) if m == "Failed to find \".errornote\" in post error form"));
    let answer = PostAnswer::Form {
        error_note: Some(s("Please correct the errors below.")),
        errors: vec![
            PostErrorsNode {
                attribute_words: vec![s("form-row"), s("errors"), s("field-name"), s("field-tier")],
                errors: vec![s("This field is required."), s("Too long.")],
            },
            PostErrorsNode { attribute_words: vec![s("errors")], errors: vec![s("ignored")] },
        ],
    };
    let e = post_form_errors("https://guide/x", &answer).unwrap_err();
    match e.kind {
        Kind::GuidePostFormError(url, note, errors) => {
            assert_eq!(url, "https://guide/x");
            assert_eq!(note, "Please correct the errors below.");
            assert_eq!(
                errors,
                vec![
                    s("name: This field is required."),
                    s("name: Too long."),
                    s("tier: This field is required."),
                    s("tier: Too long."),
                ]
            );
        },
        _ => panic!("wrong kind"),
    }
}

fn desc(text: &str, words: &[&str]) -> DescriptionElement {
    DescriptionElement { text: s(text), attribute_words: words.iter().map(|w| s(w)).collect() }
}

#[test]
fn follower_description() {
    let d = parse_description_nodes(&vec![
        desc("A wolf.", &["codex-page-description"]),
        desc("Event: Winter / Autumn /Spring", &["codex-page-description", "codex-page-description-highlight"]),
        desc("Rarity: Rare", &["codex-page-description"]),
    ])
    .unwrap();
    assert_eq!(d.description, "A wolf.");
    assert_eq!(d.events, vec![s("Autumn"), s("Spring"), s("Winter")]);
    assert_eq!(d.rarity, "Rare");
    let d = parse_description_nodes(&vec![desc("A wolf.", &[]), desc("Rarity:  Common ", &[])]).unwrap();
    assert!(d.events.is_empty());
    assert_eq!(d.rarity, "Common");
    let e = parse_description_nodes(&vec![]).unwrap_err();
    assert!(matches!(e.kind, Kind::HTMLParsingError(ref m) if m == "No description node when parsing follower"));
    let e = parse_description_nodes(&vec![desc("A wolf.", &[])]).unwrap_err();
    assert!(matches!(e.kind, Kind::HTMLParsingError(ref m) if m == "Failed to find rarity node"));
    let e = parse_description_nodes(&vec![desc("A wolf.", &[]), desc("Rare", &[])]).unwrap_err();
    assert!(matches!(e.kind, Kind::HTMLParsingError(ref m) if m == "Failed to find ':' in rarity node"));
}

#[test]
fn follower_and_skill_tier() {
    assert_eq!(parse_tier("  Tier: ★7 ").unwrap(), 7);
    let e = parse_tier(" Tier 7 ").unwrap_err();
    assert!(matches!(e.kind, Kind::HTMLParsingError(ref m) if m == "Failed to find ':' when parsing skill tier: \"Tier 7\""));
}

#[test]
fn skill_status_effects() {
    let effects = parse_status_effects(&vec![Some(s("Poison (20%)")), Some(s(" Bloodshift (100%) "))]).unwrap();
    assert_eq!(effects.len(), 2);
    assert_eq!(effects[0].effect, "Poison");
    assert_eq!(effects[0].chance, 20);
    assert_eq!(effects[1].effect, "Bloodshift");
    let e = parse_status_effects(&vec![Some(s("Poison (20%)")), None]).unwrap_err();
    assert!(matches!(e.kind, Kind::HTMLParsingError(ref m) if m == "Failed to find \"span\" in skill status effect"));
    let names = effects.to_guide_names();
    assert_eq!(names, vec![s("Bloodshift [temp]"), s("Poison")]);
    let mut static_ = Static::default();
    static_.status_effects = vec![StatusEffect { id: 1, name: s("Poison") }];
    let e = effects.try_to_guide_ids(&static_).unwrap_err();
    match e.kind {
        Kind::PartialCodexStatusEffectsConversion(found, missing) => {
            assert_eq!(found, vec![1]);
            assert_eq!(missing, vec![s("Bloodshift [temp]")]);
        },
        _ => panic!("wrong kind"),
    }
    static_.status_effects.push(StatusEffect { id: 2, name: s("Bloodshift [temp]") });
    assert_eq!(effects.try_to_guide_ids(&static_).unwrap(), vec![1, 2]);
    let none: Vec<SkillStatusEffect> = vec![];
    assert!(none.to_guide_names().is_empty());
}

#[test]
fn config_from_var() {
    assert!(!Config::from_var(None).unwrap().debug_urls);
    assert!(Config::from_var(Some("true")).unwrap().debug_urls);
    assert!(!Config::from_var(Some("false")).unwrap().debug_urls);
    assert!(matches!(Config::from_var(Some("yes")).unwrap_err().kind, Kind::ParseBoolError));
}

fn img(src: &str) -> ImgNode {
    ImgNode::Src(s(src))
}

#[test]
fn item_page_lists() {
    let nodes = vec![
        SiblingNode::Div { text: s("Poison (20%)"), img: img("https://playorna.com/static/img/statuses/poison.png"), anchor: None },
        SiblingNode::End,
        SiblingNode::Other { tag: s("p") },
    ];
    let gives = parse_gives(&nodes).unwrap();
    assert_eq!(gives.len(), 1);
    assert_eq!(gives[0].name, "Poison");
    assert_eq!(gives[0].chance, 20);
    assert_eq!(gives[0].icon, "statuses/poison.png");
    let causes = parse_causes(&nodes).unwrap();
    assert_eq!(causes[0].name, "Poison (20%)");
    let bad = vec![SiblingNode::Other { tag: s("p") }];
    let e = parse_causes(&bad).unwrap_err();
    assert!(matches!(e.kind, Kind::HTMLParsingError(ref m) if m == "Unknown node tag when parsing drop or ability: p"));
    let drops = vec![SiblingNode::Div {
        text: s("Slime"),
        img: ImgNode::Missing,
        anchor: Some(AnchorNode { text: s("Slime"), href: Some(s("/codex/monsters/slime/")), img: img("https://playorna.com/static/img/monsters/slime.png") }),
    }];
    let d = parse_dropped_by(&drops).unwrap();
    assert_eq!(d[0].uri, "/codex/monsters/slime/");
    assert_eq!(d[0].icon, "monsters/slime.png");
    let no_anchor = vec![SiblingNode::Div { text: s("x"), img: ImgNode::NoSrc, anchor: None }];
    let e = parse_dropped_by(&no_anchor).unwrap_err();
    assert!(matches!(e.kind, Kind::HTMLParsingError(ref m) if m == "Failed to find \"a\" in div drop or ability"));
    let e = parse_causes(&no_anchor).unwrap_err();
    assert!(matches!(e.kind, Kind::HTMLParsingError(ref m) if m == "Failed to find src in item <div> img"));
}

use ornaguide::codex::html_follower_parser::{parse_codex_follower, FollowerPage, FollowerSectionNode};
use ornaguide::codex::html_skill_parser::{parse_codex_skill, SkillPage, SkillSectionNode};

#[test]
fn follower_page() {
    let page = FollowerPage {
        name: s("Wolf"),
        icon: ImgNode::Src(s("https://playorna.com/static/img/followers/wolf.png")),
        descriptions: vec![
            desc("A wolf.", &[]),
            desc("Event: Winter/Autumn", &["codex-page-description-highlight"]),
            desc("Rarity: Rare", &[]),
        ],
        tier_text: s("Tier: ★4"),
        sections: vec![FollowerSectionNode {
            heading: s(" Abilities: "),
            siblings: vec![
                SiblingNode::Div {
                    text: s("Bite"),
                    img: ImgNode::Missing,
                    anchor: Some(AnchorNode {
                        text: s("Bite"),
                        href: Some(s("/codex/spells/bite/")),
                        img: ImgNode::Src(s("https://playorna.com/static/img/skills/bite.png")),
                    }),
                },
                SiblingNode::End,
            ],
        }],
    };
    let f = parse_codex_follower(&page, s("wolf")).unwrap();
    assert_eq!(f.slug, "wolf");
    assert_eq!(f.icon, "followers/wolf.png");
    assert_eq!(f.tier, 4);
    assert_eq!(f.events, vec![s("Autumn"), s("Winter")]);
    assert_eq!(f.rarity, "Rare");
    assert_eq!(f.abilities.len(), 1);
    assert_eq!(f.abilities[0].uri, "/codex/spells/bite/");
    assert_eq!(f.abilities[0].icon, "https://playorna.com/static/img/skills/bite.png");
}

#[test]
fn skill_page() {
    let page = SkillPage {
        name: s("Bite"),
        icon: ImgNode::Src(s("https://playorna.com/static/img/skills/bite.png")),
        description: s("Bites."),
        tier_text: s("Tier: ★2"),
        tags: vec![s("✓ Off-hand ability")],
        sections: vec![
            SkillSectionNode { heading: s("Causes:"), divs: vec![Some(s("Bleeding (30%)"))] },
            SkillSectionNode { heading: s("Summons:"), divs: vec![None] },
            SkillSectionNode { heading: s("Gives:"), divs: vec![] },
        ],
    };
    let skill = parse_codex_skill(&page, s("bite")).unwrap();
    assert_eq!(skill.tier, 2);
    assert_eq!(skill.icon, "skills/bite.png");
    assert_eq!(skill.causes.len(), 1);
    assert_eq!(skill.causes[0].effect, "Bleeding");
    assert!(skill.gives.is_empty());
    assert!(skill.is_offhand());
    let mut bad = page;
    bad.tier_text = s("Tier 2");
    let e = parse_codex_skill(&bad, s("bite")).unwrap_err();
    assert!(matches!(e.kind, Kind::HTMLParsingError(ref m) if m == "Failed to find ':' when parsing skill tier: \"Tier 2\""));
}
