use ornaguide::guide::post_error_parser::parse_post_error_html;
use ornaguide::codex::html_item_parser::parse_html_codex_item_translation;
use ornaguide::codex::html_skill_parser::parse_html_codex_skill_translation;
use ornaguide::codex::html_follower_parser::parse_html_codex_follower_translation;
use ornaguide::codex::html_follower_parser::{parse_html_codex_follower, try_parse_html_codex_follower};
use ornaguide::codex::html_skill_parser::{parse_html_codex_skill, try_parse_html_codex_skill};
use ornaguide::codex::html_item_parser::{parse_html_codex_item, try_parse_html_codex_item};
use ornaguide::codex::Tag;
use ornaguide::codex::html_list_parser::parse_html_codex_list;
use ornaguide::error::Kind;
use ornaguide::guide::html_form_parser::{
    parse_item_html, parse_spawn_html, try_parse_item_html, try_parse_monster_html, try_parse_spawn_html,
};

const PAGE: &str = r#"<html><body>
<form id="item_form" method="post">
<input type="hidden" name="csrfmiddlewaretoken" value="tok123">
<input type="text" id="id_name" name="name" value="Sword">
<input type="number" id="id_tier" name="tier">
<input type="checkbox" id="id_boss" name="boss">
<input type="checkbox" id="id_arena" name="arena" checked>
<select id="id_causes" name="causes" multiple>
<option value="1" selected>Poison</option><option value="2">Burn</option><option value="3" selected>Blind</option>
</select>
<textarea id="id_notes" name="notes">Some notes</textarea>
</form></body></html>"#;

fn pairs(f: &ornaguide::guide::html_form_parser::ParsedForm) -> Vec<(&str, &str)> {
    f.fields.iter().map(|(k, v)| (k.as_str(), v.as_str())).collect()
}

#[test]
fn form_page_fields_in_order() {
    let f = parse_item_html(PAGE, &["name", "tier", "boss", "arena", "causes", "notes"]).unwrap();
    assert_eq!(f.csrfmiddlewaretoken, "tok123");
    assert_eq!(
        pairs(&f),
        vec![("name", "Sword"), ("tier", ""), ("arena", "on"), ("causes", "1"), ("causes", "3"), ("notes", "Some notes")]
    );
}

#[test]
fn form_page_errors() {
    let e = parse_item_html(PAGE, &["name", "price"]).unwrap_err();
    assert!(matches!(e.kind, Kind::HTMLParsingError(ref m) if m == "No node #id_price in guide form parsing"));
    let e = try_parse_monster_html(PAGE, &["name"]).unwrap().unwrap_err();
    assert!(matches!(e.kind, Kind::HTMLParsingError(ref m) if m == "Failed to find \"#monster_form\" in html"));
    let e = parse_spawn_html("<html><body></body></html>").unwrap_err();
    assert!(matches!(e.kind, Kind::HTMLParsingError(ref m) if m == "Failed to find \"#spawn_form\" in html"));
}

#[test]
fn form_page_token_only() {
    let page = r#"<html><body><form id="spawn_form"><input name="csrfmiddlewaretoken" type="hidden" value="abc"></form></body></html>"#;
    let f = try_parse_spawn_html(page).unwrap().unwrap();
    assert!(f.fields.is_empty());
    assert_eq!(f.csrfmiddlewaretoken, "abc");
}

#[test]
fn form_page_panicking_inputs() {
    let radio = PAGE.replace(r#"type="number" id="id_tier""#, r#"type="radio" id="id_tier""#);
    assert!(try_parse_item_html(&radio, &["tier"]).is_none());
    let no_value = PAGE.replace(r#"<option value="3" selected>"#, r#"<option selected>"#);
    assert!(try_parse_item_html(&no_value, &["causes"]).is_none());
    let no_token = PAGE.replace("csrfmiddlewaretoken", "other");
    assert!(try_parse_item_html(&no_token, &["name"]).is_none());
    assert!(try_parse_item_html(&no_token, &["price"]).is_some());
}

const LIST: &str = r#"<html><body>
<div class="codex-entries">
<a class="codex-entries-entry" href="/codex/items/sword/">
<img src="https://playorna.com/static/img/sword.png">
<div class="codex-entries-entry-name">Sword</div>
<div class="codex-entries-entry-meta">Weapon</div>
<div class="codex-entries-entry-tier">★ 3</div>
</a>
<a class="codex-entries-entry" href="/codex/items/potion/">
<img src="https://playorna.com/static/img/potion.png">
<div>Potion</div>
<div>★10</div>
</a>
</div>
<div class="pagination"><a href="?p=2">Next page</a></div>
</body></html>"#;

#[test]
fn codex_list_page() {
    let l = parse_html_codex_list(LIST).unwrap();
    assert!(l.has_next_page);
    assert_eq!(l.entries.len(), 2);
    assert_eq!(l.entries[0].value, "Sword");
    assert_eq!(l.entries[0].meta.as_deref(), Some("Weapon"));
    assert_eq!(l.entries[0].tier, 3);
    assert_eq!(l.entries[0].uri, "/codex/items/sword/");
    assert_eq!(l.entries[1].value, "Potion");
    assert_eq!(l.entries[1].meta, None);
    assert_eq!(l.entries[1].tier, 10);
    let last = LIST.replace("Next page", "Previous page");
    assert!(!parse_html_codex_list(&last).unwrap().has_next_page);
    let e = parse_html_codex_list("<html><body><div class=\"codex-entries\"></div></body></html>").unwrap_err();
    assert!(matches!(e.kind, Kind::HTMLParsingError(ref m) if m == "Failed to find \".pagination\" in html"));
    let e = parse_html_codex_list("<html></html>").unwrap_err();
    assert!(matches!(e.kind, Kind::HTMLParsingError(ref m) if m == "Failed to find \".codex-entries\" in html"));
}

const ITEM: &str = r#"<html><body><h1 class="herotext"> Hood </h1><div class="codex-page"><div class="codex-page-icon"><img src="https://playorna.com/static/img/armor/hood.png"></div><div class="codex-page-description">A hood.</div><div class="codex-page-meta">Tier: ★3</div><div class="codex-page-meta">Place: Head</div><div class="codex-page-tag">✓ Found in shops</div><div>Ability: Sting</div><span></span><div class="codex-page-description">Hurts</div><h4>Gives:</h4><div><img src="https://playorna.com/static/img/statuses/b.png"> Bloodshift (50%)</div><hr><h4>Dropped by:</h4><div><a href="/codex/monsters/slime/"><img src="https://playorna.com/static/img/monsters/slime.png">Slime</a></div></div></body></html>"#;

#[test]
fn codex_item_page() {
    let item = parse_html_codex_item(ITEM, "hood").unwrap();
    assert_eq!(item.slug, "hood");
    assert_eq!(item.name, "Hood");
    assert_eq!(item.icon, "armor/hood.png");
    assert_eq!(item.description, "A hood.");
    assert_eq!(item.tier, 3);
    assert_eq!(item.tags, vec![Tag::FoundInShops]);
    let ability = item.ability.clone().unwrap();
    assert_eq!(ability.name, "Sting");
    assert_eq!(ability.description, "Hurts");
    assert_eq!(item.gives.len(), 1);
    assert_eq!(item.gives[0].name, "Bloodshift");
    assert_eq!(item.gives[0].chance, 50);
    assert_eq!(item.dropped_by.len(), 1);
    assert_eq!(item.dropped_by[0].name, "Slime");
    assert_eq!(item.dropped_by[0].uri, "/codex/monsters/slime/");
    assert_eq!(item.dropped_by[0].icon, "monsters/slime.png");
}

#[test]
fn codex_item_page_errors() {
    let e = parse_html_codex_item("<html><body></body></html>", "hood").unwrap_err();
    assert!(matches!(e.kind, Kind::HTMLParsingError(ref m) if m == "Failed to find \".herotext\" in html"));
    assert_eq!(e.context, vec!["parsing hood".to_string()]);
    let no_page = r#"<html><body><h1 class="herotext">Hood</h1></body></html>"#;
    let e = parse_html_codex_item(no_page, "hood").unwrap_err();
    assert!(matches!(e.kind, Kind::HTMLParsingError(ref m) if m == "Failed to find \".codex-page\" in html"));
    let no_description = ITEM.replace("codex-page-description", "other");
    let e = parse_html_codex_item(&no_description, "hood").unwrap_err();
    assert!(matches!(e.kind, Kind::HTMLParsingError(ref m) if m == "Failed to find description"));
    assert_eq!(e.context, vec!["parsing hood".to_string()]);
    let relative = ITEM.replace("https://playorna.com/static/img/armor/hood.png", "/static/img/armor/hood.png");
    assert!(try_parse_html_codex_item(&relative, "hood").is_none());
}

const SKILL: &str = r#"<html><body><h1 class="herotext">Bite</h1><div class="codex-page"><div class="codex-page-icon"><img src="https://playorna.com/static/img/skills/bite.png"></div><div class="codex-page-description"> Bites. </div><div class="codex-page-meta">Tier: ★2</div><div class="codex-page-tag">✓ Off-hand ability</div><h4>Causes:</h4><div><img src="https://playorna.com/static/img/b.png"><span>Bleeding (30%)</span></div><p>end</p><div><span>Ignored</span></div><h4>Gives:</h4></div></body></html>"#;

#[test]
fn codex_skill_page() {
    let skill = parse_html_codex_skill(SKILL, "bite".to_string()).unwrap();
    assert_eq!(skill.name, "Bite");
    assert_eq!(skill.description, "Bites.");
    assert_eq!(skill.tier, 2);
    assert_eq!(skill.icon, "skills/bite.png");
    assert_eq!(skill.causes.len(), 1);
    assert_eq!(skill.causes[0].effect, "Bleeding");
    assert_eq!(skill.causes[0].chance, 30);
    assert!(skill.gives.is_empty());
    assert!(skill.is_offhand());
    let odd = SKILL.replace("<h4>Gives:</h4>", "<h4>Other:</h4>");
    assert!(try_parse_html_codex_skill(&odd, "bite".to_string()).is_none());
    let e = parse_html_codex_skill(&SKILL.replace("codex-page-meta", "x"), "bite".to_string()).unwrap_err();
    assert!(matches!(e.kind, Kind::HTMLParsingError(ref m) if m == "Failed to find \".codex-page-meta\" in page"));
}

const FOLLOWER: &str = r#"<html><body><h1 class="herotext">Wolf</h1><div class="codex-page"><div class="codex-page-icon"><img src="https://playorna.com/static/img/followers/wolf.png"></div><div class="codex-page-description">A wolf.</div><div class="codex-page-description codex-page-description-highlight">Event: Winter/Autumn</div><div class="codex-page-description">Rarity: Rare</div><div class="codex-page-meta">Tier: ★4</div><h4> Abilities: </h4><div><a href="/codex/spells/bite/"><img src="https://playorna.com/static/img/skills/bite.png">Bite</a></div><hr></div></body></html>"#;

#[test]
fn codex_follower_page() {
    let f = parse_html_codex_follower(FOLLOWER, "wolf".to_string()).unwrap();
    assert_eq!(f.name, "Wolf");
    assert_eq!(f.slug, "wolf");
    assert_eq!(f.icon, "followers/wolf.png");
    assert_eq!(f.tier, 4);
    assert_eq!(f.events, vec!["Autumn".to_string(), "Winter".to_string()]);
    assert_eq!(f.rarity, "Rare");
    assert_eq!(f.abilities.len(), 1);
    assert_eq!(f.abilities[0].name, "Bite");
    assert_eq!(f.abilities[0].uri, "/codex/spells/bite/");
    let odd = FOLLOWER.replace(" Abilities: ", "Skills:");
    assert!(try_parse_html_codex_follower(&odd, "wolf".to_string()).is_none());
}

#[test]
fn post_answer_pages() {
    assert!(parse_post_error_html("u", "<html><body><p>Saved</p></body></html>", "#item_form").is_ok());
    let page = r#"<html><body><form id="item_form"><p class="errornote">Please correct the errors below.</p><div class="errors field-name"><ul class="errorlist"><li> This field is required. </li></ul></div></form></body></html>"#;
    let e = parse_post_error_html("https://orna.guide/x", page, "#item_form").unwrap_err();
    match e.kind {
        Kind::GuidePostFormError(url, note, errors) => {
            assert_eq!(url, "https://orna.guide/x");
            assert_eq!(note, "Please correct the errors below.");
            assert_eq!(errors.len(), 1);
            assert!(errors[0].contains("This field is required."));
        },
        k => panic!("unexpected {:?}", k),
    }
    let no_note = r#"<html><body><form id="item_form"></form></body></html>"#;
    let e = parse_post_error_html("u", no_note, "#item_form").unwrap_err();
    assert!(matches!(e.kind, Kind::HTMLParsingError(ref m) if m == "Failed to find \".errornote\" in post error form"));
}

#[test]
fn translated_pages() {
    let item = parse_html_codex_item_translation(ITEM, "hood".to_string()).unwrap();
    assert_eq!(item.name, "Hood");
    assert_eq!(item.icon, "armor/hood.png");
    assert_eq!(item.description, "A hood.");
    assert!(item.stats.is_none());
    let skill = parse_html_codex_skill_translation(SKILL, "bite".to_string()).unwrap();
    assert_eq!(skill.tier, 2);
    assert!(skill.tags.is_empty());
    assert_eq!(skill.causes.len(), 1);
    let f = parse_html_codex_follower_translation(FOLLOWER, "wolf".to_string()).unwrap();
    assert_eq!(f.tier, 4);
    assert!(f.abilities.is_empty());
}
