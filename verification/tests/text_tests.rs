use ornaguide::misc::{codex_effect_name_to_guide_name, sanitize_guide_name, truncate_str_until};
use ornaguide::num::{parse_bool, parse_i8, parse_u32, signed_to_string, unsigned_to_string, IntErrorKind};
use ornaguide::text::{split_str, trim, trim_end_matches, trim_start_matches};

#[test]
fn trimming() {
    assert_eq!(trim("  a b \t"), "a b");
    assert_eq!(trim_start_matches("++1", '+'), "1");
    assert_eq!(trim_end_matches("x//", '/'), "x");
}

#[test]
fn split_on_separator() {
    assert_eq!(
        split_str("Collateral Chance: +2% / Collateral Damage: +20%", " / "),
        vec!["Collateral Chance: +2%", "Collateral Damage: +20%"]
    );
    assert_eq!(split_str("Def/Res Penetration: 5%", " / "), vec!["Def/Res Penetration: 5%"]);
    assert_eq!(split_str("a / / b", " / "), vec!["a", "/ b"]);
    assert_eq!(split_str("a /  / b", " / "), vec!["a", "", "b"]);
}

#[test]
fn integers_like_str_parse() {
    assert_eq!(parse_i8("-128"), Ok(-128));
    assert_eq!(parse_i8("+5"), Ok(5));
    assert_eq!(parse_i8("128"), Err(IntErrorKind::PosOverflow));
    assert_eq!(parse_i8("-129"), Err(IntErrorKind::NegOverflow));
    assert_eq!(parse_i8("-"), Err(IntErrorKind::InvalidDigit));
    assert_eq!(parse_u32("-1"), Err(IntErrorKind::InvalidDigit));
    assert_eq!(parse_bool("true"), Some(true));
    assert_eq!(parse_bool("True"), None);
}

#[test]
fn integers_to_text() {
    assert_eq!(unsigned_to_string(0), "0");
    assert_eq!(unsigned_to_string(4_294_967_295), "4294967295");
    assert_eq!(signed_to_string(-9_223_372_036_854_775_808), "-9223372036854775808");
}

#[test]
fn effect_names() {
    assert_eq!(codex_effect_name_to_guide_name("Bloodshift"), "Bloodshift [temp]");
    assert_eq!(codex_effect_name_to_guide_name("Dumbr"), "Call of Dumbr");
    assert_eq!(codex_effect_name_to_guide_name("Foresight ↑"), "Foresight ↑ [temp]");
    assert_eq!(codex_effect_name_to_guide_name("Poison"), "Poison");
}

#[test]
fn guide_names() {
    assert_eq!(sanitize_guide_name("Bloodshift [temp]"), "Bloodshift");
    assert_eq!(sanitize_guide_name("Plain"), "Plain");
    assert_eq!(truncate_str_until("a:b:c", ':'), Some("b:c"));
    assert_eq!(truncate_str_until("abc", ':'), None);
}

#[test]
fn strings_sort_like_str() {
    let v = vec!["b".to_string(), "ab".to_string(), "a".to_string(), "é".to_string(), "Z".to_string(), "b".to_string()];
    let sorted = ornaguide::text::sort_strings(v.clone());
    let mut expected = v;
    expected.sort_unstable();
    assert_eq!(sorted, expected);
}

#[test]
fn join_and_contains() {
    let v = vec!["Spring".to_string(), "Winter".to_string()];
    assert_eq!(ornaguide::text::join(&v, ", "), "Spring, Winter");
    assert_eq!(ornaguide::text::join(&vec![], ", "), "");
    assert!(ornaguide::text::contains_sub("« Next page »", "Next page"));
    assert!(!ornaguide::text::contains_sub("Next pag", "Next page"));
    assert!(ornaguide::text::contains_sub("", ""));
}

#[test]
fn fixed_guide_lists() {
    let els = ornaguide::guide::statics::admin_retrieve_elements_list();
    assert_eq!(els.len(), 9);
    assert_eq!(els[7].id, 9);
    assert_eq!(els[7].name, "Physical");
    let eq = ornaguide::guide::statics::admin_retrieve_equipped_bys_list();
    assert_eq!(eq.iter().map(|e| e.name.as_str()).collect::<Vec<_>>(), vec!["Warrior", "Mage", "Thief"]);
}
