use ornaguide::codex::affix::{parse_percent_with_maybe_a_dot, parse_tenth_percent_value, Affix};
use ornaguide::error::Kind;
use ornaguide::num::IntErrorKind;

fn html_message(kind: &Kind) -> Option<&str> {
    match kind {
        Kind::HTMLParsingError(m) => Some(m.as_str()),
        _ => None,
    }
}

#[test]
fn affix_simple_values() {
    assert_eq!(Affix::parse_from_codex_html("Gold Bonus:", "5").unwrap(), Affix::GoldBonus(5));
    assert_eq!(Affix::parse_from_codex_html("EXP Bonus:", "-12").unwrap(), Affix::ExpBonus(-12));
    assert_eq!(Affix::parse_from_codex_html("Luck Bonus:", "300").unwrap(), Affix::LuckBonus(300));
    assert_eq!(Affix::parse_from_codex_html("Dark Res:", "-5").unwrap(), Affix::DarkRes(-5));
    assert_eq!(Affix::parse_from_codex_html("View distance:", "3").unwrap(), Affix::ViewDistance(3));
    assert_eq!(Affix::parse_from_codex_html("View Distance:", "4").unwrap(), Affix::ViewDistance(4));
}

#[test]
fn affix_summon_protection() {
    assert_eq!(
        Affix::parse_from_codex_html("Summon Protection:", "7").unwrap(),
        Affix::SummonProtection(7)
    );
}

#[test]
fn affix_ward_start() {
    assert_eq!(Affix::parse_from_codex_html("Ward Start:", "2 turns").unwrap(), Affix::WardStart(2));
    let e = Affix::parse_from_codex_html("Ward Start:", "2").unwrap_err();
    assert_eq!(html_message(&e.kind), Some("Invalid Ward Start value: \"2\""));
}

#[test]
fn affix_tenth_and_percent_values() {
    assert_eq!(Affix::parse_from_codex_html("Avidity:", "1.5").unwrap(), Affix::Avidity(15));
    assert_eq!(Affix::parse_from_codex_html("Mana Regen:", "2").unwrap(), Affix::ManaRegen(20));
    assert_eq!(
        Affix::parse_from_codex_html("Follower Stats:", "-10.0").unwrap(),
        Affix::FollowerStats(-10)
    );
    assert_eq!(
        Affix::parse_from_codex_html("Mana Reduction:", "-50.0").unwrap(),
        Affix::ManaReduction(-50)
    );
}

#[test]
fn affix_unknown_stat() {
    let e = Affix::parse_from_codex_html("Nonsense:", "1").unwrap_err();
    assert_eq!(html_message(&e.kind), Some("Failed to parse affix: \"Nonsense::1\""));
}

#[test]
fn affix_bad_integer() {
    let e = Affix::parse_from_codex_html("Gold Bonus:", "x").unwrap_err();
    assert!(matches!(e.kind, Kind::ParseIntError(IntErrorKind::InvalidDigit)));
    let e = Affix::parse_from_codex_html("Gold Bonus:", "256").unwrap_err();
    assert!(matches!(e.kind, Kind::ParseIntError(IntErrorKind::PosOverflow)));
    let e = Affix::parse_from_codex_html("Gold Bonus:", "").unwrap_err();
    assert!(matches!(e.kind, Kind::ParseIntError(IntErrorKind::Empty)));
}

#[test]
fn tenth_percent_formula() {
    assert_eq!(parse_tenth_percent_value("1").unwrap(), 10);
    assert_eq!(parse_tenth_percent_value("0.5").unwrap(), 5);
    assert_eq!(parse_tenth_percent_value("+2.5").unwrap(), 25);
    assert_eq!(parse_tenth_percent_value("12.3").unwrap(), 123);
    let e = parse_tenth_percent_value("1.25").unwrap_err();
    assert_eq!(html_message(&e.kind), Some("Invalid 10th-percent value: \"1.25\""));
    let e = parse_tenth_percent_value("1.x").unwrap_err();
    assert_eq!(html_message(&e.kind), Some("Invalid 10th-percent value: \"1.x\""));
}

#[test]
fn percent_with_maybe_a_dot() {
    assert_eq!(parse_percent_with_maybe_a_dot("-10.0").unwrap(), -10);
    assert_eq!(parse_percent_with_maybe_a_dot("20").unwrap(), 20);
    assert_eq!(parse_percent_with_maybe_a_dot("5.0").unwrap(), 5);
}

#[test]
fn tenth_percent_values_with_percent_sign() {
    assert_eq!(parse_tenth_percent_value("1%").unwrap(), 10);
    assert_eq!(parse_tenth_percent_value("0.5%").unwrap(), 5);
    assert_eq!(parse_tenth_percent_value("1").unwrap(), 10);
    assert_eq!(parse_tenth_percent_value("0.5").unwrap(), 5);
    assert!(parse_tenth_percent_value("0.55").is_err());
    assert_eq!(Affix::parse_from_codex_html("Avidity:", "0.5").unwrap(), Affix::Avidity(5));
    assert_eq!(Affix::parse_from_codex_html("Follower Stats:", "-10.0").unwrap(), Affix::FollowerStats(-10));
    assert_eq!(Affix::parse_from_codex_html("Ward Start:", "3 turns").unwrap(), Affix::WardStart(3));
    assert!(Affix::parse_from_codex_html("Ward Start:", "3").is_err());
    assert!(Affix::parse_from_codex_html("Gold Bonus:", "300").is_err());
    assert!(Affix::parse_from_codex_html("Unknown:", "5").is_err());
}
