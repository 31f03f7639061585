use ornaguide::error::Kind;
use ornaguide::num::IntErrorKind;

fn s(x: &str) -> String {
    x.to_string()
}

#[test]
fn error_messages() {
    assert_eq!(Kind::MissingField(s("Item"), s("tier")).to_string(), "Failed to convert Item: missing field tier");
    assert_eq!(Kind::ExtraField(s("Item"), s("hp")).to_string(), "Failed to convert Item: extra field hp");
    assert_eq!(
        Kind::InvalidField(s("Item"), s("type"), Some(s("Rock"))).to_string(),
        "Failed to convert Item: invalid field type=Rock"
    );
    assert_eq!(Kind::InvalidField(s("Item"), s("type"), None).to_string(), "Failed to convert Item: invalid field type");
    assert_eq!(Kind::ParseEnumError(s("Place"), s("Invalid value: Feet")).to_string(), "Could not parse enum Place: Invalid value: Feet");
    assert_eq!(Kind::ParseBoolError.to_string(), "provided string was not `true` or `false`");
    assert_eq!(Kind::ParseIntError(IntErrorKind::Empty).to_string(), "cannot parse integer from empty string");
    assert_eq!(
        Kind::ResponseError(s("GET"), s("https://x"), 404, s("Not found")).to_string(),
        "HTTP GET https://x 404: Not found"
    );
    assert_eq!(
        Kind::GuidePostFormError(s("u"), s("Bad"), vec![s("name: required")]).to_string(),
        "HTTP POST u: Bad: [\"name: required\"]"
    );
    assert_eq!(
        Kind::PartialCodexStatusEffectsConversion(vec![1, 2], vec![s("Poison")]).to_string(),
        "Partial codex status effects conversion: OK [1, 2], KO [\"Poison\"]"
    );
    assert_eq!(Kind::Misc(s("oops")).to_string(), "oops");
}

#[test]
fn error_context() {
    let e = Kind::Misc(s("oops")).into_err().ctx_push(s("parsing x")).ctx_push(s("fetching y"));
    assert_eq!(e.context, vec![s("parsing x"), s("fetching y")]);
    assert!(matches!(e.kind, Kind::Misc(ref m) if m == "oops"));
}
