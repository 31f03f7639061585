//! The error type of the library.

use vstd::prelude::*;

use crate::num::{
    parse_i16, parse_i8, parse_u16, parse_u8, spec_dec, spec_int_text, spec_parse_int, unsigned_to_string, FloatErrorKind,
    IntErrorKind,
};
use crate::text::{concat2, concat3, to_owned};

verus! {

/// What went wrong.
#[derive(Debug)]
pub enum Kind {
    /// A field was missing when converting.
    /// The first `String` is the name of the object that was converted, the second one is the
    /// name of the field.
    MissingField(String, String),
    /// A field that shouldn't appear was found when converting.
    /// The first `String` is the name of the object that was converted, the second one is the
    /// name of the field.
    ExtraField(String, String),
    /// A field had an incorrect value when converting.
    /// The first `String` is the name of the object that was converted, the second one is the
    /// name of the field. The third one is the value of the field, if known.
    InvalidField(String, String, Option<String>),
    /// There was an error parsing an enum: the name of the enum and a message.
    ParseEnumError(String, String),
    /// There was an error parsing a boolean.
    ParseBoolError,
    /// There was an error parsing an integer.
    ParseIntError(IntErrorKind),
    /// There was an error parsing a decimal number.
    ParseFloatError(FloatErrorKind),
    /// The request was delivered, but the response indicated a failure: the method, the URL,
    /// the status code and a message.
    ResponseError(String, String, u16, String),
    /// The guide answered a form with errors: the URL, the generic message and the list of
    /// errors found throughout the page.
    GuidePostFormError(String, String, Vec<String>),
    /// There was an error in parsing HTML.
    HTMLParsingError(String),
    /// A conversion from codex status effects to guide ids did not fully succeed: the ids that
    /// were found and the names that were not.
    PartialCodexStatusEffectsConversion(Vec<u32>, Vec<String>),
    /// A conversion from codex skills to guide ids did not fully succeed.
    PartialCodexSkillsConversion(Vec<u32>, Vec<String>),
    /// A conversion from codex item droppers to guide ids did not fully succeed.
    PartialCodexItemDroppedBysConversion(Vec<u32>, Vec<String>),
    /// A conversion from codex upgrade materials to guide ids did not fully succeed.
    PartialCodexItemUpgradeMaterialsConversion(Vec<u32>, Vec<String>),
    /// A conversion from codex follower abilities to guide ids did not fully succeed.
    PartialCodexFollowerAbilitiesConversion(Vec<u32>, Vec<String>),
    /// A conversion from codex monster abilities to guide ids did not fully succeed.
    PartialCodexMonsterAbilitiesConversion(Vec<u32>, Vec<String>),
    /// A conversion from codex events to guide ids did not fully succeed.
    PartialCodexEventsConversion(Vec<u32>, Vec<String>),
    /// A conversion between buffer types failed.
    BufferConversionError(String),
    /// An UTF-8 error occured.
    InvalidUTF8Conversion(String),
    /// Miscellaneous error.
    Misc(String),
}

/// An error and the context that was added to it on its way up.
#[derive(Debug)]
pub struct Error {
    /// The error that happened.
    pub kind: Kind,
    /// Context that was added to the error, oldest first.
    pub context: Vec<String>,
}

impl Kind {
    /// Convert the error kind into an error with an empty context.
    pub fn into_err(self) -> (e: Error)
        ensures
            e.kind == self,
            e.context@ == Seq::<String>::empty(),
    {
        Error { kind: self, context: Vec::new() }
    }
}

impl Error {
    /// Pushes an element onto the context stack and returns the error.
    pub fn ctx_push(self, contents: String) -> (e: Self)
        ensures
            e.kind == self.kind,
            e.context@ == self.context@.push(contents),
    {
        let mut e = self;
        e.context.push(contents);
        e
    }
}

/// `e` is an error of kind `Misc` with the message `msg` and no context.
pub open spec fn is_misc(e: Error, msg: Seq<char>) -> bool {
    &&& e.context@.len() == 0
    &&& e.kind matches Kind::Misc(m) && m@ == msg
}

/// `e` is an error of kind `HTMLParsingError` with the message `msg` and no context.
pub open spec fn is_html_error(e: Error, msg: Seq<char>) -> bool {
    &&& e.context@.len() == 0
    &&& e.kind matches Kind::HTMLParsingError(m) && m@ == msg
}

/// `e` is an error of kind `ParseIntError` for `k`, with no context.
pub open spec fn is_int_error(e: Error, k: IntErrorKind) -> bool {
    &&& e.context@.len() == 0
    &&& e.kind == Kind::ParseIntError(k)
}

/// Why reading a piece of text failed, before it becomes an [`Error`].
pub enum Failure {
    /// An integer could not be read.
    Int(IntErrorKind),
    /// The text is malformed; the message of the error.
    Html(Seq<char>),
    /// The text names no value of an enum: the name of the enum and the text.
    Enum(Seq<char>, Seq<char>),
}

/// `e` is the error that reports the failure of `s` (and `s` failed).
pub open spec fn fails_with<T>(e: Error, s: Result<T, Failure>) -> bool {
    match s {
        Ok(_) => false,
        Err(Failure::Int(k)) => is_int_error(e, k),
        Err(Failure::Html(m)) => is_html_error(e, m),
        Err(Failure::Enum(n, v)) => {
            &&& e.context@.len() == 0
            &&& e.kind matches Kind::ParseEnumError(a, b) && a@ == n && b@ == "Invalid value: "@ + v
        },
    }
}

/// `r` is what `s` describes: the value that `x` maps to the one of `s`, or the
/// error that reports its failure.
pub open spec fn int_outcome<T>(r: Result<T, Error>, x: spec_fn(T) -> int, s: Result<int, Failure>) -> bool {
    match r {
        Ok(v) => s == Ok::<int, Failure>(x(v)),
        Err(e) => fails_with(e, s),
    }
}

/// `e` reports that the field `field` of the object `obj` is missing.
pub open spec fn is_missing_field(e: Error, obj: Seq<char>, field: Seq<char>) -> bool {
    &&& e.context@.len() == 0
    &&& e.kind matches Kind::MissingField(o, f) && o@ == obj && f@ == field
}

/// `e` reports that the field `field` of the object `obj` should not be there.
pub open spec fn is_extra_field(e: Error, obj: Seq<char>, field: Seq<char>) -> bool {
    &&& e.context@.len() == 0
    &&& e.kind matches Kind::ExtraField(o, f) && o@ == obj && f@ == field
}

/// `e` reports that the field `field` of the object `obj` has the invalid value `value`.
pub open spec fn is_invalid_field(e: Error, obj: Seq<char>, field: Seq<char>, value: Seq<char>) -> bool {
    &&& e.context@.len() == 0
    &&& e.kind matches Kind::InvalidField(o, f, Some(v)) && o@ == obj && f@ == field && v@ == value
}

/// Why reading a form failed, before it becomes an [`Error`].
pub enum FormFailure {
    /// The value of a field is not an integer of the field's type.
    Int(IntErrorKind),
    /// The value of a field is not a decimal number.
    Float(FloatErrorKind),
    /// A field of that name does not belong to the form: its name and its value.
    Extra(Seq<char>, Seq<char>),
}

/// `e` reports the failure `f` of reading a form.
pub open spec fn fails_form(e: Error, f: FormFailure) -> bool {
    match f {
        FormFailure::Int(k) => is_int_error(e, k),
        FormFailure::Float(k) => e.context@.len() == 0 && e.kind == Kind::ParseFloatError(k),
        FormFailure::Extra(k, v) => is_extra_field(e, k, v),
    }
}

/// `str::parse` of a form value into an integer in `lo..=hi`, with the failure
/// reading the form reports.
#[verifier::opaque]
pub open spec fn form_int(value: Seq<char>, lo: int, hi: int) -> Result<int, FormFailure> {
    match spec_parse_int(value, lo, hi) {
        Ok(x) => Ok(x),
        Err(k) => Err(FormFailure::Int(k)),
    }
}

/// Reading back the decimal text of a number of a type's range gives the number.
pub proof fn lemma_form_int_dec(n: nat, hi: int)
    requires
        n <= hi,
    ensures
        form_int(spec_dec(n), 0, hi) == Ok::<int, FormFailure>(n as int),
{
    reveal(form_int);
    crate::num::lemma_parse_dec(n, hi);
}

/// Reading back the decimal text of an integer of a type's range gives the integer.
pub proof fn lemma_form_int_text(v: int, lo: int, hi: int)
    requires
        lo <= v <= hi,
        lo <= 0 <= hi,
    ensures
        form_int(spec_int_text(v), lo, hi) == Ok::<int, FormFailure>(v),
{
    reveal(form_int);
    crate::num::lemma_parse_int_text(v, lo, hi);
}

/// An error of kind `Misc` with the message `msg`.
pub fn misc(msg: String) -> (e: Error)
    ensures
        is_misc(e, msg@),
{
    Error { kind: Kind::Misc(msg), context: Vec::new() }
}

/// An error of kind `HTMLParsingError` with the message `msg`.
pub fn html_error(msg: String) -> (e: Error)
    ensures
        is_html_error(e, msg@),
{
    Error { kind: Kind::HTMLParsingError(msg), context: Vec::new() }
}

/// An error of kind `ParseFloatError`.
pub fn float_error(k: FloatErrorKind) -> (e: Error)
    ensures
        e.context@.len() == 0,
        e.kind == Kind::ParseFloatError(k),
{
    Error { kind: Kind::ParseFloatError(k), context: Vec::new() }
}

/// An error of kind `ParseIntError`.
pub fn int_error(k: IntErrorKind) -> (e: Error)
    ensures
        is_int_error(e, k),
{
    Error { kind: Kind::ParseIntError(k), context: Vec::new() }
}

/// `str::parse` into an integer in `lo..=hi`, with the failure it reports.
pub open spec fn read_int(v: Seq<char>, lo: int, hi: int) -> Result<int, Failure> {
    match spec_parse_int(v, lo, hi) {
        Ok(x) => Ok(x),
        Err(k) => Err(Failure::Int(k)),
    }
}

/// `v.parse::<u8>()`.
pub fn read_u8(v: &str) -> (r: Result<u8, Error>)
    ensures
        int_outcome(r, |x: u8| x as int, read_int(v@, 0, 255)),
{
    match parse_u8(v) {
        Ok(x) => Ok(x),
        Err(k) => Err(int_error(k)),
    }
}

/// `v.parse::<i8>()`.
pub fn read_i8(v: &str) -> (r: Result<i8, Error>)
    ensures
        int_outcome(r, |x: i8| x as int, read_int(v@, -128, 127)),
{
    match parse_i8(v) {
        Ok(x) => Ok(x),
        Err(k) => Err(int_error(k)),
    }
}

/// `v.parse::<u16>()`.
pub fn read_u16(v: &str) -> (r: Result<u16, Error>)
    ensures
        int_outcome(r, |x: u16| x as int, read_int(v@, 0, 65535)),
{
    match parse_u16(v) {
        Ok(x) => Ok(x),
        Err(k) => Err(int_error(k)),
    }
}

/// `v.parse::<i16>()`.
pub fn read_i16(v: &str) -> (r: Result<i16, Error>)
    ensures
        int_outcome(r, |x: i16| x as int, read_int(v@, -32768, 32767)),
{
    match parse_i16(v) {
        Ok(x) => Ok(x),
        Err(k) => Err(int_error(k)),
    }
}


/// The message std gives a failed integer parse of the kind `k`.
pub open spec fn int_error_message(k: IntErrorKind) -> Seq<char> {
    match k {
        IntErrorKind::Empty => "cannot parse integer from empty string"@,
        IntErrorKind::InvalidDigit => "invalid digit found in string"@,
        IntErrorKind::PosOverflow => "number too large to fit in target type"@,
        IntErrorKind::NegOverflow => "number too small to fit in target type"@,
    }
}

/// `format!("{:?}", ids)` for a list of ids: `[1, 2, 3]`.
pub open spec fn ids_debug(ids: Seq<u32>) -> Seq<char> {
    "["@ + ids_joined(ids) + "]"@
}

/// The decimal texts of `ids` joined with `, `.
pub open spec fn ids_joined(ids: Seq<u32>) -> Seq<char>
    decreases ids.len(),
{
    if ids.len() == 0 {
        Seq::empty()
    } else if ids.len() == 1 {
        spec_dec(ids[0] as nat)
    } else {
        ids_joined(ids.drop_last()) + ", "@ + spec_dec(ids.last() as nat)
    }
}

/// The characters of each string of `v`.
pub open spec fn texts_view(v: Seq<String>) -> Seq<Seq<char>> {
    v.map_values(|s: String| s@)
}

/// What `format!("{:?}", texts)` writes for a list of strings.
pub uninterp spec fn texts_debug_text(texts: Seq<Seq<char>>) -> Seq<char>;

/// `format!("{:?}", texts)`.
///
/// Formats with std's `Debug` for `Vec<String>`. The contract claims only that the
/// text is a function of the characters of the strings (named `texts_debug_text`);
/// the escaping std applies to each string is left unstated.
#[verifier::external_body]
fn debug_texts(texts: &Vec<String>) -> (r: String)
    ensures
        r@ == texts_debug_text(texts_view(texts@)),
{
    format!("{:?}", texts)
}

/// What `format!("{:#?}", text)` writes for a string.
pub uninterp spec fn text_debug_text(text: Seq<char>) -> Seq<char>;

/// `format!("{:#?}", text)`.
///
/// Formats with std's `Debug` for `str`: the text between double quotes, with
/// its quotes, backslashes and control characters escaped. The contract claims only
/// that the result is a function of the characters of the text (named
/// `text_debug_text`); the escaping is left unstated.
#[verifier::external_body]
pub(crate) fn debug_text(text: &str) -> (r: String)
    ensures
        r@ == text_debug_text(text@),
{
    format!("{:#?}", text)
}

/// `format!("{:?}", ids)` for a list of ids.
fn debug_ids(ids: &Vec<u32>) -> (r: String)
    ensures
        r@ == ids_debug(ids@),
{
    let mut r = String::new();
    let mut i: usize = 0;
    while i < ids.len()
        invariant
            i <= ids@.len(),
            r@ == ids_joined(ids@.take(i as int)),
        decreases ids.len() - i,
    {
        proof {
            assert(ids@.take(i + 1).drop_last() =~= ids@.take(i as int));
        }
        let d = unsigned_to_string(ids[i] as u64);
        if i == 0 {
            r = d;
        } else {
            r = concat3(r.as_str(), ", ", d.as_str());
        }
        i = i + 1;
    }
    assert(ids@.take(ids@.len() as int) =~= ids@);
    concat3("[", r.as_str(), "]")
}

/// The message of a partial conversion: what was converted and what was not.
pub open spec fn partial_message(what: Seq<char>, found: Seq<u32>, not_found: Seq<Seq<char>>) -> Seq<char> {
    "Partial codex "@ + what + " conversion: OK "@ + ids_debug(found) + ", KO "@ + texts_debug_text(
        not_found,
    )
}

/// The message an error of kind `k` displays.
pub open spec fn kind_message(k: Kind) -> Seq<char> {
    match k {
        Kind::MissingField(from, field) => "Failed to convert "@ + from@ + ": missing field "@ + field@,
        Kind::ExtraField(from, field) => "Failed to convert "@ + from@ + ": extra field "@ + field@,
        Kind::InvalidField(from, field, value) => match value {
            Some(s) => "Failed to convert "@ + from@ + ": invalid field "@ + field@ + "="@ + s@,
            None => "Failed to convert "@ + from@ + ": invalid field "@ + field@,
        },
        Kind::ParseEnumError(name, err) => "Could not parse enum "@ + name@ + ": "@ + err@,
        Kind::ParseBoolError => "provided string was not `true` or `false`"@,
        Kind::ParseIntError(k) => int_error_message(k),
        Kind::ParseFloatError(k) => match k {
            FloatErrorKind::Empty => "cannot parse float from empty string"@,
            FloatErrorKind::Invalid => "invalid float literal"@,
        },
        Kind::ResponseError(method, url, status, err) => "HTTP "@ + method@ + " "@ + url@ + " "@
            + spec_dec(status as nat) + ": "@ + err@,
        Kind::GuidePostFormError(url, generic, errors) => "HTTP POST "@ + url@ + ": "@ + generic@
            + ": "@ + texts_debug_text(texts_view(errors@)),
        Kind::HTMLParsingError(err) => err@,
        Kind::PartialCodexStatusEffectsConversion(f, n) => partial_message("status effects"@, f@, texts_view(n@)),
        Kind::PartialCodexSkillsConversion(f, n) => partial_message("skills"@, f@, texts_view(n@)),
        Kind::PartialCodexItemDroppedBysConversion(f, n) => partial_message("item dropped_bys"@, f@, texts_view(n@)),
        Kind::PartialCodexItemUpgradeMaterialsConversion(f, n) => partial_message(
            "item upgrade materials"@,
            f@,
            texts_view(n@),
        ),
        Kind::PartialCodexFollowerAbilitiesConversion(f, n) => partial_message(
            "follower abilities"@,
            f@,
            texts_view(n@),
        ),
        Kind::PartialCodexMonsterAbilitiesConversion(f, n) => partial_message(
            "monster abilities"@,
            f@,
            texts_view(n@),
        ),
        Kind::PartialCodexEventsConversion(f, n) => partial_message("events"@, f@, texts_view(n@)),
        Kind::BufferConversionError(err) => err@,
        Kind::InvalidUTF8Conversion(err) => err@,
        Kind::Misc(err) => err@,
    }
}

/// The message of a partial conversion.
fn partial(what: &str, found: &Vec<u32>, not_found: &Vec<String>) -> (r: String)
    ensures
        r@ == partial_message(what@, found@, texts_view(not_found@)),
{
    let a = concat3("Partial codex ", what, " conversion: OK ");
    let b = concat3(a.as_str(), debug_ids(found).as_str(), ", KO ");
    concat2(b.as_str(), debug_texts(not_found).as_str())
}

impl Kind {
    /// The message the error displays.
    pub fn to_string(&self) -> (r: String)
        ensures
            r@ == kind_message(*self),
    {
        match self {
            Kind::MissingField(from, field) => {
                let a = concat3("Failed to convert ", from.as_str(), ": missing field ");
                concat2(a.as_str(), field.as_str())
            },
            Kind::ExtraField(from, field) => {
                let a = concat3("Failed to convert ", from.as_str(), ": extra field ");
                concat2(a.as_str(), field.as_str())
            },
            Kind::InvalidField(from, field, value) => {
                let a = concat3("Failed to convert ", from.as_str(), ": invalid field ");
                let b = concat2(a.as_str(), field.as_str());
                match value {
                    Some(s) => concat3(b.as_str(), "=", s.as_str()),
                    None => b,
                }
            },
            Kind::ParseEnumError(name, err) => {
                let a = concat3("Could not parse enum ", name.as_str(), ": ");
                concat2(a.as_str(), err.as_str())
            },
            Kind::ParseBoolError => to_owned("provided string was not `true` or `false`"),
            Kind::ParseIntError(k) => match k {
                IntErrorKind::Empty => to_owned("cannot parse integer from empty string"),
                IntErrorKind::InvalidDigit => to_owned("invalid digit found in string"),
                IntErrorKind::PosOverflow => to_owned("number too large to fit in target type"),
                IntErrorKind::NegOverflow => to_owned("number too small to fit in target type"),
            },
            Kind::ParseFloatError(k) => match k {
                FloatErrorKind::Empty => to_owned("cannot parse float from empty string"),
                FloatErrorKind::Invalid => to_owned("invalid float literal"),
            },
            Kind::ResponseError(method, url, status, err) => {
                let a = concat3("HTTP ", method.as_str(), " ");
                let b = concat3(a.as_str(), url.as_str(), " ");
                let c = concat3(b.as_str(), unsigned_to_string(*status as u64).as_str(), ": ");
                concat2(c.as_str(), err.as_str())
            },
            Kind::GuidePostFormError(url, generic, errors) => {
                let a = concat3("HTTP POST ", url.as_str(), ": ");
                let b = concat3(a.as_str(), generic.as_str(), ": ");
                concat2(b.as_str(), debug_texts(errors).as_str())
            },
            Kind::HTMLParsingError(err) => err.clone(),
            Kind::PartialCodexStatusEffectsConversion(f, n) => partial("status effects", f, n),
            Kind::PartialCodexSkillsConversion(f, n) => partial("skills", f, n),
            Kind::PartialCodexItemDroppedBysConversion(f, n) => partial("item dropped_bys", f, n),
            Kind::PartialCodexItemUpgradeMaterialsConversion(f, n) => partial("item upgrade materials", f, n),
            Kind::PartialCodexFollowerAbilitiesConversion(f, n) => partial("follower abilities", f, n),
            Kind::PartialCodexMonsterAbilitiesConversion(f, n) => partial("monster abilities", f, n),
            Kind::PartialCodexEventsConversion(f, n) => partial("events", f, n),
            Kind::BufferConversionError(err) => err.clone(),
            Kind::InvalidUTF8Conversion(err) => err.clone(),
            Kind::Misc(err) => err.clone(),
        }
    }
}

} // verus!
