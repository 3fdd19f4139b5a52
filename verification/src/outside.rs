//! The calls that the library makes into `uuid`, `chrono`, `base64`,
//! `serde_json` and `std`, each with the contract that the rest of the
//! library relies on.
use vstd::prelude::*;

verus! {

/// What `base64::engine::general_purpose::STANDARD.decode` gives for a
/// text: the decoded bytes, or the `Display` text of its `DecodeError`.
pub uninterp spec fn base64_standard_decode(text: Seq<char>) -> Result<Seq<u8>, Seq<char>>;

/// What `std::path::Path::starts_with` answers for two paths given as text:
/// whether the first path's components begin with the second's.
pub uninterp spec fn path_starts_with(path: Seq<char>, base: Seq<char>) -> bool;

/// What `str::to_lowercase` gives for a text: its Unicode lower-case form.
pub uninterp spec fn unicode_lowercase(text: Seq<char>) -> Seq<char>;

/// What `serde_json` finds in a JSON text at a JSON pointer: the string
/// there (`None` when the pointer leads nowhere or to a value that is not a
/// string), or the `Display` text of the parse error.
pub uninterp spec fn json_text_at(text: Seq<char>, pointer: Seq<char>) -> Result<
    Option<Seq<char>>,
    Seq<char>,
>;

/// What `uuid::Uuid::parse_str` gives for a text: the UUID as its 128-bit
/// value, or the `Display` text of its error.
pub uninterp spec fn uuid_parsed(text: Seq<char>) -> Result<u128, Seq<char>>;

/// What `String::from_utf8_lossy` gives for bytes: their UTF-8 text, with
/// each invalid sequence replaced by U+FFFD.
pub uninterp spec fn utf8_lossy(bytes: Seq<u8>) -> Seq<char>;

/// The view of a text lookup's result.
pub open spec fn text_result_view(r: Result<Option<String>, String>) -> Result<
    Option<Seq<char>>,
    Seq<char>,
> {
    match r {
        Ok(Some(s)) => Ok(Some(s@)),
        Ok(None) => Ok(None),
        Err(m) => Err(m@),
    }
}

/// Parses `text` with `serde_json::from_str` into a `serde_json::Value`,
/// follows `Value::pointer`, and takes `Value::as_str` there; a parse error
/// is given as its `Display` text. The result is the name `json_text_at`
/// applied to the text and the pointer.
#[verifier::external_body]
pub(crate) fn json_string_at(text: &str, pointer: &str) -> (r: Result<Option<String>, String>)
    ensures
        text_result_view(r) == json_text_at(text@, pointer@),
{
    match serde_json::from_str::<serde_json::Value>(text) {
        Ok(value) => Ok(value.pointer(pointer).and_then(serde_json::Value::as_str).map(str::to_owned)),
        Err(error) => Err(error.to_string()),
    }
}

/// Calls `uuid::Uuid::parse_str` and gives the UUID as its 128-bit value; an
/// error is given as its `Display` text. The result is the name
/// `uuid_parsed` applied to the text.
#[verifier::external_body]
pub(crate) fn parse_uuid(text: &str) -> (r: Result<u128, String>)
    ensures
        uuid_parsed(text@) == match r {
            Ok(u) => Ok::<u128, Seq<char>>(u),
            Err(m) => Err::<u128, Seq<char>>(m@),
        },
{
    match uuid::Uuid::parse_str(text) {
        Ok(id) => Ok(id.as_u128()),
        Err(error) => Err(error.to_string()),
    }
}

/// Calls `String::from_utf8_lossy`. The result is the name `utf8_lossy`
/// applied to the bytes.
#[verifier::external_body]
pub(crate) fn lossy_text(bytes: &[u8]) -> (r: String)
    ensures
        r@ == utf8_lossy(bytes@),
{
    String::from_utf8_lossy(bytes).into_owned()
}

/// Calls `uuid::Uuid::new_v4` and gives the UUID as its 128-bit value. The
/// value is random; the crate's source fixes the version nibble to 4 and
/// the variant bits to `10`, and that is all that is stated.
#[verifier::external_body]
pub(crate) fn new_uuid_v4() -> (r: u128)
    ensures
        r & 0xF000_C000_0000_0000_0000u128 == 0x4000_8000_0000_0000_0000u128,
{
    uuid::Uuid::new_v4().as_u128()
}

/// Calls `chrono::Utc::now()` and writes it with
/// `to_rfc3339_opts(SecondsFormat::AutoSi, true)`: the current time as RFC
/// 3339 text ending in "Z", the form in which chrono serializes a
/// `DateTime<Utc>`. It depends on the clock, so nothing is stated of it.
#[verifier::external_body]
pub(crate) fn utc_now_rfc3339() -> (r: String) {
    chrono::Utc::now().to_rfc3339_opts(chrono::SecondsFormat::AutoSi, true)
}

/// Calls `base64::Engine::decode` with the standard alphabet and padding;
/// a `DecodeError` is given as its `Display` text. The result is the name
/// `base64_standard_decode` applied to the text.
#[verifier::external_body]
pub(crate) fn decode_base64_standard(text: &str) -> (r: Result<Vec<u8>, String>)
    ensures
        match r {
            Ok(bytes) => base64_standard_decode(text@) == Ok::<Seq<u8>, Seq<char>>(bytes@),
            Err(message) => base64_standard_decode(text@) == Err::<Seq<u8>, Seq<char>>(
                message@,
            ),
        },
{
    base64::Engine::decode(&base64::engine::general_purpose::STANDARD, text).map_err(
        |error| error.to_string(),
    )
}

/// Calls `std::path::Path::starts_with` on two paths given as text. The
/// result is the name `path_starts_with` applied to them.
#[verifier::external_body]
pub(crate) fn path_has_prefix(path: &str, base: &str) -> (r: bool)
    ensures
        r == path_starts_with(path@, base@),
{
    std::path::Path::new(path).starts_with(base)
}

/// Calls `str::to_lowercase`. The result is the name `unicode_lowercase`
/// applied to the text.
#[verifier::external_body]
pub(crate) fn to_lowercase(text: &str) -> (r: String)
    ensures
        r@ == unicode_lowercase(text@),
{
    text.to_lowercase()
}

} // verus!
