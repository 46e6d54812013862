//! Calls into other crates and into the standard library that only compute.
//!
//! What is said of each result here is taken from the called code and not proved.

use crate::models::Timestamp;
use crate::text::{joined, texts};
use vstd::prelude::*;

verus! {

/// Whether `c` is a lower case hexadecimal digit.
pub open spec fn is_lower_hex(c: char) -> bool {
    '0' <= c <= '9' || 'a' <= c <= 'f'
}

/// The form of a random UUID: lower case hexadecimal digits in groups of eight, four, four,
/// four and twelve with hyphens between them, of version four and of the common variant.
pub open spec fn is_random_uuid(s: Seq<char>) -> bool {
    &&& s.len() == 36
    &&& forall|i: int|
        0 <= i < 36 ==> if i == 8 || i == 13 || i == 18 || i == 23 {
            #[trigger] s[i] == '-'
        } else {
            is_lower_hex(s[i])
        }
    &&& s[14] == '4'
    &&& (s[19] == '8' || s[19] == '9' || s[19] == 'a' || s[19] == 'b')
}

/// `uuid::Uuid::new_v4`, as the text that its `Display` writes. The digits are random: all
/// that is said of them is the form of the text.
#[verifier::external_body]
pub(crate) fn random_uuid() -> (r: String)
    ensures
        is_random_uuid(r@),
{
    uuid::Uuid::new_v4().to_string()
}

/// Whether a regular expression matches somewhere in a text, where the pattern is one.
pub uninterp spec fn regex_match(pattern: Seq<char>, text: Seq<char>) -> Option<bool>;

/// `regex::Regex::is_match`, on the expression that `regex::Regex::new` makes of `pattern`;
/// `None` where it makes none. Both depend on the two texts alone.
#[verifier::external_body]
pub(crate) fn regex_is_match(pattern: &str, text: &str) -> (r: Option<bool>)
    ensures
        r == regex_match(pattern@, text@),
{
    match regex::Regex::new(pattern) {
        Ok(re) => Some(re.is_match(text)),
        Err(_) => None,
    }
}

/// The seconds from the Unix epoch to the instant that a text writes as RFC 3339 has it.
pub uninterp spec fn rfc3339_seconds(s: Seq<char>) -> Option<i64>;

/// `chrono::DateTime::parse_from_rfc3339`, as the Unix time of the instant; `None` where the
/// text is refused. The result depends on the text alone.
#[verifier::external_body]
pub(crate) fn parse_rfc3339(s: &str) -> (r: Option<i64>)
    ensures
        r == rfc3339_seconds(s@),
{
    match chrono::DateTime::parse_from_rfc3339(s) {
        Ok(t) => Some(t.timestamp()),
        Err(_) => None,
    }
}

/// The text of an instant, given in seconds and nanoseconds since the Unix epoch, as RFC 3339 has
/// it. What is no instant counts as the epoch.
pub uninterp spec fn rfc3339_text(secs: i64, nanos: u32) -> Seq<char>;

/// `chrono::DateTime::to_rfc3339`, on the instant that `chrono::DateTime::from_timestamp` makes of
/// seconds and nanoseconds; on the epoch where it makes none. The result depends on the two
/// numbers alone.
#[verifier::external_body]
pub(crate) fn write_rfc3339(time: Timestamp) -> (r: String)
    ensures
        r@ == rfc3339_text(time.secs, time.nanos),
{
    chrono::DateTime::from_timestamp(time.secs, time.nanos).unwrap_or_default().to_rfc3339()
}

/// `chrono::Utc::now`. It reads the clock: all that is said of the instant is that it is not
/// before the Unix epoch, and that its nanoseconds are less than a second. A clock that stands
/// before the epoch makes it panic.
#[verifier::external_body]
pub(crate) fn utc_now() -> (r: Timestamp)
    ensures
        r.secs >= 0,
        r.nanos < 1_000_000_000,
{
    let t = chrono::Utc::now();
    Timestamp { secs: t.timestamp(), nanos: t.timestamp_subsec_nanos() }
}

/// `std::time::SystemTime::elapsed` of the Unix epoch, in whole seconds; `None` where the clock
/// stands before the epoch. Nothing is said of what the clock shows.
#[verifier::external_body]
pub(crate) fn since_epoch() -> (r: Option<u64>) {
    match std::time::SystemTime::UNIX_EPOCH.elapsed() {
        Ok(passed) => Some(passed.as_secs()),
        Err(_) => None,
    }
}

/// A character as it stands in a JSON string: quotes, backslashes and control characters are
/// escaped.
pub open spec fn json_char(c: char) -> Seq<char> {
    if c == '"' {
        "\\\""@
    } else if c == '\\' {
        "\\\\"@
    } else if c == '\u{8}' {
        "\\b"@
    } else if c == '\t' {
        "\\t"@
    } else if c == '\n' {
        "\\n"@
    } else if c == '\u{c}' {
        "\\f"@
    } else if c == '\r' {
        "\\r"@
    } else if ' ' > c {
        "\\u00"@ + seq![
            "0123456789abcdef"@[c as int / 16],
            "0123456789abcdef"@[c as int % 16],
        ]
    } else {
        seq![c]
    }
}

/// The characters of a text as they stand in a JSON string.
pub open spec fn json_chars(s: Seq<char>) -> Seq<char>
    decreases s.len(),
{
    if s.len() == 0 {
        Seq::empty()
    } else {
        json_chars(s.drop_last()) + json_char(s.last())
    }
}

/// The JSON array of strings that holds the texts, without white space.
pub open spec fn json_array(parts: Seq<Seq<char>>) -> Seq<char> {
    "["@ + joined(
        Seq::new(parts.len(), |i: int| "\""@ + json_chars(parts[i]) + "\""@),
        ","@,
    ) + "]"@
}

/// `serde_json::to_string`, on a list of texts: the array of strings that holds them. It fails
/// for none.
#[verifier::external_body]
pub(crate) fn json_strings(parts: &Vec<String>) -> (r: String)
    ensures
        r@ == json_array(texts(parts@)),
{
    serde_json::to_string(parts).unwrap_or_default()
}

/// The text that bytes hold as UTF-8, with replacement characters where they hold none.
pub uninterp spec fn lossy_text(bytes: Seq<u8>) -> Seq<char>;

/// `String::from_utf8_lossy`: the text of valid UTF-8 is what its bytes encode. The result
/// depends on the bytes alone.
#[verifier::external_body]
pub(crate) fn utf8_lossy(bytes: &[u8]) -> (r: String)
    ensures
        r@ == lossy_text(bytes@),
        vstd::utf8::valid_utf8(bytes@) ==> r@ == vstd::utf8::decode_utf8(bytes@),
{
    String::from_utf8_lossy(bytes).into_owned()
}

/// Whether all characters of a text are ASCII.
pub open spec fn is_ascii_text(s: Seq<char>) -> bool {
    forall|i: int| 0 <= i < s.len() ==> '\u{80}' > #[trigger] s[i]
}

/// An ASCII character in lower case.
pub open spec fn ascii_lower(c: char) -> char {
    if 'A' <= c <= 'Z' {
        (c as u8 + 32) as u8 as char
    } else {
        c
    }
}

/// An ASCII character in upper case.
pub open spec fn ascii_upper(c: char) -> char {
    if 'a' <= c <= 'z' {
        (c as u8 - 32) as u8 as char
    } else {
        c
    }
}

/// A text with every ASCII letter in lower case.
pub open spec fn ascii_lower_text(s: Seq<char>) -> Seq<char> {
    Seq::new(s.len(), |i: int| ascii_lower(s[i]))
}

/// A text with every ASCII letter in upper case.
pub open spec fn ascii_upper_text(s: Seq<char>) -> Seq<char> {
    Seq::new(s.len(), |i: int| ascii_upper(s[i]))
}

/// A text in lower case by the rules of Unicode.
pub uninterp spec fn unicode_lower_case(s: Seq<char>) -> Seq<char>;

/// A text in lower case.
pub open spec fn lower_case(s: Seq<char>) -> Seq<char> {
    if is_ascii_text(s) {
        ascii_lower_text(s)
    } else {
        unicode_lower_case(s)
    }
}

/// `str::to_lowercase`: ASCII text is changed character by character, and the result depends on
/// the text alone in any case.
#[verifier::external_body]
pub(crate) fn to_lower(s: &str) -> (r: String)
    ensures
        r@ == if is_ascii_text(s@) {
            ascii_lower_text(s@)
        } else {
            unicode_lower_case(s@)
        },
{
    s.to_lowercase()
}

/// A text in upper case by the rules of Unicode.
pub uninterp spec fn unicode_upper_case(s: Seq<char>) -> Seq<char>;

/// A text in upper case.
pub open spec fn upper_case(s: Seq<char>) -> Seq<char> {
    if is_ascii_text(s) {
        ascii_upper_text(s)
    } else {
        unicode_upper_case(s)
    }
}

/// `str::to_uppercase`: ASCII text is changed character by character, and the result depends on
/// the text alone in any case.
#[verifier::external_body]
pub(crate) fn to_upper(s: &str) -> (r: String)
    ensures
        r@ == if is_ascii_text(s@) {
            ascii_upper_text(s@)
        } else {
            unicode_upper_case(s@)
        },
{
    s.to_uppercase()
}

} // verus!
