//! What is asked of other crates, and of the standard library beyond what the
//! verifier knows of it.
use crate::text::lower;
use vstd::prelude::*;
use vstd::string::*;
use vstd::utf8::encode_utf8;

verus! {

/// The lower case of a text, as `str::to_lowercase` gives it.
pub uninterp spec fn lowercased(s: Seq<char>) -> Seq<char>;

/// Calls `str::to_lowercase`. The result is a function of the text. Where all of
/// the text is ASCII, it is the text with the letters `A` to `Z` lowered. What
/// it is of other characters is left to Unicode.
#[verifier::external_body]
pub(crate) fn to_lowercase(s: &str) -> (r: String)
    ensures
        r@ == lowercased(s@),
        (forall|i: int| 0 <= i < s@.len() ==> (#[trigger] s@[i] as int) < 0x80) ==> r@ == lower(s@),
{
    s.to_lowercase()
}

/// Whether a byte stands for itself in a URL.
pub open spec fn unreserved(b: u8) -> bool {
    ||| 0x30 <= b <= 0x39
    ||| 0x41 <= b <= 0x5a
    ||| 0x61 <= b <= 0x7a
    ||| b == 0x2d
    ||| b == 0x2e
    ||| b == 0x5f
    ||| b == 0x7e
}

/// The upper case hexadecimal digit of value `d`.
pub open spec fn upper_hex_digit(d: int) -> char {
    "0123456789ABCDEF"@[d]
}

/// A byte as it stands in a URL: letters, digits and `-._~` as they are, any
/// other as a percent sign and two hexadecimal digits.
pub open spec fn percent_encoded_byte(b: u8) -> Seq<char> {
    if unreserved(b) {
        seq![b as char]
    } else {
        seq!['%', upper_hex_digit(b as int / 16), upper_hex_digit(b as int % 16)]
    }
}

/// Bytes as they stand in a URL.
pub open spec fn percent_encoded_bytes(bytes: Seq<u8>) -> Seq<char>
    decreases bytes.len(),
{
    if bytes.len() == 0 {
        Seq::empty()
    } else {
        percent_encoded_bytes(bytes.drop_last()) + percent_encoded_byte(bytes.last())
    }
}

/// A text as it stands in a URL, by its UTF-8 bytes.
pub open spec fn percent_encoded(s: Seq<char>) -> Seq<char> {
    percent_encoded_bytes(encode_utf8(s))
}

/// Calls `urlencoding::encode`, which writes every UTF-8 byte of the text but
/// ASCII letters, digits, `-`, `.`, `_` and `~` as a percent sign and its two
/// upper case hexadecimal digits.
#[verifier::external_body]
pub(crate) fn percent_encode(s: &str) -> (r: String)
    ensures
        r@ == percent_encoded(s@),
{
    urlencoding::encode(s).into_owned()
}

/// A moment as RFC 3339 text to the second, in UTC and with a `Z`, where it is
/// one that `chrono` can hold.
pub uninterp spec fn rfc3339(secs: i64, nanos: u32) -> Option<Seq<char>>;

/// Calls `chrono::DateTime::from_timestamp` on the seconds and nanoseconds since
/// the start of 1970 in UTC, and `to_rfc3339_opts` on what it gives, to the
/// second and with a `Z`. There is no text where `chrono` has no such moment.
#[verifier::external_body]
pub(crate) fn to_rfc3339(secs: i64, nanos: u32) -> (r: Option<String>)
    ensures
        r.deep_view() == rfc3339(secs, nanos),
{
    chrono::DateTime::from_timestamp(secs, nanos).map(
        |moment| moment.to_rfc3339_opts(chrono::SecondsFormat::Secs, true),
    )
}

/// How two versions compare.
#[derive(Clone, Copy, Debug, PartialEq, Eq, Structural)]
pub enum VersionOrder {
    Eq,
    Ne,
    Lt,
    Le,
    Ge,
    Gt,
}

/// How two version texts compare, where both can be read as versions.
pub uninterp spec fn version_order(a: Seq<char>, b: Seq<char>) -> Option<VersionOrder>;

/// Calls `version_compare::compare`. Its result is a function of the two texts;
/// there is none where one of them cannot be read as a version.
#[verifier::external_body]
pub(crate) fn compare_versions(a: &str, b: &str) -> (r: Option<VersionOrder>)
    ensures
        r == version_order(a@, b@),
{
    match version_compare::compare(a, b) {
        Ok(version_compare::Cmp::Eq) => Some(VersionOrder::Eq),
        Ok(version_compare::Cmp::Ne) => Some(VersionOrder::Ne),
        Ok(version_compare::Cmp::Lt) => Some(VersionOrder::Lt),
        Ok(version_compare::Cmp::Le) => Some(VersionOrder::Le),
        Ok(version_compare::Cmp::Ge) => Some(VersionOrder::Ge),
        Ok(version_compare::Cmp::Gt) => Some(VersionOrder::Gt),
        Err(()) => None,
    }
}

} // verus!
