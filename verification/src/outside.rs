//! The calls this library makes into `regex`, `percent-encoding` and
//! `serde_json`. Each function here is trusted: Verus takes its contract as
//! given, and the doc comment says what is claimed of the outside code.
use vstd::prelude::*;
use vstd::utf8::*;

verus! {

/// Whether the regular expression at `index` of the set built from
/// `patterns` matches `text`; `None` when the set does not compile.
pub uninterp spec fn regex_set_match(patterns: Seq<Seq<char>>, text: Seq<char>, index: int) -> Option<bool>;

/// The text of the capture group named `group` in the leftmost-first match of
/// `pattern` in `text`; `None` when the pattern does not compile, does not
/// match, or the group took no part in the match.
pub uninterp spec fn regex_named_capture(pattern: Seq<char>, text: Seq<char>, group: Seq<char>) -> Option<Seq<char>>;

/// The views of a list of string slices.
pub open spec fn str_views(strs: Seq<&str>) -> Seq<Seq<char>> {
    strs.map_values(|s: &str| s@)
}

/// The path pattern of the user-list operation.
pub open spec fn users_pattern() -> Seq<char> {
    "^/v1/users$"@
}

/// The path pattern of the user-detail operation, with the user id captured.
pub open spec fn user_id_pattern() -> Seq<char> {
    "^/v1/users/(?P<user_id>[^/?#]*)$"@
}

/// The name of the capture group that holds the user id.
pub open spec fn user_id_group() -> Seq<char> {
    "user_id"@
}

/// The path of the user list.
pub open spec fn users_path() -> Seq<char> {
    "/v1/users"@
}

/// What every user-detail path starts with.
pub open spec fn user_detail_prefix() -> Seq<char> {
    "/v1/users/"@
}

/// A path segment: no `/`, `?` or `#` in it.
pub open spec fn is_path_segment(s: Seq<char>) -> bool {
    forall|i: int| 0 <= i < s.len() ==> #[trigger] s[i] != '/' && s[i] != '?' && s[i] != '#'
}

/// The part of a path after the user-detail prefix.
pub open spec fn user_id_segment(path: Seq<char>) -> Seq<char> {
    path.skip(user_detail_prefix().len() as int)
}

/// Whether a path is a user-detail path: the prefix, then one segment.
pub open spec fn is_user_detail_path(path: Seq<char>) -> bool {
    &&& path.len() >= user_detail_prefix().len()
    &&& path.take(user_detail_prefix().len() as int) == user_detail_prefix()
    &&& is_path_segment(user_id_segment(path))
}

/// Builds a `regex::RegexSet` from `patterns` (`RegexSet::new`) and asks
/// whether the pattern at `index` matches `text` (`RegexSet::matches`, then
/// `SetMatches::matched`). The result is named by `regex_set_match`, a function
/// of the patterns, the text and the index alone; `None` stands for the
/// compile error that `RegexSet::new` returns.
///
/// For the two path patterns of this library the contract also says, as the
/// `regex` syntax documentation defines it, what they match: both compile;
/// `^/v1/users$` matches exactly `/v1/users` (`^` and `$` anchor at the start
/// and end of the text); `^/v1/users/(?P<user_id>[^/?#]*)$` matches exactly
/// `/v1/users/` followed by any characters other than `/`, `?` and `#`.
#[verifier::external_body]
pub(crate) fn regex_set_matched(patterns: &Vec<&str>, text: &str, index: usize) -> (res: Option<bool>)
    requires
        index < patterns.len(),
    ensures
        res == regex_set_match(str_views(patterns@), text@, index as int),
        str_views(patterns@) == seq![users_pattern(), user_id_pattern()] ==> res == Some(
            if index == 0 {
                text@ == users_path()
            } else {
                is_user_detail_path(text@)
            },
        ),
{
    match regex::RegexSet::new(patterns.iter()) {
        Ok(set) => Some(set.matches(text).matched(index)),
        Err(_) => None,
    }
}

/// Compiles `pattern` (`regex::Regex::new`), takes the captures of its first
/// match in `text` (`Regex::captures`) and returns the text of the group named
/// `group` (`Captures::name`, `Match::as_str`). The result is named by
/// `regex_named_capture`, a function of the three arguments alone.
///
/// For the user-detail pattern and its group `user_id` the contract also
/// says, as the `regex` syntax documentation defines it, what comes back: the
/// pattern compiles, matches exactly the user-detail paths, and its group
/// spans the whole segment after `/v1/users/`, so the group is there exactly
/// on those paths and holds that segment.
#[verifier::external_body]
pub(crate) fn regex_capture_named(pattern: &str, text: &str, group: &str) -> (res: Option<String>)
    ensures
        match res {
            Some(s) => regex_named_capture(pattern@, text@, group@) == Some(s@),
            None => regex_named_capture(pattern@, text@, group@) is None,
        },
        pattern@ == user_id_pattern() && group@ == user_id_group() ==> (res is Some
            <==> is_user_detail_path(text@)),
        pattern@ == user_id_pattern() && group@ == user_id_group() ==> (res matches Some(s)
            ==> s@ == user_id_segment(text@)),
{
    let re = match regex::Regex::new(pattern) {
        Ok(re) => re,
        Err(_) => return None,
    };
    match re.captures(text) {
        Some(caps) => match caps.name(group) {
            Some(m) => Some(m.as_str().to_string()),
            None => None,
        },
        None => None,
    }
}

/// Whether a byte is an ASCII hexadecimal digit (`0-9`, `a-f`, `A-F`).
pub open spec fn is_hex_digit(b: u8) -> bool {
    (0x30 <= b <= 0x39) || (0x41 <= b <= 0x46) || (0x61 <= b <= 0x66)
}

/// The value of an ASCII hexadecimal digit.
pub open spec fn hex_digit_value(b: u8) -> int {
    if 0x30 <= b <= 0x39 {
        b - 0x30
    } else if 0x41 <= b <= 0x46 {
        b - 0x41 + 10
    } else {
        b - 0x61 + 10
    }
}

/// Percent-decoding: each `%` followed by two hexadecimal digits becomes the
/// byte they spell; every other byte, a `%` without two digits after it
/// included, stays as it is.
pub open spec fn percent_decoded(bytes: Seq<u8>) -> Seq<u8>
    decreases bytes.len(),
{
    if bytes.len() == 0 {
        Seq::empty()
    } else if bytes[0] == 0x25u8 && bytes.len() >= 3 && is_hex_digit(bytes[1]) && is_hex_digit(
        bytes[2],
    ) {
        seq![(hex_digit_value(bytes[1]) * 16 + hex_digit_value(bytes[2])) as u8]
            + percent_decoded(bytes.skip(3))
    } else {
        seq![bytes[0]] + percent_decoded(bytes.skip(1))
    }
}

/// `percent_encoding::percent_decode(input).decode_utf8()`: percent-decodes
/// the bytes, then reads them as UTF-8. The contract claims what the crate's
/// source shows: the decoding is `percent_decoded`, and the UTF-8 step
/// succeeds exactly on well-formed UTF-8, giving the characters it encodes.
#[verifier::external_body]
pub(crate) fn percent_decode_utf8(input: &[u8]) -> (res: Option<String>)
    ensures
        res is Some <==> valid_utf8(percent_decoded(input@)),
        res matches Some(s) ==> s@ == decode_utf8(percent_decoded(input@)),
{
    match percent_encoding::percent_decode(input).decode_utf8() {
        Ok(s) => Some(s.into_owned()),
        Err(_) => None,
    }
}

/// A hexadecimal digit in lower case, for `v` below 16.
pub open spec fn lower_hex_digit(v: int) -> char {
    if v == 0 { '0' } else if v == 1 { '1' } else if v == 2 { '2' } else if v == 3 { '3' }
    else if v == 4 { '4' } else if v == 5 { '5' } else if v == 6 { '6' } else if v == 7 { '7' }
    else if v == 8 { '8' } else if v == 9 { '9' } else if v == 10 { 'a' } else if v == 11 { 'b' }
    else if v == 12 { 'c' } else if v == 13 { 'd' } else if v == 14 { 'e' } else { 'f' }
}

/// How `serde_json` writes one character inside a JSON string: `"` and `\`
/// get a backslash, the control characters with a short escape use it, the
/// other control characters below U+0020 become `\u00XX` in lower-case hex, and
/// every other character is written as it is.
pub open spec fn json_escaped_char(c: char) -> Seq<char> {
    let v = c as int;
    if c == '"' {
        seq!['\\', '"']
    } else if c == '\\' {
        seq!['\\', '\\']
    } else if v == 8 {
        seq!['\\', 'b']
    } else if v == 9 {
        seq!['\\', 't']
    } else if v == 10 {
        seq!['\\', 'n']
    } else if v == 12 {
        seq!['\\', 'f']
    } else if v == 13 {
        seq!['\\', 'r']
    } else if v < 0x20 {
        seq!['\\', 'u', '0', '0', lower_hex_digit(v / 16), lower_hex_digit(v % 16)]
    } else {
        seq![c]
    }
}

/// The escaped contents of a JSON string, character by character.
pub open spec fn json_escaped(s: Seq<char>) -> Seq<char>
    decreases s.len(),
{
    if s.len() == 0 {
        Seq::empty()
    } else {
        json_escaped_char(s[0]) + json_escaped(s.skip(1))
    }
}

/// A string written as a JSON string value: quoted and escaped.
pub open spec fn json_string(s: Seq<char>) -> Seq<char> {
    seq!['"'] + json_escaped(s) + seq!['"']
}

#[verifier::external_type_specification]
#[verifier::external_body]
pub struct ExJsonError(serde_json::Error);

/// `serde_json::to_string` on a string slice. The source writes the string
/// quoted, escaping as `json_string` says, into a byte vector, which cannot
/// fail; so the result is always `Ok`.
#[verifier::external_body]
pub(crate) fn json_to_string(s: &str) -> (res: Result<String, serde_json::Error>)
    ensures
        res is Ok,
        res matches Ok(out) ==> out@ == json_string(s@),
{
    serde_json::to_string(s)
}

} // verus!
