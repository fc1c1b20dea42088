//! Outside matchers that the command parsers lean on: regular expressions of
//! the `regex` crate and the integer parser of std.
use vstd::prelude::*;

verus! {

/// What compiling `pattern` with `regex::Regex::new` and matching it with
/// `Regex::captures` against `text` gives: the compile error's text, no
/// match, or the text of every capture group (group 0 first; `None` for a
/// group that took no part in the match).
pub uninterp spec fn regex_captures(pattern: Seq<char>, text: Seq<char>) -> Result<
    Option<Seq<Option<Seq<char>>>>,
    Seq<char>,
>;

/// The text of each capture group.
pub open spec fn groups_view(groups: Seq<Option<String>>) -> Seq<Option<Seq<char>>> {
    groups.map_values(
        |g: Option<String>|
            match g {
                Some(s) => Some(s@),
                None => None,
            },
    )
}

/// A match outcome in plain values.
pub open spec fn captures_view(r: Result<Option<Vec<Option<String>>>, String>) -> Result<
    Option<Seq<Option<Seq<char>>>>,
    Seq<char>,
> {
    match r {
        Ok(Some(groups)) => Ok(Some(groups_view(groups@))),
        Ok(None) => Ok(None),
        Err(e) => Err(e@),
    }
}

/// Compiles `pattern` with `regex::Regex::new` and matches it against `text`
/// with `Regex::captures`. The contract only names the outcome
/// (`regex_captures`): which texts a pattern matches, and which groups it
/// captures, is left unsaid.
#[verifier::external_body]
pub(crate) fn captures(pattern: &str, text: &str) -> (r: Result<Option<Vec<Option<String>>>, String>)
    ensures
        captures_view(r) == regex_captures(pattern@, text@),
{
    match regex::Regex::new(pattern) {
        Ok(re) => Ok(
            re.captures(text).map(
                |caps| caps.iter().map(|g| g.map(|m| m.as_str().to_string())).collect(),
            ),
        ),
        Err(e) => Err(e.to_string()),
    }
}

/// Whether `c` is one of the ASCII digits `0`..`9`.
pub open spec fn is_ascii_digit(c: char) -> bool {
    '0' <= c && c <= '9'
}

/// The value of a non-empty run of ASCII digits.
pub open spec fn digits_value(d: Seq<char>) -> int
    decreases d.len(),
{
    if d.len() == 0 {
        0
    } else {
        digits_value(d.drop_last()) * 10 + (d.last() as int - 48)
    }
}

/// Whether `d` is a non-empty run of ASCII digits.
pub open spec fn all_digits(d: Seq<char>) -> bool {
    d.len() > 0 && forall|i: int| 0 <= i < d.len() ==> is_ascii_digit(#[trigger] d[i])
}

/// The integer that a decimal literal denotes: an optional `+` or `-` sign,
/// then one or more ASCII digits and nothing else.
pub open spec fn literal_value(s: Seq<char>) -> Option<int> {
    if s.len() > 0 && s[0] == '-' && all_digits(s.skip(1)) {
        Some(-digits_value(s.skip(1)))
    } else if s.len() > 0 && s[0] == '+' && all_digits(s.skip(1)) {
        Some(digits_value(s.skip(1)))
    } else if all_digits(s) {
        Some(digits_value(s))
    } else {
        None
    }
}

/// The `i32` that `str::parse::<i32>` reads from `s`, if any: a decimal
/// literal whose value fits.
pub open spec fn parsed_i32(s: Seq<char>) -> Option<i32> {
    match literal_value(s) {
        Some(v) => if i32::MIN <= v <= i32::MAX { Some(v as i32) } else { None },
        None => None,
    }
}

/// The text of the error that `str::parse::<i32>` reports on `s`.
pub uninterp spec fn i32_parse_error(s: Seq<char>) -> Seq<char>;

/// `str::parse::<i32>` of std; its error is handed on as its text. The
/// documentation of `i32::from_str` gives when it succeeds and with what
/// value; the text of the error is only named.
#[verifier::external_body]
pub(crate) fn parse_i32(text: &str) -> (r: Result<i32, String>)
    ensures
        r matches Ok(v) ==> parsed_i32(text@) == Some(v),
        r matches Err(e) ==> parsed_i32(text@) is None && e@ == i32_parse_error(text@),
{
    text.parse::<i32>().map_err(|e| e.to_string())
}

} // verus!
