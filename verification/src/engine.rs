//! Trusted boundary around the `regex` crate.
//!
//! The executable items here are `external_body` wrappers: each one makes a
//! single call into the engine, and its contract states what the engine's
//! source and documentation promise of that call. Results whose exact value
//! only the engine defines (which strings match, what a replacement produces)
//! are given uninterpreted names, each a function of the compiled pattern,
//! its options and the haystack alone: the engine is deterministic, so the
//! same inputs always name the same result.

use vstd::prelude::*;

verus! {

#[verifier::external_type_specification]
#[verifier::external_body]
pub struct ExRegex(regex::Regex);

/// The pattern string a compiled regex was built from (the engine keeps it;
/// cf. `Regex::as_str`).
pub uninterp spec fn re_pattern(re: regex::Regex) -> Seq<char>;

/// The `(case_insensitive, multi_line, dot_matches_new_line)` options a
/// compiled regex was built with.
pub uninterp spec fn re_options(re: regex::Regex) -> (bool, bool, bool);

pub open spec fn re_ci(re: regex::Regex) -> bool {
    re_options(re).0
}

pub open spec fn re_ml(re: regex::Regex) -> bool {
    re_options(re).1
}

pub open spec fn re_da(re: regex::Regex) -> bool {
    re_options(re).2
}

/// Whether `RegexBuilder::build` accepts `pattern` under the given options.
pub uninterp spec fn spec_compiles(pattern: Seq<char>, ci: bool, ml: bool, da: bool) -> bool;

/// Whether the pattern matches anywhere in the haystack
/// (the result of `Regex::is_match`).
pub uninterp spec fn spec_is_match(
    pattern: Seq<char>,
    ci: bool,
    ml: bool,
    da: bool,
    hay: Seq<char>,
) -> bool;

/// The capture vector of the leftmost match (the result of
/// `Regex::captures`): index 0 the overall match, index `i` the text of the
/// `i`-th capture group, `None` where the group did not participate.
/// Meaningful only when the pattern matches the haystack.
pub uninterp spec fn spec_captures(
    pattern: Seq<char>,
    ci: bool,
    ml: bool,
    da: bool,
    hay: Seq<char>,
) -> Seq<Option<Seq<char>>>;

/// The leftmost match (the result of `Regex::find`): its starting byte
/// offset in the haystack, and its text. Meaningful only when the pattern
/// matches the haystack.
pub uninterp spec fn spec_find(
    pattern: Seq<char>,
    ci: bool,
    ml: bool,
    da: bool,
    hay: Seq<char>,
) -> (nat, Seq<char>);

/// The texts of all non-overlapping matches, left to right (the result of
/// `Regex::find_iter`).
pub uninterp spec fn spec_find_all(
    pattern: Seq<char>,
    ci: bool,
    ml: bool,
    da: bool,
    hay: Seq<char>,
) -> Seq<Seq<char>>;

/// The haystack with its leftmost match replaced (the result of
/// `Regex::replace`, including the engine's `$ref` expansion).
pub uninterp spec fn spec_replace_first(
    pattern: Seq<char>,
    ci: bool,
    ml: bool,
    da: bool,
    hay: Seq<char>,
    rep: Seq<char>,
) -> Seq<char>;

/// The haystack with every non-overlapping match replaced (the result of
/// `Regex::replace_all`, including the engine's `$ref` expansion).
pub uninterp spec fn spec_replace_all(
    pattern: Seq<char>,
    ci: bool,
    ml: bool,
    da: bool,
    hay: Seq<char>,
    rep: Seq<char>,
) -> Seq<char>;

/// The substrings of the haystack delimited by the pattern's non-overlapping
/// matches (the result of `Regex::split`).
pub uninterp spec fn spec_split_all(
    pattern: Seq<char>,
    ci: bool,
    ml: bool,
    da: bool,
    hay: Seq<char>,
) -> Seq<Seq<char>>;

/// The first `limit` substrings produced by the engine's limited split, the
/// last being the unsplit remainder (the result of `Regex::splitn`).
pub uninterp spec fn spec_split_limited(
    pattern: Seq<char>,
    ci: bool,
    ml: bool,
    da: bool,
    hay: Seq<char>,
    limit: nat,
) -> Seq<Seq<char>>;

/// Relies on `regex::RegexBuilder`: `case_insensitive`, `multi_line` and
/// `dot_matches_new_line` set the matching options, and `build` returns a
/// regex compiled from exactly this pattern and these options, or an error
/// with a diagnostic when the pattern is invalid.
#[verifier::external_body]
pub(crate) fn compile(pattern: &String, ci: bool, ml: bool, da: bool) -> (r: Result<
    regex::Regex,
    String,
>)
    ensures
        r is Ok <==> spec_compiles(pattern@, ci, ml, da),
        r matches Ok(re) ==> re_pattern(re) == pattern@ && re_options(re) == (ci, ml, da),
{
    let mut builder = regex::RegexBuilder::new(pattern);
    builder.case_insensitive(ci);
    builder.multi_line(ml);
    builder.dot_matches_new_line(da);
    match builder.build() {
        Ok(re) => Ok(re),
        Err(e) => Err(format!("{}", e)),
    }
}

/// Relies on `Regex::is_match`: true if and only if the regex matches
/// anywhere in the haystack.
#[verifier::external_body]
pub(crate) fn is_match(re: &regex::Regex, hay: &String) -> (r: bool)
    ensures
        r == spec_is_match(re_pattern(*re), re_ci(*re), re_ml(*re), re_da(*re), hay@),
{
    re.is_match(hay)
}

/// Relies on `Regex::captures`: returns `Some` exactly when the regex
/// matches; group 0, the overall match, is then always present, and each
/// later entry is the text of that capture group, or `None` where the group
/// did not participate in the match.
#[verifier::external_body]
pub(crate) fn captures(re: &regex::Regex, hay: &String) -> (r: Option<Vec<Option<String>>>)
    ensures
        r is Some <==> spec_is_match(re_pattern(*re), re_ci(*re), re_ml(*re), re_da(*re), hay@),
        r matches Some(groups) ==> groups.deep_view() == spec_captures(
            re_pattern(*re),
            re_ci(*re),
            re_ml(*re),
            re_da(*re),
            hay@,
        ) && groups@.len() >= 1 && groups@[0] is Some,
{
    let caps = re.captures(hay)?;
    Some((0..caps.len()).map(|i| caps.get(i).map(|m| m.as_str().to_string())).collect())
}

/// Relies on `Regex::find`: returns `Some` exactly when the regex matches;
/// the match reported is the leftmost one, given as its starting byte offset
/// and its text.
#[verifier::external_body]
pub(crate) fn find(re: &regex::Regex, hay: &String) -> (r: Option<(usize, String)>)
    ensures
        r is Some <==> spec_is_match(re_pattern(*re), re_ci(*re), re_ml(*re), re_da(*re), hay@),
        r matches Some(m) ==> (m.0 as nat, m.1@) == spec_find(
            re_pattern(*re),
            re_ci(*re),
            re_ml(*re),
            re_da(*re),
            hay@,
        ),
{
    re.find(hay).map(|m| (m.start(), m.as_str().to_string()))
}

/// Relies on `Regex::find_iter`: yields the texts of the successive
/// non-overlapping matches, left to right, and yields nothing exactly when
/// the regex does not match.
#[verifier::external_body]
pub(crate) fn find_all(re: &regex::Regex, hay: &String) -> (r: Vec<String>)
    ensures
        r.deep_view() == spec_find_all(re_pattern(*re), re_ci(*re), re_ml(*re), re_da(*re), hay@),
        r@.len() == 0 <==> !spec_is_match(re_pattern(*re), re_ci(*re), re_ml(*re), re_da(*re), hay@),
{
    re.find_iter(hay).map(|m| m.as_str().to_string()).collect()
}

/// Relies on `Regex::replace`: replaces the leftmost match with the
/// replacement (expanding the engine's `$ref` syntax); a haystack the regex
/// does not match is returned unchanged.
#[verifier::external_body]
pub(crate) fn replace_first(re: &regex::Regex, hay: &String, rep: &String) -> (r: String)
    ensures
        r@ == spec_replace_first(
            re_pattern(*re),
            re_ci(*re),
            re_ml(*re),
            re_da(*re),
            hay@,
            rep@,
        ),
        !spec_is_match(re_pattern(*re), re_ci(*re), re_ml(*re), re_da(*re), hay@) ==> r@ == hay@,
{
    re.replace(hay, rep.as_str()).into_owned()
}

/// Relies on `Regex::replace_all`: replaces every non-overlapping match with
/// the replacement (expanding the engine's `$ref` syntax); a haystack the
/// regex does not match is returned unchanged.
#[verifier::external_body]
pub(crate) fn replace_all(re: &regex::Regex, hay: &String, rep: &String) -> (r: String)
    ensures
        r@ == spec_replace_all(re_pattern(*re), re_ci(*re), re_ml(*re), re_da(*re), hay@, rep@),
        !spec_is_match(re_pattern(*re), re_ci(*re), re_ml(*re), re_da(*re), hay@) ==> r@ == hay@,
{
    re.replace_all(hay, rep.as_str()).into_owned()
}

/// Relies on `Regex::split`: yields the substrings of the haystack delimited
/// by the regex's non-overlapping matches; at least one substring is always
/// yielded, and a haystack the regex does not match is yielded whole.
#[verifier::external_body]
pub(crate) fn split_all(re: &regex::Regex, hay: &String) -> (r: Vec<String>)
    ensures
        r.deep_view() == spec_split_all(re_pattern(*re), re_ci(*re), re_ml(*re), re_da(*re), hay@),
        r@.len() >= 1,
        !spec_is_match(re_pattern(*re), re_ci(*re), re_ml(*re), re_da(*re), hay@)
            ==> r.deep_view() == seq![hay@],
{
    re.split(hay).map(|s| s.to_string()).collect()
}

/// Relies on `Regex::splitn`: yields at most `limit` substrings, the last
/// being the unsplit remainder of the haystack; with `limit` 0 it yields
/// nothing, and a haystack the regex does not match is yielded whole.
#[verifier::external_body]
pub(crate) fn split_limited(re: &regex::Regex, hay: &String, limit: u32) -> (r: Vec<String>)
    ensures
        r.deep_view() == spec_split_limited(
            re_pattern(*re),
            re_ci(*re),
            re_ml(*re),
            re_da(*re),
            hay@,
            limit as nat,
        ),
        r@.len() <= limit,
        limit == 0 ==> r@.len() == 0,
        limit >= 1 && !spec_is_match(re_pattern(*re), re_ci(*re), re_ml(*re), re_da(*re), hay@)
            ==> r.deep_view() == seq![hay@],
{
    re.splitn(hay, limit as usize).map(|s| s.to_string()).collect()
}

/// Relies on `str::contains` with a `char` pattern: true if and only if the
/// character occurs in the string.
#[verifier::external_body]
pub(crate) fn str_contains_char(s: &String, c: char) -> (r: bool)
    ensures
        r == s@.contains(c),
{
    s.contains(c)
}

} // verus!
