use vstd::prelude::*;

verus! {

#[verifier::external_type_specification]
#[verifier::external_body]
pub struct ExRegexError(regex::Error);

/// Whether `regex::Regex::new` accepts a pattern; it depends on the pattern alone.
pub uninterp spec fn regex_compiles(pattern: Seq<char>) -> bool;

/// What `regex::Regex::is_match` answers for a compiled pattern and a haystack.
pub uninterp spec fn regex_matches(pattern: Seq<char>, haystack: Seq<char>) -> bool;

/// The text of capture group 1 in the leftmost match, as `regex::Regex::captures`
/// reports it, or `None` where there is no match or the group did not take part.
pub uninterp spec fn regex_group_one(pattern: Seq<char>, haystack: Seq<char>) -> Option<Seq<char>>;

/// The character view of an optional string.
pub open spec fn opt_view(o: Option<String>) -> Option<Seq<char>> {
    match o {
        Some(s) => Some(s@),
        None => None,
    }
}

/// Relies on `regex::Regex::new` (compilation succeeds exactly for the patterns it
/// accepts) and `regex::Regex::is_match` (whether the haystack holds a match).
#[verifier::external_body]
pub(crate) fn pattern_is_match(pattern: &str, haystack: &str) -> (r: Result<bool, regex::Error>)
    ensures
        r is Ok <==> regex_compiles(pattern@),
        r matches Ok(b) ==> b == regex_matches(pattern@, haystack@),
{
    match regex::Regex::new(pattern) {
        Ok(re) => Ok(re.is_match(haystack)),
        Err(e) => Err(e),
    }
}

/// Relies on `regex::Regex::new` (compilation succeeds exactly for the patterns it
/// accepts) and `regex::Regex::captures` with `Captures::get(1)` (the text of the
/// first group in the leftmost match).
#[verifier::external_body]
pub(crate) fn pattern_group_one(pattern: &str, haystack: &str) -> (r: Result<Option<String>, regex::Error>)
    ensures
        r is Ok <==> regex_compiles(pattern@),
        r matches Ok(g) ==> opt_view(g) == regex_group_one(pattern@, haystack@),
{
    match regex::Regex::new(pattern) {
        Ok(re) => match re.captures(haystack) {
            Some(caps) => match caps.get(1) {
                Some(m) => Ok(Some(m.as_str().to_string())),
                None => Ok(None),
            },
            None => Ok(None),
        },
        Err(e) => Err(e),
    }
}

} // verus!
