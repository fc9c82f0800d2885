use vstd::prelude::*;

verus! {

#[verifier::external_type_specification]
#[verifier::external_body]
pub struct ExRegexError(regex::Error);

/// What the regex engine gives for a pattern and a text: `None` when the pattern does not
/// compile, `Some(None)` when the text does not match, else the groups of the leftmost
/// match, group 0 first.
pub uninterp spec fn regex_captures_of(pattern: Seq<char>, text: Seq<char>) -> Option<Option<Seq<Option<Seq<char>>>>>;

pub open spec fn groups_view(g: Seq<Option<String>>) -> Seq<Option<Seq<char>>> {
    g.map_values(|x: Option<String>| crate::records::opt_view(x))
}

/// Relies on regex's `Regex::new` and `Regex::captures`: compiles the pattern and returns
/// the groups of its leftmost match in the text, if it matches.
#[verifier::external_body]
pub(crate) fn regex_captures(pattern: &str, text: &str) -> (r: Result<Option<Vec<Option<String>>>, regex::Error>)
    ensures
        r is Err <==> regex_captures_of(pattern@, text@) is None,
        r matches Ok(None) ==> regex_captures_of(pattern@, text@) == Some(None::<Seq<Option<Seq<char>>>>),
        r matches Ok(Some(g)) ==> regex_captures_of(pattern@, text@) == Some(Some(groups_view(g@))),
{
    let re = regex::Regex::new(pattern)?;
    Ok(re.captures(text).map(|c| c.iter().map(|g| g.map(|m| m.as_str().to_string())).collect()))
}

} // verus!
