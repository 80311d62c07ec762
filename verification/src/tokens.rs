//! Pattern matching over text, done by the `regex` crate.
use vstd::prelude::*;

verus! {

/// The strings that the compiled `pattern` matches in `text`, from left to
/// right and without overlap; `None` where `pattern` does not compile.
pub uninterp spec fn regex_matches(pattern: Seq<char>, text: Seq<char>) -> Option<Seq<Seq<char>>>;

/// The characters of each string of a list.
pub open spec fn texts(strings: Seq<String>) -> Seq<Seq<char>> {
    strings.map_values(|s: String| s@)
}

/// Declares `regex::Error`, the error of a pattern that does not compile.
/// Nothing is said of what is inside it.
#[verifier::external_type_specification]
#[verifier::external_body]
pub struct ExRegexError(regex::Error);

/// Calls `regex::Regex::new` on `pattern` and `Regex::find_iter` on `text`,
/// and hands out the text of each match in the order found. The contract
/// gives that list the name [`regex_matches`]: it depends on the pattern and
/// the text alone. An error is what `Regex::new` returned for a pattern that
/// it refuses.
#[verifier::external_body]
pub(crate) fn find_all(pattern: &str, text: &str) -> (r: Result<Vec<String>, regex::Error>)
    ensures
        r matches Ok(found) ==> regex_matches(pattern@, text@) == Some(texts(found@)),
        r is Err ==> regex_matches(pattern@, text@) is None,
{
    let re = regex::Regex::new(pattern)?;
    Ok(re.find_iter(text).map(|m| m.as_str().to_string()).collect())
}

/// Whether `token` is among `tokens`.
pub fn has_token(tokens: &Vec<String>, token: &str) -> (r: bool)
    ensures
        r == texts(tokens@).contains(token@),
{
    let target = String::from_str(token);
    let mut i: usize = 0;
    while i < tokens.len()
        invariant
            i <= tokens.len(),
            target@ == token@,
            forall|j: int| 0 <= j < i ==> texts(tokens@)[j] != token@,
        decreases tokens.len() - i,
    {
        if tokens[i] == target {
            assert(texts(tokens@)[i as int] == token@);
            return true;
        }
        i += 1;
    }
    false
}

} // verus!
