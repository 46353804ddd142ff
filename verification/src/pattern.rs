use vstd::prelude::*;

verus! {

/// Tells Verus of `regex::Regex`, as a type it does not look into.
#[verifier::external_type_specification]
#[verifier::external_body]
pub struct ExRegex(regex::Regex);

/// Whether `regex::Regex::new` accepts `pattern`.
pub uninterp spec fn regex_compiles(pattern: Seq<char>) -> bool;

/// Whether the regular expression that `pattern` compiles to finds a match in
/// `text`.
pub uninterp spec fn regex_accepts(pattern: Seq<char>, text: Seq<char>) -> bool;

/// A compiled regular expression together with the pattern it was compiled
/// from.
///
/// A value is only made by [`compile_pattern`], so `compiled` is always what
/// `regex` compiled `pattern` to; the contract of [`pattern_is_match`] rests
/// on that.
pub struct UnitPattern {
    pattern: String,
    compiled: regex::Regex,
}

impl View for UnitPattern {
    type V = Seq<char>;

    /// The pattern that the expression was compiled from.
    closed spec fn view(&self) -> Seq<char> {
        self.pattern@
    }
}

/// Calls `regex::Regex::new`. Trusted: the call succeeds exactly on the
/// patterns of which [`regex_compiles`] holds, and the value that comes back
/// keeps the pattern beside the expression compiled from it.
#[verifier::external_body]
pub(crate) fn compile_pattern(pattern: &str) -> (r: Option<UnitPattern>)
    ensures
        r is Some <==> regex_compiles(pattern@),
        r matches Some(p) ==> p@ == pattern@,
{
    match regex::Regex::new(pattern) {
        Ok(compiled) => Some(UnitPattern { pattern: pattern.to_string(), compiled }),
        Err(_) => None,
    }
}

/// Calls `regex::Regex::is_match`. Trusted: the result is a function of the
/// expression, here named by the pattern it was compiled from, and of the
/// text.
#[verifier::external_body]
pub(crate) fn pattern_is_match(pattern: &UnitPattern, text: &str) -> (b: bool)
    ensures
        b == regex_accepts(pattern@, text@),
{
    pattern.compiled.is_match(text)
}

} // verus!
