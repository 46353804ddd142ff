use vstd::prelude::*;

verus! {

/// Tells Verus of `semver::Version`, as a type it does not look into.
#[verifier::external_type_specification]
#[verifier::external_body]
pub struct ExVersion(semver::Version);

/// Whether `semver::Version::parse` accepts `text`.
pub uninterp spec fn version_parses(text: Seq<char>) -> bool;

/// Whether the version that `earlier` parses to is less than the version that
/// `later` parses to, in the order of `semver::Version`.
pub uninterp spec fn version_precedes(earlier: Seq<char>, later: Seq<char>) -> bool;

/// What the version that `text` parses to prints as.
pub uninterp spec fn version_display(text: Seq<char>) -> Seq<char>;

/// A semantic version together with the text it was parsed from.
///
/// A value is only made by [`parse_version`], so `version` is always what
/// `semver` parsed `text` to; the contracts of the functions below rest on
/// that.
pub struct ParsedVersion {
    text: String,
    version: semver::Version,
}

impl View for ParsedVersion {
    type V = Seq<char>;

    /// The text that the version was parsed from.
    closed spec fn view(&self) -> Seq<char> {
        self.text@
    }
}

/// Calls `semver::Version::parse`. Trusted: the call succeeds exactly on the
/// texts of which [`version_parses`] holds, and the value that comes back
/// keeps the text beside the version parsed from it.
#[verifier::external_body]
pub(crate) fn parse_version(text: &str) -> (r: Option<ParsedVersion>)
    ensures
        r is Some <==> version_parses(text@),
        r matches Some(v) ==> v@ == text@,
{
    match semver::Version::parse(text) {
        Ok(version) => Some(ParsedVersion { text: text.to_string(), version }),
        Err(_) => None,
    }
}

/// Calls `<` of `semver::Version`. Trusted: the result is a function of the
/// two versions, here named by the texts they were parsed from.
#[verifier::external_body]
pub(crate) fn version_less(earlier: &ParsedVersion, later: &ParsedVersion) -> (b: bool)
    ensures
        b == version_precedes(earlier@, later@),
{
    earlier.version < later.version
}

/// Calls `to_string` of `semver::Version`. Trusted: the result is a function
/// of the version, here named by the text it was parsed from.
#[verifier::external_body]
pub(crate) fn version_to_string(version: &ParsedVersion) -> (s: String)
    ensures
        s@ == version_display(version@),
{
    version.version.to_string()
}

} // verus!
