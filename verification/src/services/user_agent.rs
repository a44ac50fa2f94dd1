//! Reading the browser out of a User-Agent header.
use crate::common::errors::LocoError;
use std::sync::Arc;
use vstd::prelude::*;
use vstd::string::*;

verus! {

#[verifier::external_type_specification]
#[verifier::external_body]
pub struct ExUaExtractor<'a>(ua_parser::Extractor<'a>);

/// What the user-agent rules found in a header: the browser family and the
/// major and minor version, when they were found.
pub type FoundBrowser = Option<(String, Option<String>, Option<String>)>;

/// What the user-agent rules of `ua_parser::user_agent::Extractor::extract`
/// find in a header: the family, major and minor version of the first
/// matching rule, by their texts, or `None` when no rule matches.
pub uninterp spec fn ua_found(
    rules: ua_parser::Extractor<'static>,
    ua: Seq<char>,
) -> Option<(Seq<char>, Option<Seq<char>>, Option<Seq<char>>)>;

/// An optional text by its characters.
pub open spec fn opt_text(o: Option<String>) -> Option<Seq<char>> {
    match o {
        Some(s) => Some(s@),
        None => None,
    }
}

/// A found browser by its texts.
pub open spec fn found_view(found: FoundBrowser) -> Option<(Seq<char>, Option<Seq<char>>, Option<Seq<char>>)> {
    match found {
        None => None,
        Some((family, major, minor)) => Some((family@, opt_text(major), opt_text(minor))),
    }
}

/// Runs the user-agent rules of `ua_parser::user_agent::Extractor::extract`
/// on a header and hands out the family, major and minor version of the
/// first matching rule. Claimed: the answer is what `ua_found` names for the
/// rules and the header; which rule matches is left to the name.
#[verifier::external_body]
fn extract_browser(extractor: &ua_parser::Extractor<'static>, ua: &str) -> (r: FoundBrowser)
    ensures
        found_view(r) == ua_found(*extractor, ua@),
{
    let v = extractor.ua.extract(ua)?;
    Some((v.family.into_owned(), v.major.map(String::from), v.minor.map(String::from)))
}

/// The label of a browser: its family, then the major version and, when the
/// major version is known, the minor version after a dot; "Unknown" when no
/// rule matched.
pub open spec fn spec_browser_label(found: Option<(Seq<char>, Option<Seq<char>>, Option<Seq<char>>)>) -> Seq<char> {
    match found {
        None => "Unknown"@,
        Some((family, Some(major), Some(minor))) => family + " "@ + major + "."@ + minor,
        Some((family, Some(major), None)) => family + " "@ + major,
        Some((family, None, _)) => family,
    }
}

/// The label of a browser from what the user-agent rules found.
pub fn browser_label(found: FoundBrowser) -> (r: String)
    ensures
        r@ == spec_browser_label(found_view(found)),
{
    match found {
        None => "Unknown".to_owned(),
        Some((family, Some(major), Some(minor))) => family.concat(" ").concat(major.as_str()).concat(
            ".",
        ).concat(minor.as_str()),
        Some((family, Some(major), None)) => family.concat(" ").concat(major.as_str()),
        Some((family, None, _)) => family,
    }
}

/// Whether an error is the refusal of a User-Agent header that no rule
/// matches: a bad request, "Unknown user agent".
pub open spec fn is_unknown_user_agent(e: LocoError) -> bool {
    e matches LocoError::BadRequest(m) && m@ == "Unknown user agent"@
}

/// Reads browsers out of User-Agent headers with a set of user-agent rules.
pub struct UAParser {
    ua_extractor: Arc<ua_parser::Extractor<'static>>,
}

impl UAParser {
    /// The compiled user-agent rules that the parser reads headers with.
    pub closed spec fn rules(&self) -> ua_parser::Extractor<'static> {
        *self.ua_extractor
    }

    /// A parser that uses the given compiled rules.
    pub fn from_extractor(extractor: ua_parser::Extractor<'static>) -> (r: UAParser)
        ensures
            r.rules() == extractor,
    {
        UAParser { ua_extractor: Arc::new(extractor) }
    }

    /// The browser label of a User-Agent header, by the parser's rules. A
    /// header that no rule matches is an unknown user agent, refused as a bad
    /// request.
    pub fn parse_ua(&self, ua_string: &str) -> (r: Result<String, LocoError>)
        ensures
            match ua_found(self.rules(), ua_string@) {
                Some(found) => r matches Ok(label) && label@ == spec_browser_label(Some(found)),
                None => r matches Err(e) && is_unknown_user_agent(e),
            },
    {
        let found = extract_browser(&self.ua_extractor, ua_string);
        match found {
            Some(f) => Ok(browser_label(Some(f))),
            None => Err(LocoError::BadRequest("Unknown user agent".to_owned())),
        }
    }
}

/// A browser's label starts with its family; a version follows only when the
/// major version is known, after a space, and the minor version only after
/// the major one and a dot; a header that no rule matches is "Unknown".
pub proof fn lemma_label_parts(family: Seq<char>, major: Seq<char>, minor: Seq<char>)
    ensures
        spec_browser_label(None) == "Unknown"@,
        spec_browser_label(Some((family, None, None))) == family,
        spec_browser_label(Some((family, None, Some(minor)))) == family,
        spec_browser_label(Some((family, Some(major), None))) == family + " "@ + major,
        spec_browser_label(Some((family, Some(major), Some(minor)))) == family + " "@ + major + "."@
            + minor,
{
}

} // verus!
