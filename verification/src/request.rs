//! The webview-opening command, short of the toolkit call: check the URL,
//! derive the window's identifier, and build the request that the windowing
//! toolkit is asked to fulfil.

use vstd::prelude::*;
use vstd::string::StringExecFns;
use crate::identifier::derive_identifier;
use crate::identifier::identifier_of;

verus! {

/// Whether `url::Url::parse` accepts a string as a well-formed absolute
/// URL: a function of the string alone.
pub uninterp spec fn url_parses(s: Seq<char>) -> bool;

/// `url::Url`, the parsed URL the toolkit is handed, declared so a value of
/// it can pass through the library; the library looks at nothing inside it.
#[verifier::external_type_specification]
#[verifier::external_body]
pub struct ExUrl(url::Url);

/// `url::ParseError`, what `url::Url::parse` returns for a malformed URL;
/// the library only discards it.
#[verifier::external_type_specification]
#[verifier::external_body]
pub struct ExParseError(url::ParseError);

/// Relies on `url::Url::parse`: a deterministic parser that returns a URL
/// exactly for the strings it accepts as well-formed absolute URLs.
pub assume_specification[ url::Url::parse ](input: &str) -> (r: Result<url::Url, url::ParseError>)
    ensures
        r is Ok <==> url_parses(input@),
;

/// The fixed initial inner width of every window this command opens.
pub const INNER_WIDTH: u32 = 1200;

/// The fixed initial inner height of every window this command opens.
pub const INNER_HEIGHT: u32 = 800;

/// What the windowing toolkit is asked for: a window under the derived
/// identifier, displaying the given title, at the fixed initial inner size.
/// The command keeps no hold of the window once the toolkit owns it.
pub struct WebviewRequest {
    pub label: String,
    pub title: String,
    pub width: u32,
    pub height: u32,
}

impl WebviewRequest {
    /// The one request the command may make for a title: the identifier
    /// derived from the title as the window's label, the title itself as
    /// the displayed title, and the fixed initial inner size.
    pub open spec fn is_for(self, title: Seq<char>) -> bool {
        &&& self.label@ == identifier_of(title)
        &&& self.title@ == title
        &&& self.width == INNER_WIDTH
        &&& self.height == INNER_HEIGHT
    }
}

/// Builds the window request for a title and a URL, handing back the parsed
/// URL for the toolkit to load. A malformed URL is outside this function's
/// contract, as it is outside the command's: it is never turned into an
/// error value. A caller that cannot vouch for the URL goes through
/// `try_prepare_webview`, which refuses it instead.
pub fn prepare_webview(title: &str, url_text: &str) -> (r: (WebviewRequest, url::Url))
    requires
        url_parses(url_text@),
    ensures
        r.0.is_for(title@),
{
    let parsed: url::Url = match url::Url::parse(url_text) {
        Ok(u) => u,
        Err(_) => vstd::pervasive::unreached(),
    };
    let label: String = derive_identifier(title);
    let request = WebviewRequest {
        label,
        title: String::from_str(title),
        width: INNER_WIDTH,
        height: INNER_HEIGHT,
    };
    (request, parsed)
}

/// The command's own part of opening a webview: yields the window request
/// and the parsed URL exactly when the URL is a well-formed absolute URL,
/// and nothing otherwise. Whether the toolkit then creates the window is
/// the toolkit's to decide.
pub fn try_prepare_webview(title: &str, url_text: &str) -> (r: Option<
    (WebviewRequest, url::Url),
>)
    ensures
        r is Some <==> url_parses(url_text@),
        r matches Some(p) ==> p.0.is_for(title@),
{
    match url::Url::parse(url_text) {
        Ok(_) => Some(prepare_webview(title, url_text)),
        Err(_) => None,
    }
}

} // verus!
