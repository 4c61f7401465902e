//! Opening a further top-level content view on an outside address.

use url::{ParseError, Url};
use vstd::prelude::*;

verus! {

/// `url::Url`, an absolute URL as the parser built it, carried through as it
/// is.
#[verifier::external_type_specification]
#[verifier::external_body]
pub struct ExUrl(Url);

/// `url::ParseError`, the kind of a parse failure, read only through its
/// description.
#[verifier::external_type_specification]
#[verifier::external_body]
pub struct ExParseError(ParseError);

/// What `url::Url::parse` gives for an address: the absolute URL it denotes,
/// or why it denotes none.
pub uninterp spec fn parsed_address(address: Seq<char>) -> Result<Url, ParseError>;

/// The text that `url::ParseError` displays for a parse failure.
pub uninterp spec fn parse_error_text(error: ParseError) -> Seq<char>;

/// Calls `url::Url::parse`, whose answer depends on the address alone and is
/// the one `parsed_address` names.
#[verifier::external_body]
fn parse_address(address: &str) -> (parsed: Result<Url, ParseError>)
    ensures
        parsed == parsed_address(address@),
{
    Url::parse(address)
}

/// Formats a `url::ParseError` through its `Display` impl, which writes one
/// fixed description for each kind of failure: the text `parse_error_text`
/// names.
#[verifier::external_body]
fn describe(error: &ParseError) -> (text: String)
    ensures
        text@ == parse_error_text(*error),
{
    error.to_string()
}

/// The title every content view is given.
pub open spec fn view_title() -> Seq<char> {
    "X64 Browser"@
}

/// The initial inner width of a content view, in logical units.
pub const VIEW_WIDTH: u32 = 1200;

/// The initial inner height of a content view, in logical units.
pub const VIEW_HEIGHT: u32 = 800;

/// A content view for the host to build: a top-level window, identified by
/// `label`, that loads the outside address `url`.
#[derive(Debug)]
pub struct ViewRequest {
    pub label: String,
    pub url: Url,
    pub title: String,
    pub width: u32,
    pub height: u32,
}

/// Whether `request` is the view that `label` and `url` call for: the label
/// as given, the fixed title and the fixed initial size.
pub open spec fn is_view_for(request: ViewRequest, label: Seq<char>, url: Url) -> bool {
    &&& request.label@ == label
    &&& request.url == url
    &&& request.title@ == view_title()
    &&& request.width == VIEW_WIDTH
    &&& request.height == VIEW_HEIGHT
}

/// Decides on a view from a parsed address. An address that did not parse
/// gives the parser's description of the failure and no view.
pub fn view_request(label: String, parsed: Result<Url, ParseError>) -> (outcome: Result<
    ViewRequest,
    String,
>)
    ensures
        match parsed {
            Ok(url) => outcome is Ok && is_view_for(outcome->Ok_0, label@, url),
            Err(error) => outcome is Err && outcome->Err_0@ == parse_error_text(error),
        },
{
    match parsed {
        Ok(url) => Ok(
            ViewRequest {
                label,
                url,
                title: String::from_str("X64 Browser"),
                width: VIEW_WIDTH,
                height: VIEW_HEIGHT,
            },
        ),
        Err(error) => Err(describe(&error)),
    }
}

/// Parses `address` and decides on the view to build. A malformed address
/// gives an error and no view; no label is refused here.
pub fn create_webview_window(label: String, address: &str) -> (outcome: Result<
    ViewRequest,
    String,
>)
    ensures
        match parsed_address(address@) {
            Ok(url) => outcome is Ok && is_view_for(outcome->Ok_0, label@, url),
            Err(error) => outcome is Err && outcome->Err_0@ == parse_error_text(error),
        },
{
    view_request(label, parse_address(address))
}

} // verus!
