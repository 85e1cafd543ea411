//! The HTTP surface: which requests get the listing, and what each kind of
//! response holds.

use crate::json::{json_array, render_listing};
use crate::scan::{listed, FileEntry};
use vstd::prelude::*;
use vstd::string::StringExecFns;

verus! {

/// What a request is answered with.
#[derive(Clone, Copy, Debug, PartialEq, Eq, Structural)]
pub enum Route {
    /// The listing of matching files.
    Listing,
    /// The fixed not-found response.
    NotFound,
}

/// The kind of body that a response carries.
#[derive(Clone, Copy, Debug, PartialEq, Eq, Structural)]
pub enum ContentType {
    /// `application/json`
    Json,
    /// `text/plain`
    PlainText,
}

/// A response, ready to be sent.
#[derive(Debug)]
pub struct Response {
    pub status: u16,
    pub content_type: ContentType,
    pub body: String,
}

/// The one method that is served the listing.
pub open spec fn listing_method() -> Seq<char> {
    "GET"@
}

/// The one path that serves the listing.
pub open spec fn listing_path() -> Seq<char> {
    "/filesize.json"@
}

/// The route of a request: the listing for a GET of the listing path, the
/// not-found response for every other method and every other path. Both are
/// compared as they are: no case is folded and no trailing slash dropped.
pub open spec fn route_of(method: Seq<char>, path: Seq<char>) -> Route {
    if method == listing_method() && path == listing_path() {
        Route::Listing
    } else {
        Route::NotFound
    }
}

fn same_text(left: &str, right: &str) -> (same: bool)
    ensures
        same == (left@ == right@),
{
    String::from_str(left) == String::from_str(right)
}

/// Chooses the route of a request from its method and its path.
pub fn route(method: &str, path: &str) -> (chosen: Route)
    ensures
        chosen == route_of(method@, path@),
{
    if same_text(method, "GET") && same_text(path, "/filesize.json") {
        Route::Listing
    } else {
        Route::NotFound
    }
}

/// The response to a successful scan: status 200 and the listing as JSON.
pub fn listing_response(entries: &Vec<FileEntry>) -> (response: Response)
    ensures
        response.status == 200,
        response.content_type == ContentType::Json,
        response.body@ == json_array(listed(entries@)),
{
    Response { status: 200, content_type: ContentType::Json, body: render_listing(entries) }
}

/// The response to every request off the listing route: status 404 and the
/// plain text `Not Found`.
pub fn not_found() -> (response: Response)
    ensures
        response.status == 404,
        response.content_type == ContentType::PlainText,
        response.body@ == "Not Found"@,
{
    Response {
        status: 404,
        content_type: ContentType::PlainText,
        body: String::from_str("Not Found"),
    }
}

} // verus!
