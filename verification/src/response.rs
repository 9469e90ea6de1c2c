//! The responses the site produces: the rendered root page, and a file's
//! bytes or a not-found status for everything else.

use vstd::prelude::*;
use crate::render::Page;
use crate::render::contains_seq;
use crate::render::lemma_rendered_contains_title;
use crate::render::render_index;
use crate::render::rendered_page;
use crate::render::site_description;
use crate::render::site_title;

verus! {

/// The status of a successful response.
pub const STATUS_OK: u16 = 200;

/// The status of a response to a path that resolves to no file.
pub const STATUS_NOT_FOUND: u16 = 404;

/// A response carrying rendered markup.
pub struct HtmlResponse {
    pub status: u16,
    pub body: String,
}

/// A response carrying a file's bytes, or nothing when the file is absent.
pub struct FileResponse {
    pub status: u16,
    pub body: Vec<u8>,
}

/// The response to a request for the root path: always successful, with the
/// site's fixed page rendered as the body. The body therefore contains the
/// site title.
pub fn index_response() -> (r: HtmlResponse)
    ensures
        r.status == STATUS_OK,
        r.body@ == rendered_page(site_title(), site_description()),
        contains_seq(r.body@, site_title()),
{
    let page = Page::site_page();
    let body = render_index(&page);
    proof {
        lemma_rendered_contains_title(site_title(), site_description());
    }
    HtmlResponse { status: STATUS_OK, body }
}

/// The response to a static-file request, given the outcome of the file
/// lookup: the file's exact bytes with a success status when it was found,
/// and an empty not-found response when it was not.
pub fn file_response(found: Option<Vec<u8>>) -> (r: FileResponse)
    ensures
        found matches Some(bytes) ==> r.status == STATUS_OK && r.body@ == bytes@,
        found is None ==> r.status == STATUS_NOT_FOUND && r.body@ == Seq::<u8>::empty(),
{
    match found {
        Some(bytes) => FileResponse { status: STATUS_OK, body: bytes },
        None => FileResponse { status: STATUS_NOT_FOUND, body: Vec::new() },
    }
}

} // verus!
