//! The page renderer: substitutes a title and a description into a fixed
//! HTML template.

use vstd::prelude::*;
use vstd::string::*;

verus! {

/// The two strings of one page render. Built fresh for each request and
/// discarded after rendering.
pub struct Page {
    pub title: String,
    pub description: String,
}

/// The site's fixed title.
pub open spec fn site_title() -> Seq<char> {
    "Tuono - Astro React Askama"@
}

/// The site's fixed description.
pub open spec fn site_description() -> Seq<char> {
    "The react / rust fullstack framework"@
}

/// The full markup produced for a page: the template with the title and the
/// description substituted in.
pub open spec fn rendered_page(title: Seq<char>, description: Seq<char>) -> Seq<char> {
    "<!DOCTYPE html><html><head><title>"@ + title + "</title></head><body><p>"@ + description
        + "</p></body></html>"@
}

impl Page {
    /// Builds a page value from its two strings.
    pub fn new(title: String, description: String) -> (p: Page)
        ensures
            p.title@ == title@,
            p.description@ == description@,
    {
        Page { title, description }
    }

    /// The page the site serves at its root: the fixed title and description.
    pub fn site_page() -> (p: Page)
        ensures
            p.title@ == site_title(),
            p.description@ == site_description(),
    {
        Page {
            title: String::from_str("Tuono - Astro React Askama"),
            description: String::from_str("The react / rust fullstack framework"),
        }
    }
}

/// `needle` occurs in `hay` starting at position `i`.
pub open spec fn contains_at(hay: Seq<char>, i: int, needle: Seq<char>) -> bool {
    0 <= i && i + needle.len() <= hay.len() && hay.subrange(i, i + needle.len()) == needle
}

/// `needle` occurs somewhere in `hay` as a contiguous run.
pub open spec fn contains_seq(hay: Seq<char>, needle: Seq<char>) -> bool {
    exists|i: int| contains_at(hay, i, needle)
}

/// Law: whatever the page's strings are, the rendered markup contains the
/// title as a contiguous run of characters.
pub proof fn lemma_rendered_contains_title(title: Seq<char>, description: Seq<char>)
    ensures
        contains_seq(rendered_page(title, description), title),
{
    let hay = rendered_page(title, description);
    let i = "<!DOCTYPE html><html><head><title>"@.len() as int;
    assert(hay.subrange(i, i + title.len() as int) =~= title);
    assert(contains_at(hay, i, title));
}

/// Renders a page: the result is exactly the template with the page's two
/// strings substituted in.
pub fn render_index(page: &Page) -> (html: String)
    ensures
        html@ == rendered_page(page.title@, page.description@),
{
    let mut html = String::from_str("<!DOCTYPE html><html><head><title>");
    html.append(page.title.as_str());
    html.append("</title></head><body><p>");
    html.append(page.description.as_str());
    html.append("</p></body></html>");
    proof {
        assert(html@ =~= rendered_page(page.title@, page.description@));
    }
    html
}

} // verus!
