//! The wiki and site pages as the API serves them: a page is found by its
//! slug (leading slashes from the catch-all route ignored), listed by title,
//! slug and path, and served with the repository it came from.

use vstd::prelude::*;
use vstd::string::*;
use crate::text::{chars_of, string_from_chars, sub_chars};

verus! {

/// A rendered page.
#[derive(Clone, Debug)]
pub struct Page {
    pub title: String,
    pub html_content: String,
    pub slug: String,
    pub relative_path: String,
}

/// A page as served, with the repository it came from.
#[derive(Clone, Debug)]
pub struct PageResponse {
    pub title: String,
    pub html_content: String,
    pub slug: String,
    pub relative_path: String,
    pub repo_url: Option<String>,
    pub default_branch: Option<String>,
}

impl PageResponse {
    /// Serve a page with its repository's address and default branch.
    pub fn from_page(page: Page, repo_url: Option<String>, default_branch: Option<String>) -> (r: PageResponse)
        ensures
            r.title == page.title,
            r.html_content == page.html_content,
            r.slug == page.slug,
            r.relative_path == page.relative_path,
            r.repo_url == repo_url,
            r.default_branch == default_branch,
    {
        PageResponse {
            title: page.title,
            html_content: page.html_content,
            slug: page.slug,
            relative_path: page.relative_path,
            repo_url,
            default_branch,
        }
    }
}

/// A page in a listing.
#[derive(Clone, Debug)]
pub struct PageSummary {
    pub title: String,
    pub slug: String,
    pub relative_path: String,
}

/// A listing of pages.
#[derive(Clone, Debug)]
pub struct PagesListResponse {
    pub pages: Vec<PageSummary>,
}

/// Whether a summary lists a page.
pub open spec fn summarises(s: PageSummary, p: Page) -> bool {
    s.title@ == p.title@ && s.slug@ == p.slug@ && s.relative_path@ == p.relative_path@
}

/// List pages by title, slug and path, in the order given.
pub fn list_pages(pages: &[Page]) -> (r: PagesListResponse)
    ensures
        r.pages@.len() == pages@.len(),
        forall|i: int| 0 <= i < pages@.len() ==> summarises(#[trigger] r.pages@[i], pages@[i]),
{
    let mut out: Vec<PageSummary> = Vec::new();
    let mut i: usize = 0;
    while i < pages.len()
        invariant
            i <= pages@.len(),
            out@.len() == i,
            forall|k: int| 0 <= k < i ==> summarises(#[trigger] out@[k], pages@[k]),
        decreases pages@.len() - i,
    {
        let p = &pages[i];
        out.push(
            PageSummary { title: p.title.clone(), slug: p.slug.clone(), relative_path: p.relative_path.clone() },
        );
        i = i + 1;
    }
    PagesListResponse { pages: out }
}

/// `s` without its leading slashes (`trim_start_matches('/')`).
pub open spec fn strip_leading_slashes(s: Seq<char>) -> Seq<char>
    decreases s.len(),
{
    if s.len() > 0 && s[0] == '/' {
        strip_leading_slashes(s.drop_first())
    } else {
        s
    }
}

/// The slug a catch-all path names.
pub fn page_slug(path: &str) -> (r: String)
    ensures
        r@ == strip_leading_slashes(path@),
{
    let cs = chars_of(path);
    let mut i: usize = 0;
    assert(cs@.subrange(0, cs@.len() as int) =~= cs@);
    while i < cs.len() && cs[i] == '/'
        invariant
            i <= cs@.len(),
            strip_leading_slashes(cs@) == strip_leading_slashes(cs@.subrange(i as int, cs@.len() as int)),
        decreases cs@.len() - i,
    {
        let ghost rest = cs@.subrange(i as int, cs@.len() as int);
        assert(rest.drop_first() =~= cs@.subrange(i + 1, cs@.len() as int));
        i = i + 1;
    }
    let t = sub_chars(cs.as_slice(), i, cs.len());
    string_from_chars(t.as_slice())
}

/// Which page was asked for and not found.
#[derive(Clone, Copy, Debug, PartialEq, Eq, Structural)]
pub enum MissingPage {
    Wiki,
    SiteIndex,
    Site,
}

/// The 404 body for a missing page: its message, and the slug asked for
/// (none for the site index).
pub fn page_not_found(kind: MissingPage, slug: &str) -> (r: (String, Option<String>))
    ensures
        kind == MissingPage::Wiki ==> (r.0@ == "Wiki page not found"@ && (r.1 matches Some(s) && s@ == slug@)),
        kind == MissingPage::SiteIndex ==> r.0@ == "Site index page not found"@ && r.1 is None,
        kind == MissingPage::Site ==> (r.0@ == "Site page not found"@ && (r.1 matches Some(s) && s@ == slug@)),
{
    match kind {
        MissingPage::Wiki => ("Wiki page not found".to_string(), Some(slug.to_string())),
        MissingPage::SiteIndex => ("Site index page not found".to_string(), None),
        MissingPage::Site => ("Site page not found".to_string(), Some(slug.to_string())),
    }
}

} // verus!
