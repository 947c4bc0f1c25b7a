//! Reading a scene layer from a service: where its resources are, and how
//! its node pages are fetched one after another.

use vstd::prelude::*;
use vstd::string::*;
use crate::cmn::NodePage;
use crate::error::I3SError;
use crate::text::{nat_text, push_nat};

verus! {

/// A parsed URL of the `url` crate.
#[verifier::external_type_specification]
#[verifier::external_body]
pub struct ExUrl(url::Url);

/// Why the `url` crate could not parse a URL.
#[verifier::external_type_specification]
#[verifier::external_body]
pub struct ExUrlParseError(url::ParseError);

/// The text of a URL: its serialization, which is all that two URLs are
/// compared by.
pub uninterp spec fn url_text(url: url::Url) -> Seq<char>;

/// The text of the URL that a reference resolves to against a base URL of
/// the given text, or `None` where the reference cannot be resolved.
pub uninterp spec fn url_joined(base: Seq<char>, reference: Seq<char>) -> Option<Seq<char>>;

/// `url::Url::join`: parses `reference` with `base` as the base URL. The
/// outcome depends on the text of the base and on the reference alone:
/// `url_joined` names it.
#[verifier::external_body]
fn join_url(base: &url::Url, reference: &str) -> (r: Result<url::Url, url::ParseError>)
    ensures
        match r {
            Ok(url) => url_joined(url_text(*base), reference@) == Some(url_text(url)),
            Err(_) => url_joined(url_text(*base), reference@) is None,
        },
{
    base.join(reference)
}

/// `Clone` of `url::Url`: a URL of the same text.
#[verifier::external_body]
fn clone_url(url: &url::Url) -> (r: url::Url)
    ensures
        url_text(r) == url_text(*url),
{
    url.clone()
}

/// The text of the URL of a resource: the base itself for the empty path,
/// else the path resolved against the base.
pub open spec fn spec_resource_url(base: Seq<char>, path: Seq<char>) -> Option<Seq<char>> {
    if path.len() == 0 {
        Some(base)
    } else {
        url_joined(base, path)
    }
}

/// The URL of a resource of a service: the base itself for the empty path,
/// else the path resolved against the base. A path that cannot be resolved
/// is refused with `IO`.
pub fn resource_url(base: &url::Url, path: &str) -> (r: Result<url::Url, I3SError>)
    ensures
        match r {
            Ok(url) => spec_resource_url(url_text(*base), path@) == Some(url_text(url)),
            Err(e) => e == I3SError::IO && spec_resource_url(url_text(*base), path@) is None,
        },
{
    if path.is_empty() {
        Ok(clone_url(base))
    } else {
        match join_url(base, path) {
            Ok(url) => Ok(url),
            Err(_) => Err(I3SError::IO),
        }
    }
}

/// The path of a node page below the base of a service.
pub open spec fn spec_node_page_path(page: nat) -> Seq<char> {
    "layers/0/nodepages/"@ + nat_text(page)
}

/// The path of a node page below the base of a service.
pub fn node_page_path(page: usize) -> (path: String)
    ensures
        path@ == spec_node_page_path(page as nat),
{
    let mut path: String = "layers/0/nodepages/".to_owned();
    push_nat(&mut path, page as u64);
    path
}

/// What came back for the request of one node page.
#[derive(Debug)]
pub enum PageOutcome {
    /// The service answered with a node page.
    Page(NodePage),
    /// The service answered, but not with a node page: the pages have ended.
    EndOfPages,
    /// The request itself failed.
    TransportError,
}

/// Where the loading of the node pages of a service stands.
///
/// The pages are asked for one at a time from page 0 on. Each page that
/// comes back is kept and the next one is asked for; the first answer that
/// is no node page ends the loading; a failed request fails it.
#[derive(Debug)]
pub enum PageLoad {
    /// Page `next_page` is to be fetched; `loaded` are the pages before it.
    Fetch { next_page: usize, loaded: Vec<NodePage> },
    /// All pages have been fetched.
    Finished(Vec<NodePage>),
    /// The loading has failed.
    Failed(I3SError),
}

impl PageLoad {
    /// Whether the page asked for is the one behind the pages kept.
    pub open spec fn wf(&self) -> bool {
        match self {
            PageLoad::Fetch { next_page, loaded } => *next_page == loaded@.len(),
            _ => true,
        }
    }

    /// Whether `after` is where the loading stands once `outcome` has come
    /// back in the state `self`.
    pub open spec fn steps_to(&self, outcome: PageOutcome, after: PageLoad) -> bool {
        match *self {
            PageLoad::Fetch { next_page, loaded } => match outcome {
                PageOutcome::Page(page) => after matches PageLoad::Fetch { next_page: next, loaded: kept }
                    && kept@ == loaded@.push(page) && next == kept@.len(),
                PageOutcome::EndOfPages => after matches PageLoad::Finished(pages) && pages@ == loaded@,
                PageOutcome::TransportError => after == PageLoad::Failed(I3SError::IO),
            },
            PageLoad::Finished(pages) => after matches PageLoad::Finished(kept) && kept@ == pages@,
            PageLoad::Failed(e) => after == PageLoad::Failed(e),
        }
    }

    /// The start of a loading: page 0 is to be fetched, and nothing is kept
    /// yet.
    pub fn start() -> (r: Self)
        ensures
            r matches PageLoad::Fetch { next_page, loaded } && next_page == 0 && loaded@.len() == 0,
            r.wf(),
    {
        PageLoad::Fetch { next_page: 0, loaded: Vec::new() }
    }

    /// The page that is to be fetched now, if the loading goes on.
    pub fn request(&self) -> (r: Option<usize>)
        ensures
            r == match *self {
                PageLoad::Fetch { next_page, loaded } => Some(next_page),
                _ => None::<usize>,
            },
    {
        match self {
            PageLoad::Fetch { next_page, loaded: _ } => Some(*next_page),
            _ => None,
        }
    }

    /// Where the loading stands once `outcome` has come back for the page
    /// asked for. A loading that has finished or failed stays as it is.
    pub fn advance(self, outcome: PageOutcome) -> (r: Self)
        ensures
            self.steps_to(outcome, r),
            self.wf() ==> r.wf(),
    {
        match self {
            PageLoad::Fetch { next_page: _, loaded } => match outcome {
                PageOutcome::Page(page) => {
                    let mut kept: Vec<NodePage> = loaded;
                    kept.push(page);
                    let next: usize = kept.len();
                    PageLoad::Fetch { next_page: next, loaded: kept }
                },
                PageOutcome::EndOfPages => PageLoad::Finished(loaded),
                PageOutcome::TransportError => PageLoad::Failed(I3SError::IO),
            },
            PageLoad::Finished(pages) => PageLoad::Finished(pages),
            PageLoad::Failed(e) => PageLoad::Failed(e),
        }
    }
}

} // verus!
