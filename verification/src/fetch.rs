//! The requests made to Google Scholar, the answers accepted, and the paging
//! through a profile's publications.
use vstd::prelude::*;

use crate::error::Error;
use crate::model::{Publication, PublicationView};
use crate::text::{decimal, decimal_text};

verus! {

/// The number of publications that one page request asks for.
pub const PAGE_SIZE: usize = 100;

/// The address of a scholar's profile page.
pub open spec fn profile_url_spec(id: Seq<char>) -> Seq<char> {
    "https://scholar.google.com/citations?user="@ + id + "&hl=en"@
}

/// The address of the page of a scholar's publications that starts at `start_at`.
pub open spec fn publication_url_spec(id: Seq<char>, start_at: nat) -> Seq<char> {
    "https://scholar.google.com/citations?user="@ + id + "&hl=en&cstart="@ + decimal(start_at)
        + "&pagesize=100"@
}

/// Whether an HTTP status code means success, as `StatusCode::is_success` decides.
pub open spec fn is_success_status(status: u16) -> bool {
    200 <= status <= 299
}

/// Exactly the codes from 200 to 299 mean success; a refusal such as 503 does not.
pub proof fn lemma_success_statuses(status: u16)
    ensures
        is_success_status(status) <==> 200 <= status && status <= 299,
        !is_success_status(503),
        !is_success_status(404),
        is_success_status(200),
{
}

/// The address of a scholar's profile page.
pub fn profile_url(id: &str) -> (r: String)
    ensures
        r@ == profile_url_spec(id@),
{
    let mut r = String::from_str("https://scholar.google.com/citations?user=");
    r.append(id);
    r.append("&hl=en");
    r
}

/// The address of the page of a scholar's publications that starts at `start_at`.
pub fn publication_url(id: &str, start_at: usize) -> (r: String)
    ensures
        r@ == publication_url_spec(id@, start_at as nat),
{
    let mut r = String::from_str("https://scholar.google.com/citations?user=");
    r.append(id);
    r.append("&hl=en&cstart=");
    let start = decimal_text(start_at);
    r.append(start.as_str());
    r.append("&pagesize=100");
    r
}

/// Accepts an answer with a status code from 200 to 299; any other is an
/// `HttpError` carrying the code.
pub fn check_status(status: u16) -> (r: Result<(), Error>)
    ensures
        r is Ok <==> is_success_status(status),
        r is Ok <==> 200 <= status && status <= 299,
        r matches Err(e) ==> e == Error::HttpError(status),
{
    if 200 <= status && status <= 299 {
        Ok(())
    } else {
        Err(Error::HttpError(status))
    }
}

/// The publications of a list of pages, page after page.
pub open spec fn flatten_pages(pages: Seq<Seq<PublicationView>>) -> Seq<PublicationView>
    decreases pages.len(),
{
    if pages.len() == 0 {
        Seq::empty()
    } else {
        flatten_pages(pages.drop_last()) + pages.last()
    }
}

/// The state of the paging through a scholar's publications: pages are asked for
/// from offset 0 in steps of `PAGE_SIZE`, until a page comes back with fewer than
/// `PAGE_SIZE` publications.
pub struct PublicationPager {
    start_at: usize,
    publications: Vec<Publication>,
    finished: bool,
    pages: Ghost<Seq<Seq<PublicationView>>>,
}

impl PublicationPager {
    /// The pages received so far, in order.
    pub closed spec fn pages(&self) -> Seq<Seq<PublicationView>> {
        self.pages@
    }

    /// Whether a short page has ended the paging.
    pub closed spec fn is_finished(&self) -> bool {
        self.finished
    }

    /// The offset of the next page to ask for.
    pub closed spec fn next_offset(&self) -> nat {
        self.start_at as nat
    }

    /// The publications collected so far.
    pub closed spec fn collected(&self) -> Seq<PublicationView> {
        self.publications.deep_view()
    }

    /// Every page but a final short one is full, the next offset counts the full
    /// pages, and the collected publications are the pages' publications in order.
    pub closed spec fn wf(&self) -> bool {
        let full = if self.finished {
            self.pages@.len() - 1
        } else {
            self.pages@.len() as int
        };
        &&& self.finished ==> self.pages@.len() > 0 && self.pages@.last().len() < PAGE_SIZE
        &&& forall|i: int| 0 <= i < full ==> #[trigger] self.pages@[i].len() >= PAGE_SIZE
        &&& self.start_at == PAGE_SIZE * full
        &&& self.publications.deep_view() == flatten_pages(self.pages@)
    }

    /// A pager that has received nothing and asks for offset 0 first.
    pub fn new() -> (p: Self)
        ensures
            p.wf(),
            p.pages() == Seq::<Seq<PublicationView>>::empty(),
            !p.is_finished(),
    {
        let p = PublicationPager {
            start_at: 0,
            publications: Vec::new(),
            finished: false,
            pages: Ghost(Seq::empty()),
        };
        assert(p.publications.deep_view() =~= Seq::<PublicationView>::empty());
        p
    }

    /// The offset of the page to ask for next, `None` once a short page has come.
    pub fn next_request(&self) -> (r: Option<usize>)
        requires
            self.wf(),
        ensures
            r == (if self.is_finished() {
                None
            } else {
                Some(self.next_offset() as usize)
            }),
    {
        if self.finished {
            None
        } else {
            Some(self.start_at)
        }
    }

    /// Records the page that came back for the offset last asked for: its
    /// publications follow the ones collected, a full page moves the offset on by
    /// `PAGE_SIZE`, and a short one ends the paging.
    pub fn record_page(&mut self, page: Vec<Publication>)
        requires
            old(self).wf(),
            !old(self).is_finished(),
            page.len() >= PAGE_SIZE ==> old(self).next_offset() + PAGE_SIZE <= usize::MAX,
        ensures
            final(self).wf(),
            final(self).pages() == old(self).pages().push(page.deep_view()),
            final(self).is_finished() == (page.len() < PAGE_SIZE),
            final(self).collected() == old(self).collected() + page.deep_view(),
            final(self).next_offset() == if page.len() < PAGE_SIZE {
                old(self).next_offset() as int
            } else {
                old(self).next_offset() + PAGE_SIZE
            },
    {
        let ghost old_pages = self.pages@;
        let ghost old_pubs = self.publications.deep_view();
        let ghost pv = page.deep_view();
        let size = page.len();
        let mut page = page;
        self.publications.append(&mut page);
        assert(self.publications.deep_view() =~= old_pubs + pv);
        self.pages = Ghost(old_pages.push(pv));
        assert(self.pages@.drop_last() =~= old_pages);
        if size < PAGE_SIZE {
            self.finished = true;
        } else {
            self.start_at = self.start_at + PAGE_SIZE;
        }
        assert forall|i: int|
            0 <= i < (if self.finished {
                self.pages@.len() - 1
            } else {
                self.pages@.len() as int
            }) implies #[trigger] self.pages@[i].len() >= PAGE_SIZE by {
            if i < old_pages.len() {
                assert(self.pages@[i] == old_pages[i]);
            }
        }
    }

    /// The publications collected from all pages, in order.
    pub fn into_publications(self) -> (r: Vec<Publication>)
        requires
            self.wf(),
        ensures
            r.deep_view() == flatten_pages(self.pages()),
    {
        self.publications
    }
}

/// The law of the paging: in a well-formed pager the publications collected are
/// those of the pages received, in order; every page but a final short one is
/// full; and the offset of the next request is `PAGE_SIZE` times the number of
/// full pages.
pub proof fn lemma_pager_law(p: &PublicationPager)
    requires
        p.wf(),
    ensures
        p.collected() == flatten_pages(p.pages()),
        p.is_finished() ==> p.pages().len() > 0 && p.pages().last().len() < PAGE_SIZE,
        forall|i: int|
            0 <= i < p.pages().len() && !(p.is_finished() && i == p.pages().len() - 1)
                ==> #[trigger] p.pages()[i].len() >= PAGE_SIZE,
        p.next_offset() == PAGE_SIZE * (if p.is_finished() {
            p.pages().len() - 1
        } else {
            p.pages().len() as int
        }),
{
}

} // verus!
