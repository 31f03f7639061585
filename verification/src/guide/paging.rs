//! Reading lists that span several pages, one page after the other.
//!
//! Each list is read by a small state machine: it says which page to fetch next,
//! the caller fetches and parses it, and hands the page back.

use vstd::prelude::*;

use crate::codex::html_list_parser::{Entry, ParsedList};
use crate::num::{spec_dec, unsigned_to_string};
use crate::text::{concat3, to_owned};

verus! {

/// What to do next when reading a list that spans several pages.
#[derive(Debug, PartialEq, Eq)]
pub enum PageAction {
    /// Fetch the page at this url, and hand it back.
    Fetch(String),
    /// All the pages were read.
    Done,
}

/// The url of the page `n` of a list whose first page is at `base_url`:
/// `{base_url}/?p={n}`.
pub open spec fn page_url(base_url: Seq<char>, n: nat) -> Seq<char> {
    base_url + "/?p="@ + spec_dec(n)
}

/// The action fetches the page at `url`.
pub open spec fn fetches(a: PageAction, url: Seq<char>) -> bool {
    a matches PageAction::Fetch(u) && u@ == url
}

/// `{base_url}/?p={n}`.
fn page_url_of(base_url: &str, n: u64) -> (r: String)
    ensures
        r@ == page_url(base_url@, n as nat),
{
    concat3(base_url, "/?p=", unsigned_to_string(n).as_str())
}

/// Reading the pages of a list of the codex: the entries read so far, and the number
/// of the page asked for last (the first page is the base url itself; the next ones
/// are `?p=2`, `?p=3`, ...).
pub struct CodexPages {
    /// The entries of the pages read so far, in order.
    pub entries: Vec<Entry>,
    /// The number of the page asked for last.
    pub page: u64,
}

impl CodexPages {
    /// Start reading the list at `base_url`: fetch the url itself.
    pub fn start(base_url: &str) -> (r: (CodexPages, PageAction))
        ensures
            r.0.entries@.len() == 0,
            r.0.page == 1,
            r.1 matches PageAction::Fetch(u) && u@ == base_url@,
    {
        (CodexPages { entries: Vec::new(), page: 1 }, PageAction::Fetch(to_owned(base_url)))
    }

    /// Take in the page asked for last: keep its entries after those read so far, and
    /// ask for the next page when the page says there is one.
    pub fn step(self, base_url: &str, page: ParsedList) -> (r: (CodexPages, PageAction))
        requires
            self.page < u64::MAX,
        ensures
            r.0.entries@ == self.entries@ + page.entries@,
            page.has_next_page ==> r.0.page == self.page + 1 && fetches(
                r.1,
                page_url(base_url@, (self.page + 1) as nat),
            ),
            !page.has_next_page ==> r.0.page == self.page && r.1 == PageAction::Done,
    {
        let CodexPages { mut entries, page: n } = self;
        let ParsedList { entries: mut more, has_next_page } = page;
        entries.append(&mut more);
        if has_next_page {
            let next = n + 1;
            (CodexPages { entries, page: next }, PageAction::Fetch(page_url_of(base_url, next)))
        } else {
            (CodexPages { entries, page: n }, PageAction::Done)
        }
    }
}

/// Reading the pages of a list of the guide's admin view: the entries read so far,
/// the number of entries the list holds (known once the first page is read), and the
/// number of the next page to ask for (after the base url come `?p=1`, `?p=2`, ...).
pub struct AdminPages<T> {
    /// The entries of the pages read so far, in order.
    pub entries: Vec<T>,
    /// The number of entries of the list, as its first page gives it.
    pub total: Option<usize>,
    /// The number of the next page to ask for.
    pub next_page: u64,
}

impl<T> AdminPages<T> {
    /// Start reading the list at `base_url`: fetch the url itself.
    pub fn start(base_url: &str) -> (r: (AdminPages<T>, PageAction))
        ensures
            r.0.entries@.len() == 0,
            r.0.total is None,
            r.0.next_page == 1,
            r.1 matches PageAction::Fetch(u) && u@ == base_url@,
    {
        (AdminPages { entries: Vec::new(), total: None, next_page: 1 }, PageAction::Fetch(to_owned(base_url)))
    }

    /// Take in the page asked for last, with its entries and the number of entries
    /// it says the list holds: keep its entries after those read so far (the first
    /// page's number becomes the list's), and ask for the next page while fewer
    /// entries than that were read.
    pub fn step(self, base_url: &str, page_entries: Vec<T>, number_entries: usize) -> (r: (
        AdminPages<T>,
        PageAction,
    ))
        requires
            self.next_page < u64::MAX,
        ensures
            r.0.entries@ == self.entries@ + page_entries@,
            r.0.total == Some(
                match self.total {
                    Some(t) => t,
                    None => number_entries,
                },
            ),
            r.0.entries@.len() < r.0.total.unwrap() ==> r.0.next_page == self.next_page + 1
                && fetches(r.1, page_url(base_url@, self.next_page as nat)),
            r.0.entries@.len() >= r.0.total.unwrap() ==> r.0.next_page == self.next_page && r.1
                == PageAction::Done,
    {
        let AdminPages { mut entries, total, next_page } = self;
        let mut more = page_entries;
        entries.append(&mut more);
        let total = match total {
            Some(t) => t,
            None => number_entries,
        };
        if entries.len() < total {
            let url = page_url_of(base_url, next_page);
            (AdminPages { entries, total: Some(total), next_page: next_page + 1 }, PageAction::Fetch(url))
        } else {
            (AdminPages { entries, total: Some(total), next_page }, PageAction::Done)
        }
    }
}

} // verus!
