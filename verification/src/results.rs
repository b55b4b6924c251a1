//! The paginated iteration over the results of one query.
//!
//! The engine never touches the network. A pull is made in two steps:
//! [`SearchResults::poll`] hands out a buffered record or asks for the
//! next page, and [`SearchResults::resume`] takes what the transfer of that
//! page gave, as a [`Fetched`], and answers the pull.

use crate::endpoint::{endpoint_url, page_url};
use crate::error::Error;
use crate::raw::{Page, RawResult, LENGTH_MISMATCH};
use crate::record::{records_of, Record, SearchResult};
use reqwest::Error as TransportError;
use vstd::prelude::*;

verus! {

/// The mathematical model of a [`SearchResults`].
pub struct QueryState {
    /// The search term.
    pub query: Seq<char>,
    /// The index of the page that the next fetch asks for, which is the
    /// number of pages taken in so far.
    pub page: nat,
    /// The records that were taken in and not handed out yet, the next one
    /// first.
    pub pending: Seq<Record>,
}

impl QueryState {
    /// The state in which a search begins.
    pub open spec fn fresh(query: Seq<char>) -> QueryState {
        QueryState { query, page: 0, pending: Seq::empty() }
    }

    /// Before the first page is taken in, nothing is pending.
    pub open spec fn wf(self) -> bool {
        self.page == 0 ==> self.pending.len() == 0
    }

    /// No page was fetched yet, or every record of the last one was handed
    /// out: the next pull has to fetch.
    pub open spec fn needs_fetch(self) -> bool {
        self.page == 0 || self.pending.len() == 0
    }

    /// The state after the consistent page `page` was taken in: its records
    /// replace the buffer, and the page index moves on by one.
    pub open spec fn refreshed(self, page: Page) -> QueryState {
        QueryState { query: self.query, page: self.page + 1, pending: page.records() }
    }

    /// The state after a fetch that failed: the buffer is empty and the page
    /// index stays, so that the same page is asked for again.
    pub open spec fn cleared(self) -> QueryState {
        QueryState { query: self.query, page: self.page, pending: Seq::empty() }
    }

    /// The state after the first pending record was handed out.
    pub open spec fn advanced(self) -> QueryState {
        QueryState { query: self.query, page: self.page, pending: self.pending.drop_first() }
    }

    /// The state after one whole pull, in which the fetch, where the pull
    /// makes one, is answered with the consistent page `page`: what
    /// [`SearchResults::poll`] leaves where a record is pending, and what
    /// [`SearchResults::resume`] leaves where none is.
    pub open spec fn pulled(self, page: Page) -> QueryState {
        if !self.needs_fetch() {
            self.advanced()
        } else if page.len() == 0 {
            self.refreshed(page)
        } else {
            self.refreshed(page).advanced()
        }
    }

    /// What that pull hands out: the first pending record, else the first
    /// record of `page`, else nothing.
    pub open spec fn handed_out(self, page: Page) -> Option<Record> {
        if !self.needs_fetch() {
            Some(self.pending.first())
        } else if page.len() == 0 {
            None
        } else {
            Some(page.record(0))
        }
    }
}

/// A stateful iteration container for search results.
#[derive(Debug)]
pub struct SearchResults<'search> {
    /// The search query.
    query: &'search str,
    /// The current result page.
    current_page: usize,
    /// The current list of results, the next one to hand out last.
    current_results: Vec<SearchResult>,
}

/// What the transfer of a page gave.
#[derive(Debug)]
pub enum Fetched {
    /// A body arrived and had the shape of a page.
    Page(RawResult),
    /// A body arrived, but it does not have the shape of a page: a list is
    /// missing, or holds something that is no string. The text says what
    /// is wrong with it.
    Misshapen(String),
    /// The transfer itself failed.
    Failed(TransportError),
}

/// What a pull does first.
#[derive(Debug)]
pub enum Poll {
    /// A record was pending; here it is.
    Ready(SearchResult),
    /// Nothing is pending. The page at [`SearchResults::request_url`] is to
    /// be fetched and handed to [`SearchResults::resume`].
    Fetch,
}

impl<'search> View for SearchResults<'search> {
    type V = QueryState;

    closed spec fn view(&self) -> QueryState {
        QueryState {
            query: self.query@,
            page: self.current_page as nat,
            pending: records_of(self.current_results@).reverse(),
        }
    }
}

impl<'search> SearchResults<'search> {
    /// Begins the iteration over the results for `query`.
    pub fn new(query: &'search str) -> (results: Self)
        ensures
            results@ == QueryState::fresh(query@),
    {
        // Each query returns a maximum number of 50 results, so reserve at least
        // that many elements in our `current_results` buffer.
        let results = Self {
            query: query,
            current_page: 0,
            current_results: Vec::with_capacity(50),
        };
        proof {
            assert(results@.pending =~= Seq::empty());
        }
        results
    }

    /// The index of the page that the next fetch asks for.
    pub fn page(&self) -> (page: usize)
        ensures
            page == self@.page,
    {
        self.current_page
    }

    /// Does the next pull have to fetch a page?
    pub fn needs_fetch(&self) -> (needed: bool)
        ensures
            needed == self@.needs_fetch(),
    {
        self.current_page == 0 || self.current_results.is_empty()
    }

    /// The URL of the page that the next fetch asks for.
    ///
    /// `None` where the `url` crate makes no URL of the endpoint.
    pub fn request_url(&self) -> (url: Option<String>)
        ensures
            url.deep_view() == endpoint_url(self@.query, self@.page),
    {
        page_url(self.query, self.current_page)
    }

    /// Refresh our internal state with what the fetch of the current page
    /// gave.
    ///
    /// A consistent page replaces the buffer and moves the page index on.
    /// A failed transfer is handed on as it is; a body without the shape of
    /// a page, or a page whose lists disagree in length, is a malformed
    /// response. Each of the three leaves the buffer empty and the page
    /// index where it was.
    ///
    /// This function doesn't check whether the current results have been fully consumed;
    /// callers must take care to fully consume all current results to avoid silently
    /// skipping results.
    pub fn refresh(&mut self, fetched: Fetched) -> (outcome: Result<(), Error>)
        requires
            fetched matches Fetched::Page(raw) && raw@.consistent() ==> old(self)@.page
                < usize::MAX,
        ensures
            match fetched {
                Fetched::Page(raw) => if raw@.consistent() {
                    outcome is Ok && final(self)@ == old(self)@.refreshed(raw@)
                } else {
                    final(self)@ == old(self)@.cleared() && (outcome matches Err(
                        Error::Malformed(message),
                    ) && message@ == LENGTH_MISMATCH@)
                },
                Fetched::Misshapen(reason) => outcome == Err::<(), Error>(
                    Error::Malformed(reason),
                ) && final(self)@ == old(self)@.cleared(),
                Fetched::Failed(failure) => outcome == Err::<(), Error>(Error::Request(failure))
                    && final(self)@ == old(self)@.cleared(),
            },
    {
        self.current_results.clear();
        proof {
            assert(self@.pending =~= Seq::empty());
        }
        match fetched {
            Fetched::Failed(failure) => Err(Error::Request(failure)),
            Fetched::Misshapen(reason) => Err(Error::Malformed(reason)),
            Fetched::Page(raw) => {
                let ghost page = raw@;
                match raw.consume(&mut self.current_results) {
                    Err(error) => Err(error),
                    Ok(()) => {
                        self.current_page += 1;
                        proof {
                            assert(records_of(self.current_results@) =~= page.records().reverse());
                            assert(self@.pending =~= page.records());
                        }
                        Ok(())
                    },
                }
            },
        }
    }

    /// The first step of a pull: hands out the next pending record, or
    /// asks for a fetch where there is none.
    pub fn poll(&mut self) -> (step: Poll)
        ensures
            old(self)@.needs_fetch() ==> step is Fetch && final(self)@ == old(self)@,
            !old(self)@.needs_fetch() ==> final(self)@ == old(self)@.advanced() && (
            step matches Poll::Ready(record) && record@ == old(self)@.pending.first()),
            !old(self)@.needs_fetch() ==> forall|page: Page|
                final(self)@ == #[trigger] old(self)@.pulled(page) && (step matches Poll::Ready(
                    record,
                ) && Some(record@) == old(self)@.handed_out(page)),
    {
        if self.needs_fetch() {
            return Poll::Fetch;
        }
        // NOTE: This produces results in the correct order, despite the `pop`.
        // See the implementation of RawResult::consume.
        Poll::Ready(self.take_pending().unwrap())
    }

    /// The second step of a pull that had to fetch: takes in what the fetch
    /// gave, as [`SearchResults::refresh`] does, and answers the pull with
    /// the first record of the new page, with `None` where the page is
    /// empty, or with the error.
    pub fn resume(&mut self, fetched: Fetched) -> (item: Option<Result<SearchResult, Error>>)
        requires
            fetched matches Fetched::Page(raw) && raw@.consistent() ==> old(self)@.page
                < usize::MAX,
        ensures
            match fetched {
                Fetched::Page(raw) => if !raw@.consistent() {
                    final(self)@ == old(self)@.cleared() && (item matches Some(
                        Err(Error::Malformed(message)),
                    ) && message@ == LENGTH_MISMATCH@)
                } else if raw@.len() == 0 {
                    item is None && final(self)@ == old(self)@.refreshed(raw@)
                } else {
                    final(self)@ == old(self)@.refreshed(raw@).advanced() && (item matches Some(
                        Ok(record),
                    ) && record@ == raw@.record(0))
                },
                Fetched::Misshapen(reason) => item == Some(
                    Err::<SearchResult, Error>(Error::Malformed(reason)),
                ) && final(self)@ == old(self)@.cleared(),
                Fetched::Failed(failure) => item == Some(
                    Err::<SearchResult, Error>(Error::Request(failure)),
                ) && final(self)@ == old(self)@.cleared(),
            },
            old(self)@.needs_fetch() && (fetched matches Fetched::Page(raw) && raw@.consistent())
                ==> final(self)@ == old(self)@.pulled(fetched->Page_0@) && match item {
                Some(Ok(record)) => old(self)@.handed_out(fetched->Page_0@) == Some(record@),
                Some(Err(_)) => false,
                None => old(self)@.handed_out(fetched->Page_0@) is None,
            },
    {
        match self.refresh(fetched) {
            Err(error) => Some(Err(error)),
            Ok(()) => match self.take_pending() {
                Some(record) => Some(Ok(record)),
                None => None,
            },
        }
    }

    /// Moves the next pending record out of the buffer, if there is one.
    fn take_pending(&mut self) -> (next: Option<SearchResult>)
        ensures
            old(self)@.pending.len() == 0 ==> next is None && final(self)@ == old(self)@,
            old(self)@.pending.len() > 0 ==> final(self)@ == old(self)@.advanced() && (
            next matches Some(record) && record@ == old(self)@.pending.first()),
    {
        let next = self.current_results.pop();
        proof {
            let before = records_of(old(self).current_results@);
            let after = records_of(self.current_results@);
            if before.len() > 0 {
                assert(after =~= before.drop_last());
                assert(after.reverse() =~= before.reverse().drop_first());
            }
        }
        next
    }
}

/// Search SunXDCC for the given `query`.
///
/// The returned `SearchResults` hands out the individual
/// [`SearchResult`] items, page by page.
pub fn search(query: &str) -> (results: SearchResults<'_>)
    ensures
        results@ == QueryState::fresh(query@),
{
    SearchResults::new(query)
}

} // verus!
