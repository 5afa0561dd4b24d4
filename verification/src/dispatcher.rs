//! Searches in flight: which answer is the one that is waited for.
//!
//! Every search carries the number that the dispatcher gave it, and so does its answer. The
//! dispatcher moves on to the next number with every search and with every cancellation, so that
//! an answer that comes too late carries a number that is no longer the current one.

use crate::search::{SearchBackend, SearchError, SearchResult, SortOrder};
use std::sync::atomic::AtomicBool;
use vstd::prelude::*;

verus! {

/// Why no results came back from a search.
#[derive(Debug, PartialEq, Eq)]
#[non_exhaustive]
pub enum DispatchError {
    /// The search itself failed.
    Search(SearchError),
    /// The worker thread ended without an answer: it panicked.
    WorkerPanicked,
}

impl DispatchError {
    /// The error in words.
    pub open spec fn words(self) -> Seq<char> {
        match self {
            DispatchError::Search(e) => e.words(),
            DispatchError::WorkerPanicked => "search worker thread crashed before producing a result"@,
        }
    }

    /// The error in words.
    pub fn to_string(&self) -> (r: String)
        ensures
            r@ == self.words(),
    {
        match self {
            DispatchError::Search(e) => e.to_string(),
            DispatchError::WorkerPanicked => "search worker thread crashed before producing a result".to_owned(),
        }
    }
}

impl From<SearchError> for DispatchError {
    fn from(e: SearchError) -> (r: DispatchError) {
        DispatchError::Search(e)
    }
}

impl vstd::std_specs::convert::FromSpecImpl<SearchError> for DispatchError {
    open spec fn obeys_from_spec() -> bool {
        true
    }

    open spec fn from_spec(e: SearchError) -> DispatchError {
        DispatchError::Search(e)
    }
}

/// The answer to a search, with the number that the search had.
pub type SearchOutcome = (u64, Result<Vec<SearchResult>, SearchError>);

/// A search in flight.
#[derive(Debug, PartialEq, Eq)]
pub struct PendingSearch {
    /// The number of the search.
    pub seq: u64,
    pub query: String,
    pub count: u32,
    pub sort: SortOrder,
    /// Whether the search is to be given up.
    pub cancelled: bool,
}

/// What a look at a worker's channel found.
#[derive(Debug, PartialEq, Eq)]
pub enum Received {
    Outcome(SearchOutcome),
    Nothing,
    Disconnected,
}

/// What a look at a worker's channel means: an answer, none yet, or that none will come because
/// the worker panicked.
pub fn try_recv(received: Received) -> (r: Result<Option<SearchOutcome>, DispatchError>)
    ensures
        r == (match received {
            Received::Outcome(outcome) => Ok(Some(outcome)),
            Received::Nothing => Ok(None),
            Received::Disconnected => Err(DispatchError::WorkerPanicked),
        }),
{
    match received {
        Received::Outcome(outcome) => Ok(Some(outcome)),
        Received::Nothing => Ok(None),
        Received::Disconnected => Err(DispatchError::WorkerPanicked),
    }
}

/// The order that is asked for when recent videos are wanted, and when not.
pub open spec fn sort_for(recent: bool) -> SortOrder {
    if recent {
        SortOrder::Date
    } else {
        SortOrder::Relevance
    }
}

/// The number that comes `steps` after `seq`. After the last number comes zero.
pub open spec fn seq_after(seq: u64, steps: nat) -> u64 {
    ((seq + steps) % 0x1_0000_0000_0000_0000) as u64
}

/// Numbers the searches, and holds what does them.
#[derive(Debug)]
pub struct SearchDispatcher<B> {
    backend: B,
    seq: u64,
}

impl<B> SearchDispatcher<B> {
    /// The current number.
    pub closed spec fn seq_now(self) -> u64 {
        self.seq
    }

    /// What does the searches.
    pub closed spec fn searcher(self) -> B {
        self.backend
    }

    /// A dispatcher that has numbered no search.
    pub fn new(backend: B) -> (r: Self)
        ensures
            r.seq_now() == 0,
            r.searcher() == backend,
    {
        SearchDispatcher { backend, seq: 0 }
    }

    /// The current number: that of the answer that is waited for.
    pub fn current_seq(&self) -> (r: u64)
        ensures
            r == self.seq_now(),
    {
        self.seq
    }

    /// What does the searches.
    pub fn backend(&self) -> (r: &B)
        ensures
            *r == self.searcher(),
    {
        &self.backend
    }

    /// Gives up a search in flight: it is told so, and its number is no longer the current one.
    pub fn cancel(&mut self, pending: &mut PendingSearch)
        ensures
            final(self).seq_now() == seq_after(old(self).seq_now(), 1),
            final(self).searcher() == old(self).searcher(),
            *final(pending) == (PendingSearch { cancelled: true, ..*old(pending) }),
    {
        pending.cancelled = true;
        self.seq = self.seq.wrapping_add(1);
    }

    /// Numbers a new search. The search is then done with [`run_search`].
    pub fn dispatch(&mut self, query: String, count: u32, recent: bool) -> (r: PendingSearch)
        ensures
            final(self).seq_now() == seq_after(old(self).seq_now(), 1),
            final(self).searcher() == old(self).searcher(),
            r == (PendingSearch {
                seq: final(self).seq_now(),
                query,
                count,
                sort: sort_for(recent),
                cancelled: false,
            }),
    {
        self.seq = self.seq.wrapping_add(1);
        let sort = if recent {
            SortOrder::Date
        } else {
            SortOrder::Relevance
        };
        PendingSearch { seq: self.seq, query, count, sort, cancelled: false }
    }
}

/// Does a search. The backend gets what the search asks for, and its answer gets the search's
/// number.
pub fn run_search<B: SearchBackend>(backend: &B, pending: &PendingSearch, cancel: &AtomicBool) -> (r:
    SearchOutcome)
    ensures
        r.0 == pending.seq,
        exists|query: &str| #[trigger]
            query@ == pending.query@ && call_ensures(
                B::search,
                (backend, query, pending.count, pending.sort, cancel),
                r.1,
            ),
{
    let outcome = backend.search(pending.query.as_str(), pending.count, pending.sort, cancel);
    (pending.seq, outcome)
}

/// An answer is stale once the dispatcher has moved on, by any number of searches and
/// cancellations short of all the numbers there are.
pub proof fn law_an_old_answer_is_stale(seq: u64, steps: nat)
    requires
        0 < steps < 0x1_0000_0000_0000_0000,
    ensures
        seq_after(seq, steps) != seq,
{
}

/// Moving on and moving on again is moving on by both.
pub proof fn law_steps_add_up(seq: u64, first: nat, second: nat)
    ensures
        seq_after(seq_after(seq, first), second) == seq_after(seq, first + second),
{
    vstd::arithmetic::div_mod::lemma_add_mod_noop(
        seq + first,
        second as int,
        0x1_0000_0000_0000_0000,
    );
    vstd::arithmetic::div_mod::lemma_mod_twice(seq + first, 0x1_0000_0000_0000_0000);
    vstd::arithmetic::div_mod::lemma_add_mod_noop(
        (seq + first) % 0x1_0000_0000_0000_0000,
        second as int,
        0x1_0000_0000_0000_0000,
    );
}

/// Searches are numbered one after another, and after the last number comes zero.
pub proof fn law_searches_are_numbered_in_order(seq: u64)
    ensures
        seq < u64::MAX ==> seq_after(seq, 1) == seq + 1,
        seq_after(u64::MAX, 1) == 0,
        seq_after(seq, 0) == seq,
{
}

/// The newest videos come first exactly if recent ones are wanted, and else the most relevant.
pub proof fn law_which_order_is_asked_for(recent: bool)
    ensures
        recent ==> sort_for(recent) == SortOrder::Date,
        !recent ==> sort_for(recent) == SortOrder::Relevance,
{
}

/// A search that failed is spoken of in the words of its own error.
pub proof fn law_a_failed_search_speaks_for_itself(error: SearchError)
    ensures
        DispatchError::Search(error).words() == error.words(),
{
}

} // verus!
