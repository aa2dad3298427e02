//! The ingest orchestrator: a state machine driving the bulk-ingest
//! pipeline.
//!
//! The run moves through the phases `Idle → CountKnown → WindowsPlanned →
//! Fetching → Merged → Done`.  The caller performs every network request and
//! feeds each outcome back in; the run makes all decisions: it plans the
//! windows, classifies and merges each detail outcome, skips individual
//! failures so a batch completes with partial data, and fails the whole run
//! only when the initial count probe fails or the pagination parameters are
//! invalid.

use vstd::prelude::*;

use crate::decimal::dec_of;
use crate::errors::FetchError;
use crate::json::json_ok;
use crate::models::{bodies_of, PokeApiResponse, Pokemon, PokemonData, PokemonListItem};
use crate::paginator::{generate_windows, windows_spec, ListWindow};

verus! {

/// The phase of an ingest run.  `Failed` is terminal and records a fatal
/// failure: the count probe failed or the pagination parameters were
/// rejected.
#[derive(Debug, Clone, Copy, PartialEq, Eq, Structural)]
pub enum Phase {
    Idle,
    CountKnown,
    WindowsPlanned,
    Fetching,
    Merged,
    Done,
    Failed,
}

/// What one detail outcome contributes to the result set: the body text
/// when the transport succeeded and the body is valid JSON, and nothing
/// otherwise.
pub open spec fn detail_outcome(r: Result<String, FetchError>) -> Option<Seq<char>> {
    match r {
        Ok(body) => if json_ok(body@) {
            Some(body@)
        } else {
            None
        },
        Err(_) => None,
    }
}

/// The contributions of a sequence of detail outcomes, in order.
pub open spec fn outcomes_of(rs: Seq<Result<String, FetchError>>) -> Seq<Option<Seq<char>>> {
    rs.map_values(|r: Result<String, FetchError>| detail_outcome(r))
}

/// The record texts kept from a sequence of outcomes, in arrival order:
/// each successful outcome appends its text, each failed one is dropped.
pub open spec fn gather(outs: Seq<Option<Seq<char>>>) -> Seq<Seq<char>>
    decreases outs.len(),
{
    if outs.len() == 0 {
        Seq::empty()
    } else {
        match outs.last() {
            Some(b) => gather(outs.drop_last()).push(b),
            None => gather(outs.drop_last()),
        }
    }
}

/// How many of a sequence of outcomes succeeded.
pub open spec fn count_some(outs: Seq<Option<Seq<char>>>) -> int
    decreases outs.len(),
{
    if outs.len() == 0 {
        0
    } else {
        count_some(outs.drop_last()) + if outs.last() is Some {
            1int
        } else {
            0int
        }
    }
}

/// Exactly the successful outcomes contribute a record.
pub proof fn lemma_gather_len(outs: Seq<Option<Seq<char>>>)
    ensures
        gather(outs).len() == count_some(outs),
        0 <= count_some(outs) <= outs.len(),
    decreases outs.len(),
{
    if outs.len() > 0 {
        lemma_gather_len(outs.drop_last());
    }
}

/// When every outcome succeeds, every outcome contributes a record.
pub proof fn lemma_all_some(outs: Seq<Option<Seq<char>>>)
    requires
        forall|i: int| 0 <= i < outs.len() ==> (#[trigger] outs[i]) is Some,
    ensures
        gather(outs).len() == outs.len(),
    decreases outs.len(),
{
    lemma_gather_len(outs);
    if outs.len() > 0 {
        assert(forall|i: int|
            0 <= i < outs.len() - 1 ==> outs.drop_last()[i] == #[trigger] outs[i]);
        lemma_all_some(outs.drop_last());
    }
}

/// If exactly one of `n` detail outcomes fails, the gathered result holds
/// exactly `n - 1` records.
pub proof fn lemma_single_failure(outs: Seq<Option<Seq<char>>>, j: int)
    requires
        0 <= j < outs.len(),
        outs[j] is None,
        forall|i: int| 0 <= i < outs.len() && i != j ==> (#[trigger] outs[i]) is Some,
    ensures
        gather(outs).len() == outs.len() - 1,
    decreases outs.len(),
{
    assert(forall|i: int| 0 <= i < outs.len() - 1 ==> outs.drop_last()[i] == #[trigger] outs[i]);
    if j == outs.len() - 1 {
        lemma_all_some(outs.drop_last());
    } else {
        lemma_single_failure(outs.drop_last(), j);
    }
}

/// Removing one outcome removes exactly its contribution from the gathered
/// records, as multisets.
proof fn lemma_gather_remove(outs: Seq<Option<Seq<char>>>, j: int)
    requires
        0 <= j < outs.len(),
    ensures
        gather(outs).to_multiset() == match outs[j] {
            Some(b) => gather(outs.remove(j)).to_multiset().insert(b),
            None => gather(outs.remove(j)).to_multiset(),
        },
    decreases outs.len(),
{
    broadcast use vstd::seq_lib::group_to_multiset_ensures;

    if j == outs.len() - 1 {
        assert(outs.remove(j) =~= outs.drop_last());
        match outs.last() {
            Some(b) => {
                assert(gather(outs) == gather(outs.drop_last()).push(b));
            },
            None => {},
        }
    } else {
        let inner = outs.drop_last();
        assert(outs.remove(j).drop_last() =~= inner.remove(j));
        assert(outs.remove(j).last() == outs.last());
        lemma_gather_remove(inner, j);
        match outs.last() {
            Some(b) => {
                assert(gather(outs) == gather(inner).push(b));
                assert(gather(outs.remove(j)) == gather(inner.remove(j)).push(b));
                match inner[j] {
                    Some(c) => {
                        assert(gather(inner).to_multiset() == gather(
                            inner.remove(j),
                        ).to_multiset().insert(c));
                        assert(gather(outs).to_multiset() =~= gather(
                            outs.remove(j),
                        ).to_multiset().insert(c));
                    },
                    None => {},
                }
            },
            None => {
                assert(gather(outs) == gather(inner));
                assert(gather(outs.remove(j)) == gather(inner.remove(j)));
            },
        }
    }
}

/// Reordering the detail outcomes only reorders the gathered records: two
/// runs fed the same multiset of outcomes gather the same multiset of
/// records, whatever arrival order the concurrent workers produced.
pub proof fn lemma_gather_permutation(o1: Seq<Option<Seq<char>>>, o2: Seq<Option<Seq<char>>>)
    requires
        o1.to_multiset() == o2.to_multiset(),
    ensures
        gather(o1).to_multiset() == gather(o2).to_multiset(),
    decreases o1.len(),
{
    broadcast use vstd::seq_lib::group_to_multiset_ensures;

    if o1.len() == 0 {
        assert(o2.to_multiset().len() == 0);
        assert(o2.len() == 0);
    } else {
        let x = o1.last();
        let n = o1.len() - 1;
        assert(o1.to_multiset().count(x) > 0) by {
            assert(o1.contains(x));
        }
        assert(o2.to_multiset().count(x) > 0);
        assert(o2.contains(x));
        let j = choose|j: int| 0 <= j < o2.len() && o2[j] == x;
        assert(o1.remove(n) =~= o1.drop_last());
        assert(o1.drop_last().to_multiset() == o1.to_multiset().remove(x));
        assert(o2.remove(j).to_multiset() == o2.to_multiset().remove(x));
        lemma_gather_permutation(o1.drop_last(), o2.remove(j));
        lemma_gather_remove(o2, j);
        match x {
            Some(b) => {
                assert(gather(o1) == gather(o1.drop_last()).push(b));
            },
            None => {
                assert(gather(o1) == gather(o1.drop_last()));
            },
        }
    }
}

/// Results that start alike and merge permuted outcome sequences are
/// set-equal: ingestion with any concurrency bound over the same upstream
/// data yields the same collection of records, in some order.
pub proof fn lemma_results_order_irrelevant(
    base: Seq<Seq<char>>,
    o1: Seq<Option<Seq<char>>>,
    o2: Seq<Option<Seq<char>>>,
)
    requires
        o1.to_multiset() == o2.to_multiset(),
    ensures
        (base + gather(o1)).to_multiset() == (base + gather(o2)).to_multiset(),
{
    lemma_gather_permutation(o1, o2);
    vstd::seq_lib::lemma_multiset_commutative(base, gather(o1));
    vstd::seq_lib::lemma_multiset_commutative(base, gather(o2));
}

/// An ingest run's state.  The caller performs the requests; the run owns
/// every decision and the aggregated results.
#[derive(Debug)]
pub struct IngestRun {
    /// Where the run stands in its lifecycle.
    pub phase: Phase,
    /// The caller-supplied page size.
    pub limit: i32,
    /// The caller-supplied starting offset.
    pub offset: i32,
    /// The collection's total item count, read from the count probe.
    pub total_count: i32,
    /// The planned list windows.
    pub windows: Vec<ListWindow>,
    /// How many windows have had their list outcome reported.
    pub windows_done: usize,
    /// How many windows were dropped because their list request failed.
    pub skipped_windows: u64,
    /// How many items successful list responses have announced.
    pub listed: u64,
    /// How many announced items still await a detail outcome.
    pub pending: u64,
    /// How many detail records were retrieved and merged.
    pub retrieved: u64,
    /// How many announced items were dropped after a failed detail fetch.
    pub skipped_items: u64,
    /// The merged records, in arrival order.
    pub results: PokemonData,
    /// The fatal failure that ended the run, if any.
    pub failure: Option<FetchError>,
}

impl IngestRun {
    /// The run's bookkeeping invariant: the result set holds exactly the
    /// retrieved records (until they are handed out), and every announced
    /// item is retrieved, skipped, or still pending.
    pub open spec fn wf(self) -> bool {
        &&& (self.phase is Done ==> self.results.results@.len() == 0)
        &&& (!(self.phase is Done) ==> self.retrieved == self.results.results@.len())
        &&& self.listed == self.retrieved + self.skipped_items + self.pending
        &&& self.windows_done <= self.windows@.len()
        &&& self.skipped_windows <= self.windows_done
        &&& ((self.phase is Idle || self.phase is CountKnown) ==> self.windows@.len() == 0
            && self.windows_done == 0)
    }

    /// A freshly created run, before its count probe.
    pub open spec fn fresh(self, limit: int, offset: int) -> bool {
        &&& self.phase is Idle
        &&& self.limit == limit
        &&& self.offset == offset
        &&& self.windows@.len() == 0
        &&& self.windows_done == 0
        &&& self.skipped_windows == 0
        &&& self.listed == 0
        &&& self.pending == 0
        &&& self.retrieved == 0
        &&& self.skipped_items == 0
        &&& self.results.results@.len() == 0
        &&& self.failure is None
    }

    /// Start a run over the caller-supplied pagination parameters.
    pub fn new(limit: i32, offset: i32) -> (r: IngestRun)
        ensures
            r.wf(),
            r.fresh(limit as int, offset as int),
    {
        IngestRun {
            phase: Phase::Idle,
            limit,
            offset,
            total_count: 0,
            windows: Vec::new(),
            windows_done: 0,
            skipped_windows: 0,
            listed: 0,
            pending: 0,
            retrieved: 0,
            skipped_items: 0,
            results: PokemonData::new(Vec::new()),
            failure: None,
        }
    }

    /// Start a run that asks for the whole collection in one nominal
    /// window, relying on the server to hand back the full set.
    pub fn new_all() -> (r: IngestRun)
        ensures
            r.wf(),
            r.fresh(10000, 0),
    {
        IngestRun::new(10000, 0)
    }

    /// The probe window: one list request for a single item at offset zero,
    /// issued only to read the collection's total count.
    pub fn probe_window() -> (w: ListWindow)
        ensures
            w.limit == 1,
            w.offset == 0,
            w.wf(),
    {
        ListWindow { limit: 1, offset: 0 }
    }

    /// Report the outcome of the count probe.  A failure here is fatal: no
    /// plan can be built without a total.
    pub fn on_count(&mut self, r: Result<PokeApiResponse, FetchError>) -> (out: Result<
        (),
        FetchError,
    >)
        requires
            old(self).phase is Idle,
            old(self).wf(),
        ensures
            final(self).wf(),
            match r {
                Ok(resp) => {
                    &&& final(self).phase is CountKnown
                    &&& final(self).total_count == resp.count
                    &&& final(self).failure == old(self).failure
                    &&& out is Ok
                },
                Err(e) => {
                    &&& final(self).phase is Failed
                    &&& final(self).failure == Some(e)
                    &&& final(self).total_count == old(self).total_count
                    &&& out == Err::<(), FetchError>(e)
                },
            },
            final(self).limit == old(self).limit,
            final(self).offset == old(self).offset,
            final(self).windows == old(self).windows,
            final(self).windows_done == old(self).windows_done,
            final(self).skipped_windows == old(self).skipped_windows,
            final(self).listed == old(self).listed,
            final(self).pending == old(self).pending,
            final(self).retrieved == old(self).retrieved,
            final(self).skipped_items == old(self).skipped_items,
            final(self).results == old(self).results,
    {
        match r {
            Ok(resp) => {
                self.total_count = resp.count;
                self.phase = Phase::CountKnown;
                Ok(())
            },
            Err(e) => {
                self.phase = Phase::Failed;
                self.failure = Some(e);
                Err(e)
            },
        }
    }

    /// Build the window plan from the discovered total and the run's
    /// pagination parameters.  Invalid parameters fail the run.
    pub fn plan_windows(&mut self) -> (out: Result<(), FetchError>)
        requires
            old(self).phase is CountKnown,
            old(self).wf(),
        ensures
            final(self).wf(),
            if old(self).limit > 0 && old(self).offset >= 0 {
                &&& final(self).phase is WindowsPlanned
                &&& out is Ok
                &&& windows_spec(
                    final(self).windows@,
                    old(self).total_count as int,
                    old(self).limit as int,
                    old(self).offset as int,
                )
                &&& forall|i: int|
                    0 <= i < final(self).windows@.len()
                        ==> (#[trigger] final(self).windows@[i]).wf()
                &&& final(self).failure == old(self).failure
            } else {
                &&& final(self).phase is Failed
                &&& out == Err::<(), FetchError>(FetchError::InvalidArgument)
                &&& final(self).failure == Some(FetchError::InvalidArgument)
                &&& final(self).windows == old(self).windows
            },
            final(self).limit == old(self).limit,
            final(self).offset == old(self).offset,
            final(self).total_count == old(self).total_count,
            final(self).windows_done == old(self).windows_done,
            final(self).skipped_windows == old(self).skipped_windows,
            final(self).listed == old(self).listed,
            final(self).pending == old(self).pending,
            final(self).retrieved == old(self).retrieved,
            final(self).skipped_items == old(self).skipped_items,
            final(self).results == old(self).results,
    {
        match generate_windows(self.total_count, self.limit, self.offset) {
            Ok(w) => {
                self.windows = w;
                self.phase = Phase::WindowsPlanned;
                Ok(())
            },
            Err(e) => {
                self.phase = Phase::Failed;
                self.failure = Some(e);
                Err(e)
            },
        }
    }

    /// Start fetching the planned windows.
    pub fn begin_fetching(&mut self)
        requires
            old(self).phase is WindowsPlanned,
            old(self).wf(),
        ensures
            final(self).wf(),
            *final(self) == (IngestRun { phase: Phase::Fetching, ..*old(self) }),
    {
        self.phase = Phase::Fetching;
    }

    /// How many items a window outcome announces.
    pub open spec fn window_items(r: Result<PokeApiResponse, FetchError>) -> nat {
        match r {
            Ok(resp) => resp.results@.len(),
            Err(_) => 0,
        }
    }

    /// Report the outcome of one window's list request and take back the
    /// items whose details are now owed.  A failed window is skipped whole:
    /// it contributes no items and the run continues.
    pub fn on_window_result(&mut self, r: Result<PokeApiResponse, FetchError>) -> (items: Vec<
        PokemonListItem,
    >)
        requires
            old(self).phase is Fetching,
            old(self).wf(),
            old(self).windows_done < old(self).windows@.len(),
            old(self).listed + Self::window_items(r) <= u64::MAX,
        ensures
            final(self).wf(),
            final(self).windows_done == old(self).windows_done + 1,
            match r {
                Ok(resp) => {
                    &&& items == resp.results
                    &&& final(self).listed == old(self).listed + resp.results@.len()
                    &&& final(self).pending == old(self).pending + resp.results@.len()
                    &&& final(self).skipped_windows == old(self).skipped_windows
                },
                Err(_) => {
                    &&& items@.len() == 0
                    &&& final(self).listed == old(self).listed
                    &&& final(self).pending == old(self).pending
                    &&& final(self).skipped_windows == old(self).skipped_windows + 1
                },
            },
            final(self).phase == old(self).phase,
            final(self).limit == old(self).limit,
            final(self).offset == old(self).offset,
            final(self).total_count == old(self).total_count,
            final(self).windows == old(self).windows,
            final(self).retrieved == old(self).retrieved,
            final(self).skipped_items == old(self).skipped_items,
            final(self).results == old(self).results,
            final(self).failure == old(self).failure,
    {
        let total_windows = self.windows.len();
        proof {
            assert(self.windows_done < total_windows);
        }
        self.windows_done = self.windows_done + 1;
        match r {
            Ok(resp) => {
                let n = resp.results.len();
                self.listed = self.listed + (n as u64);
                self.pending = self.pending + (n as u64);
                resp.results
            },
            Err(_) => {
                self.skipped_windows = self.skipped_windows + 1;
                Vec::new()
            },
        }
    }

    /// Report the outcome of one detail request.  A retrieved, valid body
    /// is merged as a record; a transport failure or an invalid body drops
    /// only that item, and the returned error says why it was dropped.
    pub fn on_detail_result(&mut self, r: Result<String, FetchError>) -> (out: Result<
        (),
        FetchError,
    >)
        requires
            old(self).phase is Fetching,
            old(self).wf(),
            old(self).pending > 0,
        ensures
            final(self).wf(),
            final(self).pending == old(self).pending - 1,
            match detail_outcome(r) {
                Some(b) => {
                    &&& bodies_of(final(self).results.results@) == bodies_of(
                        old(self).results.results@,
                    ).push(b)
                    &&& final(self).retrieved == old(self).retrieved + 1
                    &&& final(self).skipped_items == old(self).skipped_items
                    &&& out is Ok
                },
                None => {
                    &&& final(self).results == old(self).results
                    &&& final(self).retrieved == old(self).retrieved
                    &&& final(self).skipped_items == old(self).skipped_items + 1
                    &&& out is Err
                },
            },
            match r {
                Ok(body) => !json_ok(body@) ==> out == Err::<(), FetchError>(FetchError::Parse),
                Err(e) => out == Err::<(), FetchError>(e),
            },
            final(self).phase == old(self).phase,
            final(self).limit == old(self).limit,
            final(self).offset == old(self).offset,
            final(self).total_count == old(self).total_count,
            final(self).windows == old(self).windows,
            final(self).windows_done == old(self).windows_done,
            final(self).skipped_windows == old(self).skipped_windows,
            final(self).listed == old(self).listed,
            final(self).failure == old(self).failure,
    {
        self.pending = self.pending - 1;
        match r {
            Ok(body) => {
                let ghost b = body@;
                match Pokemon::from_body(body) {
                    Ok(p) => {
                        let ghost before = self.results.results@;
                        self.results.push(p);
                        self.retrieved = self.retrieved + 1;
                        proof {
                            assert(bodies_of(before.push(p)) =~= bodies_of(before).push(b));
                        }
                        Ok(())
                    },
                    Err(e) => {
                        self.skipped_items = self.skipped_items + 1;
                        Err(e)
                    },
                }
            },
            Err(e) => {
                self.skipped_items = self.skipped_items + 1;
                Err(e)
            },
        }
    }

    /// Merge a completed window's batch of detail outcomes, in the order
    /// the workers delivered them.  Exactly the valid retrieved bodies are
    /// appended to the result set; each failed item is dropped and counted.
    pub fn on_window_details(&mut self, rs: Vec<Result<String, FetchError>>)
        requires
            old(self).phase is Fetching,
            old(self).wf(),
            old(self).pending >= rs@.len(),
        ensures
            final(self).wf(),
            final(self).pending == old(self).pending - rs@.len(),
            bodies_of(final(self).results.results@) == bodies_of(old(self).results.results@)
                + gather(outcomes_of(rs@)),
            final(self).retrieved == old(self).retrieved + count_some(outcomes_of(rs@)),
            final(self).skipped_items == old(self).skipped_items + rs@.len() - count_some(
                outcomes_of(rs@),
            ),
            final(self).phase == old(self).phase,
            final(self).limit == old(self).limit,
            final(self).offset == old(self).offset,
            final(self).total_count == old(self).total_count,
            final(self).windows == old(self).windows,
            final(self).windows_done == old(self).windows_done,
            final(self).skipped_windows == old(self).skipped_windows,
            final(self).listed == old(self).listed,
            final(self).failure == old(self).failure,
    {
        let ghost outs = outcomes_of(rs@);
        proof {
            lemma_gather_len(outs);
        }
        let mut i: usize = 0;
        while i < rs.len()
            invariant
                0 <= i <= rs@.len(),
                outs == outcomes_of(rs@),
                outs.len() == rs@.len(),
                old(self).pending >= rs@.len(),
                self.phase is Fetching,
                self.wf(),
                self.pending == old(self).pending - i,
                bodies_of(self.results.results@) == bodies_of(old(self).results.results@)
                    + gather(outs.take(i as int)),
                self.retrieved == old(self).retrieved + count_some(outs.take(i as int)),
                self.skipped_items == old(self).skipped_items + i - count_some(
                    outs.take(i as int),
                ),
                self.limit == old(self).limit,
                self.offset == old(self).offset,
                self.total_count == old(self).total_count,
                self.windows == old(self).windows,
                self.windows_done == old(self).windows_done,
                self.skipped_windows == old(self).skipped_windows,
                self.listed == old(self).listed,
                self.failure == old(self).failure,
            decreases rs@.len() - i,
        {
            proof {
                lemma_gather_len(outs.take(i as int));
                lemma_gather_len(outs.take(i as int + 1));
            }
            let ghost before = bodies_of(self.results.results@);
            let outcome: Result<String, FetchError> = match &rs[i] {
                Ok(body) => Ok(body.clone()),
                Err(e) => Err(*e),
            };
            proof {
                assert(detail_outcome(outcome) == outs[i as int]);
            }
            let _ = self.on_detail_result(outcome);
            proof {
                assert(outs.take(i as int + 1).drop_last() =~= outs.take(i as int));
                assert(outs.take(i as int + 1).last() == outs[i as int]);
                match outs[i as int] {
                    Some(b) => {
                        assert(gather(outs.take(i as int + 1)) == gather(
                            outs.take(i as int),
                        ).push(b));
                        assert(bodies_of(self.results.results@) =~= bodies_of(
                            old(self).results.results@,
                        ) + gather(outs.take(i as int + 1)));
                    },
                    None => {
                        assert(gather(outs.take(i as int + 1)) == gather(outs.take(i as int)));
                    },
                }
            }
            i = i + 1;
        }
        proof {
            assert(outs.take(rs@.len() as int) =~= outs);
        }
    }

    /// Whether every window has been reported and no detail is pending.
    pub fn is_fetch_complete(&self) -> (r: bool)
        ensures
            r == (self.windows_done == self.windows@.len() && self.pending == 0),
    {
        self.windows_done == self.windows.len() && self.pending == 0
    }

    /// Close the fetch phase: every window has been processed (successfully
    /// or skipped) and every announced item has been resolved.
    pub fn finish_fetching(&mut self)
        requires
            old(self).phase is Fetching,
            old(self).wf(),
            old(self).windows_done == old(self).windows@.len(),
            old(self).pending == 0,
        ensures
            final(self).wf(),
            *final(self) == (IngestRun { phase: Phase::Merged, ..*old(self) }),
    {
        self.phase = Phase::Merged;
    }

    /// Hand the merged result set to the caller.  The run keeps its
    /// counters, so the final report can still be rendered.
    pub fn finish(&mut self) -> (r: PokemonData)
        requires
            old(self).phase is Merged,
            old(self).wf(),
        ensures
            final(self).wf(),
            final(self).phase is Done,
            r == old(self).results,
            final(self).retrieved == old(self).retrieved,
            final(self).skipped_items == old(self).skipped_items,
            final(self).skipped_windows == old(self).skipped_windows,
            final(self).listed == old(self).listed,
            final(self).pending == old(self).pending,
            final(self).limit == old(self).limit,
            final(self).offset == old(self).offset,
            final(self).total_count == old(self).total_count,
            final(self).windows == old(self).windows,
            final(self).windows_done == old(self).windows_done,
            final(self).failure == old(self).failure,
    {
        let mut out = PokemonData::new(Vec::new());
        core::mem::swap(&mut out, &mut self.results);
        self.phase = Phase::Done;
        out
    }

    /// The final progress report: how many of the listed items were
    /// actually retrieved.
    pub fn finish_message(&self) -> (r: String)
        ensures
            r@ == "Fetched "@ + dec_of(self.retrieved as int) + " pokemon"@,
    {
        let mut msg = String::from_str("Fetched ");
        let digits = crate::decimal::fmt_u64(self.retrieved);
        msg.append(digits.as_str());
        msg.append(" pokemon");
        msg
    }
}

} // verus!
