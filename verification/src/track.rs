//! The track: registry of pending racers, deadline policy, and the ranking
//! store of the most recent run.
//!
//! A run is a protocol between the track and the shell that drives the
//! asynchronous work. `begin_run` hands the pending racers over, clears the
//! previous ranking, and remembers how many outcomes are owed; the shell then
//! reports each racer's outcome, in the order the outcomes actually arrive,
//! through `record_outcome`, which assigns the next dense rank. The run is
//! complete once every owed outcome has been recorded.

use vstd::prelude::*;

use crate::outcome::RaceResult;
use crate::outcome::RacerOutcome;
use crate::outcome::ResultModel;
use crate::outcome::result_model_of;
use crate::outcome::result_wf;

verus! {

/// The deadline a track starts with when none is chosen.
pub const DEFAULT_DEADLINE_NANOS: u64 = 5_000_000_000;

/// Race a set of named deferred computations and rank them.
pub struct RaceTrack<T> {
    deadline_nanos: u64,
    racers: Vec<String>,
    rankings: Vec<RaceResult<T>>,
    outstanding: usize,
    started: Ghost<nat>,
}

/// The mathematical shadow of a track: the deadline, the names still
/// pending, the ranking of the current run in rank order, how many outcomes
/// the current run still owes, and how many racers that run took.
#[verifier::ext_equal]
pub ghost struct TrackModel<T> {
    pub deadline_nanos: u64,
    pub pending: Seq<Seq<char>>,
    pub ranking: Seq<ResultModel<T>>,
    pub outstanding: nat,
    pub started: nat,
}

/// The models of a sequence of result records, in the same order.
pub open spec fn models_of<T>(rs: Seq<RaceResult<T>>) -> Seq<ResultModel<T>> {
    rs.map_values(|r: RaceResult<T>| r@)
}

impl<T> View for RaceTrack<T> {
    type V = TrackModel<T>;

    closed spec fn view(&self) -> TrackModel<T> {
        TrackModel {
            deadline_nanos: self.deadline_nanos,
            pending: self.racers.deep_view(),
            ranking: models_of(self.rankings@),
            outstanding: self.outstanding as nat,
            started: self.started@,
        }
    }
}

impl<T> RaceTrack<T> {
    /// A track is well formed when the current run's bookkeeping balances —
    /// recorded results plus outcomes still owed equal the racers the run
    /// took — and every recorded result is itself well formed.
    pub open spec fn wf(&self) -> bool {
        &&& self@.ranking.len() + self@.outstanding == self@.started
        &&& forall|i: int|
            0 <= i < self@.ranking.len() ==> result_wf(#[trigger] self@.ranking[i])
    }

    /// Whether a run is in flight: some racer it took has not reported yet.
    pub open spec fn running(&self) -> bool {
        self@.outstanding > 0
    }

    /// Create a new `RaceTrack` that disqualifies racers after the given
    /// deadline, with no racers and an empty ranking.
    pub fn disqualify_after(deadline_nanos: u64) -> (t: Self)
        ensures
            t.wf(),
            !t.running(),
            t@.deadline_nanos == deadline_nanos,
            t@.pending == Seq::<Seq<char>>::empty(),
            t@.ranking == Seq::<ResultModel<T>>::empty(),
            t@.started == 0,
    {
        RaceTrack {
            deadline_nanos,
            racers: Vec::new(),
            rankings: Vec::new(),
            outstanding: 0,
            started: Ghost(0),
        }
    }

    /// The deadline applied to every racer of this track.
    pub fn deadline_nanos(&self) -> (d: u64)
        ensures
            d == self@.deadline_nanos,
    {
        self.deadline_nanos
    }

    /// How many outcomes the current run still owes; zero when no run is in
    /// flight.
    pub fn outstanding(&self) -> (n: usize)
        ensures
            n == self@.outstanding,
    {
        self.outstanding
    }

    /// Add a named racer to the pending list for the next run.
    pub fn add_racer(&mut self, name: String)
        ensures
            final(self)@.pending == old(self)@.pending.push(name@),
            final(self)@.ranking == old(self)@.ranking,
            final(self)@.deadline_nanos == old(self)@.deadline_nanos,
            final(self)@.outstanding == old(self)@.outstanding,
            final(self)@.started == old(self)@.started,
            final(self).wf() == old(self).wf(),
    {
        self.racers.push(name);
        proof {
            assert(final(self)@.pending =~= old(self)@.pending.push(name@));
        }
    }

    /// Start a run: take every pending racer, in registration order, discard
    /// the previous ranking unconditionally, and owe one outcome per racer
    /// taken. The caller drives the racers and reports each outcome as it
    /// arrives.
    pub fn begin_run(&mut self) -> (names: Vec<String>)
        requires
            old(self).wf(),
            !old(self).running(),
        ensures
            final(self).wf(),
            names.deep_view() == old(self)@.pending,
            final(self)@.pending == Seq::<Seq<char>>::empty(),
            final(self)@.ranking == Seq::<ResultModel<T>>::empty(),
            final(self)@.deadline_nanos == old(self)@.deadline_nanos,
            final(self)@.outstanding == old(self)@.pending.len(),
            final(self)@.started == old(self)@.pending.len(),
    {
        let mut names: Vec<String> = Vec::new();
        core::mem::swap(&mut names, &mut self.racers);
        self.rankings = Vec::new();
        self.outstanding = names.len();
        self.started = Ghost(names@.len());
        proof {
            assert(final(self)@.pending =~= Seq::<Seq<char>>::empty());
            assert(final(self)@.ranking =~= Seq::<ResultModel<T>>::empty());
        }
        names
    }

    /// Record one racer's outcome for the run in flight: build its result
    /// record and append it at the next rank, so ranks follow completion
    /// order exactly as the outcomes are reported.
    pub fn record_outcome(&mut self, name: String, duration_nanos: u64, outcome: RacerOutcome<T>)
        requires
            old(self).wf(),
            old(self).running(),
        ensures
            final(self).wf(),
            final(self)@.ranking == old(self)@.ranking.push(
                result_model_of(name@, duration_nanos, outcome),
            ),
            final(self)@.pending == old(self)@.pending,
            final(self)@.deadline_nanos == old(self)@.deadline_nanos,
            final(self)@.outstanding == old(self)@.outstanding - 1,
            final(self)@.started == old(self)@.started,
    {
        let r = RaceResult::from_outcome(name, duration_nanos, outcome);
        self.rankings.push(r);
        self.outstanding = self.outstanding - 1;
        proof {
            assert(final(self)@.ranking =~= old(self)@.ranking.push(
                result_model_of(name@, duration_nanos, outcome),
            ));
        }
    }

    /// The ranked results of the most recent run, by ascending rank — the
    /// order the outcomes arrived in. Empty if no run has occurred.
    pub fn rankings(&self) -> (r: &Vec<RaceResult<T>>)
        ensures
            models_of(r@) == self@.ranking,
    {
        &self.rankings
    }
}

impl<T> Default for RaceTrack<T> {
    /// A fresh track with the default deadline, no racers and no ranking.
    fn default() -> (t: Self)
        ensures
            t.wf(),
            !t.running(),
            t@.deadline_nanos == DEFAULT_DEADLINE_NANOS,
            t@.pending == Seq::<Seq<char>>::empty(),
            t@.ranking == Seq::<ResultModel<T>>::empty(),
            t@.started == 0,
    {
        RaceTrack::disqualify_after(DEFAULT_DEADLINE_NANOS)
    }
}

/// Cardinality: once the run in flight has recorded every outcome it owes,
/// the ranking holds exactly one result per racer the run took.
pub proof fn lemma_run_cardinality<T>(t: RaceTrack<T>)
    requires
        t.wf(),
        !t.running(),
    ensures
        t@.ranking.len() == t@.started,
{
}

/// The ranking read as a table from rank to result, as a caller indexes it.
pub open spec fn rank_table<T>(ranking: Seq<ResultModel<T>>) -> Map<int, ResultModel<T>> {
    Map::new(|i: int| 0 <= i < ranking.len(), |i: int| ranking[i])
}

/// Rank contiguity: the assigned ranks are exactly the integers from zero up
/// to the number of results — dense, zero-based, with no gaps — whatever mix
/// of successes, failures and disqualifications the run produced.
pub proof fn lemma_rank_contiguity<T>(t: RaceTrack<T>)
    ensures
        forall|i: int|
            #[trigger] rank_table(t@.ranking).dom().contains(i) <==> 0 <= i < t@.ranking.len(),
        forall|i: int|
            0 <= i < t@.ranking.len() ==> #[trigger] rank_table(t@.ranking)[i] == t@.ranking[i],
{
}

/// Exclusivity: every result a well-formed track ranks carries exactly one
/// of a value and an error — never both, never neither.
pub proof fn lemma_ranked_exclusive<T>(t: RaceTrack<T>, i: int)
    requires
        t.wf(),
        0 <= i < t@.ranking.len(),
    ensures
        (t@.ranking[i].error is Some) != (t@.ranking[i].value is Some),
{
}

/// Idempotent re-read: any two reads of the ranking of one and the same
/// track state observe the same results — `rankings` pins what it returns to
/// the track's model and leaves the track untouched.
pub proof fn lemma_reread_idempotent<T>(
    t: RaceTrack<T>,
    first: Seq<RaceResult<T>>,
    second: Seq<RaceResult<T>>,
)
    requires
        models_of(first) == t@.ranking,
        models_of(second) == t@.ranking,
    ensures
        models_of(first) == models_of(second),
{
}

/// Fresh-run replacement: beginning a run discards the prior ranking (the
/// ensures of `begin_run`), and a complete run that took no racers leaves
/// the ranking empty.
pub proof fn lemma_empty_run_leaves_empty_ranking<T>(t: RaceTrack<T>)
    requires
        t.wf(),
        !t.running(),
        t@.started == 0,
    ensures
        t@.ranking == Seq::<ResultModel<T>>::empty(),
{
    assert(t@.ranking =~= Seq::<ResultModel<T>>::empty());
}

/// Disqualification implies error: a disqualified result always carries an
/// error, and that error is the synthesized timeout text.
pub proof fn lemma_disqualified_has_timeout_error<T>(t: RaceTrack<T>, i: int)
    requires
        t.wf(),
        0 <= i < t@.ranking.len(),
        t@.ranking[i].disqualified,
    ensures
        t@.ranking[i].error == Option::Some(crate::outcome::timeout_text()),
        t@.ranking[i].value is None,
{
}

} // verus!
