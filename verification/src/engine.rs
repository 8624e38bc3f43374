use vstd::prelude::*;

use crate::errors::SimError;
use crate::network::ReactionNetwork;
use crate::network::rows_view;

verus! {

/// Why a run ended. Both reasons are normal termination, not errors.
#[derive(Clone, Copy, Debug, PartialEq, Eq, Structural)]
pub enum StopReason {
    /// The recorded time reached or passed the stop time.
    TimeLimitReached,
    /// The total propensity fell to zero: no reaction can fire any more.
    NoMoreReactions,
}

/// The engine's control state. It starts `Running` and moves once, and
/// finally, to `Stopped`.
#[derive(Clone, Copy, Debug, PartialEq, Eq, Structural)]
pub enum Status {
    Running,
    Stopped(StopReason),
}

/// One simulation run: the network, the stop-time code, the current state
/// (time code and species counts), the trajectory recorded so far, and the
/// control state.
///
/// The driver owns the loop: while `poll` says to go on, it evaluates the
/// propensities, reports their shape and total through `observe_hazards`,
/// and — when the engine says to proceed — samples the waiting time and the
/// threshold, selects the reaction, and applies it through `fire`.
pub struct Simulation {
    network: ReactionNetwork,
    stop_code: u64,
    now: u64,
    counts: Vec<i64>,
    times: Vec<u64>,
    states: Vec<Vec<i64>>,
    status: Status,
    initial: Ghost<Seq<i64>>,
}

/// The two runs' fixed data agree: stop time and network dimensions, rates and
/// updates. Every engine step preserves this.
pub open spec fn same_config(a: Simulation, b: Simulation) -> bool {
    &&& a.stop_time() == b.stop_time()
    &&& a.num_reactions() == b.num_reactions()
    &&& a.num_species() == b.num_species()
    &&& a.rates() == b.rates()
    &&& a.updates() == b.updates()
    &&& a.initial_counts() == b.initial_counts()
}

/// The two runs' recorded history and current state agree. Steps that only
/// decide (the time-limit check, the hazard checks) preserve this: they never
/// append a partial entry.
pub open spec fn same_trajectory(a: Simulation, b: Simulation) -> bool {
    &&& a.times_view() == b.times_view()
    &&& a.states_view() == b.states_view()
    &&& a.counts_view() == b.counts_view()
    &&& a.current_time() == b.current_time()
}

impl Simulation {
    /// The counts the run was started with: the first recorded snapshot.
    pub closed spec fn initial_counts(&self) -> Seq<i64> {
        self.initial@
    }

    /// The recorded event-time codes, in order of recording.
    pub closed spec fn times_view(&self) -> Seq<u64> {
        self.times@
    }

    /// The recorded species snapshots, one per recorded time.
    pub closed spec fn states_view(&self) -> Seq<Seq<i64>> {
        rows_view(self.states@)
    }

    /// The current species counts.
    pub closed spec fn counts_view(&self) -> Seq<i64> {
        self.counts@
    }

    /// The current time code.
    pub closed spec fn current_time(&self) -> u64 {
        self.now
    }

    /// The stop-time code the run was started with.
    pub closed spec fn stop_time(&self) -> u64 {
        self.stop_code
    }

    /// The control state.
    pub closed spec fn state(&self) -> Status {
        self.status
    }

    /// Number of reactions M.
    pub closed spec fn num_reactions(&self) -> nat {
        self.network.num_reactions()
    }

    /// Number of species N.
    pub closed spec fn num_species(&self) -> nat {
        self.network.num_species()
    }

    /// The network's rate-constant codes.
    pub closed spec fn rates(&self) -> Seq<u64> {
        self.network.rates()
    }

    /// The network's stoichiometry matrix.
    pub closed spec fn updates(&self) -> Seq<Seq<i64>> {
        self.network.updates()
    }

    /// The signed change in species `i` when reaction `j` fires.
    pub open spec fn delta(&self, j: int, i: int) -> int {
        self.updates()[j][i] as int
    }

    /// The recorded time has reached or passed the stop time.
    pub open spec fn time_limit_reached(&self) -> bool {
        self.current_time() >= self.stop_time()
    }

    /// Every count stays within the machine integer's range when reaction
    /// `mu`'s row is added. The engine does not clamp: an update that would
    /// overflow is the caller's fault and is refused, not wrapped.
    pub open spec fn update_fits(&self, mu: int) -> bool {
        forall|i: int|
            0 <= i < self.counts_view().len() ==> i64::MIN <= #[trigger] self.counts_view()[i]
                + self.delta(mu, i) <= i64::MAX
    }

    /// The engine's invariant, established by `new` and preserved by every
    /// step: the network is well shaped; the counts hold one entry per
    /// species; times and states have equal length, at least one entry; the
    /// first time is zero and the times never decrease; the current time is
    /// the last recorded one; every snapshot has one entry per species; the
    /// last snapshot is the current counts; and the first snapshot is the
    /// counts the run was started with.
    pub closed spec fn wf(&self) -> bool {
        &&& self.network.wf()
        &&& self.counts@.len() == self.num_species()
        &&& self.times@.len() == self.states@.len()
        &&& self.times@.len() >= 1
        &&& self.times@[0] == 0
        &&& forall|i: int, j: int|
            0 <= i <= j < self.times@.len() ==> self.times@[i] <= self.times@[j]
        &&& self.now == self.times@.last()
        &&& forall|k: int|
            0 <= k < self.states@.len() ==> (#[trigger] self.states@[k])@.len()
                == self.num_species()
        &&& self.states@.last()@ == self.counts@
        &&& self.states@[0]@ == self.initial@
    }

    /// The run has not stepped yet: the trajectory holds exactly the initial
    /// entry `(0, init)` and the engine is running.
    pub closed spec fn is_fresh(&self, init: Seq<i64>) -> bool {
        &&& self.times_view().len() == 1
        &&& self.states_view().len() == 1
        &&& self.states_view()[0] == init
        &&& self.counts_view() == init
        &&& self.current_time() == 0
        &&& self.state() is Running
    }

    /// Start a run: record the initial entry `(0, initial_counts)` before any
    /// iteration, as an independent snapshot of the counts.
    pub fn new(network: ReactionNetwork, initial_counts: Vec<i64>, stop_code: u64) -> (sim:
        Simulation)
        requires
            network.wf(),
            initial_counts@.len() == network.num_species(),
        ensures
            sim.wf(),
            sim.is_fresh(initial_counts@),
            sim.times_view() == seq![0u64],
            sim.states_view() == seq![initial_counts@],
            sim.counts_view() == initial_counts@,
            sim.current_time() == 0,
            sim.initial_counts() == initial_counts@,
            sim.stop_time() == stop_code,
            sim.state() == Status::Running,
            sim.num_reactions() == network.num_reactions(),
            sim.num_species() == network.num_species(),
            sim.rates() == network.rates(),
            sim.updates() == network.updates(),
    {
        let snapshot = copy_counts(&initial_counts);
        let mut times: Vec<u64> = Vec::new();
        times.push(0);
        let mut states: Vec<Vec<i64>> = Vec::new();
        states.push(snapshot);
        let sim = Simulation {
            network,
            stop_code,
            now: 0,
            initial: Ghost(initial_counts@),
            counts: initial_counts,
            times,
            states,
            status: Status::Running,
        };
        proof {
            assert(sim.times_view() =~= seq![0u64]);
            assert(sim.states_view() =~= seq![sim.counts@]);
        }
        sim
    }

    /// The decision at the top of each iteration: the run goes on only while
    /// the engine is running and the recorded time is still short of the stop
    /// time. Once the time limit is reached the engine moves to
    /// `Stopped(TimeLimitReached)` — the event that pushed the time past the
    /// limit is already recorded; no further event is sampled. Nothing is
    /// appended either way.
    pub fn poll(&mut self) -> (go: bool)
        requires
            old(self).wf(),
        ensures
            final(self).wf(),
            same_config(*old(self), *final(self)),
            same_trajectory(*old(self), *final(self)),
            go == (old(self).state() is Running && !old(self).time_limit_reached()),
            final(self).state() == if old(self).state() is Running
                && old(self).time_limit_reached() {
                Status::Stopped(StopReason::TimeLimitReached)
            } else {
                old(self).state()
            },
    {
        match self.status {
            Status::Running => {
                if self.now >= self.stop_code {
                    self.status = Status::Stopped(StopReason::TimeLimitReached);
                    false
                } else {
                    true
                }
            },
            Status::Stopped(_) => false,
        }
    }

    /// The decision after the propensity evaluation. `hazard_len` is the
    /// length of the evaluator's raw hazard vector; `total_code` is the code
    /// of the total scaled propensity, zero exactly when every scaled
    /// propensity is zero.
    ///
    /// If the hazard vector's length is not the reaction count, the run fails
    /// with `SimError::PropensityShape` and nothing changes. Otherwise, if the
    /// total is zero, no reaction can fire any more: the engine moves to
    /// `Stopped(NoMoreReactions)`, appends nothing, and answers `Ok(false)`.
    /// Otherwise it answers `Ok(true)`: the driver draws the two uniforms and
    /// fires the selected reaction.
    pub fn observe_hazards(&mut self, hazard_len: usize, total_code: u64) -> (r: Result<
        bool,
        SimError,
    >)
        requires
            old(self).wf(),
            old(self).state() is Running,
        ensures
            final(self).wf(),
            same_config(*old(self), *final(self)),
            same_trajectory(*old(self), *final(self)),
            hazard_len as nat != old(self).num_reactions() ==> r == Err::<bool, SimError>(
                SimError::PropensityShape,
            ) && final(self).state() == old(self).state(),
            hazard_len as nat == old(self).num_reactions() && total_code == 0 ==> r == Ok::<
                bool,
                SimError,
            >(false) && final(self).state() == Status::Stopped(StopReason::NoMoreReactions),
            hazard_len as nat == old(self).num_reactions() && total_code != 0 ==> r == Ok::<
                bool,
                SimError,
            >(true) && final(self).state() == old(self).state(),
    {
        if hazard_len != self.network.reaction_count() {
            Err(SimError::PropensityShape)
        } else if total_code == 0 {
            self.status = Status::Stopped(StopReason::NoMoreReactions);
            Ok(false)
        } else {
            Ok(true)
        }
    }

    /// Fire reaction `mu` at the sampled event time: add the reaction's
    /// stoichiometry row to the counts, advance the time to `new_time_code`
    /// (never backwards — waiting times are non-negative), and append the new
    /// `(time, counts)` entry to the trajectory as an independent snapshot.
    ///
    /// The caller keeps each updated count within the machine integer's
    /// range; the engine does not clamp or detect overflow.
    pub fn fire(&mut self, mu: usize, new_time_code: u64)
        requires
            old(self).wf(),
            old(self).state() is Running,
            (mu as nat) < old(self).num_reactions(),
            new_time_code >= old(self).current_time(),
            old(self).update_fits(mu as int),
        ensures
            final(self).wf(),
            same_config(*old(self), *final(self)),
            final(self).state() == old(self).state(),
            final(self).counts_view().len() == old(self).counts_view().len(),
            forall|i: int|
                0 <= i < old(self).counts_view().len() ==> #[trigger] final(self).counts_view()[i]
                    == old(self).counts_view()[i] + old(self).delta(mu as int, i),
            final(self).current_time() == new_time_code,
            final(self).times_view() == old(self).times_view().push(new_time_code),
            final(self).states_view() == old(self).states_view().push(final(self).counts_view()),
    {
        let n: usize = self.counts.len();
        let mut updated: Vec<i64> = Vec::new();
        let mut i: usize = 0;
        while i < n
            invariant
                i <= n,
                *self == *old(self),
                old(self).wf(),
                (mu as nat) < old(self).num_reactions(),
                n == old(self).counts_view().len(),
                old(self).update_fits(mu as int),
                updated@.len() == i as nat,
                forall|k: int|
                    0 <= k < i ==> #[trigger] updated@[k] == old(self).counts_view()[k] + old(
                        self,
                    ).delta(mu as int, k),
            decreases n - i,
        {
            let d: i64 = self.network.update(mu, i);
            let c: i64 = self.counts[i];
            updated.push(c + d);
            i += 1;
        }
        self.counts = updated;
        self.now = new_time_code;
        self.times.push(new_time_code);
        let snapshot = copy_counts(&self.counts);
        self.states.push(snapshot);
        proof {
            assert(self.states_view() =~= old(self).states_view().push(self.counts@));
            assert(self.states_view().last() == self.counts@);
            assert forall|a: int, b: int|
                0 <= a <= b < self.times@.len() implies self.times@[a] <= self.times@[b] by {
                if b < self.times@.len() - 1 {
                    assert(old(self).times@[a] <= old(self).times@[b]);
                } else if a < self.times@.len() - 1 {
                    assert(old(self).times@[a] <= old(self).times@[old(self).times@.len() - 1]);
                }
            }
        }
    }

    /// `fire` after checking its conditions in verified code, for drivers
    /// that would otherwise have to check them unverified: fires only when
    /// the index is in range, the time code does not run backwards, and every
    /// updated count stays within the machine integer's range. Answers
    /// whether it fired; when it did not, nothing changed.
    pub fn try_fire(&mut self, mu: usize, new_time_code: u64) -> (fired: bool)
        requires
            old(self).wf(),
            old(self).state() is Running,
        ensures
            final(self).wf(),
            same_config(*old(self), *final(self)),
            final(self).state() == old(self).state(),
            fired <==> ((mu as nat) < old(self).num_reactions() && new_time_code >= old(
                self,
            ).current_time() && old(self).update_fits(mu as int)),
            !fired ==> same_trajectory(*old(self), *final(self)),
            fired ==> {
                &&& final(self).counts_view().len() == old(self).counts_view().len()
                &&& forall|i: int|
                    0 <= i < old(self).counts_view().len()
                        ==> #[trigger] final(self).counts_view()[i]
                        == old(self).counts_view()[i] + old(self).delta(mu as int, i)
                &&& final(self).current_time() == new_time_code
                &&& final(self).times_view() == old(self).times_view().push(new_time_code)
                &&& final(self).states_view() == old(self).states_view().push(
                    final(self).counts_view(),
                )
            },
    {
        if mu >= self.network.reaction_count() {
            return false;
        }
        if new_time_code < self.now {
            return false;
        }
        let n: usize = self.counts.len();
        let mut i: usize = 0;
        while i < n
            invariant
                i <= n,
                *self == *old(self),
                old(self).wf(),
                (mu as nat) < old(self).num_reactions(),
                n == old(self).counts_view().len(),
                forall|k: int|
                    0 <= k < i ==> i64::MIN <= #[trigger] old(self).counts_view()[k] + old(
                        self,
                    ).delta(mu as int, k) <= i64::MAX,
            decreases n - i,
        {
            let d: i64 = self.network.update(mu, i);
            let c: i64 = self.counts[i];
            if d >= 0 {
                if c > i64::MAX - d {
                    proof {
                        assert(!old(self).update_fits(mu as int)) by {
                            assert(old(self).counts_view()[i as int] + old(self).delta(
                                mu as int,
                                i as int,
                            ) > i64::MAX);
                        }
                    }
                    return false;
                }
            } else {
                if c < i64::MIN - d {
                    proof {
                        assert(!old(self).update_fits(mu as int)) by {
                            assert(old(self).counts_view()[i as int] + old(self).delta(
                                mu as int,
                                i as int,
                            ) < i64::MIN);
                        }
                    }
                    return false;
                }
            }
            i += 1;
        }
        self.fire(mu, new_time_code);
        true
    }

    /// The current species counts, the evaluator's input: always the live
    /// state, never a stale copy.
    pub fn counts(&self) -> (r: &Vec<i64>)
        ensures
            r@ == self.counts_view(),
    {
        &self.counts
    }

    /// The current time code.
    pub fn time_code(&self) -> (t: u64)
        ensures
            t == self.current_time(),
    {
        self.now
    }

    /// The control state.
    pub fn status(&self) -> (s: Status)
        ensures
            s == self.state(),
    {
        self.status
    }

    /// Number of reactions M.
    pub fn reaction_count(&self) -> (m: usize)
        ensures
            m as nat == self.num_reactions(),
    {
        self.network.reaction_count()
    }

    /// Hand the recorded trajectory to the caller: the time codes and the
    /// species snapshots, entry by entry.
    pub fn into_trajectory(self) -> (r: (Vec<u64>, Vec<Vec<i64>>))
        ensures
            r.0@ == self.times_view(),
            rows_view(r.1@) == self.states_view(),
            r.1@.len() == self.states_view().len(),
            forall|k: int|
                0 <= k < r.1@.len() ==> (#[trigger] r.1@[k])@ == self.states_view()[k],
    {
        (self.times, self.states)
    }
}

/// An independent element-wise copy of the counts, for trajectory snapshots:
/// no aliasing between trajectory entries and the live state.
fn copy_counts(v: &Vec<i64>) -> (r: Vec<i64>)
    ensures
        r@ == v@,
{
    let mut r: Vec<i64> = Vec::new();
    let mut i: usize = 0;
    while i < v.len()
        invariant
            i <= v@.len(),
            r@.len() == i as nat,
            forall|k: int| 0 <= k < i ==> r@[k] == v@[k],
        decreases v@.len() - i,
    {
        let x: i64 = v[i];
        r.push(x);
        i += 1;
    }
    proof {
        assert(r@ =~= v@);
    }
    r
}

/// Law: in every well-formed engine state, the recorded times start at zero
/// and never decrease, whatever steps led there.
pub proof fn lemma_times_monotone(s: &Simulation)
    requires
        s.wf(),
    ensures
        s.times_view().len() >= 1,
        s.times_view()[0] == 0,
        forall|i: int, j: int|
            0 <= i <= j < s.times_view().len() ==> s.times_view()[i] <= s.times_view()[j],
{
}

/// Law: in every well-formed engine state, times and states have the same
/// length — one species snapshot per recorded time, one entry per fired
/// reaction plus the initial entry — and every snapshot holds one count per
/// species.
pub proof fn lemma_trajectory_aligned(s: &Simulation)
    requires
        s.wf(),
    ensures
        s.times_view().len() == s.states_view().len(),
        s.states_view().len() >= 1,
        forall|k: int|
            0 <= k < s.states_view().len() ==> (#[trigger] s.states_view()[k]).len()
                == s.num_species(),
{
    assert forall|k: int|
        0 <= k < s.states_view().len() implies (#[trigger] s.states_view()[k]).len()
        == s.num_species() by {
        assert(s.states_view()[k].len() == s.num_species());
    }
}

/// Law: in every well-formed engine state, the first trajectory entry is
/// `(0, initial counts)`: whatever steps a run has taken, it still records
/// the state it was started from, unchanged, as its first entry.
pub proof fn lemma_first_entry_is_initial(s: &Simulation)
    requires
        s.wf(),
    ensures
        s.times_view()[0] == 0,
        s.states_view()[0] == s.initial_counts(),
{
}

/// Law: a freshly built run whose stop-time code is zero has already reached
/// its time limit — `poll` answers false at once, and the trajectory is, and
/// stays, exactly the single initial entry `(0, init)`.
pub proof fn lemma_zero_stop_time(s: &Simulation, init: Seq<i64>)
    requires
        s.wf(),
        s.is_fresh(init),
        s.stop_time() == 0,
    ensures
        s.time_limit_reached(),
        s.times_view() == seq![0u64],
        s.states_view() == seq![init],
{
    assert(s.times_view() =~= seq![0u64]);
    assert(s.states_view() =~= seq![init]);
}

/// Law: the deciding steps never append. Whenever a fresh run reaches a state
/// through trajectory-preserving steps — in particular when the first
/// `observe_hazards` sees a zero total because every hazard is zero — the
/// trajectory still holds exactly the initial entry `(0, init)`.
pub proof fn lemma_decisions_keep_initial_entry(pre: &Simulation, post: &Simulation, init: Seq<i64>)
    requires
        pre.wf(),
        pre.is_fresh(init),
        same_trajectory(*pre, *post),
    ensures
        post.times_view() == seq![0u64],
        post.states_view() == seq![init],
{
    assert(pre.times_view() =~= seq![0u64]);
    assert(pre.states_view() =~= seq![init]);
}

} // verus!
