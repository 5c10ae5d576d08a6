use vstd::prelude::*;

verus! {

/// Trials run at each thread count.
pub const TRIALS: usize = 3;

/// What the measurement loop does next.
#[derive(Clone, Copy, Debug, PartialEq, Eq, Structural)]
pub enum SweepAction {
    /// Run trial `trial` (from zero) of the benchmark with `threads` threads.
    Run { threads: usize, trial: usize },
    /// Every trial of every thread count has completed.
    Finished,
    /// A trial crashed; nothing more runs.
    Halted,
}

/// How a trial ended.
#[derive(Clone, Copy, Debug, PartialEq, Eq, Structural)]
pub enum TrialOutcome {
    /// The benchmark exited successfully after this many nanoseconds.
    Completed { elapsed_nanos: u64 },
    /// The benchmark exited with a nonzero status.
    Crashed,
}

/// The thread-count sweep of one benchmark against one allocator: thread
/// counts 1 to `max_threads` ascending, `TRIALS` sequential trials at each.
/// It records the elapsed time of every completed trial in the order in
/// which they ran.
#[derive(Clone, Debug)]
pub struct Sweep {
    max_threads: usize,
    durations: Vec<u64>,
    crashed: bool,
}

/// The thread count of the `k`-th trial of a sweep (from zero).
pub open spec fn trial_threads(k: int) -> int {
    k / (TRIALS as int) + 1
}

/// The index, within its thread count, of the `k`-th trial of a sweep.
pub open spec fn trial_index(k: int) -> int {
    k % (TRIALS as int)
}

/// The next action of a sweep up to `max_threads` that has completed `done`
/// trials and has seen a crash when `crashed`.
pub open spec fn next_action(max_threads: nat, done: nat, crashed: bool) -> SweepAction {
    if crashed {
        SweepAction::Halted
    } else if done >= max_threads * TRIALS {
        SweepAction::Finished
    } else {
        SweepAction::Run {
            threads: trial_threads(done as int) as usize,
            trial: trial_index(done as int) as usize,
        }
    }
}

/// The trials of each completed thread count, in ascending thread count:
/// entry `t` holds the durations of the trials run with `t + 1` threads.
pub open spec fn blocks(durations: Seq<u64>) -> Seq<Seq<u64>> {
    Seq::new(
        durations.len() / (TRIALS as nat),
        |t: int| durations.subrange(t * TRIALS as int, (t + 1) * TRIALS as int),
    )
}

impl Sweep {
    pub closed spec fn spec_max_threads(self) -> nat {
        self.max_threads as nat
    }

    /// The elapsed nanoseconds of every completed trial, in the order run.
    pub closed spec fn spec_durations(self) -> Seq<u64> {
        self.durations@
    }

    pub closed spec fn spec_crashed(self) -> bool {
        self.crashed
    }

    pub closed spec fn wf(self) -> bool {
        &&& self.durations@.len() <= self.max_threads * TRIALS
        &&& self.max_threads * TRIALS <= usize::MAX
    }

    pub open spec fn spec_action(self) -> SweepAction {
        next_action(self.spec_max_threads(), self.spec_durations().len(), self.spec_crashed())
    }

    /// A sweep that has run nothing yet.
    pub fn new(max_threads: usize) -> (r: Sweep)
        requires
            max_threads * TRIALS <= usize::MAX,
        ensures
            r.wf(),
            r.spec_max_threads() == max_threads,
            r.spec_durations() == Seq::<u64>::empty(),
            !r.spec_crashed(),
    {
        Sweep { max_threads, durations: Vec::new(), crashed: false }
    }

    /// What to do next.
    pub fn action(&self) -> (r: SweepAction)
        requires
            self.wf(),
        ensures
            r == self.spec_action(),
    {
        if self.crashed {
            SweepAction::Halted
        } else if self.durations.len() >= self.max_threads * TRIALS {
            SweepAction::Finished
        } else {
            let done = self.durations.len();
            SweepAction::Run { threads: done / TRIALS + 1, trial: done % TRIALS }
        }
    }

    /// Records how the trial that `action` asked for ended. When it was the
    /// last trial of its thread count, returns the durations of that thread
    /// count's trials.
    pub fn record(&mut self, outcome: TrialOutcome) -> (r: Option<Vec<u64>>)
        requires
            old(self).wf(),
            old(self).spec_action() is Run,
        ensures
            final(self).wf(),
            final(self).spec_max_threads() == old(self).spec_max_threads(),
            outcome matches TrialOutcome::Completed { elapsed_nanos } ==> {
                &&& final(self).spec_durations() == old(self).spec_durations().push(elapsed_nanos)
                &&& !final(self).spec_crashed()
            },
            outcome == TrialOutcome::Crashed ==> {
                &&& final(self).spec_durations() == old(self).spec_durations()
                &&& final(self).spec_crashed()
                &&& final(self).spec_action() == SweepAction::Halted
            },
            r is Some <==> (outcome is Completed && final(self).spec_durations().len() % (
            TRIALS as nat) == 0),
            r matches Some(block) ==> block@ == blocks(final(self).spec_durations()).last(),
    {
        match outcome {
            TrialOutcome::Crashed => {
                self.crashed = true;
                None
            },
            TrialOutcome::Completed { elapsed_nanos } => {
                self.durations.push(elapsed_nanos);
                let n = self.durations.len();
                if n % TRIALS == 0 {
                    let mut block: Vec<u64> = Vec::new();
                    let mut i: usize = n - TRIALS;
                    while i < n
                        invariant
                            n == self.durations@.len(),
                            n % TRIALS == 0,
                            n >= TRIALS,
                            n - TRIALS <= i <= n,
                            block@ == self.durations@.subrange(n - TRIALS, i as int),
                        decreases n - i,
                    {
                        block.push(self.durations[i]);
                        i = i + 1;
                    }
                    proof {
                        let t = n / TRIALS - 1;
                        assert(t * TRIALS == n - TRIALS);
                        assert((t + 1) * TRIALS == n);
                    }
                    Some(block)
                } else {
                    None
                }
            },
        }
    }

    /// The durations of each completed thread count, ascending: entry `t`
    /// holds the `TRIALS` trials run with `t + 1` threads.
    pub fn series(&self) -> (r: Vec<Vec<u64>>)
        ensures
            r@.len() == blocks(self.spec_durations()).len(),
            forall|t: int| 0 <= t < r@.len() ==> #[trigger] r@[t]@ == blocks(self.spec_durations())[t],
    {
        let n = self.durations.len();
        let mut out: Vec<Vec<u64>> = Vec::new();
        let mut t: usize = 0;
        while t < n / TRIALS
            invariant
                n == self.durations@.len(),
                t <= n / TRIALS,
                out@.len() == t,
                forall|u: int| 0 <= u < t ==> #[trigger] out@[u]@ == blocks(self.durations@)[u],
            decreases n / TRIALS - t,
        {
            let mut block: Vec<u64> = Vec::new();
            let start = t * TRIALS;
            let mut i: usize = start;
            while i < start + TRIALS
                invariant
                    n == self.durations@.len(),
                    t < n / TRIALS,
                    start == t * TRIALS,
                    start + TRIALS <= n,
                    start <= i <= start + TRIALS,
                    block@ == self.durations@.subrange(start as int, i as int),
                decreases start + TRIALS - i,
            {
                block.push(self.durations[i]);
                i = i + 1;
            }
            out.push(block);
            t = t + 1;
        }
        out
    }
}

} // verus!

verus! {

/// Trials run in ascending thread count from 1 to `max_threads`, one after
/// another within a thread count: of two trials, the later one never has
/// fewer threads, and with as many threads it has the later index.
pub proof fn lemma_sweep_order(max_threads: nat, k1: int, k2: int)
    requires
        0 <= k1 < k2 < max_threads * TRIALS,
    ensures
        1 <= trial_threads(k1) <= trial_threads(k2) <= max_threads,
        0 <= trial_index(k1) < TRIALS,
        trial_threads(k1) == trial_threads(k2) ==> trial_index(k1) < trial_index(k2),
{
}

/// A finished sweep up to `max_threads` has one entry per thread count; the
/// entry for `t + 1` threads holds exactly the `TRIALS` durations of the
/// trials that ran with `t + 1` threads, in the order they ran.
pub proof fn lemma_finished_series(max_threads: nat, durations: Seq<u64>)
    requires
        durations.len() == max_threads * TRIALS,
    ensures
        blocks(durations).len() == max_threads,
        forall|t: int| 0 <= t < max_threads ==> (#[trigger] blocks(durations)[t]).len() == TRIALS,
        forall|t: int, j: int|
            0 <= t < max_threads && 0 <= j < TRIALS ==> {
                &&& #[trigger] blocks(durations)[t][j] == durations[t * TRIALS + j]
                &&& trial_threads(t * TRIALS + j) == t + 1
                &&& trial_index(t * TRIALS + j) == j
            },
{
    assert forall|t: int, j: int| 0 <= t < max_threads && 0 <= j < TRIALS implies {
        &&& #[trigger] blocks(durations)[t][j] == durations[t * TRIALS + j]
        &&& trial_threads(t * TRIALS + j) == t + 1
        &&& trial_index(t * TRIALS + j) == j
    } by {
        assert((t + 1) * TRIALS <= durations.len()) by (nonlinear_arith)
            requires
                t < max_threads,
                durations.len() == max_threads * TRIALS,
        ;
    }
}

} // verus!
