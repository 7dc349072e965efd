//! The stats store: cumulative counters folded out of drained batches, the
//! percentages derived from them, and throughput metrics computed from a
//! bounded history of recent per-tick batch sizes.

use vstd::prelude::*;

use crate::parsing::LogEntry;
use crate::parsing::LogLevel;

verus! {

/// Cumulative, monotonically non-decreasing counters since the store was
/// created.
#[derive(Debug, Clone, Copy, PartialEq, Eq, Structural)]
pub struct RawStats {
    /// Total number of log entries folded in.
    pub total_count: usize,
    /// Number of `ERROR` entries folded in.
    pub error_count: usize,
    /// Number of `INFO` entries folded in.
    pub info_count: usize,
    /// Number of `DEBUG` entries folded in.
    pub debug_count: usize,
}

/// An exact share `numer / denom` of a whole, kept as a pair so that no
/// rounding happens inside the store; rendering may divide it out.
#[derive(Debug, Clone, Copy, PartialEq, Eq, Structural)]
pub struct Ratio {
    pub numer: usize,
    pub denom: usize,
}

impl Ratio {
    /// A meaningful share: a positive denominator and a value in [0, 1].
    pub open spec fn wf(self) -> bool {
        1 <= self.denom && self.numer <= self.denom
    }
}

/// Values derived entirely from the counters and the tick history at the
/// moment of computation.
#[derive(Debug, Clone, Copy, PartialEq, Eq, Structural)]
pub struct CalculatedStats {
    /// Share of `ERROR` entries among all counted entries.
    pub error_pct: Ratio,
    /// Share of `INFO` entries among all counted entries.
    pub info_pct: Ratio,
    /// Share of `DEBUG` entries among all counted entries.
    pub debug_pct: Ratio,
    /// Mean per-tick batch size over the recorded history, rounded down.
    pub avg_entries_per_second: usize,
    /// Largest per-tick batch size seen since the store was created.
    pub peak_entries_per_second: usize,
    /// Size of the most recent tick's batch.
    pub entries_last_second: usize,
}

/// One consistent snapshot: the counters together with the metrics computed
/// from them, always updated as a pair.
#[derive(Debug, Clone, Copy, PartialEq, Eq, Structural)]
pub struct Stats {
    pub raw: RawStats,
    pub calculated: CalculatedStats,
}

/// The counters balance: the total is exactly the three level counts.
pub open spec fn raw_wf(r: RawStats) -> bool {
    r.total_count == r.error_count + r.info_count + r.debug_count
}

/// The share of `c` among `t`, and zero when nothing was counted.
pub open spec fn spec_pct(c: usize, t: usize) -> Ratio {
    if t == 0 {
        Ratio { numer: 0, denom: 1 }
    } else {
        Ratio { numer: c, denom: t }
    }
}

/// The percentages agree with the counters they were computed from, and the
/// counters balance.
pub open spec fn stats_wf(s: Stats) -> bool {
    &&& raw_wf(s.raw)
    &&& s.calculated.error_pct == spec_pct(s.raw.error_count, s.raw.total_count)
    &&& s.calculated.info_pct == spec_pct(s.raw.info_count, s.raw.total_count)
    &&& s.calculated.debug_pct == spec_pct(s.raw.debug_count, s.raw.total_count)
}

/// Number of entries of `s` whose level is `level`.
pub open spec fn count_level(s: Seq<LogEntry>, level: LogLevel) -> int
    decreases s.len(),
{
    if s.len() == 0 {
        0
    } else {
        count_level(s.drop_last(), level) + if s.last().level == level {
            1int
        } else {
            0int
        }
    }
}

/// Sum of a sequence of batch sizes.
pub open spec fn seq_sum(s: Seq<usize>) -> int
    decreases s.len(),
{
    if s.len() == 0 {
        0
    } else {
        seq_sum(s.drop_last()) + s.last()
    }
}

/// A prefix never sums to more than the whole.
pub proof fn lemma_seq_sum_take_le(s: Seq<usize>, j: int)
    requires
        0 <= j <= s.len(),
    ensures
        seq_sum(s.take(j)) <= seq_sum(s),
    decreases s.len() - j,
{
    if j == s.len() {
        assert(s.take(j) =~= s);
    } else {
        assert(s.take(j + 1).drop_last() =~= s.take(j));
        assert(s.take(j + 1).last() == s[j]);
        lemma_seq_sum_take_le(s, j + 1);
    }
}

/// Dropping the first element removes exactly its value from the sum.
pub proof fn lemma_seq_sum_drop_first(s: Seq<usize>)
    requires
        s.len() >= 1,
    ensures
        seq_sum(s) == s[0] + seq_sum(s.drop_first()),
    decreases s.len(),
{
    assert(seq_sum(s) == seq_sum(s.drop_last()) + s.last());
    if s.len() == 1 {
        assert(s.drop_last().len() == 0);
        assert(s.drop_first().len() == 0);
        assert(seq_sum(s.drop_last()) == 0);
        assert(seq_sum(s.drop_first()) == 0);
        assert(s.last() == s[0]);
    } else {
        lemma_seq_sum_drop_first(s.drop_last());
        assert(s.drop_last().drop_first() =~= s.drop_first().drop_last());
        assert(s.drop_last()[0] == s[0]);
        assert(s.drop_first().last() == s.last());
        assert(seq_sum(s.drop_first()) == seq_sum(s.drop_first().drop_last())
            + s.drop_first().last());
    }
}

/// The history after recording a batch of `m` entries: the sizes of the most
/// recent ticks, oldest first, never more than `w` of them.
pub open spec fn spec_next_history(h: Seq<usize>, w: int, m: usize) -> Seq<usize> {
    (if h.len() >= w {
        h.drop_first()
    } else {
        h
    }).push(m)
}

/// The stats of a freshly created store: everything zero, every share empty.
pub open spec fn spec_initial_stats() -> Stats {
    Stats {
        raw: RawStats { total_count: 0, error_count: 0, info_count: 0, debug_count: 0 },
        calculated: CalculatedStats {
            error_pct: Ratio { numer: 0, denom: 1 },
            info_pct: Ratio { numer: 0, denom: 1 },
            debug_pct: Ratio { numer: 0, denom: 1 },
            avg_entries_per_second: 0,
            peak_entries_per_second: 0,
            entries_last_second: 0,
        },
    }
}

/// The share of `c` among `t`.
pub fn pct_of(c: usize, t: usize) -> (r: Ratio)
    ensures
        r == spec_pct(c, t),
{
    if t == 0 {
        Ratio { numer: 0, denom: 1 }
    } else {
        Ratio { numer: c, denom: t }
    }
}

/// Holder of the current statistics, mutated exclusively by the aggregation
/// tick. Keeps a bounded history of the last `window` per-tick batch sizes,
/// from which the throughput metrics are computed; the window width is a
/// parameter chosen at creation.
pub struct StatsStore {
    stats: Stats,
    history: Vec<usize>,
    window: usize,
}

impl StatsStore {
    /// The current snapshot.
    pub closed spec fn spec_stats(self) -> Stats {
        self.stats
    }

    /// The recorded per-tick batch sizes, oldest first.
    pub closed spec fn spec_history(self) -> Seq<usize> {
        self.history@
    }

    /// The configured history width.
    pub closed spec fn spec_window(self) -> int {
        self.window as int
    }

    /// The store's invariant, re-established by every completed tick: the
    /// counters balance, the percentages agree with the counters, the
    /// throughput metrics agree with the recorded history, and the history is
    /// bounded by the window.
    pub open spec fn wf(self) -> bool {
        &&& stats_wf(self.spec_stats())
        &&& 1 <= self.spec_window()
        &&& self.spec_history().len() <= self.spec_window()
        &&& seq_sum(self.spec_history()) <= self.spec_stats().raw.total_count
        &&& self.spec_stats().calculated.entries_last_second as int == (if self.spec_history().len()
            == 0 {
            0int
        } else {
            self.spec_history().last() as int
        })
        &&& self.spec_stats().calculated.avg_entries_per_second as int == (if self.spec_history().len()
            == 0 {
            0int
        } else {
            seq_sum(self.spec_history()) / self.spec_history().len() as int
        })
        &&& forall|i: int|
            0 <= i < self.spec_history().len() ==> self.spec_history()[i]
                <= self.spec_stats().calculated.peak_entries_per_second
    }

    /// A fresh store with all counters zero and an empty history. `window`
    /// is the number of recent ticks kept for the throughput metrics.
    pub fn new(window: usize) -> (s: StatsStore)
        requires
            1 <= window,
        ensures
            s.wf(),
            s.spec_stats() == spec_initial_stats(),
            s.spec_history() == Seq::<usize>::empty(),
            s.spec_window() == window as int,
    {
        StatsStore { stats: initial_stats(), history: Vec::new(), window }
    }

    /// The configured history width.
    pub fn window(&self) -> (w: usize)
        ensures
            w as int == self.spec_window(),
    {
        self.window
    }

    /// Copies out one internally consistent snapshot, so that a reader never
    /// holds the store while rendering.
    pub fn snapshot(&self) -> (s: Stats)
        ensures
            s == self.spec_stats(),
    {
        self.stats
    }

    /// One aggregation tick: folds one drained batch into the counters,
    /// records the batch size in the bounded history, and recomputes every
    /// derived metric, so that the snapshot stays consistent as a whole.
    pub fn tick(&mut self, batch: Vec<LogEntry>)
        requires
            old(self).wf(),
            old(self).spec_stats().raw.total_count + batch@.len() <= usize::MAX,
        ensures
            final(self).wf(),
            final(self).spec_window() == old(self).spec_window(),
            final(self).spec_stats().raw.total_count == old(self).spec_stats().raw.total_count
                + batch@.len(),
            final(self).spec_stats().raw.error_count as int == old(
                self,
            ).spec_stats().raw.error_count + count_level(batch@, LogLevel::Error),
            final(self).spec_stats().raw.info_count as int == old(self).spec_stats().raw.info_count
                + count_level(batch@, LogLevel::Info),
            final(self).spec_stats().raw.debug_count as int == old(
                self,
            ).spec_stats().raw.debug_count + count_level(batch@, LogLevel::Debug),
            final(self).spec_history() == spec_next_history(
                old(self).spec_history(),
                old(self).spec_window(),
                batch@.len() as usize,
            ),
            final(self).spec_stats().calculated.entries_last_second == batch@.len(),
            final(self).spec_stats().calculated.peak_entries_per_second as int == (if batch@.len()
                > old(self).spec_stats().calculated.peak_entries_per_second {
                batch@.len() as int
            } else {
                old(self).spec_stats().calculated.peak_entries_per_second as int
            }),
            final(self).spec_stats().calculated.peak_entries_per_second >= old(
                self,
            ).spec_stats().calculated.peak_entries_per_second,
    {
        let m = batch.len();
        let mut err_c: usize = 0;
        let mut info_c: usize = 0;
        let mut dbg_c: usize = 0;
        let mut idx: usize = 0;
        while idx < m
            invariant
                idx <= m,
                m == batch@.len(),
                err_c as int == count_level(batch@.take(idx as int), LogLevel::Error),
                info_c as int == count_level(batch@.take(idx as int), LogLevel::Info),
                dbg_c as int == count_level(batch@.take(idx as int), LogLevel::Debug),
                err_c + info_c + dbg_c == idx,
            decreases m - idx,
        {
            proof {
                assert(batch@.take(idx + 1).drop_last() =~= batch@.take(idx as int));
                assert(batch@.take(idx + 1).last() == batch@[idx as int]);
            }
            match batch[idx].level {
                LogLevel::Error => {
                    err_c = err_c + 1;
                },
                LogLevel::Info => {
                    info_c = info_c + 1;
                },
                LogLevel::Debug => {
                    dbg_c = dbg_c + 1;
                },
            }
            idx = idx + 1;
        }
        proof {
            assert(batch@.take(m as int) =~= batch@);
        }
        let total0 = self.stats.raw.total_count;
        self.stats.raw.total_count = total0 + m;
        self.stats.raw.error_count = self.stats.raw.error_count + err_c;
        self.stats.raw.info_count = self.stats.raw.info_count + info_c;
        self.stats.raw.debug_count = self.stats.raw.debug_count + dbg_c;
        let ghost h0 = self.history@;
        let ghost peak0 = self.stats.calculated.peak_entries_per_second;
        if self.history.len() == self.window {
            proof {
                lemma_seq_sum_drop_first(h0);
            }
            let _ = self.history.remove(0);
            proof {
                assert(self.history@ =~= h0.drop_first());
            }
        }
        let ghost h1 = self.history@;
        self.history.push(m);
        let ghost h2 = self.history@;
        proof {
            assert(h2.drop_last() =~= h1);
            assert(seq_sum(h2) == seq_sum(h1) + m);
            assert(seq_sum(h2) <= self.stats.raw.total_count);
            assert(h2 =~= spec_next_history(h0, self.window as int, m));
        }
        let t = self.stats.raw.total_count;
        self.stats.calculated.error_pct = pct_of(self.stats.raw.error_count, t);
        self.stats.calculated.info_pct = pct_of(self.stats.raw.info_count, t);
        self.stats.calculated.debug_pct = pct_of(self.stats.raw.debug_count, t);
        self.stats.calculated.entries_last_second = m;
        if m > self.stats.calculated.peak_entries_per_second {
            self.stats.calculated.peak_entries_per_second = m;
        }
        proof {
            let peak1 = self.stats.calculated.peak_entries_per_second;
            assert forall|i: int| 0 <= i < h2.len() implies h2[i] <= peak1 by {
                if i < h1.len() {
                    if h1 =~= h0 {
                        assert(h0[i] <= peak0);
                    } else {
                        assert(h1[i] == h0[i + 1]);
                        assert(h0[i + 1] <= peak0);
                    }
                }
            }
        }
        let hl = self.history.len();
        let mut sum: usize = 0;
        let mut j: usize = 0;
        while j < hl
            invariant
                j <= hl,
                hl == self.history@.len(),
                sum as int == seq_sum(self.history@.take(j as int)),
                seq_sum(self.history@) <= self.stats.raw.total_count,
            decreases hl - j,
        {
            proof {
                assert(self.history@.take(j + 1).drop_last() =~= self.history@.take(j as int));
                assert(self.history@.take(j + 1).last() == self.history@[j as int]);
                lemma_seq_sum_take_le(self.history@, j + 1);
            }
            sum = sum + self.history[j];
            j = j + 1;
        }
        proof {
            assert(self.history@.take(hl as int) =~= self.history@);
        }
        self.stats.calculated.avg_entries_per_second = sum / hl;
    }
}

/// After every completed tick the counters balance: the total count is
/// exactly the sum of the error, info and debug counts. `tick` re-establishes
/// `wf`, of which this is part.
pub proof fn lemma_counters_balance(s: StatsStore)
    requires
        s.wf(),
    ensures
        s.spec_stats().raw.total_count == s.spec_stats().raw.error_count
            + s.spec_stats().raw.info_count + s.spec_stats().raw.debug_count,
{
}

/// The three shares partition the whole: whenever anything was counted, the
/// three numerators share one denominator, the total count, and sum to it
/// exactly (so the shares sum to one); when nothing was counted, all three
/// are zero. Holds of every consistent snapshot, so after every completed
/// tick.
pub proof fn lemma_pct_sum(s: Stats)
    requires
        stats_wf(s),
    ensures
        s.raw.total_count > 0 ==> {
            &&& s.calculated.error_pct.denom == s.raw.total_count
            &&& s.calculated.info_pct.denom == s.raw.total_count
            &&& s.calculated.debug_pct.denom == s.raw.total_count
            &&& s.calculated.error_pct.numer + s.calculated.info_pct.numer
                + s.calculated.debug_pct.numer == s.raw.total_count
        },
        s.raw.total_count == 0 ==> {
            &&& s.calculated.error_pct.numer == 0
            &&& s.calculated.info_pct.numer == 0
            &&& s.calculated.debug_pct.numer == 0
        },
        s.calculated.error_pct.wf(),
        s.calculated.info_pct.wf(),
        s.calculated.debug_pct.wf(),
{
}

/// The stats of a freshly created store.
pub fn initial_stats() -> (s: Stats)
    ensures
        s == spec_initial_stats(),
{
    Stats {
        raw: RawStats { total_count: 0, error_count: 0, info_count: 0, debug_count: 0 },
        calculated: CalculatedStats {
            error_pct: Ratio { numer: 0, denom: 1 },
            info_pct: Ratio { numer: 0, denom: 1 },
            debug_pct: Ratio { numer: 0, denom: 1 },
            avg_entries_per_second: 0,
            peak_entries_per_second: 0,
            entries_last_second: 0,
        },
    }
}

} // verus!
