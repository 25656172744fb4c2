//! Heating/cooling detector: a slope tracker over a short ring of raw
//! temperature readings, an hysteresis state machine with debounce
//! confirmation, a 24-hour history of recorded states, and a run-length
//! statistics aggregator over that history.
//!
//! Temperatures are carried in thousandths of a degree so that every
//! comparison is exact; the producer validates readings (dropping, for
//! example, a non-finite sensor value) before they reach the detector.
//! Slope thresholds are in thousandths of a degree per minute, and the
//! comparison `slope >= thr` over the rational slope
//! `delta / elapsed_minutes` is stated multiplicatively as
//! `delta * 60 >= thr * elapsed_secs`, which is exact.

use vstd::prelude::*;
use vstd::arithmetic::mul::lemma_mul_inequality;

use crate::ring::Ring;
use crate::ring::ring_push;

verus! {

/// Slope window: the rate of change is taken over this many intervals.
pub const FAST_WINDOW: usize = 3;

/// Slots of the fast ring: a slope over `FAST_WINDOW` intervals needs one
/// more sample than intervals.
pub const FAST_BUF_SIZE: usize = 4;

/// Default confirmation threshold: commit on the first qualifying
/// observation.
pub const DEFAULT_CONFIRM: u8 = 1;

/// Slope at which an idle system is proposed heating (cooling at the
/// negation), thousandths of a degree per minute.
pub const HEAT_ON_SLOPE_MILLI: i64 = 30;

/// Slope below which an active system is proposed idle again (negated for
/// cooling); smaller in magnitude than the on threshold, which keeps an
/// active state sticky near the boundary.
pub const HEAT_OFF_SLOPE_MILLI: i64 = 10;

/// Default shortest healthy run length, minutes.
pub const DEFAULT_SHORT_CYCLE_MINS: u32 = 4;

/// History ring size: 24 hours at a 30-second record cadence.
pub const HISTORY_SIZE: usize = 2880;

/// Longest accepted sampling period (24 hours), which keeps every minute
/// total representable in 32 bits.
pub const MAX_PERIOD_SECS: u32 = 86400;

/// The three discrete operating modes.
#[derive(Clone, Copy, Debug, PartialEq, Eq, Structural)]
pub enum HvacState {
    Idle,
    Heating,
    Cooling,
}

impl HvacState {
    /// Display label of the state.
    pub fn name(self) -> (r: &'static str)
        ensures
            self is Idle ==> r@ == "IDLE"@,
            self is Heating ==> r@ == "HEATING"@,
            self is Cooling ==> r@ == "COOLING"@,
    {
        match self {
            HvacState::Idle => "IDLE",
            HvacState::Heating => "HEATING",
            HvacState::Cooling => "COOLING",
        }
    }
}

/// Aggregates for one active mode over the retained history.
#[derive(Clone, Copy, Debug, PartialEq, Eq, Structural)]
pub struct HvacModeStats {
    pub total_minutes: u32,
    pub cycles: u32,
    pub avg_cycle_mins: u32,
    pub longest_cycle_mins: u32,
    pub short_cycles: u32,
}

impl Default for HvacModeStats {
    /// All-zero aggregates.
    fn default() -> (r: Self)
        ensures
            r.total_minutes == 0,
            r.cycles == 0,
            r.avg_cycle_mins == 0,
            r.longest_cycle_mins == 0,
            r.short_cycles == 0,
    {
        HvacModeStats {
            total_minutes: 0,
            cycles: 0,
            avg_cycle_mins: 0,
            longest_cycle_mins: 0,
            short_cycles: 0,
        }
    }
}

/// Aggregates over the whole retained history.
#[derive(Clone, Copy, Debug, PartialEq, Eq, Structural)]
pub struct HvacStats {
    pub heat: HvacModeStats,
    pub cool: HvacModeStats,
    /// Minutes of history the aggregates cover.
    pub history_minutes: u32,
}

/// Abstract state of the detector.
#[verifier::ext_equal]
pub ghost struct DetectorView {
    pub current: HvacState,
    pub state_start_ms: u32,
    pub candidate: HvacState,
    pub candidate_count: u8,
    /// Retained raw readings, oldest first, thousandths of a degree.
    pub window: Seq<i32>,
    /// Recorded states, oldest first.
    pub history: Seq<HvacState>,
    pub detect_period_secs: u32,
    pub record_period_secs: u32,
    pub confirm: u8,
    pub short_cycle_mins: u32,
}

impl DetectorView {
    /// Constraints every reachable detector state satisfies.
    pub open spec fn wf(self) -> bool {
        &&& self.window.len() <= FAST_BUF_SIZE
        &&& self.history.len() <= HISTORY_SIZE
        &&& 1 <= self.confirm
        &&& self.candidate_count < self.confirm
        &&& 1 <= self.detect_period_secs <= MAX_PERIOD_SECS
        &&& 1 <= self.record_period_secs <= MAX_PERIOD_SECS
    }
}

/// The slope `delta / elapsed` thousandths of a degree per minute, with
/// `delta` in thousandths over `elapsed_secs` seconds, is at least `thr`
/// thousandths per minute.
pub open spec fn slope_at_least(delta: int, elapsed_secs: int, thr: int) -> bool {
    delta * 60 >= thr * elapsed_secs
}

/// The same slope is at most `thr` thousandths of a degree per minute.
pub open spec fn slope_at_most(delta: int, elapsed_secs: int, thr: int) -> bool {
    delta * 60 <= thr * elapsed_secs
}

/// The state one classification proposes, before debouncing: entering an
/// active state takes the larger on-threshold, leaving it only takes
/// falling inside the smaller off-threshold.
pub open spec fn proposed_state(current: HvacState, delta: int, elapsed_secs: int) -> HvacState {
    match current {
        HvacState::Idle => if slope_at_least(delta, elapsed_secs, HEAT_ON_SLOPE_MILLI as int) {
            HvacState::Heating
        } else if slope_at_most(delta, elapsed_secs, -(HEAT_ON_SLOPE_MILLI as int)) {
            HvacState::Cooling
        } else {
            HvacState::Idle
        },
        HvacState::Heating => if delta * 60 < HEAT_OFF_SLOPE_MILLI * elapsed_secs {
            HvacState::Idle
        } else {
            HvacState::Heating
        },
        HvacState::Cooling => if delta * 60 > -(HEAT_OFF_SLOPE_MILLI as int) * elapsed_secs {
            HvacState::Idle
        } else {
            HvacState::Cooling
        },
    }
}

/// The debounced control fields of the detector.
#[verifier::ext_equal]
pub ghost struct ControlView {
    pub current: HvacState,
    pub state_start_ms: u32,
    pub candidate: HvacState,
    pub candidate_count: u8,
}

/// One debounce decision: a proposal equal to the current state clears any
/// candidate; a differing proposal repeated on consecutive decisions bumps
/// the candidate count, and commits once it reaches `confirm`.
pub open spec fn debounce_step(
    c: ControlView,
    proposal: HvacState,
    now_ms: u32,
    confirm: u8,
) -> ControlView {
    if proposal != c.current {
        let bumped = if proposal == c.candidate {
            (c.candidate_count + 1) as u8
        } else {
            1u8
        };
        if bumped >= confirm {
            ControlView {
                current: proposal,
                state_start_ms: now_ms,
                candidate: proposal,
                candidate_count: 0,
            }
        } else {
            ControlView {
                current: c.current,
                state_start_ms: c.state_start_ms,
                candidate: proposal,
                candidate_count: bumped,
            }
        }
    } else {
        ControlView {
            current: c.current,
            state_start_ms: c.state_start_ms,
            candidate: c.current,
            candidate_count: 0,
        }
    }
}

/// `debounce_step` iterated once per entry of `nows` with a fixed proposal.
pub open spec fn debounce_n(
    c: ControlView,
    proposal: HvacState,
    nows: Seq<u32>,
    confirm: u8,
) -> ControlView
    decreases nows.len(),
{
    if nows.len() == 0 {
        c
    } else {
        debounce_step(debounce_n(c, proposal, nows.drop_last(), confirm), proposal, nows.last(), confirm)
    }
}

/// What one sampling call does: push the reading, anchor the start time on
/// the very first sample, and once the window is full classify the slope
/// and run one debounce decision.
pub open spec fn detect_step(v: DetectorView, temp_milli: i32, now_ms: u32) -> DetectorView {
    let w = ring_push(v.window, FAST_BUF_SIZE as nat, temp_milli);
    let anchored = if v.window.len() == 0 {
        now_ms
    } else {
        v.state_start_ms
    };
    if w.len() < FAST_BUF_SIZE {
        DetectorView {
            current: v.current,
            state_start_ms: anchored,
            candidate: v.candidate,
            candidate_count: v.candidate_count,
            window: w,
            history: v.history,
            detect_period_secs: v.detect_period_secs,
            record_period_secs: v.record_period_secs,
            confirm: v.confirm,
            short_cycle_mins: v.short_cycle_mins,
        }
    } else {
        let delta = w.last() - w.first();
        let elapsed = FAST_WINDOW * v.detect_period_secs;
        let proposal = proposed_state(v.current, delta, elapsed as int);
        let c = debounce_step(
            ControlView {
                current: v.current,
                state_start_ms: anchored,
                candidate: v.candidate,
                candidate_count: v.candidate_count,
            },
            proposal,
            now_ms,
            v.confirm,
        );
        DetectorView {
            current: c.current,
            state_start_ms: c.state_start_ms,
            candidate: c.candidate,
            candidate_count: c.candidate_count,
            window: w,
            history: v.history,
            detect_period_secs: v.detect_period_secs,
            record_period_secs: v.record_period_secs,
            confirm: v.confirm,
            short_cycle_mins: v.short_cycle_mins,
        }
    }
}

/// What one recording call does: append the current state to the history.
pub open spec fn record_step(v: DetectorView) -> DetectorView {
    DetectorView {
        current: v.current,
        state_start_ms: v.state_start_ms,
        candidate: v.candidate,
        candidate_count: v.candidate_count,
        window: v.window,
        history: ring_push(v.history, HISTORY_SIZE as nat, v.current),
        detect_period_secs: v.detect_period_secs,
        record_period_secs: v.record_period_secs,
        confirm: v.confirm,
        short_cycle_mins: v.short_cycle_mins,
    }
}

/// Milliseconds from `start_ms` to `now_ms` on a wrapping 32-bit clock.
pub open spec fn wrapped_elapsed_ms(now_ms: u32, start_ms: u32) -> int {
    if now_ms >= start_ms {
        now_ms - start_ms
    } else {
        now_ms - start_ms + 0x1_0000_0000
    }
}

/// Run-length encoding of a state sequence: maximal blocks of one state
/// become `(state, block length)` pairs, in order.
pub open spec fn runs_of(s: Seq<HvacState>) -> Seq<(HvacState, int)>
    decreases s.len(),
{
    if s.len() == 0 {
        Seq::empty()
    } else {
        let pre = runs_of(s.drop_last());
        if pre.len() > 0 && pre.last().0 == s.last() {
            pre.update(pre.len() - 1, (s.last(), pre.last().1 + 1))
        } else {
            pre.push((s.last(), 1))
        }
    }
}

/// Whole minutes covered by `len` samples at `period_secs` per sample,
/// rounded to the nearest minute.
pub open spec fn run_minutes(len: int, period_secs: int) -> int {
    (len * period_secs + 30) / 60
}

/// Mathematical aggregates for one mode.
#[verifier::ext_equal]
pub ghost struct ModeTally {
    pub total: int,
    pub cycles: int,
    pub longest: int,
    pub shorts: int,
}

/// Aggregates of no runs at all.
pub open spec fn empty_tally() -> ModeTally {
    ModeTally { total: 0, cycles: 0, longest: 0, shorts: 0 }
}

/// One closed run of `len` samples folded into a tally.
pub open spec fn bump_tally(t: ModeTally, len: int, period_secs: int, short_mins: int) -> ModeTally {
    let m = run_minutes(len, period_secs);
    ModeTally {
        total: t.total + m,
        cycles: t.cycles + 1,
        longest: if m > t.longest {
            m
        } else {
            t.longest
        },
        shorts: t.shorts + if m < short_mins {
            1int
        } else {
            0int
        },
    }
}

/// Aggregates of the runs of one mode: idle runs and runs of the other
/// mode contribute nothing.
pub open spec fn tally_runs(
    runs: Seq<(HvacState, int)>,
    mode: HvacState,
    period_secs: int,
    short_mins: int,
) -> ModeTally
    decreases runs.len(),
{
    if runs.len() == 0 {
        empty_tally()
    } else {
        let t = tally_runs(runs.drop_last(), mode, period_secs, short_mins);
        if runs.last().0 == mode {
            bump_tally(t, runs.last().1, period_secs, short_mins)
        } else {
            t
        }
    }
}

/// Aggregates of one mode over a state sequence.
pub open spec fn mode_tally(
    s: Seq<HvacState>,
    mode: HvacState,
    period_secs: int,
    short_mins: int,
) -> ModeTally {
    tally_runs(runs_of(s), mode, period_secs, short_mins)
}

/// The integer fields of reported mode statistics.
pub open spec fn as_tally(m: HvacModeStats) -> ModeTally {
    ModeTally {
        total: m.total_minutes as int,
        cycles: m.cycles as int,
        longest: m.longest_cycle_mins as int,
        shorts: m.short_cycles as int,
    }
}

/// Reported statistics match a tally, with the average derived from it.
pub open spec fn stats_match(t: ModeTally, m: HvacModeStats) -> bool {
    &&& as_tally(m) == t
    &&& m.avg_cycle_mins == (if t.cycles > 0 {
        t.total / t.cycles
    } else {
        0int
    })
}

/// One step of `tally_runs`, spelled out: the last run contributes exactly
/// when its state is the tallied mode.
proof fn lemma_tally_step(
    runs: Seq<(HvacState, int)>,
    mode: HvacState,
    period_secs: int,
    short_mins: int,
)
    requires
        runs.len() > 0,
    ensures
        tally_runs(runs, mode, period_secs, short_mins) == (if runs.last().0 == mode {
            bump_tally(
                tally_runs(runs.drop_last(), mode, period_secs, short_mins),
                runs.last().1,
                period_secs,
                short_mins,
            )
        } else {
            tally_runs(runs.drop_last(), mode, period_secs, short_mins)
        }),
{
}

/// A run of `len >= 1` samples at `period_secs >= 1` covers between zero
/// and `len * period_secs` whole minutes.
proof fn lemma_run_minutes_bounds(len: int, period_secs: int)
    requires
        1 <= len,
        1 <= period_secs,
    ensures
        0 <= run_minutes(len, period_secs) <= len * period_secs,
{
    assert(len * period_secs >= 1) by (nonlinear_arith)
        requires
            1 <= len,
            1 <= period_secs,
    ;
    let a = len * period_secs;
    assert(0 <= (a + 30) / 60 <= a) by (nonlinear_arith)
        requires
            a >= 1,
    ;
}

/// The detector.
pub struct HvacDetector {
    current_state: HvacState,
    state_start_ms: u32,
    candidate_state: HvacState,
    candidate_count: u8,
    fast: Ring<i32>,
    fast_period_secs: u32,
    history: Ring<HvacState>,
    hist_period_secs: u32,
    confirm: u8,
    short_cycle_mins: u32,
}

impl View for HvacDetector {
    type V = DetectorView;

    closed spec fn view(&self) -> DetectorView {
        DetectorView {
            current: self.current_state,
            state_start_ms: self.state_start_ms,
            candidate: self.candidate_state,
            candidate_count: self.candidate_count,
            window: self.fast@,
            history: self.history@,
            detect_period_secs: self.fast_period_secs,
            record_period_secs: self.hist_period_secs,
            confirm: self.confirm,
            short_cycle_mins: self.short_cycle_mins,
        }
    }
}

impl HvacDetector {
    /// Ring bookkeeping the public view does not show.
    pub closed spec fn rings_wf(&self) -> bool {
        &&& self.fast.wf()
        &&& self.fast.capacity() == FAST_BUF_SIZE
        &&& self.history.wf()
        &&& self.history.capacity() == HISTORY_SIZE
    }

    pub open spec fn wf(&self) -> bool {
        &&& self.rings_wf()
        &&& self@.wf()
    }

    /// The view of a detector as `with_settings` returns it.
    pub open spec fn initial_view(
        detect_period_secs: u32,
        record_period_secs: u32,
        confirm: u8,
        short_cycle_mins: u32,
    ) -> DetectorView {
        DetectorView {
            current: HvacState::Idle,
            state_start_ms: 0,
            candidate: HvacState::Idle,
            candidate_count: 0,
            window: Seq::empty(),
            history: Seq::empty(),
            detect_period_secs,
            record_period_secs,
            confirm,
            short_cycle_mins,
        }
    }

    /// A detector with explicit confirmation threshold and short-cycle
    /// bound.
    pub fn with_settings(
        detect_period_secs: u32,
        record_period_secs: u32,
        confirm: u8,
        short_cycle_mins: u32,
    ) -> (r: Self)
        requires
            1 <= detect_period_secs <= MAX_PERIOD_SECS,
            1 <= record_period_secs <= MAX_PERIOD_SECS,
            1 <= confirm,
        ensures
            r.wf(),
            r@ == Self::initial_view(detect_period_secs, record_period_secs, confirm, short_cycle_mins),
    {
        HvacDetector {
            current_state: HvacState::Idle,
            state_start_ms: 0,
            candidate_state: HvacState::Idle,
            candidate_count: 0,
            fast: Ring::new(FAST_BUF_SIZE, 0),
            fast_period_secs: detect_period_secs,
            history: Ring::new(HISTORY_SIZE, HvacState::Idle),
            hist_period_secs: record_period_secs,
            confirm,
            short_cycle_mins,
        }
    }

    /// A detector with the default confirmation threshold (commit at once)
    /// and the default short-cycle bound.
    pub fn new(detect_period_secs: u32, record_period_secs: u32) -> (r: Self)
        requires
            1 <= detect_period_secs <= MAX_PERIOD_SECS,
            1 <= record_period_secs <= MAX_PERIOD_SECS,
        ensures
            r.wf(),
            r@ == Self::initial_view(
                detect_period_secs,
                record_period_secs,
                DEFAULT_CONFIRM,
                DEFAULT_SHORT_CYCLE_MINS,
            ),
    {
        Self::with_settings(
            detect_period_secs,
            record_period_secs,
            DEFAULT_CONFIRM,
            DEFAULT_SHORT_CYCLE_MINS,
        )
    }

    /// Sampling entry point, called once per detection interval. Pushes the
    /// reading and, once the window is full, classifies the slope and runs
    /// one debounce decision.
    pub fn detect(&mut self, temp_milli: i32, now_ms: u32)
        requires
            old(self).wf(),
        ensures
            final(self).wf(),
            final(self)@ == detect_step(old(self)@, temp_milli, now_ms),
    {
        let ghost v0 = self@;
        let first = self.fast.len() == 0;
        self.fast.push(temp_milli);
        if first {
            self.state_start_ms = now_ms;
        }
        if self.fast.len() < FAST_BUF_SIZE {
            proof {
                assert(self@ =~= detect_step(v0, temp_milli, now_ms));
            }
            return;
        }
        let oldest = self.fast.get(0);
        let newest = self.fast.get(FAST_BUF_SIZE - 1);
        let delta: i64 = newest as i64 - oldest as i64;
        let elapsed: i64 = (FAST_WINDOW as i64) * (self.fast_period_secs as i64);
        let rise = delta * 60;
        let on_threshold = HEAT_ON_SLOPE_MILLI * elapsed;
        let off_threshold = HEAT_OFF_SLOPE_MILLI * elapsed;
        let proposal = match self.current_state {
            HvacState::Idle => {
                if rise >= on_threshold {
                    HvacState::Heating
                } else if rise <= -on_threshold {
                    HvacState::Cooling
                } else {
                    HvacState::Idle
                }
            },
            HvacState::Heating => {
                if rise < off_threshold {
                    HvacState::Idle
                } else {
                    HvacState::Heating
                }
            },
            HvacState::Cooling => {
                if rise > -off_threshold {
                    HvacState::Idle
                } else {
                    HvacState::Cooling
                }
            },
        };
        if proposal != self.current_state {
            let bumped: u8 = if proposal == self.candidate_state {
                self.candidate_count + 1
            } else {
                1
            };
            if bumped >= self.confirm {
                self.current_state = proposal;
                self.state_start_ms = now_ms;
                self.candidate_state = proposal;
                self.candidate_count = 0;
            } else {
                self.candidate_state = proposal;
                self.candidate_count = bumped;
            }
        } else {
            self.candidate_count = 0;
            self.candidate_state = self.current_state;
        }
        proof {
            assert(self@ =~= detect_step(v0, temp_milli, now_ms));
        }
    }

    /// Recording entry point, called once per (slower) recording interval:
    /// appends the current state to the 24-hour history.
    pub fn record(&mut self)
        requires
            old(self).wf(),
        ensures
            final(self).wf(),
            final(self)@ == record_step(old(self)@),
    {
        let s = self.current_state;
        self.history.push(s);
        proof {
            assert(self@ =~= record_step(old(self)@));
        }
    }

    /// Current discrete state.
    pub fn state(&self) -> (s: HvacState)
        ensures
            s == self@.current,
    {
        self.current_state
    }

    /// Seconds the current state has held, wrap-safe on the 32-bit
    /// millisecond clock.
    pub fn state_duration_secs(&self, now_ms: u32) -> (r: u32)
        ensures
            r == wrapped_elapsed_ms(now_ms, self@.state_start_ms) / 1000,
    {
        now_ms.wrapping_sub(self.state_start_ms) / 1000
    }

    /// Number of recorded history samples, saturating at the capacity.
    pub fn history_count(&self) -> (n: usize)
        ensures
            n == self@.history.len(),
    {
        self.history.len()
    }

    /// Run-length statistics over the retained history: per active mode
    /// the total minutes, number of cycles, average and longest cycle, and
    /// the count of cycles shorter than the short-cycle bound; idle runs
    /// are discarded. Also reports the minutes of history represented.
    pub fn stats(&self) -> (r: HvacStats)
        requires
            self.wf(),
        ensures
            stats_match(
                mode_tally(
                    self@.history,
                    HvacState::Heating,
                    self@.record_period_secs as int,
                    self@.short_cycle_mins as int,
                ),
                r.heat,
            ),
            stats_match(
                mode_tally(
                    self@.history,
                    HvacState::Cooling,
                    self@.record_period_secs as int,
                    self@.short_cycle_mins as int,
                ),
                r.cool,
            ),
            r.history_minutes == run_minutes(
                self@.history.len() as int,
                self@.record_period_secs as int,
            ),
    {
        let ghost hist = self@.history;
        let ghost p = self@.record_period_secs as int;
        let ghost sh = self@.short_cycle_mins as int;
        let n = self.history.len();
        let period = self.hist_period_secs;
        let short_mins = self.short_cycle_mins;
        let mut heat = HvacModeStats::default();
        let mut cool = HvacModeStats::default();
        let mut prev_state = HvacState::Idle;
        let mut run_len: u32 = 0;
        let mut first = true;
        let mut i: usize = 0;
        while i < n
            invariant
                self.wf(),
                hist == self@.history,
                p == self@.record_period_secs as int,
                sh == self@.short_cycle_mins as int,
                n == hist.len(),
                period == self@.record_period_secs,
                short_mins == self@.short_cycle_mins,
                i <= n,
                first <==> i == 0,
                heat.avg_cycle_mins == 0,
                cool.avg_cycle_mins == 0,
                first ==> as_tally(heat) == empty_tally(),
                first ==> as_tally(cool) == empty_tally(),
                !first ==> ({
                    let rs = runs_of(hist.take(i as int));
                    &&& rs.len() > 0
                    &&& rs.last().0 == prev_state
                    &&& rs.last().1 == run_len as int
                }),
                !first ==> 1 <= run_len <= i,
                !first ==> as_tally(heat) == tally_runs(
                    runs_of(hist.take(i as int)).drop_last(),
                    HvacState::Heating,
                    p,
                    sh,
                ),
                !first ==> as_tally(cool) == tally_runs(
                    runs_of(hist.take(i as int)).drop_last(),
                    HvacState::Cooling,
                    p,
                    sh,
                ),
                !first ==> heat.total_minutes + run_len * period <= i * period,
                !first ==> cool.total_minutes + run_len * period <= i * period,
                !first ==> heat.cycles <= i - run_len,
                !first ==> cool.cycles <= i - run_len,
                !first ==> heat.short_cycles <= heat.cycles,
                !first ==> cool.short_cycles <= cool.cycles,
                !first ==> heat.longest_cycle_mins <= i * period,
                !first ==> cool.longest_cycle_mins <= i * period,
            decreases n - i,
        {
            let ghost pre = hist.take(i as int);
            let ghost rs = runs_of(pre);
            let s = self.history.get(i);
            proof {
                assert(hist.take(i + 1).drop_last() =~= pre);
                assert(hist.take(i + 1).last() == hist[i as int]);
                assert(i * period + period == (i + 1) * period) by (nonlinear_arith);
            }
            if first || s != prev_state {
                if !first {
                    proof {
                        lemma_run_minutes_bounds(run_len as int, p);
                        lemma_mul_inequality(run_len as int, i as int, period as int);
                        lemma_mul_inequality(i as int, HISTORY_SIZE as int, period as int);
                        lemma_mul_inequality(period as int, MAX_PERIOD_SECS as int, HISTORY_SIZE as int);
                        assert(runs_of(hist.take(i + 1)) =~= rs.push((s, 1int)));
                        assert(rs.push((s, 1int)).drop_last() =~= rs);
                    }
                    Self::close_run(prev_state, run_len, period, short_mins, &mut heat, &mut cool);
                    proof {
                        let rs2 = runs_of(hist.take(i + 1));
                        assert(rs2.drop_last() == rs);
                        lemma_tally_step(rs, HvacState::Heating, p, sh);
                        lemma_tally_step(rs, HvacState::Cooling, p, sh);
                        assert(as_tally(heat) == tally_runs(rs, HvacState::Heating, p, sh));
                        assert(as_tally(cool) == tally_runs(rs, HvacState::Cooling, p, sh));
                    }
                } else {
                    proof {
                        assert(runs_of(hist.take(i + 1)) =~= runs_of(pre).push((s, 1int)));
                        assert(runs_of(pre).push((s, 1int)).drop_last() =~= runs_of(pre));
                        assert(pre =~= Seq::<HvacState>::empty());
                        assert(runs_of(pre) =~= Seq::<(HvacState, int)>::empty());
                        assert(tally_runs(runs_of(pre), HvacState::Heating, p, sh)
                            == empty_tally());
                        assert(tally_runs(runs_of(pre), HvacState::Cooling, p, sh)
                            == empty_tally());
                        assert(as_tally(heat) == empty_tally());
                        assert(as_tally(cool) == empty_tally());
                    }
                }
                prev_state = s;
                run_len = 1;
                first = false;
            } else {
                proof {
                    let rs2 = runs_of(hist.take(i + 1));
                    assert(rs2 =~= rs.update(rs.len() - 1, (s, rs.last().1 + 1)));
                    assert(rs2.drop_last() =~= rs.drop_last());
                    assert(tally_runs(rs2.drop_last(), HvacState::Heating, p, sh) == tally_runs(
                        rs.drop_last(),
                        HvacState::Heating,
                        p,
                        sh,
                    ));
                    assert(tally_runs(rs2.drop_last(), HvacState::Cooling, p, sh) == tally_runs(
                        rs.drop_last(),
                        HvacState::Cooling,
                        p,
                        sh,
                    ));
                    assert(run_len * period + period == (run_len + 1) * period) by (nonlinear_arith);
                }
                run_len = run_len + 1;
            }
            i = i + 1;
        }
        if !first {
            proof {
                lemma_run_minutes_bounds(run_len as int, p);
                lemma_mul_inequality(run_len as int, n as int, period as int);
                lemma_mul_inequality(n as int, HISTORY_SIZE as int, period as int);
                lemma_mul_inequality(period as int, MAX_PERIOD_SECS as int, HISTORY_SIZE as int);
            }
            Self::close_run(prev_state, run_len, period, short_mins, &mut heat, &mut cool);
        }
        proof {
            assert(hist.take(n as int) =~= hist);
            lemma_mul_inequality(n as int, HISTORY_SIZE as int, period as int);
            lemma_mul_inequality(period as int, MAX_PERIOD_SECS as int, HISTORY_SIZE as int);
        }
        if heat.cycles > 0 {
            heat.avg_cycle_mins = heat.total_minutes / heat.cycles;
        }
        if cool.cycles > 0 {
            cool.avg_cycle_mins = cool.total_minutes / cool.cycles;
        }
        let minutes_x60: u64 = (n as u64) * (period as u64) + 30;
        let history_minutes: u32 = (minutes_x60 / 60) as u32;
        HvacStats { heat, cool, history_minutes }
    }

    /// Fold one closed run into the aggregates of its mode; an idle run is
    /// discarded.
    fn close_run(
        state: HvacState,
        run_len_samples: u32,
        period_secs: u32,
        short_cycle_mins: u32,
        heat: &mut HvacModeStats,
        cool: &mut HvacModeStats,
    )
        requires
            1 <= run_len_samples,
            1 <= period_secs,
            run_len_samples * period_secs + 30 <= 0xFFFF_FFFF,
            old(heat).total_minutes + run_len_samples * period_secs <= 0xFFFF_FFFF,
            old(cool).total_minutes + run_len_samples * period_secs <= 0xFFFF_FFFF,
            old(heat).cycles < 0xFFFF_FFFFu32,
            old(cool).cycles < 0xFFFF_FFFFu32,
            old(heat).short_cycles < 0xFFFF_FFFFu32,
            old(cool).short_cycles < 0xFFFF_FFFFu32,
        ensures
            state is Heating ==> as_tally(*final(heat)) == bump_tally(
                as_tally(*old(heat)),
                run_len_samples as int,
                period_secs as int,
                short_cycle_mins as int,
            ) && final(heat).avg_cycle_mins == old(heat).avg_cycle_mins && *final(cool) == *old(
                cool,
            ),
            state is Cooling ==> as_tally(*final(cool)) == bump_tally(
                as_tally(*old(cool)),
                run_len_samples as int,
                period_secs as int,
                short_cycle_mins as int,
            ) && final(cool).avg_cycle_mins == old(cool).avg_cycle_mins && *final(heat) == *old(
                heat,
            ),
            state is Idle ==> *final(heat) == *old(heat) && *final(cool) == *old(cool),
    {
        proof {
            lemma_run_minutes_bounds(run_len_samples as int, period_secs as int);
        }
        let target = match state {
            HvacState::Heating => heat,
            HvacState::Cooling => cool,
            HvacState::Idle => {
                return ;
            },
        };
        let run_mins: u32 = (run_len_samples * period_secs + 30) / 60;
        target.total_minutes = target.total_minutes + run_mins;
        target.cycles = target.cycles + 1;
        if run_mins > target.longest_cycle_mins {
            target.longest_cycle_mins = run_mins;
        }
        if run_mins < short_cycle_mins {
            target.short_cycles = target.short_cycles + 1;
        }
    }
}

/// Law: with confirmation threshold 1, the call on which the slope window
/// first becomes full commits a qualifying transition at once, anchoring
/// the state start time to that call.
pub proof fn lemma_confirm_one_commits(v: DetectorView, temp_milli: i32, now_ms: u32)
    requires
        v.wf(),
        v.confirm == 1,
        v.window.len() == FAST_BUF_SIZE - 1,
        ({
            let w = ring_push(v.window, FAST_BUF_SIZE as nat, temp_milli);
            proposed_state(
                v.current,
                w.last() - w.first(),
                FAST_WINDOW * v.detect_period_secs,
            ) != v.current
        }),
    ensures
        ({
            let w = ring_push(v.window, FAST_BUF_SIZE as nat, temp_milli);
            let proposal = proposed_state(
                v.current,
                w.last() - w.first(),
                FAST_WINDOW * v.detect_period_secs,
            );
            &&& detect_step(v, temp_milli, now_ms).current == proposal
            &&& detect_step(v, temp_milli, now_ms).state_start_ms == now_ms
            &&& detect_step(v, temp_milli, now_ms).candidate_count == 0
        }),
{
}

/// Law: with confirmation threshold `confirm`, a proposal that differs from
/// the current state leaves it unchanged through the first `confirm - 1`
/// consecutive debounce decisions (the candidate count climbing one per
/// decision), and the `confirm`-th decision commits it, anchoring the state
/// start time to that decision.
pub proof fn lemma_confirmation_threshold(
    c: ControlView,
    proposal: HvacState,
    nows: Seq<u32>,
    confirm: u8,
)
    requires
        1 <= confirm,
        c.candidate_count == 0,
        proposal != c.current,
        nows.len() <= confirm,
    ensures
        ({
            let d = debounce_n(c, proposal, nows, confirm);
            if nows.len() < confirm {
                &&& d.current == c.current
                &&& d.state_start_ms == c.state_start_ms
                &&& d.candidate_count == nows.len()
                &&& (nows.len() > 0 ==> d.candidate == proposal)
            } else {
                &&& d.current == proposal
                &&& d.state_start_ms == nows.last()
                &&& d.candidate_count == 0
            }
        }),
    decreases nows.len(),
{
    if nows.len() > 0 {
        lemma_confirmation_threshold(c, proposal, nows.drop_last(), confirm);
    }
}

/// Law: over an all-idle history, the aggregates of both active modes are
/// empty — no cycles, no minutes, no average.
pub proof fn lemma_all_idle_no_cycles(s: Seq<HvacState>, period_secs: int, short_mins: int)
    requires
        forall|i: int| 0 <= i < s.len() ==> s[i] == HvacState::Idle,
    ensures
        mode_tally(s, HvacState::Heating, period_secs, short_mins) == empty_tally(),
        mode_tally(s, HvacState::Cooling, period_secs, short_mins) == empty_tally(),
        s.len() > 0 ==> runs_of(s).len() > 0 && runs_of(s).last().0 == HvacState::Idle,
    decreases s.len(),
{
    if s.len() > 0 {
        lemma_all_idle_no_cycles(s.drop_last(), period_secs, short_mins);
        let pre = runs_of(s.drop_last());
        let rs = runs_of(s);
        if pre.len() > 0 && pre.last().0 == s.last() {
            assert(rs.drop_last() =~= pre.drop_last());
        } else {
            assert(rs.drop_last() =~= pre);
        }
    }
}

} // verus!
