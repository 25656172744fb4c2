//! 24-hour pressure history ring buffer (fixed size, no growth after
//! construction).
//!
//! Stores the local sensor (bme) and the remote service (owm) pressure at
//! 5-minute intervals; 288 samples cover 24 hours. Values are carried in
//! thousandths of a hectopascal so that queries are exact; either source
//! may be absent for a slot (the producer also maps a reading it cannot
//! trust, such as a non-finite one, to an absent value before pushing).

use vstd::prelude::*;

use crate::ring::Ring;
use crate::ring::ring_push;

verus! {

/// How often a new sample is pushed (300 = 5 minutes).
pub const SAMPLE_PERIOD_SECS: u32 = 300;

/// Span the ring covers at that cadence.
pub const WINDOW_SECS: u32 = 86400;

/// Ring size: 24 hours at the 5-minute cadence.
pub const CAPACITY: usize = 288;

/// One slot of the history. Either field may be absent.
#[derive(Clone, Copy, Debug)]
pub struct PressureSample {
    /// Local sensor pressure, thousandths of a hectopascal.
    pub bme_hpa: Option<i32>,
    /// Remote service pressure, thousandths of a hectopascal.
    pub owm_hpa: Option<i32>,
}

impl Default for PressureSample {
    /// A slot with both sources absent.
    fn default() -> (r: Self)
        ensures
            r.bme_hpa is None,
            r.owm_hpa is None,
    {
        PressureSample { bme_hpa: None, owm_hpa: None }
    }
}

/// One channel of a slot sequence: the local values when `owm` is false,
/// the remote ones when it is true.
pub open spec fn channel_seq(s: Seq<PressureSample>, owm: bool) -> Seq<Option<i32>> {
    s.map(
        |i: int, p: PressureSample|
            if owm {
                p.owm_hpa
            } else {
                p.bme_hpa
            },
    )
}

/// The local-sensor channel of a slot sequence.
pub open spec fn bme_channel(s: Seq<PressureSample>) -> Seq<Option<i32>> {
    channel_seq(s, false)
}

/// The remote-service channel of a slot sequence.
pub open spec fn owm_channel(s: Seq<PressureSample>) -> Seq<Option<i32>> {
    channel_seq(s, true)
}

/// The `(index, value)` pairs of the present entries of `vals`, in order;
/// the index is the position within `vals` itself.
pub open spec fn sparse_points(vals: Seq<Option<i32>>) -> Seq<(usize, i32)>
    decreases vals.len(),
{
    if vals.len() == 0 {
        Seq::empty()
    } else {
        let pre = sparse_points(vals.drop_last());
        if vals.last() is Some {
            pre.push((((vals.len() - 1) as usize, vals.last().unwrap())))
        } else {
            pre
        }
    }
}

/// `vals` has a present entry at position `i`.
pub open spec fn present_at(vals: Seq<Option<i32>>, i: int) -> bool {
    0 <= i < vals.len() && vals[i] is Some
}

/// `vals` has at least one present entry.
pub open spec fn has_present(vals: Seq<Option<i32>>) -> bool {
    exists|i: int| present_at(vals, i)
}

/// The present entry of `vals` closest to the end, if any.
pub open spec fn latest_of(vals: Seq<Option<i32>>) -> Option<i32>
    decreases vals.len(),
{
    if vals.len() == 0 {
        None
    } else if vals.last() is Some {
        vals.last()
    } else {
        latest_of(vals.drop_last())
    }
}

/// Sum of `owm - bme` over the slots of `s` where both sources are present.
pub open spec fn both_delta_sum(s: Seq<PressureSample>) -> int
    decreases s.len(),
{
    if s.len() == 0 {
        0
    } else {
        both_delta_sum(s.drop_last()) + (if s.last().bme_hpa is Some && s.last().owm_hpa is Some {
            s.last().owm_hpa.unwrap() - s.last().bme_hpa.unwrap()
        } else {
            0
        })
    }
}

/// Number of slots of `s` where both sources are present.
pub open spec fn both_count(s: Seq<PressureSample>) -> int
    decreases s.len(),
{
    if s.len() == 0 {
        0
    } else {
        both_count(s.drop_last()) + (if s.last().bme_hpa is Some && s.last().owm_hpa is Some {
            1int
        } else {
            0int
        })
    }
}

/// Integer division rounding toward zero, as the executable `/` does.
pub open spec fn div_toward_zero(a: int, b: int) -> int {
    if a >= 0 {
        a / b
    } else {
        -((-a) / b)
    }
}

/// Fixed-capacity history of dual-source pressure samples. The view is the
/// retained slots, oldest first.
pub struct PressureHistory {
    ring: Ring<PressureSample>,
}

impl View for PressureHistory {
    type V = Seq<PressureSample>;

    closed spec fn view(&self) -> Seq<PressureSample> {
        self.ring@
    }
}

impl PressureHistory {
    pub closed spec fn wf(&self) -> bool {
        &&& self.ring.wf()
        &&& self.ring.capacity() == CAPACITY
        &&& self.ring@.len() <= CAPACITY
    }

    /// An empty 24-hour history.
    pub fn new() -> (r: Self)
        ensures
            r.wf(),
            r@ == Seq::<PressureSample>::empty(),
    {
        PressureHistory { ring: Ring::new(CAPACITY, PressureSample::default()) }
    }

    /// Push a new 5-minute sample; either field may be absent. Once 288
    /// slots are held the oldest is overwritten.
    pub fn push(&mut self, bme_hpa: Option<i32>, owm_hpa: Option<i32>)
        requires
            old(self).wf(),
        ensures
            final(self).wf(),
            final(self)@ == ring_push(
                old(self)@,
                CAPACITY as nat,
                PressureSample { bme_hpa, owm_hpa },
            ),
    {
        self.ring.push(PressureSample { bme_hpa, owm_hpa });
    }

    /// Current occupancy, saturating at the capacity.
    pub fn len(&self) -> (n: usize)
        ensures
            n == self@.len(),
    {
        self.ring.len()
    }

    /// Indexed points of one channel for graphing: present slots only, in
    /// oldest-to-newest order, each with its logical position.
    fn series_for(&self, owm: bool) -> (out: Vec<(usize, i32)>)
        requires
            self.wf(),
        ensures
            out@ == sparse_points(channel_seq(self@, owm)),
    {
        let ghost ch = channel_seq(self@, owm);
        let mut out: Vec<(usize, i32)> = Vec::new();
        let n = self.ring.len();
        let mut i: usize = 0;
        while i < n
            invariant
                self.wf(),
                n == self@.len(),
                i <= n,
                ch == channel_seq(self@, owm),
                out@ == sparse_points(ch.take(i as int)),
            decreases n - i,
        {
            let s = self.ring.get(i);
            let v = if owm {
                s.owm_hpa
            } else {
                s.bme_hpa
            };
            if let Some(x) = v {
                out.push((i, x));
            }
            proof {
                assert(ch.take(i + 1).drop_last() =~= ch.take(i as int));
                assert(ch.take(i + 1).last() == ch[i as int]);
            }
            i = i + 1;
        }
        proof {
            assert(ch.take(n as int) =~= ch);
        }
        out
    }

    /// Indexed local-sensor points for graphing; absent slots are skipped.
    pub fn bme_series(&self) -> (out: Vec<(usize, i32)>)
        requires
            self.wf(),
        ensures
            out@ == sparse_points(bme_channel(self@)),
    {
        self.series_for(false)
    }

    /// Indexed remote-service points for graphing; absent slots are skipped.
    pub fn owm_series(&self) -> (out: Vec<(usize, i32)>)
        requires
            self.wf(),
        ensures
            out@ == sparse_points(owm_channel(self@)),
    {
        self.series_for(true)
    }

    /// Minimum and maximum over the present entries of one channel.
    fn min_max_for(&self, owm: bool) -> (r: Option<(i32, i32)>)
        requires
            self.wf(),
        ensures
            r is Some <==> has_present(channel_seq(self@, owm)),
            r is Some ==> forall|k: int|
                present_at(channel_seq(self@, owm), k) ==> r.unwrap().0
                    <= channel_seq(self@, owm)[k].unwrap() <= r.unwrap().1,
            r is Some ==> exists|k: int|
                present_at(channel_seq(self@, owm), k) && channel_seq(self@, owm)[k].unwrap()
                    == r.unwrap().0,
            r is Some ==> exists|k: int|
                present_at(channel_seq(self@, owm), k) && channel_seq(self@, owm)[k].unwrap()
                    == r.unwrap().1,
    {
        let ghost ch = channel_seq(self@, owm);
        let n = self.ring.len();
        let mut found = false;
        let mut lo: i32 = 0;
        let mut hi: i32 = 0;
        let mut i: usize = 0;
        while i < n
            invariant
                self.wf(),
                n == self@.len(),
                i <= n,
                ch == channel_seq(self@, owm),
                found <==> exists|k: int| 0 <= k < i && present_at(ch, k),
                found ==> forall|k: int|
                    0 <= k < i && present_at(ch, k) ==> lo <= ch[k].unwrap() <= hi,
                found ==> exists|k: int| 0 <= k < i && present_at(ch, k) && ch[k].unwrap() == lo,
                found ==> exists|k: int| 0 <= k < i && present_at(ch, k) && ch[k].unwrap() == hi,
            decreases n - i,
        {
            let s = self.ring.get(i);
            let v = if owm {
                s.owm_hpa
            } else {
                s.bme_hpa
            };
            if let Some(x) = v {
                proof {
                    assert(present_at(ch, i as int));
                }
                if !found {
                    lo = x;
                    hi = x;
                    found = true;
                } else {
                    if x < lo {
                        lo = x;
                    }
                    if x > hi {
                        hi = x;
                    }
                }
            }
            i = i + 1;
        }
        if found {
            Some((lo, hi))
        } else {
            None
        }
    }

    /// Minimum and maximum local-sensor pressure over the retained window.
    pub fn bme_min_max(&self) -> (r: Option<(i32, i32)>)
        requires
            self.wf(),
        ensures
            r is Some <==> has_present(bme_channel(self@)),
            r is Some ==> forall|k: int|
                present_at(bme_channel(self@), k) ==> r.unwrap().0
                    <= bme_channel(self@)[k].unwrap() <= r.unwrap().1,
            r is Some ==> exists|k: int|
                present_at(bme_channel(self@), k) && bme_channel(self@)[k].unwrap()
                    == r.unwrap().0,
            r is Some ==> exists|k: int|
                present_at(bme_channel(self@), k) && bme_channel(self@)[k].unwrap()
                    == r.unwrap().1,
    {
        self.min_max_for(false)
    }

    /// Minimum and maximum remote-service pressure over the retained window.
    pub fn owm_min_max(&self) -> (r: Option<(i32, i32)>)
        requires
            self.wf(),
        ensures
            r is Some <==> has_present(owm_channel(self@)),
            r is Some ==> forall|k: int|
                present_at(owm_channel(self@), k) ==> r.unwrap().0
                    <= owm_channel(self@)[k].unwrap() <= r.unwrap().1,
            r is Some ==> exists|k: int|
                present_at(owm_channel(self@), k) && owm_channel(self@)[k].unwrap()
                    == r.unwrap().0,
            r is Some ==> exists|k: int|
                present_at(owm_channel(self@), k) && owm_channel(self@)[k].unwrap()
                    == r.unwrap().1,
    {
        self.min_max_for(true)
    }

    /// Most recent present entry of one channel.
    fn latest_for(&self, owm: bool) -> (r: Option<i32>)
        requires
            self.wf(),
        ensures
            r == latest_of(channel_seq(self@, owm)),
    {
        let ghost ch = channel_seq(self@, owm);
        let n = self.ring.len();
        proof {
            assert(ch.take(n as int) =~= ch);
        }
        let mut k = n;
        while k > 0
            invariant
                self.wf(),
                n == self@.len(),
                k <= n,
                ch == channel_seq(self@, owm),
                latest_of(ch) == latest_of(ch.take(k as int)),
            decreases k,
        {
            let s = self.ring.get(k - 1);
            let v = if owm {
                s.owm_hpa
            } else {
                s.bme_hpa
            };
            proof {
                assert(ch.take(k as int).last() == ch[k - 1]);
                assert(ch.take(k as int).drop_last() =~= ch.take(k - 1));
            }
            if let Some(x) = v {
                return Some(x);
            }
            k = k - 1;
        }
        proof {
            assert(ch.take(0) =~= Seq::<Option<i32>>::empty());
        }
        None
    }

    /// Most recent local-sensor reading, if the sensor has ever reported.
    pub fn latest_bme(&self) -> (r: Option<i32>)
        requires
            self.wf(),
        ensures
            r == latest_of(bme_channel(self@)),
    {
        self.latest_for(false)
    }

    /// Most recent remote-service reading, if the service has ever reported.
    pub fn latest_owm(&self) -> (r: Option<i32>)
        requires
            self.wf(),
        ensures
            r == latest_of(owm_channel(self@)),
    {
        self.latest_for(true)
    }

    /// Mean of `owm - bme` over the newest `n` slots where both sources are
    /// present (fewer when the ring holds fewer), rounded toward zero, in
    /// thousandths of a hectopascal; absent when no slot qualifies.
    pub fn delta_owm_bme_recent(&self, n: usize) -> (r: Option<i64>)
        requires
            self.wf(),
        ensures
            ({
                let len = self@.len() as int;
                let take = if n < self@.len() { n as int } else { len };
                let w = self@.subrange(len - take, len);
                &&& (r is None <==> both_count(w) == 0)
                &&& (both_count(w) > 0 ==> r == Some(
                    div_toward_zero(both_delta_sum(w), both_count(w)) as i64,
                ))
            }),
    {
        let len = self.ring.len();
        let take = if n < len {
            n
        } else {
            len
        };
        let start = len - take;
        let mut sum: i64 = 0;
        let mut cnt: u64 = 0;
        let mut i = start;
        while i < len
            invariant
                self.wf(),
                len == self@.len(),
                start == len - take,
                take <= len,
                start <= i <= len,
                sum == both_delta_sum(self@.subrange(start as int, i as int)),
                cnt == both_count(self@.subrange(start as int, i as int)),
                cnt <= i - start,
                -0x1_0000_0000_0000i64 * (i - start) <= sum <= 0x1_0000_0000_0000i64 * (i - start),
            decreases len - i,
        {
            let ghost pre = self@.subrange(start as int, i as int);
            let s = self.ring.get(i);
            if s.bme_hpa.is_some() && s.owm_hpa.is_some() {
                let b = match s.bme_hpa {
                    Some(b) => b,
                    None => 0,
                };
                let o = match s.owm_hpa {
                    Some(o) => o,
                    None => 0,
                };
                sum = sum + (o as i64 - b as i64);
                cnt = cnt + 1;
            }
            proof {
                assert(self@.subrange(start as int, i + 1).drop_last() =~= pre);
                assert(self@.subrange(start as int, i + 1).last() == self@[i as int]);
            }
            i = i + 1;
        }
        if cnt == 0 {
            None
        } else {
            let m: i64 = if sum >= 0 {
                ((sum as u64) / cnt) as i64
            } else {
                -((((-sum) as u64) / cnt) as i64)
            };
            Some(m)
        }
    }
}

} // verus!
