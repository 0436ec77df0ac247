//! Signal quality of the receivers behind a device, and the fail-safe
//! hold counter.
//!
//! Every receiver that feeds channel data has one entry. The entries are
//! ranked: receivers that can send full-range telemetry come first, and
//! within each of the two groups the one with the stronger signal, the
//! lower index where two are as strong. Ticks in which every receiver lost
//! its frame count towards a hold.

use vstd::prelude::*;
use crate::device::{DeviceId, DeviceInfo};
use crate::flags::Flags;

verus! {

/// Consecutive frame losses that count as a hold unless told otherwise.
pub const DEFAULT_HOLD_COUNT: u8 = 45;

/// Weakest signal that a receiver can report, and the dBm of a receiver
/// that has reported none.
pub const WORST_DBM: i8 = -128;

/// Most receivers that a device on eight buses tracks.
pub const MAX_RCVRS_LIMIT: usize = 16;

/// Which RSSI formats a receiver has reported so far.
#[derive(Clone, Copy, PartialEq, Eq, Structural, Debug)]
pub enum Received {
    Neither,
    Dbm,
    Pct,
    Both,
}

impl Received {
    /// The indicator once a dBm value has been reported.
    pub open spec fn spec_with_dbm(self) -> Received {
        match self {
            Received::Neither => Received::Dbm,
            Received::Dbm => Received::Dbm,
            Received::Pct => Received::Both,
            Received::Both => Received::Both,
        }
    }

    /// The indicator once a percentage has been reported.
    pub open spec fn spec_with_pct(self) -> Received {
        match self {
            Received::Neither => Received::Pct,
            Received::Dbm => Received::Both,
            Received::Pct => Received::Pct,
            Received::Both => Received::Both,
        }
    }

    /// The indicator once a dBm value has been reported.
    pub fn with_dbm(self) -> (r: Received)
        ensures
            r == self.spec_with_dbm(),
    {
        match self {
            Received::Neither => Received::Dbm,
            Received::Dbm => Received::Dbm,
            Received::Pct => Received::Both,
            Received::Both => Received::Both,
        }
    }

    /// The indicator once a percentage has been reported.
    pub fn with_pct(self) -> (r: Received)
        ensures
            r == self.spec_with_pct(),
    {
        match self {
            Received::Neither => Received::Pct,
            Received::Dbm => Received::Both,
            Received::Pct => Received::Pct,
            Received::Both => Received::Both,
        }
    }
}

/// What is known of one physical receiver.
#[derive(Clone, Copy, PartialEq, Eq, Structural, Debug)]
pub struct ReceiverEntry {
    /// SRXL device ID of the receiver
    pub device_id: DeviceId,
    /// Supports 8 buses, with each bit corresponding to busIndex (bit 0 = bus 0, bit 7 = bus 7)
    pub bus_bits: u8,
    /// Info bits reported during handshake, see `DeviceInfo`
    pub info: u8,
    /// Which of dBm and percent the receiver has reported
    pub rssi_received: Received,
    /// Latest RSSI dBm value reported by receiver (negative, varies with receiver type)
    pub rssi_dbm: i8,
    /// Latest RSSI percent range estimate reported by receiver (0-100)
    pub rssi_pct: i8,
    /// Latest number of fades reported for a given receiver
    pub fades: u16,
    /// Latest channel mask for channels provided in channel data packet (0 during fade)
    pub channel_mask: u32,
}

impl ReceiverEntry {
    /// The entry of a receiver that has just been found on bus `bus_bits`
    /// and has reported nothing yet.
    pub open spec fn spec_fresh(device_id: DeviceId, bus_bits: u8, info: u8) -> ReceiverEntry {
        ReceiverEntry {
            device_id,
            bus_bits,
            info,
            rssi_received: Received::Neither,
            rssi_dbm: WORST_DBM,
            rssi_pct: 0,
            fades: 0,
            channel_mask: 0,
        }
    }

    /// The entry of a receiver that has just been found on bus `bus_bits`
    /// and has reported nothing yet.
    pub fn fresh(device_id: DeviceId, bus_bits: u8, info: u8) -> (e: ReceiverEntry)
        ensures
            e == Self::spec_fresh(device_id, bus_bits, info),
    {
        ReceiverEntry {
            device_id,
            bus_bits,
            info,
            rssi_received: Received::Neither,
            rssi_dbm: WORST_DBM,
            rssi_pct: 0,
            fades: 0,
            channel_mask: 0,
        }
    }

    /// Whether the receiver can send full-range telemetry.
    pub open spec fn spec_full_range(self) -> bool {
        self.info & 0x02 == 0x02
    }

    /// Whether the receiver can send full-range telemetry.
    pub fn full_range(&self) -> (r: bool)
        ensures
            r == self.spec_full_range(),
    {
        self.info & 0x02 == 0x02
    }

    /// The capability bits as flags.
    pub fn info_flags(&self) -> (f: Flags<DeviceInfo>)
        ensures
            f.0 == self.info,
    {
        Flags::new(self.info)
    }

    /// The entry after a report of channel data. A negative RSSI is a dBm
    /// value, any other a percentage; the fade count and the channel mask
    /// are taken as reported.
    pub open spec fn spec_reported(self, rssi: i8, fades: u16, mask: u32) -> ReceiverEntry {
        if rssi < 0 {
            ReceiverEntry {
                rssi_received: self.rssi_received.spec_with_dbm(),
                rssi_dbm: rssi,
                fades,
                channel_mask: mask,
                ..self
            }
        } else {
            ReceiverEntry {
                rssi_received: self.rssi_received.spec_with_pct(),
                rssi_pct: rssi,
                fades,
                channel_mask: mask,
                ..self
            }
        }
    }

    /// The entry after a report of channel data.
    pub fn reported(&self, rssi: i8, fades: u16, mask: u32) -> (e: ReceiverEntry)
        ensures
            e == self.spec_reported(rssi, fades, mask),
    {
        if rssi < 0 {
            ReceiverEntry {
                device_id: self.device_id,
                bus_bits: self.bus_bits,
                info: self.info,
                rssi_received: self.rssi_received.with_dbm(),
                rssi_dbm: rssi,
                rssi_pct: self.rssi_pct,
                fades,
                channel_mask: mask,
            }
        } else {
            ReceiverEntry {
                device_id: self.device_id,
                bus_bits: self.bus_bits,
                info: self.info,
                rssi_received: self.rssi_received.with_pct(),
                rssi_dbm: self.rssi_dbm,
                rssi_pct: rssi,
                fades,
                channel_mask: mask,
            }
        }
    }
}

/// Whether entry `a` ranks before entry `b`: a receiver with full-range
/// telemetry before one without; of two alike in that, the one with the
/// higher dBm; of two alike in both, the one with the lower index.
pub open spec fn ranks_before(entries: Seq<ReceiverEntry>, a: int, b: int) -> bool {
    let fa = entries[a].spec_full_range();
    let fb = entries[b].spec_full_range();
    if fa != fb {
        fa
    } else if entries[a].rssi_dbm != entries[b].rssi_dbm {
        entries[a].rssi_dbm > entries[b].rssi_dbm
    } else {
        a < b
    }
}

/// Whether the index `x` stands somewhere in `sorted`.
pub open spec fn occurs(sorted: Seq<usize>, x: int) -> bool {
    exists|k: int| 0 <= k < sorted.len() && #[trigger] sorted[k] == x
}

/// Whether `sorted` is the ranking of `entries`, with `insert` the number
/// of full-range receivers at its head: every index occurs in it, each
/// before all that it ranks before.
pub open spec fn ranking_ok(entries: Seq<ReceiverEntry>, sorted: Seq<usize>, insert: int) -> bool {
    &&& sorted.len() == entries.len()
    &&& 0 <= insert <= sorted.len()
    &&& forall|k: int| 0 <= k < sorted.len() ==> (#[trigger] sorted[k]) < entries.len()
    &&& forall|a: int, b: int|
        0 <= a < b < sorted.len() ==> ranks_before(
            entries,
            #[trigger] sorted[a] as int,
            #[trigger] sorted[b] as int,
        )
    &&& forall|k: int|
        0 <= k < sorted.len() ==> ((k < insert) <==> entries[(#[trigger] sorted[k]) as int].spec_full_range())
    &&& forall|x: int| 0 <= x < entries.len() ==> #[trigger] occurs(sorted, x)
}

/// Two rankings of the same entries agree on their first `k` places.
proof fn lemma_rankings_agree(
    entries: Seq<ReceiverEntry>,
    s1: Seq<usize>,
    i1: int,
    s2: Seq<usize>,
    i2: int,
    k: int,
)
    requires
        ranking_ok(entries, s1, i1),
        ranking_ok(entries, s2, i2),
        0 <= k <= entries.len(),
    ensures
        forall|j: int| 0 <= j < k ==> s1[j] == s2[j],
    decreases k,
{
    if k > 0 {
        lemma_rankings_agree(entries, s1, i1, s2, i2, k - 1);
        let m = k - 1;
        let x = s1[m];
        let y = s2[m];
        assert(x < entries.len());
        assert(y < entries.len());
        assert(occurs(s2, x as int));
        assert(occurs(s1, y as int));
        let p = choose|p: int| 0 <= p < s2.len() && #[trigger] s2[p] == x as int;
        let q = choose|q: int| 0 <= q < s1.len() && #[trigger] s1[q] == y as int;
        if p < m {
            assert(s1[p] == s2[p]);
            assert(ranks_before(entries, s1[p] as int, s1[m] as int));
        }
        if q < m {
            assert(s1[q] == s2[q]);
            assert(ranks_before(entries, s2[q] as int, s2[m] as int));
        }
        if p > m && q > m {
            assert(ranks_before(entries, s2[m] as int, s2[p] as int));
            assert(ranks_before(entries, s1[m] as int, s1[q] as int));
        }
    }
}

/// The entries have one ranking and no other: two rankings of the same
/// entries are the same sequence, with the same number of full-range
/// receivers at the head.
pub proof fn law_ranking_unique(
    entries: Seq<ReceiverEntry>,
    s1: Seq<usize>,
    i1: int,
    s2: Seq<usize>,
    i2: int,
)
    requires
        ranking_ok(entries, s1, i1),
        ranking_ok(entries, s2, i2),
    ensures
        s1 == s2,
        i1 == i2,
{
    lemma_rankings_agree(entries, s1, i1, s2, i2, entries.len() as int);
    assert(s1 =~= s2);
    if i1 < i2 {
        assert(entries[s1[i1] as int].spec_full_range());
    }
    if i2 < i1 {
        assert(entries[s2[i2] as int].spec_full_range());
    }
}

/// The best-ranked receiver is outranked by none: every other receiver
/// has no full-range telemetry where it has none, and among those alike in
/// that no stronger signal.
pub proof fn law_first_is_best(entries: Seq<ReceiverEntry>, sorted: Seq<usize>, insert: int, i: int)
    requires
        ranking_ok(entries, sorted, insert),
        0 <= i < entries.len(),
    ensures
        !ranks_before(entries, i, sorted[0] as int),
{
    assert(occurs(sorted, i));
    let k = choose|k: int| 0 <= k < sorted.len() && #[trigger] sorted[k] == i;
    if k > 0 {
        assert(ranks_before(entries, sorted[0] as int, sorted[k] as int));
    }
}

/// The strongest dBm among `entries`, and the weakest possible where there
/// are none.
pub open spec fn best_dbm(entries: Seq<ReceiverEntry>) -> i8
    decreases entries.len(),
{
    if entries.len() == 0 {
        WORST_DBM
    } else {
        let rest = best_dbm(entries.drop_last());
        if entries.last().rssi_dbm > rest {
            entries.last().rssi_dbm
        } else {
            rest
        }
    }
}

/// The highest percentage among `entries`, and zero where there are none
/// or none is positive.
pub open spec fn best_pct(entries: Seq<ReceiverEntry>) -> i8
    decreases entries.len(),
{
    if entries.len() == 0 {
        0
    } else {
        let rest = best_pct(entries.drop_last());
        if entries.last().rssi_pct > rest {
            entries.last().rssi_pct
        } else {
            rest
        }
    }
}

/// The best dBm is the dBm of a receiver, and no receiver has a stronger
/// one.
pub proof fn law_best_dbm(entries: Seq<ReceiverEntry>)
    ensures
        forall|i: int| 0 <= i < entries.len() ==> (#[trigger] entries[i]).rssi_dbm <= best_dbm(entries),
        entries.len() > 0 ==> exists|i: int|
            0 <= i < entries.len() && (#[trigger] entries[i]).rssi_dbm == best_dbm(entries),
    decreases entries.len(),
{
    if entries.len() > 0 {
        let rest = entries.drop_last();
        law_best_dbm(rest);
        assert forall|i: int| 0 <= i < entries.len() implies (#[trigger] entries[i]).rssi_dbm
            <= best_dbm(entries) by {
            if i < rest.len() {
                assert(rest[i] == entries[i]);
            }
        }
        if entries.last().rssi_dbm > best_dbm(rest) || rest.len() == 0 {
            assert(entries[entries.len() - 1].rssi_dbm == best_dbm(entries));
        } else {
            let i = choose|i: int| 0 <= i < rest.len() && (#[trigger] rest[i]).rssi_dbm == best_dbm(rest);
            assert(entries[i] == rest[i]);
        }
    }
}

/// The counters of the fail-safe hold.
#[derive(Clone, Copy, PartialEq, Eq, Structural, Debug)]
pub struct HoldCounters {
    /// Frame losses still to come before the run counts as a hold
    pub loss_countdown: u8,
    /// Consecutive frame losses required to count as hold
    pub loss_hold_count: u8,
    /// Frame losses that no hold has taken up
    pub frame_losses: u16,
    /// Holds so far
    pub holds: u16,
}

impl HoldCounters {
    /// The counters are in step: the threshold is at least one, and the
    /// countdown is between one and the threshold.
    pub open spec fn wf(self) -> bool {
        1 <= self.loss_countdown <= self.loss_hold_count
    }

    /// Whether a tick turns the run of losses into a hold: it is a loss,
    /// and the last that the countdown waited for.
    pub open spec fn tick_is_hold(self, is_fade: bool) -> bool {
        is_fade && self.loss_countdown <= 1
    }

    /// The counters after one tick. A tick with a good frame starts the
    /// countdown again. A tick in which every receiver lost its frame counts
    /// one frame loss and takes one off the countdown; when that reaches
    /// zero, the losses of the run are taken back, one hold is counted in
    /// their place, and the countdown starts again. Both counts stop at
    /// their largest value.
    pub open spec fn after_tick(self, is_fade: bool) -> HoldCounters {
        if !is_fade {
            HoldCounters { loss_countdown: self.loss_hold_count, ..self }
        } else {
            let counted: int = if self.frame_losses < u16::MAX {
                self.frame_losses + 1
            } else {
                self.frame_losses as int
            };
            if self.loss_countdown <= 1 {
                HoldCounters {
                    loss_countdown: self.loss_hold_count,
                    loss_hold_count: self.loss_hold_count,
                    frame_losses: if counted >= self.loss_hold_count {
                        (counted - self.loss_hold_count) as u16
                    } else {
                        0
                    },
                    holds: if self.holds < u16::MAX {
                        (self.holds + 1) as u16
                    } else {
                        self.holds
                    },
                }
            } else {
                HoldCounters {
                    loss_countdown: (self.loss_countdown - 1) as u8,
                    frame_losses: counted as u16,
                    ..self
                }
            }
        }
    }

    /// The counters after `n` ticks in a row in which every receiver lost
    /// its frame.
    pub open spec fn after_fades(self, n: nat) -> HoldCounters
        decreases n,
    {
        if n == 0 {
            self
        } else {
            self.after_fades((n - 1) as nat).after_tick(true)
        }
    }

    /// The counters after one tick.
    pub fn tick(&self, is_fade: bool) -> (r: HoldCounters)
        ensures
            r == self.after_tick(is_fade),
            self.wf() ==> r.wf(),
    {
        if !is_fade {
            return HoldCounters {
                loss_countdown: self.loss_hold_count,
                loss_hold_count: self.loss_hold_count,
                frame_losses: self.frame_losses,
                holds: self.holds,
            };
        }
        let counted: u16 = if self.frame_losses < u16::MAX {
            self.frame_losses + 1
        } else {
            self.frame_losses
        };
        if self.loss_countdown <= 1 {
            HoldCounters {
                loss_countdown: self.loss_hold_count,
                loss_hold_count: self.loss_hold_count,
                frame_losses: if counted >= self.loss_hold_count as u16 {
                    counted - self.loss_hold_count as u16
                } else {
                    0
                },
                holds: if self.holds < u16::MAX {
                    self.holds + 1
                } else {
                    self.holds
                },
            }
        } else {
            HoldCounters {
                loss_countdown: self.loss_countdown - 1,
                loss_hold_count: self.loss_hold_count,
                frame_losses: counted,
                holds: self.holds,
            }
        }
    }
}

/// A run of frame losses that is shorter than the threshold counts no
/// hold: after `k` losses from a fresh countdown, with `k` below the
/// threshold, the holds are as they were and the countdown has `k` less.
pub proof fn law_short_run_counts_no_hold(c: HoldCounters, k: nat)
    requires
        c.wf(),
        c.loss_countdown == c.loss_hold_count,
        k < c.loss_hold_count,
    ensures
        c.after_fades(k).holds == c.holds,
        c.after_fades(k).loss_hold_count == c.loss_hold_count,
        c.after_fades(k).loss_countdown == c.loss_hold_count - k,
        c.after_fades(k).after_tick(false).holds == c.holds,
        c.after_fades(k).after_tick(false).loss_countdown == c.loss_hold_count,
    decreases k,
{
    if k > 0 {
        law_short_run_counts_no_hold(c, (k - 1) as nat);
    }
}

/// A run of frame losses as long as the threshold counts exactly one hold
/// and starts the countdown again: after that many losses from a fresh
/// countdown there is one hold more, none before the last of them, and the
/// countdown is back at the threshold.
pub proof fn law_full_run_counts_one_hold(c: HoldCounters)
    requires
        c.wf(),
        c.loss_countdown == c.loss_hold_count,
        c.holds < u16::MAX,
    ensures
        c.after_fades(c.loss_hold_count as nat).holds == c.holds + 1,
        c.after_fades(c.loss_hold_count as nat).loss_countdown == c.loss_hold_count,
        c.after_fades((c.loss_hold_count - 1) as nat).holds == c.holds,
        c.after_fades((c.loss_hold_count - 1) as nat).tick_is_hold(true),
{
    law_short_run_counts_no_hold(c, (c.loss_hold_count - 1) as nat);
}

/// The receivers behind a device, their ranking, and the hold counters.
#[derive(Debug)]
pub struct ReceiverInfo {
    /// Stats for each receiver, filled when channel data is received
    pub rcvr_entry: Vec<ReceiverEntry>,
    /// Indices into `rcvr_entry`, best receiver first
    pub rcvr_sorted_idx: Vec<usize>,
    /// Index into the ranking where the receivers without full-range
    /// telemetry start
    pub rcvr_sort_insert: usize,
    /// Most receivers that are tracked: two for each bus
    pub max_rcvrs: usize,
    /// Buses on which a receiver was found, one bit each
    pub rx_bus_bits: u8,
    pub best_rssi_dbm: i8,
    pub best_rssi_pct: i8,
    /// Reset to the hold count when a frame is good, and decremented for
    /// each consecutive frame loss
    pub loss_countdown: u8,
    /// Consecutive frame losses required to count as hold
    pub loss_hold_count: u8,
    /// Incremented each time all receivers are in frame loss; the losses
    /// of a run that became a hold are taken back
    pub frame_losses: u16,
    /// Incremented each time a run of frame losses reaches the hold count
    pub holds: u16,
    /// Receiver that answers telemetry requests
    pub telem_rcvr_idx: usize,
    /// Receiver that was told to enter bind mode
    pub bind_rcvr_idx: usize,
}

/// The same name, as the statistics see it.
pub type ReceiverStats = ReceiverInfo;

/// Computes the ranking of `entries`.
fn rank(entries: &Vec<ReceiverEntry>) -> (r: (Vec<usize>, usize))
    ensures
        ranking_ok(entries@, r.0@, r.1 as int),
{
    let n = entries.len();
    let mut sorted: Vec<usize> = Vec::new();
    let mut ins: usize = 0;
    let mut i: usize = 0;
    while i < n
        invariant
            i <= n,
            n == entries.len(),
            sorted.len() == i,
            ins <= i,
            forall|k: int| 0 <= k < i ==> (#[trigger] sorted@[k]) < i,
            forall|a: int, b: int|
                0 <= a < b < i ==> ranks_before(
                    entries@,
                    #[trigger] sorted@[a] as int,
                    #[trigger] sorted@[b] as int,
                ),
            forall|k: int|
                0 <= k < i ==> ((k < ins) <==> entries@[(#[trigger] sorted@[k]) as int].spec_full_range()),
            forall|x: int| 0 <= x < i ==> #[trigger] occurs(sorted@, x),
        decreases n - i,
    {
        let mut p: usize = 0;
        while p < i && goes_before(entries, sorted[p], i)
            invariant
                p <= i,
                i < n,
                n == entries.len(),
                sorted.len() == i,
                forall|k: int| 0 <= k < i ==> (#[trigger] sorted@[k]) < i,
                forall|q: int| 0 <= q < p ==> ranks_before(entries@, (#[trigger] sorted@[q]) as int, i as int),
            decreases i - p,
        {
            p += 1;
        }
        let ghost before = sorted@;
        let is_full = entries[i].full_range();
        sorted.insert(p, i);
        proof {
            let after = sorted@;
            assert(after == before.insert(p as int, i));
            assert forall|k: int| 0 <= k < i + 1 implies (#[trigger] after[k]) < i + 1 by {
                if k < p {
                    assert(after[k] == before[k]);
                } else if k > p {
                    assert(after[k] == before[k - 1]);
                }
            }
            assert forall|a: int, b: int| 0 <= a < b < i + 1 implies ranks_before(
                entries@,
                #[trigger] after[a] as int,
                #[trigger] after[b] as int,
            ) by {
                if b < p {
                    assert(after[a] == before[a] && after[b] == before[b]);
                } else if b == p {
                    assert(after[a] == before[a]);
                } else if a < p {
                    assert(after[a] == before[a] && after[b] == before[b - 1]);
                } else if a == p {
                    assert(after[b] == before[b - 1]);
                    assert(before[p as int] < i);
                    assert(ranks_before(entries@, i as int, before[p as int] as int));
                    if b - 1 > p {
                        assert(ranks_before(entries@, before[p as int] as int, before[b - 1] as int));
                    }
                } else {
                    assert(after[a] == before[a - 1] && after[b] == before[b - 1]);
                }
            }
            let ins2: int = if is_full {
                ins + 1
            } else {
                ins as int
            };
            if is_full {
                if p > ins {
                    assert(ranks_before(entries@, before[ins as int] as int, i as int));
                }
            } else {
                if p < ins {
                    assert(before[p as int] < i);
                    assert(entries@[before[p as int] as int].spec_full_range());
                }
            }
            assert forall|k: int| 0 <= k < i + 1 implies ((k < ins2) <==> entries@[(
            #[trigger] after[k]) as int].spec_full_range()) by {
                if k < p {
                    assert(after[k] == before[k]);
                } else if k > p {
                    assert(after[k] == before[k - 1]);
                }
            }
            assert forall|x: int| 0 <= x < i + 1 implies #[trigger] occurs(after, x) by {
                if x == i {
                    assert(after[p as int] == x);
                } else {
                    assert(occurs(before, x));
                    let k0 = choose|k: int| 0 <= k < before.len() && #[trigger] before[k] == x;
                    if k0 < p {
                        assert(after[k0] == x);
                    } else {
                        assert(after[k0 + 1] == x);
                    }
                }
            }
        }
        if is_full {
            ins += 1;
        }
        i += 1;
    }
    (sorted, ins)
}

/// Whether entry `a` ranks before entry `b`.
fn goes_before(entries: &Vec<ReceiverEntry>, a: usize, b: usize) -> (r: bool)
    requires
        a < entries.len(),
        b < entries.len(),
    ensures
        r == ranks_before(entries@, a as int, b as int),
{
    let fa = entries[a].full_range();
    let fb = entries[b].full_range();
    if fa != fb {
        fa
    } else if entries[a].rssi_dbm != entries[b].rssi_dbm {
        entries[a].rssi_dbm > entries[b].rssi_dbm
    } else {
        a < b
    }
}

/// Finds the strongest dBm and the highest percentage among `entries`.
fn best_of(entries: &Vec<ReceiverEntry>) -> (r: (i8, i8))
    ensures
        r.0 == best_dbm(entries@),
        r.1 == best_pct(entries@),
{
    let mut dbm: i8 = WORST_DBM;
    let mut pct: i8 = 0;
    let mut i: usize = 0;
    while i < entries.len()
        invariant
            i <= entries.len(),
            dbm == best_dbm(entries@.take(i as int)),
            pct == best_pct(entries@.take(i as int)),
        decreases entries.len() - i,
    {
        proof {
            let next = entries@.take(i as int + 1);
            assert(next.drop_last() =~= entries@.take(i as int));
            assert(next.last() == entries@[i as int]);
        }
        if entries[i].rssi_dbm > dbm {
            dbm = entries[i].rssi_dbm;
        }
        if entries[i].rssi_pct > pct {
            pct = entries[i].rssi_pct;
        }
        i += 1;
    }
    assert(entries@.take(i as int) =~= entries@);
    (dbm, pct)
}

impl ReceiverInfo {
    /// Number of receivers that are tracked.
    pub open spec fn spec_rcvr_count(&self) -> nat {
        self.rcvr_entry@.len()
    }

    /// The hold counters.
    pub open spec fn counters(&self) -> HoldCounters {
        HoldCounters {
            loss_countdown: self.loss_countdown,
            loss_hold_count: self.loss_hold_count,
            frame_losses: self.frame_losses,
            holds: self.holds,
        }
    }

    /// The tracker is consistent: no more receivers than there is room
    /// for, the ranking and the best values match the entries, the hold
    /// counters are in step, and the two selected receivers exist once
    /// there is a receiver at all.
    pub open spec fn wf(&self) -> bool {
        &&& self.rcvr_entry@.len() <= self.max_rcvrs <= MAX_RCVRS_LIMIT
        &&& ranking_ok(self.rcvr_entry@, self.rcvr_sorted_idx@, self.rcvr_sort_insert as int)
        &&& self.best_rssi_dbm == best_dbm(self.rcvr_entry@)
        &&& self.best_rssi_pct == best_pct(self.rcvr_entry@)
        &&& self.counters().wf()
        &&& self.rcvr_entry@.len() > 0 ==> self.telem_rcvr_idx < self.rcvr_entry@.len()
            && self.bind_rcvr_idx < self.rcvr_entry@.len()
        &&& self.rcvr_entry@.len() == 0 ==> self.telem_rcvr_idx == 0 && self.bind_rcvr_idx == 0
    }

    /// A tracker for a device with `num_buses` buses: room for two
    /// receivers on each, no receiver yet, and the default hold count.
    pub fn new(num_buses: usize) -> (r: Self)
        requires
            1 <= num_buses <= 8,
        ensures
            r.wf(),
            r.rcvr_entry@.len() == 0,
            r.max_rcvrs == 2 * num_buses,
            r.rx_bus_bits == 0,
            r.counters() == (HoldCounters {
                loss_countdown: DEFAULT_HOLD_COUNT,
                loss_hold_count: DEFAULT_HOLD_COUNT,
                frame_losses: 0,
                holds: 0,
            }),
    {
        ReceiverInfo {
            rcvr_entry: Vec::new(),
            rcvr_sorted_idx: Vec::new(),
            rcvr_sort_insert: 0,
            max_rcvrs: 2 * num_buses,
            rx_bus_bits: 0,
            best_rssi_dbm: WORST_DBM,
            best_rssi_pct: 0,
            loss_countdown: DEFAULT_HOLD_COUNT,
            loss_hold_count: DEFAULT_HOLD_COUNT,
            frame_losses: 0,
            holds: 0,
            telem_rcvr_idx: 0,
            bind_rcvr_idx: 0,
        }
    }

    /// Number of receivers that are tracked.
    pub fn rcvr_count(&self) -> (n: usize)
        ensures
            n == self.spec_rcvr_count(),
    {
        self.rcvr_entry.len()
    }

    /// The index of the first entry whose device id is `id`, if there is one.
    pub fn find(&self, id: DeviceId) -> (r: Option<usize>)
        ensures
            match r {
                Some(i) => i < self.rcvr_entry@.len() && self.rcvr_entry@[i as int].device_id == id
                    && forall|j: int| 0 <= j < i ==> (#[trigger] self.rcvr_entry@[j]).device_id != id,
                None => forall|j: int|
                    0 <= j < self.rcvr_entry@.len() ==> (#[trigger] self.rcvr_entry@[j]).device_id
                        != id,
            },
    {
        let mut i: usize = 0;
        while i < self.rcvr_entry.len()
            invariant
                i <= self.rcvr_entry.len(),
                forall|j: int| 0 <= j < i ==> (#[trigger] self.rcvr_entry@[j]).device_id != id,
            decreases self.rcvr_entry.len() - i,
        {
            if self.rcvr_entry[i].device_id.0 == id.0 {
                return Some(i);
            }
            i += 1;
        }
        None
    }

    /// Brings the ranking and the best values in line with the entries.
    fn refresh(&mut self)
        requires
            old(self).rcvr_entry@.len() <= old(self).max_rcvrs <= MAX_RCVRS_LIMIT,
            old(self).counters().wf(),
            old(self).rcvr_entry@.len() > 0 ==> old(self).telem_rcvr_idx < old(self).rcvr_entry@.len() && old(self).bind_rcvr_idx < old(self).rcvr_entry@.len(),
            old(self).rcvr_entry@.len() == 0 ==> old(self).telem_rcvr_idx == 0 && old(self).bind_rcvr_idx == 0,
        ensures
            final(self).wf(),
            final(self).rcvr_entry@ == old(self).rcvr_entry@,
            final(self).max_rcvrs == old(self).max_rcvrs,
            final(self).rx_bus_bits == old(self).rx_bus_bits,
            final(self).counters() == old(self).counters(),
            final(self).telem_rcvr_idx == old(self).telem_rcvr_idx,
            final(self).bind_rcvr_idx == old(self).bind_rcvr_idx,
    {
        let (sorted, ins) = rank(&self.rcvr_entry);
        let (dbm, pct) = best_of(&self.rcvr_entry);
        self.rcvr_sorted_idx = sorted;
        self.rcvr_sort_insert = ins;
        self.best_rssi_dbm = dbm;
        self.best_rssi_pct = pct;
    }

    /// Whether `post` is the tracker `self` after a receiver announced
    /// itself on bus `bus_index`.
    ///
    /// Only a receiver or remote receiver on one of the eight buses is
    /// taken: any other id or bus changes nothing. A receiver that is
    /// tracked already gets the bus added to its bus bits. A new one gets a
    /// fresh entry at the end, unless the tracker is full, which changes
    /// nothing. The hold counters and the two selected receivers stay.
    pub open spec fn receiver_added(self, post: Self, device_id: DeviceId, bus_index: u8, info: u8) -> bool {
        &&& post.wf()
        &&& post.max_rcvrs == self.max_rcvrs
        &&& post.counters() == self.counters()
        &&& post.telem_rcvr_idx == self.telem_rcvr_idx
        &&& post.bind_rcvr_idx == self.bind_rcvr_idx
        &&& if !device_id.spec_is_receiver() || bus_index >= 8 {
            post.rcvr_entry@ == self.rcvr_entry@ && post.rx_bus_bits == self.rx_bus_bits
        } else {
            match self.spec_find(device_id) {
                Some(i) => post.rcvr_entry@ == self.rcvr_entry@.update(
                    i,
                    ReceiverEntry {
                        bus_bits: self.rcvr_entry@[i].bus_bits | (1u8 << bus_index),
                        ..self.rcvr_entry@[i]
                    },
                ) && post.rx_bus_bits == self.rx_bus_bits | (1u8 << bus_index),
                None => if self.rcvr_entry@.len() < self.max_rcvrs {
                    post.rcvr_entry@ == self.rcvr_entry@.push(
                        ReceiverEntry::spec_fresh(device_id, 1u8 << bus_index, info),
                    ) && post.rx_bus_bits == self.rx_bus_bits | (1u8 << bus_index)
                } else {
                    post.rcvr_entry@ == self.rcvr_entry@ && post.rx_bus_bits == self.rx_bus_bits
                },
            }
        }
    }

    /// The index of the entry that a receiver has once it announced itself
    /// on bus `bus_index`: that of its old entry, or of the new one at the
    /// end; none where the receiver is not taken.
    pub open spec fn spec_added_index(self, device_id: DeviceId, bus_index: u8) -> Option<usize> {
        if !device_id.spec_is_receiver() || bus_index >= 8 {
            None
        } else {
            match self.spec_find(device_id) {
                Some(i) => Some(i as usize),
                None => if self.rcvr_entry@.len() < self.max_rcvrs {
                    Some(self.rcvr_entry@.len() as usize)
                } else {
                    None
                },
            }
        }
    }

    /// Takes note of a receiver that announced itself on bus `bus_index`,
    /// as `receiver_added` says, and gives the index of its entry.
    pub fn add_receiver(&mut self, device_id: DeviceId, bus_index: u8, info: u8) -> (r: Option<
        usize,
    >)
        requires
            old(self).wf(),
        ensures
            old(self).receiver_added(*final(self), device_id, bus_index, info),
            r == old(self).spec_added_index(device_id, bus_index),
    {
        if !device_id.is_receiver() || bus_index >= 8 {
            return None;
        }
        let bit: u8 = 1u8 << bus_index;
        match self.find(device_id) {
            Some(i) => {
                let e = self.rcvr_entry[i];
                let e2 = ReceiverEntry { bus_bits: e.bus_bits | bit, ..e };
                self.rcvr_entry.set(i, e2);
                self.rx_bus_bits = self.rx_bus_bits | bit;
                self.refresh();
                Some(i)
            },
            None => {
                if self.rcvr_entry.len() >= self.max_rcvrs {
                    return None;
                }
                let i = self.rcvr_entry.len();
                self.rcvr_entry.push(ReceiverEntry::fresh(device_id, bit, info));
                self.rx_bus_bits = self.rx_bus_bits | bit;
                self.refresh();
                Some(i)
            },
        }
    }

    /// The index of the first entry whose device id is `id`, if there is one.
    pub open spec fn spec_find(&self, id: DeviceId) -> Option<int> {
        if exists|i: int| 0 <= i < self.rcvr_entry@.len() && (#[trigger] self.rcvr_entry@[i]).device_id == id {
            Some(
                choose|i: int|
                    0 <= i < self.rcvr_entry@.len() && (#[trigger] self.rcvr_entry@[i]).device_id
                        == id && forall|j: int|
                        0 <= j < i ==> (#[trigger] self.rcvr_entry@[j]).device_id != id,
            )
        } else {
            None
        }
    }

    /// Whether `post` is the tracker `self` after receiver `idx`, which
    /// must name a receiver, reported channel data: its entry has the
    /// reported values, the best values and the ranking follow, and the
    /// telemetry receiver has moved to the best-ranked receiver if the
    /// channel mask of the one selected says that it fades.
    pub open spec fn channel_data_reported(self, post: Self, idx: int, rssi: i8, fades: u16, mask: u32) -> bool {
        &&& post.wf()
        &&& post.rcvr_entry@ == self.rcvr_entry@.update(
            idx,
            self.rcvr_entry@[idx].spec_reported(rssi, fades, mask),
        )
        &&& post.telem_rcvr_idx == if post.rcvr_entry@[self.telem_rcvr_idx as int].channel_mask == 0 {
            post.rcvr_sorted_idx@[0]
        } else {
            self.telem_rcvr_idx
        }
        &&& post.bind_rcvr_idx == self.bind_rcvr_idx
        &&& post.max_rcvrs == self.max_rcvrs
        &&& post.rx_bus_bits == self.rx_bus_bits
        &&& post.counters() == self.counters()
    }

    /// Takes up a report of channel data from receiver `idx`, as
    /// `channel_data_reported` says. An index that names no receiver is
    /// refused: the result is `false` and nothing changes.
    pub fn report_channel_data(&mut self, idx: usize, rssi: i8, fades: u16, mask: u32) -> (ok:
        bool)
        requires
            old(self).wf(),
        ensures
            final(self).wf(),
            ok == (idx < old(self).rcvr_entry@.len()),
            !ok ==> *final(self) == *old(self),
            ok ==> old(self).channel_data_reported(*final(self), idx as int, rssi, fades, mask),
    {
        if idx >= self.rcvr_entry.len() {
            return false;
        }
        let e = self.rcvr_entry[idx].reported(rssi, fades, mask);
        self.rcvr_entry.set(idx, e);
        self.refresh();
        if self.rcvr_entry[self.telem_rcvr_idx].channel_mask == 0 {
            self.telem_rcvr_idx = self.rcvr_sorted_idx[0];
        }
        true
    }

    /// Whether every tracked receiver fades: there is a receiver, and the
    /// channel mask of each is empty.
    pub open spec fn spec_all_faded(&self) -> bool {
        self.rcvr_entry@.len() > 0 && forall|i: int|
            0 <= i < self.rcvr_entry@.len() ==> (#[trigger] self.rcvr_entry@[i]).channel_mask == 0
    }

    /// Whether every tracked receiver fades.
    pub fn all_faded(&self) -> (r: bool)
        ensures
            r == self.spec_all_faded(),
    {
        if self.rcvr_entry.len() == 0 {
            return false;
        }
        let mut i: usize = 0;
        while i < self.rcvr_entry.len()
            invariant
                i <= self.rcvr_entry.len(),
                forall|j: int| 0 <= j < i ==> (#[trigger] self.rcvr_entry@[j]).channel_mask == 0,
            decreases self.rcvr_entry.len() - i,
        {
            if self.rcvr_entry[i].channel_mask != 0 {
                return false;
            }
            i += 1;
        }
        true
    }

    /// Counts one tick: `is_fade` says that every receiver lost its frame
    /// in it. The hold counters step as `HoldCounters::after_tick` says, and
    /// the result is whether the tick turned a run of losses into a hold.
    pub fn update_comm_stats(&mut self, is_fade: bool) -> (hold: bool)
        requires
            old(self).wf(),
        ensures
            final(self).wf(),
            hold == old(self).counters().tick_is_hold(is_fade),
            final(self).counters() == old(self).counters().after_tick(is_fade),
            final(self).rcvr_entry@ == old(self).rcvr_entry@,
            final(self).rcvr_sorted_idx@ == old(self).rcvr_sorted_idx@,
            final(self).telem_rcvr_idx == old(self).telem_rcvr_idx,
            final(self).bind_rcvr_idx == old(self).bind_rcvr_idx,
            final(self).max_rcvrs == old(self).max_rcvrs,
    {
        let before = HoldCounters {
            loss_countdown: self.loss_countdown,
            loss_hold_count: self.loss_hold_count,
            frame_losses: self.frame_losses,
            holds: self.holds,
        };
        let after = before.tick(is_fade);
        self.loss_countdown = after.loss_countdown;
        self.frame_losses = after.frame_losses;
        self.holds = after.holds;
        is_fade && before.loss_countdown <= 1
    }

    /// Forgets the statistics: no frame loss, no hold, a fresh countdown,
    /// and no fade in any entry.
    pub fn clear_comm_stats(&mut self)
        requires
            old(self).wf(),
        ensures
            final(self).wf(),
            final(self).counters() == (HoldCounters {
                loss_countdown: old(self).loss_hold_count,
                loss_hold_count: old(self).loss_hold_count,
                frame_losses: 0,
                holds: 0,
            }),
            final(self).rcvr_entry@.len() == old(self).rcvr_entry@.len(),
            forall|i: int|
                0 <= i < old(self).rcvr_entry@.len() ==> #[trigger] final(self).rcvr_entry@[i] == (
                ReceiverEntry { fades: 0, ..old(self).rcvr_entry@[i] }),
            final(self).telem_rcvr_idx == old(self).telem_rcvr_idx,
            final(self).bind_rcvr_idx == old(self).bind_rcvr_idx,
            final(self).max_rcvrs == old(self).max_rcvrs,
    {
        self.frame_losses = 0;
        self.holds = 0;
        self.loss_countdown = self.loss_hold_count;
        let mut i: usize = 0;
        while i < self.rcvr_entry.len()
            invariant
                i <= self.rcvr_entry.len(),
                self.rcvr_entry@.len() == old(self).rcvr_entry@.len(),
                forall|j: int|
                    0 <= j < i ==> #[trigger] self.rcvr_entry@[j] == (ReceiverEntry {
                        fades: 0,
                        ..old(self).rcvr_entry@[j]
                    }),
                forall|j: int|
                    i <= j < self.rcvr_entry@.len() ==> #[trigger] self.rcvr_entry@[j] == old(self).rcvr_entry@[j],
                self.max_rcvrs == old(self).max_rcvrs,
                self.telem_rcvr_idx == old(self).telem_rcvr_idx,
                self.bind_rcvr_idx == old(self).bind_rcvr_idx,
                self.loss_hold_count == old(self).loss_hold_count,
                self.loss_countdown == self.loss_hold_count,
                self.frame_losses == 0,
                self.holds == 0,
                old(self).wf(),
            decreases self.rcvr_entry.len() - i,
        {
            let e = self.rcvr_entry[i];
            self.rcvr_entry.set(i, ReceiverEntry { fades: 0, ..e });
            i += 1;
        }
        self.refresh();
    }

    /// Sets the number of consecutive frame losses that count as a hold,
    /// and starts the countdown again. Zero asks for the default of 45.
    pub fn set_hold_threshold(&mut self, countdown_reset: u8)
        requires
            old(self).wf(),
        ensures
            final(self).wf(),
            final(self).loss_hold_count == if countdown_reset == 0 {
                DEFAULT_HOLD_COUNT
            } else {
                countdown_reset
            },
            final(self).loss_countdown == final(self).loss_hold_count,
            final(self).frame_losses == old(self).frame_losses,
            final(self).holds == old(self).holds,
            final(self).rcvr_entry@ == old(self).rcvr_entry@,
            final(self).rcvr_sorted_idx@ == old(self).rcvr_sorted_idx@,
            final(self).telem_rcvr_idx == old(self).telem_rcvr_idx,
            final(self).bind_rcvr_idx == old(self).bind_rcvr_idx,
            final(self).max_rcvrs == old(self).max_rcvrs,
    {
        let n = if countdown_reset == 0 {
            DEFAULT_HOLD_COUNT
        } else {
            countdown_reset
        };
        self.loss_hold_count = n;
        self.loss_countdown = n;
    }

    /// Marks receiver `idx` as the one that was told to enter bind mode.
    /// An index that names no receiver is refused: the result is `false`
    /// and nothing changes.
    pub fn set_bind_rcvr(&mut self, idx: usize) -> (ok: bool)
        requires
            old(self).wf(),
        ensures
            final(self).wf(),
            ok == (idx < old(self).rcvr_entry@.len()),
            ok ==> *final(self) == (ReceiverInfo { bind_rcvr_idx: idx, ..*old(self) }),
            !ok ==> *final(self) == *old(self),
    {
        if idx >= self.rcvr_entry.len() {
            return false;
        }
        self.bind_rcvr_idx = idx;
        true
    }

    /// The receiver entries in telemetry range order, best first.
    pub fn rcvr_sorted(&self) -> (r: Vec<ReceiverEntry>)
        requires
            self.wf(),
        ensures
            r@.len() == self.rcvr_entry@.len(),
            forall|k: int|
                0 <= k < r@.len() ==> #[trigger] r@[k] == self.rcvr_entry@[self.rcvr_sorted_idx@[k] as int],
    {
        let mut r: Vec<ReceiverEntry> = Vec::new();
        let mut k: usize = 0;
        while k < self.rcvr_sorted_idx.len()
            invariant
                self.wf(),
                k <= self.rcvr_sorted_idx.len(),
                r@.len() == k,
                forall|j: int|
                    0 <= j < k ==> #[trigger] r@[j] == self.rcvr_entry@[self.rcvr_sorted_idx@[j] as int],
            decreases self.rcvr_sorted_idx.len() - k,
        {
            let i = self.rcvr_sorted_idx[k];
            r.push(self.rcvr_entry[i]);
            k += 1;
        }
        r
    }

    /// The receiver that answers telemetry requests, which is watched for
    /// fades to know when to switch; `None` while no receiver is tracked.
    pub fn telem_rcvr(&self) -> (r: Option<&ReceiverEntry>)
        requires
            self.wf(),
        ensures
            r is Some <==> self.rcvr_entry@.len() > 0,
            r matches Some(e) ==> *e == self.rcvr_entry@[self.telem_rcvr_idx as int],
    {
        if self.rcvr_entry.len() == 0 {
            None
        } else {
            Some(&self.rcvr_entry[self.telem_rcvr_idx])
        }
    }

    /// The receiver that was told to enter bind mode, which the bound data
    /// report and the bind info go to; `None` while no receiver is tracked.
    pub fn bind_rcvr(&self) -> (r: Option<&ReceiverEntry>)
        requires
            self.wf(),
        ensures
            r is Some <==> self.rcvr_entry@.len() > 0,
            r matches Some(e) ==> *e == self.rcvr_entry@[self.bind_rcvr_idx as int],
    {
        if self.rcvr_entry.len() == 0 {
            None
        } else {
            Some(&self.rcvr_entry[self.bind_rcvr_idx])
        }
    }
}

} // verus!
