//! Turns the marker ("beacon") channel's raw sample stream into discrete
//! laps with sector splits.

use vstd::prelude::*;

use crate::structs::ChannelFlag;
use crate::structs::ChannelMetadata;
use crate::structs::Datatype;
use crate::structs::Sample;

verus! {

/// One decoded lap.
#[derive(Debug, Clone, PartialEq, Hash)]
pub struct Lap {
    /// Lap time in ms.
    pub lap_time: i32,
    /// Sector splits in ms. The number of sectors can vary between laps.
    /// The final sector is not included: it is the lap time minus the sum
    /// of the recorded sectors.
    pub sectors: Vec<i32>,
}

impl View for Lap {
    type V = (int, Seq<int>);

    open spec fn view(&self) -> (int, Seq<int>) {
        (self.lap_time as int, self.sectors@.map_values(|v: i32| v as int))
    }
}

/// A channel is the timing source only when its feature flag says marker and
/// its datatype is one of the two marker kinds; either alone does not count.
pub open spec fn is_marker_channel(c: ChannelMetadata) -> bool {
    c.channel_feature_flag == ChannelFlag::Beacon && (c.datatype == Datatype::Beacon16
        || c.datatype == Datatype::Beacon32)
}

/// Searches through all the channels and returns the first valid beacon
/// (marker) channel, if present.
pub fn get_beacon_channel(channels: &Vec<ChannelMetadata>) -> (r: Option<&ChannelMetadata>)
    ensures
        (r is Some) <==> (exists|i: int|
            0 <= i < channels@.len() && is_marker_channel(channels@[i])),
        r is Some ==> (exists|i: int|
            0 <= i < channels@.len() && *r->Some_0 == channels@[i] && is_marker_channel(
                channels@[i],
            ) && (forall|j: int| 0 <= j < i ==> !is_marker_channel(channels@[j]))),
{
    let mut idx: usize = 0;
    while idx < channels.len()
        invariant
            idx <= channels@.len(),
            forall|j: int| 0 <= j < idx ==> !is_marker_channel(channels@[j]),
        decreases channels@.len() - idx,
    {
        let c = &channels[idx];
        match c.channel_feature_flag {
            ChannelFlag::Beacon => {
                match c.datatype {
                    Datatype::Beacon16 | Datatype::Beacon32 => {
                        return Some(c);
                    },
                    _ => {},
                }
            },
            _ => {},
        }
        idx += 1;
    }
    None
}

/// Value of a sample as the beacon decoder reads it: 16- and 32-bit integer
/// samples as themselves, anything else as zero.
pub open spec fn sample_i32(s: Sample) -> int {
    match s {
        Sample::I16(v) => v as int,
        Sample::I32(v) => v as int,
        _ => 0,
    }
}

/// The tagged timestamp list as ghost values: a pair of the time in ms and
/// whether the entry marks a sector split (true) or a lap boundary (false).
spec fn tsv(tss: Seq<(i32, bool)>) -> Seq<(int, bool)> {
    tss.map_values(|p: (i32, bool)| (p.0 as int, p.1))
}

/// One step of the per-sample classifier. The state is the tagged timestamp
/// list so far plus the index of the last sample seen inside the normal
/// envelope; `idx` is the current sample's index and `s` its value.
///
/// A sample in the normal envelope (above -128, the low floor, and below the
/// 0x4000 up-flank bias) becomes the new "last normal" reference, and when
/// it is the first normal sample after a flank and equals the sector-marker
/// constant 56, it re-tags the most recent timestamp as a sector split. A
/// sample at or above 0x4000 is the up-flank: its offset past the bias is
/// added to the last whole second (the last normal index over the sample
/// rate) to form a timestamp in ms, which is recorded as a lap boundary
/// unless it duplicates the most recent one. Every other sample belongs to
/// the down-going pulse and carries no timing information.
pub open spec fn scan_step(st: (Seq<(int, bool)>, int), idx: int, s: int, rate: int) -> (
    Seq<(int, bool)>,
    int,
) {
    let (tss, lni) = st;
    if -128 < s && s < 0x4000 {
        let tss2 = if lni != idx - 1 && s == 56 && tss.len() > 0 {
            tss.update(tss.len() - 1, (tss[tss.len() - 1].0, true))
        } else {
            tss
        };
        (tss2, idx)
    } else if s >= 0x4000 {
        let t = (lni / rate) * 1000 + (s - 0x4000);
        if tss.len() == 0 || tss[tss.len() - 1].0 != t {
            (tss.push((t, false)), lni)
        } else {
            st
        }
    } else {
        st
    }
}

/// The classifier state after the first `n` samples of `data`.
pub open spec fn scan(data: Seq<Sample>, rate: int, n: int) -> (Seq<(int, bool)>, int)
    decreases n,
{
    if n <= 0 {
        (Seq::empty(), 0)
    } else {
        scan_step(scan(data, rate, n - 1), n - 1, sample_i32(data[n - 1]), rate)
    }
}

/// One step of the reduction of the tagged timestamp list into laps. The
/// state is (laps so far, sectors accumulated for the current lap, time of
/// the last lap boundary, time of the last boundary of either kind). A
/// sector entry appends a sector duration; a lap entry emits a lap with the
/// accumulated sectors and resets the accumulation.
pub open spec fn reduce_step(st: (Seq<(int, Seq<int>)>, Seq<int>, int, int), e: (int, bool)) -> (
    Seq<(int, Seq<int>)>,
    Seq<int>,
    int,
    int,
) {
    let (laps, sectors, last_lap, last_sector) = st;
    if e.1 {
        (laps, sectors.push(e.0 - last_sector), last_lap, e.0)
    } else {
        (laps.push((e.0 - last_lap, sectors)), Seq::<int>::empty(), e.0, e.0)
    }
}

/// The reduction state after the first `n` entries of the timestamp list.
pub open spec fn reduce(tss: Seq<(int, bool)>, n: int) -> (
    Seq<(int, Seq<int>)>,
    Seq<int>,
    int,
    int,
)
    decreases n,
{
    if n <= 0 {
        (Seq::empty(), Seq::empty(), 0, 0)
    } else {
        reduce_step(reduce(tss, n - 1), tss[n - 1])
    }
}

/// The laps decoded from a channel: each lap as (duration in ms, sector
/// durations in ms). A channel that is not a valid marker channel yields a
/// single lap spanning its whole recorded duration. A marker channel yields
/// the reduced timestamp list plus a trailing in-lap up to the end of the
/// recorded samples; this always holds at least one lap.
pub open spec fn laps_spec(meta: ChannelMetadata, data: Seq<Sample>) -> Seq<(int, Seq<int>)> {
    if !is_marker_channel(meta) {
        seq![
            (((meta.data_count as int) * 1000) / (meta.sample_rate as int), Seq::<int>::empty()),
        ]
    } else {
        let tss = scan(data, meta.sample_rate as int, data.len() as int).0;
        let red = reduce(tss, tss.len() as int);
        red.0.push((((data.len() as int) * 1000) / (meta.sample_rate as int) - red.2, red.1))
    }
}

fn copy_sectors(v: &Vec<i32>) -> (r: Vec<i32>)
    ensures
        r@ == v@,
{
    let mut r: Vec<i32> = Vec::new();
    let mut i: usize = 0;
    while i < v.len()
        invariant
            i <= v@.len(),
            r@ == v@.subrange(0, i as int),
        decreases v@.len() - i,
    {
        r.push(v[i]);
        proof {
            assert(r@ =~= v@.subrange(0, i + 1));
        }
        i += 1;
    }
    proof {
        assert(r@ =~= v@);
    }
    r
}

/// Returns the laps encoded in a beacon (marker) channel's sample stream.
/// The first lap is the out-lap and the last is the in-lap. Each lap carries
/// its sector splits, except the final sector of a lap, which is the lap
/// time minus the sum of the recorded sectors; the number of sectors may
/// differ from lap to lap.
///
/// At least one lap always comes back: a channel that is not a valid marker
/// channel (wrong feature flag or datatype) degrades to a single lap
/// spanning the whole time period the channel has samples for, and a marker
/// channel always gains a trailing in-lap.
///
/// The `requires` only keep the 32-bit millisecond timestamps and the
/// fallback duration from overflowing, and the sample rate nonzero; they
/// admit any log shorter than roughly 596 hours.
pub fn get_laps_from_beacon(beacon_meta: &ChannelMetadata, beacon_data: &Vec<Sample>) -> (laps: Vec<
    Lap,
>)
    requires
        beacon_meta.sample_rate >= 1,
        is_marker_channel(*beacon_meta) ==> 1000 * beacon_data@.len() <= i32::MAX,
        is_marker_channel(*beacon_meta) ==> (forall|i: int|
            0 <= i < beacon_data@.len() && sample_i32(#[trigger] beacon_data@[i]) >= 0x4000
                ==> sample_i32(beacon_data@[i]) - 0x4000 + 1000 * beacon_data@.len() <= i32::MAX),
        !is_marker_channel(*beacon_meta) ==> 1000 * (beacon_meta.data_count as int) <= i32::MAX,
    ensures
        laps@.len() >= 1,
        laps@.map_values(|l: Lap| l@) == laps_spec(*beacon_meta, beacon_data@),
        laps@.len() == laps_spec(*beacon_meta, beacon_data@).len(),
        forall|i: int|
            0 <= i < laps@.len() ==> (#[trigger] laps@[i])@ == laps_spec(
                *beacon_meta,
                beacon_data@,
            )[i],
{
    let mut laps: Vec<Lap> = Vec::new();

    let marker: bool = match (&beacon_meta.channel_feature_flag, &beacon_meta.datatype) {
        (ChannelFlag::Beacon, Datatype::Beacon16) => true,
        (ChannelFlag::Beacon, Datatype::Beacon32) => true,
        _ => false,
    };
    if !marker {
        // In case a non-beacon gets passed in we still return the length of
        // the time period stored in the channel as a lap.
        let dc: u64 = beacon_meta.data_count as u64;
        let rate64: u64 = beacon_meta.sample_rate as u64;
        proof {
            vstd::arithmetic::div_mod::lemma_div_nonincreasing(dc * 1000, rate64 as int);
            vstd::arithmetic::div_mod::lemma_div_pos_is_pos(dc * 1000, rate64 as int);
        }
        let lap_time: i32 = ((dc * 1000) / rate64) as i32;
        laps.push(Lap { lap_time, sectors: Vec::new() });
        proof {
            assert(laps@.map_values(|l: Lap| l@) =~~= laps_spec(*beacon_meta, beacon_data@));
        }
        return laps;
    }
    // 32-bit ms timestamps are fine as long as the log is shorter than
    // roughly 596 hours; the requires pin that down.
    let mut timestamps: Vec<(i32, bool)> = Vec::new();
    let mut index: usize = 0;

    let mut last_normal_index: usize = 0;
    let rate: usize = beacon_meta.sample_rate as usize;

    // The signal is encoded in dual directional spikes. First the value
    // falls away from normal to a resting spot, then to the low trough,
    // then rises to the bias 0x4000 plus the event's offset in ms past the
    // last whole second, then returns to normal; the return value (100 for
    // a lap, 56 for a sector split) tells the two apart, so it is the
    // normal sample after the peak that decides, not the peak itself.
    while index < beacon_data.len()
        invariant
            beacon_meta.sample_rate >= 1,
            rate == beacon_meta.sample_rate,
            is_marker_channel(*beacon_meta),
            1000 * beacon_data@.len() <= i32::MAX,
            forall|i: int|
                0 <= i < beacon_data@.len() && sample_i32(#[trigger] beacon_data@[i]) >= 0x4000
                    ==> sample_i32(beacon_data@[i]) - 0x4000 + 1000 * beacon_data@.len()
                    <= i32::MAX,
            index <= beacon_data@.len(),
            last_normal_index <= index,
            tsv(timestamps@) == scan(beacon_data@, rate as int, index as int).0,
            last_normal_index as int == scan(beacon_data@, rate as int, index as int).1,
            forall|j: int| 0 <= j < timestamps@.len() ==> 0 <= (#[trigger] timestamps@[j]).0,
        decreases beacon_data@.len() - index,
    {
        let s: i32 = match &beacon_data[index] {
            Sample::I16(v) => *v as i32,
            Sample::I32(v) => *v as i32,
            _ => 0,
        };
        let ghost pre_tss = scan(beacon_data@, rate as int, index as int).0;
        let ghost pre_lni = scan(beacon_data@, rate as int, index as int).1;
        proof {
            assert(scan(beacon_data@, rate as int, index as int + 1) == scan_step(
                scan(beacon_data@, rate as int, index as int),
                index as int,
                sample_i32(beacon_data@[index as int]),
                rate as int,
            ));
            assert(sample_i32(beacon_data@[index as int]) == s as int);
        }
        if s > -128 && s < 0x4000 {
            // Within the non-spike normal envelope.
            if index == 0 || last_normal_index != index - 1 {
                // We are coming back from a flank: a return value of 56
                // re-tags the most recent timestamp as a sector split.
                if s == 56 && timestamps.len() > 0 {
                    let last = timestamps.pop().unwrap();
                    timestamps.push((last.0, true));
                    proof {
                        assert(tsv(timestamps@) =~= pre_tss.update(
                            pre_tss.len() - 1,
                            (pre_tss[pre_tss.len() - 1].0, true),
                        ));
                    }
                }
            }
            last_normal_index = index;
        } else if s < -1073741824 {
            // Max low flank (half of the fixed 32-bit minimum): the trough
            // of the down-going pulse carries no timing information.
        } else if s < 0 {
            // First step down: transitional sample, ignored.
        } else {
            // Upwards value: extract the offset and record a timestamp. The
            // 32-bit marker kind is assumed to share the 16-bit bias; that
            // is unconfirmed pending real 32-bit marker captures.
            let offset: i32 = match beacon_meta.datatype {
                Datatype::Beacon16 => s - 0x4000,
                Datatype::Beacon32 => s - 0x4000,
                _ => 0,
            };
            proof {
                vstd::arithmetic::div_mod::lemma_div_nonincreasing(
                    last_normal_index as int,
                    rate as int,
                );
                vstd::arithmetic::div_mod::lemma_div_pos_is_pos(
                    last_normal_index as int,
                    rate as int,
                );
            }
            let base: usize = (last_normal_index / rate) * 1000;
            let timestamp_ms: i32 = (base as i32) + offset;
            if timestamps.len() == 0 {
                timestamps.push((timestamp_ms, false));
            } else {
                let prev: i32 = timestamps[timestamps.len() - 1].0;
                // Peaks can span two or more samples, but those evaluate to
                // the same timestamp, so duplicates are dropped here.
                if prev != timestamp_ms {
                    timestamps.push((timestamp_ms, false));
                }
            }
            proof {
                let t = (pre_lni / (rate as int)) * 1000 + (s as int - 0x4000);
                if pre_tss.len() == 0 || pre_tss[pre_tss.len() - 1].0 != t {
                    assert(tsv(timestamps@) =~= pre_tss.push((t, false)));
                } else {
                    assert(tsv(timestamps@) =~= pre_tss);
                }
            }
        }
        index += 1;
    }

    // We have gathered the timestamps, now convert them into laps.
    let mut sectors: Vec<i32> = Vec::new();

    let mut last_timestamp: i32 = 0;
    let mut last_sector_timestamp: i32 = 0;

    let ghost tss_final = tsv(timestamps@);
    let mut ti: usize = 0;
    while ti < timestamps.len()
        invariant
            ti <= timestamps@.len(),
            tsv(timestamps@) == tss_final,
            tss_final.len() == timestamps@.len(),
            forall|j: int| 0 <= j < timestamps@.len() ==> 0 <= (#[trigger] timestamps@[j]).0,
            laps@.map_values(|l: Lap| l@) == reduce(tss_final, ti as int).0,
            sectors@.map_values(|v: i32| v as int) == reduce(tss_final, ti as int).1,
            last_timestamp as int == reduce(tss_final, ti as int).2,
            last_sector_timestamp as int == reduce(tss_final, ti as int).3,
            0 <= last_timestamp,
            0 <= last_sector_timestamp,
        decreases timestamps@.len() - ti,
    {
        let t: i32 = timestamps[ti].0;
        let is_sector: bool = timestamps[ti].1;
        proof {
            assert(reduce(tss_final, ti as int + 1) == reduce_step(
                reduce(tss_final, ti as int),
                tss_final[ti as int],
            ));
            assert(tss_final[ti as int] == (t as int, is_sector));
        }
        if is_sector {
            sectors.push(t - last_sector_timestamp);
            last_sector_timestamp = t;
            proof {
                assert(sectors@.map_values(|v: i32| v as int) =~= reduce(
                    tss_final,
                    ti as int + 1,
                ).1);
            }
        } else {
            let secs = copy_sectors(&sectors);
            laps.push(Lap { lap_time: t - last_timestamp, sectors: secs });
            sectors.clear();
            last_timestamp = t;
            last_sector_timestamp = t;
            proof {
                assert(laps@.map_values(|l: Lap| l@) =~~= reduce(tss_final, ti as int + 1).0);
                assert(sectors@.map_values(|v: i32| v as int) =~= reduce(
                    tss_final,
                    ti as int + 1,
                ).1);
            }
        }
        ti += 1;
    }

    // Adding the in-lap.
    let total: u64 = (beacon_data.len() as u64) * 1000;
    let rate64: u64 = beacon_meta.sample_rate as u64;
    proof {
        vstd::arithmetic::div_mod::lemma_div_nonincreasing(total as int, rate64 as int);
        vstd::arithmetic::div_mod::lemma_div_pos_is_pos(total as int, rate64 as int);
    }
    let timestamp_ms: i32 = (total / rate64) as i32;
    laps.push(Lap { lap_time: timestamp_ms - last_timestamp, sectors });

    proof {
        assert(laps@.map_values(|l: Lap| l@) =~~= laps_spec(*beacon_meta, beacon_data@));
    }
    laps
}

/// The decoder always yields at least one lap, whatever the channel and its
/// samples: a non-marker channel yields the whole-duration fallback lap, and
/// a marker channel always gains the trailing in-lap, even when no marker
/// timestamps were found.
pub proof fn lemma_laps_spec_nonempty(meta: ChannelMetadata, data: Seq<Sample>)
    ensures
        laps_spec(meta, data).len() >= 1,
{
}

} // verus!
