//! Battery bookkeeping layered on the typed device API: the status record
//! a monitor keeps per device, the persisted samples, and the consumption
//! estimate — the average time the battery takes to lose one percent of
//! charge, with idle (sleeping) stretches discounted.

use crate::human_display::{spec_human_duration, HumanDurationDisplay};
use vstd::arithmetic::div_mod::{lemma_div_is_ordered, lemma_div_multiples_vanish};
use vstd::prelude::*;

verus! {

/// Timestamps are accepted up to this bound (a date far beyond any the
/// sample format can carry), which keeps every accumulation in range.
pub const TIMESTAMP_BOUND: i64 = 0x40_0000_0000;

/// The format battery samples carry their creation time in.
pub open spec fn spec_timestamp_format() -> Seq<char> {
    "%Y-%m-%d %H:%M:%S"@
}

/// What parsing a string under a date-time format yields: the UTC epoch
/// seconds it denotes, or nothing when it does not parse.
pub uninterp spec fn parsed_timestamp(s: Seq<char>, fmt: Seq<char>) -> Option<i64>;

/// Relies on chrono's NaiveDateTime::parse_from_str and the epoch-seconds
/// conversion of the parsed value: both are functions of the two strings
/// alone.
#[verifier::external_body]
fn parse_datetime_seconds(s: &str, fmt: &str) -> (r: Option<i64>)
    ensures
        r == parsed_timestamp(s@, fmt@),
{
    match chrono::NaiveDateTime::parse_from_str(s, fmt) {
        Ok(t) => Some(t.and_utc().timestamp()),
        Err(_) => None,
    }
}

/// The live status of one device's battery, as a monitor keeps it.
#[derive(Debug, Clone)]
pub struct BatteryStatus {
    pub product_id: u16,
    pub name: String,
    pub percentage: u8,
    pub charging: bool,
}

/// One persisted battery sample: which device, when it was recorded, the
/// charge percentage, and whether the device was charging.
#[derive(Debug, Clone)]
pub struct BatteryData {
    pub product_id: u16,
    pub created_at: String,
    pub percentage: u8,
    pub charging: bool,
}

/// A sample reduced to what the consumption estimate works on: its epoch
/// seconds and its charge percentage.
#[derive(Debug, Clone, Copy, PartialEq, Eq, Structural)]
pub struct BatterySample {
    pub seconds: i64,
    pub percentage: u8,
}

/// The running state of the consumption estimate: the sample of the last
/// measured percentage, the previous sample of any kind, the idle seconds
/// accumulated since the last measurement, and the measurements' running
/// sum and count.
pub struct ConsumptionState {
    pub last_entry: Option<BatterySample>,
    pub last_line: Option<BatterySample>,
    pub idle_seconds: int,
    pub total_seconds: int,
    pub measurement_count: nat,
}

/// The state before any sample.
pub open spec fn spec_consumption_init() -> ConsumptionState {
    ConsumptionState {
        last_entry: None,
        last_line: None,
        idle_seconds: 0,
        total_seconds: 0,
        measurement_count: 0,
    }
}

/// One sample's effect on the estimate. A positive percentage that differs
/// from the last measured one closes a measurement: the elapsed time since
/// that sample, less the idle seconds gathered meanwhile. A zero
/// percentage means the device slept: the time since the previous sample
/// counts as idle.
pub open spec fn spec_consumption_step(st: ConsumptionState, e: BatterySample) -> ConsumptionState {
    let st1 = if e.percentage > 0 {
        match st.last_entry {
            Some(le) => {
                if e.percentage != le.percentage {
                    ConsumptionState {
                        last_entry: Some(e),
                        last_line: st.last_line,
                        idle_seconds: 0,
                        total_seconds: st.total_seconds + (e.seconds - le.seconds
                            - st.idle_seconds),
                        measurement_count: st.measurement_count + 1,
                    }
                } else {
                    st
                }
            },
            None => {
                ConsumptionState {
                    last_entry: Some(e),
                    last_line: st.last_line,
                    idle_seconds: 0,
                    total_seconds: st.total_seconds,
                    measurement_count: st.measurement_count,
                }
            },
        }
    } else {
        match st.last_line {
            Some(ll) => {
                ConsumptionState {
                    last_entry: st.last_entry,
                    last_line: st.last_line,
                    idle_seconds: st.idle_seconds + (e.seconds - ll.seconds),
                    total_seconds: st.total_seconds,
                    measurement_count: st.measurement_count,
                }
            },
            None => st,
        }
    };
    ConsumptionState {
        last_entry: st1.last_entry,
        last_line: Some(e),
        idle_seconds: st1.idle_seconds,
        total_seconds: st1.total_seconds,
        measurement_count: st1.measurement_count,
    }
}

/// The estimate's state after a whole run of samples.
pub open spec fn spec_consumption_fold(samples: Seq<BatterySample>) -> ConsumptionState
    decreases samples.len(),
{
    if samples.len() == 0 {
        spec_consumption_init()
    } else {
        spec_consumption_step(spec_consumption_fold(samples.drop_last()), samples.last())
    }
}

/// The consumption estimate over a run of samples: the average seconds per
/// measured percent, or nothing when no measurement closed.
pub open spec fn spec_consumption(samples: Seq<BatterySample>) -> Option<int> {
    let st = spec_consumption_fold(samples);
    if st.measurement_count < 1 {
        None
    } else {
        Some(st.total_seconds / st.measurement_count as int)
    }
}

/// Calculates the average time it takes for the battery to lose 1% of
/// charge, over samples already reduced to seconds and percentage.
///
/// - Calculates the time it takes to discharge each 1% of the battery (in
///   seconds)
/// - If the current charge percentage is zero, it means that the device is
///   sleeping, so accumulate the time between the last charge and the
///   current time
/// - The next time the charge percentage is greater than zero, it means
///   that the device woke up, so keep the start date as the last time the
///   percentage was greater than zero
/// - When the charge percentage drops 1% again, calculate the time for the
///   last percentage, taking out the accumulated idle time
pub fn consumption_from_samples(samples: &Vec<BatterySample>) -> (r: Option<i64>)
    requires
        forall|k: int|
            0 <= k < samples@.len() ==> 0 <= (#[trigger] samples@[k]).seconds <= TIMESTAMP_BOUND,
        forall|k1: int, k2: int|
            0 <= k1 <= k2 < samples@.len() ==> samples@[k1].seconds <= samples@[k2].seconds,
    ensures
        spec_consumption(samples@) is None ==> r is None,
        spec_consumption(samples@) matches Some(v) ==> (r matches Some(x) && x == v),
        r matches Some(x) ==> 0 <= x <= TIMESTAMP_BOUND,
{
    let mut last_entry: Option<BatterySample> = None;
    let mut last_line: Option<BatterySample> = None;
    let mut idle_seconds: i64 = 0;
    let mut total_seconds: i128 = 0;
    let mut measurement_count: usize = 0;
    let mut i: usize = 0;
    proof {
        assert(samples@.take(0) =~= Seq::<BatterySample>::empty());
    }
    while i < samples.len()
        invariant
            i <= samples@.len(),
            forall|k: int|
                0 <= k < samples@.len() ==> 0 <= (#[trigger] samples@[k]).seconds
                    <= TIMESTAMP_BOUND,
            forall|k1: int, k2: int|
                0 <= k1 <= k2 < samples@.len() ==> samples@[k1].seconds <= samples@[k2].seconds,
            ({
                let st = spec_consumption_fold(samples@.take(i as int));
                &&& last_entry == st.last_entry
                &&& last_line == st.last_line
                &&& idle_seconds as int == st.idle_seconds
                &&& total_seconds as int == st.total_seconds
                &&& measurement_count as int == st.measurement_count
                &&& (st.last_line is None ==> i == 0)
                &&& (st.last_line matches Some(ll) ==> i >= 1 && ll == samples@[i - 1])
                &&& 0 <= st.idle_seconds
                &&& (st.last_line matches Some(ll) ==> st.idle_seconds <= ll.seconds)
                &&& (st.last_line is None ==> st.idle_seconds == 0)
                &&& (st.last_entry matches Some(le) ==> 0 <= le.seconds <= TIMESTAMP_BOUND
                    && (st.last_line matches Some(ll) ==> le.seconds <= ll.seconds
                    && st.idle_seconds <= ll.seconds - le.seconds))
                &&& st.measurement_count <= i
                &&& 0 <= st.total_seconds <= st.measurement_count * (TIMESTAMP_BOUND as int)
            }),
        decreases samples@.len() - i,
    {
        let e = samples[i];
        let ghost st = spec_consumption_fold(samples@.take(i as int));
        if e.percentage > 0 {
            match last_entry {
                Some(le) => {
                    if e.percentage != le.percentage {
                        let measurement: i64 = e.seconds - le.seconds - idle_seconds;
                        total_seconds = total_seconds + measurement as i128;
                        measurement_count = measurement_count + 1;
                        last_entry = Some(e);
                        idle_seconds = 0;
                    }
                },
                None => {
                    last_entry = Some(e);
                    idle_seconds = 0;
                },
            }
        } else {
            match last_line {
                Some(ll) => {
                    idle_seconds = idle_seconds + (e.seconds - ll.seconds);
                },
                None => {},
            }
        }
        last_line = Some(e);
        i += 1;
        proof {
            let cur = samples@.take(i as int);
            assert(cur.drop_last() =~= samples@.take(i as int - 1));
            assert(cur.last() == samples@[i as int - 1]);
            assert(spec_consumption_fold(cur) == spec_consumption_step(
                st,
                samples@[i as int - 1],
            ));
        }
    }
    proof {
        assert(samples@.take(samples@.len() as int) =~= samples@);
    }
    if measurement_count < 1 {
        return None;
    }
    let quotient: u128 = (total_seconds as u128) / (measurement_count as u128);
    proof {
        let st = spec_consumption_fold(samples@);
        lemma_div_is_ordered(
            st.total_seconds,
            st.measurement_count * (TIMESTAMP_BOUND as int),
            st.measurement_count as int,
        );
        lemma_div_multiples_vanish(TIMESTAMP_BOUND as int, st.measurement_count as int);
        assert(st.total_seconds / (st.measurement_count as int) <= TIMESTAMP_BOUND as int);
        assert(quotient as int == st.total_seconds / (st.measurement_count as int));
    }
    Some(quotient as i64)
}

/// The percentage shown for a raw 0-to-255 battery charge, rounded to the
/// nearest percent.
pub open spec fn spec_battery_percentage(raw: u8) -> u8 {
    ((raw as int * 100 + 127) / 255) as u8
}

/// Converts a raw 0-to-255 battery charge into the rounded percentage a
/// consumer displays.
pub fn battery_percentage(raw: u8) -> (p: u8)
    ensures
        p == spec_battery_percentage(raw),
        p <= 100,
{
    ((raw as u32 * 100 + 127) / 255) as u8
}

impl BatteryData {
    pub fn new(product_id: u16, created_at: &str, percentage: u8, charging: bool) -> (r:
        BatteryData)
        ensures
            r.product_id == product_id,
            r.created_at@ == created_at@,
            r.percentage == percentage,
            r.charging == charging,
    {
        BatteryData {
            product_id,
            created_at: created_at.to_owned(),
            percentage,
            charging,
        }
    }

    /// The epoch seconds this sample's creation time denotes, if it parses
    /// under the sample format.
    pub fn timestamp_seconds(&self) -> (r: Option<i64>)
        ensures
            r == parsed_timestamp(self.created_at@, spec_timestamp_format()),
    {
        parse_datetime_seconds(self.created_at.as_str(), "%Y-%m-%d %H:%M:%S")
    }
}

/// The seconds-and-percentage reduction of one persisted sample.
pub open spec fn spec_sample_of(e: BatteryData) -> Option<i64> {
    parsed_timestamp(e.created_at@, spec_timestamp_format())
}

/// Whether a run of persisted samples is usable for the estimate: every
/// creation time parses, lies in range, and the run never goes backwards
/// in time.
pub open spec fn spec_samples_usable(entries: Seq<BatteryData>) -> bool {
    &&& forall|k: int|
        0 <= k < entries.len() ==> ((#[trigger] spec_sample_of(entries[k])) matches Some(ts) && 0
            <= ts <= TIMESTAMP_BOUND)
    &&& forall|k1: int, k2: int|
        0 <= k1 <= k2 < entries.len() ==> spec_sample_of(entries[k1]).unwrap() <= spec_sample_of(
            entries[k2],
        ).unwrap()
}

/// The reduction of a usable run of persisted samples.
pub open spec fn spec_samples(entries: Seq<BatteryData>) -> Seq<BatterySample> {
    Seq::new(
        entries.len(),
        |k: int|
            BatterySample {
                seconds: spec_sample_of(entries[k]).unwrap(),
                percentage: entries[k].percentage,
            },
    )
}

/// The consumption estimate a run of persisted samples yields: nothing
/// when the run is unusable or no measurement closed, else the average
/// seconds per measured percent.
pub open spec fn spec_consumption_of_entries(entries: Seq<BatteryData>) -> Option<int> {
    if spec_samples_usable(entries) {
        spec_consumption(spec_samples(entries))
    } else {
        None
    }
}

impl BatteryData {
    /// Calculates the average time it takes for the battery to lose 1% of
    /// charge, in seconds, over the persisted samples in recording order.
    /// A run whose creation times do not all parse in order is unusable
    /// and yields nothing, as does one in which no measurement closed.
    pub fn consumption(entries: &Vec<BatteryData>) -> (r: Option<i64>)
        ensures
            spec_consumption_of_entries(entries@) is None ==> r is None,
            spec_consumption_of_entries(entries@) matches Some(v) ==> (r matches Some(x) && x
                == v),
            r matches Some(x) ==> 0 <= x <= TIMESTAMP_BOUND,
    {
        let mut samples: Vec<BatterySample> = Vec::new();
        let mut i: usize = 0;
        while i < entries.len()
            invariant
                i <= entries@.len(),
                samples@.len() == i,
                forall|k: int|
                    0 <= k < i ==> ((#[trigger] spec_sample_of(entries@[k])) matches Some(ts) && 0
                        <= ts <= TIMESTAMP_BOUND),
                forall|k: int|
                    0 <= k < i ==> #[trigger] samples@[k] == (BatterySample {
                        seconds: spec_sample_of(entries@[k]).unwrap(),
                        percentage: entries@[k].percentage,
                    }),
                forall|k1: int, k2: int|
                    0 <= k1 <= k2 < i ==> samples@[k1].seconds <= samples@[k2].seconds,
            decreases entries@.len() - i,
        {
            let entry = &entries[i];
            let ts = match entry.timestamp_seconds() {
                Some(ts) => ts,
                None => { return None; },
            };
            if ts < 0 || ts > TIMESTAMP_BOUND {
                return None;
            }
            if samples.len() > 0 {
                if samples[samples.len() - 1].seconds > ts {
                    return None;
                }
            }
            samples.push(BatterySample { seconds: ts, percentage: entry.percentage });
            i += 1;
        }
        assert(samples@ =~= spec_samples(entries@));
        assert(spec_samples_usable(entries@)) by {
            assert forall|k1: int, k2: int| 0 <= k1 <= k2 < entries@.len() implies spec_sample_of(
                entries@[k1],
            ).unwrap() <= spec_sample_of(entries@[k2]).unwrap() by {
                assert(samples@[k1].seconds <= samples@[k2].seconds);
            }
        }
        consumption_from_samples(&samples)
    }
}

impl BatteryStatus {
    /// The percentage of the most recent positive sample recorded for a
    /// device, over the persisted samples in recording order.
    pub fn last_status(product_id: u16, entries: &Vec<BatteryData>) -> (r: Option<u8>)
        ensures
            r == spec_last_status(product_id, entries@),
    {
        let mut i: usize = entries.len();
        proof {
            assert(entries@.take(entries@.len() as int) =~= entries@);
        }
        while i > 0
            invariant
                i <= entries@.len(),
                spec_last_status(product_id, entries@) == spec_last_status(
                    product_id,
                    entries@.take(i as int),
                ),
            decreases i,
        {
            let entry = &entries[i - 1];
            proof {
                let cur = entries@.take(i as int);
                assert(cur.last() == entries@[i as int - 1]);
                assert(cur.drop_last() =~= entries@.take(i as int - 1));
            }
            if entry.product_id == product_id && entry.percentage > 0 {
                return Some(entry.percentage);
            }
            i -= 1;
        }
        proof {
            assert(entries@.take(0) =~= Seq::<BatteryData>::empty());
        }
        None
    }

    /// The icon a monitor shows for this status: charging first, then the
    /// charge bands above 20, above 10, and above 0 percent, and asleep at
    /// zero.
    pub open spec fn spec_icon(self) -> Seq<char> {
        if self.charging {
            "⚡️"@
        } else if self.percentage > 20 {
            "🔋"@
        } else if self.percentage > 10 {
            "🪫"@
        } else if self.percentage > 0 {
            "🔌"@
        } else {
            "💤"@
        }
    }

    pub fn icon(&self) -> (r: &'static str)
        ensures
            r@ == self.spec_icon(),
    {
        if self.charging {
            "⚡️"
        } else if self.percentage > 20 {
            "🔋"
        } else if self.percentage > 10 {
            "🪫"
        } else if self.percentage > 0 {
            "🔌"
        } else {
            "💤"
        }
    }

    /// The status rendered as a monitor's tray title: the icon, the
    /// percentage, and a percent sign.
    pub fn status_string(&self) -> (r: String)
        ensures
            r@ == self.spec_icon() + crate::human_display::spec_decimal(self.percentage as nat)
                + "%"@,
    {
        let mut s = String::new();
        s.append(self.icon());
        crate::human_display::append_decimal(&mut s, self.percentage as u64);
        s.append("%");
        proof {
            assert(s@ =~= self.spec_icon() + crate::human_display::spec_decimal(
                self.percentage as nat,
            ) + "%"@);
        }
        s
    }

    /// The estimated seconds of battery life left: the average seconds per
    /// percent over the device's samples, times the percentage now.
    pub fn remaining(&self, entries: &Vec<BatteryData>) -> (r: Option<i64>)
        ensures
            spec_consumption_of_entries(entries@) is None ==> r is None,
            spec_consumption_of_entries(entries@) matches Some(c) ==> (r matches Some(x) && x == c
                * self.percentage as int),
            r matches Some(x) ==> 0 <= x <= TIMESTAMP_BOUND as int * 255,
    {
        match BatteryData::consumption(entries) {
            Some(consumption) => {
                proof {
                    assert(0 <= consumption as int * self.percentage as int <= TIMESTAMP_BOUND
                        as int * 255) by (nonlinear_arith)
                        requires
                            0 <= consumption as int <= TIMESTAMP_BOUND as int,
                            0 <= self.percentage as int <= 255,
                    ;
                }
                Some(consumption * self.percentage as i64)
            },
            None => None,
        }
    }

    /// The estimated battery life left, rendered in human form, or nothing
    /// when there is not enough data to estimate.
    pub fn fmt_remaining(&self, entries: &Vec<BatteryData>) -> (r: Option<String>)
        ensures
            spec_consumption_of_entries(entries@) is None ==> r is None,
            spec_consumption_of_entries(entries@) matches Some(c) ==> (r matches Some(s) && s@
                == spec_human_duration(c * self.percentage as int)),
    {
        match self.remaining(entries) {
            Some(seconds) => Some(HumanDurationDisplay(seconds).human_string()),
            None => None,
        }
    }
}

/// The percentage of the most recent positive sample recorded for a
/// device, walking the run from its end.
pub open spec fn spec_last_status(product_id: u16, entries: Seq<BatteryData>) -> Option<u8>
    decreases entries.len(),
{
    if entries.len() == 0 {
        None
    } else if entries.last().product_id == product_id && entries.last().percentage > 0 {
        Some(entries.last().percentage)
    } else {
        spec_last_status(product_id, entries.drop_last())
    }
}

} // verus!
