//! The time-series store: bounded rings of recent samples at four
//! granularities, gated by one shared watermark, and a textual snapshot.

use vstd::prelude::*;
use vstd::string::StringExecFns;
use crate::text::{dec_text, int_text, push_i64_text, push_u64_text};
use crate::variable::SeriesOptions;
use crate::window::{
    current_time_ms,
    SERIES_IN_DAY,
    SERIES_IN_HOUR,
    SERIES_IN_MINUTE,
    SERIES_IN_SECOND,
};

verus! {

/// One sampled value with the wall-clock time it was taken, in
/// milliseconds since the Unix epoch.
#[derive(Clone, Copy, Debug)]
pub struct DataPoint<T> {
    /// The sampled value.
    pub value: T,
    /// When the sample was taken, in milliseconds.
    pub timestamp: u64,
}

impl<T: Copy> DataPoint<T> {
    /// Creates a data point from a value and a timestamp.
    pub fn new(value: T, timestamp: u64) -> (r: Self)
        ensures
            r.value == value,
            r.timestamp == timestamp,
    {
        Self { value, timestamp }
    }

    /// Creates a data point stamped with the current wall-clock time.
    pub fn now(value: T) -> (r: Self)
        ensures
            r.value == value,
    {
        Self { value, timestamp: current_time_ms() }
    }
}

/// Appending to a bounded ring: the new element goes to the back, and when
/// the ring would exceed `cap` the oldest element leaves the front.
pub open spec fn ring_push<A>(s: Seq<A>, x: A, cap: nat) -> Seq<A> {
    if s.len() + 1 > cap {
        s.push(x).drop_first()
    } else {
        s.push(x)
    }
}

/// Pushing a whole sequence of elements through a bounded ring, oldest
/// first.
pub open spec fn ring_push_all<A>(s: Seq<A>, xs: Seq<A>, cap: nat) -> Seq<A>
    decreases xs.len(),
{
    if xs.len() == 0 {
        s
    } else {
        ring_push_all(ring_push(s, xs[0], cap), xs.drop_first(), cap)
    }
}

/// A ring that starts within its capacity always holds the most recent
/// elements: after pushing `xs`, the ring holds the suffix of `s + xs`
/// that fits.
pub proof fn lemma_ring_push_all_suffix<A>(s: Seq<A>, xs: Seq<A>, cap: nat)
    requires
        cap >= 1,
        s.len() <= cap,
    ensures
        ring_push_all(s, xs, cap) == (s + xs).skip(
            if s.len() + xs.len() > cap {
                s.len() + xs.len() - cap
            } else {
                0
            },
        ),
    decreases xs.len(),
{
    if xs.len() == 0 {
        assert(s + xs =~= s);
        assert((s + xs).skip(0) =~= s);
    } else {
        let x0 = xs[0];
        let rest = xs.drop_first();
        let s1 = ring_push(s, x0, cap);
        lemma_ring_push_all_suffix(s1, rest, cap);
        let k1: int = if s1.len() + rest.len() > cap {
            s1.len() + rest.len() - cap
        } else {
            0
        };
        let k: int = if s.len() + xs.len() > cap {
            s.len() + xs.len() - cap
        } else {
            0
        };
        if s.len() + 1 > cap {
            assert(s1 =~= s.push(x0).drop_first());
            assert(s1 + rest =~= (s + xs).skip(1));
            assert((s + xs).skip(1).skip(k1) =~= (s + xs).skip(1 + k1));
            assert(1 + k1 == k);
        } else {
            assert(s1 + rest =~= s + xs);
            assert(k1 == k);
        }
    }
}

/// Ring eviction: pushing at least `cap` points through a tier that
/// started empty retains exactly the most recent `cap` points, in
/// insertion order.
pub proof fn lemma_ring_eviction<A>(xs: Seq<A>, cap: nat)
    requires
        cap >= 1,
        xs.len() >= cap,
    ensures
        ring_push_all(Seq::<A>::empty(), xs, cap) == xs.skip(xs.len() - cap),
{
    lemma_ring_push_all_suffix(Seq::<A>::empty(), xs, cap);
    assert(Seq::<A>::empty() + xs =~= xs);
}

/// Whether enough time has passed since the watermark for a tier with the
/// given period; until a watermark exists no tier is due this way.
pub open spec fn tier_due(watermark: Option<u64>, now: u64, period_ms: u64) -> bool {
    match watermark {
        Option::None => false,
        Option::Some(t) => now >= t && now - t >= period_ms,
    }
}

/// How one append taken at `now_ms` relates the series before and after:
/// the last point is refreshed, the second tier and the watermark advance
/// once a second, and the longer tiers are gated by the same watermark.
pub open spec fn append_effect<T: Copy, Op>(
    pre: Series<T, Op>,
    post: Series<T, Op>,
    value: T,
    now_ms: u64,
) -> bool {
    &&& post.spec_last_point() == Some(DataPoint { value, timestamp: now_ms })
    &&& post.seconds() == (if pre.spec_watermark() is None || tier_due(
        pre.spec_watermark(),
        now_ms,
        1000,
    ) {
        ring_push(pre.seconds(), DataPoint { value, timestamp: now_ms }, SERIES_IN_SECOND as nat)
    } else {
        pre.seconds()
    })
    &&& post.minutes() == (if tier_due(pre.spec_watermark(), now_ms, 60000) {
        ring_push(pre.minutes(), DataPoint { value, timestamp: now_ms }, SERIES_IN_MINUTE as nat)
    } else {
        pre.minutes()
    })
    &&& post.hours() == (if tier_due(pre.spec_watermark(), now_ms, 3600000) {
        ring_push(pre.hours(), DataPoint { value, timestamp: now_ms }, SERIES_IN_HOUR as nat)
    } else {
        pre.hours()
    })
    &&& post.days() == (if tier_due(pre.spec_watermark(), now_ms, 86400000) {
        ring_push(pre.days(), DataPoint { value, timestamp: now_ms }, SERIES_IN_DAY as nat)
    } else {
        pre.days()
    })
    &&& post.spec_watermark() == (if pre.spec_watermark() is None || tier_due(
        pre.spec_watermark(),
        now_ms,
        1000,
    ) {
        Some(now_ms)
    } else {
        pre.spec_watermark()
    })
}

/// Tier coupling: a longer tier can only gain a point in a call that also
/// feeds the second tier and advances the shared watermark; in particular
/// a cadence shorter than a tier's period never reaches that tier.
pub proof fn lemma_tier_coupling<T: Copy, Op>(
    pre: Series<T, Op>,
    post: Series<T, Op>,
    value: T,
    now_ms: u64,
)
    requires
        append_effect(pre, post, value, now_ms),
        post.minutes() != pre.minutes() || post.hours() != pre.hours() || post.days()
            != pre.days(),
    ensures
        tier_due(pre.spec_watermark(), now_ms, 60000),
        post.seconds() == ring_push(
            pre.seconds(),
            DataPoint { value, timestamp: now_ms },
            SERIES_IN_SECOND as nat,
        ),
        post.spec_watermark() == Some(now_ms),
{
}

/// A time series at four granularities. Every appended value refreshes
/// `last_point`; a point is admitted to the second tier once a second, and
/// the longer tiers are gated by the same single watermark, so they can
/// only gain a point in a call that also feeds the second tier.
pub struct Series<T, Op> {
    second_points: Vec<DataPoint<T>>,
    minute_points: Vec<DataPoint<T>>,
    hour_points: Vec<DataPoint<T>>,
    day_points: Vec<DataPoint<T>>,
    op: Op,
    last_point: Option<DataPoint<T>>,
    last_sample_time: Option<u64>,
}

impl<T: Copy, Op> Series<T, Op> {
    /// The second tier, oldest first.
    pub closed spec fn seconds(&self) -> Seq<DataPoint<T>> {
        self.second_points@
    }

    /// The minute tier, oldest first.
    pub closed spec fn minutes(&self) -> Seq<DataPoint<T>> {
        self.minute_points@
    }

    /// The hour tier, oldest first.
    pub closed spec fn hours(&self) -> Seq<DataPoint<T>> {
        self.hour_points@
    }

    /// The day tier, oldest first.
    pub closed spec fn days(&self) -> Seq<DataPoint<T>> {
        self.day_points@
    }

    /// The most recently appended point, whether or not any tier admitted
    /// it.
    pub closed spec fn spec_last_point(&self) -> Option<DataPoint<T>> {
        self.last_point
    }

    /// The shared watermark gating every tier.
    pub closed spec fn spec_watermark(&self) -> Option<u64> {
        self.last_sample_time
    }

    /// The combining operation carried for type bounds.
    pub closed spec fn spec_op(&self) -> Op {
        self.op
    }

    /// Every tier respects its capacity.
    pub closed spec fn wf(&self) -> bool {
        &&& self.second_points@.len() <= SERIES_IN_SECOND
        &&& self.minute_points@.len() <= SERIES_IN_MINUTE
        &&& self.hour_points@.len() <= SERIES_IN_HOUR
        &&& self.day_points@.len() <= SERIES_IN_DAY
    }

    /// Creates an empty series.
    pub fn new(op: Op) -> (r: Self)
        ensures
            r.wf(),
            r.seconds() == Seq::<DataPoint<T>>::empty(),
            r.minutes() == Seq::<DataPoint<T>>::empty(),
            r.hours() == Seq::<DataPoint<T>>::empty(),
            r.days() == Seq::<DataPoint<T>>::empty(),
            r.spec_last_point() is None,
            r.spec_watermark() is None,
            r.spec_op() == op,
    {
        Self {
            second_points: Vec::new(),
            minute_points: Vec::new(),
            hour_points: Vec::new(),
            day_points: Vec::new(),
            op,
            last_point: None,
            last_sample_time: None,
        }
    }

    /// Appends a point taken at `now_ms`. The last point is always
    /// refreshed. The point enters the second tier when no watermark
    /// exists yet or a full second has passed since it, advancing the
    /// watermark; it also enters the minute, hour and day tiers when their
    /// whole period has passed since the same shared watermark, which can
    /// only happen in a call that also feeds the second tier.
    pub fn append_at(&mut self, value: T, now_ms: u64)
        requires
            old(self).wf(),
        ensures
            final(self).wf(),
            final(self).spec_op() == old(self).spec_op(),
            append_effect(*old(self), *final(self), value, now_ms),
    {
        let point = DataPoint { value, timestamp: now_ms };
        self.last_point = Some(point);

        let mut should_sample_second = true;
        let mut should_sample_minute = false;
        let mut should_sample_hour = false;
        let mut should_sample_day = false;
        match self.last_sample_time {
            Option::Some(last) => {
                let elapsed = if now_ms >= last {
                    now_ms - last
                } else {
                    0
                };
                should_sample_second = elapsed >= 1000;
                should_sample_minute = elapsed >= 60000;
                should_sample_hour = elapsed >= 3600000;
                should_sample_day = elapsed >= 86400000;
            },
            Option::None => {},
        }

        if should_sample_second {
            self.last_sample_time = Some(now_ms);
            add_to_series(&mut self.second_points, point, SERIES_IN_SECOND);
        }
        if should_sample_minute {
            add_to_series(&mut self.minute_points, point, SERIES_IN_MINUTE);
        }
        if should_sample_hour {
            add_to_series(&mut self.hour_points, point, SERIES_IN_HOUR);
        }
        if should_sample_day {
            add_to_series(&mut self.day_points, point, SERIES_IN_DAY);
        }
    }

    /// Appends a value stamped with the current wall-clock time: whatever
    /// time the clock returned, the effect is that of `append_at` with it.
    pub fn append(&mut self, value: T)
        requires
            old(self).wf(),
        ensures
            final(self).wf(),
            final(self).spec_op() == old(self).spec_op(),
            exists|now_ms: u64| append_effect(*old(self), *final(self), value, now_ms),
    {
        let now_ms = current_time_ms();
        self.append_at(value, now_ms);
        proof {
            assert(append_effect(*old(self), *self, value, now_ms));
        }
    }

    /// The most recently appended point, if any.
    pub fn last_point(&self) -> (r: Option<DataPoint<T>>)
        ensures
            r == self.spec_last_point(),
    {
        self.last_point
    }
}

/// Appends `point` to one tier, evicting the oldest point when the tier
/// would exceed `max_size`.
fn add_to_series<T: Copy>(series: &mut Vec<DataPoint<T>>, point: DataPoint<T>, max_size: usize)
    requires
        max_size >= 1,
        old(series)@.len() <= max_size,
    ensures
        final(series)@ == ring_push(old(series)@, point, max_size as nat),
        final(series)@.len() <= max_size,
{
    series.push(point);
    if series.len() > max_size {
        let ghost before = series@;
        series.remove(0);
        proof {
            assert(series@ =~= before.drop_first());
        }
    }
}

/// The comma-separated decimal timestamps of a run of points.
pub open spec fn ts_text(points: Seq<DataPoint<i64>>) -> Seq<char>
    decreases points.len(),
{
    if points.len() == 0 {
        Seq::empty()
    } else if points.len() == 1 {
        dec_text(points[0].timestamp as nat)
    } else {
        ts_text(points.drop_last()) + ","@ + dec_text(points.last().timestamp as nat)
    }
}

/// The comma-separated decimal values of a run of points.
pub open spec fn vals_text(points: Seq<DataPoint<i64>>) -> Seq<char>
    decreases points.len(),
{
    if points.len() == 0 {
        Seq::empty()
    } else if points.len() == 1 {
        int_text(points[0].value as int)
    } else {
        vals_text(points.drop_last()) + ","@ + int_text(points.last().value as int)
    }
}

/// The JSON object describing one tier: parallel arrays of timestamps and
/// values, oldest to newest, empty tiers giving empty arrays.
pub open spec fn tier_text(name: Seq<char>, points: Seq<DataPoint<i64>>) -> Seq<char> {
    "\""@ + name + "\":{\"timestamps\":["@ + ts_text(points) + "],\"values\":["@ + vals_text(
        points,
    ) + "]}"@
}

/// The whole JSON snapshot of a series: the metadata, then each tier from
/// second to day.
pub open spec fn series_text(
    fixed_length: bool,
    seconds: Seq<DataPoint<i64>>,
    minutes: Seq<DataPoint<i64>>,
    hours: Seq<DataPoint<i64>>,
    days: Seq<DataPoint<i64>>,
) -> Seq<char> {
    "{"@ + "\"meta\":{\"name\":\"time_series\",\"fixed_length\":"@ + (if fixed_length {
        "true"@
    } else {
        "false"@
    }) + "},"@ + "\"data\":{"@ + tier_text("second"@, seconds) + ","@ + tier_text(
        "minute"@,
        minutes,
    ) + ","@ + tier_text("hour"@, hours) + ","@ + tier_text("day"@, days) + "}}"@
}

/// Appends one tier's JSON object to `out`.
fn describe_series_data(out: &mut String, name: &str, points: &Vec<DataPoint<i64>>)
    ensures
        final(out)@ == old(out)@ + tier_text(name@, points@),
{
    out.append("\"");
    out.append(name);
    out.append("\":{\"timestamps\":[");
    let ghost header = old(out)@ + "\""@ + name@ + "\":{\"timestamps\":["@;
    let n = points.len();
    let mut i: usize = 0;
    while i < n
        invariant
            n == points@.len(),
            i <= n,
            out@ == header + ts_text(points@.take(i as int)),
        decreases n - i,
    {
        if i > 0 {
            out.append(",");
        }
        push_u64_text(out, points[i].timestamp);
        proof {
            assert(points@.take(i + 1).drop_last() =~= points@.take(i as int));
            assert(points@.take(i + 1).last() == points@[i as int]);
            assert(out@ =~= header + ts_text(points@.take(i + 1)));
        }
        i += 1;
    }
    proof {
        assert(points@.take(n as int) =~= points@);
    }
    out.append("],\"values\":[");
    let ghost header2 = header + ts_text(points@) + "],\"values\":["@;
    proof {
        assert(out@ =~= header2);
    }
    let mut j: usize = 0;
    while j < n
        invariant
            n == points@.len(),
            j <= n,
            out@ == header2 + vals_text(points@.take(j as int)),
        decreases n - j,
    {
        if j > 0 {
            out.append(",");
        }
        push_i64_text(out, points[j].value);
        proof {
            assert(points@.take(j + 1).drop_last() =~= points@.take(j as int));
            assert(points@.take(j + 1).last() == points@[j as int]);
            assert(out@ =~= header2 + vals_text(points@.take(j + 1)));
        }
        j += 1;
    }
    proof {
        assert(points@.take(n as int) =~= points@);
    }
    out.append("]}");
    proof {
        assert(final(out)@ =~= old(out)@ + tier_text(name@, points@));
    }
}

impl<Op> Series<i64, Op> {
    /// Writes the JSON snapshot of all four tiers, oldest to newest, with
    /// the metadata the caller supplied.
    #[verifier::rlimit(60)]
    pub fn describe(&self, out: &mut String, options: &SeriesOptions)
        ensures
            final(out)@ == old(out)@ + series_text(
                options.fixed_length,
                self.seconds(),
                self.minutes(),
                self.hours(),
                self.days(),
            ),
    {
        out.append("{");
        out.append("\"meta\":{\"name\":\"time_series\",\"fixed_length\":");
        if options.fixed_length {
            out.append("true");
        } else {
            out.append("false");
        }
        out.append("},");
        out.append("\"data\":{");
        describe_series_data(out, "second", &self.second_points);
        out.append(",");
        describe_series_data(out, "minute", &self.minute_points);
        out.append(",");
        describe_series_data(out, "hour", &self.hour_points);
        out.append(",");
        describe_series_data(out, "day", &self.day_points);
        out.append("}}");
        proof {
            assert(final(out)@ =~= old(out)@ + series_text(
                options.fixed_length,
                self.seconds(),
                self.minutes(),
                self.hours(),
                self.days(),
            ));
        }
    }
}

} // verus!
