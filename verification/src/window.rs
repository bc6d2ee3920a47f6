//! Time-windowed statistics: fixed window definitions, a bounded sample
//! window, and the process clock.

use vstd::prelude::*;
use std::time::Duration;
use std::time::SystemTime;
use std::time::UNIX_EPOCH;
use crate::text::{int_text, push_i64_text};
use crate::variable::{VarRegistry, Variable};


verus! {

/// The number of seconds in the second-level window.
pub const WINDOW_SIZE_SECOND: u64 = 60;

/// The number of minutes in the minute-level window.
pub const WINDOW_SIZE_MINUTE: u64 = 60;

/// The number of hours in the hour-level window.
pub const WINDOW_SIZE_HOUR: u64 = 24;

/// The number of days in the day-level window.
pub const WINDOW_SIZE_DAY: u64 = 30;

/// The capacity of the second-level series.
pub const SERIES_IN_SECOND: usize = 60;

/// The capacity of the minute-level series.
pub const SERIES_IN_MINUTE: usize = 60;

/// The capacity of the hour-level series.
pub const SERIES_IN_HOUR: usize = 24;

/// The capacity of the day-level series.
pub const SERIES_IN_DAY: usize = 30;

/// Relies on SystemTime::now and the duration since the Unix epoch: the
/// current wall-clock time in milliseconds. Nothing is promised of the
/// value: the wall clock can move either way between two reads.
#[verifier::external_body]
pub fn current_time_ms() -> u64 {
    match SystemTime::now().duration_since(UNIX_EPOCH) {
        Ok(elapsed) => elapsed.as_millis() as u64,
        Err(_) => 0,
    }
}

/// Relies on Duration::from_secs: a duration of that many whole seconds.
#[verifier::external_body]
fn duration_from_secs(secs: u64) -> Duration {
    Duration::from_secs(secs)
}

/// A fixed-length window of recent time.
#[derive(Clone, Copy, Debug, PartialEq, Eq, Structural)]
pub enum WindowType {
    /// The last ten seconds.
    Second10,
    /// The last minute.
    Minute1,
    /// The last five minutes.
    Minute5,
    /// The last quarter hour.
    Minute15,
    /// The last hour.
    Hour1,
    /// The last six hours.
    Hour6,
    /// The last twelve hours.
    Hour12,
    /// The last day.
    Day1,
    /// The last week.
    Day7,
    /// The last thirty days.
    Day30,
}

/// The length of a window, in seconds.
pub open spec fn spec_duration_secs(w: WindowType) -> u64 {
    match w {
        WindowType::Second10 => 10,
        WindowType::Minute1 => 60,
        WindowType::Minute5 => 300,
        WindowType::Minute15 => 900,
        WindowType::Hour1 => 3600,
        WindowType::Hour6 => 21600,
        WindowType::Hour12 => 43200,
        WindowType::Day1 => 86400,
        WindowType::Day7 => 604800,
        WindowType::Day30 => 2592000,
    }
}

/// The display name of a window.
pub open spec fn spec_window_name(w: WindowType) -> Seq<char> {
    match w {
        WindowType::Second10 => "10_second"@,
        WindowType::Minute1 => "1_minute"@,
        WindowType::Minute5 => "5_minute"@,
        WindowType::Minute15 => "15_minute"@,
        WindowType::Hour1 => "1_hour"@,
        WindowType::Hour6 => "6_hour"@,
        WindowType::Hour12 => "12_hour"@,
        WindowType::Day1 => "1_day"@,
        WindowType::Day7 => "7_day"@,
        WindowType::Day30 => "30_day"@,
    }
}

impl WindowType {
    /// The length of the window, in seconds.
    pub fn duration_secs(&self) -> (r: u64)
        ensures
            r == spec_duration_secs(*self),
    {
        match self {
            WindowType::Second10 => 10,
            WindowType::Minute1 => 60,
            WindowType::Minute5 => 300,
            WindowType::Minute15 => 900,
            WindowType::Hour1 => 3600,
            WindowType::Hour6 => 21600,
            WindowType::Hour12 => 43200,
            WindowType::Day1 => 86400,
            WindowType::Day7 => 604800,
            WindowType::Day30 => 2592000,
        }
    }

    /// The length of the window, as a standard duration.
    pub fn duration(&self) -> Duration {
        duration_from_secs(self.duration_secs())
    }

    /// Whether a point in time, given in milliseconds, still falls within
    /// this window as seen from `now_ms`: a future point never does.
    pub fn contains(&self, time_ms: u64, now_ms: u64) -> (r: bool)
        ensures
            r == (now_ms >= time_ms && now_ms - time_ms <= spec_duration_secs(*self) * 1000),
    {
        if now_ms < time_ms {
            return false;
        }
        let elapsed = now_ms - time_ms;
        elapsed <= self.duration_secs() * 1000
    }

    /// The display name of the window.
    pub fn name(&self) -> (r: &'static str)
        ensures
            r@ == spec_window_name(*self),
    {
        match self {
            WindowType::Second10 => "10_second",
            WindowType::Minute1 => "1_minute",
            WindowType::Minute5 => "5_minute",
            WindowType::Minute15 => "15_minute",
            WindowType::Hour1 => "1_hour",
            WindowType::Hour6 => "6_hour",
            WindowType::Hour12 => "12_hour",
            WindowType::Day1 => "1_day",
            WindowType::Day7 => "7_day",
            WindowType::Day30 => "30_day",
        }
    }
}

/// The windows most dashboards track, shortest first.
pub struct CommonWindows;

impl CommonWindows {
    /// The commonly tracked windows, shortest first.
    pub fn iter() -> (r: Vec<WindowType>)
        ensures
            r@ == seq![
                WindowType::Minute1,
                WindowType::Minute5,
                WindowType::Minute15,
                WindowType::Hour1,
                WindowType::Hour6,
                WindowType::Hour12,
                WindowType::Day1,
            ],
    {
        let mut windows: Vec<WindowType> = Vec::new();
        windows.push(WindowType::Minute1);
        windows.push(WindowType::Minute5);
        windows.push(WindowType::Minute15);
        windows.push(WindowType::Hour1);
        windows.push(WindowType::Hour6);
        windows.push(WindowType::Hour12);
        windows.push(WindowType::Day1);
        proof {
            assert(windows@ =~= seq![
                WindowType::Minute1,
                WindowType::Minute5,
                WindowType::Minute15,
                WindowType::Hour1,
                WindowType::Hour6,
                WindowType::Hour12,
                WindowType::Day1,
            ]);
        }
        windows
    }

    /// Every window, shortest first.
    pub fn all() -> (r: Vec<WindowType>)
        ensures
            r@ == seq![
                WindowType::Second10,
                WindowType::Minute1,
                WindowType::Minute5,
                WindowType::Minute15,
                WindowType::Hour1,
                WindowType::Hour6,
                WindowType::Hour12,
                WindowType::Day1,
                WindowType::Day7,
                WindowType::Day30,
            ],
    {
        let mut windows: Vec<WindowType> = Vec::new();
        windows.push(WindowType::Second10);
        windows.push(WindowType::Minute1);
        windows.push(WindowType::Minute5);
        windows.push(WindowType::Minute15);
        windows.push(WindowType::Hour1);
        windows.push(WindowType::Hour6);
        windows.push(WindowType::Hour12);
        windows.push(WindowType::Day1);
        windows.push(WindowType::Day7);
        windows.push(WindowType::Day30);
        proof {
            assert(windows@ =~= seq![
                WindowType::Second10,
                WindowType::Minute1,
                WindowType::Minute5,
                WindowType::Minute15,
                WindowType::Hour1,
                WindowType::Hour6,
                WindowType::Hour12,
                WindowType::Day1,
                WindowType::Day7,
                WindowType::Day30,
            ]);
        }
        windows
    }
}

/// The longest suffix of `s` that fits in `cap` slots and holds no sample
/// older than `cutoff`: what remains after evicting from the front.
pub open spec fn evict_front<T>(s: Seq<(T, u64)>, cap: nat, cutoff: u64) -> Seq<(T, u64)>
    decreases s.len(),
{
    if s.len() > cap || (s.len() > 0 && s[0].1 < cutoff) {
        evict_front(s.drop_first(), cap, cutoff)
    } else {
        s
    }
}

/// A bounded window of timed samples: at most `N` samples, none older than
/// `N` sampling intervals.
pub struct Window<T, const N: usize> {
    interval_ms: u64,
    samples: Vec<(T, u64)>,
    name: String,
    token: Option<u64>,
}

impl<T: Copy, const N: usize> Window<T, N> {
    /// The samples currently held, oldest first, each with its time in
    /// milliseconds.
    pub closed spec fn samples(&self) -> Seq<(T, u64)> {
        self.samples@
    }

    /// The sampling interval, in milliseconds.
    pub closed spec fn spec_interval_ms(&self) -> u64 {
        self.interval_ms
    }

    /// The window's display name.
    pub closed spec fn spec_window_var_name(&self) -> Seq<char> {
        self.name@
    }

    /// The identity token of the current exposure, if any.
    pub closed spec fn spec_window_token(&self) -> Option<u64> {
        self.token
    }

    /// The whole span of the window fits in the millisecond clock.
    pub closed spec fn wf(&self) -> bool {
        self.interval_ms * N <= u64::MAX
    }

    /// Creates an empty window sampling every `interval_seconds` seconds.
    pub fn new(interval_seconds: u64) -> (r: Self)
        requires
            interval_seconds * 1000 <= u64::MAX,
            interval_seconds * 1000 * N <= u64::MAX,
        ensures
            r.wf(),
            r.samples() == Seq::<(T, u64)>::empty(),
            r.spec_interval_ms() == interval_seconds * 1000,
            r.spec_window_var_name().len() == 0,
            r.spec_window_token() is None,
    {
        Self {
            interval_ms: interval_seconds * 1000,
            samples: Vec::new(),
            name: String::new(),
            token: None,
        }
    }

    /// Appends a sample taken at `now_ms`, then evicts from the front
    /// until at most `N` samples remain and none is older than the
    /// window's whole span before `now_ms`.
    pub fn add_sample(&mut self, value: T, now_ms: u64)
        requires
            old(self).wf(),
            old(self).samples().len() < usize::MAX,
        ensures
            final(self).wf(),
            final(self).samples() == evict_front(
                old(self).samples().push((value, now_ms)),
                N as nat,
                (if now_ms >= old(self).spec_interval_ms() * N {
                    (now_ms - old(self).spec_interval_ms() * N) as u64
                } else {
                    0u64
                }),
            ),
            final(self).spec_interval_ms() == old(self).spec_interval_ms(),
            final(self).spec_window_var_name() == old(self).spec_window_var_name(),
            final(self).spec_window_token() == old(self).spec_window_token(),
    {
        self.samples.push((value, now_ms));
        let span = self.interval_ms * (N as u64);
        let cutoff = if now_ms >= span {
            now_ms - span
        } else {
            0
        };
        let ghost target = evict_front(old(self).samples().push((value, now_ms)), N as nat, cutoff);
        while self.samples.len() > N || (self.samples.len() > 0 && self.samples[0].1 < cutoff)
            invariant
                evict_front(self.samples@, N as nat, cutoff) == target,
                self.interval_ms == old(self).interval_ms,
                self.name == old(self).name,
                self.token == old(self).token,
            decreases self.samples@.len(),
        {
            let ghost prev = self.samples@;
            self.samples.remove(0);
            proof {
                assert(self.samples@ =~= prev.drop_first());
            }
        }
    }

    /// The most recent sample's value, if any sample is held.
    pub fn get_value(&self) -> (r: Option<T>)
        ensures
            r == (if self.samples().len() > 0 {
                Some(self.samples().last().0)
            } else {
                None::<T>
            }),
    {
        let n = self.samples.len();
        if n > 0 {
            Some(self.samples[n - 1].0)
        } else {
            None
        }
    }
}


impl<const N: usize> Window<i64, N> {
    /// Creates a window already exposed under `name`, when the name is
    /// free.
    pub fn with_name(reg: &mut VarRegistry, name: &str, interval_seconds: u64) -> (r: Self)
        requires
            interval_seconds * 1000 <= u64::MAX,
            interval_seconds * 1000 * N <= u64::MAX,
            old(reg).wf(),
            old(reg).spec_next_token() < u64::MAX,
        ensures
            final(reg).wf(),
            r.wf(),
            r.samples() == Seq::<(i64, u64)>::empty(),
            r.spec_interval_ms() == interval_seconds * 1000,
            !old(reg).entries().dom().contains(name@) ==> r.spec_window_var_name() == name@,
            old(reg).entries().dom().contains(name@) ==> r.spec_window_var_name().len() == 0,
    {
        let mut window = Self::new(interval_seconds);
        proof {
            reveal_strlit("");
        }
        let _ = window.expose_impl(reg, "", name);
        window
    }
}

impl<const N: usize> Variable for Window<i64, N> {
    open spec fn spec_var_name(&self) -> Seq<char> {
        self.spec_window_var_name()
    }

    open spec fn spec_token(&self) -> Option<u64> {
        self.spec_window_token()
    }

    open spec fn spec_description(&self) -> Seq<char> {
        if self.samples().len() > 0 {
            int_text(self.samples().last().0 as int)
        } else {
            "N/A"@
        }
    }

    open spec fn spec_hidden(&self) -> bool {
        self.spec_window_var_name().len() == 0
    }

    open spec fn inv(&self) -> bool {
        self.wf()
    }

    fn describe(&self, out: &mut String, quote_string: bool) -> (r: bool) {
        match self.get_value() {
            Option::Some(v) => {
                push_i64_text(out, v);
            },
            Option::None => {
                out.append("N/A");
            },
        }
        true
    }

    fn expose_impl(&mut self, reg: &mut VarRegistry, prefix: &str, name: &str) -> (r: i32)
        ensures
            final(self).samples() == old(self).samples(),
            final(self).spec_interval_ms() == old(self).spec_interval_ms(),
    {
        let (status, token, full) = crate::variable::default_expose_impl(reg, prefix, name);
        if status == 0 {
            self.name = full;
            self.token = token;
        }
        status
    }

    fn name(&self) -> (r: String) {
        self.name.clone()
    }

    fn token(&self) -> (t: Option<u64>) {
        self.token
    }

    fn is_hidden(&self) -> (r: bool) {
        self.name.as_str().is_empty()
    }
}

} // verus!
