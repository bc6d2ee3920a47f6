//! A recorder of integer samples that reports their average, sharded per
//! worker like every other aggregate.

use vstd::prelude::*;
use vstd::math::abs;
use crate::combiner::{AgentCombiner, Combiner, fold_values, wrap_i64};
use crate::reducer::lemma_wrap_add_associative;
use crate::text::{dec_text, int_text, push_i64_text, push_u64_text};
use crate::variable::{full_name_text, VarRegistry, Variable};

verus! {

/// A running total and a count of samples, enough to compute an average.
#[derive(Clone, Copy, Debug)]
pub struct Stat {
    /// The wrap-around sum of all samples.
    pub sum: i64,
    /// The wrap-around count of samples.
    pub num: i64,
}

/// The componentwise wrap-around sum of two stats.
pub open spec fn stat_plus(a: Stat, b: Stat) -> Stat {
    Stat { sum: wrap_i64(a.sum + b.sum) as i64, num: wrap_i64(a.num + b.num) as i64 }
}

/// The componentwise wrap-around difference of two stats.
pub open spec fn stat_minus(a: Stat, b: Stat) -> Stat {
    Stat { sum: wrap_i64(a.sum - b.sum) as i64, num: wrap_i64(a.num - b.num) as i64 }
}

/// The stat with nothing recorded.
pub open spec fn stat_zero() -> Stat {
    Stat { sum: 0, num: 0 }
}

/// The integer average of a stat: the quotient truncated toward zero, and
/// zero when nothing was recorded.
pub open spec fn spec_average_int(sum: int, num: int) -> int {
    if num == 0 {
        0
    } else {
        let q: int = abs(sum) as int / abs(num) as int;
        if (sum < 0) != (num < 0) {
            -q
        } else {
            q
        }
    }
}

impl Stat {
    /// Creates a stat from a sum and a count.
    pub fn new(sum: i64, num: i64) -> (r: Self)
        ensures
            r.sum == sum,
            r.num == num,
    {
        Self { sum, num }
    }

    /// The average sample, truncated toward zero; zero when no sample was
    /// recorded. The one quotient that exceeds the `i64` range is excluded.
    pub fn get_average_int(&self) -> (r: i64)
        requires
            !(self.sum == i64::MIN && self.num == -1),
        ensures
            r == spec_average_int(self.sum as int, self.num as int),
    {
        if self.num == 0 {
            return 0;
        }
        let negative = (self.sum < 0) != (self.num < 0);
        let sum_mag: u64 = if self.sum < 0 {
            (-(self.sum as i128)) as u64
        } else {
            self.sum as u64
        };
        let num_mag: u64 = if self.num < 0 {
            (-(self.num as i128)) as u64
        } else {
            self.num as u64
        };
        let q: u64 = sum_mag / num_mag;
        proof {
            assert(sum_mag == abs(self.sum as int));
            assert(num_mag == abs(self.num as int));
            assert(q <= sum_mag) by (nonlinear_arith)
                requires
                    num_mag >= 1,
                    q == sum_mag as int / num_mag as int,
            ;
        }
        if negative {
            (-(q as i128)) as i64
        } else {
            proof {
                if self.sum == i64::MIN {
                    assert(self.num <= -2);
                    assert(num_mag >= 2);
                    assert(q <= sum_mag / 2) by (nonlinear_arith)
                        requires
                            num_mag >= 2,
                            q == sum_mag as int / num_mag as int,
                    ;
                }
            }
            q as i64
        }
    }

    /// The componentwise wrap-around sum of this stat and `rhs`.
    pub fn plus(&self, rhs: &Stat) -> (r: Stat)
        ensures
            r == stat_plus(*self, *rhs),
    {
        Stat { sum: self.sum.wrapping_add(rhs.sum), num: self.num.wrapping_add(rhs.num) }
    }

    /// The componentwise wrap-around difference of this stat and `rhs`.
    pub fn minus(&self, rhs: &Stat) -> (r: Stat)
        ensures
            r == stat_minus(*self, *rhs),
    {
        Stat { sum: self.sum.wrapping_sub(rhs.sum), num: self.num.wrapping_sub(rhs.num) }
    }
}

/// Merges two stats by componentwise wrap-around addition: the combining
/// operation behind the recorder's shards.
#[derive(Clone, Copy)]
pub struct StatAdd;

impl Combiner<Stat> for StatAdd {
    open spec fn spec_combine(&self, a: Stat, b: Stat) -> Stat {
        stat_plus(a, b)
    }

    open spec fn spec_modify(&self, v: Stat) -> Stat {
        v
    }

    open spec fn spec_name(&self) -> Seq<char> {
        "stat"@
    }

    open spec fn lawful(&self) -> bool {
        true
    }

    proof fn lemma_commutative(&self, a: Stat, b: Stat) {
    }

    proof fn lemma_associative(&self, a: Stat, b: Stat, c: Stat) {
        lemma_wrap_add_associative(a.sum, b.sum, c.sum);
        lemma_wrap_add_associative(a.num, b.num, c.num);
    }

    fn combine(&self, a: Stat, b: Stat) -> (r: Stat) {
        a.plus(&b)
    }

    fn modify(&self, v: Stat) -> (r: Stat) {
        v
    }

    fn name(&self) -> (r: &'static str) {
        "stat"
    }
}

/// Records integer samples from many workers without cross-worker locking
/// and reports their running average.
pub struct IntRecorder {
    combiner: AgentCombiner<Stat, StatAdd>,
    token: Option<u64>,
    debug_name: String,
}

impl IntRecorder {
    /// The per-worker stats, in first-touch order.
    pub closed spec fn values(&self) -> Seq<Stat> {
        self.combiner.values()
    }

    /// The worker keys owning each shard.
    pub closed spec fn keys(&self) -> Seq<u64> {
        self.combiner.keys()
    }

    /// The shard storage is well formed and starts shards from zero.
    pub closed spec fn wf(&self) -> bool {
        &&& self.combiner.wf()
        &&& self.combiner.spec_identity() == stat_zero()
        &&& self.combiner.spec_op() == StatAdd
    }

    /// The recorder's display name.
    pub closed spec fn spec_rec_name(&self) -> Seq<char> {
        self.combiner.spec_name()
    }

    /// The identity token of the current exposure.
    pub closed spec fn spec_rec_token(&self) -> Option<u64> {
        self.token
    }

    /// The fold of all per-worker stats.
    pub open spec fn spec_fold(&self) -> Stat {
        fold_values(StatAdd, stat_zero(), self.values())
    }

    /// Creates a recorder with no shards: its value is the zero stat.
    pub fn new() -> (r: Self)
        ensures
            r.wf(),
            r.values() == Seq::<Stat>::empty(),
            r.keys() == Seq::<u64>::empty(),
            r.spec_rec_name().len() == 0,
            r.spec_rec_token() is None,
    {
        Self {
            combiner: AgentCombiner::new(Stat { sum: 0, num: 0 }, StatAdd, String::new()),
            token: None,
            debug_name: String::new(),
        }
    }

    /// Creates a recorder already exposed under `name`, when the name is
    /// free.
    pub fn with_name(reg: &mut VarRegistry, name: &str) -> (r: Self)
        requires
            old(reg).wf(),
            old(reg).spec_next_token() < u64::MAX,
        ensures
            final(reg).wf(),
            r.wf(),
            r.values() == Seq::<Stat>::empty(),
            !old(reg).entries().dom().contains(name@) ==> r.spec_rec_name() == name@,
            old(reg).entries().dom().contains(name@) ==> r.spec_rec_name().len() == 0,
    {
        let mut recorder = Self::new();
        proof {
            reveal_strlit("");
        }
        let _ = recorder.expose_impl(reg, "", name);
        recorder
    }

    /// Creates a recorder already exposed under the full name built from
    /// `prefix` and `name`, when that name is free.
    pub fn with_prefix_name(reg: &mut VarRegistry, prefix: &str, name: &str) -> (r: Self)
        requires
            old(reg).wf(),
            old(reg).spec_next_token() < u64::MAX,
        ensures
            final(reg).wf(),
            r.wf(),
            r.values() == Seq::<Stat>::empty(),
            !old(reg).entries().dom().contains(full_name_text(prefix@, name@))
                ==> r.spec_rec_name() == full_name_text(prefix@, name@),
            old(reg).entries().dom().contains(full_name_text(prefix@, name@))
                ==> r.spec_rec_name().len() == 0,
    {
        let mut recorder = Self::new();
        let _ = recorder.expose_impl(reg, prefix, name);
        recorder
    }

    /// Records one sample from the given worker: the worker's own stat
    /// gains the sample in its sum and one in its count.
    pub fn add(&mut self, worker: u64, sample: i32)
        requires
            old(self).wf(),
            old(self).keys().len() + 1 < usize::MAX,
        ensures
            final(self).wf(),
            final(self).spec_rec_name() == old(self).spec_rec_name(),
            final(self).spec_rec_token() == old(self).spec_rec_token(),
            old(self).keys().contains(worker) ==> {
                &&& final(self).keys() == old(self).keys()
                &&& final(self).values() == old(self).values().update(
                    old(self).keys().index_of(worker),
                    stat_plus(
                        old(self).values()[old(self).keys().index_of(worker)],
                        Stat { sum: sample as i64, num: 1 },
                    ),
                )
            },
            !old(self).keys().contains(worker) ==> {
                &&& final(self).keys() == old(self).keys().push(worker)
                &&& final(self).values() == old(self).values().push(
                    Stat { sum: sample as i64, num: 1 },
                )
            },
    {
        let delta = Stat { sum: sample as i64, num: 1 };
        let i = self.combiner.get_or_create_tls_agent(worker);
        self.combiner.combine_at(i, delta);
        proof {
            if !old(self).keys().contains(worker) {
                assert(stat_plus(stat_zero(), delta) == delta);
                assert(self.values() =~= old(self).values().push(delta));
            }
        }
    }

    /// The integer average of everything recorded; see
    /// `Stat::get_average_int` for the one excluded quotient.
    pub fn average(&self) -> (r: i64)
        requires
            self.wf(),
            !(self.spec_fold().sum == i64::MIN && self.spec_fold().num == -1),
        ensures
            r == spec_average_int(self.spec_fold().sum as int, self.spec_fold().num as int),
    {
        self.get_value().get_average_int()
    }

    /// The fold of all per-worker stats.
    pub fn get_value(&self) -> (r: Stat)
        requires
            self.wf(),
        ensures
            r == self.spec_fold(),
    {
        self.combiner.combine_agents()
    }

    /// Folds all shards, then resets each to the zero stat; returns the
    /// pre-reset fold.
    pub fn reset(&mut self) -> (r: Stat)
        requires
            old(self).wf(),
        ensures
            final(self).wf(),
            r == old(self).spec_fold(),
            final(self).values() == Seq::new(old(self).values().len(), |i: int| stat_zero()),
            final(self).keys() == old(self).keys(),
            final(self).spec_rec_name() == old(self).spec_rec_name(),
            final(self).spec_rec_token() == old(self).spec_rec_token(),
    {
        self.combiner.reset_all_agents()
    }

    /// Replaces the debugging name; the exposed name is untouched.
    pub fn set_debug_name(&mut self, name: &str)
        requires
            old(self).wf(),
        ensures
            final(self).wf(),
            final(self).values() == old(self).values(),
            final(self).keys() == old(self).keys(),
            final(self).spec_rec_name() == old(self).spec_rec_name(),
            final(self).spec_rec_token() == old(self).spec_rec_token(),
    {
        self.debug_name = name.to_owned();
    }
}

impl Variable for IntRecorder {
    open spec fn spec_var_name(&self) -> Seq<char> {
        self.spec_rec_name()
    }

    open spec fn spec_token(&self) -> Option<u64> {
        self.spec_rec_token()
    }

    open spec fn spec_description(&self) -> Seq<char> {
        int_text(spec_average_int(self.spec_fold().sum as int, self.spec_fold().num as int))
    }

    open spec fn spec_hidden(&self) -> bool {
        self.spec_var_name().len() == 0
    }

    open spec fn inv(&self) -> bool {
        self.wf()
    }

    fn describe(&self, out: &mut String, quote_string: bool) -> (r: bool) {
        let stat = self.get_value();
        if stat.sum == i64::MIN && stat.num == -1 {
            push_u64_text(out, 9223372036854775808u64);
            proof {
                let s = self.spec_fold();
                assert(abs(s.sum as int) == 9223372036854775808nat);
                assert(abs(s.num as int) == 1nat);
                assert(spec_average_int(s.sum as int, s.num as int) == 9223372036854775808int);
                assert(self.spec_description() =~= dec_text(9223372036854775808nat));
            }
        } else {
            let avg = stat.get_average_int();
            push_i64_text(out, avg);
        }
        true
    }

    fn expose_impl(&mut self, reg: &mut VarRegistry, prefix: &str, name: &str) -> (r: i32)
        ensures
            final(self).values() == old(self).values(),
            final(self).keys() == old(self).keys(),
    {
        let (status, token, full) = crate::variable::default_expose_impl(reg, prefix, name);
        if status == 0 {
            self.combiner.set_name(full);
            self.token = token;
        }
        status
    }

    fn name(&self) -> (r: String) {
        self.combiner.name().clone()
    }

    fn token(&self) -> (t: Option<u64>) {
        self.token
    }

    fn is_hidden(&self) -> (r: bool) {
        self.combiner.name().as_str().is_empty()
    }
}

} // verus!
