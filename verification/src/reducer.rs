//! Reduction of many values into one: a sharded reducer plus the standard
//! combining operations (sum, max, min) and their convenience wrappers.

use vstd::prelude::*;
use crate::combiner::{AgentCombiner, Combiner, fold_values, wrap_i64};
use crate::text::{int_text, push_i64_text};
use crate::variable::{full_name_text, VarRegistry, Variable};

verus! {

/// A placeholder for an absent inverse operation.
#[derive(Clone, Copy)]
pub struct VoidOp;

/// What a reducer offers to a sampler: the current folded value, a
/// fold-and-reset step, and its operation.
pub trait ReducerTrait<T, Op>: Sized {
    /// The reducer's internal invariant.
    spec fn valid(&self) -> bool;

    /// The fold of all current shard values.
    spec fn spec_fold(&self) -> T;

    /// Reads the current folded value.
    fn get_value(&self) -> (r: T)
        ensures
            r == self.spec_fold(),
    ;

    /// Resets every shard, returning the pre-reset folded value.
    fn reset(&mut self) -> (r: T)
        requires
            old(self).valid(),
        ensures
            final(self).valid(),
            r == old(self).spec_fold(),
    ;

    /// The combining operation.
    fn op(&self) -> &Op;
}

/// Reduces the values added by many workers into one value: e1 op e2 op e3
/// and so on. The operation must be associative, commutative and free of
/// side effects for the fold to be independent of the shard order; the
/// `Combiner` contract states those laws.
pub struct Reducer<T, Op> {
    combiner: AgentCombiner<T, Op>,
    token: Option<u64>,
}

impl<T: Copy, Op: Combiner<T>> Reducer<T, Op> {
    /// The shard values, in first-touch order.
    pub closed spec fn values(&self) -> Seq<T> {
        self.combiner.values()
    }

    /// The worker keys owning each shard, in first-touch order.
    pub closed spec fn keys(&self) -> Seq<u64> {
        self.combiner.keys()
    }

    /// The identity element.
    pub closed spec fn spec_identity(&self) -> T {
        self.combiner.spec_identity()
    }

    /// The combining operation.
    pub closed spec fn spec_op(&self) -> Op {
        self.combiner.spec_op()
    }

    /// The display name.
    pub closed spec fn spec_name(&self) -> Seq<char> {
        self.combiner.spec_name()
    }

    /// The identity token of the current exposure, if any.
    pub closed spec fn spec_reducer_token(&self) -> Option<u64> {
        self.token
    }

    /// The underlying shard storage is well formed.
    pub closed spec fn wf(&self) -> bool {
        self.combiner.wf()
    }

    /// Creates a reducer with no shards: a fold returns `identity` until a
    /// value is added.
    pub fn new(identity: T, op: Op, name: String) -> (r: Self)
        ensures
            r.wf(),
            r.values() == Seq::<T>::empty(),
            r.keys() == Seq::<u64>::empty(),
            r.spec_identity() == identity,
            r.spec_op() == op,
            r.spec_name() == name@,
            r.spec_fold() == identity,
            r.spec_reducer_token() is None,
    {
        Self { combiner: AgentCombiner::new(identity, op, name), token: None }
    }

    /// Combines `value` into the shard of the given worker, creating the
    /// shard lazily on first touch. No other worker's shard is read or
    /// written.
    pub fn add(&mut self, worker: u64, value: T)
        requires
            old(self).wf(),
            old(self).keys().len() + 1 < usize::MAX,
        ensures
            final(self).wf(),
            final(self).spec_identity() == old(self).spec_identity(),
            final(self).spec_op() == old(self).spec_op(),
            final(self).spec_name() == old(self).spec_name(),
            final(self).spec_reducer_token() == old(self).spec_reducer_token(),
            old(self).keys().contains(worker) ==> {
                &&& final(self).keys() == old(self).keys()
                &&& final(self).values() == old(self).values().update(
                    old(self).keys().index_of(worker),
                    old(self).spec_op().spec_combine(
                        old(self).values()[old(self).keys().index_of(worker)],
                        value,
                    ),
                )
            },
            !old(self).keys().contains(worker) ==> {
                &&& final(self).keys() == old(self).keys().push(worker)
                &&& final(self).values() == old(self).values().push(
                    old(self).spec_op().spec_combine(old(self).spec_identity(), value),
                )
            },
    {
        let i = self.combiner.get_or_create_tls_agent(worker);
        self.combiner.combine_at(i, value);
        proof {
            if !old(self).keys().contains(worker) {
                assert(self.values() =~= old(self).values().push(
                    old(self).spec_op().spec_combine(old(self).spec_identity(), value),
                ));
            }
        }
    }

    /// The current folded value: the identity combined with every shard's
    /// value in first-touch order.
    pub fn get_value(&self) -> (r: T)
        ensures
            r == self.spec_fold(),
    {
        self.combiner.combine_agents()
    }

    /// Folds all shards, then resets each to the identity; returns the
    /// pre-reset folded value.
    pub fn reset(&mut self) -> (r: T)
        requires
            old(self).wf(),
        ensures
            final(self).wf(),
            r == old(self).spec_fold(),
            final(self).values() == Seq::new(
                old(self).values().len(),
                |i: int| old(self).spec_identity(),
            ),
            final(self).keys() == old(self).keys(),
            final(self).spec_identity() == old(self).spec_identity(),
            final(self).spec_op() == old(self).spec_op(),
            final(self).spec_name() == old(self).spec_name(),
            final(self).spec_reducer_token() == old(self).spec_reducer_token(),
    {
        self.combiner.reset_all_agents()
    }

    /// The combining operation.
    pub fn op(&self) -> (r: &Op)
        ensures
            *r == self.spec_op(),
    {
        self.combiner.op()
    }

    /// Replaces the display name.
    pub fn set_name(&mut self, name: String)
        requires
            old(self).wf(),
        ensures
            final(self).wf(),
            final(self).spec_name() == name@,
            final(self).values() == old(self).values(),
            final(self).keys() == old(self).keys(),
            final(self).spec_identity() == old(self).spec_identity(),
            final(self).spec_op() == old(self).spec_op(),
            final(self).spec_reducer_token() == old(self).spec_reducer_token(),
    {
        self.combiner.set_name(name);
    }

    /// The display name.
    pub fn name(&self) -> (r: &String)
        ensures
            r@ == self.spec_name(),
    {
        self.combiner.name()
    }
}

impl<T: Copy, Op: Combiner<T>> ReducerTrait<T, Op> for Reducer<T, Op> {
    open spec fn valid(&self) -> bool {
        self.wf()
    }

    open spec fn spec_fold(&self) -> T {
        fold_values(self.spec_op(), self.spec_identity(), self.values())
    }

    fn get_value(&self) -> (r: T) {
        Reducer::get_value(self)
    }

    fn reset(&mut self) -> (r: T) {
        self.combiner.reset_all_agents()
    }

    fn op(&self) -> &Op {
        Reducer::op(self)
    }
}

/// Wrap-around addition of two `i64` values is associative.
pub proof fn lemma_wrap_add_associative(a: i64, b: i64, c: i64)
    ensures
        wrap_i64(wrap_i64(a + b) + c) == wrap_i64(a + wrap_i64(b + c)),
{
}

/// Addition, wrapping around the `i64` range.
#[derive(Clone, Copy)]
pub struct AddTo;

impl Default for AddTo {
    fn default() -> (r: Self)
        ensures
            r == AddTo,
    {
        AddTo
    }
}

impl Combiner<i64> for AddTo {
    open spec fn spec_combine(&self, a: i64, b: i64) -> i64 {
        wrap_i64(a + b) as i64
    }

    open spec fn spec_modify(&self, v: i64) -> i64 {
        v
    }

    open spec fn spec_name(&self) -> Seq<char> {
        "add"@
    }

    open spec fn lawful(&self) -> bool {
        true
    }

    proof fn lemma_commutative(&self, a: i64, b: i64) {
    }

    proof fn lemma_associative(&self, a: i64, b: i64, c: i64) {
        lemma_wrap_add_associative(a, b, c);
    }

    fn combine(&self, a: i64, b: i64) -> (r: i64) {
        a.wrapping_add(b)
    }

    fn modify(&self, v: i64) -> (r: i64) {
        v
    }

    fn name(&self) -> (r: &'static str) {
        "add"
    }
}

/// Subtraction, wrapping around the `i64` range. Not associative or
/// commutative: it serves as the inverse of `AddTo`, never as a fold
/// operation.
#[derive(Clone, Copy)]
pub struct MinusFrom;

impl Default for MinusFrom {
    fn default() -> (r: Self)
        ensures
            r == MinusFrom,
    {
        MinusFrom
    }
}

impl Combiner<i64> for MinusFrom {
    open spec fn spec_combine(&self, a: i64, b: i64) -> i64 {
        wrap_i64(a - b) as i64
    }

    open spec fn spec_modify(&self, v: i64) -> i64 {
        v
    }

    open spec fn spec_name(&self) -> Seq<char> {
        "minus"@
    }

    open spec fn lawful(&self) -> bool {
        false
    }

    proof fn lemma_commutative(&self, a: i64, b: i64) {
    }

    proof fn lemma_associative(&self, a: i64, b: i64, c: i64) {
    }

    fn combine(&self, a: i64, b: i64) -> (r: i64) {
        a.wrapping_sub(b)
    }

    fn modify(&self, v: i64) -> (r: i64) {
        v
    }

    fn name(&self) -> (r: &'static str) {
        "minus"
    }
}

/// Keeps the larger of two values.
#[derive(Clone, Copy)]
pub struct MaxTo;

impl Default for MaxTo {
    fn default() -> (r: Self)
        ensures
            r == MaxTo,
    {
        MaxTo
    }
}

impl Combiner<i64> for MaxTo {
    open spec fn spec_combine(&self, a: i64, b: i64) -> i64 {
        if b > a {
            b
        } else {
            a
        }
    }

    open spec fn spec_modify(&self, v: i64) -> i64 {
        v
    }

    open spec fn spec_name(&self) -> Seq<char> {
        "max"@
    }

    open spec fn lawful(&self) -> bool {
        true
    }

    proof fn lemma_commutative(&self, a: i64, b: i64) {
    }

    proof fn lemma_associative(&self, a: i64, b: i64, c: i64) {
    }

    fn combine(&self, a: i64, b: i64) -> (r: i64) {
        if b > a {
            b
        } else {
            a
        }
    }

    fn modify(&self, v: i64) -> (r: i64) {
        v
    }

    fn name(&self) -> (r: &'static str) {
        "max"
    }
}

/// Keeps the smaller of two values.
#[derive(Clone, Copy)]
pub struct MinTo;

impl Default for MinTo {
    fn default() -> (r: Self)
        ensures
            r == MinTo,
    {
        MinTo
    }
}

impl Combiner<i64> for MinTo {
    open spec fn spec_combine(&self, a: i64, b: i64) -> i64 {
        if b < a {
            b
        } else {
            a
        }
    }

    open spec fn spec_modify(&self, v: i64) -> i64 {
        v
    }

    open spec fn spec_name(&self) -> Seq<char> {
        "min"@
    }

    open spec fn lawful(&self) -> bool {
        true
    }

    proof fn lemma_commutative(&self, a: i64, b: i64) {
    }

    proof fn lemma_associative(&self, a: i64, b: i64, c: i64) {
    }

    fn combine(&self, a: i64, b: i64) -> (r: i64) {
        if b < a {
            b
        } else {
            a
        }
    }

    fn modify(&self, v: i64) -> (r: i64) {
        v
    }

    fn name(&self) -> (r: &'static str) {
        "min"
    }
}

/// Wrap-around summation of two values.
#[derive(Clone, Copy)]
pub struct SumCombiner;

impl Combiner<i64> for SumCombiner {
    open spec fn spec_combine(&self, a: i64, b: i64) -> i64 {
        wrap_i64(a + b) as i64
    }

    open spec fn spec_modify(&self, v: i64) -> i64 {
        v
    }

    open spec fn spec_name(&self) -> Seq<char> {
        "sum"@
    }

    open spec fn lawful(&self) -> bool {
        true
    }

    proof fn lemma_commutative(&self, a: i64, b: i64) {
    }

    proof fn lemma_associative(&self, a: i64, b: i64, c: i64) {
        lemma_wrap_add_associative(a, b, c);
    }

    fn combine(&self, a: i64, b: i64) -> (r: i64) {
        a.wrapping_add(b)
    }

    fn modify(&self, v: i64) -> (r: i64) {
        v
    }

    fn name(&self) -> (r: &'static str) {
        "sum"
    }
}

/// Takes the larger of two values, preferring the first on ties.
#[derive(Clone, Copy)]
pub struct MaxCombiner;

impl Combiner<i64> for MaxCombiner {
    open spec fn spec_combine(&self, a: i64, b: i64) -> i64 {
        if a > b {
            a
        } else {
            b
        }
    }

    open spec fn spec_modify(&self, v: i64) -> i64 {
        v
    }

    open spec fn spec_name(&self) -> Seq<char> {
        "max"@
    }

    open spec fn lawful(&self) -> bool {
        true
    }

    proof fn lemma_commutative(&self, a: i64, b: i64) {
    }

    proof fn lemma_associative(&self, a: i64, b: i64, c: i64) {
    }

    fn combine(&self, a: i64, b: i64) -> (r: i64) {
        if a > b {
            a
        } else {
            b
        }
    }

    fn modify(&self, v: i64) -> (r: i64) {
        v
    }

    fn name(&self) -> (r: &'static str) {
        "max"
    }
}

/// Takes the smaller of two values, preferring the first on ties.
#[derive(Clone, Copy)]
pub struct MinCombiner;

impl Combiner<i64> for MinCombiner {
    open spec fn spec_combine(&self, a: i64, b: i64) -> i64 {
        if a < b {
            a
        } else {
            b
        }
    }

    open spec fn spec_modify(&self, v: i64) -> i64 {
        v
    }

    open spec fn spec_name(&self) -> Seq<char> {
        "min"@
    }

    open spec fn lawful(&self) -> bool {
        true
    }

    proof fn lemma_commutative(&self, a: i64, b: i64) {
    }

    proof fn lemma_associative(&self, a: i64, b: i64, c: i64) {
    }

    fn combine(&self, a: i64, b: i64) -> (r: i64) {
        if a < b {
            a
        } else {
            b
        }
    }

    fn modify(&self, v: i64) -> (r: i64) {
        v
    }

    fn name(&self) -> (r: &'static str) {
        "min"
    }
}

impl<Op: Combiner<i64>> Variable for Reducer<i64, Op> {
    open spec fn spec_var_name(&self) -> Seq<char> {
        self.spec_name()
    }

    open spec fn spec_token(&self) -> Option<u64> {
        self.spec_reducer_token()
    }

    open spec fn spec_description(&self) -> Seq<char> {
        int_text(fold_values(self.spec_op(), self.spec_identity(), self.values()) as int)
    }

    open spec fn spec_hidden(&self) -> bool {
        self.spec_name().len() == 0
    }

    open spec fn inv(&self) -> bool {
        self.wf()
    }

    fn describe(&self, out: &mut String, quote_string: bool) -> (r: bool) {
        let v = Reducer::get_value(self);
        push_i64_text(out, v);
        true
    }

    fn expose_impl(&mut self, reg: &mut VarRegistry, prefix: &str, name: &str) -> (r: i32)
        ensures
            final(self).values() == old(self).values(),
            final(self).keys() == old(self).keys(),
            final(self).spec_identity() == old(self).spec_identity(),
            final(self).spec_op() == old(self).spec_op(),
    {
        let (status, token, full) = crate::variable::default_expose_impl(reg, prefix, name);
        if status == 0 {
            self.combiner.set_name(full);
            self.token = token;
        }
        status
    }

    fn name(&self) -> (r: String) {
        self.combiner.name().clone()
    }

    fn token(&self) -> (t: Option<u64>) {
        self.token
    }

    fn is_hidden(&self) -> (r: bool) {
        self.combiner.name().as_str().is_empty()
    }
}

/// Accumulates a wrap-around sum of everything added, sharded per worker.
pub struct Adder {
    inner: Reducer<i64, AddTo>,
}

impl Adder {
    /// The per-worker partial sums, in first-touch order.
    pub closed spec fn values(&self) -> Seq<i64> {
        self.inner.values()
    }

    /// The worker keys owning each shard.
    pub closed spec fn keys(&self) -> Seq<u64> {
        self.inner.keys()
    }

    /// The adder's shards are well formed and start from zero.
    pub closed spec fn wf(&self) -> bool {
        &&& self.inner.wf()
        &&& self.inner.spec_identity() == 0i64
        &&& self.inner.spec_op() == AddTo
    }

    /// The wrap-around sum of every added value.
    pub closed spec fn spec_sum(&self) -> i64 {
        fold_values(AddTo, 0i64, self.values())
    }

    /// Creates an adder with no shards: its value is zero.
    pub fn new() -> (r: Self)
        ensures
            r.wf(),
            r.values() == Seq::<i64>::empty(),
            r.spec_sum() == 0i64,
            r.spec_var_name().len() == 0,
    {
        Self { inner: Reducer::new(0i64, AddTo, String::new()) }
    }

    /// Creates an adder already exposed under `name`, when the name is
    /// free.
    pub fn with_name(reg: &mut VarRegistry, name: &str) -> (r: Self)
        requires
            old(reg).wf(),
            old(reg).spec_next_token() < u64::MAX,
        ensures
            final(reg).wf(),
            r.wf(),
            r.values() == Seq::<i64>::empty(),
            !old(reg).entries().dom().contains(name@) ==> r.spec_var_name() == name@,
            old(reg).entries().dom().contains(name@) ==> r.spec_var_name().len() == 0,
    {
        let mut adder = Self::new();
        proof {
            reveal_strlit("");
        }
        let _ = adder.inner.expose_impl(reg, "", name);
        adder
    }

    /// Creates an adder already exposed under the full name built from
    /// `prefix` and `name`, when that name is free.
    pub fn with_prefix_name(reg: &mut VarRegistry, prefix: &str, name: &str) -> (r: Self)
        requires
            old(reg).wf(),
            old(reg).spec_next_token() < u64::MAX,
        ensures
            final(reg).wf(),
            r.wf(),
            r.values() == Seq::<i64>::empty(),
            !old(reg).entries().dom().contains(full_name_text(prefix@, name@))
                ==> r.spec_var_name() == full_name_text(prefix@, name@),
            old(reg).entries().dom().contains(full_name_text(prefix@, name@))
                ==> r.spec_var_name().len() == 0,
    {
        let mut adder = Self::new();
        let _ = adder.inner.expose_impl(reg, prefix, name);
        adder
    }

    /// Adds `value` into the calling worker's shard.
    pub fn add(&mut self, worker: u64, value: i64)
        requires
            old(self).wf(),
            old(self).keys().len() + 1 < usize::MAX,
        ensures
            final(self).wf(),
            old(self).keys().contains(worker) ==> {
                &&& final(self).keys() == old(self).keys()
                &&& final(self).values() == old(self).values().update(
                    old(self).keys().index_of(worker),
                    wrap_i64(old(self).values()[old(self).keys().index_of(worker)] + value) as i64,
                )
            },
            !old(self).keys().contains(worker) ==> {
                &&& final(self).keys() == old(self).keys().push(worker)
                &&& final(self).values() == old(self).values().push(value)
            },
    {
        self.inner.add(worker, value);
        proof {
            if !old(self).keys().contains(worker) {
                assert(wrap_i64(0 + value) == value as int);
                assert(self.values() =~= old(self).values().push(value));
            }
        }
    }

    /// The wrap-around sum of every added value.
    pub fn get_value(&self) -> (r: i64)
        requires
            self.wf(),
        ensures
            r == self.spec_sum(),
    {
        Reducer::get_value(&self.inner)
    }

    /// Resets every shard to zero, returning the pre-reset sum.
    pub fn reset(&mut self) -> (r: i64)
        requires
            old(self).wf(),
        ensures
            final(self).wf(),
            r == old(self).spec_sum(),
            final(self).values() == Seq::new(old(self).values().len(), |i: int| 0i64),
            final(self).keys() == old(self).keys(),
    {
        Reducer::reset(&mut self.inner)
    }
}

impl Variable for Adder {
    closed spec fn spec_var_name(&self) -> Seq<char> {
        self.inner.spec_name()
    }

    closed spec fn spec_token(&self) -> Option<u64> {
        self.inner.spec_reducer_token()
    }

    closed spec fn spec_description(&self) -> Seq<char> {
        int_text(self.spec_sum() as int)
    }

    closed spec fn spec_hidden(&self) -> bool {
        self.inner.spec_name().len() == 0
    }

    closed spec fn inv(&self) -> bool {
        self.wf()
    }

    fn describe(&self, out: &mut String, quote_string: bool) -> (r: bool) {
        self.inner.describe(out, quote_string)
    }

    fn expose_impl(&mut self, reg: &mut VarRegistry, prefix: &str, name: &str) -> (r: i32)
        ensures
            final(self).values() == old(self).values(),
            final(self).keys() == old(self).keys(),
    {
        self.inner.expose_impl(reg, prefix, name)
    }

    fn name(&self) -> (r: String) {
        self.inner.name().clone()
    }

    fn token(&self) -> (t: Option<u64>) {
        Variable::token(&self.inner)
    }

    fn is_hidden(&self) -> (r: bool) {
        self.inner.name().as_str().is_empty()
    }
}

impl Default for Adder {
    fn default() -> (r: Self)
        ensures
            r.wf(),
            r.values() == Seq::<i64>::empty(),
    {
        Self::new()
    }
}

/// Tracks the largest value added so far, sharded per worker.
pub struct Maxer {
    inner: Reducer<i64, MaxTo>,
}

impl Maxer {
    /// The per-worker partial maxima, in first-touch order.
    pub closed spec fn values(&self) -> Seq<i64> {
        self.inner.values()
    }

    /// The worker keys owning each shard.
    pub closed spec fn keys(&self) -> Seq<u64> {
        self.inner.keys()
    }

    /// The default value new shards start from.
    pub closed spec fn spec_default(&self) -> i64 {
        self.inner.spec_identity()
    }

    /// The maxer's shards are well formed.
    pub closed spec fn wf(&self) -> bool {
        &&& self.inner.wf()
        &&& self.inner.spec_op() == MaxTo
    }

    /// The largest of the default value and every shard's maximum.
    pub closed spec fn spec_max(&self) -> i64 {
        fold_values(MaxTo, self.spec_default(), self.values())
    }

    /// Creates a maxer whose value is `default_value` until something
    /// larger is added.
    pub fn new(default_value: i64) -> (r: Self)
        ensures
            r.wf(),
            r.values() == Seq::<i64>::empty(),
            r.spec_default() == default_value,
            r.spec_max() == default_value,
            r.spec_var_name().len() == 0,
    {
        Self { inner: Reducer::new(default_value, MaxTo, String::new()) }
    }

    /// Creates a maxer already exposed under `name`, when the name is
    /// free.
    pub fn with_name(reg: &mut VarRegistry, default_value: i64, name: &str) -> (r: Self)
        requires
            old(reg).wf(),
            old(reg).spec_next_token() < u64::MAX,
        ensures
            final(reg).wf(),
            r.wf(),
            r.values() == Seq::<i64>::empty(),
            r.spec_default() == default_value,
            !old(reg).entries().dom().contains(name@) ==> r.spec_var_name() == name@,
            old(reg).entries().dom().contains(name@) ==> r.spec_var_name().len() == 0,
    {
        let mut maxer = Self::new(default_value);
        proof {
            reveal_strlit("");
        }
        let _ = maxer.inner.expose_impl(reg, "", name);
        maxer
    }

    /// Creates a maxer already exposed under the full name built from
    /// `prefix` and `name`, when that name is free.
    pub fn with_prefix_name(reg: &mut VarRegistry, default_value: i64, prefix: &str, name: &str) -> (r: Self)
        requires
            old(reg).wf(),
            old(reg).spec_next_token() < u64::MAX,
        ensures
            final(reg).wf(),
            r.wf(),
            r.values() == Seq::<i64>::empty(),
            r.spec_default() == default_value,
            !old(reg).entries().dom().contains(full_name_text(prefix@, name@))
                ==> r.spec_var_name() == full_name_text(prefix@, name@),
            old(reg).entries().dom().contains(full_name_text(prefix@, name@))
                ==> r.spec_var_name().len() == 0,
    {
        let mut maxer = Self::new(default_value);
        let _ = maxer.inner.expose_impl(reg, prefix, name);
        maxer
    }

    /// Raises the calling worker's shard to `value` when larger.
    pub fn add(&mut self, worker: u64, value: i64)
        requires
            old(self).wf(),
            old(self).keys().len() + 1 < usize::MAX,
        ensures
            final(self).wf(),
            final(self).spec_default() == old(self).spec_default(),
            old(self).keys().contains(worker) ==> {
                &&& final(self).keys() == old(self).keys()
                &&& final(self).values() == old(self).values().update(
                    old(self).keys().index_of(worker),
                    (if value > old(self).values()[old(self).keys().index_of(worker)] {
                        value
                    } else {
                        old(self).values()[old(self).keys().index_of(worker)]
                    }),
                )
            },
            !old(self).keys().contains(worker) ==> {
                &&& final(self).keys() == old(self).keys().push(worker)
                &&& final(self).values() == old(self).values().push(
                    (if value > old(self).spec_default() {
                        value
                    } else {
                        old(self).spec_default()
                    }),
                )
            },
    {
        self.inner.add(worker, value);
    }

    /// The largest of the default value and everything added.
    pub fn get_value(&self) -> (r: i64)
        requires
            self.wf(),
        ensures
            r == self.spec_max(),
    {
        Reducer::get_value(&self.inner)
    }

    /// Resets every shard to the default value, returning the pre-reset
    /// maximum.
    pub fn reset(&mut self) -> (r: i64)
        requires
            old(self).wf(),
        ensures
            final(self).wf(),
            r == old(self).spec_max(),
            final(self).keys() == old(self).keys(),
            final(self).values() == Seq::new(
                old(self).values().len(),
                |i: int| old(self).spec_default(),
            ),
            final(self).spec_default() == old(self).spec_default(),
    {
        Reducer::reset(&mut self.inner)
    }
}

impl Variable for Maxer {
    closed spec fn spec_var_name(&self) -> Seq<char> {
        self.inner.spec_name()
    }

    closed spec fn spec_token(&self) -> Option<u64> {
        self.inner.spec_reducer_token()
    }

    closed spec fn spec_description(&self) -> Seq<char> {
        int_text(self.spec_max() as int)
    }

    closed spec fn spec_hidden(&self) -> bool {
        self.inner.spec_name().len() == 0
    }

    closed spec fn inv(&self) -> bool {
        self.wf()
    }

    fn describe(&self, out: &mut String, quote_string: bool) -> (r: bool) {
        self.inner.describe(out, quote_string)
    }

    fn expose_impl(&mut self, reg: &mut VarRegistry, prefix: &str, name: &str) -> (r: i32)
        ensures
            final(self).values() == old(self).values(),
            final(self).keys() == old(self).keys(),
            final(self).spec_default() == old(self).spec_default(),
    {
        self.inner.expose_impl(reg, prefix, name)
    }

    fn name(&self) -> (r: String) {
        self.inner.name().clone()
    }

    fn token(&self) -> (t: Option<u64>) {
        Variable::token(&self.inner)
    }

    fn is_hidden(&self) -> (r: bool) {
        self.inner.name().as_str().is_empty()
    }
}

/// Tracks the smallest value added so far, sharded per worker.
pub struct Miner {
    inner: Reducer<i64, MinTo>,
}

impl Miner {
    /// The per-worker partial minima, in first-touch order.
    pub closed spec fn values(&self) -> Seq<i64> {
        self.inner.values()
    }

    /// The worker keys owning each shard.
    pub closed spec fn keys(&self) -> Seq<u64> {
        self.inner.keys()
    }

    /// The default value new shards start from.
    pub closed spec fn spec_default(&self) -> i64 {
        self.inner.spec_identity()
    }

    /// The miner's shards are well formed.
    pub closed spec fn wf(&self) -> bool {
        &&& self.inner.wf()
        &&& self.inner.spec_op() == MinTo
    }

    /// The smallest of the default value and every shard's minimum.
    pub closed spec fn spec_min(&self) -> i64 {
        fold_values(MinTo, self.spec_default(), self.values())
    }

    /// Creates a miner whose value is `default_value` until something
    /// smaller is added.
    pub fn new(default_value: i64) -> (r: Self)
        ensures
            r.wf(),
            r.values() == Seq::<i64>::empty(),
            r.spec_default() == default_value,
            r.spec_min() == default_value,
            r.spec_var_name().len() == 0,
    {
        Self { inner: Reducer::new(default_value, MinTo, String::new()) }
    }

    /// Creates a miner already exposed under `name`, when the name is
    /// free.
    pub fn with_name(reg: &mut VarRegistry, default_value: i64, name: &str) -> (r: Self)
        requires
            old(reg).wf(),
            old(reg).spec_next_token() < u64::MAX,
        ensures
            final(reg).wf(),
            r.wf(),
            r.values() == Seq::<i64>::empty(),
            r.spec_default() == default_value,
            !old(reg).entries().dom().contains(name@) ==> r.spec_var_name() == name@,
            old(reg).entries().dom().contains(name@) ==> r.spec_var_name().len() == 0,
    {
        let mut miner = Self::new(default_value);
        proof {
            reveal_strlit("");
        }
        let _ = miner.inner.expose_impl(reg, "", name);
        miner
    }

    /// Creates a miner already exposed under the full name built from
    /// `prefix` and `name`, when that name is free.
    pub fn with_prefix_name(reg: &mut VarRegistry, default_value: i64, prefix: &str, name: &str) -> (r: Self)
        requires
            old(reg).wf(),
            old(reg).spec_next_token() < u64::MAX,
        ensures
            final(reg).wf(),
            r.wf(),
            r.values() == Seq::<i64>::empty(),
            r.spec_default() == default_value,
            !old(reg).entries().dom().contains(full_name_text(prefix@, name@))
                ==> r.spec_var_name() == full_name_text(prefix@, name@),
            old(reg).entries().dom().contains(full_name_text(prefix@, name@))
                ==> r.spec_var_name().len() == 0,
    {
        let mut miner = Self::new(default_value);
        let _ = miner.inner.expose_impl(reg, prefix, name);
        miner
    }

    /// Lowers the calling worker's shard to `value` when smaller.
    pub fn add(&mut self, worker: u64, value: i64)
        requires
            old(self).wf(),
            old(self).keys().len() + 1 < usize::MAX,
        ensures
            final(self).wf(),
            final(self).spec_default() == old(self).spec_default(),
            old(self).keys().contains(worker) ==> {
                &&& final(self).keys() == old(self).keys()
                &&& final(self).values() == old(self).values().update(
                    old(self).keys().index_of(worker),
                    (if value < old(self).values()[old(self).keys().index_of(worker)] {
                        value
                    } else {
                        old(self).values()[old(self).keys().index_of(worker)]
                    }),
                )
            },
            !old(self).keys().contains(worker) ==> {
                &&& final(self).keys() == old(self).keys().push(worker)
                &&& final(self).values() == old(self).values().push(
                    (if value < old(self).spec_default() {
                        value
                    } else {
                        old(self).spec_default()
                    }),
                )
            },
    {
        self.inner.add(worker, value);
    }

    /// The smallest of the default value and everything added.
    pub fn get_value(&self) -> (r: i64)
        requires
            self.wf(),
        ensures
            r == self.spec_min(),
    {
        Reducer::get_value(&self.inner)
    }

    /// Resets every shard to the default value, returning the pre-reset
    /// minimum.
    pub fn reset(&mut self) -> (r: i64)
        requires
            old(self).wf(),
        ensures
            final(self).wf(),
            r == old(self).spec_min(),
            final(self).keys() == old(self).keys(),
            final(self).values() == Seq::new(
                old(self).values().len(),
                |i: int| old(self).spec_default(),
            ),
            final(self).spec_default() == old(self).spec_default(),
    {
        Reducer::reset(&mut self.inner)
    }
}

impl Variable for Miner {
    closed spec fn spec_var_name(&self) -> Seq<char> {
        self.inner.spec_name()
    }

    closed spec fn spec_token(&self) -> Option<u64> {
        self.inner.spec_reducer_token()
    }

    closed spec fn spec_description(&self) -> Seq<char> {
        int_text(self.spec_min() as int)
    }

    closed spec fn spec_hidden(&self) -> bool {
        self.inner.spec_name().len() == 0
    }

    closed spec fn inv(&self) -> bool {
        self.wf()
    }

    fn describe(&self, out: &mut String, quote_string: bool) -> (r: bool) {
        self.inner.describe(out, quote_string)
    }

    fn expose_impl(&mut self, reg: &mut VarRegistry, prefix: &str, name: &str) -> (r: i32)
        ensures
            final(self).values() == old(self).values(),
            final(self).keys() == old(self).keys(),
            final(self).spec_default() == old(self).spec_default(),
    {
        self.inner.expose_impl(reg, prefix, name)
    }

    fn name(&self) -> (r: String) {
        self.inner.name().clone()
    }

    fn token(&self) -> (t: Option<u64>) {
        Variable::token(&self.inner)
    }

    fn is_hidden(&self) -> (r: bool) {
        self.inner.name().as_str().is_empty()
    }
}

} // verus!
