//! The combining engine: a contract for associative, commutative binary
//! operations, and per-worker shard storage folded on demand.

use vstd::prelude::*;

verus! {

/// Reduces an integer into the `i64` range after a single addition or
/// subtraction of two `i64` values, mirroring two's-complement wrap-around.
pub open spec fn wrap_i64(x: int) -> int {
    if x > i64::MAX {
        x - 0x1_0000_0000_0000_0000
    } else if x < i64::MIN {
        x + 0x1_0000_0000_0000_0000
    } else {
        x
    }
}

/// A binary operation used to combine partial aggregates, together with a
/// value-modification hook and a display name.
///
/// An operation that declares itself `lawful` promises associativity and
/// commutativity, which is what makes a fold over shards independent of the
/// order in which the shards are visited.
pub trait Combiner<T>: Sized {
    /// What `combine` computes.
    spec fn spec_combine(&self, a: T, b: T) -> T;

    /// What `modify` computes.
    spec fn spec_modify(&self, v: T) -> T;

    /// The display name of the operation.
    spec fn spec_name(&self) -> Seq<char>;

    /// Whether the operation promises to be associative and commutative.
    spec fn lawful(&self) -> bool;

    proof fn lemma_commutative(&self, a: T, b: T)
        requires
            self.lawful(),
        ensures
            self.spec_combine(a, b) == self.spec_combine(b, a),
    ;

    proof fn lemma_associative(&self, a: T, b: T, c: T)
        requires
            self.lawful(),
        ensures
            self.spec_combine(self.spec_combine(a, b), c) == self.spec_combine(
                a,
                self.spec_combine(b, c),
            ),
    ;

    /// Combines two values, returning the combined result.
    fn combine(&self, a: T, b: T) -> (r: T)
        ensures
            r == self.spec_combine(a, b),
    ;

    /// Modifies a value, performing the operation's own transformation.
    fn modify(&self, v: T) -> (r: T)
        ensures
            r == self.spec_modify(v),
    ;

    /// The display name of the operation.
    fn name(&self) -> (r: &'static str)
        ensures
            r@ == self.spec_name(),
    ;
}

/// Whether `e` is an identity element of `op` on both sides.
pub open spec fn is_identity_for<T, Op: Combiner<T>>(op: Op, e: T) -> bool {
    forall|x: T|
        #![trigger op.spec_combine(e, x)]
        #![trigger op.spec_combine(x, e)]
        op.spec_combine(e, x) == x && op.spec_combine(x, e) == x
}

/// The fold of `s` under `op`, starting from `init` and combining in each
/// element from left to right.
pub open spec fn fold_values<T, Op: Combiner<T>>(op: Op, init: T, s: Seq<T>) -> T {
    s.fold_left(init, |acc: T, x: T| op.spec_combine(acc, x))
}

/// A worker-private shard holding one partial aggregate.
pub struct Agent<T> {
    /// The shard's current partial aggregate.
    pub value: T,
    /// A serially assigned identifier, used for diagnostics only.
    pub id: u64,
}

/// Per-worker shard storage for one aggregated variable: each worker gets a
/// private shard on first touch, and a fold walks every shard.
///
/// Shards are kept in an arena keyed by an explicit worker identity, in
/// first-touch order; the caller supplies the identity of the worker making
/// each update.
pub struct AgentCombiner<T, Op> {
    identity: T,
    op: Op,
    next_id: u64,
    name: String,
    keys: Vec<u64>,
    agents: Vec<Agent<T>>,
}

impl<T: Copy, Op: Combiner<T>> AgentCombiner<T, Op> {
    /// The shard values, in first-touch order.
    pub closed spec fn values(&self) -> Seq<T> {
        self.agents@.map_values(|a: Agent<T>| a.value)
    }

    /// The worker keys owning each shard, in first-touch order.
    pub closed spec fn keys(&self) -> Seq<u64> {
        self.keys@
    }

    /// The identity element the shards start from.
    pub closed spec fn spec_identity(&self) -> T {
        self.identity
    }

    /// The combining operation.
    pub closed spec fn spec_op(&self) -> Op {
        self.op
    }

    /// The display name.
    pub closed spec fn spec_name(&self) -> Seq<char> {
        self.name@
    }

    /// Each worker owns at most one shard, and shard ids record first-touch
    /// order, serialized by a single counter.
    pub closed spec fn wf(&self) -> bool {
        &&& self.keys@.len() == self.agents@.len()
        &&& self.keys@.no_duplicates()
        &&& self.next_id == self.agents@.len() + 1
        &&& forall|i: int|
            0 <= i < self.agents@.len() ==> (#[trigger] self.agents@[i].id) == i + 1
    }

    /// The fold of all current shard values, starting from the identity.
    pub open spec fn spec_fold(&self) -> T {
        fold_values(self.spec_op(), self.spec_identity(), self.values())
    }

    /// Creates an empty combiner: no shards, so a fold returns `identity`.
    pub fn new(identity: T, op: Op, name: String) -> (r: Self)
        ensures
            r.wf(),
            r.values() == Seq::<T>::empty(),
            r.keys() == Seq::<u64>::empty(),
            r.spec_identity() == identity,
            r.spec_op() == op,
            r.spec_name() == name@,
    {
        let r = Self { identity, op, next_id: 1, name, keys: Vec::new(), agents: Vec::new() };
        proof {
            assert(r.values() =~= Seq::<T>::empty());
        }
        r
    }

    /// Returns the index of `worker`'s shard, lazily creating it with the
    /// identity value and the next serial id on first touch.
    pub fn get_or_create_tls_agent(&mut self, worker: u64) -> (i: usize)
        requires
            old(self).wf(),
            old(self).keys().len() + 1 < usize::MAX,
        ensures
            final(self).wf(),
            i < final(self).keys().len(),
            final(self).values().len() == final(self).keys().len(),
            final(self).keys()[i as int] == worker,
            final(self).spec_identity() == old(self).spec_identity(),
            final(self).spec_op() == old(self).spec_op(),
            final(self).spec_name() == old(self).spec_name(),
            old(self).keys().contains(worker) ==> {
                &&& final(self).keys() == old(self).keys()
                &&& final(self).values() == old(self).values()
                &&& old(self).keys()[i as int] == worker
                &&& i as int == old(self).keys().index_of(worker)
            },
            !old(self).keys().contains(worker) ==> {
                &&& final(self).keys() == old(self).keys().push(worker)
                &&& final(self).values() == old(self).values().push(old(self).spec_identity())
                &&& i == old(self).keys().len()
            },
    {
        let n = self.keys.len();
        let mut i: usize = 0;
        while i < n
            invariant
                *self == *old(self),
                old(self).wf(),
                n == self.keys@.len(),
                forall|j: int| 0 <= j < i ==> self.keys@[j] != worker,
                i <= n,
            decreases n - i,
        {
            if self.keys[i] == worker {
                proof {
                    assert(self.keys@.contains(worker));
                    let j = self.keys@.index_of(worker);
                    assert(0 <= j < self.keys@.len() && self.keys@[j] == worker);
                    assert(j == i);
                }
                return i;
            }
            i += 1;
        }
        assert(!self.keys@.contains(worker));
        let id = self.next_id;
        self.next_id = id + 1;
        self.keys.push(worker);
        self.agents.push(Agent { value: self.identity, id });
        proof {
            assert(self.values() =~= old(self).values().push(old(self).spec_identity()));
        }
        n
    }

    /// Combines `value` into the shard at index `i` using the operation.
    pub fn combine_at(&mut self, i: usize, value: T)
        requires
            old(self).wf(),
            i < old(self).values().len(),
        ensures
            final(self).wf(),
            final(self).values() == old(self).values().update(
                i as int,
                old(self).spec_op().spec_combine(old(self).values()[i as int], value),
            ),
            final(self).keys() == old(self).keys(),
            final(self).spec_identity() == old(self).spec_identity(),
            final(self).spec_op() == old(self).spec_op(),
            final(self).spec_name() == old(self).spec_name(),
    {
        let old_value = self.agents[i].value;
        let id = self.agents[i].id;
        let combined = self.op.combine(old_value, value);
        self.agents.set(i, Agent { value: combined, id });
        proof {
            assert(self.values() =~= old(self).values().update(
                i as int,
                old(self).spec_op().spec_combine(old(self).values()[i as int], value),
            ));
        }
    }

    /// Folds every shard's current value into one result, starting from the
    /// identity and threading the accumulator through every combine call.
    pub fn combine_agents(&self) -> (r: T)
        ensures
            r == self.spec_fold(),
    {
        let ghost f = |acc: T, x: T| self.op.spec_combine(acc, x);
        let mut r = self.identity;
        let n = self.agents.len();
        let mut i: usize = 0;
        while i < n
            invariant
                n == self.agents@.len(),
                i <= n,
                r == fold_values(self.op, self.identity, self.values().take(i as int)),
            decreases n - i,
        {
            let ghost prev = self.values().take(i as int);
            r = self.op.combine(r, self.agents[i].value);
            proof {
                assert(self.values().take(i + 1).drop_last() =~= prev);
                assert(self.values().take(i + 1).last() == self.values()[i as int]);
            }
            i += 1;
        }
        proof {
            assert(self.values().take(n as int) =~= self.values());
        }
        r
    }

    /// Folds all shards, then overwrites every shard with the identity,
    /// returning the pre-reset folded value.
    pub fn reset_all_agents(&mut self) -> (r: T)
        requires
            old(self).wf(),
        ensures
            final(self).wf(),
            r == old(self).spec_fold(),
            final(self).values() == Seq::new(old(self).values().len(), |i: int| old(self).spec_identity()),
            final(self).keys() == old(self).keys(),
            final(self).spec_identity() == old(self).spec_identity(),
            final(self).spec_op() == old(self).spec_op(),
            final(self).spec_name() == old(self).spec_name(),
    {
        let r = self.combine_agents();
        let n = self.agents.len();
        let mut i: usize = 0;
        while i < n
            invariant
                old(self).wf(),
                n == self.agents@.len(),
                n == old(self).agents@.len(),
                i <= n,
                self.keys == old(self).keys,
                self.identity == old(self).identity,
                self.op == old(self).op,
                self.name == old(self).name,
                self.next_id == old(self).next_id,
                forall|j: int|
                    0 <= j < n ==> (#[trigger] self.agents@[j].id) == old(self).agents@[j].id,
                forall|j: int|
                    0 <= j < i ==> (#[trigger] self.agents@[j].value) == old(self).identity,
                forall|j: int|
                    i <= j < n ==> (#[trigger] self.agents@[j].value) == old(self).agents@[j].value,
            decreases n - i,
        {
            let id = self.agents[i].id;
            self.agents.set(i, Agent { value: self.identity, id });
            i += 1;
        }
        proof {
            assert(self.values() =~= Seq::new(
                old(self).values().len(),
                |i: int| old(self).spec_identity(),
            ));
        }
        r
    }

    /// The number of live shards.
    pub fn agent_count(&self) -> (n: usize)
        ensures
            n == self.values().len(),
    {
        let mut count: usize = 0;
        let n = self.agents.len();
        let mut i: usize = 0;
        while i < n
            invariant
                n == self.agents@.len(),
                i <= n,
                count == i,
            decreases n - i,
        {
            count += 1;
            i += 1;
        }
        count
    }

    /// The combining operation.
    pub fn op(&self) -> (r: &Op)
        ensures
            *r == self.spec_op(),
    {
        &self.op
    }

    /// Replaces the display name.
    pub fn set_name(&mut self, name: String)
        requires
            old(self).wf(),
        ensures
            final(self).wf(),
            final(self).spec_name() == name@,
            final(self).values() == old(self).values(),
            final(self).keys() == old(self).keys(),
            final(self).spec_identity() == old(self).spec_identity(),
            final(self).spec_op() == old(self).spec_op(),
    {
        self.name = name;
    }

    /// The display name.
    pub fn name(&self) -> (r: &String)
        ensures
            r@ == self.spec_name(),
    {
        &self.name
    }
}

/// Folding any run of identity values yields the identity: a combiner
/// whose shards never received a value folds to the identity by
/// construction, and so does one whose shards were all just reset.
pub proof fn lemma_fold_identity_run<T, Op: Combiner<T>>(op: Op, e: T, n: nat)
    requires
        is_identity_for(op, e),
    ensures
        fold_values(op, e, Seq::new(n, |i: int| e)) == e,
    decreases n,
{
    let s = Seq::new(n, |i: int| e);
    if n == 0 {
        assert(s =~= Seq::<T>::empty());
    } else {
        let s0 = Seq::new((n - 1) as nat, |i: int| e);
        assert(s.drop_last() =~= s0);
        lemma_fold_identity_run(op, e, (n - 1) as nat);
        assert(op.spec_combine(e, e) == e);
    }
}

/// A fold distributes over concatenation: folding `a + b` equals combining
/// the fold of `a` with the fold of `b`.
pub proof fn lemma_fold_concat<T, Op: Combiner<T>>(op: Op, e: T, a: Seq<T>, b: Seq<T>)
    requires
        op.lawful(),
        is_identity_for(op, e),
    ensures
        fold_values(op, e, a + b) == op.spec_combine(
            fold_values(op, e, a),
            fold_values(op, e, b),
        ),
    decreases b.len(),
{
    if b.len() == 0 {
        assert(a + b =~= a);
        assert(op.spec_combine(fold_values(op, e, a), e) == fold_values(op, e, a));
    } else {
        let b0 = b.drop_last();
        assert((a + b).drop_last() =~= a + b0);
        assert((a + b).last() == b.last());
        lemma_fold_concat(op, e, a, b0);
        op.lemma_associative(fold_values(op, e, a), fold_values(op, e, b0), b.last());
    }
}

/// For a lawful operation the fold is invariant under permutation: two
/// sequences holding the same values in any order fold to the same result,
/// so the order in which shards are visited does not matter.
pub proof fn lemma_fold_permutation<T, Op: Combiner<T>>(op: Op, e: T, s1: Seq<T>, s2: Seq<T>)
    requires
        op.lawful(),
        s1.to_multiset() == s2.to_multiset(),
    ensures
        fold_values(op, e, s1) == fold_values(op, e, s2),
{
    let f = |acc: T, x: T| op.spec_combine(acc, x);
    assert(vstd::seq_lib::commutative_foldl(f)) by {
        assert forall|x: T, y: T, v: T| #[trigger] f(f(v, x), y) == f(f(v, y), x) by {
            op.lemma_associative(v, x, y);
            op.lemma_associative(v, y, x);
            op.lemma_commutative(x, y);
        }
    }
    vstd::seq_lib::lemma_fold_left_permutation(s1, s2, f, e);
}

/// Fold correctness for sharded aggregation: when each group holds the
/// values one worker combined into its own shard, folding the per-shard
/// folds equals folding all values of all workers in one flat sequence.
/// Together with `lemma_fold_permutation`, the result of a fold over shards
/// equals the reduction of every added value, however the add calls were
/// distributed across workers.
pub proof fn lemma_fold_sharded<T, Op: Combiner<T>>(op: Op, e: T, groups: Seq<Seq<T>>)
    requires
        op.lawful(),
        is_identity_for(op, e),
    ensures
        fold_values(op, e, groups.map_values(|g: Seq<T>| fold_values(op, e, g))) == fold_values(
            op,
            e,
            groups.flatten(),
        ),
    decreases groups.len(),
{
    let shard = |g: Seq<T>| fold_values(op, e, g);
    groups.lemma_flatten_and_flatten_alt_are_equivalent();
    if groups.len() == 0 {
        assert(groups.flatten_alt() =~= Seq::<T>::empty());
        assert(groups.map_values(shard) =~= Seq::<T>::empty());
    } else {
        let gs0 = groups.drop_last();
        let g = groups.last();
        gs0.lemma_flatten_and_flatten_alt_are_equivalent();
        lemma_fold_sharded(op, e, gs0);
        lemma_fold_concat(op, e, gs0.flatten(), g);
        assert(groups.flatten_alt() == gs0.flatten_alt() + g);
        assert(groups.flatten() =~= gs0.flatten() + g);
        let folded = groups.map_values(shard);
        assert(folded.drop_last() =~= gs0.map_values(shard));
        assert(folded.last() == shard(g));
    }
}

/// Fold correctness: when each group holds the values one worker combined
/// into its own shard, and the groups together hold exactly the added
/// values in any order, the fold over shards equals the reduction of all
/// added values starting from the identity, regardless of how the adds
/// were distributed or in which order the shards are visited.
pub proof fn lemma_fold_correctness<T, Op: Combiner<T>>(
    op: Op,
    e: T,
    groups: Seq<Seq<T>>,
    all_values: Seq<T>,
)
    requires
        op.lawful(),
        is_identity_for(op, e),
        groups.flatten().to_multiset() == all_values.to_multiset(),
    ensures
        fold_values(op, e, groups.map_values(|g: Seq<T>| fold_values(op, e, g))) == fold_values(
            op,
            e,
            all_values,
        ),
{
    lemma_fold_sharded(op, e, groups);
    lemma_fold_permutation(op, e, groups.flatten(), all_values);
}

/// Handles a failure raised while collecting one sample.
pub trait SampleErrorHandler {
    /// Handles the error described by `error`.
    fn on_error(&self, error: &str);
}

/// Discards sampling errors.
pub struct IgnoreErrorHandler;

impl SampleErrorHandler for IgnoreErrorHandler {
    fn on_error(&self, _error: &str) {
    }
}


/// Applies an update to a stored value in place.
pub trait Modifier<T, V>: Sized {
    /// What `modify` computes from the stored value and the argument.
    spec fn spec_modify_with(&self, value: T, arg: V) -> T;

    /// Updates `value` in place with `arg`.
    fn modify(&self, value: &mut T, arg: &V)
        ensures
            *final(value) == self.spec_modify_with(*old(value), *arg),
    ;
}

/// Wraps a combining operation as a modifier: modifying a value combines
/// the argument into it.
pub struct OpAsModifier<T, Op>(pub Op, pub core::marker::PhantomData<T>);

impl<T, Op: Combiner<T>> OpAsModifier<T, Op> {
    /// Wraps `op` as a modifier.
    pub fn new(op: Op) -> (r: Self)
        ensures
            r.0 == op,
    {
        OpAsModifier(op, core::marker::PhantomData)
    }
}

impl<T: Copy, Op: Combiner<T>> Modifier<T, T> for OpAsModifier<T, Op> {
    open spec fn spec_modify_with(&self, value: T, arg: T) -> T {
        self.0.spec_combine(value, arg)
    }

    fn modify(&self, value: &mut T, arg: &T) {
        let current = *value;
        *value = self.0.combine(current, *arg);
    }
}

/// Carries a caller-supplied update function over values and arguments.
pub struct AgentModifier<T, V, F> {
    phantom: core::marker::PhantomData<(T, V)>,
    modifier: F,
}

impl<T: Copy, V: Copy, F: Fn(T, V) -> T> AgentModifier<T, V, F> {
    /// The stored update function.
    pub closed spec fn spec_func(&self) -> F {
        self.modifier
    }

    /// Wraps `modifier` for later application.
    pub fn new(modifier: F) -> (r: Self)
        ensures
            r.spec_func() == modifier,
    {
        Self { phantom: core::marker::PhantomData, modifier }
    }

    /// Updates `value` in place with whatever the stored function makes of
    /// it and `arg`.
    pub fn apply(&self, value: &mut T, arg: &V)
        requires
            self.spec_func().requires((*old(value), *arg)),
        ensures
            self.spec_func().ensures((*old(value), *arg), *final(value)),
    {
        *value = (self.modifier)(*value, *arg);
    }
}

} // verus!
