//! Periodic sampling: the process-wide sampler registry and its driver
//! decisions, the samplers themselves, and the construction discipline for
//! objects that must hand out a weak reference to themselves.
//!
//! The registry stores weak handles as plain identifiers; which of them can
//! still be upgraded is decided outside and handed in as a parallel vector
//! of liveness flags, so every decision here is verified for every possible
//! outcome of those upgrades.

use vstd::prelude::*;
use vstd::string::StringExecFns;
use crate::series::ring_push;
use crate::text::{int_text, push_i64_text};
use crate::window::SERIES_IN_SECOND;

verus! {

/// What the registry asks of everything it samples: an interval, a
/// description, and a one-way destruction switch.
pub trait Sampler: Sized {
    /// The sampler's own invariant.
    spec fn inv(&self) -> bool;

    /// Whether the sampler was permanently destroyed.
    spec fn spec_destroyed(&self) -> bool;

    /// The sampler's current textual description.
    spec fn spec_description(&self) -> Seq<char>;

    /// The sampling interval, in milliseconds.
    spec fn spec_interval_ms(&self) -> u64;

    /// The sampling interval, in milliseconds.
    fn interval_ms(&self) -> (r: u64)
        ensures
            r == self.spec_interval_ms(),
    ;

    /// Appends the sampler's description to `out`.
    fn describe(&self, out: &mut String)
        requires
            self.inv(),
        ensures
            final(out)@ == old(out)@ + self.spec_description(),
    ;

    /// Permanently disables the sampler: the flag is monotonic, one-way.
    fn destroy(&mut self)
        requires
            old(self).inv(),
        ensures
            final(self).inv(),
            final(self).spec_destroyed(),
    ;
}

/// The entries that survive a prune: those whose liveness flag is set, in
/// their original order.
pub open spec fn retained(entries: Seq<u64>, live: Seq<bool>) -> Seq<u64>
    decreases entries.len(),
{
    if entries.len() == 0 {
        Seq::empty()
    } else {
        let rest = retained(entries.drop_last(), live.drop_last());
        if live.len() > 0 && live.last() {
            rest.push(entries.last())
        } else {
            rest
        }
    }
}

/// When every flag is down, nothing survives a prune.
pub proof fn lemma_retained_none(entries: Seq<u64>, live: Seq<bool>)
    requires
        entries.len() == live.len(),
        forall|i: int| 0 <= i < live.len() ==> !live[i],
    ensures
        retained(entries, live) == Seq::<u64>::empty(),
    decreases entries.len(),
{
    if entries.len() > 0 {
        lemma_retained_none(entries.drop_last(), live.drop_last());
    }
}

/// When every flag is up, a prune keeps everything.
pub proof fn lemma_retained_all(entries: Seq<u64>, live: Seq<bool>)
    requires
        entries.len() == live.len(),
        forall|i: int| 0 <= i < live.len() ==> live[i],
    ensures
        retained(entries, live) == entries,
    decreases entries.len(),
{
    if entries.len() > 0 {
        lemma_retained_all(entries.drop_last(), live.drop_last());
        assert(retained(entries, live) =~= entries);
    } else {
        assert(retained(entries, live) =~= entries);
    }
}

/// The state shared by every sampler of the process: the registered weak
/// handles, the last time a sweep fired, the sampling interval, and
/// whether a driver thread is alive.
pub struct GlobalSamplerState {
    samplers: Vec<u64>,
    last_sample_time: u64,
    sample_interval: u64,
    is_running: bool,
}

/// Whether a sweep is due: the interval has fully passed since the last
/// one. A clock that moved backwards leaves the sweep not due.
pub open spec fn sweep_due(last: u64, interval: u64, now: u64) -> bool {
    now >= last && now - last >= interval
}

impl GlobalSamplerState {
    /// The registered weak handles, oldest registration first. A handle
    /// whose object died may linger here until the next sweep, so the
    /// count can transiently overstate the live samplers.
    pub closed spec fn entries(&self) -> Seq<u64> {
        self.samplers@
    }

    /// When the last sweep fired, in milliseconds.
    pub closed spec fn spec_last_sample_time(&self) -> u64 {
        self.last_sample_time
    }

    /// The sampling interval, in milliseconds.
    pub closed spec fn spec_interval(&self) -> u64 {
        self.sample_interval
    }

    /// Whether a driver thread is currently alive.
    pub closed spec fn spec_running(&self) -> bool {
        self.is_running
    }

    /// Creates an idle registry with no entries and a one-second interval.
    pub fn new(now_ms: u64) -> (r: Self)
        ensures
            r.entries() == Seq::<u64>::empty(),
            r.spec_last_sample_time() == now_ms,
            r.spec_interval() == 1000,
            !r.spec_running(),
    {
        Self { samplers: Vec::new(), last_sample_time: now_ms, sample_interval: 1000, is_running: false }
    }

    /// Registers a weak handle: dead entries are pruned first, the handle
    /// is appended, and the registry reports whether the caller must spawn
    /// a driver thread, which is exactly when none was running. The check
    /// and the transition to running are one step, so at most one driver
    /// is ever alive.
    pub fn register_sampler(&mut self, live: &Vec<bool>, sampler: u64) -> (spawn: bool)
        requires
            old(self).entries().len() == live@.len(),
            old(self).entries().len() < usize::MAX,
        ensures
            final(self).entries() == retained(old(self).entries(), live@).push(sampler),
            spawn == !old(self).spec_running(),
            final(self).spec_running(),
            final(self).spec_last_sample_time() == old(self).spec_last_sample_time(),
            final(self).spec_interval() == old(self).spec_interval(),
    {
        self.prune(live);
        self.samplers.push(sampler);
        let spawn = !self.is_running;
        self.is_running = true;
        spawn
    }

    /// Removes every entry whose liveness flag is down.
    fn prune(&mut self, live: &Vec<bool>)
        requires
            old(self).entries().len() == live@.len(),
        ensures
            final(self).entries() == retained(old(self).entries(), live@),
            final(self).entries().len() <= old(self).entries().len(),
            final(self).spec_running() == old(self).spec_running(),
            final(self).spec_last_sample_time() == old(self).spec_last_sample_time(),
            final(self).spec_interval() == old(self).spec_interval(),
    {
        let n = self.samplers.len();
        let mut kept: Vec<u64> = Vec::new();
        let mut i: usize = 0;
        while i < n
            invariant
                n == self.samplers@.len(),
                n == live@.len(),
                i <= n,
                kept@ == retained(self.samplers@.take(i as int), live@.take(i as int)),
                kept@.len() <= i,
            decreases n - i,
        {
            let ghost prev_entries = self.samplers@.take(i as int);
            let ghost prev_live = live@.take(i as int);
            if live[i] {
                kept.push(self.samplers[i]);
            }
            proof {
                assert(self.samplers@.take(i + 1).drop_last() =~= prev_entries);
                assert(live@.take(i + 1).drop_last() =~= prev_live);
                assert(self.samplers@.take(i + 1).last() == self.samplers@[i as int]);
                assert(live@.take(i + 1).last() == live@[i as int]);
            }
            i += 1;
        }
        proof {
            assert(self.samplers@.take(n as int) =~= self.samplers@);
            assert(live@.take(n as int) =~= live@);
        }
        self.samplers = kept;
    }

    /// Whether a sweep is due at `now_ms`.
    pub fn is_sweep_due(&self, now_ms: u64) -> (r: bool)
        ensures
            r == sweep_due(self.spec_last_sample_time(), self.spec_interval(), now_ms),
    {
        if now_ms < self.last_sample_time {
            return false;
        }
        now_ms - self.last_sample_time >= self.sample_interval
    }

    /// Starts a sweep: the fire time advances to `now_ms` and the caller
    /// receives the handles that could still be upgraded, in registration
    /// order, to sample outside the registry lock. The stored entries are
    /// untouched; pruning waits for `end_sweep`.
    pub fn begin_sweep(&mut self, live: &Vec<bool>, now_ms: u64) -> (strong: Vec<u64>)
        requires
            old(self).entries().len() == live@.len(),
        ensures
            strong@ == retained(old(self).entries(), live@),
            final(self).entries() == old(self).entries(),
            final(self).spec_last_sample_time() == now_ms,
            final(self).spec_interval() == old(self).spec_interval(),
            final(self).spec_running() == old(self).spec_running(),
    {
        self.last_sample_time = now_ms;
        let n = self.samplers.len();
        let mut strong: Vec<u64> = Vec::new();
        let mut i: usize = 0;
        while i < n
            invariant
                n == self.samplers@.len(),
                n == live@.len(),
                i <= n,
                strong@ == retained(self.samplers@.take(i as int), live@.take(i as int)),
            decreases n - i,
        {
            let ghost prev_entries = self.samplers@.take(i as int);
            let ghost prev_live = live@.take(i as int);
            if live[i] {
                strong.push(self.samplers[i]);
            }
            proof {
                assert(self.samplers@.take(i + 1).drop_last() =~= prev_entries);
                assert(live@.take(i + 1).drop_last() =~= prev_live);
                assert(self.samplers@.take(i + 1).last() == self.samplers@[i as int]);
                assert(live@.take(i + 1).last() == live@[i as int]);
            }
            i += 1;
        }
        proof {
            assert(self.samplers@.take(n as int) =~= self.samplers@);
            assert(live@.take(n as int) =~= live@);
        }
        strong
    }

    /// Ends a sweep: entries that died during sampling are pruned, and
    /// when none remains the registry returns to idle and tells the driver
    /// thread to exit.
    pub fn end_sweep(&mut self, live: &Vec<bool>) -> (exit: bool)
        requires
            old(self).entries().len() == live@.len(),
        ensures
            final(self).entries() == retained(old(self).entries(), live@),
            exit == (retained(old(self).entries(), live@).len() == 0),
            final(self).spec_running() == (old(self).spec_running() && !exit),
            final(self).spec_last_sample_time() == old(self).spec_last_sample_time(),
            final(self).spec_interval() == old(self).spec_interval(),
    {
        self.prune(live);
        if self.samplers.len() == 0 {
            self.is_running = false;
            true
        } else {
            false
        }
    }
}

/// The one-driver bound: the running flag counts the alive driver
/// threads, which never exceed one.
pub open spec fn driver_count_ok(reg: GlobalSamplerState, threads: nat) -> bool {
    threads == (if reg.spec_running() {
        1nat
    } else {
        0nat
    })
}

/// Registering spawns a thread exactly when none is running, and moves
/// the registry to running in the same step, so the one-thread bound is
/// preserved: there is never a second driver alive.
pub proof fn lemma_register_single_driver(
    pre: GlobalSamplerState,
    post: GlobalSamplerState,
    threads: nat,
    spawn: bool,
)
    requires
        driver_count_ok(pre, threads),
        spawn == !pre.spec_running(),
        post.spec_running(),
    ensures
        driver_count_ok(
            post,
            threads + (if spawn {
                1nat
            } else {
                0nat
            }),
        ),
{
}

/// A driver exits only while it is the one alive thread, and the registry
/// turns idle in the same step, so the one-thread bound is preserved on
/// exit too: a fresh registration can then spawn a fresh driver.
pub proof fn lemma_exit_single_driver(
    pre: GlobalSamplerState,
    post: GlobalSamplerState,
    threads: nat,
)
    requires
        driver_count_ok(pre, threads),
        pre.spec_running(),
        !post.spec_running(),
    ensures
        threads == 1,
        driver_count_ok(post, (threads - 1) as nat),
{
}

/// The construction state of an object that must hand a weak reference to
/// itself out before anything else can observe it.
pub struct SelfRefState {
    /// Whether any other code can already reach the object.
    pub published: bool,
    /// Whether the object's own weak reference is installed.
    pub self_ref_set: bool,
}

/// The state before construction begins.
pub open spec fn self_ref_init() -> SelfRefState {
    SelfRefState { published: false, self_ref_set: false }
}

/// A step of the atomic pattern: the weak reference is installed while the
/// object is still unreachable, and publication happens only after it.
pub open spec fn cyclic_step(pre: SelfRefState, post: SelfRefState) -> bool {
    ||| (!pre.published && !pre.self_ref_set && post == SelfRefState {
        published: false,
        self_ref_set: true,
    })
    ||| (pre.self_ref_set && post == SelfRefState { published: true, self_ref_set: true })
}

/// A step of the construct-then-patch pattern: the object may be published
/// first and only then receive its weak reference.
pub open spec fn backfill_step(pre: SelfRefState, post: SelfRefState) -> bool {
    ||| post == SelfRefState { published: true, self_ref_set: pre.self_ref_set }
    ||| post == SelfRefState { published: pre.published, self_ref_set: true }
}

/// Whatever is published has its weak reference in place: an observer that
/// can reach the object can always upgrade it.
pub open spec fn self_ref_ok(s: SelfRefState) -> bool {
    s.published ==> s.self_ref_set
}

/// Under the atomic pattern every step preserves the upgrade guarantee, so
/// from the very first external observation the weak reference resolves.
pub proof fn lemma_cyclic_upgrade_safe(pre: SelfRefState, post: SelfRefState)
    requires
        self_ref_ok(pre),
        cyclic_step(pre, post),
    ensures
        self_ref_ok(post),
{
}

/// The construct-then-patch pattern admits a window: one step from the
/// initial state reaches a state that is published with no weak reference
/// installed, where a concurrent observer's upgrade fails.
pub proof fn lemma_backfill_window()
    ensures
        exists|s: SelfRefState|
            #[trigger] backfill_step(self_ref_init(), s) && s.published && !s.self_ref_set,
{
    let s = SelfRefState { published: true, self_ref_set: false };
    assert(backfill_step(self_ref_init(), s) && s.published && !s.self_ref_set);
}

/// A sampler over a reducer-backed owner. The owner is reached through a
/// weak reference outside this state; its folded value, when the owner is
/// still alive, is handed to `take_sample`. The sampler itself must be
/// built with the atomic self-weak pattern so that scheduling can hand the
/// registry a resolvable handle.
pub struct ReducerSampler<T, Op, InvOp> {
    destroyed: bool,
    op: Op,
    inv_op: InvOp,
    marker: core::marker::PhantomData<T>,
}

impl<T: Copy, Op, InvOp> ReducerSampler<T, Op, InvOp> {
    /// Whether the sampler was permanently destroyed.
    pub closed spec fn spec_sampler_destroyed(&self) -> bool {
        self.destroyed
    }

    /// The sampler's operation.
    pub closed spec fn spec_op(&self) -> Op {
        self.op
    }

    /// The sampler's inverse operation.
    pub closed spec fn spec_inv_op(&self) -> InvOp {
        self.inv_op
    }

    /// Creates a live sampler over an operation and its inverse.
    pub fn new(op: Op, inv_op: InvOp) -> (r: Self)
        ensures
            !r.spec_sampler_destroyed(),
            r.spec_op() == op,
            r.spec_inv_op() == inv_op,
    {
        Self { destroyed: false, op, inv_op, marker: core::marker::PhantomData }
    }

    /// Registers this sampler's weak handle with the registry; reports
    /// whether the caller must spawn the driver thread.
    pub fn schedule(
        &self,
        reg: &mut GlobalSamplerState,
        live: &Vec<bool>,
        handle: u64,
    ) -> (spawn: bool)
        requires
            old(reg).entries().len() == live@.len(),
            old(reg).entries().len() < usize::MAX,
        ensures
            final(reg).entries() == retained(old(reg).entries(), live@).push(handle),
            spawn == !old(reg).spec_running(),
            final(reg).spec_running(),
    {
        reg.register_sampler(live, handle)
    }

    /// One sampling step: the owner's current folded value, or nothing
    /// when the owner is gone. A destroyed sampler never records anything
    /// again.
    pub fn take_sample(&self, owner_value: Option<T>) -> (r: Option<T>)
        ensures
            r == (if self.spec_sampler_destroyed() {
                None::<T>
            } else {
                owner_value
            }),
    {
        if self.destroyed {
            None
        } else {
            owner_value
        }
    }
}

impl<T: Copy, Op, InvOp> Sampler for ReducerSampler<T, Op, InvOp> {
    open spec fn inv(&self) -> bool {
        true
    }

    open spec fn spec_destroyed(&self) -> bool {
        self.spec_sampler_destroyed()
    }

    open spec fn spec_description(&self) -> Seq<char> {
        Seq::empty()
    }

    open spec fn spec_interval_ms(&self) -> u64 {
        1000
    }

    fn interval_ms(&self) -> (r: u64) {
        1000
    }

    fn describe(&self, out: &mut String) {
        proof {
            assert(final(out)@ =~= old(out)@ + Seq::<char>::empty());
        }
    }

    fn destroy(&mut self)
        ensures
            final(self).spec_op() == old(self).spec_op(),
            final(self).spec_inv_op() == old(self).spec_inv_op(),
    {
        self.destroyed = true;
    }
}

/// A bounded run of recent samples, recorded for display.
#[derive(Clone)]
pub struct SeriesSampler<T, Op> {
    data: Vec<T>,
    op: Op,
    destroyed: bool,
}

impl<T: Copy, Op> SeriesSampler<T, Op> {
    /// The recorded samples, oldest first.
    pub closed spec fn data(&self) -> Seq<T> {
        self.data@
    }

    /// Whether the sampler was permanently destroyed.
    pub closed spec fn spec_sampler_destroyed(&self) -> bool {
        self.destroyed
    }

    /// The sampler's operation.
    pub closed spec fn spec_op(&self) -> Op {
        self.op
    }

    /// The run never exceeds its capacity.
    pub closed spec fn wf(&self) -> bool {
        self.data@.len() <= SERIES_IN_SECOND
    }

    /// Creates an empty, live series sampler.
    pub fn new(op: Op) -> (r: Self)
        ensures
            r.wf(),
            r.data() == Seq::<T>::empty(),
            !r.spec_sampler_destroyed(),
            r.spec_op() == op,
    {
        Self { data: Vec::new(), op, destroyed: false }
    }

    /// Records one sample at the back, evicting the oldest when full; a
    /// destroyed sampler records nothing.
    pub fn append(&mut self, value: T)
        requires
            old(self).wf(),
        ensures
            final(self).wf(),
            final(self).data() == (if old(self).spec_sampler_destroyed() {
                old(self).data()
            } else {
                ring_push(old(self).data(), value, SERIES_IN_SECOND as nat)
            }),
            final(self).spec_sampler_destroyed() == old(self).spec_sampler_destroyed(),
            final(self).spec_op() == old(self).spec_op(),
    {
        if self.destroyed {
            return ;
        }
        self.data.push(value);
        if self.data.len() > SERIES_IN_SECOND {
            let ghost before = self.data@;
            self.data.remove(0);
            proof {
                assert(self.data@ =~= before.drop_first());
            }
        }
    }

    /// A series sampler needs no driving; scheduling always succeeds.
    pub fn schedule(&self) -> (r: bool)
        ensures
            r,
    {
        true
    }
}

/// The comma-separated decimal texts of a run of values.
pub open spec fn list_text(values: Seq<i64>) -> Seq<char>
    decreases values.len(),
{
    if values.len() == 0 {
        Seq::empty()
    } else if values.len() == 1 {
        int_text(values[0] as int)
    } else {
        list_text(values.drop_last()) + ","@ + int_text(values.last() as int)
    }
}

impl<Op> Sampler for SeriesSampler<i64, Op> {
    open spec fn inv(&self) -> bool {
        self.wf()
    }

    open spec fn spec_destroyed(&self) -> bool {
        self.spec_sampler_destroyed()
    }

    open spec fn spec_description(&self) -> Seq<char> {
        if self.spec_sampler_destroyed() {
            Seq::empty()
        } else {
            "["@ + list_text(self.data()) + "]"@
        }
    }

    open spec fn spec_interval_ms(&self) -> u64 {
        1000
    }

    fn interval_ms(&self) -> (r: u64) {
        1000
    }

    fn describe(&self, out: &mut String) {
        if self.destroyed {
            proof {
                assert(final(out)@ =~= old(out)@ + Seq::<char>::empty());
            }
            return ;
        }
        out.append("[");
        let ghost header = old(out)@ + "["@;
        let n = self.data.len();
        let mut i: usize = 0;
        while i < n
            invariant
                n == self.data@.len(),
                i <= n,
                out@ == header + list_text(self.data@.take(i as int)),
            decreases n - i,
        {
            if i > 0 {
                out.append(",");
            }
            push_i64_text(out, self.data[i]);
            proof {
                assert(self.data@.take(i + 1).drop_last() =~= self.data@.take(i as int));
                assert(self.data@.take(i + 1).last() == self.data@[i as int]);
                assert(out@ =~= header + list_text(self.data@.take(i + 1)));
            }
            i += 1;
        }
        proof {
            assert(self.data@.take(n as int) =~= self.data@);
        }
        out.append("]");
        proof {
            assert(final(out)@ =~= old(out)@ + self.spec_description());
        }
    }

    fn destroy(&mut self)
        ensures
            final(self).data() == old(self).data(),
            final(self).spec_op() == old(self).spec_op(),
    {
        self.destroyed = true;
    }
}

} // verus!
