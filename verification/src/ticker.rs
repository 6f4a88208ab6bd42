//! A cooperative ticker loop: systems run at their own intervals against a
//! shared context of simulated time and pubsub fan-out.
//!
//! One round of [`MasterTicker::tick`] updates every managed system that is
//! due, runs the pre-pubsub hooks, processes the pubsub fan-out, and runs
//! the post-pubsub hooks, in that order.

use vstd::prelude::*;

use crate::connection::sat_add_u64;
use crate::pubsub::{PubSubSystem, SubData, TestUnderlyingPubSub, UnderlyingPubSub};
use crate::time::TimeSystem;

verus! {

/// What a ticker loop's context offers every system: the clock and the
/// pubsub fan-out.
pub trait GenericTickerContext: Sized {
    type PubSubImpl: UnderlyingPubSub;

    /// The clock's current state.  A context built outside the proof layer
    /// may leave this at its default, which promises nothing.
    open spec fn time_spec(&self) -> TimeSystem {
        vstd::pervasive::arbitrary()
    }

    /// The fan-out's current state.  A context built outside the proof
    /// layer may leave this at its default, which promises nothing.
    open spec fn pubsub_spec(&self) -> PubSubSystem<Self::PubSubImpl> {
        vstd::pervasive::arbitrary()
    }

    /// Borrows the clock; the rest of the context is untouched.
    fn time(&mut self) -> (t: &mut TimeSystem)
        ensures
            *t == old(self).time_spec(),
            final(self).time_spec() == *final(t),
            final(self).pubsub_spec() == old(self).pubsub_spec(),
    ;

    /// Borrows the fan-out; the rest of the context is untouched.
    fn pubsub(&mut self) -> (p: &mut PubSubSystem<Self::PubSubImpl>)
        ensures
            *p == old(self).pubsub_spec(),
            final(self).pubsub_spec() == *final(p),
            final(self).time_spec() == old(self).time_spec(),
    ;
}

/// A system driven by the ticker loop.
pub trait Ticker<C: GenericTickerContext>: Sized {
    /// The interval this system asks to be run at, in microseconds.  A
    /// system built outside the proof layer may leave this at its default,
    /// which promises nothing.
    open spec fn interval_spec(&self) -> u64 {
        vstd::pervasive::arbitrary()
    }

    fn interval(&self) -> (r: u64)
        ensures
            r == self.interval_spec(),
    ;

    /// Called once at the beginning of the system's life.
    fn init(&mut self, ctx: &mut C);

    /// One update of the system against the context.
    fn update(&mut self, ctx: &mut C);
}

/// A callback the loop runs around pubsub processing.
pub trait TickHook<C: GenericTickerContext>: Sized {
    fn call(&self, ctx: &mut C);
}

/// Whether a system whose last run was `last` (if it ran at all) with
/// interval `interval` is due again at simulated time `now`.
pub open spec fn tick_due(last: Option<u64>, interval: u64, now: u64) -> bool {
    match last {
        Option::None => true,
        Some(lt) => sat_add_u64(lt, interval) <= now,
    }
}

/// Runs one system at its own interval, remembering when it last ran.
pub struct TickerManager<T> {
    /// Simulated time of the last run, in microseconds.
    pub last_tick: Option<u64>,
    pub inner: T,
}

impl<T> TickerManager<T> {
    /// Updates the inner system exactly when it is due at the context's
    /// current simulated time, and then remembers the time the update
    /// ended at; otherwise touches nothing.
    pub fn run_update<C: GenericTickerContext>(&mut self, ctx: &mut C) where T: Ticker<C>
        ensures
            ({
                let due = tick_due(
                    old(self).last_tick,
                    old(self).inner.interval_spec(),
                    old(ctx).time_spec().tick_time,
                );
                &&& !due ==> *final(self) == *old(self) && final(ctx).time_spec() == old(
                    ctx,
                ).time_spec() && final(ctx).pubsub_spec() == old(ctx).pubsub_spec()
                &&& due ==> final(self).last_tick == Some(final(ctx).time_spec().tick_time)
            }),
    {
        let now = ctx.time().get_time();
        let due = match self.last_tick {
            None => true,
            Some(lt) => lt.saturating_add(self.inner.interval()) <= now,
        };
        if due {
            self.inner.update(ctx);
            let after = ctx.time().get_time();
            self.last_tick = Some(after);
        }
    }
}

impl<C: GenericTickerContext, T: Ticker<C>> Ticker<C> for TickerManager<T> {
    open spec fn interval_spec(&self) -> u64 {
        0
    }

    fn interval(&self) -> u64 {
        0
    }

    fn init(&mut self, ctx: &mut C) {
        self.inner.init(ctx);
    }

    fn update(&mut self, ctx: &mut C) {
        self.run_update(ctx);
    }
}

/// The ticker loop: a context, the managed systems, and the hooks run
/// before and after pubsub processing.
pub struct MasterTicker<C, T, H> {
    pub context: C,
    pub systems: Vec<TickerManager<T>>,
    pub pre_pubsub: Vec<H>,
    pub post_pubsub: Vec<H>,
}

impl<C: GenericTickerContext, T: Ticker<C>, H: TickHook<C>> MasterTicker<C, T, H> {
    /// A loop over the given context with no systems and no hooks yet.
    pub fn new(context: C) -> (r: MasterTicker<C, T, H>)
        ensures
            r.context == context,
            r.systems@ == Seq::<TickerManager<T>>::empty(),
            r.pre_pubsub@ == Seq::<H>::empty(),
            r.post_pubsub@ == Seq::<H>::empty(),
    {
        MasterTicker { context, systems: Vec::new(), pre_pubsub: Vec::new(), post_pubsub: Vec::new() }
    }

    /// Adds one system, managed at its own interval and not yet run.
    pub fn with_system(self, ticker: T) -> (r: MasterTicker<C, T, H>)
        ensures
            r.context == self.context,
            r.pre_pubsub == self.pre_pubsub,
            r.post_pubsub == self.post_pubsub,
            r.systems@.len() == self.systems@.len() + 1,
            forall|i: int| 0 <= i < self.systems@.len() ==> r.systems@[i] == self.systems@[i],
            r.systems@.last().last_tick is None,
            r.systems@.last().inner == ticker,
    {
        let mut r = self;
        r.systems.push(TickerManager { last_tick: None, inner: ticker });
        r
    }

    /// Adds one hook run before pubsub processing, after those already
    /// added.
    pub fn with_pre_pubsub(self, caller: H) -> (r: MasterTicker<C, T, H>)
        ensures
            r.context == self.context,
            r.systems == self.systems,
            r.post_pubsub == self.post_pubsub,
            r.pre_pubsub@ == self.pre_pubsub@.push(caller),
    {
        let mut r = self;
        r.pre_pubsub.push(caller);
        r
    }

    /// Adds one hook run after pubsub processing, after those already
    /// added.
    pub fn with_post_pubsub(self, caller: H) -> (r: MasterTicker<C, T, H>)
        ensures
            r.context == self.context,
            r.systems == self.systems,
            r.pre_pubsub == self.pre_pubsub,
            r.post_pubsub@ == self.post_pubsub@.push(caller),
    {
        let mut r = self;
        r.post_pubsub.push(caller);
        r
    }

    /// One round: update every due system in order, run the pre-pubsub
    /// hooks in order, process the pubsub fan-out, and run the post-pubsub
    /// hooks in order.
    pub fn tick(&mut self)
        ensures
            final(self).systems@.len() == old(self).systems@.len(),
            final(self).pre_pubsub@ == old(self).pre_pubsub@,
            final(self).post_pubsub@ == old(self).post_pubsub@,
    {
        let n = self.systems.len();
        let mut i: usize = 0;
        while i < n
            invariant
                n == self.systems@.len(),
                0 <= i <= n,
                self.pre_pubsub == old(self).pre_pubsub,
                self.post_pubsub == old(self).post_pubsub,
            decreases n - i,
        {
            let mut system = self.systems.remove(i);
            system.update(&mut self.context);
            self.systems.insert(i, system);
            i = i + 1;
        }
        let hooks = self.pre_pubsub.len();
        let mut i: usize = 0;
        while i < hooks
            invariant
                hooks == self.pre_pubsub@.len(),
                0 <= i <= hooks,
                self.systems@.len() == n,
                n == old(self).systems@.len(),
                self.pre_pubsub@ == old(self).pre_pubsub@,
                self.post_pubsub == old(self).post_pubsub,
            decreases hooks - i,
        {
            let hook = self.pre_pubsub.remove(i);
            hook.call(&mut self.context);
            self.pre_pubsub.insert(i, hook);
            proof {
                assert(self.pre_pubsub@ =~= old(self).pre_pubsub@);
            }
            i = i + 1;
        }
        self.context.pubsub().process();
        let hooks = self.post_pubsub.len();
        let mut i: usize = 0;
        while i < hooks
            invariant
                hooks == self.post_pubsub@.len(),
                0 <= i <= hooks,
                self.systems@.len() == n,
                n == old(self).systems@.len(),
                self.pre_pubsub@ == old(self).pre_pubsub@,
                self.post_pubsub@ == old(self).post_pubsub@,
            decreases hooks - i,
        {
            let hook = self.post_pubsub.remove(i);
            hook.call(&mut self.context);
            self.post_pubsub.insert(i, hook);
            proof {
                assert(self.post_pubsub@ =~= old(self).post_pubsub@);
            }
            i = i + 1;
        }
    }

    /// Initializes every system, in order.
    pub fn init(self) -> (r: MasterTicker<C, T, H>)
        ensures
            r.systems@.len() == self.systems@.len(),
            r.pre_pubsub == self.pre_pubsub,
            r.post_pubsub == self.post_pubsub,
    {
        let mut me = self;
        let n = me.systems.len();
        let mut i: usize = 0;
        while i < n
            invariant
                n == me.systems@.len(),
                0 <= i <= n,
                me.pre_pubsub == self.pre_pubsub,
                me.post_pubsub == self.post_pubsub,
            decreases n - i,
        {
            let mut system = me.systems.remove(i);
            system.init(&mut me.context);
            me.systems.insert(i, system);
            i = i + 1;
        }
        me
    }
}

/// A ready-made context: the clock and a fan-out over the echoing backend.
pub struct BasicContext {
    pub time: TimeSystem,
    pub pubsub: PubSubSystem<TestUnderlyingPubSub>,
}

impl BasicContext {
    /// A context whose clock runs at `tick_rate` microseconds per round and
    /// whose fan-out starts empty.
    pub fn new(tick_rate: u64) -> (r: BasicContext)
        ensures
            r.time == (TimeSystem { tick_rate, true_tick_rate: tick_rate, tick_time: 0 }),
            r.pubsub.pub_data@ == Seq::<Vec<u8>>::empty(),
            r.pubsub.sub_data@ == Seq::<(SubData, crate::pubsub::Subscription)>::empty(),
    {
        BasicContext {
            time: TimeSystem::new(tick_rate),
            pubsub: PubSubSystem::new(TestUnderlyingPubSub { subscriptions: 0 }),
        }
    }
}

impl GenericTickerContext for BasicContext {
    type PubSubImpl = TestUnderlyingPubSub;

    open spec fn time_spec(&self) -> TimeSystem {
        self.time
    }

    open spec fn pubsub_spec(&self) -> PubSubSystem<TestUnderlyingPubSub> {
        self.pubsub
    }

    fn time(&mut self) -> (t: &mut TimeSystem) {
        &mut self.time
    }

    fn pubsub(&mut self) -> (p: &mut PubSubSystem<TestUnderlyingPubSub>) {
        &mut self.pubsub
    }
}

} // verus!
