//! Connection multiplexer: one inbound stream, many listeners.
//!
//! A [`MavlinkConnection`] models a duplex link as the ordered, timed stream
//! of messages the transport produces (`inbound`) together with the log of
//! transmissions (`sent`) and a clock (`now`).  A [`monitor`] walks the
//! stream from the present, hands every header-validated message to a
//! predicate, and ends when the predicate signals completion or a deadline
//! elapses; [`send_wait`] arms such a listener, transmits one request and
//! reports the reply the filter accepted.  Monitors never remove messages
//! from the stream — every listener sees every arrival — so concurrent
//! listeners fan out; only the clock moves forward.
//!
//! [`monitor`]: MavlinkConnection::monitor
//! [`send_wait`]: MavlinkConnection::send_wait

use vstd::prelude::*;

use crate::msg::{Header, Message};

verus! {

/// Decision of a reply filter on one inbound message: correlation succeeded
/// (`Ready(Some(..))`), correlation explicitly rejected (`Ready(None)`), or
/// the message is irrelevant and waiting continues (`NotReady`).
#[derive(Clone, Copy, Debug)]
pub enum FilterRes<T> {
    Ready(Option<T>),
    NotReady,
}

/// Errors of the connection layer and of the protocols above it.
#[derive(Clone, PartialEq, Debug)]
pub enum MavlinkConnectionError {
    /// A deadline elapsed before correlation completed.
    Timeout,
    /// Transport-level receive or decode failure, passed through verbatim.
    ReadError(String),
    /// Transport-level send failure, passed through verbatim.
    WriteError(String),
    /// Protocol-level mismatch, e.g. an out-of-sequence or unexpected reply.
    Other(String),
    /// A bounded retry loop exhausted its attempt cap without acceptance.
    RetriesExhausted,
}

/// One arrival on the inbound stream: when it arrived (microseconds since
/// the connection opened), who sent it, and the decoded message.
#[derive(Clone, Copy, PartialEq, Eq, Structural, Debug)]
pub struct TimedMessage {
    pub time: u64,
    pub header: Header,
    pub msg: Message,
}

/// Header validation policy of a connection.  The default accepts every
/// sender; a connection may restrict to one known sender instead.
#[derive(Clone, Copy, PartialEq, Eq, Structural, Debug)]
pub enum SenderPolicy {
    AcceptAll,
    OnlyFrom(Header),
}

/// How a monitor ended: the predicate signaled completion, the deadline
/// elapsed first, or — only when no deadline was given — the recorded
/// stream ran out while the listener was still waiting.
#[derive(Clone, Copy, PartialEq, Eq, Structural, Debug)]
pub enum MonitorStatus {
    Done,
    TimedOut,
    Pending,
}

/// A monitoring predicate: a pure function of one message that says what to
/// publish for it (if anything) and whether it completes the watch.
pub trait MonitorPredicate: Sized {
    type Update;

    /// What observing `m` publishes.
    spec fn update_spec(&self, m: Message) -> Option<Self::Update>;

    /// Whether observing `m` completes the watch.
    spec fn done_spec(&self, m: Message) -> bool;

    fn observe(&self, m: &Message) -> (r: (Option<Self::Update>, bool))
        ensures
            r.0 == self.update_spec(*m),
            r.1 == self.done_spec(*m),
    ;
}

/// A reply filter: a pure function of one message to one [`FilterRes`].
pub trait MessageFilter: Sized {
    type Out;

    spec fn decide_spec(&self, m: Message) -> FilterRes<Self::Out>;

    fn decide(&self, m: &Message) -> (r: FilterRes<Self::Out>)
        ensures
            r == self.decide_spec(*m),
    ;
}

/// The predicate [`send_wait`](MavlinkConnection::send_wait) derives from a
/// filter: wait through `NotReady`, capture the payload and stop on `Ready`.
pub struct FilterPredicate<F> {
    pub filter: F,
}

impl<F: MessageFilter> MonitorPredicate for FilterPredicate<F> {
    type Update = Option<F::Out>;

    open spec fn update_spec(&self, m: Message) -> Option<Option<F::Out>> {
        match self.filter.decide_spec(m) {
            FilterRes::Ready(out) => Some(out),
            FilterRes::NotReady => None,
        }
    }

    open spec fn done_spec(&self, m: Message) -> bool {
        self.filter.decide_spec(m) is Ready
    }

    fn observe(&self, m: &Message) -> (r: (Option<Option<F::Out>>, bool)) {
        match self.filter.decide(m) {
            FilterRes::Ready(out) => (Some(out), true),
            FilterRes::NotReady => (None, false),
        }
    }
}

/// Arrivals recorded in time order.
pub open spec fn time_ordered(s: Seq<TimedMessage>) -> bool {
    forall|i: int, j: int| 0 <= i < j < s.len() ==> s[i].time <= s[j].time
}

/// A filter that accepts the first validated message outright.
pub struct ReadyOnAny;

impl MessageFilter for ReadyOnAny {
    type Out = ();

    open spec fn decide_spec(&self, m: Message) -> FilterRes<()> {
        FilterRes::Ready(Some(()))
    }

    fn decide(&self, m: &Message) -> (r: FilterRes<()>) {
        FilterRes::Ready(Some(()))
    }
}

/// A filter that rejects the first validated message outright.
pub struct RejectOnAny;

impl MessageFilter for RejectOnAny {
    type Out = ();

    open spec fn decide_spec(&self, m: Message) -> FilterRes<()> {
        FilterRes::Ready(Option::<()>::None)
    }

    fn decide(&self, m: &Message) -> (r: FilterRes<()>) {
        FilterRes::Ready(None)
    }
}

/// A filter that waits through every message.
pub struct NeverReady;

impl MessageFilter for NeverReady {
    type Out = ();

    open spec fn decide_spec(&self, m: Message) -> FilterRes<()> {
        FilterRes::NotReady
    }

    fn decide(&self, m: &Message) -> (r: FilterRes<()>) {
        FilterRes::NotReady
    }
}

/// Whether a sender passes the connection's validation policy.
pub open spec fn sender_ok(policy: SenderPolicy, h: Header) -> bool {
    match policy {
        SenderPolicy::AcceptAll => true,
        SenderPolicy::OnlyFrom(expected) => expected == h,
    }
}

/// Whether an arrival at time `t` falls within a deadline of `timeout`
/// microseconds past `now` (no deadline admits every arrival).
pub open spec fn within_deadline(t: u64, now: u64, timeout: Option<u64>) -> bool {
    match timeout {
        Option::None => true,
        Option::Some(d) => t <= now + d,
    }
}

/// `a + b`, stopping at the top of `u64`.
pub open spec fn sat_add_u64(a: u64, b: u64) -> u64 {
    if a + b > u64::MAX {
        u64::MAX
    } else {
        (a + b) as u64
    }
}

/// The transcript of one monitor: everything it published, how it ended,
/// and how many stream entries the passing time consumed.
pub struct MonitorRun<U> {
    pub updates: Seq<U>,
    pub status: MonitorStatus,
    pub consumed: int,
}

/// What a monitor armed at clock `now` does to the stream suffix `s`: the
/// first validated message the predicate completes on ends it with `Done`;
/// an arrival past the deadline (or the deadline outliving the stream) ends
/// it with `TimedOut`; a stream that runs out under no deadline leaves it
/// `Pending`.
pub open spec fn monitor_run<P: MonitorPredicate>(
    p: P,
    s: Seq<TimedMessage>,
    policy: SenderPolicy,
    now: u64,
    timeout: Option<u64>,
) -> MonitorRun<P::Update>
    decreases s.len(),
{
    if s.len() == 0 {
        MonitorRun {
            updates: Seq::empty(),
            status: if timeout is Some { MonitorStatus::TimedOut } else { MonitorStatus::Pending },
            consumed: 0,
        }
    } else {
        let m = s[0];
        if !within_deadline(m.time, now, timeout) {
            MonitorRun { updates: Seq::empty(), status: MonitorStatus::TimedOut, consumed: 0 }
        } else if !sender_ok(policy, m.header) {
            let rest = monitor_run(p, s.drop_first(), policy, now, timeout);
            MonitorRun { updates: rest.updates, status: rest.status, consumed: rest.consumed + 1 }
        } else {
            let head: Seq<P::Update> = match p.update_spec(m.msg) {
                Option::Some(u) => seq![u],
                Option::None => Seq::empty(),
            };
            if p.done_spec(m.msg) {
                MonitorRun { updates: head, status: MonitorStatus::Done, consumed: 1 }
            } else {
                let rest = monitor_run(p, s.drop_first(), policy, now, timeout);
                MonitorRun {
                    updates: head + rest.updates,
                    status: rest.status,
                    consumed: rest.consumed + 1,
                }
            }
        }
    }
}

/// Where the clock stands once a monitor over suffix `s` has ended: at the
/// completing arrival on `Done`, at the deadline on `TimedOut`, and at the
/// last recorded arrival (if any) when it is left `Pending`.
pub open spec fn clock_after_monitor(
    s: Seq<TimedMessage>,
    now: u64,
    timeout: Option<u64>,
    status: MonitorStatus,
    consumed: int,
) -> u64 {
    match status {
        MonitorStatus::Done => s[consumed - 1].time,
        MonitorStatus::TimedOut => match timeout {
            Option::Some(d) => sat_add_u64(now, d),
            Option::None => now,
        },
        MonitorStatus::Pending => if consumed > 0 {
            s[consumed - 1].time
        } else {
            now
        },
    }
}

/// The connection multiplexer, modelled over a recorded stream.
///
/// `inbound` is the ordered, timed record of everything the transport
/// produces; `pos` and `now` mark how far real time has progressed through
/// it; `sent` logs every transmission; `link_ok` models the health of the
/// transport's send path.  Target identity is explicit configuration, fixed
/// for the connection's lifetime.
#[derive(Clone, Debug)]
pub struct MavlinkConnection {
    pub target_system: u8,
    pub target_component: u8,
    pub policy: SenderPolicy,
    pub link_ok: bool,
    pub now: u64,
    pub pos: usize,
    pub inbound: Vec<TimedMessage>,
    pub sent: Vec<Message>,
}

impl MavlinkConnection {
    /// Well-formedness: arrivals are recorded in time order, the consumed
    /// prefix ends at `pos`, and nothing still ahead predates the clock.
    pub open spec fn wf(self) -> bool {
        &&& self.pos <= self.inbound@.len()
        &&& time_ordered(self.inbound@)
        &&& forall|i: int|
            self.pos <= i < self.inbound@.len() ==> self.now <= #[trigger] self.inbound@[i].time
    }

    /// The stream suffix a monitor armed now would observe.
    pub open spec fn remaining(self) -> Seq<TimedMessage> {
        self.inbound@.subrange(self.pos as int, self.inbound@.len() as int)
    }

    /// Opens a connection to the given target with an empty record, an
    /// all-senders validation policy and a healthy send path.
    pub fn new(target_system: u8, target_component: u8) -> (c: MavlinkConnection)
        ensures
            c.wf(),
            c.target_system == target_system,
            c.target_component == target_component,
            c.policy == SenderPolicy::AcceptAll,
            c.link_ok,
            c.now == 0,
            c.pos == 0,
            c.inbound@ == Seq::<TimedMessage>::empty(),
            c.sent@ == Seq::<Message>::empty(),
    {
        MavlinkConnection {
            target_system,
            target_component,
            policy: SenderPolicy::AcceptAll,
            link_ok: true,
            now: 0,
            pos: 0,
            inbound: Vec::new(),
            sent: Vec::new(),
        }
    }

    /// Restricts header validation to one known sender.
    pub fn restrict_sender(&mut self, h: Header)
        requires
            old(self).wf(),
        ensures
            final(self).wf(),
            *final(self) == (MavlinkConnection { policy: SenderPolicy::OnlyFrom(h), ..*old(self) }),
    {
        self.policy = SenderPolicy::OnlyFrom(h);
    }

    /// Marks the transport's send path up or down.
    pub fn set_link_ok(&mut self, ok: bool)
        requires
            old(self).wf(),
        ensures
            final(self).wf(),
            *final(self) == (MavlinkConnection { link_ok: ok, ..*old(self) }),
    {
        self.link_ok = ok;
    }

    /// Records one arrival the transport produces, in time order.
    pub fn inject(&mut self, time: u64, header: Header, msg: Message)
        requires
            old(self).wf(),
            time >= old(self).now,
            old(self).inbound@.len() > 0 ==> time >= old(self).inbound@.last().time,
        ensures
            final(self).wf(),
            *final(self) == (MavlinkConnection {
                inbound: final(self).inbound,
                ..*old(self)
            }),
            final(self).inbound@ == old(self).inbound@.push(
                TimedMessage { time, header, msg },
            ),
    {
        self.inbound.push(TimedMessage { time, header, msg });
    }

    /// The configured target system identifier.
    pub fn target_system(&self) -> (r: u8)
        ensures
            r == self.target_system,
    {
        self.target_system
    }

    /// The configured target component identifier.
    pub fn target_component(&self) -> (r: u8)
        ensures
            r == self.target_component,
    {
        self.target_component
    }

    /// The most recent transmission, if any.
    pub fn last_sent(&self) -> (r: Option<Message>)
        ensures
            r == if self.sent@.len() > 0 {
                Some(self.sent@.last())
            } else {
                Option::<Message>::None
            },
    {
        if self.sent.len() > 0 {
            Some(self.sent[self.sent.len() - 1])
        } else {
            None
        }
    }

    /// Synchronously hands one encoded message to the transport.  Succeeds,
    /// logging the transmission and reporting one unit written, exactly when
    /// the send path is healthy; fails with `WriteError` otherwise.
    pub fn send(&mut self, msg: &Message) -> (r: Result<usize, MavlinkConnectionError>)
        requires
            old(self).wf(),
        ensures
            final(self).wf(),
            old(self).link_ok ==> {
                &&& r == Result::<usize, MavlinkConnectionError>::Ok(1usize)
                &&& *final(self) == (MavlinkConnection { sent: final(self).sent, ..*old(self) })
                &&& final(self).sent@ == old(self).sent@.push(*msg)
            },
            !old(self).link_ok ==> {
                &&& r matches Result::Err(MavlinkConnectionError::WriteError(_))
                &&& *final(self) == *old(self)
            },
    {
        if self.link_ok {
            self.sent.push(*msg);
            Ok(1)
        } else {
            Err(MavlinkConnectionError::WriteError(link_down_text()))
        }
    }

    /// Feeds every validated arrival, in order, to `pred` until it signals
    /// completion or the deadline elapses, and reports everything the
    /// predicate published along the way.  The stream itself is untouched:
    /// a monitor consumes time, never messages, so every concurrent
    /// listener over the same record observes the same arrivals.
    pub fn monitor<P: MonitorPredicate>(&mut self, timeout: Option<u64>, pred: &P) -> (r: (
        Vec<P::Update>,
        MonitorStatus,
    ))
        requires
            old(self).wf(),
        ensures
            final(self).wf(),
            ({
                let run = monitor_run(
                    *pred,
                    old(self).remaining(),
                    old(self).policy,
                    old(self).now,
                    timeout,
                );
                &&& r.0@ == run.updates
                &&& r.1 == run.status
                &&& final(self).pos == old(self).pos + run.consumed
                &&& final(self).now == clock_after_monitor(
                    old(self).remaining(),
                    old(self).now,
                    timeout,
                    run.status,
                    run.consumed,
                )
                &&& *final(self) == (MavlinkConnection {
                    pos: final(self).pos,
                    now: final(self).now,
                    ..*old(self)
                })
            }),
    {
        let ghost orig = *self;
        let ghost full = monitor_run(*pred, orig.remaining(), orig.policy, orig.now, timeout);
        let mut updates: Vec<P::Update> = Vec::new();
        let mut idx: usize = self.pos;
        let mut last_time: u64 = self.now;
        loop
            invariant
                orig == *old(self),
                orig.wf(),
                *self == orig,
                orig.pos <= idx <= orig.inbound@.len(),
                full == monitor_run(*pred, orig.remaining(), orig.policy, orig.now, timeout),
                ({
                    let rest = monitor_run(
                        *pred,
                        orig.inbound@.subrange(idx as int, orig.inbound@.len() as int),
                        orig.policy,
                        orig.now,
                        timeout,
                    );
                    &&& full.updates == updates@ + rest.updates
                    &&& full.status == rest.status
                    &&& full.consumed == idx - orig.pos + rest.consumed
                }),
                last_time == if idx > orig.pos {
                    orig.inbound@[idx as int - 1].time
                } else {
                    orig.now
                },
                orig.now <= last_time,
            decreases orig.inbound@.len() - idx,
        {
            let ghost rest_seq = orig.inbound@.subrange(idx as int, orig.inbound@.len() as int);
            let ghost rest = monitor_run(*pred, rest_seq, orig.policy, orig.now, timeout);
            if idx == self.inbound.len() {
                proof {
                    assert(rest_seq.len() == 0);
                    assert(full.updates =~= updates@);
                }
                if let Some(d) = timeout {
                    self.pos = idx;
                    self.now = self.now.saturating_add(d);
                    return (updates, MonitorStatus::TimedOut);
                } else {
                    self.pos = idx;
                    self.now = last_time;
                    return (updates, MonitorStatus::Pending);
                }
            }
            let tm = self.inbound[idx];
            proof {
                assert(rest_seq[0] == orig.inbound@[idx as int]);
                assert(rest_seq.drop_first() =~= orig.inbound@.subrange(
                    idx as int + 1,
                    orig.inbound@.len() as int,
                ));
                assert(orig.now <= tm.time);
            }
            let within = match timeout {
                Option::None => true,
                Option::Some(d) => tm.time - self.now <= d,
            };
            if !within {
                // The next arrival lies past the deadline: the deadline
                // elapsed first.
                let d = timeout.unwrap();
                proof {
                    assert(full.updates =~= updates@);
                    assert(orig.now + d < tm.time);
                    assert forall|i: int| idx <= i < orig.inbound@.len() implies sat_add_u64(
                        orig.now,
                        d,
                    ) <= #[trigger] orig.inbound@[i].time by {
                        assert(orig.inbound@[idx as int].time <= orig.inbound@[i].time);
                    }
                }
                self.pos = idx;
                self.now = self.now.saturating_add(d);
                return (updates, MonitorStatus::TimedOut);
            }
            if !sender_ok_exec(&self.policy, &tm.header) {
                idx = idx + 1;
                last_time = tm.time;
                continue;
            }
            let (up, done) = pred.observe(&tm.msg);
            if let Some(u) = up {
                updates.push(u);
            }
            if done {
                proof {
                    assert(full.updates =~= updates@);
                    assert forall|i: int| idx + 1 <= i < orig.inbound@.len() implies tm.time
                        <= #[trigger] orig.inbound@[i].time by {}
                }
                self.pos = idx + 1;
                self.now = tm.time;
                return (updates, MonitorStatus::Done);
            }
            idx = idx + 1;
            last_time = tm.time;
        }
    }

    /// Arms a listener derived from `filter`, then transmits `msg`, then
    /// awaits the listener — in that order, so a reply that arrives fast
    /// cannot slip past before listening begins.  Resolves `Ok(out)` with
    /// the first decision a validated reply draws within the deadline
    /// ([`first_decision`]), `Err(Timeout)` when the deadline elapses with
    /// no decision, and `Err(WriteError)`, leaving everything unchanged,
    /// when the send path is down.
    pub fn send_wait<F: MessageFilter>(&mut self, msg: &Message, timeout: u64, filter: F) -> (r:
        Result<Option<F::Out>, MavlinkConnectionError>)
        requires
            old(self).wf(),
        ensures
            final(self).wf(),
            !old(self).link_ok ==> (r matches Result::Err(MavlinkConnectionError::WriteError(_)))
                && *final(self) == *old(self),
            old(self).link_ok ==> ({
                let run = monitor_run(
                    FilterPredicate { filter },
                    old(self).remaining(),
                    old(self).policy,
                    old(self).now,
                    Some(timeout),
                );
                &&& final(self).pos == old(self).pos + run.consumed
                &&& final(self).now == clock_after_monitor(
                    old(self).remaining(),
                    old(self).now,
                    Some(timeout),
                    run.status,
                    run.consumed,
                )
                &&& final(self).sent@ == old(self).sent@.push(*msg)
                &&& *final(self) == (MavlinkConnection {
                    pos: final(self).pos,
                    now: final(self).now,
                    sent: final(self).sent,
                    ..*old(self)
                })
                &&& r == match first_decision(
                    filter,
                    old(self).remaining(),
                    old(self).policy,
                    old(self).now,
                    timeout,
                ) {
                    Option::Some(out) => Result::<
                        Option<F::Out>,
                        MavlinkConnectionError,
                    >::Ok(out),
                    Option::None => Result::<Option<F::Out>, MavlinkConnectionError>::Err(
                        MavlinkConnectionError::Timeout,
                    ),
                }
            }),
    {
        if !self.link_ok {
            return Err(MavlinkConnectionError::WriteError(link_down_text()));
        }
        proof {
            lemma_filter_monitor(
                filter,
                self.remaining(),
                self.policy,
                self.now,
                timeout,
            );
        }
        let pred = FilterPredicate { filter };
        let (mut updates, status) = self.monitor(Some(timeout), &pred);
        let _send_res = self.send(msg);
        match status {
            MonitorStatus::Done => {
                let out = updates.pop().unwrap();
                Ok(out)
            }
            _ => Err(MavlinkConnectionError::Timeout),
        }
    }
}

/// What the first validated arrival within the deadline that a filter does
/// not wave through decides: `Some(out)` when that arrival draws
/// `Ready(out)`, `None` when the deadline elapses with every validated
/// arrival before it left `NotReady`.
pub open spec fn first_decision<F: MessageFilter>(
    f: F,
    s: Seq<TimedMessage>,
    policy: SenderPolicy,
    now: u64,
    timeout: u64,
) -> Option<Option<F::Out>>
    decreases s.len(),
{
    if s.len() == 0 {
        Option::None
    } else {
        let m = s[0];
        if !within_deadline(m.time, now, Some(timeout)) {
            Option::None
        } else if !sender_ok(policy, m.header) {
            first_decision(f, s.drop_first(), policy, now, timeout)
        } else {
            match f.decide_spec(m.msg) {
                FilterRes::Ready(out) => Option::Some(out),
                FilterRes::NotReady => first_decision(f, s.drop_first(), policy, now, timeout),
            }
        }
    }
}

/// A monitor consumes at most the stream it was shown, and completing
/// consumes at least the completing arrival.
pub proof fn lemma_monitor_consumed_bounds<P: MonitorPredicate>(
    p: P,
    s: Seq<TimedMessage>,
    policy: SenderPolicy,
    now: u64,
    timeout: Option<u64>,
)
    ensures
        0 <= monitor_run(p, s, policy, now, timeout).consumed <= s.len(),
        monitor_run(p, s, policy, now, timeout).status == MonitorStatus::Done ==> monitor_run(
            p,
            s,
            policy,
            now,
            timeout,
        ).consumed >= 1,
    decreases s.len(),
{
    if s.len() == 0 {
    } else {
        let m = s[0];
        if !within_deadline(m.time, now, timeout) {
        } else if !sender_ok(policy, m.header) || !p.done_spec(m.msg) {
            lemma_monitor_consumed_bounds(p, s.drop_first(), policy, now, timeout);
        }
    }
}

/// A monitor that waits on a filter ends with `Done` and exactly the
/// filter's first decision captured when such a decision falls within the
/// deadline, and with `TimedOut` and nothing captured otherwise.
pub proof fn lemma_filter_monitor<F: MessageFilter>(
    f: F,
    s: Seq<TimedMessage>,
    policy: SenderPolicy,
    now: u64,
    timeout: u64,
)
    ensures
        ({
            let run = monitor_run(
                FilterPredicate { filter: f },
                s,
                policy,
                now,
                Some(timeout),
            );
            match first_decision(f, s, policy, now, timeout) {
                Option::Some(out) => run.status == MonitorStatus::Done && run.updates == seq![out],
                Option::None => run.status == MonitorStatus::TimedOut && run.updates
                    == Seq::<Option<F::Out>>::empty(),
            }
        }),
    decreases s.len(),
{
    let p = FilterPredicate { filter: f };
    let run = monitor_run(p, s, policy, now, Some(timeout));
    if s.len() == 0 {
    } else {
        let m = s[0];
        if !within_deadline(m.time, now, Some(timeout)) {
        } else if !sender_ok(policy, m.header) {
            lemma_filter_monitor(f, s.drop_first(), policy, now, timeout);
        } else {
            match f.decide_spec(m.msg) {
                FilterRes::Ready(out) => {
                    assert(run.updates =~= seq![out]);
                }
                FilterRes::NotReady => {
                    lemma_filter_monitor(f, s.drop_first(), policy, now, timeout);
                    let rest = monitor_run(p, s.drop_first(), policy, now, Some(timeout));
                    match first_decision(f, s.drop_first(), policy, now, timeout) {
                        Option::Some(out) => {
                            assert(run.updates =~= seq![out]);
                        }
                        Option::None => {
                            assert(run.updates =~= Seq::<Option<F::Out>>::empty());
                        }
                    }
                }
            }
        }
    }
}

/// A deadline-bounded monitor ends with exactly one of `Done` and
/// `TimedOut` — never with neither — and it ends with `Done` precisely when
/// some validated arrival within the deadline completes the predicate.
pub proof fn lemma_monitor_deadline_decides<P: MonitorPredicate>(
    p: P,
    s: Seq<TimedMessage>,
    policy: SenderPolicy,
    now: u64,
    d: u64,
)
    requires
        time_ordered(s),
    ensures
        ({
            let run = monitor_run(p, s, policy, now, Some(d));
            &&& run.status != MonitorStatus::Pending
            &&& run.status == MonitorStatus::Done <==> exists|i: int|
                0 <= i < s.len() && within_deadline(#[trigger] s[i].time, now, Some(d))
                    && sender_ok(policy, s[i].header) && p.done_spec(s[i].msg)
        }),
    decreases s.len(),
{
    let run = monitor_run(p, s, policy, now, Some(d));
    if s.len() == 0 {
    } else {
        let m = s[0];
        let rest = s.drop_first();
        assert(time_ordered(rest)) by {
            assert forall|i: int, j: int| 0 <= i < j < rest.len() implies rest[i].time
                <= rest[j].time by {
                assert(rest[i] == s[i + 1]);
                assert(rest[j] == s[j + 1]);
            }
        }
        if !within_deadline(m.time, now, Some(d)) {
            assert forall|i: int| 0 <= i < s.len() implies !within_deadline(
                #[trigger] s[i].time,
                now,
                Some(d),
            ) by {
                assert(s[0].time <= s[i].time);
            }
        } else if !sender_ok(policy, m.header) || !p.done_spec(m.msg) {
            lemma_monitor_deadline_decides(p, rest, policy, now, d);
            let rest_run = monitor_run(p, rest, policy, now, Some(d));
            if rest_run.status == MonitorStatus::Done {
                let i = choose|i: int|
                    0 <= i < rest.len() && within_deadline(#[trigger] rest[i].time, now, Some(d))
                        && sender_ok(policy, rest[i].header) && p.done_spec(rest[i].msg);
                assert(rest[i] == s[i + 1]);
                assert(within_deadline(s[i + 1].time, now, Some(d)) && sender_ok(
                    policy,
                    s[i + 1].header,
                ) && p.done_spec(s[i + 1].msg));
            }
            if run.status == MonitorStatus::Done {
            } else {
                assert forall|i: int|
                    0 <= i < s.len() && within_deadline(#[trigger] s[i].time, now, Some(d))
                        && sender_ok(policy, s[i].header) implies !p.done_spec(s[i].msg) by {
                    if i > 0 {
                        assert(rest[i - 1] == s[i]);
                    }
                }
            }
        } else {
            assert(within_deadline(s[0].time, now, Some(d)) && sender_ok(policy, s[0].header)
                && p.done_spec(s[0].msg));
        }
    }
}

/// Exec mirror of [`sender_ok`].
fn sender_ok_exec(policy: &SenderPolicy, h: &Header) -> (r: bool)
    ensures
        r == sender_ok(*policy, *h),
{
    match policy {
        SenderPolicy::AcceptAll => true,
        SenderPolicy::OnlyFrom(expected) => expected.system_id == h.system_id
            && expected.component_id == h.component_id,
    }
}

/// Text carried by a `WriteError` raised for a downed send path.
fn link_down_text() -> String {
    String::from_str("transport send path is down")
}

} // verus!
