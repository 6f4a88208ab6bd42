//! Command issuance and acknowledgment tracking.
//!
//! A command is sent fire-and-forget with [`Command::command`], or together
//! with a listener that follows its acknowledgment lifecycle with
//! [`Command::command_monitor`]: every acknowledgment correlated to the
//! command — same command identifier — is published, in arrival order, onto
//! an [`AckChannel`], which closes after the first terminal (anything but
//! `InProgress`) result.  [`Command::command_retry`] runs such monitors up
//! to a cap of attempts and succeeds with the first accepted terminal ack.

use vstd::prelude::*;

use crate::connection::{
    clock_after_monitor, monitor_run, sender_ok, within_deadline, MavlinkConnection,
    MavlinkConnectionError, MonitorPredicate, MonitorStatus, SenderPolicy, TimedMessage,
};
use crate::msg::{CommandAck, CommandInt, CommandLong, MavResult, Message};

verus! {

/// The monitoring predicate of a command monitor: publish every
/// acknowledgment whose command identifier matches, and complete the watch
/// on the first one whose result is terminal.
pub struct CommandAckPredicate {
    pub command: u16,
}

impl MonitorPredicate for CommandAckPredicate {
    type Update = CommandAck;

    open spec fn update_spec(&self, m: Message) -> Option<CommandAck> {
        match m {
            Message::CommandAck(a) => if a.command == self.command {
                Some(a)
            } else {
                Option::<CommandAck>::None
            },
            _ => Option::<CommandAck>::None,
        }
    }

    open spec fn done_spec(&self, m: Message) -> bool {
        match m {
            Message::CommandAck(a) => a.command == self.command && a.result.is_terminal(),
            _ => false,
        }
    }

    fn observe(&self, m: &Message) -> (r: (Option<CommandAck>, bool)) {
        match m {
            Message::CommandAck(a) => {
                if a.command == self.command {
                    (Some(*a), a.result != MavResult::InProgress)
                } else {
                    (None, false)
                }
            }
            _ => (None, false),
        }
    }
}

/// The acknowledgments a command monitor publishes: every validated,
/// in-deadline acknowledgment correlated to command `id`, in arrival order,
/// cut directly after the first terminal one.
pub open spec fn acks_until_terminal(
    s: Seq<TimedMessage>,
    policy: SenderPolicy,
    now: u64,
    timeout: Option<u64>,
    id: u16,
) -> Seq<CommandAck>
    decreases s.len(),
{
    if s.len() == 0 {
        Seq::empty()
    } else {
        let m = s[0];
        if !within_deadline(m.time, now, timeout) {
            Seq::empty()
        } else if !sender_ok(policy, m.header) {
            acks_until_terminal(s.drop_first(), policy, now, timeout, id)
        } else {
            match m.msg {
                Message::CommandAck(a) => if a.command == id {
                    if a.result.is_terminal() {
                        seq![a]
                    } else {
                        seq![a] + acks_until_terminal(s.drop_first(), policy, now, timeout, id)
                    }
                } else {
                    acks_until_terminal(s.drop_first(), policy, now, timeout, id)
                },
                _ => acks_until_terminal(s.drop_first(), policy, now, timeout, id),
            }
        }
    }
}

/// What a command monitor over suffix `s` publishes is exactly
/// [`acks_until_terminal`].
pub proof fn lemma_ack_updates(
    s: Seq<TimedMessage>,
    policy: SenderPolicy,
    now: u64,
    timeout: Option<u64>,
    id: u16,
)
    ensures
        monitor_run(CommandAckPredicate { command: id }, s, policy, now, timeout).updates
            == acks_until_terminal(s, policy, now, timeout, id),
    decreases s.len(),
{
    let p = CommandAckPredicate { command: id };
    let run = monitor_run(p, s, policy, now, timeout);
    let ups = acks_until_terminal(s, policy, now, timeout, id);
    if s.len() == 0 {
        assert(run.updates =~= ups);
    } else {
        let m = s[0];
        if !within_deadline(m.time, now, timeout) {
            assert(run.updates =~= ups);
        } else {
            lemma_ack_updates(s.drop_first(), policy, now, timeout, id);
            assert(run.updates =~= ups);
        }
    }
}

/// Shape of a command monitor's transcript: every published update is an
/// acknowledgment correlated to the command; every update but the last
/// reports `InProgress`; the watch completes exactly when a terminal
/// acknowledgment arrived, and then the terminal one is the last update,
/// after which nothing further is published.
pub proof fn lemma_ack_channel_shape(
    s: Seq<TimedMessage>,
    policy: SenderPolicy,
    now: u64,
    timeout: Option<u64>,
    id: u16,
)
    ensures
        ({
            let ups = acks_until_terminal(s, policy, now, timeout, id);
            let run = monitor_run(CommandAckPredicate { command: id }, s, policy, now, timeout);
            &&& forall|i: int| 0 <= i < ups.len() ==> (#[trigger] ups[i]).command == id
            &&& forall|i: int|
                0 <= i < ups.len() - 1 ==> (#[trigger] ups[i]).result == MavResult::InProgress
            &&& run.status == MonitorStatus::Done ==> ups.len() > 0
                && ups.last().result.is_terminal()
            &&& run.status != MonitorStatus::Done ==> forall|i: int|
                0 <= i < ups.len() ==> (#[trigger] ups[i]).result == MavResult::InProgress
        }),
    decreases s.len(),
{
    let p = CommandAckPredicate { command: id };
    let ups = acks_until_terminal(s, policy, now, timeout, id);
    let run = monitor_run(p, s, policy, now, timeout);
    if s.len() == 0 {
    } else {
        let m = s[0];
        if !within_deadline(m.time, now, timeout) {
        } else {
            lemma_ack_channel_shape(s.drop_first(), policy, now, timeout, id);
            let rest_ups = acks_until_terminal(s.drop_first(), policy, now, timeout, id);
            if sender_ok(policy, m.header) {
                match m.msg {
                    Message::CommandAck(a) => {
                        if a.command == id && !a.result.is_terminal() {
                            assert(ups == seq![a] + rest_ups);
                            assert(forall|i: int|
                                1 <= i < ups.len() ==> ups[i] == rest_ups[i - 1]);
                        }
                    }
                    _ => {}
                }
            }
        }
    }
}

/// How one observation of an [`AckChannel`] read: the next unread update,
/// `NoUpdate` while the monitor behind the channel may still publish, or
/// `Closed` once it never will again.
#[derive(Clone, Copy, PartialEq, Eq, Structural, Debug)]
pub enum ChannelRead {
    Update(CommandAck),
    NoUpdate,
    Closed,
}

/// A single-slot, change-notifying observation channel for a command's
/// acknowledgment lifecycle: the updates a monitor published in order, a
/// cursor over what the observer has consumed, and whether the publisher
/// is gone.
#[derive(Clone, Debug)]
pub struct AckChannel {
    pub updates: Vec<CommandAck>,
    pub read: usize,
    pub closed: bool,
}

impl AckChannel {
    /// The observer's cursor never passes what was published.
    pub open spec fn wf(self) -> bool {
        self.read <= self.updates@.len()
    }

    /// What one [`recv`](AckChannel::recv) observes and leaves behind.
    pub open spec fn read_step(self) -> (AckChannel, ChannelRead) {
        if self.read < self.updates@.len() {
            (
                AckChannel { read: (self.read + 1) as usize, ..self },
                ChannelRead::Update(self.updates@[self.read as int]),
            )
        } else if self.closed {
            (self, ChannelRead::Closed)
        } else {
            (self, ChannelRead::NoUpdate)
        }
    }

    /// Observes the channel once.  A closed, drained channel answers
    /// `Closed`, distinct from the `NoUpdate` of one that may still move.
    pub fn recv(&mut self) -> (r: ChannelRead)
        requires
            old(self).wf(),
        ensures
            final(self).wf(),
            (*final(self), r) == old(self).read_step(),
    {
        if self.read < self.updates.len() {
            let ack = self.updates[self.read];
            self.read = self.read + 1;
            ChannelRead::Update(ack)
        } else if self.closed {
            ChannelRead::Closed
        } else {
            ChannelRead::NoUpdate
        }
    }

    /// The latest published acknowledgment, if any was published yet.
    pub fn latest(&self) -> (r: Option<CommandAck>)
        ensures
            r == if self.updates@.len() > 0 {
                Some(self.updates@.last())
            } else {
                Option::<CommandAck>::None
            },
    {
        if self.updates.len() > 0 {
            Some(self.updates[self.updates.len() - 1])
        } else {
            None
        }
    }

    /// Whether the publisher is gone.
    pub fn is_closed(&self) -> (r: bool)
        ensures
            r == self.closed,
    {
        self.closed
    }
}

/// Once an observer has drained a closed channel, every further
/// observation answers `Closed` and moves nothing: no update can be
/// observed past closure.
pub proof fn lemma_closed_channel_stays_closed(ch: AckChannel)
    requires
        ch.wf(),
        ch.closed,
        ch.read == ch.updates@.len(),
    ensures
        ch.read_step() == (ch, ChannelRead::Closed),
{
}

/// A command payload that can be issued and tracked over a connection.
pub trait Command: Sized {
    /// The wire message issuing this command.
    spec fn message_spec(&self) -> Message;

    /// The command identifier its acknowledgments correlate by.
    spec fn id_spec(&self) -> u16;

    fn to_message(&self) -> (m: Message)
        ensures
            m == self.message_spec(),
    ;

    fn command_id(&self) -> (i: u16)
        ensures
            i == self.id_spec(),
    ;

    /// Encodes the command and hands it to the transport.  No waiting and
    /// at-most-once: one transmission when the send path is up, a
    /// `WriteError` and no change otherwise.
    fn command(&self, connection: &mut MavlinkConnection) -> (r: Result<
        usize,
        MavlinkConnectionError,
    >)
        requires
            old(connection).wf(),
        ensures
            final(connection).wf(),
            old(connection).link_ok ==> {
                &&& r == Result::<usize, MavlinkConnectionError>::Ok(1usize)
                &&& final(connection).sent@ == old(connection).sent@.push(self.message_spec())
                &&& *final(connection) == (MavlinkConnection {
                    sent: final(connection).sent,
                    ..*old(connection)
                })
            },
            !old(connection).link_ok ==> (r matches Result::Err(
                MavlinkConnectionError::WriteError(_),
            )) && *final(connection) == *old(connection),
    ;

    /// Arms a monitor for acknowledgments correlated to this command, then
    /// sends the command, and hands back the observation channel of the
    /// monitor's whole transcript: zero or more `InProgress` updates in
    /// arrival order, one terminal update if one arrived, closed unless
    /// the watch (given no deadline) outlived the recorded stream.
    fn command_monitor(&self, connection: &mut MavlinkConnection, timeout: Option<u64>) -> (ch:
        AckChannel)
        requires
            old(connection).wf(),
            old(connection).link_ok,
        ensures
            final(connection).wf(),
            ch.wf(),
            ({
                let run = monitor_run(
                    CommandAckPredicate { command: self.id_spec() },
                    old(connection).remaining(),
                    old(connection).policy,
                    old(connection).now,
                    timeout,
                );
                &&& ch.updates@ == acks_until_terminal(
                    old(connection).remaining(),
                    old(connection).policy,
                    old(connection).now,
                    timeout,
                    self.id_spec(),
                )
                &&& ch.read == 0
                &&& ch.closed == (run.status != MonitorStatus::Pending)
                &&& final(connection).pos == old(connection).pos + run.consumed
                &&& final(connection).now == clock_after_monitor(
                    old(connection).remaining(),
                    old(connection).now,
                    timeout,
                    run.status,
                    run.consumed,
                )
                &&& final(connection).sent@ == old(connection).sent@.push(self.message_spec())
                &&& *final(connection) == (MavlinkConnection {
                    pos: final(connection).pos,
                    now: final(connection).now,
                    sent: final(connection).sent,
                    ..*old(connection)
                })
            }),
    ;

    /// Attempts [`command_monitor`](Command::command_monitor) up to
    /// `retry_max` times sequentially, each attempt bounded by `timeout`
    /// microseconds.  The first attempt whose channel ends on an accepted
    /// terminal acknowledgment succeeds with that ack; any other terminal
    /// result or a timeout ends only its own attempt; `retry_max` attempts
    /// without acceptance fail with `RetriesExhausted`.
    fn command_retry(
        &self,
        connection: &mut MavlinkConnection,
        timeout: u64,
        retry_max: u8,
    ) -> (r: Result<Option<CommandAck>, MavlinkConnectionError>)
        requires
            old(connection).wf(),
            old(connection).link_ok,
        ensures
            final(connection).wf(),
            ({
                let rr = retry_run(
                    old(connection).inbound@,
                    old(connection).policy,
                    old(connection).pos as int,
                    old(connection).now,
                    self.message_spec(),
                    self.id_spec(),
                    timeout,
                    retry_max,
                );
                &&& final(connection).pos == rr.pos
                &&& final(connection).now == rr.now
                &&& final(connection).sent@ == old(connection).sent@ + rr.sent
                &&& *final(connection) == (MavlinkConnection {
                    pos: final(connection).pos,
                    now: final(connection).now,
                    sent: final(connection).sent,
                    ..*old(connection)
                })
                &&& r == rr.outcome
            }),
    ;
}

/// The footprint of a bounded retry loop: where the stream cursor and the
/// clock end up, what was transmitted, and the overall verdict.
pub struct RetryRun {
    pub pos: int,
    pub now: u64,
    pub sent: Seq<Message>,
    pub outcome: Result<Option<CommandAck>, MavlinkConnectionError>,
}

/// What attempting a command monitor up to `n` times does, attempt by
/// attempt: each attempt arms a deadline-bounded monitor, sends the
/// command, and succeeds exactly when its channel ends on an accepted
/// acknowledgment; otherwise the next attempt follows, until the cap falls
/// to `RetriesExhausted`.
pub open spec fn retry_run(
    inbound: Seq<TimedMessage>,
    policy: SenderPolicy,
    pos: int,
    now: u64,
    cmd_msg: Message,
    id: u16,
    timeout: u64,
    n: u8,
) -> RetryRun
    decreases n,
{
    if n == 0 {
        RetryRun {
            pos,
            now,
            sent: Seq::empty(),
            outcome: Err(MavlinkConnectionError::RetriesExhausted),
        }
    } else {
        let s = inbound.subrange(pos, inbound.len() as int);
        let run = monitor_run(CommandAckPredicate { command: id }, s, policy, now, Some(timeout));
        let ups = acks_until_terminal(s, policy, now, Some(timeout), id);
        let pos2 = pos + run.consumed;
        let now2 = clock_after_monitor(s, now, Some(timeout), run.status, run.consumed);
        if ups.len() > 0 && ups.last().result == MavResult::Accepted {
            RetryRun { pos: pos2, now: now2, sent: seq![cmd_msg], outcome: Ok(Some(ups.last())) }
        } else {
            let rest = retry_run(inbound, policy, pos2, now2, cmd_msg, id, timeout, (n - 1) as u8);
            RetryRun {
                pos: rest.pos,
                now: rest.now,
                sent: seq![cmd_msg] + rest.sent,
                outcome: rest.outcome,
            }
        }
    }
}

/// One attempt of a command monitor: arm the listener, send, hand back the
/// transcript as a channel.
fn run_command_monitor(
    connection: &mut MavlinkConnection,
    msg: &Message,
    id: u16,
    timeout: Option<u64>,
) -> (ch: AckChannel)
    requires
        old(connection).wf(),
        old(connection).link_ok,
    ensures
        final(connection).wf(),
        ch.wf(),
        ({
            let run = monitor_run(
                CommandAckPredicate { command: id },
                old(connection).remaining(),
                old(connection).policy,
                old(connection).now,
                timeout,
            );
            &&& ch.updates@ == acks_until_terminal(
                old(connection).remaining(),
                old(connection).policy,
                old(connection).now,
                timeout,
                id,
            )
            &&& ch.read == 0
            &&& ch.closed == (run.status != MonitorStatus::Pending)
            &&& final(connection).pos == old(connection).pos + run.consumed
            &&& final(connection).now == clock_after_monitor(
                old(connection).remaining(),
                old(connection).now,
                timeout,
                run.status,
                run.consumed,
            )
            &&& final(connection).sent@ == old(connection).sent@.push(*msg)
            &&& *final(connection) == (MavlinkConnection {
                pos: final(connection).pos,
                now: final(connection).now,
                sent: final(connection).sent,
                ..*old(connection)
            })
        }),
{
    proof {
        lemma_ack_updates(
            old(connection).remaining(),
            old(connection).policy,
            old(connection).now,
            timeout,
            id,
        );
    }
    let pred = CommandAckPredicate { command: id };
    let (updates, status) = connection.monitor(timeout, &pred);
    let _send_res = connection.send(msg);
    let closed = match status {
        MonitorStatus::Pending => false,
        _ => true,
    };
    AckChannel { updates, read: 0, closed }
}

/// The bounded retry loop behind [`Command::command_retry`].
fn run_command_retry(
    connection: &mut MavlinkConnection,
    msg: &Message,
    id: u16,
    timeout: u64,
    retry_max: u8,
) -> (r: Result<Option<CommandAck>, MavlinkConnectionError>)
    requires
        old(connection).wf(),
        old(connection).link_ok,
    ensures
        final(connection).wf(),
        ({
            let rr = retry_run(
                old(connection).inbound@,
                old(connection).policy,
                old(connection).pos as int,
                old(connection).now,
                *msg,
                id,
                timeout,
                retry_max,
            );
            &&& final(connection).pos == rr.pos
            &&& final(connection).now == rr.now
            &&& final(connection).sent@ == old(connection).sent@ + rr.sent
            &&& *final(connection) == (MavlinkConnection {
                pos: final(connection).pos,
                now: final(connection).now,
                sent: final(connection).sent,
                ..*old(connection)
            })
            &&& r == rr.outcome
        }),
    decreases retry_max,
{
    if retry_max == 0 {
        proof {
            assert(old(connection).sent@ + Seq::<Message>::empty() =~= old(connection).sent@);
        }
        return Err(MavlinkConnectionError::RetriesExhausted);
    }
    let ch = run_command_monitor(connection, msg, id, Some(timeout));
    let accepted = match ch.latest() {
        Some(ack) => ack.result == MavResult::Accepted,
        None => false,
    };
    if accepted {
        let r = ch.latest();
        return Ok(r);
    }
    let ghost mid = *connection;
    let r = run_command_retry(connection, msg, id, timeout, retry_max - 1);
    proof {
        let rr = retry_run(
            old(connection).inbound@,
            old(connection).policy,
            old(connection).pos as int,
            old(connection).now,
            *msg,
            id,
            timeout,
            retry_max,
        );
        let rest = retry_run(
            mid.inbound@,
            mid.policy,
            mid.pos as int,
            mid.now,
            *msg,
            id,
            timeout,
            (retry_max - 1) as u8,
        );
        assert(old(connection).sent@ + rr.sent =~= (old(connection).sent@.push(*msg))
            + rest.sent);
    }
    r
}

impl Command for CommandInt {
    open spec fn message_spec(&self) -> Message {
        Message::CommandInt(*self)
    }

    open spec fn id_spec(&self) -> u16 {
        self.command
    }

    fn to_message(&self) -> Message {
        Message::CommandInt(*self)
    }

    fn command_id(&self) -> u16 {
        self.command
    }

    fn command(&self, connection: &mut MavlinkConnection) -> Result<
        usize,
        MavlinkConnectionError,
    > {
        connection.send(&self.to_message())
    }

    fn command_monitor(&self, connection: &mut MavlinkConnection, timeout: Option<u64>)
        -> AckChannel {
        run_command_monitor(connection, &self.to_message(), self.command_id(), timeout)
    }

    fn command_retry(
        &self,
        connection: &mut MavlinkConnection,
        timeout: u64,
        retry_max: u8,
    ) -> Result<Option<CommandAck>, MavlinkConnectionError> {
        run_command_retry(connection, &self.to_message(), self.command_id(), timeout, retry_max)
    }
}

impl Command for CommandLong {
    open spec fn message_spec(&self) -> Message {
        Message::CommandLong(*self)
    }

    open spec fn id_spec(&self) -> u16 {
        self.command
    }

    fn to_message(&self) -> Message {
        Message::CommandLong(*self)
    }

    fn command_id(&self) -> u16 {
        self.command
    }

    fn command(&self, connection: &mut MavlinkConnection) -> Result<
        usize,
        MavlinkConnectionError,
    > {
        connection.send(&self.to_message())
    }

    fn command_monitor(&self, connection: &mut MavlinkConnection, timeout: Option<u64>)
        -> AckChannel {
        run_command_monitor(connection, &self.to_message(), self.command_id(), timeout)
    }

    fn command_retry(
        &self,
        connection: &mut MavlinkConnection,
        timeout: u64,
        retry_max: u8,
    ) -> Result<Option<CommandAck>, MavlinkConnectionError> {
        run_command_retry(connection, &self.to_message(), self.command_id(), timeout, retry_max)
    }
}

} // verus!
