//! Mission upload: a sequence-numbered handshake pushing an ordered list
//! of items to the remote side.
//!
//! The upload announces the item count, waits for the remote side to
//! request item 0, then answers each request with the item it names, until
//! a mission acknowledgment ends the exchange.  Completion policy: success
//! is declared only on an observed `Accepted` mission acknowledgment; a
//! request for a sequence number at or past the end of the list — where a
//! remote side has nothing left to ask for — is a protocol violation and
//! fails the upload with an invalid-response error, as does any other
//! out-of-protocol reply.

use vstd::prelude::*;

use crate::connection::{
    clock_after_monitor, first_decision, lemma_filter_monitor, lemma_monitor_consumed_bounds,
    monitor_run, sender_ok, within_deadline, FilterPredicate, FilterRes, MavlinkConnection,
    MavlinkConnectionError, MessageFilter, SenderPolicy, TimedMessage,
};
use crate::msg::{MavMissionResult, Message, MissionCount, MissionItem};

verus! {

/// Timeouts of the upload handshake, in microseconds: one bound on the
/// wait for the first item request, one on the wait after each item.
#[derive(Clone, Copy, PartialEq, Eq, Structural, Debug)]
pub struct Options {
    pub mission_count_timeout: u64,
    pub mission_item_timeout: u64,
}

/// Errors of a mission upload.
#[derive(Clone, PartialEq, Debug)]
pub enum MissionUploadError {
    /// The list holds more items than a count message can announce.
    TooManyItems(usize),
    /// An out-of-protocol reply, with its description.
    Other(String),
    /// A connection-level failure: a timeout or a transport error.
    ConnectionError(MavlinkConnectionError),
}

/// What the remote side answers after one uploaded item: a request for the
/// next item it wants, or acceptance of the whole mission.
#[derive(Clone, Copy, PartialEq, Eq, Structural, Debug)]
pub enum MissionProgress {
    Request(u16),
    Completed,
}

/// Filter for the reply to the count announcement: only a request for item
/// 0 is in protocol; a request for any other item is rejected; everything
/// else is waited through.
pub struct MissionFirstRequestFilter;

impl MessageFilter for MissionFirstRequestFilter {
    type Out = u16;

    open spec fn decide_spec(&self, m: Message) -> FilterRes<u16> {
        match m {
            Message::MissionRequestInt(req) => if req.seq == 0 {
                FilterRes::Ready(Some(req.seq))
            } else {
                FilterRes::Ready(Option::<u16>::None)
            },
            _ => FilterRes::NotReady,
        }
    }

    fn decide(&self, m: &Message) -> (r: FilterRes<u16>) {
        match m {
            Message::MissionRequestInt(req) => {
                if req.seq == 0 {
                    FilterRes::Ready(Some(req.seq))
                } else {
                    FilterRes::Ready(None)
                }
            }
            _ => FilterRes::NotReady,
        }
    }
}

/// Filter for the reply to one uploaded item: a further item request
/// advances the handshake, an accepted mission acknowledgment completes
/// it, any other mission acknowledgment is rejected, and everything else
/// is waited through.
pub struct MissionProgressFilter;

impl MessageFilter for MissionProgressFilter {
    type Out = MissionProgress;

    open spec fn decide_spec(&self, m: Message) -> FilterRes<MissionProgress> {
        match m {
            Message::MissionRequestInt(req) => FilterRes::Ready(
                Some(MissionProgress::Request(req.seq)),
            ),
            Message::MissionAck(ack) => if ack.mavtype == MavMissionResult::Accepted {
                FilterRes::Ready(Some(MissionProgress::Completed))
            } else {
                FilterRes::Ready(Option::<MissionProgress>::None)
            },
            _ => FilterRes::NotReady,
        }
    }

    fn decide(&self, m: &Message) -> (r: FilterRes<MissionProgress>) {
        match m {
            Message::MissionRequestInt(req) => FilterRes::Ready(
                Some(MissionProgress::Request(req.seq)),
            ),
            Message::MissionAck(ack) => {
                if ack.mavtype == MavMissionResult::Accepted {
                    FilterRes::Ready(Some(MissionProgress::Completed))
                } else {
                    FilterRes::Ready(None)
                }
            }
            _ => FilterRes::NotReady,
        }
    }
}

/// The handshake's verdict, by kind.
pub enum UploadVerdict {
    /// Every item was pushed and the remote side accepted the mission.
    Uploaded(u16),
    /// The list was too long to announce.
    TooManyItems,
    /// An out-of-protocol reply ended the handshake.
    InvalidResponse,
    /// A deadline of the handshake elapsed.
    ConnTimeout,
    /// The transport's send path was down.
    ConnWriteError,
}

/// The footprint of an upload: where the stream cursor and the clock end
/// up, what was transmitted, and the verdict.
pub struct UploadRun {
    pub pos: int,
    pub now: u64,
    pub sent: Seq<Message>,
    pub verdict: UploadVerdict,
}

/// The view of the description every invalid-response error carries.
pub open spec fn invalid_response_view() -> Seq<char> {
    "Invalid Response"@
}

/// What the item loop does from expected sequence number `seq_i`: upload
/// the item the remote side asked for, then follow its reply — a further
/// request recurses, acceptance completes with the announced count, and
/// anything else (a rejected mission, an out-of-range request, a deadline)
/// fails.
pub open spec fn upload_loop_run(
    inbound: Seq<TimedMessage>,
    policy: SenderPolicy,
    pos: int,
    now: u64,
    items: Seq<MissionItem>,
    item_timeout: u64,
    count: u16,
    seq_i: u16,
) -> UploadRun
    decreases inbound.len() - pos,
        when 0 <= pos <= inbound.len()
        via upload_loop_run_decreases
{
    let s = inbound.subrange(pos, inbound.len() as int);
    let f = MissionProgressFilter;
    let run = monitor_run(FilterPredicate { filter: f }, s, policy, now, Some(item_timeout));
    let pos2 = pos + run.consumed;
    let now2 = clock_after_monitor(s, now, Some(item_timeout), run.status, run.consumed);
    let sent1 = seq![Message::MissionItemInt(items[seq_i as int])];
    match first_decision(f, s, policy, now, item_timeout) {
        Option::None => UploadRun {
            pos: pos2,
            now: now2,
            sent: sent1,
            verdict: UploadVerdict::ConnTimeout,
        },
        Option::Some(Option::None) => UploadRun {
            pos: pos2,
            now: now2,
            sent: sent1,
            verdict: UploadVerdict::InvalidResponse,
        },
        Option::Some(Option::Some(MissionProgress::Completed)) => UploadRun {
            pos: pos2,
            now: now2,
            sent: sent1,
            verdict: UploadVerdict::Uploaded(count),
        },
        Option::Some(Option::Some(MissionProgress::Request(next))) => if next < count {
            let rest = upload_loop_run(
                inbound,
                policy,
                pos2,
                now2,
                items,
                item_timeout,
                count,
                next,
            );
            UploadRun {
                pos: rest.pos,
                now: rest.now,
                sent: sent1 + rest.sent,
                verdict: rest.verdict,
            }
        } else {
            UploadRun {
                pos: pos2,
                now: now2,
                sent: sent1,
                verdict: UploadVerdict::InvalidResponse,
            }
        },
    }
}

#[via_fn]
proof fn upload_loop_run_decreases(
    inbound: Seq<TimedMessage>,
    policy: SenderPolicy,
    pos: int,
    now: u64,
    items: Seq<MissionItem>,
    item_timeout: u64,
    count: u16,
    seq_i: u16,
) {
    let s = inbound.subrange(pos, inbound.len() as int);
    let f = MissionProgressFilter;
    lemma_filter_monitor(f, s, policy, now, item_timeout);
    lemma_monitor_consumed_bounds(
        FilterPredicate { filter: f },
        s,
        policy,
        now,
        Some(item_timeout),
    );
}

/// What uploading `items` over `conn` does, whole: announce the count,
/// wait for the request of item 0, then run the item loop.
pub open spec fn upload_run(
    conn: MavlinkConnection,
    items: Seq<MissionItem>,
    options: Options,
) -> UploadRun {
    if items.len() > u16::MAX {
        UploadRun {
            pos: conn.pos as int,
            now: conn.now,
            sent: Seq::empty(),
            verdict: UploadVerdict::TooManyItems,
        }
    } else if !conn.link_ok {
        UploadRun {
            pos: conn.pos as int,
            now: conn.now,
            sent: Seq::empty(),
            verdict: UploadVerdict::ConnWriteError,
        }
    } else {
        let count = items.len() as u16;
        let cmsg = Message::MissionCount(
            MissionCount {
                count,
                target_system: conn.target_system,
                target_component: conn.target_component,
            },
        );
        let s = conn.remaining();
        let f = MissionFirstRequestFilter;
        let run = monitor_run(
            FilterPredicate { filter: f },
            s,
            conn.policy,
            conn.now,
            Some(options.mission_count_timeout),
        );
        let pos1 = conn.pos + run.consumed;
        let now1 = clock_after_monitor(
            s,
            conn.now,
            Some(options.mission_count_timeout),
            run.status,
            run.consumed,
        );
        match first_decision(f, s, conn.policy, conn.now, options.mission_count_timeout) {
            Option::None => UploadRun {
                pos: pos1,
                now: now1,
                sent: seq![cmsg],
                verdict: UploadVerdict::ConnTimeout,
            },
            Option::Some(Option::None) => UploadRun {
                pos: pos1,
                now: now1,
                sent: seq![cmsg],
                verdict: UploadVerdict::InvalidResponse,
            },
            Option::Some(Option::Some(_first)) => if count == 0 {
                // The only in-protocol first request names item 0, which an
                // empty list cannot serve: out of protocol.
                UploadRun {
                    pos: pos1,
                    now: now1,
                    sent: seq![cmsg],
                    verdict: UploadVerdict::InvalidResponse,
                }
            } else {
                let rest = upload_loop_run(
                    conn.inbound@,
                    conn.policy,
                    pos1,
                    now1,
                    items,
                    options.mission_item_timeout,
                    count,
                    0,
                );
                UploadRun {
                    pos: rest.pos,
                    now: rest.now,
                    sent: seq![cmsg] + rest.sent,
                    verdict: rest.verdict,
                }
            },
        }
    }
}

/// The only payload the first-request filter ever captures is sequence
/// number 0.
proof fn lemma_first_request_zero(s: Seq<TimedMessage>, policy: SenderPolicy, now: u64, t: u64)
    ensures
        (match first_decision(MissionFirstRequestFilter, s, policy, now, t) {
            Option::Some(Option::Some(x)) => x == 0,
            _ => true,
        }),
    decreases s.len(),
{
    if s.len() == 0 {
    } else {
        let m = s[0];
        if !within_deadline(m.time, now, Some(t)) {
        } else if !sender_ok(policy, m.header) {
            lemma_first_request_zero(s.drop_first(), policy, now, t);
        } else {
            let f = MissionFirstRequestFilter;
            match f.decide_spec(m.msg) {
                FilterRes::Ready(_) => {}
                FilterRes::NotReady => {
                    lemma_first_request_zero(s.drop_first(), policy, now, t);
                }
            }
        }
    }
}

/// The description every invalid-response error carries.
fn invalid_response_text() -> (s: String)
    ensures
        s@ == invalid_response_view(),
{
    String::from_str("Invalid Response")
}

/// An ordered list of mission items that can be pushed to the remote side.
pub trait MissionUpload: Sized {
    spec fn items_spec(&self) -> Seq<MissionItem>;

    /// Drives the upload handshake.  Returns the number of items uploaded
    /// (`Ok(count)`) exactly when the remote side requested item 0, then
    /// further items as [`upload_loop_run`] follows them, and finally
    /// accepted the mission; otherwise the verdict of [`upload_run`] maps
    /// to `TooManyItems`, an invalid-response error, or the connection
    /// error that ended the handshake.
    fn upload_mission(self, connection: &mut MavlinkConnection, options: Options) -> (r: Result<
        u16,
        MissionUploadError,
    >)
        requires
            old(connection).wf(),
        ensures
            final(connection).wf(),
            ({
                let ur = upload_run(*old(connection), self.items_spec(), options);
                &&& final(connection).pos == ur.pos
                &&& final(connection).now == ur.now
                &&& final(connection).sent@ == old(connection).sent@ + ur.sent
                &&& *final(connection) == (MavlinkConnection {
                    pos: final(connection).pos,
                    now: final(connection).now,
                    sent: final(connection).sent,
                    ..*old(connection)
                })
                &&& match ur.verdict {
                    UploadVerdict::Uploaded(n) => r == Result::<u16, MissionUploadError>::Ok(n),
                    UploadVerdict::TooManyItems => r == Result::<u16, MissionUploadError>::Err(
                        MissionUploadError::TooManyItems(self.items_spec().len() as usize),
                    ),
                    UploadVerdict::InvalidResponse => r matches Result::Err(
                        MissionUploadError::Other(d),
                    ) && d@ == invalid_response_view(),
                    UploadVerdict::ConnTimeout => r == Result::<u16, MissionUploadError>::Err(
                        MissionUploadError::ConnectionError(MavlinkConnectionError::Timeout),
                    ),
                    UploadVerdict::ConnWriteError => r matches Result::Err(
                        MissionUploadError::ConnectionError(
                            MavlinkConnectionError::WriteError(_),
                        ),
                    ),
                }
            }),
    ;
}

/// The item loop: answer each request with the item it names until the
/// mission is acknowledged.
fn upload_items(
    connection: &mut MavlinkConnection,
    items: &Vec<MissionItem>,
    item_timeout: u64,
    count: u16,
    seq_i: u16,
) -> (r: Result<u16, MissionUploadError>)
    requires
        old(connection).wf(),
        old(connection).link_ok,
        items@.len() == count,
        seq_i < count,
    ensures
        final(connection).wf(),
        ({
            let ur = upload_loop_run(
                old(connection).inbound@,
                old(connection).policy,
                old(connection).pos as int,
                old(connection).now,
                items@,
                item_timeout,
                count,
                seq_i,
            );
            &&& final(connection).pos == ur.pos
            &&& final(connection).now == ur.now
            &&& final(connection).sent@ == old(connection).sent@ + ur.sent
            &&& *final(connection) == (MavlinkConnection {
                pos: final(connection).pos,
                now: final(connection).now,
                sent: final(connection).sent,
                ..*old(connection)
            })
            &&& match ur.verdict {
                UploadVerdict::Uploaded(n) => r == Result::<u16, MissionUploadError>::Ok(n),
                UploadVerdict::InvalidResponse => r matches Result::Err(
                    MissionUploadError::Other(d),
                ) && d@ == invalid_response_view(),
                UploadVerdict::ConnTimeout => r == Result::<u16, MissionUploadError>::Err(
                    MissionUploadError::ConnectionError(MavlinkConnectionError::Timeout),
                ),
                _ => false,
            }
        }),
    decreases old(connection).inbound@.len() - old(connection).pos,
{
    let item = items[seq_i as usize];
    let msg = Message::MissionItemInt(item);
    let res = connection.send_wait(&msg, item_timeout, MissionProgressFilter);
    proof {
        lemma_filter_monitor(
            MissionProgressFilter,
            old(connection).remaining(),
            old(connection).policy,
            old(connection).now,
            item_timeout,
        );
        lemma_monitor_consumed_bounds(
            FilterPredicate { filter: MissionProgressFilter },
            old(connection).remaining(),
            old(connection).policy,
            old(connection).now,
            Some(item_timeout),
        );
        assert(old(connection).sent@.push(msg) =~= old(connection).sent@ + seq![msg]);
    }
    match res {
        Err(e) => Err(MissionUploadError::ConnectionError(e)),
        Ok(None) => Err(MissionUploadError::Other(invalid_response_text())),
        Ok(Some(MissionProgress::Completed)) => Ok(count),
        Ok(Some(MissionProgress::Request(next))) => {
            if next < count {
                let ghost mid = *connection;
                let r = upload_items(connection, items, item_timeout, count, next);
                proof {
                    let ur = upload_loop_run(
                        old(connection).inbound@,
                        old(connection).policy,
                        old(connection).pos as int,
                        old(connection).now,
                        items@,
                        item_timeout,
                        count,
                        seq_i,
                    );
                    let rest = upload_loop_run(
                        mid.inbound@,
                        mid.policy,
                        mid.pos as int,
                        mid.now,
                        items@,
                        item_timeout,
                        count,
                        next,
                    );
                    assert(old(connection).sent@ + ur.sent =~= (old(connection).sent@.push(msg))
                        + rest.sent);
                }
                r
            } else {
                // The remote side asked for an item past the end of the
                // list: out of protocol.
                Err(MissionUploadError::Other(invalid_response_text()))
            }
        }
    }
}

impl MissionUpload for Vec<MissionItem> {
    open spec fn items_spec(&self) -> Seq<MissionItem> {
        self@
    }

    fn upload_mission(self, connection: &mut MavlinkConnection, options: Options) -> Result<
        u16,
        MissionUploadError,
    > {
        if self.len() > u16::MAX as usize {
            proof {
                assert(old(connection).sent@ + Seq::<Message>::empty() =~= old(
                    connection,
                ).sent@);
            }
            return Err(MissionUploadError::TooManyItems(self.len()));
        }
        let count: u16 = self.len() as u16;
        let cmsg = Message::MissionCount(
            MissionCount {
                count,
                target_system: connection.target_system(),
                target_component: connection.target_component(),
            },
        );
        proof {
            lemma_first_request_zero(
                old(connection).remaining(),
                old(connection).policy,
                old(connection).now,
                options.mission_count_timeout,
            );
            if !old(connection).link_ok {
                assert(old(connection).sent@ + Seq::<Message>::empty() =~= old(
                    connection,
                ).sent@);
            }
        }
        let res = connection.send_wait(
            &cmsg,
            options.mission_count_timeout,
            MissionFirstRequestFilter,
        );
        proof {
            assert(old(connection).sent@.push(cmsg) =~= old(connection).sent@ + seq![cmsg]);
        }
        match res {
            Err(e) => Err(MissionUploadError::ConnectionError(e)),
            Ok(None) => Err(MissionUploadError::Other(invalid_response_text())),
            Ok(Some(first)) => {
                if count == 0 {
                    Err(MissionUploadError::Other(invalid_response_text()))
                } else {
                    let ghost mid = *connection;
                    let r = upload_items(
                        connection,
                        &self,
                        options.mission_item_timeout,
                        count,
                        first,
                    );
                    proof {
                        let ur = upload_run(*old(connection), self@, options);
                        let rest = upload_loop_run(
                            mid.inbound@,
                            mid.policy,
                            mid.pos as int,
                            mid.now,
                            self@,
                            options.mission_item_timeout,
                            count,
                            0,
                        );
                        assert(old(connection).sent@ + ur.sent =~= (old(
                            connection,
                        ).sent@.push(cmsg)) + rest.sent);
                    }
                    r
                }
            }
        }
    }
}

} // verus!
