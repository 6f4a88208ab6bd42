//! Mode change: request a custom mode, then wait for a heartbeat that
//! confirms the mode took effect.
//!
//! Heartbeats reporting any other mode are waited through, not treated as
//! errors, so the intermediate beats of a transition cannot abort the wait.

use vstd::prelude::*;

use crate::connection::{
    first_decision, lemma_filter_monitor, sender_ok, time_ordered, within_deadline, FilterRes,
    MavlinkConnection, MavlinkConnectionError, MessageFilter, SenderPolicy, TimedMessage,
};
use crate::msg::{CommandLong, Message};

verus! {

/// The dialect's command identifier for a mode-change request.
pub const MAV_CMD_DO_SET_MODE: u16 = 176;

/// The dialect's mode flag announcing that the custom-mode field is in use.
pub const MAV_MODE_FLAG_CUSTOM_MODE_ENABLED: u32 = 1;

/// How long a mode change waits for a confirming heartbeat, in
/// microseconds.
pub const MODE_CHANGE_TIMEOUT: u64 = 1000000;

/// Filter for the confirmation of a mode change: only a heartbeat whose
/// custom-mode field equals the requested mode decides the wait.
pub struct HeartbeatModeFilter {
    pub mode: u32,
}

impl MessageFilter for HeartbeatModeFilter {
    type Out = ();

    open spec fn decide_spec(&self, m: Message) -> FilterRes<()> {
        match m {
            Message::Heartbeat(beat) => if beat.custom_mode == self.mode {
                FilterRes::Ready(Some(()))
            } else {
                FilterRes::NotReady
            },
            _ => FilterRes::NotReady,
        }
    }

    fn decide(&self, m: &Message) -> (r: FilterRes<()>) {
        match m {
            Message::Heartbeat(beat) => {
                if beat.custom_mode == self.mode {
                    FilterRes::Ready(Some(()))
                } else {
                    FilterRes::NotReady
                }
            }
            _ => FilterRes::NotReady,
        }
    }
}

/// The wire message requesting custom mode `mode` from the given target.
pub open spec fn mode_change_message(mode: u32, target_system: u8, target_component: u8) -> Message {
    Message::CommandLong(
        CommandLong {
            command: MAV_CMD_DO_SET_MODE,
            target_system,
            target_component,
            param1: MAV_MODE_FLAG_CUSTOM_MODE_ENABLED,
            param2: mode,
        },
    )
}

/// Whether some validated heartbeat within the deadline confirms `mode`.
pub open spec fn mode_confirmed(
    mode: u32,
    s: Seq<TimedMessage>,
    policy: SenderPolicy,
    now: u64,
    t: u64,
) -> bool {
    exists|i: int|
        0 <= i < s.len() && within_deadline(#[trigger] s[i].time, now, Some(t)) && sender_ok(
            policy,
            s[i].header,
        ) && (s[i].msg matches Message::Heartbeat(beat) && beat.custom_mode == mode)
}

/// The heartbeat filter never rejects, and it decides exactly when some
/// validated heartbeat within the deadline reports the requested mode.
proof fn lemma_heartbeat_first_decision(
    mode: u32,
    s: Seq<TimedMessage>,
    policy: SenderPolicy,
    now: u64,
    t: u64,
)
    requires
        time_ordered(s),
    ensures
        ({
            let fd = first_decision(HeartbeatModeFilter { mode }, s, policy, now, t);
            &&& fd != Some(Option::<()>::None)
            &&& (fd == Some(Some(())) <==> mode_confirmed(mode, s, policy, now, t))
        }),
    decreases s.len(),
{
    let f = HeartbeatModeFilter { mode };
    if s.len() == 0 {
    } else {
        let m = s[0];
        let rest = s.drop_first();
        assert(time_ordered(rest)) by {
            assert forall|i: int, j: int| 0 <= i < j < rest.len() implies rest[i].time
                <= rest[j].time by {
                assert(rest[i] == s[i + 1]);
                assert(rest[j] == s[j + 1]);
            }
        }
        if !within_deadline(m.time, now, Some(t)) {
            assert forall|i: int| 0 <= i < s.len() implies !within_deadline(
                #[trigger] s[i].time,
                now,
                Some(t),
            ) by {
                assert(s[0].time <= s[i].time);
            }
        } else if !sender_ok(policy, m.header) || f.decide_spec(m.msg) is NotReady {
            lemma_heartbeat_first_decision(mode, rest, policy, now, t);
            if mode_confirmed(mode, rest, policy, now, t) {
                let i = choose|i: int|
                    0 <= i < rest.len() && within_deadline(#[trigger] rest[i].time, now, Some(t))
                        && sender_ok(policy, rest[i].header) && (rest[i].msg matches
                    Message::Heartbeat(beat) && beat.custom_mode == mode);
                assert(rest[i] == s[i + 1]);
                assert(within_deadline(s[i + 1].time, now, Some(t)));
            }
            if mode_confirmed(mode, s, policy, now, t) {
                let i = choose|i: int|
                    0 <= i < s.len() && within_deadline(#[trigger] s[i].time, now, Some(t))
                        && sender_ok(policy, s[i].header) && (s[i].msg matches Message::Heartbeat(
                        beat,
                    ) && beat.custom_mode == mode);
                assert(i > 0);
                assert(rest[i - 1] == s[i]);
                assert(mode_confirmed(mode, rest, policy, now, t));
            }
        } else {
            assert(mode_confirmed(mode, s, policy, now, t)) by {
                assert(within_deadline(s[0].time, now, Some(t)) && sender_ok(policy, s[0].header)
                    && (s[0].msg matches Message::Heartbeat(beat) && beat.custom_mode == mode));
            }
        }
    }
}

/// A value that names a custom operating mode the vehicle can be asked to
/// enter.
pub trait ChangeMode: Sized {
    /// The numeric custom-mode value requested.
    spec fn mode_value(&self) -> u32;

    fn value(&self) -> (v: u32)
        ensures
            v == self.mode_value(),
    ;

    /// Sends a mode-change command for this mode, then waits up to
    /// [`MODE_CHANGE_TIMEOUT`] for a heartbeat confirming it.  Succeeds
    /// exactly when such a heartbeat arrives in time; times out otherwise;
    /// fails with `WriteError`, changing nothing, when the send path is
    /// down.
    fn change_mode(self, connection: &mut MavlinkConnection) -> (r: Result<
        (),
        MavlinkConnectionError,
    >)
        requires
            old(connection).wf(),
        ensures
            final(connection).wf(),
            !old(connection).link_ok ==> (r matches Result::Err(
                MavlinkConnectionError::WriteError(_),
            )) && *final(connection) == *old(connection),
            old(connection).link_ok ==> {
                &&& final(connection).sent@ == old(connection).sent@.push(
                    mode_change_message(
                        self.mode_value(),
                        old(connection).target_system,
                        old(connection).target_component,
                    ),
                )
                &&& *final(connection) == (MavlinkConnection {
                    pos: final(connection).pos,
                    now: final(connection).now,
                    sent: final(connection).sent,
                    ..*old(connection)
                })
                &&& (r == Result::<(), MavlinkConnectionError>::Ok(()) <==> mode_confirmed(
                    self.mode_value(),
                    old(connection).remaining(),
                    old(connection).policy,
                    old(connection).now,
                    MODE_CHANGE_TIMEOUT,
                ))
                &&& (r is Err ==> r == Result::<(), MavlinkConnectionError>::Err(
                    MavlinkConnectionError::Timeout,
                ))
            },
    ;
}

impl ChangeMode for u32 {
    open spec fn mode_value(&self) -> u32 {
        *self
    }

    fn value(&self) -> u32 {
        *self
    }

    fn change_mode(self, connection: &mut MavlinkConnection) -> Result<
        (),
        MavlinkConnectionError,
    > {
        let msg = Message::CommandLong(
            CommandLong {
                command: MAV_CMD_DO_SET_MODE,
                target_system: connection.target_system(),
                target_component: connection.target_component(),
                param1: MAV_MODE_FLAG_CUSTOM_MODE_ENABLED,
                param2: self,
            },
        );
        proof {
            lemma_heartbeat_first_decision(
                self,
                old(connection).remaining(),
                old(connection).policy,
                old(connection).now,
                MODE_CHANGE_TIMEOUT,
            );
            lemma_filter_monitor(
                HeartbeatModeFilter { mode: self },
                old(connection).remaining(),
                old(connection).policy,
                old(connection).now,
                MODE_CHANGE_TIMEOUT,
            );
        }
        let res = connection.send_wait(
            &msg,
            MODE_CHANGE_TIMEOUT,
            HeartbeatModeFilter { mode: self },
        );
        proof {
            if old(connection).link_ok {
                let fd = first_decision(
                    HeartbeatModeFilter { mode: self },
                    old(connection).remaining(),
                    old(connection).policy,
                    old(connection).now,
                    MODE_CHANGE_TIMEOUT,
                );
                assert(fd != Some(Option::<()>::None));
                assert(res is Ok ==> fd == Some(Some(())));
                assert(fd == Some(Some(())) <==> mode_confirmed(
                    self,
                    old(connection).remaining(),
                    old(connection).policy,
                    old(connection).now,
                    MODE_CHANGE_TIMEOUT,
                ));
            }
        }
        match res {
            Ok(_) => Ok(()),
            Err(e) => Err(e),
        }
    }
}

} // verus!
