//! The message kinds this client consumes, modelled as plain values.
//!
//! The wire dialect owns the full message catalog and its encoding; the
//! client only names the handful of kinds below and only the fields its
//! logic reads or sets, so each payload here holds exactly those fields.

use vstd::prelude::*;

verus! {

/// Sender identity accompanying each received message.
#[derive(Clone, Copy, PartialEq, Eq, Structural, Debug)]
pub struct Header {
    pub system_id: u8,
    pub component_id: u8,
}

/// Result code carried by a command acknowledgment.  Every value but
/// `InProgress` is terminal.
#[derive(Clone, Copy, PartialEq, Eq, Structural, Debug)]
pub enum MavResult {
    Accepted,
    TemporarilyRejected,
    Denied,
    Unsupported,
    Failed,
    InProgress,
    Cancelled,
}

impl MavResult {
    /// Whether this result ends a command's acknowledgment lifecycle.
    pub open spec fn is_terminal(self) -> bool {
        self != MavResult::InProgress
    }
}

/// Result code carried by a mission acknowledgment.
#[derive(Clone, Copy, PartialEq, Eq, Structural, Debug)]
pub enum MavMissionResult {
    Accepted,
    Error,
    Unsupported,
    InvalidSequence,
    Denied,
}

/// Periodic status message from the remote side.
#[derive(Clone, Copy, PartialEq, Eq, Structural, Debug)]
pub struct Heartbeat {
    pub custom_mode: u32,
}

/// A command with integer location payload.
#[derive(Clone, Copy, PartialEq, Eq, Structural, Debug)]
pub struct CommandInt {
    pub command: u16,
    pub target_system: u8,
    pub target_component: u8,
    pub x: i32,
    pub y: i32,
}

/// A command with scalar parameters.
#[derive(Clone, Copy, PartialEq, Eq, Structural, Debug)]
pub struct CommandLong {
    pub command: u16,
    pub target_system: u8,
    pub target_component: u8,
    pub param1: u32,
    pub param2: u32,
}

/// Reply confirming or rejecting a previously issued command.
#[derive(Clone, Copy, PartialEq, Eq, Structural, Debug)]
pub struct CommandAck {
    pub command: u16,
    pub result: MavResult,
}

/// Announces how many mission items an upload will push.
#[derive(Clone, Copy, PartialEq, Eq, Structural, Debug)]
pub struct MissionCount {
    pub count: u16,
    pub target_system: u8,
    pub target_component: u8,
}

/// The remote side's request for one mission item by sequence number.
#[derive(Clone, Copy, PartialEq, Eq, Structural, Debug)]
pub struct MissionRequestInt {
    pub seq: u16,
}

/// One waypoint of an ordered mission sequence.
#[derive(Clone, Copy, PartialEq, Eq, Structural, Debug)]
pub struct MissionItem {
    pub seq: u16,
    pub command: u16,
    pub x: i32,
    pub y: i32,
}

/// Terminal reply confirming or rejecting a mission upload.
#[derive(Clone, Copy, PartialEq, Eq, Structural, Debug)]
pub struct MissionAck {
    pub mavtype: MavMissionResult,
}

/// The closed set of message kinds the client reads or writes.  Everything
/// else in the dialect's catalog arrives as `Unrelated` and is ignored.
#[derive(Clone, Copy, PartialEq, Eq, Structural, Debug)]
pub enum Message {
    Heartbeat(Heartbeat),
    CommandInt(CommandInt),
    CommandLong(CommandLong),
    CommandAck(CommandAck),
    MissionCount(MissionCount),
    MissionRequestInt(MissionRequestInt),
    MissionItemInt(MissionItem),
    MissionAck(MissionAck),
    Unrelated,
}

} // verus!
