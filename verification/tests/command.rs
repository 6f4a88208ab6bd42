use ardutils::command::{AckChannel, ChannelRead, Command};
use ardutils::connection::{MavlinkConnection, MavlinkConnectionError};
use ardutils::msg::{CommandAck, CommandInt, CommandLong, Header, MavResult, Message};

fn header() -> Header {
    Header { system_id: 1, component_id: 1 }
}

fn command_int_data() -> CommandInt {
    CommandInt { command: 0, target_system: 1, target_component: 1, x: 0, y: 0 }
}

fn command_long_data() -> CommandLong {
    CommandLong { command: 0, target_system: 1, target_component: 1, param1: 0, param2: 0 }
}

fn ack(result: MavResult) -> Message {
    Message::CommandAck(CommandAck { command: 0, result })
}

#[test]
fn command_int() {
    let mut connection = MavlinkConnection::new(1, 1);

    command_int_data().command(&mut connection).unwrap();

    assert!(matches!(
        connection.last_sent().unwrap(),
        Message::CommandInt(CommandInt { .. })
    ));
}

#[test]
fn command_long() {
    let mut connection = MavlinkConnection::new(1, 1);

    command_long_data().command(&mut connection).unwrap();

    assert!(matches!(
        connection.last_sent().unwrap(),
        Message::CommandLong(CommandLong { .. })
    ));
}

#[test]
fn monitor_int() {
    let mut connection = MavlinkConnection::new(1, 1);
    connection.inject(100, header(), ack(MavResult::Accepted));

    let mut rx = command_int_data().command_monitor(&mut connection, Some(1_000_000));

    assert!(matches!(
        rx.recv(),
        ChannelRead::Update(CommandAck { result: MavResult::Accepted, .. })
    ));
    assert!(matches!(rx.recv(), ChannelRead::Closed));
}

#[test]
fn monitor_long() {
    let mut connection = MavlinkConnection::new(1, 1);
    connection.inject(100, header(), ack(MavResult::Accepted));

    let mut rx = command_long_data().command_monitor(&mut connection, Some(1_000_000));

    assert!(matches!(
        rx.recv(),
        ChannelRead::Update(CommandAck { result: MavResult::Accepted, .. })
    ));
    assert!(matches!(rx.recv(), ChannelRead::Closed));
}

#[test]
fn monitor_int_failed() {
    let mut connection = MavlinkConnection::new(1, 1);
    connection.inject(100, header(), ack(MavResult::Failed));

    let mut rx = command_int_data().command_monitor(&mut connection, None);

    assert!(matches!(
        rx.recv(),
        ChannelRead::Update(CommandAck { result: MavResult::Failed, .. })
    ));
    // The publisher is gone: the monitor ended on the terminal ack.
    assert!(matches!(rx.recv(), ChannelRead::Closed));
}

#[test]
fn monitor_long_failed() {
    let mut connection = MavlinkConnection::new(1, 1);
    connection.inject(100, header(), ack(MavResult::Failed));

    let mut rx = command_long_data().command_monitor(&mut connection, None);

    assert!(matches!(
        rx.recv(),
        ChannelRead::Update(CommandAck { result: MavResult::Failed, .. })
    ));
    assert!(matches!(rx.recv(), ChannelRead::Closed));
}

#[test]
fn monitor_long_progress() {
    let mut connection = MavlinkConnection::new(1, 1);
    connection.inject(100, header(), ack(MavResult::InProgress));

    let mut rx = command_int_data().command_monitor(&mut connection, None);

    assert!(matches!(
        rx.recv(),
        ChannelRead::Update(CommandAck { result: MavResult::InProgress, .. })
    ));
    // The watch is still open: only a terminal ack ends it.
    assert!(matches!(rx.recv(), ChannelRead::NoUpdate));
    assert!(!rx.is_closed());

    let mut connection = MavlinkConnection::new(1, 1);
    connection.inject(100, header(), ack(MavResult::InProgress));
    connection.inject(200, header(), ack(MavResult::Accepted));

    let mut rx = command_int_data().command_monitor(&mut connection, None);

    assert!(matches!(
        rx.recv(),
        ChannelRead::Update(CommandAck { result: MavResult::InProgress, .. })
    ));
    assert!(matches!(
        rx.recv(),
        ChannelRead::Update(CommandAck { result: MavResult::Accepted, .. })
    ));
    assert!(matches!(rx.recv(), ChannelRead::Closed));
}

#[test]
fn scenario_command_int_accepted() {
    // Issue a Command-Int, inject an accepted ack: the observation becomes
    // that ack, then the channel closes.
    let mut connection = MavlinkConnection::new(1, 1);
    connection.inject(100, header(), ack(MavResult::Accepted));

    let mut rx = command_int_data().command_monitor(&mut connection, Some(1_000_000));

    assert_eq!(rx.latest(), Some(CommandAck { command: 0, result: MavResult::Accepted }));
    assert!(matches!(rx.recv(), ChannelRead::Update(_)));
    assert!(matches!(rx.recv(), ChannelRead::Closed));
    assert!(matches!(rx.recv(), ChannelRead::Closed));
}

#[test]
fn scenario_command_long_progress_then_accepted() {
    // Issue a Command-Long, inject an in-progress ack then an accepted one:
    // two ordered updates, and the channel closes only after the second.
    let mut connection = MavlinkConnection::new(1, 1);
    connection.inject(100, header(), ack(MavResult::InProgress));
    connection.inject(200, header(), ack(MavResult::Accepted));

    let mut rx = command_long_data().command_monitor(&mut connection, Some(1_000_000));

    assert_eq!(rx.updates.len(), 2);
    assert_eq!(rx.updates[0].result, MavResult::InProgress);
    assert_eq!(rx.updates[1].result, MavResult::Accepted);
    assert!(rx.is_closed());
}

#[test]
fn monitor_ignores_unrelated_acks() {
    // Acks carrying another command identifier are not correlated.
    let mut connection = MavlinkConnection::new(1, 1);
    connection.inject(100, header(), Message::CommandAck(CommandAck {
        command: 77,
        result: MavResult::Accepted,
    }));
    connection.inject(200, header(), ack(MavResult::Accepted));

    let rx = command_int_data().command_monitor(&mut connection, Some(1_000_000));

    assert_eq!(rx.updates.len(), 1);
    assert_eq!(rx.updates[0].command, 0);
}

#[test]
fn retry_exhausts_attempts() {
    let mut connection = MavlinkConnection::new(1, 1);

    let res = command_int_data().command_retry(&mut connection, 1000, 3);

    assert!(matches!(res, Err(MavlinkConnectionError::RetriesExhausted)));
}

#[test]
fn retry_zero_attempts() {
    let mut connection = MavlinkConnection::new(1, 1);
    connection.inject(100, header(), ack(MavResult::Accepted));

    let res = command_int_data().command_retry(&mut connection, 1000, 0);

    assert!(matches!(res, Err(MavlinkConnectionError::RetriesExhausted)));
}

#[test]
fn retry_succeeds_on_later_attempt() {
    // The accepted ack arrives after the first attempt's deadline; the
    // second attempt observes it.
    let mut connection = MavlinkConnection::new(1, 1);
    connection.inject(1500, header(), ack(MavResult::Accepted));

    let res = command_int_data().command_retry(&mut connection, 1000, 3);

    assert_eq!(res, Ok(Some(CommandAck { command: 0, result: MavResult::Accepted })));
    // Each attempt resent the command.
    assert_eq!(connection.sent.len(), 2);
}

#[test]
fn retry_denied_is_retried_uniformly() {
    // A denied terminal ack ends only its own attempt; a later accepted
    // ack still succeeds within the cap.
    let mut connection = MavlinkConnection::new(1, 1);
    connection.inject(100, header(), ack(MavResult::Denied));
    connection.inject(200, header(), ack(MavResult::Accepted));

    let res = command_int_data().command_retry(&mut connection, 1000, 2);

    assert_eq!(res, Ok(Some(CommandAck { command: 0, result: MavResult::Accepted })));
}

#[test]
fn drained_closed_channel_stays_closed() {
    let mut ch = AckChannel { updates: Vec::new(), read: 0, closed: true };
    assert!(matches!(ch.recv(), ChannelRead::Closed));
    assert!(matches!(ch.recv(), ChannelRead::Closed));
    assert_eq!(ch.latest(), None);
}
