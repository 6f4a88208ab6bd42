use ardutils::connection::{
    FilterPredicate, MavlinkConnection, MavlinkConnectionError, MonitorStatus, NeverReady,
    ReadyOnAny, RejectOnAny,
};
use ardutils::mode::HeartbeatModeFilter;
use ardutils::msg::{Header, Heartbeat, Message, MissionItem};

fn header() -> Header {
    Header { system_id: 1, component_id: 1 }
}

fn heartbeat(mode: u32) -> Message {
    Message::Heartbeat(Heartbeat { custom_mode: mode })
}

fn item_msg() -> Message {
    Message::MissionItemInt(MissionItem { seq: 0, command: 0, x: 0, y: 0 })
}

#[test]
fn timeout() {
    let mut connection = MavlinkConnection::new(1, 1);
    connection.inject(100, header(), heartbeat(0));
    connection.inject(2000, header(), heartbeat(0));

    let res = connection.send_wait(&item_msg(), 1000, NeverReady);

    assert!(matches!(res, Err(MavlinkConnectionError::Timeout)));
}

#[test]
fn valid() {
    let mut connection = MavlinkConnection::new(1, 1);
    connection.inject(100, header(), heartbeat(0));

    let res = connection.send_wait(&item_msg(), 1000, ReadyOnAny);

    assert!(matches!(res, Ok(Some(()))));
}

#[test]
fn invalid() {
    let mut connection = MavlinkConnection::new(1, 1);
    connection.inject(100, header(), heartbeat(0));

    let res = connection.send_wait(&item_msg(), 1000, RejectOnAny);

    assert!(matches!(res, Ok(None)));
}

#[test]
fn wait_for_msg() {
    let mut connection = MavlinkConnection::new(1, 1);
    connection.inject(100, header(), item_msg());
    connection.inject(200, header(), heartbeat(7));

    let res = connection.send_wait(&item_msg(), 5_000_000, HeartbeatModeFilter { mode: 7 });

    assert!(matches!(res, Ok(Some(()))));
}

#[test]
fn scenario_deadline_with_no_reply() {
    // A one-millisecond deadline and nothing on the stream: the wait ends
    // with a timeout, the clock exactly at the deadline.
    let mut connection = MavlinkConnection::new(1, 1);

    let res = connection.send_wait(&item_msg(), 1000, ReadyOnAny);

    assert!(matches!(res, Err(MavlinkConnectionError::Timeout)));
    assert_eq!(connection.now, 1000);
}

#[test]
fn monitor_timeout() {
    let mut connection = MavlinkConnection::new(1, 1);
    connection.inject(100, header(), heartbeat(0));
    connection.inject(5000, header(), heartbeat(0));

    let (updates, status) = connection.monitor(Some(1000), &FilterPredicate { filter: NeverReady });

    assert!(updates.is_empty());
    assert!(matches!(status, MonitorStatus::TimedOut));
}

#[test]
fn monitor_no_timeout() {
    let mut connection = MavlinkConnection::new(1, 1);
    connection.inject(100, header(), item_msg());
    connection.inject(200, header(), heartbeat(0));

    let (updates, status) = connection.monitor(
        None,
        &FilterPredicate { filter: HeartbeatModeFilter { mode: 0 } },
    );

    assert!(matches!(status, MonitorStatus::Done));
    assert_eq!(updates.len(), 1);
}

#[test]
fn monitor_pending_without_deadline() {
    let mut connection = MavlinkConnection::new(1, 1);
    connection.inject(100, header(), heartbeat(3));

    let (updates, status) = connection.monitor(
        None,
        &FilterPredicate { filter: HeartbeatModeFilter { mode: 9 } },
    );

    assert!(updates.is_empty());
    assert!(matches!(status, MonitorStatus::Pending));
}

#[test]
fn monitor_deadline_decides_exactly_one_way() {
    // With a deadline the outcome is exactly one of Done and TimedOut.
    let mut connection = MavlinkConnection::new(1, 1);
    connection.inject(100, header(), heartbeat(4));
    let (_, status) = connection.monitor(
        Some(1000),
        &FilterPredicate { filter: HeartbeatModeFilter { mode: 4 } },
    );
    assert!(matches!(status, MonitorStatus::Done));

    let mut silent = MavlinkConnection::new(1, 1);
    let (_, status) = silent.monitor(
        Some(1000),
        &FilterPredicate { filter: HeartbeatModeFilter { mode: 4 } },
    );
    assert!(matches!(status, MonitorStatus::TimedOut));
}

#[test]
fn monitor_leaves_stream_for_other_listeners() {
    // A monitor consumes time, not messages: the record is untouched.
    let mut connection = MavlinkConnection::new(1, 1);
    connection.inject(100, header(), heartbeat(4));
    let before = connection.inbound.len();
    let (_, _) = connection.monitor(
        Some(1000),
        &FilterPredicate { filter: HeartbeatModeFilter { mode: 4 } },
    );
    assert_eq!(connection.inbound.len(), before);
}

#[test]
fn send_logs_transmission() {
    let mut connection = MavlinkConnection::new(1, 1);
    let res = connection.send(&heartbeat(0));
    assert!(matches!(res, Ok(1)));
    assert_eq!(connection.last_sent(), Some(heartbeat(0)));
}

#[test]
fn send_fails_when_link_down() {
    let mut connection = MavlinkConnection::new(1, 1);
    connection.set_link_ok(false);
    let res = connection.send(&heartbeat(0));
    assert!(matches!(res, Err(MavlinkConnectionError::WriteError(_))));
    assert_eq!(connection.last_sent(), None);
}

#[test]
fn send_wait_fails_when_link_down() {
    let mut connection = MavlinkConnection::new(1, 1);
    connection.set_link_ok(false);
    connection.inject(100, header(), heartbeat(0));
    let res = connection.send_wait(&item_msg(), 1000, ReadyOnAny);
    assert!(matches!(res, Err(MavlinkConnectionError::WriteError(_))));
}

#[test]
fn sender_policy_filters_headers() {
    let mut connection = MavlinkConnection::new(1, 1);
    connection.restrict_sender(Header { system_id: 9, component_id: 9 });
    // A matching heartbeat from the wrong sender is never handed to the
    // filter; the one from the right sender decides the wait.
    connection.inject(100, Header { system_id: 2, component_id: 2 }, heartbeat(5));
    connection.inject(200, Header { system_id: 9, component_id: 9 }, heartbeat(5));

    let mut probe = connection.clone();
    let (updates, status) = probe.monitor(
        Some(1000),
        &FilterPredicate { filter: HeartbeatModeFilter { mode: 5 } },
    );
    assert!(matches!(status, MonitorStatus::Done));
    assert_eq!(updates.len(), 1);
    assert_eq!(probe.now, 200);
}

#[test]
fn read_error_text_passes_through() {
    let err = MavlinkConnectionError::ReadError(String::from("bad frame"));
    assert_eq!(err, MavlinkConnectionError::ReadError(String::from("bad frame")));
    assert_ne!(err, MavlinkConnectionError::Timeout);
}
