use ardutils::connection::{MavlinkConnection, MavlinkConnectionError};
use ardutils::mission::{MissionUpload, MissionUploadError, Options};
use ardutils::msg::{
    Header, MavMissionResult, Message, MissionAck, MissionCount, MissionItem, MissionRequestInt,
};

fn header() -> Header {
    Header { system_id: 1, component_id: 1 }
}

fn options() -> Options {
    Options { mission_count_timeout: 1000, mission_item_timeout: 1000 }
}

fn items(n: u16) -> Vec<MissionItem> {
    let mut v = Vec::new();
    let mut i: u16 = 0;
    while i < n {
        v.push(MissionItem { seq: i, command: 16, x: i as i32, y: -(i as i32) });
        i += 1;
    }
    v
}

fn request(seq: u16) -> Message {
    Message::MissionRequestInt(MissionRequestInt { seq })
}

fn mission_ack(result: MavMissionResult) -> Message {
    Message::MissionAck(MissionAck { mavtype: result })
}

#[test]
fn scenario_three_item_upload() {
    // The remote side requests items 0, 1 and 2 in turn and then accepts
    // the mission: the upload reports all three items pushed.
    let mut connection = MavlinkConnection::new(1, 1);
    connection.inject(100, header(), request(0));
    connection.inject(200, header(), request(1));
    connection.inject(300, header(), request(2));
    connection.inject(400, header(), mission_ack(MavMissionResult::Accepted));

    let res = items(3).upload_mission(&mut connection, options());

    assert_eq!(res, Ok(3));
    // The count announcement and the three items were transmitted in order.
    assert_eq!(connection.sent.len(), 4);
    assert!(matches!(
        connection.sent[0],
        Message::MissionCount(MissionCount { count: 3, .. })
    ));
    assert!(matches!(connection.sent[1], Message::MissionItemInt(MissionItem { seq: 0, .. })));
    assert!(matches!(connection.sent[2], Message::MissionItemInt(MissionItem { seq: 1, .. })));
    assert!(matches!(connection.sent[3], Message::MissionItemInt(MissionItem { seq: 2, .. })));
}

#[test]
fn upload_retransmits_requested_item() {
    // A re-requested sequence number is served again.
    let mut connection = MavlinkConnection::new(1, 1);
    connection.inject(100, header(), request(0));
    connection.inject(200, header(), request(0));
    connection.inject(300, header(), request(1));
    connection.inject(400, header(), mission_ack(MavMissionResult::Accepted));

    let res = items(2).upload_mission(&mut connection, options());

    assert_eq!(res, Ok(2));
    assert_eq!(connection.sent.len(), 4);
}

#[test]
fn upload_count_timeout() {
    let mut connection = MavlinkConnection::new(1, 1);

    let res = items(2).upload_mission(&mut connection, options());

    assert!(matches!(
        res,
        Err(MissionUploadError::ConnectionError(MavlinkConnectionError::Timeout))
    ));
}

#[test]
fn upload_item_timeout() {
    let mut connection = MavlinkConnection::new(1, 1);
    connection.inject(100, header(), request(0));

    let res = items(2).upload_mission(&mut connection, options());

    assert!(matches!(
        res,
        Err(MissionUploadError::ConnectionError(MavlinkConnectionError::Timeout))
    ));
}

#[test]
fn upload_rejects_nonzero_first_request() {
    let mut connection = MavlinkConnection::new(1, 1);
    connection.inject(100, header(), request(5));

    let res = items(2).upload_mission(&mut connection, options());

    assert_eq!(res, Err(MissionUploadError::Other(String::from("Invalid Response"))));
}

#[test]
fn upload_rejects_request_past_end() {
    // Completion policy: a request at or past the end of the list is out
    // of protocol; success needs an accepted mission ack instead.
    let mut connection = MavlinkConnection::new(1, 1);
    connection.inject(100, header(), request(0));
    connection.inject(200, header(), request(2));

    let res = items(2).upload_mission(&mut connection, options());

    assert!(matches!(res, Err(MissionUploadError::Other(_))));
}

#[test]
fn upload_rejects_failed_mission_ack() {
    let mut connection = MavlinkConnection::new(1, 1);
    connection.inject(100, header(), request(0));
    connection.inject(200, header(), mission_ack(MavMissionResult::Error));

    let res = items(2).upload_mission(&mut connection, options());

    assert!(matches!(res, Err(MissionUploadError::Other(_))));
}

#[test]
fn upload_empty_list_has_nothing_to_serve() {
    // The first in-protocol reply asks for item 0, which an empty list
    // cannot serve: the upload fails rather than succeed unacknowledged.
    let mut connection = MavlinkConnection::new(1, 1);
    connection.inject(100, header(), request(0));

    let res = items(0).upload_mission(&mut connection, options());

    assert!(matches!(res, Err(MissionUploadError::Other(_))));
}

#[test]
fn upload_too_many_items() {
    let connection = &mut MavlinkConnection::new(1, 1);
    let many = items(0);
    let mut many = many;
    let mut i: usize = 0;
    while i < 65536 {
        many.push(MissionItem { seq: 0, command: 16, x: 0, y: 0 });
        i += 1;
    }

    let res = many.upload_mission(connection, options());

    assert_eq!(res, Err(MissionUploadError::TooManyItems(65536)));
    // Nothing was transmitted.
    assert_eq!(connection.sent.len(), 0);
}

#[test]
fn upload_write_error_when_link_down() {
    let mut connection = MavlinkConnection::new(1, 1);
    connection.set_link_ok(false);
    connection.inject(100, header(), request(0));

    let res = items(2).upload_mission(&mut connection, options());

    assert!(matches!(
        res,
        Err(MissionUploadError::ConnectionError(MavlinkConnectionError::WriteError(_)))
    ));
}

#[test]
fn upload_ignores_unrelated_messages() {
    // Heartbeats between the handshake's replies are waited through.
    let mut connection = MavlinkConnection::new(1, 1);
    connection.inject(50, header(), Message::Unrelated);
    connection.inject(100, header(), request(0));
    connection.inject(150, header(), Message::Unrelated);
    connection.inject(200, header(), mission_ack(MavMissionResult::Accepted));

    let res = items(1).upload_mission(&mut connection, options());

    assert_eq!(res, Ok(1));
}
