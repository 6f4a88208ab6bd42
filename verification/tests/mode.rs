use ardutils::connection::{MavlinkConnection, MavlinkConnectionError};
use ardutils::mode::{ChangeMode, MAV_CMD_DO_SET_MODE, MAV_MODE_FLAG_CUSTOM_MODE_ENABLED};
use ardutils::msg::{CommandLong, Header, Heartbeat, Message};

fn header() -> Header {
    Header { system_id: 1, component_id: 1 }
}

fn heartbeat(mode: u32) -> Message {
    Message::Heartbeat(Heartbeat { custom_mode: mode })
}

#[test]
fn scenario_mode_change_ignores_other_modes() {
    // The remote side first reports a different mode, then the requested
    // one: the first heartbeat is waited through, the second confirms.
    let mut connection = MavlinkConnection::new(1, 1);
    connection.inject(100, header(), heartbeat(4));
    connection.inject(200, header(), heartbeat(9));

    let res = 9u32.change_mode(&mut connection);

    assert_eq!(res, Ok(()));
    assert_eq!(connection.now, 200);
}

#[test]
fn mode_change_sends_set_mode_command() {
    let mut connection = MavlinkConnection::new(3, 4);
    connection.inject(100, header(), heartbeat(9));

    9u32.change_mode(&mut connection).unwrap();

    assert_eq!(
        connection.last_sent(),
        Some(Message::CommandLong(CommandLong {
            command: MAV_CMD_DO_SET_MODE,
            target_system: 3,
            target_component: 4,
            param1: MAV_MODE_FLAG_CUSTOM_MODE_ENABLED,
            param2: 9,
        }))
    );
}

#[test]
fn mode_change_times_out_without_confirmation() {
    let mut connection = MavlinkConnection::new(1, 1);
    connection.inject(100, header(), heartbeat(4));

    let res = 9u32.change_mode(&mut connection);

    assert_eq!(res, Err(MavlinkConnectionError::Timeout));
}

#[test]
fn mode_change_write_error_when_link_down() {
    let mut connection = MavlinkConnection::new(1, 1);
    connection.set_link_ok(false);

    let res = 9u32.change_mode(&mut connection);

    assert!(matches!(res, Err(MavlinkConnectionError::WriteError(_))));
}
