use spacemouse_proxy::conditioner::AxisTarget;
use spacemouse_proxy::device::{
    connexion_message, decode_command, is_device_state, kConnexionClientManual, kConnexionClientModePlugin,
    kConnexionClientModeTakeOver, kConnexionClientWildcard, kConnexionCmdHandleAxis,
    kConnexionCmdHandleButtons, kConnexionCmdHandleRawData, kConnexionCtlActivateClient,
    kConnexionCtlDeactivateClient, kConnexionMaskAll, kConnexionMaskAllButtons,
    kConnexionMsgDeviceState, kConnexionMsgPrefsChanged, ConnexionDeviceState, DeviceCommand,
};

fn record(command: u16, axis: [i16; 6], buttons: u32) -> ConnexionDeviceState {
    ConnexionDeviceState {
        version: 0x6D33,
        client: 7,
        command,
        param: 0,
        value: 0,
        time: 1234,
        report: [0; 8],
        buttons8: 0,
        axis,
        address: 0,
        buttons,
    }
}

#[test]
fn tags_spell_their_four_characters() {
    assert_eq!(kConnexionCtlActivateClient, u32::from_be_bytes(*b"3dac"));
    assert_eq!(kConnexionCtlDeactivateClient, u32::from_be_bytes(*b"3ddc"));
    assert_eq!(kConnexionMsgDeviceState, u32::from_be_bytes(*b"3dSR"));
    assert_eq!(kConnexionMsgPrefsChanged, u32::from_be_bytes(*b"3dPC"));
}

#[test]
fn client_constants_have_their_values() {
    assert_eq!(kConnexionClientWildcard, 0x2A2A2A2A);
    assert_eq!(kConnexionClientManual, 0x2B2B2B2B);
    assert_eq!(kConnexionClientModeTakeOver, 1);
    assert_eq!(kConnexionClientModePlugin, 2);
    assert_eq!(kConnexionMaskAll, 0x3FFF);
    assert_eq!(kConnexionMaskAllButtons, 0xFFFF_FFFF);
}

#[test]
fn command_tags_decode() {
    assert_eq!(decode_command(kConnexionCmdHandleRawData), Some(DeviceCommand::RawData));
    assert_eq!(decode_command(kConnexionCmdHandleButtons), Some(DeviceCommand::Buttons));
    assert_eq!(decode_command(kConnexionCmdHandleAxis), Some(DeviceCommand::Axis));
    assert_eq!(decode_command(0), None);
    assert_eq!(decode_command(4), None);
    assert_eq!(decode_command(u16::MAX), None);
}

#[test]
fn axis_record_is_conditioned() {
    let state = record(kConnexionCmdHandleAxis, [350, -2, 10, -700, 0, 3], 2);
    assert_eq!(
        connexion_message(0xC62B, kConnexionMsgDeviceState, Some(state)),
        Some(AxisTarget { axes: [350, 0, 10, -350, 0, 0], buttons: 2 })
    );
}

#[test]
fn raw_data_record_is_conditioned() {
    let state = record(kConnexionCmdHandleRawData, [5, 5, 5, 5, 5, 5], 0);
    assert_eq!(
        connexion_message(1, kConnexionMsgDeviceState, Some(state)),
        Some(AxisTarget { axes: [5; 6], buttons: 0 })
    );
}

#[test]
fn button_record_rests_the_axes() {
    let state = record(kConnexionCmdHandleButtons, [350, 350, 350, 350, 350, 350], 0b101);
    assert_eq!(
        connexion_message(1, kConnexionMsgDeviceState, Some(state)),
        Some(AxisTarget { axes: [0; 6], buttons: 0b101 })
    );
}

#[test]
fn record_of_unknown_command_delivers_nothing() {
    let state = record(9, [100; 6], 1);
    assert_eq!(connexion_message(1, kConnexionMsgDeviceState, Some(state)), None);
}

#[test]
fn other_message_types_deliver_nothing() {
    let state = record(kConnexionCmdHandleAxis, [100; 6], 1);
    assert_eq!(connexion_message(1, kConnexionMsgPrefsChanged, Some(state)), None);
    assert_eq!(connexion_message(1, 0, Some(state)), None);
}

#[test]
fn message_without_record_delivers_nothing() {
    assert_eq!(connexion_message(1, kConnexionMsgDeviceState, None), None);
}

#[test]
fn only_device_state_messages_carry_a_record() {
    assert!(is_device_state(kConnexionMsgDeviceState));
    assert!(!is_device_state(kConnexionMsgPrefsChanged));
    assert!(!is_device_state(0));
}
