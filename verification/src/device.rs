//! The device collaborator's vocabulary: its state record, its command and
//! message tags, and the decision which samples a message delivers.

#![allow(non_upper_case_globals)]

use crate::conditioner::{dispatch_axes, AxisTarget};
use vstd::prelude::*;

verus! {

/// Client signature that matches any application.
pub const kConnexionClientWildcard: u32 = 0x2A2A2A2A;

/// Client signature of an application that activates itself.
pub const kConnexionClientManual: u32 = 0x2B2B2B2B;

/// Capture mode in which the client receives every device event.
pub const kConnexionClientModeTakeOver: u16 = 1;

/// Capture mode of a plug-in inside another application.
pub const kConnexionClientModePlugin: u16 = 2;

/// Control message that makes a client the active one (`3dac`).
pub const kConnexionCtlActivateClient: u32 = 0x33646163;

/// Control message that ends a client's activation (`3ddc`).
pub const kConnexionCtlDeactivateClient: u32 = 0x33646463;

/// Capture mask selecting every axis and the first eight buttons.
pub const kConnexionMaskAll: u32 = 0x3FFF;

/// Button mask selecting all thirty-two buttons.
pub const kConnexionMaskAllButtons: u32 = 0xFFFFFFFF;

/// Message type that carries a device state record (`3dSR`).
pub const kConnexionMsgDeviceState: u32 = 0x33645352;

/// Message type that announces changed preferences (`3dPC`).
pub const kConnexionMsgPrefsChanged: u32 = 0x33645043;

/// Command tag of a record with raw report data.
pub const kConnexionCmdHandleRawData: u16 = 1;

/// Command tag of a record with a button change.
pub const kConnexionCmdHandleButtons: u16 = 2;

/// Command tag of a record with an axis change.
pub const kConnexionCmdHandleAxis: u16 = 3;

/// The state record that the device collaborator hands to the event
/// callback, field for field.
#[derive(Debug, Clone, Copy)]
pub struct ConnexionDeviceState {
    pub version: u16,
    pub client: u16,
    pub command: u16,
    pub param: i16,
    pub value: i32,
    pub time: u64,
    pub report: [u8; 8],
    pub buttons8: u16,
    pub axis: [i16; 6],
    pub address: u16,
    pub buttons: u32,
}

/// The kinds of command a state record can carry.
#[derive(Debug, Clone, Copy, PartialEq, Eq, Structural)]
pub enum DeviceCommand {
    RawData,
    Buttons,
    Axis,
}

/// The command kind that a record's tag stands for, if any.
pub open spec fn command_of(tag: u16) -> Option<DeviceCommand> {
    if tag == kConnexionCmdHandleRawData {
        Some(DeviceCommand::RawData)
    } else if tag == kConnexionCmdHandleButtons {
        Some(DeviceCommand::Buttons)
    } else if tag == kConnexionCmdHandleAxis {
        Some(DeviceCommand::Axis)
    } else {
        None
    }
}

/// What a message delivers: nothing unless it is a device state message
/// with a record of a known command; the record's axes and buttons
/// conditioned for raw data and axis commands; the record's buttons over
/// axes at rest for a button command.
pub open spec fn delivers(
    message_type: u32,
    message_argument: Option<ConnexionDeviceState>,
    out: Option<AxisTarget>,
) -> bool {
    if message_type == kConnexionMsgDeviceState && message_argument is Some {
        let state = message_argument->0;
        match command_of(state.command) {
            Some(DeviceCommand::RawData) | Some(DeviceCommand::Axis) => {
                out is Some && (out->0).conditions(state.axis, state.buttons)
            },
            Some(DeviceCommand::Buttons) => {
                &&& out is Some
                &&& (out->0).buttons == state.buttons
                &&& forall|i: int| 0 <= i < 6 ==> #[trigger] (out->0).axes[i] == 0
            },
            None => out is None,
        }
    } else {
        out is None
    }
}

/// Whether a message of this type carries a device state record.
pub fn is_device_state(message_type: u32) -> (r: bool)
    ensures
        r == (message_type == kConnexionMsgDeviceState),
{
    message_type == kConnexionMsgDeviceState
}

/// Decodes a record's command tag.
pub fn decode_command(tag: u16) -> (r: Option<DeviceCommand>)
    ensures
        r == command_of(tag),
{
    if tag == kConnexionCmdHandleRawData {
        Some(DeviceCommand::RawData)
    } else if tag == kConnexionCmdHandleButtons {
        Some(DeviceCommand::Buttons)
    } else if tag == kConnexionCmdHandleAxis {
        Some(DeviceCommand::Axis)
    } else {
        None
    }
}

/// Handles one message of the device collaborator and returns the
/// conditioned sample to publish, if the message carries one.
/// `message_argument` is the record behind the message, `None` where the
/// collaborator passed none.
pub fn connexion_message(
    _product_id: u32,
    message_type: u32,
    message_argument: Option<ConnexionDeviceState>,
) -> (r: Option<AxisTarget>)
    ensures
        delivers(message_type, message_argument, r),
{
    if !is_device_state(message_type) {
        return None;
    }
    match message_argument {
        Some(state) => match decode_command(state.command) {
            Some(DeviceCommand::RawData) | Some(DeviceCommand::Axis) => Some(
                dispatch_axes(state.axis, state.buttons),
            ),
            Some(DeviceCommand::Buttons) => Some(dispatch_axes([0, 0, 0, 0, 0, 0], state.buttons)),
            None => None,
        },
        None => None,
    }
}

} // verus!
