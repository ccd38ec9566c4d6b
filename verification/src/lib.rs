//! Client-side logic of the Linux Bluetooth management control protocol:
//! device addresses, the status taxonomy, request framing, reply matching and
//! reply decoding, together with the decision steps of the dispatch engine
//! and of the event listener.

pub mod add_device_cmd;
pub mod address;
pub mod cmd;
pub mod error;
pub mod frame;
pub mod get_connection_info_cmd;
pub mod get_connections_cmd;
pub mod get_supported_cmds_cmd;
pub mod hex_text;
pub mod listener;
pub mod set_scan_params_cmd;
pub mod timing;
pub mod transport;
pub mod unpair_device_cmd;

pub use crate::listener::{
    BtmgmtEventPacketStructure, BTMGMT_EVENT_CODE_DEVICE_CONNECTED,
    BTMGMT_EVENT_CODE_DEVICE_DISCONNECTED, BTMGMT_EVENT_DEVICE_DISCONNECTED_REASON_AUTH_FAILURE,
    BTMGMT_EVENT_DEVICE_DISCONNECTED_REASON_CONNECTION_TIMEOUT,
    BTMGMT_EVENT_DEVICE_DISCONNECTED_REASON_TERMINATE_LOCAL,
    BTMGMT_EVENT_DEVICE_DISCONNECTED_REASON_TERMINATE_REMOTE,
    BTMGMT_EVENT_DEVICE_DISCONNECTED_REASON_UNSPECIFIED,
};
pub use crate::transport::BTMgmt;
