//! The request for the signal figures of one connection.

use crate::address::{holds_address, wire_form, Address};
use crate::cmd::{device_reply, is_device_reply, Command};
use crate::error::Error;
use crate::frame::{check_reply, reply_failure, REPLY_PAYLOAD_AT};
use std::time::Duration;
use vstd::prelude::*;

verus! {

pub const GET_CONNECTION_INFO_OPCODE: u16 = 0x0031;

/// Bytes in a successful reply: nine before the payload, seven of the
/// address, then signal strength, power and greatest power.
pub const CONNECTION_INFO_REPLY_LEN: usize = 19;

/// What a controller reports of a connection.
#[derive(Debug, Clone, Copy, PartialEq, Eq)]
pub struct ConnectionInfo {
    pub address: Address,
    pub rssi: i8,
    pub tx_power: u8,
    pub max_tx_power: u8,
}

/// The number that a byte stands for in two's complement.
pub open spec fn signed_byte(b: u8) -> i8 {
    if b < 128 {
        b as i8
    } else {
        (b - 256) as i8
    }
}

/// Whether `info` is what a successful reply reports.
pub open spec fn reports(frame: Seq<u8>, info: ConnectionInfo) -> bool
    recommends
        frame.len() >= 19,
{
    &&& holds_address(frame, 9, info.address)
    &&& info.rssi == signed_byte(frame[16])
    &&& info.tx_power == frame[17]
    &&& info.max_tx_power == frame[18]
}

/// Reads a byte as a number in two's complement.
pub fn to_signed(b: u8) -> (n: i8)
    ensures
        n == signed_byte(b),
{
    if b < 128 {
        b as i8
    } else {
        (b as i16 - 256) as i8
    }
}

/// Asks a controller for the signal figures of its connection to a device.
pub struct GetConnectionInfoCommand {
    cmd_code: u16,
    ctrl_index: u16,
    param_length: u16,
    params: Vec<u8>,
    address: Address,
    response: Vec<u8>,
    timeout: Duration,
}

impl GetConnectionInfoCommand {
    #[verifier::type_invariant]
    spec fn well_formed(&self) -> bool {
        &&& self.cmd_code == GET_CONNECTION_INFO_OPCODE
        &&& self.param_length == 7
        &&& self.params@ == wire_form(self.address)
    }

    /// The device that the request is about.
    pub closed spec fn device(&self) -> Address {
        self.address
    }

    pub fn new(ctrl_index: u16, address: &Address, to: Duration) -> (made: GetConnectionInfoCommand)
        ensures
            made.index() == ctrl_index,
            made.device() == *address,
            made.timeout() == to,
            made.response() == Seq::<u8>::empty(),
    {
        let mut params: Vec<u8> = Vec::new();
        address.write_to(&mut params);
        assert(params@ =~= wire_form(*address));
        GetConnectionInfoCommand {
            cmd_code: GET_CONNECTION_INFO_OPCODE,
            ctrl_index,
            param_length: 7,
            params,
            address: *address,
            response: Vec::new(),
            timeout: to,
        }
    }

    /// The reported figures. Fails with `NoResponse` before a reply is
    /// stored, with the reply's own error if its status is not zero, and
    /// with `UnknownError` if the reply is cut short.
    pub fn result(&self) -> (outcome: Result<ConnectionInfo, Error>)
        ensures
            match outcome {
                Ok(info) => reply_failure(self.response(), 19) is None && reports(
                    self.response(),
                    info,
                ),
                Err(e) => reply_failure(self.response(), 19) == Some(e),
            },
    {
        let frame = self.response.as_slice();
        if let Some(e) = check_reply(frame, CONNECTION_INFO_REPLY_LEN) {
            return Err(e);
        }
        let address = Address::read_at(frame, REPLY_PAYLOAD_AT);
        let rssi = to_signed(frame[REPLY_PAYLOAD_AT + 7]);
        let tx_power = frame[REPLY_PAYLOAD_AT + 8];
        let max_tx_power = frame[REPLY_PAYLOAD_AT + 9];
        Ok(ConnectionInfo { address, rssi, tx_power, max_tx_power })
    }
}

impl Command for GetConnectionInfoCommand {
    open spec fn code(&self) -> u16 {
        GET_CONNECTION_INFO_OPCODE
    }

    closed spec fn index(&self) -> u16 {
        self.ctrl_index
    }

    open spec fn params(&self) -> Seq<u8> {
        wire_form(self.device())
    }

    closed spec fn timeout(&self) -> Duration {
        self.timeout
    }

    closed spec fn response(&self) -> Seq<u8> {
        self.response@
    }

    /// A reply that echoes the operation code is the reply if it reports an
    /// error or names the device of the request.
    open spec fn matches(&self, frame: Seq<u8>) -> bool {
        is_device_reply(frame, GET_CONNECTION_INFO_OPCODE, self.device())
    }

    open spec fn target(&self) -> Option<Address> {
        Some(self.device())
    }

    fn get_cmd_code(&self) -> (code: u16) {
        proof {
            use_type_invariant(self);
        }
        self.cmd_code
    }

    fn get_ctrl_index(&self) -> (index: u16) {
        self.ctrl_index
    }

    fn get_param_length(&self) -> (length: u16) {
        proof {
            use_type_invariant(self);
        }
        self.param_length
    }

    fn get_params(&self) -> (params: Vec<u8>) {
        proof {
            use_type_invariant(self);
        }
        self.params.clone()
    }

    fn get_timeout(&self) -> (timeout: Duration) {
        self.timeout
    }

    fn is_response(&self, data: &[u8]) -> (yes: bool) {
        proof {
            use_type_invariant(self);
        }
        device_reply(data, self.cmd_code, &self.address)
    }

    fn get_response(&self) -> (data: Vec<u8>) {
        self.response.clone()
    }

    fn store_response(&mut self, data: Vec<u8>)
        ensures
            final(self).device() == old(self).device(),
    {
        proof {
            use_type_invariant(&*self);
        }
        self.response = data;
    }
}

} // verus!
