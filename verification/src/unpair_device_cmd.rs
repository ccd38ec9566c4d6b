//! The request to forget the pairing with a device.

use crate::address::{holds_address, wire_form, Address};
use crate::cmd::{device_reply, is_device_reply, Command};
use crate::error::Error;
use crate::frame::{check_reply, reply_failure, REPLY_PAYLOAD_AT};
use std::time::Duration;
use vstd::prelude::*;

verus! {

pub const UNPAIR_DEVICE_OPCODE: u16 = 0x001B;

/// The last parameter of the request: also disconnect the device.
pub const UNPAIR_AND_DISCONNECT: u8 = 1;

/// Bytes in a successful reply: nine before the payload, seven of the
/// address.
pub const UNPAIR_DEVICE_REPLY_LEN: usize = 16;

/// Asks a controller to forget its pairing with a device and to disconnect
/// it.
pub struct UnpairDeviceCommand {
    cmd_code: u16,
    ctrl_index: u16,
    param_length: u16,
    params: Vec<u8>,
    address: Address,
    response: Vec<u8>,
    timeout: Duration,
}

impl UnpairDeviceCommand {
    #[verifier::type_invariant]
    spec fn well_formed(&self) -> bool {
        &&& self.cmd_code == UNPAIR_DEVICE_OPCODE
        &&& self.param_length == 8
        &&& self.params@ == wire_form(self.address).push(UNPAIR_AND_DISCONNECT)
    }

    /// The device that the request is about.
    pub closed spec fn device(&self) -> Address {
        self.address
    }

    pub fn new(ctrl_index: u16, address: &Address, timeout: Duration) -> (made:
        UnpairDeviceCommand)
        ensures
            made.index() == ctrl_index,
            made.device() == *address,
            made.timeout() == timeout,
            made.response() == Seq::<u8>::empty(),
    {
        let mut params: Vec<u8> = Vec::new();
        address.write_to(&mut params);
        params.push(UNPAIR_AND_DISCONNECT);
        assert(params@ =~= wire_form(*address).push(UNPAIR_AND_DISCONNECT));
        UnpairDeviceCommand {
            cmd_code: UNPAIR_DEVICE_OPCODE,
            ctrl_index,
            param_length: 8,
            params,
            address: *address,
            response: Vec::new(),
            timeout,
        }
    }

    /// The address that the reply echoes. Fails with `NoResponse` before a
    /// reply is stored, with the reply's own error if its status is not
    /// zero, and with `UnknownError` if the reply is cut short.
    pub fn result(&self) -> (outcome: Result<Address, Error>)
        ensures
            match outcome {
                Ok(a) => reply_failure(self.response(), 16) is None && holds_address(
                    self.response(),
                    9,
                    a,
                ),
                Err(e) => reply_failure(self.response(), 16) == Some(e),
            },
    {
        let frame = self.response.as_slice();
        if let Some(e) = check_reply(frame, UNPAIR_DEVICE_REPLY_LEN) {
            return Err(e);
        }
        Ok(Address::read_at(frame, REPLY_PAYLOAD_AT))
    }
}

impl Command for UnpairDeviceCommand {
    open spec fn code(&self) -> u16 {
        UNPAIR_DEVICE_OPCODE
    }

    closed spec fn index(&self) -> u16 {
        self.ctrl_index
    }

    open spec fn params(&self) -> Seq<u8> {
        wire_form(self.device()).push(UNPAIR_AND_DISCONNECT)
    }

    closed spec fn timeout(&self) -> Duration {
        self.timeout
    }

    closed spec fn response(&self) -> Seq<u8> {
        self.response@
    }

    /// A reply that echoes the operation code is the reply if it reports an
    /// error or names the device of the request.
    open spec fn matches(&self, frame: Seq<u8>) -> bool {
        is_device_reply(frame, UNPAIR_DEVICE_OPCODE, self.device())
    }

    open spec fn target(&self) -> Option<Address> {
        Some(self.device())
    }

    fn get_cmd_code(&self) -> (code: u16) {
        proof {
            use_type_invariant(self);
        }
        self.cmd_code
    }

    fn get_ctrl_index(&self) -> (index: u16) {
        self.ctrl_index
    }

    fn get_param_length(&self) -> (length: u16) {
        proof {
            use_type_invariant(self);
        }
        self.param_length
    }

    fn get_params(&self) -> (params: Vec<u8>) {
        proof {
            use_type_invariant(self);
        }
        self.params.clone()
    }

    fn get_timeout(&self) -> (timeout: Duration) {
        self.timeout
    }

    fn is_response(&self, data: &[u8]) -> (yes: bool) {
        proof {
            use_type_invariant(self);
        }
        device_reply(data, self.cmd_code, &self.address)
    }

    fn get_response(&self) -> (data: Vec<u8>) {
        self.response.clone()
    }

    fn store_response(&mut self, data: Vec<u8>)
        ensures
            final(self).device() == old(self).device(),
    {
        proof {
            use_type_invariant(&*self);
        }
        self.response = data;
    }
}

} // verus!
