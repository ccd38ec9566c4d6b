//! The request for the list of connected devices.

use crate::address::{holds_address, Address, ADDRESS_RECORD_LEN};
use crate::cmd::Command;
use crate::error::Error;
use crate::frame::{
    check_reply, echoes, echoes_code, field_at, read_field, reply_failure, REPLY_PAYLOAD_AT,
};
use std::time::Duration;
use vstd::prelude::*;

verus! {

pub const GET_CONNECTIONS_OPCODE: u16 = 0x0015;

/// How many addresses a reply to the request announces.
pub open spec fn announced_connections(frame: Seq<u8>) -> int
    recommends
        frame.len() >= 11,
{
    field_at(frame, 9) as int
}

/// The length of a successful reply: the header, the echoed code, the
/// status, the count and seven bytes for every announced address.
pub open spec fn connections_reply_len(frame: Seq<u8>) -> int {
    if frame.len() >= 11 {
        11 + 7 * announced_connections(frame)
    } else {
        11
    }
}

/// Whether `list` holds the addresses of a successful reply, in wire order.
pub open spec fn lists_connections(frame: Seq<u8>, list: Seq<Address>) -> bool {
    &&& list.len() == announced_connections(frame)
    &&& forall|i: int| 0 <= i < list.len() ==> holds_address(frame, 11 + 7 * i, #[trigger] list[i])
}

/// Asks a controller which devices are connected to it.
pub struct GetConnectionsCommand {
    cmd_code: u16,
    ctrl_index: u16,
    param_length: u16,
    params: Vec<u8>,
    response: Vec<u8>,
    timeout: Duration,
}

impl GetConnectionsCommand {
    #[verifier::type_invariant]
    spec fn well_formed(&self) -> bool {
        &&& self.cmd_code == GET_CONNECTIONS_OPCODE
        &&& self.param_length == 0
        &&& self.params@.len() == 0
    }

    pub fn new(ctrl_index: u16, timeout: Duration) -> (made: GetConnectionsCommand)
        ensures
            made.index() == ctrl_index,
            made.timeout() == timeout,
            made.response() == Seq::<u8>::empty(),
    {
        GetConnectionsCommand {
            cmd_code: GET_CONNECTIONS_OPCODE,
            ctrl_index,
            param_length: 0,
            params: Vec::new(),
            response: Vec::new(),
            timeout,
        }
    }
}

impl GetConnectionsCommand {
    /// The connected devices, in the order of the reply. Fails with
    /// `NoResponse` before a reply is stored, with the reply's own error if
    /// its status is not zero, and with `UnknownError` if the reply is
    /// shorter than it announces.
    pub fn result(&self) -> (outcome: Result<Vec<Address>, Error>)
        ensures
            match outcome {
                Ok(list) => reply_failure(self.response(), connections_reply_len(self.response()))
                    is None && lists_connections(self.response(), list@),
                Err(e) => reply_failure(self.response(), connections_reply_len(self.response()))
                    == Some(e),
            },
    {
        let frame = self.response.as_slice();
        let first = REPLY_PAYLOAD_AT + 2;
        if let Some(e) = check_reply(frame, first) {
            return Err(e);
        }
        let count = read_field(frame, REPLY_PAYLOAD_AT) as usize;
        if frame.len() < first + ADDRESS_RECORD_LEN * count {
            return Err(Error::UnknownError);
        }
        let mut addresses: Vec<Address> = Vec::new();
        let mut i: usize = 0;
        while i < count
            invariant
                i <= count,
                first == 11,
                count == announced_connections(frame@),
                frame@.len() >= 11 + 7 * count,
                addresses@.len() == i,
                forall|k: int|
                    0 <= k < i ==> holds_address(frame@, 11 + 7 * k, #[trigger] addresses@[k]),
            decreases count - i,
        {
            addresses.push(Address::read_at(frame, first + ADDRESS_RECORD_LEN * i));
            i += 1;
        }
        Ok(addresses)
    }
}

impl Command for GetConnectionsCommand {
    open spec fn code(&self) -> u16 {
        GET_CONNECTIONS_OPCODE
    }

    closed spec fn index(&self) -> u16 {
        self.ctrl_index
    }

    open spec fn params(&self) -> Seq<u8> {
        Seq::empty()
    }

    closed spec fn timeout(&self) -> Duration {
        self.timeout
    }

    closed spec fn response(&self) -> Seq<u8> {
        self.response@
    }

    /// Any frame that echoes the operation code is the reply, whatever its
    /// status and whatever follows.
    open spec fn matches(&self, frame: Seq<u8>) -> bool {
        echoes_code(frame, GET_CONNECTIONS_OPCODE)
    }

    /// The request is about no device.
    open spec fn target(&self) -> Option<Address> {
        None
    }

    fn get_cmd_code(&self) -> (code: u16) {
        proof {
            use_type_invariant(self);
        }
        self.cmd_code
    }

    fn get_ctrl_index(&self) -> (index: u16) {
        self.ctrl_index
    }

    fn get_param_length(&self) -> (length: u16) {
        proof {
            use_type_invariant(self);
        }
        self.param_length
    }

    fn get_params(&self) -> (params: Vec<u8>) {
        proof {
            use_type_invariant(self);
        }
        let params = self.params.clone();
        assert(params@ =~= Seq::<u8>::empty());
        params
    }

    fn get_timeout(&self) -> (timeout: Duration) {
        self.timeout
    }

    fn is_response(&self, data: &[u8]) -> (yes: bool) {
        proof {
            use_type_invariant(self);
        }
        echoes(data, self.cmd_code)
    }

    fn get_response(&self) -> (data: Vec<u8>) {
        self.response.clone()
    }

    fn store_response(&mut self, data: Vec<u8>) {
        proof {
            use_type_invariant(&*self);
        }
        self.response = data;
    }
}

} // verus!
