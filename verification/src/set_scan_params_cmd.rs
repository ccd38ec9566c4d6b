//! The request that sets how a controller scans.

use crate::address::Address;
use crate::cmd::Command;
use crate::error::Error;
use crate::frame::{
    check_reply, echoes, echoes_code, le_pair, reply_failure, split_u16, REPLY_PAYLOAD_AT,
};
use std::time::Duration;
use vstd::prelude::*;

verus! {

pub const SET_SCAN_PARAMS_OPCODE: u16 = 0x002C;

/// The parameters of the request: the scan interval, then the scan window,
/// each with its low byte first.
pub open spec fn scan_params(interval: u16, window: u16) -> Seq<u8> {
    le_pair(interval) + le_pair(window)
}

/// Sets the interval and the window of a controller's scan.
pub struct SetScanParamsCommand {
    cmd_code: u16,
    ctrl_index: u16,
    param_length: u16,
    params: Vec<u8>,
    response: Vec<u8>,
    timeout: Duration,
}

impl SetScanParamsCommand {
    #[verifier::type_invariant]
    spec fn well_formed(&self) -> bool {
        &&& self.cmd_code == SET_SCAN_PARAMS_OPCODE
        &&& self.param_length == 4
        &&& self.params@.len() == 4
    }

    pub fn new(ctrl_index: u16, interval: u16, window: u16, timeout: Duration) -> (made:
        SetScanParamsCommand)
        ensures
            made.index() == ctrl_index,
            made.params() == scan_params(interval, window),
            made.timeout() == timeout,
            made.response() == Seq::<u8>::empty(),
    {
        let interval_bytes = split_u16(interval);
        let window_bytes = split_u16(window);
        let mut params: Vec<u8> = Vec::new();
        params.push(interval_bytes.0);
        params.push(interval_bytes.1);
        params.push(window_bytes.0);
        params.push(window_bytes.1);
        assert(params@ =~= seq![interval_bytes.0, interval_bytes.1] + seq![
            window_bytes.0,
            window_bytes.1,
        ]);
        SetScanParamsCommand {
            cmd_code: SET_SCAN_PARAMS_OPCODE,
            ctrl_index,
            param_length: 4,
            params,
            response: Vec::new(),
            timeout,
        }
    }

    /// Whether the controller accepted the parameters: 0 if it did. Fails
    /// with `NoResponse` before a reply is stored, with the reply's own error
    /// if its status is not zero, and with `UnknownError` if the reply is cut
    /// short before its status.
    pub fn result(&self) -> (outcome: Result<u8, Error>)
        ensures
            match outcome {
                Ok(value) => reply_failure(self.response(), 9) is None && value == 0,
                Err(e) => reply_failure(self.response(), 9) == Some(e),
            },
    {
        if let Some(e) = check_reply(self.response.as_slice(), REPLY_PAYLOAD_AT) {
            return Err(e);
        }
        Ok(0)
    }
}

impl Command for SetScanParamsCommand {
    open spec fn code(&self) -> u16 {
        SET_SCAN_PARAMS_OPCODE
    }

    closed spec fn index(&self) -> u16 {
        self.ctrl_index
    }

    closed spec fn params(&self) -> Seq<u8> {
        self.params@
    }

    closed spec fn timeout(&self) -> Duration {
        self.timeout
    }

    closed spec fn response(&self) -> Seq<u8> {
        self.response@
    }

    /// Any frame that echoes the operation code is the reply, whatever its
    /// status and whatever follows.
    open spec fn matches(&self, frame: Seq<u8>) -> bool {
        echoes_code(frame, SET_SCAN_PARAMS_OPCODE)
    }

    /// The request is about no device.
    open spec fn target(&self) -> Option<Address> {
        None
    }

    fn get_cmd_code(&self) -> (code: u16) {
        proof {
            use_type_invariant(self);
        }
        self.cmd_code
    }

    fn get_ctrl_index(&self) -> (index: u16) {
        self.ctrl_index
    }

    fn get_param_length(&self) -> (length: u16) {
        proof {
            use_type_invariant(self);
        }
        self.param_length
    }

    fn get_params(&self) -> (params: Vec<u8>) {
        self.params.clone()
    }

    fn get_timeout(&self) -> (timeout: Duration) {
        self.timeout
    }

    fn is_response(&self, data: &[u8]) -> (yes: bool) {
        proof {
            use_type_invariant(self);
        }
        echoes(data, self.cmd_code)
    }

    fn get_response(&self) -> (data: Vec<u8>) {
        self.response.clone()
    }

    fn store_response(&mut self, data: Vec<u8>) {
        proof {
            use_type_invariant(&*self);
        }
        self.response = data;
    }
}

} // verus!
