//! The request for the commands and events that the kernel supports.

use crate::address::Address;
use crate::cmd::Command;
use crate::error::Error;
use crate::frame::{
    check_reply, echoes, echoes_code, field_at, read_field, reply_failure, NO_CONTROLLER,
    REPLY_PAYLOAD_AT,
};
use std::time::Duration;
use vstd::prelude::*;

verus! {

pub const GET_SUPPORTED_CMDS_CMD_OPCODE: u16 = 0x0002;

/// The codes of the supported commands and of the supported events, each
/// list in the order of the reply.
pub struct SupportedCmdsResult {
    cmds: Vec<u16>,
    events: Vec<u16>,
}

/// Whether `codes` holds `code`.
fn holds_code(codes: &Vec<u16>, code: u16) -> (found: bool)
    ensures
        found == codes@.contains(code),
{
    let mut at: usize = 0;
    while at < codes.len()
        invariant
            at <= codes@.len(),
            forall|k: int| 0 <= k < at ==> codes@[k] != code,
        decreases codes@.len() - at,
    {
        if codes[at] == code {
            assert(codes@[at as int] == code);
            return true;
        }
        at += 1;
    }
    false
}

impl SupportedCmdsResult {
    /// The command codes.
    pub closed spec fn commands(&self) -> Seq<u16> {
        self.cmds@
    }

    /// The event codes.
    pub closed spec fn events(&self) -> Seq<u16> {
        self.events@
    }

    pub fn new() -> (made: SupportedCmdsResult)
        ensures
            made.commands() == Seq::<u16>::empty(),
            made.events() == Seq::<u16>::empty(),
    {
        SupportedCmdsResult { cmds: Vec::new(), events: Vec::new() }
    }

    pub fn add_cmd(&mut self, cmd: u16)
        ensures
            final(self).commands() == old(self).commands().push(cmd),
            final(self).events() == old(self).events(),
    {
        self.cmds.push(cmd);
    }

    pub fn add_event(&mut self, cmd: u16)
        ensures
            final(self).events() == old(self).events().push(cmd),
            final(self).commands() == old(self).commands(),
    {
        self.events.push(cmd);
    }

    pub fn is_cmd_supported(&self, cmd: u16) -> (yes: bool)
        ensures
            yes == self.commands().contains(cmd),
    {
        holds_code(&self.cmds, cmd)
    }

    pub fn is_event_supported(&self, event: u16) -> (yes: bool)
        ensures
            yes == self.events().contains(event),
    {
        holds_code(&self.events, event)
    }
}

/// How many command codes a reply announces.
pub open spec fn announced_commands(frame: Seq<u8>) -> int
    recommends
        frame.len() >= 13,
{
    field_at(frame, 9) as int
}

/// How many event codes a reply announces.
pub open spec fn announced_events(frame: Seq<u8>) -> int
    recommends
        frame.len() >= 13,
{
    field_at(frame, 11) as int
}

/// The length of a successful reply: thirteen bytes up to and with the two
/// counts, then two bytes for every announced code.
pub open spec fn supported_reply_len(frame: Seq<u8>) -> int {
    if frame.len() >= 13 {
        13 + 2 * (announced_commands(frame) + announced_events(frame))
    } else {
        13
    }
}

/// Whether the two lists hold the codes of a successful reply: first the
/// commands, then the events, each in wire order.
pub open spec fn lists_supported(frame: Seq<u8>, commands: Seq<u16>, events: Seq<u16>) -> bool {
    &&& commands.len() == announced_commands(frame)
    &&& events.len() == announced_events(frame)
    &&& forall|i: int|
        0 <= i < commands.len() ==> #[trigger] commands[i] == field_at(frame, 13 + 2 * i)
    &&& forall|j: int|
        0 <= j < events.len() ==> #[trigger] events[j] == field_at(
            frame,
            13 + 2 * (announced_commands(frame) + j),
        )
}

/// Asks which commands and events the kernel supports.
pub struct GetSupportedCmdsCommand {
    cmd_code: u16,
    ctrl_index: u16,
    param_length: u16,
    params: Vec<u8>,
    response: Vec<u8>,
    timeout: Duration,
}

impl GetSupportedCmdsCommand {
    #[verifier::type_invariant]
    spec fn well_formed(&self) -> bool {
        &&& self.cmd_code == GET_SUPPORTED_CMDS_CMD_OPCODE
        &&& self.ctrl_index == NO_CONTROLLER
        &&& self.param_length == 0
        &&& self.params@.len() == 0
    }

    pub fn new(timeout: Duration) -> (made: GetSupportedCmdsCommand)
        ensures
            made.timeout() == timeout,
            made.response() == Seq::<u8>::empty(),
    {
        GetSupportedCmdsCommand {
            cmd_code: GET_SUPPORTED_CMDS_CMD_OPCODE,
            ctrl_index: NO_CONTROLLER,
            param_length: 0,
            params: Vec::new(),
            response: Vec::new(),
            timeout,
        }
    }

    /// The supported codes. Fails with `NoResponse` before a reply is
    /// stored, with the reply's own error if its status is not zero, and
    /// with `UnknownError` if the reply is shorter than it announces.
    pub fn result(&self) -> (outcome: Result<SupportedCmdsResult, Error>)
        ensures
            match outcome {
                Ok(found) => reply_failure(self.response(), supported_reply_len(self.response()))
                    is None && lists_supported(
                    self.response(),
                    found.commands(),
                    found.events(),
                ),
                Err(e) => reply_failure(self.response(), supported_reply_len(self.response()))
                    == Some(e),
            },
    {
        let frame = self.response.as_slice();
        let first = REPLY_PAYLOAD_AT + 4;
        if let Some(e) = check_reply(frame, first) {
            return Err(e);
        }
        let num_cmds = read_field(frame, REPLY_PAYLOAD_AT) as usize;
        let num_events = read_field(frame, REPLY_PAYLOAD_AT + 2) as usize;
        if frame.len() < first + 2 * (num_cmds + num_events) {
            return Err(Error::UnknownError);
        }
        let mut res = SupportedCmdsResult::new();
        let mut i: usize = 0;
        while i < num_cmds
            invariant
                i <= num_cmds,
                first == 13,
                num_cmds == announced_commands(frame@),
                num_events == announced_events(frame@),
                frame@.len() >= 13 + 2 * (num_cmds + num_events),
                res.events() == Seq::<u16>::empty(),
                res.commands().len() == i,
                forall|k: int|
                    0 <= k < i ==> #[trigger] res.commands()[k] == field_at(frame@, 13 + 2 * k),
            decreases num_cmds - i,
        {
            res.add_cmd(read_field(frame, first + 2 * i));
            i += 1;
        }
        let mut j: usize = 0;
        while j < num_events
            invariant
                j <= num_events,
                first == 13,
                num_cmds == announced_commands(frame@),
                num_events == announced_events(frame@),
                frame@.len() >= 13 + 2 * (num_cmds + num_events),
                res.commands().len() == num_cmds,
                forall|k: int|
                    0 <= k < num_cmds ==> #[trigger] res.commands()[k] == field_at(
                        frame@,
                        13 + 2 * k,
                    ),
                res.events().len() == j,
                forall|k: int|
                    0 <= k < j ==> #[trigger] res.events()[k] == field_at(
                        frame@,
                        13 + 2 * (num_cmds + k),
                    ),
            decreases num_events - j,
        {
            res.add_event(read_field(frame, first + 2 * (num_cmds + j)));
            j += 1;
        }
        Ok(res)
    }
}

impl Command for GetSupportedCmdsCommand {
    open spec fn code(&self) -> u16 {
        GET_SUPPORTED_CMDS_CMD_OPCODE
    }

    /// The request addresses no controller.
    open spec fn index(&self) -> u16 {
        NO_CONTROLLER
    }

    open spec fn params(&self) -> Seq<u8> {
        Seq::empty()
    }

    closed spec fn timeout(&self) -> Duration {
        self.timeout
    }

    closed spec fn response(&self) -> Seq<u8> {
        self.response@
    }

    /// Any frame that echoes the operation code is the reply, whatever its
    /// status and whatever follows.
    open spec fn matches(&self, frame: Seq<u8>) -> bool {
        echoes_code(frame, GET_SUPPORTED_CMDS_CMD_OPCODE)
    }

    /// The request is about no device.
    open spec fn target(&self) -> Option<Address> {
        None
    }

    fn get_cmd_code(&self) -> (code: u16) {
        proof {
            use_type_invariant(self);
        }
        self.cmd_code
    }

    fn get_ctrl_index(&self) -> (index: u16) {
        proof {
            use_type_invariant(self);
        }
        self.ctrl_index
    }

    fn get_param_length(&self) -> (length: u16) {
        proof {
            use_type_invariant(self);
        }
        self.param_length
    }

    fn get_params(&self) -> (params: Vec<u8>) {
        proof {
            use_type_invariant(self);
        }
        let params = self.params.clone();
        assert(params@ =~= Seq::<u8>::empty());
        params
    }

    fn get_timeout(&self) -> (timeout: Duration) {
        self.timeout
    }

    fn is_response(&self, data: &[u8]) -> (yes: bool) {
        proof {
            use_type_invariant(self);
        }
        echoes(data, self.cmd_code)
    }

    fn get_response(&self) -> (data: Vec<u8>) {
        self.response.clone()
    }

    fn store_response(&mut self, data: Vec<u8>) {
        proof {
            use_type_invariant(&*self);
        }
        self.response = data;
    }
}

} // verus!
