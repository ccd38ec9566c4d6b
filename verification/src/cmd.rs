//! What every request has in common.

use crate::address::{wire_form, Address, ADDRESS_RECORD_LEN};
use crate::frame::{
    echoes, encode_request, replies_to, request_frame, REPLY_PAYLOAD_AT, REPLY_STATUS_AT,
};
use std::time::Duration;
use vstd::prelude::*;

verus! {

/// A request of the management protocol. One value serves one exchange: it
/// is built, sent, handed the reply that it recognises, and then asked for
/// its result.
pub trait Command {
    /// The operation code.
    spec fn code(&self) -> u16;

    /// The controller that the request addresses.
    spec fn index(&self) -> u16;

    /// The serialized parameters.
    spec fn params(&self) -> Seq<u8>;

    /// How long the request may wait for its reply.
    spec fn timeout(&self) -> Duration;

    /// The stored reply; empty until one is stored.
    spec fn response(&self) -> Seq<u8>;

    /// Whether `frame` is the reply to this request.
    spec fn matches(&self, frame: Seq<u8>) -> bool;

    /// The device that the request is about, if it is about one.
    spec fn target(&self) -> Option<Address>;

    fn get_cmd_code(&self) -> (code: u16)
        ensures
            code == self.code(),
    ;

    fn get_ctrl_index(&self) -> (index: u16)
        ensures
            index == self.index(),
    ;

    fn get_param_length(&self) -> (length: u16)
        ensures
            length == self.params().len(),
    ;

    fn get_params(&self) -> (params: Vec<u8>)
        ensures
            params@ == self.params(),
    ;

    fn get_timeout(&self) -> (timeout: Duration)
        ensures
            timeout == self.timeout(),
    ;

    fn is_response(&self, data: &[u8]) -> (yes: bool)
        ensures
            yes == self.matches(data@),
    ;

    /// The stored reply; empty until one is stored.
    fn get_response(&self) -> (data: Vec<u8>)
        ensures
            data@ == self.response(),
    ;

    /// Records the reply. Nothing else about the request changes.
    fn store_response(&mut self, data: Vec<u8>)
        ensures
            final(self).response() == data@,
            final(self).code() == old(self).code(),
            final(self).index() == old(self).index(),
            final(self).params() == old(self).params(),
            final(self).timeout() == old(self).timeout(),
            final(self).target() == old(self).target(),
            forall|frame: Seq<u8>| final(self).matches(frame) == old(self).matches(frame),
    ;

    /// The request as it goes on the wire: the header, then the parameters.
    fn to_bytes(&self) -> (bytes: Vec<u8>)
        ensures
            bytes@ == request_frame(self.code(), self.index(), self.params()),
            bytes@.len() == 6 + self.params().len(),
    {
        let params = self.get_params();
        // The length field is sixteen bits wide; that the parameters fit it
        // is what `get_param_length` answers for.
        let _length = self.get_param_length();
        encode_request(self.get_cmd_code(), self.get_ctrl_index(), params.as_slice())
    }

    /// The length of the request on the wire.
    fn size(&self) -> (length: usize)
        ensures
            length == 6 + self.params().len(),
    {
        let length = self.get_param_length();
        6 + length as usize
    }
}

/// Whether a reply names the device `a` at the start of its payload.
pub open spec fn names_device(frame: Seq<u8>, a: Address) -> bool {
    frame.len() >= 16 && frame.subrange(9, 16) == wire_form(a)
}

/// Whether `frame` is the reply to a request with operation `code` about the
/// device `a`: it echoes the code, and it either reports an error or names
/// that device.
pub open spec fn is_device_reply(frame: Seq<u8>, code: u16, a: Address) -> bool {
    replies_to(frame, code) && (frame[8] != 0 || names_device(frame, a))
}

/// Decides whether `frame` is the reply to a request about a device.
pub fn device_reply(frame: &[u8], code: u16, a: &Address) -> (yes: bool)
    ensures
        yes == is_device_reply(frame@, code, *a),
{
    if !echoes(frame, code) || frame.len() < REPLY_PAYLOAD_AT {
        return false;
    }
    if frame[REPLY_STATUS_AT] != 0 {
        return true;
    }
    if frame.len() < REPLY_PAYLOAD_AT + ADDRESS_RECORD_LEN {
        return false;
    }
    a.stands_at(frame, REPLY_PAYLOAD_AT)
}

/// Of two successful replies to one operation that name different devices,
/// each is the reply to the request about the device that it names and not
/// to the request about the other.
pub proof fn lemma_replies_told_apart(
    code: u16,
    a: Address,
    b: Address,
    reply_a: Seq<u8>,
    reply_b: Seq<u8>,
)
    requires
        replies_to(reply_a, code),
        replies_to(reply_b, code),
        reply_a[8] == 0,
        reply_b[8] == 0,
        names_device(reply_a, a),
        names_device(reply_b, b),
        wire_form(a) != wire_form(b),
    ensures
        is_device_reply(reply_a, code, a),
        !is_device_reply(reply_a, code, b),
        is_device_reply(reply_b, code, b),
        !is_device_reply(reply_b, code, a),
{
}

/// A reply that reports an error is the reply to every request with its
/// operation code, whichever device the request is about.
pub proof fn lemma_error_reply_matches(code: u16, a: Address, reply: Seq<u8>)
    requires
        replies_to(reply, code),
        reply[8] != 0,
    ensures
        is_device_reply(reply, code, a),
{
}

} // verus!
