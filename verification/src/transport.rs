//! The dispatch engine: how a control channel is set up, which requests the
//! transport sends, and what it does with everything that comes back until a
//! request has its reply or has run out of time.
//!
//! The channel itself is the caller's: the engine is told what happened on
//! it and answers with what to do next.

use crate::add_device_cmd::AddDeviceCommand;
use crate::address::Address;
use crate::cmd::Command;
use crate::error::Error;
use crate::frame::request_frame;
use crate::get_connection_info_cmd::GetConnectionInfoCommand;
use crate::get_connections_cmd::GetConnectionsCommand;
use crate::timing::{exceeds, span_nanos};
use std::time::Duration;
use vstd::prelude::*;

verus! {

/// The first byte of a frame that completes a command.
pub const COMMAND_RESPONSE_EVENT: u8 = 0x01;

/// The first byte of a frame that reports a command's status.
pub const COMMAND_STATUS_EVENT: u8 = 0x02;

/// The protocol of the control socket.
pub const BTPROTO_HCI: i32 = 1;

/// The device field of the control channel's socket address: no device.
pub const HCI_DEV_NONE: u16 = 0xffff;

/// The channel field of the control channel's socket address.
pub const HCI_CHANNEL_CONTROL: u16 = 3;

/// The seconds that the transport gives a request to get its reply.
pub const REQUEST_TIMEOUT_SECS: u64 = 1;

/// How long one wait for readiness lasts, in milliseconds.
pub const POLL_SLICE_MS: i32 = 1;

/// The size of the buffer that one read fills.
pub const READ_BUFFER_LEN: usize = 1024;

/// The bit of a poll result that says that the channel can be read.
pub const POLL_READABLE: i16 = 0x0001;

/// An open and bound control channel.
#[derive(Debug, PartialEq, Eq)]
pub struct BTMgmt {
    pub fd: i32,
}

/// What happened while a channel was set up.
#[derive(Debug, Clone, Copy, PartialEq, Eq)]
pub enum SetupEvent {
    /// The socket call returned `fd`.
    Opened { fd: i32 },
    /// The bind call on `fd` returned `status`.
    Bound { fd: i32, status: i32 },
}

/// What to do next while a channel is set up.
#[derive(Debug, PartialEq, Eq)]
pub enum SetupAction {
    /// Bind `fd` to the control channel.
    Bind { fd: i32 },
    /// The channel is ready.
    Ready { channel: BTMgmt },
    /// Give up.
    Fail { error: Error },
}

/// What a wait for readiness found.
#[derive(Debug, Clone, Copy, PartialEq, Eq, Structural)]
pub enum Readiness {
    /// Nothing happened within the slice.
    Quiet,
    /// There is something to read.
    Readable,
    /// The channel hung up or reported an error.
    Broken,
}

/// What happened on the channel while a request was in flight.
#[derive(Debug, PartialEq, Eq)]
pub enum DispatchEvent {
    /// The caller handed the request over.
    Started,
    /// The write call returned `count`.
    Written { count: isize },
    /// The poll call returned `ready`, with `revents` for the channel.
    Polled { ready: i32, revents: i16 },
    /// The read call returned `count` and left its bytes at the start of
    /// `buffer`.
    Received { count: isize, buffer: Vec<u8> },
    /// The time since the write, or `None` if the clock could not tell.
    Clock { elapsed: Option<Duration> },
}

/// What to do next for a request in flight.
#[derive(Debug, PartialEq, Eq)]
pub enum DispatchAction {
    /// Write `frame` to the channel in one call.
    Write { frame: Vec<u8> },
    /// Wait for readiness for one slice.
    Poll,
    /// Read once into a buffer of `READ_BUFFER_LEN` bytes.
    Read,
    /// Measure the time since the write.
    ReadClock,
    /// The exchange is over.
    Finish { outcome: Result<(), Error> },
}

/// How a poll result is read: the channel counts only if the call reported
/// it; it can be read if the readable bit is set, and is broken otherwise.
pub open spec fn readiness(ready: i32, revents: i16) -> Readiness {
    if ready > 0 && revents > 0 {
        if revents & POLL_READABLE > 0 {
            Readiness::Readable
        } else {
            Readiness::Broken
        }
    } else {
        Readiness::Quiet
    }
}

/// Whether a frame starts like a reply to a command.
pub open spec fn starts_like_reply(frame: Seq<u8>) -> bool {
    frame.len() > 0 && (frame[0] == COMMAND_RESPONSE_EVENT || frame[0] == COMMAND_STATUS_EVENT)
}

/// Whether a read failed: it returned nothing or an error, or it claims more
/// bytes than its buffer holds.
pub open spec fn read_failed(count: isize, buffer: Seq<u8>) -> bool {
    count <= 0 || count > buffer.len()
}

/// The frame that a read left: the first `count` bytes of its buffer.
pub open spec fn frame_read(count: isize, buffer: Seq<u8>) -> Seq<u8>
    recommends
        !read_failed(count, buffer),
{
    buffer.subrange(0, count as int)
}

/// Whether the engine takes what was read as the reply to `cmd`: the frame
/// that was read starts like a reply, and the request recognises it.
pub open spec fn accepts<C: Command>(cmd: C, count: isize, buffer: Seq<u8>) -> bool {
    &&& !read_failed(count, buffer)
    &&& starts_like_reply(frame_read(count, buffer))
    &&& cmd.matches(frame_read(count, buffer))
}

/// Whether `event` is a look at the clock that found more time passed than
/// `limit`.
pub open spec fn timed_out(event: DispatchEvent, limit: Duration) -> bool {
    event matches DispatchEvent::Clock { elapsed: Some(span) } && span_nanos(span) > span_nanos(
        limit,
    )
}

/// Reads a poll result.
pub fn classify_poll(ready: i32, revents: i16) -> (found: Readiness)
    ensures
        found == readiness(ready, revents),
{
    if ready > 0 && revents > 0 {
        if revents & POLL_READABLE > 0 {
            Readiness::Readable
        } else {
            Readiness::Broken
        }
    } else {
        Readiness::Quiet
    }
}

/// What follows an event of the setup: a socket that could not be opened is
/// a `SocketError`, one that could not be bound a `BindError`.
pub open spec fn setup_verdict(event: SetupEvent) -> SetupAction {
    match event {
        SetupEvent::Opened { fd } => if fd < 0 {
            SetupAction::Fail { error: Error::SocketError }
        } else {
            SetupAction::Bind { fd }
        },
        SetupEvent::Bound { fd, status } => if status < 0 {
            SetupAction::Fail { error: Error::BindError }
        } else {
            SetupAction::Ready { channel: BTMgmt { fd } }
        },
    }
}

/// One step of setting up a channel.
pub fn setup_step(event: SetupEvent) -> (action: SetupAction)
    ensures
        action == setup_verdict(event),
{
    match event {
        SetupEvent::Opened { fd } => {
            if fd < 0 {
                SetupAction::Fail { error: Error::SocketError }
            } else {
                SetupAction::Bind { fd }
            }
        },
        SetupEvent::Bound { fd, status } => {
            if status < 0 {
                SetupAction::Fail { error: Error::BindError }
            } else {
                SetupAction::Ready { channel: BTMgmt { fd } }
            }
        },
    }
}

/// The end of an exchange that failed for a reason of the channel.
pub open spec fn broken_off() -> DispatchAction {
    DispatchAction::Finish { outcome: Err(Error::UnknownError) }
}

/// What follows a write: a poll, unless the write failed.
pub open spec fn after_write(count: isize) -> DispatchAction {
    if count < 0 {
        broken_off()
    } else {
        DispatchAction::Poll
    }
}

/// What follows a poll: a read if there is something to read, the end if the
/// channel is broken, and a look at the clock otherwise.
pub open spec fn after_poll(ready: i32, revents: i16) -> DispatchAction {
    match readiness(ready, revents) {
        Readiness::Readable => DispatchAction::Read,
        Readiness::Broken => broken_off(),
        Readiness::Quiet => DispatchAction::ReadClock,
    }
}

/// What follows a look at the clock: the exchange times out once more time
/// has passed than `limit`, and not before.
pub open spec fn after_clock(elapsed: Option<Duration>, limit: Duration) -> DispatchAction {
    match elapsed {
        None => broken_off(),
        Some(span) => if span_nanos(span) > span_nanos(limit) {
            DispatchAction::Finish { outcome: Err(Error::Timeout) }
        } else {
            DispatchAction::Poll
        },
    }
}

/// One step of the exchange for `cmd`.
///
/// The request is written once. After that the engine polls. Of a read it
/// takes the bytes that were read and no more of the buffer: a frame that
/// starts like a reply and that the request recognises is stored as it was
/// read and ends the exchange; every other frame is dropped. After every poll that
/// did not end the exchange the clock is read, and the exchange fails with
/// `Timeout` once more time has passed than the request allows. A failed
/// write or read, a broken channel and a clock that cannot tell the time
/// fail it with `UnknownError`.
pub fn dispatch_step<C: Command>(cmd: &mut C, event: DispatchEvent) -> (action: DispatchAction)
    ensures
        match event {
            DispatchEvent::Started => {
                &&& action matches DispatchAction::Write { frame }
                &&& frame@ == request_frame(old(cmd).code(), old(cmd).index(), old(cmd).params())
                &&& *final(cmd) == *old(cmd)
            },
            DispatchEvent::Written { count } => {
                &&& action == after_write(count)
                &&& *final(cmd) == *old(cmd)
            },
            DispatchEvent::Polled { ready, revents } => {
                &&& action == after_poll(ready, revents)
                &&& *final(cmd) == *old(cmd)
            },
            DispatchEvent::Received { count, buffer } => {
                if read_failed(count, buffer@) {
                    &&& action == broken_off()
                    &&& *final(cmd) == *old(cmd)
                } else if accepts(*old(cmd), count, buffer@) {
                    &&& action == (DispatchAction::Finish { outcome: Ok(()) })
                    &&& final(cmd).response() == frame_read(count, buffer@)
                    &&& final(cmd).code() == old(cmd).code()
                    &&& final(cmd).index() == old(cmd).index()
                    &&& final(cmd).params() == old(cmd).params()
                    &&& final(cmd).timeout() == old(cmd).timeout()
                    &&& final(cmd).target() == old(cmd).target()
                    &&& forall|frame: Seq<u8>| final(cmd).matches(frame) == old(cmd).matches(frame)
                } else {
                    &&& action == DispatchAction::ReadClock
                    &&& *final(cmd) == *old(cmd)
                }
            },
            DispatchEvent::Clock { elapsed } => {
                &&& action == after_clock(elapsed, old(cmd).timeout())
                &&& *final(cmd) == *old(cmd)
            },
        },
        action == (DispatchAction::Finish { outcome: Err(Error::Timeout) }) ==> timed_out(
            event,
            old(cmd).timeout(),
        ),
{
    match event {
        DispatchEvent::Started => DispatchAction::Write { frame: cmd.to_bytes() },
        DispatchEvent::Written { count } => {
            if count < 0 {
                DispatchAction::Finish { outcome: Err(Error::UnknownError) }
            } else {
                DispatchAction::Poll
            }
        },
        DispatchEvent::Polled { ready, revents } => {
            match classify_poll(ready, revents) {
                Readiness::Readable => DispatchAction::Read,
                Readiness::Broken => DispatchAction::Finish { outcome: Err(Error::UnknownError) },
                Readiness::Quiet => DispatchAction::ReadClock,
            }
        },
        DispatchEvent::Received { count, buffer } => {
            if count <= 0 || count as usize > buffer.len() {
                return DispatchAction::Finish { outcome: Err(Error::UnknownError) };
            }
            let mut frame = buffer;
            frame.truncate(count as usize);
            if (frame[0] == COMMAND_RESPONSE_EVENT || frame[0] == COMMAND_STATUS_EVENT)
                && cmd.is_response(frame.as_slice()) {
                cmd.store_response(frame);
                DispatchAction::Finish { outcome: Ok(()) }
            } else {
                DispatchAction::ReadClock
            }
        },
        DispatchEvent::Clock { elapsed } => {
            match elapsed {
                None => DispatchAction::Finish { outcome: Err(Error::UnknownError) },
                Some(span) => {
                    let limit = cmd.get_timeout();
                    if exceeds(&span, &limit) {
                        DispatchAction::Finish { outcome: Err(Error::Timeout) }
                    } else {
                        DispatchAction::Poll
                    }
                },
            }
        },
    }
}

impl BTMgmt {
    /// The request for the devices connected to a controller, as the
    /// transport sends it: with one second to wait for the reply.
    pub fn get_connections(&self, ctrl_index: u16) -> (cmd: GetConnectionsCommand)
        ensures
            cmd.index() == ctrl_index,
            span_nanos(cmd.timeout()) == REQUEST_TIMEOUT_SECS * 1_000_000_000,
            cmd.response() == Seq::<u8>::empty(),
    {
        GetConnectionsCommand::new(ctrl_index, Duration::from_secs(REQUEST_TIMEOUT_SECS))
    }

    /// The request for the signal figures of the connection to `address`,
    /// with one second to wait for the reply.
    pub fn get_connection_info(&self, ctrl_index: u16, address: &Address) -> (cmd:
        GetConnectionInfoCommand)
        ensures
            cmd.index() == ctrl_index,
            cmd.device() == *address,
            span_nanos(cmd.timeout()) == REQUEST_TIMEOUT_SECS * 1_000_000_000,
            cmd.response() == Seq::<u8>::empty(),
    {
        GetConnectionInfoCommand::new(
            ctrl_index,
            address,
            Duration::from_secs(REQUEST_TIMEOUT_SECS),
        )
    }

    /// The request to add `address` to a controller's list, with one second
    /// to wait for the reply.
    pub fn add_device(&self, ctrl_index: u16, address: &Address) -> (cmd: AddDeviceCommand)
        ensures
            cmd.index() == ctrl_index,
            cmd.device() == *address,
            span_nanos(cmd.timeout()) == REQUEST_TIMEOUT_SECS * 1_000_000_000,
            cmd.response() == Seq::<u8>::empty(),
    {
        AddDeviceCommand::new(ctrl_index, address, Duration::from_secs(REQUEST_TIMEOUT_SECS))
    }
}

} // verus!
