//! The event listener: which frames of a control channel it decodes, which
//! of them it forwards, and in which order it is shut down.
//!
//! The channel, the worker that reads it and the queue that takes the events
//! are the caller's: the listener is told what happened and answers with what
//! to do next.

use crate::address::{holds_address, Address};
use crate::frame::{field_at, read_field, HEADER_LEN};
use crate::transport::{classify_poll, readiness, Readiness};
use vstd::prelude::*;

verus! {

pub const BTMGMT_EVENT_CODE_DEVICE_CONNECTED: u16 = 0x000b;

pub const BTMGMT_EVENT_CODE_DEVICE_DISCONNECTED: u16 = 0x000c;

pub const BTMGMT_EVENT_DEVICE_DISCONNECTED_REASON_UNSPECIFIED: u8 = 0x00;

pub const BTMGMT_EVENT_DEVICE_DISCONNECTED_REASON_CONNECTION_TIMEOUT: u8 = 0x01;

pub const BTMGMT_EVENT_DEVICE_DISCONNECTED_REASON_TERMINATE_LOCAL: u8 = 0x02;

pub const BTMGMT_EVENT_DEVICE_DISCONNECTED_REASON_TERMINATE_REMOTE: u8 = 0x03;

pub const BTMGMT_EVENT_DEVICE_DISCONNECTED_REASON_AUTH_FAILURE: u8 = 0x04;

/// Bytes in the record of a disconnect event: the header, seven of the
/// address and one of the reason.
pub const EVENT_RECORD_LEN: usize = 14;

/// The size of the buffer that one read of the listener fills.
pub const EVENT_BUFFER_LEN: usize = 128;

/// A decoded disconnect event.
#[derive(Debug, Clone, Copy, PartialEq, Eq)]
pub struct BtmgmtEventPacketStructure {
    pub event_code: u16,
    pub controller_index: u16,
    pub param_lenght: u16,
    pub device_address: Address,
    pub disconnect_reason: u8,
}

/// Whether `record` is what the first fourteen bytes of `frame` spell.
pub open spec fn spells(frame: Seq<u8>, record: BtmgmtEventPacketStructure) -> bool
    recommends
        frame.len() >= 14,
{
    &&& record.event_code == field_at(frame, 0)
    &&& record.controller_index == field_at(frame, 2)
    &&& record.param_lenght == field_at(frame, 4)
    &&& holds_address(frame, 6, record.device_address)
    &&& record.disconnect_reason == frame[13]
}

/// The events that the listener forwards: disconnects after a failed
/// authentication.
pub open spec fn is_wanted(record: BtmgmtEventPacketStructure) -> bool {
    &&& record.event_code == BTMGMT_EVENT_CODE_DEVICE_DISCONNECTED
    &&& record.disconnect_reason == BTMGMT_EVENT_DEVICE_DISCONNECTED_REASON_AUTH_FAILURE
}

/// Whether a read of `count` bytes into `buffer` left an event to forward:
/// exactly one record was read, and it is wanted.
pub open spec fn is_forwarded(count: isize, buffer: Seq<u8>) -> bool {
    &&& count == EVENT_RECORD_LEN
    &&& buffer.len() >= 14
    &&& field_at(buffer, 0) == BTMGMT_EVENT_CODE_DEVICE_DISCONNECTED
    &&& buffer[13] == BTMGMT_EVENT_DEVICE_DISCONNECTED_REASON_AUTH_FAILURE
}

impl BtmgmtEventPacketStructure {
    /// Decodes the record at the start of `buffer`, if `buffer` holds one.
    pub fn decode(buffer: &[u8]) -> (decoded: Option<BtmgmtEventPacketStructure>)
        ensures
            decoded is Some <==> buffer@.len() >= 14,
            decoded matches Some(record) ==> spells(buffer@, record),
    {
        if buffer.len() < EVENT_RECORD_LEN {
            return None;
        }
        Some(
            BtmgmtEventPacketStructure {
                event_code: read_field(buffer, 0),
                controller_index: read_field(buffer, 2),
                param_lenght: read_field(buffer, 4),
                device_address: Address::read_at(buffer, HEADER_LEN),
                disconnect_reason: buffer[13],
            },
        )
    }

    /// Whether the listener forwards the event.
    pub fn wanted(&self) -> (yes: bool)
        ensures
            yes == is_wanted(*self),
    {
        self.event_code == BTMGMT_EVENT_CODE_DEVICE_DISCONNECTED && self.disconnect_reason
            == BTMGMT_EVENT_DEVICE_DISCONNECTED_REASON_AUTH_FAILURE
    }
}

/// What happened to the worker of a listener.
#[derive(Debug, PartialEq, Eq)]
pub enum ListenerEvent {
    /// The running flag was read.
    Flag { running: bool },
    /// The poll call returned `ready`, with `revents` for the channel.
    Polled { ready: i32, revents: i16 },
    /// The read call returned `count` and left `buffer`.
    Received { count: isize, buffer: Vec<u8> },
    /// The queue took the event, or its receiving side is gone.
    Sent { delivered: bool },
}

/// What the worker of a listener does next.
#[derive(Debug, Clone, Copy, PartialEq, Eq)]
pub enum ListenerAction {
    /// Read the running flag.
    CheckFlag,
    /// Wait for readiness for one slice.
    Poll,
    /// Read once into a buffer of `EVENT_BUFFER_LEN` bytes.
    Read,
    /// Put `record` on the queue, waiting for room if the queue is full.
    Send { record: BtmgmtEventPacketStructure },
    /// Stop.
    Exit,
}

/// What follows a look at the running flag: a poll while it is up, the end
/// once it is down.
pub open spec fn after_flag(running: bool) -> ListenerAction {
    if running {
        ListenerAction::Poll
    } else {
        ListenerAction::Exit
    }
}

/// What follows a poll: a read if there is something to read, and another
/// look at the flag otherwise.
pub open spec fn after_wait(ready: i32, revents: i16) -> ListenerAction {
    if readiness(ready, revents) == Readiness::Readable {
        ListenerAction::Read
    } else {
        ListenerAction::CheckFlag
    }
}

/// What follows a send: another look at the flag, or the end if the queue
/// has lost its receiver.
pub open spec fn after_send(delivered: bool) -> ListenerAction {
    if delivered {
        ListenerAction::CheckFlag
    } else {
        ListenerAction::Exit
    }
}

/// One step of a listener's worker.
///
/// The worker reads the running flag before every poll and stops once the
/// flag is down. It reads only when the poll found the channel readable, and
/// forwards what it read only if that is exactly one wanted record; every
/// other frame is dropped. It stops when the queue has lost its receiver.
pub fn listener_step(event: ListenerEvent) -> (action: ListenerAction)
    ensures
        match event {
            ListenerEvent::Flag { running } => action == after_flag(running),
            ListenerEvent::Polled { ready, revents } => action == after_wait(ready, revents),
            ListenerEvent::Received { count, buffer } => if is_forwarded(count, buffer@) {
                action matches ListenerAction::Send { record } && spells(buffer@, record)
            } else {
                action == ListenerAction::CheckFlag
            },
            ListenerEvent::Sent { delivered } => action == after_send(delivered),
        },
{
    match event {
        ListenerEvent::Flag { running } => {
            if running {
                ListenerAction::Poll
            } else {
                ListenerAction::Exit
            }
        },
        ListenerEvent::Polled { ready, revents } => {
            match classify_poll(ready, revents) {
                Readiness::Readable => ListenerAction::Read,
                _ => ListenerAction::CheckFlag,
            }
        },
        ListenerEvent::Received { count, buffer } => {
            if count != 14 {
                return ListenerAction::CheckFlag;
            }
            match BtmgmtEventPacketStructure::decode(buffer.as_slice()) {
                Some(record) => {
                    if record.wanted() {
                        ListenerAction::Send { record }
                    } else {
                        ListenerAction::CheckFlag
                    }
                },
                None => ListenerAction::CheckFlag,
            }
        },
        ListenerEvent::Sent { delivered } => {
            if delivered {
                ListenerAction::CheckFlag
            } else {
                ListenerAction::Exit
            }
        },
    }
}

/// Where a listener stands between its start and the release of its channel.
#[derive(Debug, Clone, Copy, PartialEq, Eq, Structural)]
pub enum ListenerPhase {
    /// The worker runs.
    Running,
    /// The running flag is down; the worker may still be reading.
    Stopping,
    /// The worker has ended.
    Joined,
    /// The channel is closed.
    Closed,
}

/// What the owner of a listener does next to shut it down.
#[derive(Debug, Clone, Copy, PartialEq, Eq, Structural)]
pub enum ShutdownAction {
    /// Take the running flag down.
    ClearFlag,
    /// Wait until the worker has ended.
    Join,
    /// Close the channel.
    Close,
    /// Nothing is left to do.
    Nothing,
}

impl ListenerPhase {
    /// The phase after this one.
    pub open spec fn next(self) -> ListenerPhase {
        match self {
            ListenerPhase::Running => ListenerPhase::Stopping,
            ListenerPhase::Stopping => ListenerPhase::Joined,
            ListenerPhase::Joined => ListenerPhase::Closed,
            ListenerPhase::Closed => ListenerPhase::Closed,
        }
    }

    /// What the owner does to leave this phase.
    pub open spec fn duty(self) -> ShutdownAction {
        match self {
            ListenerPhase::Running => ShutdownAction::ClearFlag,
            ListenerPhase::Stopping => ShutdownAction::Join,
            ListenerPhase::Joined => ShutdownAction::Close,
            ListenerPhase::Closed => ShutdownAction::Nothing,
        }
    }

    /// The phase reached from this one after `steps` steps.
    pub open spec fn after(self, steps: nat) -> ListenerPhase
        decreases steps,
    {
        if steps == 0 {
            self
        } else {
            self.next().after((steps - 1) as nat)
        }
    }
}

/// One step of shutting a listener down: the flag goes down first, then the
/// worker is joined, and only then is the channel closed.
pub fn shutdown_step(phase: ListenerPhase) -> (step: (ListenerPhase, ShutdownAction))
    ensures
        step.0 == phase.next(),
        step.1 == phase.duty(),
{
    match phase {
        ListenerPhase::Running => (ListenerPhase::Stopping, ShutdownAction::ClearFlag),
        ListenerPhase::Stopping => (ListenerPhase::Joined, ShutdownAction::Join),
        ListenerPhase::Joined => (ListenerPhase::Closed, ShutdownAction::Close),
        ListenerPhase::Closed => (ListenerPhase::Closed, ShutdownAction::Nothing),
    }
}

/// A running listener's channel is closed in the step that follows the join
/// of its worker, and in no other step.
pub proof fn lemma_close_follows_join(steps: nat)
    ensures
        ListenerPhase::Running.after(steps).duty() == ShutdownAction::Close <==> steps == 2,
        steps >= 1 ==> (ListenerPhase::Running.after(steps).duty() == ShutdownAction::Close
            <==> ListenerPhase::Running.after((steps - 1) as nat).duty() == ShutdownAction::Join),
{
    reveal_with_fuel(ListenerPhase::after, 4);
    if steps > 3 {
        lemma_closed_stays(3, (steps - 3) as nat);
        lemma_closed_stays(3, (steps - 4) as nat);
    }
}

/// A listener that is closed stays closed.
proof fn lemma_closed_stays(reached: nat, more: nat)
    requires
        ListenerPhase::Running.after(reached) == ListenerPhase::Closed,
    ensures
        ListenerPhase::Running.after(reached + more) == ListenerPhase::Closed,
    decreases more,
{
    if more > 0 {
        lemma_closed_stays(reached, (more - 1) as nat);
        lemma_after_step(ListenerPhase::Running, reached + more - 1);
    }
}

/// One more step is the next phase of what the steps before it reached.
proof fn lemma_after_step(start: ListenerPhase, steps: int)
    requires
        steps >= 0,
    ensures
        start.after((steps + 1) as nat) == start.after(steps as nat).next(),
    decreases steps,
{
    reveal_with_fuel(ListenerPhase::after, 3);
    if steps > 0 {
        lemma_after_step(start.next(), steps - 1);
    }
}

} // verus!
