use btmgmt::address::{Address, AddressType};
use btmgmt::listener::{
    listener_step, shutdown_step, BtmgmtEventPacketStructure, ListenerAction, ListenerEvent,
    ListenerPhase, ShutdownAction, BTMGMT_EVENT_CODE_DEVICE_CONNECTED,
    BTMGMT_EVENT_CODE_DEVICE_DISCONNECTED, BTMGMT_EVENT_DEVICE_DISCONNECTED_REASON_AUTH_FAILURE,
    BTMGMT_EVENT_DEVICE_DISCONNECTED_REASON_CONNECTION_TIMEOUT,
    BTMGMT_EVENT_DEVICE_DISCONNECTED_REASON_TERMINATE_LOCAL,
    BTMGMT_EVENT_DEVICE_DISCONNECTED_REASON_TERMINATE_REMOTE,
    BTMGMT_EVENT_DEVICE_DISCONNECTED_REASON_UNSPECIFIED, EVENT_BUFFER_LEN, EVENT_RECORD_LEN,
};

fn event_buffer(code: u16, reason: u8) -> Vec<u8> {
    let mut frame = vec![
        (code & 0xff) as u8,
        (code >> 8) as u8,
        0x02,
        0x01,
        0x08,
        0x00,
        0xFF,
        0xEE,
        0xDD,
        0xCC,
        0xBB,
        0xAA,
        0x02,
        reason,
    ];
    frame.resize(EVENT_BUFFER_LEN, 0);
    frame
}

fn disconnect(reason: u8) -> BtmgmtEventPacketStructure {
    BtmgmtEventPacketStructure {
        event_code: 0x000c,
        controller_index: 0x0102,
        param_lenght: 8,
        device_address: Address::from_string("AA:BB:CC:DD:EE:FF", AddressType::LeRandom).unwrap(),
        disconnect_reason: reason,
    }
}

#[test]
fn event_constants() {
    assert_eq!(BTMGMT_EVENT_CODE_DEVICE_CONNECTED, 0x000b);
    assert_eq!(BTMGMT_EVENT_CODE_DEVICE_DISCONNECTED, 0x000c);
    assert_eq!(BTMGMT_EVENT_DEVICE_DISCONNECTED_REASON_UNSPECIFIED, 0);
    assert_eq!(BTMGMT_EVENT_DEVICE_DISCONNECTED_REASON_CONNECTION_TIMEOUT, 1);
    assert_eq!(BTMGMT_EVENT_DEVICE_DISCONNECTED_REASON_TERMINATE_LOCAL, 2);
    assert_eq!(BTMGMT_EVENT_DEVICE_DISCONNECTED_REASON_TERMINATE_REMOTE, 3);
    assert_eq!(BTMGMT_EVENT_DEVICE_DISCONNECTED_REASON_AUTH_FAILURE, 4);
    assert_eq!(EVENT_RECORD_LEN, 14);
}

#[test]
fn a_record_is_decoded_field_by_field() {
    let record = BtmgmtEventPacketStructure::decode(&event_buffer(0x000c, 4)).unwrap();
    assert_eq!(record, disconnect(4));
    assert_eq!(record.device_address.to_string(), "AA:BB:CC:DD:EE:FF");
    let exact = &event_buffer(0x1234, 0x99)[..14];
    let record = BtmgmtEventPacketStructure::decode(exact).unwrap();
    assert_eq!(record.event_code, 0x1234);
    assert_eq!(record.controller_index, 0x0102);
    assert_eq!(record.param_lenght, 8);
    assert_eq!(record.disconnect_reason, 0x99);
}

#[test]
fn a_short_buffer_holds_no_record() {
    assert_eq!(BtmgmtEventPacketStructure::decode(&event_buffer(0x000c, 4)[..13]), None);
    assert_eq!(BtmgmtEventPacketStructure::decode(&[]), None);
}

#[test]
fn only_failed_authentications_are_wanted() {
    assert!(disconnect(4).wanted());
    for reason in [0u8, 1, 2, 3, 5, 0xFF] {
        assert!(!disconnect(reason).wanted());
    }
    let mut connected = disconnect(4);
    connected.event_code = BTMGMT_EVENT_CODE_DEVICE_CONNECTED;
    assert!(!connected.wanted());
}

#[test]
fn the_worker_stops_when_the_flag_is_down() {
    assert_eq!(listener_step(ListenerEvent::Flag { running: false }), ListenerAction::Exit);
    assert_eq!(listener_step(ListenerEvent::Flag { running: true }), ListenerAction::Poll);
}

#[test]
fn the_worker_reads_only_what_is_readable() {
    assert_eq!(
        listener_step(ListenerEvent::Polled { ready: 1, revents: 0x0001 }),
        ListenerAction::Read
    );
    for (ready, revents) in [(0, 0), (0, 1), (1, 0), (1, 0x0010), (1, 0x0008), (-1, 1)] {
        assert_eq!(
            listener_step(ListenerEvent::Polled { ready, revents }),
            ListenerAction::CheckFlag
        );
    }
}

#[test]
fn a_wanted_record_is_forwarded() {
    assert_eq!(
        listener_step(ListenerEvent::Received { count: 14, buffer: event_buffer(0x000c, 4) }),
        ListenerAction::Send { record: disconnect(4) }
    );
}

#[test]
fn every_wanted_record_is_forwarded() {
    for _ in 0..3 {
        let action =
            listener_step(ListenerEvent::Received { count: 14, buffer: event_buffer(0x000c, 4) });
        assert_eq!(action, ListenerAction::Send { record: disconnect(4) });
        assert_eq!(listener_step(ListenerEvent::Sent { delivered: true }), ListenerAction::CheckFlag);
    }
}

#[test]
fn other_records_are_dropped() {
    for (code, reason) in [(0x000cu16, 0u8), (0x000c, 3), (0x000b, 4), (0x0001, 4), (0x010c, 4)] {
        assert_eq!(
            listener_step(ListenerEvent::Received { count: 14, buffer: event_buffer(code, reason) }),
            ListenerAction::CheckFlag
        );
    }
}

#[test]
fn reads_of_another_size_are_dropped() {
    for count in [-1isize, 0, 13, 15, 128] {
        assert_eq!(
            listener_step(ListenerEvent::Received { count, buffer: event_buffer(0x000c, 4) }),
            ListenerAction::CheckFlag
        );
    }
    assert_eq!(
        listener_step(ListenerEvent::Received { count: 14, buffer: vec![0x0c, 0, 0] }),
        ListenerAction::CheckFlag
    );
}

#[test]
fn the_worker_stops_when_nobody_receives() {
    assert_eq!(listener_step(ListenerEvent::Sent { delivered: false }), ListenerAction::Exit);
    assert_eq!(listener_step(ListenerEvent::Sent { delivered: true }), ListenerAction::CheckFlag);
}

#[test]
fn shutdown_joins_before_it_closes() {
    let mut phase = ListenerPhase::Running;
    let mut actions = vec![];
    for _ in 0..5 {
        let (next, action) = shutdown_step(phase);
        actions.push(action);
        phase = next;
    }
    assert_eq!(
        actions,
        vec![
            ShutdownAction::ClearFlag,
            ShutdownAction::Join,
            ShutdownAction::Close,
            ShutdownAction::Nothing,
            ShutdownAction::Nothing,
        ]
    );
    assert_eq!(phase, ListenerPhase::Closed);
}

#[test]
fn shutdown_steps_one_phase_at_a_time() {
    assert_eq!(
        shutdown_step(ListenerPhase::Running),
        (ListenerPhase::Stopping, ShutdownAction::ClearFlag)
    );
    assert_eq!(
        shutdown_step(ListenerPhase::Stopping),
        (ListenerPhase::Joined, ShutdownAction::Join)
    );
    assert_eq!(shutdown_step(ListenerPhase::Joined), (ListenerPhase::Closed, ShutdownAction::Close));
    assert_eq!(
        shutdown_step(ListenerPhase::Closed),
        (ListenerPhase::Closed, ShutdownAction::Nothing)
    );
}
