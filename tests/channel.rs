use boards::channel::{
    is_connected, poll_status, transfer_report, DeviceState, InboundBuffer, TransferReport,
    INBOUND_CAPACITY,
};

#[test]
fn connection_tracks_device_state() {
    let states = [
        DeviceState::Default,
        DeviceState::Addressed,
        DeviceState::Configured,
        DeviceState::Suspend,
    ];
    let seen: Vec<bool> = states.iter().map(|s| poll_status(Some(*s))).collect();
    assert_eq!(seen, vec![false, false, true, false]);
}

#[test]
fn only_configured_is_connected() {
    assert!(is_connected(DeviceState::Configured));
    assert!(!is_connected(DeviceState::Default));
    assert!(!is_connected(DeviceState::Addressed));
    assert!(!is_connected(DeviceState::Suspend));
}

#[test]
fn poll_timeout_reads_as_disconnected() {
    assert!(!poll_status(None));
}

#[test]
fn send_that_fits_is_complete() {
    assert_eq!(transfer_report(12, Some(12)), TransferReport::Complete { count: 12 });
}

#[test]
fn oversize_send_is_truncated_to_capacity() {
    assert_eq!(
        transfer_report(200, Some(128)),
        TransferReport::Truncated { kept: 128, dropped: 72 }
    );
}

#[test]
fn send_into_full_transport_drops_everything() {
    assert_eq!(
        transfer_report(5, Some(0)),
        TransferReport::Truncated { kept: 0, dropped: 5 }
    );
}

#[test]
fn send_timeout_is_a_no_op() {
    assert_eq!(transfer_report(5, None), TransferReport::TimedOut);
}

#[test]
fn empty_send_is_complete() {
    assert_eq!(transfer_report(0, Some(0)), TransferReport::Complete { count: 0 });
}

#[test]
fn receive_replaces_previous_contents() {
    let mut buf = InboundBuffer::new();
    assert_eq!(buf.len(), 0);
    assert_eq!(buf.receive(Some(&[1, 2, 3])), TransferReport::Complete { count: 3 });
    assert_eq!(buf.contents(), &[1, 2, 3]);
    assert_eq!(buf.receive(Some(&[9])), TransferReport::Complete { count: 1 });
    assert_eq!(buf.contents(), &[9]);
}

#[test]
fn receive_truncates_to_capacity() {
    let incoming: Vec<u8> = (0..100u8).collect();
    let mut buf = InboundBuffer::new();
    let r = buf.receive(Some(&incoming));
    assert_eq!(r, TransferReport::Truncated { kept: INBOUND_CAPACITY, dropped: 36 });
    assert_eq!(buf.len(), 64);
    assert_eq!(buf.contents(), &incoming[..64]);
}

#[test]
fn receive_of_exactly_capacity_is_complete() {
    let incoming = [7u8; 64];
    let mut buf = InboundBuffer::new();
    assert_eq!(buf.receive(Some(&incoming)), TransferReport::Complete { count: 64 });
    assert_eq!(buf.contents(), &incoming[..]);
}

#[test]
fn receive_timeout_leaves_buffer_unchanged() {
    let mut buf = InboundBuffer::new();
    buf.receive(Some(&[4, 5]));
    assert_eq!(buf.receive(None), TransferReport::TimedOut);
    assert_eq!(buf.contents(), &[4, 5]);
}
