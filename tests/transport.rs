use ftdi_mpsse::{
    Bitmode, ControlTransfer, DeviceType, Error, FlowControl, Interface, InterfaceInfo,
    InterfaceType, Op,
};

fn port(num: u8, mps: usize) -> Interface {
    let info = InterfaceInfo { dev: 0, device_type: DeviceType::FT2232H, num, kind: InterfaceType::Mpsse };
    info.open(mps)
}

/// One packet: two status bytes, then the payload.
fn packet(status: [u8; 2], payload: &[u8]) -> Vec<u8> {
    let mut p = status.to_vec();
    p.extend_from_slice(payload);
    p
}

#[test]
fn endpoints_follow_port_index() {
    let expected = [(0u8, 0x81u8, 0x02u8), (1, 0x83, 0x04), (2, 0x85, 0x06), (3, 0x87, 0x08)];
    for (num, ep_in, ep_out) in expected {
        let i = port(num, 64);
        assert_eq!(i.in_endpoint(), ep_in);
        assert_eq!(i.out_endpoint(), ep_out);
    }
}

#[test]
fn control_requests_use_one_based_index() {
    let i = port(1, 64);
    assert_eq!(i.latency_timer(), ControlTransfer::In { request: 0x0a, value: 0, index: 2, length: 1 });
    assert_eq!(i.status(), ControlTransfer::In { request: 0x05, value: 0, index: 2, length: 2 });
    assert_eq!(i.reset(), ControlTransfer::Out { request: 0x00, value: 0, index: 2 });
    assert_eq!(i.set_latency_timer(16), ControlTransfer::Out { request: 0x09, value: 16, index: 2 });
    assert_eq!(i.set_latency_timer(70_000), ControlTransfer::Out { request: 0x09, value: 4464, index: 2 });
}

#[test]
fn bitmode_value_packs_mask_and_mode() {
    let i = port(0, 64);
    assert_eq!(i.set_bitmode(0, Bitmode::Mpsse), ControlTransfer::Out { request: 0x0b, value: 0x0200, index: 1 });
    assert_eq!(i.set_bitmode(0x1b, Bitmode::Ft1284), ControlTransfer::Out { request: 0x0b, value: 0x801b, index: 1 });
    assert_eq!(i.set_bitmode(0xff, Bitmode::Reset), ControlTransfer::Out { request: 0x0b, value: 0x00ff, index: 1 });
}

#[test]
fn event_and_error_chars() {
    let i = port(2, 64);
    assert_eq!(i.set_event_char('~', true), ControlTransfer::Out { request: 0x06, value: 0x017e, index: 3 });
    assert_eq!(i.set_error_char('$', false), ControlTransfer::Out { request: 0x07, value: 0x0024, index: 3 });
    assert_eq!(i.set_event_char('\u{17e}', false), ControlTransfer::Out { request: 0x06, value: 0x007e, index: 3 });
}

#[test]
fn replies_are_parsed() {
    assert_eq!(Interface::parse_latency_timer(&vec![16]), Ok(16));
    assert_eq!(Interface::parse_latency_timer(&vec![]), Err(Error::ShortResponse));
    assert_eq!(Interface::parse_status(&vec![0x31, 0x60]), Ok((0x31, 0x60)));
    assert_eq!(Interface::parse_status(&vec![0x31]), Err(Error::ShortResponse));
}

#[test]
fn placeholders() {
    let i = port(0, 64);
    assert_eq!(i.set_dtr(), Err(Error::NotImplemented));
    assert_eq!(i.clear_dtr(), Err(Error::NotImplemented));
    assert_eq!(i.set_rts(), Err(Error::NotImplemented));
    assert_eq!(i.clear_rts(), Err(Error::NotImplemented));
    assert_eq!(i.set_flow_control(FlowControl::RtsCts), Ok(()));
    assert_eq!(i.set_baudrate(115_200), Ok(()));
}

#[test]
fn read_across_calls_uses_buffer() {
    let mut i = port(0, 64);
    let payload: Vec<u8> = (0u8..62).collect();
    let mut first = i.read_all(10);
    assert!(!first.is_complete());
    i.absorb_transfer(&mut first, &packet([0x31, 0x60], &payload));
    assert!(first.is_complete());
    assert_eq!(first.data, payload[..10].to_vec());
    assert_eq!(i.read_buffer.pending_len(), 52);
    let second = i.read_all(52);
    assert!(second.is_complete());
    assert_eq!(second.data, payload[10..].to_vec());
    assert_eq!(i.read_buffer.pending_len(), 0);
}

#[test]
fn coalesced_packets_and_status_only_packets() {
    let mut i = port(0, 8);
    let mut transfer = packet([1, 2], &[10, 11, 12, 13, 14, 15]);
    transfer.extend(packet([5, 6], &[20, 21, 22, 23, 24, 25]));
    transfer.extend(packet([3, 4], &[]));
    let mut r = i.read_all(7);
    i.absorb_transfer(&mut r, &transfer);
    assert!(r.is_complete());
    assert_eq!(r.data, vec![10, 11, 12, 13, 14, 15, 20]);
    assert_eq!(i.read_buffer.pending_len(), 5);
    let rest = i.read_all(5);
    assert!(rest.is_complete());
    assert_eq!(rest.data, vec![21, 22, 23, 24, 25]);
}

#[test]
fn read_needing_several_transfers() {
    let mut i = port(0, 4);
    let mut r = i.read_all(5);
    i.absorb_transfer(&mut r, &vec![0, 0]);
    assert!(r.data.is_empty());
    i.absorb_transfer(&mut r, &vec![0, 0, 1, 2]);
    assert!(!r.is_complete());
    i.absorb_transfer(&mut r, &vec![0, 0, 3, 4, 0, 0, 5, 6]);
    assert!(r.is_complete());
    assert_eq!(r.data, vec![1, 2, 3, 4, 5]);
    assert_eq!(i.read_buffer.pending_len(), 1);
}

#[test]
fn drained_buffer_is_discarded_before_refill() {
    let mut i = port(0, 64);
    let mut r = i.read_all(2);
    i.absorb_transfer(&mut r, &packet([0, 0], &[1, 2, 3, 4]));
    let partial = i.read_all(5);
    assert!(!partial.is_complete());
    assert_eq!(partial.data, vec![3, 4]);
    assert_eq!(i.read_buffer.pending_len(), 0);
}

#[test]
fn empty_read_is_complete() {
    let mut i = port(0, 64);
    let r = i.read_all(0);
    assert!(r.is_complete());
    assert!(r.data.is_empty());
}

#[test]
fn purge_all_is_repeatable() {
    let mut i = port(0, 64);
    let expected = vec![
        Op::Control(ControlTransfer::Out { request: 0, value: 1, index: 1 }),
        Op::Discard(64),
        Op::Control(ControlTransfer::Out { request: 0, value: 2, index: 1 }),
    ];
    assert_eq!(i.purge_all(), expected);
    let mut r = i.read_all(1);
    i.absorb_transfer(&mut r, &packet([0, 0], &[9, 9, 9]));
    assert_eq!(i.purge_all(), expected);
    assert_eq!(i.purge_rx(), expected[..2].to_vec());
    assert_eq!(i.purge_tx(), expected[2..].to_vec());
}
