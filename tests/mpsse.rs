use ftdi_mpsse::mpsse::{check_sync, clock_command};
use ftdi_mpsse::{ControlTransfer, DeviceType, Error, Interface, InterfaceInfo, InterfaceType, Op};

fn chip(device_type: DeviceType) -> Interface {
    let info = InterfaceInfo { dev: 0, device_type, num: 0, kind: InterfaceType::Mpsse };
    info.open(512)
}

#[test]
fn clock_divisor_high_speed_family() {
    for dt in [DeviceType::FT232H, DeviceType::FT2232H, DeviceType::FT4232H] {
        let i = chip(dt);
        assert_eq!(i.clock_divisor(6_000_000), Ok((0, Some(true))));
        assert_eq!(i.clock_divisor(3_000_000), Ok((1, Some(true))));
        assert_eq!(i.clock_divisor(30_000_000), Ok((0, Some(false))));
        assert_eq!(i.clock_divisor(15_000_000), Ok((1, Some(false))));
        assert_eq!(i.clock_divisor(1_000_000), Ok((5, Some(true))));
        assert_eq!(i.clock_divisor(10_000_000), Ok((2, Some(false))));
    }
}

#[test]
fn clock_divisor_ft2232c() {
    let i = chip(DeviceType::FT2232C);
    assert_eq!(i.clock_divisor(1_000_000), Ok((5, None)));
    assert_eq!(i.clock_divisor(6_000_000), Ok((0, None)));
    assert_eq!(i.clock_divisor(7_000_000), Err(Error::InvalidFrequency(7_000_000)));
}

#[test]
fn clock_divisor_rejects_unreachable_frequencies() {
    let i = chip(DeviceType::FT232H);
    assert_eq!(i.clock_divisor(0), Err(Error::InvalidFrequency(0)));
    assert_eq!(i.clock_divisor(30_000_001), Err(Error::InvalidFrequency(30_000_001)));
    assert_eq!(i.clock_divisor(91), Err(Error::InvalidFrequency(91)));
    assert_eq!(i.clock_divisor(92), Ok((65_216, Some(true))));
}

#[test]
fn clock_commands() {
    assert_eq!(clock_command(0x1234, Some(true)), vec![0x8b, 0x86, 0x34, 0x12]);
    assert_eq!(clock_command(5, Some(false)), vec![0x8a, 0x86, 0x05, 0x00]);
    assert_eq!(clock_command(5, None), vec![0x86, 0x05, 0x00]);
    let i = chip(DeviceType::FT232H);
    assert_eq!(i.set_frequency(1_000_000), Ok(Op::Write(vec![0x8b, 0x86, 0x05, 0x00])));
    assert_eq!(i.set_frequency(0), Err(Error::InvalidFrequency(0)));
    assert_eq!(i.set_clock(0x0102, None), Op::Write(vec![0x86, 0x02, 0x01]));
}

#[test]
fn sync_accepts_only_bad_command_echo() {
    assert_eq!(check_sync(0xfa, 0xab), Ok(()));
    assert_eq!(check_sync(0xab, 0xfa), Err(Error::SynchronizationFailed(0xab, 0xfa)));
    assert_eq!(check_sync(0xfa, 0xaa), Err(Error::SynchronizationFailed(0xfa, 0xaa)));
    assert_eq!(check_sync(0x00, 0x00), Err(Error::SynchronizationFailed(0x00, 0x00)));
    for b0 in 0..=255u8 {
        for b1 in 0..=255u8 {
            assert_eq!(check_sync(b0, b1).is_ok(), b0 == 0xfa && b1 == 0xab);
        }
    }
}

#[test]
fn handshake_and_simple_commands() {
    let i = chip(DeviceType::FT232H);
    assert_eq!(i.synchronize_mpsse(), vec![Op::Write(vec![0x84, 0xab, 0x85]), Op::AwaitSync]);
    assert_eq!(i.enable_3phase_clocking(), Op::Write(vec![0x8c]));
    assert_eq!(i.disable_3phase_clocking(), Op::Write(vec![0x8d]));
    assert_eq!(i.set_low_data_bits(0x08, 0x0b), Op::Write(vec![0x80, 0x08, 0x0b]));
    assert_eq!(i.set_high_data_bits(0x01, 0xff), Op::Write(vec![0x82, 0x01, 0xff]));
}

#[test]
fn initialization_sequence() {
    let info = InterfaceInfo { dev: 0, device_type: DeviceType::FT2232H, num: 1, kind: InterfaceType::Mpsse };
    let i = info.open(64);
    let purge = vec![
        Op::Control(ControlTransfer::Out { request: 0, value: 1, index: 2 }),
        Op::Discard(64),
        Op::Control(ControlTransfer::Out { request: 0, value: 2, index: 2 }),
    ];
    let mut expected = purge.clone();
    expected.push(Op::Control(ControlTransfer::Out { request: 0x0b, value: 0x0000, index: 2 }));
    expected.push(Op::Control(ControlTransfer::Out { request: 0x0b, value: 0x0200, index: 2 }));
    expected.extend(purge.clone());
    expected.push(Op::Write(vec![0x84, 0xab, 0x85]));
    expected.push(Op::AwaitSync);
    expected.extend(purge);
    assert_eq!(i.initialize_mpsse(), expected);
}
