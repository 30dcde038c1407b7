//! Device enumeration: vendor filtering, chip classification and port layout.

use vstd::prelude::*;

use crate::error::Error;

verus! {

/// USB vendor identifier of Future Technology Devices International.
pub const FTDI_VENDOR_ID: u16 = 0x0403;

/// Chip family, fixed by the device-version field.
#[derive(Clone, Copy, Debug, PartialEq, Eq, Structural)]
pub enum DeviceType {
    FT4232H,
    FT2232C,
    FT2232H,
    FT232H,
}

/// What a port of a chip can do.
#[derive(Clone, Copy, Debug, PartialEq, Eq, Structural)]
pub enum InterfaceType {
    Mpsse,
    Uart,
}

/// Flow-control setting of a plain UART port.
#[derive(Clone, Copy, Debug, PartialEq, Eq, Structural)]
pub enum FlowControl {
    Disabled,
    RtsCts,
    DtrDsr,
    XonXoff,
}

/// Marker for a port driven through the MPSSE engine.
#[derive(Clone, Copy, Debug, PartialEq, Eq, Structural)]
pub struct MpsseInterface {}

/// Marker for a port driven as a plain UART.
#[derive(Clone, Copy, Debug, PartialEq, Eq, Structural)]
pub struct UartInterface {}

/// What enumeration reads of one USB device on the host.
#[derive(Clone, Debug)]
pub struct UsbDevice {
    pub vendor_id: u16,
    pub device_version: u16,
    pub serial_number: Option<String>,
}

/// An unopened port: the position of its device in the host's device list,
/// the chip family, the zero-based port index and what the port can do.
#[derive(Clone, Copy, Debug, PartialEq, Eq, Structural)]
pub struct InterfaceInfo {
    pub dev: usize,
    pub device_type: DeviceType,
    pub num: u8,
    pub kind: InterfaceType,
}

/// A classified FTDI device and all of its ports.
#[derive(Clone, Debug, PartialEq, Eq)]
pub struct DeviceInfo {
    pub dev: usize,
    pub device_type: DeviceType,
    pub interfaces: Vec<InterfaceInfo>,
}

/// The chip family and port kinds that a device-version field stands for.
pub open spec fn classify(version: u16) -> Option<(DeviceType, Seq<InterfaceType>)> {
    if version == 0x0800 {
        Some(
            (
                DeviceType::FT4232H,
                seq![
                    InterfaceType::Mpsse,
                    InterfaceType::Mpsse,
                    InterfaceType::Uart,
                    InterfaceType::Uart,
                ],
            ),
        )
    } else if version == 0x0900 || version == 0x0700 {
        Some((DeviceType::FT232H, seq![InterfaceType::Mpsse]))
    } else if version == 0x0600 {
        Some((DeviceType::FT232H, seq![InterfaceType::Uart]))
    } else {
        None
    }
}

/// The port descriptors of a supported device at position `dev` of the host list.
pub open spec fn ports(dev: int, dt: DeviceType, kinds: Seq<InterfaceType>) -> Seq<InterfaceInfo> {
    Seq::new(
        kinds.len(),
        |k: int| InterfaceInfo { dev: dev as usize, device_type: dt, num: k as u8, kind: kinds[k] },
    )
}

/// What enumeration reports for the FTDI device `d` at position `dev`.
pub open spec fn describes(r: Result<DeviceInfo, Error>, d: UsbDevice, dev: int) -> bool {
    match classify(d.device_version) {
        Some((dt, kinds)) => match r {
            Ok(info) => info.dev == dev && info.device_type == dt && info.interfaces@ == ports(
                dev,
                dt,
                kinds,
            ),
            Err(_) => false,
        },
        None => r == Err::<DeviceInfo, Error>(Error::UnsupportedDevice(d.device_version)),
    }
}

/// Positions of the FTDI devices in a host device list, in order.
pub open spec fn ftdi_positions(devs: Seq<UsbDevice>) -> Seq<int>
    decreases devs.len(),
{
    if devs.len() == 0 {
        Seq::empty()
    } else {
        let prev = ftdi_positions(devs.drop_last());
        if devs.last().vendor_id == FTDI_VENDOR_ID {
            prev.push(devs.len() - 1)
        } else {
            prev
        }
    }
}

/// All ports of all supported FTDI devices of a host device list, device by device.
pub open spec fn all_ports(devs: Seq<UsbDevice>) -> Seq<InterfaceInfo>
    decreases devs.len(),
{
    if devs.len() == 0 {
        Seq::empty()
    } else {
        let prev = all_ports(devs.drop_last());
        let d = devs.last();
        if d.vendor_id == FTDI_VENDOR_ID {
            match classify(d.device_version) {
                Some((dt, kinds)) => prev + ports(devs.len() - 1, dt, kinds),
                None => prev,
            }
        } else {
            prev
        }
    }
}

/// Whether device `d` is a supported FTDI device with serial number `sn` and a port `port`.
pub open spec fn serial_match(d: UsbDevice, sn: Seq<char>, port: u8) -> bool {
    &&& d.vendor_id == FTDI_VENDOR_ID
    &&& d.serial_number matches Some(s) && s@ == sn
    &&& classify(d.device_version) matches Some((_, kinds)) && (port as int) < kinds.len()
}

proof fn lemma_ftdi_positions_bound(devs: Seq<UsbDevice>)
    ensures
        forall|k: int| 0 <= k < ftdi_positions(devs).len() ==> 0 <= #[trigger] ftdi_positions(devs)[k] < devs.len(),
    decreases devs.len(),
{
    if devs.len() > 0 {
        let prev = ftdi_positions(devs.drop_last());
        lemma_ftdi_positions_bound(devs.drop_last());
        assert forall|k: int| 0 <= k < ftdi_positions(devs).len() implies 0 <= #[trigger] ftdi_positions(devs)[k] < devs.len() by {
            if k < prev.len() {
                assert(ftdi_positions(devs)[k] == prev[k]);
            }
        }
    }
}

/// The port kinds of a device-version field, or the error for an unknown one.
fn port_kinds(version: u16) -> (r: Result<(DeviceType, Vec<InterfaceType>), Error>)
    ensures
        match classify(version) {
            Some((dt, kinds)) => r matches Ok((t, v)) && t == dt && v@ == kinds,
            None => r == Err::<(DeviceType, Vec<InterfaceType>), Error>(Error::UnsupportedDevice(version)),
        },
{
    if version == 0x0800 {
        let v = vec![InterfaceType::Mpsse, InterfaceType::Mpsse, InterfaceType::Uart, InterfaceType::Uart];
        assert(v@ =~= seq![InterfaceType::Mpsse, InterfaceType::Mpsse, InterfaceType::Uart, InterfaceType::Uart]);
        Ok((DeviceType::FT4232H, v))
    } else if version == 0x0900 || version == 0x0700 {
        let v = vec![InterfaceType::Mpsse];
        assert(v@ =~= seq![InterfaceType::Mpsse]);
        Ok((DeviceType::FT232H, v))
    } else if version == 0x0600 {
        let v = vec![InterfaceType::Uart];
        assert(v@ =~= seq![InterfaceType::Uart]);
        Ok((DeviceType::FT232H, v))
    } else {
        Err(Error::UnsupportedDevice(version))
    }
}

/// Classifies the device at position `dev` and lists its ports.
pub(crate) fn device_info(d: &UsbDevice, dev: usize) -> (r: Result<DeviceInfo, Error>)
    ensures
        describes(r, *d, dev as int),
{
    match port_kinds(d.device_version) {
        Ok((dt, kinds)) => {
            let mut interfaces: Vec<InterfaceInfo> = Vec::new();
            let mut k: usize = 0;
            while k < kinds.len()
                invariant
                    k <= kinds@.len() <= 4,
                    interfaces@ =~= ports(dev as int, dt, kinds@).take(k as int),
                decreases kinds.len() - k,
            {
                interfaces.push(InterfaceInfo { dev, device_type: dt, num: k as u8, kind: kinds[k] });
                k += 1;
            }
            assert(interfaces@ =~= ports(dev as int, dt, kinds@));
            Ok(DeviceInfo { dev, device_type: dt, interfaces })
        },
        Err(e) => Err(e),
    }
}

/// Lists the FTDI devices among the host's devices, in order. Each one is
/// classified on its own: an unknown version gives an `UnsupportedDevice`
/// entry for that device and enumeration goes on with the next.
pub fn list_devices(devs: &Vec<UsbDevice>) -> (r: Vec<Result<DeviceInfo, Error>>)
    ensures
        r@.len() == ftdi_positions(devs@).len(),
        forall|k: int|
            0 <= k < r@.len() ==> describes(
                #[trigger] r@[k],
                devs@[ftdi_positions(devs@)[k]],
                ftdi_positions(devs@)[k],
            ),
{
    let mut r: Vec<Result<DeviceInfo, Error>> = Vec::new();
    let mut i: usize = 0;
    while i < devs.len()
        invariant
            i <= devs@.len(),
            r@.len() == ftdi_positions(devs@.take(i as int)).len(),
            forall|k: int|
                0 <= k < r@.len() ==> describes(
                    #[trigger] r@[k],
                    devs@[ftdi_positions(devs@.take(i as int))[k]],
                    ftdi_positions(devs@.take(i as int))[k],
                ),
        decreases devs.len() - i,
    {
        let ghost before = devs@.take(i as int);
        proof {
            assert(devs@.take(i + 1).drop_last() =~= before);
            lemma_ftdi_positions_bound(before);
            assert forall|k: int| 0 <= k < ftdi_positions(before).len() implies
                devs@[#[trigger] ftdi_positions(before)[k]] == devs@.take(i + 1)[ftdi_positions(before)[k]] by {}
        }
        if devs[i].vendor_id == FTDI_VENDOR_ID {
            let info = device_info(&devs[i], i);
            r.push(info);
        }
        i += 1;
    }
    assert(devs@.take(devs@.len() as int) =~= devs@);
    r
}

/// Flattens the ports of every supported FTDI device into one list, device by
/// device; devices of unknown version contribute nothing.
pub fn list_interfaces(devs: &Vec<UsbDevice>) -> (r: Vec<InterfaceInfo>)
    ensures
        r@ == all_ports(devs@),
{
    let mut r: Vec<InterfaceInfo> = Vec::new();
    let mut i: usize = 0;
    while i < devs.len()
        invariant
            i <= devs@.len(),
            r@ == all_ports(devs@.take(i as int)),
        decreases devs.len() - i,
    {
        assert(devs@.take(i + 1).drop_last() =~= devs@.take(i as int));
        if devs[i].vendor_id == FTDI_VENDOR_ID {
            if let Ok(info) = device_info(&devs[i], i) {
                let ghost prev = r@;
                let mut k: usize = 0;
                while k < info.interfaces.len()
                    invariant
                        k <= info.interfaces@.len(),
                        r@ =~= prev + info.interfaces@.take(k as int),
                    decreases info.interfaces.len() - k,
                {
                    r.push(info.interfaces[k]);
                    k += 1;
                }
                assert(info.interfaces@.take(k as int) =~= info.interfaces@);
            }
        }
        i += 1;
    }
    assert(devs@.take(devs@.len() as int) =~= devs@);
    r
}

} // verus!
