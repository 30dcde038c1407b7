use ftdi_mpsse::{
    list_devices, list_interfaces, DeviceInfo, DeviceType, Error, Interface, InterfaceInfo,
    InterfaceType, UsbDevice,
};

fn usb(vendor_id: u16, device_version: u16, serial: &str) -> UsbDevice {
    UsbDevice { vendor_id, device_version, serial_number: Some(serial.to_string()) }
}

fn iface(dev: usize, device_type: DeviceType, num: u8, kind: InterfaceType) -> InterfaceInfo {
    InterfaceInfo { dev, device_type, num, kind }
}

fn host() -> Vec<UsbDevice> {
    vec![
        usb(0x1d6b, 0x0800, "HUB"),
        usb(0x0403, 0x0800, "QUAD"),
        usb(0x0403, 0x1234, "ODD"),
        usb(0x0403, 0x0900, "SINGLE"),
        usb(0x0403, 0x0600, "UART"),
        usb(0x0403, 0x0700, "SINGLE"),
    ]
}

#[test]
fn unknown_version_is_reported_and_enumeration_goes_on() {
    let r = list_devices(&host());
    assert_eq!(r.len(), 5);
    assert_eq!(
        r[0],
        Ok(DeviceInfo {
            dev: 1,
            device_type: DeviceType::FT4232H,
            interfaces: vec![
                iface(1, DeviceType::FT4232H, 0, InterfaceType::Mpsse),
                iface(1, DeviceType::FT4232H, 1, InterfaceType::Mpsse),
                iface(1, DeviceType::FT4232H, 2, InterfaceType::Uart),
                iface(1, DeviceType::FT4232H, 3, InterfaceType::Uart),
            ],
        })
    );
    assert_eq!(r[1], Err(Error::UnsupportedDevice(0x1234)));
    assert_eq!(
        r[2],
        Ok(DeviceInfo {
            dev: 3,
            device_type: DeviceType::FT232H,
            interfaces: vec![iface(3, DeviceType::FT232H, 0, InterfaceType::Mpsse)],
        })
    );
    assert_eq!(
        r[3],
        Ok(DeviceInfo {
            dev: 4,
            device_type: DeviceType::FT232H,
            interfaces: vec![iface(4, DeviceType::FT232H, 0, InterfaceType::Uart)],
        })
    );
    assert_eq!(r[4].as_ref().map(|d| d.device_type), Ok(DeviceType::FT232H));
}

#[test]
fn no_devices() {
    assert!(list_devices(&vec![]).is_empty());
    assert!(list_interfaces(&vec![usb(0x1234, 0x0800, "X")]).is_empty());
}

#[test]
fn interfaces_are_flattened_in_order() {
    let r = list_interfaces(&host());
    let nums: Vec<(usize, u8)> = r.iter().map(|i| (i.dev, i.num)).collect();
    assert_eq!(nums, vec![(1, 0), (1, 1), (1, 2), (1, 3), (3, 0), (4, 0), (5, 0)]);
}

#[test]
fn lookup_by_serial_and_port() {
    let h = host();
    assert_eq!(
        Interface::with_serial_number(&h, &"QUAD".to_string(), 2),
        Ok(iface(1, DeviceType::FT4232H, 2, InterfaceType::Uart))
    );
    assert_eq!(
        Interface::with_serial_number(&h, &"SINGLE".to_string(), 0),
        Ok(iface(3, DeviceType::FT232H, 0, InterfaceType::Mpsse))
    );
    assert_eq!(Interface::with_serial_number(&h, &"SINGLE".to_string(), 1), Err(Error::DeviceNotFound));
    assert_eq!(Interface::with_serial_number(&h, &"HUB".to_string(), 0), Err(Error::DeviceNotFound));
    assert_eq!(Interface::with_serial_number(&h, &"ODD".to_string(), 0), Err(Error::DeviceNotFound));
    assert_eq!(Interface::with_serial_number(&h, &"NONE".to_string(), 0), Err(Error::DeviceNotFound));
}

#[test]
fn device_without_serial_is_never_found() {
    let h = vec![UsbDevice { vendor_id: 0x0403, device_version: 0x0900, serial_number: None }];
    assert_eq!(Interface::with_serial_number(&h, &String::new(), 0), Err(Error::DeviceNotFound));
}
