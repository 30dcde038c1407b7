//! Host-side driver core for FTDI MPSSE chips (FT2232C/H, FT4232H, FT232H).
//!
//! The library is free of I/O: it classifies devices, derives endpoint
//! addresses, builds the vendor control requests and MPSSE command streams,
//! and owns the read-ahead buffer that strips FTDI's per-packet status bytes.
//! A caller performs the USB transfers it describes and hands back the data.

pub mod command;
pub mod device;
pub mod error;
pub mod mpsse;
pub mod transport;

pub use command::{Bitmode, CommandByte, ControlRequest};
pub use device::{
    list_devices, list_interfaces, DeviceInfo, DeviceType, FlowControl, InterfaceInfo,
    InterfaceType, MpsseInterface, UartInterface, UsbDevice,
};
pub use error::Error;
pub use transport::{ControlTransfer, Interface, Op, ReadAll, ReadBuffer};
