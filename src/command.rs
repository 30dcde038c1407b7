//! Opcode tables: MPSSE commands, bit modes and vendor control requests.

use vstd::prelude::*;

verus! {

/// An MPSSE engine command, identified by its one-byte opcode.
#[derive(Clone, Copy, Debug, PartialEq, Eq, Structural)]
pub enum CommandByte {
    SetDataBitsLowByte,
    GetDataBitsLowByte,
    SetDataBitsHighByte,
    GetDataBitsHighByte,
    EnableLoopback,
    DisableLoopback,
    SetClockFrequency,
    SendImmediate,
    WaitOnIOHigh,
    WaitOnIOLow,
    DisableClockDivide,
    EnableClockDivide,
    Enable3PhaseClocking,
    Disable3PhaseClocking,
    DelayBits,
    DelayBytes,
    EnableAdaptiveClocking,
    DisableAdaptiveClocking,
    EnableDriveOnlyZero,
    WriteBytesPosLsb,
    WriteBytesNegLsb,
    WriteBitsPosLsb,
    WriteBitsNegLsb,
    ReadBytesPosLsb,
    ReadBitsPosLsb,
    ReadBytesNegLsb,
    ReadBitsNegLsb,
    WriteBytesNegReadPosLsb,
    WriteBitsNegReadPosLsb,
    WriteBytesPosReadNegLsb,
    WriteBitsPosReadNegLsb,
    WriteBytesPosMsb,
    WriteBytesNegMsb,
    WriteBitsPosMsb,
    WriteBitsNegMsb,
    ReadBytesPosMsb,
    ReadBitsPosMsb,
    ReadBitsNegMsb,
    ReadBytesNegMsb,
    WriteBytesNegReadPosMsb,
    WriteBytesPosReadNegMsb,
    WriteBitsNegReadPosMsb,
    WriteBitsPosReadNegMsb,
    WriteTmsBitsPos,
    WriteTmsBitsNeg,
    WriteTmsBitsPosReadPos,
    WriteTmsBitsPosReadNeg,
    WriteTmsBitsNegReadPos,
    WriteTmsBitsNegReadNeg,
    Synchronize,
}

impl CommandByte {
    /// The opcode that starts this command in the MPSSE byte stream.
    pub open spec fn spec_byte(self) -> u8 {
        match self {
            CommandByte::SetDataBitsLowByte => 0x80,
            CommandByte::GetDataBitsLowByte => 0x81,
            CommandByte::SetDataBitsHighByte => 0x82,
            CommandByte::GetDataBitsHighByte => 0x83,
            CommandByte::EnableLoopback => 0x84,
            CommandByte::DisableLoopback => 0x85,
            CommandByte::SetClockFrequency => 0x86,
            CommandByte::SendImmediate => 0x87,
            CommandByte::WaitOnIOHigh => 0x88,
            CommandByte::WaitOnIOLow => 0x89,
            CommandByte::DisableClockDivide => 0x8A,
            CommandByte::EnableClockDivide => 0x8B,
            CommandByte::Enable3PhaseClocking => 0x8C,
            CommandByte::Disable3PhaseClocking => 0x8D,
            CommandByte::DelayBits => 0x8E,
            CommandByte::DelayBytes => 0x8F,
            CommandByte::EnableAdaptiveClocking => 0x96,
            CommandByte::DisableAdaptiveClocking => 0x97,
            CommandByte::EnableDriveOnlyZero => 0x9E,
            CommandByte::WriteBytesPosLsb => 0x18,
            CommandByte::WriteBytesNegLsb => 0x19,
            CommandByte::WriteBitsPosLsb => 0x1A,
            CommandByte::WriteBitsNegLsb => 0x1B,
            CommandByte::ReadBytesPosLsb => 0x28,
            CommandByte::ReadBitsPosLsb => 0x2A,
            CommandByte::ReadBytesNegLsb => 0x2C,
            CommandByte::ReadBitsNegLsb => 0x2E,
            CommandByte::WriteBytesNegReadPosLsb => 0x39,
            CommandByte::WriteBitsNegReadPosLsb => 0x3B,
            CommandByte::WriteBytesPosReadNegLsb => 0x3C,
            CommandByte::WriteBitsPosReadNegLsb => 0x3E,
            CommandByte::WriteBytesPosMsb => 0x10,
            CommandByte::WriteBytesNegMsb => 0x11,
            CommandByte::WriteBitsPosMsb => 0x12,
            CommandByte::WriteBitsNegMsb => 0x13,
            CommandByte::ReadBytesPosMsb => 0x20,
            CommandByte::ReadBitsPosMsb => 0x22,
            CommandByte::ReadBitsNegMsb => 0x26,
            CommandByte::ReadBytesNegMsb => 0x24,
            CommandByte::WriteBytesNegReadPosMsb => 0x31,
            CommandByte::WriteBytesPosReadNegMsb => 0x34,
            CommandByte::WriteBitsNegReadPosMsb => 0x33,
            CommandByte::WriteBitsPosReadNegMsb => 0x36,
            CommandByte::WriteTmsBitsPos => 0x4A,
            CommandByte::WriteTmsBitsNeg => 0x4B,
            CommandByte::WriteTmsBitsPosReadPos => 0x6A,
            CommandByte::WriteTmsBitsPosReadNeg => 0x6E,
            CommandByte::WriteTmsBitsNegReadPos => 0x6B,
            CommandByte::WriteTmsBitsNegReadNeg => 0x6F,
            CommandByte::Synchronize => 0xAB,
        }
    }

    /// The opcode that starts this command in the MPSSE byte stream.
    pub fn byte(self) -> (r: u8)
        ensures
            r == self.spec_byte(),
    {
        match self {
            CommandByte::SetDataBitsLowByte => 0x80,
            CommandByte::GetDataBitsLowByte => 0x81,
            CommandByte::SetDataBitsHighByte => 0x82,
            CommandByte::GetDataBitsHighByte => 0x83,
            CommandByte::EnableLoopback => 0x84,
            CommandByte::DisableLoopback => 0x85,
            CommandByte::SetClockFrequency => 0x86,
            CommandByte::SendImmediate => 0x87,
            CommandByte::WaitOnIOHigh => 0x88,
            CommandByte::WaitOnIOLow => 0x89,
            CommandByte::DisableClockDivide => 0x8A,
            CommandByte::EnableClockDivide => 0x8B,
            CommandByte::Enable3PhaseClocking => 0x8C,
            CommandByte::Disable3PhaseClocking => 0x8D,
            CommandByte::DelayBits => 0x8E,
            CommandByte::DelayBytes => 0x8F,
            CommandByte::EnableAdaptiveClocking => 0x96,
            CommandByte::DisableAdaptiveClocking => 0x97,
            CommandByte::EnableDriveOnlyZero => 0x9E,
            CommandByte::WriteBytesPosLsb => 0x18,
            CommandByte::WriteBytesNegLsb => 0x19,
            CommandByte::WriteBitsPosLsb => 0x1A,
            CommandByte::WriteBitsNegLsb => 0x1B,
            CommandByte::ReadBytesPosLsb => 0x28,
            CommandByte::ReadBitsPosLsb => 0x2A,
            CommandByte::ReadBytesNegLsb => 0x2C,
            CommandByte::ReadBitsNegLsb => 0x2E,
            CommandByte::WriteBytesNegReadPosLsb => 0x39,
            CommandByte::WriteBitsNegReadPosLsb => 0x3B,
            CommandByte::WriteBytesPosReadNegLsb => 0x3C,
            CommandByte::WriteBitsPosReadNegLsb => 0x3E,
            CommandByte::WriteBytesPosMsb => 0x10,
            CommandByte::WriteBytesNegMsb => 0x11,
            CommandByte::WriteBitsPosMsb => 0x12,
            CommandByte::WriteBitsNegMsb => 0x13,
            CommandByte::ReadBytesPosMsb => 0x20,
            CommandByte::ReadBitsPosMsb => 0x22,
            CommandByte::ReadBitsNegMsb => 0x26,
            CommandByte::ReadBytesNegMsb => 0x24,
            CommandByte::WriteBytesNegReadPosMsb => 0x31,
            CommandByte::WriteBytesPosReadNegMsb => 0x34,
            CommandByte::WriteBitsNegReadPosMsb => 0x33,
            CommandByte::WriteBitsPosReadNegMsb => 0x36,
            CommandByte::WriteTmsBitsPos => 0x4A,
            CommandByte::WriteTmsBitsNeg => 0x4B,
            CommandByte::WriteTmsBitsPosReadPos => 0x6A,
            CommandByte::WriteTmsBitsPosReadNeg => 0x6E,
            CommandByte::WriteTmsBitsNegReadPos => 0x6B,
            CommandByte::WriteTmsBitsNegReadNeg => 0x6F,
            CommandByte::Synchronize => 0xAB,
        }
    }
}

/// Chip-wide operating mode selected with a `SetBitmode` request.
#[derive(Clone, Copy, Debug, PartialEq, Eq, Structural)]
pub enum Bitmode {
    Reset,
    Bitbang,
    Mpsse,
    Syncbb,
    Mcu,
    Opto,
    Cbus,
    Syncff,
    Ft1284,
}

impl Bitmode {
    /// The mode byte carried in the high half of the request value.
    pub open spec fn spec_mode(self) -> u8 {
        match self {
            Bitmode::Reset => 0x00,
            Bitmode::Bitbang => 0x01,
            Bitmode::Mpsse => 0x02,
            Bitmode::Syncbb => 0x04,
            Bitmode::Mcu => 0x08,
            Bitmode::Opto => 0x10,
            Bitmode::Cbus => 0x20,
            Bitmode::Syncff => 0x40,
            Bitmode::Ft1284 => 0x80,
        }
    }

    /// The mode byte carried in the high half of the request value.
    pub fn mode(self) -> (r: u8)
        ensures
            r == self.spec_mode(),
    {
        match self {
            Bitmode::Reset => 0x00,
            Bitmode::Bitbang => 0x01,
            Bitmode::Mpsse => 0x02,
            Bitmode::Syncbb => 0x04,
            Bitmode::Mcu => 0x08,
            Bitmode::Opto => 0x10,
            Bitmode::Cbus => 0x20,
            Bitmode::Syncff => 0x40,
            Bitmode::Ft1284 => 0x80,
        }
    }
}

/// FTDI vendor control request codes.
#[derive(Clone, Copy, Debug, PartialEq, Eq, Structural)]
pub enum ControlRequest {
    Reset,
    SetModemControl,
    SetFlowControl,
    SetBaudrate,
    SetData,
    GetStatus,
    SetEventChar,
    SetErrorChar,
    SetLatencyTimer,
    GetLatencyTimer,
    SetBitmode,
    ReadPins,
    ReadEeprom,
    WriteEeprom,
    EraseEeprom,
}

impl ControlRequest {
    /// The `bRequest` code of this vendor request.
    pub open spec fn spec_code(self) -> u8 {
        match self {
            ControlRequest::Reset => 0x00,
            ControlRequest::SetModemControl => 0x01,
            ControlRequest::SetFlowControl => 0x02,
            ControlRequest::SetBaudrate => 0x03,
            ControlRequest::SetData => 0x04,
            ControlRequest::GetStatus => 0x05,
            ControlRequest::SetEventChar => 0x06,
            ControlRequest::SetErrorChar => 0x07,
            ControlRequest::SetLatencyTimer => 0x09,
            ControlRequest::GetLatencyTimer => 0x0a,
            ControlRequest::SetBitmode => 0x0b,
            ControlRequest::ReadPins => 0x0c,
            ControlRequest::ReadEeprom => 0x90,
            ControlRequest::WriteEeprom => 0x91,
            ControlRequest::EraseEeprom => 0x92,
        }
    }

    /// The `bRequest` code of this vendor request.
    pub fn code(self) -> (r: u8)
        ensures
            r == self.spec_code(),
    {
        match self {
            ControlRequest::Reset => 0x00,
            ControlRequest::SetModemControl => 0x01,
            ControlRequest::SetFlowControl => 0x02,
            ControlRequest::SetBaudrate => 0x03,
            ControlRequest::SetData => 0x04,
            ControlRequest::GetStatus => 0x05,
            ControlRequest::SetEventChar => 0x06,
            ControlRequest::SetErrorChar => 0x07,
            ControlRequest::SetLatencyTimer => 0x09,
            ControlRequest::GetLatencyTimer => 0x0a,
            ControlRequest::SetBitmode => 0x0b,
            ControlRequest::ReadPins => 0x0c,
            ControlRequest::ReadEeprom => 0x90,
            ControlRequest::WriteEeprom => 0x91,
            ControlRequest::EraseEeprom => 0x92,
        }
    }
}

} // verus!
