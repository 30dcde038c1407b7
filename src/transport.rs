//! The interface transport: endpoint addressing, vendor control requests, and
//! the read-ahead buffer that turns status-prefixed bulk-in packets into a
//! byte stream.
//!
//! Nothing here performs I/O. Requests come out as [`ControlTransfer`] and
//! [`Op`] values; the bytes of each bulk-in transfer go back in through
//! [`Interface::absorb_transfer`].

use vstd::prelude::*;

use crate::command::ControlRequest;
use crate::device::{
    classify, device_info, ports, serial_match, DeviceType, InterfaceInfo, UsbDevice,
    FTDI_VENDOR_ID,
};
use crate::error::Error;

verus! {

/// Timeout of every vendor control transfer, in milliseconds.
pub const CONTROL_TIMEOUT_MS: u64 = 100;

/// Length of the modem/line status header at the start of every bulk-in packet.
pub const STATUS_LEN: usize = 2;

/// A vendor-type, device-recipient control transfer.
#[derive(Clone, Copy, Debug, PartialEq, Eq, Structural)]
pub enum ControlTransfer {
    /// Device to host; at most `length` bytes come back.
    In { request: u8, value: u16, index: u16, length: u16 },
    /// Host to device, with an empty data stage.
    Out { request: u8, value: u16, index: u16 },
}

/// One step for the caller to perform on the USB interface.
#[derive(Clone, Debug, PartialEq, Eq)]
pub enum Op {
    /// Perform this control transfer.
    Control(ControlTransfer),
    /// Perform one bulk-in transfer of this many bytes and drop what it brings.
    Discard(usize),
    /// Send these bytes as one bulk-out transfer.
    Write(Vec<u8>),
    /// Read two bytes with [`Interface::read_all`] and judge them with `check_sync`.
    AwaitSync,
}

/// What an [`Op`] asks for, with its bytes as a sequence.
pub enum OpView {
    Control(ControlTransfer),
    Discard(nat),
    Write(Seq<u8>),
    AwaitSync,
}

impl View for Op {
    type V = OpView;

    open spec fn view(&self) -> OpView {
        match self {
            Op::Control(c) => OpView::Control(*c),
            Op::Discard(n) => OpView::Discard(*n as nat),
            Op::Write(b) => OpView::Write(b@),
            Op::AwaitSync => OpView::AwaitSync,
        }
    }
}

/// The steps of a list of operations.
pub open spec fn plan(ops: Seq<Op>) -> Seq<OpView> {
    ops.map_values(|o: Op| o@)
}

/// Appends `more` to `ops`.
pub(crate) fn append_ops(ops: &mut Vec<Op>, more: Vec<Op>)
    ensures
        plan(final(ops)@) == plan(old(ops)@) + plan(more@),
{
    let ghost added = more@;
    let mut more = more;
    ops.append(&mut more);
    assert(plan(ops@) =~= plan(old(ops)@) + plan(added));
}

/// The payload bytes of one bulk-in transfer: the data is cut into chunks of
/// `mps` bytes (the last may be shorter); each chunk longer than the status
/// header gives the bytes after it, and a shorter chunk gives nothing.
pub open spec fn payload(data: Seq<u8>, mps: nat) -> Seq<u8>
    decreases data.len(),
{
    if mps == 0 || data.len() == 0 {
        Seq::empty()
    } else {
        let n: int = if data.len() < mps { data.len() as int } else { mps as int };
        let chunk = data.take(n);
        let body = if n > 2 { chunk.skip(2) } else { Seq::empty() };
        body + payload(data.skip(n), mps)
    }
}

/// The smaller of two integers.
pub open spec fn min(a: int, b: int) -> int {
    if a < b { a } else { b }
}

/// The request that purges one FIFO of a port: value 1 for receive, 2 for transmit.
pub open spec fn purge_request(index: u16, value: u16) -> OpView {
    OpView::Control(ControlTransfer::Out { request: 0x00, value, index })
}

/// Purging the receive FIFO: the request, then one throwaway bulk-in
/// transfer of a packet's size to drop data already on its way.
pub open spec fn purge_rx_plan(index: u16, mps: nat) -> Seq<OpView> {
    seq![purge_request(index, 1), OpView::Discard(mps)]
}

/// Purging the transmit FIFO.
pub open spec fn purge_tx_plan(index: u16) -> Seq<OpView> {
    seq![purge_request(index, 2)]
}

/// Purging both FIFOs, receive side first.
pub open spec fn purge_all_plan(index: u16, mps: nat) -> Seq<OpView> {
    purge_rx_plan(index, mps) + purge_tx_plan(index)
}

/// A `read_all` in progress: the bytes delivered so far and how many were asked for.
#[derive(Clone, Debug)]
pub struct ReadAll {
    pub data: Vec<u8>,
    pub len: usize,
}

impl ReadAll {
    /// Whether every byte asked for has been delivered.
    pub fn is_complete(&self) -> (r: bool)
        ensures
            r == (self.data@.len() >= self.len),
    {
        self.data.len() >= self.len
    }
}

/// The read-ahead buffer of a port: bytes already received from the device,
/// and a cursor up to which they have been delivered.
#[derive(Clone, Debug)]
pub struct ReadBuffer {
    bytes: Vec<u8>,
    pos: usize,
}

impl ReadBuffer {
    /// The cursor lies within the buffer.
    pub closed spec fn wf(&self) -> bool {
        self.pos <= self.bytes@.len()
    }

    /// Bytes received and not yet delivered, in order.
    pub closed spec fn pending(&self) -> Seq<u8> {
        self.bytes@.skip(self.pos as int)
    }

    /// The buffer holds no bytes at all, delivered or not.
    pub closed spec fn is_cleared(&self) -> bool {
        self.bytes@.len() == 0 && self.pos == 0
    }

    /// An empty buffer.
    pub fn new() -> (r: ReadBuffer)
        ensures
            r.wf(),
            r.is_cleared(),
            r.pending() == Seq::<u8>::empty(),
    {
        let r = ReadBuffer { bytes: Vec::new(), pos: 0 };
        assert(r.pending() =~= Seq::<u8>::empty());
        r
    }

    /// Number of bytes not yet delivered.
    pub fn pending_len(&self) -> (r: usize)
        requires
            self.wf(),
        ensures
            r == self.pending().len(),
    {
        self.bytes.len() - self.pos
    }
}

/// An opened port: its chip family, zero-based index, negotiated maximum
/// packet size, and read-ahead buffer.
#[derive(Clone, Debug)]
pub struct Interface {
    pub device_type: DeviceType,
    pub num: u8,
    pub max_packet_size: usize,
    pub read_buffer: ReadBuffer,
}

impl Interface {
    /// The port is one of the four a chip can have, packets have a size, and
    /// the buffer is well formed.
    pub open spec fn wf(&self) -> bool {
        &&& self.num <= 3
        &&& self.max_packet_size > 0
        &&& self.read_buffer.wf()
    }

    /// Bytes received and not yet delivered, in order.
    pub open spec fn pending(&self) -> Seq<u8> {
        self.read_buffer.pending()
    }

    /// Starts reading exactly `len` bytes. As much as possible comes from the
    /// read-ahead buffer. When the buffer cannot cover the request it is
    /// emptied, and the rest must come from bulk-in transfers of
    /// `max_packet_size` bytes handed to [`Self::absorb_transfer`] until the
    /// read is complete.
    pub fn read_all(&mut self, len: usize) -> (r: ReadAll)
        requires
            old(self).wf(),
        ensures
            final(self).wf(),
            final(self).num == old(self).num,
            final(self).device_type == old(self).device_type,
            final(self).max_packet_size == old(self).max_packet_size,
            r.len == len,
            len <= old(self).pending().len() ==> {
                &&& r.data@ == old(self).pending().take(len as int)
                &&& final(self).pending() == old(self).pending().skip(len as int)
            },
            len > old(self).pending().len() ==> {
                &&& r.data@ == old(self).pending()
                &&& final(self).read_buffer.is_cleared()
                &&& final(self).pending() == Seq::<u8>::empty()
            },
    {
        let ghost p0 = self.pending();
        let avail = self.read_buffer.bytes.len() - self.read_buffer.pos;
        let copylen = if len < avail { len } else { avail };
        let mut data: Vec<u8> = Vec::with_capacity(len);
        let start = self.read_buffer.pos;
        let mut k: usize = 0;
        while k < copylen
            invariant
                k <= copylen <= avail,
                start + avail == self.read_buffer.bytes@.len() <= usize::MAX,
                start == self.read_buffer.pos,
                p0 == self.read_buffer.bytes@.skip(start as int),
                data@ =~= p0.take(k as int),
            decreases copylen - k,
        {
            data.push(self.read_buffer.bytes[start + k]);
            k += 1;
        }
        self.read_buffer.pos = start + copylen;
        if data.len() < len {
            self.read_buffer.bytes = Vec::new();
            self.read_buffer.pos = 0;
            assert(data@ =~= p0);
        } else {
            assert(self.pending() =~= p0.skip(len as int));
        }
        assert(self.pending().len() == 0 ==> self.pending() =~= Seq::<u8>::empty());
        ReadAll { data, len }
    }

    /// Takes in the bytes of one bulk-in transfer. Its payload (see
    /// [`payload`]) goes to the read until that is complete; what is left
    /// goes to the end of the read-ahead buffer.
    pub fn absorb_transfer(&mut self, read: &mut ReadAll, transfer: &Vec<u8>)
        requires
            old(self).wf(),
            old(read).data@.len() <= old(read).len,
        ensures
            final(self).wf(),
            final(self).num == old(self).num,
            final(self).device_type == old(self).device_type,
            final(self).max_packet_size == old(self).max_packet_size,
            final(read).len == old(read).len,
            ({
                let pl = payload(transfer@, old(self).max_packet_size as nat);
                let k = min(old(read).len - old(read).data@.len(), pl.len() as int);
                &&& final(read).data@ == old(read).data@ + pl.take(k)
                &&& final(self).pending() == old(self).pending() + pl.skip(k)
            }),
    {
        let ghost d0 = read.data@;
        let ghost p0 = self.pending();
        let ghost need: int = read.len - read.data@.len();
        let ghost all = payload(transfer@, self.max_packet_size as nat);
        let ghost mut taken: Seq<u8> = Seq::empty();
        let mps = self.max_packet_size;
        let tlen = transfer.len();
        let mut start: usize = 0;
        assert(transfer@.skip(0) =~= transfer@);
        assert(taken.take(0) =~= Seq::<u8>::empty());
        assert(p0 + taken.skip(0) =~= p0);
        assert(d0 + taken.take(0) =~= d0);
        while start < tlen
            invariant
                self.wf(),
                self.num == old(self).num,
                self.device_type == old(self).device_type,
                self.max_packet_size == mps,
                mps > 0,
                tlen == transfer@.len(),
                start <= tlen,
                read.len == old(read).len,
                need == read.len - d0.len(),
                need >= 0,
                all == taken + payload(transfer@.skip(start as int), mps as nat),
                read.data@ == d0 + taken.take(min(need, taken.len() as int)),
                self.pending() == p0 + taken.skip(min(need, taken.len() as int)),
            decreases tlen - start,
        {
            let end: usize = if tlen - start < mps { tlen } else { start + mps };
            let ghost rest = transfer@.skip(start as int);
            proof {
                assert(rest.take(end - start) =~= transfer@.subrange(start as int, end as int));
                assert(rest.skip(end - start) =~= transfer@.skip(end as int));
            }
            let ghost t_chunk = taken;
            if end - start > STATUS_LEN {
                assert(transfer@.subrange(start as int, end as int).skip(2) =~= transfer@.subrange(start + 2, end as int));
                let mut j: usize = start + STATUS_LEN;
                while j < end
                    invariant
                        self.wf(),
                        self.num == old(self).num,
                        self.device_type == old(self).device_type,
                        self.max_packet_size == mps,
                        start + 2 <= j <= end <= tlen,
                        tlen == transfer@.len(),
                        read.len == old(read).len,
                        need == read.len - d0.len(),
                        need >= 0,
                        taken =~= t_chunk + transfer@.subrange(start + 2, j as int),
                        read.data@ == d0 + taken.take(min(need, taken.len() as int)),
                        self.pending() == p0 + taken.skip(min(need, taken.len() as int)),
                    decreases end - j,
                {
                    let b = transfer[j];
                    let ghost t_old = taken;
                    proof {
                        taken = taken.push(b);
                    }
                    if read.data.len() < read.len {
                        read.data.push(b);
                        assert(taken.take(min(need, taken.len() as int)) =~= t_old.take(min(need, t_old.len() as int)).push(b));
                        assert(taken.skip(min(need, taken.len() as int)) =~= t_old.skip(min(need, t_old.len() as int)));
                    } else {
                        let ghost old_bytes = self.read_buffer.bytes@;
                        self.read_buffer.bytes.push(b);
                        assert(self.read_buffer.bytes@.skip(self.read_buffer.pos as int) =~= old_bytes.skip(self.read_buffer.pos as int).push(b));
                        assert(taken.take(min(need, taken.len() as int)) =~= t_old.take(min(need, t_old.len() as int)));
                        assert(taken.skip(min(need, taken.len() as int)) =~= t_old.skip(min(need, t_old.len() as int)).push(b));
                    }
                    j += 1;
                }
                assert(taken =~= t_chunk + transfer@.subrange(start as int, end as int).skip(2));
            }
            proof {
                assert(all =~= taken + payload(transfer@.skip(end as int), mps as nat));
            }
            start = end;
        }
        assert(payload(transfer@.skip(start as int), mps as nat) =~= Seq::<u8>::empty());
        assert(taken =~= all);
    }

    /// The `wIndex` of this port's control requests: ports are numbered from 1 on the wire.
    pub open spec fn spec_index(&self) -> u16 {
        (self.num + 1) as u16
    }

    /// Bulk-in endpoint address of this port.
    pub fn in_endpoint(&self) -> (r: u8)
        requires
            self.wf(),
        ensures
            r == (((self.num + 1) * 2 - 1) as u8 | 0x80u8),
            r == 0x80 + 2 * self.num + 1,
    {
        let base: u8 = (self.num + 1) * 2 - 1;
        assert(base < 128 ==> base | 0x80u8 == 0x80 + base) by (bit_vector);
        base | 0x80
    }

    /// Bulk-out endpoint address of this port.
    pub fn out_endpoint(&self) -> (r: u8)
        requires
            self.wf(),
        ensures
            r == (self.num + 1) * 2,
    {
        (self.num + 1) * 2
    }

    fn index(&self) -> (r: u16)
        requires
            self.wf(),
        ensures
            r == self.spec_index(),
    {
        self.num as u16 + 1
    }

    /// A control-out request on this port.
    fn control_out(&self, request: ControlRequest, value: u16) -> (r: ControlTransfer)
        requires
            self.wf(),
        ensures
            r == (ControlTransfer::Out { request: request.spec_code(), value, index: self.spec_index() }),
    {
        ControlTransfer::Out { request: request.code(), value, index: self.index() }
    }

    /// A control-in request on this port.
    fn control_in(&self, request: ControlRequest, length: u16) -> (r: ControlTransfer)
        requires
            self.wf(),
        ensures
            r == (ControlTransfer::In { request: request.spec_code(), value: 0, index: self.spec_index(), length }),
    {
        ControlTransfer::In { request: request.code(), value: 0, index: self.index(), length }
    }

    /// Request that reads the latency timer (one byte, in milliseconds).
    pub fn latency_timer(&self) -> (r: ControlTransfer)
        requires
            self.wf(),
        ensures
            r == (ControlTransfer::In { request: 0x0a, value: 0, index: self.spec_index(), length: 1 }),
    {
        self.control_in(ControlRequest::GetLatencyTimer, 1)
    }

    /// The latency timer, in milliseconds, from the reply to [`Self::latency_timer`].
    pub fn parse_latency_timer(reply: &Vec<u8>) -> (r: Result<u64, Error>)
        ensures
            reply@.len() >= 1 ==> r == Ok::<u64, Error>(reply@[0] as u64),
            reply@.len() == 0 ==> r == Err::<u64, Error>(Error::ShortResponse),
    {
        if reply.len() >= 1 {
            Ok(reply[0] as u64)
        } else {
            Err(Error::ShortResponse)
        }
    }

    /// Request that sets the latency timer; the value field holds the
    /// milliseconds, cut to 16 bits.
    pub fn set_latency_timer(&self, millis: u64) -> (r: ControlTransfer)
        requires
            self.wf(),
        ensures
            r == (ControlTransfer::Out { request: 0x09, value: millis as u16, index: self.spec_index() }),
    {
        self.control_out(ControlRequest::SetLatencyTimer, millis as u16)
    }

    /// Request that resets the port.
    pub fn reset(&self) -> (r: ControlTransfer)
        requires
            self.wf(),
        ensures
            r == (ControlTransfer::Out { request: 0x00, value: 0, index: self.spec_index() }),
    {
        self.control_out(ControlRequest::Reset, 0)
    }

    /// Request that reads the modem and line status (two bytes).
    pub fn status(&self) -> (r: ControlTransfer)
        requires
            self.wf(),
        ensures
            r == (ControlTransfer::In { request: 0x05, value: 0, index: self.spec_index(), length: 2 }),
    {
        self.control_in(ControlRequest::GetStatus, 2)
    }

    /// The modem and line status bytes from the reply to [`Self::status`].
    pub fn parse_status(reply: &Vec<u8>) -> (r: Result<(u8, u8), Error>)
        ensures
            reply@.len() >= 2 ==> r == Ok::<(u8, u8), Error>((reply@[0], reply@[1])),
            reply@.len() < 2 ==> r == Err::<(u8, u8), Error>(Error::ShortResponse),
    {
        if reply.len() >= 2 {
            Ok((reply[0], reply[1]))
        } else {
            Err(Error::ShortResponse)
        }
    }

    /// Request that selects a bit mode: the pin mask in the low byte of the
    /// value, the mode in the high byte.
    pub fn set_bitmode(&self, bitmask: u8, bitmode: crate::command::Bitmode) -> (r: ControlTransfer)
        requires
            self.wf(),
        ensures
            r == (ControlTransfer::Out {
                request: 0x0b,
                value: (bitmode.spec_mode() * 256 + bitmask) as u16,
                index: self.spec_index(),
            }),
    {
        let value: u16 = bitmode.mode() as u16 * 256 + bitmask as u16;
        self.control_out(ControlRequest::SetBitmode, value)
    }

    /// Request that sets the event character: the character's low byte in the
    /// low byte of the value, the enable flag in the high byte.
    pub fn set_event_char(&self, value: char, enable: bool) -> (r: ControlTransfer)
        requires
            self.wf(),
        ensures
            r == (ControlTransfer::Out {
                request: 0x06,
                value: ((if enable { 256int } else { 0 }) + (value as u8)) as u16,
                index: self.spec_index(),
            }),
    {
        let low: u8 = value as u8;
        let v: u16 = if enable { 256 + low as u16 } else { low as u16 };
        self.control_out(ControlRequest::SetEventChar, v)
    }

    /// Request that sets the error character, laid out as for the event character.
    pub fn set_error_char(&self, value: char, enable: bool) -> (r: ControlTransfer)
        requires
            self.wf(),
        ensures
            r == (ControlTransfer::Out {
                request: 0x07,
                value: ((if enable { 256int } else { 0 }) + (value as u8)) as u16,
                index: self.spec_index(),
            }),
    {
        let low: u8 = value as u8;
        let v: u16 = if enable { 256 + low as u16 } else { low as u16 };
        self.control_out(ControlRequest::SetErrorChar, v)
    }
    /// Purges the receive FIFO.
    pub fn purge_rx(&self) -> (r: Vec<Op>)
        requires
            self.wf(),
        ensures
            plan(r@) == purge_rx_plan(self.spec_index(), self.max_packet_size as nat),
    {
        let r = vec![Op::Control(self.control_out(ControlRequest::Reset, 1)), Op::Discard(self.max_packet_size)];
        assert(plan(r@) =~= purge_rx_plan(self.spec_index(), self.max_packet_size as nat));
        r
    }

    /// Purges the transmit FIFO.
    pub fn purge_tx(&self) -> (r: Vec<Op>)
        requires
            self.wf(),
        ensures
            plan(r@) == purge_tx_plan(self.spec_index()),
    {
        let r = vec![Op::Control(self.control_out(ControlRequest::Reset, 2))];
        assert(plan(r@) =~= purge_tx_plan(self.spec_index()));
        r
    }

    /// Purges both FIFOs, receive side first.
    pub fn purge_all(&self) -> (r: Vec<Op>)
        requires
            self.wf(),
        ensures
            plan(r@) == purge_all_plan(self.spec_index(), self.max_packet_size as nat),
    {
        let mut r = self.purge_rx();
        append_ops(&mut r, self.purge_tx());
        r
    }

    /// Sends `bytes` as they are, in one bulk-out transfer.
    pub fn write_all(&self, bytes: Vec<u8>) -> (r: Op)
        ensures
            r@ == OpView::Write(bytes@),
    {
        Op::Write(bytes)
    }

    /// Flow control of a UART port; accepted and not applied.
    pub fn set_flow_control(&self, flow_control: crate::device::FlowControl) -> (r: Result<(), Error>)
        ensures
            r == Ok::<(), Error>(()),
    {
        Ok(())
    }

    /// Baud rate of a UART port; accepted and not applied.
    pub fn set_baudrate(&self, baudrate: u32) -> (r: Result<(), Error>)
        ensures
            r == Ok::<(), Error>(()),
    {
        Ok(())
    }

    /// Raising DTR is not implemented.
    pub fn set_dtr(&self) -> (r: Result<(), Error>)
        ensures
            r == Err::<(), Error>(Error::NotImplemented),
    {
        Err(Error::NotImplemented)
    }

    /// Lowering DTR is not implemented.
    pub fn clear_dtr(&self) -> (r: Result<(), Error>)
        ensures
            r == Err::<(), Error>(Error::NotImplemented),
    {
        Err(Error::NotImplemented)
    }

    /// Raising RTS is not implemented.
    pub fn set_rts(&self) -> (r: Result<(), Error>)
        ensures
            r == Err::<(), Error>(Error::NotImplemented),
    {
        Err(Error::NotImplemented)
    }

    /// Lowering RTS is not implemented.
    pub fn clear_rts(&self) -> (r: Result<(), Error>)
        ensures
            r == Err::<(), Error>(Error::NotImplemented),
    {
        Err(Error::NotImplemented)
    }
}

impl Interface {
    /// Finds the port to open: port `port` of the first supported FTDI device
    /// whose serial number is `sn`; `DeviceNotFound` when no device has both.
    pub fn with_serial_number(devs: &Vec<UsbDevice>, sn: &String, port: u8) -> (r: Result<InterfaceInfo, Error>)
        ensures
            match r {
                Ok(info) => {
                    &&& 0 <= info.dev < devs@.len()
                    &&& serial_match(devs@[info.dev as int], sn@, port)
                    &&& forall|j: int| 0 <= j < info.dev ==> !serial_match(#[trigger] devs@[j], sn@, port)
                    &&& classify(devs@[info.dev as int].device_version) matches Some((dt, kinds))
                        && info == ports(info.dev as int, dt, kinds)[port as int]
                },
                Err(e) => {
                    &&& e == Error::DeviceNotFound
                    &&& forall|j: int| 0 <= j < devs@.len() ==> !serial_match(#[trigger] devs@[j], sn@, port)
                },
            },
    {
        let mut i: usize = 0;
        while i < devs.len()
            invariant
                i <= devs@.len(),
                forall|j: int| 0 <= j < i ==> !serial_match(#[trigger] devs@[j], sn@, port),
            decreases devs.len() - i,
        {
            let d = &devs[i];
            if d.vendor_id == FTDI_VENDOR_ID {
                let same = match &d.serial_number {
                    Some(s) => *s == *sn,
                    None => false,
                };
                if same {
                    if let Ok(info) = device_info(d, i) {
                        if (port as usize) < info.interfaces.len() {
                            return Ok(info.interfaces[port as usize]);
                        }
                    }
                }
            }
            i += 1;
        }
        Err(Error::DeviceNotFound)
    }
}

impl InterfaceInfo {
    /// Opens this port once its interface is claimed and its maximum packet
    /// size known: endpoints follow from the port index, the buffer starts empty.
    pub fn open(&self, max_packet_size: usize) -> (r: Interface)
        requires
            self.num <= 3,
            max_packet_size > 0,
        ensures
            r.wf(),
            r.num == self.num,
            r.device_type == self.device_type,
            r.max_packet_size == max_packet_size,
            r.read_buffer.is_cleared(),
            r.pending() == Seq::<u8>::empty(),
    {
        Interface {
            device_type: self.device_type,
            num: self.num,
            max_packet_size,
            read_buffer: ReadBuffer::new(),
        }
    }
}

} // verus!
