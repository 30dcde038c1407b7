//! The MPSSE protocol driver: clock arithmetic, the loopback handshake, and
//! the command streams for mode setup, clocking and GPIO.

use vstd::prelude::*;

use crate::command::{Bitmode, CommandByte};
use crate::device::DeviceType;
use crate::error::Error;
use crate::transport::{
    append_ops, plan, purge_all_plan, purge_request, ControlTransfer, Interface, Op, OpView,
};

verus! {

/// Reply byte with which the engine reports an opcode it does not know.
pub const BAD_COMMAND: u8 = 0xFA;

/// Divisor and divide-by-5 setting for `frequency` on a chip family, or
/// `None` where no 16-bit divisor gives it. The FT2232C runs from 6 MHz and has
/// no divide-by-5 control; the other families run from 6 MHz with divide-by-5
/// up to 6 MHz, and from 30 MHz without it above.
pub open spec fn clock_divisor_spec(dt: DeviceType, frequency: int) -> Option<(int, Option<bool>)> {
    if frequency <= 0 {
        None
    } else {
        let (base, clkdiv) = match dt {
            DeviceType::FT2232C => (6_000_000int, None::<bool>),
            _ => if frequency <= 6_000_000 {
                (6_000_000int, Some(true))
            } else {
                (30_000_000int, Some(false))
            },
        };
        let q = base / frequency;
        if 1 <= q && q - 1 <= 0xFFFF {
            Some((q - 1, clkdiv))
        } else {
            None
        }
    }
}

/// The command that sets the clock: the divide-by-5 opcode when a setting is
/// given, then `SetClockFrequency` and the divisor, low byte first.
pub open spec fn clock_bytes(divisor: u16, clkdiv: Option<bool>) -> Seq<u8> {
    let prefix: Seq<u8> = match clkdiv {
        Some(true) => seq![0x8Bu8],
        Some(false) => seq![0x8Au8],
        None => Seq::empty(),
    };
    prefix + seq![0x86u8, (divisor % 256) as u8, (divisor / 256) as u8]
}

/// The handshake: loopback on, the invalid `Synchronize` opcode, loopback off,
/// then two reply bytes to judge.
pub open spec fn sync_plan() -> Seq<OpView> {
    seq![OpView::Write(seq![0x84u8, 0xABu8, 0x85u8]), OpView::AwaitSync]
}

/// A `SetBitmode` request with an empty pin mask.
pub open spec fn bitmode_request(index: u16, mode: u8) -> OpView {
    OpView::Control(ControlTransfer::Out { request: 0x0b, value: (mode * 256) as u16, index })
}

/// Initialization: purge, reset the bit mode, enter MPSSE mode, purge, run
/// the handshake, purge again.
pub open spec fn init_plan(index: u16, mps: nat) -> Seq<OpView> {
    purge_all_plan(index, mps) + seq![bitmode_request(index, 0x00), bitmode_request(index, 0x02)]
        + purge_all_plan(index, mps) + sync_plan() + purge_all_plan(index, mps)
}

/// Judges the two bytes the handshake brought back: only the bad-command
/// marker followed by the `Synchronize` opcode is accepted.
pub fn check_sync(b0: u8, b1: u8) -> (r: Result<(), Error>)
    ensures
        r == (if b0 == 0xFA && b1 == 0xAB {
            Ok::<(), Error>(())
        } else {
            Err::<(), Error>(Error::SynchronizationFailed(b0, b1))
        }),
{
    if b0 == BAD_COMMAND && b1 == CommandByte::Synchronize.byte() {
        Ok(())
    } else {
        Err(Error::SynchronizationFailed(b0, b1))
    }
}

/// The bytes of the clock command; see [`clock_bytes`].
pub fn clock_command(divisor: u16, clkdiv: Option<bool>) -> (r: Vec<u8>)
    ensures
        r@ == clock_bytes(divisor, clkdiv),
{
    let mut cmd: Vec<u8> = Vec::new();
    match clkdiv {
        Some(true) => cmd.push(CommandByte::EnableClockDivide.byte()),
        Some(false) => cmd.push(CommandByte::DisableClockDivide.byte()),
        None => {},
    }
    cmd.push(CommandByte::SetClockFrequency.byte());
    cmd.push((divisor % 256) as u8);
    cmd.push((divisor / 256) as u8);
    assert(cmd@ =~= clock_bytes(divisor, clkdiv));
    cmd
}

impl Interface {
    /// Divisor and divide-by-5 setting for `frequency`; `InvalidFrequency`
    /// when the frequency is zero or no 16-bit divisor gives it.
    pub fn clock_divisor(&self, frequency: u32) -> (r: Result<(u16, Option<bool>), Error>)
        ensures
            match clock_divisor_spec(self.device_type, frequency as int) {
                Some((d, c)) => r == Ok::<(u16, Option<bool>), Error>((d as u16, c)),
                None => r == Err::<(u16, Option<bool>), Error>(Error::InvalidFrequency(frequency)),
            },
    {
        if frequency == 0 {
            return Err(Error::InvalidFrequency(frequency));
        }
        let (base, clkdiv): (u32, Option<bool>) = match self.device_type {
            DeviceType::FT2232C => (6_000_000, None),
            DeviceType::FT2232H | DeviceType::FT4232H | DeviceType::FT232H => {
                if frequency <= 6_000_000 {
                    (6_000_000, Some(true))
                } else {
                    (30_000_000, Some(false))
                }
            },
        };
        let q = base / frequency;
        if 1 <= q && q - 1 <= 0xFFFF {
            Ok(((q - 1) as u16, clkdiv))
        } else {
            Err(Error::InvalidFrequency(frequency))
        }
    }

    /// Sets the clock from a divisor and an optional divide-by-5 setting.
    pub fn set_clock(&self, divisor: u16, clkdiv: Option<bool>) -> (r: Op)
        ensures
            r@ == OpView::Write(clock_bytes(divisor, clkdiv)),
    {
        self.write_all(clock_command(divisor, clkdiv))
    }

    /// Sets the clock to `frequency`, or reports why no divisor gives it.
    pub fn set_frequency(&self, frequency: u32) -> (r: Result<Op, Error>)
        ensures
            match clock_divisor_spec(self.device_type, frequency as int) {
                Some((d, c)) => r matches Ok(op) && op@ == OpView::Write(clock_bytes(d as u16, c)),
                None => r matches Err(e) && e == Error::InvalidFrequency(frequency),
            },
    {
        match self.clock_divisor(frequency) {
            Ok((divisor, clkdiv)) => Ok(self.set_clock(divisor, clkdiv)),
            Err(e) => Err(e),
        }
    }

    /// Turns three-phase data clocking on.
    pub fn enable_3phase_clocking(&self) -> (r: Op)
        ensures
            r@ == OpView::Write(seq![0x8Cu8]),
    {
        let cmd = vec![CommandByte::Enable3PhaseClocking.byte()];
        assert(cmd@ =~= seq![0x8Cu8]);
        self.write_all(cmd)
    }

    /// Turns three-phase data clocking off.
    pub fn disable_3phase_clocking(&self) -> (r: Op)
        ensures
            r@ == OpView::Write(seq![0x8Du8]),
    {
        let cmd = vec![CommandByte::Disable3PhaseClocking.byte()];
        assert(cmd@ =~= seq![0x8Du8]);
        self.write_all(cmd)
    }

    /// Drives the low GPIO byte: `value` on the pins, `direction` as the output mask.
    pub fn set_low_data_bits(&self, value: u8, direction: u8) -> (r: Op)
        ensures
            r@ == OpView::Write(seq![0x80u8, value, direction]),
    {
        let cmd = vec![CommandByte::SetDataBitsLowByte.byte(), value, direction];
        assert(cmd@ =~= seq![0x80u8, value, direction]);
        self.write_all(cmd)
    }

    /// Drives the high GPIO byte: `value` on the pins, `direction` as the output mask.
    pub fn set_high_data_bits(&self, value: u8, direction: u8) -> (r: Op)
        ensures
            r@ == OpView::Write(seq![0x82u8, value, direction]),
    {
        let cmd = vec![CommandByte::SetDataBitsHighByte.byte(), value, direction];
        assert(cmd@ =~= seq![0x82u8, value, direction]);
        self.write_all(cmd)
    }

    /// The loopback handshake; see [`sync_plan`].
    pub fn synchronize_mpsse(&self) -> (r: Vec<Op>)
        ensures
            plan(r@) == sync_plan(),
    {
        let cmd = vec![
            CommandByte::EnableLoopback.byte(),
            CommandByte::Synchronize.byte(),
            CommandByte::DisableLoopback.byte(),
        ];
        assert(cmd@ =~= seq![0x84u8, 0xABu8, 0x85u8]);
        let r = vec![self.write_all(cmd), Op::AwaitSync];
        assert(plan(r@) =~= sync_plan());
        r
    }

    /// Puts the chip in MPSSE mode; see [`init_plan`]. The caller stops at
    /// the first step that fails.
    pub fn initialize_mpsse(&self) -> (r: Vec<Op>)
        requires
            self.wf(),
        ensures
            plan(r@) == init_plan(self.spec_index(), self.max_packet_size as nat),
    {
        let mut r = self.purge_all();
        let modes = vec![
            Op::Control(self.set_bitmode(0, Bitmode::Reset)),
            Op::Control(self.set_bitmode(0, Bitmode::Mpsse)),
        ];
        assert(plan(modes@) =~= seq![
            bitmode_request(self.spec_index(), 0x00),
            bitmode_request(self.spec_index(), 0x02),
        ]);
        append_ops(&mut r, modes);
        append_ops(&mut r, self.purge_all());
        append_ops(&mut r, self.synchronize_mpsse());
        append_ops(&mut r, self.purge_all());
        r
    }
}

/// Purging depends on nothing but the port and the packet size: two ports
/// that agree on those (the same port before and after any reads, say) purge
/// with the same requests, and each purge asks for the receive FIFO (value 1)
/// and then the transmit FIFO (value 2).
pub proof fn lemma_purge_all_repeatable(a: Interface, b: Interface)
    requires
        a.wf(),
        b.wf(),
        a.num == b.num,
        a.max_packet_size == b.max_packet_size,
    ensures
        purge_all_plan(a.spec_index(), a.max_packet_size as nat) == purge_all_plan(
            b.spec_index(),
            b.max_packet_size as nat,
        ),
        purge_all_plan(a.spec_index(), a.max_packet_size as nat).len() == 3,
        purge_all_plan(a.spec_index(), a.max_packet_size as nat)[0] == purge_request(a.spec_index(), 1),
        purge_all_plan(a.spec_index(), a.max_packet_size as nat)[1] == OpView::Discard(a.max_packet_size as nat),
        purge_all_plan(a.spec_index(), a.max_packet_size as nat)[2] == purge_request(a.spec_index(), 2),
{
}

} // verus!
