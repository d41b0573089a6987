//! Bring-up of a UART-class serial device through its seven port registers.

use vstd::prelude::*;
use x86_64::instructions::port::{ReadWriteAccess, WriteOnlyAccess};
use crate::port::{IoPort, PortOp};

verus! {

/// The port addresses of the seven registers of one device.
pub struct Registers {
    pub data: u16,
    pub int_en: u16,
    pub fifo_ctrl: u16,
    pub line_ctrl: u16,
    pub modem_ctrl: u16,
    pub line_status: u16,
    pub modem_status: u16,
}

impl Registers {
    /// The registers of the device at `base`: seven consecutive addresses,
    /// in the order data, interrupt enable, FIFO control, line control,
    /// modem control, line status, modem status.
    pub open spec fn at(base: u16) -> Registers
        recommends
            base + 6 <= u16::MAX,
    {
        Registers {
            data: base,
            int_en: (base + 1) as u16,
            fifo_ctrl: (base + 2) as u16,
            line_ctrl: (base + 3) as u16,
            modem_ctrl: (base + 4) as u16,
            line_status: (base + 5) as u16,
            modem_status: (base + 6) as u16,
        }
    }
}

/// The bring-up protocol on the registers `regs`: eight one-byte writes, in
/// the order in which the device must see them.
///
/// Interrupts off; divisor latch open; divisor low byte 3 and high byte 0
/// (38400 bps); latch closed with 8 data bits, no parity, one stop bit; FIFOs
/// enabled and cleared with a 14-byte watermark; DTR, RTS and OUT2 raised;
/// interrupts on.
pub open spec fn init_sequence(regs: Registers) -> Seq<PortOp<u8>> {
    seq![
        PortOp::Write { port: regs.int_en, value: 0x00u8 },
        PortOp::Write { port: regs.line_ctrl, value: 0x80u8 },
        PortOp::Write { port: regs.data, value: 0x03u8 },
        PortOp::Write { port: regs.int_en, value: 0x00u8 },
        PortOp::Write { port: regs.line_ctrl, value: 0x03u8 },
        PortOp::Write { port: regs.fifo_ctrl, value: 0xC7u8 },
        PortOp::Write { port: regs.modem_ctrl, value: 0x0Bu8 },
        PortOp::Write { port: regs.int_en, value: 0x01u8 },
    ]
}

/// A UART-class device: one handle per register, each with the narrowest
/// capability the register supports.
pub struct SerialPort {
    pub data: IoPort<u8, ReadWriteAccess>,
    pub int_en: IoPort<u8, WriteOnlyAccess>,
    pub fifo_ctrl: IoPort<u8, WriteOnlyAccess>,
    pub line_ctrl: IoPort<u8, WriteOnlyAccess>,
    pub modem_ctrl: IoPort<u8, WriteOnlyAccess>,
    pub line_status: IoPort<u8, ReadWriteAccess>,
    pub modem_status: IoPort<u8, ReadWriteAccess>,
}

impl View for SerialPort {
    type V = Registers;

    open spec fn view(&self) -> Registers {
        Registers {
            data: self.data.address(),
            int_en: self.int_en.address(),
            fifo_ctrl: self.fifo_ctrl.address(),
            line_ctrl: self.line_ctrl.address(),
            modem_ctrl: self.modem_ctrl.address(),
            line_status: self.line_status.address(),
            modem_status: self.modem_status.address(),
        }
    }
}

impl SerialPort {
    /// Makes the device whose registers start at `port`. That `port` is the
    /// base of a serial device is for the caller to know. The last register
    /// lies six addresses above the base, so the base leaves room for it.
    pub fn new(port: u16) -> (r: Self)
        requires
            port + 6 <= u16::MAX,
        ensures
            r@ == Registers::at(port),
    {
        let data = IoPort::new(port);
        let int_en = IoPort::new(port + 1);
        let fifo_ctrl = IoPort::new(port + 2);
        let line_ctrl = IoPort::new(port + 3);
        let modem_ctrl = IoPort::new(port + 4);
        let line_status = IoPort::new(port + 5);
        let modem_status = IoPort::new(port + 6);
        Self { data, int_en, fifo_ctrl, line_ctrl, modem_ctrl, line_status, modem_status }
    }

    /// The bring-up protocol of this device: the eight register writes of
    /// `init_sequence`, to be performed in the order given.
    pub fn init(&self) -> (r: Vec<PortOp<u8>>)
        ensures
            r@ == init_sequence(self@),
    {
        let mut writes: Vec<PortOp<u8>> = Vec::with_capacity(8);
        // Disable interrupts
        writes.push(self.int_en.write(0x00));
        // Enable DLAB
        writes.push(self.line_ctrl.write(0x80));
        // Set the speed to 38400 bps by configuring DLL and DLM
        writes.push(self.data.write(0x03));
        writes.push(self.int_en.write(0x00));
        // Disable DLAB and set data word length to 8 bits
        writes.push(self.line_ctrl.write(0x03));
        // Enable FIFO, clear TX/RX queues and
        // set interrupt watermark at 14 bytes
        writes.push(self.fifo_ctrl.write(0xC7));
        // Mark data terminal ready, signal request to send
        // and enable auxiliary output #2 (used as interrupt line for CPU)
        writes.push(self.modem_ctrl.write(0x0B));
        // Enable interrupts
        writes.push(self.int_en.write(0x01));
        assert(writes@ =~= init_sequence(self@));
        writes
    }

    /// Sends one byte: a single write of `byte` to the data register, with no
    /// buffering and no look at the line status before it.
    pub fn transmit(&self, byte: u8) -> (r: PortOp<u8>)
        ensures
            r == (PortOp::Write { port: self@.data, value: byte }),
    {
        self.data.write(byte)
    }
}

/// The bring-up protocol writes and never reads, opens the divisor latch
/// directly before the two divisor bytes and closes it directly after them,
/// and touches no register but the five it configures.
pub proof fn lemma_init_sequence_shape(regs: Registers)
    ensures
        init_sequence(regs).len() == 8,
        forall|i: int|
            0 <= i < 8 ==> (#[trigger] init_sequence(regs)[i]) is Write,
        init_sequence(regs)[1] == (PortOp::Write { port: regs.line_ctrl, value: 0x80u8 }),
        init_sequence(regs)[2].port() == regs.data,
        init_sequence(regs)[3].port() == regs.int_en,
        init_sequence(regs)[4] == (PortOp::Write { port: regs.line_ctrl, value: 0x03u8 }),
        forall|i: int|
            0 <= i < 8 ==> {
                let p = (#[trigger] init_sequence(regs)[i]).port();
                p == regs.data || p == regs.int_en || p == regs.fifo_ctrl || p == regs.line_ctrl
                    || p == regs.modem_ctrl
            },
{
}

} // verus!
