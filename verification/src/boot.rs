//! What the kernel entry sends at boot: the serial bring-up, then a marker
//! byte and the size of the kernel image in decimal, lowest digit first.

use vstd::prelude::*;
use crate::port::PortOp;
use crate::serial::{init_sequence, Registers, SerialPort};

verus! {

/// Base address of the first legacy serial port.
pub const COM1: u16 = 0x3F8;

/// Least stack, in bytes, that the bootloader is asked to give the kernel.
pub const KERNEL_STACK_SIZE: u64 = 100 * 1024;

/// The byte that opens the diagnostic output: ASCII `h`.
pub const MARKER: u8 = 0x68;

/// The ASCII byte of the decimal digit `d`.
pub open spec fn ascii_digit(d: nat) -> u8
    recommends
        d < 10,
{
    (0x30 + d) as u8
}

/// The decimal digits of `n` as ASCII bytes, least significant first. Zero
/// has no digits.
pub open spec fn digits_of(n: nat) -> Seq<u8>
    decreases n,
{
    if n == 0 {
        Seq::empty()
    } else {
        seq![ascii_digit(n % 10)] + digits_of(n / 10)
    }
}

/// The number that the ASCII digits `s` spell, read least significant first.
pub open spec fn digits_value(s: Seq<u8>) -> int
    decreases s.len(),
{
    if s.len() == 0 {
        0
    } else {
        (s[0] - 0x30) + 10 * digits_value(s.drop_first())
    }
}

/// The diagnostic output for an image of `size` bytes: the marker, then the
/// digits of the size, with no terminator.
pub open spec fn diagnostic(size: nat) -> Seq<u8> {
    seq![MARKER] + digits_of(size)
}

/// One write to the register at `data` for each byte of `bytes`, in order.
pub open spec fn transmissions(data: u16, bytes: Seq<u8>) -> Seq<PortOp<u8>> {
    Seq::new(bytes.len(), |i: int| PortOp::Write { port: data, value: bytes[i] })
}

/// Everything the entry does to the machine before it idles, for an image of
/// `size` bytes: the bring-up of the first serial port, then the diagnostic
/// output on its data register.
pub open spec fn entry_trace(size: nat) -> Seq<PortOp<u8>> {
    init_sequence(Registers::at(COM1)) + transmissions(COM1, diagnostic(size))
}

/// The size in bytes of the image that lies between two addresses.
pub fn image_size(kernel_start: usize, kernel_end: usize) -> (r: usize)
    requires
        kernel_start <= kernel_end,
    ensures
        r == kernel_end - kernel_start,
{
    kernel_end - kernel_start
}

/// The decimal digits of `size` as ASCII bytes, least significant first.
pub fn size_digits(size: usize) -> (r: Vec<u8>)
    ensures
        r@ == digits_of(size as nat),
{
    let mut digits: Vec<u8> = Vec::new();
    let mut rest: usize = size;
    while rest > 0
        invariant
            digits@ + digits_of(rest as nat) =~= digits_of(size as nat),
        decreases rest,
    {
        let d: u8 = (rest % 10) as u8;
        proof {
            let next = digits@.push((0x30 + d) as u8);
            assert(next + digits_of((rest / 10) as nat) =~= digits@ + digits_of(rest as nat));
        }
        digits.push(0x30 + d);
        rest = rest / 10;
    }
    assert(digits@ =~= digits@ + digits_of(0));
    digits
}

/// The diagnostic output for an image of `size` bytes.
pub fn diagnostic_bytes(size: usize) -> (r: Vec<u8>)
    ensures
        r@ == diagnostic(size as nat),
{
    let mut bytes: Vec<u8> = Vec::new();
    bytes.push(MARKER);
    let mut digits = size_digits(size);
    bytes.append(&mut digits);
    assert(bytes@ =~= diagnostic(size as nat));
    bytes
}

/// The port writes of the kernel entry, in order, for an image that lies
/// between `kernel_start` and `kernel_end`. Once they are performed nothing
/// is left for the entry to do but idle.
pub fn entry_writes(kernel_start: usize, kernel_end: usize) -> (r: Vec<PortOp<u8>>)
    requires
        kernel_start <= kernel_end,
    ensures
        r@ == entry_trace((kernel_end - kernel_start) as nat),
{
    let serial = SerialPort::new(COM1);
    let mut writes = serial.init();
    let size = image_size(kernel_start, kernel_end);
    let bytes = diagnostic_bytes(size);
    let ghost init = writes@;
    let mut i: usize = 0;
    while i < bytes.len()
        invariant
            i <= bytes.len(),
            serial@ == Registers::at(COM1),
            writes@ =~= init + transmissions(COM1, bytes@.take(i as int)),
        decreases bytes.len() - i,
    {
        writes.push(serial.transmit(bytes[i]));
        assert(bytes@.take(i + 1) =~= bytes@.take(i as int).push(bytes@[i as int]));
        i = i + 1;
    }
    assert(bytes@.take(i as int) =~= bytes@);
    writes
}

/// The digits of a size spell that size: each byte is an ASCII digit, the
/// digits read back give the size, there are none exactly for zero, and the
/// last one, the most significant, is not a zero.
pub proof fn lemma_digits_spell_size(n: nat)
    ensures
        forall|i: int| 0 <= i < digits_of(n).len() ==> 0x30 <= #[trigger] digits_of(n)[i] <= 0x39,
        digits_value(digits_of(n)) == n,
        digits_of(n).len() == 0 <==> n == 0,
        n > 0 ==> digits_of(n).last() != 0x30,
    decreases n,
{
    if n > 0 {
        lemma_digits_spell_size(n / 10);
        let s = digits_of(n);
        let t = digits_of(n / 10);
        assert(s.drop_first() =~= t);
        assert(s[0] == 0x30 + n % 10);
        assert forall|i: int| 0 <= i < s.len() implies 0x30 <= #[trigger] s[i] <= 0x39 by {
            if i > 0 {
                assert(s[i] == t[i - 1]);
            }
        }
        if n / 10 > 0 {
            assert(s.last() == t.last());
        }
    }
}

/// The entry brings the serial port up before it sends anything, sends
/// exactly the diagnostic output on the data register, and only writes: no
/// register is read back between two bytes.
pub proof fn lemma_entry_trace_shape(size: nat)
    ensures
        entry_trace(size).len() == 9 + digits_of(size).len(),
        entry_trace(size).take(8) == init_sequence(Registers::at(COM1)),
        entry_trace(size)[8] == (PortOp::Write { port: COM1, value: MARKER }),
        forall|i: int|
            0 <= i < digits_of(size).len() ==> #[trigger] entry_trace(size)[9 + i] == (
            PortOp::Write { port: COM1, value: digits_of(size)[i] }),
        forall|i: int|
            0 <= i < entry_trace(size).len() ==> (#[trigger] entry_trace(size)[i]) is Write,
{
    assert(entry_trace(size).take(8) =~= init_sequence(Registers::at(COM1)));
}

} // verus!
