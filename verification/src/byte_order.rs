//! How a fixed-width integer becomes bytes and comes back.
//!
//! An integer of `width` bytes is a number below `radix(width)`. In little-endian order its
//! lowest byte comes first, in big-endian order its highest. A signed integer is encoded as
//! its two's complement.

use vstd::prelude::*;

verus! {

/// The order in which the bytes of a number stand on the wire.
#[derive(Debug, Clone, Copy, PartialEq, Eq, Structural)]
pub enum ByteOrder {
    /// The lowest byte first.
    Little,
    /// The highest byte first.
    Big,
}

/// One of the three ways in which a caller names a byte order.
#[derive(Debug, Clone, Copy, PartialEq, Eq, Structural)]
pub enum Endian {
    /// The order of the machine on which the arena was made.
    Native,
    /// Little-endian, whatever the machine.
    Little,
    /// Big-endian, whatever the machine.
    Big,
}

impl Endian {
    /// The byte order that this mode stands for on a machine whose own order is `native`.
    pub open spec fn order_on(self, native: ByteOrder) -> ByteOrder {
        match self {
            Endian::Native => native,
            Endian::Little => ByteOrder::Little,
            Endian::Big => ByteOrder::Big,
        }
    }

    /// The byte order that this mode stands for on a machine whose own order is `native`.
    pub fn resolve(self, native: ByteOrder) -> (order: ByteOrder)
        ensures
            order == self.order_on(native),
    {
        match self {
            Endian::Native => native,
            Endian::Little => ByteOrder::Little,
            Endian::Big => ByteOrder::Big,
        }
    }
}

/// Puts two bytes together as the machine does: calls `u16::from_ne_bytes` on `[first, second]`.
/// The machine reads the first byte as the low one or as the high one; which, the contract
/// leaves open.
#[verifier::external_body]
fn machine_u16(first: u8, second: u8) -> (value: u16)
    ensures
        value == first + 256 * second || value == 256 * first + second,
{
    u16::from_ne_bytes([first, second])
}

impl ByteOrder {
    /// The byte order of a machine that puts the bytes 1 and 0, in this order, together as
    /// `probe`: little-endian where the first byte is the low one, so that `probe` is 1, and
    /// big-endian where it is not.
    pub open spec fn of_probe(probe: u16) -> ByteOrder {
        if probe == 1 {
            ByteOrder::Little
        } else {
            ByteOrder::Big
        }
    }

    /// The byte order of a machine that puts the bytes 1 and 0, in this order, together as
    /// `probe`.
    pub fn from_probe(probe: u16) -> (order: ByteOrder)
        ensures
            order == Self::of_probe(probe),
    {
        if probe == 1 {
            ByteOrder::Little
        } else {
            ByteOrder::Big
        }
    }

    /// The byte order of the machine that runs this code: what [`from_probe`](Self::from_probe)
    /// makes of the bytes 1 and 0 as the machine puts them together. Which of the two orders
    /// that is, the machine decides.
    pub fn native() -> ByteOrder {
        Self::from_probe(machine_u16(1, 0))
    }
}

/// The number of values that `width` bytes can hold: 256 to the power `width`.
pub open spec fn radix(width: nat) -> nat
    decreases width,
{
    if width == 0 {
        1
    } else {
        256 * radix((width - 1) as nat)
    }
}

/// The `width` lowest bytes of `value`, the lowest first.
pub open spec fn little_endian(value: nat, width: nat) -> Seq<u8>
    decreases width,
{
    if width == 0 {
        Seq::empty()
    } else {
        seq![(value % 256) as u8] + little_endian(value / 256, (width - 1) as nat)
    }
}

/// The `width` lowest bytes of `value`, the highest first.
pub open spec fn big_endian(value: nat, width: nat) -> Seq<u8>
    decreases width,
{
    if width == 0 {
        Seq::empty()
    } else {
        big_endian(value / 256, (width - 1) as nat).push((value % 256) as u8)
    }
}

/// The number whose bytes are `bytes`, the lowest first.
pub open spec fn little_endian_value(bytes: Seq<u8>) -> nat
    decreases bytes.len(),
{
    if bytes.len() == 0 {
        0
    } else {
        bytes[0] as nat + 256 * little_endian_value(bytes.drop_first())
    }
}

/// The number whose bytes are `bytes`, the highest first.
pub open spec fn big_endian_value(bytes: Seq<u8>) -> nat
    decreases bytes.len(),
{
    if bytes.len() == 0 {
        0
    } else {
        256 * big_endian_value(bytes.drop_last()) + bytes.last() as nat
    }
}

/// The bytes of an unsigned integer of `width` bytes in the given order.
pub open spec fn encode_unsigned(value: nat, width: nat, order: ByteOrder) -> Seq<u8> {
    match order {
        ByteOrder::Little => little_endian(value, width),
        ByteOrder::Big => big_endian(value, width),
    }
}

/// The unsigned integer that `bytes` stand for in the given order.
pub open spec fn decode_unsigned(bytes: Seq<u8>, order: ByteOrder) -> nat {
    match order {
        ByteOrder::Little => little_endian_value(bytes),
        ByteOrder::Big => big_endian_value(bytes),
    }
}

/// The unsigned number with the same `width` bytes as the signed `value`.
pub open spec fn twos_complement(value: int, width: nat) -> nat {
    if value < 0 {
        (value + radix(width)) as nat
    } else {
        value as nat
    }
}

/// The signed number with the same `width` bytes as the unsigned `raw`.
pub open spec fn from_twos_complement(raw: nat, width: nat) -> int {
    if 2 * raw >= radix(width) {
        raw - radix(width)
    } else {
        raw as int
    }
}

/// The bytes of a signed integer of `width` bytes in the given order.
pub open spec fn encode_signed(value: int, width: nat, order: ByteOrder) -> Seq<u8> {
    encode_unsigned(twos_complement(value, width), width, order)
}

/// The signed integer that `bytes` stand for in the given order.
pub open spec fn decode_signed(bytes: Seq<u8>, order: ByteOrder) -> int {
    from_twos_complement(decode_unsigned(bytes, order), bytes.len())
}

/// The radix of each width that an integer type has.
pub proof fn lemma_radix_values()
    ensures
        radix(0) == 1,
        radix(1) == 0x100,
        radix(2) == 0x1_0000,
        radix(4) == 0x1_0000_0000,
        radix(8) == 0x1_0000_0000_0000_0000,
        radix(16) == 0x1_0000_0000_0000_0000_0000_0000_0000_0000,
{
    reveal_with_fuel(radix, 5);
    assert(radix(4) == 0x1_0000_0000);
    assert(radix(8) == 0x1_0000_0000 * radix(4));
    assert(radix(12) == 0x1_0000_0000 * radix(8));
    assert(radix(16) == 0x1_0000_0000 * radix(12));
}

/// A wider integer has at least the values of a narrower one.
pub proof fn lemma_radix_grows(narrow: nat, wide: nat)
    requires
        narrow <= wide,
    ensures
        0 < radix(narrow) <= radix(wide),
    decreases wide,
{
    if wide == 0 {
    } else if narrow == wide {
        lemma_radix_grows((narrow - 1) as nat, (wide - 1) as nat);
    } else {
        lemma_radix_grows(narrow, (wide - 1) as nat);
    }
}

/// An encoding has as many bytes as the width asks for.
pub proof fn lemma_encode_len(value: nat, width: nat, order: ByteOrder)
    ensures
        encode_unsigned(value, width, order).len() == width,
    decreases width,
{
    if width > 0 {
        lemma_encode_len(value / 256, (width - 1) as nat, order);
    }
}

/// What `bytes` stand for fits in as many bytes.
pub proof fn lemma_decode_bound(bytes: Seq<u8>, order: ByteOrder)
    ensures
        decode_unsigned(bytes, order) < radix(bytes.len()),
    decreases bytes.len(),
{
    if bytes.len() > 0 {
        match order {
            ByteOrder::Little => lemma_decode_bound(bytes.drop_first(), order),
            ByteOrder::Big => lemma_decode_bound(bytes.drop_last(), order),
        }
    }
}

/// Decoding the bytes of a number that fits in `width` bytes gives the number back.
pub proof fn lemma_decode_encode(value: nat, width: nat, order: ByteOrder)
    requires
        value < radix(width),
    ensures
        decode_unsigned(encode_unsigned(value, width, order), order) == value,
    decreases width,
{
    if width > 0 {
        let rest = value / 256;
        let low = (value % 256) as u8;
        lemma_decode_encode(rest, (width - 1) as nat, order);
        match order {
            ByteOrder::Little => {
                let tail = little_endian(rest, (width - 1) as nat);
                assert((seq![low] + tail).drop_first() =~= tail);
            },
            ByteOrder::Big => {
                let head = big_endian(rest, (width - 1) as nat);
                assert(head.push(low).drop_last() =~= head);
            },
        }
    }
}

/// Encoding what `bytes` stand for, in as many bytes, gives the bytes back.
pub proof fn lemma_encode_decode(bytes: Seq<u8>, order: ByteOrder)
    ensures
        encode_unsigned(decode_unsigned(bytes, order), bytes.len(), order) == bytes,
    decreases bytes.len(),
{
    if bytes.len() > 0 {
        match order {
            ByteOrder::Little => {
                let tail = bytes.drop_first();
                lemma_encode_decode(tail, order);
                let value = little_endian_value(bytes);
                assert(value % 256 == bytes[0] as nat && value / 256 == little_endian_value(tail));
                assert(seq![bytes[0]] + tail =~= bytes);
            },
            ByteOrder::Big => {
                let head = bytes.drop_last();
                lemma_encode_decode(head, order);
                let value = big_endian_value(bytes);
                assert(value % 256 == bytes.last() as nat && value / 256 == big_endian_value(head));
                assert(head.push(bytes.last()) =~= bytes);
            },
        }
    }
}

/// A signed number in the range of `width` bytes comes back from its two's complement.
pub proof fn lemma_twos_complement_round_trip(value: int, width: nat)
    requires
        width > 0,
        -(radix(width) as int) <= 2 * value < radix(width),
    ensures
        twos_complement(value, width) < radix(width),
        from_twos_complement(twos_complement(value, width), width) == value,
{
    lemma_radix_grows(1, width);
}

/// Decoding the bytes of a signed number that fits in `width` bytes gives the number back.
pub proof fn lemma_decode_encode_signed(value: int, width: nat, order: ByteOrder)
    requires
        width > 0,
        -(radix(width) as int) <= 2 * value < radix(width),
    ensures
        decode_signed(encode_signed(value, width, order), order) == value,
{
    lemma_twos_complement_round_trip(value, width);
    lemma_encode_len(twos_complement(value, width), width, order);
    lemma_decode_encode(twos_complement(value, width), width, order);
}

/// The number of bytes of a `usize` or an `isize` on the machine: 4 or 8.
pub open spec fn usize_width() -> nat {
    (usize::BITS / 8) as nat
}

/// A `usize` can hold what its bytes can hold.
pub proof fn lemma_usize_radix()
    ensures
        usize_width() == 4 || usize_width() == 8,
        radix(usize_width()) == usize::MAX + 1,
        radix(usize_width()) == 2 * (isize::MAX + 1),
        isize::MIN == -(isize::MAX + 1),
{
    lemma_radix_values();
}

/// The number of bytes of a `usize` or an `isize` on the machine.
pub fn usize_bytes() -> (width: usize)
    ensures
        width == usize_width(),
        width <= 16,
{
    (usize::BITS / 8) as usize
}

/// The two's complement of `value`, where `half` is the number of non-negative values of its
/// type.
pub fn signed_to_raw(value: i128, half: u128) -> (raw: u128)
    requires
        0 < half <= 0x8000_0000_0000_0000_0000_0000_0000_0000,
        -half <= value < half,
    ensures
        raw == if value < 0 {
            value + 2 * half
        } else {
            value as int
        },
        raw < 2 * half,
{
    if value >= 0 {
        value as u128
    } else {
        let above: i128 = value + (half - 1) as i128 + 1;
        above as u128 + half
    }
}

/// The signed number whose two's complement is `raw`, where `half` is the number of
/// non-negative values of its type.
pub fn raw_to_signed(raw: u128, half: u128) -> (value: i128)
    requires
        0 < half <= 0x8000_0000_0000_0000_0000_0000_0000_0000,
        raw < 2 * half,
    ensures
        value == if raw >= half {
            raw - 2 * half
        } else {
            raw as int
        },
        -half <= value < half,
{
    if raw < half {
        raw as i128
    } else {
        (raw - half) as i128 - (half - 1) as i128 - 1
    }
}

/// The bytes of `value`, which fits in `width` bytes, in the given order.
pub fn unsigned_to_bytes(value: u128, width: usize, order: ByteOrder) -> (bytes: Vec<u8>)
    requires
        width <= 16,
    ensures
        bytes@ == encode_unsigned(value as nat, width as nat, order),
        bytes@.len() == width,
{
    let mut bytes: Vec<u8> = Vec::new();
    let mut rest: u128 = value;
    let mut done: usize = 0;
    while done < width
        invariant
            done <= width,
            match order {
                ByteOrder::Little => bytes@ + little_endian(rest as nat, (width - done) as nat)
                    == little_endian(value as nat, width as nat),
                ByteOrder::Big => big_endian(rest as nat, (width - done) as nat) + bytes@
                    == big_endian(value as nat, width as nat),
            },
        decreases width - done,
    {
        let low: u8 = (rest % 256) as u8;
        let ghost before = bytes@;
        match order {
            ByteOrder::Little => {
                bytes.push(low);
                assert(bytes@ + little_endian((rest / 256) as nat, (width - done - 1) as nat)
                    =~= before + little_endian(rest as nat, (width - done) as nat));
            },
            ByteOrder::Big => {
                bytes.insert(0, low);
                assert(big_endian((rest / 256) as nat, (width - done - 1) as nat) + bytes@
                    =~= big_endian(rest as nat, (width - done) as nat) + before);
            },
        }
        rest = rest / 256;
        done = done + 1;
    }
    proof {
        lemma_encode_len(value as nat, width as nat, order);
        assert(bytes@ =~= encode_unsigned(value as nat, width as nat, order));
    }
    bytes
}

/// The unsigned integer that `bytes` stand for in the given order.
pub fn unsigned_from_bytes(bytes: &[u8], order: ByteOrder) -> (value: u128)
    requires
        bytes@.len() <= 16,
    ensures
        value == decode_unsigned(bytes@, order),
        value < radix(bytes@.len()),
{
    let width = bytes.len();
    let mut value: u128 = 0;
    let mut done: usize = 0;
    proof {
        lemma_radix_values();
    }
    while done < width
        invariant
            width == bytes@.len(),
            width <= 16,
            done <= width,
            radix(16) == 0x1_0000_0000_0000_0000_0000_0000_0000_0000,
            value < radix(done as nat),
            match order {
                ByteOrder::Little => value == little_endian_value(
                    bytes@.subrange(width - done, width as int),
                ),
                ByteOrder::Big => value == big_endian_value(bytes@.subrange(0, done as int)),
            },
        decreases width - done,
    {
        let index = match order {
            ByteOrder::Little => width - done - 1,
            ByteOrder::Big => done,
        };
        let byte = bytes[index];
        proof {
            lemma_radix_grows((done + 1) as nat, 16);
            match order {
                ByteOrder::Little => {
                    let next = bytes@.subrange(width - done - 1, width as int);
                    assert(next.drop_first() =~= bytes@.subrange(width - done, width as int));
                },
                ByteOrder::Big => {
                    let next = bytes@.subrange(0, done + 1);
                    assert(next.drop_last() =~= bytes@.subrange(0, done as int));
                },
            }
        }
        value = value * 256 + byte as u128;
        done = done + 1;
    }
    proof {
        assert(bytes@.subrange(0, width as int) =~= bytes@);
    }
    value
}

} // verus!
