//! Integers as bytes in a chosen byte order.

use vstd::prelude::*;

verus! {

/// The order in which the bytes of an integer lie in memory.
#[derive(Clone, Copy, Debug, PartialEq, Eq, Structural)]
pub enum ByteOrder {
    /// Least significant byte first.
    LittleEndian,
    /// Most significant byte first.
    BigEndian,
}

/// The four bytes of `word`, least significant first.
pub open spec fn word_le_bytes(word: u32) -> Seq<u8> {
    seq![
        (word & 0xff) as u8,
        ((word >> 8) & 0xff) as u8,
        ((word >> 16) & 0xff) as u8,
        ((word >> 24) & 0xff) as u8,
    ]
}

/// The word whose bytes, least significant first, are `b0`, `b1`, `b2`, `b3`.
pub open spec fn word_of_le_bytes(b0: u8, b1: u8, b2: u8, b3: u8) -> u32 {
    (b0 as u32) | ((b1 as u32) << 8) | ((b2 as u32) << 16) | ((b3 as u32) << 24)
}

/// The four bytes that hold `value` in memory under `order`.
pub open spec fn i32_bytes(value: i32, order: ByteOrder) -> Seq<u8> {
    let le = word_le_bytes(value as u32);
    match order {
        ByteOrder::LittleEndian => le,
        ByteOrder::BigEndian => seq![le[3], le[2], le[1], le[0]],
    }
}

/// The integer that four bytes hold under `order`.
pub open spec fn i32_of_bytes(bytes: Seq<u8>, order: ByteOrder) -> i32
    recommends
        bytes.len() == 4,
{
    match order {
        ByteOrder::LittleEndian => word_of_le_bytes(bytes[0], bytes[1], bytes[2], bytes[3]) as i32,
        ByteOrder::BigEndian => word_of_le_bytes(bytes[3], bytes[2], bytes[1], bytes[0]) as i32,
    }
}

/// The two bytes that hold `value` in memory under `order`.
pub open spec fn u16_bytes(value: u16, order: ByteOrder) -> Seq<u8> {
    match order {
        ByteOrder::LittleEndian => seq![(value & 0xff) as u8, (value >> 8) as u8],
        ByteOrder::BigEndian => seq![(value >> 8) as u8, (value & 0xff) as u8],
    }
}

/// `value` with its two bytes exchanged.
pub open spec fn swapped_u16(value: u16) -> u16 {
    (value >> 8) | ((value & 0xff) << 8)
}

/// Calls `u16::to_ne_bytes`, which the standard library documents to give the
/// value's bytes in the byte order of the machine. Which order that is differs
/// between machines, so the contract says only that it is one of the two.
#[verifier::external_body]
fn u16_to_ne_bytes(value: u16) -> (bytes: [u8; 2])
    ensures
        bytes@ == u16_bytes(value, ByteOrder::LittleEndian) || bytes@ == u16_bytes(
            value,
            ByteOrder::BigEndian,
        ),
{
    value.to_ne_bytes()
}

impl ByteOrder {
    /// The byte order of the machine that runs this: what
    /// [`of_probe`](Self::of_probe) finds in the bytes that the machine stores
    /// the number one as. The answer differs between machines.
    pub fn native() -> (order: ByteOrder) {
        let probe = u16_to_ne_bytes(1);
        ByteOrder::of_probe(probe)
    }

    /// The byte order that `probe` shows, where `probe` holds the bytes of
    /// the number one as some machine stores it: little-endian where the low
    /// byte comes first. It is the one order under which the number one has
    /// those bytes.
    pub fn of_probe(probe: [u8; 2]) -> (order: ByteOrder)
        ensures
            order == order_of_probe(probe@),
            forall|o: ByteOrder| probe@ == u16_bytes(1, o) ==> order == o,
    {
        proof {
            lemma_bytes_of_one();
        }
        if probe[0] == 1 {
            ByteOrder::LittleEndian
        } else {
            ByteOrder::BigEndian
        }
    }
}

/// The byte order that the bytes of the number one show: little-endian where
/// the first of them is the low byte.
pub open spec fn order_of_probe(probe: Seq<u8>) -> ByteOrder {
    if probe[0] == 1 {
        ByteOrder::LittleEndian
    } else {
        ByteOrder::BigEndian
    }
}

/// The number one is stored as the bytes 1, 0 with the low byte first and as
/// 0, 1 with the high byte first, so its bytes tell the two orders apart.
pub proof fn lemma_bytes_of_one()
    ensures
        u16_bytes(1, ByteOrder::LittleEndian) == seq![1u8, 0u8],
        u16_bytes(1, ByteOrder::BigEndian) == seq![0u8, 1u8],
        forall|o: ByteOrder| order_of_probe(#[trigger] u16_bytes(1, o)) == o,
{
    assert((1u16 & 0xff) as u8 == 1u8 && (1u16 >> 8) as u8 == 0u8) by (bit_vector);
    assert(u16_bytes(1, ByteOrder::LittleEndian) =~= seq![1u8, 0u8]);
    assert(u16_bytes(1, ByteOrder::BigEndian) =~= seq![0u8, 1u8]);
}

/// Reading back the bytes of an integer, in the order they were written in,
/// gives the integer.
pub proof fn lemma_i32_bytes_round_trip(value: i32, order: ByteOrder)
    ensures
        i32_bytes(value, order).len() == 4,
        i32_of_bytes(i32_bytes(value, order), order) == value,
{
    let w = value as u32;
    assert(word_of_le_bytes(
        (w & 0xff) as u8,
        ((w >> 8) & 0xff) as u8,
        ((w >> 16) & 0xff) as u8,
        ((w >> 24) & 0xff) as u8,
    ) == w) by (bit_vector);
    assert(w as i32 == value) by (bit_vector)
        requires
            w == value as u32,
    ;
}

/// The bytes of `value` under `order`.
pub fn encode_i32(value: i32, order: ByteOrder) -> (bytes: Vec<u8>)
    ensures
        bytes@ == i32_bytes(value, order),
{
    let word: u32 = value as u32;
    let b0: u8 = (word & 0xff) as u8;
    let b1: u8 = ((word >> 8) & 0xff) as u8;
    let b2: u8 = ((word >> 16) & 0xff) as u8;
    let b3: u8 = ((word >> 24) & 0xff) as u8;
    let bytes = match order {
        ByteOrder::LittleEndian => vec![b0, b1, b2, b3],
        ByteOrder::BigEndian => vec![b3, b2, b1, b0],
    };
    assert(bytes@ =~= i32_bytes(value, order));
    bytes
}

/// The integer that the first four bytes of `bytes` hold under `order`.
pub fn decode_i32(bytes: &[u8], order: ByteOrder) -> (value: i32)
    requires
        bytes.len() >= 4,
    ensures
        value == i32_of_bytes(bytes@.subrange(0, 4), order),
{
    let (b0, b1, b2, b3) = match order {
        ByteOrder::LittleEndian => (bytes[0], bytes[1], bytes[2], bytes[3]),
        ByteOrder::BigEndian => (bytes[3], bytes[2], bytes[1], bytes[0]),
    };
    let word: u32 = (b0 as u32) | ((b1 as u32) << 8) | ((b2 as u32) << 16) | ((b3 as u32) << 24);
    word as i32
}

/// The value that holds `port` in network byte order on a machine of the
/// given byte order: `port` itself where the machine stores the most
/// significant byte first, else `port` with its bytes exchanged.
pub open spec fn network_order_u16(port: u16, order: ByteOrder) -> u16 {
    match order {
        ByteOrder::LittleEndian => swapped_u16(port),
        ByteOrder::BigEndian => port,
    }
}

/// The value whose bytes in memory under `order` are those of `port` in
/// network byte order, most significant first.
pub fn network_u16(port: u16, order: ByteOrder) -> (stored: u16)
    ensures
        stored == network_order_u16(port, order),
        u16_bytes(stored, order) == u16_bytes(port, ByteOrder::BigEndian),
{
    match order {
        ByteOrder::LittleEndian => {
            let stored: u16 = (port >> 8) | ((port & 0xff) << 8);
            assert((stored & 0xff) as u8 == (port >> 8) as u8 && (stored >> 8) as u8 == (port
                & 0xff) as u8) by (bit_vector)
                requires
                    stored == (port >> 8) | ((port & 0xff) << 8),
            ;
            assert(u16_bytes(stored, order) =~= u16_bytes(port, ByteOrder::BigEndian));
            stored
        },
        ByteOrder::BigEndian => port,
    }
}

} // verus!
