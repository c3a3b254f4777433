//! Unsigned integers as they lie in the bytes of a binary.

use vstd::prelude::*;

verus! {

/// The order in which a binary stores the bytes of an integer.
#[derive(Clone, Copy, Debug, PartialEq, Eq, Structural)]
pub enum Endianness {
    /// The least significant byte comes first.
    Little,
    /// The most significant byte comes first.
    Big,
}

/// The number of values that `width` bytes can tell apart: 256 to the power
/// of `width`.
pub open spec fn capacity(width: nat) -> nat
    decreases width,
{
    if width == 0 {
        1
    } else {
        256 * capacity((width - 1) as nat)
    }
}

/// The number that `bytes` spell when the first byte counts least.
pub open spec fn le_value(bytes: Seq<u8>) -> nat
    decreases bytes.len(),
{
    if bytes.len() == 0 {
        0
    } else {
        bytes[0] as nat + 256 * le_value(bytes.drop_first())
    }
}

/// The number that `bytes` spell when the last byte counts least.
pub open spec fn be_value(bytes: Seq<u8>) -> nat
    decreases bytes.len(),
{
    if bytes.len() == 0 {
        0
    } else {
        256 * be_value(bytes.drop_last()) + bytes.last() as nat
    }
}

/// The number that `bytes` spell in the given byte order.
pub open spec fn value_of(bytes: Seq<u8>, endianness: Endianness) -> nat {
    match endianness {
        Endianness::Little => le_value(bytes),
        Endianness::Big => be_value(bytes),
    }
}

/// The `width` bytes that spell `value`, least significant byte first.
pub open spec fn le_bytes(value: nat, width: nat) -> Seq<u8>
    decreases width,
{
    if width == 0 {
        Seq::empty()
    } else {
        seq![(value % 256) as u8] + le_bytes(value / 256, (width - 1) as nat)
    }
}

/// The `width` bytes that spell `value`, most significant byte first.
pub open spec fn be_bytes(value: nat, width: nat) -> Seq<u8>
    decreases width,
{
    if width == 0 {
        Seq::empty()
    } else {
        be_bytes(value / 256, (width - 1) as nat).push((value % 256) as u8)
    }
}

/// The `width` bytes that spell `value` in the given byte order.
pub open spec fn bytes_of(value: nat, width: nat, endianness: Endianness) -> Seq<u8> {
    match endianness {
        Endianness::Little => le_bytes(value, width),
        Endianness::Big => be_bytes(value, width),
    }
}

/// What the 32-bit size field holds: the bytes read at its place must be
/// exactly four.
pub open spec fn spec_decode_size(data: Seq<u8>, endianness: Endianness) -> Option<u32> {
    if data.len() == 4 {
        Some(value_of(data, endianness) as u32)
    } else {
        None
    }
}

/// What the pointer field holds: the binary's addresses must be four or eight
/// bytes wide, and the bytes read at its place exactly that many. A 32-bit
/// pointer is extended with zeros.
pub open spec fn spec_decode_offset(
    data: Seq<u8>,
    endianness: Endianness,
    address_width: usize,
) -> Option<u64> {
    if (address_width == 4 || address_width == 8) && data.len() == address_width {
        Some(value_of(data, endianness) as u64)
    } else {
        None
    }
}

/// The capacities of the widths that fit a `u64`.
pub proof fn lemma_capacity_table()
    ensures
        capacity(0) == 1,
        capacity(1) == 0x100,
        capacity(2) == 0x1_0000,
        capacity(3) == 0x100_0000,
        capacity(4) == 0x1_0000_0000,
        capacity(5) == 0x100_0000_0000,
        capacity(6) == 0x1_0000_0000_0000,
        capacity(7) == 0x100_0000_0000_0000,
        capacity(8) == 0x1_0000_0000_0000_0000,
{
    reveal_with_fuel(capacity, 9);
}

/// Bytes spell a number below the capacity of their count, in either order.
pub proof fn lemma_value_below_capacity(bytes: Seq<u8>, endianness: Endianness)
    ensures
        value_of(bytes, endianness) < capacity(bytes.len()),
    decreases bytes.len(),
{
    if bytes.len() > 0 {
        lemma_value_below_capacity(bytes.drop_first(), endianness);
        lemma_value_below_capacity(bytes.drop_last(), endianness);
    }
}

/// Writing a number that fits in `width` bytes and reading the bytes back in
/// the same byte order gives the number again.
pub proof fn lemma_value_of_bytes_of(value: nat, width: nat, endianness: Endianness)
    requires
        value < capacity(width),
    ensures
        bytes_of(value, width, endianness).len() == width,
        value_of(bytes_of(value, width, endianness), endianness) == value,
    decreases width,
{
    if width > 0 {
        let rest = (width - 1) as nat;
        lemma_value_of_bytes_of(value / 256, rest, endianness);
        match endianness {
            Endianness::Little => {
                let bytes = le_bytes(value, width);
                assert(bytes.drop_first() =~= le_bytes(value / 256, rest));
            },
            Endianness::Big => {
                let bytes = be_bytes(value, width);
                assert(bytes.drop_last() =~= be_bytes(value / 256, rest));
            },
        }
    }
}

/// Reading bytes as a number and writing the number back over as many bytes
/// in the same byte order gives the bytes again.
pub proof fn lemma_bytes_of_value_of(bytes: Seq<u8>, endianness: Endianness)
    ensures
        bytes_of(value_of(bytes, endianness), bytes.len(), endianness) == bytes,
    decreases bytes.len(),
{
    if bytes.len() > 0 {
        match endianness {
            Endianness::Little => {
                lemma_bytes_of_value_of(bytes.drop_first(), endianness);
                assert(bytes =~= seq![bytes[0]] + bytes.drop_first());
            },
            Endianness::Big => {
                lemma_bytes_of_value_of(bytes.drop_last(), endianness);
                assert(bytes =~= bytes.drop_last().push(bytes.last()));
            },
        }
    } else {
        assert(bytes =~= Seq::<u8>::empty());
    }
}

/// Both header fields are decoded as they were written: a size from its four
/// bytes, and an offset that fits the binary's address width from as many
/// bytes as an address is wide.
pub proof fn lemma_fields_round_trip(
    data_offset: u64,
    data_size: u32,
    endianness: Endianness,
    address_width: usize,
)
    requires
        address_width == 4 || address_width == 8,
        data_offset < capacity(address_width as nat),
    ensures
        spec_decode_size(bytes_of(data_size as nat, 4, endianness), endianness) == Some(data_size),
        spec_decode_offset(
            bytes_of(data_offset as nat, address_width as nat, endianness),
            endianness,
            address_width,
        ) == Some(data_offset),
{
    lemma_capacity_table();
    lemma_value_of_bytes_of(data_size as nat, 4, endianness);
    lemma_value_of_bytes_of(data_offset as nat, address_width as nat, endianness);
}

/// Reads the unsigned integer that up to eight bytes spell.
fn decode(data: &[u8], endianness: Endianness) -> (value: u64)
    requires
        data@.len() <= 8,
    ensures
        value == value_of(data@, endianness),
{
    let count = data.len();
    let mut value: u64 = 0;
    let mut done: usize = 0;
    while done < count
        invariant
            count == data@.len(),
            count <= 8,
            done <= count,
            value < capacity(done as nat),
            endianness == Endianness::Big ==> value == be_value(data@.subrange(0, done as int)),
            endianness == Endianness::Little ==> value == le_value(
                data@.subrange(count - done, count as int),
            ),
        decreases count - done,
    {
        let byte = match endianness {
            Endianness::Big => data[done],
            Endianness::Little => data[count - 1 - done],
        };
        proof {
            lemma_capacity_table();
            assert(done == 0 || done == 1 || done == 2 || done == 3 || done == 4 || done == 5
                || done == 6 || done == 7);
            let taken = data@.subrange(0, done + 1);
            assert(taken.drop_last() =~= data@.subrange(0, done as int));
            let kept = data@.subrange(count - done - 1, count as int);
            assert(kept.drop_first() =~= data@.subrange(count - done, count as int));
        }
        value = value * 256 + byte as u64;
        done = done + 1;
    }
    assert(data@.subrange(0, count as int) =~= data@);
    value
}

/// Decodes the 32-bit size field from the bytes read at its place.
pub fn decode_size(data: &[u8], endianness: Endianness) -> (size: Option<u32>)
    ensures
        size == spec_decode_size(data@, endianness),
        size matches Some(value) ==> value == value_of(data@, endianness),
{
    if data.len() != 4 {
        return None;
    }
    let value = decode(data, endianness);
    proof {
        lemma_value_below_capacity(data@, endianness);
        lemma_capacity_table();
    }
    Some(value as u32)
}

/// Decodes the pointer field from the bytes read at its place, for a binary
/// whose addresses are `address_width` bytes wide.
pub fn decode_offset(data: &[u8], endianness: Endianness, address_width: usize) -> (offset: Option<
    u64,
>)
    ensures
        offset == spec_decode_offset(data@, endianness, address_width),
        offset matches Some(value) ==> value == value_of(data@, endianness) && value < capacity(
            address_width as nat,
        ),
{
    if (address_width != 4 && address_width != 8) || data.len() != address_width {
        return None;
    }
    proof {
        lemma_value_below_capacity(data@, endianness);
    }
    Some(decode(data, endianness))
}

} // verus!
