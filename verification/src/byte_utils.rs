//! Big-endian readers over a byte buffer.
//!
//! The readers assume that the caller has checked the whole extent of the
//! field against the buffer; their preconditions say so.

use vstd::prelude::*;
use vstd::slice::slice_subrange;

verus! {

/// The number that a byte string denotes when read big-endian.
pub open spec fn be_value(bytes: Seq<u8>) -> nat
    decreases bytes.len(),
{
    if bytes.len() == 0 {
        0
    } else {
        be_value(bytes.drop_last()) * 256 + bytes.last() as nat
    }
}

/// The first number that does not fit in `width` bytes.
pub open spec fn be_limit(width: nat) -> nat
    decreases width,
{
    if width == 0 {
        1
    } else {
        256 * be_limit((width - 1) as nat)
    }
}

/// The big-endian encoding of `value` in `width` bytes.
pub open spec fn be_bytes(value: nat, width: nat) -> Seq<u8>
    decreases width,
{
    if width == 0 {
        Seq::empty()
    } else {
        be_bytes(value / 256, (width - 1) as nat).push((value % 256) as u8)
    }
}

/// The field of `width` bytes at `index` lies inside `data`.
pub open spec fn in_bounds(data: Seq<u8>, index: int, width: int) -> bool {
    0 <= index && 0 <= width && index + width <= data.len()
}

/// The big-endian number held by the `width` bytes of `data` at `index`.
pub open spec fn be_at(data: Seq<u8>, index: int, width: int) -> nat {
    be_value(data.subrange(index, index + width))
}

/// A byte string of `width` bytes denotes a number below `be_limit(width)`.
pub proof fn lemma_be_value_bound(bytes: Seq<u8>)
    ensures
        be_value(bytes) < be_limit(bytes.len()),
    decreases bytes.len(),
{
    if bytes.len() > 0 {
        lemma_be_value_bound(bytes.drop_last());
    }
}

/// Encoding has the width asked for.
pub proof fn lemma_be_bytes_len(value: nat, width: nat)
    ensures
        be_bytes(value, width).len() == width,
    decreases width,
{
    if width > 0 {
        lemma_be_bytes_len(value / 256, (width - 1) as nat);
    }
}

/// Reading back an encoded number gives the number.
pub proof fn lemma_be_value_of_be_bytes(value: nat, width: nat)
    requires
        value < be_limit(width),
    ensures
        be_value(be_bytes(value, width)) == value,
    decreases width,
{
    if width > 0 {
        let rest = be_bytes(value / 256, (width - 1) as nat);
        lemma_be_value_of_be_bytes(value / 256, (width - 1) as nat);
        assert(rest.push((value % 256) as u8).drop_last() =~= rest);
    }
}

/// Encoding the number that a byte string denotes gives the byte string.
pub proof fn lemma_be_bytes_of_be_value(bytes: Seq<u8>)
    ensures
        be_bytes(be_value(bytes), bytes.len()) == bytes,
    decreases bytes.len(),
{
    if bytes.len() > 0 {
        lemma_be_bytes_of_be_value(bytes.drop_last());
        let v = be_value(bytes);
        assert(v / 256 == be_value(bytes.drop_last()));
        assert(v % 256 == bytes.last() as nat);
        assert(bytes.drop_last().push(bytes.last()) =~= bytes);
    } else {
        assert(bytes =~= Seq::<u8>::empty());
    }
}

/// The value of two bytes, written out.
pub proof fn lemma_be_value_2(bytes: Seq<u8>)
    requires
        bytes.len() == 2,
    ensures
        be_value(bytes) == bytes[0] * 256 + bytes[1],
{
    reveal_with_fuel(be_value, 3);
    assert(bytes.drop_last().last() == bytes[0]);
}

/// The value of four bytes, written out.
pub proof fn lemma_be_value_4(bytes: Seq<u8>)
    requires
        bytes.len() == 4,
    ensures
        be_value(bytes) == bytes[0] * 16777216 + bytes[1] * 65536 + bytes[2] * 256 + bytes[3],
{
    lemma_be_value_2(bytes.subrange(0, 2));
    assert(bytes.drop_last().drop_last() =~= bytes.subrange(0, 2));
    reveal_with_fuel(be_value, 3);
}

/// The value of eight bytes, from the values of its two halves.
pub proof fn lemma_be_value_8(bytes: Seq<u8>)
    requires
        bytes.len() == 8,
    ensures
        be_value(bytes) == be_value(bytes.subrange(0, 4)) * 4294967296 + be_value(
            bytes.subrange(4, 8),
        ),
{
    let hi = bytes.subrange(0, 4);
    let lo = bytes.subrange(4, 8);
    lemma_be_value_4(lo);
    let s7 = bytes.drop_last();
    let s6 = s7.drop_last();
    let s5 = s6.drop_last();
    let s4 = s5.drop_last();
    assert(s4 =~= hi);
    assert(be_value(bytes) == be_value(s7) * 256 + bytes[7]);
    assert(be_value(s7) == be_value(s6) * 256 + bytes[6]);
    assert(be_value(s6) == be_value(s5) * 256 + bytes[5]);
    assert(be_value(s5) == be_value(s4) * 256 + bytes[4]);
}

/// The byte at `index`.
pub fn get_u8(data: &[u8], index: usize) -> (value: u8)
    requires
        in_bounds(data@, index as int, 1),
    ensures
        value == data@[index as int],
{
    data[index]
}

/// The 16-bit big-endian number at `index`.
pub fn get_u16(data: &[u8], index: usize) -> (value: u16)
    requires
        in_bounds(data@, index as int, 2),
    ensures
        value == be_at(data@, index as int, 2),
{
    let hi: u16 = data[index] as u16;
    let lo: u16 = data[index + 1] as u16;
    proof {
        lemma_be_value_2(data@.subrange(index as int, index + 2));
    }
    hi * 256 + lo
}

/// The 32-bit big-endian number at `index`.
pub fn get_u32(data: &[u8], index: usize) -> (value: u32)
    requires
        in_bounds(data@, index as int, 4),
    ensures
        value == be_at(data@, index as int, 4),
{
    let b0: u32 = data[index] as u32;
    let b1: u32 = data[index + 1] as u32;
    let b2: u32 = data[index + 2] as u32;
    let b3: u32 = data[index + 3] as u32;
    proof {
        lemma_be_value_4(data@.subrange(index as int, index + 4));
    }
    b0 * 16777216 + b1 * 65536 + b2 * 256 + b3
}

/// The 64-bit big-endian number at `index`.
pub fn get_u64(data: &[u8], index: usize) -> (value: u64)
    requires
        in_bounds(data@, index as int, 8),
    ensures
        value == be_at(data@, index as int, 8),
{
    let len: usize = data.len();
    assert(index + 8 <= len);
    let hi: u64 = get_u32(data, index) as u64;
    let lo: u64 = get_u32(data, index + 4) as u64;
    proof {
        let field = data@.subrange(index as int, index + 8);
        lemma_be_value_8(field);
        assert(field.subrange(0, 4) =~= data@.subrange(index as int, index + 4));
        assert(field.subrange(4, 8) =~= data@.subrange(index + 4, index + 8));
    }
    hi * 4294967296 + lo
}

/// The 20 bytes at `index`.
pub fn get_bytes20(data: &[u8], index: usize) -> (bytes: &[u8])
    requires
        in_bounds(data@, index as int, 20),
    ensures
        bytes@ == data@.subrange(index as int, index + 20),
{
    let len: usize = data.len();
    assert(index + 20 <= len);
    slice_subrange(data, index, index + 20)
}

/// The 32 bytes at `index`.
pub fn get_bytes32(data: &[u8], index: usize) -> (bytes: &[u8])
    requires
        in_bounds(data@, index as int, 32),
    ensures
        bytes@ == data@.subrange(index as int, index + 32),
{
    let len: usize = data.len();
    assert(index + 32 <= len);
    slice_subrange(data, index, index + 32)
}

/// `addr` padded on the left with zero bytes to a length of 32.
pub open spec fn extended_to_32(addr: Seq<u8>) -> Seq<u8> {
    Seq::new((32 - addr.len()) as nat, |i: int| 0u8) + addr
}

/// Pads an address of at most 32 bytes on the left with zero bytes, to 32 bytes.
pub fn extend_address_to_32(addr: &[u8]) -> (padded: Vec<u8>)
    requires
        addr@.len() <= 32,
    ensures
        padded@ == extended_to_32(addr@),
{
    let mut padded: Vec<u8> = Vec::new();
    let zeros: usize = 32 - addr.len();
    let mut i: usize = 0;
    while i < zeros
        invariant
            i <= zeros,
            padded@ == Seq::new(i as nat, |k: int| 0u8),
        decreases zeros - i,
    {
        padded.push(0);
        i += 1;
    }
    let mut j: usize = 0;
    while j < addr.len()
        invariant
            j <= addr@.len(),
            zeros + addr@.len() == 32,
            padded@ == Seq::new(zeros as nat, |k: int| 0u8) + addr@.subrange(0, j as int),
        decreases addr@.len() - j,
    {
        padded.push(addr[j]);
        j += 1;
    }
    assert(addr@.subrange(0, addr@.len() as int) =~= addr@);
    padded
}

} // verus!
