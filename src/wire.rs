//! Field-level wire encoding: postcard's integer encodings, stated over byte sequences.
use vstd::prelude::*;

verus! {

/// The canonical unsigned LEB128 bytes of `v`: seven bits per byte, lowest group
/// first, the high bit set on every byte but the last.
pub open spec fn varint(v: nat) -> Seq<u8>
    decreases v,
{
    if v < 128 {
        seq![v as u8]
    } else {
        seq![(v % 128 + 128) as u8] + varint(v / 128)
    }
}

/// `128` to the power `i`.
pub open spec fn pow128(i: nat) -> int
    decreases i,
{
    if i == 0 {
        1
    } else {
        128 * pow128((i - 1) as nat)
    }
}

/// Zig-zag mapping of a signed value onto the naturals: `0, -1, 1, -2, ...` to `0, 1, 2, 3, ...`.
pub open spec fn zigzag(v: int) -> nat {
    if v >= 0 {
        (2 * v) as nat
    } else {
        (-2 * v - 1) as nat
    }
}

/// Inverse of [`zigzag`].
pub open spec fn unzigzag(n: int) -> int {
    if n % 2 == 0 {
        n / 2
    } else {
        -(n / 2) - 1
    }
}

/// Reads the varint of a 32-bit value from `b`, from byte `i` on: the value carried by
/// bytes `i..` (already scaled by `128^i`) and the index just past the last byte.
/// At most five bytes are read; the fifth must end the varint and carry at most four bits.
pub open spec fn varint32_take_from(b: Seq<u8>, i: nat) -> Option<(int, nat)>
    decreases 5 - i,
{
    if i >= b.len() || i >= 5 {
        None
    } else if b[i as int] < 128 {
        if i == 4 && b[i as int] > 15 {
            None
        } else {
            Some((b[i as int] as int * pow128(i), i + 1))
        }
    } else {
        match varint32_take_from(b, i + 1) {
            Some((v, n)) => Some((v + (b[i as int] as int - 128) * pow128(i), n)),
            None => None,
        }
    }
}

/// Reads a 32-bit varint at the start of `b`: its value and how many bytes it took.
pub open spec fn varint32_take(b: Seq<u8>) -> Option<(int, nat)> {
    varint32_take_from(b, 0)
}

/// The eight little-endian bytes of `x`.
pub open spec fn le_u64(x: u64) -> Seq<u8> {
    seq![
        x as u8,
        (x >> 8u64) as u8,
        (x >> 16u64) as u8,
        (x >> 24u64) as u8,
        (x >> 32u64) as u8,
        (x >> 40u64) as u8,
        (x >> 48u64) as u8,
        (x >> 56u64) as u8,
    ]
}

#[verifier::external_type_specification]
#[verifier::external_body]
pub struct ExPostcardError(postcard::Error);

/// Relies on postcard::to_stdvec for a `u32`: postcard writes the value's canonical
/// varint (serialize_u32, varint_u32), and writing into a fresh Vec cannot fail.
#[verifier::external_body]
fn u32_bytes(v: u32) -> (r: Result<Vec<u8>, postcard::Error>)
    ensures
        r is Ok && r->Ok_0@ == varint(v as nat),
{
    postcard::to_stdvec(&v)
}

/// Relies on postcard::to_stdvec for an `i32`: postcard writes the varint of the
/// value's zig-zag mapping (serialize_i32, zig_zag_i32, varint_u32); writing into a
/// fresh Vec cannot fail.
#[verifier::external_body]
fn i32_bytes(v: i32) -> (r: Result<Vec<u8>, postcard::Error>)
    ensures
        r is Ok && r->Ok_0@ == varint(zigzag(v as int)),
{
    postcard::to_stdvec(&v)
}

/// Relies on postcard::to_stdvec for an `i16`: postcard writes the varint of the
/// value's zig-zag mapping (serialize_i16, zig_zag_i16, varint_u16); writing into a
/// fresh Vec cannot fail.
#[verifier::external_body]
fn i16_bytes(v: i16) -> (r: Result<Vec<u8>, postcard::Error>)
    ensures
        r is Ok && r->Ok_0@ == varint(zigzag(v as int)),
{
    postcard::to_stdvec(&v)
}

/// Relies on postcard::to_stdvec for a `Vec<u8>`: postcard writes the length as a
/// varint (serialize_seq, varint_usize), then each byte as it is (serialize_u8);
/// writing into a fresh Vec cannot fail.
#[verifier::external_body]
fn byte_seq_bytes(v: &Vec<u8>) -> (r: Result<Vec<u8>, postcard::Error>)
    ensures
        r is Ok && r->Ok_0@ == varint(v@.len()) + v@,
{
    postcard::to_stdvec(v)
}

/// Relies on postcard::take_from_bytes for a `u32`: it reads one varint of at most
/// five bytes (try_take_varint_u32) and hands back the bytes that follow it.
#[verifier::external_body]
pub(crate) fn take_u32(b: &[u8]) -> (r: Result<(u32, &[u8]), postcard::Error>)
    ensures
        match r {
            Ok((v, rest)) => varint32_take(b@) matches Some((x, n)) && v as int == x && rest@
                == b@.skip(n as int),
            Err(_) => varint32_take(b@) is None,
        },
{
    postcard::take_from_bytes::<u32>(b)
}

/// Relies on postcard::take_from_bytes for an `i32`: it reads one varint of at most
/// five bytes (try_take_varint_u32), undoes the zig-zag mapping (de_zig_zag_i32) and
/// hands back the bytes that follow it.
#[verifier::external_body]
pub(crate) fn take_i32(b: &[u8]) -> (r: Result<(i32, &[u8]), postcard::Error>)
    ensures
        match r {
            Ok((v, rest)) => varint32_take(b@) matches Some((x, n)) && v as int == unzigzag(x)
                && rest@ == b@.skip(n as int),
            Err(_) => varint32_take(b@) is None,
        },
{
    postcard::take_from_bytes::<i32>(b)
}

/// Appends the varint of `v`.
pub fn push_u32(out: &mut Vec<u8>, v: u32)
    ensures
        final(out)@ == old(out)@ + varint(v as nat),
{
    if let Ok(mut b) = u32_bytes(v) {
        out.append(&mut b);
    }
}

/// Appends the varint of the zig-zag mapping of `v`.
pub fn push_i32(out: &mut Vec<u8>, v: i32)
    ensures
        final(out)@ == old(out)@ + varint(zigzag(v as int)),
{
    if let Ok(mut b) = i32_bytes(v) {
        out.append(&mut b);
    }
}

/// Appends the varint of the zig-zag mapping of `v`.
pub fn push_i16(out: &mut Vec<u8>, v: i16)
    ensures
        final(out)@ == old(out)@ + varint(zigzag(v as int)),
{
    if let Ok(mut b) = i16_bytes(v) {
        out.append(&mut b);
    }
}

/// Appends a byte string: its length as a varint, then its bytes.
pub fn push_byte_seq(out: &mut Vec<u8>, v: &Vec<u8>)
    ensures
        final(out)@ == old(out)@ + varint(v@.len()) + v@,
{
    if let Ok(mut b) = byte_seq_bytes(v) {
        out.append(&mut b);
    }
}

/// Appends the eight little-endian bytes of `x`.
pub fn push_le_u64(out: &mut Vec<u8>, x: u64)
    ensures
        final(out)@ == old(out)@ + le_u64(x),
{
    out.push(x as u8);
    out.push((x >> 8u64) as u8);
    out.push((x >> 16u64) as u8);
    out.push((x >> 24u64) as u8);
    out.push((x >> 32u64) as u8);
    out.push((x >> 40u64) as u8);
    out.push((x >> 48u64) as u8);
    out.push((x >> 56u64) as u8);
    assert(final(out)@ =~= old(out)@ + le_u64(x));
}

/// `128^1` through `128^5`.
proof fn lemma_pow128_values()
    ensures
        pow128(1) == 0x80,
        pow128(2) == 0x4000,
        pow128(3) == 0x20_0000,
        pow128(4) == 0x1000_0000,
        pow128(5) == 0x8_0000_0000,
{
    reveal_with_fuel(pow128, 6);
}

proof fn lemma_varint32_take_from(p: Seq<u8>, v: nat, rest: Seq<u8>)
    requires
        p.len() <= 4,
        v * pow128(p.len()) < 0x1_0000_0000,
    ensures
        varint32_take_from(p + varint(v) + rest, p.len()) == Some(
            (v * pow128(p.len()), p.len() + varint(v).len()),
        ),
    decreases v,
{
    let i = p.len();
    let b = p + varint(v) + rest;
    lemma_pow128_values();
    assert(pow128(i) > 0) by {
        reveal_with_fuel(pow128, 5);
    }
    if v < 128 {
        assert(b[i as int] == v as u8);
        if i == 4 {
            assert(v < 16) by (nonlinear_arith)
                requires
                    v * 0x1000_0000 < 0x1_0000_0000int,
            ;
        }
    } else {
        let d = (v % 128 + 128) as u8;
        let q = v / 128;
        assert(b[i as int] == d);
        assert(i < 4) by {
            if i == 4 {
                assert(v * pow128(4) >= 128 * 0x1000_0000) by (nonlinear_arith)
                    requires
                        v >= 128,
                        pow128(4) == 0x1000_0000,
                ;
            }
        }
        let p2 = p.push(d);
        assert(pow128(i + 1) == 128 * pow128(i));
        assert(q * pow128(i + 1) <= v * pow128(i)) by (nonlinear_arith)
            requires
                pow128(i + 1) == 128 * pow128(i),
                pow128(i) > 0,
                q == v / 128,
        ;
        assert(b == p2 + varint(q) + rest);
        lemma_varint32_take_from(p2, q, rest);
        assert(q * pow128(i + 1) + (d as int - 128) * pow128(i) == v * pow128(i))
            by (nonlinear_arith)
            requires
                pow128(i + 1) == 128 * pow128(i),
                q == v / 128,
                d as int == v % 128 + 128,
        ;
    }
}

/// Reading back the varint of a 32-bit value gives the value and the length of the
/// varint, whatever bytes follow it.
pub proof fn lemma_varint32_round_trip(v: nat, rest: Seq<u8>)
    requires
        v < 0x1_0000_0000,
    ensures
        varint32_take(varint(v) + rest) == Some((v as int, varint(v).len())),
{
    let e = Seq::<u8>::empty();
    assert(e + varint(v) + rest == varint(v) + rest);
    reveal_with_fuel(pow128, 1);
    lemma_varint32_take_from(e, v, rest);
}

/// The zig-zag mapping of an `i32` fits in 32 bits and is undone by [`unzigzag`].
pub proof fn lemma_zigzag_i32(v: i32)
    ensures
        zigzag(v as int) < 0x1_0000_0000,
        unzigzag(zigzag(v as int) as int) == v as int,
{
}

} // verus!
