//! Packed controller state: 72 bits, least-significant-bit first, laid out as
//! three button bytes (24 button flags) followed by four 12-bit axis fields.
//! An axis field stores the top 12 bits of a 16-bit input value.

use vstd::prelude::*;

verus! {

/// Number of meaningful button bit positions.
pub const BUTTON_COUNT: usize = 24;
/// Number of analog axis fields.
pub const AXIS_COUNT: usize = 4;
/// Size in bytes of the packed state block embedded in input reports.
pub const STATE_BYTES: usize = 9;

/// Bit `i` of the packed state, least-significant-bit first within each byte.
pub open spec fn spec_bit(s: Seq<u8>, i: int) -> bool {
    (s[i / 8] >> ((i % 8) as u8)) & 1 == 1
}

/// The 12-bit value stored in axis field `k` (0 = left horizontal,
/// 1 = left vertical, 2 = right horizontal, 3 = right vertical).
/// Field `k` occupies bits `24 + 12*k .. 36 + 12*k` of the packed state.
pub open spec fn spec_axis(s: Seq<u8>, k: int) -> u16 {
    if k == 0 {
        ((s[3] as u16) + 256 * ((s[4] & 0x0f) as u16)) as u16
    } else if k == 1 {
        (((s[4] >> 4) as u16) + 16 * (s[5] as u16)) as u16
    } else if k == 2 {
        ((s[6] as u16) + 256 * ((s[7] & 0x0f) as u16)) as u16
    } else {
        (((s[7] >> 4) as u16) + 16 * (s[8] as u16)) as u16
    }
}

/// The packed state after setting button bit `i` to `v`; indices outside
/// `0..24` leave the state unchanged.
pub open spec fn spec_set_bit(s: Seq<u8>, i: int, v: bool) -> Seq<u8> {
    if 0 <= i < 24 {
        let b = s[i / 8];
        let m = 1u8 << ((i % 8) as u8);
        s.update(i / 8, if v { b | m } else { b & !m })
    } else {
        s
    }
}

/// The packed state after storing `value >> 4` into axis field `k`;
/// indices outside `0..4` leave the state unchanged.
pub open spec fn spec_set_axis(s: Seq<u8>, k: int, value: u16) -> Seq<u8> {
    let st = value >> 4;
    if k == 0 {
        s.update(3, st as u8).update(4, (s[4] & 0xf0) | ((st >> 8) as u8))
    } else if k == 1 {
        s.update(4, (s[4] & 0x0f) | ((st as u8) << 4)).update(5, (st >> 4) as u8)
    } else if k == 2 {
        s.update(6, st as u8).update(7, (s[7] & 0xf0) | ((st >> 8) as u8))
    } else if k == 3 {
        s.update(7, (s[7] & 0x0f) | ((st as u8) << 4)).update(8, (st >> 4) as u8)
    } else {
        s
    }
}

/// Sets button bit `index` of the 9-byte packed state to `value`.
/// Out-of-range indices are a no-op.
pub fn set_bit(s: &mut Vec<u8>, index: usize, value: bool)
    requires
        old(s)@.len() == STATE_BYTES,
    ensures
        final(s)@ == spec_set_bit(old(s)@, index as int, value),
        final(s)@.len() == STATE_BYTES,
{
    if index < BUTTON_COUNT {
        let byte_i: usize = index / 8;
        let bit_i: u8 = (index % 8) as u8;
        let mask: u8 = 1u8 << bit_i;
        let b: u8 = s[byte_i];
        let nb: u8 = if value { b | mask } else { b & !mask };
        s.set(byte_i, nb);
    }
}

/// Stores `value >> 4` into axis field `axis` of the 9-byte packed state.
/// Out-of-range axis indices are a no-op.
pub fn set_axis_bits(s: &mut Vec<u8>, axis: usize, value: u16)
    requires
        old(s)@.len() == STATE_BYTES,
    ensures
        final(s)@ == spec_set_axis(old(s)@, axis as int, value),
        final(s)@.len() == STATE_BYTES,
{
    let st: u16 = value >> 4;
    if axis == 0 {
        s.set(3, st as u8);
        let b4: u8 = s[4];
        s.set(4, (b4 & 0xf0) | ((st >> 8) as u8));
    } else if axis == 1 {
        let b4: u8 = s[4];
        s.set(4, (b4 & 0x0f) | ((st as u8) << 4));
        s.set(5, (st >> 4) as u8);
    } else if axis == 2 {
        s.set(6, st as u8);
        let b7: u8 = s[7];
        s.set(7, (b7 & 0xf0) | ((st >> 8) as u8));
    } else if axis == 3 {
        let b7: u8 = s[7];
        s.set(7, (b7 & 0x0f) | ((st as u8) << 4));
        s.set(8, (st >> 4) as u8);
    }
}

/// Setting one bit of a byte leaves every other bit of that byte unchanged,
/// and makes the chosen bit equal to the requested value.
proof fn lemma_byte_bit_update(b: u8, k: u8, j: u8, v: bool)
    by (bit_vector)
    requires
        k < 8,
        j < 8,
    ensures
        ({
            let nb = if v { b | (1u8 << k) } else { b & !(1u8 << k) };
            &&& (j == k ==> (((nb >> j) & 1 == 1) <==> v))
            &&& (j != k ==> (nb >> j) & 1 == (b >> j) & 1)
        }),
{
}

/// Effect and frame of `spec_set_bit`: the touched bit takes the requested
/// value, every other bit position is unchanged, and all axis fields are
/// unchanged.
pub proof fn lemma_set_bit_frame(s: Seq<u8>, i: int, v: bool)
    requires
        s.len() == STATE_BYTES,
        0 <= i < 24,
    ensures
        spec_bit(spec_set_bit(s, i, v), i) == v,
        forall|j: int| 0 <= j < 72 && j != i ==> spec_bit(spec_set_bit(s, i, v), j) == spec_bit(s, j),
        forall|k: int| 0 <= k < 4 ==> spec_axis(spec_set_bit(s, i, v), k) == spec_axis(s, k),
{
    let t = spec_set_bit(s, i, v);
    let bi = i / 8;
    assert(0 <= bi < 3);
    lemma_byte_bit_update(s[bi], (i % 8) as u8, (i % 8) as u8, v);
    assert(spec_bit(t, i) == v);
    assert forall|j: int| 0 <= j < 72 && j != i implies spec_bit(t, j) == spec_bit(s, j) by {
        if j / 8 == bi {
            assert(j % 8 != i % 8) by {
                vstd::arithmetic::div_mod::lemma_fundamental_div_mod(j, 8);
                vstd::arithmetic::div_mod::lemma_fundamental_div_mod(i, 8);
            }
            lemma_byte_bit_update(s[bi], (i % 8) as u8, (j % 8) as u8, v);
        }
    }
}

/// Effect and frame of `spec_set_axis`: the touched axis field stores
/// `value >> 4`, every other axis field is unchanged, and all button
/// bits are unchanged.
pub proof fn lemma_set_axis_frame(s: Seq<u8>, k: int, v: u16)
    requires
        s.len() == STATE_BYTES,
        0 <= k < 4,
    ensures
        spec_axis(spec_set_axis(s, k, v), k) == v >> 4,
        forall|m: int|
            0 <= m < 4 && m != k ==> spec_axis(spec_set_axis(s, k, v), m) == spec_axis(s, m),
        forall|j: int| 0 <= j < 24 ==> spec_bit(spec_set_axis(s, k, v), j) == spec_bit(s, j),
{
    let st = v >> 4;
    let t = spec_set_axis(s, k, v);
    assert forall|j: int| 0 <= j < 24 implies spec_bit(t, j) == spec_bit(s, j) by {
        assert(j / 8 <= 2) by (nonlinear_arith)
            requires
                0 <= j < 24,
        ;
        assert(t[j / 8] == s[j / 8]);
    }
    if k == 0 {
        let b4 = s[4];
        assert((((st as u8) as u16) + 256 * ((((b4 & 0xf0) | ((st >> 8) as u8)) & 0x0f) as u16))
            as u16 == st && ((b4 & 0xf0) | ((st >> 8) as u8)) >> 4 == b4 >> 4) by (bit_vector)
            requires
                st == v >> 4,
        ;
    } else if k == 1 {
        let b4 = s[4];
        assert(((((((b4 & 0x0f) | ((st as u8) << 4)) >> 4) as u16) + 16 * (((st >> 4) as u8)
            as u16)) as u16 == st) && ((b4 & 0x0f) | ((st as u8) << 4)) & 0x0f == b4 & 0x0f)
            by (bit_vector)
            requires
                st == v >> 4,
        ;
    } else if k == 2 {
        let b7 = s[7];
        assert((((st as u8) as u16) + 256 * ((((b7 & 0xf0) | ((st >> 8) as u8)) & 0x0f) as u16))
            as u16 == st && ((b7 & 0xf0) | ((st >> 8) as u8)) >> 4 == b7 >> 4) by (bit_vector)
            requires
                st == v >> 4,
        ;
    } else {
        let b7 = s[7];
        assert(((((((b7 & 0x0f) | ((st as u8) << 4)) >> 4) as u16) + 16 * (((st >> 4) as u8)
            as u16)) as u16 == st) && ((b7 & 0x0f) | ((st as u8) << 4)) & 0x0f == b7 & 0x0f)
            by (bit_vector)
            requires
                st == v >> 4,
        ;
    }
}

/// Storing an axis value and reading the field back recovers the value
/// with its low four bits cleared: the quantisation loses exactly the
/// bottom nibble of the 16-bit input.
pub proof fn lemma_axis_quantisation(s: Seq<u8>, k: int, v: u16)
    requires
        s.len() == STATE_BYTES,
        0 <= k < 4,
    ensures
        spec_axis(spec_set_axis(s, k, v), k) << 4 == v & 0xfff0,
{
    lemma_set_axis_frame(s, k, v);
    assert((v >> 4) << 4 == v & 0xfff0) by (bit_vector);
}

/// Pressing a button and then releasing it returns the packed state to its
/// previous value at every bit position except the one touched, which is
/// left cleared.
pub proof fn lemma_press_release_restores(s: Seq<u8>, i: int)
    requires
        s.len() == STATE_BYTES,
        0 <= i < 24,
    ensures
        forall|j: int|
            0 <= j < 72 && j != i ==> spec_bit(
                spec_set_bit(spec_set_bit(s, i, true), i, false),
                j,
            ) == spec_bit(s, j),
        !spec_bit(spec_set_bit(spec_set_bit(s, i, true), i, false), i),
{
    let s1 = spec_set_bit(s, i, true);
    lemma_set_bit_frame(s, i, true);
    lemma_set_bit_frame(s1, i, false);
}

} // verus!
