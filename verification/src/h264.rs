//! The headers of an H.264 stream, as far as they say how a picture is cropped.
//!
//! A stream is a row of units, each behind the bytes 0, 0, 1. Units of two types hold a parameter
//! set, in which the size of the pictures stands and how much of them is cropped. A crop that is
//! larger than the picture is no header that a stream can have, and a decoder need not refuse it.

use vstd::prelude::*;
use vstd::slice::*;

verus! {

/// What bit `k` of a byte counts, the first one most.
pub open spec fn bit_weight(k: nat) -> nat {
    if k == 0 {
        128
    } else if k == 1 {
        64
    } else if k == 2 {
        32
    } else if k == 3 {
        16
    } else if k == 4 {
        8
    } else if k == 5 {
        4
    } else if k == 6 {
        2
    } else {
        1
    }
}

/// The bit at a place, most significant first. Behind the end all bits are zero.
pub open spec fn bit_at(bytes: Seq<u8>, at: nat) -> bool {
    at / 8 < bytes.len() && (bytes[(at / 8) as int] as nat / bit_weight(at % 8)) % 2 == 1
}

/// The number that `n` bits hold.
pub open spec fn bits_value(bytes: Seq<u8>, at: nat, n: nat) -> nat
    decreases n,
{
    if n == 0 {
        0
    } else {
        2 * bits_value(bytes, at, (n - 1) as nat) + if bit_at(bytes, (at + n - 1) as nat) {
            1nat
        } else {
            0nat
        }
    }
}

/// How many zero bits there are, up to `most`.
pub open spec fn zero_bits(bytes: Seq<u8>, at: nat, most: nat) -> nat
    decreases most,
{
    if most == 0 || bit_at(bytes, at) {
        0
    } else {
        1 + zero_bits(bytes, at + 1, (most - 1) as nat)
    }
}

/// The most zero bits that a number may start with. The decoder reads numbers with more of them in
/// a way of its own, and no header needs one.
pub const MAX_ZERO_BITS: u64 = 16;

/// A number in the code of the headers, and the place behind it: as many bits as there are zeros in
/// front of a one, behind that one. `None` if there are more than [`MAX_ZERO_BITS`].
pub open spec fn number_at(bytes: Seq<u8>, at: nat) -> Option<(nat, nat)> {
    let zeros = zero_bits(bytes, at, (MAX_ZERO_BITS + 1) as nat);
    if zeros > MAX_ZERO_BITS {
        None
    } else {
        Some(((bits_value(bytes, at + zeros, zeros + 1) - 1) as nat, at + 2 * zeros + 1))
    }
}

/// The place behind `n` numbers.
pub open spec fn behind_numbers(bytes: Seq<u8>, at: nat, n: nat) -> Option<nat>
    decreases n,
{
    if n == 0 {
        Some(at)
    } else {
        match number_at(bytes, at) {
            None => None,
            Some((_, next)) => behind_numbers(bytes, next, (n - 1) as nat),
        }
    }
}

/// The number with a sign that a number stands for: 0, 1, -1, 2, -2 and so on.
pub open spec fn signed(code: nat) -> int {
    if code % 2 == 1 {
        (code as int + 1) / 2
    } else {
        -(code as int / 2)
    }
}

/// The place behind a list of at most `left` scales, each given by what it adds to the one before.
/// A scale of zero ends the list.
pub open spec fn behind_scales(bytes: Seq<u8>, at: nat, left: nat, last: int) -> Option<nat>
    decreases left,
{
    if left == 0 {
        Some(at)
    } else {
        match number_at(bytes, at) {
            None => None,
            Some((code, next)) => {
                let scale = (last + signed(code) + 256) % 256;
                if scale == 0 {
                    Some(next)
                } else {
                    behind_scales(bytes, next, (left - 1) as nat, scale)
                }
            },
        }
    }
}

/// The place behind the lists of scales from `index` on. There are eight, each behind a bit that
/// says whether it is given; the first six hold sixteen scales, the others sixty-four.
pub open spec fn behind_scale_lists(bytes: Seq<u8>, at: nat, index: nat) -> Option<nat>
    decreases 8 - index,
{
    if index >= 8 {
        Some(at)
    } else if !bit_at(bytes, at) {
        behind_scale_lists(bytes, at + 1, index + 1)
    } else {
        match behind_scales(
            bytes,
            at + 1,
            if index < 6 {
                16
            } else {
                64
            },
            8,
        ) {
            None => None,
            Some(next) => behind_scale_lists(bytes, next, index + 1),
        }
    }
}

/// The profiles whose parameter sets are taken.
pub open spec fn is_known_profile(profile: nat) -> bool {
    profile == 66 || profile == 77 || profile == 83 || profile == 86 || profile == 88 || profile
        == 100
}

/// The profiles whose parameter sets say how colours are stored.
pub open spec fn has_color_format(profile: nat) -> bool {
    profile == 83 || profile == 86 || profile == 100
}

/// The place behind how colours are stored.
pub open spec fn behind_color_format(bytes: Seq<u8>, at: nat) -> Option<nat> {
    if !has_color_format(bits_value(bytes, 0, 8)) {
        Some(at)
    } else {
        match behind_numbers(bytes, at, 3) {
            None => None,
            Some(next) => if bit_at(bytes, next + 1) {
                behind_scale_lists(bytes, next + 2, 0)
            } else {
                Some(next + 2)
            },
        }
    }
}

/// The place behind how pictures are put in order.
pub open spec fn behind_picture_order(bytes: Seq<u8>, at: nat) -> Option<nat> {
    match number_at(bytes, at) {
        None => None,
        Some((order, next)) => if order == 0 {
            behind_numbers(bytes, next, 1)
        } else if order == 1 {
            match behind_numbers(bytes, next + 1, 2) {
                None => None,
                Some(counted) => match number_at(bytes, counted) {
                    None => None,
                    Some((n, offsets)) => behind_numbers(bytes, offsets, n),
                },
            }
        } else {
            Some(next)
        },
    }
}

/// The place of the size in a parameter set: behind the profile, flags and level, its own number,
/// how colours are stored, the length of frame numbers, the order of pictures, the number of
/// reference frames and a flag.
pub open spec fn size_place(set: Seq<u8>) -> Option<nat> {
    match behind_numbers(set, 24, 1) {
        None => None,
        Some(colors) => match behind_color_format(set, colors) {
            None => None,
            Some(frame_number) => match behind_numbers(set, frame_number, 1) {
                None => None,
                Some(order) => match behind_picture_order(set, order) {
                    None => None,
                    Some(references) => match behind_numbers(set, references, 1) {
                        None => None,
                        Some(flag) => Some(flag + 1),
                    },
                },
            },
        },
    }
}

/// Four numbers in a row.
pub open spec fn four_numbers(bytes: Seq<u8>, at: nat) -> Option<(nat, nat, nat, nat)> {
    match number_at(bytes, at) {
        None => None,
        Some((a, second)) => match number_at(bytes, second) {
            None => None,
            Some((b, third)) => match number_at(bytes, third) {
                None => None,
                Some((c, fourth)) => match number_at(bytes, fourth) {
                    None => None,
                    Some((d, _)) => Some((a, b, c, d)),
                },
            },
        },
    }
}

/// Whether a parameter set crops no more than there is: left and right together at most the width,
/// top and bottom together at most the height. Sizes count blocks of sixteen pixels, less one;
/// crops count pairs of pixels. One that cannot be read does not fit.
pub open spec fn parameter_set_fits(set: Seq<u8>) -> bool {
    if !is_known_profile(bits_value(set, 0, 8)) {
        true
    } else {
        match size_place(set) {
            None => false,
            Some(at) => match number_at(set, at) {
                None => false,
                Some((width, second)) => match number_at(set, second) {
                    None => false,
                    Some((height, flags)) => if !bit_at(set, flags + 2) {
                        true
                    } else {
                        match four_numbers(set, flags + 3) {
                            None => false,
                            Some((left, right, top, bottom)) => {
                                &&& left + right <= 8 * (width + 1)
                                &&& top + bottom <= 8 * (height + 1)
                            },
                        }
                    },
                },
            },
        }
    }
}

/// Whether the mark in front of a unit stands at a place.
pub open spec fn unit_mark_at(packet: Seq<u8>, at: int) -> bool {
    &&& 0 <= at
    &&& at + 3 <= packet.len()
    &&& packet[at] == 0
    &&& packet[at + 1] == 0
    &&& packet[at + 2] == 1
}

/// The end of the unit at a place: the next mark, or the end of the packet.
pub open spec fn unit_end(packet: Seq<u8>, at: int) -> int
    decreases packet.len() - at,
{
    if at >= packet.len() {
        packet.len() as int
    } else if unit_mark_at(packet, at) {
        at
    } else {
        unit_end(packet, at + 1)
    }
}

/// A unit without the bytes that keep marks from showing up in it: of 0, 0, 3 the 3 is dropped. In
/// front of a byte over 3 there is no need for one, and all three are dropped.
pub open spec fn unescaped(unit: Seq<u8>) -> Seq<u8>
    decreases unit.len(),
{
    if unit.len() == 0 {
        seq![]
    } else if unit.len() >= 3 && unit[0] == 0 && unit[1] == 0 && unit[2] == 3 {
        let rest = unescaped(unit.subrange(3, unit.len() as int));
        if unit.len() > 3 && unit[3] > 3 {
            rest
        } else {
            seq![0u8, 0u8] + rest
        }
    } else {
        seq![unit[0]] + unescaped(unit.subrange(1, unit.len() as int))
    }
}

/// Whether a unit is a parameter set, by its first byte.
pub open spec fn is_parameter_set(first: u8) -> bool {
    first < 128 && (first % 32 == 7 || first % 32 == 15)
}

/// Whether a unit is no parameter set, or one that fits.
pub open spec fn unit_fits(unit: Seq<u8>) -> bool {
    let bytes = unescaped(unit);
    bytes.len() > 0 && is_parameter_set(bytes[0]) ==> parameter_set_fits(
        bytes.subrange(1, bytes.len() as int),
    )
}

/// Whether every parameter set in a packet asks for a crop inside its picture.
pub open spec fn crops_fit(packet: Seq<u8>) -> bool {
    forall|at: int| #[trigger]
        unit_mark_at(packet, at) ==> unit_fits(
            packet.subrange(at + 3, unit_end(packet, at + 3)),
        )
}

/// The bit at a place.
fn bit(bytes: &[u8], at: u64) -> (one: bool)
    ensures
        one == bit_at(bytes@, at as nat),
{
    let place: u64 = at / 8;
    if place >= bytes.len() as u64 {
        return false;
    }
    let weight: u8 = match at % 8 {
        0 => 128,
        1 => 64,
        2 => 32,
        3 => 16,
        4 => 8,
        5 => 4,
        6 => 2,
        _ => 1,
    };
    (bytes[place as usize] / weight) % 2 == 1
}

/// The number that `n` bits hold.
fn bits(bytes: &[u8], at: u64, n: u64) -> (value: u64)
    requires
        n <= 17,
        at <= 0xffff_ffff,
    ensures
        value == bits_value(bytes@, at as nat, n as nat),
        n == 8 ==> value < 0x100,
        n <= 17 ==> value < 0x2_0000,
    decreases n,
{
    proof {
        bits_are_bounded(bytes@, at as nat, n as nat);
    }
    if n == 0 {
        return 0;
    }
    let front: u64 = bits(bytes, at, n - 1);
    2 * front + if bit(bytes, at + n - 1) {
        1
    } else {
        0
    }
}

/// What `2^n` is.
pub open spec fn two_to(n: nat) -> nat
    decreases n,
{
    if n == 0 {
        1
    } else {
        2 * two_to((n - 1) as nat)
    }
}

proof fn bits_are_bounded(bytes: Seq<u8>, at: nat, n: nat)
    requires
        n <= 17,
    ensures
        bits_value(bytes, at, n) < two_to(n),
        two_to(n) <= 0x2_0000,
        n == 8 ==> two_to(n) == 0x100,
    decreases n,
{
    reveal_with_fuel(two_to, 18);
    if n > 0 {
        bits_are_bounded(bytes, at, (n - 1) as nat);
    }
}

/// A number and the place behind it.
fn number(bytes: &[u8], at: u64) -> (found: Option<(u64, u64)>)
    requires
        at <= 0xffff_0000,
    ensures
        match found {
            None => number_at(bytes@, at as nat) is None,
            Some((value, next)) => {
                &&& number_at(bytes@, at as nat) == Some((value as nat, next as nat))
                &&& value < 0x2_0000
                &&& at < next <= at + 33
            },
        },
{
    let mut zeros: u64 = 0;
    while zeros <= MAX_ZERO_BITS && !bit(bytes, at + zeros)
        invariant
            at <= 0xffff_0000,
            zeros <= MAX_ZERO_BITS + 1,
            zero_bits(bytes@, at as nat, 17) == zeros + zero_bits(
                bytes@,
                (at + zeros) as nat,
                (17 - zeros) as nat,
            ),
        ensures
            zeros <= MAX_ZERO_BITS + 1,
            zero_bits(bytes@, at as nat, 17) == zeros,
            zeros <= MAX_ZERO_BITS ==> bit_at(bytes@, (at + zeros) as nat),
        decreases MAX_ZERO_BITS + 1 - zeros,
    {
        zeros += 1;
    }
    if zeros > MAX_ZERO_BITS {
        return None;
    }
    let value: u64 = bits(bytes, at + zeros, zeros + 1);
    proof {
        leading_one(bytes@, (at + zeros) as nat, (zeros + 1) as nat);
    }
    Some((value - 1, at + 2 * zeros + 1))
}

/// A number that starts with a one is no zero.
proof fn leading_one(bytes: Seq<u8>, at: nat, n: nat)
    requires
        n > 0,
        bit_at(bytes, at),
    ensures
        bits_value(bytes, at, n) >= 1,
    decreases n,
{
    if n > 1 {
        leading_one(bytes, at, (n - 1) as nat);
    } else {
        assert(bits_value(bytes, at, 0) == 0);
    }
}

/// The place behind `n` numbers.
fn skip_numbers(bytes: &[u8], at: u64, n: u64) -> (next: Option<u64>)
    requires
        n < 0x2_0000,
        at <= 0x1000_0000,
    ensures
        match next {
            None => behind_numbers(bytes@, at as nat, n as nat) is None,
            Some(place) => {
                &&& behind_numbers(bytes@, at as nat, n as nat) == Some(place as nat)
                &&& at <= place <= at + 33 * n
            },
        },
{
    let mut place: u64 = at;
    let mut left: u64 = n;
    while left > 0
        invariant
            n < 0x2_0000,
            at <= 0x1000_0000,
            left <= n,
            at <= place <= at + 33 * (n - left),
            behind_numbers(bytes@, at as nat, n as nat) == behind_numbers(
                bytes@,
                place as nat,
                left as nat,
            ),
        decreases left,
    {
        match number(bytes, place) {
            None => return None,
            Some((_, next)) => {
                place = next;
            },
        }
        left -= 1;
    }
    Some(place)
}

/// The place behind a list of scales.
fn skip_scales(bytes: &[u8], at: u64, size: u64) -> (next: Option<u64>)
    requires
        size <= 64,
        at <= 0x1000_0000,
    ensures
        match next {
            None => behind_scales(bytes@, at as nat, size as nat, 8) is None,
            Some(place) => {
                &&& behind_scales(bytes@, at as nat, size as nat, 8) == Some(place as nat)
                &&& at <= place <= at + 33 * size
            },
        },
{
    let mut place: u64 = at;
    let mut left: u64 = size;
    let mut last: i64 = 8;
    while left > 0
        invariant
            size <= 64,
            at <= 0x1000_0000,
            left <= size,
            0 <= last < 256,
            at <= place <= at + 33 * (size - left),
            behind_scales(bytes@, at as nat, size as nat, 8) == behind_scales(
                bytes@,
                place as nat,
                left as nat,
                last as int,
            ),
        decreases left,
    {
        match number(bytes, place) {
            None => return None,
            Some((code, next)) => {
                let half: i64 = (code / 2) as i64;
                let step: i64 = if code % 2 == 1 {
                    half + 1
                } else {
                    -half
                };
                assert(step == signed(code as nat));
                let sum: i64 = last + step + 256 + 0x2_0000;
                let scale: i64 = sum % 256;
                assert(scale == (last + step + 256) % 256);
                place = next;
                if scale == 0 {
                    return Some(place);
                }
                last = scale;
            },
        }
        left -= 1;
    }
    Some(place)
}

/// The place behind all lists of scales.
fn skip_scale_lists(bytes: &[u8], at: u64) -> (next: Option<u64>)
    requires
        at <= 0x800_0000,
    ensures
        match next {
            None => behind_scale_lists(bytes@, at as nat, 0) is None,
            Some(place) => {
                &&& behind_scale_lists(bytes@, at as nat, 0) == Some(place as nat)
                &&& at <= place <= at + 0x1_0000
            },
        },
{
    let mut place: u64 = at;
    let mut index: u64 = 0;
    while index < 8
        invariant
            at <= 0x800_0000,
            index <= 8,
            at <= place <= at + index * 0x1000,
            behind_scale_lists(bytes@, at as nat, 0) == behind_scale_lists(
                bytes@,
                place as nat,
                index as nat,
            ),
        decreases 8 - index,
    {
        if bit(bytes, place) {
            let size: u64 = if index < 6 {
                16
            } else {
                64
            };
            match skip_scales(bytes, place + 1, size) {
                None => return None,
                Some(next) => {
                    place = next;
                },
            }
        } else {
            place += 1;
        }
        index += 1;
    }
    Some(place)
}

/// The place behind how colours are stored.
fn skip_color_format(bytes: &[u8], at: u64) -> (next: Option<u64>)
    requires
        at <= 0x100_0000,
    ensures
        match next {
            None => behind_color_format(bytes@, at as nat) is None,
            Some(place) => {
                &&& behind_color_format(bytes@, at as nat) == Some(place as nat)
                &&& at <= place <= at + 0x2_0000
            },
        },
{
    let profile: u64 = bits(bytes, 0, 8);
    if !(profile == 83 || profile == 86 || profile == 100) {
        return Some(at);
    }
    match skip_numbers(bytes, at, 3) {
        None => None,
        Some(next) => {
            if bit(bytes, next + 1) {
                skip_scale_lists(bytes, next + 2)
            } else {
                Some(next + 2)
            }
        },
    }
}

/// The place behind how pictures are put in order.
fn skip_picture_order(bytes: &[u8], at: u64) -> (next: Option<u64>)
    requires
        at <= 0x100_0000,
    ensures
        match next {
            None => behind_picture_order(bytes@, at as nat) is None,
            Some(place) => {
                &&& behind_picture_order(bytes@, at as nat) == Some(place as nat)
                &&& at <= place <= at + 0x80_0000
            },
        },
{
    match number(bytes, at) {
        None => None,
        Some((order, next)) => {
            if order == 0 {
                skip_numbers(bytes, next, 1)
            } else if order == 1 {
                match skip_numbers(bytes, next + 1, 2) {
                    None => None,
                    Some(counted) => match number(bytes, counted) {
                        None => None,
                        Some((n, offsets)) => skip_numbers(bytes, offsets, n),
                    },
                }
            } else {
                Some(next)
            }
        },
    }
}

/// The place of the size in a parameter set.
fn find_size(set: &[u8]) -> (place: Option<u64>)
    ensures
        match place {
            None => size_place(set@) is None,
            Some(at) => size_place(set@) == Some(at as nat) && at <= 0x200_0000,
        },
{
    let colors: u64 = match skip_numbers(set, 24, 1) {
        None => return None,
        Some(colors) => colors,
    };
    let frame_number: u64 = match skip_color_format(set, colors) {
        None => return None,
        Some(frame_number) => frame_number,
    };
    let order: u64 = match skip_numbers(set, frame_number, 1) {
        None => return None,
        Some(order) => order,
    };
    let references: u64 = match skip_picture_order(set, order) {
        None => return None,
        Some(references) => references,
    };
    match skip_numbers(set, references, 1) {
        None => None,
        Some(flag) => Some(flag + 1),
    }
}

/// Four numbers in a row.
fn read_four_numbers(bytes: &[u8], at: u64) -> (found: Option<(u64, u64, u64, u64)>)
    requires
        at <= 0x300_0000,
    ensures
        match found {
            None => four_numbers(bytes@, at as nat) is None,
            Some((a, b, c, d)) => {
                &&& four_numbers(bytes@, at as nat) == Some(
                    (a as nat, b as nat, c as nat, d as nat),
                )
                &&& a < 0x2_0000 && b < 0x2_0000 && c < 0x2_0000 && d < 0x2_0000
            },
        },
{
    match number(bytes, at) {
        None => None,
        Some((a, second)) => match number(bytes, second) {
            None => None,
            Some((b, third)) => match number(bytes, third) {
                None => None,
                Some((c, fourth)) => match number(bytes, fourth) {
                    None => None,
                    Some((d, _)) => Some((a, b, c, d)),
                },
            },
        },
    }
}

/// Whether a parameter set crops no more than there is.
pub fn has_fitting_crop(set: &[u8]) -> (fits: bool)
    ensures
        fits == parameter_set_fits(set@),
{
    let profile: u64 = bits(set, 0, 8);
    if !(profile == 66 || profile == 77 || profile == 83 || profile == 86 || profile == 88
        || profile == 100) {
        return true;
    }
    let at: u64 = match find_size(set) {
        None => return false,
        Some(at) => at,
    };
    let (width, second) = match number(set, at) {
        None => return false,
        Some(found) => found,
    };
    let (height, flags) = match number(set, second) {
        None => return false,
        Some(found) => found,
    };
    if !bit(set, flags + 2) {
        return true;
    }
    match read_four_numbers(set, flags + 3) {
        None => false,
        Some((left, right, top, bottom)) => left + right <= 8 * (width + 1) && top + bottom <= 8 * (
        height + 1),
    }
}

/// Drops the bytes that keep marks from showing up in a unit.
pub fn unescape(unit: &[u8]) -> (bytes: Vec<u8>)
    ensures
        bytes@ == unescaped(unit@),
{
    let mut bytes: Vec<u8> = Vec::new();
    let len: usize = unit.len();
    let mut at: usize = 0;
    assert(unit@.subrange(0, len as int) =~= unit@);
    while at < len
        invariant
            len == unit@.len(),
            at <= len,
            unescaped(unit@) == bytes@ + unescaped(unit@.subrange(at as int, len as int)),
        decreases len - at,
    {
        let ghost rest = unit@.subrange(at as int, len as int);
        let ghost before = bytes@;
        if len - at >= 3 && unit[at] == 0 && unit[at + 1] == 0 && unit[at + 2] == 3 {
            assert(rest.subrange(3, rest.len() as int) =~= unit@.subrange(at + 3, len as int));
            if !(len - at > 3 && unit[at + 3] > 3) {
                bytes.push(0);
                bytes.push(0);
            }
            at += 3;
        } else {
            assert(rest.subrange(1, rest.len() as int) =~= unit@.subrange(at + 1, len as int));
            bytes.push(unit[at]);
            at += 1;
        }
        assert(before + unescaped(rest) =~= bytes@ + unescaped(
            unit@.subrange(at as int, len as int),
        ));
    }
    assert(bytes@ + unescaped(unit@.subrange(len as int, len as int)) =~= bytes@);
    bytes
}

/// Whether the mark in front of a unit stands at a place.
fn is_unit_mark(packet: &[u8], at: usize) -> (mark: bool)
    requires
        at <= packet@.len(),
    ensures
        mark == unit_mark_at(packet@, at as int),
{
    packet.len() - at >= 3 && packet[at] == 0 && packet[at + 1] == 0 && packet[at + 2] == 1
}

/// Whether every parameter set in a packet asks for a crop inside its picture.
pub fn has_fitting_crops(packet: &[u8]) -> (fit: bool)
    ensures
        fit == crops_fit(packet@),
{
    let len: usize = packet.len();
    let mut at: usize = 0;
    while at < len
        invariant
            len == packet@.len(),
            at <= len,
            forall|k: int|
                k < at && #[trigger] unit_mark_at(packet@, k) ==> unit_fits(
                    packet@.subrange(k + 3, unit_end(packet@, k + 3)),
                ),
        decreases len - at,
    {
        if is_unit_mark(packet, at) {
            let end: usize = find_unit_end(packet, at + 3);
            let bytes = unescape(slice_subrange(packet, at + 3, end));
            if bytes.len() > 0 && bytes[0] < 128 && (bytes[0] % 32 == 7 || bytes[0] % 32 == 15) {
                if !has_fitting_crop(slice_subrange(&bytes, 1, bytes.len())) {
                    assert(!unit_fits(
                        packet@.subrange(at as int + 3, unit_end(packet@, at as int + 3)),
                    ));
                    return false;
                }
            }
        }
        at += 1;
    }
    true
}

/// The end of the unit at a place.
fn find_unit_end(packet: &[u8], from: usize) -> (end: usize)
    requires
        from <= packet@.len(),
    ensures
        end == unit_end(packet@, from as int),
        from <= end <= packet@.len(),
{
    let mut at: usize = from;
    while at < packet.len()
        invariant
            from <= at <= packet@.len(),
            unit_end(packet@, from as int) == unit_end(packet@, at as int),
        decreases packet@.len() - at,
    {
        if is_unit_mark(packet, at) {
            return at;
        }
        at += 1;
    }
    at
}

/// A packet without a mark holds no parameter set.
pub proof fn packets_without_units_fit(packet: Seq<u8>)
    requires
        forall|at: int| !#[trigger] unit_mark_at(packet, at),
    ensures
        crops_fit(packet),
{
}

/// A bit as a number.
pub open spec fn bit_number(bytes: Seq<u8>, at: nat) -> nat {
    if bit_at(bytes, at) {
        1
    } else {
        0
    }
}

/// A byte is made of its eight bits, the first of which counts most. Behind the end there are only
/// zeros.
pub proof fn a_byte_is_made_of_its_bits(bytes: Seq<u8>, i: nat, at: nat)
    requires
        i < bytes.len(),
    ensures
        bytes[i as int] == 128 * bit_number(bytes, 8 * i) + 64 * bit_number(bytes, 8 * i + 1) + 32
            * bit_number(bytes, 8 * i + 2) + 16 * bit_number(bytes, 8 * i + 3) + 8 * bit_number(
            bytes,
            8 * i + 4,
        ) + 4 * bit_number(bytes, 8 * i + 5) + 2 * bit_number(bytes, 8 * i + 6) + bit_number(
            bytes,
            8 * i + 7,
        ),
        at >= 8 * bytes.len() ==> !bit_at(bytes, at),
{
    one_bit_of_a_byte(bytes, i, 0);
    one_bit_of_a_byte(bytes, i, 1);
    one_bit_of_a_byte(bytes, i, 2);
    one_bit_of_a_byte(bytes, i, 3);
    one_bit_of_a_byte(bytes, i, 4);
    one_bit_of_a_byte(bytes, i, 5);
    one_bit_of_a_byte(bytes, i, 6);
    one_bit_of_a_byte(bytes, i, 7);
    halves_add_up(bytes[i as int] as nat);
}

proof fn one_bit_of_a_byte(bytes: Seq<u8>, i: nat, k: nat)
    requires
        i < bytes.len(),
        k < 8,
    ensures
        bit_number(bytes, 8 * i + k) == (bytes[i as int] as nat / bit_weight(k)) % 2,
{
    assert((8 * i + k) / 8 == i);
    assert((8 * i + k) % 8 == k);
}

proof fn halves_add_up(x: nat)
    requires
        x < 256,
    ensures
        x == 128 * ((x / 128) % 2) + 64 * ((x / 64) % 2) + 32 * ((x / 32) % 2) + 16 * ((x / 16) % 2)
            + 8 * ((x / 8) % 2) + 4 * ((x / 4) % 2) + 2 * ((x / 2) % 2) + (x / 1) % 2,
{
    assert(x / 1 == x);
    assert(x == 2 * (x / 2) + x % 2);
    assert(x / 2 == 2 * (x / 4) + (x / 2) % 2);
    assert(x / 4 == 2 * (x / 8) + (x / 4) % 2);
    assert(x / 8 == 2 * (x / 16) + (x / 8) % 2);
    assert(x / 16 == 2 * (x / 32) + (x / 16) % 2);
    assert(x / 32 == 2 * (x / 64) + (x / 32) % 2);
    assert(x / 64 == 2 * (x / 128) + (x / 64) % 2);
    assert(x / 128 < 2);
}

/// The first bit of a number counts most, and the others follow.
pub proof fn the_first_bit_counts_most(bytes: Seq<u8>, at: nat, n: nat)
    ensures
        bits_value(bytes, at, 0) == 0,
        bits_value(bytes, at, n + 1) == bit_number(bytes, at) * two_to(n) + bits_value(
            bytes,
            at + 1,
            n,
        ),
    decreases n,
{
    if n == 0 {
        let first = bit_number(bytes, at);
        assert(bits_value(bytes, at, 1) == 2 * bits_value(bytes, at, 0) + first);
        assert(first * two_to(0) == first) by (nonlinear_arith)
            requires
                two_to(0) == 1,
        ;
    } else {
        the_first_bit_counts_most(bytes, at, (n - 1) as nat);
        let first = bit_number(bytes, at);
        let half = two_to((n - 1) as nat);
        let last = bit_number(bytes, at + n);
        assert(bits_value(bytes, at, n + 1) == 2 * bits_value(bytes, at, n) + last);
        assert((at + 1) + n - 1 == at + n);
        assert(bits_value(bytes, at + 1, n) == 2 * bits_value(bytes, at + 1, (n - 1) as nat) + last);
        assert((n - 1) as nat + 1 == n);
        assert(first * two_to(n) == 2 * (first * half)) by (nonlinear_arith)
            requires
                two_to(n) == 2 * half,
        ;
    }
}

/// A number in the code of the headers: as many zeros as there are bits behind the first one, that
/// one, and those bits. It stands for itself plus one, so that the shortest code is a single bit. Up
/// to sixteen zeros are taken.
pub proof fn numbers_are_coded_with_their_length(bytes: Seq<u8>, at: nat, zeros: nat)
    requires
        forall|i: nat| i < zeros ==> !#[trigger] bit_at(bytes, at + i),
        bit_at(bytes, at + zeros),
        zeros <= 16,
    ensures
        number_at(bytes, at) == Some(
            (
                (two_to(zeros) + bits_value(bytes, at + zeros + 1, zeros) - 1) as nat,
                at + 2 * zeros + 1,
            ),
        ),
{
    zeros_are_counted(bytes, at, zeros, 17);
    the_first_bit_counts_most(bytes, at + zeros, zeros);
}

/// No number starts with more than sixteen zeros.
pub proof fn longer_numbers_are_not_taken(bytes: Seq<u8>, at: nat)
    requires
        forall|i: nat| i < 17 ==> !#[trigger] bit_at(bytes, at + i),
    ensures
        number_at(bytes, at) is None,
{
    only_zeros_are_counted(bytes, at, 17);
}

proof fn zeros_are_counted(bytes: Seq<u8>, at: nat, zeros: nat, most: nat)
    requires
        forall|i: nat| i < zeros ==> !#[trigger] bit_at(bytes, at + i),
        bit_at(bytes, at + zeros),
        zeros < most,
    ensures
        zero_bits(bytes, at, most) == zeros,
    decreases zeros,
{
    if zeros > 0 {
        assert(!bit_at(bytes, at + 0));
        assert forall|i: nat| i < zeros - 1 implies !#[trigger] bit_at(bytes, (at + 1) + i) by {
            assert((at + 1) + i == at + (i + 1));
            assert(!bit_at(bytes, at + (i + 1)));
        }
        assert((at + 1) + (zeros - 1) as nat == at + zeros);
        zeros_are_counted(bytes, at + 1, (zeros - 1) as nat, (most - 1) as nat);
    } else {
        assert(at + zeros == at);
    }
}

proof fn only_zeros_are_counted(bytes: Seq<u8>, at: nat, most: nat)
    requires
        forall|i: nat| i < most ==> !#[trigger] bit_at(bytes, at + i),
    ensures
        zero_bits(bytes, at, most) == most,
    decreases most,
{
    if most > 0 {
        assert(!bit_at(bytes, at + 0));
        assert forall|i: nat| i < most - 1 implies !#[trigger] bit_at(bytes, (at + 1) + i) by {
            assert((at + 1) + i == at + (i + 1));
            assert(!bit_at(bytes, at + (i + 1)));
        }
        only_zeros_are_counted(bytes, at + 1, (most - 1) as nat);
    }
}

/// Whether these numbers stand one after the other from `at` to `end`.
pub open spec fn numbers_stand(bytes: Seq<u8>, at: nat, numbers: Seq<nat>, end: nat) -> bool
    decreases numbers.len(),
{
    if numbers.len() == 0 {
        at == end
    } else {
        &&& number_at(bytes, at) matches Some((n, next))
        &&& n == numbers[0]
        &&& numbers_stand(bytes, next, numbers.drop_first(), end)
    }
}

/// The profile of a parameter set is its first byte.
pub proof fn the_profile_is_the_first_byte(set: Seq<u8>)
    requires
        set.len() > 0,
    ensures
        bits_value(set, 0, 8) == set[0],
{
    a_byte_is_made_of_its_bits(set, 0, 0);
    reveal_with_fuel(bits_value, 9);
}

/// Whether the size and the crop of a parameter set alone decide whether it fits: without a crop it
/// fits, and with one it fits if and only if left and right together are at most the width, and top
/// and bottom together at most the height. A block has eight pairs of pixels on a side, and sizes
/// are given less one. `flags` is the place behind the size.
pub open spec fn size_and_crop_decide(
    set: Seq<u8>,
    size: Seq<nat>,
    flags: nat,
    crop: Seq<nat>,
    end: nat,
) -> bool {
    &&& !bit_at(set, flags + 2) ==> parameter_set_fits(set)
    &&& bit_at(set, flags + 2) && numbers_stand(set, flags + 3, crop, end) ==> (parameter_set_fits(
        set,
    ) <==> crop[0] + crop[1] <= 8 * (size[0] + 1) && crop[2] + crop[3] <= 8 * (size[1] + 1))
}

proof fn the_size_is_found(
    set: Seq<u8>,
    at: nat,
    size: Seq<nat>,
    flags: nat,
    crop: Seq<nat>,
    end: nat,
)
    requires
        is_known_profile(bits_value(set, 0, 8)),
        size_place(set) == Some(at),
        size.len() == 2,
        numbers_stand(set, at, size, flags),
        crop.len() == 4,
    ensures
        size_and_crop_decide(set, size, flags, crop, end),
{
    reveal_with_fuel(numbers_stand, 5);
    assert(size.drop_first()[0] == size[1]);
    assert(size.drop_first().drop_first().len() == 0);
    if bit_at(set, flags + 2) && numbers_stand(set, flags + 3, crop, end) {
        assert(crop.drop_first()[0] == crop[1]);
        assert(crop.drop_first().drop_first()[0] == crop[2]);
        assert(crop.drop_first().drop_first().drop_first()[0] == crop[3]);
        assert(four_numbers(set, flags + 3) == Some((crop[0], crop[1], crop[2], crop[3])));
    }
}

/// A parameter set of a plain profile, with pictures in the order of a count of their own or in the
/// order in which they come: its size and crop alone decide whether it fits.
pub proof fn plain_sets_fit_by_size_and_crop(
    set: Seq<u8>,
    id: nat,
    frame_number: nat,
    order: Seq<nat>,
    references: nat,
    flag: nat,
    size: Seq<nat>,
    flags: nat,
    crop: Seq<nat>,
    end: nat,
)
    requires
        set.len() > 0,
        set[0] == 66 || set[0] == 77 || set[0] == 88,
        order.len() == 2 && order[0] == 0 || order == seq![2nat],
        numbers_stand(set, 24, seq![id, frame_number] + order + seq![references], flag),
        size.len() == 2,
        numbers_stand(set, flag + 1, size, flags),
        crop.len() == 4,
    ensures
        size_and_crop_decide(set, size, flags, crop, end),
{
    the_profile_is_the_first_byte(set);
    reveal_with_fuel(numbers_stand, 6);
    reveal_with_fuel(behind_numbers, 3);
    let numbers = seq![id, frame_number] + order + seq![references];
    assert(numbers[0] == id);
    assert(numbers.drop_first()[0] == frame_number);
    assert(numbers.drop_first().drop_first()[0] == order[0]);
    if order.len() == 2 {
        assert(numbers.drop_first().drop_first().drop_first()[0] == order[1]);
        assert(numbers.drop_first().drop_first().drop_first().drop_first()[0] == references);
        assert(numbers.drop_first().drop_first().drop_first().drop_first().drop_first().len() == 0);
    } else {
        assert(order[0] == 2);
        assert(numbers.drop_first().drop_first().drop_first()[0] == references);
        assert(numbers.drop_first().drop_first().drop_first().drop_first().len() == 0);
    }
    assert(size_place(set) == Some(flag + 1));
    the_size_is_found(set, flag + 1, size, flags, crop, end);
}

/// The same of a profile that says how colours are stored, where no scales are given.
pub proof fn high_sets_fit_by_size_and_crop(
    set: Seq<u8>,
    colors: Seq<nat>,
    behind_colors: nat,
    frame_number: nat,
    order: Seq<nat>,
    references: nat,
    flag: nat,
    size: Seq<nat>,
    flags: nat,
    crop: Seq<nat>,
    end: nat,
)
    requires
        set.len() > 0,
        set[0] == 83 || set[0] == 86 || set[0] == 100,
        colors.len() == 4,
        numbers_stand(set, 24, colors, behind_colors),
        !bit_at(set, behind_colors + 1),
        order.len() == 2 && order[0] == 0 || order == seq![2nat],
        numbers_stand(
            set,
            behind_colors + 2,
            seq![frame_number] + order + seq![references],
            flag,
        ),
        size.len() == 2,
        numbers_stand(set, flag + 1, size, flags),
        crop.len() == 4,
    ensures
        size_and_crop_decide(set, size, flags, crop, end),
{
    the_profile_is_the_first_byte(set);
    reveal_with_fuel(numbers_stand, 6);
    reveal_with_fuel(behind_numbers, 4);
    assert(colors.drop_first().drop_first().drop_first().drop_first().len() == 0);
    let numbers = seq![frame_number] + order + seq![references];
    assert(numbers[0] == frame_number);
    assert(numbers.drop_first()[0] == order[0]);
    if order.len() == 2 {
        assert(numbers.drop_first().drop_first()[0] == order[1]);
        assert(numbers.drop_first().drop_first().drop_first()[0] == references);
        assert(numbers.drop_first().drop_first().drop_first().drop_first().len() == 0);
    } else {
        assert(order[0] == 2);
        assert(numbers.drop_first().drop_first()[0] == references);
        assert(numbers.drop_first().drop_first().drop_first().len() == 0);
    }
    assert(size_place(set) == Some(flag + 1));
    the_size_is_found(set, flag + 1, size, flags, crop, end);
}

/// A parameter set of a profile that is not taken does no harm.
pub proof fn sets_of_other_profiles_fit(set: Seq<u8>)
    requires
        set.len() > 0,
        set[0] != 66 && set[0] != 77 && set[0] != 83 && set[0] != 86 && set[0] != 88 && set[0]
            != 100,
    ensures
        parameter_set_fits(set),
{
    the_profile_is_the_first_byte(set);
}

/// Units behind their marks, one after the other.
pub open spec fn marked_units(units: Seq<Seq<u8>>) -> Seq<u8>
    decreases units.len(),
{
    if units.len() == 0 {
        seq![]
    } else {
        seq![0u8, 0, 1] + units[0] + marked_units(units.drop_first())
    }
}

/// Whether no mark stands in these bytes.
pub open spec fn is_unmarked(bytes: Seq<u8>) -> bool {
    forall|at: int| !#[trigger] unit_mark_at(bytes, at)
}

/// A packet fits if and only if each of its units does, whatever stands in front of the first.
pub proof fn a_packet_fits_if_its_units_do(front: Seq<u8>, units: Seq<Seq<u8>>)
    requires
        is_unmarked(front),
        forall|i: int| 0 <= i < units.len() ==> is_unmarked(#[trigger] units[i]),
    ensures
        crops_fit(front + marked_units(units)) <==> forall|i: int|
            0 <= i < units.len() ==> unit_fits(#[trigger] units[i]),
    decreases units.len(),
{
    let packet = front + marked_units(units);
    if units.len() == 0 {
        assert(packet =~= front);
    } else {
        let others = units.drop_first();
        let rest = marked_units(others);
        assert forall|i: int| 0 <= i < others.len() implies is_unmarked(#[trigger] others[i]) by {
            assert(others[i] == units[i + 1]);
        }
        let nothing = Seq::<u8>::empty();
        assert(nothing + rest =~= rest);
        a_packet_fits_if_its_units_do(nothing, others);
        assert(rest.len() == 0 || rest.len() >= 3 && rest[0] == 0 && rest[1] == 0 && rest[2] == 1)
            by {
            if others.len() > 0 {
                let tail = marked_units(others.drop_first());
                assert(rest == seq![0u8, 0, 1] + others[0] + tail);
            }
        }
        assert(packet =~= front + seq![0u8, 0, 1] + units[0] + rest);
        one_unit_and_the_rest(front, units[0], rest);
        if forall|i: int| 0 <= i < units.len() ==> unit_fits(#[trigger] units[i]) {
            assert forall|i: int| 0 <= i < others.len() implies unit_fits(#[trigger] others[i]) by {
                assert(others[i] == units[i + 1]);
            }
        }
        if unit_fits(units[0]) && (forall|i: int|
            0 <= i < others.len() ==> unit_fits(#[trigger] others[i])) {
            assert forall|i: int| 0 <= i < units.len() implies unit_fits(#[trigger] units[i]) by {
                if i > 0 {
                    assert(others[i - 1] == units[i]);
                }
            }
        }
    }
}

proof fn one_unit_and_the_rest(front: Seq<u8>, unit: Seq<u8>, rest: Seq<u8>)
    requires
        is_unmarked(front),
        is_unmarked(unit),
        rest.len() == 0 || rest.len() >= 3 && rest[0] == 0 && rest[1] == 0 && rest[2] == 1,
    ensures
        crops_fit(front + seq![0u8, 0, 1] + unit + rest) <==> unit_fits(unit) && crops_fit(rest),
{
    let packet = front + seq![0u8, 0, 1] + unit + rest;
    let first = front.len() as int;
    let base = first + 3 + unit.len();
    assert(unit_mark_at(packet, first));
    assert forall|at: int| #[trigger] unit_mark_at(packet, at) implies at == first || at >= base by {
        if at < first {
            if at + 3 <= first {
                assert(!unit_mark_at(front, at));
            }
        } else if first < at && at < base {
            if at >= first + 3 && at + 3 <= base {
                assert(!unit_mark_at(unit, at - first - 3));
            }
        }
    }
    assert forall|at: int| at >= base implies #[trigger] unit_mark_at(packet, at) == unit_mark_at(
        rest,
        at - base,
    ) by {}
    the_end_is_at_the_rest(packet, first + 3, base, rest);
    assert(packet.subrange(first + 3, base) =~= unit);
    assert forall|at: int| 0 <= at implies #[trigger] unit_mark_at(rest, at) == unit_mark_at(
        packet,
        base + at,
    ) && (unit_mark_at(rest, at) ==> packet.subrange(
        base + at + 3,
        unit_end(packet, base + at + 3),
    ) == rest.subrange(at + 3, unit_end(rest, at + 3))) by {
        if unit_mark_at(rest, at) {
            ends_move_along(packet, base, rest, at + 3);
            assert(packet.subrange(base + at + 3, unit_end(packet, base + at + 3))
                =~= rest.subrange(at + 3, unit_end(rest, at + 3)));
        }
    }
    if crops_fit(packet) {
        assert forall|at: int| #[trigger] unit_mark_at(rest, at) implies unit_fits(
            rest.subrange(at + 3, unit_end(rest, at + 3)),
        ) by {
            assert(unit_mark_at(packet, base + at));
        }
    }
    if unit_fits(unit) && crops_fit(rest) {
        assert forall|at: int| #[trigger] unit_mark_at(packet, at) implies unit_fits(
            packet.subrange(at + 3, unit_end(packet, at + 3)),
        ) by {
            if at != first {
                assert(unit_mark_at(rest, at - base));
            }
        }
    }
}

proof fn the_end_is_at_the_rest(packet: Seq<u8>, at: int, base: int, rest: Seq<u8>)
    requires
        0 <= at <= base <= packet.len(),
        packet.len() == base + rest.len(),
        forall|k: int| at <= k < base ==> !#[trigger] unit_mark_at(packet, k),
        rest.len() == 0 || unit_mark_at(packet, base),
    ensures
        unit_end(packet, at) == base,
    decreases base - at,
{
    if at < base {
        the_end_is_at_the_rest(packet, at + 1, base, rest);
    }
}

proof fn ends_move_along(packet: Seq<u8>, base: int, rest: Seq<u8>, at: int)
    requires
        0 <= base,
        0 <= at <= rest.len(),
        packet.len() == base + rest.len(),
        forall|k: int| k >= base ==> #[trigger] unit_mark_at(packet, k) == unit_mark_at(
            rest,
            k - base,
        ),
    ensures
        unit_end(packet, base + at) == base + unit_end(rest, at),
        at <= unit_end(rest, at) <= rest.len(),
    decreases rest.len() - at,
{
    if at < rest.len() {
        assert(unit_mark_at(packet, base + at) == unit_mark_at(rest, at));
        if !unit_mark_at(rest, at) {
            ends_move_along(packet, base, rest, at + 1);
        }
    }
}

/// Bytes in which no 0, 0, 3 stands hide nothing, and are taken as they are.
pub proof fn plain_bytes_are_taken_as_they_are(unit: Seq<u8>)
    requires
        forall|i: int|
            0 <= i && i + 3 <= unit.len() ==> !(#[trigger] unit[i] == 0 && unit[i + 1] == 0
                && unit[i + 2] == 3),
    ensures
        unescaped(unit) == unit,
    decreases unit.len(),
{
    if unit.len() > 0 {
        let rest = unit.subrange(1, unit.len() as int);
        assert forall|i: int| 0 <= i && i + 3 <= rest.len() implies !(#[trigger] rest[i] == 0
            && rest[i + 1] == 0 && rest[i + 2] == 3) by {
            assert(rest[i] == unit[i + 1]);
        }
        if unit.len() >= 3 {
            assert(!(unit[0] == 0 && unit[1] == 0 && unit[2] == 3));
        }
        plain_bytes_are_taken_as_they_are(rest);
        assert(seq![unit[0]] + rest =~= unit);
    }
}

/// A 3 that was put behind two zeros, to keep the bytes around it from being taken for a mark, is
/// taken out again, and nothing else is.
pub proof fn a_hiding_byte_is_taken_out(rest: Seq<u8>)
    requires
        rest.len() == 0 || rest[0] <= 3,
    ensures
        unescaped(seq![0u8, 0, 3] + rest) == seq![0u8, 0] + unescaped(rest),
{
    let unit = seq![0u8, 0, 3] + rest;
    assert(unit.subrange(3, unit.len() as int) =~= rest);
}

/// A unit whose first byte is not zero is taken from that byte on. It fits if it is no parameter
/// set, by the lowest five bits of that byte, or if what follows the byte fits; a unit without a byte
/// fits.
pub proof fn units_are_known_by_their_first_byte(unit: Seq<u8>)
    ensures
        unit.len() == 0 ==> unit_fits(unit),
        unit.len() > 0 && unit[0] != 0 ==> ({
            let kind = unit[0] % 32;
            let rest = unescaped(unit.subrange(1, unit.len() as int));
            &&& unit[0] >= 128 || kind != 7 && kind != 15 ==> unit_fits(unit)
            &&& unit[0] < 128 && (kind == 7 || kind == 15) ==> (unit_fits(unit)
                <==> parameter_set_fits(rest))
        }),
{
    if unit.len() > 0 && unit[0] != 0 {
        let rest = unescaped(unit.subrange(1, unit.len() as int));
        let bytes = unescaped(unit);
        assert(bytes == seq![unit[0]] + rest);
        assert(bytes.subrange(1, bytes.len() as int) =~= rest);
    }
}

proof fn standing_numbers_are_passed(bytes: Seq<u8>, at: nat, numbers: Seq<nat>, end: nat)
    requires
        numbers_stand(bytes, at, numbers, end),
    ensures
        behind_numbers(bytes, at, numbers.len()) == Some(end),
    decreases numbers.len(),
{
    if numbers.len() > 0 {
        if let Some((_, next)) = number_at(bytes, at) {
            standing_numbers_are_passed(bytes, next, numbers.drop_first(), end);
        }
    }
}

/// The same of a plain profile whose pictures are put in order by offsets: a flag, two of them, how
/// many more there are, and those.
pub proof fn sets_with_offsets_fit_by_size_and_crop(
    set: Seq<u8>,
    id: nat,
    frame_number: nat,
    order_flag: nat,
    two_offsets: Seq<nat>,
    count: nat,
    counted: nat,
    offsets: Seq<nat>,
    behind_offsets: nat,
    references: nat,
    flag: nat,
    size: Seq<nat>,
    flags: nat,
    crop: Seq<nat>,
    end: nat,
)
    requires
        set.len() > 0,
        set[0] == 66 || set[0] == 77 || set[0] == 88,
        numbers_stand(set, 24, seq![id, frame_number, 1], order_flag),
        two_offsets.len() == 2,
        numbers_stand(set, order_flag + 1, two_offsets, count),
        number_at(set, count) == Some((offsets.len(), counted)),
        numbers_stand(set, counted, offsets, behind_offsets),
        number_at(set, behind_offsets) == Some((references, flag)),
        size.len() == 2,
        numbers_stand(set, flag + 1, size, flags),
        crop.len() == 4,
    ensures
        size_and_crop_decide(set, size, flags, crop, end),
{
    the_profile_is_the_first_byte(set);
    let numbers = seq![id, frame_number, 1];
    reveal_with_fuel(numbers_stand, 4);
    reveal_with_fuel(behind_numbers, 2);
    assert(numbers.drop_first()[0] == frame_number);
    assert(numbers.drop_first().drop_first()[0] == 1);
    assert(numbers.drop_first().drop_first().drop_first().len() == 0);
    standing_numbers_are_passed(set, order_flag + 1, two_offsets, count);
    standing_numbers_are_passed(set, counted, offsets, behind_offsets);
    assert(size_place(set) == Some(flag + 1));
    the_size_is_found(set, flag + 1, size, flags, crop, end);
}

/// Numbers with a sign are counted away from zero, the positive first.
pub proof fn signs_take_turns(n: nat)
    ensures
        n > 0 ==> signed((2 * n - 1) as nat) == n,
        signed(2 * n) == -(n as int),
{
}

/// The scale that a row of codes leads to, from the one before them.
pub open spec fn scale_after(codes: Seq<nat>, last: int) -> int
    decreases codes.len(),
{
    if codes.len() == 0 {
        last
    } else {
        (scale_after(codes.drop_last(), last) + signed(codes.last()) + 256) % 256
    }
}

/// A list of scales is passed to its end: where all of them are given, or where one of them is zero,
/// behind which none is given.
pub proof fn a_list_of_scales_is_passed(
    bytes: Seq<u8>,
    at: nat,
    codes: Seq<nat>,
    end: nat,
    size: nat,
    last: int,
)
    requires
        numbers_stand(bytes, at, codes, end),
        0 < codes.len() <= size,
        forall|n: int|
            0 < n < codes.len() ==> scale_after(#[trigger] codes.subrange(0, n), last) != 0,
        codes.len() == size || scale_after(codes, last) == 0,
    ensures
        behind_scales(bytes, at, size, last) == Some(end),
    decreases codes.len(),
{
    reveal_with_fuel(numbers_stand, 2);
    if let Some((code, next)) = number_at(bytes, at) {
        let rest = codes.drop_first();
        let one = codes.subrange(0, 1);
        let scale = (last + signed(code) + 256) % 256;
        assert(one.drop_last() =~= seq![]);
        assert(scale_after(one.drop_last(), last) == last);
        assert(scale_after(one, last) == scale);
        if codes.len() == 1 {
            assert(one =~= codes);
            assert(rest.len() == 0);
            assert(next == end);
        } else {
            assert(scale != 0);
            assert forall|n: int| 0 < n < rest.len() implies scale_after(
                #[trigger] rest.subrange(0, n),
                scale,
            ) != 0 by {
                scales_follow_each_other(codes.subrange(0, n + 1), last);
                assert(codes.subrange(0, n + 1).drop_first() =~= rest.subrange(0, n));
            }
            scales_follow_each_other(codes, last);
            a_list_of_scales_is_passed(bytes, next, rest, end, (size - 1) as nat, scale);
        }
    }
}

proof fn scales_follow_each_other(codes: Seq<nat>, last: int)
    requires
        codes.len() > 0,
    ensures
        scale_after(codes, last) == scale_after(
            codes.drop_first(),
            (last + signed(codes[0]) + 256) % 256,
        ),
    decreases codes.len(),
{
    if codes.len() == 1 {
        assert(codes.drop_last() =~= seq![]);
        assert(codes.drop_first() =~= seq![]);
        assert(scale_after(codes.drop_last(), last) == last);
    } else {
        scales_follow_each_other(codes.drop_last(), last);
        assert(codes.drop_first().drop_last() =~= codes.drop_last().drop_first());
    }
}

/// The lists of scales are passed one by one: one that is not given takes a single bit, and one that
/// is given stands behind its bit. There are eight of them, six of sixteen scales and two of
/// sixty-four, all starting out from eight.
pub proof fn lists_of_scales_are_passed_one_by_one(
    bytes: Seq<u8>,
    at: nat,
    index: nat,
    end: nat,
)
    ensures
        behind_scale_lists(bytes, at, 8) == Some(at),
        index < 8 && !bit_at(bytes, at) ==> behind_scale_lists(bytes, at, index)
            == behind_scale_lists(bytes, at + 1, index + 1),
        index < 6 && bit_at(bytes, at) && behind_scales(bytes, at + 1, 16, 8) == Some(end)
            ==> behind_scale_lists(bytes, at, index) == behind_scale_lists(bytes, end, index + 1),
        6 <= index < 8 && bit_at(bytes, at) && behind_scales(bytes, at + 1, 64, 8) == Some(end)
            ==> behind_scale_lists(bytes, at, index) == behind_scale_lists(bytes, end, index + 1),
{
}

/// The same of a profile that says how colours are stored and gives scales, which end at
/// `behind_scales`.
pub proof fn scaled_sets_fit_by_size_and_crop(
    set: Seq<u8>,
    colors: Seq<nat>,
    behind_colors: nat,
    behind_scales: nat,
    frame_number: nat,
    order: Seq<nat>,
    references: nat,
    flag: nat,
    size: Seq<nat>,
    flags: nat,
    crop: Seq<nat>,
    end: nat,
)
    requires
        set.len() > 0,
        set[0] == 83 || set[0] == 86 || set[0] == 100,
        colors.len() == 4,
        numbers_stand(set, 24, colors, behind_colors),
        bit_at(set, behind_colors + 1),
        behind_scale_lists(set, behind_colors + 2, 0) == Some(behind_scales),
        order.len() == 2 && order[0] == 0 || order == seq![2nat],
        numbers_stand(set, behind_scales, seq![frame_number] + order + seq![references], flag),
        size.len() == 2,
        numbers_stand(set, flag + 1, size, flags),
        crop.len() == 4,
    ensures
        size_and_crop_decide(set, size, flags, crop, end),
{
    the_profile_is_the_first_byte(set);
    reveal_with_fuel(numbers_stand, 6);
    reveal_with_fuel(behind_numbers, 4);
    assert(colors.drop_first().drop_first().drop_first().drop_first().len() == 0);
    let numbers = seq![frame_number] + order + seq![references];
    assert(numbers[0] == frame_number);
    assert(numbers.drop_first()[0] == order[0]);
    if order.len() == 2 {
        assert(numbers.drop_first().drop_first()[0] == order[1]);
        assert(numbers.drop_first().drop_first().drop_first()[0] == references);
        assert(numbers.drop_first().drop_first().drop_first().drop_first().len() == 0);
    } else {
        assert(order[0] == 2);
        assert(numbers.drop_first().drop_first()[0] == references);
        assert(numbers.drop_first().drop_first().drop_first().len() == 0);
    }
    assert(size_place(set) == Some(flag + 1));
    the_size_is_found(set, flag + 1, size, flags, crop, end);
}

} // verus!
