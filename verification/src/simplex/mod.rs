//! Gradient tables and lattice decisions for simplex noise on the unit
//! lattice.

use crate::scalar::Scalar;
use crate::vectors::vector_three::Vector3;
use vstd::prelude::*;

verus! {

/// The bit pattern of the square root of one half, the component of a unit
/// gradient that lies in a coordinate plane.
pub const DIAG_BITS: u32 = 0x3f35_04f3;

/// The bit pattern of its negative.
pub const NEG_DIAG_BITS: u32 = 0xbf35_04f3;

/// The bit pattern of the square root of one third, the component of a unit
/// gradient along a space diagonal.
pub const DIAG2_BITS: u32 = 0x3f13_cd39;

/// The bit pattern of its negative.
pub const NEG_DIAG2_BITS: u32 = 0xbf13_cd39;

/// A fixed shuffle of the numbers 0 to 255, by which lattice coordinates are
/// scattered.
pub const PERM: [u8; 256] = [
    151, 160, 137, 91, 90, 15, 131, 13, 201, 95, 96, 53, 194, 233, 7, 225,
    140, 36, 103, 30, 69, 142, 8, 99, 37, 240, 21, 10, 23, 190, 6, 148,
    247, 120, 234, 75, 0, 26, 197, 62, 94, 252, 219, 203, 117, 35, 11, 32,
    57, 177, 33, 88, 237, 149, 56, 87, 174, 20, 125, 136, 171, 168, 68, 175,
    74, 165, 71, 134, 139, 48, 27, 166, 77, 146, 158, 231, 83, 111, 229, 122,
    60, 211, 133, 230, 220, 105, 92, 41, 55, 46, 245, 40, 244, 102, 143, 54,
    65, 25, 63, 161, 1, 216, 80, 73, 209, 76, 132, 187, 208, 89, 18, 169,
    200, 196, 135, 130, 116, 188, 159, 86, 164, 100, 109, 198, 173, 186, 3, 64,
    52, 217, 226, 250, 124, 123, 5, 202, 38, 147, 118, 126, 255, 82, 85, 212,
    207, 206, 59, 227, 47, 16, 58, 17, 182, 189, 28, 42, 223, 183, 170, 213,
    119, 248, 152, 2, 44, 154, 163, 70, 221, 153, 101, 155, 167, 43, 172, 9,
    129, 22, 39, 253, 19, 98, 108, 110, 79, 113, 224, 232, 178, 185, 112, 104,
    218, 246, 97, 228, 251, 34, 242, 193, 238, 210, 144, 12, 191, 179, 162, 241,
    81, 51, 145, 235, 249, 14, 239, 107, 49, 192, 214, 31, 181, 199, 106, 157,
    184, 84, 204, 176, 115, 121, 50, 45, 127, 4, 150, 254, 138, 236, 205, 93,
    222, 114, 67, 29, 24, 72, 243, 141, 128, 195, 78, 66, 215, 61, 156, 180,
];

/// The gradient with the given number, of which only the remainder by 32
/// counts: twice the twelve directions to the middles of the edges of a cube,
/// then the eight directions to its corners.
pub open spec fn spec_grad3(index: u32) -> Vector3 {
    match index % 32 {
        0 | 12 => Vector3::of_bits(DIAG_BITS, DIAG_BITS, 0),
        1 | 13 => Vector3::of_bits(NEG_DIAG_BITS, DIAG_BITS, 0),
        2 | 14 => Vector3::of_bits(DIAG_BITS, NEG_DIAG_BITS, 0),
        3 | 15 => Vector3::of_bits(NEG_DIAG_BITS, NEG_DIAG_BITS, 0),
        4 | 16 => Vector3::of_bits(DIAG_BITS, 0, DIAG_BITS),
        5 | 17 => Vector3::of_bits(NEG_DIAG_BITS, 0, DIAG_BITS),
        6 | 18 => Vector3::of_bits(DIAG_BITS, 0, NEG_DIAG_BITS),
        7 | 19 => Vector3::of_bits(NEG_DIAG_BITS, 0, NEG_DIAG_BITS),
        8 | 20 => Vector3::of_bits(0, DIAG_BITS, DIAG_BITS),
        9 | 21 => Vector3::of_bits(0, NEG_DIAG_BITS, DIAG_BITS),
        10 | 22 => Vector3::of_bits(0, DIAG_BITS, NEG_DIAG_BITS),
        11 | 23 => Vector3::of_bits(0, NEG_DIAG_BITS, NEG_DIAG_BITS),
        24 => Vector3::of_bits(DIAG2_BITS, DIAG2_BITS, DIAG2_BITS),
        25 => Vector3::of_bits(NEG_DIAG2_BITS, DIAG2_BITS, DIAG2_BITS),
        26 => Vector3::of_bits(DIAG2_BITS, NEG_DIAG2_BITS, DIAG2_BITS),
        27 => Vector3::of_bits(NEG_DIAG2_BITS, NEG_DIAG2_BITS, DIAG_BITS),
        28 => Vector3::of_bits(DIAG2_BITS, DIAG2_BITS, NEG_DIAG2_BITS),
        29 => Vector3::of_bits(NEG_DIAG2_BITS, DIAG2_BITS, NEG_DIAG2_BITS),
        30 => Vector3::of_bits(DIAG2_BITS, NEG_DIAG2_BITS, NEG_DIAG2_BITS),
        31 => Vector3::of_bits(NEG_DIAG2_BITS, NEG_DIAG2_BITS, NEG_DIAG2_BITS),
        _ => Vector3::of_bits(NEG_DIAG2_BITS, NEG_DIAG2_BITS, NEG_DIAG2_BITS),
    }
}

fn bits3(x: u32, y: u32, z: u32) -> (v: Vector3)
    ensures
        v == Vector3::of_bits(x, y, z),
{
    Vector3::new(Scalar::from_bits(x), Scalar::from_bits(y), Scalar::from_bits(z))
}

#[verifier::when_used_as_spec(spec_grad3)]
pub fn grad3(index: u32) -> (gradient: Vector3)
    ensures
        gradient == spec_grad3(index),
{
    match index % 32 {
        0 | 12 => bits3(DIAG_BITS, DIAG_BITS, 0),
        1 | 13 => bits3(NEG_DIAG_BITS, DIAG_BITS, 0),
        2 | 14 => bits3(DIAG_BITS, NEG_DIAG_BITS, 0),
        3 | 15 => bits3(NEG_DIAG_BITS, NEG_DIAG_BITS, 0),
        4 | 16 => bits3(DIAG_BITS, 0, DIAG_BITS),
        5 | 17 => bits3(NEG_DIAG_BITS, 0, DIAG_BITS),
        6 | 18 => bits3(DIAG_BITS, 0, NEG_DIAG_BITS),
        7 | 19 => bits3(NEG_DIAG_BITS, 0, NEG_DIAG_BITS),
        8 | 20 => bits3(0, DIAG_BITS, DIAG_BITS),
        9 | 21 => bits3(0, NEG_DIAG_BITS, DIAG_BITS),
        10 | 22 => bits3(0, DIAG_BITS, NEG_DIAG_BITS),
        11 | 23 => bits3(0, NEG_DIAG_BITS, NEG_DIAG_BITS),
        24 => bits3(DIAG2_BITS, DIAG2_BITS, DIAG2_BITS),
        25 => bits3(NEG_DIAG2_BITS, DIAG2_BITS, DIAG2_BITS),
        26 => bits3(DIAG2_BITS, NEG_DIAG2_BITS, DIAG2_BITS),
        27 => bits3(NEG_DIAG2_BITS, NEG_DIAG2_BITS, DIAG_BITS),
        28 => bits3(DIAG2_BITS, DIAG2_BITS, NEG_DIAG2_BITS),
        29 => bits3(NEG_DIAG2_BITS, DIAG2_BITS, NEG_DIAG2_BITS),
        30 => bits3(DIAG2_BITS, NEG_DIAG2_BITS, NEG_DIAG2_BITS),
        31 => bits3(NEG_DIAG2_BITS, NEG_DIAG2_BITS, NEG_DIAG2_BITS),
        _ => bits3(NEG_DIAG2_BITS, NEG_DIAG2_BITS, NEG_DIAG2_BITS),
    }
}

/// The entry of the shuffle for `value`, of which only the low eight bits
/// count.
pub fn hash(value: u32) -> (entry: u32)
    ensures
        entry == PERM[value as int % 256],
        entry < 256,
{
    assert(value & 255 == value % 256) by (bit_vector);
    let slot: u32 = value & 255;
    let found: u8 = PERM[slot as usize];
    found as u32
}

/// The step from the first corner of the lattice triangle around a point to
/// its second corner: along x where the point lies farther from the first
/// corner along x than along y, else along y.
pub open spec fn spec_second_corner(x0: Scalar, y0: Scalar) -> (u32, u32) {
    if x0.spec_greater_than(y0) {
        (1u32, 0u32)
    } else {
        (0u32, 1u32)
    }
}

#[verifier::when_used_as_spec(spec_second_corner)]
pub fn second_corner(x0: Scalar, y0: Scalar) -> (step: (u32, u32))
    ensures
        step == spec_second_corner(x0, y0),
{
    if x0.greater_than(y0) {
        (1, 0)
    } else {
        (0, 1)
    }
}

/// The number of the gradient at the lattice point `(i, j)`: the shuffle is
/// applied to `j`, `i` is added, the shuffle is applied again, and the
/// remainder by 12 is taken.
pub open spec fn gradient_at(i: int, j: int) -> int {
    PERM[(i + PERM[j % 256]) % 256] as int % 12
}

/// The numbers of the gradients at the three corners of the lattice triangle
/// whose first corner is `(i, j)` and whose second corner lies `step` away.
pub fn gradient_indices(i: u32, j: u32, step: (u32, u32)) -> (indices: (u32, u32, u32))
    requires
        i <= u32::MAX - 256,
        j < u32::MAX,
        step.0 <= 1,
        step.1 <= 1,
    ensures
        indices.0 == gradient_at(i as int, j as int),
        indices.1 == gradient_at(i + step.0, j + step.1),
        indices.2 == gradient_at(i + 1, j + 1),
        indices.0 < 12 && indices.1 < 12 && indices.2 < 12,
{
    let gi0 = hash(i + hash(j)) % 12;
    let gi1 = hash(i + step.0 + hash(j + step.1)) % 12;
    let gi2 = hash(i + 1 + hash(j + 1)) % 12;
    (gi0, gi1, gi2)
}

} // verus!
