//! Gradient tables and lattice decisions for simplex noise in two and three
//! dimensions.

use crate::scalar::Scalar;
use crate::scalar::ONE_BITS;
use crate::vectors::vector_three::Vector3;
use crate::vectors::vector_three_int::Vector3Int;
use vstd::prelude::*;

verus! {

/// A fixed shuffle of the numbers 0 to 255, written out twice so that the sum
/// of a coordinate below 256 and an entry needs no wrapping.
pub const PERM: [u8; 512] = [
    151, 160, 137, 91, 90, 15, 131, 13, 201, 95, 96, 53, 194, 233, 7, 225,
    140, 36, 103, 30, 69, 142, 8, 99, 37, 240, 21, 10, 23, 190, 6, 148,
    247, 120, 234, 75, 0, 26, 197, 62, 94, 252, 219, 203, 117, 35, 11, 32,
    57, 177, 33, 88, 237, 149, 56, 87, 174, 20, 125, 136, 171, 168, 68, 175,
    74, 165, 71, 134, 139, 48, 27, 166, 77, 146, 158, 231, 83, 111, 229, 122,
    60, 211, 133, 230, 220, 105, 92, 41, 55, 46, 245, 40, 244, 102, 143, 54,
    65, 25, 63, 161, 1, 216, 80, 73, 209, 76, 132, 187, 208, 89, 18, 169,
    200, 196, 135, 130, 116, 188, 159, 86, 164, 100, 109, 198, 173, 186, 3, 64,
    52, 217, 226, 250, 124, 123, 5, 202, 38, 147, 118, 126, 255, 82, 85, 212,
    207, 206, 59, 227, 47, 16, 58, 17, 182, 189, 28, 42, 223, 183, 170, 213,
    119, 248, 152, 2, 44, 154, 163, 70, 221, 153, 101, 155, 167, 43, 172, 9,
    129, 22, 39, 253, 19, 98, 108, 110, 79, 113, 224, 232, 178, 185, 112, 104,
    218, 246, 97, 228, 251, 34, 242, 193, 238, 210, 144, 12, 191, 179, 162, 241,
    81, 51, 145, 235, 249, 14, 239, 107, 49, 192, 214, 31, 181, 199, 106, 157,
    184, 84, 204, 176, 115, 121, 50, 45, 127, 4, 150, 254, 138, 236, 205, 93,
    222, 114, 67, 29, 24, 72, 243, 141, 128, 195, 78, 66, 215, 61, 156, 180,
    151, 160, 137, 91, 90, 15, 131, 13, 201, 95, 96, 53, 194, 233, 7, 225,
    140, 36, 103, 30, 69, 142, 8, 99, 37, 240, 21, 10, 23, 190, 6, 148,
    247, 120, 234, 75, 0, 26, 197, 62, 94, 252, 219, 203, 117, 35, 11, 32,
    57, 177, 33, 88, 237, 149, 56, 87, 174, 20, 125, 136, 171, 168, 68, 175,
    74, 165, 71, 134, 139, 48, 27, 166, 77, 146, 158, 231, 83, 111, 229, 122,
    60, 211, 133, 230, 220, 105, 92, 41, 55, 46, 245, 40, 244, 102, 143, 54,
    65, 25, 63, 161, 1, 216, 80, 73, 209, 76, 132, 187, 208, 89, 18, 169,
    200, 196, 135, 130, 116, 188, 159, 86, 164, 100, 109, 198, 173, 186, 3, 64,
    52, 217, 226, 250, 124, 123, 5, 202, 38, 147, 118, 126, 255, 82, 85, 212,
    207, 206, 59, 227, 47, 16, 58, 17, 182, 189, 28, 42, 223, 183, 170, 213,
    119, 248, 152, 2, 44, 154, 163, 70, 221, 153, 101, 155, 167, 43, 172, 9,
    129, 22, 39, 253, 19, 98, 108, 110, 79, 113, 224, 232, 178, 185, 112, 104,
    218, 246, 97, 228, 251, 34, 242, 193, 238, 210, 144, 12, 191, 179, 162, 241,
    81, 51, 145, 235, 249, 14, 239, 107, 49, 192, 214, 31, 181, 199, 106, 157,
    184, 84, 204, 176, 115, 121, 50, 45, 127, 4, 150, 254, 138, 236, 205, 93,
    222, 114, 67, 29, 24, 72, 243, 141, 128, 195, 78, 66, 215, 61, 156, 180,
];

/// The direction with the given number, of which only the remainder by 12
/// counts, on the integer grid: from the centre of a cube to the middle of
/// one of its twelve edges.
pub open spec fn edge_direction(index: int) -> Vector3Int {
    let place = index % 12;
    if place == 0 {
        Vector3Int { x: 1i32, y: 1i32, z: 0i32 }
    } else if place == 1 {
        Vector3Int { x: -1i32, y: 1i32, z: 0i32 }
    } else if place == 2 {
        Vector3Int { x: 1i32, y: -1i32, z: 0i32 }
    } else if place == 3 {
        Vector3Int { x: -1i32, y: -1i32, z: 0i32 }
    } else if place == 4 {
        Vector3Int { x: 1i32, y: 0i32, z: 1i32 }
    } else if place == 5 {
        Vector3Int { x: -1i32, y: 0i32, z: 1i32 }
    } else if place == 6 {
        Vector3Int { x: 1i32, y: 0i32, z: -1i32 }
    } else if place == 7 {
        Vector3Int { x: -1i32, y: 0i32, z: -1i32 }
    } else if place == 8 {
        Vector3Int { x: 0i32, y: 1i32, z: 1i32 }
    } else if place == 9 {
        Vector3Int { x: 0i32, y: -1i32, z: 1i32 }
    } else if place == 10 {
        Vector3Int { x: 0i32, y: 1i32, z: -1i32 }
    } else {
        Vector3Int { x: 0i32, y: -1i32, z: -1i32 }
    }
}

/// The bit pattern of a component of an edge direction: one, minus one or
/// positive zero.
pub open spec fn component_bits(c: i32) -> u32 {
    if c > 0 {
        ONE_BITS
    } else if c < 0 {
        0xbf80_0000u32
    } else {
        0u32
    }
}

/// The gradient with the given number: its edge direction as a vector of
/// binary32 components.
pub open spec fn spec_grad3(index: i32) -> Vector3 {
    let d = edge_direction(index as int);
    Vector3::of_bits(component_bits(d.x), component_bits(d.y), component_bits(d.z))
}

fn signed_unit(c: i32) -> (s: Scalar)
    ensures
        s.bits == component_bits(c),
{
    if c > 0 {
        Scalar::from_bits(ONE_BITS)
    } else if c < 0 {
        Scalar::from_bits(0xbf80_0000)
    } else {
        Scalar::from_bits(0)
    }
}

#[verifier::when_used_as_spec(spec_grad3)]
pub fn grad3(index: i32) -> (gradient: Vector3)
    requires
        index >= 0,
    ensures
        gradient == spec_grad3(index),
{
    let (x, y, z): (i32, i32, i32) = match index % 12 {
        0 => (1, 1, 0),
        1 => (-1, 1, 0),
        2 => (1, -1, 0),
        3 => (-1, -1, 0),
        4 => (1, 0, 1),
        5 => (-1, 0, 1),
        6 => (1, 0, -1),
        7 => (-1, 0, -1),
        8 => (0, 1, 1),
        9 => (0, -1, 1),
        10 => (0, 1, -1),
        _ => (0, -1, -1),
    };
    Vector3::new(signed_unit(x), signed_unit(y), signed_unit(z))
}

/// Every edge direction has one component that is zero and two that are one
/// or minus one.
pub proof fn lemma_edge_directions(index: int)
    ensures
        ({
            let d = edge_direction(index);
            let zeros = (if d.x == 0 { 1int } else { 0int }) + (if d.y == 0 { 1int } else { 0int })
                + (if d.z == 0 { 1int } else { 0int });
            &&& -1 <= d.x <= 1 && -1 <= d.y <= 1 && -1 <= d.z <= 1
            &&& zeros == 1
        }),
{
}

/// The entry of the shuffle in the given place.
pub fn hash(place: i32) -> (entry: i32)
    requires
        0 <= place < 512,
    ensures
        entry == PERM[place as int],
        0 <= entry < 256,
{
    let found: u8 = PERM[place as usize];
    found as i32
}

/// A lattice coordinate brought into the range of the shuffle: its remainder
/// by 256, which is not negative.
pub open spec fn wrapped(coordinate: int) -> int {
    coordinate % 256
}

/// The low eight bits of a lattice coordinate.
pub fn wrap(coordinate: i32) -> (low: i32)
    ensures
        low == wrapped(coordinate as int),
        0 <= low < 256,
{
    assert(coordinate & 255 == coordinate % 256) by (bit_vector);
    coordinate & 255
}

/// The step from the first corner of the lattice triangle around a point to
/// its second corner: along x where the point lies farther from the first
/// corner along x than along y, else along y.
pub open spec fn spec_triangle_step(x0: Scalar, y0: Scalar) -> (i32, i32) {
    if x0.spec_greater_than(y0) {
        (1i32, 0i32)
    } else {
        (0i32, 1i32)
    }
}

#[verifier::when_used_as_spec(spec_triangle_step)]
pub fn triangle_step(x0: Scalar, y0: Scalar) -> (step: (i32, i32))
    ensures
        step == spec_triangle_step(x0, y0),
{
    if x0.greater_than(y0) {
        (1, 0)
    } else {
        (0, 1)
    }
}

/// The steps from the first corner of the lattice tetrahedron around a point
/// to its second and to its third corner. The second corner lies one step
/// along the axis along which the point lies farthest from the first corner,
/// the third one step further along the axis along which it lies second
/// farthest.
pub open spec fn spec_tetrahedron_steps(x0: Scalar, y0: Scalar, z0: Scalar) -> (
    Vector3Int,
    Vector3Int,
) {
    if x0.spec_at_least(y0) {
        if y0.spec_at_least(z0) {
            (Vector3Int { x: 1, y: 0, z: 0 }, Vector3Int { x: 1, y: 1, z: 0 })
        } else if x0.spec_at_least(z0) {
            (Vector3Int { x: 1, y: 0, z: 0 }, Vector3Int { x: 1, y: 0, z: 1 })
        } else {
            (Vector3Int { x: 0, y: 0, z: 1 }, Vector3Int { x: 1, y: 0, z: 1 })
        }
    } else {
        if y0.spec_less_than(z0) {
            (Vector3Int { x: 0, y: 0, z: 1 }, Vector3Int { x: 0, y: 1, z: 1 })
        } else if x0.spec_less_than(z0) {
            (Vector3Int { x: 0, y: 1, z: 0 }, Vector3Int { x: 0, y: 1, z: 1 })
        } else {
            (Vector3Int { x: 0, y: 1, z: 0 }, Vector3Int { x: 1, y: 1, z: 0 })
        }
    }
}

#[verifier::when_used_as_spec(spec_tetrahedron_steps)]
pub fn tetrahedron_steps(x0: Scalar, y0: Scalar, z0: Scalar) -> (steps: (Vector3Int, Vector3Int))
    ensures
        steps == spec_tetrahedron_steps(x0, y0, z0),
        is_unit_step(steps.0),
        is_double_step(steps.1),
        steps.0.x <= steps.1.x && steps.0.y <= steps.1.y && steps.0.z <= steps.1.z,
{
    if x0.at_least(y0) {
        if y0.at_least(z0) {
            (Vector3Int::new(1, 0, 0), Vector3Int::new(1, 1, 0))
        } else if x0.at_least(z0) {
            (Vector3Int::new(1, 0, 0), Vector3Int::new(1, 0, 1))
        } else {
            (Vector3Int::new(0, 0, 1), Vector3Int::new(1, 0, 1))
        }
    } else {
        if y0.less_than(z0) {
            (Vector3Int::new(0, 0, 1), Vector3Int::new(0, 1, 1))
        } else if x0.less_than(z0) {
            (Vector3Int::new(0, 1, 0), Vector3Int::new(0, 1, 1))
        } else {
            (Vector3Int::new(0, 1, 0), Vector3Int::new(1, 1, 0))
        }
    }
}

/// One step along one axis.
pub open spec fn is_unit_step(step: Vector3Int) -> bool {
    &&& 0 <= step.x <= 1 && 0 <= step.y <= 1 && 0 <= step.z <= 1
    &&& step.x + step.y + step.z == 1
}

/// One step along each of two axes.
pub open spec fn is_double_step(step: Vector3Int) -> bool {
    &&& 0 <= step.x <= 1 && 0 <= step.y <= 1 && 0 <= step.z <= 1
    &&& step.x + step.y + step.z == 2
}

/// The number of the gradient at the lattice point `(i, j)`, both
/// coordinates between 0 and 256: the shuffle is applied to `j`, `i` is
/// added, and the shuffle is applied again.
pub open spec fn gradient_at_2d(i: int, j: int) -> int {
    PERM[i + PERM[j]] as int
}

/// The number of the gradient at the lattice point `(i, j, k)`, all
/// coordinates between 0 and 256.
pub open spec fn gradient_at_3d(i: int, j: int, k: int) -> int {
    PERM[i + PERM[j + PERM[k]]] as int
}

/// The numbers of the gradients at the three corners of the lattice triangle
/// whose first corner is the lattice point `(i, j)` and whose second corner
/// lies `step` away. Of the coordinates only the low eight bits count.
pub fn gradient_indices_2d(i: i32, j: i32, step: (i32, i32)) -> (indices: (i32, i32, i32))
    requires
        0 <= step.0 <= 1,
        0 <= step.1 <= 1,
    ensures
        indices.0 == gradient_at_2d(wrapped(i as int), wrapped(j as int)),
        indices.1 == gradient_at_2d(wrapped(i as int) + step.0, wrapped(j as int) + step.1),
        indices.2 == gradient_at_2d(wrapped(i as int) + 1, wrapped(j as int) + 1),
        0 <= indices.0 < 256 && 0 <= indices.1 < 256 && 0 <= indices.2 < 256,
{
    let ii = wrap(i);
    let jj = wrap(j);
    let gi0 = hash(ii + hash(jj));
    let gi1 = hash(ii + step.0 + hash(jj + step.1));
    let gi2 = hash(ii + 1 + hash(jj + 1));
    (gi0, gi1, gi2)
}

/// The numbers of the gradients at the four corners of the lattice
/// tetrahedron whose first corner is the lattice point `cell` and whose second
/// and third corners lie `second` and `third` away. Of the coordinates only
/// the low eight bits count.
pub fn gradient_indices_3d(cell: Vector3Int, second: Vector3Int, third: Vector3Int) -> (indices: (
    i32,
    i32,
    i32,
    i32,
))
    requires
        0 <= second.x <= 1 && 0 <= second.y <= 1 && 0 <= second.z <= 1,
        0 <= third.x <= 1 && 0 <= third.y <= 1 && 0 <= third.z <= 1,
    ensures
        ({
            let i = wrapped(cell.x as int);
            let j = wrapped(cell.y as int);
            let k = wrapped(cell.z as int);
            &&& indices.0 == gradient_at_3d(i, j, k)
            &&& indices.1 == gradient_at_3d(i + second.x, j + second.y, k + second.z)
            &&& indices.2 == gradient_at_3d(i + third.x, j + third.y, k + third.z)
            &&& indices.3 == gradient_at_3d(i + 1, j + 1, k + 1)
        }),
        0 <= indices.0 < 256 && 0 <= indices.1 < 256 && 0 <= indices.2 < 256 && 0 <= indices.3
            < 256,
{
    let ii = wrap(cell.x);
    let jj = wrap(cell.y);
    let kk = wrap(cell.z);
    let gi0 = hash(ii + hash(jj + hash(kk)));
    let gi1 = hash(ii + second.x + hash(jj + second.y + hash(kk + second.z)));
    let gi2 = hash(ii + third.x + hash(jj + third.y + hash(kk + third.z)));
    let gi3 = hash(ii + 1 + hash(jj + 1 + hash(kk + 1)));
    (gi0, gi1, gi2, gi3)
}

} // verus!
