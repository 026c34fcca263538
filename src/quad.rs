//! The boundary quad that the wave pipeline draws: four corners, two triangles.
use vstd::prelude::*;

verus! {

/// Number of indices that draw the quad.
pub const QUAD_INDEX_COUNT: u32 = 6;

/// The indices that draw the quad, as two triangles.
pub open spec fn quad_index_seq() -> Seq<u16> {
    seq![0u16, 1, 3, 1, 2, 3]
}

/// Corner `i` of the quad in the order its vertex buffer holds them (top
/// left, bottom left, bottom right, top right), as signs of x and y.
pub open spec fn corner(i: int) -> (int, int) {
    if i == 0 {
        (-1, 1)
    } else if i == 1 {
        (-1, -1)
    } else if i == 2 {
        (1, -1)
    } else {
        (1, 1)
    }
}

/// Twice the signed area of the triangle `a, b, c`: positive when the corners
/// turn counter-clockwise.
pub open spec fn turn(a: (int, int), b: (int, int), c: (int, int)) -> int {
    (b.0 - a.0) * (c.1 - a.1) - (b.1 - a.1) * (c.0 - a.0)
}

/// Triangle `t` of an index list winds counter-clockwise over the corners.
pub open spec fn triangle_ccw(indices: Seq<u16>, t: int) -> bool {
    turn(
        corner(indices[3 * t] as int),
        corner(indices[3 * t + 1] as int),
        corner(indices[3 * t + 2] as int),
    ) > 0
}

/// `bytes` holds `vals`, two bytes each, low byte first when `little` holds
/// and high byte first otherwise.
pub open spec fn encodes_u16s(bytes: Seq<u8>, vals: Seq<u16>, little: bool) -> bool {
    &&& bytes.len() == 2 * vals.len()
    &&& forall|i: int|
        0 <= i < vals.len() ==> {
            let lo = (#[trigger] vals[i] % 256) as u8;
            let hi = (vals[i] / 256) as u8;
            if little {
                bytes[2 * i] == lo && bytes[2 * i + 1] == hi
            } else {
                bytes[2 * i] == hi && bytes[2 * i + 1] == lo
            }
        }
}

/// The indices that draw the quad: triangles (top left, bottom left, top
/// right) and (bottom left, bottom right, top right).
pub fn quad_indices() -> (r: [u16; 6])
    ensures
        r@ == quad_index_seq(),
{
    let r: [u16; 6] = [0, 1, 3, 1, 2, 3];
    assert(r@ =~= quad_index_seq());
    r
}

/// Both triangles of the quad wind counter-clockwise, so neither is culled as
/// a back face, and each index names one of the four corners.
pub proof fn lemma_quad_front_facing()
    ensures
        forall|i: int| 0 <= i < 6 ==> quad_index_seq()[i] < 4,
        triangle_ccw(quad_index_seq(), 0),
        triangle_ccw(quad_index_seq(), 1),
{
    let s = quad_index_seq();
    assert(s[0] == 0u16 && s[1] == 1u16 && s[2] == 3u16);
    assert(s[3] == 1u16 && s[4] == 2u16 && s[5] == 3u16);
    assert(corner(0) == (-1int, 1int));
    assert(corner(1) == (-1int, -1int));
    assert(corner(2) == (1int, -1int));
    assert(corner(3) == (1int, 1int));
    assert(turn((-1, 1), (-1, -1), (1, 1)) == 4) by (nonlinear_arith);
    assert(turn((-1, -1), (1, -1), (1, 1)) == 4) by (nonlinear_arith);
}

/// The two triangles share the diagonal from bottom left to top right and
/// together use every corner.
pub proof fn lemma_quad_covers_corners()
    ensures
        forall|c: u16| c < 4 ==> quad_index_seq().contains(c),
        quad_index_seq()[1] == quad_index_seq()[3],
        quad_index_seq()[2] == quad_index_seq()[5],
{
    assert(quad_index_seq()[0] == 0u16);
    assert(quad_index_seq()[1] == 1u16);
    assert(quad_index_seq()[4] == 2u16);
    assert(quad_index_seq()[2] == 3u16);
}

/// Relies on bytemuck::cast_slice from `u16` to `u8`: it reinterprets the
/// slice in place, so the result holds each value's two bytes in the
/// machine's byte order, and never fails since `u8` has no alignment.
#[verifier::external_body]
fn u16_bytes(vals: &[u16]) -> (r: Vec<u8>)
    ensures
        exists|little: bool| encodes_u16s(r@, vals@, little),
{
    bytemuck::cast_slice::<u16, u8>(vals).to_vec()
}

/// The quad's index buffer contents: its indices in the machine's byte order.
pub fn quad_index_bytes() -> (r: Vec<u8>)
    ensures
        r@.len() == 12,
        exists|little: bool| encodes_u16s(r@, quad_index_seq(), little),
{
    let indices = quad_indices();
    let r = u16_bytes(&indices);
    r
}

} // verus!
