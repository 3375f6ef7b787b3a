//! Layout of mesh data for the fixed-size vertex buffer.
//!
//! A vertex is six 32-bit components, interleaved: position (x, y, z), then
//! colour (r, g, b). The colour of a decoded model is its vertex normal.
use vstd::prelude::*;

verus! {

/// Components per vertex: three of position, three of colour.
pub const VERTEX_COMPONENTS: usize = 6;

/// Size of one vertex in bytes (six 4-byte floats).
pub const VERTEX_STRIDE: u64 = 24;

/// Byte offset of the position within a vertex.
pub const POSITION_OFFSET: u32 = 0;

/// Byte offset of the colour within a vertex.
pub const COLOR_OFFSET: u32 = 12;

/// Fixed capacity of the vertex buffer, in bytes.
pub const VERTEX_BUFFER_CAPACITY: u64 = 120000;

/// Why mesh data cannot be loaded into the vertex buffer.
#[derive(Clone, Copy, Debug, PartialEq, Eq, Structural)]
pub enum MeshError {
    /// The vertices take more bytes than the buffer holds.
    CapacityExceeded,
    /// An index points past the position or normal data.
    IndexOutOfRange,
}

pub open spec fn vertex_bytes(vertex_count: nat) -> nat {
    vertex_count * (VERTEX_STRIDE as nat)
}

pub open spec fn fits_in_buffer(vertex_count: nat) -> bool {
    vertex_bytes(vertex_count) <= VERTEX_BUFFER_CAPACITY
}

/// Byte size of `vertex_count` vertices, or `CapacityExceeded` when they do
/// not fit in the vertex buffer: an upload is never allowed to overrun it.
pub fn check_vertex_capacity(vertex_count: usize) -> (r: Result<u64, MeshError>)
    ensures
        fits_in_buffer(vertex_count as nat) <==> r is Ok,
        r matches Ok(bytes) ==> bytes == vertex_bytes(vertex_count as nat),
        !fits_in_buffer(vertex_count as nat) ==> r == Err::<u64, MeshError>(
            MeshError::CapacityExceeded,
        ),
{
    if vertex_count as u64 > VERTEX_BUFFER_CAPACITY / VERTEX_STRIDE {
        Err(MeshError::CapacityExceeded)
    } else {
        Ok(vertex_count as u64 * VERTEX_STRIDE)
    }
}

/// Every index has a full triple of position and of normal data.
pub open spec fn indices_in_range<T>(positions: Seq<T>, normals: Seq<T>, indices: Seq<u32>) -> bool {
    forall|v: int|
        0 <= v < indices.len() ==> 3 * (#[trigger] indices[v]) + 2 < positions.len() && 3
            * indices[v] + 2 < normals.len()
}

/// Component `k` of the interleaved vertex stream: vertex `k / 6` is the
/// position triple and then the normal triple at its index.
pub open spec fn expanded_component<T>(
    positions: Seq<T>,
    normals: Seq<T>,
    indices: Seq<u32>,
    k: int,
) -> T {
    let i = indices[k / 6] as int;
    let c = k % 6;
    if c < 3 {
        positions[3 * i + c]
    } else {
        normals[3 * i + c - 3]
    }
}

pub open spec fn expanded_spec<T>(positions: Seq<T>, normals: Seq<T>, indices: Seq<u32>) -> Seq<T> {
    Seq::new(6 * indices.len(), |k: int| expanded_component(positions, normals, indices, k))
}

/// Turns indexed position and normal data (flat triples) into one vertex
/// per index, with the normal as the colour.
pub fn expand_indexed<T: Copy>(positions: &Vec<T>, normals: &Vec<T>, indices: &Vec<u32>) -> (r:
    Result<Vec<T>, MeshError>)
    ensures
        indices_in_range(positions@, normals@, indices@) <==> r is Ok,
        r matches Ok(v) ==> v@ == expanded_spec(positions@, normals@, indices@),
        !indices_in_range(positions@, normals@, indices@) ==> r == Err::<Vec<T>, MeshError>(
            MeshError::IndexOutOfRange,
        ),
{
    let mut out: Vec<T> = Vec::new();
    let mut v: usize = 0;
    while v < indices.len()
        invariant
            0 <= v <= indices.len(),
            out@.len() == 6 * v,
            forall|u: int|
                0 <= u < v ==> 3 * (#[trigger] indices@[u]) + 2 < positions@.len() && 3
                    * indices@[u] + 2 < normals@.len(),
            forall|k: int|
                0 <= k < out@.len() ==> out@[k] == #[trigger] expanded_component(
                    positions@,
                    normals@,
                    indices@,
                    k,
                ),
        decreases indices.len() - v,
    {
        let i = indices[v] as usize;
        if i >= positions.len() / 3 || i >= normals.len() / 3 {
            assert(!(3 * indices@[v as int] + 2 < positions@.len() && 3 * indices@[v as int] + 2
                < normals@.len()));
            return Err(MeshError::IndexOutOfRange);
        }
        let ghost before = out@;
        let base = 3 * i;
        out.push(positions[base]);
        out.push(positions[base + 1]);
        out.push(positions[base + 2]);
        out.push(normals[base]);
        out.push(normals[base + 1]);
        out.push(normals[base + 2]);
        assert forall|k: int| 0 <= k < out@.len() implies out@[k] == #[trigger] expanded_component(
            positions@,
            normals@,
            indices@,
            k,
        ) by {
            if k >= 6 * v {
                assert(k / 6 == v && k % 6 == k - 6 * v) by (nonlinear_arith)
                    requires
                        6 * v <= k < 6 * v + 6,
                ;
            } else {
                assert(out@[k] == before[k]);
            }
        }
        v = v + 1;
    }
    assert(out@ =~= expanded_spec(positions@, normals@, indices@));
    Ok(out)
}

/// Builds the vertex stream of an indexed model: one vertex per index. The
/// vertex count is checked against the buffer's capacity first, then every
/// index against the data.
pub fn mesh_vertices<T: Copy>(positions: &Vec<T>, normals: &Vec<T>, indices: &Vec<u32>) -> (r:
    Result<Vec<T>, MeshError>)
    ensures
        !fits_in_buffer(indices@.len()) ==> r == Err::<Vec<T>, MeshError>(
            MeshError::CapacityExceeded,
        ),
        fits_in_buffer(indices@.len()) && !indices_in_range(positions@, normals@, indices@) ==> r
            == Err::<Vec<T>, MeshError>(MeshError::IndexOutOfRange),
        fits_in_buffer(indices@.len()) && indices_in_range(positions@, normals@, indices@) ==> (r
            matches Ok(v) && v@ == expanded_spec(positions@, normals@, indices@)),
{
    match check_vertex_capacity(indices.len()) {
        Err(e) => Err(e),
        Ok(_) => expand_indexed(positions, normals, indices),
    }
}

} // verus!
