use vstd::prelude::*;
use itertools::Itertools;

verus! {

/// A face of a mesh: the indices of its three vertices.
pub type Face = (usize, usize, usize);

/// The end of the chunk of three that starts at `3 * i` in a sequence of
/// `len` items.
pub open spec fn chunk_end(i: int, len: int) -> int {
    if 3 * i + 3 <= len {
        3 * i + 3
    } else {
        len
    }
}

/// Relies on itertools::Itertools::chunks: the items, in order, in chunks of
/// three, the last one shorter when the items run out.
#[verifier::external_body]
fn chunks_of_three(indices: &Vec<usize>) -> (r: Vec<Vec<usize>>)
    ensures
        r@.len() == (indices@.len() + 2) / 3,
        forall|i: int|
            0 <= i < r@.len() ==> #[trigger] r@[i]@ == indices@.subrange(
                3 * i,
                chunk_end(i, indices@.len() as int),
            ),
{
    indices.iter().copied().chunks(3).into_iter().map(|c| c.collect()).collect()
}

/// Whether an index buffer splits into whole faces whose indices all name
/// one of `vertex_count` vertices.
pub open spec fn valid_index_buffer(indices: Seq<usize>, vertex_count: usize) -> bool {
    indices.len() % 3 == 0 && forall|i: int| 0 <= i < indices.len() ==> indices[i] < vertex_count
}

/// The faces of an index buffer, three indices per face, in order.
pub open spec fn faces_of(indices: Seq<usize>) -> Seq<Face> {
    Seq::new(
        indices.len() / 3,
        |i: int| (indices[3 * i], indices[3 * i + 1], indices[3 * i + 2]),
    )
}

/// Groups a mesh's index buffer into faces, three indices per face, in
/// order; `None` when the buffer does not split into whole faces or names a
/// vertex past `vertex_count`.
pub fn face_indices(indices: &Vec<usize>, vertex_count: usize) -> (r: Option<Vec<Face>>)
    ensures
        r.is_some() == valid_index_buffer(indices@, vertex_count),
        r.is_some() ==> r.unwrap()@ == faces_of(indices@),
{
    let chunks = chunks_of_three(indices);
    let ghost n = indices@.len() as int;
    let mut faces: Vec<Face> = Vec::new();
    let mut i: usize = 0;
    while i < chunks.len()
        invariant
            chunks@.len() == (n + 2) / 3,
            n == indices@.len(),
            forall|k: int|
                0 <= k < chunks@.len() ==> #[trigger] chunks@[k]@ == indices@.subrange(
                    3 * k,
                    chunk_end(k, n),
                ),
            i <= chunks@.len(),
            faces@.len() == i,
            3 * i <= n,
            forall|k: int| 0 <= k < 3 * i ==> indices@[k] < vertex_count,
            forall|k: int|
                0 <= k < i ==> #[trigger] faces@[k] == (
                    indices@[3 * k],
                    indices@[3 * k + 1],
                    indices@[3 * k + 2],
                ),
        decreases chunks@.len() - i,
    {
        let chunk = &chunks[i];
        assert(chunk@ == indices@.subrange(3 * i, chunk_end(i as int, n)));
        if chunk.len() != 3 {
            assert(n % 3 != 0);
            return None;
        }
        let a = chunk[0];
        let b = chunk[1];
        let c = chunk[2];
        if a >= vertex_count || b >= vertex_count || c >= vertex_count {
            assert(!valid_index_buffer(indices@, vertex_count)) by {
                assert(indices@[3 * i] == a);
                assert(indices@[3 * i + 1] == b);
                assert(indices@[3 * i + 2] == c);
            }
            return None;
        }
        faces.push((a, b, c));
        i = i + 1;
    }
    assert(n % 3 == 0);
    assert(faces@ =~= faces_of(indices@));
    Some(faces)
}

} // verus!
