//! Triangle extraction from a loaded mesh's index buffer.
//!
//! A mesh file yields a flat list of vertex positions and a flat index
//! buffer in which every three consecutive entries name one triangle's
//! corners. The positions are floating-point and stay with the loader;
//! grouping the buffer into triples and checking every index against the
//! vertex count — so that a malformed mesh is rejected before rendering
//! starts rather than mid-render — is verified here.

use vstd::prelude::*;

verus! {

/// The three vertex indices of one triangle.
#[derive(Clone, Copy, PartialEq, Eq, Structural, Debug)]
pub struct TriangleIndices {
    pub a: u32,
    pub b: u32,
    pub c: u32,
}

/// Groups a mesh's flat index buffer into triangles, three consecutive
/// entries each; one or two trailing indices are ignored. Returns the
/// triangles exactly when every used index names one of the `n_points`
/// vertices, and nothing otherwise.
pub fn triangle_index_triples(indices: &Vec<u32>, n_points: usize) -> (r: Option<
    Vec<TriangleIndices>,
>)
    ensures
        (match r {
            Some(ts) => {
                &&& forall|k: int|
                    0 <= k < 3 * (indices@.len() as int / 3) ==> (#[trigger] indices@[k] as int)
                        < n_points
                &&& ts@.len() == indices@.len() as int / 3
                &&& forall|t: int|
                    0 <= t < ts@.len() ==> (#[trigger] ts@[t]) == (TriangleIndices {
                        a: indices@[3 * t],
                        b: indices@[3 * t + 1],
                        c: indices@[3 * t + 2],
                    })
            },
            None => exists|k: int|
                0 <= k < 3 * (indices@.len() as int / 3) && (#[trigger] indices@[k] as int)
                    >= n_points,
        }),
{
    let n = indices.len();
    let m = n / 3;
    proof {
        vstd::arithmetic::div_mod::lemma_fundamental_div_mod(indices@.len() as int, 3);
    }
    let mut ts: Vec<TriangleIndices> = Vec::new();
    let mut t: usize = 0;
    while t < m
        invariant
            t <= m,
            n == indices@.len(),
            m == indices@.len() as int / 3,
            3 * m <= indices@.len(),
            ts@.len() == t,
            forall|k: int| 0 <= k < 3 * t ==> (#[trigger] indices@[k] as int) < n_points,
            forall|q: int|
                0 <= q < t ==> (#[trigger] ts@[q]) == (TriangleIndices {
                    a: indices@[3 * q],
                    b: indices@[3 * q + 1],
                    c: indices@[3 * q + 2],
                }),
        decreases m - t,
    {
        proof {
            assert(3 * t + 2 < indices@.len());
        }
        let a = indices[3 * t];
        let b = indices[3 * t + 1];
        let c = indices[3 * t + 2];
        if a as usize >= n_points || b as usize >= n_points || c as usize >= n_points {
            return None;
        }
        ts.push(TriangleIndices { a, b, c });
        t = t + 1;
    }
    Some(ts)
}

} // verus!
