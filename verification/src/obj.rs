//! Mesh data in the wavefront layout.
//!
//! An [`Obj`] holds the four tables a mesh file yields: positions,
//! texture coordinates, normals, and per-vertex index triples.  The
//! numeric text is parsed by the host — the values reach the library
//! as IEEE-754 single-precision bit patterns — and the library does
//! the indexed interleaving into the static 3-2-3 vertex layout.
//! Index triples are 1-based, as the file format writes them.

use vstd::prelude::*;

verus! {

/// Why a mesh was rejected.
#[derive(Clone, Copy, Debug, PartialEq, Eq, Structural)]
pub enum ObjError {
    /// A face index was zero or pointed past its table.
    InvalidFaceIndex,
}

impl ObjError {
    /// The diagnostic message for this rejection.
    pub fn message(&self) -> (s: &'static str)
        ensures
            s == "Face index out of range",
    {
        "Face index out of range"
    }
}

/// Is every index triple 1-based and within its table?  A triple is
/// (position index, texture index, normal index).
pub open spec fn faces_wf(
    face: Seq<[usize; 3]>,
    n_position: nat,
    n_uv: nat,
    n_normal: nat,
) -> bool {
    forall|i: int|
        0 <= i < face.len() ==> {
            let f = #[trigger] face[i];
            &&& 1 <= f[0] <= n_position
            &&& 1 <= f[1] <= n_uv
            &&& 1 <= f[2] <= n_normal
        }
}

/// A mesh: vertex attribute tables plus 1-based index triples, three
/// per triangular face.  Attribute components are IEEE-754
/// single-precision bit patterns.
#[derive(Debug)]
pub struct Obj {
    pub position: Vec<[u32; 3]>,
    pub uv: Vec<[u32; 2]>,
    pub normal: Vec<[u32; 3]>,
    /// One (position, texture, normal) index triple per vertex.
    pub face: Vec<[usize; 3]>,
}

impl Obj {
    /// Is every face triple within the attribute tables?
    pub open spec fn wf(self) -> bool {
        faces_wf(self.face@, self.position@.len(), self.uv@.len(), self.normal@.len())
    }

    /// Assembles a mesh from its decoded tables, accepting it exactly
    /// when every face index is 1-based and within its table.
    pub fn init(
        position: Vec<[u32; 3]>,
        uv: Vec<[u32; 2]>,
        normal: Vec<[u32; 3]>,
        face: Vec<[usize; 3]>,
    ) -> (r: Result<Obj, ObjError>)
        ensures
            (r matches Ok(o) ==> o == (Obj { position, uv, normal, face }) && o.wf()),
            (r is Err ==> !faces_wf(face@, position@.len(), uv@.len(), normal@.len()) && r
                == Err::<Obj, ObjError>(ObjError::InvalidFaceIndex)),
    {
        let n = face.len();
        let mut i: usize = 0;
        while i < n
            invariant
                n == face@.len(),
                i <= n,
                forall|j: int|
                    0 <= j < i ==> {
                        let f = #[trigger] face@[j];
                        &&& 1 <= f[0] <= position@.len()
                        &&& 1 <= f[1] <= uv@.len()
                        &&& 1 <= f[2] <= normal@.len()
                    },
            decreases n - i,
        {
            let f = face[i];
            let ok = 1 <= f[0] && f[0] <= position.len() && 1 <= f[1] && f[1] <= uv.len() && 1
                <= f[2] && f[2] <= normal.len();
            if !ok {
                proof {
                    assert(!{
                        let g = face@[i as int];
                        &&& 1 <= g[0] <= position@.len()
                        &&& 1 <= g[1] <= uv@.len()
                        &&& 1 <= g[2] <= normal@.len()
                    });
                }
                return Err(ObjError::InvalidFaceIndex);
            }
            i = i + 1;
        }
        Ok(Obj { position, uv, normal, face })
    }

    /// Interleaves the mesh into the static 3-2-3 vertex layout: for
    /// each face triple, in order, the indexed position's three
    /// components, the indexed texture coordinate's two, and the
    /// indexed normal's three — eight bit patterns per vertex.
    pub fn gl_3_2_3_vertices(&self) -> (r: Vec<u32>)
        requires
            self.wf(),
            self.face@.len() * 8 <= usize::MAX,
        ensures
            r@.len() == self.face@.len() * 8,
            forall|i: int|
                0 <= i < self.face@.len() ==> {
                    let f = #[trigger] self.face@[i];
                    &&& r@[8 * i + 0] == self.position@[f[0] - 1][0]
                    &&& r@[8 * i + 1] == self.position@[f[0] - 1][1]
                    &&& r@[8 * i + 2] == self.position@[f[0] - 1][2]
                    &&& r@[8 * i + 3] == self.uv@[f[1] - 1][0]
                    &&& r@[8 * i + 4] == self.uv@[f[1] - 1][1]
                    &&& r@[8 * i + 5] == self.normal@[f[2] - 1][0]
                    &&& r@[8 * i + 6] == self.normal@[f[2] - 1][1]
                    &&& r@[8 * i + 7] == self.normal@[f[2] - 1][2]
                },
    {
        let mut vertices: Vec<u32> = Vec::new();
        let n = self.face.len();
        let mut i: usize = 0;
        while i < n
            invariant
                self.wf(),
                n == self.face@.len(),
                n * 8 <= usize::MAX,
                i <= n,
                vertices@.len() == 8 * i,
                forall|j: int|
                    0 <= j < i ==> {
                        let f = #[trigger] self.face@[j];
                        &&& vertices@[8 * j + 0] == self.position@[f[0] - 1][0]
                        &&& vertices@[8 * j + 1] == self.position@[f[0] - 1][1]
                        &&& vertices@[8 * j + 2] == self.position@[f[0] - 1][2]
                        &&& vertices@[8 * j + 3] == self.uv@[f[1] - 1][0]
                        &&& vertices@[8 * j + 4] == self.uv@[f[1] - 1][1]
                        &&& vertices@[8 * j + 5] == self.normal@[f[2] - 1][0]
                        &&& vertices@[8 * j + 6] == self.normal@[f[2] - 1][1]
                        &&& vertices@[8 * j + 7] == self.normal@[f[2] - 1][2]
                    },
            decreases n - i,
        {
            let f = self.face[i];
            let pos0 = self.position[f[0] - 1];
            let uv0 = self.uv[f[1] - 1];
            let norm0 = self.normal[f[2] - 1];
            vertices.push(pos0[0]);
            vertices.push(pos0[1]);
            vertices.push(pos0[2]);
            vertices.push(uv0[0]);
            vertices.push(uv0[1]);
            vertices.push(norm0[0]);
            vertices.push(norm0[1]);
            vertices.push(norm0[2]);
            i = i + 1;
        }
        vertices
    }
}

} // verus!
