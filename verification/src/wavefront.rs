//! The in-memory mesh: parallel lists of geometric, texture and normal
//! vertices, and three parallel face lists, each face a triple of 0-based
//! indices into the corresponding vertex list. Loading and parsing the OBJ
//! text is a collaborator's concern; the constructor here validates an
//! already-decoded mesh, so that every face index is known to be in range
//! for the whole render.

use vstd::prelude::*;
use crate::vector::{Fx2, Fx3};

verus! {

/// One face: three 0-based indices into a vertex list.
#[derive(Clone, Copy, PartialEq, Eq, Structural, Debug)]
pub struct Face {
    pub i0: usize,
    pub i1: usize,
    pub i2: usize,
}

impl Face {
    /// The index at corner `k` of the face.
    pub open spec fn idx(self, k: int) -> int {
        if k == 0 {
            self.i0 as int
        } else if k == 1 {
            self.i1 as int
        } else {
            self.i2 as int
        }
    }

    /// The index at corner `k` of the face.
    pub fn get(self, k: usize) -> (r: usize)
        requires
            k < 3,
        ensures
            r as int == self.idx(k as int),
    {
        if k == 0 {
            self.i0
        } else if k == 1 {
            self.i1
        } else {
            self.i2
        }
    }
}

/// All three corners of the face point inside a vertex list of length `n`.
pub open spec fn face_in_range(f: Face, n: int) -> bool {
    f.i0 < n && f.i1 < n && f.i2 < n
}

/// Why a mesh was rejected.
#[derive(Clone, Copy, PartialEq, Eq, Structural, Debug)]
pub enum MeshError {
    /// The three face lists do not describe the same number of faces.
    MismatchedFaceLists,
    /// Some face holds an index past the end of its vertex list.
    IndexOutOfRange,
}

/// A validated mesh.
pub struct Object {
    pub geometric_vertices: Vec<Fx3>,
    pub geometric_faces: Vec<Face>,
    pub texture_vertices: Vec<Fx2>,
    pub texture_faces: Vec<Face>,
    pub normal_vertices: Vec<Fx3>,
    pub normal_faces: Vec<Face>,
}

/// The three face lists are parallel: one geometric, texture and normal
/// entry per face.
pub open spec fn faces_parallel(gf: Seq<Face>, tf: Seq<Face>, nf: Seq<Face>) -> bool {
    gf.len() == tf.len() && gf.len() == nf.len()
}

/// Every face index lands inside its vertex list.
pub open spec fn faces_in_range(
    gv: Seq<Fx3>,
    gf: Seq<Face>,
    tv: Seq<Fx2>,
    tf: Seq<Face>,
    nv: Seq<Fx3>,
    nf: Seq<Face>,
) -> bool {
    &&& forall|f: int| 0 <= f < gf.len() ==> face_in_range(#[trigger] gf[f], gv.len() as int)
    &&& forall|f: int| 0 <= f < tf.len() ==> face_in_range(#[trigger] tf[f], tv.len() as int)
    &&& forall|f: int| 0 <= f < nf.len() ==> face_in_range(#[trigger] nf[f], nv.len() as int)
}

impl Object {
    /// The mesh invariant: parallel face lists, all indices in range.
    pub open spec fn wf(self) -> bool {
        faces_parallel(self.geometric_faces@, self.texture_faces@, self.normal_faces@)
            && faces_in_range(
            self.geometric_vertices@,
            self.geometric_faces@,
            self.texture_vertices@,
            self.texture_faces@,
            self.normal_vertices@,
            self.normal_faces@,
        )
    }

    /// The number of faces.
    pub fn face_count(&self) -> (r: usize)
        ensures
            r == self.geometric_faces@.len(),
    {
        self.geometric_faces.len()
    }

    /// Validate an already-decoded mesh. Malformed data is rejected, never
    /// silently patched: a mesh is returned exactly when the face lists are
    /// parallel and every index is in range.
    pub fn new(
        geometric_vertices: Vec<Fx3>,
        geometric_faces: Vec<Face>,
        texture_vertices: Vec<Fx2>,
        texture_faces: Vec<Face>,
        normal_vertices: Vec<Fx3>,
        normal_faces: Vec<Face>,
    ) -> (r: Result<Object, MeshError>)
        ensures
            (faces_parallel(geometric_faces@, texture_faces@, normal_faces@) && faces_in_range(
                geometric_vertices@,
                geometric_faces@,
                texture_vertices@,
                texture_faces@,
                normal_vertices@,
                normal_faces@,
            )) <==> (r matches Ok(o) && o == (Object {
                geometric_vertices,
                geometric_faces,
                texture_vertices,
                texture_faces,
                normal_vertices,
                normal_faces,
            })),
            !faces_parallel(geometric_faces@, texture_faces@, normal_faces@) ==> r === Err(
                MeshError::MismatchedFaceLists,
            ),
            (faces_parallel(geometric_faces@, texture_faces@, normal_faces@) && !faces_in_range(
                geometric_vertices@,
                geometric_faces@,
                texture_vertices@,
                texture_faces@,
                normal_vertices@,
                normal_faces@,
            )) ==> r === Err(MeshError::IndexOutOfRange),
            r matches Ok(o) ==> o.wf(),
    {
        if geometric_faces.len() != texture_faces.len() || geometric_faces.len()
            != normal_faces.len() {
            return Err(MeshError::MismatchedFaceLists);
        }
        let n = geometric_faces.len();
        let gv = geometric_vertices.len();
        let tv = texture_vertices.len();
        let nv = normal_vertices.len();
        let mut f: usize = 0;
        while f < n
            invariant
                f <= n,
                n == geometric_faces@.len(),
                n == texture_faces@.len(),
                n == normal_faces@.len(),
                gv == geometric_vertices@.len(),
                tv == texture_vertices@.len(),
                nv == normal_vertices@.len(),
                forall|i: int|
                    0 <= i < f ==> face_in_range(#[trigger] geometric_faces@[i], gv as int),
                forall|i: int| 0 <= i < f ==> face_in_range(#[trigger] texture_faces@[i], tv as int),
                forall|i: int| 0 <= i < f ==> face_in_range(#[trigger] normal_faces@[i], nv as int),
            decreases n - f,
        {
            let g = geometric_faces[f];
            let t = texture_faces[f];
            let m = normal_faces[f];
            if g.i0 >= gv || g.i1 >= gv || g.i2 >= gv || t.i0 >= tv || t.i1 >= tv || t.i2 >= tv
                || m.i0 >= nv || m.i1 >= nv || m.i2 >= nv {
                return Err(MeshError::IndexOutOfRange);
            }
            f = f + 1;
        }
        Ok(
            Object {
                geometric_vertices,
                geometric_faces,
                texture_vertices,
                texture_faces,
                normal_vertices,
                normal_faces,
            },
        )
    }
}

} // verus!
