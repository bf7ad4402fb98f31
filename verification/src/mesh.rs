//! The mesh store: vertices, triangular faces over them, and one normal for
//! each face.
//!
//! A mesh is generic in what a point and a normal are. It never looks
//! inside either: it keeps them, hands them out, and sees to it that every
//! face names vertices that exist and has its normal beside it.

use crate::format::LoadError;
use vstd::prelude::*;

verus! {

/// Three points, in the order that gives the triangle its facing.
#[derive(Debug, PartialEq)]
pub struct Triangle<P> {
    pub vertices: [P; 3],
}

impl<P> Triangle<P> {
    /// The triangle over the three points of `corners`, in their order.
    pub open spec fn of(corners: Seq<P>) -> Triangle<P> {
        Triangle { vertices: [corners[0], corners[1], corners[2]] }
    }

    /// The triangle over `a`, `b` and `c`, in this order.
    pub fn new(a: P, b: P, c: P) -> (t: Self)
        ensures
            t == Triangle::of(seq![a, b, c]),
            t.vertices@ == seq![a, b, c],
    {
        Triangle { vertices: [a, b, c] }
    }

    /// The triangle in camera space: each of the three points where
    /// `to_camera` takes it, in their order. The triangle itself stays as
    /// it is.
    pub fn apply_camera_transform<F: Fn(&P) -> P>(&self, to_camera: F) -> (t: Triangle<P>)
        requires
            forall|k: int| 0 <= k < 3 ==> to_camera.requires((&#[trigger] self.vertices[k],)),
        ensures
            forall|k: int|
                0 <= k < 3 ==> to_camera.ensures((&self.vertices[k],), #[trigger] t.vertices[k]),
    {
        let a = to_camera(&self.vertices[0]);
        let b = to_camera(&self.vertices[1]);
        let c = to_camera(&self.vertices[2]);
        Triangle { vertices: [a, b, c] }
    }
}

/// What a mesh holds.
pub struct MeshView<P, N> {
    /// The vertices, in the order in which they were given.
    pub vertices: Seq<P>,
    /// The faces, each as three places in `vertices`.
    pub triangles: Seq<Seq<usize>>,
    /// The normal of each face, at the place of the face in `triangles`.
    pub normals: Seq<N>,
}

/// Whether `face` is three places among `count` vertices.
pub open spec fn face_in_range(face: Seq<usize>, count: int) -> bool {
    &&& face.len() == 3
    &&& face[0] < count
    &&& face[1] < count
    &&& face[2] < count
}

/// The three vertices that `face` names, in its order.
pub open spec fn corners<P>(vertices: Seq<P>, face: Seq<usize>) -> Seq<P> {
    seq![vertices[face[0] as int], vertices[face[1] as int], vertices[face[2] as int]]
}

impl<P, N> MeshView<P, N> {
    /// Whether every face names three vertices that exist and has a normal.
    pub open spec fn well_formed(self) -> bool {
        &&& self.normals.len() == self.triangles.len()
        &&& forall|i: int|
            0 <= i < self.triangles.len() ==> face_in_range(
                #[trigger] self.triangles[i],
                self.vertices.len() as int,
            )
    }

    /// The triangle of face `i`: the three vertices that the face names.
    pub open spec fn triangle(self, i: int) -> Triangle<P> {
        Triangle::of(corners(self.vertices, self.triangles[i]))
    }

    /// The triangle of each face, in the order of the faces.
    pub open spec fn resolved(self) -> Seq<Triangle<P>> {
        Seq::new(self.triangles.len(), |i: int| self.triangle(i))
    }
}

/// Whether `face` is the place of the first of `triangles` that names a
/// vertex beyond the first `count`.
pub open spec fn first_out_of_range(triangles: Seq<[usize; 3]>, count: int, face: int) -> bool {
    &&& 0 <= face < triangles.len()
    &&& !face_in_range(triangles[face]@, count)
    &&& forall|k: int| 0 <= k < face ==> face_in_range((#[trigger] triangles[k])@, count)
}

/// Whether every face of `triangles` names vertices among the first `count`.
pub open spec fn all_in_range(triangles: Seq<[usize; 3]>, count: int) -> bool {
    forall|k: int| 0 <= k < triangles.len() ==> face_in_range((#[trigger] triangles[k])@, count)
}

/// Vertices, faces over them, and the normal of each face.
#[derive(Debug)]
pub struct Mesh<P, N> {
    vertices: Vec<P>,
    triangles: Vec<[usize; 3]>,
    normals: Vec<N>,
}

impl<P, N> View for Mesh<P, N> {
    type V = MeshView<P, N>;

    closed spec fn view(&self) -> MeshView<P, N> {
        MeshView {
            vertices: self.vertices@,
            triangles: self.triangles@.map_values(|f: [usize; 3]| f@),
            normals: self.normals@,
        }
    }
}

impl<P, N> Mesh<P, N> {
    #[verifier::type_invariant]
    spec fn well_formed(self) -> bool {
        self@.well_formed()
    }

    /// The number of faces.
    pub fn triangles_count(&self) -> (n: usize)
        ensures
            n == self@.triangles.len(),
            self@.well_formed(),
    {
        proof {
            use_type_invariant(self);
        }
        self.triangles.len()
    }

    /// The vertices.
    pub fn vertices(&self) -> (v: &Vec<P>)
        ensures
            v@ == self@.vertices,
            self@.well_formed(),
    {
        proof {
            use_type_invariant(self);
        }
        &self.vertices
    }

    /// The faces, each as three places in the vertices.
    pub fn triangles(&self) -> (t: &Vec<[usize; 3]>)
        ensures
            t@.map_values(|f: [usize; 3]| f@) == self@.triangles,
            self@.well_formed(),
    {
        proof {
            use_type_invariant(self);
        }
        &self.triangles
    }

    /// The normals, one for each face and in the order of the faces.
    pub fn normals(&self) -> (n: &Vec<N>)
        ensures
            n@ == self@.normals,
            self@.well_formed(),
    {
        proof {
            use_type_invariant(self);
        }
        &self.normals
    }
}

impl<P: Copy, N> Mesh<P, N> {
    /// A mesh of `vertices` and of `triangles` over them, with the normal
    /// that `normal_of` gives for the triangle of each face.
    ///
    /// The mesh is refused for the first face that names a vertex which
    /// `vertices` does not hold; `normal_of` is then not called at all. It is
    /// called once for each face otherwise, in the order of the faces.
    pub fn build<F: Fn(&Triangle<P>) -> N>(
        vertices: Vec<P>,
        triangles: Vec<[usize; 3]>,
        normal_of: F,
    ) -> (r: Result<Self, LoadError>)
        requires
            all_in_range(triangles@, vertices.len() as int) ==> forall|i: int|
                0 <= i < triangles.len() ==> normal_of.requires(
                    (&Triangle::of(corners(vertices@, (#[trigger] triangles[i])@)),),
                ),
        ensures
            match r {
                Ok(mesh) => {
                    &&& all_in_range(triangles@, vertices.len() as int)
                    &&& mesh@.well_formed()
                    &&& mesh@.vertices == vertices@
                    &&& mesh@.triangles == triangles@.map_values(|f: [usize; 3]| f@)
                    &&& forall|i: int|
                        0 <= i < triangles.len() ==> normal_of.ensures(
                            (&mesh@.triangle(i),),
                            #[trigger] mesh@.normals[i],
                        )
                },
                Err(LoadError::FaceOutOfRange { face }) => first_out_of_range(
                    triangles@,
                    vertices.len() as int,
                    face as int,
                ),
                Err(_) => false,
            },
    {
        let count = vertices.len();
        let mut k: usize = 0;
        while k < triangles.len()
            invariant
                k <= triangles.len(),
                count == vertices.len(),
                forall|m: int| 0 <= m < k ==> face_in_range((#[trigger] triangles[m])@, count as int),
            decreases triangles.len() - k,
        {
            let face = &triangles[k];
            if face[0] >= count || face[1] >= count || face[2] >= count {
                return Err(LoadError::FaceOutOfRange { face: k });
            }
            k += 1;
        }
        let resolved = resolve(&vertices, &triangles);
        let mut normals: Vec<N> = Vec::new();
        let mut i: usize = 0;
        while i < resolved.len()
            invariant
                i <= resolved.len(),
                resolved.len() == triangles.len(),
                normals.len() == i,
                forall|m: int|
                    0 <= m < resolved.len() ==> #[trigger] resolved[m] == Triangle::of(
                        corners(vertices@, triangles[m]@),
                    ),
                forall|m: int|
                    0 <= m < triangles.len() ==> normal_of.requires(
                        (&Triangle::of(corners(vertices@, (#[trigger] triangles[m])@)),),
                    ),
                forall|m: int|
                    0 <= m < i ==> normal_of.ensures((&resolved[m],), #[trigger] normals[m]),
            decreases resolved.len() - i,
        {
            let n = normal_of(&resolved[i]);
            normals.push(n);
            i += 1;
        }
        let ghost faces = triangles@.map_values(|f: [usize; 3]| f@);
        assert(forall|m: int|
            0 <= m < faces.len() ==> face_in_range(#[trigger] faces[m], vertices.len() as int));
        let mesh = Mesh { vertices, triangles, normals };
        Ok(mesh)
    }

    /// The triangle of each face, in the order of the faces: the three
    /// vertices that the face names. Made anew at every call.
    pub fn triangles_resolved(&self) -> (out: Vec<Triangle<P>>)
        ensures
            self@.well_formed(),
            out@ == self@.resolved(),
    {
        proof {
            use_type_invariant(self);
            assert forall|i: int| 0 <= i < self.triangles.len() implies face_in_range(
                (#[trigger] self.triangles[i])@,
                self.vertices.len() as int,
            ) by {
                assert(self@.triangles[i] == self.triangles[i]@);
            }
        }
        resolve(&self.vertices, &self.triangles)
    }
}

/// The triangle of each face of `triangles` over `vertices`.
fn resolve<P: Copy>(vertices: &Vec<P>, triangles: &Vec<[usize; 3]>) -> (out: Vec<Triangle<P>>)
    requires
        all_in_range(triangles@, vertices.len() as int),
    ensures
        out.len() == triangles.len(),
        forall|i: int|
            0 <= i < out.len() ==> #[trigger] out[i] == Triangle::of(
                corners(vertices@, triangles[i]@),
            ),
{
    let mut out: Vec<Triangle<P>> = Vec::new();
    let mut i: usize = 0;
    while i < triangles.len()
        invariant
            i <= triangles.len(),
            out.len() == i,
            all_in_range(triangles@, vertices.len() as int),
            forall|k: int|
                0 <= k < i ==> #[trigger] out[k] == Triangle::of(corners(vertices@, triangles[k]@)),
        decreases triangles.len() - i,
    {
        let face = &triangles[i];
        let t = Triangle::new(vertices[face[0]], vertices[face[1]], vertices[face[2]]);
        out.push(t);
        i += 1;
    }
    out
}

} // verus!
