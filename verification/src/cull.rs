//! The visibility gates of a frame.
//!
//! A triangle in camera space is drawn when it passes two gates, and both
//! are needed: no vertex is nearer than the near plane, and the face is
//! turned towards the camera. Of the faces that pass, those are kept whose
//! projection has a vertex on the screen.
//!
//! The numbers behind the gates are the caller's. What reaches this module
//! is how each vertex compares with the near plane and which sign the
//! product of the normal with the line of sight has.

use crate::mesh::{Mesh, MeshView, Triangle};
use crate::screen::{ScreenPoint, ScreenTriangle};
use vstd::prelude::*;

verus! {

/// How the depth of a vertex compares with the distance of the near plane.
#[derive(Clone, Copy, Debug, PartialEq, Eq, Structural)]
pub enum Depth {
    /// The depth is less than the distance of the near plane.
    Behind,
    /// The depth is the distance of the near plane exactly.
    OnPlane,
    /// The depth is greater than the distance of the near plane.
    Beyond,
    /// The depth is no number, and compares with nothing.
    Unordered,
}

/// The sign of the product of a face's normal with the line of sight to its
/// first vertex.
#[derive(Clone, Copy, Debug, PartialEq, Eq, Structural)]
pub enum Facing {
    /// The product is negative: the face is turned towards the camera.
    Towards,
    /// The product is zero: the face is seen from its edge.
    EdgeOn,
    /// The product is positive: the face is turned away from the camera.
    Away,
    /// The product is no number, as with the normal of a face without area.
    Unordered,
}

/// What the gates need to know of one face.
#[derive(Clone, Copy, Debug, PartialEq, Eq)]
pub struct Sighting {
    /// The depth of each vertex against the near plane.
    pub depths: [Depth; 3],
    /// The facing of the face.
    pub facing: Facing,
    /// The projection of the face on the screen.
    pub screen: ScreenTriangle,
}

impl Depth {
    /// Whether a vertex at this depth passes the near plane: it lies on the
    /// plane or beyond it.
    pub open spec fn clears_near_plane(self) -> bool {
        self == Depth::OnPlane || self == Depth::Beyond
    }

    /// Whether a vertex at this depth passes the near plane.
    pub fn passes(&self) -> (r: bool)
        ensures
            r == self.clears_near_plane(),
    {
        match self {
            Depth::OnPlane | Depth::Beyond => true,
            Depth::Behind | Depth::Unordered => false,
        }
    }
}

/// Whether a face with these depths and this facing is drawn: each of its
/// three vertices passes the near plane, and it is turned towards the camera.
pub open spec fn is_drawable(depths: Seq<Depth>, facing: Facing) -> bool {
    &&& depths[0].clears_near_plane()
    &&& depths[1].clears_near_plane()
    &&& depths[2].clears_near_plane()
    &&& facing == Facing::Towards
}

/// The normal that the facing of a triangle is taken from: the one that is
/// supplied, or else the one made anew from the triangle.
pub open spec fn normal_in_use<N>(supplied: Option<N>, recomputed: N) -> N {
    match supplied {
        Some(n) => n,
        None => recomputed,
    }
}

impl Sighting {
    /// Whether the face is kept for drawing: it is drawable, and its
    /// projection has a vertex on the screen.
    pub open spec fn is_kept(self) -> bool {
        is_drawable(self.depths@, self.facing) && self.screen.touches_screen()
    }

    /// Whether the face is kept for drawing.
    pub fn kept(&self) -> (r: bool)
        ensures
            r == self.is_kept(),
    {
        drawable(&self.depths, self.facing) && self.screen.on_screen()
    }
}

/// Whether a face with these depths and this facing is drawn.
pub fn drawable(depths: &[Depth; 3], facing: Facing) -> (r: bool)
    ensures
        r == is_drawable(depths@, facing),
{
    let near = depths[0].passes() && depths[1].passes() && depths[2].passes();
    let front = match facing {
        Facing::Towards => true,
        Facing::EdgeOn | Facing::Away | Facing::Unordered => false,
    };
    near && front
}

/// The normal that the facing of a triangle is taken from. `recompute` is
/// called only where no normal is supplied.
pub fn culling_normal<N, F: FnOnce() -> N>(supplied: Option<N>, recompute: F) -> (n: N)
    requires
        supplied is None ==> recompute.requires(()),
    ensures
        n == normal_in_use(supplied, n),
        supplied is None ==> recompute.ensures((), n),
{
    match supplied {
        Some(n) => n,
        None => recompute(),
    }
}

/// What the gates need to know of `triangle`, a triangle in camera space
/// with the normal `normal`.
///
/// `depth_of` is asked for the depth of each vertex, `to_screen` for its
/// place on the screen, and `facing_of` for the facing that the normal has
/// against the first vertex.
pub fn observe<P, N, D, G, S>(
    triangle: &Triangle<P>,
    normal: &N,
    depth_of: D,
    facing_of: G,
    to_screen: S,
) -> (s: Sighting) where D: Fn(&P) -> Depth, G: Fn(&N, &P) -> Facing, S: Fn(&P) -> ScreenPoint
    requires
        forall|k: int| 0 <= k < 3 ==> depth_of.requires((&#[trigger] triangle.vertices[k],)),
        forall|k: int| 0 <= k < 3 ==> to_screen.requires((&#[trigger] triangle.vertices[k],)),
        facing_of.requires((normal, &triangle.vertices[0])),
    ensures
        forall|k: int|
            0 <= k < 3 ==> depth_of.ensures((&triangle.vertices[k],), #[trigger] s.depths[k]),
        forall|k: int|
            0 <= k < 3 ==> to_screen.ensures(
                (&triangle.vertices[k],),
                #[trigger] s.screen.vertices[k],
            ),
        facing_of.ensures((normal, &triangle.vertices[0]), s.facing),
{
    let d0 = depth_of(&triangle.vertices[0]);
    let d1 = depth_of(&triangle.vertices[1]);
    let d2 = depth_of(&triangle.vertices[2]);
    let facing = facing_of(normal, &triangle.vertices[0]);
    let screen = triangle.project_on_screen_space(to_screen);
    Sighting { depths: [d0, d1, d2], facing, screen }
}

/// Every face of `mesh` as the camera sees it: its triangle taken into
/// camera space by `to_camera`, vertex by vertex, and the sighting of that
/// triangle with the normal that the mesh holds for the face.
pub fn survey<P: Copy, N, C, D, G, S>(
    mesh: &Mesh<P, N>,
    to_camera: C,
    depth_of: D,
    facing_of: G,
    to_screen: S,
) -> (out: Vec<(Triangle<P>, Sighting)>) where
    C: Fn(&P) -> P,
    D: Fn(&P) -> Depth,
    G: Fn(&N, &P) -> Facing,
    S: Fn(&P) -> ScreenPoint,

    requires
        forall|i: int|
            0 <= i < mesh@.vertices.len() ==> to_camera.requires((&#[trigger] mesh@.vertices[i],)),
        forall|p: P| depth_of.requires((&p,)),
        forall|p: P| to_screen.requires((&p,)),
        forall|n: N, p: P| facing_of.requires((&n, &p)),
    ensures
        surveyed(mesh@, out@, to_camera, depth_of, facing_of, to_screen),
{
    let resolved = mesh.triangles_resolved();
    let normals = mesh.normals();
    let mut out: Vec<(Triangle<P>, Sighting)> = Vec::new();
    let mut i: usize = 0;
    while i < resolved.len()
        invariant
            i <= resolved.len(),
            out.len() == i,
            mesh@.well_formed(),
            resolved@ == mesh@.resolved(),
            normals@ == mesh@.normals,
            forall|j: int|
                0 <= j < mesh@.vertices.len() ==> to_camera.requires(
                    (&#[trigger] mesh@.vertices[j],),
                ),
            forall|p: P| depth_of.requires((&p,)),
            forall|p: P| to_screen.requires((&p,)),
            forall|n: N, p: P| facing_of.requires((&n, &p)),
            forall|j: int, k: int|
                0 <= j < i && 0 <= k < 3 ==> to_camera.ensures(
                    (&mesh@.triangle(j).vertices[k],),
                    #[trigger] out[j].0.vertices[k],
                ),
            forall|j: int|
                0 <= j < i ==> sighted(
                    #[trigger] out[j],
                    mesh@.normals[j],
                    depth_of,
                    facing_of,
                    to_screen,
                ),
        decreases resolved.len() - i,
    {
        let t = &resolved[i];
        let seen = t.apply_camera_transform(&to_camera);
        let sighting = observe(&seen, &normals[i], &depth_of, &facing_of, &to_screen);
        out.push((seen, sighting));
        i += 1;
    }
    out
}

/// Whether the sighting of `entry` is that of its triangle with `normal`.
pub open spec fn sighted<P, N, D, G, S>(
    entry: (Triangle<P>, Sighting),
    normal: N,
    depth_of: D,
    facing_of: G,
    to_screen: S,
) -> bool where D: Fn(&P) -> Depth, G: Fn(&N, &P) -> Facing, S: Fn(&P) -> ScreenPoint {
    &&& forall|k: int|
        0 <= k < 3 ==> depth_of.ensures((&entry.0.vertices[k],), #[trigger] entry.1.depths[k])
    &&& forall|k: int|
        0 <= k < 3 ==> to_screen.ensures(
            (&entry.0.vertices[k],),
            #[trigger] entry.1.screen.vertices[k],
        )
    &&& facing_of.ensures((&normal, &entry.0.vertices[0]), entry.1.facing)
}

/// Whether `seen` holds every face of `mesh` as the camera sees it: the
/// triangle of the face with each vertex taken through `to_camera`, and the
/// sighting of that triangle with the normal of the face.
pub open spec fn surveyed<P, N, C, D, G, S>(
    mesh: MeshView<P, N>,
    seen: Seq<(Triangle<P>, Sighting)>,
    to_camera: C,
    depth_of: D,
    facing_of: G,
    to_screen: S,
) -> bool where
    C: Fn(&P) -> P,
    D: Fn(&P) -> Depth,
    G: Fn(&N, &P) -> Facing,
    S: Fn(&P) -> ScreenPoint,
{
    &&& seen.len() == mesh.triangles.len()
    &&& forall|i: int, k: int|
        0 <= i < seen.len() && 0 <= k < 3 ==> to_camera.ensures(
            (&mesh.triangle(i).vertices[k],),
            #[trigger] seen[i].0.vertices[k],
        )
    &&& forall|i: int|
        0 <= i < seen.len() ==> sighted(
            #[trigger] seen[i],
            mesh.normals[i],
            depth_of,
            facing_of,
            to_screen,
        )
}

/// The triangles of a frame: of the faces of `mesh` as the camera sees
/// them, those that are kept for drawing, in the order of the faces and in
/// camera space.
pub fn visible_triangles<P: Copy, N, C, D, G, S>(
    mesh: &Mesh<P, N>,
    to_camera: C,
    depth_of: D,
    facing_of: G,
    to_screen: S,
) -> (out: Vec<Triangle<P>>) where
    C: Fn(&P) -> P,
    D: Fn(&P) -> Depth,
    G: Fn(&N, &P) -> Facing,
    S: Fn(&P) -> ScreenPoint,

    requires
        forall|i: int|
            0 <= i < mesh@.vertices.len() ==> to_camera.requires((&#[trigger] mesh@.vertices[i],)),
        forall|p: P| depth_of.requires((&p,)),
        forall|p: P| to_screen.requires((&p,)),
        forall|n: N, p: P| facing_of.requires((&n, &p)),
    ensures
        exists|seen: Seq<(Triangle<P>, Sighting)>|
            surveyed(mesh@, seen, to_camera, depth_of, facing_of, to_screen) && out@ == kept_of(
                seen,
            ),
{
    let seen = survey(mesh, to_camera, depth_of, facing_of, to_screen);
    keep_visible(seen)
}

/// The faces that are kept, in the order in which they come.
pub open spec fn kept_of<T>(candidates: Seq<(T, Sighting)>) -> Seq<T> {
    candidates.filter(|c: (T, Sighting)| c.1.is_kept()).map_values(|c: (T, Sighting)| c.0)
}

/// Of the faces of a frame, each with its sighting, those that are kept for
/// drawing, in the order in which they come.
pub fn keep_visible<T>(candidates: Vec<(T, Sighting)>) -> (out: Vec<T>)
    ensures
        out@ == kept_of(candidates@),
{
    let ghost all = candidates@;
    let mut out: Vec<T> = Vec::new();
    for candidate in it: candidates
        invariant
            it.seq() == all,
            out@ == kept_of(all.take(it.index() as int)),
    {
        let (face, sighting) = candidate;
        proof {
            let n = it.index() as int;
            assert(all.take(n + 1) == all.take(n).push(candidate));
            all.take(n).lemma_filter_push(candidate, |c: (T, Sighting)| c.1.is_kept());
        }
        if sighting.kept() {
            out.push(face);
        }
    }
    proof {
        assert(all.take(all.len() as int) == all);
    }
    out
}

/// A vertex on the near plane itself does not get a face culled: a face
/// turned towards the camera with every vertex on the plane or beyond it is
/// drawn.
pub proof fn vertex_on_near_plane_is_kept(depths: Seq<Depth>, facing: Facing)
    requires
        depths.len() == 3,
        forall|k: int|
            0 <= k < 3 ==> #[trigger] depths[k] == Depth::OnPlane || depths[k] == Depth::Beyond,
        facing == Facing::Towards,
    ensures
        is_drawable(depths, facing),
{
}

/// A single vertex short of the near plane gets the face culled, whatever
/// else holds of it.
pub proof fn vertex_behind_near_plane_is_culled(depths: Seq<Depth>, facing: Facing, k: int)
    requires
        depths.len() == 3,
        0 <= k < 3,
        depths[k] == Depth::Behind || depths[k] == Depth::Unordered,
    ensures
        !is_drawable(depths, facing),
{
}

/// To supply the normal that would be made anew from the triangle changes
/// nothing: whatever facing a normal gives, the face is drawn with the
/// supplied normal exactly when it is drawn with none supplied.
pub proof fn supplied_normal_changes_nothing<N>(
    depths: Seq<Depth>,
    recomputed: N,
    facing_of: spec_fn(N) -> Facing,
)
    ensures
        is_drawable(depths, facing_of(normal_in_use(Some(recomputed), recomputed))) == is_drawable(
            depths,
            facing_of(normal_in_use(None, recomputed)),
        ),
{
}

} // verus!
