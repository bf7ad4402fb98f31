use nalgebra::{Point3, Unit, Vector3};
use wireframe::format::{parse_mesh, LoadError, VertexText};
use wireframe::mesh::{Mesh, Triangle};
use wireframe::screen::ScreenPoint;

type Point = Point3<f64>;
type Normal = Unit<Vector3<f64>>;

fn number(field: &[u8]) -> f64 {
    std::str::from_utf8(field).unwrap().parse().unwrap()
}

fn point(v: &VertexText) -> Point {
    Point3::new(number(&v.x), number(&v.y), number(&v.z))
}

fn normal(t: &Triangle<Point>) -> Normal {
    Unit::new_normalize((t.vertices[1] - t.vertices[0]).cross(&(t.vertices[2] - t.vertices[0])))
}

fn load(text: &[u8]) -> Result<Mesh<Point, Normal>, LoadError> {
    let source = parse_mesh(text)?;
    let points: Vec<Point> = source.vertices.iter().map(point).collect();
    Mesh::build(points, source.faces, normal)
}

fn square() -> Mesh<Point, Normal> {
    load(b"v 0 0 0\nv 1 0 0\nv 1 1 0\nv 0 1 0\nf 1 2 3\nf 1 4 3\n").unwrap()
}

#[test]
fn triangle_keeps_the_order_of_its_points() {
    let t = Triangle::new(1, 2, 3);
    assert_eq!(t.vertices, [1, 2, 3]);
}

#[test]
fn loaded_mesh_has_vertices_face_and_normal() {
    let mesh = load(b"v 0 0 0\nv 1 0 0\nv 0 1 0\nf 1 2 3\n").unwrap();
    assert_eq!(
        mesh.vertices(),
        &vec![Point3::new(0., 0., 0.), Point3::new(1., 0., 0.), Point3::new(0., 1., 0.)]
    );
    assert_eq!(mesh.triangles(), &vec![[0, 1, 2]]);
    assert_eq!(mesh.triangles_count(), 1);
    assert_eq!(mesh.normals().len(), 1);
    assert_eq!(mesh.normals()[0].into_inner(), Vector3::new(0., 0., 1.));
}

#[test]
fn load_fails_on_face_out_of_range() {
    let r = load(b"v 0 0 0\nv 1 0 0\nv 0 1 0\nf 1 2 99\n");
    assert_eq!(r.err(), Some(LoadError::FaceOutOfRange { face: 0 }));
}

#[test]
fn build_refuses_the_first_face_out_of_range() {
    let points = vec![0u8, 1, 2];
    let r = Mesh::build(points, vec![[0, 1, 2], [0, 3, 1], [9, 9, 9]], |_t: &Triangle<u8>| 0u8);
    assert_eq!(r.err(), Some(LoadError::FaceOutOfRange { face: 1 }));
}

#[test]
fn build_does_not_ask_for_normals_of_a_refused_mesh() {
    let calls = std::cell::Cell::new(0);
    let r = Mesh::build(vec![0u8], vec![[0, 0, 0], [0, 0, 1]], |_t: &Triangle<u8>| {
        calls.set(calls.get() + 1);
        0u8
    });
    assert!(r.is_err());
    assert_eq!(calls.get(), 0);
}

#[test]
fn build_takes_face_at_the_last_vertex() {
    let r = Mesh::build(vec![5u8, 6, 7], vec![[2, 2, 2]], |t: &Triangle<u8>| t.vertices[0]);
    let mesh = r.unwrap();
    assert_eq!(mesh.normals(), &vec![7u8]);
}

#[test]
fn build_of_nothing_is_an_empty_mesh() {
    let mesh = Mesh::build(Vec::<u8>::new(), vec![], |_t: &Triangle<u8>| 0u8).unwrap();
    assert_eq!(mesh.triangles_count(), 0);
    assert!(mesh.triangles_resolved().is_empty());
    assert!(mesh.normals().is_empty());
}

#[test]
fn normals_come_from_the_resolved_triangles_in_face_order() {
    let mesh = Mesh::build(vec![10u32, 20, 30, 40], vec![[0, 1, 2], [3, 2, 1], [1, 1, 0]], |t: &Triangle<u32>| {
        t.vertices[0] * 10000 + t.vertices[1] * 100 + t.vertices[2]
    })
    .unwrap();
    assert_eq!(mesh.normals(), &vec![102030, 403020, 202010]);
}

#[test]
fn resolved_triangles_name_the_vertices_of_each_face() {
    let mesh = square();
    let resolved = mesh.triangles_resolved();
    assert_eq!(resolved.len(), 2);
    assert_eq!(
        resolved[0].vertices,
        [Point3::new(0., 0., 0.), Point3::new(1., 0., 0.), Point3::new(1., 1., 0.)]
    );
    assert_eq!(
        resolved[1].vertices,
        [Point3::new(0., 0., 0.), Point3::new(0., 1., 0.), Point3::new(1., 1., 0.)]
    );
}

#[test]
fn resolved_triangles_are_made_anew_and_equal() {
    let mesh = square();
    assert_eq!(mesh.triangles_resolved(), mesh.triangles_resolved());
}

#[test]
fn triangles_count_is_the_number_of_faces() {
    assert_eq!(square().triangles_count(), 2);
}

#[test]
fn reversed_winding_turns_the_normal_round() {
    let mesh = square();
    assert_eq!(mesh.normals()[0].into_inner(), Vector3::new(0., 0., 1.));
    assert_eq!(mesh.normals()[1].into_inner(), Vector3::new(0., 0., -1.));
}

#[test]
fn face_without_area_is_no_error() {
    let mesh = load(b"v 1 1 1\nv 2 2 2\nv 3 3 3\nf 1 1 1\nf 1 2 3\n").unwrap();
    assert_eq!(mesh.triangles_count(), 2);
    assert_eq!(mesh.normals().len(), 2);
}

#[test]
fn camera_transform_takes_each_vertex_in_order() {
    let t = Triangle::new(1, 2, 3);
    let moved = t.apply_camera_transform(|v: &i32| v * 10);
    assert_eq!(moved.vertices, [10, 20, 30]);
    assert_eq!(t.vertices, [1, 2, 3]);
}

#[test]
fn projection_puts_each_vertex_where_it_is_told() {
    let t = Triangle::new(1, 2, 3);
    let s = t.project_on_screen_space(|v: &i32| ScreenPoint { x: *v, y: -*v });
    assert_eq!(
        s.vertices,
        [ScreenPoint { x: 1, y: -1 }, ScreenPoint { x: 2, y: -2 }, ScreenPoint { x: 3, y: -3 }]
    );
}
