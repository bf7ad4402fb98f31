use wireframe::cull::{
    culling_normal, drawable, keep_visible, observe, survey, visible_triangles, Depth, Facing,
    Sighting,
};
use wireframe::mesh::{Mesh, Triangle};
use wireframe::screen::{ScreenPoint, ScreenTriangle};

fn on_screen() -> ScreenTriangle {
    ScreenTriangle::new(
        ScreenPoint { x: 500, y: 300 },
        ScreenPoint { x: 600, y: 300 },
        ScreenPoint { x: 500, y: 400 },
    )
}

fn off_screen() -> ScreenTriangle {
    ScreenTriangle::new(
        ScreenPoint { x: -1, y: 300 },
        ScreenPoint { x: -1, y: 310 },
        ScreenPoint { x: -1, y: 320 },
    )
}

fn seen(screen: ScreenTriangle) -> Sighting {
    Sighting { depths: [Depth::Beyond, Depth::Beyond, Depth::Beyond], facing: Facing::Towards, screen }
}

#[test]
fn face_beyond_the_plane_and_turned_to_the_camera_is_drawable() {
    assert!(drawable(&[Depth::Beyond, Depth::Beyond, Depth::Beyond], Facing::Towards));
}

#[test]
fn vertex_on_the_near_plane_is_kept() {
    assert!(drawable(&[Depth::OnPlane, Depth::Beyond, Depth::Beyond], Facing::Towards));
    assert!(drawable(&[Depth::Beyond, Depth::OnPlane, Depth::Beyond], Facing::Towards));
    assert!(drawable(&[Depth::Beyond, Depth::Beyond, Depth::OnPlane], Facing::Towards));
    assert!(drawable(&[Depth::OnPlane, Depth::OnPlane, Depth::OnPlane], Facing::Towards));
}

#[test]
fn one_vertex_behind_the_plane_culls_the_face() {
    assert!(!drawable(&[Depth::Behind, Depth::Beyond, Depth::Beyond], Facing::Towards));
    assert!(!drawable(&[Depth::Beyond, Depth::Behind, Depth::Beyond], Facing::Towards));
    assert!(!drawable(&[Depth::Beyond, Depth::Beyond, Depth::Behind], Facing::Towards));
}

#[test]
fn depth_that_is_no_number_culls_the_face() {
    assert!(!drawable(&[Depth::Unordered, Depth::Beyond, Depth::Beyond], Facing::Towards));
    assert!(!drawable(&[Depth::Beyond, Depth::Beyond, Depth::Unordered], Facing::Towards));
}

#[test]
fn only_a_face_turned_to_the_camera_is_drawable() {
    let depths = [Depth::Beyond, Depth::Beyond, Depth::Beyond];
    assert!(!drawable(&depths, Facing::Away));
    assert!(!drawable(&depths, Facing::EdgeOn));
    assert!(!drawable(&depths, Facing::Unordered));
}

#[test]
fn depth_passes_on_the_plane_and_beyond() {
    assert!(Depth::OnPlane.passes());
    assert!(Depth::Beyond.passes());
    assert!(!Depth::Behind.passes());
    assert!(!Depth::Unordered.passes());
}

#[test]
fn sighting_needs_both_gates_and_the_screen() {
    assert!(seen(on_screen()).kept());
    assert!(!seen(off_screen()).kept());
    assert!(!Sighting { facing: Facing::Away, ..seen(on_screen()) }.kept());
    assert!(!Sighting {
        depths: [Depth::Beyond, Depth::Behind, Depth::Beyond],
        ..seen(on_screen())
    }
    .kept());
}

#[test]
fn kept_faces_stay_in_order() {
    let candidates = vec![
        ("a", seen(on_screen())),
        ("b", seen(off_screen())),
        ("c", Sighting { facing: Facing::Away, ..seen(on_screen()) }),
        ("d", seen(on_screen())),
        ("e", Sighting { depths: [Depth::OnPlane, Depth::Beyond, Depth::Beyond], ..seen(on_screen()) }),
        ("f", Sighting { depths: [Depth::Behind, Depth::Beyond, Depth::Beyond], ..seen(on_screen()) }),
    ];
    assert_eq!(keep_visible(candidates), vec!["a", "d", "e"]);
}

#[test]
fn nothing_kept_of_nothing() {
    assert_eq!(keep_visible(Vec::<(u8, Sighting)>::new()), Vec::<u8>::new());
    assert_eq!(keep_visible(vec![(1u8, seen(off_screen()))]), Vec::<u8>::new());
}

#[test]
fn all_kept_when_all_pass() {
    let candidates = vec![(1, seen(on_screen())), (2, seen(on_screen())), (3, seen(on_screen()))];
    assert_eq!(keep_visible(candidates), vec![1, 2, 3]);
}

#[test]
fn supplied_normal_is_used_as_it_is() {
    assert_eq!(culling_normal(Some(7), || 9), 7);
}

#[test]
fn normal_is_made_anew_where_none_is_supplied() {
    assert_eq!(culling_normal(None, || 9), 9);
}

#[test]
fn supplying_the_recomputed_normal_changes_nothing() {
    let recompute = || 9;
    assert_eq!(culling_normal(Some(recompute()), recompute), culling_normal(None, recompute));
}

fn depth_by_sign(v: &i32) -> Depth {
    if *v < 0 {
        Depth::Behind
    } else if *v == 0 {
        Depth::OnPlane
    } else {
        Depth::Beyond
    }
}

fn facing_by_sum(n: &i32, first: &i32) -> Facing {
    if n + first < 0 {
        Facing::Towards
    } else if n + first == 0 {
        Facing::EdgeOn
    } else {
        Facing::Away
    }
}

fn pixel(v: &i32) -> ScreenPoint {
    ScreenPoint { x: *v, y: 2 * *v }
}

#[test]
fn observation_asks_for_each_vertex_and_for_the_first_against_the_normal() {
    let t = Triangle::new(3, -4, 0);
    let s = observe(&t, &-5, depth_by_sign, facing_by_sum, pixel);
    assert_eq!(s.depths, [Depth::Beyond, Depth::Behind, Depth::OnPlane]);
    assert_eq!(s.facing, Facing::Towards);
    assert_eq!(
        s.screen.vertices,
        [ScreenPoint { x: 3, y: 6 }, ScreenPoint { x: -4, y: -8 }, ScreenPoint { x: 0, y: 0 }]
    );
}

#[test]
fn observation_takes_the_facing_from_the_first_vertex_only() {
    let s = observe(&Triangle::new(9, -100, -100), &-5, depth_by_sign, facing_by_sum, pixel);
    assert_eq!(s.facing, Facing::Away);
    let s = observe(&Triangle::new(5, -100, -100), &-5, depth_by_sign, facing_by_sum, pixel);
    assert_eq!(s.facing, Facing::EdgeOn);
}

fn numbers() -> Mesh<i32, i32> {
    Mesh::build(
        vec![1, 2, 3, -7, 5000],
        vec![[0, 1, 2], [2, 1, 0], [0, 3, 1], [4, 4, 4], [1, 1, 1]],
        |t: &Triangle<i32>| -t.vertices[0] - 100,
    )
    .unwrap()
}

#[test]
fn survey_takes_every_face_into_camera_space_in_order() {
    let seen = survey(&numbers(), |v: &i32| v + 10, depth_by_sign, facing_by_sum, pixel);
    let triangles: Vec<[i32; 3]> = seen.iter().map(|s| s.0.vertices).collect();
    assert_eq!(
        triangles,
        vec![[11, 12, 13], [13, 12, 11], [11, 3, 12], [5010, 5010, 5010], [12, 12, 12]]
    );
}

#[test]
fn survey_sights_the_camera_space_triangle_with_the_face_normal() {
    let seen = survey(&numbers(), |v: &i32| v * 10, depth_by_sign, facing_by_sum, pixel);
    assert_eq!(seen[2].1.depths, [Depth::Beyond, Depth::Behind, Depth::Beyond]);
    assert_eq!(seen[2].1.facing, Facing::Towards);
    assert_eq!(seen[2].1.screen.vertices[1], ScreenPoint { x: -70, y: -140 });
    assert_eq!(seen[3].1.facing, Facing::Away);
}

#[test]
fn frame_keeps_the_visible_faces_in_camera_space_and_in_order() {
    let kept = visible_triangles(&numbers(), |v: &i32| v * 10, depth_by_sign, facing_by_sum, pixel);
    let triangles: Vec<[i32; 3]> = kept.iter().map(|t| t.vertices).collect();
    assert_eq!(triangles, vec![[10, 20, 30], [30, 20, 10], [20, 20, 20]]);
}

#[test]
fn frame_of_an_empty_mesh_is_empty() {
    let mesh = Mesh::build(vec![1], vec![], |_t: &Triangle<i32>| 0).unwrap();
    assert!(visible_triangles(&mesh, |v: &i32| *v, depth_by_sign, facing_by_sum, pixel).is_empty());
}
