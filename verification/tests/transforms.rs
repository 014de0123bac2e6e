use webgl_viewer::geom::{Point3, Vector3};
use webgl_viewer::transform::identity::Identity;
use webgl_viewer::transform::rotation::{Rotation, RotationBuilder};
use webgl_viewer::transform::scaling::{Scaling, ScalingBuilder};
use webgl_viewer::transform::translation::Translation;
use webgl_viewer::transform::{
    transform_sequence_point, transform_sequence_vector, Transform,
};

fn p(x: i64, y: i64, z: i64) -> Point3 {
    Point3::new(x, y, z)
}

fn v(x: i64, y: i64, z: i64) -> Vector3 {
    Vector3::new(x, y, z)
}

#[test]
fn empty_sequence_returns_point_unchanged() {
    let ts: Vec<Transform> = Vec::new();
    let q = transform_sequence_point(&ts, &p(7, -3, 11)).unwrap();
    assert_eq!(q, p(7, -3, 11));
}

#[test]
fn empty_sequence_returns_vector_unchanged() {
    let ts: Vec<Transform> = Vec::new();
    let w = transform_sequence_vector(&ts, &p(1, 2, 3), &v(-4, 5, -6)).unwrap();
    assert_eq!(w, v(-4, 5, -6));
}

#[test]
fn translate_then_scale_differs_from_scale_then_translate() {
    let translate = Transform::from(Translation::new(1, 0, 0));
    let scale = Transform::from(Scaling::from_origin_vector(p(0, 0, 0), v(2, 2, 2)));

    let translate_then_scale = vec![translate.clone(), scale.clone()];
    let q = transform_sequence_point(&translate_then_scale, &p(0, 0, 0)).unwrap();
    assert_eq!(q, p(2, 0, 0));

    let scale_then_translate = vec![scale, translate];
    let q = transform_sequence_point(&scale_then_translate, &p(0, 0, 0)).unwrap();
    assert_eq!(q, p(1, 0, 0));
}

#[test]
fn identity_step_leaves_point_unchanged() {
    let ts = vec![Transform::from(Identity::new())];
    let q = transform_sequence_point(&ts, &p(5, 6, 7)).unwrap();
    assert_eq!(q, p(5, 6, 7));
}

#[test]
fn scaling_is_conjugated_around_its_origin() {
    // Doubling about (1, 0, 0) sends 3 to 1 + 2 * (3 - 1) = 5.
    let ts = vec![Transform::from(Scaling::from_origin_vector(p(1, 0, 0), v(2, 2, 2)))];
    let q = transform_sequence_point(&ts, &p(3, 0, 0)).unwrap();
    assert_eq!(q, p(5, 0, 0));
}

#[test]
fn rotation_is_conjugated_around_its_origin() {
    // A quarter turn about the z axis, fixed at (1, 0, 0): rows are
    // (0, -1, 0), (1, 0, 0), (0, 0, 1).
    let rot = Rotation::from_origin_rows(p(1, 0, 0), v(0, -1, 0), v(1, 0, 0), v(0, 0, 1));
    let ts = vec![Transform::from(rot)];
    let q = transform_sequence_point(&ts, &p(2, 0, 0)).unwrap();
    assert_eq!(q, p(1, 1, 0));
}

#[test]
fn vectors_never_feel_translations() {
    let ts = vec![Transform::from(Translation::new(100, 200, 300))];
    let w = transform_sequence_vector(&ts, &p(1, 2, 3), &v(1, 0, 0)).unwrap();
    assert_eq!(w, v(1, 0, 0));
}

#[test]
fn vectors_feel_the_linear_part_of_a_scaling() {
    let ts = vec![Transform::from(Scaling::from_origin_vector(p(9, 9, 9), v(3, 1, 1)))];
    let w = transform_sequence_vector(&ts, &p(0, 0, 0), &v(2, 0, 5)).unwrap();
    assert_eq!(w, v(6, 0, 5));
}

#[test]
fn out_of_range_scaling_reports_an_error() {
    let limit = webgl_viewer::geom::COORD_LIMIT;
    let ts = vec![Transform::from(Scaling::from_origin_vector(
        p(0, 0, 0),
        v(limit, limit, limit),
    ))];
    let e = transform_sequence_point(&ts, &p(limit, 0, 0)).unwrap_err();
    assert_eq!(e.message(), "Transform result exceeds the coordinate range");
}

#[test]
fn translations_combine_by_adding_offsets() {
    let a = Translation::new(1, 2, 3);
    let b = Translation::new(10, 20, 30);
    let c = a.combine(b);
    let ts = vec![Transform::from(c)];
    let q = transform_sequence_point(&ts, &p(0, 0, 0)).unwrap();
    assert_eq!(q, p(11, 22, 33));
}

#[test]
fn scalings_combine_by_multiplying_factors() {
    let a = Scaling::from_origin_vector(p(1, 1, 1), v(2, 2, 2));
    let b = Scaling::from_origin_vector(p(1, 1, 1), v(3, 3, 3));
    let c = a.combine(b);
    assert_eq!(c.factors, v(6, 6, 6));
    // Applying the combination equals applying b, then a.
    let seq_c = vec![Transform::from(c)];
    let seq_ba = vec![Transform::from(b), Transform::from(a)];
    let q1 = transform_sequence_point(&seq_c, &p(2, 0, 0)).unwrap();
    let q2 = transform_sequence_point(&seq_ba, &p(2, 0, 0)).unwrap();
    assert_eq!(q1, q2);
}

#[test]
fn rotations_combine_by_multiplying_linear_parts() {
    // Two quarter turns about z make a half turn.
    let quarter = Rotation::from_origin_rows(p(0, 0, 0), v(0, -1, 0), v(1, 0, 0), v(0, 0, 1));
    let half = quarter.combine(quarter);
    let ts = vec![Transform::from(half)];
    let q = transform_sequence_point(&ts, &p(1, 0, 0)).unwrap();
    assert_eq!(q, p(-1, 0, 0));
}

#[test]
fn scaling_builder_requires_origin_then_vector() {
    let e = ScalingBuilder::default().build().unwrap_err();
    assert_eq!(e.message(), "Unable to build Scaling transform: origin is not specified");
    let e = ScalingBuilder::default().with_origin(0, 0, 0).build().unwrap_err();
    assert_eq!(e.message(), "Unable to build Scaling transform: vector is not specified");
    let s = ScalingBuilder::default()
        .with_origin(1, 2, 3)
        .with_vector(4, 5, 6)
        .build()
        .unwrap();
    assert_eq!(s.origin, p(1, 2, 3));
    assert_eq!(s.factors, v(4, 5, 6));
}

#[test]
fn rotation_builder_requires_origin_then_rows() {
    let e = RotationBuilder::default().build().unwrap_err();
    assert_eq!(e.message(), "Unable to build Rotation transform: origin is not specified");
    let e = RotationBuilder::default().with_origin(0, 0, 0).build().unwrap_err();
    assert_eq!(e.message(), "Unable to build Rotation transform: rows are not specified");
    let r = RotationBuilder::default()
        .with_origin(0, 0, 0)
        .with_rows(v(1, 0, 0), v(0, 1, 0), v(0, 0, 1))
        .build()
        .unwrap();
    assert_eq!(r.r1, v(0, 1, 0));
}

#[test]
fn transform_names_match_their_kinds() {
    assert_eq!(Translation::new(0, 0, 0).name(), "Translation");
    assert_eq!(
        Scaling::from_origin_vector(p(0, 0, 0), v(1, 1, 1)).name(),
        "Scaling"
    );
    assert_eq!(
        Rotation::from_origin_rows(p(0, 0, 0), v(1, 0, 0), v(0, 1, 0), v(0, 0, 1)).name(),
        "Rotation"
    );
}

#[test]
fn applying_two_sequences_in_turn_equals_their_concatenation() {
    let a = Transform::from(Translation::new(1, 2, 3));
    let b = Transform::from(Scaling::from_origin_vector(p(0, 0, 0), v(2, 2, 2)));
    let first = vec![a];
    let second = vec![b];
    let both = vec![a, b];
    let start = p(4, 5, 6);
    let mid = transform_sequence_point(&first, &start).unwrap();
    let stepwise = transform_sequence_point(&second, &mid).unwrap();
    let at_once = transform_sequence_point(&both, &start).unwrap();
    assert_eq!(stepwise, at_once);
    assert_eq!(at_once, p(10, 14, 18));
}
