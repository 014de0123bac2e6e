use webgl_viewer::drawable::{classify_kind_name, DrawableElement, DrawableKind, Identifiable, WebglError};
use webgl_viewer::error::Error;
use webgl_viewer::geom::{Point3, Vector3};
use webgl_viewer::grid::GridBuilder;
use webgl_viewer::hexahedron::HexahedronBuilder;
use webgl_viewer::transform::translation::Translation;

#[test]
fn make_false_is_false() {
    assert!(!webgl_viewer::make_false());
}

#[test]
fn errors_carry_their_message() {
    let e = Error::from_text("something went sideways");
    assert_eq!(e.message(), "something went sideways");
    let e = Error::new("owned text".to_string());
    assert_eq!(e.message(), "owned text");
}

#[test]
fn str_equal_compares_contents() {
    assert!(webgl_viewer::str_equal("abc", "abc"));
    assert!(!webgl_viewer::str_equal("abc", "abd"));
}

#[test]
fn kind_names_classify_drawables() {
    assert_eq!(classify_kind_name("Grid").unwrap(), DrawableKind::Grid);
    assert_eq!(classify_kind_name("Hexahedron").unwrap(), DrawableKind::Hexahedron);
    let e = classify_kind_name("Sphere").unwrap_err();
    assert_eq!(e.message(), "Item `Sphere` is not a supported drawable element.");
    match e {
        WebglError::DrawableUnsupported(name) => assert_eq!(name, "Sphere"),
        WebglError::DrawableError => panic!("wrong variant"),
    }
}

#[test]
fn conversion_failures_have_their_own_message() {
    assert_eq!(
        WebglError::DrawableError.message(),
        "An error occured when converting to drawable element."
    );
}

#[test]
fn hexahedron_builder_requires_both_corners() {
    let e = HexahedronBuilder::new().build().unwrap_err();
    assert_eq!(e.message(), "Start is not specified");
    let e = HexahedronBuilder::new().start(0, 0, 0).build().unwrap_err();
    assert_eq!(e.message(), "End is not specified");
    let h = HexahedronBuilder::new().start(0, 0, 0).end(1, 2, 3).build().unwrap();
    assert_eq!(h.start, Point3::new(0, 0, 0));
    assert_eq!(h.end, Point3::new(1, 2, 3));
    assert_eq!(h.uuid().unwrap().len(), 6);
}

#[test]
fn grid_builder_reports_the_first_missing_parameter() {
    let e = GridBuilder::new().build().unwrap_err();
    assert_eq!(e.message(), "Normal not specified");
    let e = GridBuilder::new().normal(0, 1, 0).build().unwrap_err();
    assert_eq!(e.message(), "Tangent not specified");
    let e = GridBuilder::new().normal(0, 1, 0).tangent(1, 0, 0).build().unwrap_err();
    assert_eq!(e.message(), "Center not specified");
    let e = GridBuilder::new()
        .normal(0, 1, 0)
        .tangent(1, 0, 0)
        .center(0, 0, 0)
        .build()
        .unwrap_err();
    assert_eq!(e.message(), "Grid spacing (delta) not specified");
    let e = GridBuilder::new()
        .normal(0, 1, 0)
        .tangent(1, 0, 0)
        .center(0, 0, 0)
        .delta(2)
        .build()
        .unwrap_err();
    assert_eq!(e.message(), "Number of grid cell (n) not specified");
    let g = GridBuilder::new()
        .normal(0, 1, 0)
        .tangent(1, 0, 0)
        .center(0, 0, 0)
        .delta(2)
        .n(4)
        .build()
        .unwrap();
    assert_eq!(g.n, 4);
    assert_eq!(g.uuid().unwrap().len(), 6);
}

#[test]
fn uids_are_six_characters_and_stable_across_clones() {
    let g = GridBuilder::new()
        .normal(0, 1, 0)
        .tangent(1, 0, 0)
        .center(0, 0, 0)
        .delta(1)
        .n(1)
        .build()
        .unwrap();
    let uid = g.uuid().unwrap();
    assert_eq!(uid.len(), 6);
    let copy = g.clone();
    assert_eq!(copy.uuid().unwrap(), uid);
}

#[test]
fn kind_name_identifies_each_primitive() {
    let g = GridBuilder::new()
        .normal(0, 1, 0)
        .tangent(1, 0, 0)
        .center(0, 0, 0)
        .delta(1)
        .n(1)
        .build()
        .unwrap();
    assert_eq!(g.kind_name().unwrap(), "Grid");
    let h = HexahedronBuilder::new().start(0, 0, 0).end(1, 1, 1).build().unwrap();
    assert_eq!(h.kind_name().unwrap(), "Hexahedron");
}

#[test]
fn drawable_elements_dispatch_their_uuid() {
    let h = HexahedronBuilder::new().start(0, 0, 0).end(1, 1, 1).build().unwrap();
    let uid = h.uuid().unwrap();
    let element = DrawableElement::from(h);
    assert_eq!(element.kind(), DrawableKind::Hexahedron);
    assert_eq!(element.uuid().unwrap(), uid);
    assert_eq!(Identifiable::uuid(&element).unwrap(), uid);
}

#[test]
fn hexahedron_surface_has_twelve_triangles_with_unit_normals() {
    let h = HexahedronBuilder::new().start(0, 0, 0).end(2, 3, 4).build().unwrap();
    let (tris, normals) = h.vertices().unwrap();
    assert_eq!(tris.len(), 12);
    assert_eq!(normals.len(), 12);
    // The first face triangle spans the bottom corners.
    assert_eq!(
        tris[0],
        (Point3::new(0, 0, 0), Point3::new(0, 3, 0), Point3::new(2, 0, 0))
    );
    assert_eq!(normals[0], Vector3::new(0, 0, -1));
    assert_eq!(normals[11], Vector3::new(1, 0, 0));
    // Every corner coordinate is taken from one of the two box corners.
    for (a, b, c) in tris {
        for q in [a, b, c] {
            assert!(q.x == 0 || q.x == 2);
            assert!(q.y == 0 || q.y == 3);
            assert!(q.z == 0 || q.z == 4);
        }
    }
}

#[test]
fn transformed_geometry_moves_corners_but_not_normals() {
    let h = HexahedronBuilder::new()
        .start(0, 0, 0)
        .end(1, 1, 1)
        .build()
        .unwrap()
        .with_translate(Translation::new(10, 20, 30));
    let (tris, normals) = h.transformed_geometry().unwrap();
    assert_eq!(tris[0].0, Point3::new(10, 20, 30));
    assert_eq!(normals[0], (
        Vector3::new(0, 0, -1),
        Vector3::new(0, 0, -1),
        Vector3::new(0, 0, -1),
    ));
}

#[test]
fn the_reference_point_is_the_transformed_center() {
    let g = GridBuilder::new()
        .normal(0, 1, 0)
        .tangent(1, 0, 0)
        .center(1, 2, 3)
        .delta(1)
        .n(2)
        .build()
        .unwrap()
        .with_translate(Translation::new(100, 0, 0));
    assert_eq!(g.transform_reference_point().unwrap(), Point3::new(101, 2, 3));
}
