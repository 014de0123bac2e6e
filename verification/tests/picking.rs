use webgl_viewer::pick::{decode_pick_id, encode_pick_id, Picker, PICK_ID_LIMIT};

#[test]
fn the_first_object_gets_id_one() {
    assert_eq!(encode_pick_id(1), (1, 0, 0, 0));
}

#[test]
fn ids_are_base_255_not_base_256() {
    // 255 rolls over into the second channel: digits (0, 1), not a
    // single 0xFF byte.
    assert_eq!(encode_pick_id(255), (0, 1, 0, 0));
    assert_eq!(encode_pick_id(256), (1, 1, 0, 0));
    assert_eq!(encode_pick_id(255 * 255), (0, 0, 1, 0));
}

#[test]
fn decode_reads_little_endian_base_255() {
    assert_eq!(decode_pick_id(0, 0, 0, 0), 0);
    assert_eq!(decode_pick_id(7, 0, 0, 0), 7);
    assert_eq!(decode_pick_id(1, 2, 3, 4), 1 + 255 * (2 + 255 * (3 + 255 * 4)));
}

#[test]
fn encode_then_decode_is_the_identity() {
    for &id in &[1u32, 2, 254, 255, 256, 65024, 65025, 123456789, PICK_ID_LIMIT - 1] {
        let (r, g, b, a) = encode_pick_id(id);
        assert_eq!(decode_pick_id(r, g, b, a), id);
    }
}

fn pass_with_three_objects() -> Picker {
    let mut picker = Picker::new();
    picker.begin_pass();
    let c1 = picker.log_object("first".to_string());
    let c2 = picker.log_object("second".to_string());
    let c3 = picker.log_object("third".to_string());
    assert_eq!(c1, (1, 0, 0, 0));
    assert_eq!(c2, (2, 0, 0, 0));
    assert_eq!(c3, (3, 0, 0, 0));
    assert_eq!(picker.object_count(), 3);
    picker
}

#[test]
fn a_pixel_no_object_covered_resolves_to_none() {
    let mut picker = pass_with_three_objects();
    picker.resolve_pick(0, 0, 0, 0).unwrap();
    assert_eq!(picker.result(), None);
}

#[test]
fn a_pixel_covered_by_the_second_object_names_it() {
    let mut picker = pass_with_three_objects();
    picker.resolve_pick(2, 0, 0, 0).unwrap();
    assert_eq!(picker.result(), Some("second".to_string()));
}

#[test]
fn an_id_beyond_the_log_is_a_consistency_error() {
    let mut picker = pass_with_three_objects();
    let e = picker.resolve_pick(5, 0, 0, 0).unwrap_err();
    assert_eq!(
        e.message(),
        "Found a pick id that exceeds the number of logged objects"
    );
    // The earlier result is untouched by the failed resolution.
    assert_eq!(picker.result(), None);
}

#[test]
fn begin_pass_clears_the_log_but_keeps_the_request() {
    let mut picker = Picker::new().with_pick_position(12, 34);
    picker.begin_pass();
    picker.log_object("only".to_string());
    picker.resolve_pick(1, 0, 0, 0).unwrap();
    assert_eq!(picker.result(), Some("only".to_string()));
    picker.begin_pass();
    assert_eq!(picker.object_count(), 0);
    // A fresh pass reuses the pick request and keeps the last answer
    // until a new pixel is resolved.
    assert_eq!(picker.result(), Some("only".to_string()));
}

#[test]
fn the_picker_program_encodes_ids_in_u_id() {
    assert!(webgl_viewer::programs::ProgramPicker::fragment_shader_source().contains("u_id"));
    assert!(webgl_viewer::programs::ProgramPicker::vertex_shader_source().contains("uMatrix"));
    assert!(webgl_viewer::programs::ProgramLines::vertex_shader_source().contains("vPosition"));
    assert!(
        webgl_viewer::programs::ProgramTrianglesWithNormals::fragment_shader_source()
            .contains("u_reverseLightDirection")
    );
}
