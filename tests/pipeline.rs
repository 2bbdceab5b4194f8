use glwrap::buffers::{
    buffer_byte_size, interleaved_layout, AttributeBinding, ElementBufferObject, UsageHint,
    VertexArrayObject, VertexBufferObject, DYNAMIC_DRAW, FLOAT, STATIC_DRAW,
};
use glwrap::context::RenderContext;
use glwrap::errors::{
    combine_statuses, draw_status_from_error, DrawStatus, CONTEXT_LOST,
    INVALID_FRAMEBUFFER_OPERATION, INVALID_OPERATION, INVALID_VALUE, NO_ERROR, OUT_OF_MEMORY,
    STACK_OVERFLOW, STACK_UNDERFLOW,
};
use glwrap::shapes::{plan_draw, polygon_indices, square_indices, triangle_indices, DrawCall};
use glwrap::textures::{rgb_image_byte_len, Texture2D, TEXTURE0};

fn failed(m: &str) -> DrawStatus {
    DrawStatus::Failed(m.to_string())
}

fn message(s: DrawStatus) -> Option<String> {
    match s {
        DrawStatus::Failed(m) => Some(m),
        DrawStatus::Success => None,
    }
}

#[test]
fn error_codes_map_to_statuses() {
    assert_eq!(message(draw_status_from_error(NO_ERROR)), None);
    let cases = [
        (INVALID_VALUE, "invalid value supplied to draw call"),
        (INVALID_OPERATION, "invalid draw call for current state"),
        (STACK_OVERFLOW, "stack overflow"),
        (STACK_UNDERFLOW, "stack underflow"),
        (OUT_OF_MEMORY, "out of memory"),
        (INVALID_FRAMEBUFFER_OPERATION, "invalid framebuffer operation"),
        (CONTEXT_LOST, "openGL ContextLost"),
        (0x0500, "UNDEFINED ERROR"),
        (12345, "UNDEFINED ERROR"),
    ];
    for (code, m) in cases {
        assert_eq!(message(draw_status_from_error(code)), Some(m.to_string()));
    }
}

#[test]
fn one_failing_leaf_among_three_reports_its_message() {
    let s = combine_statuses(vec![DrawStatus::Success, failed("out of memory"), DrawStatus::Success]);
    assert_eq!(message(s), Some("out of memory".to_string()));
    let t = combine_statuses(vec![DrawStatus::Success, DrawStatus::Success, DrawStatus::Success]);
    assert_eq!(message(t), None);
}

#[test]
fn first_of_several_failures_is_reported() {
    let s = combine_statuses(vec![DrawStatus::Success, failed("first"), failed("second")]);
    assert_eq!(message(s), Some("first".to_string()));
    assert_eq!(message(combine_statuses(Vec::new())), None);
}

#[test]
fn triangle_scenario_submits_one_triangle() {
    let vbo = VertexBufferObject::new(1);
    let ebo = ElementBufferObject::new(2);
    let mut vao = VertexArrayObject::new(3);
    assert_eq!((vbo.get_id(), ebo.get_id(), vao.get_id()), (1, 2, 3));

    let vertices: Vec<f32> = vec![
        -0.5, -0.5, 0.0, 0.0, 1.0, 0.5, -0.5, 0.0, 1.0, 1.0, 0.0, 0.5, 0.0, 0.5, 0.0,
    ];
    assert_eq!(vertices.len(), 15);
    assert_eq!(buffer_byte_size(vertices.len(), 4), Some(60));

    let layout = interleaved_layout(&vec![3, 2]).expect("layout fits");
    assert_eq!(
        layout,
        vec![
            AttributeBinding { slot: 0, component_count: 3, element_type: FLOAT, normalized: false, stride: 20, offset: 0 },
            AttributeBinding { slot: 1, component_count: 2, element_type: FLOAT, normalized: false, stride: 20, offset: 12 },
        ]
    );
    for b in layout.iter() {
        vao.configure_attribute(*b);
    }
    assert_eq!(vao.bindings(), &layout);

    let indices = triangle_indices();
    assert_eq!(indices, vec![0, 1, 2]);
    assert_eq!(buffer_byte_size(indices.len(), 4), Some(12));
    let call = plan_draw(false, &indices).expect("indices fit");
    assert_eq!(call, DrawCall::Elements { index_count: 3 });
    assert_eq!(call.primitive_count(), 1);
    assert_eq!(message(draw_status_from_error(NO_ERROR)), None);
}

#[test]
fn configuring_a_slot_again_replaces_its_binding() {
    let mut vao = VertexArrayObject::new(3);
    let a = AttributeBinding { slot: 0, component_count: 3, element_type: FLOAT, normalized: false, stride: 20, offset: 0 };
    let b = AttributeBinding { slot: 1, component_count: 2, element_type: FLOAT, normalized: false, stride: 20, offset: 12 };
    let c = AttributeBinding { slot: 0, component_count: 4, element_type: FLOAT, normalized: true, stride: 16, offset: 0 };
    vao.configure_attribute(a);
    vao.configure_attribute(b);
    vao.configure_attribute(c);
    assert_eq!(vao.bindings(), &vec![c, b]);
}

#[test]
fn layout_rejects_bad_component_counts() {
    assert!(interleaved_layout(&vec![3, 0]).is_none());
    assert!(interleaved_layout(&vec![5]).is_none());
    assert_eq!(interleaved_layout(&Vec::new()), Some(Vec::new()));
    let l = interleaved_layout(&vec![4, 4, 1]).unwrap();
    assert_eq!(l[2].offset, 32);
    assert_eq!(l[2].stride, 36);
}

#[test]
fn byte_size_detects_overflow() {
    assert_eq!(buffer_byte_size(0, 4), Some(0));
    assert_eq!(buffer_byte_size(usize::MAX, 4), None);
    assert_eq!(buffer_byte_size((isize::MAX as usize) / 4 + 1, 4), None);
    assert_eq!(buffer_byte_size(7, 0), Some(0));
}

#[test]
fn usage_hints_map_to_driver_enums() {
    assert_eq!(UsageHint::Static.gl_enum(), STATIC_DRAW);
    assert_eq!(UsageHint::Dynamic.gl_enum(), DYNAMIC_DRAW);
}

#[test]
fn shapes_have_their_index_data() {
    assert_eq!(square_indices(), vec![0, 1, 2, 0, 2, 3]);
    assert_eq!(plan_draw(false, &square_indices()).unwrap().primitive_count(), 2);
    assert_eq!(polygon_indices(6), vec![6]);
}

#[test]
fn polygon_draws_one_point_with_its_side_count() {
    let call = plan_draw(true, &polygon_indices(6)).expect("has a side count");
    assert_eq!(call, DrawCall::PolygonPoint { sides: 6 });
    assert_eq!(call.primitive_count(), 1);
    assert_eq!(plan_draw(true, &Vec::new()), None);
}

#[test]
fn polygon_side_count_must_be_drawable() {
    assert_eq!(plan_draw(true, &polygon_indices(0)), None);
    assert_eq!(plan_draw(true, &polygon_indices(2)), None);
    assert_eq!(plan_draw(true, &polygon_indices(3)), Some(DrawCall::PolygonPoint { sides: 3 }));
    assert_eq!(plan_draw(true, &polygon_indices(14)), Some(DrawCall::PolygonPoint { sides: 14 }));
    assert_eq!(plan_draw(true, &polygon_indices(15)), None);
}

#[test]
fn texture_remembers_its_unit() {
    let mut t = Texture2D::new(9, "wall.jpg".to_string());
    assert_eq!(t.get_id(), 9);
    assert_eq!(t.file_path(), "wall.jpg");
    assert_eq!(t.active_unit(), TEXTURE0);
    assert_eq!(t.bind_to_slot(2), Some(TEXTURE0 + 2));
    assert_eq!(t.active_unit(), 0x84C2);
    assert_eq!(t.bind_to_slot(u32::MAX), None);
    assert_eq!(t.active_unit(), 0x84C2);
}

#[test]
fn decoded_image_size() {
    assert_eq!(rgb_image_byte_len(2, 3), Some(18));
    assert_eq!(rgb_image_byte_len(0, 3), None);
    assert_eq!(rgb_image_byte_len(4, -1), None);
    assert_eq!(rgb_image_byte_len(i32::MAX, i32::MAX).is_some(), usize::BITS == 64);
}

#[test]
fn context_loss_is_permanent() {
    let mut ctx = RenderContext::new();
    assert!(!ctx.is_lost());
    assert_eq!(message(ctx.check_usable()), None);
    assert_eq!(message(ctx.record_error(INVALID_VALUE)), Some("invalid value supplied to draw call".to_string()));
    assert!(!ctx.is_lost());
    assert_eq!(message(ctx.record_error(CONTEXT_LOST)), Some("openGL ContextLost".to_string()));
    assert!(ctx.is_lost());
    assert_eq!(message(ctx.record_error(NO_ERROR)), None);
    assert!(ctx.is_lost());
    assert_eq!(
        message(ctx.check_usable()),
        Some("rendering context is lost; no further calls are made".to_string())
    );
}
