use star_render::events::{clamped_size, handle_window_event, should_create_window, EventAction,
    WindowEventKind};
use star_render::frame::plan_frame;
use star_render::instance::{StarInstance, NUM_STARS, POSITION_BOUND_MILLI, ROTATION_BOUND_MILLI,
    SCALE_MAX_MILLI, SCALE_MIN_MILLI, SPEED_BOUND_MILLI};
use star_render::layout::{packed_layout, position_vertex_layout, star_instance_layout,
    AttributeFormat, StepMode};
use star_render::time_uniform::{TimeUniform, TIME_UNIFORM_BUFFER_BYTES,
    TIME_UNIFORM_RECORD_BYTES};

#[test]
fn position_layout_values() {
    let layout = position_vertex_layout();
    assert_eq!(layout.array_stride, 8);
    assert_eq!(layout.step_mode, StepMode::Vertex);
    assert_eq!(layout.attributes.len(), 1);
    assert_eq!(layout.attributes[0].format, AttributeFormat::Float32x2);
    assert_eq!(layout.attributes[0].offset, 0);
    assert_eq!(layout.attributes[0].shader_location, 0);
}

#[test]
fn instance_layout_values() {
    let layout = star_instance_layout();
    assert_eq!(layout.array_stride, 28);
    assert_eq!(layout.step_mode, StepMode::Instance);
    assert_eq!(layout.attributes.len(), 5);
    let offsets: Vec<u64> = layout.attributes.iter().map(|a| a.offset).collect();
    assert_eq!(offsets, vec![0, 8, 12, 16, 24]);
    let locations: Vec<u32> = layout.attributes.iter().map(|a| a.shader_location).collect();
    assert_eq!(locations, vec![2, 3, 4, 5, 6]);
    let formats: Vec<AttributeFormat> = layout.attributes.iter().map(|a| a.format).collect();
    assert_eq!(
        formats,
        vec![
            AttributeFormat::Float32x2,
            AttributeFormat::Float32,
            AttributeFormat::Float32,
            AttributeFormat::Float32x2,
            AttributeFormat::Float32,
        ]
    );
}

#[test]
fn packed_layout_accumulates_offsets() {
    let formats = vec![AttributeFormat::Float32, AttributeFormat::Float32x2];
    let layout = packed_layout(&formats, 7, StepMode::Vertex);
    assert_eq!(layout.array_stride, 12);
    assert_eq!(layout.attributes[0].offset, 0);
    assert_eq!(layout.attributes[0].shader_location, 7);
    assert_eq!(layout.attributes[1].offset, 4);
    assert_eq!(layout.attributes[1].shader_location, 8);
}

#[test]
fn instances_stay_in_their_ranges() {
    let instances = StarInstance::new_vec(200);
    assert_eq!(instances.len(), 200);
    for s in &instances {
        assert!(-POSITION_BOUND_MILLI <= s.x_milli && s.x_milli < POSITION_BOUND_MILLI);
        assert!(-POSITION_BOUND_MILLI <= s.y_milli && s.y_milli < POSITION_BOUND_MILLI);
        assert!(SCALE_MIN_MILLI <= s.scale_milli && s.scale_milli < SCALE_MAX_MILLI);
        assert!(0 <= s.rotation_milli && s.rotation_milli < ROTATION_BOUND_MILLI);
        assert!(-SPEED_BOUND_MILLI <= s.speed_x_milli && s.speed_x_milli < SPEED_BOUND_MILLI);
        assert!(-SPEED_BOUND_MILLI <= s.speed_y_milli && s.speed_y_milli < SPEED_BOUND_MILLI);
        assert!(
            -SPEED_BOUND_MILLI <= s.rotation_speed_milli
                && s.rotation_speed_milli < SPEED_BOUND_MILLI
        );
    }
    let first = instances[0];
    assert!(
        instances.iter().any(|s| s.x_milli != first.x_milli || s.y_milli != first.y_milli),
        "two hundred random positions should not all coincide"
    );
}

#[test]
fn time_uniform_starts_at_zero() {
    assert_eq!(TimeUniform::new().time_millis, 0);
    assert_eq!(TimeUniform::with_millis(42).time_millis, 42);
    assert_eq!(TIME_UNIFORM_BUFFER_BYTES, 4);
    assert_eq!(TIME_UNIFORM_RECORD_BYTES, 16);
}

#[test]
fn time_uniform_reads_the_clock() {
    let uniform = TimeUniform::new().after_duration();
    assert!(uniform.time_millis > 0, "the clock reads after the epoch");
}

#[test]
fn frame_plan_counts() {
    let plan = plan_frame();
    assert_eq!(plan.vertices.len(), 10);
    assert_eq!(plan.instances.len(), NUM_STARS as usize);
    assert_eq!(plan.vertex_count(), 10);
    assert_eq!(plan.instance_count(), NUM_STARS);
    assert_eq!(plan.vertices[0].angle_index, 0);
    assert_eq!(plan.vertices[9].angle_index, 9);
}

#[test]
fn close_requested_exits() {
    let action = handle_window_event(true, WindowEventKind::CloseRequested);
    assert_eq!(action, EventAction::Exit);
    let action = handle_window_event(false, WindowEventKind::CloseRequested);
    assert_eq!(action, EventAction::Exit);
}

#[test]
fn resize_reconfigures_when_ready() {
    let action = handle_window_event(true, WindowEventKind::Resized(800, 600));
    assert_eq!(action, EventAction::ResizeAndRedraw(800, 600));
    let action = handle_window_event(false, WindowEventKind::Resized(800, 600));
    assert_eq!(action, EventAction::Ignore);
}

#[test]
fn redraw_draws_when_ready() {
    let action = handle_window_event(true, WindowEventKind::RedrawRequested);
    assert_eq!(action, EventAction::Redraw);
    let action = handle_window_event(false, WindowEventKind::RedrawRequested);
    assert_eq!(action, EventAction::Ignore);
    let action = handle_window_event(true, WindowEventKind::Other);
    assert_eq!(action, EventAction::Ignore);
}

#[test]
fn window_created_once() {
    assert!(should_create_window(false));
    assert!(!should_create_window(true));
}

#[test]
fn sizes_clamp_to_one() {
    assert_eq!(clamped_size(0, 0), (1, 1));
    assert_eq!(clamped_size(0, 600), (1, 600));
    assert_eq!(clamped_size(800, 0), (800, 1));
    assert_eq!(clamped_size(800, 600), (800, 600));
    assert_eq!(clamped_size(u32::MAX, u32::MAX), (u32::MAX, u32::MAX));
}
