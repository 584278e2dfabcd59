use wgpu_triangle::color::Color;
use wgpu_triangle::controls::{slider_message, Command, Component, Controls, Message, SliderModel};
use wgpu_triangle::gpu::{
    apply_resize, initial_surface_config, requested_limits, triangle_pipeline, PresentMode,
    SurfaceConfig, TextureUsage,
};
use wgpu_triangle::machine::{frame_plan, Action, App, LoopEvent, LoopFlow};
use wgpu_triangle::text::color_text;
use wgpu_triangle::texture::{
    logo_copy_target, logo_data_len, logo_texture_desc, logo_texture_format, logo_upload_layout,
    TextureFormat,
};

#[test]
fn it_works() {
    assert_eq!(2 + 2, 4);
}

#[test]
fn lib_it_works() {
    let result = 2 + 2;
    assert_eq!(result, 4);
}

#[test]
fn new_controls_start_half_red() {
    let c = Controls::new();
    assert_eq!(c.background_color(), Color { r: 50, g: 0, b: 0, a: 100 });
}

#[test]
fn update_sets_background_color() {
    let mut c = Controls::new();
    let picked = Color { r: 1, g: 2, b: 3, a: 100 };
    let cmd = c.update(Message::BackgroundColorChanged(picked));
    assert_eq!(cmd, Command::NoCommand);
    assert_eq!(c.background_color(), picked);
}

#[test]
fn slider_messages_replace_one_component() {
    let base = Color { r: 10, g: 20, b: 30, a: 100 };
    assert_eq!(
        slider_message(base, Component::Red, 99),
        Message::BackgroundColorChanged(Color { r: 99, g: 20, b: 30, a: 100 })
    );
    assert_eq!(
        slider_message(base, Component::Green, 0),
        Message::BackgroundColorChanged(Color { r: 10, g: 0, b: 30, a: 100 })
    );
    assert_eq!(
        slider_message(base, Component::Blue, 100),
        Message::BackgroundColorChanged(Color { r: 10, g: 20, b: 100, a: 100 })
    );
}

#[test]
fn view_lays_out_the_panel() {
    let c = Controls::new();
    let p = c.view();
    assert_eq!(p.slider_column_width, 200);
    assert_eq!(p.slider_spacing, 20);
    assert_eq!(p.left_padding, 10);
    assert_eq!(p.top_padding, 30);
    assert_eq!(p.inner_padding, 10);
    assert_eq!(p.inner_spacing, 10);
    assert_eq!(p.title, "RuinX PoC");
    assert_eq!(p.title_size, 40);
    assert_eq!(p.caption, "Background color");
    assert_eq!(
        p.sliders,
        vec![
            SliderModel { component: Component::Red, value: 50, min: 0, max: 100, step: 1 },
            SliderModel { component: Component::Green, value: 0, min: 0, max: 100, step: 1 },
            SliderModel { component: Component::Blue, value: 0, min: 0, max: 100, step: 1 },
        ]
    );
    assert_eq!(p.readout, "Color { r: 0.50, g: 0.00, b: 0.00, a: 1.00 }");
    assert_eq!(p.readout_size, 14);
    assert_eq!(p.text_color, Color { r: 100, g: 100, b: 100, a: 100 });
}

#[test]
fn view_follows_the_current_color() {
    let mut c = Controls::new();
    c.update(Message::BackgroundColorChanged(Color { r: 100, g: 7, b: 50, a: 100 }));
    let p = c.view();
    assert_eq!(p.sliders[0].value, 100);
    assert_eq!(p.sliders[1].value, 7);
    assert_eq!(p.sliders[2].value, 50);
    assert_eq!(p.readout, "Color { r: 1.00, g: 0.07, b: 0.50, a: 1.00 }");
}

#[test]
fn color_text_reads_as_two_place_decimals() {
    assert_eq!(
        color_text(&Color { r: 0, g: 0, b: 0, a: 0 }),
        "Color { r: 0.00, g: 0.00, b: 0.00, a: 0.00 }"
    );
    assert_eq!(
        color_text(&Color { r: 100, g: 99, b: 1, a: 10 }),
        "Color { r: 1.00, g: 0.99, b: 0.01, a: 0.10 }"
    );
}

#[test]
fn controls_never_scale_or_exit() {
    let c = Controls::new();
    assert_eq!(c.scale_factor(), 100);
    assert!(!c.should_exit());
}

#[test]
fn requested_limits_match_the_demo() {
    let l = requested_limits();
    assert_eq!(l.max_texture_dimension_2d, 2048);
    assert_eq!(l.max_bind_groups, 4);
    assert_eq!(l.max_uniform_buffer_binding_size, 16384);
    assert_eq!(l.max_push_constant_size, 0);
    assert_eq!(l.max_storage_buffers_per_shader_stage, 0);
    assert_eq!(l.min_uniform_buffer_offset_alignment, 256);
    assert_eq!(l.max_vertex_buffer_array_stride, 255);
}

#[test]
fn surface_starts_as_render_target_with_mailbox() {
    let c = initial_surface_config(7, 640, 480);
    assert_eq!(
        c,
        SurfaceConfig {
            usage: TextureUsage { render_attachment: true, sampled: false, copy_dst: false },
            format: 7,
            width: 640,
            height: 480,
            present_mode: PresentMode::Mailbox,
        }
    );
}

#[test]
fn resize_changes_only_the_size() {
    let mut c = initial_surface_config(7, 640, 480);
    apply_resize(&mut c, 1024, 768);
    assert_eq!(c.width, 1024);
    assert_eq!(c.height, 768);
    assert_eq!(c.format, 7);
    assert_eq!(c.present_mode, PresentMode::Mailbox);
    assert!(c.usage.render_attachment);
}

#[test]
fn triangle_pipeline_names_both_entry_points() {
    let p = triangle_pipeline(3);
    assert_eq!(p.vertex_entry, "vs_main");
    assert_eq!(p.fragment_entry, "fs_main");
    assert_eq!(p.vertex_buffer_count, 0);
    assert_eq!(p.bind_group_layout_count, 0);
    assert_eq!(p.push_constant_range_count, 0);
    assert_eq!(p.target_format, 3);
}

#[test]
fn logo_texture_is_one_flat_srgb_image() {
    let d = logo_texture_desc(320, 200);
    assert_eq!(d.label, "conrod_rust_logo_texture");
    assert_eq!(d.size.width, 320);
    assert_eq!(d.size.height, 200);
    assert_eq!(d.size.depth_or_array_layers, 1);
    assert_eq!(d.mip_level_count, 1);
    assert_eq!(d.sample_count, 1);
    assert!(d.two_dimensional);
    assert_eq!(d.format, TextureFormat::Bgra8UnormSrgb);
    assert!(d.usage.sampled && d.usage.copy_dst && !d.usage.render_attachment);
    assert_eq!(logo_texture_format(), TextureFormat::Bgra8UnormSrgb);
}

#[test]
fn logo_upload_rows_are_tightly_packed() {
    let l = logo_upload_layout(320, 200);
    assert_eq!(l.offset, 0);
    assert_eq!(l.bytes_per_row, Some(1280));
    assert_eq!(l.rows_per_image, Some(200));
    assert_eq!(logo_data_len(320, 200), 4 * 320 * 200);
}

#[test]
fn empty_logo_leaves_the_layout_unsaid() {
    let l = logo_upload_layout(0, 0);
    assert_eq!(l.bytes_per_row, None);
    assert_eq!(l.rows_per_image, None);
    assert_eq!(logo_data_len(0, 17), 0);
}

#[test]
fn logo_copy_lands_at_the_origin() {
    let t = logo_copy_target();
    assert_eq!(t.mip_level, 0);
    assert_eq!((t.origin_x, t.origin_y, t.origin_z), (0, 0, 0));
}

#[test]
fn frame_plan_clears_green_and_draws_three_vertices() {
    let p = frame_plan();
    assert_eq!(p.clear_color, Color { r: 0, g: 100, b: 0, a: 100 });
    assert_eq!((p.vertex_start, p.vertex_end), (0, 3));
    assert_eq!((p.instance_start, p.instance_end), (0, 1));
    assert!(p.store);
}

#[test]
fn resize_event_reconfigures_the_surface() {
    let mut app = App::with_gpu(initial_surface_config(7, 640, 480));
    let (action, flow) = app.step(LoopEvent::Resized { width: 800, height: 600 });
    assert_eq!(action, Action::Reconfigure);
    assert_eq!(flow, LoopFlow::Wait);
    let c = app.surface_config().unwrap();
    assert_eq!((c.width, c.height), (800, 600));
    assert_eq!(c.format, 7);
}

#[test]
fn redraw_event_submits_the_fixed_frame() {
    let mut app = App::with_gpu(initial_surface_config(7, 640, 480));
    let (action, flow) = app.step(LoopEvent::RedrawRequested);
    assert_eq!(action, Action::Render(frame_plan()));
    assert_eq!(flow, LoopFlow::Wait);
}

#[test]
fn close_event_ends_the_loop() {
    let mut app = App::with_gpu(initial_surface_config(7, 640, 480));
    let (action, flow) = app.step(LoopEvent::CloseRequested);
    assert_eq!(action, Action::Ignore);
    assert_eq!(flow, LoopFlow::Exit);
}

#[test]
fn other_events_pass() {
    let mut app = App::with_gpu(initial_surface_config(7, 640, 480));
    assert_eq!(app.step(LoopEvent::Other), (Action::Ignore, LoopFlow::Wait));
    assert_eq!(app.step(LoopEvent::Resumed), (Action::Ignore, LoopFlow::Wait));
}

#[test]
fn resume_without_gpu_sets_it_up() {
    let mut app = App::without_gpu();
    assert_eq!(app.step(LoopEvent::RedrawRequested), (Action::Ignore, LoopFlow::Wait));
    assert_eq!(app.step(LoopEvent::CloseRequested), (Action::Ignore, LoopFlow::Wait));
    assert_eq!(app.step(LoopEvent::Resumed), (Action::SetUpGpu, LoopFlow::Wait));
    assert!(app.surface_config().is_none());
    app.gpu_ready(initial_surface_config(2, 320, 240));
    let c = app.surface_config().unwrap();
    assert_eq!((c.format, c.width, c.height), (2, 320, 240));
}
