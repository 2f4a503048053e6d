use whirled::bootstrap::SurfaceFormat;
use whirled::render::{
    DrawCommand, FrameEvents, Render, RenderOutcome, TeardownStep, CLEAR_A, CLEAR_B, CLEAR_G,
    CLEAR_R,
};
use whirled::scene::{CameraView, MeshDef, ModelInstance, RenderScene};
use whirled::swapchain::{Extent2d, SurfaceCaps};

fn test_format() -> SurfaceFormat {
    SurfaceFormat { code: 7, srgb: true }
}

fn caps_fixed(count: u32) -> SurfaceCaps {
    SurfaceCaps {
        min_image_count: count,
        max_image_count: count,
        current_extent: None,
        min_extent: Extent2d { width: 1, height: 1 },
        max_extent: Extent2d { width: 4096, height: 4096 },
    }
}

fn good_events(count: u32) -> FrameEvents {
    FrameEvents { caps: Some(caps_fixed(count)), acquire_ok: true, present_ok: true }
}

fn empty_scene() -> RenderScene {
    RenderScene { models: Vec::new(), camera: None }
}

fn triangle_def() -> Vec<MeshDef> {
    vec![MeshDef {
        stride: 8,
        vector_offset: Some(0),
        normal_offset: None,
        colour_offset: None,
        texcoords_offsets: Vec::new(),
        vertex_buffer: vec![0u8; 24],
        index_buffer: vec![0u16, 1, 2],
    }]
}

#[test]
fn empty_scene_renders_a_clear_with_no_draws() {
    let mut r = Render::new(test_format());
    r.resize(Extent2d { width: 800, height: 600 });
    let out = r.render(empty_scene(), good_events(3));
    match out {
        RenderOutcome::Rendered { reconfigured, slot, commands, camera } => {
            let plan = reconfigured.expect("first render reconfigures");
            assert_eq!(plan.config.extent, Extent2d { width: 800, height: 600 });
            assert_eq!(plan.config.image_count, 3);
            assert_eq!(slot, 0);
            assert!(camera.is_none());
            assert_eq!(commands.len(), 4);
            assert_eq!(
                commands[0],
                DrawCommand::SetViewport { extent: Extent2d { width: 800, height: 600 } }
            );
            assert_eq!(
                commands[1],
                DrawCommand::SetScissor { extent: Extent2d { width: 800, height: 600 } }
            );
            match commands[2] {
                DrawCommand::BeginPass { clear } => {
                    assert_eq!(clear.r, CLEAR_R);
                    assert_eq!(clear.g, CLEAR_G);
                    assert_eq!(clear.b, CLEAR_B);
                    assert_eq!(clear.a, CLEAR_A);
                }
                _ => panic!("expected the render pass to begin with a clear"),
            }
            assert_eq!(commands[3], DrawCommand::EndPass);
        }
        _ => panic!("expected a rendered frame"),
    }
    assert!(!r.needs_reconfigure());
    assert_eq!(r.pool_len(), 3);
}

#[test]
fn triangle_renders_one_bind_and_indexed_draw() {
    let mut r = Render::new(test_format());
    r.resize(Extent2d { width: 800, height: 600 });
    let _ = r.render(empty_scene(), good_events(3));
    let h = r.add_model(triangle_def());
    let scene = RenderScene { models: vec![ModelInstance { model: h }], camera: None };
    let out = r.render(scene, good_events(3));
    match out {
        RenderOutcome::Rendered { reconfigured, commands, .. } => {
            assert!(reconfigured.is_none());
            assert_eq!(commands.len(), 3 + 4 + 1);
            assert_eq!(commands[3], DrawCommand::BindPipeline { model: h, mesh: 0 });
            assert_eq!(commands[4], DrawCommand::BindVertexBuffer { model: h, mesh: 0 });
            assert_eq!(commands[5], DrawCommand::BindIndexBuffer { model: h, mesh: 0 });
            assert_eq!(commands[6], DrawCommand::DrawIndexed { index_count: 3 });
            assert_eq!(commands[7], DrawCommand::EndPass);
        }
        _ => panic!("expected a rendered frame"),
    }
}

#[test]
fn pool_length_follows_reported_image_count() {
    let mut r = Render::new(test_format());
    r.resize(Extent2d { width: 640, height: 480 });
    let _ = r.render(empty_scene(), good_events(2));
    assert_eq!(r.pool_len(), 2);
    // a later resize renegotiates against a different report
    r.resize(Extent2d { width: 1024, height: 768 });
    let _ = r.render(empty_scene(), good_events(3));
    assert_eq!(r.pool_len(), 3);
}

#[test]
fn cursor_advances_modulo_pool_length() {
    let mut r = Render::new(test_format());
    r.resize(Extent2d { width: 320, height: 200 });
    let n = 5;
    for _ in 0..n {
        let out = r.render(empty_scene(), good_events(3));
        assert!(matches!(out, RenderOutcome::Rendered { .. }));
    }
    assert_eq!(r.pool_len(), 3);
    assert_eq!(r.cursor_index(), n % 3);
}

#[test]
fn failed_acquire_recovers_with_one_reconfiguration() {
    let mut r = Render::new(test_format());
    r.resize(Extent2d { width: 800, height: 600 });
    let _ = r.render(empty_scene(), good_events(3));
    assert!(!r.needs_reconfigure());
    let cursor_before = r.cursor_index();

    // the acquire fails: no panic, the frame is skipped, the swapchain dirty
    let out = r.render(
        empty_scene(),
        FrameEvents { caps: Some(caps_fixed(3)), acquire_ok: false, present_ok: true },
    );
    match out {
        RenderOutcome::SkippedAcquire { reconfigured } => assert!(reconfigured.is_none()),
        _ => panic!("expected the frame to be skipped"),
    }
    assert!(r.needs_reconfigure());
    assert_eq!(r.cursor_index(), cursor_before);

    // the next render reconfigures exactly once
    match r.render(empty_scene(), good_events(3)) {
        RenderOutcome::Rendered { reconfigured, .. } => {
            assert!(reconfigured.is_some());
        }
        _ => panic!("expected a rendered frame"),
    }
    assert!(!r.needs_reconfigure());

    // and the one after attempts none
    match r.render(empty_scene(), good_events(3)) {
        RenderOutcome::Rendered { reconfigured, .. } => assert!(reconfigured.is_none()),
        _ => panic!("expected a rendered frame"),
    }
}

#[test]
fn failed_negotiation_skips_frame_without_mutation() {
    let mut r = Render::new(test_format());
    r.resize(Extent2d { width: 800, height: 600 });
    let out = r.render(
        empty_scene(),
        FrameEvents { caps: None, acquire_ok: true, present_ok: true },
    );
    assert!(matches!(out, RenderOutcome::SkippedNegotiation));
    assert!(r.needs_reconfigure());
    assert_eq!(r.pool_len(), 0);
    assert_eq!(r.cursor_index(), 0);
}

#[test]
fn failed_present_marks_swapchain_dirty() {
    let mut r = Render::new(test_format());
    r.resize(Extent2d { width: 800, height: 600 });
    let out = r.render(
        empty_scene(),
        FrameEvents { caps: Some(caps_fixed(3)), acquire_ok: true, present_ok: false },
    );
    assert!(matches!(out, RenderOutcome::Rendered { .. }));
    assert!(r.needs_reconfigure());
}

#[test]
fn distinct_handles_and_independent_layouts() {
    let mut r = Render::new(test_format());
    r.resize(Extent2d { width: 800, height: 600 });
    let _ = r.render(empty_scene(), good_events(3));

    let quad = vec![MeshDef {
        stride: 20,
        vector_offset: Some(4),
        normal_offset: Some(8),
        colour_offset: None,
        texcoords_offsets: vec![12],
        vertex_buffer: vec![1u8; 80],
        index_buffer: vec![0u16, 1, 2, 2, 1, 3],
    }];
    let h1 = r.add_model(triangle_def());
    let h2 = r.add_model(quad);
    assert_ne!(h1, h2);

    // order in the scene is the reverse of registration order
    let scene = RenderScene {
        models: vec![ModelInstance { model: h2 }, ModelInstance { model: h1 }],
        camera: None,
    };
    match r.render(scene, good_events(3)) {
        RenderOutcome::Rendered { commands, .. } => {
            assert_eq!(commands[3], DrawCommand::BindPipeline { model: h2, mesh: 0 });
            assert_eq!(commands[6], DrawCommand::DrawIndexed { index_count: 6 });
            assert_eq!(commands[7], DrawCommand::BindPipeline { model: h1, mesh: 0 });
            assert_eq!(commands[10], DrawCommand::DrawIndexed { index_count: 3 });
        }
        _ => panic!("expected a rendered frame"),
    }

    let m1 = r.resolve(h1);
    assert_eq!(m1.meshes[0].layout.stride, 8);
    let m2 = r.resolve(h2);
    assert_eq!(m2.meshes[0].layout.stride, 20);
    assert_eq!(m2.meshes[0].layout.texcoords_offsets, vec![12]);
}

#[test]
fn mesh_without_indices_draws_fixed_vertex_count() {
    let mut r = Render::new(test_format());
    r.resize(Extent2d { width: 800, height: 600 });
    let _ = r.render(empty_scene(), good_events(3));
    let def = vec![MeshDef {
        stride: 8,
        vector_offset: Some(0),
        normal_offset: None,
        colour_offset: None,
        texcoords_offsets: Vec::new(),
        vertex_buffer: vec![0u8; 24],
        index_buffer: Vec::new(),
    }];
    let h = r.add_model(def);
    let scene = RenderScene { models: vec![ModelInstance { model: h }], camera: None };
    match r.render(scene, good_events(3)) {
        RenderOutcome::Rendered { commands, .. } => {
            assert_eq!(commands[3], DrawCommand::BindPipeline { model: h, mesh: 0 });
            assert_eq!(commands[4], DrawCommand::BindVertexBuffer { model: h, mesh: 0 });
            assert_eq!(commands[5], DrawCommand::Draw { vertex_count: 3 });
            assert_eq!(commands[6], DrawCommand::EndPass);
        }
        _ => panic!("expected a rendered frame"),
    }
}

#[test]
fn camera_words_pass_through_to_the_frame() {
    let mut r = Render::new(test_format());
    r.resize(Extent2d { width: 800, height: 600 });
    let view = CameraView { transform: (0..16).collect(), projection: (16..32).collect() };
    let scene = RenderScene { models: Vec::new(), camera: Some(view) };
    match r.render(scene, good_events(3)) {
        RenderOutcome::Rendered { camera, .. } => {
            let cam = camera.expect("the camera passes through");
            let words = cam.uniform_words();
            let expected: Vec<u32> = (0..32).collect();
            assert_eq!(words, expected);
        }
        _ => panic!("expected a rendered frame"),
    }
}

#[test]
fn teardown_follows_the_fixed_order_and_clears_state() {
    let mut r = Render::new(test_format());
    r.resize(Extent2d { width: 800, height: 600 });
    let _ = r.render(empty_scene(), good_events(3));
    let h = r.add_model(triangle_def());
    assert!(r.has_model(h));

    let steps = r.teardown();
    assert_eq!(
        steps,
        vec![
            TeardownStep::WaitIdle,
            TeardownStep::DestroyFrameSlots,
            TeardownStep::DestroyModelResources,
            TeardownStep::DestroyFramebuffer,
            TeardownStep::DestroyRenderPass,
            TeardownStep::UnconfigureSurface,
            TeardownStep::DestroySurface,
            TeardownStep::DestroyDevice,
            TeardownStep::DestroyInstance,
        ]
    );
    assert_eq!(r.pool_len(), 0);
    assert_eq!(r.model_count(), 0);
    assert!(!r.has_model(h));
    assert!(r.needs_reconfigure());
}

#[test]
fn current_extent_report_overrides_requested_size() {
    let mut r = Render::new(test_format());
    r.resize(Extent2d { width: 800, height: 600 });
    let caps = SurfaceCaps {
        min_image_count: 2,
        max_image_count: 4,
        current_extent: Some(Extent2d { width: 1280, height: 720 }),
        min_extent: Extent2d { width: 1, height: 1 },
        max_extent: Extent2d { width: 4096, height: 4096 },
    };
    let ev = FrameEvents { caps: Some(caps), acquire_ok: true, present_ok: true };
    match r.render(empty_scene(), ev) {
        RenderOutcome::Rendered { reconfigured, .. } => {
            let plan = reconfigured.expect("first render reconfigures");
            assert_eq!(plan.config.extent, Extent2d { width: 1280, height: 720 });
            assert_eq!(plan.config.image_count, 3);
        }
        _ => panic!("expected a rendered frame"),
    }
    assert_eq!(r.current_extent(), Extent2d { width: 1280, height: 720 });
}
