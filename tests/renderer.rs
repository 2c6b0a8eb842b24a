use sgl::renderer::{
    frame_recovery, BindGroupKind, ByteRange, FrameRecovery, LoadOp, PipelineKind, SurfaceStatus,
    IBO_SIZE, MAX_INSTANCES, MAX_VIEWS, VBO_SIZE,
};
use sgl::{Pixel, RenderCommand, Scene, SharedBuffers, TextureId, Thickness};

type View = u32;

fn thickness(t: f32) -> Thickness {
    Thickness::from_bits(t.to_bits())
}

fn draw(
    command: usize,
    pipeline: PipelineKind,
    bind_group: BindGroupKind,
    vbo: (u64, u64),
    ibo: (u64, u64),
    index_count: u32,
) -> RenderCommand {
    RenderCommand::Draw {
        command,
        pipeline,
        bind_group,
        vbo_bounds: ByteRange { start: vbo.0, end: vbo.1 },
        ibo_bounds: ByteRange { start: ibo.0, end: ibo.1 },
        index_count,
    }
}

#[test]
fn view_stride_is_the_aligned_transform_size() {
    assert_eq!(256, SharedBuffers::new(256).view_stride());
    assert_eq!(64, SharedBuffers::new(32).view_stride());
    assert_eq!(64, SharedBuffers::new(64).view_stride());
    assert_eq!(96, SharedBuffers::new(48).view_stride());
    assert_eq!(64, SharedBuffers::new(0).view_stride());
    assert_eq!(256 * 20, SharedBuffers::new(256).view_ubo_size());
}

#[test]
fn views_switch_in_command_order() {
    let buffers = SharedBuffers::new(256);
    let mut scene: Scene<[f32; 2], View> = Scene::new(0);
    scene.draw_line([0.0, 0.0], [160.0, 120.0], Pixel::white(), thickness(2.0));
    scene.set_view(1);
    scene.draw_filled_rect([10.0, 200.0], [310.0, 230.0], Pixel::green());

    let compiled = buffers.prepare(&scene).unwrap();

    assert_eq!(
        vec![
            RenderCommand::View { command: 0, offset: 0 },
            draw(1, PipelineKind::TriangleStrip, BindGroupKind::White, (0, 128), (0, 16), 4),
            RenderCommand::View { command: 2, offset: 256 },
            draw(3, PipelineKind::TriangleList, BindGroupKind::White, (128, 256), (16, 40), 6),
        ],
        compiled.commands
    );
    assert_eq!(vec![0u32, 1, 2, 3, 0, 1, 3, 3, 1, 2], compiled.indices);
    assert_eq!(LoadOp::Load, compiled.load_op);
}

#[test]
fn every_shape_kind_compiles_to_its_pipeline_and_texture() {
    let buffers = SharedBuffers::new(64);
    let mut scene: Scene<[f32; 2], View> = Scene::new(7);
    scene.clear(Pixel::rgb(0x1f, 0x1f, 0xdf));
    scene.draw_rect([10.0, 200.0], [310.0, 230.0], Pixel::white(), thickness(2.0));
    scene.draw_textured_rect([10.0, 140.0], [50.0, 190.0], TextureId { index: 2 });
    scene.draw_line([0.0, 0.0], [1.0, 1.0], Pixel::red(), thickness(0.0));

    let compiled = buffers.prepare(&scene).unwrap();

    assert_eq!(LoadOp::Clear(Pixel::rgb(0x1f, 0x1f, 0xdf)), compiled.load_op);
    assert_eq!(
        vec![
            RenderCommand::View { command: 0, offset: 0 },
            draw(1, PipelineKind::TriangleStrip, BindGroupKind::White, (0, 256), (0, 40), 10),
            draw(
                2,
                PipelineKind::TriangleList,
                BindGroupKind::Texture(TextureId { index: 2 }),
                (256, 384),
                (40, 64),
                6
            ),
            draw(3, PipelineKind::TriangleStrip, BindGroupKind::White, (384, 512), (64, 80), 4),
        ],
        compiled.commands
    );
    assert_eq!(
        vec![0u32, 1, 2, 3, 4, 5, 6, 7, 0, 1, 0, 1, 3, 3, 1, 2, 0, 1, 2, 3],
        compiled.indices
    );
}

#[test]
fn outline_of_width_at_most_zero_is_skipped() {
    let buffers = SharedBuffers::new(256);
    for t in [0.0f32, -0.0, -3.0, f32::NEG_INFINITY] {
        let mut scene: Scene<[f32; 2], View> = Scene::new(0);
        scene.draw_rect([0.0, 0.0], [10.0, 10.0], Pixel::white(), thickness(t));
        scene.draw_filled_rect([0.0, 0.0], [10.0, 10.0], Pixel::white());

        let compiled = buffers.prepare(&scene).unwrap();

        assert_eq!(
            vec![
                RenderCommand::View { command: 0, offset: 0 },
                draw(2, PipelineKind::TriangleList, BindGroupKind::White, (0, 128), (0, 24), 6),
            ],
            compiled.commands
        );
        assert_eq!(vec![0u32, 1, 3, 3, 1, 2], compiled.indices);
    }
}

#[test]
fn outline_of_nan_width_is_not_skipped() {
    let buffers = SharedBuffers::new(256);
    let mut scene: Scene<[f32; 2], View> = Scene::new(0);
    scene.draw_rect([0.0, 0.0], [10.0, 10.0], Pixel::white(), thickness(f32::NAN));

    let compiled = buffers.prepare(&scene).unwrap();

    assert_eq!(2, compiled.commands.len());
    assert_eq!(10, compiled.indices.len());
}

#[test]
fn scene_at_capacity_compiles_and_fills_the_buffers() {
    let buffers = SharedBuffers::new(256);
    let mut scene: Scene<[f32; 2], View> = Scene::new(0);
    for _ in 0..MAX_INSTANCES {
        scene.draw_filled_rect([0.0, 0.0], [1.0, 1.0], Pixel::white());
    }

    let compiled = buffers.prepare(&scene).unwrap();

    assert_eq!(MAX_INSTANCES as usize + 1, compiled.commands.len());
    match compiled.commands.last().unwrap() {
        RenderCommand::Draw { vbo_bounds, ibo_bounds, .. } => {
            assert_eq!(VBO_SIZE, vbo_bounds.end);
            assert_eq!(IBO_SIZE, ibo_bounds.end);
        }
        _ => panic!("the last issue is not a draw"),
    }
}

#[test]
fn scene_over_capacity_fails_to_compile() {
    let buffers = SharedBuffers::new(256);
    let mut scene: Scene<[f32; 2], View> = Scene::new(0);
    for _ in 0..MAX_INSTANCES + 1 {
        scene.draw_filled_rect([0.0, 0.0], [1.0, 1.0], Pixel::white());
    }

    assert!(buffers.prepare(&scene).is_err());
}

#[test]
fn too_many_views_fail_to_compile() {
    let buffers = SharedBuffers::new(256);
    let mut scene: Scene<[f32; 2], View> = Scene::new(0);
    for v in 1..MAX_VIEWS as u32 {
        scene.set_view(v);
    }
    let compiled = buffers.prepare(&scene).unwrap();
    assert_eq!(MAX_VIEWS as usize, compiled.commands.len());
    assert_eq!(
        RenderCommand::View { command: 19, offset: 19 * 256 },
        compiled.commands[19]
    );

    scene.set_view(99);
    assert!(buffers.prepare(&scene).is_err());
}

#[test]
fn index_overflow_alone_fails_to_compile() {
    // Outlines use 8 vertices but 10 indices: the index buffer runs out first.
    let buffers = SharedBuffers::new(256);
    let mut scene: Scene<[f32; 2], View> = Scene::new(0);
    for _ in 0..60_001 {
        scene.draw_rect([0.0, 0.0], [1.0, 1.0], Pixel::white(), thickness(1.0));
    }

    assert!(buffers.prepare(&scene).is_err());
}

#[test]
fn lost_or_outdated_targets_are_reconfigured() {
    assert_eq!(FrameRecovery::ReconfigureAndSkip, frame_recovery(SurfaceStatus::Lost));
    assert_eq!(FrameRecovery::ReconfigureAndSkip, frame_recovery(SurfaceStatus::Outdated));
    assert_eq!(FrameRecovery::Skip, frame_recovery(SurfaceStatus::OutOfMemory));
    assert_eq!(FrameRecovery::Skip, frame_recovery(SurfaceStatus::Timeout));
}
