use water_render::gpu::{DrawMode, GpuCall, GpuLog, MatrixSource};
use water_render::render::{Drawable, LineRenderOpts, Lines, Mesh, Points, Renderer};
use water_render::shader::{
    CompileOutcome, LinkOutcome, ShaderError, ShaderInit, ShaderKind,
};

fn ok_init_with(names: &[&str]) -> ShaderInit {
    ShaderInit {
        vertex: CompileOutcome { created: true, status: Some(true), info_log: None },
        fragment: CompileOutcome { created: true, status: Some(true), info_log: None },
        link: LinkOutcome {
            created: true,
            status: Some(true),
            info_log: None,
            active_uniforms: names.iter().map(|n| n.to_string()).collect(),
        },
    }
}

fn ok_init() -> ShaderInit {
    ok_init_with(&["model", "view", "perspective"])
}

fn fresh_renderer() -> (GpuLog, Renderer) {
    let mut gpu = GpuLog::new();
    let renderer = Renderer::new(&mut gpu, ok_init(), ok_init(), ok_init()).unwrap();
    (gpu, renderer)
}

fn points(len: usize) -> Drawable {
    Drawable::Points(Points { points_len: len, opts: LineRenderOpts { flip_camera_y: false } })
}

fn mesh(len: usize) -> Drawable {
    Drawable::Mesh(Mesh { vertices_len: len, opts: LineRenderOpts { flip_camera_y: false } })
}

fn binds_in(calls: &[GpuCall]) -> Vec<usize> {
    calls
        .iter()
        .filter_map(|c| match c {
            GpuCall::UseProgram { program } => Some(*program),
            _ => None,
        })
        .collect()
}

// Program handles assigned at creation: mesh 2, flat 5, point 8.
const MESH_PROGRAM: usize = 2;
const FLAT_PROGRAM: usize = 5;
const POINT_PROGRAM: usize = 8;

#[test]
fn alternating_kinds_bind_every_step() {
    let (mut gpu, mut renderer) = fresh_renderer();
    let before = gpu.len();
    let drawables = vec![points(9), mesh(9), points(9)];
    renderer.render_frame(&mut gpu, &drawables).unwrap();
    let binds = binds_in(&gpu.calls()[before..]);
    assert_eq!(
        binds,
        vec![POINT_PROGRAM, MESH_PROGRAM, POINT_PROGRAM],
        "kind alternates each step, so every dispatch binds"
    );
}

#[test]
fn consecutive_same_kind_binds_once() {
    let (mut gpu, mut renderer) = fresh_renderer();
    let before = gpu.len();
    let drawables = vec![points(3), points(6), points(9)];
    renderer.render_frame(&mut gpu, &drawables).unwrap();
    let binds = binds_in(&gpu.calls()[before..]);
    assert_eq!(binds, vec![POINT_PROGRAM], "only the first of three point drawables binds");
}

#[test]
fn mesh_drawable_after_creation_needs_no_bind() {
    let (mut gpu, mut renderer) = fresh_renderer();
    let before = gpu.len();
    let drawables = vec![mesh(9)];
    renderer.render_frame(&mut gpu, &drawables).unwrap();
    let binds = binds_in(&gpu.calls()[before..]);
    assert_eq!(binds, Vec::<usize>::new(), "mesh is already the active kind after creation");
}

#[test]
fn first_point_dispatch_records_the_exact_sequence() {
    let (mut gpu, mut renderer) = fresh_renderer();
    let before = gpu.len();
    let drawables = vec![points(9)];
    renderer.render_frame(&mut gpu, &drawables).unwrap();
    let calls = &gpu.calls()[before..];
    let attrib = before + 1;
    let model_h = before + 4;
    let view_h = before + 5;
    let perspective_h = before + 6;
    assert_eq!(
        calls,
        &[
            GpuCall::UseProgram { program: POINT_PROGRAM },
            GpuCall::QueryAttrib {
                program: POINT_PROGRAM,
                name: "position".to_string(),
                attrib,
            },
            GpuCall::EnableAttrib { attrib },
            GpuCall::BufferFloatData { attrib, components: 3, count: 9 },
            GpuCall::QueryUniform {
                program: POINT_PROGRAM,
                name: "model".to_string(),
                handle: model_h,
            },
            GpuCall::QueryUniform {
                program: POINT_PROGRAM,
                name: "view".to_string(),
                handle: view_h,
            },
            GpuCall::QueryUniform {
                program: POINT_PROGRAM,
                name: "perspective".to_string(),
                handle: perspective_h,
            },
            GpuCall::SetMatrixUniform { handle: view_h, source: MatrixSource::View },
            GpuCall::SetMatrixUniform { handle: model_h, source: MatrixSource::Model },
            GpuCall::SetMatrixUniform {
                handle: perspective_h,
                source: MatrixSource::Projection,
            },
            GpuCall::DrawArrays { mode: DrawMode::Points, count: 3 },
        ]
    );
}

#[test]
fn second_dispatch_of_same_kind_reuses_cached_uniforms() {
    let (mut gpu, mut renderer) = fresh_renderer();
    renderer.render_frame(&mut gpu, &vec![points(9)]).unwrap();
    let before = gpu.len();
    renderer.render_frame(&mut gpu, &vec![points(9)]).unwrap();
    let calls = &gpu.calls()[before..];
    // No bind (kind unchanged) and no uniform queries (all cached): only the
    // attribute upload and the render tail.
    assert_eq!(calls.len(), 7);
    assert!(calls.iter().all(|c| !matches!(c, GpuCall::UseProgram { .. })));
    assert!(calls.iter().all(|c| !matches!(c, GpuCall::QueryUniform { .. })));
    assert!(matches!(calls[0], GpuCall::QueryAttrib { .. }));
    assert!(matches!(calls[6], GpuCall::DrawArrays { mode: DrawMode::Points, count: 3 }));
}

#[test]
fn flipped_camera_uses_flipped_view_matrix() {
    let (mut gpu, mut renderer) = fresh_renderer();
    let d = Drawable::Points(Points {
        points_len: 6,
        opts: LineRenderOpts { flip_camera_y: true },
    });
    renderer.render_frame(&mut gpu, &vec![d]).unwrap();
    let flipped = gpu.calls().iter().filter(
        |c| matches!(c, GpuCall::SetMatrixUniform { source: MatrixSource::ViewFlippedY, .. }),
    );
    assert_eq!(flipped.count(), 1);
}

#[test]
fn lines_draw_with_line_topology_and_flat_program() {
    let (mut gpu, mut renderer) = fresh_renderer();
    let before = gpu.len();
    let d = Drawable::Lines(Lines { points_len: 12, opts: LineRenderOpts { flip_camera_y: false } });
    renderer.render_frame(&mut gpu, &vec![d]).unwrap();
    let calls = &gpu.calls()[before..];
    assert_eq!(calls[0], GpuCall::UseProgram { program: FLAT_PROGRAM });
    assert_eq!(*calls.last().unwrap(), GpuCall::DrawArrays { mode: DrawMode::Lines, count: 4 });
}

#[test]
fn vertex_count_is_component_count_over_three() {
    let (mut gpu, mut renderer) = fresh_renderer();
    renderer.render_frame(&mut gpu, &vec![mesh(30)]).unwrap();
    let draws: Vec<&GpuCall> = gpu
        .calls()
        .iter()
        .filter(|c| matches!(c, GpuCall::DrawArrays { .. }))
        .collect();
    assert_eq!(*draws[0], GpuCall::DrawArrays { mode: DrawMode::Triangles, count: 10 });
}

#[test]
fn work_calls_only_run_while_their_program_is_bound() {
    // Walk the recorded frame and track the bound program as the device
    // would: every draw call must see its own kind's program bound.
    let (mut gpu, mut renderer) = fresh_renderer();
    let drawables = vec![points(9), mesh(9), points(9), Drawable::Lines(Lines {
        points_len: 9,
        opts: LineRenderOpts { flip_camera_y: false },
    })];
    let expected = vec![POINT_PROGRAM, MESH_PROGRAM, POINT_PROGRAM, FLAT_PROGRAM];
    let before = gpu.len();
    renderer.render_frame(&mut gpu, &drawables).unwrap();
    let mut bound = Some(MESH_PROGRAM);
    let mut draw_idx = 0;
    for call in &gpu.calls()[before..] {
        match call {
            GpuCall::UseProgram { program } => bound = Some(*program),
            GpuCall::DrawArrays { .. } => {
                assert_eq!(bound, Some(expected[draw_idx]));
                draw_idx += 1;
            },
            _ => {},
        }
    }
    assert_eq!(draw_idx, 4);
}

#[test]
fn frame_fails_with_missing_uniform_when_program_lacks_one() {
    let mut gpu = GpuLog::new();
    // The point program exports no "perspective": the first two names resolve,
    // the third fails.
    let mut renderer = Renderer::new(
        &mut gpu,
        ok_init(),
        ok_init(),
        ok_init_with(&["model", "view"]),
    )
    .unwrap();
    let r = renderer.render_frame(&mut gpu, &vec![points(9)]);
    assert_eq!(r, Err(ShaderError::MissingUniform { name: "perspective".to_string() }));
}

#[test]
fn empty_frame_records_nothing() {
    let (mut gpu, mut renderer) = fresh_renderer();
    let before = gpu.len();
    renderer.render_frame(&mut gpu, &Vec::new()).unwrap();
    assert_eq!(gpu.len(), before);
}

#[test]
fn required_shader_kind_matches_variant() {
    assert_eq!(points(3).required_shader_kind(), ShaderKind::Point);
    assert_eq!(mesh(3).required_shader_kind(), ShaderKind::Mesh);
    let lines = Drawable::Lines(Lines { points_len: 3, opts: LineRenderOpts { flip_camera_y: false } });
    assert_eq!(lines.required_shader_kind(), ShaderKind::Flat);
    assert_eq!(Points::shader_kind(), ShaderKind::Point);
    assert_eq!(Mesh::shader_kind(), ShaderKind::Mesh);
    assert_eq!(Lines::shader_kind(), ShaderKind::Flat);
}
