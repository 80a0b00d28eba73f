use water_render::gpu::{DrawMode, GpuCall, GpuLog, MatrixSource, Stage};
use water_render::shader::{
    flat_fragment_source, flat_vertex_source, mesh_fragment_source, mesh_vertex_source,
    point_fragment_source, point_vertex_source, CompileOutcome, LinkOutcome, ShaderError,
    ShaderInit, ShaderKind, ShaderSystem,
};

fn ok_compile() -> CompileOutcome {
    CompileOutcome { created: true, status: Some(true), info_log: None }
}

fn ok_link(names: &[&str]) -> LinkOutcome {
    LinkOutcome {
        created: true,
        status: Some(true),
        info_log: None,
        active_uniforms: names.iter().map(|n| n.to_string()).collect(),
    }
}

fn ok_init() -> ShaderInit {
    ShaderInit {
        vertex: ok_compile(),
        fragment: ok_compile(),
        link: ok_link(&["model", "view", "perspective"]),
    }
}

fn fresh_system() -> (GpuLog, ShaderSystem) {
    let mut gpu = GpuLog::new();
    let sys = ShaderSystem::new(&mut gpu, ok_init(), ok_init(), ok_init()).unwrap();
    (gpu, sys)
}

#[test]
fn system_creates_every_kind() {
    let (gpu, sys) = fresh_system();
    assert_eq!(sys.get_shader(&ShaderKind::Mesh).unwrap().program, 2);
    assert_eq!(sys.get_shader(&ShaderKind::Flat).unwrap().program, 5);
    assert_eq!(sys.get_shader(&ShaderKind::Point).unwrap().program, 8);
    let calls = gpu.calls();
    assert_eq!(calls.len(), 10);
    assert_eq!(
        calls[0],
        GpuCall::CompileShader {
            id: 0,
            stage: Stage::Vertex,
            source: mesh_vertex_source().to_string(),
        }
    );
    assert_eq!(
        calls[1],
        GpuCall::CompileShader {
            id: 1,
            stage: Stage::Fragment,
            source: mesh_fragment_source().to_string(),
        }
    );
    assert_eq!(calls[2], GpuCall::LinkProgram { program: 2, vertex: 0, fragment: 1 });
    assert_eq!(
        calls[3],
        GpuCall::CompileShader {
            id: 3,
            stage: Stage::Vertex,
            source: flat_vertex_source().to_string(),
        }
    );
    assert_eq!(
        calls[4],
        GpuCall::CompileShader {
            id: 4,
            stage: Stage::Fragment,
            source: flat_fragment_source().to_string(),
        }
    );
    assert_eq!(calls[5], GpuCall::LinkProgram { program: 5, vertex: 3, fragment: 4 });
    assert_eq!(
        calls[6],
        GpuCall::CompileShader {
            id: 6,
            stage: Stage::Vertex,
            source: point_vertex_source().to_string(),
        }
    );
    assert_eq!(
        calls[7],
        GpuCall::CompileShader {
            id: 7,
            stage: Stage::Fragment,
            source: point_fragment_source().to_string(),
        }
    );
    assert_eq!(calls[8], GpuCall::LinkProgram { program: 8, vertex: 6, fragment: 7 });
    // The default mesh program is bound once, at the end of creation.
    assert_eq!(calls[9], GpuCall::UseProgram { program: 2 });
}

#[test]
fn use_program_same_kind_twice_binds_once() {
    let (mut gpu, mut sys) = fresh_system();
    let before = gpu.len();
    sys.use_program(&mut gpu, ShaderKind::Point);
    assert_eq!(gpu.len(), before + 1);
    assert_eq!(gpu.calls()[before], GpuCall::UseProgram { program: 8 });
    sys.use_program(&mut gpu, ShaderKind::Point);
    assert_eq!(gpu.len(), before + 1, "repeat bind of the active kind must be elided");
}

#[test]
fn use_program_initial_mesh_is_elided() {
    let (mut gpu, mut sys) = fresh_system();
    let before = gpu.len();
    sys.use_program(&mut gpu, ShaderKind::Mesh);
    assert_eq!(gpu.len(), before, "mesh is the recorded active kind after creation");
}

#[test]
fn use_program_switch_binds_exactly_once() {
    let (mut gpu, mut sys) = fresh_system();
    let before = gpu.len();
    sys.use_program(&mut gpu, ShaderKind::Flat);
    assert_eq!(gpu.len(), before + 1);
    assert_eq!(gpu.calls()[before], GpuCall::UseProgram { program: 5 });
    // The recorded active kind became Flat: binding it again is a no-op.
    sys.use_program(&mut gpu, ShaderKind::Flat);
    assert_eq!(gpu.len(), before + 1);
}

#[test]
fn uniform_location_is_cached_after_first_lookup() {
    let (mut gpu, mut sys) = fresh_system();
    let before = gpu.len();
    let first = sys.point_shader.get_uniform_location(&mut gpu, "model").unwrap();
    assert_eq!(gpu.len(), before + 1, "first lookup issues one location query");
    assert_eq!(
        gpu.calls()[before],
        GpuCall::QueryUniform { program: 8, name: "model".to_string(), handle: first }
    );
    let second = sys.point_shader.get_uniform_location(&mut gpu, "model").unwrap();
    assert_eq!(second, first, "second lookup returns the identical cached handle");
    assert_eq!(gpu.len(), before + 1, "second lookup issues no device call");
}

#[test]
fn distinct_uniforms_get_distinct_handles() {
    let (mut gpu, mut sys) = fresh_system();
    let model = sys.mesh_shader.get_uniform_location(&mut gpu, "model").unwrap();
    let view = sys.mesh_shader.get_uniform_location(&mut gpu, "view").unwrap();
    assert_ne!(model, view);
}

#[test]
fn missing_uniform_reports_the_name() {
    let (mut gpu, mut sys) = fresh_system();
    let before = gpu.len();
    let r = sys.mesh_shader.get_uniform_location(&mut gpu, "clipPlane");
    assert_eq!(r, Err(ShaderError::MissingUniform { name: "clipPlane".to_string() }));
    assert_eq!(gpu.len(), before, "a failed lookup records no device call");
}

#[test]
fn vertex_compile_failure_carries_stage_and_log() {
    let mut gpu = GpuLog::new();
    let bad = ShaderInit {
        vertex: CompileOutcome {
            created: true,
            status: Some(false),
            info_log: Some("bad token".to_string()),
        },
        fragment: ok_compile(),
        link: ok_link(&["model"]),
    };
    let r = ShaderSystem::new(&mut gpu, bad, ok_init(), ok_init());
    assert_eq!(
        r.err().unwrap(),
        ShaderError::Compile { stage: Stage::Vertex, log: "bad token".to_string() }
    );
    // Only the failed vertex compile was recorded; creation stopped there.
    assert_eq!(gpu.len(), 1);
}

#[test]
fn compile_failure_without_object_uses_fallback_text() {
    let mut gpu = GpuLog::new();
    let bad = ShaderInit {
        vertex: CompileOutcome { created: false, status: None, info_log: None },
        fragment: ok_compile(),
        link: ok_link(&["model"]),
    };
    let r = ShaderSystem::new(&mut gpu, ok_init(), bad, ok_init());
    assert_eq!(
        r.err().unwrap(),
        ShaderError::Compile { stage: Stage::Vertex, log: "Could not create shader".to_string() }
    );
}

#[test]
fn compile_failure_without_log_uses_fallback_text() {
    let mut gpu = GpuLog::new();
    let bad = ShaderInit {
        vertex: ok_compile(),
        fragment: CompileOutcome { created: true, status: None, info_log: None },
        link: ok_link(&["model"]),
    };
    let r = ShaderSystem::new(&mut gpu, ok_init(), ok_init(), bad);
    assert_eq!(
        r.err().unwrap(),
        ShaderError::Compile {
            stage: Stage::Fragment,
            log: "Unknown error creating shader".to_string(),
        }
    );
}

#[test]
fn link_failure_carries_log() {
    let mut gpu = GpuLog::new();
    let bad = ShaderInit {
        vertex: ok_compile(),
        fragment: ok_compile(),
        link: LinkOutcome {
            created: true,
            status: Some(false),
            info_log: Some("varying mismatch".to_string()),
            active_uniforms: Vec::new(),
        },
    };
    let r = ShaderSystem::new(&mut gpu, bad, ok_init(), ok_init());
    assert_eq!(r.err().unwrap(), ShaderError::Link { log: "varying mismatch".to_string() });
}

#[test]
fn link_failure_without_object_uses_fallback_text() {
    let mut gpu = GpuLog::new();
    let bad = ShaderInit {
        vertex: ok_compile(),
        fragment: ok_compile(),
        link: LinkOutcome {
            created: false,
            status: None,
            info_log: None,
            active_uniforms: Vec::new(),
        },
    };
    let r = ShaderSystem::new(&mut gpu, bad, ok_init(), ok_init());
    assert_eq!(
        r.err().unwrap(),
        ShaderError::Link { log: "Unable to create shader program".to_string() }
    );
}

#[test]
fn sources_declare_the_three_matrix_uniforms() {
    for source in [mesh_vertex_source(), flat_vertex_source(), point_vertex_source()] {
        assert!(source.contains("uniform mat4 model;"));
        assert!(source.contains("uniform mat4 view;"));
        assert!(source.contains("uniform mat4 perspective;"));
        assert!(source.contains("attribute vec3 position;"));
    }
    let _ = (mesh_fragment_source(), flat_fragment_source(), point_fragment_source());
}

// A matrix-source payload comparison used by the executor side.
#[test]
fn matrix_sources_are_distinct() {
    assert_ne!(MatrixSource::View, MatrixSource::ViewFlippedY);
    assert_ne!(DrawMode::Points, DrawMode::Triangles);
}
