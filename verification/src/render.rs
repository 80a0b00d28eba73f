//! Per-style drawables and the frame dispatcher.
//!
//! Every drawable kind follows the same dispatch sequence: activate its
//! required program through the shader system (a no-op when that program is
//! already bound), upload its vertex attributes, then resolve its uniforms
//! and issue the draw call.  The ordering is load-bearing — attribute and
//! uniform locations are only valid against the bound program — and is
//! proved here: every recorded call of a dispatch other than the bind itself
//! runs while the required kind's program is bound.

use crate::gpu::CallView;
use crate::gpu::DrawMode;
use crate::gpu::GpuLog;
use crate::gpu::MatrixSource;
use crate::gpu::device_bound;
use crate::gpu::lemma_device_bound_stable;
use crate::shader::Shader;
use crate::shader::ShaderError;
use crate::shader::ShaderInit;
use crate::shader::ShaderKind;
use crate::shader::ShaderSystem;
use crate::shader::create_err_matches;
use crate::shader::init_ok;
use crate::shader::system_create_calls;
use vstd::prelude::*;

verus! {

/// The uniform names every drawable resolves, in probe order.
pub open spec fn uniform_model() -> Seq<char> {
    "model"@
}

pub open spec fn uniform_view() -> Seq<char> {
    "view"@
}

pub open spec fn uniform_perspective() -> Seq<char> {
    "perspective"@
}

/// Which view matrix a drawable asks for: the reflection passes flip the
/// camera's y axis.
pub open spec fn view_source(flip_camera_y: bool) -> MatrixSource {
    if flip_camera_y {
        MatrixSource::ViewFlippedY
    } else {
        MatrixSource::View
    }
}

/// The location query a uniform lookup records: none on a cache hit, exactly
/// one on a miss.
pub open spec fn maybe_query(s0: Shader, s1: Shader, name: Seq<char>) -> Seq<CallView> {
    if s0.is_cached(name) {
        seq![]
    } else {
        seq![(CallView::QueryUniform { program: s0.program, name, handle: s1.cached_handle(name) })]
    }
}

/// The calls that end a successful render step: the three matrix writes in
/// the fixed order view, model, perspective, then the draw call with the
/// vertex count derived from the buffer length at three components per
/// vertex.
pub open spec fn render_tail(s1: Shader, flip_camera_y: bool, mode: DrawMode, len: usize) -> Seq<
    CallView,
> {
    seq![
        (CallView::SetMatrixUniform {
            handle: s1.cached_handle(uniform_view()),
            source: view_source(flip_camera_y),
        }),
        (CallView::SetMatrixUniform {
            handle: s1.cached_handle(uniform_model()),
            source: MatrixSource::Model,
        }),
        (CallView::SetMatrixUniform {
            handle: s1.cached_handle(uniform_perspective()),
            source: MatrixSource::Projection,
        }),
        (CallView::DrawArrays { mode, count: (len / 3) as usize }),
    ]
}

/// How a render step may change a shader: the program and the exported names
/// never change, previously cached handles are kept, and the cache grows by
/// exactly the resolved `names`.
pub open spec fn cache_extended(s0: Shader, s1: Shader, names: Set<Seq<char>>) -> bool {
    &&& s1.program == s0.program
    &&& s1.uniform_names == s0.uniform_names
    &&& s1.wf()
    &&& forall|n: Seq<char>|
        s0.is_cached(n) ==> #[trigger] s1.is_cached(n) && s1.cached_handle(n) == s0.cached_handle(n)
    &&& forall|n: Seq<char>| #[trigger] s1.is_cached(n) <==> (s0.is_cached(n) || names.contains(n))
}

proof fn lemma_cache_extended_intro(s0: Shader, s1: Shader, names: Set<Seq<char>>)
    requires
        s1.program == s0.program,
        s1.uniform_names == s0.uniform_names,
        s1.wf(),
        forall|n: Seq<char>|
            s0.is_cached(n) ==> #[trigger] s1.is_cached(n) && s1.cached_handle(n)
                == s0.cached_handle(n),
        forall|n: Seq<char>| #[trigger] s1.is_cached(n) <==> (s0.is_cached(n) || names.contains(n)),
    ensures
        cache_extended(s0, s1, names),
{
}

pub open spec fn missing_err(r: Result<(), ShaderError>, name: Seq<char>) -> bool {
    match r {
        Result::Err(ShaderError::MissingUniform { name: n }) => n@ == name,
        _ => false,
    }
}

/// Everything a render step does, given the shader before (`s0`) and after
/// (`s1`) and the device record before (`g0`) and after (`g1`): it succeeds
/// exactly when the program exports all three matrix uniforms, resolves them
/// in probe order with one recorded query per previously unresolved name,
/// and on success writes the three matrices and issues the draw call; it
/// fails on the first name the program does not export, carrying that name.
pub open spec fn render_post(
    s0: Shader,
    s1: Shader,
    g0: Seq<CallView>,
    g1: Seq<CallView>,
    flip_camera_y: bool,
    mode: DrawMode,
    len: usize,
    r: Result<(), ShaderError>,
) -> bool {
    &&& ((r is Ok) <==> (s0.has_uniform(uniform_model()) && s0.has_uniform(uniform_view())
        && s0.has_uniform(uniform_perspective())))
    &&& (!s0.has_uniform(uniform_model()) ==> s1 == s0 && g1 == g0 && missing_err(
        r,
        uniform_model(),
    ))
    &&& ((s0.has_uniform(uniform_model()) && !s0.has_uniform(uniform_view())) ==> cache_extended(
        s0,
        s1,
        set![uniform_model()],
    ) && g1 == g0 + maybe_query(s0, s1, uniform_model()) && missing_err(r, uniform_view()))
    &&& ((s0.has_uniform(uniform_model()) && s0.has_uniform(uniform_view()) && !s0.has_uniform(
        uniform_perspective(),
    )) ==> cache_extended(s0, s1, set![uniform_model(), uniform_view()]) && g1 == g0 + maybe_query(
        s0,
        s1,
        uniform_model(),
    ) + maybe_query(s0, s1, uniform_view()) && missing_err(r, uniform_perspective()))
    &&& ((r is Ok) ==> cache_extended(
        s0,
        s1,
        set![uniform_model(), uniform_view(), uniform_perspective()],
    ) && g1 == g0 + maybe_query(s0, s1, uniform_model()) + maybe_query(s0, s1, uniform_view())
        + maybe_query(s0, s1, uniform_perspective()) + render_tail(s1, flip_camera_y, mode, len))
}

/// Resolve the three matrix uniforms in probe order.  On success the
/// returned handles are the cached ones for model, view and perspective, in
/// that order.
#[verifier::rlimit(100)]
#[verifier::spinoff_prover]
fn resolve_uniforms(shader: &mut Shader, gpu: &mut GpuLog) -> (r: Result<
    (usize, usize, usize),
    ShaderError,
>)
    requires
        old(shader).wf(),
    ensures
        final(shader).wf(),
        (r is Ok) <==> (old(shader).has_uniform(uniform_model()) && old(shader).has_uniform(
            uniform_view(),
        ) && old(shader).has_uniform(uniform_perspective())),
        (!old(shader).has_uniform(uniform_model()) ==> *final(shader) == *old(shader) && final(gpu)@
            == old(gpu)@ && (r matches Err(ShaderError::MissingUniform { name }) && name@
            == uniform_model())),
        ((old(shader).has_uniform(uniform_model()) && !old(shader).has_uniform(uniform_view()))
            ==> cache_extended(*old(shader), *final(shader), set![uniform_model()]) && final(gpu)@
            == old(gpu)@ + maybe_query(*old(shader), *final(shader), uniform_model()) && (
        r matches Err(ShaderError::MissingUniform { name }) && name@ == uniform_view())),
        ((old(shader).has_uniform(uniform_model()) && old(shader).has_uniform(uniform_view())
            && !old(shader).has_uniform(uniform_perspective())) ==> cache_extended(
            *old(shader),
            *final(shader),
            set![uniform_model(), uniform_view()],
        ) && final(gpu)@ == old(gpu)@ + maybe_query(*old(shader), *final(shader), uniform_model())
            + maybe_query(*old(shader), *final(shader), uniform_view()) && (r matches Err(
            ShaderError::MissingUniform { name },
        ) && name@ == uniform_perspective())),
        ((r is Ok) ==> cache_extended(
            *old(shader),
            *final(shader),
            set![uniform_model(), uniform_view(), uniform_perspective()],
        ) && final(gpu)@ == old(gpu)@ + maybe_query(*old(shader), *final(shader), uniform_model())
            + maybe_query(*old(shader), *final(shader), uniform_view()) + maybe_query(
            *old(shader),
            *final(shader),
            uniform_perspective(),
        ) && (r matches Ok(h) && h.0 == final(shader).cached_handle(uniform_model()) && h.1
            == final(shader).cached_handle(uniform_view()) && h.2 == final(shader).cached_handle(
            uniform_perspective(),
        ))),
{
    let ghost s0 = *shader;
    let ghost g0 = gpu@;
    proof {
        reveal_strlit("model");
        reveal_strlit("view");
        reveal_strlit("perspective");
        assert(uniform_model().len() == 5);
        assert(uniform_view().len() == 4);
        assert(uniform_perspective().len() == 11);
        assert(uniform_model() != uniform_view());
        assert(uniform_model() != uniform_perspective());
        assert(uniform_view() != uniform_perspective());
    }
    let model_uni = match shader.get_uniform_location(gpu, "model") {
        Ok(h) => h,
        Err(e) => {
            return Err(e);
        },
    };
    let ghost sa = *shader;
    let ghost ga = gpu@;
    proof {
        assert(sa.is_cached(uniform_model()));
        assert(sa.cached_handle(uniform_model()) == model_uni);
        assert(ga =~= g0 + maybe_query(s0, sa, uniform_model()));
    }
    let view_uni = match shader.get_uniform_location(gpu, "view") {
        Ok(h) => h,
        Err(e) => {
            proof {
                assert forall|n: Seq<char>| #[trigger] sa.is_cached(n) implies (s0.is_cached(n)
                    || set![uniform_model()].contains(n)) by {}
                assert forall|n: Seq<char>|
                    (s0.is_cached(n) || set![uniform_model()].contains(n)) implies #[trigger] sa
                    .is_cached(n) by {
                    if !s0.is_cached(n) {
                        assert(n == uniform_model());
                        assert(sa.is_cached(uniform_model()));
                    }
                }
                lemma_cache_extended_intro(s0, sa, set![uniform_model()]);
            }
            return Err(e);
        },
    };
    let ghost sb = *shader;
    let ghost gb = gpu@;
    proof {
        assert(sa.is_cached(uniform_model()));
        assert(sb.is_cached(uniform_model()));
        assert(sb.cached_handle(uniform_model()) == sa.cached_handle(uniform_model()));
        assert(sb.is_cached(uniform_view()));
        assert(sb.cached_handle(uniform_view()) == view_uni);
        assert(sa.is_cached(uniform_view()) == s0.is_cached(uniform_view()));
        assert(gb =~= ga + maybe_query(sa, sb, uniform_view()));
        assert(maybe_query(sa, sb, uniform_view()) =~= maybe_query(s0, sb, uniform_view()));
        assert(maybe_query(s0, sb, uniform_model()) =~= maybe_query(s0, sa, uniform_model())) by {
            if !s0.is_cached(uniform_model()) {
                assert(sb.cached_handle(uniform_model()) == sa.cached_handle(uniform_model()));
            }
        }
        assert(gb =~= g0 + maybe_query(s0, sb, uniform_model()) + maybe_query(
            s0,
            sb,
            uniform_view(),
        ));
    }
    let perspective_uni = match shader.get_uniform_location(gpu, "perspective") {
        Ok(h) => h,
        Err(e) => {
            proof {
                assert forall|n: Seq<char>| #[trigger] sb.is_cached(n) implies (s0.is_cached(n)
                    || set![uniform_model(), uniform_view()].contains(n)) by {
                    assert(sa.is_cached(n) ==> s0.is_cached(n) || n == uniform_model());
                }
                assert forall|n: Seq<char>|
                    (s0.is_cached(n) || set![uniform_model(), uniform_view()].contains(
                        n,
                    )) implies #[trigger] sb.is_cached(n) by {
                    if !s0.is_cached(n) {
                        if n == uniform_model() {
                            assert(sa.is_cached(uniform_model()));
                            assert(sb.is_cached(uniform_model()));
                        } else {
                            assert(n == uniform_view());
                            assert(sb.is_cached(uniform_view()));
                        }
                    }
                }
                assert forall|n: Seq<char>|
                    s0.is_cached(n) implies #[trigger] sb.is_cached(n) && sb.cached_handle(n)
                    == s0.cached_handle(n) by {
                    assert(sa.is_cached(n));
                    assert(sa.cached_handle(n) == s0.cached_handle(n));
                    assert(sb.is_cached(n));
                    assert(sb.cached_handle(n) == sa.cached_handle(n));
                }
                lemma_cache_extended_intro(s0, sb, set![uniform_model(), uniform_view()]);
            }
            return Err(e);
        },
    };
    let ghost sc = *shader;
    let ghost gc = gpu@;
    proof {
        assert(sb.is_cached(uniform_model()));
        assert(sc.is_cached(uniform_model()));
        assert(sc.cached_handle(uniform_model()) == sb.cached_handle(uniform_model()));
        assert(sb.is_cached(uniform_view()));
        assert(sc.is_cached(uniform_view()));
        assert(sc.cached_handle(uniform_view()) == sb.cached_handle(uniform_view()));
        assert(sc.is_cached(uniform_perspective()));
        assert(sc.cached_handle(uniform_perspective()) == perspective_uni);
        assert(sa.is_cached(uniform_perspective()) == s0.is_cached(uniform_perspective()));
        assert(sb.is_cached(uniform_perspective()) == s0.is_cached(uniform_perspective()));
        assert forall|n: Seq<char>| #[trigger] sc.is_cached(n) implies (s0.is_cached(n) || set![
            uniform_model(),
            uniform_view(),
            uniform_perspective(),
        ].contains(n)) by {
            assert(sb.is_cached(n) ==> sa.is_cached(n) || n == uniform_view());
            assert(sa.is_cached(n) ==> s0.is_cached(n) || n == uniform_model());
        }
        assert forall|n: Seq<char>|
            (s0.is_cached(n) || set![
                uniform_model(),
                uniform_view(),
                uniform_perspective(),
            ].contains(n)) implies #[trigger] sc.is_cached(n) by {
            if !s0.is_cached(n) {
                if n == uniform_model() {
                    assert(sc.is_cached(uniform_model()));
                } else if n == uniform_view() {
                    assert(sc.is_cached(uniform_view()));
                } else {
                    assert(n == uniform_perspective());
                    assert(sc.is_cached(uniform_perspective()));
                }
            }
        }
        assert forall|n: Seq<char>|
            s0.is_cached(n) implies #[trigger] sc.is_cached(n) && sc.cached_handle(n)
            == s0.cached_handle(n) by {
            assert(sa.is_cached(n));
            assert(sa.cached_handle(n) == s0.cached_handle(n));
            assert(sb.is_cached(n));
            assert(sb.cached_handle(n) == sa.cached_handle(n));
            assert(sc.is_cached(n));
            assert(sc.cached_handle(n) == sb.cached_handle(n));
        }
        lemma_cache_extended_intro(
            s0,
            sc,
            set![uniform_model(), uniform_view(), uniform_perspective()],
        );
        assert(gc =~= gb + maybe_query(sb, sc, uniform_perspective()));
        assert(maybe_query(sb, sc, uniform_perspective()) =~= maybe_query(
            s0,
            sc,
            uniform_perspective(),
        ));
        assert(maybe_query(s0, sc, uniform_model()) =~= maybe_query(s0, sb, uniform_model())) by {
            if !s0.is_cached(uniform_model()) {
                assert(sc.cached_handle(uniform_model()) == sb.cached_handle(uniform_model()));
            }
        }
        assert(maybe_query(s0, sc, uniform_view()) =~= maybe_query(s0, sb, uniform_view())) by {
            if !s0.is_cached(uniform_view()) {
                assert(sc.cached_handle(uniform_view()) == sb.cached_handle(uniform_view()));
            }
        }
        assert(gc =~= g0 + maybe_query(s0, sc, uniform_model()) + maybe_query(
            s0,
            sc,
            uniform_view(),
        ) + maybe_query(s0, sc, uniform_perspective()));
    }
    Ok((model_uni, view_uni, perspective_uni))
}

/// Resolve the three matrix uniforms, write them, and issue the draw call.
/// The shared body of every drawable's render step.
#[verifier::rlimit(50)]
fn render_with(
    shader: &mut Shader,
    gpu: &mut GpuLog,
    flip_camera_y: bool,
    mode: DrawMode,
    data_len: usize,
) -> (r: Result<(), ShaderError>)
    requires
        old(shader).wf(),
    ensures
        render_post(
            *old(shader),
            *final(shader),
            old(gpu)@,
            final(gpu)@,
            flip_camera_y,
            mode,
            data_len,
            r,
        ),
{
    let ghost s0 = *shader;
    let ghost g0 = gpu@;
    let (model_uni, view_uni, perspective_uni) = match resolve_uniforms(shader, gpu) {
        Ok(h) => h,
        Err(e) => {
            return Err(e);
        },
    };
    let ghost s1 = *shader;
    let ghost gq = gpu@;
    gpu.record_set_matrix(
        view_uni,
        if flip_camera_y {
            MatrixSource::ViewFlippedY
        } else {
            MatrixSource::View
        },
    );
    gpu.record_set_matrix(model_uni, MatrixSource::Model);
    gpu.record_set_matrix(perspective_uni, MatrixSource::Projection);
    gpu.record_draw_arrays(mode, data_len / 3);
    proof {
        assert(gpu@ =~= gq + render_tail(s1, flip_camera_y, mode, data_len));
        assert(gpu@ =~= g0 + maybe_query(s0, s1, uniform_model()) + maybe_query(
            s0,
            s1,
            uniform_view(),
        ) + maybe_query(s0, s1, uniform_perspective()) + render_tail(
            s1,
            flip_camera_y,
            mode,
            data_len,
        ));
    }
    Ok(())
}

/// The calls one attribute upload records, starting at log position `start`:
/// resolve the position attribute, enable its array, upload `len` float
/// components at three per vertex.  Attribute locations are queried anew on
/// every upload; only uniform locations are cached.
pub open spec fn buffer_calls(program: usize, len: usize, start: int) -> Seq<CallView> {
    seq![
        (CallView::QueryAttrib { program, name: "position"@, attrib: start as usize }),
        (CallView::EnableAttrib { attrib: start as usize }),
        (CallView::BufferFloatData { attrib: start as usize, components: 3, count: len }),
    ]
}

/// Upload `len` float components of vertex data into the bound program's
/// position attribute.  The shared body of every drawable's attribute step.
fn buffer_position_data(shader: &Shader, gpu: &mut GpuLog, len: usize)
    ensures
        final(gpu)@ == old(gpu)@ + buffer_calls(shader.program, len, old(gpu)@.len() as int),
{
    let ghost g0 = gpu@;
    let pos_attrib = gpu.record_query_attrib(shader.program, "position");
    gpu.record_enable_attrib(pos_attrib);
    gpu.record_buffer_f32(pos_attrib, 3, len);
    proof {
        assert(gpu@ =~= g0 + buffer_calls(shader.program, len, g0.len() as int));
    }
}

/// Per-drawable render options: where the drawable sits (a floating-point
/// position offset owned by the host, from which the executor builds the
/// model matrix), its clip plane (likewise host-owned), and which view
/// variant the camera provides.
pub struct LineRenderOpts {
    /// Render with the y-flipped view matrix, for reflection passes.
    pub flip_camera_y: bool,
}

/// A point cloud: `points_len` float components, three per vertex, borrowed
/// from the simulation for the duration of one dispatch.
pub struct Points {
    pub points_len: usize,
    pub opts: LineRenderOpts,
}

/// A triangle mesh, such as the generated water or ground surface.
pub struct Mesh {
    pub vertices_len: usize,
    pub opts: LineRenderOpts,
}

/// A line set, drawn with the flat program.
pub struct Lines {
    pub points_len: usize,
    pub opts: LineRenderOpts,
}

impl Points {
    /// The program kind every point cloud renders with.
    pub fn shader_kind() -> (k: ShaderKind)
        ensures
            k == ShaderKind::Point,
    {
        ShaderKind::Point
    }

    /// Upload this drawable's vertex data into the bound program's attribute
    /// slots.  Must run only while the required program is bound; the
    /// dispatcher enforces that.
    pub fn buffer_attributes(&self, shader: &Shader, gpu: &mut GpuLog)
        ensures
            final(gpu)@ == old(gpu)@ + buffer_calls(
                shader.program,
                self.points_len,
                old(gpu)@.len() as int,
            ),
    {
        buffer_position_data(shader, gpu, self.points_len)
    }

    /// Resolve this drawable's uniforms through the shader's cache, write
    /// the view, model and perspective matrices, and issue the point draw
    /// call with one vertex per three buffered components.
    pub fn render(&self, shader: &mut Shader, gpu: &mut GpuLog) -> (r: Result<(), ShaderError>)
        requires
            old(shader).wf(),
        ensures
            render_post(
                *old(shader),
                *final(shader),
                old(gpu)@,
                final(gpu)@,
                self.opts.flip_camera_y,
                DrawMode::Points,
                self.points_len,
                r,
            ),
    {
        render_with(shader, gpu, self.opts.flip_camera_y, DrawMode::Points, self.points_len)
    }
}

impl Mesh {
    /// The program kind every mesh renders with.
    pub fn shader_kind() -> (k: ShaderKind)
        ensures
            k == ShaderKind::Mesh,
    {
        ShaderKind::Mesh
    }

    /// Upload this drawable's vertex data into the bound program's attribute
    /// slots.  Must run only while the required program is bound.
    pub fn buffer_attributes(&self, shader: &Shader, gpu: &mut GpuLog)
        ensures
            final(gpu)@ == old(gpu)@ + buffer_calls(
                shader.program,
                self.vertices_len,
                old(gpu)@.len() as int,
            ),
    {
        buffer_position_data(shader, gpu, self.vertices_len)
    }

    /// Resolve the uniforms, write the matrices, and issue the triangle draw
    /// call.
    pub fn render(&self, shader: &mut Shader, gpu: &mut GpuLog) -> (r: Result<(), ShaderError>)
        requires
            old(shader).wf(),
        ensures
            render_post(
                *old(shader),
                *final(shader),
                old(gpu)@,
                final(gpu)@,
                self.opts.flip_camera_y,
                DrawMode::Triangles,
                self.vertices_len,
                r,
            ),
    {
        render_with(shader, gpu, self.opts.flip_camera_y, DrawMode::Triangles, self.vertices_len)
    }
}

impl Lines {
    /// The program kind every line set renders with.
    pub fn shader_kind() -> (k: ShaderKind)
        ensures
            k == ShaderKind::Flat,
    {
        ShaderKind::Flat
    }

    /// Upload this drawable's vertex data into the bound program's attribute
    /// slots.  Must run only while the required program is bound.
    pub fn buffer_attributes(&self, shader: &Shader, gpu: &mut GpuLog)
        ensures
            final(gpu)@ == old(gpu)@ + buffer_calls(
                shader.program,
                self.points_len,
                old(gpu)@.len() as int,
            ),
    {
        buffer_position_data(shader, gpu, self.points_len)
    }

    /// Resolve the uniforms, write the matrices, and issue the line draw
    /// call.
    pub fn render(&self, shader: &mut Shader, gpu: &mut GpuLog) -> (r: Result<(), ShaderError>)
        requires
            old(shader).wf(),
        ensures
            render_post(
                *old(shader),
                *final(shader),
                old(gpu)@,
                final(gpu)@,
                self.opts.flip_camera_y,
                DrawMode::Lines,
                self.points_len,
                r,
            ),
    {
        render_with(shader, gpu, self.opts.flip_camera_y, DrawMode::Lines, self.points_len)
    }
}

/// One drawable of any style, as the renderer receives them: a tagged
/// variant in place of a type hierarchy.
pub enum Drawable {
    Points(Points),
    Mesh(Mesh),
    Lines(Lines),
}

impl Drawable {
    /// Which program kind this drawable requires.
    pub open spec fn spec_kind(&self) -> ShaderKind {
        match self {
            Drawable::Points(_) => ShaderKind::Point,
            Drawable::Mesh(_) => ShaderKind::Mesh,
            Drawable::Lines(_) => ShaderKind::Flat,
        }
    }

    /// Which primitive topology its draw call uses.
    pub open spec fn spec_mode(&self) -> DrawMode {
        match self {
            Drawable::Points(_) => DrawMode::Points,
            Drawable::Mesh(_) => DrawMode::Triangles,
            Drawable::Lines(_) => DrawMode::Lines,
        }
    }

    pub open spec fn spec_flip(&self) -> bool {
        match self {
            Drawable::Points(d) => d.opts.flip_camera_y,
            Drawable::Mesh(d) => d.opts.flip_camera_y,
            Drawable::Lines(d) => d.opts.flip_camera_y,
        }
    }

    /// How many float components its vertex buffer holds.
    pub open spec fn spec_len(&self) -> usize {
        match self {
            Drawable::Points(d) => d.points_len,
            Drawable::Mesh(d) => d.vertices_len,
            Drawable::Lines(d) => d.points_len,
        }
    }

    /// Which program kind this drawable requires.
    pub fn required_shader_kind(&self) -> (k: ShaderKind)
        ensures
            k == self.spec_kind(),
    {
        match self {
            Drawable::Points(_) => Points::shader_kind(),
            Drawable::Mesh(_) => Mesh::shader_kind(),
            Drawable::Lines(_) => Lines::shader_kind(),
        }
    }

    /// Upload this drawable's vertex data.  Must run only while the required
    /// program is bound.
    pub fn buffer_attributes(&self, shader: &Shader, gpu: &mut GpuLog)
        ensures
            final(gpu)@ == old(gpu)@ + buffer_calls(
                shader.program,
                self.spec_len(),
                old(gpu)@.len() as int,
            ),
    {
        match self {
            Drawable::Points(d) => d.buffer_attributes(shader, gpu),
            Drawable::Mesh(d) => d.buffer_attributes(shader, gpu),
            Drawable::Lines(d) => d.buffer_attributes(shader, gpu),
        }
    }

    /// Resolve this drawable's uniforms, write them, and issue its draw
    /// call.  Must run only while the required program is bound.
    pub fn render(&self, shader: &mut Shader, gpu: &mut GpuLog) -> (r: Result<(), ShaderError>)
        requires
            old(shader).wf(),
        ensures
            render_post(
                *old(shader),
                *final(shader),
                old(gpu)@,
                final(gpu)@,
                self.spec_flip(),
                self.spec_mode(),
                self.spec_len(),
                r,
            ),
    {
        match self {
            Drawable::Points(d) => d.render(shader, gpu),
            Drawable::Mesh(d) => d.render(shader, gpu),
            Drawable::Lines(d) => d.render(shader, gpu),
        }
    }
}

/// No call of `s` is a program bind.
pub open spec fn no_binds(s: Seq<CallView>) -> bool {
    forall|i: int| 0 <= i < s.len() ==> !(#[trigger] s[i] is UseProgram)
}

proof fn lemma_no_binds_concat(a: Seq<CallView>, b: Seq<CallView>)
    requires
        no_binds(a),
        no_binds(b),
    ensures
        no_binds(a + b),
{
    assert forall|i: int| 0 <= i < (a + b).len() implies !(#[trigger] (a + b)[i] is UseProgram) by {
        if i < a.len() {
            assert((a + b)[i] == a[i]);
        } else {
            assert((a + b)[i] == b[i - a.len()]);
        }
    }
}

proof fn lemma_extension_no_binds(g: Seq<CallView>, g0: Seq<CallView>, d: Seq<CallView>)
    requires
        g == g0 + d,
        no_binds(d),
    ensures
        forall|i: int| g0.len() <= i < g.len() ==> !(#[trigger] g[i] is UseProgram),
{
    assert forall|i: int| g0.len() <= i < g.len() implies !(#[trigger] g[i] is UseProgram) by {
        assert(g[i] == d[i - g0.len()]);
    }
}

/// Whether this drawable's required program exports every uniform its render
/// step resolves — the one structural condition a dispatch can fail on.
pub open spec fn can_render(sys: ShaderSystem, d: Drawable) -> bool {
    let s = sys.shader_for(d.spec_kind());
    s.has_uniform(uniform_model()) && s.has_uniform(uniform_view()) && s.has_uniform(
        uniform_perspective(),
    )
}

/// The bind a dispatch records before the drawable's own calls: none when
/// the required kind is already active, exactly one otherwise.
pub open spec fn bind_calls(sys: ShaderSystem, kind: ShaderKind) -> Seq<CallView> {
    if sys.active() == kind {
        seq![]
    } else {
        seq![(CallView::UseProgram { program: sys.shader_for(kind).program })]
    }
}

/// The steps after the bind: upload attributes, then render.  Runs while
/// `shader`'s program is bound on the device and never rebinds, so the bound
/// program at every recorded call of this step is `shader`'s.
fn buffer_and_render(shader: &mut Shader, gpu: &mut GpuLog, drawable: &Drawable) -> (r: Result<
    (),
    ShaderError,
>)
    requires
        old(shader).wf(),
        device_bound(old(gpu)@) == Some(old(shader).program),
    ensures
        final(shader).wf(),
        final(shader).program == old(shader).program,
        final(shader).uniform_names == old(shader).uniform_names,
        render_post(
            *old(shader),
            *final(shader),
            old(gpu)@ + buffer_calls(
                old(shader).program,
                drawable.spec_len(),
                old(gpu)@.len() as int,
            ),
            final(gpu)@,
            drawable.spec_flip(),
            drawable.spec_mode(),
            drawable.spec_len(),
            r,
        ),
        (r is Ok) <==> (old(shader).has_uniform(uniform_model()) && old(shader).has_uniform(
            uniform_view(),
        ) && old(shader).has_uniform(uniform_perspective())),
        old(gpu)@.len() <= final(gpu)@.len(),
        forall|i: int|
            old(gpu)@.len() <= i < final(gpu)@.len() ==> !(#[trigger] final(gpu)@[i] is UseProgram),
        forall|i: int|
            old(gpu)@.len() <= i <= final(gpu)@.len() ==> device_bound(
                #[trigger] final(gpu)@.take(i),
            ) == Some(old(shader).program),
        device_bound(final(gpu)@) == Some(old(shader).program),
{
    let ghost s0 = *shader;
    let ghost g0 = gpu@;
    drawable.buffer_attributes(shader, gpu);
    let ghost bc = buffer_calls(s0.program, drawable.spec_len(), g0.len() as int);
    let r = drawable.render(shader, gpu);
    proof {
        let s1 = *shader;
        let dlen = drawable.spec_len();
        assert(no_binds(bc));
        assert(no_binds(maybe_query(s0, s1, uniform_model())));
        assert(no_binds(maybe_query(s0, s1, uniform_view())));
        assert(no_binds(maybe_query(s0, s1, uniform_perspective())));
        assert(no_binds(render_tail(s1, drawable.spec_flip(), drawable.spec_mode(), dlen)));
        if r is Ok {
            let d = bc + maybe_query(s0, s1, uniform_model()) + maybe_query(s0, s1, uniform_view())
                + maybe_query(s0, s1, uniform_perspective()) + render_tail(
                s1,
                drawable.spec_flip(),
                drawable.spec_mode(),
                dlen,
            );
            lemma_no_binds_concat(bc, maybe_query(s0, s1, uniform_model()));
            lemma_no_binds_concat(
                bc + maybe_query(s0, s1, uniform_model()),
                maybe_query(s0, s1, uniform_view()),
            );
            lemma_no_binds_concat(
                bc + maybe_query(s0, s1, uniform_model()) + maybe_query(s0, s1, uniform_view()),
                maybe_query(s0, s1, uniform_perspective()),
            );
            lemma_no_binds_concat(
                bc + maybe_query(s0, s1, uniform_model()) + maybe_query(s0, s1, uniform_view())
                    + maybe_query(s0, s1, uniform_perspective()),
                render_tail(s1, drawable.spec_flip(), drawable.spec_mode(), dlen),
            );
            assert(gpu@ =~= g0 + d);
            assert(no_binds(d));
            lemma_extension_no_binds(gpu@, g0, d);
        } else if !s0.has_uniform(uniform_model()) {
            assert(gpu@ =~= g0 + bc);
            lemma_extension_no_binds(gpu@, g0, bc);
        } else if !s0.has_uniform(uniform_view()) {
            let d = bc + maybe_query(s0, s1, uniform_model());
            lemma_no_binds_concat(bc, maybe_query(s0, s1, uniform_model()));
            assert(gpu@ =~= g0 + d);
            assert(no_binds(d));
            lemma_extension_no_binds(gpu@, g0, d);
        } else {
            let d = bc + maybe_query(s0, s1, uniform_model()) + maybe_query(
                s0,
                s1,
                uniform_view(),
            );
            lemma_no_binds_concat(bc, maybe_query(s0, s1, uniform_model()));
            lemma_no_binds_concat(
                bc + maybe_query(s0, s1, uniform_model()),
                maybe_query(s0, s1, uniform_view()),
            );
            assert(gpu@ =~= g0 + d);
            assert(no_binds(d));
            lemma_extension_no_binds(gpu@, g0, d);
        }
        assert(forall|i: int|
            g0.len() <= i < gpu@.len() ==> !(#[trigger] gpu@[i] is UseProgram));
        assert(gpu@.take(g0.len() as int) =~= g0);
        lemma_device_bound_stable(gpu@, g0.len() as int);
    }
    r
}

/// Orchestrates a frame: owns the shader system and walks the drawables in
/// submission order, activating each one's required program before its
/// attribute and render steps run.
pub struct Renderer {
    pub shader_sys: ShaderSystem,
}

impl Renderer {
    pub open spec fn wf(&self) -> bool {
        self.shader_sys.wf()
    }

    /// Build the shader system from the device's creation reports; the
    /// renderer is ready only when every shader compiled and linked.
    pub fn new(
        gpu: &mut GpuLog,
        mesh_init: ShaderInit,
        flat_init: ShaderInit,
        point_init: ShaderInit,
    ) -> (r: Result<Renderer, ShaderError>)
        ensures
            final(gpu)@ == old(gpu)@ + system_create_calls(
                old(gpu)@.len() as int,
                mesh_init,
                flat_init,
                point_init,
            ),
            (r is Ok) <==> (init_ok(mesh_init) && init_ok(flat_init) && init_ok(point_init)),
            r matches Ok(rd) ==> rd.wf() && rd.shader_sys.active() == ShaderKind::Mesh
                && rd.shader_sys.active_bound_in(final(gpu)@)
                && rd.shader_sys.mesh_shader.uniform_names@ == mesh_init.link.active_uniforms@
                && rd.shader_sys.flat_shader.uniform_names@ == flat_init.link.active_uniforms@
                && rd.shader_sys.point_shader.uniform_names@ == point_init.link.active_uniforms@
                && rd.shader_sys.mesh_shader.uniforms@.len() == 0
                && rd.shader_sys.flat_shader.uniforms@.len() == 0
                && rd.shader_sys.point_shader.uniforms@.len() == 0,
            r matches Err(e) ==> (if !init_ok(mesh_init) {
                create_err_matches(e, mesh_init.vertex, mesh_init.fragment, mesh_init.link)
            } else if !init_ok(flat_init) {
                create_err_matches(e, flat_init.vertex, flat_init.fragment, flat_init.link)
            } else {
                create_err_matches(e, point_init.vertex, point_init.fragment, point_init.link)
            }),
    {
        match ShaderSystem::new(gpu, mesh_init, flat_init, point_init) {
            Ok(sys) => Ok(Renderer { shader_sys: sys }),
            Err(e) => Err(e),
        }
    }

    /// Dispatch one drawable: determine its required kind, activate that
    /// kind's program (a no-op when already active), upload its attributes,
    /// then render it.  The attribute and render steps never run while the
    /// recorded active kind differs from the required one: every call they
    /// record is made while the required kind's program is bound.
    pub fn render_drawable(&mut self, gpu: &mut GpuLog, drawable: &Drawable) -> (r: Result<
        (),
        ShaderError,
    >)
        requires
            old(self).wf(),
            old(self).shader_sys.active_bound_in(old(gpu)@),
        ensures
            final(self).wf(),
            final(self).shader_sys.active_bound_in(final(gpu)@),
            final(self).shader_sys.active() == drawable.spec_kind(),
            forall|k: ShaderKind|
                k != drawable.spec_kind() ==> #[trigger] final(self).shader_sys.shader_for(k)
                    == old(self).shader_sys.shader_for(k),
            final(self).shader_sys.shader_for(drawable.spec_kind()).program == old(
                self,
            ).shader_sys.shader_for(drawable.spec_kind()).program,
            final(self).shader_sys.shader_for(drawable.spec_kind()).uniform_names == old(
                self,
            ).shader_sys.shader_for(drawable.spec_kind()).uniform_names,
            (r is Ok) <==> can_render(old(self).shader_sys, *drawable),
            render_post(
                old(self).shader_sys.shader_for(drawable.spec_kind()),
                final(self).shader_sys.shader_for(drawable.spec_kind()),
                old(gpu)@ + bind_calls(old(self).shader_sys, drawable.spec_kind()) + buffer_calls(
                    old(self).shader_sys.shader_for(drawable.spec_kind()).program,
                    drawable.spec_len(),
                    old(gpu)@.len() + bind_calls(old(self).shader_sys, drawable.spec_kind()).len()
                        as int,
                ),
                final(gpu)@,
                drawable.spec_flip(),
                drawable.spec_mode(),
                drawable.spec_len(),
                r,
            ),
            old(self).shader_sys.active() == drawable.spec_kind() ==> forall|i: int|
                old(gpu)@.len() <= i < final(gpu)@.len() ==> !(
                #[trigger] final(gpu)@[i] is UseProgram),
            old(self).shader_sys.active() != drawable.spec_kind() ==> final(gpu)@[old(gpu)@.len() as int]
                == (CallView::UseProgram {
                program: old(self).shader_sys.shader_for(drawable.spec_kind()).program,
            }) && (forall|i: int|
                old(gpu)@.len() < i < final(gpu)@.len() ==> !(
                #[trigger] final(gpu)@[i] is UseProgram)),
            forall|i: int|
                old(gpu)@.len() <= i < final(gpu)@.len() && !(final(gpu)@[i] is UseProgram)
                    ==> device_bound(#[trigger] final(gpu)@.take(i)) == Some(
                    final(self).shader_sys.shader_for(drawable.spec_kind()).program,
                ),
    {
        let kind = drawable.required_shader_kind();
        self.shader_sys.use_program(gpu, kind);
        let ghost sys_mid = self.shader_sys;
        let ghost g1 = gpu@;
        let r = match kind {
            ShaderKind::Mesh => buffer_and_render(&mut self.shader_sys.mesh_shader, gpu, drawable),
            ShaderKind::Flat => buffer_and_render(&mut self.shader_sys.flat_shader, gpu, drawable),
            ShaderKind::Point => buffer_and_render(
                &mut self.shader_sys.point_shader,
                gpu,
                drawable,
            ),
        };
        proof {
            assert(g1 =~= old(gpu)@ + bind_calls(old(self).shader_sys, kind));
            assert(g1.len() == old(gpu)@.len() + bind_calls(old(self).shader_sys, kind).len());
            assert(self.shader_sys.active_bound_in(gpu@));
            assert forall|k: ShaderKind|
                k != drawable.spec_kind() implies #[trigger] self.shader_sys.shader_for(k) == old(
                self,
            ).shader_sys.shader_for(k) by {
                assert(sys_mid.shader_for(k) == old(self).shader_sys.shader_for(k));
                assert(self.shader_sys.shader_for(k) == sys_mid.shader_for(k));
            }
            assert(sys_mid.shader_for(kind) == old(self).shader_sys.shader_for(kind));
            assert forall|i: int|
                old(gpu)@.len() <= i < gpu@.len() && !(gpu@[i] is UseProgram) implies device_bound(
                #[trigger] gpu@.take(i),
            ) == Some(self.shader_sys.shader_for(drawable.spec_kind()).program) by {
                if i < g1.len() {
                    assert(old(self).shader_sys.active() != kind);
                    assert(i == old(gpu)@.len());
                    assert(gpu@[i] == g1[i]);
                    assert(g1[i] == bind_calls(old(self).shader_sys, kind)[0]);
                    assert(gpu@[i] is UseProgram);
                } else {
                    assert(device_bound(gpu@.take(i)) == Some(
                        self.shader_sys.shader_for(kind).program,
                    ));
                }
            }
        }
        r
    }

    /// Render a frame: dispatch every drawable in submission order, each
    /// one's full sequence completing before the next begins, stopping at
    /// the first structural failure.  Succeeds exactly when every drawable's
    /// required program exports the uniforms its render step resolves.
    pub fn render_frame(&mut self, gpu: &mut GpuLog, drawables: &Vec<Drawable>) -> (r: Result<
        (),
        ShaderError,
    >)
        requires
            old(self).wf(),
            old(self).shader_sys.active_bound_in(old(gpu)@),
        ensures
            final(self).wf(),
            final(self).shader_sys.active_bound_in(final(gpu)@),
            programs_named_as(final(self).shader_sys, old(self).shader_sys),
            (r is Ok) <==> (forall|i: int|
                0 <= i < drawables@.len() ==> can_render(
                    old(self).shader_sys,
                    #[trigger] drawables@[i],
                )),
            r matches Err(e) ==> (e matches ShaderError::MissingUniform { .. } && exists|i: int|
                0 <= i < drawables@.len() && !can_render(
                    old(self).shader_sys,
                    #[trigger] drawables@[i],
                )),
            (r is Ok && drawables@.len() > 0) ==> final(self).shader_sys.active()
                == drawables@.last().spec_kind(),
            drawables@.len() == 0 ==> *final(self) == *old(self) && final(gpu)@ == old(gpu)@,
    {
        let ghost sys0 = old(self).shader_sys;
        let mut idx: usize = 0;
        while idx < drawables.len()
            invariant
                idx <= drawables@.len(),
                sys0 == old(self).shader_sys,
                self.wf(),
                self.shader_sys.active_bound_in(gpu@),
                programs_named_as(self.shader_sys, sys0),
                forall|j: int| 0 <= j < idx ==> can_render(sys0, #[trigger] drawables@[j]),
                idx > 0 ==> self.shader_sys.active() == drawables@[idx - 1].spec_kind(),
                idx == 0 ==> *self == *old(self) && gpu@ == old(gpu)@,
            decreases drawables@.len() - idx,
        {
            let drawable = &drawables[idx];
            let ghost sys_before = self.shader_sys;
            match self.render_drawable(gpu, drawable) {
                Ok(_) => {},
                Err(e) => {
                    proof {
                        assert(!can_render(sys_before, *drawable));
                        lemma_can_render_same(sys_before, sys0, *drawable);
                        assert(!can_render(sys0, drawables@[idx as int]));
                        let sk = sys_before.shader_for(drawable.spec_kind());
                        if !sk.has_uniform(uniform_model()) {
                            assert(missing_err(Result::Err(e), uniform_model()));
                        } else if !sk.has_uniform(uniform_view()) {
                            assert(missing_err(Result::Err(e), uniform_view()));
                        } else {
                            assert(missing_err(Result::Err(e), uniform_perspective()));
                        }
                        assert(e matches ShaderError::MissingUniform { .. });
                        lemma_dispatch_preserves(
                            sys_before,
                            self.shader_sys,
                            drawable.spec_kind(),
                        );
                        lemma_preserves_trans(self.shader_sys, sys_before, sys0);
                        assert(!can_render(old(self).shader_sys, drawables@[idx as int]));
                    }
                    return Err(e);
                },
            }
            proof {
                assert(can_render(sys_before, *drawable));
                lemma_can_render_same(sys_before, sys0, *drawable);
                assert(can_render(sys0, drawables@[idx as int]));
                lemma_dispatch_preserves(sys_before, self.shader_sys, drawable.spec_kind());
                lemma_preserves_trans(self.shader_sys, sys_before, sys0);
            }
            idx += 1;
        }
        Ok(())
    }
}

/// The two creation-time facts every dispatch preserves, shader by shader:
/// which program each kind owns and which uniform names it exports.
pub open spec fn programs_named_as(a: ShaderSystem, b: ShaderSystem) -> bool {
    &&& a.mesh_shader.program == b.mesh_shader.program
    &&& a.mesh_shader.uniform_names == b.mesh_shader.uniform_names
    &&& a.flat_shader.program == b.flat_shader.program
    &&& a.flat_shader.uniform_names == b.flat_shader.uniform_names
    &&& a.point_shader.program == b.point_shader.program
    &&& a.point_shader.uniform_names == b.point_shader.uniform_names
}

proof fn lemma_dispatch_preserves(pre: ShaderSystem, post: ShaderSystem, kind: ShaderKind)
    requires
        forall|k: ShaderKind| k != kind ==> #[trigger] post.shader_for(k) == pre.shader_for(k),
        post.shader_for(kind).program == pre.shader_for(kind).program,
        post.shader_for(kind).uniform_names == pre.shader_for(kind).uniform_names,
    ensures
        programs_named_as(post, pre),
{
    if kind != ShaderKind::Mesh {
        assert(post.shader_for(ShaderKind::Mesh) == pre.shader_for(ShaderKind::Mesh));
    }
    if kind != ShaderKind::Flat {
        assert(post.shader_for(ShaderKind::Flat) == pre.shader_for(ShaderKind::Flat));
    }
    if kind != ShaderKind::Point {
        assert(post.shader_for(ShaderKind::Point) == pre.shader_for(ShaderKind::Point));
    }
}

proof fn lemma_preserves_trans(a: ShaderSystem, b: ShaderSystem, c: ShaderSystem)
    requires
        programs_named_as(a, b),
        programs_named_as(b, c),
    ensures
        programs_named_as(a, c),
{
}

/// Whether a dispatch can succeed depends only on the exported uniform
/// names, which never change after creation.
proof fn lemma_can_render_same(a: ShaderSystem, b: ShaderSystem, d: Drawable)
    requires
        programs_named_as(a, b),
    ensures
        can_render(a, d) == can_render(b, d),
{
    crate::shader::lemma_same_names(a.shader_for(d.spec_kind()), b.shader_for(d.spec_kind()));
}

} // verus!
