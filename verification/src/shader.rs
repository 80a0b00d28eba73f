//! Shader-program management: compiling and linking one program per
//! [`ShaderKind`], caching uniform locations, and eliding redundant binds.
//!
//! Compiling and linking are device work.  The host performs each step against
//! the real context and reports what the device said as a [`CompileOutcome`]
//! or [`LinkOutcome`]; the core decides from those reports exactly as the
//! device's caller would, records the calls it issued in the [`GpuLog`], and
//! owns the single record of which program is bound.

use crate::gpu::CallView;
use crate::gpu::GpuLog;
use crate::gpu::Stage;
use crate::gpu::device_bound;
use vstd::prelude::*;

verus! {

/// Identifiers for the different shaders.
#[derive(Debug, PartialEq, Eq, Structural, Hash, Copy, Clone)]
pub enum ShaderKind {
    Mesh,
    Flat,
    Point,
}

/// Everything that can go wrong while building or using a program.  All of it
/// is structural: a failed compile, link or lookup means broken content, not a
/// transient condition.
#[derive(Debug, PartialEq)]
pub enum ShaderError {
    /// One stage failed to compile; `log` carries the compiler's diagnostic.
    Compile { stage: Stage, log: String },
    /// Linking the two compiled stages failed.
    Link { log: String },
    /// A uniform name was requested that the program does not define.
    MissingUniform { name: String },
}

/// What the device reported for one create-and-compile step: whether the
/// stage object could be created, the compile status it returned, and the
/// info log it offered.
#[derive(Debug, Clone)]
pub struct CompileOutcome {
    pub created: bool,
    pub status: Option<bool>,
    pub info_log: Option<String>,
}

/// What the device reported for one create-attach-link step, together with
/// the uniform names the linked program exports.
#[derive(Debug, Clone)]
pub struct LinkOutcome {
    pub created: bool,
    pub status: Option<bool>,
    pub info_log: Option<String>,
    pub active_uniforms: Vec<String>,
}

/// The device's reports for one whole shader creation.
#[derive(Debug, Clone)]
pub struct ShaderInit {
    pub vertex: CompileOutcome,
    pub fragment: CompileOutcome,
    pub link: LinkOutcome,
}

pub open spec fn compile_ok(o: CompileOutcome) -> bool {
    o.created && o.status == Some(true)
}

pub open spec fn link_ok(o: LinkOutcome) -> bool {
    o.created && o.status == Some(true)
}

pub open spec fn init_ok(i: ShaderInit) -> bool {
    compile_ok(i.vertex) && compile_ok(i.fragment) && link_ok(i.link)
}

/// The diagnostic a failed compile step carries.
pub open spec fn compile_err_text(o: CompileOutcome) -> Seq<char> {
    if !o.created {
        "Could not create shader"@
    } else {
        match o.info_log {
            Some(l) => l@,
            None => "Unknown error creating shader"@,
        }
    }
}

/// The diagnostic a failed link step carries.
pub open spec fn link_err_text(o: LinkOutcome) -> Seq<char> {
    if !o.created {
        "Unable to create shader program"@
    } else {
        match o.info_log {
            Some(l) => l@,
            None => "Unknown error creating program"@,
        }
    }
}

/// Create a stage object and compile `source` into it, going by the device's
/// report: the compile call is recorded whenever the stage object could be
/// created, and a missing or negative status is a compile failure carrying
/// the device's diagnostic, or the fallback text when it offered none.
pub fn compile_shader(gpu: &mut GpuLog, stage: Stage, source: &str, outcome: CompileOutcome) -> (r:
    Result<usize, ShaderError>)
    ensures
        outcome.created ==> final(gpu)@ == old(gpu)@.push(
            (CallView::CompileShader { id: old(gpu)@.len() as usize, stage, source: source@ }),
        ),
        !outcome.created ==> final(gpu)@ == old(gpu)@,
        compile_ok(outcome) ==> (r matches Ok(id) && id == old(gpu)@.len()),
        !compile_ok(outcome) ==> (r matches Err(ShaderError::Compile { stage: st, log })
            && st == stage && log@ == compile_err_text(outcome)),
{
    if !outcome.created {
        return Err(ShaderError::Compile { stage, log: "Could not create shader".to_owned() });
    }
    let id = gpu.record_compile(stage, source);
    let ok = match outcome.status {
        Some(b) => b,
        None => false,
    };
    if ok {
        Ok(id)
    } else {
        let log = match outcome.info_log {
            Some(l) => l,
            None => "Unknown error creating shader".to_owned(),
        };
        Err(ShaderError::Compile { stage, log })
    }
}

/// Create a program, attach the two compiled stages and link them, going by
/// the device's report, with the same recording and fallback-diagnostic
/// behaviour as [`compile_shader`].
pub fn link_program(gpu: &mut GpuLog, vert_shader: usize, frag_shader: usize, outcome:
    &LinkOutcome) -> (r: Result<usize, ShaderError>)
    ensures
        outcome.created ==> final(gpu)@ == old(gpu)@.push(
            (CallView::LinkProgram {
                program: old(gpu)@.len() as usize,
                vertex: vert_shader,
                fragment: frag_shader,
            }),
        ),
        !outcome.created ==> final(gpu)@ == old(gpu)@,
        link_ok(*outcome) ==> (r matches Ok(id) && id == old(gpu)@.len()),
        !link_ok(*outcome) ==> (r matches Err(ShaderError::Link { log }) && log@ == link_err_text(
            *outcome,
        )),
{
    if !outcome.created {
        return Err(ShaderError::Link { log: "Unable to create shader program".to_owned() });
    }
    let program = gpu.record_link(vert_shader, frag_shader);
    let ok = match outcome.status {
        Some(b) => b,
        None => false,
    };
    if ok {
        Ok(program)
    } else {
        let log = match &outcome.info_log {
            Some(l) => l.clone(),
            None => "Unknown error creating program".to_owned(),
        };
        Err(ShaderError::Link { log })
    }
}

/// One compiled and linked program, with its lazily grown cache of resolved
/// uniform locations.  The program and the names it exports never change
/// after creation; only the cache grows.
pub struct Shader {
    /// The handle of the linked program.
    pub program: usize,
    /// The uniform names the linked program exports, as the device reported
    /// them at link time.
    pub uniform_names: Vec<String>,
    /// The cache: resolved uniform name to handle, populated on first lookup.
    pub uniforms: Vec<(String, usize)>,
}

impl Shader {
    /// The program exports a uniform of this name.
    pub open spec fn has_uniform(&self, name: Seq<char>) -> bool {
        exists|i: int| 0 <= i < self.uniform_names@.len() && #[trigger] self.uniform_names@[i]@
            == name
    }

    /// A location for this name has already been resolved.
    pub open spec fn is_cached(&self, name: Seq<char>) -> bool {
        exists|i: int| 0 <= i < self.uniforms@.len() && #[trigger] self.uniforms@[i].0@ == name
    }

    /// The cached handle for a resolved name.
    pub open spec fn cached_handle(&self, name: Seq<char>) -> usize {
        self.uniforms@[choose|i: int|
            0 <= i < self.uniforms@.len() && #[trigger] self.uniforms@[i].0@ == name].1
    }

    /// Each name is cached at most once, and only names the program exports
    /// ever enter the cache.
    pub open spec fn wf(&self) -> bool {
        &&& forall|i: int, j: int|
            0 <= i < j < self.uniforms@.len() ==> #[trigger] self.uniforms@[i].0@
                != #[trigger] self.uniforms@[j].0@
        &&& forall|i: int|
            0 <= i < self.uniforms@.len() ==> self.has_uniform(#[trigger] self.uniforms@[i].0@)
    }
}

/// The calls one successful shader creation records, starting at log
/// position `start`: compile the vertex stage, compile the fragment stage,
/// link the two.
pub open spec fn creation_calls(start: int, vs: Seq<char>, fs: Seq<char>) -> Seq<CallView> {
    seq![
        (CallView::CompileShader { id: start as usize, stage: Stage::Vertex, source: vs }),
        (CallView::CompileShader { id: (start + 1) as usize, stage: Stage::Fragment, source: fs }),
        (CallView::LinkProgram {
            program: (start + 2) as usize,
            vertex: start as usize,
            fragment: (start + 1) as usize,
        }),
    ]
}

/// The calls one shader creation records, successful or not: each step is
/// recorded when its object could be created, and the attempt stops at the
/// first failure.
pub open spec fn attempt_calls(
    start: int,
    vs: Seq<char>,
    fs: Seq<char>,
    v: CompileOutcome,
    f: CompileOutcome,
    l: LinkOutcome,
) -> Seq<CallView> {
    let cv = (CallView::CompileShader { id: start as usize, stage: Stage::Vertex, source: vs });
    let cf = (CallView::CompileShader {
        id: (start + 1) as usize,
        stage: Stage::Fragment,
        source: fs,
    });
    if !v.created {
        seq![]
    } else if !compile_ok(v) {
        seq![cv]
    } else if !f.created {
        seq![cv]
    } else if !compile_ok(f) {
        seq![cv, cf]
    } else if !l.created {
        seq![cv, cf]
    } else {
        creation_calls(start, vs, fs)
    }
}

/// The error a failed shader creation reports: the first failing step's.
pub open spec fn create_err_matches(
    e: ShaderError,
    v: CompileOutcome,
    f: CompileOutcome,
    l: LinkOutcome,
) -> bool {
    if !compile_ok(v) {
        e matches ShaderError::Compile { stage, log } && stage == Stage::Vertex && log@
            == compile_err_text(v)
    } else if !compile_ok(f) {
        e matches ShaderError::Compile { stage, log } && stage == Stage::Fragment && log@
            == compile_err_text(f)
    } else {
        e matches ShaderError::Link { log } && log@ == link_err_text(l)
    }
}

impl Shader {
    /// Build one program from a vertex and a fragment source: compile each
    /// stage, link the two, and start with an empty uniform cache.  Fails
    /// with the first failing step's error.
    pub fn new(
        gpu: &mut GpuLog,
        vert_source: &str,
        frag_source: &str,
        vertex_outcome: CompileOutcome,
        fragment_outcome: CompileOutcome,
        link_outcome: LinkOutcome,
    ) -> (r: Result<Shader, ShaderError>)
        ensures
            final(gpu)@ == old(gpu)@ + attempt_calls(
                old(gpu)@.len() as int,
                vert_source@,
                frag_source@,
                vertex_outcome,
                fragment_outcome,
                link_outcome,
            ),
            (r is Ok) <==> (compile_ok(vertex_outcome) && compile_ok(fragment_outcome) && link_ok(
                link_outcome,
            )),
            r matches Ok(s) ==> s.wf() && s.program == old(gpu)@.len() + 2 && s.uniform_names@
                == link_outcome.active_uniforms@ && s.uniforms@.len() == 0,
            r matches Err(e) ==> create_err_matches(
                e,
                vertex_outcome,
                fragment_outcome,
                link_outcome,
            ),
    {
        let ghost g0 = gpu@;
        let vert_shader = match compile_shader(gpu, Stage::Vertex, vert_source, vertex_outcome) {
            Ok(v) => v,
            Err(e) => {
                proof {
                    assert(gpu@ =~= g0 + attempt_calls(
                        g0.len() as int,
                        vert_source@,
                        frag_source@,
                        vertex_outcome,
                        fragment_outcome,
                        link_outcome,
                    ));
                }
                return Err(e);
            },
        };
        let frag_shader = match compile_shader(gpu, Stage::Fragment, frag_source, fragment_outcome) {
            Ok(f) => f,
            Err(e) => {
                proof {
                    assert(gpu@ =~= g0 + attempt_calls(
                        g0.len() as int,
                        vert_source@,
                        frag_source@,
                        vertex_outcome,
                        fragment_outcome,
                        link_outcome,
                    ));
                }
                return Err(e);
            },
        };
        let program = match link_program(gpu, vert_shader, frag_shader, &link_outcome) {
            Ok(p) => p,
            Err(e) => {
                proof {
                    assert(gpu@ =~= g0 + attempt_calls(
                        g0.len() as int,
                        vert_source@,
                        frag_source@,
                        vertex_outcome,
                        fragment_outcome,
                        link_outcome,
                    ));
                }
                return Err(e);
            },
        };
        let s = Shader { program, uniform_names: link_outcome.active_uniforms, uniforms: Vec::new() };
        proof {
            assert(gpu@ =~= g0 + attempt_calls(
                g0.len() as int,
                vert_source@,
                frag_source@,
                vertex_outcome,
                fragment_outcome,
                link_outcome,
            ));
        }
        Ok(s)
    }

    /// Resolve `uniform_name` against the program.  A cached name answers
    /// from the cache and touches the device record not at all; the first
    /// lookup of an exported name records exactly one location query and
    /// caches its handle for the lifetime of the shader; a name the program
    /// does not export fails with [`ShaderError::MissingUniform`] carrying
    /// that name.
    pub fn get_uniform_location(&mut self, gpu: &mut GpuLog, uniform_name: &str) -> (r: Result<
        usize,
        ShaderError,
    >)
        requires
            old(self).wf(),
        ensures
            final(self).wf(),
            final(self).program == old(self).program,
            final(self).uniform_names == old(self).uniform_names,
            (r is Ok) <==> (old(self).is_cached(uniform_name@) || old(self).has_uniform(
                uniform_name@,
            )),
            old(self).is_cached(uniform_name@) ==> (r matches Ok(h) && h == old(self).cached_handle(
                uniform_name@,
            ) && *final(self) == *old(self) && final(gpu)@ == old(gpu)@),
            (!old(self).is_cached(uniform_name@) && old(self).has_uniform(uniform_name@)) ==> (
            r matches Ok(h) && h == old(gpu)@.len() && final(gpu)@ == old(gpu)@.push(
                (CallView::QueryUniform {
                    program: old(self).program,
                    name: uniform_name@,
                    handle: old(gpu)@.len() as usize,
                }),
            ) && final(self).cached_handle(uniform_name@) == h),
            (!old(self).is_cached(uniform_name@) && !old(self).has_uniform(uniform_name@)) ==> (
            r matches Err(ShaderError::MissingUniform { name }) && name@ == uniform_name@
                && *final(self) == *old(self) && final(gpu)@ == old(gpu)@),
            forall|n: Seq<char>|
                old(self).is_cached(n) ==> #[trigger] final(self).is_cached(n)
                    && final(self).cached_handle(n) == old(self).cached_handle(n),
            forall|n: Seq<char>|
                #[trigger] final(self).is_cached(n) <==> (old(self).is_cached(n) || (r is Ok && n
                    == uniform_name@)),
    {
        let key: String = uniform_name.to_owned();
        let mut i: usize = 0;
        while i < self.uniforms.len()
            invariant
                i <= self.uniforms@.len(),
                key@ == uniform_name@,
                *self == *old(self),
                self.wf(),
                gpu@ == old(gpu)@,
                forall|j: int| 0 <= j < i ==> #[trigger] self.uniforms@[j].0@ != uniform_name@,
            decreases self.uniforms@.len() - i,
        {
            let entry = &self.uniforms[i];
            if entry.0 == key {
                let h = entry.1;
                proof {
                    assert(self.is_cached(uniform_name@));
                    let k = choose|k: int|
                        0 <= k < self.uniforms@.len() && #[trigger] self.uniforms@[k].0@
                            == uniform_name@;
                    if k < i as int {
                        assert(self.uniforms@[k].0@ != self.uniforms@[i as int].0@);
                    } else if k > i as int {
                        assert(self.uniforms@[i as int].0@ != self.uniforms@[k].0@);
                    }
                    assert(self.cached_handle(uniform_name@) == h);
                }
                return Ok(h);
            }
            i += 1;
        }
        assert(!self.is_cached(uniform_name@));
        let mut found = false;
        let mut j: usize = 0;
        while j < self.uniform_names.len() && !found
            invariant
                j <= self.uniform_names@.len(),
                key@ == uniform_name@,
                *self == *old(self),
                self.wf(),
                gpu@ == old(gpu)@,
                !self.is_cached(uniform_name@),
                !found ==> forall|m: int|
                    0 <= m < j ==> #[trigger] self.uniform_names@[m]@ != uniform_name@,
                found ==> self.has_uniform(uniform_name@),
            decreases self.uniform_names@.len() - j,
        {
            if self.uniform_names[j] == key {
                found = true;
            }
            j += 1;
        }
        if !found {
            assert(!self.has_uniform(uniform_name@));
            return Err(ShaderError::MissingUniform { name: key });
        }
        let handle = gpu.record_query_uniform(self.program, uniform_name);
        let ghost before = *self;
        self.uniforms.push((key, handle));
        proof {
            let last = before.uniforms@.len() as int;
            assert(before.wf());
            assert(self.uniforms@ == before.uniforms@.push((key, handle)));
            assert(forall|a: int|
                0 <= a < last ==> #[trigger] self.uniforms@[a] == before.uniforms@[a]);
            assert(self.uniforms@[last].0@ == uniform_name@);
            assert(self.uniform_names@ == before.uniform_names@);
            assert forall|n: Seq<char>| before.has_uniform(n) implies #[trigger] self.has_uniform(
                n,
            ) by {
                let w = choose|w: int|
                    0 <= w < before.uniform_names@.len() && #[trigger] before.uniform_names@[w]@
                        == n;
                assert(self.uniform_names@[w]@ == n);
            }
            assert forall|a: int, b: int| 0 <= a < b < self.uniforms@.len() implies #[trigger] self
                .uniforms@[a].0@ != #[trigger] self.uniforms@[b].0@ by {
                if b == last {
                    assert(self.uniforms@[a].0@ != uniform_name@);
                }
            }
            assert(self.is_cached(uniform_name@));
            assert forall|a: int| 0 <= a < self.uniforms@.len() implies self.has_uniform(
                #[trigger] self.uniforms@[a].0@,
            ) by {
                if a < last {
                    assert(before.has_uniform(before.uniforms@[a].0@));
                } else {
                    assert(before.has_uniform(uniform_name@));
                }
            }
            assert(self.wf());
            assert forall|n: Seq<char>|
                #[trigger] self.is_cached(n) implies (before.is_cached(n) || n
                == uniform_name@) by {
                let k = choose|k: int|
                    0 <= k < self.uniforms@.len() && #[trigger] self.uniforms@[k].0@ == n;
                if k < last {
                    assert(before.uniforms@[k].0@ == n);
                }
            }
            assert forall|n: Seq<char>| before.is_cached(n) implies #[trigger] self.is_cached(n)
                && self.cached_handle(n) == before.cached_handle(n) by {
                let k0 = choose|k: int|
                    0 <= k < before.uniforms@.len() && #[trigger] before.uniforms@[k].0@ == n;
                assert(self.uniforms@[k0].0@ == n);
                assert(self.is_cached(n));
                let k1 = choose|k: int|
                    0 <= k < self.uniforms@.len() && #[trigger] self.uniforms@[k].0@ == n;
                if k1 == last {
                    assert(n == uniform_name@);
                    assert(before.uniforms@[k0].0@ != uniform_name@);
                }
                assert(k1 < last);
                assert(before.uniforms@[k1].0@ == n);
                if k0 < k1 {
                    assert(before.uniforms@[k0].0@ != before.uniforms@[k1].0@);
                } else if k1 < k0 {
                    assert(before.uniforms@[k1].0@ != before.uniforms@[k0].0@);
                }
                assert(k0 == k1);
                assert(self.cached_handle(n) == self.uniforms@[k1].1);
                assert(before.cached_handle(n) == before.uniforms@[k0].1);
            }
            let kf = choose|k: int|
                0 <= k < self.uniforms@.len() && #[trigger] self.uniforms@[k].0@ == uniform_name@;
            if kf < last {
                assert(before.uniforms@[kf].0@ == uniform_name@);
            }
            assert(kf == last);
            assert(self.cached_handle(uniform_name@) == handle);
        }
        Ok(handle)
    }
}

/// Two shaders over the same exported names export the same uniforms.
pub proof fn lemma_same_names(a: Shader, b: Shader)
    requires
        a.uniform_names == b.uniform_names,
    ensures
        forall|n: Seq<char>| #[trigger] a.has_uniform(n) <==> b.has_uniform(n),
{
    assert forall|n: Seq<char>| #[trigger] a.has_uniform(n) <==> b.has_uniform(n) by {
        if a.has_uniform(n) {
            let w = choose|w: int|
                0 <= w < a.uniform_names@.len() && #[trigger] a.uniform_names@[w]@ == n;
            assert(b.uniform_names@[w]@ == n);
        }
        if b.has_uniform(n) {
            let w = choose|w: int|
                0 <= w < b.uniform_names@.len() && #[trigger] b.uniform_names@[w]@ == n;
            assert(a.uniform_names@[w]@ == n);
        }
    }
}

pub open spec fn mesh_vertex_source_spec() -> Seq<char> {
    "attribute vec3 position;\nuniform mat4 model;\nuniform mat4 view;\nuniform mat4 perspective;\nvoid main() { gl_Position = perspective * view * model * vec4(position, 1); }\n"@
}

pub open spec fn mesh_fragment_source_spec() -> Seq<char> {
    "void main() { gl_FragColor = vec4(1, 1, 1, 1); }\n"@
}

pub open spec fn flat_vertex_source_spec() -> Seq<char> {
    "attribute vec3 position;\nuniform mat4 model;\nuniform mat4 view;\nuniform mat4 perspective;\nvoid main() { gl_Position = perspective * view * model * vec4(position, 1); }\n"@
}

pub open spec fn flat_fragment_source_spec() -> Seq<char> {
    "void main() { gl_FragColor = vec4(0, 0, 1, 1); }\n"@
}

pub open spec fn point_vertex_source_spec() -> Seq<char> {
    "attribute vec3 position;\nuniform mat4 model;\nuniform mat4 view;\nuniform mat4 perspective;\nvoid main() { gl_Position = perspective * view * model * vec4(position, 1); gl_PointSize = vec2(2, 2).x; }\n"@
}

pub open spec fn point_fragment_source_spec() -> Seq<char> {
    "void main() { gl_FragColor = vec4(1, 0, 0, 1); }\n"@
}

/// The built-in vertex source for the mesh program.
pub fn mesh_vertex_source() -> (s: &'static str)
    ensures
        s@ == mesh_vertex_source_spec(),
{
    "attribute vec3 position;\nuniform mat4 model;\nuniform mat4 view;\nuniform mat4 perspective;\nvoid main() { gl_Position = perspective * view * model * vec4(position, 1); }\n"
}

/// The built-in fragment source for the mesh program.
pub fn mesh_fragment_source() -> (s: &'static str)
    ensures
        s@ == mesh_fragment_source_spec(),
{
    "void main() { gl_FragColor = vec4(1, 1, 1, 1); }\n"
}

/// The built-in vertex source for the flat program.
pub fn flat_vertex_source() -> (s: &'static str)
    ensures
        s@ == flat_vertex_source_spec(),
{
    "attribute vec3 position;\nuniform mat4 model;\nuniform mat4 view;\nuniform mat4 perspective;\nvoid main() { gl_Position = perspective * view * model * vec4(position, 1); }\n"
}

/// The built-in fragment source for the flat program.
pub fn flat_fragment_source() -> (s: &'static str)
    ensures
        s@ == flat_fragment_source_spec(),
{
    "void main() { gl_FragColor = vec4(0, 0, 1, 1); }\n"
}

/// The built-in vertex source for the point program.
pub fn point_vertex_source() -> (s: &'static str)
    ensures
        s@ == point_vertex_source_spec(),
{
    "attribute vec3 position;\nuniform mat4 model;\nuniform mat4 view;\nuniform mat4 perspective;\nvoid main() { gl_Position = perspective * view * model * vec4(position, 1); gl_PointSize = vec2(2, 2).x; }\n"
}

/// The built-in fragment source for the point program.
pub fn point_fragment_source() -> (s: &'static str)
    ensures
        s@ == point_fragment_source_spec(),
{
    "void main() { gl_FragColor = vec4(1, 0, 0, 1); }\n"
}

/// The calls one whole system creation records: each kind's shader in the
/// fixed order mesh, flat, point, then — when everything succeeded — one
/// bind of the default mesh program.
pub open spec fn system_create_calls(
    start: int,
    mesh_init: ShaderInit,
    flat_init: ShaderInit,
    point_init: ShaderInit,
) -> Seq<CallView> {
    let m = attempt_calls(
        start,
        mesh_vertex_source_spec(),
        mesh_fragment_source_spec(),
        mesh_init.vertex,
        mesh_init.fragment,
        mesh_init.link,
    );
    let f = attempt_calls(
        start + 3,
        flat_vertex_source_spec(),
        flat_fragment_source_spec(),
        flat_init.vertex,
        flat_init.fragment,
        flat_init.link,
    );
    let p = attempt_calls(
        start + 6,
        point_vertex_source_spec(),
        point_fragment_source_spec(),
        point_init.vertex,
        point_init.fragment,
        point_init.link,
    );
    if !init_ok(mesh_init) {
        m
    } else if !init_ok(flat_init) {
        m + f
    } else if !init_ok(point_init) {
        m + f + p
    } else {
        m + f + p + seq![(CallView::UseProgram { program: (start + 2) as usize })]
    }
}

/// Owns the full set of shaders, exactly one per kind, and the single record
/// of which program is bound on the device.
pub struct ShaderSystem {
    pub mesh_shader: Shader,
    pub flat_shader: Shader,
    pub point_shader: Shader,
    /// The recorded active kind: the single source of truth for what is
    /// bound on the device right now.
    pub active_program: ShaderKind,
}

impl ShaderSystem {
    /// The shader owned for `kind`.
    pub open spec fn shader_for(&self, kind: ShaderKind) -> Shader {
        match kind {
            ShaderKind::Mesh => self.mesh_shader,
            ShaderKind::Flat => self.flat_shader,
            ShaderKind::Point => self.point_shader,
        }
    }

    /// The recorded active kind.
    pub open spec fn active(&self) -> ShaderKind {
        self.active_program
    }

    pub open spec fn wf(&self) -> bool {
        self.mesh_shader.wf() && self.flat_shader.wf() && self.point_shader.wf()
    }

    /// The recorded active kind agrees with what executing `log` leaves bound
    /// on the device.  Every bind goes through [`ShaderSystem::use_program`],
    /// so this holds from construction on.
    pub open spec fn active_bound_in(&self, log: Seq<CallView>) -> bool {
        device_bound(log) == Some(self.shader_for(self.active()).program)
    }

    /// Build every shader of the fixed enumeration from its built-in source
    /// pair, going by the device's reports, then bind the default mesh
    /// program and record it.  Any failure is reported as the first failing
    /// step's error: startup cannot proceed without all shaders.
    pub fn new(
        gpu: &mut GpuLog,
        mesh_init: ShaderInit,
        flat_init: ShaderInit,
        point_init: ShaderInit,
    ) -> (r: Result<ShaderSystem, ShaderError>)
        ensures
            final(gpu)@ == old(gpu)@ + system_create_calls(
                old(gpu)@.len() as int,
                mesh_init,
                flat_init,
                point_init,
            ),
            (r is Ok) <==> (init_ok(mesh_init) && init_ok(flat_init) && init_ok(point_init)),
            r matches Ok(sys) ==> sys.wf() && sys.active() == ShaderKind::Mesh
                && sys.active_bound_in(final(gpu)@) && sys.mesh_shader.program == old(gpu)@.len()
                + 2 && sys.flat_shader.program == old(gpu)@.len() + 5 && sys.point_shader.program
                == old(gpu)@.len() + 8 && sys.mesh_shader.uniform_names@
                == mesh_init.link.active_uniforms@ && sys.flat_shader.uniform_names@
                == flat_init.link.active_uniforms@ && sys.point_shader.uniform_names@
                == point_init.link.active_uniforms@ && sys.mesh_shader.uniforms@.len() == 0
                && sys.flat_shader.uniforms@.len() == 0 && sys.point_shader.uniforms@.len() == 0,
            !init_ok(mesh_init) ==> (r matches Err(e) && create_err_matches(
                e,
                mesh_init.vertex,
                mesh_init.fragment,
                mesh_init.link,
            )),
            (init_ok(mesh_init) && !init_ok(flat_init)) ==> (r matches Err(e) && create_err_matches(
                e,
                flat_init.vertex,
                flat_init.fragment,
                flat_init.link,
            )),
            (init_ok(mesh_init) && init_ok(flat_init) && !init_ok(point_init)) ==> (r matches Err(e)
                && create_err_matches(e, point_init.vertex, point_init.fragment, point_init.link)),
    {
        let ghost g0 = gpu@;
        let mesh_shader = match Shader::new(
            gpu,
            mesh_vertex_source(),
            mesh_fragment_source(),
            mesh_init.vertex,
            mesh_init.fragment,
            mesh_init.link,
        ) {
            Ok(s) => s,
            Err(e) => {
                proof {
                    assert(gpu@ =~= g0 + system_create_calls(
                        g0.len() as int,
                        mesh_init,
                        flat_init,
                        point_init,
                    ));
                }
                return Err(e);
            },
        };
        let flat_shader = match Shader::new(
            gpu,
            flat_vertex_source(),
            flat_fragment_source(),
            flat_init.vertex,
            flat_init.fragment,
            flat_init.link,
        ) {
            Ok(s) => s,
            Err(e) => {
                proof {
                    assert(gpu@ =~= g0 + system_create_calls(
                        g0.len() as int,
                        mesh_init,
                        flat_init,
                        point_init,
                    ));
                }
                return Err(e);
            },
        };
        let point_shader = match Shader::new(
            gpu,
            point_vertex_source(),
            point_fragment_source(),
            point_init.vertex,
            point_init.fragment,
            point_init.link,
        ) {
            Ok(s) => s,
            Err(e) => {
                proof {
                    assert(gpu@ =~= g0 + system_create_calls(
                        g0.len() as int,
                        mesh_init,
                        flat_init,
                        point_init,
                    ));
                }
                return Err(e);
            },
        };
        gpu.record_use_program(mesh_shader.program);
        let sys = ShaderSystem {
            mesh_shader,
            flat_shader,
            point_shader,
            active_program: ShaderKind::Mesh,
        };
        proof {
            assert(gpu@ =~= g0 + system_create_calls(
                g0.len() as int,
                mesh_init,
                flat_init,
                point_init,
            ));
            assert(gpu@.last() == (CallView::UseProgram { program: sys.mesh_shader.program }));
            assert(sys.active_bound_in(gpu@));
        }
        Ok(sys)
    }

    /// Look a shader up by kind: a pure lookup that always finds one, since
    /// the set is fixed at construction and a kind outside the enumeration
    /// cannot be written.
    pub fn get_shader(&self, shader_kind: &ShaderKind) -> (r: Option<&Shader>)
        ensures
            r matches Some(s) && *s == self.shader_for(*shader_kind),
    {
        match shader_kind {
            ShaderKind::Mesh => Some(&self.mesh_shader),
            ShaderKind::Flat => Some(&self.flat_shader),
            ShaderKind::Point => Some(&self.point_shader),
        }
    }

    /// Make `shader_kind`'s program the active one.  When it already is the
    /// recorded active kind this is a no-op — the device record does not
    /// change at all; otherwise exactly one bind call is recorded and the
    /// recorded active kind becomes `shader_kind`.
    pub fn use_program(&mut self, gpu: &mut GpuLog, shader_kind: ShaderKind)
        ensures
            final(self).active() == shader_kind,
            forall|k: ShaderKind| #[trigger] final(self).shader_for(k) == old(self).shader_for(k),
            old(self).wf() ==> final(self).wf(),
            old(self).active() == shader_kind ==> *final(self) == *old(self) && final(gpu)@ == old(
                gpu,
            )@,
            old(self).active() != shader_kind ==> final(gpu)@ == old(gpu)@.push(
                (CallView::UseProgram { program: old(self).shader_for(shader_kind).program }),
            ),
            old(self).active_bound_in(old(gpu)@) ==> final(self).active_bound_in(final(gpu)@),
            old(self).active() != shader_kind ==> final(self).active_bound_in(final(gpu)@),
    {
        if self.active_program == shader_kind {
            return ;
        }
        let program = match shader_kind {
            ShaderKind::Mesh => self.mesh_shader.program,
            ShaderKind::Flat => self.flat_shader.program,
            ShaderKind::Point => self.point_shader.program,
        };
        gpu.record_use_program(program);
        self.active_program = shader_kind;
        proof {
            assert(gpu@.last() == (CallView::UseProgram { program }));
            assert(self.active_bound_in(gpu@));
        }
    }
}

} // verus!
