//! The device boundary of the render core.
//!
//! The core never talks to the graphics device directly: every device call it
//! decides to issue is appended to a [`GpuLog`], in order.  An unverified
//! executor owned by the host performs the recorded calls against the real
//! context.  Matrix payloads are floating-point values owned by the host; a
//! recorded uniform write names its [`MatrixSource`] so the executor knows
//! what to upload.
//!
//! Handles for compiled stages, linked programs, uniform locations and
//! attribute locations are assigned by the core as the index of the recording
//! call, so distinct calls hand out distinct handles.  The executor keeps the
//! handle-to-object mapping.

use vstd::prelude::*;

verus! {

/// Which stage of a program a compile step builds.
#[derive(Clone, Copy, PartialEq, Eq, Structural, Debug)]
pub enum Stage {
    Vertex,
    Fragment,
}

/// Primitive topology of a draw call.
#[derive(Clone, Copy, PartialEq, Eq, Structural, Debug)]
pub enum DrawMode {
    Points,
    Lines,
    Triangles,
}

/// Which matrix payload a recorded uniform write carries.
#[derive(Clone, Copy, PartialEq, Eq, Structural, Debug)]
pub enum MatrixSource {
    /// The drawable's model transform, built by the host from its position.
    Model,
    /// The camera's view matrix, queried fresh each frame.
    View,
    /// The camera's view matrix with the y axis flipped, for reflection passes.
    ViewFlippedY,
    /// The camera's projection matrix.
    Projection,
}

/// The mathematical image of one device call: names as character sequences.
pub enum CallView {
    CompileShader { id: usize, stage: Stage, source: Seq<char> },
    LinkProgram { program: usize, vertex: usize, fragment: usize },
    UseProgram { program: usize },
    QueryUniform { program: usize, name: Seq<char>, handle: usize },
    QueryAttrib { program: usize, name: Seq<char>, attrib: usize },
    EnableAttrib { attrib: usize },
    BufferFloatData { attrib: usize, components: usize, count: usize },
    SetMatrixUniform { handle: usize, source: MatrixSource },
    DrawArrays { mode: DrawMode, count: usize },
}

/// One device call as recorded for the executor.
#[derive(Clone, PartialEq, Debug)]
pub enum GpuCall {
    /// Create a stage object, hand it `source` and compile it.
    CompileShader { id: usize, stage: Stage, source: String },
    /// Create a program, attach the two compiled stages and link.
    LinkProgram { program: usize, vertex: usize, fragment: usize },
    /// Bind `program` as the active program on the device.
    UseProgram { program: usize },
    /// Resolve the location of uniform `name` in `program` under `handle`.
    QueryUniform { program: usize, name: String, handle: usize },
    /// Resolve the location of vertex attribute `name` in `program`.
    QueryAttrib { program: usize, name: String, attrib: usize },
    /// Enable the vertex attribute array behind `attrib`.
    EnableAttrib { attrib: usize },
    /// Upload the drawable's `count` float components, `components` per vertex.
    BufferFloatData { attrib: usize, components: usize, count: usize },
    /// Write the matrix named by `source` to the uniform behind `handle`.
    SetMatrixUniform { handle: usize, source: MatrixSource },
    /// Issue the draw call: `count` vertices with topology `mode`.
    DrawArrays { mode: DrawMode, count: usize },
}

impl View for GpuCall {
    type V = CallView;

    open spec fn view(&self) -> CallView {
        match self {
            GpuCall::CompileShader { id, stage, source } => (CallView::CompileShader {
                id: *id,
                stage: *stage,
                source: source@,
            }),
            GpuCall::LinkProgram { program, vertex, fragment } => (CallView::LinkProgram {
                program: *program,
                vertex: *vertex,
                fragment: *fragment,
            }),
            GpuCall::UseProgram { program } => (CallView::UseProgram { program: *program }),
            GpuCall::QueryUniform { program, name, handle } => (CallView::QueryUniform {
                program: *program,
                name: name@,
                handle: *handle,
            }),
            GpuCall::QueryAttrib { program, name, attrib } => (CallView::QueryAttrib {
                program: *program,
                name: name@,
                attrib: *attrib,
            }),
            GpuCall::EnableAttrib { attrib } => (CallView::EnableAttrib { attrib: *attrib }),
            GpuCall::BufferFloatData { attrib, components, count } => (CallView::BufferFloatData {
                attrib: *attrib,
                components: *components,
                count: *count,
            }),
            GpuCall::SetMatrixUniform { handle, source } => (CallView::SetMatrixUniform {
                handle: *handle,
                source: *source,
            }),
            GpuCall::DrawArrays { mode, count } => (CallView::DrawArrays {
                mode: *mode,
                count: *count,
            }),
        }
    }
}

/// The ordered record of every device call the core has issued.
pub struct GpuLog {
    calls: Vec<GpuCall>,
}

impl View for GpuLog {
    type V = Seq<CallView>;

    closed spec fn view(&self) -> Seq<CallView> {
        self.calls@.map_values(|c: GpuCall| c@)
    }
}

/// The program bound on the device after `log` has been executed: the program
/// of the last bind call, or `None` if no bind was ever issued.
pub open spec fn device_bound(log: Seq<CallView>) -> Option<usize>
    decreases log.len(),
{
    if log.len() == 0 {
        None
    } else {
        match log.last() {
            CallView::UseProgram { program } => Some(program),
            _ => device_bound(log.drop_last()),
        }
    }
}

/// Appending a call that is not a bind leaves the bound program unchanged.
pub proof fn lemma_device_bound_push(log: Seq<CallView>, c: CallView)
    requires
        !(c is UseProgram),
    ensures
        device_bound(log.push(c)) == device_bound(log),
{
    assert(log.push(c).drop_last() =~= log);
}

/// While a suffix of the log holds no bind call, the bound program at every
/// point of that suffix is the one bound at its start.
pub proof fn lemma_device_bound_stable(log: Seq<CallView>, start: int)
    requires
        0 <= start <= log.len(),
        forall|i: int| start <= i < log.len() ==> !(#[trigger] log[i] is UseProgram),
    ensures
        forall|i: int|
            start <= i <= log.len() ==> device_bound(#[trigger] log.take(i)) == device_bound(
                log.take(start),
            ),
    decreases log.len() - start,
{
    if start < log.len() {
        assert(log.take(start + 1) =~= log.take(start).push(log[start]));
        lemma_device_bound_push(log.take(start), log[start]);
        lemma_device_bound_stable(log, start + 1);
    }
}

impl GpuLog {
    /// An empty record: nothing has been issued yet.
    pub fn new() -> (r: GpuLog)
        ensures
            r@ == Seq::<CallView>::empty(),
    {
        let r = GpuLog { calls: Vec::new() };
        proof {
            assert(r@ =~= Seq::<CallView>::empty());
        }
        r
    }

    /// How many calls have been issued.
    pub fn len(&self) -> (n: usize)
        ensures
            n == self@.len(),
    {
        self.calls.len()
    }

    /// The issued calls, oldest first, for the executor to perform.
    pub fn calls(&self) -> (r: &Vec<GpuCall>)
        ensures
            r@.len() == self@.len(),
            forall|i: int| 0 <= i < r@.len() ==> #[trigger] r@[i]@ == self@[i],
    {
        &self.calls
    }

    fn push_call(&mut self, call: GpuCall)
        ensures
            final(self)@ == old(self)@.push(call@),
    {
        let ghost v = call@;
        self.calls.push(call);
        proof {
            assert(self@ =~= old(self)@.push(v));
        }
    }

    /// Record a create-and-compile step for one stage; the returned id stands
    /// for the compiled stage object.
    pub(crate) fn record_compile(&mut self, stage: Stage, source: &str) -> (id: usize)
        ensures
            id == old(self)@.len(),
            final(self)@ == old(self)@.push(
                (CallView::CompileShader { id: old(self)@.len() as usize, stage, source: source@ }),
            ),
    {
        let id = self.calls.len();
        self.push_call(GpuCall::CompileShader { id, stage, source: source.to_owned() });
        id
    }

    /// Record a create-attach-link step; the returned id stands for the linked
    /// program.
    pub(crate) fn record_link(&mut self, vertex: usize, fragment: usize) -> (program: usize)
        ensures
            program == old(self)@.len(),
            final(self)@ == old(self)@.push(
                (CallView::LinkProgram { program: old(self)@.len() as usize, vertex, fragment }),
            ),
    {
        let program = self.calls.len();
        self.push_call(GpuCall::LinkProgram { program, vertex, fragment });
        program
    }

    /// Record a program bind.
    pub(crate) fn record_use_program(&mut self, program: usize)
        ensures
            final(self)@ == old(self)@.push((CallView::UseProgram { program })),
    {
        self.push_call(GpuCall::UseProgram { program });
    }

    /// Record a uniform-location query; the returned handle stands for the
    /// resolved location.
    pub(crate) fn record_query_uniform(&mut self, program: usize, name: &str) -> (handle: usize)
        ensures
            handle == old(self)@.len(),
            final(self)@ == old(self)@.push(
                (CallView::QueryUniform {
                    program,
                    name: name@,
                    handle: old(self)@.len() as usize,
                }),
            ),
    {
        let handle = self.calls.len();
        self.push_call(GpuCall::QueryUniform { program, name: name.to_owned(), handle });
        handle
    }

    /// Record an attribute-location query; the returned handle stands for the
    /// resolved location.
    pub(crate) fn record_query_attrib(&mut self, program: usize, name: &str) -> (attrib: usize)
        ensures
            attrib == old(self)@.len(),
            final(self)@ == old(self)@.push(
                (CallView::QueryAttrib { program, name: name@, attrib: old(self)@.len() as usize }),
            ),
    {
        let attrib = self.calls.len();
        self.push_call(GpuCall::QueryAttrib { program, name: name.to_owned(), attrib });
        attrib
    }

    /// Record enabling a vertex attribute array.
    pub(crate) fn record_enable_attrib(&mut self, attrib: usize)
        ensures
            final(self)@ == old(self)@.push((CallView::EnableAttrib { attrib })),
    {
        self.push_call(GpuCall::EnableAttrib { attrib });
    }

    /// Record uploading vertex data into an attribute array.
    pub(crate) fn record_buffer_f32(&mut self, attrib: usize, components: usize, count: usize)
        ensures
            final(self)@ == old(self)@.push(
                (CallView::BufferFloatData { attrib, components, count }),
            ),
    {
        self.push_call(GpuCall::BufferFloatData { attrib, components, count });
    }

    /// Record a matrix uniform write.
    pub(crate) fn record_set_matrix(&mut self, handle: usize, source: MatrixSource)
        ensures
            final(self)@ == old(self)@.push((CallView::SetMatrixUniform { handle, source })),
    {
        self.push_call(GpuCall::SetMatrixUniform { handle, source });
    }

    /// Record a draw call.
    pub(crate) fn record_draw_arrays(&mut self, mode: DrawMode, count: usize)
        ensures
            final(self)@ == old(self)@.push((CallView::DrawArrays { mode, count })),
    {
        self.push_call(GpuCall::DrawArrays { mode, count });
    }
}

} // verus!
