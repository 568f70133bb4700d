//! The kernel session: what is sent to the execution backend, and what the
//! backend's answers do to the session.
//!
//! The backend itself is outside this library. A session never calls it:
//! `set_compute_graph` and `compute_2d` return the request that the caller
//! carries to the backend, and `kernel_compiled` and
//! `ComputationResult::from_backend` take what the backend answered.

use vstd::prelude::*;
use crate::error::KernelError;
use crate::graph::{ComputationGraphNode, ToShader};
use crate::params::{
    cells_fill_grid, formal_names, ParamData, ParamValue, ParameterTable, Registration,
};
use crate::text::{join_strings, join_text, param_name};

verus! {

/// The complete source unit of a kernel: a function whose formal parameters
/// are `names`, in order, and which returns the value of `fragment`.
pub open spec fn kernel_source(names: Seq<Seq<char>>, fragment: Seq<char>) -> Seq<char> {
    "(function("@ + join_text(names, ","@) + "){ return "@ + fragment + "; })"@
}

/// Wraps a source fragment into a complete source unit.
pub fn make_kernel_source(names: &Vec<String>, fragment: &str) -> (source: String)
    ensures
        source@ == kernel_source(names@.map_values(|s: String| s@), fragment@),
{
    let mut source = String::from_str("(function(");
    let list = join_strings(names, ",");
    source.append(list.as_str());
    source.append("){ return ");
    source.append(fragment);
    source.append("; })");
    source
}

/// Where a session stands.
#[derive(Debug, Clone, Copy, PartialEq, Eq, Structural)]
pub enum Phase {
    /// No kernel is present and none is being compiled.
    Uninitialized,
    /// A compile request was handed out and its outcome is awaited.
    Compiling,
    /// A compiled kernel is present.
    Ready,
}

/// What the backend is asked to compile.
pub struct CompileRequest<K> {
    /// The complete source unit.
    pub source: String,
    /// The formal parameters of the unit, in order.
    pub formal_params: Vec<String>,
    /// The kernel that the session held until now, to be released.
    pub released: Option<K>,
}

/// What the backend is asked to run: size the output to `width` by
/// `height`, then invoke `kernel` once per cell with `args`, in order.
pub struct DispatchRequest<'a, K> {
    /// The compiled kernel that the session holds.
    pub kernel: &'a K,
    /// The number of columns of the output.
    pub width: u32,
    /// The number of rows of the output.
    pub height: u32,
    /// The registered values, one for each formal parameter of the kernel.
    pub args: Vec<&'a ParamValue>,
}

/// A dispatch request as a mathematical value.
pub struct DispatchModel<K> {
    pub kernel: K,
    pub width: u32,
    pub height: u32,
    pub args: Seq<ParamData>,
}

impl<'a, K> View for DispatchRequest<'a, K> {
    type V = DispatchModel<K>;

    open spec fn view(&self) -> DispatchModel<K> {
        DispatchModel {
            kernel: *self.kernel,
            width: self.width,
            height: self.height,
            args: self.args@.map_values(|v: &ParamValue| v@),
        }
    }
}

/// The output of one dispatch, as the backend handed it over. The library
/// does not look inside.
pub struct ComputationResult<R> {
    output: R,
}

impl<R> ComputationResult<R> {
    /// The backend's output.
    pub closed spec fn output_data(&self) -> R {
        self.output
    }

    /// Takes the backend's answer to a dispatch: its output, or the
    /// diagnostic of its failure.
    pub fn from_backend(outcome: Result<R, String>) -> (result: Result<Self, KernelError>)
        ensures
            match outcome {
                Ok(output) => result matches Ok(r) && r.output_data() == output,
                Err(diagnostic) => result == Err::<Self, KernelError>(
                    KernelError::BackendInvocationFailed(diagnostic),
                ),
            },
    {
        match outcome {
            Ok(output) => Ok(ComputationResult { output }),
            Err(diagnostic) => Err(KernelError::BackendInvocationFailed(diagnostic)),
        }
    }

    /// The backend's output.
    pub fn output(&self) -> (output: &R)
        ensures
            *output == self.output_data(),
    {
        &self.output
    }

    /// Gives the backend's output back.
    pub fn into_output(self) -> (output: R)
        ensures
            output == self.output_data(),
    {
        self.output
    }
}

/// What a session holds besides its table, as a mathematical value.
pub enum KernelState<K> {
    /// No kernel is present and none is being compiled.
    Uninitialized,
    /// A compile request was handed out for the table `requested_for`.
    Compiling { requested_for: Seq<ParamData> },
    /// `kernel` is present; it was compiled for the table `compiled_for`.
    Ready { kernel: K, compiled_for: Seq<ParamData> },
}

/// A session as a mathematical value: the registered values in
/// registration order, and the state of its kernel.
pub struct SessionModel<K> {
    pub table: Seq<ParamData>,
    pub state: KernelState<K>,
}

impl<K> SessionModel<K> {
    /// Where the session stands.
    pub open spec fn phase(self) -> Phase {
        match self.state {
            KernelState::Uninitialized => Phase::Uninitialized,
            KernelState::Compiling { .. } => Phase::Compiling,
            KernelState::Ready { .. } => Phase::Ready,
        }
    }

    /// The compiled kernel, if one is present.
    pub open spec fn handle(self) -> Option<K> {
        match self.state {
            KernelState::Ready { kernel, .. } => Some(kernel),
            _ => None,
        }
    }

    /// Every buffer has the shape it declares, and a kernel that is awaited
    /// or present was requested for the table as it is now.
    pub open spec fn well_formed(self) -> bool {
        &&& forall|i: int| 0 <= i < self.table.len() ==> (#[trigger] self.table[i]).well_shaped()
        &&& match self.state {
            KernelState::Uninitialized => true,
            KernelState::Compiling { requested_for } => requested_for == self.table,
            KernelState::Ready { compiled_for, .. } => compiled_for == self.table,
        }
    }

    /// The session that `GPUKernel::new` makes.
    pub open spec fn initial() -> Self {
        SessionModel { table: Seq::empty(), state: KernelState::Uninitialized }
    }

    /// The session after a registration call. A call that fails changes
    /// nothing. One that succeeds appends its value, and a kernel that was
    /// awaited or present, which belongs to the table as it was, is given up.
    pub open spec fn register(self, call: Registration) -> Self {
        if call.accepted() {
            SessionModel { table: self.table.push(call.data()), state: KernelState::Uninitialized }
        } else {
            self
        }
    }

    /// The session after `set_compute_graph`: the kernel it held is given
    /// up, and one for the table as it is now is awaited.
    pub open spec fn set_graph(self) -> Self {
        SessionModel {
            table: self.table,
            state: KernelState::Compiling { requested_for: self.table },
        }
    }

    /// The session after the backend's answer to a compile request. While
    /// one is awaited, a kernel makes the session ready and a failure leaves
    /// it without a kernel. An answer that nothing awaits changes nothing.
    pub open spec fn compiled(self, outcome: Result<K, String>) -> Self {
        match self.state {
            KernelState::Compiling { requested_for } => match outcome {
                Ok(kernel) => SessionModel {
                    table: self.table,
                    state: KernelState::Ready { kernel, compiled_for: requested_for },
                },
                Err(_) => SessionModel { table: self.table, state: KernelState::Uninitialized },
            },
            _ => self,
        }
    }

    /// What `compute_2d` answers: with a kernel present, the request to run
    /// it on the table's values in registration order; else a refusal.
    pub open spec fn dispatch(self, width: u32, height: u32) -> Result<
        DispatchModel<K>,
        KernelError,
    > {
        match self.state {
            KernelState::Ready { kernel, .. } => Ok(
                DispatchModel { kernel, width, height, args: self.table },
            ),
            _ => Err(KernelError::KernelNotConfigured),
        }
    }

    /// What `kernel_compiled` reports for the backend's answer.
    pub open spec fn compile_report(self, outcome: Result<K, String>) -> Result<(), KernelError> {
        match self.state {
            KernelState::Compiling { .. } => match outcome {
                Ok(_) => Ok(()),
                Err(diagnostic) => Err(KernelError::CompileFailed(diagnostic)),
            },
            _ => Err(KernelError::KernelNotConfigured),
        }
    }
}

enum SessionState<K> {
    Uninitialized,
    Compiling(Ghost<Seq<ParamData>>),
    Ready(K, Ghost<Seq<ParamData>>),
}

/// A kernel session: one parameter table and at most one compiled kernel.
pub struct GPUKernel<K> {
    params: ParameterTable,
    state: SessionState<K>,
}

impl<K> View for GPUKernel<K> {
    type V = SessionModel<K>;

    closed spec fn view(&self) -> SessionModel<K> {
        SessionModel {
            table: self.params@,
            state: match self.state {
                SessionState::Uninitialized => KernelState::Uninitialized,
                SessionState::Compiling(table) => KernelState::Compiling { requested_for: table@ },
                SessionState::Ready(kernel, table) => KernelState::Ready {
                    kernel,
                    compiled_for: table@,
                },
            },
        }
    }
}

impl<K> GPUKernel<K> {
    #[verifier::type_invariant]
    closed spec fn inv(&self) -> bool {
        self@.well_formed()
    }

    /// An empty session: no inputs, no kernel.
    pub fn new() -> (session: Self)
        ensures
            session@ == SessionModel::<K>::initial(),
    {
        let params = ParameterTable::new();
        GPUKernel { params, state: SessionState::Uninitialized }
    }

    /// The number of registered inputs.
    pub fn param_count(&self) -> (n: usize)
        ensures
            n == self@.table.len(),
    {
        self.params.len()
    }

    /// Where the session stands.
    pub fn phase(&self) -> (phase: Phase)
        ensures
            phase == self@.phase(),
    {
        match &self.state {
            SessionState::Uninitialized => Phase::Uninitialized,
            SessionState::Compiling(_) => Phase::Compiling,
            SessionState::Ready(_, _) => Phase::Ready,
        }
    }

    /// Whether a compiled kernel is present.
    pub fn is_ready(&self) -> (ready: bool)
        ensures
            ready == (self@.phase() == Phase::Ready),
    {
        match &self.state {
            SessionState::Ready(_, _) => true,
            _ => false,
        }
    }

    /// Whether the outcome of a compile request is awaited.
    pub fn is_compiling(&self) -> (compiling: bool)
        ensures
            compiling == (self@.phase() == Phase::Compiling),
    {
        match &self.state {
            SessionState::Compiling(_) => true,
            _ => false,
        }
    }

    /// The parameter table of the session.
    pub fn params(&self) -> (table: &ParameterTable)
        ensures
            table@ == self@.table,
    {
        &self.params
    }

    /// Registers a number, given as the bit pattern of its 32-bit
    /// floating-point value, and returns the node that refers to it. A kernel
    /// that was present or awaited belongs to the table as it was: the
    /// session is `Uninitialized` afterwards.
    pub fn input_f32(&mut self, value: u32) -> (node: ComputationGraphNode)
        ensures
            final(self)@ == old(self)@.register(Registration::Scalar(value)),
            node matches ComputationGraphNode::Variable(name) && name@ == param_name(
                old(self)@.table.len(),
            ),
    {
        proof {
            use_type_invariant(&*self);
        }
        self.state = SessionState::Uninitialized;
        let mut params = ParameterTable::new();
        core::mem::swap(&mut self.params, &mut params);
        let name = params.register_scalar(value);
        core::mem::swap(&mut self.params, &mut params);
        ComputationGraphNode::Variable(name)
    }

    /// Registers a grid of `width` columns and `height` rows, its cells
    /// given row after row as bit patterns, and returns the node that refers
    /// to it. Unless `data` holds exactly `width * height` cells this fails
    /// with `ShapeMismatch` and the session is what it was. After a
    /// registration the session is `Uninitialized`, as after `input_f32`.
    pub fn input_2d(&mut self, data: Vec<u32>, width: u32, height: u32) -> (outcome: Result<
        ComputationGraphNode,
        KernelError,
    >)
        ensures
            final(self)@ == old(self)@.register(
                Registration::Buffer2D { cells: data@, width, height },
            ),
            match outcome {
                Ok(node) => {
                    &&& data@.len() == width * height
                    &&& node matches ComputationGraphNode::Variable(name) && name@ == param_name(
                        old(self)@.table.len(),
                    )
                },
                Err(e) => {
                    &&& data@.len() != width * height
                    &&& e == KernelError::ShapeMismatch
                    &&& *final(self) == *old(self)
                },
            },
    {
        proof {
            use_type_invariant(&*self);
        }
        if !cells_fill_grid(data.len(), width, height) {
            return Err(KernelError::ShapeMismatch);
        }
        self.state = SessionState::Uninitialized;
        let mut params = ParameterTable::new();
        core::mem::swap(&mut self.params, &mut params);
        let registered = params.register_buffer(data, width, height);
        core::mem::swap(&mut self.params, &mut params);
        match registered {
            Ok(name) => Ok(ComputationGraphNode::Variable(name)),
            Err(e) => Err(e),
        }
    }

    /// Lowers `node` and wraps it into a complete source unit whose formal
    /// parameters are the names of the table, in registration order. The
    /// session gives up the kernel it held, which the request hands over for
    /// release, and awaits the outcome of the request.
    pub fn set_compute_graph<N: ToShader>(&mut self, node: N) -> (request: CompileRequest<K>)
        ensures
            final(self)@ == old(self)@.set_graph(),
            request.source@ == kernel_source(formal_names(old(self)@.table), node.shader_text()),
            request.formal_params@.map_values(|s: String| s@) == formal_names(old(self)@.table),
            request.released == old(self)@.handle(),
    {
        proof {
            use_type_invariant(&*self);
        }
        let fragment = node.to_shader();
        let formal_params = self.params.names();
        let source = make_kernel_source(&formal_params, fragment.as_str());
        let mut state = SessionState::Compiling(Ghost(self.params@));
        core::mem::swap(&mut self.state, &mut state);
        let released = match state {
            SessionState::Ready(kernel, _) => Some(kernel),
            _ => None,
        };
        CompileRequest { source, formal_params, released }
    }

    /// Takes the backend's answer to the compile request that is awaited:
    /// the compiled kernel, which the session then holds, or the diagnostic
    /// of a failure, which is reported as `CompileFailed` and leaves the
    /// session without a kernel. An answer that no request awaits is refused
    /// with `KernelNotConfigured`, and the session is what it was.
    pub fn kernel_compiled(&mut self, outcome: Result<K, String>) -> (report: Result<
        (),
        KernelError,
    >)
        ensures
            final(self)@ == old(self)@.compiled(outcome),
            report == old(self)@.compile_report(outcome),
    {
        proof {
            use_type_invariant(&*self);
        }
        let mut state = SessionState::Uninitialized;
        core::mem::swap(&mut self.state, &mut state);
        match state {
            SessionState::Compiling(table) => match outcome {
                Ok(kernel) => {
                    self.state = SessionState::Ready(kernel, table);
                    Ok(())
                },
                Err(diagnostic) => Err(KernelError::CompileFailed(diagnostic)),
            },
            other => {
                self.state = other;
                Err(KernelError::KernelNotConfigured)
            },
        }
    }

    /// Asks for one run of the compiled kernel over a grid of `width` by
    /// `height` cells, with the table's values as arguments, in registration
    /// order. Fails with `KernelNotConfigured` unless a compiled kernel is
    /// present. The session is not changed.
    pub fn compute_2d(&self, width: u32, height: u32) -> (result: Result<
        DispatchRequest<'_, K>,
        KernelError,
    >)
        ensures
            self@.well_formed(),
            match result {
                Ok(request) => self@.dispatch(width, height) == Ok::<DispatchModel<K>, KernelError>(
                    request@,
                ),
                Err(e) => self@.dispatch(width, height) == Err::<DispatchModel<K>, KernelError>(e),
            },
    {
        proof {
            use_type_invariant(self);
        }
        match &self.state {
            SessionState::Ready(kernel, _) => Ok(
                DispatchRequest { kernel, width, height, args: self.params.values() },
            ),
            _ => Err(KernelError::KernelNotConfigured),
        }
    }
}

} // verus!
