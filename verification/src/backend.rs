//! The two capabilities the renderer needs from the graphics interface.
//!
//! A [`Facade`] stands for an active graphics device: it allocates the
//! object buffers and links composed programs.  A [`Surface`] is a drawable
//! target that receives draw calls.  Both are supplied by the caller; the
//! renderer's contracts are stated against the abstract record of calls a
//! surface has received.

use vstd::prelude::*;
use crate::object::{Object, ObjectBuffers, ObjectCreationError};
use crate::shader::{CompositionError, ProgramSource};
use crate::values::{UniformList, UniformValue};

verus! {

/// Handle of a compiled and linked program, issued by a [`Facade`].
#[derive(Clone, Copy, Debug, PartialEq, Eq, Structural)]
pub struct ProgramId {
    pub id: u64,
}

/// Which primitive winding, if any, is culled before rasterization.
#[derive(Clone, Copy, Debug, PartialEq, Eq, Structural)]
pub enum BackfaceCullingMode {
    CullingDisabled,
    CullCounterClockwise,
    CullClockwise,
}

/// The depth comparison a fragment must pass.
#[derive(Clone, Copy, Debug, PartialEq, Eq, Structural)]
pub enum DepthTest {
    Overwrite,
    IfLess,
    IfLessOrEqual,
}

/// The fixed pipeline state a draw call runs under.
#[derive(Clone, Copy, Debug, PartialEq, Eq, Structural)]
pub struct DrawParameters {
    pub backface_culling: BackfaceCullingMode,
    pub depth_test: DepthTest,
    pub depth_write: bool,
}

impl DrawParameters {
    /// The state every instance draw uses: clockwise backfaces culled,
    /// depth test "less", depth writes enabled.
    pub open spec fn spec_instance_state() -> DrawParameters {
        DrawParameters {
            backface_culling: BackfaceCullingMode::CullClockwise,
            depth_test: DepthTest::IfLess,
            depth_write: true,
        }
    }

    /// The state every instance draw uses: clockwise backfaces culled,
    /// depth test "less", depth writes enabled.
    pub fn instance_state() -> (r: DrawParameters)
        ensures
            r == DrawParameters::spec_instance_state(),
    {
        DrawParameters {
            backface_culling: BackfaceCullingMode::CullClockwise,
            depth_test: DepthTest::IfLess,
            depth_write: true,
        }
    }
}

/// A single draw call failing; the frame's remaining draws are abandoned.
#[derive(Clone, Copy, Debug, PartialEq, Eq, Structural)]
pub enum DrawError {
    NoDepthBuffer,
    UniformTypeMismatch,
}

/// Failure to compile or link a composed program.
#[derive(Clone, Debug, PartialEq)]
pub enum ProgramError {
    /// The stage interfaces do not fit together (build-time validation).
    Composition(CompositionError),
    CompilationError,
    LinkingError,
}

/// The abstract content of one draw call, as recorded by a surface.
pub struct SpecDrawCall {
    pub object: Object,
    pub buffers: ObjectBuffers,
    pub program: ProgramId,
    pub uniforms: Seq<(Seq<char>, UniformValue)>,
    pub params: DrawParameters,
}

/// One draw call: the resolved buffers of an object kind, the shared
/// program, the combined uniform bindings and the fixed pipeline state.
#[derive(Debug)]
pub struct DrawCall {
    pub object: Object,
    pub buffers: ObjectBuffers,
    pub program: ProgramId,
    pub uniforms: UniformList,
    pub params: DrawParameters,
}

impl View for DrawCall {
    type V = SpecDrawCall;

    open spec fn view(&self) -> SpecDrawCall {
        SpecDrawCall {
            object: self.object,
            buffers: self.buffers,
            program: self.program,
            uniforms: self.uniforms@,
            params: self.params,
        }
    }
}

impl DrawCall {
    /// A fresh call carrying the same content.
    pub fn duplicate(&self) -> (r: DrawCall)
        ensures
            r@ == self@,
    {
        DrawCall {
            object: self.object,
            buffers: self.buffers,
            program: self.program,
            uniforms: self.uniforms.duplicate(),
            params: self.params,
        }
    }
}

/// A drawable target, supplied by the caller (a window framebuffer, an
/// off-screen target, or a recording double for tests).
pub trait Surface: Sized {
    /// The draw calls this surface has completed successfully, in order.
    spec fn draws(&self) -> Seq<SpecDrawCall>;

    /// Every draw call this surface has received, in order, each with the
    /// outcome it answered.
    spec fn attempts(&self) -> Seq<(SpecDrawCall, Result<(), DrawError>)>;

    /// Performs one draw call.  The call and its outcome are always
    /// appended to the record of attempts; a successful call is appended
    /// to the record of completed draws too, while a failing call leaves
    /// that record unchanged.
    fn draw(&mut self, call: &DrawCall) -> (r: Result<(), DrawError>)
        ensures
            r matches Ok(_) ==> final(self).attempts() == old(self).attempts().push(
                (call@, Ok::<(), DrawError>(())),
            ),
            r matches Err(e) ==> final(self).attempts() == old(self).attempts().push(
                (call@, Err::<(), DrawError>(e)),
            ),
            r matches Ok(_) ==> final(self).draws() == old(self).draws().push(call@),
            r matches Err(_) ==> final(self).draws() == old(self).draws(),
    ;
}

/// An active graphics device: allocates the per-kind object buffers and
/// compiles and links composed programs.  Both operations keep an abstract
/// record of the requests made and their outcomes, so a caller's contract
/// can tie its own result to what the device actually answered.
pub trait Facade: Sized {
    /// The buffer allocations performed so far, in order: the kind
    /// requested and the outcome.
    spec fn buffer_history(&self) -> Seq<(Object, Result<ObjectBuffers, ObjectCreationError>)>;

    /// The program links performed so far, in order: the source text of
    /// both stages and the outcome.
    spec fn link_history(&self) -> Seq<((Seq<char>, Seq<char>), Result<ProgramId, ProgramError>)>;

    /// Builds the buffer set of one object kind.  A successful allocation
    /// hands back a non-empty, well-formed buffer set.
    fn create_buffers(&mut self, object: Object) -> (r: Result<
        ObjectBuffers,
        ObjectCreationError,
    >)
        ensures
            r matches Ok(b) ==> b.wf(),
            final(self).buffer_history() == old(self).buffer_history().push((object, r)),
            final(self).link_history() == old(self).link_history(),
    ;

    /// Compiles and links one composed program.
    fn link_program(&mut self, source: &ProgramSource) -> (r: Result<ProgramId, ProgramError>)
        ensures
            final(self).link_history() == old(self).link_history().push(
                ((source.vertex@, source.fragment@), r),
            ),
            final(self).buffer_history() == old(self).buffer_history(),
    ;
}

} // verus!
