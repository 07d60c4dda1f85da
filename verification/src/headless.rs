//! Headless doubles for the two graphics capabilities: a facade that hands
//! out handle numbers instead of allocating GPU memory, and a surface that
//! records the draw calls it receives.  They run the whole pipeline
//! without a graphics device, which is how the crate's tests observe what
//! a frame would do.

use vstd::prelude::*;
use crate::backend::{
    DrawCall, DrawError, Facade, ProgramError, ProgramId, SpecDrawCall, Surface,
};
use crate::object::{IndexData, Object, ObjectBuffers, ObjectCreationError};
use crate::shader::ProgramSource;

verus! {

/// A graphics device double: allocations always succeed (unless told to
/// fail for error-path testing) and yield fresh handle numbers, with a
/// fixed vertex count per object kind.
pub struct HeadlessFacade {
    pub next_id: u64,
    /// When set, every vertex-buffer allocation fails.
    pub fail_buffers: bool,
    /// When set, every index-buffer allocation fails.
    pub fail_index: bool,
    /// When set, every program link fails.
    pub fail_link: bool,
    /// The abstract record of buffer allocations performed.
    pub buffer_record: Ghost<Seq<(Object, Result<ObjectBuffers, ObjectCreationError>)>>,
    /// The abstract record of program links performed.
    pub link_record: Ghost<Seq<((Seq<char>, Seq<char>), Result<ProgramId, ProgramError>)>>,
}

impl HeadlessFacade {
    /// A facade with an empty history whose failure switches start out
    /// off.
    pub fn new() -> (r: HeadlessFacade)
        ensures
            !r.fail_buffers,
            !r.fail_index,
            !r.fail_link,
            r.buffer_history() == Seq::<(Object, Result<ObjectBuffers, ObjectCreationError>)>::empty(),
            r.link_history() == Seq::<
                ((Seq<char>, Seq<char>), Result<ProgramId, ProgramError>),
            >::empty(),
    {
        HeadlessFacade {
            next_id: 1,
            fail_buffers: false,
            fail_index: false,
            fail_link: false,
            buffer_record: Ghost(Seq::empty()),
            link_record: Ghost(Seq::empty()),
        }
    }
}

impl Facade for HeadlessFacade {
    closed spec fn buffer_history(&self) -> Seq<(Object, Result<ObjectBuffers, ObjectCreationError>)> {
        self.buffer_record@
    }

    closed spec fn link_history(&self) -> Seq<
        ((Seq<char>, Seq<char>), Result<ProgramId, ProgramError>),
    > {
        self.link_record@
    }

    fn create_buffers(&mut self, object: Object) -> (r: Result<
        ObjectBuffers,
        ObjectCreationError,
    >) {
        let result: Result<ObjectBuffers, ObjectCreationError> = if self.fail_buffers {
            Err(ObjectCreationError::VertexBufferCreationError)
        } else {
            let vertex_buffer = self.next_id;
            self.next_id = self.next_id.wrapping_add(1);
            match object {
                Object::Cube => {
                    if self.fail_index {
                        Err(ObjectCreationError::IndexBufferCreationError)
                    } else {
                        let index_buffer = self.next_id;
                        self.next_id = self.next_id.wrapping_add(1);
                        Ok(
                            ObjectBuffers {
                                vertex_buffer,
                                vertex_count: 24,
                                index: IndexData::Indexed { buffer: index_buffer, count: 36 },
                            },
                        )
                    }
                },
                Object::Sphere => Ok(
                    ObjectBuffers { vertex_buffer, vertex_count: 240, index: IndexData::NoIndices },
                ),
                Object::Cylinder => Ok(
                    ObjectBuffers { vertex_buffer, vertex_count: 132, index: IndexData::NoIndices },
                ),
            }
        };
        self.buffer_record = Ghost(self.buffer_record@.push((object, result)));
        result
    }

    fn link_program(&mut self, source: &ProgramSource) -> (r: Result<ProgramId, ProgramError>) {
        let result: Result<ProgramId, ProgramError> = if self.fail_link {
            Err(ProgramError::LinkingError)
        } else {
            let id = self.next_id;
            self.next_id = self.next_id.wrapping_add(1);
            Ok(ProgramId { id })
        };
        self.link_record = Ghost(
            self.link_record@.push(((source.vertex@, source.fragment@), result)),
        );
        result
    }
}

/// A drawable target double that records every draw call it receives, in
/// order, and can be told to start failing after a number of calls.
pub struct RecordingSurface {
    pub calls: Vec<DrawCall>,
    /// The abstract record of every call received with its outcome,
    /// failed ones included.
    pub attempted: Ghost<Seq<(SpecDrawCall, Result<(), DrawError>)>>,
    /// When set, every draw past this many recorded calls fails.
    pub fail_after: Option<usize>,
}

impl RecordingSurface {
    /// A surface with an empty record that never fails.
    pub fn new() -> (r: RecordingSurface)
        ensures
            r.draws() == Seq::<SpecDrawCall>::empty(),
            r.attempts() == Seq::<(SpecDrawCall, Result<(), DrawError>)>::empty(),
            r.fail_after matches None,
    {
        let r = RecordingSurface {
            calls: Vec::new(),
            attempted: Ghost(Seq::empty()),
            fail_after: None,
        };
        proof {
            assert(r.draws() =~= Seq::<SpecDrawCall>::empty());
        }
        r
    }

    /// How many draw calls have completed.
    pub fn call_count(&self) -> (n: usize)
        ensures
            n == self.draws().len(),
    {
        self.calls.len()
    }

    /// The completed call at a given rank.
    pub fn get_call(&self, i: usize) -> (c: &DrawCall)
        requires
            i < self.draws().len(),
        ensures
            c@ == self.draws()[i as int],
    {
        &self.calls[i]
    }
}

impl Surface for RecordingSurface {
    closed spec fn draws(&self) -> Seq<SpecDrawCall> {
        self.calls@.map_values(|c: DrawCall| c@)
    }

    closed spec fn attempts(&self) -> Seq<(SpecDrawCall, Result<(), DrawError>)> {
        self.attempted@
    }

    fn draw(&mut self, call: &DrawCall) -> (r: Result<(), DrawError>) {
        let fail = match self.fail_after {
            Some(k) => self.calls.len() >= k,
            None => false,
        };
        if fail {
            self.attempted = Ghost(
                self.attempted@.push((call@, Err::<(), DrawError>(DrawError::NoDepthBuffer))),
            );
            return Err(DrawError::NoDepthBuffer);
        }
        self.attempted = Ghost(self.attempted@.push((call@, Ok::<(), DrawError>(()))));
        let stored = call.duplicate();
        self.calls.push(stored);
        proof {
            assert(self.draws() =~= old(self).draws().push(call@));
        }
        Ok(())
    }
}

} // verus!
