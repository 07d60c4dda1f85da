//! A small real-time rendering core: a fixed catalog of object shapes, a
//! composer that stitches shader stage fragments into one linkable
//! program, a uniform-binding capability for per-instance parameters, and
//! a render list that turns enqueued instances into one draw call each.
//!
//! The GPU stays behind two capability traits: a [`backend::Facade`]
//! allocates buffers and links programs, and a [`backend::Surface`]
//! receives the draw calls.  Everything in between — which buffers exist,
//! what the composed program text is, which uniforms each draw call binds,
//! and in what order the calls are issued — is specified and verified
//! here.

pub mod backend;
pub mod headless;
pub mod object;
pub mod pipeline;
pub mod shader;
pub mod values;

pub use object::Object;
pub use pipeline::instance::{Instance, InstanceParams};

use vstd::prelude::*;
use crate::backend::{
    DrawCall, DrawError, DrawParameters, Facade, ProgramError, ProgramId, SpecDrawCall, Surface,
};
use crate::object::{ObjectBuffers, ObjectCreationError, NUM_OBJECT_TYPES};
use crate::pipeline::instance::UniformsPair;
use crate::values::{Mat4, Scalar, UniformList, UniformValue, Vec3};

verus! {

/// A failure while building [`Resources`]: either one object kind's buffer
/// allocation failed, or the shared program could not be composed, compiled
/// or linked.  Construction is fail-fast: the first error is returned and
/// no partial resources exist.
#[derive(Debug, PartialEq)]
pub enum CreationError {
    ObjectCreationError(ObjectCreationError),
    ProgramChooserCreationError(ProgramError),
}

impl From<ObjectCreationError> for CreationError {
    fn from(err: ObjectCreationError) -> (r: CreationError) {
        CreationError::ObjectCreationError(err)
    }
}

impl vstd::std_specs::convert::FromSpecImpl<ObjectCreationError> for CreationError {
    open spec fn obeys_from_spec() -> bool {
        true
    }

    open spec fn from_spec(v: ObjectCreationError) -> CreationError {
        CreationError::ObjectCreationError(v)
    }
}

impl From<ProgramError> for CreationError {
    fn from(err: ProgramError) -> (r: CreationError) {
        CreationError::ProgramChooserCreationError(err)
    }
}

impl vstd::std_specs::convert::FromSpecImpl<ProgramError> for CreationError {
    open spec fn obeys_from_spec() -> bool {
        true
    }

    open spec fn from_spec(v: ProgramError) -> CreationError {
        CreationError::ProgramChooserCreationError(v)
    }
}

/// Holds when `entries` records, in kind order, one successful buffer
/// allocation per declared kind, the slot of kind k answered with
/// `buffers[k]`.
pub open spec fn spec_buffers_allocated(
    entries: Seq<(Object, Result<ObjectBuffers, ObjectCreationError>)>,
    buffers: Seq<ObjectBuffers>,
) -> bool {
    &&& entries.len() == NUM_OBJECT_TYPES
    &&& buffers.len() == NUM_OBJECT_TYPES
    &&& forall|k: int|
        0 <= k < NUM_OBJECT_TYPES ==> #[trigger] entries[k] == (
            Object::spec_from_index(k),
            Ok::<ObjectBuffers, ObjectCreationError>(buffers[k]),
        )
}

/// Holds when `entries` records successful allocations for the kinds
/// before slot k, in kind order, and then kind k failing with `e`: the
/// first failure, with no further allocation attempted.
pub open spec fn spec_buffers_failed_at(
    entries: Seq<(Object, Result<ObjectBuffers, ObjectCreationError>)>,
    k: int,
    e: ObjectCreationError,
) -> bool {
    &&& entries.len() == k + 1
    &&& forall|j: int|
        0 <= j < k ==> ((#[trigger] entries[j]).0 == Object::spec_from_index(j) && (entries[j].1
            matches Ok(_)))
    &&& entries[k] == (Object::spec_from_index(k), Err::<ObjectBuffers, ObjectCreationError>(e))
}

/// Holds when `entries` records one successful allocation per declared
/// kind, in kind order.
pub open spec fn spec_buffers_all_ok(
    entries: Seq<(Object, Result<ObjectBuffers, ObjectCreationError>)>,
) -> bool {
    &&& entries.len() == NUM_OBJECT_TYPES
    &&& forall|k: int|
        0 <= k < NUM_OBJECT_TYPES ==> ((#[trigger] entries[k]).0 == Object::spec_from_index(k) && (
        entries[k].1 matches Ok(_)))
}

/// The camera of one frame: a view transform and a projection.
#[derive(Clone, Copy, Debug, PartialEq, Eq, Structural)]
pub struct Camera {
    pub view: Mat4,
    pub projection: Mat4,
}

/// Per-frame shared state, borrowed by `render` for the duration of one
/// call: the camera, the main light's position and the elapsed time.
#[derive(Clone, Copy, Debug, PartialEq, Eq, Structural)]
pub struct Context {
    pub camera: Camera,
    pub main_light_pos: Vec3,
    pub elapsed_time_secs: Scalar,
}

/// Owns what rendering shares across all frames: the compiled program and
/// one buffer set per object kind, created once at startup and immutable
/// afterwards.
pub struct Resources {
    object_buffers: Vec<ObjectBuffers>,
    program: ProgramId,
}

impl Resources {
    /// The buffer sets, one per kind, indexed by the kind's dense slot.
    pub closed spec fn spec_buffers(&self) -> Seq<ObjectBuffers> {
        self.object_buffers@
    }

    /// The handle of the shared compiled program.
    pub closed spec fn spec_program(&self) -> ProgramId {
        self.program
    }

    /// Every declared kind has its slot filled with a non-empty buffer set.
    pub open spec fn wf(&self) -> bool {
        &&& self.spec_buffers().len() == NUM_OBJECT_TYPES
        &&& forall|i: int|
            0 <= i < self.spec_buffers().len() ==> (#[trigger] self.spec_buffers()[i]).wf()
    }

    /// Builds the buffer set of every object kind, in kind order with no
    /// gaps, composes the object pipeline's program and links it.
    /// Fail-fast: the first failure the facade reports is returned,
    /// wrapped by origin, and no partial resources exist.  Every error
    /// traces to an entry of the facade's own history — the library
    /// itself never fails (in particular, the composed program is proved
    /// valid, so no composition error can arise here).
    pub fn create<F: Facade>(facade: &mut F) -> (r: Result<Resources, CreationError>)
        ensures
            r matches Ok(res) ==> res.wf(),
            r matches Ok(res) ==> spec_buffers_allocated(
                final(facade).buffer_history().skip(old(facade).buffer_history().len() as int),
                res.spec_buffers(),
            ),
            r matches Ok(res) ==> final(facade).link_history().drop_last()
                == old(facade).link_history()
                && final(facade).link_history().len() == old(facade).link_history().len() + 1
                && final(facade).link_history().last().1
                == Ok::<ProgramId, ProgramError>(res.spec_program()),
            r matches Err(CreationError::ObjectCreationError(e)) ==> spec_buffers_failed_at(
                final(facade).buffer_history().skip(old(facade).buffer_history().len() as int),
                final(facade).buffer_history().len() - old(facade).buffer_history().len() - 1,
                e,
            ) && final(facade).buffer_history().len()
                <= old(facade).buffer_history().len() + NUM_OBJECT_TYPES
                && final(facade).link_history() == old(facade).link_history(),
            r matches Err(CreationError::ProgramChooserCreationError(e)) ==> spec_buffers_all_ok(
                final(facade).buffer_history().skip(old(facade).buffer_history().len() as int),
            ) && final(facade).link_history().drop_last() == old(facade).link_history()
                && final(facade).link_history().len() == old(facade).link_history().len() + 1
                && final(facade).link_history().last().1 == Err::<ProgramId, ProgramError>(e),
    {
        let ghost h0 = facade.buffer_history();
        let ghost l0 = facade.link_history();
        let mut object_buffers: Vec<ObjectBuffers> = Vec::new();
        let mut i: usize = 0;
        while i < NUM_OBJECT_TYPES
            invariant
                i <= NUM_OBJECT_TYPES,
                h0 == old(facade).buffer_history(),
                l0 == old(facade).link_history(),
                object_buffers@.len() == i,
                forall|j: int| 0 <= j < i ==> (#[trigger] object_buffers@[j]).wf(),
                facade.link_history() == l0,
                facade.buffer_history() == h0 + Seq::new(
                    i as nat,
                    |k: int|
                        (
                            Object::spec_from_index(k),
                            Ok::<ObjectBuffers, ObjectCreationError>(object_buffers@[k]),
                        ),
                ),
            decreases NUM_OBJECT_TYPES - i,
        {
            let ghost entries = Seq::new(
                i as nat,
                |k: int|
                    (
                        Object::spec_from_index(k),
                        Ok::<ObjectBuffers, ObjectCreationError>(object_buffers@[k]),
                    ),
            );
            let object = Object::from_index(i);
            match facade.create_buffers(object) {
                Ok(buffers) => {
                    object_buffers.push(buffers);
                    proof {
                        assert(Seq::new(
                            (i + 1) as nat,
                            |k: int|
                                (
                                    Object::spec_from_index(k),
                                    Ok::<ObjectBuffers, ObjectCreationError>(object_buffers@[k]),
                                ),
                        ) =~= entries.push(
                            (
                                Object::spec_from_index(i as int),
                                Ok::<ObjectBuffers, ObjectCreationError>(buffers),
                            ),
                        ));
                        assert(h0 + entries.push(
                            (
                                Object::spec_from_index(i as int),
                                Ok::<ObjectBuffers, ObjectCreationError>(buffers),
                            ),
                        ) =~= (h0 + entries).push(
                            (
                                Object::spec_from_index(i as int),
                                Ok::<ObjectBuffers, ObjectCreationError>(buffers),
                            ),
                        ));
                    }
                },
                Err(e) => {
                    proof {
                        assert(facade.buffer_history().skip(h0.len() as int) =~= entries.push(
                            (
                                Object::spec_from_index(i as int),
                                Err::<ObjectBuffers, ObjectCreationError>(e),
                            ),
                        ));
                        assert(facade.buffer_history().len() == h0.len() + i + 1);
                        assert(spec_buffers_failed_at(
                            facade.buffer_history().skip(h0.len() as int),
                            facade.buffer_history().len() - h0.len() - 1,
                            e,
                        ));
                    }
                    return Err(CreationError::ObjectCreationError(e));
                },
            }
            i = i + 1;
        }
        let ghost entries = Seq::new(
            NUM_OBJECT_TYPES as nat,
            |k: int|
                (
                    Object::spec_from_index(k),
                    Ok::<ObjectBuffers, ObjectCreationError>(object_buffers@[k]),
                ),
        );
        proof {
            assert(facade.buffer_history().skip(h0.len() as int) =~= entries);
            assert(spec_buffers_allocated(entries, object_buffers@));
        }
        let core = pipeline::instance::shader_core();
        let source = match core.compose() {
            Ok(source) => source,
            Err(e) => {
                // Unreachable: the object pipeline's core is proved valid,
                // so its composition cannot fail; the mapping is kept for
                // the honest shape of the error path.
                return Err(CreationError::ProgramChooserCreationError(ProgramError::Composition(e)));
            },
        };
        let ghost source_text = (source.vertex@, source.fragment@);
        match facade.link_program(&source) {
            Ok(program) => {
                let resources = Resources { object_buffers, program };
                proof {
                    assert(facade.buffer_history().skip(h0.len() as int) =~= entries);
                    assert(spec_buffers_allocated(entries, resources.spec_buffers()));
                    assert(facade.link_history() == l0.push(
                        (source_text, Ok::<ProgramId, ProgramError>(resources.spec_program())),
                    ));
                }
                Ok(resources)
            },
            Err(e) => {
                proof {
                    assert(facade.buffer_history().skip(h0.len() as int) =~= entries);
                    assert(spec_buffers_allocated(entries, object_buffers@));
                    assert(facade.link_history() == l0.push(
                        (source_text, Err::<ProgramId, ProgramError>(e)),
                    ));
                }
                Err(CreationError::ProgramChooserCreationError(e))
            },
        }
    }

    /// Resolves an object kind to its buffer set: total over every declared
    /// kind, and the answer is non-empty.
    pub fn get_object_buffers(&self, object: Object) -> (b: &ObjectBuffers)
        requires
            self.wf(),
        ensures
            *b == self.spec_buffers()[object.spec_index()],
            b.wf(),
    {
        let i = object.index();
        &self.object_buffers[i]
    }

    /// The handle of the shared compiled program.
    pub fn program(&self) -> (p: ProgramId)
        ensures
            p == self.spec_program(),
    {
        self.program
    }
}

/// The insertion-order list of instances enqueued for one frame.  By
/// convention it is cleared and refilled each frame; the type itself does
/// not enforce that.
pub struct RenderList {
    instances: Vec<Instance<UniformList>>,
}

impl View for RenderList {
    type V = Seq<(Object, Seq<(Seq<char>, UniformValue)>)>;

    closed spec fn view(&self) -> Seq<(Object, Seq<(Seq<char>, UniformValue)>)> {
        self.instances@.map_values(
            |inst: Instance<UniformList>| (inst.object, inst.params.spec_uniforms()),
        )
    }
}

impl Default for RenderList {
    /// An empty list.
    fn default() -> (r: Self)
        ensures
            r@ == Seq::<(Object, Seq<(Seq<char>, UniformValue)>)>::empty(),
    {
        let r = RenderList { instances: Vec::new() };
        proof {
            assert(r@ =~= Seq::<(Object, Seq<(Seq<char>, UniformValue)>)>::empty());
        }
        r
    }
}

/// The draw calls one render of the given instance list issues: exactly
/// one call per instance, in insertion order.  Each call resolves the
/// instance's buffers by kind, binds the context uniforms first and the
/// instance's own uniforms second, and runs under the fixed pipeline
/// state.
pub open spec fn spec_draw_calls(
    items: Seq<(Object, Seq<(Seq<char>, UniformValue)>)>,
    resources: Resources,
    context: Context,
) -> Seq<SpecDrawCall> {
    items.map_values(
        |it: (Object, Seq<(Seq<char>, UniformValue)>)|
            SpecDrawCall {
                object: it.0,
                buffers: resources.spec_buffers()[it.0.spec_index()],
                program: resources.spec_program(),
                uniforms: context.spec_uniforms() + it.1,
                params: DrawParameters::spec_instance_state(),
            },
    )
}

/// The attempt record of draw calls that all completed: each call paired
/// with a successful outcome.
pub open spec fn spec_completed(calls: Seq<SpecDrawCall>) -> Seq<
    (SpecDrawCall, Result<(), DrawError>),
> {
    calls.map_values(|c: SpecDrawCall| (c, Ok::<(), DrawError>(())))
}

impl RenderList {
    /// An empty list.
    pub fn new() -> (r: RenderList)
        ensures
            r@ == Seq::<(Object, Seq<(Seq<char>, UniformValue)>)>::empty(),
    {
        RenderList::default()
    }

    /// Number of enqueued instances.
    pub fn len(&self) -> (n: usize)
        ensures
            n == self@.len(),
    {
        self.instances.len()
    }

    /// Enqueues one instance: an object kind with this instance's
    /// parameters, taken over by copy.
    pub fn add<T: InstanceParams>(&mut self, object: Object, params: &T)
        ensures
            final(self)@ == old(self)@.push((object, params.spec_uniforms())),
    {
        let uniforms = params.uniforms();
        self.instances.push(Instance { object, params: uniforms });
        proof {
            assert(self@ =~= old(self)@.push((object, params.spec_uniforms())));
        }
    }

    /// Enqueues a pre-built instance.
    pub fn add_instance<T: InstanceParams>(&mut self, instance: &Instance<T>)
        ensures
            final(self)@ == old(self)@.push((instance.object, instance.params.spec_uniforms())),
    {
        self.add(instance.object, &instance.params);
    }

    /// Drops every enqueued instance; a subsequent render issues no draw
    /// call.
    pub fn clear(&mut self)
        ensures
            final(self)@ == Seq::<(Object, Seq<(Seq<char>, UniformValue)>)>::empty(),
    {
        self.instances.clear();
        proof {
            assert(self@ =~= Seq::<(Object, Seq<(Seq<char>, UniformValue)>)>::empty());
        }
    }

    /// Draws every enqueued instance in insertion order against the shared
    /// program: one draw call per instance, combining the context uniforms
    /// with the instance uniforms, under clockwise backface culling and
    /// depth test "less" with depth writes on.  The first failing draw
    /// call aborts the rest of the frame: the surface then holds exactly
    /// the completed calls for the instances before the failing one, the
    /// failing instance's call was attempted, and no later instance was
    /// ever drawn.
    pub fn render<S: Surface>(
        &self,
        resources: &Resources,
        context: &Context,
        target: &mut S,
    ) -> (r: Result<(), DrawError>)
        requires
            resources.wf(),
        ensures
            r matches Ok(_) ==> final(target).draws() == old(target).draws() + spec_draw_calls(
                self@,
                *resources,
                *context,
            ),
            r matches Ok(_) ==> final(target).attempts() == old(target).attempts()
                + spec_completed(spec_draw_calls(self@, *resources, *context)),
            r matches Err(e) ==> exists|n: int|
                0 <= n < self@.len() && final(target).draws() == old(target).draws()
                    + spec_draw_calls(self@, *resources, *context).take(n)
                    && final(target).attempts() == old(target).attempts() + spec_completed(
                    spec_draw_calls(self@, *resources, *context).take(n),
                ).push(
                    (
                        spec_draw_calls(self@, *resources, *context)[n],
                        Err::<(), DrawError>(e),
                    ),
                ),
    {
        let ghost base = target.draws();
        let ghost attempts0 = target.attempts();
        let ghost calls = spec_draw_calls(self@, *resources, *context);
        let params = DrawParameters::instance_state();
        let context_uniforms = context.uniforms();
        let program = resources.program();
        let mut i: usize = 0;
        while i < self.instances.len()
            invariant
                resources.wf(),
                i <= self.instances@.len(),
                self@.len() == self.instances@.len(),
                calls == spec_draw_calls(self@, *resources, *context),
                base == old(target).draws(),
                attempts0 == old(target).attempts(),
                target.draws() == base + calls.take(i as int),
                target.attempts() == attempts0 + spec_completed(calls.take(i as int)),
                context_uniforms@ == context.spec_uniforms(),
                params == DrawParameters::spec_instance_state(),
                program == resources.spec_program(),
            decreases self.instances@.len() - i,
        {
            let inst = &self.instances[i];
            let buffers = resources.get_object_buffers(inst.object);
            let pair = UniformsPair(&context_uniforms, &inst.params);
            let uniforms = pair.combined();
            let call = DrawCall { object: inst.object, buffers: *buffers, program, uniforms, params };
            proof {
                assert(self@[i as int] == (inst.object, inst.params.spec_uniforms()));
                assert(call@ == calls[i as int]);
                assert(calls.take(i + 1 as int).drop_last() =~= calls.take(i as int));
                assert(base + calls.take(i + 1 as int) =~= (base + calls.take(i as int)).push(
                    calls[i as int],
                ));
                assert(attempts0 + spec_completed(calls.take(i + 1 as int)) =~= (attempts0
                    + spec_completed(calls.take(i as int))).push(
                    (calls[i as int], Ok::<(), DrawError>(())),
                ));
            }
            match target.draw(&call) {
                Ok(_) => {},
                Err(e) => {
                    proof {
                        assert(0 <= i as int && (i as int) < self@.len());
                        assert(target.draws() == base + calls.take(i as int));
                        assert(target.attempts() == (attempts0 + spec_completed(calls.take(
                            i as int,
                        ))).push((calls[i as int], Err::<(), DrawError>(e))));
                        assert(attempts0 + spec_completed(calls.take(i as int)).push(
                            (calls[i as int], Err::<(), DrawError>(e)),
                        ) =~= (attempts0 + spec_completed(calls.take(i as int))).push(
                            (calls[i as int], Err::<(), DrawError>(e)),
                        ));
                    }
                    return Err(e);
                },
            }
            i = i + 1;
        }
        proof {
            assert(calls.take(self@.len() as int) =~= calls);
        }
        Ok(())
    }
}

/// Law: a list with no instances renders nothing — the draw-call sequence
/// of an empty list is empty, whatever the resources and context.
pub proof fn lemma_empty_list_draws_nothing(
    items: Seq<(Object, Seq<(Seq<char>, UniformValue)>)>,
    resources: Resources,
    context: Context,
)
    requires
        items.len() == 0,
    ensures
        spec_draw_calls(items, resources, context).len() == 0,
{
}

/// Law: rendering issues exactly one draw call per enqueued instance, in
/// insertion order; each call draws the instance's own kind against its
/// buffer slot and the shared program, binds the context uniforms before
/// the instance uniforms, and runs under the fixed pipeline state.
pub proof fn lemma_draw_calls_follow_insertion_order(
    items: Seq<(Object, Seq<(Seq<char>, UniformValue)>)>,
    resources: Resources,
    context: Context,
)
    ensures
        spec_draw_calls(items, resources, context).len() == items.len(),
        forall|i: int|
            0 <= i < items.len() ==> (#[trigger] spec_draw_calls(items, resources, context)[i]).object
                == items[i].0,
        forall|i: int|
            0 <= i < items.len() ==> (#[trigger] spec_draw_calls(items, resources, context)[i]).uniforms
                == context.spec_uniforms() + items[i].1,
        forall|i: int|
            0 <= i < items.len() ==> (#[trigger] spec_draw_calls(items, resources, context)[i]).buffers
                == resources.spec_buffers()[items[i].0.spec_index()],
        forall|i: int|
            0 <= i < items.len() ==> (#[trigger] spec_draw_calls(items, resources, context)[i]).program
                == resources.spec_program(),
        forall|i: int|
            0 <= i < items.len() ==> (#[trigger] spec_draw_calls(items, resources, context)[i]).params
                == DrawParameters::spec_instance_state(),
{
}

} // verus!
