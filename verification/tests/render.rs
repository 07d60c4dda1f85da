use render_core::backend::{BackfaceCullingMode, DepthTest, DrawError};
use render_core::headless::{HeadlessFacade, RecordingSurface};
use render_core::object::IndexData;
use render_core::pipeline::instance::DefaultInstanceParams;
use render_core::pipeline::light::Light;
use render_core::values::{Mat4, Scalar, UniformBinding, UniformValue, Vec3, Vec4};
use render_core::{Camera, Context, CreationError, Object, RenderList, Resources};

fn scalar(x: f32) -> Scalar {
    Scalar { bits: x.to_bits() }
}

fn test_context() -> Context {
    Context {
        camera: Camera { view: Mat4::identity(), projection: Mat4::identity() },
        main_light_pos: Vec3 { x: scalar(0.0), y: scalar(8.0), z: scalar(0.0) },
        elapsed_time_secs: scalar(1.5),
    }
}

fn translated(x: f32) -> Mat4 {
    let mut m = Mat4::identity();
    m.c3.x = scalar(x);
    m
}

fn find<'a>(bindings: &'a [UniformBinding], name: &str) -> &'a UniformValue {
    &bindings.iter().find(|b| b.name == name).expect("binding missing").value
}

#[test]
fn resources_cover_every_declared_kind_with_non_empty_buffers() {
    let mut facade = HeadlessFacade::new();
    let resources = Resources::create(&mut facade).expect("creation must succeed");
    for kind in [Object::Cube, Object::Sphere, Object::Cylinder] {
        let buffers = resources.get_object_buffers(kind);
        assert!(buffers.vertex_count > 0);
        if let IndexData::Indexed { count, .. } = buffers.index {
            assert!(count > 0);
        }
    }
}

#[test]
fn creation_fails_fast_on_buffer_allocation_failure() {
    let mut facade = HeadlessFacade::new();
    facade.fail_buffers = true;
    match Resources::create(&mut facade) {
        Err(CreationError::ObjectCreationError(_)) => {},
        other => panic!("expected ObjectCreationError, got {:?}", other.map(|_| ())),
    }
}

#[test]
fn creation_fails_fast_on_index_buffer_failure() {
    let mut facade = HeadlessFacade::new();
    facade.fail_index = true;
    match Resources::create(&mut facade) {
        Err(CreationError::ObjectCreationError(e)) => {
            assert_eq!(e, render_core::object::ObjectCreationError::IndexBufferCreationError);
        }
        other => panic!("expected ObjectCreationError, got {:?}", other.map(|_| ())),
    }
}

#[test]
fn creation_fails_fast_on_link_failure() {
    let mut facade = HeadlessFacade::new();
    facade.fail_link = true;
    match Resources::create(&mut facade) {
        Err(CreationError::ProgramChooserCreationError(_)) => {},
        other => panic!("expected ProgramChooserCreationError, got {:?}", other.map(|_| ())),
    }
}

#[test]
fn creation_errors_wrap_their_origin() {
    let buffer_err = render_core::object::ObjectCreationError::VertexBufferCreationError;
    assert_eq!(
        CreationError::from(buffer_err),
        CreationError::ObjectCreationError(buffer_err)
    );
    let link_err = render_core::backend::ProgramError::LinkingError;
    assert!(matches!(
        CreationError::from(link_err),
        CreationError::ProgramChooserCreationError(render_core::backend::ProgramError::LinkingError)
    ));
}

#[test]
fn add_then_clear_leaves_the_list_empty_and_renders_nothing() {
    let mut facade = HeadlessFacade::new();
    let resources = Resources::create(&mut facade).unwrap();
    let mut list = RenderList::new();
    list.add(Object::Sphere, &DefaultInstanceParams::default());
    assert_eq!(list.len(), 1);
    list.clear();
    assert_eq!(list.len(), 0);
    let mut surface = RecordingSurface::new();
    assert!(list.render(&resources, &test_context(), &mut surface).is_ok());
    assert_eq!(surface.call_count(), 0);
}

#[test]
fn rendering_issues_one_draw_call_per_instance_in_insertion_order() {
    let mut facade = HeadlessFacade::new();
    let resources = Resources::create(&mut facade).unwrap();
    let mut list = RenderList::new();
    let offsets = [1.0f32, 2.0, 3.0];
    let kinds = [Object::Sphere, Object::Cube, Object::Cylinder];
    for (kind, offset) in kinds.iter().zip(offsets.iter()) {
        let params = DefaultInstanceParams {
            transform: translated(*offset),
            ..DefaultInstanceParams::default()
        };
        list.add(*kind, &params);
    }
    let mut surface = RecordingSurface::new();
    list.render(&resources, &test_context(), &mut surface).unwrap();
    assert_eq!(surface.call_count(), 3);
    for i in 0..3 {
        let call = surface.get_call(i);
        assert_eq!(call.object, kinds[i]);
        let bound = find(&call.uniforms.bindings, "mat_model");
        assert_eq!(*bound, UniformValue::Mat4(translated(offsets[i])));
    }
}

#[test]
fn a_failing_draw_aborts_the_rest_of_the_frame() {
    let mut facade = HeadlessFacade::new();
    let resources = Resources::create(&mut facade).unwrap();
    let mut list = RenderList::new();
    for _ in 0..3 {
        list.add(Object::Sphere, &DefaultInstanceParams::default());
    }
    let mut surface = RecordingSurface::new();
    surface.fail_after = Some(1);
    let result = list.render(&resources, &test_context(), &mut surface);
    assert_eq!(result, Err(DrawError::NoDepthBuffer));
    assert_eq!(surface.call_count(), 1);
}

#[test]
fn draw_calls_run_under_the_fixed_pipeline_state() {
    let mut facade = HeadlessFacade::new();
    let resources = Resources::create(&mut facade).unwrap();
    let mut list = RenderList::new();
    list.add(Object::Sphere, &DefaultInstanceParams::default());
    let mut surface = RecordingSurface::new();
    list.render(&resources, &test_context(), &mut surface).unwrap();
    let call = surface.get_call(0);
    assert_eq!(call.params.backface_culling, BackfaceCullingMode::CullClockwise);
    assert_eq!(call.params.depth_test, DepthTest::IfLess);
    assert!(call.params.depth_write);
    // Default parameters put the unit object at the origin in opaque white.
    assert_eq!(*find(&call.uniforms.bindings, "mat_model"), UniformValue::Mat4(Mat4::identity()));
    let white = Vec4 { x: scalar(1.0), y: scalar(1.0), z: scalar(1.0), w: scalar(1.0) };
    assert_eq!(*find(&call.uniforms.bindings, "color"), UniformValue::Vec4(white));
}

#[test]
fn sphere_with_red_color_and_main_light_scenario() {
    let mut facade = HeadlessFacade::new();
    let resources = Resources::create(&mut facade).unwrap();
    let mut list = RenderList::new();
    let red = Vec4 { x: scalar(1.0), y: scalar(0.0), z: scalar(0.0), w: scalar(1.0) };
    let params = DefaultInstanceParams { transform: Mat4::identity(), color: red };
    list.add(Object::Sphere, &params);
    let light = Light { is_main: true, ..Light::default() };
    list.add(Object::Sphere, &light);
    let mut surface = RecordingSurface::new();
    list.render(&resources, &test_context(), &mut surface).unwrap();
    assert_eq!(surface.call_count(), 2);
    let first = surface.get_call(0);
    assert_eq!(*find(&first.uniforms.bindings, "color"), UniformValue::Vec4(red));
    let second = surface.get_call(1);
    assert_eq!(*find(&second.uniforms.bindings, "light_is_main"), UniformValue::Bool(true));
}

#[test]
fn context_uniforms_are_bound_before_instance_uniforms() {
    let mut facade = HeadlessFacade::new();
    let resources = Resources::create(&mut facade).unwrap();
    let mut list = RenderList::new();
    list.add(Object::Cube, &DefaultInstanceParams::default());
    let mut surface = RecordingSurface::new();
    list.render(&resources, &test_context(), &mut surface).unwrap();
    let call = surface.get_call(0);
    let names: Vec<&str> = call.uniforms.bindings.iter().map(|b| b.name.as_str()).collect();
    assert_eq!(names, vec!["mat_view", "mat_projection", "light_pos", "t", "mat_model", "color"]);
}

#[test]
fn add_instance_enqueues_a_prebuilt_instance() {
    let mut facade = HeadlessFacade::new();
    let resources = Resources::create(&mut facade).unwrap();
    let mut list = RenderList::new();
    let instance = render_core::Instance {
        object: Object::Cylinder,
        params: DefaultInstanceParams::default(),
    };
    list.add_instance(&instance);
    assert_eq!(list.len(), 1);
    let mut surface = RecordingSurface::new();
    list.render(&resources, &test_context(), &mut surface).unwrap();
    assert_eq!(surface.call_count(), 1);
    assert_eq!(surface.get_call(0).object, Object::Cylinder);
}
