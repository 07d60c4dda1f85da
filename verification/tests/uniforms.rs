use render_core::pipeline::conduit;
use render_core::pipeline::instance::{DefaultInstanceParams, InstanceParams, UniformsPair};
use render_core::pipeline::light::Light;
use render_core::values::{Mat4, Scalar, UniformList, UniformValue, Vec3, Vec4};
use render_core::{Camera, Context};

fn scalar(x: f32) -> Scalar {
    Scalar { bits: x.to_bits() }
}

fn names(list: &UniformList) -> Vec<String> {
    list.bindings.iter().map(|b| b.name.clone()).collect()
}

#[test]
fn pairing_is_order_preserving_and_non_lossy() {
    let mut a = UniformList::new();
    a.push("x".to_owned(), UniformValue::Float(scalar(1.0)));
    a.push("y".to_owned(), UniformValue::Float(scalar(2.0)));
    let mut b = UniformList::new();
    b.push("z".to_owned(), UniformValue::Float(scalar(3.0)));

    let combined = UniformsPair(&a, &b).combined();
    assert_eq!(names(&combined), vec!["x", "y", "z"]);

    // Pairing must visit exactly what concatenating a then b by hand visits.
    let mut manual = a.duplicate();
    manual.extend_from(&b);
    assert_eq!(combined.bindings, manual.bindings);
}

#[test]
fn pairing_visitation_appends_after_existing_entries() {
    let mut a = UniformList::new();
    a.push("x".to_owned(), UniformValue::Bool(true));
    let mut b = UniformList::new();
    b.push("y".to_owned(), UniformValue::Bool(false));

    let mut sink = UniformList::new();
    sink.push("w".to_owned(), UniformValue::Float(scalar(0.5)));
    UniformsPair(&a, &b).visit_values(&mut sink);
    assert_eq!(names(&sink), vec!["w", "x", "y"]);
}

#[test]
fn default_instance_params_are_identity_and_opaque_white() {
    let params = DefaultInstanceParams::default();
    assert_eq!(params.transform, Mat4::identity());
    let white = Vec4 { x: scalar(1.0), y: scalar(1.0), z: scalar(1.0), w: scalar(1.0) };
    assert_eq!(params.color, white);

    let uniforms = params.uniforms();
    assert_eq!(names(&uniforms), vec!["mat_model", "color"]);
    assert_eq!(uniforms.bindings[0].value, UniformValue::Mat4(Mat4::identity()));
    assert_eq!(uniforms.bindings[1].value, UniformValue::Vec4(white));
}

#[test]
fn light_uniforms_carry_the_light_vocabulary() {
    let light = Light {
        position: Vec3 { x: scalar(1.0), y: scalar(2.0), z: scalar(3.0) },
        attenuation: Vec3 { x: scalar(1.0), y: scalar(0.1), z: scalar(0.01) },
        color: Vec3 { x: scalar(1.0), y: scalar(1.0), z: scalar(0.0) },
        is_main: true,
    };
    let uniforms = light.uniforms();
    assert_eq!(
        names(&uniforms),
        vec!["light_position", "light_attenuation", "light_color", "light_is_main"]
    );
    assert_eq!(uniforms.bindings[3].value, UniformValue::Bool(true));
}

#[test]
fn default_light_is_dark_and_not_main() {
    let light = Light::default();
    assert_eq!(light.position, Vec3 { x: scalar(0.0), y: scalar(0.0), z: scalar(0.0) });
    assert!(!light.is_main);
}

#[test]
fn conduit_params_uniforms_carry_the_animation_vocabulary() {
    let params = conduit::Params {
        phase: scalar(0.25),
        start: scalar(0.1),
        end: scalar(0.9),
        ..conduit::Params::default()
    };
    let uniforms = params.uniforms();
    assert_eq!(names(&uniforms), vec!["mat_model", "color", "phase", "start", "end"]);
    assert_eq!(uniforms.bindings[2].value, UniformValue::Float(scalar(0.25)));
    assert_eq!(uniforms.bindings[3].value, UniformValue::Float(scalar(0.1)));
    assert_eq!(uniforms.bindings[4].value, UniformValue::Float(scalar(0.9)));
}

#[test]
fn default_conduit_params_are_identity_and_zero() {
    let params = conduit::Params::default();
    assert_eq!(params.transform, Mat4::identity());
    assert_eq!(params.color, Vec4::zeros());
    assert_eq!(params.phase, scalar(0.0));
}

#[test]
fn context_uniforms_carry_camera_time_and_light_position() {
    let context = Context {
        camera: Camera { view: Mat4::identity(), projection: Mat4::identity() },
        main_light_pos: Vec3 { x: scalar(0.0), y: scalar(10.0), z: scalar(0.0) },
        elapsed_time_secs: scalar(4.5),
    };
    let uniforms = context.uniforms();
    assert_eq!(names(&uniforms), vec!["mat_view", "mat_projection", "light_pos", "t"]);
    assert_eq!(uniforms.bindings[3].value, UniformValue::Float(scalar(4.5)));
}

#[test]
fn scalar_one_matches_ieee_bits() {
    assert_eq!(Scalar::one(), scalar(1.0));
    assert_eq!(Scalar::zero(), scalar(0.0));
    assert_eq!(Mat4::identity().c3.w, scalar(1.0));
    assert_eq!(Mat4::identity().c3.x, scalar(0.0));
}
