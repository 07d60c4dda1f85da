use render_core::pipeline::{conduit, instance};
use render_core::shader::{
    Core, CompositionError, FragmentCore, OutExpr, ValueType, VarDecl, VertexCore, VertexOutDef,
    VertexOutQualifier,
};

fn minimal_vertex() -> VertexCore {
    VertexCore {
        uniforms: Vec::new(),
        out_defs: Vec::new(),
        defs: String::new(),
        body: String::new(),
        out_exprs: Vec::new(),
    }
}

fn minimal_fragment() -> FragmentCore {
    FragmentCore {
        uniforms: Vec::new(),
        in_defs: Vec::new(),
        out_defs: Vec::new(),
        defs: String::new(),
        body: String::new(),
        out_exprs: Vec::new(),
    }
}

#[test]
fn composition_rejects_input_the_vertex_stage_does_not_produce() {
    let mut fragment = minimal_fragment();
    fragment.in_defs.push(VertexOutDef {
        name: "v_discard".to_owned(),
        ty: ValueType::Float,
        qualifier: VertexOutQualifier::Smooth,
    });
    let core = Core { vertex: minimal_vertex(), fragment };
    match core.compose() {
        Err(CompositionError::InputNotProduced { name }) => assert_eq!(name, "v_discard"),
        other => panic!("expected InputNotProduced, got {:?}", other),
    }
}

#[test]
fn composition_rejects_vertex_output_without_declaration() {
    let mut vertex = minimal_vertex();
    vertex.out_exprs.push(OutExpr { name: "v_ghosted".to_owned(), expr: "vec3(0.0)".to_owned() });
    let core = Core { vertex, fragment: minimal_fragment() };
    match core.compose() {
        Err(CompositionError::OutputNotDeclared { name }) => assert_eq!(name, "v_ghosted"),
        other => panic!("expected OutputNotDeclared, got {:?}", other),
    }
}

#[test]
fn composition_rejects_fragment_output_without_declaration() {
    let mut fragment = minimal_fragment();
    fragment.out_exprs.push(OutExpr { name: "f_color".to_owned(), expr: "color".to_owned() });
    let core = Core { vertex: minimal_vertex(), fragment };
    match core.compose() {
        Err(CompositionError::OutputNotDeclared { name }) => assert_eq!(name, "f_color"),
        other => panic!("expected OutputNotDeclared, got {:?}", other),
    }
}

#[test]
fn composition_accepts_builtin_attributes_as_fragment_inputs() {
    let mut fragment = minimal_fragment();
    fragment.in_defs.push(VertexOutDef {
        name: "position".to_owned(),
        ty: ValueType::Vec3,
        qualifier: VertexOutQualifier::Smooth,
    });
    fragment.in_defs.push(VertexOutDef {
        name: "normal".to_owned(),
        ty: ValueType::Vec3,
        qualifier: VertexOutQualifier::Smooth,
    });
    let core = Core { vertex: minimal_vertex(), fragment };
    assert!(core.compose().is_ok());
}

#[test]
fn composition_accepts_clip_position_as_vertex_output() {
    let mut vertex = minimal_vertex();
    vertex.out_exprs.push(OutExpr {
        name: "gl_Position".to_owned(),
        expr: "vec4(position, 1.0)".to_owned(),
    });
    let core = Core { vertex, fragment: minimal_fragment() };
    assert!(core.compose().is_ok());
}

#[test]
fn instance_core_composes_into_program_text() {
    let core = instance::shader_core();
    let source = core.compose().expect("the object pipeline core must compose");
    assert!(source.vertex.starts_with("#version 140\n"));
    assert!(source.vertex.contains("uniform mat4 mat_model;\n"));
    assert!(source.vertex.contains("uniform mat4 mat_view;\n"));
    assert!(source.vertex.contains("uniform mat4 mat_projection;\n"));
    assert!(source.vertex.contains("uniform vec4 color;\n"));
    assert!(source.vertex.contains("in vec3 position;\nin vec3 normal;\n"));
    assert!(source.vertex.contains("smooth out vec3 v_normal;\n"));
    assert!(source.vertex.contains("smooth out vec4 v_color;\n"));
    assert!(source.vertex.contains(
        "    gl_Position = mat_projection * mat_view * mat_model * vec4(position, 1.0);\n"
    ));
    assert!(source.fragment.starts_with("#version 140\n"));
    assert!(source.fragment.contains("uniform float t;\n"));
    assert!(source.fragment.contains("smooth in vec3 v_normal;\n"));
    assert!(source.fragment.contains("smooth in vec4 v_color;\n"));
    assert!(source.fragment.contains("out vec4 f_color;\n"));
    assert!(source.fragment.contains("    f_color = (ambient + diffuseA + diffuseB) * v_color;\n"));
}

#[test]
fn conduit_core_composes_with_discard_varying() {
    let core = conduit::shader_core();
    let source = core.compose().expect("the conduit core must compose");
    assert!(source.vertex.contains("smooth out float v_discard;\n"));
    assert!(source.vertex.contains("uniform float phase;\n"));
    assert!(source.vertex.contains("uniform float start;\n"));
    assert!(source.vertex.contains("uniform float end;\n"));
    assert!(source.fragment.contains("smooth in float v_discard;\n"));
    assert!(source.fragment.contains("discard;\n"));
    assert!(source.fragment.contains("    f_color = color;\n"));
}

#[test]
fn emitted_main_wraps_body_and_output_bindings() {
    let mut vertex = minimal_vertex();
    vertex.out_defs.push(VertexOutDef {
        name: "v_value".to_owned(),
        ty: ValueType::Float,
        qualifier: VertexOutQualifier::Flat,
    });
    vertex.body.push_str("    float k = 2.0;\n");
    vertex.out_exprs.push(OutExpr { name: "v_value".to_owned(), expr: "k".to_owned() });
    let mut fragment = minimal_fragment();
    fragment.out_defs.push(VarDecl { name: "f_out".to_owned(), ty: ValueType::Vec4 });
    fragment.out_exprs.push(OutExpr { name: "f_out".to_owned(), expr: "vec4(1.0)".to_owned() });
    let core = Core { vertex, fragment };
    let source = core.compose().unwrap();
    assert_eq!(
        source.vertex,
        "#version 140\n\
         in vec3 position;\nin vec3 normal;\n\
         flat out float v_value;\n\
         void main() {\n    float k = 2.0;\n    v_value = k;\n}\n"
    );
    assert_eq!(
        source.fragment,
        "#version 140\n\
         flat in float v_value;\n\
         out vec4 f_out;\n\
         void main() {\n    f_out = vec4(1.0);\n}\n"
    );
}
