//! The conduit pipeline: animated ribbon segments wound around their local
//! x axis, with a phase offset and a visible window `[start, end]` along
//! the ribbon; vertices outside the window are discarded per fragment.

use vstd::prelude::*;
use crate::pipeline::instance::InstanceParams;
use crate::shader::{
    f_color_def, spec_decl_names, spec_decl_types, spec_expr_names, spec_out_names,
    spec_out_qualifiers, spec_out_types, v_world_normal_def, v_world_pos_def, Core, FragmentCore,
    OutExpr, ValueType, VarDecl, VertexCore, VertexOutDef, VertexOutQualifier,
};
use crate::values::{Mat4, Scalar, UniformList, UniformValue, Vec4};

verus! {

/// Per-instance parameters of one conduit ribbon.
#[derive(Clone, Copy, Debug, PartialEq, Eq, Structural)]
pub struct Params {
    pub transform: Mat4,
    pub color: Vec4,
    pub phase: Scalar,
    pub start: Scalar,
    pub end: Scalar,
}

impl Default for Params {
    /// Identity transform, transparent black color, zero phase and an empty
    /// visible window.
    fn default() -> (r: Self)
        ensures
            r.transform == Mat4::spec_identity(),
            r.color == Vec4::spec_zeros(),
            r.phase == (Scalar { bits: 0 }),
            r.start == (Scalar { bits: 0 }),
            r.end == (Scalar { bits: 0 }),
    {
        Params {
            transform: Mat4::identity(),
            color: Vec4::zeros(),
            phase: Scalar::zero(),
            start: Scalar::zero(),
            end: Scalar::zero(),
        }
    }
}

impl InstanceParams for Params {
    open spec fn spec_uniforms(&self) -> Seq<(Seq<char>, UniformValue)> {
        seq![
            ("mat_model"@, UniformValue::Mat4(self.transform)),
            ("color"@, UniformValue::Vec4(self.color)),
            ("phase"@, UniformValue::Float(self.phase)),
            ("start"@, UniformValue::Float(self.start)),
            ("end"@, UniformValue::Float(self.end)),
        ]
    }

    fn uniforms(&self) -> (r: UniformList) {
        let mut r = UniformList::new();
        r.push("mat_model".to_owned(), UniformValue::Mat4(self.transform));
        r.push("color".to_owned(), UniformValue::Vec4(self.color));
        r.push("phase".to_owned(), UniformValue::Float(self.phase));
        r.push("start".to_owned(), UniformValue::Float(self.start));
        r.push("end".to_owned(), UniformValue::Float(self.end));
        proof {
            assert(r@ =~= self.spec_uniforms());
        }
        r
    }
}

/// The per-vertex discard flag the vertex stage hands to the fragment
/// stage, by convention `v_discard`.
fn v_discard() -> (d: VertexOutDef)
    ensures
        d.name@ == "v_discard"@,
        d.ty == ValueType::Float,
        d.qualifier == VertexOutQualifier::Smooth,
{
    VertexOutDef {
        name: "v_discard".to_owned(),
        ty: ValueType::Float,
        qualifier: VertexOutQualifier::Smooth,
    }
}

/// The shader core of the conduit pipeline: winds each vertex around the
/// ribbon's axis by phase and elapsed time, marks vertices outside the
/// `[start, end]` window for discarding, and colors the rest uniformly.
pub fn shader_core() -> (r: Core)
    ensures
        r.spec_valid(),
        spec_decl_names(r.vertex.uniforms@) == seq![
            "mat_model"@,
            "mat_view"@,
            "mat_projection"@,
            "color"@,
            "t"@,
            "phase"@,
            "start"@,
            "end"@,
        ],
        spec_out_names(r.vertex.out_defs@) == seq![
            "v_world_normal"@,
            "v_world_pos"@,
            "v_discard"@,
        ],
        spec_out_names(r.fragment.in_defs@) == seq!["v_discard"@],
        spec_decl_names(r.fragment.uniforms@) == seq!["color"@],
        spec_decl_names(r.fragment.out_defs@) == seq!["f_color"@],
        spec_decl_types(r.vertex.uniforms@) == seq![
            ValueType::Mat4,
            ValueType::Mat4,
            ValueType::Mat4,
            ValueType::Vec4,
            ValueType::Float,
            ValueType::Float,
            ValueType::Float,
            ValueType::Float,
        ],
        spec_out_types(r.vertex.out_defs@) == seq![
            ValueType::Vec3,
            ValueType::Vec4,
            ValueType::Float,
        ],
        spec_out_qualifiers(r.vertex.out_defs@) == seq![
            VertexOutQualifier::Smooth,
            VertexOutQualifier::Smooth,
            VertexOutQualifier::Smooth,
        ],
        spec_out_types(r.fragment.in_defs@) == seq![ValueType::Float],
        spec_out_qualifiers(r.fragment.in_defs@) == seq![VertexOutQualifier::Smooth],
        spec_decl_types(r.fragment.uniforms@) == seq![ValueType::Vec4],
        spec_decl_types(r.fragment.out_defs@) == seq![ValueType::Vec4],
        spec_expr_names(r.vertex.out_exprs@) == seq![
            "v_world_normal"@,
            "v_world_pos"@,
            "gl_Position"@,
        ],
        spec_expr_names(r.fragment.out_exprs@) == seq!["f_color"@],
{
    let mut vertex_uniforms: Vec<VarDecl> = Vec::new();
    vertex_uniforms.push(VarDecl { name: "mat_model".to_owned(), ty: ValueType::Mat4 });
    vertex_uniforms.push(VarDecl { name: "mat_view".to_owned(), ty: ValueType::Mat4 });
    vertex_uniforms.push(VarDecl { name: "mat_projection".to_owned(), ty: ValueType::Mat4 });
    vertex_uniforms.push(VarDecl { name: "color".to_owned(), ty: ValueType::Vec4 });
    vertex_uniforms.push(VarDecl { name: "t".to_owned(), ty: ValueType::Float });
    vertex_uniforms.push(VarDecl { name: "phase".to_owned(), ty: ValueType::Float });
    vertex_uniforms.push(VarDecl { name: "start".to_owned(), ty: ValueType::Float });
    vertex_uniforms.push(VarDecl { name: "end".to_owned(), ty: ValueType::Float });

    let mut out_defs: Vec<VertexOutDef> = Vec::new();
    out_defs.push(v_world_normal_def());
    out_defs.push(v_world_pos_def());
    out_defs.push(v_discard());

    let mut out_exprs: Vec<OutExpr> = Vec::new();
    out_exprs.push(OutExpr {
        name: "v_world_normal".to_owned(),
        expr: "normalize(transpose(inverse(mat3(mat_model))) * rot_normal)".to_owned(),
    });
    out_exprs.push(OutExpr {
        name: "v_world_pos".to_owned(),
        expr: "mat_model * vec4(scaled_pos, 1.0)".to_owned(),
    });
    out_exprs.push(OutExpr {
        name: "gl_Position".to_owned(),
        expr: "mat_projection * mat_view * mat_model * vec4(scaled_pos, 1.0)".to_owned(),
    });

    let vertex = VertexCore {
        uniforms: vertex_uniforms,
        out_defs,
        defs: vertex_defs(),
        body: vertex_body(),
        out_exprs,
    };

    let mut fragment_uniforms: Vec<VarDecl> = Vec::new();
    fragment_uniforms.push(VarDecl { name: "color".to_owned(), ty: ValueType::Vec4 });

    let mut in_defs: Vec<VertexOutDef> = Vec::new();
    in_defs.push(v_discard());

    let mut frag_out_defs: Vec<VarDecl> = Vec::new();
    frag_out_defs.push(f_color_def());

    let mut frag_out_exprs: Vec<OutExpr> = Vec::new();
    frag_out_exprs.push(OutExpr { name: "f_color".to_owned(), expr: "color".to_owned() });

    let mut frag_body = String::new();
    frag_body.push_str("    if (v_discard >= 0.5)\n        discard;\n");

    let fragment = FragmentCore {
        uniforms: fragment_uniforms,
        in_defs,
        out_defs: frag_out_defs,
        defs: String::new(),
        body: frag_body,
        out_exprs: frag_out_exprs,
    };

    let r = Core { vertex, fragment };
    proof {
        assert(spec_decl_names(r.vertex.uniforms@) =~= seq![
            "mat_model"@,
            "mat_view"@,
            "mat_projection"@,
            "color"@,
            "t"@,
            "phase"@,
            "start"@,
            "end"@,
        ]);
        assert(spec_out_names(r.vertex.out_defs@) =~= seq![
            "v_world_normal"@,
            "v_world_pos"@,
            "v_discard"@,
        ]);
        assert(spec_out_names(r.fragment.in_defs@) =~= seq!["v_discard"@]);
        assert(spec_decl_names(r.fragment.uniforms@) =~= seq!["color"@]);
        assert(spec_decl_names(r.fragment.out_defs@) =~= seq!["f_color"@]);
        assert(spec_decl_types(r.vertex.uniforms@) =~= seq![
            ValueType::Mat4,
            ValueType::Mat4,
            ValueType::Mat4,
            ValueType::Vec4,
            ValueType::Float,
            ValueType::Float,
            ValueType::Float,
            ValueType::Float,
        ]);
        assert(spec_out_types(r.vertex.out_defs@) =~= seq![
            ValueType::Vec3,
            ValueType::Vec4,
            ValueType::Float,
        ]);
        assert(spec_out_qualifiers(r.vertex.out_defs@) =~= seq![
            VertexOutQualifier::Smooth,
            VertexOutQualifier::Smooth,
            VertexOutQualifier::Smooth,
        ]);
        assert(spec_out_types(r.fragment.in_defs@) =~= seq![ValueType::Float]);
        assert(spec_out_qualifiers(r.fragment.in_defs@) =~= seq![VertexOutQualifier::Smooth]);
        assert(spec_decl_types(r.fragment.uniforms@) =~= seq![ValueType::Vec4]);
        assert(spec_decl_types(r.fragment.out_defs@) =~= seq![ValueType::Vec4]);
        assert(spec_expr_names(r.vertex.out_exprs@) =~= seq![
            "v_world_normal"@,
            "v_world_pos"@,
            "gl_Position"@,
        ]);
        assert(spec_expr_names(r.fragment.out_exprs@) =~= seq!["f_color"@]);
        assert forall|i: int| 0 <= i < r.vertex.out_exprs@.len() implies
            crate::shader::spec_vertex_output_bound(
                r.vertex,
                (#[trigger] r.vertex.out_exprs@[i]).name@,
            ) by {
            if i == 0 {
                assert(spec_out_names(r.vertex.out_defs@)[0] == "v_world_normal"@);
            }
            if i == 1 {
                assert(spec_out_names(r.vertex.out_defs@)[1] == "v_world_pos"@);
            }
        }
        assert forall|i: int| 0 <= i < r.fragment.out_exprs@.len() implies spec_decl_names(
            r.fragment.out_defs@,
        ).contains((#[trigger] r.fragment.out_exprs@[i]).name@) by {
            assert(spec_decl_names(r.fragment.out_defs@)[0] == "f_color"@);
        }
        assert forall|i: int| 0 <= i < r.fragment.in_defs@.len() implies
            crate::shader::spec_input_satisfied(
                r.vertex,
                (#[trigger] r.fragment.in_defs@[i]).name@,
            ) by {
            assert(spec_out_names(r.vertex.out_defs@)[2] == "v_discard"@);
        }
    }
    r
}

/// Shared constants of the conduit vertex stage.
fn vertex_defs() -> (r: String) {
    let mut defs = String::new();
    defs.push_str("const float PI = 3.141592;\n");
    defs.push_str("const float radius = 0.15;\n");
    defs.push_str("const float scale = 0.02;\n");
    defs
}

/// The conduit vertex body: winds the vertex around the local x axis and
/// sets the discard flag for vertices outside the visible window.
fn vertex_body() -> (r: String) {
    let mut body = String::new();
    body.push_str("    float angle = (position.x + 0.5 + t) * 2.0 * PI + phase;\n");
    body.push_str("    float rot_s = sin(angle);\n");
    body.push_str("    float rot_c = cos(angle);\n");
    body.push_str("    mat2 rot_m = mat2(rot_c, -rot_s, rot_s, rot_c);\n");
    body.push_str("    vec3 scaled_pos = position;\n");
    body.push_str("    scaled_pos.yz *= scale;\n");
    body.push_str("    scaled_pos.z += radius;\n");
    body.push_str("    scaled_pos.yz = rot_m * scaled_pos.yz;\n");
    body.push_str("    vec3 rot_normal = normal;\n");
    body.push_str("    rot_normal.yz = rot_m * rot_normal.yz;\n");
    body.push_str("    float v_discard_flag = 0.0;\n");
    body.push_str("    if (0.5 - position.x < start || 0.5 - position.x > end)\n");
    body.push_str("        v_discard_flag = 1.0;\n");
    body.push_str("    v_discard = v_discard_flag;\n");
    body
}

} // verus!
