//! The per-instance parameter capability and the plain object pipeline.
//!
//! Any value that can produce a set of named uniform bindings satisfies
//! [`InstanceParams`]; the draw loop is generic over this capability, so
//! heterogeneous instance types render through one loop without the
//! renderer knowing their concrete types.  [`UniformsPair`] combines two
//! producers into one, visiting the first's bindings before the second's.

use vstd::prelude::*;
use crate::object::Object;
use crate::shader::{
    f_color_def, spec_decl_names, spec_decl_types, spec_expr_names, spec_out_names,
    spec_out_qualifiers, spec_out_types, Core, FragmentCore, OutExpr, ValueType, VarDecl,
    VertexCore, VertexOutDef, VertexOutQualifier,
};
use crate::values::{Mat4, UniformList, UniformValue, Vec4};
use crate::Context;

verus! {

/// The capability of producing uniform bindings for one draw: pure data
/// extraction from the parameter value, with no side effects and no
/// graphics calls.
pub trait InstanceParams: Sized + Clone {
    /// The bindings this value produces, in visitation order.
    spec fn spec_uniforms(&self) -> Seq<(Seq<char>, UniformValue)>;

    /// Produces the bindings of one draw of this instance.
    fn uniforms(&self) -> (r: UniformList)
        ensures
            r@ == self.spec_uniforms(),
    ;
}

/// An already-extracted binding set is itself a producer: it hands out a
/// copy of its bindings.  The render list stores its instances in this
/// form, erasing their concrete parameter types.
impl InstanceParams for UniformList {
    open spec fn spec_uniforms(&self) -> Seq<(Seq<char>, UniformValue)> {
        self@
    }

    fn uniforms(&self) -> (r: UniformList) {
        self.duplicate()
    }
}

/// Pairs two borrowed uniform producers into one combined producer without
/// merging them: visitation covers the first producer's bindings, then the
/// second's, in that order.  Duplicate names across the two sides are not
/// deduplicated; during binding the later entry wins.
pub struct UniformsPair<'a>(pub &'a UniformList, pub &'a UniformList);

impl<'a> UniformsPair<'a> {
    /// Appends both sides' bindings to `out`, first side first.
    pub fn visit_values(&self, out: &mut UniformList)
        ensures
            final(out)@ == old(out)@ + self.0@ + self.1@,
    {
        out.extend_from(self.0);
        out.extend_from(self.1);
    }

    /// The combined binding set: exactly the first side's bindings followed
    /// by the second side's.
    pub fn combined(&self) -> (r: UniformList)
        ensures
            r@ == self.0@ + self.1@,
    {
        let mut out = UniformList::new();
        self.visit_values(&mut out);
        proof {
            assert(Seq::<(Seq<char>, UniformValue)>::empty() + self.0@ + self.1@ =~= self.0@
                + self.1@);
        }
        out
    }
}

/// Law: pairing is non-lossy and order-preserving.  The combined visitation
/// of producers with bindings `a` and `b` has exactly the entries of `a`
/// followed by the entries of `b`, each at its original rank.
pub proof fn lemma_pairing_order_preserving(
    a: Seq<(Seq<char>, UniformValue)>,
    b: Seq<(Seq<char>, UniformValue)>,
)
    ensures
        (a + b).len() == a.len() + b.len(),
        forall|i: int| 0 <= i < a.len() ==> (a + b)[i] == a[i],
        forall|i: int| 0 <= i < b.len() ==> (a + b)[a.len() + i] == b[i],
{
}

/// Law: pairing is associative in visitation order.  Pairing a pair `(a,
/// b)` with `c` visits the same sequence as pairing `a` with the pair `(b,
/// c)`, and the same as concatenating the three by hand.
pub proof fn lemma_pairing_associative(
    a: Seq<(Seq<char>, UniformValue)>,
    b: Seq<(Seq<char>, UniformValue)>,
    c: Seq<(Seq<char>, UniformValue)>,
)
    ensures
        (a + b) + c == a + (b + c),
{
    assert((a + b) + c =~= a + (b + c));
}

/// The default per-instance parameters: a model transform and a color.
#[derive(Clone, Copy, Debug, PartialEq, Eq, Structural)]
pub struct DefaultInstanceParams {
    pub transform: Mat4,
    pub color: Vec4,
}

impl Default for DefaultInstanceParams {
    /// Identity transform, opaque white color.
    fn default() -> (r: Self)
        ensures
            r.transform == Mat4::spec_identity(),
            r.color == Vec4::spec_ones(),
    {
        DefaultInstanceParams { transform: Mat4::identity(), color: Vec4::ones() }
    }
}

impl InstanceParams for DefaultInstanceParams {
    open spec fn spec_uniforms(&self) -> Seq<(Seq<char>, UniformValue)> {
        seq![
            ("mat_model"@, UniformValue::Mat4(self.transform)),
            ("color"@, UniformValue::Vec4(self.color)),
        ]
    }

    fn uniforms(&self) -> (r: UniformList) {
        let mut r = UniformList::new();
        r.push("mat_model".to_owned(), UniformValue::Mat4(self.transform));
        r.push("color".to_owned(), UniformValue::Vec4(self.color));
        proof {
            assert(r@ =~= self.spec_uniforms());
        }
        r
    }
}

/// The per-frame shared state satisfies the capability too, so the draw
/// loop can pair it with any instance's own parameters.
impl InstanceParams for Context {
    open spec fn spec_uniforms(&self) -> Seq<(Seq<char>, UniformValue)> {
        seq![
            ("mat_view"@, UniformValue::Mat4(self.camera.view)),
            ("mat_projection"@, UniformValue::Mat4(self.camera.projection)),
            ("light_pos"@, UniformValue::Vec3(self.main_light_pos)),
            ("t"@, UniformValue::Float(self.elapsed_time_secs)),
        ]
    }

    fn uniforms(&self) -> (r: UniformList) {
        let mut r = UniformList::new();
        r.push("mat_view".to_owned(), UniformValue::Mat4(self.camera.view));
        r.push("mat_projection".to_owned(), UniformValue::Mat4(self.camera.projection));
        r.push("light_pos".to_owned(), UniformValue::Vec3(self.main_light_pos));
        r.push("t".to_owned(), UniformValue::Float(self.elapsed_time_secs));
        proof {
            assert(r@ =~= self.spec_uniforms());
        }
        r
    }
}

/// One enqueued draw request: an object kind and the parameters of this
/// instance, owned by copy.
#[derive(Clone, Debug)]
pub struct Instance<T: InstanceParams> {
    pub object: Object,
    pub params: T,
}

/// The shader core of the plain object pipeline: transforms each vertex by
/// model, view and projection, interpolates the raw normal and the instance
/// color, and lights the fragment with two rotating directional lights.
pub fn shader_core() -> (r: Core)
    ensures
        r.spec_valid(),
        spec_decl_names(r.vertex.uniforms@) == seq![
            "mat_model"@,
            "mat_view"@,
            "mat_projection"@,
            "color"@,
        ],
        spec_decl_names(r.fragment.uniforms@) == seq!["t"@],
        spec_out_names(r.vertex.out_defs@) == seq!["v_normal"@, "v_color"@],
        spec_out_names(r.fragment.in_defs@) == seq!["v_normal"@, "v_color"@],
        spec_decl_names(r.fragment.out_defs@) == seq!["f_color"@],
        spec_decl_types(r.vertex.uniforms@) == seq![
            ValueType::Mat4,
            ValueType::Mat4,
            ValueType::Mat4,
            ValueType::Vec4,
        ],
        spec_decl_types(r.fragment.uniforms@) == seq![ValueType::Float],
        spec_out_types(r.vertex.out_defs@) == seq![ValueType::Vec3, ValueType::Vec4],
        spec_out_qualifiers(r.vertex.out_defs@) == seq![
            VertexOutQualifier::Smooth,
            VertexOutQualifier::Smooth,
        ],
        spec_out_types(r.fragment.in_defs@) == seq![ValueType::Vec3, ValueType::Vec4],
        spec_out_qualifiers(r.fragment.in_defs@) == seq![
            VertexOutQualifier::Smooth,
            VertexOutQualifier::Smooth,
        ],
        spec_decl_types(r.fragment.out_defs@) == seq![ValueType::Vec4],
        spec_expr_names(r.vertex.out_exprs@) == seq!["gl_Position"@, "v_normal"@, "v_color"@],
        spec_expr_names(r.fragment.out_exprs@) == seq!["f_color"@],
{
    let mut vertex_uniforms: Vec<VarDecl> = Vec::new();
    vertex_uniforms.push(VarDecl { name: "mat_model".to_owned(), ty: ValueType::Mat4 });
    vertex_uniforms.push(VarDecl { name: "mat_view".to_owned(), ty: ValueType::Mat4 });
    vertex_uniforms.push(VarDecl { name: "mat_projection".to_owned(), ty: ValueType::Mat4 });
    vertex_uniforms.push(VarDecl { name: "color".to_owned(), ty: ValueType::Vec4 });

    let mut out_defs: Vec<VertexOutDef> = Vec::new();
    out_defs.push(VertexOutDef {
        name: "v_normal".to_owned(),
        ty: ValueType::Vec3,
        qualifier: VertexOutQualifier::Smooth,
    });
    out_defs.push(VertexOutDef {
        name: "v_color".to_owned(),
        ty: ValueType::Vec4,
        qualifier: VertexOutQualifier::Smooth,
    });

    let mut out_exprs: Vec<OutExpr> = Vec::new();
    out_exprs.push(OutExpr {
        name: "gl_Position".to_owned(),
        expr: "mat_projection * mat_view * mat_model * vec4(position, 1.0)".to_owned(),
    });
    out_exprs.push(OutExpr { name: "v_normal".to_owned(), expr: "normal".to_owned() });
    out_exprs.push(OutExpr { name: "v_color".to_owned(), expr: "color".to_owned() });

    let vertex = VertexCore {
        uniforms: vertex_uniforms,
        out_defs,
        defs: String::new(),
        body: String::new(),
        out_exprs,
    };

    let mut fragment_uniforms: Vec<VarDecl> = Vec::new();
    fragment_uniforms.push(VarDecl { name: "t".to_owned(), ty: ValueType::Float });

    let mut in_defs: Vec<VertexOutDef> = Vec::new();
    in_defs.push(VertexOutDef {
        name: "v_normal".to_owned(),
        ty: ValueType::Vec3,
        qualifier: VertexOutQualifier::Smooth,
    });
    in_defs.push(VertexOutDef {
        name: "v_color".to_owned(),
        ty: ValueType::Vec4,
        qualifier: VertexOutQualifier::Smooth,
    });

    let mut frag_out_defs: Vec<VarDecl> = Vec::new();
    frag_out_defs.push(f_color_def());

    let mut frag_out_exprs: Vec<OutExpr> = Vec::new();
    frag_out_exprs.push(OutExpr {
        name: "f_color".to_owned(),
        expr: "(ambient + diffuseA + diffuseB) * v_color".to_owned(),
    });

    let defs = "const float M_PI = 3.1415926535;\n".to_owned();
    let body = concat_lighting_body();

    let fragment = FragmentCore {
        uniforms: fragment_uniforms,
        in_defs,
        out_defs: frag_out_defs,
        defs,
        body,
        out_exprs: frag_out_exprs,
    };

    let r = Core { vertex, fragment };
    proof {
        assert(spec_decl_names(r.vertex.uniforms@) =~= seq![
            "mat_model"@,
            "mat_view"@,
            "mat_projection"@,
            "color"@,
        ]);
        assert(spec_decl_names(r.fragment.uniforms@) =~= seq!["t"@]);
        assert(spec_out_names(r.vertex.out_defs@) =~= seq!["v_normal"@, "v_color"@]);
        assert(spec_out_names(r.fragment.in_defs@) =~= seq!["v_normal"@, "v_color"@]);
        assert(spec_decl_names(r.fragment.out_defs@) =~= seq!["f_color"@]);
        assert(spec_decl_types(r.vertex.uniforms@) =~= seq![
            ValueType::Mat4,
            ValueType::Mat4,
            ValueType::Mat4,
            ValueType::Vec4,
        ]);
        assert(spec_decl_types(r.fragment.uniforms@) =~= seq![ValueType::Float]);
        assert(spec_out_types(r.vertex.out_defs@) =~= seq![ValueType::Vec3, ValueType::Vec4]);
        assert(spec_out_qualifiers(r.vertex.out_defs@) =~= seq![
            VertexOutQualifier::Smooth,
            VertexOutQualifier::Smooth,
        ]);
        assert(spec_out_types(r.fragment.in_defs@) =~= seq![ValueType::Vec3, ValueType::Vec4]);
        assert(spec_out_qualifiers(r.fragment.in_defs@) =~= seq![
            VertexOutQualifier::Smooth,
            VertexOutQualifier::Smooth,
        ]);
        assert(spec_decl_types(r.fragment.out_defs@) =~= seq![ValueType::Vec4]);
        assert(spec_expr_names(r.vertex.out_exprs@) =~= seq![
            "gl_Position"@,
            "v_normal"@,
            "v_color"@,
        ]);
        assert(spec_expr_names(r.fragment.out_exprs@) =~= seq!["f_color"@]);
        assert forall|i: int| 0 <= i < r.vertex.out_exprs@.len() implies
            crate::shader::spec_vertex_output_bound(
                r.vertex,
                (#[trigger] r.vertex.out_exprs@[i]).name@,
            ) by {
            if i == 1 {
                assert(spec_out_names(r.vertex.out_defs@)[0] == "v_normal"@);
            }
            if i == 2 {
                assert(spec_out_names(r.vertex.out_defs@)[1] == "v_color"@);
            }
        }
        assert forall|i: int| 0 <= i < r.fragment.out_exprs@.len() implies spec_decl_names(
            r.fragment.out_defs@,
        ).contains((#[trigger] r.fragment.out_exprs@[i]).name@) by {
            assert(spec_decl_names(r.fragment.out_defs@)[0] == "f_color"@);
        }
        assert forall|i: int| 0 <= i < r.fragment.in_defs@.len() implies
            crate::shader::spec_input_satisfied(
                r.vertex,
                (#[trigger] r.fragment.in_defs@[i]).name@,
            ) by {
            if i == 0 {
                assert(spec_out_names(r.vertex.out_defs@)[0] == "v_normal"@);
            }
            if i == 1 {
                assert(spec_out_names(r.vertex.out_defs@)[1] == "v_color"@);
            }
        }
    }
    r
}

/// The fragment body of the plain object pipeline: ambient light plus two
/// directional lights that slowly orbit with elapsed time.
fn concat_lighting_body() -> (r: String) {
    let mut body = String::new();
    body.push_str("    vec3 lightdirA = vec3(sin(t/6.0), cos(t/6.0), 0.0);\n");
    body.push_str("    vec3 lightdirB = vec3(sin(t/6.0 + M_PI/2.0), cos(t/6.0 + M_PI/2.0), 0.0);\n");
    body.push_str("    float ambient = 0.2;\n");
    body.push_str("    float diffuseA = clamp(dot(lightdirA, v_normal), 0.0, 1.0);\n");
    body.push_str("    float diffuseB = clamp(dot(lightdirB, v_normal), 0.0, 1.0);\n");
    body
}

} // verus!
