//! The shader core composer.
//!
//! A shader stage is described as a *fragment*: named output declarations,
//! the inputs it expects from the previous stage, shared textual
//! definitions, a body, and a mapping from declared output names to the
//! expressions computing them.  A [`Core`] pairs one vertex fragment with
//! one fragment-stage fragment; [`Core::compose`] checks that the two
//! interfaces fit together and emits the final program text.
//!
//! Interface matching is validated at composition time, never at draw time:
//! an input the previous stage does not produce, or an output expression
//! without a declaration, fails composition with the offending name.

use vstd::prelude::*;

verus! {

/// Relies on std's `String::push_str`: appends the slice's characters at the
/// end of the string.
pub assume_specification[ String::push_str ](s: &mut String, other: &str)
    ensures
        final(s)@ == old(s)@ + other@,
;

/// The type of a shader interface variable.
#[derive(Clone, Copy, Debug, PartialEq, Eq, Structural)]
pub enum ValueType {
    Float,
    Vec3,
    Vec4,
    Mat4,
    Bool,
}

/// How a vertex-stage output is interpolated across a primitive on its way
/// to the fragment stage.
#[derive(Clone, Copy, Debug, PartialEq, Eq, Structural)]
pub enum VertexOutQualifier {
    Flat,
    Smooth,
    NoPerspective,
}

/// A named, typed variable declaration: used for the uniform interface and
/// for fragment-stage outputs.
#[derive(Clone, Debug, PartialEq)]
pub struct VarDecl {
    pub name: String,
    pub ty: ValueType,
}

/// A vertex-stage output declaration.  Every declared output becomes an
/// interpolated varying that the fragment stage may consume by name.
#[derive(Clone, Debug, PartialEq)]
pub struct VertexOutDef {
    pub name: String,
    pub ty: ValueType,
    pub qualifier: VertexOutQualifier,
}

/// Binds a declared output name to the expression that computes it; emitted
/// as an assignment at the end of the stage's `main`.
#[derive(Clone, Debug, PartialEq)]
pub struct OutExpr {
    pub name: String,
    pub expr: String,
}

/// The composable description of a vertex stage.
#[derive(Debug)]
pub struct VertexCore {
    pub uniforms: Vec<VarDecl>,
    pub out_defs: Vec<VertexOutDef>,
    pub defs: String,
    pub body: String,
    pub out_exprs: Vec<OutExpr>,
}

/// The composable description of a fragment stage.
#[derive(Debug)]
pub struct FragmentCore {
    pub uniforms: Vec<VarDecl>,
    pub in_defs: Vec<VertexOutDef>,
    pub out_defs: Vec<VarDecl>,
    pub defs: String,
    pub body: String,
    pub out_exprs: Vec<OutExpr>,
}

/// One vertex fragment and one fragment-stage fragment that together form a
/// linkable program.
#[derive(Debug)]
pub struct Core {
    pub vertex: VertexCore,
    pub fragment: FragmentCore,
}

/// The composed program text for both stages, ready to hand to the graphics
/// interface for compilation and linking.
#[derive(Clone, Debug, PartialEq)]
pub struct ProgramSource {
    pub vertex: String,
    pub fragment: String,
}

/// A build-time interface mismatch, reported with the offending name.
#[derive(Clone, Debug, PartialEq)]
pub enum CompositionError {
    /// The fragment stage consumes an input that the vertex stage does not
    /// produce and that is no built-in vertex attribute.
    InputNotProduced { name: String },
    /// An output expression refers to a name its own stage never declares.
    OutputNotDeclared { name: String },
}

// ---------------------------------------------------------------------------
// The well-known interface vocabulary shared by the pipelines
// ---------------------------------------------------------------------------

/// The interpolated world-space normal, by convention `v_world_normal`.
pub fn v_world_normal_def() -> (d: VertexOutDef)
    ensures
        d.name@ == "v_world_normal"@,
        d.ty == ValueType::Vec3,
        d.qualifier == VertexOutQualifier::Smooth,
{
    VertexOutDef {
        name: "v_world_normal".to_owned(),
        ty: ValueType::Vec3,
        qualifier: VertexOutQualifier::Smooth,
    }
}

/// The interpolated world-space position, by convention `v_world_pos`.
pub fn v_world_pos_def() -> (d: VertexOutDef)
    ensures
        d.name@ == "v_world_pos"@,
        d.ty == ValueType::Vec4,
        d.qualifier == VertexOutQualifier::Smooth,
{
    VertexOutDef {
        name: "v_world_pos".to_owned(),
        ty: ValueType::Vec4,
        qualifier: VertexOutQualifier::Smooth,
    }
}

/// The fragment stage's final color output, by convention `f_color`.
pub fn f_color_def() -> (d: VarDecl)
    ensures
        d.name@ == "f_color"@,
        d.ty == ValueType::Vec4,
{
    VarDecl { name: "f_color".to_owned(), ty: ValueType::Vec4 }
}

// ---------------------------------------------------------------------------
// Interface validation
// ---------------------------------------------------------------------------

pub open spec fn spec_out_names(defs: Seq<VertexOutDef>) -> Seq<Seq<char>> {
    defs.map_values(|d: VertexOutDef| d.name@)
}

pub open spec fn spec_decl_names(defs: Seq<VarDecl>) -> Seq<Seq<char>> {
    defs.map_values(|d: VarDecl| d.name@)
}

pub open spec fn spec_out_types(defs: Seq<VertexOutDef>) -> Seq<ValueType> {
    defs.map_values(|d: VertexOutDef| d.ty)
}

pub open spec fn spec_out_qualifiers(defs: Seq<VertexOutDef>) -> Seq<VertexOutQualifier> {
    defs.map_values(|d: VertexOutDef| d.qualifier)
}

pub open spec fn spec_decl_types(defs: Seq<VarDecl>) -> Seq<ValueType> {
    defs.map_values(|d: VarDecl| d.ty)
}

pub open spec fn spec_expr_names(es: Seq<OutExpr>) -> Seq<Seq<char>> {
    es.map_values(|e: OutExpr| e.name@)
}

/// A fragment-stage input is satisfied when the vertex stage declares an
/// output of that name, or the name is a built-in vertex attribute of the
/// input layout.
pub open spec fn spec_input_satisfied(v: VertexCore, name: Seq<char>) -> bool {
    spec_out_names(v.out_defs@).contains(name) || name == "position"@ || name == "normal"@
}

pub open spec fn spec_inputs_satisfied(c: Core) -> bool {
    forall|i: int|
        0 <= i < c.fragment.in_defs@.len() ==> spec_input_satisfied(
            c.vertex,
            (#[trigger] c.fragment.in_defs@[i]).name@,
        )
}

/// A vertex output expression may bind a declared output or the built-in
/// clip-space position.
pub open spec fn spec_vertex_output_bound(v: VertexCore, name: Seq<char>) -> bool {
    spec_out_names(v.out_defs@).contains(name) || name == "gl_Position"@
}

pub open spec fn spec_vertex_outputs_declared(v: VertexCore) -> bool {
    forall|i: int|
        0 <= i < v.out_exprs@.len() ==> spec_vertex_output_bound(
            v,
            (#[trigger] v.out_exprs@[i]).name@,
        )
}

pub open spec fn spec_fragment_outputs_declared(f: FragmentCore) -> bool {
    forall|i: int|
        0 <= i < f.out_exprs@.len() ==> spec_decl_names(f.out_defs@).contains(
            (#[trigger] f.out_exprs@[i]).name@,
        )
}

impl Core {
    /// The composition contract: every output expression of either stage
    /// binds a declared name, and every fragment-stage input is produced by
    /// the vertex stage or is a built-in attribute.
    pub open spec fn spec_valid(self) -> bool {
        &&& spec_vertex_outputs_declared(self.vertex)
        &&& spec_fragment_outputs_declared(self.fragment)
        &&& spec_inputs_satisfied(self)
    }
}

// ---------------------------------------------------------------------------
// Program text
// ---------------------------------------------------------------------------

pub open spec fn spec_type_text(t: ValueType) -> Seq<char> {
    match t {
        ValueType::Float => "float"@,
        ValueType::Vec3 => "vec3"@,
        ValueType::Vec4 => "vec4"@,
        ValueType::Mat4 => "mat4"@,
        ValueType::Bool => "bool"@,
    }
}

pub open spec fn spec_qualifier_text(q: VertexOutQualifier) -> Seq<char> {
    match q {
        VertexOutQualifier::Flat => "flat"@,
        VertexOutQualifier::Smooth => "smooth"@,
        VertexOutQualifier::NoPerspective => "noperspective"@,
    }
}

pub open spec fn spec_uniform_decl(d: VarDecl) -> Seq<char> {
    "uniform "@ + spec_type_text(d.ty) + " "@ + d.name@ + ";\n"@
}

pub open spec fn spec_uniform_decls(ds: Seq<VarDecl>) -> Seq<char>
    decreases ds.len(),
{
    if ds.len() == 0 {
        Seq::empty()
    } else {
        spec_uniform_decls(ds.drop_last()) + spec_uniform_decl(ds.last())
    }
}

pub open spec fn spec_vertex_out_decl(d: VertexOutDef) -> Seq<char> {
    spec_qualifier_text(d.qualifier) + " out "@ + spec_type_text(d.ty) + " "@ + d.name@ + ";\n"@
}

pub open spec fn spec_vertex_out_decls(ds: Seq<VertexOutDef>) -> Seq<char>
    decreases ds.len(),
{
    if ds.len() == 0 {
        Seq::empty()
    } else {
        spec_vertex_out_decls(ds.drop_last()) + spec_vertex_out_decl(ds.last())
    }
}

pub open spec fn spec_varying_in_decl(d: VertexOutDef) -> Seq<char> {
    spec_qualifier_text(d.qualifier) + " in "@ + spec_type_text(d.ty) + " "@ + d.name@ + ";\n"@
}

pub open spec fn spec_varying_in_decls(ds: Seq<VertexOutDef>) -> Seq<char>
    decreases ds.len(),
{
    if ds.len() == 0 {
        Seq::empty()
    } else {
        spec_varying_in_decls(ds.drop_last()) + spec_varying_in_decl(ds.last())
    }
}

pub open spec fn spec_frag_out_decl(d: VarDecl) -> Seq<char> {
    "out "@ + spec_type_text(d.ty) + " "@ + d.name@ + ";\n"@
}

pub open spec fn spec_frag_out_decls(ds: Seq<VarDecl>) -> Seq<char>
    decreases ds.len(),
{
    if ds.len() == 0 {
        Seq::empty()
    } else {
        spec_frag_out_decls(ds.drop_last()) + spec_frag_out_decl(ds.last())
    }
}

pub open spec fn spec_out_assignment(e: OutExpr) -> Seq<char> {
    "    "@ + e.name@ + " = "@ + e.expr@ + ";\n"@
}

pub open spec fn spec_out_assignments(es: Seq<OutExpr>) -> Seq<char>
    decreases es.len(),
{
    if es.len() == 0 {
        Seq::empty()
    } else {
        spec_out_assignments(es.drop_last()) + spec_out_assignment(es.last())
    }
}

/// The emitted vertex stage: version pragma, uniform interface, the fixed
/// vertex attributes of the input layout, the declared varyings, shared
/// definitions, then `main` with the body and the output bindings.
pub open spec fn spec_vertex_source(v: VertexCore) -> Seq<char> {
    "#version 140\n"@ + spec_uniform_decls(v.uniforms@) + "in vec3 position;\nin vec3 normal;\n"@
        + spec_vertex_out_decls(v.out_defs@) + v.defs@ + "void main() {\n"@ + v.body@
        + spec_out_assignments(v.out_exprs@) + "}\n"@
}

/// The emitted fragment stage: every vertex output reappears as an
/// interpolated input, then the stage's own outputs, definitions and `main`.
pub open spec fn spec_fragment_source(c: Core) -> Seq<char> {
    "#version 140\n"@ + spec_uniform_decls(c.fragment.uniforms@) + spec_varying_in_decls(
        c.vertex.out_defs@,
    ) + spec_frag_out_decls(c.fragment.out_defs@) + c.fragment.defs@ + "void main() {\n"@
        + c.fragment.body@ + spec_out_assignments(c.fragment.out_exprs@) + "}\n"@
}

// ---------------------------------------------------------------------------
// Executable composition
// ---------------------------------------------------------------------------

/// Does the vertex stage declare an output of this name?
fn out_names_contain(defs: &Vec<VertexOutDef>, name: &String) -> (r: bool)
    ensures
        r == spec_out_names(defs@).contains(name@),
{
    let mut i: usize = 0;
    while i < defs.len()
        invariant
            i <= defs.len(),
            forall|j: int| 0 <= j < i ==> (#[trigger] defs@[j]).name@ != name@,
        decreases defs.len() - i,
    {
        if defs[i].name == *name {
            proof {
                assert(spec_out_names(defs@)[i as int] == name@);
            }
            return true;
        }
        i = i + 1;
    }
    proof {
        assert forall|j: int| 0 <= j < spec_out_names(defs@).len() implies spec_out_names(defs@)[j]
            != name@ by {
            assert(spec_out_names(defs@)[j] == defs@[j].name@);
        }
    }
    false
}

/// Does the list declare a variable of this name?
fn decl_names_contain(defs: &Vec<VarDecl>, name: &String) -> (r: bool)
    ensures
        r == spec_decl_names(defs@).contains(name@),
{
    let mut i: usize = 0;
    while i < defs.len()
        invariant
            i <= defs.len(),
            forall|j: int| 0 <= j < i ==> (#[trigger] defs@[j]).name@ != name@,
        decreases defs.len() - i,
    {
        if defs[i].name == *name {
            proof {
                assert(spec_decl_names(defs@)[i as int] == name@);
            }
            return true;
        }
        i = i + 1;
    }
    proof {
        assert forall|j: int| 0 <= j < spec_decl_names(defs@).len() implies spec_decl_names(
            defs@,
        )[j] != name@ by {
            assert(spec_decl_names(defs@)[j] == defs@[j].name@);
        }
    }
    false
}

/// Is this one of the built-in vertex attributes of the input layout?
fn is_builtin_attribute(name: &String) -> (r: bool)
    ensures
        r == (name@ == "position"@ || name@ == "normal"@),
{
    let position = "position".to_owned();
    if *name == position {
        return true;
    }
    let normal = "normal".to_owned();
    *name == normal
}

/// Is this the built-in clip-space position output?
fn is_clip_position(name: &String) -> (r: bool)
    ensures
        r == (name@ == "gl_Position"@),
{
    let clip = "gl_Position".to_owned();
    *name == clip
}

fn push_type_text(out: &mut String, t: ValueType)
    ensures
        final(out)@ == old(out)@ + spec_type_text(t),
{
    match t {
        ValueType::Float => out.push_str("float"),
        ValueType::Vec3 => out.push_str("vec3"),
        ValueType::Vec4 => out.push_str("vec4"),
        ValueType::Mat4 => out.push_str("mat4"),
        ValueType::Bool => out.push_str("bool"),
    }
}

fn push_qualifier_text(out: &mut String, q: VertexOutQualifier)
    ensures
        final(out)@ == old(out)@ + spec_qualifier_text(q),
{
    match q {
        VertexOutQualifier::Flat => out.push_str("flat"),
        VertexOutQualifier::Smooth => out.push_str("smooth"),
        VertexOutQualifier::NoPerspective => out.push_str("noperspective"),
    }
}

fn push_uniform_decls(out: &mut String, ds: &Vec<VarDecl>)
    ensures
        final(out)@ == old(out)@ + spec_uniform_decls(ds@),
{
    let ghost base = out@;
    let mut i: usize = 0;
    while i < ds.len()
        invariant
            i <= ds.len(),
            out@ == base + spec_uniform_decls(ds@.take(i as int)),
        decreases ds.len() - i,
    {
        let d = &ds[i];
        out.push_str("uniform ");
        push_type_text(out, d.ty);
        out.push_str(" ");
        out.push_str(d.name.as_str());
        out.push_str(";\n");
        proof {
            assert(ds@.take(i + 1 as int).drop_last() =~= ds@.take(i as int));
            assert(out@ =~= base + spec_uniform_decls(ds@.take(i + 1 as int)));
        }
        i = i + 1;
    }
    proof {
        assert(ds@.take(ds@.len() as int) =~= ds@);
    }
}

fn push_vertex_out_decls(out: &mut String, ds: &Vec<VertexOutDef>)
    ensures
        final(out)@ == old(out)@ + spec_vertex_out_decls(ds@),
{
    let ghost base = out@;
    let mut i: usize = 0;
    while i < ds.len()
        invariant
            i <= ds.len(),
            out@ == base + spec_vertex_out_decls(ds@.take(i as int)),
        decreases ds.len() - i,
    {
        let d = &ds[i];
        push_qualifier_text(out, d.qualifier);
        out.push_str(" out ");
        push_type_text(out, d.ty);
        out.push_str(" ");
        out.push_str(d.name.as_str());
        out.push_str(";\n");
        proof {
            assert(ds@.take(i + 1 as int).drop_last() =~= ds@.take(i as int));
            assert(out@ =~= base + spec_vertex_out_decls(ds@.take(i + 1 as int)));
        }
        i = i + 1;
    }
    proof {
        assert(ds@.take(ds@.len() as int) =~= ds@);
    }
}

fn push_varying_in_decls(out: &mut String, ds: &Vec<VertexOutDef>)
    ensures
        final(out)@ == old(out)@ + spec_varying_in_decls(ds@),
{
    let ghost base = out@;
    let mut i: usize = 0;
    while i < ds.len()
        invariant
            i <= ds.len(),
            out@ == base + spec_varying_in_decls(ds@.take(i as int)),
        decreases ds.len() - i,
    {
        let d = &ds[i];
        push_qualifier_text(out, d.qualifier);
        out.push_str(" in ");
        push_type_text(out, d.ty);
        out.push_str(" ");
        out.push_str(d.name.as_str());
        out.push_str(";\n");
        proof {
            assert(ds@.take(i + 1 as int).drop_last() =~= ds@.take(i as int));
            assert(out@ =~= base + spec_varying_in_decls(ds@.take(i + 1 as int)));
        }
        i = i + 1;
    }
    proof {
        assert(ds@.take(ds@.len() as int) =~= ds@);
    }
}

fn push_frag_out_decls(out: &mut String, ds: &Vec<VarDecl>)
    ensures
        final(out)@ == old(out)@ + spec_frag_out_decls(ds@),
{
    let ghost base = out@;
    let mut i: usize = 0;
    while i < ds.len()
        invariant
            i <= ds.len(),
            out@ == base + spec_frag_out_decls(ds@.take(i as int)),
        decreases ds.len() - i,
    {
        let d = &ds[i];
        out.push_str("out ");
        push_type_text(out, d.ty);
        out.push_str(" ");
        out.push_str(d.name.as_str());
        out.push_str(";\n");
        proof {
            assert(ds@.take(i + 1 as int).drop_last() =~= ds@.take(i as int));
            assert(out@ =~= base + spec_frag_out_decls(ds@.take(i + 1 as int)));
        }
        i = i + 1;
    }
    proof {
        assert(ds@.take(ds@.len() as int) =~= ds@);
    }
}

fn push_out_assignments(out: &mut String, es: &Vec<OutExpr>)
    ensures
        final(out)@ == old(out)@ + spec_out_assignments(es@),
{
    let ghost base = out@;
    let mut i: usize = 0;
    while i < es.len()
        invariant
            i <= es.len(),
            out@ == base + spec_out_assignments(es@.take(i as int)),
        decreases es.len() - i,
    {
        let e = &es[i];
        out.push_str("    ");
        out.push_str(e.name.as_str());
        out.push_str(" = ");
        out.push_str(e.expr.as_str());
        out.push_str(";\n");
        proof {
            assert(es@.take(i + 1 as int).drop_last() =~= es@.take(i as int));
            assert(out@ =~= base + spec_out_assignments(es@.take(i + 1 as int)));
        }
        i = i + 1;
    }
    proof {
        assert(es@.take(es@.len() as int) =~= es@);
    }
}

fn emit_vertex_source(v: &VertexCore) -> (r: String)
    ensures
        r@ == spec_vertex_source(*v),
{
    let mut out = String::new();
    out.push_str("#version 140\n");
    push_uniform_decls(&mut out, &v.uniforms);
    out.push_str("in vec3 position;\nin vec3 normal;\n");
    push_vertex_out_decls(&mut out, &v.out_defs);
    out.push_str(v.defs.as_str());
    out.push_str("void main() {\n");
    out.push_str(v.body.as_str());
    push_out_assignments(&mut out, &v.out_exprs);
    out.push_str("}\n");
    proof {
        assert(out@ =~= spec_vertex_source(*v));
    }
    out
}

fn emit_fragment_source(c: &Core) -> (r: String)
    ensures
        r@ == spec_fragment_source(*c),
{
    let mut out = String::new();
    out.push_str("#version 140\n");
    push_uniform_decls(&mut out, &c.fragment.uniforms);
    push_varying_in_decls(&mut out, &c.vertex.out_defs);
    push_frag_out_decls(&mut out, &c.fragment.out_defs);
    out.push_str(c.fragment.defs.as_str());
    out.push_str("void main() {\n");
    out.push_str(c.fragment.body.as_str());
    push_out_assignments(&mut out, &c.fragment.out_exprs);
    out.push_str("}\n");
    proof {
        assert(out@ =~= spec_fragment_source(*c));
    }
    out
}

impl Core {
    /// Validates the stage interfaces and, when they fit, emits the program
    /// text for both stages.  Composition succeeds exactly when the core is
    /// valid; a failure names the offending input or output.
    pub fn compose(&self) -> (r: Result<ProgramSource, CompositionError>)
        ensures
            r matches Ok(s) ==> self.spec_valid() && s.vertex@ == spec_vertex_source(self.vertex)
                && s.fragment@ == spec_fragment_source(*self),
            r matches Err(_) ==> !self.spec_valid(),
            r matches Err(e) ==> match e {
                CompositionError::OutputNotDeclared { name } => (exists|i: int|
                    0 <= i < self.vertex.out_exprs@.len()
                        && (#[trigger] self.vertex.out_exprs@[i]).name@ == name@
                        && !spec_vertex_output_bound(self.vertex, name@)) || (exists|i: int|
                    0 <= i < self.fragment.out_exprs@.len()
                        && (#[trigger] self.fragment.out_exprs@[i]).name@ == name@
                        && !spec_decl_names(self.fragment.out_defs@).contains(name@)),
                CompositionError::InputNotProduced { name } => exists|i: int|
                    0 <= i < self.fragment.in_defs@.len()
                        && (#[trigger] self.fragment.in_defs@[i]).name@ == name@
                        && !spec_input_satisfied(self.vertex, name@),
            },
    {
        let mut i: usize = 0;
        while i < self.vertex.out_exprs.len()
            invariant
                i <= self.vertex.out_exprs@.len(),
                forall|j: int|
                    0 <= j < i ==> spec_vertex_output_bound(
                        self.vertex,
                        (#[trigger] self.vertex.out_exprs@[j]).name@,
                    ),
            decreases self.vertex.out_exprs@.len() - i,
        {
            let e = &self.vertex.out_exprs[i];
            let declared = out_names_contain(&self.vertex.out_defs, &e.name);
            let clip = is_clip_position(&e.name);
            if !declared && !clip {
                return Err(CompositionError::OutputNotDeclared { name: e.name.clone() });
            }
            i = i + 1;
        }
        let mut i: usize = 0;
        while i < self.fragment.out_exprs.len()
            invariant
                i <= self.fragment.out_exprs@.len(),
                forall|j: int|
                    0 <= j < i ==> spec_decl_names(self.fragment.out_defs@).contains(
                        (#[trigger] self.fragment.out_exprs@[j]).name@,
                    ),
            decreases self.fragment.out_exprs@.len() - i,
        {
            let e = &self.fragment.out_exprs[i];
            let declared = decl_names_contain(&self.fragment.out_defs, &e.name);
            if !declared {
                return Err(CompositionError::OutputNotDeclared { name: e.name.clone() });
            }
            i = i + 1;
        }
        let mut i: usize = 0;
        while i < self.fragment.in_defs.len()
            invariant
                i <= self.fragment.in_defs@.len(),
                forall|j: int|
                    0 <= j < i ==> spec_input_satisfied(
                        self.vertex,
                        (#[trigger] self.fragment.in_defs@[j]).name@,
                    ),
            decreases self.fragment.in_defs@.len() - i,
        {
            let d = &self.fragment.in_defs[i];
            let produced = out_names_contain(&self.vertex.out_defs, &d.name);
            let builtin = is_builtin_attribute(&d.name);
            if !produced && !builtin {
                return Err(CompositionError::InputNotProduced { name: d.name.clone() });
            }
            i = i + 1;
        }
        let vertex = emit_vertex_source(&self.vertex);
        let fragment = emit_fragment_source(self);
        Ok(ProgramSource { vertex, fragment })
    }
}

} // verus!
