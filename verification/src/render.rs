use crate::decl::{Fields, FieldsSpec};
use crate::directive::{Bound, BoundSpec};
use crate::expand::{Arm, ArmBody, ArmBodySpec, ArmSpec, Expansion, ExpansionSpec, Marker, MarkerSpec};
use crate::token::{render_tokens, tokens_text};
use vstd::prelude::*;
use vstd::string::StringExecFns;

verus! {

/// The names in order, with `, ` between two of them.
pub open spec fn joined(names: Seq<Seq<char>>) -> Seq<char>
    decreases names.len(),
{
    if names.len() == 0 {
        Seq::empty()
    } else if names.len() == 1 {
        names[0]
    } else {
        joined(names.drop_last()) + ", "@ + names.last()
    }
}

/// The bound expression as source text: the expression as written, or the call of the
/// name with its arguments in order.
pub open spec fn bound_text(bound: BoundSpec) -> Seq<char> {
    match bound {
        BoundSpec::Expr(tokens) => tokens_text(tokens),
        BoundSpec::Call { name, args } => name + "("@ + joined(args) + ")"@,
    }
}

/// What an arm evaluates, as source text.
pub open spec fn body_text(body: ArmBodySpec) -> Seq<char> {
    match body {
        ArmBodySpec::Bound(bound) => bound_text(bound),
        ArmBodySpec::Forward(callable_type) => callable_type.forward_call(),
    }
}

/// What the pattern of a case binds, as source text: nothing, the one field as
/// `value`, or the named fields in the order of their declaration.
pub open spec fn fields_text(fields: FieldsSpec) -> Seq<char> {
    match fields {
        FieldsSpec::Unit => Seq::empty(),
        FieldsSpec::Unnamed => "(value)"@,
        FieldsSpec::Named(names) => " { "@ + joined(names) + " }"@,
    }
}

/// One arm of the dispatcher's match, as source text.
pub open spec fn arm_text(enum_name: Seq<char>, arm: ArmSpec) -> Seq<char> {
    "            "@ + enum_name + "::"@ + arm.case + fields_text(arm.fields) + " => "@ + body_text(
        arm.body,
    ) + ",\n"@
}

/// The arms in order, as source text.
pub open spec fn arms_text(enum_name: Seq<char>, arms: Seq<ArmSpec>) -> Seq<char>
    decreases arms.len(),
{
    if arms.len() == 0 {
        Seq::empty()
    } else {
        arms_text(enum_name, arms.drop_last()) + arm_text(enum_name, arms.last())
    }
}

/// A marker type with its by-reference implementation, as source text.
pub open spec fn marker_text(output: Seq<char>, marker: MarkerSpec) -> Seq<char> {
    "#[derive(Clone, Debug)]\npub struct "@ + marker.name + ";\nimpl argcall::Callable for "@
        + marker.name + " {\n    type Output = "@ + output + ";\n    fn call_fn(&self, _: ()) -> "@
        + output + " {\n        "@ + bound_text(marker.body) + "\n    }\n}\n"@
}

/// The marker types in order, as source text.
pub open spec fn markers_text(output: Seq<char>, markers: Seq<MarkerSpec>) -> Seq<char>
    decreases markers.len(),
{
    if markers.len() == 0 {
        Seq::empty()
    } else {
        markers_text(output, markers.drop_last()) + marker_text(output, markers.last())
    }
}

/// The dispatcher as source text: the implementation of the requested interface on
/// the tagged union, whose body matches on the case.
pub open spec fn dispatcher_text(x: ExpansionSpec) -> Seq<char> {
    "impl "@ + x.callable_type.trait_path() + " for "@ + x.enum_name + " {\n    type Output = "@
        + tokens_text(x.output) + ";\n    fn "@ + x.callable_type.method_signature() + " -> "@
        + tokens_text(x.output) + " {\n        match self {\n"@ + arms_text(x.enum_name, x.arms)
        + "        }\n    }\n}\n"@
}

/// The generated implementation as source text: the marker types, then the
/// dispatcher.
pub open spec fn expansion_text(x: ExpansionSpec) -> Seq<char> {
    markers_text(tokens_text(x.output), x.markers) + dispatcher_text(x)
}

/// Writes the names out with `, ` between them.
pub fn join_names(names: &Vec<String>) -> (out: String)
    ensures
        out@ == joined(names.deep_view()),
{
    let mut out = String::new();
    let mut i: usize = 0;
    while i < names.len()
        invariant
            i <= names.len(),
            out@ == joined(names.deep_view().take(i as int)),
        decreases names.len() - i,
    {
        let ghost next = names.deep_view().take(i + 1);
        proof {
            assert(next.drop_last() =~= names.deep_view().take(i as int));
            assert(next.last() == names[i as int]@);
        }
        if i > 0 {
            out.append(", ");
        }
        out.append(names[i].as_str());
        i += 1;
    }
    assert(names.deep_view().take(i as int) =~= names.deep_view());
    out
}

/// Writes a bound expression out as source text.
pub fn render_bound(bound: &Bound) -> (out: String)
    ensures
        out@ == bound_text(bound.deep_view()),
{
    match bound {
        Bound::Expr(tokens) => render_tokens(tokens),
        Bound::Call { name, args } => {
            let mut out = name.clone();
            out.append("(");
            out.append(join_names(args).as_str());
            out.append(")");
            out
        },
    }
}

/// Writes out what an arm evaluates.
pub fn render_body(body: &ArmBody) -> (out: String)
    ensures
        out@ == body_text(body.deep_view()),
{
    match body {
        ArmBody::Bound(bound) => render_bound(bound),
        ArmBody::Forward(callable_type) => String::from_str(callable_type.as_forward_call()),
    }
}

/// Writes out what the pattern of a case binds.
pub fn render_fields(fields: &Fields) -> (out: String)
    ensures
        out@ == fields_text(fields.deep_view()),
{
    match fields {
        Fields::Unit => String::new(),
        Fields::Unnamed => String::from_str("(value)"),
        Fields::Named(names) => {
            let mut out = String::from_str(" { ");
            out.append(join_names(names).as_str());
            out.append(" }");
            out
        },
    }
}

/// Writes out one arm of the dispatcher's match.
pub fn render_arm(enum_name: &str, arm: &Arm) -> (out: String)
    ensures
        out@ == arm_text(enum_name@, arm.deep_view()),
{
    let mut out = String::from_str("            ");
    out.append(enum_name);
    out.append("::");
    out.append(arm.case.as_str());
    out.append(render_fields(&arm.fields).as_str());
    out.append(" => ");
    out.append(render_body(&arm.body).as_str());
    out.append(",\n");
    out
}

/// Writes out a marker type with its by-reference implementation, whose result type
/// is written as `output`.
pub fn render_marker(output: &str, marker: &Marker) -> (out: String)
    ensures
        out@ == marker_text(output@, marker.deep_view()),
{
    let mut out = String::from_str("#[derive(Clone, Debug)]\npub struct ");
    out.append(marker.name.as_str());
    out.append(";\nimpl argcall::Callable for ");
    out.append(marker.name.as_str());
    out.append(" {\n    type Output = ");
    out.append(output);
    out.append(";\n    fn call_fn(&self, _: ()) -> ");
    out.append(output);
    out.append(" {\n        ");
    out.append(render_bound(&marker.body).as_str());
    out.append("\n    }\n}\n");
    out
}

impl Expansion {
    /// Writes the generated implementation out as source text.
    pub fn render(&self) -> (out: String)
        ensures
            out@ == expansion_text(self.deep_view()),
    {
        let output = render_tokens(&self.output);
        let mut out = String::new();
        let mut i: usize = 0;
        while i < self.markers.len()
            invariant
                i <= self.markers.len(),
                output@ == tokens_text(self.output.deep_view()),
                out@ == markers_text(output@, self.markers.deep_view().take(i as int)),
            decreases self.markers.len() - i,
        {
            let ghost next = self.markers.deep_view().take(i + 1);
            proof {
                assert(next.drop_last() =~= self.markers.deep_view().take(i as int));
                assert(next.last() == self.markers[i as int].deep_view());
            }
            out.append(render_marker(output.as_str(), &self.markers[i]).as_str());
            i += 1;
        }
        assert(self.markers.deep_view().take(i as int) =~= self.markers.deep_view());
        let mut arms = String::new();
        let mut j: usize = 0;
        while j < self.arms.len()
            invariant
                j <= self.arms.len(),
                arms@ == arms_text(self.enum_name@, self.arms.deep_view().take(j as int)),
            decreases self.arms.len() - j,
        {
            let ghost next = self.arms.deep_view().take(j + 1);
            proof {
                assert(next.drop_last() =~= self.arms.deep_view().take(j as int));
                assert(next.last() == self.arms[j as int].deep_view());
            }
            arms.append(render_arm(self.enum_name.as_str(), &self.arms[j]).as_str());
            j += 1;
        }
        assert(self.arms.deep_view().take(j as int) =~= self.arms.deep_view());
        let mut dispatcher = String::from_str("impl ");
        dispatcher.append(self.callable_type.as_trait());
        dispatcher.append(" for ");
        dispatcher.append(self.enum_name.as_str());
        dispatcher.append(" {\n    type Output = ");
        dispatcher.append(output.as_str());
        dispatcher.append(";\n    fn ");
        dispatcher.append(self.callable_type.as_fn());
        dispatcher.append(" -> ");
        dispatcher.append(output.as_str());
        dispatcher.append(" {\n        match self {\n");
        dispatcher.append(arms.as_str());
        dispatcher.append("        }\n    }\n}\n");
        out.append(dispatcher.as_str());
        out
    }
}

} // verus!
