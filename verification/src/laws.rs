use crate::decl::{first_directive, CaseSpec, DataSpec, DeclarationSpec, FieldsSpec};
use crate::directive::{fn_entries, BoundSpec, DirectiveErrorSpec};
use crate::expand::{
    case_arm, case_binding, case_code, case_marker, cases_code, declared_output, expansion,
    lemma_cases_code_error_stays, marker_name, ArmBodySpec, ArmSpec, CallableType, ExpansionSpec,
    GenErrorSpec, MarkerSpec,
};
use crate::render::{body_text, bound_text, joined};
use crate::outside::reads_as_type;
use crate::token::{tokens_text, TokenSpec};
use vstd::prelude::*;

verus! {

/// The cases have code exactly when each of them has, and then the arms stand one
/// for one in the order of the cases.
pub proof fn lemma_arms_follow_cases(
    callable_type: CallableType,
    enum_name: Seq<char>,
    cases: Seq<CaseSpec>,
)
    ensures
        cases_code(callable_type, enum_name, cases) is Ok <==> forall|i: int|
            0 <= i < cases.len() ==> #[trigger] case_code(callable_type, enum_name, cases[i]) is Ok,
        cases_code(callable_type, enum_name, cases) matches Ok((_, arms)) ==> {
            &&& arms.len() == cases.len()
            &&& forall|i: int|
                0 <= i < cases.len() ==> #[trigger] case_arm(callable_type, enum_name, cases[i])
                    == Some(arms[i])
        },
    decreases cases.len(),
{
    if cases.len() > 0 {
        let head = cases.drop_last();
        lemma_arms_follow_cases(callable_type, enum_name, head);
        assert forall|i: int| 0 <= i < head.len() implies head[i] == cases[i] by {}
        if cases_code(callable_type, enum_name, cases) is Ok {
            assert forall|i: int| 0 <= i < cases.len() implies #[trigger] case_code(
                callable_type,
                enum_name,
                cases[i],
            ) is Ok by {
                if i < head.len() {
                    assert(head[i] == cases[i]);
                }
            }
        }
        if forall|i: int|
            0 <= i < cases.len() ==> #[trigger] case_code(callable_type, enum_name, cases[i]) is Ok {
            assert forall|i: int| 0 <= i < head.len() implies #[trigger] case_code(
                callable_type,
                enum_name,
                head[i],
            ) is Ok by {
                assert(head[i] == cases[i]);
            }
            assert(case_code(callable_type, enum_name, cases.last()) is Ok);
        }
        if let Ok((_, arms)) = cases_code(callable_type, enum_name, cases) {
            assert forall|i: int| 0 <= i < cases.len() implies #[trigger] case_arm(
                callable_type,
                enum_name,
                cases[i],
            ) == Some(arms[i]) by {
                if i < head.len() {
                    assert(head[i] == cases[i]);
                }
            }
        }
    }
}

/// The first case without code decides the error of all of them.
pub proof fn lemma_first_error_decides(
    callable_type: CallableType,
    enum_name: Seq<char>,
    cases: Seq<CaseSpec>,
    i: int,
)
    requires
        0 <= i < cases.len(),
        case_code(callable_type, enum_name, cases[i]) is Err,
        forall|j: int| 0 <= j < i ==> #[trigger] case_code(callable_type, enum_name, cases[j]) is Ok,
    ensures
        cases_code(callable_type, enum_name, cases) matches Err(e) && case_code(
            callable_type,
            enum_name,
            cases[i],
        ) == Err::<(Option<MarkerSpec>, ArmSpec), GenErrorSpec>(e),
{
    let before = cases.take(i);
    let upto = cases.take(i + 1);
    assert forall|j: int| 0 <= j < before.len() implies #[trigger] case_code(
        callable_type,
        enum_name,
        before[j],
    ) is Ok by {
        assert(before[j] == cases[j]);
    }
    lemma_arms_follow_cases(callable_type, enum_name, before);
    assert(upto.drop_last() =~= before);
    assert(upto.last() == cases[i]);
    assert(cases_code(callable_type, enum_name, upto) is Err);
    lemma_cases_code_error_stays(callable_type, enum_name, cases, i + 1);
}

/// Where every case carries no data, the marker types stand one for one in the order
/// of the cases.
pub proof fn lemma_markers_follow_unit_cases(
    callable_type: CallableType,
    enum_name: Seq<char>,
    cases: Seq<CaseSpec>,
)
    requires
        forall|i: int| 0 <= i < cases.len() ==> (#[trigger] cases[i]).fields is Unit,
    ensures
        cases_code(callable_type, enum_name, cases) matches Ok((markers, _)) ==> {
            &&& markers.len() == cases.len()
            &&& forall|i: int|
                0 <= i < cases.len() ==> #[trigger] case_marker(callable_type, enum_name, cases[i])
                    == Some(markers[i])
        },
    decreases cases.len(),
{
    if cases.len() > 0 {
        let head = cases.drop_last();
        assert forall|i: int| 0 <= i < head.len() implies (#[trigger] head[i]).fields is Unit by {
            assert(head[i] == cases[i]);
        }
        lemma_markers_follow_unit_cases(callable_type, enum_name, head);
        if let Ok((markers, _)) = cases_code(callable_type, enum_name, cases) {
            assert(cases.last().fields is Unit);
            assert forall|i: int| 0 <= i < cases.len() implies #[trigger] case_marker(
                callable_type,
                enum_name,
                cases[i],
            ) == Some(markers[i]) by {
                if i < head.len() {
                    assert(head[i] == cases[i]);
                }
            }
        }
    }
}

/// The arm that a match on a value of the case named `case` takes: the first arm, in
/// order, whose pattern names that case.
pub open spec fn taken_arm(arms: Seq<ArmSpec>, case: Seq<char>) -> Option<ArmSpec>
    decreases arms.len(),
{
    if arms.len() == 0 {
        None
    } else if arms[0].case == case {
        Some(arms[0])
    } else {
        taken_arm(arms.skip(1), case)
    }
}

/// No two cases have the same name, as in every tagged union.
pub open spec fn distinct_names(cases: Seq<CaseSpec>) -> bool {
    forall|i: int, j: int|
        0 <= i < j < cases.len() ==> (#[trigger] cases[i]).name != (#[trigger] cases[j]).name
}

/// Among arms for cases of different names, a match on a value of the case of the
/// arm at `i` takes that arm.
pub proof fn lemma_match_takes_own_arm(arms: Seq<ArmSpec>, i: int, from: int)
    requires
        0 <= from <= i < arms.len(),
        forall|j: int| 0 <= j < i ==> (#[trigger] arms[j]).case != arms[i].case,
    ensures
        taken_arm(arms.skip(from), arms[i].case) == Some(arms[i]),
    decreases i - from,
{
    let rest = arms.skip(from);
    assert(rest[0] == arms[from]);
    if from < i {
        assert(rest.skip(1) =~= arms.skip(from + 1));
        lemma_match_takes_own_arm(arms, i, from + 1);
    }
}

/// The dispatcher generated for a tagged union routes a value of each case to the
/// arm generated for that case.
pub proof fn law_dispatch_takes_the_arm_of_the_case(
    callable_type: CallableType,
    decl: DeclarationSpec,
    cases: Seq<CaseSpec>,
    i: int,
)
    requires
        decl.data == DataSpec::Enum(cases),
        distinct_names(cases),
        0 <= i < cases.len(),
    ensures
        expansion(callable_type, decl) matches Ok(x) ==> {
            &&& x.arms.len() == cases.len()
            &&& x.arms[i].case == cases[i].name
            &&& case_arm(callable_type, decl.name, cases[i]) == Some(x.arms[i])
            &&& taken_arm(x.arms, cases[i].name) == Some(x.arms[i])
        },
{
    lemma_arms_follow_cases(callable_type, decl.name, cases);
    if let Ok(x) = expansion(callable_type, decl) {
        assert forall|j: int| 0 <= j < cases.len() implies (#[trigger] x.arms[j]).case
            == cases[j].name by {
            assert(case_arm(callable_type, decl.name, cases[j]) == Some(x.arms[j]));
        }
        lemma_match_takes_own_arm(x.arms, i, 0);
        assert(x.arms.skip(0) =~= x.arms);
    }
}

/// A tagged union whose cases all carry no data and are all bound fails to generate
/// only for its result type's sake. Otherwise the dispatcher has, for each case and in
/// the order of the cases, an arm that evaluates exactly the expression that the case
/// is bound to, and each case has a marker type, named after the union and the case,
/// that evaluates the same expression.
pub proof fn law_unit_cases_evaluate_their_binding(
    callable_type: CallableType,
    decl: DeclarationSpec,
    cases: Seq<CaseSpec>,
)
    requires
        decl.data == DataSpec::Enum(cases),
        forall|i: int|
            0 <= i < cases.len() ==> (#[trigger] cases[i]).fields is Unit && case_binding(
                cases[i],
                Seq::empty(),
            ) is Ok,
    ensures
        declared_output(decl.name, decl.attrs) matches Err(e) ==> expansion(callable_type, decl)
            == Err::<ExpansionSpec, GenErrorSpec>(e),
        declared_output(decl.name, decl.attrs) matches Ok(output) ==> {
            let x = expansion(callable_type, decl)->Ok_0;
            &&& expansion(callable_type, decl) is Ok
            &&& x.callable_type == callable_type
            &&& x.enum_name == decl.name
            &&& x.output == output
            &&& x.arms.len() == cases.len()
            &&& x.markers.len() == cases.len()
            &&& forall|i: int|
                0 <= i < cases.len() ==> {
                    let bound = case_binding(cases[i], Seq::empty())->Ok_0;
                    &&& #[trigger] x.arms[i] == ArmSpec {
                        case: cases[i].name,
                        fields: FieldsSpec::Unit,
                        body: ArmBodySpec::Bound(bound),
                    }
                    &&& body_text(x.arms[i].body) == bound_text(bound)
                    &&& x.markers[i] == MarkerSpec {
                        name: marker_name(decl.name, cases[i].name),
                        body: bound,
                    }
                    &&& distinct_names(cases) ==> taken_arm(x.arms, cases[i].name) == Some(
                        x.arms[i],
                    )
                }
        },
{
    assert forall|i: int| 0 <= i < cases.len() implies #[trigger] case_code(
        callable_type,
        decl.name,
        cases[i],
    ) is Ok by {}
    lemma_arms_follow_cases(callable_type, decl.name, cases);
    lemma_markers_follow_unit_cases(callable_type, decl.name, cases);
    if let Ok(output) = declared_output(decl.name, decl.attrs) {
        let x = expansion(callable_type, decl)->Ok_0;
        assert forall|i: int| 0 <= i < cases.len() implies {
            let bound = case_binding(cases[i], Seq::empty())->Ok_0;
            &&& #[trigger] x.arms[i] == ArmSpec {
                case: cases[i].name,
                fields: FieldsSpec::Unit,
                body: ArmBodySpec::Bound(bound),
            }
            &&& body_text(x.arms[i].body) == bound_text(bound)
            &&& x.markers[i] == MarkerSpec {
                name: marker_name(decl.name, cases[i].name),
                body: bound,
            }
            &&& distinct_names(cases) ==> taken_arm(x.arms, cases[i].name) == Some(x.arms[i])
        } by {
            assert(case_arm(callable_type, decl.name, cases[i]) == Some(x.arms[i]));
            assert(case_marker(callable_type, decl.name, cases[i]) == Some(x.markers[i]));
            if distinct_names(cases) {
                law_dispatch_takes_the_arm_of_the_case(callable_type, decl, cases, i);
            }
        }
    }
}

/// In a generated dispatcher, the arm of a case with an anonymous field consults no
/// directive: it hands the invocation on to the field's own implementation of the
/// interface with the requested receiver mode, with the empty argument bundle, and its
/// result is the arm's result as it stands.
pub proof fn law_anonymous_field_forwards(
    callable_type: CallableType,
    decl: DeclarationSpec,
    cases: Seq<CaseSpec>,
    i: int,
)
    requires
        decl.data == DataSpec::Enum(cases),
        0 <= i < cases.len(),
        cases[i].fields is Unnamed,
    ensures
        case_code(callable_type, decl.name, cases[i]) == Ok::<
            (Option<MarkerSpec>, ArmSpec),
            GenErrorSpec,
        >(
            (
                None,
                ArmSpec {
                    case: cases[i].name,
                    fields: FieldsSpec::Unnamed,
                    body: ArmBodySpec::Forward(callable_type),
                },
            ),
        ),
        expansion(callable_type, decl) matches Ok(x) ==> {
            &&& x.arms.len() == cases.len()
            &&& x.arms[i] == ArmSpec {
                case: cases[i].name,
                fields: FieldsSpec::Unnamed,
                body: ArmBodySpec::Forward(callable_type),
            }
            &&& body_text(x.arms[i].body) == callable_type.forward_call()
            &&& distinct_names(cases) ==> taken_arm(x.arms, cases[i].name) == Some(x.arms[i])
        },
{
    lemma_arms_follow_cases(callable_type, decl.name, cases);
    if let Ok(x) = expansion(callable_type, decl) {
        assert(case_arm(callable_type, decl.name, cases[i]) == Some(x.arms[i]));
        if distinct_names(cases) {
            law_dispatch_takes_the_arm_of_the_case(callable_type, decl, cases, i);
        }
    }
}

/// A binding by name applies the name to the fields it is given, in their order, and
/// which name it is does not depend on the fields.
pub proof fn lemma_named_binding_follows_fields(
    ts: Seq<TokenSpec>,
    pos: int,
    fields: Seq<Seq<char>>,
    other: Seq<Seq<char>>,
)
    requires
        0 <= pos,
    ensures
        fn_entries(ts, pos, fields) matches Ok(BoundSpec::Call { name, args }) ==> args == fields
            && fn_entries(ts, pos, other) == Ok::<BoundSpec, DirectiveErrorSpec>(
            BoundSpec::Call { name, args: other },
        ),
    decreases ts.len() - pos,
{
    if fn_entries(ts, pos, fields) is Ok && pos + 4 < ts.len() {
        lemma_named_binding_follows_fields(ts, pos + 4, fields, other);
    }
}

/// A case with named fields that is bound by name: the generated call passes the
/// fields as positional arguments in the order of their declaration. Declared in
/// another order, the same fields are passed in that order to the same name.
pub proof fn law_named_fields_are_passed_in_order(
    callable_type: CallableType,
    enum_name: Seq<char>,
    case: CaseSpec,
    fields: Seq<Seq<char>>,
    reordered: Seq<Seq<char>>,
)
    requires
        case.fields == FieldsSpec::Named(fields),
        case_code(callable_type, enum_name, case) matches Ok((_, arm))
            && arm.body matches ArmBodySpec::Bound(BoundSpec::Call { .. }),
    ensures
        ({
            let arm = case_arm(callable_type, enum_name, case)->Some_0;
            let name = arm.body->Bound_0->Call_name;
            let again = CaseSpec { fields: FieldsSpec::Named(reordered), ..case };
            &&& arm.fields == FieldsSpec::Named(fields)
            &&& arm.body == ArmBodySpec::Bound(BoundSpec::Call { name, args: fields })
            &&& body_text(arm.body) == name + "("@ + joined(fields) + ")"@
            &&& case_arm(callable_type, enum_name, again) == Some(
                ArmSpec {
                    case: case.name,
                    fields: FieldsSpec::Named(reordered),
                    body: ArmBodySpec::Bound(BoundSpec::Call { name, args: reordered }),
                },
            )
        }),
{
    let attr = first_directive(case.attrs)->Some_0;
    let ts = attr.args->Some_0;
    lemma_named_binding_follows_fields(ts, 0, fields, reordered);
}

/// A tagged union without an `output` directive has no implementation: generation
/// fails with the error that names the declaration.
pub proof fn law_missing_output_fails(callable_type: CallableType, decl: DeclarationSpec)
    requires
        decl.data is Enum,
        first_directive(decl.attrs) is None || first_directive(decl.attrs)->Some_0.args == Some(
            Seq::<TokenSpec>::empty(),
        ),
    ensures
        expansion(callable_type, decl) == Err::<ExpansionSpec, GenErrorSpec>(
            GenErrorSpec::MissingOutput { name: decl.name },
        ),
{
}

/// The result type of a generated implementation is never made up: it is what the
/// declaration's first `argcall` attribute writes behind `output =`, and that reads
/// as one type.
pub proof fn law_output_is_declared(callable_type: CallableType, decl: DeclarationSpec)
    requires
        expansion(callable_type, decl) is Ok,
    ensures
        decl.data is Enum,
        first_directive(decl.attrs) matches Some(attr) && attr.args matches Some(ts)
            && ts.len() >= 2 && ts[0].text == "output"@ && ts[1].is_punct('=')
            && reads_as_type(tokens_text(ts.skip(2)))
            && expansion(callable_type, decl)->Ok_0.output == ts.skip(2),
{
}

/// A case without data or with named fields that has no `fn` or `fn_path` directive
/// leaves the tagged union without an implementation. Where the result type is
/// declared and every earlier case has code, the error is the one that names this case.
pub proof fn law_missing_fn_fails(
    callable_type: CallableType,
    decl: DeclarationSpec,
    cases: Seq<CaseSpec>,
    i: int,
)
    requires
        decl.data == DataSpec::Enum(cases),
        0 <= i < cases.len(),
        !(cases[i].fields is Unnamed),
        first_directive(cases[i].attrs) is None || first_directive(cases[i].attrs)->Some_0.args
            == Some(Seq::<TokenSpec>::empty()),
    ensures
        case_code(callable_type, decl.name, cases[i]) == Err::<
            (Option<MarkerSpec>, ArmSpec),
            GenErrorSpec,
        >(GenErrorSpec::MissingFn { case: cases[i].name }),
        expansion(callable_type, decl) is Err,
        declared_output(decl.name, decl.attrs) is Ok && (forall|j: int|
            0 <= j < i ==> #[trigger] case_code(callable_type, decl.name, cases[j]) is Ok)
            ==> expansion(callable_type, decl) == Err::<ExpansionSpec, GenErrorSpec>(
            GenErrorSpec::MissingFn { case: cases[i].name },
        ),
{
    lemma_arms_follow_cases(callable_type, decl.name, cases);
    if forall|j: int|
        0 <= j < i ==> #[trigger] case_code(callable_type, decl.name, cases[j]) is Ok {
        lemma_first_error_decides(callable_type, decl.name, cases, i);
    }
}

} // verus!
