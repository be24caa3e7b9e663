use crate::decl::{
    find_directive, first_directive, AttributeSpec, Case, CaseSpec, Data, DataSpec, Declaration,
    DeclarationSpec, Fields, FieldsSpec,
};
use crate::directive::{
    fn_directive, output_directive, parse_fn_attribute, parse_output_attribute, result_view, Bound,
    BoundSpec, DirectiveError, DirectiveErrorSpec, Flaw,
};
use crate::token::{copy_names, lemma_deep_view_push, tokens_from, Token, TokenSpec};
use vstd::prelude::*;
use vstd::string::StringExecFns;

verus! {

/// The receiver mode of the interface to implement.
#[derive(Clone, Copy, Debug, PartialEq, Eq, Structural)]
pub enum CallableType {
    /// By shared reference.
    Callable,
    /// By exclusive reference.
    CallableMut,
    /// Consuming.
    CallableOnce,
}

impl CallableType {
    /// The path of the interface.
    pub open spec fn trait_path(self) -> Seq<char> {
        match self {
            CallableType::Callable => "argcall::Callable"@,
            CallableType::CallableMut => "argcall::CallableMut"@,
            CallableType::CallableOnce => "argcall::CallableOnce"@,
        }
    }

    /// The name and parameters of the interface's method.
    pub open spec fn method_signature(self) -> Seq<char> {
        match self {
            CallableType::Callable => "call_fn(&self, _: ())"@,
            CallableType::CallableMut => "call_fn_mut(&mut self, _: ())"@,
            CallableType::CallableOnce => "call_fn_once(self, _: ())"@,
        }
    }

    /// The call that hands the invocation on to the field bound as `value`, with the
    /// empty argument bundle.
    pub open spec fn forward_call(self) -> Seq<char> {
        match self {
            CallableType::Callable => "argcall::Callable::call_fn(value, ())"@,
            CallableType::CallableMut => "argcall::CallableMut::call_fn_mut(value, ())"@,
            CallableType::CallableOnce => "argcall::CallableOnce::call_fn_once(value, ())"@,
        }
    }

    /// The path of the interface, as source text.
    pub fn as_trait(&self) -> (r: &'static str)
        ensures
            r@ == self.trait_path(),
    {
        match self {
            CallableType::Callable => "argcall::Callable",
            CallableType::CallableMut => "argcall::CallableMut",
            CallableType::CallableOnce => "argcall::CallableOnce",
        }
    }

    /// The name and parameters of the interface's method, as source text.
    pub fn as_fn(&self) -> (r: &'static str)
        ensures
            r@ == self.method_signature(),
    {
        match self {
            CallableType::Callable => "call_fn(&self, _: ())",
            CallableType::CallableMut => "call_fn_mut(&mut self, _: ())",
            CallableType::CallableOnce => "call_fn_once(self, _: ())",
        }
    }

    /// The call that hands the invocation on to the field bound as `value`, as source
    /// text.
    pub fn as_forward_call(&self) -> (r: &'static str)
        ensures
            r@ == self.forward_call(),
    {
        match self {
            CallableType::Callable => "argcall::Callable::call_fn(value, ())",
            CallableType::CallableMut => "argcall::CallableMut::call_fn_mut(value, ())",
            CallableType::CallableOnce => "argcall::CallableOnce::call_fn_once(value, ())",
        }
    }
}

/// Why no implementation could be generated for a declaration.
#[derive(Clone, Debug, PartialEq, Eq)]
pub enum GenError {
    /// The declaration `name` is no tagged union.
    NotTaggedUnion { name: String },
    /// The declaration `name` has no `output` directive.
    MissingOutput { name: String },
    /// The case `case` has no `fn` or `fn_path` directive.
    MissingFn { case: String },
    /// A directive of the declaration or case `owner` has the unknown key `key`.
    UnrecognizedKey { owner: String, key: String },
    /// A directive of the declaration or case `owner` is malformed.
    Malformed { owner: String, flaw: Flaw },
}

/// A generation failure as a mathematical value.
pub enum GenErrorSpec {
    NotTaggedUnion { name: Seq<char> },
    MissingOutput { name: Seq<char> },
    MissingFn { case: Seq<char> },
    UnrecognizedKey { owner: Seq<char>, key: Seq<char> },
    Malformed { owner: Seq<char>, flaw: Flaw },
}

impl DeepView for GenError {
    type V = GenErrorSpec;

    open spec fn deep_view(&self) -> GenErrorSpec {
        match self {
            GenError::NotTaggedUnion { name } => GenErrorSpec::NotTaggedUnion { name: name@ },
            GenError::MissingOutput { name } => GenErrorSpec::MissingOutput { name: name@ },
            GenError::MissingFn { case } => GenErrorSpec::MissingFn { case: case@ },
            GenError::UnrecognizedKey { owner, key } => GenErrorSpec::UnrecognizedKey {
                owner: owner@,
                key: key@,
            },
            GenError::Malformed { owner, flaw } => GenErrorSpec::Malformed {
                owner: owner@,
                flaw: *flaw,
            },
        }
    }
}

/// The flaw in words.
pub open spec fn flaw_text(flaw: Flaw) -> Seq<char> {
    match flaw {
        Flaw::NoArguments => "expected attribute arguments in parentheses"@,
        Flaw::ExpectedKey => "expected an identifier as the key"@,
        Flaw::ExpectedEquals => "expected `=`"@,
        Flaw::ExpectedType => "expected a type"@,
        Flaw::ExpectedExpression => "expected an expression"@,
        Flaw::ExpectedStringLiteral => "expected string literal"@,
        Flaw::InvalidName => "expected an identifier in the string literal"@,
        Flaw::ExpectedComma => "expected `,`"@,
    }
}

/// The error in words, with the name of the declaration or case that it is about.
pub open spec fn error_text(e: GenErrorSpec) -> Seq<char> {
    match e {
        GenErrorSpec::NotTaggedUnion { name } => "can only be applied to enums: "@ + name,
        GenErrorSpec::MissingOutput { name } => "expected #[argcall(output = ...)] attribute on "@
            + name,
        GenErrorSpec::MissingFn { case } => "expected an 'argcall' attribute with 'fn' or 'fn_path' on "@
            + case,
        GenErrorSpec::UnrecognizedKey { owner, key } => "unrecognized attribute for argcall: "@
            + key + " on "@ + owner,
        GenErrorSpec::Malformed { owner, flaw } => "malformed argcall attribute on "@ + owner
            + ": "@ + flaw_text(flaw),
    }
}

impl GenError {
    /// Says the error in words.
    pub fn message(&self) -> (out: String)
        ensures
            out@ == error_text(self.deep_view()),
    {
        match self {
            GenError::NotTaggedUnion { name } => {
                let mut out = String::from_str("can only be applied to enums: ");
                out.append(name.as_str());
                out
            },
            GenError::MissingOutput { name } => {
                let mut out = String::from_str("expected #[argcall(output = ...)] attribute on ");
                out.append(name.as_str());
                out
            },
            GenError::MissingFn { case } => {
                let mut out = String::from_str(
                    "expected an 'argcall' attribute with 'fn' or 'fn_path' on ",
                );
                out.append(case.as_str());
                out
            },
            GenError::UnrecognizedKey { owner, key } => {
                let mut out = String::from_str("unrecognized attribute for argcall: ");
                out.append(key.as_str());
                out.append(" on ");
                out.append(owner.as_str());
                out
            },
            GenError::Malformed { owner, flaw } => {
                let mut out = String::from_str("malformed argcall attribute on ");
                out.append(owner.as_str());
                out.append(": ");
                out.append(
                    match flaw {
                        Flaw::NoArguments => "expected attribute arguments in parentheses",
                        Flaw::ExpectedKey => "expected an identifier as the key",
                        Flaw::ExpectedEquals => "expected `=`",
                        Flaw::ExpectedType => "expected a type",
                        Flaw::ExpectedExpression => "expected an expression",
                        Flaw::ExpectedStringLiteral => "expected string literal",
                        Flaw::InvalidName => "expected an identifier in the string literal",
                        Flaw::ExpectedComma => "expected `,`",
                    },
                );
                out
            },
        }
    }
}

/// The error of a declaration named `name` whose directive failed with `e`.
pub open spec fn declaration_error(name: Seq<char>, e: DirectiveErrorSpec) -> GenErrorSpec {
    match e {
        DirectiveErrorSpec::Missing => GenErrorSpec::MissingOutput { name },
        DirectiveErrorSpec::UnrecognizedKey(key) => GenErrorSpec::UnrecognizedKey {
            owner: name,
            key,
        },
        DirectiveErrorSpec::Malformed(flaw) => GenErrorSpec::Malformed { owner: name, flaw },
    }
}

/// The error of a case named `case` whose directive failed with `e`.
pub open spec fn case_error(case: Seq<char>, e: DirectiveErrorSpec) -> GenErrorSpec {
    match e {
        DirectiveErrorSpec::Missing => GenErrorSpec::MissingFn { case },
        DirectiveErrorSpec::UnrecognizedKey(key) => GenErrorSpec::UnrecognizedKey {
            owner: case,
            key,
        },
        DirectiveErrorSpec::Malformed(flaw) => GenErrorSpec::Malformed { owner: case, flaw },
    }
}

/// What a dispatcher arm evaluates.
#[derive(Clone, Debug, PartialEq, Eq)]
pub enum ArmBody {
    /// The expression that the case is bound to.
    Bound(Bound),
    /// The field's own implementation of the interface with the given receiver mode.
    Forward(CallableType),
}

/// What an arm evaluates, as a mathematical value.
pub enum ArmBodySpec {
    Bound(BoundSpec),
    Forward(CallableType),
}

impl DeepView for ArmBody {
    type V = ArmBodySpec;

    open spec fn deep_view(&self) -> ArmBodySpec {
        match self {
            ArmBody::Bound(bound) => ArmBodySpec::Bound(bound.deep_view()),
            ArmBody::Forward(callable_type) => ArmBodySpec::Forward(*callable_type),
        }
    }
}

/// The dispatcher's arm for one case.
#[derive(Clone, Debug, PartialEq, Eq)]
pub struct Arm {
    /// The case that the arm matches.
    pub case: String,
    /// The fields that its pattern binds.
    pub fields: Fields,
    pub body: ArmBody,
}

/// An arm as a mathematical value.
pub struct ArmSpec {
    pub case: Seq<char>,
    pub fields: FieldsSpec,
    pub body: ArmBodySpec,
}

impl DeepView for Arm {
    type V = ArmSpec;

    open spec fn deep_view(&self) -> ArmSpec {
        ArmSpec {
            case: self.case@,
            fields: self.fields.deep_view(),
            body: self.body.deep_view(),
        }
    }
}

/// The marker type of a case without data: a type without state whose by-reference
/// call evaluates the expression that the case is bound to.
#[derive(Clone, Debug, PartialEq, Eq)]
pub struct Marker {
    pub name: String,
    pub body: Bound,
}

/// A marker type as a mathematical value.
pub struct MarkerSpec {
    pub name: Seq<char>,
    pub body: BoundSpec,
}

impl DeepView for Marker {
    type V = MarkerSpec;

    open spec fn deep_view(&self) -> MarkerSpec {
        MarkerSpec { name: self.name@, body: self.body.deep_view() }
    }
}

/// The name of the marker type of the case `case` of `enum_name`.
pub open spec fn marker_name(enum_name: Seq<char>, case: Seq<char>) -> Seq<char> {
    enum_name + case + "Callable"@
}

/// What the case's own directive binds it to, with `fields` as the arguments of a
/// binding by name.
pub open spec fn case_binding(case: CaseSpec, fields: Seq<Seq<char>>) -> Result<
    BoundSpec,
    GenErrorSpec,
> {
    match first_directive(case.attrs) {
        None => Err(GenErrorSpec::MissingFn { case: case.name }),
        Some(attr) => match fn_directive(attr.args, fields) {
            Ok(bound) => Ok(bound),
            Err(e) => Err(case_error(case.name, e)),
        },
    }
}

/// The code of one case: the marker type, for a case without data, and the
/// dispatcher's arm.
pub open spec fn case_code(callable_type: CallableType, enum_name: Seq<char>, case: CaseSpec)
    -> Result<(Option<MarkerSpec>, ArmSpec), GenErrorSpec> {
    match case.fields {
        FieldsSpec::Unit => match case_binding(case, Seq::empty()) {
            Err(e) => Err(e),
            Ok(bound) => Ok(
                (
                    Some(MarkerSpec { name: marker_name(enum_name, case.name), body: bound }),
                    ArmSpec {
                        case: case.name,
                        fields: FieldsSpec::Unit,
                        body: ArmBodySpec::Bound(bound),
                    },
                ),
            ),
        },
        FieldsSpec::Unnamed => Ok(
            (
                None,
                ArmSpec {
                    case: case.name,
                    fields: FieldsSpec::Unnamed,
                    body: ArmBodySpec::Forward(callable_type),
                },
            ),
        ),
        FieldsSpec::Named(fields) => match case_binding(case, fields) {
            Err(e) => Err(e),
            Ok(bound) => Ok(
                (
                    None,
                    ArmSpec {
                        case: case.name,
                        fields: FieldsSpec::Named(fields),
                        body: ArmBodySpec::Bound(bound),
                    },
                ),
            ),
        },
    }
}

/// The dispatcher's arm for the case, where the case has code.
pub open spec fn case_arm(callable_type: CallableType, enum_name: Seq<char>, case: CaseSpec)
    -> Option<ArmSpec> {
    match case_code(callable_type, enum_name, case) {
        Ok((_, arm)) => Some(arm),
        Err(_) => None,
    }
}

/// The marker type of the case, where the case has one.
pub open spec fn case_marker(callable_type: CallableType, enum_name: Seq<char>, case: CaseSpec)
    -> Option<MarkerSpec> {
    match case_code(callable_type, enum_name, case) {
        Ok((marker, _)) => marker,
        Err(_) => None,
    }
}

/// The model of the pair that `parse_variant` returns.
pub open spec fn case_code_view(r: Result<(Option<Marker>, Arm), GenError>) -> Result<
    (Option<MarkerSpec>, ArmSpec),
    GenErrorSpec,
> {
    match r {
        Ok((marker, arm)) => Ok((marker.deep_view(), arm.deep_view())),
        Err(e) => Err(e.deep_view()),
    }
}

/// The error of the case `case` for the failure `e` of its directive.
fn error_of_case(case: &String, e: DirectiveError) -> (r: GenError)
    ensures
        r.deep_view() == case_error(case@, e.deep_view()),
{
    match e {
        DirectiveError::Missing => GenError::MissingFn { case: case.clone() },
        DirectiveError::UnrecognizedKey(key) => GenError::UnrecognizedKey {
            owner: case.clone(),
            key,
        },
        DirectiveError::Malformed(flaw) => GenError::Malformed { owner: case.clone(), flaw },
    }
}

/// Reads the case's own directive.
fn bind_case(variant: &Case, fields: &Vec<String>) -> (r: Result<Bound, GenError>)
    ensures
        result_view(r) == case_binding(variant.deep_view(), fields.deep_view()),
{
    match find_directive(&variant.attrs) {
        None => Err(GenError::MissingFn { case: variant.name.clone() }),
        Some(attr) => match parse_fn_attribute(attr, fields) {
            Ok(bound) => Ok(bound),
            Err(e) => Err(error_of_case(&variant.name, e)),
        },
    }
}

/// A copy of the binding.
pub fn copy_bound(bound: &Bound) -> (out: Bound)
    ensures
        out.deep_view() == bound.deep_view(),
{
    match bound {
        Bound::Expr(tokens) => {
            let out = tokens_from(tokens, 0);
            assert(tokens.deep_view().skip(0) =~= tokens.deep_view());
            Bound::Expr(out)
        },
        Bound::Call { name, args } => Bound::Call { name: name.clone(), args: copy_names(args) },
    }
}

/// Decides the code of one case by its shape: for a case without data a marker type
/// and an arm that both evaluate the bound expression, for anonymous fields an arm
/// that forwards to the field, for named fields an arm that evaluates the bound
/// expression with the fields in scope.
pub fn parse_variant(callable_type: CallableType, enum_name: &str, variant: &Case) -> (r: Result<
    (Option<Marker>, Arm),
    GenError,
>)
    ensures
        case_code_view(r) == case_code(callable_type, enum_name@, variant.deep_view()),
{
    match &variant.fields {
        Fields::Unit => {
            let none: Vec<String> = Vec::new();
            assert(none.deep_view() =~= Seq::<Seq<char>>::empty());
            let bound = match bind_case(variant, &none) {
                Err(e) => {
                    return Err(e);
                },
                Ok(bound) => bound,
            };
            let mut name = String::from_str(enum_name);
            name.append(variant.name.as_str());
            name.append("Callable");
            let marker = Marker { name, body: copy_bound(&bound) };
            let arm = Arm {
                case: variant.name.clone(),
                fields: Fields::Unit,
                body: ArmBody::Bound(bound),
            };
            Ok((Some(marker), arm))
        },
        Fields::Unnamed => {
            let arm = Arm {
                case: variant.name.clone(),
                fields: Fields::Unnamed,
                body: ArmBody::Forward(callable_type),
            };
            Ok((None, arm))
        },
        Fields::Named(fields) => {
            let bound = match bind_case(variant, fields) {
                Err(e) => {
                    return Err(e);
                },
                Ok(bound) => bound,
            };
            let arm = Arm {
                case: variant.name.clone(),
                fields: Fields::Named(copy_names(fields)),
                body: ArmBody::Bound(bound),
            };
            Ok((None, arm))
        },
    }
}

/// The implementation generated for a tagged union: a marker type for each case
/// without data, and the dispatcher, whose arms stand in the order of the cases.
#[derive(Clone, Debug, PartialEq, Eq)]
pub struct Expansion {
    /// The interface that the dispatcher implements.
    pub callable_type: CallableType,
    pub enum_name: String,
    /// The tokens of the result type.
    pub output: Vec<Token>,
    pub markers: Vec<Marker>,
    pub arms: Vec<Arm>,
}

/// A generated implementation as a mathematical value.
pub struct ExpansionSpec {
    pub callable_type: CallableType,
    pub enum_name: Seq<char>,
    pub output: Seq<TokenSpec>,
    pub markers: Seq<MarkerSpec>,
    pub arms: Seq<ArmSpec>,
}

impl DeepView for Expansion {
    type V = ExpansionSpec;

    open spec fn deep_view(&self) -> ExpansionSpec {
        ExpansionSpec {
            callable_type: self.callable_type,
            enum_name: self.enum_name@,
            output: self.output.deep_view(),
            markers: self.markers.deep_view(),
            arms: self.arms.deep_view(),
        }
    }
}

/// The result type that the declaration's first `argcall` attribute names.
pub open spec fn declared_output(name: Seq<char>, attrs: Seq<AttributeSpec>) -> Result<
    Seq<TokenSpec>,
    GenErrorSpec,
> {
    match first_directive(attrs) {
        None => Err(GenErrorSpec::MissingOutput { name }),
        Some(attr) => match output_directive(attr.args) {
            Ok(output) => Ok(output),
            Err(e) => Err(declaration_error(name, e)),
        },
    }
}

/// The markers with the marker of one more case, if it has one.
pub open spec fn with_marker(markers: Seq<MarkerSpec>, marker: Option<MarkerSpec>) -> Seq<
    MarkerSpec,
> {
    match marker {
        Some(marker) => markers.push(marker),
        None => markers,
    }
}

/// The code of the cases, taken in order: the marker types and the arms, or the error
/// of the first case that has one.
pub open spec fn cases_code(callable_type: CallableType, enum_name: Seq<char>, cases: Seq<CaseSpec>)
    -> Result<(Seq<MarkerSpec>, Seq<ArmSpec>), GenErrorSpec>
    decreases cases.len(),
{
    if cases.len() == 0 {
        Ok((Seq::empty(), Seq::empty()))
    } else {
        match cases_code(callable_type, enum_name, cases.drop_last()) {
            Err(e) => Err(e),
            Ok((markers, arms)) => match case_code(callable_type, enum_name, cases.last()) {
                Err(e) => Err(e),
                Ok((marker, arm)) => Ok((with_marker(markers, marker), arms.push(arm))),
            },
        }
    }
}

/// The implementation generated for `decl`, or why there is none: the declaration
/// must be a tagged union, then name its result type, then bind each of its cases.
pub open spec fn expansion(callable_type: CallableType, decl: DeclarationSpec) -> Result<
    ExpansionSpec,
    GenErrorSpec,
> {
    match decl.data {
        DataSpec::Enum(cases) => match declared_output(decl.name, decl.attrs) {
            Err(e) => Err(e),
            Ok(output) => match cases_code(callable_type, decl.name, cases) {
                Err(e) => Err(e),
                Ok((markers, arms)) => Ok(
                    ExpansionSpec { callable_type, enum_name: decl.name, output, markers, arms },
                ),
            },
        },
        _ => Err(GenErrorSpec::NotTaggedUnion { name: decl.name }),
    }
}

/// An error among the first cases is the error of all of them.
pub proof fn lemma_cases_code_error_stays(
    callable_type: CallableType,
    enum_name: Seq<char>,
    cases: Seq<CaseSpec>,
    n: int,
)
    requires
        0 <= n <= cases.len(),
        cases_code(callable_type, enum_name, cases.take(n)) is Err,
    ensures
        cases_code(callable_type, enum_name, cases) == cases_code(
            callable_type,
            enum_name,
            cases.take(n),
        ),
    decreases cases.len() - n,
{
    if n == cases.len() {
        assert(cases.take(n) =~= cases);
    } else {
        assert(cases.take(n + 1).drop_last() =~= cases.take(n));
        lemma_cases_code_error_stays(callable_type, enum_name, cases, n + 1);
    }
}

/// The error of the declaration `name` for the failure `e` of its directive.
fn error_of_declaration(name: &String, e: DirectiveError) -> (r: GenError)
    ensures
        r.deep_view() == declaration_error(name@, e.deep_view()),
{
    match e {
        DirectiveError::Missing => GenError::MissingOutput { name: name.clone() },
        DirectiveError::UnrecognizedKey(key) => GenError::UnrecognizedKey {
            owner: name.clone(),
            key,
        },
        DirectiveError::Malformed(flaw) => GenError::Malformed { owner: name.clone(), flaw },
    }
}

/// Reads the result type off the declaration's attributes.
fn read_output(input: &Declaration) -> (r: Result<Vec<Token>, GenError>)
    ensures
        result_view(r) == declared_output(input.name@, input.attrs.deep_view()),
{
    match find_directive(&input.attrs) {
        None => Err(GenError::MissingOutput { name: input.name.clone() }),
        Some(attr) => match parse_output_attribute(attr) {
            Ok(output) => Ok(output),
            Err(e) => Err(error_of_declaration(&input.name, e)),
        },
    }
}

/// Generates the implementation of the interface with receiver mode `callable_type`
/// for the declaration `input`.
pub fn generic_callable(callable_type: CallableType, input: &Declaration) -> (r: Result<
    Expansion,
    GenError,
>)
    ensures
        result_view(r) == expansion(callable_type, input.deep_view()),
{
    let cases = match &input.data {
        Data::Enum(cases) => cases,
        _ => {
            return Err(GenError::NotTaggedUnion { name: input.name.clone() });
        },
    };
    let output = match read_output(input) {
        Err(e) => {
            return Err(e);
        },
        Ok(output) => output,
    };
    let mut markers: Vec<Marker> = Vec::new();
    let mut arms: Vec<Arm> = Vec::new();
    let mut i: usize = 0;
    assert(markers.deep_view() =~= Seq::<MarkerSpec>::empty());
    assert(arms.deep_view() =~= Seq::<ArmSpec>::empty());
    while i < cases.len()
        invariant
            i <= cases.len(),
            input.deep_view().data == DataSpec::Enum(cases.deep_view()),
            declared_output(input.name@, input.attrs.deep_view()) == Ok::<
                Seq<TokenSpec>,
                GenErrorSpec,
            >(output.deep_view()),
            cases_code(callable_type, input.name@, cases.deep_view().take(i as int)) == Ok::<
                (Seq<MarkerSpec>, Seq<ArmSpec>),
                GenErrorSpec,
            >((markers.deep_view(), arms.deep_view())),
        decreases cases.len() - i,
    {
        let ghost done = cases.deep_view().take(i as int);
        let ghost next = cases.deep_view().take(i + 1);
        proof {
            assert(next.drop_last() =~= done);
            assert(next.last() == cases[i as int].deep_view());
        }
        match parse_variant(callable_type, input.name.as_str(), &cases[i]) {
            Err(e) => {
                proof {
                    assert(cases_code(callable_type, input.name@, next) == Err::<
                        (Seq<MarkerSpec>, Seq<ArmSpec>),
                        GenErrorSpec,
                    >(e.deep_view()));
                    lemma_cases_code_error_stays(
                        callable_type,
                        input.name@,
                        cases.deep_view(),
                        i + 1,
                    );
                }
                return Err(e);
            },
            Ok((marker, arm)) => {
                let ghost arms_before = arms;
                arms.push(arm);
                proof {
                    lemma_deep_view_push(arms_before, arms, arm);
                }
                match marker {
                    Some(marker) => {
                        let ghost markers_before = markers;
                        markers.push(marker);
                        proof {
                            lemma_deep_view_push(markers_before, markers, marker);
                        }
                    },
                    None => {},
                }
            },
        }
        i += 1;
    }
    assert(cases.deep_view().take(i as int) =~= cases.deep_view());
    Ok(Expansion { callable_type, enum_name: input.name.clone(), output, markers, arms })
}

/// Generates the by-reference implementation for `input`.
pub fn callable_derive(input: &Declaration) -> (r: Result<Expansion, GenError>)
    ensures
        result_view(r) == expansion(CallableType::Callable, input.deep_view()),
{
    generic_callable(CallableType::Callable, input)
}

/// Generates the by-mutable-reference implementation for `input`.
pub fn callable_mut_derive(input: &Declaration) -> (r: Result<Expansion, GenError>)
    ensures
        result_view(r) == expansion(CallableType::CallableMut, input.deep_view()),
{
    generic_callable(CallableType::CallableMut, input)
}

/// Generates the consuming implementation for `input`.
pub fn callable_once_derive(input: &Declaration) -> (r: Result<Expansion, GenError>)
    ensures
        result_view(r) == expansion(CallableType::CallableOnce, input.deep_view()),
{
    generic_callable(CallableType::CallableOnce, input)
}

} // verus!
