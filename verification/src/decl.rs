use crate::token::{text_is, Token, TokenSpec};
use vstd::prelude::*;

verus! {

/// An attribute as written on a declaration or on one of its cases.
#[derive(Clone, Debug, PartialEq, Eq)]
pub struct Attribute {
    /// The path that names the attribute, as written.
    pub path: String,
    /// The tokens between the attribute's delimiters; `None` where it has none, as in
    /// `#[name]` or `#[name = value]`.
    pub args: Option<Vec<Token>>,
}

/// An attribute as a mathematical value.
pub struct AttributeSpec {
    pub path: Seq<char>,
    pub args: Option<Seq<TokenSpec>>,
}

impl DeepView for Attribute {
    type V = AttributeSpec;

    open spec fn deep_view(&self) -> AttributeSpec {
        AttributeSpec { path: self.path@, args: self.args.deep_view() }
    }
}

/// The data that a case carries.
#[derive(Clone, Debug, PartialEq, Eq)]
pub enum Fields {
    /// No data.
    Unit,
    /// Anonymous fields, as in `Case(Inner)`.
    Unnamed,
    /// Named fields, in the order of their declaration.
    Named(Vec<String>),
}

/// The data of a case as a mathematical value.
pub enum FieldsSpec {
    Unit,
    Unnamed,
    Named(Seq<Seq<char>>),
}

impl DeepView for Fields {
    type V = FieldsSpec;

    open spec fn deep_view(&self) -> FieldsSpec {
        match self {
            Fields::Unit => FieldsSpec::Unit,
            Fields::Unnamed => FieldsSpec::Unnamed,
            Fields::Named(names) => FieldsSpec::Named(names.deep_view()),
        }
    }
}

/// One case of a tagged union.
#[derive(Clone, Debug, PartialEq, Eq)]
pub struct Case {
    pub name: String,
    pub attrs: Vec<Attribute>,
    pub fields: Fields,
}

/// A case as a mathematical value.
pub struct CaseSpec {
    pub name: Seq<char>,
    pub attrs: Seq<AttributeSpec>,
    pub fields: FieldsSpec,
}

impl DeepView for Case {
    type V = CaseSpec;

    open spec fn deep_view(&self) -> CaseSpec {
        CaseSpec {
            name: self.name@,
            attrs: self.attrs.deep_view(),
            fields: self.fields.deep_view(),
        }
    }
}

/// What a declaration declares.
#[derive(Clone, Debug, PartialEq, Eq)]
pub enum Data {
    /// A tagged union, with its cases in the order of their declaration.
    Enum(Vec<Case>),
    /// A plain record.
    Struct,
    /// An untagged union.
    Union,
}

/// What a declaration declares, as a mathematical value.
pub enum DataSpec {
    Enum(Seq<CaseSpec>),
    Struct,
    Union,
}

impl DeepView for Data {
    type V = DataSpec;

    open spec fn deep_view(&self) -> DataSpec {
        match self {
            Data::Enum(cases) => DataSpec::Enum(cases.deep_view()),
            Data::Struct => DataSpec::Struct,
            Data::Union => DataSpec::Union,
        }
    }
}

/// A type declaration with its attributes.
#[derive(Clone, Debug, PartialEq, Eq)]
pub struct Declaration {
    pub name: String,
    pub attrs: Vec<Attribute>,
    pub data: Data,
}

/// A declaration as a mathematical value.
pub struct DeclarationSpec {
    pub name: Seq<char>,
    pub attrs: Seq<AttributeSpec>,
    pub data: DataSpec,
}

impl DeepView for Declaration {
    type V = DeclarationSpec;

    open spec fn deep_view(&self) -> DeclarationSpec {
        DeclarationSpec {
            name: self.name@,
            attrs: self.attrs.deep_view(),
            data: self.data.deep_view(),
        }
    }
}

/// The first attribute named `argcall`, if there is one.
pub open spec fn first_directive(attrs: Seq<AttributeSpec>) -> Option<AttributeSpec>
    decreases attrs.len(),
{
    if attrs.len() == 0 {
        None
    } else if attrs[0].path == "argcall"@ {
        Some(attrs[0])
    } else {
        first_directive(attrs.skip(1))
    }
}

/// Finds the first attribute named `argcall`.
pub fn find_directive(attrs: &Vec<Attribute>) -> (r: Option<&Attribute>)
    ensures
        r.deep_view() == first_directive(attrs.deep_view()),
{
    let mut i: usize = 0;
    assert(attrs.deep_view().skip(0) =~= attrs.deep_view());
    while i < attrs.len()
        invariant
            i <= attrs.len(),
            first_directive(attrs.deep_view()) == first_directive(attrs.deep_view().skip(i as int)),
        decreases attrs.len() - i,
    {
        let ghost rest = attrs.deep_view().skip(i as int);
        assert(rest[0] == attrs[i as int].deep_view());
        if text_is(attrs[i].path.as_str(), "argcall") {
            return Some(&attrs[i]);
        }
        assert(rest.skip(1) =~= attrs.deep_view().skip(i + 1));
        i += 1;
    }
    None
}

} // verus!
