use crate::decl::Attribute;
use crate::ident::{ascii_ident, ascii_only, is_valid_ident, valid_ident};
use crate::outside::{
    decode_string_literal, parses_as_expression, parses_as_type, reads_as_expression,
    reads_as_type, string_literal_value,
};
use crate::token::{
    copy_names, render_tokens, text_is, tokens_from, tokens_text, Token, TokenKind, TokenSpec,
};
use vstd::prelude::*;

verus! {

/// In what way a directive is malformed.
#[derive(Clone, Copy, Debug, PartialEq, Eq, Structural)]
pub enum Flaw {
    /// The attribute has no delimited arguments.
    NoArguments,
    /// A key was expected: one identifier, not a longer path.
    ExpectedKey,
    /// `=` was expected behind the key.
    ExpectedEquals,
    /// The value of `output` is no type.
    ExpectedType,
    /// The value of `fn` is no expression.
    ExpectedExpression,
    /// A string literal was expected as the value.
    ExpectedStringLiteral,
    /// The quoted name is no identifier.
    InvalidName,
    /// `,` was expected behind the value.
    ExpectedComma,
}

/// Why a directive could not be read.
#[derive(Clone, Debug, PartialEq, Eq)]
pub enum DirectiveError {
    /// The arguments are empty: the directive names no key.
    Missing,
    /// The key is not one that this directive knows.
    UnrecognizedKey(String),
    /// The directive does not have the shape `key = value`.
    Malformed(Flaw),
}

/// A directive's failure as a mathematical value.
pub enum DirectiveErrorSpec {
    Missing,
    UnrecognizedKey(Seq<char>),
    Malformed(Flaw),
}

impl DeepView for DirectiveError {
    type V = DirectiveErrorSpec;

    open spec fn deep_view(&self) -> DirectiveErrorSpec {
        match self {
            DirectiveError::Missing => DirectiveErrorSpec::Missing,
            DirectiveError::UnrecognizedKey(key) => DirectiveErrorSpec::UnrecognizedKey(key@),
            DirectiveError::Malformed(flaw) => DirectiveErrorSpec::Malformed(*flaw),
        }
    }
}

/// The expression that a case is bound to.
#[derive(Clone, Debug, PartialEq, Eq)]
pub enum Bound {
    /// An expression, token by token as it was written.
    Expr(Vec<Token>),
    /// A call of `name` with `args` as its positional arguments.
    Call { name: String, args: Vec<String> },
}

/// A bound expression as a mathematical value.
pub enum BoundSpec {
    Expr(Seq<TokenSpec>),
    Call { name: Seq<char>, args: Seq<Seq<char>> },
}

impl DeepView for Bound {
    type V = BoundSpec;

    open spec fn deep_view(&self) -> BoundSpec {
        match self {
            Bound::Expr(tokens) => BoundSpec::Expr(tokens.deep_view()),
            Bound::Call { name, args } => BoundSpec::Call {
                name: name@,
                args: args.deep_view(),
            },
        }
    }
}

/// The model of a result: the model of what it holds.
pub open spec fn result_view<T: DeepView, E: DeepView>(r: Result<T, E>) -> Result<T::V, E::V> {
    match r {
        Ok(t) => Ok(t.deep_view()),
        Err(e) => Err(e.deep_view()),
    }
}

/// Whether `::` stands at position `pos`.
pub open spec fn path_separator_at(ts: Seq<TokenSpec>, pos: int) -> bool {
    &&& 0 <= pos
    &&& pos + 1 < ts.len()
    &&& ts[pos].is_punct(':')
    &&& ts[pos].joint
    &&& ts[pos + 1].is_punct(':')
}

/// The key at position `pos`: an identifier that `::` does not continue into a path.
pub open spec fn key_at(ts: Seq<TokenSpec>, pos: int) -> Option<Seq<char>> {
    if 0 <= pos < ts.len() && ts[pos].kind == TokenKind::Ident && !path_separator_at(ts, pos + 1) {
        Some(ts[pos].text)
    } else {
        None
    }
}

/// Whether `=` stands at position `pos`.
pub open spec fn equals_at(ts: Seq<TokenSpec>, pos: int) -> bool {
    0 <= pos < ts.len() && ts[pos].is_punct('=')
}

/// The value of the string literal at position `pos`, if one stands there.
pub open spec fn literal_at(ts: Seq<TokenSpec>, pos: int) -> Option<Seq<char>> {
    if 0 <= pos < ts.len() && ts[pos].kind == TokenKind::Literal {
        string_literal_value(ts[pos].text)
    } else {
        None
    }
}

/// The result type that `output =` names with the tokens `value` behind it, where
/// `is_type` says whether they read as one type.
pub open spec fn output_value(value: Seq<TokenSpec>, is_type: bool) -> Result<
    Seq<TokenSpec>,
    DirectiveErrorSpec,
> {
    if is_type {
        Ok(value)
    } else {
        Err(DirectiveErrorSpec::Malformed(Flaw::ExpectedType))
    }
}

/// The binding that `fn =` makes with the tokens `value` behind it, where
/// `is_expression` says whether they read as one expression.
pub open spec fn expression_binding(value: Seq<TokenSpec>, is_expression: bool) -> Result<
    BoundSpec,
    DirectiveErrorSpec,
> {
    if is_expression {
        Ok(BoundSpec::Expr(value))
    } else {
        Err(DirectiveErrorSpec::Malformed(Flaw::ExpectedExpression))
    }
}

/// What a declaration's directive says with arguments `args`: the tokens of the result
/// type, which are all that follows `output =` and must read as one type.
pub open spec fn output_directive(args: Option<Seq<TokenSpec>>) -> Result<
    Seq<TokenSpec>,
    DirectiveErrorSpec,
> {
    match args {
        None => Err(DirectiveErrorSpec::Malformed(Flaw::NoArguments)),
        Some(ts) => if ts.len() == 0 {
            Err(DirectiveErrorSpec::Missing)
        } else {
            match key_at(ts, 0) {
                None => Err(DirectiveErrorSpec::Malformed(Flaw::ExpectedKey)),
                Some(key) => if key != "output"@ {
                    Err(DirectiveErrorSpec::UnrecognizedKey(key))
                } else if !equals_at(ts, 1) {
                    Err(DirectiveErrorSpec::Malformed(Flaw::ExpectedEquals))
                } else {
                    output_value(ts.skip(2), reads_as_type(tokens_text(ts.skip(2))))
                },
            }
        },
    }
}

/// The call that `fn_path` binds a case to, from the value of its string literal:
/// the name applied to the case's fields in the order of their declaration.
pub open spec fn name_binding(name: Option<Seq<char>>, fields: Seq<Seq<char>>) -> Result<
    BoundSpec,
    DirectiveErrorSpec,
> {
    match name {
        None => Err(DirectiveErrorSpec::Malformed(Flaw::ExpectedStringLiteral)),
        Some(name) => if valid_ident(name) {
            Ok(BoundSpec::Call { name, args: fields })
        } else {
            Err(DirectiveErrorSpec::Malformed(Flaw::InvalidName))
        },
    }
}

/// What the entries of a case's directive from position `pos` on bind the case to.
/// `fn = ..` takes all that follows, which must read as one expression;
/// `fn_path = ".."` may be followed by `,` and further entries, of which the last one
/// counts.
pub open spec fn fn_entries(ts: Seq<TokenSpec>, pos: int, fields: Seq<Seq<char>>) -> Result<
    BoundSpec,
    DirectiveErrorSpec,
>
    decreases ts.len() - pos,
{
    match key_at(ts, pos) {
        None => Err(DirectiveErrorSpec::Malformed(Flaw::ExpectedKey)),
        Some(key) => if key == "fn"@ {
            if equals_at(ts, pos + 1) {
                expression_binding(
                    ts.skip(pos + 2),
                    reads_as_expression(tokens_text(ts.skip(pos + 2))),
                )
            } else {
                Err(DirectiveErrorSpec::Malformed(Flaw::ExpectedEquals))
            }
        } else if key == "fn_path"@ {
            if !equals_at(ts, pos + 1) {
                Err(DirectiveErrorSpec::Malformed(Flaw::ExpectedEquals))
            } else {
                match name_binding(literal_at(ts, pos + 2), fields) {
                    Err(e) => Err(e),
                    Ok(bound) => if pos + 3 >= ts.len() {
                        Ok(bound)
                    } else if !ts[pos + 3].is_punct(',') {
                        Err(DirectiveErrorSpec::Malformed(Flaw::ExpectedComma))
                    } else if pos + 4 >= ts.len() {
                        Ok(bound)
                    } else {
                        fn_entries(ts, pos + 4, fields)
                    },
                }
            }
        } else {
            Err(DirectiveErrorSpec::UnrecognizedKey(key))
        },
    }
}

/// What a case's directive with arguments `args` binds the case to.
pub open spec fn fn_directive(args: Option<Seq<TokenSpec>>, fields: Seq<Seq<char>>) -> Result<
    BoundSpec,
    DirectiveErrorSpec,
> {
    match args {
        None => Err(DirectiveErrorSpec::Malformed(Flaw::NoArguments)),
        Some(ts) => if ts.len() == 0 {
            Err(DirectiveErrorSpec::Missing)
        } else {
            fn_entries(ts, 0, fields)
        },
    }
}

/// Reads the key at `pos`.
fn read_key(tokens: &Vec<Token>, pos: usize) -> (r: Option<&String>)
    requires
        pos < tokens.len(),
    ensures
        r.deep_view() == key_at(tokens.deep_view(), pos as int),
{
    let t = &tokens[pos];
    let ghost ts = tokens.deep_view();
    assert(ts[pos as int] == t.deep_view());
    match t.kind {
        TokenKind::Ident => {
            if pos + 1 < tokens.len() && pos + 2 < tokens.len() {
                let a = &tokens[pos + 1];
                let b = &tokens[pos + 2];
                assert(ts[pos + 1] == a.deep_view());
                assert(ts[pos + 2] == b.deep_view());
                if a.is_punct(':') && a.joint && b.is_punct(':') {
                    return None;
                }
            }
            Some(&t.text)
        },
        _ => None,
    }
}

/// Whether `=` stands at `pos`.
fn read_equals(tokens: &Vec<Token>, pos: usize) -> (r: bool)
    ensures
        r == equals_at(tokens.deep_view(), pos as int),
{
    if pos < tokens.len() {
        assert(tokens.deep_view()[pos as int] == tokens[pos as int].deep_view());
        tokens[pos].is_punct('=')
    } else {
        false
    }
}

/// Takes the tokens behind `output =` as the result type, where `is_type` says that
/// they read as one type.
pub fn accept_output(value: Vec<Token>, is_type: bool) -> (r: Result<Vec<Token>, DirectiveError>)
    ensures
        result_view(r) == output_value(value.deep_view(), is_type),
{
    if is_type {
        Ok(value)
    } else {
        Err(DirectiveError::Malformed(Flaw::ExpectedType))
    }
}

/// Binds a case to the tokens behind `fn =`, where `is_expression` says that they
/// read as one expression.
pub fn bind_expression(value: Vec<Token>, is_expression: bool) -> (r: Result<
    Bound,
    DirectiveError,
>)
    ensures
        result_view(r) == expression_binding(value.deep_view(), is_expression),
{
    if is_expression {
        Ok(Bound::Expr(value))
    } else {
        Err(DirectiveError::Malformed(Flaw::ExpectedExpression))
    }
}

/// Reads a declaration's directive: `output = <type>`.
pub fn parse_output_attribute(attr: &Attribute) -> (r: Result<Vec<Token>, DirectiveError>)
    ensures
        result_view(r) == output_directive(attr.deep_view().args),
{
    match &attr.args {
        None => Err(DirectiveError::Malformed(Flaw::NoArguments)),
        Some(tokens) => {
            if tokens.len() == 0 {
                return Err(DirectiveError::Missing);
            }
            match read_key(tokens, 0) {
                None => Err(DirectiveError::Malformed(Flaw::ExpectedKey)),
                Some(key) => {
                    if !text_is(key.as_str(), "output") {
                        Err(DirectiveError::UnrecognizedKey(key.clone()))
                    } else if !read_equals(tokens, 1) {
                        Err(DirectiveError::Malformed(Flaw::ExpectedEquals))
                    } else {
                        let value = tokens_from(tokens, 2);
                        let text = render_tokens(&value);
                        accept_output(value, parses_as_type(text.as_str()))
                    }
                },
            }
        },
    }
}

/// Binds a case by name: `name` is the value of the string literal behind `fn_path =`,
/// or `None` where no string literal stands there.
pub fn bind_name(name: Option<String>, fields: &Vec<String>) -> (r: Result<
    Bound,
    DirectiveError,
>)
    ensures
        result_view(r) == name_binding(name.deep_view(), fields.deep_view()),
        name matches Some(n) ==> (ascii_only(n@) ==> (r is Ok <==> ascii_ident(n@))),
{
    match name {
        None => Err(DirectiveError::Malformed(Flaw::ExpectedStringLiteral)),
        Some(name) => {
            if is_valid_ident(name.as_str()) {
                Ok(Bound::Call { name, args: copy_names(fields) })
            } else {
                Err(DirectiveError::Malformed(Flaw::InvalidName))
            }
        },
    }
}

/// Reads the string literal at `pos`.
fn read_literal(tokens: &Vec<Token>, pos: usize) -> (r: Option<String>)
    ensures
        r.deep_view() == literal_at(tokens.deep_view(), pos as int),
{
    if pos < tokens.len() {
        let t = &tokens[pos];
        assert(tokens.deep_view()[pos as int] == t.deep_view());
        match t.kind {
            TokenKind::Literal => decode_string_literal(t.text.as_str()),
            _ => None,
        }
    } else {
        None
    }
}

/// Reads a case's directive: `fn = <expression>` or `fn_path = "<name>"`. A name is
/// applied to `fields`, the names of the case's fields.
pub fn parse_fn_attribute(attr: &Attribute, fields: &Vec<String>) -> (r: Result<
    Bound,
    DirectiveError,
>)
    ensures
        result_view(r) == fn_directive(attr.deep_view().args, fields.deep_view()),
{
    let tokens = match &attr.args {
        None => {
            return Err(DirectiveError::Malformed(Flaw::NoArguments));
        },
        Some(tokens) => tokens,
    };
    if tokens.len() == 0 {
        return Err(DirectiveError::Missing);
    }
    let ghost ts = tokens.deep_view();
    let mut pos: usize = 0;
    loop
        invariant
            pos < tokens.len(),
            ts == tokens.deep_view(),
            fn_directive(attr.deep_view().args, fields.deep_view()) == fn_entries(
                ts,
                pos as int,
                fields.deep_view(),
            ),
        decreases tokens.len() - pos,
    {
        let key = match read_key(tokens, pos) {
            None => {
                return Err(DirectiveError::Malformed(Flaw::ExpectedKey));
            },
            Some(key) => key,
        };
        if text_is(key.as_str(), "fn") {
            if !read_equals(tokens, pos + 1) {
                return Err(DirectiveError::Malformed(Flaw::ExpectedEquals));
            }
            let value = tokens_from(tokens, pos + 2);
            let text = render_tokens(&value);
            return bind_expression(value, parses_as_expression(text.as_str()));
        }
        if !text_is(key.as_str(), "fn_path") {
            return Err(DirectiveError::UnrecognizedKey(key.clone()));
        }
        if !read_equals(tokens, pos + 1) {
            return Err(DirectiveError::Malformed(Flaw::ExpectedEquals));
        }
        let bound = match bind_name(read_literal(tokens, pos + 2), fields) {
            Err(e) => {
                return Err(e);
            },
            Ok(bound) => bound,
        };
        if pos + 3 >= tokens.len() {
            return Ok(bound);
        }
        assert(ts[pos + 3] == tokens[pos + 3].deep_view());
        if !tokens[pos + 3].is_punct(',') {
            return Err(DirectiveError::Malformed(Flaw::ExpectedComma));
        }
        if pos + 4 >= tokens.len() {
            return Ok(bound);
        }
        pos += 4;
    }
}

} // verus!
