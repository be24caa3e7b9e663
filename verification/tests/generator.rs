use argcall::decl::{find_directive, Attribute, Case, Data, Declaration, Fields};
use argcall::directive::{
    accept_output, bind_expression, bind_name, parse_fn_attribute, parse_output_attribute, Bound,
    DirectiveError, Flaw,
};
use argcall::expand::{
    callable_derive, callable_mut_derive, callable_once_derive, copy_bound, generic_callable,
    parse_variant, Arm, ArmBody, CallableType, Expansion, GenError, Marker,
};
use argcall::ident::is_valid_ident;
use argcall::render::{
    join_names, render_arm, render_body, render_bound, render_fields, render_marker,
};
use argcall::token::{copy_names, render_tokens, text_is, tokens_from, Token, TokenKind};
use argcall::Callable;
use proc_macro2::{Spacing, TokenStream, TokenTree};

fn tokens_of(stream: TokenStream) -> Vec<Token> {
    stream
        .into_iter()
        .map(|tree| match tree {
            TokenTree::Ident(ident) => Token::new(TokenKind::Ident, &ident.to_string(), false),
            TokenTree::Punct(punct) => Token::new(
                TokenKind::Punct,
                &punct.as_char().to_string(),
                punct.spacing() == Spacing::Joint,
            ),
            TokenTree::Literal(literal) => {
                Token::new(TokenKind::Literal, &literal.to_string(), false)
            }
            TokenTree::Group(group) => Token::new(TokenKind::Group, &group.to_string(), false),
        })
        .collect()
}

fn lex(source: &str) -> Vec<Token> {
    tokens_of(source.parse::<TokenStream>().unwrap())
}

fn directive(source: &str) -> Attribute {
    Attribute {
        path: String::from("argcall"),
        args: Some(lex(source)),
    }
}

fn attribute_of(attr: &syn::Attribute) -> Attribute {
    let path = attr
        .path()
        .segments
        .iter()
        .map(|segment| segment.ident.to_string())
        .collect::<Vec<String>>()
        .join("::");
    let args = match &attr.meta {
        syn::Meta::List(list) => Some(tokens_of(list.tokens.clone())),
        _ => None,
    };
    Attribute { path, args }
}

fn declaration(source: &str) -> Declaration {
    let input: syn::DeriveInput = syn::parse_str(source).unwrap();
    let data = match &input.data {
        syn::Data::Enum(data) => Data::Enum(
            data.variants
                .iter()
                .map(|variant| Case {
                    name: variant.ident.to_string(),
                    attrs: variant.attrs.iter().map(attribute_of).collect(),
                    fields: match &variant.fields {
                        syn::Fields::Unit => Fields::Unit,
                        syn::Fields::Unnamed(_) => Fields::Unnamed,
                        syn::Fields::Named(fields) => Fields::Named(
                            fields
                                .named
                                .iter()
                                .map(|field| field.ident.clone().unwrap().to_string())
                                .collect(),
                        ),
                    },
                })
                .collect(),
        ),
        syn::Data::Struct(_) => Data::Struct,
        syn::Data::Union(_) => Data::Union,
    };
    Declaration {
        name: input.ident.to_string(),
        attrs: input.attrs.iter().map(attribute_of).collect(),
        data,
    }
}

fn case(source: &str) -> Case {
    let wrapped = format!("enum Holder {{ {} }}", source);
    match declaration(&wrapped).data {
        Data::Enum(mut cases) => cases.remove(0),
        _ => unreachable!(),
    }
}

fn names(list: &[&str]) -> Vec<String> {
    list.iter().map(|name| String::from(*name)).collect()
}

fn same_tokens(left: &str, right: &str) -> bool {
    let left = left.parse::<TokenStream>().unwrap().to_string();
    let right = right.parse::<TokenStream>().unwrap().to_string();
    left == right
}

fn malformed(owner: &str, flaw: Flaw) -> GenError {
    GenError::Malformed {
        owner: String::from(owner),
        flaw,
    }
}

const EVENTS: &str = r#"
    #[derive(Debug)]
    #[argcall(output = i32)]
    enum Event {
        #[argcall(fn = start())]
        Start,
        #[argcall(fn = stop())]
        Stop,
        #[argcall(fn_path = "tick")]
        Tick { count: i32 },
    }
"#;

// ---- tokens ----

#[test]
fn tokens_are_written_with_one_space_between() {
    assert_eq!(render_tokens(&lex("start ( )")), "start ()");
    assert_eq!(render_tokens(&lex("a + b")), "a + b");
    assert_eq!(render_tokens(&lex("")), "");
    assert_eq!(render_tokens(&lex("x")), "x");
}

#[test]
fn joined_punctuation_is_written_without_a_space() {
    assert_eq!(render_tokens(&lex("std::mem::take(x)")), "std :: mem :: take (x)");
    assert_eq!(render_tokens(&lex("a->b")), "a -> b");
    assert_eq!(render_tokens(&lex("&'a str")), "&'a str");
}

#[test]
fn a_joint_flag_on_an_identifier_is_ignored() {
    let tokens = vec![
        Token::new(TokenKind::Ident, "a", true),
        Token::new(TokenKind::Ident, "b", false),
    ];
    assert_eq!(render_tokens(&tokens), "a b");
}

#[test]
fn written_tokens_read_back_as_the_same_tokens() {
    let source = "Vec::<Option<&'static str>>::with_capacity(1 << 4) >= other->field";
    assert!(same_tokens(&render_tokens(&lex(source)), source));
}

#[test]
fn tokens_from_copies_the_tail() {
    let tokens = lex("a = b c");
    assert_eq!(tokens_from(&tokens, 2), lex("b c"));
    assert_eq!(tokens_from(&tokens, 0), tokens);
    assert_eq!(tokens_from(&tokens, 4), Vec::<Token>::new());
}

#[test]
fn token_new_and_duplicate_keep_the_parts() {
    let token = Token::new(TokenKind::Punct, ":", true);
    assert_eq!(token.kind, TokenKind::Punct);
    assert_eq!(token.text, ":");
    assert!(token.joint);
    assert_eq!(token.duplicate(), token);
    assert!(token.is_punct(':'));
    assert!(!token.is_punct('='));
    assert!(!Token::new(TokenKind::Ident, "=", false).is_punct('='));
    assert!(!Token::new(TokenKind::Punct, "==", false).is_punct('='));
}

#[test]
fn text_is_compares_whole_strings() {
    assert!(text_is("argcall", "argcall"));
    assert!(!text_is("argcall", "argcal"));
    assert!(!text_is("", "argcall"));
    assert!(text_is("", ""));
}

#[test]
fn copy_names_copies_in_order() {
    assert_eq!(copy_names(&names(&["b", "a"])), names(&["b", "a"]));
    assert_eq!(copy_names(&names(&[])), names(&[]));
}

// ---- identifiers ----

#[test]
fn identifiers_are_recognised() {
    assert!(is_valid_ident("tick"));
    assert!(is_valid_ident("_"));
    assert!(is_valid_ident("_tick2"));
    assert!(is_valid_ident("Tick_9"));
    assert!(is_valid_ident("fn"));
    assert!(is_valid_ident("gr\u{f6}\u{df}e"));
}

#[test]
fn other_strings_are_no_identifiers() {
    assert!(!is_valid_ident(""));
    assert!(!is_valid_ident("9"));
    assert!(!is_valid_ident("9lives"));
    assert!(!is_valid_ident("a-b"));
    assert!(!is_valid_ident("a b"));
    assert!(!is_valid_ident(" a"));
    assert!(!is_valid_ident("a::b"));
    assert!(!is_valid_ident("r#type"));
    assert!(!is_valid_ident("tick()"));
    assert!(!is_valid_ident("\u{2603}"));
}

// ---- the declaration's directive ----

#[test]
fn output_directive_gives_the_type() {
    assert_eq!(parse_output_attribute(&directive("output = i32")), Ok(lex("i32")));
    assert_eq!(
        parse_output_attribute(&directive("output = Result<Vec<u8>, std::io::Error>")),
        Ok(lex("Result<Vec<u8>, std::io::Error>"))
    );
}

#[test]
fn output_directive_accepts_the_types_of_the_language() {
    for source in [
        "()",
        "&'static str",
        "[u8; 4]",
        "Option<Box<dyn Fn(i32) -> i32>>",
        "(i32, String)",
        "<T as Iterator>::Item",
    ] {
        let attr = directive(&format!("output = {}", source));
        assert_eq!(parse_output_attribute(&attr), Ok(lex(source)));
    }
}

#[test]
fn output_directive_needs_one_type() {
    let flaw = Err(DirectiveError::Malformed(Flaw::ExpectedType));
    assert_eq!(parse_output_attribute(&directive("output = 1 +")), flaw);
    assert_eq!(parse_output_attribute(&directive("output =")), flaw);
    assert_eq!(parse_output_attribute(&directive("output = i32, bogus = 1")), flaw);
    assert_eq!(parse_output_attribute(&directive("output = i32, output = u8")), flaw);
    assert_eq!(parse_output_attribute(&directive("output = i32,")), flaw);
    assert_eq!(parse_output_attribute(&directive("output == i32")), flaw);
    assert_eq!(parse_output_attribute(&directive("output = i32 u8")), flaw);
    assert_eq!(parse_output_attribute(&directive("output = \"i32\"")), flaw);
    assert_eq!(parse_output_attribute(&directive("output = start()")), flaw);
}

#[test]
fn accept_output_decides_on_the_answer_of_the_type_parser() {
    assert_eq!(accept_output(lex("i32"), true), Ok(lex("i32")));
    assert_eq!(
        accept_output(lex("i32"), false),
        Err(DirectiveError::Malformed(Flaw::ExpectedType))
    );
    assert_eq!(accept_output(lex("1 +"), true), Ok(lex("1 +")));
}

#[test]
fn empty_output_directive_is_missing() {
    assert_eq!(parse_output_attribute(&directive("")), Err(DirectiveError::Missing));
}

#[test]
fn output_directive_rejects_other_keys() {
    assert_eq!(
        parse_output_attribute(&directive("fn = start()")),
        Err(DirectiveError::UnrecognizedKey(String::from("fn")))
    );
    assert_eq!(
        parse_output_attribute(&directive("result = i32")),
        Err(DirectiveError::UnrecognizedKey(String::from("result")))
    );
    assert_eq!(
        parse_output_attribute(&directive("r#output = i32")),
        Err(DirectiveError::UnrecognizedKey(String::from("r#output")))
    );
    assert_eq!(
        parse_output_attribute(&directive("outputs")),
        Err(DirectiveError::UnrecognizedKey(String::from("outputs")))
    );
}

#[test]
fn output_directive_needs_a_key_and_an_equals_sign() {
    let key = Err(DirectiveError::Malformed(Flaw::ExpectedKey));
    assert_eq!(parse_output_attribute(&directive("= i32")), key);
    assert_eq!(parse_output_attribute(&directive("\"output\" = i32")), key);
    assert_eq!(parse_output_attribute(&directive("::output = i32")), key);
    assert_eq!(parse_output_attribute(&directive("output::kind = i32")), key);
    assert_eq!(parse_output_attribute(&directive("(output) = i32")), key);
    let equals = Err(DirectiveError::Malformed(Flaw::ExpectedEquals));
    assert_eq!(parse_output_attribute(&directive("output")), equals);
    assert_eq!(parse_output_attribute(&directive("output i32")), equals);
    assert_eq!(parse_output_attribute(&directive("output(i32)")), equals);
    assert_eq!(parse_output_attribute(&directive("output: i32")), equals);
}

#[test]
fn attribute_without_arguments_is_malformed() {
    let bare = Attribute {
        path: String::from("argcall"),
        args: None,
    };
    let flaw = DirectiveError::Malformed(Flaw::NoArguments);
    assert_eq!(parse_output_attribute(&bare), Err(flaw.clone()));
    assert_eq!(parse_fn_attribute(&bare, &names(&[])), Err(flaw));
}

// ---- a case's directive ----

#[test]
fn fn_directive_keeps_the_expression() {
    assert_eq!(
        parse_fn_attribute(&directive("fn = start()"), &names(&[])),
        Ok(Bound::Expr(lex("start()")))
    );
    assert_eq!(
        parse_fn_attribute(&directive("fn = tick(*count) + 1"), &names(&["count"])),
        Ok(Bound::Expr(lex("tick(*count) + 1")))
    );
    for source in [
        "42",
        "crate::events::start()",
        "{ let n = count; n * 2 }",
        "if *count > 0 { 1 } else { 0 }",
        "|| 7",
        "self.total()",
    ] {
        assert_eq!(
            parse_fn_attribute(&directive(&format!("fn = {}", source)), &names(&[])),
            Ok(Bound::Expr(lex(source)))
        );
    }
}

#[test]
fn fn_directive_needs_one_expression() {
    let flaw = Err(DirectiveError::Malformed(Flaw::ExpectedExpression));
    for source in [
        "fn =",
        "fn = a(), fn_path = \"b\"",
        "fn = a(),",
        "fn = a() b()",
        "fn = 1 +",
        "fn = a();",
        "fn = struct",
    ] {
        assert_eq!(parse_fn_attribute(&directive(source), &names(&[])), flaw);
    }
    let unbalanced = Attribute {
        path: String::from("argcall"),
        args: Some(vec![
            Token::new(TokenKind::Ident, "fn", false),
            Token::new(TokenKind::Punct, "=", false),
            Token::new(TokenKind::Punct, ")", false),
        ]),
    };
    assert_eq!(parse_fn_attribute(&unbalanced, &names(&[])), flaw);
}

#[test]
fn bind_expression_decides_on_the_answer_of_the_expression_parser() {
    assert_eq!(bind_expression(lex("start()"), true), Ok(Bound::Expr(lex("start()"))));
    assert_eq!(
        bind_expression(lex("start()"), false),
        Err(DirectiveError::Malformed(Flaw::ExpectedExpression))
    );
}

#[test]
fn fn_path_directive_applies_the_name_to_the_fields() {
    assert_eq!(
        parse_fn_attribute(&directive("fn_path = \"start\""), &names(&[])),
        Ok(Bound::Call {
            name: String::from("start"),
            args: names(&[]),
        })
    );
    assert_eq!(
        parse_fn_attribute(&directive("fn_path = \"area\""), &names(&["width", "height"])),
        Ok(Bound::Call {
            name: String::from("area"),
            args: names(&["width", "height"]),
        })
    );
}

#[test]
fn fn_path_directive_reads_the_literal_as_the_language_does() {
    let tick = Ok(Bound::Call {
        name: String::from("tick"),
        args: names(&[]),
    });
    assert_eq!(parse_fn_attribute(&directive("fn_path = \"ti\\u{63}k\""), &names(&[])), tick);
    assert_eq!(parse_fn_attribute(&directive("fn_path = \"\\x74ick\""), &names(&[])), tick);
    assert_eq!(parse_fn_attribute(&directive("fn_path = r\"tick\""), &names(&[])), tick);
    assert_eq!(parse_fn_attribute(&directive("fn_path = r#\"tick\"#"), &names(&[])), tick);
}

#[test]
fn fn_path_directive_needs_a_string_literal() {
    let flaw = Err(DirectiveError::Malformed(Flaw::ExpectedStringLiteral));
    assert_eq!(parse_fn_attribute(&directive("fn_path = tick"), &names(&[])), flaw);
    assert_eq!(parse_fn_attribute(&directive("fn_path = 1"), &names(&[])), flaw);
    assert_eq!(parse_fn_attribute(&directive("fn_path = b\"tick\""), &names(&[])), flaw);
    assert_eq!(parse_fn_attribute(&directive("fn_path = 't'"), &names(&[])), flaw);
    assert_eq!(parse_fn_attribute(&directive("fn_path = (\"tick\")"), &names(&[])), flaw);
    assert_eq!(parse_fn_attribute(&directive("fn_path ="), &names(&[])), flaw);
}

#[test]
fn fn_path_directive_needs_an_identifier() {
    let flaw = Err(DirectiveError::Malformed(Flaw::InvalidName));
    assert_eq!(parse_fn_attribute(&directive("fn_path = \"\""), &names(&[])), flaw);
    assert_eq!(parse_fn_attribute(&directive("fn_path = \"my::tick\""), &names(&[])), flaw);
    assert_eq!(parse_fn_attribute(&directive("fn_path = \"tick()\""), &names(&[])), flaw);
    assert_eq!(parse_fn_attribute(&directive("fn_path = \"2tick\""), &names(&[])), flaw);
    assert_eq!(
        parse_fn_attribute(&directive("fn_path = \"1\", fn_path = \"tick\""), &names(&[])),
        flaw
    );
}

#[test]
fn of_several_fn_path_entries_the_last_counts() {
    assert_eq!(
        parse_fn_attribute(&directive("fn_path = \"a\", fn_path = \"b\""), &names(&["x"])),
        Ok(Bound::Call {
            name: String::from("b"),
            args: names(&["x"]),
        })
    );
    assert_eq!(
        parse_fn_attribute(&directive("fn_path = \"a\", fn = b(x)"), &names(&["x"])),
        Ok(Bound::Expr(lex("b(x)")))
    );
    assert_eq!(
        parse_fn_attribute(&directive("fn_path = \"a\","), &names(&[])),
        Ok(Bound::Call {
            name: String::from("a"),
            args: names(&[]),
        })
    );
}

#[test]
fn entries_are_separated_by_commas() {
    let flaw = Err(DirectiveError::Malformed(Flaw::ExpectedComma));
    assert_eq!(parse_fn_attribute(&directive("fn_path = \"a\" fn = b()"), &names(&[])), flaw);
    assert_eq!(parse_fn_attribute(&directive("fn_path = \"a\";"), &names(&[])), flaw);
    assert_eq!(
        parse_fn_attribute(&directive("fn_path = \"a\",,"), &names(&[])),
        Err(DirectiveError::Malformed(Flaw::ExpectedKey))
    );
}

#[test]
fn fn_directive_rejects_other_keys() {
    assert_eq!(
        parse_fn_attribute(&directive("output = i32"), &names(&[])),
        Err(DirectiveError::UnrecognizedKey(String::from("output")))
    );
    assert_eq!(
        parse_fn_attribute(&directive("fn_path = \"a\", path = \"b\""), &names(&[])),
        Err(DirectiveError::UnrecognizedKey(String::from("path")))
    );
    assert_eq!(
        parse_fn_attribute(&directive("r#fn = a()"), &names(&[])),
        Err(DirectiveError::UnrecognizedKey(String::from("r#fn")))
    );
}

#[test]
fn fn_directive_needs_a_key_and_an_equals_sign() {
    assert_eq!(
        parse_fn_attribute(&directive(""), &names(&[])),
        Err(DirectiveError::Missing)
    );
    assert_eq!(
        parse_fn_attribute(&directive("fn start()"), &names(&[])),
        Err(DirectiveError::Malformed(Flaw::ExpectedEquals))
    );
    assert_eq!(
        parse_fn_attribute(&directive("fn_path(\"a\")"), &names(&[])),
        Err(DirectiveError::Malformed(Flaw::ExpectedEquals))
    );
    assert_eq!(
        parse_fn_attribute(&directive("fn::path = a()"), &names(&[])),
        Err(DirectiveError::Malformed(Flaw::ExpectedKey))
    );
    assert_eq!(
        parse_fn_attribute(&directive("\"fn\" = a()"), &names(&[])),
        Err(DirectiveError::Malformed(Flaw::ExpectedKey))
    );
}

#[test]
fn bind_name_decides_on_the_decoded_literal() {
    assert_eq!(
        bind_name(Some(String::from("tick")), &names(&["count"])),
        Ok(Bound::Call {
            name: String::from("tick"),
            args: names(&["count"]),
        })
    );
    assert_eq!(
        bind_name(Some(String::from("\"tick\"")), &names(&[])),
        Err(DirectiveError::Malformed(Flaw::InvalidName))
    );
    assert_eq!(
        bind_name(None, &names(&["count"])),
        Err(DirectiveError::Malformed(Flaw::ExpectedStringLiteral))
    );
}

#[test]
fn the_first_argcall_attribute_is_the_directive() {
    let event = declaration(EVENTS);
    assert_eq!(find_directive(&event.attrs), Some(&directive("output = i32")));
    let twice = declaration("#[argcall(output = u8)] #[argcall(output = i32)] enum E {}");
    assert_eq!(find_directive(&twice.attrs), Some(&directive("output = u8")));
    let none = declaration("#[derive(Debug)] #[my::argcall(output = u8)] enum E {}");
    assert_eq!(find_directive(&none.attrs), None);
}

// ---- one case ----

#[test]
fn case_without_data_gets_a_marker_and_an_arm() {
    let start = case("#[argcall(fn = start())] Start");
    let bound = Bound::Expr(lex("start()"));
    assert_eq!(
        parse_variant(CallableType::Callable, "Event", &start),
        Ok((
            Some(Marker {
                name: String::from("EventStartCallable"),
                body: bound.clone(),
            }),
            Arm {
                case: String::from("Start"),
                fields: Fields::Unit,
                body: ArmBody::Bound(bound),
            }
        ))
    );
}

#[test]
fn case_without_data_bound_by_name_calls_without_arguments() {
    let stop = case("#[argcall(fn_path = \"stop\")] Stop");
    let bound = Bound::Call {
        name: String::from("stop"),
        args: names(&[]),
    };
    assert_eq!(
        parse_variant(CallableType::CallableOnce, "Event", &stop),
        Ok((
            Some(Marker {
                name: String::from("EventStopCallable"),
                body: bound.clone(),
            }),
            Arm {
                case: String::from("Stop"),
                fields: Fields::Unit,
                body: ArmBody::Bound(bound),
            }
        ))
    );
}

#[test]
fn case_with_anonymous_field_forwards_and_reads_no_directive() {
    for callable_type in [
        CallableType::Callable,
        CallableType::CallableMut,
        CallableType::CallableOnce,
    ] {
        for source in [
            "Inner(Other)",
            "#[argcall(fn = ignored())] Inner(Other)",
            "#[argcall(bogus)] Inner(Other)",
            "#[argcall] Inner(Other)",
        ] {
            assert_eq!(
                parse_variant(callable_type, "Event", &case(source)),
                Ok((
                    None,
                    Arm {
                        case: String::from("Inner"),
                        fields: Fields::Unnamed,
                        body: ArmBody::Forward(callable_type),
                    }
                ))
            );
        }
    }
}

#[test]
fn case_with_named_fields_passes_them_in_declaration_order() {
    let area = case("#[argcall(fn_path = \"area\")] Rect { width: u32, height: u32 }");
    assert_eq!(
        parse_variant(CallableType::Callable, "Shape", &area),
        Ok((
            None,
            Arm {
                case: String::from("Rect"),
                fields: Fields::Named(names(&["width", "height"])),
                body: ArmBody::Bound(Bound::Call {
                    name: String::from("area"),
                    args: names(&["width", "height"]),
                }),
            }
        ))
    );
    let swapped = case("#[argcall(fn_path = \"area\")] Rect { height: u32, width: u32 }");
    assert_eq!(
        parse_variant(CallableType::Callable, "Shape", &swapped),
        Ok((
            None,
            Arm {
                case: String::from("Rect"),
                fields: Fields::Named(names(&["height", "width"])),
                body: ArmBody::Bound(Bound::Call {
                    name: String::from("area"),
                    args: names(&["height", "width"]),
                }),
            }
        ))
    );
}

#[test]
fn case_with_named_fields_keeps_a_direct_expression_verbatim() {
    let tick = case("#[argcall(fn = tick(*count, 2))] Tick { count: i32 }");
    assert_eq!(
        parse_variant(CallableType::CallableMut, "Event", &tick),
        Ok((
            None,
            Arm {
                case: String::from("Tick"),
                fields: Fields::Named(names(&["count"])),
                body: ArmBody::Bound(Bound::Expr(lex("tick(*count, 2)"))),
            }
        ))
    );
}

#[test]
fn case_without_directive_is_an_error_that_names_the_case() {
    let missing = GenError::MissingFn {
        case: String::from("Start"),
    };
    for source in [
        "Start",
        "#[doc = \"start\"] Start",
        "#[argcall()] Start",
        "Start {}",
        "#[argcall()] Start { at: u64 }",
    ] {
        assert_eq!(
            parse_variant(CallableType::Callable, "Event", &case(source)),
            Err(missing.clone())
        );
    }
}

#[test]
fn case_errors_name_the_case() {
    assert_eq!(
        parse_variant(CallableType::Callable, "Event", &case("#[argcall(func = a())] Start")),
        Err(GenError::UnrecognizedKey {
            owner: String::from("Start"),
            key: String::from("func"),
        })
    );
    assert_eq!(
        parse_variant(CallableType::Callable, "Event", &case("#[argcall] Start")),
        Err(malformed("Start", Flaw::NoArguments))
    );
    assert_eq!(
        parse_variant(CallableType::Callable, "Event", &case("#[argcall = \"a\"] Start")),
        Err(malformed("Start", Flaw::NoArguments))
    );
    assert_eq!(
        parse_variant(CallableType::Callable, "Event", &case("#[argcall(fn_path = a)] Stop {}")),
        Err(malformed("Stop", Flaw::ExpectedStringLiteral))
    );
    assert_eq!(
        parse_variant(CallableType::Callable, "Event", &case("#[argcall(fn_path = \"a b\")] Go")),
        Err(malformed("Go", Flaw::InvalidName))
    );
    assert_eq!(
        parse_variant(
            CallableType::Callable,
            "Event",
            &case("#[argcall(fn_path = \"a\" \"b\")] Go")
        ),
        Err(malformed("Go", Flaw::ExpectedComma))
    );
}

#[test]
fn only_the_first_argcall_attribute_of_a_case_counts() {
    let start = case("#[argcall(fn = first())] #[argcall(fn = second())] Start");
    let (_, arm) = parse_variant(CallableType::Callable, "Event", &start).unwrap();
    assert_eq!(arm.body, ArmBody::Bound(Bound::Expr(lex("first()"))));
    let broken = case("#[argcall(oops)] #[argcall(fn = second())] Start");
    assert_eq!(
        parse_variant(CallableType::Callable, "Event", &broken),
        Err(GenError::UnrecognizedKey {
            owner: String::from("Start"),
            key: String::from("oops"),
        })
    );
}

// ---- the whole declaration ----

#[test]
fn three_case_union_generates_the_reference_dispatcher() {
    let expansion = callable_derive(&declaration(EVENTS)).unwrap();
    let start = Bound::Expr(lex("start()"));
    let stop = Bound::Expr(lex("stop()"));
    let tick = Bound::Call {
        name: String::from("tick"),
        args: names(&["count"]),
    };
    assert_eq!(
        expansion,
        Expansion {
            callable_type: CallableType::Callable,
            enum_name: String::from("Event"),
            output: lex("i32"),
            markers: vec![
                Marker {
                    name: String::from("EventStartCallable"),
                    body: start.clone(),
                },
                Marker {
                    name: String::from("EventStopCallable"),
                    body: stop.clone(),
                },
            ],
            arms: vec![
                Arm {
                    case: String::from("Start"),
                    fields: Fields::Unit,
                    body: ArmBody::Bound(start),
                },
                Arm {
                    case: String::from("Stop"),
                    fields: Fields::Unit,
                    body: ArmBody::Bound(stop),
                },
                Arm {
                    case: String::from("Tick"),
                    fields: Fields::Named(names(&["count"])),
                    body: ArmBody::Bound(tick),
                },
            ],
        }
    );
}

#[test]
fn three_case_union_renders_to_this_text() {
    let text = callable_derive(&declaration(EVENTS)).unwrap().render();
    let expected = "\
#[derive(Clone, Debug)]
pub struct EventStartCallable;
impl argcall::Callable for EventStartCallable {
    type Output = i32;
    fn call_fn(&self, _: ()) -> i32 {
        start ()
    }
}
#[derive(Clone, Debug)]
pub struct EventStopCallable;
impl argcall::Callable for EventStopCallable {
    type Output = i32;
    fn call_fn(&self, _: ()) -> i32 {
        stop ()
    }
}
impl argcall::Callable for Event {
    type Output = i32;
    fn call_fn(&self, _: ()) -> i32 {
        match self {
            Event::Start => start (),
            Event::Stop => stop (),
            Event::Tick { count } => tick(count),
        }
    }
}
";
    assert_eq!(text, expected);
}

// The implementation that the text above spells out, written by hand.
fn start() -> i32 {
    10
}

fn stop() -> i32 {
    20
}

fn tick(count: &i32) -> i32 {
    *count + 1
}

enum Event {
    Start,
    Stop,
    Tick { count: i32 },
}

#[derive(Clone, Debug)]
pub struct EventStartCallable;

impl argcall::Callable for EventStartCallable {
    type Output = i32;
    fn call_fn(&self, _: ()) -> i32 {
        start()
    }
}

#[derive(Clone, Debug)]
pub struct EventStopCallable;

impl argcall::Callable for EventStopCallable {
    type Output = i32;
    fn call_fn(&self, _: ()) -> i32 {
        stop()
    }
}

impl argcall::Callable for Event {
    type Output = i32;
    fn call_fn(&self, _: ()) -> i32 {
        match self {
            Event::Start => start(),
            Event::Stop => stop(),
            Event::Tick { count } => tick(count),
        }
    }
}

enum Nested {
    Leaf,
    Inner(Event),
}

impl argcall::Callable for Nested {
    type Output = i32;
    fn call_fn(&self, _: ()) -> i32 {
        match self {
            Nested::Leaf => 0,
            Nested::Inner(value) => argcall::Callable::call_fn(value, ()),
        }
    }
}

#[test]
fn three_case_union_dispatches_to_the_bound_functions() {
    assert_eq!(Event::Start.call_fn(()), 10);
    assert_eq!(Event::Stop.call_fn(()), 20);
    assert_eq!(Event::Tick { count: 7 }.call_fn(()), 8);
    assert_eq!(EventStartCallable.call_fn(()), 10);
    assert_eq!(EventStopCallable.call_fn(()), 20);
}

#[test]
fn anonymous_field_dispatch_returns_the_inner_result() {
    assert_eq!(Nested::Leaf.call_fn(()), 0);
    let inner = Event::Tick { count: 41 };
    let direct = inner.call_fn(());
    assert_eq!(Nested::Inner(inner).call_fn(()), direct);
    assert_eq!(direct, 42);
}

#[test]
fn generated_text_is_the_hand_written_implementation() {
    let text = callable_derive(&declaration(EVENTS)).unwrap().render();
    let by_hand = r#"
        #[derive(Clone, Debug)]
        pub struct EventStartCallable;
        impl argcall::Callable for EventStartCallable {
            type Output = i32;
            fn call_fn(&self, _: ()) -> i32 { start() }
        }
        #[derive(Clone, Debug)]
        pub struct EventStopCallable;
        impl argcall::Callable for EventStopCallable {
            type Output = i32;
            fn call_fn(&self, _: ()) -> i32 { stop() }
        }
        impl argcall::Callable for Event {
            type Output = i32;
            fn call_fn(&self, _: ()) -> i32 {
                match self {
                    Event::Start => start(),
                    Event::Stop => stop(),
                    Event::Tick { count } => tick(count),
                }
            }
        }
    "#;
    assert!(same_tokens(&text, by_hand));
    assert!(syn::parse_file(&text).is_ok());
}

#[test]
fn nested_union_generates_a_forwarding_arm_between_other_arms() {
    let nested = declaration(
        "#[argcall(output = i32)] enum Nested {
            #[argcall(fn = zero())] Leaf,
            Inner(Event),
            #[argcall(fn_path = \"sum\")] Both { left: i32, right: i32 },
        }",
    );
    let by_hand = |trait_path: &str, method: &str, receiver: &str| {
        format!(
            "#[derive(Clone, Debug)]
            pub struct NestedLeafCallable;
            impl argcall::Callable for NestedLeafCallable {{
                type Output = i32;
                fn call_fn(&self, _: ()) -> i32 {{ zero() }}
            }}
            impl {trait_path} for Nested {{
                type Output = i32;
                fn {method}({receiver}, _: ()) -> i32 {{
                    match self {{
                        Nested::Leaf => zero(),
                        Nested::Inner(value) => {trait_path}::{method}(value, ()),
                        Nested::Both {{ left, right }} => sum(left, right),
                    }}
                }}
            }}"
        )
    };
    let text = callable_derive(&nested).unwrap().render();
    assert!(same_tokens(&text, &by_hand("argcall::Callable", "call_fn", "&self")));
    let text = callable_mut_derive(&nested).unwrap().render();
    assert!(same_tokens(&text, &by_hand("argcall::CallableMut", "call_fn_mut", "&mut self")));
    let text = callable_once_derive(&nested).unwrap().render();
    assert!(same_tokens(&text, &by_hand("argcall::CallableOnce", "call_fn_once", "self")));
}

#[test]
fn entry_points_differ_in_the_receiver_mode_only() {
    let event = declaration(EVENTS);
    let by_ref = callable_derive(&event).unwrap();
    let by_mut = callable_mut_derive(&event).unwrap();
    let once = callable_once_derive(&event).unwrap();
    assert_eq!(by_ref, generic_callable(CallableType::Callable, &event).unwrap());
    assert_eq!(by_mut, generic_callable(CallableType::CallableMut, &event).unwrap());
    assert_eq!(once, generic_callable(CallableType::CallableOnce, &event).unwrap());
    assert_eq!(by_mut.callable_type, CallableType::CallableMut);
    assert_eq!(once.callable_type, CallableType::CallableOnce);
    assert_eq!(
        by_mut,
        Expansion {
            callable_type: CallableType::CallableMut,
            ..by_ref.clone()
        }
    );
    assert_eq!(
        once,
        Expansion {
            callable_type: CallableType::CallableOnce,
            ..by_ref
        }
    );
}

#[test]
fn union_without_cases_generates_an_empty_match() {
    let never = declaration("#[argcall(output = ())] enum Never {}");
    let expansion = callable_derive(&never).unwrap();
    assert_eq!(expansion.markers, vec![]);
    assert_eq!(expansion.arms, vec![]);
    assert_eq!(
        expansion.render(),
        "impl argcall::Callable for Never {\n    type Output = ();\n    fn call_fn(&self, _: ()) -> () {\n        match self {\n        }\n    }\n}\n"
    );
}

#[test]
fn record_and_untagged_union_are_refused() {
    let record = declaration("#[argcall(output = i32)] struct Point { x: i32 }");
    let refused = Err(GenError::NotTaggedUnion {
        name: String::from("Point"),
    });
    assert_eq!(callable_derive(&record), refused);
    assert_eq!(callable_mut_derive(&record), refused);
    assert_eq!(callable_once_derive(&record), refused);
    let untagged = declaration("union Bits { a: u32, b: f32 }");
    assert_eq!(
        callable_derive(&untagged),
        Err(GenError::NotTaggedUnion {
            name: String::from("Bits"),
        })
    );
}

#[test]
fn missing_output_is_an_error_that_names_the_declaration() {
    let missing = Err(GenError::MissingOutput {
        name: String::from("Event"),
    });
    for source in [
        "enum Event { #[argcall(fn = start())] Start }",
        "#[derive(Debug)] enum Event { #[argcall(fn = start())] Start }",
        "#[argcall()] enum Event { #[argcall(fn = start())] Start }",
        "#[argcall()] #[argcall(output = i32)] enum Event { Start }",
        "enum Event {}",
    ] {
        let event = declaration(source);
        assert_eq!(callable_derive(&event), missing);
        assert_eq!(callable_mut_derive(&event), missing);
        assert_eq!(callable_once_derive(&event), missing);
    }
}

#[test]
fn output_errors_name_the_declaration() {
    assert_eq!(
        callable_derive(&declaration("#[argcall(fn = start())] enum Event { Start }")),
        Err(GenError::UnrecognizedKey {
            owner: String::from("Event"),
            key: String::from("fn"),
        })
    );
    assert_eq!(
        callable_derive(&declaration("#[argcall] enum Event { Start }")),
        Err(malformed("Event", Flaw::NoArguments))
    );
    assert_eq!(
        callable_derive(&declaration("#[argcall(output)] enum Event { Start }")),
        Err(malformed("Event", Flaw::ExpectedEquals))
    );
    assert_eq!(
        callable_derive(&declaration("#[argcall(42)] enum Event { Start }")),
        Err(malformed("Event", Flaw::ExpectedKey))
    );
    assert_eq!(
        callable_derive(&declaration("#[argcall(output = 1 +)] enum Event { Start }")),
        Err(malformed("Event", Flaw::ExpectedType))
    );
    assert_eq!(
        callable_derive(&declaration(
            "#[argcall(output = i32)] enum Event { #[argcall(fn = )] Start }"
        )),
        Err(malformed("Start", Flaw::ExpectedExpression))
    );
}

#[test]
fn of_several_output_directives_the_first_counts() {
    let event = declaration(
        "#[argcall(output = u8)] #[argcall(output = i32)] enum Event {
            #[argcall(fn = start())] Start
        }",
    );
    assert_eq!(callable_derive(&event).unwrap().output, lex("u8"));
}

#[test]
fn missing_fn_is_an_error_that_names_the_case() {
    let event = declaration(
        "#[argcall(output = i32)] enum Event {
            #[argcall(fn = start())] Start,
            Inner(Other),
            Stop,
            #[argcall(fn_path = \"tick\")] Tick { count: i32 },
        }",
    );
    let missing = Err(GenError::MissingFn {
        case: String::from("Stop"),
    });
    assert_eq!(callable_derive(&event), missing);
    assert_eq!(callable_mut_derive(&event), missing);
    assert_eq!(callable_once_derive(&event), missing);
    let named = declaration(
        "#[argcall(output = i32)] enum Event {
            #[argcall(fn = start())] Start,
            Tick { count: i32 },
        }",
    );
    assert_eq!(
        callable_derive(&named),
        Err(GenError::MissingFn {
            case: String::from("Tick"),
        })
    );
}

#[test]
fn the_first_failing_case_decides_the_error() {
    let event = declaration(
        "#[argcall(output = i32)] enum Event {
            #[argcall(fn = start())] Start,
            #[argcall(nope = 1)] Stop,
            Tick { count: i32 },
        }",
    );
    assert_eq!(
        callable_derive(&event),
        Err(GenError::UnrecognizedKey {
            owner: String::from("Stop"),
            key: String::from("nope"),
        })
    );
    let output_first = declaration("enum Event { Stop }");
    assert_eq!(
        callable_derive(&output_first),
        Err(GenError::MissingOutput {
            name: String::from("Event"),
        })
    );
}

#[test]
fn errors_are_said_in_words_with_the_name() {
    assert_eq!(
        GenError::NotTaggedUnion {
            name: String::from("Point"),
        }
        .message(),
        "can only be applied to enums: Point"
    );
    assert_eq!(
        GenError::MissingOutput {
            name: String::from("Event"),
        }
        .message(),
        "expected #[argcall(output = ...)] attribute on Event"
    );
    assert_eq!(
        GenError::MissingFn {
            case: String::from("Stop"),
        }
        .message(),
        "expected an 'argcall' attribute with 'fn' or 'fn_path' on Stop"
    );
    assert_eq!(
        GenError::UnrecognizedKey {
            owner: String::from("Stop"),
            key: String::from("nope"),
        }
        .message(),
        "unrecognized attribute for argcall: nope on Stop"
    );
    assert_eq!(
        malformed("Event", Flaw::NoArguments).message(),
        "malformed argcall attribute on Event: expected attribute arguments in parentheses"
    );
    assert_eq!(
        malformed("Event", Flaw::ExpectedKey).message(),
        "malformed argcall attribute on Event: expected an identifier as the key"
    );
    assert_eq!(
        malformed("Go", Flaw::ExpectedEquals).message(),
        "malformed argcall attribute on Go: expected `=`"
    );
    assert_eq!(
        malformed("Event", Flaw::ExpectedType).message(),
        "malformed argcall attribute on Event: expected a type"
    );
    assert_eq!(
        malformed("Go", Flaw::ExpectedExpression).message(),
        "malformed argcall attribute on Go: expected an expression"
    );
    assert_eq!(
        malformed("Go", Flaw::ExpectedStringLiteral).message(),
        "malformed argcall attribute on Go: expected string literal"
    );
    assert_eq!(
        malformed("Go", Flaw::InvalidName).message(),
        "malformed argcall attribute on Go: expected an identifier in the string literal"
    );
    assert_eq!(
        malformed("Go", Flaw::ExpectedComma).message(),
        "malformed argcall attribute on Go: expected `,`"
    );
}

// ---- text ----

#[test]
fn names_are_joined_with_commas() {
    assert_eq!(join_names(&names(&[])), "");
    assert_eq!(join_names(&names(&["a"])), "a");
    assert_eq!(join_names(&names(&["a", "b", "c"])), "a, b, c");
}

#[test]
fn bound_expressions_are_written_as_source() {
    assert_eq!(render_bound(&Bound::Expr(lex("a::b(c)"))), "a :: b (c)");
    let call = Bound::Call {
        name: String::from("area"),
        args: names(&["width", "height"]),
    };
    assert_eq!(render_bound(&call), "area(width, height)");
    assert_eq!(copy_bound(&call), call);
    let none = Bound::Call {
        name: String::from("start"),
        args: names(&[]),
    };
    assert_eq!(render_bound(&none), "start()");
    assert_eq!(render_body(&ArmBody::Bound(none)), "start()");
}

#[test]
fn forwarding_calls_name_the_sibling_method() {
    assert_eq!(
        render_body(&ArmBody::Forward(CallableType::Callable)),
        "argcall::Callable::call_fn(value, ())"
    );
    assert_eq!(
        render_body(&ArmBody::Forward(CallableType::CallableMut)),
        "argcall::CallableMut::call_fn_mut(value, ())"
    );
    assert_eq!(
        render_body(&ArmBody::Forward(CallableType::CallableOnce)),
        "argcall::CallableOnce::call_fn_once(value, ())"
    );
    assert_eq!(
        CallableType::CallableOnce.as_forward_call(),
        "argcall::CallableOnce::call_fn_once(value, ())"
    );
}

#[test]
fn interface_paths_and_signatures() {
    assert_eq!(CallableType::Callable.as_trait(), "argcall::Callable");
    assert_eq!(CallableType::CallableMut.as_trait(), "argcall::CallableMut");
    assert_eq!(CallableType::CallableOnce.as_trait(), "argcall::CallableOnce");
    assert_eq!(CallableType::Callable.as_fn(), "call_fn(&self, _: ())");
    assert_eq!(CallableType::CallableMut.as_fn(), "call_fn_mut(&mut self, _: ())");
    assert_eq!(CallableType::CallableOnce.as_fn(), "call_fn_once(self, _: ())");
}

#[test]
fn patterns_bind_the_fields() {
    assert_eq!(render_fields(&Fields::Unit), "");
    assert_eq!(render_fields(&Fields::Unnamed), "(value)");
    assert_eq!(render_fields(&Fields::Named(names(&["a", "b"]))), " { a, b }");
    assert_eq!(render_fields(&Fields::Named(names(&[]))), " {  }");
}

#[test]
fn arms_and_markers_are_written_as_source() {
    let arm = Arm {
        case: String::from("Inner"),
        fields: Fields::Unnamed,
        body: ArmBody::Forward(CallableType::CallableMut),
    };
    assert_eq!(
        render_arm("Nested", &arm),
        "            Nested::Inner(value) => argcall::CallableMut::call_fn_mut(value, ()),\n"
    );
    let marker = Marker {
        name: String::from("EventStartCallable"),
        body: Bound::Expr(lex("start()")),
    };
    assert_eq!(
        render_marker("Option < i32 >", &marker),
        "#[derive(Clone, Debug)]\npub struct EventStartCallable;\nimpl argcall::Callable for EventStartCallable {\n    type Output = Option < i32 >;\n    fn call_fn(&self, _: ()) -> Option < i32 > {\n        start ()\n    }\n}\n"
    );
}

#[test]
fn marker_types_implement_the_reference_interface_for_every_entry_point() {
    let event = declaration("#[argcall(output = u8)] enum Event { #[argcall(fn = go())] Go }");
    let marker = "#[derive(Clone, Debug)]
        pub struct EventGoCallable;
        impl argcall::Callable for EventGoCallable {
            type Output = u8;
            fn call_fn(&self, _: ()) -> u8 { go() }
        }";
    let text = callable_once_derive(&event).unwrap().render();
    let dispatcher = "impl argcall::CallableOnce for Event {
            type Output = u8;
            fn call_fn_once(self, _: ()) -> u8 { match self { Event::Go => go(), } }
        }";
    assert!(same_tokens(&text, &format!("{marker} {dispatcher}")));
}
