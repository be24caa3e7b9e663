use core::future::Ready;
use vstd::future::FutureAdditionalSpecFns;
use vstd::prelude::*;

verus! {

/// `core::future::Ready`, the future that `core::future::ready` returns.
#[verifier::external_type_specification]
#[verifier::external_body]
#[verifier::reject_recursive_types(T)]
pub struct ExReady<T>(Ready<T>);

/// `core::future::ready` makes a future that is complete from the start and resolves to
/// the value it was given.
pub assume_specification<T>[ core::future::ready::<T> ](t: T) -> (fut: Ready<T>)
    ensures
        fut@ == t,
;

/// Whether `unicode_ident::is_xid_start` holds of a character: whether Unicode lists it
/// as XID_Start, which the crate reads from its tables.
pub uninterp spec fn xid_start(c: char) -> bool;

/// Whether `unicode_ident::is_xid_continue` holds of a character: whether Unicode lists
/// it as XID_Continue, which the crate reads from its tables.
pub uninterp spec fn xid_continue(c: char) -> bool;

/// The letters of ASCII.
pub open spec fn ascii_letter(c: char) -> bool {
    ('a' <= c && c <= 'z') || ('A' <= c && c <= 'Z')
}

/// The digits of ASCII.
pub open spec fn ascii_digit(c: char) -> bool {
    '0' <= c && c <= '9'
}

/// Calls `unicode_ident::is_xid_start`. The answer depends on the character alone; within
/// ASCII the crate's table holds exactly the letters.
#[verifier::external_body]
pub(crate) fn is_xid_start(c: char) -> (r: bool)
    ensures
        r == xid_start(c),
        c <= '\u{7f}' ==> r == ascii_letter(c),
{
    unicode_ident::is_xid_start(c)
}

/// Calls `unicode_ident::is_xid_continue`. The answer depends on the character alone; within
/// ASCII the crate's table holds exactly the letters, the digits and the underscore.
#[verifier::external_body]
pub(crate) fn is_xid_continue(c: char) -> (r: bool)
    ensures
        r == xid_continue(c),
        c <= '\u{7f}' ==> r == (ascii_letter(c) || ascii_digit(c) || c == '_'),
{
    unicode_ident::is_xid_continue(c)
}

/// What `syn::Lit::new` makes of the literal token written as `text`: for a string
/// literal, the characters that `syn::LitStr::value` gives, with the escapes resolved.
/// `None` where `proc_macro2::Literal` does not read `text` as one literal, or the
/// literal is no string.
pub uninterp spec fn string_literal_value(text: Seq<char>) -> Option<Seq<char>>;

/// Reads `text` as one `proc_macro2::Literal`, classifies it with `syn::Lit::new` and, of
/// a string literal, takes `syn::LitStr::value`. The result depends on the text alone.
#[verifier::external_body]
pub(crate) fn decode_string_literal(text: &str) -> (r: Option<String>)
    ensures
        r.deep_view() == string_literal_value(text@),
{
    match text.parse::<proc_macro2::Literal>() {
        Ok(literal) => match syn::Lit::new(literal) {
            syn::Lit::Str(lit) => Some(lit.value()),
            _ => None,
        },
        Err(_) => None,
    }
}

/// Whether `syn::parse_str` reads `text`, all of it, as one `syn::Type`.
pub uninterp spec fn reads_as_type(text: Seq<char>) -> bool;

/// Parses `text` as a `syn::Type` with `syn::parse_str` and says whether that succeeded.
/// The result depends on the text alone.
#[verifier::external_body]
pub(crate) fn parses_as_type(text: &str) -> (r: bool)
    ensures
        r == reads_as_type(text@),
{
    syn::parse_str::<syn::Type>(text).is_ok()
}

/// Whether `syn::parse_str` reads `text`, all of it, as one `syn::Expr`.
pub uninterp spec fn reads_as_expression(text: Seq<char>) -> bool;

/// Parses `text` as a `syn::Expr` with `syn::parse_str` and says whether that succeeded.
/// The result depends on the text alone.
#[verifier::external_body]
pub(crate) fn parses_as_expression(text: &str) -> (r: bool)
    ensures
        r == reads_as_expression(text@),
{
    syn::parse_str::<syn::Expr>(text).is_ok()
}

} // verus!
