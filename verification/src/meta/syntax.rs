//! The grammars of attribute arguments, read by `syn`.
//!
//! An argument is a fragment of Rust: an expression, a statement, a pattern
//! or a list of function arguments. The compiler never looks inside one; it
//! asks `syn` whether the fragment is in its grammar, and carries the tokens
//! that `syn` prints into the generated procedure.
//!
//! What `syn` accepts and how it prints tokens depends on more than the
//! text: on the lexer that the process uses, and on the compiler inside a
//! macro. So nothing is claimed of what the calls below return. What a call
//! gave is kept beside the text it was given, and every function after the
//! call is stated over that.

use vstd::prelude::*;
use quote::ToTokens;
use syn::parse::Parser;

verus! {

/// `syn::Error`: why `syn` does not accept a text. The library carries
/// such a value and never looks into it.
#[verifier::external_type_specification]
#[verifier::external_body]
pub struct ExSynError(syn::Error);

/// One function argument of an `ExtraArgs` list.
#[derive(Debug, PartialEq, Eq)]
pub struct ExtraArg {
    /// The name it binds, where the argument is `name: Type`.
    pub name: Option<String>,
    /// Whether the argument is a form of `self`.
    pub receiver: bool,
    /// The tokens of the whole argument.
    pub tokens: String,
}

/// What `ExtraArg` holds, as plain values: the name, the receiver flag and
/// the tokens.
pub type ExtraArgView = (Option<Seq<char>>, bool, Seq<char>);

impl View for ExtraArg {
    type V = ExtraArgView;

    open spec fn view(&self) -> ExtraArgView {
        (
            match self.name {
                Some(n) => Some(n@),
                None => None,
            },
            self.receiver,
            self.tokens@,
        )
    }
}

/// What reading a text in a grammar gave.
#[derive(Debug, PartialEq, Eq)]
pub enum Parsed {
    /// Nothing was read: there was no text, or no grammar to read it in.
    Unread,
    /// The text is not in the grammar.
    Rejected,
    /// The tokens of the text, as they were printed.
    Tokens(String),
    /// The function arguments of the text, in order.
    FnArgs(Vec<ExtraArg>),
}

/// What a `Parsed` holds, as plain values.
pub enum ParsedView {
    Unread,
    Rejected,
    Tokens(Seq<char>),
    FnArgs(Seq<ExtraArgView>),
}

/// The views of a list of function arguments, in order.
pub open spec fn extra_args_view(args: Seq<ExtraArg>) -> Seq<ExtraArgView> {
    args.map_values(|a: ExtraArg| a@)
}

impl View for Parsed {
    type V = ParsedView;

    open spec fn view(&self) -> ParsedView {
        match self {
            Parsed::Unread => ParsedView::Unread,
            Parsed::Rejected => ParsedView::Rejected,
            Parsed::Tokens(t) => ParsedView::Tokens(t@),
            Parsed::FnArgs(args) => ParsedView::FnArgs(extra_args_view(args@)),
        }
    }
}

impl ExtraArg {
    /// A copy of the argument.
    pub fn duplicate(&self) -> (r: ExtraArg)
        ensures
            r@ == self@,
    {
        ExtraArg {
            name: match &self.name {
                Some(n) => Some(n.clone()),
                None => None,
            },
            receiver: self.receiver,
            tokens: self.tokens.clone(),
        }
    }
}

/// A copy of a list of function arguments.
pub fn duplicate_extra_args(args: &Vec<ExtraArg>) -> (r: Vec<ExtraArg>)
    ensures
        extra_args_view(r@) == extra_args_view(args@),
{
    let mut out: Vec<ExtraArg> = Vec::new();
    let mut i: usize = 0;
    while i < args.len()
        invariant
            i <= args.len(),
            out.len() == i,
            forall|j: int| 0 <= j < i ==> out[j]@ == args[j]@,
        decreases args.len() - i,
    {
        out.push(args[i].duplicate());
        i += 1;
    }
    proof {
        assert(extra_args_view(out@) =~= extra_args_view(args@));
    }
    out
}

/// Calls `syn::parse_str::<syn::Expr>` and prints what it read with
/// `ToTokens`. Nothing is claimed of the result.
#[verifier::external_body]
pub(crate) fn parse_expr(source: &str) -> (r: Result<String, syn::Error>) {
    match syn::parse_str::<syn::Expr>(source) {
        Ok(e) => Ok(e.to_token_stream().to_string()),
        Err(e) => Err(e),
    }
}

/// Calls `syn::parse_str::<syn::Stmt>` and prints what it read with
/// `ToTokens`. Nothing is claimed of the result.
#[verifier::external_body]
pub(crate) fn parse_stmt(source: &str) -> (r: Result<String, syn::Error>) {
    match syn::parse_str::<syn::Stmt>(source) {
        Ok(s) => Ok(s.to_token_stream().to_string()),
        Err(e) => Err(e),
    }
}

/// Calls `syn::parse_str::<syn::Arm>` and hands out the number of
/// attributes of the arm it read, and its pattern and its guard printed
/// with `ToTokens`. Nothing is claimed of the result.
#[verifier::external_body]
pub(crate) fn parse_arm(text: &str) -> (r: Result<(usize, String, Option<String>), syn::Error>) {
    match syn::parse_str::<syn::Arm>(text) {
        Ok(arm) => Ok(
            (
                arm.attrs.len(),
                arm.pat.to_token_stream().to_string(),
                arm.guard.map(|g| g.1.to_token_stream().to_string()),
            ),
        ),
        Err(e) => Err(e),
    }
}

/// Calls `syn::Pat::parse_single` on the whole of `text` and prints what
/// it read with `ToTokens`. Nothing is claimed of the result.
#[verifier::external_body]
pub(crate) fn parse_single_pattern(text: &str) -> (r: Result<String, syn::Error>) {
    match syn::Pat::parse_single.parse_str(text) {
        Ok(p) => Ok(p.to_token_stream().to_string()),
        Err(e) => Err(e),
    }
}

/// Calls `Punctuated::<syn::FnArg, Comma>::parse_terminated` on `source`
/// and hands out each argument it read, in order: its name where its
/// pattern is one identifier, whether it is a receiver, and its tokens
/// printed with `ToTokens`. Nothing is claimed of the result.
#[verifier::external_body]
pub(crate) fn parse_fn_args(source: &str) -> (r: Result<Vec<ExtraArg>, syn::Error>) {
    let parser = syn::punctuated::Punctuated::<syn::FnArg, syn::token::Comma>::parse_terminated;
    let args = parser.parse_str(source)?;
    Ok(args.iter().map(|arg| ExtraArg {
        name: match arg {
            syn::FnArg::Typed(t) => match t.pat.as_ref() {
                syn::Pat::Ident(p) => Some(p.ident.to_string()),
                _ => None,
            },
            syn::FnArg::Receiver(_) => None,
        },
        receiver: matches!(arg, syn::FnArg::Receiver(_)),
        tokens: arg.to_token_stream().to_string(),
    }).collect())
}

} // verus!
