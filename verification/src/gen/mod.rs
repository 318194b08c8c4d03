//! The generators: one for structs, one for enums with a selector, one
//! for enums without fields.

pub mod enums;
pub mod fieldless_enums;
pub mod generator;
pub mod structs;

use vstd::prelude::*;
use crate::decode::error::DecodeError;
use crate::decode::host::{answers_view, Answer, Request, Session};
use crate::decode::enums::{run_enum_spec, run_fieldless_spec};
use crate::decode::record::{run_struct_spec, Outcome, OutcomeView};
use crate::decode::value::{bindings_view, Binding, BindingView, Value};
use crate::endian::{is_fixed, ParserEndianness};
use crate::enums::{is_fieldless_spec, is_input_fieldless_enum, Data};
use crate::gen::enums::{from_data_enum_spec, GenEnum, GenEnumView};
use crate::gen::fieldless_enums::{
    from_fieldless_enum_spec, GenFieldlessEnum, GenFieldlessEnumView,
};
use crate::config::{Config, ConfigView};
use crate::gen::generator::{
    call_args_spec, duplicate_strings, error_bounds, error_bounds_spec, fn_args_spec, gen_fn_decl,
    gen_fn_decl_spec, get_call_args, get_fn_args, has_impl_for_endianness,
    has_impl_for_endianness_spec, is_special_case, extra_view, GenericParamKind,
    GenericParamView, Generics, GenericsView,
};
use crate::meta::syntax::{ExtraArg, ExtraArgView};
use crate::text::{join, join_spec, texts};
use vstd::string::StringExecFns;
use crate::gen::structs::{from_datastruct_spec, GenStruct, GenStructView};
use crate::meta::attr::{contains_attr, has_attr, MetaAttrType};
use crate::meta::error::{ErrorKind, MetaError, MetaErrorView, Span};
use crate::meta::{parse_attributes_spec, parse_nom_top_level_attribute, Attribute, Scope};

verus! {

/// The declaration of a struct or an enum, as the compiler reads it.
#[derive(Debug, PartialEq, Eq)]
pub struct DeriveInput {
    pub ident: String,
    /// The place of the name of the declaration.
    pub span: Span,
    pub attrs: Vec<Attribute>,
    pub generics: Generics,
    pub data: Data,
}

/// A declaration that is ready for the generation of its decoding
/// functions.
#[derive(Debug, PartialEq, Eq)]
pub enum Generated {
    Struct(GenStruct),
    Enum(GenEnum),
    FieldlessEnum(GenFieldlessEnum),
}

/// What a `Generated` holds, as plain values.
pub enum GeneratedView {
    Struct(GenStructView),
    Enum(GenEnumView),
    FieldlessEnum(GenFieldlessEnumView),
}

impl View for Generated {
    type V = GeneratedView;

    open spec fn view(&self) -> GeneratedView {
        match self {
            Generated::Struct(g) => GeneratedView::Struct(g@),
            Generated::Enum(g) => GeneratedView::Enum(g@),
            Generated::FieldlessEnum(g) => GeneratedView::FieldlessEnum(g@),
        }
    }
}

/// The declaration `ast` ready for generation, or the first error in it.
///
/// A struct goes to the generator for structs. An enum that gives the
/// type of its selector goes to the generator for enums with a selector; an
/// enum without one goes to the generator for enums without fields, and
/// must have no fields. A union is an error.
pub open spec fn from_ast_spec(ast: DeriveInput, endianness: ParserEndianness) -> Result<
    GeneratedView,
    MetaErrorView,
> {
    match ast.data {
        Data::Struct(s) => match from_datastruct_spec(
            ast.ident@,
            s,
            ast.attrs@,
            ast.generics@,
            endianness,
        ) {
            Ok(g) => Ok(GeneratedView::Struct(g)),
            Err(e) => Err(e),
        },
        Data::Enum(e) => match parse_attributes_spec(ast.attrs@, Scope::TopLevel) {
            Err(err) => Err(err),
            Ok(meta) => if has_attr(meta, MetaAttrType::Selector) {
                match from_data_enum_spec(
                    ast.ident@,
                    ast.span,
                    e,
                    ast.attrs@,
                    ast.generics@,
                    endianness,
                ) {
                    Ok(g) => Ok(GeneratedView::Enum(g)),
                    Err(err) => Err(err),
                }
            } else if is_fieldless_spec(e.variants@) {
                match from_fieldless_enum_spec(
                    ast.ident@,
                    ast.span,
                    e,
                    ast.attrs@,
                    ast.generics@,
                    endianness,
                ) {
                    Ok(g) => Ok(GeneratedView::FieldlessEnum(g)),
                    Err(err) => Err(err),
                }
            } else {
                Err(
                    MetaErrorView {
                        kind: ErrorKind::EnumWithoutSelector,
                        span: ast.span,
                        detail: ast.ident@,
                    },
                )
            },
        },
        Data::Union => Err(
            MetaErrorView { kind: ErrorKind::UnsupportedUnion, span: ast.span, detail: ast.ident@ },
        ),
    }
}

/// The decoding procedure of the declaration `g` for the entry point of
/// byte order `entry`.
pub open spec fn run_spec(
    s: Session,
    g: GeneratedView,
    entry: ParserEndianness,
    args: Seq<BindingView>,
) -> OutcomeView {
    match g {
        GeneratedView::Struct(g) => run_struct_spec(s, g, entry, args),
        GeneratedView::Enum(g) => run_enum_spec(s, g, entry, args),
        GeneratedView::FieldlessEnum(g) => run_fieldless_spec(s, g, entry, args),
    }
}

impl Generated {
    /// Prepares the declaration `ast` for the entry point of byte order
    /// `endianness`.
    pub fn from_ast(ast: &DeriveInput, endianness: ParserEndianness) -> (r: Result<
        Generated,
        MetaError,
    >)
        ensures
            match r {
                Ok(g) => from_ast_spec(*ast, endianness) == Ok::<GeneratedView, MetaErrorView>(g@),
                Err(e) => from_ast_spec(*ast, endianness) == Err::<GeneratedView, MetaErrorView>(
                    e@,
                ),
            },
    {
        match &ast.data {
            Data::Struct(s) => {
                let g = GenStruct::from_datastruct(
                    &ast.ident,
                    ast.span,
                    s,
                    ast.attrs.as_slice(),
                    &ast.generics,
                    endianness,
                )?;
                Ok(Generated::Struct(g))
            },
            Data::Enum(e) => {
                let meta = parse_nom_top_level_attribute(ast.attrs.as_slice())?;
                if contains_attr(meta.as_slice(), MetaAttrType::Selector) {
                    let g = GenEnum::from_data_enum(
                        &ast.ident,
                        ast.span,
                        e,
                        ast.attrs.as_slice(),
                        &ast.generics,
                        endianness,
                    )?;
                    Ok(Generated::Enum(g))
                } else if is_input_fieldless_enum(&ast.data) {
                    let g = GenFieldlessEnum::from_data_enum(
                        &ast.ident,
                        ast.span,
                        e,
                        ast.attrs.as_slice(),
                        &ast.generics,
                        endianness,
                    )?;
                    Ok(Generated::FieldlessEnum(g))
                } else {
                    Err(
                        MetaError::new(
                            ErrorKind::EnumWithoutSelector,
                            ast.span,
                            ast.ident.clone(),
                        ),
                    )
                }
            },
            Data::Union => Err(
                MetaError::new(ErrorKind::UnsupportedUnion, ast.span, ast.ident.clone()),
            ),
        }
    }

    /// Runs the decoding procedure for the entry point of byte order
    /// `endianness` on `input`, with the answers that the host has given so
    /// far; `args` are the values of the selector and of the extra
    /// arguments.
    pub fn decode(
        &self,
        endianness: ParserEndianness,
        input: &[u8],
        args: &Vec<Binding>,
        answers: &[Answer],
    ) -> (r: Outcome)
        requires
            is_fixed(endianness),
        ensures
            r@ == run_spec(
                Session { input: input@, answers: answers_view(answers@) },
                self@,
                endianness,
                bindings_view(args@),
            ),
    {
        match self {
            Generated::Struct(g) => g.decode(endianness, input, args, answers),
            Generated::Enum(g) => g.decode(endianness, input, args, answers),
            Generated::FieldlessEnum(g) => g.decode(endianness, input, args, answers),
        }
    }
}


impl GeneratedView {
    pub open spec fn name(self) -> Seq<char> {
        match self {
            GeneratedView::Struct(g) => g.name,
            GeneratedView::Enum(g) => g.name,
            GeneratedView::FieldlessEnum(g) => g.name,
        }
    }

    pub open spec fn config(self) -> ConfigView {
        match self {
            GeneratedView::Struct(g) => g.config,
            GeneratedView::Enum(g) => g.config,
            GeneratedView::FieldlessEnum(g) => g.config,
        }
    }

    /// The extra arguments of the decoding functions.
    pub open spec fn extra_args(self) -> Option<Seq<ExtraArgView>> {
        match self {
            GeneratedView::Struct(g) => g.extra_args,
            GeneratedView::Enum(g) => g.extra_args,
            GeneratedView::FieldlessEnum(g) => g.extra_args,
        }
    }

    pub open spec fn orig_generics(self) -> GenericsView {
        match self {
            GeneratedView::Struct(g) => g.orig_generics,
            GeneratedView::Enum(g) => g.orig_generics,
            GeneratedView::FieldlessEnum(g) => g.orig_generics,
        }
    }

    /// The predicates that the `impl` block needs beside those of the
    /// declaration.
    pub open spec fn impl_where_predicates(self) -> Seq<Seq<char>> {
        match self {
            GeneratedView::Struct(g) => match g.impl_where_predicates {
                Some(v) => v,
                None => Seq::empty(),
            },
            _ => Seq::empty(),
        }
    }

    /// The body of the decoding function for the entry point of byte
    /// order `entry`.
    pub open spec fn fn_body(self, entry: ParserEndianness) -> Seq<char> {
        match self {
            GeneratedView::Struct(g) => g.fn_body(entry),
            GeneratedView::Enum(g) => g.fn_body(entry),
            GeneratedView::FieldlessEnum(g) => g.fn_body(entry),
        }
    }

    /// The declaration with the generated code shown where `debug_derive`
    /// holds or it was shown before.
    pub open spec fn with_debug(self, debug_derive: bool) -> GeneratedView {
        let config = ConfigView {
            debug_derive: self.config().debug_derive || debug_derive,
            ..self.config()
        };
        match self {
            GeneratedView::Struct(g) => GeneratedView::Struct(GenStructView { config, ..g }),
            GeneratedView::Enum(g) => GeneratedView::Enum(GenEnumView { config, ..g }),
            GeneratedView::FieldlessEnum(g) => GeneratedView::FieldlessEnum(
                GenFieldlessEnumView { config, ..g },
            ),
        }
    }

    /// The name of the decoding function for the other byte order.
    pub open spec fn other_fn_name(entry: ParserEndianness) -> Seq<char> {
        if entry == ParserEndianness::BigEndian {
            "parse_le"@
        } else {
            "parse_be"@
        }
    }

    /// The decoding function for the byte order `entry`, which is big or
    /// little: its declaration and its body, or a call of the function for
    /// the other byte order where the byte order of the declaration is
    /// fixed to that one.
    pub open spec fn parse_fn(self, entry: ParserEndianness) -> Result<Seq<char>, MetaErrorView> {
        let decl = gen_fn_decl_spec(entry, self.extra_args(), self.config());
        if has_impl_for_endianness_spec(self.config(), entry) {
            Ok(decl + "{ "@ + self.fn_body(entry) + " } "@)
        } else {
            match call_args_spec(self.extra_args(), self.config()) {
                Err(e) => Err(e),
                Ok(args) => Ok(
                    decl + "{ Self::"@ + Self::other_fn_name(entry) + "("@ + join_spec(args, ", "@)
                        + ") } "@,
                ),
            }
        }
    }

    /// The decoding function that does not name a byte order: it calls the
    /// big endian one.
    pub open spec fn parse_any_fn(self) -> Result<Seq<char>, MetaErrorView> {
        let config = self.config();
        let special = is_special_case(self.extra_args(), config);
        match call_args_spec(self.extra_args(), config) {
            Err(e) => Err(e),
            Ok(call_args) => Ok(
                (if special {
                    "pub "@
                } else {
                    Seq::empty()
                }) + "fn parse"@ + (if config.generic_errors && special {
                    "<"@ + config.error_name + ">"@
                } else {
                    Seq::empty()
                }) + "("@ + join_spec(fn_args_spec(self.extra_args(), config), ", "@)
                    + ") -> nom::IResult<&"@ + config.lifetime_name + " [u8], Self"@ + (
                if config.generic_errors {
                    ", "@ + config.error_name
                } else {
                    Seq::empty()
                }) + "> "@ + (if config.generic_errors && special {
                    "where "@ + error_bounds_spec(config) + ", "@
                } else {
                    Seq::empty()
                }) + "{ Self::parse_be("@ + join_spec(call_args, ", "@) + ") } "@,
            ),
        }
    }

    /// Whether the error type is a parameter of the `impl` block.
    pub open spec fn error_is_impl_param(self) -> bool {
        self.config().generic_errors && !is_special_case(self.extra_args(), self.config())
    }

    /// The generic parameters of the `impl` block: those of the
    /// declaration, the lifetime of the input, and the error type where it
    /// is generic and the block implements the trait.
    pub open spec fn impl_params(self) -> Seq<Seq<char>> {
        let own = self.orig_generics().params.map_values(|p: GenericParamView| p.tokens).push(
            self.config().lifetime_name,
        );
        if self.error_is_impl_param() {
            own.push(self.config().error_name)
        } else {
            own
        }
    }

    /// The bound that makes the input outlive the lifetimes of the
    /// declaration, where it has any.
    pub open spec fn outlives(self) -> Seq<Seq<char>> {
        let lifetimes = param_idents_spec(
            self.orig_generics().params,
            GenericParamKind::Lifetime,
        );
        if lifetimes.len() > 0 {
            seq![self.config().lifetime_name + ": "@ + join_spec(lifetimes, " + "@)]
        } else {
            Seq::empty()
        }
    }

    /// The bound that makes a type parameter decodable.
    pub open spec fn parse_bound(self, ident: Seq<char>) -> Seq<char> {
        ident + ": Parse<&"@ + self.config().lifetime_name + " [u8]"@ + (
        if self.config().generic_errors {
            ", "@ + self.config().error_name
        } else {
            Seq::empty()
        }) + ">"@
    }

    /// The bound on the error type of an `impl` block of the trait.
    pub open spec fn error_bound(self) -> Seq<Seq<char>> {
        if self.error_is_impl_param() {
            seq![
                self.config().error_name + ": nom::error::ParseError<&"@
                    + self.config().lifetime_name + " [u8]>"@,
            ]
        } else {
            Seq::empty()
        }
    }

    /// The predicates of the `where` clause of the `impl` block: those of
    /// the declaration; the input outlives its lifetimes; its type
    /// parameters are decodable; what its fields need; the bound on a
    /// generic error type.
    pub open spec fn where_predicates(self) -> Seq<Seq<char>> {
        self.orig_generics().where_predicates + self.outlives() + param_idents_spec(
            self.orig_generics().params,
            GenericParamKind::Type,
        ).map_values(|i: Seq<char>| self.parse_bound(i)) + self.impl_where_predicates()
            + self.error_bound()
    }

    /// The name of the declaration with its generic arguments.
    pub open spec fn self_type(self) -> Seq<char> {
        if self.orig_generics().params.len() == 0 {
            self.name()
        } else {
            self.name() + "<"@ + join_spec(
                self.orig_generics().params.map_values(|p: GenericParamView| p.ident),
                ", "@,
            ) + ">"@
        }
    }

    /// What the `impl` block implements: nothing where the functions take
    /// a selector or extra arguments, else the trait `Parse`.
    pub open spec fn trait_tokens(self) -> Seq<char> {
        if is_special_case(self.extra_args(), self.config()) {
            Seq::empty()
        } else {
            "nom_derive::Parse<&"@ + self.config().lifetime_name + " [u8], "@ + (
            if self.config().generic_errors {
                self.config().error_name
            } else {
                "nom::error::Error<&"@ + self.config().lifetime_name + " [u8]>"@
            }) + "> for "@
        }
    }

    /// The `impl` block with the three decoding functions.
    pub open spec fn impl_tokens(self) -> Result<Seq<char>, MetaErrorView> {
        match self.parse_any_fn() {
            Err(e) => Err(e),
            Ok(parse) => match self.parse_fn(ParserEndianness::BigEndian) {
                Err(e) => Err(e),
                Ok(parse_be) => match self.parse_fn(ParserEndianness::LittleEndian) {
                    Err(e) => Err(e),
                    Ok(parse_le) => Ok(
                        "impl<"@ + join_spec(self.impl_params(), ", "@) + "> "@
                            + self.trait_tokens() + self.self_type() + " where "@ + join_spec(
                            self.where_predicates(),
                            ", "@,
                        ) + " { "@ + parse_be + parse_le + parse + "}"@,
                    ),
                },
            },
        }
    }
}

/// The names of the parameters of kind `kind`, in order.
pub open spec fn param_idents_spec(params: Seq<GenericParamView>, kind: GenericParamKind) -> Seq<
    Seq<char>,
>
    decreases params.len(),
{
    if params.len() == 0 {
        Seq::empty()
    } else if params.last().kind == kind {
        param_idents_spec(params.drop_last(), kind).push(params.last().ident)
    } else {
        param_idents_spec(params.drop_last(), kind)
    }
}

fn param_idents(generics: &Generics, kind: GenericParamKind) -> (r: Vec<String>)
    ensures
        texts(r@) == param_idents_spec(generics@.params, kind),
{
    let ghost views = generics@.params;
    let mut out: Vec<String> = Vec::new();
    let mut i: usize = 0;
    proof {
        assert(texts(out@) =~= Seq::empty());
    }
    while i < generics.params.len()
        invariant
            i <= generics.params.len(),
            views == generics@.params,
            texts(out@) == param_idents_spec(views.take(i as int), kind),
        decreases generics.params.len() - i,
    {
        proof {
            assert(views.take(i as int + 1).drop_last() =~= views.take(i as int));
            assert(views.take(i as int + 1).last() == generics.params[i as int]@);
        }
        if generics.params[i].kind == kind {
            let ident = generics.params[i].ident.clone();
            proof {
                assert(texts(out@.push(ident)) =~= texts(out@).push(ident@));
            }
            out.push(ident);
        }
        i += 1;
    }
    proof {
        assert(views.take(generics.params.len() as int) =~= views);
    }
    out
}

impl Generated {
    pub fn name(&self) -> (r: &String)
        ensures
            r@ == self@.name(),
    {
        match self {
            Generated::Struct(g) => &g.name,
            Generated::Enum(g) => &g.name,
            Generated::FieldlessEnum(g) => &g.name,
        }
    }

    pub fn config(&self) -> (r: &Config)
        ensures
            r@ == self@.config(),
    {
        match self {
            Generated::Struct(g) => &g.config,
            Generated::Enum(g) => &g.config,
            Generated::FieldlessEnum(g) => &g.config,
        }
    }

    pub fn extra_args(&self) -> (r: &Option<Vec<ExtraArg>>)
        ensures
            extra_view(*r) == self@.extra_args(),
    {
        match self {
            Generated::Struct(g) => &g.extra_args,
            Generated::Enum(g) => &g.extra_args,
            Generated::FieldlessEnum(g) => &g.extra_args,
        }
    }

    pub fn orig_generics(&self) -> (r: &Generics)
        ensures
            r@ == self@.orig_generics(),
    {
        match self {
            Generated::Struct(g) => &g.orig_generics,
            Generated::Enum(g) => &g.orig_generics,
            Generated::FieldlessEnum(g) => &g.orig_generics,
        }
    }

    /// Asks for the generated code to be shown; what was asked before
    /// stays asked.
    pub fn set_debug(&mut self, debug_derive: bool)
        ensures
            final(self)@ == old(self)@.with_debug(debug_derive),
    {
        match self {
            Generated::Struct(g) => {
                g.config.debug_derive = g.config.debug_derive || debug_derive;
            },
            Generated::Enum(g) => {
                g.config.debug_derive = g.config.debug_derive || debug_derive;
            },
            Generated::FieldlessEnum(g) => {
                g.config.debug_derive = g.config.debug_derive || debug_derive;
            },
        }
    }

    /// Writes the body of the decoding function for the entry point of
    /// byte order `endianness`.
    pub fn gen_fn_body(&self, endianness: ParserEndianness) -> (r: String)
        requires
            is_fixed(endianness),
        ensures
            r@ == self@.fn_body(endianness),
    {
        match self {
            Generated::Struct(g) => g.gen_fn_body(endianness),
            Generated::Enum(g) => g.gen_fn_body(endianness),
            Generated::FieldlessEnum(g) => g.gen_fn_body(endianness),
        }
    }

    fn gen_parse_fn(&self, endianness: ParserEndianness) -> (r: Result<String, MetaError>)
        requires
            is_fixed(endianness),
        ensures
            match r {
                Ok(s) => self@.parse_fn(endianness) == Ok::<Seq<char>, MetaErrorView>(s@),
                Err(e) => self@.parse_fn(endianness) == Err::<Seq<char>, MetaErrorView>(e@),
            },
    {
        let mut out = gen_fn_decl(endianness, self.extra_args(), self.config());
        if has_impl_for_endianness(self.config(), endianness) {
            out.append("{ ");
            out.append(self.gen_fn_body(endianness).as_str());
            out.append(" } ");
        } else {
            let call_args = get_call_args(self.extra_args(), self.config())?;
            out.append("{ Self::");
            out.append(
                match endianness {
                    ParserEndianness::BigEndian => "parse_le",
                    _ => "parse_be",
                },
            );
            out.append("(");
            out.append(join(&call_args, ", ").as_str());
            out.append(") } ");
        }
        Ok(out)
    }

    /// Writes the big endian decoding function.
    pub fn gen_parse_be(&self) -> (r: Result<String, MetaError>)
        ensures
            match r {
                Ok(s) => self@.parse_fn(ParserEndianness::BigEndian) == Ok::<
                    Seq<char>,
                    MetaErrorView,
                >(s@),
                Err(e) => self@.parse_fn(ParserEndianness::BigEndian) == Err::<
                    Seq<char>,
                    MetaErrorView,
                >(e@),
            },
    {
        self.gen_parse_fn(ParserEndianness::BigEndian)
    }

    /// Writes the little endian decoding function.
    pub fn gen_parse_le(&self) -> (r: Result<String, MetaError>)
        ensures
            match r {
                Ok(s) => self@.parse_fn(ParserEndianness::LittleEndian) == Ok::<
                    Seq<char>,
                    MetaErrorView,
                >(s@),
                Err(e) => self@.parse_fn(ParserEndianness::LittleEndian) == Err::<
                    Seq<char>,
                    MetaErrorView,
                >(e@),
            },
    {
        self.gen_parse_fn(ParserEndianness::LittleEndian)
    }

    /// Writes the decoding function that does not name a byte order.
    pub fn gen_parse(&self) -> (r: Result<String, MetaError>)
        ensures
            match r {
                Ok(s) => self@.parse_any_fn() == Ok::<Seq<char>, MetaErrorView>(s@),
                Err(e) => self@.parse_any_fn() == Err::<Seq<char>, MetaErrorView>(e@),
            },
    {
        let config = self.config();
        let special_case = self.extra_args().is_some() || config.selector_type.is_some();
        let call_args = get_call_args(self.extra_args(), config)?;
        let fn_args = get_fn_args(self.extra_args(), config);
        let mut out = if special_case {
            String::from_str("pub ")
        } else {
            String::new()
        };
        out.append("fn parse");
        if config.generic_errors && special_case {
            let mut generics = String::from_str("<");
            generics.append(config.error_name());
            generics.append(">");
            out.append(generics.as_str());
        } else {
            proof {
                assert(out@ + Seq::<char>::empty() =~= out@);
            }
        }
        out.append("(");
        out.append(join(&fn_args, ", ").as_str());
        out.append(") -> nom::IResult<&");
        out.append(config.lifetime_name());
        out.append(" [u8], Self");
        if config.generic_errors {
            let mut maybe_err = String::from_str(", ");
            maybe_err.append(config.error_name());
            out.append(maybe_err.as_str());
        } else {
            proof {
                assert(out@ + Seq::<char>::empty() =~= out@);
            }
        }
        out.append("> ");
        if config.generic_errors && special_case {
            let mut bounds = String::from_str("where ");
            bounds.append(error_bounds(config).as_str());
            bounds.append(", ");
            out.append(bounds.as_str());
        } else {
            proof {
                assert(out@ + Seq::<char>::empty() =~= out@);
            }
        }
        out.append("{ Self::parse_be(");
        out.append(join(&call_args, ", ").as_str());
        out.append(") } ");
        Ok(out)
    }

    fn impl_params(&self) -> (r: Vec<String>)
        ensures
            texts(r@) == self@.impl_params(),
    {
        let generics = self.orig_generics();
        let mut out: Vec<String> = Vec::new();
        let mut i: usize = 0;
        while i < generics.params.len()
            invariant
                i <= generics.params.len(),
                out.len() == i,
                forall|j: int| 0 <= j < i ==> out[j]@ == generics.params[j].tokens@,
            decreases generics.params.len() - i,
        {
            out.push(generics.params[i].tokens.clone());
            i += 1;
        }
        proof {
            assert(texts(out@) =~= generics@.params.map_values(|p: GenericParamView| p.tokens));
        }
        let lft = String::from_str(self.config().lifetime_name());
        proof {
            assert(texts(out@.push(lft)) =~= texts(out@).push(lft@));
        }
        out.push(lft);
        if self.config().generic_errors && !(self.extra_args().is_some()
            || self.config().selector_type.is_some()) {
            let e = String::from_str(self.config().error_name());
            proof {
                assert(texts(out@.push(e)) =~= texts(out@).push(e@));
            }
            out.push(e);
        }
        out
    }

    fn parse_bound(&self, ident: &str) -> (r: String)
        ensures
            r@ == self@.parse_bound(ident@),
    {
        let mut out = String::from_str(ident);
        out.append(": Parse<&");
        out.append(self.config().lifetime_name());
        out.append(" [u8]");
        if self.config().generic_errors {
            let mut maybe_err = String::from_str(", ");
            maybe_err.append(self.config().error_name());
            out.append(maybe_err.as_str());
        } else {
            proof {
                assert(out@ + Seq::<char>::empty() =~= out@);
            }
        }
        out.append(">");
        out
    }

    fn where_predicates(&self) -> (r: Vec<String>)
        ensures
            texts(r@) == self@.where_predicates(),
    {
        let generics = self.orig_generics();
        let config = self.config();
        let mut out = duplicate_strings(&generics.where_predicates);
        proof {
            assert(texts(out@) =~= self@.orig_generics().where_predicates);
        }
        let lifetimes = param_idents(generics, GenericParamKind::Lifetime);
        if lifetimes.len() > 0 {
            let mut wh = String::from_str(config.lifetime_name());
            wh.append(": ");
            wh.append(join(&lifetimes, " + ").as_str());
            proof {
                assert(texts(out@.push(wh)) =~= texts(out@) + seq![wh@]);
            }
            out.push(wh);
        } else {
            proof {
                assert(texts(out@) + Seq::<Seq<char>>::empty() =~= texts(out@));
            }
        }
        let ghost first = texts(out@);
        let types = param_idents(generics, GenericParamKind::Type);
        let ghost idents = texts(types@);
        let mut i: usize = 0;
        proof {
            assert(texts(out@) =~= first + idents.take(0).map_values(
                |i: Seq<char>| self@.parse_bound(i),
            ));
        }
        while i < types.len()
            invariant
                i <= types.len(),
                idents == texts(types@),
                texts(out@) == first + idents.take(i as int).map_values(
                    |i: Seq<char>| self@.parse_bound(i),
                ),
            decreases types.len() - i,
        {
            let dep = self.parse_bound(types[i].as_str());
            proof {
                let before = idents.take(i as int).map_values(|i: Seq<char>| self@.parse_bound(i));
                let after = idents.take(i as int + 1).map_values(
                    |i: Seq<char>| self@.parse_bound(i),
                );
                assert(idents.take(i as int + 1) =~= idents.take(i as int).push(idents[i as int]));
                assert(after =~= before.push(dep@));
                assert(texts(out@.push(dep)) =~= texts(out@).push(dep@));
                assert((first + before).push(dep@) =~= first + after);
            }
            out.push(dep);
            i += 1;
        }
        proof {
            assert(idents.take(types.len() as int) =~= idents);
        }
        let ghost second = texts(out@);
        match self {
            Generated::Struct(g) => match &g.impl_where_predicates {
                Some(v) => {
                    let mut extra = duplicate_strings(v);
                    proof {
                        assert(texts(out@ + extra@) =~= texts(out@) + texts(extra@));
                    }
                    out.append(&mut extra);
                },
                None => {
                    proof {
                        assert(second + Seq::<Seq<char>>::empty() =~= second);
                    }
                },
            },
            _ => {
                proof {
                    assert(second + Seq::<Seq<char>>::empty() =~= second);
                }
            },
        }
        let ghost third = texts(out@);
        if config.generic_errors && !(self.extra_args().is_some()
            || config.selector_type.is_some()) {
            let mut wh = String::from_str(config.error_name());
            wh.append(": nom::error::ParseError<&");
            wh.append(config.lifetime_name());
            wh.append(" [u8]>");
            proof {
                assert(texts(out@.push(wh)) =~= third + seq![wh@]);
            }
            out.push(wh);
        } else {
            proof {
                assert(third + Seq::<Seq<char>>::empty() =~= third);
            }
        }
        out
    }

    fn self_type(&self) -> (r: String)
        ensures
            r@ == self@.self_type(),
    {
        let generics = self.orig_generics();
        if generics.params.len() == 0 {
            return self.name().clone();
        }
        let mut idents: Vec<String> = Vec::new();
        let mut i: usize = 0;
        while i < generics.params.len()
            invariant
                i <= generics.params.len(),
                idents.len() == i,
                forall|j: int| 0 <= j < i ==> idents[j]@ == generics.params[j].ident@,
            decreases generics.params.len() - i,
        {
            idents.push(generics.params[i].ident.clone());
            i += 1;
        }
        proof {
            assert(texts(idents@) =~= generics@.params.map_values(|p: GenericParamView| p.ident));
        }
        let mut out = self.name().clone();
        out.append("<");
        out.append(join(&idents, ", ").as_str());
        out.append(">");
        out
    }

    fn trait_tokens(&self) -> (r: String)
        ensures
            r@ == self@.trait_tokens(),
    {
        let config = self.config();
        if self.extra_args().is_some() || config.selector_type.is_some() {
            return String::new();
        }
        let mut out = String::from_str("nom_derive::Parse<&");
        out.append(config.lifetime_name());
        out.append(" [u8], ");
        if config.generic_errors {
            out.append(config.error_name());
        } else {
            let mut error = String::from_str("nom::error::Error<&");
            error.append(config.lifetime_name());
            error.append(" [u8]>");
            out.append(error.as_str());
        }
        out.append("> for ");
        out
    }

    /// Writes the `impl` block with the three decoding functions.
    pub fn gen_impl(&self) -> (r: Result<String, MetaError>)
        ensures
            match r {
                Ok(s) => self@.impl_tokens() == Ok::<Seq<char>, MetaErrorView>(s@),
                Err(e) => self@.impl_tokens() == Err::<Seq<char>, MetaErrorView>(e@),
            },
    {
        let tokens_parse = self.gen_parse()?;
        let tokens_parse_be = self.gen_parse_be()?;
        let tokens_parse_le = self.gen_parse_le()?;
        let mut out = String::from_str("impl<");
        out.append(join(&self.impl_params(), ", ").as_str());
        out.append("> ");
        out.append(self.trait_tokens().as_str());
        out.append(self.self_type().as_str());
        out.append(" where ");
        out.append(join(&self.where_predicates(), ", ").as_str());
        out.append(" { ");
        out.append(tokens_parse_be.as_str());
        out.append(tokens_parse_le.as_str());
        out.append(tokens_parse.as_str());
        out.append("}");
        Ok(out)
    }
}

/// The code generated for the declaration `ast` by the entry point of
/// byte order `endianness`, or the first error in the declaration.
pub open spec fn gen_impl_spec(ast: DeriveInput, endianness: ParserEndianness) -> Result<
    Seq<char>,
    MetaErrorView,
> {
    match from_ast_spec(ast, endianness) {
        Err(e) => Err(e),
        Ok(g) => g.impl_tokens(),
    }
}

/// Generates the `impl` block with the decoding functions of the
/// declaration `ast`.
pub fn gen_impl(ast: &DeriveInput, endianness: ParserEndianness) -> (r: Result<String, MetaError>)
    ensures
        match r {
            Ok(s) => gen_impl_spec(*ast, endianness) == Ok::<Seq<char>, MetaErrorView>(s@),
            Err(e) => gen_impl_spec(*ast, endianness) == Err::<Seq<char>, MetaErrorView>(e@),
        },
{
    let generator = Generated::from_ast(ast, endianness)?;
    generator.gen_impl()
}


/// Whether the run with the first `i` answers of `answers` stops at a
/// question to which `host` gives the next answer.
pub open spec fn asked_and_answered<H: Fn(&Request) -> Answer>(
    host: H,
    g: GeneratedView,
    entry: ParserEndianness,
    input: Seq<u8>,
    args: Seq<BindingView>,
    answers: Seq<Answer>,
    i: int,
) -> bool {
    exists|q: Request|
        #[trigger] call_ensures(host, (&q,), answers[i]) && run_spec(
            Session { input, answers: answers_view(answers.take(i)) },
            g,
            entry,
            args,
        ) == OutcomeView::Ask(q@)
}

/// Whether `answers` are what `host` answers to the questions of a run, in
/// the order of the questions.
pub open spec fn answered_by<H: Fn(&Request) -> Answer>(
    host: H,
    g: GeneratedView,
    entry: ParserEndianness,
    input: Seq<u8>,
    args: Seq<BindingView>,
    answers: Seq<Answer>,
) -> bool {
    forall|i: int|
        0 <= i < answers.len() ==> #[trigger] asked_and_answered(
            host,
            g,
            entry,
            input,
            args,
            answers,
            i,
        )
}

impl Generated {
    /// Runs the decoding procedure for the entry point of byte order
    /// `endianness` on `input`, and asks `host` each question that the run
    /// stops at, up to `limit` questions.
    ///
    /// The result is that of the run with the answers of `host`, or
    /// `None` where the run stops at one question more than `limit`.
    pub fn decode_with<H: Fn(&Request) -> Answer>(
        &self,
        endianness: ParserEndianness,
        input: &[u8],
        args: &Vec<Binding>,
        host: H,
        limit: usize,
    ) -> (r: Option<Result<(usize, Value), DecodeError>>)
        requires
            is_fixed(endianness),
            forall|q: &Request| call_requires(host, (q,)),
        ensures
            exists|answers: Seq<Answer>|
                answers.len() <= limit && #[trigger] answered_by(
                    host,
                    self@,
                    endianness,
                    input@,
                    bindings_view(args@),
                    answers,
                ) && match r {
                    Some(result) => run_spec(
                        Session { input: input@, answers: answers_view(answers) },
                        self@,
                        endianness,
                        bindings_view(args@),
                    ) == Outcome::Done(result)@,
                    None => answers.len() == limit && run_spec(
                        Session { input: input@, answers: answers_view(answers) },
                        self@,
                        endianness,
                        bindings_view(args@),
                    ) is Ask,
                },
    {
        let ghost g = self@;
        let ghost scope = bindings_view(args@);
        let mut answers: Vec<Answer> = Vec::new();
        loop
            invariant
                is_fixed(endianness),
                forall|q: &Request| call_requires(host, (q,)),
                answers.len() <= limit,
                g == self@,
                scope == bindings_view(args@),
                answered_by(host, g, endianness, input@, scope, answers@),
            decreases limit - answers.len(),
        {
            let outcome = self.decode(endianness, input, args, answers.as_slice());
            match outcome {
                Outcome::Done(result) => {
                    return Some(result);
                },
                Outcome::Ask(q) => {
                    if answers.len() >= limit {
                        return None;
                    }
                    let a = host(&q);
                    let ghost before = answers@;
                    answers.push(a);
                    proof {
                        lemma_one_more_answer(host, g, endianness, input@, scope, before, q, a);
                    }
                },
            }
        }
    }
}

/// The answers of `host` so far, and its answer to the question that the
/// run with them stops at, are the answers of `host` to one question
/// more.
proof fn lemma_one_more_answer<H: Fn(&Request) -> Answer>(
    host: H,
    g: GeneratedView,
    entry: ParserEndianness,
    input: Seq<u8>,
    args: Seq<BindingView>,
    before: Seq<Answer>,
    q: Request,
    a: Answer,
)
    requires
        answered_by(host, g, entry, input, args, before),
        run_spec(Session { input, answers: answers_view(before) }, g, entry, args)
            == OutcomeView::Ask(q@),
        call_ensures(host, (&q,), a),
    ensures
        answered_by(host, g, entry, input, args, before.push(a)),
{
    let after = before.push(a);
    assert forall|i: int| 0 <= i < after.len() implies #[trigger] asked_and_answered(
        host,
        g,
        entry,
        input,
        args,
        after,
        i,
    ) by {
        if i < before.len() {
            assert(asked_and_answered(host, g, entry, input, args, before, i));
            assert(after.take(i) =~= before.take(i));
            assert(after[i] == before[i]);
        } else {
            assert(after.take(i) =~= before);
            assert(call_ensures(host, (&q,), after[i]));
        }
    }
}

} // verus!
