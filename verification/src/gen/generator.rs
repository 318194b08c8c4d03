//! What the three generators share: the generics of the declaration and
//! the settings read from its attributes.

use vstd::prelude::*;
use crate::config::{from_meta_list_spec, Config, ConfigView};
use crate::endian::{
    endian_conflict_spec, last_endian_span, local_endianness_spec, most_specific,
    set_object_endianness, validate_endianness, validate_endianness_spec, ParserEndianness,
};
use crate::meta::attr::{attrs_view, find_attr, first_attr, MetaAttr, MetaAttrType, MetaAttrView};
use crate::meta::error::{ErrorKind, MetaError, MetaErrorView, Span};
use crate::meta::{parse_attributes_spec, parse_nom_top_level_attribute, Attribute, Scope};
use crate::endian::{get_object_endianness, is_fixed, object_endianness_spec};
use crate::meta::syntax::{duplicate_extra_args, extra_args_view, ExtraArg, ExtraArgView};
use crate::structs::{
    get_pre_post_exec, get_pre_post_exec_spec, parsers_view, steps_to_tokens, steps_tokens_spec,
    steps_view, Step, StepView, StructParser, StructParserTree, StructParserTreeView,
    StructParserView,
};
use crate::text::{join, join_spec, texts};
use vstd::string::StringExecFns;

verus! {

/// The kind of a generic parameter.
#[derive(Clone, Copy, Debug, PartialEq, Eq, Structural)]
pub enum GenericParamKind {
    Lifetime,
    Type,
    Const,
}

/// One generic parameter of a declaration.
#[derive(Debug, PartialEq, Eq)]
pub struct GenericParam {
    pub kind: GenericParamKind,
    /// The name of the parameter: `'a`, `T`, `N`.
    pub ident: String,
    /// The parameter as it is declared, with its bounds: `T: Clone`.
    pub tokens: String,
}

/// What a `GenericParam` holds, as plain values.
pub struct GenericParamView {
    pub kind: GenericParamKind,
    pub ident: Seq<char>,
    pub tokens: Seq<char>,
}

impl View for GenericParam {
    type V = GenericParamView;

    open spec fn view(&self) -> GenericParamView {
        GenericParamView { kind: self.kind, ident: self.ident@, tokens: self.tokens@ }
    }
}

/// The generic parameters of a declaration and the predicates of its
/// `where` clause.
#[derive(Debug, PartialEq, Eq)]
pub struct Generics {
    pub params: Vec<GenericParam>,
    pub where_predicates: Vec<String>,
}

/// What a `Generics` holds, as plain values.
pub struct GenericsView {
    pub params: Seq<GenericParamView>,
    pub where_predicates: Seq<Seq<char>>,
}

impl View for Generics {
    type V = GenericsView;

    open spec fn view(&self) -> GenericsView {
        GenericsView {
            params: self.params@.map_values(|p: GenericParam| p@),
            where_predicates: texts(self.where_predicates@),
        }
    }
}

/// A copy of a list of strings.
pub fn duplicate_strings(list: &Vec<String>) -> (r: Vec<String>)
    ensures
        texts(r@) == texts(list@),
{
    let mut out: Vec<String> = Vec::new();
    let mut i: usize = 0;
    while i < list.len()
        invariant
            i <= list.len(),
            out.len() == i,
            forall|j: int| 0 <= j < i ==> out[j]@ == list[j]@,
        decreases list.len() - i,
    {
        out.push(list[i].clone());
        i += 1;
    }
    proof {
        assert(texts(out@) =~= texts(list@));
    }
    out
}

impl Generics {
    /// No parameters and no predicates.
    pub fn none() -> (r: Generics)
        ensures
            r@ == (GenericsView { params: Seq::empty(), where_predicates: Seq::empty() }),
    {
        let r = Generics { params: Vec::new(), where_predicates: Vec::new() };
        proof {
            assert(r@.params =~= Seq::empty());
            assert(r@.where_predicates =~= Seq::empty());
        }
        r
    }

    /// A copy of the generics.
    pub fn duplicate(&self) -> (r: Generics)
        ensures
            r@ == self@,
    {
        let mut params: Vec<GenericParam> = Vec::new();
        let mut i: usize = 0;
        while i < self.params.len()
            invariant
                i <= self.params.len(),
                params.len() == i,
                forall|j: int| 0 <= j < i ==> params[j]@ == self.params[j]@,
            decreases self.params.len() - i,
        {
            let p = &self.params[i];
            params.push(
                GenericParam { kind: p.kind, ident: p.ident.clone(), tokens: p.tokens.clone() },
            );
            i += 1;
        }
        let r = Generics { params, where_predicates: duplicate_strings(&self.where_predicates) };
        proof {
            assert(r@.params =~= self@.params);
        }
        r
    }
}

/// The settings of a struct or an enum, read from its own attributes.
#[derive(Debug, PartialEq, Eq)]
pub struct TopLevel {
    pub meta: Vec<MetaAttr>,
    pub config: Config,
    /// The extra arguments of the decoding functions.
    pub extra_args: Option<Vec<ExtraArg>>,
    /// The steps run before the first field.
    pub tl_pre: Vec<Step>,
    /// The steps run after the value is built.
    pub tl_post: Vec<Step>,
}

/// What a `TopLevel` holds, as plain values.
pub struct TopLevelView {
    pub meta: Seq<MetaAttrView>,
    pub config: ConfigView,
    pub extra_args: Option<Seq<ExtraArgView>>,
    pub tl_pre: Seq<StepView>,
    pub tl_post: Seq<StepView>,
}

impl View for TopLevel {
    type V = TopLevelView;

    open spec fn view(&self) -> TopLevelView {
        TopLevelView {
            meta: attrs_view(self.meta@),
            config: self.config@,
            extra_args: extra_view(self.extra_args),
            tl_pre: steps_view(self.tl_pre@),
            tl_post: steps_view(self.tl_post@),
        }
    }
}

/// The settings of the struct or enum `name` with attributes `attrs`, for
/// the entry point of byte order `endianness`.
///
/// The attributes must be valid for a struct or an enum, and must not ask
/// for two byte orders. The byte order of the object is the one its
/// attributes ask for, else the one of the entry point; together they must
/// not ask for both big and little, nor for a byte order chosen at run time
/// beside a fixed one.
pub open spec fn top_level_spec(name: Seq<char>, attrs: Seq<Attribute>, endianness: ParserEndianness)
    -> Result<TopLevelView, MetaErrorView> {
    match parse_attributes_spec(attrs, Scope::TopLevel) {
        Err(e) => Err(e),
        Ok(meta) => match from_meta_list_spec(name, meta) {
            Err(e) => Err(e),
            Ok(config) => if endian_conflict_spec(meta) {
                Err(
                    MetaErrorView {
                        kind: ErrorKind::EndianConflict,
                        span: last_endian_span(meta).unwrap(),
                        detail: Seq::empty(),
                    },
                )
            } else {
                let object = most_specific(local_endianness_spec(meta), endianness);
                match validate_endianness_spec(endianness, object, config.global_endianness) {
                    Some(kind) => Err(
                        MetaErrorView { kind, span: Span::call_site_spec(), detail: Seq::empty() },
                    ),
                    None => match get_pre_post_exec_spec(meta) {
                        Err(e) => Err(e),
                        Ok((pre, post)) => Ok(
                            TopLevelView {
                                meta,
                                config: ConfigView { object_endianness: object, ..config },
                                extra_args: get_extra_args_spec(meta),
                                tl_pre: pre,
                                tl_post: post,
                            },
                        ),
                    },
                }
            },
        },
    }
}

/// The extra arguments as plain values.
pub open spec fn extra_view(extra: Option<Vec<ExtraArg>>) -> Option<Seq<ExtraArgView>> {
    match extra {
        Some(v) => Some(extra_args_view(v@)),
        None => None,
    }
}

/// The extra arguments that the attributes give: those of the first
/// `ExtraArgs` attribute.
pub open spec fn get_extra_args_spec(list: Seq<MetaAttrView>) -> Option<Seq<ExtraArgView>> {
    match first_attr(list, MetaAttrType::ExtraArgs) {
        Some(a) => if a.arg.is_some() {
            Some(a.fn_args)
        } else {
            None
        },
        None => None,
    }
}

/// A copy of the extra arguments that the attributes give.
pub fn get_extra_args(meta_list: &[MetaAttr]) -> (r: Option<Vec<ExtraArg>>)
    ensures
        extra_view(r) == get_extra_args_spec(attrs_view(meta_list@)),
{
    match find_attr(meta_list, MetaAttrType::ExtraArgs) {
        Some(a) => match &a.arg0 {
            Some(_) => Some(duplicate_extra_args(&a.fn_args)),
            None => None,
        },
        None => None,
    }
}

impl TopLevel {
    /// Reads the settings of the struct or enum `name` from its
    /// attributes.
    pub fn from_attrs(name: &String, name_span: Span, attrs: &[Attribute], endianness: ParserEndianness)
        -> (r: Result<TopLevel, MetaError>)
        ensures
            match r {
                Ok(t) => top_level_spec(name@, attrs@, endianness) == Ok::<
                    TopLevelView,
                    MetaErrorView,
                >(t@),
                Err(e) => top_level_spec(name@, attrs@, endianness) == Err::<
                    TopLevelView,
                    MetaErrorView,
                >(e@),
            },
    {
        let meta = parse_nom_top_level_attribute(attrs)?;
        let mut config = Config::from_meta_list(name.clone(), meta.as_slice())?;
        set_object_endianness(name_span, endianness, meta.as_slice(), &mut config)?;
        let extra_args = get_extra_args(meta.as_slice());
        match validate_endianness(endianness, config.object_endianness, config.global_endianness) {
            Ok(()) => {},
            Err(e) => {
                return Err(e);
            },
        }
        let (tl_pre, tl_post) = get_pre_post_exec(meta.as_slice())?;
        Ok(TopLevel { meta, config, extra_args, tl_pre, tl_post })
    }
}


/// The statements that read the field planned by `sp`: the steps before
/// it, the parser applied to the input and bound to the name of the field,
/// the steps after it.
pub open spec fn field_tokens_spec(sp: StructParserView, config: ConfigView, entry: ParserEndianness)
    -> Seq<char> {
    steps_tokens_spec(sp.pre_exec, config) + "let ("@ + config.input_name + ", "@ + sp.name
        + ") = "@ + sp.item.expr.with_endianness(entry).tokens() + "("@ + config.input_name
        + ")?; "@ + steps_tokens_spec(sp.post_exec, config)
}

/// The statements that read the fields planned by `parsers`, in order.
pub open spec fn fields_tokens_spec(
    parsers: Seq<StructParserView>,
    config: ConfigView,
    entry: ParserEndianness,
) -> Seq<char>
    decreases parsers.len(),
{
    if parsers.len() == 0 {
        Seq::empty()
    } else {
        fields_tokens_spec(parsers.drop_last(), config, entry) + field_tokens_spec(
            parsers.last(),
            config,
            entry,
        )
    }
}

/// The names that the fields planned by `parsers` are bound to.
pub open spec fn bound_names_spec(parsers: Seq<StructParserView>) -> Seq<Seq<char>> {
    parsers.map_values(|p: StructParserView| p.name)
}

/// The expression that builds the value named `name` from the fields
/// planned by `tree`: the bare name for a struct without fields, the name
/// and the fields in parentheses for a tuple, the name and the fields in
/// braces else.
pub open spec fn constructor_spec(name: Seq<char>, tree: StructParserTreeView) -> Seq<char> {
    if tree.empty {
        name
    } else if tree.unnamed {
        name + "("@ + join_spec(bound_names_spec(tree.parsers), ", "@) + ")"@
    } else {
        name + " { "@ + join_spec(bound_names_spec(tree.parsers), ", "@) + " }"@
    }
}

/// Writes the statements that read the field planned by `sp`.
pub fn field_to_tokens(sp: &StructParser, config: &Config, entry: ParserEndianness) -> (r: String)
    requires
        is_fixed(entry),
    ensures
        r@ == field_tokens_spec(sp@, config@, entry),
{
    let mut out = steps_to_tokens(&sp.pre_exec, config);
    out.append("let (");
    out.append(config.input_name());
    out.append(", ");
    out.append(sp.name.as_str());
    out.append(") = ");
    out.append(sp.item.with_endianness(entry).to_tokens().as_str());
    out.append("(");
    out.append(config.input_name());
    out.append(")?; ");
    out.append(steps_to_tokens(&sp.post_exec, config).as_str());
    out
}

/// Writes the statements that read the fields planned by `parsers`.
pub fn fields_to_tokens(parsers: &Vec<StructParser>, config: &Config, entry: ParserEndianness)
    -> (r: String)
    requires
        is_fixed(entry),
    ensures
        r@ == fields_tokens_spec(parsers_view(parsers@), config@, entry),
{
    let ghost views = parsers_view(parsers@);
    let mut out = String::new();
    let mut i: usize = 0;
    while i < parsers.len()
        invariant
            is_fixed(entry),
            i <= parsers.len(),
            views == parsers_view(parsers@),
            out@ == fields_tokens_spec(views.take(i as int), config@, entry),
        decreases parsers.len() - i,
    {
        proof {
            assert(views.take(i as int + 1).drop_last() =~= views.take(i as int));
            assert(views.take(i as int + 1).last() == parsers[i as int]@);
        }
        out.append(field_to_tokens(&parsers[i], config, entry).as_str());
        i += 1;
    }
    proof {
        assert(views.take(parsers.len() as int) =~= views);
    }
    out
}

/// Writes the expression that builds the value named `name`.
pub fn constructor(name: &str, tree: &StructParserTree) -> (r: String)
    ensures
        r@ == constructor_spec(name@, tree@),
{
    if tree.empty {
        return String::from_str(name);
    }
    let mut names: Vec<String> = Vec::new();
    let mut i: usize = 0;
    while i < tree.parsers.len()
        invariant
            i <= tree.parsers.len(),
            names.len() == i,
            forall|j: int| 0 <= j < i ==> names[j]@ == tree.parsers[j].name@,
        decreases tree.parsers.len() - i,
    {
        names.push(tree.parsers[i].name.clone());
        i += 1;
    }
    proof {
        assert(texts(names@) =~= bound_names_spec(tree@.parsers));
    }
    let mut out = String::from_str(name);
    if tree.unnamed {
        out.append("(");
        out.append(join(&names, ", ").as_str());
        out.append(")");
    } else {
        out.append(" { ");
        out.append(join(&names, ", ").as_str());
        out.append(" }");
    }
    out
}


/// The extra arguments of the decoding functions, in order.
pub open spec fn extra_list_spec(extra: Option<Seq<ExtraArgView>>) -> Seq<ExtraArgView> {
    match extra {
        Some(args) => args,
        None => Seq::empty(),
    }
}

/// The first arguments of every decoding function: the input, then the
/// selector where the declaration has one.
pub open spec fn leading_args_spec(config: ConfigView) -> Seq<Seq<char>> {
    let input = config.orig_input_name + ": &"@ + config.lifetime_name + " [u8]"@;
    match (config.selector_type, config.selector_name) {
        (Some(ty), Some(name)) => seq![input, name + ": "@ + ty],
        (Some(ty), None) => seq![input, "selector"@ + ": "@ + ty],
        _ => seq![input],
    }
}

/// The arguments of the decoding functions as they are declared: the
/// input, the selector, then the extra arguments.
pub open spec fn fn_args_spec(extra: Option<Seq<ExtraArgView>>, config: ConfigView) -> Seq<
    Seq<char>,
> {
    leading_args_spec(config) + extra_list_spec(extra).map_values(|a: ExtraArgView| a.2)
}

/// The first arguments of a call of a decoding function.
pub open spec fn leading_call_args_spec(config: ConfigView) -> Seq<Seq<char>> {
    match config.selector_name {
        Some(name) => seq![config.orig_input_name, name],
        None => seq![config.orig_input_name],
    }
}

/// The names of the extra arguments `args`, after those of `acc`. An
/// argument that is a form of `self`, or whose pattern is no identifier,
/// is an error.
pub open spec fn arg_names_spec(args: Seq<ExtraArgView>, acc: Seq<Seq<char>>) -> Result<
    Seq<Seq<char>>,
    MetaErrorView,
>
    decreases args.len(),
{
    if args.len() == 0 {
        Ok(acc)
    } else {
        match args[0] {
            (Some(name), false, _) => arg_names_spec(args.skip(1), acc.push(name)),
            (_, _, tokens) => Err(
                MetaErrorView {
                    kind: ErrorKind::InvalidExtraArgs,
                    span: Span::call_site_spec(),
                    detail: tokens,
                },
            ),
        }
    }
}

/// The arguments with which one decoding function calls another: the
/// input, the selector, then the names of the extra arguments.
pub open spec fn call_args_spec(extra: Option<Seq<ExtraArgView>>, config: ConfigView) -> Result<
    Seq<Seq<char>>,
    MetaErrorView,
> {
    arg_names_spec(extra_list_spec(extra), leading_call_args_spec(config))
}

/// Whether the decoding functions stand outside the `Parse` trait: they
/// take a selector or extra arguments.
pub open spec fn is_special_case(extra: Option<Seq<ExtraArgView>>, config: ConfigView) -> bool {
    extra.is_some() || config.selector_type.is_some()
}

/// The name of the decoding function for the byte order `endianness`.
pub open spec fn fn_name_spec(endianness: ParserEndianness) -> Seq<char> {
    match endianness {
        ParserEndianness::BigEndian => "parse_be"@,
        ParserEndianness::LittleEndian => "parse_le"@,
        _ => "parse"@,
    }
}

/// The predicates on the error type of a decoding function that stands
/// outside the trait.
pub open spec fn error_bounds_spec(config: ConfigView) -> Seq<char> {
    config.error_name + ": nom_derive::nom::error::ParseError<&"@ + config.lifetime_name
        + " [u8]>, "@ + config.error_name + ": std::fmt::Debug"@
}

/// The declaration of the decoding function for the byte order
/// `endianness`, up to its body.
pub open spec fn gen_fn_decl_spec(
    endianness: ParserEndianness,
    extra: Option<Seq<ExtraArgView>>,
    config: ConfigView,
) -> Seq<char> {
    let special = is_special_case(extra, config);
    let scope = if special {
        "pub "@
    } else {
        Seq::empty()
    };
    let head = scope + "fn "@ + fn_name_spec(endianness);
    let params = "("@ + join_spec(fn_args_spec(extra, config), ", "@) + ") -> nom::IResult<&"@
        + config.lifetime_name + " [u8], Self"@;
    if config.generic_errors {
        if special {
            head + "<"@ + config.error_name + ">"@ + params + ", "@ + config.error_name
                + "> where "@ + error_bounds_spec(config)
        } else {
            head + params + ", "@ + config.error_name + "> where "@
        }
    } else {
        head + params + "> where "@
    }
}

/// Whether the decoding function for the byte order `endianness` has a
/// body of its own. Where the byte order of the declaration is fixed, the
/// function for the other byte order calls the one for the fixed byte
/// order.
pub open spec fn has_impl_for_endianness_spec(config: ConfigView, endianness: ParserEndianness)
    -> bool {
    let resolved = object_endianness_spec(config);
    !(is_fixed(resolved) && resolved != endianness)
}

/// The extra arguments, in order.
fn extra_list(extra: &Option<Vec<ExtraArg>>) -> (r: Vec<ExtraArg>)
    ensures
        extra_args_view(r@) == extra_list_spec(extra_view(*extra)),
{
    match extra {
        Some(v) => duplicate_extra_args(v),
        None => {
            let v: Vec<ExtraArg> = Vec::new();
            proof {
                assert(extra_args_view(v@) =~= Seq::empty());
            }
            v
        },
    }
}

/// Lists the arguments of the decoding functions as they are declared.
pub fn get_fn_args(extra: &Option<Vec<ExtraArg>>, config: &Config) -> (r: Vec<String>)
    ensures
        texts(r@) == fn_args_spec(extra_view(*extra), config@),
{
    let args = extra_list(extra);
    let mut fn_args: Vec<String> = Vec::new();
    let mut input = String::from_str(config.orig_input_name());
    input.append(": &");
    input.append(config.lifetime_name());
    input.append(" [u8]");
    fn_args.push(input);
    match &config.selector_type {
        Some(ty) => {
            let mut selector = match &config.selector_name {
                Some(name) => name.clone(),
                None => String::from_str("selector"),
            };
            selector.append(": ");
            selector.append(ty.as_str());
            fn_args.push(selector);
        },
        None => {},
    }
    let ghost leading = texts(fn_args@);
    proof {
        let expected = leading_args_spec(config@);
        assert(leading.len() == expected.len());
        assert(leading[0] == expected[0]);
        if leading.len() > 1 {
            assert(leading[1] == expected[1]);
        }
        assert(leading =~= expected);
    }
    let ghost views = extra_args_view(args@);
    let mut i: usize = 0;
    proof {
        assert(texts(fn_args@) =~= leading + views.take(0).map_values(|a: ExtraArgView| a.2));
    }
    while i < args.len()
        invariant
            i <= args.len(),
            views == extra_args_view(args@),
            texts(fn_args@) == leading + views.take(i as int).map_values(|a: ExtraArgView| a.2),
        decreases args.len() - i,
    {
        let tokens = args[i].tokens.clone();
        proof {
            let before = views.take(i as int).map_values(|a: ExtraArgView| a.2);
            let after = views.take(i as int + 1).map_values(|a: ExtraArgView| a.2);
            assert(views.take(i as int + 1) =~= views.take(i as int).push(views[i as int]));
            assert(after =~= before.push(views[i as int].2));
            assert(texts(fn_args@.push(tokens)) =~= texts(fn_args@).push(tokens@));
            assert((leading + before).push(tokens@) =~= leading + after);
        }
        fn_args.push(tokens);
        i += 1;
    }
    proof {
        assert(views.take(args.len() as int) =~= views);
    }
    fn_args
}

/// Lists the arguments with which one decoding function calls another.
pub fn get_call_args(extra: &Option<Vec<ExtraArg>>, config: &Config) -> (r: Result<
    Vec<String>,
    MetaError,
>)
    ensures
        match r {
            Ok(v) => call_args_spec(extra_view(*extra), config@) == Ok::<
                Seq<Seq<char>>,
                MetaErrorView,
            >(texts(v@)),
            Err(e) => call_args_spec(extra_view(*extra), config@) == Err::<
                Seq<Seq<char>>,
                MetaErrorView,
            >(e@),
        },
{
    let args = extra_list(extra);
    let mut call_args: Vec<String> = Vec::new();
    call_args.push(String::from_str(config.orig_input_name()));
    match &config.selector_name {
        Some(name) => {
            call_args.push(name.clone());
        },
        None => {},
    }
    let ghost views = extra_args_view(args@);
    let ghost leading = leading_call_args_spec(config@);
    proof {
        assert(texts(call_args@).len() == leading.len());
        assert(texts(call_args@)[0] == leading[0]);
        if leading.len() > 1 {
            assert(texts(call_args@)[1] == leading[1]);
        }
        assert(texts(call_args@) =~= leading);
    }
    let mut i: usize = 0;
    proof {
        assert(views.skip(0) =~= views);
    }
    while i < args.len()
        invariant
            i <= args.len(),
            views == extra_args_view(args@),
            leading == leading_call_args_spec(config@),
            views == extra_list_spec(extra_view(*extra)),
            arg_names_spec(views, leading) == arg_names_spec(
                views.skip(i as int),
                texts(call_args@),
            ),
        decreases args.len() - i,
    {
        proof {
            assert(views.skip(i as int).skip(1) =~= views.skip(i as int + 1));
            assert(views.skip(i as int)[0] == args[i as int]@);
        }
        match &args[i].name {
            Some(name) => {
                if args[i].receiver {
                    return Err(
                        MetaError::new(
                            ErrorKind::InvalidExtraArgs,
                            Span::call_site(),
                            args[i].tokens.clone(),
                        ),
                    );
                }
                let n = name.clone();
                proof {
                    assert(texts(call_args@.push(n)) =~= texts(call_args@).push(n@));
                }
                call_args.push(n);
            },
            None => {
                return Err(
                    MetaError::new(
                        ErrorKind::InvalidExtraArgs,
                        Span::call_site(),
                        args[i].tokens.clone(),
                    ),
                );
            },
        }
        i += 1;
    }
    Ok(call_args)
}

/// Writes the predicates on the error type of a decoding function that
/// stands outside the trait.
pub fn error_bounds(config: &Config) -> (r: String)
    ensures
        r@ == error_bounds_spec(config@),
{
    let mut out = String::from_str(config.error_name());
    out.append(": nom_derive::nom::error::ParseError<&");
    out.append(config.lifetime_name());
    out.append(" [u8]>, ");
    out.append(config.error_name());
    out.append(": std::fmt::Debug");
    out
}

/// Writes the declaration of the decoding function for the byte order
/// `endianness`, up to its body.
pub fn gen_fn_decl(endianness: ParserEndianness, extra: &Option<Vec<ExtraArg>>, config: &Config)
    -> (r: String)
    ensures
        r@ == gen_fn_decl_spec(endianness, extra_view(*extra), config@),
{
    let fn_args = get_fn_args(extra, config);
    let special_case = extra.is_some() || config.selector_type().is_some();
    let mut head = if special_case {
        String::from_str("pub ")
    } else {
        String::new()
    };
    head.append("fn ");
    head.append(
        match endianness {
            ParserEndianness::BigEndian => "parse_be",
            ParserEndianness::LittleEndian => "parse_le",
            _ => "parse",
        },
    );
    let mut params = String::from_str("(");
    params.append(join(&fn_args, ", ").as_str());
    params.append(") -> nom::IResult<&");
    params.append(config.lifetime_name());
    params.append(" [u8], Self");
    let mut out = head;
    if config.generic_errors {
        if special_case {
            out.append("<");
            out.append(config.error_name());
            out.append(">");
            out.append(params.as_str());
            out.append(", ");
            out.append(config.error_name());
            out.append("> where ");
            out.append(error_bounds(config).as_str());
        } else {
            out.append(params.as_str());
            out.append(", ");
            out.append(config.error_name());
            out.append("> where ");
        }
    } else {
        out.append(params.as_str());
        out.append("> where ");
    }
    out
}

/// Whether the decoding function for the byte order `endianness` has a
/// body of its own.
pub fn has_impl_for_endianness(config: &Config, endianness: ParserEndianness) -> (r: bool)
    ensures
        r == has_impl_for_endianness_spec(config@, endianness),
{
    let resolved = get_object_endianness(config);
    match resolved {
        ParserEndianness::BigEndian | ParserEndianness::LittleEndian => resolved == endianness,
        _ => true,
    }
}

} // verus!
