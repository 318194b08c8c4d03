//! The inference of a parser expression for each field of a struct.

use vstd::prelude::*;
use vstd::slice::slice_subrange;
use vstd::string::StringExecFns;
use crate::config::{Config, ConfigView};
use crate::endian::{
    get_local_endianness, get_local_endianness_spec, object_endianness_spec, ParserEndianness,
};
use crate::meta::attr::{
    attrs_view, contains_attr, has_attr, Meta, MetaAttr, MetaAttrType, MetaAttrView,
};
use crate::meta::error::{ErrorKind, MetaError, MetaErrorView, Span};
use crate::meta::{parse_attributes_spec, parse_nom_attribute, Attribute, Scope};
use crate::parsertree::{
    ParserExpr, ParserExprView, ParserTreeItem, ParserTreeItemView, TypeItem,
};
use crate::text::{concat, decimal, str_eq, usize_to_string};
use crate::types::{get_type_first_ident, Type, TypeView};

verus! {

/// One field of a struct or of a variant.
#[derive(Debug, PartialEq, Eq)]
pub struct Field {
    /// The name of the field; `None` for a field of a tuple.
    pub ident: Option<String>,
    pub ty: Type,
    pub attrs: Vec<Attribute>,
}

/// The fields of a struct or of a variant.
#[derive(Debug, PartialEq, Eq)]
pub enum Fields {
    /// `{ a: A, b: B }`
    Named(Vec<Field>),
    /// `(A, B)`
    Unnamed(Vec<Field>),
    /// No fields at all.
    Unit,
}

impl Fields {
    /// The fields in the order of their declaration.
    pub open spec fn list(self) -> Seq<Field> {
        match self {
            Fields::Named(v) => v@,
            Fields::Unnamed(v) => v@,
            Fields::Unit => Seq::empty(),
        }
    }
}

/// A step run before or after a field is read, or before or after the
/// whole struct.
#[derive(Debug, PartialEq, Eq)]
pub enum Step {
    /// Runs a statement of the host language.
    Exec(String),
    /// Skips to the next multiple of the given number of bytes, counted
    /// from the start of the input. The number must not be zero: the
    /// statement written for the step divides by it.
    Align(String),
    /// Skips the given number of bytes.
    Skip(String),
    /// Moves by the given signed offset.
    Move(String),
    /// Moves to the given offset from the start of the input.
    MoveAbs(String),
    /// Fails when the condition holds.
    ErrorIf(String),
    /// Fails when input is left.
    Exact,
    /// Chooses the byte order at run time.
    SetEndian(String),
}

/// What a `Step` holds, as plain values.
pub enum StepView {
    Exec(Seq<char>),
    Align(Seq<char>),
    Skip(Seq<char>),
    Move(Seq<char>),
    MoveAbs(Seq<char>),
    ErrorIf(Seq<char>),
    Exact,
    SetEndian(Seq<char>),
}

impl View for Step {
    type V = StepView;

    open spec fn view(&self) -> StepView {
        match self {
            Step::Exec(s) => StepView::Exec(s@),
            Step::Align(s) => StepView::Align(s@),
            Step::Skip(s) => StepView::Skip(s@),
            Step::Move(s) => StepView::Move(s@),
            Step::MoveAbs(s) => StepView::MoveAbs(s@),
            Step::ErrorIf(s) => StepView::ErrorIf(s@),
            Step::Exact => StepView::Exact,
            Step::SetEndian(s) => StepView::SetEndian(s@),
        }
    }
}

/// The views of a list of steps, in order.
pub open spec fn steps_view(steps: Seq<Step>) -> Seq<StepView> {
    steps.map_values(|s: Step| s@)
}

/// The plan for one field: the name it is bound to, its parser expression,
/// and the steps run before and after it.
#[derive(Debug, PartialEq, Eq)]
pub struct StructParser {
    pub name: String,
    pub item: ParserTreeItem,
    pub pre_exec: Vec<Step>,
    pub post_exec: Vec<Step>,
}

/// What a `StructParser` holds, as plain values.
pub struct StructParserView {
    pub name: Seq<char>,
    pub item: ParserTreeItemView,
    pub pre_exec: Seq<StepView>,
    pub post_exec: Seq<StepView>,
}

impl View for StructParser {
    type V = StructParserView;

    open spec fn view(&self) -> StructParserView {
        StructParserView {
            name: self.name@,
            item: self.item@,
            pre_exec: steps_view(self.pre_exec@),
            post_exec: steps_view(self.post_exec@),
        }
    }
}

impl StructParser {
    pub fn new(name: String, item: ParserTreeItem, pre_exec: Vec<Step>, post_exec: Vec<Step>) -> (r:
        StructParser)
        ensures
            r.name == name,
            r.item == item,
            r.pre_exec == pre_exec,
            r.post_exec == post_exec,
    {
        StructParser { name, item, pre_exec, post_exec }
    }
}

/// The views of a list of field plans, in order.
pub open spec fn parsers_view(parsers: Seq<StructParser>) -> Seq<StructParserView> {
    parsers.map_values(|p: StructParser| p@)
}

/// The plan for a struct or a variant: one plan for each field, in the
/// order of declaration.
#[derive(Debug, PartialEq, Eq)]
pub struct StructParserTree {
    /// The struct has no fields at all.
    pub empty: bool,
    /// The fields have no names.
    pub unnamed: bool,
    pub parsers: Vec<StructParser>,
}

/// What a `StructParserTree` holds, as plain values.
pub struct StructParserTreeView {
    pub empty: bool,
    pub unnamed: bool,
    pub parsers: Seq<StructParserView>,
}

impl View for StructParserTree {
    type V = StructParserTreeView;

    open spec fn view(&self) -> StructParserTreeView {
        StructParserTreeView {
            empty: self.empty,
            unnamed: self.unnamed,
            parsers: parsers_view(self.parsers@),
        }
    }
}

/// The parser that reads a value of type `ty`, for a field whose whole
/// list of attributes is `all`: the marker for a phantom type, else a read
/// of the type in the byte order of the field.
pub open spec fn get_type_parser_spec(ty: TypeView, all: Seq<MetaAttrView>, config: ConfigView)
    -> Result<ParserExprView, MetaErrorView> {
    match ty.first_ident() {
        Err(e) => Err(e),
        Ok(ident) => if ident == "PhantomData"@ {
            Ok(ParserExprView::PhantomData)
        } else {
            match get_local_endianness_spec(ty.span(), all, config) {
                Err(e) => Err(e),
                Ok(ParserEndianness::BigEndian) => Ok(ParserExprView::CallParseBE(ty)),
                Ok(ParserEndianness::LittleEndian) => Ok(ParserExprView::CallParseLE(ty)),
                Ok(ParserEndianness::SetEndian) => Ok(ParserExprView::CallParseSet(ty)),
                Ok(ParserEndianness::Unspecified) => Ok(ParserExprView::CallParse(ty)),
            }
        },
    }
}

/// The text of the error for an attribute on a field of the wrong type.
pub open spec fn expects_text(attr: Seq<char>, expected: Seq<char>) -> Seq<char> {
    attr + " expects "@ + expected
}

/// The type `T` of a field of type `expected<T>`. Any other type is an
/// error of the attribute `attr`.
pub open spec fn get_item_subtype_spec(ty: TypeView, expected: Seq<char>, attr: Seq<char>)
    -> Result<TypeView, MetaErrorView> {
    match ty {
        TypeView::Generic { ident, argument, span } => if ident == expected {
            Ok(*argument)
        } else {
            Err(
                MetaErrorView {
                    kind: ErrorKind::UnexpectedType,
                    span,
                    detail: expects_text(attr, expected),
                },
            )
        },
        TypeView::Qualified { tokens, span } => Err(
            MetaErrorView { kind: ErrorKind::MultipleSegments, span, detail: tokens },
        ),
        _ => Err(
            MetaErrorView {
                kind: ErrorKind::UnexpectedType,
                span: ty.span(),
                detail: expects_text(attr, expected),
            },
        ),
    }
}

/// The expression of the default value of type `ty`, in the host
/// language.
pub open spec fn default_text(ty: TypeView, ident: Seq<char>) -> Seq<char> {
    if ident == "Option"@ {
        "None"@
    } else if ident == "PhantomData"@ {
        "PhantomData"@
    } else if ident == "Vec"@ {
        "Vec::new()"@
    } else {
        "<"@ + ty.tokens() + ">::default()"@
    }
}

/// The parser that reads nothing and gives the default value of `ty`.
pub open spec fn get_type_default_spec(ty: TypeView) -> Result<ParserExprView, MetaErrorView> {
    match ty.first_ident() {
        Err(e) => Err(e),
        Ok(ident) => Ok(ParserExprView::Value(default_text(ty, ident))),
    }
}

/// The argument of an attribute that takes one.
pub open spec fn required_arg_spec(meta: MetaAttrView) -> Result<Seq<char>, MetaErrorView> {
    match meta.arg {
        Some(a) => Ok(a),
        None => Err(
            MetaErrorView {
                kind: ErrorKind::MissingArgument,
                span: meta.span,
                detail: meta.attr_type.name_spec(),
            },
        ),
    }
}

/// The error for an attribute that needs the name of a field without one.
pub open spec fn unnamed_field_error(meta: MetaAttrView) -> MetaErrorView {
    MetaErrorView {
        kind: ErrorKind::UnnamedField,
        span: meta.span,
        detail: meta.attr_type.name_spec(),
    }
}

/// Whether an attribute of this kind ends the inference with a parser of
/// its own.
pub open spec fn is_terminal(kind: MetaAttrType) -> bool {
    kind == MetaAttrType::Tag || kind == MetaAttrType::Take || kind == MetaAttrType::Value || kind
        == MetaAttrType::Parse || kind == MetaAttrType::Ignore
}

/// Whether an attribute of this kind wraps the parser inferred from the
/// attributes after it.
pub open spec fn is_wrapping(kind: MetaAttrType) -> bool {
    kind == MetaAttrType::Complete || kind == MetaAttrType::Debug || kind == MetaAttrType::Cond
        || kind == MetaAttrType::Count || kind == MetaAttrType::Into || kind
        == MetaAttrType::LengthCount || kind == MetaAttrType::MapWith || kind
        == MetaAttrType::Verify
}

/// The type that the wrapped parser reads, where the attribute `meta`
/// stands on a field of type `ty`: the `T` of `Option<T>` for `Cond`, the
/// `T` of `Vec<T>` for `Count` and `LengthCount`, else `ty` itself.
pub open spec fn inner_type_spec(meta: MetaAttrView, ty: TypeView) -> Result<
    TypeView,
    MetaErrorView,
> {
    match meta.attr_type {
        MetaAttrType::Cond => get_item_subtype_spec(ty, "Option"@, "Cond"@),
        MetaAttrType::Count => get_item_subtype_spec(ty, "Vec"@, "Count"@),
        MetaAttrType::LengthCount => get_item_subtype_spec(ty, "Vec"@, "LengthCount"@),
        _ => Ok(ty),
    }
}

/// The step of the wrapping attribute `meta` around the parser `inner`,
/// for a field named `ident`.
pub open spec fn wrap_spec(meta: MetaAttrView, ident: Option<Seq<char>>, inner: ParserExprView)
    -> Result<ParserExprView, MetaErrorView> {
    match meta.attr_type {
        MetaAttrType::Complete => Ok(ParserExprView::Complete(Box::new(inner))),
        MetaAttrType::Into => Ok(ParserExprView::Into(Box::new(inner))),
        MetaAttrType::Debug => match ident {
            Some(i) => Ok(ParserExprView::DbgDmp(Box::new(inner), i)),
            None => Err(unnamed_field_error(meta)),
        },
        MetaAttrType::Verify => match ident {
            Some(i) => match required_arg_spec(meta) {
                Ok(a) => Ok(ParserExprView::Verify(Box::new(inner), i, a)),
                Err(e) => Err(e),
            },
            None => Err(unnamed_field_error(meta)),
        },
        _ => match required_arg_spec(meta) {
            Err(e) => Err(e),
            Ok(a) => Ok(
                match meta.attr_type {
                    MetaAttrType::Cond => ParserExprView::Cond(Box::new(inner), a),
                    MetaAttrType::Count => ParserExprView::Count(Box::new(inner), a),
                    MetaAttrType::LengthCount => ParserExprView::LengthCount(Box::new(inner), a),
                    _ => ParserExprView::MapWith(Box::new(inner), a),
                },
            ),
        },
    }
}

/// The parser of the terminal attribute `meta` on a field of type `ty`.
pub open spec fn terminal_spec(meta: MetaAttrView, ty: TypeView) -> Result<
    ParserExprView,
    MetaErrorView,
> {
    if meta.attr_type == MetaAttrType::Ignore {
        get_type_default_spec(ty)
    } else {
        match required_arg_spec(meta) {
            Err(e) => Err(e),
            Ok(a) => Ok(
                match meta.attr_type {
                    MetaAttrType::Tag => ParserExprView::Tag(a),
                    MetaAttrType::Take => ParserExprView::Take(a),
                    MetaAttrType::Value => ParserExprView::Value(a),
                    _ => ParserExprView::Raw(a),
                },
            ),
        }
    }
}

/// The parser expression of a field named `ident` of type `ty`, inferred
/// from the attributes `sub` that are left to look at; `all` is the whole
/// list of the field.
///
/// The attributes are taken in the order of declaration. The first one
/// that is terminal gives the parser. One that wraps gives a step around
/// the parser inferred from the attributes after it. Any other is passed
/// over. When none is left, the parser is the one of the type.
pub open spec fn get_parser_spec(
    ident: Option<Seq<char>>,
    ty: TypeView,
    sub: Seq<MetaAttrView>,
    all: Seq<MetaAttrView>,
    config: ConfigView,
) -> Result<ParserExprView, MetaErrorView>
    decreases sub.len(),
{
    if sub.len() == 0 {
        get_type_parser_spec(ty, all, config)
    } else if is_terminal(sub[0].attr_type) {
        terminal_spec(sub[0], ty)
    } else if is_wrapping(sub[0].attr_type) {
        match inner_type_spec(sub[0], ty) {
            Err(e) => Err(e),
            Ok(inner_ty) => match get_parser_spec(ident, inner_ty, sub.skip(1), all, config) {
                Err(e) => Err(e),
                Ok(inner) => wrap_spec(sub[0], ident, inner),
            },
        }
    } else {
        get_parser_spec(ident, ty, sub.skip(1), all, config)
    }
}

/// The kind of the attribute that gave the outermost step of `e`.
pub open spec fn outer_kind(e: ParserExprView) -> Option<MetaAttrType> {
    match e {
        ParserExprView::Complete(_) => Some(MetaAttrType::Complete),
        ParserExprView::Cond(_, _) => Some(MetaAttrType::Cond),
        ParserExprView::Count(_, _) => Some(MetaAttrType::Count),
        ParserExprView::DbgDmp(_, _) => Some(MetaAttrType::Debug),
        ParserExprView::Into(_) => Some(MetaAttrType::Into),
        ParserExprView::LengthCount(_, _) => Some(MetaAttrType::LengthCount),
        ParserExprView::MapWith(_, _) => Some(MetaAttrType::MapWith),
        ParserExprView::Verify(_, _, _) => Some(MetaAttrType::Verify),
        _ => None,
    }
}

/// The step that `e` wraps, where it wraps one.
pub open spec fn wrapped(e: ParserExprView) -> Option<ParserExprView> {
    match e {
        ParserExprView::Complete(p) => Some(*p),
        ParserExprView::Cond(p, _) => Some(*p),
        ParserExprView::Count(p, _) => Some(*p),
        ParserExprView::DbgDmp(p, _) => Some(*p),
        ParserExprView::Into(p) => Some(*p),
        ParserExprView::LengthCount(p, _) => Some(*p),
        ParserExprView::MapWith(p, _) => Some(*p),
        ParserExprView::Verify(p, _, _) => Some(*p),
        _ => None,
    }
}

/// Wrapping attributes nest in the order of their declaration: where the
/// first attribute wraps, the outermost step of the inferred expression is
/// the step of that attribute, and what it wraps is the expression
/// inferred from the attributes after it.
pub proof fn lemma_wrapping_follows_declaration_order(
    ident: Option<Seq<char>>,
    ty: TypeView,
    sub: Seq<MetaAttrView>,
    all: Seq<MetaAttrView>,
    config: ConfigView,
)
    requires
        sub.len() > 0,
        is_wrapping(sub[0].attr_type),
        get_parser_spec(ident, ty, sub, all, config) is Ok,
    ensures
        outer_kind(get_parser_spec(ident, ty, sub, all, config)->Ok_0) == Some(
            sub[0].attr_type,
        ),
        inner_type_spec(sub[0], ty) is Ok,
        get_parser_spec(ident, inner_type_spec(sub[0], ty)->Ok_0, sub.skip(1), all, config)
            == Ok::<ParserExprView, MetaErrorView>(
            wrapped(get_parser_spec(ident, ty, sub, all, config)->Ok_0).unwrap(),
        ),
{
}

/// Two different wrapping attributes in the two possible orders give two
/// different expressions.
pub proof fn lemma_order_of_wrapping_matters(
    ident: Option<Seq<char>>,
    ty: TypeView,
    a: MetaAttrView,
    b: MetaAttrView,
    rest: Seq<MetaAttrView>,
    all: Seq<MetaAttrView>,
    config: ConfigView,
)
    requires
        is_wrapping(a.attr_type),
        is_wrapping(b.attr_type),
        a.attr_type != b.attr_type,
        get_parser_spec(ident, ty, seq![a, b] + rest, all, config) is Ok,
        get_parser_spec(ident, ty, seq![b, a] + rest, all, config) is Ok,
    ensures
        get_parser_spec(ident, ty, seq![a, b] + rest, all, config) != get_parser_spec(
            ident,
            ty,
            seq![b, a] + rest,
            all,
            config,
        ),
{
    lemma_wrapping_follows_declaration_order(ident, ty, seq![a, b] + rest, all, config);
    lemma_wrapping_follows_declaration_order(ident, ty, seq![b, a] + rest, all, config);
}


/// Infers the parser that reads a value of type `ty`.
pub fn get_type_parser(ty: &Type, meta_list: &[MetaAttr], config: &Config) -> (r: Result<
    ParserExpr,
    MetaError,
>)
    ensures
        match r {
            Ok(e) => get_type_parser_spec(ty@, attrs_view(meta_list@), config@) == Ok::<
                ParserExprView,
                MetaErrorView,
            >(e@),
            Err(e) => get_type_parser_spec(ty@, attrs_view(meta_list@), config@) == Err::<
                ParserExprView,
                MetaErrorView,
            >(e@),
        },
{
    let ident = get_type_first_ident(ty)?;
    if str_eq(ident.as_str(), "PhantomData") {
        return Ok(ParserExpr::PhantomData);
    }
    let endian = get_local_endianness(ty.span(), meta_list, config)?;
    match endian {
        ParserEndianness::BigEndian => Ok(ParserExpr::CallParseBE(TypeItem(ty.duplicate()))),
        ParserEndianness::LittleEndian => Ok(ParserExpr::CallParseLE(TypeItem(ty.duplicate()))),
        ParserEndianness::SetEndian => Ok(ParserExpr::CallParseSet(TypeItem(ty.duplicate()))),
        ParserEndianness::Unspecified => Ok(ParserExpr::CallParse(TypeItem(ty.duplicate()))),
    }
}

fn unexpected_type(span: Span, expected: &str, attr: &str) -> (r: MetaError)
    ensures
        r@ == (MetaErrorView {
            kind: ErrorKind::UnexpectedType,
            span,
            detail: expects_text(attr@, expected@),
        }),
{
    let mut detail = String::from_str(attr);
    detail.append(" expects ");
    detail.append(expected);
    MetaError::new(ErrorKind::UnexpectedType, span, detail)
}

/// The type `T` of a field of type `expected<T>`.
pub fn get_item_subtype_parser<'a>(ty: &'a Type, expected: &str, attr: &str) -> (r: Result<
    &'a Type,
    MetaError,
>)
    ensures
        match r {
            Ok(t) => get_item_subtype_spec(ty@, expected@, attr@) == Ok::<TypeView, MetaErrorView>(
                t@,
            ),
            Err(e) => get_item_subtype_spec(ty@, expected@, attr@) == Err::<
                TypeView,
                MetaErrorView,
            >(e@),
        },
{
    match ty {
        Type::Generic { ident, argument, span } => {
            if str_eq(ident.as_str(), expected) {
                Ok(&**argument)
            } else {
                Err(unexpected_type(*span, expected, attr))
            }
        },
        Type::Qualified { tokens, span } => Err(
            MetaError::new(ErrorKind::MultipleSegments, *span, tokens.clone()),
        ),
        _ => Err(unexpected_type(ty.span(), expected, attr)),
    }
}

/// Infers the parser that gives the default value of `ty`.
pub fn get_type_default(ty: &Type) -> (r: Result<ParserExpr, MetaError>)
    ensures
        match r {
            Ok(e) => get_type_default_spec(ty@) == Ok::<ParserExprView, MetaErrorView>(e@),
            Err(e) => get_type_default_spec(ty@) == Err::<ParserExprView, MetaErrorView>(e@),
        },
{
    let ident = get_type_first_ident(ty)?;
    let default = if str_eq(ident.as_str(), "Option") {
        String::from_str("None")
    } else if str_eq(ident.as_str(), "PhantomData") {
        String::from_str("PhantomData")
    } else if str_eq(ident.as_str(), "Vec") {
        String::from_str("Vec::new()")
    } else {
        let mut out = String::from_str("<");
        out.append(ty.to_tokens().as_str());
        out.append(">::default()");
        out
    };
    Ok(ParserExpr::Value(default))
}

/// A copy of the argument of `meta`.
fn required_arg(meta: &MetaAttr) -> (r: Result<String, MetaError>)
    ensures
        match r {
            Ok(a) => required_arg_spec(meta@) == Ok::<Seq<char>, MetaErrorView>(a@),
            Err(e) => required_arg_spec(meta@) == Err::<Seq<char>, MetaErrorView>(e@),
        },
{
    match &meta.arg0 {
        Some(a) => Ok(a.clone()),
        None => Err(
            MetaError::new(
                ErrorKind::MissingArgument,
                meta.span,
                String::from_str(meta.attr_type.name()),
            ),
        ),
    }
}

fn unnamed_field(meta: &MetaAttr) -> (r: MetaError)
    ensures
        r@ == unnamed_field_error(meta@),
{
    MetaError::new(ErrorKind::UnnamedField, meta.span, String::from_str(meta.attr_type.name()))
}

/// The parser of a terminal attribute.
fn terminal(meta: &MetaAttr, ty: &Type) -> (r: Result<ParserExpr, MetaError>)
    requires
        is_terminal(meta.attr_type),
    ensures
        match r {
            Ok(e) => terminal_spec(meta@, ty@) == Ok::<ParserExprView, MetaErrorView>(e@),
            Err(e) => terminal_spec(meta@, ty@) == Err::<ParserExprView, MetaErrorView>(e@),
        },
{
    match meta.attr_type {
        MetaAttrType::Ignore => get_type_default(ty),
        MetaAttrType::Tag => Ok(ParserExpr::Tag(required_arg(meta)?)),
        MetaAttrType::Take => Ok(ParserExpr::Take(required_arg(meta)?)),
        MetaAttrType::Value => Ok(ParserExpr::Value(required_arg(meta)?)),
        _ => Ok(ParserExpr::Raw(required_arg(meta)?)),
    }
}

/// The type that the parser wrapped by `meta` reads.
fn inner_type<'a>(meta: &MetaAttr, ty: &'a Type) -> (r: Result<&'a Type, MetaError>)
    ensures
        match r {
            Ok(t) => inner_type_spec(meta@, ty@) == Ok::<TypeView, MetaErrorView>(t@),
            Err(e) => inner_type_spec(meta@, ty@) == Err::<TypeView, MetaErrorView>(e@),
        },
{
    match meta.attr_type {
        MetaAttrType::Cond => get_item_subtype_parser(ty, "Option", "Cond"),
        MetaAttrType::Count => get_item_subtype_parser(ty, "Vec", "Count"),
        MetaAttrType::LengthCount => get_item_subtype_parser(ty, "Vec", "LengthCount"),
        _ => Ok(ty),
    }
}

/// The step of a wrapping attribute around `inner`.
fn wrap(meta: &MetaAttr, ident: Option<&str>, inner: ParserExpr) -> (r: Result<
    ParserExpr,
    MetaError,
>)
    requires
        is_wrapping(meta.attr_type),
    ensures
        match r {
            Ok(e) => wrap_spec(meta@, ident_view(ident), inner@) == Ok::<
                ParserExprView,
                MetaErrorView,
            >(e@),
            Err(e) => wrap_spec(meta@, ident_view(ident), inner@) == Err::<
                ParserExprView,
                MetaErrorView,
            >(e@),
        },
{
    match meta.attr_type {
        MetaAttrType::Complete => Ok(inner.complete()),
        MetaAttrType::Into => Ok(ParserExpr::Into(Box::new(inner))),
        MetaAttrType::Debug => match ident {
            Some(i) => Ok(ParserExpr::DbgDmp(Box::new(inner), String::from_str(i))),
            None => Err(unnamed_field(meta)),
        },
        MetaAttrType::Verify => match ident {
            Some(i) => {
                let a = required_arg(meta)?;
                Ok(ParserExpr::Verify(Box::new(inner), String::from_str(i), a))
            },
            None => Err(unnamed_field(meta)),
        },
        MetaAttrType::Cond => Ok(ParserExpr::Cond(Box::new(inner), required_arg(meta)?)),
        MetaAttrType::Count => Ok(ParserExpr::Count(Box::new(inner), required_arg(meta)?)),
        MetaAttrType::LengthCount => Ok(
            ParserExpr::LengthCount(Box::new(inner), required_arg(meta)?),
        ),
        _ => Ok(ParserExpr::MapWith(Box::new(inner), required_arg(meta)?)),
    }
}

/// The name of a field as a plain value.
pub open spec fn ident_view(ident: Option<&str>) -> Option<Seq<char>> {
    match ident {
        Some(i) => Some(i@),
        None => None,
    }
}

/// Infers the parser expression of a field named `ident` of type `ty`
/// from the attributes `sub_meta_list` that are left to look at;
/// `meta_list` is the whole list of the field.
pub fn get_parser(
    ident: Option<&str>,
    ty: &Type,
    sub_meta_list: &[MetaAttr],
    meta_list: &[MetaAttr],
    config: &Config,
) -> (r: Result<ParserExpr, MetaError>)
    ensures
        match r {
            Ok(e) => get_parser_spec(
                ident_view(ident),
                ty@,
                attrs_view(sub_meta_list@),
                attrs_view(meta_list@),
                config@,
            ) == Ok::<ParserExprView, MetaErrorView>(e@),
            Err(e) => get_parser_spec(
                ident_view(ident),
                ty@,
                attrs_view(sub_meta_list@),
                attrs_view(meta_list@),
                config@,
            ) == Err::<ParserExprView, MetaErrorView>(e@),
        },
    decreases sub_meta_list@.len(),
{
    if sub_meta_list.len() == 0 {
        return get_type_parser(ty, meta_list, config);
    }
    let meta = &sub_meta_list[0];
    let rem = slice_subrange(sub_meta_list, 1, sub_meta_list.len());
    proof {
        assert(attrs_view(rem@) =~= attrs_view(sub_meta_list@).skip(1));
    }
    match meta.attr_type {
        MetaAttrType::Tag
        | MetaAttrType::Take
        | MetaAttrType::Value
        | MetaAttrType::Parse
        | MetaAttrType::Ignore => terminal(meta, ty),
        MetaAttrType::Complete
        | MetaAttrType::Debug
        | MetaAttrType::Cond
        | MetaAttrType::Count
        | MetaAttrType::Into
        | MetaAttrType::LengthCount
        | MetaAttrType::MapWith
        | MetaAttrType::Verify => {
            let sub_ty = inner_type(meta, ty)?;
            let expr = get_parser(ident, sub_ty, rem, meta_list, config)?;
            wrap(meta, ident, expr)
        },
        _ => get_parser(ident, ty, rem, meta_list, config),
    }
}

impl Field {
    /// The field `name: ty` with the attribute `#[nom(metas)]`.
    pub fn named(name: &str, ty: Type, metas: Vec<Meta>) -> (r: Field)
        ensures
            r.ident_spec() == Some(name@),
            r.ty == ty,
            r.attrs@.len() == 1,
            r.attrs@[0].path@ == "nom"@,
            r.attrs@[0].metas == metas,
    {
        let mut attrs: Vec<Attribute> = Vec::new();
        attrs.push(Attribute::nom(metas));
        Field { ident: Some(String::from_str(name)), ty, attrs }
    }

    /// The field of a tuple of type `ty` with the attribute
    /// `#[nom(metas)]`.
    pub fn unnamed(ty: Type, metas: Vec<Meta>) -> (r: Field)
        ensures
            r.ident_spec().is_none(),
            r.ty == ty,
            r.attrs@.len() == 1,
            r.attrs@[0].path@ == "nom"@,
            r.attrs@[0].metas == metas,
    {
        let mut attrs: Vec<Attribute> = Vec::new();
        attrs.push(Attribute::nom(metas));
        Field { ident: None, ty, attrs }
    }

    /// The name of the field as a plain value.
    pub open spec fn ident_spec(self) -> Option<Seq<char>> {
        match self.ident {
            Some(i) => Some(i@),
            None => None,
        }
    }

    /// The name of the field.
    pub fn ident(&self) -> (r: Option<&str>)
        ensures
            ident_view(r) == self.ident_spec(),
    {
        match &self.ident {
            Some(i) => Some(i.as_str()),
            None => None,
        }
    }
}

/// Infers the parser expression of `field` from its attributes.
pub fn get_field_parser(field: &Field, meta_list: &[MetaAttr], config: &Config) -> (r: Result<
    ParserExpr,
    MetaError,
>)
    ensures
        match r {
            Ok(e) => get_parser_spec(
                field.ident_spec(),
                field.ty@,
                attrs_view(meta_list@),
                attrs_view(meta_list@),
                config@,
            ) == Ok::<ParserExprView, MetaErrorView>(e@),
            Err(e) => get_parser_spec(
                field.ident_spec(),
                field.ty@,
                attrs_view(meta_list@),
                attrs_view(meta_list@),
                config@,
            ) == Err::<ParserExprView, MetaErrorView>(e@),
        },
{
    get_parser(field.ident(), &field.ty, meta_list, meta_list, config)
}


/// Whether an attribute of this kind gives a step around the field.
pub open spec fn is_step(kind: MetaAttrType) -> bool {
    kind == MetaAttrType::PreExec || kind == MetaAttrType::PostExec || kind
        == MetaAttrType::AlignAfter || kind == MetaAttrType::AlignBefore || kind
        == MetaAttrType::SkipAfter || kind == MetaAttrType::SkipBefore || kind == MetaAttrType::Move
        || kind == MetaAttrType::MoveAbs || kind == MetaAttrType::ErrorIf || kind
        == MetaAttrType::Exact || kind == MetaAttrType::SetEndian
}

/// Whether the step of an attribute of this kind runs before the field is
/// read; the others run after it.
pub open spec fn runs_before(kind: MetaAttrType) -> bool {
    kind == MetaAttrType::PreExec || kind == MetaAttrType::AlignBefore || kind
        == MetaAttrType::SkipBefore || kind == MetaAttrType::Move || kind == MetaAttrType::MoveAbs
        || kind == MetaAttrType::ErrorIf || kind == MetaAttrType::SetEndian
}

/// The step that the attribute `meta` gives.
pub open spec fn step_spec(meta: MetaAttrView) -> Result<StepView, MetaErrorView> {
    if meta.attr_type == MetaAttrType::Exact {
        Ok(StepView::Exact)
    } else {
        match required_arg_spec(meta) {
            Err(e) => Err(e),
            Ok(a) => Ok(
                match meta.attr_type {
                    MetaAttrType::AlignAfter | MetaAttrType::AlignBefore => StepView::Align(a),
                    MetaAttrType::SkipAfter | MetaAttrType::SkipBefore => StepView::Skip(a),
                    MetaAttrType::Move => StepView::Move(a),
                    MetaAttrType::MoveAbs => StepView::MoveAbs(a),
                    MetaAttrType::ErrorIf => StepView::ErrorIf(a),
                    MetaAttrType::SetEndian => StepView::SetEndian(a),
                    _ => StepView::Exec(a),
                },
            ),
        }
    }
}

/// The steps that the attributes `list` give on one side of the field, in
/// the order of declaration and after those of `acc`: the steps that run
/// before the field where `before` holds, else those that run after it.
pub open spec fn collect_steps_spec(list: Seq<MetaAttrView>, before: bool, acc: Seq<StepView>)
    -> Result<Seq<StepView>, MetaErrorView>
    decreases list.len(),
{
    if list.len() == 0 {
        Ok(acc)
    } else if is_step(list[0].attr_type) && runs_before(list[0].attr_type) == before {
        match step_spec(list[0]) {
            Err(e) => Err(e),
            Ok(s) => collect_steps_spec(list.skip(1), before, acc.push(s)),
        }
    } else {
        collect_steps_spec(list.skip(1), before, acc)
    }
}

/// The steps that run before and after a field with attributes `list`.
pub open spec fn get_pre_post_exec_spec(list: Seq<MetaAttrView>) -> Result<
    (Seq<StepView>, Seq<StepView>),
    MetaErrorView,
> {
    match collect_steps_spec(list, true, Seq::empty()) {
        Err(e) => Err(e),
        Ok(pre) => match collect_steps_spec(list, false, Seq::empty()) {
            Err(e) => Err(e),
            Ok(post) => Ok((pre, post)),
        },
    }
}

fn step_of(meta: &MetaAttr) -> (r: Result<Step, MetaError>)
    requires
        is_step(meta.attr_type),
    ensures
        match r {
            Ok(s) => step_spec(meta@) == Ok::<StepView, MetaErrorView>(s@),
            Err(e) => step_spec(meta@) == Err::<StepView, MetaErrorView>(e@),
        },
{
    match meta.attr_type {
        MetaAttrType::Exact => Ok(Step::Exact),
        MetaAttrType::AlignAfter | MetaAttrType::AlignBefore => Ok(
            Step::Align(required_arg(meta)?),
        ),
        MetaAttrType::SkipAfter | MetaAttrType::SkipBefore => Ok(Step::Skip(required_arg(meta)?)),
        MetaAttrType::Move => Ok(Step::Move(required_arg(meta)?)),
        MetaAttrType::MoveAbs => Ok(Step::MoveAbs(required_arg(meta)?)),
        MetaAttrType::ErrorIf => Ok(Step::ErrorIf(required_arg(meta)?)),
        MetaAttrType::SetEndian => Ok(Step::SetEndian(required_arg(meta)?)),
        _ => Ok(Step::Exec(required_arg(meta)?)),
    }
}

fn kind_is_step(kind: MetaAttrType) -> (r: bool)
    ensures
        r == is_step(kind),
{
    match kind {
        MetaAttrType::PreExec
        | MetaAttrType::PostExec
        | MetaAttrType::AlignAfter
        | MetaAttrType::AlignBefore
        | MetaAttrType::SkipAfter
        | MetaAttrType::SkipBefore
        | MetaAttrType::Move
        | MetaAttrType::MoveAbs
        | MetaAttrType::ErrorIf
        | MetaAttrType::Exact
        | MetaAttrType::SetEndian => true,
        _ => false,
    }
}

fn kind_runs_before(kind: MetaAttrType) -> (r: bool)
    ensures
        r == runs_before(kind),
{
    match kind {
        MetaAttrType::PreExec
        | MetaAttrType::AlignBefore
        | MetaAttrType::SkipBefore
        | MetaAttrType::Move
        | MetaAttrType::MoveAbs
        | MetaAttrType::ErrorIf
        | MetaAttrType::SetEndian => true,
        _ => false,
    }
}

fn collect_steps(meta_list: &[MetaAttr], before: bool) -> (r: Result<Vec<Step>, MetaError>)
    ensures
        match r {
            Ok(v) => collect_steps_spec(attrs_view(meta_list@), before, Seq::empty()) == Ok::<
                Seq<StepView>,
                MetaErrorView,
            >(steps_view(v@)),
            Err(e) => collect_steps_spec(attrs_view(meta_list@), before, Seq::empty()) == Err::<
                Seq<StepView>,
                MetaErrorView,
            >(e@),
        },
{
    let ghost views = attrs_view(meta_list@);
    let mut out: Vec<Step> = Vec::new();
    let mut i: usize = 0;
    proof {
        assert(views.skip(0) =~= views);
        assert(steps_view(out@) =~= Seq::empty());
    }
    while i < meta_list.len()
        invariant
            i <= meta_list.len(),
            views == attrs_view(meta_list@),
            collect_steps_spec(views, before, Seq::empty()) == collect_steps_spec(
                views.skip(i as int),
                before,
                steps_view(out@),
            ),
        decreases meta_list.len() - i,
    {
        proof {
            assert(views.skip(i as int).skip(1) =~= views.skip(i as int + 1));
            assert(views.skip(i as int)[0] == meta_list[i as int]@);
        }
        let kind = meta_list[i].attr_type;
        if kind_is_step(kind) && kind_runs_before(kind) == before {
            let s = step_of(&meta_list[i])?;
            proof {
                assert(steps_view(out@.push(s)) =~= steps_view(out@).push(s@));
            }
            out.push(s);
        }
        i += 1;
    }
    Ok(out)
}

/// The steps that run before and after a field with attributes
/// `meta_list`.
pub fn get_pre_post_exec(meta_list: &[MetaAttr]) -> (r: Result<
    (Vec<Step>, Vec<Step>),
    MetaError,
>)
    ensures
        match r {
            Ok(p) => get_pre_post_exec_spec(attrs_view(meta_list@)) == Ok::<
                (Seq<StepView>, Seq<StepView>),
                MetaErrorView,
            >((steps_view(p.0@), steps_view(p.1@))),
            Err(e) => get_pre_post_exec_spec(attrs_view(meta_list@)) == Err::<
                (Seq<StepView>, Seq<StepView>),
                MetaErrorView,
            >(e@),
        },
{
    let pre = collect_steps(meta_list, true)?;
    let post = collect_steps(meta_list, false)?;
    Ok((pre, post))
}

/// The name that the field at index `idx` is bound to: its own, or `_`
/// and the index.
pub open spec fn field_name_spec(field: Field, idx: nat) -> Seq<char> {
    match field.ident {
        Some(i) => i@,
        None => "_"@ + decimal(idx),
    }
}

/// The parser of a field after the settings of the struct are applied:
/// wrapped in `Complete` where the struct asks for it, then in the report
/// of the field where the struct asks for that.
pub open spec fn apply_config_spec(
    ident: Option<Seq<char>>,
    expr: ParserExprView,
    config: ConfigView,
) -> Result<ParserExprView, MetaErrorView> {
    let p = if config.complete {
        ParserExprView::Complete(Box::new(expr))
    } else {
        expr
    };
    if config.debug {
        match ident {
            Some(i) => Ok(ParserExprView::DbgDmp(Box::new(p), i)),
            None => Err(
                MetaErrorView {
                    kind: ErrorKind::UnnamedField,
                    span: Span::call_site_spec(),
                    detail: "Debug"@,
                },
            ),
        }
    } else {
        Ok(p)
    }
}

/// The plan for the field `field` at index `idx`.
pub open spec fn parse_field_spec(field: Field, idx: nat, config: ConfigView) -> Result<
    StructParserView,
    MetaErrorView,
> {
    match parse_attributes_spec(field.attrs@, Scope::FieldLevel) {
        Err(e) => Err(e),
        Ok(metas) => match get_parser_spec(field.ident_spec(), field.ty@, metas, metas, config) {
            Err(e) => Err(e),
            Ok(expr) => match apply_config_spec(field.ident_spec(), expr, config) {
                Err(e) => Err(e),
                Ok(p) => match get_pre_post_exec_spec(metas) {
                    Err(e) => Err(e),
                    Ok((pre, post)) => Ok(
                        StructParserView {
                            name: field_name_spec(field, idx),
                            item: ParserTreeItemView { ident: field.ident_spec(), expr: p },
                            pre_exec: pre,
                            post_exec: post,
                        },
                    ),
                },
            },
        },
    }
}

/// Whether the attributes of `field` choose the byte order at run time.
pub open spec fn sets_endian_spec(field: Field) -> bool {
    match parse_attributes_spec(field.attrs@, Scope::FieldLevel) {
        Ok(metas) => has_attr(metas, MetaAttrType::SetEndian),
        Err(_) => false,
    }
}

/// The settings for the fields after `field`: where `field` chooses the
/// byte order at run time, the fields after it that give none of their own
/// are read in that byte order.
pub open spec fn config_after_spec(field: Field, config: ConfigView) -> ConfigView {
    if sets_endian_spec(field) {
        ConfigView { object_endianness: ParserEndianness::SetEndian, ..config }
    } else {
        config
    }
}

/// The plans for the fields `fields` from index `idx` on, after those of
/// `acc`, or the first error among them.
pub open spec fn parse_field_list_spec(
    fields: Seq<Field>,
    idx: nat,
    config: ConfigView,
    acc: Seq<StructParserView>,
) -> Result<Seq<StructParserView>, MetaErrorView>
    decreases fields.len() - idx,
{
    if idx >= fields.len() {
        Ok(acc)
    } else {
        match parse_field_spec(fields[idx as int], idx, config) {
            Err(e) => Err(e),
            Ok(p) => parse_field_list_spec(
                fields,
                idx + 1,
                config_after_spec(fields[idx as int], config),
                acc.push(p),
            ),
        }
    }
}

/// The plan for a struct or a variant with fields `f`: one plan for each
/// field, in the order of declaration.
pub open spec fn parse_fields_spec(f: Fields, config: ConfigView) -> Result<
    StructParserTreeView,
    MetaErrorView,
> {
    match parse_field_list_spec(f.list(), 0, config, Seq::empty()) {
        Err(e) => Err(e),
        Ok(parsers) => Ok(
            StructParserTreeView {
                empty: f is Unit,
                unnamed: f is Unnamed,
                parsers,
            },
        ),
    }
}

fn apply_config(ident: Option<&str>, expr: ParserExpr, config: &Config) -> (r: Result<
    ParserExpr,
    MetaError,
>)
    ensures
        match r {
            Ok(e) => apply_config_spec(ident_view(ident), expr@, config@) == Ok::<
                ParserExprView,
                MetaErrorView,
            >(e@),
            Err(e) => apply_config_spec(ident_view(ident), expr@, config@) == Err::<
                ParserExprView,
                MetaErrorView,
            >(e@),
        },
{
    let mut p = expr;
    if config.complete {
        p = p.complete();
    }
    if config.debug {
        match ident {
            Some(i) => Ok(ParserExpr::DbgDmp(Box::new(p), String::from_str(i))),
            None => Err(
                MetaError::new(
                    ErrorKind::UnnamedField,
                    Span::call_site(),
                    String::from_str("Debug"),
                ),
            ),
        }
    } else {
        Ok(p)
    }
}

fn parse_field(field: &Field, idx: usize, config: &Config) -> (r: Result<
    (StructParser, bool),
    MetaError,
>)
    ensures
        match r {
            Ok(p) => parse_field_spec(*field, idx as nat, config@) == Ok::<
                StructParserView,
                MetaErrorView,
            >(p.0@) && p.1 == sets_endian_spec(*field),
            Err(e) => parse_field_spec(*field, idx as nat, config@) == Err::<
                StructParserView,
                MetaErrorView,
            >(e@),
        },
{
    let ident_str = match &field.ident {
        Some(s) => s.clone(),
        None => concat("_", usize_to_string(idx).as_str()),
    };
    let meta_list = parse_nom_attribute(field.attrs.as_slice())?;
    let expr = get_field_parser(field, meta_list.as_slice(), config)?;
    let p = apply_config(field.ident(), expr, config)?;
    let (pre, post) = get_pre_post_exec(meta_list.as_slice())?;
    let ident = match &field.ident {
        Some(s) => Some(s.clone()),
        None => None,
    };
    let item = ParserTreeItem::new(ident, p);
    let sets_endian = contains_attr(meta_list.as_slice(), MetaAttrType::SetEndian);
    Ok((StructParser::new(ident_str, item, pre, post), sets_endian))
}

fn parse_field_list(fields: &Vec<Field>, config: &Config) -> (r: Result<
    Vec<StructParser>,
    MetaError,
>)
    ensures
        match r {
            Ok(v) => parse_field_list_spec(fields@, 0, config@, Seq::empty()) == Ok::<
                Seq<StructParserView>,
                MetaErrorView,
            >(parsers_view(v@)),
            Err(e) => parse_field_list_spec(fields@, 0, config@, Seq::empty()) == Err::<
                Seq<StructParserView>,
                MetaErrorView,
            >(e@),
        },
{
    let mut parsers: Vec<StructParser> = Vec::new();
    let mut current = config.duplicate();
    let mut idx: usize = 0;
    proof {
        assert(parsers_view(parsers@) =~= Seq::empty());
    }
    while idx < fields.len()
        invariant
            idx <= fields.len(),
            parse_field_list_spec(fields@, 0, config@, Seq::empty()) == parse_field_list_spec(
                fields@,
                idx as nat,
                current@,
                parsers_view(parsers@),
            ),
        decreases fields.len() - idx,
    {
        let (sp, sets_endian) = parse_field(&fields[idx], idx, &current)?;
        proof {
            assert(parsers_view(parsers@.push(sp)) =~= parsers_view(parsers@).push(sp@));
        }
        parsers.push(sp);
        if sets_endian {
            current.object_endianness = ParserEndianness::SetEndian;
        }
        idx += 1;
    }
    Ok(parsers)
}

/// Infers the plan for a struct or a variant from its fields.
pub fn parse_fields(f: &Fields, config: &Config) -> (r: Result<StructParserTree, MetaError>)
    ensures
        match r {
            Ok(t) => parse_fields_spec(*f, config@) == Ok::<StructParserTreeView, MetaErrorView>(
                t@,
            ),
            Err(e) => parse_fields_spec(*f, config@) == Err::<StructParserTreeView, MetaErrorView>(
                e@,
            ),
        },
{
    match f {
        Fields::Named(fields) => {
            let parsers = parse_field_list(fields, config)?;
            Ok(StructParserTree { empty: false, unnamed: false, parsers })
        },
        Fields::Unnamed(fields) => {
            let parsers = parse_field_list(fields, config)?;
            Ok(StructParserTree { empty: false, unnamed: true, parsers })
        },
        Fields::Unit => {
            let parsers: Vec<StructParser> = Vec::new();
            proof {
                assert(parsers_view(parsers@) =~= Seq::empty());
            }
            Ok(StructParserTree { empty: true, unnamed: false, parsers })
        },
    }
}

/// The body of a struct declaration.
#[derive(Debug, PartialEq, Eq)]
pub struct DataStruct {
    pub fields: Fields,
}

/// Infers the plan for a struct.
pub fn parse_struct(s: &DataStruct, config: &Config) -> (r: Result<StructParserTree, MetaError>)
    ensures
        match r {
            Ok(t) => parse_fields_spec(s.fields, config@) == Ok::<
                StructParserTreeView,
                MetaErrorView,
            >(t@),
            Err(e) => parse_fields_spec(s.fields, config@) == Err::<
                StructParserTreeView,
                MetaErrorView,
            >(e@),
        },
{
    parse_fields(&s.fields, config)
}


/// The statement that skips to the next multiple of `align` bytes,
/// counted from the start of the input. The statement divides by `align`:
/// where `align` is zero at run time the host does not return, while the
/// library's own run of the step reports an error.
pub open spec fn quote_align_spec(align: Seq<char>, config: ConfigView) -> Seq<char> {
    "let ("@ + config.input_name + ", _) = { let offset = "@ + config.input_name
        + ".as_ptr() as usize - "@ + config.orig_input_name + ".as_ptr() as usize; let align = "@
        + align
        + " as usize; let align = ((align - (offset % align)) % align); nom::bytes::streaming::take(align)("@
        + config.input_name + ") }?; "@
}

/// The statement that moves by the signed offset `offset`.
pub open spec fn quote_move_spec(offset: Seq<char>, config: ConfigView) -> Seq<char> {
    "let "@ + config.input_name + " = { let start = "@ + config.orig_input_name
        + ".as_ptr() as usize; let pos = "@ + config.input_name
        + ".as_ptr() as usize - start; let offset = "@ + offset
        + " as isize; let offset_u = offset.abs() as usize; let new_offset = if offset < 0 { if offset_u > pos { return Err(nom::Err::Error(nom::error::make_error("@
        + config.input_name
        + ", nom::error::ErrorKind::Verify))); } pos - offset_u } else { if pos + offset_u > "@
        + config.orig_input_name
        + ".len() { return Err(nom::Err::Incomplete(nom::Needed::new(offset_u))); } pos + offset_u }; &"@
        + config.orig_input_name + "[new_offset..] }; "@
}

/// The statement that moves to the offset `offset` from the start of the
/// input.
pub open spec fn quote_move_abs_spec(offset: Seq<char>, config: ConfigView) -> Seq<char> {
    "let "@ + config.input_name + " = { let offset = "@ + offset + " as usize; if offset > "@
        + config.orig_input_name
        + ".len() { return Err(nom::Err::Incomplete(nom::Needed::new(offset))); } &"@
        + config.orig_input_name + "[offset..] }; "@
}

/// The statement that skips `skip` bytes.
pub open spec fn quote_skip_spec(skip: Seq<char>, config: ConfigView) -> Seq<char> {
    "let ("@ + config.input_name + ", _) = { let skip = "@ + skip
        + " as usize; nom::bytes::streaming::take(skip)("@ + config.input_name + ") }?; "@
}

/// The statement that fails when `cond` holds.
pub open spec fn quote_error_if_spec(cond: Seq<char>, config: ConfigView) -> Seq<char> {
    "if "@ + cond + " { return Err(nom::Err::Error(nom::error::make_error("@ + config.input_name
        + ", nom::error::ErrorKind::Verify))); } "@
}

/// The statement of the host language for one step.
pub open spec fn step_tokens_spec(step: StepView, config: ConfigView) -> Seq<char> {
    match step {
        StepView::Exec(code) => code + " "@,
        StepView::Align(a) => quote_align_spec(a, config),
        StepView::Skip(n) => quote_skip_spec(n, config),
        StepView::Move(o) => quote_move_spec(o, config),
        StepView::MoveAbs(o) => quote_move_abs_spec(o, config),
        StepView::ErrorIf(c) => quote_error_if_spec(c, config),
        StepView::Exact => quote_error_if_spec("!"@ + config.input_name + ".is_empty()"@, config),
        StepView::SetEndian(e) => "let __endianness = "@ + e + "; "@,
    }
}

/// The statements of the host language for the steps `steps`, in order.
pub open spec fn steps_tokens_spec(steps: Seq<StepView>, config: ConfigView) -> Seq<char>
    decreases steps.len(),
{
    if steps.len() == 0 {
        Seq::empty()
    } else {
        steps_tokens_spec(steps.drop_last(), config) + step_tokens_spec(steps.last(), config)
    }
}

/// Writes the statement that skips to the next multiple of `align`
/// bytes. The statement divides by `align`.
pub fn quote_align(align: &str, config: &Config) -> (r: String)
    ensures
        r@ == quote_align_spec(align@, config@),
{
    let mut out = String::from_str("let (");
    out.append(config.input_name());
    out.append(", _) = { let offset = ");
    out.append(config.input_name());
    out.append(".as_ptr() as usize - ");
    out.append(config.orig_input_name());
    out.append(".as_ptr() as usize; let align = ");
    out.append(align);
    out.append(
        " as usize; let align = ((align - (offset % align)) % align); nom::bytes::streaming::take(align)(",
    );
    out.append(config.input_name());
    out.append(") }?; ");
    out
}

/// Writes the statement that moves by the signed offset `offset`.
pub fn quote_move(offset: &str, config: &Config) -> (r: String)
    ensures
        r@ == quote_move_spec(offset@, config@),
{
    let mut out = String::from_str("let ");
    out.append(config.input_name());
    out.append(" = { let start = ");
    out.append(config.orig_input_name());
    out.append(".as_ptr() as usize; let pos = ");
    out.append(config.input_name());
    out.append(".as_ptr() as usize - start; let offset = ");
    out.append(offset);
    out.append(
        " as isize; let offset_u = offset.abs() as usize; let new_offset = if offset < 0 { if offset_u > pos { return Err(nom::Err::Error(nom::error::make_error(",
    );
    out.append(config.input_name());
    out.append(", nom::error::ErrorKind::Verify))); } pos - offset_u } else { if pos + offset_u > ");
    out.append(config.orig_input_name());
    out.append(
        ".len() { return Err(nom::Err::Incomplete(nom::Needed::new(offset_u))); } pos + offset_u }; &",
    );
    out.append(config.orig_input_name());
    out.append("[new_offset..] }; ");
    out
}

/// Writes the statement that moves to the offset `offset` from the start
/// of the input.
pub fn quote_move_abs(offset: &str, config: &Config) -> (r: String)
    ensures
        r@ == quote_move_abs_spec(offset@, config@),
{
    let mut out = String::from_str("let ");
    out.append(config.input_name());
    out.append(" = { let offset = ");
    out.append(offset);
    out.append(" as usize; if offset > ");
    out.append(config.orig_input_name());
    out.append(".len() { return Err(nom::Err::Incomplete(nom::Needed::new(offset))); } &");
    out.append(config.orig_input_name());
    out.append("[offset..] }; ");
    out
}

/// Writes the statement that skips `skip` bytes.
pub fn quote_skip(skip: &str, config: &Config) -> (r: String)
    ensures
        r@ == quote_skip_spec(skip@, config@),
{
    let mut out = String::from_str("let (");
    out.append(config.input_name());
    out.append(", _) = { let skip = ");
    out.append(skip);
    out.append(" as usize; nom::bytes::streaming::take(skip)(");
    out.append(config.input_name());
    out.append(") }?; ");
    out
}

/// Writes the statement that fails when `cond` holds.
pub fn quote_error_if(cond: &str, config: &Config) -> (r: String)
    ensures
        r@ == quote_error_if_spec(cond@, config@),
{
    let mut out = String::from_str("if ");
    out.append(cond);
    out.append(" { return Err(nom::Err::Error(nom::error::make_error(");
    out.append(config.input_name());
    out.append(", nom::error::ErrorKind::Verify))); } ");
    out
}

impl Step {
    /// The step as a statement of the host language.
    pub fn to_tokens(&self, config: &Config) -> (r: String)
        ensures
            r@ == step_tokens_spec(self@, config@),
    {
        match self {
            Step::Exec(code) => concat(code.as_str(), " "),
            Step::Align(a) => quote_align(a.as_str(), config),
            Step::Skip(n) => quote_skip(n.as_str(), config),
            Step::Move(o) => quote_move(o.as_str(), config),
            Step::MoveAbs(o) => quote_move_abs(o.as_str(), config),
            Step::ErrorIf(c) => quote_error_if(c.as_str(), config),
            Step::Exact => {
                let mut cond = String::from_str("!");
                cond.append(config.input_name());
                cond.append(".is_empty()");
                quote_error_if(cond.as_str(), config)
            },
            Step::SetEndian(e) => {
                let mut out = String::from_str("let __endianness = ");
                out.append(e.as_str());
                out.append("; ");
                out
            },
        }
    }
}

/// The steps as statements of the host language.
pub fn steps_to_tokens(steps: &Vec<Step>, config: &Config) -> (r: String)
    ensures
        r@ == steps_tokens_spec(steps_view(steps@), config@),
{
    let ghost views = steps_view(steps@);
    let mut out = String::new();
    let mut i: usize = 0;
    while i < steps.len()
        invariant
            i <= steps.len(),
            views == steps_view(steps@),
            out@ == steps_tokens_spec(views.take(i as int), config@),
        decreases steps.len() - i,
    {
        proof {
            assert(views.take(i as int + 1).drop_last() =~= views.take(i as int));
            assert(views.take(i as int + 1).last() == steps[i as int]@);
        }
        out.append(steps[i].to_tokens(config).as_str());
        i += 1;
    }
    proof {
        assert(views.take(steps.len() as int) =~= views);
    }
    out
}


/// Whether no plan of `parsers` leaves a read to the entry point.
pub open spec fn all_resolved(parsers: Seq<StructParserView>) -> bool {
    forall|i: int| 0 <= i < parsers.len() ==> (#[trigger] parsers[i]).item.expr.is_resolved()
}

/// Where the struct has a byte order, the parser inferred for a field
/// leaves no read to the entry point.
pub proof fn lemma_inferred_parser_is_resolved(
    ident: Option<Seq<char>>,
    ty: TypeView,
    sub: Seq<MetaAttrView>,
    all: Seq<MetaAttrView>,
    config: ConfigView,
)
    requires
        object_endianness_spec(config) != ParserEndianness::Unspecified,
        get_parser_spec(ident, ty, sub, all, config) is Ok,
    ensures
        get_parser_spec(ident, ty, sub, all, config)->Ok_0.is_resolved(),
    decreases sub.len(),
{
    if sub.len() > 0 && !is_terminal(sub[0].attr_type) {
        if is_wrapping(sub[0].attr_type) {
            lemma_inferred_parser_is_resolved(
                ident,
                inner_type_spec(sub[0], ty)->Ok_0,
                sub.skip(1),
                all,
                config,
            );
        } else {
            lemma_inferred_parser_is_resolved(ident, ty, sub.skip(1), all, config);
        }
    }
}

/// Where the struct has a byte order, no plan of its fields leaves a read
/// to the entry point.
pub proof fn lemma_field_plans_are_resolved(
    fields: Seq<Field>,
    idx: nat,
    config: ConfigView,
    acc: Seq<StructParserView>,
)
    requires
        object_endianness_spec(config) != ParserEndianness::Unspecified,
        all_resolved(acc),
        parse_field_list_spec(fields, idx, config, acc) is Ok,
    ensures
        all_resolved(parse_field_list_spec(fields, idx, config, acc)->Ok_0),
    decreases fields.len() - idx,
{
    if idx < fields.len() {
        let field = fields[idx as int];
        let metas = parse_attributes_spec(field.attrs@, Scope::FieldLevel)->Ok_0;
        lemma_inferred_parser_is_resolved(field.ident_spec(), field.ty@, metas, metas, config);
        let p = parse_field_spec(field, idx, config)->Ok_0;
        let inferred = get_parser_spec(field.ident_spec(), field.ty@, metas, metas, config)->Ok_0;
        assert(p.item.expr.is_resolved()) by {
            reveal_with_fuel(ParserExprView::is_resolved, 3);
            assert(p.item.expr == apply_config_spec(field.ident_spec(), inferred, config)->Ok_0);
        }
        assert forall|i: int| 0 <= i < acc.push(p).len() implies (#[trigger] acc.push(
            p,
        )[i]).item.expr.is_resolved() by {
            if i < acc.len() {
                assert(acc.push(p)[i] == acc[i]);
            } else {
                assert(acc.push(p)[i] == p);
            }
        }
        lemma_field_plans_are_resolved(
            fields,
            idx + 1,
            config_after_spec(field, config),
            acc.push(p),
        );
    }
}

} // verus!
