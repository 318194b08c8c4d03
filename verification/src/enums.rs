//! The variants of an enum: the plan of each, and its selector pattern.

use vstd::prelude::*;
use vstd::string::StringExecFns;
use crate::config::{Config, ConfigView};
use crate::meta::attr::{
    attrs_view, find_attr, find_last_attr, first_arg, last_attr, MetaAttr, MetaAttrType,
    MetaAttrView,
};
use crate::meta::error::{ErrorKind, MetaError, MetaErrorView, Span};
use crate::meta::{parse_attributes_spec, parse_nom_attribute, Attribute, Scope};
use crate::parsertree::{ParserExpr, ParserExprView, ParserTreeItem, ParserTreeItemView};
use crate::structs::{
    get_pre_post_exec, get_pre_post_exec_spec, parse_fields, parse_fields_spec, parsers_view,
    DataStruct, Fields, StructParser, StructParserTree, StructParserTreeView, StructParserView,
};
use crate::text::str_eq;
use crate::meta::attr::Meta;

verus! {

/// One variant of an enum.
#[derive(Debug, PartialEq, Eq)]
pub struct Variant {
    pub ident: String,
    pub fields: Fields,
    pub attrs: Vec<Attribute>,
    /// The discriminant, where the variant gives one as an integer
    /// literal.
    pub discriminant: Option<i128>,
    pub span: Span,
}

/// The body of an enum declaration.
#[derive(Debug, PartialEq, Eq)]
pub struct DataEnum {
    pub variants: Vec<Variant>,
}

/// The body of a declaration.
#[derive(Debug, PartialEq, Eq)]
pub enum Data {
    Struct(DataStruct),
    Enum(DataEnum),
    Union,
}

/// The plan for one variant: its name, its selector pattern, and the plan
/// for its fields.
#[derive(Debug, PartialEq, Eq)]
pub struct VariantParserTree {
    pub ident: String,
    pub selector_type: String,
    pub struct_def: StructParserTree,
}

/// What a `VariantParserTree` holds, as plain values.
pub struct VariantParserTreeView {
    pub ident: Seq<char>,
    pub selector_type: Seq<char>,
    pub struct_def: StructParserTreeView,
}

impl View for VariantParserTree {
    type V = VariantParserTreeView;

    open spec fn view(&self) -> VariantParserTreeView {
        VariantParserTreeView {
            ident: self.ident@,
            selector_type: self.selector_type@,
            struct_def: self.struct_def@,
        }
    }
}

/// The views of a list of variant plans, in order.
pub open spec fn variants_view(variants: Seq<VariantParserTree>) -> Seq<VariantParserTreeView> {
    variants.map_values(|v: VariantParserTree| v@)
}

/// The parser of a variant without fields: the one that its last `Parse`
/// attribute gives, or the one that reads nothing.
pub open spec fn unit_parser_spec(metas: Seq<MetaAttrView>) -> ParserExprView {
    match last_attr(metas, MetaAttrType::Parse) {
        Some(MetaAttrView { arg: Some(a), .. }) => ParserExprView::Raw(a),
        _ => ParserExprView::Nop,
    }
}

/// The plan for the variant `variant`.
///
/// The variant must give its selector pattern. Its fields are planned as
/// those of a struct. A variant without fields gets one plan, bound to
/// `_`, with the parser that its `Parse` attribute gives and the steps of
/// its own attributes.
pub open spec fn parse_variant_spec(variant: Variant, config: ConfigView) -> Result<
    VariantParserTreeView,
    MetaErrorView,
> {
    match parse_attributes_spec(variant.attrs@, Scope::FieldLevel) {
        Err(e) => Err(e),
        Ok(metas) => match first_arg(metas, MetaAttrType::Selector) {
            None => Err(
                MetaErrorView {
                    kind: ErrorKind::MissingSelector,
                    span: variant.span,
                    detail: variant.ident@,
                },
            ),
            Some(selector) => match parse_fields_spec(variant.fields, config) {
                Err(e) => Err(e),
                Ok(def) => if variant.fields is Unit {
                    match get_pre_post_exec_spec(metas) {
                        Err(e) => Err(e),
                        Ok((pre, post)) => Ok(
                            VariantParserTreeView {
                                ident: variant.ident@,
                                selector_type: selector,
                                struct_def: StructParserTreeView {
                                    parsers: def.parsers.push(
                                        StructParserView {
                                            name: "_"@,
                                            item: ParserTreeItemView {
                                                ident: Some(variant.ident@),
                                                expr: unit_parser_spec(metas),
                                            },
                                            pre_exec: pre,
                                            post_exec: post,
                                        },
                                    ),
                                    ..def
                                },
                            },
                        ),
                    }
                } else {
                    Ok(
                        VariantParserTreeView {
                            ident: variant.ident@,
                            selector_type: selector,
                            struct_def: def,
                        },
                    )
                },
            },
        },
    }
}

/// A copy of the selector pattern that the attributes give.
pub fn get_selector(meta_list: &[MetaAttr]) -> (r: Option<String>)
    ensures
        match r {
            Some(s) => first_arg(attrs_view(meta_list@), MetaAttrType::Selector) == Some(s@),
            None => first_arg(attrs_view(meta_list@), MetaAttrType::Selector).is_none(),
        },
{
    match find_attr(meta_list, MetaAttrType::Selector) {
        Some(a) => match &a.arg0 {
            Some(s) => Some(s.clone()),
            None => None,
        },
        None => None,
    }
}

fn unit_parser(meta_list: &[MetaAttr]) -> (r: ParserExpr)
    ensures
        r@ == unit_parser_spec(attrs_view(meta_list@)),
{
    match find_last_attr(meta_list, MetaAttrType::Parse) {
        Some(a) => match &a.arg0 {
            Some(s) => ParserExpr::Raw(s.clone()),
            None => ParserExpr::Nop,
        },
        None => ParserExpr::Nop,
    }
}

/// Infers the plan for one variant.
pub fn parse_variant(variant: &Variant, config: &Config) -> (r: Result<
    VariantParserTree,
    MetaError,
>)
    ensures
        match r {
            Ok(t) => parse_variant_spec(*variant, config@) == Ok::<
                VariantParserTreeView,
                MetaErrorView,
            >(t@),
            Err(e) => parse_variant_spec(*variant, config@) == Err::<
                VariantParserTreeView,
                MetaErrorView,
            >(e@),
        },
{
    let meta_list = parse_nom_attribute(variant.attrs.as_slice())?;
    let selector = match get_selector(meta_list.as_slice()) {
        Some(s) => s,
        None => {
            return Err(
                MetaError::new(ErrorKind::MissingSelector, variant.span, variant.ident.clone()),
            );
        },
    };
    let mut struct_def = parse_fields(&variant.fields, config)?;
    match &variant.fields {
        Fields::Unit => {
            let p = unit_parser(meta_list.as_slice());
            let (pre, post) = get_pre_post_exec(meta_list.as_slice())?;
            let item = ParserTreeItem::new(Some(variant.ident.clone()), p);
            let sp = StructParser::new(String::from_str("_"), item, pre, post);
            proof {
                assert(parsers_view(struct_def.parsers@.push(sp)) =~= parsers_view(
                    struct_def.parsers@,
                ).push(sp@));
            }
            struct_def.parsers.push(sp);
        },
        _ => {},
    }
    Ok(VariantParserTree { ident: variant.ident.clone(), selector_type: selector, struct_def })
}

/// The name that a `repr` attribute gives: the last of its items, where
/// every item is a bare name.
pub open spec fn repr_of_metas(metas: Seq<Meta>) -> Option<(Seq<char>, Span)>
    decreases metas.len(),
{
    if metas.len() == 0 {
        None
    } else {
        match metas.last() {
            Meta::Path { name, span } => if metas.len() == 1 || repr_of_metas(
                metas.drop_last(),
            ).is_some() {
                Some((name@, span))
            } else {
                None
            },
            _ => None,
        }
    }
}

/// The representation type that the attributes of an enum give: the name
/// in the first `repr` attribute that holds bare names only.
pub open spec fn get_repr_spec(attrs: Seq<Attribute>) -> Option<(Seq<char>, Span)>
    decreases attrs.len(),
{
    if attrs.len() == 0 {
        None
    } else if attrs[0].path@ == "repr"@ && repr_of_metas(attrs[0].metas@).is_some() {
        repr_of_metas(attrs[0].metas@)
    } else {
        get_repr_spec(attrs.skip(1))
    }
}

fn repr_in(metas: &Vec<Meta>) -> (r: Option<(String, Span)>)
    ensures
        match r {
            Some(p) => repr_of_metas(metas@) == Some((p.0@, p.1)),
            None => repr_of_metas(metas@).is_none(),
        },
{
    let mut found: Option<(String, Span)> = None;
    let mut i: usize = 0;
    while i < metas.len()
        invariant
            i <= metas.len(),
            match found {
                Some(p) => repr_of_metas(metas@.take(i as int)) == Some((p.0@, p.1)),
                None => i == 0,
            },
        decreases metas.len() - i,
    {
        proof {
            assert(metas@.take(i as int + 1).drop_last() =~= metas@.take(i as int));
            assert(metas@.take(i as int + 1).last() == metas[i as int]);
        }
        match &metas[i] {
            Meta::Path { name, span } => {
                found = Some((name.clone(), *span));
            },
            _ => {
                proof {
                    lemma_repr_stays_none(metas@, i as int + 1);
                }
                return None;
            },
        }
        i += 1;
    }
    proof {
        assert(metas@.take(metas.len() as int) =~= metas@);
    }
    found
}

/// Once a prefix of `metas` gives no name, no longer prefix does.
proof fn lemma_repr_stays_none(metas: Seq<Meta>, k: int)
    requires
        0 < k <= metas.len(),
        repr_of_metas(metas.take(k)).is_none(),
    ensures
        repr_of_metas(metas).is_none(),
    decreases metas.len() - k,
{
    if k < metas.len() {
        assert(metas.take(k + 1).drop_last() =~= metas.take(k));
        lemma_repr_stays_none(metas, k + 1);
    } else {
        assert(metas.take(k) =~= metas);
    }
}

/// The representation type that the attributes of an enum give, with the
/// place where it is written.
pub fn get_repr(attrs: &[Attribute]) -> (r: Option<(String, Span)>)
    ensures
        match r {
            Some(p) => get_repr_spec(attrs@) == Some((p.0@, p.1)),
            None => get_repr_spec(attrs@).is_none(),
        },
{
    let mut i: usize = 0;
    proof {
        assert(attrs@.skip(0) =~= attrs@);
    }
    while i < attrs.len()
        invariant
            i <= attrs.len(),
            get_repr_spec(attrs@) == get_repr_spec(attrs@.skip(i as int)),
        decreases attrs.len() - i,
    {
        proof {
            assert(attrs@.skip(i as int).skip(1) =~= attrs@.skip(i as int + 1));
        }
        if str_eq(attrs[i].path.as_str(), "repr") {
            match repr_in(&attrs[i].metas) {
                Some(p) => {
                    return Some(p);
                },
                None => {},
            }
        }
        i += 1;
    }
    None
}

/// Whether no variant of the enum has fields.
pub open spec fn is_fieldless_spec(variants: Seq<Variant>) -> bool {
    forall|i: int| 0 <= i < variants.len() ==> (#[trigger] variants[i]).fields is Unit
}

fn all_unit(variants: &Vec<Variant>) -> (r: bool)
    ensures
        r == is_fieldless_spec(variants@),
{
    let mut i: usize = 0;
    while i < variants.len()
        invariant
            i <= variants.len(),
            forall|j: int| 0 <= j < i ==> (#[trigger] variants[j]).fields is Unit,
        decreases variants.len() - i,
    {
        match &variants[i].fields {
            Fields::Unit => {},
            _ => {
                assert(!(variants@[i as int].fields is Unit));
                return false;
            },
        }
        i += 1;
    }
    true
}

/// Whether the declaration is an enum whose variants have no fields.
pub fn is_input_fieldless_enum(data: &Data) -> (r: bool)
    ensures
        r == match data {
            Data::Enum(e) => is_fieldless_spec(e.variants@),
            _ => false,
        },
{
    match data {
        Data::Enum(data_enum) => all_unit(&data_enum.variants),
        _ => false,
    }
}

} // verus!
