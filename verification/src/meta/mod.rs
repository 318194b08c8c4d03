//! The vocabulary of `nom` attributes and their validation.

pub mod attr;
pub mod attr_list;
pub mod error;
pub mod syntax;

use vstd::prelude::*;
use vstd::string::StringExecFns;
use crate::meta::attr::{attrs_view, display_spec, from_meta_spec, Meta, MetaAttr, MetaAttrView};
use crate::meta::attr_list::AttrList;
use crate::meta::error::{ErrorKind, MetaError, MetaErrorView, Span};
use crate::text::str_eq;

verus! {

/// One attribute of a declaration: `#[path(metas)]`.
#[derive(Debug, PartialEq, Eq)]
pub struct Attribute {
    pub path: String,
    pub metas: Vec<Meta>,
    pub span: Span,
}

impl Attribute {
    /// The attribute `#[nom(metas)]`.
    pub fn nom(metas: Vec<Meta>) -> (r: Attribute)
        ensures
            r.path@ == "nom"@,
            r.metas == metas,
            r.span == Span::call_site_spec(),
    {
        Attribute { path: String::from_str("nom"), metas, span: Span::call_site() }
    }

    /// The attribute `#[repr(name)]`.
    pub fn repr(name: &str) -> (r: Attribute)
        ensures
            r.path@ == "repr"@,
            r.metas@.len() == 1,
            r.metas@[0] is Path,
            r.metas@[0].name_spec() == name@,
            r.span == Span::call_site_spec(),
    {
        let mut metas: Vec<Meta> = Vec::new();
        metas.push(Meta::path(name));
        Attribute { path: String::from_str("repr"), metas, span: Span::call_site() }
    }
}

/// Where a list of attributes stands.
#[derive(Clone, Copy, Debug, PartialEq, Eq, Structural)]
pub enum Scope {
    /// On a struct or an enum.
    TopLevel,
    /// On a field or a variant.
    FieldLevel,
}

/// Whether an attribute of this kind may stand in `scope`.
pub open spec fn acceptable_spec(attr: MetaAttrView, scope: Scope) -> bool {
    match scope {
        Scope::TopLevel => attr.attr_type.top_level_spec(),
        Scope::FieldLevel => attr.attr_type.field_level_spec(),
    }
}

/// The error for an attribute that may not stand in `scope`.
pub open spec fn rejected_spec(attr: MetaAttrView, scope: Scope) -> MetaErrorView {
    MetaErrorView {
        kind: match scope {
            Scope::TopLevel => ErrorKind::NotTopLevel,
            Scope::FieldLevel => ErrorKind::NotFieldLevel,
        },
        span: attr.span,
        detail: display_spec(attr),
    }
}

/// The attributes that `metas` stand for, after those of `acc`, or the
/// first error among them.
pub open spec fn collect_metas_spec(metas: Seq<Meta>, acc: Seq<MetaAttrView>) -> Result<
    Seq<MetaAttrView>,
    MetaErrorView,
>
    decreases metas.len(),
{
    if metas.len() == 0 {
        Ok(acc)
    } else {
        match from_meta_spec(metas[0]) {
            Err(e) => Err(e),
            Ok(a) => collect_metas_spec(metas.skip(1), acc.push(a)),
        }
    }
}

/// The attributes that the items of the attribute `attr` stand for, in
/// order, or the first error among them.
pub open spec fn meta_from_nom_attribute_spec(attr: Attribute) -> Result<
    Seq<MetaAttrView>,
    MetaErrorView,
> {
    collect_metas_spec(attr.metas@, Seq::empty())
}

/// The attributes of every `nom` attribute of `attrs`, in order and after
/// those of `acc`, or the first error among them. Attributes with another
/// path are passed over.
pub open spec fn collect_attrs_spec(attrs: Seq<Attribute>, acc: Seq<MetaAttrView>) -> Result<
    Seq<MetaAttrView>,
    MetaErrorView,
>
    decreases attrs.len(),
{
    if attrs.len() == 0 {
        Ok(acc)
    } else if attrs[0].path@ == "nom"@ {
        match meta_from_nom_attribute_spec(attrs[0]) {
            Err(e) => Err(e),
            Ok(list) => collect_attrs_spec(attrs.skip(1), acc + list),
        }
    } else {
        collect_attrs_spec(attrs.skip(1), acc)
    }
}

/// The error for the first attribute of `list` that may not stand in
/// `scope`, if there is one.
pub open spec fn check_scope_spec(list: Seq<MetaAttrView>, scope: Scope) -> Option<MetaErrorView>
    decreases list.len(),
{
    if list.len() == 0 {
        None
    } else if !acceptable_spec(list[0], scope) {
        Some(rejected_spec(list[0], scope))
    } else {
        check_scope_spec(list.skip(1), scope)
    }
}

/// The validated attributes of a declaration that stands in `scope`: every
/// item of its `nom` attributes, in order; or the first item that is not in
/// the vocabulary or lacks its argument; or, when every item is valid, the
/// first that may not stand in `scope`.
pub open spec fn parse_attributes_spec(attrs: Seq<Attribute>, scope: Scope) -> Result<
    Seq<MetaAttrView>,
    MetaErrorView,
> {
    match collect_attrs_spec(attrs, Seq::empty()) {
        Err(e) => Err(e),
        Ok(list) => match check_scope_spec(list, scope) {
            Some(e) => Err(e),
            None => Ok(list),
        },
    }
}

/// Validates the items of one `nom` attribute.
pub fn meta_from_nom_attribute(attr: &Attribute) -> (r: Result<AttrList, MetaError>)
    ensures
        match r {
            Ok(list) => meta_from_nom_attribute_spec(*attr) == Ok::<
                Seq<MetaAttrView>,
                MetaErrorView,
            >(list@),
            Err(e) => meta_from_nom_attribute_spec(*attr) == Err::<
                Seq<MetaAttrView>,
                MetaErrorView,
            >(e@),
        },
{
    let metas = &attr.metas;
    let mut out: Vec<MetaAttr> = Vec::new();
    let mut i: usize = 0;
    proof {
        assert(metas@.skip(0) =~= metas@);
        assert(attrs_view(out@) =~= Seq::empty());
    }
    while i < metas.len()
        invariant
            i <= metas.len(),
            metas@ == attr.metas@,
            collect_metas_spec(metas@, Seq::empty()) == collect_metas_spec(
                metas@.skip(i as int),
                attrs_view(out@),
            ),
        decreases metas.len() - i,
    {
        proof {
            assert(metas@.skip(i as int).skip(1) =~= metas@.skip(i as int + 1));
        }
        match MetaAttr::from_meta(&metas[i]) {
            Err(e) => {
                return Err(e);
            },
            Ok(a) => {
                proof {
                    assert(attrs_view(out@.push(a)) =~= attrs_view(out@).push(a@));
                }
                out.push(a);
            },
        }
        i += 1;
    }
    Ok(AttrList(out))
}

/// Validates the items of every `nom` attribute of `attrs`.
fn collect_attrs(attrs: &[Attribute]) -> (r: Result<Vec<MetaAttr>, MetaError>)
    ensures
        match r {
            Ok(v) => collect_attrs_spec(attrs@, Seq::empty()) == Ok::<
                Seq<MetaAttrView>,
                MetaErrorView,
            >(attrs_view(v@)),
            Err(e) => collect_attrs_spec(attrs@, Seq::empty()) == Err::<
                Seq<MetaAttrView>,
                MetaErrorView,
            >(e@),
        },
{
    let mut out: Vec<MetaAttr> = Vec::new();
    let mut i: usize = 0;
    proof {
        assert(attrs_view(out@) =~= Seq::empty());
        assert(attrs@.skip(0) =~= attrs@);
    }
    while i < attrs.len()
        invariant
            i <= attrs.len(),
            collect_attrs_spec(attrs@, Seq::empty()) == collect_attrs_spec(
                attrs@.skip(i as int),
                attrs_view(out@),
            ),
        decreases attrs.len() - i,
    {
        proof {
            assert(attrs@.skip(i as int).skip(1) =~= attrs@.skip(i as int + 1));
        }
        if str_eq(attrs[i].path.as_str(), "nom") {
            let mut list = meta_from_nom_attribute(&attrs[i])?;
            proof {
                assert(attrs_view(out@ + list.0@) =~= attrs_view(out@) + attrs_view(list.0@));
            }
            out.append(&mut list.0);
        }
        i += 1;
    }
    Ok(out)
}

/// Looks for the first attribute that may not stand in `scope`.
fn check_scope(list: &Vec<MetaAttr>, scope: Scope) -> (r: Option<MetaError>)
    ensures
        match r {
            Some(e) => check_scope_spec(attrs_view(list@), scope) == Some(e@),
            None => check_scope_spec(attrs_view(list@), scope).is_none(),
        },
{
    let ghost views = attrs_view(list@);
    let mut i: usize = 0;
    proof {
        assert(views.skip(0) =~= views);
    }
    while i < list.len()
        invariant
            i <= list.len(),
            views == attrs_view(list@),
            check_scope_spec(views, scope) == check_scope_spec(views.skip(i as int), scope),
        decreases list.len() - i,
    {
        proof {
            assert(views.skip(i as int).skip(1) =~= views.skip(i as int + 1));
            assert(views.skip(i as int)[0] == list[i as int]@);
        }
        let ok = match scope {
            Scope::TopLevel => list[i].acceptable_tla(),
            Scope::FieldLevel => list[i].acceptable_fla(),
        };
        if !ok {
            let kind = match scope {
                Scope::TopLevel => ErrorKind::NotTopLevel,
                Scope::FieldLevel => ErrorKind::NotFieldLevel,
            };
            return Some(MetaError::new(kind, list[i].span, list[i].display()));
        }
        i += 1;
    }
    None
}

/// Validates the attributes of a declaration that stands in `scope`.
pub fn parse_attributes(attrs: &[Attribute], scope: Scope) -> (r: Result<Vec<MetaAttr>, MetaError>)
    ensures
        match r {
            Ok(v) => parse_attributes_spec(attrs@, scope) == Ok::<
                Seq<MetaAttrView>,
                MetaErrorView,
            >(attrs_view(v@)),
            Err(e) => parse_attributes_spec(attrs@, scope) == Err::<
                Seq<MetaAttrView>,
                MetaErrorView,
            >(e@),
        },
{
    let list = collect_attrs(attrs)?;
    match check_scope(&list, scope) {
        Some(e) => Err(e),
        None => Ok(list),
    }
}

/// Validates the attributes of a struct or an enum.
pub fn parse_nom_top_level_attribute(attrs: &[Attribute]) -> (r: Result<Vec<MetaAttr>, MetaError>)
    ensures
        match r {
            Ok(v) => parse_attributes_spec(attrs@, Scope::TopLevel) == Ok::<
                Seq<MetaAttrView>,
                MetaErrorView,
            >(attrs_view(v@)),
            Err(e) => parse_attributes_spec(attrs@, Scope::TopLevel) == Err::<
                Seq<MetaAttrView>,
                MetaErrorView,
            >(e@),
        },
{
    parse_attributes(attrs, Scope::TopLevel)
}

/// Validates the attributes of a field or a variant.
pub fn parse_nom_attribute(attrs: &[Attribute]) -> (r: Result<Vec<MetaAttr>, MetaError>)
    ensures
        match r {
            Ok(v) => parse_attributes_spec(attrs@, Scope::FieldLevel) == Ok::<
                Seq<MetaAttrView>,
                MetaErrorView,
            >(attrs_view(v@)),
            Err(e) => parse_attributes_spec(attrs@, Scope::FieldLevel) == Err::<
                Seq<MetaAttrView>,
                MetaErrorView,
            >(e@),
        },
{
    parse_attributes(attrs, Scope::FieldLevel)
}

} // verus!
