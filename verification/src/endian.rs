//! Byte order: the four states and the rules that resolve them.

use vstd::prelude::*;
use crate::config::{from_meta_list_spec, Config, ConfigView};
use crate::meta::attr::{
    attrs_view, contains_attr, has_attr, lemma_has_attr_drop_last, MetaAttr, MetaAttrType,
    MetaAttrView,
};
use crate::meta::error::{ErrorKind, MetaError, MetaErrorView, Span};

verus! {

/// The byte order asked for at one level of a description.
#[derive(Clone, Copy, Debug, PartialEq, Eq, Structural)]
pub enum ParserEndianness {
    Unspecified,
    LittleEndian,
    BigEndian,
    /// The byte order is the value of an expression at run time.
    SetEndian,
}

/// `true` when at least two of the three flags are set.
pub open spec fn two_or_more_spec(a: bool, b: bool, c: bool) -> bool {
    (a && b) || (a && c) || (b && c)
}

/// Whether at least two of the three flags are set.
pub fn two_or_more(a: bool, b: bool, c: bool) -> (r: bool)
    ensures
        r == two_or_more_spec(a, b, c),
{
    if a {
        b || c
    } else {
        b && c
    }
}


/// Whether `kind` is one of the three attributes that give a byte order.
pub open spec fn is_endian_attr(kind: MetaAttrType) -> bool {
    kind == MetaAttrType::BigEndian || kind == MetaAttrType::LittleEndian || kind
        == MetaAttrType::SetEndian
}

/// Whether `list` asks for two or more of big, little and set endian.
pub open spec fn endian_conflict_spec(list: Seq<MetaAttrView>) -> bool {
    two_or_more_spec(
        has_attr(list, MetaAttrType::BigEndian),
        has_attr(list, MetaAttrType::LittleEndian),
        has_attr(list, MetaAttrType::SetEndian),
    )
}

/// The byte order that `list` asks for, where it asks for at most one.
pub open spec fn local_endianness_spec(list: Seq<MetaAttrView>) -> ParserEndianness {
    if has_attr(list, MetaAttrType::BigEndian) {
        ParserEndianness::BigEndian
    } else if has_attr(list, MetaAttrType::LittleEndian) {
        ParserEndianness::LittleEndian
    } else if has_attr(list, MetaAttrType::SetEndian) {
        ParserEndianness::SetEndian
    } else {
        ParserEndianness::Unspecified
    }
}

/// The more specific of two levels: `inner` where it is given, else
/// `outer`.
pub open spec fn most_specific(inner: ParserEndianness, outer: ParserEndianness)
    -> ParserEndianness {
    if inner != ParserEndianness::Unspecified {
        inner
    } else {
        outer
    }
}

/// The byte order of a struct or enum: its own where it has one, else the
/// global one.
pub open spec fn object_endianness_spec(config: ConfigView) -> ParserEndianness {
    most_specific(config.object_endianness, config.global_endianness)
}

/// The place of the last attribute of `list` that gives a byte order.
pub open spec fn last_endian_span(list: Seq<MetaAttrView>) -> Option<Span>
    decreases list.len(),
{
    if list.len() == 0 {
        None
    } else if is_endian_attr(list.last().attr_type) {
        Some(list.last().span)
    } else {
        last_endian_span(list.drop_last())
    }
}

/// The byte order of a field with attributes `list` in an object with
/// settings `config`: the one that `list` asks for, else the one of the
/// object. Asking for two or more in `list` is an error, which stands at
/// `span`.
pub open spec fn get_local_endianness_spec(span: Span, list: Seq<MetaAttrView>, config: ConfigView)
    -> Result<ParserEndianness, MetaErrorView> {
    if endian_conflict_spec(list) {
        Err(MetaErrorView { kind: ErrorKind::EndianConflict, span, detail: Seq::empty() })
    } else {
        Ok(most_specific(local_endianness_spec(list), object_endianness_spec(config)))
    }
}

/// What the three levels ask for cannot be met: big and little are both
/// asked for, or a byte order chosen at run time stands beside a fixed one.
pub open spec fn validate_endianness_spec(
    attr_endianness: ParserEndianness,
    object_endianness: ParserEndianness,
    global_endianness: ParserEndianness,
) -> Option<ErrorKind> {
    let big = attr_endianness == ParserEndianness::BigEndian || object_endianness
        == ParserEndianness::BigEndian || global_endianness == ParserEndianness::BigEndian;
    let little = attr_endianness == ParserEndianness::LittleEndian || object_endianness
        == ParserEndianness::LittleEndian || global_endianness == ParserEndianness::LittleEndian;
    let set = attr_endianness == ParserEndianness::SetEndian || object_endianness
        == ParserEndianness::SetEndian || global_endianness == ParserEndianness::SetEndian;
    if big && little {
        Some(ErrorKind::ObjectEndianConflict)
    } else if set && (big || little) {
        Some(ErrorKind::SetEndianConflict)
    } else {
        None
    }
}

/// The byte order of the struct or enum with settings `config`.
pub fn get_object_endianness(config: &Config) -> (r: ParserEndianness)
    ensures
        r == object_endianness_spec(config@),
{
    if config.object_endianness != ParserEndianness::Unspecified {
        return config.object_endianness;
    }
    config.global_endianness
}

/// Where `list` holds an attribute that gives a byte order, the last such
/// attribute has a place.
pub proof fn lemma_last_endian_span(list: Seq<MetaAttrView>, kind: MetaAttrType)
    requires
        is_endian_attr(kind),
        has_attr(list, kind),
    ensures
        last_endian_span(list).is_some(),
    decreases list.len(),
{
    if list.len() > 0 && !is_endian_attr(list.last().attr_type) {
        lemma_has_attr_drop_last(list, kind);
        lemma_last_endian_span(list.drop_last(), kind);
    }
}

fn find_last_endian_span(list: &[MetaAttr]) -> (r: Option<Span>)
    ensures
        r == last_endian_span(attrs_view(list@)),
{
    let ghost views = attrs_view(list@);
    let mut found: Option<Span> = None;
    let mut i: usize = 0;
    while i < list.len()
        invariant
            i <= list.len(),
            views == attrs_view(list@),
            found == last_endian_span(views.take(i as int)),
        decreases list.len() - i,
    {
        proof {
            assert(views.take(i as int + 1).drop_last() =~= views.take(i as int));
            assert(views.take(i as int + 1).last() == list[i as int]@);
        }
        match list[i].attr_type {
            MetaAttrType::BigEndian | MetaAttrType::LittleEndian | MetaAttrType::SetEndian => {
                found = Some(list[i].span);
            },
            _ => {},
        }
        i += 1;
    }
    proof {
        assert(views.take(list.len() as int) =~= views);
    }
    found
}

/// Gives the struct or enum the byte order `endianness` of the entry point,
/// then the one that its own attributes ask for, if any.
///
/// Asking for two or more in `meta_list` is an error, which stands at the
/// last of them; the settings then keep `endianness`.
pub fn set_object_endianness(
    span: Span,
    endianness: ParserEndianness,
    meta_list: &[MetaAttr],
    config: &mut Config,
) -> (r: Result<(), MetaError>)
    ensures
        match r {
            Ok(()) => !endian_conflict_spec(attrs_view(meta_list@)) && final(config)@ == (
                ConfigView {
                    object_endianness: most_specific(
                        local_endianness_spec(attrs_view(meta_list@)),
                        endianness,
                    ),
                    ..old(config)@
                }
            ),
            Err(e) => endian_conflict_spec(attrs_view(meta_list@)) && e@ == (
                MetaErrorView {
                    kind: ErrorKind::EndianConflict,
                    span: last_endian_span(attrs_view(meta_list@)).unwrap(),
                    detail: Seq::empty(),
                }
            ) && final(config)@ == (ConfigView { object_endianness: endianness, ..old(config)@ }),
        },
{
    config.object_endianness = endianness;
    let req_big_endian = contains_attr(meta_list, MetaAttrType::BigEndian);
    let req_little_endian = contains_attr(meta_list, MetaAttrType::LittleEndian);
    let req_set_endian = contains_attr(meta_list, MetaAttrType::SetEndian);
    if two_or_more(req_big_endian, req_little_endian, req_set_endian) {
        proof {
            if req_big_endian {
                lemma_last_endian_span(attrs_view(meta_list@), MetaAttrType::BigEndian);
            } else {
                lemma_last_endian_span(attrs_view(meta_list@), MetaAttrType::LittleEndian);
            }
        }
        let at = match find_last_endian_span(meta_list) {
            Some(s) => s,
            None => span,
        };
        return Err(MetaError::new(ErrorKind::EndianConflict, at, String::new()));
    }
    if req_big_endian {
        config.object_endianness = ParserEndianness::BigEndian;
    } else if req_little_endian {
        config.object_endianness = ParserEndianness::LittleEndian;
    } else if req_set_endian {
        config.object_endianness = ParserEndianness::SetEndian;
    }
    Ok(())
}

/// The byte order of a field with attributes `meta_list`.
pub fn get_local_endianness(span: Span, meta_list: &[MetaAttr], config: &Config) -> (r: Result<
    ParserEndianness,
    MetaError,
>)
    ensures
        match r {
            Ok(e) => get_local_endianness_spec(span, attrs_view(meta_list@), config@) == Ok::<
                ParserEndianness,
                MetaErrorView,
            >(e),
            Err(e) => get_local_endianness_spec(span, attrs_view(meta_list@), config@) == Err::<
                ParserEndianness,
                MetaErrorView,
            >(e@),
        },
{
    let req_big_endian = contains_attr(meta_list, MetaAttrType::BigEndian);
    let req_little_endian = contains_attr(meta_list, MetaAttrType::LittleEndian);
    let req_set_endian = contains_attr(meta_list, MetaAttrType::SetEndian);
    if two_or_more(req_big_endian, req_little_endian, req_set_endian) {
        return Err(MetaError::new(ErrorKind::EndianConflict, span, String::new()));
    }
    if req_big_endian {
        return Ok(ParserEndianness::BigEndian);
    } else if req_little_endian {
        return Ok(ParserEndianness::LittleEndian);
    } else if req_set_endian {
        return Ok(ParserEndianness::SetEndian);
    }
    Ok(get_object_endianness(config))
}

/// Checks that what the entry point, the object and the global setting ask
/// for can be met together. The error stands at the whole description.
pub fn validate_endianness(
    attr_endianness: ParserEndianness,
    object_endianness: ParserEndianness,
    global_endianness: ParserEndianness,
) -> (r: Result<(), MetaError>)
    ensures
        match r {
            Ok(()) => validate_endianness_spec(
                attr_endianness,
                object_endianness,
                global_endianness,
            ).is_none(),
            Err(e) => validate_endianness_spec(
                attr_endianness,
                object_endianness,
                global_endianness,
            ) == Some(e.kind) && e.span == Span::call_site_spec() && e.detail@ == Seq::<
                char,
            >::empty(),
        },
{
    let mut req_big_endian = false;
    let mut req_little_endian = false;
    let mut req_set_endian = false;
    match attr_endianness {
        ParserEndianness::Unspecified => {},
        ParserEndianness::BigEndian => req_big_endian = true,
        ParserEndianness::LittleEndian => req_little_endian = true,
        ParserEndianness::SetEndian => req_set_endian = true,
    }
    match object_endianness {
        ParserEndianness::Unspecified => {},
        ParserEndianness::BigEndian => req_big_endian = true,
        ParserEndianness::LittleEndian => req_little_endian = true,
        ParserEndianness::SetEndian => req_set_endian = true,
    }
    match global_endianness {
        ParserEndianness::Unspecified => {},
        ParserEndianness::BigEndian => req_big_endian = true,
        ParserEndianness::LittleEndian => req_little_endian = true,
        ParserEndianness::SetEndian => req_set_endian = true,
    }
    if req_big_endian && req_little_endian {
        return Err(
            MetaError::new(ErrorKind::ObjectEndianConflict, Span::call_site(), String::new()),
        );
    }
    if req_set_endian && (req_big_endian || req_little_endian) {
        return Err(MetaError::new(ErrorKind::SetEndianConflict, Span::call_site(), String::new()));
    }
    Ok(())
}

/// A byte order is fixed when it is big or little.
pub open spec fn is_fixed(e: ParserEndianness) -> bool {
    e == ParserEndianness::BigEndian || e == ParserEndianness::LittleEndian
}

/// The byte order of the decoding function that an entry point runs:
/// little for the little endian one, big for the big endian one and for
/// the one that names no byte order, which calls the big endian one. A
/// byte order chosen at run time names no entry point.
pub open spec fn entry_order_spec(endianness: ParserEndianness) -> Option<ParserEndianness> {
    match endianness {
        ParserEndianness::LittleEndian => Some(ParserEndianness::LittleEndian),
        ParserEndianness::BigEndian => Some(ParserEndianness::BigEndian),
        ParserEndianness::Unspecified => Some(ParserEndianness::BigEndian),
        ParserEndianness::SetEndian => None,
    }
}

/// The byte order of the decoding function that an entry point runs.
pub fn entry_order(endianness: ParserEndianness) -> (r: Option<ParserEndianness>)
    ensures
        r == entry_order_spec(endianness),
        r matches Some(e) ==> is_fixed(e),
{
    match endianness {
        ParserEndianness::LittleEndian => Some(ParserEndianness::LittleEndian),
        ParserEndianness::BigEndian => Some(ParserEndianness::BigEndian),
        ParserEndianness::Unspecified => Some(ParserEndianness::BigEndian),
        ParserEndianness::SetEndian => None,
    }
}

/// The byte order of a field is the most specific one that is given: the
/// one of the field, else the one of the struct or enum, else the global
/// one.
pub proof fn lemma_endianness_precedence(span: Span, list: Seq<MetaAttrView>, config: ConfigView)
    requires
        !endian_conflict_spec(list),
    ensures
        get_local_endianness_spec(span, list, config) == Ok::<ParserEndianness, MetaErrorView>(
            most_specific(
                local_endianness_spec(list),
                most_specific(config.object_endianness, config.global_endianness),
            ),
        ),
        local_endianness_spec(list) != ParserEndianness::Unspecified
            ==> get_local_endianness_spec(span, list, config) == Ok::<
            ParserEndianness,
            MetaErrorView,
        >(local_endianness_spec(list)),
        local_endianness_spec(list) == ParserEndianness::Unspecified && config.object_endianness
            != ParserEndianness::Unspecified ==> get_local_endianness_spec(span, list, config)
            == Ok::<ParserEndianness, MetaErrorView>(config.object_endianness),
        local_endianness_spec(list) == ParserEndianness::Unspecified && config.object_endianness
            == ParserEndianness::Unspecified ==> get_local_endianness_spec(span, list, config)
            == Ok::<ParserEndianness, MetaErrorView>(config.global_endianness),
{
}

/// Two byte orders given at one level are an error, whatever the other
/// levels give: two in the attributes of one field, or both big and little
/// on one struct or enum.
pub proof fn lemma_endianness_conflict(
    span: Span,
    name: Seq<char>,
    list: Seq<MetaAttrView>,
    config: ConfigView,
    a: MetaAttrType,
    b: MetaAttrType,
)
    requires
        is_endian_attr(a),
        is_endian_attr(b),
        a != b,
        has_attr(list, a),
        has_attr(list, b),
    ensures
        get_local_endianness_spec(span, list, config) is Err,
        (a != MetaAttrType::SetEndian && b != MetaAttrType::SetEndian) ==> from_meta_list_spec(
            name,
            list,
        ) is Err,
{
}

} // verus!
