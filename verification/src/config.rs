//! The settings of one struct or enum, read from its attributes.

use vstd::prelude::*;
use vstd::string::StringExecFns;
use crate::endian::ParserEndianness;
use crate::meta::attr::{
    attrs_view, contains_attr, find_attr, find_last_attr, first_arg, has_attr, last_attr,
    lemma_last_attr_exists, MetaAttr, MetaAttrType, MetaAttrView,
};
use crate::meta::error::{ErrorKind, MetaError, MetaErrorView, Span};
use crate::text::concat;

verus! {

/// The settings under which one struct or enum is compiled.
#[derive(Debug, PartialEq, Eq)]
pub struct Config {
    pub struct_name: String,
    /// The byte order of every parser, where one was fixed.
    pub global_endianness: ParserEndianness,
    /// The byte order of this struct or enum, where one was given.
    pub object_endianness: ParserEndianness,
    /// Whether every field is read with `Complete`.
    pub complete: bool,
    pub debug: bool,
    pub debug_derive: bool,
    pub generic_errors: bool,
    pub selector_type: Option<String>,
    pub selector_name: Option<String>,
    pub input_name: String,
    pub orig_input_name: String,
    pub lifetime_name: String,
    pub error_name: String,
}

/// What a `Config` holds, as plain values.
pub struct ConfigView {
    pub struct_name: Seq<char>,
    pub global_endianness: ParserEndianness,
    pub object_endianness: ParserEndianness,
    pub complete: bool,
    pub debug: bool,
    pub debug_derive: bool,
    pub generic_errors: bool,
    pub selector_type: Option<Seq<char>>,
    pub selector_name: Option<Seq<char>>,
    pub input_name: Seq<char>,
    pub orig_input_name: Seq<char>,
    pub lifetime_name: Seq<char>,
    pub error_name: Seq<char>,
}

impl View for Config {
    type V = ConfigView;

    open spec fn view(&self) -> ConfigView {
        ConfigView {
            struct_name: self.struct_name@,
            global_endianness: self.global_endianness,
            object_endianness: self.object_endianness,
            complete: self.complete,
            debug: self.debug,
            debug_derive: self.debug_derive,
            generic_errors: self.generic_errors,
            selector_type: match self.selector_type {
                Some(s) => Some(s@),
                None => None,
            },
            selector_name: match self.selector_name {
                Some(s) => Some(s@),
                None => None,
            },
            input_name: self.input_name@,
            orig_input_name: self.orig_input_name@,
            lifetime_name: self.lifetime_name@,
            error_name: self.error_name@,
        }
    }
}

/// The name of the input variable: the argument of `InputName`, or `i`.
pub open spec fn input_name_spec(list: Seq<MetaAttrView>) -> Seq<char> {
    match first_arg(list, MetaAttrType::InputName) {
        Some(name) => name,
        None => "i"@,
    }
}

/// The byte order that the attributes of a struct or enum give it.
pub open spec fn declared_endianness_spec(list: Seq<MetaAttrView>) -> ParserEndianness {
    if has_attr(list, MetaAttrType::BigEndian) {
        ParserEndianness::BigEndian
    } else if has_attr(list, MetaAttrType::LittleEndian) {
        ParserEndianness::LittleEndian
    } else {
        ParserEndianness::Unspecified
    }
}

/// The settings that the attributes `list` give to the struct or enum
/// `name`. It is an error to ask for both `BigEndian` and `LittleEndian`;
/// the error stands at the last `BigEndian`.
pub open spec fn from_meta_list_spec(name: Seq<char>, list: Seq<MetaAttrView>) -> Result<
    ConfigView,
    MetaErrorView,
> {
    if has_attr(list, MetaAttrType::BigEndian) && has_attr(list, MetaAttrType::LittleEndian) {
        Err(
            MetaErrorView {
                kind: ErrorKind::StructEndianConflict,
                span: last_attr(list, MetaAttrType::BigEndian).unwrap().span,
                detail: Seq::empty(),
            },
        )
    } else {
        Ok(
            ConfigView {
                struct_name: name,
                global_endianness: ParserEndianness::Unspecified,
                object_endianness: declared_endianness_spec(list),
                complete: has_attr(list, MetaAttrType::Complete),
                debug: has_attr(list, MetaAttrType::Debug),
                debug_derive: has_attr(list, MetaAttrType::DebugDerive),
                generic_errors: has_attr(list, MetaAttrType::GenericErrors),
                selector_type: first_arg(list, MetaAttrType::Selector),
                selector_name: if first_arg(list, MetaAttrType::Selector).is_some() {
                    Some("selector"@)
                } else {
                    None
                },
                input_name: input_name_spec(list),
                orig_input_name: "orig_"@ + input_name_spec(list),
                lifetime_name: "'nom"@,
                error_name: "NomErr"@,
            },
        )
    }
}

/// A copy of the argument of the first attribute of kind `kind`.
fn copy_first_arg(list: &[MetaAttr], kind: MetaAttrType) -> (r: Option<String>)
    ensures
        match r {
            Some(s) => first_arg(attrs_view(list@), kind) == Some(s@),
            None => first_arg(attrs_view(list@), kind).is_none(),
        },
{
    match find_attr(list, kind) {
        Some(a) => match &a.arg0 {
            Some(s) => Some(s.clone()),
            None => None,
        },
        None => None,
    }
}

impl Config {
    /// Reads the settings of the struct or enum `name` from its attributes.
    pub fn from_meta_list(name: String, l: &[MetaAttr]) -> (r: Result<Config, MetaError>)
        ensures
            match r {
                Ok(c) => from_meta_list_spec(name@, attrs_view(l@)) == Ok::<
                    ConfigView,
                    MetaErrorView,
                >(c@),
                Err(e) => from_meta_list_spec(name@, attrs_view(l@)) == Err::<
                    ConfigView,
                    MetaErrorView,
                >(e@),
            },
    {
        let req_big_endian = contains_attr(l, MetaAttrType::BigEndian);
        let req_little_endian = contains_attr(l, MetaAttrType::LittleEndian);
        if req_big_endian && req_little_endian {
            proof {
                lemma_last_attr_exists(attrs_view(l@), MetaAttrType::BigEndian);
            }
            let span = match find_last_attr(l, MetaAttrType::BigEndian) {
                Some(a) => a.span,
                None => Span::call_site(),
            };
            return Err(MetaError::new(ErrorKind::StructEndianConflict, span, String::new()));
        }
        let object_endianness = if req_big_endian {
            ParserEndianness::BigEndian
        } else if req_little_endian {
            ParserEndianness::LittleEndian
        } else {
            ParserEndianness::Unspecified
        };
        let input_name = match copy_first_arg(l, MetaAttrType::InputName) {
            Some(s) => s,
            None => String::from_str("i"),
        };
        let selector_type = copy_first_arg(l, MetaAttrType::Selector);
        let selector_name = if selector_type.is_some() {
            Some(String::from_str("selector"))
        } else {
            None
        };
        let orig_input_name = concat("orig_", input_name.as_str());
        Ok(
            Config {
                struct_name: name,
                global_endianness: ParserEndianness::Unspecified,
                object_endianness,
                complete: contains_attr(l, MetaAttrType::Complete),
                debug: contains_attr(l, MetaAttrType::Debug),
                debug_derive: contains_attr(l, MetaAttrType::DebugDerive),
                generic_errors: contains_attr(l, MetaAttrType::GenericErrors),
                selector_type,
                selector_name,
                orig_input_name,
                lifetime_name: String::from_str("'nom"),
                error_name: String::from_str("NomErr"),
                input_name,
            },
        )
    }

    /// A copy of the settings.
    pub fn duplicate(&self) -> (r: Config)
        ensures
            r@ == self@,
    {
        Config {
            struct_name: self.struct_name.clone(),
            global_endianness: self.global_endianness,
            object_endianness: self.object_endianness,
            complete: self.complete,
            debug: self.debug,
            debug_derive: self.debug_derive,
            generic_errors: self.generic_errors,
            selector_type: match &self.selector_type {
                Some(s) => Some(s.clone()),
                None => None,
            },
            selector_name: match &self.selector_name {
                Some(s) => Some(s.clone()),
                None => None,
            },
            input_name: self.input_name.clone(),
            orig_input_name: self.orig_input_name.clone(),
            lifetime_name: self.lifetime_name.clone(),
            error_name: self.error_name.clone(),
        }
    }

    /// The type of the selector, where the declaration has one.
    pub fn selector_type(&self) -> (r: Option<&String>)
        ensures
            r.is_some() == self.selector_type.is_some(),
            r.is_some() ==> r.unwrap() == self.selector_type.unwrap(),
    {
        self.selector_type.as_ref()
    }

    /// The name of the argument that holds the selector.
    pub fn selector_name(&self) -> (r: Option<&str>)
        ensures
            r.is_some() == self.selector_name.is_some(),
            r.is_some() ==> r.unwrap()@ == self.selector_name.unwrap()@,
    {
        match &self.selector_name {
            Some(s) => Some(s.as_str()),
            None => None,
        }
    }

    /// The name of the variable that holds the input that is left.
    pub fn input_name(&self) -> (r: &str)
        ensures
            r@ == self.input_name@,
    {
        self.input_name.as_str()
    }

    /// The name of the argument that holds the whole input.
    pub fn orig_input_name(&self) -> (r: &str)
        ensures
            r@ == self.orig_input_name@,
    {
        self.orig_input_name.as_str()
    }

    /// The lifetime of the input.
    pub fn lifetime_name(&self) -> (r: &str)
        ensures
            r@ == self.lifetime_name@,
    {
        self.lifetime_name.as_str()
    }

    /// The name of the error type, where it is generic.
    pub fn error_name(&self) -> (r: &str)
        ensures
            r@ == self.error_name@,
    {
        self.error_name.as_str()
    }
}

} // verus!
