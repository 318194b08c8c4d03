//! Errors found while a description is compiled, each with its place in the
//! source.

use vstd::prelude::*;
use vstd::string::{StrSliceExecFns, StringExecFns};

verus! {

/// A place in the source of the description. The caller chooses the two
/// numbers that name a place, such as the offsets of its first character
/// and of the character after its last; the library hands them back with
/// each error.
#[derive(Clone, Copy, Debug, PartialEq, Eq, Structural)]
pub struct Span {
    pub start: usize,
    pub end: usize,
}

impl Span {
    /// The place used when an error belongs to the whole description.
    pub fn call_site() -> (r: Span)
        ensures
            r == Span::call_site_spec(),
    {
        Span { start: 0, end: 0 }
    }

    pub open spec fn call_site_spec() -> Span {
        Span { start: 0, end: 0 }
    }
}

/// What went wrong.
#[derive(Clone, Copy, Debug, PartialEq, Eq, Structural)]
pub enum ErrorKind {
    /// The attribute name is not in the vocabulary.
    UnknownAttribute,
    /// The attribute takes an argument and none was given, or it was given
    /// as something else than a string literal after `=`.
    MissingArgument,
    /// The attribute takes no argument and one was given.
    UnexpectedArgument,
    /// The argument is not in the grammar that the attribute expects.
    InvalidArgument,
    /// The attribute cannot stand on a struct or an enum.
    NotTopLevel,
    /// The attribute cannot stand on a field or a variant.
    NotFieldLevel,
    /// Both `BigEndian` and `LittleEndian` stand on the struct or enum.
    StructEndianConflict,
    /// Two or more of `BigEndian`, `LittleEndian` and `SetEndian` stand in
    /// one attribute list.
    EndianConflict,
    /// Big and little endian are both asked for, by the entry point and by
    /// the attributes of the object.
    ObjectEndianConflict,
    /// `SetEndian` stands beside a fixed byte order.
    SetEndianConflict,
    /// The type is a path of several segments.
    MultipleSegments,
    /// The type has no leading identifier.
    NoPathIdent,
    /// The attribute needs a field of another type.
    UnexpectedType,
    /// The attribute needs the name of the field, and the field has none.
    UnnamedField,
    /// A variant of an enum with a selector gives no selector pattern.
    MissingSelector,
    /// An enum with fields has no `Selector` attribute.
    EnumWithoutSelector,
    /// A fieldless enum has neither a `repr` nor a `Selector` attribute.
    MissingRepr,
    /// The `repr` of a fieldless enum is not a primitive integer type.
    InvalidRepr,
    /// A discriminant is beyond the largest integer.
    DiscriminantOverflow,
    /// The extra arguments hold `self` or a pattern that is no identifier.
    InvalidExtraArgs,
    /// A fieldless enum cannot read its discriminant with a byte order
    /// chosen at run time.
    UnsupportedSetEndian,
    /// A fieldless enum cannot take extra arguments.
    UnsupportedExtraArgs,
    /// Unions cannot be decoded.
    UnsupportedUnion,
}

/// An error of the compilation: its kind, the place it belongs to, and the
/// text it is about (an attribute, a type, a name), which may be empty.
#[derive(Debug, PartialEq, Eq)]
pub struct MetaError {
    pub kind: ErrorKind,
    pub span: Span,
    pub detail: String,
}

/// What a `MetaError` holds, as plain values.
pub struct MetaErrorView {
    pub kind: ErrorKind,
    pub span: Span,
    pub detail: Seq<char>,
}

impl View for MetaError {
    type V = MetaErrorView;

    open spec fn view(&self) -> MetaErrorView {
        MetaErrorView { kind: self.kind, span: self.span, detail: self.detail@ }
    }
}

impl MetaError {
    pub fn new(kind: ErrorKind, span: Span, detail: String) -> (r: MetaError)
        ensures
            r@ == (MetaErrorView { kind, span, detail: detail@ }),
    {
        MetaError { kind, span, detail }
    }
}


/// What an error of each kind says.
pub open spec fn headline_spec(kind: ErrorKind) -> Seq<char> {
    match kind {
        ErrorKind::UnknownAttribute => "Unknown attribute"@,
        ErrorKind::MissingArgument => "Unexpected type for nom attribute content (!LitStr)"@,
        ErrorKind::UnexpectedArgument => "Attribute takes no argument"@,
        ErrorKind::InvalidArgument => "Cannot parse the argument of the attribute"@,
        ErrorKind::NotTopLevel => "Attribute is not valid for top-level"@,
        ErrorKind::NotFieldLevel => "Attribute is not valid for field-level"@,
        ErrorKind::StructEndianConflict => "Struct cannot be both big and little endian"@,
        ErrorKind::EndianConflict => "cannot be both big, little and/or set endian"@,
        ErrorKind::ObjectEndianConflict => "Object cannot be both big and little endian"@,
        ErrorKind::SetEndianConflict => "Object cannot be both SetEndian, and specify big or little endian"@,
        ErrorKind::MultipleSegments => "Nom-derive: multiple segments in type path are not supported"@,
        ErrorKind::NoPathIdent => "Nom-derive: could not get first path ident"@,
        ErrorKind::UnexpectedType => "Nom-derive: unexpected type for attribute"@,
        ErrorKind::UnnamedField => "Nom-derive: attribute cannot be used with unnamed fields"@,
        ErrorKind::MissingSelector => "Nom-derive: the 'Selector' attribute must be used to give the value of selector item"@,
        ErrorKind::EnumWithoutSelector => "Nom-derive: enums must have a 'selector' attribute"@,
        ErrorKind::MissingRepr => "Nom-derive: fieldless enums must have a 'repr' or 'selector' attribute"@,
        ErrorKind::InvalidRepr => "Nom-derive: cannot parse 'repr' content (must be a primitive type)"@,
        ErrorKind::DiscriminantOverflow => "Nom-derive: discriminant is out of range"@,
        ErrorKind::InvalidExtraArgs => "Nom-derive: cannot use the extra arguments"@,
        ErrorKind::UnsupportedSetEndian => "Nom-derive: SetEndian is not supported for fieldless enums"@,
        ErrorKind::UnsupportedExtraArgs => "Nom-derive: fieldless enums cannot have extra_args"@,
        ErrorKind::UnsupportedUnion => "Nom-derive: unions are not supported"@,
    }
}

/// The message of an error: what its kind says, then the text it is about
/// after a colon, where there is one.
pub open spec fn message_spec(e: MetaErrorView) -> Seq<char> {
    if e.detail.len() == 0 {
        headline_spec(e.kind)
    } else {
        headline_spec(e.kind) + ": "@ + e.detail
    }
}

impl ErrorKind {
    /// What an error of this kind says.
    pub fn headline(self) -> (r: &'static str)
        ensures
            r@ == headline_spec(self),
    {
        match self {
            ErrorKind::UnknownAttribute => "Unknown attribute",
            ErrorKind::MissingArgument => "Unexpected type for nom attribute content (!LitStr)",
            ErrorKind::UnexpectedArgument => "Attribute takes no argument",
            ErrorKind::InvalidArgument => "Cannot parse the argument of the attribute",
            ErrorKind::NotTopLevel => "Attribute is not valid for top-level",
            ErrorKind::NotFieldLevel => "Attribute is not valid for field-level",
            ErrorKind::StructEndianConflict => "Struct cannot be both big and little endian",
            ErrorKind::EndianConflict => "cannot be both big, little and/or set endian",
            ErrorKind::ObjectEndianConflict => "Object cannot be both big and little endian",
            ErrorKind::SetEndianConflict => "Object cannot be both SetEndian, and specify big or little endian",
            ErrorKind::MultipleSegments => "Nom-derive: multiple segments in type path are not supported",
            ErrorKind::NoPathIdent => "Nom-derive: could not get first path ident",
            ErrorKind::UnexpectedType => "Nom-derive: unexpected type for attribute",
            ErrorKind::UnnamedField => "Nom-derive: attribute cannot be used with unnamed fields",
            ErrorKind::MissingSelector => "Nom-derive: the 'Selector' attribute must be used to give the value of selector item",
            ErrorKind::EnumWithoutSelector => "Nom-derive: enums must have a 'selector' attribute",
            ErrorKind::MissingRepr => "Nom-derive: fieldless enums must have a 'repr' or 'selector' attribute",
            ErrorKind::InvalidRepr => "Nom-derive: cannot parse 'repr' content (must be a primitive type)",
            ErrorKind::DiscriminantOverflow => "Nom-derive: discriminant is out of range",
            ErrorKind::InvalidExtraArgs => "Nom-derive: cannot use the extra arguments",
            ErrorKind::UnsupportedSetEndian => "Nom-derive: SetEndian is not supported for fieldless enums",
            ErrorKind::UnsupportedExtraArgs => "Nom-derive: fieldless enums cannot have extra_args",
            ErrorKind::UnsupportedUnion => "Nom-derive: unions are not supported",
        }
    }
}

impl MetaError {
    /// The message of the error.
    pub fn message(&self) -> (r: String)
        ensures
            r@ == message_spec(self@),
    {
        let mut out = String::from_str(self.kind.headline());
        if self.detail.as_str().unicode_len() > 0 {
            out.append(": ");
            out.append(self.detail.as_str());
        }
        out
    }
}

} // verus!
