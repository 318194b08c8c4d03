//! The declared type of a field, as far as the compiler looks into it.

use vstd::prelude::*;
use vstd::string::StringExecFns;
use crate::meta::error::{ErrorKind, MetaError, MetaErrorView, Span};
use crate::text::{decimal, usize_to_string};

verus! {

/// The length of an array type.
#[derive(Debug, PartialEq, Eq)]
pub enum ArrayLength {
    /// An integer literal.
    Literal(usize),
    /// Any other expression, as tokens.
    Expr(String),
}

/// What an `ArrayLength` holds, as plain values.
pub enum ArrayLengthView {
    Literal(usize),
    Expr(Seq<char>),
}

impl View for ArrayLength {
    type V = ArrayLengthView;

    open spec fn view(&self) -> ArrayLengthView {
        match self {
            ArrayLength::Literal(n) => ArrayLengthView::Literal(*n),
            ArrayLength::Expr(e) => ArrayLengthView::Expr(e@),
        }
    }
}

/// A declared type.
#[derive(Debug, PartialEq, Eq)]
pub enum Type {
    /// A path of one segment without arguments: `u32`.
    Path { ident: String, span: Span },
    /// A path of one segment with one type between angle brackets:
    /// `Option<T>`.
    Generic { ident: String, argument: Box<Type>, span: Span },
    /// A path of one segment with any other arguments, kept as tokens:
    /// `LengthData<u16, Vec<u8>>`.
    Parameterized { ident: String, arguments: String, span: Span },
    /// An array: `[T; 4]`.
    Array { element: Box<Type>, length: ArrayLength, span: Span },
    /// A path of several segments, kept as tokens.
    Qualified { tokens: String, span: Span },
    /// Any other type, kept as tokens.
    Other { tokens: String, span: Span },
}

/// What a `Type` holds, as plain values.
pub enum TypeView {
    Path { ident: Seq<char>, span: Span },
    Generic { ident: Seq<char>, argument: Box<TypeView>, span: Span },
    Parameterized { ident: Seq<char>, arguments: Seq<char>, span: Span },
    Array { element: Box<TypeView>, length: ArrayLengthView, span: Span },
    Qualified { tokens: Seq<char>, span: Span },
    Other { tokens: Seq<char>, span: Span },
}

/// What the type `ty` holds, as plain values.
pub open spec fn type_view(ty: Type) -> TypeView
    decreases ty,
{
    match ty {
        Type::Path { ident, span } => TypeView::Path { ident: ident@, span },
        Type::Generic { ident, argument, span } => TypeView::Generic {
            ident: ident@,
            argument: Box::new(type_view(*argument)),
            span,
        },
        Type::Parameterized { ident, arguments, span } => TypeView::Parameterized {
            ident: ident@,
            arguments: arguments@,
            span,
        },
        Type::Array { element, length, span } => TypeView::Array {
            element: Box::new(type_view(*element)),
            length: length@,
            span,
        },
        Type::Qualified { tokens, span } => TypeView::Qualified { tokens: tokens@, span },
        Type::Other { tokens, span } => TypeView::Other { tokens: tokens@, span },
    }
}

impl View for Type {
    type V = TypeView;

    open spec fn view(&self) -> TypeView {
        type_view(*self)
    }
}

impl TypeView {
    /// The place where the type is written.
    pub open spec fn span(self) -> Span {
        match self {
            TypeView::Path { span, .. } => span,
            TypeView::Generic { span, .. } => span,
            TypeView::Parameterized { span, .. } => span,
            TypeView::Array { span, .. } => span,
            TypeView::Qualified { span, .. } => span,
            TypeView::Other { span, .. } => span,
        }
    }

    /// The type as it is written.
    pub open spec fn tokens(self) -> Seq<char>
        decreases self,
    {
        match self {
            TypeView::Path { ident, .. } => ident,
            TypeView::Generic { ident, argument, .. } => ident + "<"@ + argument.tokens() + ">"@,
            TypeView::Parameterized { ident, arguments, .. } => ident + "<"@ + arguments + ">"@,
            TypeView::Array { element, length, .. } => "["@ + element.tokens() + "; "@ + (
            match length {
                ArrayLengthView::Literal(n) => decimal(n as nat),
                ArrayLengthView::Expr(e) => e,
            }) + "]"@,
            TypeView::Qualified { tokens, .. } => tokens,
            TypeView::Other { tokens, .. } => tokens,
        }
    }

    /// The leading identifier of the type: the one of a path of one
    /// segment, or that of the element of an array.
    pub open spec fn first_ident(self) -> Result<Seq<char>, MetaErrorView>
        decreases self,
    {
        match self {
            TypeView::Path { ident, .. } => Ok(ident),
            TypeView::Generic { ident, .. } => Ok(ident),
            TypeView::Parameterized { ident, .. } => Ok(ident),
            TypeView::Array { element, .. } => element.first_ident(),
            TypeView::Qualified { tokens, span } => Err(
                MetaErrorView { kind: ErrorKind::MultipleSegments, span, detail: tokens },
            ),
            TypeView::Other { tokens, span } => Err(
                MetaErrorView { kind: ErrorKind::NoPathIdent, span, detail: tokens },
            ),
        }
    }
}

impl ArrayLength {
    pub fn duplicate(&self) -> (r: ArrayLength)
        ensures
            r@ == self@,
    {
        match self {
            ArrayLength::Literal(n) => ArrayLength::Literal(*n),
            ArrayLength::Expr(e) => ArrayLength::Expr(e.clone()),
        }
    }
}

impl Type {
    /// A type named `ident`.
    pub fn named(ident: &str) -> (r: Type)
        ensures
            r@ == (TypeView::Path { ident: ident@, span: Span::call_site_spec() }),
    {
        Type::Path { ident: String::from_str(ident), span: Span::call_site() }
    }

    /// The type `ident<argument>`.
    pub fn generic(ident: &str, argument: Type) -> (r: Type)
        ensures
            r@ == (TypeView::Generic {
                ident: ident@,
                argument: Box::new(argument@),
                span: Span::call_site_spec(),
            }),
    {
        Type::Generic {
            ident: String::from_str(ident),
            argument: Box::new(argument),
            span: Span::call_site(),
        }
    }

    /// The type `[element; length]`.
    pub fn array(element: Type, length: usize) -> (r: Type)
        ensures
            r@ == (TypeView::Array {
                element: Box::new(element@),
                length: ArrayLengthView::Literal(length),
                span: Span::call_site_spec(),
            }),
    {
        Type::Array {
            element: Box::new(element),
            length: ArrayLength::Literal(length),
            span: Span::call_site(),
        }
    }

    /// A type that is kept as tokens.
    pub fn other(tokens: &str) -> (r: Type)
        ensures
            r@ == (TypeView::Other { tokens: tokens@, span: Span::call_site_spec() }),
    {
        Type::Other { tokens: String::from_str(tokens), span: Span::call_site() }
    }

    /// A copy of the type.
    pub fn duplicate(&self) -> (r: Type)
        ensures
            r@ == self@,
        decreases self,
    {
        match self {
            Type::Path { ident, span } => Type::Path { ident: ident.clone(), span: *span },
            Type::Generic { ident, argument, span } => Type::Generic {
                ident: ident.clone(),
                argument: Box::new(argument.duplicate()),
                span: *span,
            },
            Type::Parameterized { ident, arguments, span } => Type::Parameterized {
                ident: ident.clone(),
                arguments: arguments.clone(),
                span: *span,
            },
            Type::Array { element, length, span } => Type::Array {
                element: Box::new(element.duplicate()),
                length: length.duplicate(),
                span: *span,
            },
            Type::Qualified { tokens, span } => Type::Qualified {
                tokens: tokens.clone(),
                span: *span,
            },
            Type::Other { tokens, span } => Type::Other { tokens: tokens.clone(), span: *span },
        }
    }

    /// The place where the type is written.
    pub fn span(&self) -> (r: Span)
        ensures
            r == self@.span(),
    {
        match self {
            Type::Path { span, .. } => *span,
            Type::Generic { span, .. } => *span,
            Type::Parameterized { span, .. } => *span,
            Type::Array { span, .. } => *span,
            Type::Qualified { span, .. } => *span,
            Type::Other { span, .. } => *span,
        }
    }

    /// The type as it is written.
    pub fn to_tokens(&self) -> (r: String)
        ensures
            r@ == self@.tokens(),
        decreases self,
    {
        match self {
            Type::Path { ident, .. } => ident.clone(),
            Type::Generic { ident, argument, .. } => {
                let mut out = ident.clone();
                out.append("<");
                let inner = argument.to_tokens();
                out.append(inner.as_str());
                out.append(">");
                out
            },
            Type::Parameterized { ident, arguments, .. } => {
                let mut out = ident.clone();
                out.append("<");
                out.append(arguments.as_str());
                out.append(">");
                out
            },
            Type::Array { element, length, .. } => {
                let mut out = String::from_str("[");
                let inner = element.to_tokens();
                out.append(inner.as_str());
                out.append("; ");
                match length {
                    ArrayLength::Literal(n) => {
                        let digits = usize_to_string(*n);
                        out.append(digits.as_str());
                    },
                    ArrayLength::Expr(e) => {
                        out.append(e.as_str());
                    },
                }
                out.append("]");
                out
            },
            Type::Qualified { tokens, .. } => tokens.clone(),
            Type::Other { tokens, .. } => tokens.clone(),
        }
    }
}

/// The leading identifier of the type.
pub fn get_type_first_ident(ty: &Type) -> (r: Result<String, MetaError>)
    ensures
        match r {
            Ok(s) => ty@.first_ident() == Ok::<Seq<char>, MetaErrorView>(s@),
            Err(e) => ty@.first_ident() == Err::<Seq<char>, MetaErrorView>(e@),
        },
    decreases ty,
{
    match ty {
        Type::Path { ident, .. } => Ok(ident.clone()),
        Type::Generic { ident, .. } => Ok(ident.clone()),
        Type::Parameterized { ident, .. } => Ok(ident.clone()),
        Type::Array { element, .. } => get_type_first_ident(element),
        Type::Qualified { tokens, span } => Err(
            MetaError::new(ErrorKind::MultipleSegments, *span, tokens.clone()),
        ),
        Type::Other { tokens, span } => Err(
            MetaError::new(ErrorKind::NoPathIdent, *span, tokens.clone()),
        ),
    }
}

} // verus!
