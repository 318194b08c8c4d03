//! Parser expressions: the tree of decoding steps inferred for one field.

use vstd::prelude::*;
use vstd::string::StringExecFns;
use crate::endian::{is_fixed, ParserEndianness};
use crate::types::{Type, TypeView};

verus! {

/// The declared type that a parser expression reads.
#[derive(Debug, PartialEq, Eq)]
pub struct TypeItem(pub Type);

impl View for TypeItem {
    type V = TypeView;

    open spec fn view(&self) -> TypeView {
        self.0@
    }
}

impl TypeItem {
    pub fn duplicate(&self) -> (r: TypeItem)
        ensures
            r@ == self@,
    {
        TypeItem(self.0.duplicate())
    }

    /// The type as it is written.
    pub fn to_tokens(&self) -> (r: String)
        ensures
            r@ == self@.tokens(),
    {
        self.0.to_tokens()
    }
}

/// One decoding step, with the steps it wraps.
///
/// The arguments of the steps are tokens of the host language; they are
/// carried into the generated procedure as they are.
#[derive(Debug, PartialEq, Eq)]
pub enum ParserExpr {
    /// Reads a value of the type, in the byte order of the entry point.
    CallParse(TypeItem),
    /// Reads a value of the type, big endian.
    CallParseBE(TypeItem),
    /// Reads a value of the type, little endian.
    CallParseLE(TypeItem),
    /// Reads a value of the type, in the byte order chosen at run time.
    CallParseSet(TypeItem),
    /// Turns a lack of input into an error.
    Complete(Box<ParserExpr>),
    /// Runs the step when the condition holds.
    Cond(Box<ParserExpr>, String),
    /// Runs the step a given number of times.
    Count(Box<ParserExpr>, String),
    /// Reports the field when the step fails.
    DbgDmp(Box<ParserExpr>, String),
    /// Converts the value that the step produced.
    Into(Box<ParserExpr>),
    /// Reads a count with the given parser, then runs the step that many
    /// times.
    LengthCount(Box<ParserExpr>, String),
    /// Applies a function to the value that the step produced.
    MapWith(Box<ParserExpr>, String),
    /// Reads nothing and gives the unit value.
    Nop,
    /// Reads nothing and gives the marker of a phantom type.
    PhantomData,
    /// A parser written by hand.
    Raw(String),
    /// Matches a constant.
    Tag(String),
    /// Takes a number of bytes.
    Take(String),
    /// Reads nothing and gives the value of an expression.
    Value(String),
    /// Checks the value that the step produced, under the given name.
    Verify(Box<ParserExpr>, String, String),
}

/// What a `ParserExpr` holds, as plain values.
pub enum ParserExprView {
    CallParse(TypeView),
    CallParseBE(TypeView),
    CallParseLE(TypeView),
    CallParseSet(TypeView),
    Complete(Box<ParserExprView>),
    Cond(Box<ParserExprView>, Seq<char>),
    Count(Box<ParserExprView>, Seq<char>),
    DbgDmp(Box<ParserExprView>, Seq<char>),
    Into(Box<ParserExprView>),
    LengthCount(Box<ParserExprView>, Seq<char>),
    MapWith(Box<ParserExprView>, Seq<char>),
    Nop,
    PhantomData,
    Raw(Seq<char>),
    Tag(Seq<char>),
    Take(Seq<char>),
    Value(Seq<char>),
    Verify(Box<ParserExprView>, Seq<char>, Seq<char>),
}

/// What the expression `e` holds, as plain values.
pub open spec fn parser_expr_view(e: ParserExpr) -> ParserExprView
    decreases e,
{
    match e {
        ParserExpr::CallParse(t) => ParserExprView::CallParse(t@),
        ParserExpr::CallParseBE(t) => ParserExprView::CallParseBE(t@),
        ParserExpr::CallParseLE(t) => ParserExprView::CallParseLE(t@),
        ParserExpr::CallParseSet(t) => ParserExprView::CallParseSet(t@),
        ParserExpr::Complete(p) => ParserExprView::Complete(Box::new(parser_expr_view(*p))),
        ParserExpr::Cond(p, c) => ParserExprView::Cond(Box::new(parser_expr_view(*p)), c@),
        ParserExpr::Count(p, n) => ParserExprView::Count(Box::new(parser_expr_view(*p)), n@),
        ParserExpr::DbgDmp(p, i) => ParserExprView::DbgDmp(Box::new(parser_expr_view(*p)), i@),
        ParserExpr::Into(p) => ParserExprView::Into(Box::new(parser_expr_view(*p))),
        ParserExpr::LengthCount(p, n) => ParserExprView::LengthCount(
            Box::new(parser_expr_view(*p)),
            n@,
        ),
        ParserExpr::MapWith(p, m) => ParserExprView::MapWith(Box::new(parser_expr_view(*p)), m@),
        ParserExpr::Nop => ParserExprView::Nop,
        ParserExpr::PhantomData => ParserExprView::PhantomData,
        ParserExpr::Raw(s) => ParserExprView::Raw(s@),
        ParserExpr::Tag(s) => ParserExprView::Tag(s@),
        ParserExpr::Take(s) => ParserExprView::Take(s@),
        ParserExpr::Value(s) => ParserExprView::Value(s@),
        ParserExpr::Verify(p, i, v) => ParserExprView::Verify(
            Box::new(parser_expr_view(*p)),
            i@,
            v@,
        ),
    }
}

impl View for ParserExpr {
    type V = ParserExprView;

    open spec fn view(&self) -> ParserExprView {
        parser_expr_view(*self)
    }
}

impl ParserExprView {
    /// The expression with every read in the byte order of the entry point
    /// replaced by a read in the byte order `endianness`.
    pub open spec fn with_endianness(self, endianness: ParserEndianness) -> ParserExprView
        decreases self,
    {
        match self {
            ParserExprView::CallParse(t) => if endianness == ParserEndianness::BigEndian {
                ParserExprView::CallParseBE(t)
            } else {
                ParserExprView::CallParseLE(t)
            },
            ParserExprView::Complete(p) => ParserExprView::Complete(
                Box::new(p.with_endianness(endianness)),
            ),
            ParserExprView::Cond(p, c) => ParserExprView::Cond(
                Box::new(p.with_endianness(endianness)),
                c,
            ),
            ParserExprView::Count(p, n) => ParserExprView::Count(
                Box::new(p.with_endianness(endianness)),
                n,
            ),
            ParserExprView::DbgDmp(p, i) => ParserExprView::DbgDmp(
                Box::new(p.with_endianness(endianness)),
                i,
            ),
            ParserExprView::Into(p) => ParserExprView::Into(
                Box::new(p.with_endianness(endianness)),
            ),
            ParserExprView::LengthCount(p, n) => ParserExprView::LengthCount(
                Box::new(p.with_endianness(endianness)),
                n,
            ),
            ParserExprView::MapWith(p, m) => ParserExprView::MapWith(
                Box::new(p.with_endianness(endianness)),
                m,
            ),
            ParserExprView::Verify(p, i, v) => ParserExprView::Verify(
                Box::new(p.with_endianness(endianness)),
                i,
                v,
            ),
            other => other,
        }
    }

    /// No read of the expression is left in the byte order of the entry
    /// point.
    pub open spec fn is_resolved(self) -> bool
        decreases self,
    {
        match self {
            ParserExprView::CallParse(_) => false,
            ParserExprView::Complete(p) => p.is_resolved(),
            ParserExprView::Cond(p, _) => p.is_resolved(),
            ParserExprView::Count(p, _) => p.is_resolved(),
            ParserExprView::DbgDmp(p, _) => p.is_resolved(),
            ParserExprView::Into(p) => p.is_resolved(),
            ParserExprView::LengthCount(p, _) => p.is_resolved(),
            ParserExprView::MapWith(p, _) => p.is_resolved(),
            ParserExprView::Verify(p, _, _) => p.is_resolved(),
            _ => true,
        }
    }

    /// The type that the innermost step reads, where that step reads a
    /// type.
    pub open spec fn last_type(self) -> Option<TypeView>
        decreases self,
    {
        match self {
            ParserExprView::CallParse(t) => Some(t),
            ParserExprView::CallParseBE(t) => Some(t),
            ParserExprView::CallParseLE(t) => Some(t),
            ParserExprView::CallParseSet(t) => Some(t),
            ParserExprView::Complete(p) => p.last_type(),
            ParserExprView::Cond(p, _) => p.last_type(),
            ParserExprView::Count(p, _) => p.last_type(),
            ParserExprView::DbgDmp(p, _) => p.last_type(),
            ParserExprView::Into(p) => p.last_type(),
            ParserExprView::LengthCount(p, _) => p.last_type(),
            ParserExprView::MapWith(p, _) => p.last_type(),
            ParserExprView::Verify(p, _, _) => p.last_type(),
            _ => None,
        }
    }

    /// The number of steps that wrap the innermost one.
    pub open spec fn depth(self) -> nat
        decreases self,
    {
        match self {
            ParserExprView::Complete(p) => 1 + p.depth(),
            ParserExprView::Cond(p, _) => 1 + p.depth(),
            ParserExprView::Count(p, _) => 1 + p.depth(),
            ParserExprView::DbgDmp(p, _) => 1 + p.depth(),
            ParserExprView::Into(p) => 1 + p.depth(),
            ParserExprView::LengthCount(p, _) => 1 + p.depth(),
            ParserExprView::MapWith(p, _) => 1 + p.depth(),
            ParserExprView::Verify(p, _, _) => 1 + p.depth(),
            _ => 0,
        }
    }

    /// The expression as a parser of the host language.
    pub open spec fn tokens(self) -> Seq<char>
        decreases self,
    {
        match self {
            ParserExprView::CallParse(t) => "<"@ + t.tokens() + ">::parse"@,
            ParserExprView::CallParseBE(t) => "<"@ + t.tokens() + ">::parse_be"@,
            ParserExprView::CallParseLE(t) => "<"@ + t.tokens() + ">::parse_le"@,
            ParserExprView::CallParseSet(t) => "if __endianness == nom::number::Endianness::Big { <"@
                + t.tokens() + ">::parse_be } else { <"@ + t.tokens() + ">::parse_le }"@,
            ParserExprView::Complete(p) => "nom::combinator::complete("@ + p.tokens() + ")"@,
            ParserExprView::Cond(p, c) => "nom::combinator::cond("@ + c + ", "@ + p.tokens() + ")"@,
            ParserExprView::Count(p, n) => "nom::multi::count("@ + p.tokens() + ", "@ + n
                + " as usize)"@,
            ParserExprView::DbgDmp(p, i) => "nom::error::dbg_dmp("@ + p.tokens() + ", \""@ + i
                + "\")"@,
            ParserExprView::Into(p) => "nom::combinator::into("@ + p.tokens() + ")"@,
            ParserExprView::LengthCount(p, n) => "nom::multi::length_count("@ + n + ", "@
                + p.tokens() + ")"@,
            ParserExprView::MapWith(p, m) => "nom::combinator::map("@ + p.tokens() + ", "@ + m
                + ")"@,
            ParserExprView::Nop => "{ |__i__| Ok((__i__, ())) }"@,
            ParserExprView::PhantomData => "{ |__i__| Ok((__i__, PhantomData)) }"@,
            ParserExprView::Raw(s) => s,
            ParserExprView::Tag(s) => "nom::bytes::streaming::tag("@ + s + ")"@,
            ParserExprView::Take(s) => "nom::bytes::streaming::take("@ + s + " as usize)"@,
            ParserExprView::Value(s) => "{ |__i__| Ok((__i__, "@ + s + ")) }"@,
            ParserExprView::Verify(p, i, v) => "nom::combinator::verify("@ + p.tokens() + ", |"@
                + i + "| { "@ + v + " })"@,
        }
    }
}

/// After the rewrite for a fixed byte order, no read is left in the byte
/// order of the entry point, and the nesting of the steps is unchanged.
pub proof fn lemma_with_endianness_resolves(e: ParserExprView, endianness: ParserEndianness)
    ensures
        e.with_endianness(endianness).is_resolved(),
        e.with_endianness(endianness).depth() == e.depth(),
        e.is_resolved() ==> e.with_endianness(endianness) == e,
    decreases e,
{
    match e {
        ParserExprView::Complete(p) => lemma_with_endianness_resolves(*p, endianness),
        ParserExprView::Cond(p, _) => lemma_with_endianness_resolves(*p, endianness),
        ParserExprView::Count(p, _) => lemma_with_endianness_resolves(*p, endianness),
        ParserExprView::DbgDmp(p, _) => lemma_with_endianness_resolves(*p, endianness),
        ParserExprView::Into(p) => lemma_with_endianness_resolves(*p, endianness),
        ParserExprView::LengthCount(p, _) => lemma_with_endianness_resolves(*p, endianness),
        ParserExprView::MapWith(p, _) => lemma_with_endianness_resolves(*p, endianness),
        ParserExprView::Verify(p, _, _) => lemma_with_endianness_resolves(*p, endianness),
        _ => {},
    }
}

impl ParserExpr {
    /// A copy of the expression.
    pub fn duplicate(&self) -> (r: ParserExpr)
        ensures
            r@ == self@,
        decreases self,
    {
        match self {
            ParserExpr::CallParse(t) => ParserExpr::CallParse(t.duplicate()),
            ParserExpr::CallParseBE(t) => ParserExpr::CallParseBE(t.duplicate()),
            ParserExpr::CallParseLE(t) => ParserExpr::CallParseLE(t.duplicate()),
            ParserExpr::CallParseSet(t) => ParserExpr::CallParseSet(t.duplicate()),
            ParserExpr::Complete(p) => ParserExpr::Complete(Box::new(p.duplicate())),
            ParserExpr::Cond(p, c) => ParserExpr::Cond(Box::new(p.duplicate()), c.clone()),
            ParserExpr::Count(p, n) => ParserExpr::Count(Box::new(p.duplicate()), n.clone()),
            ParserExpr::DbgDmp(p, i) => ParserExpr::DbgDmp(Box::new(p.duplicate()), i.clone()),
            ParserExpr::Into(p) => ParserExpr::Into(Box::new(p.duplicate())),
            ParserExpr::LengthCount(p, n) => ParserExpr::LengthCount(
                Box::new(p.duplicate()),
                n.clone(),
            ),
            ParserExpr::MapWith(p, m) => ParserExpr::MapWith(Box::new(p.duplicate()), m.clone()),
            ParserExpr::Nop => ParserExpr::Nop,
            ParserExpr::PhantomData => ParserExpr::PhantomData,
            ParserExpr::Raw(s) => ParserExpr::Raw(s.clone()),
            ParserExpr::Tag(s) => ParserExpr::Tag(s.clone()),
            ParserExpr::Take(s) => ParserExpr::Take(s.clone()),
            ParserExpr::Value(s) => ParserExpr::Value(s.clone()),
            ParserExpr::Verify(p, i, v) => ParserExpr::Verify(
                Box::new(p.duplicate()),
                i.clone(),
                v.clone(),
            ),
        }
    }

    /// The expression for the entry point of byte order `endianness`: every
    /// read that was left to the entry point becomes a read in that byte
    /// order.
    pub fn with_endianness(&self, endianness: ParserEndianness) -> (r: ParserExpr)
        requires
            is_fixed(endianness),
        ensures
            r@ == self@.with_endianness(endianness),
        decreases self,
    {
        match self {
            ParserExpr::CallParse(t) => match endianness {
                ParserEndianness::BigEndian => ParserExpr::CallParseBE(t.duplicate()),
                _ => ParserExpr::CallParseLE(t.duplicate()),
            },
            ParserExpr::Complete(p) => ParserExpr::Complete(
                Box::new(p.with_endianness(endianness)),
            ),
            ParserExpr::Cond(p, c) => ParserExpr::Cond(
                Box::new(p.with_endianness(endianness)),
                c.clone(),
            ),
            ParserExpr::Count(p, n) => ParserExpr::Count(
                Box::new(p.with_endianness(endianness)),
                n.clone(),
            ),
            ParserExpr::DbgDmp(p, i) => ParserExpr::DbgDmp(
                Box::new(p.with_endianness(endianness)),
                i.clone(),
            ),
            ParserExpr::Into(p) => ParserExpr::Into(Box::new(p.with_endianness(endianness))),
            ParserExpr::LengthCount(p, n) => ParserExpr::LengthCount(
                Box::new(p.with_endianness(endianness)),
                n.clone(),
            ),
            ParserExpr::MapWith(p, m) => ParserExpr::MapWith(
                Box::new(p.with_endianness(endianness)),
                m.clone(),
            ),
            ParserExpr::Verify(p, i, v) => ParserExpr::Verify(
                Box::new(p.with_endianness(endianness)),
                i.clone(),
                v.clone(),
            ),
            other => other.duplicate(),
        }
    }

    /// The expression wrapped in `Complete`.
    pub fn complete(self) -> (r: ParserExpr)
        ensures
            r@ == ParserExprView::Complete(Box::new(self@)),
    {
        ParserExpr::Complete(Box::new(self))
    }

    /// The type that the innermost step reads, where that step reads a
    /// type.
    pub fn last_type(&self) -> (r: Option<&TypeItem>)
        ensures
            match r {
                Some(t) => self@.last_type() == Some(t@),
                None => self@.last_type().is_none(),
            },
        decreases self,
    {
        match self {
            ParserExpr::CallParse(t)
            | ParserExpr::CallParseBE(t)
            | ParserExpr::CallParseLE(t)
            | ParserExpr::CallParseSet(t) => Some(t),
            ParserExpr::Complete(p)
            | ParserExpr::Cond(p, _)
            | ParserExpr::Count(p, _)
            | ParserExpr::DbgDmp(p, _)
            | ParserExpr::Into(p)
            | ParserExpr::LengthCount(p, _)
            | ParserExpr::MapWith(p, _)
            | ParserExpr::Verify(p, _, _) => p.last_type(),
            _ => None,
        }
    }

    /// The expression as a parser of the host language.
    pub fn to_tokens(&self) -> (r: String)
        ensures
            r@ == self@.tokens(),
        decreases self,
    {
        match self {
            ParserExpr::CallParse(t) => {
                let mut out = String::from_str("<");
                out.append(t.to_tokens().as_str());
                out.append(">::parse");
                out
            },
            ParserExpr::CallParseBE(t) => {
                let mut out = String::from_str("<");
                out.append(t.to_tokens().as_str());
                out.append(">::parse_be");
                out
            },
            ParserExpr::CallParseLE(t) => {
                let mut out = String::from_str("<");
                out.append(t.to_tokens().as_str());
                out.append(">::parse_le");
                out
            },
            ParserExpr::CallParseSet(t) => {
                let ty = t.to_tokens();
                let mut out = String::from_str(
                    "if __endianness == nom::number::Endianness::Big { <",
                );
                out.append(ty.as_str());
                out.append(">::parse_be } else { <");
                out.append(ty.as_str());
                out.append(">::parse_le }");
                out
            },
            ParserExpr::Complete(p) => {
                let mut out = String::from_str("nom::combinator::complete(");
                out.append(p.to_tokens().as_str());
                out.append(")");
                out
            },
            ParserExpr::Cond(p, c) => {
                let mut out = String::from_str("nom::combinator::cond(");
                out.append(c.as_str());
                out.append(", ");
                out.append(p.to_tokens().as_str());
                out.append(")");
                out
            },
            ParserExpr::Count(p, n) => {
                let mut out = String::from_str("nom::multi::count(");
                out.append(p.to_tokens().as_str());
                out.append(", ");
                out.append(n.as_str());
                out.append(" as usize)");
                out
            },
            ParserExpr::DbgDmp(p, i) => {
                let mut out = String::from_str("nom::error::dbg_dmp(");
                out.append(p.to_tokens().as_str());
                out.append(", \"");
                out.append(i.as_str());
                out.append("\")");
                out
            },
            ParserExpr::Into(p) => {
                let mut out = String::from_str("nom::combinator::into(");
                out.append(p.to_tokens().as_str());
                out.append(")");
                out
            },
            ParserExpr::LengthCount(p, n) => {
                let mut out = String::from_str("nom::multi::length_count(");
                out.append(n.as_str());
                out.append(", ");
                out.append(p.to_tokens().as_str());
                out.append(")");
                out
            },
            ParserExpr::MapWith(p, m) => {
                let mut out = String::from_str("nom::combinator::map(");
                out.append(p.to_tokens().as_str());
                out.append(", ");
                out.append(m.as_str());
                out.append(")");
                out
            },
            ParserExpr::Nop => String::from_str("{ |__i__| Ok((__i__, ())) }"),
            ParserExpr::PhantomData => String::from_str("{ |__i__| Ok((__i__, PhantomData)) }"),
            ParserExpr::Raw(s) => s.clone(),
            ParserExpr::Tag(s) => {
                let mut out = String::from_str("nom::bytes::streaming::tag(");
                out.append(s.as_str());
                out.append(")");
                out
            },
            ParserExpr::Take(s) => {
                let mut out = String::from_str("nom::bytes::streaming::take(");
                out.append(s.as_str());
                out.append(" as usize)");
                out
            },
            ParserExpr::Value(s) => {
                let mut out = String::from_str("{ |__i__| Ok((__i__, ");
                out.append(s.as_str());
                out.append(")) }");
                out
            },
            ParserExpr::Verify(p, i, v) => {
                let mut out = String::from_str("nom::combinator::verify(");
                out.append(p.to_tokens().as_str());
                out.append(", |");
                out.append(i.as_str());
                out.append("| { ");
                out.append(v.as_str());
                out.append(" })");
                out
            },
        }
    }
}

/// The parser expression of one field, with the name of the field.
#[derive(Debug, PartialEq, Eq)]
pub struct ParserTreeItem {
    pub ident: Option<String>,
    pub expr: ParserExpr,
}

/// What a `ParserTreeItem` holds, as plain values.
pub struct ParserTreeItemView {
    pub ident: Option<Seq<char>>,
    pub expr: ParserExprView,
}

impl View for ParserTreeItem {
    type V = ParserTreeItemView;

    open spec fn view(&self) -> ParserTreeItemView {
        ParserTreeItemView {
            ident: match self.ident {
                Some(i) => Some(i@),
                None => None,
            },
            expr: self.expr@,
        }
    }
}

impl ParserTreeItem {
    pub fn new(ident: Option<String>, expr: ParserExpr) -> (r: ParserTreeItem)
        ensures
            r.ident == ident,
            r.expr == expr,
    {
        ParserTreeItem { ident, expr }
    }

    /// The item for the entry point of byte order `endianness`.
    pub fn with_endianness(&self, endianness: ParserEndianness) -> (r: ParserTreeItem)
        requires
            is_fixed(endianness),
        ensures
            r@ == (ParserTreeItemView {
                ident: self@.ident,
                expr: self@.expr.with_endianness(endianness),
            }),
    {
        ParserTreeItem {
            ident: match &self.ident {
                Some(i) => Some(i.clone()),
                None => None,
            },
            expr: self.expr.with_endianness(endianness),
        }
    }

    /// The expression as a parser of the host language.
    pub fn to_tokens(&self) -> (r: String)
        ensures
            r@ == self@.expr.tokens(),
    {
        self.expr.to_tokens()
    }
}

/// A whole parser expression.
#[derive(Debug, PartialEq, Eq)]
pub struct ParserTree {
    pub root: ParserExpr,
}

impl ParserTree {
    /// The expression as a parser of the host language.
    pub fn to_tokens(&self) -> (r: String)
        ensures
            r@ == self.root@.tokens(),
    {
        self.root.to_tokens()
    }
}

} // verus!
