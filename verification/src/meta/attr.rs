//! The closed vocabulary of attributes, and one parsed attribute.

use vstd::prelude::*;
use vstd::string::StringExecFns;
use crate::meta::error::{ErrorKind, MetaError, MetaErrorView, Span};
use crate::meta::syntax::{
    duplicate_extra_args, extra_args_view, parse_arm, parse_expr, parse_fn_args,
    parse_single_pattern, parse_stmt, ExtraArg, ExtraArgView, Parsed, ParsedView,
};
use crate::text::{concat, str_eq};

verus! {

/// The kind of an attribute.
#[derive(Clone, Copy, Debug, Eq, PartialEq, Structural)]
pub enum MetaAttrType {
    AlignAfter,
    AlignBefore,
    BigEndian,
    Complete,
    Cond,
    Count,
    Debug,
    DebugDerive,
    ErrorIf,
    Exact,
    ExtraArgs,
    GenericErrors,
    Ignore,
    InputName,
    Into,
    LengthCount,
    LittleEndian,
    MapWith,
    Move,
    MoveAbs,
    Parse,
    PostExec,
    PreExec,
    Selector,
    SetEndian,
    SkipAfter,
    SkipBefore,
    Tag,
    Take,
    Value,
    Verify,
}

/// The grammar in which the argument of an attribute is written.
#[derive(Clone, Copy, Debug, Eq, PartialEq, Structural)]
pub enum ArgGrammar {
    /// An expression.
    Expr,
    /// A statement.
    Stmt,
    /// A pattern, with a guard or without.
    Pattern,
    /// A list of function arguments, `name: Type` separated by commas.
    FnArgs,
}

impl MetaAttrType {
    /// The kind written as `name`, where there is one. `If` is another name
    /// of `Cond`, and `Default` another name of `Ignore`.
    pub open spec fn from_ident_spec(name: Seq<char>) -> Option<MetaAttrType> {
        if name == "AlignAfter"@ {
            Some(MetaAttrType::AlignAfter)
        } else if name == "AlignBefore"@ {
            Some(MetaAttrType::AlignBefore)
        } else if name == "BigEndian"@ {
            Some(MetaAttrType::BigEndian)
        } else if name == "Complete"@ {
            Some(MetaAttrType::Complete)
        } else if name == "Count"@ {
            Some(MetaAttrType::Count)
        } else if name == "Debug"@ {
            Some(MetaAttrType::Debug)
        } else if name == "DebugDerive"@ {
            Some(MetaAttrType::DebugDerive)
        } else if name == "ErrorIf"@ {
            Some(MetaAttrType::ErrorIf)
        } else if name == "Exact"@ {
            Some(MetaAttrType::Exact)
        } else if name == "ExtraArgs"@ {
            Some(MetaAttrType::ExtraArgs)
        } else if name == "GenericErrors"@ {
            Some(MetaAttrType::GenericErrors)
        } else if name == "If"@ || name == "Cond"@ {
            Some(MetaAttrType::Cond)
        } else if name == "Ignore"@ || name == "Default"@ {
            Some(MetaAttrType::Ignore)
        } else if name == "InputName"@ {
            Some(MetaAttrType::InputName)
        } else if name == "Into"@ {
            Some(MetaAttrType::Into)
        } else if name == "LengthCount"@ {
            Some(MetaAttrType::LengthCount)
        } else if name == "LittleEndian"@ {
            Some(MetaAttrType::LittleEndian)
        } else if name == "Map"@ {
            Some(MetaAttrType::MapWith)
        } else if name == "Move"@ {
            Some(MetaAttrType::Move)
        } else if name == "MoveAbs"@ {
            Some(MetaAttrType::MoveAbs)
        } else if name == "Parse"@ {
            Some(MetaAttrType::Parse)
        } else if name == "PostExec"@ {
            Some(MetaAttrType::PostExec)
        } else if name == "PreExec"@ {
            Some(MetaAttrType::PreExec)
        } else if name == "Selector"@ {
            Some(MetaAttrType::Selector)
        } else if name == "SetEndian"@ {
            Some(MetaAttrType::SetEndian)
        } else if name == "SkipAfter"@ {
            Some(MetaAttrType::SkipAfter)
        } else if name == "SkipBefore"@ {
            Some(MetaAttrType::SkipBefore)
        } else if name == "Tag"@ {
            Some(MetaAttrType::Tag)
        } else if name == "Take"@ {
            Some(MetaAttrType::Take)
        } else if name == "Value"@ {
            Some(MetaAttrType::Value)
        } else if name == "Verify"@ {
            Some(MetaAttrType::Verify)
        } else {
            None
        }
    }

    /// Resolves an attribute name, by exact match.
    pub fn from_ident(ident: &str) -> (r: Option<MetaAttrType>)
        ensures
            r == Self::from_ident_spec(ident@),
    {
        if str_eq(ident, "AlignAfter") {
            Some(MetaAttrType::AlignAfter)
        } else if str_eq(ident, "AlignBefore") {
            Some(MetaAttrType::AlignBefore)
        } else if str_eq(ident, "BigEndian") {
            Some(MetaAttrType::BigEndian)
        } else if str_eq(ident, "Complete") {
            Some(MetaAttrType::Complete)
        } else if str_eq(ident, "Count") {
            Some(MetaAttrType::Count)
        } else if str_eq(ident, "Debug") {
            Some(MetaAttrType::Debug)
        } else if str_eq(ident, "DebugDerive") {
            Some(MetaAttrType::DebugDerive)
        } else if str_eq(ident, "ErrorIf") {
            Some(MetaAttrType::ErrorIf)
        } else if str_eq(ident, "Exact") {
            Some(MetaAttrType::Exact)
        } else if str_eq(ident, "ExtraArgs") {
            Some(MetaAttrType::ExtraArgs)
        } else if str_eq(ident, "GenericErrors") {
            Some(MetaAttrType::GenericErrors)
        } else if str_eq(ident, "If") || str_eq(ident, "Cond") {
            Some(MetaAttrType::Cond)
        } else if str_eq(ident, "Ignore") || str_eq(ident, "Default") {
            Some(MetaAttrType::Ignore)
        } else if str_eq(ident, "InputName") {
            Some(MetaAttrType::InputName)
        } else if str_eq(ident, "Into") {
            Some(MetaAttrType::Into)
        } else if str_eq(ident, "LengthCount") {
            Some(MetaAttrType::LengthCount)
        } else if str_eq(ident, "LittleEndian") {
            Some(MetaAttrType::LittleEndian)
        } else if str_eq(ident, "Map") {
            Some(MetaAttrType::MapWith)
        } else if str_eq(ident, "Move") {
            Some(MetaAttrType::Move)
        } else if str_eq(ident, "MoveAbs") {
            Some(MetaAttrType::MoveAbs)
        } else if str_eq(ident, "Parse") {
            Some(MetaAttrType::Parse)
        } else if str_eq(ident, "PostExec") {
            Some(MetaAttrType::PostExec)
        } else if str_eq(ident, "PreExec") {
            Some(MetaAttrType::PreExec)
        } else if str_eq(ident, "Selector") {
            Some(MetaAttrType::Selector)
        } else if str_eq(ident, "SetEndian") {
            Some(MetaAttrType::SetEndian)
        } else if str_eq(ident, "SkipAfter") {
            Some(MetaAttrType::SkipAfter)
        } else if str_eq(ident, "SkipBefore") {
            Some(MetaAttrType::SkipBefore)
        } else if str_eq(ident, "Tag") {
            Some(MetaAttrType::Tag)
        } else if str_eq(ident, "Take") {
            Some(MetaAttrType::Take)
        } else if str_eq(ident, "Value") {
            Some(MetaAttrType::Value)
        } else if str_eq(ident, "Verify") {
            Some(MetaAttrType::Verify)
        } else {
            None
        }
    }

    /// Whether the kind carries an argument.
    pub open spec fn takes_argument_spec(self) -> bool {
        !(self == MetaAttrType::BigEndian || self == MetaAttrType::Complete || self
            == MetaAttrType::Debug || self == MetaAttrType::DebugDerive || self
            == MetaAttrType::Exact || self == MetaAttrType::GenericErrors || self
            == MetaAttrType::Ignore || self == MetaAttrType::Into || self
            == MetaAttrType::LittleEndian)
    }

    #[verifier::when_used_as_spec(takes_argument_spec)]
    pub fn takes_argument(self) -> (r: bool)
        ensures
            r == self.takes_argument_spec(),
    {
        match self {
            MetaAttrType::AlignAfter
            | MetaAttrType::AlignBefore
            | MetaAttrType::Cond
            | MetaAttrType::Count
            | MetaAttrType::ErrorIf
            | MetaAttrType::ExtraArgs
            | MetaAttrType::InputName
            | MetaAttrType::LengthCount
            | MetaAttrType::MapWith
            | MetaAttrType::Move
            | MetaAttrType::MoveAbs
            | MetaAttrType::Parse
            | MetaAttrType::PostExec
            | MetaAttrType::PreExec
            | MetaAttrType::Selector
            | MetaAttrType::SetEndian
            | MetaAttrType::SkipAfter
            | MetaAttrType::SkipBefore
            | MetaAttrType::Tag
            | MetaAttrType::Take
            | MetaAttrType::Value
            | MetaAttrType::Verify => true,
            _ => false,
        }
    }

    /// The grammar of the argument, for a kind that takes one.
    pub open spec fn grammar_spec(self) -> ArgGrammar {
        match self {
            MetaAttrType::ExtraArgs => ArgGrammar::FnArgs,
            MetaAttrType::PreExec | MetaAttrType::PostExec => ArgGrammar::Stmt,
            MetaAttrType::Selector => ArgGrammar::Pattern,
            _ => ArgGrammar::Expr,
        }
    }

    #[verifier::when_used_as_spec(grammar_spec)]
    pub fn grammar(self) -> (r: ArgGrammar)
        ensures
            r == self.grammar_spec(),
    {
        match self {
            MetaAttrType::ExtraArgs => ArgGrammar::FnArgs,
            MetaAttrType::PreExec | MetaAttrType::PostExec => ArgGrammar::Stmt,
            MetaAttrType::Selector => ArgGrammar::Pattern,
            _ => ArgGrammar::Expr,
        }
    }

    /// Whether the kind may stand on a struct or an enum.
    pub open spec fn top_level_spec(self) -> bool {
        self == MetaAttrType::DebugDerive || self == MetaAttrType::Complete || self
            == MetaAttrType::Debug || self == MetaAttrType::ExtraArgs || self
            == MetaAttrType::GenericErrors || self == MetaAttrType::InputName || self
            == MetaAttrType::LittleEndian || self == MetaAttrType::BigEndian || self
            == MetaAttrType::SetEndian || self == MetaAttrType::PreExec || self
            == MetaAttrType::PostExec || self == MetaAttrType::Exact || self
            == MetaAttrType::Selector
    }

    /// Whether the kind may stand on a field or a variant.
    pub open spec fn field_level_spec(self) -> bool {
        !(self == MetaAttrType::DebugDerive || self == MetaAttrType::Exact || self
            == MetaAttrType::ExtraArgs || self == MetaAttrType::GenericErrors || self
            == MetaAttrType::InputName)
    }

    /// The name under which the kind is written and shown.
    pub open spec fn name_spec(self) -> Seq<char> {
        match self {
            MetaAttrType::AlignAfter => "AlignAfter"@,
            MetaAttrType::AlignBefore => "AlignBefore"@,
            MetaAttrType::BigEndian => "BigEndian"@,
            MetaAttrType::Complete => "Complete"@,
            MetaAttrType::Cond => "Cond"@,
            MetaAttrType::Count => "Count"@,
            MetaAttrType::Debug => "Debug"@,
            MetaAttrType::DebugDerive => "DebugDerive"@,
            MetaAttrType::ErrorIf => "ErrorIf"@,
            MetaAttrType::Exact => "Exact"@,
            MetaAttrType::ExtraArgs => "ExtraArgs"@,
            MetaAttrType::GenericErrors => "GenericErrors"@,
            MetaAttrType::Ignore => "Ignore"@,
            MetaAttrType::InputName => "InputName"@,
            MetaAttrType::Into => "Into"@,
            MetaAttrType::LengthCount => "LengthCount"@,
            MetaAttrType::LittleEndian => "LittleEndian"@,
            MetaAttrType::MapWith => "Map"@,
            MetaAttrType::Move => "Move"@,
            MetaAttrType::MoveAbs => "MoveAbs"@,
            MetaAttrType::Parse => "Parse"@,
            MetaAttrType::PostExec => "PostExec"@,
            MetaAttrType::PreExec => "PreExec"@,
            MetaAttrType::Selector => "Selector"@,
            MetaAttrType::SetEndian => "SetEndian"@,
            MetaAttrType::SkipAfter => "SkipAfter"@,
            MetaAttrType::SkipBefore => "SkipBefore"@,
            MetaAttrType::Tag => "Tag"@,
            MetaAttrType::Take => "Take"@,
            MetaAttrType::Value => "Value"@,
            MetaAttrType::Verify => "Verify"@,
        }
    }

    pub fn name(self) -> (r: &'static str)
        ensures
            r@ == self.name_spec(),
    {
        match self {
            MetaAttrType::AlignAfter => "AlignAfter",
            MetaAttrType::AlignBefore => "AlignBefore",
            MetaAttrType::BigEndian => "BigEndian",
            MetaAttrType::Complete => "Complete",
            MetaAttrType::Cond => "Cond",
            MetaAttrType::Count => "Count",
            MetaAttrType::Debug => "Debug",
            MetaAttrType::DebugDerive => "DebugDerive",
            MetaAttrType::ErrorIf => "ErrorIf",
            MetaAttrType::Exact => "Exact",
            MetaAttrType::ExtraArgs => "ExtraArgs",
            MetaAttrType::GenericErrors => "GenericErrors",
            MetaAttrType::Ignore => "Ignore",
            MetaAttrType::InputName => "InputName",
            MetaAttrType::Into => "Into",
            MetaAttrType::LengthCount => "LengthCount",
            MetaAttrType::LittleEndian => "LittleEndian",
            MetaAttrType::MapWith => "Map",
            MetaAttrType::Move => "Move",
            MetaAttrType::MoveAbs => "MoveAbs",
            MetaAttrType::Parse => "Parse",
            MetaAttrType::PostExec => "PostExec",
            MetaAttrType::PreExec => "PreExec",
            MetaAttrType::Selector => "Selector",
            MetaAttrType::SetEndian => "SetEndian",
            MetaAttrType::SkipAfter => "SkipAfter",
            MetaAttrType::SkipBefore => "SkipBefore",
            MetaAttrType::Tag => "Tag",
            MetaAttrType::Take => "Take",
            MetaAttrType::Value => "Value",
            MetaAttrType::Verify => "Verify",
        }
    }
}


/// One item of an attribute list, as it is written, with what reading
/// its argument gave.
#[derive(Debug, PartialEq, Eq)]
pub enum Meta {
    /// `Name`
    Path { name: String, span: Span },
    /// `Name(tokens)`
    List { name: String, tokens: String, parsed: Parsed, span: Span },
    /// `Name = value`; `value` holds the contents of the string literal, and
    /// is `None` where something else than a string literal was written.
    NameValue { name: String, value: Option<String>, parsed: Parsed, span: Span },
}

/// What reading the argument of an item named `name` may give: nothing
/// where the name is not in the vocabulary or takes no argument; a list of
/// function arguments, tokens, or a rejection, by the grammar of the kind.
pub open spec fn may_be_read(name: Seq<char>, parsed: ParsedView) -> bool {
    match MetaAttrType::from_ident_spec(name) {
        Some(kind) => if kind.takes_argument_spec() {
            match kind.grammar_spec() {
                ArgGrammar::FnArgs => parsed is Rejected || parsed is FnArgs,
                _ => parsed is Rejected || parsed is Tokens,
            }
        } else {
            parsed is Unread
        },
        None => parsed is Unread,
    }
}

/// What a text that was read as tokens stands for: the tokens, or a
/// rejection where none were read.
pub open spec fn tokens_read_spec(read: Option<Seq<char>>) -> ParsedView {
    match read {
        Some(t) => ParsedView::Tokens(t),
        None => ParsedView::Rejected,
    }
}

/// What a text that was read as function arguments stands for: the
/// arguments, or a rejection where none were read.
pub open spec fn fn_args_read_spec(read: Option<Seq<ExtraArgView>>) -> ParsedView {
    match read {
        Some(args) => ParsedView::FnArgs(args),
        None => ParsedView::Rejected,
    }
}

/// What a match arm that was read stands for as a pattern: the pattern,
/// then ` if ` and the guard where there is one. An arm with attributes,
/// or one whose pattern is no single pattern, is rejected.
pub open spec fn pattern_of_arm_spec(
    attributes: usize,
    pattern: Seq<char>,
    guard: Option<Seq<char>>,
    single: bool,
) -> ParsedView {
    if attributes > 0 || !single {
        ParsedView::Rejected
    } else {
        ParsedView::Tokens(pattern_text(pattern, guard))
    }
}

/// The guard as a plain value.
pub open spec fn guard_view(guard: Option<String>) -> Option<Seq<char>> {
    match guard {
        Some(g) => Some(g@),
        None => None,
    }
}

/// What a text that was read as tokens stands for.
pub fn tokens_read(read: Option<String>) -> (r: Parsed)
    ensures
        r@ == tokens_read_spec(guard_view(read)),
{
    match read {
        Some(t) => Parsed::Tokens(t),
        None => Parsed::Rejected,
    }
}

/// What a text that was read as function arguments stands for.
pub fn fn_args_read(read: Option<Vec<ExtraArg>>) -> (r: Parsed)
    ensures
        r@ == fn_args_read_spec(
            match read {
                Some(args) => Some(extra_args_view(args@)),
                None => None,
            },
        ),
{
    match read {
        Some(args) => Parsed::FnArgs(args),
        None => Parsed::Rejected,
    }
}

/// What a match arm that was read stands for as a pattern; `single` says
/// whether its pattern was read again as a single pattern.
pub fn pattern_of_arm(attributes: usize, pattern: String, guard: Option<String>, single: bool)
    -> (r: Parsed)
    ensures
        r@ == pattern_of_arm_spec(attributes, pattern@, guard_view(guard), single),
{
    if attributes > 0 || !single {
        return Parsed::Rejected;
    }
    let mut out = pattern;
    match guard {
        Some(g) => {
            out.append(" if ");
            out.append(g.as_str());
        },
        None => {},
    }
    Parsed::Tokens(out)
}

/// What `syn` read, where it read anything.
fn accepted<T>(read: Result<T, syn::Error>) -> (r: Option<T>)
    ensures
        match read {
            Ok(t) => r == Some(t),
            Err(_) => r.is_none(),
        },
{
    match read {
        Ok(t) => Some(t),
        Err(_) => None,
    }
}

/// Reads `source` as a pattern with a guard or without. `syn` is handed
/// the text, then the rest of a match arm on a line of its own, to read as
/// one match arm; then the pattern that it printed, to read as a single
/// pattern. What the two gave is turned into the result by
/// `pattern_of_arm`.
fn read_pattern(source: &str) -> (r: Parsed)
    ensures
        r is Rejected || r is Tokens,
{
    let text = concat(source, "\n=> { }");
    match accepted(parse_arm(text.as_str())) {
        Some((attributes, pattern, guard)) => {
            let single = accepted(parse_single_pattern(pattern.as_str())).is_some();
            pattern_of_arm(attributes, pattern, guard, single)
        },
        None => Parsed::Rejected,
    }
}

/// Reads the argument `source` of an item named `name`, in the grammar of
/// the kind of that name.
///
/// Nothing is read for a name that is not in the vocabulary or takes no
/// argument. Else `syn` is handed `source` as it is, or for a pattern as
/// `read_pattern` says, and what it gave is turned into the result by
/// `tokens_read`, `fn_args_read` or `pattern_of_arm`. What `syn` gives
/// depends on more than the text, so only the shape of the result is
/// known here.
pub fn read_argument(name: &str, source: &str) -> (r: Parsed)
    ensures
        may_be_read(name@, r@),
{
    let kind = match MetaAttrType::from_ident(name) {
        Some(kind) => kind,
        None => {
            return Parsed::Unread;
        },
    };
    if !kind.takes_argument() {
        return Parsed::Unread;
    }
    match kind.grammar() {
        ArgGrammar::Expr => tokens_read(accepted(parse_expr(source))),
        ArgGrammar::Stmt => tokens_read(accepted(parse_stmt(source))),
        ArgGrammar::Pattern => read_pattern(source),
        ArgGrammar::FnArgs => fn_args_read(accepted(parse_fn_args(source))),
    }
}

impl Meta {
    /// The item `name`.
    pub fn path(name: &str) -> (r: Meta)
        ensures
            r == (Meta::Path { name: r->Path_name, span: Span::call_site_spec() }),
            r.name_spec() == name@,
    {
        Meta::Path { name: String::from_str(name), span: Span::call_site() }
    }

    /// The item `name(tokens)`, with its argument read.
    pub fn list(name: &str, tokens: &str) -> (r: Meta)
        ensures
            r is List,
            r.name_spec() == name@,
            r.source_spec() == Some(tokens@),
            r.span_spec() == Span::call_site_spec(),
            may_be_read(name@, r.parsed_spec()),
    {
        Meta::List {
            name: String::from_str(name),
            tokens: String::from_str(tokens),
            parsed: read_argument(name, tokens),
            span: Span::call_site(),
        }
    }

    /// The item `name = "value"`, with its argument read.
    pub fn name_value(name: &str, value: &str) -> (r: Meta)
        ensures
            r is NameValue,
            r.name_spec() == name@,
            r.source_spec() == Some(value@),
            r.span_spec() == Span::call_site_spec(),
            may_be_read(name@, r.parsed_spec()),
    {
        Meta::NameValue {
            name: String::from_str(name),
            value: Some(String::from_str(value)),
            parsed: read_argument(name, value),
            span: Span::call_site(),
        }
    }

    /// The item `name = value` where `value` is no string literal.
    pub fn name_other(name: &str) -> (r: Meta)
        ensures
            r is NameValue,
            r.name_spec() == name@,
            r.source_spec().is_none(),
            r.span_spec() == Span::call_site_spec(),
            r.parsed_spec() is Unread,
    {
        Meta::NameValue {
            name: String::from_str(name),
            value: None,
            parsed: Parsed::Unread,
            span: Span::call_site(),
        }
    }

    /// The same item at the place `span`.
    pub fn with_span(self, span: Span) -> (r: Meta)
        ensures
            r.span_spec() == span,
            r.name_spec() == self.name_spec(),
            r.source_spec() == self.source_spec(),
            r.parsed_spec() == self.parsed_spec(),
            r is Path == self is Path,
            r is List == self is List,
    {
        match self {
            Meta::Path { name, .. } => Meta::Path { name, span },
            Meta::List { name, tokens, parsed, .. } => Meta::List { name, tokens, parsed, span },
            Meta::NameValue { name, value, parsed, .. } => Meta::NameValue {
                name,
                value,
                parsed,
                span,
            },
        }
    }

    /// What reading the argument gave.
    pub open spec fn parsed_spec(self) -> ParsedView {
        match self {
            Meta::Path { .. } => ParsedView::Unread,
            Meta::List { parsed, .. } => parsed@,
            Meta::NameValue { parsed, .. } => parsed@,
        }
    }

    pub open spec fn name_spec(self) -> Seq<char> {
        match self {
            Meta::Path { name, .. } => name@,
            Meta::List { name, .. } => name@,
            Meta::NameValue { name, .. } => name@,
        }
    }

    pub open spec fn span_spec(self) -> Span {
        match self {
            Meta::Path { span, .. } => span,
            Meta::List { span, .. } => span,
            Meta::NameValue { span, .. } => span,
        }
    }

    /// The text given as the argument, where one was given in a form that
    /// the vocabulary accepts.
    pub open spec fn source_spec(self) -> Option<Seq<char>> {
        match self {
            Meta::Path { .. } => None,
            Meta::List { tokens, .. } => Some(tokens@),
            Meta::NameValue { value: Some(v), .. } => Some(v@),
            Meta::NameValue { value: None, .. } => None,
        }
    }

    pub fn name(&self) -> (r: &str)
        ensures
            r@ == self.name_spec(),
    {
        match self {
            Meta::Path { name, .. } => name.as_str(),
            Meta::List { name, .. } => name.as_str(),
            Meta::NameValue { name, .. } => name.as_str(),
        }
    }

    pub fn span(&self) -> (r: Span)
        ensures
            r == self.span_spec(),
    {
        match self {
            Meta::Path { span, .. } => *span,
            Meta::List { span, .. } => *span,
            Meta::NameValue { span, .. } => *span,
        }
    }
}

/// One validated attribute: its kind, the tokens of its argument, and the
/// place where it was written.
#[derive(Debug, PartialEq, Eq)]
pub struct MetaAttr {
    pub attr_type: MetaAttrType,
    pub arg0: Option<String>,
    /// The function arguments that the argument holds, for `ExtraArgs`.
    pub fn_args: Vec<ExtraArg>,
    pub span: Span,
}

/// What a `MetaAttr` holds, as plain values.
pub struct MetaAttrView {
    pub attr_type: MetaAttrType,
    pub arg: Option<Seq<char>>,
    pub fn_args: Seq<ExtraArgView>,
    pub span: Span,
}

impl View for MetaAttr {
    type V = MetaAttrView;

    open spec fn view(&self) -> MetaAttrView {
        MetaAttrView {
            attr_type: self.attr_type,
            arg: match self.arg0 {
                Some(a) => Some(a@),
                None => None,
            },
            fn_args: extra_args_view(self.fn_args@),
            span: self.span,
        }
    }
}

/// The views of a list of attributes, in order.
pub open spec fn attrs_view(attrs: Seq<MetaAttr>) -> Seq<MetaAttrView> {
    attrs.map_values(|a: MetaAttr| a@)
}

/// A pattern and its guard as one text: the pattern, then ` if ` and the
/// guard where there is one.
pub open spec fn pattern_text(pattern: Seq<char>, guard: Option<Seq<char>>) -> Seq<char> {
    match guard {
        Some(g) => pattern + " if "@ + g,
        None => pattern,
    }
}

/// The tokens of a list of function arguments, separated by `, `.
pub open spec fn fn_args_text(args: Seq<ExtraArgView>) -> Seq<char>
    decreases args.len(),
{
    if args.len() == 0 {
        Seq::empty()
    } else if args.len() == 1 {
        args[0].2
    } else {
        fn_args_text(args.drop_last()) + ", "@ + args.last().2
    }
}

/// The argument of an attribute of kind `kind` whose text was read as
/// `parsed`: its tokens, and the function arguments it holds. A list of
/// function arguments is wanted for `ExtraArgs`, and tokens for every other
/// kind; anything else is no argument.
pub open spec fn argument_spec(kind: MetaAttrType, parsed: ParsedView) -> Option<
    (Seq<char>, Seq<ExtraArgView>),
> {
    match kind.grammar_spec() {
        ArgGrammar::FnArgs => match parsed {
            ParsedView::FnArgs(args) => Some((fn_args_text(args), args)),
            _ => None,
        },
        _ => match parsed {
            ParsedView::Tokens(t) => Some((t, Seq::empty())),
            _ => None,
        },
    }
}

/// The text that shows an attribute: its name, then its argument in
/// parentheses where it has one.
pub open spec fn display_spec(attr: MetaAttrView) -> Seq<char> {
    match attr.arg {
        Some(a) => attr.attr_type.name_spec() + "("@ + a + ")"@,
        None => attr.attr_type.name_spec(),
    }
}

/// The attribute that `meta` stands for, or the error in it.
///
/// The name must be in the vocabulary. A kind that takes an argument must
/// be given one, in parentheses or as a string literal after `=`, and the
/// argument must have been read as one of the grammar of the kind. A kind
/// that takes none must be written as a bare name.
pub open spec fn from_meta_spec(meta: Meta) -> Result<MetaAttrView, MetaErrorView> {
    let name = meta.name_spec();
    let span = meta.span_spec();
    match MetaAttrType::from_ident_spec(name) {
        None => Err(MetaErrorView { kind: ErrorKind::UnknownAttribute, span, detail: name }),
        Some(kind) => if kind.takes_argument_spec() {
            match meta.source_spec() {
                None => Err(MetaErrorView { kind: ErrorKind::MissingArgument, span, detail: name }),
                Some(source) => match argument_spec(kind, meta.parsed_spec()) {
                    None => Err(
                        MetaErrorView { kind: ErrorKind::InvalidArgument, span, detail: source },
                    ),
                    Some((tokens, fn_args)) => Ok(
                        MetaAttrView { attr_type: kind, arg: Some(tokens), fn_args, span },
                    ),
                },
            }
        } else {
            match meta {
                Meta::Path { .. } => Ok(
                    MetaAttrView { attr_type: kind, arg: None, fn_args: Seq::empty(), span },
                ),
                _ => Err(MetaErrorView { kind: ErrorKind::UnexpectedArgument, span, detail: name }),
            }
        },
    }
}

/// An item whose argument was read for its name stands for an attribute
/// exactly when its name is in the vocabulary, it is written in the form
/// of its kind, and its argument was not rejected. A rejected argument is
/// an invalid argument.
pub proof fn lemma_read_item(meta: Meta)
    requires
        may_be_read(meta.name_spec(), meta.parsed_spec()),
    ensures
        match MetaAttrType::from_ident_spec(meta.name_spec()) {
            None => from_meta_spec(meta) is Err && from_meta_spec(meta)->Err_0.kind
                == ErrorKind::UnknownAttribute,
            Some(kind) => if !kind.takes_argument_spec() {
                from_meta_spec(meta) is Ok <==> meta is Path
            } else if meta.source_spec().is_none() {
                from_meta_spec(meta) is Err && from_meta_spec(meta)->Err_0.kind
                    == ErrorKind::MissingArgument
            } else if meta.parsed_spec() is Rejected {
                from_meta_spec(meta) is Err && from_meta_spec(meta)->Err_0.kind
                    == ErrorKind::InvalidArgument
            } else {
                from_meta_spec(meta) is Ok && from_meta_spec(meta)->Ok_0.attr_type == kind
                    && from_meta_spec(meta)->Ok_0.arg.is_some()
            },
        },
{
}

/// Joins the tokens of the arguments with `, `.
fn join_fn_args(args: &Vec<ExtraArg>) -> (r: String)
    ensures
        r@ == fn_args_text(extra_args_view(args@)),
{
    let ghost views = extra_args_view(args@);
    let mut out = String::new();
    let mut i: usize = 0;
    while i < args.len()
        invariant
            i <= args.len(),
            views == extra_args_view(args@),
            out@ == fn_args_text(views.take(i as int)),
        decreases args.len() - i,
    {
        proof {
            assert(views.take(i as int + 1).drop_last() =~= views.take(i as int));
            assert(views.take(i as int + 1).last() == args[i as int]@);
        }
        if i > 0 {
            out.append(", ");
        }
        out.append(args[i].tokens.as_str());
        proof {
            if i == 0 {
                assert(out@ =~= args[0]@.2);
            }
        }
        i += 1;
    }
    proof {
        assert(views.take(args.len() as int) =~= views);
    }
    out
}

/// The argument of an attribute of kind `kind` whose text was read as
/// `parsed`.
fn argument(kind: MetaAttrType, parsed: &Parsed) -> (r: Option<(String, Vec<ExtraArg>)>)
    ensures
        match r {
            Some(a) => argument_spec(kind, parsed@) == Some((a.0@, extra_args_view(a.1@))),
            None => argument_spec(kind, parsed@).is_none(),
        },
{
    match kind.grammar() {
        ArgGrammar::FnArgs => match parsed {
            Parsed::FnArgs(args) => Some((join_fn_args(args), duplicate_extra_args(args))),
            _ => None,
        },
        _ => match parsed {
            Parsed::Tokens(t) => {
                let none: Vec<ExtraArg> = Vec::new();
                proof {
                    assert(extra_args_view(none@) =~= Seq::empty());
                }
                Some((t.clone(), none))
            },
            _ => None,
        },
    }
}

impl MetaAttr {
    /// An attribute that holds no function arguments.
    pub fn new(attr_type: MetaAttrType, arg0: Option<String>, span: Span) -> (r: MetaAttr)
        ensures
            r.attr_type == attr_type,
            r.arg0 == arg0,
            r.fn_args@ == Seq::<ExtraArg>::empty(),
            r.span == span,
    {
        MetaAttr { attr_type, arg0, fn_args: Vec::new(), span }
    }

    /// Validates one item of an attribute list. The argument is taken as
    /// it was read when the item was made.
    pub fn from_meta(meta: &Meta) -> (r: Result<MetaAttr, MetaError>)
        ensures
            match r {
                Ok(a) => from_meta_spec(*meta) == Ok::<MetaAttrView, MetaErrorView>(a@),
                Err(e) => from_meta_spec(*meta) == Err::<MetaAttrView, MetaErrorView>(e@),
            },
    {
        let span = meta.span();
        let kind = match MetaAttrType::from_ident(meta.name()) {
            Some(kind) => kind,
            None => {
                return Err(
                    MetaError::new(
                        ErrorKind::UnknownAttribute,
                        span,
                        String::from_str(meta.name()),
                    ),
                );
            },
        };
        if kind.takes_argument() {
            let (source, parsed): (&str, &Parsed) = match meta {
                Meta::List { tokens, parsed, .. } => (tokens.as_str(), parsed),
                Meta::NameValue { value: Some(v), parsed, .. } => (v.as_str(), parsed),
                _ => {
                    return Err(
                        MetaError::new(
                            ErrorKind::MissingArgument,
                            span,
                            String::from_str(meta.name()),
                        ),
                    );
                },
            };
            match argument(kind, parsed) {
                Some((tokens, fn_args)) => Ok(
                    MetaAttr { attr_type: kind, arg0: Some(tokens), fn_args, span },
                ),
                None => Err(
                    MetaError::new(ErrorKind::InvalidArgument, span, String::from_str(source)),
                ),
            }
        } else {
            match meta {
                Meta::Path { .. } => {
                    let fn_args: Vec<ExtraArg> = Vec::new();
                    proof {
                        assert(extra_args_view(fn_args@) =~= Seq::empty());
                    }
                    Ok(MetaAttr { attr_type: kind, arg0: None, fn_args, span })
                },
                _ => Err(
                    MetaError::new(
                        ErrorKind::UnexpectedArgument,
                        span,
                        String::from_str(meta.name()),
                    ),
                ),
            }
        }
    }

    /// Whether the attribute may stand on a struct or an enum.
    pub fn acceptable_tla(&self) -> (r: bool)
        ensures
            r == self.attr_type.top_level_spec(),
    {
        match self.attr_type {
            MetaAttrType::DebugDerive
            | MetaAttrType::Complete
            | MetaAttrType::Debug
            | MetaAttrType::ExtraArgs
            | MetaAttrType::GenericErrors
            | MetaAttrType::InputName
            | MetaAttrType::LittleEndian
            | MetaAttrType::BigEndian
            | MetaAttrType::SetEndian
            | MetaAttrType::PreExec
            | MetaAttrType::PostExec
            | MetaAttrType::Exact
            | MetaAttrType::Selector => true,
            _ => false,
        }
    }

    /// Whether the attribute may stand on a field or a variant.
    pub fn acceptable_fla(&self) -> (r: bool)
        ensures
            r == self.attr_type.field_level_spec(),
    {
        match self.attr_type {
            MetaAttrType::DebugDerive
            | MetaAttrType::Exact
            | MetaAttrType::ExtraArgs
            | MetaAttrType::GenericErrors
            | MetaAttrType::InputName => false,
            _ => true,
        }
    }

    pub fn is_type(&self, attr_type: MetaAttrType) -> (r: bool)
        ensures
            r == (self.attr_type == attr_type),
    {
        self.attr_type == attr_type
    }

    /// The tokens of the argument.
    pub fn arg(&self) -> (r: Option<&String>)
        ensures
            r.is_some() == self.arg0.is_some(),
            r.is_some() ==> r.unwrap() == self.arg0.unwrap(),
    {
        self.arg0.as_ref()
    }

    /// The attribute as it is shown in messages.
    pub fn display(&self) -> (r: String)
        ensures
            r@ == display_spec(self@),
    {
        let mut out = String::from_str(self.attr_type.name());
        match &self.arg0 {
            Some(a) => {
                out.append("(");
                out.append(a.as_str());
                out.append(")");
            },
            None => {},
        }
        out
    }
}


/// The first attribute of kind `kind` in `list`.
pub open spec fn first_attr(list: Seq<MetaAttrView>, kind: MetaAttrType) -> Option<MetaAttrView>
    decreases list.len(),
{
    if list.len() == 0 {
        None
    } else if list[0].attr_type == kind {
        Some(list[0])
    } else {
        first_attr(list.skip(1), kind)
    }
}

/// Whether `list` holds an attribute of kind `kind`.
pub open spec fn has_attr(list: Seq<MetaAttrView>, kind: MetaAttrType) -> bool {
    first_attr(list, kind).is_some()
}

/// The argument of the first attribute of kind `kind` in `list`.
pub open spec fn first_arg(list: Seq<MetaAttrView>, kind: MetaAttrType) -> Option<Seq<char>> {
    match first_attr(list, kind) {
        Some(a) => a.arg,
        None => None,
    }
}

/// Finds the first attribute of kind `kind`.
pub fn find_attr(list: &[MetaAttr], kind: MetaAttrType) -> (r: Option<&MetaAttr>)
    ensures
        match r {
            Some(a) => first_attr(attrs_view(list@), kind) == Some(a@),
            None => first_attr(attrs_view(list@), kind).is_none(),
        },
{
    let ghost views = attrs_view(list@);
    let mut i: usize = 0;
    proof {
        assert(views.skip(0) =~= views);
    }
    while i < list.len()
        invariant
            i <= list.len(),
            views == attrs_view(list@),
            first_attr(views, kind) == first_attr(views.skip(i as int), kind),
        decreases list.len() - i,
    {
        proof {
            assert(views.skip(i as int).skip(1) =~= views.skip(i as int + 1));
            assert(views.skip(i as int)[0] == list[i as int]@);
        }
        if list[i].attr_type == kind {
            return Some(&list[i]);
        }
        i += 1;
    }
    None
}

/// Whether `list` holds an attribute of kind `kind`.
pub fn contains_attr(list: &[MetaAttr], kind: MetaAttrType) -> (r: bool)
    ensures
        r == has_attr(attrs_view(list@), kind),
{
    find_attr(list, kind).is_some()
}

/// The last attribute of kind `kind` in `list`.
pub open spec fn last_attr(list: Seq<MetaAttrView>, kind: MetaAttrType) -> Option<MetaAttrView>
    decreases list.len(),
{
    if list.len() == 0 {
        None
    } else if list.last().attr_type == kind {
        Some(list.last())
    } else {
        last_attr(list.drop_last(), kind)
    }
}

/// Where `list` holds an attribute of kind `kind`, it holds a last one.
pub proof fn lemma_last_attr_exists(list: Seq<MetaAttrView>, kind: MetaAttrType)
    requires
        has_attr(list, kind),
    ensures
        last_attr(list, kind).is_some(),
    decreases list.len(),
{
    if list.len() > 0 && list.last().attr_type != kind {
        lemma_has_attr_drop_last(list, kind);
        lemma_last_attr_exists(list.drop_last(), kind);
    }
}

/// Dropping a last attribute of another kind keeps the first of `kind`.
pub proof fn lemma_has_attr_drop_last(list: Seq<MetaAttrView>, kind: MetaAttrType)
    requires
        list.len() > 0,
        list.last().attr_type != kind,
    ensures
        first_attr(list.drop_last(), kind) == first_attr(list, kind),
    decreases list.len(),
{
    if list.len() == 1 {
        assert(list.drop_last().len() == 0);
        assert(list.skip(1).len() == 0);
    } else if list[0].attr_type != kind {
        assert(list.skip(1).drop_last() =~= list.drop_last().skip(1));
        lemma_has_attr_drop_last(list.skip(1), kind);
    }
}

/// Finds the last attribute of kind `kind`.
pub fn find_last_attr(list: &[MetaAttr], kind: MetaAttrType) -> (r: Option<&MetaAttr>)
    ensures
        match r {
            Some(a) => last_attr(attrs_view(list@), kind) == Some(a@),
            None => last_attr(attrs_view(list@), kind).is_none(),
        },
{
    let ghost views = attrs_view(list@);
    let mut found: Option<&MetaAttr> = None;
    let mut i: usize = 0;
    while i < list.len()
        invariant
            i <= list.len(),
            views == attrs_view(list@),
            match found {
                Some(a) => last_attr(views.take(i as int), kind) == Some(a@),
                None => last_attr(views.take(i as int), kind).is_none(),
            },
        decreases list.len() - i,
    {
        proof {
            assert(views.take(i as int + 1).drop_last() =~= views.take(i as int));
            assert(views.take(i as int + 1).last() == list[i as int]@);
        }
        if list[i].attr_type == kind {
            found = Some(&list[i]);
        }
        i += 1;
    }
    proof {
        assert(views.take(list.len() as int) =~= views);
    }
    found
}

} // verus!
