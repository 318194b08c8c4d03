//! The questions that a decoding procedure puts to the host, and the
//! answers it goes on with.
//!
//! A run is a function of the plan, the input and the answers given so
//! far. When it reaches an argument for which no answer is left, it stops
//! and hands out the question; the caller adds the answer of the host to
//! the list and runs again.

use vstd::prelude::*;
use crate::decode::error::{DecodeError, DecodeErrorKind};
use crate::decode::value::{
    bindings_view, duplicate_bindings, Binding, BindingView, Value, ValueView,
};

verus! {

/// One question to the host. `code` is an argument of the plan, as
/// tokens.
#[derive(Debug, PartialEq, Eq)]
pub enum Query {
    /// The value of the expression `code`.
    Eval { code: String },
    /// The result of the function `code` applied to `arg`.
    Apply { code: String, arg: Value },
    /// Whether the condition `code` holds of `arg`, bound to `binder`.
    Check { code: String, binder: String, arg: Value },
    /// `arg` converted to the type of the field.
    Convert { arg: Value },
    /// What the parser `code` reads.
    Parse { code: String },
    /// What the decoding procedure of the type `ty` reads, in the byte
    /// order given.
    Call { ty: String, big_endian: bool },
    /// What the statement `code` does.
    Exec { code: String },
    /// Whether the selector matches the pattern `code`.
    Matches { code: String },
}

/// What a `Query` holds, as plain values.
pub enum QueryView {
    Eval { code: Seq<char> },
    Apply { code: Seq<char>, arg: ValueView },
    Check { code: Seq<char>, binder: Seq<char>, arg: ValueView },
    Convert { arg: ValueView },
    Parse { code: Seq<char> },
    Call { ty: Seq<char>, big_endian: bool },
    Exec { code: Seq<char> },
    Matches { code: Seq<char> },
}

impl View for Query {
    type V = QueryView;

    open spec fn view(&self) -> QueryView {
        match self {
            Query::Eval { code } => QueryView::Eval { code: code@ },
            Query::Apply { code, arg } => QueryView::Apply { code: code@, arg: arg@ },
            Query::Check { code, binder, arg } => QueryView::Check {
                code: code@,
                binder: binder@,
                arg: arg@,
            },
            Query::Convert { arg } => QueryView::Convert { arg: arg@ },
            Query::Parse { code } => QueryView::Parse { code: code@ },
            Query::Call { ty, big_endian } => QueryView::Call { ty: ty@, big_endian: *big_endian },
            Query::Exec { code } => QueryView::Exec { code: code@ },
            Query::Matches { code } => QueryView::Matches { code: code@ },
        }
    }
}

/// A question, with the offset in the input where the step that puts it
/// begins, and the values that are bound there: the fields decoded so far,
/// and what the statements of the plan have bound.
#[derive(Debug, PartialEq, Eq)]
pub struct Request {
    pub query: Query,
    pub pos: usize,
    pub scope: Vec<Binding>,
}

/// What a `Request` holds, as plain values.
pub struct RequestView {
    pub query: QueryView,
    pub pos: usize,
    pub scope: Seq<BindingView>,
}

impl View for Request {
    type V = RequestView;

    open spec fn view(&self) -> RequestView {
        RequestView { query: self.query@, pos: self.pos, scope: bindings_view(self.scope@) }
    }
}

/// One answer of the host.
#[derive(Debug, PartialEq, Eq)]
pub enum Answer {
    /// The value asked for.
    Value(Value),
    /// The parser succeeded: the offset after what it read, and its value.
    Parsed(usize, Value),
    /// What the statement has bound.
    Bound(Vec<Binding>),
    /// The statement has bound the input anew, at this offset, and these
    /// values.
    Moved(usize, Vec<Binding>),
    /// The code of the host failed.
    Failed(DecodeError),
}

/// What an `Answer` holds, as plain values.
pub enum AnswerView {
    Value(ValueView),
    Parsed(usize, ValueView),
    Bound(Seq<BindingView>),
    Moved(usize, Seq<BindingView>),
    Failed(DecodeError),
}

impl View for Answer {
    type V = AnswerView;

    open spec fn view(&self) -> AnswerView {
        match self {
            Answer::Value(v) => AnswerView::Value(v@),
            Answer::Parsed(p, v) => AnswerView::Parsed(*p, v@),
            Answer::Bound(b) => AnswerView::Bound(bindings_view(b@)),
            Answer::Moved(p, b) => AnswerView::Moved(*p, bindings_view(b@)),
            Answer::Failed(e) => AnswerView::Failed(*e),
        }
    }
}

/// The views of a list of answers, in order.
pub open spec fn answers_view(list: Seq<Answer>) -> Seq<AnswerView> {
    list.map_values(|a: Answer| a@)
}

/// What a run works on: the input and the answers of the host so far.
pub struct Session {
    pub input: Seq<u8>,
    pub answers: Seq<AnswerView>,
}

/// Where a part of a run ends, in the model: at a question for which no
/// answer is left; at an error, after `at` answers were used; or at a
/// result, after `at` answers were used.
pub enum Flow<T> {
    Ask(RequestView),
    Fail { at: nat, error: DecodeError },
    Done { at: nat, out: T },
}

/// Where a part of a run ends.
pub enum Progress<T> {
    Ask(Request),
    Fail { at: usize, error: DecodeError },
    Done { at: usize, out: T },
}

/// The error for an answer of the wrong shape.
pub open spec fn host_error(pos: nat) -> DecodeError {
    DecodeError::Failure(DecodeErrorKind::Host, pos as usize)
}

/// The value that the host gives for `query`.
pub open spec fn ask_value_spec(
    s: Session,
    scope: Seq<BindingView>,
    query: QueryView,
    pos: nat,
    at: nat,
) -> Flow<ValueView> {
    if at >= s.answers.len() {
        Flow::Ask(RequestView { query, pos: pos as usize, scope })
    } else {
        match s.answers[at as int] {
            AnswerView::Value(v) => Flow::Done { at: at + 1, out: v },
            AnswerView::Failed(e) => Flow::Fail { at: at + 1, error: e },
            _ => Flow::Fail { at: at + 1, error: host_error(pos) },
        }
    }
}

/// What the parser of the host reads for `query` at `pos`. The parser
/// does not go back, nor beyond the end of the input.
pub open spec fn ask_parsed_spec(
    s: Session,
    scope: Seq<BindingView>,
    query: QueryView,
    pos: nat,
    at: nat,
) -> Flow<(nat, ValueView)> {
    if at >= s.answers.len() {
        Flow::Ask(RequestView { query, pos: pos as usize, scope })
    } else {
        match s.answers[at as int] {
            AnswerView::Parsed(p, v) => if pos <= p <= s.input.len() {
                Flow::Done { at: at + 1, out: (p as nat, v) }
            } else {
                Flow::Fail { at: at + 1, error: host_error(pos) }
            },
            AnswerView::Failed(e) => Flow::Fail { at: at + 1, error: e },
            _ => Flow::Fail { at: at + 1, error: host_error(pos) },
        }
    }
}

/// Where the statement of the host leaves the run for `query`: the offset
/// in the input, which stays `pos` unless the statement binds the input
/// anew within its bounds, and what the statement binds.
pub open spec fn ask_bound_spec(
    s: Session,
    scope: Seq<BindingView>,
    query: QueryView,
    pos: nat,
    at: nat,
) -> Flow<(nat, Seq<BindingView>)> {
    if at >= s.answers.len() {
        Flow::Ask(RequestView { query, pos: pos as usize, scope })
    } else {
        match s.answers[at as int] {
            AnswerView::Bound(b) => Flow::Done { at: at + 1, out: (pos, b) },
            AnswerView::Moved(p, b) => if p <= s.input.len() {
                Flow::Done { at: at + 1, out: (p as nat, b) }
            } else {
                Flow::Fail { at: at + 1, error: host_error(pos) }
            },
            AnswerView::Failed(e) => Flow::Fail { at: at + 1, error: e },
            _ => Flow::Fail { at: at + 1, error: host_error(pos) },
        }
    }
}

/// The number that a value stands for as a count of bytes or of items.
pub open spec fn as_count_spec(v: ValueView) -> Option<usize> {
    match v {
        ValueView::UInt(n) => if n <= usize::MAX {
            Some(n as usize)
        } else {
            None
        },
        ValueView::Int(n) => if 0 <= n <= usize::MAX {
            Some(n as usize)
        } else {
            None
        },
        _ => None,
    }
}

/// The number that a value stands for as a signed offset: whether it goes
/// back, and by how many bytes.
pub open spec fn as_offset_spec(v: ValueView) -> Option<(bool, usize)> {
    match v {
        ValueView::UInt(n) => if n <= usize::MAX {
            Some((false, n as usize))
        } else {
            None
        },
        ValueView::Int(n) => if 0 <= n <= usize::MAX {
            Some((false, n as usize))
        } else if n < 0 && -n <= usize::MAX {
            Some((true, (-n) as usize))
        } else {
            None
        },
        _ => None,
    }
}

/// The model of a value that was asked for.
pub open spec fn value_flow(p: Progress<Value>) -> Flow<ValueView> {
    match p {
        Progress::Ask(q) => Flow::Ask(q@),
        Progress::Fail { at, error } => Flow::Fail { at: at as nat, error },
        Progress::Done { at, out } => Flow::Done { at: at as nat, out: out@ },
    }
}

/// The model of what a parser read.
pub open spec fn parsed_flow(p: Progress<(usize, Value)>) -> Flow<(nat, ValueView)> {
    match p {
        Progress::Ask(q) => Flow::Ask(q@),
        Progress::Fail { at, error } => Flow::Fail { at: at as nat, error },
        Progress::Done { at, out } => Flow::Done { at: at as nat, out: (out.0 as nat, out.1@) },
    }
}

/// The model of where a statement left the run.
pub open spec fn bound_flow(p: Progress<(usize, Vec<Binding>)>) -> Flow<(nat, Seq<BindingView>)> {
    match p {
        Progress::Ask(q) => Flow::Ask(q@),
        Progress::Fail { at, error } => Flow::Fail { at: at as nat, error },
        Progress::Done { at, out } => Flow::Done {
            at: at as nat,
            out: (out.0 as nat, bindings_view(out.1@)),
        },
    }
}

/// Whether the part of the run ended within the answers given.
pub open spec fn within<T>(p: Progress<T>, answers: Seq<Answer>) -> bool {
    match p {
        Progress::Ask(_) => true,
        Progress::Fail { at, .. } => at <= answers.len(),
        Progress::Done { at, .. } => at <= answers.len(),
    }
}

/// The question `query`, with a copy of the scope.
fn request(scope: &Vec<Binding>, query: Query, pos: usize) -> (r: Request)
    ensures
        r@ == (RequestView { query: query@, pos, scope: bindings_view(scope@) }),
{
    Request { query, pos, scope: duplicate_bindings(scope) }
}

/// Takes the answer at `at` as a value.
pub fn ask_value(
    input: &[u8],
    answers: &[Answer],
    scope: &Vec<Binding>,
    query: Query,
    pos: usize,
    at: usize,
) -> (r: Progress<Value>)
    requires
        at <= answers.len(),
    ensures
        value_flow(r) == ask_value_spec(
            Session { input: input@, answers: answers_view(answers@) },
            bindings_view(scope@),
            query@,
            pos as nat,
            at as nat,
        ),
        within(r, answers@),
{
    if at >= answers.len() {
        return Progress::Ask(request(scope, query, pos));
    }
    match &answers[at] {
        Answer::Value(v) => Progress::Done { at: at + 1, out: v.duplicate() },
        Answer::Failed(e) => Progress::Fail { at: at + 1, error: *e },
        _ => Progress::Fail { at: at + 1, error: DecodeError::Failure(DecodeErrorKind::Host, pos) },
    }
}

/// Takes the answer at `at` as the result of a parser.
pub fn ask_parsed(
    input: &[u8],
    answers: &[Answer],
    scope: &Vec<Binding>,
    query: Query,
    pos: usize,
    at: usize,
) -> (r: Progress<(usize, Value)>)
    requires
        at <= answers.len(),
    ensures
        parsed_flow(r) == ask_parsed_spec(
            Session { input: input@, answers: answers_view(answers@) },
            bindings_view(scope@),
            query@,
            pos as nat,
            at as nat,
        ),
        within(r, answers@),
        r matches Progress::Done { out, .. } ==> pos <= out.0 <= input.len(),
{
    if at >= answers.len() {
        return Progress::Ask(request(scope, query, pos));
    }
    match &answers[at] {
        Answer::Parsed(p, v) => {
            if pos <= *p && *p <= input.len() {
                Progress::Done { at: at + 1, out: (*p, v.duplicate()) }
            } else {
                Progress::Fail {
                    at: at + 1,
                    error: DecodeError::Failure(DecodeErrorKind::Host, pos),
                }
            }
        },
        Answer::Failed(e) => Progress::Fail { at: at + 1, error: *e },
        _ => Progress::Fail { at: at + 1, error: DecodeError::Failure(DecodeErrorKind::Host, pos) },
    }
}

/// Takes the answer at `at` as what a statement bound.
pub fn ask_bound(
    input: &[u8],
    answers: &[Answer],
    scope: &Vec<Binding>,
    query: Query,
    pos: usize,
    at: usize,
) -> (r: Progress<(usize, Vec<Binding>)>)
    requires
        pos <= input.len(),
        at <= answers.len(),
    ensures
        r matches Progress::Done { out, .. } ==> out.0 <= input.len(),
        bound_flow(r) == ask_bound_spec(
            Session { input: input@, answers: answers_view(answers@) },
            bindings_view(scope@),
            query@,
            pos as nat,
            at as nat,
        ),
        within(r, answers@),
{
    if at >= answers.len() {
        return Progress::Ask(request(scope, query, pos));
    }
    match &answers[at] {
        Answer::Bound(b) => Progress::Done { at: at + 1, out: (pos, duplicate_bindings(b)) },
        Answer::Moved(p, b) => {
            if *p <= input.len() {
                Progress::Done { at: at + 1, out: (*p, duplicate_bindings(b)) }
            } else {
                Progress::Fail {
                    at: at + 1,
                    error: DecodeError::Failure(DecodeErrorKind::Host, pos),
                }
            }
        },
        Answer::Failed(e) => Progress::Fail { at: at + 1, error: *e },
        _ => Progress::Fail { at: at + 1, error: DecodeError::Failure(DecodeErrorKind::Host, pos) },
    }
}

/// The number that a value stands for as a count.
pub fn as_count(v: &Value) -> (r: Option<usize>)
    ensures
        r == as_count_spec(v@),
{
    match v {
        Value::UInt(n) => {
            if *n <= usize::MAX as u128 {
                Some(*n as usize)
            } else {
                None
            }
        },
        Value::Int(n) => {
            if 0 <= *n && *n <= usize::MAX as i128 {
                Some(*n as usize)
            } else {
                None
            }
        },
        _ => None,
    }
}

/// The number that a value stands for as a signed offset.
pub fn as_offset(v: &Value) -> (r: Option<(bool, usize)>)
    ensures
        r == as_offset_spec(v@),
{
    match v {
        Value::UInt(n) => {
            if *n <= usize::MAX as u128 {
                Some((false, *n as usize))
            } else {
                None
            }
        },
        Value::Int(n) => {
            if 0 <= *n && *n <= usize::MAX as i128 {
                Some((false, *n as usize))
            } else if *n < 0 && *n >= -(usize::MAX as i128) {
                Some((true, (-*n) as usize))
            } else {
                None
            }
        },
        _ => None,
    }
}

} // verus!
