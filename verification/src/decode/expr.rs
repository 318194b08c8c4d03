//! The meaning of a parser expression: what it reads from the input.

use vstd::prelude::*;
use crate::decode::error::{DecodeError, DecodeErrorKind};
use crate::decode::host::{
    answers_view, as_count, as_count_spec, ask_parsed, ask_parsed_spec, ask_value,
    ask_value_spec, host_error, parsed_flow, within, Answer, Flow, Progress, Query, QueryView,
    Session,
};
use crate::decode::number::{int_type, int_type_spec, read_int, read_int_spec};
use crate::decode::value::{
    bindings_view, lemma_list_view, lookup, lookup_spec, values_view, Binding,
    BindingView, Endianness, Value, ValueView,
};
use crate::parsertree::{ParserExpr, ParserExprView};
use crate::text::str_eq;
use crate::types::{ArrayLength, ArrayLengthView, Type, TypeView};

verus! {

/// A step that must be complete: a lack of input becomes an error at the
/// offset where the step began.
pub open spec fn complete_spec(flow: Flow<(nat, ValueView)>, pos: nat) -> Flow<(nat, ValueView)> {
    match flow {
        Flow::Fail { at, error: DecodeError::Incomplete(_) } => Flow::Fail {
            at,
            error: DecodeError::Error(DecodeErrorKind::Complete, pos as usize),
        },
        other => other,
    }
}

/// What the decoding procedure of the type `ty` reads at `pos`, big endian
/// where `big` holds and little endian else.
///
/// A primitive integer is read from its bytes. `Option<T>` reads a `T`
/// that must be complete, and gives `None` without reading where that
/// fails with an error. `Vec<T>` reads values of `T` that must be complete
/// until one fails with an error. `[T; n]` reads exactly `n` of them. The
/// procedure of any other type is the host's.
pub open spec fn run_type_spec(
    s: Session,
    scope: Seq<BindingView>,
    ty: TypeView,
    big: bool,
    pos: nat,
    at: nat,
) -> Flow<(nat, ValueView)>
    decreases ty, 0nat, 0nat,
{
    match ty {
        TypeView::Path { ident, .. } => match int_type_spec(ident) {
            Some((width, signed)) => match read_int_spec(s.input, pos, width, signed, big) {
                Ok(out) => Flow::Done { at, out },
                Err(error) => Flow::Fail { at, error },
            },
            None => call_spec(s, scope, ty, big, pos, at),
        },
        TypeView::Generic { ident, argument, .. } => if ident == "Option"@ {
            match complete_spec(run_type_spec(s, scope, *argument, big, pos, at), pos) {
                Flow::Done { at, out } => Flow::Done {
                    at,
                    out: (out.0, ValueView::Present(Box::new(out.1))),
                },
                Flow::Fail { at, error: DecodeError::Error(_, _) } => Flow::Done {
                    at,
                    out: (pos, ValueView::Absent),
                },
                other => other,
            }
        } else if ident == "Vec"@ {
            many_spec(s, scope, *argument, big, pos, at, Seq::empty())
        } else {
            call_spec(s, scope, ty, big, pos, at)
        },
        TypeView::Array { element, length: ArrayLengthView::Literal(n), .. } => exactly_spec(
            s,
            scope,
            *element,
            big,
            n as nat,
            pos,
            at,
            Seq::empty(),
        ),
        _ => call_spec(s, scope, ty, big, pos, at),
    }
}

/// What the host reads for the type `ty`.
pub open spec fn call_spec(
    s: Session,
    scope: Seq<BindingView>,
    ty: TypeView,
    big: bool,
    pos: nat,
    at: nat,
) -> Flow<(nat, ValueView)> {
    ask_parsed_spec(
        s,
        scope,
        QueryView::Call { ty: ty.tokens(), big_endian: big },
        pos,
        at,
    )
}

/// The values of type `element` read from `pos` on, after those of `acc`,
/// until one fails with an error. A value that takes no input is an
/// error.
pub open spec fn many_spec(
    s: Session,
    scope: Seq<BindingView>,
    element: TypeView,
    big: bool,
    pos: nat,
    at: nat,
    acc: Seq<ValueView>,
) -> Flow<(nat, ValueView)>
    decreases element, 1nat, s.input.len() - pos,
{
    match complete_spec(run_type_spec(s, scope, element, big, pos, at), pos) {
        Flow::Done { at, out } => if out.0 <= pos || out.0 > s.input.len() {
            Flow::Fail { at, error: DecodeError::Error(DecodeErrorKind::Many0, pos as usize) }
        } else {
            many_spec(s, scope, element, big, out.0, at, acc.push(out.1))
        },
        Flow::Fail { at, error: DecodeError::Error(_, _) } => Flow::Done {
            at,
            out: (pos, ValueView::List(acc)),
        },
        other => other,
    }
}

/// The `count` values of type `element` read from `pos` on, after those
/// of `acc`. A value that takes no input is an error.
pub open spec fn exactly_spec(
    s: Session,
    scope: Seq<BindingView>,
    element: TypeView,
    big: bool,
    count: nat,
    pos: nat,
    at: nat,
    acc: Seq<ValueView>,
) -> Flow<(nat, ValueView)>
    decreases element, 1nat, count,
{
    if count == 0 {
        Flow::Done { at, out: (pos, ValueView::List(acc)) }
    } else {
        match complete_spec(run_type_spec(s, scope, element, big, pos, at), pos) {
            Flow::Done { at, out } => if out.0 == pos {
                Flow::Fail { at, error: DecodeError::Error(DecodeErrorKind::ManyMN, pos as usize) }
            } else {
                exactly_spec(s, scope, element, big, (count - 1) as nat, out.0, at, acc.push(out.1))
            },
            other => other,
        }
    }
}

/// What matching the constant `tag` at `pos` gives: the offset after it
/// and the constant; a lack of input that asks for the length of the
/// constant, where the input ends within what matches so far; else an
/// error.
pub open spec fn tag_spec(input: Seq<u8>, pos: nat, tag: Seq<u8>) -> Result<
    (nat, ValueView),
    DecodeError,
> {
    let rest = input.skip(pos as int);
    if tag.len() <= rest.len() {
        if rest.take(tag.len() as int) == tag {
            Ok((pos + tag.len(), ValueView::Bytes(tag)))
        } else {
            Err(DecodeError::Error(DecodeErrorKind::Tag, pos as usize))
        }
    } else if rest == tag.take(rest.len() as int) {
        Err(DecodeError::Incomplete(tag.len() as usize))
    } else {
        Err(DecodeError::Error(DecodeErrorKind::Tag, pos as usize))
    }
}

/// What taking `count` bytes at `pos` gives: the offset after them and
/// the bytes, or a lack of input that asks for `count` bytes, however many
/// of them are there.
pub open spec fn take_spec(input: Seq<u8>, pos: nat, count: nat) -> Result<
    (nat, ValueView),
    DecodeError,
> {
    if pos + count <= input.len() {
        Ok((pos + count, ValueView::Bytes(input.subrange(pos as int, (pos + count) as int))))
    } else {
        Err(DecodeError::Incomplete(count as usize))
    }
}

/// The name under which the byte order chosen at run time is bound.
pub open spec fn endianness_name() -> Seq<char> {
    "__endianness"@
}

/// What the parser expression `e` reads at `pos`, after `at` answers of
/// the host were used.
pub open spec fn run_expr_spec(
    s: Session,
    scope: Seq<BindingView>,
    e: ParserExprView,
    pos: nat,
    at: nat,
) -> Flow<(nat, ValueView)>
    decreases e, 0nat,
{
    match e {
        ParserExprView::CallParse(t) => run_type_spec(s, scope, t, true, pos, at),
        ParserExprView::CallParseBE(t) => run_type_spec(s, scope, t, true, pos, at),
        ParserExprView::CallParseLE(t) => run_type_spec(s, scope, t, false, pos, at),
        ParserExprView::CallParseSet(t) => match lookup_spec(scope, endianness_name()) {
            Some(ValueView::Endian(Endianness::Big)) => run_type_spec(s, scope, t, true, pos, at),
            Some(ValueView::Endian(_)) => run_type_spec(s, scope, t, false, pos, at),
            _ => Flow::Fail { at, error: host_error(pos) },
        },
        ParserExprView::Complete(p) => complete_spec(run_expr_spec(s, scope, *p, pos, at), pos),
        ParserExprView::Cond(p, c) => match ask_value_spec(
            s,
            scope,
            QueryView::Eval { code: c },
            pos,
            at,
        ) {
            Flow::Ask(q) => Flow::Ask(q),
            Flow::Fail { at, error } => Flow::Fail { at, error },
            Flow::Done { at, out: ValueView::Bool(true) } => match run_expr_spec(
                s,
                scope,
                *p,
                pos,
                at,
            ) {
                Flow::Done { at, out } => Flow::Done {
                    at,
                    out: (out.0, ValueView::Present(Box::new(out.1))),
                },
                other => other,
            },
            Flow::Done { at, out: ValueView::Bool(false) } => Flow::Done {
                at,
                out: (pos, ValueView::Absent),
            },
            Flow::Done { at, .. } => Flow::Fail { at, error: host_error(pos) },
        },
        ParserExprView::Count(p, n) => match ask_value_spec(
            s,
            scope,
            QueryView::Eval { code: n },
            pos,
            at,
        ) {
            Flow::Ask(q) => Flow::Ask(q),
            Flow::Fail { at, error } => Flow::Fail { at, error },
            Flow::Done { at, out } => match as_count_spec(out) {
                Some(count) => repeat_spec(s, scope, *p, count as nat, pos, at, Seq::empty()),
                None => Flow::Fail { at, error: host_error(pos) },
            },
        },
        ParserExprView::DbgDmp(p, _) => run_expr_spec(s, scope, *p, pos, at),
        ParserExprView::Into(p) => match run_expr_spec(s, scope, *p, pos, at) {
            Flow::Done { at, out } => match ask_value_spec(
                s,
                scope,
                QueryView::Convert { arg: out.1 },
                pos,
                at,
            ) {
                Flow::Ask(q) => Flow::Ask(q),
                Flow::Fail { at, error } => Flow::Fail { at, error },
                Flow::Done { at, out: v } => Flow::Done { at, out: (out.0, v) },
            },
            other => other,
        },
        ParserExprView::LengthCount(p, n) => match ask_parsed_spec(
            s,
            scope,
            QueryView::Parse { code: n },
            pos,
            at,
        ) {
            Flow::Done { at, out } => match as_count_spec(out.1) {
                Some(count) => repeat_spec(s, scope, *p, count as nat, out.0, at, Seq::empty()),
                None => Flow::Fail { at, error: host_error(pos) },
            },
            other => other,
        },
        ParserExprView::MapWith(p, m) => match run_expr_spec(s, scope, *p, pos, at) {
            Flow::Done { at, out } => match ask_value_spec(
                s,
                scope,
                QueryView::Apply { code: m, arg: out.1 },
                pos,
                at,
            ) {
                Flow::Ask(q) => Flow::Ask(q),
                Flow::Fail { at, error } => Flow::Fail { at, error },
                Flow::Done { at, out: v } => Flow::Done { at, out: (out.0, v) },
            },
            other => other,
        },
        ParserExprView::Nop => Flow::Done { at, out: (pos, ValueView::Unit) },
        ParserExprView::PhantomData => Flow::Done { at, out: (pos, ValueView::Phantom) },
        ParserExprView::Raw(code) => ask_parsed_spec(
            s,
            scope,
            QueryView::Parse { code },
            pos,
            at,
        ),
        ParserExprView::Tag(code) => match ask_value_spec(
            s,
            scope,
            QueryView::Eval { code },
            pos,
            at,
        ) {
            Flow::Ask(q) => Flow::Ask(q),
            Flow::Fail { at, error } => Flow::Fail { at, error },
            Flow::Done { at, out: ValueView::Bytes(tag) } => match tag_spec(s.input, pos, tag) {
                Ok(out) => Flow::Done { at, out },
                Err(error) => Flow::Fail { at, error },
            },
            Flow::Done { at, .. } => Flow::Fail { at, error: host_error(pos) },
        },
        ParserExprView::Take(code) => match ask_value_spec(
            s,
            scope,
            QueryView::Eval { code },
            pos,
            at,
        ) {
            Flow::Ask(q) => Flow::Ask(q),
            Flow::Fail { at, error } => Flow::Fail { at, error },
            Flow::Done { at, out } => match as_count_spec(out) {
                Some(count) => match take_spec(s.input, pos, count as nat) {
                    Ok(out) => Flow::Done { at, out },
                    Err(error) => Flow::Fail { at, error },
                },
                None => Flow::Fail { at, error: host_error(pos) },
            },
        },
        ParserExprView::Value(code) => match ask_value_spec(
            s,
            scope,
            QueryView::Eval { code },
            pos,
            at,
        ) {
            Flow::Ask(q) => Flow::Ask(q),
            Flow::Fail { at, error } => Flow::Fail { at, error },
            Flow::Done { at, out } => Flow::Done { at, out: (pos, out) },
        },
        ParserExprView::Verify(p, binder, code) => match run_expr_spec(s, scope, *p, pos, at) {
            Flow::Done { at, out } => match ask_value_spec(
                s,
                scope,
                QueryView::Check { code, binder, arg: out.1 },
                pos,
                at,
            ) {
                Flow::Ask(q) => Flow::Ask(q),
                Flow::Fail { at, error } => Flow::Fail { at, error },
                Flow::Done { at, out: ValueView::Bool(true) } => Flow::Done { at, out },
                Flow::Done { at, out: ValueView::Bool(false) } => Flow::Fail {
                    at,
                    error: DecodeError::Error(DecodeErrorKind::Verify, pos as usize),
                },
                Flow::Done { at, .. } => Flow::Fail { at, error: host_error(pos) },
            },
            other => other,
        },
    }
}

/// What the parser expression `e` reads `count` times from `pos` on,
/// after the values of `acc`.
pub open spec fn repeat_spec(
    s: Session,
    scope: Seq<BindingView>,
    e: ParserExprView,
    count: nat,
    pos: nat,
    at: nat,
    acc: Seq<ValueView>,
) -> Flow<(nat, ValueView)>
    decreases e, 1nat, count,
{
    if count == 0 {
        Flow::Done { at, out: (pos, ValueView::List(acc)) }
    } else {
        match run_expr_spec(s, scope, e, pos, at) {
            Flow::Done { at, out } => repeat_spec(
                s,
                scope,
                e,
                (count - 1) as nat,
                out.0,
                at,
                acc.push(out.1),
            ),
            other => other,
        }
    }
}


fn complete(r: Progress<(usize, Value)>, pos: usize) -> (c: Progress<(usize, Value)>)
    ensures
        parsed_flow(c) == complete_spec(parsed_flow(r), pos as nat),
        forall|answers: Seq<Answer>| within(r, answers) ==> within(c, answers),
        r matches Progress::Done { out, .. } ==> c == r,
        c matches Progress::Done { .. } ==> c == r,
{
    match r {
        Progress::Fail { at, error: DecodeError::Incomplete(_) } => Progress::Fail {
            at,
            error: DecodeError::Error(DecodeErrorKind::Complete, pos),
        },
        other => other,
    }
}

fn call(
    input: &[u8],
    answers: &[Answer],
    scope: &Vec<Binding>,
    ty: &Type,
    big: bool,
    pos: usize,
    at: usize,
) -> (r: Progress<(usize, Value)>)
    requires
        pos <= input.len(),
        at <= answers.len(),
    ensures
        parsed_flow(r) == call_spec(
            Session { input: input@, answers: answers_view(answers@) },
            bindings_view(scope@),
            ty@,
            big,
            pos as nat,
            at as nat,
        ),
        within(r, answers@),
        r matches Progress::Done { out, .. } ==> out.0 <= input.len(),
{
    ask_parsed(
        input,
        answers,
        scope,
        Query::Call { ty: ty.to_tokens(), big_endian: big },
        pos,
        at,
    )
}

/// Runs the decoding procedure of the type `ty` at `pos`.
pub fn run_type(
    input: &[u8],
    answers: &[Answer],
    scope: &Vec<Binding>,
    ty: &Type,
    big: bool,
    pos: usize,
    at: usize,
) -> (r: Progress<(usize, Value)>)
    requires
        pos <= input.len(),
        at <= answers.len(),
    ensures
        parsed_flow(r) == run_type_spec(
            Session { input: input@, answers: answers_view(answers@) },
            bindings_view(scope@),
            ty@,
            big,
            pos as nat,
            at as nat,
        ),
        within(r, answers@),
        r matches Progress::Done { out, .. } ==> out.0 <= input.len(),
    decreases ty, 0nat,
{
    match ty {
        Type::Path { ident, .. } => match int_type(ident.as_str()) {
            Some((width, signed)) => match read_int(input, pos, width, signed, big) {
                Ok(out) => Progress::Done { at, out },
                Err(error) => Progress::Fail { at, error },
            },
            None => call(input, answers, scope, ty, big, pos, at),
        },
        Type::Generic { ident, argument, .. } => {
            if str_eq(ident.as_str(), "Option") {
                let inner = run_type(input, answers, scope, argument, big, pos, at);
                match complete(inner, pos) {
                    Progress::Done { at, out } => Progress::Done {
                        at,
                        out: (out.0, Value::Present(Box::new(out.1))),
                    },
                    Progress::Fail { at, error: DecodeError::Error(_, _) } => Progress::Done {
                        at,
                        out: (pos, Value::Absent),
                    },
                    other => other,
                }
            } else if str_eq(ident.as_str(), "Vec") {
                many(input, answers, scope, argument, big, pos, at)
            } else {
                call(input, answers, scope, ty, big, pos, at)
            }
        },
        Type::Array { element, length: ArrayLength::Literal(n), .. } => exactly(
            input,
            answers,
            scope,
            element,
            big,
            *n,
            pos,
            at,
        ),
        _ => call(input, answers, scope, ty, big, pos, at),
    }
}

fn many(
    input: &[u8],
    answers: &[Answer],
    scope: &Vec<Binding>,
    element: &Type,
    big: bool,
    start: usize,
    first: usize,
) -> (r: Progress<(usize, Value)>)
    requires
        start <= input.len(),
        first <= answers.len(),
    ensures
        parsed_flow(r) == many_spec(
            Session { input: input@, answers: answers_view(answers@) },
            bindings_view(scope@),
            element@,
            big,
            start as nat,
            first as nat,
            Seq::empty(),
        ),
        within(r, answers@),
        r matches Progress::Done { out, .. } ==> out.0 <= input.len(),
    decreases element, 1nat,
{
    let ghost s = Session { input: input@, answers: answers_view(answers@) };
    let ghost sc = bindings_view(scope@);
    let mut acc: Vec<Value> = Vec::new();
    let mut pos = start;
    let mut at = first;
    proof {
        assert(values_view(acc@) =~= Seq::empty());
    }
    loop
        invariant
            pos <= input.len(),
            at <= answers.len(),
            s == (Session { input: input@, answers: answers_view(answers@) }),
            sc == bindings_view(scope@),
            many_spec(s, sc, element@, big, start as nat, first as nat, Seq::empty()) == many_spec(
                s,
                sc,
                element@,
                big,
                pos as nat,
                at as nat,
                values_view(acc@),
            ),
        decreases input.len() - pos,
    {
        let inner = run_type(input, answers, scope, element, big, pos, at);
        match complete(inner, pos) {
            Progress::Done { at: next, out } => {
                if out.0 <= pos {
                    return Progress::Fail {
                        at: next,
                        error: DecodeError::Error(DecodeErrorKind::Many0, pos),
                    };
                }
                proof {
                    assert(values_view(acc@.push(out.1)) =~= values_view(acc@).push(out.1@));
                }
                acc.push(out.1);
                pos = out.0;
                at = next;
            },
            Progress::Fail { at: next, error: DecodeError::Error(_, _) } => {
                proof {
                    lemma_list_view(acc);
                }
                return Progress::Done { at: next, out: (pos, Value::List(acc)) };
            },
            Progress::Fail { at: next, error } => {
                return Progress::Fail { at: next, error };
            },
            Progress::Ask(q) => {
                return Progress::Ask(q);
            },
        }
    }
}

fn exactly(
    input: &[u8],
    answers: &[Answer],
    scope: &Vec<Binding>,
    element: &Type,
    big: bool,
    count: usize,
    start: usize,
    first: usize,
) -> (r: Progress<(usize, Value)>)
    requires
        start <= input.len(),
        first <= answers.len(),
    ensures
        parsed_flow(r) == exactly_spec(
            Session { input: input@, answers: answers_view(answers@) },
            bindings_view(scope@),
            element@,
            big,
            count as nat,
            start as nat,
            first as nat,
            Seq::empty(),
        ),
        within(r, answers@),
        r matches Progress::Done { out, .. } ==> out.0 <= input.len(),
    decreases element, 1nat,
{
    let ghost s = Session { input: input@, answers: answers_view(answers@) };
    let ghost sc = bindings_view(scope@);
    let mut acc: Vec<Value> = Vec::new();
    let mut pos = start;
    let mut at = first;
    let mut left = count;
    proof {
        assert(values_view(acc@) =~= Seq::empty());
    }
    while left > 0
        invariant
            pos <= input.len(),
            at <= answers.len(),
            s == (Session { input: input@, answers: answers_view(answers@) }),
            sc == bindings_view(scope@),
            exactly_spec(
                s,
                sc,
                element@,
                big,
                count as nat,
                start as nat,
                first as nat,
                Seq::empty(),
            ) == exactly_spec(
                s,
                sc,
                element@,
                big,
                left as nat,
                pos as nat,
                at as nat,
                values_view(acc@),
            ),
        decreases left,
    {
        let inner = run_type(input, answers, scope, element, big, pos, at);
        match complete(inner, pos) {
            Progress::Done { at: next, out } => {
                if out.0 == pos {
                    return Progress::Fail {
                        at: next,
                        error: DecodeError::Error(DecodeErrorKind::ManyMN, pos),
                    };
                }
                proof {
                    assert(values_view(acc@.push(out.1)) =~= values_view(acc@).push(out.1@));
                }
                acc.push(out.1);
                pos = out.0;
                at = next;
                left -= 1;
            },
            Progress::Fail { at: next, error } => {
                return Progress::Fail { at: next, error };
            },
            Progress::Ask(q) => {
                return Progress::Ask(q);
            },
        }
    }
    proof {
        lemma_list_view(acc);
    }
    Progress::Done { at, out: (pos, Value::List(acc)) }
}

/// Matches the constant `tag` at `pos`.
fn match_tag(input: &[u8], pos: usize, tag: Vec<u8>) -> (r: Result<(usize, Value), DecodeError>)
    requires
        pos <= input.len(),
    ensures
        match r {
            Ok((p, v)) => tag_spec(input@, pos as nat, tag@) == Ok::<(nat, ValueView), DecodeError>(
                (p as nat, v@),
            ) && p <= input.len(),
            Err(e) => tag_spec(input@, pos as nat, tag@) == Err::<(nat, ValueView), DecodeError>(e),
        },
{
    let ghost rest = input@.skip(pos as int);
    let left = input.len() - pos;
    let n = if tag.len() <= left {
        tag.len()
    } else {
        left
    };
    let mut i: usize = 0;
    while i < n
        invariant
            i <= n,
            n <= tag.len(),
            n <= left,
            left == input.len() - pos,
            rest == input@.skip(pos as int),
            rest.take(i as int) == tag@.take(i as int),
        decreases n - i,
    {
        if input[pos + i] != tag[i] {
            proof {
                assert(rest[i as int] != tag@[i as int]);
                if tag.len() <= left {
                    assert(rest.take(tag.len() as int)[i as int] != tag@[i as int]);
                } else {
                    assert(tag@.take(rest.len() as int)[i as int] != rest[i as int]);
                }
            }
            return Err(DecodeError::Error(DecodeErrorKind::Tag, pos));
        }
        proof {
            assert(rest.take(i as int + 1) =~= rest.take(i as int).push(rest[i as int]));
            assert(tag@.take(i as int + 1) =~= tag@.take(i as int).push(tag@[i as int]));
        }
        i += 1;
    }
    if tag.len() <= left {
        proof {
            assert(tag@.take(tag.len() as int) =~= tag@);
        }
        Ok((pos + tag.len(), Value::Bytes(tag)))
    } else {
        proof {
            assert(rest.take(rest.len() as int) =~= rest);
        }
        Err(DecodeError::Incomplete(tag.len()))
    }
}

/// Takes `count` bytes at `pos`.
fn take_bytes(input: &[u8], pos: usize, count: usize) -> (r: Result<(usize, Value), DecodeError>)
    requires
        pos <= input.len(),
    ensures
        match r {
            Ok((p, v)) => take_spec(input@, pos as nat, count as nat) == Ok::<
                (nat, ValueView),
                DecodeError,
            >((p as nat, v@)) && p <= input.len(),
            Err(e) => take_spec(input@, pos as nat, count as nat) == Err::<
                (nat, ValueView),
                DecodeError,
            >(e),
        },
{
    if input.len() - pos < count {
        return Err(DecodeError::Incomplete(count));
    }
    let mut out: Vec<u8> = Vec::new();
    let mut i: usize = 0;
    while i < count
        invariant
            i <= count,
            pos + count <= input.len(),
            out@ == input@.subrange(pos as int, pos + i),
        decreases count - i,
    {
        out.push(input[pos + i]);
        proof {
            assert(input@.subrange(pos as int, pos + i).push(input[pos + i]) =~= input@.subrange(
                pos as int,
                pos + i + 1,
            ));
        }
        i += 1;
    }
    Ok((pos + count, Value::Bytes(out)))
}

/// Runs the parser expression `e` at `pos`, after `at` answers of the
/// host were used.
pub fn run_expr(
    input: &[u8],
    answers: &[Answer],
    scope: &Vec<Binding>,
    e: &ParserExpr,
    pos: usize,
    at: usize,
) -> (r: Progress<(usize, Value)>)
    requires
        pos <= input.len(),
        at <= answers.len(),
    ensures
        parsed_flow(r) == run_expr_spec(
            Session { input: input@, answers: answers_view(answers@) },
            bindings_view(scope@),
            e@,
            pos as nat,
            at as nat,
        ),
        within(r, answers@),
        r matches Progress::Done { out, .. } ==> out.0 <= input.len(),
    decreases e, 0nat,
{
    match e {
        ParserExpr::CallParse(t) => run_type(input, answers, scope, &t.0, true, pos, at),
        ParserExpr::CallParseBE(t) => run_type(input, answers, scope, &t.0, true, pos, at),
        ParserExpr::CallParseLE(t) => run_type(input, answers, scope, &t.0, false, pos, at),
        ParserExpr::CallParseSet(t) => match lookup(scope, "__endianness") {
            Some(Value::Endian(Endianness::Big)) => run_type(
                input,
                answers,
                scope,
                &t.0,
                true,
                pos,
                at,
            ),
            Some(Value::Endian(_)) => run_type(input, answers, scope, &t.0, false, pos, at),
            _ => Progress::Fail { at, error: DecodeError::Failure(DecodeErrorKind::Host, pos) },
        },
        ParserExpr::Complete(p) => complete(run_expr(input, answers, scope, p, pos, at), pos),
        ParserExpr::Cond(p, c) => match ask_value(
            input,
            answers,
            scope,
            Query::Eval { code: c.clone() },
            pos,
            at,
        ) {
            Progress::Ask(q) => Progress::Ask(q),
            Progress::Fail { at, error } => Progress::Fail { at, error },
            Progress::Done { at, out: Value::Bool(true) } => match run_expr(
                input,
                answers,
                scope,
                p,
                pos,
                at,
            ) {
                Progress::Done { at, out } => Progress::Done {
                    at,
                    out: (out.0, Value::Present(Box::new(out.1))),
                },
                other => other,
            },
            Progress::Done { at, out: Value::Bool(false) } => Progress::Done {
                at,
                out: (pos, Value::Absent),
            },
            Progress::Done { at, .. } => Progress::Fail {
                at,
                error: DecodeError::Failure(DecodeErrorKind::Host, pos),
            },
        },
        ParserExpr::Count(p, n) => match ask_value(
            input,
            answers,
            scope,
            Query::Eval { code: n.clone() },
            pos,
            at,
        ) {
            Progress::Ask(q) => Progress::Ask(q),
            Progress::Fail { at, error } => Progress::Fail { at, error },
            Progress::Done { at, out } => match as_count(&out) {
                Some(count) => repeat(input, answers, scope, p, count, pos, at),
                None => Progress::Fail {
                    at,
                    error: DecodeError::Failure(DecodeErrorKind::Host, pos),
                },
            },
        },
        ParserExpr::DbgDmp(p, _) => run_expr(input, answers, scope, p, pos, at),
        ParserExpr::Into(p) => match run_expr(input, answers, scope, p, pos, at) {
            Progress::Done { at, out } => match ask_value(
                input,
                answers,
                scope,
                Query::Convert { arg: out.1 },
                pos,
                at,
            ) {
                Progress::Ask(q) => Progress::Ask(q),
                Progress::Fail { at, error } => Progress::Fail { at, error },
                Progress::Done { at, out: v } => Progress::Done { at, out: (out.0, v) },
            },
            other => other,
        },
        ParserExpr::LengthCount(p, n) => match ask_parsed(
            input,
            answers,
            scope,
            Query::Parse { code: n.clone() },
            pos,
            at,
        ) {
            Progress::Done { at, out } => match as_count(&out.1) {
                Some(count) => repeat(input, answers, scope, p, count, out.0, at),
                None => Progress::Fail {
                    at,
                    error: DecodeError::Failure(DecodeErrorKind::Host, pos),
                },
            },
            other => other,
        },
        ParserExpr::MapWith(p, m) => match run_expr(input, answers, scope, p, pos, at) {
            Progress::Done { at, out } => match ask_value(
                input,
                answers,
                scope,
                Query::Apply { code: m.clone(), arg: out.1 },
                pos,
                at,
            ) {
                Progress::Ask(q) => Progress::Ask(q),
                Progress::Fail { at, error } => Progress::Fail { at, error },
                Progress::Done { at, out: v } => Progress::Done { at, out: (out.0, v) },
            },
            other => other,
        },
        ParserExpr::Nop => Progress::Done { at, out: (pos, Value::Unit) },
        ParserExpr::PhantomData => Progress::Done { at, out: (pos, Value::Phantom) },
        ParserExpr::Raw(code) => ask_parsed(
            input,
            answers,
            scope,
            Query::Parse { code: code.clone() },
            pos,
            at,
        ),
        ParserExpr::Tag(code) => match ask_value(
            input,
            answers,
            scope,
            Query::Eval { code: code.clone() },
            pos,
            at,
        ) {
            Progress::Ask(q) => Progress::Ask(q),
            Progress::Fail { at, error } => Progress::Fail { at, error },
            Progress::Done { at, out: Value::Bytes(bytes) } => match match_tag(input, pos, bytes) {
                Ok(out) => Progress::Done { at, out },
                Err(error) => Progress::Fail { at, error },
            },
            Progress::Done { at, .. } => Progress::Fail {
                at,
                error: DecodeError::Failure(DecodeErrorKind::Host, pos),
            },
        },
        ParserExpr::Take(code) => match ask_value(
            input,
            answers,
            scope,
            Query::Eval { code: code.clone() },
            pos,
            at,
        ) {
            Progress::Ask(q) => Progress::Ask(q),
            Progress::Fail { at, error } => Progress::Fail { at, error },
            Progress::Done { at, out } => match as_count(&out) {
                Some(count) => match take_bytes(input, pos, count) {
                    Ok(out) => Progress::Done { at, out },
                    Err(error) => Progress::Fail { at, error },
                },
                None => Progress::Fail {
                    at,
                    error: DecodeError::Failure(DecodeErrorKind::Host, pos),
                },
            },
        },
        ParserExpr::Value(code) => match ask_value(
            input,
            answers,
            scope,
            Query::Eval { code: code.clone() },
            pos,
            at,
        ) {
            Progress::Ask(q) => Progress::Ask(q),
            Progress::Fail { at, error } => Progress::Fail { at, error },
            Progress::Done { at, out } => Progress::Done { at, out: (pos, out) },
        },
        ParserExpr::Verify(p, binder, code) => match run_expr(input, answers, scope, p, pos, at) {
            Progress::Done { at, out } => match ask_value(
                input,
                answers,
                scope,
                Query::Check { code: code.clone(), binder: binder.clone(), arg: out.1.duplicate() },
                pos,
                at,
            ) {
                Progress::Ask(q) => Progress::Ask(q),
                Progress::Fail { at, error } => Progress::Fail { at, error },
                Progress::Done { at, out: Value::Bool(true) } => Progress::Done { at, out },
                Progress::Done { at, out: Value::Bool(false) } => Progress::Fail {
                    at,
                    error: DecodeError::Error(DecodeErrorKind::Verify, pos),
                },
                Progress::Done { at, .. } => Progress::Fail {
                    at,
                    error: DecodeError::Failure(DecodeErrorKind::Host, pos),
                },
            },
            other => other,
        },
    }
}

fn repeat(
    input: &[u8],
    answers: &[Answer],
    scope: &Vec<Binding>,
    e: &ParserExpr,
    count: usize,
    start: usize,
    first: usize,
) -> (r: Progress<(usize, Value)>)
    requires
        start <= input.len(),
        first <= answers.len(),
    ensures
        parsed_flow(r) == repeat_spec(
            Session { input: input@, answers: answers_view(answers@) },
            bindings_view(scope@),
            e@,
            count as nat,
            start as nat,
            first as nat,
            Seq::empty(),
        ),
        within(r, answers@),
        r matches Progress::Done { out, .. } ==> out.0 <= input.len(),
    decreases e, 1nat,
{
    let ghost s = Session { input: input@, answers: answers_view(answers@) };
    let ghost sc = bindings_view(scope@);
    let mut acc: Vec<Value> = Vec::new();
    let mut pos = start;
    let mut at = first;
    let mut left = count;
    proof {
        assert(values_view(acc@) =~= Seq::empty());
    }
    while left > 0
        invariant
            pos <= input.len(),
            at <= answers.len(),
            s == (Session { input: input@, answers: answers_view(answers@) }),
            sc == bindings_view(scope@),
            repeat_spec(s, sc, e@, count as nat, start as nat, first as nat, Seq::empty())
                == repeat_spec(s, sc, e@, left as nat, pos as nat, at as nat, values_view(acc@)),
        decreases left,
    {
        match run_expr(input, answers, scope, e, pos, at) {
            Progress::Done { at: next, out } => {
                proof {
                    assert(values_view(acc@.push(out.1)) =~= values_view(acc@).push(out.1@));
                }
                acc.push(out.1);
                pos = out.0;
                at = next;
                left -= 1;
            },
            Progress::Fail { at: next, error } => {
                return Progress::Fail { at: next, error };
            },
            Progress::Ask(q) => {
                return Progress::Ask(q);
            },
        }
    }
    proof {
        lemma_list_view(acc);
    }
    Progress::Done { at, out: (pos, Value::List(acc)) }
}

} // verus!
