//! The decoding procedure of a struct: its fields in order, with the steps
//! around them.

use vstd::prelude::*;
use crate::decode::error::{DecodeError, DecodeErrorKind};
use crate::decode::expr::{endianness_name, run_expr, run_expr_spec};
use crate::decode::host::{
    answers_view, as_count, as_count_spec, as_offset, as_offset_spec, ask_bound, ask_bound_spec,
    ask_value, ask_value_spec, host_error, within, Answer, Flow, Progress, Query, QueryView,
    Request, RequestView, Session,
};
use crate::decode::value::{
    bindings_view, lemma_struct_view, values_view, Binding, BindingView, Shape, Value, ValueView,
};
use crate::endian::{is_fixed, object_endianness_spec, ParserEndianness};
use crate::gen::generator::GenericsView;
use crate::meta::Attribute;
use crate::parsertree::lemma_with_endianness_resolves;
use crate::gen::structs::{from_datastruct_spec, GenStruct, GenStructView};
use crate::structs::{
    all_resolved, lemma_field_plans_are_resolved, parsers_view, steps_view, DataStruct, Step,
    StepView, StructParser, StructParserTree, StructParserTreeView, StructParserView,
};

verus! {

/// Where a run is between two steps: the offset in the input, and the
/// values bound so far.
pub struct StateView {
    pub pos: nat,
    pub scope: Seq<BindingView>,
}

/// What moving on by `count` bytes from `pos` gives: the offset after
/// them, or a lack of input that asks for `count` bytes, however many of
/// them are there.
pub open spec fn advance_spec(input: Seq<u8>, pos: nat, count: nat) -> Result<nat, DecodeError> {
    if pos + count <= input.len() {
        Ok(pos + count)
    } else {
        Err(DecodeError::Incomplete(count as usize))
    }
}

/// The number of bytes from `pos` to the next multiple of `align`, which
/// is not zero.
pub open spec fn padding_spec(pos: nat, align: nat) -> nat
    recommends
        align > 0,
{
    ((align - pos % align) % (align as int)) as nat
}

/// What a move by `count` bytes from `pos` gives, back where `back`
/// holds: a move before the start of the input fails as a condition that
/// does not hold, one beyond its end is a lack of input.
pub open spec fn move_spec(input: Seq<u8>, pos: nat, back: bool, count: nat) -> Result<
    nat,
    DecodeError,
> {
    if back {
        if count > pos {
            Err(DecodeError::Error(DecodeErrorKind::Verify, pos as usize))
        } else {
            Ok((pos - count) as nat)
        }
    } else {
        advance_spec(input, pos, count)
    }
}

/// A flow that ends at `pos` with the scope `scope`, or with the error.
pub open spec fn moved(at: nat, r: Result<nat, DecodeError>, scope: Seq<BindingView>) -> Flow<
    StateView,
> {
    match r {
        Ok(pos) => Flow::Done { at, out: StateView { pos, scope } },
        Err(error) => Flow::Fail { at, error },
    }
}

/// What the step `step` does at `pos`.
///
/// An alignment of zero is an error of the run. The statement written for
/// the same step divides by the alignment, so the host does not return on
/// zero where the run reports the error.
pub open spec fn run_step_spec(
    s: Session,
    scope: Seq<BindingView>,
    step: StepView,
    pos: nat,
    at: nat,
) -> Flow<StateView> {
    match step {
        StepView::Exec(code) => match ask_bound_spec(
            s,
            scope,
            QueryView::Exec { code },
            pos,
            at,
        ) {
            Flow::Ask(q) => Flow::Ask(q),
            Flow::Fail { at, error } => Flow::Fail { at, error },
            Flow::Done { at, out } => Flow::Done {
                at,
                out: StateView { pos: out.0, scope: scope + out.1 },
            },
        },
        StepView::Exact => if pos == s.input.len() {
            Flow::Done { at, out: StateView { pos, scope } }
        } else {
            Flow::Fail { at, error: DecodeError::Error(DecodeErrorKind::Verify, pos as usize) }
        },
        StepView::Align(code) | StepView::Skip(code) | StepView::Move(code) | StepView::MoveAbs(
            code,
        ) | StepView::ErrorIf(code) | StepView::SetEndian(code) => match ask_value_spec(
            s,
            scope,
            QueryView::Eval { code },
            pos,
            at,
        ) {
            Flow::Ask(q) => Flow::Ask(q),
            Flow::Fail { at, error } => Flow::Fail { at, error },
            Flow::Done { at, out } => match step {
                StepView::Align(_) => match as_count_spec(out) {
                    Some(align) => if align == 0 {
                        Flow::Fail {
                            at,
                            error: DecodeError::Error(DecodeErrorKind::Alignment, pos as usize),
                        }
                    } else {
                        moved(
                            at,
                            advance_spec(s.input, pos, padding_spec(pos, align as nat)),
                            scope,
                        )
                    },
                    None => Flow::Fail { at, error: host_error(pos) },
                },
                StepView::Skip(_) => match as_count_spec(out) {
                    Some(count) => moved(at, advance_spec(s.input, pos, count as nat), scope),
                    None => Flow::Fail { at, error: host_error(pos) },
                },
                StepView::Move(_) => match as_offset_spec(out) {
                    Some((back, count)) => moved(
                        at,
                        move_spec(s.input, pos, back, count as nat),
                        scope,
                    ),
                    None => Flow::Fail { at, error: host_error(pos) },
                },
                StepView::MoveAbs(_) => match as_count_spec(out) {
                    Some(offset) => moved(at, advance_spec(s.input, 0, offset as nat), scope),
                    None => Flow::Fail { at, error: host_error(pos) },
                },
                StepView::ErrorIf(_) => match out {
                    ValueView::Bool(true) => Flow::Fail {
                        at,
                        error: DecodeError::Error(DecodeErrorKind::Verify, pos as usize),
                    },
                    ValueView::Bool(false) => Flow::Done { at, out: StateView { pos, scope } },
                    _ => Flow::Fail { at, error: host_error(pos) },
                },
                _ => match out {
                    ValueView::Endian(_) => Flow::Done {
                        at,
                        out: StateView {
                            pos,
                            scope: scope.push(BindingView { name: endianness_name(), value: out }),
                        },
                    },
                    _ => Flow::Fail { at, error: host_error(pos) },
                },
            },
        },
    }
}

/// What the steps `steps` do in order, from `pos` on.
pub open spec fn run_steps_spec(
    s: Session,
    scope: Seq<BindingView>,
    steps: Seq<StepView>,
    pos: nat,
    at: nat,
) -> Flow<StateView>
    decreases steps.len(),
{
    if steps.len() == 0 {
        Flow::Done { at, out: StateView { pos, scope } }
    } else {
        match run_step_spec(s, scope, steps[0], pos, at) {
            Flow::Done { at, out } => run_steps_spec(s, out.scope, steps.skip(1), out.pos, at),
            other => other,
        }
    }
}

/// Where a run is between two fields: the offset in the input, the values
/// bound so far, and the values of the fields read so far.
pub struct FieldsStateView {
    pub pos: nat,
    pub scope: Seq<BindingView>,
    pub values: Seq<ValueView>,
}

/// What reading the field planned by `sp` does: the steps before it, the
/// parser of the field for the entry point of byte order `entry`, the
/// value bound to the name of the field, the steps after it.
pub open spec fn run_field_spec(
    s: Session,
    state: FieldsStateView,
    sp: StructParserView,
    entry: ParserEndianness,
    at: nat,
) -> Flow<FieldsStateView> {
    match run_steps_spec(s, state.scope, sp.pre_exec, state.pos, at) {
        Flow::Ask(q) => Flow::Ask(q),
        Flow::Fail { at, error } => Flow::Fail { at, error },
        Flow::Done { at, out: before } => match run_expr_spec(
            s,
            before.scope,
            sp.item.expr.with_endianness(entry),
            before.pos,
            at,
        ) {
            Flow::Ask(q) => Flow::Ask(q),
            Flow::Fail { at, error } => Flow::Fail { at, error },
            Flow::Done { at, out: read } => match run_steps_spec(
                s,
                before.scope.push(BindingView { name: sp.name, value: read.1 }),
                sp.post_exec,
                read.0,
                at,
            ) {
                Flow::Ask(q) => Flow::Ask(q),
                Flow::Fail { at, error } => Flow::Fail { at, error },
                Flow::Done { at, out: after } => Flow::Done {
                    at,
                    out: FieldsStateView {
                        pos: after.pos,
                        scope: after.scope,
                        values: state.values.push(read.1),
                    },
                },
            },
        },
    }
}

/// What reading the fields planned by `parsers` does, in order.
pub open spec fn run_fields_spec(
    s: Session,
    state: FieldsStateView,
    parsers: Seq<StructParserView>,
    entry: ParserEndianness,
    at: nat,
) -> Flow<FieldsStateView>
    decreases parsers.len(),
{
    if parsers.len() == 0 {
        Flow::Done { at, out: state }
    } else {
        match run_field_spec(s, state, parsers[0], entry, at) {
            Flow::Done { at, out } => run_fields_spec(s, out, parsers.skip(1), entry, at),
            other => other,
        }
    }
}

/// How the value of a struct or a variant with this plan is written.
pub open spec fn shape_spec(tree: StructParserTreeView) -> Shape {
    if tree.empty {
        Shape::Unit
    } else if tree.unnamed {
        Shape::Tuple
    } else {
        Shape::Named
    }
}

/// The value named `name` that is built from the values `values` of the
/// fields planned by `tree`. A struct without fields holds none.
pub open spec fn assemble_spec(name: Seq<char>, tree: StructParserTreeView, values: Seq<ValueView>)
    -> ValueView {
    if tree.empty {
        ValueView::Struct {
            name,
            shape: Shape::Unit,
            names: Seq::empty(),
            values: Seq::empty(),
        }
    } else {
        ValueView::Struct {
            name,
            shape: shape_spec(tree),
            names: tree.parsers.map_values(|p: StructParserView| p.name),
            values,
        }
    }
}

/// How a whole run ends, in the model: at a question for which no answer
/// is left, or with the result of the decoding procedure, which is the
/// offset where the rest of the input begins and the value, or an error.
pub enum OutcomeView {
    Ask(RequestView),
    Done(Result<(nat, ValueView), DecodeError>),
}

/// How a whole run ends.
#[derive(Debug, PartialEq, Eq)]
pub enum Outcome {
    /// The host must answer this question before the run can go on.
    Ask(Request),
    /// The result of the decoding procedure: the offset where the rest of
    /// the input begins and the value, or an error.
    Done(Result<(usize, Value), DecodeError>),
}

impl View for Outcome {
    type V = OutcomeView;

    open spec fn view(&self) -> OutcomeView {
        match self {
            Outcome::Ask(q) => OutcomeView::Ask(q@),
            Outcome::Done(Ok((pos, v))) => OutcomeView::Done(Ok((*pos as nat, v@))),
            Outcome::Done(Err(e)) => OutcomeView::Done(Err(*e)),
        }
    }
}

/// The steps after the value `value` is built and bound to `bound_as`,
/// and the end of the run.
pub open spec fn finish_spec(
    s: Session,
    scope: Seq<BindingView>,
    post: Seq<StepView>,
    bound_as: Seq<char>,
    value: ValueView,
    pos: nat,
    at: nat,
) -> OutcomeView {
    match run_steps_spec(s, scope.push(BindingView { name: bound_as, value }), post, pos, at) {
        Flow::Ask(q) => OutcomeView::Ask(q),
        Flow::Fail { error, .. } => OutcomeView::Done(Err(error)),
        Flow::Done { out, .. } => OutcomeView::Done(Ok((out.pos, value))),
    }
}

/// The decoding procedure of the struct `g` for the entry point of byte
/// order `entry`, run on `s.input` with the answers `s.answers`; `args`
/// are the values of its extra arguments.
///
/// The steps of the struct that run before are run first, then the fields
/// in the order of declaration, each with its own steps. The value is
/// built from the values of the fields and bound to `struct_def`; then the
/// steps of the struct that run after are run.
pub open spec fn run_struct_spec(
    s: Session,
    g: GenStructView,
    entry: ParserEndianness,
    args: Seq<BindingView>,
) -> OutcomeView {
    match run_steps_spec(s, args, g.tl_pre, 0, 0) {
        Flow::Ask(q) => OutcomeView::Ask(q),
        Flow::Fail { error, .. } => OutcomeView::Done(Err(error)),
        Flow::Done { at, out: start } => match run_fields_spec(
            s,
            FieldsStateView { pos: start.pos, scope: start.scope, values: Seq::empty() },
            g.parser_tree.parsers,
            entry,
            at,
        ) {
            Flow::Ask(q) => OutcomeView::Ask(q),
            Flow::Fail { error, .. } => OutcomeView::Done(Err(error)),
            Flow::Done { at, out } => finish_spec(
                s,
                out.scope,
                g.tl_post,
                "struct_def"@,
                assemble_spec(g.name, g.parser_tree, out.values),
                out.pos,
                at,
            ),
        },
    }
}


/// The model of a step that ended at the offset `out` with the scope
/// `scope`.
pub open spec fn state_flow(p: Progress<usize>, scope: Seq<Binding>) -> Flow<StateView> {
    match p {
        Progress::Ask(q) => Flow::Ask(q@),
        Progress::Fail { at, error } => Flow::Fail { at: at as nat, error },
        Progress::Done { at, out } => Flow::Done {
            at: at as nat,
            out: StateView { pos: out as nat, scope: bindings_view(scope) },
        },
    }
}

/// The model of a field that ended at the offset `out` with the scope
/// `scope` and the values `values`.
pub open spec fn fields_flow(p: Progress<usize>, scope: Seq<Binding>, values: Seq<Value>) -> Flow<
    FieldsStateView,
> {
    match p {
        Progress::Ask(q) => Flow::Ask(q@),
        Progress::Fail { at, error } => Flow::Fail { at: at as nat, error },
        Progress::Done { at, out } => Flow::Done {
            at: at as nat,
            out: FieldsStateView {
                pos: out as nat,
                scope: bindings_view(scope),
                values: values_view(values),
            },
        },
    }
}

fn advance(input: &[u8], pos: usize, count: usize) -> (r: Result<usize, DecodeError>)
    requires
        pos <= input.len(),
    ensures
        moved_to(r) == advance_spec(input@, pos as nat, count as nat),
        r matches Ok(p) ==> p <= input.len(),
{
    if input.len() - pos >= count {
        Ok(pos + count)
    } else {
        Err(DecodeError::Incomplete(count))
    }
}

/// The model of a move that ended at the offset `p`.
pub open spec fn moved_to(r: Result<usize, DecodeError>) -> Result<nat, DecodeError> {
    match r {
        Ok(p) => Ok(p as nat),
        Err(e) => Err(e),
    }
}

fn settle(at: usize, r: Result<usize, DecodeError>) -> (p: Progress<usize>)
    ensures
        forall|scope: Seq<Binding>|
            #[trigger] state_flow(p, scope) == moved(at as nat, moved_to(r), bindings_view(scope)),
        p matches Progress::Done { out, .. } ==> r == Ok::<usize, DecodeError>(out),
        forall|answers: Seq<Answer>| at <= answers.len() ==> within(p, answers),
{
    match r {
        Ok(pos) => Progress::Done { at, out: pos },
        Err(error) => Progress::Fail { at, error },
    }
}

fn host_failure(at: usize, pos: usize) -> (p: Progress<usize>)
    ensures
        p == (Progress::Fail::<usize> {
            at,
            error: DecodeError::Failure(DecodeErrorKind::Host, pos),
        }),
{
    Progress::Fail { at, error: DecodeError::Failure(DecodeErrorKind::Host, pos) }
}

/// Runs the step `step` at `pos`.
fn run_step(
    input: &[u8],
    answers: &[Answer],
    scope: &mut Vec<Binding>,
    step: &Step,
    pos: usize,
    at: usize,
) -> (r: Progress<usize>)
    requires
        pos <= input.len(),
        at <= answers.len(),
    ensures
        state_flow(r, final(scope)@) == run_step_spec(
            Session { input: input@, answers: answers_view(answers@) },
            bindings_view(old(scope)@),
            step@,
            pos as nat,
            at as nat,
        ),
        within(r, answers@),
        r matches Progress::Done { out, .. } ==> out <= input.len(),
{
    let code: &String = match step {
        Step::Exec(code) => {
            return match ask_bound(
                input,
                answers,
                scope,
                Query::Exec { code: code.clone() },
                pos,
                at,
            ) {
                Progress::Ask(q) => Progress::Ask(q),
                Progress::Fail { at, error } => Progress::Fail { at, error },
                Progress::Done { at, out } => {
                    let moved = out.0;
                    let mut bound = out.1;
                    proof {
                        assert(bindings_view(scope@ + bound@) =~= bindings_view(scope@)
                            + bindings_view(bound@));
                    }
                    scope.append(&mut bound);
                    Progress::Done { at, out: moved }
                },
            };
        },
        Step::Exact => {
            return if pos == input.len() {
                Progress::Done { at, out: pos }
            } else {
                Progress::Fail { at, error: DecodeError::Error(DecodeErrorKind::Verify, pos) }
            };
        },
        Step::Align(code) => code,
        Step::Skip(code) => code,
        Step::Move(code) => code,
        Step::MoveAbs(code) => code,
        Step::ErrorIf(code) => code,
        Step::SetEndian(code) => code,
    };
    match ask_value(input, answers, scope, Query::Eval { code: code.clone() }, pos, at) {
        Progress::Ask(q) => Progress::Ask(q),
        Progress::Fail { at, error } => Progress::Fail { at, error },
        Progress::Done { at, out } => match step {
            Step::Align(_) => match as_count(&out) {
                Some(align) => {
                    if align == 0 {
                        Progress::Fail {
                            at,
                            error: DecodeError::Error(DecodeErrorKind::Alignment, pos),
                        }
                    } else {
                        let padding = (align - pos % align) % align;
                        settle(at, advance(input, pos, padding))
                    }
                },
                None => host_failure(at, pos),
            },
            Step::Skip(_) => match as_count(&out) {
                Some(count) => settle(at, advance(input, pos, count)),
                None => host_failure(at, pos),
            },
            Step::Move(_) => match as_offset(&out) {
                Some((back, count)) => {
                    if back {
                        if count > pos {
                            Progress::Fail {
                                at,
                                error: DecodeError::Error(DecodeErrorKind::Verify, pos),
                            }
                        } else {
                            Progress::Done { at, out: pos - count }
                        }
                    } else {
                        settle(at, advance(input, pos, count))
                    }
                },
                None => host_failure(at, pos),
            },
            Step::MoveAbs(_) => match as_count(&out) {
                Some(offset) => settle(at, advance(input, 0, offset)),
                None => host_failure(at, pos),
            },
            Step::ErrorIf(_) => match out {
                Value::Bool(true) => Progress::Fail {
                    at,
                    error: DecodeError::Error(DecodeErrorKind::Verify, pos),
                },
                Value::Bool(false) => Progress::Done { at, out: pos },
                _ => host_failure(at, pos),
            },
            _ => match out {
                Value::Endian(e) => {
                    let b = Binding::new("__endianness", Value::Endian(e));
                    proof {
                        assert(bindings_view(scope@.push(b)) =~= bindings_view(scope@).push(b@));
                    }
                    scope.push(b);
                    Progress::Done { at, out: pos }
                },
                _ => host_failure(at, pos),
            },
        },
    }
}

/// Runs the steps `steps` in order, from `start` on.
pub fn run_steps(
    input: &[u8],
    answers: &[Answer],
    scope: &mut Vec<Binding>,
    steps: &Vec<Step>,
    start: usize,
    first: usize,
) -> (r: Progress<usize>)
    requires
        start <= input.len(),
        first <= answers.len(),
    ensures
        state_flow(r, final(scope)@) == run_steps_spec(
            Session { input: input@, answers: answers_view(answers@) },
            bindings_view(old(scope)@),
            steps_view(steps@),
            start as nat,
            first as nat,
        ),
        within(r, answers@),
        r matches Progress::Done { out, .. } ==> out <= input.len(),
{
    let ghost s = Session { input: input@, answers: answers_view(answers@) };
    let ghost before = bindings_view(scope@);
    let ghost views = steps_view(steps@);
    let mut pos = start;
    let mut at = first;
    let mut i: usize = 0;
    proof {
        assert(views.skip(0) =~= views);
    }
    while i < steps.len()
        invariant
            i <= steps.len(),
            pos <= input.len(),
            at <= answers.len(),
            s == (Session { input: input@, answers: answers_view(answers@) }),
            views == steps_view(steps@),
            before == bindings_view(old(scope)@),
            run_steps_spec(s, before, views, start as nat, first as nat) == run_steps_spec(
                s,
                bindings_view(scope@),
                views.skip(i as int),
                pos as nat,
                at as nat,
            ),
        decreases steps.len() - i,
    {
        proof {
            assert(views.skip(i as int).skip(1) =~= views.skip(i as int + 1));
            assert(views.skip(i as int)[0] == steps[i as int]@);
        }
        match run_step(input, answers, scope, &steps[i], pos, at) {
            Progress::Done { at: next, out } => {
                pos = out;
                at = next;
            },
            Progress::Fail { at: next, error } => {
                return Progress::Fail { at: next, error };
            },
            Progress::Ask(q) => {
                return Progress::Ask(q);
            },
        }
        i += 1;
    }
    Progress::Done { at, out: pos }
}

/// Reads the field planned by `sp`.
fn run_field(
    input: &[u8],
    answers: &[Answer],
    scope: &mut Vec<Binding>,
    values: &mut Vec<Value>,
    sp: &StructParser,
    entry: ParserEndianness,
    pos: usize,
    at: usize,
) -> (r: Progress<usize>)
    requires
        is_fixed(entry),
        pos <= input.len(),
        at <= answers.len(),
    ensures
        fields_flow(r, final(scope)@, final(values)@) == run_field_spec(
            Session { input: input@, answers: answers_view(answers@) },
            FieldsStateView {
                pos: pos as nat,
                scope: bindings_view(old(scope)@),
                values: values_view(old(values)@),
            },
            sp@,
            entry,
            at as nat,
        ),
        within(r, answers@),
        r matches Progress::Done { out, .. } ==> out <= input.len(),
{
    let (at, pos) = match run_steps(input, answers, scope, &sp.pre_exec, pos, at) {
        Progress::Done { at, out } => (at, out),
        Progress::Fail { at, error } => {
            return Progress::Fail { at, error };
        },
        Progress::Ask(q) => {
            return Progress::Ask(q);
        },
    };
    let expr = sp.item.expr.with_endianness(entry);
    let (at, pos, value) = match run_expr(input, answers, scope, &expr, pos, at) {
        Progress::Done { at, out } => (at, out.0, out.1),
        Progress::Fail { at, error } => {
            return Progress::Fail { at, error };
        },
        Progress::Ask(q) => {
            return Progress::Ask(q);
        },
    };
    let b = Binding { name: sp.name.clone(), value: value.duplicate() };
    proof {
        assert(bindings_view(scope@.push(b)) =~= bindings_view(scope@).push(b@));
        assert(values_view(values@.push(value)) =~= values_view(values@).push(value@));
    }
    scope.push(b);
    values.push(value);
    run_steps(input, answers, scope, &sp.post_exec, pos, at)
}

/// Reads the fields planned by `parsers`, in order.
pub fn run_fields(
    input: &[u8],
    answers: &[Answer],
    scope: &mut Vec<Binding>,
    values: &mut Vec<Value>,
    parsers: &Vec<StructParser>,
    entry: ParserEndianness,
    start: usize,
    first: usize,
) -> (r: Progress<usize>)
    requires
        is_fixed(entry),
        start <= input.len(),
        first <= answers.len(),
    ensures
        fields_flow(r, final(scope)@, final(values)@) == run_fields_spec(
            Session { input: input@, answers: answers_view(answers@) },
            FieldsStateView {
                pos: start as nat,
                scope: bindings_view(old(scope)@),
                values: values_view(old(values)@),
            },
            parsers_view(parsers@),
            entry,
            first as nat,
        ),
        within(r, answers@),
        r matches Progress::Done { out, .. } ==> out <= input.len(),
{
    let ghost s = Session { input: input@, answers: answers_view(answers@) };
    let ghost before = FieldsStateView {
        pos: start as nat,
        scope: bindings_view(scope@),
        values: values_view(values@),
    };
    let ghost views = parsers_view(parsers@);
    let mut pos = start;
    let mut at = first;
    let mut i: usize = 0;
    proof {
        assert(views.skip(0) =~= views);
    }
    while i < parsers.len()
        invariant
            is_fixed(entry),
            i <= parsers.len(),
            pos <= input.len(),
            at <= answers.len(),
            s == (Session { input: input@, answers: answers_view(answers@) }),
            views == parsers_view(parsers@),
            before == (FieldsStateView {
                pos: start as nat,
                scope: bindings_view(old(scope)@),
                values: values_view(old(values)@),
            }),
            run_fields_spec(s, before, views, entry, first as nat) == run_fields_spec(
                s,
                FieldsStateView {
                    pos: pos as nat,
                    scope: bindings_view(scope@),
                    values: values_view(values@),
                },
                views.skip(i as int),
                entry,
                at as nat,
            ),
        decreases parsers.len() - i,
    {
        proof {
            assert(views.skip(i as int).skip(1) =~= views.skip(i as int + 1));
            assert(views.skip(i as int)[0] == parsers[i as int]@);
        }
        match run_field(input, answers, scope, values, &parsers[i], entry, pos, at) {
            Progress::Done { at: next, out } => {
                pos = out;
                at = next;
            },
            Progress::Fail { at: next, error } => {
                return Progress::Fail { at: next, error };
            },
            Progress::Ask(q) => {
                return Progress::Ask(q);
            },
        }
        i += 1;
    }
    Progress::Done { at, out: pos }
}

/// Builds the value named `name` from the values of the fields planned by
/// `tree`.
pub fn assemble(name: String, tree: &StructParserTree, values: Vec<Value>) -> (r: Value)
    ensures
        r@ == assemble_spec(name@, tree@, values_view(values@)),
{
    if tree.empty {
        let names: Vec<String> = Vec::new();
        let none: Vec<Value> = Vec::new();
        proof {
            lemma_struct_view(name, Shape::Unit, names, none);
            assert(names@.map_values(|s: String| s@) =~= Seq::empty());
            assert(values_view(none@) =~= Seq::empty());
        }
        return Value::Struct { name, shape: Shape::Unit, names, values: none };
    }
    let shape = if tree.unnamed {
        Shape::Tuple
    } else {
        Shape::Named
    };
    let mut names: Vec<String> = Vec::new();
    let mut i: usize = 0;
    while i < tree.parsers.len()
        invariant
            i <= tree.parsers.len(),
            names.len() == i,
            forall|j: int| 0 <= j < i ==> names[j]@ == tree.parsers[j].name@,
        decreases tree.parsers.len() - i,
    {
        names.push(tree.parsers[i].name.clone());
        i += 1;
    }
    proof {
        lemma_struct_view(name, shape, names, values);
        assert(names@.map_values(|s: String| s@) =~= tree@.parsers.map_values(
            |p: StructParserView| p.name,
        ));
    }
    Value::Struct { name, shape, names, values }
}

/// Runs the steps after the value is built, and ends the run.
pub fn finish(
    input: &[u8],
    answers: &[Answer],
    scope: &mut Vec<Binding>,
    post: &Vec<Step>,
    bound_as: &str,
    value: Value,
    pos: usize,
    at: usize,
) -> (r: Outcome)
    requires
        pos <= input.len(),
        at <= answers.len(),
    ensures
        r@ == finish_spec(
            Session { input: input@, answers: answers_view(answers@) },
            bindings_view(old(scope)@),
            steps_view(post@),
            bound_as@,
            value@,
            pos as nat,
            at as nat,
        ),
{
    let b = Binding::new(bound_as, value.duplicate());
    proof {
        assert(bindings_view(scope@.push(b)) =~= bindings_view(scope@).push(b@));
    }
    scope.push(b);
    match run_steps(input, answers, scope, post, pos, at) {
        Progress::Ask(q) => Outcome::Ask(q),
        Progress::Fail { error, .. } => Outcome::Done(Err(error)),
        Progress::Done { out, .. } => Outcome::Done(Ok((out, value))),
    }
}

impl GenStruct {
    /// Runs the decoding procedure of the struct for the entry point of
    /// byte order `endianness` on `input`, with the answers that the host
    /// has given so far; `args` are the values of the extra arguments.
    pub fn decode(
        &self,
        endianness: ParserEndianness,
        input: &[u8],
        args: &Vec<Binding>,
        answers: &[Answer],
    ) -> (r: Outcome)
        requires
            is_fixed(endianness),
        ensures
            r@ == run_struct_spec(
                Session { input: input@, answers: answers_view(answers@) },
                self@,
                endianness,
                bindings_view(args@),
            ),
    {
        let mut scope = crate::decode::value::duplicate_bindings(args);
        let (at, pos) = match run_steps(input, answers, &mut scope, &self.tl_pre, 0, 0) {
            Progress::Done { at, out } => (at, out),
            Progress::Fail { error, .. } => {
                return Outcome::Done(Err(error));
            },
            Progress::Ask(q) => {
                return Outcome::Ask(q);
            },
        };
        let mut values: Vec<Value> = Vec::new();
        proof {
            assert(values_view(values@) =~= Seq::empty());
        }
        let (at, pos) = match run_fields(
            input,
            answers,
            &mut scope,
            &mut values,
            &self.parser_tree.parsers,
            endianness,
            pos,
            at,
        ) {
            Progress::Done { at, out } => (at, out),
            Progress::Fail { error, .. } => {
                return Outcome::Done(Err(error));
            },
            Progress::Ask(q) => {
                return Outcome::Ask(q);
            },
        };
        let value = assemble(self.name.clone(), &self.parser_tree, values);
        finish(input, answers, &mut scope, &self.tl_post, "struct_def", value, pos, at)
    }
}


/// Fields whose plans leave no read to the entry point are read alike by
/// both entry points.
pub proof fn lemma_resolved_fields_ignore_the_entry(
    s: Session,
    state: FieldsStateView,
    parsers: Seq<StructParserView>,
    at: nat,
)
    requires
        all_resolved(parsers),
    ensures
        run_fields_spec(s, state, parsers, ParserEndianness::BigEndian, at) == run_fields_spec(
            s,
            state,
            parsers,
            ParserEndianness::LittleEndian,
            at,
        ),
    decreases parsers.len(),
{
    if parsers.len() > 0 {
        let e = parsers[0].item.expr;
        lemma_with_endianness_resolves(e, ParserEndianness::BigEndian);
        lemma_with_endianness_resolves(e, ParserEndianness::LittleEndian);
        assert forall|i: int| 0 <= i < parsers.skip(1).len() implies (#[trigger] parsers.skip(
            1,
        )[i]).item.expr.is_resolved() by {
            assert(parsers.skip(1)[i] == parsers[i + 1]);
        }
        match run_field_spec(s, state, parsers[0], ParserEndianness::BigEndian, at) {
            Flow::Done { at, out } => {
                lemma_resolved_fields_ignore_the_entry(s, out, parsers.skip(1), at);
            },
            _ => {},
        }
    }
}

/// A struct with a byte order of its own is decoded alike by both entry
/// points: the function for one byte order may call the one for the
/// other.
pub proof fn lemma_fixed_struct_ignores_the_entry(
    name: Seq<char>,
    datastruct: DataStruct,
    attrs: Seq<Attribute>,
    generics: GenericsView,
    endianness: ParserEndianness,
    s: Session,
    args: Seq<BindingView>,
)
    requires
        from_datastruct_spec(name, datastruct, attrs, generics, endianness) is Ok,
        object_endianness_spec(
            from_datastruct_spec(name, datastruct, attrs, generics, endianness)->Ok_0.config,
        ) != ParserEndianness::Unspecified,
    ensures
        run_struct_spec(
            s,
            from_datastruct_spec(name, datastruct, attrs, generics, endianness)->Ok_0,
            ParserEndianness::BigEndian,
            args,
        ) == run_struct_spec(
            s,
            from_datastruct_spec(name, datastruct, attrs, generics, endianness)->Ok_0,
            ParserEndianness::LittleEndian,
            args,
        ),
{
    let g = from_datastruct_spec(name, datastruct, attrs, generics, endianness)->Ok_0;
    lemma_field_plans_are_resolved(datastruct.fields.list(), 0, g.config, Seq::empty());
    match run_steps_spec(s, args, g.tl_pre, 0, 0) {
        Flow::Done { at, out: start } => {
            lemma_resolved_fields_ignore_the_entry(
                s,
                FieldsStateView { pos: start.pos, scope: start.scope, values: Seq::empty() },
                g.parser_tree.parsers,
                at,
            );
        },
        _ => {},
    }
}

} // verus!
