//! The decoding procedures of enums: the choice of a variant by the
//! selector, or by the discriminant read from the input.

use vstd::prelude::*;
use vstd::string::StringExecFns;
use crate::decode::error::{DecodeError, DecodeErrorKind};
use crate::decode::expr::{run_expr, run_expr_spec};
use crate::decode::host::{
    answers_view, ask_value, ask_value_spec, host_error, within, Answer, Flow, Progress, Query,
    QueryView, Session,
};
use crate::decode::record::{
    assemble, assemble_spec, finish, finish_spec, run_fields, run_fields_spec, run_steps_spec,
    FieldsStateView, Outcome, OutcomeView,
};
use crate::decode::value::{
    bindings_view, duplicate_bindings, lemma_struct_view, values_view, Binding, BindingView,
    Shape, Value, ValueView,
};
use crate::endian::{is_fixed, ParserEndianness};
use crate::enums::{VariantParserTree, VariantParserTreeView};
use crate::gen::enums::{is_default, relocate_default_spec, GenEnum, GenEnumView};
use crate::gen::fieldless_enums::{
    fieldless_view, FieldlessVariant, FieldlessVariantView, GenFieldlessEnum,
    GenFieldlessEnumView,
};
use crate::text::str_eq;

verus! {

/// The first variant of `order` that the selector matches: a default
/// variant matches any selector; for any other, the host says whether its
/// pattern matches. Where none matches, the run fails at `pos`.
pub open spec fn choose_variant_spec(
    s: Session,
    scope: Seq<BindingView>,
    order: Seq<VariantParserTreeView>,
    pos: nat,
    at: nat,
) -> Flow<VariantParserTreeView>
    decreases order.len(),
{
    if order.len() == 0 {
        Flow::Fail { at, error: DecodeError::Error(DecodeErrorKind::Switch, pos as usize) }
    } else if is_default(order[0]) {
        Flow::Done { at, out: order[0] }
    } else {
        match ask_value_spec(
            s,
            scope,
            QueryView::Matches { code: order[0].selector_type },
            pos,
            at,
        ) {
            Flow::Ask(q) => Flow::Ask(q),
            Flow::Fail { at, error } => Flow::Fail { at, error },
            Flow::Done { at, out: ValueView::Bool(true) } => Flow::Done { at, out: order[0] },
            Flow::Done { at, out: ValueView::Bool(false) } => choose_variant_spec(
                s,
                scope,
                order.skip(1),
                pos,
                at,
            ),
            Flow::Done { at, .. } => Flow::Fail { at, error: host_error(pos) },
        }
    }
}

/// The name of a variant of an enum: the name of the enum, `::`, and the
/// name of the variant.
pub open spec fn variant_name_spec(name: Seq<char>, variant: Seq<char>) -> Seq<char> {
    name + "::"@ + variant
}

/// The decoding procedure of the enum `g` for the entry point of byte
/// order `entry`, run on `s.input` with the answers `s.answers`; `args`
/// are the values of the selector and of the extra arguments.
///
/// The steps of the enum that run before are run first. The variants are
/// tested in the order of declaration, the default ones last. The fields
/// of the first variant that matches are read as those of a struct. The
/// value is bound to `enum_def`; then the steps of the enum that run after
/// are run.
pub open spec fn run_enum_spec(
    s: Session,
    g: GenEnumView,
    entry: ParserEndianness,
    args: Seq<BindingView>,
) -> OutcomeView {
    match run_steps_spec(s, args, g.tl_pre, 0, 0) {
        Flow::Ask(q) => OutcomeView::Ask(q),
        Flow::Fail { error, .. } => OutcomeView::Done(Err(error)),
        Flow::Done { at, out: start } => match choose_variant_spec(
            s,
            start.scope,
            relocate_default_spec(g.variants_defs),
            start.pos,
            at,
        ) {
            Flow::Ask(q) => OutcomeView::Ask(q),
            Flow::Fail { error, .. } => OutcomeView::Done(Err(error)),
            Flow::Done { at, out: variant } => match run_fields_spec(
                s,
                FieldsStateView { pos: start.pos, scope: start.scope, values: Seq::empty() },
                variant.struct_def.parsers,
                entry,
                at,
            ) {
                Flow::Ask(q) => OutcomeView::Ask(q),
                Flow::Fail { error, .. } => OutcomeView::Done(Err(error)),
                Flow::Done { at, out } => finish_spec(
                    s,
                    out.scope,
                    g.tl_post,
                    "enum_def"@,
                    assemble_spec(
                        variant_name_spec(g.name, variant.ident),
                        variant.struct_def,
                        out.values,
                    ),
                    out.pos,
                    at,
                ),
            },
        },
    }
}

/// The integer that a value stands for.
pub open spec fn int_of_spec(v: ValueView) -> Option<int> {
    match v {
        ValueView::UInt(n) => Some(n as int),
        ValueView::Int(n) => Some(n as int),
        _ => None,
    }
}

/// The first variant of `variants` whose discriminant is `n`.
pub open spec fn find_variant_spec(variants: Seq<FieldlessVariantView>, n: int) -> Option<
    FieldlessVariantView,
>
    decreases variants.len(),
{
    if variants.len() == 0 {
        None
    } else if variants[0].discriminant == n {
        Some(variants[0])
    } else {
        find_variant_spec(variants.skip(1), n)
    }
}

/// A variant without fields as a value.
pub open spec fn unit_value_spec(name: Seq<char>) -> ValueView {
    ValueView::Struct { name, shape: Shape::Unit, names: Seq::empty(), values: Seq::empty() }
}

/// The decoding procedure of the enum without fields `g` for the entry
/// point of byte order `entry`.
///
/// The steps of the enum that run before are run first. The discriminant
/// is read and bound to `selector`. The value is the first variant with
/// that discriminant, in the order of declaration; where there is none,
/// the run fails at the start of the input. The value is bound to
/// `enum_def`; then the steps of the enum that run after are run.
pub open spec fn run_fieldless_spec(
    s: Session,
    g: GenFieldlessEnumView,
    entry: ParserEndianness,
    args: Seq<BindingView>,
) -> OutcomeView {
    match run_steps_spec(s, args, g.tl_pre, 0, 0) {
        Flow::Ask(q) => OutcomeView::Ask(q),
        Flow::Fail { error, .. } => OutcomeView::Done(Err(error)),
        Flow::Done { at, out: start } => match run_expr_spec(
            s,
            start.scope,
            g.repr_parser.with_endianness(entry),
            start.pos,
            at,
        ) {
            Flow::Ask(q) => OutcomeView::Ask(q),
            Flow::Fail { error, .. } => OutcomeView::Done(Err(error)),
            Flow::Done { at, out: read } => match int_of_spec(read.1) {
                None => OutcomeView::Done(Err(host_error(start.pos))),
                Some(n) => match find_variant_spec(g.variants, n) {
                    None => OutcomeView::Done(
                        Err(DecodeError::Error(DecodeErrorKind::Switch, 0)),
                    ),
                    Some(variant) => finish_spec(
                        s,
                        start.scope.push(BindingView { name: "selector"@, value: read.1 }),
                        g.tl_post,
                        "enum_def"@,
                        unit_value_spec(variant_name_spec(g.name, variant.ident)),
                        read.0,
                        at,
                    ),
                },
            },
        },
    }
}

/// The model of a choice that ended at the variant of index `out`.
pub open spec fn choice_flow(p: Progress<usize>, variants: Seq<VariantParserTree>) -> Flow<
    VariantParserTreeView,
> {
    match p {
        Progress::Ask(q) => Flow::Ask(q@),
        Progress::Fail { at, error } => Flow::Fail { at: at as nat, error },
        Progress::Done { at, out } => Flow::Done { at: at as nat, out: variants[out as int]@ },
    }
}

fn variant_name(name: &String, variant: &String) -> (r: String)
    ensures
        r@ == variant_name_spec(name@, variant@),
{
    let mut out = name.clone();
    out.append("::");
    out.append(variant.as_str());
    out
}

impl GenEnum {
    /// Chooses the variant that the selector matches.
    fn choose_variant(&self, input: &[u8], answers: &[Answer], scope: &Vec<Binding>, pos: usize, first: usize)
        -> (r: Progress<usize>)
        requires
            pos <= input.len(),
            first <= answers.len(),
        ensures
            choice_flow(r, self.variants_defs@) == choose_variant_spec(
                Session { input: input@, answers: answers_view(answers@) },
                bindings_view(scope@),
                relocate_default_spec(self@.variants_defs),
                pos as nat,
                first as nat,
            ),
            within(r, answers@),
            r matches Progress::Done { out, .. } ==> out < self.variants_defs.len(),
    {
        let ghost s = Session { input: input@, answers: answers_view(answers@) };
        let ghost sc = bindings_view(scope@);
        let order = self.match_order();
        let ghost views = self.picked(order@);
        let mut at = first;
        let mut i: usize = 0;
        proof {
            assert(views.skip(0) =~= views);
        }
        while i < order.len()
            invariant
                i <= order.len(),
                pos <= input.len(),
                at <= answers.len(),
                s == (Session { input: input@, answers: answers_view(answers@) }),
                sc == bindings_view(scope@),
                views == self.picked(order@),
                views == relocate_default_spec(self@.variants_defs),
                forall|j: int| 0 <= j < order.len() ==> (#[trigger] order[j])
                    < self.variants_defs.len(),
                choose_variant_spec(s, sc, views, pos as nat, first as nat) == choose_variant_spec(
                    s,
                    sc,
                    views.skip(i as int),
                    pos as nat,
                    at as nat,
                ),
            decreases order.len() - i,
        {
            proof {
                assert(views.skip(i as int).skip(1) =~= views.skip(i as int + 1));
                assert(views.skip(i as int)[0] == self.variants_defs[order[i as int] as int]@);
            }
            let idx = order[i];
            let pattern = &self.variants_defs[idx].selector_type;
            if str_eq(pattern.as_str(), "_") {
                return Progress::Done { at, out: idx };
            }
            match ask_value(
                input,
                answers,
                scope,
                Query::Matches { code: pattern.clone() },
                pos,
                at,
            ) {
                Progress::Ask(q) => {
                    return Progress::Ask(q);
                },
                Progress::Fail { at: next, error } => {
                    return Progress::Fail { at: next, error };
                },
                Progress::Done { at: next, out: Value::Bool(true) } => {
                    return Progress::Done { at: next, out: idx };
                },
                Progress::Done { at: next, out: Value::Bool(false) } => {
                    at = next;
                },
                Progress::Done { at: next, .. } => {
                    return Progress::Fail {
                        at: next,
                        error: DecodeError::Failure(DecodeErrorKind::Host, pos),
                    };
                },
            }
            i += 1;
        }
        Progress::Fail { at, error: DecodeError::Error(DecodeErrorKind::Switch, pos) }
    }

    /// Runs the decoding procedure of the enum for the entry point of byte
    /// order `endianness` on `input`, with the answers that the host has
    /// given so far; `args` are the values of the selector, bound to
    /// `selector`, and of the extra arguments.
    pub fn decode(
        &self,
        endianness: ParserEndianness,
        input: &[u8],
        args: &Vec<Binding>,
        answers: &[Answer],
    ) -> (r: Outcome)
        requires
            is_fixed(endianness),
        ensures
            r@ == run_enum_spec(
                Session { input: input@, answers: answers_view(answers@) },
                self@,
                endianness,
                bindings_view(args@),
            ),
    {
        let mut scope = duplicate_bindings(args);
        let (at, pos) = match crate::decode::record::run_steps(
            input,
            answers,
            &mut scope,
            &self.tl_pre,
            0,
            0,
        ) {
            Progress::Done { at, out } => (at, out),
            Progress::Fail { error, .. } => {
                return Outcome::Done(Err(error));
            },
            Progress::Ask(q) => {
                return Outcome::Ask(q);
            },
        };
        let (at, idx) = match self.choose_variant(input, answers, &scope, pos, at) {
            Progress::Done { at, out } => (at, out),
            Progress::Fail { error, .. } => {
                return Outcome::Done(Err(error));
            },
            Progress::Ask(q) => {
                return Outcome::Ask(q);
            },
        };
        let variant = &self.variants_defs[idx];
        let mut values: Vec<Value> = Vec::new();
        proof {
            assert(values_view(values@) =~= Seq::empty());
        }
        let (at, pos) = match run_fields(
            input,
            answers,
            &mut scope,
            &mut values,
            &variant.struct_def.parsers,
            endianness,
            pos,
            at,
        ) {
            Progress::Done { at, out } => (at, out),
            Progress::Fail { error, .. } => {
                return Outcome::Done(Err(error));
            },
            Progress::Ask(q) => {
                return Outcome::Ask(q);
            },
        };
        let value = assemble(variant_name(&self.name, &variant.ident), &variant.struct_def, values);
        finish(input, answers, &mut scope, &self.tl_post, "enum_def", value, pos, at)
    }
}

/// Whether the value stands for the integer `d`.
fn is_int(v: &Value, d: i128) -> (r: bool)
    requires
        int_of_spec(v@).is_some(),
    ensures
        r == (int_of_spec(v@).unwrap() == d),
{
    match v {
        Value::UInt(n) => *n <= i128::MAX as u128 && *n as i128 == d,
        Value::Int(n) => *n == d,
        _ => false,
    }
}

fn find_variant<'a>(variants: &'a Vec<FieldlessVariant>, v: &Value) -> (r: Option<
    &'a FieldlessVariant,
>)
    requires
        int_of_spec(v@).is_some(),
    ensures
        match r {
            Some(var) => find_variant_spec(fieldless_view(variants@), int_of_spec(v@).unwrap())
                == Some(var@),
            None => find_variant_spec(
                fieldless_view(variants@),
                int_of_spec(v@).unwrap(),
            ).is_none(),
        },
{
    let ghost views = fieldless_view(variants@);
    let ghost n = int_of_spec(v@).unwrap();
    let mut i: usize = 0;
    proof {
        assert(views.skip(0) =~= views);
    }
    while i < variants.len()
        invariant
            i <= variants.len(),
            views == fieldless_view(variants@),
            int_of_spec(v@) == Some(n),
            find_variant_spec(views, n) == find_variant_spec(views.skip(i as int), n),
        decreases variants.len() - i,
    {
        proof {
            assert(views.skip(i as int).skip(1) =~= views.skip(i as int + 1));
            assert(views.skip(i as int)[0] == variants[i as int]@);
        }
        if is_int(v, variants[i].discriminant) {
            return Some(&variants[i]);
        }
        i += 1;
    }
    None
}

impl GenFieldlessEnum {
    /// Runs the decoding procedure of the enum for the entry point of byte
    /// order `endianness` on `input`, with the answers that the host has
    /// given so far.
    pub fn decode(
        &self,
        endianness: ParserEndianness,
        input: &[u8],
        args: &Vec<Binding>,
        answers: &[Answer],
    ) -> (r: Outcome)
        requires
            is_fixed(endianness),
        ensures
            r@ == run_fieldless_spec(
                Session { input: input@, answers: answers_view(answers@) },
                self@,
                endianness,
                bindings_view(args@),
            ),
    {
        let mut scope = duplicate_bindings(args);
        let (at, start) = match crate::decode::record::run_steps(
            input,
            answers,
            &mut scope,
            &self.tl_pre,
            0,
            0,
        ) {
            Progress::Done { at, out } => (at, out),
            Progress::Fail { error, .. } => {
                return Outcome::Done(Err(error));
            },
            Progress::Ask(q) => {
                return Outcome::Ask(q);
            },
        };
        let parser = self.repr_parser.with_endianness(endianness);
        let (at, pos, selector) = match run_expr(input, answers, &scope, &parser, start, at) {
            Progress::Done { at, out } => (at, out.0, out.1),
            Progress::Fail { error, .. } => {
                return Outcome::Done(Err(error));
            },
            Progress::Ask(q) => {
                return Outcome::Ask(q);
            },
        };
        match &selector {
            Value::UInt(_) | Value::Int(_) => {},
            _ => {
                return Outcome::Done(Err(DecodeError::Failure(DecodeErrorKind::Host, start)));
            },
        }
        let variant = match find_variant(&self.variants, &selector) {
            Some(v) => v,
            None => {
                return Outcome::Done(Err(DecodeError::Error(DecodeErrorKind::Switch, 0)));
            },
        };
        let name = variant_name(&self.name, &variant.ident);
        let names: Vec<String> = Vec::new();
        let none: Vec<Value> = Vec::new();
        proof {
            lemma_struct_view(name, Shape::Unit, names, none);
            assert(names@.map_values(|s: String| s@) =~= Seq::empty());
            assert(values_view(none@) =~= Seq::empty());
        }
        let value = Value::Struct { name, shape: Shape::Unit, names, values: none };
        let b = Binding::new("selector", selector);
        proof {
            assert(bindings_view(scope@.push(b)) =~= bindings_view(scope@).push(b@));
        }
        scope.push(b);
        finish(input, answers, &mut scope, &self.tl_post, "enum_def", value, pos, at)
    }
}

} // verus!
