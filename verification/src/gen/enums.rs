//! The generator for enums whose variant is chosen by a selector.

use vstd::prelude::*;
use crate::gen::generator::extra_view;
use crate::meta::syntax::{ExtraArg, ExtraArgView};
use crate::config::{Config, ConfigView};
use crate::endian::{is_fixed, ParserEndianness};
use crate::gen::generator::{constructor, constructor_spec, fields_to_tokens, fields_tokens_spec};
use crate::structs::{steps_to_tokens, steps_tokens_spec};
use crate::text::{concat_all, concat_spec, texts};
use vstd::string::StringExecFns;
use crate::enums::{
    parse_variant, parse_variant_spec, variants_view, DataEnum, Variant, VariantParserTree,
    VariantParserTreeView,
};
use crate::gen::generator::{top_level_spec, Generics, GenericsView, TopLevel};
use crate::meta::error::{ErrorKind, MetaError, MetaErrorView, Span};
use crate::meta::Attribute;
use crate::structs::{steps_view, Step, StepView};
use crate::text::str_eq;

verus! {

/// An enum with a selector that is ready for the generation of its
/// decoding functions.
#[derive(Debug, PartialEq, Eq)]
pub struct GenEnum {
    pub name: String,
    pub config: Config,
    pub extra_args: Option<Vec<ExtraArg>>,
    pub orig_generics: Generics,
    pub tl_pre: Vec<Step>,
    pub tl_post: Vec<Step>,
    pub variants_defs: Vec<VariantParserTree>,
}

/// What a `GenEnum` holds, as plain values.
pub struct GenEnumView {
    pub name: Seq<char>,
    pub config: ConfigView,
    pub extra_args: Option<Seq<ExtraArgView>>,
    pub orig_generics: GenericsView,
    pub tl_pre: Seq<StepView>,
    pub tl_post: Seq<StepView>,
    pub variants_defs: Seq<VariantParserTreeView>,
}

impl View for GenEnum {
    type V = GenEnumView;

    open spec fn view(&self) -> GenEnumView {
        GenEnumView {
            name: self.name@,
            config: self.config@,
            extra_args: extra_view(self.extra_args),
            orig_generics: self.orig_generics@,
            tl_pre: steps_view(self.tl_pre@),
            tl_post: steps_view(self.tl_post@),
            variants_defs: variants_view(self.variants_defs@),
        }
    }
}

/// The plans for the variants `variants`, in the order of declaration and
/// after those of `acc`, or the first error among them.
pub open spec fn parse_variants_spec(
    variants: Seq<Variant>,
    config: ConfigView,
    acc: Seq<VariantParserTreeView>,
) -> Result<Seq<VariantParserTreeView>, MetaErrorView>
    decreases variants.len(),
{
    if variants.len() == 0 {
        Ok(acc)
    } else {
        match parse_variant_spec(variants[0], config) {
            Err(e) => Err(e),
            Ok(v) => parse_variants_spec(variants.skip(1), config, acc.push(v)),
        }
    }
}

/// The enum `name` ready for generation, or the first error in its
/// description. The enum must give the type of its selector.
pub open spec fn from_data_enum_spec(
    name: Seq<char>,
    name_span: Span,
    data_enum: DataEnum,
    attrs: Seq<Attribute>,
    generics: GenericsView,
    endianness: ParserEndianness,
) -> Result<GenEnumView, MetaErrorView> {
    match top_level_spec(name, attrs, endianness) {
        Err(e) => Err(e),
        Ok(top) => if top.config.selector_type.is_none() {
            Err(MetaErrorView { kind: ErrorKind::EnumWithoutSelector, span: name_span, detail: name })
        } else {
            match parse_variants_spec(data_enum.variants@, top.config, Seq::empty()) {
                Err(e) => Err(e),
                Ok(variants) => Ok(
                    GenEnumView {
                        name,
                        config: top.config,
                        extra_args: top.extra_args,
                        orig_generics: generics,
                        tl_pre: top.tl_pre,
                        tl_post: top.tl_post,
                        variants_defs: variants,
                    },
                ),
            }
        },
    }
}

/// Whether the variant is the default one: its selector pattern is `_`.
pub open spec fn is_default(v: VariantParserTreeView) -> bool {
    v.selector_type == "_"@
}

/// The variants of `list` that are default ones, where `default` holds,
/// else those that are not; in the order of `list`.
pub open spec fn keep_spec(list: Seq<VariantParserTreeView>, default: bool) -> Seq<
    VariantParserTreeView,
>
    decreases list.len(),
{
    if list.len() == 0 {
        Seq::empty()
    } else if is_default(list.last()) == default {
        keep_spec(list.drop_last(), default).push(list.last())
    } else {
        keep_spec(list.drop_last(), default)
    }
}

/// The order in which the variants are tested: those with a pattern of
/// their own in the order of declaration, then the default ones.
pub open spec fn relocate_default_spec(list: Seq<VariantParserTreeView>) -> Seq<
    VariantParserTreeView,
> {
    keep_spec(list, false) + keep_spec(list, true)
}

/// Whether any variant of `list` is a default one.
pub open spec fn has_default(list: Seq<VariantParserTreeView>) -> bool {
    exists|i: int| 0 <= i < list.len() && is_default(#[trigger] list[i])
}

/// A list has a default variant exactly when keeping the default ones
/// keeps something.
pub proof fn lemma_default_is_kept(list: Seq<VariantParserTreeView>)
    ensures
        has_default(list) <==> keep_spec(list, true).len() > 0,
    decreases list.len(),
{
    if list.len() > 0 {
        lemma_default_is_kept(list.drop_last());
        if is_default(list.last()) {
            assert(is_default(list[list.len() - 1]));
        } else if has_default(list) {
            let i = choose|i: int| 0 <= i < list.len() && is_default(#[trigger] list[i]);
            assert(is_default(list.drop_last()[i]));
        } else if has_default(list.drop_last()) {
            let i = choose|i: int|
                0 <= i < list.drop_last().len() && is_default(#[trigger] list.drop_last()[i]);
            assert(is_default(list[i]));
        }
    }
}

/// Keeping from two lists in a row is keeping from each.
pub proof fn lemma_keep_of_concat(
    a: Seq<VariantParserTreeView>,
    b: Seq<VariantParserTreeView>,
    default: bool,
)
    ensures
        keep_spec(a + b, default) == keep_spec(a, default) + keep_spec(b, default),
    decreases b.len(),
{
    if b.len() == 0 {
        assert(a + b =~= a);
        assert(keep_spec(a, default) + keep_spec(b, default) =~= keep_spec(a, default));
    } else {
        assert((a + b).drop_last() =~= a + b.drop_last());
        assert((a + b).last() == b.last());
        lemma_keep_of_concat(a, b.drop_last(), default);
        if is_default(b.last()) == default {
            assert((keep_spec(a, default) + keep_spec(b.drop_last(), default)).push(b.last())
                =~= keep_spec(a, default) + keep_spec(b.drop_last(), default).push(b.last()));
        }
    }
}

/// What was kept holds only variants of the kind that was kept.
pub proof fn lemma_keep_is_uniform(list: Seq<VariantParserTreeView>, default: bool)
    ensures
        forall|i: int|
            0 <= i < keep_spec(list, default).len() ==> is_default(
                #[trigger] keep_spec(list, default)[i],
            ) == default,
        keep_spec(list, default).len() <= list.len(),
    decreases list.len(),
{
    if list.len() > 0 {
        lemma_keep_is_uniform(list.drop_last(), default);
    }
}

/// Keeping from a list of one kind gives the list back for that kind, and
/// nothing for the other.
pub proof fn lemma_keep_of_uniform(list: Seq<VariantParserTreeView>, kind: bool, default: bool)
    requires
        forall|i: int| 0 <= i < list.len() ==> is_default(#[trigger] list[i]) == kind,
    ensures
        keep_spec(list, default) == if kind == default {
            list
        } else {
            Seq::empty()
        },
    decreases list.len(),
{
    if list.len() > 0 {
        assert(is_default(list[list.len() - 1]) == kind);
        assert forall|i: int| 0 <= i < list.drop_last().len() implies is_default(
            #[trigger] list.drop_last()[i],
        ) == kind by {
            assert(list.drop_last()[i] == list[i]);
        }
        lemma_keep_of_uniform(list.drop_last(), kind, default);
        if kind == default {
            assert(list.drop_last().push(list.last()) =~= list);
        }
    }
}

/// Relocating the default variants twice is the same as doing it once.
pub proof fn lemma_relocation_is_idempotent(list: Seq<VariantParserTreeView>)
    ensures
        relocate_default_spec(relocate_default_spec(list)) == relocate_default_spec(list),
{
    let own = keep_spec(list, false);
    let def = keep_spec(list, true);
    lemma_keep_of_concat(own, def, false);
    lemma_keep_of_concat(own, def, true);
    lemma_keep_is_uniform(list, false);
    lemma_keep_is_uniform(list, true);
    lemma_keep_of_uniform(own, false, false);
    lemma_keep_of_uniform(own, false, true);
    lemma_keep_of_uniform(def, true, false);
    lemma_keep_of_uniform(def, true, true);
    assert(own + Seq::<VariantParserTreeView>::empty() =~= own);
    assert(Seq::<VariantParserTreeView>::empty() + def =~= def);
}

/// Where the variant at index `k` is the only default one, it is tested
/// last, and the others are tested in the order of their declaration.
pub proof fn lemma_default_is_tested_last(list: Seq<VariantParserTreeView>, k: int)
    requires
        0 <= k < list.len(),
        is_default(list[k]),
        forall|i: int| 0 <= i < list.len() && i != k ==> !is_default(#[trigger] list[i]),
    ensures
        relocate_default_spec(list) == list.remove(k).push(list[k]),
        relocate_default_spec(list).last() == list[k],
{
    let before = list.take(k);
    let after = list.skip(k + 1);
    let one = seq![list[k]];
    assert(list =~= before + one + after);
    assert forall|i: int| 0 <= i < before.len() implies is_default(#[trigger] before[i])
        == false by {
        assert(before[i] == list[i]);
    }
    assert forall|i: int| 0 <= i < after.len() implies is_default(#[trigger] after[i])
        == false by {
        assert(after[i] == list[i + k + 1]);
    }
    lemma_keep_of_concat(before + one, after, false);
    lemma_keep_of_concat(before, one, false);
    lemma_keep_of_concat(before + one, after, true);
    lemma_keep_of_concat(before, one, true);
    lemma_keep_of_uniform(before, false, false);
    lemma_keep_of_uniform(before, false, true);
    lemma_keep_of_uniform(after, false, false);
    lemma_keep_of_uniform(after, false, true);
    lemma_keep_of_uniform(one, true, false);
    lemma_keep_of_uniform(one, true, true);
    assert(relocate_default_spec(list) =~= list.remove(k).push(list[k]));
}

fn parse_variants(variants: &Vec<Variant>, config: &Config) -> (r: Result<
    Vec<VariantParserTree>,
    MetaError,
>)
    ensures
        match r {
            Ok(v) => parse_variants_spec(variants@, config@, Seq::empty()) == Ok::<
                Seq<VariantParserTreeView>,
                MetaErrorView,
            >(variants_view(v@)),
            Err(e) => parse_variants_spec(variants@, config@, Seq::empty()) == Err::<
                Seq<VariantParserTreeView>,
                MetaErrorView,
            >(e@),
        },
{
    let mut out: Vec<VariantParserTree> = Vec::new();
    let mut i: usize = 0;
    proof {
        assert(variants@.skip(0) =~= variants@);
        assert(variants_view(out@) =~= Seq::empty());
    }
    while i < variants.len()
        invariant
            i <= variants.len(),
            parse_variants_spec(variants@, config@, Seq::empty()) == parse_variants_spec(
                variants@.skip(i as int),
                config@,
                variants_view(out@),
            ),
        decreases variants.len() - i,
    {
        proof {
            assert(variants@.skip(i as int).skip(1) =~= variants@.skip(i as int + 1));
        }
        let v = parse_variant(&variants[i], config)?;
        proof {
            assert(variants_view(out@.push(v)) =~= variants_view(out@).push(v@));
        }
        out.push(v);
        i += 1;
    }
    Ok(out)
}

impl GenEnum {
    /// Prepares the enum `name` for the entry point of byte order
    /// `endianness`.
    pub fn from_data_enum(
        name: &String,
        name_span: Span,
        data_enum: &DataEnum,
        attrs: &[Attribute],
        generics: &Generics,
        endianness: ParserEndianness,
    ) -> (r: Result<GenEnum, MetaError>)
        ensures
            match r {
                Ok(g) => from_data_enum_spec(
                    name@,
                    name_span,
                    *data_enum,
                    attrs@,
                    generics@,
                    endianness,
                ) == Ok::<GenEnumView, MetaErrorView>(g@),
                Err(e) => from_data_enum_spec(
                    name@,
                    name_span,
                    *data_enum,
                    attrs@,
                    generics@,
                    endianness,
                ) == Err::<GenEnumView, MetaErrorView>(e@),
            },
    {
        let top = TopLevel::from_attrs(name, name_span, attrs, endianness)?;
        if top.config.selector_type.is_none() {
            return Err(MetaError::new(ErrorKind::EnumWithoutSelector, name_span, name.clone()));
        }
        let variants_defs = parse_variants(&data_enum.variants, &top.config)?;
        Ok(
            GenEnum {
                name: name.clone(),
                config: top.config,
                extra_args: top.extra_args,
                orig_generics: generics.duplicate(),
                tl_pre: top.tl_pre,
                tl_post: top.tl_post,
                variants_defs,
            },
        )
    }

    /// The variants at the indices `order`, in that order.
    pub open spec fn picked(self, order: Seq<usize>) -> Seq<VariantParserTreeView> {
        order.map_values(|i: usize| self.variants_defs[i as int]@)
    }

    /// The indices of the variants in the order in which they are tested:
    /// those with a pattern of their own in the order of declaration, then
    /// the default ones.
    pub fn match_order(&self) -> (r: Vec<usize>)
        ensures
            forall|i: int| 0 <= i < r.len() ==> (#[trigger] r[i]) < self.variants_defs.len(),
            self.picked(r@) == relocate_default_spec(self@.variants_defs),
    {
        let mut order = self.keep(false);
        let mut last = self.keep(true);
        let ghost first = order@;
        let ghost second = last@;
        order.append(&mut last);
        proof {
            assert(order@ == first + second);
            assert(self.picked(first + second) =~= self.picked(first) + self.picked(second));
        }
        order
    }

    fn keep(&self, default: bool) -> (r: Vec<usize>)
        ensures
            forall|i: int| 0 <= i < r.len() ==> (#[trigger] r[i]) < self.variants_defs.len(),
            self.picked(r@) == keep_spec(self@.variants_defs, default),
    {
        let ghost views = self@.variants_defs;
        let mut out: Vec<usize> = Vec::new();
        let mut i: usize = 0;
        proof {
            assert(self.picked(out@) =~= Seq::empty());
        }
        while i < self.variants_defs.len()
            invariant
                i <= self.variants_defs.len(),
                views == self@.variants_defs,
                forall|j: int| 0 <= j < out.len() ==> (#[trigger] out[j]) < i,
                self.picked(out@) == keep_spec(views.take(i as int), default),
            decreases self.variants_defs.len() - i,
        {
            proof {
                assert(views.take(i as int + 1).drop_last() =~= views.take(i as int));
                assert(views.take(i as int + 1).last() == self.variants_defs[i as int]@);
            }
            if str_eq(self.variants_defs[i].selector_type.as_str(), "_") == default {
                proof {
                    assert(self.picked(out@.push(i)) =~= self.picked(out@).push(
                        self.variants_defs[i as int]@,
                    ));
                }
                out.push(i);
            }
            i += 1;
        }
        proof {
            assert(views.take(self.variants_defs.len() as int) =~= views);
        }
        out
    }
}


/// The arm of the match for the variant `v` of the enum `name`: its
/// pattern, the statements that read its fields, and the value it builds.
pub open spec fn arm_tokens_spec(
    name: Seq<char>,
    v: VariantParserTreeView,
    config: ConfigView,
    entry: ParserEndianness,
) -> Seq<char> {
    v.selector_type + " => { "@ + fields_tokens_spec(v.struct_def.parsers, config, entry)
        + "let struct_def = ("@ + constructor_spec(name + "::"@ + v.ident, v.struct_def)
        + "); Ok(("@ + config.input_name + ", struct_def)) }, "@
}

/// The arms of the match for the variants `order`, in that order.
pub open spec fn arms_tokens_spec(
    name: Seq<char>,
    order: Seq<VariantParserTreeView>,
    config: ConfigView,
    entry: ParserEndianness,
) -> Seq<Seq<char>> {
    order.map_values(|v: VariantParserTreeView| arm_tokens_spec(name, v, config, entry))
}

/// The arm that fails where no variant matches.
pub open spec fn default_arm_spec(config: ConfigView) -> Seq<char> {
    "_ => Err(nom::Err::Error(nom::error_position!("@ + config.input_name
        + ", nom::error::ErrorKind::Switch))) "@
}

impl GenEnumView {
    /// Whether a variant of the enum is a default one.
    pub open spec fn default_case_handled(self) -> bool {
        has_default(self.variants_defs)
    }

    /// The body of the decoding function for the entry point of byte
    /// order `entry`: a match on the selector with one arm for each
    /// variant, the default ones last, and an arm that fails where the enum
    /// has no default variant.
    pub open spec fn fn_body(self, entry: ParserEndianness) -> Seq<char> {
        "let "@ + self.config.input_name + " = "@ + self.config.orig_input_name + "; "@
            + steps_tokens_spec(self.tl_pre, self.config) + "let ("@ + self.config.input_name
            + ", enum_def) = match selector { "@ + concat_spec(
            arms_tokens_spec(
                self.name,
                relocate_default_spec(self.variants_defs),
                self.config,
                entry,
            ),
        ) + (if self.default_case_handled() {
            Seq::empty()
        } else {
            default_arm_spec(self.config)
        }) + "}?; "@ + steps_tokens_spec(self.tl_post, self.config) + "Ok(("@
            + self.config.input_name + ", enum_def))"@
    }
}

impl GenEnum {
    fn arm_to_tokens(&self, v: &VariantParserTree, endianness: ParserEndianness) -> (r: String)
        requires
            is_fixed(endianness),
        ensures
            r@ == arm_tokens_spec(self.name@, v@, self.config@, endianness),
    {
        let mut name = self.name.clone();
        name.append("::");
        name.append(v.ident.as_str());
        let mut out = v.selector_type.clone();
        out.append(" => { ");
        out.append(fields_to_tokens(&v.struct_def.parsers, &self.config, endianness).as_str());
        out.append("let struct_def = (");
        out.append(constructor(name.as_str(), &v.struct_def).as_str());
        out.append("); Ok((");
        out.append(self.config.input_name());
        out.append(", struct_def)) }, ");
        out
    }

    /// Writes the arm of each variant, in the order in which the variants
    /// are tested, and says whether a variant is a default one.
    pub fn gen_variants(&self, endianness: ParserEndianness) -> (r: (bool, Vec<String>))
        requires
            is_fixed(endianness),
        ensures
            r.0 == self@.default_case_handled(),
            texts(r.1@) == arms_tokens_spec(
                self.name@,
                relocate_default_spec(self@.variants_defs),
                self.config@,
                endianness,
            ),
    {
        let defaults = self.keep(true);
        let order = self.match_order();
        let ghost views = self.picked(order@);
        let mut arms: Vec<String> = Vec::new();
        let mut i: usize = 0;
        while i < order.len()
            invariant
                is_fixed(endianness),
                i <= order.len(),
                arms.len() == i,
                views == self.picked(order@),
                forall|j: int| 0 <= j < order.len() ==> (#[trigger] order[j])
                    < self.variants_defs.len(),
                forall|j: int|
                    0 <= j < i ==> arms[j]@ == arm_tokens_spec(
                        self.name@,
                        views[j],
                        self.config@,
                        endianness,
                    ),
            decreases order.len() - i,
        {
            let arm = self.arm_to_tokens(&self.variants_defs[order[i]], endianness);
            arms.push(arm);
            i += 1;
        }
        proof {
            assert(texts(arms@) =~= arms_tokens_spec(
                self.name@,
                views,
                self.config@,
                endianness,
            ));
            assert(self.picked(defaults@).len() == defaults@.len());
            lemma_default_is_kept(self@.variants_defs);
        }
        (defaults.len() > 0, arms)
    }

    /// Writes the body of the decoding function for the entry point of
    /// byte order `endianness`.
    pub fn gen_fn_body(&self, endianness: ParserEndianness) -> (r: String)
        requires
            is_fixed(endianness),
        ensures
            r@ == self@.fn_body(endianness),
    {
        let (default_case_handled, variants_code) = self.gen_variants(endianness);
        let mut out = String::from_str("let ");
        out.append(self.config.input_name());
        out.append(" = ");
        out.append(self.config.orig_input_name());
        out.append("; ");
        out.append(steps_to_tokens(&self.tl_pre, &self.config).as_str());
        out.append("let (");
        out.append(self.config.input_name());
        out.append(", enum_def) = match selector { ");
        out.append(concat_all(&variants_code).as_str());
        if !default_case_handled {
            let mut arm = String::from_str("_ => Err(nom::Err::Error(nom::error_position!(");
            arm.append(self.config.input_name());
            arm.append(", nom::error::ErrorKind::Switch))) ");
            out.append(arm.as_str());
        } else {
            proof {
                assert(out@ + Seq::<char>::empty() =~= out@);
            }
        }
        out.append("}?; ");
        out.append(steps_to_tokens(&self.tl_post, &self.config).as_str());
        out.append("Ok((");
        out.append(self.config.input_name());
        out.append(", enum_def))");
        out
    }
}

} // verus!
