//! The generator for enums without fields, which are chosen by their
//! discriminant.

use vstd::prelude::*;
use crate::gen::generator::extra_view;
use crate::meta::syntax::{ExtraArg, ExtraArgView};
use crate::config::{Config, ConfigView};
use crate::endian::{get_object_endianness, is_fixed, object_endianness_spec, ParserEndianness};
use crate::structs::{steps_to_tokens, steps_tokens_spec};
use crate::text::{concat_all, concat_spec, texts};
use vstd::string::StringExecFns;
use crate::enums::{get_repr, get_repr_spec, DataEnum, Variant};
use crate::gen::generator::{top_level_spec, Generics, GenericsView, TopLevel};
use crate::meta::error::{ErrorKind, MetaError, MetaErrorView, Span};
use crate::meta::Attribute;
use crate::parsertree::{ParserExpr, ParserExprView, TypeItem};
use crate::structs::{steps_view, Step, StepView};
use crate::text::str_eq;
use crate::types::{Type, TypeView};

verus! {

/// One variant of an enum without fields, with its discriminant.
#[derive(Debug, PartialEq, Eq)]
pub struct FieldlessVariant {
    pub ident: String,
    pub discriminant: i128,
}

/// What a `FieldlessVariant` holds, as plain values.
pub struct FieldlessVariantView {
    pub ident: Seq<char>,
    pub discriminant: i128,
}

impl View for FieldlessVariant {
    type V = FieldlessVariantView;

    open spec fn view(&self) -> FieldlessVariantView {
        FieldlessVariantView { ident: self.ident@, discriminant: self.discriminant }
    }
}

/// The views of a list of variants, in order.
pub open spec fn fieldless_view(list: Seq<FieldlessVariant>) -> Seq<FieldlessVariantView> {
    list.map_values(|v: FieldlessVariant| v@)
}

/// An enum without fields that is ready for the generation of its
/// decoding functions.
#[derive(Debug, PartialEq, Eq)]
pub struct GenFieldlessEnum {
    pub name: String,
    pub config: Config,
    pub extra_args: Option<Vec<ExtraArg>>,
    pub orig_generics: Generics,
    pub tl_pre: Vec<Step>,
    pub tl_post: Vec<Step>,
    /// The name of the representation type.
    pub repr: String,
    /// The parser that reads the discriminant.
    pub repr_parser: ParserExpr,
    pub variants: Vec<FieldlessVariant>,
}

/// What a `GenFieldlessEnum` holds, as plain values.
pub struct GenFieldlessEnumView {
    pub name: Seq<char>,
    pub config: ConfigView,
    pub extra_args: Option<Seq<ExtraArgView>>,
    pub orig_generics: GenericsView,
    pub tl_pre: Seq<StepView>,
    pub tl_post: Seq<StepView>,
    pub repr: Seq<char>,
    pub repr_parser: ParserExprView,
    pub variants: Seq<FieldlessVariantView>,
}

impl View for GenFieldlessEnum {
    type V = GenFieldlessEnumView;

    open spec fn view(&self) -> GenFieldlessEnumView {
        GenFieldlessEnumView {
            name: self.name@,
            config: self.config@,
            extra_args: extra_view(self.extra_args),
            orig_generics: self.orig_generics@,
            tl_pre: steps_view(self.tl_pre@),
            tl_post: steps_view(self.tl_post@),
            repr: self.repr@,
            repr_parser: self.repr_parser@,
            variants: fieldless_view(self.variants@),
        }
    }
}

/// Whether `name` is a primitive integer type that a discriminant can be
/// read as.
pub open spec fn is_primitive_repr(name: Seq<char>) -> bool {
    name == "u8"@ || name == "u16"@ || name == "u24"@ || name == "u32"@ || name == "u64"@ || name
        == "u128"@ || name == "i8"@ || name == "i16"@ || name == "i24"@ || name == "i32"@ || name
        == "i64"@ || name == "i128"@
}

/// The variants of `variants` with their discriminants, after those of
/// `acc`. A variant without a discriminant of its own gets `next`: zero
/// for the first variant, else one more than the variant before it. A
/// discriminant beyond the largest integer is an error.
pub open spec fn collect_discriminants_spec(
    variants: Seq<Variant>,
    next: int,
    acc: Seq<FieldlessVariantView>,
) -> Result<Seq<FieldlessVariantView>, MetaErrorView>
    decreases variants.len(),
{
    if variants.len() == 0 {
        Ok(acc)
    } else {
        let d: int = match variants[0].discriminant {
            Some(v) => v as int,
            None => next,
        };
        if d > i128::MAX {
            Err(
                MetaErrorView {
                    kind: ErrorKind::DiscriminantOverflow,
                    span: variants[0].span,
                    detail: variants[0].ident@,
                },
            )
        } else {
            collect_discriminants_spec(
                variants.skip(1),
                d + 1,
                acc.push(
                    FieldlessVariantView { ident: variants[0].ident@, discriminant: d as i128 },
                ),
            )
        }
    }
}

/// The parser that reads a discriminant of type `repr` in the byte order
/// `endianness`.
pub open spec fn repr_parser_spec(repr: Seq<char>, span: Span, endianness: ParserEndianness)
    -> ParserExprView {
    let ty = TypeView::Path { ident: repr, span };
    match endianness {
        ParserEndianness::BigEndian => ParserExprView::CallParseBE(ty),
        ParserEndianness::LittleEndian => ParserExprView::CallParseLE(ty),
        _ => ParserExprView::CallParse(ty),
    }
}

/// The enum `name` ready for generation, or the first error in its
/// description.
///
/// The enum takes no extra arguments; it names a primitive integer type in
/// a `repr` attribute; its byte order is not chosen at run time.
pub open spec fn from_fieldless_enum_spec(
    name: Seq<char>,
    name_span: Span,
    data_enum: DataEnum,
    attrs: Seq<Attribute>,
    generics: GenericsView,
    endianness: ParserEndianness,
) -> Result<GenFieldlessEnumView, MetaErrorView> {
    match top_level_spec(name, attrs, endianness) {
        Err(e) => Err(e),
        Ok(top) => if top.extra_args.is_some() {
            Err(
                MetaErrorView {
                    kind: ErrorKind::UnsupportedExtraArgs,
                    span: name_span,
                    detail: name,
                },
            )
        } else {
            match get_repr_spec(attrs) {
                None => Err(
                    MetaErrorView { kind: ErrorKind::MissingRepr, span: name_span, detail: name },
                ),
                Some((repr, span)) => if !is_primitive_repr(repr) {
                    Err(MetaErrorView { kind: ErrorKind::InvalidRepr, span, detail: repr })
                } else if object_endianness_spec(top.config) == ParserEndianness::SetEndian {
                    Err(
                        MetaErrorView {
                            kind: ErrorKind::UnsupportedSetEndian,
                            span: name_span,
                            detail: name,
                        },
                    )
                } else {
                    match collect_discriminants_spec(data_enum.variants@, 0, Seq::empty()) {
                        Err(e) => Err(e),
                        Ok(variants) => Ok(
                            GenFieldlessEnumView {
                                name,
                                config: top.config,
                                extra_args: top.extra_args,
                                orig_generics: generics,
                                tl_pre: top.tl_pre,
                                tl_post: top.tl_post,
                                repr,
                                repr_parser: repr_parser_spec(
                                    repr,
                                    span,
                                    object_endianness_spec(top.config),
                                ),
                                variants,
                            },
                        ),
                    }
                },
            }
        },
    }
}

fn primitive_repr(name: &str) -> (r: bool)
    ensures
        r == is_primitive_repr(name@),
{
    str_eq(name, "u8") || str_eq(name, "u16") || str_eq(name, "u24") || str_eq(name, "u32")
        || str_eq(name, "u64") || str_eq(name, "u128") || str_eq(name, "i8") || str_eq(
        name,
        "i16",
    ) || str_eq(name, "i24") || str_eq(name, "i32") || str_eq(name, "i64") || str_eq(name, "i128")
}

fn collect_discriminants(variants: &Vec<Variant>) -> (r: Result<Vec<FieldlessVariant>, MetaError>)
    ensures
        match r {
            Ok(v) => collect_discriminants_spec(variants@, 0, Seq::empty()) == Ok::<
                Seq<FieldlessVariantView>,
                MetaErrorView,
            >(fieldless_view(v@)),
            Err(e) => collect_discriminants_spec(variants@, 0, Seq::empty()) == Err::<
                Seq<FieldlessVariantView>,
                MetaErrorView,
            >(e@),
        },
{
    let mut out: Vec<FieldlessVariant> = Vec::new();
    // The discriminant of the next variant; `None` when it is beyond the
    // largest integer.
    let mut next: Option<i128> = Some(0);
    let mut i: usize = 0;
    proof {
        assert(variants@.skip(0) =~= variants@);
        assert(fieldless_view(out@) =~= Seq::empty());
    }
    while i < variants.len()
        invariant
            i <= variants.len(),
            collect_discriminants_spec(variants@, 0, Seq::empty()) == collect_discriminants_spec(
                variants@.skip(i as int),
                match next {
                    Some(n) => n as int,
                    None => i128::MAX + 1,
                },
                fieldless_view(out@),
            ),
        decreases variants.len() - i,
    {
        proof {
            assert(variants@.skip(i as int).skip(1) =~= variants@.skip(i as int + 1));
        }
        let d: i128 = match variants[i].discriminant {
            Some(v) => v,
            None => match next {
                Some(n) => n,
                None => {
                    return Err(
                        MetaError::new(
                            ErrorKind::DiscriminantOverflow,
                            variants[i].span,
                            variants[i].ident.clone(),
                        ),
                    );
                },
            },
        };
        let v = FieldlessVariant { ident: variants[i].ident.clone(), discriminant: d };
        proof {
            assert(fieldless_view(out@.push(v)) =~= fieldless_view(out@).push(v@));
        }
        out.push(v);
        next = if d < i128::MAX {
            Some(d + 1)
        } else {
            None
        };
        i += 1;
    }
    Ok(out)
}

impl GenFieldlessEnum {
    /// Prepares the enum `name` for the entry point of byte order
    /// `endianness`.
    pub fn from_data_enum(
        name: &String,
        name_span: Span,
        data_enum: &DataEnum,
        attrs: &[Attribute],
        generics: &Generics,
        endianness: ParserEndianness,
    ) -> (r: Result<GenFieldlessEnum, MetaError>)
        ensures
            match r {
                Ok(g) => from_fieldless_enum_spec(
                    name@,
                    name_span,
                    *data_enum,
                    attrs@,
                    generics@,
                    endianness,
                ) == Ok::<GenFieldlessEnumView, MetaErrorView>(g@),
                Err(e) => from_fieldless_enum_spec(
                    name@,
                    name_span,
                    *data_enum,
                    attrs@,
                    generics@,
                    endianness,
                ) == Err::<GenFieldlessEnumView, MetaErrorView>(e@),
            },
    {
        let top = TopLevel::from_attrs(name, name_span, attrs, endianness)?;
        if top.extra_args.is_some() {
            return Err(MetaError::new(ErrorKind::UnsupportedExtraArgs, name_span, name.clone()));
        }
        let (repr, span) = match get_repr(attrs) {
            Some(p) => p,
            None => {
                return Err(MetaError::new(ErrorKind::MissingRepr, name_span, name.clone()));
            },
        };
        if !primitive_repr(repr.as_str()) {
            return Err(MetaError::new(ErrorKind::InvalidRepr, span, repr));
        }
        let ty = Type::Path { ident: repr.clone(), span };
        let repr_parser = match get_object_endianness(&top.config) {
            ParserEndianness::BigEndian => ParserExpr::CallParseBE(TypeItem(ty)),
            ParserEndianness::LittleEndian => ParserExpr::CallParseLE(TypeItem(ty)),
            ParserEndianness::Unspecified => ParserExpr::CallParse(TypeItem(ty)),
            ParserEndianness::SetEndian => {
                return Err(
                    MetaError::new(ErrorKind::UnsupportedSetEndian, name_span, name.clone()),
                );
            },
        };
        let variants = collect_discriminants(&data_enum.variants)?;
        Ok(
            GenFieldlessEnum {
                name: name.clone(),
                config: top.config,
                extra_args: top.extra_args,
                orig_generics: generics.duplicate(),
                tl_pre: top.tl_pre,
                tl_post: top.tl_post,
                repr,
                repr_parser,
                variants,
            },
        )
    }
}


/// The test of one variant: the variant where the selector is its
/// discriminant.
pub open spec fn variant_test_spec(name: Seq<char>, repr: Seq<char>, v: FieldlessVariantView)
    -> Seq<char> {
    "if selector == "@ + name + "::"@ + v.ident + " as "@ + repr + " { "@ + name + "::"@ + v.ident
        + " } else "@
}

/// The tests of the variants `variants`, in the order of declaration.
pub open spec fn variant_tests_spec(
    name: Seq<char>,
    repr: Seq<char>,
    variants: Seq<FieldlessVariantView>,
) -> Seq<Seq<char>> {
    variants.map_values(|v: FieldlessVariantView| variant_test_spec(name, repr, v))
}

impl GenFieldlessEnumView {
    /// The body of the decoding function for the entry point of byte
    /// order `entry`: the discriminant is read, then tested against each
    /// variant in the order of declaration.
    pub open spec fn fn_body(self, entry: ParserEndianness) -> Seq<char> {
        "let "@ + self.config.input_name + " = "@ + self.config.orig_input_name + "; "@
            + steps_tokens_spec(self.tl_pre, self.config) + "let ("@ + self.config.input_name
            + ", selector) = "@ + self.repr_parser.with_endianness(entry).tokens() + "("@
            + self.config.input_name + ")?; let enum_def = "@ + concat_spec(
            variant_tests_spec(self.name, self.repr, self.variants),
        ) + "{ return Err(nom::Err::Error(nom::error::make_error("@ + self.config.orig_input_name
            + ", nom::error::ErrorKind::Switch))); }; "@ + steps_tokens_spec(
            self.tl_post,
            self.config,
        ) + "Ok(("@ + self.config.input_name + ", enum_def))"@
    }
}

impl GenFieldlessEnum {
    /// Writes the test of each variant, in the order of declaration.
    pub fn gen_variants(&self) -> (r: Vec<String>)
        ensures
            texts(r@) == variant_tests_spec(self.name@, self.repr@, self@.variants),
    {
        let mut tests: Vec<String> = Vec::new();
        let mut i: usize = 0;
        while i < self.variants.len()
            invariant
                i <= self.variants.len(),
                tests.len() == i,
                forall|j: int|
                    0 <= j < i ==> tests[j]@ == variant_test_spec(
                        self.name@,
                        self.repr@,
                        self.variants[j]@,
                    ),
            decreases self.variants.len() - i,
        {
            let id = &self.variants[i].ident;
            let mut out = String::from_str("if selector == ");
            out.append(self.name.as_str());
            out.append("::");
            out.append(id.as_str());
            out.append(" as ");
            out.append(self.repr.as_str());
            out.append(" { ");
            out.append(self.name.as_str());
            out.append("::");
            out.append(id.as_str());
            out.append(" } else ");
            tests.push(out);
            i += 1;
        }
        proof {
            assert(texts(tests@) =~= variant_tests_spec(self.name@, self.repr@, self@.variants));
        }
        tests
    }

    /// Writes the body of the decoding function for the entry point of
    /// byte order `endianness`.
    pub fn gen_fn_body(&self, endianness: ParserEndianness) -> (r: String)
        requires
            is_fixed(endianness),
        ensures
            r@ == self@.fn_body(endianness),
    {
        let mut out = String::from_str("let ");
        out.append(self.config.input_name());
        out.append(" = ");
        out.append(self.config.orig_input_name());
        out.append("; ");
        out.append(steps_to_tokens(&self.tl_pre, &self.config).as_str());
        out.append("let (");
        out.append(self.config.input_name());
        out.append(", selector) = ");
        out.append(self.repr_parser.with_endianness(endianness).to_tokens().as_str());
        out.append("(");
        out.append(self.config.input_name());
        out.append(")?; let enum_def = ");
        out.append(concat_all(&self.gen_variants()).as_str());
        out.append("{ return Err(nom::Err::Error(nom::error::make_error(");
        out.append(self.config.orig_input_name());
        out.append(", nom::error::ErrorKind::Switch))); }; ");
        out.append(steps_to_tokens(&self.tl_post, &self.config).as_str());
        out.append("Ok((");
        out.append(self.config.input_name());
        out.append(", enum_def))");
        out
    }
}

} // verus!
