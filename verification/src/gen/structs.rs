//! The generator for structs.

use vstd::prelude::*;
use crate::gen::generator::extra_view;
use crate::meta::syntax::{ExtraArg, ExtraArgView};
use vstd::string::StringExecFns;
use crate::config::{Config, ConfigView};
use crate::endian::{is_fixed, ParserEndianness};
use crate::gen::generator::{
    constructor, constructor_spec, fields_to_tokens, fields_tokens_spec,
    top_level_spec, Generics, GenericsView, TopLevel,
};
use crate::meta::error::{MetaError, MetaErrorView, Span};
use crate::meta::Attribute;
use crate::structs::{
    parse_fields_spec, parse_struct, parsers_view, steps_to_tokens, steps_tokens_spec, steps_view,
    DataStruct, Step, StepView, StructParser, StructParserTree, StructParserTreeView,
    StructParserView,
};
use crate::text::{str_eq, texts};
use crate::types::get_type_first_ident;

verus! {

/// A struct that is ready for the generation of its decoding functions.
#[derive(Debug, PartialEq, Eq)]
pub struct GenStruct {
    pub name: String,
    pub config: Config,
    pub extra_args: Option<Vec<ExtraArg>>,
    pub orig_generics: Generics,
    pub tl_pre: Vec<Step>,
    pub tl_post: Vec<Step>,
    pub parser_tree: StructParserTree,
    /// The predicates that the `impl` block needs beside those of the
    /// struct.
    pub impl_where_predicates: Option<Vec<String>>,
}

/// What a `GenStruct` holds, as plain values.
pub struct GenStructView {
    pub name: Seq<char>,
    pub config: ConfigView,
    pub extra_args: Option<Seq<ExtraArgView>>,
    pub orig_generics: GenericsView,
    pub tl_pre: Seq<StepView>,
    pub tl_post: Seq<StepView>,
    pub parser_tree: StructParserTreeView,
    pub impl_where_predicates: Option<Seq<Seq<char>>>,
}

impl View for GenStruct {
    type V = GenStructView;

    open spec fn view(&self) -> GenStructView {
        GenStructView {
            name: self.name@,
            config: self.config@,
            extra_args: extra_view(self.extra_args),
            orig_generics: self.orig_generics@,
            tl_pre: steps_view(self.tl_pre@),
            tl_post: steps_view(self.tl_post@),
            parser_tree: self.parser_tree@,
            impl_where_predicates: match self.impl_where_predicates {
                Some(v) => Some(texts(v@)),
                None => None,
            },
        }
    }
}

/// The predicate that a field of type `String` puts on the error type.
pub open spec fn utf8_predicate_spec(config: ConfigView) -> Seq<char> {
    config.error_name + ": nom::error::FromExternalError<&"@ + config.lifetime_name
        + " [u8], core::str::Utf8Error>"@
}

/// Whether the innermost step of the plan reads a `String`.
pub open spec fn reads_string(p: StructParserView) -> bool {
    match p.item.expr.last_type() {
        Some(t) => t.first_ident() == Ok::<Seq<char>, MetaErrorView>("String"@),
        None => false,
    }
}

/// One predicate for each plan of `parsers` that reads a `String`, after
/// those of `acc`.
pub open spec fn collect_predicates_spec(
    parsers: Seq<StructParserView>,
    config: ConfigView,
    acc: Seq<Seq<char>>,
) -> Seq<Seq<char>>
    decreases parsers.len(),
{
    if parsers.len() == 0 {
        acc
    } else if reads_string(parsers[0]) {
        collect_predicates_spec(parsers.skip(1), config, acc.push(utf8_predicate_spec(config)))
    } else {
        collect_predicates_spec(parsers.skip(1), config, acc)
    }
}

/// The predicates that the `impl` block needs beside those of the struct:
/// with generic errors, one for each field that reads a `String`.
pub open spec fn add_extra_where_predicates_spec(tree: StructParserTreeView, config: ConfigView)
    -> Option<Seq<Seq<char>>> {
    if config.generic_errors {
        let v = collect_predicates_spec(tree.parsers, config, Seq::empty());
        if v.len() > 0 {
            Some(v)
        } else {
            None
        }
    } else {
        None
    }
}

/// The struct `name` ready for generation, or the first error in its
/// description.
pub open spec fn from_datastruct_spec(
    name: Seq<char>,
    datastruct: DataStruct,
    attrs: Seq<Attribute>,
    generics: GenericsView,
    endianness: ParserEndianness,
) -> Result<GenStructView, MetaErrorView> {
    match top_level_spec(name, attrs, endianness) {
        Err(e) => Err(e),
        Ok(top) => match parse_fields_spec(datastruct.fields, top.config) {
            Err(e) => Err(e),
            Ok(tree) => Ok(
                GenStructView {
                    name,
                    config: top.config,
                    extra_args: top.extra_args,
                    orig_generics: generics,
                    tl_pre: top.tl_pre,
                    tl_post: top.tl_post,
                    parser_tree: tree,
                    impl_where_predicates: add_extra_where_predicates_spec(tree, top.config),
                },
            ),
        },
    }
}

fn plan_reads_string(p: &StructParser) -> (r: bool)
    ensures
        r == reads_string(p@),
{
    match p.item.expr.last_type() {
        Some(ty) => match get_type_first_ident(&ty.0) {
            Ok(s) => str_eq(s.as_str(), "String"),
            Err(_) => false,
        },
        None => false,
    }
}

/// Finds the predicates that the `impl` block needs beside those of the
/// struct.
pub fn add_extra_where_predicates(parser_tree: &StructParserTree, config: &Config) -> (r: Option<
    Vec<String>,
>)
    ensures
        match r {
            Some(v) => add_extra_where_predicates_spec(parser_tree@, config@) == Some(
                texts(v@),
            ),
            None => add_extra_where_predicates_spec(parser_tree@, config@).is_none(),
        },
{
    if !config.generic_errors {
        return None;
    }
    let ghost views = parsers_view(parser_tree.parsers@);
    let mut v: Vec<String> = Vec::new();
    let mut i: usize = 0;
    proof {
        assert(views.skip(0) =~= views);
        assert(texts(v@) =~= Seq::empty());
    }
    while i < parser_tree.parsers.len()
        invariant
            i <= parser_tree.parsers.len(),
            views == parsers_view(parser_tree.parsers@),
            collect_predicates_spec(views, config@, Seq::empty()) == collect_predicates_spec(
                views.skip(i as int),
                config@,
                texts(v@),
            ),
        decreases parser_tree.parsers.len() - i,
    {
        proof {
            assert(views.skip(i as int).skip(1) =~= views.skip(i as int + 1));
            assert(views.skip(i as int)[0] == parser_tree.parsers[i as int]@);
        }
        if plan_reads_string(&parser_tree.parsers[i]) {
            let mut wh = String::from_str(config.error_name());
            wh.append(": nom::error::FromExternalError<&");
            wh.append(config.lifetime_name());
            wh.append(" [u8], core::str::Utf8Error>");
            proof {
                assert(texts(v@.push(wh)) =~= texts(v@).push(wh@));
            }
            v.push(wh);
        }
        i += 1;
    }
    if v.len() > 0 {
        Some(v)
    } else {
        None
    }
}

impl GenStruct {
    /// Prepares the struct `name` for the entry point of byte order
    /// `endianness`.
    pub fn from_datastruct(
        name: &String,
        name_span: Span,
        datastruct: &DataStruct,
        attrs: &[Attribute],
        generics: &Generics,
        endianness: ParserEndianness,
    ) -> (r: Result<GenStruct, MetaError>)
        ensures
            match r {
                Ok(g) => from_datastruct_spec(name@, *datastruct, attrs@, generics@, endianness)
                    == Ok::<GenStructView, MetaErrorView>(g@),
                Err(e) => from_datastruct_spec(name@, *datastruct, attrs@, generics@, endianness)
                    == Err::<GenStructView, MetaErrorView>(e@),
            },
    {
        let top = TopLevel::from_attrs(name, name_span, attrs, endianness)?;
        let s = parse_struct(datastruct, &top.config)?;
        let impl_where_predicates = add_extra_where_predicates(&s, &top.config);
        Ok(
            GenStruct {
                name: name.clone(),
                config: top.config,
                extra_args: top.extra_args,
                orig_generics: generics.duplicate(),
                tl_pre: top.tl_pre,
                tl_post: top.tl_post,
                parser_tree: s,
                impl_where_predicates,
            },
        )
    }
}


impl GenStructView {
    /// The body of the decoding function for the entry point of byte
    /// order `entry`.
    pub open spec fn fn_body(self, entry: ParserEndianness) -> Seq<char> {
        "let "@ + self.config.input_name + " = "@ + self.config.orig_input_name + "; "@
            + steps_tokens_spec(self.tl_pre, self.config) + fields_tokens_spec(
            self.parser_tree.parsers,
            self.config,
            entry,
        ) + "let struct_def = "@ + constructor_spec(self.name, self.parser_tree) + "; "@
            + steps_tokens_spec(self.tl_post, self.config) + "Ok(("@ + self.config.input_name
            + ", struct_def))"@
    }
}

impl GenStruct {
    /// Writes the body of the decoding function for the entry point of
    /// byte order `endianness`.
    pub fn gen_fn_body(&self, endianness: ParserEndianness) -> (r: String)
        requires
            is_fixed(endianness),
        ensures
            r@ == self@.fn_body(endianness),
    {
        let mut out = String::from_str("let ");
        out.append(self.config.input_name());
        out.append(" = ");
        out.append(self.config.orig_input_name());
        out.append("; ");
        out.append(steps_to_tokens(&self.tl_pre, &self.config).as_str());
        out.append(fields_to_tokens(&self.parser_tree.parsers, &self.config, endianness).as_str());
        out.append("let struct_def = ");
        out.append(constructor(self.name.as_str(), &self.parser_tree).as_str());
        out.append("; ");
        out.append(steps_to_tokens(&self.tl_post, &self.config).as_str());
        out.append("Ok((");
        out.append(self.config.input_name());
        out.append(", struct_def))");
        out
    }
}

} // verus!
