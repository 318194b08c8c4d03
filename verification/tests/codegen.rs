#![allow(dead_code, unused_imports)]

use nom_derive::decode::error::{DecodeError, DecodeErrorKind};
use nom_derive::decode::host::{Answer, Query, Request};
use nom_derive::decode::record::Outcome;
use nom_derive::decode::value::{Binding, Endianness, Shape, Value};
use nom_derive::endian::ParserEndianness;
use nom_derive::enums::{Data, DataEnum, Variant};
use nom_derive::gen::generator::Generics;
use nom_derive::gen::{DeriveInput, Generated};
use nom_derive::meta::attr::Meta;
use nom_derive::meta::error::{ErrorKind, MetaError, Span};
use nom_derive::meta::Attribute;
use nom_derive::structs::{DataStruct, Field, Fields};
use nom_derive::types::Type;

type Decoded = Result<(usize, Value), DecodeError>;

/// A compiled declaration, with the code of the host for its arguments.
struct Parser<'h> {
    plan: Generated,
    host: Box<dyn Fn(&Request, &[u8]) -> Answer + 'h>,
}

impl<'h> Parser<'h> {
    fn new(ast: DeriveInput, host: impl Fn(&Request, &[u8]) -> Answer + 'h) -> Parser<'h> {
        Parser::with_entry(ast, ParserEndianness::Unspecified, host)
    }

    fn with_entry(
        ast: DeriveInput,
        entry: ParserEndianness,
        host: impl Fn(&Request, &[u8]) -> Answer + 'h,
    ) -> Parser<'h> {
        let plan = Generated::from_ast(&ast, entry).expect("a valid declaration");
        Parser { plan, host: Box::new(host) }
    }

    fn run(&self, entry: ParserEndianness, input: &[u8], args: Vec<Binding>) -> Decoded {
        let mut answers = Vec::new();
        loop {
            match self.plan.decode(entry, input, &args, &answers) {
                Outcome::Done(r) => return r,
                Outcome::Ask(q) => answers.push((self.host)(&q, input)),
            }
        }
    }

    fn parse(&self, input: &[u8]) -> Decoded {
        self.run(ParserEndianness::BigEndian, input, Vec::new())
    }

    fn parse_be(&self, input: &[u8]) -> Decoded {
        self.run(ParserEndianness::BigEndian, input, Vec::new())
    }

    fn parse_le(&self, input: &[u8]) -> Decoded {
        self.run(ParserEndianness::LittleEndian, input, Vec::new())
    }

    fn select(&self, input: &[u8], selector: Value) -> Decoded {
        self.run(ParserEndianness::BigEndian, input, vec![Binding::new("selector", selector)])
    }

    /// The answer to a question that asks for this parser at `pos`.
    fn at(&self, input: &[u8], pos: usize, big_endian: bool, args: Vec<Binding>) -> Answer {
        let entry =
            if big_endian { ParserEndianness::BigEndian } else { ParserEndianness::LittleEndian };
        match self.run(entry, &input[pos..], args) {
            Ok((used, value)) => Answer::Parsed(pos + used, value),
            Err(e) => Answer::Failed(e),
        }
    }
}

fn no_host(q: &Request, _input: &[u8]) -> Answer {
    panic!("unexpected question: {:?}", q.query)
}

/// The code without its white space.
fn squeeze(code: &str) -> String {
    code.chars().filter(|c| !c.is_whitespace()).collect()
}

/// The value bound to `name` where the question is put.
fn bound<'a>(q: &'a Request, name: &str) -> &'a Value {
    &q.scope.iter().rev().find(|b| b.name == name).expect("a bound name").value
}

fn number(v: &Value) -> i128 {
    match v {
        Value::UInt(n) => *n as i128,
        Value::Int(n) => *n,
        other => panic!("not a number: {:?}", other),
    }
}

/// The value of an integer literal.
fn literal(code: &str) -> Option<Value> {
    let text = squeeze(code);
    match text.strip_prefix('-') {
        Some(rest) => rest.parse::<i128>().ok().map(|n| Value::Int(-n)),
        None => text.parse::<u128>().ok().map(Value::UInt),
    }
}

/// The answer that stands for the result of a parser of `nom`.
fn from_nom<O>(
    input: &[u8],
    result: nom::IResult<&[u8], O>,
    value: impl Fn(O) -> Value,
) -> Answer {
    match result {
        Ok((rest, out)) => Answer::Parsed(input.len() - rest.len(), value(out)),
        Err(nom::Err::Incomplete(nom::Needed::Size(n))) => {
            Answer::Failed(DecodeError::Incomplete(n.get()))
        }
        Err(nom::Err::Incomplete(nom::Needed::Unknown)) => {
            Answer::Failed(DecodeError::Incomplete(0))
        }
        Err(nom::Err::Error(e)) => Answer::Failed(DecodeError::Error(
            DecodeErrorKind::Host,
            input.len() - e.input.len(),
        )),
        Err(nom::Err::Failure(e)) => Answer::Failed(DecodeError::Failure(
            DecodeErrorKind::Host,
            input.len() - e.input.len(),
        )),
    }
}

fn path(name: &str) -> Meta {
    Meta::path(name)
}

fn list(name: &str, tokens: &str) -> Meta {
    Meta::list(name, tokens)
}

fn name_value(name: &str, value: &str) -> Meta {
    Meta::name_value(name, value)
}

fn t(name: &str) -> Type {
    Type::named(name)
}

fn option(inner: Type) -> Type {
    Type::generic("Option", inner)
}

fn vec_of(inner: Type) -> Type {
    Type::generic("Vec", inner)
}

fn field(name: &str, ty: Type) -> Field {
    Field::named(name, ty, Vec::new())
}

fn field_with(name: &str, ty: Type, metas: Vec<Meta>) -> Field {
    Field::named(name, ty, metas)
}

fn declaration(name: &str, top: Vec<Attribute>, data: Data) -> DeriveInput {
    DeriveInput {
        ident: name.to_string(),
        span: Span::call_site(),
        attrs: top,
        generics: Generics::none(),
        data,
    }
}

fn strukt(name: &str, top: Vec<Meta>, fields: Vec<Field>) -> DeriveInput {
    declaration(
        name,
        vec![Attribute::nom(top)],
        Data::Struct(DataStruct { fields: Fields::Named(fields) }),
    )
}

fn tuple_struct(name: &str, top: Vec<Meta>, types: Vec<Type>) -> DeriveInput {
    let fields = types.into_iter().map(|ty| Field::unnamed(ty, Vec::new())).collect();
    declaration(
        name,
        vec![Attribute::nom(top)],
        Data::Struct(DataStruct { fields: Fields::Unnamed(fields) }),
    )
}

fn variant(name: &str, metas: Vec<Meta>, fields: Fields) -> Variant {
    Variant {
        ident: name.to_string(),
        fields,
        attrs: vec![Attribute::nom(metas)],
        discriminant: None,
        span: Span::call_site(),
    }
}

fn unit_variant(name: &str, discriminant: Option<i128>) -> Variant {
    Variant {
        ident: name.to_string(),
        fields: Fields::Unit,
        attrs: Vec::new(),
        discriminant,
        span: Span::call_site(),
    }
}

fn enumeration(name: &str, top: Vec<Attribute>, variants: Vec<Variant>) -> DeriveInput {
    declaration(name, top, Data::Enum(DataEnum { variants }))
}

fn unnamed(types: Vec<Type>) -> Fields {
    Fields::Unnamed(types.into_iter().map(|ty| Field::unnamed(ty, Vec::new())).collect())
}

fn named(name: &str, fields: Vec<(&str, Value)>) -> Value {
    Value::Struct {
        name: name.to_string(),
        shape: Shape::Named,
        names: fields.iter().map(|f| f.0.to_string()).collect(),
        values: fields.into_iter().map(|f| f.1).collect(),
    }
}

fn tuple(name: &str, values: Vec<Value>) -> Value {
    Value::Struct {
        name: name.to_string(),
        shape: Shape::Tuple,
        names: (0..values.len()).map(|i| format!("_{}", i)).collect(),
        values,
    }
}

fn unit(name: &str) -> Value {
    Value::Struct {
        name: name.to_string(),
        shape: Shape::Unit,
        names: Vec::new(),
        values: Vec::new(),
    }
}

fn some(v: Value) -> Value {
    Value::Present(Box::new(v))
}

fn uints(values: &[u128]) -> Value {
    Value::List(values.iter().map(|n| Value::UInt(*n)).collect())
}

use nom_derive::config::Config;
use nom_derive::gen::generator::{
    gen_fn_decl, get_call_args, get_fn_args, has_impl_for_endianness, GenericParam,
    GenericParamKind,
};
use nom_derive::structs::{
    quote_align, quote_error_if, quote_move, quote_move_abs, quote_skip, steps_to_tokens, Step,
};

fn config() -> Config {
    Config::from_meta_list("S".to_string(), &[]).unwrap()
}

fn generate(ast: &DeriveInput) -> String {
    nom_derive::nom(ast).expect("a valid declaration")
}

/// The generated code is an `impl` block of the host language.
fn well_formed(code: &str) -> syn::ItemImpl {
    syn::parse_str::<syn::ItemImpl>(code).expect("an impl block")
}

fn method_names(item: &syn::ItemImpl) -> Vec<String> {
    item.items
        .iter()
        .map(|i| match i {
            syn::ImplItem::Fn(f) => f.sig.ident.to_string(),
            _ => panic!("not a function"),
        })
        .collect()
}

#[test]
fn statements_of_the_steps() {
    let c = config();
    assert_eq!(
        quote_align("4", &c),
        "let (i, _) = { let offset = i.as_ptr() as usize - orig_i.as_ptr() as usize; \
         let align = 4 as usize; let align = ((align - (offset % align)) % align); \
         nom::bytes::streaming::take(align)(i) }?; "
    );
    assert_eq!(
        quote_skip("n + 1", &c),
        "let (i, _) = { let skip = n + 1 as usize; nom::bytes::streaming::take(skip)(i) }?; "
    );
    assert_eq!(
        quote_move("-4", &c),
        "let i = { let start = orig_i.as_ptr() as usize; let pos = i.as_ptr() as usize - start; \
         let offset = -4 as isize; let offset_u = offset.abs() as usize; \
         let new_offset = if offset < 0 { if offset_u > pos { \
         return Err(nom::Err::Error(nom::error::make_error(i, nom::error::ErrorKind::Verify))); } \
         pos - offset_u } else { if pos + offset_u > orig_i.len() { \
         return Err(nom::Err::Incomplete(nom::Needed::new(offset_u))); } pos + offset_u }; \
         &orig_i[new_offset..] }; "
    );
    assert_eq!(
        quote_move_abs("16", &c),
        "let i = { let offset = 16 as usize; if offset > orig_i.len() { \
         return Err(nom::Err::Incomplete(nom::Needed::new(offset))); } &orig_i[offset..] }; "
    );
    assert_eq!(
        quote_error_if("a != 0", &c),
        "if a != 0 { return Err(nom::Err::Error(nom::error::make_error(i, \
         nom::error::ErrorKind::Verify))); } "
    );
    assert_eq!(
        Step::Exact.to_tokens(&c),
        "if !i.is_empty() { return Err(nom::Err::Error(nom::error::make_error(i, \
         nom::error::ErrorKind::Verify))); } "
    );
    assert_eq!(Step::SetEndian("e".to_string()).to_tokens(&c), "let __endianness = e; ");
    assert_eq!(Step::Exec("let c = b + 1;".to_string()).to_tokens(&c), "let c = b + 1; ");
    let steps = vec![Step::Exec("a;".to_string()), Step::SetEndian("e".to_string())];
    assert_eq!(steps_to_tokens(&steps, &c), "a; let __endianness = e; ");
    assert_eq!(steps_to_tokens(&Vec::new(), &c), "");
}

#[test]
fn statements_name_the_input_of_the_struct() {
    let list = vec![nom_derive::meta::attr::MetaAttr::from_meta(&list("InputName", "iii")).unwrap()];
    let c = Config::from_meta_list("S".to_string(), &list).unwrap();
    assert_eq!(
        quote_skip("2", &c),
        "let (iii, _) = { let skip = 2 as usize; nom::bytes::streaming::take(skip)(iii) }?; "
    );
    assert_eq!(
        quote_move_abs("2", &c),
        "let iii = { let offset = 2 as usize; if offset > orig_iii.len() { \
         return Err(nom::Err::Incomplete(nom::Needed::new(offset))); } &orig_iii[offset..] }; "
    );
}

#[test]
fn code_of_a_struct() {
    let ast = strukt("S", vec![], vec![field("a", t("u32"))]);
    let code = generate(&ast);
    assert_eq!(
        code,
        "impl<'nom> nom_derive::Parse<&'nom [u8], nom::error::Error<&'nom [u8]>> for S where  { \
         fn parse_be(orig_i: &'nom [u8]) -> nom::IResult<&'nom [u8], Self> where { \
         let i = orig_i; let (i, a) = <u32>::parse_be(i)?; let struct_def = S { a }; \
         Ok((i, struct_def)) } \
         fn parse_le(orig_i: &'nom [u8]) -> nom::IResult<&'nom [u8], Self> where { \
         let i = orig_i; let (i, a) = <u32>::parse_le(i)?; let struct_def = S { a }; \
         Ok((i, struct_def)) } \
         fn parse(orig_i: &'nom [u8]) -> nom::IResult<&'nom [u8], Self> { \
         Self::parse_be(orig_i) } }"
    );
    let item = well_formed(&code);
    assert_eq!(method_names(&item), vec!["parse_be", "parse_le", "parse"]);
}

#[test]
fn body_of_a_struct() {
    let ast = strukt(
        "S",
        vec![list("PreExec", "let n = 2;"), path("Exact")],
        vec![
            field_with("a", t("u8"), vec![list("SkipAfter", "1")]),
            field_with("b", vec_of(t("u16")), vec![list("Count", "n"), path("Complete")]),
        ],
    );
    let g = Generated::from_ast(&ast, ParserEndianness::Unspecified).unwrap();
    assert_eq!(
        g.gen_fn_body(ParserEndianness::LittleEndian),
        "let i = orig_i; let n = 2 ; \
         let (i, a) = <u8>::parse_le(i)?; \
         let (i, _) = { let skip = 1 as usize; nom::bytes::streaming::take(skip)(i) }?; \
         let (i, b) = nom::multi::count(nom::combinator::complete(<u16>::parse_le), n as usize)(i)?; \
         let struct_def = S { a, b }; \
         if !i.is_empty() { return Err(nom::Err::Error(nom::error::make_error(i, \
         nom::error::ErrorKind::Verify))); } Ok((i, struct_def))"
    );
    well_formed(&g.gen_impl().unwrap());
}

#[test]
fn code_of_a_tuple_and_of_a_unit() {
    let ast = tuple_struct("T", vec![], vec![t("u8"), t("u16")]);
    let g = Generated::from_ast(&ast, ParserEndianness::Unspecified).unwrap();
    assert_eq!(
        g.gen_fn_body(ParserEndianness::BigEndian),
        "let i = orig_i; let (i, _0) = <u8>::parse_be(i)?; let (i, _1) = <u16>::parse_be(i)?; \
         let struct_def = T(_0, _1); Ok((i, struct_def))"
    );
    let ast =
        declaration("U", vec![], Data::Struct(DataStruct { fields: Fields::Unit }));
    let g = Generated::from_ast(&ast, ParserEndianness::Unspecified).unwrap();
    assert_eq!(
        g.gen_fn_body(ParserEndianness::BigEndian),
        "let i = orig_i; let struct_def = U; Ok((i, struct_def))"
    );
    well_formed(&g.gen_impl().unwrap());
}

fn u7() -> DeriveInput {
    enumeration(
        "U7",
        vec![Attribute::nom(vec![name_value("Selector", "MessageType")])],
        vec![
            variant("Field2", vec![name_value("Selector", "_")], unnamed(vec![t("u32")])),
            variant(
                "Field1",
                vec![name_value("Selector", "MessageType(0)")],
                Fields::Named(vec![field("a", t("u32"))]),
            ),
            variant("Field3", vec![name_value("Selector", "MessageType(1)")], Fields::Unit),
        ],
    )
}

#[test]
fn code_of_an_enum() {
    let g = Generated::from_ast(&u7(), ParserEndianness::Unspecified).unwrap();
    assert_eq!(
        g.gen_fn_body(ParserEndianness::BigEndian),
        "let i = orig_i; let (i, enum_def) = match selector { \
         MessageType (0) => { let (i, a) = <u32>::parse_be(i)?; \
         let struct_def = (U7::Field1 { a }); Ok((i, struct_def)) }, \
         MessageType (1) => { let (i, _) = { |__i__| Ok((__i__, ())) }(i)?; \
         let struct_def = (U7::Field3); Ok((i, struct_def)) }, \
         _ => { let (i, _0) = <u32>::parse_be(i)?; \
         let struct_def = (U7::Field2(_0)); Ok((i, struct_def)) }, \
         }?; Ok((i, enum_def))"
    );
    let code = g.gen_impl().unwrap();
    assert!(code.starts_with("impl<'nom> U7 where  { pub fn parse_be(orig_i: &'nom [u8], selector: MessageType) -> nom::IResult<&'nom [u8], Self> where { "));
    assert!(code.ends_with("pub fn parse(orig_i: &'nom [u8], selector: MessageType) -> nom::IResult<&'nom [u8], Self> { Self::parse_be(orig_i, selector) } }"));
    let item = well_formed(&code);
    assert!(item.trait_.is_none());
}

#[test]
fn code_of_an_enum_without_a_default_variant() {
    let ast = enumeration(
        "U1",
        vec![Attribute::nom(vec![name_value("Selector", "u8")])],
        vec![variant("Field1", vec![name_value("Selector", "0")], unnamed(vec![t("u32")]))],
    );
    let g = Generated::from_ast(&ast, ParserEndianness::Unspecified).unwrap();
    assert_eq!(
        g.gen_fn_body(ParserEndianness::LittleEndian),
        "let i = orig_i; let (i, enum_def) = match selector { \
         0 => { let (i, _0) = <u32>::parse_le(i)?; \
         let struct_def = (U1::Field1(_0)); Ok((i, struct_def)) }, \
         _ => Err(nom::Err::Error(nom::error_position!(i, nom::error::ErrorKind::Switch))) \
         }?; Ok((i, enum_def))"
    );
    well_formed(&g.gen_impl().unwrap());
}

#[test]
fn code_of_an_enum_without_fields() {
    let ast = enumeration(
        "U6",
        vec![
            Attribute::repr("u8"),
            Attribute::nom(vec![list("PostExec", "check(&enum_def);")]),
        ],
        vec![unit_variant("A", None), unit_variant("B", Some(2))],
    );
    let g = Generated::from_ast(&ast, ParserEndianness::Unspecified).unwrap();
    assert_eq!(
        g.gen_fn_body(ParserEndianness::BigEndian),
        "let i = orig_i; let (i, selector) = <u8>::parse_be(i)?; \
         let enum_def = if selector == U6::A as u8 { U6::A } else \
         if selector == U6::B as u8 { U6::B } else \
         { return Err(nom::Err::Error(nom::error::make_error(orig_i, \
         nom::error::ErrorKind::Switch))); }; check (& enum_def) ; Ok((i, enum_def))"
    );
    well_formed(&g.gen_impl().unwrap());
}

#[test]
fn a_fixed_byte_order_leaves_one_body() {
    let ast = strukt("S", vec![path("LittleEndian")], vec![field("a", t("u32"))]);
    let g = Generated::from_ast(&ast, ParserEndianness::Unspecified).unwrap();
    assert!(has_impl_for_endianness(g.config(), ParserEndianness::LittleEndian));
    assert!(!has_impl_for_endianness(g.config(), ParserEndianness::BigEndian));
    assert_eq!(
        g.gen_parse_be().unwrap(),
        "fn parse_be(orig_i: &'nom [u8]) -> nom::IResult<&'nom [u8], Self> where \
         { Self::parse_le(orig_i) } "
    );
    assert_eq!(
        g.gen_parse_le().unwrap(),
        "fn parse_le(orig_i: &'nom [u8]) -> nom::IResult<&'nom [u8], Self> where \
         { let i = orig_i; let (i, a) = <u32>::parse_le(i)?; let struct_def = S { a }; \
         Ok((i, struct_def)) } "
    );
    let free = Generated::from_ast(
        &strukt("S", vec![], vec![field("a", t("u32"))]),
        ParserEndianness::Unspecified,
    )
    .unwrap();
    assert!(has_impl_for_endianness(free.config(), ParserEndianness::LittleEndian));
    assert!(has_impl_for_endianness(free.config(), ParserEndianness::BigEndian));
    let set = Generated::from_ast(
        &strukt("S", vec![list("SetEndian", "e")], vec![field("a", t("u32"))]),
        ParserEndianness::Unspecified,
    )
    .unwrap();
    assert!(has_impl_for_endianness(set.config(), ParserEndianness::BigEndian));
    assert!(has_impl_for_endianness(set.config(), ParserEndianness::LittleEndian));
}

#[test]
fn entry_points_of_the_derives() {
    let ast = strukt("S", vec![], vec![field("a", t("u32"))]);
    let be = nom_derive::nom_be(&ast).unwrap();
    assert!(be.contains("fn parse_le(orig_i: &'nom [u8]) -> nom::IResult<&'nom [u8], Self> where { Self::parse_be(orig_i) } "));
    assert!(be.contains("let (i, a) = <u32>::parse_be(i)?;"));
    assert!(!be.contains("<u32>::parse_le"));
    let le = nom_derive::nom_le(&ast).unwrap();
    assert!(le.contains("fn parse_be(orig_i: &'nom [u8]) -> nom::IResult<&'nom [u8], Self> where { Self::parse_le(orig_i) } "));
    assert!(le.contains("let (i, a) = <u32>::parse_le(i)?;"));
    let any = nom_derive::nom(&ast).unwrap();
    assert!(any.contains("<u32>::parse_le") && any.contains("<u32>::parse_be"));
    assert_eq!(nom_derive::gen::gen_impl(&ast, ParserEndianness::Unspecified).unwrap(), any);
}

#[test]
fn arguments_of_the_functions() {
    let ast = enumeration(
        "U1",
        vec![Attribute::nom(vec![
            list("ExtraArgs", "endian: Endianness, n: u8"),
            list("SetEndian", "endian"),
            name_value("Selector", "MessageType"),
        ])],
        vec![variant("Field1", vec![name_value("Selector", "_")], unnamed(vec![t("u32")]))],
    );
    let g = Generated::from_ast(&ast, ParserEndianness::Unspecified).unwrap();
    assert_eq!(
        get_fn_args(g.extra_args(), g.config()),
        vec!["orig_i: &'nom [u8]", "selector: MessageType", "endian : Endianness", "n : u8"]
    );
    assert_eq!(
        get_call_args(g.extra_args(), g.config()).unwrap(),
        vec!["orig_i", "selector", "endian", "n"]
    );
    assert_eq!(
        gen_fn_decl(ParserEndianness::BigEndian, g.extra_args(), g.config()),
        "pub fn parse_be(orig_i: &'nom [u8], selector: MessageType, endian : Endianness, n : u8) \
         -> nom::IResult<&'nom [u8], Self> where "
    );
    let code = g.gen_impl().unwrap();
    assert!(code.contains("{ Self::parse_be(orig_i, selector, endian, n) }"));
    assert!(code.contains("let __endianness = endian; "));
    well_formed(&code);
}

#[test]
fn arguments_without_extra_ones() {
    let c = config();
    assert_eq!(get_fn_args(&None, &c), vec!["orig_i: &'nom [u8]"]);
    assert_eq!(get_call_args(&None, &c).unwrap(), vec!["orig_i"]);
    assert_eq!(
        gen_fn_decl(ParserEndianness::Unspecified, &None, &c),
        "fn parse(orig_i: &'nom [u8]) -> nom::IResult<&'nom [u8], Self> where "
    );
    assert_eq!(
        gen_fn_decl(ParserEndianness::LittleEndian, &None, &c),
        "fn parse_le(orig_i: &'nom [u8]) -> nom::IResult<&'nom [u8], Self> where "
    );
}

#[test]
fn extra_arguments_that_cannot_be_passed_on() {
    let c = config();
    let extra = |source: &str| {
        let a = nom_derive::meta::attr::MetaAttr::from_meta(&list("ExtraArgs", source)).unwrap();
        Some(a.fn_args)
    };
    let e = get_call_args(&extra("self, n: u8"), &c).expect_err("self");
    assert_eq!(e.kind, ErrorKind::InvalidExtraArgs);
    assert_eq!(e.detail, "self");
    assert_eq!(e.message(), "Nom-derive: cannot use the extra arguments: self");
    assert_eq!(get_fn_args(&extra("self, n: u8"), &c), vec!["orig_i: &'nom [u8]", "self", "n : u8"]);
    let e = get_call_args(&extra("(a, b): (u8, u8)"), &c).expect_err("a pattern");
    assert_eq!(e.kind, ErrorKind::InvalidExtraArgs);
    let e = nom_derive::meta::attr::MetaAttr::from_meta(&list("ExtraArgs", "not arguments"))
        .expect_err("no arguments");
    assert_eq!(e.kind, ErrorKind::InvalidArgument);
    assert_eq!(e.detail, "not arguments");
    assert_eq!(get_call_args(&extra(""), &c).unwrap(), vec!["orig_i"]);
}

#[test]
fn generic_errors() {
    let ast = strukt("S1", vec![path("GenericErrors")], vec![field("a", t("u32"))]);
    let code = generate(&ast);
    assert!(code.starts_with(
        "impl<'nom, NomErr> nom_derive::Parse<&'nom [u8], NomErr> for S1 \
         where NomErr: nom::error::ParseError<&'nom [u8]> { "
    ));
    assert!(code.contains(
        "fn parse_be(orig_i: &'nom [u8]) -> nom::IResult<&'nom [u8], Self, NomErr> where { "
    ));
    assert!(code.contains(
        "fn parse(orig_i: &'nom [u8]) -> nom::IResult<&'nom [u8], Self, NomErr> { Self::parse_be(orig_i) } "
    ));
    well_formed(&code);
}

#[test]
fn generic_errors_with_a_selector() {
    let ast = enumeration(
        "U1",
        vec![Attribute::nom(vec![path("GenericErrors"), name_value("Selector", "u8")])],
        vec![variant("Field1", vec![name_value("Selector", "_")], unnamed(vec![t("u32")]))],
    );
    let code = generate(&ast);
    assert!(code.starts_with("impl<'nom> U1 where  { "));
    assert!(code.contains(
        "pub fn parse_be<NomErr>(orig_i: &'nom [u8], selector: u8) -> \
         nom::IResult<&'nom [u8], Self, NomErr> where \
         NomErr: nom_derive::nom::error::ParseError<&'nom [u8]>, NomErr: std::fmt::Debug{ "
    ));
    assert!(code.contains(
        "pub fn parse<NomErr>(orig_i: &'nom [u8], selector: u8) -> \
         nom::IResult<&'nom [u8], Self, NomErr> where \
         NomErr: nom_derive::nom::error::ParseError<&'nom [u8]>, NomErr: std::fmt::Debug, \
         { Self::parse_be(orig_i, selector) } "
    ));
    well_formed(&code);
}

#[test]
fn a_string_field_needs_a_bound_on_generic_errors() {
    let ast = strukt(
        "SimpleStruct1",
        vec![path("GenericErrors")],
        vec![field("b", t("String")), field("c", option(t("String")))],
    );
    let g = Generated::from_ast(&ast, ParserEndianness::BigEndian).unwrap();
    let bound = "NomErr: nom::error::FromExternalError<&'nom [u8], core::str::Utf8Error>";
    match &g {
        Generated::Struct(s) => {
            assert_eq!(s.impl_where_predicates, Some(vec![bound.to_string()]))
        }
        other => panic!("not a struct: {:?}", other),
    }
    let code = g.gen_impl().unwrap();
    assert!(code.contains(&format!(
        " where {}, NomErr: nom::error::ParseError<&'nom [u8]> {{ ",
        bound
    )));
    well_formed(&code);
    let plain = strukt("S", vec![], vec![field("b", t("String"))]);
    match Generated::from_ast(&plain, ParserEndianness::BigEndian).unwrap() {
        Generated::Struct(s) => assert_eq!(s.impl_where_predicates, None),
        other => panic!("not a struct: {:?}", other),
    }
}

#[test]
fn generics_of_the_declaration() {
    let mut ast = strukt(
        "StructWithGenerics",
        vec![],
        vec![field("s", Type::other("&'a [u8]")), field("t", t("T"))],
    );
    ast.generics.params = vec![
        GenericParam {
            kind: GenericParamKind::Lifetime,
            ident: "'a".to_string(),
            tokens: "'a".to_string(),
        },
        GenericParam {
            kind: GenericParamKind::Lifetime,
            ident: "'b".to_string(),
            tokens: "'b: 'a".to_string(),
        },
        GenericParam {
            kind: GenericParamKind::Type,
            ident: "T".to_string(),
            tokens: "T: Clone".to_string(),
        },
        GenericParam {
            kind: GenericParamKind::Const,
            ident: "N".to_string(),
            tokens: "const N: usize".to_string(),
        },
    ];
    ast.generics.where_predicates = vec!["T: Default".to_string()];
    let ast = DeriveInput {
        data: Data::Struct(DataStruct {
            fields: Fields::Named(vec![
                field_with("s", Type::other("&'a [u8]"), vec![list("Take", "4")]),
                field("t", t("T")),
            ]),
        }),
        ..ast
    };
    let code = generate(&ast);
    assert!(code.starts_with(
        "impl<'a, 'b: 'a, T: Clone, const N: usize, 'nom> \
         nom_derive::Parse<&'nom [u8], nom::error::Error<&'nom [u8]>> \
         for StructWithGenerics<'a, 'b, T, N> \
         where T: Default, 'nom: 'a + 'b, T: Parse<&'nom [u8]> { "
    ));
    assert!(code.contains("let (i, t) = <T>::parse_be(i)?;"));
}

#[test]
fn set_debug_keeps_what_was_asked() {
    let ast = strukt("S", vec![path("DebugDerive")], vec![field("a", t("u32"))]);
    let mut g = Generated::from_ast(&ast, ParserEndianness::Unspecified).unwrap();
    assert!(g.config().debug_derive);
    g.set_debug(false);
    assert!(g.config().debug_derive);
    let ast = strukt("S", vec![], vec![field("a", t("u32"))]);
    let mut g = Generated::from_ast(&ast, ParserEndianness::Unspecified).unwrap();
    assert!(!g.config().debug_derive);
    let before = g.gen_impl().unwrap();
    g.set_debug(true);
    assert!(g.config().debug_derive);
    assert_eq!(g.name(), "S");
    assert_eq!(g.gen_impl().unwrap(), before);
}
