#![allow(dead_code, unused_imports)]

use nom_derive::decode::error::{DecodeError, DecodeErrorKind};
use nom_derive::decode::host::{Answer, Query, Request};
use nom_derive::decode::record::Outcome;
use nom_derive::decode::value::{Binding, Endianness, Shape, Value};
use nom_derive::endian::ParserEndianness;
use nom_derive::enums::{Data, DataEnum, Variant};
use nom_derive::gen::generator::Generics;
use nom_derive::gen::{DeriveInput, Generated};
use nom_derive::meta::attr::Meta;
use nom_derive::meta::error::{ErrorKind, MetaError, Span};
use nom_derive::meta::Attribute;
use nom_derive::structs::{DataStruct, Field, Fields};
use nom_derive::types::Type;

type Decoded = Result<(usize, Value), DecodeError>;

/// A compiled declaration, with the code of the host for its arguments.
struct Parser<'h> {
    plan: Generated,
    host: Box<dyn Fn(&Request, &[u8]) -> Answer + 'h>,
}

impl<'h> Parser<'h> {
    fn new(ast: DeriveInput, host: impl Fn(&Request, &[u8]) -> Answer + 'h) -> Parser<'h> {
        Parser::with_entry(ast, ParserEndianness::Unspecified, host)
    }

    fn with_entry(
        ast: DeriveInput,
        entry: ParserEndianness,
        host: impl Fn(&Request, &[u8]) -> Answer + 'h,
    ) -> Parser<'h> {
        let plan = Generated::from_ast(&ast, entry).expect("a valid declaration");
        Parser { plan, host: Box::new(host) }
    }

    fn run(&self, entry: ParserEndianness, input: &[u8], args: Vec<Binding>) -> Decoded {
        let mut answers = Vec::new();
        loop {
            match self.plan.decode(entry, input, &args, &answers) {
                Outcome::Done(r) => return r,
                Outcome::Ask(q) => answers.push((self.host)(&q, input)),
            }
        }
    }

    fn parse(&self, input: &[u8]) -> Decoded {
        self.run(ParserEndianness::BigEndian, input, Vec::new())
    }

    fn parse_be(&self, input: &[u8]) -> Decoded {
        self.run(ParserEndianness::BigEndian, input, Vec::new())
    }

    fn parse_le(&self, input: &[u8]) -> Decoded {
        self.run(ParserEndianness::LittleEndian, input, Vec::new())
    }

    fn select(&self, input: &[u8], selector: Value) -> Decoded {
        self.run(ParserEndianness::BigEndian, input, vec![Binding::new("selector", selector)])
    }

    /// The answer to a question that asks for this parser at `pos`.
    fn at(&self, input: &[u8], pos: usize, big_endian: bool, args: Vec<Binding>) -> Answer {
        let entry =
            if big_endian { ParserEndianness::BigEndian } else { ParserEndianness::LittleEndian };
        match self.run(entry, &input[pos..], args) {
            Ok((used, value)) => Answer::Parsed(pos + used, value),
            Err(e) => Answer::Failed(e),
        }
    }
}

fn no_host(q: &Request, _input: &[u8]) -> Answer {
    panic!("unexpected question: {:?}", q.query)
}

/// The code without its white space.
fn squeeze(code: &str) -> String {
    code.chars().filter(|c| !c.is_whitespace()).collect()
}

/// The value bound to `name` where the question is put.
fn bound<'a>(q: &'a Request, name: &str) -> &'a Value {
    &q.scope.iter().rev().find(|b| b.name == name).expect("a bound name").value
}

fn number(v: &Value) -> i128 {
    match v {
        Value::UInt(n) => *n as i128,
        Value::Int(n) => *n,
        other => panic!("not a number: {:?}", other),
    }
}

/// The value of an integer literal.
fn literal(code: &str) -> Option<Value> {
    let text = squeeze(code);
    match text.strip_prefix('-') {
        Some(rest) => rest.parse::<i128>().ok().map(|n| Value::Int(-n)),
        None => text.parse::<u128>().ok().map(Value::UInt),
    }
}

/// The answer that stands for the result of a parser of `nom`.
fn from_nom<O>(
    input: &[u8],
    result: nom::IResult<&[u8], O>,
    value: impl Fn(O) -> Value,
) -> Answer {
    match result {
        Ok((rest, out)) => Answer::Parsed(input.len() - rest.len(), value(out)),
        Err(nom::Err::Incomplete(nom::Needed::Size(n))) => {
            Answer::Failed(DecodeError::Incomplete(n.get()))
        }
        Err(nom::Err::Incomplete(nom::Needed::Unknown)) => {
            Answer::Failed(DecodeError::Incomplete(0))
        }
        Err(nom::Err::Error(e)) => Answer::Failed(DecodeError::Error(
            DecodeErrorKind::Host,
            input.len() - e.input.len(),
        )),
        Err(nom::Err::Failure(e)) => Answer::Failed(DecodeError::Failure(
            DecodeErrorKind::Host,
            input.len() - e.input.len(),
        )),
    }
}

fn path(name: &str) -> Meta {
    Meta::path(name)
}

fn list(name: &str, tokens: &str) -> Meta {
    Meta::list(name, tokens)
}

fn name_value(name: &str, value: &str) -> Meta {
    Meta::name_value(name, value)
}

fn t(name: &str) -> Type {
    Type::named(name)
}

fn option(inner: Type) -> Type {
    Type::generic("Option", inner)
}

fn vec_of(inner: Type) -> Type {
    Type::generic("Vec", inner)
}

fn field(name: &str, ty: Type) -> Field {
    Field::named(name, ty, Vec::new())
}

fn field_with(name: &str, ty: Type, metas: Vec<Meta>) -> Field {
    Field::named(name, ty, metas)
}

fn declaration(name: &str, top: Vec<Attribute>, data: Data) -> DeriveInput {
    DeriveInput {
        ident: name.to_string(),
        span: Span::call_site(),
        attrs: top,
        generics: Generics::none(),
        data,
    }
}

fn strukt(name: &str, top: Vec<Meta>, fields: Vec<Field>) -> DeriveInput {
    declaration(
        name,
        vec![Attribute::nom(top)],
        Data::Struct(DataStruct { fields: Fields::Named(fields) }),
    )
}

fn tuple_struct(name: &str, top: Vec<Meta>, types: Vec<Type>) -> DeriveInput {
    let fields = types.into_iter().map(|ty| Field::unnamed(ty, Vec::new())).collect();
    declaration(
        name,
        vec![Attribute::nom(top)],
        Data::Struct(DataStruct { fields: Fields::Unnamed(fields) }),
    )
}

fn variant(name: &str, metas: Vec<Meta>, fields: Fields) -> Variant {
    Variant {
        ident: name.to_string(),
        fields,
        attrs: vec![Attribute::nom(metas)],
        discriminant: None,
        span: Span::call_site(),
    }
}

fn unit_variant(name: &str, discriminant: Option<i128>) -> Variant {
    Variant {
        ident: name.to_string(),
        fields: Fields::Unit,
        attrs: Vec::new(),
        discriminant,
        span: Span::call_site(),
    }
}

fn enumeration(name: &str, top: Vec<Attribute>, variants: Vec<Variant>) -> DeriveInput {
    declaration(name, top, Data::Enum(DataEnum { variants }))
}

fn unnamed(types: Vec<Type>) -> Fields {
    Fields::Unnamed(types.into_iter().map(|ty| Field::unnamed(ty, Vec::new())).collect())
}

fn named(name: &str, fields: Vec<(&str, Value)>) -> Value {
    Value::Struct {
        name: name.to_string(),
        shape: Shape::Named,
        names: fields.iter().map(|f| f.0.to_string()).collect(),
        values: fields.into_iter().map(|f| f.1).collect(),
    }
}

fn tuple(name: &str, values: Vec<Value>) -> Value {
    Value::Struct {
        name: name.to_string(),
        shape: Shape::Tuple,
        names: (0..values.len()).map(|i| format!("_{}", i)).collect(),
        values,
    }
}

fn unit(name: &str) -> Value {
    Value::Struct {
        name: name.to_string(),
        shape: Shape::Unit,
        names: Vec::new(),
        values: Vec::new(),
    }
}

fn some(v: Value) -> Value {
    Value::Present(Box::new(v))
}

fn uints(values: &[u128]) -> Value {
    Value::List(values.iter().map(|n| Value::UInt(*n)).collect())
}

use nom_derive::enums::{get_repr, get_selector, is_input_fieldless_enum, parse_variant};
use nom_derive::gen::enums::GenEnum;
use nom_derive::gen::fieldless_enums::GenFieldlessEnum;
use nom_derive::gen::generator::{get_extra_args, TopLevel};
use nom_derive::gen::structs::{add_extra_where_predicates, GenStruct};
use nom_derive::config::Config;
use nom_derive::meta::attr::{MetaAttr, MetaAttrType};
use nom_derive::parsertree::ParserExpr;
use nom_derive::structs::Step;

fn at(n: usize) -> Span {
    Span { start: n, end: n + 1 }
}

fn with_selector(patterns: &[&str]) -> GenEnum {
    let variants: Vec<Variant> = patterns
        .iter()
        .enumerate()
        .map(|(i, p)| {
            variant(&format!("V{}", i), vec![name_value("Selector", p)], unnamed(vec![t("u8")]))
        })
        .collect();
    GenEnum::from_data_enum(
        &"E".to_string(),
        Span::call_site(),
        &DataEnum { variants },
        &[Attribute::nom(vec![name_value("Selector", "u8")])],
        &Generics::none(),
        ParserEndianness::Unspecified,
    )
    .unwrap()
}

#[test]
fn the_default_variant_is_tested_last() {
    assert_eq!(with_selector(&["_", "0", "1"]).match_order(), vec![1, 2, 0]);
    assert_eq!(with_selector(&["0", "_", "1"]).match_order(), vec![0, 2, 1]);
    assert_eq!(with_selector(&["0", "1", "_"]).match_order(), vec![0, 1, 2]);
    assert_eq!(with_selector(&["0", "1", "2"]).match_order(), vec![0, 1, 2]);
    assert_eq!(with_selector(&["_"]).match_order(), vec![0]);
    assert_eq!(with_selector(&[]).match_order(), Vec::<usize>::new());
    assert_eq!(with_selector(&["_", "0", "_", "1"]).match_order(), vec![1, 3, 0, 2]);
    assert_eq!(with_selector(&["x", "_ if c", "_"]).match_order(), vec![0, 1, 2]);
}

#[test]
fn relocating_twice_changes_nothing() {
    for patterns in [&["_", "0", "1"][..], &["0", "_", "1", "2"][..], &["0", "1"][..]] {
        let once = with_selector(patterns).match_order();
        let relocated: Vec<&str> = once.iter().map(|i| patterns[*i]).collect();
        let twice = with_selector(&relocated).match_order();
        assert_eq!(twice, (0..patterns.len()).collect::<Vec<usize>>());
    }
}

#[test]
fn arms_follow_the_order_of_the_tests() {
    let e = with_selector(&["_", "0", "1"]);
    let (handled, arms) = e.gen_variants(ParserEndianness::BigEndian);
    assert!(handled);
    assert_eq!(arms.len(), 3);
    assert!(arms[0].starts_with("0 => { "));
    assert!(arms[1].starts_with("1 => { "));
    assert!(arms[2].starts_with("_ => { "));
    assert!(arms[2].contains("E::V0(_0)"));
    let (handled, arms) = with_selector(&["0"]).gen_variants(ParserEndianness::BigEndian);
    assert!(!handled);
    assert_eq!(arms.len(), 1);
}

#[test]
fn a_guard_can_shadow_a_later_variant() {
    let host = |q: &Request, _input: &[u8]| match &q.query {
        Query::Matches { code } => match squeeze(code).as_str() {
            "xifx>1" => Answer::Value(Value::Bool(number(bound(q, "selector")) > 1)),
            "2" => Answer::Value(Value::Bool(number(bound(q, "selector")) == 2)),
            other => panic!("unknown pattern: {}", other),
        },
        other => panic!("unexpected question: {:?}", other),
    };
    let e = Parser::new(
        enumeration(
            "E",
            vec![Attribute::nom(vec![name_value("Selector", "u8")])],
            vec![
                variant("Other", vec![list("Selector", "_")], Fields::Unit),
                variant("Big", vec![list("Selector", "x if x > 1")], Fields::Unit),
                variant("Two", vec![list("Selector", "2")], Fields::Unit),
            ],
        ),
        host,
    );
    assert_eq!(e.select(b"", Value::UInt(2)), Ok((0, unit("E::Big"))));
    assert_eq!(e.select(b"", Value::UInt(1)), Ok((0, unit("E::Other"))));
}

#[test]
fn plan_of_a_variant() {
    let c = Config::from_meta_list("E".to_string(), &[]).unwrap();
    let v = variant("A", vec![name_value("Selector", "1"), path("Complete")], unnamed(vec![t("u8")]));
    let plan = parse_variant(&v, &c).unwrap();
    assert_eq!(plan.ident, "A");
    assert_eq!(plan.selector_type, "1");
    assert_eq!(plan.struct_def.parsers.len(), 1);
    assert!(plan.struct_def.unnamed);

    let unit_with_parser = variant(
        "B",
        vec![
            name_value("Selector", "2"),
            name_value("Parse", "first"),
            list("SkipBefore", "1"),
            name_value("Parse", "second"),
        ],
        Fields::Unit,
    );
    let plan = parse_variant(&unit_with_parser, &c).unwrap();
    assert!(plan.struct_def.empty);
    assert_eq!(plan.struct_def.parsers.len(), 1);
    assert_eq!(plan.struct_def.parsers[0].name, "_");
    assert_eq!(plan.struct_def.parsers[0].item.ident.as_deref(), Some("B"));
    assert_eq!(plan.struct_def.parsers[0].item.expr, ParserExpr::Raw("second".to_string()));
    assert_eq!(plan.struct_def.parsers[0].pre_exec, vec![Step::Skip("1".to_string())]);

    let bare = variant("C", vec![name_value("Selector", "3")], Fields::Unit);
    let plan = parse_variant(&bare, &c).unwrap();
    assert_eq!(plan.struct_def.parsers[0].item.expr, ParserExpr::Nop);

    let mut missing = variant("D", vec![path("Complete")], Fields::Unit);
    missing.span = at(4);
    let e = parse_variant(&missing, &c).expect_err("no selector");
    assert_eq!(
        e,
        MetaError { kind: ErrorKind::MissingSelector, span: at(4), detail: "D".to_string() }
    );
}

#[test]
fn a_unit_variant_with_a_parser_of_its_own() {
    let host = |q: &Request, _input: &[u8]| match &q.query {
        Query::Matches { code } => Answer::Value(Value::Bool(
            number(bound(q, "selector")) == squeeze(code).parse::<i128>().unwrap(),
        )),
        Query::Parse { code } if code == "skip_two" => Answer::Parsed(q.pos + 2, Value::Unit),
        other => panic!("unexpected question: {:?}", other),
    };
    let e = Parser::new(
        enumeration(
            "E",
            vec![Attribute::nom(vec![name_value("Selector", "u8")])],
            vec![
                variant("A", vec![name_value("Selector", "0")], Fields::Unit),
                variant(
                    "B",
                    vec![name_value("Selector", "1"), name_value("Parse", "skip_two")],
                    Fields::Unit,
                ),
            ],
        ),
        host,
    );
    assert_eq!(e.select(b"abc", Value::UInt(0)), Ok((0, unit("E::A"))));
    assert_eq!(e.select(b"abc", Value::UInt(1)), Ok((2, unit("E::B"))));
}

#[test]
fn selector_and_extra_arguments_of_a_list() {
    let list = vec![
        MetaAttr::new(MetaAttrType::Selector, Some("a".to_string()), at(0)),
        MetaAttr::new(MetaAttrType::ExtraArgs, Some("x : u8".to_string()), at(1)),
        MetaAttr::new(MetaAttrType::Selector, Some("b".to_string()), at(2)),
    ];
    assert_eq!(get_selector(&list), Some("a".to_string()));
    assert_eq!(get_extra_args(&list), Some(Vec::new()));
    let read = vec![MetaAttr::from_meta(&Meta::list("ExtraArgs", "x: u8")).unwrap()];
    let extra = get_extra_args(&read).expect("extra arguments");
    assert_eq!(extra.len(), 1);
    assert_eq!(extra[0].name.as_deref(), Some("x"));
    assert_eq!(extra[0].tokens, "x : u8");
    assert_eq!(get_selector(&[]), None);
    assert_eq!(get_extra_args(&[]), None);
}

#[test]
fn representation_of_an_enum() {
    let derive = Attribute { path: "derive".to_string(), metas: vec![path("Debug")], span: at(0) };
    let packed = Attribute {
        path: "repr".to_string(),
        metas: vec![path("C"), list("align", "4")],
        span: at(1),
    };
    let two = Attribute {
        path: "repr".to_string(),
        metas: vec![
            Meta::Path { name: "C".to_string(), span: at(2) },
            Meta::Path { name: "u16".to_string(), span: at(3) },
        ],
        span: at(4),
    };
    let empty = Attribute { path: "repr".to_string(), metas: vec![], span: at(5) };
    assert_eq!(get_repr(&[]), None);
    assert_eq!(get_repr(&[derive, packed, empty, two, Attribute::repr("u8")]), Some(("u16".to_string(), at(3))));
    assert_eq!(get_repr(&[Attribute::repr("i64")]), Some(("i64".to_string(), Span::call_site())));
}

#[test]
fn enums_without_fields() {
    let fieldless = Data::Enum(DataEnum { variants: vec![unit_variant("A", None), unit_variant("B", None)] });
    assert!(is_input_fieldless_enum(&fieldless));
    assert!(is_input_fieldless_enum(&Data::Enum(DataEnum { variants: vec![] })));
    let mixed = Data::Enum(DataEnum {
        variants: vec![unit_variant("A", None), variant("B", vec![], unnamed(vec![t("u8")]))],
    });
    assert!(!is_input_fieldless_enum(&mixed));
    assert!(!is_input_fieldless_enum(&Data::Struct(DataStruct { fields: Fields::Unit })));
    assert!(!is_input_fieldless_enum(&Data::Union));
}

fn fieldless(variants: Vec<Variant>, top: Vec<Attribute>, entry: ParserEndianness) -> Result<GenFieldlessEnum, MetaError> {
    GenFieldlessEnum::from_data_enum(
        &"E".to_string(),
        at(9),
        &DataEnum { variants },
        &top,
        &Generics::none(),
        entry,
    )
}

#[test]
fn discriminants() {
    let g = fieldless(
        vec![
            unit_variant("A", None),
            unit_variant("B", Some(2)),
            unit_variant("C", None),
            unit_variant("D", Some(-5)),
            unit_variant("E", None),
            unit_variant("F", Some(2)),
        ],
        vec![Attribute::repr("i8")],
        ParserEndianness::Unspecified,
    )
    .unwrap();
    let values: Vec<i128> = g.variants.iter().map(|v| v.discriminant).collect();
    assert_eq!(values, vec![0, 2, 3, -5, -4, 2]);
    assert_eq!(g.repr, "i8");
    assert_eq!(g.repr_parser.to_tokens(), "<i8>::parse");
    let run = |input: &[u8]| match g.decode(ParserEndianness::BigEndian, input, &Vec::new(), &[]) {
        Outcome::Done(r) => r,
        other => panic!("a question: {:?}", other),
    };
    assert_eq!(run(b"\x00"), Ok((1, unit("E::A"))));
    assert_eq!(run(b"\x02"), Ok((1, unit("E::B"))));
    assert_eq!(run(b"\xfb"), Ok((1, unit("E::D"))));
    assert_eq!(run(b"\xfc"), Ok((1, unit("E::E"))));
    assert_eq!(run(b"\x01"), Err(DecodeError::Error(DecodeErrorKind::Switch, 0)));
    assert_eq!(run(b""), Err(DecodeError::Incomplete(1)));
}

#[test]
fn a_discriminant_beyond_the_largest_integer() {
    let mut last = unit_variant("B", None);
    last.span = at(2);
    let e = fieldless(
        vec![unit_variant("A", Some(i128::MAX)), last],
        vec![Attribute::repr("u8")],
        ParserEndianness::Unspecified,
    )
    .expect_err("too large");
    assert_eq!(
        e,
        MetaError { kind: ErrorKind::DiscriminantOverflow, span: at(2), detail: "B".to_string() }
    );
    assert!(fieldless(
        vec![unit_variant("A", Some(i128::MAX)), unit_variant("B", Some(0))],
        vec![Attribute::repr("u8")],
        ParserEndianness::Unspecified,
    )
    .is_ok());
}

#[test]
fn byte_order_of_a_discriminant() {
    let variants = || vec![unit_variant("A", Some(1)), unit_variant("B", Some(0x0100))];
    let g = fieldless(variants(), vec![Attribute::repr("u16")], ParserEndianness::LittleEndian).unwrap();
    assert_eq!(g.repr_parser.to_tokens(), "<u16>::parse_le");
    let g = fieldless(
        variants(),
        vec![Attribute::repr("u16"), Attribute::nom(vec![path("BigEndian")])],
        ParserEndianness::Unspecified,
    )
    .unwrap();
    assert_eq!(g.repr_parser.to_tokens(), "<u16>::parse_be");
    let g = fieldless(variants(), vec![Attribute::repr("u16")], ParserEndianness::Unspecified).unwrap();
    let run = |entry| match g.decode(entry, b"\x01\x00", &Vec::new(), &[]) {
        Outcome::Done(r) => r,
        other => panic!("a question: {:?}", other),
    };
    assert_eq!(run(ParserEndianness::BigEndian), Ok((2, unit("E::B"))));
    assert_eq!(run(ParserEndianness::LittleEndian), Ok((2, unit("E::A"))));
}

#[test]
fn enums_without_fields_that_cannot_be_decoded() {
    let variants = || vec![unit_variant("A", None)];
    let e = fieldless(variants(), vec![], ParserEndianness::Unspecified).expect_err("no repr");
    assert_eq!(e, MetaError { kind: ErrorKind::MissingRepr, span: at(9), detail: "E".to_string() });
    assert_eq!(
        e.message(),
        "Nom-derive: fieldless enums must have a 'repr' or 'selector' attribute: E"
    );
    let repr = Attribute {
        path: "repr".to_string(),
        metas: vec![Meta::Path { name: "U24".to_string(), span: at(3) }],
        span: at(2),
    };
    let e = fieldless(variants(), vec![repr], ParserEndianness::Unspecified).expect_err("no primitive");
    assert_eq!(e, MetaError { kind: ErrorKind::InvalidRepr, span: at(3), detail: "U24".to_string() });
    assert_eq!(
        e.message(),
        "Nom-derive: cannot parse 'repr' content (must be a primitive type): U24"
    );
    let e = fieldless(
        variants(),
        vec![Attribute::repr("u8"), Attribute::nom(vec![list("SetEndian", "e")])],
        ParserEndianness::Unspecified,
    )
    .expect_err("no run time byte order");
    assert_eq!(e.kind, ErrorKind::UnsupportedSetEndian);
    let e = fieldless(
        variants(),
        vec![Attribute::repr("u8"), Attribute::nom(vec![list("ExtraArgs", "a: u8")])],
        ParserEndianness::Unspecified,
    )
    .expect_err("no extra arguments");
    assert_eq!(e.kind, ErrorKind::UnsupportedExtraArgs);
    for repr in ["u8", "u16", "u24", "u32", "u64", "u128", "i8", "i16", "i24", "i32", "i64", "i128"] {
        assert!(fieldless(variants(), vec![Attribute::repr(repr)], ParserEndianness::Unspecified).is_ok());
    }
    for repr in ["usize", "isize", "C", "bool"] {
        let e = fieldless(variants(), vec![Attribute::repr(repr)], ParserEndianness::Unspecified)
            .expect_err("no primitive");
        assert_eq!(e.kind, ErrorKind::InvalidRepr);
    }
}

#[test]
fn declarations_that_cannot_be_compiled() {
    let compile = |ast: &DeriveInput| Generated::from_ast(ast, ParserEndianness::Unspecified);
    // an enum with fields and without a selector
    let mut e2 = enumeration("E2", vec![], vec![variant("A", vec![], unnamed(vec![t("u32")]))]);
    e2.span = at(1);
    let e = compile(&e2).expect_err("no selector");
    assert_eq!(
        e,
        MetaError { kind: ErrorKind::EnumWithoutSelector, span: at(1), detail: "E2".to_string() }
    );
    assert_eq!(e.message(), "Nom-derive: enums must have a 'selector' attribute: E2");
    // a variant without a pattern
    let e3 = enumeration(
        "E3",
        vec![Attribute::nom(vec![name_value("Selector", "u8")])],
        vec![variant("A", vec![], unnamed(vec![t("u32")]))],
    );
    let e = compile(&e3).expect_err("no pattern");
    assert_eq!(e.kind, ErrorKind::MissingSelector);
    assert_eq!(
        e.message(),
        "Nom-derive: the 'Selector' attribute must be used to give the value of selector item: A"
    );
    // a fieldless enum without a representation
    let e1 = enumeration("E1", vec![], vec![unit_variant("A", Some(0))]);
    assert_eq!(compile(&e1).expect_err("no repr").kind, ErrorKind::MissingRepr);
    // a union
    let u = declaration("U", vec![], Data::Union);
    let e = compile(&u).expect_err("a union");
    assert_eq!(e.kind, ErrorKind::UnsupportedUnion);
    assert_eq!(e.message(), "Nom-derive: unions are not supported: U");
    // a field whose type is a path of several segments
    let s2 = strukt(
        "S2",
        vec![],
        vec![Field::named(
            "h",
            Type::Qualified { tokens: ":: std :: primitive :: u64".to_string(), span: at(2) },
            vec![],
        )],
    );
    assert_eq!(compile(&s2).expect_err("several segments").kind, ErrorKind::MultipleSegments);
    // an attribute in the wrong place
    let s = strukt("S2", vec![name_value("Parse", "be_u32")], vec![field("a", t("u32"))]);
    assert_eq!(compile(&s).expect_err("not for a struct").kind, ErrorKind::NotTopLevel);
    let s = strukt("S3", vec![], vec![field_with("a", t("u32"), vec![path("Exact")])]);
    assert_eq!(compile(&s).expect_err("not for a field").kind, ErrorKind::NotFieldLevel);
    // an enum with a selector and a variant in the wrong place
    let e = enumeration(
        "E",
        vec![Attribute::nom(vec![name_value("Selector", "u8")])],
        vec![variant("A", vec![name_value("Selector", "0"), path("Exact")], Fields::Unit)],
    );
    assert_eq!(compile(&e).expect_err("not for a variant").kind, ErrorKind::NotFieldLevel);
}

#[test]
fn a_selector_on_an_enum_without_fields() {
    let host = |q: &Request, _input: &[u8]| match &q.query {
        Query::Matches { code } if code == "0" => {
            Answer::Value(Value::Bool(number(bound(q, "selector")) == 0))
        }
        other => panic!("unexpected question: {:?}", other),
    };
    let e = Parser::new(
        enumeration(
            "U1",
            vec![Attribute::nom(vec![name_value("Selector", "u8")])],
            vec![
                variant("Foo", vec![name_value("Selector", "0")], Fields::Unit),
                variant("Bar", vec![name_value("Selector", "_")], Fields::Unit),
            ],
        ),
        host,
    );
    assert!(matches!(e.plan, Generated::Enum(_)));
    assert_eq!(e.select(b"", Value::UInt(0)), Ok((0, unit("U1::Foo"))));
    assert_eq!(e.select(b"", Value::UInt(7)), Ok((0, unit("U1::Bar"))));
}

#[test]
fn settings_of_a_declaration() {
    let attrs = vec![
        Attribute::nom(vec![list("ExtraArgs", "n: u8"), list("PreExec", "let a = 1;")]),
        Attribute::nom(vec![path("Exact"), list("InputName", "data"), path("LittleEndian")]),
    ];
    let top =
        TopLevel::from_attrs(&"S".to_string(), at(0), &attrs, ParserEndianness::Unspecified).unwrap();
    assert_eq!(top.meta.len(), 5);
    let extra = top.extra_args.as_ref().expect("extra arguments");
    assert_eq!(extra.len(), 1);
    assert_eq!(extra[0].tokens, "n : u8");
    assert_eq!(top.tl_pre, vec![Step::Exec("let a = 1 ;".to_string())]);
    assert_eq!(top.tl_post, vec![Step::Exact]);
    assert_eq!(top.config.input_name(), "data");
    assert_eq!(top.config.object_endianness, ParserEndianness::LittleEndian);
    let e = TopLevel::from_attrs(&"S".to_string(), at(0), &attrs, ParserEndianness::BigEndian)
        .expect_err("a conflict");
    assert_eq!(e.kind, ErrorKind::ObjectEndianConflict);
    let top = TopLevel::from_attrs(&"S".to_string(), at(0), &[], ParserEndianness::BigEndian).unwrap();
    assert_eq!(top.config.object_endianness, ParserEndianness::BigEndian);
    assert_eq!(top.extra_args, None);
}

#[test]
fn predicates_for_strings() {
    let tree = |generic_errors: bool| {
        let top = if generic_errors { vec![path("GenericErrors")] } else { vec![] };
        let ast = strukt(
            "S",
            top,
            vec![
                field("a", t("String")),
                field("b", t("u8")),
                field_with("c", vec_of(t("String")), vec![list("Count", "2")]),
                field_with("d", t("String"), vec![list("Value", "s")]),
            ],
        );
        match Generated::from_ast(&ast, ParserEndianness::Unspecified).unwrap() {
            Generated::Struct(s) => s,
            other => panic!("not a struct: {:?}", other),
        }
    };
    let bound = "NomErr: nom::error::FromExternalError<&'nom [u8], core::str::Utf8Error>";
    let s: GenStruct = tree(true);
    assert_eq!(
        add_extra_where_predicates(&s.parser_tree, &s.config),
        Some(vec![bound.to_string(), bound.to_string()])
    );
    let s = tree(false);
    assert_eq!(add_extra_where_predicates(&s.parser_tree, &s.config), None);
}

#[test]
fn extra_arguments_and_a_byte_order_chosen_by_the_caller() {
    let host = |q: &Request, _input: &[u8]| match &q.query {
        Query::Eval { code } if code == "endian" => Answer::Value(bound(q, "endian").duplicate()),
        Query::Matches { code } => Answer::Value(Value::Bool(
            *bound(q, "selector")
                == tuple("MessageType", vec![Value::UInt(if code.contains('0') { 0 } else { 1 })]),
        )),
        other => panic!("unexpected question: {:?}", other),
    };
    let top = || vec![list("ExtraArgs", "endian: Endianness"), list("SetEndian", "endian")];
    let s = Parser::new(
        strukt(
            "MixedEndianStruct",
            top(),
            vec![
                field("a", t("u32")),
                field("b", t("u16")),
                field_with("c", t("u16"), vec![path("BigEndian")]),
            ],
        ),
        host,
    );
    let input: &[u8] = b"\x00\x01\x02\x03\x04\x05\x06\x07";
    let run = |e: Endianness| {
        s.run(ParserEndianness::BigEndian, input, vec![Binding::new("endian", Value::Endian(e))])
    };
    let value = |a, b, c| {
        named("MixedEndianStruct", vec![("a", Value::UInt(a)), ("b", Value::UInt(b)), ("c", Value::UInt(c))])
    };
    assert_eq!(run(Endianness::Big), Ok((8, value(0x10203, 0x0405, 0x0607))));
    assert_eq!(run(Endianness::Little), Ok((8, value(0x03020100, 0x0504, 0x0607))));

    let mut all = top();
    all.push(name_value("Selector", "MessageType"));
    let u1 = Parser::new(
        enumeration(
            "U1",
            vec![Attribute::nom(all)],
            vec![
                variant("Field1", vec![name_value("Selector", "MessageType(0)")], unnamed(vec![t("u32")])),
                variant("Field2", vec![name_value("Selector", "MessageType(1)")], unnamed(vec![option(t("u32"))])),
            ],
        ),
        host,
    );
    let args = vec![
        Binding::new("selector", tuple("MessageType", vec![Value::UInt(input[0] as u128)])),
        Binding::new("endian", Value::Endian(Endianness::Big)),
    ];
    assert_eq!(
        u1.run(ParserEndianness::BigEndian, &input[1..], args),
        Ok((4, tuple("U1::Field1", vec![Value::UInt(0x01020304)])))
    );
}

#[test]
fn conversions_and_arrays() {
    let host = |q: &Request, input: &[u8]| match &q.query {
        Query::Parse { code } if code == "parser1" => {
            let rest = &input[q.pos..];
            match from_nom(rest, nom::character::streaming::alpha1(rest), |s: &[u8]| {
                Value::Bytes(s.to_vec())
            }) {
                Answer::Parsed(used, v) => Answer::Parsed(q.pos + used, v),
                other => other,
            }
        }
        Query::Convert { arg: Value::Bytes(b) } => {
            Answer::Value(Value::List(b.iter().map(|n| Value::UInt(*n as u128)).collect()))
        }
        Query::Call { ty, big_endian } if ty == "SubStruct" => Parser::new(
            strukt("SubStruct", vec![], vec![field("a", t("u8")), field("b", t("u8"))]),
            no_host,
        )
        .at(input, q.pos, *big_endian, Vec::new()),
        other => panic!("unexpected question: {:?}", other),
    };
    let s = Parser::with_entry(
        strukt(
            "IntoStruct",
            vec![],
            vec![
                field_with("a", vec_of(t("u8")), vec![path("Into"), name_value("Parse", "parser1")]),
                field("b", t("u16")),
                field("c", t("u16")),
            ],
        ),
        ParserEndianness::BigEndian,
        host,
    );
    assert_eq!(
        s.parse(b"abcd\x00\x01\x00\x02"),
        Ok((
            8,
            named(
                "IntoStruct",
                vec![("a", uints(&[97, 98, 99, 100])), ("b", Value::UInt(1)), ("c", Value::UInt(2))]
            )
        ))
    );
    let input = b"\x00\xff\x00\xff\x01\x02";
    let s = Parser::new(
        strukt(
            "StructWithArray",
            vec![],
            vec![field("a", Type::array(t("u8"), 4)), field("b", t("u8")), field("c", t("u8"))],
        ),
        host,
    );
    assert_eq!(
        s.parse(input),
        Ok((
            6,
            named(
                "StructWithArray",
                vec![("a", uints(&[0, 255, 0, 255])), ("b", Value::UInt(1)), ("c", Value::UInt(2))]
            )
        ))
    );
    let s = Parser::new(
        strukt(
            "StructWithArrayOfStructs",
            vec![],
            vec![field("a", Type::array(t("SubStruct"), 2)), field("b", t("u8")), field("c", t("u8"))],
        ),
        host,
    );
    let sub = || named("SubStruct", vec![("a", Value::UInt(0)), ("b", Value::UInt(255))]);
    assert_eq!(
        s.parse(input),
        Ok((
            6,
            named(
                "StructWithArrayOfStructs",
                vec![("a", Value::List(vec![sub(), sub()])), ("b", Value::UInt(1)), ("c", Value::UInt(2))]
            )
        ))
    );
}

#[test]
fn complete_on_a_struct_and_on_a_field() {
    const INPUT_16: &[u8] = b"\x00\x00\x00\x01\x12\x34\x56\x78\x12\x34\x56\x78\x00\x00\x00\x01";
    let fields = |second: Vec<Meta>| vec![field("a", t("u32")), field_with("b", t("u64"), second)];
    let streaming = Parser::with_entry(
        strukt("SimpleStruct1", vec![], fields(vec![])),
        ParserEndianness::BigEndian,
        no_host,
    );
    let whole = Parser::with_entry(
        strukt("SimpleStruct2", vec![path("Complete")], fields(vec![])),
        ParserEndianness::BigEndian,
        no_host,
    );
    let partly = Parser::with_entry(
        strukt("SimpleStruct3", vec![], fields(vec![path("Complete")])),
        ParserEndianness::BigEndian,
        no_host,
    );
    assert_eq!(
        streaming.parse(INPUT_16),
        Ok((
            12,
            named("SimpleStruct1", vec![("a", Value::UInt(1)), ("b", Value::UInt(0x1234567812345678))])
        ))
    );
    assert_eq!(streaming.parse(&INPUT_16[10..]), Err(DecodeError::Incomplete(8)));
    assert_eq!(
        whole.parse(&INPUT_16[10..]),
        Err(DecodeError::Error(DecodeErrorKind::Complete, 4))
    );
    assert_eq!(
        partly.parse(&INPUT_16[10..]),
        Err(DecodeError::Error(DecodeErrorKind::Complete, 4))
    );
    assert_eq!(whole.parse(&INPUT_16[14..]), Err(DecodeError::Error(DecodeErrorKind::Complete, 0)));
    assert_eq!(partly.parse(&INPUT_16[14..]), Err(DecodeError::Incomplete(4)));
}

#[test]
fn options_of_sequences() {
    const INPUT_16: &[u8] = b"\x00\x04\x00\x01\x12\x34\x56\x78\x12\x34\x56\x78\x00\x00\x00\x01";
    let host = |q: &Request, _input: &[u8]| match &q.query {
        Query::Eval { code } => match squeeze(code).as_str() {
            "a>1" => Answer::Value(Value::Bool(number(bound(q, "a")) > 1)),
            _ => Answer::Value(literal(code).expect("a literal")),
        },
        other => panic!("unexpected question: {:?}", other),
    };
    let with = |attrs: Vec<Attribute>| {
        let mut b = field("b", option(vec_of(t("u16"))));
        b.attrs = attrs;
        Parser::new(strukt("S", vec![], vec![field("a", t("u16")), b]), host)
    };
    let value = |a: u128, b: Value| named("S", vec![("a", Value::UInt(a)), ("b", b)]);
    let s1 = with(vec![]);
    assert_eq!(
        s1.parse(INPUT_16),
        Ok((16, value(4, some(uints(&[1, 0x1234, 0x5678, 0x1234, 0x5678, 0, 1])))))
    );
    assert_eq!(
        s1.parse_le(INPUT_16),
        Ok((16, value(0x400, some(uints(&[0x100, 0x3412, 0x7856, 0x3412, 0x7856, 0, 0x100])))))
    );
    let s2 = with(vec![Attribute::nom(vec![name_value("Cond", "a > 1")])]);
    assert_eq!(
        s2.parse(INPUT_16),
        Ok((16, value(4, some(uints(&[1, 0x1234, 0x5678, 0x1234, 0x5678, 0, 1])))))
    );
    let s3 = with(vec![
        Attribute::nom(vec![name_value("Cond", "a > 1")]),
        Attribute::nom(vec![name_value("Count", "4")]),
    ]);
    assert_eq!(s3.parse(INPUT_16), Ok((10, value(4, some(uints(&[1, 0x1234, 0x5678, 0x1234]))))));
    assert_eq!(s3.parse(&INPUT_16[2..]), Ok((2, value(1, Value::Absent))));
}
