#![allow(dead_code, unused_imports)]

use nom_derive::decode::error::{DecodeError, DecodeErrorKind};
use nom_derive::decode::host::{Answer, Query, Request};
use nom_derive::decode::record::Outcome;
use nom_derive::decode::value::{Binding, Endianness, Shape, Value};
use nom_derive::endian::ParserEndianness;
use nom_derive::enums::{Data, DataEnum, Variant};
use nom_derive::gen::generator::Generics;
use nom_derive::gen::{DeriveInput, Generated};
use nom_derive::meta::attr::Meta;
use nom_derive::meta::error::{ErrorKind, MetaError, Span};
use nom_derive::meta::Attribute;
use nom_derive::structs::{DataStruct, Field, Fields};
use nom_derive::types::Type;

type Decoded = Result<(usize, Value), DecodeError>;

/// A compiled declaration, with the code of the host for its arguments.
struct Parser<'h> {
    plan: Generated,
    host: Box<dyn Fn(&Request, &[u8]) -> Answer + 'h>,
}

impl<'h> Parser<'h> {
    fn new(ast: DeriveInput, host: impl Fn(&Request, &[u8]) -> Answer + 'h) -> Parser<'h> {
        Parser::with_entry(ast, ParserEndianness::Unspecified, host)
    }

    fn with_entry(
        ast: DeriveInput,
        entry: ParserEndianness,
        host: impl Fn(&Request, &[u8]) -> Answer + 'h,
    ) -> Parser<'h> {
        let plan = Generated::from_ast(&ast, entry).expect("a valid declaration");
        Parser { plan, host: Box::new(host) }
    }

    fn run(&self, entry: ParserEndianness, input: &[u8], args: Vec<Binding>) -> Decoded {
        let mut answers = Vec::new();
        loop {
            match self.plan.decode(entry, input, &args, &answers) {
                Outcome::Done(r) => return r,
                Outcome::Ask(q) => answers.push((self.host)(&q, input)),
            }
        }
    }

    fn parse(&self, input: &[u8]) -> Decoded {
        self.run(ParserEndianness::BigEndian, input, Vec::new())
    }

    fn parse_be(&self, input: &[u8]) -> Decoded {
        self.run(ParserEndianness::BigEndian, input, Vec::new())
    }

    fn parse_le(&self, input: &[u8]) -> Decoded {
        self.run(ParserEndianness::LittleEndian, input, Vec::new())
    }

    fn select(&self, input: &[u8], selector: Value) -> Decoded {
        self.run(ParserEndianness::BigEndian, input, vec![Binding::new("selector", selector)])
    }

    /// The answer to a question that asks for this parser at `pos`.
    fn at(&self, input: &[u8], pos: usize, big_endian: bool, args: Vec<Binding>) -> Answer {
        let entry =
            if big_endian { ParserEndianness::BigEndian } else { ParserEndianness::LittleEndian };
        match self.run(entry, &input[pos..], args) {
            Ok((used, value)) => Answer::Parsed(pos + used, value),
            Err(e) => Answer::Failed(e),
        }
    }
}

fn no_host(q: &Request, _input: &[u8]) -> Answer {
    panic!("unexpected question: {:?}", q.query)
}

/// The code without its white space.
fn squeeze(code: &str) -> String {
    code.chars().filter(|c| !c.is_whitespace()).collect()
}

/// The value bound to `name` where the question is put.
fn bound<'a>(q: &'a Request, name: &str) -> &'a Value {
    &q.scope.iter().rev().find(|b| b.name == name).expect("a bound name").value
}

fn number(v: &Value) -> i128 {
    match v {
        Value::UInt(n) => *n as i128,
        Value::Int(n) => *n,
        other => panic!("not a number: {:?}", other),
    }
}

/// The value of an integer literal.
fn literal(code: &str) -> Option<Value> {
    let text = squeeze(code);
    match text.strip_prefix('-') {
        Some(rest) => rest.parse::<i128>().ok().map(|n| Value::Int(-n)),
        None => text.parse::<u128>().ok().map(Value::UInt),
    }
}

/// The answer that stands for the result of a parser of `nom`.
fn from_nom<O>(
    input: &[u8],
    result: nom::IResult<&[u8], O>,
    value: impl Fn(O) -> Value,
) -> Answer {
    match result {
        Ok((rest, out)) => Answer::Parsed(input.len() - rest.len(), value(out)),
        Err(nom::Err::Incomplete(nom::Needed::Size(n))) => {
            Answer::Failed(DecodeError::Incomplete(n.get()))
        }
        Err(nom::Err::Incomplete(nom::Needed::Unknown)) => {
            Answer::Failed(DecodeError::Incomplete(0))
        }
        Err(nom::Err::Error(e)) => Answer::Failed(DecodeError::Error(
            DecodeErrorKind::Host,
            input.len() - e.input.len(),
        )),
        Err(nom::Err::Failure(e)) => Answer::Failed(DecodeError::Failure(
            DecodeErrorKind::Host,
            input.len() - e.input.len(),
        )),
    }
}

fn path(name: &str) -> Meta {
    Meta::path(name)
}

fn list(name: &str, tokens: &str) -> Meta {
    Meta::list(name, tokens)
}

fn name_value(name: &str, value: &str) -> Meta {
    Meta::name_value(name, value)
}

fn t(name: &str) -> Type {
    Type::named(name)
}

fn option(inner: Type) -> Type {
    Type::generic("Option", inner)
}

fn vec_of(inner: Type) -> Type {
    Type::generic("Vec", inner)
}

fn field(name: &str, ty: Type) -> Field {
    Field::named(name, ty, Vec::new())
}

fn field_with(name: &str, ty: Type, metas: Vec<Meta>) -> Field {
    Field::named(name, ty, metas)
}

fn declaration(name: &str, top: Vec<Attribute>, data: Data) -> DeriveInput {
    DeriveInput {
        ident: name.to_string(),
        span: Span::call_site(),
        attrs: top,
        generics: Generics::none(),
        data,
    }
}

fn strukt(name: &str, top: Vec<Meta>, fields: Vec<Field>) -> DeriveInput {
    declaration(
        name,
        vec![Attribute::nom(top)],
        Data::Struct(DataStruct { fields: Fields::Named(fields) }),
    )
}

fn tuple_struct(name: &str, top: Vec<Meta>, types: Vec<Type>) -> DeriveInput {
    let fields = types.into_iter().map(|ty| Field::unnamed(ty, Vec::new())).collect();
    declaration(
        name,
        vec![Attribute::nom(top)],
        Data::Struct(DataStruct { fields: Fields::Unnamed(fields) }),
    )
}

fn variant(name: &str, metas: Vec<Meta>, fields: Fields) -> Variant {
    Variant {
        ident: name.to_string(),
        fields,
        attrs: vec![Attribute::nom(metas)],
        discriminant: None,
        span: Span::call_site(),
    }
}

fn unit_variant(name: &str, discriminant: Option<i128>) -> Variant {
    Variant {
        ident: name.to_string(),
        fields: Fields::Unit,
        attrs: Vec::new(),
        discriminant,
        span: Span::call_site(),
    }
}

fn enumeration(name: &str, top: Vec<Attribute>, variants: Vec<Variant>) -> DeriveInput {
    declaration(name, top, Data::Enum(DataEnum { variants }))
}

fn unnamed(types: Vec<Type>) -> Fields {
    Fields::Unnamed(types.into_iter().map(|ty| Field::unnamed(ty, Vec::new())).collect())
}

fn named(name: &str, fields: Vec<(&str, Value)>) -> Value {
    Value::Struct {
        name: name.to_string(),
        shape: Shape::Named,
        names: fields.iter().map(|f| f.0.to_string()).collect(),
        values: fields.into_iter().map(|f| f.1).collect(),
    }
}

fn tuple(name: &str, values: Vec<Value>) -> Value {
    Value::Struct {
        name: name.to_string(),
        shape: Shape::Tuple,
        names: (0..values.len()).map(|i| format!("_{}", i)).collect(),
        values,
    }
}

fn unit(name: &str) -> Value {
    Value::Struct {
        name: name.to_string(),
        shape: Shape::Unit,
        names: Vec::new(),
        values: Vec::new(),
    }
}

fn some(v: Value) -> Value {
    Value::Present(Box::new(v))
}

fn uints(values: &[u128]) -> Value {
    Value::List(values.iter().map(|n| Value::UInt(*n)).collect())
}

const INPUT_16: &[u8] = b"\x00\x00\x00\x01\x12\x34\x56\x78\x12\x34\x56\x78\x00\x00\x00\x01";
const INPUT_CSTRING: &[u8] = b"\x00\x00\x00\x00Hello, world!\x00\x01";

/// The host of the declarations below: it knows their conditions, counts
/// and parsers, and reads integer literals.
fn host(q: &Request, input: &[u8]) -> Answer {
    match &q.query {
        Query::Eval { code } => {
            if let Some(v) = literal(code) {
                return Answer::Value(v);
            }
            match squeeze(code).as_str() {
                "None" => Answer::Value(Value::Absent),
                "c" => Answer::Value(Value::UInt(number(bound(q, "c")) as u128)),
                "a!=0" => Answer::Value(Value::Bool(number(bound(q, "a")) != 0)),
                "a==0" => Answer::Value(Value::Bool(number(bound(q, "a")) == 0)),
                "Endianness::Big" => Answer::Value(Value::Endian(Endianness::Big)),
                "Endianness::Little" => Answer::Value(Value::Endian(Endianness::Little)),
                other => panic!("unknown expression: {}", other),
            }
        }
        Query::Parse { code } => {
            let rest = &input[q.pos..];
            let answer = match squeeze(code).as_str() {
                "cond(a>0,be_u64)" => from_nom(
                    rest,
                    nom::combinator::cond(
                        number(bound(q, "a")) > 0,
                        nom::number::streaming::be_u64,
                    )(rest),
                    |o: Option<u64>| match o {
                        Some(n) => some(Value::UInt(n as u128)),
                        None => Value::Absent,
                    },
                ),
                "be_u8" => from_nom(rest, nom::number::streaming::be_u8(rest), |n: u8| {
                    Value::UInt(n as u128)
                }),
                "take_till(|b|b==0)" => from_nom(
                    rest,
                    nom::bytes::complete::take_till(|b| b == 0)(rest),
                    |s: &[u8]| Value::Bytes(s.to_vec()),
                ),
                other => panic!("unknown parser: {}", other),
            };
            match answer {
                Answer::Parsed(used, v) => Answer::Parsed(q.pos + used, v),
                other => other,
            }
        }
        Query::Apply { code, arg } => match squeeze(code).as_str() {
            "|x:u8|x.to_string()" => Answer::Value(Value::Text(number(arg).to_string())),
            "bytes_to_cstring" => match arg {
                Value::Bytes(b) => Answer::Value(Value::Bytes(bytes_to_cstring(b))),
                other => panic!("not bytes: {:?}", other),
            },
            other => panic!("unknown function: {}", other),
        },
        Query::Exec { code, .. } => {
            if squeeze(code).starts_with("letc=b+1") {
                let c = number(bound(q, "b")) + 1;
                Answer::Bound(vec![Binding::new("c", Value::UInt(c as u128))])
            } else if squeeze(code).starts_with("println!") {
                Answer::Bound(Vec::new())
            } else {
                panic!("unknown statement: {}", code)
            }
        }
        Query::Matches { code } => match squeeze(code).as_str() {
            "xiftest_value(x)" => {
                Answer::Value(Value::Bool(test_value(number(bound(q, "selector")) as u8)))
            }
            other => panic!("unknown pattern: {}", other),
        },
        other => panic!("unexpected question: {:?}", other),
    }
}

/// The bytes of a string that ends at the first zero: none of them is
/// zero.
fn bytes_to_cstring(s: &[u8]) -> Vec<u8> {
    assert!(s.iter().all(|b| *b != 0));
    s.to_vec()
}

fn test_value(x: u8) -> bool {
    x >> 3 & 1 == 1
}

fn struct_with_complex_parser() -> Parser<'static> {
    Parser::new(
        strukt(
            "StructWithComplexParser",
            vec![],
            vec![
                field("a", t("u32")),
                field_with(
                    "b",
                    option(t("u64")),
                    vec![name_value("Parse", "cond(a > 0,be_u64)")],
                ),
            ],
        ),
        host,
    )
}

#[test]
fn test_struct_complex_parse() {
    let res = struct_with_complex_parser().parse(INPUT_16);
    assert_eq!(
        res,
        Ok((
            12,
            named(
                "StructWithComplexParser",
                vec![("a", Value::UInt(1)), ("b", some(Value::UInt(0x1234567812345678)))]
            )
        ))
    );
}

#[test]
fn test_struct_ignore() {
    let s = Parser::new(
        strukt(
            "StructWithIgnore",
            vec![],
            vec![field("a", t("u32")), field_with("b", option(t("u64")), vec![path("Ignore")])],
        ),
        host,
    );
    let res = s.parse(INPUT_16);
    assert_eq!(
        res,
        Ok((4, named("StructWithIgnore", vec![("a", Value::UInt(1)), ("b", Value::Absent)])))
    );
}

#[test]
fn test_struct_complete() {
    let without = Parser::new(
        strukt("StructWithoutComplete", vec![], vec![field("a", t("u32")), field("b", t("u64"))]),
        host,
    );
    let with = Parser::new(
        strukt(
            "StructWithComplete",
            vec![],
            vec![field("a", t("u32")), field_with("b", t("u64"), vec![path("Complete")])],
        ),
        host,
    );
    let input = &INPUT_16[12..];
    let res = without.parse(input).expect_err("parse error");
    let res_complete = with.parse(input).expect_err("parse error");
    assert!(res.is_incomplete());
    assert_eq!(res, DecodeError::Incomplete(8));
    assert!(!res_complete.is_incomplete());
    assert_eq!(res_complete, DecodeError::Error(DecodeErrorKind::Complete, 4));
}

#[test]
fn test_struct_map() {
    let s = Parser::new(
        strukt(
            "StructWithMap",
            vec![],
            vec![
                field("a", t("u32")),
                field_with(
                    "int_str",
                    t("String"),
                    vec![name_value("Map", "|x: u8| x.to_string()"), name_value("Parse", "be_u8")],
                ),
            ],
        ),
        host,
    );
    let res = s.parse(INPUT_16);
    assert_eq!(
        res,
        Ok((
            5,
            named(
                "StructWithMap",
                vec![("a", Value::UInt(1)), ("int_str", Value::Text("18".to_string()))]
            )
        ))
    );
}

#[test]
fn test_struct_postexec() {
    let s = Parser::new(
        strukt(
            "StructWithPostExec",
            vec![],
            vec![
                field("a", t("u32")),
                field_with("b", t("u8"), vec![list("PostExec", "let c = b + 1;")]),
                field_with("c", t("u8"), vec![list("Value", "c")]),
            ],
        ),
        host,
    );
    let res = s.parse(INPUT_16);
    assert_eq!(
        res,
        Ok((
            5,
            named(
                "StructWithPostExec",
                vec![("a", Value::UInt(1)), ("b", Value::UInt(18)), ("c", Value::UInt(19))]
            )
        ))
    );
    let s = Parser::new(
        strukt(
            "TopLevelPostExec",
            vec![list("PostExec", "println!(\"parsing done: {:?}\", struct_def);")],
            vec![field("a", t("u32")), field("b", t("u8")), field("c", t("u8"))],
        ),
        host,
    );
    let res = s.parse(INPUT_16);
    assert_eq!(
        res,
        Ok((
            6,
            named(
                "TopLevelPostExec",
                vec![("a", Value::UInt(1)), ("b", Value::UInt(0x12)), ("c", Value::UInt(0x34))]
            )
        ))
    );
}

#[test]
fn test_struct_align_and_padding() {
    let s = Parser::new(
        strukt(
            "StructWithAlignment",
            vec![],
            vec![field_with("a", t("u8"), vec![list("AlignAfter", "4")]), field("b", t("u64"))],
        ),
        host,
    );
    let res = s.parse(INPUT_16);
    assert_eq!(
        res,
        Ok((
            12,
            named(
                "StructWithAlignment",
                vec![("a", Value::UInt(0)), ("b", Value::UInt(0x1234_5678_1234_5678))]
            )
        ))
    );
    let s = Parser::new(
        strukt(
            "StructWithAlignmentAndPadding",
            vec![],
            vec![
                field_with("a", t("u8"), vec![list("AlignAfter", "4"), list("SkipAfter", "2")]),
                field("b", t("u32")),
            ],
        ),
        host,
    );
    let res = s.parse(INPUT_16);
    assert_eq!(
        res,
        Ok((
            10,
            named(
                "StructWithAlignmentAndPadding",
                vec![("a", Value::UInt(0)), ("b", Value::UInt(0x5678_1234))]
            )
        ))
    );
    let s = Parser::new(
        strukt(
            "StructWithLongSkip",
            vec![],
            vec![field_with("a", t("u8"), vec![list("SkipAfter", "200")]), field("b", t("u32"))],
        ),
        host,
    );
    let res = s.parse(INPUT_16).expect_err("parse error");
    if let DecodeError::Incomplete(sz) = res {
        assert_eq!(sz, 200);
    } else {
        panic!("wrong error type");
    }
    let s = Parser::new(
        strukt(
            "StructWithOffset",
            vec![],
            vec![
                field("a", t("u8")),
                field_with("b", t("u32"), vec![list("Move", "3")]),
                field_with("b2", t("u32"), vec![list("Move", "-4")]),
            ],
        ),
        host,
    );
    let res = s.parse(INPUT_16);
    assert_eq!(
        res,
        Ok((
            8,
            named(
                "StructWithOffset",
                vec![
                    ("a", Value::UInt(0)),
                    ("b", Value::UInt(0x1234_5678)),
                    ("b2", Value::UInt(0x1234_5678))
                ]
            )
        ))
    );
    let s = Parser::new(
        strukt(
            "StructWithOffsetAbs",
            vec![],
            vec![field("a", t("u8")), field_with("a2", t("u8"), vec![list("MoveAbs", "4")])],
        ),
        host,
    );
    let res = s.parse(INPUT_16);
    assert_eq!(
        res,
        Ok((5, named("StructWithOffsetAbs", vec![("a", Value::UInt(0)), ("a2", Value::UInt(0x12))])))
    );
}

#[test]
fn test_struct_error_if() {
    let s = Parser::new(
        strukt(
            "StructWithPossibleError",
            vec![],
            vec![field("a", t("u8")), field_with("b", t("u32"), vec![list("ErrorIf", "a != 0")])],
        ),
        host,
    );
    // test without verification error
    let res = s.parse(INPUT_16);
    assert!(res.is_ok());
    // test with verification error
    let res = s.parse(&INPUT_16[4..]).expect_err("parsing failed");
    if let DecodeError::Error(error_kind, _) = res {
        assert_eq!(error_kind, DecodeErrorKind::Verify);
    } else {
        panic!("wrong error type");
    }
}

#[test]
fn test_struct_exact() {
    let s = Parser::new(
        strukt(
            "StructExact",
            vec![path("Exact")],
            vec![field("a", t("u32")), field("b", t("u32"))],
        ),
        host,
    );
    // test without verification error
    let res = s.parse(&INPUT_16[8..]);
    assert!(res.is_ok());
    // test with verification error
    let res = s.parse(INPUT_16).expect_err("parsing failed");
    if let DecodeError::Error(error_kind, _) = res {
        assert_eq!(error_kind, DecodeErrorKind::Verify);
    } else {
        panic!("wrong error type");
    }
}

#[test]
fn test_struct_multiple_attributes() {
    let s = Parser::new(
        strukt(
            "MultipleAttributes1",
            vec![],
            vec![
                field("a", t("u32")),
                field_with(
                    "cstring",
                    option(t("CString")),
                    vec![
                        name_value("Cond", "a == 0"),
                        name_value("Map", "bytes_to_cstring"),
                        name_value("Parse", "take_till(|b| b == 0)"),
                    ],
                ),
            ],
        ),
        host,
    );
    let (rem, res) = s.parse(INPUT_CSTRING).expect("parsing failed");
    assert!(rem < INPUT_CSTRING.len());
    match res {
        Value::Struct { values, .. } => match &values[1] {
            Value::Present(cstring) => {
                assert_eq!(**cstring, Value::Bytes(b"Hello, world!".to_vec()))
            }
            other => panic!("no string: {:?}", other),
        },
        other => panic!("no struct: {:?}", other),
    }
}

#[test]
fn test_struct_mixed_endian() {
    let s = Parser::new(
        strukt(
            "MixedEndian",
            vec![path("BigEndian")],
            vec![
                field_with("a", t("u32"), vec![list("SetEndian", "Endianness::Big")]),
                field_with("b", t("u32"), vec![list("SetEndian", "Endianness::Little")]),
            ],
        ),
        host,
    );
    let (rem, res) = s.parse(INPUT_16).expect("parsing failed");
    assert!(rem < INPUT_16.len());
    assert_eq!(
        res,
        named("MixedEndian", vec![("a", Value::UInt(1)), ("b", Value::UInt(0x7856_3412))])
    );
}

#[test]
fn test_enum_selector_with_guard() {
    let e = Parser::new(
        enumeration(
            "EnumWithGuard",
            vec![Attribute::nom(vec![list("Selector", "u8")])],
            vec![
                variant("Foo", vec![list("Selector", "x if test_value(x)")], unnamed(vec![t("u8")])),
                variant("Bar", vec![list("Selector", "_")], unnamed(vec![t("u8")])),
            ],
        ),
        host,
    );
    let input = &[0];
    let (_, res) = e.select(input, Value::UInt(0)).expect("parsing failed");
    assert_eq!(res, tuple("EnumWithGuard::Bar", vec![Value::UInt(0)]));
    let (_, res) = e.select(input, Value::UInt(0b1000)).expect("parsing failed");
    assert_eq!(res, tuple("EnumWithGuard::Foo", vec![Value::UInt(0)]));
}

#[test]
fn a_value_can_look_at_the_input() {
    let host = |q: &Request, input: &[u8]| match &q.query {
        Query::Eval { code } if squeeze(code) == "iii.len()" => {
            Answer::Value(Value::UInt((input.len() - q.pos) as u128))
        }
        other => panic!("unexpected question: {:?}", other),
    };
    let s = Parser::new(
        strukt(
            "StructWithInputName",
            vec![list("InputName", "iii")],
            vec![field("a", t("u32")), field_with("sz", t("usize"), vec![list("Value", "iii.len()")])],
        ),
        host,
    );
    assert_eq!(
        s.parse(INPUT_16),
        Ok((4, named("StructWithInputName", vec![("a", Value::UInt(1)), ("sz", Value::UInt(12))])))
    );
}

#[test]
fn a_statement_can_bind_the_input_anew() {
    let host = |q: &Request, _input: &[u8]| match &q.query {
        Query::Exec { code } if squeeze(code) == "leti=&i[2..];" => {
            Answer::Moved(q.pos + 2, Vec::new())
        }
        other => panic!("unexpected question: {:?}", other),
    };
    let s = Parser::new(
        strukt(
            "S",
            vec![list("InputName", "i")],
            vec![field("a", t("u8")), field_with("b", t("u8"), vec![list("PreExec", "let i = &i[2..];")])],
        ),
        host,
    );
    assert_eq!(
        s.parse(INPUT_16),
        Ok((4, named("S", vec![("a", Value::UInt(0)), ("b", Value::UInt(1))])))
    );
}
