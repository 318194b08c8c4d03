#![allow(dead_code, unused_imports)]

use nom_derive::decode::error::{DecodeError, DecodeErrorKind};
use nom_derive::decode::host::{Answer, Query, Request};
use nom_derive::decode::record::Outcome;
use nom_derive::decode::value::{Binding, Endianness, Shape, Value};
use nom_derive::endian::ParserEndianness;
use nom_derive::enums::{Data, DataEnum, Variant};
use nom_derive::gen::generator::Generics;
use nom_derive::gen::{DeriveInput, Generated};
use nom_derive::meta::attr::Meta;
use nom_derive::meta::error::{ErrorKind, MetaError, Span};
use nom_derive::meta::Attribute;
use nom_derive::structs::{DataStruct, Field, Fields};
use nom_derive::types::Type;

type Decoded = Result<(usize, Value), DecodeError>;

/// A compiled declaration, with the code of the host for its arguments.
struct Parser<'h> {
    plan: Generated,
    host: Box<dyn Fn(&Request, &[u8]) -> Answer + 'h>,
}

impl<'h> Parser<'h> {
    fn new(ast: DeriveInput, host: impl Fn(&Request, &[u8]) -> Answer + 'h) -> Parser<'h> {
        Parser::with_entry(ast, ParserEndianness::Unspecified, host)
    }

    fn with_entry(
        ast: DeriveInput,
        entry: ParserEndianness,
        host: impl Fn(&Request, &[u8]) -> Answer + 'h,
    ) -> Parser<'h> {
        let plan = Generated::from_ast(&ast, entry).expect("a valid declaration");
        Parser { plan, host: Box::new(host) }
    }

    fn run(&self, entry: ParserEndianness, input: &[u8], args: Vec<Binding>) -> Decoded {
        let mut answers = Vec::new();
        loop {
            match self.plan.decode(entry, input, &args, &answers) {
                Outcome::Done(r) => return r,
                Outcome::Ask(q) => answers.push((self.host)(&q, input)),
            }
        }
    }

    fn parse(&self, input: &[u8]) -> Decoded {
        self.run(ParserEndianness::BigEndian, input, Vec::new())
    }

    fn parse_be(&self, input: &[u8]) -> Decoded {
        self.run(ParserEndianness::BigEndian, input, Vec::new())
    }

    fn parse_le(&self, input: &[u8]) -> Decoded {
        self.run(ParserEndianness::LittleEndian, input, Vec::new())
    }

    fn select(&self, input: &[u8], selector: Value) -> Decoded {
        self.run(ParserEndianness::BigEndian, input, vec![Binding::new("selector", selector)])
    }

    /// The answer to a question that asks for this parser at `pos`.
    fn at(&self, input: &[u8], pos: usize, big_endian: bool, args: Vec<Binding>) -> Answer {
        let entry =
            if big_endian { ParserEndianness::BigEndian } else { ParserEndianness::LittleEndian };
        match self.run(entry, &input[pos..], args) {
            Ok((used, value)) => Answer::Parsed(pos + used, value),
            Err(e) => Answer::Failed(e),
        }
    }
}

fn no_host(q: &Request, _input: &[u8]) -> Answer {
    panic!("unexpected question: {:?}", q.query)
}

/// The code without its white space.
fn squeeze(code: &str) -> String {
    code.chars().filter(|c| !c.is_whitespace()).collect()
}

/// The value bound to `name` where the question is put.
fn bound<'a>(q: &'a Request, name: &str) -> &'a Value {
    &q.scope.iter().rev().find(|b| b.name == name).expect("a bound name").value
}

fn number(v: &Value) -> i128 {
    match v {
        Value::UInt(n) => *n as i128,
        Value::Int(n) => *n,
        other => panic!("not a number: {:?}", other),
    }
}

/// The value of an integer literal.
fn literal(code: &str) -> Option<Value> {
    let text = squeeze(code);
    match text.strip_prefix('-') {
        Some(rest) => rest.parse::<i128>().ok().map(|n| Value::Int(-n)),
        None => text.parse::<u128>().ok().map(Value::UInt),
    }
}

/// The answer that stands for the result of a parser of `nom`.
fn from_nom<O>(
    input: &[u8],
    result: nom::IResult<&[u8], O>,
    value: impl Fn(O) -> Value,
) -> Answer {
    match result {
        Ok((rest, out)) => Answer::Parsed(input.len() - rest.len(), value(out)),
        Err(nom::Err::Incomplete(nom::Needed::Size(n))) => {
            Answer::Failed(DecodeError::Incomplete(n.get()))
        }
        Err(nom::Err::Incomplete(nom::Needed::Unknown)) => {
            Answer::Failed(DecodeError::Incomplete(0))
        }
        Err(nom::Err::Error(e)) => Answer::Failed(DecodeError::Error(
            DecodeErrorKind::Host,
            input.len() - e.input.len(),
        )),
        Err(nom::Err::Failure(e)) => Answer::Failed(DecodeError::Failure(
            DecodeErrorKind::Host,
            input.len() - e.input.len(),
        )),
    }
}

fn path(name: &str) -> Meta {
    Meta::path(name)
}

fn list(name: &str, tokens: &str) -> Meta {
    Meta::list(name, tokens)
}

fn name_value(name: &str, value: &str) -> Meta {
    Meta::name_value(name, value)
}

fn t(name: &str) -> Type {
    Type::named(name)
}

fn option(inner: Type) -> Type {
    Type::generic("Option", inner)
}

fn vec_of(inner: Type) -> Type {
    Type::generic("Vec", inner)
}

fn field(name: &str, ty: Type) -> Field {
    Field::named(name, ty, Vec::new())
}

fn field_with(name: &str, ty: Type, metas: Vec<Meta>) -> Field {
    Field::named(name, ty, metas)
}

fn declaration(name: &str, top: Vec<Attribute>, data: Data) -> DeriveInput {
    DeriveInput {
        ident: name.to_string(),
        span: Span::call_site(),
        attrs: top,
        generics: Generics::none(),
        data,
    }
}

fn strukt(name: &str, top: Vec<Meta>, fields: Vec<Field>) -> DeriveInput {
    declaration(
        name,
        vec![Attribute::nom(top)],
        Data::Struct(DataStruct { fields: Fields::Named(fields) }),
    )
}

fn tuple_struct(name: &str, top: Vec<Meta>, types: Vec<Type>) -> DeriveInput {
    let fields = types.into_iter().map(|ty| Field::unnamed(ty, Vec::new())).collect();
    declaration(
        name,
        vec![Attribute::nom(top)],
        Data::Struct(DataStruct { fields: Fields::Unnamed(fields) }),
    )
}

fn variant(name: &str, metas: Vec<Meta>, fields: Fields) -> Variant {
    Variant {
        ident: name.to_string(),
        fields,
        attrs: vec![Attribute::nom(metas)],
        discriminant: None,
        span: Span::call_site(),
    }
}

fn unit_variant(name: &str, discriminant: Option<i128>) -> Variant {
    Variant {
        ident: name.to_string(),
        fields: Fields::Unit,
        attrs: Vec::new(),
        discriminant,
        span: Span::call_site(),
    }
}

fn enumeration(name: &str, top: Vec<Attribute>, variants: Vec<Variant>) -> DeriveInput {
    declaration(name, top, Data::Enum(DataEnum { variants }))
}

fn unnamed(types: Vec<Type>) -> Fields {
    Fields::Unnamed(types.into_iter().map(|ty| Field::unnamed(ty, Vec::new())).collect())
}

fn named(name: &str, fields: Vec<(&str, Value)>) -> Value {
    Value::Struct {
        name: name.to_string(),
        shape: Shape::Named,
        names: fields.iter().map(|f| f.0.to_string()).collect(),
        values: fields.into_iter().map(|f| f.1).collect(),
    }
}

fn tuple(name: &str, values: Vec<Value>) -> Value {
    Value::Struct {
        name: name.to_string(),
        shape: Shape::Tuple,
        names: (0..values.len()).map(|i| format!("_{}", i)).collect(),
        values,
    }
}

fn unit(name: &str) -> Value {
    Value::Struct {
        name: name.to_string(),
        shape: Shape::Unit,
        names: Vec::new(),
        values: Vec::new(),
    }
}

fn some(v: Value) -> Value {
    Value::Present(Box::new(v))
}

fn uints(values: &[u128]) -> Value {
    Value::List(values.iter().map(|n| Value::UInt(*n)).collect())
}

fn new_type() -> Parser<'static> {
    Parser::new(tuple_struct("NewType", vec![], vec![t("u8")]), host)
}

/// The host of the declarations below: it knows their counts and values
/// and the types they name.
fn host(q: &Request, input: &[u8]) -> Answer {
    match &q.query {
        Query::Eval { code } => {
            if let Some(v) = literal(code) {
                return Answer::Value(v);
            }
            match squeeze(code).as_str() {
                "a" => Answer::Value(bound(q, "a").duplicate()),
                "a+1" => Answer::Value(Value::UInt(number(bound(q, "a")) as u128 + 1)),
                "b.to_string()" => Answer::Value(Value::Text(number(bound(q, "b")).to_string())),
                other => panic!("unknown expression: {}", other),
            }
        }
        Query::Call { ty, big_endian } => match ty.as_str() {
            "NewType" => new_type().at(input, q.pos, *big_endian, Vec::new()),
            other => panic!("unknown type: {}", other),
        },
        other => panic!("unexpected question: {:?}", other),
    }
}

/// A structure with a length and a Vec
fn s1() -> Parser<'static> {
    Parser::new(
        strukt(
            "S1",
            vec![],
            vec![
                field("a", t("u32")),
                field_with("b", vec_of(t("u32")), vec![name_value("Count", "a")]),
                field("c", t("u32")),
            ],
        ),
        host,
    )
}

/// A structure with a length and a Vec of structs
fn s2() -> Parser<'static> {
    Parser::new(
        strukt(
            "S2",
            vec![],
            vec![
                field("a", t("u8")),
                field_with("b", vec_of(t("NewType")), vec![name_value("Count", "a")]),
            ],
        ),
        host,
    )
}

/// A structure Vec of structs, count with literal
fn s3() -> Parser<'static> {
    Parser::new(
        strukt(
            "S3",
            vec![],
            vec![field_with("b", vec_of(t("NewType")), vec![name_value("Count", "2")])],
        ),
        host,
    )
}

fn s4() -> Parser<'static> {
    Parser::new(
        strukt(
            "S4",
            vec![],
            vec![
                field("a", t("u8")),
                field_with("b", t("u8"), vec![name_value("Value", "a+1")]),
                field_with("s", t("String"), vec![name_value("Value", "b.to_string()")]),
            ],
        ),
        host,
    )
}

fn new_type_value(n: u128) -> Value {
    tuple("NewType", vec![Value::UInt(n)])
}

#[test]
fn test_struct_count() {
    let input = b"\x00\x00\x00\x02\x12\x34\x56\x78\x12\x34\x56\x78\x00\x00\x00\x01";
    let res = s1().parse(input);
    assert_eq!(
        res,
        Ok((
            16,
            named(
                "S1",
                vec![
                    ("a", Value::UInt(2)),
                    ("b", uints(&[0x12345678, 0x12345678])),
                    ("c", Value::UInt(1))
                ]
            )
        ))
    );
}

#[test]
fn test_struct_count_newtype() {
    let input = b"\x02\x12\x34";
    let res = s2().parse(input);
    assert_eq!(
        res,
        Ok((
            3,
            named(
                "S2",
                vec![
                    ("a", Value::UInt(2)),
                    ("b", Value::List(vec![new_type_value(0x12), new_type_value(0x34)]))
                ]
            )
        ))
    );
}

#[test]
fn test_struct_count_literal() {
    let input = b"\x12\x34";
    let res = s3().parse(input);
    assert_eq!(
        res,
        Ok((
            2,
            named("S3", vec![("b", Value::List(vec![new_type_value(0x12), new_type_value(0x34)]))])
        ))
    );
}

#[test]
fn test_struct_value() {
    let input = b"\x12\x34";
    let res = s4().parse(input);
    assert_eq!(
        res,
        Ok((
            1,
            named(
                "S4",
                vec![
                    ("a", Value::UInt(0x12)),
                    ("b", Value::UInt(0x13)),
                    ("s", Value::Text("19".to_string()))
                ]
            )
        ))
    );
}

#[test]
fn counted_repetition() {
    let s = Parser::new(
        strukt(
            "Counted",
            vec![],
            vec![
                field("a", t("u16")),
                field_with("b", vec_of(t("u16")), vec![name_value("Count", "a")]),
            ],
        ),
        host,
    );
    let res = s.parse(b"\x00\x01\x12\x34");
    assert_eq!(
        res,
        Ok((4, named("Counted", vec![("a", Value::UInt(1)), ("b", uints(&[0x1234]))])))
    );
}
