use nom_derive::config::Config;
use nom_derive::endian::{
    get_local_endianness, get_object_endianness, set_object_endianness, two_or_more,
    validate_endianness, ParserEndianness,
};
use nom_derive::meta::attr::{
    contains_attr, find_attr, fn_args_read, pattern_of_arm, read_argument, tokens_read,
    ArgGrammar, Meta, MetaAttr, MetaAttrType,
};
use nom_derive::meta::syntax::Parsed;
use nom_derive::meta::error::{ErrorKind, MetaError, Span};
use nom_derive::meta::{
    parse_attributes, parse_nom_attribute, parse_nom_top_level_attribute, Attribute, Scope,
};

const ALL: [MetaAttrType; 31] = [
    MetaAttrType::AlignAfter,
    MetaAttrType::AlignBefore,
    MetaAttrType::BigEndian,
    MetaAttrType::Complete,
    MetaAttrType::Cond,
    MetaAttrType::Count,
    MetaAttrType::Debug,
    MetaAttrType::DebugDerive,
    MetaAttrType::ErrorIf,
    MetaAttrType::Exact,
    MetaAttrType::ExtraArgs,
    MetaAttrType::GenericErrors,
    MetaAttrType::Ignore,
    MetaAttrType::InputName,
    MetaAttrType::Into,
    MetaAttrType::LengthCount,
    MetaAttrType::LittleEndian,
    MetaAttrType::MapWith,
    MetaAttrType::Move,
    MetaAttrType::MoveAbs,
    MetaAttrType::Parse,
    MetaAttrType::PostExec,
    MetaAttrType::PreExec,
    MetaAttrType::Selector,
    MetaAttrType::SetEndian,
    MetaAttrType::SkipAfter,
    MetaAttrType::SkipBefore,
    MetaAttrType::Tag,
    MetaAttrType::Take,
    MetaAttrType::Value,
    MetaAttrType::Verify,
];

fn at(n: usize) -> Span {
    Span { start: n, end: n + 1 }
}

fn attr(kind: MetaAttrType, arg: Option<&str>, n: usize) -> MetaAttr {
    MetaAttr::new(kind, arg.map(|a| a.to_string()), at(n))
}

#[test]
fn every_kind_is_found_by_its_name() {
    for kind in ALL {
        assert_eq!(MetaAttrType::from_ident(kind.name()), Some(kind));
    }
    assert_eq!(MetaAttrType::MapWith.name(), "Map");
    assert_eq!(MetaAttrType::from_ident("Map"), Some(MetaAttrType::MapWith));
}

#[test]
fn two_kinds_have_a_second_name() {
    assert_eq!(MetaAttrType::from_ident("If"), Some(MetaAttrType::Cond));
    assert_eq!(MetaAttrType::from_ident("Default"), Some(MetaAttrType::Ignore));
}

#[test]
fn names_are_matched_exactly() {
    assert_eq!(MetaAttrType::from_ident("cond"), None);
    assert_eq!(MetaAttrType::from_ident("Cond "), None);
    assert_eq!(MetaAttrType::from_ident(""), None);
    assert_eq!(MetaAttrType::from_ident("Little"), None);
}

#[test]
fn kinds_that_take_an_argument() {
    let without = [
        MetaAttrType::BigEndian,
        MetaAttrType::Complete,
        MetaAttrType::Debug,
        MetaAttrType::DebugDerive,
        MetaAttrType::Exact,
        MetaAttrType::GenericErrors,
        MetaAttrType::Ignore,
        MetaAttrType::Into,
        MetaAttrType::LittleEndian,
    ];
    for kind in ALL {
        assert_eq!(kind.takes_argument(), !without.contains(&kind), "{:?}", kind);
    }
}

#[test]
fn grammar_of_each_argument() {
    assert_eq!(MetaAttrType::Count.grammar(), ArgGrammar::Expr);
    assert_eq!(MetaAttrType::PreExec.grammar(), ArgGrammar::Stmt);
    assert_eq!(MetaAttrType::PostExec.grammar(), ArgGrammar::Stmt);
    assert_eq!(MetaAttrType::Selector.grammar(), ArgGrammar::Pattern);
    assert_eq!(MetaAttrType::ExtraArgs.grammar(), ArgGrammar::FnArgs);
}

#[test]
fn scopes_of_each_kind() {
    let top = [
        MetaAttrType::DebugDerive,
        MetaAttrType::Complete,
        MetaAttrType::Debug,
        MetaAttrType::ExtraArgs,
        MetaAttrType::GenericErrors,
        MetaAttrType::InputName,
        MetaAttrType::LittleEndian,
        MetaAttrType::BigEndian,
        MetaAttrType::SetEndian,
        MetaAttrType::PreExec,
        MetaAttrType::PostExec,
        MetaAttrType::Exact,
        MetaAttrType::Selector,
    ];
    let top_only = [
        MetaAttrType::DebugDerive,
        MetaAttrType::Exact,
        MetaAttrType::ExtraArgs,
        MetaAttrType::GenericErrors,
        MetaAttrType::InputName,
    ];
    for kind in ALL {
        let a = attr(kind, None, 0);
        assert_eq!(a.acceptable_tla(), top.contains(&kind), "{:?}", kind);
        assert_eq!(a.acceptable_fla(), !top_only.contains(&kind), "{:?}", kind);
        assert!(a.is_type(kind));
    }
}

#[test]
fn argument_is_read_in_its_grammar() {
    let a = MetaAttr::from_meta(&Meta::name_value("Cond", "a==1")).unwrap();
    assert_eq!(a.attr_type, MetaAttrType::Cond);
    assert_eq!(a.arg().map(|s| s.as_str()), Some("a == 1"));
    let a = MetaAttr::from_meta(&Meta::list("Take", "4")).unwrap();
    assert_eq!(a.arg0.as_deref(), Some("4"));
    let a = MetaAttr::from_meta(&Meta::list("PostExec", "let c=b+1;")).unwrap();
    assert_eq!(a.arg0.as_deref(), Some("let c = b + 1 ;"));
    let a = MetaAttr::from_meta(&Meta::list("Selector", "x if test_value(x)")).unwrap();
    assert_eq!(a.arg0.as_deref(), Some("x if test_value (x)"));
    let a = MetaAttr::from_meta(&Meta::name_value("Selector", "_")).unwrap();
    assert_eq!(a.arg0.as_deref(), Some("_"));
    let a = MetaAttr::from_meta(&Meta::list("ExtraArgs", "endian:Endianness,n:u8")).unwrap();
    assert_eq!(a.arg0.as_deref(), Some("endian : Endianness, n : u8"));
    assert_eq!(a.display(), "ExtraArgs(endian : Endianness, n : u8)");
}

#[test]
fn patterns_of_a_selector() {
    let arg = |source: &str| MetaAttr::from_meta(&Meta::list("Selector", source)).map(|a| a.arg0);
    assert_eq!(arg("MessageType(0)"), Ok(Some("MessageType (0)".to_string())));
    assert_eq!(arg("_"), Ok(Some("_".to_string())));
    assert_eq!(arg("0 | 1").unwrap_err().kind, ErrorKind::InvalidArgument);
    assert_eq!(arg("| 0").unwrap_err().kind, ErrorKind::InvalidArgument);
    assert_eq!(arg("0 => {} //").unwrap_err().kind, ErrorKind::InvalidArgument);
    assert_eq!(arg("0 => {} /* */").unwrap_err().kind, ErrorKind::InvalidArgument);
    assert_eq!(arg("0 //").map(|a| a.is_some()), Ok(true));
    assert_eq!(arg("Some(x) if x>1"), Ok(Some("Some (x) if x > 1".to_string())));
    assert_eq!(arg("#[cfg(test)] 0").unwrap_err().kind, ErrorKind::InvalidArgument);
    assert_eq!(arg("0 => 1, 2").unwrap_err().kind, ErrorKind::InvalidArgument);
    assert_eq!(arg("").unwrap_err().kind, ErrorKind::InvalidArgument);
}

#[test]
fn an_item_keeps_what_reading_its_argument_gave() {
    match Meta::list("Count", "a+1") {
        Meta::List { name, tokens, parsed, span } => {
            assert_eq!(name, "Count");
            assert_eq!(tokens, "a+1");
            assert_eq!(parsed, Parsed::Tokens("a + 1".to_string()));
            assert_eq!(span, Span::call_site());
        }
        other => panic!("no list: {:?}", other),
    }
    match Meta::name_value("Count", "a +") {
        Meta::NameValue { value, parsed, .. } => {
            assert_eq!(value.as_deref(), Some("a +"));
            assert_eq!(parsed, Parsed::Rejected);
        }
        other => panic!("no pair: {:?}", other),
    }
    assert_eq!(read_argument("Debug", "x"), Parsed::Unread);
    assert_eq!(read_argument("Bogus", "x"), Parsed::Unread);
    assert_eq!(read_argument("PreExec", "let a = 1;"), Parsed::Tokens("let a = 1 ;".to_string()));
    assert_eq!(read_argument("Selector", "x if y"), Parsed::Tokens("x if y".to_string()));
    match read_argument("ExtraArgs", "n: u8, (a, b): T, self") {
        Parsed::FnArgs(args) => {
            assert_eq!(args.len(), 3);
            assert_eq!(args[0].name.as_deref(), Some("n"));
            assert_eq!(args[0].tokens, "n : u8");
            assert!(!args[0].receiver);
            assert_eq!(args[1].name, None);
            assert!(!args[1].receiver);
            assert!(args[2].receiver);
            assert_eq!(args[0].duplicate(), args[0]);
        }
        other => panic!("no arguments: {:?}", other),
    }
}

#[test]
fn what_was_read_becomes_the_argument() {
    assert_eq!(tokens_read(Some("a + 1".to_string())), Parsed::Tokens("a + 1".to_string()));
    assert_eq!(tokens_read(None), Parsed::Rejected);
    assert_eq!(fn_args_read(Some(Vec::new())), Parsed::FnArgs(Vec::new()));
    assert_eq!(fn_args_read(None), Parsed::Rejected);
    let pattern = || "Some (x)".to_string();
    let guard = || Some("x > 1".to_string());
    assert_eq!(
        pattern_of_arm(0, pattern(), guard(), true),
        Parsed::Tokens("Some (x) if x > 1".to_string())
    );
    assert_eq!(pattern_of_arm(0, pattern(), None, true), Parsed::Tokens("Some (x)".to_string()));
    assert_eq!(pattern_of_arm(1, pattern(), guard(), true), Parsed::Rejected);
    assert_eq!(pattern_of_arm(0, pattern(), guard(), false), Parsed::Rejected);
    assert_eq!(pattern_of_arm(2, pattern(), None, false), Parsed::Rejected);
}

#[test]
fn the_argument_is_taken_as_it_was_read() {
    let item = |parsed: Parsed| Meta::List {
        name: "Count".to_string(),
        tokens: "n".to_string(),
        parsed,
        span: at(1),
    };
    let a = MetaAttr::from_meta(&item(Parsed::Tokens("m".to_string()))).unwrap();
    assert_eq!(a, MetaAttr::new(MetaAttrType::Count, Some("m".to_string()), at(1)));
    for parsed in [Parsed::Rejected, Parsed::Unread, Parsed::FnArgs(Vec::new())] {
        let e = MetaAttr::from_meta(&item(parsed)).unwrap_err();
        assert_eq!(
            e,
            MetaError { kind: ErrorKind::InvalidArgument, span: at(1), detail: "n".to_string() }
        );
    }
    let extra = |parsed: Parsed| Meta::List {
        name: "ExtraArgs".to_string(),
        tokens: "n: u8".to_string(),
        parsed,
        span: at(2),
    };
    assert_eq!(
        MetaAttr::from_meta(&extra(Parsed::Tokens("n : u8".to_string()))).unwrap_err().kind,
        ErrorKind::InvalidArgument
    );
    let a = MetaAttr::from_meta(&extra(Parsed::FnArgs(Vec::new()))).unwrap();
    assert_eq!(a.arg0.as_deref(), Some(""));
    assert!(a.fn_args.is_empty());
}

#[test]
fn bare_attribute() {
    let meta = Meta::Path { name: "Complete".to_string(), span: at(3) };
    let a = MetaAttr::from_meta(&meta).unwrap();
    assert_eq!(a, attr(MetaAttrType::Complete, None, 3));
    assert_eq!(a.display(), "Complete");
    assert_eq!(a.arg(), None);
}

fn error(meta: Meta) -> MetaError {
    MetaAttr::from_meta(&meta).expect_err("an error")
}

#[test]
fn unknown_attribute() {
    let e = error(Meta::Path { name: "Little".to_string(), span: at(7) });
    assert_eq!(
        e,
        MetaError { kind: ErrorKind::UnknownAttribute, span: at(7), detail: "Little".to_string() }
    );
    assert_eq!(e.message(), "Unknown attribute: Little");
}

#[test]
fn missing_argument() {
    let e = error(Meta::Path { name: "Count".to_string(), span: at(1) });
    assert_eq!(
        e,
        MetaError { kind: ErrorKind::MissingArgument, span: at(1), detail: "Count".to_string() }
    );
    let e = error(Meta::name_other("Parse").with_span(at(2)));
    assert_eq!(e.span, at(2));
    assert_eq!(e.kind, ErrorKind::MissingArgument);
    assert_eq!(e.message(), "Unexpected type for nom attribute content (!LitStr): Parse");
}

#[test]
fn unexpected_argument() {
    let e = error(Meta::list("Debug", "x"));
    assert_eq!(e.kind, ErrorKind::UnexpectedArgument);
    assert_eq!(e.detail, "Debug");
    let e = error(Meta::name_value("BigEndian", "x"));
    assert_eq!(e.kind, ErrorKind::UnexpectedArgument);
}

#[test]
fn invalid_argument() {
    let e = error(Meta::name_value("Cond", "a =="));
    assert_eq!(e.kind, ErrorKind::InvalidArgument);
    assert_eq!(e.detail, "a ==");
    let e = error(Meta::list("PreExec", "let = ;"));
    assert_eq!(e.kind, ErrorKind::InvalidArgument);
    let e = error(Meta::list("Selector", "x if"));
    assert_eq!(e.kind, ErrorKind::InvalidArgument);
    let e = error(Meta::list("ExtraArgs", "a b"));
    assert_eq!(e.kind, ErrorKind::InvalidArgument);
}

fn nom(metas: Vec<Meta>) -> Attribute {
    Attribute::nom(metas)
}

#[test]
fn attributes_are_flattened_in_order() {
    let attrs = vec![
        Attribute { path: "doc".to_string(), metas: vec![Meta::path("Nonsense")], span: at(0) },
        nom(vec![Meta::name_value("Cond", "a > 1")]),
        Attribute { path: "derive".to_string(), metas: vec![], span: at(0) },
        nom(vec![Meta::name_value("Count", "4"), Meta::path("Complete")]),
    ];
    let list = parse_nom_attribute(&attrs).unwrap();
    let kinds: Vec<MetaAttrType> = list.iter().map(|a| a.attr_type).collect();
    assert_eq!(kinds, vec![MetaAttrType::Cond, MetaAttrType::Count, MetaAttrType::Complete]);
    assert_eq!(list[0].arg0.as_deref(), Some("a > 1"));
    assert_eq!(parse_attributes(&attrs, Scope::FieldLevel).unwrap(), list);
}

#[test]
fn no_attribute_at_all() {
    assert_eq!(parse_nom_attribute(&[]), Ok(vec![]));
    assert_eq!(parse_nom_top_level_attribute(&[]), Ok(vec![]));
}

#[test]
fn attribute_in_the_wrong_scope() {
    let attrs = vec![nom(vec![
        Meta::path("BigEndian"),
        Meta::name_value("Parse", "be_u32").with_span(at(5)),
    ])];
    let e = parse_nom_top_level_attribute(&attrs).expect_err("not for a struct");
    assert_eq!(
        e,
        MetaError {
            kind: ErrorKind::NotTopLevel,
            span: at(5),
            detail: "Parse(be_u32)".to_string()
        }
    );
    assert_eq!(e.message(), "Attribute is not valid for top-level: Parse(be_u32)");
    assert!(parse_nom_attribute(&attrs).is_ok());

    let attrs = vec![nom(vec![Meta::path("Exact")])];
    let e = parse_nom_attribute(&attrs).expect_err("not for a field");
    assert_eq!(e.kind, ErrorKind::NotFieldLevel);
    assert_eq!(e.message(), "Attribute is not valid for field-level: Exact");
    assert!(parse_nom_top_level_attribute(&attrs).is_ok());
}

#[test]
fn an_invalid_item_comes_before_a_misplaced_one() {
    let attrs = vec![nom(vec![Meta::path("Exact"), Meta::path("Bogus")])];
    let e = parse_nom_attribute(&attrs).expect_err("two errors");
    assert_eq!(e.kind, ErrorKind::UnknownAttribute);
}

#[test]
fn lookups() {
    let list = vec![
        attr(MetaAttrType::Count, Some("a"), 0),
        attr(MetaAttrType::Complete, None, 1),
        attr(MetaAttrType::Count, Some("b"), 2),
    ];
    assert_eq!(find_attr(&list, MetaAttrType::Count), Some(&list[0]));
    assert_eq!(find_attr(&list, MetaAttrType::Tag), None);
    assert!(contains_attr(&list, MetaAttrType::Complete));
    assert!(!contains_attr(&list, MetaAttrType::Debug));
}

#[test]
fn settings_by_default() {
    let c = Config::from_meta_list("S".to_string(), &[]).unwrap();
    assert_eq!(c.struct_name, "S");
    assert_eq!(c.global_endianness, ParserEndianness::Unspecified);
    assert_eq!(c.object_endianness, ParserEndianness::Unspecified);
    assert!(!c.complete && !c.debug && !c.debug_derive && !c.generic_errors);
    assert_eq!(c.selector_type(), None);
    assert_eq!(c.selector_name(), None);
    assert_eq!(c.input_name(), "i");
    assert_eq!(c.orig_input_name(), "orig_i");
    assert_eq!(c.lifetime_name(), "'nom");
    assert_eq!(c.error_name(), "NomErr");
}

#[test]
fn settings_from_attributes() {
    let list = vec![
        attr(MetaAttrType::LittleEndian, None, 0),
        attr(MetaAttrType::Complete, None, 1),
        attr(MetaAttrType::Debug, None, 2),
        attr(MetaAttrType::DebugDerive, None, 3),
        attr(MetaAttrType::GenericErrors, None, 4),
        attr(MetaAttrType::InputName, Some("iii"), 5),
        attr(MetaAttrType::Selector, Some("u8"), 6),
        attr(MetaAttrType::InputName, Some("jjj"), 7),
    ];
    let c = Config::from_meta_list("S".to_string(), &list).unwrap();
    assert_eq!(c.object_endianness, ParserEndianness::LittleEndian);
    assert!(c.complete && c.debug && c.debug_derive && c.generic_errors);
    assert_eq!(c.selector_type().map(|s| s.as_str()), Some("u8"));
    assert_eq!(c.selector_name(), Some("selector"));
    assert_eq!(c.input_name(), "iii");
    assert_eq!(c.orig_input_name(), "orig_iii");
}

#[test]
fn settings_with_both_byte_orders() {
    let list = vec![
        attr(MetaAttrType::BigEndian, None, 1),
        attr(MetaAttrType::LittleEndian, None, 2),
        attr(MetaAttrType::BigEndian, None, 3),
        attr(MetaAttrType::Debug, None, 4),
    ];
    let e = Config::from_meta_list("S".to_string(), &list).expect_err("a conflict");
    assert_eq!(
        e,
        MetaError { kind: ErrorKind::StructEndianConflict, span: at(3), detail: String::new() }
    );
}

#[test]
fn two_or_more_of_three() {
    for a in [false, true] {
        for b in [false, true] {
            for c in [false, true] {
                let count = a as u8 + b as u8 + c as u8;
                assert_eq!(two_or_more(a, b, c), count >= 2);
            }
        }
    }
}

fn config(object: ParserEndianness, global: ParserEndianness) -> Config {
    let mut c = Config::from_meta_list("S".to_string(), &[]).unwrap();
    c.object_endianness = object;
    c.global_endianness = global;
    c
}

fn flag(e: ParserEndianness) -> Vec<MetaAttr> {
    match e {
        ParserEndianness::Unspecified => vec![],
        ParserEndianness::BigEndian => vec![attr(MetaAttrType::BigEndian, None, 0)],
        ParserEndianness::LittleEndian => vec![attr(MetaAttrType::LittleEndian, None, 0)],
        ParserEndianness::SetEndian => vec![attr(MetaAttrType::SetEndian, Some("e"), 0)],
    }
}

#[test]
fn the_most_specific_byte_order_wins() {
    let levels =
        [ParserEndianness::Unspecified, ParserEndianness::BigEndian, ParserEndianness::LittleEndian];
    for global in levels {
        for object in levels {
            let c = config(object, global);
            let expected_object =
                if object != ParserEndianness::Unspecified { object } else { global };
            assert_eq!(get_object_endianness(&c), expected_object);
            for field in levels {
                let expected =
                    if field != ParserEndianness::Unspecified { field } else { expected_object };
                assert_eq!(get_local_endianness(at(0), &flag(field), &c), Ok(expected));
            }
        }
    }
    let c = config(ParserEndianness::Unspecified, ParserEndianness::LittleEndian);
    assert_eq!(
        get_local_endianness(at(0), &flag(ParserEndianness::BigEndian), &c),
        Ok(ParserEndianness::BigEndian)
    );
    assert_eq!(
        get_local_endianness(at(0), &flag(ParserEndianness::SetEndian), &c),
        Ok(ParserEndianness::SetEndian)
    );
}

#[test]
fn two_byte_orders_at_one_level() {
    let c = config(ParserEndianness::Unspecified, ParserEndianness::Unspecified);
    let pairs = [
        (MetaAttrType::BigEndian, MetaAttrType::LittleEndian),
        (MetaAttrType::BigEndian, MetaAttrType::SetEndian),
        (MetaAttrType::SetEndian, MetaAttrType::LittleEndian),
    ];
    for (a, b) in pairs {
        let list = vec![attr(a, Some("e"), 1), attr(MetaAttrType::Debug, None, 2), attr(b, Some("e"), 3)];
        let e = get_local_endianness(at(9), &list, &c).expect_err("a conflict");
        assert_eq!(
            e,
            MetaError { kind: ErrorKind::EndianConflict, span: at(9), detail: String::new() }
        );
        let mut changed = config(ParserEndianness::Unspecified, ParserEndianness::Unspecified);
        let e = set_object_endianness(at(9), ParserEndianness::BigEndian, &list, &mut changed)
            .expect_err("a conflict");
        assert_eq!(e.span, at(3));
        assert_eq!(e.message(), "cannot be both big, little and/or set endian");
        assert_eq!(changed.object_endianness, ParserEndianness::BigEndian);
    }
}

#[test]
fn byte_order_of_the_object() {
    let mut c = config(ParserEndianness::Unspecified, ParserEndianness::Unspecified);
    set_object_endianness(at(0), ParserEndianness::LittleEndian, &[], &mut c).unwrap();
    assert_eq!(c.object_endianness, ParserEndianness::LittleEndian);
    set_object_endianness(
        at(0),
        ParserEndianness::LittleEndian,
        &flag(ParserEndianness::BigEndian),
        &mut c,
    )
    .unwrap();
    assert_eq!(c.object_endianness, ParserEndianness::BigEndian);
    set_object_endianness(
        at(0),
        ParserEndianness::Unspecified,
        &flag(ParserEndianness::SetEndian),
        &mut c,
    )
    .unwrap();
    assert_eq!(c.object_endianness, ParserEndianness::SetEndian);
    assert_eq!(c.input_name(), "i");
}

#[test]
fn what_the_levels_ask_for_together() {
    let (unset, big, little, set) = (
        ParserEndianness::Unspecified,
        ParserEndianness::BigEndian,
        ParserEndianness::LittleEndian,
        ParserEndianness::SetEndian,
    );
    assert!(validate_endianness(unset, unset, unset).is_ok());
    assert!(validate_endianness(big, big, unset).is_ok());
    assert!(validate_endianness(unset, set, unset).is_ok());
    assert!(validate_endianness(little, little, little).is_ok());
    let all = [unset, big, little, set];
    for a in all {
        for o in all {
            for g in all {
                let has = |e| a == e || o == e || g == e;
                let r = validate_endianness(a, o, g);
                if has(big) && has(little) {
                    assert_eq!(r.unwrap_err().kind, ErrorKind::ObjectEndianConflict);
                } else if has(set) && (has(big) || has(little)) {
                    let e = r.unwrap_err();
                    assert_eq!(e.kind, ErrorKind::SetEndianConflict);
                    assert_eq!(e.span, Span::call_site());
                } else {
                    assert_eq!(r, Ok(()));
                }
            }
        }
    }
}
