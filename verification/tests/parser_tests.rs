use mec::decl::FuncDef;
use mec::parser::{fn_def, parse, Expected};

#[test]
fn parses_single_declaration_with_two_integers() {
    let ds = parse("def add: (Integer, Integer) -> Integer").unwrap();
    assert_eq!(ds.len(), 1);
    assert_eq!(ds[0].name, "add");
    assert_eq!(ds[0].argstype, vec!["Integer".to_string(), "Integer".to_string()]);
    assert_eq!(ds[0].rettype, "Integer");
}

#[test]
fn parses_empty_argument_list() {
    let ds = parse("def noop: () -> void").unwrap();
    assert_eq!(ds.len(), 1);
    assert_eq!(ds[0].name, "noop");
    assert!(ds[0].argstype.is_empty());
    assert_eq!(ds[0].rettype, "void");
}

#[test]
fn parses_empty_argument_list_with_inner_spaces() {
    let ds = parse("def noop: (   ) -> void").unwrap();
    assert!(ds[0].argstype.is_empty());
}

#[test]
fn parses_tight_spacing() {
    let ds = parse("def f:(Integer)->String").unwrap();
    assert_eq!(ds[0].name, "f");
    assert_eq!(ds[0].argstype, vec!["Integer".to_string()]);
    assert_eq!(ds[0].rettype, "String");
}

#[test]
fn parses_multiple_declarations_and_blank_lines() {
    let src = "\ndef first: () -> void\n\ndef second: (String) -> Integer\ndef third: (Float, Float) -> Float\n";
    let ds = parse(src).unwrap();
    assert_eq!(ds.len(), 3);
    assert_eq!(ds[0].name, "first");
    assert_eq!(ds[1].name, "second");
    assert_eq!(ds[1].argstype, vec!["String".to_string()]);
    assert_eq!(ds[2].name, "third");
    assert_eq!(ds[2].argstype, vec!["Float".to_string(), "Float".to_string()]);
}

#[test]
fn keeps_declared_argument_order() {
    let ds = parse("def mix: (Integer, String, Float) -> void").unwrap();
    assert_eq!(
        ds[0].argstype,
        vec!["Integer".to_string(), "String".to_string(), "Float".to_string()]
    );
}

#[test]
fn accepts_arbitrary_identifiers_as_type_names() {
    // Type validity is a generator-time concern; the grammar accepts any
    // well-formed identifier in type position.
    let ds = parse("def odd: (Boolean, _x9) -> Whatever").unwrap();
    assert_eq!(ds[0].argstype, vec!["Boolean".to_string(), "_x9".to_string()]);
    assert_eq!(ds[0].rettype, "Whatever");
}

#[test]
fn missing_close_paren_points_at_expected_position() {
    let err = parse("def bad: (Integer -> Integer").unwrap_err();
    assert_eq!(err.offset, 18);
    assert_eq!(err.expected, Expected::CloseParen);
}

#[test]
fn empty_input_is_a_syntax_error() {
    let err = parse("").unwrap_err();
    assert_eq!(err.offset, 0);
    assert_eq!(err.expected, Expected::DefKeyword);
}

#[test]
fn blank_input_is_a_syntax_error() {
    let err = parse("  \n \n").unwrap_err();
    assert_eq!(err.expected, Expected::DefKeyword);
}

#[test]
fn missing_colon_is_reported() {
    let err = parse("def f (Integer) -> Integer").unwrap_err();
    assert_eq!(err.offset, 5);
    assert_eq!(err.expected, Expected::Colon);
}

#[test]
fn missing_arrow_is_reported() {
    let err = parse("def f: (Integer) Integer").unwrap_err();
    assert_eq!(err.offset, 17);
    assert_eq!(err.expected, Expected::Arrow);
}

#[test]
fn missing_space_after_def_is_reported() {
    let err = parse("def").unwrap_err();
    assert_eq!(err.offset, 3);
    assert_eq!(err.expected, Expected::Whitespace);
}

#[test]
fn missing_return_type_is_reported() {
    let err = parse("def f: () ->").unwrap_err();
    assert_eq!(err.offset, 12);
    assert_eq!(err.expected, Expected::Identifier);
}

#[test]
fn trailing_garbage_is_an_error_not_ignored() {
    let err = parse("def f: () -> void !").unwrap_err();
    assert_eq!(err.offset, 18);
    assert_eq!(err.expected, Expected::EndOfInput);
}

#[test]
fn error_offset_is_at_or_before_first_unparsable_character() {
    for src in [
        "",
        "x",
        "def",
        "def !",
        "def f",
        "def f: ",
        "def f: (",
        "def f: (,) -> void",
        "def f: (Integer,) -> void",
        "def f: (Integer -> Integer",
        "def f: () -> void\nnope",
        "def f: () -> void trailing",
    ] {
        let err = parse(src).unwrap_err();
        assert!(err.offset <= src.chars().count(), "offset out of range for {:?}", src);
    }
}

#[test]
fn no_partial_output_on_malformed_later_declaration() {
    // The second declaration is malformed, so the whole file is refused.
    assert!(parse("def a: () -> void\ndef b: ( -> void").is_err());
}

#[test]
fn fn_def_parses_a_single_declaration_at_the_start() {
    let (d, used) = fn_def("def add: () -> void").unwrap();
    assert_eq!(d.name, "add");
    assert_eq!(d.rettype, "void");
    assert_eq!(used, 19);
}

#[test]
fn fn_def_reports_malformed_input() {
    assert!(fn_def("defx: () -> void").is_err());
}

#[test]
fn render_then_parse_roundtrips() {
    let cases = vec![
        FuncDef {
            name: "add".to_string(),
            argstype: vec!["Integer".to_string(), "Integer".to_string()],
            rettype: "Integer".to_string(),
        },
        FuncDef {
            name: "noop".to_string(),
            argstype: vec![],
            rettype: "void".to_string(),
        },
        FuncDef {
            name: "greet".to_string(),
            argstype: vec!["String".to_string()],
            rettype: "String".to_string(),
        },
        FuncDef {
            name: "_m1x".to_string(),
            argstype: vec!["Integer".to_string(), "Float".to_string(), "String".to_string()],
            rettype: "Float".to_string(),
        },
    ];
    for d in cases {
        let rendered = d.render();
        let parsed = parse(rendered.as_str()).unwrap();
        assert_eq!(parsed, vec![d]);
    }
}

#[test]
fn trailing_text_after_rendered_declaration_is_rejected() {
    let d = FuncDef {
        name: "add".to_string(),
        argstype: vec!["Integer".to_string()],
        rettype: "Integer".to_string(),
    };
    for tail in ["!", "(", ", more", "-> Integer"] {
        let mut src = d.render();
        src.push_str(tail);
        assert!(parse(&src).is_err(), "accepted trailing {:?}", tail);
    }
}

#[test]
fn render_produces_the_canonical_text() {
    let d = FuncDef {
        name: "add".to_string(),
        argstype: vec!["Integer".to_string(), "Integer".to_string()],
        rettype: "Integer".to_string(),
    };
    assert_eq!(d.render(), "def add: (Integer, Integer) -> Integer");
}
