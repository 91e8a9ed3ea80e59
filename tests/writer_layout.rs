use code_writer::error::Error;
use code_writer::language::rust::RustWriter;
use code_writer::language::thrift::{value_str, value_type_string, ThriftWriter};
use code_writer::model::{
    Builder, Comment, Identifier, Module, NamedValue, Value, ValueType,
};
use code_writer::writer::{
    render, write_modules, Block, BlockPlacement, CodeWriter, ModuleWriter, NewLine,
    WhitespaceHandling,
};

fn writer() -> CodeWriter {
    CodeWriter::new(WhitespaceHandling::default())
}

#[test]
fn blank_line_twice_adds_one_terminator() {
    let mut w = writer();
    w.write_str("abc");
    w.blank_line();
    assert_eq!(w.output(), "abc\n");
    w.blank_line();
    assert_eq!(w.output(), "abc\n\n");
    assert_eq!(w.current_position().0, 2);
}

#[test]
fn blank_line_keeps_pending_white_space() {
    let mut w = writer();
    w.space();
    w.blank_line();
    assert_eq!(w.output(), "\n");
    assert_eq!(w.current_line_len(), 1);
}

fn round_trip(placement: BlockPlacement) -> (usize, usize, String) {
    let mut w = writer();
    w.write_str("head");
    let block = Block::new("{", placement.clone(), "}", placement);
    let (before, _) = w.current_position();
    w.open_block(&block);
    w.write_str("body");
    w.close_block(&block);
    let (after, _) = w.current_position();
    w.flush();
    (before, after, w.output())
}

#[test]
fn block_round_trip_for_each_placement() {
    let (b, a, text) = round_trip(BlockPlacement::Trailing);
    assert_eq!(a - b, 0);
    assert_eq!(text, "head { body }");
    let (b, a, text) = round_trip(BlockPlacement::TrailingNewLine);
    assert_eq!(a - b, 2);
    assert_eq!(text, "head {\n    body\n }");
    let (b, a, text) = round_trip(BlockPlacement::OwnLine);
    assert_eq!(a - b, 4);
    assert_eq!(text, "head\n{\n    body\n}\n");
    let (b, a, text) = round_trip(BlockPlacement::OwnLineIndented);
    assert_eq!(a - b, 4);
    assert_eq!(text, "head\n    {\n        body\n    }\n");
}

#[test]
fn crlf_terminates_lines_with_carriage_return_then_line_feed() {
    let mut ws = WhitespaceHandling::default();
    ws.new_line(NewLine::CarriageReturnLineFeed);
    let mut w = CodeWriter::new(ws);
    w.write_str("a\r\nb");
    w.new_line();
    assert_eq!(w.output().as_bytes(), b"a\r\nb\r\n");
    assert_eq!(NewLine::CarriageReturnLineFeed.as_str(), "\r\n");
}

#[test]
fn embedded_line_feeds_end_lines() {
    let mut w = writer();
    w.indent();
    w.write_str("one\ntwo");
    assert_eq!(w.current_position(), (1, 7));
    w.new_line();
    w.outdent();
    assert_eq!(w.output(), "    one\n    two\n");
}

#[test]
fn trailing_white_space_follows_the_policy() {
    let mut w = writer();
    w.write_str("abc   ");
    w.new_line();
    assert_eq!(w.output(), "abc\n");
    let mut ws = WhitespaceHandling::default();
    ws.no_trim_trailing().indent("\t");
    let mut w = CodeWriter::new(ws);
    w.indent();
    w.write_str("abc  ");
    w.new_line();
    assert_eq!(w.output(), "\tabc  \n");
}

#[test]
fn line_comment_aligns_with_pending_text() {
    let mut w = writer();
    w.write_str("x");
    w.write_line_comment("//", "a\nb");
    assert_eq!(w.output(), "x // a\n // b\n");
}

#[test]
fn thrift_rejects_variables() {
    let mut w = writer();
    let r = ThriftWriter::default().write_variable(&mut w, &NamedValue::i32(Identifier::new("v"), 1));
    match r {
        Err(Error::UnsupportedElementKind(k)) => assert_eq!(k, "variable"),
        other => panic!("unexpected {:?}", other),
    }
    assert_eq!(w.output(), "");
    let r = ThriftWriter::default().write_sub_module(&mut w, &Module::new(Identifier::new("m")));
    assert!(matches!(r, Err(Error::UnsupportedElementKind(k)) if k == "module"));
}

#[test]
fn rendering_stops_at_an_unsupported_element() {
    let m = Module::new(Identifier::new("m"))
        .add_variable(NamedValue::boolean(Identifier::new("flag"), true))
        .build();
    let r = render(&m, &ThriftWriter::default(), WhitespaceHandling::default());
    assert!(matches!(r, Err(Error::UnsupportedElementKind(k)) if k == "variable"));
    let text = render(&m, &RustWriter::default(), WhitespaceHandling::default()).unwrap();
    assert_eq!(text, "\nlet flag: bool = true;\n\n");
}

#[test]
fn literal_values_in_each_syntax() {
    assert_eq!(value_str(&Value::I8(-128)), "-128");
    assert_eq!(value_str(&Value::I64(i64::MIN)), "-9223372036854775808");
    assert_eq!(value_str(&Value::U64(u64::MAX)), "18446744073709551615");
    assert_eq!(value_str(&Value::U16(0)), "0");
    assert_eq!(value_str(&Value::Char('x')), "x");
    assert_eq!(value_str(&Value::Boolean(false)), "false");
    assert_eq!(
        value_str(&Value::Values(vec![Value::I32(1), Value::I32(20)])),
        "[1, 20]"
    );
    assert_eq!(
        value_str(&Value::NamedValues(vec![
            (Value::from_str("a"), Value::U8(1)),
            (Value::from_str("b"), Value::U8(2)),
        ])),
        "{a: 1, b: 2}"
    );
    let m = Module::new(Identifier::new("m"))
        .add_constant(NamedValue::new(
            Identifier::new("M"),
            ValueType::map_of(ValueType::string(), ValueType::i32()),
            Value::NamedValues(vec![(Value::from_str("k"), Value::I32(-5))]),
        ))
        .build();
    let text = render(&m, &RustWriter::default(), WhitespaceHandling::default()).unwrap();
    assert_eq!(text, "\nconst M: HashMap<String, i32> = {k = -5};\n\n");
}

#[test]
fn type_expressions_in_each_syntax() {
    let f = ValueType::Function(
        vec![ValueType::array_of(ValueType::u8()), ValueType::set_of(ValueType::float64())],
        Some(Box::new(ValueType::Generic(
            Identifier::new("Result"),
            vec![ValueType::boolean(), ValueType::character()],
        ))),
    );
    assert_eq!(
        value_type_string(&f),
        "fn(list<byte>, set<double>) -> Result<boolean, i8>"
    );
    let rw = RustWriter::default();
    assert_eq!(
        rw.value_type(&f, false),
        "fn(Vec<u8>, HashSet<f64>) -> Result<bool, char>"
    );
    let c = ValueType::Constrained(
        Identifier::new("T"),
        vec![ValueType::Reference(Identifier::new("Clone")), ValueType::Reference(Identifier::new("Debug"))],
    );
    assert_eq!(rw.value_type(&c, true), "Option<T: Clone + Debug>");
}

#[test]
fn each_module_gets_one_file_in_content_order() {
    let leaf = Module::new(Identifier::new("c"))
        .add_comment(Comment::line("deep"))
        .build();
    let b = Module::new(Identifier::new("b")).add_sub_module(leaf).build();
    let d = Module::new(Identifier::new("d")).build();
    let top = Module::new(Identifier::new("a"))
        .add_sub_module(b)
        .add_comment(Comment::line("top"))
        .add_sub_module(d)
        .build();
    let files = write_modules(&top, &RustWriter::default(), &WhitespaceHandling::default()).unwrap();
    let names: Vec<String> = files.iter().map(|f| f.namespace.join("::")).collect();
    assert_eq!(names, vec!["a", "a::b", "a::b::c", "a::d"]);
    let parents: Vec<Option<usize>> = files.iter().map(|f| f.parent).collect();
    assert_eq!(parents, vec![None, Some(0), Some(1), Some(0)]);
    assert_eq!(files[0].text, "\nmod b;\n\n// top\n\nmod d;\n\n");
    assert_eq!(files[2].text, "\n// deep\n\n");
    let r = write_modules(&top, &ThriftWriter::default(), &WhitespaceHandling::default());
    assert!(matches!(r, Err(Error::UnsupportedElementKind(k)) if k == "module"));
}
