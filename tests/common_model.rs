use code_writer::model::{
    Builder, Comment, Enumeration, Field, HasDocumentation, HasVisibility, Identifier, Import,
    IsOptional, KnownType, Module, NamedValue, Namespace, StructuredType, TypeAlias, ValueType,
    Visibility,
};
use code_writer::writer::{CodeWriter, ModuleWriter, WhitespaceHandling};
use code_writer::language::rust::RustWriter;
use code_writer::language::thrift::ThriftWriter;

fn id(s: &str) -> Identifier {
    Identifier::new(s)
}

fn address_structure() -> StructuredType {
    StructuredType::structure(id("Address"))
        .set_visibility(Visibility::Package)
        .add_field(
            Field::new(id("line_one"), ValueType::Known(KnownType::String))
                .required()
                .build(),
        )
        .add_field(
            Field::new(id("line_two"), ValueType::Known(KnownType::String))
                .optional()
                .build(),
        )
        .add_field(
            Field::new(id("city"), ValueType::Known(KnownType::String))
                .required()
                .build(),
        )
        .add_field(
            Field::new(id("state"), ValueType::Known(KnownType::String))
                .required()
                .build(),
        )
        .add_field(
            Field::new(id("zip"), ValueType::Known(KnownType::String))
                .required()
                .build(),
        )
        .build()
}

fn io_import() -> Import {
    Import::new(Namespace::new(vec![id("std"), id("io")]))
        .item(id("Write"))
        .item_with_alias(id("Error"), id("IoError"))
        .build()
}

fn write_code_model<W: ModuleWriter>(code: &mut CodeWriter, writer: &W) {
    writer.write_import(code, &io_import()).unwrap();
    code.blank_line();

    writer
        .write_comment(code, &Comment::line("hello world!"))
        .unwrap();
    code.blank_line();

    writer
        .write_comment(code, &Comment::block("some more text"))
        .unwrap();

    writer
        .write_constant(
            code,
            &NamedValue::float64(id("pi"), &std::f64::consts::PI.to_string()),
        )
        .unwrap();
    code.blank_line();

    writer
        .write_structured_type(code, &address_structure())
        .unwrap();
    code.blank_line();

    writer
        .write_enumeration(
            code,
            Enumeration::new(id("AddressType"))
                .set_documentation("the type, required by postal service.")
                .set_visibility(Visibility::Public)
                .add_named_variant(id("Commercial"))
                .add_named_variant(id("POBox"))
                .add_named_variant(id("Residential")),
        )
        .unwrap();
    code.blank_line();

    writer
        .write_type_alias(
            code,
            &TypeAlias::with_visibility(
                Visibility::Public,
                id("AddrType"),
                ValueType::Reference(id("AddressType")),
            ),
        )
        .unwrap();

    code.flush();
}

#[test]
fn rust_basic_test_generate() {
    let mut code = CodeWriter::new(WhitespaceHandling::default());
    let rust_writer = RustWriter::default();
    write_code_model(&mut code, &rust_writer);
    let expected = "use std::io::{Write, Error as IoError};\n\
\n\
// hello world!\n\
\n\
/*\n\
some more text\n\
*/\n\
const pi: f64 = 3.141592653589793;\n\
\n\
pub(crate) struct Address {\n\
\x20   line_one: String,\n\
\x20   line_two: Option<String>,\n\
\x20   city: String,\n\
\x20   state: String,\n\
\x20   zip: String,\n\
}\n\
\n\
/**\n\
the type, required by postal service.\n\
*/\n\
pub enum AddressType {\n\
\x20   Commercial,\n\
\x20   POBox,\n\
\x20   Residential,\n\
}\n\
\n\
pub type AddrType = AddressType;\n";
    assert_eq!(code.output(), expected);
}

#[test]
fn thrift_basic_test_generate() {
    let mut code = CodeWriter::new(WhitespaceHandling::default());
    let thrift_writer = ThriftWriter::default();
    write_code_model(&mut code, &thrift_writer);
    let expected = "include \"std/io\"\n\
\n\
# hello world!\n\
\n\
/*\n\
some more text\n\
*/\n\
const double pi = 3.141592653589793\n\
\n\
struct Address {\n\
\x20   1: required string line_one,\n\
\x20   2: optional string line_two,\n\
\x20   3: required string city,\n\
\x20   4: required string state,\n\
\x20   5: required string zip,\n\
}\n\
\n\
enum AddressType {\n\
\x20   Commercial,\n\
\x20   POBox,\n\
\x20   Residential,\n\
}\n\
\n\
typedef AddressType AddrType\n";
    assert_eq!(code.output(), expected);
}

fn address_module() -> Module {
    Module::new(id("address"))
        .add_import(io_import())
        .add_comment(Comment::line("hello world!"))
        .add_structure(address_structure())
        .add_enumeration(
            Enumeration::new(id("AddressType"))
                .make_public()
                .add_named_variant(id("Commercial"))
                .add_named_variant(id("POBox"))
                .add_named_variant(id("Residential"))
                .build(),
        )
        .add_alias(TypeAlias::with_visibility(
            Visibility::Public,
            id("AddrType"),
            ValueType::Reference(id("AddressType")),
        ))
        .build()
}

#[test]
fn address_module_renders_in_rust_syntax() {
    let text = code_writer::writer::render(
        &address_module(),
        &RustWriter::default(),
        WhitespaceHandling::default(),
    )
    .unwrap();
    let expected = "\n\
use std::io::{Write, Error as IoError};\n\
\n\
// hello world!\n\
\n\
pub(crate) struct Address {\n\
\x20   line_one: String,\n\
\x20   line_two: Option<String>,\n\
\x20   city: String,\n\
\x20   state: String,\n\
\x20   zip: String,\n\
}\n\
\n\
pub enum AddressType {\n\
\x20   Commercial,\n\
\x20   POBox,\n\
\x20   Residential,\n\
}\n\
\n\
pub type AddrType = AddressType;\n\
\n";
    assert_eq!(text, expected);
}

#[test]
fn address_module_renders_in_thrift_syntax() {
    let text = code_writer::writer::render(
        &address_module(),
        &ThriftWriter::default(),
        WhitespaceHandling::default(),
    )
    .unwrap();
    let expected = "\n\
\n\
include \"std/io\"\n\
\n\
# hello world!\n\
\n\
struct Address {\n\
\x20   1: required string line_one,\n\
\x20   2: optional string line_two,\n\
\x20   3: required string city,\n\
\x20   4: required string state,\n\
\x20   5: required string zip,\n\
}\n\
\n\
enum AddressType {\n\
\x20   Commercial,\n\
\x20   POBox,\n\
\x20   Residential,\n\
}\n\
\n\
typedef AddressType AddrType\n\
\n";
    assert_eq!(text, expected);
}
