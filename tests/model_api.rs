use code_writer::error::Error;
use code_writer::language::rust::RustWriter;
use code_writer::model::{
    Builder, Comment, Field, HasDocumentation, HasName, HasProperties, HasVisibility, Identifier,
    Import, ImportItem, IsOptional, Module, Namespace, Property, StructuredType, Value, ValueType,
    Visibility,
};
use code_writer::writer::{render, WhitespaceHandling};

fn address_model() -> Module {
    Module::new(Identifier::new("address"))
        .set_documentation("This module provides a simple address type.")
        .add_import(Import::with_items(
            Namespace::from_identifier(Identifier::new("serde")),
            vec![
                ImportItem::new(Identifier::new("Deserialize")),
                ImportItem::new(Identifier::new("Serialize")),
            ],
        ))
        .add_structure(
            StructuredType::structure(Identifier::new("Address"))
                .make_public()
                .set_documentation("A Locale-neutral address type.")
                .add_property(Property::with_value(
                    Identifier::new("derive"),
                    Value::Values(vec![
                        Value::from_str("Clone"),
                        Value::from_str("Debug"),
                        Value::from_str("PartialEq"),
                        Value::from_str("Deserialize"),
                        Value::from_str("Serialize"),
                    ]),
                ))
                .add_field(
                    Field::new(Identifier::new("property_number"), ValueType::string())
                        .set_documentation("The number of the property on a street.")
                        .make_public()
                        .required()
                        .build(),
                )
                .add_field(
                    Field::new(Identifier::new("property_street"), ValueType::string())
                        .set_documentation("The street the property is on.")
                        .make_public()
                        .required()
                        .build(),
                )
                .add_field(
                    Field::new(Identifier::new("unit_number"), ValueType::string())
                        .set_documentation("The unit within the property.")
                        .make_public()
                        .optional()
                        .build(),
                )
                .add_field(
                    Field::new(Identifier::new("city"), ValueType::string())
                        .set_documentation("The city in which the property exists.")
                        .make_public()
                        .required()
                        .build(),
                )
                .add_field(
                    Field::new(Identifier::new("region"), ValueType::string())
                        .set_documentation("An optional region such as state, county, etc.")
                        .make_public()
                        .optional()
                        .build(),
                )
                .add_field(
                    Field::new(Identifier::new("postal_code"), ValueType::string())
                        .set_documentation("A country-specific postal code.")
                        .make_public()
                        .required()
                        .build(),
                )
                .add_field(
                    Field::new(Identifier::new("country"), ValueType::string())
                        .set_documentation("The country in which the property exists.")
                        .make_public()
                        .required()
                        .build(),
                )
                .build(),
        )
        .add_sub_module(
            Module::new(Identifier::new("countries"))
                .make_public()
                .build(),
        )
        .build()
}

#[test]
fn make_a_model() {
    let module = address_model();
    let text = render(&module, &RustWriter::default(), WhitespaceHandling::default()).unwrap();
    let expected = "/*!\n\
This module provides a simple address type.\n\
*/\n\
\n\
use serde::{Deserialize, Serialize};\n\
\n\
/**\n\
A Locale-neutral address type.\n\
*/\n\
#[derive(Clone, Debug, PartialEq, Deserialize, Serialize)]\n\
pub struct Address {\n\
\x20   /**\n\
\x20   The number of the property on a street.\n\
\x20   */\n\
\x20   pub property_number: String,\n\
\x20   /**\n\
\x20   The street the property is on.\n\
\x20   */\n\
\x20   pub property_street: String,\n\
\x20   /**\n\
\x20   The unit within the property.\n\
\x20   */\n\
\x20   pub unit_number: Option<String>,\n\
\x20   /**\n\
\x20   The city in which the property exists.\n\
\x20   */\n\
\x20   pub city: String,\n\
\x20   /**\n\
\x20   An optional region such as state, county, etc.\n\
\x20   */\n\
\x20   pub region: Option<String>,\n\
\x20   /**\n\
\x20   A country-specific postal code.\n\
\x20   */\n\
\x20   pub postal_code: String,\n\
\x20   /**\n\
\x20   The country in which the property exists.\n\
\x20   */\n\
\x20   pub country: String,\n\
}\n\
\n\
pub mod countries;\n\
\n\
\n";
    assert_eq!(text, expected);
}

#[test]
fn identifier_keeps_its_text() {
    let i = Identifier::parse("abc").unwrap();
    assert_eq!(i.as_str(), "abc");
    assert_eq!(Identifier::new("x_1").as_str(), "x_1");
}

#[test]
fn empty_identifier_is_rejected() {
    match Identifier::parse("") {
        Err(Error::InvalidIdentifierValue(t)) => assert_eq!(t, ""),
        other => panic!("unexpected {:?}", other),
    }
}

#[test]
fn namespace_operations() {
    let mut ns = Namespace::new(vec![Identifier::new("a"), Identifier::new("b")]);
    assert_eq!(ns.join("::"), "a::b");
    assert_eq!(ns.join("/"), "a/b");
    assert!(ns.contains(&Identifier::new("b")));
    assert!(!ns.contains(&Identifier::new("c")));
    let longer = ns.with(Identifier::new("c"));
    assert_eq!(longer.join("."), "a.b.c");
    assert_eq!(ns.path().len(), 2);
    assert_eq!(ns.pop().unwrap().as_str(), "b");
    assert!(ns.pop().is_none());
    assert_eq!(ns.join("::"), "a");
    ns.push(Identifier::new("z"));
    assert_eq!(ns.join("::"), "a::z");
}

#[test]
fn build_hands_out_a_snapshot() {
    let mut builder = Comment::line("first");
    let snapshot = builder.build();
    builder.set_text("second");
    assert_eq!(snapshot.text(), "first");
    assert!(snapshot.is_line());
    assert_eq!(builder.text(), "second");

    let mut field = Field::new(Identifier::new("f"), ValueType::string());
    let before = field.build();
    field.optional().make_public().set_name(Identifier::new("g"));
    assert!(!before.is_optional());
    assert!(before.visibility().is_none());
    assert_eq!(before.name().as_str(), "f");
    assert!(field.is_optional());
    assert!(field.is_public());
    assert!(!field.is_private());
    assert_eq!(field.name().as_str(), "g");
}

#[test]
fn kind_stays_as_constructed() {
    let mut s = StructuredType::union(Identifier::new("U"));
    s.make_public()
        .set_documentation("d")
        .add_field(Field::new(Identifier::new("f"), ValueType::i8()));
    assert!(matches!(s.kind(), code_writer::model::StructuredTypeKind::Union));
    assert_eq!(s.fields().len(), 1);
}

#[test]
fn visibility_queries_name_one_visibility() {
    let mut s = StructuredType::structure(Identifier::new("S"));
    assert!(!s.has_visibility());
    s.make_private();
    assert!(s.is_private());
    assert!(!s.is_public());
    s.set_visibility(Visibility::Local);
    assert!(s.is_local());
    assert!(!s.is_package());
    s.unset_visibility();
    assert!(!s.has_visibility());
    assert!(!s.has_properties());
    s.add_property(Property::new(Identifier::new("p")));
    assert!(s.has_properties());
}

#[test]
fn value_types_of_literals() {
    assert!(matches!(
        Value::I32(3).value_type(),
        Some(ValueType::Known(code_writer::model::KnownType::I32))
    ));
    assert!(Value::Values(vec![]).value_type().is_none());
    assert!(Value::Identifier(Identifier::new("K")).value_type().is_none());
    assert!(matches!(ValueType::set_of(ValueType::u8()), ValueType::SetOf(_)));
}
