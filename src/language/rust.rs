//! A renderer for a curly-brace declaration syntax in the style of Rust: `struct`,
//! `enum`, `const`, `let`, `fn`, `type` and `use` forms, `#[...]` attributes, optional
//! types wrapped in `Option<...>`, and `/** ... */` documentation.
use crate::error::Error;
use crate::language::{type_string, type_text, value_string, value_text, Syntax};
use crate::model::identity::names;
use crate::model::{
    HasDocumentation, HasName, HasProperties, HasVisibility,
    Comment, Enumeration, EnumerationVariant, Field, FunctionDecl, Import, ImportItem, Module,
    NamedValue, Parameter, Property, StructuredType, StructuredTypeKind, TypeAlias, Value,
    ValueType, Visibility,
};
use crate::text::{join, join_strings, views};
use crate::writer::{CodeWriter, Layout, ModuleWriter};
use vstd::prelude::*;

verus! {

/// The Rust-style renderer. It supports every kind of element.
pub struct RustWriter {}

impl Default for RustWriter {
    fn default() -> (r: Self) {
        RustWriter {  }
    }
}

/// Where the files of a module tree go: every module stays in the location it is given.
pub fn namespace_to_file_path(namespace: &crate::model::Namespace, current_path: &str) -> (r:
    String)
    ensures
        r@ == current_path@,
{
    String::from_str(current_path)
}

/// The visibility prefix of a declaration.
pub open spec fn visibility_text(v: Option<Visibility>) -> Seq<char> {
    match v {
        Some(Visibility::Local) => "pub(super) "@,
        Some(Visibility::Package) => "pub(crate) "@,
        Some(Visibility::Public) => "pub "@,
        _ => Seq::empty(),
    }
}

fn visibility_string(v: &Option<Visibility>) -> (r: String)
    ensures
        r@ == visibility_text(*v),
{
    let s = match v {
        Some(Visibility::Local) => "pub(super) ",
        Some(Visibility::Package) => "pub(crate) ",
        Some(Visibility::Public) => "pub ",
        _ => "",
    };
    proof {
        reveal_strlit("");
    }
    String::from_str(s)
}

/// A type, wrapped in `Option<...>` when it is optional.
pub open spec fn rust_type(t: ValueType, optional: bool) -> Seq<char> {
    if optional {
        "Option<"@ + type_text(Syntax::Rust, t) + ">"@
    } else {
        type_text(Syntax::Rust, t)
    }
}

/// Documentation, if any, as a `/** ... */` block.
pub open spec fn documented(l: Layout, doc: Option<String>) -> Layout {
    match doc {
        Some(d) => l.block_comment("/**"@, "*/"@, d@),
        None => l,
    }
}

/// The line of one attribute: `#[name]` or `#[name(value)]`.
pub open spec fn attribute_text(p: Property) -> Seq<char> {
    "#["@ + p.name@ + match p.value {
        Some(v) => value_text(Syntax::Rust, true, v),
        None => Seq::empty(),
    } + "]"@
}

/// Each property as an attribute on a line of its own.
pub open spec fn attributed(l: Layout, props: Seq<Property>) -> Layout
    decreases props.len(),
{
    if props.len() == 0 {
        l
    } else {
        attributed(l, props.drop_last()).write(attribute_text(props.last())).new_line()
    }
}

/// The line of a field: visibility, name, type.
pub open spec fn field_text(f: Field) -> Seq<char> {
    visibility_text(f.visibility) + f.name@ + ": "@ + rust_type(f.value_type, f.optional) + ","@
}

/// Each field with its documentation and attributes, one per line.
pub open spec fn fields_layout(l: Layout, fields: Seq<Field>) -> Layout
    decreases fields.len(),
{
    if fields.len() == 0 {
        l
    } else {
        let f = fields.last();
        attributed(documented(fields_layout(l, fields.drop_last()), f.documentation), f.properties@).write(
            field_text(f),
        ).new_line()
    }
}

/// The line of an enumeration variant: its name, and its payload type if any.
pub open spec fn variant_text(v: EnumerationVariant) -> Seq<char> {
    v.name@ + match v.value_type {
        Some(t) => "("@ + type_text(Syntax::Rust, t) + ")"@,
        None => Seq::empty(),
    } + ","@
}

/// Each variant with its documentation and attributes, one per line.
pub open spec fn variants_layout(l: Layout, variants: Seq<EnumerationVariant>) -> Layout
    decreases variants.len(),
{
    if variants.len() == 0 {
        l
    } else {
        let v = variants.last();
        attributed(documented(variants_layout(l, variants.drop_last()), v.documentation), v.properties@).write(
            variant_text(v),
        ).new_line()
    }
}

/// A braced body: `head` ends with ` {`; then the members, one level deeper, if there are
/// any; then `}` on a line of its own.
pub open spec fn braced(head: Layout, members: Option<Layout>) -> Layout {
    match members {
        Some(m) => m.outdented().write("}"@).new_line(),
        None => head.write("}"@).new_line(),
    }
}

/// The layout of a structured type declared with `keyword`.
pub open spec fn structure_layout(l: Layout, rec: StructuredType, keyword: Seq<char>) -> Layout {
    let head = attributed(documented(l, rec.doc_of()), rec.properties_of()@).write(
        visibility_text(rec.visibility_of()) + keyword + " "@ + rec.name_of()@ + " {"@,
    );
    braced(
        head,
        if rec.fields_of()@.len() == 0 {
            None
        } else {
            Some(fields_layout(head.new_line().indented(), rec.fields_of()@))
        },
    )
}

/// The keyword of each kind of structured type; exceptions are structures.
pub open spec fn kind_keyword(kind: StructuredTypeKind) -> Seq<char> {
    match kind {
        StructuredTypeKind::Structure => "struct"@,
        StructuredTypeKind::Union => "union"@,
        StructuredTypeKind::Exception => "struct"@,
        StructuredTypeKind::Class => "class"@,
        StructuredTypeKind::Interface => "interface"@,
        StructuredTypeKind::Service => "service"@,
    }
}

/// The layout of an enumeration.
pub open spec fn enumeration_layout(l: Layout, e: Enumeration) -> Layout {
    let head = attributed(documented(l, e.documentation), e.properties@).write(
        visibility_text(e.visibility) + "enum "@ + e.name@ + " {"@,
    );
    braced(
        head,
        if e.variants@.len() == 0 {
            None
        } else {
            Some(variants_layout(head.new_line().indented(), e.variants@))
        },
    )
}

/// The line of a constant.
pub open spec fn constant_text(c: NamedValue) -> Seq<char> {
    visibility_text(c.visibility) + "const "@ + c.name@ + ": "@ + type_text(
        Syntax::Rust,
        c.value_type,
    ) + " = "@ + value_text(Syntax::Rust, false, c.value) + ";"@
}

/// The line of a variable; variables carry no visibility.
pub open spec fn variable_text(c: NamedValue) -> Seq<char> {
    "let "@ + c.name@ + ": "@ + type_text(Syntax::Rust, c.value_type) + " = "@ + value_text(
        Syntax::Rust,
        false,
        c.value,
    ) + ";"@
}

/// The text of a parameter: its name and type.
pub open spec fn parameter_text(p: Parameter) -> Seq<char> {
    p.name@ + ": "@ + rust_type(p.value_type, p.optional)
}

/// The texts of a list of parameters.
pub open spec fn parameter_texts(ps: Seq<Parameter>) -> Seq<Seq<char>> {
    ps.map_values(|p: Parameter| parameter_text(p))
}

/// The line of a function declaration.
pub open spec fn function_text(f: FunctionDecl) -> Seq<char> {
    visibility_text(f.visibility) + "fn "@ + f.name@ + "("@ + join(
        parameter_texts(f.parameters@),
        ", "@,
    ) + ")"@ + match f.value_type {
        Some(t) => ": "@ + type_text(Syntax::Rust, t),
        None => Seq::empty(),
    } + ";"@
}

/// The line of a type alias.
pub open spec fn alias_text(a: TypeAlias) -> Seq<char> {
    visibility_text(a.visibility) + "type "@ + a.name@ + " = "@ + type_text(
        Syntax::Rust,
        a.value_type,
    ) + ";"@
}

/// The text of an imported item: its name, and ` as alias` if it has one.
pub open spec fn item_text(i: ImportItem) -> Seq<char> {
    i.name@ + match i.alias {
        Some(a) => " as "@ + a@,
        None => Seq::empty(),
    }
}

/// The texts of a list of imported items.
pub open spec fn item_texts(items: Seq<ImportItem>) -> Seq<Seq<char>> {
    items.map_values(|i: ImportItem| item_text(i))
}

/// The line of an import: a lone item joins the path, several are grouped in braces,
/// and with no items the namespace itself is imported.
pub open spec fn import_text(i: Import) -> Seq<char> {
    visibility_text(i.visibility) + "use "@ + join(names(i.namespace@), "::"@) + if i.items@.len()
        == 0 {
        Seq::empty()
    } else if i.items@.len() == 1 {
        "::"@ + item_text(i.items@[0])
    } else {
        "::{"@ + join(item_texts(i.items@), ", "@) + "}"@
    } + ";"@
}

/// The text of an imported item: its name, and ` as alias` if it has one.
pub fn import_item(ii: &ImportItem) -> (r: String)
    ensures
        r@ == item_text(*ii),
{
    let mut r = String::from_str(ii.name.as_str());
    match &ii.alias {
        Some(a) => {
            r.append(" as ");
            r.append(a.as_str());
        },
        None => {},
    }
    r
}

impl RustWriter {
    /// Writes documentation, if any, as a `/** ... */` block.
    pub fn write_documentation(&self, writer: &mut CodeWriter, doc: &Option<String>)
        ensures
            final(writer)@ == documented(old(writer)@, *doc),
            final(writer)@.depth == old(writer)@.depth,
    {
        match doc {
            Some(d) => writer.write_block_comment("/**", "*/", d.as_str()),
            None => {},
        }
    }

    /// Writes each property as an attribute on a line of its own.
    pub fn write_attributes(&self, writer: &mut CodeWriter, properties: &Vec<Property>)
        ensures
            final(writer)@ == attributed(old(writer)@, properties@),
            final(writer)@.depth == old(writer)@.depth,
    {
        let ghost l0 = writer@;
        let n = properties.len();
        let mut i: usize = 0;
        proof {
            assert(properties@.take(0) =~= Seq::<Property>::empty());
        }
        while i < n
            invariant
                n == properties@.len(),
                i <= n,
                writer@ == attributed(l0, properties@.take(i as int)),
                writer@.depth == l0.depth,
            decreases n - i,
        {
            let p = &properties[i];
            let mut line = String::from_str("#[");
            line.append(p.name.as_str());
            match &p.value {
                Some(v) => {
                    let vt = value_string(Syntax::Rust, true, v);
                    line.append(vt.as_str());
                },
                None => {},
            }
            line.append("]");
            writer.write_str(line.as_str());
            writer.new_line();
            proof {
                assert(properties@.take(i as int + 1).drop_last() =~= properties@.take(i as int));
            }
            i += 1;
        }
        proof {
            assert(properties@.take(n as int) =~= properties@);
        }
    }

    /// Writes a visibility prefix.
    pub fn write_visibility(&self, writer: &mut CodeWriter, visibility: &Option<Visibility>)
        ensures
            final(writer)@ == old(writer)@.write(visibility_text(*visibility)),
            final(writer)@.depth == old(writer)@.depth,
    {
        let v = visibility_string(visibility);
        writer.write_str(v.as_str());
    }

    /// The text of a literal value; `is_attribute` marks a value inside an attribute.
    pub fn value(&self, value: &Value, is_attribute: bool) -> (r: String)
        ensures
            r@ == value_text(Syntax::Rust, is_attribute, *value),
    {
        value_string(Syntax::Rust, is_attribute, value)
    }

    /// The text of a type, wrapped in `Option<...>` when it is optional.
    pub fn value_type(&self, value_type: &ValueType, optional: bool) -> (r: String)
        ensures
            r@ == rust_type(*value_type, optional),
    {
        let t = type_string(Syntax::Rust, value_type);
        if optional {
            let mut r = String::from_str("Option<");
            r.append(t.as_str());
            r.append(">");
            r
        } else {
            t
        }
    }

    fn write_fields(&self, writer: &mut CodeWriter, fields: &Vec<Field>)
        ensures
            final(writer)@ == fields_layout(old(writer)@, fields@),
            final(writer)@.depth == old(writer)@.depth,
    {
        let ghost l0 = writer@;
        let n = fields.len();
        let mut i: usize = 0;
        proof {
            assert(fields@.take(0) =~= Seq::<Field>::empty());
        }
        while i < n
            invariant
                n == fields@.len(),
                i <= n,
                writer@ == fields_layout(l0, fields@.take(i as int)),
                writer@.depth == l0.depth,
            decreases n - i,
        {
            let f = &fields[i];
            self.write_documentation(writer, &f.documentation);
            self.write_attributes(writer, &f.properties);
            let mut line = visibility_string(&f.visibility);
            let ty = self.value_type(&f.value_type, f.optional);
            line.append(f.name.as_str());
            line.append(": ");
            line.append(ty.as_str());
            line.append(",");
            writer.write_str(line.as_str());
            writer.new_line();
            proof {
                assert(fields@.take(i as int + 1).drop_last() =~= fields@.take(i as int));
            }
            i += 1;
        }
        proof {
            assert(fields@.take(n as int) =~= fields@);
        }
    }

    fn write_variants(&self, writer: &mut CodeWriter, variants: &Vec<EnumerationVariant>)
        ensures
            final(writer)@ == variants_layout(old(writer)@, variants@),
            final(writer)@.depth == old(writer)@.depth,
    {
        let ghost l0 = writer@;
        let n = variants.len();
        let mut i: usize = 0;
        proof {
            assert(variants@.take(0) =~= Seq::<EnumerationVariant>::empty());
        }
        while i < n
            invariant
                n == variants@.len(),
                i <= n,
                writer@ == variants_layout(l0, variants@.take(i as int)),
                writer@.depth == l0.depth,
            decreases n - i,
        {
            let v = &variants[i];
            self.write_documentation(writer, &v.documentation);
            self.write_attributes(writer, &v.properties);
            let mut line = String::from_str(v.name.as_str());
            match &v.value_type {
                Some(t) => {
                    let ts = type_string(Syntax::Rust, t);
                    line.append("(");
                    line.append(ts.as_str());
                    line.append(")");
                },
                None => {},
            }
            line.append(",");
            assert(line@ =~= variant_text(*v));
            writer.write_str(line.as_str());
            writer.new_line();
            proof {
                assert(variants@.take(i as int + 1).drop_last() =~= variants@.take(i as int));
            }
            i += 1;
        }
        proof {
            assert(variants@.take(n as int) =~= variants@);
        }
    }

    /// Writes a structured type declared with `kind`.
    pub fn write_structure(&self, writer: &mut CodeWriter, record: &StructuredType, kind: &str)
        requires
            old(writer)@.depth < usize::MAX,
        ensures
            final(writer)@ == structure_layout(old(writer)@, *record, kind@),
            final(writer)@.depth == old(writer)@.depth,
    {
        self.write_documentation(writer, record.documentation());
        self.write_attributes(writer, record.properties());
        let mut head = visibility_string(record.visibility());
        head.append(kind);
        head.append(" ");
        head.append(record.name().as_str());
        head.append(" {");
        writer.write_str(head.as_str());
        if record.fields().len() > 0 {
            writer.new_line();
            writer.indent();
            self.write_fields(writer, record.fields());
            writer.outdent();
        }
        writer.write_str("}");
        writer.new_line();
    }

    /// Writes a block comment between `start` and `end`.
    pub fn write_block_comment(&self, writer: &mut CodeWriter, start: &str, end: &str, text: &str)
        ensures
            final(writer)@ == old(writer)@.block_comment(start@, end@, text@),
            final(writer)@.depth == old(writer)@.depth,
    {
        writer.write_block_comment(start, end, text);
    }

    /// Writes a line comment after `prefix`.
    pub fn write_line_comment(&self, writer: &mut CodeWriter, prefix: &str, text: &str)
        ensures
            final(writer)@ == old(writer)@.line_comment(prefix@, text@),
            final(writer)@.depth == old(writer)@.depth,
    {
        writer.write_line_comment(prefix, text);
    }
}

impl ModuleWriter for RustWriter {
    open spec fn module_layout(&self, before: Layout, x: Module) -> Option<Layout> {
        Some(
            match x.documentation {
                Some(d) => before.block_comment("/*!"@, "*/"@, d@),
                None => before,
            },
        )
    }

    open spec fn sub_module_layout(&self, before: Layout, x: Module) -> Option<Layout> {
        Some(before.write(visibility_text(x.visibility) + "mod "@ + x.name@ + ";"@).new_line())
    }

    open spec fn import_layout(&self, before: Layout, x: Import) -> Option<Layout> {
        Some(before.write(import_text(x)).new_line())
    }

    open spec fn comment_layout(&self, before: Layout, x: Comment) -> Option<Layout> {
        Some(
            if x.is_block {
                before.block_comment("/*"@, "*/"@, x.text@)
            } else {
                before.line_comment("//"@, x.text@)
            },
        )
    }

    open spec fn structured_type_layout(&self, before: Layout, x: StructuredType) -> Option<
        Layout,
    > {
        Some(structure_layout(before, x, kind_keyword(x.kind_of())))
    }

    open spec fn enumeration_layout(&self, before: Layout, x: Enumeration) -> Option<Layout> {
        Some(enumeration_layout(before, x))
    }

    open spec fn constant_layout(&self, before: Layout, x: NamedValue) -> Option<Layout> {
        Some(
            attributed(documented(before, x.documentation), x.properties@).write(
                constant_text(x),
            ).new_line(),
        )
    }

    open spec fn variable_layout(&self, before: Layout, x: NamedValue) -> Option<Layout> {
        Some(
            attributed(documented(before, x.documentation), x.properties@).write(
                variable_text(x),
            ).new_line(),
        )
    }

    open spec fn function_decl_layout(&self, before: Layout, x: FunctionDecl) -> Option<Layout> {
        Some(
            attributed(documented(before, x.documentation), x.properties@).write(
                function_text(x),
            ).new_line(),
        )
    }

    open spec fn type_alias_layout(&self, before: Layout, x: TypeAlias) -> Option<Layout> {
        Some(before.write(alias_text(x)).new_line())
    }

    fn write_module(&self, writer: &mut CodeWriter, module: &Module) -> (r: Result<(), Error>) {
        match &module.documentation {
            Some(d) => writer.write_block_comment("/*!", "*/", d.as_str()),
            None => {},
        }
        Ok(())
    }

    fn write_sub_module(&self, writer: &mut CodeWriter, module: &Module) -> (r: Result<(), Error>) {
        let mut line = visibility_string(&module.visibility);
        line.append("mod ");
        line.append(module.name.as_str());
        line.append(";");
        writer.write_str(line.as_str());
        writer.new_line();
        Ok(())
    }

    fn write_import(&self, writer: &mut CodeWriter, import: &Import) -> (r: Result<(), Error>) {
        let mut line = visibility_string(&import.visibility);
        let path = import.namespace.join("::");
        line.append("use ");
        line.append(path.as_str());
        let n = import.items.len();
        if n == 1 {
            let item = import_item(&import.items[0]);
            line.append("::");
            line.append(item.as_str());
        } else if n > 1 {
            let mut items: Vec<String> = Vec::new();
            let mut i: usize = 0;
            while i < n
                invariant
                    n == import.items@.len(),
                    i <= n,
                    views(items@) == item_texts(import.items@).take(i as int),
                decreases n - i,
            {
                let ghost before = items@;
                items.push(import_item(&import.items[i]));
                proof {
                    assert(items@ == before.push(items@.last()));
                    assert(views(items@) =~= views(before).push(items@.last()@));
                    assert(views(items@) =~= item_texts(import.items@).take(i as int + 1));
                }
                i += 1;
            }
            proof {
                assert(item_texts(import.items@).take(n as int) =~= item_texts(import.items@));
            }
            let joined = join_strings(&items, ", ");
            line.append("::{");
            line.append(joined.as_str());
            line.append("}");
        }
        line.append(";");
        proof {
            assert(line@ =~= import_text(*import));
        }
        writer.write_str(line.as_str());
        writer.new_line();
        Ok(())
    }

    fn write_comment(&self, writer: &mut CodeWriter, comment: &Comment) -> (r: Result<(), Error>) {
        if comment.is_line() {
            self.write_line_comment(writer, "//", comment.text.as_str());
        } else {
            self.write_block_comment(writer, "/*", "*/", comment.text.as_str());
        }
        Ok(())
    }

    fn write_structured_type(&self, writer: &mut CodeWriter, structure: &StructuredType) -> (r:
        Result<(), Error>) {
        let keyword = match structure.kind() {
            StructuredTypeKind::Structure => "struct",
            StructuredTypeKind::Union => "union",
            StructuredTypeKind::Exception => "struct",
            StructuredTypeKind::Class => "class",
            StructuredTypeKind::Interface => "interface",
            StructuredTypeKind::Service => "service",
        };
        self.write_structure(writer, structure, keyword);
        Ok(())
    }

    fn write_enumeration(&self, writer: &mut CodeWriter, enumeration: &Enumeration) -> (r: Result<
        (),
        Error,
    >) {
        self.write_documentation(writer, &enumeration.documentation);
        self.write_attributes(writer, &enumeration.properties);
        let mut head = visibility_string(&enumeration.visibility);
        head.append("enum ");
        head.append(enumeration.name.as_str());
        head.append(" {");
        writer.write_str(head.as_str());
        if enumeration.variants.len() > 0 {
            writer.new_line();
            writer.indent();
            self.write_variants(writer, &enumeration.variants);
            writer.outdent();
        }
        writer.write_str("}");
        writer.new_line();
        Ok(())
    }

    fn write_constant(&self, writer: &mut CodeWriter, constant: &NamedValue) -> (r: Result<(), Error>) {
        self.write_documentation(writer, &constant.documentation);
        self.write_attributes(writer, &constant.properties);
        let mut line = visibility_string(&constant.visibility);
        let ty = type_string(Syntax::Rust, &constant.value_type);
        let value = value_string(Syntax::Rust, false, &constant.value);
        line.append("const ");
        line.append(constant.name.as_str());
        line.append(": ");
        line.append(ty.as_str());
        line.append(" = ");
        line.append(value.as_str());
        line.append(";");
        writer.write_str(line.as_str());
        writer.new_line();
        Ok(())
    }

    fn write_variable(&self, writer: &mut CodeWriter, variable: &NamedValue) -> (r: Result<(), Error>) {
        self.write_documentation(writer, &variable.documentation);
        self.write_attributes(writer, &variable.properties);
        let mut line = String::from_str("let ");
        let ty = type_string(Syntax::Rust, &variable.value_type);
        let value = value_string(Syntax::Rust, false, &variable.value);
        line.append(variable.name.as_str());
        line.append(": ");
        line.append(ty.as_str());
        line.append(" = ");
        line.append(value.as_str());
        line.append(";");
        writer.write_str(line.as_str());
        writer.new_line();
        Ok(())
    }

    fn write_function_decl(&self, writer: &mut CodeWriter, function_decl: &FunctionDecl) -> (r:
        Result<(), Error>) {
        self.write_documentation(writer, &function_decl.documentation);
        self.write_attributes(writer, &function_decl.properties);
        let ps = &function_decl.parameters;
        let n = ps.len();
        let mut params: Vec<String> = Vec::new();
        let mut i: usize = 0;
        while i < n
            invariant
                n == ps@.len(),
                i <= n,
                views(params@) == parameter_texts(ps@).take(i as int),
            decreases n - i,
        {
            let p = &ps[i];
            let mut text = String::from_str(p.name.as_str());
            let ty = self.value_type(&p.value_type, p.optional);
            text.append(": ");
            text.append(ty.as_str());
            let ghost before = params@;
            params.push(text);
            proof {
                assert(params@ == before.push(params@.last()));
                assert(views(params@) =~= views(before).push(params@.last()@));
                assert(views(params@) =~= parameter_texts(ps@).take(i as int + 1));
            }
            i += 1;
        }
        proof {
            assert(parameter_texts(ps@).take(n as int) =~= parameter_texts(ps@));
        }
        let joined = join_strings(&params, ", ");
        let mut line = visibility_string(&function_decl.visibility);
        line.append("fn ");
        line.append(function_decl.name.as_str());
        line.append("(");
        line.append(joined.as_str());
        line.append(")");
        match &function_decl.value_type {
            Some(t) => {
                let ts = type_string(Syntax::Rust, t);
                line.append(": ");
                line.append(ts.as_str());
            },
            None => {},
        }
        line.append(";");
        proof {
            assert(line@ =~= function_text(*function_decl));
        }
        writer.write_str(line.as_str());
        writer.new_line();
        Ok(())
    }

    fn write_type_alias(&self, writer: &mut CodeWriter, type_alias: &TypeAlias) -> (r: Result<
        (),
        Error,
    >) {
        let mut line = visibility_string(&type_alias.visibility);
        let ty = type_string(Syntax::Rust, &type_alias.value_type);
        line.append("type ");
        line.append(type_alias.name.as_str());
        line.append(" = ");
        line.append(ty.as_str());
        line.append(";");
        writer.write_str(line.as_str());
        writer.new_line();
        Ok(())
    }
}

} // verus!
