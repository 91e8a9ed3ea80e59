//! A renderer for a service-definition syntax in the style of Thrift: `struct`, `union`,
//! `exception`, `service`, `enum`, `const`, `typedef` and `include` forms, with fields
//! numbered from one and marked `required` or `optional`. It has no notion of variables
//! or of nested module declarations.
use crate::error::Error;
use crate::language::{type_string, type_text, value_string, value_text, Syntax};
use crate::model::identity::names;
use crate::model::{
    HasDocumentation, HasName, HasProperties, HasVisibility,
    Comment, Enumeration, EnumerationVariant, Field, FunctionDecl, Import, Module, NamedValue,
    Parameter, StructuredType, StructuredTypeKind, TypeAlias, Value, ValueType,
};
use crate::text::{decimal, join, join_strings, u64_text, views};
use crate::writer::{unsupported, CodeWriter, Layout, ModuleWriter};
use vstd::prelude::*;

verus! {

/// The Thrift-style renderer.
pub struct ThriftWriter {}

impl Default for ThriftWriter {
    fn default() -> (r: Self) {
        ThriftWriter {  }
    }
}

/// The text of a type expression in this syntax.
pub fn value_type_string(vt: &ValueType) -> (r: String)
    ensures
        r@ == type_text(Syntax::Thrift, *vt),
{
    type_string(Syntax::Thrift, vt)
}

/// The text of a literal value in this syntax.
pub fn value_str(value: &Value) -> (r: String)
    ensures
        r@ == value_text(Syntax::Thrift, false, *value),
{
    value_string(Syntax::Thrift, false, value)
}

/// The line of the field numbered `number`.
pub open spec fn field_text(number: nat, f: Field) -> Seq<char> {
    decimal(number) + ": "@ + if f.optional {
        "optional"@
    } else {
        "required"@
    } + " "@ + type_text(Syntax::Thrift, f.value_type) + " "@ + f.name@ + ","@
}

/// Each field on a line of its own, numbered from one.
pub open spec fn fields_layout(l: Layout, fields: Seq<Field>) -> Layout
    decreases fields.len(),
{
    if fields.len() == 0 {
        l
    } else {
        fields_layout(l, fields.drop_last()).write(field_text(fields.len(), fields.last())).new_line()
    }
}

/// Each variant's name on a line of its own.
pub open spec fn variants_layout(l: Layout, variants: Seq<EnumerationVariant>) -> Layout
    decreases variants.len(),
{
    if variants.len() == 0 {
        l
    } else {
        variants_layout(l, variants.drop_last()).write(variants.last().name@ + ","@).new_line()
    }
}

/// The keyword of each kind of structured type.
pub open spec fn kind_keyword(kind: StructuredTypeKind) -> Seq<char> {
    match kind {
        StructuredTypeKind::Structure => "struct"@,
        StructuredTypeKind::Union => "union"@,
        StructuredTypeKind::Exception => "exception"@,
        StructuredTypeKind::Class => "struct"@,
        StructuredTypeKind::Interface => "struct"@,
        StructuredTypeKind::Service => "service"@,
    }
}

/// A braced declaration: `head`, then the members one level deeper if there are any,
/// then `}` on a line of its own.
pub open spec fn braced(head: Layout, members: Option<Layout>) -> Layout {
    match members {
        Some(m) => m.outdented().write("}"@).new_line(),
        None => head.write("}"@).new_line(),
    }
}

/// The layout of a structured type declared with `keyword`.
pub open spec fn structure_layout(l: Layout, rec: StructuredType, keyword: Seq<char>) -> Layout {
    let head = l.write(keyword + " "@ + rec.name_of()@ + " {"@);
    braced(
        head,
        if rec.fields_of()@.len() == 0 {
            None
        } else {
            Some(fields_layout(head.new_line().indented(), rec.fields_of()@))
        },
    )
}

/// The layout of an enumeration.
pub open spec fn enumeration_layout(l: Layout, e: Enumeration) -> Layout {
    let head = l.write("enum "@ + e.name@ + " {"@);
    braced(
        head,
        if e.variants@.len() == 0 {
            None
        } else {
            Some(variants_layout(head.new_line().indented(), e.variants@))
        },
    )
}

/// The text of a parameter: its type, then its name.
pub open spec fn parameter_text(p: Parameter) -> Seq<char> {
    type_text(Syntax::Thrift, p.value_type) + " "@ + p.name@
}

pub open spec fn parameter_texts(ps: Seq<Parameter>) -> Seq<Seq<char>> {
    ps.map_values(|p: Parameter| parameter_text(p))
}

/// The result type of a function, `void` if it has none.
pub open spec fn result_text(t: Option<ValueType>) -> Seq<char> {
    match t {
        Some(t) => type_text(Syntax::Thrift, t),
        None => "void"@,
    }
}

/// The head of a function: its result type (`void` if none), name and parameters.
pub open spec fn function_head(f: FunctionDecl) -> Seq<char> {
    result_text(f.value_type) + " "@ + f.name@ + "("@ + join(parameter_texts(f.parameters@), ", "@) + ")"@
}

impl ThriftWriter {
    fn write_fields(&self, writer: &mut CodeWriter, fields: &Vec<Field>)
        ensures
            final(writer)@ == fields_layout(old(writer)@, fields@),
            final(writer)@.depth == old(writer)@.depth,
    {
        let ghost l0 = writer@;
        let n = fields.len();
        let mut i: usize = 0;
        proof {
            assert(fields@.take(0) =~= Seq::<Field>::empty());
        }
        while i < n
            invariant
                n == fields@.len(),
                i <= n,
                writer@ == fields_layout(l0, fields@.take(i as int)),
                writer@.depth == l0.depth,
            decreases n - i,
        {
            let f = &fields[i];
            let mut line = u64_text((i + 1) as u64);
            let ty = type_string(Syntax::Thrift, &f.value_type);
            line.append(": ");
            if f.optional {
                line.append("optional");
            } else {
                line.append("required");
            }
            line.append(" ");
            line.append(ty.as_str());
            line.append(" ");
            line.append(f.name.as_str());
            line.append(",");
            proof {
                assert(line@ =~= field_text((i + 1) as nat, *f));
            }
            writer.write_str(line.as_str());
            writer.new_line();
            proof {
                assert(fields@.take(i as int + 1).drop_last() =~= fields@.take(i as int));
            }
            i += 1;
        }
        proof {
            assert(fields@.take(n as int) =~= fields@);
        }
    }

    /// Writes a structured type declared with `kind`.
    pub fn write_structure(&self, writer: &mut CodeWriter, record: &StructuredType, kind: &str)
        requires
            old(writer)@.depth < usize::MAX,
        ensures
            final(writer)@ == structure_layout(old(writer)@, *record, kind@),
            final(writer)@.depth == old(writer)@.depth,
    {
        let mut head = String::from_str(kind);
        head.append(" ");
        head.append(record.name().as_str());
        head.append(" {");
        writer.write_str(head.as_str());
        if record.fields().len() > 0 {
            writer.new_line();
            writer.indent();
            self.write_fields(writer, record.fields());
            writer.outdent();
        }
        writer.write_str("}");
        writer.new_line();
    }

    /// Writes the head of a function declaration.
    pub fn write_function_head(&self, writer: &mut CodeWriter, function_decl: &FunctionDecl)
        ensures
            final(writer)@ == old(writer)@.write(function_head(*function_decl)),
            final(writer)@.depth == old(writer)@.depth,
    {
        let ps = &function_decl.parameters;
        let n = ps.len();
        let mut params: Vec<String> = Vec::new();
        let mut i: usize = 0;
        while i < n
            invariant
                n == ps@.len(),
                i <= n,
                views(params@) == parameter_texts(ps@).take(i as int),
            decreases n - i,
        {
            let p = &ps[i];
            let mut text = type_string(Syntax::Thrift, &p.value_type);
            text.append(" ");
            text.append(p.name.as_str());
            let ghost before = params@;
            params.push(text);
            proof {
                assert(params@ == before.push(params@.last()));
                assert(views(params@) =~= views(before).push(params@.last()@));
                assert(views(params@) =~= parameter_texts(ps@).take(i as int + 1));
            }
            i += 1;
        }
        proof {
            assert(parameter_texts(ps@).take(n as int) =~= parameter_texts(ps@));
        }
        let joined = join_strings(&params, ", ");
        let mut line = match &function_decl.value_type {
            Some(t) => type_string(Syntax::Thrift, t),
            None => String::from_str("void"),
        };
        line.append(" ");
        line.append(function_decl.name.as_str());
        line.append("(");
        line.append(joined.as_str());
        line.append(")");
        proof {
            assert(line@ =~= function_head(*function_decl));
        }
        writer.write_str(line.as_str());
    }

    /// Writes a block comment between `start` and `end`.
    pub fn write_block_comment(&self, writer: &mut CodeWriter, start: &str, end: &str, text: &str)
        ensures
            final(writer)@ == old(writer)@.block_comment(start@, end@, text@),
            final(writer)@.depth == old(writer)@.depth,
    {
        writer.write_block_comment(start, end, text);
    }

    /// Writes a line comment after `prefix`.
    pub fn write_line_comment(&self, writer: &mut CodeWriter, prefix: &str, text: &str)
        ensures
            final(writer)@ == old(writer)@.line_comment(prefix@, text@),
            final(writer)@.depth == old(writer)@.depth,
    {
        writer.write_line_comment(prefix, text);
    }
}

impl ModuleWriter for ThriftWriter {
    open spec fn module_layout(&self, before: Layout, x: Module) -> Option<Layout> {
        Some(
            match x.documentation {
                Some(d) => before.block_comment("/*"@, "*/"@, d@),
                None => before,
            }.blank_line(),
        )
    }

    open spec fn sub_module_layout(&self, before: Layout, x: Module) -> Option<Layout> {
        None
    }

    open spec fn import_layout(&self, before: Layout, x: Import) -> Option<Layout> {
        Some(before.write("include \""@ + join(names(x.namespace@), "/"@) + "\""@).new_line())
    }

    open spec fn comment_layout(&self, before: Layout, x: Comment) -> Option<Layout> {
        Some(
            if x.is_block {
                before.block_comment("/*"@, "*/"@, x.text@)
            } else {
                before.line_comment("#"@, x.text@)
            },
        )
    }

    open spec fn structured_type_layout(&self, before: Layout, x: StructuredType) -> Option<
        Layout,
    > {
        Some(structure_layout(before, x, kind_keyword(x.kind_of())))
    }

    open spec fn enumeration_layout(&self, before: Layout, x: Enumeration) -> Option<Layout> {
        Some(enumeration_layout(before, x))
    }

    open spec fn constant_layout(&self, before: Layout, x: NamedValue) -> Option<Layout> {
        Some(
            before.write(
                "const "@ + type_text(Syntax::Thrift, x.value_type) + " "@ + x.name@ + " = "@
                    + value_text(Syntax::Thrift, false, x.value),
            ).new_line(),
        )
    }

    open spec fn variable_layout(&self, before: Layout, x: NamedValue) -> Option<Layout> {
        None
    }

    open spec fn function_decl_layout(&self, before: Layout, x: FunctionDecl) -> Option<Layout> {
        Some(before.write(function_head(x)).write(";"@).new_line())
    }

    open spec fn type_alias_layout(&self, before: Layout, x: TypeAlias) -> Option<Layout> {
        Some(
            before.write(
                "typedef "@ + type_text(Syntax::Thrift, x.value_type) + " "@ + x.name@,
            ).new_line(),
        )
    }

    fn write_module(&self, writer: &mut CodeWriter, module: &Module) -> (r: Result<(), Error>) {
        match &module.documentation {
            Some(d) => self.write_block_comment(writer, "/*", "*/", d.as_str()),
            None => {},
        }
        writer.blank_line();
        Ok(())
    }

    fn write_sub_module(&self, writer: &mut CodeWriter, module: &Module) -> (r: Result<(), Error>) {
        unsupported("module")
    }

    fn write_import(&self, writer: &mut CodeWriter, import: &Import) -> (r: Result<(), Error>) {
        let mut line = String::from_str("include \"");
        let path = import.namespace.join("/");
        line.append(path.as_str());
        line.append("\"");
        writer.write_str(line.as_str());
        writer.new_line();
        Ok(())
    }

    fn write_comment(&self, writer: &mut CodeWriter, comment: &Comment) -> (r: Result<(), Error>) {
        if comment.is_line() {
            self.write_line_comment(writer, "#", comment.text.as_str());
        } else {
            self.write_block_comment(writer, "/*", "*/", comment.text.as_str());
        }
        Ok(())
    }

    fn write_structured_type(&self, writer: &mut CodeWriter, structure: &StructuredType) -> (r:
        Result<(), Error>) {
        let keyword = match structure.kind() {
            StructuredTypeKind::Structure => "struct",
            StructuredTypeKind::Union => "union",
            StructuredTypeKind::Exception => "exception",
            StructuredTypeKind::Class => "struct",
            StructuredTypeKind::Interface => "struct",
            StructuredTypeKind::Service => "service",
        };
        self.write_structure(writer, structure, keyword);
        Ok(())
    }

    fn write_enumeration(&self, writer: &mut CodeWriter, enumeration: &Enumeration) -> (r: Result<
        (),
        Error,
    >) {
        let mut head = String::from_str("enum ");
        head.append(enumeration.name.as_str());
        head.append(" {");
        writer.write_str(head.as_str());
        let vs = &enumeration.variants;
        let n = vs.len();
        if n > 0 {
            writer.new_line();
            writer.indent();
            let ghost l0 = writer@;
            let mut i: usize = 0;
            proof {
                assert(vs@.take(0) =~= Seq::<EnumerationVariant>::empty());
            }
            while i < n
                invariant
                    n == vs@.len(),
                    i <= n,
                    writer@ == variants_layout(l0, vs@.take(i as int)),
                    writer@.depth == l0.depth,
                decreases n - i,
            {
                let mut line = String::from_str(vs[i].name.as_str());
                line.append(",");
                writer.write_str(line.as_str());
                writer.new_line();
                proof {
                    assert(vs@.take(i as int + 1).drop_last() =~= vs@.take(i as int));
                }
                i += 1;
            }
            proof {
                assert(vs@.take(n as int) =~= vs@);
            }
            writer.outdent();
        }
        writer.write_str("}");
        writer.new_line();
        Ok(())
    }

    fn write_constant(&self, writer: &mut CodeWriter, constant: &NamedValue) -> (r: Result<(), Error>) {
        let mut line = String::from_str("const ");
        let ty = type_string(Syntax::Thrift, &constant.value_type);
        let value = value_string(Syntax::Thrift, false, &constant.value);
        line.append(ty.as_str());
        line.append(" ");
        line.append(constant.name.as_str());
        line.append(" = ");
        line.append(value.as_str());
        writer.write_str(line.as_str());
        writer.new_line();
        Ok(())
    }

    fn write_variable(&self, writer: &mut CodeWriter, variable: &NamedValue) -> (r: Result<(), Error>) {
        unsupported("variable")
    }

    fn write_function_decl(&self, writer: &mut CodeWriter, function_decl: &FunctionDecl) -> (r:
        Result<(), Error>) {
        self.write_function_head(writer, function_decl);
        writer.write_str(";");
        writer.new_line();
        Ok(())
    }

    fn write_type_alias(&self, writer: &mut CodeWriter, type_alias: &TypeAlias) -> (r: Result<
        (),
        Error,
    >) {
        let mut line = String::from_str("typedef ");
        let ty = type_string(Syntax::Thrift, &type_alias.value_type);
        line.append(ty.as_str());
        line.append(" ");
        line.append(type_alias.name.as_str());
        writer.write_str(line.as_str());
        writer.new_line();
        Ok(())
    }
}

} // verus!
