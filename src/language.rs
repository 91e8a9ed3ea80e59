//! Renderers for two target syntaxes, and the text of type expressions and literal
//! values that they share.
pub mod rust;
pub mod thrift;

use crate::model::values::{KnownType, Value, ValueType};
use crate::text::{decimal, i64_text, int_text, join, join_strings, u64_text, char_string, views};
use vstd::prelude::*;

verus! {

/// The target syntaxes whose type and literal text this module knows.
#[derive(Clone, Copy, Debug, PartialEq, Eq, Structural)]
pub enum Syntax {
    /// A curly-brace declaration syntax in the style of Rust.
    Rust,
    /// A service-definition syntax in the style of Thrift.
    Thrift,
}

/// The name of a primitive type.
pub open spec fn known_text(syntax: Syntax, k: KnownType) -> Seq<char> {
    match syntax {
        Syntax::Rust => match k {
            KnownType::I8 => "i8"@,
            KnownType::U8 => "u8"@,
            KnownType::I16 => "i16"@,
            KnownType::U16 => "u16"@,
            KnownType::I32 => "i32"@,
            KnownType::U32 => "u32"@,
            KnownType::I64 => "i64"@,
            KnownType::U64 => "u64"@,
            KnownType::F32 => "f32"@,
            KnownType::F64 => "f64"@,
            KnownType::Boolean => "bool"@,
            KnownType::Char => "char"@,
            KnownType::String => "String"@,
        },
        Syntax::Thrift => match k {
            KnownType::I8 => "i8"@,
            KnownType::U8 => "byte"@,
            KnownType::I16 | KnownType::U16 => "i16"@,
            KnownType::I32 | KnownType::U32 => "i32"@,
            KnownType::I64 | KnownType::U64 => "i64"@,
            KnownType::F32 | KnownType::F64 => "double"@,
            KnownType::Boolean => "boolean"@,
            KnownType::Char => "i8"@,
            KnownType::String => "string"@,
        },
    }
}

fn known_string(syntax: Syntax, k: KnownType) -> (r: String)
    ensures
        r@ == known_text(syntax, k),
{
    let s = match syntax {
        Syntax::Rust => match k {
            KnownType::I8 => "i8",
            KnownType::U8 => "u8",
            KnownType::I16 => "i16",
            KnownType::U16 => "u16",
            KnownType::I32 => "i32",
            KnownType::U32 => "u32",
            KnownType::I64 => "i64",
            KnownType::U64 => "u64",
            KnownType::F32 => "f32",
            KnownType::F64 => "f64",
            KnownType::Boolean => "bool",
            KnownType::Char => "char",
            KnownType::String => "String",
        },
        Syntax::Thrift => match k {
            KnownType::I8 => "i8",
            KnownType::U8 => "byte",
            KnownType::I16 | KnownType::U16 => "i16",
            KnownType::I32 | KnownType::U32 => "i32",
            KnownType::I64 | KnownType::U64 => "i64",
            KnownType::F32 | KnownType::F64 => "double",
            KnownType::Boolean => "boolean",
            KnownType::Char => "i8",
            KnownType::String => "string",
        },
    };
    String::from_str(s)
}

/// The opening text of an array, set and map type.
pub open spec fn collection_open(syntax: Syntax, which: nat) -> Seq<char> {
    match syntax {
        Syntax::Rust => if which == 0 {
            "Vec<"@
        } else if which == 1 {
            "HashSet<"@
        } else {
            "HashMap<"@
        },
        Syntax::Thrift => if which == 0 {
            "list<"@
        } else if which == 1 {
            "set<"@
        } else {
            "map<"@
        },
    }
}

fn collection_string(syntax: Syntax, which: u8) -> (r: String)
    ensures
        r@ == collection_open(syntax, which as nat),
{
    let s = match syntax {
        Syntax::Rust => if which == 0 {
            "Vec<"
        } else if which == 1 {
            "HashSet<"
        } else {
            "HashMap<"
        },
        Syntax::Thrift => if which == 0 {
            "list<"
        } else if which == 1 {
            "set<"
        } else {
            "map<"
        },
    };
    String::from_str(s)
}

/// The text of a type expression in `syntax`.
pub open spec fn type_text(syntax: Syntax, t: ValueType) -> Seq<char>
    decreases t,
{
    match t {
        ValueType::Known(k) => known_text(syntax, k),
        ValueType::Reference(n) => n@,
        ValueType::Array(e) => collection_open(syntax, 0) + type_text(syntax, *e) + ">"@,
        ValueType::SetOf(e) => collection_open(syntax, 1) + type_text(syntax, *e) + ">"@,
        ValueType::MapOf(k, v) => collection_open(syntax, 2) + type_text(syntax, *k) + ", "@
            + type_text(syntax, *v) + ">"@,
        ValueType::Constrained(n, ts) => n@ + ": "@ + join(type_texts(syntax, ts@), " + "@),
        ValueType::Generic(n, ts) => n@ + "<"@ + join(type_texts(syntax, ts@), ", "@) + ">"@,
        ValueType::Function(ps, rt) => "fn("@ + join(type_texts(syntax, ps@), ", "@) + ")"@
            + match rt {
            Some(r) => " -> "@ + type_text(syntax, *r),
            None => Seq::empty(),
        },
    }
}

/// The texts of a list of type expressions.
pub open spec fn type_texts(syntax: Syntax, ts: Seq<ValueType>) -> Seq<Seq<char>>
    decreases ts,
{
    Seq::new(
        ts.len(),
        |i: int|
            if 0 <= i < ts.len() {
                type_text(syntax, ts[i])
            } else {
                Seq::empty()
            },
    )
}

/// The text of a type expression in `syntax`.
pub fn type_string(syntax: Syntax, t: &ValueType) -> (r: String)
    ensures
        r@ == type_text(syntax, *t),
    decreases t,
{
    match t {
        ValueType::Known(k) => known_string(syntax, *k),
        ValueType::Reference(n) => String::from_str(n.as_str()),
        ValueType::Array(e) => {
            let mut r = collection_string(syntax, 0);
            let inner = type_string(syntax, e);
            r.append(inner.as_str());
            r.append(">");
            r
        },
        ValueType::SetOf(e) => {
            let mut r = collection_string(syntax, 1);
            let inner = type_string(syntax, e);
            r.append(inner.as_str());
            r.append(">");
            r
        },
        ValueType::MapOf(k, v) => {
            let mut r = collection_string(syntax, 2);
            let kt = type_string(syntax, k);
            let vt = type_string(syntax, v);
            r.append(kt.as_str());
            r.append(", ");
            r.append(vt.as_str());
            r.append(">");
            r
        },
        ValueType::Constrained(n, ts) => {
            let mut r = String::from_str(n.as_str());
            let parts = type_strings(syntax, ts);
            let joined = join_strings(&parts, " + ");
            r.append(": ");
            r.append(joined.as_str());
            r
        },
        ValueType::Generic(n, ts) => {
            let mut r = String::from_str(n.as_str());
            let parts = type_strings(syntax, ts);
            let joined = join_strings(&parts, ", ");
            r.append("<");
            r.append(joined.as_str());
            r.append(">");
            r
        },
        ValueType::Function(ps, rt) => {
            let mut r = String::from_str("fn(");
            let parts = type_strings(syntax, ps);
            let joined = join_strings(&parts, ", ");
            r.append(joined.as_str());
            r.append(")");
            match rt {
                Some(t) => {
                    let rs = type_string(syntax, t);
                    r.append(" -> ");
                    r.append(rs.as_str());
                },
                None => {},
            }
            r
        },
    }
}

fn type_strings(syntax: Syntax, ts: &Vec<ValueType>) -> (r: Vec<String>)
    ensures
        views(r@) == type_texts(syntax, ts@),
    decreases ts,
{
    broadcast use vstd::std_specs::vec::group_vec_axioms;

    let mut r: Vec<String> = Vec::new();
    let n = ts.len();
    let mut i: usize = 0;
    while i < n
        invariant
            n == ts@.len(),
            i <= n,
            views(r@) == type_texts(syntax, ts@).take(i as int),
        decreases n - i,
    {
        let ghost before = r@;
        r.push(type_string(syntax, &ts[i]));
        proof {
            assert(r@ == before.push(r@.last()));
            assert(type_texts(syntax, ts@)[i as int] == type_text(syntax, ts@[i as int]));
            assert(views(r@) =~= views(before).push(r@.last()@));
            assert(views(r@) =~= type_texts(syntax, ts@).take(i as int + 1));
        }
        i += 1;
    }
    proof {
        assert(type_texts(syntax, ts@).take(n as int) =~= type_texts(syntax, ts@));
    }
    r
}

/// The brackets of a list literal (which 0) or a map literal (which 1): round in Rust
/// attributes, square and curly elsewhere.
pub open spec fn bracket(syntax: Syntax, attr: bool, which: nat, close: bool) -> Seq<char> {
    if syntax == Syntax::Rust && attr {
        if close {
            ")"@
        } else {
            "("@
        }
    } else if which == 0 {
        if close {
            "]"@
        } else {
            "["@
        }
    } else {
        if close {
            "}"@
        } else {
            "{"@
        }
    }
}

fn bracket_string(syntax: Syntax, attr: bool, which: u8, close: bool) -> (r: String)
    ensures
        r@ == bracket(syntax, attr, which as nat, close),
{
    let s = if syntax == Syntax::Rust && attr {
        if close {
            ")"
        } else {
            "("
        }
    } else if which == 0 {
        if close {
            "]"
        } else {
            "["
        }
    } else {
        if close {
            "}"
        } else {
            "{"
        }
    };
    String::from_str(s)
}

/// What stands between a key and its value in a map literal.
pub open spec fn pair_separator(syntax: Syntax, attr: bool) -> Seq<char> {
    if syntax == Syntax::Rust && !attr {
        " = "@
    } else {
        ": "@
    }
}

/// The text of a literal value in `syntax`; `attr` marks a value inside a Rust
/// attribute. Strings and characters stand as they are, unquoted.
pub open spec fn value_text(syntax: Syntax, attr: bool, v: Value) -> Seq<char>
    decreases v, 1nat,
{
    match v {
        Value::I8(x) => int_text(x as int),
        Value::U8(x) => decimal(x as nat),
        Value::I16(x) => int_text(x as int),
        Value::U16(x) => decimal(x as nat),
        Value::I32(x) => int_text(x as int),
        Value::U32(x) => decimal(x as nat),
        Value::I64(x) => int_text(x as int),
        Value::U64(x) => decimal(x as nat),
        Value::F32(s) => s@,
        Value::F64(s) => s@,
        Value::Boolean(b) => if b {
            "true"@
        } else {
            "false"@
        },
        Value::Char(c) => seq![c],
        Value::String(s) => s@,
        Value::Values(vs) => bracket(syntax, attr, 0, false) + join(
            value_texts(syntax, attr, vs@),
            ", "@,
        ) + bracket(syntax, attr, 0, true),
        Value::NamedValues(_) => bracket(syntax, attr, 1, false) + join(
            pair_texts(syntax, attr, v),
            ", "@,
        ) + bracket(syntax, attr, 1, true),
        Value::Identifier(n) => n@,
    }
}

/// The texts of a list of literal values.
pub open spec fn value_texts(syntax: Syntax, attr: bool, vs: Seq<Value>) -> Seq<Seq<char>>
    decreases vs, 0nat,
{
    Seq::new(
        vs.len(),
        |i: int|
            if 0 <= i < vs.len() {
                value_text(syntax, attr, vs[i])
            } else {
                Seq::empty()
            },
    )
}

/// The texts of the entries of a map literal `v`: each key, the separator, its value.
pub open spec fn pair_texts(syntax: Syntax, attr: bool, v: Value) -> Seq<Seq<char>>
    decreases v, 0nat,
{
    match v {
        Value::NamedValues(ps) => Seq::new(
            ps@.len(),
            |i: int|
                if 0 <= i < ps@.len() {
                    value_text(syntax, attr, ps@[i].0) + pair_separator(syntax, attr) + value_text(
                        syntax,
                        attr,
                        ps@[i].1,
                    )
                } else {
                    Seq::empty()
                },
        ),
        _ => Seq::empty(),
    }
}

/// The text of a literal value in `syntax`; `attr` marks a value inside a Rust
/// attribute.
pub fn value_string(syntax: Syntax, attr: bool, v: &Value) -> (r: String)
    ensures
        r@ == value_text(syntax, attr, *v),
    decreases v, 1nat,
{
    match v {
        Value::I8(x) => i64_text(*x as i64),
        Value::U8(x) => u64_text(*x as u64),
        Value::I16(x) => i64_text(*x as i64),
        Value::U16(x) => u64_text(*x as u64),
        Value::I32(x) => i64_text(*x as i64),
        Value::U32(x) => u64_text(*x as u64),
        Value::I64(x) => i64_text(*x),
        Value::U64(x) => u64_text(*x),
        Value::F32(s) => s.clone(),
        Value::F64(s) => s.clone(),
        Value::Boolean(b) => if *b {
            String::from_str("true")
        } else {
            String::from_str("false")
        },
        Value::Char(c) => char_string(*c),
        Value::String(s) => s.clone(),
        Value::Values(vs) => {
            let mut r = bracket_string(syntax, attr, 0, false);
            let parts = value_strings(syntax, attr, vs);
            let joined = join_strings(&parts, ", ");
            let close = bracket_string(syntax, attr, 0, true);
            r.append(joined.as_str());
            r.append(close.as_str());
            r
        },
        Value::NamedValues(_) => {
            let mut r = bracket_string(syntax, attr, 1, false);
            let parts = pair_strings(syntax, attr, v);
            let joined = join_strings(&parts, ", ");
            let close = bracket_string(syntax, attr, 1, true);
            r.append(joined.as_str());
            r.append(close.as_str());
            r
        },
        Value::Identifier(n) => String::from_str(n.as_str()),
    }
}

fn value_strings(syntax: Syntax, attr: bool, vs: &Vec<Value>) -> (r: Vec<String>)
    ensures
        views(r@) == value_texts(syntax, attr, vs@),
    decreases vs, 0nat,
{
    broadcast use vstd::std_specs::vec::group_vec_axioms;

    let mut r: Vec<String> = Vec::new();
    let n = vs.len();
    let mut i: usize = 0;
    while i < n
        invariant
            n == vs@.len(),
            i <= n,
            views(r@) == value_texts(syntax, attr, vs@).take(i as int),
        decreases n - i,
    {
        let ghost before = r@;
        r.push(value_string(syntax, attr, &vs[i]));
        proof {
            assert(r@ == before.push(r@.last()));
            assert(value_texts(syntax, attr, vs@)[i as int] == value_text(syntax, attr, vs@[i as int]));
            assert(views(r@) =~= views(before).push(r@.last()@));
            assert(views(r@) =~= value_texts(syntax, attr, vs@).take(i as int + 1));
        }
        i += 1;
    }
    proof {
        assert(value_texts(syntax, attr, vs@).take(n as int) =~= value_texts(syntax, attr, vs@));
    }
    r
}

fn pair_strings(syntax: Syntax, attr: bool, m: &Value) -> (r: Vec<String>)
    ensures
        views(r@) == pair_texts(syntax, attr, *m),
    decreases m, 0nat,
{
    broadcast use vstd::std_specs::vec::group_vec_axioms;

    let mut r: Vec<String> = Vec::new();
    let ps = match m {
        Value::NamedValues(ps) => ps,
        _ => {
            proof {
                assert(pair_texts(syntax, attr, *m) =~= Seq::<Seq<char>>::empty());
                assert(views(r@) =~= Seq::<Seq<char>>::empty());
            }
            return r;
        },
    };
    let n = ps.len();
    let sep = if syntax == Syntax::Rust && !attr {
        " = "
    } else {
        ": "
    };
    let mut i: usize = 0;
    while i < n
        invariant
            n == ps@.len(),
            sep@ == pair_separator(syntax, attr),
            i <= n,
            *m == Value::NamedValues(*ps),
            views(r@) == pair_texts(syntax, attr, *m).take(i as int),
        decreases n - i,
    {
        let ghost before = r@;
        let (k, v) = &ps[i];
        let mut p = value_string(syntax, attr, k);
        let vt = value_string(syntax, attr, v);
        p.append(sep);
        p.append(vt.as_str());
        r.push(p);
        proof {
            assert(r@ == before.push(r@.last()));
            assert(views(r@) =~= views(before).push(r@.last()@));
            assert(views(r@) =~= pair_texts(syntax, attr, *m).take(i as int + 1));
        }
        i += 1;
    }
    proof {
        assert(pair_texts(syntax, attr, *m).take(n as int) =~= pair_texts(syntax, attr, *m));
    }
    r
}

} // verus!
