//! The derivation engine: turns a struct declaration into the text of a
//! shadow declaration (every field type wrapped in `Option`) together with a
//! deserialization impl that substitutes defaults for absent fields.
use vstd::prelude::*;
use crate::decl::{Decl, FieldDecl, FieldShape, StructDecl};

verus! {

/// Why generation was refused. Both refusals are unconditional: they depend
/// only on the declaration's kind and field shape, never on field types or
/// count.
#[derive(PartialEq, Eq, Structural, Clone, Copy, Debug)]
pub enum GenError {
    /// The declaration is an enum or a union, not a struct.
    NotAStruct,
    /// The declaration's fields are not named: a positional-field struct,
    /// because the external representation cannot reliably round-trip a
    /// tuple with holes, or a unit struct, which has no fields to default.
    NamedFieldsOnly,
}

impl GenError {
    /// The fixed diagnostic text for this refusal.
    pub fn message(&self) -> (r: &'static str)
        ensures
            *self is NotAStruct ==> r@ == "can only use piecewise default on structs"@,
            *self is NamedFieldsOnly ==> r@ == "can only use piecewise default with named fields"@,
    {
        match self {
            GenError::NotAStruct => "can only use piecewise default on structs",
            GenError::NamedFieldsOnly => "can only use piecewise default with named fields",
        }
    }
}

/// The decimal digit character for `d < 10`.
pub open spec fn dec_digit(d: nat) -> char {
    if d == 0 {
        '0'
    } else if d == 1 {
        '1'
    } else if d == 2 {
        '2'
    } else if d == 3 {
        '3'
    } else if d == 4 {
        '4'
    } else if d == 5 {
        '5'
    } else if d == 6 {
        '6'
    } else if d == 7 {
        '7'
    } else if d == 8 {
        '8'
    } else {
        '9'
    }
}

/// The usual decimal rendering of `n`, most significant digit first, with no
/// leading zero except for `n == 0` itself.
pub open spec fn dec_text(n: nat) -> Seq<char>
    decreases n,
{
    if n < 10 {
        seq![dec_digit(n)]
    } else {
        dec_text(n / 10) + seq![dec_digit(n % 10)]
    }
}

/// The one-character string for a decimal digit.
fn digit_str(d: usize) -> (r: &'static str)
    requires
        d < 10,
    ensures
        r@ == seq![dec_digit(d as nat)],
{
    proof {
        reveal_strlit("0");
        reveal_strlit("1");
        reveal_strlit("2");
        reveal_strlit("3");
        reveal_strlit("4");
        reveal_strlit("5");
        reveal_strlit("6");
        reveal_strlit("7");
        reveal_strlit("8");
        reveal_strlit("9");
    }
    match d {
        0 => "0",
        1 => "1",
        2 => "2",
        3 => "3",
        4 => "4",
        5 => "5",
        6 => "6",
        7 => "7",
        8 => "8",
        _ => "9",
    }
}

/// Renders `n` in decimal.
pub fn decimal_string(n: usize) -> (r: String)
    ensures
        r@ == dec_text(n as nat),
    decreases n,
{
    let d = digit_str(n % 10);
    if n < 10 {
        String::from_str(d)
    } else {
        let mut s = decimal_string(n / 10);
        s.append(d);
        s
    }
}

/// The local binding name the generated routine uses for the field at index
/// `i`: the field's own name when it has one, `f<i>` otherwise.
pub open spec fn structure_name_text(i: nat, f: FieldDecl) -> Seq<char> {
    match f.name {
        Some(n) => n@,
        None => seq!['f'] + dec_text(i),
    }
}

/// Picks the local binding name for the field at index `i`.
pub fn get_structure_name(i: usize, field: &FieldDecl) -> (r: String)
    ensures
        r@ == structure_name_text(i as nat, *field),
{
    match &field.name {
        Some(ident) => ident.clone(),
        None => {
            proof {
                reveal_strlit("f");
            }
            let mut s = String::from_str("f");
            s.append(decimal_string(i).as_str());
            proof {
                assert(s@ =~= seq!['f'] + dec_text(i as nat));
            }
            s
        },
    }
}

/// The shadow declaration's name: `"Option"` prepended to the original name.
pub open spec fn optional_name_text(name: Seq<char>) -> Seq<char> {
    "Option"@ + name
}

/// Derives the shadow struct's name from the original's. Plain
/// concatenation, with no uniqueness check: two declarations whose names
/// collide under this rule conflict downstream, and avoiding that is the
/// caller's responsibility.
pub fn get_optional_name(orig_name: &str) -> (r: String)
    ensures
        r@ == optional_name_text(orig_name@),
{
    let mut s = String::from_str("Option");
    s.append(orig_name);
    s
}

/// `s` followed by a single space, or nothing at all when `s` is empty.
pub open spec fn with_space(s: Seq<char>) -> Seq<char> {
    if s.len() == 0 {
        s
    } else {
        s + " "@
    }
}

/// The attributes of a field, each rendered verbatim and followed by a space.
pub open spec fn attrs_text(attrs: Seq<String>) -> Seq<char>
    decreases attrs.len(),
{
    if attrs.len() == 0 {
        Seq::empty()
    } else {
        attrs_text(attrs.drop_last()) + attrs.last()@ + " "@
    }
}

/// A field's type wrapped in the absent-or-present marker.
pub open spec fn wrapped_ty_text(ty: Seq<char>) -> Seq<char> {
    "Option<"@ + ty + ">"@
}

/// One field of the shadow declaration: attributes and visibility copied
/// verbatim, the name kept (with its separator) when there is one, and the
/// type wrapped in `Option`.
pub open spec fn field_optional_text(f: FieldDecl) -> Seq<char> {
    attrs_text(f.attrs@) + with_space(f.vis@) + (match f.name {
        Some(n) => n@ + ": "@,
        None => Seq::<char>::empty(),
    }) + wrapped_ty_text(f.ty@)
}

/// Renders one shadow field as `field_optional_text` describes.
pub fn make_field_optional(field: &FieldDecl) -> (r: String)
    ensures
        r@ == field_optional_text(*field),
{
    let mut s = String::new();
    let n = field.attrs.len();
    for i in 0..n
        invariant
            n == field.attrs.len(),
            s@ == attrs_text(field.attrs@.take(i as int)),
    {
        s.append(field.attrs[i].as_str());
        s.append(" ");
        proof {
            assert(field.attrs@.take(i + 1).drop_last() =~= field.attrs@.take(i as int));
            assert(field.attrs@.take(i + 1).last() == field.attrs@[i as int]);
        }
    }
    proof {
        assert(field.attrs@.take(n as int) =~= field.attrs@);
    }
    if !field.vis.as_str().is_empty() {
        s.append(field.vis.as_str());
        s.append(" ");
    }
    match &field.name {
        Some(name) => {
            s.append(name.as_str());
            s.append(": ");
        },
        None => {},
    }
    s.append("Option<");
    s.append(field.ty.as_str());
    s.append(">");
    proof {
        assert(s@ =~= field_optional_text(*field));
    }
    s
}

/// The shadow declaration's fields, in the source declaration's order,
/// separated by `", "`.
pub open spec fn optional_fields_text(fields: Seq<FieldDecl>) -> Seq<char>
    decreases fields.len(),
{
    if fields.len() == 0 {
        Seq::empty()
    } else if fields.len() == 1 {
        field_optional_text(fields[0])
    } else {
        optional_fields_text(fields.drop_last()) + ", "@ + field_optional_text(fields.last())
    }
}

/// `inner` between braces, or a bare brace pair when `inner` is empty.
pub open spec fn braced(inner: Seq<char>) -> Seq<char> {
    if inner.len() == 0 {
        "{}"@
    } else {
        "{ "@ + inner + " }"@
    }
}

/// The whole shadow declaration: a struct named `optional_name_text`, marked
/// parseable from the external representation, with every field wrapped.
/// Only the named-field shape has one.
pub open spec fn optional_struct_text(data: StructDecl) -> Seq<char> {
    match data.shape {
        FieldShape::Named => "#[derive(Deserialize)]\nstruct "@ + optional_name_text(data.name@)
            + " "@ + braced(optional_fields_text(data.fields@)),
        _ => Seq::empty(),
    }
}

/// Renders the shadow declaration, refusing every shape but named fields:
/// the external representation does not round-trip a tuple with holes, and a
/// unit struct has no fields to default.
pub fn make_optional_struct(data: &StructDecl) -> (r: Result<String, GenError>)
    ensures
        match data.shape {
            FieldShape::Named => r is Ok && r->Ok_0@ == optional_struct_text(*data),
            _ => r == Result::<String, GenError>::Err(GenError::NamedFieldsOnly),
        },
{
    let mut s = String::from_str("#[derive(Deserialize)]\nstruct ");
    s.append(get_optional_name(data.name.as_str()).as_str());
    match data.shape {
        FieldShape::Positional => Err(GenError::NamedFieldsOnly),
        FieldShape::Unit => Err(GenError::NamedFieldsOnly),
        FieldShape::Named => {
            let mut inner = String::new();
            let n = data.fields.len();
            for i in 0..n
                invariant
                    n == data.fields.len(),
                    inner@ == optional_fields_text(data.fields@.take(i as int)),
            {
                if i > 0 {
                    inner.append(", ");
                }
                inner.append(make_field_optional(&data.fields[i]).as_str());
                proof {
                    assert(data.fields@.take(i + 1).drop_last() =~= data.fields@.take(i as int));
                    assert(data.fields@.take(i + 1).last() == data.fields@[i as int]);
                }
            }
            proof {
                assert(data.fields@.take(n as int) =~= data.fields@);
            }
            s.append(" ");
            if inner.as_str().is_empty() {
                s.append("{}");
            } else {
                s.append("{ ");
                s.append(inner.as_str());
                s.append(" }");
            }
            proof {
                assert(s@ =~= optional_struct_text(*data));
            }
            Ok(s)
        },
    }
}

/// What the shadow declaration is, field for field: the same shape and the
/// same fields in the same order, each keeping its attributes, visibility
/// and name, with its type wrapped in the absent-or-present marker; the name
/// is the source's with `"Option"` prepended.
pub open spec fn shadow_of(source: StructDecl, shadow: StructDecl) -> bool {
    &&& shadow.name@ == optional_name_text(source.name@)
    &&& shadow.shape == source.shape
    &&& shadow.fields.len() == source.fields.len()
    &&& forall|i: int|
        0 <= i < source.fields.len() ==> {
            &&& (#[trigger] shadow.fields[i]).attrs@ =~= source.fields[i].attrs@
            &&& shadow.fields[i].vis@ == source.fields[i].vis@
            &&& shadow.fields[i].name == source.fields[i].name
            &&& shadow.fields[i].ty@ == wrapped_ty_text(source.fields[i].ty@)
        }
}

/// Copies one field with its type wrapped in `Option`.
fn wrap_field(field: &FieldDecl) -> (r: FieldDecl)
    ensures
        r.attrs@ =~= field.attrs@,
        r.vis@ == field.vis@,
        r.name == field.name,
        r.ty@ == wrapped_ty_text(field.ty@),
{
    let mut attrs: Vec<String> = Vec::new();
    let n = field.attrs.len();
    for i in 0..n
        invariant
            n == field.attrs.len(),
            attrs@.len() == i,
            forall|j: int| 0 <= j < i ==> attrs@[j] == field.attrs@[j],
    {
        attrs.push(field.attrs[i].clone());
    }
    let name = match &field.name {
        Some(n) => Some(n.clone()),
        None => None,
    };
    let mut ty = String::from_str("Option<");
    ty.append(field.ty.as_str());
    ty.append(">");
    FieldDecl { attrs, vis: field.vis.clone(), name, ty }
}

/// Builds the shadow declaration itself, refusing every shape but named
/// fields as `make_optional_struct` does. A well-formed source yields a
/// well-formed shadow: the names and the shape tag are carried over
/// unchanged.
pub fn make_shadow_decl(data: &StructDecl) -> (r: Result<StructDecl, GenError>)
    ensures
        match data.shape {
            FieldShape::Named => {
                &&& r is Ok
                &&& shadow_of(*data, r->Ok_0)
                &&& data.wf() ==> r->Ok_0.wf()
            },
            _ => r == Result::<StructDecl, GenError>::Err(GenError::NamedFieldsOnly),
        },
{
    match data.shape {
        FieldShape::Positional => Err(GenError::NamedFieldsOnly),
        FieldShape::Unit => Err(GenError::NamedFieldsOnly),
        FieldShape::Named => {
            let mut fields: Vec<FieldDecl> = Vec::new();
            let n = data.fields.len();
            for i in 0..n
                invariant
                    n == data.fields.len(),
                    fields@.len() == i,
                    forall|j: int|
                        0 <= j < i ==> {
                            &&& (#[trigger] fields@[j]).attrs@ =~= data.fields@[j].attrs@
                            &&& fields@[j].vis@ == data.fields@[j].vis@
                            &&& fields@[j].name == data.fields@[j].name
                            &&& fields@[j].ty@ == wrapped_ty_text(data.fields@[j].ty@)
                        },
            {
                fields.push(wrap_field(&data.fields[i]));
            }
            let shadow = StructDecl {
                name: get_optional_name(data.name.as_str()),
                shape: data.shape,
                fields,
            };
            Ok(shadow)
        },
    }
}

/// The local binding names of all fields, in order, separated by `", "`.
pub open spec fn structure_fields_text(fields: Seq<FieldDecl>) -> Seq<char>
    decreases fields.len(),
{
    if fields.len() == 0 {
        Seq::empty()
    } else if fields.len() == 1 {
        structure_name_text(0, fields[0])
    } else {
        structure_fields_text(fields.drop_last()) + ", "@ + structure_name_text(
            (fields.len() - 1) as nat,
            fields.last(),
        )
    }
}

/// A pattern (equally, a construction expression) that names every field of
/// `data` under the struct name `name`: braces for the named shape,
/// parentheses for the positional one, an empty parenthesis pair for a unit
/// struct. Only the named shape survives to the derivation's output; the
/// other arms keep the rendering total over every shape.
pub open spec fn structure_text(name: Seq<char>, data: StructDecl) -> Seq<char> {
    match data.shape {
        FieldShape::Named => name + " "@ + braced(structure_fields_text(data.fields@)),
        FieldShape::Positional => name + "("@ + structure_fields_text(data.fields@) + ")"@,
        FieldShape::Unit => name + "()"@,
    }
}

/// Renders the binding name of the field at index `i`.
pub fn make_field_structure(i: usize, field: &FieldDecl) -> (r: String)
    ensures
        r@ == structure_name_text(i as nat, *field),
{
    get_structure_name(i, field)
}

/// Renders the destructuring pattern / construction expression for `data`
/// under the struct name `name`. The same text serves both to take a parsed
/// shadow instance apart and to put the final instance back together, which
/// is what keeps field order and count identical across the two.
pub fn make_structure(data: &StructDecl, name: &str) -> (r: String)
    ensures
        r@ == structure_text(name@, *data),
{
    let mut inner = String::new();
    let n = data.fields.len();
    for i in 0..n
        invariant
            n == data.fields.len(),
            inner@ == structure_fields_text(data.fields@.take(i as int)),
    {
        if i > 0 {
            inner.append(", ");
        }
        inner.append(make_field_structure(i, &data.fields[i]).as_str());
        proof {
            assert(data.fields@.take(i + 1).drop_last() =~= data.fields@.take(i as int));
            assert(data.fields@.take(i + 1).last() == data.fields@[i as int]);
        }
    }
    proof {
        assert(data.fields@.take(n as int) =~= data.fields@);
    }
    let mut s = String::from_str(name);
    match data.shape {
        FieldShape::Named => {
            s.append(" ");
            if inner.as_str().is_empty() {
                s.append("{}");
            } else {
                s.append("{ ");
                s.append(inner.as_str());
                s.append(" }");
            }
        },
        FieldShape::Positional => {
            s.append("(");
            s.append(inner.as_str());
            s.append(")");
        },
        FieldShape::Unit => {
            s.append("()");
        },
    }
    proof {
        assert(s@ =~= structure_text(name@, *data));
    }
    s
}

/// How the generated routine reaches the field at index `i` of the default
/// instance: by name for a named field, by position otherwise.
pub open spec fn member_text(i: nat, f: FieldDecl) -> Seq<char> {
    match f.name {
        Some(n) => n@,
        None => dec_text(i),
    }
}

/// One field movement: the statement that rebinds the field's local name to
/// its supplied value when present, and to the default instance's field
/// otherwise.
pub open spec fn movement_text(i: nat, f: FieldDecl) -> Seq<char> {
    let sname = structure_name_text(i, f);
    "let "@ + sname + " = "@ + sname + ".unwrap_or(default."@ + member_text(i, f) + ");"@
}

/// Renders the movement statement for the field at index `i`.
pub fn make_field_movement(i: usize, field: &FieldDecl) -> (r: String)
    ensures
        r@ == movement_text(i as nat, *field),
{
    let sname = get_structure_name(i, field);
    let mut s = String::from_str("let ");
    s.append(sname.as_str());
    s.append(" = ");
    s.append(sname.as_str());
    s.append(".unwrap_or(default.");
    match &field.name {
        Some(name) => s.append(name.as_str()),
        None => s.append(decimal_string(i).as_str()),
    }
    s.append(");");
    proof {
        assert(s@ =~= movement_text(i as nat, *field));
    }
    s
}

/// All field movements in declaration order, one indented line each, so that
/// every field is fully substituted before the final instance is built.
pub open spec fn movements_text(fields: Seq<FieldDecl>) -> Seq<char>
    decreases fields.len(),
{
    if fields.len() == 0 {
        Seq::empty()
    } else {
        movements_text(fields.drop_last()) + "                "@ + movement_text(
            (fields.len() - 1) as nat,
            fields.last(),
        ) + "\n"@
    }
}

/// Renders the movement statements for every field of `data`.
pub fn make_field_movements(data: &StructDecl) -> (r: String)
    ensures
        r@ == movements_text(data.fields@),
{
    let mut s = String::new();
    let n = data.fields.len();
    for i in 0..n
        invariant
            n == data.fields.len(),
            s@ == movements_text(data.fields@.take(i as int)),
    {
        s.append("                ");
        s.append(make_field_movement(i, &data.fields[i]).as_str());
        s.append("\n");
        proof {
            assert(data.fields@.take(i + 1).drop_last() =~= data.fields@.take(i as int));
            assert(data.fields@.take(i + 1).last() == data.fields@[i as int]);
        }
    }
    proof {
        assert(data.fields@.take(n as int) =~= data.fields@);
    }
    s
}

/// The full generated fragment for an accepted struct declaration: the
/// shadow declaration followed by an impl of the deserialization capability
/// for the original struct. Its body parses a shadow instance, destructures
/// every field out of it, computes a default instance, substitutes the
/// default for every absent field, and rebuilds the original struct; a parse
/// failure is passed through untouched.
pub open spec fn derived_text(data: StructDecl) -> Seq<char> {
    optional_struct_text(data) + "\n"@ + "impl<'de> Deserialize<'de> for "@ + data.name@
        + " {\n    fn deserialize<D>(deserializer: D) -> Result<Self, D::Error> where D: serde::Deserializer<'de> {\n        <"@
        + optional_name_text(data.name@)
        + " as Deserialize>::deserialize(deserializer)\n            .map(|raw_result| {\n                let "@
        + structure_text(optional_name_text(data.name@), data)
        + " = raw_result;\n                let default = <"@ + data.name@
        + " as Default>::default();\n"@ + movements_text(data.fields@) + "                "@
        + structure_text(data.name@, data) + "\n            })\n    }\n}\n"@
}

/// Exactly when generation succeeds: on a named-field struct declaration,
/// and on nothing else. An enum or union declaration is refused as not a
/// struct; a positional-field or unit struct is refused for its shape; a
/// named-field struct yields precisely the text of `derived_text`.
pub open spec fn derive_result_matches(decl: Decl, r: Result<String, GenError>) -> bool {
    match decl {
        Decl::Struct(data) => match data.shape {
            FieldShape::Named => r is Ok && r->Ok_0@ == derived_text(data),
            _ => r == Result::<String, GenError>::Err(GenError::NamedFieldsOnly),
        },
        _ => r == Result::<String, GenError>::Err(GenError::NotAStruct),
    }
}

/// The derivation engine: produces the shadow declaration plus the
/// deserialization impl for a named-field struct, and refuses every other
/// declaration shape and kind, at generation time, with its fixed
/// diagnostic.
///
/// The generated code invokes the struct's own default-value capability.
/// That the struct has one is assumed, never checked here: where it is
/// missing, the failure surfaces only when the emitted fragment is compiled.
pub fn impl_deserialize_piecewise_default(decl: &Decl) -> (r: Result<String, GenError>)
    ensures
        derive_result_matches(*decl, r),
{
    match decl {
        Decl::Struct(data) => {
            let optional_struct = match make_optional_struct(data) {
                Ok(t) => t,
                Err(e) => {
                    return Err(e);
                },
            };
            let optional_name = get_optional_name(data.name.as_str());
            let field_binding = make_structure(data, optional_name.as_str());
            let field_movements = make_field_movements(data);
            let result = make_structure(data, data.name.as_str());

            let mut s = optional_struct;
            s.append("\n");
            s.append("impl<'de> Deserialize<'de> for ");
            s.append(data.name.as_str());
            s.append(
                " {\n    fn deserialize<D>(deserializer: D) -> Result<Self, D::Error> where D: serde::Deserializer<'de> {\n        <",
            );
            s.append(optional_name.as_str());
            s.append(
                " as Deserialize>::deserialize(deserializer)\n            .map(|raw_result| {\n                let ",
            );
            s.append(field_binding.as_str());
            s.append(" = raw_result;\n                let default = <");
            s.append(data.name.as_str());
            s.append(" as Default>::default();\n");
            s.append(field_movements.as_str());
            s.append("                ");
            s.append(result.as_str());
            s.append("\n            })\n    }\n}\n");
            proof {
                assert(s@ =~= derived_text(*data));
            }
            Ok(s)
        },
        Decl::Enum(_) => Err(GenError::NotAStruct),
        Decl::Union(_) => Err(GenError::NotAStruct),
    }
}

/// The derive entry point, as the host toolchain would call it once per
/// annotated declaration. The parsing of source text into a `Decl` and the
/// splicing of the returned fragment back into a compilation unit are the
/// caller's business; the transformation itself is all here.
pub fn deserialize_piecewise_default_derive(decl: &Decl) -> (r: Result<String, GenError>)
    ensures
        derive_result_matches(*decl, r),
{
    impl_deserialize_piecewise_default(decl)
}

} // verus!
