//! The declaration model: what the generator reads off a parsed data-structure
//! declaration. Attribute, visibility and type text is carried verbatim; the
//! generator never interprets it.
use vstd::prelude::*;

verus! {

/// One field of a struct declaration: its attached attributes and visibility
/// (kept verbatim, possibly empty), its name (`None` for a positional field),
/// and the text of its type expression.
#[derive(Debug)]
pub struct FieldDecl {
    pub attrs: Vec<String>,
    pub vis: String,
    pub name: Option<String>,
    pub ty: String,
}

/// The field shape of a struct declaration. A named-field struct with an
/// empty brace list is still `Named`, which is why the shape is not derived
/// from the field list.
#[derive(Debug, Clone, Copy)]
pub enum FieldShape {
    Named,
    Positional,
    Unit,
}

/// A struct declaration: its name, its field shape, and its fields in
/// declaration order.
#[derive(Debug)]
pub struct StructDecl {
    pub name: String,
    pub shape: FieldShape,
    pub fields: Vec<FieldDecl>,
}

/// The kind of declaration the derive was attached to. The generator only
/// handles structs, so of an enum or a union it records nothing but the name.
#[derive(Debug)]
pub enum Decl {
    Struct(StructDecl),
    Enum(String),
    Union(String),
}

impl StructDecl {
    /// The shape tag agrees with the fields: named-field structs name every
    /// field, positional ones name none, unit structs have no fields.
    pub open spec fn wf(self) -> bool {
        match self.shape {
            FieldShape::Named => forall|i: int|
                0 <= i < self.fields.len() ==> self.fields[i].name is Some,
            FieldShape::Positional => forall|i: int|
                0 <= i < self.fields.len() ==> self.fields[i].name is None,
            FieldShape::Unit => self.fields.len() == 0,
        }
    }
}

} // verus!
