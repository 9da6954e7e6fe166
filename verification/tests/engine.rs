use serde_piecewise_default::decl::{Decl, FieldDecl, FieldShape, StructDecl};
use serde_piecewise_default::engine::{
    decimal_string, deserialize_piecewise_default_derive, get_optional_name, get_structure_name,
    impl_deserialize_piecewise_default, make_field_movement, make_field_optional,
    make_shadow_decl, make_structure, GenError,
};

fn named_field(name: &str, ty: &str) -> FieldDecl {
    FieldDecl {
        attrs: Vec::new(),
        vis: String::new(),
        name: Some(name.to_string()),
        ty: ty.to_string(),
    }
}

fn positional_field(ty: &str) -> FieldDecl {
    FieldDecl {
        attrs: Vec::new(),
        vis: String::new(),
        name: None,
        ty: ty.to_string(),
    }
}

fn example_decl() -> StructDecl {
    StructDecl {
        name: "Example".to_string(),
        shape: FieldShape::Named,
        fields: vec![
            named_field("data1", "u8"),
            named_field("data2", "bool"),
            named_field("data3", "String"),
        ],
    }
}

#[test]
fn generates_named_struct_impl() {
    let expected = "#[derive(Deserialize)]\n\
                    struct OptionExample { data1: Option<u8>, data2: Option<bool>, data3: Option<String> }\n\
                    impl<'de> Deserialize<'de> for Example {\n    \
                    fn deserialize<D>(deserializer: D) -> Result<Self, D::Error> where D: serde::Deserializer<'de> {\n        \
                    <OptionExample as Deserialize>::deserialize(deserializer)\n            \
                    .map(|raw_result| {\n                \
                    let OptionExample { data1, data2, data3 } = raw_result;\n                \
                    let default = <Example as Default>::default();\n                \
                    let data1 = data1.unwrap_or(default.data1);\n                \
                    let data2 = data2.unwrap_or(default.data2);\n                \
                    let data3 = data3.unwrap_or(default.data3);\n                \
                    Example { data1, data2, data3 }\n            \
                    })\n    }\n}\n";
    let generated = deserialize_piecewise_default_derive(&Decl::Struct(example_decl())).unwrap();
    assert_eq!(expected, generated);
}

#[test]
fn rejects_unit_struct() {
    let decl = StructDecl {
        name: "Empty".to_string(),
        shape: FieldShape::Unit,
        fields: Vec::new(),
    };
    let err = impl_deserialize_piecewise_default(&Decl::Struct(decl)).unwrap_err();
    assert_eq!(GenError::NamedFieldsOnly, err);
    assert_eq!("can only use piecewise default with named fields", err.message());
}

#[test]
fn generates_empty_named_struct_impl() {
    let decl = StructDecl {
        name: "Bare".to_string(),
        shape: FieldShape::Named,
        fields: Vec::new(),
    };
    let generated = impl_deserialize_piecewise_default(&Decl::Struct(decl)).unwrap();
    assert!(generated.starts_with("#[derive(Deserialize)]\nstruct OptionBare {}\n"));
    assert!(generated.contains("let OptionBare {} = raw_result;"));
}

#[test]
fn rejects_positional_struct() {
    let decl = StructDecl {
        name: "Example".to_string(),
        shape: FieldShape::Positional,
        fields: vec![positional_field("i8"), positional_field("bool")],
    };
    let err = deserialize_piecewise_default_derive(&Decl::Struct(decl)).unwrap_err();
    assert_eq!(GenError::NamedFieldsOnly, err);
    assert_eq!("can only use piecewise default with named fields", err.message());
}

#[test]
fn rejects_positional_struct_whatever_the_fields() {
    let decl = StructDecl {
        name: "Wide".to_string(),
        shape: FieldShape::Positional,
        fields: vec![
            positional_field("String"),
            positional_field("Vec<u64>"),
            positional_field("bool"),
            positional_field("i128"),
        ],
    };
    let err = deserialize_piecewise_default_derive(&Decl::Struct(decl)).unwrap_err();
    assert_eq!("can only use piecewise default with named fields", err.message());
}

#[test]
fn rejects_enum() {
    let err = deserialize_piecewise_default_derive(&Decl::Enum("Choice".to_string())).unwrap_err();
    assert_eq!(GenError::NotAStruct, err);
    assert_eq!("can only use piecewise default on structs", err.message());
}

#[test]
fn rejects_union() {
    let err = deserialize_piecewise_default_derive(&Decl::Union("Raw".to_string())).unwrap_err();
    assert_eq!(GenError::NotAStruct, err);
    assert_eq!("can only use piecewise default on structs", err.message());
}

#[test]
fn shadow_name_is_concatenation() {
    assert_eq!("OptionExample", get_optional_name("Example"));
    assert_eq!("Option", get_optional_name(""));
}

#[test]
fn binding_names_for_positional_fields() {
    assert_eq!("f0", get_structure_name(0, &positional_field("u8")));
    assert_eq!("f12", get_structure_name(12, &positional_field("u8")));
    assert_eq!("data1", get_structure_name(5, &named_field("data1", "u8")));
}

#[test]
fn shadow_decl_wraps_every_field() {
    let shadow = make_shadow_decl(&example_decl()).unwrap();
    assert_eq!("OptionExample", shadow.name);
    assert!(matches!(shadow.shape, FieldShape::Named));
    assert_eq!(3, shadow.fields.len());
    assert_eq!(Some("data1".to_string()), shadow.fields[0].name);
    assert_eq!(Some("data2".to_string()), shadow.fields[1].name);
    assert_eq!(Some("data3".to_string()), shadow.fields[2].name);
    assert_eq!("Option<u8>", shadow.fields[0].ty);
    assert_eq!("Option<bool>", shadow.fields[1].ty);
    assert_eq!("Option<String>", shadow.fields[2].ty);
}

#[test]
fn shadow_decl_rejects_positional() {
    let decl = StructDecl {
        name: "Pair".to_string(),
        shape: FieldShape::Positional,
        fields: vec![positional_field("i8")],
    };
    assert_eq!(GenError::NamedFieldsOnly, make_shadow_decl(&decl).unwrap_err());
}

#[test]
fn shadow_decl_rejects_unit() {
    let decl = StructDecl {
        name: "Empty".to_string(),
        shape: FieldShape::Unit,
        fields: Vec::new(),
    };
    assert_eq!(GenError::NamedFieldsOnly, make_shadow_decl(&decl).unwrap_err());
}

#[test]
fn decimal_rendering() {
    assert_eq!("0", decimal_string(0));
    assert_eq!("7", decimal_string(7));
    assert_eq!("10", decimal_string(10));
    assert_eq!("907", decimal_string(907));
    assert_eq!("1000000", decimal_string(1000000));
}

#[test]
fn field_keeps_attrs_and_vis() {
    let field = FieldDecl {
        attrs: vec!["#[serde(rename = \"x\")]".to_string()],
        vis: "pub".to_string(),
        name: Some("data1".to_string()),
        ty: "u8".to_string(),
    };
    assert_eq!(
        "#[serde(rename = \"x\")] pub data1: Option<u8>",
        make_field_optional(&field)
    );
}

#[test]
fn movement_substitutes_default_by_member() {
    assert_eq!(
        "let data2 = data2.unwrap_or(default.data2);",
        make_field_movement(1, &named_field("data2", "bool"))
    );
    assert_eq!(
        "let f1 = f1.unwrap_or(default.1);",
        make_field_movement(1, &positional_field("bool"))
    );
}

#[test]
fn structure_rendering_by_shape() {
    let named = example_decl();
    assert_eq!("OptionExample { data1, data2, data3 }", make_structure(&named, "OptionExample"));
    let positional = StructDecl {
        name: "Pair".to_string(),
        shape: FieldShape::Positional,
        fields: vec![positional_field("i8"), positional_field("bool")],
    };
    assert_eq!("Pair(f0, f1)", make_structure(&positional, "Pair"));
    let unit = StructDecl {
        name: "Empty".to_string(),
        shape: FieldShape::Unit,
        fields: Vec::new(),
    };
    assert_eq!("Empty()", make_structure(&unit, "Empty"));
}
