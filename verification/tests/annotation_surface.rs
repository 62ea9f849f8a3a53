use deref_gen::annotation::{derive_deref, derive_deref_mut, find_deref_field, impl_deref_trait, message_text};
use deref_gen::decl::{
    DeclKind, Declaration, FieldList, FieldSelector, GenError, GenericParam, Generics, NamedField,
    PosField,
};

fn named(name: &str, ty: &str, attrs: &[&str]) -> NamedField {
    NamedField {
        name: Some(name.to_string()),
        ty: ty.to_string(),
        attrs: attrs.iter().map(|a| a.to_string()).collect(),
    }
}

fn pos(ty: &str, attrs: &[&str]) -> PosField {
    PosField { ty: ty.to_string(), attrs: attrs.iter().map(|a| a.to_string()).collect() }
}

fn plain_generics() -> Generics {
    Generics { params: Vec::new(), where_clause: None }
}

fn decl(name: &str, generics: Generics, fields: FieldList) -> Declaration {
    Declaration { name: name.to_string(), generics, kind: DeclKind::Structure(fields) }
}

#[test]
fn named_field_read_accessor() {
    let d = decl(
        "Wrapper",
        plain_generics(),
        FieldList::Named(vec![named("inner", "String", &["deref"]), named("tag", "u32", &[])]),
    );
    let out = impl_deref_trait(&d, false).unwrap();
    assert_eq!(
        out,
        "impl std::ops::Deref for Wrapper {\n    type Target = String;\n\n    #[inline]\n    fn deref(&self) -> &Self::Target {\n        &self.inner\n    }\n}"
    );
}

#[test]
fn mutable_emission_appends_mut_accessor() {
    let d = decl(
        "Wrapper",
        plain_generics(),
        FieldList::Named(vec![named("inner", "String", &["deref_mut"])]),
    );
    let out = impl_deref_trait(&d, true).unwrap();
    let read = "impl std::ops::Deref for Wrapper {\n    type Target = String;\n\n    #[inline]\n    fn deref(&self) -> &Self::Target {\n        &self.inner\n    }\n}";
    let mutate = "impl std::ops::DerefMut for Wrapper {\n    #[inline]\n    fn deref_mut(&mut self) -> &mut Self::Target {\n        &mut self.inner\n    }\n}";
    assert_eq!(out, format!("{}\n\n{}", read, mutate));
}

#[test]
fn positional_field_accessor() {
    let d = decl(
        "Pair",
        plain_generics(),
        FieldList::Positional(vec![pos("u8", &[]), pos("Vec<u8>", &["deref"])]),
    );
    let out = impl_deref_trait(&d, false).unwrap();
    assert_eq!(
        out,
        "impl std::ops::Deref for Pair {\n    type Target = Vec<u8>;\n\n    #[inline]\n    fn deref(&self) -> &Self::Target {\n        &self.1\n    }\n}"
    );
}

#[test]
fn positional_index_rendered_in_decimal() {
    let mut fields = Vec::new();
    for _ in 0..12 {
        fields.push(pos("u8", &[]));
    }
    fields.push(pos("u64", &["deref"]));
    let d = decl("Wide", plain_generics(), FieldList::Positional(fields));
    let out = impl_deref_trait(&d, false).unwrap();
    assert!(out.contains("&self.12\n"));
    assert!(out.contains("type Target = u64;"));
}

#[test]
fn generics_and_where_clause_carried_through() {
    let generics = Generics {
        params: vec![
            GenericParam { lifetime: true, name: "a".to_string(), bound: None },
            GenericParam { lifetime: false, name: "T".to_string(), bound: Some("Clone".to_string()) },
        ],
        where_clause: Some("where T: Default".to_string()),
    };
    let d = decl(
        "Holder",
        generics,
        FieldList::Named(vec![named("inner", "&'a T", &["deref"])]),
    );
    let out = impl_deref_trait(&d, false).unwrap();
    assert_eq!(
        out,
        "impl<'a, T: Clone> std::ops::Deref for Holder<'a, T> where T: Default {\n    type Target = &'a T;\n\n    #[inline]\n    fn deref(&self) -> &Self::Target {\n        &self.inner\n    }\n}"
    );
}

#[test]
fn zero_marked_fields_rejected() {
    let d = decl(
        "Bare",
        plain_generics(),
        FieldList::Named(vec![named("a", "u8", &[]), named("b", "u8", &[])]),
    );
    assert_eq!(impl_deref_trait(&d, false), Err(GenError::NoMarkedField));
    assert_eq!(
        message_text(GenError::NoMarkedField, false),
        "Must have one field marked with #[deref]"
    );
    assert_eq!(
        message_text(GenError::NoMarkedField, true),
        "Must have one field marked with #[deref_mut]"
    );
}

#[test]
fn two_marked_fields_rejected_any_order() {
    for (first, second) in [(0usize, 1usize), (0, 2), (1, 2)] {
        let mut fields = vec![named("a", "u8", &[]), named("b", "u16", &[]), named("c", "u32", &[])];
        fields[first].attrs.push("deref".to_string());
        fields[second].attrs.push("deref".to_string());
        let d = decl("Dup", plain_generics(), FieldList::Named(fields));
        assert_eq!(impl_deref_trait(&d, false), Err(GenError::MultipleMarkedFields));
    }
    assert_eq!(
        message_text(GenError::MultipleMarkedFields, false),
        "Only one field can be marked with #[deref]"
    );
}

#[test]
fn two_marked_positional_fields_rejected() {
    let d = decl(
        "DupPos",
        plain_generics(),
        FieldList::Positional(vec![pos("u8", &["deref"]), pos("u8", &["deref"])]),
    );
    assert_eq!(impl_deref_trait(&d, false), Err(GenError::MultipleMarkedFields));
}

#[test]
fn non_struct_rejected() {
    let d = Declaration {
        name: "Choice".to_string(),
        generics: plain_generics(),
        kind: DeclKind::Enumeration,
    };
    assert_eq!(impl_deref_trait(&d, false), Err(GenError::NotAStruct));
    assert_eq!(message_text(GenError::NotAStruct, false), "Deref can only be used on structs");
    assert_eq!(message_text(GenError::NotAStruct, true), "DerefMut can only be used on structs");
}

#[test]
fn unit_struct_rejected() {
    let d = decl("Unit", plain_generics(), FieldList::Unit);
    assert_eq!(impl_deref_trait(&d, false), Err(GenError::UnitStruct));
    assert_eq!(message_text(GenError::UnitStruct, false), "Unit structs are not supported");
}

#[test]
fn marked_field_without_name_rejected() {
    let nameless = NamedField { name: None, ty: "u8".to_string(), attrs: vec!["deref".to_string()] };
    let d = decl("Odd", plain_generics(), FieldList::Named(vec![nameless]));
    assert_eq!(impl_deref_trait(&d, false), Err(GenError::MissingFieldName));
    assert_eq!(message_text(GenError::MissingFieldName, false), "Field must have a name");
}

#[test]
fn marker_name_depends_on_entry_point() {
    let d = decl(
        "Wrapper",
        plain_generics(),
        FieldList::Named(vec![named("inner", "String", &["deref"])]),
    );
    assert_eq!(impl_deref_trait(&d, true), Err(GenError::NoMarkedField));
    let dm = decl(
        "Wrapper",
        plain_generics(),
        FieldList::Named(vec![named("inner", "String", &["deref_mut"])]),
    );
    assert!(impl_deref_trait(&dm, true).is_ok());
    assert_eq!(impl_deref_trait(&dm, false), Err(GenError::NoMarkedField));
}

#[test]
fn find_deref_field_selects_marked_named_field() {
    let fields = FieldList::Named(vec![
        named("a", "u8", &[]),
        named("inner", "String", &["other", "deref"]),
    ]);
    let (sel, ty) = find_deref_field(&fields, &"deref".to_string()).unwrap();
    assert!(matches!(sel, FieldSelector::Named(n) if n == "inner"));
    assert_eq!(ty, "String");
}

#[test]
fn derive_entry_points_wrap_diagnostics() {
    let d = decl("Bare", plain_generics(), FieldList::Named(vec![named("a", "u8", &[])]));
    assert_eq!(
        derive_deref(&d),
        "compile_error!(\"Must have one field marked with #[deref]\");"
    );
    assert_eq!(
        derive_deref_mut(&d),
        "compile_error!(\"Must have one field marked with #[deref_mut]\");"
    );
    let ok = decl(
        "Wrapper",
        plain_generics(),
        FieldList::Named(vec![named("inner", "String", &["deref"])]),
    );
    assert_eq!(derive_deref(&ok), impl_deref_trait(&ok, false).unwrap());
}

#[test]
fn where_clause_without_parameters() {
    let generics = Generics {
        params: Vec::new(),
        where_clause: Some("where String: Clone".to_string()),
    };
    let d = decl(
        "Odd",
        generics,
        FieldList::Named(vec![named("inner", "String", &["deref"])]),
    );
    let out = impl_deref_trait(&d, false).unwrap();
    assert!(out.starts_with("impl std::ops::Deref for Odd where String: Clone {"));
}

#[test]
fn duplicate_marker_message_for_mutable_family() {
    assert_eq!(
        message_text(GenError::MultipleMarkedFields, true),
        "Only one field can be marked with #[deref_mut]"
    );
}

#[test]
fn unmarked_attributes_are_ignored() {
    let d = decl(
        "Tagged",
        plain_generics(),
        FieldList::Named(vec![
            named("a", "u8", &["serde", "doc"]),
            named("inner", "String", &["deref"]),
        ]),
    );
    let out = impl_deref_trait(&d, false).unwrap();
    assert!(out.contains("&self.inner\n"));
}
