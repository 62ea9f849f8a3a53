//! Scenario checks: structures whose accessor implementations are written
//! out exactly as the generator emits them, then exercised through the
//! dereference idioms the generated code is meant to support.

use deref_gen::annotation::impl_deref_trait;
use deref_gen::decl::{DeclKind, Declaration, FieldList, Generics, NamedField};

struct TextWrapper {
    inner: String,
}

impl std::ops::Deref for TextWrapper {
    type Target = String;

    fn deref(&self) -> &Self::Target {
        &self.inner
    }
}

impl std::ops::DerefMut for TextWrapper {
    fn deref_mut(&mut self) -> &mut Self::Target {
        &mut self.inner
    }
}

struct Inner {
    value: u32,
}

impl std::ops::Deref for Inner {
    type Target = u32;

    fn deref(&self) -> &Self::Target {
        &self.value
    }
}

struct Outer {
    inner: Inner,
}

impl std::ops::Deref for Outer {
    type Target = Inner;

    fn deref(&self) -> &Self::Target {
        &self.inner
    }
}

fn single_named(decl_name: &str, field: &str, ty: &str, attr: &str) -> Declaration {
    Declaration {
        name: decl_name.to_string(),
        generics: Generics { params: Vec::new(), where_clause: None },
        kind: DeclKind::Structure(FieldList::Named(vec![NamedField {
            name: Some(field.to_string()),
            ty: ty.to_string(),
            attrs: vec![attr.to_string()],
        }])),
    }
}

#[test]
fn text_wrapper_emission_matches_inline_impls() {
    let d = single_named("TextWrapper", "inner", "String", "deref_mut");
    let out = impl_deref_trait(&d, true).unwrap();
    assert_eq!(
        out,
        "impl std::ops::Deref for TextWrapper {\n    type Target = String;\n\n    #[inline]\n    fn deref(&self) -> &Self::Target {\n        &self.inner\n    }\n}\n\nimpl std::ops::DerefMut for TextWrapper {\n    #[inline]\n    fn deref_mut(&mut self) -> &mut Self::Target {\n        &mut self.inner\n    }\n}"
    );
}

#[test]
fn mutation_through_accessor_observed_on_direct_read() {
    let mut w = TextWrapper { inner: "hello".to_string() };
    w.push_str(", world");
    assert_eq!(w.inner, "hello, world");
    w.inner.push('!');
    assert_eq!(*w, "hello, world!");
}

#[test]
fn appended_text_visible_through_both_paths() {
    let mut w = TextWrapper { inner: String::new() };
    (*w).push_str("abc");
    assert_eq!(w.len(), 3);
    assert_eq!(&w.inner, "abc");
}

#[test]
fn nested_emission_matches_inline_impls() {
    let outer = single_named("Outer", "inner", "Inner", "deref");
    assert_eq!(
        impl_deref_trait(&outer, false).unwrap(),
        "impl std::ops::Deref for Outer {\n    type Target = Inner;\n\n    #[inline]\n    fn deref(&self) -> &Self::Target {\n        &self.inner\n    }\n}"
    );
    let inner = single_named("Inner", "value", "u32", "deref");
    assert_eq!(
        impl_deref_trait(&inner, false).unwrap(),
        "impl std::ops::Deref for Inner {\n    type Target = u32;\n\n    #[inline]\n    fn deref(&self) -> &Self::Target {\n        &self.value\n    }\n}"
    );
}

#[test]
fn chained_accessors_reach_innermost_value() {
    let o = Outer { inner: Inner { value: 7 } };
    assert_eq!(**o, 7);
    let through_one: &Inner = &o;
    assert_eq!(through_one.value, 7);
}
