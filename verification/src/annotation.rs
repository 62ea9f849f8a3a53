//! The annotation-based generator: scans a declaration's field list for
//! the single field carrying the marker attribute, validates that exactly
//! one field is marked, and emits the accessor implementations.

use vstd::prelude::*;
use vstd::string::StringExecFns;
use crate::decl::{
    Declaration, DeclKind, FieldList, FieldSelector, GenError, has_attribute, lemma_find_named_at,
    lemma_find_named_skip, lemma_find_pos_at, lemma_find_pos_skip, marked_named, marked_pos,
    spec_find_deref_field,
};
use crate::emit::{render_accessor_impls, spec_accessor_impls};

verus! {

/// The marker attribute's name for each entry point family.
pub open spec fn spec_attr_name(is_mut: bool) -> Seq<char> {
    if is_mut {
        "deref_mut"@
    } else {
        "deref"@
    }
}

/// The generated trait's name, used in diagnostics.
pub open spec fn spec_trait_name(is_mut: bool) -> Seq<char> {
    if is_mut {
        "DerefMut"@
    } else {
        "Deref"@
    }
}

/// The diagnostic text for each failure, for the given entry point family.
pub open spec fn spec_message(e: GenError, is_mut: bool) -> Seq<char> {
    match e {
        GenError::NotAStruct => spec_trait_name(is_mut) + " can only be used on structs"@,
        GenError::UnitStruct => "Unit structs are not supported"@,
        GenError::MissingFieldName => "Field must have a name"@,
        GenError::NoMarkedField => "Must have one field marked with #["@ + spec_attr_name(is_mut)
            + "]"@,
        GenError::MultipleMarkedFields => "Only one field can be marked with #["@ + spec_attr_name(
            is_mut,
        ) + "]"@,
    }
}

/// What generation returns for a declaration: the emitted text, or the
/// precise failure.
pub open spec fn spec_generate(d: Declaration, is_mut: bool) -> Result<Seq<char>, GenError> {
    match d.kind {
        DeclKind::Structure(fields) => match spec_find_deref_field(fields, spec_attr_name(is_mut)) {
            Ok(st) => Ok(spec_accessor_impls(d.name@, d.generics, st.1@, st.0, is_mut)),
            Err(e) => Err(e),
        },
        _ => Err(GenError::NotAStruct),
    }
}

/// A diagnostic wrapped as the compile-time failure the build step sees.
pub open spec fn spec_compile_error(m: Seq<char>) -> Seq<char> {
    "compile_error!(\""@ + m + "\");"@
}

/// The whole output of a derive entry point: emitted accessors on success,
/// a compile-time failure otherwise.
pub open spec fn spec_derive_output(d: Declaration, is_mut: bool) -> Seq<char> {
    match spec_generate(d, is_mut) {
        Ok(t) => t,
        Err(e) => spec_compile_error(spec_message(e, is_mut)),
    }
}

/// The diagnostic text for a failure, as the chosen entry point family
/// words it.
pub fn message_text(e: GenError, is_mut: bool) -> (r: String)
    ensures
        r@ == spec_message(e, is_mut),
{
    let attr: &'static str = if is_mut {
        "deref_mut"
    } else {
        "deref"
    };
    match e {
        GenError::NotAStruct => {
            let mut out = String::from_str(
                if is_mut {
                    "DerefMut"
                } else {
                    "Deref"
                },
            );
            out.append(" can only be used on structs");
            out
        },
        GenError::UnitStruct => String::from_str("Unit structs are not supported"),
        GenError::MissingFieldName => String::from_str("Field must have a name"),
        GenError::NoMarkedField => {
            let mut out = String::from_str("Must have one field marked with #[");
            out.append(attr);
            out.append("]");
            out
        },
        GenError::MultipleMarkedFields => {
            let mut out = String::from_str("Only one field can be marked with #[");
            out.append(attr);
            out.append("]");
            out
        },
    }
}

/// A diagnostic wrapped as compile-error source text.
pub fn compile_error_text(m: &String) -> (r: String)
    ensures
        r@ == spec_compile_error(m@),
{
    let mut out = String::from_str("compile_error!(\"");
    out.append(m.as_str());
    out.append("\");");
    out
}

/// Finds the field marked with the attribute named `attr_name`: the
/// delegation target and its type, or the precise diagnostic. The field
/// list is scanned once, front to back; the first marked field is
/// selected, and a second marked field is the duplicate-marker failure.
#[verifier::loop_isolation(false)]
pub fn find_deref_field(fields: &FieldList, attr_name: &String) -> (r: Result<
    (FieldSelector, String),
    GenError,
>)
    ensures
        r == spec_find_deref_field(*fields, attr_name@),
{
    match fields {
        FieldList::Named(fs) => {
            let mut i: usize = 0;
            let mut found: Option<(FieldSelector, String)> = Option::None;
            let ghost mut k: int = 0;
            while i < fs.len()
                invariant
                    0 <= i <= fs@.len(),
                    found is None ==> forall|j: int|
                        0 <= j < i ==> !marked_named(fs@, attr_name@, j),
                    found is Some ==> {
                        &&& 0 <= k < i
                        &&& marked_named(fs@, attr_name@, k)
                        &&& forall|j: int| 0 <= j < k ==> !marked_named(fs@, attr_name@, j)
                        &&& forall|j: int| k < j < i ==> !marked_named(fs@, attr_name@, j)
                        &&& fs@[k].name is Some
                        &&& found->0 == (FieldSelector::Named(fs@[k].name->0), fs@[k].ty)
                    },
                decreases fs@.len() - i,
            {
                let f = &fs[i];
                if has_attribute(&f.attrs, attr_name) {
                    if found.is_some() {
                        proof {
                            lemma_find_named_at(fs@, attr_name@, k);
                            assert(marked_named(fs@, attr_name@, i as int));
                        }
                        return Err(GenError::MultipleMarkedFields);
                    }
                    match &f.name {
                        Option::None => {
                            proof {
                                lemma_find_named_at(fs@, attr_name@, i as int);
                            }
                            return Err(GenError::MissingFieldName);
                        },
                        Option::Some(n) => {
                            found = Option::Some(
                                (FieldSelector::Named(n.clone()), f.ty.clone()),
                            );
                            proof {
                                k = i as int;
                            }
                        },
                    }
                }
                i = i + 1;
            }
            match found {
                Option::Some(p) => {
                    proof {
                        lemma_find_named_at(fs@, attr_name@, k);
                    }
                    Ok(p)
                },
                Option::None => {
                    proof {
                        lemma_find_named_skip(fs@, attr_name@, fs@.len() as int);
                        assert(fs@.skip(fs@.len() as int).len() == 0);
                    }
                    Err(GenError::NoMarkedField)
                },
            }
        },
        FieldList::Positional(fs) => {
            let mut i: usize = 0;
            let mut found: Option<(FieldSelector, String)> = Option::None;
            let ghost mut k: int = 0;
            while i < fs.len()
                invariant
                    0 <= i <= fs@.len(),
                    found is None ==> forall|j: int| 0 <= j < i ==> !marked_pos(fs@, attr_name@, j),
                    found is Some ==> {
                        &&& 0 <= k < i
                        &&& marked_pos(fs@, attr_name@, k)
                        &&& forall|j: int| 0 <= j < k ==> !marked_pos(fs@, attr_name@, j)
                        &&& forall|j: int| k < j < i ==> !marked_pos(fs@, attr_name@, j)
                        &&& found->0 == (FieldSelector::Positional(k as usize), fs@[k].ty)
                    },
                decreases fs@.len() - i,
            {
                let f = &fs[i];
                if has_attribute(&f.attrs, attr_name) {
                    if found.is_some() {
                        proof {
                            lemma_find_pos_at(fs@, attr_name@, k);
                            assert(marked_pos(fs@, attr_name@, i as int));
                        }
                        return Err(GenError::MultipleMarkedFields);
                    }
                    found = Option::Some((FieldSelector::Positional(i), f.ty.clone()));
                    proof {
                        k = i as int;
                    }
                }
                i = i + 1;
            }
            match found {
                Option::Some(p) => {
                    proof {
                        lemma_find_pos_at(fs@, attr_name@, k);
                    }
                    Ok(p)
                },
                Option::None => {
                    proof {
                        lemma_find_pos_skip(fs@, attr_name@, fs@.len() as int, 0);
                        assert(fs@.skip(fs@.len() as int).len() == 0);
                    }
                    Err(GenError::NoMarkedField)
                },
            }
        },
        FieldList::Unit => Err(GenError::UnitStruct),
    }
}

/// The annotation-based generator: validates the declaration, finds the
/// single marked field, and emits the read accessor implementation — and,
/// when `is_mut` is set, the mutable accessor implementation as well — or
/// returns the precise failure.
pub fn impl_deref_trait(input: &Declaration, is_mut: bool) -> (r: Result<String, GenError>)
    ensures
        match spec_generate(*input, is_mut) {
            Ok(t) => r matches Ok(s) && s@ == t,
            Err(e) => r matches Err(e2) && e2 == e,
        },
{
    let attr_name = if is_mut {
        String::from_str("deref_mut")
    } else {
        String::from_str("deref")
    };
    match &input.kind {
        DeclKind::Structure(fields) => match find_deref_field(fields, &attr_name) {
            Ok((sel, ty)) => Ok(render_accessor_impls(&input.name, &input.generics, &ty, &sel, is_mut)),
            Err(e) => Err(e),
        },
        _ => Err(GenError::NotAStruct),
    }
}

/// The read-only derive entry point: the read accessor implementation for
/// the declaration, or the diagnostic as compile-error source text.
pub fn derive_deref(input: &Declaration) -> (r: String)
    ensures
        r@ == spec_derive_output(*input, false),
{
    match impl_deref_trait(input, false) {
        Ok(t) => t,
        Err(e) => {
            let m = message_text(e, false);
            compile_error_text(&m)
        },
    }
}

/// The read-write derive entry point: both accessor implementations for
/// the declaration, or the diagnostic as compile-error source text.
pub fn derive_deref_mut(input: &Declaration) -> (r: String)
    ensures
        r@ == spec_derive_output(*input, true),
{
    match impl_deref_trait(input, true) {
        Ok(t) => t,
        Err(e) => {
            let m = message_text(e, true);
            compile_error_text(&m)
        },
    }
}

} // verus!
