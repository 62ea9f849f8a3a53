//! The declaration model: the parsed form of a structure that the
//! annotation-based generator consumes, together with the spec-level
//! description of the marked-field search.

use vstd::prelude::*;

verus! {

/// One generic parameter of a declaration: a lifetime parameter or a type
/// parameter, the latter optionally carrying a trait bound (its text).
pub struct GenericParam {
    /// True for a lifetime parameter; its name is stored without the
    /// leading tick, which rendering adds back.
    pub lifetime: bool,
    pub name: String,
    /// The bound's text, e.g. `Clone`, if the parameter carries one.
    pub bound: Option<String>,
}

/// The generic context of a declaration: its parameter list and an optional
/// `where` clause, carried verbatim as text (including the `where` keyword).
pub struct Generics {
    pub params: Vec<GenericParam>,
    pub where_clause: Option<String>,
}

/// A named field: its identifier (absent only for a malformed declaration,
/// which the generator rejects), its type's text, and the names of the
/// attributes attached to it.
pub struct NamedField {
    pub name: Option<String>,
    pub ty: String,
    pub attrs: Vec<String>,
}

/// A positional (tuple) field: its index is its position in the field list.
pub struct PosField {
    pub ty: String,
    pub attrs: Vec<String>,
}

/// The field list of a structure declaration.
pub enum FieldList {
    Named(Vec<NamedField>),
    Positional(Vec<PosField>),
    Unit,
}

/// What kind of declaration was parsed; only structures are supported.
pub enum DeclKind {
    Structure(FieldList),
    Enumeration,
    Union,
}

/// The parsed form of a declaration: name, generics and fields.
pub struct Declaration {
    pub name: String,
    pub generics: Generics,
    pub kind: DeclKind,
}

/// The single field selected for delegation, by name or by position.
pub enum FieldSelector {
    Named(String),
    Positional(usize),
}

/// Why generation failed; each variant corresponds to one diagnostic.
#[derive(Clone, Copy, PartialEq, Eq, Structural, Debug)]
pub enum GenError {
    /// The declaration is an enumeration or a union.
    NotAStruct,
    /// The declaration is a unit structure.
    UnitStruct,
    /// A marked named field has no identifier.
    MissingFieldName,
    /// No field carries the marker.
    NoMarkedField,
    /// A second field carries the marker.
    MultipleMarkedFields,
}

/// Whether some attribute in `attrs` has the name `attr`.
pub open spec fn has_attr(attrs: Seq<String>, attr: Seq<char>) -> bool {
    exists|i: int| 0 <= i < attrs.len() && attrs[i]@ == attr
}

/// Whether the named field at `i` carries the marker attribute.
pub open spec fn marked_named(fs: Seq<NamedField>, attr: Seq<char>, i: int) -> bool {
    has_attr(fs[i].attrs@, attr)
}

/// Whether the positional field at `i` carries the marker attribute.
pub open spec fn marked_pos(fs: Seq<PosField>, attr: Seq<char>, i: int) -> bool {
    has_attr(fs[i].attrs@, attr)
}

/// The marked-field search over named fields, scanning front to back.
/// The first marked field wins; a missing identifier on it is reported
/// before a later duplicate marker, and a duplicate before the tail is
/// examined further, mirroring a single left-to-right scan.
pub open spec fn find_named(fs: Seq<NamedField>, attr: Seq<char>) -> Result<
    (FieldSelector, String),
    GenError,
>
    decreases fs.len(),
{
    if fs.len() == 0 {
        Err(GenError::NoMarkedField)
    } else if has_attr(fs[0].attrs@, attr) {
        match fs[0].name {
            Option::None => Err(GenError::MissingFieldName),
            Option::Some(n) => {
                if exists|j: int| 1 <= j < fs.len() && marked_named(fs, attr, j) {
                    Err(GenError::MultipleMarkedFields)
                } else {
                    Ok((FieldSelector::Named(n), fs[0].ty))
                }
            },
        }
    } else {
        find_named(fs.drop_first(), attr)
    }
}

/// The marked-field search over positional fields; `base` is the index of
/// the first field of `fs` in the whole field list.
pub open spec fn find_pos(fs: Seq<PosField>, attr: Seq<char>, base: int) -> Result<
    (FieldSelector, String),
    GenError,
>
    decreases fs.len(),
{
    if fs.len() == 0 {
        Err(GenError::NoMarkedField)
    } else if has_attr(fs[0].attrs@, attr) {
        if exists|j: int| 1 <= j < fs.len() && marked_pos(fs, attr, j) {
            Err(GenError::MultipleMarkedFields)
        } else {
            Ok((FieldSelector::Positional(base as usize), fs[0].ty))
        }
    } else {
        find_pos(fs.drop_first(), attr, base + 1)
    }
}

/// The marked-field search over a whole field list: the delegation target
/// and its type on success, the precise diagnostic otherwise.
pub open spec fn spec_find_deref_field(fields: FieldList, attr: Seq<char>) -> Result<
    (FieldSelector, String),
    GenError,
> {
    match fields {
        FieldList::Named(fs) => find_named(fs@, attr),
        FieldList::Positional(fs) => find_pos(fs@, attr, 0),
        FieldList::Unit => Err(GenError::UnitStruct),
    }
}

/// Scanning past unmarked named fields does not change the search's result.
pub proof fn lemma_find_named_skip(fs: Seq<NamedField>, attr: Seq<char>, i: int)
    requires
        0 <= i <= fs.len(),
        forall|j: int| 0 <= j < i ==> !marked_named(fs, attr, j),
    ensures
        find_named(fs.skip(i), attr) == find_named(fs, attr),
    decreases i,
{
    if i > 0 {
        lemma_find_named_skip(fs, attr, i - 1);
        let t = fs.skip(i - 1);
        assert(t.len() == fs.len() - (i - 1));
        assert(t[0] == fs[i - 1]);
        assert(!marked_named(fs, attr, i - 1));
        assert(!has_attr(t[0].attrs@, attr));
        assert(find_named(t, attr) == find_named(t.drop_first(), attr));
        assert(t.drop_first() =~= fs.skip(i));
    } else {
        assert(fs.skip(0) =~= fs);
    }
}

/// The search's result once the first marked named field is known: the
/// missing-name diagnostic, the duplicate-marker diagnostic if any later
/// field is marked too, or the selected field.
pub proof fn lemma_find_named_at(fs: Seq<NamedField>, attr: Seq<char>, k: int)
    requires
        0 <= k < fs.len(),
        marked_named(fs, attr, k),
        forall|j: int| 0 <= j < k ==> !marked_named(fs, attr, j),
    ensures
        find_named(fs, attr) == (match fs[k].name {
            Option::None => Err::<(FieldSelector, String), GenError>(GenError::MissingFieldName),
            Option::Some(n) => {
                if exists|j: int| k < j < fs.len() && marked_named(fs, attr, j) {
                    Err(GenError::MultipleMarkedFields)
                } else {
                    Ok((FieldSelector::Named(n), fs[k].ty))
                }
            },
        }),
{
    lemma_find_named_skip(fs, attr, k);
    let t = fs.skip(k);
    assert(t[0] == fs[k]);
    if exists|j: int| 1 <= j < t.len() && marked_named(t, attr, j) {
        let j = choose|j: int| 1 <= j < t.len() && marked_named(t, attr, j);
        assert(t[j] == fs[k + j]);
        assert(marked_named(fs, attr, k + j));
    }
    if exists|j: int| k < j < fs.len() && marked_named(fs, attr, j) {
        let j = choose|j: int| k < j < fs.len() && marked_named(fs, attr, j);
        assert(t[j - k] == fs[j]);
        assert(marked_named(t, attr, j - k));
    }
}

/// Scanning past unmarked positional fields does not change the search's
/// result; `base` advances with the fields passed over.
pub proof fn lemma_find_pos_skip(fs: Seq<PosField>, attr: Seq<char>, i: int, base: int)
    requires
        0 <= i <= fs.len(),
        forall|j: int| 0 <= j < i ==> !marked_pos(fs, attr, j),
    ensures
        find_pos(fs.skip(i), attr, base + i) == find_pos(fs, attr, base),
    decreases i,
{
    if i > 0 {
        lemma_find_pos_skip(fs, attr, i - 1, base);
        let t = fs.skip(i - 1);
        assert(t.len() == fs.len() - (i - 1));
        assert(t[0] == fs[i - 1]);
        assert(!marked_pos(fs, attr, i - 1));
        assert(!has_attr(t[0].attrs@, attr));
        assert(find_pos(t, attr, base + i - 1) == find_pos(t.drop_first(), attr, base + i));
        assert(t.drop_first() =~= fs.skip(i));
    } else {
        assert(fs.skip(0) =~= fs);
    }
}

/// The search's result once the first marked positional field is known:
/// the duplicate-marker diagnostic if any later field is marked too, or
/// the selected index.
pub proof fn lemma_find_pos_at(fs: Seq<PosField>, attr: Seq<char>, k: int)
    requires
        0 <= k < fs.len(),
        marked_pos(fs, attr, k),
        forall|j: int| 0 <= j < k ==> !marked_pos(fs, attr, j),
    ensures
        find_pos(fs, attr, 0) == (if exists|j: int| k < j < fs.len() && marked_pos(fs, attr, j) {
            Err::<(FieldSelector, String), GenError>(GenError::MultipleMarkedFields)
        } else {
            Ok((FieldSelector::Positional(k as usize), fs[k].ty))
        }),
{
    lemma_find_pos_skip(fs, attr, k, 0);
    let t = fs.skip(k);
    assert(t[0] == fs[k]);
    if exists|j: int| 1 <= j < t.len() && marked_pos(t, attr, j) {
        let j = choose|j: int| 1 <= j < t.len() && marked_pos(t, attr, j);
        assert(t[j] == fs[k + j]);
        assert(marked_pos(fs, attr, k + j));
    }
    if exists|j: int| k < j < fs.len() && marked_pos(fs, attr, j) {
        let j = choose|j: int| k < j < fs.len() && marked_pos(fs, attr, j);
        assert(t[j - k] == fs[j]);
        assert(marked_pos(t, attr, j - k));
    }
}

/// Whether some attribute in the list is named `name`.
///
/// This is the marker test of the annotation-based generator.
pub fn has_attribute(attrs: &Vec<String>, name: &String) -> (r: bool)
    ensures
        r == has_attr(attrs@, name@),
{
    let mut i: usize = 0;
    while i < attrs.len()
        invariant
            0 <= i <= attrs@.len(),
            forall|j: int| 0 <= j < i ==> attrs@[j]@ != name@,
        decreases attrs@.len() - i,
    {
        if attrs[i] == *name {
            return true;
        }
        i = i + 1;
    }
    false
}

} // verus!
