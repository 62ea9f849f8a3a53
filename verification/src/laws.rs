//! The properties the two generators are held to, proved as theorems over
//! their specifications.

use vstd::prelude::*;
use crate::decl::{
    Declaration, DeclKind, FieldList, FieldSelector, GenError, Generics, NamedField, PosField,
    lemma_find_named_at, lemma_find_named_skip, lemma_find_pos_at, lemma_find_pos_skip,
    marked_named, marked_pos,
};
use crate::annotation::{spec_attr_name, spec_generate};
use crate::emit::{
    angled, render_list, render_where, spec_accessor_impls, spec_deref_mut_impl, spec_field_access,
};
use crate::pattern::{PatternArgs, spec_expand_deref, spec_expand_deref_mut, spec_expand_mut_part};

verus! {

/// For a structure with exactly one marked named field, generation
/// succeeds, the read accessor's target type is that field's declared
/// type, and the accessor body reaches exactly that field.
pub proof fn lemma_named_field_accessor(
    d: Declaration,
    fs: Vec<NamedField>,
    is_mut: bool,
    i: int,
)
    requires
        d.kind == DeclKind::Structure(FieldList::Named(fs)),
        0 <= i < fs@.len(),
        marked_named(fs@, spec_attr_name(is_mut), i),
        forall|j: int|
            0 <= j < fs@.len() && j != i ==> !marked_named(fs@, spec_attr_name(is_mut), j),
        fs@[i].name is Some,
    ensures
        spec_generate(d, is_mut) == Ok::<Seq<char>, GenError>(
            spec_accessor_impls(
                d.name@,
                d.generics,
                fs@[i].ty@,
                FieldSelector::Named(fs@[i].name->0),
                is_mut,
            ),
        ),
{
    lemma_find_named_at(fs@, spec_attr_name(is_mut), i);
}

/// For a structure with exactly one marked positional field, generation
/// succeeds, the read accessor's target type is that field's declared
/// type, and the accessor body reaches exactly that index.
pub proof fn lemma_positional_field_accessor(
    d: Declaration,
    fs: Vec<PosField>,
    is_mut: bool,
    i: int,
)
    requires
        d.kind == DeclKind::Structure(FieldList::Positional(fs)),
        0 <= i < fs@.len(),
        marked_pos(fs@, spec_attr_name(is_mut), i),
        forall|j: int| 0 <= j < fs@.len() && j != i ==> !marked_pos(fs@, spec_attr_name(is_mut), j),
    ensures
        spec_generate(d, is_mut) == Ok::<Seq<char>, GenError>(
            spec_accessor_impls(
                d.name@,
                d.generics,
                fs@[i].ty@,
                FieldSelector::Positional(i as usize),
                is_mut,
            ),
        ),
{
    lemma_find_pos_at(fs@, spec_attr_name(is_mut), i);
}

/// When mutable access is requested, the emitted text is the read
/// accessor followed by a mutable accessor built from the same field
/// token, so a write through the one and a read through the other meet
/// at the same field.
pub proof fn lemma_mutable_accessor_same_field(
    name: Seq<char>,
    generics: Generics,
    target: Seq<char>,
    sel: FieldSelector,
)
    ensures
        spec_accessor_impls(name, generics, target, sel, true) == spec_accessor_impls(
            name,
            generics,
            target,
            sel,
            false,
        ) + "\n\n"@ + spec_deref_mut_impl(
            angled(render_list(generics.params@, true)),
            name,
            angled(render_list(generics.params@, false)),
            render_where(generics.where_clause),
            spec_field_access(sel),
        ),
{
}

/// A structure none of whose fields carries the marker fails with the
/// must-have-one diagnostic.
pub proof fn lemma_zero_marked_fails(d: Declaration, fields: FieldList, is_mut: bool)
    requires
        d.kind == DeclKind::Structure(fields),
        match fields {
            FieldList::Named(fs) => forall|j: int|
                0 <= j < fs@.len() ==> !marked_named(fs@, spec_attr_name(is_mut), j),
            FieldList::Positional(fs) => forall|j: int|
                0 <= j < fs@.len() ==> !marked_pos(fs@, spec_attr_name(is_mut), j),
            FieldList::Unit => false,
        },
    ensures
        spec_generate(d, is_mut) == Err::<Seq<char>, GenError>(GenError::NoMarkedField),
{
    let attr = spec_attr_name(is_mut);
    match fields {
        FieldList::Named(fs) => {
            lemma_find_named_skip(fs@, attr, fs@.len() as int);
            assert(fs@.skip(fs@.len() as int).len() == 0);
        },
        FieldList::Positional(fs) => {
            lemma_find_pos_skip(fs@, attr, fs@.len() as int, 0);
            assert(fs@.skip(fs@.len() as int).len() == 0);
        },
        FieldList::Unit => {},
    }
}

/// The least marked index at or below a given marked index, for named
/// fields.
proof fn first_marked_named(fs: Seq<NamedField>, attr: Seq<char>, i: int) -> (k: int)
    requires
        0 <= i < fs.len(),
        marked_named(fs, attr, i),
    ensures
        0 <= k <= i,
        marked_named(fs, attr, k),
        forall|j: int| 0 <= j < k ==> !marked_named(fs, attr, j),
    decreases i,
{
    if exists|j: int| 0 <= j < i && marked_named(fs, attr, j) {
        let j = choose|j: int| 0 <= j < i && marked_named(fs, attr, j);
        first_marked_named(fs, attr, j)
    } else {
        i
    }
}

/// The least marked index at or below a given marked index, for
/// positional fields.
proof fn first_marked_pos(fs: Seq<PosField>, attr: Seq<char>, i: int) -> (k: int)
    requires
        0 <= i < fs.len(),
        marked_pos(fs, attr, i),
    ensures
        0 <= k <= i,
        marked_pos(fs, attr, k),
        forall|j: int| 0 <= j < k ==> !marked_pos(fs, attr, j),
    decreases i,
{
    if exists|j: int| 0 <= j < i && marked_pos(fs, attr, j) {
        let j = choose|j: int| 0 <= j < i && marked_pos(fs, attr, j);
        first_marked_pos(fs, attr, j)
    } else {
        i
    }
}

/// Two marked named fields fail with the only-one diagnostic, whichever
/// two fields they are. The fields must carry names: a missing name on
/// the first marked field is reported ahead of the duplicate marker.
pub proof fn lemma_two_marked_named_fails(
    d: Declaration,
    fs: Vec<NamedField>,
    is_mut: bool,
    i1: int,
    i2: int,
)
    requires
        d.kind == DeclKind::Structure(FieldList::Named(fs)),
        0 <= i1 < i2 < fs@.len(),
        marked_named(fs@, spec_attr_name(is_mut), i1),
        marked_named(fs@, spec_attr_name(is_mut), i2),
        forall|j: int| 0 <= j < fs@.len() ==> fs@[j].name is Some,
    ensures
        spec_generate(d, is_mut) == Err::<Seq<char>, GenError>(GenError::MultipleMarkedFields),
{
    let attr = spec_attr_name(is_mut);
    let k = first_marked_named(fs@, attr, i1);
    lemma_find_named_at(fs@, attr, k);
    assert(k < i2 && marked_named(fs@, attr, i2));
}

/// Two marked positional fields fail with the only-one diagnostic,
/// whichever two fields they are.
pub proof fn lemma_two_marked_positional_fails(
    d: Declaration,
    fs: Vec<PosField>,
    is_mut: bool,
    i1: int,
    i2: int,
)
    requires
        d.kind == DeclKind::Structure(FieldList::Positional(fs)),
        0 <= i1 < i2 < fs@.len(),
        marked_pos(fs@, spec_attr_name(is_mut), i1),
        marked_pos(fs@, spec_attr_name(is_mut), i2),
    ensures
        spec_generate(d, is_mut) == Err::<Seq<char>, GenError>(GenError::MultipleMarkedFields),
{
    let attr = spec_attr_name(is_mut);
    let k = first_marked_pos(fs@, attr, i1);
    lemma_find_pos_at(fs@, attr, k);
    assert(k < i2 && marked_pos(fs@, attr, i2));
}

/// A non-generic declaration with one marked named field and a pattern
/// invocation naming the same type, target type and field emit the
/// identical read accessor.
pub proof fn lemma_cross_surface_equivalence(
    d: Declaration,
    fs: Vec<NamedField>,
    i: int,
    a: PatternArgs,
)
    requires
        d.kind == DeclKind::Structure(FieldList::Named(fs)),
        d.generics.params@.len() == 0,
        d.generics.where_clause is None,
        0 <= i < fs@.len(),
        marked_named(fs@, spec_attr_name(false), i),
        forall|j: int| 0 <= j < fs@.len() && j != i ==> !marked_named(fs@, spec_attr_name(false), j),
        fs@[i].name is Some,
        a.params is None,
        a.type_args is None,
        a.ty_name@ == d.name@,
        a.target@ == fs@[i].ty@,
        a.field == FieldSelector::Named(fs@[i].name->0),
    ensures
        spec_generate(d, false) == Ok::<Seq<char>, GenError>(spec_expand_deref(a)),
{
    lemma_named_field_accessor(d, fs, false, i);
}

/// What the read-write entry point of the pattern-based surface emits
/// begins, byte for byte, with what the read-only entry point emits for
/// the identical argument list.
pub proof fn lemma_rw_emits_ro_prefix(a: PatternArgs)
    ensures
        spec_expand_deref_mut(a).len() >= spec_expand_deref(a).len(),
        spec_expand_deref_mut(a).subrange(0, spec_expand_deref(a).len() as int)
            == spec_expand_deref(a),
        spec_expand_deref_mut(a) == spec_expand_deref(a) + "\n\n"@ + spec_expand_mut_part(a),
{
    assert(spec_expand_deref_mut(a).subrange(0, spec_expand_deref(a).len() as int)
        =~= spec_expand_deref(a));
}

} // verus!
