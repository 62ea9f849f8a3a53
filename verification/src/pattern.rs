//! The pattern-based generator: the selected field and target type come
//! in as explicit invocation arguments rather than being discovered by
//! scanning a declaration, and the generic parameters come in as an
//! explicit optional group.

use vstd::prelude::*;
use vstd::string::StringExecFns;
use crate::decl::{FieldSelector, GenericParam};
use crate::emit::{
    field_access_text, render_deref_impl_text, render_deref_mut_impl_text, render_list,
    render_list_text, spec_deref_impl, spec_deref_mut_impl, spec_field_access,
};

verus! {

/// The arguments of one pattern-based invocation, as the grammar groups
/// them: an optional generic-parameter group, the implementing type's name
/// with its own optional generic-argument group, the target type
/// expression, and the field-access token. The parameter group declares
/// what the implementation is generic over; the argument group, what the
/// type is instantiated with.
pub struct PatternArgs {
    pub params: Option<Vec<GenericParam>>,
    pub ty_name: String,
    pub type_args: Option<Vec<GenericParam>>,
    pub target: String,
    pub field: FieldSelector,
}

/// A generic group as text: nothing when the group is absent, the
/// bracketed comma-separated list when it is present.
pub open spec fn spec_group(g: Option<Vec<GenericParam>>, with_bounds: bool) -> Seq<char> {
    match g {
        Option::None => Seq::<char>::empty(),
        Option::Some(ps) => "<"@ + render_list(ps@, with_bounds) + ">"@,
    }
}

/// The read accessor implementation that an invocation emits.
pub open spec fn spec_expand_deref(a: PatternArgs) -> Seq<char> {
    spec_deref_impl(
        spec_group(a.params, true),
        a.ty_name@,
        spec_group(a.type_args, false),
        Seq::<char>::empty(),
        a.target@,
        spec_field_access(a.field),
    )
}

/// The mutable accessor implementation that a read-write invocation adds.
pub open spec fn spec_expand_mut_part(a: PatternArgs) -> Seq<char> {
    spec_deref_mut_impl(
        spec_group(a.params, true),
        a.ty_name@,
        spec_group(a.type_args, false),
        Seq::<char>::empty(),
        spec_field_access(a.field),
    )
}

/// Everything a read-write invocation emits: the read accessor first,
/// then the mutable accessor.
pub open spec fn spec_expand_deref_mut(a: PatternArgs) -> Seq<char> {
    spec_expand_deref(a) + "\n\n"@ + spec_expand_mut_part(a)
}

/// A generic group as text.
fn group_text(g: &Option<Vec<GenericParam>>, with_bounds: bool) -> (r: String)
    ensures
        r@ == spec_group(*g, with_bounds),
{
    match g {
        Option::None => String::new(),
        Option::Some(ps) => {
            let mut out = String::from_str("<");
            let l = render_list_text(ps, with_bounds);
            out.append(l.as_str());
            out.append(">");
            out
        },
    }
}

/// The read-only entry point of the pattern-based surface: emits the read
/// accessor implementation for the supplied generics, type, target and
/// field token.
pub fn expand_deref(a: &PatternArgs) -> (r: String)
    ensures
        r@ == spec_expand_deref(*a),
{
    let ig = group_text(&a.params, true);
    let tg = group_text(&a.type_args, false);
    let wc = String::new();
    let facc = field_access_text(&a.field);
    render_deref_impl_text(&ig, &a.ty_name, &tg, &wc, &a.target, &facc)
}

/// The read-write entry point of the pattern-based surface: re-invokes
/// the read-only entry point on the identical argument list, then emits
/// the mutable accessor implementation for the same pieces.
pub fn expand_deref_mut(a: &PatternArgs) -> (r: String)
    ensures
        r@ == spec_expand_deref_mut(*a),
{
    let mut out = expand_deref(a);
    out.append("\n\n");
    let ig = group_text(&a.params, true);
    let tg = group_text(&a.type_args, false);
    let wc = String::new();
    let facc = field_access_text(&a.field);
    let m = render_deref_mut_impl_text(&ig, &a.ty_name, &tg, &wc, &facc);
    out.append(m.as_str());
    out
}

} // verus!
