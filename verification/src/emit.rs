//! Code emission: rendering an emission request — implementing type, its
//! generics, the target type and the selected field — into the source text
//! of the read accessor implementation and, when requested, the mutable
//! accessor implementation.

use vstd::prelude::*;
use vstd::string::StringExecFns;
use crate::decl::{FieldSelector, GenericParam, Generics};

verus! {

/// The text of one generic parameter: a tick for a lifetime, the name,
/// and — when `with_bounds` is set — its trait bound.
pub open spec fn render_param(p: GenericParam, with_bounds: bool) -> Seq<char> {
    (if p.lifetime {
        "'"@
    } else {
        Seq::<char>::empty()
    }) + p.name@ + (if with_bounds && p.bound is Some {
        ": "@ + (p.bound->0)@
    } else {
        Seq::<char>::empty()
    })
}

/// A comma-separated generic parameter list.
pub open spec fn render_list(ps: Seq<GenericParam>, with_bounds: bool) -> Seq<char>
    decreases ps.len(),
{
    if ps.len() == 0 {
        Seq::<char>::empty()
    } else if ps.len() == 1 {
        render_param(ps[0], with_bounds)
    } else {
        render_param(ps[0], with_bounds) + ", "@ + render_list(ps.drop_first(), with_bounds)
    }
}

/// A parameter list in angle brackets; nothing at all when the list is empty.
pub open spec fn angled(s: Seq<char>) -> Seq<char> {
    if s.len() == 0 {
        Seq::<char>::empty()
    } else {
        "<"@ + s + ">"@
    }
}

/// The `where` clause, preceded by a space, or nothing.
pub open spec fn render_where(w: Option<String>) -> Seq<char> {
    match w {
        Option::None => Seq::<char>::empty(),
        Option::Some(s) => " "@ + s@,
    }
}

/// The decimal digit character for `d < 10`.
pub open spec fn spec_digit_char(d: nat) -> char {
    if d == 0 {
        '0'
    } else if d == 1 {
        '1'
    } else if d == 2 {
        '2'
    } else if d == 3 {
        '3'
    } else if d == 4 {
        '4'
    } else if d == 5 {
        '5'
    } else if d == 6 {
        '6'
    } else if d == 7 {
        '7'
    } else if d == 8 {
        '8'
    } else {
        '9'
    }
}

/// The decimal rendering of `n`, most significant digit first.
pub open spec fn spec_digits(n: nat) -> Seq<char>
    decreases n,
{
    if n < 10 {
        seq![spec_digit_char(n)]
    } else {
        spec_digits(n / 10) + seq![spec_digit_char(n % 10)]
    }
}

/// The field-access token: the field's name, or its index in decimal.
pub open spec fn spec_field_access(sel: FieldSelector) -> Seq<char> {
    match sel {
        FieldSelector::Named(n) => n@,
        FieldSelector::Positional(i) => spec_digits(i as nat),
    }
}

/// The read accessor implementation for the given pieces: `ig` the generic
/// parameter list of the implementation, `name` and `tg` the implementing
/// type and its generic arguments, `wc` the where clause, `target` the
/// target type and `facc` the field-access token.
pub open spec fn spec_deref_impl(
    ig: Seq<char>,
    name: Seq<char>,
    tg: Seq<char>,
    wc: Seq<char>,
    target: Seq<char>,
    facc: Seq<char>,
) -> Seq<char> {
    "impl"@ + ig + " std::ops::Deref for "@ + name + tg + wc + " {\n    type Target = "@ + target
        + ";\n\n    #[inline]\n    fn deref(&self) -> &Self::Target {\n        &self."@ + facc
        + "\n    }\n}"@
}

/// The mutable accessor implementation for the same pieces; its target is
/// the one the read accessor declared.
pub open spec fn spec_deref_mut_impl(
    ig: Seq<char>,
    name: Seq<char>,
    tg: Seq<char>,
    wc: Seq<char>,
    facc: Seq<char>,
) -> Seq<char> {
    "impl"@ + ig + " std::ops::DerefMut for "@ + name + tg + wc
        + " {\n    #[inline]\n    fn deref_mut(&mut self) -> &mut Self::Target {\n        &mut self."@
        + facc + "\n    }\n}"@
}

/// The full output of an emission request built from a declaration's
/// generics: the read accessor alone, or both accessors separated by a
/// blank line.
pub open spec fn spec_accessor_impls(
    name: Seq<char>,
    generics: Generics,
    target: Seq<char>,
    sel: FieldSelector,
    is_mut: bool,
) -> Seq<char> {
    let ig = angled(render_list(generics.params@, true));
    let tg = angled(render_list(generics.params@, false));
    let wc = render_where(generics.where_clause);
    let facc = spec_field_access(sel);
    if is_mut {
        spec_deref_impl(ig, name, tg, wc, target, facc) + "\n\n"@ + spec_deref_mut_impl(
            ig,
            name,
            tg,
            wc,
            facc,
        )
    } else {
        spec_deref_impl(ig, name, tg, wc, target, facc)
    }
}

/// One decimal digit as text.
fn digit_str(d: usize) -> (r: &'static str)
    requires
        d < 10,
    ensures
        r@ == seq![spec_digit_char(d as nat)],
{
    proof {
        reveal_strlit("0");
        reveal_strlit("1");
        reveal_strlit("2");
        reveal_strlit("3");
        reveal_strlit("4");
        reveal_strlit("5");
        reveal_strlit("6");
        reveal_strlit("7");
        reveal_strlit("8");
        reveal_strlit("9");
    }
    let r: &'static str = if d == 0 {
        "0"
    } else if d == 1 {
        "1"
    } else if d == 2 {
        "2"
    } else if d == 3 {
        "3"
    } else if d == 4 {
        "4"
    } else if d == 5 {
        "5"
    } else if d == 6 {
        "6"
    } else if d == 7 {
        "7"
    } else if d == 8 {
        "8"
    } else {
        "9"
    };
    proof {
        assert(r@ =~= seq![spec_digit_char(d as nat)]);
    }
    r
}

/// Appends the decimal rendering of `n`.
fn push_digits(n: usize, out: &mut String)
    ensures
        final(out)@ == old(out)@ + spec_digits(n as nat),
    decreases n,
{
    if n >= 10 {
        proof {
            assert(n / 10 < n) by (nonlinear_arith)
                requires
                    n >= 10,
            ;
        }
        push_digits(n / 10, out);
    }
    out.append(digit_str(n % 10));
    proof {
        assert(out@ =~= old(out)@ + spec_digits(n as nat));
    }
}

/// The field-access token of a selector as text.
pub fn field_access_text(sel: &FieldSelector) -> (r: String)
    ensures
        r@ == spec_field_access(*sel),
{
    match sel {
        FieldSelector::Named(n) => n.clone(),
        FieldSelector::Positional(i) => {
            let mut out = String::new();
            push_digits(*i, &mut out);
            proof {
                assert(out@ =~= spec_field_access(*sel));
            }
            out
        },
    }
}

/// Appends the text of one generic parameter.
fn push_param(out: &mut String, p: &GenericParam, with_bounds: bool)
    ensures
        final(out)@ == old(out)@ + render_param(*p, with_bounds),
{
    if p.lifetime {
        out.append("'");
    }
    out.append(p.name.as_str());
    if with_bounds {
        match &p.bound {
            Option::Some(b) => {
                out.append(": ");
                out.append(b.as_str());
            },
            Option::None => {},
        }
    }
    proof {
        assert(out@ =~= old(out)@ + render_param(*p, with_bounds));
    }
}

/// How one step of the scan relates the rendered list of a suffix to the
/// rendered parameter at its head.
proof fn lemma_render_list_step(ps: Seq<GenericParam>, with_bounds: bool, i: int)
    requires
        0 <= i < ps.len(),
    ensures
        render_list(ps.skip(i), with_bounds) == if i + 1 == ps.len() {
            render_param(ps[i], with_bounds)
        } else {
            render_param(ps[i], with_bounds) + ", "@ + render_list(ps.skip(i + 1), with_bounds)
        },
{
    let t = ps.skip(i);
    assert(t[0] == ps[i]);
    if i + 1 < ps.len() {
        assert(t.drop_first() =~= ps.skip(i + 1));
    }
}

/// The comma-separated generic parameter list as text.
pub fn render_list_text(ps: &Vec<GenericParam>, with_bounds: bool) -> (r: String)
    ensures
        r@ == render_list(ps@, with_bounds),
{
    let mut out = String::new();
    let mut i: usize = 0;
    proof {
        assert(ps@.skip(0) =~= ps@);
        assert(out@ + render_list(ps@, with_bounds) =~= render_list(ps@, with_bounds));
    }
    while i < ps.len()
        invariant
            0 <= i <= ps@.len(),
            render_list(ps@, with_bounds) == out@ + render_list(ps@.skip(i as int), with_bounds),
        decreases ps@.len() - i,
    {
        proof {
            lemma_render_list_step(ps@, with_bounds, i as int);
        }
        push_param(&mut out, &ps[i], with_bounds);
        if i + 1 < ps.len() {
            out.append(", ");
        }
        i = i + 1;
        proof {
            assert(render_list(ps@, with_bounds) =~= out@ + render_list(
                ps@.skip(i as int),
                with_bounds,
            ));
        }
    }
    proof {
        assert(ps@.skip(i as int) =~= Seq::<GenericParam>::empty());
        assert(render_list(ps@, with_bounds) =~= out@);
    }
    out
}

/// The list in angle brackets, or nothing when it is empty.
pub fn angled_text(s: &String) -> (r: String)
    ensures
        r@ == angled(s@),
{
    if s.as_str().is_empty() {
        String::new()
    } else {
        let mut out = String::from_str("<");
        out.append(s.as_str());
        out.append(">");
        proof {
            assert(out@ =~= angled(s@));
        }
        out
    }
}

/// The where clause as text, preceded by a space, or nothing.
pub fn where_text(w: &Option<String>) -> (r: String)
    ensures
        r@ == render_where(*w),
{
    match w {
        Option::None => String::new(),
        Option::Some(s) => {
            let mut out = String::from_str(" ");
            out.append(s.as_str());
            out
        },
    }
}

/// The read accessor implementation as text.
pub fn render_deref_impl_text(
    ig: &String,
    name: &String,
    tg: &String,
    wc: &String,
    target: &String,
    facc: &String,
) -> (r: String)
    ensures
        r@ == spec_deref_impl(ig@, name@, tg@, wc@, target@, facc@),
{
    let mut out = String::from_str("impl");
    out.append(ig.as_str());
    out.append(" std::ops::Deref for ");
    out.append(name.as_str());
    out.append(tg.as_str());
    out.append(wc.as_str());
    out.append(" {\n    type Target = ");
    out.append(target.as_str());
    out.append(";\n\n    #[inline]\n    fn deref(&self) -> &Self::Target {\n        &self.");
    out.append(facc.as_str());
    out.append("\n    }\n}");
    proof {
        assert(out@ =~= spec_deref_impl(ig@, name@, tg@, wc@, target@, facc@));
    }
    out
}

/// The mutable accessor implementation as text.
pub fn render_deref_mut_impl_text(
    ig: &String,
    name: &String,
    tg: &String,
    wc: &String,
    facc: &String,
) -> (r: String)
    ensures
        r@ == spec_deref_mut_impl(ig@, name@, tg@, wc@, facc@),
{
    let mut out = String::from_str("impl");
    out.append(ig.as_str());
    out.append(" std::ops::DerefMut for ");
    out.append(name.as_str());
    out.append(tg.as_str());
    out.append(wc.as_str());
    out.append(" {\n    #[inline]\n    fn deref_mut(&mut self) -> &mut Self::Target {\n        &mut self.");
    out.append(facc.as_str());
    out.append("\n    }\n}");
    proof {
        assert(out@ =~= spec_deref_mut_impl(ig@, name@, tg@, wc@, facc@));
    }
    out
}

/// The full output of an emission request built from a declaration: the
/// read accessor, followed — when mutable access was requested — by the
/// mutable accessor for the same field.
pub fn render_accessor_impls(
    name: &String,
    generics: &Generics,
    target: &String,
    sel: &FieldSelector,
    is_mut: bool,
) -> (r: String)
    ensures
        r@ == spec_accessor_impls(name@, *generics, target@, *sel, is_mut),
{
    let list_b = render_list_text(&generics.params, true);
    let ig = angled_text(&list_b);
    let list_n = render_list_text(&generics.params, false);
    let tg = angled_text(&list_n);
    let wc = where_text(&generics.where_clause);
    let facc = field_access_text(sel);
    let read = render_deref_impl_text(&ig, name, &tg, &wc, target, &facc);
    if is_mut {
        let m = render_deref_mut_impl_text(&ig, name, &tg, &wc, &facc);
        let mut out = read;
        out.append("\n\n");
        out.append(m.as_str());
        proof {
            assert(out@ =~= spec_accessor_impls(name@, *generics, target@, *sel, is_mut));
        }
        out
    } else {
        read
    }
}

} // verus!
