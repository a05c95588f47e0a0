//! Collecting the qualifying declarations and rendering the replacement enum.
//!
//! The synthesized enumeration is emitted as text: an enum named after the
//! group, given a single lifetime parameter `'a` unconditionally (so that
//! variants may borrow), with one variant per discovered declaration, named
//! after it and wrapping one payload of its type instantiated with its own
//! generic parameters verbatim. The declaration bears an `enum_dispatch`
//! annotation so downstream tooling can generate conversion and dispatch
//! code from each payload type into the enum.

use vstd::prelude::*;
use crate::marker::valid_variant;
use crate::model::Decl;
use crate::model::DeclKind;
use crate::model::discovered_variants;
use crate::model::qualifies;
use crate::model::variant_model;

verus! {

/// One synthesized variant: the discovered declaration's name and its
/// generic parameter text, both verbatim.
pub struct Variant {
    /// The variant's name: the discovered declaration's name.
    pub name: String,
    /// The discovered declaration's generic parameter text.
    pub generics: String,
}

/// The variant as the pair of views its contract speaks of.
pub open spec fn variant_view(v: Variant) -> (Seq<char>, Seq<char>) {
    (v.name@, v.generics@)
}

/// The text of one variant: its name wrapping one payload of its own type,
/// instantiated with its generic parameters exactly as declared.
pub open spec fn variant_text(m: (Seq<char>, Seq<char>)) -> Seq<char> {
    m.0 + "("@ + m.0 + m.1 + ")"@
}

/// The variants' texts in order, separated by a comma and a line break.
pub open spec fn joined_variant_text(vs: Seq<(Seq<char>, Seq<char>)>) -> Seq<char>
    decreases vs.len(),
{
    if vs.len() == 0 {
        seq![]
    } else if vs.len() == 1 {
        variant_text(vs[0])
    } else {
        joined_variant_text(vs.drop_last()) + ",\n"@ + variant_text(vs.last())
    }
}

/// The full replacement declaration for group `group` with variants `vs`.
pub open spec fn enum_text(group: Seq<char>, vs: Seq<(Seq<char>, Seq<char>)>) -> Seq<char> {
    "#[enum_dispatch]\nenum "@ + group + "<'a> { "@ + joined_variant_text(vs) + " }"@
}

/// Classifies the scanned declarations, in discovery order: every
/// declaration of a candidate shape that carries a marker for `group`
/// becomes a variant named after it, keeping its generic parameter text
/// verbatim; every other declaration is discarded.
pub fn collect_variants(group: &String, decls: &Vec<Decl>) -> (vs: Vec<Variant>)
    ensures
        vs@.map_values(|v: Variant| variant_view(v)) == discovered_variants(decls@, group@),
{
    let mut vs: Vec<Variant> = Vec::new();
    let mut i: usize = 0;
    while i < decls.len()
        invariant
            i <= decls.len(),
            vs@.map_values(|v: Variant| variant_view(v)) == discovered_variants(
                decls@.take(i as int),
                group@,
            ),
        decreases decls.len() - i,
    {
        let d = &decls[i];
        let shape_ok = match d.kind {
            DeclKind::Other => false,
            _ => true,
        };
        let ghost before = vs@.map_values(|v: Variant| variant_view(v));
        if shape_ok && valid_variant(group, &d.attrs) {
            assert(qualifies(decls@[i as int], group@));
            vs.push(Variant { name: d.name.clone(), generics: d.generics.clone() });
            assert(vs@.map_values(|v: Variant| variant_view(v)) =~= before.push(
                variant_model(decls@[i as int]),
            ));
        } else {
            assert(!qualifies(decls@[i as int], group@));
        }
        assert(decls@.take(i + 1).drop_last() =~= decls@.take(i as int));
        assert(decls@.take(i + 1).last() == decls@[i as int]);
        i = i + 1;
    }
    assert(decls@.take(decls.len() as int) =~= decls@);
    vs
}

/// Renders one variant: its name, wrapping one payload of its own type with
/// its generic parameters appended verbatim.
pub fn render_variant(v: &Variant) -> (s: String)
    ensures
        s@ == variant_text(variant_view(*v)),
{
    let mut s = v.name.clone();
    s.append("(");
    s.append(v.name.as_str());
    s.append(v.generics.as_str());
    s.append(")");
    s
}

/// Renders the replacement declaration for group `group`: an enum named
/// after the group, with the fixed lifetime parameter `'a`, one variant per
/// entry of `variants` in order, and the `enum_dispatch` annotation that lets
/// downstream tooling convert each payload type into the enum.
pub fn synthesize_enum(group: &String, variants: &Vec<Variant>) -> (s: String)
    ensures
        s@ == enum_text(group@, variants@.map_values(|v: Variant| variant_view(v))),
{
    let ghost models = variants@.map_values(|v: Variant| variant_view(v));
    let mut body = String::new();
    let mut i: usize = 0;
    while i < variants.len()
        invariant
            i <= variants.len(),
            models == variants@.map_values(|v: Variant| variant_view(v)),
            body@ == joined_variant_text(models.take(i as int)),
        decreases variants.len() - i,
    {
        if i != 0 {
            body.append(",\n");
        }
        let t = render_variant(&variants[i]);
        body.append(t.as_str());
        assert(models.take(i + 1).drop_last() =~= models.take(i as int));
        assert(models.take(i + 1).last() == models[i as int]);
        i = i + 1;
    }
    assert(models.take(variants.len() as int) =~= models);
    let mut s = String::from_str("#[enum_dispatch]\nenum ");
    s.append(group.as_str());
    s.append("<'a> { ");
    s.append(body.as_str());
    s.append(" }");
    s
}

/// The whole compute step of one scan: classifies the scanned declarations
/// and renders the replacement declaration for group `group`.
pub fn build_enum(group: &String, decls: &Vec<Decl>) -> (s: String)
    ensures
        s@ == enum_text(group@, discovered_variants(decls@, group@)),
{
    let variants = collect_variants(group, decls);
    synthesize_enum(group, &variants)
}

} // verus!
