//! Laws of the discovery and synthesis step.

use vstd::prelude::*;
use crate::model::Decl;
use crate::model::discovered_variants;
use crate::model::is_candidate_shape;
use crate::model::qualifies;
use crate::model::variant_model;

verus! {

/// Discovery completeness: every scanned declaration that qualifies for the
/// group — a candidate shape carrying a marker whose argument equals the
/// group's name — contributes a variant with its own name and generic
/// parameter text.
pub proof fn lemma_discovery_completeness(decls: Seq<Decl>, group: Seq<char>, i: int)
    requires
        0 <= i < decls.len(),
        qualifies(decls[i], group),
    ensures
        discovered_variants(decls, group).contains(variant_model(decls[i])),
    decreases decls.len(),
{
    if i == decls.len() - 1 {
        let vs = discovered_variants(decls, group);
        assert(vs.last() == variant_model(decls[i]));
    } else {
        lemma_discovery_completeness(decls.drop_last(), group, i);
        let prev = discovered_variants(decls.drop_last(), group);
        let j = choose|j: int| 0 <= j < prev.len() && prev[j] == variant_model(
            decls.drop_last()[i],
        );
        assert(discovered_variants(decls, group)[j] == variant_model(decls[i]));
    }
}

/// Discovery soundness: every variant of the synthesized enumeration comes
/// from some scanned declaration that qualifies for the group, with that
/// declaration's name and generic parameter text.
pub proof fn lemma_discovery_soundness(decls: Seq<Decl>, group: Seq<char>, j: int)
    requires
        0 <= j < discovered_variants(decls, group).len(),
    ensures
        exists|i: int|
            0 <= i < decls.len() && qualifies(decls[i], group) && discovered_variants(
                decls,
                group,
            )[j] == variant_model(decls[i]),
    decreases decls.len(),
{
    let vs = discovered_variants(decls, group);
    let prev = discovered_variants(decls.drop_last(), group);
    if qualifies(decls.last(), group) && j == prev.len() {
        assert(vs[j] == variant_model(decls[decls.len() - 1]));
    } else {
        lemma_discovery_soundness(decls.drop_last(), group, j);
        let i = choose|i: int|
            0 <= i < decls.drop_last().len() && qualifies(decls.drop_last()[i], group)
                && prev[j] == variant_model(decls.drop_last()[i]);
        assert(qualifies(decls[i], group) && vs[j] == variant_model(decls[i]));
    }
}

/// Generic fidelity: a qualifying declaration's variant wraps a payload
/// whose type text is the declaration's name instantiated with its generic
/// parameters, textually unchanged.
pub proof fn lemma_generic_fidelity(decls: Seq<Decl>, group: Seq<char>, i: int)
    requires
        0 <= i < decls.len(),
        qualifies(decls[i], group),
    ensures
        exists|j: int|
            0 <= j < discovered_variants(decls, group).len() && crate::synth::variant_text(
                discovered_variants(decls, group)[j],
            ) == decls[i].name@ + "("@ + decls[i].name@ + decls[i].generics@ + ")"@,
{
    lemma_discovery_completeness(decls, group, i);
    let vs = discovered_variants(decls, group);
    let j = choose|j: int| 0 <= j < vs.len() && vs[j] == variant_model(decls[i]);
    assert(crate::synth::variant_text(vs[j]) == decls[i].name@ + "("@ + decls[i].name@
        + decls[i].generics@ + ")"@);
}

/// Shape filtering: a declaration whose shape is not one of the four
/// candidate shapes — a function, trait, constant, or any other item —
/// never contributes a variant, whatever annotations it bears; removing it
/// from the scan leaves the synthesized variants unchanged.
pub proof fn lemma_shape_filtering(decls: Seq<Decl>, group: Seq<char>, i: int)
    requires
        0 <= i < decls.len(),
        !is_candidate_shape(decls[i].kind),
    ensures
        discovered_variants(decls, group) == discovered_variants(decls.remove(i), group),
    decreases decls.len(),
{
    if i == decls.len() - 1 {
        assert(decls.remove(i) =~= decls.drop_last());
    } else {
        lemma_shape_filtering(decls.drop_last(), group, i);
        assert(decls.remove(i).drop_last() =~= decls.drop_last().remove(i));
        assert(decls.remove(i).last() == decls.last());
    }
}

} // verus!
