//! The resolution laws the dispatcher's contracts rest on, stated once in
//! quantified form.
//!
//! Each delegation-bearing operation's `ensures` maps `spec_resolve` to
//! its delegate call or fallback outcome; these lemmas pin down how
//! `spec_resolve` itself behaves over the namespace scan.

use crate::name::{
    first_qualifying_index, lemma_first_qualifying_index_props, ns_qualifies, spec_resolve,
    Multiname, QName,
};
use vstd::prelude::*;

verus! {

/// First-qualifying-namespace law: for every multiname with a local name
/// and at least one qualifying namespace, resolution succeeds and picks
/// the first qualifying namespace in declared order — never a later one.
/// Combined with each operation's `ensures`, GET, SET, CALL and DELETE
/// therefore emit exactly one delegate call, qualified by that namespace.
pub proof fn lemma_first_qualifying_namespace_wins(mn: Multiname)
    requires
        mn.local_name is Some,
        exists|i: int| 0 <= i < mn.namespaces@.len() && ns_qualifies(#[trigger] mn.namespaces@[i]),
    ensures
        ({
            let nss = mn.namespaces@;
            let fi = first_qualifying_index(nss);
            &&& fi is Some
            &&& 0 <= fi->0 < nss.len()
            &&& ns_qualifies(nss[fi->0])
            &&& forall|j: int| 0 <= j < fi->0 ==> !ns_qualifies(#[trigger] nss[j])
            &&& spec_resolve(mn) == Option::Some(
                QName { ns: nss[fi->0], local_name: mn.local_name->0 },
            )
        }),
{
    let nss = mn.namespaces@;
    lemma_first_qualifying_index_props(nss);
    let w = choose|i: int| 0 <= i < nss.len() && ns_qualifies(#[trigger] nss[i]);
    if first_qualifying_index(nss) is None {
        assert(!ns_qualifies(nss[w]));
    }
}

/// Fallback law: when no namespace of the multiname qualifies, resolution
/// yields nothing, and each operation's `ensures` takes its fallback
/// branch — GET yields undefined on a dynamic class and fails with
/// `UndefinedProperty` on a sealed one; SET succeeds without effect on a
/// dynamic class with a local name, fails with `InvalidSetTarget` without
/// one, and fails with `UndefinedProperty` on a sealed class; CALL always
/// fails; DELETE returns `true` on a dynamic class and `false` on a
/// sealed one, and never fails.
pub proof fn lemma_no_qualifying_namespace_resolves_none(mn: Multiname)
    requires
        forall|j: int| 0 <= j < mn.namespaces@.len() ==> !ns_qualifies(#[trigger] mn.namespaces@[j]),
    ensures
        spec_resolve(mn) is None,
{
    let nss = mn.namespaces@;
    lemma_first_qualifying_index_props(nss);
    if let Option::Some(i) = first_qualifying_index(nss) {
        assert(!ns_qualifies(nss[i]));
    }
}

/// Under the current qualification policy every namespace kind qualifies,
/// so resolution succeeds exactly when the multiname has both a local
/// name and at least one namespace, and then pairs the local name with
/// the very first namespace.
pub proof fn lemma_resolution_characterization(mn: Multiname)
    ensures
        spec_resolve(mn) is Some <==> (mn.local_name is Some && mn.namespaces@.len() > 0),
        (mn.local_name is Some && mn.namespaces@.len() > 0) ==> spec_resolve(mn)
            == Option::Some(QName { ns: mn.namespaces@[0], local_name: mn.local_name->0 }),
{
    let nss = mn.namespaces@;
    lemma_first_qualifying_index_props(nss);
    if nss.len() > 0 {
        assert(ns_qualifies(nss[0]));
        assert(first_qualifying_index(nss) == Option::Some(0int));
    }
}

} // verus!
