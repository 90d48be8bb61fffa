//! Namespaces, multinames, and qualified-name resolution.
//!
//! A lookup key ("multiname") carries an optional local name and an ordered
//! sequence of candidate namespaces.  Resolution scans the namespaces in
//! declared order and picks the first one that qualifies for delegation,
//! pairing it with the local name to form a single resolved `QName`.

use vstd::prelude::*;

verus! {

/// A qualifier distinguishing identically-named properties.
#[derive(Debug, PartialEq, Eq)]
pub enum Namespace {
    /// The wildcard namespace.
    Any,
    /// The default/public namespace.
    Public,
    /// An explicitly named namespace, identified by its URI.
    Named(String),
}

impl Clone for Namespace {
    fn clone(&self) -> (res: Self)
        ensures
            res == *self,
    {
        match self {
            Namespace::Any => Namespace::Any,
            Namespace::Public => Namespace::Public,
            Namespace::Named(uri) => Namespace::Named(uri.clone()),
        }
    }
}

/// Whether a namespace qualifies a lookup for delegation.
///
/// Under the current policy every namespace kind qualifies; the check is
/// kept in this three-way form because the dispatch algorithm is defined
/// over it, not over the constant it currently evaluates to.
pub open spec fn ns_qualifies(ns: Namespace) -> bool {
    ns is Any || ns is Public || ns is Named
}

/// Executable form of the qualification policy.
pub fn namespace_qualifies(ns: &Namespace) -> (r: bool)
    ensures
        r == ns_qualifies(*ns),
{
    match ns {
        Namespace::Any => true,
        Namespace::Public => true,
        Namespace::Named(_) => true,
    }
}

/// A single resolved (namespace, local name) pair.  Constructed freshly on
/// each delegation and passed as the first argument of the delegate call.
#[derive(Debug, PartialEq, Eq)]
pub struct QName {
    pub ns: Namespace,
    pub local_name: String,
}

impl Clone for QName {
    fn clone(&self) -> (res: Self)
        ensures
            res == *self,
    {
        QName { ns: self.ns.clone(), local_name: self.local_name.clone() }
    }
}

/// An unresolved property-lookup key: an optional local name plus an
/// ordered sequence of candidate namespaces.  Owned by the caller; the
/// dispatcher only reads it.
#[derive(Debug, PartialEq, Eq)]
pub struct Multiname {
    pub local_name: Option<String>,
    pub namespaces: Vec<Namespace>,
}

/// Index of the first namespace in `nss` that qualifies for delegation,
/// if any does.
pub open spec fn first_qualifying_index(nss: Seq<Namespace>) -> Option<int>
    decreases nss.len(),
{
    if nss.len() == 0 {
        Option::None
    } else if ns_qualifies(nss[0]) {
        Option::Some(0int)
    } else {
        match first_qualifying_index(nss.drop_first()) {
            Option::Some(i) => Option::Some(i + 1),
            Option::None => Option::None,
        }
    }
}

/// What a multiname resolves to: the first qualifying namespace paired
/// with the local name, or nothing when the multiname has no local name
/// or no namespace qualifies.
pub open spec fn spec_resolve(mn: Multiname) -> Option<QName> {
    match mn.local_name {
        Option::None => Option::None,
        Option::Some(local) => match first_qualifying_index(mn.namespaces@) {
            Option::None => Option::None,
            Option::Some(i) => Option::Some(QName { ns: mn.namespaces@[i], local_name: local }),
        },
    }
}

/// `first_qualifying_index` indeed returns the smallest qualifying index:
/// the index it returns qualifies, everything before it does not, and when
/// it returns nothing, no index qualifies at all.
pub proof fn lemma_first_qualifying_index_props(nss: Seq<Namespace>)
    ensures
        match first_qualifying_index(nss) {
            Option::Some(i) => 0 <= i < nss.len() && ns_qualifies(nss[i]) && (forall|j: int|
                0 <= j < i ==> !ns_qualifies(nss[j])),
            Option::None => forall|j: int| 0 <= j < nss.len() ==> !ns_qualifies(nss[j]),
        },
    decreases nss.len(),
{
    if nss.len() == 0 {
    } else if ns_qualifies(nss[0]) {
    } else {
        let rest = nss.drop_first();
        lemma_first_qualifying_index_props(rest);
        match first_qualifying_index(rest) {
            Option::Some(i) => {
                assert(ns_qualifies(nss[i + 1])) by {
                    assert(rest[i] == nss[i + 1]);
                }
                assert forall|j: int| 0 <= j < i + 1 implies !ns_qualifies(nss[j]) by {
                    if j > 0 {
                        assert(!ns_qualifies(rest[j - 1]));
                        assert(rest[j - 1] == nss[j]);
                    }
                }
            },
            Option::None => {
                assert forall|j: int| 0 <= j < nss.len() implies !ns_qualifies(nss[j]) by {
                    if j > 0 {
                        assert(!ns_qualifies(rest[j - 1]));
                        assert(rest[j - 1] == nss[j]);
                    }
                }
            },
        }
    }
}

/// The shared resolution scan used by every delegation-bearing operation:
/// iterate the declared namespaces in order and pair the first qualifying
/// one with the local name.
pub fn resolve_qname(multiname: &Multiname) -> (r: Option<QName>)
    ensures
        r == spec_resolve(*multiname),
{
    match &multiname.local_name {
        Option::None => Option::None,
        Option::Some(local) => {
            let n = multiname.namespaces.len();
            let mut i: usize = 0;
            while i < n
                invariant
                    multiname.local_name == Option::Some(*local),
                    n == multiname.namespaces@.len(),
                    i <= n,
                    forall|j: int| 0 <= j < i ==> !ns_qualifies(multiname.namespaces@[j]),
                decreases n - i,
            {
                let ns = &multiname.namespaces[i];
                if namespace_qualifies(ns) {
                    proof {
                        let s = multiname.namespaces@;
                        lemma_first_qualifying_index_props(s);
                        match first_qualifying_index(s) {
                            Option::Some(k) => {
                                if k < i {
                                    assert(!ns_qualifies(s[k]));
                                } else if k > i {
                                    assert(!ns_qualifies(s[i as int]));
                                }
                            },
                            Option::None => {
                                assert(!ns_qualifies(s[i as int]));
                            },
                        }
                        assert(first_qualifying_index(s) == Option::Some(i as int));
                    }
                    return Option::Some(QName { ns: ns.clone(), local_name: local.clone() });
                }
                i += 1;
            }
            proof {
                let s = multiname.namespaces@;
                lemma_first_qualifying_index_props(s);
                if let Option::Some(k) = first_qualifying_index(s) {
                    assert(!ns_qualifies(s[k]));
                }
            }
            Option::None
        },
    }
}

} // verus!
