//! Lookups over the registered integrations.
use vstd::prelude::*;
use crate::manager::Integration;

verus! {

/// The last integration among the first `n` with this id.
pub open spec fn by_id_upto(s: Seq<Integration>, id: Seq<char>, n: nat) -> Option<Integration>
    decreases n,
{
    if n == 0 {
        None
    } else if s[n - 1].id@ == id {
        Some(s[n - 1])
    } else {
        by_id_upto(s, id, (n - 1) as nat)
    }
}

/// The integration with this id.
pub open spec fn by_id(s: Seq<Integration>, id: Seq<char>) -> Option<Integration> {
    by_id_upto(s, id, s.len())
}

/// The last integration among the first `n` with this API key.
pub open spec fn by_key_upto(s: Seq<Integration>, key: Seq<char>, n: nat) -> Option<Integration>
    decreases n,
{
    if n == 0 {
        None
    } else if s[n - 1].api_key@ == key {
        Some(s[n - 1])
    } else {
        by_key_upto(s, key, (n - 1) as nat)
    }
}

/// The integration with this API key.
pub open spec fn by_key(s: Seq<Integration>, key: Seq<char>) -> Option<Integration> {
    by_key_upto(s, key, s.len())
}

/// The integrations among the first `n` that belong to `owner`, in order.
pub open spec fn owned_upto(s: Seq<Integration>, owner: Seq<char>, n: nat) -> Seq<Integration>
    decreases n,
{
    if n == 0 {
        Seq::empty()
    } else if s[n - 1].owner_id matches Some(o) && o@ == owner {
        owned_upto(s, owner, (n - 1) as nat).push(s[n - 1])
    } else {
        owned_upto(s, owner, (n - 1) as nat)
    }
}

/// Some integration has this id.
pub open spec fn registered(s: Seq<Integration>, iid: Seq<char>) -> bool {
    exists|j: int| 0 <= j < s.len() && #[trigger] s[j].id@ == iid
}

pub(crate) proof fn lemma_registered_push(s: Seq<Integration>, x: Integration, iid: Seq<char>)
    requires
        registered(s, iid),
    ensures
        registered(s.push(x), iid),
{
    let j = choose|j: int| 0 <= j < s.len() && #[trigger] s[j].id@ == iid;
    assert(s.push(x)[j].id@ == iid);
}

pub(crate) proof fn lemma_registered_update(s: Seq<Integration>, k: int, y: Integration, iid: Seq<char>)
    requires
        0 <= k < s.len(),
        y.id == s[k].id,
        registered(s, iid),
    ensures
        registered(s.update(k, y), iid),
{
    let j = choose|j: int| 0 <= j < s.len() && #[trigger] s[j].id@ == iid;
    assert(s.update(k, y)[j].id@ == iid);
}

/// No two integrations share an id, and no two share an API key.
pub open spec fn integrations_unique(s: Seq<Integration>) -> bool {
    forall|i: int, j: int|
        #![trigger s[i], s[j]]
        0 <= i < j < s.len() ==> s[i].id@ != s[j].id@ && s[i].api_key@ != s[j].api_key@
}

pub(crate) proof fn lemma_by_id_upto(s: Seq<Integration>, id: Seq<char>, n: nat)
    requires
        n <= s.len(),
    ensures
        match by_id_upto(s, id, n) {
            Some(x) => exists|i: int| 0 <= i < n && s[i] == x && x.id@ == id,
            None => forall|i: int| 0 <= i < n ==> s[i].id@ != id,
        },
    decreases n,
{
    if n > 0 {
        lemma_by_id_upto(s, id, (n - 1) as nat);
    }
}

pub(crate) proof fn lemma_by_key_upto(s: Seq<Integration>, key: Seq<char>, n: nat)
    requires
        n <= s.len(),
    ensures
        match by_key_upto(s, key, n) {
            Some(x) => exists|i: int| 0 <= i < n && s[i] == x && x.api_key@ == key,
            None => forall|i: int| 0 <= i < n ==> s[i].api_key@ != key,
        },
    decreases n,
{
    if n > 0 {
        lemma_by_key_upto(s, key, (n - 1) as nat);
    }
}

/// The integration with an id is the one element that has it; without one,
/// no element has it.
pub proof fn lemma_by_id(s: Seq<Integration>, id: Seq<char>)
    ensures
        match by_id(s, id) {
            Some(x) => exists|i: int| 0 <= i < s.len() && s[i] == x && x.id@ == id,
            None => forall|i: int| 0 <= i < s.len() ==> s[i].id@ != id,
        },
{
    lemma_by_id_upto(s, id, s.len());
}

/// Lookup by key: the integration found has that key and is one of the
/// store's; where none is found, no integration has that key; and since keys
/// are unique, at most one integration has it.
pub proof fn lemma_lookup_by_key(s: Seq<Integration>, key: Seq<char>)
    requires
        integrations_unique(s),
    ensures
        by_key(s, key) matches Some(x) ==> x.api_key@ == key && s.contains(x),
        by_key(s, key) is None ==> forall|i: int| 0 <= i < s.len() ==> s[i].api_key@ != key,
        forall|i: int, j: int|
            0 <= i < s.len() && 0 <= j < s.len() && s[i].api_key@ == key && s[j].api_key@ == key
                ==> i == j,
{
    lemma_by_key_upto(s, key, s.len());
    assert forall|i: int, j: int|
        0 <= i < s.len() && 0 <= j < s.len() && s[i].api_key@ == key && s[j].api_key@ == key implies i
        == j by {
        if i < j {
            assert(s[i].api_key@ != s[j].api_key@);
        } else if j < i {
            assert(s[j].api_key@ != s[i].api_key@);
        }
    }
}

} // verus!
