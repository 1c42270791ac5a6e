//! The registries of sellers and buyers: validity, distinct ids, and looking
//! a caller up by wallet.
use vstd::prelude::*;
use crate::types::{
    event_views, party_is_valid, same_account, AccountId, AuthorizationAttempt, EventView, Party,
    SaleEvent,
};

verus! {

/// A party with the id `id` is registered in `ps`.
pub open spec fn has_party_id(ps: Seq<Party>, id: Seq<char>) -> bool {
    exists|k: int| 0 <= k < ps.len() && #[trigger] ps[k].party_id@ == id
}

/// No two parties of `ps` share an id.
pub open spec fn unique_ids(ps: Seq<Party>) -> bool {
    forall|i: int, j: int|
        0 <= i < ps.len() && 0 <= j < ps.len() && i != j ==> #[trigger] ps[i].party_id@
            != #[trigger] ps[j].party_id@
}

/// Every party of `ps` is valid and their ids are distinct.
pub open spec fn registry_ok(ps: Seq<Party>) -> bool {
    unique_ids(ps) && forall|k: int| 0 <= k < ps.len() ==> party_is_valid(#[trigger] ps[k])
}

/// The valid parties of `ps` in order, each id kept at its first occurrence.
pub open spec fn sanitized(ps: Seq<Party>) -> Seq<Party>
    decreases ps.len(),
{
    if ps.len() == 0 {
        Seq::empty()
    } else {
        let r = sanitized(ps.drop_last());
        if party_is_valid(ps.last()) && !has_party_id(r, ps.last().party_id@) {
            r.push(ps.last())
        } else {
            r
        }
    }
}

/// The position of the party of `ps` whose id is `id`.
pub open spec fn index_of_id(ps: Seq<Party>, id: Seq<char>) -> int {
    choose|k: int| 0 <= k < ps.len() && #[trigger] ps[k].party_id@ == id
}

/// Removing a party keeps a registry sound.
pub proof fn lemma_remove_keeps_registry(ps: Seq<Party>, k: int)
    requires
        registry_ok(ps),
        0 <= k < ps.len(),
    ensures
        registry_ok(ps.remove(k)),
{
    let r = ps.remove(k);
    assert forall|i: int, j: int|
        0 <= i < r.len() && 0 <= j < r.len() && i != j implies #[trigger] r[i].party_id@
            != #[trigger] r[j].party_id@ by {
        let a = if i < k { i } else { i + 1 };
        let b = if j < k { j } else { j + 1 };
        assert(r[i] == ps[a] && r[j] == ps[b]);
    }
    assert forall|m: int| 0 <= m < r.len() implies party_is_valid(#[trigger] r[m]) by {
        let a = if m < k { m } else { m + 1 };
        assert(r[m] == ps[a]);
    }
}

/// In a registry with distinct ids, the party found under an id is the one
/// `index_of_id` names.
pub proof fn lemma_index_of_id(ps: Seq<Party>, k: int, id: Seq<char>)
    requires
        unique_ids(ps),
        0 <= k < ps.len(),
        ps[k].party_id@ == id,
    ensures
        index_of_id(ps, id) == k,
{
    let c = index_of_id(ps, id);
    assert(0 <= c < ps.len() && ps[c].party_id@ == id);
    if c != k {
        assert(ps[c].party_id@ != ps[k].party_id@);
    }
}

/// A copy of every party of `ps`, in order.
pub(crate) fn copy_parties(ps: &Vec<Party>) -> (r: Vec<Party>)
    ensures
        r@ == ps@,
{
    let mut r: Vec<Party> = Vec::new();
    let mut i: usize = 0;
    while i < ps.len()
        invariant
            0 <= i <= ps@.len(),
            r@ == ps@.take(i as int),
        decreases ps@.len() - i,
    {
        r.push(ps[i].duplicate());
        assert(r@ =~= ps@.take(i as int + 1));
        i = i + 1;
    }
    assert(ps@.take(ps@.len() as int) =~= ps@);
    r
}

/// The caller's identity is the wallet of `p`.
pub open spec fn wallet_matches(caller: AccountId, p: Party) -> bool {
    same_account(caller, p.wallet_address)
}

/// The caller is the wallet of some party of `ps`.
pub open spec fn is_member(caller: AccountId, ps: Seq<Party>) -> bool {
    exists|k: int| 0 <= k < ps.len() && wallet_matches(caller, #[trigger] ps[k])
}

/// The first position from `j` on whose wallet is the caller's, or the length
/// of `ps` when there is none.
pub open spec fn first_match_from(caller: AccountId, ps: Seq<Party>, j: int) -> int
    decreases ps.len() - j,
{
    if j >= ps.len() {
        ps.len() as int
    } else if wallet_matches(caller, ps[j]) {
        j
    } else {
        first_match_from(caller, ps, j + 1)
    }
}

/// The notification of one comparison of the caller against a wallet.
pub open spec fn attempt_event(caller: AccountId, p: Party) -> EventView {
    EventView::Plain(
        SaleEvent::AuthorizationAttempt(
            AuthorizationAttempt {
                caller,
                stored_address: p.wallet_address,
                match_result: wallet_matches(caller, p),
            },
        ),
    )
}

/// The comparisons made while looking the caller up in `ps`: one per party,
/// up to and including the first match.
pub open spec fn auth_trail(caller: AccountId, ps: Seq<Party>) -> Seq<EventView> {
    let n = first_match_from(caller, ps, 0);
    Seq::new(
        if n < ps.len() {
            (n + 1) as nat
        } else {
            ps.len()
        },
        |j: int| attempt_event(caller, ps[j]),
    )
}

/// Looks the caller up among the wallets of `ps`, announcing each comparison.
pub(crate) fn find_wallet(
    events: &mut Vec<SaleEvent>,
    caller: AccountId,
    ps: &Vec<Party>,
) -> (r: Option<usize>)
    ensures
        event_views(final(events)@) == event_views(old(events)@) + auth_trail(caller, ps@),
        r is Some <==> is_member(caller, ps@),
        r matches Some(k) ==> k == first_match_from(caller, ps@, 0) && k < ps@.len(),
        r is None ==> first_match_from(caller, ps@, 0) == ps@.len(),
{
    let ghost ev0 = event_views(events@);
    let mut i: usize = 0;
    assert(event_views(events@) =~= ev0 + Seq::new(0, |j: int| attempt_event(caller, ps@[j])));
    while i < ps.len()
        invariant
            0 <= i <= ps@.len(),
            forall|j: int| 0 <= j < i ==> !wallet_matches(caller, #[trigger] ps@[j]),
            first_match_from(caller, ps@, 0) == first_match_from(caller, ps@, i as int),
            ev0 == event_views(old(events)@),
            event_views(events@) == ev0 + Seq::new(i as nat, |j: int| attempt_event(caller, ps@[j])),
        decreases ps@.len() - i,
    {
        let stored = ps[i].wallet_address;
        let m = caller == stored;
        let ghost before = events@;
        events.push(
            SaleEvent::AuthorizationAttempt(
                AuthorizationAttempt { caller, stored_address: stored, match_result: m },
            ),
        );
        assert(event_views(events@) =~= event_views(before).push(attempt_event(caller, ps@[i as int])));
        assert(event_views(events@) =~= ev0 + Seq::new(
            (i + 1) as nat,
            |j: int| attempt_event(caller, ps@[j]),
        ));
        if m {
            assert(auth_trail(caller, ps@) =~= Seq::new(
                (i + 1) as nat,
                |j: int| attempt_event(caller, ps@[j]),
            ));
            return Some(i);
        }
        i = i + 1;
    }
    assert(auth_trail(caller, ps@) =~= Seq::new(i as nat, |j: int| attempt_event(caller, ps@[j])));
    None
}

/// A party with its signature time set.
pub open spec fn signed_party(p: Party, at: u64) -> Party {
    Party { signed_at: Some(at), ..p }
}

/// Setting a signature keeps a registry sound.
pub proof fn lemma_sign_keeps_registry(ps: Seq<Party>, k: int, at: u64)
    requires
        registry_ok(ps),
        0 <= k < ps.len(),
    ensures
        registry_ok(ps.update(k, signed_party(ps[k], at))),
{
    let r = ps.update(k, signed_party(ps[k], at));
    assert forall|i: int, j: int|
        0 <= i < r.len() && 0 <= j < r.len() && i != j implies #[trigger] r[i].party_id@
            != #[trigger] r[j].party_id@ by {
        assert(r[i].party_id == ps[i].party_id && r[j].party_id == ps[j].party_id);
    }
    assert forall|m: int| 0 <= m < r.len() implies party_is_valid(#[trigger] r[m]) by {
        assert(r[m].party_id == ps[m].party_id && r[m].full_name == ps[m].full_name
            && r[m].email == ps[m].email);
    }
}

/// Whether no party of `ps` has signed.
pub(crate) fn none_signed_in(ps: &Vec<Party>) -> (r: bool)
    ensures
        r == forall|k: int| 0 <= k < ps@.len() ==> (#[trigger] ps@[k]).signed_at is None,
{
    let mut i: usize = 0;
    while i < ps.len()
        invariant
            0 <= i <= ps@.len(),
            forall|k: int| 0 <= k < i ==> (#[trigger] ps@[k]).signed_at is None,
        decreases ps@.len() - i,
    {
        if ps[i].signed_at.is_some() {
            return false;
        }
        i = i + 1;
    }
    true
}

/// Whether every party of `ps` has signed.
pub(crate) fn all_signed_in(ps: &Vec<Party>) -> (r: bool)
    ensures
        r == forall|k: int| 0 <= k < ps@.len() ==> (#[trigger] ps@[k]).signed_at is Some,
{
    let mut i: usize = 0;
    while i < ps.len()
        invariant
            0 <= i <= ps@.len(),
            forall|k: int| 0 <= k < i ==> (#[trigger] ps@[k]).signed_at is Some,
        decreases ps@.len() - i,
    {
        if ps[i].signed_at.is_none() {
            return false;
        }
        i = i + 1;
    }
    true
}

/// Adding a valid party under a new id keeps a registry sound.
pub proof fn lemma_push_keeps_registry(ps: Seq<Party>, p: Party)
    requires
        registry_ok(ps),
        party_is_valid(p),
        !has_party_id(ps, p.party_id@),
    ensures
        registry_ok(ps.push(p)),
{
    let r = ps.push(p);
    assert forall|i: int, j: int|
        0 <= i < r.len() && 0 <= j < r.len() && i != j implies #[trigger] r[i].party_id@
            != #[trigger] r[j].party_id@ by {
        if i == ps.len() {
            assert(ps[j].party_id@ != p.party_id@);
        } else if j == ps.len() {
            assert(ps[i].party_id@ != p.party_id@);
        } else {
            assert(r[i] == ps[i] && r[j] == ps[j]);
        }
    }
    assert forall|k: int| 0 <= k < r.len() implies party_is_valid(#[trigger] r[k]) by {
        if k < ps.len() {
            assert(r[k] == ps[k]);
        }
    }
}

/// The position of the first party of `ps` whose id is `id`.
pub(crate) fn position_of_id(ps: &Vec<Party>, id: &String) -> (r: Option<usize>)
    ensures
        r is None <==> !has_party_id(ps@, id@),
        r matches Some(k) ==> k < ps@.len() && ps@[k as int].party_id@ == id@,
{
    let mut i: usize = 0;
    while i < ps.len()
        invariant
            0 <= i <= ps@.len(),
            forall|j: int| 0 <= j < i ==> ps@[j].party_id@ != id@,
        decreases ps@.len() - i,
    {
        if ps[i].party_id == *id {
            return Some(i);
        }
        i = i + 1;
    }
    None
}

/// The valid parties of `ps`, each id kept at its first occurrence.
pub(crate) fn sanitize(ps: &Vec<Party>) -> (r: Vec<Party>)
    ensures
        r@ == sanitized(ps@),
        registry_ok(r@),
{
    let mut r: Vec<Party> = Vec::new();
    let mut i: usize = 0;
    assert(ps@.take(0) =~= Seq::<Party>::empty());
    while i < ps.len()
        invariant
            0 <= i <= ps@.len(),
            r@ == sanitized(ps@.take(i as int)),
            registry_ok(r@),
        decreases ps@.len() - i,
    {
        let p = &ps[i];
        proof {
            let t = ps@.take(i as int + 1);
            assert(t.drop_last() =~= ps@.take(i as int));
            assert(t.last() == *p);
        }
        if p.is_valid() {
            if position_of_id(&r, &p.party_id).is_none() {
                let ghost before = r@;
                r.push(p.duplicate());
                proof {
                    lemma_push_keeps_registry(before, *p);
                }
            }
        }
        i = i + 1;
    }
    assert(ps@.take(ps@.len() as int) =~= ps@);
    r
}

} // verus!
