//! Laws that relate the operations of the agreement and its audit log.
use vstd::prelude::*;
use crate::audit::{
    appended, call_entry, change_filter, field_filter, lemma_select_members, lemma_select_push,
    log_range, select, touches, ChangeView, EntryView,
};
use crate::registry::{first_match_from, is_member, signed_party, wallet_matches};
use crate::sale::{
    admin_refusal, after_manage_offer, after_sign_contract, all_signed, none_signed,
    offer_change, offer_refusal, offer_with_status, sale_ok, sign_refusal, sign_trail,
    signed_view, signer_of, signing_blocker, status_change, with_direct, with_status, SaleView,
};
use crate::text::parties_text;
use crate::types::{
    is_terminal, AccountId, CallContext, ContractError, ContractStatus, EventView,
    ManageOfferRequest, Money, Offer, OfferAction, OfferStatus, Party, SaleEvent,
    SignContractRequestSubmitted,
};

verus! {

/// Appending a record adds exactly one index, leaves every earlier record as
/// it was, and reading the new index gives back the record written.
pub proof fn lemma_log_round_trip(es: Seq<EntryView>, e: EntryView)
    requires
        es.len() < u64::MAX,
    ensures
        appended(es, e).len() == es.len() + 1,
        forall|i: int| 0 <= i < es.len() ==> appended(es, e)[i] == es[i],
        log_range(appended(es, e), es.len() as int, 1) == seq![e],
{
    assert(log_range(appended(es, e), es.len() as int, 1) =~= seq![e]);
}

/// A range read returns at most `limit` records, each the record at an index
/// below the count, in index order from `start`.
pub proof fn lemma_range_bounded(es: Seq<EntryView>, start: u64, limit: u64)
    ensures
        log_range(es, start as int, limit as int).len() <= limit,
        forall|k: int|
            0 <= k < log_range(es, start as int, limit as int).len() ==> start + k < es.len()
                && #[trigger] log_range(es, start as int, limit as int)[k] == es[start + k],
{
}

/// The field query returns exactly the records that changed the field,
/// directly or among a call's changes.
pub proof fn lemma_by_field_exact(es: Seq<EntryView>, name: Seq<char>)
    ensures
        forall|e: EntryView|
            #[trigger] select(es, field_filter(name)).contains(e) <==> (es.contains(e) && touches(
                e,
                name,
            )),
{
    lemma_select_members(es, field_filter(name));
}

/// A buyer's submitted offer becomes the pending offer, the status becomes
/// `UnderOffer`, and one call record carries both changes.
pub proof fn lemma_submit_offer(v: SaleView, ctx: CallContext, m: Money)
    requires
        sale_ok(v),
        is_member(ctx.caller, v.buyers),
        !is_terminal(v.status),
    ensures
        ({
            let req = ManageOfferRequest { action: OfferAction::Submit, offer: Some(m) };
            let o = Offer { offer: m, offer_status: OfferStatus::Pending, offer_date: ctx.timestamp };
            let w = after_manage_offer(v, ctx, req);
            &&& offer_refusal(v, ctx.caller, req) is None
            &&& w.offer == Some(o)
            &&& w.status == ContractStatus::UnderOffer
            &&& w.entries == appended(
                v.entries,
                call_entry(
                    ctx,
                    "manage_offer"@,
                    ctx.block_number,
                    seq![
                        offer_change(v.offer, Some(o)),
                        status_change(v.status, ContractStatus::UnderOffer),
                    ],
                ),
            )
        }),
{
    let o = Offer { offer: m, offer_status: OfferStatus::Pending, offer_date: ctx.timestamp };
    assert(v.pending.push(offer_change(v.offer, Some(o))).push(
        status_change(v.status, ContractStatus::UnderOffer),
    ) =~= seq![offer_change(v.offer, Some(o)), status_change(v.status, ContractStatus::UnderOffer)]);
}

/// A seller's acceptance marks the offer accepted and leaves the status as
/// it was.
pub proof fn lemma_accept_keeps_status(v: SaleView, ctx: CallContext)
    requires
        sale_ok(v),
        is_member(ctx.caller, v.sellers),
        !is_terminal(v.status),
        v.offer is Some,
    ensures
        ({
            let req = ManageOfferRequest { action: OfferAction::Accept, offer: None };
            let w = after_manage_offer(v, ctx, req);
            &&& offer_refusal(v, ctx.caller, req) is None
            &&& w.offer == Some(offer_with_status(v.offer->0, OfferStatus::Accepted))
            &&& w.status == v.status
        }),
{
}

/// A signature that the agreement is not ready for is refused with the
/// reason, and adds no record that carries a field change.
pub proof fn lemma_blocked_signature(v: SaleView, ctx: CallContext)
    requires
        sale_ok(v),
        signing_blocker(v) is Some,
    ensures
        sign_refusal(v, ctx.caller) == signing_blocker(v),
        after_sign_contract(v, ctx).entries == appended(
            v.entries,
            call_entry(ctx, "sign_contract"@, ctx.block_number, Seq::<ChangeView>::empty()),
        ),
        select(after_sign_contract(v, ctx).entries, change_filter()) == select(
            v.entries,
            change_filter(),
        ),
        after_sign_contract(v, ctx).sellers == v.sellers,
        after_sign_contract(v, ctx).buyers == v.buyers,
        after_sign_contract(v, ctx).status == v.status,
{
    let e = call_entry(ctx, "sign_contract"@, ctx.block_number, Seq::<ChangeView>::empty());
    assert(v.pending =~= Seq::<ChangeView>::empty());
    assert(!change_filter()(e));
    if v.entries.len() < u64::MAX {
        lemma_select_push(v.entries, e, change_filter());
    }
}

/// Replacing a party by one with the same wallet does not move the first
/// match of a caller.
proof fn lemma_first_match_update(caller: AccountId, ps: Seq<Party>, k: int, p: Party, j: int)
    requires
        0 <= k < ps.len(),
        0 <= j,
        p.wallet_address == ps[k].wallet_address,
    ensures
        first_match_from(caller, ps.update(k, p), j) == first_match_from(caller, ps, j),
    decreases ps.len() - j,
{
    if j < ps.len() {
        assert(wallet_matches(caller, ps.update(k, p)[j]) == wallet_matches(caller, ps[j]));
        lemma_first_match_update(caller, ps, k, p, j + 1);
    }
}

/// A first match found from `j` on lies at `j` or after.
proof fn lemma_first_match_bounds(caller: AccountId, ps: Seq<Party>, j: int)
    requires
        0 <= j <= ps.len(),
    ensures
        j <= first_match_from(caller, ps, j) <= ps.len(),
    decreases ps.len() - j,
{
    if j < ps.len() {
        lemma_first_match_bounds(caller, ps, j + 1);
    }
}

/// The parties after a signature, and the signer's place in them.
proof fn lemma_signed_parties(v: SaleView, ctx: CallContext)
    requires
        sale_ok(v),
        signing_blocker(v) is None,
        signer_of(ctx.caller, v.sellers, v.buyers) is Ok,
    ensures
        ({
            let (seller, k) = signer_of(ctx.caller, v.sellers, v.buyers)->Ok_0;
            let w = after_sign_contract(v, ctx);
            &&& seller ==> 0 <= k < v.sellers.len() && w.sellers == v.sellers.update(
                k,
                signed_party(v.sellers[k], ctx.timestamp),
            ) && w.buyers == v.buyers
            &&& !seller ==> 0 <= k < v.buyers.len() && w.buyers == v.buyers.update(
                k,
                signed_party(v.buyers[k], ctx.timestamp),
            ) && w.sellers == v.sellers
            &&& v.sellers.len() > 0 && v.buyers.len() > 0
        }),
{
    lemma_first_match_bounds(ctx.caller, v.sellers, 0);
    lemma_first_match_bounds(ctx.caller, v.buyers, 0);
}

/// The first signature moves the agreement to `Signing`.
pub proof fn lemma_first_signature(v: SaleView, ctx: CallContext)
    requires
        sale_ok(v),
        signing_blocker(v) is None,
        signer_of(ctx.caller, v.sellers, v.buyers) is Ok,
        none_signed(v),
    ensures
        sign_refusal(v, ctx.caller) is None,
        after_sign_contract(v, ctx).status == ContractStatus::Signing,
{
    lemma_signed_parties(v, ctx);
    let (seller, k) = signer_of(ctx.caller, v.sellers, v.buyers)->Ok_0;
    let w = after_sign_contract(v, ctx);
    if seller {
        assert(w.buyers[0].signed_at is None);
    } else {
        assert(w.sellers[0].signed_at is None);
    }
}

/// A signature after which every party has signed moves the agreement to
/// `Signed`.
pub proof fn lemma_last_signature(v: SaleView, ctx: CallContext)
    requires
        sale_ok(v),
        signing_blocker(v) is None,
        signer_of(ctx.caller, v.sellers, v.buyers) is Ok,
        !none_signed(v),
        ({
            let (seller, k) = signer_of(ctx.caller, v.sellers, v.buyers)->Ok_0;
            &&& forall|i: int|
                0 <= i < v.sellers.len() && !(seller && i == k)
                    ==> (#[trigger] v.sellers[i]).signed_at is Some
            &&& forall|i: int|
                0 <= i < v.buyers.len() && !(!seller && i == k)
                    ==> (#[trigger] v.buyers[i]).signed_at is Some
        }),
    ensures
        sign_refusal(v, ctx.caller) is None,
        after_sign_contract(v, ctx).status == ContractStatus::Signed,
{
    lemma_signed_parties(v, ctx);
    let (seller, k) = signer_of(ctx.caller, v.sellers, v.buyers)->Ok_0;
    let w = after_sign_contract(v, ctx);
    assert(all_signed(w));
}

/// A party that has signed cannot sign again: looking the same caller up
/// afterwards finds a party that has signed.
pub proof fn lemma_no_second_signature(v: SaleView, ctx: CallContext)
    requires
        sale_ok(v),
        signing_blocker(v) is None,
        signer_of(ctx.caller, v.sellers, v.buyers) is Ok,
    ensures
        ({
            let w = after_sign_contract(v, ctx);
            signer_of(ctx.caller, w.sellers, w.buyers) == Err::<(bool, int), ContractError>(
                ContractError::InvalidInput,
            )
        }),
{
    lemma_signed_parties(v, ctx);
    let (seller, k) = signer_of(ctx.caller, v.sellers, v.buyers)->Ok_0;
    if seller {
        let p = signed_party(v.sellers[k], ctx.timestamp);
        lemma_first_match_update(ctx.caller, v.sellers, k, p, 0);
    } else {
        let p = signed_party(v.buyers[k], ctx.timestamp);
        lemma_first_match_update(ctx.caller, v.buyers, k, p, 0);
    }
}

/// While paused, every administrative operation is refused as paused before
/// any other check.
pub proof fn lemma_paused_refuses(v: SaleView, ctx: CallContext)
    requires
        v.paused,
    ensures
        admin_refusal(v, ctx) == Some(ContractError::ContractPaused),
{
}

/// `a` is a prefix of `b`: every record of `a` stands at the same index in `b`.
pub open spec fn keeps_history(a: Seq<EntryView>, b: Seq<EntryView>) -> bool {
    a.len() <= b.len() && b.take(a.len() as int) == a
}

proof fn lemma_appended_keeps(s: Seq<EntryView>)
    ensures
        forall|e: EntryView| #[trigger] keeps_history(s, appended(s, e)),
{
    assert forall|e: EntryView| #[trigger] keeps_history(s, appended(s, e)) by {
        assert(appended(s, e).take(s.len() as int) =~= s);
    }
}

proof fn lemma_keeps_trans(a: Seq<EntryView>, b: Seq<EntryView>, c: Seq<EntryView>)
    requires
        keeps_history(a, b),
        keeps_history(b, c),
    ensures
        keeps_history(a, c),
{
    assert(c.take(a.len() as int) =~= b.take(a.len() as int));
}

/// Offer requests only add records: every earlier record keeps its index and
/// its content.
pub proof fn lemma_manage_offer_keeps_history(
    v: SaleView,
    ctx: CallContext,
    req: ManageOfferRequest,
)
    ensures
        keeps_history(v.entries, after_manage_offer(v, ctx, req).entries),
{
    lemma_appended_keeps(v.entries);
}

/// A direct status move only adds a record.
proof fn lemma_status_keeps(v: SaleView, ctx: CallContext, to: ContractStatus)
    ensures
        keeps_history(v.entries, with_status(v, ctx, to).entries),
{
    lemma_appended_keeps(v.entries);
}

/// Signing requests only add records: every earlier record keeps its index
/// and its content.
pub proof fn lemma_sign_contract_keeps_history(v: SaleView, ctx: CallContext)
    ensures
        keeps_history(v.entries, after_sign_contract(v, ctx).entries),
{
    lemma_appended_keeps(v.entries);
    if signing_blocker(v) is None {
        if let Ok((seller, k)) = signer_of(ctx.caller, v.sellers, v.buyers) {
            let looked = SaleView {
                events: v.events.push(
                    EventView::Plain(
                        SaleEvent::SignContractRequestSubmitted(
                            SignContractRequestSubmitted {
                                submitter: ctx.caller,
                                request_id: ctx.block_number,
                            },
                        ),
                    ),
                ) + sign_trail(ctx.caller, v.sellers, v.buyers),
                ..v
            };
            let first = none_signed(looked);
            let v1 = if seller {
                let ps = looked.sellers.update(k, signed_party(looked.sellers[k], ctx.timestamp));
                with_direct(
                    SaleView { sellers: ps, ..looked },
                    ctx,
                    "sellers"@,
                    parties_text(looked.sellers),
                    parties_text(ps),
                )
            } else {
                let ps = looked.buyers.update(k, signed_party(looked.buyers[k], ctx.timestamp));
                with_direct(
                    SaleView { buyers: ps, ..looked },
                    ctx,
                    "buyers"@,
                    parties_text(looked.buyers),
                    parties_text(ps),
                )
            };
            let v2 = if first {
                with_status(v1, ctx, ContractStatus::Signing)
            } else {
                v1
            };
            let v3 = signed_view(looked, ctx, seller, k);
            assert(keeps_history(v.entries, v1.entries));
            lemma_status_keeps(v1, ctx, ContractStatus::Signing);
            if first {
                lemma_keeps_trans(v.entries, v1.entries, v2.entries);
            }
            lemma_status_keeps(v2, ctx, ContractStatus::Signed);
            if all_signed(v2) {
                lemma_keeps_trans(v.entries, v2.entries, v3.entries);
            }
            lemma_appended_keeps(v3.entries);
            lemma_keeps_trans(v.entries, v3.entries, after_sign_contract(v, ctx).entries);
        }
    }
}

} // verus!
