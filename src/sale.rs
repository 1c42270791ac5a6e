//! The agreement: who may act, the parties, the offer, the signing workflow
//! and the lifecycle status, each mutation written to the audit log.
use vstd::prelude::*;
use vstd::string::*;
use crate::audit::{
    appended, at_most, call_entry, call_events, call_filter, change_filter, changed_event,
    direct_entry, entry_views, field_filter, log_range, select, tail_from, AuditLog,
    AuditLogEntry, ChangeView, EntryView, FieldChange,
};
use crate::registry::{
    all_signed_in, auth_trail, copy_parties, find_wallet, first_match_from, has_party_id,
    index_of_id, is_member, lemma_index_of_id, lemma_push_keeps_registry,
    lemma_remove_keeps_registry, lemma_sign_keeps_registry, none_signed_in, position_of_id,
    registry_ok, sanitize, sanitized, signed_party,
};
use crate::text::{
    address_string, address_text, currency_str, currency_text, money_string, money_text,
    offer_status_str, offer_status_text, opt_date_string, opt_date_text, opt_money_string,
    opt_money_text, opt_offer_string, opt_offer_text, parties_string, parties_text,
    status_string, status_text,
};
use crate::types::{
    address_is_valid, event_views, is_terminal, party_is_valid, same_account, AccountId,
    CallContext, ContractCreated, ContractError, ContractPaused,
    ContractStatus, ContractUnpaused, EventView, ManageOfferRequest, ManageOfferRequestSubmitted,
    ManageOfferResponse, ManageOfferResponseGenerated, Money, Offer, OfferAction, OfferStatus,
    Party, PropertyAddress, SaleEvent, SignContractRequest, SignContractRequestSubmitted,
    SignContractResponse, SignContractResponseGenerated,
};

verus! {

/// The agreement seen as mathematical values.
pub struct SaleView {
    pub owner: AccountId,
    pub paused: bool,
    pub entries: Seq<EntryView>,
    pub pending: Seq<ChangeView>,
    pub sellers: Seq<Party>,
    pub buyers: Seq<Party>,
    pub property_address: PropertyAddress,
    pub purchase_price: Option<Money>,
    pub deposit: Option<Money>,
    pub balance: Option<Money>,
    pub offer: Option<Offer>,
    pub agreement_date: Option<u64>,
    pub status: ContractStatus,
    pub events: Seq<EventView>,
}

/// What holds between operations: both registries are sound, the address is
/// well formed, and no change is left in the buffer.
pub open spec fn sale_ok(v: SaleView) -> bool {
    &&& registry_ok(v.sellers)
    &&& registry_ok(v.buyers)
    &&& address_is_valid(v.property_address)
    &&& v.pending.len() == 0
}

/// The refusal, if any, of an administrative operation: a paused agreement
/// refuses first, then a caller other than the owner.
pub open spec fn admin_refusal(v: SaleView, ctx: CallContext) -> Option<ContractError> {
    if v.paused {
        Some(ContractError::ContractPaused)
    } else if !same_account(ctx.caller, v.owner) {
        Some(ContractError::Unauthorized)
    } else {
        None
    }
}

/// `v` after a direct change of `field` has been logged and announced.
pub open spec fn with_direct(
    v: SaleView,
    ctx: CallContext,
    field: Seq<char>,
    old_value: Seq<char>,
    new_value: Seq<char>,
) -> SaleView {
    SaleView {
        entries: appended(v.entries, direct_entry(ctx, field, old_value, new_value)),
        events: v.events.push(changed_event(ctx, field, old_value, new_value)),
        ..v
    }
}

/// The change record of the offer.
pub open spec fn offer_change(from: Option<Offer>, to: Option<Offer>) -> ChangeView {
    ChangeView { field_name: "offer"@, old_value: opt_offer_text(from), new_value: opt_offer_text(to) }
}

/// The change record of the status.
pub open spec fn status_change(from: ContractStatus, to: ContractStatus) -> ChangeView {
    ChangeView {
        field_name: "status"@,
        old_value: status_text(from),
        new_value: status_text(to),
    }
}

/// The caller holds the role that `action` asks for: a buyer submits and
/// cancels, a seller accepts and rejects.
pub open spec fn offer_role_ok(v: SaleView, caller: AccountId, action: OfferAction) -> bool {
    match action {
        OfferAction::Submit | OfferAction::Cancel => is_member(caller, v.buyers),
        OfferAction::Accept | OfferAction::Reject => is_member(caller, v.sellers),
    }
}

/// The comparisons made while checking the caller's role for `action`.
pub open spec fn offer_trail(v: SaleView, caller: AccountId, action: OfferAction) -> Seq<
    EventView,
> {
    match action {
        OfferAction::Submit | OfferAction::Cancel => auth_trail(caller, v.buyers),
        OfferAction::Accept | OfferAction::Reject => auth_trail(caller, v.sellers),
    }
}

/// Why an offer request is rejected on business grounds, if it is; the first
/// failing reason wins.
pub open spec fn offer_refusal(v: SaleView, caller: AccountId, req: ManageOfferRequest) -> Option<
    Seq<char>,
> {
    if !offer_role_ok(v, caller, req.action) {
        match req.action {
            OfferAction::Submit | OfferAction::Cancel => Some(
                "Only buyers can submit or cancel offers"@,
            ),
            OfferAction::Accept | OfferAction::Reject => Some(
                "Only sellers can accept or reject offers"@,
            ),
        }
    } else if is_terminal(v.status) {
        Some("Contract status admits no further offers or signatures"@)
    } else {
        match req.action {
            OfferAction::Submit => if req.offer is None {
                Some("Offer amount is required for Submit action"@)
            } else {
                None
            },
            _ => if v.offer is None {
                Some("No existing offer to update"@)
            } else {
                None
            },
        }
    }
}

/// An offer with its status replaced.
pub open spec fn offer_with_status(o: Offer, st: OfferStatus) -> Offer {
    Offer { offer_status: st, ..o }
}

/// `v` after an accepted offer request: the new offer and status, with their
/// changes buffered for the call record.
pub open spec fn offer_applied(
    v: SaleView,
    ctx: CallContext,
    req: ManageOfferRequest,
) -> SaleView {
    match (req.action, req.offer, v.offer) {
        (OfferAction::Submit, Some(m), _) => {
            let o = Offer {
                offer: m,
                offer_status: OfferStatus::Pending,
                offer_date: ctx.timestamp,
            };
            SaleView {
                offer: Some(o),
                status: ContractStatus::UnderOffer,
                pending: v.pending.push(offer_change(v.offer, Some(o))).push(
                    status_change(v.status, ContractStatus::UnderOffer),
                ),
                ..v
            }
        },
        (OfferAction::Accept, _, Some(o)) => SaleView {
            offer: Some(offer_with_status(o, OfferStatus::Accepted)),
            pending: v.pending.push(
                offer_change(v.offer, Some(offer_with_status(o, OfferStatus::Accepted))),
            ),
            ..v
        },
        (OfferAction::Reject, _, Some(o)) => SaleView {
            offer: Some(offer_with_status(o, OfferStatus::Rejected)),
            pending: v.pending.push(
                offer_change(v.offer, Some(offer_with_status(o, OfferStatus::Rejected))),
            ),
            ..v
        },
        (OfferAction::Cancel, _, Some(o)) => SaleView {
            offer: Some(offer_with_status(o, OfferStatus::Cancelled)),
            status: ContractStatus::Draft,
            pending: v.pending.push(
                offer_change(v.offer, Some(offer_with_status(o, OfferStatus::Cancelled))),
            ).push(status_change(v.status, ContractStatus::Draft)),
            ..v
        },
        _ => v,
    }
}

/// `v` after a call record that takes over the pending changes, with the
/// call's notifications.
pub open spec fn with_call(v: SaleView, ctx: CallContext, name: Seq<char>) -> SaleView {
    SaleView {
        entries: appended(v.entries, call_entry(ctx, name, ctx.block_number, v.pending)),
        pending: Seq::empty(),
        events: v.events + call_events(ctx, name, ctx.block_number, v.pending),
        ..v
    }
}

/// The agreement after `manage_offer` on an unpaused agreement.
pub open spec fn after_manage_offer(
    v: SaleView,
    ctx: CallContext,
    req: ManageOfferRequest,
) -> SaleView {
    let refusal = offer_refusal(v, ctx.caller, req);
    let opened = SaleView {
        events: v.events.push(
            EventView::Plain(
                SaleEvent::ManageOfferRequestSubmitted(
                    ManageOfferRequestSubmitted {
                        submitter: ctx.caller,
                        request_id: ctx.block_number,
                    },
                ),
            ),
        ) + offer_trail(v, ctx.caller, req.action),
        ..v
    };
    let applied = if refusal is None {
        offer_applied(opened, ctx, req)
    } else {
        opened
    };
    let logged = with_call(applied, ctx, "manage_offer"@);
    SaleView {
        events: logged.events.push(
            EventView::Plain(
                SaleEvent::ManageOfferResponseGenerated(
                    ManageOfferResponseGenerated {
                        request_id: ctx.block_number,
                        success: refusal is None,
                    },
                ),
            ),
        ),
        ..logged
    }
}

/// The response reports success exactly when there is no refusal, and
/// otherwise carries the refusal's text.
pub open spec fn offer_response_is(r: ManageOfferResponse, refusal: Option<Seq<char>>) -> bool {
    &&& r.success == refusal is None
    &&& refusal is None ==> r.error_message is None
    &&& refusal matches Some(m) ==> (r.error_message matches Some(t) && t@ == m)
}

/// Why the agreement cannot be signed yet, if it cannot; the first failing
/// reason wins.
pub open spec fn signing_blocker(v: SaleView) -> Option<Seq<char>> {
    if is_terminal(v.status) {
        Some("Contract status admits no further offers or signatures"@)
    } else if v.sellers.len() == 0 {
        Some("Contract must have at least one seller before signing"@)
    } else if v.buyers.len() == 0 {
        Some("Contract must have at least one buyer before signing"@)
    } else {
        match v.offer {
            None => Some("No offer exists to sign - an accepted offer is required"@),
            Some(o) => if o.offer_status != OfferStatus::Accepted {
                Some(
                    "Offer must be accepted before signing. Current status: "@
                        + offer_status_text(o.offer_status),
                )
            } else {
                match v.purchase_price {
                    None => Some("Purchase price must be set before signing"@),
                    Some(pp) => if pp.amount != o.offer.amount {
                        Some(
                            "Purchase price ("@ + money_text(pp) + ") must equal offer amount ("@
                                + money_text(o.offer) + ")"@,
                        )
                    } else if pp.currency_code != o.offer.currency_code {
                        Some(
                            "Purchase price currency ("@ + currency_text(pp.currency_code)
                                + ") must match offer currency ("@ + currency_text(
                                o.offer.currency_code,
                            ) + ")"@,
                        )
                    } else {
                        None
                    },
                }
            },
        }
    }
}

/// Who signs for the caller: the first seller with the caller's wallet, else
/// the first such buyer (`true` for a seller, and the position). A party that
/// has signed already may not sign again; a caller who is neither may not
/// sign.
pub open spec fn signer_of(caller: AccountId, sellers: Seq<Party>, buyers: Seq<Party>) -> Result<
    (bool, int),
    ContractError,
> {
    let s = first_match_from(caller, sellers, 0);
    let b = first_match_from(caller, buyers, 0);
    if s < sellers.len() {
        if sellers[s].signed_at is Some {
            Err(ContractError::InvalidInput)
        } else {
            Ok((true, s))
        }
    } else if b < buyers.len() {
        if buyers[b].signed_at is Some {
            Err(ContractError::InvalidInput)
        } else {
            Ok((false, b))
        }
    } else {
        Err(ContractError::Unauthorized)
    }
}

/// The comparisons made while looking for the signer.
pub open spec fn sign_trail(caller: AccountId, sellers: Seq<Party>, buyers: Seq<Party>) -> Seq<
    EventView,
> {
    if is_member(caller, sellers) {
        auth_trail(caller, sellers)
    } else {
        auth_trail(caller, sellers) + auth_trail(caller, buyers)
    }
}

/// The text that reports a refused signer.
pub open spec fn signer_error_text(e: ContractError) -> Seq<char> {
    match e {
        ContractError::Unauthorized => "Only buyers and sellers can sign the contract"@,
        ContractError::InvalidInput => "Party has already signed or invalid signing attempt"@,
        _ => "Signing failed"@,
    }
}

/// Why a signature is refused on business grounds, if it is.
pub open spec fn sign_refusal(v: SaleView, caller: AccountId) -> Option<Seq<char>> {
    match signing_blocker(v) {
        Some(m) => Some(m),
        None => match signer_of(caller, v.sellers, v.buyers) {
            Ok(_) => None,
            Err(e) => Some(signer_error_text(e)),
        },
    }
}

/// No party has signed.
pub open spec fn none_signed(v: SaleView) -> bool {
    &&& forall|k: int| 0 <= k < v.sellers.len() ==> (#[trigger] v.sellers[k]).signed_at is None
    &&& forall|k: int| 0 <= k < v.buyers.len() ==> (#[trigger] v.buyers[k]).signed_at is None
}

/// Every party has signed.
pub open spec fn all_signed(v: SaleView) -> bool {
    &&& forall|k: int| 0 <= k < v.sellers.len() ==> (#[trigger] v.sellers[k]).signed_at is Some
    &&& forall|k: int| 0 <= k < v.buyers.len() ==> (#[trigger] v.buyers[k]).signed_at is Some
}

/// `v` with the status moved to `to` and the move logged directly.
pub open spec fn with_status(v: SaleView, ctx: CallContext, to: ContractStatus) -> SaleView {
    with_direct(
        SaleView { status: to, ..v },
        ctx,
        "status"@,
        status_text(v.status),
        status_text(to),
    )
}

/// `v` after the party at `k` (a seller when `seller`) signs: the signature is
/// logged; a first signature moves the status to `Signing`, and once every
/// party has signed it moves to `Signed`.
pub open spec fn signed_view(v: SaleView, ctx: CallContext, seller: bool, k: int) -> SaleView {
    let first = none_signed(v);
    let v1 = if seller {
        let ps = v.sellers.update(k, signed_party(v.sellers[k], ctx.timestamp));
        with_direct(
            SaleView { sellers: ps, ..v },
            ctx,
            "sellers"@,
            parties_text(v.sellers),
            parties_text(ps),
        )
    } else {
        let ps = v.buyers.update(k, signed_party(v.buyers[k], ctx.timestamp));
        with_direct(
            SaleView { buyers: ps, ..v },
            ctx,
            "buyers"@,
            parties_text(v.buyers),
            parties_text(ps),
        )
    };
    let v2 = if first {
        with_status(v1, ctx, ContractStatus::Signing)
    } else {
        v1
    };
    if all_signed(v2) {
        with_status(v2, ctx, ContractStatus::Signed)
    } else {
        v2
    }
}

/// The agreement after `sign_contract` on an unpaused agreement.
pub open spec fn after_sign_contract(v: SaleView, ctx: CallContext) -> SaleView {
    let opened = SaleView {
        events: v.events.push(
            EventView::Plain(
                SaleEvent::SignContractRequestSubmitted(
                    SignContractRequestSubmitted {
                        submitter: ctx.caller,
                        request_id: ctx.block_number,
                    },
                ),
            ),
        ),
        ..v
    };
    let mid = if signing_blocker(v) is Some {
        opened
    } else {
        let looked = SaleView {
            events: opened.events + sign_trail(ctx.caller, v.sellers, v.buyers),
            ..opened
        };
        match signer_of(ctx.caller, v.sellers, v.buyers) {
            Ok((seller, k)) => signed_view(looked, ctx, seller, k),
            Err(_) => looked,
        }
    };
    let logged = with_call(mid, ctx, "sign_contract"@);
    SaleView {
        events: logged.events.push(
            EventView::Plain(
                SaleEvent::SignContractResponseGenerated(
                    SignContractResponseGenerated {
                        request_id: ctx.block_number,
                        success: sign_refusal(v, ctx.caller) is None,
                    },
                ),
            ),
        ),
        ..logged
    }
}

/// The response reports success exactly when there is no refusal, and
/// otherwise carries the refusal's text.
pub open spec fn sign_response_is(r: SignContractResponse, refusal: Option<Seq<char>>) -> bool {
    &&& r.success == refusal is None
    &&& refusal is None ==> r.error_message is None
    &&& refusal matches Some(m) ==> (r.error_message matches Some(t) && t@ == m)
}

/// A character of the base-58 alphabet: digits but `0`, letters but `I`,
/// `O` and `l`.
pub open spec fn is_base58_char(c: char) -> bool {
    ('1' <= c && c <= '9') || ('A' <= c && c <= 'H') || ('J' <= c && c <= 'N') || ('P' <= c
        && c <= 'Z') || ('a' <= c && c <= 'k') || ('m' <= c && c <= 'z')
}

/// The shape of an SS58 address: 47 or 48 base-58 characters.
pub open spec fn ss58_shaped(s: Seq<char>) -> bool {
    47 <= s.len() <= 48 && forall|i: int| 0 <= i < s.len() ==> is_base58_char(#[trigger] s[i])
}

/// The agreement with its parties, offer, signing state, status and audit log.
pub struct PropertySale {
    owner: AccountId,
    paused: bool,
    log: AuditLog,
    sellers: Vec<Party>,
    buyers: Vec<Party>,
    property_address: PropertyAddress,
    purchase_price: Option<Money>,
    deposit: Option<Money>,
    balance: Option<Money>,
    offer: Option<Offer>,
    agreement_date: Option<u64>,
    status: ContractStatus,
    events: Vec<SaleEvent>,
}

impl View for PropertySale {
    type V = SaleView;

    closed spec fn view(&self) -> SaleView {
        SaleView {
            owner: self.owner,
            paused: self.paused,
            entries: self.log@.entries,
            pending: self.log@.pending,
            sellers: self.sellers@,
            buyers: self.buyers@,
            property_address: self.property_address,
            purchase_price: self.purchase_price,
            deposit: self.deposit,
            balance: self.balance,
            offer: self.offer,
            agreement_date: self.agreement_date,
            status: self.status,
            events: event_views(self.events@),
        }
    }
}

impl PropertySale {
    /// Creates the agreement, owned by the caller. Invalid parties, and any
    /// party whose id an earlier one already holds, are dropped; an invalid
    /// address is replaced by the placeholder.
    pub fn new(
        ctx: &CallContext,
        sellers: Vec<Party>,
        buyers: Vec<Party>,
        property_address: PropertyAddress,
        purchase_price: Option<Money>,
        deposit: Option<Money>,
        balance: Option<Money>,
        offer: Option<Offer>,
        agreement_date: Option<u64>,
        status: ContractStatus,
    ) -> (r: PropertySale)
        ensures
            sale_ok(r@),
            r@.owner == ctx.caller,
            !r@.paused,
            r@.entries.len() == 0,
            r@.sellers == sanitized(sellers@),
            r@.buyers == sanitized(buyers@),
            address_is_valid(property_address) ==> r@.property_address == property_address,
            !address_is_valid(property_address) ==> crate::types::is_placeholder_address(
                r@.property_address,
            ),
            r@.purchase_price == purchase_price,
            r@.deposit == deposit,
            r@.balance == balance,
            r@.offer == offer,
            r@.agreement_date == agreement_date,
            r@.status == status,
            r@.events == seq![
                EventView::Plain(SaleEvent::ContractCreated(ContractCreated { owner: ctx.caller })),
            ],
    {
        let valid_sellers = sanitize(&sellers);
        let valid_buyers = sanitize(&buyers);
        let address = if property_address.is_valid() {
            property_address
        } else {
            PropertyAddress::placeholder()
        };
        let mut events: Vec<SaleEvent> = Vec::new();
        events.push(SaleEvent::ContractCreated(ContractCreated { owner: ctx.caller }));
        let r = PropertySale {
            owner: ctx.caller,
            paused: false,
            log: AuditLog::new(),
            sellers: valid_sellers,
            buyers: valid_buyers,
            property_address: address,
            purchase_price,
            deposit,
            balance,
            offer,
            agreement_date,
            status,
            events,
        };
        assert(r@.events =~= seq![
            EventView::Plain(SaleEvent::ContractCreated(ContractCreated { owner: ctx.caller })),
        ]);
        r
    }

    /// An agreement with no parties, the placeholder address, nothing set and
    /// the status `Draft`.
    pub fn default(ctx: &CallContext) -> (r: PropertySale)
        ensures
            sale_ok(r@),
            r@.owner == ctx.caller,
            !r@.paused,
            r@.entries.len() == 0,
            r@.sellers.len() == 0,
            r@.buyers.len() == 0,
            crate::types::is_placeholder_address(r@.property_address),
            r@.purchase_price is None,
            r@.deposit is None,
            r@.balance is None,
            r@.offer is None,
            r@.agreement_date is None,
            r@.status == ContractStatus::Draft,
            r@.events == seq![
                EventView::Plain(SaleEvent::ContractCreated(ContractCreated { owner: ctx.caller })),
            ],
    {
        let r = PropertySale::new(
            ctx,
            Vec::new(),
            Vec::new(),
            PropertyAddress::placeholder(),
            None,
            None,
            None,
            None,
            None,
            ContractStatus::Draft,
        );
        assert(r@.sellers =~= Seq::<Party>::empty());
        r
    }
}

impl PropertySale {
    /// The refusal, if any, that an administrative operation meets.
    fn admin_check(&self, ctx: &CallContext) -> (r: Option<ContractError>)
        ensures
            r == admin_refusal(self@, *ctx),
    {
        if self.paused {
            Some(ContractError::ContractPaused)
        } else if ctx.caller != self.owner {
            Some(ContractError::Unauthorized)
        } else {
            None
        }
    }

    fn log_direct(&mut self, ctx: &CallContext, field: &str, old_value: String, new_value: String)
        ensures
            final(self)@ == with_direct(old(self)@, *ctx, field@, old_value@, new_value@),
    {
        self.log.record_direct(&mut self.events, ctx, field, old_value, new_value);
    }

    pub fn get_owner(&self) -> (r: AccountId)
        ensures
            r == self@.owner,
    {
        self.owner
    }

    pub fn is_paused(&self) -> (r: bool)
        ensures
            r == self@.paused,
    {
        self.paused
    }

    /// Blocks every mutating operation but `pause` and `unpause`; only the
    /// owner may pause.
    pub fn pause(&mut self, ctx: &CallContext) -> (r: Result<(), ContractError>)
        ensures
            !same_account(ctx.caller, old(self)@.owner) ==> r == Err::<(), ContractError>(
                ContractError::Unauthorized,
            ) && final(self)@ == old(self)@,
            same_account(ctx.caller, old(self)@.owner) ==> r == Ok::<(), ContractError>(())
                && final(self)@ == (SaleView {
                paused: true,
                events: old(self)@.events.push(
                    EventView::Plain(SaleEvent::ContractPaused(ContractPaused { by: ctx.caller })),
                ),
                ..old(self)@
            }),
    {
        if ctx.caller != self.owner {
            return Err(ContractError::Unauthorized);
        }
        self.paused = true;
        self.events.push(SaleEvent::ContractPaused(ContractPaused { by: ctx.caller }));
        assert(self@.events =~= old(self)@.events.push(
            EventView::Plain(SaleEvent::ContractPaused(ContractPaused { by: ctx.caller })),
        ));
        Ok(())
    }

    /// Lifts the pause; only the owner may unpause.
    pub fn unpause(&mut self, ctx: &CallContext) -> (r: Result<(), ContractError>)
        ensures
            !same_account(ctx.caller, old(self)@.owner) ==> r == Err::<(), ContractError>(
                ContractError::Unauthorized,
            ) && final(self)@ == old(self)@,
            same_account(ctx.caller, old(self)@.owner) ==> r == Ok::<(), ContractError>(())
                && final(self)@ == (SaleView {
                paused: false,
                events: old(self)@.events.push(
                    EventView::Plain(
                        SaleEvent::ContractUnpaused(ContractUnpaused { by: ctx.caller }),
                    ),
                ),
                ..old(self)@
            }),
    {
        if ctx.caller != self.owner {
            return Err(ContractError::Unauthorized);
        }
        self.paused = false;
        self.events.push(SaleEvent::ContractUnpaused(ContractUnpaused { by: ctx.caller }));
        assert(self@.events =~= old(self)@.events.push(
            EventView::Plain(SaleEvent::ContractUnpaused(ContractUnpaused { by: ctx.caller })),
        ));
        Ok(())
    }

    /// Hands over the notifications raised so far, oldest first, and forgets
    /// them.
    pub fn take_events(&mut self) -> (r: Vec<SaleEvent>)
        ensures
            event_views(r@) == old(self)@.events,
            final(self)@ == (SaleView { events: Seq::empty(), ..old(self)@ }),
    {
        let mut r: Vec<SaleEvent> = Vec::new();
        core::mem::swap(&mut r, &mut self.events);
        assert(self@.events =~= Seq::<EventView>::empty());
        r
    }

    pub fn get_sellers(&self) -> (r: Vec<Party>)
        ensures
            r@ == self@.sellers,
    {
        copy_parties(&self.sellers)
    }

    pub fn get_buyers(&self) -> (r: Vec<Party>)
        ensures
            r@ == self@.buyers,
    {
        copy_parties(&self.buyers)
    }

    pub fn get_property_address(&self) -> (r: PropertyAddress)
        ensures
            r == self@.property_address,
    {
        self.property_address.duplicate()
    }

    pub fn get_purchase_price(&self) -> (r: Option<Money>)
        ensures
            r == self@.purchase_price,
    {
        self.purchase_price
    }

    pub fn get_deposit(&self) -> (r: Option<Money>)
        ensures
            r == self@.deposit,
    {
        self.deposit
    }

    pub fn get_balance(&self) -> (r: Option<Money>)
        ensures
            r == self@.balance,
    {
        self.balance
    }

    pub fn get_offer(&self) -> (r: Option<Offer>)
        ensures
            r == self@.offer,
    {
        self.offer
    }

    pub fn get_agreement_date(&self) -> (r: Option<u64>)
        ensures
            r == self@.agreement_date,
    {
        self.agreement_date
    }

    pub fn get_status(&self) -> (r: ContractStatus)
        ensures
            r == self@.status,
    {
        self.status
    }

    /// The number of sellers, cut to 32 bits.
    pub fn get_sellers_count(&self) -> (r: u32)
        ensures
            r == self@.sellers.len() as u32,
    {
        #[verifier::truncate]
        (self.sellers.len() as u32)
    }

    /// The number of buyers, cut to 32 bits.
    pub fn get_buyers_count(&self) -> (r: u32)
        ensures
            r == self@.buyers.len() as u32,
    {
        #[verifier::truncate]
        (self.buyers.len() as u32)
    }

    /// One past the last valid index of the log.
    pub fn get_audit_log_count(&self) -> (r: u64)
        ensures
            r == self@.entries.len(),
    {
        self.log.count()
    }

    /// The records with indices in `[start, min(start + limit, count))`.
    pub fn get_audit_log(&self, start: u64, limit: u64) -> (r: Vec<AuditLogEntry>)
        ensures
            entry_views(r@) == log_range(self@.entries, start as int, limit as int),
    {
        self.log.entries_in_range(start, limit)
    }

    /// The call records from index `start` on, at most `limit` of them.
    pub fn get_audit_log_function_calls(&self, start: u64, limit: u64) -> (r: Vec<AuditLogEntry>)
        ensures
            entry_views(r@) == at_most(
                select(tail_from(self@.entries, start as int), call_filter()),
                limit as int,
            ),
    {
        self.log.function_calls(start, limit)
    }

    /// The records that carry field changes from index `start` on, at most
    /// `limit` of them.
    pub fn get_audit_log_field_changes(&self, start: u64, limit: u64) -> (r: Vec<AuditLogEntry>)
        ensures
            entry_views(r@) == at_most(
                select(tail_from(self@.entries, start as int), change_filter()),
                limit as int,
            ),
    {
        self.log.field_changes(start, limit)
    }

    /// Every record of the whole log that changed `field_name`.
    pub fn get_audit_log_field_changes_by_field(&self, field_name: String) -> (r: Vec<
        AuditLogEntry,
    >)
        ensures
            entry_views(r@) == select(self@.entries, field_filter(field_name@)),
    {
        self.log.field_changes_by_field(&field_name)
    }

    /// Sets the purchase price; owner only.
    pub fn set_purchase_price(
        &mut self,
        ctx: &CallContext,
        new_value: Option<Money>,
    ) -> (r: Result<(), ContractError>)
        requires
            sale_ok(old(self)@),
        ensures
            sale_ok(final(self)@),
            admin_refusal(old(self)@, *ctx) matches Some(e) ==> r == Err::<(), ContractError>(e)
                && final(self)@ == old(self)@,
            admin_refusal(old(self)@, *ctx) is None ==> r == Ok::<(), ContractError>(())
                && final(self)@ == with_direct(
                (SaleView { purchase_price: new_value, ..old(self)@ }),
                *ctx,
                "purchase_price"@,
                opt_money_text(old(self)@.purchase_price),
                opt_money_text(new_value),
            ),
    {
        if let Some(e) = self.admin_check(ctx) {
            return Err(e);
        }
        let old_text = opt_money_string(self.purchase_price);
        let new_text = opt_money_string(new_value);
        self.log_direct(ctx, "purchase_price", old_text, new_text);
        self.purchase_price = new_value;
        Ok(())
    }

    /// Sets the deposit; owner only.
    pub fn set_deposit(
        &mut self,
        ctx: &CallContext,
        new_value: Option<Money>,
    ) -> (r: Result<(), ContractError>)
        requires
            sale_ok(old(self)@),
        ensures
            sale_ok(final(self)@),
            admin_refusal(old(self)@, *ctx) matches Some(e) ==> r == Err::<(), ContractError>(e)
                && final(self)@ == old(self)@,
            admin_refusal(old(self)@, *ctx) is None ==> r == Ok::<(), ContractError>(())
                && final(self)@ == with_direct(
                (SaleView { deposit: new_value, ..old(self)@ }),
                *ctx,
                "deposit"@,
                opt_money_text(old(self)@.deposit),
                opt_money_text(new_value),
            ),
    {
        if let Some(e) = self.admin_check(ctx) {
            return Err(e);
        }
        let old_text = opt_money_string(self.deposit);
        let new_text = opt_money_string(new_value);
        self.log_direct(ctx, "deposit", old_text, new_text);
        self.deposit = new_value;
        Ok(())
    }

    /// Sets the balance; owner only.
    pub fn set_balance(
        &mut self,
        ctx: &CallContext,
        new_value: Option<Money>,
    ) -> (r: Result<(), ContractError>)
        requires
            sale_ok(old(self)@),
        ensures
            sale_ok(final(self)@),
            admin_refusal(old(self)@, *ctx) matches Some(e) ==> r == Err::<(), ContractError>(e)
                && final(self)@ == old(self)@,
            admin_refusal(old(self)@, *ctx) is None ==> r == Ok::<(), ContractError>(())
                && final(self)@ == with_direct(
                (SaleView { balance: new_value, ..old(self)@ }),
                *ctx,
                "balance"@,
                opt_money_text(old(self)@.balance),
                opt_money_text(new_value),
            ),
    {
        if let Some(e) = self.admin_check(ctx) {
            return Err(e);
        }
        let old_text = opt_money_string(self.balance);
        let new_text = opt_money_string(new_value);
        self.log_direct(ctx, "balance", old_text, new_text);
        self.balance = new_value;
        Ok(())
    }

    /// Replaces the offer as it stands; owner only.
    pub fn set_offer(
        &mut self,
        ctx: &CallContext,
        new_value: Option<Offer>,
    ) -> (r: Result<(), ContractError>)
        requires
            sale_ok(old(self)@),
        ensures
            sale_ok(final(self)@),
            admin_refusal(old(self)@, *ctx) matches Some(e) ==> r == Err::<(), ContractError>(e)
                && final(self)@ == old(self)@,
            admin_refusal(old(self)@, *ctx) is None ==> r == Ok::<(), ContractError>(())
                && final(self)@ == with_direct(
                (SaleView { offer: new_value, ..old(self)@ }),
                *ctx,
                "offer"@,
                opt_offer_text(old(self)@.offer),
                opt_offer_text(new_value),
            ),
    {
        if let Some(e) = self.admin_check(ctx) {
            return Err(e);
        }
        let old_text = opt_offer_string(self.offer);
        let new_text = opt_offer_string(new_value);
        self.log_direct(ctx, "offer", old_text, new_text);
        self.offer = new_value;
        Ok(())
    }

    /// Sets the agreement date; owner only.
    pub fn set_agreement_date(
        &mut self,
        ctx: &CallContext,
        new_value: Option<u64>,
    ) -> (r: Result<(), ContractError>)
        requires
            sale_ok(old(self)@),
        ensures
            sale_ok(final(self)@),
            admin_refusal(old(self)@, *ctx) matches Some(e) ==> r == Err::<(), ContractError>(e)
                && final(self)@ == old(self)@,
            admin_refusal(old(self)@, *ctx) is None ==> r == Ok::<(), ContractError>(())
                && final(self)@ == with_direct(
                (SaleView { agreement_date: new_value, ..old(self)@ }),
                *ctx,
                "agreement_date"@,
                opt_date_text(old(self)@.agreement_date),
                opt_date_text(new_value),
            ),
    {
        if let Some(e) = self.admin_check(ctx) {
            return Err(e);
        }
        let old_text = opt_date_string(self.agreement_date);
        let new_text = opt_date_string(new_value);
        self.log_direct(ctx, "agreement_date", old_text, new_text);
        self.agreement_date = new_value;
        Ok(())
    }

    /// Sets the status directly; owner only.
    pub fn set_status(
        &mut self,
        ctx: &CallContext,
        new_value: ContractStatus,
    ) -> (r: Result<(), ContractError>)
        requires
            sale_ok(old(self)@),
        ensures
            sale_ok(final(self)@),
            admin_refusal(old(self)@, *ctx) matches Some(e) ==> r == Err::<(), ContractError>(e)
                && final(self)@ == old(self)@,
            admin_refusal(old(self)@, *ctx) is None ==> r == Ok::<(), ContractError>(())
                && final(self)@ == with_direct(
                (SaleView { status: new_value, ..old(self)@ }),
                *ctx,
                "status"@,
                status_text(old(self)@.status),
                status_text(new_value),
            ),
    {
        if let Some(e) = self.admin_check(ctx) {
            return Err(e);
        }
        let old_text = status_string(self.status);
        let new_text = status_string(new_value);
        self.log_direct(ctx, "status", old_text, new_text);
        self.status = new_value;
        Ok(())
    }

    /// Replaces the property address; owner only, and the address must be
    /// valid.
    pub fn set_property_address(&mut self, ctx: &CallContext, new_value: PropertyAddress) -> (r:
        Result<(), ContractError>)
        requires
            sale_ok(old(self)@),
        ensures
            sale_ok(final(self)@),
            admin_refusal(old(self)@, *ctx) matches Some(e) ==> r == Err::<(), ContractError>(e)
                && final(self)@ == old(self)@,
            admin_refusal(old(self)@, *ctx) is None && !address_is_valid(new_value) ==> r == Err::<
                (),
                ContractError,
            >(ContractError::InvalidInput) && final(self)@ == old(self)@,
            admin_refusal(old(self)@, *ctx) is None && address_is_valid(new_value) ==> r == Ok::<
                (),
                ContractError,
            >(()) && final(self)@ == with_direct(
                (SaleView { property_address: new_value, ..old(self)@ }),
                *ctx,
                "property_address"@,
                address_text(old(self)@.property_address),
                address_text(new_value),
            ),
    {
        if let Some(e) = self.admin_check(ctx) {
            return Err(e);
        }
        if !new_value.is_valid() {
            return Err(ContractError::InvalidInput);
        }
        let old_text = address_string(&self.property_address);
        let new_text = address_string(&new_value);
        self.log_direct(ctx, "property_address", old_text, new_text);
        self.property_address = new_value;
        Ok(())
    }


    /// Registers a seller; owner only, the party must be valid and its id new among the sellers.
    pub fn add_seller(&mut self, ctx: &CallContext, party: Party) -> (r: Result<(), ContractError>)
        requires
            sale_ok(old(self)@),
        ensures
            sale_ok(final(self)@),
            admin_refusal(old(self)@, *ctx) matches Some(e) ==> r == Err::<(), ContractError>(e)
                && final(self)@ == old(self)@,
            admin_refusal(old(self)@, *ctx) is None && (!party_is_valid(party) || has_party_id(
                old(self)@.sellers,
                party.party_id@,
            )) ==> r == Err::<(), ContractError>(ContractError::InvalidInput) && final(self)@ == old(
                self,
            )@,
            admin_refusal(old(self)@, *ctx) is None && party_is_valid(party) && !has_party_id(
                old(self)@.sellers,
                party.party_id@,
            ) ==> r == Ok::<(), ContractError>(()) && final(self)@ == with_direct(
                (SaleView { sellers: old(self)@.sellers.push(party), ..old(self)@ }),
                *ctx,
                "sellers"@,
                parties_text(old(self)@.sellers),
                parties_text(old(self)@.sellers.push(party)),
            ),
    {
        if let Some(e) = self.admin_check(ctx) {
            return Err(e);
        }
        if !party.is_valid() {
            return Err(ContractError::InvalidInput);
        }
        if position_of_id(&self.sellers, &party.party_id).is_some() {
            return Err(ContractError::InvalidInput);
        }
        let ghost before = self@.sellers;
        let old_text = parties_string(&self.sellers);
        self.sellers.push(party);
        let new_text = parties_string(&self.sellers);
        proof {
            lemma_push_keeps_registry(before, party);
        }
        self.log_direct(ctx, "sellers", old_text, new_text);
        Ok(())
    }

    /// Removes the seller with the id `party_id`; owner only.
    pub fn remove_seller(
        &mut self,
        ctx: &CallContext,
        party_id: String,
    ) -> (r: Result<(), ContractError>)
        requires
            sale_ok(old(self)@),
        ensures
            sale_ok(final(self)@),
            admin_refusal(old(self)@, *ctx) matches Some(e) ==> r == Err::<(), ContractError>(e)
                && final(self)@ == old(self)@,
            admin_refusal(old(self)@, *ctx) is None && !has_party_id(old(self)@.sellers, party_id@)
                ==> r == Err::<(), ContractError>(ContractError::InvalidInput) && final(self)@
                == old(self)@,
            admin_refusal(old(self)@, *ctx) is None && has_party_id(old(self)@.sellers, party_id@)
                ==> r == Ok::<(), ContractError>(()) && final(self)@ == with_direct(
                (SaleView {
                    sellers: old(self)@.sellers.remove(index_of_id(old(self)@.sellers, party_id@)),
                    ..old(self)@
                }),
                *ctx,
                "sellers"@,
                parties_text(old(self)@.sellers),
                parties_text(
                    old(self)@.sellers.remove(index_of_id(old(self)@.sellers, party_id@)),
                ),
            ),
    {
        if let Some(e) = self.admin_check(ctx) {
            return Err(e);
        }
        match position_of_id(&self.sellers, &party_id) {
            None => Err(ContractError::InvalidInput),
            Some(k) => {
                let ghost before = self@.sellers;
                proof {
                    lemma_index_of_id(before, k as int, party_id@);
                    lemma_remove_keeps_registry(before, k as int);
                }
                let old_text = parties_string(&self.sellers);
                self.sellers.remove(k);
                let new_text = parties_string(&self.sellers);
                self.log_direct(ctx, "sellers", old_text, new_text);
                Ok(())
            },
        }
    }

    /// Registers a buyer; owner only, the party must be valid and its id new among the buyers.
    pub fn add_buyer(&mut self, ctx: &CallContext, party: Party) -> (r: Result<(), ContractError>)
        requires
            sale_ok(old(self)@),
        ensures
            sale_ok(final(self)@),
            admin_refusal(old(self)@, *ctx) matches Some(e) ==> r == Err::<(), ContractError>(e)
                && final(self)@ == old(self)@,
            admin_refusal(old(self)@, *ctx) is None && (!party_is_valid(party) || has_party_id(
                old(self)@.buyers,
                party.party_id@,
            )) ==> r == Err::<(), ContractError>(ContractError::InvalidInput) && final(self)@ == old(
                self,
            )@,
            admin_refusal(old(self)@, *ctx) is None && party_is_valid(party) && !has_party_id(
                old(self)@.buyers,
                party.party_id@,
            ) ==> r == Ok::<(), ContractError>(()) && final(self)@ == with_direct(
                (SaleView { buyers: old(self)@.buyers.push(party), ..old(self)@ }),
                *ctx,
                "buyers"@,
                parties_text(old(self)@.buyers),
                parties_text(old(self)@.buyers.push(party)),
            ),
    {
        if let Some(e) = self.admin_check(ctx) {
            return Err(e);
        }
        if !party.is_valid() {
            return Err(ContractError::InvalidInput);
        }
        if position_of_id(&self.buyers, &party.party_id).is_some() {
            return Err(ContractError::InvalidInput);
        }
        let ghost before = self@.buyers;
        let old_text = parties_string(&self.buyers);
        self.buyers.push(party);
        let new_text = parties_string(&self.buyers);
        proof {
            lemma_push_keeps_registry(before, party);
        }
        self.log_direct(ctx, "buyers", old_text, new_text);
        Ok(())
    }

    /// Removes the buyer with the id `party_id`; owner only.
    pub fn remove_buyer(
        &mut self,
        ctx: &CallContext,
        party_id: String,
    ) -> (r: Result<(), ContractError>)
        requires
            sale_ok(old(self)@),
        ensures
            sale_ok(final(self)@),
            admin_refusal(old(self)@, *ctx) matches Some(e) ==> r == Err::<(), ContractError>(e)
                && final(self)@ == old(self)@,
            admin_refusal(old(self)@, *ctx) is None && !has_party_id(old(self)@.buyers, party_id@)
                ==> r == Err::<(), ContractError>(ContractError::InvalidInput) && final(self)@
                == old(self)@,
            admin_refusal(old(self)@, *ctx) is None && has_party_id(old(self)@.buyers, party_id@)
                ==> r == Ok::<(), ContractError>(()) && final(self)@ == with_direct(
                (SaleView {
                    buyers: old(self)@.buyers.remove(index_of_id(old(self)@.buyers, party_id@)),
                    ..old(self)@
                }),
                *ctx,
                "buyers"@,
                parties_text(old(self)@.buyers),
                parties_text(
                    old(self)@.buyers.remove(index_of_id(old(self)@.buyers, party_id@)),
                ),
            ),
    {
        if let Some(e) = self.admin_check(ctx) {
            return Err(e);
        }
        match position_of_id(&self.buyers, &party_id) {
            None => Err(ContractError::InvalidInput),
            Some(k) => {
                let ghost before = self@.buyers;
                proof {
                    lemma_index_of_id(before, k as int, party_id@);
                    lemma_remove_keeps_registry(before, k as int);
                }
                let old_text = parties_string(&self.buyers);
                self.buyers.remove(k);
                let new_text = parties_string(&self.buyers);
                self.log_direct(ctx, "buyers", old_text, new_text);
                Ok(())
            },
        }
    }


    fn buffer(&mut self, field: &str, old_value: String, new_value: String)
        ensures
            final(self)@ == (SaleView {
                pending: old(self)@.pending.push(
                    ChangeView { field_name: field@, old_value: old_value@, new_value: new_value@ },
                ),
                ..old(self)@
            }),
    {
        self.log.buffer_change(
            FieldChange { field_name: String::from_str(field), old_value, new_value },
        );
    }

    fn record_call(&mut self, ctx: &CallContext, name: &str)
        ensures
            final(self)@ == with_call(old(self)@, *ctx, name@),
    {
        self.log.record_call(&mut self.events, ctx, name, ctx.block_number);
        assert(self@.events =~= old(self)@.events + call_events(
            *ctx,
            name@,
            ctx.block_number,
            old(self)@.pending,
        ));
    }

    fn push_event(&mut self, e: SaleEvent)
        requires
            e@ is Plain,
        ensures
            final(self)@ == (SaleView { events: old(self)@.events.push(e@), ..old(self)@ }),
    {
        self.events.push(e);
        assert(self@.events =~= old(self)@.events.push(e@));
    }

    fn apply_offer_action(&mut self, ctx: &CallContext, request: ManageOfferRequest)
        requires
            request.action == OfferAction::Submit ==> request.offer is Some,
            request.action != OfferAction::Submit ==> old(self)@.offer is Some,
        ensures
            final(self)@ == offer_applied(old(self)@, *ctx, request),
    {
        let old_offer = opt_offer_string(self.offer);
        match request.action {
            OfferAction::Submit => {
                let m = request.offer.unwrap();
                let o = Offer {
                    offer: m,
                    offer_status: OfferStatus::Pending,
                    offer_date: ctx.timestamp,
                };
                self.buffer("offer", old_offer, opt_offer_string(Some(o)));
                self.offer = Some(o);
                let old_status = status_string(self.status);
                self.status = ContractStatus::UnderOffer;
                self.buffer("status", old_status, status_string(ContractStatus::UnderOffer));
            },
            _ => {
                let o = self.offer.unwrap();
                let st = match request.action {
                    OfferAction::Accept => OfferStatus::Accepted,
                    OfferAction::Reject => OfferStatus::Rejected,
                    _ => OfferStatus::Cancelled,
                };
                let updated = Offer { offer_status: st, ..o };
                self.buffer("offer", old_offer, opt_offer_string(Some(updated)));
                self.offer = Some(updated);
                if request.action == OfferAction::Cancel {
                    let old_status = status_string(self.status);
                    self.status = ContractStatus::Draft;
                    self.buffer("status", old_status, status_string(ContractStatus::Draft));
                }
            },
        }
    }

    /// Submits, accepts, rejects or cancels the offer. A paused agreement
    /// refuses the call; every other call is answered, recorded as one call
    /// record carrying the changes it made, and announced.
    pub fn manage_offer(&mut self, ctx: &CallContext, request: ManageOfferRequest) -> (r: Result<
        ManageOfferResponse,
        ContractError,
    >)
        requires
            sale_ok(old(self)@),
        ensures
            sale_ok(final(self)@),
            old(self)@.paused ==> r == Err::<ManageOfferResponse, ContractError>(
                ContractError::ContractPaused,
            ) && final(self)@ == old(self)@,
            !old(self)@.paused ==> (r matches Ok(resp) && offer_response_is(
                resp,
                offer_refusal(old(self)@, ctx.caller, request),
            )),
            !old(self)@.paused ==> final(self)@ == after_manage_offer(old(self)@, *ctx, request),
    {
        if self.paused {
            return Err(ContractError::ContractPaused);
        }
        let ghost v = self@;
        let request_id = ctx.block_number;
        self.push_event(
            SaleEvent::ManageOfferRequestSubmitted(
                ManageOfferRequestSubmitted { submitter: ctx.caller, request_id },
            ),
        );
        let found = match request.action {
            OfferAction::Submit | OfferAction::Cancel => find_wallet(
                &mut self.events,
                ctx.caller,
                &self.buyers,
            ),
            OfferAction::Accept | OfferAction::Reject => find_wallet(
                &mut self.events,
                ctx.caller,
                &self.sellers,
            ),
        };
        let ghost opened = self@;
        assert(opened == (SaleView {
            events: v.events.push(
                EventView::Plain(
                    SaleEvent::ManageOfferRequestSubmitted(
                        ManageOfferRequestSubmitted { submitter: ctx.caller, request_id },
                    ),
                ),
            ) + offer_trail(v, ctx.caller, request.action),
            ..v
        }));
        let refusal: Option<&str> = if found.is_none() {
            match request.action {
                OfferAction::Submit | OfferAction::Cancel => Some(
                    "Only buyers can submit or cancel offers",
                ),
                OfferAction::Accept | OfferAction::Reject => Some(
                    "Only sellers can accept or reject offers",
                ),
            }
        } else if self.status == ContractStatus::Signed || self.status == ContractStatus::Cancelled
            || self.status == ContractStatus::Superseded {
            Some("Contract status admits no further offers or signatures")
        } else {
            match request.action {
                OfferAction::Submit => if request.offer.is_none() {
                    Some("Offer amount is required for Submit action")
                } else {
                    None
                },
                _ => if self.offer.is_none() {
                    Some("No existing offer to update")
                } else {
                    None
                },
            }
        };
        assert(refusal matches Some(m) ==> offer_refusal(v, ctx.caller, request) == Some(m@));
        assert(refusal is None ==> offer_refusal(v, ctx.caller, request) is None);
        if refusal.is_none() {
            self.apply_offer_action(ctx, request);
        }
        self.record_call(ctx, "manage_offer");
        let success = refusal.is_none();
        self.push_event(
            SaleEvent::ManageOfferResponseGenerated(
                ManageOfferResponseGenerated { request_id, success },
            ),
        );
        let error_message = match refusal {
            None => None,
            Some(m) => Some(String::from_str(m)),
        };
        Ok(ManageOfferResponse { success, error_message })
    }


    /// The text of why the agreement cannot be signed yet, if it cannot.
    fn signing_blocker_text(&self) -> (r: Option<String>)
        ensures
            r is None <==> signing_blocker(self@) is None,
            r matches Some(t) ==> signing_blocker(self@) == Some(t@),
    {
        if self.status == ContractStatus::Signed || self.status == ContractStatus::Cancelled
            || self.status == ContractStatus::Superseded {
            return Some(String::from_str("Contract status admits no further offers or signatures"));
        }
        if self.sellers.len() == 0 {
            return Some(String::from_str("Contract must have at least one seller before signing"));
        }
        if self.buyers.len() == 0 {
            return Some(String::from_str("Contract must have at least one buyer before signing"));
        }
        match self.offer {
            None => Some(
                String::from_str("No offer exists to sign - an accepted offer is required"),
            ),
            Some(o) => {
                if o.offer_status != OfferStatus::Accepted {
                    let mut t = String::from_str(
                        "Offer must be accepted before signing. Current status: ",
                    );
                    t.append(offer_status_str(o.offer_status));
                    return Some(t);
                }
                match self.purchase_price {
                    None => Some(String::from_str("Purchase price must be set before signing")),
                    Some(pp) => {
                        if pp.amount != o.offer.amount {
                            let mut t = String::from_str("Purchase price (");
                            t.append(money_string(pp).as_str());
                            t.append(") must equal offer amount (");
                            t.append(money_string(o.offer).as_str());
                            t.append(")");
                            Some(t)
                        } else if pp.currency_code != o.offer.currency_code {
                            let mut t = String::from_str("Purchase price currency (");
                            t.append(currency_str(pp.currency_code));
                            t.append(") must match offer currency (");
                            t.append(currency_str(o.offer.currency_code));
                            t.append(")");
                            Some(t)
                        } else {
                            None
                        }
                    },
                }
            },
        }
    }

    /// Looks for the signer among the sellers, then the buyers, announcing
    /// each comparison.
    fn find_signer(&mut self, ctx: &CallContext) -> (r: Result<(bool, usize), ContractError>)
        ensures
            final(self)@ == (SaleView {
                events: old(self)@.events + sign_trail(
                    ctx.caller,
                    old(self)@.sellers,
                    old(self)@.buyers,
                ),
                ..old(self)@
            }),
            r matches Ok((seller, k)) ==> signer_of(
                ctx.caller,
                old(self)@.sellers,
                old(self)@.buyers,
            ) == Ok::<(bool, int), ContractError>((seller, k as int)),
            r matches Err(e) ==> signer_of(ctx.caller, old(self)@.sellers, old(self)@.buyers)
                == Err::<(bool, int), ContractError>(e),
    {
        let ghost v = self@;
        match find_wallet(&mut self.events, ctx.caller, &self.sellers) {
            Some(k) => {
                assert(self@.events =~= v.events + sign_trail(ctx.caller, v.sellers, v.buyers));
                if self.sellers[k].signed_at.is_some() {
                    Err(ContractError::InvalidInput)
                } else {
                    Ok((true, k))
                }
            },
            None => {
                let found = find_wallet(&mut self.events, ctx.caller, &self.buyers);
                assert(self@.events =~= v.events + sign_trail(ctx.caller, v.sellers, v.buyers));
                match found {
                    Some(k) => {
                        if self.buyers[k].signed_at.is_some() {
                            Err(ContractError::InvalidInput)
                        } else {
                            Ok((false, k))
                        }
                    },
                    None => Err(ContractError::Unauthorized),
                }
            },
        }
    }

    fn move_status(&mut self, ctx: &CallContext, to: ContractStatus)
        ensures
            final(self)@ == with_status(old(self)@, *ctx, to),
    {
        let old_text = status_string(self.status);
        self.log_direct(ctx, "status", old_text, status_string(to));
        self.status = to;
    }

    fn sign_party(&mut self, ctx: &CallContext, seller: bool, k: usize)
        requires
            seller ==> k < old(self)@.sellers.len(),
            !seller ==> k < old(self)@.buyers.len(),
        ensures
            final(self)@ == signed_view(old(self)@, *ctx, seller, k as int),
    {
        let first = none_signed_in(&self.sellers) && none_signed_in(&self.buyers);
        if seller {
            let old_text = parties_string(&self.sellers);
            let mut p = self.sellers[k].duplicate();
            p.signed_at = Some(ctx.timestamp);
            self.sellers.set(k, p);
            let new_text = parties_string(&self.sellers);
            self.log_direct(ctx, "sellers", old_text, new_text);
        } else {
            let old_text = parties_string(&self.buyers);
            let mut p = self.buyers[k].duplicate();
            p.signed_at = Some(ctx.timestamp);
            self.buyers.set(k, p);
            let new_text = parties_string(&self.buyers);
            self.log_direct(ctx, "buyers", old_text, new_text);
        }
        if first {
            self.move_status(ctx, ContractStatus::Signing);
        }
        if all_signed_in(&self.sellers) && all_signed_in(&self.buyers) {
            self.move_status(ctx, ContractStatus::Signed);
        }
    }

    /// Signs for the caller. A paused agreement refuses the call; every other
    /// call is answered, recorded as a call record, and announced. A refused
    /// signature changes nothing but the log and the notifications.
    pub fn sign_contract(&mut self, ctx: &CallContext, request: SignContractRequest) -> (r:
        Result<SignContractResponse, ContractError>)
        requires
            sale_ok(old(self)@),
        ensures
            sale_ok(final(self)@),
            old(self)@.paused ==> r == Err::<SignContractResponse, ContractError>(
                ContractError::ContractPaused,
            ) && final(self)@ == old(self)@,
            !old(self)@.paused ==> (r matches Ok(resp) && sign_response_is(
                resp,
                sign_refusal(old(self)@, ctx.caller),
            )),
            !old(self)@.paused ==> final(self)@ == after_sign_contract(old(self)@, *ctx),
    {
        if self.paused {
            return Err(ContractError::ContractPaused);
        }
        let ghost v = self@;
        let request_id = ctx.block_number;
        self.push_event(
            SaleEvent::SignContractRequestSubmitted(
                SignContractRequestSubmitted { submitter: ctx.caller, request_id },
            ),
        );
        let mut refusal = self.signing_blocker_text();
        if refusal.is_none() {
            let ghost opened = self@;
            match self.find_signer(ctx) {
                Ok((seller, k)) => {
                    proof {
                        if seller {
                            lemma_sign_keeps_registry(opened.sellers, k as int, ctx.timestamp);
                        } else {
                            lemma_sign_keeps_registry(opened.buyers, k as int, ctx.timestamp);
                        }
                    }
                    self.sign_party(ctx, seller, k);
                },
                Err(e) => {
                    let text = match e {
                        ContractError::Unauthorized => {
                            "Only buyers and sellers can sign the contract"
                        },
                        ContractError::InvalidInput => {
                            "Party has already signed or invalid signing attempt"
                        },
                        _ => "Signing failed",
                    };
                    refusal = Some(String::from_str(text));
                },
            }
        }
        self.record_call(ctx, "sign_contract");
        let success = refusal.is_none();
        self.push_event(
            SaleEvent::SignContractResponseGenerated(
                SignContractResponseGenerated { request_id, success },
            ),
        );
        Ok(SignContractResponse { success, error_message: refusal })
    }


    /// Whether `address` has the shape of an SS58 address: 47 or 48
    /// characters, all of the base-58 alphabet.
    pub fn is_valid_ss58_address(&self, address: String) -> (r: bool)
        ensures
            r == ss58_shaped(address@),
    {
        let text = address.as_str();
        let n = text.unicode_len();
        if n < 47 || n > 48 {
            return false;
        }
        let mut i: usize = 0;
        while i < n
            invariant
                0 <= i <= n,
                n == address@.len(),
                text@ == address@,
                forall|j: int| 0 <= j < i ==> is_base58_char(#[trigger] address@[j]),
            decreases n - i,
        {
            let c = text.get_char(i);
            let ok = ('1' <= c && c <= '9') || ('A' <= c && c <= 'H') || ('J' <= c && c <= 'N')
                || ('P' <= c && c <= 'Z') || ('a' <= c && c <= 'k') || ('m' <= c && c <= 'z');
            if !ok {
                return false;
            }
            i = i + 1;
        }
        true
    }

}

} // verus!
