use propertysale::{
    AccountId, AuditLogEntry, CallContext, ContractError, ContractStatus, Country, CurrencyCode,
    ManageOfferRequest, Money, Offer, OfferAction, OfferStatus, Party, PropertyAddress,
    PropertySale, SaleEvent, SignContractRequest,
};

fn account(n: u8) -> AccountId {
    AccountId { bytes: [n; 32] }
}

fn ctx(n: u8) -> CallContext {
    CallContext { caller: account(n), timestamp: 1000 + n as u64, block_number: 10 + n as u64 }
}

fn address() -> PropertyAddress {
    PropertyAddress {
        address_line1: "1 High Street".to_string(),
        address_line2: String::new(),
        city: "York".to_string(),
        post_code: "YO1 1AA".to_string(),
        county: "North Yorkshire".to_string(),
        country: Country::UK,
    }
}

fn party(id: &str, wallet: u8) -> Party {
    Party {
        party_id: id.to_string(),
        full_name: format!("Name {}", id),
        email: format!("{}@example.com", id),
        mobile: "0700".to_string(),
        address: address(),
        wallet_address: account(wallet),
        signed_at: None,
    }
}

const OWNER: u8 = 1;
const SELLER: u8 = 2;
const BUYER: u8 = 3;
const STRANGER: u8 = 9;

fn gbp(amount: u128) -> Money {
    Money { amount, currency_code: CurrencyCode::GBP }
}

/// An agreement with one seller and one buyer.
fn two_party_sale() -> PropertySale {
    let mut sale = PropertySale::default(&ctx(OWNER));
    sale.add_seller(&ctx(OWNER), party("s1", SELLER)).unwrap();
    sale.add_buyer(&ctx(OWNER), party("b1", BUYER)).unwrap();
    sale
}

fn offer_request(action: OfferAction, offer: Option<Money>) -> ManageOfferRequest {
    ManageOfferRequest { action, offer }
}

/// An agreement whose accepted offer of 100 GBP matches the purchase price.
fn ready_to_sign() -> PropertySale {
    let mut sale = two_party_sale();
    sale.manage_offer(&ctx(BUYER), offer_request(OfferAction::Submit, Some(gbp(100)))).unwrap();
    sale.manage_offer(&ctx(SELLER), offer_request(OfferAction::Accept, None)).unwrap();
    sale.set_purchase_price(&ctx(OWNER), Some(gbp(100))).unwrap();
    sale
}

fn field_names(e: &AuditLogEntry) -> Vec<String> {
    match e {
        AuditLogEntry::FunctionCall { field_changes, .. } => {
            field_changes.iter().map(|c| c.field_name.clone()).collect()
        }
        AuditLogEntry::DirectFieldChange { field_name, .. } => vec![field_name.clone()],
    }
}

#[test]
fn lib_default_works() {
    let contract = PropertySale::default(&ctx(OWNER));
    assert_eq!(contract.is_paused(), false);
}

#[test]
fn lib_pause_works() {
    let mut contract = PropertySale::default(&ctx(OWNER));
    assert_eq!(contract.pause(&ctx(OWNER)), Ok(()));
    assert_eq!(contract.is_paused(), true);
}

#[test]
fn lib_unpause_works() {
    let mut contract = PropertySale::default(&ctx(OWNER));
    assert_eq!(contract.pause(&ctx(OWNER)), Ok(()));
    assert_eq!(contract.unpause(&ctx(OWNER)), Ok(()));
    assert_eq!(contract.is_paused(), false);
}

#[test]
fn default_has_placeholder_address_and_draft_status() {
    let sale = PropertySale::default(&ctx(OWNER));
    let a = sale.get_property_address();
    assert_eq!(a.address_line1, "TBD");
    assert_eq!(a.county, "TBD");
    assert_eq!(a.country, Country::UK);
    assert_eq!(sale.get_status(), ContractStatus::Draft);
    assert_eq!(sale.get_owner(), account(OWNER));
    assert_eq!(sale.get_audit_log_count(), 0);
}

#[test]
fn construction_drops_invalid_and_repeated_parties() {
    let mut blank = party("x", 5);
    blank.email = String::new();
    let sellers = vec![party("s1", 2), blank, party("s1", 6), party("s2", 7)];
    let mut bad_address = address();
    bad_address.city = String::new();
    let sale = PropertySale::new(
        &ctx(OWNER),
        sellers,
        vec![],
        bad_address,
        Some(gbp(5)),
        None,
        None,
        None,
        Some(42),
        ContractStatus::UnderOffer,
    );
    let kept: Vec<String> = sale.get_sellers().iter().map(|p| p.party_id.clone()).collect();
    assert_eq!(kept, vec!["s1".to_string(), "s2".to_string()]);
    assert_eq!(sale.get_sellers()[0].wallet_address, account(2));
    assert_eq!(sale.get_sellers_count(), 2);
    assert_eq!(sale.get_buyers_count(), 0);
    assert_eq!(sale.get_property_address().city, "TBD");
    assert_eq!(sale.get_purchase_price(), Some(gbp(5)));
    assert_eq!(sale.get_agreement_date(), Some(42));
    assert_eq!(sale.get_status(), ContractStatus::UnderOffer);
}

#[test]
fn construction_announces_owner() {
    let mut sale = PropertySale::default(&ctx(OWNER));
    let events = sale.take_events();
    assert_eq!(events.len(), 1);
    match &events[0] {
        SaleEvent::ContractCreated(c) => assert_eq!(c.owner, account(OWNER)),
        other => panic!("unexpected {:?}", other),
    }
    assert!(sale.take_events().is_empty());
}

#[test]
fn only_owner_pauses() {
    let mut sale = PropertySale::default(&ctx(OWNER));
    assert_eq!(sale.pause(&ctx(STRANGER)), Err(ContractError::Unauthorized));
    assert!(!sale.is_paused());
    assert_eq!(sale.unpause(&ctx(STRANGER)), Err(ContractError::Unauthorized));
}

#[test]
fn submit_offer_as_buyer() {
    let mut sale = two_party_sale();
    let before = sale.get_audit_log_count();
    let r = sale
        .manage_offer(&ctx(BUYER), offer_request(OfferAction::Submit, Some(gbp(100))))
        .unwrap();
    assert!(r.success);
    assert_eq!(r.error_message, None);
    let offer = sale.get_offer().unwrap();
    assert_eq!(offer.offer_status, OfferStatus::Pending);
    assert_eq!(offer.offer, gbp(100));
    assert_eq!(offer.offer_date, ctx(BUYER).timestamp);
    assert_eq!(sale.get_status(), ContractStatus::UnderOffer);
    assert_eq!(sale.get_audit_log_count(), before + 1);
    let log = sale.get_audit_log(before, 10);
    assert_eq!(log.len(), 1);
    match &log[0] {
        AuditLogEntry::FunctionCall { function_name, request_id, field_changes, caller, .. } => {
            assert_eq!(function_name, "manage_offer");
            assert_eq!(*request_id, ctx(BUYER).block_number);
            assert_eq!(*caller, account(BUYER));
            assert_eq!(field_changes.len(), 2);
            assert_eq!(field_changes[0].field_name, "offer");
            assert_eq!(field_changes[0].old_value, "None");
            assert_eq!(
                field_changes[0].new_value,
                "Some(Offer { offer: Money { amount: 100, currency_code: GBP }, offer_status: Pending, offer_date: 1003 })"
            );
            assert_eq!(field_changes[1].field_name, "status");
            assert_eq!(field_changes[1].old_value, "Draft");
            assert_eq!(field_changes[1].new_value, "UnderOffer");
        }
        other => panic!("unexpected {:?}", other),
    }
    assert_eq!(sale.get_audit_log_function_calls(0, 100).len(), 1);
}

#[test]
fn accept_keeps_status_under_offer() {
    let mut sale = two_party_sale();
    sale.manage_offer(&ctx(BUYER), offer_request(OfferAction::Submit, Some(gbp(100)))).unwrap();
    let r = sale.manage_offer(&ctx(SELLER), offer_request(OfferAction::Accept, None)).unwrap();
    assert!(r.success);
    assert_eq!(sale.get_offer().unwrap().offer_status, OfferStatus::Accepted);
    assert_eq!(sale.get_status(), ContractStatus::UnderOffer);
}

#[test]
fn reject_and_cancel_offer() {
    let mut sale = two_party_sale();
    sale.manage_offer(&ctx(BUYER), offer_request(OfferAction::Submit, Some(gbp(7)))).unwrap();
    let r = sale.manage_offer(&ctx(SELLER), offer_request(OfferAction::Reject, None)).unwrap();
    assert!(r.success);
    assert_eq!(sale.get_offer().unwrap().offer_status, OfferStatus::Rejected);
    let r = sale.manage_offer(&ctx(BUYER), offer_request(OfferAction::Cancel, None)).unwrap();
    assert!(r.success);
    assert_eq!(sale.get_offer().unwrap().offer_status, OfferStatus::Cancelled);
    assert_eq!(sale.get_status(), ContractStatus::Draft);
}

#[test]
fn offer_business_failures() {
    let mut sale = two_party_sale();
    let r = sale.manage_offer(&ctx(SELLER), offer_request(OfferAction::Submit, Some(gbp(1)))).unwrap();
    assert!(!r.success);
    assert_eq!(r.error_message.as_deref(), Some("Only buyers can submit or cancel offers"));
    let r = sale.manage_offer(&ctx(BUYER), offer_request(OfferAction::Accept, None)).unwrap();
    assert_eq!(r.error_message.as_deref(), Some("Only sellers can accept or reject offers"));
    let r = sale.manage_offer(&ctx(BUYER), offer_request(OfferAction::Submit, None)).unwrap();
    assert_eq!(r.error_message.as_deref(), Some("Offer amount is required for Submit action"));
    let r = sale.manage_offer(&ctx(SELLER), offer_request(OfferAction::Accept, None)).unwrap();
    assert_eq!(r.error_message.as_deref(), Some("No existing offer to update"));
    assert_eq!(sale.get_offer(), None);
    assert_eq!(sale.get_status(), ContractStatus::Draft);
    assert_eq!(sale.get_audit_log_field_changes(2, 100).len(), 0);
}

#[test]
fn offer_refused_in_terminal_status() {
    let mut sale = two_party_sale();
    sale.set_status(&ctx(OWNER), ContractStatus::Cancelled).unwrap();
    let r = sale.manage_offer(&ctx(BUYER), offer_request(OfferAction::Submit, Some(gbp(1)))).unwrap();
    assert!(!r.success);
    assert_eq!(
        r.error_message.as_deref(),
        Some("Contract status admits no further offers or signatures")
    );
    assert_eq!(sale.get_status(), ContractStatus::Cancelled);
}

#[test]
fn offer_events_in_order() {
    let mut sale = two_party_sale();
    sale.take_events();
    sale.manage_offer(&ctx(BUYER), offer_request(OfferAction::Submit, Some(gbp(100)))).unwrap();
    let events = sale.take_events();
    let kinds: Vec<&str> = events
        .iter()
        .map(|e| match e {
            SaleEvent::ManageOfferRequestSubmitted(_) => "submitted",
            SaleEvent::AuthorizationAttempt(_) => "attempt",
            SaleEvent::FunctionCalled(_) => "called",
            SaleEvent::ContractDataChanged(_) => "changed",
            SaleEvent::ManageOfferResponseGenerated(_) => "response",
            _ => "other",
        })
        .collect();
    assert_eq!(kinds, vec!["submitted", "attempt", "called", "changed", "changed", "response"]);
    match &events[1] {
        SaleEvent::AuthorizationAttempt(a) => {
            assert_eq!(a.caller, account(BUYER));
            assert_eq!(a.stored_address, account(BUYER));
            assert!(a.match_result);
        }
        other => panic!("unexpected {:?}", other),
    }
    match &events[5] {
        SaleEvent::ManageOfferResponseGenerated(g) => {
            assert_eq!(g.request_id, ctx(BUYER).block_number);
            assert!(g.success);
        }
        other => panic!("unexpected {:?}", other),
    }
}

#[test]
fn sign_refused_on_price_mismatch() {
    let mut sale = two_party_sale();
    sale.manage_offer(&ctx(BUYER), offer_request(OfferAction::Submit, Some(gbp(100)))).unwrap();
    sale.manage_offer(&ctx(SELLER), offer_request(OfferAction::Accept, None)).unwrap();
    sale.set_purchase_price(&ctx(OWNER), Some(gbp(90))).unwrap();
    let changes_before = sale.get_audit_log_field_changes(0, 1000).len();
    let r = sale.sign_contract(&ctx(SELLER), SignContractRequest {}).unwrap();
    assert!(!r.success);
    assert_eq!(
        r.error_message.as_deref(),
        Some("Purchase price (90 GBP) must equal offer amount (100 GBP)")
    );
    assert_eq!(sale.get_audit_log_field_changes(0, 1000).len(), changes_before);
    assert_eq!(sale.get_status(), ContractStatus::UnderOffer);

    sale.set_purchase_price(&ctx(OWNER), Some(Money { amount: 100, currency_code: CurrencyCode::EUR })).unwrap();
    let r = sale.sign_contract(&ctx(SELLER), SignContractRequest {}).unwrap();
    assert_eq!(
        r.error_message.as_deref(),
        Some("Purchase price currency (EUR) must match offer currency (GBP)")
    );
}

#[test]
fn sign_precondition_messages() {
    let mut sale = PropertySale::default(&ctx(OWNER));
    let r = sale.sign_contract(&ctx(SELLER), SignContractRequest {}).unwrap();
    assert_eq!(
        r.error_message.as_deref(),
        Some("Contract must have at least one seller before signing")
    );
    sale.add_seller(&ctx(OWNER), party("s1", SELLER)).unwrap();
    let r = sale.sign_contract(&ctx(SELLER), SignContractRequest {}).unwrap();
    assert_eq!(
        r.error_message.as_deref(),
        Some("Contract must have at least one buyer before signing")
    );
    sale.add_buyer(&ctx(OWNER), party("b1", BUYER)).unwrap();
    let r = sale.sign_contract(&ctx(SELLER), SignContractRequest {}).unwrap();
    assert_eq!(
        r.error_message.as_deref(),
        Some("No offer exists to sign - an accepted offer is required")
    );
    sale.manage_offer(&ctx(BUYER), offer_request(OfferAction::Submit, Some(gbp(100)))).unwrap();
    let r = sale.sign_contract(&ctx(SELLER), SignContractRequest {}).unwrap();
    assert_eq!(
        r.error_message.as_deref(),
        Some("Offer must be accepted before signing. Current status: Pending")
    );
    sale.manage_offer(&ctx(SELLER), offer_request(OfferAction::Accept, None)).unwrap();
    let r = sale.sign_contract(&ctx(SELLER), SignContractRequest {}).unwrap();
    assert_eq!(r.error_message.as_deref(), Some("Purchase price must be set before signing"));
}

#[test]
fn signing_moves_to_signing_then_signed() {
    let mut sale = ready_to_sign();
    let r = sale.sign_contract(&ctx(SELLER), SignContractRequest {}).unwrap();
    assert!(r.success);
    assert_eq!(sale.get_status(), ContractStatus::Signing);
    assert_eq!(sale.get_sellers()[0].signed_at, Some(ctx(SELLER).timestamp));
    assert_eq!(sale.get_buyers()[0].signed_at, None);

    let r = sale.sign_contract(&ctx(SELLER), SignContractRequest {}).unwrap();
    assert!(!r.success);
    assert_eq!(
        r.error_message.as_deref(),
        Some("Party has already signed or invalid signing attempt")
    );

    let r = sale.sign_contract(&ctx(STRANGER), SignContractRequest {}).unwrap();
    assert_eq!(
        r.error_message.as_deref(),
        Some("Only buyers and sellers can sign the contract")
    );

    let r = sale.sign_contract(&ctx(BUYER), SignContractRequest {}).unwrap();
    assert!(r.success);
    assert_eq!(sale.get_status(), ContractStatus::Signed);
    assert_eq!(sale.get_buyers()[0].signed_at, Some(ctx(BUYER).timestamp));

    let r = sale.sign_contract(&ctx(BUYER), SignContractRequest {}).unwrap();
    assert!(!r.success);
    assert_eq!(sale.get_status(), ContractStatus::Signed);
}

#[test]
fn status_field_query_finds_every_status_change() {
    let mut sale = ready_to_sign();
    sale.sign_contract(&ctx(SELLER), SignContractRequest {}).unwrap();
    sale.sign_contract(&ctx(BUYER), SignContractRequest {}).unwrap();
    sale.set_status(&ctx(OWNER), ContractStatus::Superseded).unwrap();
    let hits = sale.get_audit_log_field_changes_by_field("status".to_string());
    // the submit call, the two signing moves and the direct setter
    assert_eq!(hits.len(), 4);
    for e in &hits {
        assert!(field_names(e).iter().any(|n| n == "status"));
    }
    let all = sale.get_audit_log(0, u64::MAX);
    let expected = all.iter().filter(|e| field_names(e).iter().any(|n| n == "status")).count();
    assert_eq!(expected, hits.len());
    assert!(sale.get_audit_log_field_changes_by_field("nothing".to_string()).is_empty());
}

#[test]
fn paused_refuses_every_mutation() {
    let mut sale = ready_to_sign();
    sale.pause(&ctx(OWNER)).unwrap();
    let count = sale.get_audit_log_count();
    let paused = Err(ContractError::ContractPaused);
    assert_eq!(sale.manage_offer(&ctx(BUYER), offer_request(OfferAction::Cancel, None)).map(|_| ()), paused);
    assert_eq!(sale.sign_contract(&ctx(SELLER), SignContractRequest {}).map(|_| ()), paused);
    assert_eq!(sale.add_seller(&ctx(OWNER), party("s2", 7)), paused);
    assert_eq!(sale.remove_seller(&ctx(OWNER), "s1".to_string()), paused);
    assert_eq!(sale.add_buyer(&ctx(OWNER), party("b2", 8)), paused);
    assert_eq!(sale.remove_buyer(&ctx(OWNER), "b1".to_string()), paused);
    assert_eq!(sale.set_property_address(&ctx(OWNER), address()), paused);
    assert_eq!(sale.set_purchase_price(&ctx(OWNER), None), paused);
    assert_eq!(sale.set_deposit(&ctx(OWNER), None), paused);
    assert_eq!(sale.set_balance(&ctx(OWNER), None), paused);
    assert_eq!(sale.set_offer(&ctx(OWNER), None), paused);
    assert_eq!(sale.set_agreement_date(&ctx(OWNER), None), paused);
    assert_eq!(sale.set_status(&ctx(STRANGER), ContractStatus::Draft), paused);
    assert_eq!(sale.get_audit_log_count(), count);
    assert_eq!(sale.unpause(&ctx(OWNER)), Ok(()));
    assert_eq!(sale.set_deposit(&ctx(OWNER), Some(gbp(10))), Ok(()));
    assert_eq!(sale.get_audit_log_count(), count + 1);
}

#[test]
fn setters_need_the_owner() {
    let mut sale = two_party_sale();
    let unauthorized = Err(ContractError::Unauthorized);
    assert_eq!(sale.set_status(&ctx(BUYER), ContractStatus::Cancelled), unauthorized);
    assert_eq!(sale.add_seller(&ctx(SELLER), party("s9", 9)), unauthorized);
    assert_eq!(sale.remove_buyer(&ctx(SELLER), "b1".to_string()), unauthorized);
    assert_eq!(sale.get_status(), ContractStatus::Draft);
}

#[test]
fn invalid_input_is_refused() {
    let mut sale = two_party_sale();
    let invalid = Err(ContractError::InvalidInput);
    let count = sale.get_audit_log_count();
    let mut nameless = party("s3", 4);
    nameless.full_name = String::new();
    assert_eq!(sale.add_seller(&ctx(OWNER), nameless), invalid);
    assert_eq!(sale.add_seller(&ctx(OWNER), party("s1", 4)), invalid);
    assert_eq!(sale.add_buyer(&ctx(OWNER), party("b1", 4)), invalid);
    assert_eq!(sale.remove_seller(&ctx(OWNER), "missing".to_string()), invalid);
    assert_eq!(sale.remove_buyer(&ctx(OWNER), "missing".to_string()), invalid);
    let mut bad = address();
    bad.post_code = String::new();
    assert_eq!(sale.set_property_address(&ctx(OWNER), bad), invalid);
    assert_eq!(sale.get_audit_log_count(), count);
    assert_eq!(sale.get_sellers_count(), 1);
}

#[test]
fn parties_are_added_and_removed() {
    let mut sale = two_party_sale();
    sale.add_seller(&ctx(OWNER), party("s2", 4)).unwrap();
    assert_eq!(sale.get_sellers_count(), 2);
    sale.remove_seller(&ctx(OWNER), "s1".to_string()).unwrap();
    let ids: Vec<String> = sale.get_sellers().iter().map(|p| p.party_id.clone()).collect();
    assert_eq!(ids, vec!["s2".to_string()]);
    sale.remove_buyer(&ctx(OWNER), "b1".to_string()).unwrap();
    assert_eq!(sale.get_buyers_count(), 0);
    let last = sale.get_audit_log(sale.get_audit_log_count() - 1, 1);
    match &last[0] {
        AuditLogEntry::DirectFieldChange { field_name, new_value, changed_by, .. } => {
            assert_eq!(field_name, "buyers");
            assert_eq!(new_value, "[]");
            assert_eq!(*changed_by, account(OWNER));
        }
        other => panic!("unexpected {:?}", other),
    }
}

#[test]
fn direct_setters_log_old_and_new_values() {
    let mut sale = two_party_sale();
    sale.set_purchase_price(&ctx(OWNER), Some(gbp(250))).unwrap();
    sale.set_agreement_date(&ctx(OWNER), Some(1700)).unwrap();
    sale.set_offer(
        &ctx(OWNER),
        Some(Offer { offer: gbp(3), offer_status: OfferStatus::Rejected, offer_date: 9 }),
    )
    .unwrap();
    sale.set_balance(&ctx(OWNER), Some(Money { amount: 12, currency_code: CurrencyCode::USD })).unwrap();
    let n = sale.get_audit_log_count();
    let log = sale.get_audit_log(n - 4, 4);
    let texts: Vec<(String, String, String)> = log
        .iter()
        .map(|e| match e {
            AuditLogEntry::DirectFieldChange { field_name, old_value, new_value, .. } => {
                (field_name.clone(), old_value.clone(), new_value.clone())
            }
            other => panic!("unexpected {:?}", other),
        })
        .collect();
    assert_eq!(texts[0], ("purchase_price".to_string(), "None".to_string(), "250 GBP".to_string()));
    assert_eq!(texts[1], ("agreement_date".to_string(), "None".to_string(), "1700".to_string()));
    assert_eq!(
        texts[2].2,
        "Some(Offer { offer: Money { amount: 3, currency_code: GBP }, offer_status: Rejected, offer_date: 9 })"
    );
    assert_eq!(texts[3], ("balance".to_string(), "None".to_string(), "12 USD".to_string()));
    assert_eq!(sale.get_balance(), Some(Money { amount: 12, currency_code: CurrencyCode::USD }));
    assert_eq!(sale.get_deposit(), None);
}

#[test]
fn ss58_shape_check() {
    let sale = PropertySale::default(&ctx(OWNER));
    let good = "5GrwvaEF5zXb26Fz9rcQpDWS57CtERHpNehXCPcNoHGKutQY".to_string();
    assert_eq!(good.len(), 48);
    assert!(sale.is_valid_ss58_address(good.clone()));
    assert!(sale.is_valid_ss58_address(good[..47].to_string()));
    assert!(!sale.is_valid_ss58_address(good[..46].to_string()));
    assert!(!sale.is_valid_ss58_address(format!("{}1", good)));
    let with_zero = format!("0{}", &good[1..]);
    assert!(!sale.is_valid_ss58_address(with_zero));
    let with_l = format!("l{}", &good[1..]);
    assert!(!sale.is_valid_ss58_address(with_l));
}
