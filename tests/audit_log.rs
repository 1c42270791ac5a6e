use propertysale::text::{account_string, decimal_string, money_string, parties_string};
use propertysale::{
    AccountId, AuditLogEntry, CallContext, ContractStatus, Country, CurrencyCode, Money, Party,
    PropertyAddress, PropertySale,
};

fn owner() -> CallContext {
    CallContext { caller: AccountId { bytes: [1; 32] }, timestamp: 77, block_number: 5 }
}

/// An agreement with `n` direct status records in its log.
fn sale_with_records(n: usize) -> PropertySale {
    let mut sale = PropertySale::default(&owner());
    for i in 0..n {
        let status = if i % 2 == 0 { ContractStatus::UnderOffer } else { ContractStatus::Draft };
        sale.set_status(&owner(), status).unwrap();
    }
    sale
}

#[test]
fn count_follows_each_logged_call() {
    let mut sale = PropertySale::default(&owner());
    assert_eq!(sale.get_audit_log_count(), 0);
    sale.set_status(&owner(), ContractStatus::Signing).unwrap();
    assert_eq!(sale.get_audit_log_count(), 1);
    sale.set_deposit(&owner(), None).unwrap();
    assert_eq!(sale.get_audit_log_count(), 2);
    // pause and unpause write no record
    sale.pause(&owner()).unwrap();
    sale.unpause(&owner()).unwrap();
    assert_eq!(sale.get_audit_log_count(), 2);
}

#[test]
fn written_record_reads_back_unchanged() {
    let mut sale = sale_with_records(3);
    let first = sale.get_audit_log(0, 1);
    sale.set_status(&owner(), ContractStatus::Cancelled).unwrap();
    assert_eq!(sale.get_audit_log(0, 1), first);
    let last = sale.get_audit_log(3, 1);
    assert_eq!(
        last,
        vec![AuditLogEntry::DirectFieldChange {
            field_name: "status".to_string(),
            changed_by: AccountId { bytes: [1; 32] },
            old_value: "UnderOffer".to_string(),
            new_value: "Cancelled".to_string(),
            block_number: 5,
            timestamp: 77,
        }]
    );
}

#[test]
fn range_reads_are_clamped() {
    let sale = sale_with_records(5);
    assert_eq!(sale.get_audit_log(0, 0).len(), 0);
    assert_eq!(sale.get_audit_log(0, 3).len(), 3);
    assert_eq!(sale.get_audit_log(3, 10).len(), 2);
    assert_eq!(sale.get_audit_log(5, 10).len(), 0);
    assert_eq!(sale.get_audit_log(9, 10).len(), 0);
    assert_eq!(sale.get_audit_log(2, u64::MAX).len(), 3);
    assert_eq!(sale.get_audit_log(u64::MAX, u64::MAX).len(), 0);
    assert_eq!(sale.get_audit_log(1, 2), sale.get_audit_log(0, 5)[1..3].to_vec());
}

#[test]
fn filtered_scans_respect_start_and_limit() {
    let sale = sale_with_records(4);
    assert_eq!(sale.get_audit_log_field_changes(0, 10).len(), 4);
    assert_eq!(sale.get_audit_log_field_changes(1, 2).len(), 2);
    assert_eq!(sale.get_audit_log_field_changes(3, 0).len(), 0);
    assert_eq!(sale.get_audit_log_field_changes(8, 3).len(), 0);
    assert_eq!(sale.get_audit_log_function_calls(0, 10).len(), 0);
    assert_eq!(sale.get_audit_log_field_changes(2, 5), sale.get_audit_log(2, 5));
}

#[test]
fn queries_leave_the_log_alone() {
    let sale = sale_with_records(3);
    let all = sale.get_audit_log(0, 10);
    let count = sale.get_audit_log_count();
    for _ in 0..2 {
        sale.get_audit_log(1, 1);
        sale.get_audit_log_function_calls(0, 5);
        sale.get_audit_log_field_changes(0, 5);
        sale.get_audit_log_field_changes_by_field("status".to_string());
    }
    assert_eq!(sale.get_audit_log_count(), count);
    assert_eq!(sale.get_audit_log(0, 10), all);
    assert_eq!(
        sale.get_audit_log_field_changes_by_field("status".to_string()),
        sale.get_audit_log_field_changes_by_field("status".to_string())
    );
}

#[test]
fn decimal_text_of_numbers() {
    assert_eq!(decimal_string(0), "0");
    assert_eq!(decimal_string(7), "7");
    assert_eq!(decimal_string(10), "10");
    assert_eq!(decimal_string(1234567890), "1234567890");
    assert_eq!(decimal_string(u128::MAX), u128::MAX.to_string());
}

#[test]
fn money_and_account_text() {
    assert_eq!(money_string(Money { amount: 100, currency_code: CurrencyCode::GBP }), "100 GBP");
    assert_eq!(money_string(Money { amount: 0, currency_code: CurrencyCode::EUR }), "0 EUR");
    let mut bytes = [0u8; 32];
    bytes[0] = 0xab;
    bytes[31] = 0x0f;
    let text = account_string(&AccountId { bytes });
    assert_eq!(text.len(), 66);
    assert!(text.starts_with("0xab00"));
    assert!(text.ends_with("000f"));
}

#[test]
fn party_list_text() {
    let p = Party {
        party_id: "p1".to_string(),
        full_name: "Ann".to_string(),
        email: "a@x".to_string(),
        mobile: "1".to_string(),
        address: PropertyAddress {
            address_line1: "L1".to_string(),
            address_line2: "L2".to_string(),
            city: "C".to_string(),
            post_code: "P".to_string(),
            county: "K".to_string(),
            country: Country::FRANCE,
        },
        wallet_address: AccountId { bytes: [0; 32] },
        signed_at: Some(3),
    };
    let one = format!(
        "Party {{ party_id: \"p1\", full_name: \"Ann\", email: \"a@x\", mobile: \"1\", address: PropertyAddress {{ address_line1: \"L1\", address_line2: \"L2\", city: \"C\", post_code: \"P\", county: \"K\", country: FRANCE }}, wallet_address: 0x{}, signed_at: Some(3) }}",
        "0".repeat(64)
    );
    assert_eq!(parties_string(&vec![]), "[]");
    assert_eq!(parties_string(&vec![p.clone()]), format!("[{}]", one));
    assert_eq!(parties_string(&vec![p.clone(), p]), format!("[{}, {}]", one, one));
}
