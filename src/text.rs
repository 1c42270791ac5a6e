//! Text of values as they appear in audit records and messages.
use vstd::prelude::*;
use vstd::string::*;
use crate::types::{
    AccountId, ContractStatus, Country, CurrencyCode, Money, Offer, OfferStatus, Party,
    PropertyAddress,
};

verus! {

pub open spec fn digit_text(d: nat) -> Seq<char> {
    if d == 0 { "0"@ }
    else if d == 1 { "1"@ }
    else if d == 2 { "2"@ }
    else if d == 3 { "3"@ }
    else if d == 4 { "4"@ }
    else if d == 5 { "5"@ }
    else if d == 6 { "6"@ }
    else if d == 7 { "7"@ }
    else if d == 8 { "8"@ }
    else if d == 9 { "9"@ }
    else if d == 10 { "a"@ }
    else if d == 11 { "b"@ }
    else if d == 12 { "c"@ }
    else if d == 13 { "d"@ }
    else if d == 14 { "e"@ }
    else { "f"@ }
}

/// The decimal digits of `n`, most significant first, without leading zeros.
pub open spec fn decimal(n: nat) -> Seq<char>
    decreases n,
{
    if n < 10 {
        digit_text(n)
    } else {
        decimal(n / 10) + digit_text(n % 10)
    }
}

/// Two lower-case hexadecimal digits for each byte, in order.
pub open spec fn hex(s: Seq<u8>) -> Seq<char>
    decreases s.len(),
{
    if s.len() == 0 {
        Seq::empty()
    } else {
        hex(s.drop_last()) + digit_text((s.last() / 16) as nat) + digit_text((s.last() % 16) as nat)
    }
}

fn digit_str(d: u128) -> (r: &'static str)
    requires
        d < 16,
    ensures
        r@ == digit_text(d as nat),
{
    if d == 0 { "0" }
    else if d == 1 { "1" }
    else if d == 2 { "2" }
    else if d == 3 { "3" }
    else if d == 4 { "4" }
    else if d == 5 { "5" }
    else if d == 6 { "6" }
    else if d == 7 { "7" }
    else if d == 8 { "8" }
    else if d == 9 { "9" }
    else if d == 10 { "a" }
    else if d == 11 { "b" }
    else if d == 12 { "c" }
    else if d == 13 { "d" }
    else if d == 14 { "e" }
    else { "f" }
}

/// The decimal text of `n`.
pub fn decimal_string(n: u128) -> (r: String)
    ensures
        r@ == decimal(n as nat),
    decreases n,
{
    if n < 10 {
        String::from_str(digit_str(n))
    } else {
        let mut s = decimal_string(n / 10);
        s.append(digit_str(n % 10));
        s
    }
}

pub open spec fn account_text(a: AccountId) -> Seq<char> {
    "0x"@ + hex(a.bytes@)
}

/// An account as `0x` followed by its 64 hexadecimal digits.
pub fn account_string(a: &AccountId) -> (r: String)
    ensures
        r@ == account_text(*a),
{
    let mut s = String::from_str("0x");
    let mut i: usize = 0;
    while i < 32
        invariant
            0 <= i <= 32,
            a.bytes@.len() == 32,
            s@ == "0x"@ + hex(a.bytes@.take(i as int)),
        decreases 32 - i,
    {
        let b = a.bytes[i];
        proof {
            let t = a.bytes@.take(i as int + 1);
            assert(t.drop_last() =~= a.bytes@.take(i as int));
            assert(t.last() == b);
        }
        s.append(digit_str((b / 16) as u128));
        s.append(digit_str((b % 16) as u128));
        i = i + 1;
    }
    assert(a.bytes@.take(32) =~= a.bytes@);
    s
}

pub open spec fn status_text(s: ContractStatus) -> Seq<char> {
    match s {
        ContractStatus::Draft => "Draft"@,
        ContractStatus::UnderOffer => "UnderOffer"@,
        ContractStatus::Signing => "Signing"@,
        ContractStatus::Signed => "Signed"@,
        ContractStatus::Superseded => "Superseded"@,
        ContractStatus::Cancelled => "Cancelled"@,
        ContractStatus::Paused => "Paused"@,
    }
}

/// The name of a status.
pub fn status_str(s: ContractStatus) -> (r: &'static str)
    ensures
        r@ == status_text(s),
{
    match s {
        ContractStatus::Draft => "Draft",
        ContractStatus::UnderOffer => "UnderOffer",
        ContractStatus::Signing => "Signing",
        ContractStatus::Signed => "Signed",
        ContractStatus::Superseded => "Superseded",
        ContractStatus::Cancelled => "Cancelled",
        ContractStatus::Paused => "Paused",
    }
}

/// The name of a status as an owned string.
pub fn status_string(s: ContractStatus) -> (r: String)
    ensures
        r@ == status_text(s),
{
    String::from_str(status_str(s))
}

pub open spec fn currency_text(c: CurrencyCode) -> Seq<char> {
    match c {
        CurrencyCode::EUR => "EUR"@,
        CurrencyCode::GBP => "GBP"@,
        CurrencyCode::USD => "USD"@,
    }
}

/// The code of a currency.
pub fn currency_str(c: CurrencyCode) -> (r: &'static str)
    ensures
        r@ == currency_text(c),
{
    match c {
        CurrencyCode::EUR => "EUR",
        CurrencyCode::GBP => "GBP",
        CurrencyCode::USD => "USD",
    }
}

pub open spec fn country_text(c: Country) -> Seq<char> {
    match c {
        Country::UK => "UK"@,
        Country::USA => "USA"@,
        Country::AUSTRALIA => "AUSTRALIA"@,
        Country::FRANCE => "FRANCE"@,
        Country::GERMANY => "GERMANY"@,
        Country::ITALY => "ITALY"@,
    }
}

/// The name of a country.
pub fn country_str(c: Country) -> (r: &'static str)
    ensures
        r@ == country_text(c),
{
    match c {
        Country::UK => "UK",
        Country::USA => "USA",
        Country::AUSTRALIA => "AUSTRALIA",
        Country::FRANCE => "FRANCE",
        Country::GERMANY => "GERMANY",
        Country::ITALY => "ITALY",
    }
}

pub open spec fn offer_status_text(s: OfferStatus) -> Seq<char> {
    match s {
        OfferStatus::Pending => "Pending"@,
        OfferStatus::Accepted => "Accepted"@,
        OfferStatus::Rejected => "Rejected"@,
        OfferStatus::Cancelled => "Cancelled"@,
    }
}

/// The name of an offer status.
pub fn offer_status_str(s: OfferStatus) -> (r: &'static str)
    ensures
        r@ == offer_status_text(s),
{
    match s {
        OfferStatus::Pending => "Pending",
        OfferStatus::Accepted => "Accepted",
        OfferStatus::Rejected => "Rejected",
        OfferStatus::Cancelled => "Cancelled",
    }
}

/// A sum as its amount, a space and its currency code (`100 GBP`).
pub open spec fn money_text(m: Money) -> Seq<char> {
    decimal(m.amount as nat) + " "@ + currency_text(m.currency_code)
}

pub fn money_string(m: Money) -> (r: String)
    ensures
        r@ == money_text(m),
{
    let mut s = decimal_string(m.amount);
    s.append(" ");
    s.append(currency_str(m.currency_code));
    s
}

/// An optional sum: `None`, or the text of the sum.
pub open spec fn opt_money_text(m: Option<Money>) -> Seq<char> {
    match m {
        None => "None"@,
        Some(v) => money_text(v),
    }
}

pub fn opt_money_string(m: Option<Money>) -> (r: String)
    ensures
        r@ == opt_money_text(m),
{
    match m {
        None => String::from_str("None"),
        Some(v) => money_string(v),
    }
}

/// An optional date: `None`, or its decimal text.
pub open spec fn opt_date_text(d: Option<u64>) -> Seq<char> {
    match d {
        None => "None"@,
        Some(v) => decimal(v as nat),
    }
}

pub fn opt_date_string(d: Option<u64>) -> (r: String)
    ensures
        r@ == opt_date_text(d),
{
    match d {
        None => String::from_str("None"),
        Some(v) => decimal_string(v as u128),
    }
}

/// An optional timestamp written as an option: `None` or `Some(n)`.
pub open spec fn opt_stamp_text(d: Option<u64>) -> Seq<char> {
    match d {
        None => "None"@,
        Some(v) => "Some("@ + decimal(v as nat) + ")"@,
    }
}

pub fn opt_stamp_string(d: Option<u64>) -> (r: String)
    ensures
        r@ == opt_stamp_text(d),
{
    match d {
        None => String::from_str("None"),
        Some(v) => {
            let mut s = String::from_str("Some(");
            s.append(decimal_string(v as u128).as_str());
            s.append(")");
            s
        },
    }
}

/// An offer with all its parts.
pub open spec fn offer_text(o: Offer) -> Seq<char> {
    "Offer { offer: Money { amount: "@ + decimal(o.offer.amount as nat) + ", currency_code: "@
        + currency_text(o.offer.currency_code) + " }, offer_status: "@ + offer_status_text(
        o.offer_status,
    ) + ", offer_date: "@ + decimal(o.offer_date as nat) + " }"@
}

/// An optional offer: `None`, or `Some(...)` around the offer's text.
pub open spec fn opt_offer_text(o: Option<Offer>) -> Seq<char> {
    match o {
        None => "None"@,
        Some(v) => "Some("@ + offer_text(v) + ")"@,
    }
}

pub fn opt_offer_string(o: Option<Offer>) -> (r: String)
    ensures
        r@ == opt_offer_text(o),
{
    match o {
        None => String::from_str("None"),
        Some(v) => {
            let mut s = String::from_str("Some(");
            s.append("Offer { offer: Money { amount: ");
            s.append(decimal_string(v.offer.amount).as_str());
            s.append(", currency_code: ");
            s.append(currency_str(v.offer.currency_code));
            s.append(" }, offer_status: ");
            s.append(offer_status_str(v.offer_status));
            s.append(", offer_date: ");
            s.append(decimal_string(v.offer_date as u128).as_str());
            s.append(" }");
            s.append(")");
            s
        },
    }
}

pub open spec fn quoted(s: Seq<char>) -> Seq<char> {
    "\""@ + s + "\""@
}

/// An address with every line quoted.
pub open spec fn address_text(a: PropertyAddress) -> Seq<char> {
    "PropertyAddress { address_line1: "@ + quoted(a.address_line1@) + ", address_line2: "@
        + quoted(a.address_line2@) + ", city: "@ + quoted(a.city@) + ", post_code: "@ + quoted(
        a.post_code@,
    ) + ", county: "@ + quoted(a.county@) + ", country: "@ + country_text(a.country) + " }"@
}

fn append_quoted(s: &mut String, t: &String)
    ensures
        final(s)@ == old(s)@ + quoted(t@),
{
    s.append("\"");
    s.append(t.as_str());
    s.append("\"");
    assert(final(s)@ =~= old(s)@ + quoted(t@));
}

fn append_address(s: &mut String, a: &PropertyAddress)
    ensures
        final(s)@ == old(s)@ + address_text(*a),
{
    let ghost s0 = s@;
    s.append("PropertyAddress { address_line1: ");
    append_quoted(s, &a.address_line1);
    s.append(", address_line2: ");
    append_quoted(s, &a.address_line2);
    s.append(", city: ");
    append_quoted(s, &a.city);
    s.append(", post_code: ");
    append_quoted(s, &a.post_code);
    s.append(", county: ");
    append_quoted(s, &a.county);
    s.append(", country: ");
    s.append(country_str(a.country));
    s.append(" }");
    assert(s@ =~= s0 + address_text(*a));
}

pub fn address_string(a: &PropertyAddress) -> (r: String)
    ensures
        r@ == address_text(*a),
{
    let mut s = String::new();
    append_address(&mut s, a);
    assert(s@ =~= address_text(*a));
    s
}

/// A party with all its details.
pub open spec fn party_text(p: Party) -> Seq<char> {
    "Party { party_id: "@ + quoted(p.party_id@) + ", full_name: "@ + quoted(p.full_name@)
        + ", email: "@ + quoted(p.email@) + ", mobile: "@ + quoted(p.mobile@) + ", address: "@
        + address_text(p.address) + ", wallet_address: "@ + account_text(p.wallet_address)
        + ", signed_at: "@ + opt_stamp_text(p.signed_at) + " }"@
}

fn append_party(s: &mut String, p: &Party)
    ensures
        final(s)@ == old(s)@ + party_text(*p),
{
    let ghost s0 = s@;
    s.append("Party { party_id: ");
    append_quoted(s, &p.party_id);
    s.append(", full_name: ");
    append_quoted(s, &p.full_name);
    s.append(", email: ");
    append_quoted(s, &p.email);
    s.append(", mobile: ");
    append_quoted(s, &p.mobile);
    s.append(", address: ");
    append_address(s, &p.address);
    s.append(", wallet_address: ");
    s.append(account_string(&p.wallet_address).as_str());
    s.append(", signed_at: ");
    s.append(opt_stamp_string(p.signed_at).as_str());
    s.append(" }");
    assert(s@ =~= s0 + party_text(*p));
}

/// The parties' texts separated by `, `.
pub open spec fn joined_parties(ps: Seq<Party>) -> Seq<char>
    decreases ps.len(),
{
    if ps.len() == 0 {
        Seq::empty()
    } else if ps.len() == 1 {
        party_text(ps[0])
    } else {
        joined_parties(ps.drop_last()) + ", "@ + party_text(ps.last())
    }
}

/// A list of parties in brackets.
pub open spec fn parties_text(ps: Seq<Party>) -> Seq<char> {
    "["@ + joined_parties(ps) + "]"@
}

pub fn parties_string(ps: &Vec<Party>) -> (r: String)
    ensures
        r@ == parties_text(ps@),
{
    let mut s = String::from_str("[");
    let mut i: usize = 0;
    while i < ps.len()
        invariant
            0 <= i <= ps@.len(),
            s@ == "["@ + joined_parties(ps@.take(i as int)),
        decreases ps@.len() - i,
    {
        let ghost t = ps@.take(i as int + 1);
        proof {
            assert(t.drop_last() =~= ps@.take(i as int));
            assert(t.last() == ps@[i as int]);
        }
        if i > 0 {
            s.append(", ");
        }
        append_party(&mut s, &ps[i]);
        proof {
            if i == 0 {
                assert(ps@.take(0) =~= Seq::<Party>::empty());
                assert(t.len() == 1);
            }
            assert(s@ =~= "["@ + joined_parties(t));
        }
        i = i + 1;
    }
    assert(ps@.take(ps@.len() as int) =~= ps@);
    s.append("]");
    s
}

} // verus!
