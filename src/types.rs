//! Plain data of the agreement: identities, money, offers, parties,
//! requests, responses and notifications.
use vstd::prelude::*;

verus! {

/// An opaque account identity of 32 bytes, compared by equality only.
#[derive(Clone, Copy, Debug, Eq)]
pub struct AccountId {
    pub bytes: [u8; 32],
}

/// Two identities are the same when their bytes are.
pub open spec fn same_account(a: AccountId, b: AccountId) -> bool {
    a.bytes@ == b.bytes@
}

impl PartialEq for AccountId {
    fn eq(&self, other: &AccountId) -> (r: bool)
        ensures
            r == same_account(*self, *other),
    {
        let mut i: usize = 0;
        while i < 32
            invariant
                0 <= i <= 32,
                self.bytes@.len() == 32,
                other.bytes@.len() == 32,
                forall|j: int| 0 <= j < i ==> self.bytes@[j] == other.bytes@[j],
            decreases 32 - i,
        {
            if self.bytes[i] != other.bytes[i] {
                return false;
            }
            i = i + 1;
        }
        assert(self.bytes@ =~= other.bytes@);
        true
    }
}

impl vstd::std_specs::cmp::PartialEqSpecImpl for AccountId {
    open spec fn obeys_eq_spec() -> bool {
        true
    }

    open spec fn eq_spec(&self, other: &AccountId) -> bool {
        same_account(*self, *other)
    }
}

/// Whether a string holds no characters.
pub fn is_blank(s: &String) -> (r: bool)
    ensures
        r == (s@.len() == 0),
{
    s.as_str().is_empty()
}

/// Structural failures: the operation is refused before any mutation.
#[derive(Clone, Copy, Debug, PartialEq, Eq, Structural)]
pub enum ContractError {
    Unauthorized,
    ContractPaused,
    InvalidInput,
    ProcessingFailed,
}

/// The lifecycle status of the agreement.
#[derive(Clone, Copy, Debug, PartialEq, Eq, Structural)]
pub enum ContractStatus {
    Draft,
    UnderOffer,
    Signing,
    Signed,
    Superseded,
    Cancelled,
    Paused,
}

/// A status from which no offer action or signature may move the agreement.
pub open spec fn is_terminal(s: ContractStatus) -> bool {
    s == ContractStatus::Signed || s == ContractStatus::Cancelled || s == ContractStatus::Superseded
}

#[derive(Clone, Copy, Debug, PartialEq, Eq, Structural)]
pub enum CurrencyCode {
    EUR,
    GBP,
    USD,
}

#[derive(Clone, Copy, Debug, PartialEq, Eq, Structural)]
pub enum Country {
    UK,
    USA,
    AUSTRALIA,
    FRANCE,
    GERMANY,
    ITALY,
}

#[derive(Clone, Copy, Debug, PartialEq, Eq, Structural)]
pub enum OfferAction {
    Submit,
    Accept,
    Reject,
    Cancel,
}

#[derive(Clone, Copy, Debug, PartialEq, Eq, Structural)]
pub enum OfferStatus {
    Pending,
    Accepted,
    Rejected,
    Cancelled,
}

/// An amount in a currency; two sums are equal when both parts are.
#[derive(Clone, Copy, Debug, PartialEq, Eq, Structural)]
pub struct Money {
    pub amount: u128,
    pub currency_code: CurrencyCode,
}

#[derive(Clone, Copy, Debug, PartialEq, Eq, Structural)]
pub struct Offer {
    pub offer: Money,
    pub offer_status: OfferStatus,
    pub offer_date: u64,
}

#[derive(Clone, Debug, PartialEq, Eq)]
pub struct PropertyAddress {
    pub address_line1: String,
    pub address_line2: String,
    pub city: String,
    pub post_code: String,
    pub county: String,
    pub country: Country,
}

/// The four required lines of an address are non-empty.
pub open spec fn address_is_valid(a: PropertyAddress) -> bool {
    a.address_line1@.len() > 0 && a.city@.len() > 0 && a.post_code@.len() > 0
        && a.county@.len() > 0
}

impl PropertyAddress {
    /// A copy equal to `self`.
    pub fn duplicate(&self) -> (r: PropertyAddress)
        ensures
            r == *self,
    {
        PropertyAddress {
            address_line1: self.address_line1.clone(),
            address_line2: self.address_line2.clone(),
            city: self.city.clone(),
            post_code: self.post_code.clone(),
            county: self.county.clone(),
            country: self.country,
        }
    }

    /// Whether the four required lines are non-empty.
    pub fn is_valid(&self) -> (r: bool)
        ensures
            r == address_is_valid(*self),
    {
        !is_blank(&self.address_line1) && !is_blank(&self.city) && !is_blank(&self.post_code)
            && !is_blank(&self.county)
    }

    /// The well-formed address that stands in for a missing or invalid one.
    pub fn placeholder() -> (r: PropertyAddress)
        ensures
            is_placeholder_address(r),
            address_is_valid(r),
    {
        proof {
            reveal_strlit("TBD");
        }
        PropertyAddress {
            address_line1: String::from_str("TBD"),
            address_line2: String::from_str("TBD"),
            city: String::from_str("TBD"),
            post_code: String::from_str("TBD"),
            county: String::from_str("TBD"),
            country: Country::UK,
        }
    }
}

/// Every line reads "TBD" and the country is the UK.
pub open spec fn is_placeholder_address(a: PropertyAddress) -> bool {
    &&& a.address_line1@ == "TBD"@
    &&& a.address_line2@ == "TBD"@
    &&& a.city@ == "TBD"@
    &&& a.post_code@ == "TBD"@
    &&& a.county@ == "TBD"@
    &&& a.country == Country::UK
}

/// A seller or buyer of the property.
#[derive(Clone, Debug, PartialEq, Eq)]
pub struct Party {
    pub party_id: String,
    pub full_name: String,
    pub email: String,
    pub mobile: String,
    pub address: PropertyAddress,
    pub wallet_address: AccountId,
    pub signed_at: Option<u64>,
}

/// A party may be registered when its id, name and email are non-empty.
pub open spec fn party_is_valid(p: Party) -> bool {
    p.party_id@.len() > 0 && p.full_name@.len() > 0 && p.email@.len() > 0
}

impl Party {
    /// A copy equal to `self`.
    pub fn duplicate(&self) -> (r: Party)
        ensures
            r == *self,
    {
        Party {
            party_id: self.party_id.clone(),
            full_name: self.full_name.clone(),
            email: self.email.clone(),
            mobile: self.mobile.clone(),
            address: self.address.duplicate(),
            wallet_address: self.wallet_address,
            signed_at: self.signed_at,
        }
    }

    /// Whether the id, name and email are non-empty.
    pub fn is_valid(&self) -> (r: bool)
        ensures
            r == party_is_valid(*self),
    {
        !is_blank(&self.party_id) && !is_blank(&self.full_name) && !is_blank(&self.email)
    }
}

/// What the caller of an operation is, and when and in which block it runs.
#[derive(Clone, Copy, Debug, PartialEq, Eq)]
pub struct CallContext {
    pub caller: AccountId,
    pub timestamp: u64,
    pub block_number: u64,
}

#[derive(Clone, Copy, Debug, PartialEq, Eq, Structural)]
pub struct ManageOfferRequest {
    pub action: OfferAction,
    pub offer: Option<Money>,
}

#[derive(Clone, Copy, Debug, PartialEq, Eq, Structural)]
pub struct SignContractRequest {}

/// A well-formed request that was either carried out or rejected on
/// business grounds, with the reason.
#[derive(Clone, Debug, PartialEq, Eq)]
pub struct ManageOfferResponse {
    pub success: bool,
    pub error_message: Option<String>,
}

#[derive(Clone, Debug, PartialEq, Eq)]
pub struct SignContractResponse {
    pub success: bool,
    pub error_message: Option<String>,
}

#[derive(Clone, Copy, Debug, PartialEq, Eq)]
pub struct ContractCreated {
    pub owner: AccountId,
}

#[derive(Clone, Copy, Debug, PartialEq, Eq)]
pub struct ContractPaused {
    pub by: AccountId,
}

#[derive(Clone, Copy, Debug, PartialEq, Eq)]
pub struct ContractUnpaused {
    pub by: AccountId,
}

#[derive(Clone, Copy, Debug, PartialEq, Eq)]
pub struct ManageOfferRequestSubmitted {
    pub submitter: AccountId,
    pub request_id: u64,
}

#[derive(Clone, Copy, Debug, PartialEq, Eq)]
pub struct SignContractRequestSubmitted {
    pub submitter: AccountId,
    pub request_id: u64,
}

#[derive(Clone, Copy, Debug, PartialEq, Eq)]
pub struct ManageOfferResponseGenerated {
    pub request_id: u64,
    pub success: bool,
}

#[derive(Clone, Copy, Debug, PartialEq, Eq)]
pub struct SignContractResponseGenerated {
    pub request_id: u64,
    pub success: bool,
}

/// One comparison of the caller against a registered wallet.
#[derive(Clone, Copy, Debug, PartialEq, Eq)]
pub struct AuthorizationAttempt {
    pub caller: AccountId,
    pub stored_address: AccountId,
    pub match_result: bool,
}

#[derive(Clone, Debug, PartialEq, Eq)]
pub struct FunctionCalled {
    pub caller: AccountId,
    pub function_name: String,
    pub request_id: u64,
    pub timestamp: u64,
}

#[derive(Clone, Debug, PartialEq, Eq)]
pub struct ContractDataChanged {
    pub field_name: String,
    pub changed_by: AccountId,
    pub old_value: String,
    pub new_value: String,
    pub block_number: u64,
    pub timestamp: u64,
}

/// A notification for outside observers, in the order it was raised.
#[derive(Clone, Debug, PartialEq, Eq)]
pub enum SaleEvent {
    ContractCreated(ContractCreated),
    ContractPaused(ContractPaused),
    ContractUnpaused(ContractUnpaused),
    ManageOfferRequestSubmitted(ManageOfferRequestSubmitted),
    SignContractRequestSubmitted(SignContractRequestSubmitted),
    ManageOfferResponseGenerated(ManageOfferResponseGenerated),
    SignContractResponseGenerated(SignContractResponseGenerated),
    AuthorizationAttempt(AuthorizationAttempt),
    FunctionCalled(FunctionCalled),
    ContractDataChanged(ContractDataChanged),
}

/// A notification seen as mathematical values.
pub enum EventView {
    FunctionCalled {
        caller: AccountId,
        function_name: Seq<char>,
        request_id: u64,
        timestamp: u64,
    },
    ContractDataChanged {
        field_name: Seq<char>,
        changed_by: AccountId,
        old_value: Seq<char>,
        new_value: Seq<char>,
        block_number: u64,
        timestamp: u64,
    },
    /// A notification that holds no text.
    Plain(SaleEvent),
}

impl View for SaleEvent {
    type V = EventView;

    open spec fn view(&self) -> EventView {
        match self {
            SaleEvent::FunctionCalled(f) => EventView::FunctionCalled {
                caller: f.caller,
                function_name: f.function_name@,
                request_id: f.request_id,
                timestamp: f.timestamp,
            },
            SaleEvent::ContractDataChanged(c) => EventView::ContractDataChanged {
                field_name: c.field_name@,
                changed_by: c.changed_by,
                old_value: c.old_value@,
                new_value: c.new_value@,
                block_number: c.block_number,
                timestamp: c.timestamp,
            },
            _ => EventView::Plain(*self),
        }
    }
}

pub open spec fn event_views(s: Seq<SaleEvent>) -> Seq<EventView> {
    s.map_values(|e: SaleEvent| e@)
}

} // verus!
