//! A property-sale agreement: parties, one offer, a signing workflow and a
//! lifecycle status, with every mutation recorded in a queryable audit log.

pub mod types;
pub mod text;
pub mod audit;
pub mod registry;
pub mod sale;
pub mod laws;

pub use audit::{AuditLogEntry, FieldChange};
pub use sale::PropertySale;
pub use types::{
    AccountId, AuthorizationAttempt, CallContext, ContractCreated, ContractDataChanged,
    ContractError, ContractPaused, ContractStatus, ContractUnpaused, Country, CurrencyCode,
    FunctionCalled, ManageOfferRequest, ManageOfferRequestSubmitted, ManageOfferResponse,
    ManageOfferResponseGenerated, Money, Offer, OfferAction, OfferStatus, Party,
    PropertyAddress, SaleEvent, SignContractRequest, SignContractRequestSubmitted,
    SignContractResponse, SignContractResponseGenerated,
};

