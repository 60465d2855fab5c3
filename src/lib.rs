//! A permissioned registry of claims: references to off-chain documents
//! together with a content hash, recorded under access control.
//!
//! Two independent variants are offered:
//! - [`owner_registry`]: one registry controlled by a single owner, with a
//!   two-phase handover of control and claims keyed by a digest of their id;
//! - [`org_registry`]: claims grouped under named organizations, written by
//!   any current member.
pub mod digest;
pub mod error;
pub mod org_registry;
pub mod owner_registry;
pub mod principal;

pub use error::ErrorCode;
pub use org_registry::{OrgClaim, OrgRegistry, Organization};
pub use owner_registry::{
    accept_ownership, add_claim, get_claims, initialize, record_claim, renounce_ownership,
    transfer_ownership, AcceptOwnership, AddClaim, Claim, GetClaims, Initialize, Ownership,
    ProgramData, RenounceOwnership, TransferOwnership,
};
pub use principal::Principal;
