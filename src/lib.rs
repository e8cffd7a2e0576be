//! Proof of domain ownership by challenge-response over DNS TXT records.
//!
//! The library holds the pending challenges, decides the outcome of a
//! verification attempt from what DNS and the remote registry answered, and
//! derives the signing identity that authorises the registry call.

pub mod cache;
pub mod challenge;
pub mod identity;
pub mod verification;

pub use cache::Cache;
pub use challenge::create_verification;
pub use identity::{AppIdentity, IdentityError, Signature};
pub use verification::{
    create_record_request, finish_verification, outcome_of_reply, verify, RecordCheck,
    VerificationOutcome,
};
