//! Canonical, domain-separated structural hashing for zkVM execution
//! receipts.
//!
//! The crate models execution claims (`ReceiptClaim` and its parts), the
//! polymorphic receipt envelope that carries a claim under one of several
//! proof strategies, and the tagged hashing combinators that commit to those
//! structures as a single 32-byte digest. Hashing itself is an abstract
//! capability: every routine is generic over a [`sha::Sha256`] backend
//! supplied by the caller, and every contract is stated against that
//! backend's abstract hash function.

pub mod digest;
pub mod sha;
pub mod tagged;
pub mod exit_code;
pub mod digestible;
pub mod claim;
pub mod receipt;
pub mod seal;
