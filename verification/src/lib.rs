//! Construction, fee balancing and signing of single-signature
//! pay-to-public-key-hash Bitcoin transactions.
//!
//! - [`tx`] holds the data: spendable outputs, payments, addresses, the
//!   transaction, and the errors.
//! - [`assemble`] selects the outputs to spend and builds the unsigned
//!   transaction for a given fee.
//! - [`der`] turns a raw signature into its DER form.
//! - [`sign`] computes the digest of each input and puts the signatures into
//!   the unlocking scripts.
//! - [`fee`] finds the fee that agrees with the size of the signed
//!   transaction.
//! - [`consensus`] holds what the `bitcoin` crate computes for these: wire
//!   form, signature digest, script push.
//! - [`address`], [`network`], [`principal`] and [`encoding`] read and write
//!   the small things around a build.
//!
//! Every function is total on the inputs that its `requires` admits and is
//! proved against the model that its `ensures` names.

pub mod address;
pub mod assemble;
pub mod consensus;
pub mod der;
pub mod encoding;
pub mod fee;
pub mod network;
pub mod principal;
pub mod sign;
pub mod tx;
pub mod utils;
