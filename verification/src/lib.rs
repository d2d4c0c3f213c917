//! A portable abstraction layer for secure enclaves: hardware or software
//! modules that hold private key material and perform cryptographic
//! operations without exposing raw keys to the calling process.
//!
//! Enclaves are assumed to be specialized crypto modules, usually in
//! hardware, that have been audited for compliance and security. These
//! should be used for key storage and crypto operations to better protect
//! against side channel attacks and key extraction methods. The downside to
//! hardware enclaves is portability: private keys usually cannot be removed
//! from the enclave, which presents a problem for backup and recovery.
//! Software enclaves (such as an operating system's keyring) do not provide
//! the same guarantees but are portable. The best approach is a combination:
//! for example, use the OS keyring to store the credentials needed to
//! connect to a hardware enclave.
//!
//! This crate defines the parts that must stay stable across radically
//! different backends: the structured error taxonomy with causal chaining
//! ([`EnclaveErrorKind`], [`EnclaveError`]), the sensitive configuration
//! model, the catalog of supported key and algorithm types, and the
//! two-operation connection contract. Concrete backend drivers are separate
//! modules that implement the contract.

mod config;
mod connection;
mod errors;
mod keys;

pub use config::lemma_render_hides_secrets;
pub use config::spec_all_zero;
pub use config::spec_masked;
pub use config::spec_scrubbed;
pub use config::CredentialSource;
pub use config::EnclaveConfig;
pub use config::OsKeyRingConfig;
pub use connection::EnclaveLike;
pub use connection::EnclaveResult;
pub use errors::lemma_wrap_renders_one_more_entry;
pub use errors::spec_rendered_upto;
pub use errors::EnclaveError;
pub use errors::EnclaveErrorKind;
pub use errors::OS_STATUS_ACCESS_DENIED;
pub use errors::OS_STATUS_ITEM_NOT_FOUND;
pub use keys::lemma_key_descriptors_compare_by_parameters;
pub use keys::AesModes;
pub use keys::AesSizes;
pub use keys::EcCurves;
pub use keys::EcdsaAlgorithm;
pub use keys::EnclaveKey;
pub use keys::HmacAlgorithm;
pub use keys::RsaMgf;
pub use keys::WrappingKey;
