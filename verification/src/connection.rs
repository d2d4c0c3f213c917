//! The enclave connection contract.
//!
//! Every backend — an OS keyring driver, a hardware security module driver —
//! implements this two-operation surface for its configuration variant.
//! Callers use it without per-backend knowledge.

use crate::config::EnclaveConfig;
use crate::errors::EnclaveError;
use vstd::prelude::*;

verus! {

/// Typical result of performing an enclave operation or sending an enclave
/// message.
pub type EnclaveResult<T> = Result<T, EnclaveError>;

/// The contract every enclave backend implements, so that callers can use
/// any enclave without diving into the details of each unique
/// configuration. This trait is meant to be usable by the non-security
/// minded, and hard to misuse.
///
/// The contract is synchronous and stateless: no reconnects, retries,
/// pooling, timeouts or background tasks — such policies belong to the
/// caller, since they differ drastically between a local OS keyring and a
/// network-attached hardware module. Each successful `connect` yields an
/// exclusively owned handle. A backend must not leak a partially
/// initialized handle on failure: whatever a failed attempt acquired is
/// released before the error is returned. A backend must also scrub the
/// secrets the configuration holds ([`EnclaveConfig::zeroize`]) on every
/// exit path, success or failure.
pub trait EnclaveLike: Sized {
    /// Establishes a connection to the enclave the configuration selects.
    /// Every backend-native failure is reported through the contract's
    /// error taxonomy.
    fn connect(config: EnclaveConfig) -> EnclaveResult<Self>;

    /// Closes the connection. Consuming the handle guarantees a closed
    /// connection cannot be used again.
    fn close(self);
}

} // verus!
