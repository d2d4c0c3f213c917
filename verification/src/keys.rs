//! The catalog of key and algorithm types a backend may support.
//!
//! These are pure descriptors with no behavior: a caller states intent
//! ("an Ed25519 signing key", "an AES-256-GCM wrapping key") and a backend
//! answers, at connection or key-creation time, whether it supports the
//! combination. Backends must reject unsupported combinations with a typed
//! error rather than silently substituting a different algorithm.
//!
//! The set is closed and versioned: adding a key type is a breaking contract
//! change, never a runtime extension point, because every backend must be
//! audited before a new variant is accepted. Legacy algorithms (SHA-1 in any
//! role) remain representable for interoperation with legacy systems, but
//! are discouraged; the catalog names the hazard without enforcing a ban.

use vstd::prelude::*;

verus! {

/// Valid key types that can be created in an enclave.
///
/// Not all enclaves support all key types. Review the documentation of the
/// respective enclave for its capabilities. Two descriptors built with the
/// same parameters are the same descriptor: equality compares every
/// parameter.
#[derive(Clone, Copy, Debug, PartialEq, Eq, Structural)]
pub enum EnclaveKey {
    /// Twisted Edwards signing key
    Ed25519,
    /// Key-exchange key on Curve25519
    X25519,
    /// Elliptic curve Diffie-Hellman key-exchange key
    Ecdh(EcCurves),
    /// Elliptic curve signing key
    Ecdsa(EcCurves, EcdsaAlgorithm),
    /// RSA encryption key with Optimal Asymmetric Encryption Padding
    RsaOaep(RsaMgf),
    /// RSA signing key using the legacy PKCS#1 v1.5 signatures (ASN.1 DER
    /// encoded). Strongly consider using Ecdsa, Ed25519 or RsaPss instead.
    RsaPkcs15(RsaMgf),
    /// RSASSA-PSS: probabilistic signature scheme based on the RSASP1 and
    /// RSAVP1 primitives with the EMSA-PSS encoding method.
    RsaPss(RsaMgf),
    /// Key for use with hash-based message authentication code tags
    Hmac(HmacAlgorithm),
    /// Key for encrypting/decrypting (wrapping) other keys
    WrapKey(WrappingKey),
}

/// Valid algorithms for wrapping data.
#[derive(Clone, Copy, Debug, PartialEq, Eq, Structural)]
pub enum WrappingKey {
    /// AES encryption algorithm
    Aes(AesSizes, AesModes),
    /// XChaCha20-Poly1305 encryption algorithm
    XChachaPoly1305,
}

/// Valid key sizes for the AES algorithm.
#[derive(Clone, Copy, Debug, PartialEq, Eq, Structural)]
pub enum AesSizes {
    /// AES with 128 bit keys
    Aes128,
    /// AES with 192 bit keys
    Aes192,
    /// AES with 256 bit keys
    Aes256,
}

/// Valid AEAD modes for AES.
#[derive(Clone, Copy, Debug, PartialEq, Eq, Structural)]
pub enum AesModes {
    /// Counter with CBC-MAC mode, a NIST approved mode of operation
    Ccm,
    /// Galois counter mode, a NIST approved mode of operation
    Gcm,
    /// Galois counter mode with synthetic IV, as defined in RFC 8452
    GcmSiv,
}

/// Valid curves for elliptic curve operations.
#[derive(Clone, Copy, Debug, PartialEq, Eq, Structural)]
pub enum EcCurves {
    /// NIST P-256 curve
    Secp256r1,
    /// NIST P-384 curve
    Secp384r1,
    /// NIST P-521 curve
    Secp521r1,
    /// Koblitz 256 curve
    Secp256k1,
}

/// Valid hash algorithms for ECDSA signatures.
#[derive(Clone, Copy, Debug, PartialEq, Eq, Structural)]
pub enum EcdsaAlgorithm {
    /// Sign/verify ECC signatures using SHA-1. Only use for legacy
    /// purposes, as SHA-1 is considered broken.
    Sha1,
    /// Sign/verify ECC signatures using SHA2-256
    Sha256,
    /// Sign/verify ECC signatures using SHA2-384
    Sha384,
    /// Sign/verify ECC signatures using SHA2-512
    Sha512,
}

/// Valid hash algorithms for HMAC keys.
#[derive(Clone, Copy, Debug, PartialEq, Eq, Structural)]
pub enum HmacAlgorithm {
    /// Sign/verify HMAC tags using SHA-1. Only use for legacy purposes, as
    /// SHA-1 is considered broken.
    Sha1,
    /// Sign/verify HMAC tags using SHA2-256
    Sha256,
    /// Sign/verify HMAC tags using SHA2-384
    Sha384,
    /// Sign/verify HMAC tags using SHA2-512
    Sha512,
}

/// Mask generation functions for RSA padding schemes.
#[derive(Clone, Copy, Debug, PartialEq, Eq, Structural)]
pub enum RsaMgf {
    /// Mask generation with SHA-1. Only use for legacy purposes, as SHA-1
    /// is considered broken.
    Sha1,
    /// Mask generation with SHA2-256
    Sha256,
    /// Mask generation with SHA2-384
    Sha384,
    /// Mask generation with SHA2-512
    Sha512,
}

/// Law: key descriptors compare by their parameters. Two descriptors built
/// from identical parameters are equal; a differing curve, hash, mask
/// generation function, size or mode makes them distinct.
pub proof fn lemma_key_descriptors_compare_by_parameters(
    c1: EcCurves,
    h1: EcdsaAlgorithm,
    c2: EcCurves,
    h2: EcdsaAlgorithm,
    m1: RsaMgf,
    m2: RsaMgf,
    hm1: HmacAlgorithm,
    hm2: HmacAlgorithm,
    w1: WrappingKey,
    w2: WrappingKey,
    s1: AesSizes,
    s2: AesSizes,
    a1: AesModes,
    a2: AesModes,
)
    ensures
        EnclaveKey::Ecdsa(c1, h1) == EnclaveKey::Ecdsa(c2, h2) <==> (c1 == c2 && h1 == h2),
        EnclaveKey::Ecdh(c1) == EnclaveKey::Ecdh(c2) <==> c1 == c2,
        EnclaveKey::RsaOaep(m1) == EnclaveKey::RsaOaep(m2) <==> m1 == m2,
        EnclaveKey::RsaPkcs15(m1) == EnclaveKey::RsaPkcs15(m2) <==> m1 == m2,
        EnclaveKey::RsaPss(m1) == EnclaveKey::RsaPss(m2) <==> m1 == m2,
        EnclaveKey::Hmac(hm1) == EnclaveKey::Hmac(hm2) <==> hm1 == hm2,
        EnclaveKey::WrapKey(w1) == EnclaveKey::WrapKey(w2) <==> w1 == w2,
        WrappingKey::Aes(s1, a1) == WrappingKey::Aes(s2, a2) <==> (s1 == s2 && a1 == a2),
        EnclaveKey::Ecdsa(c1, h1) != EnclaveKey::Ecdh(c1),
{
}

} // verus!
