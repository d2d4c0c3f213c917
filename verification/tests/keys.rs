use enclave_core::AesModes;
use enclave_core::AesSizes;
use enclave_core::EcCurves;
use enclave_core::EcdsaAlgorithm;
use enclave_core::EnclaveKey;
use enclave_core::HmacAlgorithm;
use enclave_core::RsaMgf;
use enclave_core::WrappingKey;

#[test]
fn identical_parameters_give_equal_descriptors() {
    assert_eq!(
        EnclaveKey::Ecdsa(EcCurves::Secp256r1, EcdsaAlgorithm::Sha256),
        EnclaveKey::Ecdsa(EcCurves::Secp256r1, EcdsaAlgorithm::Sha256)
    );
    assert_eq!(EnclaveKey::Ed25519, EnclaveKey::Ed25519);
    assert_eq!(
        EnclaveKey::WrapKey(WrappingKey::Aes(AesSizes::Aes256, AesModes::Gcm)),
        EnclaveKey::WrapKey(WrappingKey::Aes(AesSizes::Aes256, AesModes::Gcm))
    );
    assert_eq!(
        EnclaveKey::Hmac(HmacAlgorithm::Sha384),
        EnclaveKey::Hmac(HmacAlgorithm::Sha384)
    );
    assert_eq!(
        EnclaveKey::RsaPss(RsaMgf::Sha512),
        EnclaveKey::RsaPss(RsaMgf::Sha512)
    );
}

#[test]
fn differing_parameters_give_distinct_descriptors() {
    assert_ne!(
        EnclaveKey::Ecdsa(EcCurves::Secp256r1, EcdsaAlgorithm::Sha256),
        EnclaveKey::Ecdsa(EcCurves::Secp384r1, EcdsaAlgorithm::Sha256)
    );
    assert_ne!(
        EnclaveKey::Ecdsa(EcCurves::Secp256r1, EcdsaAlgorithm::Sha256),
        EnclaveKey::Ecdsa(EcCurves::Secp256r1, EcdsaAlgorithm::Sha512)
    );
    assert_ne!(
        EnclaveKey::Ecdsa(EcCurves::Secp256k1, EcdsaAlgorithm::Sha1),
        EnclaveKey::Ecdh(EcCurves::Secp256k1)
    );
    assert_ne!(EnclaveKey::Ed25519, EnclaveKey::X25519);
    assert_ne!(
        EnclaveKey::RsaOaep(RsaMgf::Sha256),
        EnclaveKey::RsaPkcs15(RsaMgf::Sha256)
    );
    assert_ne!(
        EnclaveKey::WrapKey(WrappingKey::Aes(AesSizes::Aes128, AesModes::Ccm)),
        EnclaveKey::WrapKey(WrappingKey::Aes(AesSizes::Aes128, AesModes::GcmSiv))
    );
    assert_ne!(
        EnclaveKey::WrapKey(WrappingKey::Aes(AesSizes::Aes192, AesModes::Gcm)),
        EnclaveKey::WrapKey(WrappingKey::XChachaPoly1305)
    );
}

#[test]
fn descriptors_are_copy_and_reusable() {
    let k = EnclaveKey::Ecdh(EcCurves::Secp521r1);
    let copied = k;
    assert_eq!(k, copied);
}
