use enclave_core::CredentialSource;
use enclave_core::EnclaveConfig;
use enclave_core::OsKeyRingConfig;

#[test]
fn zeroize_overwrites_every_secret_byte() {
    let mut cfg = OsKeyRingConfig::new(
        Some("/home/alice/ring.keyring".to_string()),
        Some(b"alice".to_vec()),
        Some(b"hunter2".to_vec()),
    );
    cfg.zeroize();
    assert_eq!(cfg.username(), &Some(vec![0u8; 5]));
    assert_eq!(cfg.password(), &Some(vec![0u8; 7]));
    assert_eq!(cfg.path(), &Some("/home/alice/ring.keyring".to_string()));
}

#[test]
fn zeroize_keeps_omitted_fields_omitted() {
    let mut cfg = OsKeyRingConfig::new(None, None, Some(b"pw".to_vec()));
    cfg.zeroize();
    assert_eq!(cfg.username(), &None);
    assert_eq!(cfg.password(), &Some(vec![0u8, 0u8]));
    assert_eq!(cfg.path(), &None);
}

#[test]
fn rendering_never_contains_the_secrets() {
    let cfg = OsKeyRingConfig::new(
        Some("/home/ring.keyring".to_string()),
        Some(b"bob".to_vec()),
        Some(b"hunter2".to_vec()),
    );
    let shown = cfg.render();
    assert!(!shown.contains("bob"));
    assert!(!shown.contains("hunter2"));
    assert_eq!(
        shown,
        "OsKeyRingConfig (path: Some(\"/home/ring.keyring\"), \
         username: Some(\"*********\"), password: Some(\"*********\"))"
    );
}

#[test]
fn rendering_masks_independently_of_secret_content() {
    let a = OsKeyRingConfig::new(None, Some(b"u1".to_vec()), Some(b"secret-one".to_vec()));
    let b = OsKeyRingConfig::new(None, Some(b"other".to_vec()), Some(b"two".to_vec()));
    assert_eq!(a.render(), b.render());
    assert_eq!(
        a.render(),
        "OsKeyRingConfig (path: None, username: Some(\"*********\"), password: Some(\"*********\"))"
    );
}

#[test]
fn omitted_credentials_mean_prompt_not_empty() {
    let cfg = OsKeyRingConfig::new(Some("/ring".to_string()), None, None);
    assert!(matches!(cfg.username_source(), CredentialSource::Prompt));
    assert!(matches!(cfg.password_source(), CredentialSource::Prompt));
}

#[test]
fn supplied_credentials_are_used_byte_for_byte() {
    let cfg = OsKeyRingConfig::new(None, Some(b"alice".to_vec()), Some(b"".to_vec()));
    match cfg.username_source() {
        CredentialSource::Supplied(bytes) => assert_eq!(bytes, b"alice".to_vec()),
        CredentialSource::Prompt => panic!("a supplied username must not be prompted for"),
    }
    match cfg.password_source() {
        CredentialSource::Supplied(bytes) => assert_eq!(bytes, Vec::<u8>::new()),
        CredentialSource::Prompt => panic!("an explicitly empty password is still supplied"),
    }
}

#[test]
fn configs_compare_field_for_field() {
    let a = OsKeyRingConfig::new(Some("/r".to_string()), Some(b"u".to_vec()), Some(b"p".to_vec()));
    let b = OsKeyRingConfig::new(Some("/r".to_string()), Some(b"u".to_vec()), Some(b"p".to_vec()));
    let c = OsKeyRingConfig::new(Some("/r".to_string()), Some(b"u".to_vec()), Some(b"q".to_vec()));
    let d = OsKeyRingConfig::new(None, Some(b"u".to_vec()), Some(b"p".to_vec()));
    assert!(a == b);
    assert!(a != c);
    assert!(a != d);
}

#[test]
fn clone_copies_the_fields() {
    let a = OsKeyRingConfig::new(Some("/r".to_string()), None, Some(b"p".to_vec()));
    let b = a.clone();
    assert!(a == b);
}

#[test]
fn enclave_config_renders_with_secrets_masked() {
    let cfg = EnclaveConfig::OsKeyRing(OsKeyRingConfig::new(
        None,
        None,
        Some(b"hunter2".to_vec()),
    ));
    assert_eq!(
        cfg.render(),
        "EnclaveConfig (OsKeyRingConfig (path: None, username: None, password: Some(\"*********\")))"
    );
    assert!(!cfg.render().contains("hunter2"));
    assert_eq!(
        EnclaveConfig::HardwareModule.render(),
        "EnclaveConfig (HardwareModule)"
    );
}

#[test]
fn enclave_config_zeroize_scrubs_the_payload() {
    let mut cfg = EnclaveConfig::OsKeyRing(OsKeyRingConfig::new(
        None,
        Some(b"alice".to_vec()),
        Some(b"hunter2".to_vec()),
    ));
    cfg.zeroize();
    match cfg {
        EnclaveConfig::OsKeyRing(inner) => {
            assert_eq!(inner.username(), &Some(vec![0u8; 5]));
            assert_eq!(inner.password(), &Some(vec![0u8; 7]));
        }
        EnclaveConfig::HardwareModule => panic!("zeroize must keep the variant"),
    }
}
