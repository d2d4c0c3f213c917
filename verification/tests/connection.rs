use enclave_core::CredentialSource;
use enclave_core::EnclaveConfig;
use enclave_core::EnclaveError;
use enclave_core::EnclaveErrorKind;
use enclave_core::EnclaveLike;
use enclave_core::EnclaveResult;
use enclave_core::OsKeyRingConfig;

/// A minimal software backend for exercising the connection contract: it
/// accepts only the OS keyring variant and records whether it would have
/// prompted for each credential.
struct RecordingKeyRing {
    prompted_for_username: bool,
    prompted_for_password: bool,
}

impl EnclaveLike for RecordingKeyRing {
    fn connect(config: EnclaveConfig) -> EnclaveResult<Self> {
        let mut config = config;
        let result = match &config {
            EnclaveConfig::OsKeyRing(inner) => {
                let prompted_for_username =
                    matches!(inner.username_source(), CredentialSource::Prompt);
                let prompted_for_password =
                    matches!(inner.password_source(), CredentialSource::Prompt);
                Ok(RecordingKeyRing {
                    prompted_for_username,
                    prompted_for_password,
                })
            }
            EnclaveConfig::HardwareModule => Err(EnclaveError::from_msg(
                EnclaveErrorKind::ConnectionFailure {
                    msg: "no hardware module is attached".to_string(),
                },
                "dispatching the configuration".to_string(),
            )),
        };
        config.zeroize();
        result
    }

    fn close(self) {}
}

#[test]
fn path_only_config_requests_prompting_for_both_credentials() {
    let config = EnclaveConfig::OsKeyRing(OsKeyRingConfig::new(
        Some("/home/ring.keyring".to_string()),
        None,
        None,
    ));
    let conn = RecordingKeyRing::connect(config).unwrap();
    assert!(conn.prompted_for_username);
    assert!(conn.prompted_for_password);
    conn.close();
}

#[test]
fn supplied_credentials_are_not_prompted_for() {
    let config = EnclaveConfig::OsKeyRing(OsKeyRingConfig::new(
        None,
        Some(b"bob".to_vec()),
        Some(b"hunter2".to_vec()),
    ));
    let conn = RecordingKeyRing::connect(config).unwrap();
    assert!(!conn.prompted_for_username);
    assert!(!conn.prompted_for_password);
    conn.close();
}

#[test]
fn a_failed_connection_reports_through_the_taxonomy() {
    let err = match RecordingKeyRing::connect(EnclaveConfig::HardwareModule) {
        Ok(_) => panic!("connecting to an absent hardware module must fail"),
        Err(e) => e,
    };
    assert!(matches!(
        err.kind(),
        EnclaveErrorKind::ConnectionFailure { .. }
    ));
    assert_eq!(
        err.render(),
        "Error: An error occurred while connecting to the enclave: no hardware module is attached\n\
         Caused by: dispatching the configuration\n"
    );
}
