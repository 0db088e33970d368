//! Tests of the startup credential flow.

use quic_mux::creds::CredOutcome;
use quic_mux::creds::StoredCreds;
use quic_mux::creds::provision;

#[test]
fn loaded_credentials_are_used_as_stored() {
    let out = provision(StoredCreds::Loaded {
        cert_der: vec![1, 2, 3],
        key_der: vec![4, 5],
    });
    match out {
        CredOutcome::Use { cert_der, key_der, persist } => {
            assert_eq!(cert_der, vec![1, 2, 3]);
            assert_eq!(key_der, vec![4, 5]);
            assert!(!persist);
        }
        CredOutcome::Fatal => panic!("stored credentials must be used"),
    }
}

#[test]
fn unreadable_store_is_fatal() {
    assert!(matches!(provision(StoredCreds::Unreadable), CredOutcome::Fatal));
}

#[test]
fn fresh_pair_is_adopted_and_marked_for_persisting() {
    let out = quic_mux::creds::adopt_fresh(Some((vec![9], vec![8])));
    match out {
        CredOutcome::Use { cert_der, key_der, persist } => {
            assert_eq!(cert_der, vec![9]);
            assert_eq!(key_der, vec![8]);
            assert!(persist);
        }
        CredOutcome::Fatal => panic!("a fresh pair must be adopted"),
    }
    assert!(matches!(quic_mux::creds::adopt_fresh(None), CredOutcome::Fatal));
}

#[test]
fn missing_store_generates_a_fresh_pair_to_persist() {
    match provision(StoredCreds::Missing) {
        CredOutcome::Use { cert_der, key_der, persist } => {
            assert!(persist);
            assert!(!cert_der.is_empty());
            assert!(!key_der.is_empty());
            // DER-encoded structures start with a SEQUENCE tag
            assert_eq!(cert_der[0], 0x30);
        }
        CredOutcome::Fatal => panic!("generation must succeed"),
    }
}
