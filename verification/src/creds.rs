//! The startup credential flow: serve with the persisted certificate and
//! key, generate and persist a fresh self-signed pair when none is stored
//! yet, and fail fatally on any other read error — the process cannot serve
//! without credentials. The file reads and writes themselves stay outside;
//! this module decides, and makes the one generation call.

use vstd::prelude::*;

verus! {

/// What the credential store held at startup.
pub enum StoredCreds {
    /// Both artifacts were read back: certificate and key, DER form.
    Loaded { cert_der: Vec<u8>, key_der: Vec<u8> },
    /// Nothing is stored yet: the first run.
    Missing,
    /// The store exists but could not be read.
    Unreadable,
}

/// The decided credential flow.
pub enum CredOutcome {
    /// Serve with this pair; persist it first when it is freshly generated.
    Use { cert_der: Vec<u8>, key_der: Vec<u8>, persist: bool },
    /// No credentials can be had: fatal at startup.
    Fatal,
}

/// Relies on rcgen::generate_simple_self_signed and the DER serialization of
/// its result: a freshly generated self-signed certificate and private key
/// for the given host. The key is random, so nothing is promised of the
/// bytes. The host is pinned to the one name this flow serves: rcgen takes
/// any string as a DNS name unvalidated, and its DER writer panics on a
/// non-ASCII one, so an unconstrained host is not admissible here.
#[verifier::external_body]
fn generate_self_signed(host: &str) -> (r: Option<(Vec<u8>, Vec<u8>)>)
    requires
        host@ == "localhost"@,
{
    match rcgen::generate_simple_self_signed(vec![host.to_string()]) {
        Ok(cert) => {
            let key = cert.serialize_private_key_der();
            match cert.serialize_der() {
                Ok(c) => Some((c, key)),
                Err(_) => None,
            }
        },
        Err(_) => None,
    }
}

/// What a generation attempt decides: a fresh pair is used and must be
/// persisted; a failed generation is fatal.
pub fn adopt_fresh(fresh: Option<(Vec<u8>, Vec<u8>)>) -> (r: CredOutcome)
    ensures
        fresh matches Some((c, k)) ==> r == (CredOutcome::Use {
            cert_der: c,
            key_der: k,
            persist: true,
        }),
        fresh is None ==> r is Fatal,
{
    match fresh {
        Some((cert_der, key_der)) => CredOutcome::Use { cert_der, key_der, persist: true },
        None => CredOutcome::Fatal,
    }
}

/// Decide the credential flow from what the store held: a loaded pair is
/// used as it is; a missing store gets a freshly generated "localhost" pair
/// that must be persisted; any other read failure, or a failed generation,
/// is fatal.
pub fn provision(stored: StoredCreds) -> (r: CredOutcome)
    ensures
        stored matches StoredCreds::Loaded { cert_der, key_der } ==> r == (CredOutcome::Use {
            cert_der,
            key_der,
            persist: false,
        }),
        stored is Unreadable ==> r is Fatal,
        stored is Missing ==> (r is Fatal || (r matches CredOutcome::Use { persist, .. }
            && persist)),
{
    match stored {
        StoredCreds::Loaded { cert_der, key_der } => CredOutcome::Use {
            cert_der,
            key_der,
            persist: false,
        },
        StoredCreds::Missing => adopt_fresh(generate_self_signed("localhost")),
        StoredCreds::Unreadable => CredOutcome::Fatal,
    }
}

} // verus!
