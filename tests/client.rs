use trow::client::{chunk_destination_error, store_manifest_result, ClientInterface};
use trow::digest::DigestAlgorithm;
use trow::error::{
    classify_blob_deletion, classify_manifest_deletion, classify_manifest_destination,
    classify_manifest_verification, classify_upload_completion, classify_upload_request,
    BackendError, RegistryError, StorageDriverError,
};
use trow::probe::{health_response, readiness_response, ProbeOutcome};

const HEX64: &str = "0123456789abcdef0123456789abcdef0123456789abcdef0123456789abcdef";

#[test]
fn client_keeps_its_server() {
    let c = ClientInterface::new("http://127.0.0.1:51000".to_string()).unwrap();
    assert_eq!(c.server(), "http://127.0.0.1:51000");
}

#[test]
fn stored_manifest_digest_is_parsed() {
    let d = store_manifest_result("repo", "latest", Ok(format!("sha256:{}", HEX64))).unwrap();
    assert_eq!(d.algo, DigestAlgorithm::Sha256);
    assert_eq!(d.hash, HEX64);
}

#[test]
fn unparsable_stored_digest_fails_closed() {
    assert_eq!(
        store_manifest_result("repo", "latest", Ok(format!("sha1:{}", HEX64))),
        Err(StorageDriverError::Internal)
    );
    assert_eq!(
        store_manifest_result("repo", "latest", Ok(HEX64.to_string())),
        Err(StorageDriverError::Internal)
    );
}

#[test]
fn manifest_store_errors_are_mapped() {
    assert_eq!(
        store_manifest_result("repo", "latest", Err(RegistryError::InvalidName)),
        Err(StorageDriverError::InvalidName("repo:latest".to_string()))
    );
    assert_eq!(
        store_manifest_result("repo", "latest", Err(RegistryError::InvalidManifest)),
        Err(StorageDriverError::InvalidManifest)
    );
    assert_eq!(
        store_manifest_result("repo", "latest", Err(RegistryError::Internal)),
        Err(StorageDriverError::Internal)
    );
}

#[test]
fn manifest_stage_errors_are_classified() {
    assert_eq!(
        classify_manifest_destination(BackendError::InvalidArgument),
        RegistryError::InvalidName
    );
    assert_eq!(
        classify_manifest_destination(BackendError::NotFound),
        RegistryError::Internal
    );
    assert_eq!(
        classify_manifest_verification(BackendError::InvalidArgument),
        RegistryError::InvalidManifest
    );
    assert_eq!(
        classify_manifest_verification(BackendError::Transport),
        RegistryError::Internal
    );
}

#[test]
fn deletion_errors_are_classified() {
    assert_eq!(
        classify_manifest_deletion(BackendError::InvalidArgument),
        StorageDriverError::Unsupported
    );
    assert_eq!(
        classify_manifest_deletion(BackendError::NotFound),
        StorageDriverError::InvalidManifest
    );
    assert_eq!(
        classify_manifest_deletion(BackendError::OtherStatus),
        StorageDriverError::Internal
    );
    assert_eq!(
        classify_blob_deletion(BackendError::Transport),
        StorageDriverError::InvalidDigest
    );
}

#[test]
fn upload_errors_are_classified() {
    assert_eq!(
        classify_upload_completion(BackendError::InvalidArgument),
        StorageDriverError::InvalidDigest
    );
    assert_eq!(
        classify_upload_completion(BackendError::NotFound),
        StorageDriverError::InvalidNameOrSession
    );
    assert_eq!(
        classify_upload_completion(BackendError::Transport),
        StorageDriverError::Internal
    );
    assert_eq!(
        classify_upload_request(BackendError::InvalidArgument, "bad name"),
        StorageDriverError::InvalidName("bad name".to_string())
    );
    assert_eq!(
        classify_upload_request(BackendError::NotFound, "repo"),
        StorageDriverError::Internal
    );
    assert_eq!(
        chunk_destination_error("repo", "1234"),
        StorageDriverError::InvalidName("repo 1234".to_string())
    );
}

#[test]
fn probes_report_rather_than_raise() {
    let h = health_response(ProbeOutcome::Unreachable);
    assert!(!h.is_healthy);
    assert_eq!(h.message, "Failed to connect to registry");
    let h = health_response(ProbeOutcome::Answered("fine".to_string()));
    assert!(h.is_healthy);
    assert_eq!(h.message, "fine");
    let r = readiness_response(ProbeOutcome::Failed("status: Unavailable".to_string()));
    assert!(!r.is_ready);
    assert_eq!(r.message, "status: Unavailable");
    let r = readiness_response(ProbeOutcome::Answered("ready".to_string()));
    assert!(r.is_ready);
}

use trow::client::{manifest_outcome, manifest_step, ManifestEvent, ManifestWrite};

#[test]
fn manifest_write_succeeds_through_each_stage() {
    let s = manifest_step(ManifestWrite::Resolving, ManifestEvent::DestinationResolved);
    assert_eq!(s, ManifestWrite::Writing);
    let s = manifest_step(s, ManifestEvent::Written);
    assert_eq!(s, ManifestWrite::Verifying);
    assert_eq!(manifest_outcome(s.clone()), None);
    let digest = format!("sha256:{}", HEX64);
    let s = manifest_step(s, ManifestEvent::VerificationPassed(digest.clone()));
    assert_eq!(s, ManifestWrite::Verified(digest.clone()));
    assert_eq!(manifest_outcome(s), Some(Ok(digest)));
}

#[test]
fn manifest_write_failures_are_classified_per_stage() {
    assert_eq!(
        manifest_step(
            ManifestWrite::Resolving,
            ManifestEvent::DestinationFailed(BackendError::InvalidArgument)
        ),
        ManifestWrite::Rejected(RegistryError::InvalidName)
    );
    assert_eq!(
        manifest_step(
            ManifestWrite::Resolving,
            ManifestEvent::DestinationFailed(BackendError::Transport)
        ),
        ManifestWrite::Rejected(RegistryError::Internal)
    );
    assert_eq!(
        manifest_step(ManifestWrite::Writing, ManifestEvent::WriteFailed),
        ManifestWrite::Rejected(RegistryError::Internal)
    );
    assert_eq!(
        manifest_step(
            ManifestWrite::Verifying,
            ManifestEvent::VerificationFailed(BackendError::InvalidArgument)
        ),
        ManifestWrite::Rejected(RegistryError::InvalidManifest)
    );
    assert_eq!(
        manifest_step(ManifestWrite::Writing, ManifestEvent::DestinationResolved),
        ManifestWrite::Rejected(RegistryError::Internal)
    );
    let done = ManifestWrite::Rejected(RegistryError::InvalidName);
    assert_eq!(manifest_step(done.clone(), ManifestEvent::Written), done);
    assert_eq!(
        manifest_outcome(done),
        Some(Err(RegistryError::InvalidName))
    );
}
