use vstd::prelude::*;

use crate::digest::{parse_digest_text, Digest};
use crate::error::{
    classify_manifest_destination, classify_manifest_verification, BackendError, RegistryError,
    StorageDriverError,
};
use crate::text::join_with;

verus! {

/// A storage driver that forwards registry operations to a remote backend.
#[derive(Debug, Clone, PartialEq, Eq)]
pub struct ClientInterface {
    server: String,
}

impl ClientInterface {
    /// The address of the backend.
    pub closed spec fn spec_server(&self) -> Seq<char> {
        self.server@
    }

    /// A client for the backend at `server`.
    pub fn new(server: String) -> (r: Result<Self, RegistryError>)
        ensures
            r matches Ok(c) && c.spec_server() == server@,
    {
        Ok(ClientInterface { server })
    }

    /// The address of the backend.
    pub fn server(&self) -> (r: &str)
        ensures
            r@ == self.spec_server(),
    {
        self.server.as_str()
    }
}

/// A storage backend as the registry front end sees it.
pub trait RegistryStorage {
    /// Whether the repository `name` exists.
    fn has_repository(&self, name: &String) -> Result<bool, StorageDriverError>;

    /// Whether chunks of an upload can be processed one at a time as they
    /// arrive, instead of being buffered until the upload is complete.
    fn support_streaming(&self) -> bool;
}

/// Where one manifest write stands: its destination is being resolved, the
/// manifest is being written to it, the backend is verifying it, or it ended.
#[derive(Debug, Clone, PartialEq, Eq)]
pub enum ManifestWrite {
    Resolving,
    Writing,
    Verifying,
    /// Verified; the backend's digest text of the stored manifest.
    Verified(String),
    Rejected(RegistryError),
}

/// What happened at the current stage of a manifest write.
#[derive(Debug, Clone, PartialEq, Eq)]
pub enum ManifestEvent {
    DestinationResolved,
    DestinationFailed(BackendError),
    Written,
    WriteFailed,
    VerificationPassed(String),
    VerificationFailed(BackendError),
}

/// The stage a manifest write moves to on an event. Each stage moves on only
/// with its own success and ends rejected on its own failure; an event that
/// does not belong to the stage, or one after the end, is an internal error.
pub fn manifest_step(state: ManifestWrite, event: ManifestEvent) -> (r: ManifestWrite)
    ensures
        r == (match (state, event) {
            (ManifestWrite::Resolving, ManifestEvent::DestinationResolved) => ManifestWrite::Writing,
            (ManifestWrite::Resolving, ManifestEvent::DestinationFailed(e)) => ManifestWrite::Rejected(
                if e == BackendError::InvalidArgument {
                    RegistryError::InvalidName
                } else {
                    RegistryError::Internal
                },
            ),
            (ManifestWrite::Writing, ManifestEvent::Written) => ManifestWrite::Verifying,
            (ManifestWrite::Writing, ManifestEvent::WriteFailed) => ManifestWrite::Rejected(
                RegistryError::Internal,
            ),
            (ManifestWrite::Verifying, ManifestEvent::VerificationPassed(d)) => ManifestWrite::Verified(
                d,
            ),
            (ManifestWrite::Verifying, ManifestEvent::VerificationFailed(e)) => ManifestWrite::Rejected(
                if e == BackendError::InvalidArgument {
                    RegistryError::InvalidManifest
                } else {
                    RegistryError::Internal
                },
            ),
            (ManifestWrite::Verified(d), _) => ManifestWrite::Verified(d),
            (ManifestWrite::Rejected(e), _) => ManifestWrite::Rejected(e),
            _ => ManifestWrite::Rejected(RegistryError::Internal),
        }),
{
    match (state, event) {
        (ManifestWrite::Resolving, ManifestEvent::DestinationResolved) => ManifestWrite::Writing,
        (ManifestWrite::Resolving, ManifestEvent::DestinationFailed(e)) => ManifestWrite::Rejected(
            classify_manifest_destination(e),
        ),
        (ManifestWrite::Writing, ManifestEvent::Written) => ManifestWrite::Verifying,
        (ManifestWrite::Writing, ManifestEvent::WriteFailed) => ManifestWrite::Rejected(
            RegistryError::Internal,
        ),
        (ManifestWrite::Verifying, ManifestEvent::VerificationPassed(d)) => ManifestWrite::Verified(
            d,
        ),
        (ManifestWrite::Verifying, ManifestEvent::VerificationFailed(e)) => ManifestWrite::Rejected(
            classify_manifest_verification(e),
        ),
        (ManifestWrite::Verified(d), _) => ManifestWrite::Verified(d),
        (ManifestWrite::Rejected(e), _) => ManifestWrite::Rejected(e),
        _ => ManifestWrite::Rejected(RegistryError::Internal),
    }
}

/// The outcome of a manifest write that has ended: the verified digest text
/// or the error it was rejected with; one still in progress has no outcome.
pub fn manifest_outcome(state: ManifestWrite) -> (r: Option<Result<String, RegistryError>>)
    ensures
        r == (match state {
            ManifestWrite::Verified(d) => Some(Ok::<String, RegistryError>(d)),
            ManifestWrite::Rejected(e) => Some(Err::<String, RegistryError>(e)),
            _ => None,
        }),
{
    match state {
        ManifestWrite::Verified(d) => Some(Ok(d)),
        ManifestWrite::Rejected(e) => Some(Err(e)),
        _ => None,
    }
}

/// What storing a manifest reports, from what the manifest pipeline returned
/// for `name` and `tag`: the verified manifest's digest text, or the stage's
/// error. A digest the backend returns in a form that does not parse is an
/// internal error; no algorithm is assumed for it.
pub fn store_manifest_result(
    name: &str,
    tag: &str,
    verified: Result<String, RegistryError>,
) -> (r: Result<Digest, StorageDriverError>)
    ensures
        verified matches Ok(text) ==> match parse_digest_text(text@) {
            Some((a, h)) => r matches Ok(d) && d.algo == a && d.hash@ == h,
            None => r == Err::<Digest, StorageDriverError>(StorageDriverError::Internal),
        },
        verified == Err::<String, RegistryError>(RegistryError::InvalidName) ==> (r matches Err(
            StorageDriverError::InvalidName(n),
        ) && n@ == name@ + seq![':'] + tag@),
        verified == Err::<String, RegistryError>(RegistryError::InvalidManifest) ==> r == Err::<
            Digest,
            StorageDriverError,
        >(StorageDriverError::InvalidManifest),
        verified == Err::<String, RegistryError>(RegistryError::Internal) ==> r == Err::<
            Digest,
            StorageDriverError,
        >(StorageDriverError::Internal),
{
    match verified {
        Ok(text) => match Digest::parse(text.as_str()) {
            Ok(d) => Ok(d),
            Err(_) => Err(StorageDriverError::Internal),
        },
        Err(RegistryError::InvalidName) => Err(
            StorageDriverError::InvalidName(join_with(name, ':', tag)),
        ),
        Err(RegistryError::InvalidManifest) => Err(StorageDriverError::InvalidManifest),
        Err(RegistryError::Internal) => Err(StorageDriverError::Internal),
    }
}

/// The error for an upload whose write destination could not be resolved:
/// the repository and session are not valid together.
pub fn chunk_destination_error(name: &str, session_id: &str) -> (r: StorageDriverError)
    ensures
        r matches StorageDriverError::InvalidName(n) && n@ == name@ + seq![' '] + session_id@,
{
    StorageDriverError::InvalidName(join_with(name, ' ', session_id))
}

} // verus!
