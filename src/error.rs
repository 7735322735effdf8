use vstd::prelude::*;

verus! {

/// Failures reported by a storage driver to the registry front end.
#[derive(Debug, Clone, PartialEq, Eq)]
pub enum StorageDriverError {
    /// The repository name (or name and reference) is not valid.
    InvalidName(String),
    /// Manifest content or its verification failed.
    InvalidManifest,
    /// The uploaded content does not match the declared digest.
    InvalidDigest,
    /// The operation is not permitted in this mode.
    Unsupported,
    /// A chunk does not sit where its declared range says it does.
    InvalidContentRange,
    /// The upload session or the repository is not known to the backend.
    InvalidNameOrSession,
    /// Any other backend, transport or local failure.
    Internal,
}

/// Errors of the manifest pipeline before they are turned into driver errors.
#[derive(Debug, Clone, Copy, PartialEq, Eq, Structural)]
pub enum RegistryError {
    InvalidName,
    InvalidManifest,
    Internal,
}

/// How a backend call failed: the status code category of the reply, or a
/// failure to reach the backend at all.
#[derive(Debug, Clone, Copy, PartialEq, Eq, Structural)]
pub enum BackendError {
    InvalidArgument,
    NotFound,
    OtherStatus,
    Transport,
}

/// Resolving the write destination of a manifest.
pub fn classify_manifest_destination(e: BackendError) -> (r: RegistryError)
    ensures
        r == (if e == BackendError::InvalidArgument {
            RegistryError::InvalidName
        } else {
            RegistryError::Internal
        }),
{
    match e {
        BackendError::InvalidArgument => RegistryError::InvalidName,
        _ => RegistryError::Internal,
    }
}

/// Verifying a manifest that was written.
pub fn classify_manifest_verification(e: BackendError) -> (r: RegistryError)
    ensures
        r == (if e == BackendError::InvalidArgument {
            RegistryError::InvalidManifest
        } else {
            RegistryError::Internal
        }),
{
    match e {
        BackendError::InvalidArgument => RegistryError::InvalidManifest,
        _ => RegistryError::Internal,
    }
}

/// Deleting a manifest by digest.
pub fn classify_manifest_deletion(e: BackendError) -> (r: StorageDriverError)
    ensures
        e == BackendError::InvalidArgument ==> r == StorageDriverError::Unsupported,
        e == BackendError::NotFound ==> r == StorageDriverError::InvalidManifest,
        e != BackendError::InvalidArgument && e != BackendError::NotFound ==> r
            == StorageDriverError::Internal,
{
    match e {
        BackendError::InvalidArgument => StorageDriverError::Unsupported,
        BackendError::NotFound => StorageDriverError::InvalidManifest,
        _ => StorageDriverError::Internal,
    }
}

/// Completing (finalising and verifying) a blob upload.
pub fn classify_upload_completion(e: BackendError) -> (r: StorageDriverError)
    ensures
        e == BackendError::InvalidArgument ==> r == StorageDriverError::InvalidDigest,
        e == BackendError::NotFound ==> r == StorageDriverError::InvalidNameOrSession,
        e != BackendError::InvalidArgument && e != BackendError::NotFound ==> r
            == StorageDriverError::Internal,
{
    match e {
        BackendError::InvalidArgument => StorageDriverError::InvalidDigest,
        BackendError::NotFound => StorageDriverError::InvalidNameOrSession,
        _ => StorageDriverError::Internal,
    }
}

/// Asking the backend for a new upload session in repository `name`.
pub fn classify_upload_request(e: BackendError, name: &str) -> (r: StorageDriverError)
    ensures
        e == BackendError::InvalidArgument ==> (r matches StorageDriverError::InvalidName(n)
            && n@ == name@),
        e != BackendError::InvalidArgument ==> r == StorageDriverError::Internal,
{
    match e {
        BackendError::InvalidArgument => StorageDriverError::InvalidName(name.to_owned()),
        _ => StorageDriverError::Internal,
    }
}

/// Deleting a blob: every failure is reported as an unknown digest.
pub fn classify_blob_deletion(_e: BackendError) -> (r: StorageDriverError)
    ensures
        r == StorageDriverError::InvalidDigest,
{
    StorageDriverError::InvalidDigest
}

} // verus!
