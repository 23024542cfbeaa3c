use vstd::prelude::*;

use crate::hashes::HashType;

verus! {

/// How a single index call failed, normalized from the transport.
#[derive(Debug, Clone, Copy)]
pub enum TransportError {
    /// The package, version or file is absent from the index.
    NotFound,
    /// Any other non-success status, with its code.
    HttpError(u16),
    /// No response was obtained at all.
    ConnectionError,
    /// The content could not be decoded as the expected text or byte form.
    Malformed,
}

/// A failure of the chain of trust: signatures, content hashes, or the
/// metadata a signature was supposed to cover.
#[derive(Debug, Clone)]
pub enum TrustError {
    /// No configured key verified the fetched signature.
    SignatureInvalid,
    /// Signature checking is required but the manifest names no signature
    /// file for its hash manifest.
    MissingSignature,
    /// The digest recorded for the artifact does not match its bytes.
    HashMismatch(HashType),
    /// The manifest's id or version is not the requested one.
    ManifestMismatch,
}

/// The requested platform or the archive's packaging cannot be handled.
#[derive(Debug, Clone, Copy)]
pub enum SupportError {
    /// No hashes are recorded for the requested target.
    UnsupportedPlatform,
    /// The archive is not gzip-compressed, tar-packaged.
    UnsupportedArchive,
}

/// The archive itself is malformed or adversarial.
#[derive(Debug, Clone)]
pub enum ArchiveIntegrityError {
    /// The archive could not be decoded at all.
    MalformedArchive,
    /// An entry's name holds a path separator.
    IllegalPath(String),
    /// An entry's name is not in the manifest's binary list.
    UnauthorizedBinary(String),
    /// An entry has no recorded hash although binaries must be verified.
    MissingBinaryHash(String),
}

/// A conflict with what is already on disk.
#[derive(Debug, Clone)]
pub enum FilesystemError {
    /// Safe mode is on and the binary already exists at the install path.
    BinaryExists(String),
}

/// Why configuration resolution failed, before any network activity.
#[derive(Debug, Clone)]
pub enum ConfigError {
    /// Both an explicit index locator and an index key were supplied.
    ConflictingIndex,
    /// The configuration file could not be parsed.
    FileParse,
    /// A configuration file was demanded but none was found.
    FileRequired,
    /// Signature verification is enabled but no trust key is configured
    /// for the chosen index.
    MissingTrustKey,
}

/// A fatal error while processing one package.
#[derive(Debug, Clone)]
pub enum PipeError {
    Transport(TransportError),
    Trust(TrustError),
    Support(SupportError),
    Archive(ArchiveIntegrityError),
    Filesystem(FilesystemError),
}

} // verus!
