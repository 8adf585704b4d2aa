//! Failure kinds of reading and of writing a container.

use vstd::prelude::*;

verus! {

/// Why a container could not be loaded. Every kind is terminal.
#[derive(Clone, Copy, Debug, PartialEq, Eq, Structural)]
pub enum LoadError {
    /// The first four bytes are not the signature.
    BadMagic,
    /// A declared length reaches past the end of the input.
    Truncated,
    /// The version field names a schema that this reader does not implement.
    UnsupportedVersion,
    /// The manifest bytes do not hold a manifest.
    BadManifest,
    /// The compressed payload is invalid or incomplete.
    Decompress,
    /// No asset matches the selection rule.
    AssetNotFound,
    /// An asset's byte range leaves the decompressed payload.
    OutOfBounds,
    /// The selected bytes are not valid UTF-8.
    InvalidText,
}

/// Why a container could not be written.
#[derive(Clone, Copy, Debug, PartialEq, Eq, Structural)]
pub enum WriteError {
    /// The serializer reported an error. It reports none on a manifest.
    Serialize,
    /// The compressor reported an error. It reports none on a payload.
    Compress,
    /// The serialized manifest is longer than the 32-bit length field can say.
    ManifestTooLarge,
}

impl LoadError {
    /// A short human-readable description of the failure.
    pub fn message(&self) -> (s: &'static str)
        ensures
            s@ == Self::message_of(*self),
    {
        match self {
            LoadError::BadMagic => "bad magic: not a GYO1 container",
            LoadError::Truncated => "truncated container",
            LoadError::UnsupportedVersion => "unsupported schema version",
            LoadError::BadManifest => "manifest does not deserialize",
            LoadError::Decompress => "payload does not decompress",
            LoadError::AssetNotFound => "no shader source asset in manifest",
            LoadError::OutOfBounds => "asset lies outside the payload",
            LoadError::InvalidText => "shader source is not valid UTF-8",
        }
    }

    /// The text that [`LoadError::message`] returns for each kind.
    pub open spec fn message_of(e: LoadError) -> Seq<char> {
        match e {
            LoadError::BadMagic => "bad magic: not a GYO1 container"@,
            LoadError::Truncated => "truncated container"@,
            LoadError::UnsupportedVersion => "unsupported schema version"@,
            LoadError::BadManifest => "manifest does not deserialize"@,
            LoadError::Decompress => "payload does not decompress"@,
            LoadError::AssetNotFound => "no shader source asset in manifest"@,
            LoadError::OutOfBounds => "asset lies outside the payload"@,
            LoadError::InvalidText => "shader source is not valid UTF-8"@,
        }
    }
}

impl WriteError {
    /// A short human-readable description of the failure.
    pub fn message(&self) -> (s: &'static str)
        ensures
            s@ == Self::message_of(*self),
    {
        match self {
            WriteError::Serialize => "manifest does not serialize",
            WriteError::Compress => "payload does not compress",
            WriteError::ManifestTooLarge => "manifest is too large for its length field",
        }
    }

    /// The text that [`WriteError::message`] returns for each kind.
    pub open spec fn message_of(e: WriteError) -> Seq<char> {
        match e {
            WriteError::Serialize => "manifest does not serialize"@,
            WriteError::Compress => "payload does not compress"@,
            WriteError::ManifestTooLarge => "manifest is too large for its length field"@,
        }
    }
}

} // verus!
