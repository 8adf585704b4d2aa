//! The loader: from the bytes of a container to a manifest and the text of
//! its shader source, every step validated before the next.

use vstd::prelude::*;
use vstd::slice::{slice_subrange, slice_to_vec};
use vstd::utf8::{decode_utf8, valid_utf8};
use crate::compression::{decompress, zstd_content};
use crate::container::{parse, GyoshoFile, VERSION};
use crate::error::LoadError;
use crate::manifest::{manifest_of_bytes, AssetEntryView, AssetKind, Manifest, ManifestView};

verus! {

/// A decoded project: its manifest and the text of its shader source.
#[derive(Clone, Debug, PartialEq, Eq)]
pub struct LoadedProject {
    pub manifest: Manifest,
    pub source_code: String,
}

/// The mathematical value of a [`LoadedProject`].
pub struct LoadedProjectView {
    pub manifest: ManifestView,
    pub source_code: Seq<char>,
}

impl View for LoadedProject {
    type V = LoadedProjectView;

    open spec fn view(&self) -> LoadedProjectView {
        LoadedProjectView { manifest: self.manifest@, source_code: self.source_code@ }
    }
}

/// The stateless loader.
pub struct ProjectLoader;

/// The opaque error of `String::from_utf8`.
#[verifier::external_type_specification]
#[verifier::external_body]
pub struct ExFromUtf8Error(std::string::FromUtf8Error);

/// Calls `String::from_utf8`.
///
/// Trusted: the call succeeds exactly on valid UTF-8, and the string then
/// holds the characters that the bytes encode.
#[verifier::external_body]
fn string_from_utf8(bytes: Vec<u8>) -> (r: Result<String, std::string::FromUtf8Error>)
    ensures
        match r {
            Ok(s) => valid_utf8(bytes@) && s@ == decode_utf8(bytes@),
            Err(_) => !valid_utf8(bytes@),
        },
{
    String::from_utf8(bytes)
}

/// The position of the first shader source at or after `start`.
pub open spec fn first_source_from(assets: Seq<AssetEntryView>, start: int) -> Option<int>
    decreases assets.len() - start,
{
    if start < 0 || start >= assets.len() {
        None
    } else if assets[start].kind == AssetKind::ShaderSource {
        Some(start)
    } else {
        first_source_from(assets, start + 1)
    }
}

/// The position of the asset that the loader extracts: the first shader
/// source of the table.
pub open spec fn selected(assets: Seq<AssetEntryView>) -> Option<int> {
    first_source_from(assets, 0)
}

/// What a manifest and a decompressed payload resolve to.
///
/// `AssetNotFound` without a shader source; `OutOfBounds` where the selected
/// entry's range leaves the payload; `InvalidText` where its bytes are not
/// UTF-8; else the manifest and the decoded text.
pub open spec fn resolve(m: ManifestView, payload: Seq<u8>) -> Result<LoadedProjectView, LoadError> {
    match selected(m.assets) {
        None => Err(LoadError::AssetNotFound),
        Some(i) => {
            let entry = m.assets[i];
            let bytes = payload.subrange(entry.offset as int, entry.offset + entry.size);
            if entry.offset + entry.size > payload.len() {
                Err(LoadError::OutOfBounds)
            } else if !valid_utf8(bytes) {
                Err(LoadError::InvalidText)
            } else {
                Ok(LoadedProjectView { manifest: m, source_code: decode_utf8(bytes) })
            }
        },
    }
}

/// What the bytes of a container load to.
///
/// The checks come in a fixed order: container framing, version, manifest,
/// decompression, and then those of [`resolve`].
pub open spec fn loaded(bytes: Seq<u8>) -> Result<LoadedProjectView, LoadError> {
    match parse(bytes) {
        Err(e) => Err(e),
        Ok(file) => if file.version != VERSION {
            Err(LoadError::UnsupportedVersion)
        } else {
            match manifest_of_bytes(file.manifest_bytes) {
                None => Err(LoadError::BadManifest),
                Some(m) => match zstd_content(file.compressed_payload) {
                    None => Err(LoadError::Decompress),
                    Some(payload) => resolve(m, payload),
                },
            }
        },
    }
}

/// `r` is the outcome `expected`, value for value.
pub open spec fn is_outcome(
    r: Result<LoadedProject, LoadError>,
    expected: Result<LoadedProjectView, LoadError>,
) -> bool {
    match expected {
        Ok(p) => r matches Ok(x) && x@ == p,
        Err(e) => r matches Err(x) && x == e,
    }
}

impl ProjectLoader {
    /// The position of the first shader source in the manifest's asset table.
    pub fn select(manifest: &Manifest) -> (r: Option<usize>)
        ensures
            match r {
                Some(i) => i < manifest.assets@.len() && selected(manifest@.assets) == Some(
                    i as int,
                ),
                None => selected(manifest@.assets) is None,
            },
    {
        let n: usize = manifest.assets.len();
        let mut i: usize = 0;
        while i < n
            invariant
                n == manifest.assets@.len(),
                0 <= i <= n,
                selected(manifest@.assets) == first_source_from(manifest@.assets, i as int),
            decreases n - i,
        {
            match manifest.assets[i].kind {
                AssetKind::ShaderSource => {
                    return Some(i);
                },
                _ => {},
            }
            i = i + 1;
        }
        None
    }

    /// Extracts the shader source that `manifest` selects from the
    /// decompressed `payload`. The entry's range is checked against the
    /// payload before any byte of it is read. The result is [`resolve`] of
    /// the two.
    pub fn extract(manifest: Manifest, payload: &[u8]) -> (r: Result<LoadedProject, LoadError>)
        ensures
            is_outcome(r, resolve(manifest@, payload@)),
    {
        let i: usize = match ProjectLoader::select(&manifest) {
            Some(i) => i,
            None => {
                return Err(LoadError::AssetNotFound);
            },
        };
        let offset: u64 = manifest.assets[i].offset;
        let size: u64 = manifest.assets[i].size;
        let len: u64 = payload.len() as u64;
        if offset > len || size > len - offset {
            return Err(LoadError::OutOfBounds);
        }
        let start: usize = offset as usize;
        let end: usize = start + size as usize;
        let source_bytes = slice_to_vec(slice_subrange(payload, start, end));
        match string_from_utf8(source_bytes) {
            Ok(source_code) => Ok(LoadedProject { manifest, source_code }),
            Err(_) => Err(LoadError::InvalidText),
        }
    }

    /// Loads a project from the bytes of a container. The result is
    /// [`loaded`] of the bytes: the same bytes always give the same project or
    /// the same error.
    pub fn load(bytes: &[u8]) -> (r: Result<LoadedProject, LoadError>)
        ensures
            is_outcome(r, loaded(bytes@)),
    {
        let file = match GyoshoFile::decode(bytes) {
            Ok(f) => f,
            Err(e) => {
                return Err(e);
            },
        };
        if file.version != VERSION {
            return Err(LoadError::UnsupportedVersion);
        }
        let manifest = match Manifest::deserialize(file.manifest_bytes.as_slice()) {
            Ok(m) => m,
            Err(e) => {
                return Err(e);
            },
        };
        let payload = match decompress(file.compressed_payload.as_slice()) {
            Ok(p) => p,
            Err(e) => {
                return Err(e);
            },
        };
        ProjectLoader::extract(manifest, payload.as_slice())
    }
}

} // verus!
