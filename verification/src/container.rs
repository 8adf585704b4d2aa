//! The byte layout of a container: signature, version, manifest length,
//! manifest bytes, and the compressed payload up to the end of the input.

use vstd::prelude::*;
use vstd::slice::{slice_subrange, slice_to_vec};
use crate::compression::{compress, zstd_content, zstd_frame, LEVEL};
use crate::error::{LoadError, WriteError};
use crate::manifest::{manifest_bytes, manifest_of_bytes, Manifest, ManifestView};

verus! {

/// The schema version that this library writes and reads.
pub const VERSION: u32 = 1;

/// Length of the fixed header: signature, version and manifest length.
pub const HEADER_LEN: usize = 12;

/// The signature that opens every container: the ASCII letters `GYO1`.
pub const MAGIC: [u8; 4] = [0x47, 0x59, 0x4f, 0x31];

/// The signature as a sequence of bytes.
pub open spec fn magic() -> Seq<u8> {
    MAGIC@
}

/// The signature spells `GYO1`.
pub proof fn magic_spells_gyo1()
    ensures
        magic() == seq![0x47u8, 0x59u8, 0x4fu8, 0x31u8],
{
    assert(magic() =~= seq![0x47u8, 0x59u8, 0x4fu8, 0x31u8]);
}

/// The four bytes of `x`, most significant first.
pub open spec fn be_u32(x: u32) -> Seq<u8> {
    seq![
        (x / 0x100_0000) as u8,
        ((x / 0x1_0000) % 0x100) as u8,
        ((x / 0x100) % 0x100) as u8,
        (x % 0x100) as u8,
    ]
}

/// The number whose big-endian bytes are the first four of `b`.
pub open spec fn u32_of_be(b: Seq<u8>) -> u32
    recommends
        b.len() >= 4,
{
    (b[0] * 0x100_0000 + b[1] * 0x1_0000 + b[2] * 0x100 + b[3]) as u32
}

/// Reading back what `be_u32` wrote gives the number again.
pub proof fn be_u32_round_trip(x: u32)
    ensures
        be_u32(x).len() == 4,
        u32_of_be(be_u32(x)) == x,
{
}

/// Appends the big-endian bytes of `x` to `out`.
pub fn put_be_u32(out: &mut Vec<u8>, x: u32)
    ensures
        final(out)@ == old(out)@ + be_u32(x),
{
    out.push((x / 0x100_0000) as u8);
    out.push(((x / 0x1_0000) % 0x100) as u8);
    out.push(((x / 0x100) % 0x100) as u8);
    out.push((x % 0x100) as u8);
    assert(out@ =~= old(out)@ + be_u32(x));
}

/// Reads a big-endian `u32` at `at`.
pub fn get_be_u32(bytes: &[u8], at: usize) -> (x: u32)
    requires
        at + 4 <= bytes@.len(),
    ensures
        x == u32_of_be(bytes@.subrange(at as int, at + 4)),
{
    let b0: u32 = bytes[at] as u32;
    let b1: u32 = bytes[at + 1] as u32;
    let b2: u32 = bytes[at + 2] as u32;
    let b3: u32 = bytes[at + 3] as u32;
    b0 * 0x100_0000 + b1 * 0x1_0000 + b2 * 0x100 + b3
}

/// A container, field by field as it lies in the file.
#[derive(Clone, Debug, PartialEq, Eq)]
pub struct GyoshoFile {
    /// The signature.
    pub magic: [u8; 4],
    /// The schema version.
    pub version: u32,
    /// The length of `manifest_bytes`.
    pub manifest_len: u32,
    /// The serialized manifest.
    pub manifest_bytes: Vec<u8>,
    /// The compressed payload: everything after the manifest.
    pub compressed_payload: Vec<u8>,
}

/// The mathematical value of a [`GyoshoFile`].
pub struct GyoshoFileView {
    pub magic: Seq<u8>,
    pub version: u32,
    pub manifest_len: u32,
    pub manifest_bytes: Seq<u8>,
    pub compressed_payload: Seq<u8>,
}

impl View for GyoshoFile {
    type V = GyoshoFileView;

    open spec fn view(&self) -> GyoshoFileView {
        GyoshoFileView {
            magic: self.magic@,
            version: self.version,
            manifest_len: self.manifest_len,
            manifest_bytes: self.manifest_bytes@,
            compressed_payload: self.compressed_payload@,
        }
    }
}

impl GyoshoFileView {
    /// The signature is the fixed one and the length field tells the truth.
    pub open spec fn well_formed(self) -> bool {
        &&& self.magic == magic()
        &&& self.manifest_len == self.manifest_bytes.len()
    }

    /// The bytes of the container, in file order.
    pub open spec fn layout(self) -> Seq<u8> {
        self.magic + be_u32(self.version) + be_u32(self.manifest_len) + self.manifest_bytes
            + self.compressed_payload
    }
}

/// The container that `bytes` hold, or the reason why they hold none.
///
/// Fewer than four bytes are `Truncated`; four bytes that are not the
/// signature are `BadMagic`; a header or a manifest that does not fit in the
/// input is `Truncated`. Everything after the manifest is the payload.
pub open spec fn parse(bytes: Seq<u8>) -> Result<GyoshoFileView, LoadError> {
    if bytes.len() < 4 {
        Err(LoadError::Truncated)
    } else if bytes.subrange(0, 4) != magic() {
        Err(LoadError::BadMagic)
    } else if bytes.len() < HEADER_LEN {
        Err(LoadError::Truncated)
    } else if bytes.len() < HEADER_LEN + u32_of_be(bytes.subrange(8, 12)) {
        Err(LoadError::Truncated)
    } else {
        let manifest_len = u32_of_be(bytes.subrange(8, 12));
        Ok(
            GyoshoFileView {
                magic: bytes.subrange(0, 4),
                version: u32_of_be(bytes.subrange(4, 8)),
                manifest_len,
                manifest_bytes: bytes.subrange(HEADER_LEN as int, HEADER_LEN + manifest_len),
                compressed_payload: bytes.subrange(HEADER_LEN + manifest_len, bytes.len() as int),
            },
        )
    }
}

/// The bytes of a version-1 container around a manifest and a payload.
pub open spec fn written(m: ManifestView, payload: Seq<u8>) -> Seq<u8> {
    (GyoshoFileView {
        magic: magic(),
        version: VERSION,
        manifest_len: manifest_bytes(m).len() as u32,
        manifest_bytes: manifest_bytes(m),
        compressed_payload: zstd_frame(payload, LEVEL),
    }).layout()
}

/// `out` is a container written for `m` and `payload`: it has the bytes of
/// [`written`], the manifest's length fits its field, the compressed payload
/// is not empty, and both sections read back as what went in.
pub open spec fn is_written(out: Seq<u8>, m: ManifestView, payload: Seq<u8>) -> bool {
    &&& out == written(m, payload)
    &&& manifest_bytes(m).len() <= u32::MAX
    &&& zstd_frame(payload, LEVEL).len() > 0
    &&& manifest_of_bytes(manifest_bytes(m)) == Some(m)
    &&& zstd_content(zstd_frame(payload, LEVEL)) == Some(payload)
}

/// `r` is the outcome of writing `m` and `payload`: a written container where
/// the serialized manifest fits the 32-bit length field, `ManifestTooLarge`
/// where it does not.
pub open spec fn is_write_outcome(
    r: Result<Vec<u8>, WriteError>,
    m: ManifestView,
    payload: Seq<u8>,
) -> bool {
    match r {
        Ok(out) => manifest_bytes(m).len() <= u32::MAX && is_written(out@, m, payload),
        Err(e) => manifest_bytes(m).len() > u32::MAX && e == WriteError::ManifestTooLarge,
    }
}

impl GyoshoFile {
    /// Decodes a container from `bytes`, reading no byte past a declared
    /// length. The result is [`parse`] of the bytes; a container that comes
    /// out is well formed.
    pub fn decode(bytes: &[u8]) -> (r: Result<GyoshoFile, LoadError>)
        ensures
            match parse(bytes@) {
                Ok(v) => r matches Ok(f) && f@ == v,
                Err(e) => r matches Err(x) && x == e,
            },
            r matches Ok(f) ==> f@.well_formed(),
    {
        if bytes.len() < 4 {
            return Err(LoadError::Truncated);
        }
        let magic: [u8; 4] = [bytes[0], bytes[1], bytes[2], bytes[3]];
        assert(magic@ =~= bytes@.subrange(0, 4));
        if magic[0] != MAGIC[0] || magic[1] != MAGIC[1] || magic[2] != MAGIC[2] || magic[3]
            != MAGIC[3] {
            return Err(LoadError::BadMagic);
        }
        assert(magic@ =~= self::magic());
        if bytes.len() < HEADER_LEN {
            return Err(LoadError::Truncated);
        }
        let version: u32 = get_be_u32(bytes, 4);
        let manifest_len: u32 = get_be_u32(bytes, 8);
        let n: usize = manifest_len as usize;
        if bytes.len() - HEADER_LEN < n {
            return Err(LoadError::Truncated);
        }
        let manifest_bytes = slice_to_vec(slice_subrange(bytes, HEADER_LEN, HEADER_LEN + n));
        let compressed_payload = slice_to_vec(slice_subrange(bytes, HEADER_LEN + n, bytes.len()));
        Ok(GyoshoFile { magic, version, manifest_len, manifest_bytes, compressed_payload })
    }

    /// The bytes of the container, in file order. The fields are written as
    /// they stand.
    pub fn encode(&self) -> (out: Vec<u8>)
        ensures
            out@ == self@.layout(),
    {
        let mut out: Vec<u8> = Vec::new();
        out.push(self.magic[0]);
        out.push(self.magic[1]);
        out.push(self.magic[2]);
        out.push(self.magic[3]);
        assert(out@ =~= self.magic@);
        put_be_u32(&mut out, self.version);
        put_be_u32(&mut out, self.manifest_len);
        append(&mut out, &self.manifest_bytes);
        append(&mut out, &self.compressed_payload);
        out
    }

    /// Builds a version-1 container around a serialized manifest and a
    /// compressed payload. Fails with `ManifestTooLarge` exactly when the
    /// manifest's length does not fit the 32-bit length field.
    pub fn pack(manifest_bytes: Vec<u8>, compressed_payload: Vec<u8>) -> (r: Result<
        GyoshoFile,
        WriteError,
    >)
        ensures
            match r {
                Ok(f) => {
                    &&& manifest_bytes@.len() <= u32::MAX
                    &&& f@.well_formed()
                    &&& f@.version == VERSION
                    &&& f@.manifest_bytes == manifest_bytes@
                    &&& f@.compressed_payload == compressed_payload@
                },
                Err(e) => manifest_bytes@.len() > u32::MAX && e == WriteError::ManifestTooLarge,
            },
    {
        if manifest_bytes.len() > 0xffff_ffff {
            return Err(WriteError::ManifestTooLarge);
        }
        let manifest_len: u32 = manifest_bytes.len() as u32;
        Ok(
            GyoshoFile {
                magic: MAGIC,
                version: VERSION,
                manifest_len,
                manifest_bytes,
                compressed_payload,
            },
        )
    }

    /// Encodes a project: the manifest serialized, the payload compressed at
    /// the fixed level, both behind the header.
    ///
    /// Succeeds exactly when the serialized manifest is at most `u32::MAX`
    /// bytes long: the bytes are then [`written`] of the manifest and the
    /// payload, and [`is_written`] holds of them. A longer manifest is
    /// `ManifestTooLarge`; no other failure comes.
    pub fn write_new(manifest: &Manifest, raw_payload: &[u8]) -> (r: Result<Vec<u8>, WriteError>)
        ensures
            is_write_outcome(r, manifest@, raw_payload@),
    {
        let manifest_bytes = match manifest.serialize() {
            Ok(b) => b,
            Err(e) => {
                return Err(e);
            },
        };
        let compressed_payload = match compress(raw_payload) {
            Ok(b) => b,
            Err(e) => {
                return Err(e);
            },
        };
        match GyoshoFile::pack(manifest_bytes, compressed_payload) {
            Ok(file) => Ok(file.encode()),
            Err(e) => Err(e),
        }
    }

    /// Decodes the container only as far as its manifest, without touching the
    /// payload.
    pub fn read_manifest(bytes: &[u8]) -> (r: Result<Manifest, LoadError>)
        ensures
            match manifest_in(bytes@) {
                Ok(m) => r matches Ok(x) && x@ == m,
                Err(e) => r matches Err(x) && x == e,
            },
    {
        let file = match GyoshoFile::decode(bytes) {
            Ok(f) => f,
            Err(e) => {
                return Err(e);
            },
        };
        if file.version != VERSION {
            return Err(LoadError::UnsupportedVersion);
        }
        Manifest::deserialize(file.manifest_bytes.as_slice())
    }
}

/// The manifest of the container that `bytes` hold: the container is parsed,
/// its version must be the supported one, and its manifest must deserialize.
pub open spec fn manifest_in(bytes: Seq<u8>) -> Result<ManifestView, LoadError> {
    match parse(bytes) {
        Err(e) => Err(e),
        Ok(file) => if file.version != VERSION {
            Err(LoadError::UnsupportedVersion)
        } else {
            match manifest_of_bytes(file.manifest_bytes) {
                None => Err(LoadError::BadManifest),
                Some(m) => Ok(m),
            }
        },
    }
}

/// Appends `more` to `out`.
pub fn append(out: &mut Vec<u8>, more: &Vec<u8>)
    ensures
        final(out)@ == old(out)@ + more@,
{
    let n: usize = more.len();
    let mut i: usize = 0;
    while i < n
        invariant
            n == more@.len(),
            0 <= i <= n,
            out@ == old(out)@ + more@.subrange(0, i as int),
        decreases n - i,
    {
        out.push(more[i]);
        i = i + 1;
        assert(out@ =~= old(out)@ + more@.subrange(0, i as int));
    }
    assert(more@.subrange(0, n as int) =~= more@);
}

} // verus!
