//! What holds of the codec and the loader on every input.

use vstd::prelude::*;
use vstd::utf8::{decode_utf8, is_continuation_byte, valid_utf8};
use crate::compression::{zstd_frame, LEVEL};
use crate::container::{
    be_u32, be_u32_round_trip, is_write_outcome, is_written, magic, parse, u32_of_be,
    GyoshoFileView, HEADER_LEN, VERSION,
};
use crate::error::{LoadError, WriteError};
use crate::loader::{
    first_source_from, is_outcome, loaded, resolve, selected, LoadedProject, LoadedProjectView,
};
use crate::manifest::{manifest_bytes, AssetEntryView, AssetKind, ManifestView};

verus! {

/// A well-formed container parses back from its own bytes.
pub proof fn parse_of_layout(file: GyoshoFileView)
    requires
        file.well_formed(),
    ensures
        parse(file.layout()) == Ok::<GyoshoFileView, LoadError>(file),
{
    let bytes = file.layout();
    be_u32_round_trip(file.version);
    be_u32_round_trip(file.manifest_len);
    assert(bytes.len() == HEADER_LEN + file.manifest_bytes.len() + file.compressed_payload.len());
    assert(bytes.subrange(0, 4) =~= file.magic);
    assert(bytes.subrange(4, 8) =~= be_u32(file.version));
    assert(bytes.subrange(8, 12) =~= be_u32(file.manifest_len));
    assert(bytes.subrange(HEADER_LEN as int, HEADER_LEN + file.manifest_len)
        =~= file.manifest_bytes);
    assert(bytes.subrange(HEADER_LEN + file.manifest_len, bytes.len() as int)
        =~= file.compressed_payload);
}

/// Whatever parses is well formed: it carries the signature, and its length
/// field is the length of its manifest.
pub proof fn parsed_is_well_formed(bytes: Seq<u8>)
    ensures
        parse(bytes) matches Ok(file) ==> file.well_formed(),
{
}

/// The selected asset is a shader source and no asset before it is one; where
/// none is selected, the table holds no shader source.
pub proof fn selected_is_first(assets: Seq<AssetEntryView>)
    ensures
        match selected(assets) {
            Some(i) => {
                &&& 0 <= i < assets.len()
                &&& assets[i].kind == AssetKind::ShaderSource
                &&& forall|j: int| 0 <= j < i ==> (#[trigger] assets[j]).kind
                    != AssetKind::ShaderSource
            },
            None => forall|j: int|
                0 <= j < assets.len() ==> (#[trigger] assets[j]).kind != AssetKind::ShaderSource,
        },
{
    first_source_is_first(assets, 0);
}

proof fn first_source_is_first(assets: Seq<AssetEntryView>, start: int)
    requires
        0 <= start,
    ensures
        match first_source_from(assets, start) {
            Some(i) => {
                &&& start <= i < assets.len()
                &&& assets[i].kind == AssetKind::ShaderSource
                &&& forall|j: int| start <= j < i ==> (#[trigger] assets[j]).kind
                    != AssetKind::ShaderSource
            },
            None => forall|j: int|
                start <= j < assets.len() ==> (#[trigger] assets[j]).kind
                    != AssetKind::ShaderSource,
        },
    decreases assets.len() - start,
{
    if start < assets.len() && assets[start].kind != AssetKind::ShaderSource {
        first_source_is_first(assets, start + 1);
    }
}

/// A written container opens with the signature and the version 1 in big
/// endian, tells the length of its manifest, and holds a compressed payload
/// of at least one byte after it.
pub proof fn written_header(out: Seq<u8>, m: ManifestView, payload: Seq<u8>)
    requires
        is_written(out, m, payload),
    ensures
        out.subrange(0, 8) == seq![0x47u8, 0x59u8, 0x4fu8, 0x31u8, 0u8, 0u8, 0u8, 1u8],
        u32_of_be(out.subrange(8, 12)) == manifest_bytes(m).len(),
        out.subrange(HEADER_LEN as int, HEADER_LEN + manifest_bytes(m).len()) == manifest_bytes(m),
        out.len() > HEADER_LEN + manifest_bytes(m).len(),
{
    let file = GyoshoFileView {
        magic: magic(),
        version: VERSION,
        manifest_len: manifest_bytes(m).len() as u32,
        manifest_bytes: manifest_bytes(m),
        compressed_payload: zstd_frame(payload, LEVEL),
    };
    parse_of_layout(file);
    be_u32_round_trip(VERSION);
    assert(out.subrange(4, 8) =~= be_u32(VERSION));
    assert(out.subrange(0, 4) =~= magic());
    assert(out.subrange(0, 8) =~= seq![0x47u8, 0x59u8, 0x4fu8, 0x31u8, 0u8, 0u8, 0u8, 1u8]) by {
        assert forall|i: int| 0 <= i < 8 implies out.subrange(0, 8)[i] == seq![
            0x47u8,
            0x59u8,
            0x4fu8,
            0x31u8,
            0u8,
            0u8,
            0u8,
            1u8,
        ][i] by {
            if i < 4 {
                assert(out.subrange(0, 8)[i] == out.subrange(0, 4)[i]);
            } else {
                assert(out.subrange(0, 8)[i] == out.subrange(4, 8)[i - 4]);
            }
        }
    }
}

/// Two outcomes of writing the same manifest and payload are the same
/// outcome: both succeed with the same bytes, or both fail alike.
pub proof fn write_is_deterministic(
    m: ManifestView,
    payload: Seq<u8>,
    first: Result<Vec<u8>, WriteError>,
    second: Result<Vec<u8>, WriteError>,
)
    requires
        is_write_outcome(first, m, payload),
        is_write_outcome(second, m, payload),
    ensures
        match (first, second) {
            (Ok(a), Ok(b)) => a@ == b@,
            (Err(a), Err(b)) => a == b,
            _ => false,
        },
{
}

/// Loading a written container gives what its manifest and its payload
/// resolve to.
pub proof fn load_after_write(out: Seq<u8>, m: ManifestView, payload: Seq<u8>)
    requires
        is_written(out, m, payload),
    ensures
        loaded(out) == resolve(m, payload),
{
    let file = GyoshoFileView {
        magic: magic(),
        version: VERSION,
        manifest_len: manifest_bytes(m).len() as u32,
        manifest_bytes: manifest_bytes(m),
        compressed_payload: zstd_frame(payload, LEVEL),
    };
    parse_of_layout(file);
}

/// The table holds exactly one shader source, and its range is the whole of
/// `payload`.
pub open spec fn sole_source_spans(m: ManifestView, payload: Seq<u8>) -> bool {
    exists|i: int|
        {
            &&& 0 <= i < m.assets.len()
            &&& (#[trigger] m.assets[i]).kind == AssetKind::ShaderSource
            &&& m.assets[i].offset == 0
            &&& m.assets[i].size == payload.len()
            &&& forall|j: int|
                0 <= j < m.assets.len() && j != i ==> (#[trigger] m.assets[j]).kind
                    != AssetKind::ShaderSource
        }
}

/// Round trip: writing a manifest whose only shader source spans the whole
/// payload, and whose serialized form fits the length field, succeeds, and
/// the container loads to that manifest and to the payload's text. Where the
/// payload is not UTF-8, loading reports `InvalidText`.
pub proof fn write_then_load(r: Result<Vec<u8>, WriteError>, m: ManifestView, payload: Seq<u8>)
    requires
        is_write_outcome(r, m, payload),
        manifest_bytes(m).len() <= u32::MAX,
        sole_source_spans(m, payload),
    ensures
        r is Ok,
        valid_utf8(payload) ==> loaded(r.unwrap()@) == Ok::<LoadedProjectView, LoadError>(
            LoadedProjectView { manifest: m, source_code: decode_utf8(payload) },
        ),
        !valid_utf8(payload) ==> loaded(r.unwrap()@) == Err::<LoadedProjectView, LoadError>(
            LoadError::InvalidText,
        ),
{
    let out = r.unwrap()@;
    load_after_write(out, m, payload);
    selected_is_first(m.assets);
    let i = selected(m.assets).unwrap();
    assert(payload.subrange(m.assets[i].offset as int, m.assets[i].offset + m.assets[i].size)
        =~= payload);
}

/// Magic rejection: fewer than four bytes are `Truncated`; four or more whose
/// first four are not the signature are `BadMagic`.
pub proof fn magic_rejection(bytes: Seq<u8>)
    ensures
        bytes.len() < 4 ==> loaded(bytes) == Err::<LoadedProjectView, LoadError>(
            LoadError::Truncated,
        ),
        bytes.len() >= 4 && bytes.subrange(0, 4) != magic() ==> loaded(bytes) == Err::<
            LoadedProjectView,
            LoadError,
        >(LoadError::BadMagic),
{
}

/// Truncation: a container cut before the end of its manifest is `Truncated`.
pub proof fn truncation(bytes: Seq<u8>, cut: int)
    requires
        parse(bytes) is Ok,
        0 <= cut < HEADER_LEN + parse(bytes).unwrap().manifest_len,
    ensures
        parse(bytes.take(cut)) == Err::<GyoshoFileView, LoadError>(LoadError::Truncated),
        loaded(bytes.take(cut)) == Err::<LoadedProjectView, LoadError>(LoadError::Truncated),
{
    let head = bytes.take(cut);
    if cut >= 4 {
        assert(head.subrange(0, 4) =~= bytes.subrange(0, 4));
    }
    if cut >= HEADER_LEN {
        assert(head.subrange(8, 12) =~= bytes.subrange(8, 12));
    }
}

/// Bounds enforcement: a selected entry whose range ends past the payload is
/// `OutOfBounds`, whatever the payload holds.
pub proof fn bounds_enforcement(m: ManifestView, payload: Seq<u8>)
    requires
        selected(m.assets) matches Some(i) && m.assets[i].offset + m.assets[i].size
            > payload.len(),
    ensures
        resolve(m, payload) == Err::<LoadedProjectView, LoadError>(LoadError::OutOfBounds),
{
}

/// Encoding enforcement: a selected range inside the payload whose bytes are
/// not UTF-8 is `InvalidText`.
pub proof fn encoding_enforcement(m: ManifestView, payload: Seq<u8>)
    requires
        selected(m.assets) matches Some(i) && m.assets[i].offset + m.assets[i].size
            <= payload.len() && !valid_utf8(
            payload.subrange(m.assets[i].offset as int, m.assets[i].offset + m.assets[i].size),
        ),
    ensures
        resolve(m, payload) == Err::<LoadedProjectView, LoadError>(LoadError::InvalidText),
{
}

/// Bytes that open with a continuation byte, such as a lone `0x80`, are not
/// UTF-8.
pub proof fn leading_continuation_is_invalid(bytes: Seq<u8>)
    requires
        bytes.len() > 0,
        is_continuation_byte(bytes[0]),
    ensures
        !valid_utf8(bytes),
{
}

/// Determinism: two outcomes of loading the same bytes are the same outcome.
pub proof fn load_is_deterministic(
    bytes: Seq<u8>,
    first: Result<LoadedProject, LoadError>,
    second: Result<LoadedProject, LoadError>,
)
    requires
        is_outcome(first, loaded(bytes)),
        is_outcome(second, loaded(bytes)),
    ensures
        match (first, second) {
            (Ok(a), Ok(b)) => a@ == b@,
            (Err(a), Err(b)) => a == b,
            _ => false,
        },
{
}

} // verus!
