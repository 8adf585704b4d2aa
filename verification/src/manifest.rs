//! The manifest: project metadata and the table of assets, with its
//! serialized form.
//!
//! A manifest is serialized by `bincode` as its five fields in declaration
//! order. An asset entry travels as a row of its four fields, the kind as the
//! 32-bit position of its variant, which is how `bincode` writes a unit
//! variant; a row whose number names no kind makes the manifest unreadable.

use vstd::prelude::*;
use crate::error::{LoadError, WriteError};

verus! {

/// What an asset holds. The set is closed: a new kind needs a new schema
/// version.
#[derive(Clone, Copy, Debug, PartialEq, Eq, Structural)]
pub enum AssetKind {
    /// Shader source text.
    ShaderSource,
    /// An image.
    Texture,
    /// A mesh.
    Mesh,
}

/// One named byte range of the decompressed payload.
///
/// The range is not checked against a payload until the asset is extracted.
#[derive(Clone, Debug, PartialEq, Eq)]
pub struct AssetEntry {
    /// Meant to be unique within a manifest; neither writing nor loading
    /// enforces it.
    pub id: String,
    pub kind: AssetKind,
    /// Offset from the start of the decompressed payload.
    pub offset: u64,
    pub size: u64,
}

/// Project metadata and the table of assets.
#[derive(Clone, Debug, PartialEq, Eq)]
pub struct Manifest {
    pub title: String,
    pub author: String,
    /// Seconds since the epoch.
    pub timestamp: u64,
    /// The table of assets. Its order is kept and carries no meaning beyond
    /// deciding which entry is first.
    pub assets: Vec<AssetEntry>,
    /// Reserved; written empty.
    pub compute_kernels: Vec<String>,
}

/// The mathematical value of an [`AssetEntry`].
pub struct AssetEntryView {
    pub id: Seq<char>,
    pub kind: AssetKind,
    pub offset: u64,
    pub size: u64,
}

/// The mathematical value of a [`Manifest`].
pub struct ManifestView {
    pub title: Seq<char>,
    pub author: Seq<char>,
    pub timestamp: u64,
    pub assets: Seq<AssetEntryView>,
    pub compute_kernels: Seq<Seq<char>>,
}

impl View for AssetEntry {
    type V = AssetEntryView;

    open spec fn view(&self) -> AssetEntryView {
        AssetEntryView { id: self.id@, kind: self.kind, offset: self.offset, size: self.size }
    }
}

impl View for Manifest {
    type V = ManifestView;

    open spec fn view(&self) -> ManifestView {
        ManifestView {
            title: self.title@,
            author: self.author@,
            timestamp: self.timestamp,
            assets: self.assets@.map_values(|e: AssetEntry| e@),
            compute_kernels: texts(self.compute_kernels@),
        }
    }
}

/// The character sequences of a list of strings.
pub open spec fn texts(s: Seq<String>) -> Seq<Seq<char>> {
    s.map_values(|x: String| x@)
}

/// The values of a list of serialized rows.
pub open spec fn rows_view(s: Seq<(String, u32, u64, u64)>) -> Seq<(Seq<char>, u32, u64, u64)> {
    s.map_values(|r: (String, u32, u64, u64)| (r.0@, r.1, r.2, r.3))
}

impl AssetKind {
    /// The number under which the kind is serialized: its position in the
    /// declaration.
    pub open spec fn tag_of(self) -> u32 {
        match self {
            AssetKind::ShaderSource => 0,
            AssetKind::Texture => 1,
            AssetKind::Mesh => 2,
        }
    }

    /// The kind that a serialized number stands for, if any.
    pub open spec fn of_tag(tag: u32) -> Option<AssetKind> {
        if tag == 0 {
            Some(AssetKind::ShaderSource)
        } else if tag == 1 {
            Some(AssetKind::Texture)
        } else if tag == 2 {
            Some(AssetKind::Mesh)
        } else {
            None
        }
    }

    /// The number under which the kind is serialized.
    pub fn tag(self) -> (t: u32)
        ensures
            t == self.tag_of(),
    {
        match self {
            AssetKind::ShaderSource => 0,
            AssetKind::Texture => 1,
            AssetKind::Mesh => 2,
        }
    }

    /// The kind that `tag` stands for; `None` for a number that names no kind.
    pub fn from_tag(tag: u32) -> (k: Option<AssetKind>)
        ensures
            k == Self::of_tag(tag),
    {
        if tag == 0 {
            Some(AssetKind::ShaderSource)
        } else if tag == 1 {
            Some(AssetKind::Texture)
        } else if tag == 2 {
            Some(AssetKind::Mesh)
        } else {
            None
        }
    }
}

/// The serialized row of an asset entry.
pub open spec fn row_of(e: AssetEntryView) -> (Seq<char>, u32, u64, u64) {
    (e.id, e.kind.tag_of(), e.offset, e.size)
}

/// The serialized rows of an asset table, in order.
pub open spec fn rows_of(assets: Seq<AssetEntryView>) -> Seq<(Seq<char>, u32, u64, u64)> {
    assets.map_values(|e: AssetEntryView| row_of(e))
}

/// The asset entry that a row stands for; `None` where its tag names no kind.
pub open spec fn entry_of(row: (Seq<char>, u32, u64, u64)) -> Option<AssetEntryView> {
    match AssetKind::of_tag(row.1) {
        Some(kind) => Some(AssetEntryView { id: row.0, kind, offset: row.2, size: row.3 }),
        None => None,
    }
}

/// The asset table that a list of rows stands for; `None` where some row's tag
/// names no kind.
pub open spec fn entries_of(rows: Seq<(Seq<char>, u32, u64, u64)>) -> Option<Seq<AssetEntryView>> {
    if forall|i: int| 0 <= i < rows.len() ==> (#[trigger] entry_of(rows[i])) is Some {
        Some(rows.map_values(|r: (Seq<char>, u32, u64, u64)| entry_of(r).unwrap()))
    } else {
        None
    }
}

/// Rows written from an asset table read back as that table.
pub proof fn rows_round_trip(assets: Seq<AssetEntryView>)
    ensures
        entries_of(rows_of(assets)) == Some(assets),
{
    let rows = rows_of(assets);
    assert forall|i: int| 0 <= i < rows.len() implies (#[trigger] entry_of(rows[i])) == Some(
        assets[i],
    ) by {}
    assert(rows.map_values(|r: (Seq<char>, u32, u64, u64)| entry_of(r).unwrap()) =~= assets);
}

/// The opaque error of `bincode`.
#[verifier::external_type_specification]
#[verifier::external_body]
pub struct ExBincodeErrorKind(bincode::ErrorKind);

/// The bytes that `bincode::serialize` writes for a manifest's five fields,
/// the asset table given as rows.
pub uninterp spec fn bincode_bytes(
    title: Seq<char>,
    author: Seq<char>,
    timestamp: u64,
    rows: Seq<(Seq<char>, u32, u64, u64)>,
    compute_kernels: Seq<Seq<char>>,
) -> Seq<u8>;

/// The five fields that `bincode::deserialize` reads from `bytes`; `None`
/// where it reports an error.
pub uninterp spec fn bincode_fields(bytes: Seq<u8>) -> Option<
    (Seq<char>, Seq<char>, u64, Seq<(Seq<char>, u32, u64, u64)>, Seq<Seq<char>>),
>;

/// Calls `bincode::serialize` on the five fields, in declaration order.
///
/// Trusted: the call succeeds (no size limit is set, the output is a vector,
/// and strings, integers, tuples and vectors all serialize); the bytes are
/// the ones named by [`bincode_bytes`]; and `bincode::deserialize` reads the
/// same five fields back from them.
#[verifier::external_body]
fn bincode_serialize(
    title: &String,
    author: &String,
    timestamp: u64,
    rows: &Vec<(String, u32, u64, u64)>,
    compute_kernels: &Vec<String>,
) -> (r: Result<Vec<u8>, bincode::Error>)
    ensures
        r is Ok,
        r matches Ok(b) ==> b@ == bincode_bytes(
            title@,
            author@,
            timestamp,
            rows_view(rows@),
            texts(compute_kernels@),
        ),
        r matches Ok(b) ==> bincode_fields(b@) == Some(
            (title@, author@, timestamp, rows_view(rows@), texts(compute_kernels@)),
        ),
{
    bincode::serialize(&(title, author, timestamp, rows, compute_kernels))
}

/// Calls `bincode::deserialize` for the five fields of a manifest.
///
/// Trusted: the outcome is the one named by [`bincode_fields`].
#[verifier::external_body]
fn bincode_deserialize(bytes: &[u8]) -> (r: Result<
    (String, String, u64, Vec<(String, u32, u64, u64)>, Vec<String>),
    bincode::Error,
>)
    ensures
        match bincode_fields(bytes@) {
            Some(f) => r matches Ok(t) && f == (
                t.0@,
                t.1@,
                t.2,
                rows_view(t.3@),
                texts(t.4@),
            ),
            None => r is Err,
        },
{
    bincode::deserialize(bytes)
}

/// The serialized form of a manifest.
pub open spec fn manifest_bytes(m: ManifestView) -> Seq<u8> {
    bincode_bytes(m.title, m.author, m.timestamp, rows_of(m.assets), m.compute_kernels)
}

/// The manifest that `bytes` hold; `None` where they do not deserialize or a
/// row's tag names no asset kind.
pub open spec fn manifest_of_bytes(bytes: Seq<u8>) -> Option<ManifestView> {
    match bincode_fields(bytes) {
        None => None,
        Some(f) => match entries_of(f.3) {
            None => None,
            Some(assets) => Some(
                ManifestView {
                    title: f.0,
                    author: f.1,
                    timestamp: f.2,
                    assets,
                    compute_kernels: f.4,
                },
            ),
        },
    }
}

impl Manifest {
    /// The asset table as serialized rows.
    pub fn to_rows(&self) -> (rows: Vec<(String, u32, u64, u64)>)
        ensures
            rows_view(rows@) == rows_of(self@.assets),
    {
        let mut rows: Vec<(String, u32, u64, u64)> = Vec::new();
        let n: usize = self.assets.len();
        let mut i: usize = 0;
        while i < n
            invariant
                n == self.assets@.len(),
                0 <= i <= n,
                rows@.len() == i,
                forall|j: int|
                    0 <= j < i ==> rows_view(rows@)[j] == row_of(#[trigger] self.assets@[j]@),
            decreases n - i,
        {
            let e = &self.assets[i];
            rows.push((e.id.clone(), e.kind.tag(), e.offset, e.size));
            i = i + 1;
        }
        assert(rows_view(rows@) =~= rows_of(self@.assets));
        rows
    }

    /// Builds a manifest from deserialized fields. Fails with `BadManifest`
    /// exactly when some row's tag names no asset kind.
    pub fn from_rows(
        title: String,
        author: String,
        timestamp: u64,
        rows: &Vec<(String, u32, u64, u64)>,
        compute_kernels: Vec<String>,
    ) -> (r: Result<Manifest, LoadError>)
        ensures
            match entries_of(rows_view(rows@)) {
                Some(assets) => r matches Ok(m) && m@ == (ManifestView {
                    title: title@,
                    author: author@,
                    timestamp,
                    assets,
                    compute_kernels: texts(compute_kernels@),
                }),
                None => r matches Err(e) && e == LoadError::BadManifest,
            },
    {
        let mut assets: Vec<AssetEntry> = Vec::new();
        let n: usize = rows.len();
        let mut i: usize = 0;
        while i < n
            invariant
                n == rows@.len(),
                0 <= i <= n,
                assets@.len() == i,
                forall|j: int|
                    0 <= j < i ==> entry_of(rows_view(rows@)[j]) == Some(#[trigger] assets@[j]@),
            decreases n - i,
        {
            let row = &rows[i];
            match AssetKind::from_tag(row.1) {
                Some(kind) => {
                    assets.push(AssetEntry { id: row.0.clone(), kind, offset: row.2, size: row.3 });
                },
                None => {
                    assert(entry_of(rows_view(rows@)[i as int]) is None);
                    return Err(LoadError::BadManifest);
                },
            }
            i = i + 1;
        }
        let m = Manifest { title, author, timestamp, assets, compute_kernels };
        assert forall|j: int| 0 <= j < rows_view(rows@).len() implies (#[trigger] entry_of(
            rows_view(rows@)[j],
        )) == Some(assets@[j]@) by {}
        assert(m@.assets =~= entries_of(rows_view(rows@)).unwrap());
        Ok(m)
    }

    /// Serializes the manifest.
    ///
    /// Succeeds on every manifest: the bytes are [`manifest_bytes`] of it and
    /// deserialize to it again. `Serialize` stands for the serializer's own
    /// error, which does not come.
    pub fn serialize(&self) -> (r: Result<Vec<u8>, WriteError>)
        ensures
            r is Ok,
            r matches Ok(b) ==> b@ == manifest_bytes(self@) && manifest_of_bytes(b@) == Some(
                self@,
            ),
    {
        let rows = self.to_rows();
        proof {
            rows_round_trip(self@.assets);
        }
        match bincode_serialize(
            &self.title,
            &self.author,
            self.timestamp,
            &rows,
            &self.compute_kernels,
        ) {
            Ok(b) => Ok(b),
            Err(_) => Err(WriteError::Serialize),
        }
    }

    /// Deserializes a manifest: `Ok` with the manifest that the bytes hold,
    /// `BadManifest` where they hold none.
    pub fn deserialize(bytes: &[u8]) -> (r: Result<Manifest, LoadError>)
        ensures
            match manifest_of_bytes(bytes@) {
                Some(m) => r matches Ok(x) && x@ == m,
                None => r matches Err(e) && e == LoadError::BadManifest,
            },
    {
        match bincode_deserialize(bytes) {
            Ok(t) => {
                let (title, author, timestamp, rows, compute_kernels) = t;
                Manifest::from_rows(title, author, timestamp, &rows, compute_kernels)
            },
            Err(_) => Err(LoadError::BadManifest),
        }
    }
}

} // verus!
