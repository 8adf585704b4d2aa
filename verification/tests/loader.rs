use gyo_core::compression::compress;
use gyo_core::container::GyoshoFile;
use gyo_core::error::LoadError;
use gyo_core::loader::{LoadedProject, ProjectLoader};
use gyo_core::manifest::{AssetEntry, AssetKind, Manifest};

fn entry(id: &str, kind: AssetKind, offset: u64, size: u64) -> AssetEntry {
    AssetEntry { id: id.to_string(), kind, offset, size }
}

fn manifest(assets: Vec<AssetEntry>) -> Manifest {
    Manifest {
        title: "T".to_string(),
        author: "A".to_string(),
        timestamp: 0,
        assets,
        compute_kernels: vec![],
    }
}

fn sample() -> Manifest {
    manifest(vec![entry("main", AssetKind::ShaderSource, 0, 11)])
}

fn container(version: u32, manifest_bytes: Vec<u8>, compressed_payload: Vec<u8>) -> Vec<u8> {
    GyoshoFile {
        magic: *b"GYO1",
        version,
        manifest_len: manifest_bytes.len() as u32,
        manifest_bytes,
        compressed_payload,
    }
    .encode()
}

#[test]
fn end_to_end_example() {
    let m = sample();
    let bytes = GyoshoFile::write_new(&m, b"hello world").expect("writes");
    let project = ProjectLoader::load(&bytes).expect("loads");
    assert_eq!(project.source_code, "hello world");
    assert_eq!(project.manifest, m);
}

#[test]
fn round_trip_with_one_source_spanning_the_payload() {
    let text = "fn vs_main() {}\n// \u{96e8} \u{1f327}\n";
    let m = Manifest {
        title: "Generated Rain".to_string(),
        author: "Gyosho Builder".to_string(),
        timestamp: 1_700_000_000,
        assets: vec![
            entry("tex", AssetKind::Texture, 3, 4),
            entry("main.wgsl", AssetKind::ShaderSource, 0, text.len() as u64),
            entry("mesh", AssetKind::Mesh, 0, 0),
        ],
        compute_kernels: vec![],
    };
    let bytes = GyoshoFile::write_new(&m, text.as_bytes()).expect("writes");
    assert_eq!(
        ProjectLoader::load(&bytes),
        Ok(LoadedProject { manifest: m, source_code: text.to_string() })
    );
}

#[test]
fn round_trip_with_empty_payload() {
    let m = manifest(vec![entry("main", AssetKind::ShaderSource, 0, 0)]);
    let bytes = GyoshoFile::write_new(&m, b"").expect("writes");
    assert_eq!(
        ProjectLoader::load(&bytes),
        Ok(LoadedProject { manifest: m, source_code: String::new() })
    );
}

#[test]
fn load_rejects_wrong_magic() {
    let mut bytes = GyoshoFile::write_new(&sample(), b"hello world").expect("writes");
    bytes[3] = b'2';
    assert_eq!(ProjectLoader::load(&bytes), Err(LoadError::BadMagic));
    assert_eq!(ProjectLoader::load(b"RIFF"), Err(LoadError::BadMagic));
}

#[test]
fn load_short_input_is_truncated_before_magic() {
    assert_eq!(ProjectLoader::load(b""), Err(LoadError::Truncated));
    assert_eq!(ProjectLoader::load(b"XYZ"), Err(LoadError::Truncated));
    assert_eq!(ProjectLoader::load(b"GYO"), Err(LoadError::Truncated));
}

#[test]
fn load_cut_before_end_of_manifest_is_truncated() {
    let bytes = GyoshoFile::write_new(&sample(), b"hello world").expect("writes");
    let manifest_len = sample().serialize().expect("serializes").len();
    for cut in 0..12 + manifest_len {
        assert_eq!(ProjectLoader::load(&bytes[..cut]), Err(LoadError::Truncated));
    }
}

#[test]
fn load_cut_inside_payload_is_decompress() {
    let bytes = GyoshoFile::write_new(&sample(), b"hello world").expect("writes");
    let manifest_len = sample().serialize().expect("serializes").len();
    for cut in 12 + manifest_len..bytes.len() {
        assert_eq!(ProjectLoader::load(&bytes[..cut]), Err(LoadError::Decompress));
    }
    assert!(ProjectLoader::load(&bytes).is_ok());
}

#[test]
fn load_rejects_unsupported_version() {
    let manifest_bytes = sample().serialize().expect("serializes");
    let frame = compress(b"hello world").expect("compresses");
    for version in [0u32, 2, u32::MAX] {
        let bytes = container(version, manifest_bytes.clone(), frame.clone());
        assert_eq!(ProjectLoader::load(&bytes), Err(LoadError::UnsupportedVersion));
    }
    assert!(ProjectLoader::load(&container(1, manifest_bytes, frame)).is_ok());
}

#[test]
fn load_checks_version_before_manifest() {
    let bytes = container(2, vec![1, 2, 3], b"garbage".to_vec());
    assert_eq!(ProjectLoader::load(&bytes), Err(LoadError::UnsupportedVersion));
}

#[test]
fn load_rejects_bad_manifest() {
    let frame = compress(b"hello world").expect("compresses");
    assert_eq!(ProjectLoader::load(&container(1, vec![1, 2, 3], frame)), Err(LoadError::BadManifest));
}

#[test]
fn load_checks_manifest_before_payload() {
    let bytes = container(1, vec![1, 2, 3], b"garbage".to_vec());
    assert_eq!(ProjectLoader::load(&bytes), Err(LoadError::BadManifest));
}

#[test]
fn load_rejects_bad_payload() {
    let manifest_bytes = sample().serialize().expect("serializes");
    let bytes = container(1, manifest_bytes, b"garbage".to_vec());
    assert_eq!(ProjectLoader::load(&bytes), Err(LoadError::Decompress));
}

#[test]
fn load_checks_payload_before_selection() {
    let manifest_bytes = manifest(vec![]).serialize().expect("serializes");
    let bytes = container(1, manifest_bytes, b"garbage".to_vec());
    assert_eq!(ProjectLoader::load(&bytes), Err(LoadError::Decompress));
}

#[test]
fn load_without_shader_source_is_asset_not_found() {
    let m = manifest(vec![entry("t", AssetKind::Texture, 0, 11), entry("m", AssetKind::Mesh, 0, 11)]);
    let bytes = GyoshoFile::write_new(&m, b"hello world").expect("writes");
    assert_eq!(ProjectLoader::load(&bytes), Err(LoadError::AssetNotFound));
    let bytes = GyoshoFile::write_new(&manifest(vec![]), b"hello world").expect("writes");
    assert_eq!(ProjectLoader::load(&bytes), Err(LoadError::AssetNotFound));
}

#[test]
fn load_entry_one_past_the_payload_is_out_of_bounds() {
    let m = manifest(vec![entry("main", AssetKind::ShaderSource, 0, 12)]);
    let bytes = GyoshoFile::write_new(&m, b"hello world").expect("writes");
    assert_eq!(ProjectLoader::load(&bytes), Err(LoadError::OutOfBounds));
}

#[test]
fn load_invalid_text_is_rejected() {
    let m = manifest(vec![entry("main", AssetKind::ShaderSource, 0, 1)]);
    let bytes = GyoshoFile::write_new(&m, &[0x80]).expect("writes");
    assert_eq!(ProjectLoader::load(&bytes), Err(LoadError::InvalidText));
}

#[test]
fn load_is_deterministic() {
    let good = GyoshoFile::write_new(&sample(), b"hello world").expect("writes");
    assert_eq!(ProjectLoader::load(&good), ProjectLoader::load(&good));
    let bad = &good[..good.len() - 1];
    assert_eq!(ProjectLoader::load(bad), ProjectLoader::load(bad));
    assert_eq!(ProjectLoader::load(b"GYO2"), ProjectLoader::load(b"GYO2"));
}

#[test]
fn load_owns_what_it_returns() {
    let project = {
        let bytes = GyoshoFile::write_new(&sample(), b"hello world").expect("writes");
        ProjectLoader::load(&bytes).expect("loads")
    };
    assert_eq!(project.source_code, "hello world");
}

#[test]
fn select_finds_the_first_shader_source() {
    let m = manifest(vec![
        entry("t", AssetKind::Texture, 0, 1),
        entry("s1", AssetKind::ShaderSource, 1, 1),
        entry("m", AssetKind::Mesh, 2, 1),
        entry("s2", AssetKind::ShaderSource, 3, 1),
    ]);
    assert_eq!(ProjectLoader::select(&m), Some(1));
    assert_eq!(ProjectLoader::select(&sample()), Some(0));
    assert_eq!(ProjectLoader::select(&manifest(vec![])), None);
    assert_eq!(ProjectLoader::select(&manifest(vec![entry("m", AssetKind::Mesh, 0, 0)])), None);
}

#[test]
fn extract_slices_the_selected_range() {
    let m = manifest(vec![
        entry("t", AssetKind::Texture, 0, 6),
        entry("s1", AssetKind::ShaderSource, 6, 5),
        entry("s2", AssetKind::ShaderSource, 0, 5),
    ]);
    let project = ProjectLoader::extract(m.clone(), b"hello world").expect("extracts");
    assert_eq!(project.source_code, "world");
    assert_eq!(project.manifest, m);
}

#[test]
fn extract_accepts_an_empty_range_at_the_end() {
    let m = manifest(vec![entry("s", AssetKind::ShaderSource, 11, 0)]);
    let project = ProjectLoader::extract(m, b"hello world").expect("extracts");
    assert_eq!(project.source_code, "");
}

#[test]
fn extract_decodes_multibyte_text() {
    let text = "\u{96e8}";
    let m = manifest(vec![entry("s", AssetKind::ShaderSource, 1, 3)]);
    let mut payload = vec![b'x'];
    payload.extend_from_slice(text.as_bytes());
    payload.push(b'y');
    assert_eq!(ProjectLoader::extract(m, &payload).expect("extracts").source_code, text);
}

#[test]
fn extract_without_shader_source_is_asset_not_found() {
    let m = manifest(vec![entry("t", AssetKind::Texture, 0, 1)]);
    assert_eq!(ProjectLoader::extract(m, b"hello world"), Err(LoadError::AssetNotFound));
}

#[test]
fn extract_checks_bounds() {
    for (offset, size) in [(0u64, 12u64), (11, 1), (12, 0), (5, 7), (u64::MAX, 0)] {
        let m = manifest(vec![entry("s", AssetKind::ShaderSource, offset, size)]);
        assert_eq!(ProjectLoader::extract(m, b"hello world"), Err(LoadError::OutOfBounds));
    }
}

#[test]
fn extract_rejects_a_range_that_overflows() {
    for (offset, size) in [(u64::MAX, 2u64), (1, u64::MAX), (u64::MAX, u64::MAX), (6, u64::MAX - 5)] {
        let m = manifest(vec![entry("s", AssetKind::ShaderSource, offset, size)]);
        assert_eq!(ProjectLoader::extract(m, b"hello world"), Err(LoadError::OutOfBounds));
    }
}

#[test]
fn extract_checks_bounds_before_text() {
    let m = manifest(vec![entry("s", AssetKind::ShaderSource, 0, 2)]);
    assert_eq!(ProjectLoader::extract(m, &[0x80]), Err(LoadError::OutOfBounds));
}

#[test]
fn extract_rejects_invalid_text() {
    let m = manifest(vec![entry("s", AssetKind::ShaderSource, 0, 1)]);
    assert_eq!(ProjectLoader::extract(m, &[0x80]), Err(LoadError::InvalidText));
    let m = manifest(vec![entry("s", AssetKind::ShaderSource, 1, 2)]);
    assert_eq!(ProjectLoader::extract(m, &[b'a', 0xe9, 0x9b, 0xa8]), Err(LoadError::InvalidText));
}

#[test]
fn extract_only_reads_the_selected_range() {
    let m = manifest(vec![entry("s", AssetKind::ShaderSource, 1, 2)]);
    let project = ProjectLoader::extract(m, &[0x80, b'o', b'k', 0xff]).expect("extracts");
    assert_eq!(project.source_code, "ok");
}

#[test]
fn duplicate_ids_are_accepted() {
    let m = manifest(vec![
        entry("same", AssetKind::ShaderSource, 0, 5),
        entry("same", AssetKind::ShaderSource, 6, 5),
    ]);
    let bytes = GyoshoFile::write_new(&m, b"hello world").expect("writes");
    assert_eq!(ProjectLoader::load(&bytes).expect("loads").source_code, "hello");
}

#[test]
fn messages_name_each_failure() {
    let all = [
        LoadError::BadMagic,
        LoadError::Truncated,
        LoadError::UnsupportedVersion,
        LoadError::BadManifest,
        LoadError::Decompress,
        LoadError::AssetNotFound,
        LoadError::OutOfBounds,
        LoadError::InvalidText,
    ];
    for (i, a) in all.iter().enumerate() {
        assert!(!a.message().is_empty());
        for b in &all[i + 1..] {
            assert_ne!(a, b);
            assert_ne!(a.message(), b.message());
        }
    }
    assert_eq!(LoadError::Truncated.message(), "truncated container");
}
