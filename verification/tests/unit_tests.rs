use brontok_cure::hash::{sha256_hex, Sha256Stream};
use brontok_cure::path::base_name_of;
use brontok_cure::scan::{aux_scan_dirs, next_stage, select_fixed_volumes, Stage, VolumeInfo, VolumeKind};
use brontok_cure::sig::SignatureStore;
use brontok_cure::text::{to_lower, u64_to_string};

#[test]
fn lowercase_folds_ascii_only() {
    assert_eq!(to_lower("BrOnToK.ExE"), "brontok.exe");
    assert_eq!(to_lower("already lower 123"), "already lower 123");
    assert_eq!(to_lower(""), "");
}

#[test]
fn lowercase_folding_is_ascii_only() {
    // Case folding is ASCII case folding: characters outside A..Z are kept
    // as they are, which is all the name set ever needs.
    assert_eq!(to_lower("Äha.EXE"), "Äha.exe");
}

#[test]
fn empty_store_matches_nothing() {
    let s = SignatureStore::new(Vec::new(), Vec::new());
    assert!(!s.contains_name("brontok.exe"));
    assert!(!s.contains_name(""));
    assert!(!s.contains_digest(""));
}

#[test]
fn decimal_rendering() {
    assert_eq!(u64_to_string(0), "0");
    assert_eq!(u64_to_string(4242), "4242");
    assert_eq!(u64_to_string(u64::MAX), "18446744073709551615");
}

#[test]
fn base_name_extraction() {
    assert_eq!(base_name_of("C:\\X\\brontok.exe"), "brontok.exe");
    assert_eq!(base_name_of("plain.txt"), "plain.txt");
    assert_eq!(base_name_of("a/b/c.txt"), "c.txt");
    assert_eq!(base_name_of("mixed\\dir/leaf.vbs"), "leaf.vbs");
    assert_eq!(base_name_of("dir\\"), "");
    assert_eq!(base_name_of(""), "");
}

#[test]
fn name_set_is_case_insensitive() {
    let s = SignatureStore::new(
        vec!["Brontok.EXE".to_string(), "system.exe".to_string()],
        vec![],
    );
    assert!(s.contains_name("brontok.exe"));
    assert!(s.contains_name("BRONTOK.exe"));
    assert!(s.contains_name("SYSTEM.EXE"));
    assert!(!s.contains_name("brontok.ex"));
    assert!(!s.contains_name("explorer.exe"));
}

#[test]
fn digest_set_is_exact() {
    let s = SignatureStore::new(vec![], vec!["d41d8cd98f00b204e9800998ecf8427e".to_string()]);
    assert!(s.contains_digest("d41d8cd98f00b204e9800998ecf8427e"));
    assert!(!s.contains_digest("D41D8CD98F00B204E9800998ECF8427E"));
    assert!(!s.contains_digest("d41d8cd98f00b204e9800998ecf8427"));
}

#[test]
fn sha256_known_values() {
    assert_eq!(
        sha256_hex(b""),
        "e3b0c44298fc1c149afbf4c8996fb92427ae41e4649b934ca495991b7852b855"
    );
    assert_eq!(
        sha256_hex(b"abc"),
        "ba7816bf8f01cfea414140de5dae2223b00361a396177a9cb410ff61f20015ad"
    );
}

#[test]
fn sha256_streaming_equals_one_shot() {
    let mut h = Sha256Stream::new();
    h.update(b"ab");
    h.update(b"c");
    assert_eq!(h.finalize_hex(), sha256_hex(b"abc"));
}

#[test]
fn short_digest_entries_never_match_a_real_digest() {
    // The classic signature lists carry 32-character digest values; a real
    // SHA-256 digest renders as 64 characters, so such entries can never
    // match — silently, with no load-time error.
    let s = SignatureStore::new(
        vec![],
        vec![
            "d41d8cd98f00b204e9800998ecf8427e".to_string(),
            "e99a18c428cb38d5f260853678922e03".to_string(),
            "b2d6f89c933fa12a8a3e99d4f9a1f6b3".to_string(),
        ],
    );
    let d = sha256_hex(b"");
    assert_eq!(d.len(), 64);
    assert!(!s.contains_digest(&d));
}

#[test]
fn only_fixed_volumes_are_scanned() {
    let vols = vec![
        VolumeInfo { mount: "C:\\".to_string(), kind: VolumeKind::HardDisk },
        VolumeInfo { mount: "D:\\".to_string(), kind: VolumeKind::Removable },
        VolumeInfo { mount: "E:\\".to_string(), kind: VolumeKind::SolidState },
        VolumeInfo { mount: "F:\\".to_string(), kind: VolumeKind::Other },
    ];
    assert_eq!(select_fixed_volumes(&vols), vec!["C:\\".to_string(), "E:\\".to_string()]);
}

#[test]
fn no_volumes_yield_an_empty_scan_list() {
    assert!(select_fixed_volumes(&Vec::new()).is_empty());
}

#[test]
fn auxiliary_directories_follow_the_profile() {
    let dirs = aux_scan_dirs(&Some("C:\\Users\\Bob".to_string()));
    assert_eq!(
        dirs,
        vec![
            "C:\\Users\\Bob\\AppData\\Roaming".to_string(),
            "C:\\Users\\Bob\\AppData\\Local\\Temp".to_string(),
            "C:\\ProgramData".to_string(),
            "C:\\Windows\\Temp".to_string(),
        ]
    );
    let fallback = aux_scan_dirs(&None);
    assert_eq!(fallback[0], "C:\\Users\\Default\\AppData\\Roaming");
    assert_eq!(fallback[1], "C:\\Users\\Default\\AppData\\Local\\Temp");
}

#[test]
fn stages_run_in_order_and_never_skip_cleanup() {
    // The transition out of the volume scan takes no volume input: the
    // auxiliary scan and the registry cleanup follow even when volume
    // enumeration yielded nothing.
    let mut s = Stage::Intro;
    let expected = [
        Stage::PlatformCheck,
        Stage::ProcessScan,
        Stage::FileScanVolumes,
        Stage::FileScanAux,
        Stage::RegistryCleanup,
        Stage::Summary,
        Stage::Summary,
    ];
    for e in expected {
        s = next_stage(s, true);
        assert_eq!(s, e);
    }
}

#[test]
fn unsupported_platform_aborts_before_any_stage() {
    let s = next_stage(next_stage(Stage::Intro, false), false);
    assert_eq!(s, Stage::Abort);
    assert_eq!(next_stage(Stage::Abort, false), Stage::Abort);
}
