use cargo_prebuilt::config::{Config, Meta, ReportType};
use cargo_prebuilt::events;
use cargo_prebuilt::hashes::{
    HashType, Hashes, HashesFile, HashesFileBlobV1, HashesFileV1,
};
use cargo_prebuilt::info::{
    InfoFile, InfoFileArchiveV1, InfoFileFilesV1, InfoFileImm, InfoFileV1,
};
use cargo_prebuilt::kvmap::KvMap;
use cargo_prebuilt::strutil::{concat_at, split_on_char, split_once_char, strip_exe};

fn v1_manifest() -> InfoFile {
    InfoFile::V1(InfoFileV1 {
        id: "tool".to_string(),
        version: "1.2.0".to_string(),
        license: "MIT".to_string(),
        git: "https://example.com/tool".to_string(),
        description: "a tool".to_string(),
        bins: vec!["tool".to_string()],
        info: KvMap::new(),
        archive: InfoFileArchiveV1 { compression: "gz".to_string(), ext: "tar.gz".to_string() },
        files: InfoFileFilesV1 {
            hash: "hashes.json".to_string(),
            license: "license.report".to_string(),
            deps: "deps.report".to_string(),
            audit: "audit.report".to_string(),
            sig_info: Some("info.json.minisig".to_string()),
            sig_hash: Some("hashes.json.minisig".to_string()),
        },
        targets: vec!["x86_64-unknown-linux-gnu".to_string()],
    })
}

#[test]
fn convert_v1_computes_archive_name_and_polyfill() {
    let target = "x86_64-unknown-linux-gnu".to_string();
    let fi = InfoFileImm::convert(v1_manifest(), &target);
    assert_eq!(fi.id, "tool");
    assert_eq!(fi.version, "1.2.0");
    assert_eq!(fi.archive.compression, "gz");
    assert_eq!(fi.archive.package, "tar");
    assert_eq!(fi.archive_name, "x86_64-unknown-linux-gnu.tar.gz");
    assert!(fi.archive_hashes.is_empty());
    let pf = fi.polyfill.expect("the older schema needs its hash file");
    assert_eq!(pf.hash_file, "hashes.json");
    assert_eq!(pf.hash_file_sig.as_deref(), Some("hashes.json.minisig"));
}

#[test]
fn convert_v2_pulls_target_hashes_inline() {
    let target = "x86_64-unknown-linux-gnu".to_string();
    let mut archive_hashes = Hashes::new();
    archive_hashes.sha256 = Some("aa".to_string());
    let mut hashes: KvMap<HashesFileBlobV1> = KvMap::new();
    hashes.insert(
        target.clone(),
        HashesFileBlobV1 { archive: archive_hashes, bins: KvMap::new() },
    );
    let mut targets: KvMap<String> = KvMap::new();
    targets.insert(target.clone(), "custom-name.tar.gz".to_string());
    let info = InfoFile::V2(cargo_prebuilt::info::InfoFileV2 {
        id: "tool".to_string(),
        version: "1.2.0".to_string(),
        license: "MIT".to_string(),
        git: "https://example.com/tool".to_string(),
        description: "a tool".to_string(),
        bins: vec!["tool".to_string()],
        info: KvMap::new(),
        archive: cargo_prebuilt::info::InfoFileArchiveV2 {
            compression: "gz".to_string(),
            package: "tar".to_string(),
        },
        files: cargo_prebuilt::info::InfoFileFilesV2 {
            license: "license.report".to_string(),
            deps: "deps.report".to_string(),
            audit: "audit.report".to_string(),
        },
        targets,
        hashes,
    });
    let fi = InfoFileImm::convert(info, &target);
    assert_eq!(fi.archive_name, "custom-name.tar.gz");
    assert_eq!(fi.archive_hashes.get(HashType::Sha256).as_deref(), Some("aa"));
    assert!(fi.polyfill.is_none());
}

#[test]
fn convert_v2_for_unknown_target_leaves_hashes_empty() {
    let target = "aarch64-apple-darwin".to_string();
    let info = InfoFile::V2(cargo_prebuilt::info::InfoFileV2 {
        id: "tool".to_string(),
        version: "1.2.0".to_string(),
        license: "MIT".to_string(),
        git: "https://example.com/tool".to_string(),
        description: "a tool".to_string(),
        bins: vec!["tool".to_string()],
        info: KvMap::new(),
        archive: cargo_prebuilt::info::InfoFileArchiveV2 {
            compression: "gz".to_string(),
            package: "tar".to_string(),
        },
        files: cargo_prebuilt::info::InfoFileFilesV2 {
            license: "license.report".to_string(),
            deps: "deps.report".to_string(),
            audit: "audit.report".to_string(),
        },
        targets: KvMap::new(),
        hashes: KvMap::new(),
    });
    let fi = InfoFileImm::convert(info, &target);
    assert_eq!(fi.archive_name, "aarch64-apple-darwin.tar.gz");
    assert!(fi.archive_hashes.is_empty());
}

#[test]
fn hashes_file_normalizes_to_v1() {
    let mut table: KvMap<HashesFileBlobV1> = KvMap::new();
    table.insert(
        "t".to_string(),
        HashesFileBlobV1 { archive: Hashes::new(), bins: KvMap::new() },
    );
    let f = HashesFileV1::from(HashesFile::V1(HashesFileV1 { hashes: table }));
    assert_eq!(f.hashes.len(), 1);
}

#[test]
fn hash_type_round_trips() {
    for (name, t) in [
        ("sha256", HashType::Sha256),
        ("sha512", HashType::Sha512),
        ("sha3_256", HashType::Sha3_256),
        ("sha3_512", HashType::Sha3_512),
    ] {
        assert_eq!(HashType::try_from(name), Ok(t));
        assert_eq!(t.as_str(), name);
    }
    assert_eq!(HashType::try_from("md5"), Err(()));
}

#[test]
fn kvmap_inserts_and_removes() {
    let mut m: KvMap<u32> = KvMap::new();
    assert!(m.is_empty());
    m.insert("a".to_string(), 1);
    m.insert("b".to_string(), 2);
    assert_eq!(m.len(), 2);
    assert_eq!(m.get("a"), Some(&1));
    assert_eq!(m.get("c"), None);
    assert_eq!(m.remove("a"), Some(1));
    assert_eq!(m.get("a"), None);
    assert_eq!(m.remove("a"), None);
    assert_eq!(m.entry(0).0.as_str(), "b");
}

#[test]
fn package_specs_split_on_the_at_sign() {
    assert_eq!(
        split_once_char("tool@1.2.0", '@'),
        Some(("tool".to_string(), "1.2.0".to_string()))
    );
    assert_eq!(split_once_char("tool", '@'), None);
}

#[test]
fn csv_splitting_keeps_empty_segments() {
    assert_eq!(split_on_char("a,b", ','), vec!["a".to_string(), "b".to_string()]);
    assert_eq!(split_on_char("", ','), vec![String::new()]);
    assert_eq!(
        split_on_char("a,,b,", ','),
        vec!["a".to_string(), String::new(), "b".to_string(), String::new()]
    );
}

#[test]
fn exe_suffix_strips_once_at_the_end() {
    assert_eq!(strip_exe("tool.exe"), "tool");
    assert_eq!(strip_exe("tool"), "tool");
    assert_eq!(strip_exe("tool.exe.exe"), "tool.exe");
    assert_eq!(strip_exe(".exe"), "");
}

fn quiet_config() -> Config {
    Config {
        target: "x86_64-unknown-linux-gnu".to_string(),
        safe: false,
        update: false,
        index: "gh-pub:example.com/index".to_string(),
        pub_keys: Vec::new(),
        auth: None,
        ci: false,
        no_sig: true,
        no_hash: false,
        hash_bins: false,
        path: "/tmp/bin".to_string(),
        report_path: "/tmp/reports".to_string(),
        no_create_path: false,
        reports: vec![ReportType::LicenseDL],
        out: false,
        get_latest: false,
        packages: Vec::new(),
    }
}

#[test]
fn events_respect_the_out_flag() {
    let mut cfg = quiet_config();
    let meta = Meta::new("tool", "1.2.0", cfg.clone());
    assert!(events::installed(&meta).is_none());
    assert!(events::no_update(&meta).is_none());
    assert!(events::target(&meta).is_none());
    cfg.out = true;
    let meta = Meta::new("tool", "1.2.0", cfg);
    let e = events::installed(&meta).unwrap();
    assert_eq!(e.event, "installed");
    assert_eq!(e.data, "tool@1.2.0");
    let e = events::no_update(&meta).unwrap();
    assert_eq!(e.event, "no_update");
    let e = events::info_verify(&meta, true).unwrap();
    assert_eq!(e.data, "true");
    let e = events::binary_installed(&meta, "/tmp/bin/tool").unwrap();
    assert_eq!(e.data, "/tmp/bin/tool");
}

#[test]
fn print_events_are_unconditional() {
    let meta = Meta::new("tool", "1.2.0", quiet_config());
    assert_eq!(events::print_license(&meta, "MIT text").event, "print_license");
    assert_eq!(events::print_deps(&meta, "deps text").data, "deps text");
    assert_eq!(events::print_audit(&meta, "audit text").event, "print_audit");
    assert_eq!(events::print_info_json(&meta, "{}").event, "print_info_json");
    let e = events::get_latest("tool", "2.0.0");
    assert_eq!(e.event, "latest_version");
    assert_eq!(e.data, "2.0.0");
    assert_eq!(concat_at("tool", "2.0.0"), "tool@2.0.0");
}
