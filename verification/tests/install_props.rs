use cargo_prebuilt::config::{Config, ReportType};
use cargo_prebuilt::errors::{ArchiveIntegrityError, PipeError, TrustError};
use cargo_prebuilt::get::Fetcher;
use cargo_prebuilt::hashes::{HashType, Hashes};
use cargo_prebuilt::info::{
    InfoFile, InfoFileArchiveV2, InfoFileFilesV2, InfoFileImm, InfoFileV2,
};
use cargo_prebuilt::install::{install, verify_binary};
use cargo_prebuilt::interact::Interact;
use cargo_prebuilt::errors::TransportError;
use cargo_prebuilt::kvmap::KvMap;
use cargo_prebuilt::trust::compute_hash;

const TARGET: &str = "x86_64-unknown-linux-gnu";

struct NoIndex;

impl Interact for NoIndex {
    fn get_latest(&mut self, _id: &str) -> Result<String, TransportError> {
        Err(TransportError::ConnectionError)
    }
    fn get_str(&mut self, _id: &str, _version: &str, _f: &str) -> Result<String, TransportError> {
        Err(TransportError::ConnectionError)
    }
    fn get_blob(&mut self, _id: &str, _version: &str, _f: &str) -> Result<Vec<u8>, TransportError> {
        Err(TransportError::ConnectionError)
    }
}

fn config_for(target: &str) -> Config {
    Config {
        target: target.to_string(),
        safe: false,
        update: false,
        index: "gh-pub:example.com/index".to_string(),
        pub_keys: Vec::new(),
        auth: None,
        ci: false,
        no_sig: true,
        no_hash: false,
        hash_bins: false,
        path: "/tmp/bin".to_string(),
        report_path: "/tmp/reports".to_string(),
        no_create_path: false,
        reports: vec![ReportType::LicenseDL],
        out: false,
        get_latest: false,
        packages: Vec::new(),
    }
}

fn tar_gz(entries: &[(&str, &[u8])]) -> Vec<u8> {
    let enc = flate2::write::GzEncoder::new(Vec::new(), flate2::Compression::default());
    let mut builder = tar::Builder::new(enc);
    for (name, data) in entries {
        let mut header = tar::Header::new_gnu();
        header.set_size(data.len() as u64);
        header.set_mode(0o755);
        header.set_cksum();
        builder.append_data(&mut header, name, *data).unwrap();
    }
    builder.into_inner().unwrap().finish().unwrap()
}

fn imm(bins: &[&str], target: &str) -> InfoFileImm {
    let mut bins_hashes: KvMap<Hashes> = KvMap::new();
    for b in bins {
        bins_hashes.insert(b.to_string(), Hashes::new());
    }
    let info = InfoFile::V2(InfoFileV2 {
        id: "tool".to_string(),
        version: "1.2.0".to_string(),
        license: "MIT".to_string(),
        git: "https://example.com/tool".to_string(),
        description: "a tool".to_string(),
        bins: bins.iter().map(|b| b.to_string()).collect(),
        info: KvMap::new(),
        archive: InfoFileArchiveV2 { compression: "gz".to_string(), package: "tar".to_string() },
        files: InfoFileFilesV2 {
            license: "license.report".to_string(),
            deps: "deps.report".to_string(),
            audit: "audit.report".to_string(),
        },
        targets: KvMap::new(),
        hashes: KvMap::new(),
    });
    let mut fi = InfoFileImm::convert(info, &target.to_string());
    fi.bins_hashes = bins_hashes;
    fi
}

#[test]
fn entry_with_path_separator_is_rejected() {
    let archive = tar_gz(&[("sub/evil", b"payload")]);
    // Even a name from the authorized list is rejected once it carries a
    // separator: nothing at all is handed out to write.
    let fi = imm(&["sub/evil", "tool"], TARGET);
    match install(&fi, &config_for(TARGET), &archive) {
        Err(PipeError::Archive(ArchiveIntegrityError::IllegalPath(n))) => {
            assert_eq!(n, "sub/evil");
        }
        other => panic!("expected the illegal-path rejection, got {:?}", other),
    }
}

#[test]
fn dot_dot_entry_is_rejected() {
    // The tar builder itself refuses to put ".." into a path, as an
    // adversarial index would; write the name into the header directly.
    let enc = flate2::write::GzEncoder::new(Vec::new(), flate2::Compression::default());
    let mut builder = tar::Builder::new(enc);
    let mut header = tar::Header::new_gnu();
    header.as_old_mut().name[..7].copy_from_slice(b"../evil");
    header.set_size(7);
    header.set_mode(0o755);
    header.set_cksum();
    builder.append(&header, &b"payload"[..]).unwrap();
    let archive = builder.into_inner().unwrap().finish().unwrap();
    let fi = imm(&["tool"], TARGET);
    match install(&fi, &config_for(TARGET), &archive) {
        Err(PipeError::Archive(ArchiveIntegrityError::IllegalPath(n))) => {
            assert_eq!(n, "../evil");
        }
        other => panic!("expected the illegal-path rejection, got {:?}", other),
    }
}

#[test]
fn unauthorized_binary_is_never_written() {
    let archive = tar_gz(&[("tool", b"fine"), ("rogue", b"payload")]);
    let fi = imm(&["tool"], TARGET);
    match install(&fi, &config_for(TARGET), &archive) {
        Err(PipeError::Archive(ArchiveIntegrityError::UnauthorizedBinary(n))) => {
            assert_eq!(n, "rogue");
        }
        other => panic!("expected the unauthorized-binary rejection, got {:?}", other),
    }
}

#[test]
fn windows_entries_match_after_suffix_strip() {
    let target = "x86_64-pc-windows-msvc";
    let archive = tar_gz(&[("tool.exe", b"bytes")]);
    let fi = imm(&["tool"], target);
    let actions = install(&fi, &config_for(target), &archive).unwrap();
    assert_eq!(actions.len(), 1);
    assert_eq!(actions[0].name, "tool.exe");
    assert!(!actions[0].set_exec);
    assert!(Fetcher::<NoIndex>::is_bin(&fi, "tool.exe"));
    assert!(!Fetcher::<NoIndex>::is_bin(&fi, "other.exe"));
}

#[test]
fn garbage_bytes_are_a_malformed_archive() {
    let fi = imm(&["tool"], TARGET);
    match install(&fi, &config_for(TARGET), &b"not an archive".to_vec()) {
        Err(PipeError::Archive(ArchiveIntegrityError::MalformedArchive)) => {}
        other => panic!("expected the malformed-archive rejection, got {:?}", other),
    }
}

#[test]
fn hash_bins_policy_verifies_each_entry() {
    let data = b"#!tool-bytes";
    let archive = tar_gz(&[("tool", data)]);
    let mut fi = imm(&["tool"], TARGET);
    let mut h = Hashes::new();
    h.sha256 = Some(compute_hash(HashType::Sha256, data));
    let mut bins_hashes: KvMap<Hashes> = KvMap::new();
    bins_hashes.insert("tool".to_string(), h);
    fi.bins_hashes = bins_hashes;
    let mut cfg = config_for(TARGET);
    cfg.hash_bins = true;
    let actions = install(&fi, &cfg, &archive).unwrap();
    assert_eq!(actions.len(), 1);

    // A tampered entry fails under the same policy.
    let tampered = tar_gz(&[("tool", b"#!tool-bytez")]);
    match install(&fi, &cfg, &tampered) {
        Err(PipeError::Trust(TrustError::HashMismatch(HashType::Sha256))) => {}
        other => panic!("expected the per-binary mismatch, got {:?}", other),
    }
}

#[test]
fn hash_bins_policy_demands_a_recorded_hash() {
    let archive = tar_gz(&[("tool", b"bytes")]);
    let mut fi = imm(&["tool"], TARGET);
    fi.bins_hashes = KvMap::new();
    let mut cfg = config_for(TARGET);
    cfg.hash_bins = true;
    match install(&fi, &cfg, &archive) {
        Err(PipeError::Archive(ArchiveIntegrityError::MissingBinaryHash(n))) => {
            assert_eq!(n, "tool");
        }
        other => panic!("expected the missing-hash rejection, got {:?}", other),
    }
}

#[test]
fn verify_binary_checks_one_binary() {
    let data = b"#!tool-bytes";
    let mut fi = imm(&["tool"], TARGET);
    let mut h = Hashes::new();
    h.sha256 = Some(compute_hash(HashType::Sha256, data));
    let mut bins_hashes: KvMap<Hashes> = KvMap::new();
    bins_hashes.insert("tool".to_string(), h);
    fi.bins_hashes = bins_hashes;
    assert!(verify_binary(&fi, "tool", data, false).is_ok());
    assert!(verify_binary(&fi, "tool", b"other bytes", false).is_err());
    assert!(verify_binary(&fi, "tool", b"other bytes", true).is_ok());
    assert!(verify_binary(&fi, "unknown", data, false).is_err());
}
