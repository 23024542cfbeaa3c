use vstd::prelude::*;
use vstd::string::StringExecFns;

use crate::hashes::{Hashes, HashesFileBlobV1};
use crate::kvmap::{assoc_get, KvMap};

verus! {

/// A package manifest normalized into one shape, whatever schema version
/// the index served.
#[derive(Debug)]
pub struct InfoFileImm {
    /// Package id.
    pub id: String,
    /// Package version.
    pub version: String,
    /// SPDX license string.
    pub license: String,
    /// Source repository locator.
    pub git: String,
    /// Package description.
    pub description: String,
    /// The binaries this package is authorized to install.
    pub bins: Vec<String>,
    /// Free-form metadata.
    pub info: KvMap<String>,
    /// Compression and packaging of the archive.
    pub archive: InfoFileArchiveV2,
    /// Names of the auxiliary report files.
    pub files: InfoFileFilesV2,
    /// The archive file for the requested target.
    pub archive_name: String,
    /// Hashes of the archive for the requested target.
    pub archive_hashes: Hashes,
    /// Hashes of each binary for the requested target.
    pub bins_hashes: KvMap<Hashes>,
    /// Present for the older schema, which keeps hashes in a separate file.
    pub polyfill: Option<InfoFileImmPolyFill>,
}

/// Where the older manifest schema keeps its hashes.
#[derive(Debug)]
pub struct InfoFileImmPolyFill {
    /// The hash-manifest file to fetch.
    pub hash_file: String,
    /// Its signature file, when the index signs it.
    pub hash_file_sig: Option<String>,
}

/// A package manifest as fetched, tagged with its schema version.
#[derive(Debug)]
pub enum InfoFile {
    V1(InfoFileV1),
    V2(InfoFileV2),
}

/// The current manifest schema: hashes carried inline, per target.
#[derive(Debug)]
pub struct InfoFileV2 {
    pub id: String,
    pub version: String,
    pub license: String,
    pub git: String,
    pub description: String,
    pub bins: Vec<String>,
    pub info: KvMap<String>,
    pub archive: InfoFileArchiveV2,
    pub files: InfoFileFilesV2,
    /// Target built for, mapped to its archive file name.
    pub targets: KvMap<String>,
    /// Target built for, mapped to its hashes.
    pub hashes: KvMap<HashesFileBlobV1>,
}

#[derive(Debug)]
pub struct InfoFileArchiveV2 {
    /// Archive compression; only "gz" is understood.
    pub compression: String,
    /// Archive packaging; only "tar" is understood.
    pub package: String,
}

#[derive(Debug)]
pub struct InfoFileFilesV2 {
    pub license: String,
    pub deps: String,
    pub audit: String,
}

/// The older manifest schema: hashes in a separate file, tar packaging
/// implied.
#[derive(Debug)]
pub struct InfoFileV1 {
    pub id: String,
    pub version: String,
    pub license: String,
    pub git: String,
    pub description: String,
    pub bins: Vec<String>,
    pub info: KvMap<String>,
    pub archive: InfoFileArchiveV1,
    pub files: InfoFileFilesV1,
    pub targets: Vec<String>,
}

#[derive(Debug)]
pub struct InfoFileArchiveV1 {
    pub compression: String,
    /// Archive file extension; the file name is the target plus this.
    pub ext: String,
}

#[derive(Debug)]
pub struct InfoFileFilesV1 {
    /// The separate hash-manifest file.
    pub hash: String,
    pub license: String,
    pub deps: String,
    pub audit: String,
    pub sig_info: Option<String>,
    pub sig_hash: Option<String>,
}

/// What normalizing a fetched manifest for one requested target yields.
pub open spec fn spec_converted(info: InfoFile, tgt: Seq<char>, r: InfoFileImm) -> bool {
    match info {
        InfoFile::V1(i) => r.id == i.id && r.version == i.version && r.license == i.license
            && r.git == i.git && r.description == i.description && r.bins == i.bins
            && r.info == i.info && r.archive.compression == i.archive.compression
            && r.archive.package@ == "tar"@ && r.files.license == i.files.license
            && r.files.deps == i.files.deps && r.files.audit == i.files.audit
            && r.archive_name@ == tgt + "."@ + i.archive.ext@
            && r.archive_hashes.spec_is_empty() && r.bins_hashes@.len() == 0 && (
        r.polyfill matches Some(p) && p.hash_file == i.files.hash && p.hash_file_sig
            == i.files.sig_hash),
        InfoFile::V2(i) => r.id == i.id && r.version == i.version && r.license == i.license
            && r.git == i.git && r.description == i.description && r.bins == i.bins
            && r.info == i.info && r.archive == i.archive && r.files == i.files && (match
        assoc_get(i.targets@, tgt) {
            Some(n) => r.archive_name == n,
            None => r.archive_name@ == tgt + ".tar.gz"@,
        }) && (match assoc_get(i.hashes@, tgt) {
            Some(hb) => r.archive_hashes == hb.archive && r.bins_hashes == hb.bins,
            None => r.archive_hashes.spec_is_empty() && r.bins_hashes@.len() == 0,
        }) && r.polyfill is None,
    }
}

/// The manifest's id, whatever the schema.
pub open spec fn spec_info_id(info: InfoFile) -> Seq<char> {
    match info {
        InfoFile::V1(i) => i.id@,
        InfoFile::V2(i) => i.id@,
    }
}

/// The manifest's version, whatever the schema.
pub open spec fn spec_info_version(info: InfoFile) -> Seq<char> {
    match info {
        InfoFile::V1(i) => i.version@,
        InfoFile::V2(i) => i.version@,
    }
}

impl InfoFileImm {
    /// Normalizes a fetched manifest for one requested target: the older
    /// schema gets tar packaging, a computed archive name and a pointer to
    /// its separate hash file; the current schema has its hashes and archive
    /// name for the target pulled inline.
    pub fn convert(info: InfoFile, target: &String) -> (r: InfoFileImm)
        ensures
            spec_converted(info, target@, r),
    {
        match info {
            InfoFile::V1(i) => {
                let archive_name = target.clone().concat(".").concat(i.archive.ext.as_str());
                proof {
                    assert(archive_name@ == target@ + "."@ + i.archive.ext@);
                }
                InfoFileImm {
                    id: i.id,
                    version: i.version,
                    license: i.license,
                    git: i.git,
                    description: i.description,
                    bins: i.bins,
                    info: i.info,
                    archive: InfoFileArchiveV2 {
                        compression: i.archive.compression,
                        package: "tar".to_owned(),
                    },
                    files: InfoFileFilesV2 {
                        license: i.files.license,
                        deps: i.files.deps,
                        audit: i.files.audit,
                    },
                    archive_name,
                    archive_hashes: Hashes::new(),
                    bins_hashes: KvMap::new(),
                    polyfill: Some(
                        InfoFileImmPolyFill {
                            hash_file: i.files.hash,
                            hash_file_sig: i.files.sig_hash,
                        },
                    ),
                }
            },
            InfoFile::V2(i) => {
                let mut targets = i.targets;
                let mut hashes = i.hashes;
                let archive_name = match targets.remove(target.as_str()) {
                    Some(n) => n,
                    None => target.clone().concat(".tar.gz"),
                };
                let (archive_hashes, bins_hashes) = match hashes.remove(target.as_str()) {
                    Some(hb) => (hb.archive, hb.bins),
                    None => (Hashes::new(), KvMap::new()),
                };
                InfoFileImm {
                    id: i.id,
                    version: i.version,
                    license: i.license,
                    git: i.git,
                    description: i.description,
                    bins: i.bins,
                    info: i.info,
                    archive: i.archive,
                    files: i.files,
                    archive_name,
                    archive_hashes,
                    bins_hashes,
                    polyfill: None,
                }
            },
        }
    }
}

} // verus!
