use vstd::prelude::*;

use crate::config::ReportType;
use crate::hashes::Hashes;
use crate::info::InfoFileImm;
use crate::interact::Interact;
use crate::strutil::{spec_strip_exe, strip_exe, vec_contains_str};
use crate::errors::TransportError;
use crate::trust;

verus! {

/// Whether a name denotes one of the manifest's authorized binaries, once a
/// windows executable suffix is stripped.
pub open spec fn spec_is_bin(info: InfoFileImm, name: Seq<char>) -> bool {
    info.bins.deep_view().contains(spec_strip_exe(name))
}

/// Whether an archive entry's name, stripped of a windows executable
/// suffix, is one of the manifest's authorized binaries.
pub fn entry_is_bin(info: &InfoFileImm, bin_name: &str) -> (r: bool)
    ensures
        r == spec_is_bin(*info, bin_name@),
{
    let stripped = strip_exe(bin_name);
    vec_contains_str(&info.bins, stripped.as_str())
}

/// The manifest file a report kind is served from.
pub fn report_file_name(report: ReportType, info: &InfoFileImm) -> (r: String)
    ensures
        r@ == match report {
            ReportType::LicenseDL | ReportType::LicenseEvent => info.files.license@,
            ReportType::DepsDL | ReportType::DepsEvent => info.files.deps@,
            ReportType::AuditDL | ReportType::AuditEvent => info.files.audit@,
            ReportType::InfoJsonDL | ReportType::InfoJsonEvent => "info.json"@,
        },
{
    match report {
        ReportType::LicenseDL | ReportType::LicenseEvent => info.files.license.clone(),
        ReportType::DepsDL | ReportType::DepsEvent => info.files.deps.clone(),
        ReportType::AuditDL | ReportType::AuditEvent => info.files.audit.clone(),
        ReportType::InfoJsonDL | ReportType::InfoJsonEvent => "info.json".to_owned(),
    }
}

/// Fetches items from one index through the backend it was created with.
pub struct Fetcher<I: Interact> {
    pub interact: I,
}

impl<I: Interact> Fetcher<I> {
    pub fn new(interact: I) -> (r: Fetcher<I>)
        ensures
            r.interact == interact,
    {
        Fetcher { interact }
    }

    /// The latest version the index offers for this package.
    pub fn get_latest(&mut self, id: &str) -> Result<String, TransportError> {
        self.fetch_latest(id)
    }

    pub fn fetch_latest(&mut self, id: &str) -> Result<String, TransportError> {
        self.interact.get_latest(id)
    }

    pub fn fetch_str(&mut self, id: &str, version: &str, file: &str) -> Result<
        String,
        TransportError,
    > {
        self.interact.get_str(id, version, file)
    }

    pub fn fetch_blob(&mut self, id: &str, version: &str, file: &str) -> Result<
        Vec<u8>,
        TransportError,
    > {
        self.interact.get_blob(id, version, file)
    }

    /// Whether an archive entry's name, stripped of a windows executable
    /// suffix, is one of the manifest's authorized binaries.
    pub fn is_bin(info: &InfoFileImm, bin_name: &str) -> (r: bool)
        ensures
            r == spec_is_bin(*info, bin_name@),
    {
        entry_is_bin(info, bin_name)
    }

    /// Whether the bytes match the strongest digest recorded for them; used
    /// in update mode against installed binaries.
    pub fn verify_bytes_update(in_hashes: &Hashes, bytes: &[u8]) -> (r: bool)
        ensures
            r == trust::spec_hash_matches(*in_hashes, bytes@),
    {
        trust::verify_bytes_update(in_hashes, bytes)
    }

    /// Verifies one extracted binary against the hash the manifest records
    /// for it.
    pub fn verify_binary(info: &InfoFileImm, binary_name: &str, bytes: &[u8], no_hash: bool) -> (r:
        Result<(), crate::errors::PipeError>)
        ensures
            ({
                let h = crate::kvmap::assoc_get(info.bins_hashes@, spec_strip_exe(binary_name@));
                &&& h is None ==> r is Err
                &&& h matches Some(hs) ==> {
                    &&& no_hash ==> r is Ok
                    &&& !no_hash && crate::install::spec_verify_ok(hs, bytes@) ==> r is Ok
                    &&& !no_hash && !crate::install::spec_verify_ok(hs, bytes@) ==> r is Err
                }
            }),
    {
        crate::install::verify_binary(info, binary_name, bytes, no_hash)
    }
}

} // verus!
