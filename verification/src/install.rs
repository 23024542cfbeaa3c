use vstd::prelude::*;

use crate::config::Config;
use crate::errors::{ArchiveIntegrityError, PipeError, TrustError};
use crate::get::{entry_is_bin, spec_is_bin};
use crate::hashes::Hashes;
use crate::info::InfoFileImm;
use crate::kvmap::assoc_get;
use crate::pipeline::spec_is_windows;
use crate::strutil::{contains_char, contains_sub, spec_strip_exe, strip_exe};
use crate::trust::{hash_of, hex_of, verify_bytes};

verus! {

/// The entries of a gzip-compressed tar archive: paths and contents, a
/// function of the archive bytes alone; nothing when the bytes are not such
/// an archive or an entry's path is not text.
pub uninterp spec fn archive_entries_of(b: Seq<u8>) -> Option<Seq<(Seq<char>, Seq<u8>)>>;

/// Relies on flate2::read::GzDecoder and tar::Archive: decompressing and
/// unpacking an archive held wholly in memory, entry order as stored.
#[verifier::external_body]
fn decode_archive(bytes: &Vec<u8>) -> (r: Option<Vec<(String, Vec<u8>)>>)
    ensures
        match r {
            Some(es) => archive_entries_of(bytes@) == Some(es.deep_view()),
            None => archive_entries_of(bytes@) is None,
        },
{
    let gz = flate2::read::GzDecoder::new(std::io::Cursor::new(bytes.as_slice()));
    let mut ar = tar::Archive::new(gz);
    let mut out: Vec<(String, Vec<u8>)> = Vec::new();
    for e in ar.entries().ok()? {
        let mut e = e.ok()?;
        let name = e.path().ok()?.to_str()?.to_string();
        let mut data = Vec::new();
        std::io::Read::read_to_end(&mut e, &mut data).ok()?;
        out.push((name, data));
    }
    Some(out)
}

/// One file the installer is to write: the bytes, the name to write them
/// under directly inside the install directory, and whether to set an
/// executable permission bit.
#[derive(Debug)]
pub struct InstallAction {
    pub name: String,
    pub data: Vec<u8>,
    pub set_exec: bool,
}

/// A name free of path separators: it cannot escape the flat install
/// directory. Both separator characters are rejected on every platform.
pub open spec fn spec_sep_free(name: Seq<char>) -> bool {
    !name.contains('/') && !name.contains('\\')
}

/// Whether recorded hashes vouch for the bytes: the strongest recorded
/// algorithm matches, or none is recorded at all to check against.
pub open spec fn spec_verify_ok(h: Hashes, data: Seq<u8>) -> bool {
    match h.spec_chosen() {
        Some(cc) => cc.1 == hex_of(hash_of(cc.0, data)),
        None => true,
    }
}

/// Everything the installer demands of one archive entry under this
/// configuration.
pub open spec fn spec_entry_ok(fi: InfoFileImm, c: Config, name: Seq<char>, data: Seq<u8>) -> bool {
    &&& spec_sep_free(name)
    &&& spec_is_bin(fi, name)
    &&& c.hash_bins ==> assoc_get(fi.bins_hashes@, spec_strip_exe(name)) is Some
    &&& c.hash_bins && !c.no_hash ==> (match assoc_get(fi.bins_hashes@, spec_strip_exe(name)) {
        Some(h) => spec_verify_ok(h, data),
        None => false,
    })
}

/// Verifies one extracted binary's bytes against the hash the manifest
/// records for it: a binary the manifest records no hashes for cannot be
/// verified at all, and a recorded digest must match unless hash checking
/// is off.
pub fn verify_binary(info: &InfoFileImm, binary_name: &str, bytes: &[u8], no_hash: bool) -> (r:
    Result<(), PipeError>)
    ensures
        ({
            let h = assoc_get(info.bins_hashes@, spec_strip_exe(binary_name@));
            &&& h is None ==> (r matches Err(PipeError::Archive(
                ArchiveIntegrityError::MissingBinaryHash(n),
            )) && n@ == binary_name@)
            &&& h matches Some(hs) ==> {
                &&& no_hash ==> r is Ok
                &&& !no_hash && spec_verify_ok(hs, bytes@) ==> r is Ok
                &&& !no_hash && !spec_verify_ok(hs, bytes@) ==> (r matches Err(PipeError::Trust(
                    TrustError::HashMismatch(t),
                )) && hs.spec_chosen() matches Some(cc) && cc.0 == t)
            }
        }),
{
    let stripped = strip_exe(binary_name);
    match info.bins_hashes.get(stripped.as_str()) {
        None => Err(
            PipeError::Archive(ArchiveIntegrityError::MissingBinaryHash(binary_name.to_owned())),
        ),
        Some(h) => match verify_bytes(no_hash, h, bytes) {
            Ok(_) => Ok(()),
            Err(te) => Err(PipeError::Trust(te)),
        },
    }
}

/// Turns a verified archive into the writes to perform, enforcing the
/// archive-integrity rules: an entry with a path separator in its name, or
/// named outside the manifest's binary list, poisons the whole archive and
/// nothing at all is handed out to be written; under the binary-hashing
/// policy each entry's bytes must also match its recorded hash before it
/// may be written.
pub fn install(info: &InfoFileImm, cfg: &Config, archive: &Vec<u8>) -> (r: Result<
    Vec<InstallAction>,
    PipeError,
>)
    ensures
        archive_entries_of(archive@) is None <==> r == Err::<Vec<InstallAction>, PipeError>(
            PipeError::Archive(ArchiveIntegrityError::MalformedArchive),
        ),
        r matches Ok(actions) ==> (archive_entries_of(archive@) matches Some(es) && {
            &&& actions@.len() == es.len()
            &&& forall|i: int| 0 <= i < es.len() ==> {
                &&& (#[trigger] actions@[i]).name@ == es[i].0
                &&& actions@[i].data@ == es[i].1
                &&& actions@[i].set_exec == !spec_is_windows(cfg.target@)
            }
            &&& forall|i: int|
                0 <= i < es.len() ==> spec_entry_ok(
                    *info,
                    *cfg,
                    (#[trigger] es[i]).0,
                    es[i].1,
                )
        }),
        archive_entries_of(archive@) matches Some(es) && (forall|i: int|
            0 <= i < es.len() ==> spec_entry_ok(*info, *cfg, es[i].0, es[i].1)) ==> r is Ok,
        archive_entries_of(archive@) matches Some(es) && (exists|i: int|
            0 <= i < es.len() && !spec_sep_free(#[trigger] es[i].0)) ==> r is Err,
        archive_entries_of(archive@) matches Some(es) && (exists|i: int|
            0 <= i < es.len() && !spec_is_bin(*info, #[trigger] es[i].0)) ==> r is Err,
{
    let mut es = match decode_archive(archive) {
        Some(es) => es,
        None => {
            return Err(PipeError::Archive(ArchiveIntegrityError::MalformedArchive));
        },
    };
    let windows = contains_sub(cfg.target.as_str(), "windows");
    let ghost all = es.deep_view();
    let mut actions: Vec<InstallAction> = Vec::new();
    proof {
        assert(es.deep_view() =~= all.skip(0));
    }
    while es.len() > 0
        invariant
            archive_entries_of(archive@) is Some,
            all == archive_entries_of(archive@)->0,
            actions@.len() + es@.len() == all.len(),
            es.deep_view() =~= all.skip(actions@.len() as int),
            windows == spec_is_windows(cfg.target@),
            forall|k: int| 0 <= k < actions@.len() ==> {
                &&& (#[trigger] actions@[k]).name@ == all[k].0
                &&& actions@[k].data@ == all[k].1
                &&& actions@[k].set_exec == !spec_is_windows(cfg.target@)
            },
            forall|k: int|
                0 <= k < actions@.len() ==> spec_entry_ok(
                    *info,
                    *cfg,
                    (#[trigger] all[k]).0,
                    all[k].1,
                ),
        decreases es@.len(),
    {
        let ghost done = actions@.len() as int;
        let ghost pre_seq = es@;
        let ghost pre_deep = es.deep_view();
        proof {
            assert(es.deep_view()[0] == all[done]);
        }
        let e = es.remove(0);
        let name = e.0;
        let data = e.1;
        proof {
            assert(e == pre_seq[0]);
            assert(pre_deep[0] == pre_seq[0].deep_view());
            assert(name@ == all[done].0);
            assert(data@ == all[done].1);
            assert forall|k: int| 0 <= k < es@.len() implies #[trigger] es.deep_view()[k]
                == all.skip(done + 1)[k] by {
                assert(es.deep_view()[k] == es@[k].deep_view());
                assert(es@[k] == pre_seq[k + 1]);
                assert(pre_deep[k + 1] == pre_seq[k + 1].deep_view());
                assert(pre_deep[k + 1] == all.skip(done)[k + 1]);
            }
            assert(es.deep_view() =~= all.skip(done + 1));
        }
        if contains_char(name.as_str(), '/') || contains_char(name.as_str(), '\\') {
            return Err(PipeError::Archive(ArchiveIntegrityError::IllegalPath(name)));
        }
        if !entry_is_bin(info, name.as_str()) {
            return Err(PipeError::Archive(ArchiveIntegrityError::UnauthorizedBinary(name)));
        }
        if cfg.hash_bins {
            match verify_binary(info, name.as_str(), data.as_slice(), cfg.no_hash) {
                Ok(()) => {},
                Err(e2) => {
                    return Err(e2);
                },
            }
        }
        actions.push(InstallAction { name, data, set_exec: !windows });
    }
    proof {
        assert(actions@.len() == all.len());
    }
    Ok(actions)
}

} // verus!
