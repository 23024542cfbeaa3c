use vstd::prelude::*;

use crate::config::{Config, Meta};
use crate::errors::{FilesystemError, PipeError, SupportError, TransportError, TrustError};
use crate::hashes::{HashesFile, HashesFileBlobV1, HashesFileV1};
use crate::info::{spec_converted, spec_info_id, spec_info_version, InfoFile, InfoFileImm};
use crate::kvmap::assoc_get;
use crate::strutil::{clone_strings, contains_sub, has_substring};
use crate::trust::{
    hash_of, hex_of, spec_hash_matches, spec_some_key_verifies, verify_bytes, verify_bytes_update,
    verify_signature,
};

verus! {

/// Where one package stands in the fetch pipeline. The stages are strictly
/// ordered; there is no backward transition.
#[derive(Clone, Copy, Debug, PartialEq, Eq, Structural)]
pub enum Stage {
    /// The manifest text was requested.
    AwaitInfoText,
    /// The manifest's signature was requested.
    AwaitInfoSig,
    /// The manifest text was handed out for parsing.
    AwaitInfoParsed,
    /// Safe mode: the install destinations are being checked for existing
    /// binaries, before anything is downloaded.
    AwaitPaths,
    /// The separate hash manifest was requested (older manifest schema).
    AwaitHashesText,
    /// The hash manifest's signature was requested.
    AwaitHashesSig,
    /// The hash-manifest text was handed out for parsing.
    AwaitHashesParsed,
    /// Update mode: the installed binaries' bytes were requested.
    AwaitBins,
    /// The archive blob was requested.
    AwaitBlob,
    /// Processing ended: verified archive, no change, or failure.
    Finished,
}

/// What the surrounding program hands back to the pipeline: the answer to
/// the action it was last given.
#[derive(Debug)]
pub enum StepInput {
    /// The text of the file asked for by `FetchText`.
    Text(String),
    /// The manifest parsed from the text handed out by `ParseInfo`.
    InfoParsed(InfoFile),
    /// The hash manifest parsed from the text handed out by `ParseHashes`.
    HashesParsed(HashesFile),
    /// For each name given by `CheckPaths`, whether it exists at the
    /// install path.
    PathsChecked(Vec<bool>),
    /// For each name given by `ReadBins`, the installed binary's bytes, or
    /// nothing where it cannot be read.
    BinsRead(Vec<Option<Vec<u8>>>),
    /// The bytes asked for by `FetchBlob`.
    Blob(Vec<u8>),
    /// The fetch or parse asked for failed; always fatal for the package.
    Transport(TransportError),
}

/// What the pipeline asks the surrounding program to do next.
#[derive(Debug)]
pub enum StepOutput {
    /// Fetch this file of the package as text.
    FetchText(String),
    /// Parse this text as a package manifest.
    ParseInfo(String),
    /// Parse this text as a hash manifest.
    ParseHashes(String),
    /// Check, for each name, whether it exists at the install path.
    CheckPaths(Vec<String>),
    /// Read the installed bytes of each named binary.
    ReadBins(Vec<String>),
    /// Fetch this file of the package as bytes.
    FetchBlob(String),
    /// Update mode: every installed binary already matches the manifest;
    /// nothing is downloaded and the package is left as it is.
    NoChange,
    /// The archive, verified as far as policy demands; ready to install.
    Archive(Vec<u8>),
    /// Processing this package failed.
    Fail(PipeError),
}

/// Whether this target names a windows platform, which carries executable
/// suffixes and no permission bits.
pub open spec fn spec_is_windows(target: Seq<char>) -> bool {
    has_substring(target, "windows"@)
}

/// A binary's file name at the install path.
pub open spec fn spec_dest_name(name: Seq<char>, windows: bool) -> Seq<char> {
    if windows {
        name + ".exe"@
    } else {
        name
    }
}

/// The installed file names of the manifest's binaries, for this
/// configuration's target.
pub open spec fn spec_install_names(fi: InfoFileImm, c: Config) -> Seq<Seq<char>> {
    Seq::new(
        fi.bins.deep_view().len(),
        |i: int| spec_dest_name(fi.bins.deep_view()[i], spec_is_windows(c.target@)),
    )
}

/// Whether the manifest records a hash for binary `i` and the installed
/// bytes match it.
pub open spec fn spec_bin_ok(fi: InfoFileImm, i: int, bs: Seq<Option<Vec<u8>>>) -> bool {
    let h = assoc_get(fi.bins_hashes@, fi.bins.deep_view()[i]);
    &&& h is Some
    &&& bs[i] is Some
    &&& spec_hash_matches(h->0, bs[i]->0@)
}

/// Update mode's no-change condition: every authorized binary is installed
/// with bytes matching its recorded hash.
pub open spec fn spec_all_bins_match(fi: InfoFileImm, bs: Seq<Option<Vec<u8>>>) -> bool {
    forall|i: int| 0 <= i < fi.bins.deep_view().len() ==> spec_bin_ok(fi, i, bs)
}

/// The manifest's compression tag, whatever the schema.
pub open spec fn spec_conv_compression(f: InfoFile) -> Seq<char> {
    match f {
        InfoFile::V1(i) => i.archive.compression@,
        InfoFile::V2(i) => i.archive.compression@,
    }
}

/// The manifest's packaging tag; the older schema always packs with tar.
pub open spec fn spec_conv_package(f: InfoFile) -> Seq<char> {
    match f {
        InfoFile::V1(_) => "tar"@,
        InfoFile::V2(i) => i.archive.package@,
    }
}

/// The manifest with hashes for one target merged in from a separate hash
/// manifest.
pub open spec fn spec_with_hashes(fi: InfoFileImm, hb: HashesFileBlobV1) -> InfoFileImm {
    InfoFileImm { archive_hashes: hb.archive, bins_hashes: hb.bins, ..fi }
}

/// Processes one package through the ordered stages: manifest, signatures,
/// support and safety checks, the update decision, download and integrity.
/// The surrounding program performs each action it is handed and feeds the
/// answer back to `step`.
#[derive(Debug)]
pub struct Pipeline {
    meta: Meta,
    stage: Stage,
    info_text: Option<String>,
    hashes_text: Option<String>,
    info: Option<InfoFileImm>,
}

impl Pipeline {
    pub closed spec fn spec_meta(&self) -> Meta {
        self.meta
    }

    pub open spec fn spec_cfg(&self) -> Config {
        self.spec_meta().config
    }

    pub closed spec fn spec_stage(&self) -> Stage {
        self.stage
    }

    pub closed spec fn spec_info_text(&self) -> Option<String> {
        self.info_text
    }

    pub closed spec fn spec_hashes_text(&self) -> Option<String> {
        self.hashes_text
    }

    pub closed spec fn spec_info(&self) -> Option<InfoFileImm> {
        self.info
    }

    /// What every reachable pipeline state satisfies: the trust-store
    /// invariant, no signature stage under the no-signature policy, and the
    /// data each stage works on present when it is reached.
    pub open spec fn wf(&self) -> bool {
        &&& self.spec_cfg().no_sig || self.spec_cfg().pub_keys@.len() > 0
        &&& self.spec_cfg().no_sig ==> !(self.spec_stage() is AwaitInfoSig) && !(self.spec_stage()
            is AwaitHashesSig)
        &&& self.spec_stage() is AwaitInfoSig ==> self.spec_info_text() is Some
        &&& self.spec_stage() is AwaitHashesSig ==> self.spec_hashes_text() is Some
        &&& self.spec_stage() is AwaitPaths ==> self.spec_info() is Some && self.spec_cfg().safe
            && !self.spec_cfg().ci && !self.spec_cfg().update
        &&& self.spec_stage() is AwaitHashesText ==> self.spec_info() is Some
            && self.spec_info()->0.polyfill is Some
        &&& self.spec_stage() is AwaitHashesSig ==> self.spec_info() is Some
            && self.spec_info()->0.polyfill is Some
        &&& self.spec_stage() is AwaitHashesParsed ==> self.spec_info() is Some
        &&& self.spec_stage() is AwaitBins ==> self.spec_info() is Some && self.spec_cfg().update
        &&& self.spec_stage() is AwaitBlob ==> self.spec_info() is Some
    }

    /// Which answers the pipeline can take in its current state: exactly
    /// the answer to the action it last handed out.
    pub open spec fn expects(&self, input: StepInput) -> bool {
        match input {
            StepInput::Transport(_) => !(self.spec_stage() is Finished),
            StepInput::Text(_) => self.spec_stage() is AwaitInfoText || self.spec_stage()
                is AwaitInfoSig || self.spec_stage() is AwaitHashesText || self.spec_stage()
                is AwaitHashesSig,
            StepInput::InfoParsed(_) => self.spec_stage() is AwaitInfoParsed,
            StepInput::HashesParsed(_) => self.spec_stage() is AwaitHashesParsed,
            StepInput::PathsChecked(ex) => self.spec_stage() is AwaitPaths && ex@.len()
                == self.spec_info()->0.bins@.len(),
            StepInput::BinsRead(bs) => self.spec_stage() is AwaitBins && bs@.len()
                == self.spec_info()->0.bins@.len(),
            StepInput::Blob(_) => self.spec_stage() is AwaitBlob,
        }
    }

    /// Sets a package up for processing. The configuration carries a trust
    /// key, or has signature checking disabled, as resolution guarantees.
    pub fn new(meta: Meta) -> (r: Pipeline)
        requires
            meta.config.no_sig || meta.config.pub_keys@.len() > 0,
        ensures
            r.wf(),
            r.spec_stage() is AwaitInfoText,
            r.spec_meta() == meta,
    {
        Pipeline { meta, stage: Stage::AwaitInfoText, info_text: None, hashes_text: None, info: None }
    }

    /// The first action: fetch the package manifest.
    pub fn start(&self) -> (out: StepOutput)
        requires
            self.spec_stage() is AwaitInfoText,
        ensures
            out matches StepOutput::FetchText(f) && f@ == "info.json"@,
    {
        StepOutput::FetchText("info.json".to_owned())
    }

    pub fn is_finished(&self) -> (r: bool)
        ensures
            r == (self.spec_stage() is Finished),
    {
        match self.stage {
            Stage::Finished => true,
            _ => false,
        }
    }

    /// The normalized manifest, once the pipeline has fetched and checked
    /// it.
    pub fn manifest(&self) -> (r: &InfoFileImm)
        requires
            self.spec_info() is Some,
        ensures
            *r == self.spec_info()->0,
    {
        match &self.info {
            Some(i) => i,
            None => vstd::pervasive::unreached(),
        }
    }

    /// The package and configuration this pipeline runs for.
    pub fn meta_ref(&self) -> (r: &Meta)
        ensures
            *r == self.spec_meta(),
    {
        &self.meta
    }

    /// What follows once hashes for the target are in hand: unsupported
    /// platforms are rejected, update mode inspects the installed binaries,
    /// anything else downloads the archive.
    pub open spec fn continues_support(p: Pipeline, out: StepOutput, fi: InfoFileImm, c: Config) -> bool {
        if !c.no_hash && fi.archive_hashes.spec_is_empty() {
            &&& out matches StepOutput::Fail(PipeError::Support(SupportError::UnsupportedPlatform))
            &&& p.spec_stage() is Finished
        } else if c.update {
            &&& out matches StepOutput::ReadBins(names) && names.deep_view()
                == spec_install_names(fi, c)
            &&& p.spec_stage() is AwaitBins
            &&& p.spec_info() == Some(fi)
        } else {
            &&& out matches StepOutput::FetchBlob(f) && f@ == fi.archive_name@
            &&& p.spec_stage() is AwaitBlob
            &&& p.spec_info() == Some(fi)
        }
    }

    /// What follows once the manifest is checked: the older schema fetches
    /// its separate hash manifest first, unless hash checking is off.
    pub open spec fn continues_hashes(p: Pipeline, out: StepOutput, fi: InfoFileImm, c: Config) -> bool {
        if !c.no_hash && fi.polyfill is Some {
            &&& out matches StepOutput::FetchText(f) && f@ == fi.polyfill->0.hash_file@
            &&& p.spec_stage() is AwaitHashesText
            &&& p.spec_info() == Some(fi)
        } else {
            Pipeline::continues_support(p, out, fi, c)
        }
    }

    fn go_support(&mut self, info: InfoFileImm) -> (out: StepOutput)
        ensures
            final(self).spec_meta() == old(self).spec_meta(),
            final(self).spec_info_text() == old(self).spec_info_text(),
            final(self).spec_hashes_text() == old(self).spec_hashes_text(),
            Pipeline::continues_support(*final(self), out, info, old(self).spec_cfg()),
            final(self).spec_stage() is AwaitBins || final(self).spec_stage() is AwaitBlob
                || final(self).spec_stage() is Finished,
            final(self).spec_info() == Some(info),
    {
        let no_hash = self.meta.config.no_hash;
        if !no_hash && info.archive_hashes.is_empty() {
            self.stage = Stage::Finished;
            self.info = Some(info);
            StepOutput::Fail(PipeError::Support(SupportError::UnsupportedPlatform))
        } else if self.meta.config.update {
            let windows = contains_sub(self.meta.config.target.as_str(), "windows");
            let names = dest_names(&info, windows);
            self.stage = Stage::AwaitBins;
            self.info = Some(info);
            StepOutput::ReadBins(names)
        } else {
            let f = info.archive_name.clone();
            self.stage = Stage::AwaitBlob;
            self.info = Some(info);
            StepOutput::FetchBlob(f)
        }
    }

    fn go_hashes(&mut self, info: InfoFileImm) -> (out: StepOutput)
        ensures
            final(self).spec_meta() == old(self).spec_meta(),
            final(self).spec_info_text() == old(self).spec_info_text(),
            final(self).spec_hashes_text() == old(self).spec_hashes_text(),
            Pipeline::continues_hashes(*final(self), out, info, old(self).spec_cfg()),
            final(self).spec_stage() is AwaitHashesText || final(self).spec_stage() is AwaitBins
                || final(self).spec_stage() is AwaitBlob || final(self).spec_stage() is Finished,
            final(self).spec_info() == Some(info),
    {
        let no_hash = self.meta.config.no_hash;
        if !no_hash {
            if let Some(p) = &info.polyfill {
                let f = p.hash_file.clone();
                self.stage = Stage::AwaitHashesText;
                self.info = Some(info);
                return StepOutput::FetchText(f);
            }
        }
        self.go_support(info)
    }

    /// Feeds one answer in and takes the next action out. Each transition
    /// follows the stage order; any transport failure ends the package.
    pub fn step(&mut self, input: StepInput) -> (out: StepOutput)
        requires
            old(self).wf(),
            old(self).expects(input),
        ensures
            final(self).wf(),
            final(self).spec_meta() == old(self).spec_meta(),
            old(self).spec_cfg().no_sig ==> !(out matches StepOutput::Fail(
                PipeError::Trust(TrustError::SignatureInvalid),
            )) && !(out matches StepOutput::Fail(PipeError::Trust(TrustError::MissingSignature))),
            (match input {
                StepInput::Transport(e) => (out matches StepOutput::Fail(pe) && pe
                    == PipeError::Transport(e)) && final(self).spec_stage() is Finished,
                StepInput::Text(t) => {
                    let c = old(self).spec_cfg();
                    &&& old(self).spec_stage() is AwaitInfoText ==> {
                        &&& !c.no_sig ==> final(self).spec_stage() is AwaitInfoSig && final(self).spec_info_text() == Some(t) && (out matches StepOutput::FetchText(f)
                            && f@ == "info.json.minisig"@)
                        &&& c.no_sig ==> final(self).spec_stage() is AwaitInfoParsed && (out
                            matches StepOutput::ParseInfo(t2) && t2 == t)
                    }
                    &&& old(self).spec_stage() is AwaitInfoSig ==> {
                        let data = old(self).spec_info_text()->0;
                        &&& spec_some_key_verifies(c.pub_keys@, data@, t@) ==> final(self).spec_stage() is AwaitInfoParsed && (out matches StepOutput::ParseInfo(
                            t2,
                        ) && t2@ == data@)
                        &&& !spec_some_key_verifies(c.pub_keys@, data@, t@) ==> final(self).spec_stage() is Finished && out matches StepOutput::Fail(
                            PipeError::Trust(TrustError::SignatureInvalid),
                        )
                    }
                    &&& old(self).spec_stage() is AwaitHashesText ==> {
                        let fi = old(self).spec_info()->0;
                        let sig_file = fi.polyfill->0.hash_file_sig;
                        &&& c.no_sig ==> final(self).spec_stage() is AwaitHashesParsed && (out
                            matches StepOutput::ParseHashes(t2) && t2 == t) && final(self).spec_info() == Some(fi)
                        &&& !c.no_sig && sig_file is Some ==> final(self).spec_stage()
                            is AwaitHashesSig && final(self).spec_hashes_text() == Some(t) && (out
                            matches StepOutput::FetchText(f2) && f2@ == sig_file->0@) && final(self).spec_info() == Some(fi)
                        &&& !c.no_sig && sig_file is None ==> final(self).spec_stage() is Finished
                            && out matches StepOutput::Fail(
                            PipeError::Trust(TrustError::MissingSignature),
                        )
                    }
                    &&& old(self).spec_stage() is AwaitHashesSig ==> {
                        let data = old(self).spec_hashes_text()->0;
                        let fi = old(self).spec_info()->0;
                        &&& spec_some_key_verifies(c.pub_keys@, data@, t@) ==> final(self).spec_stage() is AwaitHashesParsed && (out matches
                            StepOutput::ParseHashes(t2) && t2@ == data@) && final(self).spec_info()
                            == Some(fi)
                        &&& !spec_some_key_verifies(c.pub_keys@, data@, t@) ==> final(self).spec_stage() is Finished && out matches StepOutput::Fail(
                            PipeError::Trust(TrustError::SignatureInvalid),
                        )
                    }
                },
                StepInput::InfoParsed(f) => {
                    let c = old(self).spec_cfg();
                    let m = old(self).spec_meta();
                    if spec_info_id(f) != m.id@ || spec_info_version(f) != m.version@ {
                        out matches StepOutput::Fail(
                            PipeError::Trust(TrustError::ManifestMismatch),
                        ) && final(self).spec_stage() is Finished
                    } else if spec_conv_compression(f) != "gz"@ || spec_conv_package(f)
                        != "tar"@ {
                        out matches StepOutput::Fail(
                            PipeError::Support(SupportError::UnsupportedArchive),
                        ) && final(self).spec_stage() is Finished
                    } else {
                        &&& final(self).spec_info() matches Some(fi) && spec_converted(
                            f,
                            c.target@,
                            fi,
                        )
                        &&& ({
                            let fi = final(self).spec_info()->0;
                            if c.safe && !(c.ci || c.update) {
                                &&& out matches StepOutput::CheckPaths(names)
                                    && names.deep_view() == fi.bins.deep_view()
                                &&& final(self).spec_stage() is AwaitPaths
                            } else {
                                Pipeline::continues_hashes(*final(self), out, fi, c)
                            }
                        })
                    }
                },
                StepInput::PathsChecked(ex) => {
                    let c = old(self).spec_cfg();
                    let fi = old(self).spec_info()->0;
                    &&& (exists|i: int| 0 <= i < ex@.len() && ex@[i]) ==> (out matches
                        StepOutput::Fail(PipeError::Filesystem(FilesystemError::BinaryExists(b)))
                        && exists|i: int|
                        0 <= i < ex@.len() && #[trigger] ex@[i] && b@ == fi.bins.deep_view()[i])
                        && final(self).spec_stage() is Finished
                    &&& !(exists|i: int| 0 <= i < ex@.len() && ex@[i])
                        ==> Pipeline::continues_hashes(*final(self), out, fi, c)
                },
                StepInput::HashesParsed(hf) => {
                    let c = old(self).spec_cfg();
                    let fi = old(self).spec_info()->0;
                    let tbl = (match hf {
                        HashesFile::V1(v) => v.hashes@,
                    });
                    match assoc_get(tbl, c.target@) {
                        None => out matches StepOutput::Fail(
                            PipeError::Support(SupportError::UnsupportedPlatform),
                        ) && final(self).spec_stage() is Finished,
                        Some(hb) => Pipeline::continues_support(
                            *final(self),
                            out,
                            spec_with_hashes(fi, hb),
                            c,
                        ),
                    }
                },
                StepInput::BinsRead(bs) => {
                    let fi = old(self).spec_info()->0;
                    &&& spec_all_bins_match(fi, bs@) ==> (out matches StepOutput::NoChange)
                        && final(self).spec_stage() is Finished
                    &&& !spec_all_bins_match(fi, bs@) ==> (out matches StepOutput::FetchBlob(f)
                        && f@ == fi.archive_name@) && final(self).spec_stage() is AwaitBlob
                        && final(self).spec_info() == Some(fi)
                },
                StepInput::Blob(b) => {
                    let c = old(self).spec_cfg();
                    let fi = old(self).spec_info()->0;
                    &&& c.no_hash ==> (out matches StepOutput::Archive(b2) && b2 == b) && final(self).spec_stage() is Finished
                    &&& !c.no_hash ==> (match fi.archive_hashes.spec_chosen() {
                        None => (out matches StepOutput::Archive(b2) && b2 == b) && final(self).spec_stage() is Finished,
                        Some(cc) => {
                            &&& cc.1 == hex_of(hash_of(cc.0, b@)) ==> (out matches
                                StepOutput::Archive(b2) && b2 == b) && final(self).spec_stage()
                                is Finished
                            &&& cc.1 != hex_of(hash_of(cc.0, b@)) ==> (out matches
                                StepOutput::Fail(
                                PipeError::Trust(TrustError::HashMismatch(ht)),
                            ) && ht == cc.0) && final(self).spec_stage() is Finished
                        },
                    })
                },
            }),
    {
        match input {
            StepInput::Transport(e) => {
                self.stage = Stage::Finished;
                StepOutput::Fail(PipeError::Transport(e))
            },
            StepInput::Text(t) => {
                match self.stage {
                    Stage::AwaitInfoText => {
                        if !self.meta.config.no_sig {
                            self.info_text = Some(t);
                            self.stage = Stage::AwaitInfoSig;
                            StepOutput::FetchText("info.json.minisig".to_owned())
                        } else {
                            self.stage = Stage::AwaitInfoParsed;
                            StepOutput::ParseInfo(t)
                        }
                    },
                    Stage::AwaitInfoSig => {
                        let data = match &self.info_text {
                            Some(s) => s.clone(),
                            None => vstd::pervasive::unreached(),
                        };
                        if verify_signature(&self.meta.config.pub_keys, data.as_str(), t.as_str())
                        {
                            self.stage = Stage::AwaitInfoParsed;
                            StepOutput::ParseInfo(data)
                        } else {
                            self.stage = Stage::Finished;
                            StepOutput::Fail(PipeError::Trust(TrustError::SignatureInvalid))
                        }
                    },
                    Stage::AwaitHashesText => {
                        let sig_file = match &self.info {
                            Some(fi) => match &fi.polyfill {
                                Some(p) => match &p.hash_file_sig {
                                    Some(sf) => Some(sf.clone()),
                                    None => None,
                                },
                                None => vstd::pervasive::unreached(),
                            },
                            None => vstd::pervasive::unreached(),
                        };
                        if self.meta.config.no_sig {
                            self.stage = Stage::AwaitHashesParsed;
                            StepOutput::ParseHashes(t)
                        } else {
                            match sig_file {
                                Some(sf) => {
                                    self.hashes_text = Some(t);
                                    self.stage = Stage::AwaitHashesSig;
                                    StepOutput::FetchText(sf)
                                },
                                None => {
                                    self.stage = Stage::Finished;
                                    StepOutput::Fail(
                                        PipeError::Trust(TrustError::MissingSignature),
                                    )
                                },
                            }
                        }
                    },
                    Stage::AwaitHashesSig => {
                        let data = match &self.hashes_text {
                            Some(s) => s.clone(),
                            None => vstd::pervasive::unreached(),
                        };
                        if verify_signature(&self.meta.config.pub_keys, data.as_str(), t.as_str())
                        {
                            self.stage = Stage::AwaitHashesParsed;
                            StepOutput::ParseHashes(data)
                        } else {
                            self.stage = Stage::Finished;
                            StepOutput::Fail(PipeError::Trust(TrustError::SignatureInvalid))
                        }
                    },
                    _ => vstd::pervasive::unreached(),
                }
            },
            StepInput::InfoParsed(f) => {
                let fi = InfoFileImm::convert(f, &self.meta.config.target);
                if !crate::strutil::str_eq(fi.id.as_str(), self.meta.id.as_str())
                    || !crate::strutil::str_eq(fi.version.as_str(), self.meta.version.as_str()) {
                    self.stage = Stage::Finished;
                    StepOutput::Fail(PipeError::Trust(TrustError::ManifestMismatch))
                } else if !crate::strutil::str_eq(fi.archive.compression.as_str(), "gz")
                    || !crate::strutil::str_eq(fi.archive.package.as_str(), "tar") {
                    self.stage = Stage::Finished;
                    StepOutput::Fail(PipeError::Support(SupportError::UnsupportedArchive))
                } else {
                    let c_safe = self.meta.config.safe;
                    let c_ci = self.meta.config.ci;
                    let c_update = self.meta.config.update;
                    if c_safe && !(c_ci || c_update) {
                        let names = clone_strings(&fi.bins);
                        self.stage = Stage::AwaitPaths;
                        self.info = Some(fi);
                        StepOutput::CheckPaths(names)
                    } else {
                        self.go_hashes(fi)
                    }
                }
            },
            StepInput::PathsChecked(ex) => {
                let fi = match self.info.take() {
                    Some(fi) => fi,
                    None => vstd::pervasive::unreached(),
                };
                let n = ex.len();
                let mut i: usize = 0;
                let mut found: Option<usize> = None;
                while i < n && found.is_none()
                    invariant
                        n == ex@.len(),
                        0 <= i <= n,
                        found is None ==> forall|k: int| 0 <= k < i ==> !ex@[k],
                        found matches Some(j) ==> 0 <= j < n && ex@[j as int],
                    decreases n - i + (if found is None { 1int } else { 0int }),
                {
                    if ex[i] {
                        found = Some(i);
                    } else {
                        i = i + 1;
                    }
                }
                match found {
                    Some(j) => {
                        let b = fi.bins[j].clone();
                        self.stage = Stage::Finished;
                        self.info = Some(fi);
                        StepOutput::Fail(PipeError::Filesystem(FilesystemError::BinaryExists(b)))
                    },
                    None => self.go_hashes(fi),
                }
            },
            StepInput::HashesParsed(hf) => {
                let mut fi = match self.info.take() {
                    Some(fi) => fi,
                    None => vstd::pervasive::unreached(),
                };
                let v1 = HashesFileV1::from(hf);
                let mut hashes = v1.hashes;
                match hashes.remove(self.meta.config.target.as_str()) {
                    None => {
                        self.stage = Stage::Finished;
                        self.info = Some(fi);
                        StepOutput::Fail(PipeError::Support(SupportError::UnsupportedPlatform))
                    },
                    Some(hb) => {
                        fi.archive_hashes = hb.archive;
                        fi.bins_hashes = hb.bins;
                        self.go_support(fi)
                    },
                }
            },
            StepInput::BinsRead(bs) => {
                let fi = match self.info.take() {
                    Some(fi) => fi,
                    None => vstd::pervasive::unreached(),
                };
                let all_match = bins_match(&fi, &bs);
                if all_match {
                    self.stage = Stage::Finished;
                    self.info = Some(fi);
                    StepOutput::NoChange
                } else {
                    let f = fi.archive_name.clone();
                    self.stage = Stage::AwaitBlob;
                    self.info = Some(fi);
                    StepOutput::FetchBlob(f)
                }
            },
            StepInput::Blob(b) => {
                let fi = match &self.info {
                    Some(fi) => fi,
                    None => vstd::pervasive::unreached(),
                };
                match verify_bytes(self.meta.config.no_hash, &fi.archive_hashes, b.as_slice()) {
                    Ok(_) => {
                        self.stage = Stage::Finished;
                        StepOutput::Archive(b)
                    },
                    Err(e) => {
                        self.stage = Stage::Finished;
                        StepOutput::Fail(PipeError::Trust(e))
                    },
                }
            },
        }
    }
}

/// The installed file names for the manifest's binaries: the binary name,
/// with the executable suffix on windows targets.
fn dest_names(info: &InfoFileImm, windows: bool) -> (r: Vec<String>)
    ensures
        r.deep_view() == Seq::new(
            info.bins.deep_view().len(),
            |i: int| spec_dest_name(info.bins.deep_view()[i], windows),
        ),
{
    let n = info.bins.len();
    let mut out: Vec<String> = Vec::new();
    let mut i: usize = 0;
    while i < n
        invariant
            n == info.bins@.len(),
            0 <= i <= n,
            out.deep_view() =~~= Seq::new(
                i as nat,
                |k: int| spec_dest_name(info.bins.deep_view()[k], windows),
            ),
        decreases n - i,
    {
        let nm = if windows {
            info.bins[i].clone().concat(".exe")
        } else {
            info.bins[i].clone()
        };
        proof {
            assert(nm@ == spec_dest_name(info.bins.deep_view()[i as int], windows));
        }
        let ghost pre = out.deep_view();
        out.push(nm);
        proof {
            assert(out.deep_view() =~= pre.push(nm@));
            assert(out.deep_view() =~~= Seq::new(
                (i + 1) as nat,
                |k: int| spec_dest_name(info.bins.deep_view()[k], windows),
            ));
        }
        i = i + 1;
    }
    proof {
        assert(out.deep_view() =~~= Seq::new(
            info.bins.deep_view().len(),
            |k: int| spec_dest_name(info.bins.deep_view()[k], windows),
        ));
    }
    out
}

/// Update mode's check of what is installed: every binary needs a recorded
/// hash, present bytes, and a match.
fn bins_match(fi: &InfoFileImm, bs: &Vec<Option<Vec<u8>>>) -> (r: bool)
    requires
        bs@.len() == fi.bins@.len(),
    ensures
        r == spec_all_bins_match(*fi, bs@),
{
    let n = fi.bins.len();
    let mut i: usize = 0;
    let mut ok = true;
    while i < n && ok
        invariant
            n == fi.bins@.len(),
            bs@.len() == n,
            0 <= i <= n,
            ok ==> forall|k: int| 0 <= k < i ==> spec_bin_ok(*fi, k, bs@),
            !ok ==> !spec_all_bins_match(*fi, bs@),
        decreases n - i + (if ok { 1int } else { 0int }),
    {
        let h = fi.bins_hashes.get(fi.bins[i].as_str());
        match h {
            None => {
                proof {
                    assert(!spec_bin_ok(*fi, i as int, bs@));
                }
                ok = false;
            },
            Some(hashes) => {
                match &bs[i] {
                    None => {
                        proof {
                            assert(!spec_bin_ok(*fi, i as int, bs@));
                        }
                        ok = false;
                    },
                    Some(bytes) => {
                        if !verify_bytes_update(hashes, bytes.as_slice()) {
                            proof {
                                assert(!spec_bin_ok(*fi, i as int, bs@));
                            }
                            ok = false;
                        } else {
                            proof {
                                assert(spec_bin_ok(*fi, i as int, bs@));
                            }
                            i = i + 1;
                        }
                    },
                }
            },
        }
    }
    if ok {
        proof {
            assert forall|k: int| 0 <= k < fi.bins.deep_view().len() implies spec_bin_ok(
                *fi,
                k,
                bs@,
            ) by {
                assert(0 <= k < i);
            }
        }
    }
    ok
}

/// Law: once a package's processing has finished — with a verified archive,
/// with "no change", or with a failure — the pipeline accepts no further
/// input; in particular nothing more is downloaded and nothing is written.
pub proof fn lemma_finished_is_final(p: &Pipeline, input: StepInput)
    requires
        p.spec_stage() is Finished,
    ensures
        !p.expects(input),
{
}

} // verus!
