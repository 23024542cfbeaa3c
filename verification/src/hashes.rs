use vstd::prelude::*;

use crate::kvmap::KvMap;
use crate::strutil::str_eq;

verus! {

/// The content-hash algorithms an index may record, strongest first in the
/// order of `Hashes::spec_chosen`.
#[derive(Clone, Copy, Debug, PartialEq, Eq, Structural, Hash)]
pub enum HashType {
    Sha256,
    Sha512,
    Sha3_256,
    Sha3_512,
}

impl HashType {
    /// The algorithm's name as it appears in hash manifests.
    pub fn as_str(&self) -> (r: &'static str)
        ensures
            r@ == self.spec_name(),
    {
        proof {
            reveal_strlit("sha256");
            reveal_strlit("sha512");
            reveal_strlit("sha3_256");
            reveal_strlit("sha3_512");
        }
        match self {
            HashType::Sha256 => "sha256",
            HashType::Sha512 => "sha512",
            HashType::Sha3_256 => "sha3_256",
            HashType::Sha3_512 => "sha3_512",
        }
    }

    pub open spec fn spec_name(&self) -> Seq<char> {
        match self {
            HashType::Sha256 => "sha256"@,
            HashType::Sha512 => "sha512"@,
            HashType::Sha3_256 => "sha3_256"@,
            HashType::Sha3_512 => "sha3_512"@,
        }
    }

    /// Parses an algorithm name; any other name is rejected.
    pub fn try_from(value: &str) -> (r: Result<HashType, ()>)
        ensures
            r == HashType::spec_try_from(value@),
    {
        if str_eq(value, "sha256") {
            Ok(HashType::Sha256)
        } else if str_eq(value, "sha512") {
            Ok(HashType::Sha512)
        } else if str_eq(value, "sha3_256") {
            Ok(HashType::Sha3_256)
        } else if str_eq(value, "sha3_512") {
            Ok(HashType::Sha3_512)
        } else {
            Err(())
        }
    }

    pub open spec fn spec_try_from(value: Seq<char>) -> Result<HashType, ()> {
        if value == "sha256"@ {
            Ok(HashType::Sha256)
        } else if value == "sha512"@ {
            Ok(HashType::Sha512)
        } else if value == "sha3_256"@ {
            Ok(HashType::Sha3_256)
        } else if value == "sha3_512"@ {
            Ok(HashType::Sha3_512)
        } else {
            Err(())
        }
    }
}

/// The recorded hex digests of one artifact, one slot per algorithm.
#[derive(Clone, Debug)]
pub struct Hashes {
    pub sha256: Option<String>,
    pub sha512: Option<String>,
    pub sha3_256: Option<String>,
    pub sha3_512: Option<String>,
}

impl Hashes {
    pub fn new() -> (r: Hashes)
        ensures
            r.sha256 is None,
            r.sha512 is None,
            r.sha3_256 is None,
            r.sha3_512 is None,
    {
        Hashes { sha256: None, sha512: None, sha3_256: None, sha3_512: None }
    }

    pub open spec fn spec_get(&self, t: HashType) -> Option<String> {
        match t {
            HashType::Sha256 => self.sha256,
            HashType::Sha512 => self.sha512,
            HashType::Sha3_256 => self.sha3_256,
            HashType::Sha3_512 => self.sha3_512,
        }
    }

    pub fn get(&self, t: HashType) -> (r: &Option<String>)
        ensures
            *r == self.spec_get(t),
    {
        match t {
            HashType::Sha256 => &self.sha256,
            HashType::Sha512 => &self.sha512,
            HashType::Sha3_256 => &self.sha3_256,
            HashType::Sha3_512 => &self.sha3_512,
        }
    }

    /// Whether no algorithm at all is recorded.
    pub open spec fn spec_is_empty(&self) -> bool {
        self.sha256 is None && self.sha512 is None && self.sha3_256 is None
            && self.sha3_512 is None
    }

    pub fn is_empty(&self) -> (r: bool)
        ensures
            r == self.spec_is_empty(),
    {
        self.sha256.is_none() && self.sha512.is_none() && self.sha3_256.is_none()
            && self.sha3_512.is_none()
    }

    /// The algorithm picked for verification and its recorded digest: the
    /// strongest algorithm with a recorded value, newer families before
    /// older ones and wider digests before narrower ones.
    pub open spec fn spec_chosen(&self) -> Option<(HashType, Seq<char>)> {
        if self.sha3_512 is Some {
            Some((HashType::Sha3_512, self.sha3_512->0@))
        } else if self.sha3_256 is Some {
            Some((HashType::Sha3_256, self.sha3_256->0@))
        } else if self.sha512 is Some {
            Some((HashType::Sha512, self.sha512->0@))
        } else if self.sha256 is Some {
            Some((HashType::Sha256, self.sha256->0@))
        } else {
            None
        }
    }
}

/// A hash manifest as fetched from an index, tagged with its schema version.
#[derive(Debug)]
pub enum HashesFile {
    V1(HashesFileV1),
}

/// The first hash-manifest schema: hashes for each supported platform.
#[derive(Debug)]
pub struct HashesFileV1 {
    pub hashes: KvMap<HashesFileBlobV1>,
}

impl HashesFileV1 {
    /// Normalizes a versioned hash manifest into the current shape.
    pub fn from(value: HashesFile) -> (r: HashesFileV1)
        ensures
            value matches HashesFile::V1(f) && r == f,
    {
        match value {
            HashesFile::V1(f) => f,
        }
    }
}

/// The hashes one platform's artifacts: the archive itself and each binary
/// inside it.
#[derive(Debug)]
pub struct HashesFileBlobV1 {
    pub archive: Hashes,
    pub bins: KvMap<Hashes>,
}

} // verus!
