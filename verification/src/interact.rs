use vstd::prelude::*;

use crate::errors::TransportError;

verus! {

/// A swappable index backend: it resolves a package to its latest version
/// and fetches a release's files as text or bytes, normalizing transport
/// outcomes into the error taxonomy. Implementations live with the
/// surrounding program; nothing is assumed of their answers, and the
/// pipeline states what it does with every possible one.
pub trait Interact {
    fn get_latest(&mut self, id: &str) -> Result<String, TransportError>;

    fn get_str(&mut self, id: &str, version: &str, file_name: &str) -> Result<
        String,
        TransportError,
    >;

    fn get_blob(&mut self, id: &str, version: &str, file_name: &str) -> Result<
        Vec<u8>,
        TransportError,
    >;
}

} // verus!
