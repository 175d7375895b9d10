//! Why a signing run stopped.
use vstd::prelude::*;

verus! {

/// The kinds of failure that abort a signing run.
#[derive(Clone, Copy, Debug, PartialEq, Eq, Structural)]
pub enum SignError {
    /// A key, certificate, module or raw signature file could not be read.
    Input,
    /// The key or certificate could not be parsed, or signing failed.
    Crypto,
    /// The signature is too long for the record's 32-bit length field.
    Encoding,
    /// Writing the detached signature or the staged module, or the final
    /// rename, failed.
    Io,
}

} // verus!
