//! What the program is started with.

use vstd::prelude::*;
use std::path::PathBuf;

verus! {

/// The port that the server listens on where none is given.
pub const DEFAULT_PORT: u16 = 50000;

/// `std::path::PathBuf`, an owned path. The library stores one and hands it
/// on; it looks at nothing inside.
#[verifier::external_type_specification]
#[verifier::external_body]
pub struct ExPathBuf(PathBuf);

/// The arguments of the program.
pub struct Arguments {
    /// Path to the power systems data pack.
    pub pack_path: PathBuf,
    /// The port of the server, if one was given.
    pub port: Option<u16>,
}

impl Arguments {
    /// The port that the server listens on: the given one, or 50000.
    pub fn port_or_default(&self) -> (r: u16)
        ensures
            r == match self.port {
                Some(p) => p,
                None => DEFAULT_PORT,
            },
    {
        match self.port {
            Some(p) => p,
            None => DEFAULT_PORT,
        }
    }
}

} // verus!
