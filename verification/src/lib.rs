use vstd::prelude::*;

pub mod guard;
pub mod init;
pub mod ioerr;
pub mod keyed;
pub mod pm;
pub mod text;

verus! {

/// Version string of the package manager.
pub const VERSION: &'static str = "0.1.0";

/// Default number of parallel build workers.
pub const DEFAULT_WORKERS: usize = 4;

} // verus!
