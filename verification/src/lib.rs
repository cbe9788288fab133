//! Core of the schwift interpreter: the value model, the diagnostics it
//! reports, and the rules by which native extensions are admitted.

pub mod environment;
pub mod error;
pub mod grammar;
pub mod laws;
pub mod machine;
pub mod microverse;
pub mod quotes;
pub mod statement;
pub mod text;
pub mod value;

use vstd::prelude::*;

verus! {

/// The compatibility version of this host. A native extension is admitted
/// only if it reports exactly this number.
pub const LIBSCHWIFT_ABI_COMPAT: u32 = 1;

} // verus!
