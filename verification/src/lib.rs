//! A track-acquisition pipeline for a public audio-sharing service:
//! resolving a source URL into a track descriptor, selecting one of its
//! transcodings, exchanging it for a direct media link, deriving a
//! filesystem-safe file name, assembling a metadata record from the
//! descriptor and the caller's overrides, and embedding that record as
//! tag frames — each step's logic carrying a verified contract, with
//! the surrounding I/O driven through an explicit state machine.

use vstd::prelude::*;

pub mod assemble;
pub mod filename;
pub mod pipeline;
pub mod tag;
pub mod transport;
pub mod types;

verus! {

} // verus!
