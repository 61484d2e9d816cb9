//! A small command-line file viewer.
//!
//! The crate is the viewer's line pipeline: for each named file it turns the
//! file's lines into the exact strings the program prints, optionally keeping
//! only the lines a compiled pattern matches, and optionally colouring each
//! line with syntax-aware terminal escape codes whose state is threaded across
//! the lines of one file.  Reading files, the flag list and printing are left
//! to the thin program around the library; the library receives lines and
//! flags as plain values and pins the produced output down in its contracts.

use vstd::prelude::*;

pub mod args;
pub mod filter;
pub mod highlight;
pub mod messages;
pub mod pipeline;

verus! {

/// The character sequences a sequence of strings stands for.
pub open spec fn views_of(v: Seq<String>) -> Seq<Seq<char>> {
    v.map_values(|s: String| s@)
}

/// Taking the view of each string commutes with appending one string.
pub proof fn lemma_views_of_push(v: Seq<String>, x: String)
    ensures
        views_of(v.push(x)) == views_of(v).push(x@),
{
    assert(views_of(v.push(x)) =~= views_of(v).push(x@));
}

/// Relies on `std::path::Path::exists`: whether a file of this name can be
/// reached right now.  The answer depends on the file system, so nothing is
/// promised of it; callers treat either answer as possible.
#[verifier::external_body]
pub fn sniff_file(filename: &str) -> bool {
    std::path::Path::new(filename).exists()
}

} // verus!
