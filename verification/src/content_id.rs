//! Syntactic validation of content identifiers.
//!
//! A content identifier is a multibase/multihash-encoded string whose exact
//! grammar belongs to the `cid` crate; the core only needs a yes/no answer,
//! and its contracts speak of that answer through the name `cid_parses`.

use vstd::prelude::*;
use std::str::FromStr;

verus! {

/// Whether a string is a syntactically valid content identifier. The grammar
/// is the `cid` crate's; the core treats the verdict as a pure function of
/// the characters.
pub uninterp spec fn cid_parses(s: Seq<char>) -> bool;

/// Relies on `cid::Cid::from_str`: a pure parser whose verdict depends on
/// the characters of its input alone.
#[verifier::external_body]
pub(crate) fn cid_is_valid(s: &str) -> (r: bool)
    ensures
        r == cid_parses(s@),
{
    cid::Cid::from_str(s).is_ok()
}

} // verus!
