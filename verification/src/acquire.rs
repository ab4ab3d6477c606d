//! Decisions of the archive fetcher and locator.
//!
//! The transfer, the unpacking and the final move are plain I/O and live
//! with the caller; what is decided about their outcomes is here. The
//! fetcher's outcome is classified from the response status; the locator
//! picks, among the directory names extraction produced, the first whose
//! name contains the framework fragment — the archive's real top-level
//! folder name carries an unpredictable ref or commit suffix, so discovery
//! is by substring, with the listing order of the caller as the
//! deterministic tie-break.

use vstd::prelude::*;

use crate::error::SetupError;

verus! {

/// `needle` occurs in `hay` starting at position `i`.
pub open spec fn is_match_at(hay: Seq<char>, needle: Seq<char>, i: int) -> bool {
    0 <= i && i + needle.len() <= hay.len() && hay.subrange(i, i + needle.len()) == needle
}

/// `needle` occurs somewhere in `hay`.
pub open spec fn spec_contains(hay: Seq<char>, needle: Seq<char>) -> bool {
    exists|i: int| is_match_at(hay, needle, i)
}

/// The first name in `names` that contains `frag`, if any.
pub open spec fn spec_locate(names: Seq<String>, frag: Seq<char>) -> Option<Seq<char>>
    decreases names.len(),
{
    if names.len() == 0 {
        None
    } else if spec_contains(names[0]@, frag) {
        Some(names[0]@)
    } else {
        spec_locate(names.drop_first(), frag)
    }
}

/// Whether `needle` occurs in `hay` starting exactly at `i`.
fn matches_at(hay: &str, needle: &str, i: usize, hlen: usize, nlen: usize) -> (r: bool)
    requires
        hlen == hay@.len(),
        nlen == needle@.len(),
        i + nlen <= hlen,
    ensures
        r == (hay@.subrange(i as int, i + nlen) == needle@),
{
    let mut j: usize = 0;
    while j < nlen
        invariant
            j <= nlen,
            i + nlen <= hlen,
            hlen == hay@.len(),
            nlen == needle@.len(),
            forall|k: int| 0 <= k < j ==> hay@[i + k] == needle@[k],
        decreases nlen - j,
    {
        if hay.get_char(i + j) != needle.get_char(j) {
            proof {
                assert(hay@.subrange(i as int, i + nlen)[j as int] == hay@[i + j]);
            }
            return false;
        }
        j = j + 1;
    }
    proof {
        assert(hay@.subrange(i as int, i + nlen) =~= needle@);
    }
    true
}

/// Whether the directory name `hay` contains the fragment `needle`.
pub fn contains_fragment(hay: &str, needle: &str) -> (r: bool)
    ensures
        r == spec_contains(hay@, needle@),
{
    let hlen = hay.unicode_len();
    let nlen = needle.unicode_len();
    if nlen > hlen {
        return false;
    }
    if nlen == 0 {
        proof {
            assert(hay@.subrange(0, 0) =~= needle@);
            assert(is_match_at(hay@, needle@, 0));
        }
        return true;
    }
    let mut i: usize = 0;
    while i <= hlen - nlen
        invariant
            0 < nlen <= hlen,
            hlen == hay@.len(),
            nlen == needle@.len(),
            i <= hlen - nlen + 1,
            forall|k: int| 0 <= k < i ==> !is_match_at(hay@, needle@, k),
        decreases hlen - nlen - i + 1,
    {
        if matches_at(hay, needle, i, hlen, nlen) {
            proof {
                assert(is_match_at(hay@, needle@, i as int));
            }
            return true;
        }
        i = i + 1;
    }
    false
}

/// Picks among `names` — the immediate children of the extraction
/// directory, in the caller's listing order — the first whose name contains
/// `fragment`, and fails when no name matches.
pub fn locate(names: &Vec<String>, fragment: &str) -> (r: Result<String, SetupError>)
    ensures
        (match spec_locate(names@, fragment@) {
            Some(s) => r matches Ok(x) && x@ == s,
            None => r matches Err(e) && e == SetupError::FrameworkDirectoryNotFound,
        }),
{
    let mut i: usize = 0;
    proof {
        assert(names@.skip(0) =~= names@);
    }
    while i < names.len()
        invariant
            i <= names@.len(),
            spec_locate(names@, fragment@) == spec_locate(names@.skip(i as int), fragment@),
        decreases names@.len() - i,
    {
        let name = &names[i];
        proof {
            assert(names@.skip(i as int)[0] == names@[i as int]);
            assert(names@.skip(i as int).drop_first() =~= names@.skip(i + 1));
        }
        if contains_fragment(name.as_str(), fragment) {
            return Ok(String::from_str(name.as_str()));
        }
        i = i + 1;
    }
    Err(SetupError::FrameworkDirectoryNotFound)
}

/// Classifies one fetch outcome from its response status: success for the
/// successful range, a distinguished absence for a not-found report, and a
/// transfer failure for everything else. Transport errors that never reach
/// a status are a `TransferFailure` at the caller.
pub fn classify_fetch_status(status: u16) -> (r: Result<(), SetupError>)
    ensures
        r is Ok <==> 200 <= status < 300,
        status == 404 ==> (r matches Err(e) && e == SetupError::ResourceNotFound),
        !(200 <= status < 300) && status != 404 ==> (r matches Err(e) && e
            == SetupError::TransferFailure),
{
    if 200 <= status && status < 300 {
        Ok(())
    } else if status == 404 {
        Err(SetupError::ResourceNotFound)
    } else {
        Err(SetupError::TransferFailure)
    }
}

} // verus!
