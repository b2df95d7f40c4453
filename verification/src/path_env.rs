//! The PATH updater: deciding whether a directory is already on the
//! search path and computing the appended value when it is not.
//!
//! PATH values and directories are handled as bytes; the binary converts
//! from and to the environment's strings.

use vstd::prelude::*;
use crate::bytes_util::append_bytes;

verus! {

/// Whether `needle` occurs in `hay` starting at position `i`.
pub open spec fn is_match_at(hay: Seq<u8>, needle: Seq<u8>, i: int) -> bool {
    0 <= i && i + needle.len() <= hay.len() && hay.subrange(i, i + needle.len()) == needle
}

/// Whether `needle` occurs somewhere in `hay`.
pub open spec fn contains_bytes(hay: Seq<u8>, needle: Seq<u8>) -> bool {
    exists|i: int| is_match_at(hay, needle, i)
}

/// Whether `needle` occurs in `hay` at the given position.
fn match_at(hay: &[u8], needle: &[u8], i: usize) -> (r: bool)
    requires
        i + needle@.len() <= hay@.len(),
    ensures
        r == is_match_at(hay@, needle@, i as int),
{
    let hay_len: usize = hay.len();
    let mut j: usize = 0;
    while j < needle.len()
        invariant
            0 <= j <= needle@.len(),
            i + needle@.len() <= hay@.len(),
            hay@.len() == hay_len,
            forall|k: int| 0 <= k < j ==> hay@[i + k] == needle@[k],
        decreases needle@.len() - j,
    {
        if hay[i + j] != needle[j] {
            proof {
                if is_match_at(hay@, needle@, i as int) {
                    assert(hay@.subrange(i as int, i + needle@.len())[j as int] == needle@[j as int]);
                }
            }
            return false;
        }
        j += 1;
    }
    proof {
        assert(hay@.subrange(i as int, i + needle@.len()) =~= needle@);
    }
    true
}

/// Whether the byte string `needle` is a substring of `hay`.
pub fn contains_sub(hay: &[u8], needle: &[u8]) -> (r: bool)
    ensures
        r == contains_bytes(hay@, needle@),
{
    if needle.len() == 0 {
        proof {
            assert(hay@.subrange(0, 0) =~= needle@);
            assert(is_match_at(hay@, needle@, 0));
        }
        return true;
    }
    if needle.len() > hay.len() {
        proof {
            assert(forall|i: int| !is_match_at(hay@, needle@, i));
        }
        return false;
    }
    let hay_len: usize = hay.len();
    let last: usize = hay.len() - needle.len();
    let mut i: usize = 0;
    while i <= last
        invariant
            0 <= i <= last + 1,
            needle@.len() >= 1,
            hay@.len() == hay_len,
            last == hay@.len() - needle@.len(),
            forall|k: int| 0 <= k < i ==> !is_match_at(hay@, needle@, k),
        decreases last + 1 - i,
    {
        if match_at(hay, needle, i) {
            return true;
        }
        i += 1;
    }
    proof {
        assert(forall|k: int| k > last ==> !is_match_at(hay@, needle@, k));
    }
    false
}

/// What the PATH value becomes when `dir` is added: unchanged when `dir`
/// already occurs in it, else the old value, the separator, then `dir`.
pub open spec fn spec_updated_path(current: Seq<u8>, dir: Seq<u8>, sep: u8) -> Seq<u8> {
    if contains_bytes(current, dir) {
        current
    } else {
        current + seq![sep] + dir
    }
}

/// Compute the new PATH value for the current process after adding `dir`,
/// joined with the platform's separator byte.  The directory is appended
/// only when it is not already a substring of the current value.
pub fn updated_path(current: &Vec<u8>, dir: &Vec<u8>, sep: u8) -> (r: Vec<u8>)
    ensures
        r@ == spec_updated_path(current@, dir@, sep),
{
    if contains_sub(current.as_slice(), dir.as_slice()) {
        return current.clone();
    }
    let mut r = current.clone();
    r.push(sep);
    append_bytes(&mut r, dir.as_slice());
    proof {
        assert(r@ =~= current@ + seq![sep] + dir@);
    }
    r
}

/// Updating a PATH value with the same directory twice gives exactly what
/// one update gives: the second update finds the directory present and
/// leaves the value unchanged.
pub proof fn lemma_update_idempotent(current: Seq<u8>, dir: Seq<u8>, sep: u8)
    ensures
        spec_updated_path(spec_updated_path(current, dir, sep), dir, sep) == spec_updated_path(
            current,
            dir,
            sep,
        ),
{
    let once = spec_updated_path(current, dir, sep);
    if !contains_bytes(current, dir) {
        assert(once.subrange(current.len() as int + 1, once.len() as int) =~= dir);
        assert(is_match_at(once, dir, current.len() as int + 1));
    } else {
        assert(is_match_at(once, dir, choose|i: int| is_match_at(current, dir, i)));
    }
}

/// An updated PATH value always holds the directory as a substring.
pub proof fn lemma_update_contains(current: Seq<u8>, dir: Seq<u8>, sep: u8)
    ensures
        contains_bytes(spec_updated_path(current, dir, sep), dir),
{
    lemma_update_idempotent(current, dir, sep);
    let once = spec_updated_path(current, dir, sep);
    if !contains_bytes(once, dir) {
        assert(spec_updated_path(once, dir, sep).len() == once.len() + 1 + dir.len());
    }
}

} // verus!
