//! Derivation of the log file's location from the base path.
//!
//! The base path is read as text: the characters after the last `/` are
//! its file name, and everything up to and including that `/` is its
//! directory.  The log file goes into a `debug` directory next to the
//! base path's file name, as `<prefix><file name>.log`, where the prefix
//! is empty or a timestamp with a trailing underscore.  A base path that
//! is empty or ends in `/` has no file name and yields nothing.

use vstd::prelude::*;
use vstd::string::{StrSliceExecFns, StringExecFns};

verus! {

/// The index just past the last `/` of `s`, or zero when `s` has none:
/// the point where the file name starts.
pub open spec fn split_point(s: Seq<char>) -> int
    decreases s.len(),
{
    if s.len() == 0 {
        0
    } else if s[s.len() - 1] == '/' {
        s.len() as int
    } else {
        split_point(s.drop_last())
    }
}

/// The split point lies within the sequence.
pub proof fn lemma_split_point_range(s: Seq<char>)
    ensures
        0 <= split_point(s) <= s.len(),
    decreases s.len(),
{
    if s.len() != 0 && s[s.len() - 1] != '/' {
        lemma_split_point_range(s.drop_last());
    }
}

/// A base path yields a log file exactly when it has a non-empty file
/// name: some character after its last `/`.
pub open spec fn spec_derivable(base: Seq<char>) -> bool {
    split_point(base) < base.len()
}

/// The full log file path derived from a base path: the base path's
/// directory, then `debug/`, then the prefix, the base path's file name,
/// and `.log`.
pub open spec fn spec_log_path(base: Seq<char>, prefix: Seq<char>) -> Seq<char> {
    base.subrange(0, split_point(base)) + "debug/"@ + prefix + base.subrange(
        split_point(base),
        base.len() as int,
    ) + ".log"@
}

/// Find the index just past the last `/` of `s`, or zero when `s` has
/// none.
fn find_split(s: &str) -> (i: usize)
    ensures
        i == split_point(s@),
{
    let n = s.unicode_len();
    proof {
        assert(s@.subrange(0, n as int) =~= s@);
    }
    let mut i = n;
    while i > 0
        invariant
            i <= n,
            n == s@.len(),
            split_point(s@) == split_point(s@.subrange(0, i as int)),
        decreases i,
    {
        let c = s.get_char(i - 1);
        proof {
            assert(s@.subrange(0, i as int).len() == i);
            assert(s@.subrange(0, i as int)[i - 1] == s@[i - 1]);
        }
        if c == '/' {
            proof {
                assert(split_point(s@.subrange(0, i as int)) == i as int);
            }
            return i;
        }
        proof {
            assert(s@.subrange(0, i as int).drop_last() =~= s@.subrange(0, i as int - 1));
        }
        i = i - 1;
    }
    proof {
        assert(s@.subrange(0, 0).len() == 0);
    }
    0
}

/// Derive the log file path from the base path `base` and the file-name
/// prefix `prefix`, or nothing when `base` has no file name.
pub fn derive_log_path(base: &str, prefix: &str) -> (r: Option<String>)
    ensures
        r is Some <==> spec_derivable(base@),
        r matches Some(p) ==> p@ == spec_log_path(base@, prefix@),
{
    let n = base.unicode_len();
    let sp = find_split(base);
    proof {
        lemma_split_point_range(base@);
    }
    if sp >= n {
        return None;
    }
    let parent = base.substring_char(0, sp);
    let fname = base.substring_char(sp, n);
    let mut out = String::new();
    out.append(parent);
    out.append("debug/");
    out.append(prefix);
    out.append(fname);
    out.append(".log");
    proof {
        assert(out@ =~= spec_log_path(base@, prefix@));
    }
    Some(out)
}

} // verus!
