//! File-level decisions: when a copy is due, and where a log tail starts.

use vstd::prelude::*;

verus! {

/// One file's facts as the copy decision needs them: the modification
/// time when it could be read, and the length.
#[derive(Debug, Clone, Copy, PartialEq, Eq, Structural)]
pub struct FileFacts {
    /// Seconds since the epoch, when readable.
    pub modified: Option<i64>,
    /// Length in bytes.
    pub len: u64,
}

/// An optional time is later than another: an unknown time is earliest.
pub open spec fn spec_opt_later(a: Option<i64>, b: Option<i64>) -> bool {
    match (a, b) {
        (Some(x), Some(y)) => x > y,
        (Some(_), None) => true,
        (None, _) => false,
    }
}

/// Whether a file must be copied over its destination: always when the
/// destination does not exist or either side's facts are unreadable, and
/// otherwise exactly when the source is newer or the sizes differ.
pub fn should_copy_file(
    dest_exists: bool,
    src: Option<FileFacts>,
    dst: Option<FileFacts>,
) -> (r: bool)
    ensures
        !dest_exists ==> r,
        dest_exists ==> r == (match (src, dst) {
            (Some(s), Some(d)) => spec_opt_later(s.modified, d.modified) || s.len != d.len,
            _ => true,
        }),
{
    if !dest_exists {
        return true;
    }
    match (src, dst) {
        (Some(s), Some(d)) => {
            let newer = match (s.modified, d.modified) {
                (Some(x), Some(y)) => x > y,
                (Some(_), None) => true,
                (None, _) => false,
            };
            newer || s.len != d.len
        },
        _ => true,
    }
}

/// The index counts as a line break: a newline anywhere but as the very
/// last byte, where it only terminates the final line.
pub open spec fn spec_counted_nl(b: Seq<u8>, i: int) -> bool {
    0 <= i < b.len() && b[i] == 10 && i != b.len() - 1
}

/// How many counted line breaks lie at or after `from`.
pub open spec fn spec_nl_count(b: Seq<u8>, from: int) -> int
    decreases b.len() - from,
{
    if from < 0 || from >= b.len() {
        0
    } else {
        (if spec_counted_nl(b, from) {
            1int
        } else {
            0int
        }) + spec_nl_count(b, from + 1)
    }
}

/// The byte offset the last `tail_lines` lines of a log start at.
///
/// Scanning backward, the `tail_lines`-th counted line break from the end
/// marks the cut: the tail starts right after it.  When the file holds
/// fewer line breaks, the whole file is the tail.
pub fn find_start_offset(bytes: &Vec<u8>, tail_lines: usize) -> (r: usize)
    requires
        tail_lines >= 1,
    ensures
        r == 0 ==> spec_nl_count(bytes@, 0) < tail_lines,
        r > 0 ==> spec_counted_nl(bytes@, r - 1) && spec_nl_count(bytes@, r as int) == tail_lines
            - 1,
{
    let len = bytes.len();
    let mut found: usize = 0;
    let mut i: usize = len;
    while i > 0
        invariant
            i <= len,
            len == bytes@.len(),
            found == spec_nl_count(bytes@, i as int),
            found < tail_lines,
        decreases i,
    {
        i -= 1;
        let is_counted = bytes[i] == 10 && i != len - 1;
        proof {
            assert(is_counted == spec_counted_nl(bytes@, i as int));
        }
        if is_counted {
            found += 1;
            if found >= tail_lines {
                proof {
                    assert(spec_nl_count(bytes@, i + 1 as int) == tail_lines - 1);
                }
                return i + 1;
            }
        }
        proof {
            assert(spec_nl_count(bytes@, i as int) == (if spec_counted_nl(bytes@, i as int) {
                1int
            } else {
                0int
            }) + spec_nl_count(bytes@, i + 1 as int));
        }
    }
    0
}

} // verus!
