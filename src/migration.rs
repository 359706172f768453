//! The identity of a migration.
use vstd::prelude::*;
use vstd::string::StrSliceExecFns;

verus! {

/// Where the last `::`-separated segment of `path` starts, when `path` is
/// scanned from index `i` with the current segment starting at `start`.
/// Separators are found left to right without overlapping, as
/// `str::split("::")` finds them.
pub open spec fn last_segment_start(path: Seq<char>, i: int, start: int) -> int
    decreases path.len() - i,
{
    if i + 1 >= path.len() {
        start
    } else if path[i] == ':' && path[i + 1] == ':' {
        last_segment_start(path, i + 2, i + 2)
    } else {
        last_segment_start(path, i + 1, start)
    }
}

/// The last segment of `path` when it is split at each `::`.
pub open spec fn last_segment(path: Seq<char>) -> Seq<char> {
    path.subrange(last_segment_start(path, 0, 0), path.len() as int)
}

/// The default id of a migration: the last segment of its type's full path
/// (`M0` for `tests::utils::M0`).
pub fn migration_id_from_type_name(full_path: &str) -> (r: &str)
    ensures
        r@ == last_segment(full_path@),
{
    let n = full_path.unicode_len();
    let mut i: usize = 0;
    let mut start: usize = 0;
    while n - i > 1
        invariant
            n == full_path@.len(),
            start <= i <= n,
            last_segment_start(full_path@, i as int, start as int) == last_segment_start(
                full_path@,
                0,
                0,
            ),
        decreases n - i,
    {
        if full_path.get_char(i) == ':' && full_path.get_char(i + 1) == ':' {
            i = i + 2;
            start = i;
        } else {
            i = i + 1;
        }
    }
    full_path.substring_char(start, n)
}

} // verus!
