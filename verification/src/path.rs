//! POSIX path syntax on byte strings.
//!
//! A path is a sequence of bytes. The separator byte splits it into segments;
//! empty segments and `.` segments carry no meaning, except for a `.` that
//! opens a path without a root. What is left are the components: the root, the
//! leading `.`, `..`, and ordinary names.

use vstd::prelude::*;
use vstd::slice::slice_subrange;

verus! {

/// The byte that separates the components of a path.
pub const SEPARATOR: u8 = 0x2f;

/// The byte of which the components `.` and `..` are made.
pub const DOT: u8 = 0x2e;

/// Whether `path` is non-empty and its last byte is the separator.
pub open spec fn ends_with_separator(path: Seq<u8>) -> bool {
    path.len() > 0 && path.last() == SEPARATOR
}

/// Whether `path` starts at the root.
pub open spec fn has_root(path: Seq<u8>) -> bool {
    path.len() > 0 && path[0] == SEPARATOR
}

/// Whether `path` has no root and opens with a `.` segment.
pub open spec fn starts_with_current_dir(path: Seq<u8>) -> bool {
    path.len() > 0 && path[0] == DOT && (path.len() == 1 || path[1] == SEPARATOR)
}

/// How many leading bytes of `path` stand for the root or for a leading `.`.
/// No trimming goes below this length.
pub open spec fn head_len(path: Seq<u8>) -> int {
    if has_root(path) || starts_with_current_dir(path) {
        1
    } else {
        0
    }
}

/// Whether the byte before position `n` of `path` ends a segment that carries
/// no meaning: it is a separator, or a `.` that follows a separator.
pub open spec fn removable_before(path: Seq<u8>, n: int) -> bool {
    1 <= n <= path.len() && (path[n - 1] == SEPARATOR || (n >= 2 && path[n - 1] == DOT && path[n
        - 2] == SEPARATOR))
}

/// The length that is left of the first `n` bytes of `path` once trailing
/// separators and trailing `.` segments are taken away, the head excepted.
pub open spec fn trimmed_len(path: Seq<u8>, n: int) -> int
    decreases n,
{
    if n > head_len(path) && removable_before(path, n) {
        trimmed_len(path, n - 1)
    } else {
        n
    }
}

/// Where the segment that ends at position `n` of `path` begins: the nearest
/// position at or before `n` that is the start of the path or follows a separator.
pub open spec fn segment_start(path: Seq<u8>, n: int) -> int
    decreases n,
{
    if n <= 0 || n > path.len() || path[n - 1] == SEPARATOR {
        n
    } else {
        segment_start(path, n - 1)
    }
}

/// Whether `name` is the component `..`.
pub open spec fn is_parent_dir(name: Seq<u8>) -> bool {
    name.len() == 2 && name[0] == DOT && name[1] == DOT
}

/// Whether `name` can be the name of a file: it is not empty, holds no
/// separator, and is neither `.` nor `..`.
pub open spec fn is_normal_component(name: Seq<u8>) -> bool {
    &&& name.len() > 0
    &&& forall|i: int| 0 <= i < name.len() ==> name[i] != SEPARATOR
    &&& !(name.len() == 1 && name[0] == DOT)
    &&& !is_parent_dir(name)
}

/// Whether the bytes of `path` from `start` to `end` are an ordinary name that
/// fills a whole segment and is followed by nothing but separators and `.`
/// segments.
pub open spec fn is_last_name(path: Seq<u8>, start: int, end: int) -> bool {
    &&& 0 <= start < end <= path.len()
    &&& is_normal_component(path.subrange(start, end))
    &&& start == 0 || path[start - 1] == SEPARATOR
    &&& forall|n: int| end < n <= path.len() ==> removable_before(path, n)
}

/// The last component of `path` if it is an ordinary name. There is none when
/// the path is empty, is made of the root or a `.` alone, or ends in `..`.
pub open spec fn spec_file_name(path: Seq<u8>) -> Option<Seq<u8>> {
    let end = trimmed_len(path, path.len() as int);
    let name = path.subrange(segment_start(path, end), end);
    if end <= head_len(path) || is_parent_dir(name) {
        None
    } else {
        Some(name)
    }
}

/// The path without its last component. There is none when the path is empty
/// or ends at the root; the parent of a lone `.` is the empty path.
pub open spec fn spec_parent(path: Seq<u8>) -> Option<Seq<u8>> {
    let end = trimmed_len(path, path.len() as int);
    if end > head_len(path) {
        Some(path.take(trimmed_len(path, segment_start(path, end))))
    } else if starts_with_current_dir(path) {
        Some(Seq::empty())
    } else {
        None
    }
}

/// `path` as seen from `base`: an absolute `path` stands for itself; a relative
/// one is appended to `base`, after a separator where `base` does not end in one.
pub open spec fn spec_join(base: Seq<u8>, path: Seq<u8>) -> Seq<u8> {
    if has_root(path) {
        path
    } else if base.len() > 0 && base.last() != SEPARATOR {
        base.push(SEPARATOR) + path
    } else {
        base + path
    }
}

/// Trimming stays between the head and the given length, and what is left does
/// not end in a removable byte unless only the head is left.
pub proof fn lemma_trimmed_len_bounds(path: Seq<u8>, n: int)
    requires
        0 <= n <= path.len(),
    ensures
        0 <= trimmed_len(path, n) <= n,
        n >= head_len(path) ==> trimmed_len(path, n) >= head_len(path),
        trimmed_len(path, n) > head_len(path) ==> !removable_before(path, trimmed_len(path, n)),
        trimmed_len(path, n) < n ==> removable_before(path, trimmed_len(path, n) + 1),
    decreases n,
{
    if n > head_len(path) && removable_before(path, n) {
        lemma_trimmed_len_bounds(path, n - 1);
    }
}

/// A segment starts at or before its end, right after a separator or at the
/// start of the path, and holds no separator.
pub proof fn lemma_segment_start_bounds(path: Seq<u8>, n: int)
    requires
        0 <= n <= path.len(),
    ensures
        0 <= segment_start(path, n) <= n,
        segment_start(path, n) == 0 || path[segment_start(path, n) - 1] == SEPARATOR,
        forall|i: int| segment_start(path, n) <= i < n ==> path[i] != SEPARATOR,
    decreases n,
{
    if n > 0 && path[n - 1] != SEPARATOR {
        lemma_segment_start_bounds(path, n - 1);
    }
}

/// The start of a segment is the one position that follows a separator, or
/// opens the path, with no separator between it and the segment's end.
pub proof fn lemma_segment_start_is(path: Seq<u8>, start: int, n: int)
    requires
        0 <= start <= n <= path.len(),
        start == 0 || path[start - 1] == SEPARATOR,
        forall|i: int| start <= i < n ==> path[i] != SEPARATOR,
    ensures
        segment_start(path, n) == start,
    decreases n,
{
    if n > start {
        lemma_segment_start_is(path, start, n - 1);
    }
}

/// A file name is an ordinary component: not empty, free of separators, and
/// neither `.` nor `..`.
pub proof fn lemma_file_name_is_normal(path: Seq<u8>)
    requires
        spec_file_name(path) is Some,
    ensures
        is_normal_component(spec_file_name(path)->0),
{
    let end = trimmed_len(path, path.len() as int);
    let start = segment_start(path, end);
    let name = path.subrange(start, end);
    lemma_trimmed_len_bounds(path, path.len() as int);
    lemma_segment_start_bounds(path, end);
    assert(name.len() > 0);
    if name.len() == 1 && name[0] == DOT {
        if start == 0 {
            // A lone `.` at the start would be the head, or be followed by a byte
            // that trimming cannot take away.
            assert(path.len() > 1 && path[1] != SEPARATOR);
            assert(removable_before(path, 2));
        } else {
            assert(removable_before(path, end));
        }
    }
}

/// The file name of a path, where it has one, is its last name.
pub proof fn lemma_file_name_is_last_name(path: Seq<u8>)
    requires
        spec_file_name(path) is Some,
    ensures
        is_last_name(
            path,
            segment_start(path, trimmed_len(path, path.len() as int)),
            trimmed_len(path, path.len() as int),
        ),
{
    let end = trimmed_len(path, path.len() as int);
    lemma_file_name_is_normal(path);
    lemma_trimmed_len_bounds(path, path.len() as int);
    lemma_segment_start_bounds(path, end);
    assert forall|n: int| end < n <= path.len() implies removable_before(path, n) by {
        lemma_trimmed_len_stops(path, path.len() as int, n);
    }
}

/// Every length that trimming passes on its way down ends a removable byte.
proof fn lemma_trimmed_len_stops(path: Seq<u8>, from: int, n: int)
    requires
        0 <= from <= path.len(),
        trimmed_len(path, from) < n <= from,
    ensures
        removable_before(path, n),
    decreases from,
{
    if n < from {
        lemma_trimmed_len_stops(path, from - 1, n);
    }
}

/// Where every length above `to` and up to `from` ends a removable byte,
/// trimming from `from` arrives where trimming from `to` does.
proof fn lemma_trimmed_len_passes(path: Seq<u8>, from: int, to: int)
    requires
        head_len(path) <= to <= from <= path.len(),
        forall|n: int| to < n <= from ==> removable_before(path, n),
    ensures
        trimmed_len(path, from) == trimmed_len(path, to),
    decreases from,
{
    if to < from {
        lemma_trimmed_len_passes(path, from - 1, to);
    }
}

/// A path has at most one last name, and that is its file name.
pub proof fn lemma_last_name_is_file_name(path: Seq<u8>, start: int, end: int)
    requires
        is_last_name(path, start, end),
    ensures
        spec_file_name(path) == Some(path.subrange(start, end)),
        trimmed_len(path, path.len() as int) == end,
        segment_start(path, end) == start,
        end > head_len(path),
{
    let name = path.subrange(start, end);
    assert(name[name.len() - 1] == path[end - 1]);
    if end - start >= 2 {
        assert(name[name.len() - 2] == path[end - 2]);
    }
    assert(name[0] == path[start]);
    assert(!removable_before(path, end));
    lemma_trimmed_len_passes(path, path.len() as int, end);
    assert forall|i: int| start <= i < end implies path[i] != SEPARATOR by {
        assert(path[i] == name[i - start]);
    }
    lemma_segment_start_is(path, start, end);
}

/// An ordinary component is its own file name.
pub proof fn lemma_file_name_of_component(name: Seq<u8>)
    requires
        is_normal_component(name),
    ensures
        spec_file_name(name) == Some(name),
{
    lemma_file_name_after_directory(Seq::empty(), name);
    assert(Seq::<u8>::empty() + name =~= name);
}

/// Behind a directory prefix that is empty or ends in a separator, an ordinary
/// component is the file name of the whole path.
pub proof fn lemma_file_name_after_directory(dir: Seq<u8>, name: Seq<u8>)
    requires
        dir.len() == 0 || ends_with_separator(dir),
        is_normal_component(name),
    ensures
        spec_file_name(dir + name) == Some(name),
{
    let path = dir + name;
    assert(path.subrange(dir.len() as int, path.len() as int) =~= name);
    if dir.len() > 0 {
        assert(path[dir.len() - 1] == dir.last());
    }
    lemma_last_name_is_file_name(path, dir.len() as int, path.len() as int);
}

/// The empty path, `.`, `..` and the root have no file name.
pub proof fn lemma_no_file_name(path: Seq<u8>)
    requires
        path.len() == 0 || path =~= seq![DOT] || path =~= seq![DOT, DOT] || path =~= seq![
            SEPARATOR,
        ],
    ensures
        spec_file_name(path) is None,
{
    if path.len() == 2 {
        assert(!removable_before(path, 2));
        assert(trimmed_len(path, 2) == 2);
        lemma_segment_start_is(path, 0, 2);
        assert(is_parent_dir(path.subrange(0, 2)));
    }
}

/// The parent of a bare file name is the empty path.
pub proof fn lemma_parent_of_component(name: Seq<u8>)
    requires
        is_normal_component(name),
    ensures
        spec_parent(name) == Some(Seq::<u8>::empty()),
{
    assert(name.subrange(0, name.len() as int) =~= name);
    lemma_last_name_is_file_name(name, 0, name.len() as int);
    assert(name.take(0) =~= Seq::<u8>::empty());
}

/// Trimming looks at the bytes before the given length only: in two paths
/// that agree there and have heads of one length, it leaves the same length.
pub proof fn lemma_trimmed_len_of_prefix(path: Seq<u8>, longer: Seq<u8>, n: int)
    requires
        0 <= n <= path.len() <= longer.len(),
        forall|i: int| 0 <= i < path.len() ==> path[i] == longer[i],
        head_len(path) == head_len(longer),
    ensures
        trimmed_len(path, n) == trimmed_len(longer, n),
    decreases n,
{
    if n > head_len(path) && removable_before(path, n) {
        lemma_trimmed_len_of_prefix(path, longer, n - 1);
    }
}

/// The parent of a file name behind a directory prefix is that prefix
/// without the separators and `.` segments it ends in.
pub proof fn lemma_parent_after_directory(dir: Seq<u8>, name: Seq<u8>)
    requires
        ends_with_separator(dir),
        is_normal_component(name),
    ensures
        spec_parent(dir + name) == Some(dir.take(trimmed_len(dir, dir.len() as int))),
{
    let path = dir + name;
    let d = dir.len() as int;
    assert(path.subrange(d, path.len() as int) =~= name);
    assert(path[d - 1] == dir.last());
    lemma_last_name_is_file_name(path, d, path.len() as int);
    assert(head_len(path) == head_len(dir)) by {
        assert(path[0] == dir[0]);
        if d >= 2 {
            assert(path[1] == dir[1]);
        }
    }
    lemma_trimmed_len_of_prefix(dir, path, d);
    lemma_trimmed_len_bounds(dir, d);
    assert(path.take(trimmed_len(path, d)) =~= dir.take(trimmed_len(dir, d)));
}

/// Joining a relative path to the empty path, or to a base that ends in a
/// separator, is plain concatenation.
pub proof fn lemma_join_is_concatenation(base: Seq<u8>, path: Seq<u8>)
    requires
        base.len() == 0 || ends_with_separator(base),
        !has_root(path),
    ensures
        spec_join(base, path) == base + path,
{
}

/// Tells whether the raw bytes of `path` end with the separator.
pub fn has_trailing_separator(path: &[u8]) -> (r: bool)
    ensures
        r == ends_with_separator(path@),
{
    let n: usize = path.len();
    n > 0 && path[n - 1] == SEPARATOR
}

/// Tells whether `path` starts at the root.
pub fn is_absolute(path: &[u8]) -> (r: bool)
    ensures
        r == has_root(path@),
{
    path.len() > 0 && path[0] == SEPARATOR
}

/// Tells whether `path` does not start at the root.
pub fn is_relative(path: &[u8]) -> (r: bool)
    ensures
        r == !has_root(path@),
{
    !is_absolute(path)
}

fn head_length(path: &[u8]) -> (r: usize)
    ensures
        r == head_len(path@),
        r <= path@.len(),
{
    let n: usize = path.len();
    if n > 0 && (path[0] == SEPARATOR || (path[0] == DOT && (n == 1 || path[1] == SEPARATOR))) {
        1
    } else {
        0
    }
}

fn trim_end(path: &[u8], n: usize) -> (r: usize)
    requires
        n <= path@.len(),
    ensures
        r == trimmed_len(path@, n as int),
        r <= n,
{
    let head: usize = head_length(path);
    let mut end: usize = n;
    while end > head && (path[end - 1] == SEPARATOR || (end >= 2 && path[end - 1] == DOT && path[end
        - 2] == SEPARATOR))
        invariant
            head == head_len(path@),
            end <= n <= path@.len(),
            trimmed_len(path@, end as int) == trimmed_len(path@, n as int),
        decreases end,
    {
        end -= 1;
    }
    end
}

fn start_of_segment(path: &[u8], n: usize) -> (r: usize)
    requires
        n <= path@.len(),
    ensures
        r == segment_start(path@, n as int),
        r <= n,
{
    let mut start: usize = n;
    while start > 0 && path[start - 1] != SEPARATOR
        invariant
            start <= n <= path@.len(),
            segment_start(path@, start as int) == segment_start(path@, n as int),
        decreases start,
    {
        start -= 1;
    }
    start
}

/// The last component of `path`, borrowed from it, if it is an ordinary name.
pub fn file_name<'a>(path: &'a [u8]) -> (r: Option<&'a [u8]>)
    ensures
        match r {
            Some(name) => spec_file_name(path@) == Some(name@),
            None => spec_file_name(path@) is None,
        },
{
    let end: usize = trim_end(path, path.len());
    if end <= head_length(path) {
        return None;
    }
    let start: usize = start_of_segment(path, end);
    if end - start == 2 && path[start] == DOT && path[start + 1] == DOT {
        None
    } else {
        Some(slice_subrange(path, start, end))
    }
}

/// `path` without its last component, borrowed from it.
pub fn parent<'a>(path: &'a [u8]) -> (r: Option<&'a [u8]>)
    ensures
        match r {
            Some(dir) => spec_parent(path@) == Some(dir@),
            None => spec_parent(path@) is None,
        },
{
    let end: usize = trim_end(path, path.len());
    let head: usize = head_length(path);
    if end > head {
        let start: usize = start_of_segment(path, end);
        let len: usize = trim_end(path, start);
        Some(slice_subrange(path, 0, len))
    } else if head == 1 && path[0] == DOT {
        Some(slice_subrange(path, 0, 0))
    } else {
        None
    }
}

/// Appends the bytes of `tail` to `out`.
fn append(out: &mut Vec<u8>, tail: &[u8])
    ensures
        final(out)@ == old(out)@ + tail@,
{
    let mut i: usize = 0;
    while i < tail.len()
        invariant
            i <= tail@.len(),
            out@ == old(out)@ + tail@.take(i as int),
        decreases tail@.len() - i,
    {
        out.push(tail[i]);
        i += 1;
    }
}

/// `path` as seen from `base`, in a buffer of its own.
pub fn join(base: &[u8], path: &[u8]) -> (r: Vec<u8>)
    ensures
        r@ == spec_join(base@, path@),
{
    let mut out: Vec<u8> = Vec::new();
    if !is_absolute(path) {
        append(&mut out, base);
        if base.len() > 0 && base[base.len() - 1] != SEPARATOR {
            out.push(SEPARATOR);
        }
    }
    append(&mut out, path);
    out
}

} // verus!
