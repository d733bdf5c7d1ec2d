//! What holds of the file name and the extension of a path that was put
//! together from a directory, a stem and an extension.

use vstd::prelude::*;
use crate::path::{
    body_start, extension, file_name, file_stem, has_file_name, is_absolute, is_dot, join,
    last_dot, name_end, name_start, parent_end, segment_start, stem_len, trimmed_end,
    with_extension,
};

verus! {

/// Whether `s` holds the character `c`.
pub open spec fn holds(s: Seq<char>, c: char) -> bool {
    exists|i: int| 0 <= i < s.len() && s[i] == c
}

/// Whether `n` can be the last component of a path and name a file: it is
/// not empty, holds no `/`, and is neither `.` nor `..`.
pub open spec fn is_plain_name(n: Seq<char>) -> bool {
    &&& n.len() > 0
    &&& !holds(n, '/')
    &&& !(n.len() == 1 && n[0] == '.')
    &&& !(n.len() == 2 && n[0] == '.' && n[1] == '.')
}

/// Whether a path can be followed by a component at once: it is empty or
/// ends with a `/`.
pub open spec fn is_open_prefix(q: Seq<char>) -> bool {
    q.len() == 0 || q.last() == '/'
}

/// What `join` puts before a relative path: the directory, and a `/` where
/// the directory does not end with one.
pub open spec fn join_prefix(base: Seq<char>) -> Seq<char> {
    if base.len() > 0 && base.last() != '/' {
        base + seq!['/']
    } else {
        base
    }
}

/// A segment starts between the place where the search starts and its end.
pub proof fn lemma_segment_start_bounds(p: Seq<char>, lo: int, end: int)
    requires
        lo <= end,
    ensures
        lo <= segment_start(p, lo, end) <= end,
    decreases end - lo,
{
    if end > lo && p[end - 1] != '/' {
        lemma_segment_start_bounds(p, lo, end - 1);
    }
}

/// The end of the last component lies in the part of the path that was
/// searched, and not before the first named component.
pub proof fn lemma_trimmed_end_bounds(p: Seq<char>, end: int)
    requires
        0 <= end,
    ensures
        0 <= trimmed_end(p, end) <= end,
        end >= body_start(p) ==> trimmed_end(p, end) >= body_start(p),
    decreases end,
{
    let lo = body_start(p);
    if end > lo {
        let a = segment_start(p, lo, end);
        lemma_segment_start_bounds(p, lo, end);
        if a == end {
            lemma_trimmed_end_bounds(p, end - 1);
        } else if is_dot(p, a, end) && a > lo {
            lemma_trimmed_end_bounds(p, a - 1);
        }
    }
}

/// The last `.` lies in the part of the name that was searched, if there is
/// one.
pub proof fn lemma_last_dot_bounds(n: Seq<char>, end: int)
    requires
        end <= n.len(),
    ensures
        -1 <= last_dot(n, end),
        last_dot(n, end) < end || end <= 0,
    decreases end,
{
    if end > 0 && n[end - 1] != '.' {
        lemma_last_dot_bounds(n, end - 1);
    }
}

/// The indices that the parts of a path are cut at lie in the path, in
/// order.
pub proof fn lemma_path_indices(p: Seq<char>)
    ensures
        0 <= body_start(p) <= p.len(),
        0 <= name_end(p) <= p.len(),
        name_end(p) >= body_start(p),
        body_start(p) <= name_start(p),
        name_end(p) > body_start(p) ==> name_start(p) < name_end(p),
        name_start(p) <= name_end(p),
        0 <= parent_end(p) <= name_start(p),
{
    let lo = body_start(p);
    lemma_trimmed_end_bounds(p, p.len() as int);
    lemma_segment_start_bounds(p, lo, name_end(p));
    lemma_trimmed_end_nonempty(p, p.len() as int);
    if name_end(p) > lo && name_start(p) > lo {
        lemma_trimmed_end_bounds(p, name_start(p) - 1);
    }
}

/// A last component that `trimmed_end` stops at is not empty.
pub proof fn lemma_trimmed_end_nonempty(p: Seq<char>, end: int)
    requires
        0 <= end,
    ensures
        trimmed_end(p, end) > body_start(p) ==> segment_start(
            p,
            body_start(p),
            trimmed_end(p, end),
        ) < trimmed_end(p, end) && !is_dot(
            p,
            segment_start(p, body_start(p), trimmed_end(p, end)),
            trimmed_end(p, end),
        ),
    decreases end,
{
    let lo = body_start(p);
    if end > lo {
        let a = segment_start(p, lo, end);
        lemma_segment_start_bounds(p, lo, end);
        if a == end {
            lemma_trimmed_end_nonempty(p, end - 1);
        } else if is_dot(p, a, end) && a > lo {
            lemma_trimmed_end_nonempty(p, a - 1);
        }
    }
}

/// No `/` stands in a segment.
pub proof fn lemma_segment_has_no_separator(p: Seq<char>, lo: int, end: int)
    requires
        lo <= end,
    ensures
        forall|i: int| segment_start(p, lo, end) <= i < end ==> p[i] != '/',
    decreases end - lo,
{
    if end > lo && p[end - 1] != '/' {
        lemma_segment_has_no_separator(p, lo, end - 1);
    }
}

/// A segment starts behind the `/` before it, or where the search starts.
pub proof fn lemma_segment_starts_behind_separator(p: Seq<char>, lo: int, end: int)
    requires
        lo <= end,
    ensures
        segment_start(p, lo, end) == lo || p[segment_start(p, lo, end) - 1] == '/',
    decreases end - lo,
{
    if end > lo && p[end - 1] != '/' {
        lemma_segment_starts_behind_separator(p, lo, end - 1);
    }
}

/// A run of characters without `/` that starts behind a `/`, or where the
/// search starts, is the segment that ends with it.
pub proof fn lemma_segment_start_found(p: Seq<char>, lo: int, k: int, end: int)
    requires
        lo <= k <= end,
        forall|i: int| k <= i < end ==> p[i] != '/',
        k == lo || p[k - 1] == '/',
    ensures
        segment_start(p, lo, end) == k,
    decreases end - k,
{
    if end > k {
        lemma_segment_start_found(p, lo, k, end - 1);
    }
}

/// A `.` with no `.` behind it is the last one.
pub proof fn lemma_last_dot_found(n: Seq<char>, d: int, end: int)
    requires
        0 <= d < end,
        n[d] == '.',
        forall|i: int| d < i < end ==> n[i] != '.',
    ensures
        last_dot(n, end) == d,
    decreases end - d,
{
    if end - 1 > d {
        lemma_last_dot_found(n, d, end - 1);
    }
}

/// `join` puts `join_prefix` of the directory before a relative path, and
/// that prefix can be followed by a component at once.
pub proof fn lemma_join_is_prefixed(base: Seq<char>, rel: Seq<char>)
    requires
        !is_absolute(rel),
    ensures
        join(base, rel) == join_prefix(base) + rel,
        is_open_prefix(join_prefix(base)),
{
}

/// A plain name behind a prefix that ends with `/` is the file name of the
/// whole.
pub proof fn lemma_file_name_of_tail(q: Seq<char>, n: Seq<char>)
    requires
        is_open_prefix(q),
        is_plain_name(n),
    ensures
        name_start(q + n) == q.len(),
        name_end(q + n) == (q + n).len(),
        has_file_name(q + n),
        file_name(q + n) == Some(n),
{
    let p = q + n;
    let lo = body_start(p);
    let k = q.len() as int;
    let len = p.len() as int;
    assert forall|i: int| 0 <= i < n.len() implies n[i] != '/' by {
        if n[i] == '/' {
            assert(holds(n, '/'));
        }
    }
    assert(p[k] == n[0]);
    if q.len() == 0 {
        assert(p =~= n);
        if n.len() > 1 {
            assert(p[1] == n[1]);
        }
        assert(lo == 0);
    } else {
        assert(p[k - 1] == q.last());
    }
    assert forall|i: int| k <= i < len implies p[i] != '/' by {
        assert(p[i] == n[i - k]);
    }
    lemma_segment_start_found(p, lo, k, len);
    if n.len() == 2 {
        assert(p[k + 1] == n[1]);
    }
    assert(trimmed_end(p, len) == len);
    assert(p.subrange(k, len) =~= n);
}

/// A stem, a `.` and an extension without `.` behind a prefix that ends
/// with `/`: the whole has that stem and that extension.
pub proof fn lemma_extension_of_tail(q: Seq<char>, stem: Seq<char>, ext: Seq<char>)
    requires
        is_open_prefix(q),
        stem.len() > 0,
        !holds(stem, '/'),
        ext.len() > 0,
        !holds(ext, '/'),
        !holds(ext, '.'),
    ensures
        file_name(q + (stem + seq!['.'] + ext)) == Some(stem + seq!['.'] + ext),
        file_stem(q + (stem + seq!['.'] + ext)) == Some(stem),
        extension(q + (stem + seq!['.'] + ext)) == Some(ext),
{
    let n = stem + seq!['.'] + ext;
    let d = stem.len() as int;
    assert(n.len() == stem.len() + 1 + ext.len());
    assert forall|i: int| 0 <= i < n.len() implies n[i] != '/' by {
        if i < d {
            assert(n[i] == stem[i]);
            if stem[i] == '/' {
                assert(holds(stem, '/'));
            }
        } else if i > d {
            assert(n[i] == ext[i - d - 1]);
            if ext[i - d - 1] == '/' {
                assert(holds(ext, '/'));
            }
        } else {
            assert(n[i] == '.');
        }
    }
    assert(!holds(n, '/'));
    assert(is_plain_name(n));
    lemma_file_name_of_tail(q, n);
    assert(n[d] == '.');
    assert forall|i: int| d < i < n.len() implies n[i] != '.' by {
        assert(n[i] == ext[i - d - 1]);
        if ext[i - d - 1] == '.' {
            assert(holds(ext, '.'));
        }
    }
    lemma_last_dot_found(n, d, n.len() as int);
    assert(stem_len(n) == d);
    assert(n.subrange(0, d) =~= stem);
    assert(n.subrange(d + 1, n.len() as int) =~= ext);
}

/// The file name of a path is a plain name, and so is its stem but that it
/// may be `.` or `..`.
pub proof fn lemma_file_name_is_plain(p: Seq<char>)
    requires
        has_file_name(p),
    ensures
        is_plain_name(file_name(p)->0),
        file_stem(p)->0.len() > 0,
        !holds(file_stem(p)->0, '/'),
        is_open_prefix(p.subrange(0, name_start(p))),
        0 <= name_start(p) < name_end(p) <= p.len(),
{
    let lo = body_start(p);
    let a = name_start(p);
    let e = name_end(p);
    let n = file_name(p)->0;
    lemma_path_indices(p);
    lemma_trimmed_end_nonempty(p, p.len() as int);
    lemma_segment_has_no_separator(p, lo, e);
    lemma_segment_starts_behind_separator(p, lo, e);
    assert forall|i: int| 0 <= i < n.len() implies n[i] != '/' by {
        assert(n[i] == p[a + i]);
    }
    assert(n[0] == p[a]);
    if n.len() == 2 {
        assert(n[1] == p[a + 1]);
    }
    lemma_last_dot_bounds(n, n.len() as int);
    let stem = file_stem(p)->0;
    assert forall|i: int| 0 <= i < stem.len() implies stem[i] != '/' by {
        assert(stem[i] == n[i]);
    }
    let q = p.subrange(0, a);
    if a > 0 {
        if a == lo {
            // A leading `.` is followed by a `/`, which no segment holds.
            if !is_absolute(p) {
                assert(p[1] == '/');
                assert(false);
            }
        }
        assert(q.last() == p[a - 1]);
    }
}

/// A path with a file name, given an extension without `.`, has that
/// extension; its stem and what stands before its file name are unchanged.
pub proof fn lemma_with_extension_sets_extension(p: Seq<char>, ext: Seq<char>)
    requires
        has_file_name(p),
        ext.len() > 0,
        !holds(ext, '/'),
        !holds(ext, '.'),
    ensures
        extension(with_extension(p, ext)) == Some(ext),
        file_stem(with_extension(p, ext)) == file_stem(p),
        name_start(with_extension(p, ext)) == name_start(p),
{
    lemma_file_name_is_plain(p);
    let a = name_start(p);
    let n = file_name(p)->0;
    let k = stem_len(n);
    let stem = file_stem(p)->0;
    let q = p.subrange(0, a);
    lemma_last_dot_bounds(n, n.len() as int);
    assert(0 < k <= n.len());
    assert(stem =~= p.subrange(a, a + k));
    assert(p.subrange(0, a + k) =~= q + stem);
    assert(with_extension(p, ext) =~= q + (stem + seq!['.'] + ext));
    lemma_extension_of_tail(q, stem, ext);
    lemma_file_name_of_tail_start(q, stem, ext);
}

/// Where the file name starts in a path that ends with a stem, a `.` and
/// an extension.
proof fn lemma_file_name_of_tail_start(q: Seq<char>, stem: Seq<char>, ext: Seq<char>)
    requires
        is_open_prefix(q),
        stem.len() > 0,
        !holds(stem, '/'),
        ext.len() > 0,
        !holds(ext, '/'),
        !holds(ext, '.'),
    ensures
        name_start(q + (stem + seq!['.'] + ext)) == q.len(),
{
    lemma_extension_of_tail(q, stem, ext);
    let n = stem + seq!['.'] + ext;
    assert(file_name(q + n) == Some(n));
    assert(n.len() >= 3);
    assert forall|i: int| 0 <= i < n.len() implies n[i] != '/' by {
        let d = stem.len() as int;
        if i < d {
            assert(n[i] == stem[i]);
            if stem[i] == '/' {
                assert(holds(stem, '/'));
            }
        } else if i > d {
            assert(n[i] == ext[i - d - 1]);
            if ext[i - d - 1] == '/' {
                assert(holds(ext, '/'));
            }
        }
    }
    assert(is_plain_name(n));
    lemma_file_name_of_tail(q, n);
}

} // verus!
