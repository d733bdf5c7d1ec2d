//! File paths as sequences of characters, with `/` between components.
//!
//! A path is read from its end: separators and `.` components that follow
//! the last component are passed over, a leading `/` is the root, and a
//! leading `.` is the current directory.

use vstd::prelude::*;
use vstd::string::*;
use crate::text::chars_of;

verus! {

/// Whether `p` starts at the root.
pub open spec fn is_absolute(p: Seq<char>) -> bool {
    p.len() > 0 && p[0] == '/'
}

/// Whether `p` starts with a `.` that stands for the current directory.
pub open spec fn starts_with_cur_dir(p: Seq<char>) -> bool {
    p.len() > 0 && p[0] == '.' && (p.len() == 1 || p[1] == '/')
}

/// The number of leading characters of `p` that belong to no named
/// component: the root, or a leading `.`.
pub open spec fn body_start(p: Seq<char>) -> int {
    if is_absolute(p) || starts_with_cur_dir(p) {
        1
    } else {
        0
    }
}

/// Where the segment that ends at `end` starts: behind the last `/` of
/// `p[lo..end]`, or at `lo`.
pub open spec fn segment_start(p: Seq<char>, lo: int, end: int) -> int
    decreases end - lo,
{
    if end <= lo {
        lo
    } else if p[end - 1] == '/' {
        end
    } else {
        segment_start(p, lo, end - 1)
    }
}

/// Whether `p[a..b]` is the component `.`.
pub open spec fn is_dot(p: Seq<char>, a: int, b: int) -> bool {
    b - a == 1 && p[a] == '.'
}

/// Whether `p[a..b]` is the component `..`.
pub open spec fn is_dot_dot(p: Seq<char>, a: int, b: int) -> bool {
    b - a == 2 && p[a] == '.' && p[a + 1] == '.'
}

/// Where the last component of `p[..end]` ends, once the empty and the `.`
/// segments behind it are left out.
pub open spec fn trimmed_end(p: Seq<char>, end: int) -> int
    decreases end,
{
    let lo = body_start(p);
    if end <= lo {
        end
    } else {
        let a = segment_start(p, lo, end);
        if a == end {
            trimmed_end(p, end - 1)
        } else if is_dot(p, a, end) {
            if a > lo {
                trimmed_end(p, a - 1)
            } else {
                a
            }
        } else {
            end
        }
    }
}

/// Where the last component of `p` ends.
pub open spec fn name_end(p: Seq<char>) -> int {
    trimmed_end(p, p.len() as int)
}

/// Where the last component of `p` starts.
pub open spec fn name_start(p: Seq<char>) -> int {
    segment_start(p, body_start(p), name_end(p))
}

/// Whether `p` ends in a component that names a file or directory: one that
/// is neither the root, nor `.`, nor `..`.
pub open spec fn has_file_name(p: Seq<char>) -> bool {
    name_end(p) > body_start(p) && !is_dot_dot(p, name_start(p), name_end(p))
}

/// The last component of `p`, where it names a file or directory.
pub open spec fn file_name(p: Seq<char>) -> Option<Seq<char>> {
    if has_file_name(p) {
        Some(p.subrange(name_start(p), name_end(p)))
    } else {
        None
    }
}

/// The index of the last `.` of `n[..end]`, or -1 where there is none.
pub open spec fn last_dot(n: Seq<char>, end: int) -> int
    decreases end,
{
    if end <= 0 {
        -1
    } else if n[end - 1] == '.' {
        end - 1
    } else {
        last_dot(n, end - 1)
    }
}

/// The length of the stem of the file name `n`: all of it where its last
/// `.` is its first character or is missing, else what stands before that `.`.
pub open spec fn stem_len(n: Seq<char>) -> int {
    let d = last_dot(n, n.len() as int);
    if d <= 0 {
        n.len() as int
    } else {
        d
    }
}

/// The file name of `p` without its extension.
pub open spec fn file_stem(p: Seq<char>) -> Option<Seq<char>> {
    match file_name(p) {
        Some(n) => Some(n.subrange(0, stem_len(n))),
        None => None,
    }
}

/// What follows the last `.` of the file name of `p`, where that `.` is not
/// the name's first character.
pub open spec fn extension(p: Seq<char>) -> Option<Seq<char>> {
    match file_name(p) {
        Some(n) => if stem_len(n) < n.len() {
            Some(n.subrange(stem_len(n) + 1, n.len() as int))
        } else {
            None
        },
        None => None,
    }
}

/// The length of the part of `p` that stands before its last component.
pub open spec fn parent_end(p: Seq<char>) -> int {
    let lo = body_start(p);
    if name_end(p) > lo {
        let a = name_start(p);
        if a > lo {
            trimmed_end(p, a - 1)
        } else {
            a
        }
    } else {
        0
    }
}

/// `p` without its last component; empty where `p` has one component or
/// none.
pub open spec fn parent(p: Seq<char>) -> Seq<char> {
    p.subrange(0, parent_end(p))
}

/// `rel` below the directory `base`: `rel` itself where it is absolute.
pub open spec fn join(base: Seq<char>, rel: Seq<char>) -> Seq<char> {
    if is_absolute(rel) {
        rel
    } else if base.len() > 0 && base.last() != '/' {
        base + seq!['/'] + rel
    } else {
        base + rel
    }
}

/// `p` followed by a `.` and `ext`; `p` itself where `ext` is empty.
pub open spec fn with_suffix(p: Seq<char>, ext: Seq<char>) -> Seq<char> {
    if ext.len() == 0 {
        p
    } else {
        p + seq!['.'] + ext
    }
}

/// `p` with the extension of its file name replaced by `ext`; `p` itself
/// where it has no file name.
pub open spec fn with_extension(p: Seq<char>, ext: Seq<char>) -> Seq<char> {
    match file_name(p) {
        Some(n) => with_suffix(p.subrange(0, name_start(p) + stem_len(n)), ext),
        None => p,
    }
}

/// The view of an optional string.
pub open spec fn text_of(s: Option<String>) -> Option<Seq<char>> {
    match s {
        Some(t) => Some(t@),
        None => None,
    }
}

fn body_start_of(p: &Vec<char>) -> (lo: usize)
    ensures
        lo == body_start(p@),
        lo <= p.len(),
{
    if p.len() == 0 {
        0
    } else if p[0] == '/' {
        1
    } else if p[0] == '.' && (p.len() == 1 || p[1] == '/') {
        1
    } else {
        0
    }
}

fn segment_start_of(p: &Vec<char>, lo: usize, end: usize) -> (a: usize)
    requires
        lo <= end <= p.len(),
    ensures
        a == segment_start(p@, lo as int, end as int),
        lo <= a <= end,
{
    let mut a: usize = end;
    while a > lo && p[a - 1] != '/'
        invariant
            lo <= a <= end <= p.len(),
            segment_start(p@, lo as int, end as int) == segment_start(p@, lo as int, a as int),
        decreases a,
    {
        a = a - 1;
    }
    a
}

fn trimmed_end_of(p: &Vec<char>, end: usize) -> (e: usize)
    requires
        end <= p.len(),
    ensures
        e == trimmed_end(p@, end as int),
        e <= end,
{
    let lo: usize = body_start_of(p);
    let mut e: usize = end;
    let mut found: bool = false;
    while !found && e > lo
        invariant
            e <= end <= p.len(),
            lo == body_start(p@),
            trimmed_end(p@, end as int) == trimmed_end(p@, e as int),
            found ==> e > lo && trimmed_end(p@, e as int) == e,
        decreases e + (if found { 0int } else { 1int }),
    {
        let a: usize = segment_start_of(p, lo, e);
        if a == e {
            e = e - 1;
        } else if e - a == 1 && p[a] == '.' {
            if a > lo {
                e = a - 1;
            } else {
                e = a;
            }
        } else {
            found = true;
        }
    }
    e
}

fn stem_len_of(p: &Vec<char>, a: usize, e: usize) -> (k: usize)
    requires
        a <= e <= p.len(),
    ensures
        k == stem_len(p@.subrange(a as int, e as int)),
        k <= e - a,
{
    let ghost n = p@.subrange(a as int, e as int);
    let mut d: usize = e - a;
    while d > 0 && p[a + d - 1] != '.'
        invariant
            d <= e - a,
            a <= e <= p.len(),
            n == p@.subrange(a as int, e as int),
            last_dot(n, n.len() as int) == last_dot(n, d as int),
        decreases d,
    {
        assert(n[d - 1] == p@[a + d - 1]);
        d = d - 1;
    }
    if d > 0 {
        assert(n[d - 1] == p@[a + d - 1]);
    }
    if d <= 1 {
        e - a
    } else {
        d - 1
    }
}

/// Where the file name of `p` starts and ends, and where its stem ends.
fn name_cuts(p: &Vec<char>) -> (cuts: Option<(usize, usize, usize)>)
    ensures
        cuts is Some == has_file_name(p@),
        cuts matches Some((a, k, e)) ==> {
            &&& a == name_start(p@)
            &&& e == name_end(p@)
            &&& k == a + stem_len(p@.subrange(a as int, e as int))
            &&& a <= k <= e <= p.len()
        },
{
    let lo: usize = body_start_of(p);
    let e: usize = trimmed_end_of(p, p.len());
    if e <= lo {
        return None;
    }
    let a: usize = segment_start_of(p, lo, e);
    if e - a == 2 && p[a] == '.' && p[a + 1] == '.' {
        return None;
    }
    let k: usize = stem_len_of(p, a, e);
    Some((a, a + k, e))
}

/// Tells whether `p` starts at the root.
pub fn is_absolute_path(p: &str) -> (absolute: bool)
    ensures
        absolute == is_absolute(p@),
{
    p.unicode_len() > 0 && p.get_char(0) == '/'
}

/// The path of the directory that holds the last component of `p`.
pub fn parent_of(p: &str) -> (dir: String)
    ensures
        dir@ == parent(p@),
{
    let chars: Vec<char> = chars_of(p);
    let lo: usize = body_start_of(&chars);
    let e: usize = trimmed_end_of(&chars, chars.len());
    let mut cut: usize = 0;
    if e > lo {
        let a: usize = segment_start_of(&chars, lo, e);
        if a > lo {
            cut = trimmed_end_of(&chars, a - 1);
        } else {
            cut = a;
        }
    }
    String::from_str(p.substring_char(0, cut))
}

/// The file name of `p` without its extension.
pub fn file_stem_of(p: &str) -> (stem: Option<String>)
    ensures
        text_of(stem) == file_stem(p@),
{
    let chars: Vec<char> = chars_of(p);
    match name_cuts(&chars) {
        Some((a, k, e)) => {
            assert(p@.subrange(a as int, e as int).subrange(0, k - a) =~= p@.subrange(
                a as int,
                k as int,
            ));
            Some(String::from_str(p.substring_char(a, k)))
        },
        None => None,
    }
}

/// The extension of the file name of `p`.
pub fn extension_of(p: &str) -> (ext: Option<String>)
    ensures
        text_of(ext) == extension(p@),
{
    let chars: Vec<char> = chars_of(p);
    match name_cuts(&chars) {
        Some((a, k, e)) => {
            if k < e {
                assert(p@.subrange(a as int, e as int).subrange(k - a + 1, e - a) =~= p@.subrange(
                    k + 1,
                    e as int,
                ));
                Some(String::from_str(p.substring_char(k + 1, e)))
            } else {
                None
            }
        },
        None => None,
    }
}

/// Puts `rel` below the directory `base`.
pub fn join_paths(base: &str, rel: &str) -> (joined: String)
    ensures
        joined@ == join(base@, rel@),
{
    if is_absolute_path(rel) {
        return String::from_str(rel);
    }
    let n: usize = base.unicode_len();
    let mut joined: String = String::from_str(base);
    if n > 0 && base.get_char(n - 1) != '/' {
        proof {
            reveal_strlit("/");
        }
        joined.append("/");
        assert(joined@ =~= base@ + seq!['/']);
    }
    joined.append(rel);
    joined
}

/// Appends a `.` and `ext` to `p`, unless `ext` is empty.
pub fn append_extension(p: &str, ext: &str) -> (full: String)
    ensures
        full@ == with_suffix(p@, ext@),
{
    let mut full: String = String::from_str(p);
    if ext.unicode_len() > 0 {
        proof {
            reveal_strlit(".");
        }
        full.append(".");
        assert(full@ =~= p@ + seq!['.']);
        full.append(ext);
    }
    full
}

/// Replaces the extension of the file name of `p` by `ext`.
pub fn replace_extension(p: &str, ext: &str) -> (full: String)
    ensures
        full@ == with_extension(p@, ext@),
{
    let chars: Vec<char> = chars_of(p);
    match name_cuts(&chars) {
        Some((a, k, e)) => append_extension(p.substring_char(0, k), ext),
        None => String::from_str(p),
    }
}

} // verus!
