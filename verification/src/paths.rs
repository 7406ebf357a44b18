//! Path string helpers.
//!
//! Paths are plain strings with `/` as the separator.  The *basename* of a
//! path is everything after the last `/`; the basenames `.` and `..` name
//! directories and are treated as having no file name.  The *full
//! extension* of a path is everything after the first dot of its basename
//! (so `save.state.auto` has full extension `state.auto`), in contrast to
//! the usual last-dot extension.

use vstd::prelude::*;

verus! {

/// Index of the last occurrence of `c` in `s`, or `-1` if `c` does not occur.
pub open spec fn find_last(s: Seq<char>, c: char) -> int
    decreases s.len(),
{
    if s.len() == 0 {
        -1
    } else if s[s.len() - 1] == c {
        s.len() - 1
    } else {
        find_last(s.drop_last(), c)
    }
}

/// First index `>= i` at which `c` occurs in `s`, or `s.len()` if it does not.
pub open spec fn find_from(s: Seq<char>, c: char, i: int) -> int
    decreases s.len() - i,
{
    if i < 0 || i >= s.len() {
        s.len() as int
    } else if s[i] == c {
        i
    } else {
        find_from(s, c, i + 1)
    }
}

/// Index at which the basename of `s` begins: just after the last `/`,
/// or `0` if the path has no separator.
pub open spec fn spec_basename_start(s: Seq<char>) -> int {
    find_last(s, '/') + 1
}

/// The basename of `s`: everything after the last `/`.
pub open spec fn spec_basename(s: Seq<char>) -> Seq<char> {
    s.subrange(spec_basename_start(s), s.len() as int)
}

/// Whether `s` names a file at all: its basename is non-empty and is
/// neither of the directory names `.` and `..`.
pub open spec fn spec_has_file_name(s: Seq<char>) -> bool {
    &&& spec_basename(s).len() > 0
    &&& spec_basename(s) != seq!['.']
    &&& spec_basename(s) != seq!['.', '.']
}

/// Everything after the first dot of the basename, or `None` if the
/// basename has no dot or `s` has no file name.
pub open spec fn spec_full_extension(s: Seq<char>) -> Option<Seq<char>> {
    let b = spec_basename(s);
    let d = find_from(b, '.', 0);
    if !spec_has_file_name(s) || d == b.len() {
        None
    } else {
        Some(b.subrange(d + 1, b.len() as int))
    }
}

/// `s` with the full extension of its basename removed.  A path whose
/// basename has no dot after its first character is left unchanged.
pub open spec fn spec_remove_full_extension(s: Seq<char>) -> Seq<char> {
    let b = spec_basename(s);
    let d = find_from(b, '.', 0);
    if !spec_has_file_name(s) || d == b.len() || d == 0 {
        s
    } else {
        s.take(spec_basename_start(s) + d)
    }
}

pub proof fn lemma_find_last_bounds(s: Seq<char>, c: char)
    ensures
        -1 <= find_last(s, c) < s.len(),
        find_last(s, c) >= 0 ==> s[find_last(s, c)] == c,
        forall|j: int| find_last(s, c) < j < s.len() ==> s[j] != c,
    decreases s.len(),
{
    if s.len() > 0 && s[s.len() - 1] != c {
        lemma_find_last_bounds(s.drop_last(), c);
        assert forall|j: int| find_last(s, c) < j < s.len() implies s[j] != c by {
            if j < s.len() - 1 {
                assert(s.drop_last()[j] == s[j]);
            }
        }
        if find_last(s, c) >= 0 {
            assert(s.drop_last()[find_last(s, c)] == s[find_last(s, c)]);
        }
    }
}

pub proof fn lemma_find_from_bounds(s: Seq<char>, c: char, i: int)
    requires
        0 <= i <= s.len(),
    ensures
        i <= find_from(s, c, i) <= s.len(),
        find_from(s, c, i) < s.len() ==> s[find_from(s, c, i)] == c,
        forall|j: int| i <= j < find_from(s, c, i) ==> s[j] != c,
    decreases s.len() - i,
{
    if i < s.len() && s[i] != c {
        lemma_find_from_bounds(s, c, i + 1);
    }
}

/// Scanning one more character that is not `c` leaves the last
/// occurrence unchanged; scanning an occurrence moves it there.
proof fn lemma_find_last_step(s: Seq<char>, c: char, i: int)
    requires
        0 <= i < s.len(),
    ensures
        s[i] == c ==> find_last(s.take(i + 1), c) == i,
        s[i] != c ==> find_last(s.take(i + 1), c) == find_last(s.take(i), c),
{
    let t = s.take(i + 1);
    assert(t[t.len() - 1] == s[i]);
    if s[i] != c {
        assert(t.drop_last() =~= s.take(i));
    }
}

proof fn lemma_find_from_step(s: Seq<char>, c: char, lo: int, i: int)
    requires
        0 <= lo <= i < s.len(),
        forall|j: int| lo <= j < i ==> s[j] != c,
    ensures
        s[i] == c ==> find_from(s, c, lo) == i,
        s[i] != c ==> forall|j: int| lo <= j < i + 1 ==> s[j] != c,
    decreases i - lo,
{
    if lo < i {
        lemma_find_from_step(s, c, lo + 1, i);
    }
}

/// If no occurrence of `c` lies in `[lo, hi)` and `s[hi] == c` (or `hi`
/// is the end), then `find_from(s, c, lo)` is `hi`.
proof fn lemma_find_from_determined(s: Seq<char>, c: char, lo: int, hi: int)
    requires
        0 <= lo <= hi <= s.len(),
        forall|j: int| lo <= j < hi ==> s[j] != c,
        hi < s.len() ==> s[hi] == c,
    ensures
        find_from(s, c, lo) == hi,
    decreases hi - lo,
{
    if lo < hi {
        lemma_find_from_determined(s, c, lo + 1, hi);
    }
}

/// Index just after the last `/` of `path`, as an executable scan.
pub fn basename_start(path: &str) -> (r: usize)
    ensures
        r == spec_basename_start(path@),
{
    let ghost s = path@;
    let n: usize = path.unicode_len();
    let mut i: usize = 0;
    let mut start: usize = 0;
    proof {
        assert(s.take(0) =~= Seq::<char>::empty());
    }
    while i < n
        invariant
            0 <= start <= i <= n,
            n == s.len(),
            s == path@,
            start == find_last(s.take(i as int), '/') + 1,
        decreases n - i,
    {
        let ch = path.get_char(i);
        proof {
            lemma_find_last_step(s, '/', i as int);
        }
        if ch == '/' {
            start = i + 1;
        }
        i = i + 1;
    }
    proof {
        assert(s.take(n as int) =~= s);
    }
    start
}

/// First index `>= from` holding `c`, or the length of `path` if none.
pub fn find_char_from(path: &str, c: char, from: usize) -> (r: usize)
    requires
        from <= path@.len(),
    ensures
        r == find_from(path@, c, from as int),
{
    let ghost s = path@;
    let n: usize = path.unicode_len();
    let mut i: usize = from;
    while i < n
        invariant
            from <= i <= n,
            n == s.len(),
            s == path@,
            forall|j: int| from <= j < i ==> s[j] != c,
        decreases n - i,
    {
        let ch = path.get_char(i);
        proof {
            lemma_find_from_step(s, c, from as int, i as int);
        }
        if ch == c {
            return i;
        }
        i = i + 1;
    }
    proof {
        lemma_find_from_determined(s, c, from as int, n as int);
    }
    n
}

/// The basename of `path`: everything after its last `/`.
pub fn basename(path: &str) -> (r: &str)
    ensures
        r@ == spec_basename(path@),
{
    let n: usize = path.unicode_len();
    let start = basename_start(path);
    proof {
        lemma_find_last_bounds(path@, '/');
    }
    path.substring_char(start, n)
}

/// The directory part of `path`: everything before its last `/`, or the
/// empty string if `path` has no separator.
pub fn dirname(path: &str) -> (r: &str)
    ensures
        find_last(path@, '/') < 0 ==> r@ == Seq::<char>::empty(),
        find_last(path@, '/') >= 0 ==> r@ == path@.take(find_last(path@, '/')),
{
    let start = basename_start(path);
    proof {
        lemma_find_last_bounds(path@, '/');
    }
    if start == 0 {
        path.substring_char(0, 0)
    } else {
        path.substring_char(0, start - 1)
    }
}

/// Whether the basename of `path` is a real file name (non-empty, not a
/// directory dot name).
pub fn has_file_name(path: &str) -> (r: bool)
    ensures
        r == spec_has_file_name(path@),
{
    let b = basename(path);
    let blen = b.unicode_len();
    if blen == 0 {
        proof {
            assert(spec_basename(path@).len() == 0);
        }
        false
    } else if blen == 1 {
        let dot = b.get_char(0) == '.';
        proof {
            if dot {
                assert(b@ =~= seq!['.']);
            } else {
                assert(b@ != seq!['.']) by {
                    assert(b@[0] != seq!['.'][0]);
                }
                assert(b@ != seq!['.', '.']);
            }
        }
        !dot
    } else if blen == 2 {
        let dots = b.get_char(0) == '.' && b.get_char(1) == '.';
        proof {
            if dots {
                assert(b@ =~= seq!['.', '.']);
            } else {
                assert(b@ != seq!['.', '.']) by {
                    assert(b@[0] != seq!['.', '.'][0] || b@[1] != seq!['.', '.'][1]);
                }
                assert(b@ != seq!['.']);
            }
        }
        !dots
    } else {
        proof {
            assert(b@ != seq!['.'] && b@ != seq!['.', '.']);
        }
        true
    }
}

/// Everything after the first dot of the basename of `path`; `None` when
/// the basename has no dot or `path` names no file.
pub fn full_extension(path: &str) -> (r: Option<&str>)
    ensures
        r matches Some(e) ==> spec_full_extension(path@) == Some(e@),
        r is None ==> spec_full_extension(path@) is None,
{
    if !has_file_name(path) {
        return None;
    }
    let n: usize = path.unicode_len();
    let start = basename_start(path);
    proof {
        lemma_find_last_bounds(path@, '/');
    }
    let b = path.substring_char(start, n);
    let blen = b.unicode_len();
    let d = find_char_from(b, '.', 0);
    proof {
        lemma_find_from_bounds(b@, '.', 0);
    }
    if d == blen {
        None
    } else {
        Some(b.substring_char(d + 1, blen))
    }
}

/// Removes the full extension of the basename of `path`, in place.  The
/// path is unchanged when its basename has no dot after its first
/// character or names no file.
pub fn remove_full_extension(path: &mut String)
    ensures
        final(path)@ == spec_remove_full_extension(old(path)@),
{
    if !has_file_name(path.as_str()) {
        return ;
    }
    let n: usize = path.as_str().unicode_len();
    let start = basename_start(path.as_str());
    proof {
        lemma_find_last_bounds(path@, '/');
    }
    let b = path.as_str().substring_char(start, n);
    let blen = b.unicode_len();
    let d = find_char_from(b, '.', 0);
    proof {
        lemma_find_from_bounds(b@, '.', 0);
    }
    if d == blen || d == 0 {
        return ;
    }
    let stem = path.as_str().substring_char(0, start + d).to_owned();
    proof {
        assert(path@.subrange(0, start + d as int) =~= path@.take(
            spec_basename_start(path@) + find_from(spec_basename(path@), '.', 0),
        ));
    }
    *path = stem;
}

/// Removing the full extension and pasting it back with a dot restores
/// the original path, whenever the basename has a dot after its first
/// character; otherwise removal leaves the path unchanged.
pub proof fn lemma_full_extension_round_trip(s: Seq<char>)
    ensures
        ({
            let b = spec_basename(s);
            let d = find_from(b, '.', 0);
            &&& (spec_has_file_name(s) && 0 < d < b.len())
                ==> spec_remove_full_extension(s) + seq!['.']
                + spec_full_extension(s)->Some_0 == s
            &&& !(spec_has_file_name(s) && 0 < d < b.len()) ==> spec_remove_full_extension(s)
                == s
        }),
{
    let bs = spec_basename_start(s);
    let b = spec_basename(s);
    let d = find_from(b, '.', 0);
    lemma_find_last_bounds(s, '/');
    lemma_find_from_bounds(b, '.', 0);
    if spec_has_file_name(s) && 0 < d < b.len() {
        assert(b[d] == '.');
        assert(s[bs + d] == '.');
        assert(spec_remove_full_extension(s) + seq!['.'] + spec_full_extension(s)->Some_0
            =~= s) by {
            assert(spec_full_extension(s)->Some_0 =~= s.subrange(bs + d + 1, s.len() as int));
        }
    }
}

/// Absolute index of the dot that starts the last extension of the
/// basename of `s`, or `-1` when there is none.  A dot that begins the
/// basename is a hidden-file marker, not an extension separator.
pub open spec fn spec_last_extension_start(s: Seq<char>) -> int {
    let bs = spec_basename_start(s);
    let d = find_last(spec_basename(s), '.');
    if spec_has_file_name(s) && d >= 1 {
        bs + d
    } else {
        -1
    }
}

/// The last-dot extension of the basename of `s`, or `None` when it has
/// none.
pub open spec fn spec_last_extension(s: Seq<char>) -> Option<Seq<char>> {
    let start = spec_last_extension_start(s);
    if start >= 0 {
        Some(s.subrange(start + 1, s.len() as int))
    } else {
        None
    }
}

/// `s` with the last extension of its basename replaced by `e` (removed,
/// when `e` is empty; appended, when there was none).  A path without a
/// file name is left unchanged.
pub open spec fn spec_set_last_extension(s: Seq<char>, e: Seq<char>) -> Seq<char> {
    if !spec_has_file_name(s) {
        s
    } else {
        let start = spec_last_extension_start(s);
        let stem = if start >= 0 {
            s.take(start)
        } else {
            s
        };
        if e.len() == 0 {
            stem
        } else {
            stem + seq!['.'] + e
        }
    }
}

/// Index of the last dot of the basename of `path`, along with the
/// basename bounds, as an executable scan.
fn last_dot_position(path: &str) -> (r: (usize, usize))
    ensures
        r.0 == spec_basename_start(path@),
        ({
            let d = find_last(spec_basename(path@), '.');
            (d >= 0 ==> r.1 == r.0 + d + 1) && (d < 0 ==> r.1 == 0)
        }),
{
    let ghost s = path@;
    let n: usize = path.unicode_len();
    let start = basename_start(path);
    proof {
        lemma_find_last_bounds(s, '/');
    }
    let b = path.substring_char(start, n);
    let ghost bv = spec_basename(s);
    let blen = b.unicode_len();
    let mut i: usize = 0;
    let mut dot_end: usize = 0;
    proof {
        assert(bv.take(0) =~= Seq::<char>::empty());
    }
    while i < blen
        invariant
            0 <= i <= blen,
            blen == bv.len(),
            b@ == bv,
            dot_end <= i,
            dot_end == find_last(bv.take(i as int), '.') + 1,
        decreases blen - i,
    {
        let ch = b.get_char(i);
        proof {
            lemma_find_last_step(bv, '.', i as int);
        }
        if ch == '.' {
            dot_end = i + 1;
        }
        i = i + 1;
    }
    proof {
        assert(bv.take(blen as int) =~= bv);
    }
    if dot_end == 0 {
        (start, 0)
    } else {
        (start, start + dot_end)
    }
}

/// The last-dot extension of the basename of `path`, as for the usual
/// filesystem extension: `None` for paths with no file name, no dot, or
/// only a hidden-file leading dot.
pub fn last_extension(path: &str) -> (r: Option<&str>)
    ensures
        r matches Some(e) ==> spec_last_extension(path@) == Some(e@),
        r is None ==> spec_last_extension(path@) is None,
{
    if !has_file_name(path) {
        return None;
    }
    let n: usize = path.unicode_len();
    let (start, dot_end) = last_dot_position(path);
    proof {
        lemma_find_last_bounds(path@, '/');
        lemma_find_last_bounds(spec_basename(path@), '.');
    }
    if dot_end > 0 && dot_end - 1 > start {
        Some(path.substring_char(dot_end, n))
    } else {
        None
    }
}

/// Replaces the last extension of the basename of `path` with `ext`,
/// in place: the old extension (if any) is cut off, and a non-empty
/// `ext` is appended after a dot.  A path with no file name is left
/// unchanged.
pub fn set_last_extension(path: &mut String, ext: &str)
    ensures
        final(path)@ == spec_set_last_extension(old(path)@, ext@),
{
    if !has_file_name(path.as_str()) {
        return ;
    }
    let n: usize = path.as_str().unicode_len();
    let (start, dot_end) = last_dot_position(path.as_str());
    proof {
        lemma_find_last_bounds(path@, '/');
        lemma_find_last_bounds(spec_basename(path@), '.');
    }
    let stem_end: usize = if dot_end > 0 && dot_end - 1 > start {
        dot_end - 1
    } else {
        n
    };
    let mut out = path.as_str().substring_char(0, stem_end).to_owned();
    proof {
        let st = spec_last_extension_start(old(path)@);
        if st >= 0 {
            assert(out@ =~= old(path)@.take(st));
        } else {
            assert(out@ =~= old(path)@);
        }
    }
    if ext.unicode_len() > 0 {
        out.append(".");
        proof {
            reveal_strlit(".");
            assert(out@.last() == '.');
        }
        out.append(ext);
        proof {
            let st = spec_last_extension_start(old(path)@);
            let stem = if st >= 0 {
                old(path)@.take(st)
            } else {
                old(path)@
            };
            assert(out@ =~= stem + seq!['.'] + ext@);
        }
    }
    *path = out;
}

/// Character-wise string equality.
pub fn str_eq(a: &str, b: &str) -> (r: bool)
    ensures
        r == (a@ == b@),
{
    let n: usize = a.unicode_len();
    let m: usize = b.unicode_len();
    if n != m {
        proof {
            assert(a@ != b@) by {
                assert(a@.len() != b@.len());
            }
        }
        return false;
    }
    let mut i: usize = 0;
    while i < n
        invariant
            0 <= i <= n,
            n == a@.len(),
            n == b@.len(),
            forall|j: int| 0 <= j < i ==> a@[j] == b@[j],
        decreases n - i,
    {
        if a.get_char(i) != b.get_char(i) {
            proof {
                assert(a@ != b@) by {
                    assert(a@[i as int] != b@[i as int]);
                }
            }
            return false;
        }
        i = i + 1;
    }
    proof {
        assert(a@ =~= b@);
    }
    true
}

/// Whether `s` ends with `suffix`.
pub open spec fn spec_ends_with(s: Seq<char>, suffix: Seq<char>) -> bool {
    s.len() >= suffix.len() && s.skip(s.len() - suffix.len()) == suffix
}

/// Whether `s` ends with `suffix`, character-wise.
pub fn ends_with_str(s: &str, suffix: &str) -> (r: bool)
    ensures
        r == spec_ends_with(s@, suffix@),
{
    let n: usize = s.unicode_len();
    let m: usize = suffix.unicode_len();
    if m > n {
        return false;
    }
    let tail = s.substring_char(n - m, n);
    str_eq(tail, suffix)
}

/// `dir` and `name` joined with a `/` separator; a trailing separator on
/// `dir` is not doubled, and an empty `dir` yields `name` alone.
pub open spec fn spec_path_join(dir: Seq<char>, name: Seq<char>) -> Seq<char> {
    if dir.len() == 0 {
        name
    } else if dir[dir.len() - 1] == '/' {
        dir + name
    } else {
        dir + seq!['/'] + name
    }
}

/// Joins a directory and a name with a `/` separator.
pub fn path_join(dir: &str, name: &str) -> (r: String)
    ensures
        r@ == spec_path_join(dir@, name@),
{
    let n: usize = dir.unicode_len();
    if n == 0 {
        return name.to_owned();
    }
    let last = dir.get_char(n - 1);
    let mut out = dir.to_owned();
    if last != '/' {
        out.append("/");
        proof {
            reveal_strlit("/");
            assert(out@ =~= dir@ + seq!['/']);
        }
    }
    out.append(name);
    out
}

/// `path` with `prefix` stripped from its front, if `path` lies under it.
/// The remainder never begins with the separator that closed the prefix.
pub open spec fn spec_strip_prefix(p: Seq<char>, pre: Seq<char>) -> Option<Seq<char>> {
    if p == pre {
        Some(Seq::<char>::empty())
    } else if pre.len() == 0 {
        Some(p)
    } else if pre.len() < p.len() && p.take(pre.len() as int) == pre {
        if pre[pre.len() - 1] == '/' {
            Some(p.skip(pre.len() as int))
        } else if p[pre.len() as int] == '/' {
            Some(p.skip(pre.len() as int + 1))
        } else {
            None
        }
    } else {
        None
    }
}

/// Strips `prefix` from the front of `path`.  Returns `None` when `path`
/// does not lie under `prefix`.
pub fn strip_path_prefix(path: &str, prefix: &str) -> (r: Option<String>)
    ensures
        r matches Some(rest) ==> spec_strip_prefix(path@, prefix@) == Some(rest@),
        r is None ==> spec_strip_prefix(path@, prefix@) is None,
{
    let n: usize = path.unicode_len();
    let m: usize = prefix.unicode_len();
    if m > n {
        proof {
            assert(path@ != prefix@) by {
                assert(path@.len() != prefix@.len());
            }
        }
        return None;
    }
    let mut i: usize = 0;
    while i < m
        invariant
            0 <= i <= m <= n,
            n == path@.len(),
            m == prefix@.len(),
            forall|j: int| 0 <= j < i ==> path@[j] == prefix@[j],
        decreases m - i,
    {
        if path.get_char(i) != prefix.get_char(i) {
            proof {
                assert(path@ != prefix@) by {
                    assert(path@[i as int] != prefix@[i as int]);
                }
                if m < n && path@.take(m as int) == prefix@ {
                    assert(path@.take(m as int)[i as int] == path@[i as int]);
                }
            }
            return None;
        }
        i = i + 1;
    }
    proof {
        assert(path@.take(m as int) =~= prefix@);
    }
    if m == n {
        proof {
            assert(path@ =~= prefix@);
        }
        return Some(String::new());
    }
    proof {
        assert(path@ != prefix@) by {
            assert(path@.len() != prefix@.len());
        }
    }
    if m == 0 {
        return Some(path.to_owned());
    }
    let closing = prefix.get_char(m - 1);
    if closing == '/' {
        let rest = path.substring_char(m, n);
        proof {
            assert(rest@ =~= path@.skip(m as int));
        }
        return Some(rest.to_owned());
    }
    let sep = path.get_char(m);
    if sep == '/' {
        let rest = path.substring_char(m + 1, n);
        proof {
            assert(rest@ =~= path@.skip(m + 1));
        }
        return Some(rest.to_owned());
    }
    None
}

} // verus!
