//! Path algebra: purely structural operations on `/`-separated paths.
//!
//! A path string is modeled as a root flag (does it start with `/`?) plus the
//! sequence of its non-empty, non-`.` segments. All operations are on that
//! model; none touches a filesystem.

use crate::{str_eq, views_of};
use vstd::prelude::*;

verus! {

// ---------------------------------------------------------------------------
// The model: parsing a path string into segments, and rendering it back.
// ---------------------------------------------------------------------------

/// A path is root-absolute when it starts with the root separator.
pub open spec fn path_is_absolute(s: Seq<char>) -> bool {
    s.len() > 0 && s[0] == '/'
}

/// Index of the first occurrence of `c` in `s`, or `s.len()` if absent.
pub open spec fn find_char(s: Seq<char>, c: char) -> nat
    decreases s.len(),
{
    if s.len() == 0 {
        0
    } else if s[0] == c {
        0
    } else {
        (1 + find_char(s.skip(1), c)) as nat
    }
}

pub proof fn lemma_find_char(s: Seq<char>, c: char)
    ensures
        find_char(s, c) <= s.len(),
        find_char(s, c) < s.len() ==> s[find_char(s, c) as int] == c,
        forall|j: int| 0 <= j < find_char(s, c) ==> s[j] != c,
    decreases s.len(),
{
    if s.len() > 0 && s[0] != c {
        lemma_find_char(s.skip(1), c);
        assert forall|j: int| 0 <= j < find_char(s, c) implies s[j] != c by {
            if j > 0 {
                assert(s.skip(1)[j - 1] == s[j]);
            }
        }
        if find_char(s, c) < s.len() {
            assert(s.skip(1)[find_char(s, c) - 1] == s[find_char(s, c) as int]);
        }
    }
}

/// `find_char` is the unique index with the "first occurrence" property.
pub proof fn lemma_find_char_is(s: Seq<char>, c: char, k: int)
    requires
        0 <= k <= s.len(),
        k < s.len() ==> s[k] == c,
        forall|j: int| 0 <= j < k ==> s[j] != c,
    ensures
        find_char(s, c) == k,
{
    lemma_find_char(s, c);
    let f = find_char(s, c) as int;
    if f < k {
        assert(s[f] != c);
    }
    if k < f {
        assert(s[k] != c);
    }
}

/// Does a parsed segment survive? Empty pieces and `.` pieces are dropped.
pub open spec fn keep_seg(p: Seq<char>) -> bool {
    p.len() > 0 && p != "."@
}

/// The segments of a path string: the `/`-separated pieces, with empty and
/// `.` pieces dropped.
pub open spec fn parse_segments(s: Seq<char>) -> Seq<Seq<char>>
    decreases s.len(),
{
    let i = find_char(s, '/');
    let piece = s.take(i as int);
    let head: Seq<Seq<char>> = if keep_seg(piece) {
        seq![piece]
    } else {
        Seq::empty()
    };
    if i >= s.len() {
        head
    } else {
        head + parse_segments(s.skip(i as int + 1))
    }
}

/// Segments joined with `/`, without a leading separator.
pub open spec fn join_from(segs: Seq<Seq<char>>, i: int) -> Seq<char>
    decreases segs.len() - i,
{
    if i < 0 || i >= segs.len() {
        Seq::empty()
    } else if i == segs.len() - 1 {
        segs[i]
    } else {
        segs[i] + "/"@ + join_from(segs, i + 1)
    }
}

pub open spec fn join_segs(segs: Seq<Seq<char>>) -> Seq<char> {
    join_from(segs, 0)
}

/// A path rendered back into a string.
pub open spec fn render_path(abs: bool, segs: Seq<Seq<char>>) -> Seq<char> {
    if abs {
        "/"@ + join_segs(segs)
    } else {
        join_segs(segs)
    }
}

// ---------------------------------------------------------------------------
// Normalization: resolve `..` structurally; at the front it is a no-op.
// ---------------------------------------------------------------------------

pub open spec fn norm_push(acc: Seq<Seq<char>>, seg: Seq<char>) -> Seq<Seq<char>> {
    if seg == ".."@ {
        if acc.len() > 0 {
            acc.drop_last()
        } else {
            acc
        }
    } else {
        acc.push(seg)
    }
}

pub open spec fn norm_from(segs: Seq<Seq<char>>, i: int, acc: Seq<Seq<char>>) -> Seq<Seq<char>>
    decreases segs.len() - i,
{
    if i < 0 || i >= segs.len() {
        acc
    } else {
        norm_from(segs, i + 1, norm_push(acc, segs[i]))
    }
}

pub open spec fn norm_segs(segs: Seq<Seq<char>>) -> Seq<Seq<char>> {
    norm_from(segs, 0, Seq::empty())
}

// ---------------------------------------------------------------------------
// Diffing: the path that, appended to `base`, reaches `target`.
// ---------------------------------------------------------------------------

pub open spec fn repeat_dotdot(n: nat) -> Seq<Seq<char>> {
    Seq::new(n, |i: int| ".."@)
}

/// Walk both segment lists: equal fronts are dropped; at the first
/// divergence, one `..` per remaining base segment is emitted, then the
/// remaining target segments verbatim. A `..` in the base at the divergence
/// point makes the paths incomparable.
pub open spec fn diff_segs(ta: Seq<Seq<char>>, tb: Seq<Seq<char>>) -> Option<Seq<Seq<char>>>
    decreases ta.len() + tb.len(),
{
    if ta.len() == 0 && tb.len() == 0 {
        Some(Seq::empty())
    } else if tb.len() == 0 {
        Some(ta)
    } else if ta.len() == 0 {
        Some(repeat_dotdot(tb.len()))
    } else if ta[0] == tb[0] {
        diff_segs(ta.skip(1), tb.skip(1))
    } else if tb[0] == ".."@ {
        None
    } else {
        Some(repeat_dotdot(tb.len()) + ta)
    }
}

/// The string-level diff. Mixed absolute/relative inputs are incomparable,
/// except that an absolute target is surfaced as-is under a relative base.
pub open spec fn spec_diff_paths(p: Seq<char>, b: Seq<char>) -> Option<Seq<char>> {
    if path_is_absolute(p) != path_is_absolute(b) {
        if path_is_absolute(p) {
            Some(p)
        } else {
            None
        }
    } else {
        match diff_segs(parse_segments(p), parse_segments(b)) {
            Some(segs) => Some(render_path(false, segs)),
            None => None,
        }
    }
}

// ---------------------------------------------------------------------------
// Executable path algebra.
// ---------------------------------------------------------------------------

/// First index of `c` in `s`, or the length of `s` if `c` does not occur.
pub fn find_char_in(s: &str, c: char) -> (i: usize)
    ensures
        i == find_char(s@, c),
{
    let n = s.unicode_len();
    let mut i: usize = 0;
    while i < n
        invariant
            i <= n,
            n == s@.len(),
            forall|j: int| 0 <= j < i ==> s@[j] != c,
        decreases n - i,
    {
        if s.get_char(i) == c {
            proof {
                lemma_find_char_is(s@, c, i as int);
            }
            return i;
        }
        i += 1;
    }
    proof {
        lemma_find_char_is(s@, c, n as int);
    }
    n
}

pub fn path_is_abs(s: &str) -> (r: bool)
    ensures
        r == path_is_absolute(s@),
{
    s.unicode_len() > 0 && s.get_char(0) == '/'
}

/// Split a path string into its segments.
pub fn split_path(s: &str) -> (v: Vec<String>)
    ensures
        views_of(v@) == parse_segments(s@),
    decreases s@.len(),
{
    let n = s.unicode_len();
    let i = find_char_in(s, '/');
    proof {
        lemma_find_char(s@, '/');
    }
    let piece = s.substring_char(0, i);
    let keep = piece.unicode_len() > 0 && !str_eq(piece, ".");
    let mut v: Vec<String> = Vec::new();
    if keep {
        v.push(piece.to_owned());
    }
    if i == n {
        proof {
            if keep_seg(s@.take(i as int)) {
                assert(views_of(v@) =~= seq![s@.take(i as int)]);
            } else {
                assert(views_of(v@) =~= Seq::<Seq<char>>::empty());
            }
        }
        v
    } else {
        let tail = s.substring_char(i + 1, n);
        let mut rest = split_path(tail);
        proof {
            if keep_seg(s@.take(i as int)) {
                assert(views_of(v@) =~= seq![s@.take(i as int)]);
            } else {
                assert(views_of(v@) =~= Seq::<Seq<char>>::empty());
            }
        }
        let ghost head = views_of(v@);
        v.append(&mut rest);
        proof {
            assert(views_of(v@) =~= head + parse_segments(s@.skip(i as int + 1)));
        }
        v
    }
}

/// Join segments back into a path string, starting at index `i`.
pub fn join_path_from(segs: &Vec<String>, i: usize) -> (r: String)
    requires
        i <= segs@.len(),
    ensures
        r@ == join_from(views_of(segs@), i as int),
    decreases segs@.len() - i,
{
    if i >= segs.len() {
        String::new()
    } else if i == segs.len() - 1 {
        segs[i].clone()
    } else {
        let mut r = segs[i].clone();
        r.append("/");
        let rest = join_path_from(segs, i + 1);
        r.append(rest.as_str());
        r
    }
}

/// Render a path from its root flag and segments.
pub fn join_path(abs: bool, segs: &Vec<String>) -> (r: String)
    ensures
        r@ == render_path(abs, views_of(segs@)),
{
    let tail = join_path_from(segs, 0);
    if abs {
        let mut r = String::from_str("/");
        r.append(tail.as_str());
        r
    } else {
        tail
    }
}

/// Resolve `..` segments structurally; a `..` with nothing before it is
/// dropped.
pub fn normalize_segs(segs: &Vec<String>) -> (r: Vec<String>)
    ensures
        views_of(r@) == norm_segs(views_of(segs@)),
{
    let ghost all = views_of(segs@);
    let mut acc: Vec<String> = Vec::new();
    let mut i: usize = 0;
    proof {
        assert(views_of(acc@) =~= Seq::<Seq<char>>::empty());
    }
    while i < segs.len()
        invariant
            i <= segs@.len(),
            all == views_of(segs@),
            norm_from(all, 0, Seq::empty()) == norm_from(all, i as int, views_of(acc@)),
        decreases segs@.len() - i,
    {
        let ghost acc0 = views_of(acc@);
        let ghost accv0 = acc@;
        if str_eq(segs[i].as_str(), "..") {
            if acc.len() > 0 {
                acc.pop();
                proof {
                    crate::lemma_views_of_drop_last(accv0);
                    assert(acc@ =~= accv0.drop_last());
                }
            }
        } else {
            acc.push(segs[i].clone());
            proof {
                crate::lemma_views_of_push(acc@.drop_last(), acc@.last());
                assert(acc@.drop_last().push(acc@.last()) =~= acc@);
            }
        }
        proof {
            assert(views_of(acc@) =~= norm_push(acc0, all[i as int]));
        }
        i += 1;
    }
    acc
}

/// Normalize a path string: resolve `.` and `..` without filesystem access.
pub fn normalize_path(p: &str) -> (r: String)
    ensures
        r@ == render_path(path_is_absolute(p@), norm_segs(parse_segments(p@))),
{
    let abs = path_is_abs(p);
    let segs = split_path(p);
    let normd = normalize_segs(&segs);
    join_path(abs, &normd)
}

/// Convert a root-absolute reference path to a spec-root-relative one by
/// stripping the single leading separator; a path that does not start with
/// the separator is treated as already relative and returned unchanged.
pub fn to_relative(p: &str) -> (r: String)
    ensures
        path_is_absolute(p@) ==> r@ == p@.skip(1),
        !path_is_absolute(p@) ==> r@ == p@,
{
    let n = p.unicode_len();
    if n > 0 && p.get_char(0) == '/' {
        let tail = p.substring_char(1, n);
        tail.to_owned()
    } else {
        p.to_owned()
    }
}

/// Prefix a relative path with an explicit current-directory marker, so a
/// module loader does not read it as a bare package name. Root-absolute
/// input is excluded: explicit-prefix module paths are never root-absolute.
pub fn add_dot(p: &str) -> (r: String)
    requires
        !path_is_absolute(p@),
    ensures
        r@ == "./"@ + p@,
{
    let mut r = String::from_str("./");
    r.append(p);
    r
}

fn push_dotdots(out: &mut Vec<String>, n: usize)
    ensures
        views_of(final(out)@) == views_of(old(out)@) + repeat_dotdot(n as nat),
{
    let mut k: usize = 0;
    while k < n
        invariant
            k <= n,
            views_of(out@) =~= views_of(old(out)@) + repeat_dotdot(k as nat),
        decreases n - k,
    {
        let ghost pre = out@;
        let seg = String::from_str("..");
        let ghost x = seg;
        out.push(seg);
        proof {
            crate::lemma_views_of_push(pre, x);
            assert(views_of(out@) =~= views_of(old(out)@) + repeat_dotdot((k + 1) as nat));
        }
        k += 1;
    }
}

pub fn diff_segs_exec(a: &Vec<String>, b: &Vec<String>, i: usize, j: usize) -> (r: Option<Vec<String>>)
    requires
        i <= a@.len(),
        j <= b@.len(),
    ensures
        match r {
            Some(v) => diff_segs(views_of(a@).skip(i as int), views_of(b@).skip(j as int))
                == Some(views_of(v@)),
            None => diff_segs(views_of(a@).skip(i as int), views_of(b@).skip(j as int)) is None,
        },
    decreases a@.len() - i + b@.len() - j,
{
    let ghost ta = views_of(a@).skip(i as int);
    let ghost tb = views_of(b@).skip(j as int);
    if i == a.len() && j == b.len() {
        proof {
            assert(views_of(Seq::<String>::empty()) =~= Seq::<Seq<char>>::empty());
        }
        let v: Vec<String> = Vec::new();
        proof {
            assert(views_of(v@) =~= Seq::<Seq<char>>::empty());
        }
        Some(v)
    } else if j == b.len() {
        let mut v: Vec<String> = Vec::new();
        let mut k = i;
        while k < a.len()
            invariant
                i <= k <= a@.len(),
                views_of(v@) =~= views_of(a@).subrange(i as int, k as int),
            decreases a@.len() - k,
        {
            let ghost pre = v@;
            let seg = a[k].clone();
            let ghost x = seg;
            v.push(seg);
            proof {
                crate::lemma_views_of_push(pre, x);
                assert(views_of(v@) =~= views_of(a@).subrange(i as int, k + 1 as int));
            }
            k += 1;
        }
        proof {
            assert(views_of(v@) =~= ta);
        }
        Some(v)
    } else if i == a.len() {
        let mut v: Vec<String> = Vec::new();
        push_dotdots(&mut v, b.len() - j);
        proof {
            assert(views_of(v@) =~= repeat_dotdot(tb.len()));
        }
        Some(v)
    } else if a[i] == b[j] {
        let r = diff_segs_exec(a, b, i + 1, j + 1);
        proof {
            assert(views_of(a@).skip(i as int + 1) =~= ta.skip(1));
            assert(views_of(b@).skip(j as int + 1) =~= tb.skip(1));
        }
        r
    } else if str_eq(b[j].as_str(), "..") {
        None
    } else {
        let mut v: Vec<String> = Vec::new();
        push_dotdots(&mut v, b.len() - j);
        let ghost dots = views_of(v@);
        let mut k = i;
        while k < a.len()
            invariant
                i <= k <= a@.len(),
                views_of(v@) =~= dots + views_of(a@).subrange(i as int, k as int),
            decreases a@.len() - k,
        {
            let ghost pre = v@;
            let seg = a[k].clone();
            let ghost x = seg;
            v.push(seg);
            proof {
                crate::lemma_views_of_push(pre, x);
                assert(views_of(v@) =~= dots + views_of(a@).subrange(i as int, k + 1 as int));
            }
            k += 1;
        }
        proof {
            assert(dots =~= repeat_dotdot(tb.len()));
            assert(views_of(a@).subrange(i as int, a@.len() as int) =~= ta);
            assert(views_of(v@) =~= repeat_dotdot(tb.len()) + ta);
        }
        Some(v)
    }
}

/// Index of the last occurrence of `c` in `s`, or `-1` if absent.
pub open spec fn rfind_char(s: Seq<char>, c: char) -> int
    decreases s.len(),
{
    if s.len() == 0 {
        -1
    } else {
        let r = rfind_char(s.skip(1), c);
        if r >= 0 {
            1 + r
        } else if s[0] == c {
            0
        } else {
            -1
        }
    }
}

pub proof fn lemma_rfind_char(s: Seq<char>, c: char)
    ensures
        -1 <= rfind_char(s, c) < s.len(),
        rfind_char(s, c) >= 0 ==> s[rfind_char(s, c)] == c,
        forall|j: int| rfind_char(s, c) < j < s.len() ==> s[j] != c,
    decreases s.len(),
{
    if s.len() > 0 {
        lemma_rfind_char(s.skip(1), c);
        let r = rfind_char(s.skip(1), c);
        assert forall|j: int| rfind_char(s, c) < j < s.len() implies s[j] != c by {
            if j > 0 {
                assert(s.skip(1)[j - 1] == s[j]);
            }
        }
        if r >= 0 {
            assert(s.skip(1)[r] == s[r + 1]);
        }
    }
}

/// `rfind_char` is the unique index with the "last occurrence" property.
pub proof fn lemma_rfind_char_is(s: Seq<char>, c: char, k: int)
    requires
        -1 <= k < s.len(),
        k >= 0 ==> s[k] == c,
        forall|j: int| k < j < s.len() ==> s[j] != c,
    ensures
        rfind_char(s, c) == k,
{
    lemma_rfind_char(s, c);
    let f = rfind_char(s, c);
    if f < k {
        assert(s[k] != c);
    }
    if k < f {
        assert(s[f] != c);
    }
}

/// The file stem of one path segment: the part before the final `.`, except
/// that a name without a `.`, or with only a leading one, is its own stem.
pub open spec fn stem_of(name: Seq<char>) -> Seq<char> {
    let r = rfind_char(name, '.');
    if r <= 0 {
        name
    } else {
        name.take(r)
    }
}

/// The file stem of one path segment.
pub fn file_stem(name: &str) -> (r: String)
    ensures
        r@ == stem_of(name@),
{
    let n = name.unicode_len();
    let mut i: usize = 0;
    let mut found = false;
    let mut best: usize = 0;
    while i < n
        invariant
            i <= n,
            n == name@.len(),
            found ==> best < i && name@[best as int] == '.',
            forall|j: int| 0 <= j < i && name@[j] == '.' ==> found && j <= best,
        decreases n - i,
    {
        if name.get_char(i) == '.' {
            found = true;
            best = i;
        }
        i += 1;
    }
    proof {
        if found {
            lemma_rfind_char_is(name@, '.', best as int);
        } else {
            lemma_rfind_char_is(name@, '.', -1);
        }
    }
    if !found || best == 0 {
        name.to_owned()
    } else {
        let head = name.substring_char(0, best);
        head.to_owned()
    }
}

/// All but the last of a list of segments; empty stays empty.
pub open spec fn seg_parent(s: Seq<Seq<char>>) -> Seq<Seq<char>> {
    if s.len() > 0 {
        s.drop_last()
    } else {
        s
    }
}

/// The directory segments of a file path: its segments with the file name
/// dropped.
pub open spec fn dir_segs(s: Seq<char>) -> Seq<Seq<char>> {
    seg_parent(parse_segments(s))
}

/// The directory segments of a file path.
pub fn dir_segs_exec(s: &str) -> (v: Vec<String>)
    ensures
        views_of(v@) == dir_segs(s@),
{
    let mut v = split_path(s);
    if v.len() > 0 {
        let ghost pre = v@;
        v.pop();
        proof {
            assert(v@ =~= pre.drop_last());
            crate::lemma_views_of_drop_last(pre);
        }
    }
    v
}

/// The last segment of a path, or the path itself when it has no segments.
pub open spec fn spec_last_seg(s: Seq<char>) -> Seq<char> {
    let segs = parse_segments(s);
    if segs.len() > 0 {
        segs.last()
    } else {
        s
    }
}

/// The last segment of a path; a path without segments is handed back whole.
pub fn path_last_seg(s: &str) -> (r: String)
    ensures
        r@ == spec_last_seg(s@),
{
    let segs = split_path(s);
    if segs.len() > 0 {
        segs[segs.len() - 1].clone()
    } else {
        s.to_owned()
    }
}

/// Compute the path that, appended to `base`, reaches `path`.
pub fn diff_paths(path: &str, base: &str) -> (r: Option<String>)
    ensures
        match r {
            Some(s) => spec_diff_paths(path@, base@) == Some(s@),
            None => spec_diff_paths(path@, base@) is None,
        },
{
    let pa = path_is_abs(path);
    let ba = path_is_abs(base);
    if pa != ba {
        if pa {
            Some(path.to_owned())
        } else {
            None
        }
    } else {
        let sa = split_path(path);
        let sb = split_path(base);
        proof {
            assert(views_of(sa@).skip(0) =~= views_of(sa@));
            assert(views_of(sb@).skip(0) =~= views_of(sb@));
        }
        match diff_segs_exec(&sa, &sb, 0, 0) {
            Some(v) => Some(join_path(false, &v)),
            None => None,
        }
    }
}

} // verus!
