use vstd::prelude::*;
use crate::text::str_eq;

verus! {

// Paths are texts whose segments are parted by `/`. A segment that is empty
// or a single dot names nothing and is passed over; `..` is a segment like
// any other, but no file name.

/// Where the last segment that names something ends, among the first `n`
/// characters of `p`; 0 where there is none.
pub open spec fn body_end(p: Seq<char>, n: int) -> int
    decreases n,
{
    if n <= 0 {
        0
    } else if p[n - 1] == '/' {
        body_end(p, n - 1)
    } else if p[n - 1] == '.' && (n == 1 || p[n - 2] == '/') {
        body_end(p, n - 1)
    } else {
        n
    }
}

/// Where the segment that ends at `n` begins.
pub open spec fn segment_start(p: Seq<char>, n: int) -> int
    decreases n,
{
    if n <= 0 {
        0
    } else if p[n - 1] == '/' {
        n
    } else {
        segment_start(p, n - 1)
    }
}

/// Whether the path starts at the root.
pub open spec fn has_root(p: Seq<char>) -> bool {
    p.len() > 0 && p[0] == '/'
}

/// Whether the path's first segment is a single dot.
pub open spec fn has_leading_dot(p: Seq<char>) -> bool {
    p.len() > 0 && p[0] == '.' && (p.len() == 1 || p[1] == '/')
}

/// The length of what stands before the segments: the root or a leading dot.
pub open spec fn head_len(p: Seq<char>) -> int {
    if has_root(p) || has_leading_dot(p) {
        1
    } else {
        0
    }
}

/// The final segment of a path: the last segment that names something, unless
/// it is `..`.
pub open spec fn final_segment_of(p: Seq<char>) -> Option<Seq<char>> {
    let j = body_end(p, p.len() as int);
    let segment = p.subrange(segment_start(p, j), j);
    if j == 0 || segment == ".."@ {
        None
    } else {
        Some(segment)
    }
}

/// The directory above a path: the path up to the end of the segment before
/// its last one, or its head where there is no such segment. The root and the
/// empty path have none.
pub open spec fn parent_of(p: Seq<char>) -> Option<Seq<char>> {
    let j = body_end(p, p.len() as int);
    if j == 0 {
        if has_leading_dot(p) {
            Some(Seq::<char>::empty())
        } else {
            None
        }
    } else {
        let k = body_end(p, segment_start(p, j));
        Some(
            p.take(
                if k > 0 {
                    k
                } else {
                    head_len(p)
                },
            ),
        )
    }
}

/// `rest` below `base`: `rest` alone where it starts at the root, else the two
/// with one `/` between them unless `base` is empty or ends in one.
pub open spec fn joined(base: Seq<char>, rest: Seq<char>) -> Seq<char> {
    if has_root(rest) {
        rest
    } else if base.len() == 0 || base.last() == '/' {
        base + rest
    } else {
        base + "/"@ + rest
    }
}

/// The directory above `path`, or `path` itself where it has none.
pub open spec fn prefix_of(path: Seq<char>) -> Seq<char> {
    match parent_of(path) {
        Some(p) => p,
        None => path,
    }
}

/// Both scans stay inside the part they are given.
pub proof fn lemma_scan_bounds(p: Seq<char>, n: int)
    requires
        0 <= n,
    ensures
        0 <= body_end(p, n) <= n,
        0 <= segment_start(p, n) <= n,
    decreases n,
{
    if n > 0 {
        lemma_scan_bounds(p, n - 1);
    }
}

/// A final segment is never empty and holds no `/`.
pub proof fn lemma_final_segment(p: Seq<char>)
    ensures
        match final_segment_of(p) {
            Some(s) => s.len() > 0 && forall|i: int| 0 <= i < s.len() ==> s[i] != '/',
            None => true,
        },
{
    let j = body_end(p, p.len() as int);
    lemma_scan_bounds(p, p.len() as int);
    lemma_body_end_char(p, p.len() as int);
    lemma_segment_chars(p, j);
}

/// A segment that names a file or a directory: not empty, without `/`, and
/// neither `.` nor `..`.
pub open spec fn is_plain_segment(segment: Seq<char>) -> bool {
    &&& segment.len() > 0
    &&& forall|i: int| 0 <= i < segment.len() ==> segment[i] != '/'
    &&& segment != "."@
    &&& segment != ".."@
}

/// Below a directory whose text ends in a segment that names something, a
/// plain segment is joined with one `/`; the result has that segment as its
/// final one and the directory as its parent.
pub proof fn lemma_segment_below(dir: Seq<char>, segment: Seq<char>)
    requires
        is_plain_segment(segment),
        dir.len() > 0,
        body_end(dir, dir.len() as int) == dir.len(),
    ensures
        joined(dir, segment) == dir + "/"@ + segment,
        final_segment_of(joined(dir, segment)) == Some(segment),
        parent_of(joined(dir, segment)) == Some(dir),
        prefix_of(joined(dir, segment)) == dir,
{
    reveal_strlit("/");
    reveal_strlit(".");
    reveal_strlit("..");
    let p = dir + "/"@ + segment;
    let n = p.len() as int;
    let d = dir.len() as int;
    lemma_scan_bounds(dir, d - 1);
    assert(dir.last() != '/');
    assert(segment[0] != '/');
    assert(joined(dir, segment) == p);
    assert(n == d + 1 + segment.len());
    assert(p[d] == '/');
    assert forall|i: int| d + 1 <= i < n implies p[i] != '/' by {
        assert(p[i] == segment[i - d - 1]);
    }
    assert forall|i: int| 0 <= i < d implies p[i] == dir[i] by {}
    assert(p[n - 1] == segment.last());
    if p[n - 1] == '.' {
        if segment.len() == 1 {
            assert(segment =~= "."@);
        }
        assert(p[n - 2] == segment[segment.len() - 2]);
    }
    assert(body_end(p, n) == n);
    lemma_segment_run(p, d + 1, n);
    assert(p.subrange(d + 1, n) =~= segment);
    assert(final_segment_of(p) == Some(segment));
    lemma_body_end_agrees(p, dir, d);
    assert(body_end(p, d + 1) == body_end(p, d));
    assert(p.take(d) =~= dir);
}

proof fn lemma_body_end_agrees(p: Seq<char>, q: Seq<char>, n: int)
    requires
        0 <= n <= p.len(),
        n <= q.len(),
        forall|i: int| 0 <= i < n ==> p[i] == q[i],
    ensures
        body_end(p, n) == body_end(q, n),
    decreases n,
{
    if n > 0 {
        lemma_body_end_agrees(p, q, n - 1);
    }
}

proof fn lemma_segment_run(p: Seq<char>, i: int, n: int)
    requires
        0 <= i <= n <= p.len(),
        forall|j: int| i <= j < n ==> p[j] != '/',
        i == 0 || p[i - 1] == '/',
    ensures
        segment_start(p, n) == i,
    decreases n - i,
{
    if n > i {
        lemma_segment_run(p, i, n - 1);
    }
}

proof fn lemma_body_end_char(p: Seq<char>, n: int)
    requires
        0 <= n,
    ensures
        body_end(p, n) > 0 ==> p[body_end(p, n) - 1] != '/',
    decreases n,
{
    if n > 0 {
        lemma_body_end_char(p, n - 1);
    }
}

proof fn lemma_segment_chars(p: Seq<char>, n: int)
    requires
        0 <= n,
    ensures
        0 <= segment_start(p, n) <= n,
        forall|i: int| segment_start(p, n) <= i < n ==> p[i] != '/',
        n > 0 && p[n - 1] != '/' ==> segment_start(p, n) < n,
    decreases n,
{
    if n > 0 && p[n - 1] != '/' {
        lemma_segment_chars(p, n - 1);
    }
}

fn scan_body_end(p: &str, n: usize) -> (r: usize)
    requires
        n <= p@.len(),
    ensures
        r == body_end(p@, n as int),
        r <= n,
{
    let mut k: usize = n;
    while k > 0
        invariant
            k <= n,
            n <= p@.len(),
            body_end(p@, n as int) == body_end(p@, k as int),
        decreases k,
    {
        let c: char = p.get_char(k - 1);
        if c == '/' {
            k = k - 1;
        } else if c == '.' && (k == 1 || p.get_char(k - 2) == '/') {
            k = k - 1;
        } else {
            return k;
        }
    }
    k
}

fn scan_segment_start(p: &str, n: usize) -> (r: usize)
    requires
        n <= p@.len(),
    ensures
        r == segment_start(p@, n as int),
        r <= n,
{
    let mut k: usize = n;
    while k > 0 && p.get_char(k - 1) != '/'
        invariant
            k <= n,
            n <= p@.len(),
            segment_start(p@, n as int) == segment_start(p@, k as int),
        decreases k,
    {
        k = k - 1;
    }
    k
}

fn scan_head_len(p: &str) -> (r: usize)
    ensures
        r == head_len(p@),
        r <= p@.len(),
{
    let n: usize = p.unicode_len();
    if n == 0 {
        return 0;
    }
    let c: char = p.get_char(0);
    if c == '/' {
        1
    } else if c == '.' && (n == 1 || p.get_char(1) == '/') {
        1
    } else {
        0
    }
}

/// The final segment of `path`.
pub fn final_segment(path: &str) -> (r: Option<&str>)
    ensures
        match r {
            Some(s) => final_segment_of(path@) == Some(s@),
            None => final_segment_of(path@) is None,
        },
{
    let n: usize = path.unicode_len();
    let j: usize = scan_body_end(path, n);
    if j == 0 {
        return None;
    }
    let i: usize = scan_segment_start(path, j);
    let segment: &str = path.substring_char(i, j);
    if str_eq(segment, "..") {
        None
    } else {
        Some(segment)
    }
}

/// The directory above `path`.
pub fn parent(path: &str) -> (r: Option<&str>)
    ensures
        match r {
            Some(p) => parent_of(path@) == Some(p@),
            None => parent_of(path@) is None,
        },
{
    let n: usize = path.unicode_len();
    let j: usize = scan_body_end(path, n);
    let head: usize = scan_head_len(path);
    if j == 0 {
        if head == 1 && path.get_char(0) == '.' {
            let nothing: &str = path.substring_char(0, 0);
            proof {
                assert(nothing@ =~= Seq::<char>::empty());
            }
            Some(nothing)
        } else {
            None
        }
    } else {
        let i: usize = scan_segment_start(path, j);
        let k: usize = scan_body_end(path, i);
        let cut: usize = if k > 0 {
            k
        } else {
            head
        };
        Some(path.substring_char(0, cut))
    }
}

/// The directory above `path`, or `path` itself where it has none.
pub fn prefix(path: &str) -> (r: &str)
    ensures
        r@ == prefix_of(path@),
{
    match parent(path) {
        Some(p) => p,
        None => path,
    }
}

/// `rest` below `base`.
pub fn join(base: &str, rest: &str) -> (r: String)
    ensures
        r@ == joined(base@, rest@),
{
    let m: usize = rest.unicode_len();
    if m > 0 && rest.get_char(0) == '/' {
        return String::from_str(rest);
    }
    let n: usize = base.unicode_len();
    let mut out: String = String::from_str(base);
    if n > 0 && base.get_char(n - 1) != '/' {
        out.append("/");
    }
    out.append(rest);
    out
}

} // verus!
