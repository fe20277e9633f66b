//! Paths as character sequences, with the two path operations the
//! scaffolder needs: joining a component onto a base, and giving the last
//! component of a path the source-file extension.
use vstd::prelude::*;
use vstd::string::*;

verus! {

/// `base` joined with `name`, as a path join does on Unix: an absolute
/// `name` replaces the base; otherwise a separator is put between the two
/// unless the base is empty or already ends in one.
pub open spec fn joined(base: Seq<char>, name: Seq<char>) -> Seq<char> {
    if name.len() > 0 && name[0] == '/' {
        name
    } else if base.len() == 0 || base.last() == '/' {
        base + name
    } else {
        base + seq!['/'] + name
    }
}

/// Index of the last `.` of `p[..end]` that stands after the last `/` of
/// that prefix, or -1 when there is none.
pub open spec fn dot_before(p: Seq<char>, end: int) -> int
    decreases end,
{
    if end <= 0 {
        -1
    } else if p[end - 1] == '/' {
        -1
    } else if p[end - 1] == '.' {
        end - 1
    } else {
        dot_before(p, end - 1)
    }
}

/// The index `dot_before` finds lies inside the prefix, and holds a dot.
pub proof fn lemma_dot_before_range(p: Seq<char>, end: int)
    requires
        0 <= end <= p.len(),
    ensures
        -1 <= dot_before(p, end) < end,
        dot_before(p, end) >= 0 ==> p[dot_before(p, end)] == '.',
    decreases end,
{
    if end > 0 && p[end - 1] != '/' && p[end - 1] != '.' {
        lemma_dot_before_range(p, end - 1);
    }
}

/// Where the stem of the last component of `p` ends: at its last dot, unless
/// that dot opens the component (a hidden file's name) or there is none.
pub open spec fn stem_end(p: Seq<char>) -> int {
    let k = dot_before(p, p.len() as int);
    if k <= 0 || p[k - 1] == '/' {
        p.len() as int
    } else {
        k
    }
}

/// The source-file extension, with its dot.
pub open spec fn source_ext() -> Seq<char> {
    seq!['.', 'r', 's']
}

/// `p` whose last component has its extension replaced by (or extended
/// with) the source-file extension.
pub open spec fn with_source_ext(p: Seq<char>) -> Seq<char> {
    p.subrange(0, stem_end(p)) + source_ext()
}

/// Joins `name` onto `base` (see `joined`).
pub fn join_path(base: &str, name: &str) -> (r: String)
    ensures
        r@ == joined(base@, name@),
{
    let nlen = name.unicode_len();
    let blen = base.unicode_len();
    if nlen > 0 && name.get_char(0) == '/' {
        return String::from_str(name);
    }
    let mut r = String::from_str(base);
    if !(blen == 0 || base.get_char(blen - 1) == '/') {
        r.append("/");
        proof {
            reveal_strlit("/");
        }
    }
    r.append(name);
    r
}

/// Finds `dot_before(p, p.len())` by a backward scan.
fn last_stem_dot(p: &str) -> (r: Option<usize>)
    ensures
        r matches Some(k) ==> k == dot_before(p@, p@.len() as int),
        r is None ==> dot_before(p@, p@.len() as int) == -1,
{
    proof {
        lemma_dot_before_range(p@, p@.len() as int);
    }
    let n = p.unicode_len();
    let mut end: usize = n;
    while end > 0
        invariant
            end <= n,
            n == p@.len(),
            dot_before(p@, end as int) == dot_before(p@, n as int),
        decreases end,
    {
        let c = p.get_char(end - 1);
        if c == '/' {
            return None;
        }
        if c == '.' {
            return Some(end - 1);
        }
        end = end - 1;
    }
    None
}

/// `p` with its last component given the source-file extension, as
/// `with_source_ext` states.
pub fn with_source_extension(p: &str) -> (r: String)
    ensures
        r@ == with_source_ext(p@),
{
    proof {
        lemma_dot_before_range(p@, p@.len() as int);
    }
    let n = p.unicode_len();
    let mut e: usize = n;
    match last_stem_dot(p) {
        Some(k) => {
            if k > 0 && p.get_char(k - 1) != '/' {
                e = k;
            }
        },
        None => {},
    }
    let mut r = String::from_str(p.substring_char(0, e));
    r.append(".rs");
    proof {
        reveal_strlit(".rs");
    }
    r
}

} // verus!
