//! The parts of a path that the tool reads: the extension of its file name,
//! and the temporary sibling that the prepend writes before the swap.
use vstd::prelude::*;

verus! {

/// The extension that marks the temporary sibling of a target.
pub open spec fn marker() -> Seq<char> {
    "tmp_prepend"@
}

/// The index of the dot that starts the extension of the file name in `p`,
/// or -1 when the file name has none. The file name is what follows the
/// last `/`; its extension follows its last dot, unless that dot is the
/// name's first character (as in `.bashrc`).
pub open spec fn ext_dot(p: Seq<char>) -> int
    decreases p.len(),
{
    if p.len() == 0 || p.last() == '/' {
        -1
    } else if p.last() == '.' && p.len() >= 2 && p[p.len() - 2] != '/' {
        p.len() - 1
    } else {
        ext_dot(p.drop_last())
    }
}

/// The extension of the file name in `p`, without its dot.
pub open spec fn extension_spec(p: Seq<char>) -> Option<Seq<char>> {
    if ext_dot(p) < 0 {
        None
    } else {
        Some(p.subrange(ext_dot(p) + 1, p.len() as int))
    }
}

/// The temporary sibling of `p`: its extension replaced by the marker, or
/// the marker added when it has no extension or has the marker already.
pub open spec fn temp_path_of(p: Seq<char>) -> Seq<char> {
    match extension_spec(p) {
        Some(e) => if e == marker() {
            p + "."@ + marker()
        } else {
            p.subrange(0, ext_dot(p)) + "."@ + marker()
        },
        None => p + "."@ + marker(),
    }
}

proof fn lemma_ext_dot_bounds(p: Seq<char>)
    ensures
        -1 <= ext_dot(p) < p.len(),
        ext_dot(p) >= 0 ==> p[ext_dot(p)] == '.',
    decreases p.len(),
{
    if p.len() > 0 && p.last() != '/' && !(p.last() == '.' && p.len() >= 2 && p[p.len() - 2]
        != '/') {
        lemma_ext_dot_bounds(p.drop_last());
    }
}

/// The temporary sibling is never the target itself, so creating it never
/// truncates the target; it differs from the target only after the
/// target's last `/`, so both stand in one directory.
pub proof fn lemma_temp_path_distinct(p: Seq<char>)
    ensures
        temp_path_of(p) != p,
        ({
            let d = if ext_dot(p) >= 0 { ext_dot(p) } else { p.len() as int };
            &&& temp_path_of(p).subrange(0, d) == p.subrange(0, d)
            &&& forall|i: int|
                d <= i < temp_path_of(p).len() ==> #[trigger] temp_path_of(p)[i] != '/'
        }),
{
    lemma_ext_dot_bounds(p);
    reveal_strlit("tmp_prepend");
    reveal_strlit(".");
    let t = temp_path_of(p);
    let m = "."@ + marker();
    if ext_dot(p) >= 0 {
        let d = ext_dot(p);
        let e = p.subrange(d + 1, p.len() as int);
        if e == marker() {
            assert(t.len() > p.len());
            assert(t.subrange(0, d) =~= p.subrange(0, d));
            assert forall|i: int| d <= i < t.len() implies #[trigger] t[i] != '/' by {
                if i < p.len() {
                    if i > d {
                        assert(p[i] == e[i - d - 1]);
                    }
                } else {
                    assert(t[i] == m[i - p.len()]);
                }
            }
        } else {
            assert(t =~= p.subrange(0, d) + m);
            assert(t.subrange(0, d) =~= p.subrange(0, d));
            if t == p {
                assert(e =~= t.subrange(d + 1, t.len() as int));
                assert(t.subrange(d + 1, t.len() as int) =~= marker());
            }
            assert forall|i: int| d <= i < t.len() implies #[trigger] t[i] != '/' by {
                assert(t[i] == m[i - d]);
            }
        }
    } else {
        assert(t.len() > p.len());
        assert(t.subrange(0, p.len() as int) =~= p.subrange(0, p.len() as int));
        assert forall|i: int| p.len() <= i < t.len() implies #[trigger] t[i] != '/' by {
            assert(t[i] == m[i - p.len()]);
        }
    }
}

/// The index of the dot that starts the extension of `p`'s file name, if
/// it has one.
pub fn extension_dot(p: &str) -> (r: Option<usize>)
    ensures
        r is None <==> ext_dot(p@) < 0,
        r matches Some(d) ==> d == ext_dot(p@),
{
    let n = p.unicode_len();
    let mut i: usize = n;
    assert(p@.subrange(0, n as int) =~= p@);
    while i > 0
        invariant
            i <= n == p@.len(),
            ext_dot(p@) == ext_dot(p@.subrange(0, i as int)),
        decreases i,
    {
        let q = Ghost(p@.subrange(0, i as int));
        let c = p.get_char(i - 1);
        if c == '/' {
            return None;
        }
        if c == '.' && i >= 2 && p.get_char(i - 2) != '/' {
            return Some(i - 1);
        }
        assert(q@.drop_last() =~= p@.subrange(0, i - 1));
        i = i - 1;
    }
    None
}

/// The extension of `p`'s file name, without its dot.
pub fn extension(p: &str) -> (r: Option<&str>)
    ensures
        r is None <==> extension_spec(p@) is None,
        r matches Some(e) ==> extension_spec(p@) == Some(e@),
{
    match extension_dot(p) {
        Some(d) => {
            proof { lemma_ext_dot_bounds(p@); }
            let n = p.unicode_len();
            Some(p.substring_char(d + 1, n))
        },
        None => None,
    }
}

/// Whether `a` and `b` hold the same characters.
pub fn same_text(a: &str, b: &str) -> (r: bool)
    ensures
        r == (a@ == b@),
{
    let n = a.unicode_len();
    if n != b.unicode_len() {
        return false;
    }
    let mut i: usize = 0;
    while i < n
        invariant
            n == a@.len() == b@.len(),
            i <= n,
            forall|j: int| 0 <= j < i ==> a@[j] == b@[j],
        decreases n - i,
    {
        if a.get_char(i) != b.get_char(i) {
            return false;
        }
        i = i + 1;
    }
    assert(a@ =~= b@);
    true
}

/// The temporary sibling of the target `p`, in the same directory.
pub fn temp_path_for(p: &str) -> (r: String)
    ensures
        r@ == temp_path_of(p@),
{
    proof {
        reveal_strlit("tmp_prepend");
        reveal_strlit(".");
    }
    let mut r;
    match extension_dot(p) {
        Some(d) => {
            proof { lemma_ext_dot_bounds(p@); }
            let n = p.unicode_len();
            let e = p.substring_char(d + 1, n);
            if same_text(e, "tmp_prepend") {
                r = String::from_str(p);
            } else {
                r = String::from_str(p.substring_char(0, d));
            }
        },
        None => {
            r = String::from_str(p);
        },
    }
    r.append(".");
    r.append("tmp_prepend");
    r
}

} // verus!
