//! Paths as '/'-separated texts: file name, parent, join and prefix
//! stripping, as the panes and file operations use them.
use vstd::prelude::*;
use crate::text::after_last;

verus! {

/// `s` without the run of `c` at its end.
pub open spec fn trim_end(s: Seq<char>, c: char) -> Seq<char>
    decreases s.len(),
{
    if s.len() > 0 && s.last() == c {
        trim_end(s.drop_last(), c)
    } else {
        s
    }
}

/// What precedes the last `c` of `s`; empty when `s` holds no `c`.
pub open spec fn before_last(s: Seq<char>, c: char) -> Seq<char>
    decreases s.len(),
{
    if s.len() == 0 {
        s
    } else if s.last() == c {
        s.drop_last()
    } else {
        before_last(s.drop_last(), c)
    }
}

/// The last component of a path, when it names something: trailing
/// separators are ignored, and an empty component or `..` has no name.
pub open spec fn path_file_name(p: Seq<char>) -> Option<Seq<char>> {
    let n = after_last(trim_end(p, '/'), '/');
    if n.len() == 0 || n == seq!['.', '.'] {
        None
    } else {
        Some(n)
    }
}

/// The path without its last component: `None` for the root and for the
/// empty path, the empty path for a single relative component, `/` for a
/// component right under the root.
pub open spec fn path_parent(p: Seq<char>) -> Option<Seq<char>> {
    let t = trim_end(p, '/');
    if t.len() == 0 {
        None
    } else if !t.contains('/') {
        Some(Seq::empty())
    } else {
        let u = trim_end(before_last(t, '/'), '/');
        if u.len() == 0 {
            Some(seq!['/'])
        } else {
            Some(u)
        }
    }
}

/// `name` under `base`: an absolute `name` stands alone, otherwise one
/// separator joins the two unless `base` is empty or already ends in one.
pub open spec fn path_join(base: Seq<char>, name: Seq<char>) -> Seq<char> {
    if name.len() > 0 && name[0] == '/' {
        name
    } else if base.len() == 0 {
        name
    } else if base.last() == '/' {
        base + name
    } else {
        base + seq!['/'] + name
    }
}

/// `s` without the run of `c` at its start.
pub open spec fn trim_start(s: Seq<char>, c: char) -> Seq<char>
    decreases s.len(),
{
    if s.len() > 0 && s[0] == c {
        trim_start(s.drop_first(), c)
    } else {
        s
    }
}

/// The rest of `p` below `root`, when `root` (without trailing separators)
/// is `p` itself or a whole-component prefix of it; the separators between
/// the two are dropped, so the rest is relative.
pub open spec fn path_strip_prefix(p: Seq<char>, root: Seq<char>) -> Option<Seq<char>> {
    let r = trim_end(root, '/');
    if r.len() <= p.len() && p.subrange(0, r.len() as int) == r {
        if p.len() == r.len() {
            Some(Seq::empty())
        } else if p[r.len() as int] == '/' {
            Some(trim_start(p.subrange(r.len() as int + 1, p.len() as int), '/'))
        } else {
            None
        }
    } else {
        None
    }
}

proof fn lemma_trim_start_at(s: Seq<char>, c: char, a: int, j: int)
    requires
        0 <= a <= j <= s.len(),
        j == s.len() || s[j] != c,
        forall|k: int| a <= k < j ==> s[k] == c,
    ensures
        trim_start(s.subrange(a, s.len() as int), c) == s.subrange(j, s.len() as int),
    decreases j - a,
{
    if a < j {
        assert(s.subrange(a, s.len() as int).drop_first() == s.subrange(a + 1, s.len() as int));
        lemma_trim_start_at(s, c, a + 1, j);
    }
}

pub proof fn lemma_trim_end_at(s: Seq<char>, c: char, j: int)
    requires
        0 <= j <= s.len(),
        j == 0 || s[j - 1] != c,
        forall|k: int| j <= k < s.len() ==> s[k] == c,
    ensures
        trim_end(s, c) == s.subrange(0, j),
    decreases s.len(),
{
    if j == s.len() {
        assert(s.subrange(0, j) == s);
    } else {
        lemma_trim_end_at(s.drop_last(), c, j);
    }
}

pub proof fn lemma_before_last_at(s: Seq<char>, c: char, j: int)
    requires
        0 <= j <= s.len(),
        j == 0 || s[j - 1] == c,
        forall|k: int| j <= k < s.len() ==> s[k] != c,
    ensures
        j > 0 ==> before_last(s, c) == s.subrange(0, j - 1),
        j == 0 ==> before_last(s, c).len() == 0 && !s.contains(c),
        after_last(s, c) == s.subrange(j, s.len() as int),
    decreases s.len(),
{
    if s.len() == 0 {
    } else if j == s.len() {
        assert(s.drop_last() == s.subrange(0, j - 1));
    } else {
        lemma_before_last_at(s.drop_last(), c, j);
        assert(s.subrange(j, s.len() as int) == s.drop_last().subrange(j, s.len() - 1).push(
            s.last(),
        ));
        if j == 0 {
            assert forall|k: int| 0 <= k < s.len() implies s[k] != c by {}
        }
    }
}

/// Length of `s` without its trailing run of `c`.
fn trimmed_len(s: &Vec<char>, c: char) -> (r: usize)
    ensures
        r <= s.len(),
        trim_end(s@, c) == s@.subrange(0, r as int),
{
    let mut j: usize = s.len();
    while j > 0 && s[j - 1] == c
        invariant
            j <= s.len(),
            forall|k: int| j <= k < s.len() ==> s@[k] == c,
        decreases j,
    {
        j = j - 1;
    }
    proof {
        lemma_trim_end_at(s@, c, j as int);
    }
    j
}

/// Position just after the last `c` among the first `end` characters, or 0
/// when there is none.
fn after_last_pos(s: &Vec<char>, end: usize, c: char) -> (r: usize)
    requires
        end <= s.len(),
    ensures
        r <= end,
        r > 0 ==> before_last(s@.subrange(0, end as int), c) == s@.subrange(0, r - 1),
        r > 0 ==> s@[r - 1] == c,
        r == 0 ==> !s@.subrange(0, end as int).contains(c),
        after_last(s@.subrange(0, end as int), c) == s@.subrange(r as int, end as int),
{
    let ghost t = s@.subrange(0, end as int);
    let mut j: usize = end;
    while j > 0 && s[j - 1] != c
        invariant
            j <= end,
            end <= s.len(),
            t == s@.subrange(0, end as int),
            forall|k: int| j <= k < end ==> s@[k] != c,
        decreases j,
    {
        j = j - 1;
    }
    proof {
        lemma_before_last_at(t, c, j as int);
        if j > 0 {
            assert(t.subrange(0, j - 1) == s@.subrange(0, j - 1));
        }
        assert(t.subrange(j as int, end as int) == s@.subrange(j as int, end as int));
    }
    j
}

fn slice_text(s: &str, from: usize, to: usize) -> (r: String)
    requires
        from <= to <= s@.len(),
    ensures
        r@ == s@.subrange(from as int, to as int),
{
    String::from_str(s.substring_char(from, to))
}

/// The last component of a path.
pub fn file_name(p: &str) -> (r: Option<String>)
    ensures
        r matches Some(n) ==> path_file_name(p@) == Some(n@),
        r is None ==> path_file_name(p@) is None,
{
    let cs = crate::text::chars_of(p);
    let t = trimmed_len(&cs, '/');
    let k = after_last_pos(&cs, t, '/');
    proof {
        assert(trim_end(p@, '/') == cs@.subrange(0, t as int));
    }
    if k == t || (t - k == 2 && cs[k] == '.' && cs[k + 1] == '.') {
        proof {
            if k != t {
                assert(cs@.subrange(k as int, t as int) == seq!['.', '.']);
            }
        }
        None
    } else {
        let r = slice_text(p, k, t);
        proof {
            assert(r@ == cs@.subrange(k as int, t as int));
            if r@.len() == 2 {
                assert(r@[0] == cs@[k as int]);
                assert(r@[1] == cs@[k + 1]);
                assert(r@ != seq!['.', '.']);
            }
        }
        Some(r)
    }
}

/// The parent of a path.
pub fn parent(p: &str) -> (r: Option<String>)
    ensures
        r matches Some(q) ==> path_parent(p@) == Some(q@),
        r is None ==> path_parent(p@) is None,
{
    let cs = crate::text::chars_of(p);
    let t = trimmed_len(&cs, '/');
    if t == 0 {
        return None;
    }
    let k = after_last_pos(&cs, t, '/');
    if k == 0 {
        return Some(String::new());
    }
    let ghost tt = cs@.subrange(0, t as int);
    let ghost bl = cs@.subrange(0, k - 1);
    proof {
        assert(trim_end(p@, '/') == tt);
        assert(tt[k - 1] == '/');
        assert(tt.contains('/'));
        assert(before_last(tt, '/') == bl);
    }
    let prefix: Vec<char> = vec_prefix(&cs, k - 1);
    let u = trimmed_len(&prefix, '/');
    proof {
        assert(prefix@ == bl);
        assert(trim_end(bl, '/') == bl.subrange(0, u as int));
    }
    if u == 0 {
        let mut root = String::new();
        crate::text::push_char(&mut root, '/');
        proof {
            assert(root@ == seq!['/']);
        }
        Some(root)
    } else {
        let r = slice_text(p, 0, u);
        proof {
            assert(bl.subrange(0, u as int) == cs@.subrange(0, u as int));
        }
        Some(r)
    }
}

fn vec_prefix(s: &Vec<char>, n: usize) -> (r: Vec<char>)
    requires
        n <= s.len(),
    ensures
        r@ == s@.subrange(0, n as int),
{
    let mut r: Vec<char> = Vec::new();
    let mut i: usize = 0;
    while i < n
        invariant
            i <= n,
            n <= s.len(),
            r@ == s@.subrange(0, i as int),
        decreases n - i,
    {
        r.push(s[i]);
        i = i + 1;
    }
    r
}

/// `name` joined under `base`.
pub fn join(base: &str, name: &str) -> (r: String)
    ensures
        r@ == path_join(base@, name@),
{
    let nb = base.unicode_len();
    let nn = name.unicode_len();
    if nn > 0 && name.get_char(0) == '/' {
        return String::from_str(name);
    }
    if nb == 0 {
        return String::from_str(name);
    }
    if base.get_char(nb - 1) == '/' {
        String::from_str(base).concat(name)
    } else {
        proof {
            reveal_strlit("/");
        }
        String::from_str(base).concat("/").concat(name)
    }
}

/// The rest of `p` below `root`.
pub fn strip_prefix(p: &str, root: &str) -> (r: Option<String>)
    ensures
        r matches Some(q) ==> path_strip_prefix(p@, root@) == Some(q@),
        r is None ==> path_strip_prefix(p@, root@) is None,
{
    let rc = crate::text::chars_of(root);
    let rl = trimmed_len(&rc, '/');
    let pc = crate::text::chars_of(p);
    let ghost rt = rc@.subrange(0, rl as int);
    proof {
        assert(trim_end(root@, '/') == rt);
    }
    if rl > pc.len() {
        return None;
    }
    let mut k: usize = 0;
    while k < rl
        invariant
            rl <= pc.len(),
            rl <= rc.len(),
            k <= rl,
            rt == rc@.subrange(0, rl as int),
            trim_end(root@, '/') == rt,
            pc@ == p@,
            forall|m: int| 0 <= m < k ==> pc@[m] == rc@[m],
        decreases rl - k,
    {
        if pc[k] != rc[k] {
            proof {
                assert(pc@.subrange(0, rl as int)[k as int] != rt[k as int]);
                assert(pc@.subrange(0, rl as int) != rt);
            }
            return None;
        }
        k = k + 1;
    }
    proof {
        assert(pc@.subrange(0, rl as int) == rt);
    }
    if pc.len() == rl {
        Some(String::new())
    } else if pc[rl] == '/' {
        let mut j = rl + 1;
        while j < pc.len() && pc[j] == '/'
            invariant
                rl + 1 <= j <= pc.len(),
                forall|k: int| rl + 1 <= k < j ==> pc@[k] == '/',
            decreases pc.len() - j,
        {
            j = j + 1;
        }
        proof {
            lemma_trim_start_at(pc@, '/', rl + 1, j as int);
        }
        Some(slice_text(p, j, pc.len()))
    } else {
        None
    }
}

} // verus!
