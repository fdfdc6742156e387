//! The order of a listing: a total preorder on entries for each sort mode,
//! and a stable sort by it.
use vstd::prelude::*;
use std::cmp::Ordering;
use crate::entry::{views, Entry, EntryView, SortMode};
use crate::text::{
    chars_of, compare_chars, ext_of, extension, lemma_text_cmp_order, lower_of, lowercase,
    text_cmp,
};

verus! {

pub open spec fn int_cmp(a: int, b: int) -> int {
    if a < b {
        -1
    } else if a > b {
        1
    } else {
        0
    }
}

/// The second comparison decides only where the first finds a tie.
pub open spec fn then_cmp(first: int, second: int) -> int {
    if first != 0 {
        first
    } else {
        second
    }
}

/// Case-insensitive order of names.
pub open spec fn name_cmp(a: EntryView, b: EntryView) -> int {
    text_cmp(lower_of(a.name), lower_of(b.name))
}

/// Case-insensitive order of extensions.
pub open spec fn ext_cmp(a: EntryView, b: EntryView) -> int {
    text_cmp(lower_of(ext_of(a.name)), lower_of(ext_of(b.name)))
}

/// Modification time, with an unknown time taken as the epoch.
pub open spec fn time_key(e: EntryView) -> int {
    match e.modified {
        Some(t) => t as int,
        None => 0,
    }
}

/// How the listing orders two entries under a mode: negative when `a`
/// comes first, positive when `b` does, zero when the mode ties them.
/// With `dirs_first`, a directory comes before a file whatever the mode;
/// every keyed mode breaks ties by name.
pub open spec fn entry_cmp(mode: SortMode, dirs_first: bool, a: EntryView, b: EntryView) -> int {
    if dirs_first && a.is_dir != b.is_dir {
        if a.is_dir {
            -1
        } else {
            1
        }
    } else {
        match mode {
            SortMode::NameAsc => name_cmp(a, b),
            SortMode::NameDesc => name_cmp(b, a),
            SortMode::ExtAsc => then_cmp(ext_cmp(a, b), name_cmp(a, b)),
            SortMode::ExtDesc => then_cmp(ext_cmp(b, a), name_cmp(a, b)),
            SortMode::TimeAsc => then_cmp(int_cmp(time_key(a), time_key(b)), name_cmp(a, b)),
            SortMode::TimeDesc => then_cmp(int_cmp(time_key(b), time_key(a)), name_cmp(a, b)),
            SortMode::SizeAsc => then_cmp(int_cmp(a.size as int, b.size as int), name_cmp(a, b)),
            SortMode::SizeDesc => then_cmp(int_cmp(b.size as int, a.size as int), name_cmp(a, b)),
            SortMode::Unsorted => 0,
        }
    }
}

/// Every entry is ordered no later than each one after it.
pub open spec fn is_sorted(s: Seq<EntryView>, mode: SortMode, dirs_first: bool) -> bool {
    forall|i: int, j: int|
        0 <= i < j < s.len() ==> entry_cmp(mode, dirs_first, #[trigger] s[i], #[trigger] s[j])
            <= 0
}

/// `r` is `v` rearranged by the index map `p` (r[k] == v[p[k]]), and entries
/// that the mode ties keep their relative order from `v`.
pub open spec fn stable_arrangement(
    r: Seq<EntryView>,
    v: Seq<EntryView>,
    p: Seq<int>,
    mode: SortMode,
    dirs_first: bool,
) -> bool {
    &&& p.len() == r.len()
    &&& r.len() == v.len()
    &&& forall|k: int| 0 <= k < p.len() ==> 0 <= #[trigger] p[k] < v.len() && r[k] == v[p[k]]
    &&& forall|k: int, l: int| 0 <= k < l < p.len() ==> #[trigger] p[k] != #[trigger] p[l]
    &&& forall|k: int, l: int|
        0 <= k < l < p.len() && entry_cmp(mode, dirs_first, #[trigger] r[k], #[trigger] r[l])
            == 0 ==> p[k] < p[l]
}

proof fn lemma_text_facts(x: Seq<char>, y: Seq<char>, z: Seq<char>)
    ensures
        text_cmp(x, y) == -text_cmp(y, x),
        text_cmp(y, z) == -text_cmp(z, y),
        text_cmp(x, z) == -text_cmp(z, x),
        -1 <= text_cmp(x, y) <= 1,
        -1 <= text_cmp(y, z) <= 1,
        -1 <= text_cmp(x, z) <= 1,
        text_cmp(x, y) <= 0 && text_cmp(y, z) <= 0 ==> text_cmp(x, z) <= 0,
        text_cmp(z, y) <= 0 && text_cmp(y, x) <= 0 ==> text_cmp(z, x) <= 0,
        text_cmp(x, y) == 0 && text_cmp(y, z) == 0 ==> text_cmp(x, z) == 0,
        text_cmp(x, y) <= 0 && text_cmp(y, z) < 0 ==> text_cmp(x, z) < 0,
        text_cmp(x, y) < 0 && text_cmp(y, z) <= 0 ==> text_cmp(x, z) < 0,
        text_cmp(z, y) <= 0 && text_cmp(y, x) < 0 ==> text_cmp(z, x) < 0,
        text_cmp(z, y) < 0 && text_cmp(y, x) <= 0 ==> text_cmp(z, x) < 0,
{
    lemma_text_cmp_order(x, y, z);
    lemma_text_cmp_order(z, y, x);
    lemma_text_cmp_order(y, z, x);
    lemma_text_cmp_order(x, z, y);
    lemma_text_cmp_order(y, x, z);
    lemma_text_cmp_order(z, x, y);
}

/// The listing order is a total preorder under every mode: it flips with
/// its arguments and is transitive.
pub proof fn lemma_entry_cmp_order(
    mode: SortMode,
    dirs_first: bool,
    a: EntryView,
    b: EntryView,
    c: EntryView,
)
    ensures
        entry_cmp(mode, dirs_first, a, b) == -entry_cmp(mode, dirs_first, b, a),
        -1 <= entry_cmp(mode, dirs_first, a, b) <= 1,
        entry_cmp(mode, dirs_first, a, b) <= 0 && entry_cmp(mode, dirs_first, b, c) <= 0
            ==> entry_cmp(mode, dirs_first, a, c) <= 0,
{
    lemma_text_facts(lower_of(a.name), lower_of(b.name), lower_of(c.name));
    lemma_text_facts(
        lower_of(ext_of(a.name)),
        lower_of(ext_of(b.name)),
        lower_of(ext_of(c.name)),
    );
}

/// In a listing sorted with `dirs_first`, every directory comes before
/// every file, whatever the mode.
pub proof fn lemma_dirs_precede_files(s: Seq<EntryView>, mode: SortMode)
    requires
        is_sorted(s, mode, true),
    ensures
        forall|i: int, j: int|
            0 <= i < s.len() && 0 <= j < s.len() && #[trigger] s[i].is_dir && !#[trigger] s[j].is_dir
                ==> i < j,
{
    assert forall|i: int, j: int|
        0 <= i < s.len() && 0 <= j < s.len() && #[trigger] s[i].is_dir && !#[trigger] s[j].is_dir
        implies i < j by {
        if j < i {
            assert(entry_cmp(mode, true, s[j], s[i]) <= 0);
        }
    }
}

/// An index map that is injective into `0..n` reaches every index.
proof fn lemma_index_map_onto(p: Seq<int>, n: int, i: int)
    requires
        p.len() == n,
        forall|k: int| 0 <= k < n ==> 0 <= #[trigger] p[k] < n,
        forall|k: int, l: int| 0 <= k < l < n ==> #[trigger] p[k] != #[trigger] p[l],
        0 <= i < n,
    ensures
        exists|k: int| 0 <= k < n && p[k] == i,
{
    assert(p.no_duplicates()) by {
        assert forall|k: int, l: int| 0 <= k < p.len() && 0 <= l < p.len() && k != l implies p[k]
            != p[l] by {
            if k < l {
                assert(p[k] != p[l]);
            } else {
                assert(p[l] != p[k]);
            }
        }
    }
    p.unique_seq_to_set();
    vstd::set_lib::lemma_int_range(0, n);
    assert(p.to_set().subset_of(vstd::set_lib::set_int_range(0, n)));
    vstd::seq_lib::seq_to_set_is_finite(p);
    vstd::set_lib::lemma_subset_equality(p.to_set(), vstd::set_lib::set_int_range(0, n));
    assert(vstd::set_lib::set_int_range(0, n).contains(i));
    assert(p.to_set().contains(i));
}

proof fn lemma_arrangements_agree_below(
    r1: Seq<EntryView>,
    p1: Seq<int>,
    r2: Seq<EntryView>,
    p2: Seq<int>,
    v: Seq<EntryView>,
    mode: SortMode,
    dirs_first: bool,
    k: int,
)
    requires
        stable_arrangement(r1, v, p1, mode, dirs_first),
        stable_arrangement(r2, v, p2, mode, dirs_first),
        is_sorted(r1, mode, dirs_first),
        is_sorted(r2, mode, dirs_first),
        0 <= k <= v.len(),
    ensures
        forall|j: int| 0 <= j < k ==> p1[j] == p2[j],
    decreases k,
{
    if k > 0 {
        lemma_arrangements_agree_below(r1, p1, r2, p2, v, mode, dirs_first, k - 1);
        let c = k - 1;
        let n = v.len() as int;
        let a = p1[c];
        let b = p2[c];
        if a != b {
            lemma_index_map_onto(p1, n, b);
            let k1 = choose|x: int| 0 <= x < n && p1[x] == b;
            lemma_index_map_onto(p2, n, a);
            let k2 = choose|x: int| 0 <= x < n && p2[x] == a;
            if k1 < c {
                assert(p2[k1] == b);
                assert(p2[k1] != p2[c]);
            }
            if k2 < c {
                assert(p1[k2] == a);
                assert(p1[k2] != p1[c]);
            }
            assert(c < k1 && c < k2);
            assert(r1[c] == v[a] && r1[k1] == v[b]);
            assert(r2[c] == v[b] && r2[k2] == v[a]);
            assert(entry_cmp(mode, dirs_first, r1[c], r1[k1]) <= 0);
            assert(entry_cmp(mode, dirs_first, r2[c], r2[k2]) <= 0);
            lemma_entry_cmp_order(mode, dirs_first, v[a], v[b], v[a]);
            assert(p1[c] < p1[k1]);
            assert(p2[c] < p2[k2]);
        }
    }
}

/// Two sorted arrangements of the same listing that keep tied entries in
/// listing order are the same sequence: the stable sort of a listing is
/// unique, so sorting gives one order for one listing.
pub proof fn lemma_stable_sort_unique(
    r1: Seq<EntryView>,
    p1: Seq<int>,
    r2: Seq<EntryView>,
    p2: Seq<int>,
    v: Seq<EntryView>,
    mode: SortMode,
    dirs_first: bool,
)
    requires
        stable_arrangement(r1, v, p1, mode, dirs_first),
        stable_arrangement(r2, v, p2, mode, dirs_first),
        is_sorted(r1, mode, dirs_first),
        is_sorted(r2, mode, dirs_first),
    ensures
        r1 == r2,
{
    lemma_arrangements_agree_below(r1, p1, r2, p2, v, mode, dirs_first, v.len() as int);
    assert forall|k: int| 0 <= k < r1.len() implies r1[k] == r2[k] by {
        assert(p1[k] == p2[k]);
    }
    assert(r1 =~= r2);
}

/// The folded keys that the order reads from an entry.
pub struct SortKey {
    pub name: Vec<char>,
    pub ext: Vec<char>,
}

pub open spec fn key_of(k: SortKey, e: EntryView) -> bool {
    k.name@ == lower_of(e.name) && k.ext@ == lower_of(ext_of(e.name))
}

/// The sort keys of an entry.
pub fn sort_key(e: &Entry) -> (r: SortKey)
    ensures
        key_of(r, e@),
{
    let name = lowercase(e.name.as_str());
    let ext = extension(e.name.as_str());
    let ext_lower = lowercase(ext.as_str());
    SortKey { name: chars_of(name.as_str()), ext: chars_of(ext_lower.as_str()) }
}

fn compare_ints(a: i128, b: i128) -> (r: i8)
    ensures
        r as int == int_cmp(a as int, b as int),
{
    if a < b {
        -1
    } else if a > b {
        1
    } else {
        0
    }
}

fn time_of(e: &Entry) -> (r: i128)
    ensures
        r as int == time_key(e@),
{
    match e.modified {
        Some(t) => t,
        None => 0,
    }
}

/// The listing order of two entries, given their keys.
pub fn compare_entries(
    mode: SortMode,
    dirs_first: bool,
    a: &Entry,
    ka: &SortKey,
    b: &Entry,
    kb: &SortKey,
) -> (r: i8)
    requires
        key_of(*ka, a@),
        key_of(*kb, b@),
    ensures
        r as int == entry_cmp(mode, dirs_first, a@, b@),
{
    if dirs_first && a.is_dir != b.is_dir {
        return if a.is_dir {
            -1
        } else {
            1
        };
    }
    let by_name = compare_chars(&ka.name, &kb.name);
    let first = match mode {
        SortMode::NameAsc => {
            return by_name;
        },
        SortMode::NameDesc => {
            return compare_chars(&kb.name, &ka.name);
        },
        SortMode::ExtAsc => compare_chars(&ka.ext, &kb.ext),
        SortMode::ExtDesc => compare_chars(&kb.ext, &ka.ext),
        SortMode::TimeAsc => compare_ints(time_of(a), time_of(b)),
        SortMode::TimeDesc => compare_ints(time_of(b), time_of(a)),
        SortMode::SizeAsc => compare_ints(a.size as i128, b.size as i128),
        SortMode::SizeDesc => compare_ints(b.size as i128, a.size as i128),
        SortMode::Unsorted => {
            return 0;
        },
    };
    if first != 0 {
        first
    } else {
        by_name
    }
}

/// The `Ordering` of a three-way comparison.
pub open spec fn ordering_of(c: int) -> Ordering {
    if c < 0 {
        Ordering::Less
    } else if c > 0 {
        Ordering::Greater
    } else {
        Ordering::Equal
    }
}

fn to_ordering(c: i8) -> (r: Ordering)
    ensures
        r == ordering_of(c as int),
{
    if c < 0 {
        Ordering::Less
    } else if c > 0 {
        Ordering::Greater
    } else {
        Ordering::Equal
    }
}

/// Names compared without regard to case.
pub fn cmp_name(a: &Entry, b: &Entry) -> (r: Ordering)
    ensures
        r == ordering_of(name_cmp(a@, b@)),
{
    let ka = sort_key(a);
    let kb = sort_key(b);
    to_ordering(compare_chars(&ka.name, &kb.name))
}

/// Extensions compared without regard to case.
pub fn cmp_ext(a: &Entry, b: &Entry) -> (r: Ordering)
    ensures
        r == ordering_of(ext_cmp(a@, b@)),
{
    let ka = sort_key(a);
    let kb = sort_key(b);
    to_ordering(compare_chars(&ka.ext, &kb.ext))
}

/// Modification times compared, an unknown time counting as the epoch.
pub fn cmp_time(a: &Entry, b: &Entry) -> (r: Ordering)
    ensures
        r == ordering_of(int_cmp(time_key(a@), time_key(b@))),
{
    to_ordering(compare_ints(time_of(a), time_of(b)))
}

/// Sizes compared.
pub fn cmp_size(a: &Entry, b: &Entry) -> (r: Ordering)
    ensures
        r == ordering_of(int_cmp(a.size as int, b.size as int)),
{
    to_ordering(compare_ints(a.size as i128, b.size as i128))
}

/// Sorts a listing stably under a mode.
///
/// The result is sorted, holds the same entries, and keeps the input order
/// of entries that the mode ties; in particular a listing that is already
/// sorted comes back unchanged, so sorting twice gives what sorting once did.
pub fn sort_entries(entries: &Vec<Entry>, mode: SortMode, dirs_first: bool) -> (r: Vec<Entry>)
    ensures
        is_sorted(views(r@), mode, dirs_first),
        exists|p: Seq<int>| stable_arrangement(views(r@), views(entries@), p, mode, dirs_first),
        is_sorted(views(entries@), mode, dirs_first) ==> r@ == entries@,
        mode == SortMode::Unsorted && !dirs_first ==> r@ == entries@,
{
    proof {
        if mode == SortMode::Unsorted && !dirs_first {
            assert forall|i: int, j: int| 0 <= i < j < views(entries@).len() implies entry_cmp(
                mode,
                dirs_first,
                #[trigger] views(entries@)[i],
                #[trigger] views(entries@)[j],
            ) <= 0 by {}
        }
    }
    let n = entries.len();
    let ghost v = views(entries@);
    let mut r: Vec<Entry> = Vec::new();
    let mut keys: Vec<SortKey> = Vec::new();
    let ghost mut p: Seq<int> = Seq::empty();
    let mut i: usize = 0;
    while i < n
        invariant
            n == entries.len(),
            v == views(entries@),
            i <= n,
            keys.len() == r.len(),
            forall|k: int| 0 <= k < r.len() ==> key_of(#[trigger] keys[k], r[k]@),
            is_sorted(views(r@), mode, dirs_first),
            p.len() == r.len(),
            r.len() == i,
            forall|k: int| 0 <= k < p.len() ==> 0 <= #[trigger] p[k] < i && r[k] == entries@[p[k]],
            forall|k: int, l: int| 0 <= k < l < p.len() ==> #[trigger] p[k] != #[trigger] p[l],
            forall|k: int, l: int|
                0 <= k < l < p.len() && entry_cmp(mode, dirs_first, #[trigger] r[k]@, #[trigger] r[l]@)
                    == 0 ==> p[k] < p[l],
            is_sorted(v, mode, dirs_first) ==> r@ == entries@.subrange(0, i as int),
        decreases n - i,
    {
        let x = entries[i].cloned();
        let kx = sort_key(&x);
        let mut j: usize = r.len();
        while j > 0 && compare_entries(mode, dirs_first, &r[j - 1], &keys[j - 1], &x, &kx) > 0
            invariant
                j <= r.len(),
                keys.len() == r.len(),
                forall|k: int| 0 <= k < r.len() ==> key_of(#[trigger] keys[k], r[k]@),
                key_of(kx, x@),
                forall|k: int| j <= k < r.len() ==> entry_cmp(mode, dirs_first, #[trigger] r[k]@, x@) > 0,
                is_sorted(v, mode, dirs_first) ==> j == r.len(),
                n == entries.len(),
                v == views(entries@),
                i < n,
                x == entries@[i as int],
                r.len() == i,
                is_sorted(v, mode, dirs_first) ==> r@ == entries@.subrange(0, i as int),
            decreases j,
        {
            proof {
                if is_sorted(v, mode, dirs_first) {
                    assert(r[j - 1] == entries@[i - 1]);
                    assert(v[i - 1] == entries@[i - 1]@);
                    assert(v[i as int] == entries@[i as int]@);
                    assert(entry_cmp(mode, dirs_first, v[i - 1], v[i as int]) <= 0);
                }
            }
            j = j - 1;
        }
        let ghost old_r = r@;
        let ghost old_p = p;
        proof {
            assert forall|a: int| 0 <= a < j implies entry_cmp(mode, dirs_first, #[trigger] old_r[a]@, x@)
                <= 0 by {
                assert(views(old_r)[a] == old_r[a]@);
                assert(views(old_r)[j - 1] == old_r[j - 1]@);
                lemma_entry_cmp_order(mode, dirs_first, old_r[a]@, old_r[j - 1]@, x@);
            }
            assert forall|b: int| j <= b < old_r.len() implies entry_cmp(mode, dirs_first, x@, #[trigger] old_r[b]@)
                < 0 by {
                lemma_entry_cmp_order(mode, dirs_first, x@, old_r[b]@, x@);
            }
        }
        r.insert(j, x);
        keys.insert(j, kx);
        proof {
            p = old_p.insert(j as int, i as int);
            let nr = r@;
            assert forall|a: int, b: int| 0 <= a < b < nr.len() implies entry_cmp(mode, dirs_first,
                #[trigger] views(nr)[a], #[trigger] views(nr)[b]) <= 0 by {
                assert(views(nr)[a] == nr[a]@);
                assert(views(nr)[b] == nr[b]@);
                if b < j {
                    assert(views(old_r)[a] == old_r[a]@);
                    assert(views(old_r)[b] == old_r[b]@);
                } else if b == j {
                } else if a < j {
                    lemma_entry_cmp_order(mode, dirs_first, old_r[a]@, x@, old_r[b - 1]@);
                } else if a == j {
                } else {
                    assert(views(old_r)[a - 1] == old_r[a - 1]@);
                    assert(views(old_r)[b - 1] == old_r[b - 1]@);
                }
            }
            assert forall|k: int, l: int|
                0 <= k < l < p.len() && entry_cmp(mode, dirs_first, #[trigger] nr[k]@, #[trigger] nr[l]@)
                    == 0 implies p[k] < p[l] by {
                if l == j {
                } else if k == j {
                } else if k < j && l > j {
                    lemma_entry_cmp_order(mode, dirs_first, old_r[k]@, x@, old_r[l - 1]@);
                }
            }
            assert forall|k: int| 0 <= k < p.len() implies 0 <= #[trigger] p[k] < i + 1 && nr[k]
                == entries@[p[k]] by {
                if k < j {
                } else if k == j {
                } else {
                }
            }
            assert forall|k: int, l: int| 0 <= k < l < p.len() implies #[trigger] p[k]
                != #[trigger] p[l] by {
                if k < j && l > j {
                    assert(old_p[k] != old_p[l - 1]);
                }
            }
            assert forall|k: int| 0 <= k < r.len() implies key_of(#[trigger] keys[k], r[k]@) by {
                if k < j {
                } else if k == j {
                } else {
                }
            }
            if is_sorted(v, mode, dirs_first) {
                assert(nr == entries@.subrange(0, i + 1));
            }
        }
        i = i + 1;
    }
    proof {
        let rv = views(r@);
        assert forall|k: int| 0 <= k < p.len() implies 0 <= #[trigger] p[k] < v.len() && rv[k] == v[p[k]] by {
            assert(rv[k] == r@[k]@);
            assert(v[p[k]] == entries@[p[k]]@);
        }
        assert forall|k: int, l: int|
            0 <= k < l < p.len() && entry_cmp(mode, dirs_first, #[trigger] rv[k], #[trigger] rv[l])
                == 0 implies p[k] < p[l] by {
            assert(rv[k] == r@[k]@);
            assert(rv[l] == r@[l]@);
        }
        assert(stable_arrangement(rv, v, p, mode, dirs_first));
        if is_sorted(v, mode, dirs_first) {
            assert(r@ == entries@.subrange(0, n as int));
            assert(entries@.subrange(0, n as int) == entries@);
        }
    }
    r
}

} // verus!
