//! File operations as plans: where each source goes, which targets are
//! in the way, and the steps that carry out a copy, move, delete or sync.
use vstd::prelude::*;
use crate::paths::{file_name, join, path_file_name, path_join, path_strip_prefix, strip_prefix};
use crate::text::{text_set, contains_text};

verus! {

/// One step of a file operation.
#[derive(Debug, Clone)]
pub enum FsStep {
    /// Remove a file, or a directory with everything in it.
    Remove { path: String },
    /// Remove what is at a path, if anything is.
    Clear { path: String },
    /// Copy a file, or a directory tree, to a new path.
    Copy { from: String, to: String },
    /// Move a file or a directory tree to a new path.
    Move { from: String, to: String },
}

pub enum StepView {
    Remove(Seq<char>),
    Clear(Seq<char>),
    Copy(Seq<char>, Seq<char>),
    Move(Seq<char>, Seq<char>),
}

impl View for FsStep {
    type V = StepView;

    open spec fn view(&self) -> StepView {
        match self {
            FsStep::Remove { path } => StepView::Remove(path@),
            FsStep::Clear { path } => StepView::Clear(path@),
            FsStep::Copy { from, to } => StepView::Copy(from@, to@),
            FsStep::Move { from, to } => StepView::Move(from@, to@),
        }
    }
}

pub open spec fn step_views(v: Seq<FsStep>) -> Seq<StepView> {
    v.map_values(|s: FsStep| s@)
}

/// Whether the sources go into the destination as into a directory: when
/// it is one, or when there are several sources.
pub open spec fn into_dir(n_sources: int, dest_is_dir: bool) -> bool {
    dest_is_dir || n_sources > 1
}

/// The file name of a source, or empty.
pub open spec fn name_or_empty(p: Seq<char>) -> Seq<char> {
    match path_file_name(p) {
        Some(n) => n,
        None => Seq::empty(),
    }
}

/// Where a source lands: under the destination by its own file name when
/// going into a directory, else the destination itself.
pub open spec fn target_of(src: Seq<char>, dest: Seq<char>, into: bool) -> Seq<char> {
    if into {
        path_join(dest, name_or_empty(src))
    } else {
        dest
    }
}

/// Number of sources among the first `n` whose target is in `existing`.
pub open spec fn conflict_count(
    sources: Seq<String>,
    n: int,
    dest: Seq<char>,
    into: bool,
    existing: Set<Seq<char>>,
) -> int
    decreases n,
{
    if n <= 0 {
        0
    } else {
        conflict_count(sources, n - 1, dest, into, existing) + if existing.contains(
            target_of(sources[n - 1]@, dest, into),
        ) {
            1int
        } else {
            0int
        }
    }
}

/// With one source and a destination that is not an existing directory,
/// there is a conflict exactly when the destination path itself exists.
pub proof fn lemma_single_source_conflict(src: String, dest: Seq<char>, existing: Set<Seq<char>>)
    ensures
        conflict_count(seq![src], 1, dest, into_dir(1, false), existing) > 0 <==> existing.contains(
            dest,
        ),
{
    assert(conflict_count(seq![src], 0, dest, into_dir(1, false), existing) == 0);
}

/// The target of one source.
pub fn target_for(src: &String, dest: &String, into: bool) -> (r: String)
    ensures
        r@ == target_of(src@, dest@, into),
{
    if into {
        let name = match file_name(src.as_str()) {
            Some(n) => n,
            None => String::new(),
        };
        join(dest.as_str(), name.as_str())
    } else {
        dest.clone()
    }
}

/// The target of each source, in order. `dest_is_dir` tells whether the
/// destination is an existing directory.
pub fn transfer_targets(sources: &Vec<String>, dest: &String, dest_is_dir: bool) -> (r: Vec<String>)
    ensures
        r@.len() == sources@.len(),
        forall|k: int|
            0 <= k < r@.len() ==> #[trigger] r@[k]@ == target_of(
                sources@[k]@,
                dest@,
                into_dir(sources@.len() as int, dest_is_dir),
            ),
{
    let into = dest_is_dir || sources.len() > 1;
    let mut r: Vec<String> = Vec::new();
    let mut i: usize = 0;
    while i < sources.len()
        invariant
            i <= sources.len(),
            into == into_dir(sources@.len() as int, dest_is_dir),
            r@.len() == i,
            forall|k: int| 0 <= k < i ==> #[trigger] r@[k]@ == target_of(sources@[k]@, dest@, into),
        decreases sources.len() - i,
    {
        r.push(target_for(&sources[i], dest, into));
        i = i + 1;
    }
    r
}

/// Counts the sources whose target already exists (`existing` holds the
/// targets found on disk): `None` when there is no conflict.
pub fn find_conflicts(
    sources: &Vec<String>,
    dest: &String,
    dest_is_dir: bool,
    existing: &Vec<String>,
) -> (r: Option<usize>)
    ensures
        ({
            let n = conflict_count(
                sources@,
                sources@.len() as int,
                dest@,
                into_dir(sources@.len() as int, dest_is_dir),
                text_set(existing@),
            );
            if n > 0 {
                r == Some(n as usize)
            } else {
                r is None
            }
        }),
{
    let into = dest_is_dir || sources.len() > 1;
    let mut count: usize = 0;
    let mut i: usize = 0;
    while i < sources.len()
        invariant
            i <= sources.len(),
            into == into_dir(sources@.len() as int, dest_is_dir),
            count as int == conflict_count(sources@, i as int, dest@, into, text_set(existing@)),
            count <= i,
        decreases sources.len() - i,
    {
        let target = target_for(&sources[i], dest, into);
        if contains_text(existing, &target) {
            count = count + 1;
        }
        i = i + 1;
    }
    if count > 0 {
        Some(count)
    } else {
        None
    }
}

/// The steps of a copy (`is_copy`) or move of the first `n` sources: for
/// each, when overwriting, whatever is at its target is cleared first; then
/// the source is copied or moved onto it.
pub open spec fn transfer_steps(
    sources: Seq<String>,
    n: int,
    dest: Seq<char>,
    into: bool,
    overwrite: bool,
    is_copy: bool,
) -> Seq<StepView>
    decreases n,
{
    if n <= 0 {
        Seq::empty()
    } else {
        let rest = transfer_steps(sources, n - 1, dest, into, overwrite, is_copy);
        let src = sources[n - 1]@;
        let t = target_of(src, dest, into);
        let cleared = if overwrite {
            rest.push(StepView::Clear(t))
        } else {
            rest
        };
        cleared.push(
            if is_copy {
                StepView::Copy(src, t)
            } else {
                StepView::Move(src, t)
            },
        )
    }
}

fn transfer_plan(
    sources: &Vec<String>,
    dest: &String,
    dest_is_dir: bool,
    overwrite: bool,
    is_copy: bool,
) -> (r: Vec<FsStep>)
    ensures
        step_views(r@) == transfer_steps(
            sources@,
            sources@.len() as int,
            dest@,
            into_dir(sources@.len() as int, dest_is_dir),
            overwrite,
            is_copy,
        ),
{
    let into = dest_is_dir || sources.len() > 1;
    let mut r: Vec<FsStep> = Vec::new();
    let mut i: usize = 0;
    while i < sources.len()
        invariant
            i <= sources.len(),
            into == into_dir(sources@.len() as int, dest_is_dir),
            step_views(r@) == transfer_steps(
                sources@,
                i as int,
                dest@,
                into,
                overwrite,
                is_copy,
            ),
        decreases sources.len() - i,
    {
        let target = target_for(&sources[i], dest, into);
        let ghost before = r@;
        if overwrite {
            r.push(FsStep::Clear { path: target.clone() });
        }
        let ghost mid = r@;
        let from = sources[i].clone();
        if is_copy {
            r.push(FsStep::Copy { from, to: target });
        } else {
            r.push(FsStep::Move { from, to: target });
        }
        proof {
            assert(step_views(r@) == step_views(mid).push(r@.last()@));
            if mid.len() > before.len() {
                assert(step_views(mid) == step_views(before).push(mid.last()@));
            } else {
                assert(mid == before);
            }
        }
        i = i + 1;
    }
    r
}

/// The steps of copying the sources to `dest`. With `overwrite`, what is at
/// a target is removed (recursively, if a directory) before the copy.
pub fn copy_sources(
    sources: &Vec<String>,
    dest: &String,
    dest_is_dir: bool,
    overwrite: bool,
) -> (r: Vec<FsStep>)
    ensures
        step_views(r@) == transfer_steps(
            sources@,
            sources@.len() as int,
            dest@,
            into_dir(sources@.len() as int, dest_is_dir),
            overwrite,
            true,
        ),
{
    transfer_plan(sources, dest, dest_is_dir, overwrite, true)
}

/// The steps of moving the sources to `dest`. With `overwrite`, what is at
/// a target is removed (recursively, if a directory) before the move.
pub fn move_sources(
    sources: &Vec<String>,
    dest: &String,
    dest_is_dir: bool,
    overwrite: bool,
) -> (r: Vec<FsStep>)
    ensures
        step_views(r@) == transfer_steps(
            sources@,
            sources@.len() as int,
            dest@,
            into_dir(sources@.len() as int, dest_is_dir),
            overwrite,
            false,
        ),
{
    transfer_plan(sources, dest, dest_is_dir, overwrite, false)
}

/// The steps of deleting paths: each removed in turn.
pub fn delete_plan(paths: &Vec<String>) -> (r: Vec<FsStep>)
    ensures
        r@.len() == paths@.len(),
        forall|k: int| 0 <= k < r@.len() ==> #[trigger] r@[k]@ == StepView::Remove(paths@[k]@),
{
    let mut r: Vec<FsStep> = Vec::new();
    let mut i: usize = 0;
    while i < paths.len()
        invariant
            i <= paths.len(),
            r@.len() == i,
            forall|k: int| 0 <= k < i ==> #[trigger] r@[k]@ == StepView::Remove(paths@[k]@),
        decreases paths.len() - i,
    {
        r.push(FsStep::Remove { path: paths[i].clone() });
        i = i + 1;
    }
    r
}

/// Where a path below `src_root` lands below `dst_root`: the same path
/// relative to the root, or the whole path joined when it is not below it.
pub open spec fn mirrored(p: Seq<char>, src_root: Seq<char>, dst_root: Seq<char>) -> Seq<char> {
    match path_strip_prefix(p, src_root) {
        Some(rel) => path_join(dst_root, rel),
        None => path_join(dst_root, p),
    }
}

/// The counterpart of `p` below `dst_root`.
pub fn sync_target(p: &String, src_root: &String, dst_root: &String) -> (r: String)
    ensures
        r@ == mirrored(p@, src_root@, dst_root@),
{
    match strip_prefix(p.as_str(), src_root.as_str()) {
        Some(rel) => join(dst_root.as_str(), rel.as_str()),
        None => join(dst_root.as_str(), p.as_str()),
    }
}

/// What a walk of the source tree reports of one item and its counterpart
/// in the destination.
#[derive(Debug, Clone)]
pub struct SyncItem {
    pub path: String,
    pub is_dir: bool,
    pub modified: Option<i128>,
    pub dst_exists: bool,
    pub dst_modified: Option<i128>,
}

/// An item is synchronised when its counterpart is missing, or, for a
/// file, when both times are known and the source is strictly newer.
pub open spec fn needs_sync(it: SyncItem) -> bool {
    if it.is_dir {
        !it.dst_exists
    } else {
        !it.dst_exists || (it.dst_exists && match (it.modified, it.dst_modified) {
            (Some(s), Some(d)) => s > d,
            _ => false,
        })
    }
}

/// `p` lies below the directory `d`.
pub open spec fn is_below(p: Seq<char>, d: Seq<char>) -> bool {
    d.len() < p.len() && p.subrange(0, d.len() as int) == d && p[d.len() as int] == '/'
}

/// `p` lies below one of the directories `dirs`.
pub open spec fn below_any(p: Seq<char>, dirs: Seq<Seq<char>>) -> bool {
    exists|k: int| 0 <= k < dirs.len() && #[trigger] is_below(p, dirs[k])
}

/// The paths queued from the first `n` items, in walk order, and the
/// directories among them. An item is queued when it needs synchronising
/// and lies below no queued directory: a queued directory is copied whole.
pub open spec fn sync_state(items: Seq<SyncItem>, n: int) -> (Seq<Seq<char>>, Seq<Seq<char>>)
    decreases n,
{
    if n <= 0 {
        (Seq::empty(), Seq::empty())
    } else {
        let (ops, dirs) = sync_state(items, n - 1);
        let it = items[n - 1];
        if needs_sync(it) && !below_any(it.path@, dirs) {
            (ops.push(it.path@), if it.is_dir {
                dirs.push(it.path@)
            } else {
                dirs
            })
        } else {
            (ops, dirs)
        }
    }
}

/// The paths queued from the first `n` items.
pub open spec fn sync_ops(items: Seq<SyncItem>, n: int) -> Seq<Seq<char>> {
    sync_state(items, n).0
}

fn is_below_dir(p: &String, d: &String) -> (r: bool)
    ensures
        r == is_below(p@, d@),
{
    let n = d.unicode_len();
    if n >= p.unicode_len() {
        return false;
    }
    crate::text::starts_with(p.as_str(), d.as_str()) && p.as_str().get_char(n) == '/'
}

fn below_any_dir(p: &String, dirs: &Vec<String>) -> (r: bool)
    ensures
        r == below_any(p@, dirs@.map_values(|s: String| s@)),
{
    let ghost ds = dirs@.map_values(|s: String| s@);
    let mut k: usize = 0;
    while k < dirs.len()
        invariant
            k <= dirs.len(),
            ds == dirs@.map_values(|s: String| s@),
            forall|j: int| 0 <= j < k ==> !is_below(p@, #[trigger] ds[j]),
        decreases dirs.len() - k,
    {
        if is_below_dir(p, &dirs[k]) {
            proof {
                assert(is_below(p@, ds[k as int]));
            }
            return true;
        }
        k = k + 1;
    }
    false
}

/// The items to synchronise, in walk order: those that need it, leaving
/// out what lies below a directory already queued. The plan is a function
/// of what the walk reported: the same trees give the same plan.
pub fn sync_plan(items: &Vec<SyncItem>) -> (r: Vec<String>)
    ensures
        r@.map_values(|s: String| s@) == sync_ops(items@, items@.len() as int),
{
    let mut r: Vec<String> = Vec::new();
    let mut dirs: Vec<String> = Vec::new();
    let mut i: usize = 0;
    while i < items.len()
        invariant
            i <= items.len(),
            r@.map_values(|s: String| s@) == sync_state(items@, i as int).0,
            dirs@.map_values(|s: String| s@) == sync_state(items@, i as int).1,
        decreases items.len() - i,
    {
        let it = &items[i];
        let newer = match (it.modified, it.dst_modified) {
            (Some(s), Some(d)) => s > d,
            _ => false,
        };
        let wanted = if it.is_dir {
            !it.dst_exists
        } else {
            !it.dst_exists || newer
        };
        if wanted && !below_any_dir(&it.path, &dirs) {
            let ghost before = r@;
            let ghost dbefore = dirs@;
            r.push(it.path.clone());
            if it.is_dir {
                dirs.push(it.path.clone());
                proof {
                    assert(dirs@.map_values(|s: String| s@) =~= dbefore.map_values(|s: String| s@).push(
                        it.path@,
                    ));
                }
            }
            proof {
                assert(r@.map_values(|s: String| s@) =~= before.map_values(|s: String| s@).push(
                    it.path@,
                ));
            }
        }
        i = i + 1;
    }
    r
}

/// A file whose counterpart is strictly older is synchronised; one whose
/// counterpart is as new or newer is not; a missing counterpart always is.
pub proof fn lemma_sync_staleness(it: SyncItem)
    ensures
        !it.is_dir && it.dst_exists && it.modified is Some && it.dst_modified is Some ==> (
        needs_sync(it) <==> it.modified->0 > it.dst_modified->0),
        !it.dst_exists ==> needs_sync(it),
{
}

/// The steps of carrying out a sync plan: each item copied to its
/// counterpart below `dst_root`.
pub fn sync_execute(ops: &Vec<String>, src_root: &String, dst_root: &String) -> (r: Vec<FsStep>)
    ensures
        r@.len() == ops@.len(),
        forall|k: int|
            0 <= k < r@.len() ==> #[trigger] r@[k]@ == StepView::Copy(
                ops@[k]@,
                mirrored(ops@[k]@, src_root@, dst_root@),
            ),
{
    let mut r: Vec<FsStep> = Vec::new();
    let mut i: usize = 0;
    while i < ops.len()
        invariant
            i <= ops.len(),
            r@.len() == i,
            forall|k: int|
                0 <= k < i ==> #[trigger] r@[k]@ == StepView::Copy(
                    ops@[k]@,
                    mirrored(ops@[k]@, src_root@, dst_root@),
                ),
        decreases ops.len() - i,
    {
        let to = sync_target(&ops[i], src_root, dst_root);
        r.push(FsStep::Copy { from: ops[i].clone(), to });
        i = i + 1;
    }
    r
}

/// The value of a text of octal digits.
pub open spec fn octal_value(s: Seq<char>) -> Option<int>
    decreases s.len(),
{
    if s.len() == 0 {
        Some(0)
    } else {
        match octal_value(s.drop_last()) {
            Some(v) => if '0' <= s.last() <= '7' {
                Some(v * 8 + (s.last() as int - '0' as int))
            } else {
                None
            },
            None => None,
        }
    }
}

/// The digits that follow the leading zeros of the input.
pub open spec fn after_zeros(s: Seq<char>) -> Seq<char>
    decreases s.len(),
{
    if s.len() > 0 && s[0] == '0' {
        after_zeros(s.drop_first())
    } else {
        s
    }
}

/// The permission bits that a chmod input gives: the octal number it
/// spells (leading zeros and one leading `+` allowed, all zeros being 0),
/// or 0644 when it spells none that fits 32 bits; only the low nine bits
/// are kept.
pub open spec fn chmod_bits(input: Seq<char>) -> int {
    let t = after_zeros(input);
    if input.len() > 0 && t.len() == 0 {
        0
    } else {
        chmod_bits_of_rest(t)
    }
}

/// The bits that the text after the leading zeros spells.
pub open spec fn chmod_bits_of_rest(t: Seq<char>) -> int {
    let digits = if t.len() > 0 && t[0] == '+' {
        t.drop_first()
    } else {
        t
    };
    let parsed = if digits.len() == 0 {
        None
    } else {
        octal_value(digits)
    };
    match parsed {
        Some(v) => if v <= u32::MAX as int {
            v % 512
        } else {
            0o644int
        },
        None => 0o644int,
    }
}

proof fn lemma_octal_nonneg(s: Seq<char>)
    ensures
        octal_value(s) matches Some(v) ==> v >= 0,
    decreases s.len(),
{
    if s.len() > 0 {
        lemma_octal_nonneg(s.drop_last());
    }
}

/// The permission bits for a chmod input.
pub fn parse_chmod_mode(input: &str) -> (r: u32)
    ensures
        r as int == chmod_bits(input@),
{
    let cs = crate::text::chars_of(input);
    let n = cs.len();
    let mut z: usize = 0;
    proof {
        assert(cs@.subrange(0, n as int) == cs@);
    }
    while z < n && cs[z] == '0'
        invariant
            z <= n,
            n == cs.len(),
            after_zeros(cs@) == after_zeros(cs@.subrange(z as int, n as int)),
        decreases n - z,
    {
        proof {
            assert(cs@.subrange(z as int, n as int).drop_first() == cs@.subrange(z + 1, n as int));
        }
        z = z + 1;
    }
    proof {
        assert(cs@.subrange(0, n as int) == cs@);
        let t = cs@.subrange(z as int, n as int);
        if z < n {
            assert(t[0] == cs@[z as int]);
        }
        assert(after_zeros(t) == t);
    }
    if n > 0 && z == n {
        return 0;
    }
    let mut start = z;
    if start < n && cs[start] == '+' {
        start = start + 1;
    }
    proof {
        let t = cs@.subrange(z as int, n as int);
        if z < n && cs@[z as int] == '+' {
            assert(t.drop_first() == cs@.subrange(start as int, n as int));
        }
    }
    proof {
        let t = cs@.subrange(z as int, n as int);
        assert(after_zeros(input@) == t);
        let digits = cs@.subrange(start as int, n as int);
        assert(digits == (if t.len() > 0 && t[0] == '+' {
            t.drop_first()
        } else {
            t
        }));
    }
    if start == n {
        return 0o644;
    }
    let ghost digits = cs@.subrange(start as int, n as int);
    let mut v: u64 = 0;
    let mut i: usize = start;
    while i < n
        invariant
            start < n,
            digits == cs@.subrange(start as int, n as int),
            chmod_bits(input@) == (match octal_value(digits) {
                Some(w) => if w <= u32::MAX as int {
                    w % 512
                } else {
                    0o644int
                },
                None => 0o644int,
            }),
            start <= i <= n,
            n == cs.len(),
            octal_value(cs@.subrange(start as int, i as int)) == Some(v as int),
            v <= u32::MAX,
        decreases n - i,
    {
        proof {
            assert(cs@.subrange(start as int, i + 1).drop_last() == cs@.subrange(start as int, i as int));
        }
        let c = cs[i];
        if c < '0' || c > '7' {
            proof {
                assert(octal_value(cs@.subrange(start as int, i + 1)) is None);
                lemma_octal_none_extends(cs@, start as int, i + 1, n as int);
            }
            return 0o644;
        }
        let d = (c as u32 - '0' as u32) as u64;
        let next = v * 8 + d;
        if next > u32::MAX as u64 {
            proof {
                lemma_octal_grows(cs@, start as int, i + 1, n as int);
            }
            return 0o644;
        }
        v = next;
        i = i + 1;
    }
    (v % 512) as u32
}

proof fn lemma_octal_none_extends(s: Seq<char>, a: int, b: int, n: int)
    requires
        0 <= a <= b <= n <= s.len(),
        octal_value(s.subrange(a, b)) is None,
    ensures
        octal_value(s.subrange(a, n)) is None,
    decreases n - b,
{
    if b < n {
        assert(s.subrange(a, b + 1).drop_last() == s.subrange(a, b));
        lemma_octal_none_extends(s, a, b + 1, n);
    }
}

proof fn lemma_octal_grows(s: Seq<char>, a: int, b: int, n: int)
    requires
        0 <= a <= b <= n <= s.len(),
        octal_value(s.subrange(a, b)) matches Some(v) && v > u32::MAX as int,
    ensures
        octal_value(s.subrange(a, n)) matches Some(v) ==> v > u32::MAX as int,
    decreases n - b,
{
    if b < n {
        assert(s.subrange(a, b + 1).drop_last() == s.subrange(a, b));
        lemma_octal_nonneg(s.subrange(a, b));
        if octal_value(s.subrange(a, b + 1)) is Some {
            lemma_octal_grows(s, a, b + 1, n);
        } else {
            lemma_octal_none_extends(s, a, b + 1, n);
        }
    }
}

} // verus!
