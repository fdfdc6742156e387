//! Browsing a zip archive as a directory tree: the listing at a prefix,
//! prefix arithmetic, and reading one member as lines of text.
use vstd::prelude::*;
use std::io::Cursor;
use std::io::Read;
use zip::ZipArchive;
use crate::entry::{is_dot_name, starts_with_dot, views, Entry, EntryView, SortMode};
use crate::order::{is_sorted, sort_entries, stable_arrangement};
use crate::paths::{lemma_trim_end_at, parent, path_parent, trim_end};
use crate::text::{chars_of, contains_text, push_char};

verus! {

#[verifier::external_type_specification]
#[verifier::external_body]
#[verifier::reject_recursive_types(T)]
pub struct ExCursor<T>(Cursor<T>);

#[verifier::external_type_specification]
#[verifier::external_body]
#[verifier::reject_recursive_types(R)]
pub struct ExZipArchive<R>(ZipArchive<R>);

/// An archive's member as its central directory gives it: name,
/// uncompressed size, and whether zip takes it for a directory.
#[derive(Debug, Clone)]
pub struct ArchiveRecord {
    pub name: String,
    pub size: u64,
    pub is_dir: bool,
}

pub open spec fn record_view(r: ArchiveRecord) -> (Seq<char>, u64, bool) {
    (r.name@, r.size, r.is_dir)
}

pub open spec fn record_views(v: Seq<ArchiveRecord>) -> Seq<(Seq<char>, u64, bool)> {
    v.map_values(|x: ArchiveRecord| record_view(x))
}

/// The members that zip reads from an archive's bytes, in directory order.
pub uninterp spec fn zip_directory(data: Seq<u8>) -> Seq<(Seq<char>, u64, bool)>;

/// The members that an opened archive holds, in directory order.
pub uninterp spec fn archive_members(a: ZipArchive<Cursor<Vec<u8>>>) -> Seq<(Seq<char>, u64, bool)>;

/// The uncompressed bytes that zip reads for the member `name`.
pub uninterp spec fn zip_member_bytes(data: Seq<u8>, name: Seq<char>) -> Seq<u8>;

/// Whether zip opens an archive from these bytes.
pub uninterp spec fn zip_opens(data: Seq<u8>) -> bool;

/// The bytes that an opened archive reads from.
pub uninterp spec fn archive_bytes(a: ZipArchive<Cursor<Vec<u8>>>) -> Seq<u8>;

/// Whether zip reads the member at index `i`, with its name, from the
/// archive in these bytes.
pub uninterp spec fn zip_entry_readable(data: Seq<u8>, i: int) -> bool;

/// Whether zip finds the member `name` in the archive in these bytes and
/// reads its contents to the end.
pub uninterp spec fn zip_member_readable(data: Seq<u8>, name: Seq<char>) -> bool;

/// The archive in these bytes opens and each of its members can be read.
pub open spec fn zip_listable(data: Seq<u8>) -> bool {
    &&& zip_opens(data)
    &&& forall|i: int| 0 <= i < zip_directory(data).len() ==> #[trigger] zip_entry_readable(data, i)
}

/// The text `String::from_utf8_lossy` makes of some bytes.
pub uninterp spec fn lossy_text(b: Seq<u8>) -> Seq<char>;

/// Relies on `zip::ZipArchive::new`: the archive's members are those of its
/// central directory, read from the given bytes; an error when the bytes
/// are no readable archive.
#[verifier::external_body]
fn open_archive(data: &Vec<u8>) -> (r: Result<ZipArchive<Cursor<Vec<u8>>>, String>)
    ensures
        r is Ok <==> zip_opens(data@),
        r matches Ok(a) ==> archive_members(a) == zip_directory(data@) && archive_bytes(a)
            == data@,
{
    ZipArchive::new(Cursor::new(data.clone())).map_err(|e| e.to_string())
}

/// Relies on `zip::ZipArchive::len`: the number of members.
#[verifier::external_body]
fn member_count(a: &ZipArchive<Cursor<Vec<u8>>>) -> (r: usize)
    ensures
        r == archive_members(*a).len(),
{
    a.len()
}

/// Relies on `zip::ZipArchive::by_index` and the `name`, `size` and
/// `is_dir` of the member it returns: the member at index `i`.
#[verifier::external_body]
fn member_at(a: &mut ZipArchive<Cursor<Vec<u8>>>, i: usize) -> (r: Result<ArchiveRecord, String>)
    requires
        i < archive_members(*old(a)).len(),
    ensures
        archive_members(*final(a)) == archive_members(*old(a)),
        archive_bytes(*final(a)) == archive_bytes(*old(a)),
        r is Ok <==> zip_entry_readable(archive_bytes(*old(a)), i as int),
        r matches Ok(rec) ==> record_view(rec) == archive_members(*old(a))[i as int],
{
    let f = a.by_index(i).map_err(|e| e.to_string())?;
    let name = f.name().map_err(|e| e.to_string())?.to_string();
    Ok(ArchiveRecord { name, size: f.size(), is_dir: f.is_dir() })
}

/// Relies on `zip::ZipArchive::new`, `by_name` and `Read::read_to_end`: the
/// uncompressed bytes of the member `name`; an error when the archive is
/// unreadable or holds no such member.
#[verifier::external_body]
fn member_bytes(data: &Vec<u8>, name: &str) -> (r: Result<Vec<u8>, String>)
    ensures
        r is Ok <==> zip_member_readable(data@, name@),
        r matches Ok(b) ==> b@ == zip_member_bytes(data@, name@),
{
    let mut archive = ZipArchive::new(Cursor::new(data.as_slice())).map_err(|e| e.to_string())?;
    let mut member = archive.by_name(name).map_err(|e| e.to_string())?;
    let mut buf = Vec::new();
    member.read_to_end(&mut buf).map_err(|e| e.to_string())?;
    Ok(buf)
}

/// Relies on `String::from_utf8_lossy`: the text decoded from the bytes,
/// invalid sequences replaced.
#[verifier::external_body]
fn decode_lossy(b: &Vec<u8>) -> (r: String)
    ensures
        r@ == lossy_text(b@),
{
    String::from_utf8_lossy(b.as_slice()).to_string()
}

/// What precedes the first `c` of `s`; all of `s` when it holds none.
pub open spec fn before_first(s: Seq<char>, c: char) -> Seq<char>
    decreases s.len(),
{
    if s.len() == 0 {
        s
    } else if s[0] == c {
        Seq::empty()
    } else {
        seq![s[0]] + before_first(s.drop_first(), c)
    }
}

pub proof fn lemma_before_first_at(s: Seq<char>, c: char, j: int)
    requires
        0 <= j <= s.len(),
        j < s.len() ==> s[j] == c,
        forall|k: int| 0 <= k < j ==> s[k] != c,
    ensures
        before_first(s, c) == s.subrange(0, j),
    decreases s.len(),
{
    if s.len() == 0 {
    } else if j == 0 {
    } else {
        lemma_before_first_at(s.drop_first(), c, j - 1);
        assert(s.subrange(0, j) == seq![s[0]] + s.drop_first().subrange(0, j - 1));
    }
}

/// First `c` at or after `start`.
fn find_from(s: &Vec<char>, start: usize, c: char) -> (r: Option<usize>)
    requires
        start <= s.len(),
    ensures
        r matches Some(j) ==> start <= j < s.len() && s@[j as int] == c && forall|k: int|
            start <= k < j ==> s@[k] != c,
        r is None ==> forall|k: int| start <= k < s.len() ==> s@[k] != c,
{
    let mut j = start;
    while j < s.len()
        invariant
            start <= j <= s.len(),
            forall|k: int| start <= k < j ==> s@[k] != c,
        decreases s.len() - j,
    {
        if s[j] == c {
            return Some(j);
        }
        j = j + 1;
    }
    None
}

pub open spec fn dir_view(d: Seq<char>) -> EntryView {
    EntryView { name: d, path: d, is_dir: true, size: 0, modified: None, is_system: is_dot_name(d) }
}

pub open spec fn has_prefix(s: Seq<char>, prefix: Seq<char>) -> bool {
    prefix.len() <= s.len() && s.subrange(0, prefix.len() as int) == prefix
}

/// One member's effect on an archive listing at `prefix`: members outside
/// the prefix, and the prefix's own directory, add nothing; a member below
/// a subdirectory adds that subdirectory once; any other member is a leaf
/// with its own size and kind. Hidden names stay out unless shown.
pub open spec fn archive_step(
    st: (Seq<EntryView>, Set<Seq<char>>),
    rec: (Seq<char>, u64, bool),
    prefix: Seq<char>,
    show_hidden: bool,
) -> (Seq<EntryView>, Set<Seq<char>>) {
    let name = rec.0;
    if !has_prefix(name, prefix) {
        st
    } else {
        let rest = name.subrange(prefix.len() as int, name.len() as int);
        if rest.len() == 0 {
            st
        } else if rest.contains('/') {
            let d = before_first(rest, '/');
            if !show_hidden && is_dot_name(d) {
                st
            } else if st.1.contains(d) {
                st
            } else {
                (st.0.push(dir_view(d)), st.1.insert(d))
            }
        } else if !show_hidden && is_dot_name(rest) {
            st
        } else {
            (
                st.0.push(
                    EntryView {
                        name: rest,
                        path: rest,
                        is_dir: rec.2,
                        size: rec.1,
                        modified: None,
                        is_system: is_dot_name(rest),
                    },
                ),
                st.1,
            )
        }
    }
}

/// The entries that the members give at `prefix`, in directory order, with
/// the set of subdirectory names seen.
pub open spec fn archive_collect(
    members: Seq<(Seq<char>, u64, bool)>,
    prefix: Seq<char>,
    show_hidden: bool,
) -> (Seq<EntryView>, Set<Seq<char>>)
    decreases members.len(),
{
    if members.len() == 0 {
        (Seq::empty(), Set::empty())
    } else {
        archive_step(
            archive_collect(members.drop_last(), prefix, show_hidden),
            members.last(),
            prefix,
            show_hidden,
        )
    }
}

/// The listing of an archive's members at `prefix`: one entry per leaf and
/// per distinct subdirectory, directories first, then by name without
/// regard to case, members of equal rank in directory order.
pub fn list_archive(records: &Vec<ArchiveRecord>, prefix: &str, show_hidden: bool) -> (r: Vec<
    Entry,
>)
    ensures
        is_sorted(views(r@), SortMode::NameAsc, true),
        exists|p: Seq<int>|
            stable_arrangement(
                views(r@),
                archive_collect(record_views(records@), prefix@, show_hidden).0,
                p,
                SortMode::NameAsc,
                true,
            ),
{
    let ghost members = record_views(records@);
    let ps = chars_of(prefix);
    let plen = ps.len();
    let mut v: Vec<Entry> = Vec::new();
    let mut seen: Vec<String> = Vec::new();
    let mut i: usize = 0;
    while i < records.len()
        invariant
            i <= records.len(),
            members == record_views(records@),
            ps@ == prefix@,
            plen == ps.len(),
            views(v@) == archive_collect(members.subrange(0, i as int), prefix@, show_hidden).0,
            forall|d: Seq<char>|
                archive_collect(members.subrange(0, i as int), prefix@, show_hidden).1.contains(d)
                    <==> exists|k: int| 0 <= k < seen.len() && #[trigger] seen@[k]@ == d,
        decreases records.len() - i,
    {
        let ghost st = archive_collect(members.subrange(0, i as int), prefix@, show_hidden);
        let ghost before = v@;
        let ghost seen_before = seen@;
        proof {
            assert(members.subrange(0, i + 1).drop_last() == members.subrange(0, i as int));
            assert(members.subrange(0, i + 1).last() == record_view(records@[i as int]));
        }
        let rec = &records[i];
        let cs = chars_of(rec.name.as_str());
        let mut matches = plen <= cs.len();
        let mut k: usize = 0;
        while matches && k < plen
            invariant
                plen == ps.len(),
                k <= plen,
                matches ==> plen <= cs.len(),
                matches ==> forall|m: int| 0 <= m < k ==> cs@[m] == ps@[m],
                !matches ==> !has_prefix(cs@, ps@),
            decreases plen - k + (if matches { 1int } else { 0int }),
        {
            if cs[k] != ps[k] {
                matches = false;
                proof {
                    assert(cs@.subrange(0, plen as int)[k as int] != ps@[k as int]);
                }
            } else {
                k = k + 1;
            }
        }
        proof {
            if matches {
                assert(cs@.subrange(0, plen as int) == ps@);
            }
        }
        if matches && plen < cs.len() {
            let ghost rest = cs@.subrange(plen as int, cs.len() as int);
            match find_from(&cs, plen, '/') {
                Some(j) => {
                    proof {
                        assert(rest[j - plen] == '/');
                        assert(rest.contains('/'));
                        lemma_before_first_at(rest, '/', j - plen);
                        assert(rest.subrange(0, j - plen) == cs@.subrange(plen as int, j as int));
                    }
                    let d = String::from_str(rec.name.as_str().substring_char(plen, j));
                    let hidden = starts_with_dot(d.as_str());
                    if (show_hidden || !hidden) && !contains_text(&seen, &d) {
                        let path = d.clone();
                        let name = d.clone();
                        v.push(
                            Entry {
                                name,
                                path,
                                is_dir: true,
                                size: 0,
                                modified: None,
                                is_system: hidden,
                            },
                        );
                        seen.push(d);
                        proof {
                            assert(views(v@) == views(before).push(dir_view(d@)));
                            assert forall|e: Seq<char>|
                                st.1.insert(d@).contains(e) implies exists|m: int|
                                0 <= m < seen.len() && #[trigger] seen@[m]@ == e by {
                                if e == d@ {
                                    assert(seen@[seen.len() - 1]@ == e);
                                } else {
                                    let m = choose|m: int|
                                        0 <= m < seen_before.len() && #[trigger] seen_before[m]@ == e;
                                    assert(seen@[m]@ == e);
                                }
                            }
                            assert forall|e: Seq<char>|
                                (exists|m: int| 0 <= m < seen.len() && #[trigger] seen@[m]@ == e) implies st.1.insert(d@).contains(e) by {
                                let m = choose|m: int| 0 <= m < seen.len() && #[trigger] seen@[m]@ == e;
                                if m < seen_before.len() {
                                    assert(seen_before[m]@ == e);
                                }
                            }
                        }
                    }
                },
                None => {
                    proof {
                        if rest.contains('/') {
                            let m = choose|m: int| 0 <= m < rest.len() && rest[m] == '/';
                            assert(cs@[plen + m] == '/');
                        }
                    }
                    let base = String::from_str(rec.name.as_str().substring_char(plen, cs.len()));
                    let hidden = starts_with_dot(base.as_str());
                    if show_hidden || !hidden {
                        let path = base.clone();
                        v.push(
                            Entry {
                                name: base,
                                path,
                                is_dir: rec.is_dir,
                                size: rec.size,
                                modified: None,
                                is_system: hidden,
                            },
                        );
                        proof {
                            assert(views(v@) == views(before).push(v@.last()@));
                        }
                    }
                },
            }
        }
        i = i + 1;
    }
    proof {
        assert(members.subrange(0, records.len() as int) == members);
    }
    sort_entries(&v, SortMode::NameAsc, true)
}

/// The prefix one level up: `None` at the archive's root.
pub open spec fn parent_prefix(prefix: Seq<char>) -> Option<Seq<char>> {
    match path_parent(trim_end(prefix, '/')) {
        None => None,
        Some(q) => if q.len() == 0 {
            Some(Seq::empty())
        } else {
            Some(q.push('/'))
        },
    }
}

/// The prefix of a subdirectory named `child` below `prefix`.
pub open spec fn child_prefix(prefix: Seq<char>, child: Seq<char>) -> Seq<char> {
    prefix + child + seq!['/']
}

/// A prefix that names a directory of the archive: empty, or ending in
/// exactly one separator.
pub open spec fn is_dir_prefix(prefix: Seq<char>) -> bool {
    prefix.len() == 0 || (prefix.len() >= 2 && prefix.last() == '/' && prefix[prefix.len() - 2]
        != '/')
}

/// The prefix one level up from `prefix`, or `None` at the root.
pub fn zip_parent_prefix(prefix: &str) -> (r: Option<String>)
    ensures
        r matches Some(q) ==> parent_prefix(prefix@) == Some(q@),
        r is None ==> parent_prefix(prefix@) is None,
{
    let cs = chars_of(prefix);
    let mut t: usize = cs.len();
    while t > 0 && cs[t - 1] == '/'
        invariant
            t <= cs.len(),
            forall|k: int| t <= k < cs.len() ==> cs@[k] == '/',
        decreases t,
    {
        t = t - 1;
    }
    proof {
        lemma_trim_end_at(cs@, '/', t as int);
    }
    let trimmed = String::from_str(prefix.substring_char(0, t));
    match parent(trimmed.as_str()) {
        None => None,
        Some(q) => {
            if q.unicode_len() == 0 {
                Some(String::new())
            } else {
                let mut r = q;
                push_char(&mut r, '/');
                Some(r)
            }
        },
    }
}

/// The prefix of the subdirectory `entry_path` below `prefix`.
pub fn zip_child_prefix(prefix: &str, entry_path: &str) -> (r: String)
    ensures
        r@ == child_prefix(prefix@, entry_path@),
{
    let mut r = String::from_str(prefix).concat(entry_path);
    push_char(&mut r, '/');
    r
}

/// Going down into a subdirectory and back up returns to the prefix one
/// started from; the root has no parent.
pub proof fn lemma_prefix_round_trip(prefix: Seq<char>, child: Seq<char>)
    requires
        is_dir_prefix(prefix),
        child.len() > 0,
        !child.contains('/'),
    ensures
        parent_prefix(child_prefix(prefix, child)) == Some(prefix),
        parent_prefix(Seq::empty()) is None,
{
    let c = child_prefix(prefix, child);
    let t = prefix + child;
    assert(c.drop_last() == t);
    assert(t.last() == child.last());
    assert(child.contains(child.last()));
    assert(trim_end(t, '/') == t);
    assert(trim_end(c, '/') == t);
    let pl = prefix.len() as int;
    if prefix.len() == 0 {
        assert(t == child);
        assert(path_parent(t) == Some(Seq::<char>::empty()));
    } else {
        assert(t[pl - 1] == '/');
        assert forall|k: int| pl <= k < t.len() implies t[k] != '/' by {
            assert(t[k] == child[k - pl]);
        }
        crate::paths::lemma_before_last_at(t, '/', pl);
        assert(t.contains('/'));
        let u = prefix.drop_last();
        assert(t.subrange(0, pl - 1) == u);
        assert(u.last() != '/');
        assert(trim_end(u, '/') == u);
        assert(u.push('/') == prefix);
    }
    assert(trim_end(Seq::<char>::empty(), '/') == Seq::<char>::empty());
}

/// The lines of `s` from a line that starts at `start`, scanning from `i`:
/// split at each newline, a carriage return before a newline dropped, and
/// no empty line after a final newline.
pub open spec fn lines_scan(s: Seq<char>, start: int, i: int) -> Seq<Seq<char>>
    decreases s.len() - i,
{
    if i >= s.len() {
        if start < s.len() {
            seq![s.subrange(start, s.len() as int)]
        } else {
            Seq::empty()
        }
    } else if s[i] == '\n' {
        let line = s.subrange(start, i);
        let shown = if line.len() > 0 && line.last() == '\r' {
            line.drop_last()
        } else {
            line
        };
        seq![shown] + lines_scan(s, i + 1, i + 1)
    } else {
        lines_scan(s, start, i + 1)
    }
}

/// The lines of a text as `str::lines` gives them.
pub open spec fn lines_of(s: Seq<char>) -> Seq<Seq<char>> {
    lines_scan(s, 0, 0)
}

pub open spec fn text_views(v: Seq<String>) -> Seq<Seq<char>> {
    v.map_values(|s: String| s@)
}

/// Splits a text into its lines.
pub fn split_lines(text: &str) -> (r: Vec<String>)
    ensures
        text_views(r@) == lines_of(text@),
{
    let cs = chars_of(text);
    let n = cs.len();
    let mut out: Vec<String> = Vec::new();
    let mut start: usize = 0;
    let mut i: usize = 0;
    while i < n
        invariant
            n == cs.len(),
            cs@ == text@,
            start <= i <= n,
            lines_of(text@) == text_views(out@) + lines_scan(cs@, start as int, i as int),
        decreases n - i,
    {
        if cs[i] == '\n' {
            let end = if i > start && cs[i - 1] == '\r' {
                i - 1
            } else {
                i
            };
            let line = String::from_str(text.substring_char(start, end));
            let ghost before = out@;
            out.push(line);
            proof {
                let l = cs@.subrange(start as int, i as int);
                if i > start && cs@[i - 1] == '\r' {
                    assert(l.drop_last() == cs@.subrange(start as int, end as int));
                } else {
                    assert(l == cs@.subrange(start as int, end as int));
                }
                assert(text_views(out@) == text_views(before).push(line@));
                assert(text_views(out@) + lines_scan(cs@, i + 1, i + 1) == text_views(before) + (
                seq![line@] + lines_scan(cs@, i + 1, i + 1)));
            }
            start = i + 1;
        }
        i = i + 1;
    }
    if start < n {
        let line = String::from_str(text.substring_char(start, n));
        let ghost before = out@;
        out.push(line);
        proof {
            assert(text_views(out@) == text_views(before).push(line@));
        }
    }
    out
}

/// The members of an archive, read from its bytes.
pub fn read_zip_records(data: &Vec<u8>) -> (r: Result<Vec<ArchiveRecord>, String>)
    ensures
        r is Ok <==> zip_listable(data@),
        r matches Ok(v) ==> record_views(v@) == zip_directory(data@),
{
    let mut archive = match open_archive(data) {
        Ok(a) => a,
        Err(e) => {
            return Err(e);
        },
    };
    let n = member_count(&archive);
    let ghost members = archive_members(archive);
    let mut v: Vec<ArchiveRecord> = Vec::new();
    let mut i: usize = 0;
    while i < n
        invariant
            n == members.len(),
            members == zip_directory(data@),
            archive_members(archive) == members,
            archive_bytes(archive) == data@,
            zip_opens(data@),
            forall|j: int| 0 <= j < i ==> #[trigger] zip_entry_readable(data@, j),
            i <= n,
            record_views(v@) == members.subrange(0, i as int),
        decreases n - i,
    {
        let rec = match member_at(&mut archive, i) {
            Ok(rec) => rec,
            Err(e) => {
                proof {
                    assert(!zip_entry_readable(data@, i as int));
                }
                return Err(e);
            },
        };
        let ghost before = v@;
        v.push(rec);
        proof {
            assert(record_views(v@) == record_views(before).push(record_view(rec)));
            assert(record_views(v@) =~= members.subrange(0, i + 1));
        }
        i = i + 1;
    }
    Ok(v)
}

/// The listing of an archive at a prefix, read from the archive's bytes.
pub fn read_zip_entries(data: &Vec<u8>, prefix: &str, show_hidden: bool) -> (r: Result<
    Vec<Entry>,
    String,
>)
    ensures
        r is Ok <==> zip_listable(data@),
        r matches Ok(v) ==> is_sorted(views(v@), SortMode::NameAsc, true) && exists|p: Seq<int>|
            stable_arrangement(
                views(v@),
                archive_collect(zip_directory(data@), prefix@, show_hidden).0,
                p,
                SortMode::NameAsc,
                true,
            ),
{
    match read_zip_records(data) {
        Ok(records) => Ok(list_archive(&records, prefix, show_hidden)),
        Err(e) => Err(e),
    }
}

/// The member `prefix` + `entry_path` of an archive, as lines of text.
pub fn read_zip_file_lines(data: &Vec<u8>, prefix: &str, entry_path: &str) -> (r: Result<
    Vec<String>,
    String,
>)
    ensures
        r is Ok <==> zip_member_readable(data@, prefix@ + entry_path@),
        r matches Ok(v) ==> text_views(v@) == lines_of(
            lossy_text(zip_member_bytes(data@, prefix@ + entry_path@)),
        ),
{
    let full = String::from_str(prefix).concat(entry_path);
    match member_bytes(data, full.as_str()) {
        Ok(bytes) => {
            let text = decode_lossy(&bytes);
            Ok(split_lines(text.as_str()))
        },
        Err(e) => Err(e),
    }
}

/// The lines of a file's contents, decoded leniently.
pub fn read_file_lines(data: &Vec<u8>) -> (r: Vec<String>)
    ensures
        text_views(r@) == lines_of(lossy_text(data@)),
{
    let text = decode_lossy(data);
    split_lines(text.as_str())
}

} // verus!
