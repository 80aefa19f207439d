//! From what the server says of a directory to the listing shown to the
//! user: names, normalised paths, and the order of the entries.

use vstd::prelude::*;
use crate::text::{
    chars_of, lemma_lex_le_total, lemma_lex_le_transitive, lex_le, lowercase, lowercase_chars,
    chars_le, octal, octal_string, string_of_range, to_unix_separators, unix_separators,
};
use crate::sftp::types::FileInfo;

verus! {

/// What the server tells of one path.
#[derive(Debug, Clone, Copy, PartialEq, Eq, Structural)]
pub struct RemoteStat {
    pub is_dir: bool,
    pub size: Option<u64>,
    pub mtime: Option<u64>,
    pub perm: Option<u32>,
}

/// One entry of a directory as the server hands it out.
#[derive(Debug, Clone, PartialEq, Eq)]
pub struct RemoteEntry {
    pub path: String,
    pub stat: RemoteStat,
}

/// A `FileInfo` as plain values.
pub struct FileInfoView {
    pub name: Seq<char>,
    pub path: Seq<char>,
    pub is_directory: bool,
    pub size: u64,
    pub modified: u64,
    pub permissions: Option<Seq<char>>,
}

impl View for FileInfo {
    type V = FileInfoView;

    open spec fn view(&self) -> FileInfoView {
        FileInfoView {
            name: self.name@,
            path: self.path@,
            is_directory: self.is_directory,
            size: self.size,
            modified: self.modified,
            permissions: match self.permissions {
                Some(p) => Some(p@),
                None => None,
            },
        }
    }
}

/// Index of the last `/` of `s`, or -1 where it has none.
pub open spec fn last_slash(s: Seq<char>) -> int
    decreases s.len(),
{
    if s.len() == 0 {
        -1
    } else if s.last() == '/' {
        s.len() - 1
    } else {
        last_slash(s.drop_last())
    }
}

/// What follows the last `/` of `s`; all of `s` where it has none.
pub open spec fn last_segment(s: Seq<char>) -> Seq<char> {
    s.subrange(last_slash(s) + 1, s.len() as int)
}

/// The name of the file or directory that a `/`-separated path ends in:
/// its last segment, empty segments and `.` passed over; empty where
/// that segment is `..` or there is none.
pub open spec fn base_name(s: Seq<char>) -> Seq<char>
    decreases s.len(),
    via base_name_decreases
{
    let seg = last_segment(s);
    if seg.len() == 0 || seg == seq!['.'] {
        if last_slash(s) < 0 {
            Seq::empty()
        } else {
            base_name(s.subrange(0, last_slash(s)))
        }
    } else if seg == seq!['.', '.'] {
        Seq::empty()
    } else {
        seg
    }
}

#[via_fn]
proof fn base_name_decreases(s: Seq<char>) {
    lemma_last_slash_bounds(s);
}

/// Whether the path names a directory itself or its parent: its last
/// segment is `.` or `..`.
pub open spec fn is_dot_entry(s: Seq<char>) -> bool {
    last_segment(s) == seq!['.'] || last_segment(s) == seq!['.', '.']
}

/// `last_slash` is bounded by the length.
pub proof fn lemma_last_slash_bounds(s: Seq<char>)
    ensures
        -1 <= last_slash(s) < s.len(),
        last_slash(s) >= 0 ==> s[last_slash(s)] == '/',
    decreases s.len(),
{
    if s.len() > 0 && s.last() != '/' {
        lemma_last_slash_bounds(s.drop_last());
    }
}

/// Where nothing from `k + 1` on is a `/`, the last `/` of `s` is that of
/// its first `k + 1` characters.
pub proof fn lemma_last_slash_found(s: Seq<char>, k: int)
    requires
        -1 <= k < s.len(),
        forall|j: int| k < j < s.len() ==> #[trigger] s[j] != '/',
    ensures
        last_slash(s) == last_slash(s.subrange(0, k + 1)),
    decreases s.len() - k,
{
    if k + 1 == s.len() {
        assert(s.subrange(0, k + 1) =~= s);
    } else {
        assert(s.last() != '/');
        let t = s.drop_last();
        assert forall|j: int| k < j < t.len() implies #[trigger] t[j] != '/' by {
            assert(t[j] == s[j]);
        }
        lemma_last_slash_found(t, k);
        assert(t.subrange(0, k + 1) =~= s.subrange(0, k + 1));
    }
}

/// Index of the last `/` among the first `end` characters, as a count:
/// one more than `last_slash`.
fn segment_start(chars: &Vec<char>, end: usize) -> (start: usize)
    requires
        end <= chars.len(),
    ensures
        start == last_slash(chars@.subrange(0, end as int)) + 1,
        start <= end,
{
    let ghost s = chars@.subrange(0, end as int);
    let mut i: usize = end;
    while i > 0 && chars[i - 1] != '/'
        invariant
            i <= end <= chars.len(),
            s == chars@.subrange(0, end as int),
            forall|j: int| i <= j < end ==> #[trigger] s[j] != '/',
        decreases i,
    {
        i -= 1;
    }
    proof {
        lemma_last_slash_found(s, i as int - 1);
        let head = s.subrange(0, i as int);
        if i > 0 {
            assert(head.last() == chars@[i as int - 1]);
        }
    }
    i
}

/// The name that a `/`-separated path ends in.
pub fn file_name_of(path: &str) -> (name: String)
    ensures
        name@ == base_name(path@),
{
    let chars = chars_of(path);
    let mut end: usize = chars.len();
    proof {
        assert(chars@.subrange(0, end as int) =~= path@);
    }
    loop
        invariant
            end <= chars.len(),
            chars@ == path@,
            base_name(path@) == base_name(chars@.subrange(0, end as int)),
        decreases end,
    {
        let ghost s = chars@.subrange(0, end as int);
        let start = segment_start(&chars, end);
        let len: usize = end - start;
        proof {
            lemma_last_slash_bounds(s);
            assert(last_segment(s) =~= chars@.subrange(start as int, end as int));
        }
        let plain = !(len == 0 || (len == 1 && chars[start] == '.'));
        if plain {
            if len == 2 && chars[start] == '.' && chars[start + 1] == '.' {
                proof {
                    assert(last_segment(s) =~= seq!['.', '.']);
                }
                return String::new();
            }
            proof {
                let seg = last_segment(s);
                if seg == seq!['.', '.'] {
                    assert(seg.len() == 2 && seg[0] == '.' && seg[1] == '.');
                }
                if seg == seq!['.'] {
                    assert(seg.len() == 1 && seg[0] == '.');
                }
            }
            return string_of_range(&chars, start, end);
        }
        proof {
            let seg = last_segment(s);
            if len == 1 {
                assert(seg =~= seq!['.']);
            }
        }
        if start == 0 {
            return String::new();
        }
        proof {
            assert(s.subrange(0, start as int - 1) =~= chars@.subrange(0, start as int - 1));
        }
        end = start - 1;
    }
}

/// Tells whether a path names a directory itself or its parent.
pub fn path_is_dot_entry(path: &str) -> (b: bool)
    ensures
        b == is_dot_entry(path@),
{
    let chars = chars_of(path);
    let end: usize = chars.len();
    let start = segment_start(&chars, end);
    let len: usize = end - start;
    proof {
        assert(chars@.subrange(0, end as int) =~= path@);
        lemma_last_slash_bounds(path@);
        let seg = last_segment(path@);
        assert(seg =~= chars@.subrange(start as int, end as int));
        if seg == seq!['.', '.'] {
            assert(seg.len() == 2 && seg[0] == '.' && seg[1] == '.');
        }
        if seg == seq!['.'] {
            assert(seg.len() == 1 && seg[0] == '.');
        }
        if len == 1 && chars@[start as int] == '.' {
            assert(seg =~= seq!['.']);
        }
        if len == 2 && chars@[start as int] == '.' && chars@[start as int + 1] == '.' {
            assert(seg =~= seq!['.', '.']);
        }
    }
    (len == 1 && chars[start] == '.') || (len == 2 && chars[start] == '.' && chars[start + 1]
        == '.')
}

/// What the listing shows for a path with the given attributes: the name
/// the path ends in, the path with forward slashes, the size and the
/// modification time in seconds (zero where the server gives none), and
/// the permission bits in octal.
pub open spec fn info_of(path: Seq<char>, stat: RemoteStat) -> FileInfoView {
    FileInfoView {
        name: base_name(path),
        path: unix_separators(path),
        is_directory: stat.is_dir,
        size: match stat.size {
            Some(n) => n,
            None => 0,
        },
        modified: match stat.mtime {
            Some(t) => t,
            None => 0,
        },
        permissions: match stat.perm {
            Some(p) => Some(octal(p as nat)),
            None => None,
        },
    }
}

/// Describes one path from the attributes the server gave for it.
pub fn file_info(path: &str, stat: &RemoteStat) -> (info: FileInfo)
    ensures
        info@ == info_of(path@, *stat),
{
    let permissions = match stat.perm {
        Some(p) => Some(octal_string(p)),
        None => None,
    };
    FileInfo {
        name: file_name_of(path),
        path: to_unix_separators(path),
        is_directory: stat.is_dir,
        size: match stat.size {
            Some(n) => n,
            None => 0,
        },
        modified: match stat.mtime {
            Some(t) => t,
            None => 0,
        },
        permissions,
    }
}

/// Whether `a` may stand before `b` in a listing: directories before
/// files, and within each kind by lower-cased name.
pub open spec fn listed_le(a: FileInfoView, b: FileInfoView) -> bool {
    if a.is_directory != b.is_directory {
        a.is_directory
    } else {
        lex_le(lowercase(a.name), lowercase(b.name))
    }
}

/// Of any two entries one may stand before the other.
pub proof fn lemma_listed_le_total(a: FileInfoView, b: FileInfoView)
    ensures
        listed_le(a, b) || listed_le(b, a),
{
    lemma_lex_le_total(lowercase(a.name), lowercase(b.name));
}

/// The order of a listing is transitive.
pub proof fn lemma_listed_le_transitive(a: FileInfoView, b: FileInfoView, c: FileInfoView)
    requires
        listed_le(a, b),
        listed_le(b, c),
    ensures
        listed_le(a, c),
{
    if a.is_directory == b.is_directory && b.is_directory == c.is_directory {
        lemma_lex_le_transitive(lowercase(a.name), lowercase(b.name), lowercase(c.name));
    }
}

/// The views of the entries, in order.
pub open spec fn views(items: Seq<FileInfo>) -> Seq<FileInfoView> {
    Seq::new(items.len(), |i: int| items[i]@)
}

/// `order` lists each index from `lo` up to `hi` exactly once.
pub open spec fn is_arrangement(order: Seq<int>, lo: int, hi: int) -> bool {
    &&& order.len() == hi - lo
    &&& forall|i: int| 0 <= i < order.len() ==> lo <= #[trigger] order[i] < hi
    &&& forall|i: int, j: int|
        0 <= i < j < order.len() ==> #[trigger] order[i] != #[trigger] order[j]
}

/// `dst` holds the entries `src[order[0]]`, `src[order[1]]`, ... ; it is in
/// listing order; and entries that may stand either way round keep the
/// order they had in `src`.
pub open spec fn sorts_by(order: Seq<int>, src: Seq<FileInfoView>, dst: Seq<FileInfoView>) -> bool {
    &&& dst.len() == order.len()
    &&& forall|i: int| 0 <= i < dst.len() ==> 0 <= #[trigger] order[i] < src.len()
    &&& forall|i: int| 0 <= i < dst.len() ==> #[trigger] dst[i] == src[order[i]]
    &&& forall|i: int, j: int|
        0 <= i < j < dst.len() ==> listed_le(#[trigger] dst[i], #[trigger] dst[j])
    &&& forall|i: int, j: int|
        0 <= i < j < dst.len() && listed_le(dst[j], dst[i]) ==> #[trigger] order[i]
            < #[trigger] order[j]
}

/// `dst` is `src` sorted into listing order without reordering entries
/// that may stand either way round.
pub open spec fn is_stable_sort_of(src: Seq<FileInfoView>, dst: Seq<FileInfoView>) -> bool {
    exists|order: Seq<int>|
        is_arrangement(order, 0, src.len() as int) && #[trigger] sorts_by(order, src, dst)
}

fn entry_le(a_dir: bool, a_key: &Vec<char>, b_dir: bool, b_key: &Vec<char>) -> (r: bool)
    ensures
        r == (if a_dir != b_dir {
            a_dir
        } else {
            lex_le(a_key@, b_key@)
        }),
{
    if a_dir != b_dir {
        a_dir
    } else {
        chars_le(a_key, b_key)
    }
}

/// Sorts a listing: directories first, then by lower-cased name; entries
/// that compare alike keep their order.
pub fn sort_listing(items: Vec<FileInfo>) -> (out: Vec<FileInfo>)
    ensures
        is_stable_sort_of(views(items@), views(out@)),
{
    let ghost src = views(items@);
    let ghost n = items.len() as int;
    let mut rest = items;
    let mut out: Vec<FileInfo> = Vec::new();
    let mut keys: Vec<Vec<char>> = Vec::new();
    let ghost mut order: Seq<int> = Seq::empty();
    while rest.len() > 0
        invariant
            rest.len() <= n,
            src.len() == n,
            forall|i: int| 0 <= i < rest.len() ==> (#[trigger] rest@[i])@ == src[i],
            keys.len() == out.len(),
            forall|i: int| 0 <= i < out.len() ==> (#[trigger] keys@[i])@ == lowercase(out@[i].name@),
            is_arrangement(order, rest.len() as int, n),
            sorts_by(order, src, views(out@)),
        decreases rest.len(),
    {
        let ghost k = rest.len() as int - 1;
        let ghost old_out = views(out@);
        let ghost old_order = order;
        let item = rest.pop().unwrap();
        let key = lowercase_chars(item.name.as_str());
        let ghost x = item@;
        assert(x == src[k]);
        // The entry goes before the first one that it may stand before.
        let mut p: usize = 0;
        while p < out.len() && !entry_le(item.is_directory, &key, out[p].is_directory, &keys[p])
            invariant
                p <= out.len(),
                keys.len() == out.len(),
                x == item@,
                key@ == lowercase(x.name),
                old_out == views(out@),
                forall|i: int| 0 <= i < out.len() ==> (#[trigger] keys@[i])@ == lowercase(out@[i].name@),
                forall|i: int| 0 <= i < p ==> !listed_le(x, #[trigger] old_out[i]),
            decreases out.len() - p,
        {
            assert(old_out[p as int] == out@[p as int]@);
            p += 1;
        }
        proof {
            if p < out.len() {
                assert(old_out[p as int] == out@[p as int]@);
                assert(listed_le(x, old_out[p as int]));
            }
        }
        let ghost old_keys = keys@;
        let ghost old_items = out@;
        out.insert(p, item);
        keys.insert(p, key);
        proof {
            order = old_order.insert(p as int, k);
            let new_out = views(out@);
            assert(new_out =~= old_out.insert(p as int, x));
            assert forall|i: int| 0 <= i < out.len() implies (#[trigger] keys@[i])@ == lowercase(
                out@[i].name@,
            ) by {
                if i < p {
                    assert(keys@[i] == old_keys[i] && out@[i] == old_items[i]);
                } else if i > p {
                    assert(keys@[i] == old_keys[i - 1] && out@[i] == old_items[i - 1]);
                }
            }
            // What stood before the new entry may stand before it; what
            // stands after it comes after it in listing order.
            assert forall|i: int| 0 <= i < p implies listed_le(#[trigger] old_out[i], x) by {
                lemma_listed_le_total(old_out[i], x);
            }
            assert forall|i: int| p <= i < old_out.len() implies listed_le(x, #[trigger] old_out[i]) by {
                if i > p {
                    assert(listed_le(old_out[p as int], old_out[i]));
                    lemma_listed_le_transitive(x, old_out[p as int], old_out[i]);
                }
            }
            assert forall|i: int| 0 <= i < order.len() implies k <= #[trigger] order[i] < n by {
                if i < p {
                    assert(order[i] == old_order[i]);
                } else if i > p {
                    assert(order[i] == old_order[i - 1]);
                }
            }
            assert forall|i: int, j: int| 0 <= i < j < order.len() implies #[trigger] order[i]
                != #[trigger] order[j] by {
                let a = if i < p { i } else { i - 1 };
                let b = if j < p { j } else { j - 1 };
                if i != p && j != p {
                    assert(order[i] == old_order[a] && order[j] == old_order[b]);
                    assert(old_order[a] != old_order[b]);
                } else if i == p {
                    assert(order[j] == old_order[b]);
                    assert(old_order[b] > k);
                } else {
                    assert(order[i] == old_order[a]);
                    assert(old_order[a] > k);
                }
            }
            assert forall|i: int| 0 <= i < new_out.len() implies #[trigger] new_out[i]
                == src[order[i]] by {
                if i < p {
                    assert(new_out[i] == old_out[i] && order[i] == old_order[i]);
                } else if i > p {
                    assert(new_out[i] == old_out[i - 1] && order[i] == old_order[i - 1]);
                }
            }
            assert forall|i: int, j: int| 0 <= i < j < new_out.len() implies listed_le(
                #[trigger] new_out[i],
                #[trigger] new_out[j],
            ) by {
                let a = if i < p { i } else { i - 1 };
                let b = if j < p { j } else { j - 1 };
                if i != p && j != p {
                    assert(new_out[i] == old_out[a] && new_out[j] == old_out[b]);
                    assert(listed_le(old_out[a], old_out[b]));
                } else if i == p {
                    assert(new_out[j] == old_out[b]);
                } else {
                    assert(new_out[i] == old_out[a]);
                }
            }
            assert forall|i: int, j: int|
                0 <= i < j < new_out.len() && listed_le(new_out[j], new_out[i]) implies #[trigger] order[i]
                < #[trigger] order[j] by {
                let a = if i < p { i } else { i - 1 };
                let b = if j < p { j } else { j - 1 };
                if i != p && j != p {
                    assert(new_out[i] == old_out[a] && new_out[j] == old_out[b]);
                    assert(order[i] == old_order[a] && order[j] == old_order[b]);
                    assert(listed_le(old_out[b], old_out[a]));
                    assert(old_order[a] < old_order[b]);
                } else if i == p {
                    assert(order[j] == old_order[b]);
                    assert(old_order[b] > k);
                } else {
                    assert(new_out[i] == old_out[a]);
                    assert(!listed_le(x, old_out[a]));
                }
            }
        }
    }
    out
}

} // verus!
