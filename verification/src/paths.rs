//! File-name arithmetic on `/`-separated paths: the last component, its
//! extension and its stem, with the meaning `std::path::Path` gives them on
//! Unix.

use vstd::prelude::*;
use crate::text::{chars_eq, chars_of, push_all, push_lit, slice_chars, string_of, trim, trim_chars};

verus! {

/// Index of the last occurrence of `c` in `s`, or -1 when there is none.
pub open spec fn last_index_of(s: Seq<char>, c: char) -> int
    decreases s.len(),
{
    if s.len() == 0 {
        -1
    } else if s.last() == c {
        s.len() - 1
    } else {
        last_index_of(s.drop_last(), c)
    }
}

pub proof fn lemma_last_index_of_bounds(s: Seq<char>, c: char)
    ensures
        -1 <= last_index_of(s, c) < s.len(),
        last_index_of(s, c) >= 0 ==> s[last_index_of(s, c)] == c,
        forall|j: int| last_index_of(s, c) < j < s.len() ==> s[j] != c,
    decreases s.len(),
{
    if s.len() > 0 && s.last() != c {
        lemma_last_index_of_bounds(s.drop_last(), c);
        assert forall|j: int| last_index_of(s, c) < j < s.len() implies s[j] != c by {
            if j < s.len() - 1 {
                assert(s.drop_last()[j] == s[j]);
            }
        }
    }
}

/// The last component of a path, as `Path::file_name` gives it: trailing
/// separators and `.` components are skipped, and a final `..` has none.
pub open spec fn path_file_name(p: Seq<char>) -> Option<Seq<char>>
    decreases p.len(),
{
    let i = last_index_of(p, '/');
    let seg = p.skip(i + 1);
    if seg.len() == 0 || seg == seq!['.'] {
        if i < 0 {
            None
        } else {
            proof {
                lemma_last_index_of_bounds(p, '/');
            }
            path_file_name(p.take(i))
        }
    } else if seg == seq!['.', '.'] {
        None
    } else {
        Some(seg)
    }
}

/// The extension of a file name (`Path::extension` on a file name): the text
/// after the last `.`, unless that dot opens the name or there is none.
pub open spec fn file_extension(f: Seq<char>) -> Option<Seq<char>> {
    let i = last_index_of(f, '.');
    if f == seq!['.', '.'] || i <= 0 {
        None
    } else {
        Some(f.skip(i + 1))
    }
}

/// The stem of a file name (`Path::file_stem` on a file name).
pub open spec fn file_stem(f: Seq<char>) -> Seq<char> {
    let i = last_index_of(f, '.');
    if f == seq!['.', '.'] || i <= 0 {
        f
    } else {
        f.take(i)
    }
}

pub open spec fn path_extension(p: Seq<char>) -> Option<Seq<char>> {
    match path_file_name(p) {
        Some(f) => file_extension(f),
        None => None,
    }
}

pub open spec fn path_stem(p: Seq<char>) -> Option<Seq<char>> {
    match path_file_name(p) {
        Some(f) => Some(file_stem(f)),
        None => None,
    }
}

/// The last index of `c` among the first `end` characters of `s`.
pub fn last_index_before(s: &[char], end: usize, c: char) -> (r: Option<usize>)
    requires
        end <= s@.len(),
    ensures
        match r {
            Some(i) => i as int == last_index_of(s@.take(end as int), c),
            None => last_index_of(s@.take(end as int), c) == -1,
        },
{
    let mut j: usize = end;
    while j > 0
        invariant
            j <= end <= s@.len(),
            last_index_of(s@.take(end as int), c) == last_index_of(s@.take(j as int), c),
        decreases j,
    {
        let ghost t = s@.take(j as int);
        if s[j - 1] == c {
            proof {
                assert(t.last() == c);
            }
            return Some(j - 1);
        }
        proof {
            assert(t.drop_last() =~= s@.take(j - 1));
        }
        j = j - 1;
    }
    None
}

fn is_lit2(s: &[char], from: usize, to: usize, a: char, b: char) -> (r: bool)
    requires
        from <= to <= s@.len(),
    ensures
        r == (s@.subrange(from as int, to as int) == seq![a, b]),
{
    if to - from != 2 {
        proof {
            assert(s@.subrange(from as int, to as int).len() != seq![a, b].len());
        }
        return false;
    }
    let r = s[from] == a && s[from + 1] == b;
    proof {
        if r {
            assert(s@.subrange(from as int, to as int) =~= seq![a, b]);
        } else {
            let t = s@.subrange(from as int, to as int);
            assert(t[0] != seq![a, b][0] || t[1] != seq![a, b][1]);
        }
    }
    r
}

/// Classifies `p[from..to]` as a path component: 0 when it is empty or `.`,
/// 1 when it is `..`, 2 otherwise.
fn segment_kind(p: &[char], from: usize, to: usize) -> (k: u8)
    requires
        from <= to <= p@.len(),
    ensures
        ({
            let seg = p@.subrange(from as int, to as int);
            &&& (k == 0) == (seg.len() == 0 || seg == seq!['.'])
            &&& (k == 1) == (seg == seq!['.', '.'])
            &&& k <= 2
        }),
{
    let ghost seg = p@.subrange(from as int, to as int);
    if to == from {
        proof {
            assert(seg.len() != seq!['.', '.'].len());
        }
        return 0;
    }
    if to - from == 1 {
        proof {
            assert(seg.len() != seq!['.', '.'].len());
        }
        if p[from] == '.' {
            proof {
                assert(seg =~= seq!['.']);
            }
            return 0;
        } else {
            proof {
                assert(seg[0] != seq!['.'][0]);
            }
            return 2;
        }
    }
    proof {
        assert(seg.len() != seq!['.'].len());
    }
    if is_lit2(p, from, to, '.', '.') {
        1
    } else {
        2
    }
}

/// Bounds of the last component of `p` within it, if it has one.
fn file_name_bounds(p: &[char]) -> (r: Option<(usize, usize)>)
    ensures
        match r {
            Some((a, b)) => a <= b <= p@.len() && path_file_name(p@) == Some(
                p@.subrange(a as int, b as int),
            ),
            None => path_file_name(p@) is None,
        },
{
    let mut end: usize = p.len();
    proof {
        assert(p@.take(end as int) =~= p@);
    }
    loop
        invariant
            end <= p@.len(),
            path_file_name(p@) == path_file_name(p@.take(end as int)),
        decreases end,
    {
        let ghost q = p@.take(end as int);
        let slash = last_index_before(p, end, '/');
        proof {
            lemma_last_index_of_bounds(q, '/');
        }
        let start: usize = match slash {
            Some(i) => i + 1,
            None => 0,
        };
        proof {
            lemma_last_index_of_bounds(q, '/');
            assert(q.skip(last_index_of(q, '/') + 1) =~= p@.subrange(start as int, end as int));
        }
        let kind = segment_kind(p, start, end);
        if kind == 0 {
            match slash {
                None => {
                    return None;
                },
                Some(i) => {
                    proof {
                        assert(q.take(i as int) =~= p@.take(i as int));
                    }
                    end = i;
                },
            }
        } else if kind == 1 {
            return None;
        } else {
            return Some((start, end));
        }
    }
}

fn extension_bounds(f: &[char]) -> (r: Option<usize>)
    ensures
        match r {
            Some(a) => a <= f@.len() && file_extension(f@) == Some(f@.skip(a as int)),
            None => file_extension(f@) is None,
        },
{
    let dotdot = is_lit2(f, 0, f.len(), '.', '.');
    proof {
        assert(f@.subrange(0, f@.len() as int) =~= f@);
        lemma_last_index_of_bounds(f@, '.');
        assert(f@.take(f@.len() as int) =~= f@);
    }
    match last_index_before(f, f.len(), '.') {
        None => None,
        Some(i) => {
            if dotdot || i == 0 {
                None
            } else {
                Some(i + 1)
            }
        },
    }
}

/// `Path::new(p).extension()`, as text.
pub fn path_extension_exec(p: &[char]) -> (r: Option<Vec<char>>)
    ensures
        match r {
            Some(v) => path_extension(p@) == Some(v@),
            None => path_extension(p@) is None,
        },
{
    match file_name_bounds(p) {
        None => None,
        Some((a, b)) => {
            let f = slice_chars(p, a, b);
            match extension_bounds(f.as_slice()) {
                None => None,
                Some(x) => Some(slice_chars(f.as_slice(), x, f.len())),
            }
        },
    }
}

/// The last component of `p`, if it has one.
pub fn path_file_name_exec(p: &[char]) -> (r: Option<Vec<char>>)
    ensures
        match r {
            Some(v) => path_file_name(p@) == Some(v@),
            None => path_file_name(p@) is None,
        },
{
    match file_name_bounds(p) {
        None => None,
        Some((a, b)) => Some(slice_chars(p, a, b)),
    }
}

/// `Path::new(p).file_stem()`, as text.
pub fn path_stem_exec(p: &[char]) -> (r: Option<Vec<char>>)
    ensures
        match r {
            Some(v) => path_stem(p@) == Some(v@),
            None => path_stem(p@) is None,
        },
{
    match file_name_bounds(p) {
        None => None,
        Some((a, b)) => {
            let f = slice_chars(p, a, b);
            let fs = f.as_slice();
            let dotdot = is_lit2(fs, 0, fs.len(), '.', '.');
            proof {
                assert(fs@.subrange(0, fs@.len() as int) =~= fs@);
                assert(fs@.take(fs@.len() as int) =~= fs@);
            }
            proof {
                lemma_last_index_of_bounds(fs@, '.');
            }
            match last_index_before(fs, fs.len(), '.') {
                Some(i) => {
                    if dotdot || i == 0 {
                        Some(f)
                    } else {
                        Some(slice_chars(fs, 0, i))
                    }
                },
                None => Some(f),
            }
        },
    }
}

/// The directory that holds generated thumbnails.
pub open spec fn thumbs_dir() -> Seq<char> {
    "storage/files/thumbs"@
}

/// The stem used for thumbnails of a stored file: the file stem of its name,
/// or the name itself when it has none.
pub open spec fn thumb_stem(stored_filename: Seq<char>) -> Seq<char> {
    match path_stem(stored_filename) {
        Some(s) => s,
        None => stored_filename,
    }
}

/// `PathBuf::join` of a relative base and one more piece: a piece that is
/// itself absolute replaces the base.
pub open spec fn path_join(base: Seq<char>, piece: Seq<char>) -> Seq<char> {
    if piece.len() > 0 && piece[0] == '/' {
        piece
    } else {
        base + seq!['/'] + piece
    }
}

pub fn path_join_exec(base: &[char], piece: &[char]) -> (r: Vec<char>)
    ensures
        r@ == path_join(base@, piece@),
{
    if piece.len() > 0 && piece[0] == '/' {
        slice_chars(piece, 0, piece.len())
    } else {
        let mut out = slice_chars(base, 0, base.len());
        out.push('/');
        crate::text::push_all(&mut out, piece);
        out
    }
}

/// Where the PNG thumbnail of a stored file lives.
pub fn thumb_path_for(stored_filename: &str) -> (r: String)
    ensures
        r@ == path_join(thumbs_dir(), thumb_stem(stored_filename@) + ".png"@),
{
    let name = chars_of(stored_filename);
    let mut piece = match path_stem_exec(name.as_slice()) {
        Some(s) => s,
        None => name,
    };
    crate::text::push_lit(&mut piece, ".png");
    let dir = chars_of("storage/files/thumbs");
    let out = path_join_exec(dir.as_slice(), piece.as_slice());
    string_of(out.as_slice())
}

/// The trimmed stem of a name, or the trimmed name when it has no stem.
pub open spec fn candidate_stem(v: Seq<char>) -> Seq<char> {
    trim(
        match path_stem(v) {
            Some(s) => s,
            None => v,
        },
    )
}

/// The distinct non-empty stems under which a stored file's thumbnail may
/// have been written: that of the stored name, then that of the last
/// component of the storage path.
pub open spec fn thumb_stems(stored_filename: Seq<char>, storage_path: Option<Seq<char>>) -> Seq<
    Seq<char>,
> {
    let s1 = candidate_stem(stored_filename);
    let a: Seq<Seq<char>> = if s1.len() > 0 {
        seq![s1]
    } else {
        seq![]
    };
    match storage_path {
        Some(p) => match path_file_name(p) {
            Some(n) => {
                let s2 = candidate_stem(n);
                if s2.len() > 0 && !a.contains(s2) {
                    a.push(s2)
                } else {
                    a
                }
            },
            None => a,
        },
        None => a,
    }
}

/// The thumbnail file suffixes tried, in order.
pub open spec fn thumb_suffixes() -> Seq<Seq<char>> {
    seq![".png"@, ".webp"@, ".jpg"@, ".jpeg"@]
}

/// Every thumbnail path to try, stem by stem, suffix by suffix.
pub open spec fn thumb_candidates(stored_filename: Seq<char>, storage_path: Option<Seq<char>>) -> Seq<
    Seq<char>,
> {
    let stems = thumb_stems(stored_filename, storage_path);
    Seq::new(
        4 * stems.len(),
        |i: int| path_join(thumbs_dir(), stems[i / 4] + thumb_suffixes()[i % 4]),
    )
}

fn candidate_stem_exec(v: &[char]) -> (r: Vec<char>)
    ensures
        r@ == candidate_stem(v@),
{
    match path_stem_exec(v) {
        Some(s) => trim_chars(s.as_slice()),
        None => trim_chars(v),
    }
}

pub fn thumb_candidate_paths(stored_filename: &str, storage_path: Option<&str>) -> (r: Vec<String>)
    ensures
        r@.len() == thumb_candidates(
            stored_filename@,
            match storage_path {
                Some(p) => Some(p@),
                None => None,
            },
        ).len(),
        forall|i: int|
            0 <= i < r@.len() ==> #[trigger] r@[i]@ == thumb_candidates(
                stored_filename@,
                match storage_path {
                    Some(p) => Some(p@),
                    None => None,
                },
            )[i],
{
    let ghost sp = match storage_path {
        Some(p) => Some(p@),
        None => None,
    };
    let ghost want = thumb_stems(stored_filename@, sp);
    let mut stems: Vec<Vec<char>> = Vec::new();
    let s1 = candidate_stem_exec(chars_of(stored_filename).as_slice());
    if s1.len() > 0 {
        stems.push(s1);
    }
    let ghost a = if s1@.len() > 0 {
        seq![s1@]
    } else {
        Seq::<Seq<char>>::empty()
    };
    proof {
        assert(stems@.map_values(|v: Vec<char>| v@) =~= a);
    }
    if let Some(path) = storage_path {
        if let Some(name) = path_file_name_exec(chars_of(path).as_slice()) {
            let s2 = candidate_stem_exec(name.as_slice());
            if s2.len() > 0 {
                let mut seen = false;
                let mut j: usize = 0;
                while j < stems.len()
                    invariant
                        j <= stems.len(),
                        stems@.map_values(|v: Vec<char>| v@) == a,
                        seen == exists|k: int| 0 <= k < j && a[k] == s2@,
                    decreases stems.len() - j,
                {
                    if chars_eq(stems[j].as_slice(), s2.as_slice()) {
                        seen = true;
                    }
                    proof {
                        assert(a[j as int] == stems@[j as int]@);
                    }
                    j = j + 1;
                }
                proof {
                    if a.contains(s2@) {
                        let k = choose|k: int| 0 <= k < a.len() && a[k] == s2@;
                        assert(a[k] == s2@);
                    }
                }
                if !seen {
                    stems.push(s2);
                }
            }
        }
    }
    proof {
        assert(stems@.map_values(|v: Vec<char>| v@) =~= want);
    }
    let dir = chars_of("storage/files/thumbs");
    let mut out: Vec<String> = Vec::new();
    let mut i: usize = 0;
    while i < stems.len()
        invariant
            i <= stems.len(),
            dir@ == thumbs_dir(),
            stems@.map_values(|v: Vec<char>| v@) == want,
            out@.len() == 4 * i,
            forall|k: int|
                0 <= k < 4 * i ==> #[trigger] out@[k]@ == path_join(
                    thumbs_dir(),
                    want[k / 4] + thumb_suffixes()[k % 4],
                ),
        decreases stems.len() - i,
    {
        let stem = stems[i].as_slice();
        proof {
            assert(want[i as int] == stem@);
        }
        let mut p0 = slice_chars(stem, 0, stem.len());
        push_lit(&mut p0, ".png");
        let mut p1 = slice_chars(stem, 0, stem.len());
        push_lit(&mut p1, ".webp");
        let mut p2 = slice_chars(stem, 0, stem.len());
        push_lit(&mut p2, ".jpg");
        let mut p3 = slice_chars(stem, 0, stem.len());
        push_lit(&mut p3, ".jpeg");
        proof {
            assert(stem@.subrange(0, stem@.len() as int) =~= stem@);
        }
        out.push(string_of(path_join_exec(dir.as_slice(), p0.as_slice()).as_slice()));
        out.push(string_of(path_join_exec(dir.as_slice(), p1.as_slice()).as_slice()));
        out.push(string_of(path_join_exec(dir.as_slice(), p2.as_slice()).as_slice()));
        out.push(string_of(path_join_exec(dir.as_slice(), p3.as_slice()).as_slice()));
        i = i + 1;
    }
    out
}

} // verus!
