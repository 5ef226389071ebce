use vstd::prelude::*;

verus! {

/// Index of the last occurrence of `c` in `s`, or -1 when `c` does not occur.
pub open spec fn last_index_of(s: Seq<char>, c: char) -> int
    decreases s.len(),
{
    if s.len() == 0 {
        -1
    } else if s.last() == c {
        s.len() - 1
    } else {
        last_index_of(s.drop_last(), c)
    }
}

pub proof fn lemma_last_index_bounds(s: Seq<char>, c: char)
    ensures
        -1 <= last_index_of(s, c) < s.len(),
        last_index_of(s, c) >= 0 ==> s[last_index_of(s, c)] == c,
    decreases s.len(),
{
    if s.len() > 0 && s.last() != c {
        lemma_last_index_bounds(s.drop_last(), c);
    }
}

/// The final component of a `/`-separated path: what follows the last `/`.
pub open spec fn base_name_of(p: Seq<char>) -> Seq<char> {
    p.subrange(last_index_of(p, '/') + 1, p.len() as int)
}

/// A path names a file when its final component is not empty.
pub open spec fn names_file(p: Seq<char>) -> bool {
    base_name_of(p).len() > 0
}

/// The directory that holds the file a path names: everything before the last
/// `/`, the root `/` for a file directly under it, and the empty (current)
/// directory for a bare file name.
pub open spec fn parent_of(p: Seq<char>) -> Option<Seq<char>> {
    let k = last_index_of(p, '/');
    if !names_file(p) {
        None
    } else if k < 0 {
        Some(Seq::empty())
    } else if k == 0 {
        Some(seq!['/'])
    } else {
        Some(p.subrange(0, k))
    }
}

/// The extension of a path: what follows the last `.` of its final component,
/// where that `.` is not the component's first character.
pub open spec fn extension_of(p: Seq<char>) -> Option<Seq<char>> {
    let b = base_name_of(p);
    let d = last_index_of(b, '.');
    if d > 0 {
        Some(b.subrange(d + 1, b.len() as int))
    } else {
        None
    }
}

/// `dir` and `name` joined by one `/`: none is added to an empty `dir` or to
/// one that already ends in `/`.
pub open spec fn join_of(dir: Seq<char>, name: Seq<char>) -> Seq<char> {
    if dir.len() == 0 || dir.last() == '/' {
        dir + name
    } else {
        dir + seq!['/'] + name
    }
}

pub(crate) fn last_index(s: &str, c: char) -> (r: Option<usize>)
    ensures
        s@.len() <= usize::MAX,
        match r {
            Some(i) => i as int == last_index_of(s@, c) && i < s@.len(),
            None => last_index_of(s@, c) == -1,
        },
{
    let n = s.unicode_len();
    let mut i: usize = n;
    assert(s@.subrange(0, n as int) =~= s@);
    while i > 0
        invariant
            i <= n,
            n == s@.len(),
            last_index_of(s@, c) == last_index_of(s@.subrange(0, i as int), c),
        decreases i,
    {
        let ch = s.get_char(i - 1);
        let ghost pre = s@.subrange(0, i as int);
        if ch == c {
            assert(pre.last() == c);
            return Some(i - 1);
        }
        assert(pre.drop_last() =~= s@.subrange(0, i - 1));
        i = i - 1;
    }
    assert(s@.subrange(0, 0).len() == 0);
    None
}

/// The final component of `path` (empty when `path` ends in `/`).
pub fn base_name(path: &str) -> (r: String)
    ensures
        r@ == base_name_of(path@),
{
    proof {
        lemma_last_index_bounds(path@, '/');
    }
    let start: usize = match last_index(path, '/') {
        Some(i) => i + 1,
        None => 0,
    };
    path.substring_char(start, path.unicode_len()).to_string()
}

/// The directory holding the file that `path` names; `None` when `path` names
/// no file.
pub fn parent_dir(path: &str) -> (r: Option<String>)
    ensures
        match r {
            Some(d) => parent_of(path@) == Some(d@),
            None => parent_of(path@) is None,
        },
{
    proof {
        lemma_last_index_bounds(path@, '/');
    }
    let n = path.unicode_len();
    match last_index(path, '/') {
        None => {
            if n == 0 {
                None
            } else {
                Some(String::new())
            }
        },
        Some(k) => {
            if k + 1 == n {
                None
            } else if k == 0 {
                let r = String::from_str("/");
                proof {
                    reveal_strlit("/");
                }
                assert(r@ =~= seq!['/']);
                Some(r)
            } else {
                Some(path.substring_char(0, k).to_string())
            }
        },
    }
}

/// The extension of the file that `path` names, if it has one.
pub fn extension(path: &str) -> (r: Option<String>)
    ensures
        match r {
            Some(e) => extension_of(path@) == Some(e@),
            None => extension_of(path@) is None,
        },
{
    let b = base_name(path);
    let bs = b.as_str();
    proof {
        lemma_last_index_bounds(bs@, '.');
    }
    match last_index(bs, '.') {
        Some(d) => {
            if d > 0 {
                Some(bs.substring_char(d + 1, bs.unicode_len()).to_string())
            } else {
                None
            }
        },
        None => None,
    }
}

/// `dir` and `name` joined by a single `/`.
pub fn join_path(dir: &str, name: &str) -> (r: String)
    ensures
        r@ == join_of(dir@, name@),
{
    let n = dir.unicode_len();
    let mut r = dir.to_string();
    if n > 0 && dir.get_char(n - 1) != '/' {
        r.append("/");
        proof {
            reveal_strlit("/");
        }
        assert(seq!['/'] =~= "/"@);
    }
    r.append(name);
    r
}

} // verus!
