//! File names, extensions and output paths, on paths written with `/` as the
//! separator (as on Unix and macOS). A `\\` is an ordinary character here, so
//! Windows paths that use it are not split into components.

use vstd::prelude::*;
use vstd::string::{StrSliceExecFns, StringExecFns};

verus! {

/// The index of the last occurrence of `c` in `s`, or -1 where `c` does not occur.
pub open spec fn last_index_of(s: Seq<char>, c: char) -> int
    decreases s.len(),
{
    if s.len() == 0 {
        -1
    } else if s.last() == c {
        s.len() - 1
    } else {
        last_index_of(s.drop_last(), c)
    }
}

/// Whether `path` ends in a separator, or in a `.` component after one, that
/// names nothing further.
pub open spec fn has_idle_tail(path: Seq<char>) -> bool {
    path.len() > 0 && (path.last() == '/' || (path.len() >= 2 && path.last() == '.' && path[path.len()
        - 2] == '/'))
}

/// The path without its trailing separators and `.` components.
pub open spec fn trim_tail(path: Seq<char>) -> Seq<char>
    decreases path.len(),
{
    if has_idle_tail(path) {
        trim_tail(path.drop_last())
    } else {
        path
    }
}

/// The last component of a `/`-separated path, after trailing separators and
/// `.` components are set aside (the whole path where it has no `/`).
pub open spec fn file_name_spec(path: Seq<char>) -> Seq<char> {
    let p = trim_tail(path);
    p.subrange(last_index_of(p, '/') + 1, p.len() as int)
}

/// A path names a file when its last component is neither empty, `.` nor `..`.
pub open spec fn names_file(path: Seq<char>) -> bool {
    let n = file_name_spec(path);
    n.len() > 0 && n != seq!['.'] && n != seq!['.', '.']
}

/// The extension of a file name: what follows its last `.`, where that dot is
/// not the name's first character.
pub open spec fn extension_spec(name: Seq<char>) -> Option<Seq<char>> {
    let k = last_index_of(name, '.');
    if k <= 0 {
        None
    } else {
        Some(name.subrange(k + 1, name.len() as int))
    }
}

/// A file name without its extension and the dot before it.
pub open spec fn stem_spec(name: Seq<char>) -> Seq<char> {
    let k = last_index_of(name, '.');
    if k <= 0 {
        name
    } else {
        name.subrange(0, k)
    }
}

/// `name` placed in the directory `dir`, with one `/` between them where `dir`
/// does not already end in one.
pub open spec fn join_spec(dir: Seq<char>, name: Seq<char>) -> Seq<char> {
    if dir.len() == 0 {
        name
    } else if dir.last() == '/' {
        dir + name
    } else {
        dir + seq!['/'] + name
    }
}

/// The HTML file written for the Markdown file `name`: its stem with `.html`,
/// in the directory `dir`.
pub open spec fn output_path_spec(dir: Seq<char>, name: Seq<char>) -> Seq<char> {
    join_spec(dir, stem_spec(name) + seq!['.', 'h', 't', 'm', 'l'])
}

proof fn lemma_last_index_bounds(s: Seq<char>, c: char)
    ensures
        -1 <= last_index_of(s, c) < s.len(),
        last_index_of(s, c) >= 0 ==> s[last_index_of(s, c)] == c,
    decreases s.len(),
{
    if s.len() > 0 && s.last() != c {
        lemma_last_index_bounds(s.drop_last(), c);
    }
}

/// The position of the last `c` in `s`, as `last_index_of` gives it.
fn find_last(s: &str, c: char) -> (r: Option<usize>)
    ensures
        match r {
            None => last_index_of(s@, c) == -1,
            Some(i) => i as int == last_index_of(s@, c),
        },
{
    let n = s.unicode_len();
    let mut i: usize = n;
    assert(s@.subrange(0, n as int) =~= s@);
    while i > 0
        invariant
            i <= n == s@.len(),
            last_index_of(s@, c) == last_index_of(s@.subrange(0, i as int), c),
        decreases i,
    {
        let ch = s.get_char(i - 1);
        assert(s@.subrange(0, i as int).last() == s@[i - 1]);
        if ch == c {
            return Some(i - 1);
        }
        assert(s@.subrange(0, i as int).drop_last() =~= s@.subrange(0, i - 1));
        i = i - 1;
    }
    None
}

/// The last component of `path`, or `None` where it is empty, `.` or `..`.
pub fn file_name(path: &str) -> (r: Option<String>)
    ensures
        r is Some <==> names_file(path@),
        r is Some ==> r->Some_0@ == file_name_spec(path@),
{
    let total = path.unicode_len();
    let mut k: usize = total;
    assert(path@.subrange(0, k as int) =~= path@);
    while k > 0 && (path.get_char(k - 1) == '/' || (k >= 2 && path.get_char(k - 1) == '.'
        && path.get_char(k - 2) == '/'))
        invariant
            k <= total == path@.len(),
            trim_tail(path@) == trim_tail(path@.subrange(0, k as int)),
        decreases k,
    {
        let ghost q = path@.subrange(0, k as int);
        assert(has_idle_tail(q));
        assert(q.drop_last() =~= path@.subrange(0, k - 1));
        k = k - 1;
    }
    let head = path.substring_char(0, k);
    proof {
        let q = path@.subrange(0, k as int);
        assert(head@ == q);
        if k > 0 {
            assert(q.last() == path@[k - 1]);
            if k >= 2 {
                assert(q[q.len() - 2] == path@[k - 2]);
            }
        }
        assert(!has_idle_tail(q));
        assert(trim_tail(path@) == head@);
        lemma_last_index_bounds(head@, '/');
    }
    let n: usize = k;
    let path = head;
    let start: usize = match find_last(path, '/') {
        None => 0,
        Some(k) => k + 1,
    };
    let name = path.substring_char(start, n);
    let len = n - start;
    if len == 0 || (len == 1 && name.get_char(0) == '.') || (len == 2 && name.get_char(0) == '.'
        && name.get_char(1) == '.') {
        proof {
            if len == 1 {
                assert(name@ =~= seq!['.']);
            }
            if len == 2 {
                assert(name@ =~= seq!['.', '.']);
            }
        }
        None
    } else {
        proof {
            if name@ == seq!['.'] {
                assert(name@[0] == '.');
            }
            if name@ == seq!['.', '.'] {
                assert(name@[0] == '.' && name@[1] == '.');
            }
        }
        Some(String::from_str(name))
    }
}

/// The extension of the file name `name`.
pub fn extension(name: &str) -> (r: Option<String>)
    ensures
        match r {
            None => extension_spec(name@) is None,
            Some(e) => extension_spec(name@) == Some(e@),
        },
{
    proof {
        lemma_last_index_bounds(name@, '.');
    }
    let n = name.unicode_len();
    match find_last(name, '.') {
        Some(k) if k > 0 => Some(String::from_str(name.substring_char(k + 1, n))),
        _ => None,
    }
}

/// The file name `name` without its extension.
pub fn file_stem(name: &str) -> (r: String)
    ensures
        r@ == stem_spec(name@),
{
    proof {
        lemma_last_index_bounds(name@, '.');
    }
    match find_last(name, '.') {
        Some(k) if k > 0 => String::from_str(name.substring_char(0, k)),
        _ => String::from_str(name),
    }
}

/// The path of the file `name` in the directory `dir`.
pub fn join(dir: &str, name: &str) -> (r: String)
    ensures
        r@ == join_spec(dir@, name@),
{
    let n = dir.unicode_len();
    if n == 0 {
        String::from_str(name)
    } else if dir.get_char(n - 1) == '/' {
        String::from_str(dir).concat(name)
    } else {
        let sep = String::from_str("/");
        proof {
            reveal_strlit("/");
        }
        let r = String::from_str(dir).concat(sep.as_str()).concat(name);
        assert(r@ =~= dir@ + seq!['/'] + name@);
        r
    }
}

/// Where the HTML for the Markdown file `name` goes: `{dir}/{stem}.html`.
pub fn output_path(dir: &str, name: &str) -> (r: String)
    ensures
        r@ == output_path_spec(dir@, name@),
{
    let suffix = String::from_str(".html");
    proof {
        reveal_strlit(".html");
    }
    let file = file_stem(name).concat(suffix.as_str());
    assert(file@ =~= stem_spec(name@) + seq!['.', 'h', 't', 'm', 'l']);
    join(dir, file.as_str())
}

} // verus!
