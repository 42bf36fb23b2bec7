//! Paths as text: parts are separated by `/`.
use vstd::prelude::*;
use vstd::string::StrSliceExecFns;
use vstd::string::StringExecFns;

verus! {

/// The index of the last occurrence of `c` in `s`, if any.
pub open spec fn last_index_of(s: Seq<char>, c: char) -> Option<int>
    decreases s.len(),
{
    if s.len() == 0 {
        None
    } else if s.last() == c {
        Some(s.len() - 1)
    } else {
        last_index_of(s.drop_last(), c)
    }
}

/// The last occurrence lies inside the text and holds `c`.
pub proof fn lemma_last_index_in_text(s: Seq<char>, c: char)
    ensures
        match last_index_of(s, c) {
            Some(k) => 0 <= k < s.len() && s[k] == c,
            None => forall|j: int| 0 <= j < s.len() ==> s[j] != c,
        },
    decreases s.len(),
{
    if s.len() > 0 && s.last() != c {
        let t = s.drop_last();
        lemma_last_index_in_text(t, c);
        match last_index_of(t, c) {
            Some(k) => {
                assert(t[k] == s[k]);
            },
            None => {
                assert forall|j: int| 0 <= j < s.len() implies s[j] != c by {
                    if j < s.len() - 1 {
                        assert(t[j] == s[j]);
                    }
                }
            },
        }
    }
}

/// Where the file name starts: just after the last `/`, or at the start.
pub open spec fn file_name_start(p: Seq<char>) -> int {
    match last_index_of(p, '/') {
        Some(k) => k + 1,
        None => 0,
    }
}

/// The path without trailing separators and trailing `.` parts, which do
/// not count as parts of a path; a lone `/` stays.
pub open spec fn trim_end(p: Seq<char>) -> Seq<char>
    decreases p.len(),
{
    if p.len() >= 2 && (p.last() == '/' || (p.last() == '.' && p[p.len() - 2] == '/')) {
        trim_end(p.drop_last())
    } else {
        p
    }
}

/// The last part of the path, unless it is empty (a root), `.` or `..`.
pub open spec fn file_name_of(p: Seq<char>) -> Option<Seq<char>> {
    let t = trim_end(p);
    let n = t.subrange(file_name_start(t), t.len() as int);
    if n.len() == 0 || n == seq!['.'] || n == seq!['.', '.'] {
        None
    } else {
        Some(n)
    }
}

/// The text after the last `.` of the file name, where that `.` is not its
/// first character.
pub open spec fn extension_of(p: Seq<char>) -> Option<Seq<char>> {
    match file_name_of(p) {
        Some(n) => match last_index_of(n, '.') {
            Some(k) => if k > 0 {
                Some(n.subrange(k + 1, n.len() as int))
            } else {
                None
            },
            None => None,
        },
        None => None,
    }
}

/// The file name up to its last `.`; none where it has no `.`.
pub open spec fn stem_of(p: Seq<char>) -> Option<Seq<char>> {
    match file_name_of(p) {
        Some(n) => match last_index_of(n, '.') {
            Some(k) => Some(n.subrange(0, k)),
            None => None,
        },
        None => None,
    }
}

/// The directory that holds the file: what comes before its last part,
/// trimmed in the same way (a lone `/` stays; empty where there is nothing).
pub open spec fn parent_of(p: Seq<char>) -> Option<Seq<char>> {
    match file_name_of(p) {
        Some(_) => {
            let t = trim_end(p);
            let start = file_name_start(t);
            if start == 0 {
                Some(Seq::empty())
            } else {
                Some(trim_end(t.subrange(0, start)))
            }
        },
        None => None,
    }
}

/// `b` placed under `a`, with one `/` between them.
pub open spec fn join(a: Seq<char>, b: Seq<char>) -> Seq<char> {
    if a.len() == 0 {
        b
    } else if a.last() == '/' {
        a + b
    } else {
        a + seq!['/'] + b
    }
}

/// The path with its file name replaced by `n` (or `n` added, where it has
/// no file name).
pub open spec fn with_file_name_of(p: Seq<char>, n: Seq<char>) -> Seq<char> {
    match parent_of(p) {
        Some(d) => join(d, n),
        None => join(p, n),
    }
}

/// Lower-case form of a text, as `str::to_lowercase` gives it.
pub uninterp spec fn lower_of(s: Seq<char>) -> Seq<char>;

/// Relies on `str::to_lowercase`: its result depends on the characters alone.
#[verifier::external_body]
fn lowercase(s: &str) -> (r: String)
    ensures
        r@ == lower_of(s@),
{
    s.to_lowercase()
}

/// Whether two texts are equal, character by character.
pub fn same_text(a: &str, b: &str) -> (r: bool)
    ensures
        r == (a@ == b@),
{
    let n = a.unicode_len();
    if n != b.unicode_len() {
        return false;
    }
    let mut i: usize = 0;
    while i < n
        invariant
            n == a@.len(),
            n == b@.len(),
            i <= n,
            forall|k: int| 0 <= k < i ==> a@[k] == b@[k],
        decreases n - i,
    {
        if a.get_char(i) != b.get_char(i) {
            return false;
        }
        i = i + 1;
    }
    assert(a@ =~= b@);
    true
}

/// The index of the last `c` in `s`.
pub fn find_last(s: &str, c: char) -> (r: Option<usize>)
    ensures
        r is None <==> last_index_of(s@, c) is None,
        r matches Some(k) ==> last_index_of(s@, c) == Some(k as int) && k < s@.len() && s@[k as int]
            == c,
        r matches Some(k) ==> k < usize::MAX,
{
    proof {
        lemma_last_index_in_text(s@, c);
    }
    let n: usize = s.unicode_len();
    let mut i: usize = n;
    assert(s@.subrange(0, i as int) =~= s@);
    while i > 0
        invariant
            n == s@.len(),
            i <= s@.len(),
            last_index_of(s@, c) == last_index_of(s@.subrange(0, i as int), c),
        decreases i,
    {
        let ghost pre = s@.subrange(0, i as int);
        assert(pre.drop_last() =~= s@.subrange(0, i - 1));
        if s.get_char(i - 1) == c {
            return Some(i - 1);
        }
        i = i - 1;
    }
    assert(s@.subrange(0, 0) =~= Seq::<char>::empty());
    None
}

/// The path without trailing separators and trailing `.` parts.
pub fn trim_text(p: &str) -> (r: String)
    ensures
        r@ == trim_end(p@),
{
    let mut e: usize = p.unicode_len();
    assert(p@.subrange(0, e as int) =~= p@);
    loop
        invariant
            e <= p@.len(),
            trim_end(p@) == trim_end(p@.subrange(0, e as int)),
        ensures
            e <= p@.len(),
            trim_end(p@) == p@.subrange(0, e as int),
        decreases e,
    {
        let ghost q = p@.subrange(0, e as int);
        if e < 2 {
            assert(trim_end(q) == q);
            break;
        }
        let c = p.get_char(e - 1);
        let strip = c == '/' || (c == '.' && p.get_char(e - 2) == '/');
        assert(q.last() == c && q[q.len() - 2] == p@[e - 2]);
        if !strip {
            assert(trim_end(q) == q);
            break;
        }
        assert(q.drop_last() =~= p@.subrange(0, e - 1));
        e = e - 1;
    }
    String::from_str(p.substring_char(0, e))
}

/// The file name of a path.
pub fn get_file_name(file_path: &str) -> (r: Option<String>)
    ensures
        match file_name_of(file_path@) {
            Some(n) => r is Some && r->0@ == n,
            None => r is None,
        },
{
    let trimmed = trim_text(file_path);
    let t = trimmed.as_str();
    let len = t.unicode_len();
    let start: usize = match find_last(t, '/') {
        Some(k) => k + 1,
        None => 0,
    };
    let n = t.substring_char(start, len);
    let is_dot = same_text(n, ".");
    let is_dot_dot = same_text(n, "..");
    proof {
        reveal_strlit(".");
        reveal_strlit("..");
        assert("."@ =~= seq!['.']);
        assert(".."@ =~= seq!['.', '.']);
    }
    if len == start || is_dot || is_dot_dot {
        None
    } else {
        Some(String::from_str(n))
    }
}

/// The extension of a path, in lower case.
pub fn get_file_extension(file_path: &str) -> (r: Option<String>)
    ensures
        match extension_of(file_path@) {
            Some(x) => r is Some && r->0@ == lower_of(x),
            None => r is None,
        },
{
    match raw_extension(file_path) {
        Some(x) => Some(lowercase(x.as_str())),
        None => None,
    }
}

/// The extension of a path, as written.
pub fn raw_extension(file_path: &str) -> (r: Option<String>)
    ensures
        match extension_of(file_path@) {
            Some(x) => r is Some && r->0@ == x,
            None => r is None,
        },
{
    match get_file_name(file_path) {
        Some(n) => {
            let s = n.as_str();
            let m = s.unicode_len();
            match find_last(s, '.') {
                Some(k) => {
                    if k > 0 {
                        Some(String::from_str(s.substring_char(k + 1, m)))
                    } else {
                        None
                    }
                },
                None => None,
            }
        },
        None => None,
    }
}

/// The file name without its last `.` and what follows.
pub fn get_file_name_without_extension(file_path: &str) -> (r: Option<String>)
    ensures
        match stem_of(file_path@) {
            Some(x) => r is Some && r->0@ == x,
            None => r is None,
        },
{
    match get_file_name(file_path) {
        Some(n) => {
            let s = n.as_str();
            match find_last(s, '.') {
                Some(k) => Some(String::from_str(s.substring_char(0, k))),
                None => None,
            }
        },
        None => None,
    }
}

/// The directory that holds the file.
pub fn get_parent_dir(file_path: &str) -> (r: Option<String>)
    ensures
        match parent_of(file_path@) {
            Some(d) => r is Some && r->0@ == d,
            None => r is None,
        },
{
    match get_file_name(file_path) {
        Some(_) => {
            let trimmed = trim_text(file_path);
            let t = trimmed.as_str();
            match find_last(t, '/') {
                Some(k) => Some(trim_text(t.substring_char(0, k + 1))),
                None => Some(String::new()),
            }
        },
        None => None,
    }
}

/// `b` placed under the directory `a`.
pub fn join_path(a: &str, b: &str) -> (r: String)
    ensures
        r@ == join(a@, b@),
{
    let n = a.unicode_len();
    let mut out = String::from_str(a);
    if n == 0 {
        return String::from_str(b);
    }
    if a.get_char(n - 1) != '/' {
        proof {
            reveal_strlit("/");
        }
        out.append("/");
    }
    out.append(b);
    out
}

/// The path with its file name replaced by `new_name`.
pub fn with_file_name(file_path: &str, new_name: &str) -> (r: String)
    ensures
        r@ == with_file_name_of(file_path@, new_name@),
{
    match get_parent_dir(file_path) {
        Some(d) => join_path(d.as_str(), new_name),
        None => join_path(file_path, new_name),
    }
}

/// `file_name` under `child_dir` under `parent_dir` under `base_dir`.
pub fn generate_complete_path(base_dir: &str, parent_dir: &str, child_dir: &str, file_name: &str) -> (r: String)
    ensures
        r@ == join(join(join(base_dir@, parent_dir@), child_dir@), file_name@),
{
    let a = join_path(base_dir, parent_dir);
    let b = join_path(a.as_str(), child_dir);
    join_path(b.as_str(), file_name)
}

} // verus!
