//! Camera file-name patterns: fixed-length sequences of character classes,
//! searched for anywhere in a file name, first match wins.
use vstd::prelude::*;
use vstd::string::StrSliceExecFns;
use vstd::string::StringExecFns;
use crate::paths::{file_name_of, get_file_name, with_file_name, with_file_name_of};

verus! {

/// One position of a pattern.
#[derive(Clone, Copy, Debug, PartialEq, Eq, Structural)]
pub enum Tok {
    /// Exactly this character.
    Lit(char),
    /// An ASCII digit, `0` to `9`; other Unicode digits do not match.
    Digit,
    /// Any character but a line break.
    Any,
}

pub open spec fn tok_matches(t: Tok, c: char) -> bool {
    match t {
        Tok::Lit(x) => c == x,
        Tok::Digit => '0' <= c && c <= '9',
        Tok::Any => c != '\n',
    }
}

/// A pattern with seven capture groups: year, month, day, hour, minute,
/// second and extension. Group `g` covers `len` positions from `start`.
pub struct Pattern {
    pub toks: Vec<Tok>,
    pub groups: Vec<(usize, usize)>,
}

pub const GROUPS: usize = 7;

impl Pattern {
    /// Seven groups inside the pattern; the extension group is literal
    /// lower-case text, so the extension it captures is in lower case.
    pub open spec fn wf(&self) -> bool {
        &&& self.groups@.len() == GROUPS
        &&& forall|g: int|
            0 <= g < GROUPS ==> self.groups@[g].0 + self.groups@[g].1 <= self.toks@.len()
        &&& forall|k: int|
            self.groups@[6].0 <= k < self.groups@[6].0 + self.groups@[6].1 ==> lower_literal(
                #[trigger] self.toks@[k],
            )
    }
}

/// A lower-case ASCII letter or a digit.
pub open spec fn lower_char(c: char) -> bool {
    ('a' <= c && c <= 'z') || ('0' <= c && c <= '9')
}

pub open spec fn lower_literal(t: Tok) -> bool {
    match t {
        Tok::Lit(c) => lower_char(c),
        _ => false,
    }
}

/// The name ends in a `.` and an extension in lower case.
pub open spec fn has_lower_extension(x: Seq<char>) -> bool {
    exists|k: int| 0 <= k < x.len() && x[k] == '.' && forall|j: int| k < j < x.len() ==> lower_char(#[trigger] x[j])
}

/// Whether the pattern matches `s` at position `i`.
pub open spec fn matches_at(toks: Seq<Tok>, s: Seq<char>, i: int) -> bool {
    &&& 0 <= i
    &&& i + toks.len() <= s.len()
    &&& forall|k: int| 0 <= k < toks.len() ==> tok_matches(toks[k], #[trigger] s[i + k])
}

/// The first position at or after `i` where the pattern matches.
pub open spec fn first_match_from(toks: Seq<Tok>, s: Seq<char>, i: int) -> Option<int>
    decreases s.len() - i,
{
    if i < 0 || i + toks.len() > s.len() {
        None
    } else if matches_at(toks, s, i) {
        Some(i)
    } else {
        first_match_from(toks, s, i + 1)
    }
}

/// The text of group `g` of a match at `i`.
pub open spec fn group_text(p: Pattern, s: Seq<char>, i: int, g: int) -> Seq<char> {
    s.subrange(i + p.groups@[g].0, i + p.groups@[g].0 + p.groups@[g].1)
}

/// `YYYY-MM-DD HH.MM.SS.ext` assembled from the groups of a match at `i`.
pub open spec fn name_from_match(p: Pattern, s: Seq<char>, i: int) -> Seq<char> {
    group_text(p, s, i, 0) + seq!['-'] + group_text(p, s, i, 1) + seq!['-'] + group_text(p, s, i, 2)
        + seq![' '] + group_text(p, s, i, 3) + seq!['.'] + group_text(p, s, i, 4) + seq!['.']
        + group_text(p, s, i, 5) + seq!['.'] + group_text(p, s, i, 6)
}

/// The name that the first pattern from index `j` on that matches `s` gives.
pub open spec fn pattern_name_from(pats: Seq<Pattern>, s: Seq<char>, j: int) -> Option<Seq<char>>
    decreases pats.len() - j,
{
    if j < 0 || j >= pats.len() {
        None
    } else {
        match first_match_from(pats[j].toks@, s, 0) {
            Some(i) => Some(name_from_match(pats[j], s, i)),
            None => pattern_name_from(pats, s, j + 1),
        }
    }
}

pub open spec fn pattern_name(pats: Seq<Pattern>, s: Seq<char>) -> Option<Seq<char>> {
    pattern_name_from(pats, s, 0)
}

/// Whether the pattern matches `s` at position `i`.
fn match_at(toks: &Vec<Tok>, s: &str, n: usize, i: usize) -> (r: bool)
    requires
        n == s@.len(),
        i + toks@.len() <= n,
    ensures
        r == matches_at(toks@, s@, i as int),
{
    let m = toks.len();
    let mut k: usize = 0;
    while k < m
        invariant
            m == toks@.len(),
            n == s@.len(),
            i + m <= n,
            k <= m,
            forall|j: int| 0 <= j < k ==> tok_matches(toks@[j], #[trigger] s@[i + j]),
        decreases m - k,
    {
        let c = s.get_char(i + k);
        let ok = match toks[k] {
            Tok::Lit(x) => c == x,
            Tok::Digit => '0' <= c && c <= '9',
            Tok::Any => c != '\n',
        };
        if !ok {
            assert(!tok_matches(toks@[k as int], s@[i + k]));
            return false;
        }
        k = k + 1;
    }
    true
}

/// The first position where the pattern matches `s`.
pub fn find_match(toks: &Vec<Tok>, s: &str) -> (r: Option<usize>)
    ensures
        r is None <==> first_match_from(toks@, s@, 0) is None,
        r matches Some(i) ==> first_match_from(toks@, s@, 0) == Some(i as int),
        r matches Some(i) ==> i + toks@.len() <= usize::MAX,
{
    let n = s.unicode_len();
    let m = toks.len();
    if m > n {
        return None;
    }
    let mut i: usize = 0;
    while i <= n - m
        invariant
            n == s@.len(),
            m == toks@.len(),
            m <= n,
            i <= n - m + 1,
            first_match_from(toks@, s@, 0) == first_match_from(toks@, s@, i as int),
        decreases n - i,
    {
        if match_at(toks, s, n, i) {
            return Some(i);
        }
        i = i + 1;
    }
    None
}

/// Appends the text of group `g` of a match at `i`.
fn append_group(out: &mut String, p: &Pattern, s: &str, n: usize, i: usize, g: usize)
    requires
        p.wf(),
        n == s@.len(),
        i + p.toks@.len() <= n,
        g < GROUPS,
    ensures
        final(out)@ == old(out)@ + group_text(*p, s@, i as int, g as int),
{
    let (start, len) = p.groups[g];
    let a = i + start;
    out.append(s.substring_char(a, a + len));
}

/// The canonical name that the groups of a match give.
fn assemble_name(p: &Pattern, s: &str, n: usize, i: usize) -> (r: String)
    requires
        p.wf(),
        n == s@.len(),
        i + p.toks@.len() <= n,
    ensures
        r@ == name_from_match(*p, s@, i as int),
{
    proof {
        reveal_strlit("-");
        reveal_strlit(" ");
        reveal_strlit(".");
        assert("-"@ =~= seq!['-']);
        assert(" "@ =~= seq![' ']);
        assert("."@ =~= seq!['.']);
    }
    let mut out = String::new();
    append_group(&mut out, p, s, n, i, 0);
    out.append("-");
    append_group(&mut out, p, s, n, i, 1);
    out.append("-");
    append_group(&mut out, p, s, n, i, 2);
    out.append(" ");
    append_group(&mut out, p, s, n, i, 3);
    out.append(".");
    append_group(&mut out, p, s, n, i, 4);
    out.append(".");
    append_group(&mut out, p, s, n, i, 5);
    out.append(".");
    append_group(&mut out, p, s, n, i, 6);
    assert(out@ =~= name_from_match(*p, s@, i as int));
    out
}

/// The canonical name that the first matching pattern gives for `file_name`.
pub fn name_by_patterns(file_name: &str, patterns: &Vec<Pattern>) -> (r: Option<String>)
    requires
        forall|j: int| 0 <= j < patterns@.len() ==> (#[trigger] patterns@[j]).wf(),
    ensures
        match pattern_name(patterns@, file_name@) {
            Some(x) => r is Some && r->0@ == x,
            None => r is None,
        },
        r matches Some(x) ==> has_lower_extension(x@),
{
    let n = file_name.unicode_len();
    let mut j: usize = 0;
    while j < patterns.len()
        invariant
            n == file_name@.len(),
            j <= patterns@.len(),
            forall|q: int| 0 <= q < patterns@.len() ==> (#[trigger] patterns@[q]).wf(),
            pattern_name(patterns@, file_name@) == pattern_name_from(patterns@, file_name@, j as int),
        decreases patterns@.len() - j,
    {
        let p = &patterns[j];
        match find_match(&p.toks, file_name) {
            Some(i) => {
                proof {
                    lemma_first_match_fits(p.toks@, file_name@, 0);
                    lemma_name_has_lower_extension(*p, file_name@, i as int);
                }
                return Some(assemble_name(p, file_name, n, i));
            },
            None => {},
        }
        j = j + 1;
    }
    None
}

/// The extension of a name built from a match is in lower case.
pub proof fn lemma_name_has_lower_extension(p: Pattern, s: Seq<char>, i: int)
    requires
        p.wf(),
        matches_at(p.toks@, s, i),
    ensures
        has_lower_extension(name_from_match(p, s, i)),
{
    let e = group_text(p, s, i, 6);
    let a = group_text(p, s, i, 0) + seq!['-'] + group_text(p, s, i, 1) + seq!['-'] + group_text(
        p,
        s,
        i,
        2,
    ) + seq![' '] + group_text(p, s, i, 3) + seq!['.'] + group_text(p, s, i, 4) + seq!['.']
        + group_text(p, s, i, 5);
    let x = name_from_match(p, s, i);
    assert(x == a + seq!['.'] + e);
    let k = a.len() as int;
    let st = p.groups@[6].0 as int;
    assert(x[k] == '.');
    assert forall|j: int| k < j < x.len() implies lower_char(#[trigger] x[j]) by {
        assert(x[j] == e[j - k - 1]);
        assert(e[j - k - 1] == s[i + st + (j - k - 1)]);
        assert(lower_literal(p.toks@[st + (j - k - 1)]));
        assert(tok_matches(p.toks@[st + (j - k - 1)], s[i + (st + (j - k - 1))]));
    }
}

/// A match that the search finds fits inside the text.
pub proof fn lemma_first_match_fits(toks: Seq<Tok>, s: Seq<char>, i: int)
    ensures
        first_match_from(toks, s, i) matches Some(k) ==> matches_at(toks, s, k) && i <= k,
    decreases s.len() - i,
{
    if !(i < 0 || i + toks.len() > s.len()) && !matches_at(toks, s, i) {
        lemma_first_match_fits(toks, s, i + 1);
    }
}

/// The canonical name that the patterns give for the file name of `file_path`.
pub fn get_date_time_formatted_name(file_path: &str, patterns: &Vec<Pattern>) -> (r: Option<String>)
    requires
        forall|j: int| 0 <= j < patterns@.len() ==> (#[trigger] patterns@[j]).wf(),
    ensures
        match file_name_of(file_path@) {
            Some(n) => match pattern_name(patterns@, n) {
                Some(x) => r is Some && r->0@ == x,
                None => r is None,
            },
            None => r is None,
        },
        r matches Some(x) ==> has_lower_extension(x@),
{
    match get_file_name(file_path) {
        Some(n) => name_by_patterns(n.as_str(), patterns),
        None => None,
    }
}

/// The path that pattern-based renaming gives: the file renamed to the name
/// that the first matching pattern yields.
pub open spec fn pattern_path(pats: Seq<Pattern>, p: Seq<char>) -> Option<Seq<char>> {
    match file_name_of(p) {
        Some(n) => match pattern_name(pats, n) {
            Some(x) => Some(with_file_name_of(p, x)),
            None => None,
        },
        None => None,
    }
}

/// The new path for a file whose name one of `patterns` recognises.
pub fn rename_file_using_regex(file_path: &str, patterns: &Vec<Pattern>) -> (r: Option<String>)
    requires
        forall|j: int| 0 <= j < patterns@.len() ==> (#[trigger] patterns@[j]).wf(),
    ensures
        match pattern_path(patterns@, file_path@) {
            Some(x) => r is Some && r->0@ == x,
            None => r is None,
        },
{
    match get_date_time_formatted_name(file_path, patterns) {
        Some(name) => Some(with_file_name(file_path, name.as_str())),
        None => None,
    }
}

pub open spec fn digit_toks(n: nat) -> Seq<Tok> {
    Seq::new(n, |k: int| Tok::Digit)
}

pub open spec fn img_toks() -> Seq<Tok> {
    seq![Tok::Lit('I'), Tok::Lit('M'), Tok::Lit('G'), Tok::Lit('_')]
}

pub open spec fn vid_toks() -> Seq<Tok> {
    seq![Tok::Lit('V'), Tok::Lit('I'), Tok::Lit('D'), Tok::Lit('_')]
}

pub open spec fn jpg_toks() -> Seq<Tok> {
    seq![Tok::Lit('j'), Tok::Lit('p'), Tok::Lit('g')]
}

pub open spec fn mp4_toks() -> Seq<Tok> {
    seq![Tok::Lit('m'), Tok::Lit('p'), Tok::Lit('4')]
}

pub open spec fn hsr_toks() -> Seq<Tok> {
    seq![Tok::Lit('_'), Tok::Lit('H'), Tok::Lit('S'), Tok::Lit('R'), Tok::Lit('_')]
}

/// `<prefix>YYYYMMDD_HHMMSS`.
pub open spec fn stamp_toks(prefix: Seq<Tok>) -> Seq<Tok> {
    prefix + digit_toks(8) + seq![Tok::Lit('_')] + digit_toks(6)
}

/// The groups of a camera name whose extension starts at `ext`.
pub open spec fn stamp_groups(ext: usize) -> Seq<(usize, usize)> {
    seq![(4, 4), (8, 2), (10, 2), (13, 2), (15, 2), (17, 2), (ext, 3)]
}

/// `IMG_YYYYMMDD_HHMMSS.jpg`
pub open spec fn image_plain_toks() -> Seq<Tok> {
    stamp_toks(img_toks()) + seq![Tok::Any] + jpg_toks()
}

/// `IMG_YYYYMMDD_HHMMSS~N.jpg`
pub open spec fn image_burst_toks() -> Seq<Tok> {
    stamp_toks(img_toks()) + seq![Tok::Lit('~'), Tok::Digit, Tok::Any] + jpg_toks()
}

/// `VID_YYYYMMDD_HHMMSS.mp4`
pub open spec fn video_plain_toks() -> Seq<Tok> {
    stamp_toks(vid_toks()) + seq![Tok::Any] + mp4_toks()
}

/// `VID_YYYYMMDD_HHMMSS_HSR_NNN.mp4`
pub open spec fn video_hsr_toks() -> Seq<Tok> {
    stamp_toks(vid_toks()) + hsr_toks() + digit_toks(3)
        + seq![Tok::Any] + mp4_toks()
}

/// The image patterns, in the order in which they are tried.
pub open spec fn is_image_list(pats: Seq<Pattern>) -> bool {
    &&& pats.len() == 2
    &&& pats[0].toks@ == image_plain_toks() && pats[0].groups@ == stamp_groups(20)
    &&& pats[1].toks@ == image_burst_toks() && pats[1].groups@ == stamp_groups(22)
}

/// The video patterns, in the order in which they are tried.
pub open spec fn is_video_list(pats: Seq<Pattern>) -> bool {
    &&& pats.len() == 2
    &&& pats[0].toks@ == video_plain_toks() && pats[0].groups@ == stamp_groups(20)
    &&& pats[1].toks@ == video_hsr_toks() && pats[1].groups@ == stamp_groups(28)
}

fn push_lits(v: &mut Vec<Tok>, a: char, b: char, c: char)
    ensures
        final(v)@ == old(v)@ + seq![Tok::Lit(a), Tok::Lit(b), Tok::Lit(c)],
{
    let ghost v0 = v@;
    v.push(Tok::Lit(a));
    v.push(Tok::Lit(b));
    v.push(Tok::Lit(c));
    assert(v@ =~= v0 + seq![Tok::Lit(a), Tok::Lit(b), Tok::Lit(c)]);
}

pub(crate) fn push_digits(v: &mut Vec<Tok>, n: usize)
    ensures
        final(v)@ == old(v)@ + digit_toks(n as nat),
{
    let ghost v0 = v@;
    let mut i: usize = 0;
    assert(v@ =~= v0 + digit_toks(0));
    while i < n
        invariant
            i <= n,
            v@ == v0 + digit_toks(i as nat),
        decreases n - i,
    {
        v.push(Tok::Digit);
        assert(v@ =~= v0 + digit_toks((i + 1) as nat));
        i = i + 1;
    }
}

/// `<p0><p1><p2>_YYYYMMDD_HHMMSS`.
fn stamp_pattern(p0: char, p1: char, p2: char) -> (r: Vec<Tok>)
    ensures
        r@ == stamp_toks(seq![Tok::Lit(p0), Tok::Lit(p1), Tok::Lit(p2), Tok::Lit('_')]),
{
    let mut v: Vec<Tok> = Vec::new();
    push_lits(&mut v, p0, p1, p2);
    v.push(Tok::Lit('_'));
    push_digits(&mut v, 8);
    v.push(Tok::Lit('_'));
    push_digits(&mut v, 6);
    assert(v@ =~= stamp_toks(seq![Tok::Lit(p0), Tok::Lit(p1), Tok::Lit(p2), Tok::Lit('_')]));
    v
}

proof fn lemma_stamp_groups_fit(ext: usize, n: int)
    requires
        19 <= n,
        ext + 3 <= n,
    ensures
        forall|g: int| 0 <= g < GROUPS ==> stamp_groups(ext)[g].0 + stamp_groups(ext)[g].1 <= n,
{
    let gs = stamp_groups(ext);
    assert(gs[0] == (4usize, 4usize) && gs[1] == (8usize, 2usize) && gs[2] == (10usize, 2usize));
    assert(gs[3] == (13usize, 2usize) && gs[4] == (15usize, 2usize) && gs[5] == (17usize, 2usize));
    assert(gs[6] == (ext, 3usize));
}

proof fn lemma_lower_suffix(t: Seq<Tok>, ext: usize)
    requires
        ext + 3 == t.len(),
        lower_literal(t[ext as int]),
        lower_literal(t[ext + 1]),
        lower_literal(t[ext + 2]),
    ensures
        forall|k: int| stamp_groups(ext)[6].0 <= k < stamp_groups(ext)[6].0 + stamp_groups(ext)[6].1
            ==> lower_literal(#[trigger] t[k]),
{
    assert(stamp_groups(ext)[6] == (ext, 3usize));
}

fn stamp_group_list(ext: usize) -> (r: Vec<(usize, usize)>)
    ensures
        r@ == stamp_groups(ext),
{
    let r = vec![(4, 4), (8, 2), (10, 2), (13, 2), (15, 2), (17, 2), (ext, 3)];
    assert(r@ =~= stamp_groups(ext));
    r
}

/// The image patterns: `IMG_YYYYMMDD_HHMMSS.jpg`, then the burst variant
/// `IMG_YYYYMMDD_HHMMSS~N.jpg` whose `~N` is dropped.
pub fn image_patterns() -> (r: Vec<Pattern>)
    ensures
        is_image_list(r@),
        forall|j: int| 0 <= j < r@.len() ==> (#[trigger] r@[j]).wf(),
{
    let mut plain = stamp_pattern('I', 'M', 'G');
    plain.push(Tok::Any);
    push_lits(&mut plain, 'j', 'p', 'g');
    let mut burst = stamp_pattern('I', 'M', 'G');
    burst.push(Tok::Lit('~'));
    burst.push(Tok::Digit);
    burst.push(Tok::Any);
    push_lits(&mut burst, 'j', 'p', 'g');
    assert(plain@ =~= image_plain_toks());
    assert(burst@ =~= image_burst_toks());
    proof {
        lemma_stamp_groups_fit(20, plain@.len() as int);
        lemma_stamp_groups_fit(22, burst@.len() as int);
        lemma_lower_suffix(plain@, 20);
        lemma_lower_suffix(burst@, 22);
    }
    let r = vec![
        Pattern { toks: plain, groups: stamp_group_list(20) },
        Pattern { toks: burst, groups: stamp_group_list(22) },
    ];
    r
}

/// The video patterns: `VID_YYYYMMDD_HHMMSS.mp4`, then the high-speed
/// variant `VID_YYYYMMDD_HHMMSS_HSR_NNN.mp4`.
pub fn video_patterns() -> (r: Vec<Pattern>)
    ensures
        is_video_list(r@),
        forall|j: int| 0 <= j < r@.len() ==> (#[trigger] r@[j]).wf(),
{
    let mut plain = stamp_pattern('V', 'I', 'D');
    plain.push(Tok::Any);
    push_lits(&mut plain, 'm', 'p', '4');
    let mut hsr = stamp_pattern('V', 'I', 'D');
    hsr.push(Tok::Lit('_'));
    push_lits(&mut hsr, 'H', 'S', 'R');
    hsr.push(Tok::Lit('_'));
    push_digits(&mut hsr, 3);
    hsr.push(Tok::Any);
    push_lits(&mut hsr, 'm', 'p', '4');
    assert(plain@ =~= video_plain_toks());
    assert(hsr@ =~= video_hsr_toks());
    proof {
        lemma_stamp_groups_fit(20, plain@.len() as int);
        lemma_stamp_groups_fit(28, hsr@.len() as int);
        lemma_lower_suffix(plain@, 20);
        lemma_lower_suffix(hsr@, 28);
    }
    let r = vec![
        Pattern { toks: plain, groups: stamp_group_list(20) },
        Pattern { toks: hsr, groups: stamp_group_list(28) },
    ];
    r
}

pub open spec fn example_image_name() -> Seq<char> {
    seq!['I', 'M', 'G', '_', '2', '0', '2', '3', '0', '4', '0', '1', '_', '1', '2', '0', '0', '0', '0', '.', 'j', 'p', 'g']
}

pub open spec fn example_image_canonical() -> Seq<char> {
    seq!['2', '0', '2', '3', '-', '0', '4', '-', '0', '1', ' ', '1', '2', '.', '0', '0', '.', '0', '0', '.', 'j', 'p', 'g']
}

/// An image named `IMG_20230401_120000.jpg`, in any directory, is renamed
/// `2023-04-01 12.00.00.jpg` by its file name.
pub proof fn lemma_image_pattern_example(pats: Seq<Pattern>, p: Seq<char>)
    requires
        is_image_list(pats),
        file_name_of(p) == Some(example_image_name()),
    ensures
        pattern_path(pats, p) == Some(with_file_name_of(p, example_image_canonical())),
{
    let s = example_image_name();
    let t = image_plain_toks();
    assert(t.len() == 23);
    assert forall|k: int| 0 <= k < 23 implies tok_matches(t[k], #[trigger] s[0 + k]) by {
        assert(s[0 + k] == s[k]);
    }
    assert(matches_at(t, s, 0));
    assert(first_match_from(t, s, 0) == Some(0int));
    let g = stamp_groups(20);
    assert(g[0] == (4usize, 4usize) && g[1] == (8usize, 2usize) && g[2] == (10usize, 2usize));
    assert(g[3] == (13usize, 2usize) && g[4] == (15usize, 2usize) && g[5] == (17usize, 2usize));
    assert(g[6] == (20usize, 3usize));
    assert(name_from_match(pats[0], s, 0) =~= example_image_canonical());
}

pub open spec fn example_video_name() -> Seq<char> {
    seq!['V', 'I', 'D', '_', '2', '0', '2', '3', '0', '4', '0', '1', '_', '1', '2', '0', '0', '0', '0', '_', 'H', 'S', 'R', '_', '0', '0', '1', '.', 'm', 'p', '4']
}

pub open spec fn example_video_canonical() -> Seq<char> {
    seq!['2', '0', '2', '3', '-', '0', '4', '-', '0', '1', ' ', '1', '2', '.', '0', '0', '.', '0', '0', '.', 'm', 'p', '4']
}

/// A video named `VID_20230401_120000_HSR_001.mp4`, in any directory, is
/// renamed `2023-04-01 12.00.00.mp4` by its file name.
pub proof fn lemma_video_pattern_example(pats: Seq<Pattern>, p: Seq<char>)
    requires
        is_video_list(pats),
        file_name_of(p) == Some(example_video_name()),
    ensures
        pattern_path(pats, p) == Some(with_file_name_of(p, example_video_canonical())),
{
    let s = example_video_name();
    let t1 = video_plain_toks();
    assert(s.len() == 31);
    assert(t1.len() == 23);
    assert(first_match_from(t1, s, 9) is None);
    assert(!tok_matches(t1[0], s[8int + 0int]));
    assert(!matches_at(t1, s, 8));
    assert(first_match_from(t1, s, 8) is None);
    assert(!tok_matches(t1[0], s[7int + 0int]));
    assert(!matches_at(t1, s, 7));
    assert(first_match_from(t1, s, 7) is None);
    assert(!tok_matches(t1[0], s[6int + 0int]));
    assert(!matches_at(t1, s, 6));
    assert(first_match_from(t1, s, 6) is None);
    assert(!tok_matches(t1[0], s[5int + 0int]));
    assert(!matches_at(t1, s, 5));
    assert(first_match_from(t1, s, 5) is None);
    assert(!tok_matches(t1[0], s[4int + 0int]));
    assert(!matches_at(t1, s, 4));
    assert(first_match_from(t1, s, 4) is None);
    assert(!tok_matches(t1[0], s[3int + 0int]));
    assert(!matches_at(t1, s, 3));
    assert(first_match_from(t1, s, 3) is None);
    assert(!tok_matches(t1[0], s[2int + 0int]));
    assert(!matches_at(t1, s, 2));
    assert(first_match_from(t1, s, 2) is None);
    assert(!tok_matches(t1[0], s[1int + 0int]));
    assert(!matches_at(t1, s, 1));
    assert(first_match_from(t1, s, 1) is None);
    assert(!tok_matches(t1[20], s[0int + 20int]));
    assert(!matches_at(t1, s, 0));
    assert(first_match_from(t1, s, 0) is None);
    let t = video_hsr_toks();
    assert(t.len() == 31);
    assert forall|k: int| 0 <= k < 31 implies tok_matches(t[k], #[trigger] s[0 + k]) by {
        assert(s[0 + k] == s[k]);
    }
    assert(matches_at(t, s, 0));
    assert(first_match_from(t, s, 0) == Some(0int));
    let g = stamp_groups(28);
    assert(g[0] == (4usize, 4usize) && g[1] == (8usize, 2usize) && g[2] == (10usize, 2usize));
    assert(g[3] == (13usize, 2usize) && g[4] == (15usize, 2usize) && g[5] == (17usize, 2usize));
    assert(g[6] == (28usize, 3usize));
    assert(name_from_match(pats[1], s, 0) =~= example_video_canonical());
    assert(pattern_name_from(pats, s, 0) == pattern_name_from(pats, s, 1));
}

} // verus!
