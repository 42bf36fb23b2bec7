//! What happens to each file: its new name, where it moves, which
//! modification time it gets, and when it is left alone.
use vstd::prelude::*;
use vstd::string::StrSliceExecFns;
use crate::calendar::{
    LocalDateTime, MAX_YEAR, MIN_YEAR, days_from_civil, is_valid_date, is_valid_time, naive_timestamp,
    unix_seconds_of,
};
use crate::media::{MediaKind, classify, eq_ignoring_case, kind_of};
use crate::paths::{
    extension_of, file_name_of, generate_complete_path, get_file_name, get_file_name_without_extension,
    get_parent_dir, join, last_index_of, parent_of, stem_of,
};
use crate::pattern::{
    Tok, digit_toks, find_match, push_digits, first_match_from, lemma_first_match_fits, matches_at, tok_matches,
};

verus! {

/// Seconds taken off a canonical time before it is written as a
/// modification time: the names hold local times of UTC+05:30.
pub const TIME_ZONE_OFFSET_SECONDS: i64 = 19800;

/// `YYYY-MM-DD HH?MM?SS`, where `?` is any character but a line break.
pub open spec fn canonical_toks() -> Seq<Tok> {
    digit_toks(4) + seq![Tok::Lit('-')] + digit_toks(2) + seq![Tok::Lit('-')] + digit_toks(2) + seq![
        Tok::Lit(' '),
    ] + digit_toks(2) + seq![Tok::Any] + digit_toks(2) + seq![Tok::Any] + digit_toks(2)
}

/// The pattern of a canonical name without its extension.
pub fn canonical_pattern() -> (r: Vec<Tok>)
    ensures
        r@ == canonical_toks(),
{
    let mut v: Vec<Tok> = Vec::new();
    push_digits(&mut v, 4);
    v.push(Tok::Lit('-'));
    push_digits(&mut v, 2);
    v.push(Tok::Lit('-'));
    push_digits(&mut v, 2);
    v.push(Tok::Lit(' '));
    push_digits(&mut v, 2);
    v.push(Tok::Any);
    push_digits(&mut v, 2);
    v.push(Tok::Any);
    push_digits(&mut v, 2);
    assert(v@ =~= canonical_toks());
    v
}

/// The value of a run of decimal digits.
pub open spec fn number_of(s: Seq<char>) -> int
    decreases s.len(),
{
    if s.len() == 0 {
        0
    } else {
        number_of(s.drop_last()) * 10 + (s.last() as int - '0' as int)
    }
}

pub open spec fn pow10(k: nat) -> int
    decreases k,
{
    if k == 0 {
        1
    } else {
        10 * pow10((k - 1) as nat)
    }
}

/// The value of the `len` digits of `s` from `a`.
fn parse_digits(s: &str, a: usize, len: usize) -> (r: u32)
    requires
        a + len <= s@.len(),
        len <= 4,
        forall|k: int| a <= k < a + len ==> '0' <= #[trigger] s@[k] <= '9',
    ensures
        r as int == number_of(s@.subrange(a as int, a + len)),
        r < 10000,
{
    let n = s.unicode_len();
    let mut v: u32 = 0;
    let mut k: usize = 0;
    assert(pow10(0) == 1);
    assert(s@.subrange(a as int, a as int) =~= Seq::<char>::empty());
    while k < len
        invariant
            n == s@.len(),
            a + len <= s@.len(),
            len <= 4,
            k <= len,
            forall|j: int| a <= j < a + len ==> '0' <= #[trigger] s@[j] <= '9',
            v as int == number_of(s@.subrange(a as int, a + k)),
            0 <= v < pow10(k as nat),
            pow10(k as nat) <= 10000,
        decreases len - k,
    {
        let c = s.get_char(a + k);
        let d: u32 = (c as u32) - ('0' as u32);
        assert(s@.subrange(a as int, a + k + 1).drop_last() =~= s@.subrange(a as int, a + k));
        assert(pow10((k + 1) as nat) == 10 * pow10(k as nat));
        proof {
            if k + 1 <= 4 {
                assert(pow10(0) == 1);
                assert(pow10(1) == 10);
                assert(pow10(2) == 100);
                assert(pow10(3) == 1000);
                assert(pow10(4) == 10000);
            }
        }
        assert(v * 10 + d < 10 * pow10(k as nat)) by (nonlinear_arith)
            requires
                v < pow10(k as nat),
                d < 10,
        ;
        v = v * 10 + d;
        k = k + 1;
    }
    v
}

/// The date and time that a canonical match at `i` of `st` writes.
pub open spec fn canonical_fields(st: Seq<char>, i: int) -> LocalDateTime {
    LocalDateTime {
        year: number_of(st.subrange(i, i + 4)) as i32,
        month: number_of(st.subrange(i + 5, i + 7)) as u32,
        day: number_of(st.subrange(i + 8, i + 10)) as u32,
        hour: number_of(st.subrange(i + 11, i + 13)) as u32,
        minute: number_of(st.subrange(i + 14, i + 16)) as u32,
        second: number_of(st.subrange(i + 17, i + 19)) as u32,
    }
}

/// Year and month directories under the file's own directory, for a file
/// whose name (without extension) holds a canonical date.
pub open spec fn canonical_destination_of(p: Seq<char>) -> Option<Seq<char>> {
    match stem_of(p) {
        Some(st) => match first_match_from(canonical_toks(), st, 0) {
            Some(i) => match (file_name_of(p), parent_of(p)) {
                (Some(n), Some(d)) => Some(
                    join(join(join(d, st.subrange(i, i + 4)), st.subrange(i + 5, i + 7)), n),
                ),
                _ => None,
            },
            None => None,
        },
        None => None,
    }
}

/// Where the mover puts a file: none for a file that is not an image or a
/// video, or whose name holds no canonical date.
pub open spec fn move_destination_of(p: Seq<char>) -> Option<Seq<char>> {
    if kind_of(p) == MediaKind::Unrecognized {
        None
    } else {
        canonical_destination_of(p)
    }
}

/// The date and time in the canonical name of a recognised file.
pub open spec fn canonical_date_time_of(p: Seq<char>) -> Option<LocalDateTime> {
    if kind_of(p) == MediaKind::Unrecognized {
        None
    } else {
        match stem_of(p) {
            Some(st) => match first_match_from(canonical_toks(), st, 0) {
                Some(i) => Some(canonical_fields(st, i)),
                None => None,
            },
            None => None,
        }
    }
}

/// Seconds from the epoch to any valid calendar time stay far inside `i64`.
pub proof fn lemma_unix_seconds_bounded(dt: LocalDateTime)
    requires
        dt.wf(),
    ensures
        -10_000_000_000_000 < unix_seconds_of(dt) < 10_000_000_000_000,
{
    let y = dt.year as int;
    let m = dt.month as int;
    let d = dt.day as int;
    let yy = if m <= 2 {
        y - 1
    } else {
        y
    };
    let era = yy / 400;
    assert(MIN_YEAR - 1 <= yy <= MAX_YEAR);
    assert(-700 <= era <= 700) by (nonlinear_arith)
        requires
            era == yy / 400,
            -262144 <= yy <= 262142,
    ;
    let yoe = yy - era * 400;
    assert(0 <= yoe < 400) by (nonlinear_arith)
        requires
            era == yy / 400,
            yoe == yy - era * 400,
    ;
    let doy = (153 * ((m + 9) % 12) + 2) / 5 + d - 1;
    assert(0 <= doy <= 400) by (nonlinear_arith)
        requires
            doy == (153 * ((m + 9) % 12) + 2) / 5 + d - 1,
            1 <= d <= 31,
    ;
    let doe = yoe * 365 + yoe / 4 - yoe / 100 + doy;
    assert(0 <= doe <= 400 * 366) by (nonlinear_arith)
        requires
            doe == yoe * 365 + yoe / 4 - yoe / 100 + doy,
            0 <= yoe < 400,
            0 <= doy <= 400,
    ;
    assert(days_from_civil(y, m, d) == era * 146097 + doe - 719468);
}

/// The modification time that the timestamp rewrite gives a file: its
/// canonical date and time read as UTC, less the zone offset; none where
/// the date or time is not valid.
pub open spec fn rewrite_time_of(p: Seq<char>) -> Option<int> {
    match canonical_date_time_of(p) {
        Some(dt) => if dt.wf() {
            Some(unix_seconds_of(dt) - TIME_ZONE_OFFSET_SECONDS)
        } else {
            None
        },
        None => None,
    }
}

/// The match of the canonical pattern in the file's stem, with the stem.
fn canonical_match(file_path: &str) -> (r: Option<(String, usize)>)
    ensures
        match r {
            Some(m) => kind_of(file_path@) != MediaKind::Unrecognized && stem_of(file_path@)
                == Some(m.0@) && first_match_from(canonical_toks(), m.0@, 0) == Some(m.1 as int)
                && matches_at(canonical_toks(), m.0@, m.1 as int) && m.1 + 19 <= usize::MAX,
            None => kind_of(file_path@) == MediaKind::Unrecognized || match stem_of(file_path@) {
                Some(st) => first_match_from(canonical_toks(), st, 0) is None,
                None => true,
            },
        },
{
    if classify(file_path) == MediaKind::Unrecognized {
        return None;
    }
    match get_file_name_without_extension(file_path) {
        Some(st) => {
            let toks = canonical_pattern();
            match find_match(&toks, st.as_str()) {
                Some(i) => {
                    proof {
                        lemma_first_match_fits(toks@, st@, 0);
                    }
                    Some((st, i))
                },
                None => None,
            }
        },
        None => None,
    }
}

/// Where the mover puts a file: `<dir>/<year>/<month>/<file name>`.
pub fn move_destination(file_path: &str) -> (r: Option<String>)
    ensures
        match move_destination_of(file_path@) {
            Some(x) => r is Some && r->0@ == x,
            None => r is None,
        },
{
    match canonical_match(file_path) {
        Some(m) => {
            let (st, i) = m;
            let s = st.as_str();
            let n = get_file_name(file_path);
            let d = get_parent_dir(file_path);
            match (n, d) {
                (Some(n), Some(d)) => {
                    let year = s.substring_char(i, i + 4);
                    let month = s.substring_char(i + 5, i + 7);
                    Some(generate_complete_path(d.as_str(), year, month, n.as_str()))
                },
                _ => None,
            }
        },
        None => None,
    }
}

/// The date and time in a recognised file's canonical name.
pub fn canonical_date_time(file_path: &str) -> (r: Option<LocalDateTime>)
    ensures
        r == canonical_date_time_of(file_path@),
{
    match canonical_match(file_path) {
        Some(m) => {
            let (st, i) = m;
            let s = st.as_str();
            let ghost t = canonical_toks();
            proof {
                assert forall|k: int| i <= k < i + 4 implies '0' <= #[trigger] s@[k] <= '9' by {
                    assert(t[k - i] == Tok::Digit);
                    assert(s@[i + (k - i)] == s@[k]);
                }
                assert forall|k: int| i + 5 <= k < i + 7 implies '0' <= #[trigger] s@[k] <= '9' by {
                    assert(t[k - i] == Tok::Digit);
                    assert(s@[i + (k - i)] == s@[k]);
                }
                assert forall|k: int| i + 8 <= k < i + 10 implies '0' <= #[trigger] s@[k] <= '9' by {
                    assert(t[k - i] == Tok::Digit);
                    assert(s@[i + (k - i)] == s@[k]);
                }
                assert forall|k: int| i + 11 <= k < i + 13 implies '0' <= #[trigger] s@[k] <= '9' by {
                    assert(t[k - i] == Tok::Digit);
                    assert(s@[i + (k - i)] == s@[k]);
                }
                assert forall|k: int| i + 14 <= k < i + 16 implies '0' <= #[trigger] s@[k] <= '9' by {
                    assert(t[k - i] == Tok::Digit);
                    assert(s@[i + (k - i)] == s@[k]);
                }
                assert forall|k: int| i + 17 <= k < i + 19 implies '0' <= #[trigger] s@[k] <= '9' by {
                    assert(t[k - i] == Tok::Digit);
                    assert(s@[i + (k - i)] == s@[k]);
                }
            }
            let year = parse_digits(s, i, 4);
            let month = parse_digits(s, i + 5, 2);
            let day = parse_digits(s, i + 8, 2);
            let hour = parse_digits(s, i + 11, 2);
            let minute = parse_digits(s, i + 14, 2);
            let second = parse_digits(s, i + 17, 2);
            Some(
                LocalDateTime {
                    year: year as i32,
                    month,
                    day,
                    hour,
                    minute,
                    second,
                },
            )
        },
        None => None,
    }
}

/// The modification time, in seconds since the epoch, that the timestamp
/// rewrite gives a file; none for a file it leaves alone.
pub fn modified_time_for(file_path: &str) -> (r: Option<i64>)
    ensures
        match rewrite_time_of(file_path@) {
            Some(t) => r == Some(t as i64),
            None => r is None,
        },
{
    match canonical_date_time(file_path) {
        Some(dt) => {
            if is_valid_date(dt.year, dt.month, dt.day) && is_valid_time(dt.hour, dt.minute, dt.second) {
                let t = naive_timestamp(&dt);
                proof {
                    lemma_unix_seconds_bounded(dt);
                }
                Some(t - TIME_ZONE_OFFSET_SECONDS)
            } else {
                None
            }
        },
        None => None,
    }
}

/// A file that is neither an image nor a video is never moved, never gets
/// a new modification time, and no rename or move of it goes ahead.
pub proof fn lemma_unrecognized_untouched(
    p: Seq<char>,
    target: Option<String>,
    target_exists: bool,
    r: crate::naming::Step,
)
    requires
        kind_of(p) == MediaKind::Unrecognized,
        crate::naming::step_is(r, p, target, target_exists),
    ensures
        move_destination_of(p) is None,
        rewrite_time_of(p) is None,
        r == crate::naming::Step::Skip,
{
}

pub open spec fn example_canonical_file() -> Seq<char> {
    seq!['2', '0', '2', '3', '-', '0', '7', '-', '1', '5', ' ', '0', '9', '.', '3', '0', '.', '0', '0', '.', 'p', 'n', 'g']
}

pub open spec fn example_canonical_stem() -> Seq<char> {
    seq!['2', '0', '2', '3', '-', '0', '7', '-', '1', '5', ' ', '0', '9', '.', '3', '0', '.', '0', '0']
}

/// What a file named `2023-07-15 09.30.00.png` is to the mover and the
/// timestamp rewrite: an image whose stem holds a canonical date at its start.
proof fn lemma_example_canonical_file(p: Seq<char>)
    requires
        file_name_of(p) == Some(example_canonical_file()),
    ensures
        kind_of(p) == MediaKind::Image,
        stem_of(p) == Some(example_canonical_stem()),
        first_match_from(canonical_toks(), example_canonical_stem(), 0) == Some(0int),
{
    let name = example_canonical_file();
    let a1 = name.drop_last();
    let a2 = a1.drop_last();
    let a3 = a2.drop_last();
    assert(name.last() == 'g' && a1.last() == 'n' && a2.last() == 'p' && a3.last() == '.');
    assert(a3.len() == 20);
    assert(last_index_of(a3, '.') == Some(19int));
    assert(last_index_of(a2, '.') == Some(19int));
    assert(last_index_of(a1, '.') == Some(19int));
    assert(last_index_of(name, '.') == Some(19int));
    assert(name.subrange(20, 23) =~= seq!['p', 'n', 'g']);
    assert(eq_ignoring_case(name.subrange(20, 23), seq!['p', 'n', 'g']));
    assert(extension_of(p) == Some(name.subrange(20, 23)));
    let st = example_canonical_stem();
    assert(name.subrange(0, 19) =~= st);
    let t = canonical_toks();
    assert(t.len() == 19);
    assert forall|k: int| 0 <= k < 19 implies tok_matches(t[k], #[trigger] st[0 + k]) by {
        assert(st[0 + k] == st[k]);
    }
    assert(matches_at(t, st, 0));
}

/// A file named `2023-07-15 09.30.00.png` moves to `2023/07/` under its own
/// directory, keeping its name.
pub proof fn lemma_move_example(p: Seq<char>)
    requires
        file_name_of(p) == Some(example_canonical_file()),
    ensures
        parent_of(p) matches Some(d) && move_destination_of(p) == Some(
            join(join(join(d, seq!['2', '0', '2', '3']), seq!['0', '7']), example_canonical_file()),
        ),
{
    lemma_example_canonical_file(p);
    let st = example_canonical_stem();
    assert(st.subrange(0, 4) =~= seq!['2', '0', '2', '3']);
    assert(st.subrange(5, 7) =~= seq!['0', '7']);
}

/// The value of a two-digit run.
proof fn lemma_number_of_two(s: Seq<char>)
    requires
        s.len() == 2,
    ensures
        number_of(s) == (s[0] as int - '0' as int) * 10 + (s[1] as int - '0' as int),
{
    assert(s.drop_last().drop_last() =~= Seq::<char>::empty());
    assert(number_of(s.drop_last().drop_last()) == 0);
    assert(s.drop_last().last() == s[0]);
    assert(number_of(s.drop_last()) == s[0] as int - '0' as int);
    assert(s.last() == s[1]);
}

/// The timestamp rewrite sets a file named `2023-07-15 09.30.00.png` to
/// 2023-07-15 09:30:00 read as UTC (1689413400), less the zone offset.
pub proof fn lemma_rewrite_example(p: Seq<char>)
    requires
        file_name_of(p) == Some(example_canonical_file()),
    ensures
        rewrite_time_of(p) == Some(1689413400 - TIME_ZONE_OFFSET_SECONDS),
{
    lemma_example_canonical_file(p);
    let st = example_canonical_stem();
    lemma_number_of_two(st.subrange(0, 2));
    lemma_number_of_two(st.subrange(0, 4).drop_last().drop_last());
    assert(st.subrange(0, 4).drop_last().drop_last() =~= st.subrange(0, 2));
    assert(number_of(st.subrange(0, 4).drop_last()) == 202);
    lemma_number_of_two(st.subrange(5, 7));
    lemma_number_of_two(st.subrange(8, 10));
    lemma_number_of_two(st.subrange(11, 13));
    lemma_number_of_two(st.subrange(14, 16));
    lemma_number_of_two(st.subrange(17, 19));
    let dt = canonical_fields(st, 0);
    assert(dt.year == 2023 && dt.month == 7 && dt.day == 15);
    assert(dt.hour == 9 && dt.minute == 30 && dt.second == 0);
    assert(dt.wf());
    assert(days_from_civil(2023, 7, 15) == 19553);
    assert(unix_seconds_of(dt) == 1689413400);
}

} // verus!
