//! Line parser: turns one raw text line into an angle/distance pair.
//!
//! A line is accepted exactly when splitting it on `,` yields two parts.
//! Each part is trimmed, a literal field-name prefix (`Angle:` for the first
//! part, `Distance:` for the second) is stripped when present, and the result
//! is trimmed again. No numeric validation is performed: whatever text is
//! left stands verbatim in the reading.

use vstd::prelude::*;

verus! {

/// Whitespace removed by trimming: the ASCII blank characters.
pub open spec fn is_space(c: char) -> bool {
    c == ' ' || c == '\t' || c == '\n' || c == '\r'
}

/// The given character sequence without its leading whitespace.
pub open spec fn trim_start_spec(s: Seq<char>) -> Seq<char>
    decreases s.len(),
{
    if s.len() > 0 && is_space(s[0]) {
        trim_start_spec(s.drop_first())
    } else {
        s
    }
}

/// The given character sequence without its trailing whitespace.
pub open spec fn trim_end_spec(s: Seq<char>) -> Seq<char>
    decreases s.len(),
{
    if s.len() > 0 && is_space(s.last()) {
        trim_end_spec(s.drop_last())
    } else {
        s
    }
}

/// The given character sequence without surrounding whitespace.
pub open spec fn trim_spec(s: Seq<char>) -> Seq<char> {
    trim_end_spec(trim_start_spec(s))
}

/// The field-name prefix of the first part of a line.
pub open spec fn angle_prefix() -> Seq<char> {
    seq!['A', 'n', 'g', 'l', 'e', ':']
}

/// The field-name prefix of the second part of a line.
pub open spec fn distance_prefix() -> Seq<char> {
    seq!['D', 'i', 's', 't', 'a', 'n', 'c', 'e', ':']
}

/// `s` without the prefix `p` when `p` starts it; otherwise `s` unchanged.
pub open spec fn strip_prefix_spec(s: Seq<char>, p: Seq<char>) -> Seq<char> {
    if p.len() <= s.len() && s.subrange(0, p.len() as int) == p {
        s.subrange(p.len() as int, s.len() as int)
    } else {
        s
    }
}

/// What one half of a line becomes: trimmed, prefix-stripped when the prefix
/// is present, and trimmed again (so whitespace freed by the strip goes too).
pub open spec fn clean_field_spec(s: Seq<char>, p: Seq<char>) -> Seq<char> {
    trim_spec(strip_prefix_spec(trim_spec(s), p))
}

/// Number of commas in the sequence.
pub open spec fn comma_count(s: Seq<char>) -> nat
    decreases s.len(),
{
    if s.len() == 0 {
        0
    } else {
        comma_count(s.drop_last()) + (if s.last() == ',' {
            1nat
        } else {
            0nat
        })
    }
}

/// Index of the first comma at or after position `i`, or the length of the
/// sequence when there is none.
pub open spec fn first_comma(s: Seq<char>, i: int) -> int
    decreases s.len() - i,
{
    if i < 0 || i >= s.len() {
        s.len() as int
    } else if s[i] == ',' {
        i
    } else {
        first_comma(s, i + 1)
    }
}

/// What the parser returns for a raw line: the two cleaned halves around the
/// single comma when the line holds exactly one comma, nothing otherwise.
pub open spec fn parse_spec(s: Seq<char>) -> Option<(Seq<char>, Seq<char>)> {
    if comma_count(s) == 1 {
        Some(
            (
                clean_field_spec(s.subrange(0, first_comma(s, 0)), angle_prefix()),
                clean_field_spec(
                    s.subrange(first_comma(s, 0) + 1, s.len() as int),
                    distance_prefix(),
                ),
            ),
        )
    } else {
        None
    }
}

/// Parser field law: a line with exactly one comma parses to its two halves,
/// each trimmed and stripped of its field-name prefix when present; a line
/// with zero or with two or more commas yields no reading.
pub proof fn lemma_parser_fields(s: Seq<char>)
    ensures
        comma_count(s) == 1 ==> parse_spec(s) == Some(
            (
                clean_field_spec(s.subrange(0, first_comma(s, 0)), angle_prefix()),
                clean_field_spec(s.subrange(first_comma(s, 0) + 1, s.len() as int), distance_prefix()),
            ),
        ),
        comma_count(s) != 1 ==> parse_spec(s) is None,
{
}

proof fn lemma_first_comma_at(s: Seq<char>, i: int, k: int)
    requires
        0 <= i <= k < s.len(),
        s[k] == ',',
        forall|j: int| i <= j < k ==> s[j] != ',',
    ensures
        first_comma(s, i) == k,
    decreases k - i,
{
    if i < k {
        lemma_first_comma_at(s, i + 1, k);
    }
}

proof fn lemma_trim_start_at(s: Seq<char>, i: int)
    requires
        0 <= i <= s.len(),
        forall|j: int| 0 <= j < i ==> is_space(s[j]),
        i < s.len() ==> !is_space(s[i]),
    ensures
        trim_start_spec(s) =~= s.subrange(i, s.len() as int),
    decreases i,
{
    if i == 0 {
        assert(s.subrange(0, s.len() as int) =~= s);
    } else {
        assert(is_space(s[0]));
        lemma_trim_start_at(s.drop_first(), i - 1);
        assert(s.drop_first().subrange(i - 1, s.drop_first().len() as int) =~= s.subrange(
            i,
            s.len() as int,
        ));
    }
}

proof fn lemma_trim_end_at(s: Seq<char>, i: int)
    requires
        0 <= i <= s.len(),
        forall|j: int| i <= j < s.len() ==> is_space(s[j]),
        i > 0 ==> !is_space(s[i - 1]),
    ensures
        trim_end_spec(s) =~= s.subrange(0, i),
    decreases s.len(),
{
    if i == s.len() {
        assert(s.subrange(0, s.len() as int) =~= s);
    } else {
        assert(is_space(s.last()));
        lemma_trim_end_at(s.drop_last(), i);
        assert(s.drop_last().subrange(0, i) =~= s.subrange(0, i));
    }
}

fn is_space_exec(c: char) -> (r: bool)
    ensures
        r == is_space(c),
{
    c == ' ' || c == '\t' || c == '\n' || c == '\r'
}

/// Surrounding whitespace removed from a string slice.
fn trim_str<'a>(s: &'a str) -> (r: &'a str)
    ensures
        r@ == trim_spec(s@),
{
    let n = s.unicode_len();
    let mut start: usize = 0;
    while start < n && is_space_exec(s.get_char(start))
        invariant
            n == s@.len(),
            0 <= start <= n,
            forall|j: int| 0 <= j < start ==> is_space(s@[j]),
        decreases n - start,
    {
        start += 1;
    }
    let mut end: usize = n;
    while end > start && is_space_exec(s.get_char(end - 1))
        invariant
            n == s@.len(),
            start <= end <= n,
            forall|j: int| end <= j < n ==> is_space(s@[j]),
        decreases end,
    {
        end -= 1;
    }
    proof {
        lemma_trim_start_at(s@, start as int);
        let t = s@.subrange(start as int, n as int);
        lemma_trim_end_at(t, end - start);
        assert(t.subrange(0, end - start) =~= s@.subrange(start as int, end as int));
    }
    s.substring_char(start, end)
}

/// `s` without the prefix `p` when `p` starts it; otherwise `s` unchanged.
fn strip_prefix_str<'a>(s: &'a str, p: &str) -> (r: &'a str)
    ensures
        r@ == strip_prefix_spec(s@, p@),
{
    let n = s.unicode_len();
    let m = p.unicode_len();
    if m > n {
        return s;
    }
    let mut j: usize = 0;
    while j < m
        invariant
            n == s@.len(),
            m == p@.len(),
            0 <= j <= m <= n,
            forall|t: int| 0 <= t < j ==> s@[t] == p@[t],
        decreases m - j,
    {
        if s.get_char(j) != p.get_char(j) {
            proof {
                assert(s@.subrange(0, m as int)[j as int] == s@[j as int]);
                assert(s@.subrange(0, m as int) != p@);
            }
            return s;
        }
        j += 1;
    }
    proof {
        assert(s@.subrange(0, m as int) =~= p@);
    }
    s.substring_char(m, n)
}

/// One half of a line, trimmed, with the field-name prefix stripped when
/// present, then trimmed again.
fn clean_field(part: &str, prefix: &str) -> (r: String)
    ensures
        r@ == clean_field_spec(part@, prefix@),
{
    let t = trim_str(part);
    let u = strip_prefix_str(t, prefix);
    let v = trim_str(u);
    v.to_owned()
}

/// Number of commas in `s`, and the index of the first one (the length of
/// `s` when there is none).
fn count_commas(s: &str) -> (r: (usize, usize))
    ensures
        r.0 == comma_count(s@),
        r.0 == 0 ==> r.1 == s@.len(),
        r.0 > 0 ==> r.1 < s@.len() && s@[r.1 as int] == ',' && first_comma(s@, 0) == r.1,
{
    let n = s.unicode_len();
    let mut cnt: usize = 0;
    let mut pos: usize = n;
    let mut i: usize = 0;
    while i < n
        invariant
            n == s@.len(),
            0 <= i <= n,
            cnt <= i,
            cnt == comma_count(s@.subrange(0, i as int)),
            cnt == 0 ==> pos == n && forall|j: int| 0 <= j < i ==> s@[j] != ',',
            cnt > 0 ==> pos < i && s@[pos as int] == ',' && forall|j: int|
                0 <= j < pos ==> s@[j] != ',',
        decreases n - i,
    {
        let c = s.get_char(i);
        proof {
            assert(s@.subrange(0, i + 1).drop_last() =~= s@.subrange(0, i as int));
            assert(s@.subrange(0, i + 1).last() == s@[i as int]);
        }
        if c == ',' {
            if cnt == 0 {
                pos = i;
            }
            cnt += 1;
        }
        i += 1;
    }
    proof {
        assert(s@.subrange(0, n as int) =~= s@);
        if cnt > 0 {
            lemma_first_comma_at(s@, 0, pos as int);
        }
    }
    (cnt, pos)
}

/// Parse one raw line of serial input.
///
/// Splitting the line on `,` must yield exactly two parts; each part is
/// trimmed, its field-name prefix (`Angle:`, `Distance:`) is stripped when
/// present, and the result is trimmed again. Any other comma count yields
/// no reading. Pure and total: no input is an error.
pub fn parse_radar_data(data: &str) -> (r: Option<(String, String)>)
    ensures
        match r {
            Some(p) => parse_spec(data@) == Some((p.0@, p.1@)),
            None => parse_spec(data@) is None,
        },
{
    let n = data.unicode_len();
    let (cnt, pos) = count_commas(data);
    if cnt != 1 {
        return None;
    }
    let part1 = data.substring_char(0, pos);
    let part2 = data.substring_char(pos + 1, n);
    proof {
        reveal_strlit("Angle:");
        reveal_strlit("Distance:");
        assert("Angle:"@ =~= angle_prefix());
        assert("Distance:"@ =~= distance_prefix());
    }
    let angle = clean_field(part1, "Angle:");
    let distance = clean_field(part2, "Distance:");
    Some((angle, distance))
}

} // verus!

