//! Reading the covered percentage out of a coverage tool's standard output.
use crate::result::CoverageParseErr;
use crate::text::{
    chars_of, decimal, digit_char, digit_value, digits_value, is_digit, lemma_decimal_value,
    lemma_digit_round_trip, lemma_digits_value_push, text_of,
};
use vstd::prelude::*;

verus! {

/// Position `i` of `o` is part of a line break: a `\n`, or the `\r` of a `\r\n`.
pub open spec fn breaks_at(o: Seq<char>, i: int) -> bool {
    o[i] == '\n' || (o[i] == '\r' && i + 1 < o.len() && o[i + 1] == '\n')
}

/// Where the text before `c` ends once the line breaks just before `c` are set aside.
pub open spec fn content_end(o: Seq<char>, c: int) -> int
    decreases c,
{
    if c > 0 && breaks_at(o, c - 1) {
        content_end(o, c - 1)
    } else {
        c
    }
}

/// Where the line holding position `c - 1` begins.
pub open spec fn line_begin(o: Seq<char>, c: int) -> int
    decreases c,
{
    if c > 0 && o[c - 1] != '\n' {
        line_begin(o, c - 1)
    } else {
        c
    }
}

/// The output holds a non-empty line.
pub open spec fn has_last_line(o: Seq<char>) -> bool {
    content_end(o, o.len() as int) > 0
}

/// The last non-empty line of the output, without its line break.
pub open spec fn last_line(o: Seq<char>) -> Seq<char> {
    let c = content_end(o, o.len() as int);
    o.subrange(line_begin(o, c), c)
}

/// The end of the run of digits of `l` that starts at `i`.
pub open spec fn digit_run(l: Seq<char>, i: int) -> int
    decreases l.len() - i,
{
    if 0 <= i < l.len() && is_digit(l[i]) {
        digit_run(l, i + 1)
    } else {
        i
    }
}

pub open spec fn coverage_suffix() -> Seq<char> {
    "% coverage"@
}

/// `l` starts with one or more digits, a point, exactly two digits, then `% coverage`.
pub open spec fn coverage_shape(l: Seq<char>) -> bool {
    let k = digit_run(l, 0);
    &&& k >= 1
    &&& k + 13 <= l.len()
    &&& l[k] == '.'
    &&& is_digit(l[k + 1])
    &&& is_digit(l[k + 2])
    &&& l.subrange(k + 3, k + 13) == coverage_suffix()
}

/// The number at the start of a coverage line, in hundredths of a percent.
pub open spec fn coverage_value(l: Seq<char>) -> nat {
    let k = digit_run(l, 0);
    digits_value(l.subrange(0, k)) * 100 + digits_value(l.subrange(k + 1, k + 3))
}

/// The number at the start of a coverage line, as written.
pub open spec fn number_text(l: Seq<char>) -> Seq<char> {
    l.subrange(0, digit_run(l, 0) + 3)
}

/// The largest share, one hundred percent, in hundredths of a percent.
pub const FULL_COVERAGE: u32 = 10000;

/// Reads the report line of a coverage tool, such as `25.05% coverage`.
pub struct CoverageParser;

fn is_digit_char(c: char) -> (r: bool)
    ensures
        r == is_digit(c),
{
    '0' <= c && c <= '9'
}

fn digit_val(c: char) -> (r: u32)
    requires
        is_digit(c),
    ensures
        r == digit_value(c),
        r < 10,
{
    c as u32 - '0' as u32
}

fn is_break_at(cs: &Vec<char>, i: usize) -> (r: bool)
    requires
        i < cs.len(),
    ensures
        r == breaks_at(cs@, i as int),
{
    cs[i] == '\n' || (cs[i] == '\r' && i + 1 < cs.len() && cs[i + 1] == '\n')
}

proof fn lemma_digit_run_step(l: Seq<char>, i: int)
    requires
        0 <= i < l.len(),
        is_digit(l[i]),
    ensures
        digit_run(l, i) == digit_run(l, i + 1),
{
}

impl CoverageParser {
    pub fn new() -> (r: Self) {
        CoverageParser
    }

    /// Reads the covered share, in hundredths of a percent, from the last non-empty
    /// line of `output`.
    pub fn parse(&self, output: String) -> (r: Result<u32, CoverageParseErr>)
        ensures
            !has_last_line(output@) ==> r matches Err(CoverageParseErr::NoLastLine),
            has_last_line(output@) && !coverage_shape(last_line(output@)) ==> r matches Err(
                CoverageParseErr::InvalidOutput,
            ),
            has_last_line(output@) && coverage_shape(last_line(output@)) && coverage_value(
                last_line(output@),
            ) > FULL_COVERAGE ==> (r matches Err(CoverageParseErr::InvalidValue(t)) && t@
                == number_text(last_line(output@))),
            has_last_line(output@) && coverage_shape(last_line(output@)) && coverage_value(
                last_line(output@),
            ) <= FULL_COVERAGE ==> r == Ok::<u32, CoverageParseErr>(
                coverage_value(last_line(output@)) as u32,
            ),
    {
        let cs = chars_of(output.as_str());
        let ghost o = cs@;
        let mut c: usize = cs.len();
        while c > 0 && is_break_at(&cs, c - 1)
            invariant
                c <= cs.len(),
                cs@ == o,
                content_end(o, c as int) == content_end(o, o.len() as int),
            decreases c,
        {
            c = c - 1;
        }
        if c == 0 {
            return Err(CoverageParseErr::NoLastLine);
        }
        let mut a: usize = c;
        while a > 0 && cs[a - 1] != '\n'
            invariant
                a <= c <= cs.len(),
                cs@ == o,
                line_begin(o, a as int) == line_begin(o, c as int),
            decreases a,
        {
            a = a - 1;
        }
        let mut line: Vec<char> = Vec::new();
        let mut i: usize = a;
        while i < c
            invariant
                a <= i <= c <= cs.len(),
                cs@ == o,
                line@ == o.subrange(a as int, i as int),
            decreases c - i,
        {
            line.push(cs[i]);
            i += 1;
            assert(line@ =~= o.subrange(a as int, i as int));
        }
        assert(line@ == last_line(output@));
        parse_line(&line)
    }
}

/// Reads one coverage line; the value is checked against one hundred percent.
fn parse_line(l: &Vec<char>) -> (r: Result<u32, CoverageParseErr>)
    ensures
        !coverage_shape(l@) ==> r matches Err(CoverageParseErr::InvalidOutput),
        coverage_shape(l@) && coverage_value(l@) > FULL_COVERAGE ==> (r matches Err(
            CoverageParseErr::InvalidValue(t),
        ) && t@ == number_text(l@)),
        coverage_shape(l@) && coverage_value(l@) <= FULL_COVERAGE ==> r == Ok::<
            u32,
            CoverageParseErr,
        >(coverage_value(l@) as u32),
{
    let mut k: usize = 0;
    // the integer part read so far, or 1000 once it reaches 1000
    let mut whole: u32 = 0;
    while k < l.len() && is_digit_char(l[k])
        invariant
            k <= l.len(),
            digit_run(l@, k as int) == digit_run(l@, 0),
            whole <= 1000,
            digits_value(l@.subrange(0, k as int)) < 1000 ==> whole == digits_value(
                l@.subrange(0, k as int),
            ),
            digits_value(l@.subrange(0, k as int)) >= 1000 ==> whole == 1000,
        decreases l.len() - k,
    {
        proof {
            lemma_digit_run_step(l@, k as int);
            assert(l@.subrange(0, k as int + 1) =~= l@.subrange(0, k as int).push(l@[k as int]));
            lemma_digits_value_push(l@.subrange(0, k as int), l@[k as int]);
        }
        let d = digit_val(l[k]);
        if whole < 1000 {
            whole = whole * 10 + d;
            if whole > 1000 {
                whole = 1000;
            }
        }
        k += 1;
    }
    assert(digit_run(l@, k as int) == k);
    if k == 0 || l.len() - k < 13 || l[k] != '.' || !is_digit_char(l[k + 1]) || !is_digit_char(
        l[k + 2],
    ) {
        return Err(CoverageParseErr::InvalidOutput);
    }
    let suffix = chars_of("% coverage");
    proof {
        reveal_strlit("% coverage");
    }
    assert(suffix@.len() == 10);
    let mut j: usize = 0;
    while j < 10
        invariant
            j <= 10,
            k + 13 <= l.len(),
            digit_run(l@, 0) == k as int,
            suffix@ == coverage_suffix(),
            suffix@.len() == 10,
            forall|m: int| 0 <= m < j ==> l@[k + 3 + m] == suffix@[m],
        decreases 10 - j,
    {
        if l[k + 3 + j] != suffix[j] {
            assert(l@.subrange(k + 3, k + 13)[j as int] != coverage_suffix()[j as int]);
            return Err(CoverageParseErr::InvalidOutput);
        }
        j += 1;
    }
    assert(l@.subrange(k as int + 3, k as int + 13) =~= coverage_suffix());
    let d1 = digit_val(l[k + 1]);
    let d2 = digit_val(l[k + 2]);
    proof {
        let f = l@.subrange(k as int + 1, k as int + 3);
        assert(f.drop_last() =~= seq![l@[k as int + 1]]);
        let one = seq![l@[k as int + 1]];
        assert(one.drop_last() =~= Seq::<char>::empty());
        assert(digits_value(Seq::<char>::empty()) == 0);
        assert(digits_value(one) == digits_value(one.drop_last()) * 10 + digit_value(one.last()));
        assert(digits_value(one) == d1);
        assert(digits_value(f) == digits_value(f.drop_last()) * 10 + digit_value(f.last()));
        assert(digits_value(f) == d1 * 10 + d2);
    }
    let total: u32 = whole * 100 + d1 * 10 + d2;
    if total > FULL_COVERAGE {
        return Err(CoverageParseErr::InvalidValue(text_of(l, 0, k + 3)));
    }
    Ok(total)
}

/// The report line for a share `v` in hundredths of a percent: the whole part, a point,
/// exactly two decimals, then `% coverage`.
pub open spec fn report_line(v: nat) -> Seq<char> {
    decimal(v / 100) + seq!['.', digit_char((v % 100) / 10), digit_char(v % 10)]
        + coverage_suffix()
}

proof fn lemma_line_begin_without_breaks(o: Seq<char>, c: int)
    requires
        0 <= c <= o.len(),
        forall|i: int| 0 <= i < c ==> o[i] != '\n',
    ensures
        line_begin(o, c) == 0,
    decreases c,
{
    if c > 0 {
        lemma_line_begin_without_breaks(o, c - 1);
    }
}

proof fn lemma_digit_run_to(l: Seq<char>, i: int, k: int)
    requires
        0 <= i <= k < l.len(),
        forall|j: int| i <= j < k ==> is_digit(l[j]),
        !is_digit(l[k]),
    ensures
        digit_run(l, i) == k,
    decreases k - i,
{
    if i < k {
        lemma_digit_run_to(l, i + 1, k);
    }
}

/// Writing a share as a report line and reading the line back gives the same share:
/// the line is the output's last line, it has the coverage shape, and its value is
/// `v`. The parser therefore returns `v` when `v` is at most one hundred percent and
/// an error otherwise.
pub proof fn lemma_report_round_trip(v: nat)
    ensures
        has_last_line(report_line(v)),
        last_line(report_line(v)) == report_line(v),
        coverage_shape(report_line(v)),
        coverage_value(report_line(v)) == v,
{
    reveal_strlit("% coverage");
    let o = report_line(v);
    let d = decimal(v / 100);
    let n = d.len() as int;
    lemma_decimal_value(v / 100);
    lemma_digit_round_trip((v % 100) / 10);
    lemma_digit_round_trip(v % 10);
    let sfx = coverage_suffix();
    assert(sfx.len() == 10);
    assert(o.len() == n + 13);
    assert(o[n] == '.');
    assert(o[n + 12] == 'e');
    assert(content_end(o, o.len() as int) == o.len());
    assert forall|i: int| 0 <= i < o.len() implies o[i] != '\n' by {
        if i < n {
            assert(o[i] == d[i]);
            assert(is_digit(d[i]));
        } else if i >= n + 3 {
            assert(o[i] == sfx[i - n - 3]);
        }
    }
    lemma_line_begin_without_breaks(o, o.len() as int);
    assert(o.subrange(0, o.len() as int) =~= o);
    assert forall|j: int| 0 <= j < n implies is_digit(o[j]) by {
        assert(o[j] == d[j]);
    }
    lemma_digit_run_to(o, 0, n);
    assert(o.subrange(n + 3, n + 13) =~= sfx);
    assert(o.subrange(0, n) =~= d);
    let f = o.subrange(n + 1, n + 3);
    let one = seq![o[n + 1]];
    assert(f.drop_last() =~= one);
    assert(one.drop_last() =~= Seq::<char>::empty());
    assert(digits_value(Seq::<char>::empty()) == 0);
    assert(digits_value(one) == digits_value(one.drop_last()) * 10 + digit_value(one.last()));
    assert(digits_value(f) == digits_value(f.drop_last()) * 10 + digit_value(f.last()));
    assert(digits_value(f) == ((v % 100) / 10) * 10 + v % 10);
    assert(v == (v / 100) * 100 + ((v % 100) / 10) * 10 + v % 10);
}

} // verus!
