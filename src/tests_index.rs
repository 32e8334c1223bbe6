//! The set of declared tests, and whether it changed since the last refresh.
use crate::coverage_parser::line_begin;
use crate::entities::TestsState;
use crate::runners::IndexStatus;
use crate::text::{chars_of, text_of};
use vstd::prelude::*;

verus! {

/// Position `b` of `o` ends a line: a `\n` stands there, or the text ends.
pub open spec fn ends_line(o: Seq<char>, b: int) -> bool {
    0 <= b <= o.len() && (b == o.len() || o[b] == '\n')
}

/// The text of the line that ends at `b`, without a `\r` that precedes its `\n`.
pub open spec fn line_text(o: Seq<char>, b: int) -> Seq<char> {
    let a = line_begin(o, b);
    if b < o.len() && b > a && o[b - 1] == '\r' {
        o.subrange(a, b - 1)
    } else {
        o.subrange(a, b)
    }
}

/// A white-space character, as `char::is_whitespace` has it (Unicode `White_Space`).
pub open spec fn is_space(c: char) -> bool {
    ('\u{9}' <= c && c <= '\u{d}') || c == ' ' || c == '\u{85}' || c == '\u{a0}' || c
        == '\u{1680}' || ('\u{2000}' <= c && c <= '\u{200a}') || c == '\u{2028}' || c
        == '\u{2029}' || c == '\u{202f}' || c == '\u{205f}' || c == '\u{3000}'
}

/// A line that holds something other than white space.
pub open spec fn not_blank(t: Seq<char>) -> bool {
    exists|k: int| 0 <= k < t.len() && !is_space(#[trigger] t[k])
}

/// The test names listed in `o`: its non-blank lines, one name per line.
pub open spec fn listed_tests(o: Seq<char>) -> Set<Seq<char>> {
    Set::new(
        |t: Seq<char>| not_blank(t) && exists|b: int| ends_line(o, b) && line_text(o, b) == t,
    )
}

fn is_space_char(c: char) -> (r: bool)
    ensures
        r == is_space(c),
{
    ('\u{9}' <= c && c <= '\u{d}') || c == ' ' || c == '\u{85}' || c == '\u{a0}' || c
        == '\u{1680}' || ('\u{2000}' <= c && c <= '\u{200a}') || c == '\u{2028}' || c
        == '\u{2029}' || c == '\u{202f}' || c == '\u{205f}' || c == '\u{3000}'
}

/// Whether `cs[from..to]` holds a character other than white space.
fn has_content(cs: &Vec<char>, from: usize, to: usize) -> (r: bool)
    requires
        from <= to <= cs.len(),
    ensures
        r == not_blank(cs@.subrange(from as int, to as int)),
{
    let ghost t = cs@.subrange(from as int, to as int);
    let mut i: usize = from;
    while i < to
        invariant
            from <= i <= to <= cs.len(),
            t == cs@.subrange(from as int, to as int),
            forall|k: int| 0 <= k < i - from ==> is_space(#[trigger] t[k]),
        decreases to - i,
    {
        if !is_space_char(cs[i]) {
            assert(!is_space(t[i - from]));
            return true;
        }
        i += 1;
    }
    false
}

/// The names held by a list of strings.
pub open spec fn names(v: Seq<String>) -> Set<Seq<char>> {
    Set::new(|t: Seq<char>| exists|i: int| 0 <= i < v.len() && v[i]@ == t)
}

/// `a` comes before `b` in lexicographic order of characters (a proper prefix comes
/// first). This is the order of `String`'s `Ord`, UTF-8 keeping the order of code points.
pub open spec fn lex_lt(a: Seq<char>, b: Seq<char>) -> bool
    decreases a.len(),
{
    if a.len() == 0 {
        b.len() > 0
    } else if b.len() == 0 {
        false
    } else if a[0] != b[0] {
        a[0] < b[0]
    } else {
        lex_lt(a.drop_first(), b.drop_first())
    }
}

/// The names are in strictly increasing lexicographic order, so none occurs twice.
pub open spec fn sorted(v: Seq<String>) -> bool {
    forall|i: int, j: int| 0 <= i < j < v.len() ==> lex_lt(#[trigger] v[i]@, #[trigger] v[j]@)
}

pub proof fn lemma_lex_irreflexive(a: Seq<char>)
    ensures
        !lex_lt(a, a),
    decreases a.len(),
{
    if a.len() > 0 {
        lemma_lex_irreflexive(a.drop_first());
    }
}

pub proof fn lemma_lex_transitive(a: Seq<char>, b: Seq<char>, c: Seq<char>)
    requires
        lex_lt(a, b),
        lex_lt(b, c),
    ensures
        lex_lt(a, c),
    decreases a.len(),
{
    if a.len() > 0 && b.len() > 0 && c.len() > 0 && a[0] == b[0] && b[0] == c[0] {
        lemma_lex_transitive(a.drop_first(), b.drop_first(), c.drop_first());
    }
}

pub proof fn lemma_lex_total(a: Seq<char>, b: Seq<char>)
    requires
        a != b,
    ensures
        lex_lt(a, b) || lex_lt(b, a),
    decreases a.len(),
{
    if a.len() == 0 && b.len() == 0 {
        assert(a =~= b);
    }
    if a.len() > 0 && b.len() > 0 && a[0] == b[0] {
        if a.drop_first() == b.drop_first() {
            assert(a =~= seq![a[0]] + a.drop_first());
            assert(b =~= seq![b[0]] + b.drop_first());
        }
        lemma_lex_total(a.drop_first(), b.drop_first());
    }
}

/// Whether `a` comes before `b` in lexicographic order.
pub fn lex_less(a: &String, b: &String) -> (r: bool)
    ensures
        r == lex_lt(a@, b@),
{
    let x = chars_of(a.as_str());
    let y = chars_of(b.as_str());
    let mut i: usize = 0;
    assert(x@.skip(0) =~= x@);
    assert(y@.skip(0) =~= y@);
    while i < x.len() && i < y.len() && x[i] == y[i]
        invariant
            i <= x.len(),
            i <= y.len(),
            x@ == a@,
            y@ == b@,
            lex_lt(a@, b@) == lex_lt(x@.skip(i as int), y@.skip(i as int)),
        decreases x.len() - i,
    {
        assert(x@.skip(i as int).drop_first() =~= x@.skip(i as int + 1));
        assert(y@.skip(i as int).drop_first() =~= y@.skip(i as int + 1));
        i += 1;
    }
    if i == x.len() {
        i < y.len()
    } else if i == y.len() {
        false
    } else {
        x[i] < y[i]
    }
}

/// What a refresh reports and which set it keeps, given the stored set, the status of
/// the last tests run, and the listing command's output (`None` when it failed).
pub open spec fn refresh_outcome(
    stored: Set<Seq<char>>,
    tests: TestsState,
    listing: Option<Seq<char>>,
) -> (IndexStatus, Set<Seq<char>>) {
    if tests == TestsState::Failure {
        (IndexStatus::TestsSetChanged, stored)
    } else {
        match listing {
            None => (IndexStatus::Failure, stored),
            Some(o) => if stored != Set::<Seq<char>>::empty() && listed_tests(o) == stored {
                (IndexStatus::TestsSetNotChanged, stored)
            } else {
                (IndexStatus::TestsSetChanged, listed_tests(o))
            },
        }
    }
}

/// Whether `v` holds a string equal to `s`.
pub fn contains(v: &Vec<String>, s: &String) -> (r: bool)
    ensures
        r == names(v@).contains(s@),
{
    let mut i: usize = 0;
    while i < v.len()
        invariant
            i <= v.len(),
            forall|m: int| 0 <= m < i ==> v@[m]@ != s@,
        decreases v.len() - i,
    {
        if v[i] == *s {
            assert(names(v@).contains(s@));
            return true;
        }
        i += 1;
    }
    false
}

/// Whether every name of `a` is a name of `b`.
fn included(a: &Vec<String>, b: &Vec<String>) -> (r: bool)
    ensures
        r == names(a@).subset_of(names(b@)),
{
    let mut i: usize = 0;
    while i < a.len()
        invariant
            i <= a.len(),
            forall|m: int| 0 <= m < i ==> names(b@).contains(#[trigger] a@[m]@),
        decreases a.len() - i,
    {
        if !contains(b, &a[i]) {
            assert(names(a@).contains(a@[i as int]@));
            return false;
        }
        i += 1;
    }
    assert forall|t: Seq<char>| names(a@).contains(t) implies names(b@).contains(t) by {
        let m = choose|m: int| 0 <= m < a@.len() && a@[m]@ == t;
        assert(names(b@).contains(a@[m]@));
    }
    true
}

/// Adds `s` to `v` at its place in lexicographic order, unless it is already there.
fn insert_name(v: &mut Vec<String>, s: String)
    requires
        sorted(old(v)@),
    ensures
        sorted(final(v)@),
        forall|t: Seq<char>|
            #[trigger] names(final(v)@).contains(t) <==> (names(old(v)@).contains(t) || t == s@),
{
    let ghost before = v@;
    let ghost sv = s@;
    let mut p: usize = 0;
    while p < v.len()
        invariant
            p <= v.len(),
            v@ == before,
            s@ == sv,
            forall|k: int| 0 <= k < p ==> lex_lt(#[trigger] v@[k]@, sv),
        ensures
            p < v.len() ==> !lex_lt(v@[p as int]@, sv),
        decreases v.len() - p,
    {
        if !lex_less(&v[p], &s) {
            break;
        }
        p += 1;
    }
    if p < v.len() && v[p] == s {
        assert(names(v@).contains(sv));
        return;
    }
    proof {
        if p < v@.len() {
            lemma_lex_total(v@[p as int]@, sv);
        }
    }
    v.insert(p, s);
    assert forall|i: int, j: int| 0 <= i < j < v@.len() implies lex_lt(
        #[trigger] v@[i]@,
        #[trigger] v@[j]@,
    ) by {
        if j < p {
            assert(lex_lt(before[i]@, before[j]@));
        } else if j == p {
            assert(lex_lt(before[i]@, sv));
        } else if i > p {
            assert(lex_lt(before[i - 1]@, before[j - 1]@));
        } else if i == p {
            if j - 1 > p {
                assert(lex_lt(before[p as int]@, before[j - 1]@));
                lemma_lex_transitive(sv, before[p as int]@, before[j - 1]@);
            }
        } else {
            assert(lex_lt(before[i]@, sv));
            if j - 1 > p {
                assert(lex_lt(before[p as int]@, before[j - 1]@));
                lemma_lex_transitive(sv, before[p as int]@, before[j - 1]@);
            }
            lemma_lex_transitive(before[i]@, sv, before[j - 1]@);
        }
    }
    assert forall|t: Seq<char>|
        #[trigger] names(v@).contains(t) <==> (names(before).contains(t) || t == sv) by {
        if names(v@).contains(t) {
            let m = choose|m: int| 0 <= m < v@.len() && v@[m]@ == t;
            if m < p {
                assert(before[m]@ == t);
            } else if m > p {
                assert(before[m - 1]@ == t);
            }
        }
        if names(before).contains(t) {
            let m = choose|m: int| 0 <= m < before.len() && before[m]@ == t;
            if m < p {
                assert(v@[m]@ == t);
            } else {
                assert(v@[m + 1]@ == t);
            }
        }
        if t == sv {
            assert(v@[p as int]@ == t);
        }
    }
}

/// Adds the text of the line of `cs` that ends at `i`, if it is not blank.
fn record_line(found: &mut Vec<String>, cs: &Vec<char>, a: usize, i: usize)
    requires
        a <= i <= cs.len(),
        ends_line(cs@, i as int),
        line_begin(cs@, i as int) == a as int,
        sorted(old(found)@),
    ensures
        sorted(final(found)@),
        forall|t: Seq<char>|
            #[trigger] names(final(found)@).contains(t) <==> (names(old(found)@).contains(t) || (
            not_blank(t) && t == line_text(cs@, i as int))),
{
    let end = if i < cs.len() && i > a && cs[i - 1] == '\r' {
        i - 1
    } else {
        i
    };
    let line = text_of(cs, a, end);
    assert(line@ == line_text(cs@, i as int));
    if has_content(cs, a, end) {
        insert_name(found, line);
    }
}

/// The distinct non-blank lines of `output`, in lexicographic order.
pub fn parse_listing(output: &String) -> (r: Vec<String>)
    ensures
        names(r@) == listed_tests(output@),
        sorted(r@),
{
    let cs = chars_of(output.as_str());
    let ghost o = cs@;
    let mut found: Vec<String> = Vec::new();
    let mut a: usize = 0;
    let mut i: usize = 0;
    while i < cs.len()
        invariant
            cs@ == o,
            a <= i <= cs.len(),
            line_begin(o, i as int) == a as int,
            sorted(found@),
            forall|t: Seq<char>|
                #[trigger] names(found@).contains(t) <==> (not_blank(t) && exists|b: int|
                    0 <= b < i && ends_line(o, b) && line_text(o, b) == t),
        decreases cs.len() - i,
    {
        let ghost before = found@;
        if cs[i] == '\n' {
            record_line(&mut found, &cs, a, i);
            a = i + 1;
        }
        proof {
            assert(line_begin(o, i as int + 1) == if o[i as int] == '\n' {
                i as int + 1
            } else {
                line_begin(o, i as int)
            });
            assert forall|t: Seq<char>|
                #[trigger] names(found@).contains(t) <==> (not_blank(t) && exists|b: int|
                    0 <= b < i + 1 && ends_line(o, b) && line_text(o, b) == t) by {
                if names(found@).contains(t) {
                    if names(before).contains(t) {
                        let b = choose|b: int| 0 <= b < i && ends_line(o, b) && line_text(o, b) == t;
                        assert(0 <= b < i + 1 && ends_line(o, b) && line_text(o, b) == t);
                    } else {
                        assert(ends_line(o, i as int) && line_text(o, i as int) == t);
                    }
                }
                if not_blank(t) && exists|b: int|
                    0 <= b < i + 1 && ends_line(o, b) && line_text(o, b) == t {
                    let b = choose|b: int|
                        0 <= b < i + 1 && ends_line(o, b) && line_text(o, b) == t;
                    if b < i {
                        assert(names(before).contains(t));
                    }
                }
            }
        }
        i += 1;
    }
    let ghost before = found@;
    record_line(&mut found, &cs, a, i);
    assert forall|t: Seq<char>| listed_tests(o).contains(t) implies #[trigger] names(found@).contains(t) by {
        {
            let b = choose|b: int| ends_line(o, b) && line_text(o, b) == t;
            if b < i {
                assert(names(before).contains(t));
            }
        }
    }
    assert forall|t: Seq<char>| #[trigger] names(found@).contains(t) implies listed_tests(o).contains(t) by {
        if names(before).contains(t) {
            let b = choose|b: int| 0 <= b < i && ends_line(o, b) && line_text(o, b) == t;
            assert(ends_line(o, b) && line_text(o, b) == t);
        }
    }
    assert(names(found@) =~= listed_tests(o));
    found
}

/// Keeps the set of declared tests between refreshes and reports whether it changed.
#[derive(Debug)]
pub struct DefaultTestsIndex {
    curr_tests: Vec<String>,
}

impl DefaultTestsIndex {
    /// The set of tests stored by the index.
    pub closed spec fn stored(&self) -> Set<Seq<char>> {
        names(self.curr_tests@)
    }

    /// The names are stored in lexicographic order, each once.
    #[verifier::type_invariant]
    spec fn wf(&self) -> bool {
        sorted(self.curr_tests@)
    }

    /// An index that has seen no test yet.
    pub fn make() -> (r: Self)
        ensures
            r.stored() == Set::<Seq<char>>::empty(),
    {
        let r = DefaultTestsIndex { curr_tests: Vec::new() };
        assert(r.stored() =~= Set::<Seq<char>>::empty());
        r
    }

    /// An index that already stores the distinct names of `tests`.
    pub fn with_tests(tests: Vec<String>) -> (r: Self)
        ensures
            r.stored() == names(tests@),
    {
        let mut curr: Vec<String> = Vec::new();
        let mut i: usize = 0;
        while i < tests.len()
            invariant
                i <= tests.len(),
                sorted(curr@),
                forall|t: Seq<char>|
                    #[trigger] names(curr@).contains(t) <==> (exists|m: int|
                        0 <= m < i && tests@[m]@ == t),
            decreases tests.len() - i,
        {
            let ghost before = curr@;
            insert_name(&mut curr, tests[i].clone());
            assert forall|t: Seq<char>|
                #[trigger] names(curr@).contains(t) <==> (exists|m: int|
                    0 <= m < i + 1 && tests@[m]@ == t) by {
                if names(curr@).contains(t) {
                    if names(before).contains(t) {
                        let m = choose|m: int| 0 <= m < i && tests@[m]@ == t;
                        assert(0 <= m < i + 1 && tests@[m]@ == t);
                    } else {
                        assert(tests@[i as int]@ == t);
                    }
                }
                if exists|m: int| 0 <= m < i + 1 && tests@[m]@ == t {
                    let m = choose|m: int| 0 <= m < i + 1 && tests@[m]@ == t;
                    if m < i {
                        assert(names(before).contains(t));
                    }
                }
            }
            i += 1;
        }
        let r = DefaultTestsIndex { curr_tests: curr };
        assert(r.stored() =~= names(tests@));
        r
    }

    /// The stored names, in lexicographic order.
    pub fn tests(&self) -> (r: &Vec<String>)
        ensures
            names(r@) == self.stored(),
            sorted(r@),
    {
        proof {
            use_type_invariant(self);
        }
        &self.curr_tests
    }

    /// First step of a refresh. When the last tests run failed, the set counts as
    /// changed without listing the tests, so that coverage runs again; otherwise the
    /// listing command must run and its output goes to `finish_refresh`.
    pub fn begin_refresh(&self, tests: TestsState) -> (r: Option<IndexStatus>)
        ensures
            tests == TestsState::Failure ==> r == Some(IndexStatus::TestsSetChanged),
            tests != TestsState::Failure ==> r is None,
    {
        if tests == TestsState::Failure {
            Some(IndexStatus::TestsSetChanged)
        } else {
            None
        }
    }

    /// Second step of a refresh, with the output of the listing command (`None` when
    /// it failed). The set is unchanged when the listed names equal the stored ones
    /// and the stored set is not empty; otherwise the listed names replace it.
    pub fn finish_refresh(&mut self, listing: Option<String>) -> (r: IndexStatus)
        ensures
            (r, final(self).stored()) == refresh_outcome(
                old(self).stored(),
                TestsState::Success,
                match listing {
                    Some(o) => Some(o@),
                    None => None,
                },
            ),
    {
        match listing {
            None => IndexStatus::Failure,
            Some(out) => {
                let new_tests = parse_listing(&out);
                let same = included(&new_tests, &self.curr_tests) && included(
                    &self.curr_tests,
                    &new_tests,
                );
                proof {
                    if same {
                        assert(names(new_tests@) =~= names(self.curr_tests@));
                    }
                }
                if self.curr_tests.len() == 0 || !same {
                    self.curr_tests = new_tests;
                    proof {
                        if old(self).curr_tests@.len() == 0 {
                            assert(old(self).stored() =~= Set::<Seq<char>>::empty());
                        }
                    }
                    IndexStatus::TestsSetChanged
                } else {
                    proof {
                        assert(self.stored().contains(self.curr_tests@[0]@));
                        assert(!Set::<Seq<char>>::empty().contains(self.curr_tests@[0]@));
                    }
                    IndexStatus::TestsSetNotChanged
                }
            },
        }
    }

    /// A whole refresh once the listing command's output is known: the result is the
    /// pair of `begin_refresh` and `finish_refresh`.
    pub fn refresh(&mut self, tests: TestsState, listing: Option<String>) -> (r: IndexStatus)
        ensures
            (r, final(self).stored()) == refresh_outcome(
                old(self).stored(),
                tests,
                match listing {
                    Some(o) => Some(o@),
                    None => None,
                },
            ),
    {
        match self.begin_refresh(tests) {
            Some(status) => status,
            None => self.finish_refresh(listing),
        }
    }
}

} // verus!
