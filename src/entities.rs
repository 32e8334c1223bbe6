//! Stage statuses and the watched repository root.
use crate::text::{chars_of, decimal, digit_char, digit_of, push_decimal};
use vstd::prelude::*;

verus! {

/// Status of the compile-check stage.
#[derive(Debug, Clone, Copy, PartialEq, Eq, Structural)]
pub enum CheckState {
    Pending,
    Failure,
    Success,
}

/// Status of the tests stage.
#[derive(Debug, Clone, Copy, PartialEq, Eq, Structural)]
pub enum TestsState {
    Pending,
    Failure,
    Success,
}

/// Status of a test run as kept by a tests-status repository.
#[derive(Debug, Clone, Copy, PartialEq, Eq, Structural)]
pub enum TestsStatus {
    Pending,
    Failure,
    Success,
}

/// Status of the coverage stage. A successful run carries the covered share of the
/// code in hundredths of a percent (`2505` is 25.05%), between `0` and `10000`.
#[derive(Debug, Clone, Copy, PartialEq, Eq, Structural)]
pub enum CoverageState {
    Pending,
    Failure,
    Success(u32),
}

pub open spec fn pending_text() -> Seq<char> {
    "pending"@
}

pub open spec fn failure_text() -> Seq<char> {
    "failure"@
}

pub open spec fn success_text() -> Seq<char> {
    "success"@
}

fn pending_string() -> (r: String)
    ensures
        r@ == pending_text(),
{
    String::from_str("pending")
}

fn failure_string() -> (r: String)
    ensures
        r@ == failure_text(),
{
    String::from_str("failure")
}

fn success_string() -> (r: String)
    ensures
        r@ == success_text(),
{
    String::from_str("success")
}

impl CheckState {
    pub open spec fn text(self) -> Seq<char> {
        match self {
            CheckState::Pending => pending_text(),
            CheckState::Failure => failure_text(),
            CheckState::Success => success_text(),
        }
    }

    /// The lower-case name of the status, as served to clients.
    pub fn to_string(&self) -> (r: String)
        ensures
            r@ == self.text(),
    {
        match self {
            CheckState::Pending => pending_string(),
            CheckState::Failure => failure_string(),
            CheckState::Success => success_string(),
        }
    }
}

impl Default for CheckState {
    fn default() -> (r: Self)
        ensures
            r == CheckState::Pending,
    {
        CheckState::Pending
    }
}

impl TestsState {
    pub open spec fn text(self) -> Seq<char> {
        match self {
            TestsState::Pending => pending_text(),
            TestsState::Failure => failure_text(),
            TestsState::Success => success_text(),
        }
    }

    /// The lower-case name of the status, as served to clients.
    pub fn to_string(&self) -> (r: String)
        ensures
            r@ == self.text(),
    {
        match self {
            TestsState::Pending => pending_string(),
            TestsState::Failure => failure_string(),
            TestsState::Success => success_string(),
        }
    }
}

impl Default for TestsState {
    fn default() -> (r: Self)
        ensures
            r == TestsState::Pending,
    {
        TestsState::Pending
    }
}

impl TestsStatus {
    pub open spec fn text(self) -> Seq<char> {
        match self {
            TestsStatus::Pending => pending_text(),
            TestsStatus::Failure => failure_text(),
            TestsStatus::Success => success_text(),
        }
    }

    /// The lower-case name of the status.
    pub fn to_string(&self) -> (r: String)
        ensures
            r@ == self.text(),
    {
        match self {
            TestsStatus::Pending => pending_string(),
            TestsStatus::Failure => failure_string(),
            TestsStatus::Success => success_string(),
        }
    }
}

impl Default for TestsStatus {
    fn default() -> (r: Self)
        ensures
            r == TestsStatus::Pending,
    {
        TestsStatus::Pending
    }
}

/// A share in hundredths of a percent written as a decimal number with no trailing
/// zeros after the point, and no point for a whole number (`1010` is `10.1`, `5000`
/// is `50`).
pub open spec fn percent_text(v: nat) -> Seq<char> {
    let whole = decimal(v / 100);
    let frac = v % 100;
    if frac == 0 {
        whole
    } else if frac % 10 == 0 {
        whole + seq!['.', digit_char(frac / 10)]
    } else {
        whole + seq!['.', digit_char(frac / 10), digit_char(frac % 10)]
    }
}

impl CoverageState {
    pub open spec fn text(self) -> Seq<char> {
        match self {
            CoverageState::Pending => pending_text(),
            CoverageState::Failure => failure_text(),
            CoverageState::Success(v) => percent_text(v as nat),
        }
    }

    /// The status as served to clients: its name, or the covered percentage.
    pub fn to_string(&self) -> (r: String)
        ensures
            r@ == self.text(),
    {
        match self {
            CoverageState::Pending => pending_string(),
            CoverageState::Failure => failure_string(),
            CoverageState::Success(v) => {
                let mut s = String::new();
                push_decimal(&mut s, *v / 100);
                let frac = *v % 100;
                if frac != 0 {
                    s.push('.');
                    s.push(digit_of(frac / 10));
                    if frac % 10 != 0 {
                        s.push(digit_of(frac % 10));
                    }
                }
                proof {
                    let whole = decimal((*v / 100) as nat);
                    if frac == 0 {
                        assert(s@ =~= percent_text(*v as nat));
                    } else if frac % 10 == 0 {
                        assert(s@ =~= whole + seq!['.', digit_char((frac / 10) as nat)]);
                    } else {
                        assert(s@ =~= whole + seq![
                            '.',
                            digit_char((frac / 10) as nat),
                            digit_char((frac % 10) as nat),
                        ]);
                    }
                }
                s
            },
        }
    }
}

impl Default for CoverageState {
    fn default() -> (r: Self)
        ensures
            r == CoverageState::Pending,
    {
        CoverageState::Pending
    }
}

/// Whether the segment `cur`, which starts at position `start` of its path, is a
/// component: it is not empty, and it is not `.` unless it opens a relative path.
pub open spec fn keeps_segment(cur: Seq<char>, start: int) -> bool {
    cur.len() > 0 && (cur != seq!['.'] || start == 0)
}

/// `out` followed by the segment `cur` when that segment is a component.
pub open spec fn flush_segment(out: Seq<char>, cur: Seq<char>, start: int) -> Seq<char> {
    if !keeps_segment(cur, start) {
        out
    } else if out.len() == 0 || out == seq!['/'] {
        out + cur
    } else {
        out.push('/') + cur
    }
}

/// After the first `n` characters of `p`: the components found so far, written out, and
/// the segment being read.
pub open spec fn scan_path(p: Seq<char>, n: nat) -> (Seq<char>, Seq<char>)
    decreases n,
{
    if n == 0 {
        (
            if p.len() > 0 && p[0] == '/' {
                seq!['/']
            } else {
                Seq::<char>::empty()
            },
            Seq::<char>::empty(),
        )
    } else {
        let (out, cur) = scan_path(p, (n - 1) as nat);
        if p[n - 1] == '/' {
            (flush_segment(out, cur, (n - 1) - cur.len()), Seq::<char>::empty())
        } else {
            (out, cur.push(p[n - 1]))
        }
    }
}

/// The components of the path `p` written one way only: a leading `/` for an absolute
/// path, then the components joined by `/`. Repeated and trailing separators and `.`
/// components (but one that opens a relative path) leave no trace, so two paths with
/// the same components have the same key and two with different ones do not.
pub open spec fn path_key(p: Seq<char>) -> Seq<char> {
    let (out, cur) = scan_path(p, p.len());
    flush_segment(out, cur, p.len() - cur.len())
}

fn flush_into(out: &mut Vec<char>, cur: &Vec<char>, start: usize)
    ensures
        final(out)@ == flush_segment(old(out)@, cur@, start as int),
{
    let dot = cur.len() == 1 && cur[0] == '.';
    proof {
        if cur@.len() == 1 {
            assert(dot == (cur@ =~= seq!['.']));
        } else {
            assert(cur@ != seq!['.']);
        }
    }
    if cur.len() == 0 || (dot && start != 0) {
        return;
    }
    let bare = out.len() == 0 || (out.len() == 1 && out[0] == '/');
    proof {
        if out@.len() == 1 {
            assert(bare == (out@.len() == 0 || out@ =~= seq!['/']));
        } else if out@.len() != 0 {
            assert(out@ != seq!['/']);
        }
    }
    if !bare {
        out.push('/');
    }
    let ghost base = out@;
    let mut i: usize = 0;
    while i < cur.len()
        invariant
            i <= cur.len(),
            out@ == base + cur@.subrange(0, i as int),
        decreases cur.len() - i,
    {
        out.push(cur[i]);
        i += 1;
        assert(out@ =~= base + cur@.subrange(0, i as int));
    }
    assert(cur@.subrange(0, cur@.len() as int) =~= cur@);
}

/// The key of the path `p`; see `path_key`.
pub fn path_key_of(p: &str) -> (r: Vec<char>)
    ensures
        r@ == path_key(p@),
{
    let cs = chars_of(p);
    let ghost ps = cs@;
    let mut out: Vec<char> = Vec::new();
    if cs.len() > 0 && cs[0] == '/' {
        out.push('/');
    }
    let mut cur: Vec<char> = Vec::new();
    let mut i: usize = 0;
    assert(out@ =~= scan_path(ps, 0).0);
    while i < cs.len()
        invariant
            i <= cs.len(),
            cs@ == ps,
            cur@.len() <= i,
            (out@, cur@) == scan_path(ps, i as nat),
        decreases cs.len() - i,
    {
        if cs[i] == '/' {
            flush_into(&mut out, &cur, i - cur.len());
            cur = Vec::new();
            assert(cur@ =~= Seq::<char>::empty());
        } else {
            cur.push(cs[i]);
        }
        i += 1;
    }
    flush_into(&mut out, &cur, i - cur.len());
    out
}

/// Whether two character lists are equal.
pub fn same_chars(a: &Vec<char>, b: &Vec<char>) -> (r: bool)
    ensures
        r == (a@ == b@),
{
    if a.len() != b.len() {
        return false;
    }
    let mut i: usize = 0;
    while i < a.len()
        invariant
            i <= a.len() == b.len(),
            forall|k: int| 0 <= k < i ==> a@[k] == b@[k],
        decreases a.len() - i,
    {
        if a[i] != b[i] {
            return false;
        }
        i += 1;
    }
    assert(a@ =~= b@);
    true
}

/// The path of the project under observation. Two roots are equal when their paths
/// have the same components (`/a`, `/a/` and `/a/./` are one root).
#[derive(Debug, Clone)]
pub struct RepoRoot {
    root: String,
}

impl View for RepoRoot {
    type V = Seq<char>;

    closed spec fn view(&self) -> Seq<char> {
        self.root@
    }
}

impl RepoRoot {
    pub fn new(repo_root: &str) -> (r: Self)
        ensures
            r@ == repo_root@,
    {
        RepoRoot { root: repo_root.to_owned() }
    }

    /// The path as text.
    pub fn as_str(&self) -> (r: &str)
        ensures
            r@ == self@,
    {
        self.root.as_str()
    }

    /// A copy of this root.
    pub fn cloned(&self) -> (r: Self)
        ensures
            r@ == self@,
    {
        RepoRoot { root: self.root.clone() }
    }

    /// Whether the path names something on disk (relies on `std::path::Path::exists`;
    /// the answer depends on the file system at the time of the call).
    #[verifier::external_body]
    pub fn path_exists(&self) -> bool {
        std::path::Path::new(&self.root).exists()
    }
}

impl PartialEq for RepoRoot {
    fn eq(&self, other: &RepoRoot) -> (r: bool) {
        same_chars(&path_key_of(self.root.as_str()), &path_key_of(other.root.as_str()))
    }
}

impl Eq for RepoRoot {
}

impl vstd::std_specs::cmp::PartialEqSpecImpl for RepoRoot {
    open spec fn obeys_eq_spec() -> bool {
        true
    }

    open spec fn eq_spec(&self, other: &RepoRoot) -> bool {
        path_key(self@) == path_key(other@)
    }
}

impl Default for RepoRoot {
    fn default() -> (r: Self)
        ensures
            r@ == Seq::<char>::empty(),
    {
        RepoRoot { root: String::new() }
    }
}

} // verus!
