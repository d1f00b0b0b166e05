use vstd::prelude::*;
use vstd::string::StrSliceExecFns;

verus! {

/// A sub-operation of the external tool.
#[derive(Clone, Copy, Debug, PartialEq, Eq, Structural)]
pub enum SubOp {
    /// Detects whether a file was produced with a guessable seed.
    Seed,
    /// Extracts a hidden payload by trying the passphrases of a word list.
    Crack,
}

/// The classified result of one sub-operation.
#[derive(Clone, Copy, Debug, PartialEq, Eq, Structural)]
pub enum Outcome {
    Found,
    NotFound,
    Cracked,
    NotCracked,
}

/// The marker that the tool puts on a diagnostic line when it gave up.
pub open spec fn error_marker() -> Seq<char> {
    seq!['e', 'r', 'r', 'o', 'r', ':']
}

/// `line` holds the error marker somewhere, case included.
pub open spec fn has_marker(line: Seq<char>) -> bool {
    exists|k: int| 0 <= k && k + 6 <= line.len() && #[trigger] line.subrange(k, k + 6) == error_marker()
}

/// Some line of `lines` holds the error marker.
pub open spec fn any_marker(lines: Seq<Seq<char>>) -> bool {
    exists|i: int| 0 <= i < lines.len() && #[trigger] has_marker(lines[i])
}

/// The outcome of `op` given whether its diagnostics held the marker.
pub open spec fn outcome_spec(op: SubOp, failed: bool) -> Outcome {
    match op {
        SubOp::Seed => if failed { Outcome::NotFound } else { Outcome::Found },
        SubOp::Crack => if failed { Outcome::NotCracked } else { Outcome::Cracked },
    }
}

/// Whether the six characters of `line` starting at `k` are the marker.
fn marker_at(line: &str, k: usize) -> (r: bool)
    requires
        k + 6 <= line@.len() <= usize::MAX,
    ensures
        r == (line@.subrange(k as int, k + 6) == error_marker()),
{
    let r = line.get_char(k) == 'e' && line.get_char(k + 1) == 'r' && line.get_char(k + 2) == 'r'
        && line.get_char(k + 3) == 'o' && line.get_char(k + 4) == 'r' && line.get_char(k + 5) == ':';
    proof {
        let s = line@.subrange(k as int, k + 6);
        if r {
            assert(s =~= error_marker());
        } else {
            assert(s != error_marker()) by {
                if s == error_marker() {
                    assert(s[0] == line@[k as int]);
                    assert(s[1] == line@[k + 1]);
                    assert(s[2] == line@[k + 2]);
                    assert(s[3] == line@[k + 3]);
                    assert(s[4] == line@[k + 4]);
                    assert(s[5] == line@[k + 5]);
                }
            }
        }
    }
    r
}

/// Whether one diagnostic line marks the sub-operation as failed: it holds
/// `error:` anywhere.
pub fn line_has_marker(line: &str) -> (r: bool)
    ensures
        r == has_marker(line@),
{
    let n = line.unicode_len();
    if n < 6 {
        return false;
    }
    let mut k: usize = 0;
    while k <= n - 6
        invariant
            n == line@.len(),
            6 <= n,
            k <= n - 5,
            forall|j: int| 0 <= j < k ==> #[trigger] line@.subrange(j, j + 6) != error_marker(),
        decreases n - k,
    {
        if marker_at(line, k) {
            return true;
        }
        k = k + 1;
    }
    false
}

/// A streaming scan of a sub-operation's diagnostic lines.
pub struct DiagnosticScan {
    /// Some line fed so far held the marker.
    pub failed: bool,
    /// The lines fed so far.
    pub lines: Ghost<Seq<Seq<char>>>,
}

impl DiagnosticScan {
    /// A scan that has seen no line.
    pub fn new() -> (r: Self)
        ensures
            r.lines@ == Seq::<Seq<char>>::empty(),
            !r.failed,
    {
        DiagnosticScan { failed: false, lines: Ghost(Seq::empty()) }
    }

    /// Takes the next diagnostic line.
    pub fn feed(&mut self, line: &str)
        requires
            old(self).failed == any_marker(old(self).lines@),
        ensures
            final(self).lines@ == old(self).lines@.push(line@),
            final(self).failed == any_marker(final(self).lines@),
    {
        let hit = line_has_marker(line);
        let ghost before = self.lines@;
        self.lines = Ghost(self.lines@.push(line@));
        self.failed = self.failed || hit;
        proof {
            let after = self.lines@;
            if any_marker(before) {
                let i = choose|i: int| 0 <= i < before.len() && #[trigger] has_marker(before[i]);
                assert(after[i] == before[i]);
            }
            if hit {
                assert(has_marker(after[before.len() as int]));
            }
            if any_marker(after) && !hit {
                let i = choose|i: int| 0 <= i < after.len() && #[trigger] has_marker(after[i]);
                assert(i < before.len());
                assert(after[i] == before[i]);
            }
        }
    }

    /// The outcome of `op` from the lines fed so far.
    pub fn outcome(&self, op: SubOp) -> (r: Outcome)
        ensures
            r == outcome_spec(op, self.failed),
    {
        classify_outcome(op, self.failed)
    }
}

/// The outcome of `op` given whether its diagnostics held the marker.
pub fn classify_outcome(op: SubOp, failed: bool) -> (r: Outcome)
    ensures
        r == outcome_spec(op, failed),
{
    match op {
        SubOp::Seed => if failed { Outcome::NotFound } else { Outcome::Found },
        SubOp::Crack => if failed { Outcome::NotCracked } else { Outcome::Cracked },
    }
}

/// Classifies a whole diagnostic stream at once.
pub fn classify_lines(op: SubOp, lines: &Vec<String>) -> (r: Outcome)
    ensures
        r == outcome_spec(op, any_marker(lines@.map_values(|s: String| s@))),
{
    let mut scan = DiagnosticScan::new();
    let mut i: usize = 0;
    assert(scan.lines@ =~= lines@.map_values(|s: String| s@).take(0));
    while i < lines.len()
        invariant
            i <= lines@.len(),
            scan.lines@ == lines@.map_values(|s: String| s@).take(i as int),
            scan.failed == any_marker(scan.lines@),
        decreases lines@.len() - i,
    {
        scan.feed(lines[i].as_str());
        assert(scan.lines@ =~= lines@.map_values(|s: String| s@).take(i + 1));
        i = i + 1;
    }
    assert(scan.lines@ =~= lines@.map_values(|s: String| s@));
    scan.outcome(op)
}

} // verus!
