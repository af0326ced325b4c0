//! Batch provisioning: one run per row of a CSV table, each with the
//! global arguments in front of the row's own.
//!
//! `BatchRun` makes the decisions of a batch: which row runs next, with
//! which arguments, and when the batch ends. The caller performs each run
//! and reports whether it succeeded.

use vstd::prelude::*;

use crate::createvm::CreateVmBase;
use crate::kickstart::Kickstart;
use crate::text::views;

verus! {

/// A kickstart document and the virtual machine that installs from it.
#[derive(Debug, Clone)]
pub struct RunAll {
    pub kickstart: Kickstart,
    pub create_vm: CreateVmBase,
}

/// The batch-install command: paths of the CSV table and of the file of
/// global arguments.
#[derive(Debug, Clone)]
pub struct BatchInstall {
    pub csv_options: String,
    pub global_options: String,
}

/// The configuration parsed from the arguments of one batch row.
#[derive(Debug, Clone)]
pub struct BatchInstallParser {
    pub run_all: RunAll,
}

/// Unicode white space, as `char::is_whitespace` counts it.
pub open spec fn is_space(c: char) -> bool {
    ('\u{9}' <= c && c <= '\u{d}') || c == ' ' || c == '\u{85}' || c == '\u{a0}' || c == '\u{1680}'
        || ('\u{2000}' <= c && c <= '\u{200a}') || c == '\u{2028}' || c == '\u{2029}'
        || c == '\u{202f}' || c == '\u{205f}' || c == '\u{3000}'
}

fn is_space_char(c: char) -> (r: bool)
    ensures
        r == is_space(c),
{
    ('\u{9}' <= c && c <= '\u{d}') || c == ' ' || c == '\u{85}' || c == '\u{a0}' || c == '\u{1680}'
        || ('\u{2000}' <= c && c <= '\u{200a}') || c == '\u{2028}' || c == '\u{2029}'
        || c == '\u{202f}' || c == '\u{205f}' || c == '\u{3000}'
}

/// `s` without leading white space.
pub open spec fn trim_start(s: Seq<char>) -> Seq<char>
    decreases s.len(),
{
    if s.len() > 0 && is_space(s[0]) {
        trim_start(s.drop_first())
    } else {
        s
    }
}

/// `s` without trailing white space.
pub open spec fn trim_end(s: Seq<char>) -> Seq<char>
    decreases s.len(),
{
    if s.len() > 0 && is_space(s.last()) {
        trim_end(s.drop_last())
    } else {
        s
    }
}

/// `s` without leading and trailing white space.
pub open spec fn trim(s: Seq<char>) -> Seq<char> {
    trim_end(trim_start(s))
}

/// The lines of `s`, split at each `\n`; text after the last `\n` is a line
/// too (an empty one if `s` ends with `\n`).
pub open spec fn split_lines(s: Seq<char>) -> Seq<Seq<char>>
    decreases s.len(),
{
    if s.len() == 0 {
        seq![Seq::empty()]
    } else {
        let prev = split_lines(s.drop_last());
        if s.last() == '\n' {
            prev.push(Seq::empty())
        } else {
            prev.update(prev.len() - 1, prev.last().push(s.last()))
        }
    }
}

/// The trimmed lines that are not empty once trimmed, in order.
pub open spec fn kept_lines(ls: Seq<Seq<char>>) -> Seq<Seq<char>>
    decreases ls.len(),
{
    if ls.len() == 0 {
        Seq::empty()
    } else if trim(ls.last()).len() == 0 {
        kept_lines(ls.drop_last())
    } else {
        kept_lines(ls.drop_last()).push(trim(ls.last()))
    }
}

/// The global arguments written in `s`: one per non-blank line, trimmed.
pub open spec fn global_args(s: Seq<char>) -> Seq<Seq<char>> {
    kept_lines(split_lines(s))
}

/// Trims white space from both ends of `s`.
pub fn trim_str(s: &str) -> (r: String)
    ensures
        r@ == trim(s@),
{
    let n = s.unicode_len();
    let mut a: usize = 0;
    assert(s@.subrange(0, n as int) =~= s@);
    while a < n && is_space_char(s.get_char(a))
        invariant
            a <= n == s@.len(),
            trim_start(s@.subrange(a as int, n as int)) == trim_start(s@),
        decreases n - a,
    {
        assert(s@.subrange(a as int, n as int).drop_first() =~= s@.subrange(a + 1, n as int));
        a = a + 1;
    }
    assert(s@.subrange(a as int, n as int) == trim_start(s@)) by {
        assert(s@.subrange(n as int, n as int).len() == 0);
    }
    let mut b: usize = n;
    while b > a && is_space_char(s.get_char(b - 1))
        invariant
            a <= b <= n == s@.len(),
            trim_end(s@.subrange(a as int, b as int)) == trim(s@),
        decreases b,
    {
        assert(s@.subrange(a as int, b as int).drop_last() =~= s@.subrange(a as int, b - 1));
        b = b - 1;
    }
    String::from_str(s.substring_char(a, b))
}

/// Parses the file of global arguments: each line that is not blank gives
/// one argument, with white space trimmed from both ends.
pub fn parse_global_options(text: &str) -> (r: Vec<String>)
    ensures
        views(r@) == global_args(text@),
{
    let ghost s = text@;
    let n = text.unicode_len();
    let mut out: Vec<String> = Vec::new();
    let mut start: usize = 0;
    let mut i: usize = 0;
    let ghost mut done: Seq<Seq<char>> = Seq::empty();
    assert(s.subrange(0, 0) =~= Seq::<char>::empty());
    assert(done.push(s.subrange(0, 0)) =~= seq![Seq::<char>::empty()]);
    while i < n
        invariant
            s == text@,
            n == s.len(),
            start <= i <= n,
            split_lines(s.subrange(0, i as int)) == done.push(s.subrange(start as int, i as int)),
            views(out@) == kept_lines(done),
        decreases n - i,
    {
        let c = text.get_char(i);
        proof {
            assert(s.subrange(0, i + 1).drop_last() =~= s.subrange(0, i as int));
            assert(s.subrange(0, i + 1).last() == c);
        }
        if c == '\n' {
            let line = trim_str(text.substring_char(start, i));
            let ghost raw = s.subrange(start as int, i as int);
            proof {
                assert(done.push(raw).drop_last() =~= done);
                assert(split_lines(s.subrange(0, i + 1)) =~= done.push(raw).push(Seq::empty()));
            }
            if line.unicode_len() > 0 {
                out.push(line);
                assert(views(out@) =~= kept_lines(done).push(trim(raw)));
            }
            proof {
                done = done.push(raw);
            }
            start = i + 1;
            assert(s.subrange(start as int, i + 1).len() == 0);
            assert(s.subrange(start as int, i + 1) =~= Seq::<char>::empty());
        } else {
            proof {
                let raw = s.subrange(start as int, i as int);
                let prev = done.push(raw);
                assert(raw.push(c) =~= s.subrange(start as int, i + 1));
                assert(prev.update(prev.len() - 1, prev.last().push(c)) =~= done.push(
                    s.subrange(start as int, i + 1),
                ));
            }
        }
        i = i + 1;
    }
    let line = trim_str(text.substring_char(start, n));
    let ghost raw = s.subrange(start as int, n as int);
    proof {
        assert(s.subrange(0, n as int) =~= s);
        assert(done.push(raw).drop_last() =~= done);
    }
    if line.unicode_len() > 0 {
        out.push(line);
        assert(views(out@) =~= kept_lines(done).push(trim(raw)));
    }
    out
}

/// The arguments of one batch row: the global arguments, then the row's.
pub fn merge_arguments(global: &Vec<String>, fragment: &Vec<String>) -> (r: Vec<String>)
    ensures
        views(r@) == views(global@) + views(fragment@),
{
    let mut r: Vec<String> = Vec::new();
    let mut i: usize = 0;
    while i < global.len()
        invariant
            i <= global@.len(),
            views(r@) == views(global@.subrange(0, i as int)),
        decreases global@.len() - i,
    {
        let ghost before = r@;
        let item = global[i].clone();
        assert(item@ == global@[i as int]@);
        r.push(item);
        assert(views(r@) =~= views(before).push(global@[i as int]@));
        assert(views(global@.subrange(0, i + 1)) =~= views(global@.subrange(0, i as int)).push(global@[i as int]@));
        i = i + 1;
    }
    let mut j: usize = 0;
    while j < fragment.len()
        invariant
            i == global@.len(),
            j <= fragment@.len(),
            views(r@) == views(global@) + views(fragment@.subrange(0, j as int)),
        decreases fragment@.len() - j,
    {
        let ghost before = r@;
        let item = fragment[j].clone();
        assert(item@ == fragment@[j as int]@);
        r.push(item);
        assert(views(r@) =~= views(before).push(fragment@[j as int]@));
        assert(views(fragment@.subrange(0, j + 1)) =~= views(fragment@.subrange(0, j as int)).push(fragment@[j as int]@));
        j = j + 1;
    }
    assert(global@.subrange(0, i as int) =~= global@);
    assert(fragment@.subrange(0, j as int) =~= fragment@);
    r
}

/// Progress of a batch: the number of rows started, and the row that
/// failed, if one did.
pub struct BatchState {
    pub started: nat,
    pub failed: Option<nat>,
}

/// The progress after the row in flight ends, with `success` telling how;
/// once every row has started, or a row has failed, nothing changes.
pub open spec fn batch_step(total: nat, st: BatchState, success: bool) -> BatchState {
    if st.failed is None && st.started < total {
        if success {
            BatchState { started: st.started + 1, failed: None }
        } else {
            BatchState { started: st.started + 1, failed: Some(st.started) }
        }
    } else {
        st
    }
}

/// The progress of a batch of `total` rows after the runs it starts end
/// with `outcomes`, in order.
pub open spec fn batch_after(total: nat, outcomes: Seq<bool>) -> BatchState
    decreases outcomes.len(),
{
    if outcomes.len() == 0 {
        BatchState { started: 0, failed: None }
    } else {
        batch_step(total, batch_after(total, outcomes.drop_last()), outcomes.last())
    }
}

/// What a batch does next.
#[derive(Debug, Clone)]
pub enum BatchAction {
    /// Run the row at this index with these arguments.
    Run(usize, Vec<String>),
    /// Every row ran and succeeded.
    Finished,
    /// The row at this index failed; the batch stops.
    Aborted(usize),
}

/// A batch of runs, one per row.
#[derive(Debug, Clone)]
pub struct BatchRun {
    pub global: Vec<String>,
    pub fragments: Vec<Vec<String>>,
    pub started: usize,
    pub failed: Option<usize>,
}

impl BatchRun {
    /// The progress of the batch.
    pub open spec fn state(&self) -> BatchState {
        BatchState {
            started: self.started as nat,
            failed: match self.failed {
                Some(k) => Some(k as nat),
                None => None,
            },
        }
    }

    pub open spec fn total(&self) -> nat {
        self.fragments@.len()
    }

    /// Rows start in order; a failed row is the last one started.
    pub open spec fn wf(&self) -> bool {
        &&& self.started <= self.fragments@.len()
        &&& self.failed matches Some(k) ==> k + 1 == self.started
    }

    /// A batch over `fragments` in which no row has started.
    pub fn new(global: Vec<String>, fragments: Vec<Vec<String>>) -> (r: Self)
        ensures
            r.wf(),
            r.global == global,
            r.fragments == fragments,
            r.state() == batch_after(fragments@.len(), Seq::empty()),
    {
        BatchRun { global, fragments, started: 0, failed: None }
    }

    /// The next thing to do: run the next row with the global arguments in
    /// front of its own, stop after a failed row, or finish.
    pub fn next_action(&self) -> (a: BatchAction)
        requires
            self.wf(),
        ensures
            self.failed matches Some(k) ==> (a matches BatchAction::Aborted(j) && j == k),
            self.failed is None && self.started < self.total() ==> (a matches BatchAction::Run(
                i,
                args,
            ) && i == self.started && views(args@) == views(self.global@) + views(
                self.fragments@[i as int]@,
            )),
            self.failed is None && self.started == self.total() ==> a is Finished,
    {
        match self.failed {
            Some(k) => BatchAction::Aborted(k),
            None => if self.started < self.fragments.len() {
                let args = merge_arguments(&self.global, &self.fragments[self.started]);
                BatchAction::Run(self.started, args)
            } else {
                BatchAction::Finished
            },
        }
    }

    /// Records how the run of the next row ended.
    pub fn record(&mut self, success: bool)
        requires
            old(self).wf(),
        ensures
            final(self).wf(),
            final(self).global == old(self).global,
            final(self).fragments == old(self).fragments,
            final(self).state() == batch_step(old(self).total(), old(self).state(), success),
    {
        if self.failed.is_none() && self.started < self.fragments.len() {
            if !success {
                self.failed = Some(self.started);
            }
            self.started = self.started + 1;
        }
    }
}

/// When every run succeeds, each row starts once, in order, and the batch
/// finishes after the last.
pub proof fn lemma_batch_all_succeed(total: nat, outcomes: Seq<bool>)
    requires
        forall|i: int| 0 <= i < outcomes.len() ==> #[trigger] outcomes[i],
    ensures
        batch_after(total, outcomes).failed is None,
        batch_after(total, outcomes).started == if outcomes.len() <= total {
            outcomes.len()
        } else {
            total
        },
    decreases outcomes.len(),
{
    if outcomes.len() > 0 {
        lemma_batch_all_succeed(total, outcomes.drop_last());
    }
}

/// When row `k` is the first whose run fails, rows before it ran, row `k`
/// is reported as the failure, and no row after it ever starts, whatever
/// else is reported.
pub proof fn lemma_batch_stops_at_first_failure(total: nat, outcomes: Seq<bool>, k: nat)
    requires
        k < total,
        k < outcomes.len(),
        !outcomes[k as int],
        forall|i: int| 0 <= i < k ==> #[trigger] outcomes[i],
    ensures
        batch_after(total, outcomes) == (BatchState { started: k + 1, failed: Some(k) }),
    decreases outcomes.len(),
{
    if outcomes.len() == k + 1 {
        lemma_batch_all_succeed(total, outcomes.drop_last());
    } else {
        lemma_batch_stops_at_first_failure(total, outcomes.drop_last(), k);
    }
}

} // verus!
