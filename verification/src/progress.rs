//! Progress in whole per cent, and the rule for when it is reported.

use crate::text::{decimal, from_chars, push_decimal, push_str};
use vstd::prelude::*;

verus! {

/// The progress figure after `done` of `total` steps.
///
/// It is `floor(100 * done / (total - 1))`. Where there is at most one step
/// that quotient does not exist, and the figure is 100: completion is
/// reported directly.
pub open spec fn percent(done: nat, total: nat) -> nat {
    if total <= 1 {
        100
    } else {
        (100 * done) / ((total - 1) as nat)
    }
}

/// The share of `done` in `total` steps, in whole per cent:
/// `floor(100 * done / total)`, and 100 where there are no steps.
pub open spec fn share(done: nat, total: nat) -> nat {
    if total == 0 {
        100
    } else {
        (100 * done) / total
    }
}

/// The figure that a meter counts as shown before it has shown any.
pub open spec fn initial_shown() -> nat {
    1
}

/// What a progress meter stands for: `done` of `total` steps are taken, and
/// `shown` is the figure it reported last. A meter of shares reports
/// [`share`], any other meter [`percent`].
pub struct MeterModel {
    pub total: nat,
    pub done: nat,
    pub shown: nat,
    pub shares: bool,
}

impl MeterModel {
    /// No more steps are taken than there are.
    pub open spec fn wf(self) -> bool {
        self.done <= self.total
    }

    /// A meter for `total` steps, none of them taken.
    pub open spec fn fresh(total: nat) -> MeterModel {
        MeterModel { total, done: 0, shown: initial_shown(), shares: false }
    }

    /// A meter of shares for `total` steps, none of them taken.
    pub open spec fn fresh_shares(total: nat) -> MeterModel {
        MeterModel { total, done: 0, shown: initial_shown(), shares: true }
    }

    /// The figure once one more step is taken.
    pub open spec fn next_percent(self) -> nat {
        if self.shares {
            share(self.done + 1, self.total)
        } else {
            percent(self.done + 1, self.total)
        }
    }

    /// What one more step reports: the new figure, unless it is the one
    /// shown last.
    pub open spec fn report(self) -> Option<nat> {
        if self.next_percent() != self.shown {
            Some(self.next_percent())
        } else {
            None
        }
    }

    /// The meter after one more step.
    pub open spec fn after_tick(self) -> MeterModel {
        MeterModel {
            total: self.total,
            done: self.done + 1,
            shown: self.next_percent(),
            shares: self.shares,
        }
    }

    /// Whether every step is taken.
    pub open spec fn complete(self) -> bool {
        self.done >= self.total
    }
}

/// The text of a progress line: the label, the figure and a per cent sign.
pub open spec fn progress_text(label: Seq<char>, figure: nat) -> Seq<char> {
    label + decimal(figure) + seq!['%']
}

impl MeterModel {
    /// The meter after `k` more steps.
    pub open spec fn after_ticks(self, k: nat) -> MeterModel
        decreases k,
    {
        if k == 0 {
            self
        } else {
            self.after_ticks((k - 1) as nat).after_tick()
        }
    }
}

/// A meter counts its steps: after `k` steps on a fresh meter `k` are done,
/// and it is complete exactly when `k` has reached the total.
pub proof fn law_meter_counts_steps(total: nat, k: nat)
    requires
        k <= total,
    ensures
        MeterModel::fresh(total).after_ticks(k).done == k,
        MeterModel::fresh(total).after_ticks(k).total == total,
        MeterModel::fresh(total).after_ticks(k).wf(),
        MeterModel::fresh(total).after_ticks(k).complete() <==> k == total,
    decreases k,
{
    if k > 0 {
        law_meter_counts_steps(total, (k - 1) as nat);
    }
}

/// What a target holds after `k` steps of a copy that a meter drives: each
/// step fetches the record at the position that the meter has counted to
/// and appends it to the target.
pub open spec fn copied<T>(records: Seq<T>, k: nat) -> Seq<T>
    recommends
        k <= records.len(),
    decreases k,
{
    if k == 0 {
        Seq::empty()
    } else {
        copied(records, (k - 1) as nat).push(
            records[MeterModel::fresh(records.len()).after_ticks((k - 1) as nat).done as int],
        )
    }
}

/// A copy that a meter drives keeps the records and their order: of a
/// source that hands out the record at each position asked for, and into a
/// target that appends what it is given, the meter is complete after as
/// many steps as there are records and not before, and the target then
/// holds the records of the source, each once, in their order.
pub proof fn law_copy_keeps_records_and_order<T>(records: Seq<T>, k: nat)
    requires
        k <= records.len(),
    ensures
        copied(records, k) == records.take(k as int),
        copied(records, records.len()) == records,
        MeterModel::fresh(records.len()).after_ticks(k).complete() <==> k == records.len(),
{
    law_meter_counts_steps(records.len(), k);
    lemma_copied_is_a_front(records, k);
    lemma_copied_is_a_front(records, records.len());
    assert(records.take(records.len() as int) == records);
}

/// After `k` steps the target holds the first `k` records.
proof fn lemma_copied_is_a_front<T>(records: Seq<T>, k: nat)
    requires
        k <= records.len(),
    ensures
        copied(records, k) == records.take(k as int),
    decreases k,
{
    if k > 0 {
        lemma_copied_is_a_front(records, (k - 1) as nat);
        law_meter_counts_steps(records.len(), (k - 1) as nat);
        assert(records.take(k as int) == records.take(k - 1).push(records[k - 1]));
    }
}

/// A meter for a single step never forms the quotient: its one step reports
/// 100, and that is the figure it then holds.
pub proof fn law_single_step_reports_completion()
    ensures
        MeterModel::fresh(1).report() == Some(100nat),
        MeterModel::fresh(1).after_tick().shown == 100,
        MeterModel::fresh(1).after_tick().complete(),
{
}

/// The line that tells how long a run took: whole minutes where there are
/// any, then seconds and milliseconds.
pub open spec fn elapsed_text(seconds: nat, milliseconds: nat) -> Seq<char> {
    let minutes = if seconds >= 60 {
        decimal(seconds / 60) + "min "@
    } else {
        Seq::<char>::empty()
    };
    "Elapsed Time: "@ + minutes + decimal(seconds % 60) + "."@ + decimal(milliseconds) + "s"@
}

/// With two or more steps the figure never exceeds 200.
pub proof fn lemma_percent_bound(done: nat, total: nat)
    requires
        done <= total,
    ensures
        percent(done, total) <= 200,
{
    if total >= 2 {
        let d = (total - 1) as nat;
        let scaled = 100 * done;
        assert(scaled <= 200 * d);
        assert(scaled / d <= 200) by (nonlinear_arith)
            requires
                d > 0,
                scaled <= 200 * d,
        ;
    }
}

/// The progress figure after `done` of `total` steps.
pub fn percent_of(done: usize, total: usize) -> (figure: usize)
    requires
        done <= total,
    ensures
        figure == percent(done as nat, total as nat),
        total <= 1 ==> figure == 100,
{
    if total <= 1 {
        100
    } else {
        proof {
            lemma_percent_bound(done as nat, total as nat);
        }
        let scaled: u128 = 100u128 * (done as u128);
        let figure: u128 = scaled / ((total - 1) as u128);
        figure as usize
    }
}

/// The share of `done` in `total` steps, in whole per cent.
pub fn share_of(done: usize, total: usize) -> (figure: usize)
    requires
        done <= total,
    ensures
        figure == share(done as nat, total as nat),
        figure <= 100,
{
    if total == 0 {
        100
    } else {
        let scaled: u128 = 100u128 * (done as u128);
        let figure: u128 = scaled / (total as u128);
        assert(figure <= 100) by (nonlinear_arith)
            requires
                figure == scaled / (total as u128),
                scaled <= 100 * total,
                total > 0,
        ;
        figure as usize
    }
}

/// The text of a progress line.
pub fn progress_line(label: &str, figure: usize) -> (line: String)
    ensures
        line@ == progress_text(label@, figure as nat),
{
    let mut text: Vec<char> = Vec::new();
    push_str(&mut text, label);
    push_decimal(&mut text, figure);
    text.push('%');
    from_chars(&text)
}

/// The line that tells how long a run took.
pub fn elapsed_line(seconds: usize, milliseconds: usize) -> (line: String)
    ensures
        line@ == elapsed_text(seconds as nat, milliseconds as nat),
{
    let mut text: Vec<char> = Vec::new();
    push_str(&mut text, "Elapsed Time: ");
    if seconds >= 60 {
        push_decimal(&mut text, seconds / 60);
        push_str(&mut text, "min ");
    }
    push_decimal(&mut text, seconds % 60);
    push_str(&mut text, ".");
    push_decimal(&mut text, milliseconds);
    push_str(&mut text, "s");
    from_chars(&text)
}

/// Counts steps and tells when the progress figure has changed.
pub struct ProgressMeter {
    total: usize,
    done: usize,
    shown: usize,
    shares: bool,
}

impl View for ProgressMeter {
    type V = MeterModel;

    closed spec fn view(&self) -> MeterModel {
        MeterModel {
            total: self.total as nat,
            done: self.done as nat,
            shown: self.shown as nat,
            shares: self.shares,
        }
    }
}

impl ProgressMeter {
    #[verifier::type_invariant]
    spec fn inv(self) -> bool {
        self.done <= self.total
    }

    /// A meter for `total` steps.
    pub fn new(total: usize) -> (meter: ProgressMeter)
        ensures
            meter@ == MeterModel::fresh(total as nat),
    {
        ProgressMeter { total, done: 0, shown: 1, shares: false }
    }

    /// A meter of shares for `total` steps.
    pub fn of_shares(total: usize) -> (meter: ProgressMeter)
        ensures
            meter@ == MeterModel::fresh_shares(total as nat),
    {
        ProgressMeter { total, done: 0, shown: 1, shares: true }
    }

    /// Whether every step is taken.
    pub fn is_complete(&self) -> (b: bool)
        ensures
            b == self@.complete(),
            self@.wf(),
    {
        proof {
            use_type_invariant(self);
        }
        self.done >= self.total
    }

    /// The number of steps the meter was made for.
    pub fn total(&self) -> (n: usize)
        ensures
            n == self@.total,
            self@.wf(),
    {
        proof {
            use_type_invariant(self);
        }
        self.total
    }

    /// The number of steps taken. While the meter is not complete this is
    /// also the position of the step to take next, so that a loop driven by
    /// the meter takes positions `0, 1, ..` in order, each once.
    pub fn done(&self) -> (n: usize)
        ensures
            n == self@.done,
            self@.wf(),
    {
        proof {
            use_type_invariant(self);
        }
        self.done
    }

    /// Takes one step. Returns the new progress figure where it differs from
    /// the one shown last.
    pub fn tick(&mut self) -> (report: Option<usize>)
        requires
            !old(self)@.complete(),
        ensures
            final(self)@ == old(self)@.after_tick(),
            final(self)@.wf(),
            match report {
                Some(figure) => old(self)@.report() == Some(figure as nat),
                None => old(self)@.report() is None,
            },
            old(self)@.total == 1 ==> final(self)@.shown == 100,
    {
        proof {
            use_type_invariant(&*self);
        }
        let done = self.done + 1;
        let figure = if self.shares {
            share_of(done, self.total)
        } else {
            percent_of(done, self.total)
        };
        let changed = figure != self.shown;
        self.done = done;
        self.shown = figure;
        if changed {
            Some(figure)
        } else {
            None
        }
    }
}

} // verus!
