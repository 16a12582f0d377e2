//! The aggregator: drains one outcome per input file and words the report.

use crate::outcome::{status_text, ConversionOutcome, OutcomeModel};
use crate::progress::{progress_line, progress_text, MeterModel, ProgressMeter};
use crate::queue::{law_granted_is_every_index, QueueModel};
use crate::text::texts;
use vstd::prelude::*;

verus! {

/// What an aggregator stands for. Its meter counts the outcomes received
/// out of the number of files in the batch.
pub struct AggregatorModel {
    pub verbose: bool,
    pub meter: MeterModel,
}

impl AggregatorModel {
    /// An aggregator for a batch of `num_files` files that has received
    /// nothing.
    pub open spec fn fresh(num_files: nat, verbose: bool) -> AggregatorModel {
        AggregatorModel { verbose, meter: MeterModel::fresh(num_files) }
    }

    /// The number of files in the batch.
    pub open spec fn num_files(self) -> nat {
        self.meter.total
    }

    /// The number of outcomes received so far.
    pub open spec fn received(self) -> nat {
        self.meter.done
    }

    /// Whether one outcome per file has been received.
    pub open spec fn complete(self) -> bool {
        self.meter.complete()
    }

    /// The lines to print for the next outcome: its status line, and in a
    /// verbose run the progress of the batch where the figure has changed.
    pub open spec fn report(self, outcome: OutcomeModel) -> Seq<Seq<char>> {
        let status = status_text(outcome, self.num_files());
        match self.meter.report() {
            Some(figure) if self.verbose => seq![status, progress_text("Progress: "@, figure)],
            _ => seq![status],
        }
    }

    /// The aggregator after the next outcome.
    pub open spec fn after_receive(self) -> AggregatorModel {
        AggregatorModel { verbose: self.verbose, meter: self.meter.after_tick() }
    }

    /// The aggregator after `k` more outcomes.
    pub open spec fn after_receives(self, k: nat) -> AggregatorModel
        decreases k,
    {
        if k == 0 {
            self
        } else {
            self.after_receives((k - 1) as nat).after_receive()
        }
    }
}

/// Receives the outcomes of a batch, in whatever order they arrive.
pub struct Aggregator {
    verbose: bool,
    meter: ProgressMeter,
}

impl View for Aggregator {
    type V = AggregatorModel;

    closed spec fn view(&self) -> AggregatorModel {
        AggregatorModel { verbose: self.verbose, meter: self.meter@ }
    }
}

impl Aggregator {
    /// An aggregator for a batch of `num_files` files.
    pub fn new(num_files: usize, verbose: bool) -> (aggregator: Aggregator)
        ensures
            aggregator@ == AggregatorModel::fresh(num_files as nat, verbose),
    {
        Aggregator { verbose, meter: ProgressMeter::new(num_files) }
    }

    /// The number of files in the batch.
    pub fn num_files(&self) -> (n: usize)
        ensures
            n == self@.num_files(),
    {
        self.meter.total()
    }

    /// The number of outcomes received so far.
    pub fn received(&self) -> (n: usize)
        ensures
            n == self@.received(),
            self@.received() <= self@.num_files(),
    {
        self.meter.done()
    }

    /// Whether one outcome per file has been received.
    pub fn is_complete(&self) -> (b: bool)
        ensures
            b == self@.complete(),
            b == (self@.received() == self@.num_files()),
    {
        self.meter.is_complete()
    }

    /// Takes in one outcome and returns the lines to print for it.
    pub fn receive(&mut self, outcome: &ConversionOutcome) -> (lines: Vec<String>)
        requires
            !old(self)@.complete(),
        ensures
            final(self)@ == old(self)@.after_receive(),
            final(self)@.received() == old(self)@.received() + 1,
            final(self)@.received() <= final(self)@.num_files(),
            texts(lines@) == old(self)@.report(outcome@),
    {
        let mut lines: Vec<String> = Vec::new();
        let status = outcome.status_line(self.meter.total());
        lines.push(status);
        assert(texts(lines@) == seq![status@]);
        let report = self.meter.tick();
        if self.verbose {
            if let Some(figure) = report {
                let line = progress_line("Progress: ", figure);
                lines.push(line);
                assert(texts(lines@) == seq![status@, line@]);
            }
        }
        lines
    }
}

/// The aggregator counts what it receives: after `k` outcomes of a batch
/// of `num_files` files it has received `k`, and it is complete exactly when
/// `k` has reached `num_files`.
pub proof fn law_aggregator_counts_outcomes(num_files: nat, verbose: bool, k: nat)
    requires
        k <= num_files,
    ensures
        AggregatorModel::fresh(num_files, verbose).after_receives(k).received() == k,
        AggregatorModel::fresh(num_files, verbose).after_receives(k).num_files() == num_files,
        AggregatorModel::fresh(num_files, verbose).after_receives(k).complete() <==> k
            == num_files,
    decreases k,
{
    if k > 0 {
        law_aggregator_counts_outcomes(num_files, verbose, (k - 1) as nat);
    }
}

/// One outcome per input file: on a batch of `num_files` files the workers
/// are granted `num_files` indices in all, however many claims they make
/// and however these interleave, and the aggregator is complete after
/// exactly that many outcomes and not before.
pub proof fn law_one_outcome_per_file(num_files: nat, verbose: bool, claims: nat, received: nat)
    requires
        claims >= num_files,
        received <= num_files,
    ensures
        QueueModel::fresh(num_files).granted(claims).len() == num_files,
        AggregatorModel::fresh(num_files, verbose).after_receives(received).complete()
            <==> received == QueueModel::fresh(num_files).granted(claims).len(),
{
    law_granted_is_every_index(num_files, claims);
    law_aggregator_counts_outcomes(num_files, verbose, received);
}

/// In a batch of one file the aggregator never forms the progress quotient:
/// its one outcome is reported with the bare status line and, in a verbose
/// run, with a progress of 100.
pub proof fn law_single_file_reports_completion(outcome: OutcomeModel, verbose: bool)
    ensures
        AggregatorModel::fresh(1, verbose).report(outcome) == if verbose {
            seq![status_text(outcome, 1), progress_text("Progress: "@, 100)]
        } else {
            seq![status_text(outcome, 1)]
        },
        AggregatorModel::fresh(1, verbose).after_receive().complete(),
{
}

} // verus!
