//! The plan of one batch, and the decisions a worker takes for each file.
//!
//! A worker alternates between this module and the file format: it claims
//! an index from the shared queue, asks [`BatchPlan::worker_step`] what to
//! do with it, opens the source where told to, asks
//! [`BatchPlan::conversion_target`] where the copy goes, copies the records
//! in order, and reports one outcome.

use crate::aggregator::{Aggregator, AggregatorModel};
use crate::arguments::{read_request, requested, ArgumentError, Request, RequestModel};
use crate::host::{available_processors, main_separator};
use crate::inputs::{input_list, split_input_list};
use crate::outcome::{BatchError, BatchErrorModel, ConversionOutcome, OutcomeModel};
use crate::paths::{
    append_separator, is_source_file, normalized_directory, place_target, resolve, resolved,
    target_path,
};
use crate::progress::{MeterModel, ProgressMeter};
use crate::queue::{QueueModel, WorkQueue};
use crate::text::texts;
use vstd::prelude::*;

verus! {

/// What a batch plan stands for.
pub struct PlanModel {
    /// The path tokens, in the order in which they were named.
    pub inputs: Seq<Seq<char>>,
    pub working_directory: Seq<char>,
    /// The output directory, ending in a separator; empty where the copies
    /// go beside their sources.
    pub output_directory: Seq<char>,
    pub verbose: bool,
    /// The separator of the platform: it separates the components of a
    /// path, as `/` does, and ends the output directory.
    pub separator: char,
    /// The size of the worker pool.
    pub workers: nat,
}

impl PlanModel {
    /// The plan that a request makes.
    pub open spec fn of(
        request: RequestModel,
        working_directory: Seq<char>,
        verbose: bool,
        separator: char,
        workers: nat,
    ) -> PlanModel {
        PlanModel {
            inputs: input_list(request.input_files),
            working_directory,
            output_directory: normalized_directory(request.output_directory, separator),
            verbose,
            separator,
            workers,
        }
    }

    /// The number of input files.
    pub open spec fn num_files(self) -> nat {
        self.inputs.len()
    }

    /// What a worker does with a claim. Without an index, or with one past
    /// the list, it stops. A blank token is reported and nothing is
    /// opened. Any other token is resolved to the source path to open.
    pub open spec fn step(self, claim: Option<nat>) -> StepModel {
        match claim {
            Some(index) if index < self.inputs.len() => {
                let token = self.inputs[index as int];
                if token.len() == 0 {
                    StepModel::Emit(OutcomeModel::EmptyPath { index })
                } else {
                    StepModel::Open {
                        index,
                        source: resolved(token, self.working_directory, self.separator),
                    }
                }
            },
            _ => StepModel::Stop,
        }
    }

    /// Whether the copying of records reports its own progress: only in a
    /// verbose run over a single file.
    pub open spec fn reports_records(self) -> bool {
        self.verbose && self.inputs.len() == 1
    }
}

/// What a [`WorkerStep`] stands for.
pub enum StepModel {
    Stop,
    Emit(OutcomeModel),
    Open { index: nat, source: Seq<char> },
}

/// What a worker does next.
#[derive(Debug, Clone, PartialEq, Eq)]
pub enum WorkerStep {
    /// The queue is exhausted: the worker ends.
    Stop,
    /// Nothing is to convert: report this outcome and claim again.
    Emit(ConversionOutcome),
    /// Open the source file at `source`, which stands at `index` in the
    /// input list, and convert it.
    Open { index: usize, source: String },
}

impl View for WorkerStep {
    type V = StepModel;

    open spec fn view(&self) -> StepModel {
        match self {
            WorkerStep::Stop => StepModel::Stop,
            WorkerStep::Emit(outcome) => StepModel::Emit(outcome@),
            WorkerStep::Open { index, source } => StepModel::Open {
                index: *index as nat,
                source: source@,
            },
        }
    }
}

/// The settled facts of one batch, shared read-only by all workers.
pub struct BatchPlan {
    inputs: Vec<String>,
    working_directory: String,
    output_directory: String,
    verbose: bool,
    separator: char,
    workers: usize,
}

impl View for BatchPlan {
    type V = PlanModel;

    closed spec fn view(&self) -> PlanModel {
        PlanModel {
            inputs: texts(self.inputs@),
            working_directory: self.working_directory@,
            output_directory: self.output_directory@,
            verbose: self.verbose,
            separator: self.separator,
            workers: self.workers as nat,
        }
    }
}

impl BatchPlan {
    /// Plans the batch that `request` asks for, with a pool of `workers`
    /// workers, on a platform whose separator is `separator`.
    pub fn new(
        request: &Request,
        working_directory: &str,
        verbose: bool,
        separator: char,
        workers: usize,
    ) -> (plan: BatchPlan)
        ensures
            plan@ == PlanModel::of(request@, working_directory@, verbose, separator, workers as nat),
            plan@.num_files() >= 1,
    {
        BatchPlan {
            inputs: split_input_list(request.input_files.as_str()),
            working_directory: String::from_str(working_directory),
            output_directory: append_separator(request.output_directory.as_str(), separator),
            verbose,
            separator,
            workers,
        }
    }

    /// Plans the batch that the arguments ask for on this machine: the pool
    /// has one worker per available processor, and the separator is the
    /// platform's. Arguments that name no input files plan nothing.
    pub fn prepare(arguments: &Vec<String>, working_directory: &str, verbose: bool) -> (planned:
        Result<BatchPlan, ArgumentError>)
        ensures
            match planned {
                Ok(plan) => {
                    &&& requested(texts(arguments@)) is Ok
                    &&& plan@.workers >= 1
                    &&& plan@ == PlanModel::of(
                        requested(texts(arguments@)).unwrap(),
                        working_directory@,
                        verbose,
                        plan@.separator,
                        plan@.workers,
                    )
                },
                Err(error) => requested(texts(arguments@)) == Err::<RequestModel, ArgumentError>(
                    error,
                ),
            },
    {
        match read_request(arguments) {
            Ok(request) => {
                let separator = main_separator();
                let workers = available_processors();
                Ok(BatchPlan::new(&request, working_directory, verbose, separator, workers))
            },
            Err(error) => Err(error),
        }
    }

    /// The number of input files.
    pub fn num_files(&self) -> (n: usize)
        ensures
            n == self@.num_files(),
    {
        self.inputs.len()
    }

    /// The size of the worker pool.
    pub fn num_workers(&self) -> (n: usize)
        ensures
            n == self@.workers,
    {
        self.workers
    }

    /// Whether the run reports its progress.
    pub fn is_verbose(&self) -> (b: bool)
        ensures
            b == self@.verbose,
    {
        self.verbose
    }

    /// The separator of the platform that the plan was made for.
    pub fn separator(&self) -> (c: char)
        ensures
            c == self@.separator,
    {
        self.separator
    }

    /// The output directory, ending in a separator; empty where the copies
    /// go beside their sources.
    pub fn output_directory(&self) -> (directory: &str)
        ensures
            directory@ == self@.output_directory,
    {
        self.output_directory.as_str()
    }

    /// The queue that hands out the indices of this batch.
    pub fn work_queue(&self) -> (queue: WorkQueue)
        ensures
            queue@ == QueueModel::fresh(self@.num_files()),
    {
        WorkQueue::new(self.inputs.len())
    }

    /// The aggregator that drains the outcomes of this batch.
    pub fn aggregator(&self) -> (aggregator: Aggregator)
        ensures
            aggregator@ == AggregatorModel::fresh(self@.num_files(), self@.verbose),
    {
        Aggregator::new(self.inputs.len(), self.verbose)
    }

    /// What a worker does with the result of a claim.
    pub fn worker_step(&self, claim: Option<usize>) -> (step: WorkerStep)
        ensures
            step@ == self@.step(
                match claim {
                    Some(index) => Some(index as nat),
                    None => None,
                },
            ),
    {
        match claim {
            Some(index) => {
                if index < self.inputs.len() {
                    let token = self.inputs[index].as_str();
                    assert(texts(self.inputs@)[index as int] == token@);
                    if token.is_empty() {
                        WorkerStep::Emit(ConversionOutcome::EmptyPath { index })
                    } else {
                        WorkerStep::Open {
                            index,
                            source: resolve(
                                token,
                                self.working_directory.as_str(),
                                self.separator,
                            ),
                        }
                    }
                } else {
                    WorkerStep::Stop
                }
            },
            None => WorkerStep::Stop,
        }
    }

    /// Where the copy of the opened source is written. A source that does
    /// not carry the source extension ends the batch.
    pub fn conversion_target(&self, source: &str, short_name: &str) -> (target: Result<
        String,
        BatchError,
    >)
        ensures
            match target {
                Ok(path) => is_source_file(source@, self@.separator) && path@ == target_path(
                    source@,
                    short_name@,
                    self@.output_directory,
                    self@.separator,
                ),
                Err(error) => !is_source_file(source@, self@.separator) && error@
                    == BatchErrorModel::WrongExtension,
            },
    {
        place_target(source, short_name, self.output_directory.as_str(), self.separator)
    }

    /// Whether the copying of records reports its own progress.
    pub fn reports_records(&self) -> (b: bool)
        ensures
            b == self@.reports_records(),
    {
        self.verbose && self.inputs.len() == 1
    }

    /// The meter for copying the `point_count` records of one file.
    pub fn record_meter(&self, point_count: usize) -> (meter: ProgressMeter)
        ensures
            meter@ == MeterModel::fresh(point_count as nat),
    {
        ProgressMeter::new(point_count)
    }
}

/// A worker stops exactly when its claim finds the queue exhausted. Claim
/// number `k` on the fresh queue of a plan is handled while `k` is below
/// the number of files: the worker reports the blank token at index `k` or
/// opens the source resolved from it. From then on every claim makes the
/// worker stop, whatever the size of the pool.
pub proof fn law_worker_handles_each_claim(plan: PlanModel, k: nat)
    ensures
        plan.step(QueueModel::fresh(plan.num_files()).claim_at(k)) is Stop <==> k
            >= plan.num_files(),
        k < plan.num_files() && plan.inputs[k as int].len() == 0 ==> plan.step(
            QueueModel::fresh(plan.num_files()).claim_at(k),
        ) == StepModel::Emit(OutcomeModel::EmptyPath { index: k }),
        k < plan.num_files() && plan.inputs[k as int].len() > 0 ==> plan.step(
            QueueModel::fresh(plan.num_files()).claim_at(k),
        ) == (StepModel::Open {
            index: k,
            source: resolved(plan.inputs[k as int], plan.working_directory, plan.separator),
        }),
{
    crate::queue::law_claims_in_order(plan.num_files(), k);
}

} // verus!
