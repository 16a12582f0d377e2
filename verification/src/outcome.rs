//! What a worker reports for one input file, and what ends a whole batch.

use crate::text::{decimal, from_chars, push_decimal, push_str};
use vstd::prelude::*;

verus! {

/// The result of handling one claimed index.
#[derive(Debug, Clone, PartialEq, Eq)]
pub enum ConversionOutcome {
    /// The file was converted; `short_name` is the short name of its source.
    Converted { short_name: String },
    /// The path token at `index` was blank; nothing was converted.
    EmptyPath { index: usize },
}

/// What a [`ConversionOutcome`] stands for.
pub enum OutcomeModel {
    Converted { short_name: Seq<char> },
    EmptyPath { index: nat },
}

impl View for ConversionOutcome {
    type V = OutcomeModel;

    open spec fn view(&self) -> OutcomeModel {
        match self {
            ConversionOutcome::Converted { short_name } => OutcomeModel::Converted {
                short_name: short_name@,
            },
            ConversionOutcome::EmptyPath { index } => OutcomeModel::EmptyPath {
                index: *index as nat,
            },
        }
    }
}

/// A condition that ends the whole batch.
#[derive(Debug, Clone, PartialEq, Eq)]
pub enum BatchError {
    /// The source file at `path` could not be opened.
    SourceUnreadable { path: String },
    /// A source file does not carry the source extension.
    WrongExtension,
}

/// What a [`BatchError`] stands for.
pub enum BatchErrorModel {
    SourceUnreadable { path: Seq<char> },
    WrongExtension,
}

impl View for BatchError {
    type V = BatchErrorModel;

    open spec fn view(&self) -> BatchErrorModel {
        match self {
            BatchError::SourceUnreadable { path } => BatchErrorModel::SourceUnreadable {
                path: path@,
            },
            BatchError::WrongExtension => BatchErrorModel::WrongExtension,
        }
    }
}

/// The diagnostic for a blank path token.
pub open spec fn empty_path_text(index: nat) -> Seq<char> {
    "Empty file name for tile "@ + decimal(index) + "."@
}

/// The status line for an outcome in a batch of `num_files` files.
///
/// A diagnostic is shown as it is. The name of a converted file is
/// announced as completed where the batch has more than one file, and shown
/// bare where it has one.
pub open spec fn status_text(outcome: OutcomeModel, num_files: nat) -> Seq<char> {
    match outcome {
        OutcomeModel::EmptyPath { index } => empty_path_text(index),
        OutcomeModel::Converted { short_name } => if num_files > 1 {
            "Completed conversion of "@ + short_name
        } else {
            short_name
        },
    }
}

/// The message of a condition that ends the batch.
pub open spec fn error_text(error: BatchErrorModel) -> Seq<char> {
    match error {
        BatchErrorModel::SourceUnreadable { path } => "Error reading file: "@ + path,
        BatchErrorModel::WrongExtension => "All input files should be of zlidar format."@,
    }
}

impl ConversionOutcome {
    /// The status line for this outcome in a batch of `num_files` files.
    pub fn status_line(&self, num_files: usize) -> (line: String)
        ensures
            line@ == status_text(self@, num_files as nat),
    {
        let mut line: Vec<char> = Vec::new();
        match self {
            ConversionOutcome::EmptyPath { index } => {
                push_str(&mut line, "Empty file name for tile ");
                push_decimal(&mut line, *index);
                push_str(&mut line, ".");
            },
            ConversionOutcome::Converted { short_name } => {
                if num_files > 1 {
                    push_str(&mut line, "Completed conversion of ");
                }
                push_str(&mut line, short_name.as_str());
            },
        }
        from_chars(&line)
    }
}

impl BatchError {
    /// The message of this condition.
    pub fn message(&self) -> (text: String)
        ensures
            text@ == error_text(self@),
    {
        let mut text: Vec<char> = Vec::new();
        match self {
            BatchError::SourceUnreadable { path } => {
                push_str(&mut text, "Error reading file: ");
                push_str(&mut text, path.as_str());
            },
            BatchError::WrongExtension => {
                push_str(&mut text, "All input files should be of zlidar format.");
            },
        }
        from_chars(&text)
    }
}

} // verus!
