//! Batch conversion planning for compressed point-cloud files.
//!
//! The library holds the rules of a batch converter that turns zlidar files
//! into LAS files with a pool of workers: how the arguments name the input
//! files, how a shared queue hands their indices out, what a worker does
//! with each, where the copies are written, and what the aggregator prints
//! for the outcomes. Reading and writing the files, the threads and the
//! console are left to the caller.
//!
//! Beside the converter it describes a second tool of the same toolbox,
//! which rates the shape of polygons, as far as that tool works on text and
//! whole numbers.

pub mod aggregator;
pub mod arguments;
pub mod descriptor;
mod host;
pub mod inputs;
pub mod outcome;
pub mod paths;
pub mod plan;
pub mod polygons;
pub mod progress;
pub mod queue;
pub mod text;
pub mod tool;
