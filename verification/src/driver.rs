//! The execution driver's decisions: where the input comes from, and which
//! of the three execution strategies the run uses.
//!
//! Both are decided exactly once at startup and never re-derived.

use vstd::prelude::*;

verus! {

/// Where the input comes from: the standard streams, or an ordered list of
/// file paths.
pub enum Source {
    Stdin,
    Files(Vec<String>),
}

impl Source {
    /// Classify the run once from the path arguments: no paths means the
    /// standard streams, otherwise the files in the order they were given.
    pub fn infer(file_paths: Vec<String>) -> (source: Source)
        ensures
            file_paths@.len() == 0 ==> source is Stdin,
            file_paths@.len() > 0 ==> (source matches Source::Files(paths) && paths@
                == file_paths@),
    {
        if file_paths.is_empty() {
            Source::Stdin
        } else {
            Source::Files(file_paths)
        }
    }
}

/// The three mutually exclusive execution strategies.
pub enum Strategy {
    /// Read all of standard input into one buffer, substitute once, write
    /// the result to standard output. No file is touched.
    StdinStream,
    /// Visit the files strictly in the order given and write each result
    /// to standard output; the first failure aborts the remaining files,
    /// since the output is a single ordered stream.
    SequentialPreview,
    /// Rewrite every file in place, each one independently and in no
    /// particular order; one file's failure is reported and stops nothing
    /// else.
    ConcurrentInPlace,
}

/// Select the strategy once from the source kind and the in-place flag:
/// the standard streams regardless of the flag, otherwise preview or
/// concurrent in-place rewriting.
pub fn select_strategy(source: &Source, in_place: bool) -> (strategy: Strategy)
    ensures
        source is Stdin ==> strategy is StdinStream,
        source is Files && in_place ==> strategy is ConcurrentInPlace,
        source is Files && !in_place ==> strategy is SequentialPreview,
{
    match source {
        Source::Stdin => Strategy::StdinStream,
        Source::Files(_) => {
            if in_place {
                Strategy::ConcurrentInPlace
            } else {
                Strategy::SequentialPreview
            }
        },
    }
}

} // verus!
