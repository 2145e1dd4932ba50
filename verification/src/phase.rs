//! The phases of a collection rebuild, as shown to front-ends.

use vstd::prelude::*;

verus! {

/// The step a collection rebuild is on. `Idle` means no rebuild is
/// running; `Disk` is the startup read; `Wait` queues behind an
/// earlier rebuild; the rest are the sequential build phases.
#[derive(Clone, Copy, Debug, Hash, PartialEq, Eq, Structural)]
pub enum Phase {
    /// No rebuild is running.
    Idle,
    /// Reading the persisted collection at startup.
    Disk,
    /// Waiting for an earlier rebuild to finish.
    Wait,
    /// Allocating the working structures.
    Start,
    /// Dropping handles to the old collection.
    Deconstruct,
    /// Enumerating audio files under the chosen roots.
    WalkDir,
    /// Extracting metadata from each file.
    Parse,
    /// Computing aggregates and sorting song lists.
    Fix,
    /// Computing the precomputed orderings.
    Sort,
    /// Building the search index.
    Search,
    /// Finalizing the in-memory collection.
    Prepare,
    /// Decoding and resizing album art.
    Art,
    /// Preparing the serializable copy.
    Clone,
    /// Converting album art for the front-end.
    Convert,
    /// Writing the collection to disk.
    Finalize,
}

impl Phase {
    /// The human-readable label of this phase.
    pub fn as_str(&self) -> (r: &'static str)
        ensures
            *self is Idle ==> r@ == "..."@,
            *self is Disk ==> r@ == "Reading From Disk"@,
            *self is Wait ==> r@ == "Waiting for previous Collection reset to finish"@,
            *self is Start ==> r@ == "Starting"@,
            *self is Deconstruct ==> r@ == "Deconstructing Old Collection"@,
            *self is WalkDir ==> r@ == "Walking Directories"@,
            *self is Parse ==> r@ == "Parsing Metadata"@,
            *self is Fix ==> r@ == "Fixing Metadata"@,
            *self is Sort ==> r@ == "Sorting"@,
            *self is Search ==> r@ == "Creating Search Engine"@,
            *self is Prepare ==> r@ == "Preparing Collection"@,
            *self is Art ==> r@ == "Preparing Album Art"@,
            *self is Clone ==> r@ == "Preparing Collection For Disk"@,
            *self is Convert ==> r@ == "Converting Album Art"@,
            *self is Finalize ==> r@ == "Finalizing Collection"@,
    {
        match self {
            Phase::Idle => "...",
            Phase::Disk => "Reading From Disk",
            Phase::Wait => "Waiting for previous Collection reset to finish",
            Phase::Start => "Starting",
            Phase::Deconstruct => "Deconstructing Old Collection",
            Phase::WalkDir => "Walking Directories",
            Phase::Parse => "Parsing Metadata",
            Phase::Fix => "Fixing Metadata",
            Phase::Sort => "Sorting",
            Phase::Search => "Creating Search Engine",
            Phase::Prepare => "Preparing Collection",
            Phase::Art => "Preparing Album Art",
            Phase::Clone => "Preparing Collection For Disk",
            Phase::Convert => "Converting Album Art",
            Phase::Finalize => "Finalizing Collection",
        }
    }
}

} // verus!
