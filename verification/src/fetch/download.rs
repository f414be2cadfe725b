//! Deciding what is to be fetched for a problem and what is there already.

use crate::fetch::connection_manager;
use crate::fetch::unzip;
use crate::paths::{join, joined, PathKind};
use crate::problem::Problem;
use crate::ux::TaskStatus;
use vstd::prelude::*;

verus! {

/// What is to be done about a file the judge offers.
#[derive(Debug, PartialEq, Eq)]
pub enum Download {
    /// Nothing: the task is settled, with this state.
    Settled(TaskStatus),
    /// The file at this address is to be fetched to this path.
    Fetch { url: String, path: String },
}

/// What is to be done about the samples of a problem.
#[derive(Debug, PartialEq, Eq)]
pub enum Extraction {
    /// Nothing: the task is settled, with this state.
    Settled(TaskStatus),
    /// This archive is to be unpacked into this folder.
    Extract { archive: String, folder: String },
}

/// Where the archive of a problem is kept.
pub open spec fn archive_path(problem: Problem) -> Seq<char> {
    joined(problem.work_dir@, "problem.zip"@)
}

/// Where the judge's entry point for a problem is kept.
pub open spec fn main_path(problem: Problem) -> Seq<char> {
    joined(problem.work_dir@, "main.cc"@)
}

/// Where the samples of a problem are unpacked to.
pub open spec fn samples_path(problem: Problem) -> Seq<char> {
    joined(problem.work_dir@, "samples"@)
}

/// Where the archive of a problem is kept.
pub fn problem_archive(problem: &Problem) -> (path: String)
    ensures
        path@ == archive_path(*problem),
{
    join(problem.work_dir.as_str(), "problem.zip")
}

/// Where the judge's entry point for a problem is kept.
pub fn problem_main(problem: &Problem) -> (path: String)
    ensures
        path@ == main_path(*problem),
{
    join(problem.work_dir.as_str(), "main.cc")
}

/// Where the samples of a problem are unpacked to.
pub fn problem_samples(problem: &Problem) -> (path: String)
    ensures
        path@ == samples_path(*problem),
{
    join(problem.work_dir.as_str(), "samples")
}

/// Decides about the archive of a problem, given what stands where it is
/// kept: a file is the archive, fetched before; a directory is in the way;
/// otherwise the archive is to be fetched.
pub fn download_problem_zip(problem: &Problem, destination: PathKind) -> (decision: Download)
    ensures
        match destination {
            PathKind::File => decision matches Download::Settled(TaskStatus::SkipGood),
            PathKind::Directory => decision matches Download::Settled(TaskStatus::SkipBad),
            _ => decision matches Download::Fetch { url, path } && url@ == problem.zip_url@
                && path@ == archive_path(*problem),
        },
{
    match destination {
        PathKind::File => Download::Settled(TaskStatus::SkipGood),
        PathKind::Directory => Download::Settled(TaskStatus::SkipBad),
        _ => Download::Fetch { url: problem.zip_url.clone(), path: problem_archive(problem) },
    }
}

/// Decides about the judge's entry point for a problem, given what stands
/// where it is kept: nothing is to be fetched for a solution with an entry
/// point of its own, or where a file is kept already; a directory is in the
/// way; otherwise the entry point is to be fetched.
pub fn download_problem_main(problem: &Problem, destination: PathKind) -> (decision: Download)
    ensures
        if problem.has_main || destination is File {
            decision matches Download::Settled(TaskStatus::SkipGood)
        } else if destination is Directory {
            decision matches Download::Settled(TaskStatus::SkipBad)
        } else {
            decision matches Download::Fetch { url, path } && url@ == problem.main_cc_url@ && path@
                == main_path(*problem)
        },
{
    if problem.has_main {
        return Download::Settled(TaskStatus::SkipGood);
    }
    match destination {
        PathKind::File => Download::Settled(TaskStatus::SkipGood),
        PathKind::Directory => Download::Settled(TaskStatus::SkipBad),
        _ => Download::Fetch { url: problem.main_cc_url.clone(), path: problem_main(problem) },
    }
}

/// Decides about the samples of a problem, given what stands where they
/// are unpacked to and where the archive is kept: a directory holds the
/// samples, unpacked before; a file is in the way, and so is a missing
/// archive; otherwise the archive is to be unpacked.
pub fn unzip_problem_tests(problem: &Problem, samples: PathKind, archive: PathKind) -> (decision:
    Extraction)
    ensures
        if samples is Directory {
            decision matches Extraction::Settled(TaskStatus::SkipGood)
        } else if samples is File || archive is Missing {
            decision matches Extraction::Settled(TaskStatus::SkipBad)
        } else {
            decision matches Extraction::Extract { archive: from, folder } && from@
                == archive_path(*problem) && folder@ == samples_path(*problem)
        },
{
    match samples {
        PathKind::Directory => Extraction::Settled(TaskStatus::SkipGood),
        PathKind::File => Extraction::Settled(TaskStatus::SkipBad),
        _ => match archive {
            PathKind::Missing => Extraction::Settled(TaskStatus::SkipBad),
            _ => Extraction::Extract {
                archive: problem_archive(problem),
                folder: problem_samples(problem),
            },
        },
    }
}

/// The state of a fetch that was carried out: done, or failed with the
/// error that ended it.
pub fn fetched(outcome: Result<(), connection_manager::Error>) -> (state: (
    TaskStatus,
    Option<connection_manager::Error>,
))
    ensures
        match outcome {
            Ok(()) => state.0 is Done && state.1 is None,
            Err(error) => state.0 is Fail && state.1 == Some(error),
        },
{
    match outcome {
        Ok(()) => (TaskStatus::Done, None),
        Err(error) => (TaskStatus::Fail, Some(error)),
    }
}

/// The state of an unpacking that was carried out: done, or failed with the
/// error that ended it.
pub fn unpacked(outcome: Result<(), unzip::Error>) -> (state: (TaskStatus, Option<unzip::Error>))
    ensures
        match outcome {
            Ok(()) => state.0 is Done && state.1 is None,
            Err(error) => state.0 is Fail && state.1 == Some(error),
        },
{
    match outcome {
        Ok(()) => (TaskStatus::Done, None),
        Err(error) => (TaskStatus::Fail, Some(error)),
    }
}

} // verus!
