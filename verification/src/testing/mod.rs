//! Running a candidate binary against sample inputs and judging what it
//! printed.

pub mod diff_display;
pub mod test;
pub mod testsuite;

use crate::fetch::download::{archive_path, problem_archive, problem_samples, samples_path};
use crate::fetch::resource::{OnlineResource, UnzipResource};
use crate::problem::Problem;
use vstd::prelude::*;

verus! {

/// Adds what the tests of a problem need to the list: the folder of the
/// judge's samples, unpacked from the problem's archive, which is fetched
/// from the judge.
pub fn write_required_resources(
    problem: &Problem,
    resources: &mut Vec<UnzipResource<OnlineResource>>,
)
    ensures
        final(resources)@.len() == old(resources)@.len() + 1,
        final(resources)@.drop_last() == old(resources)@,
        final(resources)@.last().output_path() == samples_path(*problem),
        final(resources)@.last().source_resource().download_path() == archive_path(*problem),
        final(resources)@.last().source_resource().url() == problem.zip_url@,
{
    let zip = OnlineResource::new(problem_archive(problem), problem.zip_url.clone());
    let tests = UnzipResource::new(zip, problem_samples(problem));
    resources.push(tests);
    assert(resources@.drop_last() =~= old(resources)@);
}

} // verus!
