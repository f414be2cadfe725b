//! Building the binary: the source that is handed to the compiler, and the
//! two passes of the compiler over it.

pub mod compiler;
pub mod template;

use crate::fetch::download::{main_path, problem_main};
use crate::fetch::resource::OnlineResource;
use crate::problem::Problem;
use vstd::prelude::*;

verus! {

/// Adds what the compilation of a problem needs to the list: the judge's
/// entry point, for a solution that has none of its own.
pub fn write_required_resources(problem: &Problem, resources: &mut Vec<OnlineResource>)
    ensures
        problem.has_main ==> final(resources)@ == old(resources)@,
        !problem.has_main ==> {
            &&& final(resources)@.len() == old(resources)@.len() + 1
            &&& final(resources)@.drop_last() == old(resources)@
            &&& final(resources)@.last().download_path() == main_path(*problem)
            &&& final(resources)@.last().url() == problem.main_cc_url@
        },
{
    if !problem.has_main {
        let main = OnlineResource::new(problem_main(problem), problem.main_cc_url.clone());
        resources.push(main);
        assert(resources@.drop_last() =~= old(resources)@);
    }
}

} // verus!
