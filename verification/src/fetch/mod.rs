//! Getting what a problem needs from the judge: its sample tests and, for
//! problems without an entry point, the judge's own.

pub mod connection_manager;
pub mod credentials;
pub mod download;
pub mod resource;
pub mod unzip;

use vstd::prelude::*;
use vstd::string::StringExecFns;

verus! {

/// What came of getting the resources of a run.
#[derive(Debug)]
pub struct FetchReport {
    /// Whether everything the compilation needs is there.
    pub compilation: bool,
    /// Whether everything the tests need is there.
    pub testing: bool,
    /// The lines that tell the user of what could not be had, in order.
    pub errors: Vec<String>,
}

/// Every resource was had.
pub open spec fn all_acquired(outcomes: Seq<Result<String, String>>) -> bool {
    forall|i: int| 0 <= i < outcomes.len() ==> outcomes[i] is Ok
}

/// The lines that tell of the resources that could not be had, each behind
/// the given words.
pub open spec fn failure_lines(words: Seq<char>, outcomes: Seq<Result<String, String>>) -> Seq<
    Seq<char>,
>
    decreases outcomes.len(),
{
    if outcomes.len() == 0 {
        Seq::empty()
    } else {
        let before = failure_lines(words, outcomes.drop_last());
        match outcomes.last() {
            Ok(_) => before,
            Err(cause) => before.push(words + cause@),
        }
    }
}

/// What is said of a resource of the compilation that could not be had.
pub const COMPILATION_FAILURE: &'static str = "Compilation resource acquisition failed: ";

/// What is said of a resource of the tests that could not be had.
pub const TESTING_FAILURE: &'static str = "Testing resource acquisition failed: ";

fn note_failures(words: &str, outcomes: &Vec<Result<String, String>>, errors: &mut Vec<String>) -> (all:
    bool)
    ensures
        all == all_acquired(outcomes@),
        final(errors).deep_view() == old(errors).deep_view() + failure_lines(words@, outcomes@),
{
    let mut all = true;
    let mut i: usize = 0;
    assert(outcomes@.take(0) =~= Seq::<Result<String, String>>::empty());
    assert(errors.deep_view() + failure_lines(words@, outcomes@.take(0)) =~= errors.deep_view());
    while i < outcomes.len()
        invariant
            i <= outcomes.len(),
            all == all_acquired(outcomes@.take(i as int)),
            errors.deep_view() == old(errors).deep_view() + failure_lines(
                words@,
                outcomes@.take(i as int),
            ),
        decreases outcomes.len() - i,
    {
        let ghost seen = outcomes@.take(i as int);
        let ghost longer = outcomes@.take(i + 1);
        let ghost lines = errors.deep_view();
        assert(longer.drop_last() =~= seen);
        assert(longer.last() == outcomes@[i as int]);
        match &outcomes[i] {
            Ok(_) => {},
            Err(cause) => {
                let mut line = words.to_owned();
                line.append(cause.as_str());
                errors.push(line);
                assert(errors.deep_view() =~= lines.push(words@ + cause@));
                assert(errors.deep_view() =~= old(errors).deep_view() + failure_lines(
                    words@,
                    longer,
                ));
                all = false;
            },
        }
        proof {
            if all_acquired(longer) {
                assert forall|k: int| 0 <= k < seen.len() implies seen[k] is Ok by {
                    assert(seen[k] == longer[k]);
                }
                assert(longer[i as int] is Ok);
            }
            if all_acquired(seen) && outcomes@[i as int] is Ok {
                assert forall|k: int| 0 <= k < longer.len() implies longer[k] is Ok by {
                    if k < i {
                        assert(longer[k] == seen[k]);
                    }
                }
            }
        }
        i += 1;
    }
    assert(outcomes@.take(i as int) =~= outcomes@);
    all
}

/// Sums up the getting of the resources, from what came of each: the path
/// at which it stands, or the reason why it could not be had. The
/// compilation and the tests each have what they need when none of their
/// resources failed. A failure does not end the run; the user is told of it.
pub fn fetch_resources(
    compilation: &Vec<Result<String, String>>,
    testing: &Vec<Result<String, String>>,
) -> (report: FetchReport)
    ensures
        report.compilation == all_acquired(compilation@),
        report.testing == all_acquired(testing@),
        report.errors.deep_view() == failure_lines(COMPILATION_FAILURE@, compilation@)
            + failure_lines(TESTING_FAILURE@, testing@),
{
    let mut errors: Vec<String> = Vec::new();
    assert(errors.deep_view() =~= Seq::<Seq<char>>::empty());
    let compiled = note_failures(COMPILATION_FAILURE, compilation, &mut errors);
    let tested = note_failures(TESTING_FAILURE, testing, &mut errors);
    assert(errors.deep_view() =~= failure_lines(COMPILATION_FAILURE@, compilation@)
        + failure_lines(TESTING_FAILURE@, testing@));
    FetchReport { compilation: compiled, testing: tested, errors }
}

} // verus!
