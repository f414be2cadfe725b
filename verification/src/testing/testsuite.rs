//! A suite of sample tests: found in a directory, run in order, counted.

use crate::paths::{extension, extension_of, with_extension, with_extension_of, PathKind};
use crate::testing::test::{Test, TestResult, TestView};
use crate::text::{
    ascending, decimal, decimal_text, lemma_precedes_total, lemma_precedes_transitive, precedes,
    same_text, text_precedes,
};
use crate::ux::{
    message_text, output_block, print_message, show_task_output, show_task_status, status_line,
    style_code, task_label, uppercase, LogLevel, Style, TaskStatus, TaskType,
};
use vstd::prelude::*;
use vstd::seq_lib::to_multiset_insert;
use vstd::string::StringExecFns;

verus! {

/// Why a suite could not be loaded.
#[derive(Debug)]
pub enum Error {
    /// Nothing is at the path.
    PathDoesntExist,
    /// The path leads to something that is no directory.
    PathIsNotADir,
    /// The directory could not be listed, for the given reason.
    CantReadDir(String),
}

impl Error {
    /// The sentence that tells the user of the error.
    pub open spec fn text(&self) -> Seq<char> {
        match self {
            Error::PathDoesntExist => "The tests path doesn't exist!"@,
            Error::PathIsNotADir => "The tests path isn't a directory!"@,
            Error::CantReadDir(cause) => "Couldn't read the tests directory: "@ + cause@,
        }
    }

    /// The sentence that tells the user of the error.
    pub fn message(&self) -> (message: String)
        ensures
            message@ == self.text(),
    {
        match self {
            Error::PathDoesntExist => "The tests path doesn't exist!".to_owned(),
            Error::PathIsNotADir => "The tests path isn't a directory!".to_owned(),
            Error::CantReadDir(cause) => {
                let mut message = "Couldn't read the tests directory: ".to_owned();
                message.append(cause.as_str());
                message
            },
        }
    }
}

/// The extension that marks the input file of a sample.
pub open spec fn input_marker() -> Seq<char> {
    seq!['i', 'n', 'p']
}

/// The extension that marks the file with the expected output of a sample.
pub open spec fn output_marker() -> Seq<char> {
    seq!['c', 'o', 'r']
}

/// A file name that marks the input of a sample.
pub open spec fn is_input(name: Seq<char>) -> bool {
    extension_of(name) == Some(input_marker())
}

/// The test that holds of the names of input files.
pub open spec fn input_files() -> spec_fn(Seq<char>) -> bool {
    |name: Seq<char>| is_input(name)
}

/// The two files of a sample, by name.
#[derive(Debug, Clone, PartialEq, Eq)]
pub struct SamplePair {
    /// The file with the input.
    pub input: String,
    /// The file with the expected output.
    pub expected: String,
}

/// The names of the input files of some samples.
pub open spec fn input_names(pairs: Seq<SamplePair>) -> Seq<Seq<char>> {
    Seq::new(pairs.len(), |i: int| pairs[i].input@)
}

/// Whether a file name marks the input of a sample.
pub fn is_input_file(name: &str) -> (marked: bool)
    ensures
        marked == is_input(name@),
{
    proof {
        reveal_strlit("inp");
        assert("inp"@ =~= input_marker());
    }
    match extension(name) {
        Some(found) => same_text(found.as_str(), "inp"),
        None => false,
    }
}

/// Puts a name into a list that is in ascending order, behind the names
/// that precede it.
fn insert_in_order(sorted: &mut Vec<String>, name: String)
    requires
        ascending(old(sorted).deep_view()),
    ensures
        ascending(final(sorted).deep_view()),
        final(sorted).deep_view().to_multiset() == old(sorted).deep_view().to_multiset().insert(
            name@,
        ),
{
    let mut at: usize = 0;
    while at < sorted.len() && text_precedes(sorted[at].as_str(), name.as_str())
        invariant
            at <= sorted.len(),
            sorted == old(sorted),
            forall|k: int| 0 <= k < at ==> precedes(#[trigger] sorted.deep_view()[k], name@),
        decreases sorted.len() - at,
    {
        at += 1;
    }
    let ghost before = sorted.deep_view();
    proof {
        assert forall|k: int| at <= k < before.len() implies precedes(name@, #[trigger] before[k]) by {
            lemma_precedes_total(before[at as int], name@);
            if k > at {
                lemma_precedes_transitive(name@, before[at as int], before[k]);
            }
        }
        to_multiset_insert(before, at as int, name@);
    }
    sorted.insert(at, name);
    proof {
        let after = sorted.deep_view();
        assert(after =~= before.insert(at as int, name@));
        assert forall|i: int, j: int| 0 <= i < j < after.len() implies precedes(
            after[i],
            after[j],
        ) by {
            if j < at {
                assert(after[i] == before[i] && after[j] == before[j]);
            } else if j == at {
                assert(after[i] == before[i]);
            } else if i < at {
                assert(after[i] == before[i] && after[j] == before[j - 1]);
            } else if i == at {
                assert(after[j] == before[j - 1]);
            } else {
                assert(after[i] == before[i - 1] && after[j] == before[j - 1]);
            }
        }
    }
}

/// Finds the samples among the files of a directory. Every file whose
/// extension is `inp` is the input of a sample; the expected output stands
/// in the file of the same stem with the extension `cor`. The samples come
/// in ascending order of the names of their input files, so that they are
/// numbered alike whenever the same directory is read.
pub fn sample_files(entries: &Vec<String>) -> (pairs: Vec<SamplePair>)
    ensures
        ascending(input_names(pairs@)),
        input_names(pairs@).to_multiset() == entries.deep_view().filter(
            input_files(),
        ).to_multiset(),
        forall|i: int|
            0 <= i < pairs.len() ==> (#[trigger] pairs[i]).expected@ == with_extension_of(
                pairs[i].input@,
                output_marker(),
            ),
{
    let ghost names = entries.deep_view();
    let mut sorted: Vec<String> = Vec::new();
    let mut i: usize = 0;
    proof {
        reveal(Seq::filter);
        assert(names.subrange(0, 0) =~= Seq::<Seq<char>>::empty());
        assert(sorted.deep_view() =~= Seq::<Seq<char>>::empty());
    }
    while i < entries.len()
        invariant
            i <= entries.len(),
            names == entries.deep_view(),
            ascending(sorted.deep_view()),
            sorted.deep_view().to_multiset() == names.subrange(0, i as int).filter(
                input_files(),
            ).to_multiset(),
        decreases entries.len() - i,
    {
        proof {
            let seen = names.subrange(0, i as int);
            assert(names.subrange(0, i + 1) =~= seen.push(names[i as int]));
            seen.lemma_filter_push(names[i as int], input_files());
            vstd::seq_lib::to_multiset_build(seen.filter(input_files()), names[i as int]);
        }
        if is_input_file(entries[i].as_str()) {
            insert_in_order(&mut sorted, entries[i].clone());
        }
        i += 1;
    }
    assert(names.subrange(0, i as int) =~= names);
    let mut pairs: Vec<SamplePair> = Vec::new();
    let mut k: usize = 0;
    proof {
        reveal_strlit("cor");
        assert("cor"@ =~= output_marker());
    }
    while k < sorted.len()
        invariant
            k <= sorted.len(),
            "cor"@ == output_marker(),
            input_names(pairs@) == sorted.deep_view().subrange(0, k as int),
            forall|i: int|
                0 <= i < pairs.len() ==> (#[trigger] pairs[i]).expected@ == with_extension_of(
                    pairs[i].input@,
                    output_marker(),
                ),
        decreases sorted.len() - k,
    {
        let input = sorted[k].clone();
        let expected = with_extension(input.as_str(), "cor");
        let ghost before = input_names(pairs@);
        pairs.push(SamplePair { input, expected });
        assert(input_names(pairs@) =~= before.push(sorted.deep_view()[k as int]));
        assert(sorted.deep_view().subrange(0, k + 1) =~= before.push(sorted.deep_view()[k as int]));
        k += 1;
    }
    assert(sorted.deep_view().subrange(0, k as int) =~= sorted.deep_view());
    pairs
}

/// What a look at the directory of a suite gave.
#[derive(Debug)]
pub enum DirectoryScan {
    /// Nothing is at the path.
    Missing,
    /// The path leads to something that is no directory.
    NotADirectory,
    /// The directory could not be listed, for the given reason.
    Unreadable(String),
    /// The directory was listed. For each of its samples, in the order of
    /// `sample_files`: the text of the input file and the text of the file
    /// with the expected output, each as far as it could be read.
    Samples(Vec<(Option<String>, Option<String>)>),
}

impl DirectoryScan {
    /// What a look at the directory gave, where what stands at its path
    /// settles that already: nothing is an error, and so is anything but a
    /// directory. A directory is yet to be listed.
    pub fn unlisted(kind: PathKind) -> (scan: Option<DirectoryScan>)
        ensures
            match kind {
                PathKind::Missing => scan matches Some(DirectoryScan::Missing),
                PathKind::Directory => scan is None,
                _ => scan matches Some(DirectoryScan::NotADirectory),
            },
    {
        match kind {
            PathKind::Missing => Some(DirectoryScan::Missing),
            PathKind::Directory => None,
            _ => Some(DirectoryScan::NotADirectory),
        }
    }
}

/// A named list of sample tests, in the order in which they are run.
#[derive(Debug)]
pub struct TestSuite {
    name: String,
    tests: Vec<Test>,
}

/// What a suite is made of.
pub struct TestSuiteView {
    pub name: Seq<char>,
    pub tests: Seq<TestView>,
}

impl View for TestSuite {
    type V = TestSuiteView;

    closed spec fn view(&self) -> TestSuiteView {
        TestSuiteView {
            name: self.name@,
            tests: Seq::new(self.tests@.len(), |i: int| self.tests@[i]@),
        }
    }
}

/// The tests that come of the samples of a directory: one for each sample
/// of which both files could be read, in the order of the samples.
pub open spec fn readable(samples: Seq<(Option<String>, Option<String>)>) -> Seq<TestView>
    decreases samples.len(),
{
    if samples.len() == 0 {
        Seq::empty()
    } else {
        let before = readable(samples.drop_last());
        match samples.last() {
            (Some(inputs), Some(outputs)) => before.push(
                TestView { inputs: inputs@, outputs: outputs@ },
            ),
            _ => before,
        }
    }
}

/// How many of the judgements say that a test passed.
pub open spec fn passed_count(results: Seq<TestResult>) -> nat
    decreases results.len(),
{
    if results.len() == 0 {
        0
    } else {
        passed_count(results.drop_last()) + if results.last().passed() {
            1nat
        } else {
            0nat
        }
    }
}

/// No more tests pass than were judged.
pub proof fn lemma_passed_count_bound(results: Seq<TestResult>)
    ensures
        passed_count(results) <= results.len(),
    decreases results.len(),
{
    if results.len() > 0 {
        lemma_passed_count_bound(results.drop_last());
    }
}

/// The name under which a test of a suite is reported: the suite's name,
/// the word `test`, and the number of the test, counted from one.
pub open spec fn test_title(suite: Seq<char>, index: nat) -> Seq<char> {
    suite + " test "@ + decimal(index + 1)
}

/// Where the run of a suite stands.
#[derive(Debug)]
pub struct SuiteRun {
    next: usize,
    passed: usize,
}

/// What the run of a suite is made of.
pub struct SuiteRunView {
    /// How many tests have been dealt with.
    pub next: nat,
    /// How many of them passed.
    pub passed: nat,
}

impl View for SuiteRun {
    type V = SuiteRunView;

    closed spec fn view(&self) -> SuiteRunView {
        SuiteRunView { next: self.next as nat, passed: self.passed as nat }
    }
}

impl SuiteRun {
    #[verifier::type_invariant]
    spec fn counted(self) -> bool {
        self.passed <= self.next
    }
}

/// What is to be done next in the run of a suite.
#[derive(Debug, PartialEq, Eq)]
pub enum SuiteAction {
    /// The test is to be reported as skipped and not to be executed.
    Skip { index: usize, title: String },
    /// The test is to be executed.
    Execute { index: usize, title: String },
    /// No test is left; so many passed.
    Finish { passed: usize },
}

/// What the user is told of the judgement of a test.
#[derive(Debug)]
pub struct TestReport {
    /// The status line.
    pub status: String,
    /// The line that tells why the test could not be run, if it could not.
    pub error: Option<String>,
    /// The block that shows the differences, if the test ran and failed.
    pub diff: Option<String>,
}

impl TestSuite {
    /// Loads a suite from what a look at its directory gave. A missing
    /// directory, a path that is no directory and a directory that cannot be
    /// listed are errors of their own. Samples of which a file is missing or
    /// cannot be read are left out without a word.
    pub fn from_dir(name: &str, scan: DirectoryScan) -> (loaded: Result<TestSuite, Error>)
        ensures
            match scan {
                DirectoryScan::Missing => loaded matches Err(Error::PathDoesntExist),
                DirectoryScan::NotADirectory => loaded matches Err(Error::PathIsNotADir),
                DirectoryScan::Unreadable(cause) => loaded matches Err(Error::CantReadDir(text))
                    && text@ == cause@,
                DirectoryScan::Samples(samples) => loaded matches Ok(suite) && suite@ == (
                TestSuiteView { name: name@, tests: readable(samples@) }),
            },
    {
        match scan {
            DirectoryScan::Missing => Err(Error::PathDoesntExist),
            DirectoryScan::NotADirectory => Err(Error::PathIsNotADir),
            DirectoryScan::Unreadable(cause) => Err(Error::CantReadDir(cause)),
            DirectoryScan::Samples(samples) => {
                let ghost all = samples@;
                let mut samples = samples;
                let mut reversed: Vec<Test> = Vec::new();
                let mut suite = TestSuite { name: name.to_owned(), tests: Vec::new() };
                // The samples are taken from the end, so the tests come out in reverse.
                while samples.len() > 0
                    invariant
                        samples@ == all.subrange(0, samples@.len() as int),
                        samples@.len() <= all.len(),
                        readable(all) == readable(samples@) + Seq::new(
                            reversed@.len(),
                            |i: int| reversed@[reversed@.len() - 1 - i]@,
                        ),
                    decreases samples.len(),
                {
                    let ghost rest = Seq::new(
                        reversed@.len(),
                        |i: int| reversed@[reversed@.len() - 1 - i]@,
                    );
                    let ghost longer = samples@;
                    let sample = samples.pop().unwrap();
                    assert(samples@ =~= longer.drop_last());
                    assert(samples@ =~= all.subrange(0, samples@.len() as int));
                    match Test::from_files(sample.0, sample.1) {
                        Some(test) => {
                            reversed.push(test);
                            assert(readable(longer) + rest =~= readable(samples@) + Seq::new(
                                reversed@.len(),
                                |i: int| reversed@[reversed@.len() - 1 - i]@,
                            ));
                        },
                        None => {},
                    }
                }
                assert(readable(samples@) =~= Seq::<TestView>::empty());
                let ghost turned = Seq::new(
                    reversed@.len(),
                    |i: int| reversed@[reversed@.len() - 1 - i]@,
                );
                assert(readable(all) =~= turned);
                while reversed.len() > 0
                    invariant
                        suite.name@ == name@,
                        reversed@.len() + suite.tests@.len() == turned.len(),
                        forall|i: int|
                            0 <= i < suite.tests@.len() ==> (#[trigger] suite.tests@[i])@
                                == turned[i],
                        forall|i: int|
                            0 <= i < reversed@.len() ==> (#[trigger] reversed@[i])@ == turned[turned.len()
                                - 1 - i],
                    decreases reversed.len(),
                {
                    let test = reversed.pop().unwrap();
                    suite.tests.push(test);
                }
                assert(suite@.tests =~= turned);
                Ok(suite)
            },
        }
    }

    /// The name of the suite.
    pub fn name(&self) -> (name: &str)
        ensures
            name@ == self@.name,
    {
        self.name.as_str()
    }

    /// How many tests the suite holds.
    pub fn count(&self) -> (count: usize)
        ensures
            count == self@.tests.len(),
    {
        self.tests.len()
    }

    /// A test of the suite, by its place.
    pub fn test(&self, index: usize) -> (test: &Test)
        requires
            index < self@.tests.len(),
        ensures
            test@ == self@.tests[index as int],
    {
        &self.tests[index]
    }

    /// The name under which a test of the suite is reported.
    pub fn test_name(&self, index: usize) -> (title: String)
        requires
            index < usize::MAX,
        ensures
            title@ == test_title(self@.name, index as nat),
    {
        let mut title = self.name.clone();
        title.append(" test ");
        title.append(decimal_text(index + 1).as_str());
        title
    }

    /// The start of a run: no test dealt with, none passed.
    pub fn begin(&self) -> (run: SuiteRun)
        ensures
            run@ == (SuiteRunView { next: 0, passed: 0 }),
    {
        SuiteRun { next: 0, passed: 0 }
    }

    /// Says what is to be done next. The tests are taken in order. When the
    /// run is to skip, no test is ever to be executed.
    pub fn next_action(&self, run: &SuiteRun, should_skip: bool) -> (action: SuiteAction)
        ensures
            run@.next >= self@.tests.len() ==> (action matches SuiteAction::Finish { passed }
                && passed == run@.passed),
            run@.next < self@.tests.len() && should_skip ==> (action matches SuiteAction::Skip {
                index,
                title,
            } && index == run@.next && title@ == test_title(self@.name, run@.next)),
            run@.next < self@.tests.len() && !should_skip ==> (
            action matches SuiteAction::Execute { index, title } && index == run@.next && title@
                == test_title(self@.name, run@.next)),
    {
        if run.next >= self.tests.len() {
            SuiteAction::Finish { passed: run.passed }
        } else if should_skip {
            SuiteAction::Skip { index: run.next, title: self.test_name(run.next) }
        } else {
            SuiteAction::Execute { index: run.next, title: self.test_name(run.next) }
        }
    }

    /// Notes that the next test was skipped. It does not count as passed.
    /// A run that is over stays as it is.
    pub fn skipped(&self, run: SuiteRun) -> (after: SuiteRun)
        ensures
            after@ == if run@.next < self@.tests.len() {
                SuiteRunView { next: run@.next + 1, passed: run@.passed }
            } else {
                run@
            },
    {
        proof {
            use_type_invariant(&run);
        }
        let count = self.tests.len();
        assert(self@.tests.len() == count);
        if run.next < count {
            SuiteRun { next: run.next + 1, passed: run.passed }
        } else {
            run
        }
    }

    /// Notes the judgement of the next test. It counts as passed when it ran
    /// to its end and every line matched. A run that is over stays as it is.
    pub fn record(&self, run: SuiteRun, result: &TestResult) -> (after: SuiteRun)
        ensures
            after@ == if run@.next < self@.tests.len() {
                SuiteRunView {
                    next: run@.next + 1,
                    passed: run@.passed + if result.passed() {
                        1nat
                    } else {
                        0nat
                    },
                }
            } else {
                run@
            },
    {
        proof {
            use_type_invariant(&run);
        }
        let count = self.tests.len();
        assert(self@.tests.len() == count);
        if run.next >= count {
            run
        } else if result.has_passed() {
            SuiteRun { next: run.next + 1, passed: run.passed + 1 }
        } else {
            SuiteRun { next: run.next + 1, passed: run.passed }
        }
    }

    /// Counts the tests that passed, given the judgement of each test in
    /// order. Nothing passes in a run that skips: its tests are not
    /// executed, so there is nothing to judge. A test without a judgement did
    /// not pass, and a judgement without a test is not counted.
    pub fn run(&self, results: &Vec<TestResult>, should_skip: bool) -> (passed: usize)
        ensures
            should_skip ==> passed == 0,
            !should_skip ==> passed == passed_count(
                results@.take(
                    if results@.len() < self@.tests.len() {
                        results@.len() as int
                    } else {
                        self@.tests.len() as int
                    },
                ),
            ),
            passed <= self@.tests.len(),
    {
        let mut run = self.begin();
        let mut done: usize = 0;
        assert(results@.take(0) =~= Seq::<TestResult>::empty());
        loop
            invariant
                run@.next == done,
                done <= self@.tests.len(),
                should_skip ==> run@.passed == 0,
                !should_skip ==> run@.passed == passed_count(
                    results@.take(
                        if results@.len() < done {
                            results@.len() as int
                        } else {
                            done as int
                        },
                    ),
                ),
                run@.passed <= done,
            decreases self@.tests.len() - done,
        {
            match self.next_action(&run, should_skip) {
                SuiteAction::Finish { passed } => {
                    return passed;
                },
                SuiteAction::Skip { index, title } => {
                    run = self.skipped(run);
                },
                SuiteAction::Execute { index, title } => {
                    if index < results.len() {
                        proof {
                            let longer = results@.take(done + 1);
                            assert(longer.drop_last() =~= results@.take(done as int));
                            assert(longer.last() == results@[done as int]);
                        }
                        run = self.record(run, &results[index]);
                    } else {
                        run = self.skipped(run);
                    }
                },
            }
            done += 1;
        }
    }
}

/// What the user is told of a test that was not executed because the run
/// skips: a status line that marks the test as wrongly skipped.
pub fn skipped_report(title: &str, level: LogLevel) -> (line: String)
    ensures
        line@ == status_line(
            task_label(title@, uppercase(title@), TaskType::Test),
            TaskStatus::SkipBad,
            level,
        ),
{
    show_task_status(title, TaskType::Test, TaskStatus::SkipBad, level)
}

/// What the user is told before a test is executed.
pub fn started_report(title: &str, level: LogLevel) -> (line: String)
    ensures
        line@ == status_line(
            task_label(title@, uppercase(title@), TaskType::Test),
            TaskStatus::InProgress,
            level,
        ),
{
    show_task_status(title, TaskType::Test, TaskStatus::InProgress, level)
}

/// What the user is told of the judgement of a test: the status line; for a
/// test that could not be run, the reason, where the log shows errors; for a
/// test that ran and failed, the report on the differences.
pub fn result_report(title: &str, result: &TestResult, level: LogLevel) -> (report: TestReport)
    ensures
        report.status@ == status_line(
            task_label(title@, uppercase(title@), TaskType::Test),
            result.status,
            level,
        ),
        report.error is Some <==> result.error is Some && LogLevel::Error.shown_at(level),
        report.error matches Some(line) ==> line@ == message_text(
            LogLevel::Error,
            "Error running test: "@ + result.error->Some_0@,
        ),
        report.diff is Some <==> result.error is None && !result.status.ok(),
        report.diff matches Some(block) ==> block@ == output_block(
            "Test diff"@,
            Style::Reset.code() + result.diff@,
        ),
{
    let status = show_task_status(title, TaskType::Test, result.status, level);
    match &result.error {
        Some(cause) => {
            let mut message = "Error running test: ".to_owned();
            message.append(cause.as_str());
            let error = match print_message(LogLevel::Error, level, message.as_str()) {
                Some(shown) => Some(shown.1),
                None => None,
            };
            TestReport { status, error, diff: None }
        },
        None => {
            if result.status.is_ok() {
                TestReport { status, error: None, diff: None }
            } else {
                let mut contents = style_code(Style::Reset);
                contents.append(result.diff.as_str());
                let block = show_task_output("Test diff", contents.as_str());
                TestReport { status, error: None, diff: Some(block) }
            }
        },
    }
}

/// Two lists of judgements agree on which tests passed.
pub open spec fn same_passes(first: Seq<TestResult>, second: Seq<TestResult>) -> bool {
    &&& first.len() == second.len()
    &&& forall|i: int| 0 <= i < first.len() ==> first[i].passed() == second[i].passed()
}

/// The count of passed tests depends on nothing but which tests passed.
pub proof fn lemma_same_passes_same_count(first: Seq<TestResult>, second: Seq<TestResult>)
    requires
        same_passes(first, second),
    ensures
        passed_count(first) == passed_count(second),
    decreases first.len(),
{
    if first.len() > 0 {
        assert(same_passes(first.drop_last(), second.drop_last())) by {
            assert forall|i: int| 0 <= i < first.drop_last().len() implies first.drop_last()[i].passed()
                == second.drop_last()[i].passed() by {
                assert(first.drop_last()[i] == first[i]);
                assert(second.drop_last()[i] == second[i]);
            }
        }
        lemma_same_passes_same_count(first.drop_last(), second.drop_last());
        assert(first.last() == first[first.len() - 1]);
        assert(second.last() == second[second.len() - 1]);
    }
}

/// Running a suite again gives the same count: two runs in which the binary
/// printed the same bytes for each test are judged alike, on whatever
/// terminals the two runs were shown.
pub proof fn lemma_rerun_counts_the_same(
    suite: TestSuite,
    printed: Seq<Seq<u8>>,
    first: Seq<TestResult>,
    first_width: u16,
    second: Seq<TestResult>,
    second_width: u16,
)
    requires
        printed.len() == suite@.tests.len(),
        first.len() == printed.len(),
        second.len() == printed.len(),
        forall|i: int|
            0 <= i < printed.len() ==> (#[trigger] first[i]).is_judgement(
                suite@.tests[i].outputs,
                printed[i],
                first_width,
            ),
        forall|i: int|
            0 <= i < printed.len() ==> (#[trigger] second[i]).is_judgement(
                suite@.tests[i].outputs,
                printed[i],
                second_width,
            ),
    ensures
        passed_count(first) == passed_count(second),
{
    assert forall|i: int| 0 <= i < first.len() implies first[i].passed() == second[i].passed() by {
        assert(first[i].is_judgement(suite@.tests[i].outputs, printed[i], first_width));
        assert(second[i].is_judgement(suite@.tests[i].outputs, printed[i], second_width));
    }
    lemma_same_passes_same_count(first, second);
}

} // verus!
