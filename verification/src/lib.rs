//! Checks a single-file C++ solution before it is handed to an online judge:
//! a two-pass compilation gate, then the sample tests, then a verdict.
//!
//! The library decides and formats; it does not run a compiler, start a
//! binary, read a file or print. Whoever does that work tells the library
//! what came of it and is told what to do next.

pub mod compilation;
pub mod config;
pub mod fetch;
pub mod paths;
pub mod problem;
pub mod testing;
pub mod text;
pub mod ux;

use crate::compilation::compiler::{CompilationError, CompileProcessError};
use crate::testing::test::TestResult;
use crate::testing::testsuite::{passed_count, TestSuite};
use crate::text::{decimal, decimal_text};
use crate::ux::{
    foreground_code, output_block, show_task_output, style_code, Color, Style, TaskStatus,
};
use vstd::prelude::*;
use vstd::string::StringExecFns;

verus! {

/// The exit code of a run that went well.
pub const EX_OK: i32 = 0;

/// The exit code of a run that failed on its data: the problem, the code,
/// the tests.
pub const EX_DATAERR: i32 = 65;

/// The exit code of a run that failed on the system.
pub const EX_OSERR: i32 = 71;

/// The exit code of a run that failed on reading or writing.
pub const EX_IOERR: i32 = 74;

/// Gives `exitcode::OK`. Trusted: the crate defines it as 0.
#[verifier::external_body]
pub(crate) fn code_ok() -> (code: i32)
    ensures
        code == EX_OK,
{
    exitcode::OK
}

/// Gives `exitcode::DATAERR`. Trusted: the crate defines it as 65.
#[verifier::external_body]
pub(crate) fn code_data_error() -> (code: i32)
    ensures
        code == EX_DATAERR,
{
    exitcode::DATAERR
}

/// Gives `exitcode::OSERR`. Trusted: the crate defines it as 71.
#[verifier::external_body]
pub(crate) fn code_os_error() -> (code: i32)
    ensures
        code == EX_OSERR,
{
    exitcode::OSERR
}

/// Gives `exitcode::IOERR`. Trusted: the crate defines it as 74.
#[verifier::external_body]
pub(crate) fn code_io_error() -> (code: i32)
    ensures
        code == EX_IOERR,
{
    exitcode::IOERR
}

/// A failure that ends a run early: its description and its exit code.
#[derive(Debug)]
pub struct Error {
    description: String,
    exitcode: i32,
}

impl Error {
    /// What to tell the user.
    pub closed spec fn text(&self) -> Seq<char> {
        self.description@
    }

    /// The code to exit with.
    pub closed spec fn code(&self) -> i32 {
        self.exitcode
    }

    /// What to tell the user.
    pub fn message(&self) -> (message: &str)
        ensures
            message@ == self.text(),
    {
        self.description.as_str()
    }

    /// The code to exit with.
    pub fn exitcode(&self) -> (code: i32)
        ensures
            code == self.code(),
    {
        self.exitcode
    }

    /// The program could not be set up: a failure of reading or writing.
    pub fn from_config(error: &config::Error) -> (failure: Error)
        ensures
            failure.text() == "Error preparing the program: "@ + error.text(),
            failure.code() == EX_IOERR,
    {
        let mut description = "Error preparing the program: ".to_owned();
        description.append(error.message().as_str());
        Error { description, exitcode: code_io_error() }
    }

    /// The problem could not be made out: a failure of the data where the
    /// identifier or the solution is at fault, of the system otherwise.
    pub fn from_problem(error: &problem::Error) -> (failure: Error)
        ensures
            failure.text() == "Couldn't detect your problem: "@ + error.text(),
            failure.code() == if error.is_data_error() {
                EX_DATAERR
            } else {
                EX_OSERR
            },
    {
        let exitcode = match error {
            problem::Error::BadId(_) => code_data_error(),
            problem::Error::BadSource(_) => code_data_error(),
            _ => code_os_error(),
        };
        let mut description = "Couldn't detect your problem: ".to_owned();
        description.append(error.message().as_str());
        Error { description, exitcode }
    }

    /// The source could not be generated: a failure of the data.
    pub fn from_template(error: &compilation::template::MainGenerationError) -> (failure: Error)
        ensures
            failure.text() == "Couldn't generate a main.cc file to compile: "@ + error.text(),
            failure.code() == EX_DATAERR,
    {
        let mut description = "Couldn't generate a main.cc file to compile: ".to_owned();
        description.append(error.message().as_str());
        Error { description, exitcode: code_data_error() }
    }

    /// No session with the judge could be set up: a failure of reading or
    /// writing.
    pub fn from_connection(error: &fetch::connection_manager::Error) -> (failure: Error)
        ensures
            failure.text() == "Couldn't start the connection manager: "@ + error.text(),
            failure.code() == EX_IOERR,
    {
        let mut description = "Couldn't start the connection manager: ".to_owned();
        description.append(error.message().as_str());
        Error { description, exitcode: code_io_error() }
    }
}

/// The line that tells that a suite could not be loaded.
pub open spec fn load_failure(name: Seq<char>, error: testing::testsuite::Error) -> Seq<char> {
    "Error loading "@ + name + " tests: "@ + error.text()
}

/// Takes what loading a suite gave. A suite that could not be loaded
/// contributes no tests, and the run goes on; the user is told why, unless
/// the directory is missing and that is to be passed over.
pub fn load_tests(
    name: &str,
    loaded: Result<TestSuite, testing::testsuite::Error>,
    ignore_missing_dir: bool,
) -> (taken: (Option<TestSuite>, Option<String>))
    ensures
        match loaded {
            Ok(suite) => taken.0 == Some(suite) && taken.1 is None,
            Err(error) => taken.0 is None && if error is PathDoesntExist && ignore_missing_dir {
                taken.1 is None
            } else {
                taken.1 matches Some(line) && line@ == load_failure(name@, error)
            },
        },
{
    match loaded {
        Ok(suite) => (Some(suite), None),
        Err(error) => {
            let silent = match error {
                testing::testsuite::Error::PathDoesntExist => ignore_missing_dir,
                _ => false,
            };
            if silent {
                (None, None)
            } else {
                let mut line = "Error loading ".to_owned();
                line.append(name);
                line.append(" tests: ");
                line.append(error.message().as_str());
                (None, Some(line))
            }
        },
    }
}

/// What the user is told of a compilation.
#[derive(Debug)]
pub struct CompilationReport {
    /// Whether the binary was built.
    pub compiled: bool,
    /// The state to show for the compilation: `Pass` or `Fail`.
    pub status: TaskStatus,
    /// What the compiler wrote, under a title, where it refused the code.
    pub output: Option<String>,
    /// The line that tells of a failure that is not the code's fault.
    pub error: Option<String>,
}

/// The title over what the compiler wrote in a pass.
pub open spec fn output_title(pass: u8) -> Seq<char> {
    "Compilation output (pass "@ + decimal(pass as nat) + ")"@
}

/// The line that tells of a compilation that failed for a reason other than
/// the code.
pub open spec fn unexpected_failure(failure: CompileProcessError) -> Seq<char> {
    "Compilation failed unexpectedly: "@ + failure.text()
}

/// Reports on a compilation. Code that the compiler refused is the user's
/// to mend, so what the compiler wrote is shown as it came; any other
/// failure is reported as an error.
pub fn execute_compiler(outcome: &Result<(), CompileProcessError>) -> (report: CompilationReport)
    ensures
        report.compiled == outcome is Ok,
        report.status == if outcome is Ok {
            TaskStatus::Pass
        } else {
            TaskStatus::Fail
        },
        match outcome {
            Ok(()) => report.output is None && report.error is None,
            Err(failure) => match failure.error {
                CompilationError::CompilerError(stderr) => report.error is None && (
                report.output matches Some(block) && block@ == output_block(
                    output_title(failure.pass),
                    stderr@,
                )),
                _ => report.output is None && (report.error matches Some(line) && line@
                    == unexpected_failure(*failure)),
            },
        },
{
    match outcome {
        Ok(()) => CompilationReport {
            compiled: true,
            status: TaskStatus::Pass,
            output: None,
            error: None,
        },
        Err(failure) => match &failure.error {
            CompilationError::CompilerError(stderr) => {
                let mut title = "Compilation output (pass ".to_owned();
                title.append(decimal_text(failure.pass as usize).as_str());
                title.append(")");
                let block = show_task_output(title.as_str(), stderr.as_str());
                CompilationReport {
                    compiled: false,
                    status: TaskStatus::Fail,
                    output: Some(block),
                    error: None,
                }
            },
            _ => {
                let mut line = "Compilation failed unexpectedly: ".to_owned();
                line.append(failure.message().as_str());
                CompilationReport {
                    compiled: false,
                    status: TaskStatus::Fail,
                    output: None,
                    error: Some(line),
                }
            },
        },
    }
}

/// How many tests the suites hold together.
pub open spec fn total_tests(suites: Seq<Option<TestSuite>>) -> nat
    decreases suites.len(),
{
    if suites.len() == 0 {
        0
    } else {
        total_tests(suites.drop_last()) + match suites.last() {
            Some(suite) => suite@.tests.len(),
            None => 0,
        }
    }
}

/// The judgements that count for a suite: one for each of its tests, as far
/// as there are judgements.
pub open spec fn counted(suite: TestSuite, results: Seq<TestResult>) -> Seq<TestResult> {
    results.take(
        if results.len() < suite@.tests.len() {
            results.len() as int
        } else {
            suite@.tests.len() as int
        },
    )
}

/// The judgements of the suite at a place, if there are any.
pub open spec fn results_for(results: Seq<Vec<TestResult>>, place: int) -> Seq<TestResult> {
    if 0 <= place < results.len() {
        results[place]@
    } else {
        Seq::empty()
    }
}

/// How many tests of the suites passed, given the judgements of each suite.
pub open spec fn passed_tests(suites: Seq<Option<TestSuite>>, results: Seq<Vec<TestResult>>) -> nat
    decreases suites.len(),
{
    if suites.len() == 0 {
        0
    } else {
        passed_tests(suites.drop_last(), results) + match suites.last() {
            Some(suite) => passed_count(counted(suite, results_for(results, suites.len() - 1))),
            None => 0,
        }
    }
}

/// No more tests pass than there are.
pub proof fn lemma_passed_within_total(suites: Seq<Option<TestSuite>>, results: Seq<Vec<TestResult>>)
    ensures
        passed_tests(suites, results) <= total_tests(suites),
    decreases suites.len(),
{
    if suites.len() > 0 {
        lemma_passed_within_total(suites.drop_last(), results);
        match suites.last() {
            Some(suite) => {
                testing::testsuite::lemma_passed_count_bound(
                    counted(suite, results_for(results, suites.len() - 1)),
                );
            },
            None => {},
        }
    }
}

/// Adds up the suites: how many tests passed, and how many there are. The
/// judgements of a suite stand at the place of the suite. When the tests
/// are skipped none passes, whatever the judgements say; all tests still
/// count.
pub fn run_tests(
    testsuites: &Vec<Option<TestSuite>>,
    results: &Vec<Vec<TestResult>>,
    skip_tests: bool,
) -> (sums: (usize, usize))
    requires
        total_tests(testsuites@) <= usize::MAX,
    ensures
        sums.0 == if skip_tests {
            0
        } else {
            passed_tests(testsuites@, results@)
        },
        sums.1 == total_tests(testsuites@),
        sums.0 <= sums.1,
{
    let mut passed: usize = 0;
    let mut total: usize = 0;
    let mut i: usize = 0;
    let none: Vec<TestResult> = Vec::new();
    assert(testsuites@.take(0) =~= Seq::<Option<TestSuite>>::empty());
    while i < testsuites.len()
        invariant
            i <= testsuites.len(),
            none@.len() == 0,
            total_tests(testsuites@) <= usize::MAX,
            total == total_tests(testsuites@.take(i as int)),
            total_tests(testsuites@.take(i as int)) <= total_tests(testsuites@),
            passed == if skip_tests {
                0
            } else {
                passed_tests(testsuites@.take(i as int), results@)
            },
            passed <= total,
        decreases testsuites.len() - i,
    {
        proof {
            let longer = testsuites@.take(i + 1);
            assert(longer.drop_last() =~= testsuites@.take(i as int));
            assert(longer.last() == testsuites@[i as int]);
            lemma_total_grows(testsuites@, i + 1);
            lemma_passed_within_total(longer, results@);
        }
        match &testsuites[i] {
            Some(suite) => {
                let judged = if i < results.len() {
                    &results[i]
                } else {
                    &none
                };
                assert(judged@ =~= results_for(results@, i as int));
                assert(none@.take(0) =~= none@);
                let count = suite.count();
                let passed_here = suite.run(judged, skip_tests);
                total += count;
                passed += passed_here;
            },
            None => {},
        }
        i += 1;
    }
    assert(testsuites@.take(i as int) =~= testsuites@);
    (passed, total)
}

/// The suites up to a place hold no more tests than all of them.
proof fn lemma_total_grows(suites: Seq<Option<TestSuite>>, upto: int)
    requires
        0 <= upto <= suites.len(),
    ensures
        total_tests(suites.take(upto)) <= total_tests(suites),
    decreases suites.len() - upto,
{
    if upto < suites.len() {
        lemma_total_grows(suites, upto + 1);
        let longer = suites.take(upto + 1);
        assert(longer.drop_last() =~= suites.take(upto));
    } else {
        assert(suites.take(upto) =~= suites);
    }
}

/// The code a run exits with: a failure of the data unless the code
/// compiles and every test there is passes. Code that compiles passes with
/// no tests at all.
pub open spec fn veredict_code(compiles: bool, passed: usize, total: usize) -> i32 {
    if !compiles {
        EX_DATAERR
    } else if total == 0 {
        EX_OK
    } else if passed != total {
        EX_DATAERR
    } else {
        EX_OK
    }
}

/// The sentence a run ends with.
pub open spec fn veredict_sentence(compiles: bool, passed: usize, total: usize) -> Seq<char> {
    if !compiles {
        Color::Red.foreground() + "Your code doesn't compile!"@
    } else if total == 0 {
        Color::LightYellow.foreground()
            + "Your code compiles but you should test it before sumbitting. Try to add some tests to the folder."@
    } else if passed != total {
        Color::Red.foreground() + "DON'T submit your code to jutge.org!"@
    } else {
        Color::Green.foreground() + "You're ready to submit your code to jutge.org!"@
    }
}

/// The lines a run ends with: the sentence, and the count of tests.
pub open spec fn veredict_text(compiles: bool, passed: usize, total: usize) -> Seq<char> {
    veredict_sentence(compiles, passed, total) + " ("@ + decimal(passed as nat) + " out of "@
        + decimal(total as nat) + " tests passed)"@ + Style::Reset.code() + "\n"@
}

/// The code to exit with, for a run that came to its verdict.
pub fn show_veredict(compiles: bool, passed: usize, total: usize) -> (code: i32)
    ensures
        code == veredict_code(compiles, passed, total),
{
    if !compiles {
        code_data_error()
    } else if total == 0 {
        code_ok()
    } else if passed != total {
        code_data_error()
    } else {
        code_ok()
    }
}

/// The lines to end a run with.
pub fn veredict_message(compiles: bool, passed: usize, total: usize) -> (text: String)
    ensures
        text@ == veredict_text(compiles, passed, total),
{
    let mut text = String::new();
    if !compiles {
        text.append(foreground_code(Color::Red).as_str());
        text.append("Your code doesn't compile!");
    } else if total == 0 {
        text.append(foreground_code(Color::LightYellow).as_str());
        text.append(
            "Your code compiles but you should test it before sumbitting. Try to add some tests to the folder.",
        );
    } else if passed != total {
        text.append(foreground_code(Color::Red).as_str());
        text.append("DON'T submit your code to jutge.org!");
    } else {
        text.append(foreground_code(Color::Green).as_str());
        text.append("You're ready to submit your code to jutge.org!");
    }
    assert(text@ =~= veredict_sentence(compiles, passed, total));
    text.append(" (");
    text.append(decimal_text(passed).as_str());
    text.append(" out of ");
    text.append(decimal_text(total).as_str());
    text.append(" tests passed)");
    text.append(style_code(Style::Reset).as_str());
    text.append("\n");
    assert(text@ =~= veredict_text(compiles, passed, total));
    text
}

/// Where a run stands. A run goes forward only.
#[derive(PartialEq, Eq, Structural, Debug, Clone, Copy)]
pub enum Stage {
    /// Nothing was done yet.
    Start,
    /// The two passes of the compiler are under way.
    Compiling,
    /// A pass failed. No test is executed; the suites are still loaded and
    /// their tests reported as skipped, so that the user sees what would
    /// have run.
    CompileFailed,
    /// The binary is built and the suites are loaded.
    TestsLoaded,
    /// The suites are run against the binary, one after the other.
    Running,
    /// The run is over and judged.
    Verdict,
}

/// What happened in a stage of a run.
#[derive(PartialEq, Eq, Structural, Debug, Clone, Copy)]
pub enum Event {
    /// The run began.
    Begun,
    /// The compilation ended.
    Compiled { success: bool },
    /// The suites are ready to be run.
    SuitesReady,
    /// Every suite was run.
    SuitesRun,
}

impl Stage {
    /// How far a stage lies along a run.
    pub open spec fn rank(self) -> nat {
        match self {
            Stage::Start => 0,
            Stage::Compiling => 1,
            Stage::TestsLoaded => 2,
            Stage::Running => 3,
            Stage::CompileFailed => 4,
            Stage::Verdict => 4,
        }
    }

    /// A stage that nothing follows.
    pub open spec fn terminal(self) -> bool {
        self is CompileFailed || self is Verdict
    }

    /// Tests are executed in this stage.
    pub open spec fn executes_tests(self) -> bool {
        self is Running
    }

    /// The stage that follows a stage and what happened in it. An event that
    /// does not belong to the stage leaves the run where it stands.
    pub open spec fn next(self, event: Event) -> Stage {
        match (self, event) {
            (Stage::Start, Event::Begun) => Stage::Compiling,
            (Stage::Compiling, Event::Compiled { success }) => if success {
                Stage::TestsLoaded
            } else {
                Stage::CompileFailed
            },
            (Stage::TestsLoaded, Event::SuitesReady) => Stage::Running,
            (Stage::Running, Event::SuitesRun) => Stage::Verdict,
            _ => self,
        }
    }

    /// Takes a run one stage further.
    pub fn advance(self, event: Event) -> (next: Stage)
        ensures
            next == self.next(event),
    {
        match self {
            Stage::Start => match event {
                Event::Begun => Stage::Compiling,
                _ => self,
            },
            Stage::Compiling => match event {
                Event::Compiled { success } => if success {
                    Stage::TestsLoaded
                } else {
                    Stage::CompileFailed
                },
                _ => self,
            },
            Stage::TestsLoaded => match event {
                Event::SuitesReady => Stage::Running,
                _ => self,
            },
            Stage::Running => match event {
                Event::SuitesRun => Stage::Verdict,
                _ => self,
            },
            _ => self,
        }
    }

    /// Whether the tests of the suites are to be skipped in this stage:
    /// they are wherever they are not executed.
    pub fn skips_tests(self) -> (skip: bool)
        ensures
            skip == !self.executes_tests(),
    {
        match self {
            Stage::Running => false,
            _ => true,
        }
    }
}

/// The stage a run has reached after some events.
pub open spec fn stage_after(events: Seq<Event>) -> Stage
    decreases events.len(),
{
    if events.len() == 0 {
        Stage::Start
    } else {
        stage_after(events.drop_last()).next(events.last())
    }
}

/// A run never goes back: no event takes it to an earlier stage, and none
/// takes it out of a terminal one.
pub proof fn lemma_stage_goes_forward(stage: Stage, event: Event)
    ensures
        stage.rank() <= stage.next(event).rank(),
        stage.terminal() ==> stage.next(event) == stage,
{
}

/// A run in which a compilation failed never executes a test: whatever
/// happens after the failure, the run stays where the failure took it.
pub proof fn lemma_failed_compilation_is_final(events: Seq<Event>, at: int)
    requires
        0 <= at < events.len(),
        stage_after(events.take(at)) is Compiling,
        events[at] == (Event::Compiled { success: false }),
    ensures
        stage_after(events) is CompileFailed,
        !stage_after(events).executes_tests(),
    decreases events.len() - at,
{
    if at + 1 == events.len() {
        assert(events.drop_last() =~= events.take(at));
    } else {
        let shorter = events.drop_last();
        assert(shorter.take(at) =~= events.take(at));
        lemma_failed_compilation_is_final(shorter, at);
    }
}

/// The sum of a run: whether the code compiled, how many tests passed, how
/// many there are.
#[derive(PartialEq, Eq, Structural, Debug, Clone, Copy)]
pub struct Verdict {
    pub compiled: bool,
    pub passed: usize,
    pub total: usize,
}

impl Verdict {
    /// The code to exit with.
    pub fn code(&self) -> (code: i32)
        ensures
            code == veredict_code(self.compiled, self.passed, self.total),
    {
        show_veredict(self.compiled, self.passed, self.total)
    }
}

/// Sums a run up, from how the compilation ended and the judgements of each
/// suite. After a failed compilation no test has passed, whatever the
/// judgements say, and the run fails on its data.
pub fn verdict(
    compilation: &Result<(), CompileProcessError>,
    testsuites: &Vec<Option<TestSuite>>,
    results: &Vec<Vec<TestResult>>,
) -> (sum: Verdict)
    requires
        total_tests(testsuites@) <= usize::MAX,
    ensures
        sum.compiled == compilation is Ok,
        sum.total == total_tests(testsuites@),
        sum.passed == if compilation is Ok {
            passed_tests(testsuites@, results@)
        } else {
            0
        },
        compilation is Err ==> veredict_code(sum.compiled, sum.passed, sum.total) == EX_DATAERR,
{
    let report = execute_compiler(compilation);
    let (passed, total) = run_tests(testsuites, results, !report.compiled);
    Verdict { compiled: report.compiled, passed, total }
}

} // verus!
