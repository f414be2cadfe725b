//! One sample test: an input, the output expected for it, and the judgement
//! of what a binary printed.

use crate::testing::diff_display::{closing, heading, row, side_width_for, started, DiffDisplay};
use crate::text::{decode_lossy, lines_of, lossy_text, split_lines};
use crate::ux::{get_terminal_width, Color, TaskStatus};
use vstd::prelude::*;
use vstd::utf8::{
    decode_utf8, encode_utf8, encode_utf8_decode_utf8, encode_utf8_valid_utf8, valid_utf8,
};

verus! {

/// One record of a line alignment of two texts.
#[derive(Debug, Clone, PartialEq, Eq)]
pub enum LineDiff {
    /// A line of the expected text that the actual text lacks.
    OnlyExpected(String),
    /// A line of the actual text that the expected text lacks.
    OnlyActual(String),
    /// A line of the expected text and the line of the actual text it was
    /// matched with.
    MatchedBoth(String, String),
}

/// A record of a line alignment, as plain sequences of characters.
pub enum LineRecord {
    OnlyExpected(Seq<char>),
    OnlyActual(Seq<char>),
    MatchedBoth(Seq<char>, Seq<char>),
}

impl View for LineDiff {
    type V = LineRecord;

    open spec fn view(&self) -> LineRecord {
        match self {
            LineDiff::OnlyExpected(line) => LineRecord::OnlyExpected(line@),
            LineDiff::OnlyActual(line) => LineRecord::OnlyActual(line@),
            LineDiff::MatchedBoth(left, right) => LineRecord::MatchedBoth(left@, right@),
        }
    }
}

/// The records of an alignment, as plain sequences.
pub open spec fn records_of(diff: Seq<LineDiff>) -> Seq<LineRecord> {
    Seq::new(diff.len(), |i: int| diff[i]@)
}

/// The lines an alignment takes from the expected text, in order.
pub open spec fn expected_side(records: Seq<LineRecord>) -> Seq<Seq<char>>
    decreases records.len(),
{
    if records.len() == 0 {
        Seq::empty()
    } else {
        let before = expected_side(records.drop_last());
        match records.last() {
            LineRecord::OnlyExpected(line) => before.push(line),
            LineRecord::MatchedBoth(line, _) => before.push(line),
            LineRecord::OnlyActual(_) => before,
        }
    }
}

/// The lines an alignment takes from the actual text, in order.
pub open spec fn actual_side(records: Seq<LineRecord>) -> Seq<Seq<char>>
    decreases records.len(),
{
    if records.len() == 0 {
        Seq::empty()
    } else {
        let before = actual_side(records.drop_last());
        match records.last() {
            LineRecord::OnlyActual(line) => before.push(line),
            LineRecord::MatchedBoth(_, line) => before.push(line),
            LineRecord::OnlyExpected(_) => before,
        }
    }
}

/// No record stands on one side only.
pub open spec fn all_matched(records: Seq<LineRecord>) -> bool {
    forall|i: int| 0 <= i < records.len() ==> records[i] is MatchedBoth
}

/// Every matched record pairs two equal lines.
pub open spec fn matches_are_equal(records: Seq<LineRecord>) -> bool {
    forall|i: int|
        0 <= i < records.len() ==> (#[trigger] records[i] matches LineRecord::MatchedBoth(
            left,
            right,
        ) ==> left == right)
}

/// The records align the two sequences of lines: each side reads, top to
/// bottom, as its text does; only equal lines are matched; and two equal
/// texts are matched line by line.
pub open spec fn aligns(
    records: Seq<LineRecord>,
    expected: Seq<Seq<char>>,
    actual: Seq<Seq<char>>,
) -> bool {
    &&& expected_side(records) == expected
    &&& actual_side(records) == actual
    &&& matches_are_equal(records)
    &&& expected == actual ==> all_matched(records)
}

/// The alignment that `diff::slice` computes for two sequences of lines: one
/// built on a longest common subsequence of the two.
pub uninterp spec fn alignment(expected: Seq<Seq<char>>, actual: Seq<Seq<char>>) -> Seq<
    LineRecord,
>;

/// Calls `diff::slice` on the two sequences of lines. Trusted: the result
/// depends on the lines alone; read down its left side it gives the expected
/// lines and down its right side the actual ones; it reports a line on both
/// sides only where the two lines are equal; and for two equal sequences it
/// reports every line on both sides.
#[verifier::external_body]
pub(crate) fn diff_slices(expected: &Vec<String>, actual: &Vec<String>) -> (diff: Vec<LineDiff>)
    ensures
        records_of(diff@) == alignment(expected.deep_view(), actual.deep_view()),
        aligns(records_of(diff@), expected.deep_view(), actual.deep_view()),
{
    diff::slice(expected.as_slice(), actual.as_slice()).into_iter().map(
        |item| match item {
            diff::Result::Left(left) => LineDiff::OnlyExpected(left.clone()),
            diff::Result::Both(left, right) => LineDiff::MatchedBoth(left.clone(), right.clone()),
            diff::Result::Right(right) => LineDiff::OnlyActual(right.clone()),
        },
    ).collect()
}

/// An alignment that matches every line pairs two equal sequences.
pub proof fn lemma_all_matched_sides_agree(records: Seq<LineRecord>)
    requires
        all_matched(records),
        matches_are_equal(records),
    ensures
        expected_side(records) == actual_side(records),
    decreases records.len(),
{
    if records.len() > 0 {
        let shorter = records.drop_last();
        assert forall|i: int| 0 <= i < shorter.len() implies shorter[i] is MatchedBoth by {
            assert(shorter[i] == records[i]);
        }
        assert forall|i: int| 0 <= i < shorter.len() implies (
        #[trigger] shorter[i] matches LineRecord::MatchedBoth(left, right) ==> left == right) by {
            assert(shorter[i] == records[i]);
        }
        lemma_all_matched_sides_agree(shorter);
        assert(records.last() == records[records.len() - 1]);
    }
}

/// Aligns the lines of two texts, on a longest common subsequence of them.
/// Every line is matched exactly when the two texts have the same lines.
pub fn line_diff(expected: &str, actual: &str) -> (diff: Vec<LineDiff>)
    ensures
        records_of(diff@) == alignment(lines_of(expected@), lines_of(actual@)),
        aligns(records_of(diff@), lines_of(expected@), lines_of(actual@)),
        all_matched(records_of(diff@)) <==> lines_of(expected@) == lines_of(actual@),
        expected@ == actual@ ==> all_matched(records_of(diff@)),
{
    let expected_lines = split_lines(expected);
    let actual_lines = split_lines(actual);
    let diff = diff_slices(&expected_lines, &actual_lines);
    proof {
        if all_matched(records_of(diff@)) {
            lemma_all_matched_sides_agree(records_of(diff@));
        }
    }
    diff
}

/// The row that shows one record: an expected line alone stands on the left
/// in green behind `<`, an actual line alone on the right in red behind `>`,
/// and a matched pair on both sides without colour.
pub open spec fn record_row(record: LineRecord, width: nat) -> Seq<char> {
    match record {
        LineRecord::OnlyExpected(line) => row(
            line,
            '<',
            Seq::empty(),
            Color::Green,
            Color::Red,
            width,
        ),
        LineRecord::OnlyActual(line) => row(Seq::empty(), '>', line, Color::Green, Color::Red, width),
        LineRecord::MatchedBoth(left, right) => row(
            left,
            '│',
            right,
            Color::Reset,
            Color::Reset,
            width,
        ),
    }
}

/// The rows that show the records, top to bottom.
pub open spec fn rows(records: Seq<LineRecord>, width: nat) -> Seq<char>
    decreases records.len(),
{
    if records.len() == 0 {
        Seq::empty()
    } else {
        rows(records.drop_last(), width) + record_row(records.last(), width)
    }
}

/// The report on an alignment, laid out for a terminal of the given width:
/// the titled table with one row for each record.
pub open spec fn report(records: Seq<LineRecord>, terminal_width: u16) -> Seq<char> {
    heading("Expected output"@, "Your output"@, side_width_for(terminal_width)) + rows(
        records,
        side_width_for(terminal_width),
    ) + closing(side_width_for(terminal_width))
}

/// Judges an alignment and renders it for a terminal of the given width.
/// The texts pass when no record stands on one side only.
pub fn parse_diff_for(diff: &Vec<LineDiff>, terminal_width: u16) -> (judged: (bool, String))
    ensures
        judged.0 == all_matched(records_of(diff@)),
        judged.1@ == report(records_of(diff@), terminal_width),
{
    let mut pass = true;
    let mut display = DiffDisplay::with_width(
        terminal_width,
        "Expected output",
        "Your output",
        Color::Green,
        Color::Red,
    );
    let ghost records = records_of(diff@);
    let ghost width = side_width_for(terminal_width);
    let ghost begun = started(
        terminal_width,
        "Expected output"@,
        "Your output"@,
        Color::Green,
        Color::Red,
    );
    let mut i: usize = 0;
    assert(records.subrange(0, 0) =~= Seq::<LineRecord>::empty());
    assert(display@ =~= begun.followed_by(rows(records.subrange(0, 0), width)));
    while i < diff.len()
        invariant
            i <= diff.len(),
            records == records_of(diff@),
            width == side_width_for(terminal_width),
            begun == started(
                terminal_width,
                "Expected output"@,
                "Your output"@,
                Color::Green,
                Color::Red,
            ),
            display@ == begun.followed_by(rows(records.subrange(0, i as int), width)),
            pass == all_matched(records.subrange(0, i as int)),
        decreases diff.len() - i,
    {
        let ghost seen = records.subrange(0, i as int);
        let ghost next = records.subrange(0, i + 1);
        let ghost written = display@.text;
        assert(next.drop_last() =~= seen);
        assert(next.last() == diff@[i as int]@);
        match &diff[i] {
            LineDiff::OnlyExpected(line) => {
                pass = false;
                display.write_left(line.as_str());
            },
            LineDiff::MatchedBoth(left, right) => {
                display.write_both(left.as_str(), right.as_str());
            },
            LineDiff::OnlyActual(line) => {
                pass = false;
                display.write_right(line.as_str());
            },
        }
        proof {
            assert(display@.text == written + record_row(next.last(), width));
            assert(begun.text + rows(seen, width) + record_row(next.last(), width) =~= begun.text
                + rows(next, width));
            assert(display@ =~= begun.followed_by(rows(next, width)));
            if all_matched(next) {
                assert forall|k: int| 0 <= k < seen.len() implies seen[k] is MatchedBoth by {
                    assert(seen[k] == next[k]);
                }
                assert(next[i as int] is MatchedBoth);
            }
            if all_matched(seen) && next.last() is MatchedBoth {
                assert forall|k: int| 0 <= k < next.len() implies next[k] is MatchedBoth by {
                    if k < i {
                        assert(next[k] == seen[k]);
                    }
                }
            }
        }
        i += 1;
    }
    assert(records.subrange(0, i as int) =~= records);
    display.end();
    let text = display.build();
    assert(text@ =~= report(records, terminal_width));
    (pass, text)
}

/// Judges an alignment and renders it as wide as the terminal is.
pub fn parse_diff(diff: &Vec<LineDiff>) -> (judged: (bool, String))
    ensures
        judged.0 == all_matched(records_of(diff@)),
        exists|terminal_width: u16| judged.1@ == report(records_of(diff@), terminal_width),
{
    let terminal_width = get_terminal_width();
    parse_diff_for(diff, terminal_width)
}

/// One sample test: the input to feed and the output to expect.
#[derive(Debug)]
pub struct Test {
    inputs: String,
    outputs: String,
}

/// What a sample test is made of.
pub struct TestView {
    pub inputs: Seq<char>,
    pub outputs: Seq<char>,
}

impl View for Test {
    type V = TestView;

    closed spec fn view(&self) -> TestView {
        TestView { inputs: self.inputs@, outputs: self.outputs@ }
    }
}

/// The judgement of one run of a test.
#[derive(Debug)]
pub struct TestResult {
    /// `Pass` or `Fail`.
    pub status: TaskStatus,
    /// Why the binary could not be run to its end, if it could not.
    pub error: Option<String>,
    /// The report that shows the expected output beside the actual one.
    pub diff: String,
}

impl TestResult {
    /// The test could not be run to its end, for the given reason.
    pub open spec fn is_failure(&self, cause: Seq<char>) -> bool {
        &&& self.status is Fail
        &&& self.error matches Some(text) && text@ == cause
        &&& self.diff@ == Seq::<char>::empty()
    }

    /// The test ran, the binary printed `stdout`, and the judgement shows it
    /// against `expected` on a terminal of the given width.
    pub open spec fn is_judgement(
        &self,
        expected: Seq<char>,
        stdout: Seq<u8>,
        terminal_width: u16,
    ) -> bool {
        &&& self.error is None
        &&& self.status == (if all_matched(
            alignment(lines_of(expected), lines_of(lossy_text(stdout))),
        ) {
            TaskStatus::Pass
        } else {
            TaskStatus::Fail
        })
        &&& self.diff@ == report(
            alignment(lines_of(expected), lines_of(lossy_text(stdout))),
            terminal_width,
        )
    }

    /// The test passed: it ran to its end and every line matched.
    pub open spec fn passed(&self) -> bool {
        self.error is None && self.status.ok()
    }

    /// Whether the test ran to its end and every line matched.
    pub fn has_passed(&self) -> (passed: bool)
        ensures
            passed == self.passed(),
    {
        self.error.is_none() && self.status.is_ok()
    }
}

/// Where the run of a test stands.
#[derive(PartialEq, Eq, Structural, Debug, Clone, Copy)]
pub enum RunStep {
    /// The binary is to be started, its three standard streams piped.
    Spawn,
    /// The input is to be written to the binary.
    SendInput,
    /// The binary is to be waited for, and its output collected.
    Wait,
    /// The run is over and has been judged.
    Finished,
}

/// What happened when a step of a run was carried out.
#[derive(Debug)]
pub enum RunEvent {
    /// The binary was started.
    Spawned,
    /// The binary could not be started.
    SpawnFailed(String),
    /// The input was written.
    InputSent,
    /// The binary had closed its input before it was written to.
    InputPipeClosed,
    /// Writing the input failed.
    InputFailed(String),
    /// The binary ended, with whatever exit status, and had printed these
    /// bytes.
    Exited(Vec<u8>),
    /// Waiting for the binary failed.
    WaitFailed(String),
}

/// The step that follows a step and what happened in it. A failure ends the
/// run at once; an input that the binary did not care to read does not; an
/// event that does not belong to the step leaves the run where it stands.
pub open spec fn next_step(step: RunStep, event: RunEvent) -> RunStep {
    match (step, event) {
        (RunStep::Spawn, RunEvent::Spawned) => RunStep::SendInput,
        (RunStep::Spawn, RunEvent::SpawnFailed(_)) => RunStep::Finished,
        (RunStep::SendInput, RunEvent::InputSent) => RunStep::Wait,
        (RunStep::SendInput, RunEvent::InputPipeClosed) => RunStep::Wait,
        (RunStep::SendInput, RunEvent::InputFailed(_)) => RunStep::Finished,
        (RunStep::Wait, RunEvent::Exited(_)) => RunStep::Finished,
        (RunStep::Wait, RunEvent::WaitFailed(_)) => RunStep::Finished,
        _ => step,
    }
}

impl Test {
    /// A test with the given input and expected output.
    pub fn new(inputs: String, outputs: String) -> (test: Test)
        ensures
            test@ == (TestView { inputs: inputs@, outputs: outputs@ }),
    {
        Test { inputs, outputs }
    }

    /// A test from what reading its two files gave: there is one only if
    /// both could be read as text.
    pub fn from_files(inputs: Option<String>, outputs: Option<String>) -> (test: Option<Test>)
        ensures
            test is Some <==> inputs is Some && outputs is Some,
            test matches Some(t) ==> t@ == (TestView {
                inputs: inputs->Some_0@,
                outputs: outputs->Some_0@,
            }),
    {
        match inputs {
            Some(inputs) => match outputs {
                Some(outputs) => Some(Test { inputs, outputs }),
                None => None,
            },
            None => None,
        }
    }

    /// The text to feed to the binary.
    pub fn inputs(&self) -> (text: &str)
        ensures
            text@ == self@.inputs,
    {
        self.inputs.as_str()
    }

    /// The text the binary is to print.
    pub fn outputs(&self) -> (text: &str)
        ensures
            text@ == self@.outputs,
    {
        self.outputs.as_str()
    }

    /// The judgement of a run that could not be carried to its end.
    pub fn failed(cause: String) -> (result: TestResult)
        ensures
            result.is_failure(cause@),
    {
        TestResult { status: TaskStatus::Fail, error: Some(cause), diff: String::new() }
    }

    /// Judges what the binary printed. The bytes are read as text, invalid
    /// parts replaced; the test passes exactly when that text has the same
    /// lines as the expected output. So a binary that prints the expected
    /// output byte for byte passes. The exit status of the binary plays no
    /// part.
    pub fn judge(&self, stdout: &Vec<u8>, terminal_width: u16) -> (result: TestResult)
        ensures
            result.is_judgement(self@.outputs, stdout@, terminal_width),
            result.passed() <==> lines_of(self@.outputs) == lines_of(lossy_text(stdout@)),
            valid_utf8(stdout@) ==> (result.passed() <==> lines_of(self@.outputs) == lines_of(
                decode_utf8(stdout@),
            )),
            stdout@ == encode_utf8(self@.outputs) ==> result.passed(),
    {
        proof {
            encode_utf8_valid_utf8(self@.outputs);
            encode_utf8_decode_utf8(self@.outputs);
        }
        let binary_output = decode_lossy(stdout);
        let diff = line_diff(self.outputs.as_str(), binary_output.as_str());
        let (pass, report) = parse_diff_for(&diff, terminal_width);
        let status = if pass {
            TaskStatus::Pass
        } else {
            TaskStatus::Fail
        };
        TestResult { status, error: None, diff: report }
    }

    /// Takes a run one step further: given where the run stands and what
    /// happened, says where it stands now, and hands out the judgement when
    /// the run is over.
    pub fn run(&self, step: RunStep, event: RunEvent, terminal_width: u16) -> (next: (
        RunStep,
        Option<TestResult>,
    ))
        ensures
            next.0 == next_step(step, event),
            next.1 is Some <==> step != RunStep::Finished && next.0 == RunStep::Finished,
            next.1 matches Some(result) ==> match event {
                RunEvent::SpawnFailed(cause) => result.is_failure(cause@),
                RunEvent::InputFailed(cause) => result.is_failure(cause@),
                RunEvent::WaitFailed(cause) => result.is_failure(cause@),
                RunEvent::Exited(stdout) => result.is_judgement(
                    self@.outputs,
                    stdout@,
                    terminal_width,
                ),
                _ => false,
            },
    {
        match step {
            RunStep::Spawn => match event {
                RunEvent::Spawned => (RunStep::SendInput, None),
                RunEvent::SpawnFailed(cause) => (RunStep::Finished, Some(Self::failed(cause))),
                _ => (step, None),
            },
            RunStep::SendInput => match event {
                RunEvent::InputSent => (RunStep::Wait, None),
                RunEvent::InputPipeClosed => (RunStep::Wait, None),
                RunEvent::InputFailed(cause) => (RunStep::Finished, Some(Self::failed(cause))),
                _ => (step, None),
            },
            RunStep::Wait => match event {
                RunEvent::Exited(stdout) => (
                    RunStep::Finished,
                    Some(self.judge(&stdout, terminal_width)),
                ),
                RunEvent::WaitFailed(cause) => (RunStep::Finished, Some(Self::failed(cause))),
                _ => (step, None),
            },
            RunStep::Finished => (step, None),
        }
    }
}

} // verus!
