//! The compiler and its two passes: a strict one over the user's own code,
//! then a relaxed one over the generated source, which builds the binary.

use crate::paths::{join, joined, PathKind};
use crate::problem::Problem;
use crate::text::{decimal, decimal_text, decode_lossy, lossy_text};
use vstd::prelude::*;
use vstd::string::StringExecFns;

verus! {

/// A compiler: the command that runs it and the flags of its two passes.
#[derive(Debug)]
pub struct Compiler {
    command: String,
    flags1: Vec<String>,
    flags2: Vec<String>,
}

/// What a compiler is made of.
pub struct CompilerView {
    pub command: Seq<char>,
    pub flags1: Seq<Seq<char>>,
    pub flags2: Seq<Seq<char>>,
}

impl View for Compiler {
    type V = CompilerView;

    closed spec fn view(&self) -> CompilerView {
        CompilerView {
            command: self.command@,
            flags1: self.flags1.deep_view(),
            flags2: self.flags2.deep_view(),
        }
    }
}

/// The flags of the judge's strict build: judge mode, optimisation, and
/// every warning an error.
pub open spec fn strict_flags() -> Seq<Seq<char>> {
    seq![
        "-D_JUDGE_"@,
        "-DNDEBUG"@,
        "-O2"@,
        "-Wall"@,
        "-Wextra"@,
        "-Werror"@,
        "-Wno-sign-compare"@,
        "-Wshadow"@,
    ]
}

/// The flags of the judge's relaxed build: judge mode and optimisation.
pub open spec fn relaxed_flags() -> Seq<Seq<char>> {
    seq!["-D_JUDGE_"@, "-DNDEBUG"@, "-O2"@]
}

/// Why a pass of the compiler failed.
#[derive(Debug, Clone, PartialEq, Eq)]
pub enum CompilationError {
    /// There is no source file.
    SourceDoesNotExist,
    /// The source is a directory.
    SourceIsADir,
    /// A directory stands where the output is to go.
    OutputIsADir,
    /// The compiler could not be run, for the given reason.
    ExecutionError(String),
    /// The compiler refused the code; this is what it wrote to its standard
    /// error stream, as it wrote it.
    CompilerError(String),
    /// The compiler reported success, but its output is not there.
    MissingOutput,
}

impl CompilationError {
    /// The sentence that tells the user of the error.
    pub open spec fn text(&self) -> Seq<char> {
        match self {
            CompilationError::SourceDoesNotExist => "Source file doesn't exist!"@,
            CompilationError::SourceIsADir => "Source is a directory!"@,
            CompilationError::OutputIsADir => "Output is a directory!"@,
            CompilationError::ExecutionError(cause) => "Command execution error: "@ + cause@,
            CompilationError::CompilerError(stderr) => "The compiler raised an error:\n"@
                + stderr@,
            CompilationError::MissingOutput => "Can't find the compiler output!"@,
        }
    }

    /// The sentence that tells the user of the error.
    pub fn message(&self) -> (message: String)
        ensures
            message@ == self.text(),
    {
        match self {
            CompilationError::SourceDoesNotExist => "Source file doesn't exist!".to_owned(),
            CompilationError::SourceIsADir => "Source is a directory!".to_owned(),
            CompilationError::OutputIsADir => "Output is a directory!".to_owned(),
            CompilationError::ExecutionError(cause) => {
                let mut message = "Command execution error: ".to_owned();
                message.append(cause.as_str());
                message
            },
            CompilationError::CompilerError(stderr) => {
                let mut message = "The compiler raised an error:\n".to_owned();
                message.append(stderr.as_str());
                message
            },
            CompilationError::MissingOutput => "Can't find the compiler output!".to_owned(),
        }
    }
}

/// The failure of a compilation: the pass that failed, 1 or 2, and why.
#[derive(Debug, PartialEq, Eq)]
pub struct CompileProcessError {
    pub pass: u8,
    pub error: CompilationError,
}

impl CompileProcessError {
    /// The sentence that tells the user of the failure.
    pub open spec fn text(&self) -> Seq<char> {
        "Pass "@ + decimal(self.pass as nat) + ": "@ + self.error.text()
    }

    /// The sentence that tells the user of the failure.
    pub fn message(&self) -> (message: String)
        ensures
            message@ == self.text(),
    {
        let mut message = "Pass ".to_owned();
        message.append(decimal_text(self.pass as usize).as_str());
        message.append(": ");
        message.append(self.error.message().as_str());
        message
    }
}

/// What a pass is to produce.
#[derive(PartialEq, Eq, Structural, Debug, Clone, Copy)]
pub enum CompilationType {
    /// An object file: the code is compiled and not linked.
    Object,
    /// An executable: the code is compiled and linked.
    Binary,
}

/// One run of the compiler: the command, its arguments in order, and the
/// files it is about.
#[derive(Debug, PartialEq, Eq)]
pub struct CompilationTarget {
    pub command: String,
    pub arguments: Vec<String>,
    pub source: String,
    pub output: String,
    pub mode: CompilationType,
}

/// The arguments of a run of the compiler: the flags, the output behind
/// `-o`, and the source, behind `-c` where no executable is wanted.
pub open spec fn arguments_for(
    flags: Seq<Seq<char>>,
    source: Seq<char>,
    output: Seq<char>,
    mode: CompilationType,
) -> Seq<Seq<char>> {
    flags + seq!["-o"@, output] + match mode {
        CompilationType::Object => seq!["-c"@, source],
        CompilationType::Binary => seq![source],
    }
}

impl CompilationTarget {
    /// The target runs this command on these files with these flags.
    pub open spec fn is_run(
        &self,
        command: Seq<char>,
        flags: Seq<Seq<char>>,
        source: Seq<char>,
        output: Seq<char>,
        mode: CompilationType,
    ) -> bool {
        &&& self.command@ == command
        &&& self.arguments.deep_view() == arguments_for(flags, source, output, mode)
        &&& self.source@ == source
        &&& self.output@ == output
        &&& self.mode == mode
    }
}

/// Where a pass of the compiler stands.
#[derive(PartialEq, Eq, Structural, Debug, Clone, Copy)]
pub enum PassStep {
    /// The source and the place of the output are to be looked at.
    Inspect,
    /// The compiler is to be run.
    Invoke,
    /// The compiler reported success; its output is to be looked for.
    Confirm,
    /// The pass is over.
    Finished,
}

/// What happened when a step of a pass was carried out.
#[derive(Debug)]
pub enum PassEvent {
    /// What stands at the source and where the output is to go.
    Inspected { source: PathKind, output: PathKind },
    /// The compiler could not be run.
    SpawnFailed(String),
    /// The compiler ended: whether with status zero, and what it wrote to
    /// its standard error stream.
    Exited { success: bool, stderr: Vec<u8> },
    /// What stands where the output was to go, after the compiler ended.
    Confirmed { output: PathKind },
}

/// What stands against running the compiler on a source, if anything does.
pub open spec fn refusal(source: PathKind, output: PathKind) -> Option<CompilationError> {
    if source is Missing {
        Some(CompilationError::SourceDoesNotExist)
    } else if source is Directory {
        Some(CompilationError::SourceIsADir)
    } else if output is Directory {
        Some(CompilationError::OutputIsADir)
    } else {
        None
    }
}

/// The step that follows a step of a pass and what happened in it. An event
/// that does not belong to the step leaves the pass where it stands.
pub open spec fn next_pass_step(step: PassStep, event: PassEvent) -> PassStep {
    match (step, event) {
        (PassStep::Inspect, PassEvent::Inspected { source, output }) => if refusal(
            source,
            output,
        ) is Some {
            PassStep::Finished
        } else {
            PassStep::Invoke
        },
        (PassStep::Invoke, PassEvent::SpawnFailed(_)) => PassStep::Finished,
        (PassStep::Invoke, PassEvent::Exited { success, stderr }) => if success {
            PassStep::Confirm
        } else {
            PassStep::Finished
        },
        (PassStep::Confirm, PassEvent::Confirmed { output }) => PassStep::Finished,
        _ => step,
    }
}

/// A step and what happened in it end a pass well: the pass was waiting to
/// see the compiler's output, and the output is a file.
pub open spec fn ends_well(step: PassStep, event: PassEvent) -> bool {
    step is Confirm && (event matches PassEvent::Confirmed { output } && output is File)
}

/// The step a pass has reached after some events.
pub open spec fn pass_step_after(events: Seq<PassEvent>) -> PassStep
    decreases events.len(),
{
    if events.len() == 0 {
        PassStep::Inspect
    } else {
        next_pass_step(pass_step_after(events.drop_last()), events.last())
    }
}

/// The compiler ended with status zero in one of the events.
pub open spec fn has_zero_exit(events: Seq<PassEvent>) -> bool {
    exists|i: int|
        0 <= i < events.len() && (#[trigger] events[i] matches PassEvent::Exited {
            success,
            stderr,
        } && success)
}

/// A pass waits to see the compiler's output only after the compiler ended
/// with status zero.
pub proof fn lemma_confirm_follows_zero_exit(events: Seq<PassEvent>)
    requires
        pass_step_after(events) is Confirm,
    ensures
        has_zero_exit(events),
    decreases events.len(),
{
    let before = events.drop_last();
    if pass_step_after(before) is Confirm {
        lemma_confirm_follows_zero_exit(before);
        let i = choose|i: int|
            0 <= i < before.len() && (#[trigger] before[i] matches PassEvent::Exited {
                success,
                stderr,
            } && success);
        assert(events[i] == before[i]);
    } else {
        assert(events[events.len() - 1] == events.last());
    }
}

/// A zero exit status alone is not trusted, and neither is an output file
/// alone: a pass that ends well has seen the compiler end with status zero
/// and has found its output a file afterwards.
pub proof fn lemma_success_needs_exit_and_output(events: Seq<PassEvent>)
    requires
        events.len() > 0,
        ends_well(pass_step_after(events.drop_last()), events.last()),
    ensures
        has_zero_exit(events.drop_last()),
        events.last() matches PassEvent::Confirmed { output } && output is File,
{
    lemma_confirm_follows_zero_exit(events.drop_last());
}

/// How far a compilation has come.
#[derive(Debug, PartialEq, Eq)]
pub enum Compilation {
    /// A pass is to be run: this one.
    Run(CompilationTarget),
    /// Both passes succeeded, or one failed.
    Finished(Result<(), CompileProcessError>),
}

impl Compiler {
    /// A compiler with the given command and flags for the strict and for
    /// the relaxed pass.
    pub fn new(command: String, flags1: Vec<String>, flags2: Vec<String>) -> (compiler: Compiler)
        ensures
            compiler@ == (CompilerView {
                command: command@,
                flags1: flags1.deep_view(),
                flags2: flags2.deep_view(),
            }),
    {
        Compiler { command, flags1, flags2 }
    }

    /// The compiler of the judge's C++ course: `g++`, strict about warnings
    /// in its first pass.
    pub fn p1xx() -> (compiler: Compiler)
        ensures
            compiler@ == (CompilerView {
                command: "g++"@,
                flags1: strict_flags(),
                flags2: relaxed_flags(),
            }),
    {
        let mut flags1: Vec<String> = Vec::new();
        flags1.push("-D_JUDGE_".to_owned());
        flags1.push("-DNDEBUG".to_owned());
        flags1.push("-O2".to_owned());
        flags1.push("-Wall".to_owned());
        flags1.push("-Wextra".to_owned());
        flags1.push("-Werror".to_owned());
        flags1.push("-Wno-sign-compare".to_owned());
        flags1.push("-Wshadow".to_owned());
        let mut flags2: Vec<String> = Vec::new();
        flags2.push("-D_JUDGE_".to_owned());
        flags2.push("-DNDEBUG".to_owned());
        flags2.push("-O2".to_owned());
        assert(flags1.deep_view() =~= strict_flags());
        assert(flags2.deep_view() =~= relaxed_flags());
        Compiler { command: "g++".to_owned(), flags1, flags2 }
    }

    /// Describes the run of the compiler that builds `output` from `source`
    /// with the given flags.
    pub fn run(
        &self,
        source: &str,
        output: &str,
        compilation_type: CompilationType,
        flags: &Vec<String>,
    ) -> (target: CompilationTarget)
        ensures
            target.is_run(self@.command, flags.deep_view(), source@, output@, compilation_type),
    {
        let mut arguments: Vec<String> = Vec::new();
        let mut i: usize = 0;
        assert(flags.deep_view().subrange(0, 0) =~= arguments.deep_view());
        while i < flags.len()
            invariant
                i <= flags.len(),
                arguments.deep_view() == flags.deep_view().subrange(0, i as int),
            decreases flags.len() - i,
        {
            let ghost before = arguments.deep_view();
            arguments.push(flags[i].clone());
            assert(arguments.deep_view() =~= before.push(flags.deep_view()[i as int]));
            assert(flags.deep_view().subrange(0, i + 1) =~= before.push(flags.deep_view()[i as int]));
            i += 1;
        }
        assert(flags.deep_view().subrange(0, i as int) =~= flags.deep_view());
        arguments.push("-o".to_owned());
        arguments.push(output.to_owned());
        match compilation_type {
            CompilationType::Object => {
                arguments.push("-c".to_owned());
                arguments.push(source.to_owned());
            },
            CompilationType::Binary => {
                arguments.push(source.to_owned());
            },
        }
        assert(arguments.deep_view() =~= arguments_for(
            flags.deep_view(),
            source@,
            output@,
            compilation_type,
        ));
        CompilationTarget {
            command: self.command.clone(),
            arguments,
            source: source.to_owned(),
            output: output.to_owned(),
            mode: compilation_type,
        }
    }

    /// The strict pass over code without an entry point: it is compiled to
    /// an object file, since there is nothing to link.
    pub fn compile_first_pass(&self, source: &str, output: &str) -> (target: CompilationTarget)
        ensures
            target.is_run(self@.command, self@.flags1, source@, output@, CompilationType::Object),
    {
        self.run(source, output, CompilationType::Object, &self.flags1)
    }

    /// The strict pass over code with an entry point: it is compiled and
    /// linked.
    pub fn compile_and_link_first_pass(&self, source: &str, output: &str) -> (target:
        CompilationTarget)
        ensures
            target.is_run(self@.command, self@.flags1, source@, output@, CompilationType::Binary),
    {
        self.run(source, output, CompilationType::Binary, &self.flags1)
    }

    /// The relaxed pass, which builds the binary.
    pub fn compile_and_link_second_pass(&self, source: &str, output: &str) -> (target:
        CompilationTarget)
        ensures
            target.is_run(self@.command, self@.flags2, source@, output@, CompilationType::Binary),
    {
        self.run(source, output, CompilationType::Binary, &self.flags2)
    }

    /// Takes a pass one step further: given where the pass stands and what
    /// happened, says where it stands now, and how the pass ended when it
    /// is over. A pass succeeds only when the compiler ended with status
    /// zero and its output is a file afterwards.
    pub fn advance(step: PassStep, event: PassEvent) -> (next: (
        PassStep,
        Option<Result<(), CompilationError>>,
    ))
        ensures
            next.0 == next_pass_step(step, event),
            next.1 is Some <==> step != PassStep::Finished && next.0 == PassStep::Finished,
            next.1 matches Some(outcome) ==> (outcome is Ok <==> ends_well(step, event)),
            next.1 matches Some(outcome) ==> match event {
                PassEvent::Inspected { source, output } => outcome matches Err(error) && Some(error)
                    == refusal(source, output),
                PassEvent::SpawnFailed(cause) => outcome matches Err(
                    CompilationError::ExecutionError(text),
                ) && text == cause,
                PassEvent::Exited { success, stderr } => outcome matches Err(
                    CompilationError::CompilerError(text),
                ) && text@ == lossy_text(stderr@),
                PassEvent::Confirmed { output } => if output is File {
                    outcome is Ok
                } else {
                    outcome matches Err(CompilationError::MissingOutput)
                },
            },
    {
        match step {
            PassStep::Inspect => match event {
                PassEvent::Inspected { source, output } => match source {
                    PathKind::Missing => (
                        PassStep::Finished,
                        Some(Err(CompilationError::SourceDoesNotExist)),
                    ),
                    PathKind::Directory => (
                        PassStep::Finished,
                        Some(Err(CompilationError::SourceIsADir)),
                    ),
                    _ => match output {
                        PathKind::Directory => (
                            PassStep::Finished,
                            Some(Err(CompilationError::OutputIsADir)),
                        ),
                        _ => (PassStep::Invoke, None),
                    },
                },
                _ => (step, None),
            },
            PassStep::Invoke => match event {
                PassEvent::SpawnFailed(cause) => (
                    PassStep::Finished,
                    Some(Err(CompilationError::ExecutionError(cause))),
                ),
                PassEvent::Exited { success, stderr } => if success {
                    (PassStep::Confirm, None)
                } else {
                    (
                        PassStep::Finished,
                        Some(Err(CompilationError::CompilerError(decode_lossy(&stderr)))),
                    )
                },
                _ => (step, None),
            },
            PassStep::Confirm => match event {
                PassEvent::Confirmed { output } => match output {
                    PathKind::File => (PassStep::Finished, Some(Ok(()))),
                    _ => (PassStep::Finished, Some(Err(CompilationError::MissingOutput))),
                },
                _ => (step, None),
            },
            PassStep::Finished => (step, None),
        }
    }

    /// The first pass over a problem: the strict pass over the user's own
    /// code, into a file among the generated ones that nobody will run.
    pub open spec fn is_first_target(&self, target: CompilationTarget, problem: Problem) -> bool {
        if problem.has_main {
            target.is_run(
                self@.command,
                self@.flags1,
                problem.source@,
                joined(problem.tmp_dir@, "main.x"@),
                CompilationType::Binary,
            )
        } else {
            target.is_run(
                self@.command,
                self@.flags1,
                problem.source@,
                joined(problem.tmp_dir@, "main.o"@),
                CompilationType::Object,
            )
        }
    }

    /// The second pass over a problem: the relaxed pass over the generated
    /// source, into the binary of the problem.
    pub open spec fn is_second_target(
        &self,
        target: CompilationTarget,
        problem: Problem,
        generated_source: Seq<char>,
    ) -> bool {
        target.is_run(
            self@.command,
            self@.flags2,
            generated_source,
            problem.output@,
            CompilationType::Binary,
        )
    }

    /// Compiles a problem in two passes, one step at a time: given how the
    /// passes that were run ended, says which pass to run next or how the
    /// compilation ended. The second pass is run only after the first has
    /// succeeded; the failure of a pass ends the compilation and is reported
    /// under the number of the pass.
    pub fn compile_problem(
        &self,
        problem: &Problem,
        generated_source: &str,
        first: Option<Result<(), CompilationError>>,
        second: Option<Result<(), CompilationError>>,
    ) -> (next: Compilation)
        ensures
            match first {
                None => next matches Compilation::Run(target) && self.is_first_target(
                    target,
                    *problem,
                ),
                Some(Err(error)) => next matches Compilation::Finished(Err(failure))
                    && failure.pass == 1 && failure.error == error,
                Some(Ok(())) => match second {
                    None => next matches Compilation::Run(target) && self.is_second_target(
                        target,
                        *problem,
                        generated_source@,
                    ),
                    Some(Err(error)) => next matches Compilation::Finished(Err(failure))
                        && failure.pass == 2 && failure.error == error,
                    Some(Ok(())) => next matches Compilation::Finished(Ok(())),
                },
            },
    {
        match first {
            None => {
                if problem.has_main {
                    let output = join(problem.tmp_dir.as_str(), "main.x");
                    Compilation::Run(
                        self.compile_and_link_first_pass(problem.source.as_str(), output.as_str()),
                    )
                } else {
                    let output = join(problem.tmp_dir.as_str(), "main.o");
                    Compilation::Run(
                        self.compile_first_pass(problem.source.as_str(), output.as_str()),
                    )
                }
            },
            Some(Err(error)) => Compilation::Finished(Err(CompileProcessError { pass: 1, error })),
            Some(Ok(())) => match second {
                None => Compilation::Run(
                    self.compile_and_link_second_pass(generated_source, problem.output.as_str()),
                ),
                Some(Err(error)) => Compilation::Finished(
                    Err(CompileProcessError { pass: 2, error }),
                ),
                Some(Ok(())) => Compilation::Finished(Ok(())),
            },
        }
    }
}

} // verus!
