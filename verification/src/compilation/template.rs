//! The source file that is compiled for submission: the user's code, put
//! together with what the judge adds to it.

use crate::paths::{join, joined};
use crate::problem::Problem;
use vstd::prelude::*;
use vstd::string::StringExecFns;

verus! {

/// What every generated source starts with: a note to whoever reads it.
pub const STUB: &'static str = "// Assembled for submission: what follows is compiled as one file.\n";

/// The line that makes the compiler count the lines of the user's code as
/// the user sees them.
pub const ORIGINAL_MARK: &'static str = "#line 1 \"main.cc\"\n";

/// The line that makes the compiler count the lines of the judge's entry
/// point as the judge wrote them.
pub const MAIN_MARK: &'static str = "#line 1 \"jutge-main.cc\"\n";

/// The generated source of a solution that holds its own entry point: the
/// stub, then the user's code under its own line numbers.
pub open spec fn normal_source(original: Seq<char>) -> Seq<char> {
    STUB@ + ORIGINAL_MARK@ + original + "\n"@
}

/// The generated source of a solution without an entry point: the stub, the
/// user's code, then the judge's entry point, each under its own line
/// numbers.
pub open spec fn nomain_source(original: Seq<char>, main: Seq<char>) -> Seq<char> {
    STUB@ + ORIGINAL_MARK@ + original + "\n"@ + MAIN_MARK@ + main + "\n"@
}

/// Builds the source for a solution that holds its own entry point.
pub fn apply_normal_template(original: &str) -> (source: String)
    ensures
        source@ == normal_source(original@),
{
    let mut source = STUB.to_owned();
    source.append(ORIGINAL_MARK);
    source.append(original);
    source.append("\n");
    source
}

/// Builds the source for a solution without an entry point, with the entry
/// point that the judge offers.
pub fn apply_nomain_template(original: &str, main: &str) -> (source: String)
    ensures
        source@ == nomain_source(original@, main@),
{
    let mut source = STUB.to_owned();
    source.append(ORIGINAL_MARK);
    source.append(original);
    source.append("\n");
    source.append(MAIN_MARK);
    source.append(main);
    source.append("\n");
    source
}

/// Why the source could not be generated. Each error carries the reason the
/// system gave.
#[derive(Debug, PartialEq, Eq)]
pub enum MainGenerationError {
    ErrorCreatingTmpFolder(String),
    ErrorCreatingFile(String),
    CantReadSources(String),
    CantReadDownloadedMain(String),
    ErrorWritingFile(String),
}

impl MainGenerationError {
    /// The sentence that tells the user of the error.
    pub open spec fn text(&self) -> Seq<char> {
        match self {
            MainGenerationError::ErrorCreatingTmpFolder(cause) =>
                "Couldn't create a temporal folder: "@ + cause@,
            MainGenerationError::ErrorCreatingFile(cause) => "Couldn't create the file: "@
                + cause@,
            MainGenerationError::CantReadSources(cause) => "Couldn't read your sources: "@
                + cause@,
            MainGenerationError::CantReadDownloadedMain(cause) =>
                "Couldn't read the downloaded sources: "@ + cause@,
            MainGenerationError::ErrorWritingFile(cause) => "Unable to write the file: "@ + cause@,
        }
    }

    /// The sentence that tells the user of the error.
    pub fn message(&self) -> (message: String)
        ensures
            message@ == self.text(),
    {
        match self {
            MainGenerationError::ErrorCreatingTmpFolder(cause) => {
                let mut message = "Couldn't create a temporal folder: ".to_owned();
                message.append(cause.as_str());
                message
            },
            MainGenerationError::ErrorCreatingFile(cause) => {
                let mut message = "Couldn't create the file: ".to_owned();
                message.append(cause.as_str());
                message
            },
            MainGenerationError::CantReadSources(cause) => {
                let mut message = "Couldn't read your sources: ".to_owned();
                message.append(cause.as_str());
                message
            },
            MainGenerationError::CantReadDownloadedMain(cause) => {
                let mut message = "Couldn't read the downloaded sources: ".to_owned();
                message.append(cause.as_str());
                message
            },
            MainGenerationError::ErrorWritingFile(cause) => {
                let mut message = "Unable to write the file: ".to_owned();
                message.append(cause.as_str());
                message
            },
        }
    }
}

/// A generated source: where it goes and what it holds.
#[derive(Debug, PartialEq, Eq)]
pub struct GeneratedMain {
    pub path: String,
    pub contents: String,
}

/// The path of the generated source of a problem.
pub open spec fn generated_path(problem: Problem) -> Seq<char> {
    joined(problem.tmp_dir@, "main.cc"@)
}

/// Where the generated source of a problem goes.
pub fn generated_main_path(problem: &Problem) -> (path: String)
    ensures
        path@ == generated_path(*problem),
{
    join(problem.tmp_dir.as_str(), "main.cc")
}

/// Generates the source of a problem, from what reading the user's code
/// gave and what reading the judge's entry point gave: each its text, or
/// the reason why it could not be read. The judge's entry point is looked
/// at only where the solution has none of its own.
pub fn generate_main(
    problem: &Problem,
    original: Result<String, String>,
    main: Result<String, String>,
) -> (generated: Result<GeneratedMain, MainGenerationError>)
    ensures
        match original {
            Err(cause) => generated matches Err(MainGenerationError::CantReadSources(text))
                && text@ == cause@,
            Ok(code) => if problem.has_main {
                generated matches Ok(made) && made.path@ == generated_path(*problem)
                    && made.contents@ == normal_source(code@)
            } else {
                match main {
                    Err(cause) => generated matches Err(
                        MainGenerationError::CantReadDownloadedMain(text),
                    ) && text@ == cause@,
                    Ok(entry) => generated matches Ok(made) && made.path@ == generated_path(
                        *problem,
                    ) && made.contents@ == nomain_source(code@, entry@),
                }
            },
        },
{
    let code = match original {
        Ok(code) => code,
        Err(cause) => {
            return Err(MainGenerationError::CantReadSources(cause));
        },
    };
    let contents = if problem.has_main {
        apply_normal_template(code.as_str())
    } else {
        match main {
            Ok(entry) => apply_nomain_template(code.as_str(), entry.as_str()),
            Err(cause) => {
                return Err(MainGenerationError::CantReadDownloadedMain(cause));
            },
        }
    };
    Ok(GeneratedMain { path: generated_main_path(problem), contents })
}

} // verus!
