//! The problem a solution is written for: its identifier, its files, and the
//! addresses under which the judge offers its samples.

use crate::config::Config;
use crate::paths::{file_name, final_component, join, joined, PathKind};
use vstd::prelude::*;
use vstd::string::StringExecFns;
use vstd::utf8::encode_utf8;

verus! {

/// A problem, as found in its directory.
#[derive(Debug)]
pub struct Problem {
    /// The identifier of the problem at the judge.
    pub id: String,
    /// The user's solution.
    pub source: String,
    /// The binary to build from it.
    pub output: String,
    /// Where what came from the judge for this problem is kept.
    pub work_dir: String,
    /// Where files generated for this problem go.
    pub tmp_dir: String,
    /// Whether the solution holds the entry point of the program.
    pub has_main: bool,
    /// Where the judge offers the problem's archive.
    pub zip_url: String,
    /// Where the judge offers the entry point for the problem.
    pub main_cc_url: String,
}

/// Why an identifier is no good.
#[derive(PartialEq, Eq, Structural, Debug, Clone, Copy)]
pub enum IdError {
    /// It has not the form of an identifier.
    InvalidId,
    /// It names a kind of problem that is not supported; the character is
    /// the one that tells the kind.
    UnsupportedType(char),
}

/// Why the solution is no good.
#[derive(Debug)]
pub enum SourceError {
    /// There is no file.
    NonExistingPath,
    /// What is there is no file.
    NonFilePath,
    /// The file could not be read, for the given reason.
    CantRead(String),
}

/// Why a problem could not be made out.
#[derive(Debug)]
pub enum Error {
    NonExistingPath,
    NonDirectoryPath,
    BadPathFormat,
    BadId(IdError),
    BadSource(SourceError),
    CantCreateWorkDir(String),
}

impl IdError {
    /// The sentence that tells the user of the error.
    pub open spec fn text(&self) -> Seq<char> {
        match self {
            IdError::InvalidId => "The problem id is invalid!"@,
            IdError::UnsupportedType(_) => "The problem type is unsupported!"@,
        }
    }

    /// The sentence that tells the user of the error.
    pub fn message(&self) -> (message: String)
        ensures
            message@ == self.text(),
    {
        match self {
            IdError::InvalidId => "The problem id is invalid!".to_owned(),
            IdError::UnsupportedType(_) => "The problem type is unsupported!".to_owned(),
        }
    }
}

impl SourceError {
    /// The sentence that tells the user of the error.
    pub open spec fn text(&self) -> Seq<char> {
        match self {
            SourceError::NonExistingPath => "File doesn't exist!"@,
            SourceError::NonFilePath => "Not a file!"@,
            SourceError::CantRead(cause) => "Error reading contents: "@ + cause@,
        }
    }

    /// The sentence that tells the user of the error.
    pub fn message(&self) -> (message: String)
        ensures
            message@ == self.text(),
    {
        match self {
            SourceError::NonExistingPath => "File doesn't exist!".to_owned(),
            SourceError::NonFilePath => "Not a file!".to_owned(),
            SourceError::CantRead(cause) => {
                let mut message = "Error reading contents: ".to_owned();
                message.append(cause.as_str());
                message
            },
        }
    }
}

impl Error {
    /// The sentence that tells the user of the error.
    pub open spec fn text(&self) -> Seq<char> {
        match self {
            Error::NonExistingPath => "The path doesn't exist!"@,
            Error::NonDirectoryPath => "The path isn't a directory!"@,
            Error::BadPathFormat => "The path ends in \"..\"!"@,
            Error::BadId(error) => "Problem id is wrong: "@ + error.text(),
            Error::BadSource(error) => "Problem with main.cc: "@ + error.text(),
            Error::CantCreateWorkDir(cause) => "Can't create a working dir for the program: "@
                + cause@,
        }
    }

    /// The sentence that tells the user of the error.
    pub fn message(&self) -> (message: String)
        ensures
            message@ == self.text(),
    {
        match self {
            Error::NonExistingPath => "The path doesn't exist!".to_owned(),
            Error::NonDirectoryPath => "The path isn't a directory!".to_owned(),
            Error::BadPathFormat => "The path ends in \"..\"!".to_owned(),
            Error::BadId(error) => {
                let mut message = "Problem id is wrong: ".to_owned();
                message.append(error.message().as_str());
                message
            },
            Error::BadSource(error) => {
                let mut message = "Problem with main.cc: ".to_owned();
                message.append(error.message().as_str());
                message
            },
            Error::CantCreateWorkDir(cause) => {
                let mut message = "Can't create a working dir for the program: ".to_owned();
                message.append(cause.as_str());
                message
            },
        }
    }

    /// An error that lies with the problem's data, not with the system.
    pub open spec fn is_data_error(&self) -> bool {
        self is BadId || self is BadSource
    }
}

/// The pattern of a problem identifier: a capital letter, five digits, an
/// underscore and two small letters.
pub const ID_PATTERN: &'static str = "[A-Z]\\d{5}_[a-z]{2}";

/// The pattern of the entry point of a C++ program.
pub const MAIN_PATTERN: &'static str = "int\\s+main\\s*(\\s*)";

/// The address of the judge's problems.
pub const PROBLEMS_URL: &'static str = "https://jutge.org/problems/";

/// Whether the regex crate finds a pattern somewhere in a text; none where
/// the pattern is no regular expression.
pub uninterp spec fn regex_found(pattern: Seq<char>, text: Seq<char>) -> Option<bool>;

/// Compiles a pattern with `regex::Regex::new` and searches a text for it
/// with `Regex::is_match`. Trusted: the answer depends on the pattern and
/// the text alone.
#[verifier::external_body]
pub(crate) fn regex_search(pattern: &str, text: &str) -> (found: Option<bool>)
    ensures
        found == regex_found(pattern@, text@),
{
    match regex::Regex::new(pattern) {
        Ok(expression) => Some(expression.is_match(text)),
        Err(_) => None,
    }
}

/// The letter that marks a public problem.
pub const PUBLIC_MARK: u8 = 80;

/// The letter that marks a private problem.
pub const PRIVATE_MARK: u8 = 88;

/// The judgement of an identifier in which the pattern of identifiers was
/// or was not found. An identifier is good when the pattern is found in it
/// and it starts with `P` or `X`; with the pattern found and another start,
/// its first byte tells the kind that is not supported.
pub open spec fn id_verdict(id: Seq<char>, matched: bool) -> Result<(), IdError> {
    let bytes = encode_utf8(id);
    if !matched || bytes.len() == 0 {
        Err(IdError::InvalidId)
    } else if bytes[0] == PUBLIC_MARK || bytes[0] == PRIVATE_MARK {
        Ok(())
    } else {
        Err(IdError::UnsupportedType(bytes[0] as char))
    }
}

/// Judges an identifier in which the pattern of identifiers was or was not
/// found.
pub fn classify_id(id: String, matched: bool) -> (judged: Result<String, IdError>)
    ensures
        match id_verdict(id@, matched) {
            Ok(()) => judged matches Ok(same) && same@ == id@,
            Err(error) => judged == Err::<String, IdError>(error),
        },
{
    let first: Option<u8> = {
        let bytes = id.as_str().as_bytes();
        if bytes.len() == 0 {
            None
        } else {
            Some(bytes[0])
        }
    };
    match first {
        None => Err(IdError::InvalidId),
        Some(byte) => {
            if !matched {
                Err(IdError::InvalidId)
            } else if byte == PUBLIC_MARK || byte == PRIVATE_MARK {
                Ok(id)
            } else {
                Err(IdError::UnsupportedType(byte as char))
            }
        },
    }
}

/// Judges an identifier.
pub fn verify_id(id: String) -> (judged: Result<String, IdError>)
    ensures
        match id_verdict(id@, regex_found(ID_PATTERN@, id@) == Some(true)) {
            Ok(()) => judged matches Ok(same) && same@ == id@,
            Err(error) => judged == Err::<String, IdError>(error),
        },
{
    let matched = match regex_search(ID_PATTERN, id.as_str()) {
        Some(found) => found,
        None => false,
    };
    classify_id(id, matched)
}

/// What a look at the solution gave.
#[derive(Debug)]
pub enum SourceProbe {
    /// Nothing is at the path.
    Missing,
    /// What is at the path is no file.
    NotAFile,
    /// The file could not be read, for the given reason.
    Unreadable(String),
    /// The text of the file.
    Read(String),
}

/// Whether a text holds the entry point of a program.
pub open spec fn has_entry_point(contents: Seq<char>) -> bool {
    regex_found(MAIN_PATTERN@, contents) == Some(true)
}

/// Tells whether the solution holds the entry point of the program, or why
/// that cannot be told.
pub fn file_has_main(source: &SourceProbe) -> (found: Result<bool, SourceError>)
    ensures
        match source {
            SourceProbe::Missing => found matches Err(SourceError::NonExistingPath),
            SourceProbe::NotAFile => found matches Err(SourceError::NonFilePath),
            SourceProbe::Unreadable(cause) => found matches Err(SourceError::CantRead(text))
                && text@ == cause@,
            SourceProbe::Read(contents) => found == Ok::<bool, SourceError>(
                has_entry_point(contents@),
            ),
        },
{
    match source {
        SourceProbe::Missing => Err(SourceError::NonExistingPath),
        SourceProbe::NotAFile => Err(SourceError::NonFilePath),
        SourceProbe::Unreadable(cause) => Err(SourceError::CantRead(cause.clone())),
        SourceProbe::Read(contents) => match regex_search(MAIN_PATTERN, contents.as_str()) {
            Some(found) => Ok(found),
            None => Ok(false),
        },
    }
}

/// The files and addresses of a problem, before its solution is looked at.
#[derive(Debug)]
pub struct Layout {
    pub id: String,
    pub source: String,
    pub output: String,
    pub work_dir: String,
    pub tmp_dir: String,
    pub zip_url: String,
    pub main_cc_url: String,
}

/// The files and addresses of a problem, as plain sequences of characters.
pub struct LayoutView {
    pub id: Seq<char>,
    pub source: Seq<char>,
    pub output: Seq<char>,
    pub work_dir: Seq<char>,
    pub tmp_dir: Seq<char>,
    pub zip_url: Seq<char>,
    pub main_cc_url: Seq<char>,
}

/// The layout of the problem with this identifier under these settings:
/// solution and binary stand in the problem's directory, the kept and the
/// generated files in directories named after the problem, and the judge
/// offers archive and entry point under the problem's address.
pub open spec fn layout_of(config: Config, id: Seq<char>) -> LayoutView {
    LayoutView {
        id,
        source: joined(config.problem_dir@, "main.cc"@),
        output: joined(config.problem_dir@, "main.x"@),
        work_dir: joined(config.cache_dir@, id),
        tmp_dir: joined(config.tmp_dir@, id),
        zip_url: PROBLEMS_URL@ + id + "/zip"@,
        main_cc_url: PROBLEMS_URL@ + id + "/main/cc"@,
    }
}

impl View for Layout {
    type V = LayoutView;

    open spec fn view(&self) -> LayoutView {
        LayoutView {
            id: self.id@,
            source: self.source@,
            output: self.output@,
            work_dir: self.work_dir@,
            tmp_dir: self.tmp_dir@,
            zip_url: self.zip_url@,
            main_cc_url: self.main_cc_url@,
        }
    }
}

impl Problem {
    /// The files and addresses of the problem.
    pub open spec fn layout(&self) -> LayoutView {
        LayoutView {
            id: self.id@,
            source: self.source@,
            output: self.output@,
            work_dir: self.work_dir@,
            tmp_dir: self.tmp_dir@,
            zip_url: self.zip_url@,
            main_cc_url: self.main_cc_url@,
        }
    }

    /// What stands between a directory and the layout of its problem: the
    /// error, or none. The directory has to be there and to be one, its
    /// path has to end in a name, and the name has to be a good identifier.
    pub open spec fn layout_error(config: Config, directory: PathKind) -> Option<Error> {
        if directory is Missing {
            Some(Error::NonExistingPath)
        } else if !(directory is Directory) {
            Some(Error::NonDirectoryPath)
        } else {
            match final_component(config.problem_dir@) {
                None => Some(Error::BadPathFormat),
                Some(id) => match id_verdict(id, regex_found(ID_PATTERN@, id) == Some(true)) {
                    Err(error) => Some(Error::BadId(error)),
                    Ok(()) => None,
                },
            }
        }
    }

    /// Lays a problem out: takes its identifier from the name of its
    /// directory and says where its files stand.
    pub fn locate(config: &Config, directory: PathKind) -> (located: Result<Layout, Error>)
        ensures
            match Self::layout_error(*config, directory) {
                Some(error) => located == Err::<Layout, Error>(error),
                None => located matches Ok(layout) && layout@ == layout_of(
                    *config,
                    final_component(config.problem_dir@)->Some_0,
                ),
            },
    {
        match directory {
            PathKind::Missing => {
                return Err(Error::NonExistingPath);
            },
            PathKind::Directory => {},
            _ => {
                return Err(Error::NonDirectoryPath);
            },
        }
        let name = match file_name(config.problem_dir.as_str()) {
            Some(name) => name,
            None => {
                return Err(Error::BadPathFormat);
            },
        };
        let id = match verify_id(name) {
            Ok(id) => id,
            Err(error) => {
                return Err(Error::BadId(error));
            },
        };
        let source = join(config.problem_dir.as_str(), "main.cc");
        let output = join(config.problem_dir.as_str(), "main.x");
        let work_dir = join(config.cache_dir.as_str(), id.as_str());
        let tmp_dir = join(config.tmp_dir.as_str(), id.as_str());
        let mut zip_url = PROBLEMS_URL.to_owned();
        zip_url.append(id.as_str());
        let mut main_cc_url = zip_url.clone();
        zip_url.append("/zip");
        main_cc_url.append("/main/cc");
        Ok(Layout { id, source, output, work_dir, tmp_dir, zip_url, main_cc_url })
    }

    /// Makes a problem out, from the settings and what the system told:
    /// what stands at the problem's directory, whether the directory for the
    /// problem's kept files could be made, and what a look at the solution
    /// gave. The first thing that is wrong is the error: the directory, the
    /// identifier, the directory for kept files, the solution.
    pub fn new(
        config: &Config,
        directory: PathKind,
        work_dir: Result<(), String>,
        source: SourceProbe,
    ) -> (made: Result<Problem, Error>)
        ensures
            match Self::layout_error(*config, directory) {
                Some(error) => made == Err::<Problem, Error>(error),
                None => match work_dir {
                    Err(cause) => made matches Err(Error::CantCreateWorkDir(text)) && text@
                        == cause@,
                    Ok(()) => match source {
                        SourceProbe::Missing => made matches Err(
                            Error::BadSource(SourceError::NonExistingPath),
                        ),
                        SourceProbe::NotAFile => made matches Err(
                            Error::BadSource(SourceError::NonFilePath),
                        ),
                        SourceProbe::Unreadable(cause) => made matches Err(
                            Error::BadSource(SourceError::CantRead(text)),
                        ) && text@ == cause@,
                        SourceProbe::Read(contents) => made matches Ok(problem) && problem.layout()
                            == layout_of(*config, final_component(config.problem_dir@)->Some_0)
                            && problem.has_main == has_entry_point(contents@),
                    },
                },
            },
    {
        let layout = match Self::locate(config, directory) {
            Ok(layout) => layout,
            Err(error) => {
                return Err(error);
            },
        };
        match work_dir {
            Err(cause) => {
                return Err(Error::CantCreateWorkDir(cause));
            },
            Ok(()) => {},
        }
        let has_main = match file_has_main(&source) {
            Ok(found) => found,
            Err(error) => {
                return Err(Error::BadSource(error));
            },
        };
        Ok(
            Problem {
                id: layout.id,
                source: layout.source,
                output: layout.output,
                work_dir: layout.work_dir,
                tmp_dir: layout.tmp_dir,
                has_main,
                zip_url: layout.zip_url,
                main_cc_url: layout.main_cc_url,
            },
        )
    }
}

} // verus!
