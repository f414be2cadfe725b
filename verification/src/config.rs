//! Where the program keeps its files, how much it says, and on whose
//! account it asks the judge.

use crate::fetch::credentials::{Credentials, CredentialsView};
use crate::paths::{join, joined};
use crate::text::same_text;
use crate::ux::LogLevel;
use vstd::prelude::*;
use vstd::string::StringExecFns;
use vstd::utf8::encode_utf8;

verus! {

/// Why the program could not be set up. Each error carries the reason the
/// system gave.
#[derive(Debug)]
pub enum Error {
    CantCreateConfigDir(String),
    CantCreateCacheDir(String),
    CantCreateTmpDir(String),
    UnknownProblemDir(String),
    CantCreateConfigFile(String),
}

impl Error {
    /// The sentence that tells the user of the error.
    pub open spec fn text(&self) -> Seq<char> {
        match self {
            Error::CantCreateConfigDir(cause) => "Unable to create a directory for configuration: "@
                + cause@,
            Error::CantCreateCacheDir(cause) => "Unable to create a directory for program cache: "@
                + cause@,
            Error::CantCreateTmpDir(cause) => "Unable to create a directory for temporal files: "@
                + cause@,
            Error::UnknownProblemDir(cause) => "Can't determine the problem dir: "@ + cause@,
            Error::CantCreateConfigFile(cause) => "Can't create the config file: "@ + cause@,
        }
    }

    /// The sentence that tells the user of the error.
    pub fn message(&self) -> (message: String)
        ensures
            message@ == self.text(),
    {
        match self {
            Error::CantCreateConfigDir(cause) => {
                let mut message = "Unable to create a directory for configuration: ".to_owned();
                message.append(cause.as_str());
                message
            },
            Error::CantCreateCacheDir(cause) => {
                let mut message = "Unable to create a directory for program cache: ".to_owned();
                message.append(cause.as_str());
                message
            },
            Error::CantCreateTmpDir(cause) => {
                let mut message = "Unable to create a directory for temporal files: ".to_owned();
                message.append(cause.as_str());
                message
            },
            Error::UnknownProblemDir(cause) => {
                let mut message = "Can't determine the problem dir: ".to_owned();
                message.append(cause.as_str());
                message
            },
            Error::CantCreateConfigFile(cause) => {
                let mut message = "Can't create the config file: ".to_owned();
                message.append(cause.as_str());
                message
            },
        }
    }
}

/// The settings of one run of the program.
#[derive(Clone, Debug)]
pub struct Config {
    /// How much the program says.
    pub log_level: LogLevel,
    /// The directory of the problem: where the solution stands.
    pub problem_dir: String,
    /// Where the settings file stands.
    pub config_dir: String,
    /// Where what came from the judge is kept.
    pub cache_dir: String,
    /// Where generated files go.
    pub tmp_dir: String,
    /// The account to ask the judge with, if there is one.
    pub credentials: Option<Credentials>,
}

/// The name of the settings file in the configuration directory.
pub const CONFIG_FILE: &'static str = "config.ini";

/// Calls `directories::ProjectDirs::from` and keeps the configuration
/// directory and the cache directory, in this order. Trusted: the answer
/// depends on the user's environment, so nothing is claimed of it.
#[verifier::external_body]
pub(crate) fn project_directories(qualifier: &str, organization: &str, application: &str) -> Option<
    (String, String),
> {
    directories::ProjectDirs::from(qualifier, organization, application).map(
        |dirs|
            (
                dirs.config_dir().to_string_lossy().into_owned(),
                dirs.cache_dir().to_string_lossy().into_owned(),
            ),
    )
}

/// The value of a key in a section of a settings file, as configparser
/// reads it: none where the text is no settings file, or the section or the
/// key is missing, or the key stands without a value.
pub uninterp spec fn ini_lookup(text: Seq<char>, section: Seq<char>, key: Seq<char>) -> Option<
    Seq<char>,
>;

/// Parses a settings file with `configparser::ini::Ini::read` and looks a
/// key up in the sections it returns. Trusted: the answer depends on the
/// three texts alone.
#[verifier::external_body]
pub(crate) fn ini_value(text: &str, section: &str, key: &str) -> (value: Option<String>)
    ensures
        value is Some <==> ini_lookup(text@, section@, key@) is Some,
        value matches Some(found) ==> Some(found@) == ini_lookup(text@, section@, key@),
{
    let sections = configparser::ini::Ini::new().read(text.to_owned()).ok()?;
    sections.get(section)?.get(key)?.clone()
}

/// An argument that asks for debug messages.
pub open spec fn is_debug_flag(argument: Seq<char>) -> bool {
    argument == "-d"@ || argument == "--debug"@
}

/// An argument that asks for help.
pub open spec fn is_help_flag(argument: Seq<char>) -> bool {
    argument == "-h"@ || argument == "--help"@
}

/// Some argument asks for help.
pub open spec fn asks_for_help(arguments: Seq<String>) -> bool {
    exists|i: int| 0 <= i < arguments.len() && is_help_flag(#[trigger] arguments[i]@)
}

/// Some argument asks for debug messages.
pub open spec fn asks_for_debug(arguments: Seq<String>) -> bool {
    exists|i: int| 0 <= i < arguments.len() && is_debug_flag(#[trigger] arguments[i]@)
}

/// Whether some argument asks for help.
pub fn wants_help(arguments: &Vec<String>) -> (wanted: bool)
    ensures
        wanted == asks_for_help(arguments@),
{
    let mut i: usize = 0;
    while i < arguments.len()
        invariant
            i <= arguments.len(),
            forall|k: int| 0 <= k < i ==> !is_help_flag(#[trigger] arguments@[k]@),
        decreases arguments.len() - i,
    {
        if same_text(arguments[i].as_str(), "-h") || same_text(arguments[i].as_str(), "--help") {
            return true;
        }
        i += 1;
    }
    false
}

impl Config {
    /// The settings of a run, from the directories the system offers for
    /// the program's files, if it offers any, the directory for temporary
    /// files, and the working directory or the reason why it is unknown.
    /// Without directories of its own the program keeps its files next to
    /// the temporary ones. The run starts at level `Info`, without an
    /// account.
    pub fn assemble(
        project: Option<(String, String)>,
        temp_dir: &str,
        current_dir: Result<String, String>,
    ) -> (made: Result<Config, Error>)
        ensures
            match current_dir {
                Err(cause) => made matches Err(Error::UnknownProblemDir(text)) && text@ == cause@,
                Ok(dir) => made matches Ok(config) && {
                    &&& config.log_level == LogLevel::Info
                    &&& config.problem_dir@ == dir@
                    &&& config.config_dir@ == match project {
                        Some(dirs) => dirs.0@,
                        None => joined(temp_dir@, "advocat-config"@),
                    }
                    &&& config.cache_dir@ == match project {
                        Some(dirs) => dirs.1@,
                        None => joined(temp_dir@, "advocat-cache"@),
                    }
                    &&& config.tmp_dir@ == joined(temp_dir@, "advocat"@)
                    &&& config.credentials is None
                },
            },
    {
        let (config_dir, cache_dir) = match project {
            Some(dirs) => dirs,
            None => (join(temp_dir, "advocat-config"), join(temp_dir, "advocat-cache")),
        };
        match current_dir {
            Err(cause) => Err(Error::UnknownProblemDir(cause)),
            Ok(problem_dir) => Ok(
                Config {
                    log_level: LogLevel::Info,
                    problem_dir,
                    config_dir,
                    cache_dir,
                    tmp_dir: join(temp_dir, "advocat"),
                    credentials: None,
                },
            ),
        }
    }

    /// The settings of a run, with the directories that the system offers
    /// this program for its files.
    pub fn generate(temp_dir: &str, current_dir: Result<String, String>) -> (made: Result<
        Config,
        Error,
    >)
        ensures
            match current_dir {
                Err(cause) => made matches Err(Error::UnknownProblemDir(text)) && text@ == cause@,
                Ok(dir) => made matches Ok(config) && {
                    &&& config.log_level == LogLevel::Info
                    &&& config.problem_dir@ == dir@
                    &&& config.tmp_dir@ == joined(temp_dir@, "advocat"@)
                    &&& config.credentials is None
                },
            },
    {
        let project = project_directories("com", "rdvdev2", "advocat");
        Self::assemble(project, temp_dir, current_dir)
    }

    /// Takes the account from the two values of a settings file. Both are
    /// needed; where one is missing the settings stay as they are.
    pub fn set_account(&mut self, email: Option<String>, password: Option<String>)
        ensures
            final(self).log_level == old(self).log_level,
            final(self).problem_dir == old(self).problem_dir,
            final(self).config_dir == old(self).config_dir,
            final(self).cache_dir == old(self).cache_dir,
            final(self).tmp_dir == old(self).tmp_dir,
            match (email, password) {
                (Some(email), Some(password)) => final(self).credentials matches Some(account)
                    && account@ == (CredentialsView {
                    email: encode_utf8(email@),
                    password: encode_utf8(password@),
                }),
                _ => final(self).credentials == old(self).credentials,
            },
    {
        match email {
            Some(email) => match password {
                Some(password) => {
                    self.credentials = Some(
                        Credentials::new(email.as_str().as_bytes(), password.as_str().as_bytes()),
                    );
                },
                None => {},
            },
            None => {},
        }
    }

    /// Reads the account out of the text of the settings file, if the file
    /// could be read: the values of `email` and `password` in the section
    /// `auth`.
    pub fn load_config_file(&mut self, contents: Option<&str>)
        ensures
            final(self).log_level == old(self).log_level,
            final(self).problem_dir == old(self).problem_dir,
            final(self).config_dir == old(self).config_dir,
            final(self).cache_dir == old(self).cache_dir,
            final(self).tmp_dir == old(self).tmp_dir,
            match contents {
                Some(text) => match (
                    ini_lookup(text@, "auth"@, "email"@),
                    ini_lookup(text@, "auth"@, "password"@),
                ) {
                    (Some(email), Some(password)) => final(self).credentials matches Some(account)
                        && account@ == (CredentialsView {
                        email: encode_utf8(email),
                        password: encode_utf8(password),
                    }),
                    _ => final(self).credentials == old(self).credentials,
                },
                None => final(self).credentials == old(self).credentials,
            },
    {
        match contents {
            Some(text) => {
                let email = ini_value(text, "auth", "email");
                let password = ini_value(text, "auth", "password");
                self.set_account(email, password);
            },
            None => {},
        }
    }

    /// Applies the arguments of the command line, without the program's
    /// name: `-d` or `--debug` turns debug messages on; other arguments are
    /// passed over. There is no help to give yet, so none may be asked for.
    pub fn apply_arguments(&mut self, arguments: &Vec<String>)
        requires
            !asks_for_help(arguments@),
        ensures
            final(self).log_level == if asks_for_debug(arguments@) {
                LogLevel::Debug
            } else {
                old(self).log_level
            },
            final(self).problem_dir == old(self).problem_dir,
            final(self).config_dir == old(self).config_dir,
            final(self).cache_dir == old(self).cache_dir,
            final(self).tmp_dir == old(self).tmp_dir,
            final(self).credentials == old(self).credentials,
    {
        let mut i: usize = 0;
        let mut debug = false;
        while i < arguments.len()
            invariant
                i <= arguments.len(),
                debug == (exists|k: int| 0 <= k < i && is_debug_flag(#[trigger] arguments@[k]@)),
            decreases arguments.len() - i,
        {
            if same_text(arguments[i].as_str(), "-d") || same_text(arguments[i].as_str(), "--debug") {
                debug = true;
            }
            i += 1;
        }
        if debug {
            self.log_level = LogLevel::Debug;
        }
    }
}

} // verus!
