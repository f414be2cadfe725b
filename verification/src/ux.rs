//! What the user sees: log levels, task states, colours, and the lines that
//! report them. Nothing here prints; every function returns the text to show.

use vstd::prelude::*;
use vstd::string::StringExecFns;

verus! {

/// How much the user wants to hear. Levels are ordered from `Debug` up to
/// `Error`.
#[derive(PartialEq, Eq, PartialOrd, Ord, Structural, Debug, Clone, Copy)]
pub enum LogLevel {
    Debug,
    Info,
    Warning,
    Error,
}

impl LogLevel {
    /// The position of a level in the order.
    pub open spec fn rank(self) -> nat {
        match self {
            LogLevel::Debug => 0,
            LogLevel::Info => 1,
            LogLevel::Warning => 2,
            LogLevel::Error => 3,
        }
    }

    /// A message is shown unless its level lies below the threshold.
    pub open spec fn shown_at(self, threshold: LogLevel) -> bool {
        self.rank() >= threshold.rank()
    }

    fn severity(&self) -> (r: u8)
        ensures
            r == self.rank(),
    {
        match self {
            LogLevel::Debug => 0,
            LogLevel::Info => 1,
            LogLevel::Warning => 2,
            LogLevel::Error => 3,
        }
    }

    /// Whether a message of this level is shown under `threshold`.
    pub fn is_shown_at(&self, threshold: LogLevel) -> (shown: bool)
        ensures
            shown == self.shown_at(threshold),
    {
        self.severity() >= threshold.severity()
    }
}

/// The kind of task a status line reports on.
#[derive(PartialEq, Eq, Structural, Debug, Clone, Copy)]
pub enum TaskType {
    Fetch,
    Test,
}

/// How a task ended, or that it is still running.
#[derive(PartialEq, Eq, Structural, Debug, Clone, Copy)]
pub enum TaskStatus {
    Done,
    Pass,
    SkipGood,
    SkipBad,
    Fail,
    InProgress,
}

impl TaskStatus {
    /// A task went well when it was done, passed, or was skipped because
    /// nothing was left to do.
    pub open spec fn ok(&self) -> bool {
        self is Done || self is Pass || self is SkipGood
    }

    #[verifier::when_used_as_spec(ok)]
    pub fn is_ok(&self) -> (good: bool)
        ensures
            good == self.ok(),
    {
        match self {
            TaskStatus::Done | TaskStatus::Pass | TaskStatus::SkipGood => true,
            _ => false,
        }
    }
}

/// The foreground colours the reports use.
#[derive(PartialEq, Eq, Structural, Debug, Clone, Copy)]
pub enum Color {
    Red,
    Green,
    Yellow,
    Magenta,
    Cyan,
    LightYellow,
    Reset,
}

impl Color {
    /// The escape sequence that switches the terminal's foreground to this
    /// colour: a 256-colour selection, or the default-colour code for `Reset`.
    pub open spec fn foreground(self) -> Seq<char> {
        match self {
            Color::Red => "\x1b[38;5;1m"@,
            Color::Green => "\x1b[38;5;2m"@,
            Color::Yellow => "\x1b[38;5;3m"@,
            Color::Magenta => "\x1b[38;5;5m"@,
            Color::Cyan => "\x1b[38;5;6m"@,
            Color::LightYellow => "\x1b[38;5;11m"@,
            Color::Reset => "\x1b[39m"@,
        }
    }
}

/// The text attributes the reports use.
#[derive(PartialEq, Eq, Structural, Debug, Clone, Copy)]
pub enum Style {
    Reset,
    Bold,
    NoBold,
    Italic,
}

impl Style {
    /// The escape sequence that switches this attribute.
    pub open spec fn code(self) -> Seq<char> {
        match self {
            Style::Reset => "\x1b[m"@,
            Style::Bold => "\x1b[1m"@,
            Style::NoBold => "\x1b[21m"@,
            Style::Italic => "\x1b[3m"@,
        }
    }
}

/// Formats `termion::color::Fg` of the matching termion colour. Trusted:
/// termion writes the fixed sequence `ESC [ 38;5;<n> m` with the colour's
/// number (`ESC [ 39 m` for `Reset`), which `Color::foreground` spells out.
#[verifier::external_body]
pub(crate) fn foreground_code(color: Color) -> (code: String)
    ensures
        code@ == color.foreground(),
{
    match color {
        Color::Red => termion::color::Fg(termion::color::Red).to_string(),
        Color::Green => termion::color::Fg(termion::color::Green).to_string(),
        Color::Yellow => termion::color::Fg(termion::color::Yellow).to_string(),
        Color::Magenta => termion::color::Fg(termion::color::Magenta).to_string(),
        Color::Cyan => termion::color::Fg(termion::color::Cyan).to_string(),
        Color::LightYellow => termion::color::Fg(termion::color::LightYellow).to_string(),
        Color::Reset => termion::color::Fg(termion::color::Reset).to_string(),
    }
}

/// Formats the matching item of `termion::style`. Trusted: termion writes
/// the fixed sequence `ESC [ <n> m` of the attribute, which `Style::code`
/// spells out.
#[verifier::external_body]
pub(crate) fn style_code(style: Style) -> (code: String)
    ensures
        code@ == style.code(),
{
    match style {
        Style::Reset => termion::style::Reset.to_string(),
        Style::Bold => termion::style::Bold.to_string(),
        Style::NoBold => termion::style::NoBold.to_string(),
        Style::Italic => termion::style::Italic.to_string(),
    }
}

/// Where a message goes.
#[derive(PartialEq, Eq, Structural, Debug, Clone, Copy)]
pub enum Stream {
    Stdout,
    Stderr,
}

/// The stream a level is written to: plain information goes to standard
/// output, everything else to standard error.
pub open spec fn stream_of(level: LogLevel) -> Stream {
    if level is Info {
        Stream::Stdout
    } else {
        Stream::Stderr
    }
}

/// The line shown for a message of a level, without the line end.
pub open spec fn message_text(level: LogLevel, msg: Seq<char>) -> Seq<char> {
    match level {
        LogLevel::Debug => ":: "@ + Style::Italic.code() + msg + Style::Reset.code(),
        LogLevel::Info => msg,
        LogLevel::Warning => Color::LightYellow.foreground() + Style::Bold.code() + "WARNING: "@
            + msg + Style::NoBold.code() + Style::Reset.code(),
        LogLevel::Error => Color::Red.foreground() + Style::Bold.code() + "ERROR: "@ + msg
            + Style::NoBold.code() + Style::Reset.code(),
    }
}

/// Decides whether a message is shown under `threshold` and, if it is, on
/// which stream and as which line.
pub fn print_message(level: LogLevel, threshold: LogLevel, msg: &str) -> (shown: Option<
    (Stream, String),
>)
    ensures
        shown is Some <==> level.shown_at(threshold),
        shown matches Some(out) ==> out.0 == stream_of(level) && out.1@ == message_text(
            level,
            msg@,
        ),
{
    if !level.is_shown_at(threshold) {
        return None;
    }
    let mut line = String::new();
    match level {
        LogLevel::Debug => {
            line.append(":: ");
            line.append(style_code(Style::Italic).as_str());
            line.append(msg);
            line.append(style_code(Style::Reset).as_str());
            assert(line@ =~= message_text(level, msg@));
            Some((Stream::Stderr, line))
        },
        LogLevel::Info => {
            line.append(msg);
            assert(line@ =~= message_text(level, msg@));
            Some((Stream::Stdout, line))
        },
        LogLevel::Warning => {
            line.append(foreground_code(Color::LightYellow).as_str());
            line.append(style_code(Style::Bold).as_str());
            line.append("WARNING: ");
            line.append(msg);
            line.append(style_code(Style::NoBold).as_str());
            line.append(style_code(Style::Reset).as_str());
            assert(line@ =~= message_text(level, msg@));
            Some((Stream::Stderr, line))
        },
        LogLevel::Error => {
            line.append(foreground_code(Color::Red).as_str());
            line.append(style_code(Style::Bold).as_str());
            line.append("ERROR: ");
            line.append(msg);
            line.append(style_code(Style::NoBold).as_str());
            line.append(style_code(Style::Reset).as_str());
            assert(line@ =~= message_text(level, msg@));
            Some((Stream::Stderr, line))
        },
    }
}

/// The upper-case form of a text, as `str::to_uppercase` gives it.
pub uninterp spec fn uppercase(text: Seq<char>) -> Seq<char>;

/// Calls `str::to_uppercase`. Trusted: the result depends on the text alone.
#[verifier::external_body]
pub(crate) fn to_uppercase(text: &str) -> (upper: String)
    ensures
        upper@ == uppercase(text@),
{
    text.to_uppercase()
}

/// The name of a task as a status line shows it: fetches keep their name and
/// trail off, tests are announced in capitals. `upper` is the name in upper
/// case.
pub open spec fn task_label(name: Seq<char>, upper: Seq<char>, task_type: TaskType) -> Seq<char> {
    match task_type {
        TaskType::Fetch => name + "... "@,
        TaskType::Test => upper + ": "@,
    }
}

/// What follows the label on a status line.
pub open spec fn status_text(status: TaskStatus, level: LogLevel) -> Seq<char> {
    match status {
        TaskStatus::Done => Color::Green.foreground() + "DONE \u{2713}"@ + Style::Reset.code()
            + "\n"@,
        TaskStatus::Pass => Color::Green.foreground() + "PASS \u{2713}"@ + Style::Reset.code()
            + "\n"@,
        TaskStatus::SkipGood => Color::Cyan.foreground() + "SKIP \u{2713}"@ + Style::Reset.code()
            + "\n"@,
        TaskStatus::SkipBad => Color::Cyan.foreground() + "SKIP \u{2718}"@ + Style::Reset.code()
            + "\n"@,
        TaskStatus::Fail => Color::Red.foreground() + "FAIL \u{2718}"@ + Style::Reset.code()
            + "\n"@,
        TaskStatus::InProgress => Style::Reset.code() + "...\r"@ + (if level is Debug {
            "\n"@
        } else {
            Seq::<char>::empty()
        }),
    }
}

/// A whole status line: the label in yellow, then the state.
pub open spec fn status_line(label: Seq<char>, status: TaskStatus, level: LogLevel) -> Seq<char> {
    Color::Yellow.foreground() + label + status_text(status, level)
}

/// Builds the status line of a task from its label. A task in progress ends
/// in a carriage return, so that the final state overwrites it, unless the
/// log shows debug messages, which would otherwise land on the same line.
pub fn labelled_status_line(label: &str, status: TaskStatus, level: LogLevel) -> (line: String)
    ensures
        line@ == status_line(label@, status, level),
{
    let mut line = String::new();
    line.append(foreground_code(Color::Yellow).as_str());
    line.append(label);
    match status {
        TaskStatus::Done => {
            line.append(foreground_code(Color::Green).as_str());
            line.append("DONE \u{2713}");
            line.append(style_code(Style::Reset).as_str());
            line.append("\n");
        },
        TaskStatus::Pass => {
            line.append(foreground_code(Color::Green).as_str());
            line.append("PASS \u{2713}");
            line.append(style_code(Style::Reset).as_str());
            line.append("\n");
        },
        TaskStatus::SkipGood => {
            line.append(foreground_code(Color::Cyan).as_str());
            line.append("SKIP \u{2713}");
            line.append(style_code(Style::Reset).as_str());
            line.append("\n");
        },
        TaskStatus::SkipBad => {
            line.append(foreground_code(Color::Cyan).as_str());
            line.append("SKIP \u{2718}");
            line.append(style_code(Style::Reset).as_str());
            line.append("\n");
        },
        TaskStatus::Fail => {
            line.append(foreground_code(Color::Red).as_str());
            line.append("FAIL \u{2718}");
            line.append(style_code(Style::Reset).as_str());
            line.append("\n");
        },
        TaskStatus::InProgress => {
            line.append(style_code(Style::Reset).as_str());
            line.append("...\r");
            match level {
                LogLevel::Debug => {
                    line.append("\n");
                },
                _ => {},
            }
        },
    }
    assert(line@ =~= status_line(label@, status, level));
    line
}

/// Builds the status line of a task from its name.
pub fn show_task_status(name: &str, task_type: TaskType, status: TaskStatus, level: LogLevel) -> (line:
    String)
    ensures
        line@ == status_line(task_label(name@, uppercase(name@), task_type), status, level),
{
    let mut label = String::new();
    match task_type {
        TaskType::Fetch => {
            label.append(name);
            label.append("... ");
        },
        TaskType::Test => {
            label.append(to_uppercase(name).as_str());
            label.append(": ");
        },
    }
    assert(label@ =~= task_label(name@, uppercase(name@), task_type));
    labelled_status_line(label.as_str(), status, level)
}

/// The block that shows the output of a task under a title.
pub open spec fn output_block(title: Seq<char>, contents: Seq<char>) -> Seq<char> {
    "==> "@ + title + ":\n"@ + Color::Magenta.foreground() + contents + Style::Reset.code()
        + "\n"@
}

/// Builds the block that shows the output of a task under a title.
pub fn show_task_output(title: &str, contents: &str) -> (block: String)
    ensures
        block@ == output_block(title@, contents@),
{
    let mut block = String::new();
    block.append("==> ");
    block.append(title);
    block.append(":\n");
    block.append(foreground_code(Color::Magenta).as_str());
    block.append(contents);
    block.append(style_code(Style::Reset).as_str());
    block.append("\n");
    assert(block@ =~= output_block(title@, contents@));
    block
}

/// The width assumed when the terminal does not tell its own.
pub const DEFAULT_TERMINAL_WIDTH: u16 = 100;

/// The width to lay reports out for, given what the terminal told.
pub open spec fn width_or_default(detected: Option<u16>) -> u16 {
    match detected {
        Some(width) => width,
        None => DEFAULT_TERMINAL_WIDTH,
    }
}

/// The width to lay reports out for, given what the terminal told.
pub fn terminal_width_or_default(detected: Option<u16>) -> (width: u16)
    ensures
        width == width_or_default(detected),
{
    match detected {
        Some(width) => width,
        None => DEFAULT_TERMINAL_WIDTH,
    }
}

/// Calls `terminal_size::terminal_size` and keeps the width. Trusted: the
/// answer depends on the terminal, so nothing is claimed of it.
#[verifier::external_body]
pub(crate) fn detected_terminal_width() -> Option<u16> {
    terminal_size::terminal_size().map(|size| size.0.0)
}

/// The width of the terminal on standard output, or the default width where
/// there is no terminal to ask.
pub fn get_terminal_width() -> u16 {
    terminal_width_or_default(detected_terminal_width())
}

} // verus!
