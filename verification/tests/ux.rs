use advocat::ux::{
    get_terminal_width, labelled_status_line, print_message, show_task_output, show_task_status,
    terminal_width_or_default, LogLevel, Stream, TaskStatus, TaskType,
};

#[test]
fn messages_below_the_threshold_are_not_shown() {
    let levels = [LogLevel::Debug, LogLevel::Info, LogLevel::Warning, LogLevel::Error];
    for (rank, level) in levels.iter().enumerate() {
        for (bar, threshold) in levels.iter().enumerate() {
            assert_eq!(level.is_shown_at(*threshold), rank >= bar);
            assert_eq!(print_message(*level, *threshold, "hello").is_some(), rank >= bar);
        }
    }
}

#[test]
fn levels_are_ordered_from_debug_to_error() {
    assert!(LogLevel::Debug < LogLevel::Info);
    assert!(LogLevel::Info < LogLevel::Warning);
    assert!(LogLevel::Warning < LogLevel::Error);
    let levels = [LogLevel::Debug, LogLevel::Info, LogLevel::Warning, LogLevel::Error];
    for level in levels {
        for threshold in levels {
            assert_eq!(level.is_shown_at(threshold), level >= threshold);
        }
    }
}

#[test]
fn each_level_has_its_stream_and_its_dress() {
    assert_eq!(
        print_message(LogLevel::Debug, LogLevel::Debug, "hello"),
        Some((Stream::Stderr, ":: \x1b[3mhello\x1b[m".to_string()))
    );
    assert_eq!(
        print_message(LogLevel::Info, LogLevel::Debug, "hello"),
        Some((Stream::Stdout, "hello".to_string()))
    );
    assert_eq!(
        print_message(LogLevel::Warning, LogLevel::Info, "hello"),
        Some((Stream::Stderr, "\x1b[38;5;11m\x1b[1mWARNING: hello\x1b[21m\x1b[m".to_string()))
    );
    assert_eq!(
        print_message(LogLevel::Error, LogLevel::Error, "hello"),
        Some((Stream::Stderr, "\x1b[38;5;1m\x1b[1mERROR: hello\x1b[21m\x1b[m".to_string()))
    );
}

#[test]
fn only_three_states_are_good() {
    assert!(TaskStatus::Done.is_ok());
    assert!(TaskStatus::Pass.is_ok());
    assert!(TaskStatus::SkipGood.is_ok());
    assert!(!TaskStatus::SkipBad.is_ok());
    assert!(!TaskStatus::Fail.is_ok());
    assert!(!TaskStatus::InProgress.is_ok());
}

#[test]
fn status_lines_name_the_task_and_its_state() {
    let yellow = "\x1b[38;5;3m";
    assert_eq!(
        show_task_status("Compilation", TaskType::Test, TaskStatus::Pass, LogLevel::Info),
        format!("{yellow}COMPILATION: \x1b[38;5;2mPASS ✓\x1b[m\n")
    );
    assert_eq!(
        show_task_status("Downloading zip", TaskType::Fetch, TaskStatus::Done, LogLevel::Info),
        format!("{yellow}Downloading zip... \x1b[38;5;2mDONE ✓\x1b[m\n")
    );
    assert_eq!(
        show_task_status("straße", TaskType::Test, TaskStatus::SkipGood, LogLevel::Info),
        format!("{yellow}STRASSE: \x1b[38;5;6mSKIP ✓\x1b[m\n")
    );
    assert_eq!(
        show_task_status("x", TaskType::Fetch, TaskStatus::SkipBad, LogLevel::Info),
        format!("{yellow}x... \x1b[38;5;6mSKIP ✘\x1b[m\n")
    );
    assert_eq!(
        show_task_status("x", TaskType::Fetch, TaskStatus::Fail, LogLevel::Error),
        format!("{yellow}x... \x1b[38;5;1mFAIL ✘\x1b[m\n")
    );
    assert_eq!(
        show_task_status("x", TaskType::Test, TaskStatus::InProgress, LogLevel::Warning),
        format!("{yellow}X: \x1b[m...\r")
    );
    assert_eq!(
        show_task_status("x", TaskType::Test, TaskStatus::InProgress, LogLevel::Debug),
        format!("{yellow}X: \x1b[m...\r\n")
    );
    assert_eq!(
        labelled_status_line("as given: ", TaskStatus::Pass, LogLevel::Info),
        format!("{yellow}as given: \x1b[38;5;2mPASS ✓\x1b[m\n")
    );
}

#[test]
fn task_output_stands_under_its_title() {
    assert_eq!(
        show_task_output("Test diff", "a\nb"),
        "==> Test diff:\n\x1b[38;5;5ma\nb\x1b[m\n"
    );
}

#[test]
fn a_silent_terminal_is_a_hundred_wide() {
    assert_eq!(terminal_width_or_default(None), 100);
    assert_eq!(terminal_width_or_default(Some(80)), 80);
    assert_eq!(terminal_width_or_default(Some(1)), 1);
    assert!(get_terminal_width() > 0);
}
