use advocat::compilation::compiler::{
    Compilation, CompilationError, CompilationTarget, CompilationType, CompileProcessError,
    Compiler, PassEvent, PassStep,
};
use advocat::compilation::template::{
    apply_nomain_template, apply_normal_template, generate_main, MainGenerationError,
};
use advocat::compilation::write_required_resources;
use advocat::config::Config;
use advocat::fetch::resource::{Acquisition, Facts, Resource};
use advocat::paths::PathKind;
use advocat::problem::{Problem, SourceProbe};

fn problem(id: &str, source: &str) -> Problem {
    let config = Config::assemble(
        Some(("/home/ada/.config/advocat".to_string(), "/home/ada/.cache/advocat".to_string())),
        "/tmp",
        Ok(format!("/home/ada/{}", id)),
    )
    .unwrap();
    Problem::new(&config, PathKind::Directory, Ok(()), SourceProbe::Read(source.to_string()))
        .unwrap()
}

fn with_main() -> Problem {
    problem("P00000_xx", "int main() {}\n")
}

fn without_main() -> Problem {
    problem("P00001_xx", "int twice(int x) { return 2 * x; }\n")
}

fn strings(items: &[&str]) -> Vec<String> {
    items.iter().map(|item| item.to_string()).collect()
}

const STRICT: [&str; 8] = [
    "-D_JUDGE_",
    "-DNDEBUG",
    "-O2",
    "-Wall",
    "-Wextra",
    "-Werror",
    "-Wno-sign-compare",
    "-Wshadow",
];

#[test]
fn template_apply_normal_template_test() {
    let original = "// I'M THE ORIGINAL ONE";
    assert_eq!(
        apply_normal_template(original),
        "// Assembled for submission: what follows is compiled as one file.\n#line 1 \"main.cc\"\n// I'M THE ORIGINAL ONE\n"
    );
}

#[test]
fn template_apply_nomain_template_test() {
    let original = "// I'M THE ORIGINAL ONE";
    let main = "// I'M THE MAIN ONE";
    assert_eq!(
        apply_nomain_template(original, main),
        "// Assembled for submission: what follows is compiled as one file.\n#line 1 \"main.cc\"\n// I'M THE ORIGINAL ONE\n#line 1 \"jutge-main.cc\"\n// I'M THE MAIN ONE\n"
    );
}

#[test]
fn generated_source_goes_to_the_tmp_dir() {
    let made = generate_main(&with_main(), Ok("int main() {}".to_string()), Err("absent".to_string()))
        .unwrap();
    assert_eq!(made.path, "/tmp/advocat/P00000_xx/main.cc");
    assert_eq!(made.contents, apply_normal_template("int main() {}"));

    let made = generate_main(
        &without_main(),
        Ok("int twice(int);".to_string()),
        Ok("int main() { return twice(1); }".to_string()),
    )
    .unwrap();
    assert_eq!(made.path, "/tmp/advocat/P00001_xx/main.cc");
    assert_eq!(
        made.contents,
        apply_nomain_template("int twice(int);", "int main() { return twice(1); }")
    );
}

#[test]
fn unreadable_sources_are_told_apart() {
    assert_eq!(
        generate_main(&with_main(), Err("denied".to_string()), Ok(String::new())),
        Err(MainGenerationError::CantReadSources("denied".to_string()))
    );
    assert_eq!(
        generate_main(&without_main(), Ok(String::new()), Err("absent".to_string())),
        Err(MainGenerationError::CantReadDownloadedMain("absent".to_string()))
    );
    assert_eq!(
        MainGenerationError::ErrorCreatingTmpFolder("x".to_string()).message(),
        "Couldn't create a temporal folder: x"
    );
    assert_eq!(
        MainGenerationError::ErrorCreatingFile("x".to_string()).message(),
        "Couldn't create the file: x"
    );
    assert_eq!(
        MainGenerationError::CantReadSources("x".to_string()).message(),
        "Couldn't read your sources: x"
    );
    assert_eq!(
        MainGenerationError::CantReadDownloadedMain("x".to_string()).message(),
        "Couldn't read the downloaded sources: x"
    );
    assert_eq!(
        MainGenerationError::ErrorWritingFile("x".to_string()).message(),
        "Unable to write the file: x"
    );
}

#[test]
fn first_pass_links_only_code_with_an_entry_point() {
    let compiler = Compiler::p1xx();
    let problem = with_main();
    let mut arguments = strings(&STRICT);
    arguments.extend(strings(&["-o", "/tmp/advocat/P00000_xx/main.x", "/home/ada/P00000_xx/main.cc"]));
    assert_eq!(
        compiler.compile_problem(&problem, "/tmp/advocat/P00000_xx/main.cc", None, None),
        Compilation::Run(CompilationTarget {
            command: "g++".to_string(),
            arguments,
            source: "/home/ada/P00000_xx/main.cc".to_string(),
            output: "/tmp/advocat/P00000_xx/main.x".to_string(),
            mode: CompilationType::Binary,
        })
    );

    let problem = without_main();
    let mut arguments = strings(&STRICT);
    arguments.extend(strings(&[
        "-o",
        "/tmp/advocat/P00001_xx/main.o",
        "-c",
        "/home/ada/P00001_xx/main.cc",
    ]));
    assert_eq!(
        compiler.compile_problem(&problem, "/tmp/advocat/P00001_xx/main.cc", None, None),
        Compilation::Run(CompilationTarget {
            command: "g++".to_string(),
            arguments,
            source: "/home/ada/P00001_xx/main.cc".to_string(),
            output: "/tmp/advocat/P00001_xx/main.o".to_string(),
            mode: CompilationType::Object,
        })
    );
}

#[test]
fn second_pass_builds_the_binary_from_the_generated_source() {
    let compiler = Compiler::p1xx();
    let problem = without_main();
    assert_eq!(
        compiler.compile_problem(&problem, "/tmp/advocat/P00001_xx/main.cc", Some(Ok(())), None),
        Compilation::Run(CompilationTarget {
            command: "g++".to_string(),
            arguments: strings(&[
                "-D_JUDGE_",
                "-DNDEBUG",
                "-O2",
                "-o",
                "/home/ada/P00001_xx/main.x",
                "/tmp/advocat/P00001_xx/main.cc",
            ]),
            source: "/tmp/advocat/P00001_xx/main.cc".to_string(),
            output: "/home/ada/P00001_xx/main.x".to_string(),
            mode: CompilationType::Binary,
        })
    );
    assert_eq!(
        compiler.compile_problem(&problem, "g.cc", Some(Ok(())), Some(Ok(()))),
        Compilation::Finished(Ok(()))
    );
}

#[test]
fn a_failed_pass_ends_the_compilation_under_its_number() {
    let compiler = Compiler::p1xx();
    let problem = with_main();
    assert_eq!(
        compiler.compile_problem(
            &problem,
            "g.cc",
            Some(Err(CompilationError::CompilerError("error: ...".to_string()))),
            None
        ),
        Compilation::Finished(Err(CompileProcessError {
            pass: 1,
            error: CompilationError::CompilerError("error: ...".to_string()),
        }))
    );
    // Whatever is said of a second pass, a failed first pass decides.
    assert_eq!(
        compiler.compile_problem(
            &problem,
            "g.cc",
            Some(Err(CompilationError::SourceDoesNotExist)),
            Some(Ok(()))
        ),
        Compilation::Finished(Err(CompileProcessError {
            pass: 1,
            error: CompilationError::SourceDoesNotExist,
        }))
    );
    assert_eq!(
        compiler.compile_problem(
            &problem,
            "g.cc",
            Some(Ok(())),
            Some(Err(CompilationError::MissingOutput))
        ),
        Compilation::Finished(Err(CompileProcessError {
            pass: 2,
            error: CompilationError::MissingOutput,
        }))
    );
}

#[test]
fn a_custom_compiler_keeps_its_flags_apart() {
    let compiler = Compiler::new("clang++".to_string(), strings(&["-Werror"]), strings(&["-O0"]));
    let first = compiler.compile_first_pass("a.cc", "a.o");
    assert_eq!(first.command, "clang++");
    assert_eq!(first.arguments, strings(&["-Werror", "-o", "a.o", "-c", "a.cc"]));
    assert_eq!(first.mode, CompilationType::Object);
    let linked = compiler.compile_and_link_first_pass("a.cc", "a.x");
    assert_eq!(linked.arguments, strings(&["-Werror", "-o", "a.x", "a.cc"]));
    let second = compiler.compile_and_link_second_pass("g.cc", "main.x");
    assert_eq!(second.arguments, strings(&["-O0", "-o", "main.x", "g.cc"]));
    assert_eq!(second.source, "g.cc");
    assert_eq!(second.output, "main.x");
    let bare = compiler.run("s.cc", "s.x", CompilationType::Binary, &Vec::new());
    assert_eq!(bare.arguments, strings(&["-o", "s.x", "s.cc"]));
}

#[test]
fn a_pass_is_refused_before_the_compiler_runs() {
    let refused = |source, output| {
        Compiler::advance(PassStep::Inspect, PassEvent::Inspected { source, output })
    };
    assert_eq!(
        refused(PathKind::Missing, PathKind::Directory),
        (PassStep::Finished, Some(Err(CompilationError::SourceDoesNotExist)))
    );
    assert_eq!(
        refused(PathKind::Directory, PathKind::Directory),
        (PassStep::Finished, Some(Err(CompilationError::SourceIsADir)))
    );
    assert_eq!(
        refused(PathKind::File, PathKind::Directory),
        (PassStep::Finished, Some(Err(CompilationError::OutputIsADir)))
    );
    assert_eq!(refused(PathKind::File, PathKind::Missing), (PassStep::Invoke, None));
    assert_eq!(refused(PathKind::File, PathKind::File), (PassStep::Invoke, None));
    assert_eq!(refused(PathKind::Other, PathKind::Other), (PassStep::Invoke, None));
}

#[test]
fn a_zero_exit_is_trusted_only_with_its_output() {
    let exited = Compiler::advance(
        PassStep::Invoke,
        PassEvent::Exited { success: true, stderr: b"warning: unused".to_vec() },
    );
    assert_eq!(exited, (PassStep::Confirm, None));
    assert_eq!(
        Compiler::advance(PassStep::Confirm, PassEvent::Confirmed { output: PathKind::File }),
        (PassStep::Finished, Some(Ok(())))
    );
    for kind in [PathKind::Missing, PathKind::Directory, PathKind::Other] {
        assert_eq!(
            Compiler::advance(PassStep::Confirm, PassEvent::Confirmed { output: kind }),
            (PassStep::Finished, Some(Err(CompilationError::MissingOutput)))
        );
    }
}

#[test]
fn compiler_errors_keep_what_the_compiler_wrote() {
    assert_eq!(
        Compiler::advance(
            PassStep::Invoke,
            PassEvent::Exited { success: false, stderr: b"main.cc:1: error: x\n".to_vec() },
        ),
        (
            PassStep::Finished,
            Some(Err(CompilationError::CompilerError("main.cc:1: error: x\n".to_string())))
        )
    );
    assert_eq!(
        Compiler::advance(
            PassStep::Invoke,
            PassEvent::Exited { success: false, stderr: vec![b'e', 0xc3, b'!'] },
        ),
        (PassStep::Finished, Some(Err(CompilationError::CompilerError("e\u{fffd}!".to_string()))))
    );
    assert_eq!(
        Compiler::advance(PassStep::Invoke, PassEvent::SpawnFailed("g++ not found".to_string())),
        (
            PassStep::Finished,
            Some(Err(CompilationError::ExecutionError("g++ not found".to_string())))
        )
    );
}

#[test]
fn pass_events_out_of_turn_change_nothing() {
    assert_eq!(
        Compiler::advance(PassStep::Inspect, PassEvent::Confirmed { output: PathKind::File }),
        (PassStep::Inspect, None)
    );
    assert_eq!(
        Compiler::advance(
            PassStep::Confirm,
            PassEvent::Exited { success: false, stderr: Vec::new() }
        ),
        (PassStep::Confirm, None)
    );
    assert_eq!(
        Compiler::advance(PassStep::Finished, PassEvent::Confirmed { output: PathKind::File }),
        (PassStep::Finished, None)
    );
}

#[test]
fn compilation_errors_read_as_sentences() {
    assert_eq!(CompilationError::SourceDoesNotExist.message(), "Source file doesn't exist!");
    assert_eq!(CompilationError::SourceIsADir.message(), "Source is a directory!");
    assert_eq!(CompilationError::OutputIsADir.message(), "Output is a directory!");
    assert_eq!(
        CompilationError::ExecutionError("x".to_string()).message(),
        "Command execution error: x"
    );
    assert_eq!(
        CompilationError::CompilerError("x".to_string()).message(),
        "The compiler raised an error:\nx"
    );
    assert_eq!(CompilationError::MissingOutput.message(), "Can't find the compiler output!");
    assert_eq!(
        CompileProcessError { pass: 1, error: CompilationError::SourceIsADir }.message(),
        "Pass 1: Source is a directory!"
    );
    assert_eq!(
        CompileProcessError { pass: 2, error: CompilationError::MissingOutput }.message(),
        "Pass 2: Can't find the compiler output!"
    );
}

#[test]
fn only_code_without_an_entry_point_needs_the_judges() {
    let mut resources = Vec::new();
    write_required_resources(&with_main(), &mut resources);
    assert!(resources.is_empty());
    write_required_resources(&without_main(), &mut resources);
    assert_eq!(resources.len(), 1);
    let mut facts = Facts::new();
    assert_eq!(
        resources[0].acquire(&facts),
        Acquisition::Inspect("/home/ada/.cache/advocat/P00001_xx/main.cc".to_string())
    );
    facts.note(
        "/home/ada/.cache/advocat/P00001_xx/main.cc".to_string(),
        advocat::fetch::resource::Fact::Kind(PathKind::Missing),
    );
    assert_eq!(
        resources[0].acquire(&facts),
        Acquisition::Download {
            url: "https://jutge.org/problems/P00001_xx/main/cc".to_string(),
            path: "/home/ada/.cache/advocat/P00001_xx/main.cc".to_string(),
        }
    );
}
