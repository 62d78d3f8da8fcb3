use binding_generator::request::{generation_requests, header, GenerationRequest, Pass};
use binding_generator::run::{Action, Event, Outcome, Run, RunError};
use binding_generator::search_path::{LibraryEntry, ScanError};

fn fixture_requests() -> Vec<GenerationRequest> {
    vec![
        GenerationRequest {
            output_file: "foo.rs".to_owned(),
            headers: vec![header("libfoo", "foo.h")],
            prefix: String::new(),
            pass: Pass::Declarations {
                variables: "^Foo[A-Za-z]*$".to_owned(),
                types: "^Foo[A-Za-z]*$".to_owned(),
            },
            recursive: true,
        },
        GenerationRequest {
            output_file: "foo_functions.rs".to_owned(),
            headers: vec![header("libfoo", "foo.h")],
            prefix: "use crate::generated_bindings::foo::*;\n".to_owned(),
            pass: Pass::Functions { functions: "^Foo[A-Za-z]*$".to_owned() },
            recursive: true,
        },
    ]
}

fn fixture_libraries() -> Vec<LibraryEntry> {
    vec![LibraryEntry {
        include_path: "../modules/libfoo/include".to_owned(),
        exists: true,
        is_dir: true,
        absolute: Some("/srv/modules/libfoo/include".to_owned()),
    }]
}

fn in_project() -> Event {
    Event::WorkingDirectory(Some("binding-generator".to_owned()))
}

fn started(requests: Vec<GenerationRequest>) -> Run {
    let (run, action) = Run::new(requests);
    assert!(matches!(action, Action::QueryWorkingDirectory));
    let (run, action) = run.step(in_project());
    match action {
        Action::ScanLibraries { root } => assert_eq!(root, "../modules"),
        other => panic!("unexpected action: {:?}", other),
    }
    run
}

fn values_of(flags: &[String], flag: &str) -> Vec<String> {
    let mut values = Vec::new();
    for i in 0..flags.len() {
        if flags[i] == flag && i + 1 < flags.len() {
            values.push(flags[i + 1].clone());
        }
    }
    values
}

fn parser_arguments(flags: &[String]) -> Vec<String> {
    let separator = flags.iter().position(|f| f == "--").unwrap();
    flags[separator + 1..].to_vec()
}

#[test]
fn a_run_begins_by_asking_for_the_working_directory() {
    let (_, action) = Run::new(generation_requests());
    assert!(matches!(action, Action::QueryWorkingDirectory));
}

#[test]
fn a_run_from_the_project_directory_scans_the_libraries() {
    let (run, _) = Run::new(generation_requests());
    let (_, action) = run.step(in_project());
    match action {
        Action::ScanLibraries { root } => assert_eq!(root, "../modules"),
        other => panic!("unexpected action: {:?}", other),
    }
}

#[test]
fn a_run_from_another_directory_fails_at_once() {
    let (run, _) = Run::new(generation_requests());
    let (run, action) = run.step(Event::WorkingDirectory(Some("xlib-sys".to_owned())));
    assert!(matches!(action, Action::Abort(RunError::WrongDirectory)));
    let (run, action) = run.step(Event::Libraries(Some(fixture_libraries())));
    assert!(matches!(action, Action::Abort(RunError::OutOfTurn)));
    let (run, action) = run.step(Event::Header(Some("/srv/foo.h".to_owned())));
    assert!(matches!(action, Action::Abort(RunError::OutOfTurn)));
    let (_, action) = run.step(Event::Output(Outcome::Written));
    assert!(matches!(action, Action::Abort(RunError::OutOfTurn)));
}

#[test]
fn a_run_without_working_directory_fails_at_once() {
    let (run, _) = Run::new(generation_requests());
    let (_, action) = run.step(Event::WorkingDirectory(None));
    assert!(matches!(action, Action::Abort(RunError::WrongDirectory)));
}

#[test]
fn a_run_needs_the_exact_directory_name() {
    for name in ["binding-generator2", "Binding-Generator", "binding_generator", ""] {
        let (run, _) = Run::new(generation_requests());
        let (_, action) = run.step(Event::WorkingDirectory(Some(name.to_owned())));
        assert!(matches!(action, Action::Abort(RunError::WrongDirectory)));
    }
}

#[test]
fn an_answer_to_another_question_ends_the_run() {
    let (run, _) = Run::new(generation_requests());
    let (_, action) = run.step(Event::Output(Outcome::Written));
    assert!(matches!(action, Action::Abort(RunError::OutOfTurn)));

    let run = started(generation_requests());
    let (_, action) = run.step(in_project());
    assert!(matches!(action, Action::Abort(RunError::OutOfTurn)));

    let run = started(fixture_requests());
    let (run, _) = run.step(Event::Libraries(Some(fixture_libraries())));
    let (_, action) = run.step(Event::Output(Outcome::Written));
    assert!(matches!(action, Action::Abort(RunError::OutOfTurn)));

    let run = started(fixture_requests());
    let (run, _) = run.step(Event::Libraries(Some(fixture_libraries())));
    let (run, _) = run.step(Event::Header(Some("/srv/modules/libfoo/include/foo.h".to_owned())));
    let (_, action) = run.step(Event::Header(Some("/srv/modules/libfoo/include/foo.h".to_owned())));
    assert!(matches!(action, Action::Abort(RunError::OutOfTurn)));
}

#[test]
fn unreadable_libraries_root_ends_the_run() {
    let run = started(generation_requests());
    let (_, action) = run.step(Event::Libraries(None));
    assert!(matches!(action, Action::Abort(RunError::UnreadableLibraries)));
}

#[test]
fn file_named_as_header_directory_ends_the_run_before_any_output() {
    let run = started(generation_requests());
    let libraries = vec![
        fixture_libraries().remove(0),
        LibraryEntry {
            include_path: "../modules/libbar/include".to_owned(),
            exists: true,
            is_dir: false,
            absolute: None,
        },
    ];
    let (run, action) = run.step(Event::Libraries(Some(libraries)));
    match action {
        Action::Abort(RunError::Scan(ScanError::NotADirectory { path })) => {
            assert_eq!(path, "../modules/libbar/include")
        },
        other => panic!("unexpected action: {:?}", other),
    }
    let (_, action) = run.step(Event::Header(Some("/srv/x.h".to_owned())));
    assert!(matches!(action, Action::Abort(RunError::OutOfTurn)));
}

#[test]
fn unresolved_header_directory_ends_the_run() {
    let run = started(generation_requests());
    let libraries = vec![LibraryEntry {
        include_path: "../modules/libbaz/include".to_owned(),
        exists: true,
        is_dir: true,
        absolute: None,
    }];
    let (_, action) = run.step(Event::Libraries(Some(libraries)));
    match action {
        Action::Abort(RunError::Scan(ScanError::Unresolved { path })) => {
            assert_eq!(path, "../modules/libbaz/include")
        },
        other => panic!("unexpected action: {:?}", other),
    }
}

#[test]
fn missing_header_ends_the_run() {
    let run = started(generation_requests());
    let (run, action) = run.step(Event::Libraries(Some(Vec::new())));
    match action {
        Action::ResolveHeader { path } => {
            assert_eq!(path, "../modules/libx11/include/X11/Xlib.h")
        },
        other => panic!("unexpected action: {:?}", other),
    }
    let (run, action) = run.step(Event::Header(Some("/srv/Xlib.h".to_owned())));
    match action {
        Action::ResolveHeader { path } => {
            assert_eq!(path, "../modules/libx11/include/X11/cursorfont.h")
        },
        other => panic!("unexpected action: {:?}", other),
    }
    let (_, action) = run.step(Event::Header(None));
    match action {
        Action::Abort(RunError::MissingHeader { path }) => {
            assert_eq!(path, "../modules/libx11/include/X11/cursorfont.h")
        },
        other => panic!("unexpected action: {:?}", other),
    }
}

#[test]
fn fixture_library_gives_a_declarations_file_and_a_functions_file() {
    let run = started(fixture_requests());

    let (run, action) = run.step(Event::Libraries(Some(fixture_libraries())));
    match action {
        Action::ResolveHeader { path } => assert_eq!(path, "../modules/libfoo/include/foo.h"),
        other => panic!("unexpected action: {:?}", other),
    }
    let (run, action) = run.step(Event::Header(Some("/srv/modules/libfoo/include/foo.h".to_owned())));
    match action {
        Action::Emit { output, prefix, builder } => {
            assert_eq!(output, "../xlib-sys/src/generated_bindings/foo.rs");
            assert_eq!(prefix, "");
            let flags = builder.command_line_flags();
            assert_eq!(flags[0], "/srv/modules/libfoo/include/foo.h");
            assert_eq!(values_of(&flags, "--allowlist-var"), vec!["^Foo[A-Za-z]*$".to_owned()]);
            assert_eq!(values_of(&flags, "--allowlist-type"), vec!["^Foo[A-Za-z]*$".to_owned()]);
            assert!(values_of(&flags, "--allowlist-function").is_empty());
            assert!(flags.iter().any(|f| f == "--ignore-functions"));
            assert!(flags.iter().any(|f| f == "--no-layout-tests"));
            assert_eq!(
                values_of(&flags, "--generate"),
                vec!["types,vars,methods,constructors,destructors".to_owned()]
            );
            assert_eq!(
                parser_arguments(&flags),
                vec!["--include-directory=/srv/modules/libfoo/include".to_owned()]
            );
        },
        other => panic!("unexpected action: {:?}", other),
    }

    let (run, action) = run.step(Event::Output(Outcome::Written));
    match action {
        Action::ScanLibraries { root } => assert_eq!(root, "../modules"),
        other => panic!("unexpected action: {:?}", other),
    }
    let (run, action) = run.step(Event::Libraries(Some(fixture_libraries())));
    assert!(matches!(action, Action::ResolveHeader { .. }));
    let (run, action) = run.step(Event::Header(Some("/srv/modules/libfoo/include/foo.h".to_owned())));
    match action {
        Action::Emit { output, prefix, builder } => {
            assert_eq!(output, "../xlib-sys/src/generated_bindings/foo_functions.rs");
            assert_eq!(prefix, "use crate::generated_bindings::foo::*;\n");
            let flags = builder.command_line_flags();
            assert_eq!(flags[0], "/srv/modules/libfoo/include/foo.h");
            assert_eq!(
                values_of(&flags, "--allowlist-function"),
                vec!["^Foo[A-Za-z]*$".to_owned()]
            );
            assert!(values_of(&flags, "--allowlist-var").is_empty());
            assert!(values_of(&flags, "--allowlist-type").is_empty());
            assert!(!flags.iter().any(|f| f == "--ignore-functions"));
            assert_eq!(values_of(&flags, "--generate"), vec!["functions".to_owned()]);
        },
        other => panic!("unexpected action: {:?}", other),
    }

    let (run, action) = run.step(Event::Output(Outcome::Written));
    assert!(matches!(action, Action::Finish));
    let (_, action) = run.step(Event::Output(Outcome::Written));
    assert!(matches!(action, Action::Finish));
}

#[test]
fn headers_reach_the_engine_in_the_order_of_the_request() {
    let requests = vec![GenerationRequest {
        output_file: "pair.rs".to_owned(),
        headers: vec![header("liba", "a.h"), header("libb", "sub/b.h"), header("liba", "c.h")],
        prefix: String::new(),
        pass: Pass::Functions { functions: "^a$".to_owned() },
        recursive: false,
    }];
    let run = started(requests);
    let (run, action) = run.step(Event::Libraries(Some(Vec::new())));
    match action {
        Action::ResolveHeader { path } => assert_eq!(path, "../modules/liba/include/a.h"),
        other => panic!("unexpected action: {:?}", other),
    }
    let (run, action) = run.step(Event::Header(Some("/1/a.h".to_owned())));
    match action {
        Action::ResolveHeader { path } => assert_eq!(path, "../modules/libb/include/sub/b.h"),
        other => panic!("unexpected action: {:?}", other),
    }
    let (run, action) = run.step(Event::Header(Some("/2/b.h".to_owned())));
    match action {
        Action::ResolveHeader { path } => assert_eq!(path, "../modules/liba/include/c.h"),
        other => panic!("unexpected action: {:?}", other),
    }
    let (_, action) = run.step(Event::Header(Some("/3/c.h".to_owned())));
    match action {
        Action::Emit { builder, .. } => {
            let flags = builder.command_line_flags();
            assert_eq!(flags[0], "/3/c.h");
            assert_eq!(
                parser_arguments(&flags),
                vec![
                    "-include".to_owned(),
                    "/1/a.h".to_owned(),
                    "-include".to_owned(),
                    "/2/b.h".to_owned(),
                ]
            );
            assert!(flags.iter().any(|f| f == "--no-recursive-allowlist"));
        },
        other => panic!("unexpected action: {:?}", other),
    }
}

#[test]
fn request_without_headers_is_written_right_after_the_scan() {
    let requests = vec![GenerationRequest {
        output_file: "empty.rs".to_owned(),
        headers: Vec::new(),
        prefix: "// nothing\n".to_owned(),
        pass: Pass::Functions { functions: "^a$".to_owned() },
        recursive: true,
    }];
    let run = started(requests);
    let (_, action) = run.step(Event::Libraries(Some(Vec::new())));
    match action {
        Action::Emit { output, prefix, .. } => {
            assert_eq!(output, "../xlib-sys/src/generated_bindings/empty.rs");
            assert_eq!(prefix, "// nothing\n");
        },
        other => panic!("unexpected action: {:?}", other),
    }
}

#[test]
fn a_run_without_requests_finishes_at_once() {
    let (run, _) = Run::new(Vec::new());
    let (run, action) = run.step(in_project());
    assert!(matches!(action, Action::Finish));
    let (_, action) = run.step(Event::Libraries(None));
    assert!(matches!(action, Action::Finish));
}

#[test]
fn failed_output_ends_the_run() {
    let run = started(fixture_requests());
    let (run, _) = run.step(Event::Libraries(Some(fixture_libraries())));
    let (run, _) = run.step(Event::Header(Some("/srv/foo.h".to_owned())));
    let (run, action) = run.step(Event::Output(Outcome::OutputFailed));
    match action {
        Action::Abort(RunError::OutputFailed { path }) => {
            assert_eq!(path, "../xlib-sys/src/generated_bindings/foo.rs")
        },
        other => panic!("unexpected action: {:?}", other),
    }
    let (_, action) = run.step(Event::Output(Outcome::Written));
    assert!(matches!(action, Action::Abort(RunError::OutOfTurn)));
}

#[test]
fn failed_engine_ends_the_run_and_leaves_earlier_files() {
    let run = started(fixture_requests());
    let (run, _) = run.step(Event::Libraries(Some(fixture_libraries())));
    let (run, _) = run.step(Event::Header(Some("/srv/foo.h".to_owned())));
    let (run, _) = run.step(Event::Output(Outcome::Written));
    let (run, _) = run.step(Event::Libraries(Some(fixture_libraries())));
    let (run, action) = run.step(Event::Header(Some("/srv/foo.h".to_owned())));
    assert!(matches!(action, Action::Emit { .. }));
    let (_, action) = run.step(Event::Output(Outcome::EngineFailed));
    match action {
        Action::Abort(RunError::EngineFailed { path }) => {
            assert_eq!(path, "../xlib-sys/src/generated_bindings/foo_functions.rs")
        },
        other => panic!("unexpected action: {:?}", other),
    }
}

fn drive(requests: Vec<GenerationRequest>) -> Vec<String> {
    let mut log = Vec::new();
    let (mut run, mut action) = Run::new(requests);
    let mut headers = 0;
    loop {
        let event = match action {
            Action::QueryWorkingDirectory => {
                log.push("directory".to_owned());
                in_project()
            },
            Action::ScanLibraries { root } => {
                log.push(format!("scan {}", root));
                Event::Libraries(Some(fixture_libraries()))
            },
            Action::ResolveHeader { path } => {
                headers += 1;
                log.push(format!("resolve {}", path));
                Event::Header(Some(format!("/abs/{}", headers)))
            },
            Action::Emit { output, prefix, builder } => {
                log.push(format!("emit {} {:?} {:?}", output, prefix, builder.command_line_flags()));
                Event::Output(Outcome::Written)
            },
            Action::Finish => {
                log.push("finish".to_owned());
                return log;
            },
            Action::Abort(error) => panic!("the run failed: {:?}", error),
        };
        (run, action) = run.step(event);
    }
}

#[test]
fn the_standard_run_writes_four_files_in_order() {
    let log = drive(generation_requests());
    let emitted: Vec<&String> = log.iter().filter(|line| line.starts_with("emit ")).collect();
    assert_eq!(emitted.len(), 4);
    assert!(emitted[0].starts_with("emit ../xlib-sys/src/generated_bindings/xlib.rs \"\" "));
    assert!(emitted[1].starts_with(
        "emit ../xlib-sys/src/generated_bindings/xlib_functions.rs \"use crate::generated_bindings::xlib::*;\\n\" "
    ));
    assert!(emitted[2].starts_with(
        "emit ../xlib-sys/src/generated_bindings/xfixes.rs \"use crate::generated_bindings::xlib::*;\\n\" "
    ));
    assert!(emitted[3].starts_with(
        "emit ../xlib-sys/src/generated_bindings/xfixes_functions.rs \"use crate::generated_bindings::{xlib::*, xfixes::*};\\n\" "
    ));
    assert_eq!(log.iter().filter(|line| line.starts_with("scan ")).count(), 4);
    assert_eq!(log.iter().filter(|line| line.starts_with("resolve ")).count(), 18);
    assert_eq!(log.first().unwrap(), "directory");
    assert_eq!(log.last().unwrap(), "finish");
    assert_eq!(log.len(), 1 + 4 + 18 + 4 + 1);
}

#[test]
fn the_standard_run_resolves_every_header_before_it_writes() {
    let log = drive(generation_requests());
    assert_eq!(log[1], "scan ../modules");
    assert_eq!(log[2], "resolve ../modules/libx11/include/X11/Xlib.h");
    assert_eq!(log[9], "resolve ../modules/libx11/include/X11/Xutil.h");
    assert!(log[10].starts_with("emit "));
    assert_eq!(log[11], "scan ../modules");
    assert_eq!(log[21], "scan ../modules");
    assert_eq!(log[22], "resolve ../modules/libxfixes/include/X11/extensions/Xfixes.h");
    assert!(log[23].starts_with("emit "));
}

#[test]
fn two_runs_ask_for_the_same_things() {
    assert_eq!(drive(generation_requests()), drive(generation_requests()));
    assert_eq!(drive(fixture_requests()), drive(fixture_requests()));
}
