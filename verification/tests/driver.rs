use bindgen_driver::codegen::CodegenConfig;
use bindgen_driver::driver::{start, Action};
use bindgen_driver::error::Error;
use bindgen_driver::request::{Args, BuilderCall};
use std::path::PathBuf;

fn list(words: &[&str]) -> Vec<String> {
    words.iter().map(|word| word.to_string()).collect()
}

fn command_line(clang_args: &[&str]) -> Args {
    Args {
        header: String::from("api.h"),
        out: PathBuf::from("api.rs"),
        allowlist_function: list(&["open"]),
        allowlist_type: Vec::new(),
        allowlist_var: Vec::new(),
        opaque_type: Vec::new(),
        enable_cxx_namespaces: false,
        generate_types: false,
        generate_functions: false,
        generate_methods: false,
        generate_vars: false,
        clang_args: list(clang_args),
    }
}

/// What a run meets outside the library.
struct World<'a> {
    front_end: Result<(), &'a str>,
    files: &'a [(&'a str, &'a str)],
    generator: Result<(), &'a str>,
    disk: Result<(), &'a str>,
}

const FINE: World<'static> =
    World { front_end: Ok(()), files: &[], generator: Ok(()), disk: Ok(()) };

fn report(report: Result<(), &str>) -> Result<(), String> {
    report.map_err(String::from)
}

/// Runs the driver to its end in `world`, and notes what it asked for.
fn run(args: Args, world: &World) -> (Result<(), Error>, Vec<String>) {
    let mut log = Vec::new();
    let mut action = start(args);
    loop {
        action = match action {
            Action::LoadFrontEnd { loading } => {
                log.push(String::from("load"));
                loading.loaded(report(world.front_end))
            }
            Action::ReadResponseFile { path, expanding } => {
                log.push(format!("read {}", path));
                let read = match world.files.iter().find(|(name, _)| *name == path) {
                    Some((_, contents)) => Ok(contents.to_string()),
                    None => Err(String::from("not found")),
                };
                expanding.file_read(read)
            }
            Action::Generate { calls, generating } => {
                log.push(format!("generate {}", calls.len()));
                generating.generated(report(world.generator))
            }
            Action::WriteOutput { out, writing } => {
                log.push(format!("write {}", out.display()));
                writing.written(report(world.disk))
            }
            Action::Exit(exit) => return (exit, log),
        };
    }
}

#[test]
fn run_without_response_files() {
    let (exit, log) = run(command_line(&["-x", "c++"]), &FINE);
    assert_eq!(exit, Ok(()));
    assert_eq!(log, list(&["load", "generate 4", "write api.rs"]));
}

#[test]
fn run_without_extra_arguments() {
    let (exit, log) = run(command_line(&[]), &FINE);
    assert_eq!(exit, Ok(()));
    assert_eq!(log, list(&["load", "generate 3", "write api.rs"]));
}

#[test]
fn run_reads_response_files_after_loading() {
    let world = World { files: &[("a", "-I inc"), ("b", "-DX")], ..FINE };
    let (exit, log) = run(command_line(&["@a", "-v", "@b"]), &world);
    assert_eq!(exit, Ok(()));
    assert_eq!(log, list(&["load", "read a", "read b", "generate 4", "write api.rs"]));
}

#[test]
fn run_starts_with_the_front_end() {
    assert!(matches!(start(command_line(&["@a"])), Action::LoadFrontEnd { .. }));
}

#[test]
fn missing_front_end_ends_the_run_at_once() {
    let world = World { front_end: Err("libclang not found"), files: &[("a", "-v")], ..FINE };
    let (exit, log) = run(command_line(&["@a"]), &world);
    assert_eq!(exit, Err(Error::Load { cause: String::from("libclang not found") }));
    assert_eq!(log, list(&["load"]));
}

#[test]
fn unreadable_response_file_ends_the_run() {
    let (exit, log) = run(command_line(&["-v", "@gone", "@later"]), &FINE);
    assert_eq!(
        exit,
        Err(Error::Read { path: String::from("gone"), cause: String::from("not found") })
    );
    assert_eq!(log, list(&["load", "read gone"]));
}

#[test]
fn malformed_response_file_ends_the_run() {
    let world = World { files: &[("a", "-I 'inc")], ..FINE };
    let (exit, log) = run(command_line(&["@a"]), &world);
    assert_eq!(exit, Err(Error::Syntax { path: String::from("a") }));
    assert_eq!(log, list(&["load", "read a"]));
}

#[test]
fn failed_generation_writes_nothing() {
    let world = World { generator: Err("header 'api.h' does not exist."), ..FINE };
    let (exit, log) = run(command_line(&["-v"]), &world);
    assert_eq!(
        exit,
        Err(Error::Generation { cause: String::from("header 'api.h' does not exist.") })
    );
    assert_eq!(log, list(&["load", "generate 4"]));
}

#[test]
fn failed_write_is_an_io_error() {
    let world = World { disk: Err("Permission denied (os error 13)"), ..FINE };
    let (exit, log) = run(command_line(&[]), &world);
    assert_eq!(exit, Err(Error::Io { cause: String::from("Permission denied (os error 13)") }));
    assert_eq!(log, list(&["load", "generate 3", "write api.rs"]));
}

#[test]
fn generator_gets_the_expanded_arguments() {
    let action = match start(command_line(&["-a", "@f", "-z"])) {
        Action::LoadFrontEnd { loading } => loading.loaded(Ok(())),
        _ => panic!("the front end comes first"),
    };
    let action = match action {
        Action::ReadResponseFile { path, expanding } => {
            assert_eq!(path, "f");
            expanding.file_read(Ok(String::from("a b \"c d\"")))
        }
        _ => panic!("a response file is named"),
    };
    match action {
        Action::Generate { calls, .. } => assert_eq!(
            calls,
            vec![
                BuilderCall::Header(String::from("api.h")),
                BuilderCall::AllowlistFunction(String::from("open")),
                BuilderCall::WithCodegenConfig(CodegenConfig::all()),
                BuilderCall::ClangArgs(list(&["-a", "a", "b", "c d", "-z"])),
            ]
        ),
        _ => panic!("the generator comes next"),
    }
}

#[test]
fn output_goes_to_the_requested_file() {
    let action = match start(command_line(&[])) {
        Action::LoadFrontEnd { loading } => loading.loaded(Ok(())),
        _ => panic!("the front end comes first"),
    };
    let action = match action {
        Action::Generate { generating, .. } => generating.generated(Ok(())),
        _ => panic!("the generator comes next"),
    };
    match action {
        Action::WriteOutput { out, writing } => {
            assert_eq!(out, PathBuf::from("api.rs"));
            assert!(matches!(writing.written(Ok(())), Action::Exit(Ok(()))));
        }
        _ => panic!("the output comes next"),
    }
}
