use loki::builder::is_c_source;
use loki::cli::default_package;
use loki::cli::select_command;
use loki::cli::CliCommand;
use loki::compiler::BuildConfig;
use loki::compiler::CSourceToObject;
use loki::compiler::LinkObjectsToBinary;
use loki::compiler::LtoMode;
use loki::compiler::OptLevel;
use loki::compiler::render_invocation;
use loki::config::PackageKind;
use loki::meta::language::Standard;
use loki::project_tools::new_project_plan;
use loki::text::join_path;

fn args(list: &[&str]) -> Vec<String> {
    list.iter().map(|a| a.to_string()).collect()
}

#[test]
fn test_select_command() {
    assert!(matches!(select_command(&args(&["loki"])), CliCommand::Help));
    assert!(matches!(select_command(&args(&["loki", "build"])), CliCommand::Build));
    assert!(matches!(select_command(&args(&["loki", "-v"])), CliCommand::Version));
    assert!(matches!(select_command(&args(&["loki", "--version"])), CliCommand::Version));
    assert!(matches!(select_command(&args(&["loki", "-h"])), CliCommand::Help));
    assert!(matches!(select_command(&args(&["loki", "--help"])), CliCommand::Help));
    match select_command(&args(&["loki", "new", "demo"])) {
        CliCommand::New(Some(name)) => assert_eq!(name, "demo"),
        other => panic!("expected a named project, got {:?}", other),
    }
    assert!(matches!(select_command(&args(&["loki", "new"])), CliCommand::New(None)));
    match select_command(&args(&["loki", "frobnicate"])) {
        CliCommand::Unknown(word) => assert_eq!(word, "frobnicate"),
        other => panic!("expected the argument back, got {:?}", other),
    }
}

#[test]
fn test_default_package() {
    let package = default_package("fresh");
    assert_eq!(package.name, "fresh");
    assert_eq!(package.kind, PackageKind::Application);
    assert_eq!(package.version, "0.1.0");
    assert_eq!(package.standard, loki::config::Standard::C99);
}

#[test]
fn test_standard_to_arg() {
    assert_eq!(Standard::C89.to_arg(), "-std=c89");
    assert_eq!(Standard::C99.to_arg(), "-std=c99");
    assert_eq!(Standard::C11.to_arg(), "-std=c11");
    assert_eq!(Standard::C17.to_arg(), "-std=c17");
    assert_eq!(Standard::C23.to_arg(), "-std=c23");
    assert_eq!(Standard::Gnu89.to_arg(), "-std=gnu89");
    assert_eq!(Standard::Gnu99.to_arg(), "-std=gnu99");
    assert_eq!(Standard::Gnu11.to_arg(), "-std=gnu11");
    assert_eq!(Standard::Gnu17.to_arg(), "-std=gnu17");
    assert_eq!(Standard::Gnu23.to_arg(), "-std=gnu23");
}

#[test]
fn test_opt_and_lto_args() {
    assert_eq!(OptLevel::O0.to_arg(), "-O0");
    assert_eq!(OptLevel::O3.to_arg(), "-O3");
    assert_eq!(OptLevel::Size.to_arg(), "-Os");
    assert_eq!(OptLevel::Debug.to_arg(), "-Og");
    assert_eq!(OptLevel::Fast.to_arg(), "-Ofast");
    assert_eq!(LtoMode::Full.to_arg(), "-flto");
    assert_eq!(LtoMode::Thin.to_arg(), "-flto=thin");
}

#[test]
fn test_compile_invocation_full() {
    let task = CSourceToObject {
        input: "src/a.c".to_string(),
        object_directory: "target/obj".to_string(),
        config: BuildConfig { standard: Standard::C11, optimization: None, lto: None },
    };
    let invocation = task.invocation("target/obj/1a2b.o", false);
    assert_eq!(invocation.program, "clang");
    assert_eq!(
        invocation.args,
        vec![
            "-std=c11",
            "-Wall",
            "-Wextra",
            "-Wpedantic",
            "-fwrapv",
            "-c",
            "-o",
            "target/obj/1a2b.o",
            "src/a.c",
        ]
    );
}

#[test]
fn test_compile_invocation_cached() {
    let task = CSourceToObject {
        input: "src/a.c".to_string(),
        object_directory: "target/obj".to_string(),
        config: BuildConfig { standard: Standard::C99, optimization: None, lto: None },
    };
    let invocation = task.invocation("target/obj/1a2b.o", true);
    assert_eq!(
        invocation.args,
        vec!["-std=c99", "-Wall", "-Wextra", "-Wpedantic", "-fsyntax-only", "src/a.c"]
    );
}

#[test]
fn test_compile_invocation_with_optimization_and_lto() {
    let task = CSourceToObject {
        input: "src/a.c".to_string(),
        object_directory: "target/obj".to_string(),
        config: BuildConfig {
            standard: Standard::Gnu17,
            optimization: Some(OptLevel::O2),
            lto: Some(LtoMode::Thin),
        },
    };
    let invocation = task.invocation("target/obj/x.o", false);
    assert_eq!(
        invocation.args,
        vec![
            "-std=gnu17",
            "-Wall",
            "-Wextra",
            "-Wpedantic",
            "-O2",
            "-flto=thin",
            "-fwrapv",
            "-c",
            "-o",
            "target/obj/x.o",
            "src/a.c",
        ]
    );
}

#[test]
fn test_link_invocation() {
    let task = LinkObjectsToBinary {
        inputs: vec!["src/a.c".to_string(), "src/b.c".to_string()],
        output: "target/app".to_string(),
        config: BuildConfig {
            standard: Standard::C11,
            optimization: None,
            lto: Some(LtoMode::Full),
        },
    };
    let objects = vec!["target/obj/a.o".to_string(), "target/obj/b.o".to_string()];
    let invocation = task.invocation(&objects);
    assert_eq!(invocation.program, "clang");
    assert_eq!(
        invocation.args,
        vec!["-flto", "-fuse-ld=lld", "-o", "target/app", "target/obj/a.o", "target/obj/b.o"]
    );
}

#[test]
fn test_render_invocation() {
    let task = CSourceToObject {
        input: "src/a.c".to_string(),
        object_directory: "target/obj".to_string(),
        config: BuildConfig { standard: Standard::C11, optimization: None, lto: None },
    };
    let line = render_invocation(&task.invocation("target/obj/x.o", true));
    assert_eq!(line, "clang -std=c11 -Wall -Wextra -Wpedantic -fsyntax-only src/a.c");
}

#[test]
fn test_is_c_source() {
    assert!(is_c_source("src/main.c"));
    assert!(is_c_source("main.c"));
    assert!(is_c_source("a.tar.c"));
    assert!(!is_c_source("src/main.h"));
    assert!(!is_c_source("src/main.cc"));
    assert!(!is_c_source("main"));
    assert!(!is_c_source(".c"));
    assert!(!is_c_source("src/.c"));
    assert!(!is_c_source(""));
}

#[test]
fn test_join_path() {
    assert_eq!(join_path("proj", "src"), "proj/src");
    assert_eq!(join_path("proj/target", "app"), "proj/target/app");
}

#[test]
fn test_new_project_plan() {
    let plan = new_project_plan("work", "demo");
    assert_eq!(plan.root, "work/demo");
    assert_eq!(plan.source_directory, "work/demo/src");
    assert_eq!(plan.manifest_path, "work/demo/loki.toml");
    assert_eq!(plan.main_path, "work/demo/src/main.c");
    assert_eq!(
        plan.manifest_text,
        "[package]\nname     = \"demo\"\ntype     = \"application\"\nversion  = \"0.1.0\"\nstandard = \"c99\"\n"
    );
    assert!(plan.main_text.contains("Hello, World!"));
    let parsed = loki::config::Package::parse(&plan.manifest_text).unwrap();
    assert_eq!(parsed.name, "demo");
}
