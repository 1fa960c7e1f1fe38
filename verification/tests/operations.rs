use barge::command::{invocation, push_pair, push_text, push_texts, Invocation, Outcome};
use barge::dependencies::{
    dependency_command, dependency_commands, get_binary_directory, get_dependencies_for_project,
    get_object_directory, get_object_path, get_object_paths,
};
use barge::error::BargeError;
use barge::makefile::BuildTarget;
use barge::operations::{
    analysis_result, build_command, build_result, clean, document_result,
    generate_default_makeopts, get_git_config_answer, get_git_config_field, launch_result, get_git_project_info, get_git_user, git_branch_command,
    git_commit_command, parallel_jobs,
};
use barge::plan::generate_analyze_makefile;
use barge::project::{Project, ProjectType, Toolset};

fn texts(items: &[&str]) -> Vec<String> {
    items.iter().map(|s| s.to_string()).collect()
}

fn project(kind: ProjectType) -> Project {
    Project::new("demo", kind, "A <a@example.org>".to_string())
}

fn answered(output: &str) -> Outcome {
    Outcome::Finished { success: true, output: output.to_string() }
}

const GIB_IN_KB: u64 = 1024 * 1024;

#[test]
fn parallel_jobs_are_capped_by_processors_and_memory() {
    assert_eq!(parallel_jobs(8, 16 * GIB_IN_KB), 8);
    assert_eq!(parallel_jobs(8, 8 * GIB_IN_KB), 4);
    assert_eq!(parallel_jobs(8, 8 * GIB_IN_KB - 1), 3);
    assert_eq!(parallel_jobs(2, 64 * GIB_IN_KB), 2);
    assert_eq!(parallel_jobs(16, 4 * GIB_IN_KB), 2);
}

#[test]
fn there_is_always_one_job() {
    assert_eq!(parallel_jobs(0, 64 * GIB_IN_KB), 1);
    assert_eq!(parallel_jobs(8, GIB_IN_KB), 1);
    assert_eq!(parallel_jobs(8, 0), 1);
    assert_eq!(parallel_jobs(8, 2 * GIB_IN_KB - 1), 1);
    assert_eq!(parallel_jobs(8, 2 * GIB_IN_KB), 1);
    assert_eq!(parallel_jobs(8, 4 * GIB_IN_KB), 2);
    assert_eq!(parallel_jobs(u64::MAX, u64::MAX), u64::MAX / (2 * GIB_IN_KB));
}

#[test]
fn default_options_name_the_jobs() {
    assert_eq!(generate_default_makeopts(8, 8 * GIB_IN_KB), Ok(texts(&["-j4"])));
    assert_eq!(generate_default_makeopts(64, 256 * GIB_IN_KB), Ok(texts(&["-j64"])));
    assert_eq!(generate_default_makeopts(0, 0), Ok(texts(&["-j1"])));
}

#[test]
fn the_build_executor_reads_the_plan_from_its_input() {
    let command = build_command(&texts(&["-j4", "-k"]), "all:\n".to_string());
    assert_eq!(command.program, "make");
    assert_eq!(command.arguments, texts(&["-s", "-f", "-", "all", "-j4", "-k"]));
    assert!(command.environment.is_empty());
    assert_eq!(command.input, Some("all:\n".to_string()));
    let bare = build_command(&vec![], String::new());
    assert_eq!(bare.arguments, texts(&["-s", "-f", "-", "all"]));
}

#[test]
fn exit_status_of_the_build_executor_decides() {
    assert_eq!(build_result(&answered("")), Ok(()));
    assert_eq!(build_result(&answered("warning")), Ok(()));
    assert_eq!(
        build_result(&Outcome::Finished { success: false, output: String::new() }),
        Err(BargeError::BuildFailed)
    );
    assert_eq!(build_result(&Outcome::NotStarted), Err(BargeError::ToolInvocationError("make")));
    assert_eq!(build_result(&Outcome::Unreadable { success: true }), Ok(()));
    assert_eq!(
        build_result(&Outcome::Unreadable { success: false }),
        Err(BargeError::BuildFailed)
    );
}

#[test]
fn launched_programs_must_start() {
    let failed = Outcome::Finished { success: false, output: String::new() };
    assert_eq!(analysis_result(&answered("")), Ok(()));
    assert_eq!(analysis_result(&failed), Ok(()));
    assert_eq!(analysis_result(&Outcome::NotStarted), Err(BargeError::ToolInvocationError("make")));
    assert_eq!(launch_result(&failed, "gdb"), Ok(()));
    assert_eq!(launch_result(&Outcome::Unreadable { success: false }, "gdb"), Ok(()));
    assert_eq!(
        launch_result(&Outcome::NotStarted, "gdb"),
        Err(BargeError::ToolInvocationError("gdb"))
    );
    assert_eq!(document_result(&answered("")), Ok(()));
    assert_eq!(
        document_result(&failed),
        Err(BargeError::StepFailed("Failed to generate documentation using doxygen"))
    );
    assert_eq!(
        document_result(&Outcome::NotStarted),
        Err(BargeError::ToolInvocationError("doxygen"))
    );
}

#[test]
fn analysis_runs_its_own_rule() {
    let p = project(ProjectType::Executable);
    let command = p.analyze().unwrap();
    assert_eq!(command.program, "make");
    assert_eq!(command.arguments, texts(&["-s", "-f", "-", "analyze"]));
    assert!(command.environment.is_empty());
    assert_eq!(command.input, Some(generate_analyze_makefile(&p).unwrap()));
}

#[test]
fn only_executables_run() {
    let arguments = texts(&["--verbose", "input.txt"]);
    let p = project(ProjectType::Executable);
    let command = p.run(BuildTarget::Release, arguments.clone()).unwrap();
    assert_eq!(command.program, "build/release/demo");
    assert_eq!(command.arguments, arguments);
    assert_eq!(p.get_executable_path(BuildTarget::Debug), "build/debug/demo");
    for kind in [ProjectType::SharedLibrary, ProjectType::StaticLibrary] {
        assert_eq!(project(kind).run(BuildTarget::Release, arguments.clone()), None);
        assert_eq!(project(kind).debug(BuildTarget::Release, arguments.clone()), None);
    }
}

#[test]
fn debuggers_take_the_arguments_their_way() {
    let arguments = texts(&["-x", "1"]);
    let mut p = project(ProjectType::Executable);
    let llvm = p.debug(BuildTarget::Debug, arguments.clone()).unwrap();
    assert_eq!(llvm.program, "lldb");
    assert_eq!(llvm.arguments, texts(&["build/debug/demo", "--", "-x", "1"]));
    p.toolset = Some(Toolset::Gnu);
    let gnu = p.debug(BuildTarget::Debug, arguments).unwrap();
    assert_eq!(gnu.program, "gdb");
    assert_eq!(gnu.arguments, texts(&["--args", "build/debug/demo", "-x", "1"]));
}

#[test]
fn formatting_takes_c_and_cpp_files() {
    let mut p = project(ProjectType::Executable);
    let listing = texts(&["src/z.hpp", "src/a.c", "src/k.ld", "src/b.f90", "src/m.cpp", "src/n.h"]);
    let command = p.format(&listing);
    assert_eq!(command.program, "clang-format");
    assert_eq!(
        command.arguments,
        texts(&["-i", "--style=Google", "src/a.c", "src/m.cpp", "src/n.h", "src/z.hpp"])
    );
    p.format_style = Some("Mozilla".to_string());
    assert_eq!(p.format(&vec![]).arguments, texts(&["-i", "--style=Mozilla"]));
}

#[test]
fn documentation_is_told_name_and_version() {
    let mut p = project(ProjectType::Executable);
    p.version = "2.0.0".to_string();
    let command = p.document();
    assert_eq!(command.program, "doxygen");
    assert_eq!(command.arguments, texts(&["Doxyfile"]));
    assert_eq!(
        command.environment,
        vec![
            ("BARGE_PROJECT_NAME".to_string(), "demo".to_string()),
            ("BARGE_PROJECT_VERSION".to_string(), "2.0.0".to_string()),
        ]
    );
    assert_eq!(command.input, None);
}

#[test]
fn cleaning_removes_the_build_root() {
    assert_eq!(clean(), "build");
}

#[test]
fn author_from_version_control() {
    assert_eq!(get_git_user("A. Author\n", "a@example.org\n"), "A. Author <a@example.org>");
    assert_eq!(get_git_user("A. Author", "a@example.org"), "A. Author <a@example.org>");
    assert_eq!(get_git_user("  A \r\n", "\n"), "  A <>");
    assert_eq!(get_git_user("", ""), " <>");
}

#[test]
fn queries_to_version_control() {
    let field = get_git_config_field("user.name");
    assert_eq!(field.program, "git");
    assert_eq!(field.arguments, texts(&["config", "--get", "user.name"]));
    let commit = git_commit_command();
    assert_eq!(commit.program, "git");
    assert_eq!(commit.arguments, texts(&["rev-parse", "HEAD"]));
    let branch = git_branch_command();
    assert_eq!(branch.program, "git");
    assert_eq!(branch.arguments, texts(&["branch", "--show-current"]));
}

#[test]
fn configuration_of_version_control() {
    assert_eq!(get_git_config_answer(&answered("A. Author\n")), Ok("A. Author\n".to_string()));
    let unset = Outcome::Finished { success: false, output: String::new() };
    assert_eq!(get_git_config_answer(&unset), Ok(String::new()));
    assert_eq!(
        get_git_config_answer(&Outcome::NotStarted),
        Err(BargeError::ToolInvocationError("git"))
    );
    assert_eq!(
        get_git_config_answer(&Outcome::Unreadable { success: true }),
        Err(BargeError::Utf8Error("git"))
    );
}

#[test]
fn missing_version_control_is_no_failure() {
    let failed = Outcome::Finished { success: false, output: "fatal\n".to_string() };
    assert_eq!(
        get_git_project_info(&answered("0123abc\n"), &answered("main\n")),
        (Some("0123abc\n".to_string()), Some("main\n".to_string()))
    );
    assert_eq!(get_git_project_info(&failed, &answered("main\n")), (None, Some("main\n".to_string())));
    assert_eq!(get_git_project_info(&Outcome::NotStarted, &Outcome::NotStarted), (None, None));
    assert_eq!(
        get_git_project_info(&Outcome::Unreadable { success: true }, &answered("main\n")),
        (None, Some("main\n".to_string()))
    );
}

#[test]
fn object_files_mirror_the_sources() {
    assert_eq!(get_binary_directory(BuildTarget::Debug), "build/debug");
    assert_eq!(get_object_directory(BuildTarget::Release), "build/release/obj");
    assert_eq!(get_object_path(BuildTarget::Debug, "src/main.c"), "build/debug/obj/main.c.o");
    assert_eq!(
        get_object_path(BuildTarget::Release, "src/net/tcp.cpp"),
        "build/release/obj/net/tcp.cpp.o"
    );
    assert_eq!(get_object_path(BuildTarget::Debug, "gen/x.c"), "build/debug/obj/gen/x.c.o");
    assert_eq!(get_object_path(BuildTarget::Debug, "src/src/x.c"), "build/debug/obj/src/x.c.o");
    assert_eq!(
        get_object_paths(BuildTarget::Debug, &texts(&["src/a.c", "src/b.s"])),
        texts(&["build/debug/obj/a.c.o", "build/debug/obj/b.s.o"])
    );
}

#[test]
fn dependency_queries_name_the_object_file() {
    let query = dependency_command(BuildTarget::Release, "src/net/tcp.cpp");
    assert_eq!(query.program, "clang++");
    assert_eq!(
        query.arguments,
        texts(&[
            "-MM",
            "-MT",
            "build/release/obj/net/tcp.cpp.o",
            "-Iinclude",
            "-Isrc",
            "src/net/tcp.cpp",
        ])
    );
    let queries = dependency_commands(BuildTarget::Debug, &texts(&["src/a.c", "src/b.c"]));
    assert_eq!(queries.len(), 2);
    assert_eq!(queries[0], dependency_command(BuildTarget::Debug, "src/a.c"));
    assert_eq!(queries[1], dependency_command(BuildTarget::Debug, "src/b.c"));
    assert!(dependency_commands(BuildTarget::Debug, &vec![]).is_empty());
}

#[test]
fn dependency_lines_are_best_effort() {
    let outcomes = vec![
        answered("build/debug/obj/a.c.o: src/a.c \\\n  include/a.h\n"),
        Outcome::NotStarted,
        Outcome::Finished { success: false, output: String::new() },
        Outcome::Unreadable { success: true },
        answered("build/debug/obj/c.c.o: src/c.c\n\n"),
    ];
    let dependencies = get_dependencies_for_project(&outcomes);
    assert_eq!(
        dependencies.lines,
        "build/debug/obj/a.c.o: src/a.c \\\n  include/a.h\nbuild/debug/obj/c.c.o: src/c.c"
    );
    assert_eq!(dependencies.covered, 4);
    assert_eq!(dependencies.units, 5);
}

#[test]
fn zero_coverage_is_reported() {
    let none = get_dependencies_for_project(&vec![Outcome::NotStarted, Outcome::NotStarted]);
    assert_eq!(none.lines, "");
    assert_eq!(none.covered, 0);
    assert_eq!(none.units, 2);
    let empty = get_dependencies_for_project(&vec![]);
    assert_eq!(empty.lines, "");
    assert_eq!(empty.covered, 0);
    assert_eq!(empty.units, 0);
}

#[test]
fn building_commands() {
    let mut list: Vec<String> = vec![];
    push_text(&mut list, "a");
    push_texts(&mut list, &texts(&["b", "c"]));
    assert_eq!(list, texts(&["a", "b", "c"]));
    let mut variables: Vec<(String, String)> = vec![];
    push_pair(&mut variables, "K", "v");
    assert_eq!(variables, vec![("K".to_string(), "v".to_string())]);
    assert_eq!(
        invocation("tool", list.clone()),
        Invocation { program: "tool".to_string(), arguments: list, environment: vec![], input: None }
    );
}
