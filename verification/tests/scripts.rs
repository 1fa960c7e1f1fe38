use barge::command::Outcome;
use barge::error::BargeError;
use barge::makefile::BuildTarget;
use barge::project::Toolset;
use barge::scripts::{
    execute_c_cpp_source, execute_script, execute_script_env, execute_script_plain,
    get_file_extension, get_toolset_name, plan_script, script_variables, step_kind,
    unpack_script_environment, BuildScriptKind, BuildScriptLanguage, Progress, ScriptEnvironment,
    ScriptPlan,
};

fn texts(items: &[&str]) -> Vec<String> {
    items.iter().map(|s| s.to_string()).collect()
}

fn pairs(items: &[(&str, &str)]) -> Vec<(String, String)> {
    items.iter().map(|p| (p.0.to_string(), p.1.to_string())).collect()
}

fn environment() -> ScriptEnvironment {
    ScriptEnvironment {
        target: BuildTarget::Release,
        name: "demo".to_string(),
        version: "1.2.3".to_string(),
        authors: "A <a@example.org>, B <b@example.org>".to_string(),
        description: "A demonstration".to_string(),
        git_commit_hash: Some("0123abc\n".to_string()),
        git_branch: Some("main\n".to_string()),
        build_timestamp: "2024-05-06T07:08:09+02:00".to_string(),
        kind: BuildScriptKind::PreBuildStep,
        toolset: Toolset::Gnu,
        c_standard: "c99".to_string(),
        cpp_standard: "c++20".to_string(),
        no_color: false,
    }
}

fn expected_variables(step_start: &str) -> Vec<(String, String)> {
    pairs(&[
        ("BARGE_PROJECT_NAME", "demo"),
        ("BARGE_PROJECT_AUTHORS", "A <a@example.org>, B <b@example.org>"),
        ("BARGE_PROJECT_DESCRIPTION", "A demonstration"),
        ("BARGE_PROJECT_VERSION", "1.2.3"),
        ("BARGE_BUILD_TARGET", "release"),
        ("BARGE_OBJECTS_DIR", "build/release/obj"),
        ("BARGE_BINARY_DIR", "build/release"),
        ("BARGE_GIT_COMMIT", "0123abc"),
        ("BARGE_GIT_BRANCH", "main"),
        ("BARGE_BUILD_START_TIMESTAMP", "2024-05-06T07:08:09+02:00"),
        ("BARGE_STEP_START_TIMESTAMP", step_start),
        ("BARGE_BUILD_STEP_KIND", "prebuild"),
        ("BARGE_TOOLSET", "gnu"),
    ])
}

fn looks_like_rfc3339(text: &str) -> bool {
    let bytes = text.as_bytes();
    bytes.len() >= 20
        && bytes[..4].iter().all(|b| b.is_ascii_digit())
        && bytes[4] == b'-'
        && bytes[7] == b'-'
        && bytes[10] == b'T'
        && bytes[13] == b':'
        && bytes[16] == b':'
        && (text.ends_with('Z') || bytes[bytes.len() - 3] == b':')
}

#[test]
fn script_kind_dispatch() {
    assert_eq!(BuildScriptLanguage::try_from("sh"), Ok(BuildScriptLanguage::ShellScript));
    assert_eq!(BuildScriptLanguage::try_from("py"), Ok(BuildScriptLanguage::PythonScript));
    assert_eq!(BuildScriptLanguage::try_from("pl"), Ok(BuildScriptLanguage::PerlScript));
    assert_eq!(BuildScriptLanguage::try_from("c"), Ok(BuildScriptLanguage::CSource));
    assert_eq!(BuildScriptLanguage::try_from("cpp"), Ok(BuildScriptLanguage::CppSource));
    for extension in ["", "rb", "SH", "Py", "cc", "cxx", "h", "sh ", "bash", "tools/gen"] {
        assert_eq!(
            BuildScriptLanguage::try_from(extension),
            Err(BargeError::UnsupportedScriptKind)
        );
    }
}

#[test]
fn file_extensions() {
    assert_eq!(get_file_extension("tools/gen.py"), Ok("py"));
    assert_eq!(get_file_extension("archive.tar.gz"), Ok("gz"));
    assert_eq!(get_file_extension("Makefile"), Ok("Makefile"));
    assert_eq!(get_file_extension(""), Ok(""));
    assert_eq!(get_file_extension("trailing."), Ok(""));
    assert_eq!(get_file_extension(".hidden"), Ok("hidden"));
    assert_eq!(get_file_extension("a.b/c"), Ok("b/c"));
}

#[test]
fn file_extension_is_the_last_piece_between_dots() {
    for path in ["", "a", "a.b", "a.b.c", ".", "..", "a.", ".a", "dir.d/file"] {
        assert_eq!(get_file_extension(path), Ok(path.split('.').last().unwrap()));
    }
}

#[test]
fn names_told_to_steps() {
    assert_eq!(BuildScriptKind::PreBuildStep.as_str(), "prebuild");
    assert_eq!(BuildScriptKind::PostBuildStep.as_str(), "postbuild");
    assert_eq!(get_toolset_name(Toolset::Llvm), "llvm");
    assert_eq!(get_toolset_name(Toolset::Gnu), "gnu");
}

#[test]
fn variables_of_a_step() {
    let env = environment();
    assert_eq!(
        script_variables(&env, "2024-05-06T07:08:10+02:00"),
        expected_variables("2024-05-06T07:08:10+02:00")
    );
}

#[test]
fn variables_without_version_control_and_colour() {
    let mut env = environment();
    env.git_commit_hash = None;
    env.git_branch = None;
    env.no_color = true;
    env.kind = BuildScriptKind::PostBuildStep;
    env.toolset = Toolset::Llvm;
    env.target = BuildTarget::Debug;
    let variables = script_variables(&env, "now");
    let value = |name: &str| -> String {
        let found: Vec<&(String, String)> = variables.iter().filter(|v| v.0 == name).collect();
        assert_eq!(found.len(), 1);
        found[0].1.clone()
    };
    assert_eq!(variables.len(), 14);
    assert_eq!(value("BARGE_GIT_COMMIT"), "");
    assert_eq!(value("BARGE_GIT_BRANCH"), "");
    assert_eq!(value("NO_COLOR"), "1");
    assert_eq!(value("BARGE_BUILD_STEP_KIND"), "postbuild");
    assert_eq!(value("BARGE_TOOLSET"), "llvm");
    assert_eq!(value("BARGE_BUILD_TARGET"), "debug");
    assert_eq!(value("BARGE_OBJECTS_DIR"), "build/debug/obj");
    assert_eq!(value("BARGE_BINARY_DIR"), "build/debug");
    assert_eq!(value("BARGE_STEP_START_TIMESTAMP"), "now");
}

#[test]
fn variable_names_occur_once() {
    let mut env = environment();
    env.no_color = true;
    let variables = script_variables(&env, "now");
    for (i, a) in variables.iter().enumerate() {
        for b in variables.iter().skip(i + 1) {
            assert_ne!(a.0, b.0);
        }
    }
}

#[test]
fn step_clock_is_read() {
    let env = environment();
    let variables = unpack_script_environment(&env);
    assert_eq!(variables.len(), 13);
    let start = variables[10].1.clone();
    assert_eq!(variables[10].0, "BARGE_STEP_START_TIMESTAMP");
    assert!(looks_like_rfc3339(&start));
    assert_eq!(variables, expected_variables(&start));
}

#[test]
fn shell_and_perl_steps_run_under_their_interpreter() {
    let env = environment();
    for (path, interpreter) in [("tools/gen.sh", "bash"), ("tools/gen.pl", "perl")] {
        let plan = plan_script(path, "prebuild", &env, "t").unwrap();
        assert_eq!(plan.directory, None);
        assert_eq!(plan.stale, None);
        assert_eq!(plan.commands.len(), 1);
        let command = &plan.commands[0];
        assert_eq!(command.invocation.program, interpreter);
        assert_eq!(command.invocation.arguments, texts(&[path]));
        assert_eq!(command.invocation.environment, expected_variables("t"));
        assert_eq!(command.invocation.input, None);
        assert_eq!(command.failure, BargeError::StepFailed("Failed to execute script"));
        assert_eq!(plan, execute_script_plain(path, interpreter, expected_variables("t")));
    }
}

#[test]
fn python_steps_run_through_the_environment() {
    let env = environment();
    let plan = plan_script("tools/gen.py", "prebuild", &env, "t").unwrap();
    assert_eq!(plan.directory, None);
    assert_eq!(plan.stale, None);
    assert_eq!(plan.commands.len(), 1);
    let command = &plan.commands[0];
    assert_eq!(command.invocation.program, "env");
    assert_eq!(command.invocation.arguments, texts(&["-S", "python3", "tools/gen.py"]));
    assert_eq!(command.invocation.environment, expected_variables("t"));
    assert_eq!(command.failure, BargeError::StepFailed("Failed to execute Python script"));
    assert_eq!(plan, execute_script_env("tools/gen.py", "python3", expected_variables("t")));
}

#[test]
fn c_steps_are_compiled_and_run() {
    let env = environment();
    let plan = plan_script("tools/gen.c", "prebuild", &env, "t").unwrap();
    assert_eq!(plan.directory, Some("build/prebuild".to_string()));
    assert_eq!(plan.stale, Some("build/prebuild/prebuild".to_string()));
    assert_eq!(plan.commands.len(), 2);
    let compile = &plan.commands[0];
    assert_eq!(compile.invocation.program, "gcc");
    assert_eq!(
        compile.invocation.arguments,
        texts(&["-std=c99", "tools/gen.c", "-o", "build/prebuild/prebuild"])
    );
    assert!(compile.invocation.environment.is_empty());
    assert_eq!(
        compile.failure,
        BargeError::StepFailed("Failed to compile a custom build step binary")
    );
    let run = &plan.commands[1];
    assert_eq!(run.invocation.program, "build/prebuild/prebuild");
    assert!(run.invocation.arguments.is_empty());
    assert_eq!(run.invocation.environment, expected_variables("t"));
    assert_eq!(run.failure, BargeError::StepFailed("Custom build step failed"));
}

#[test]
fn cpp_steps_use_the_cpp_compiler_of_the_toolset() {
    let mut env = environment();
    env.toolset = Toolset::Llvm;
    env.kind = BuildScriptKind::PostBuildStep;
    let plan = plan_script("tools/pack.cpp", "postbuild", &env, "t").unwrap();
    assert_eq!(plan.directory, Some("build/postbuild".to_string()));
    assert_eq!(plan.stale, Some("build/postbuild/postbuild".to_string()));
    assert_eq!(plan.commands[0].invocation.program, "clang++");
    assert_eq!(
        plan.commands[0].invocation.arguments,
        texts(&["-std=c++20", "tools/pack.cpp", "-o", "build/postbuild/postbuild"])
    );
    assert_eq!(plan.commands[1].invocation.program, "build/postbuild/postbuild");
    let direct = execute_c_cpp_source(
        "tools/pack.cpp",
        "postbuild",
        "clang++",
        "c++20",
        BuildScriptKind::PostBuildStep,
        script_variables(&env, "t"),
    );
    assert_eq!(plan, direct);
}

#[test]
fn a_step_has_the_kind_of_its_extension() {
    assert_eq!(step_kind("tools/gen.sh"), Ok(BuildScriptLanguage::ShellScript));
    assert_eq!(step_kind("gen.py"), Ok(BuildScriptLanguage::PythonScript));
    assert_eq!(step_kind("a.b.pl"), Ok(BuildScriptLanguage::PerlScript));
    assert_eq!(step_kind("x.c"), Ok(BuildScriptLanguage::CSource));
    assert_eq!(step_kind("x.cpp"), Ok(BuildScriptLanguage::CppSource));
    assert_eq!(step_kind(".sh"), Ok(BuildScriptLanguage::ShellScript));
    for path in ["x.rb", "x.sh.bak", "x.", ".", "x.SH", "dir.d/sh", "x.cc"] {
        assert_eq!(step_kind(path), Err(BargeError::UnsupportedScriptKind));
    }
}

#[test]
fn a_step_without_an_extension_has_no_kind() {
    let env = environment();
    for path in ["sh", "py", "pl", "c", "cpp", "tools/sh", "Makefile", ""] {
        assert_eq!(step_kind(path), Err(BargeError::UnsupportedScriptKind));
        assert_eq!(plan_script(path, "prebuild", &env, "t"), Err(BargeError::UnsupportedScriptKind));
        assert_eq!(execute_script(path, "prebuild", &env), Err(BargeError::UnsupportedScriptKind));
    }
}

#[test]
fn unsupported_steps_are_refused() {
    let env = environment();
    for path in ["tools/gen.rb", "tools/gen", "tools/gen.SH", "", "tools/gen.sh.bak"] {
        assert_eq!(plan_script(path, "prebuild", &env, "t"), Err(BargeError::UnsupportedScriptKind));
        assert_eq!(execute_script(path, "prebuild", &env), Err(BargeError::UnsupportedScriptKind));
    }
}

#[test]
fn steps_begin_now() {
    let env = environment();
    let plan = execute_script("tools/gen.sh", "prebuild", &env).unwrap();
    let start = plan.commands[0].invocation.environment[10].1.clone();
    assert!(looks_like_rfc3339(&start));
    assert_eq!(plan, plan_script("tools/gen.sh", "prebuild", &env, &start).unwrap());
}

#[test]
fn a_step_stops_at_its_first_failure() {
    let env = environment();
    let plan: ScriptPlan = plan_script("tools/gen.c", "prebuild", &env, "t").unwrap();
    let passed = Outcome::Finished { success: true, output: String::new() };
    let failed = Outcome::Finished { success: false, output: String::new() };
    assert_eq!(plan.after(0, &passed), Progress::Run(1));
    assert_eq!(plan.after(1, &passed), Progress::Done(Ok(())));
    assert_eq!(
        plan.after(0, &failed),
        Progress::Done(Err(BargeError::StepFailed("Failed to compile a custom build step binary")))
    );
    assert_eq!(
        plan.after(1, &failed),
        Progress::Done(Err(BargeError::StepFailed("Custom build step failed")))
    );
    assert_eq!(
        plan.after(0, &Outcome::NotStarted),
        Progress::Done(Err(BargeError::ToolInvocationError("build step")))
    );
    assert_eq!(plan.after(0, &Outcome::Unreadable { success: true }), Progress::Run(1));
    assert_eq!(
        plan.after(1, &Outcome::Unreadable { success: false }),
        Progress::Done(Err(BargeError::StepFailed("Custom build step failed")))
    );
    for index in [2, 3, usize::MAX] {
        for outcome in [&passed, &failed, &Outcome::NotStarted] {
            assert_eq!(
                plan.after(index, outcome),
                Progress::Done(Err(BargeError::InvalidValue("No such command of a build step")))
            );
        }
    }
    let script = plan_script("tools/gen.sh", "prebuild", &env, "t").unwrap();
    assert_eq!(script.after(0, &passed), Progress::Done(Ok(())));
    assert_eq!(
        script.after(0, &failed),
        Progress::Done(Err(BargeError::StepFailed("Failed to execute script")))
    );
}
