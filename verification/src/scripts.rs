//! The build step environment: what a step before or after the build is, by
//! the extension of its file, how it is run, and which variables it finds in
//! its environment.

use vstd::prelude::*;
use vstd::string::StrSliceExecFns;
use vstd::string::StringExecFns;
use crate::command::{push_pair, push_text, Invocation, InvocationView, Outcome, OutcomeView};
use crate::dependencies::{
    binary_directory,
    get_binary_directory,
    get_object_directory,
    object_directory,
};
use crate::error::BargeError;
use crate::clock::timestamp_now;
use crate::makefile::BuildTarget;
use crate::project::{get_toolset_executables, text_or, toolset_executables, Toolset};
use crate::text::{
    ends_with,
    find_last,
    last_index_of,
    lemma_last_index_of,
    same_text,
    split,
    trim,
    trimmed,
};

verus! {

/// The kind of a build step, which decides how it is run.
#[derive(Clone, Copy, Debug, PartialEq, Eq, Structural)]
pub enum BuildScriptLanguage {
    ShellScript,
    PythonScript,
    PerlScript,
    CSource,
    CppSource,
}

/// When a build step runs.
#[derive(Clone, Copy, Debug, PartialEq, Eq, Structural)]
pub enum BuildScriptKind {
    PreBuildStep,
    PostBuildStep,
}

/// What a build step is told about the build that it belongs to.
#[derive(Debug, Clone, PartialEq, Eq)]
pub struct ScriptEnvironment {
    pub target: BuildTarget,
    pub name: String,
    pub version: String,
    /// The authors, joined into one text.
    pub authors: String,
    pub description: String,
    /// The commit that is checked out, as the version control system wrote
    /// it, if it could be asked.
    pub git_commit_hash: Option<String>,
    /// The branch that is checked out, likewise.
    pub git_branch: Option<String>,
    /// When the build began.
    pub build_timestamp: String,
    pub kind: BuildScriptKind,
    pub toolset: Toolset,
    /// The C standard that a step written in C is compiled for.
    pub c_standard: String,
    /// The C++ standard that a step written in C++ is compiled for.
    pub cpp_standard: String,
    /// Whether the step is asked to write without colour.
    pub no_color: bool,
}

/// What a build step is told, as sequences of characters.
pub ghost struct ScriptEnvironmentView {
    pub target: BuildTarget,
    pub name: Seq<char>,
    pub version: Seq<char>,
    pub authors: Seq<char>,
    pub description: Seq<char>,
    pub git_commit_hash: Option<Seq<char>>,
    pub git_branch: Option<Seq<char>>,
    pub build_timestamp: Seq<char>,
    pub kind: BuildScriptKind,
    pub toolset: Toolset,
    pub c_standard: Seq<char>,
    pub cpp_standard: Seq<char>,
    pub no_color: bool,
}

impl DeepView for ScriptEnvironment {
    type V = ScriptEnvironmentView;

    open spec fn deep_view(&self) -> ScriptEnvironmentView {
        ScriptEnvironmentView {
            target: self.target,
            name: self.name@,
            version: self.version@,
            authors: self.authors@,
            description: self.description@,
            git_commit_hash: self.git_commit_hash.deep_view(),
            git_branch: self.git_branch.deep_view(),
            build_timestamp: self.build_timestamp@,
            kind: self.kind,
            toolset: self.toolset,
            c_standard: self.c_standard@,
            cpp_standard: self.cpp_standard@,
            no_color: self.no_color,
        }
    }
}

impl View for ScriptEnvironment {
    type V = ScriptEnvironmentView;

    open spec fn view(&self) -> ScriptEnvironmentView {
        self.deep_view()
    }
}

/// One command of a build step, and the failure that the step ends with
/// where the command ends with a failure status.
#[derive(Debug, Clone, PartialEq, Eq)]
pub struct ScriptCommand {
    pub invocation: Invocation,
    pub failure: BargeError,
}

/// One command of a build step, as sequences of characters.
pub ghost struct ScriptCommandView {
    pub invocation: InvocationView,
    pub failure: BargeError,
}

impl DeepView for ScriptCommand {
    type V = ScriptCommandView;

    open spec fn deep_view(&self) -> ScriptCommandView {
        ScriptCommandView { invocation: self.invocation@, failure: self.failure }
    }
}

impl View for ScriptCommand {
    type V = ScriptCommandView;

    open spec fn view(&self) -> ScriptCommandView {
        self.deep_view()
    }
}

/// How a build step is run.
#[derive(Debug, Clone, PartialEq, Eq)]
pub struct ScriptPlan {
    /// The directory that has to exist before the commands run, if any.
    pub directory: Option<String>,
    /// The file that has to be gone before the commands run, if any: what
    /// an earlier run of the step left behind.
    pub stale: Option<String>,
    /// The commands, in order. Each runs only where those before it ended
    /// with success.
    pub commands: Vec<ScriptCommand>,
}

/// How a build step is run, as sequences of characters.
pub ghost struct ScriptPlanView {
    pub directory: Option<Seq<char>>,
    pub stale: Option<Seq<char>>,
    pub commands: Seq<ScriptCommandView>,
}

impl DeepView for ScriptPlan {
    type V = ScriptPlanView;

    open spec fn deep_view(&self) -> ScriptPlanView {
        ScriptPlanView {
            directory: self.directory.deep_view(),
            stale: self.stale.deep_view(),
            commands: self.commands.deep_view(),
        }
    }
}

impl View for ScriptPlan {
    type V = ScriptPlanView;

    open spec fn view(&self) -> ScriptPlanView {
        self.deep_view()
    }
}

/// What follows when a command of a build step has ended.
#[derive(Clone, Copy, Debug, PartialEq, Eq)]
pub enum Progress {
    /// The command at this position runs next.
    Run(usize),
    /// The step is over, with this result.
    Done(Result<(), BargeError>),
}

/// The kind of step that the file extension `extension` stands for.
pub open spec fn language_of(extension: Seq<char>) -> Result<BuildScriptLanguage, BargeError> {
    if extension == "sh"@ {
        Ok(BuildScriptLanguage::ShellScript)
    } else if extension == "py"@ {
        Ok(BuildScriptLanguage::PythonScript)
    } else if extension == "pl"@ {
        Ok(BuildScriptLanguage::PerlScript)
    } else if extension == "c"@ {
        Ok(BuildScriptLanguage::CSource)
    } else if extension == "cpp"@ {
        Ok(BuildScriptLanguage::CppSource)
    } else {
        Err(BargeError::UnsupportedScriptKind)
    }
}

/// The file extension of `path`: what stands behind its last dot, and the
/// whole path where it holds no dot.
pub open spec fn extension_of(path: Seq<char>) -> Seq<char> {
    path.subrange(last_index_of(path, '.') + 1, path.len() as int)
}

/// The kind of the step at `path`: the kind that its file extension stands
/// for. A path that holds no dot has no extension, and so no kind, even
/// where its whole name reads like an extension.
pub open spec fn step_language(path: Seq<char>) -> Result<BuildScriptLanguage, BargeError> {
    if last_index_of(path, '.') < 0 {
        Err(BargeError::UnsupportedScriptKind)
    } else {
        language_of(extension_of(path))
    }
}

/// The name of a step kind, as steps are told it.
pub open spec fn kind_name(kind: BuildScriptKind) -> Seq<char> {
    match kind {
        BuildScriptKind::PreBuildStep => "prebuild"@,
        BuildScriptKind::PostBuildStep => "postbuild"@,
    }
}

/// The name of a toolset, as steps are told it.
pub open spec fn toolset_name(toolset: Toolset) -> Seq<char> {
    match toolset {
        Toolset::Llvm => "llvm"@,
        Toolset::Gnu => "gnu"@,
    }
}

/// The variables that every build step finds in its environment, as pairs
/// of name and value. `step_start` is the time at which the step begins.
pub open spec fn environment_variables(env: ScriptEnvironmentView, step_start: Seq<char>) -> Seq<
    (Seq<char>, Seq<char>),
> {
    let always = seq![
        ("BARGE_PROJECT_NAME"@, env.name),
        ("BARGE_PROJECT_AUTHORS"@, env.authors),
        ("BARGE_PROJECT_DESCRIPTION"@, env.description),
        ("BARGE_PROJECT_VERSION"@, env.version),
        ("BARGE_BUILD_TARGET"@, env.target.name()),
        ("BARGE_OBJECTS_DIR"@, object_directory(env.target)),
        ("BARGE_BINARY_DIR"@, binary_directory(env.target)),
        ("BARGE_GIT_COMMIT"@, trimmed(text_or(env.git_commit_hash, ""@))),
        ("BARGE_GIT_BRANCH"@, trimmed(text_or(env.git_branch, ""@))),
        ("BARGE_BUILD_START_TIMESTAMP"@, env.build_timestamp),
        ("BARGE_STEP_START_TIMESTAMP"@, step_start),
        ("BARGE_BUILD_STEP_KIND"@, kind_name(env.kind)),
        ("BARGE_TOOLSET"@, toolset_name(env.toolset)),
    ];
    if env.no_color {
        always.push(("NO_COLOR"@, "1"@))
    } else {
        always
    }
}

/// The command that runs an interpreted step.
pub open spec fn interpreted(
    program: Seq<char>,
    arguments: Seq<Seq<char>>,
    variables: Seq<(Seq<char>, Seq<char>)>,
    failure: &'static str,
) -> ScriptCommandView {
    ScriptCommandView {
        invocation: InvocationView {
            program,
            arguments,
            environment: variables,
            input: None::<Seq<char>>,
        },
        failure: BargeError::StepFailed(failure),
    }
}

/// The directory that holds the binaries of the compiled steps of `kind`.
pub open spec fn step_directory(kind: BuildScriptKind) -> Seq<char> {
    "build/"@ + kind_name(kind)
}

/// The binary of the compiled step `name` of `kind`.
pub open spec fn step_binary(kind: BuildScriptKind, name: Seq<char>) -> Seq<char> {
    step_directory(kind) + "/"@ + name
}

/// How a step written in C or C++ is run: it is compiled anew by
/// `compiler` for `standard`, and the binary is run with the variables.
pub open spec fn compiled_plan(
    path: Seq<char>,
    name: Seq<char>,
    compiler: Seq<char>,
    standard: Seq<char>,
    kind: BuildScriptKind,
    variables: Seq<(Seq<char>, Seq<char>)>,
) -> ScriptPlanView {
    ScriptPlanView {
        directory: Some(step_directory(kind)),
        stale: Some(step_binary(kind, name)),
        commands: seq![
            ScriptCommandView {
                invocation: InvocationView {
                    program: compiler,
                    arguments: seq!["-std="@ + standard, path, "-o"@, step_binary(kind, name)],
                    environment: Seq::<(Seq<char>, Seq<char>)>::empty(),
                    input: None::<Seq<char>>,
                },
                failure: BargeError::StepFailed("Failed to compile a custom build step binary"),
            },
            interpreted(
                step_binary(kind, name),
                Seq::<Seq<char>>::empty(),
                variables,
                "Custom build step failed",
            ),
        ],
    }
}

/// How a step that an interpreter runs is run.
pub open spec fn interpreted_plan(command: ScriptCommandView) -> ScriptPlanView {
    ScriptPlanView {
        directory: None::<Seq<char>>,
        stale: None::<Seq<char>>,
        commands: seq![command],
    }
}

/// How the step at `path` is run, or the failure where the path has no
/// extension or its extension names no kind of step. `name` names the
/// binary of a compiled step.
pub open spec fn script_plan(
    path: Seq<char>,
    name: Seq<char>,
    env: ScriptEnvironmentView,
    step_start: Seq<char>,
) -> Result<ScriptPlanView, BargeError> {
    let variables = environment_variables(env, step_start);
    match step_language(path) {
        Err(e) => Err(e),
        Ok(BuildScriptLanguage::ShellScript) => Ok(
            interpreted_plan(
                interpreted("bash"@, seq![path], variables, "Failed to execute script"),
            ),
        ),
        Ok(BuildScriptLanguage::PythonScript) => Ok(
            interpreted_plan(
                interpreted(
                    "env"@,
                    seq!["-S"@, "python3"@, path],
                    variables,
                    "Failed to execute Python script",
                ),
            ),
        ),
        Ok(BuildScriptLanguage::PerlScript) => Ok(
            interpreted_plan(
                interpreted("perl"@, seq![path], variables, "Failed to execute script"),
            ),
        ),
        Ok(BuildScriptLanguage::CSource) => Ok(
            compiled_plan(
                path,
                name,
                toolset_executables(env.toolset).0,
                env.c_standard,
                env.kind,
                variables,
            ),
        ),
        Ok(BuildScriptLanguage::CppSource) => Ok(
            compiled_plan(
                path,
                name,
                toolset_executables(env.toolset).1,
                env.cpp_standard,
                env.kind,
                variables,
            ),
        ),
    }
}

/// What follows when the command at `index` of `plan` has ended with
/// `outcome`. A command that could not be started ends the step as a tool
/// that could not be invoked, and one that ended with a failure status ends
/// it with the failure of that command. After a success the next command
/// runs, or the step is over with success where there is none. A position
/// at which the plan has no command is an invalid value.
pub open spec fn progress_after(plan: ScriptPlanView, index: int, outcome: OutcomeView) -> Progress {
    if !(0 <= index < plan.commands.len()) {
        Progress::Done(Err(BargeError::InvalidValue("No such command of a build step")))
    } else {
        match outcome {
            OutcomeView::NotStarted => Progress::Done(
                Err(BargeError::ToolInvocationError("build step")),
            ),
            OutcomeView::Finished { success, .. } | OutcomeView::Unreadable { success } => if !success {
                Progress::Done(Err(plan.commands[index].failure))
            } else if index + 1 < plan.commands.len() {
                Progress::Run((index + 1) as usize)
            } else {
                Progress::Done(Ok(()))
            },
        }
    }
}

/// No name occurs twice among the variables of a step, so that it does not
/// matter in which order they are put into its environment.
pub proof fn lemma_variable_names_differ(env: ScriptEnvironmentView, step_start: Seq<char>)
    ensures
        13 <= environment_variables(env, step_start).len() <= 14,
        forall|i: int, j: int|
            0 <= i < j < environment_variables(env, step_start).len() ==> (
            #[trigger] environment_variables(env, step_start)[i]).0 != (
            #[trigger] environment_variables(env, step_start)[j]).0,
{
    reveal_strlit("BARGE_PROJECT_NAME");
    reveal_strlit("BARGE_PROJECT_AUTHORS");
    reveal_strlit("BARGE_PROJECT_DESCRIPTION");
    reveal_strlit("BARGE_PROJECT_VERSION");
    reveal_strlit("BARGE_BUILD_TARGET");
    reveal_strlit("BARGE_OBJECTS_DIR");
    reveal_strlit("BARGE_BINARY_DIR");
    reveal_strlit("BARGE_GIT_COMMIT");
    reveal_strlit("BARGE_GIT_BRANCH");
    reveal_strlit("BARGE_BUILD_START_TIMESTAMP");
    reveal_strlit("BARGE_STEP_START_TIMESTAMP");
    reveal_strlit("BARGE_BUILD_STEP_KIND");
    reveal_strlit("BARGE_TOOLSET");
    reveal_strlit("NO_COLOR");
    let variables = environment_variables(env, step_start);
    assert(variables[0].0.len() == 18 && variables[0].0[6] == 'P');
    assert(variables[1].0.len() == 21 && variables[1].0[6] == 'P' && variables[1].0[14] == 'A');
    assert(variables[2].0.len() == 25);
    assert(variables[3].0.len() == 21 && variables[3].0[6] == 'P' && variables[3].0[14] == 'V');
    assert(variables[4].0.len() == 18 && variables[4].0[6] == 'B');
    assert(variables[5].0.len() == 17);
    assert(variables[6].0.len() == 16 && variables[6].0[6] == 'B');
    assert(variables[7].0.len() == 16 && variables[7].0[6] == 'G' && variables[7].0[10] == 'C');
    assert(variables[8].0.len() == 16 && variables[8].0[6] == 'G' && variables[8].0[10] == 'B');
    assert(variables[9].0.len() == 27);
    assert(variables[10].0.len() == 26);
    assert(variables[11].0.len() == 21 && variables[11].0[6] == 'B');
    assert(variables[12].0.len() == 13);
    if env.no_color {
        assert(variables[13].0.len() == 8);
    }
}

/// The file extension of a path is the last of the pieces that its dots
/// part it into.
pub proof fn lemma_extension_is_last_piece(path: Seq<char>)
    ensures
        split(path, '.').len() > 0,
        extension_of(path) == split(path, '.').last(),
    decreases path.len(),
{
    if path.len() == 0 {
        assert(extension_of(path) =~= Seq::<char>::empty());
    } else {
        let rest = path.drop_last();
        lemma_extension_is_last_piece(rest);
        lemma_last_index_of(rest, '.');
        lemma_last_index_of(path, '.');
        if path.last() == '.' {
            assert(extension_of(path) =~= Seq::<char>::empty());
        } else {
            assert(extension_of(path) =~= extension_of(rest).push(path.last()));
        }
    }
}

/// A path has the extension `extension`, which holds no dot, exactly when
/// it ends in a dot and `extension`.
proof fn lemma_extension_by_suffix(path: Seq<char>, extension: Seq<char>)
    requires
        forall|i: int| 0 <= i < extension.len() ==> #[trigger] extension[i] != '.',
    ensures
        (last_index_of(path, '.') >= 0 && extension_of(path) == extension) <==> ends_with(
            path,
            seq!['.'] + extension,
        ),
{
    let suffix = seq!['.'] + extension;
    let dot = last_index_of(path, '.');
    let n = path.len() as int;
    let m = extension.len() as int;
    lemma_last_index_of(path, '.');
    if dot >= 0 && extension_of(path) == extension {
        assert(n - dot - 1 == m);
        let end = path.subrange(n - suffix.len(), n);
        assert forall|j: int| 0 <= j < suffix.len() implies #[trigger] end[j] == suffix[j] by {
            if j > 0 {
                assert(extension_of(path)[j - 1] == path[dot + 1 + (j - 1)]);
            }
        }
        assert(end =~= suffix);
    }
    if ends_with(path, suffix) {
        let at = n - suffix.len();
        let end = path.subrange(at, n);
        assert(end[0] == suffix[0]);
        assert(path[at] == '.');
        assert forall|j: int| at < j < n implies path[j] != '.' by {
            assert(end[j - at] == suffix[j - at]);
            assert(suffix[j - at] == extension[j - at - 1]);
        }
        assert(dot == at);
        let found = extension_of(path);
        assert forall|j: int| 0 <= j < m implies #[trigger] found[j] == extension[j] by {
            assert(end[j + 1] == suffix[j + 1]);
        }
        assert(found =~= extension);
    }
}

/// A step has a kind exactly where its path ends in one of the five
/// extensions, and then the kind of that extension; a path that ends
/// otherwise is refused as an unsupported kind.
pub proof fn lemma_kind_by_suffix(path: Seq<char>)
    ensures
        step_language(path) == if ends_with(path, ".sh"@) {
            Ok::<BuildScriptLanguage, BargeError>(BuildScriptLanguage::ShellScript)
        } else if ends_with(path, ".py"@) {
            Ok(BuildScriptLanguage::PythonScript)
        } else if ends_with(path, ".pl"@) {
            Ok(BuildScriptLanguage::PerlScript)
        } else if ends_with(path, ".c"@) {
            Ok(BuildScriptLanguage::CSource)
        } else if ends_with(path, ".cpp"@) {
            Ok(BuildScriptLanguage::CppSource)
        } else {
            Err(BargeError::UnsupportedScriptKind)
        },
{
    reveal_strlit("sh");
    reveal_strlit("py");
    reveal_strlit("pl");
    reveal_strlit("c");
    reveal_strlit("cpp");
    reveal_strlit(".sh");
    reveal_strlit(".py");
    reveal_strlit(".pl");
    reveal_strlit(".c");
    reveal_strlit(".cpp");
    assert(".sh"@ =~= seq!['.'] + "sh"@);
    assert(".py"@ =~= seq!['.'] + "py"@);
    assert(".pl"@ =~= seq!['.'] + "pl"@);
    assert(".c"@ =~= seq!['.'] + "c"@);
    assert(".cpp"@ =~= seq!['.'] + "cpp"@);
    assert("sh"@.len() == 2 && "py"@.len() == 2 && "pl"@.len() == 2);
    assert("c"@.len() == 1 && "cpp"@.len() == 3);
    assert("sh"@[0] == 's' && "py"@[0] == 'p' && "py"@[1] == 'y' && "pl"@[1] == 'l');
    lemma_extension_by_suffix(path, "sh"@);
    lemma_extension_by_suffix(path, "py"@);
    lemma_extension_by_suffix(path, "pl"@);
    lemma_extension_by_suffix(path, "c"@);
    lemma_extension_by_suffix(path, "cpp"@);
}

impl BuildScriptLanguage {
    /// The kind of step that the file extension `extension` stands for.
    pub fn try_from(extension: &str) -> (r: Result<BuildScriptLanguage, BargeError>)
        ensures
            r == language_of(extension@),
    {
        if same_text(extension, "sh") {
            Ok(BuildScriptLanguage::ShellScript)
        } else if same_text(extension, "py") {
            Ok(BuildScriptLanguage::PythonScript)
        } else if same_text(extension, "pl") {
            Ok(BuildScriptLanguage::PerlScript)
        } else if same_text(extension, "c") {
            Ok(BuildScriptLanguage::CSource)
        } else if same_text(extension, "cpp") {
            Ok(BuildScriptLanguage::CppSource)
        } else {
            Err(BargeError::UnsupportedScriptKind)
        }
    }
}

impl BuildScriptKind {
    /// The name of the step kind, as steps are told it.
    pub fn as_str(&self) -> (r: &'static str)
        ensures
            r@ == kind_name(*self),
    {
        match self {
            BuildScriptKind::PreBuildStep => "prebuild",
            BuildScriptKind::PostBuildStep => "postbuild",
        }
    }
}

/// The name of `toolset`, as steps are told it.
pub fn get_toolset_name(toolset: Toolset) -> (r: &'static str)
    ensures
        r@ == toolset_name(toolset),
{
    match toolset {
        Toolset::Llvm => "llvm",
        Toolset::Gnu => "gnu",
    }
}

/// The file extension of `path`: what stands behind its last dot, and the
/// whole path where it holds no dot. Every path has one.
pub fn get_file_extension(path: &str) -> (r: Result<&str, BargeError>)
    ensures
        r matches Ok(extension) && extension@ == extension_of(path@),
{
    let length: usize = path.unicode_len();
    proof {
        lemma_last_index_of(path@, '.');
    }
    match find_last(path, '.') {
        Some(dot) => Ok(path.substring_char(dot + 1, length)),
        None => {
            let whole = path.substring_char(0, length);
            Ok(whole)
        },
    }
}

/// The variables that a build step finds in its environment when it begins
/// at `step_start`.
pub fn script_variables(env: &ScriptEnvironment, step_start: &str) -> (r: Vec<(String, String)>)
    ensures
        r.deep_view() == environment_variables(env@, step_start@),
{
    let mut variables: Vec<(String, String)> = Vec::new();
    let objects = get_object_directory(env.target);
    let binaries = get_binary_directory(env.target);
    let commit: &str = match &env.git_commit_hash {
        Some(text) => trim(text.as_str()),
        None => trim(""),
    };
    let branch: &str = match &env.git_branch {
        Some(text) => trim(text.as_str()),
        None => trim(""),
    };
    push_pair(&mut variables, "BARGE_PROJECT_NAME", env.name.as_str());
    push_pair(&mut variables, "BARGE_PROJECT_AUTHORS", env.authors.as_str());
    push_pair(&mut variables, "BARGE_PROJECT_DESCRIPTION", env.description.as_str());
    push_pair(&mut variables, "BARGE_PROJECT_VERSION", env.version.as_str());
    push_pair(&mut variables, "BARGE_BUILD_TARGET", env.target.as_str());
    push_pair(&mut variables, "BARGE_OBJECTS_DIR", objects.as_str());
    push_pair(&mut variables, "BARGE_BINARY_DIR", binaries.as_str());
    push_pair(&mut variables, "BARGE_GIT_COMMIT", commit);
    push_pair(&mut variables, "BARGE_GIT_BRANCH", branch);
    push_pair(&mut variables, "BARGE_BUILD_START_TIMESTAMP", env.build_timestamp.as_str());
    push_pair(&mut variables, "BARGE_STEP_START_TIMESTAMP", step_start);
    push_pair(&mut variables, "BARGE_BUILD_STEP_KIND", env.kind.as_str());
    push_pair(&mut variables, "BARGE_TOOLSET", get_toolset_name(env.toolset));
    proof {
        assert(variables.deep_view() =~= seq![
            ("BARGE_PROJECT_NAME"@, env@.name),
            ("BARGE_PROJECT_AUTHORS"@, env@.authors),
            ("BARGE_PROJECT_DESCRIPTION"@, env@.description),
            ("BARGE_PROJECT_VERSION"@, env@.version),
            ("BARGE_BUILD_TARGET"@, env@.target.name()),
            ("BARGE_OBJECTS_DIR"@, object_directory(env@.target)),
            ("BARGE_BINARY_DIR"@, binary_directory(env@.target)),
            ("BARGE_GIT_COMMIT"@, trimmed(text_or(env@.git_commit_hash, ""@))),
            ("BARGE_GIT_BRANCH"@, trimmed(text_or(env@.git_branch, ""@))),
            ("BARGE_BUILD_START_TIMESTAMP"@, env@.build_timestamp),
            ("BARGE_STEP_START_TIMESTAMP"@, step_start@),
            ("BARGE_BUILD_STEP_KIND"@, kind_name(env@.kind)),
            ("BARGE_TOOLSET"@, toolset_name(env@.toolset)),
        ]);
    }
    if env.no_color {
        push_pair(&mut variables, "NO_COLOR", "1");
    }
    variables
}

/// The command that runs the step at `path` under `interpreter`.
pub fn execute_script_plain(
    path: &str,
    interpreter: &str,
    variables: Vec<(String, String)>,
) -> (r: ScriptPlan)
    ensures
        r@ == interpreted_plan(
            interpreted(
                interpreter@,
                seq![path@],
                variables.deep_view(),
                "Failed to execute script",
            ),
        ),
{
    let mut arguments: Vec<String> = Vec::new();
    push_text(&mut arguments, path);
    assert(arguments.deep_view() =~= seq![path@]);
    let command = ScriptCommand {
        invocation: Invocation {
            program: interpreter.to_owned(),
            arguments,
            environment: variables,
            input: None,
        },
        failure: BargeError::StepFailed("Failed to execute script"),
    };
    let ghost view = command@;
    let mut commands: Vec<ScriptCommand> = Vec::new();
    commands.push(command);
    assert(commands.deep_view() =~= seq![view]);
    ScriptPlan { directory: None, stale: None, commands }
}

/// The command that runs the step at `path` under `interpreter`, looked up
/// through the environment so that the first line of the step can name
/// another interpreter.
pub fn execute_script_env(
    path: &str,
    interpreter: &str,
    variables: Vec<(String, String)>,
) -> (r: ScriptPlan)
    ensures
        r@ == interpreted_plan(
            interpreted(
                "env"@,
                seq!["-S"@, interpreter@, path@],
                variables.deep_view(),
                "Failed to execute Python script",
            ),
        ),
{
    let mut arguments: Vec<String> = Vec::new();
    push_text(&mut arguments, "-S");
    push_text(&mut arguments, interpreter);
    push_text(&mut arguments, path);
    assert(arguments.deep_view() =~= seq!["-S"@, interpreter@, path@]);
    let command = ScriptCommand {
        invocation: Invocation {
            program: "env".to_owned(),
            arguments,
            environment: variables,
            input: None,
        },
        failure: BargeError::StepFailed("Failed to execute Python script"),
    };
    let ghost view = command@;
    let mut commands: Vec<ScriptCommand> = Vec::new();
    commands.push(command);
    assert(commands.deep_view() =~= seq![view]);
    ScriptPlan { directory: None, stale: None, commands }
}

/// The commands that compile the step at `path` and run its binary.
pub fn execute_c_cpp_source(
    path: &str,
    name: &str,
    compiler: &str,
    standard: &str,
    kind: BuildScriptKind,
    variables: Vec<(String, String)>,
) -> (r: ScriptPlan)
    ensures
        r@ == compiled_plan(path@, name@, compiler@, standard@, kind, variables.deep_view()),
{
    let mut directory = "build/".to_owned();
    directory.append(kind.as_str());
    let mut binary = directory.clone();
    binary.append("/");
    binary.append(name);
    let mut flag = "-std=".to_owned();
    flag.append(standard);

    let mut arguments: Vec<String> = Vec::new();
    push_text(&mut arguments, flag.as_str());
    push_text(&mut arguments, path);
    push_text(&mut arguments, "-o");
    push_text(&mut arguments, binary.as_str());
    assert(arguments.deep_view() =~= seq![
        "-std="@ + standard@,
        path@,
        "-o"@,
        step_binary(kind, name@),
    ]);
    let compile = ScriptCommand {
        invocation: Invocation {
            program: compiler.to_owned(),
            arguments,
            environment: Vec::new(),
            input: None,
        },
        failure: BargeError::StepFailed("Failed to compile a custom build step binary"),
    };
    let run = ScriptCommand {
        invocation: Invocation {
            program: binary.clone(),
            arguments: Vec::new(),
            environment: variables,
            input: None,
        },
        failure: BargeError::StepFailed("Custom build step failed"),
    };
    proof {
        assert(compile@.invocation.environment =~= Seq::<(Seq<char>, Seq<char>)>::empty());
        assert(run@.invocation.arguments =~= Seq::<Seq<char>>::empty());
    }
    let ghost views = seq![compile@, run@];
    let mut commands: Vec<ScriptCommand> = Vec::new();
    commands.push(compile);
    commands.push(run);
    assert(commands.deep_view() =~= views);
    ScriptPlan { directory: Some(directory), stale: Some(binary), commands }
}

/// The kind of the step at `path`, by its file extension. Only a path that
/// ends in `.sh`, `.py`, `.pl`, `.c` or `.cpp` has one; every other path,
/// and so every path without a dot, is refused as an unsupported kind.
pub fn step_kind(path: &str) -> (r: Result<BuildScriptLanguage, BargeError>)
    ensures
        r == step_language(path@),
{
    match find_last(path, '.') {
        None => Err(BargeError::UnsupportedScriptKind),
        Some(_) => {
            match get_file_extension(path) {
                Ok(extension) => BuildScriptLanguage::try_from(extension),
                Err(e) => Err(e),
            }
        },
    }
}

/// How the step at `path` is run when it begins at `step_start`. `name`
/// names the binary of a compiled step.
pub fn plan_script(path: &str, name: &str, env: &ScriptEnvironment, step_start: &str) -> (r: Result<
    ScriptPlan,
    BargeError,
>)
    ensures
        match r {
            Ok(plan) => script_plan(path@, name@, env@, step_start@) == Ok::<
                ScriptPlanView,
                BargeError,
            >(plan@),
            Err(e) => script_plan(path@, name@, env@, step_start@) == Err::<
                ScriptPlanView,
                BargeError,
            >(e),
        },
{
    let language = match step_kind(path) {
        Ok(language) => language,
        Err(e) => {
            return Err(e);
        },
    };
    let (cc, cxx, _) = get_toolset_executables(&env.toolset);
    let variables = script_variables(env, step_start);
    match language {
        BuildScriptLanguage::ShellScript => Ok(execute_script_plain(path, "bash", variables)),
        BuildScriptLanguage::PythonScript => Ok(execute_script_env(path, "python3", variables)),
        BuildScriptLanguage::PerlScript => Ok(execute_script_plain(path, "perl", variables)),
        BuildScriptLanguage::CSource => Ok(
            execute_c_cpp_source(path, name, cc, env.c_standard.as_str(), env.kind, variables),
        ),
        BuildScriptLanguage::CppSource => Ok(
            execute_c_cpp_source(path, name, cxx, env.cpp_standard.as_str(), env.kind, variables),
        ),
    }
}

/// The view of what planning a step gave.
pub open spec fn planned(result: Result<ScriptPlan, BargeError>) -> Result<
    ScriptPlanView,
    BargeError,
> {
    match result {
        Ok(plan) => Ok(plan@),
        Err(e) => Err(e),
    }
}

/// Whether `variables` are the variables of a step that begins at
/// `step_start`.
pub open spec fn variables_at(
    variables: Seq<(Seq<char>, Seq<char>)>,
    env: ScriptEnvironmentView,
    step_start: Seq<char>,
) -> bool {
    variables == environment_variables(env, step_start)
}

/// Whether `result` is how the step at `path` is run when it begins at
/// `step_start`.
pub open spec fn planned_at(
    result: Result<ScriptPlanView, BargeError>,
    path: Seq<char>,
    name: Seq<char>,
    env: ScriptEnvironmentView,
    step_start: Seq<char>,
) -> bool {
    result == script_plan(path, name, env, step_start)
}

/// The variables that a build step finds in its environment when it begins
/// now. The time of its beginning is read from the clock of the machine:
/// the variables are those of [`script_variables`] for some time.
pub fn unpack_script_environment(env: &ScriptEnvironment) -> (r: Vec<(String, String)>)
    ensures
        exists|step_start: Seq<char>| variables_at(r.deep_view(), env@, step_start),
{
    let now = timestamp_now();
    let variables = script_variables(env, now.as_str());
    assert(variables_at(variables.deep_view(), env@, now@));
    variables
}

/// How the step at `path` is run when it begins now: the plan of
/// [`plan_script`] for some time of beginning. Whether there is a plan does
/// not depend on the time: the step is refused exactly where its path holds
/// no dot or its extension names no kind of step.
pub fn execute_script(path: &str, name: &str, env: &ScriptEnvironment) -> (r: Result<
    ScriptPlan,
    BargeError,
>)
    ensures
        exists|step_start: Seq<char>| planned_at(planned(r), path@, name@, env@, step_start),
        r is Err <==> step_language(path@) is Err,
        r is Err <==> (last_index_of(path@, '.') < 0 || language_of(extension_of(path@)) is Err),
        r matches Err(e) ==> e == BargeError::UnsupportedScriptKind,
{
    let now = timestamp_now();
    let plan = plan_script(path, name, env, now.as_str());
    assert(planned_at(planned(plan), path@, name@, env@, now@));
    plan
}

impl ScriptPlan {
    /// What follows when the command at `index` has ended with `outcome`:
    /// the next command where it ended with success and is not the last,
    /// and the end of the step otherwise.
    pub fn after(&self, index: usize, outcome: &Outcome) -> (r: Progress)
        ensures
            r == progress_after(self@, index as int, outcome@),
    {
        if index >= self.commands.len() {
            return Progress::Done(
                Err(BargeError::InvalidValue("No such command of a build step")),
            );
        }
        match outcome {
            Outcome::NotStarted => Progress::Done(
                Err(BargeError::ToolInvocationError("build step")),
            ),
            Outcome::Finished { success, .. } | Outcome::Unreadable { success } => {
                if !*success {
                    Progress::Done(Err(self.commands[index].failure))
                } else if index + 1 < self.commands.len() {
                    Progress::Run(index + 1)
                } else {
                    Progress::Done(Ok(()))
                }
            },
        }
    }
}

} // verus!
