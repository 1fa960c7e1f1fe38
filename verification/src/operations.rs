//! The commands of the operations on a project: building, analysing,
//! running, debugging, formatting and documenting it, and the queries that
//! tell the library about the user and the checkout.

use vstd::prelude::*;
use vstd::string::StringExecFns;
use crate::command::{
    invocation,
    plain_invocation,
    push_pair,
    push_text,
    push_texts,
    Invocation,
    InvocationView,
    Outcome,
    OutcomeView,
};
use crate::dependencies::{binary_directory, get_binary_directory};
use crate::error::BargeError;
use crate::makefile::{rendered, BuildTarget};
use crate::plan::{analysis_plan, generate_analyze_makefile};
use crate::project::{
    get_debugger,
    toolset_debugger,
    Project,
    ProjectType,
    ProjectView,
    Toolset,
};
use crate::sources::{collect_source_files, discovered, CollectSourceFilesMode};
use crate::text::{decimal, decimal_text, split, split_on, trim_end, trimmed_end};

verus! {

/// The memory that one parallel job of the build is assumed to need, in
/// kilobytes: two gigabytes.
pub open spec fn memory_per_job() -> nat {
    2_097_152
}

/// The number of parallel jobs of a build on a host with `cores`
/// processors and `available` kilobytes of memory that is free to be used:
/// one job for each processor, as far as the available memory gives each
/// job its share, and one job at least.
pub open spec fn jobs_for(cores: nat, available: nat) -> nat {
    let by_memory: nat = available / memory_per_job();
    let jobs: nat = if cores <= by_memory {
        cores
    } else {
        by_memory
    };
    if jobs < 1 {
        1
    } else {
        jobs
    }
}

/// The option that tells the build executor how many jobs to run at once.
pub open spec fn job_option(jobs: nat) -> Seq<char> {
    "-j"@ + decimal(jobs)
}

/// The options of the build executor on a host with the given resources.
pub open spec fn makeopts_for(cores: nat, available: nat) -> Seq<Seq<char>> {
    seq![job_option(jobs_for(cores, available))]
}

/// The options of the build executor for a build of `project` on a host with
/// the given resources: those that the descriptor gives, and where it gives
/// none, those that fit the host.
pub open spec fn makeopts_of(project: ProjectView, cores: nat, available: nat) -> Seq<Seq<char>> {
    match custom_makeopts(project) {
        Some(options) => options,
        None => makeopts_for(cores, available),
    }
}

/// The options of the build executor that the descriptor gives: the pieces
/// of its text between spaces.
pub open spec fn custom_makeopts(project: ProjectView) -> Option<Seq<Seq<char>>> {
    match project.custom_makeopts {
        Some(text) => Some(split(text, ' ')),
        None => None,
    }
}

/// The run of the build executor that carries out the rule `goal` of
/// `makefile`, which it reads from its standard input.
pub open spec fn executor_invocation(
    goal: Seq<char>,
    makeopts: Seq<Seq<char>>,
    makefile: Seq<char>,
) -> InvocationView {
    InvocationView {
        program: "make"@,
        arguments: seq!["-s"@, "-f"@, "-"@, goal] + makeopts,
        environment: Seq::<(Seq<char>, Seq<char>)>::empty(),
        input: Some(makefile),
    }
}

/// What the run of the build executor means for the build.
pub open spec fn executor_result(outcome: OutcomeView) -> Result<(), BargeError> {
    match outcome {
        OutcomeView::NotStarted => Err(BargeError::ToolInvocationError("make")),
        OutcomeView::Finished { success, .. } | OutcomeView::Unreadable { success } => if success {
            Ok(())
        } else {
            Err(BargeError::BuildFailed)
        },
    }
}

/// What the run of the build executor means for the static analysis: that
/// it could not be started is a failure, and its exit status is not looked
/// at, since the findings of the analysis are no failure of the operation.
pub open spec fn analysis_outcome(outcome: OutcomeView) -> Result<(), BargeError> {
    match outcome {
        OutcomeView::NotStarted => Err(BargeError::ToolInvocationError("make")),
        _ => Ok(()),
    }
}

/// What the run of a program that an operation launches means for the
/// operation: that `program` could not be started is a failure, and how it
/// ended is its own matter.
pub open spec fn launch_outcome(outcome: OutcomeView, program: &'static str) -> Result<
    (),
    BargeError,
> {
    match outcome {
        OutcomeView::NotStarted => Err(BargeError::ToolInvocationError(program)),
        _ => Ok(()),
    }
}

/// What the run of the documentation generator means for the operation.
pub open spec fn documentation_outcome(outcome: OutcomeView) -> Result<(), BargeError> {
    match outcome {
        OutcomeView::NotStarted => Err(BargeError::ToolInvocationError("doxygen")),
        OutcomeView::Finished { success, .. } | OutcomeView::Unreadable { success } => if success {
            Ok(())
        } else {
            Err(BargeError::StepFailed("Failed to generate documentation using doxygen"))
        },
    }
}

/// The path of the executable that a build for `target` makes.
pub open spec fn executable_path(project: ProjectView, target: BuildTarget) -> Seq<char> {
    binary_directory(target) + "/"@ + project.name
}

/// The command that runs the executable with `arguments`, for a project
/// that makes one.
pub open spec fn run_invocation(
    project: ProjectView,
    target: BuildTarget,
    arguments: Seq<Seq<char>>,
) -> Option<InvocationView> {
    if project.project_type == ProjectType::Executable {
        Some(plain_invocation(executable_path(project, target), arguments))
    } else {
        None
    }
}

/// The command that runs the executable with `arguments` in the debugger of
/// the toolset, for a project that makes one.
pub open spec fn debug_invocation(
    project: ProjectView,
    target: BuildTarget,
    arguments: Seq<Seq<char>>,
) -> Option<InvocationView> {
    if project.project_type == ProjectType::Executable {
        let path = executable_path(project, target);
        let toolset = project.resolved_toolset();
        Some(
            plain_invocation(
                toolset_debugger(toolset),
                if toolset == Toolset::Gnu {
                    seq!["--args"@, path] + arguments
                } else {
                    seq![path, "--"@] + arguments
                },
            ),
        )
    } else {
        None
    }
}

/// The command that formats the C and C++ files of `listing` in place.
pub open spec fn format_invocation(project: ProjectView, listing: Seq<Seq<char>>) -> InvocationView {
    plain_invocation(
        "clang-format"@,
        seq!["-i"@, "--style="@ + project.resolved_format_style()] + discovered(
            listing,
            CollectSourceFilesMode::CCppSourcesOnly,
        ),
    )
}

/// The command that generates the documentation.
pub open spec fn document_invocation(project: ProjectView) -> InvocationView {
    InvocationView {
        program: "doxygen"@,
        arguments: seq!["Doxyfile"@],
        environment: seq![
            ("BARGE_PROJECT_NAME"@, project.name),
            ("BARGE_PROJECT_VERSION"@, project.version),
        ],
        input: None::<Seq<char>>,
    }
}

/// The query for one field of the configuration of the version control
/// system.
pub open spec fn git_config_query(field: Seq<char>) -> InvocationView {
    plain_invocation("git"@, seq!["config"@, "--get"@, field])
}

/// The query for the commit that is checked out.
pub open spec fn git_commit_query() -> InvocationView {
    plain_invocation("git"@, seq!["rev-parse"@, "HEAD"@])
}

/// The query for the branch that is checked out.
pub open spec fn git_branch_query() -> InvocationView {
    plain_invocation("git"@, seq!["branch"@, "--show-current"@])
}

/// An author, from what the configuration of the version control system
/// holds as the user's name and address.
pub open spec fn git_user(name: Seq<char>, email: Seq<char>) -> Seq<char> {
    trimmed_end(name) + " <"@ + trimmed_end(email) + ">"@
}

/// What the configuration of the version control system holds in the
/// field that was asked for: what the query wrote, whatever its exit
/// status, or the failure where the tool could not be started or wrote
/// what is no text.
pub open spec fn git_config_answer(outcome: OutcomeView) -> Result<Seq<char>, BargeError> {
    match outcome {
        OutcomeView::Finished { output, .. } => Ok(output),
        OutcomeView::Unreadable { .. } => Err(BargeError::Utf8Error("git")),
        OutcomeView::NotStarted => Err(BargeError::ToolInvocationError("git")),
    }
}

/// What a query to the version control system found out: what it wrote
/// where it ended with success, and nothing otherwise.
pub open spec fn git_answer(outcome: OutcomeView) -> Option<Seq<char>> {
    match outcome {
        OutcomeView::Finished { success, output } => if success {
            Some(output)
        } else {
            None
        },
        OutcomeView::Unreadable { .. } => None,
        OutcomeView::NotStarted => None,
    }
}

/// The descriptor of a new project.
pub open spec fn new_project(name: Seq<char>, kind: ProjectType, author: Seq<char>) -> ProjectView {
    ProjectView {
        name,
        authors: seq![author],
        description: ""@,
        project_type: kind,
        version: "0.1.0"@,
        toolset: None,
        c_standard: None,
        cpp_standard: None,
        fortran_standard: None,
        cobol_standard: None,
        external_libraries: None,
        custom_cflags: None,
        custom_cxxflags: None,
        custom_fortranflags: None,
        custom_cobolflags: None,
        custom_ldflags: None,
        custom_makeopts: None,
        format_style: None,
        pre_build_steps: None,
        post_build_steps: None,
    }
}

/// The directory that holds everything that builds write.
pub open spec fn build_root() -> Seq<char> {
    "build"@
}

/// The number of parallel jobs of a build on a host with `cores`
/// processors and `available_memory` kilobytes of available memory.
pub fn parallel_jobs(cores: u64, available_memory: u64) -> (r: u64)
    ensures
        r == jobs_for(cores as nat, available_memory as nat),
{
    let by_memory: u64 = available_memory / (2 * 1024 * 1024);
    let jobs: u64 = if cores <= by_memory {
        cores
    } else {
        by_memory
    };
    if jobs < 1 {
        1
    } else {
        jobs
    }
}

/// The options of the build executor on a host with `cores` processors and
/// `available_memory` kilobytes of available memory.
pub fn generate_default_makeopts(cores: u64, available_memory: u64) -> (r: Result<
    Vec<String>,
    BargeError,
>)
    ensures
        r matches Ok(options) && options.deep_view() == makeopts_for(
            cores as nat,
            available_memory as nat,
        ),
{
    let jobs = parallel_jobs(cores, available_memory);
    let mut option = "-j".to_owned();
    let number = decimal_text(jobs);
    option.append(number.as_str());
    let mut out: Vec<String> = Vec::new();
    push_text(&mut out, option.as_str());
    assert(out.deep_view() =~= seq![option@]);
    Ok(out)
}

/// The run of the build executor that builds everything.
pub fn build_command(makeopts: &Vec<String>, makefile: String) -> (r: Invocation)
    ensures
        r@ == executor_invocation("all"@, makeopts.deep_view(), makefile@),
{
    let mut arguments: Vec<String> = Vec::new();
    push_text(&mut arguments, "-s");
    push_text(&mut arguments, "-f");
    push_text(&mut arguments, "-");
    push_text(&mut arguments, "all");
    assert(arguments.deep_view() =~= seq!["-s"@, "-f"@, "-"@, "all"@]);
    push_texts(&mut arguments, makeopts);
    let r = Invocation {
        program: "make".to_owned(),
        arguments,
        environment: Vec::new(),
        input: Some(makefile),
    };
    assert(r.environment.deep_view() =~= Seq::<(Seq<char>, Seq<char>)>::empty());
    r
}

/// What the run of the build executor means for the build.
pub fn build_result(outcome: &Outcome) -> (r: Result<(), BargeError>)
    ensures
        r == executor_result(outcome@),
{
    match outcome {
        Outcome::NotStarted => Err(BargeError::ToolInvocationError("make")),
        Outcome::Finished { success, .. } | Outcome::Unreadable { success } => {
            if *success {
                Ok(())
            } else {
                Err(BargeError::BuildFailed)
            }
        },
    }
}

/// What the run of the build executor means for the static analysis.
pub fn analysis_result(outcome: &Outcome) -> (r: Result<(), BargeError>)
    ensures
        r == analysis_outcome(outcome@),
{
    match outcome {
        Outcome::NotStarted => Err(BargeError::ToolInvocationError("make")),
        _ => Ok(()),
    }
}

/// What the run of a program that an operation launches means for the
/// operation.
pub fn launch_result(outcome: &Outcome, program: &'static str) -> (r: Result<(), BargeError>)
    ensures
        r == launch_outcome(outcome@, program),
{
    match outcome {
        Outcome::NotStarted => Err(BargeError::ToolInvocationError(program)),
        _ => Ok(()),
    }
}

/// What the run of the documentation generator means for the operation.
pub fn document_result(outcome: &Outcome) -> (r: Result<(), BargeError>)
    ensures
        r == documentation_outcome(outcome@),
{
    match outcome {
        Outcome::NotStarted => Err(BargeError::ToolInvocationError("doxygen")),
        Outcome::Finished { success, .. } | Outcome::Unreadable { success } => {
            if *success {
                Ok(())
            } else {
                Err(BargeError::StepFailed("Failed to generate documentation using doxygen"))
            }
        },
    }
}

/// The query for one field of the configuration of the version control
/// system.
pub fn get_git_config_field(field: &str) -> (r: Invocation)
    ensures
        r@ == git_config_query(field@),
{
    let mut arguments: Vec<String> = Vec::new();
    push_text(&mut arguments, "config");
    push_text(&mut arguments, "--get");
    push_text(&mut arguments, field);
    assert(arguments.deep_view() =~= seq!["config"@, "--get"@, field@]);
    invocation("git", arguments)
}

/// What the configuration of the version control system holds in the
/// field that was asked for. A field that is not set is empty; that the
/// tool could not be started, or wrote what is no text, is a failure.
pub fn get_git_config_answer(outcome: &Outcome) -> (r: Result<String, BargeError>)
    ensures
        match r {
            Ok(text) => git_config_answer(outcome@) == Ok::<Seq<char>, BargeError>(text@),
            Err(e) => git_config_answer(outcome@) == Err::<Seq<char>, BargeError>(e),
        },
{
    match outcome {
        Outcome::Finished { output, .. } => Ok(output.clone()),
        Outcome::Unreadable { .. } => Err(BargeError::Utf8Error("git")),
        Outcome::NotStarted => Err(BargeError::ToolInvocationError("git")),
    }
}

/// The author of a new project, from what the version control system wrote
/// as the user's name and as the user's address.
pub fn get_git_user(name: &str, email: &str) -> (r: String)
    ensures
        r@ == git_user(name@, email@),
{
    let mut out = trim_end(name).to_owned();
    out.append(" <");
    out.append(trim_end(email));
    out.append(">");
    out
}

/// The query for the commit that is checked out.
pub fn git_commit_command() -> (r: Invocation)
    ensures
        r@ == git_commit_query(),
{
    let mut arguments: Vec<String> = Vec::new();
    push_text(&mut arguments, "rev-parse");
    push_text(&mut arguments, "HEAD");
    assert(arguments.deep_view() =~= seq!["rev-parse"@, "HEAD"@]);
    invocation("git", arguments)
}

/// The query for the branch that is checked out.
pub fn git_branch_command() -> (r: Invocation)
    ensures
        r@ == git_branch_query(),
{
    let mut arguments: Vec<String> = Vec::new();
    push_text(&mut arguments, "branch");
    push_text(&mut arguments, "--show-current");
    assert(arguments.deep_view() =~= seq!["branch"@, "--show-current"@]);
    invocation("git", arguments)
}

fn git_field(outcome: &Outcome) -> (r: Option<String>)
    ensures
        r.deep_view() == git_answer(outcome@),
{
    match outcome {
        Outcome::Finished { success, output } => {
            if *success {
                Some(output.clone())
            } else {
                None
            }
        },
        Outcome::Unreadable { .. } => None,
        Outcome::NotStarted => None,
    }
}

/// The commit and the branch that are checked out, as far as the version
/// control system told them. That it could not be asked, or wrote what is
/// no text, is no failure.
pub fn get_git_project_info(commit: &Outcome, branch: &Outcome) -> (r: (
    Option<String>,
    Option<String>,
))
    ensures
        r.0.deep_view() == git_answer(commit@),
        r.1.deep_view() == git_answer(branch@),
{
    (git_field(commit), git_field(branch))
}

/// The directory to remove in order to remove what all builds wrote.
pub fn clean() -> (r: String)
    ensures
        r@ == build_root(),
{
    "build".to_owned()
}

impl Project {
    /// The descriptor of a new project of `author`.
    pub fn new(name: &str, project_type: ProjectType, author: String) -> (r: Project)
        ensures
            r@ == new_project(name@, project_type, author@),
    {
        let mut authors: Vec<String> = Vec::new();
        let ghost text = author@;
        authors.push(author);
        assert(authors.deep_view() =~= seq![text]);
        Project {
            name: name.to_owned(),
            authors,
            description: "".to_owned(),
            project_type,
            version: "0.1.0".to_owned(),
            toolset: None,
            c_standard: None,
            cpp_standard: None,
            fortran_standard: None,
            cobol_standard: None,
            external_libraries: None,
            custom_cflags: None,
            custom_cxxflags: None,
            custom_fortranflags: None,
            custom_cobolflags: None,
            custom_ldflags: None,
            custom_makeopts: None,
            format_style: None,
            pre_build_steps: None,
            post_build_steps: None,
        }
    }

    /// The options of the build executor that the descriptor gives.
    pub fn get_custom_makeopts(&self) -> (r: Option<Vec<String>>)
        ensures
            r.deep_view() == custom_makeopts(self@),
    {
        match &self.custom_makeopts {
            Some(text) => Some(split_on(text.as_str(), ' ')),
            None => None,
        }
    }

    /// The path of the executable that a build for `target` makes.
    pub fn get_executable_path(&self, target: BuildTarget) -> (r: String)
        ensures
            r@ == executable_path(self@, target),
    {
        let mut path = get_binary_directory(target);
        path.append("/");
        path.append(self.name.as_str());
        path
    }

    /// The run of the build executor that carries out the static analysis.
    pub fn analyze(&self) -> (r: Result<Invocation, BargeError>)
        ensures
            r matches Ok(command) && command@ == executor_invocation(
                "analyze"@,
                Seq::<Seq<char>>::empty(),
                rendered(analysis_plan(self@)),
            ),
    {
        let makefile = match generate_analyze_makefile(self) {
            Ok(text) => text,
            Err(e) => {
                return Err(e);
            },
        };
        let mut arguments: Vec<String> = Vec::new();
        push_text(&mut arguments, "-s");
        push_text(&mut arguments, "-f");
        push_text(&mut arguments, "-");
        push_text(&mut arguments, "analyze");
        assert(arguments.deep_view() =~= seq!["-s"@, "-f"@, "-"@, "analyze"@] + Seq::<
            Seq<char>,
        >::empty());
        let r = Invocation {
            program: "make".to_owned(),
            arguments,
            environment: Vec::new(),
            input: Some(makefile),
        };
        assert(r.environment.deep_view() =~= Seq::<(Seq<char>, Seq<char>)>::empty());
        Ok(r)
    }

    /// The command that runs what a build for `target` made, with
    /// `arguments`. Only an executable can be run: for a library there is
    /// no command.
    pub fn run(&self, target: BuildTarget, arguments: Vec<String>) -> (r: Option<Invocation>)
        ensures
            r.deep_view() == run_invocation(self@, target, arguments.deep_view()),
    {
        match self.project_type {
            ProjectType::Executable => {
                let path = self.get_executable_path(target);
                Some(invocation(path.as_str(), arguments))
            },
            _ => None,
        }
    }

    /// The command that runs what a build for `target` made in the
    /// debugger, with `arguments`. Only an executable can be run: for a
    /// library there is no command.
    pub fn debug(&self, target: BuildTarget, arguments: Vec<String>) -> (r: Option<Invocation>)
        ensures
            r.deep_view() == debug_invocation(self@, target, arguments.deep_view()),
    {
        match self.project_type {
            ProjectType::Executable => {
                let path = self.get_executable_path(target);
                let toolset = self.get_toolset();
                let debugger = get_debugger(&toolset);
                let mut all: Vec<String> = Vec::new();
                match toolset {
                    Toolset::Gnu => {
                        push_text(&mut all, "--args");
                        push_text(&mut all, path.as_str());
                        assert(all.deep_view() =~= seq!["--args"@, path@]);
                    },
                    Toolset::Llvm => {
                        push_text(&mut all, path.as_str());
                        push_text(&mut all, "--");
                        assert(all.deep_view() =~= seq![path@, "--"@]);
                    },
                }
                push_texts(&mut all, &arguments);
                Some(invocation(debugger, all))
            },
            _ => None,
        }
    }

    /// The command that formats the C and C++ files among `listing`, the
    /// files below the source directory, in place.
    pub fn format(&self, listing: &Vec<String>) -> (r: Invocation)
        ensures
            r@ == format_invocation(self@, listing.deep_view()),
    {
        let sources = collect_source_files(CollectSourceFilesMode::CCppSourcesOnly, listing);
        let mut style = "--style=".to_owned();
        style.append(self.get_format_style());
        let mut arguments: Vec<String> = Vec::new();
        push_text(&mut arguments, "-i");
        push_text(&mut arguments, style.as_str());
        assert(arguments.deep_view() =~= seq!["-i"@, style@]);
        push_texts(&mut arguments, &sources);
        invocation("clang-format", arguments)
    }

    /// The command that generates the documentation of the project.
    pub fn document(&self) -> (r: Invocation)
        ensures
            r@ == document_invocation(self@),
    {
        let mut arguments: Vec<String> = Vec::new();
        push_text(&mut arguments, "Doxyfile");
        assert(arguments.deep_view() =~= seq!["Doxyfile"@]);
        let mut environment: Vec<(String, String)> = Vec::new();
        push_pair(&mut environment, "BARGE_PROJECT_NAME", self.name.as_str());
        push_pair(&mut environment, "BARGE_PROJECT_VERSION", self.version.as_str());
        assert(environment.deep_view() =~= seq![
            ("BARGE_PROJECT_NAME"@, self@.name),
            ("BARGE_PROJECT_VERSION"@, self@.version),
        ]);
        Invocation { program: "doxygen".to_owned(), arguments, environment, input: None }
    }
}

} // verus!
