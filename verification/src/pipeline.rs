//! The course of a build: the steps before the build, the resolution of
//! what the plan needs, its synthesis, its execution, and the steps after
//! the build, each only where everything before it succeeded.
//!
//! The library decides what is done next; the caller does it and reports
//! how it ended. A failure ends the build where it stands: nothing is
//! retried and nothing later is begun.

use vstd::prelude::*;
use crate::clock::timestamp_now;
use crate::command::Outcome;
use crate::dependencies::{binary_directory, get_binary_directory};
use crate::error::BargeError;
use crate::makefile::BuildTarget;
use crate::operations::{
    generate_default_makeopts,
    get_git_project_info,
    git_answer,
    makeopts_of,
};
use crate::project::{Project, ProjectView};
use crate::scripts::{BuildScriptKind, ScriptEnvironment, ScriptEnvironmentView};
use crate::text::{join, joined};

verus! {

/// Where a build stands.
#[derive(Clone, Copy, Debug, PartialEq, Eq)]
pub enum Stage {
    /// The step before the build at this position is due.
    PreBuild(usize),
    /// The external libraries, the sources and their dependencies are to be
    /// found out.
    Resolving,
    /// The build plan is to be synthesized from what was found out.
    Synthesizing,
    /// The build executor is to carry out the plan.
    Executing,
    /// The step after the build at this position is due.
    PostBuild(usize),
    /// Everything was done.
    Succeeded,
    /// The build was given up with this failure.
    Failed(BargeError),
}

/// What the caller is to do next.
#[derive(Clone, Copy, Debug, PartialEq, Eq)]
pub enum Task {
    /// Run the build step of this kind at this position.
    Step { kind: BuildScriptKind, index: usize },
    /// Run the queries and list the sources.
    Resolve,
    /// Synthesize the build plan.
    Synthesize,
    /// Hand the build plan to the build executor.
    Execute,
    /// Stop, with this result.
    Finish(Result<(), BargeError>),
}

/// The failure of a stage that names a step which the project has not.
pub open spec fn no_such_step() -> BargeError {
    BargeError::InvalidValue("No such build step")
}

/// The stage in which a build begins.
pub open spec fn first_stage(project: ProjectView) -> Stage {
    if project.pre_steps().len() > 0 {
        Stage::PreBuild(0)
    } else {
        Stage::Resolving
    }
}

/// Whether the build is over in `stage`.
pub open spec fn is_over(stage: Stage) -> bool {
    stage is Succeeded || stage is Failed
}

/// What is to be done in `stage`.
pub open spec fn task_of(project: ProjectView, stage: Stage) -> Task {
    match stage {
        Stage::PreBuild(index) => if index < project.pre_steps().len() {
            Task::Step { kind: BuildScriptKind::PreBuildStep, index }
        } else {
            Task::Finish(Err(no_such_step()))
        },
        Stage::Resolving => Task::Resolve,
        Stage::Synthesizing => Task::Synthesize,
        Stage::Executing => Task::Execute,
        Stage::PostBuild(index) => if index < project.post_steps().len() {
            Task::Step { kind: BuildScriptKind::PostBuildStep, index }
        } else {
            Task::Finish(Err(no_such_step()))
        },
        Stage::Succeeded => Task::Finish(Ok(())),
        Stage::Failed(e) => Task::Finish(Err(e)),
    }
}

/// The stage that follows `stage` when its task ended with `outcome`. A
/// build that is over stays as it is; a failure ends the build; a success
/// leads to the next task in the course of the build.
pub open spec fn next_stage(project: ProjectView, stage: Stage, outcome: Result<(), BargeError>) -> Stage {
    match stage {
        Stage::Succeeded => Stage::Succeeded,
        Stage::Failed(e) => Stage::Failed(e),
        Stage::PreBuild(index) => if index >= project.pre_steps().len() {
            Stage::Failed(no_such_step())
        } else {
            match outcome {
                Err(e) => Stage::Failed(e),
                Ok(_) => if index + 1 < project.pre_steps().len() {
                    Stage::PreBuild((index + 1) as usize)
                } else {
                    Stage::Resolving
                },
            }
        },
        Stage::Resolving => match outcome {
            Err(e) => Stage::Failed(e),
            Ok(_) => Stage::Synthesizing,
        },
        Stage::Synthesizing => match outcome {
            Err(e) => Stage::Failed(e),
            Ok(_) => Stage::Executing,
        },
        Stage::Executing => match outcome {
            Err(e) => Stage::Failed(e),
            Ok(_) => if project.post_steps().len() > 0 {
                Stage::PostBuild(0)
            } else {
                Stage::Succeeded
            },
        },
        Stage::PostBuild(index) => if index >= project.post_steps().len() {
            Stage::Failed(no_such_step())
        } else {
            match outcome {
                Err(e) => Stage::Failed(e),
                Ok(_) => if index + 1 < project.post_steps().len() {
                    Stage::PostBuild((index + 1) as usize)
                } else {
                    Stage::Succeeded
                },
            }
        },
    }
}

/// The stage of a build whose tasks so far ended with `outcomes`, in order.
pub open spec fn stage_after(project: ProjectView, outcomes: Seq<Result<(), BargeError>>) -> Stage
    decreases outcomes.len(),
{
    if outcomes.len() == 0 {
        first_stage(project)
    } else {
        next_stage(project, stage_after(project, outcomes.drop_last()), outcomes.last())
    }
}

/// How many tasks a build has that succeeds.
pub open spec fn task_count(project: ProjectView) -> int {
    (project.pre_steps().len() + 3 + project.post_steps().len()) as int
}

/// The stage of a build in which `done` tasks succeeded and none failed.
pub open spec fn stage_at(project: ProjectView, done: int) -> Stage {
    let before = project.pre_steps().len() as int;
    let after = project.post_steps().len() as int;
    if done < before {
        Stage::PreBuild(done as usize)
    } else if done == before {
        Stage::Resolving
    } else if done == before + 1 {
        Stage::Synthesizing
    } else if done == before + 2 {
        Stage::Executing
    } else if done < before + 3 + after {
        Stage::PostBuild((done - before - 3) as usize)
    } else {
        Stage::Succeeded
    }
}

/// Where the first failure stands among `outcomes`, or their number where
/// none of them is a failure.
pub open spec fn first_failure(outcomes: Seq<Result<(), BargeError>>) -> int
    decreases outcomes.len(),
{
    if outcomes.len() == 0 {
        0
    } else {
        let before = first_failure(outcomes.drop_last());
        if before < outcomes.len() - 1 {
            before
        } else if outcomes.last() is Err {
            outcomes.len() - 1
        } else {
            outcomes.len() as int
        }
    }
}

/// Whether the steps of `project` can be counted by the machine.
pub open spec fn countable(project: ProjectView) -> bool {
    project.pre_steps().len() <= usize::MAX && project.post_steps().len() <= usize::MAX
}

proof fn lemma_first_failure(outcomes: Seq<Result<(), BargeError>>)
    ensures
        0 <= first_failure(outcomes) <= outcomes.len(),
        first_failure(outcomes) < outcomes.len() ==> outcomes[first_failure(outcomes)] is Err,
        forall|i: int| 0 <= i < first_failure(outcomes) ==> outcomes[i] is Ok,
    decreases outcomes.len(),
{
    if outcomes.len() > 0 {
        let rest = outcomes.drop_last();
        lemma_first_failure(rest);
        assert forall|i: int| 0 <= i < first_failure(outcomes) implies outcomes[i] is Ok by {
            if i < rest.len() {
                assert(rest[i] == outcomes[i]);
            }
        }
    }
}

/// The course of a build. The tasks are taken in one order: the steps
/// before the build, resolving, synthesizing, executing, the steps after
/// the build. As long as every task succeeds the build stands at the task
/// that follows those done. The first failure, if it is reported while a
/// task is due, ends the build with that failure, whatever is reported
/// afterwards.
pub proof fn lemma_course(project: ProjectView, outcomes: Seq<Result<(), BargeError>>)
    requires
        countable(project),
    ensures
        stage_after(project, outcomes) == if first_failure(outcomes) < outcomes.len()
            && first_failure(outcomes) < task_count(project) {
            Stage::Failed(outcomes[first_failure(outcomes)]->Err_0)
        } else {
            stage_at(project, outcomes.len() as int)
        },
    decreases outcomes.len(),
{
    lemma_first_failure(outcomes);
    if outcomes.len() > 0 {
        let rest = outcomes.drop_last();
        lemma_course(project, rest);
        lemma_first_failure(rest);
        if first_failure(rest) < rest.len() {
            assert(rest[first_failure(rest)] == outcomes[first_failure(rest)]);
        }
    }
}

/// A failure is final. Where a task is due and ends with a failure, the
/// build is given up with that failure, and every task from then on is to
/// stop with it: no step, no resolution, no synthesis and no run of the
/// build executor follows. So a step before the build that fails keeps the
/// build executor from running, and no step after the build runs where the
/// build executor failed.
pub proof fn lemma_failure_is_final(
    project: ProjectView,
    outcomes: Seq<Result<(), BargeError>>,
    at: int,
    later: int,
)
    requires
        0 <= at < later <= outcomes.len(),
        outcomes[at] is Err,
        !(task_of(project, stage_after(project, outcomes.take(at))) is Finish),
    ensures
        stage_after(project, outcomes.take(later)) == Stage::Failed(outcomes[at]->Err_0),
        task_of(project, stage_after(project, outcomes.take(later))) == Task::Finish(
            Err(outcomes[at]->Err_0),
        ),
    decreases later - at,
{
    let before = outcomes.take(later - 1);
    let now = outcomes.take(later);
    assert(now.drop_last() =~= before);
    assert(now.last() == outcomes[later - 1]);
    if later - 1 > at {
        lemma_failure_is_final(project, outcomes, at, later - 1);
    }
}

/// The build executor runs only where every step before the build, the
/// resolution and the synthesis succeeded, and a step after the build runs
/// only where the build executor succeeded as well.
pub proof fn lemma_order_of_tasks(project: ProjectView, outcomes: Seq<Result<(), BargeError>>)
    requires
        countable(project),
    ensures
        task_of(project, stage_after(project, outcomes)) is Execute ==> {
            &&& outcomes.len() == project.pre_steps().len() + 2
            &&& forall|i: int| 0 <= i < outcomes.len() ==> outcomes[i] is Ok
        },
        task_of(project, stage_after(project, outcomes)) matches Task::Step {
            kind: BuildScriptKind::PostBuildStep,
            index,
        } ==> {
            &&& outcomes.len() == project.pre_steps().len() + 3 + index
            &&& forall|i: int| 0 <= i < outcomes.len() ==> outcomes[i] is Ok
        },
        task_of(project, stage_after(project, outcomes)) matches Task::Step {
            kind: BuildScriptKind::PreBuildStep,
            index,
        } ==> {
            &&& outcomes.len() == index
            &&& forall|i: int| 0 <= i < outcomes.len() ==> outcomes[i] is Ok
        },
        task_of(project, stage_after(project, outcomes)) == Task::Finish(Ok(())) ==> {
            &&& outcomes.len() >= task_count(project)
            &&& forall|i: int| 0 <= i < task_count(project) ==> outcomes[i] is Ok
        },
{
    lemma_course(project, outcomes);
    lemma_first_failure(outcomes);
}

/// What the caller found out when the build began.
#[derive(Debug, Clone, PartialEq, Eq)]
pub struct BuildContext {
    /// The options of the build executor.
    pub makeopts: Vec<String>,
    /// The commit that is checked out, if it could be asked.
    pub git_commit_hash: Option<String>,
    /// The branch that is checked out, if it could be asked.
    pub git_branch: Option<String>,
    /// When the build began.
    pub build_timestamp: String,
    /// Whether everything is to be written without colour.
    pub no_color: bool,
}

/// What the caller found out when the build began, as sequences of
/// characters.
pub ghost struct BuildContextView {
    pub makeopts: Seq<Seq<char>>,
    pub git_commit_hash: Option<Seq<char>>,
    pub git_branch: Option<Seq<char>>,
    pub build_timestamp: Seq<char>,
    pub no_color: bool,
}

impl DeepView for BuildContext {
    type V = BuildContextView;

    open spec fn deep_view(&self) -> BuildContextView {
        BuildContextView {
            makeopts: self.makeopts.deep_view(),
            git_commit_hash: self.git_commit_hash.deep_view(),
            git_branch: self.git_branch.deep_view(),
            build_timestamp: self.build_timestamp@,
            no_color: self.no_color,
        }
    }
}

impl View for BuildContext {
    type V = BuildContextView;

    open spec fn view(&self) -> BuildContextView {
        self.deep_view()
    }
}

/// What the steps of `kind` of a build of `project` for `target` are told.
pub open spec fn step_environment(
    project: ProjectView,
    target: BuildTarget,
    kind: BuildScriptKind,
    context: BuildContextView,
) -> ScriptEnvironmentView {
    ScriptEnvironmentView {
        target,
        name: project.name,
        version: project.version,
        authors: joined(project.authors, ", "@),
        description: project.description,
        git_commit_hash: context.git_commit_hash,
        git_branch: context.git_branch,
        build_timestamp: context.build_timestamp,
        kind,
        toolset: project.resolved_toolset(),
        c_standard: project.resolved_c_standard(),
        cpp_standard: project.resolved_cpp_standard(),
        no_color: context.no_color,
    }
}

/// The path of the step of `kind` at `index`, if the project has it.
pub open spec fn step_at(project: ProjectView, kind: BuildScriptKind, index: int) -> Option<
    Seq<char>,
> {
    let steps = match kind {
        BuildScriptKind::PreBuildStep => project.pre_steps(),
        BuildScriptKind::PostBuildStep => project.post_steps(),
    };
    if 0 <= index < steps.len() {
        Some(steps[index])
    } else {
        None
    }
}

fn step_count(steps: &Option<Vec<String>>) -> (r: usize)
    ensures
        r == crate::project::items_or_none(steps.deep_view()).len(),
{
    match steps {
        Some(list) => list.len(),
        None => 0,
    }
}

impl Project {
    /// The stage in which a build of the project begins.
    pub fn build(&self) -> (r: Stage)
        ensures
            r == first_stage(self@),
    {
        if step_count(&self.pre_build_steps) > 0 {
            Stage::PreBuild(0)
        } else {
            Stage::Resolving
        }
    }

    /// The directory to remove before the project is built anew for
    /// `target`, and the stage in which the build then begins.
    pub fn rebuild(&self, target: BuildTarget) -> (r: (String, Stage))
        ensures
            r.0@ == binary_directory(target),
            r.1 == first_stage(self@),
    {
        (get_binary_directory(target), self.build())
    }

    /// What is to be done in `stage`.
    pub fn task(&self, stage: Stage) -> (r: Task)
        ensures
            r == task_of(self@, stage),
    {
        match stage {
            Stage::PreBuild(index) => {
                if index < step_count(&self.pre_build_steps) {
                    Task::Step { kind: BuildScriptKind::PreBuildStep, index }
                } else {
                    Task::Finish(Err(BargeError::InvalidValue("No such build step")))
                }
            },
            Stage::Resolving => Task::Resolve,
            Stage::Synthesizing => Task::Synthesize,
            Stage::Executing => Task::Execute,
            Stage::PostBuild(index) => {
                if index < step_count(&self.post_build_steps) {
                    Task::Step { kind: BuildScriptKind::PostBuildStep, index }
                } else {
                    Task::Finish(Err(BargeError::InvalidValue("No such build step")))
                }
            },
            Stage::Succeeded => Task::Finish(Ok(())),
            Stage::Failed(e) => Task::Finish(Err(e)),
        }
    }

    /// The stage that follows `stage` when its task ended with `outcome`.
    pub fn advance(&self, stage: Stage, outcome: Result<(), BargeError>) -> (r: Stage)
        ensures
            r == next_stage(self@, stage, outcome),
    {
        match stage {
            Stage::Succeeded => Stage::Succeeded,
            Stage::Failed(e) => Stage::Failed(e),
            Stage::PreBuild(index) => {
                let count = step_count(&self.pre_build_steps);
                if index >= count {
                    Stage::Failed(BargeError::InvalidValue("No such build step"))
                } else {
                    match outcome {
                        Err(e) => Stage::Failed(e),
                        Ok(_) => {
                            if index + 1 < count {
                                Stage::PreBuild(index + 1)
                            } else {
                                Stage::Resolving
                            }
                        },
                    }
                }
            },
            Stage::Resolving => match outcome {
                Err(e) => Stage::Failed(e),
                Ok(_) => Stage::Synthesizing,
            },
            Stage::Synthesizing => match outcome {
                Err(e) => Stage::Failed(e),
                Ok(_) => Stage::Executing,
            },
            Stage::Executing => match outcome {
                Err(e) => Stage::Failed(e),
                Ok(_) => {
                    if step_count(&self.post_build_steps) > 0 {
                        Stage::PostBuild(0)
                    } else {
                        Stage::Succeeded
                    }
                },
            },
            Stage::PostBuild(index) => {
                let count = step_count(&self.post_build_steps);
                if index >= count {
                    Stage::Failed(BargeError::InvalidValue("No such build step"))
                } else {
                    match outcome {
                        Err(e) => Stage::Failed(e),
                        Ok(_) => {
                            if index + 1 < count {
                                Stage::PostBuild(index + 1)
                            } else {
                                Stage::Succeeded
                            }
                        },
                    }
                }
            },
        }
    }

    /// The path of the step of `kind` at `index`, if the project has it.
    pub fn step_path(&self, kind: BuildScriptKind, index: usize) -> (r: Option<&String>)
        ensures
            r.deep_view() == step_at(self@, kind, index as int),
    {
        let steps = match kind {
            BuildScriptKind::PreBuildStep => &self.pre_build_steps,
            BuildScriptKind::PostBuildStep => &self.post_build_steps,
        };
        match steps {
            Some(list) => {
                if index < list.len() {
                    Some(&list[index])
                } else {
                    None
                }
            },
            None => None,
        }
    }

    /// What the steps of `kind` of a build for `target` are told.
    pub fn script_environment(
        &self,
        target: BuildTarget,
        kind: BuildScriptKind,
        context: &BuildContext,
    ) -> (r: ScriptEnvironment)
        ensures
            r@ == step_environment(self@, target, kind, context@),
    {
        ScriptEnvironment {
            target,
            name: self.name.clone(),
            version: self.version.clone(),
            authors: join(&self.authors, ", "),
            description: self.description.clone(),
            git_commit_hash: self.git_commit_hash_of(context),
            git_branch: self.git_branch_of(context),
            build_timestamp: context.build_timestamp.clone(),
            kind,
            toolset: self.get_toolset(),
            c_standard: self.get_c_standard().to_owned(),
            cpp_standard: self.get_cpp_standard().to_owned(),
            no_color: context.no_color,
        }
    }

    fn git_commit_hash_of(&self, context: &BuildContext) -> (r: Option<String>)
        ensures
            r.deep_view() == context@.git_commit_hash,
    {
        copy_of(&context.git_commit_hash)
    }

    fn git_branch_of(&self, context: &BuildContext) -> (r: Option<String>)
        ensures
            r.deep_view() == context@.git_branch,
    {
        copy_of(&context.git_branch)
    }

    /// The options of the build executor for a build on a host with `cores`
    /// processors and `available_memory` kilobytes of available memory:
    /// those that the descriptor gives, and where it gives none, those that
    /// fit the host.
    pub fn get_makeopts(&self, cores: u64, available_memory: u64) -> (r: Result<
        Vec<String>,
        BargeError,
    >)
        ensures
            r matches Ok(options) && options.deep_view() == makeopts_of(
                self@,
                cores as nat,
                available_memory as nat,
            ),
    {
        match self.get_custom_makeopts() {
            Some(options) => Ok(options),
            None => generate_default_makeopts(cores, available_memory),
        }
    }

    /// What is known when a build begins: the options of the build
    /// executor, what the version control system answered about the
    /// checkout, whether colour is wanted, and the time, which is read from
    /// the clock of the machine.
    pub fn begin(
        &self,
        makeopts: Vec<String>,
        commit: &Outcome,
        branch: &Outcome,
        no_color: bool,
    ) -> (r: BuildContext)
        ensures
            r@.makeopts == makeopts.deep_view(),
            r@.git_commit_hash == git_answer(commit@),
            r@.git_branch == git_answer(branch@),
            r@.no_color == no_color,
    {
        let (git_commit_hash, git_branch) = get_git_project_info(commit, branch);
        BuildContext {
            makeopts,
            git_commit_hash,
            git_branch,
            build_timestamp: timestamp_now(),
            no_color,
        }
    }
}

fn copy_of(text: &Option<String>) -> (r: Option<String>)
    ensures
        r.deep_view() == text.deep_view(),
{
    match text {
        Some(s) => Some(s.clone()),
        None => None,
    }
}

} // verus!
