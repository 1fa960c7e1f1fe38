//! The build plan synthesizer: from the descriptor, the build target and
//! what the caller found out about the project's surroundings to the build
//! description that the build executor carries out.
//!
//! The plan is a function of its inputs: the same descriptor, target and
//! inputs give the same plan, character for character.

use vstd::prelude::*;
use vstd::string::StringExecFns;
use crate::assemble::{assemble, assembled, FlagSet, FlagSetView};
use crate::command::{invocation, plain_invocation, push_pair, push_text, Invocation, InvocationView, Outcome, OutcomeView};
use crate::dependencies::{
    dependency_lines,
    get_dependencies_for_project,
    get_object_paths,
    object_paths,
};
use crate::error::BargeError;
use crate::libraries::{build_library_flags, declared, library_flags};
use crate::makefile::{render, rendered, rule, BuildPlan, BuildPlanView, BuildTarget, Rule, RuleView};
use crate::project::{
    get_linker,
    get_toolset_executables,
    toolset_executables,
    toolset_linker,
    Project,
    ProjectType,
    ProjectView,
};
use crate::sources::{
    collect_source_files,
    compiled_units,
    discovered,
    lemma_discovery_ignores_order,
    units_of,
    CollectSourceFilesMode,
    Language,
};
use crate::text::{join, joined};

verus! {

/// What the caller found out for a build: the outcomes of the queries that
/// the library asked for, and the files below the source directory.
#[derive(Debug, Clone, PartialEq, Eq)]
pub struct BuildInputs {
    /// The outcomes of the library queries, in the order of the queries.
    pub libraries: Vec<Outcome>,
    /// The files below the source directory, in any order.
    pub listing: Vec<String>,
    /// The outcomes of the dependency queries of the C units.
    pub c_dependencies: Vec<Outcome>,
    /// The outcomes of the dependency queries of the C++ units.
    pub cpp_dependencies: Vec<Outcome>,
    /// The outcome of the query for the COBOL runtime. It is read only
    /// where a COBOL unit is among the sources.
    pub cobol: Outcome,
    /// Whether the messages of the build are to be without colour.
    pub no_color: bool,
}

/// What the caller found out for a build, as sequences of characters.
pub ghost struct BuildInputsView {
    pub libraries: Seq<OutcomeView>,
    pub listing: Seq<Seq<char>>,
    pub c_dependencies: Seq<OutcomeView>,
    pub cpp_dependencies: Seq<OutcomeView>,
    pub cobol: OutcomeView,
    pub no_color: bool,
}

impl DeepView for BuildInputs {
    type V = BuildInputsView;

    open spec fn deep_view(&self) -> BuildInputsView {
        BuildInputsView {
            libraries: self.libraries.deep_view(),
            listing: self.listing.deep_view(),
            c_dependencies: self.c_dependencies.deep_view(),
            cpp_dependencies: self.cpp_dependencies.deep_view(),
            cobol: self.cobol@,
            no_color: self.no_color,
        }
    }
}

impl View for BuildInputs {
    type V = BuildInputsView;

    open spec fn view(&self) -> BuildInputsView {
        self.deep_view()
    }
}

/// The file name of the artifact: the project's name for an executable,
/// and the name between `lib` and the suffix of its kind for a library.
pub open spec fn artifact_name(kind: ProjectType, name: Seq<char>) -> Seq<char> {
    match kind {
        ProjectType::Executable => name,
        ProjectType::SharedLibrary => "lib"@ + name + ".so"@,
        ProjectType::StaticLibrary => "lib"@ + name + ".a"@,
    }
}

/// The command that makes the artifact from the objects.
pub open spec fn link_command(kind: ProjectType) -> Seq<char> {
    match kind {
        ProjectType::Executable => "@$(LD) $(OBJECTS) -o $@ $(LDFLAGS)"@,
        ProjectType::SharedLibrary => "@$(LD) -shared $(OBJECTS) -o $@ $(LDFLAGS)"@,
        ProjectType::StaticLibrary => "@ar rcs $@ $(OBJECTS)"@,
    }
}

/// The variables that colour the messages of the build.
pub open spec fn palette(no_color: bool) -> Seq<(Seq<char>, Seq<char>)> {
    if no_color {
        seq![("GREEN"@, "''"@), ("BLUE"@, "''"@), ("RESET"@, "''"@), ("DIM"@, "''"@)]
    } else {
        seq![
            ("GREEN"@, "`tput setaf 2``tput bold`"@),
            ("BLUE"@, "`tput setaf 4``tput bold`"@),
            ("RESET"@, "`tput sgr0`"@),
            ("DIM"@, "`tput dim`"@),
        ]
    }
}

/// What the COBOL runtime asks the linker for: nothing where no COBOL unit
/// is among the sources, and else what the query wrote.
pub open spec fn cobol_runtime(sources: Seq<Seq<char>>, outcome: OutcomeView) -> Result<
    Seq<char>,
    BargeError,
> {
    if units_of(sources, Language::Cobol).len() == 0 {
        Ok(Seq::<char>::empty())
    } else {
        match outcome {
            OutcomeView::Finished { output, .. } => Ok(output),
            OutcomeView::Unreadable { .. } => Err(BargeError::Utf8Error("cob-config")),
            OutcomeView::NotStarted => Err(BargeError::ToolInvocationError("cob-config")),
        }
    }
}

/// The variables of a build plan, in order.
pub open spec fn build_variables(
    project: ProjectView,
    target: BuildTarget,
    flags: FlagSetView,
    objects: Seq<Seq<char>>,
    no_color: bool,
) -> Seq<(Seq<char>, Seq<char>)> {
    seq![
        ("TARGET"@, target.name()),
        ("CC"@, toolset_executables(project.resolved_toolset()).0),
        ("CFLAGS"@, flags.c),
        ("CXX"@, toolset_executables(project.resolved_toolset()).1),
        ("CXXFLAGS"@, flags.cpp),
        ("FC"@, toolset_executables(project.resolved_toolset()).2),
        ("FORTRANFLAGS"@, flags.fortran),
        ("COBOLFLAGS"@, flags.cobol),
        ("LD"@, toolset_linker(project.resolved_toolset())),
        ("LDFLAGS"@, flags.link),
        ("NAME"@, artifact_name(project.project_type, project.name)),
        ("OBJECTS"@, joined(objects, " "@)),
    ] + palette(no_color)
}

/// The rule that compiles the units with the extension `extension` by
/// `command`.
pub open spec fn compile_rule(extension: Seq<char>, command: Seq<char>) -> RuleView {
    RuleView {
        target: "build/$(TARGET)/obj/%."@ + extension + ".o"@,
        prerequisites: "src/%."@ + extension,
        recipe: seq![
            "@mkdir -p $(dir $@)"@,
            "@echo $(GREEN)Compiling$(RESET) $(DIM)$<$(RESET)"@,
            command,
        ],
    }
}

/// The rules of a build plan, in order: the entry point, the link rule of
/// the artifact kind, and one compile rule for each language.
pub open spec fn build_rules(kind: ProjectType) -> Seq<RuleView> {
    seq![
        RuleView {
            target: ".PHONY"@,
            prerequisites: "all"@,
            recipe: Seq::<Seq<char>>::empty(),
        },
        RuleView {
            target: "all"@,
            prerequisites: "build/$(TARGET)/$(NAME)"@,
            recipe: Seq::<Seq<char>>::empty(),
        },
        RuleView {
            target: "build/$(TARGET)/$(NAME)"@,
            prerequisites: "$(OBJECTS)"@,
            recipe: seq![
                "@mkdir -p $(dir $@)"@,
                "@echo $(BLUE)Linking$(RESET) $(DIM)$@$(RESET)"@,
                link_command(kind),
            ],
        },
        compile_rule("c"@, "@$(CC) $(CFLAGS) -c $< -o $@"@),
        compile_rule("cpp"@, "@$(CXX) $(CXXFLAGS) -c $< -o $@"@),
        compile_rule("s"@, "@$(CC) -c $< -o $@"@),
        compile_rule("f90"@, "@$(FC) $(FORTRANFLAGS) -c $< -o $@"@),
        compile_rule("cob"@, "@cobc -c $(COBOLFLAGS) $< -o $@"@),
    ]
}

/// The build plan of `project` for `target`, or the failure that stops the
/// synthesis: that of the first external library that is not resolved, or
/// that of the COBOL runtime query where a COBOL unit needs it.
pub open spec fn build_plan(
    project: ProjectView,
    target: BuildTarget,
    inputs: BuildInputsView,
) -> Result<BuildPlanView, BargeError> {
    match library_flags(declared(project.external_libraries), inputs.libraries) {
        Err(e) => Err(e),
        Ok(library) => {
            let sources = discovered(inputs.listing, CollectSourceFilesMode::All);
            let scripts = discovered(inputs.listing, CollectSourceFilesMode::LinkerScriptsOnly);
            match cobol_runtime(sources, inputs.cobol) {
                Err(e) => Err(e),
                Ok(cobol) => Ok(
                    BuildPlanView {
                        variables: build_variables(
                            project,
                            target,
                            assembled(project, target, library, sources, scripts, cobol),
                            object_paths(
                                target,
                                discovered(inputs.listing, CollectSourceFilesMode::CompiledOnly),
                            ),
                            inputs.no_color,
                        ),
                        rules: build_rules(project.project_type),
                        dependencies: seq![
                            dependency_lines(inputs.c_dependencies),
                            dependency_lines(inputs.cpp_dependencies),
                        ],
                    },
                ),
            }
        },
    }
}

/// The text of the build plan, or the failure that stops the synthesis.
pub open spec fn build_makefile(
    project: ProjectView,
    target: BuildTarget,
    inputs: BuildInputsView,
) -> Result<Seq<char>, BargeError> {
    match build_plan(project, target, inputs) {
        Ok(plan) => Ok(rendered(plan)),
        Err(e) => Err(e),
    }
}

/// The command that checks the units matched by `pattern` against the
/// language standard `standard`.
pub open spec fn analysis_command(pattern: Seq<char>, standard: Seq<char>) -> Seq<char> {
    "@for unit in $$(find src -type f -name '"@ + pattern
        + "'); do clang-tidy $$unit -- -std="@ + standard + " -Iinclude -Isrc; done"@
}

/// The plan of the static analysis of `project`.
pub open spec fn analysis_plan(project: ProjectView) -> BuildPlanView {
    BuildPlanView {
        variables: Seq::<(Seq<char>, Seq<char>)>::empty(),
        rules: seq![
            RuleView {
                target: ".PHONY"@,
                prerequisites: "analyze"@,
                recipe: Seq::<Seq<char>>::empty(),
            },
            RuleView {
                target: "analyze"@,
                prerequisites: ""@,
                recipe: seq![
                    analysis_command("*.c"@, project.resolved_c_standard()),
                    analysis_command("*.cpp"@, project.resolved_cpp_standard()),
                ],
            },
        ],
        dependencies: Seq::<Seq<char>>::empty(),
    }
}

/// The query for what the COBOL runtime asks the linker for.
pub open spec fn cobol_query() -> InvocationView {
    plain_invocation("cob-config"@, seq!["--libs"@])
}

/// Synthesis is deterministic. The text of the build plan is a function of
/// the descriptor, the target and the inputs, and of the files below the
/// source directory it reads which are there and not in which order they
/// were listed: two syntheses over the same files give the same text.
pub proof fn lemma_synthesis_deterministic(
    project: ProjectView,
    target: BuildTarget,
    first: BuildInputsView,
    second: BuildInputsView,
)
    requires
        first.listing.to_multiset() == second.listing.to_multiset(),
        first.libraries == second.libraries,
        first.c_dependencies == second.c_dependencies,
        first.cpp_dependencies == second.cpp_dependencies,
        first.cobol == second.cobol,
        first.no_color == second.no_color,
    ensures
        build_plan(project, target, first) == build_plan(project, target, second),
        build_makefile(project, target, first) == build_makefile(project, target, second),
{
    lemma_discovery_ignores_order(first.listing, second.listing, CollectSourceFilesMode::All);
    lemma_discovery_ignores_order(
        first.listing,
        second.listing,
        CollectSourceFilesMode::CompiledOnly,
    );
    lemma_discovery_ignores_order(
        first.listing,
        second.listing,
        CollectSourceFilesMode::LinkerScriptsOnly,
    );
}

/// The file name of the artifact of `project`.
pub fn get_artifact_name(project: &Project) -> (r: String)
    ensures
        r@ == artifact_name(project.project_type, project.name@),
{
    match project.project_type {
        ProjectType::Executable => project.name.clone(),
        ProjectType::SharedLibrary => {
            let mut out = "lib".to_owned();
            out.append(project.name.as_str());
            out.append(".so");
            out
        },
        ProjectType::StaticLibrary => {
            let mut out = "lib".to_owned();
            out.append(project.name.as_str());
            out.append(".a");
            out
        },
    }
}

/// The command that makes the artifact from the objects.
pub fn get_link_command(kind: ProjectType) -> (r: &'static str)
    ensures
        r@ == link_command(kind),
{
    match kind {
        ProjectType::Executable => "@$(LD) $(OBJECTS) -o $@ $(LDFLAGS)",
        ProjectType::SharedLibrary => "@$(LD) -shared $(OBJECTS) -o $@ $(LDFLAGS)",
        ProjectType::StaticLibrary => "@ar rcs $@ $(OBJECTS)",
    }
}

/// The query for what the COBOL runtime asks the linker for.
pub fn cobol_config_command() -> (r: Invocation)
    ensures
        r@ == cobol_query(),
{
    let mut arguments: Vec<String> = Vec::new();
    push_text(&mut arguments, "--libs");
    assert(arguments.deep_view() =~= seq!["--libs"@]);
    invocation("cob-config", arguments)
}

/// What the COBOL runtime asks the linker for.
pub fn get_cobol_ldflags(sources: &Vec<String>, outcome: &Outcome) -> (r: Result<String, BargeError>)
    ensures
        match r {
            Ok(flags) => cobol_runtime(sources.deep_view(), outcome@) == Ok::<Seq<char>, BargeError>(
                flags@,
            ),
            Err(e) => cobol_runtime(sources.deep_view(), outcome@) == Err::<Seq<char>, BargeError>(
                e,
            ),
        },
{
    let units = compiled_units(sources, Language::Cobol);
    if units.len() == 0 {
        Ok(String::new())
    } else {
        match outcome {
            Outcome::Finished { output, .. } => Ok(output.clone()),
            Outcome::Unreadable { .. } => Err(BargeError::Utf8Error("cob-config")),
            Outcome::NotStarted => Err(BargeError::ToolInvocationError("cob-config")),
        }
    }
}

fn add_palette(variables: &mut Vec<(String, String)>, no_color: bool)
    ensures
        final(variables).deep_view() == old(variables).deep_view() + palette(no_color),
{
    let ghost before = variables.deep_view();
    if no_color {
        push_pair(variables, "GREEN", "''");
        push_pair(variables, "BLUE", "''");
        push_pair(variables, "RESET", "''");
        push_pair(variables, "DIM", "''");
    } else {
        push_pair(variables, "GREEN", "`tput setaf 2``tput bold`");
        push_pair(variables, "BLUE", "`tput setaf 4``tput bold`");
        push_pair(variables, "RESET", "`tput sgr0`");
        push_pair(variables, "DIM", "`tput dim`");
    }
    assert(variables.deep_view() =~= before + palette(no_color));
}

fn variables_of(
    project: &Project,
    target: BuildTarget,
    flags: &FlagSet,
    objects: &Vec<String>,
    no_color: bool,
) -> (r: Vec<(String, String)>)
    ensures
        r.deep_view() == build_variables(
            project@,
            target,
            flags@,
            objects.deep_view(),
            no_color,
        ),
{
    let toolset = project.get_toolset();
    let (cc, cxx, fc) = get_toolset_executables(&toolset);
    let name = get_artifact_name(project);
    let object_list = join(objects, " ");
    let mut variables: Vec<(String, String)> = Vec::new();
    push_pair(&mut variables, "TARGET", target.as_str());
    push_pair(&mut variables, "CC", cc);
    push_pair(&mut variables, "CFLAGS", flags.c.as_str());
    push_pair(&mut variables, "CXX", cxx);
    push_pair(&mut variables, "CXXFLAGS", flags.cpp.as_str());
    push_pair(&mut variables, "FC", fc);
    push_pair(&mut variables, "FORTRANFLAGS", flags.fortran.as_str());
    push_pair(&mut variables, "COBOLFLAGS", flags.cobol.as_str());
    push_pair(&mut variables, "LD", get_linker(&toolset));
    push_pair(&mut variables, "LDFLAGS", flags.link.as_str());
    push_pair(&mut variables, "NAME", name.as_str());
    push_pair(&mut variables, "OBJECTS", object_list.as_str());
    proof {
        let ghost toolset_view = project@.resolved_toolset();
        assert(variables.deep_view() =~= seq![
            ("TARGET"@, target.name()),
            ("CC"@, toolset_executables(toolset_view).0),
            ("CFLAGS"@, flags@.c),
            ("CXX"@, toolset_executables(toolset_view).1),
            ("CXXFLAGS"@, flags@.cpp),
            ("FC"@, toolset_executables(toolset_view).2),
            ("FORTRANFLAGS"@, flags@.fortran),
            ("COBOLFLAGS"@, flags@.cobol),
            ("LD"@, toolset_linker(toolset_view)),
            ("LDFLAGS"@, flags@.link),
            ("NAME"@, artifact_name(project.project_type, project.name@)),
            ("OBJECTS"@, joined(objects.deep_view(), " "@)),
        ]);
    }
    add_palette(&mut variables, no_color);
    variables
}

fn rule_for(extension: &str, command: &str) -> (r: Rule)
    ensures
        r@ == compile_rule(extension@, command@),
{
    let mut target = "build/$(TARGET)/obj/%.".to_owned();
    target.append(extension);
    target.append(".o");
    let mut prerequisites = "src/%.".to_owned();
    prerequisites.append(extension);
    let mut recipe: Vec<String> = Vec::new();
    push_text(&mut recipe, "@mkdir -p $(dir $@)");
    push_text(&mut recipe, "@echo $(GREEN)Compiling$(RESET) $(DIM)$<$(RESET)");
    push_text(&mut recipe, command);
    assert(recipe.deep_view() =~= seq![
        "@mkdir -p $(dir $@)"@,
        "@echo $(GREEN)Compiling$(RESET) $(DIM)$<$(RESET)"@,
        command@,
    ]);
    rule(target.as_str(), prerequisites.as_str(), recipe)
}

fn rules_of(kind: ProjectType) -> (r: Vec<Rule>)
    ensures
        r.deep_view() == build_rules(kind),
{
    let mut rules: Vec<Rule> = Vec::new();
    let phony = rule(".PHONY", "all", Vec::new());
    let all = rule("all", "build/$(TARGET)/$(NAME)", Vec::new());
    let mut recipe: Vec<String> = Vec::new();
    push_text(&mut recipe, "@mkdir -p $(dir $@)");
    push_text(&mut recipe, "@echo $(BLUE)Linking$(RESET) $(DIM)$@$(RESET)");
    push_text(&mut recipe, get_link_command(kind));
    assert(recipe.deep_view() =~= seq![
        "@mkdir -p $(dir $@)"@,
        "@echo $(BLUE)Linking$(RESET) $(DIM)$@$(RESET)"@,
        link_command(kind),
    ]);
    let link = rule("build/$(TARGET)/$(NAME)", "$(OBJECTS)", recipe);
    let c = rule_for("c", "@$(CC) $(CFLAGS) -c $< -o $@");
    let cpp = rule_for("cpp", "@$(CXX) $(CXXFLAGS) -c $< -o $@");
    let assembly = rule_for("s", "@$(CC) -c $< -o $@");
    let fortran = rule_for("f90", "@$(FC) $(FORTRANFLAGS) -c $< -o $@");
    let cobol = rule_for("cob", "@cobc -c $(COBOLFLAGS) $< -o $@");
    proof {
        assert(phony@.recipe =~= Seq::<Seq<char>>::empty());
        assert(all@.recipe =~= Seq::<Seq<char>>::empty());
    }
    let ghost views = seq![phony@, all@, link@, c@, cpp@, assembly@, fortran@, cobol@];
    rules.push(phony);
    rules.push(all);
    rules.push(link);
    rules.push(c);
    rules.push(cpp);
    rules.push(assembly);
    rules.push(fortran);
    rules.push(cobol);
    assert(rules.deep_view() =~= views);
    assert(views =~= build_rules(kind));
    rules
}

/// Synthesizes the build plan of `project` for `target`.
pub fn synthesize(project: &Project, target: BuildTarget, inputs: &BuildInputs) -> (r: Result<
    BuildPlan,
    BargeError,
>)
    ensures
        match r {
            Ok(plan) => build_plan(project@, target, inputs@) == Ok::<BuildPlanView, BargeError>(
                plan@,
            ),
            Err(e) => build_plan(project@, target, inputs@) == Err::<BuildPlanView, BargeError>(e),
        },
{
    let library = match build_library_flags(&project.external_libraries, &inputs.libraries) {
        Ok(flags) => flags,
        Err(e) => {
            return Err(e);
        },
    };
    let c_dependencies = get_dependencies_for_project(&inputs.c_dependencies);
    let cpp_dependencies = get_dependencies_for_project(&inputs.cpp_dependencies);
    let sources = collect_source_files(CollectSourceFilesMode::All, &inputs.listing);
    let scripts = collect_source_files(CollectSourceFilesMode::LinkerScriptsOnly, &inputs.listing);
    let cobol = match get_cobol_ldflags(&sources, &inputs.cobol) {
        Ok(flags) => flags,
        Err(e) => {
            return Err(e);
        },
    };
    let flags = assemble(project, target, &library, &sources, &scripts, cobol.as_str());
    let units = collect_source_files(CollectSourceFilesMode::CompiledOnly, &inputs.listing);
    let objects = get_object_paths(target, &units);
    let variables = variables_of(project, target, &flags, &objects, inputs.no_color);
    let rules = rules_of(project.project_type);
    let mut dependencies: Vec<String> = Vec::new();
    push_text(&mut dependencies, c_dependencies.lines.as_str());
    push_text(&mut dependencies, cpp_dependencies.lines.as_str());
    assert(dependencies.deep_view() =~= seq![
        dependency_lines(inputs@.c_dependencies),
        dependency_lines(inputs@.cpp_dependencies),
    ]);
    Ok(BuildPlan { variables, rules, dependencies })
}

/// The text of the build plan of `project` for `target`, as the build
/// executor reads it.
pub fn generate_build_makefile(project: &Project, target: BuildTarget, inputs: &BuildInputs) -> (r:
    Result<String, BargeError>)
    ensures
        match r {
            Ok(text) => build_makefile(project@, target, inputs@) == Ok::<Seq<char>, BargeError>(
                text@,
            ),
            Err(e) => build_makefile(project@, target, inputs@) == Err::<Seq<char>, BargeError>(e),
        },
{
    match synthesize(project, target, inputs) {
        Ok(plan) => Ok(render(&plan)),
        Err(e) => Err(e),
    }
}

fn analysis(pattern: &str, standard: &str) -> (r: String)
    ensures
        r@ == analysis_command(pattern@, standard@),
{
    let mut out = "@for unit in $$(find src -type f -name '".to_owned();
    out.append(pattern);
    out.append("'); do clang-tidy $$unit -- -std=");
    out.append(standard);
    out.append(" -Iinclude -Isrc; done");
    out
}

/// The text of the plan of the static analysis of `project`.
pub fn generate_analyze_makefile(project: &Project) -> (r: Result<String, BargeError>)
    ensures
        r matches Ok(text) && text@ == rendered(analysis_plan(project@)),
{
    let phony = rule(".PHONY", "analyze", Vec::new());
    let mut recipe: Vec<String> = Vec::new();
    let c = analysis("*.c", project.get_c_standard());
    let cpp = analysis("*.cpp", project.get_cpp_standard());
    push_text(&mut recipe, c.as_str());
    push_text(&mut recipe, cpp.as_str());
    assert(recipe.deep_view() =~= seq![
        analysis_command("*.c"@, project@.resolved_c_standard()),
        analysis_command("*.cpp"@, project@.resolved_cpp_standard()),
    ]);
    let analyze = rule("analyze", "", recipe);
    proof {
        assert(phony@.recipe =~= Seq::<Seq<char>>::empty());
    }
    let ghost views = seq![phony@, analyze@];
    let mut rules: Vec<Rule> = Vec::new();
    rules.push(phony);
    rules.push(analyze);
    assert(rules.deep_view() =~= views);
    let plan = BuildPlan { variables: Vec::new(), rules, dependencies: Vec::new() };
    proof {
        assert(plan@.variables =~= Seq::<(Seq<char>, Seq<char>)>::empty());
        assert(plan@.dependencies =~= Seq::<Seq<char>>::empty());
        assert(plan@ == analysis_plan(project@));
    }
    Ok(render(&plan))
}

} // verus!
