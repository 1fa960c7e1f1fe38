//! The build target and the textual form of a build plan.
//!
//! A build plan is an ordered list of variables, an ordered list of rules
//! and the dependency lines of the compiled units. It is turned into text
//! only here, at the boundary to the build executor.

use vstd::prelude::*;
use vstd::string::StringExecFns;
use crate::error::BargeError;
use crate::text::same_text;

verus! {

/// The bundle of optimisation and debugging flags that a build uses, and
/// the directory tree that it writes to.
#[derive(Debug, Clone, Copy, PartialEq, Eq, Structural)]
pub enum BuildTarget {
    Debug,
    Release,
}

impl BuildTarget {
    /// The name of the target, as the user gives it and as it stands in
    /// paths.
    pub open spec fn name(self) -> Seq<char> {
        match self {
            BuildTarget::Debug => "debug"@,
            BuildTarget::Release => "release"@,
        }
    }

    /// The name of the target.
    pub fn as_str(&self) -> (r: &'static str)
        ensures
            r@ == self.name(),
    {
        match self {
            BuildTarget::Debug => "debug",
            BuildTarget::Release => "release",
        }
    }

    /// The name of the target, as a text of its own.
    pub fn to_string(&self) -> (r: String)
        ensures
            r@ == self.name(),
    {
        self.as_str().to_owned()
    }

    /// The target that `string` names. The names are case sensitive, and a
    /// string that is not one of them names no target.
    pub fn try_from(string: &str) -> (r: Result<BuildTarget, BargeError>)
        ensures
            r == target_named(string@),
    {
        if same_text(string, "debug") {
            Ok(BuildTarget::Debug)
        } else if same_text(string, "release") {
            Ok(BuildTarget::Release)
        } else {
            Err(BargeError::InvalidValue("Invalid target specified"))
        }
    }
}

/// The target that `token` names, or the failure where it names none.
pub open spec fn target_named(token: Seq<char>) -> Result<BuildTarget, BargeError> {
    if token == "debug"@ {
        Ok(BuildTarget::Debug)
    } else if token == "release"@ {
        Ok(BuildTarget::Release)
    } else {
        Err(BargeError::InvalidValue("Invalid target specified"))
    }
}

/// The target of an invocation: the one that the user named, or the debug
/// target where the user named none.
pub open spec fn target_chosen(token: Option<Seq<char>>) -> Result<BuildTarget, BargeError> {
    match token {
        Some(name) => target_named(name),
        None => Ok(BuildTarget::Debug),
    }
}

/// The target of an invocation: the one that the user named, or the debug
/// target where the user named none. A name that is no target's is an
/// invalid value; it never stands for the debug target.
pub fn parse_build_target(target: Option<&String>) -> (r: Result<BuildTarget, BargeError>)
    ensures
        r == target_chosen(target.deep_view()),
{
    match target {
        Some(name) => BuildTarget::try_from(name.as_str()),
        None => Ok(BuildTarget::Debug),
    }
}

/// A target is named by its own name and by nothing else: parsing what
/// `name` gives yields the target back, and every other string is refused
/// as an invalid value.
pub proof fn lemma_target_names(target: BuildTarget, token: Seq<char>)
    ensures
        target_named(target.name()) == Ok::<BuildTarget, BargeError>(target),
        token != "debug"@ && token != "release"@ ==> target_named(token) == Err::<
            BuildTarget,
            BargeError,
        >(BargeError::InvalidValue("Invalid target specified")),
        target_named(token) is Ok ==> token == target_named(token).unwrap().name(),
{
    reveal_strlit("debug");
    reveal_strlit("release");
    assert("debug"@.len() == 5);
    assert("release"@.len() == 7);
}

/// One rule of a build plan.
#[derive(Debug, Clone, PartialEq, Eq)]
pub struct Rule {
    /// What the rule makes.
    pub target: String,
    /// What it is made from.
    pub prerequisites: String,
    /// The commands that make it, in order.
    pub recipe: Vec<String>,
}

/// One rule of a build plan, as sequences of characters.
pub ghost struct RuleView {
    pub target: Seq<char>,
    pub prerequisites: Seq<char>,
    pub recipe: Seq<Seq<char>>,
}

impl DeepView for Rule {
    type V = RuleView;

    open spec fn deep_view(&self) -> RuleView {
        RuleView {
            target: self.target@,
            prerequisites: self.prerequisites@,
            recipe: self.recipe.deep_view(),
        }
    }
}

impl View for Rule {
    type V = RuleView;

    open spec fn view(&self) -> RuleView {
        self.deep_view()
    }
}

/// A build description: what the build executor is given to carry out.
#[derive(Debug, Clone, PartialEq, Eq)]
pub struct BuildPlan {
    /// The variables, as pairs of name and value, in order.
    pub variables: Vec<(String, String)>,
    /// The rules, in order.
    pub rules: Vec<Rule>,
    /// The dependency lines of the compiled units, one block per language.
    pub dependencies: Vec<String>,
}

/// A build description, as sequences of characters.
pub ghost struct BuildPlanView {
    pub variables: Seq<(Seq<char>, Seq<char>)>,
    pub rules: Seq<RuleView>,
    pub dependencies: Seq<Seq<char>>,
}

impl DeepView for BuildPlan {
    type V = BuildPlanView;

    open spec fn deep_view(&self) -> BuildPlanView {
        BuildPlanView {
            variables: self.variables.deep_view(),
            rules: self.rules.deep_view(),
            dependencies: self.dependencies.deep_view(),
        }
    }
}

impl View for BuildPlan {
    type V = BuildPlanView;

    open spec fn view(&self) -> BuildPlanView {
        self.deep_view()
    }
}

/// The line that sets one variable.
pub open spec fn variable_line(variable: (Seq<char>, Seq<char>)) -> Seq<char> {
    variable.0 + "="@ + variable.1 + "\n"@
}

/// The lines that set the variables, in order.
pub open spec fn variables_text(variables: Seq<(Seq<char>, Seq<char>)>) -> Seq<char>
    decreases variables.len(),
{
    if variables.len() == 0 {
        Seq::<char>::empty()
    } else {
        variables_text(variables.drop_last()) + variable_line(variables.last())
    }
}

/// The commands of a recipe, each on a line of its own behind a tab.
pub open spec fn recipe_text(recipe: Seq<Seq<char>>) -> Seq<char>
    decreases recipe.len(),
{
    if recipe.len() == 0 {
        Seq::<char>::empty()
    } else {
        recipe_text(recipe.drop_last()) + "\t"@ + recipe.last() + "\n"@
    }
}

/// One rule: its target and prerequisites on one line, its recipe, and an
/// empty line.
pub open spec fn rule_text(rule: RuleView) -> Seq<char> {
    rule.target + ": "@ + rule.prerequisites + "\n"@ + recipe_text(rule.recipe) + "\n"@
}

/// The rules, in order.
pub open spec fn rules_text(rules: Seq<RuleView>) -> Seq<char>
    decreases rules.len(),
{
    if rules.len() == 0 {
        Seq::<char>::empty()
    } else {
        rules_text(rules.drop_last()) + rule_text(rules.last())
    }
}

/// The dependency blocks, each closed by a line end.
pub open spec fn dependencies_text(dependencies: Seq<Seq<char>>) -> Seq<char>
    decreases dependencies.len(),
{
    if dependencies.len() == 0 {
        Seq::<char>::empty()
    } else {
        dependencies_text(dependencies.drop_last()) + dependencies.last() + "\n"@
    }
}

/// The text of a build plan: the variables, an empty line, the rules, and
/// the dependency lines.
pub open spec fn rendered(plan: BuildPlanView) -> Seq<char> {
    variables_text(plan.variables) + "\n"@ + rules_text(plan.rules) + dependencies_text(
        plan.dependencies,
    )
}

fn render_variables(variables: &Vec<(String, String)>) -> (r: String)
    ensures
        r@ == variables_text(variables.deep_view()),
{
    let mut out = String::new();
    let mut i: usize = 0;
    proof {
        assert(variables.deep_view().take(0) =~= Seq::<(Seq<char>, Seq<char>)>::empty());
    }
    while i < variables.len()
        invariant
            i <= variables.len(),
            out@ == variables_text(variables.deep_view().take(i as int)),
        decreases variables.len() - i,
    {
        proof {
            let before = variables.deep_view().take(i as int);
            let after = variables.deep_view().take(i + 1);
            assert(after.drop_last() =~= before);
            assert(after.last() == (variables[i as int].0@, variables[i as int].1@));
        }
        let ghost start = out@;
        out.append(variables[i].0.as_str());
        out.append("=");
        out.append(variables[i].1.as_str());
        out.append("\n");
        proof {
            let v = (variables[i as int].0@, variables[i as int].1@);
            assert(out@ =~= start + variable_line(v));
        }
        i = i + 1;
    }
    proof {
        assert(variables.deep_view().take(i as int) =~= variables.deep_view());
    }
    out
}

fn render_recipe(recipe: &Vec<String>) -> (r: String)
    ensures
        r@ == recipe_text(recipe.deep_view()),
{
    let mut out = String::new();
    let mut i: usize = 0;
    proof {
        assert(recipe.deep_view().take(0) =~= Seq::<Seq<char>>::empty());
    }
    while i < recipe.len()
        invariant
            i <= recipe.len(),
            out@ == recipe_text(recipe.deep_view().take(i as int)),
        decreases recipe.len() - i,
    {
        proof {
            let before = recipe.deep_view().take(i as int);
            let after = recipe.deep_view().take(i + 1);
            assert(after.drop_last() =~= before);
            assert(after.last() == recipe[i as int]@);
        }
        out.append("\t");
        out.append(recipe[i].as_str());
        out.append("\n");
        i = i + 1;
    }
    proof {
        assert(recipe.deep_view().take(i as int) =~= recipe.deep_view());
    }
    out
}

fn render_rule(rule: &Rule) -> (r: String)
    ensures
        r@ == rule_text(rule@),
{
    let mut out = rule.target.clone();
    out.append(": ");
    out.append(rule.prerequisites.as_str());
    out.append("\n");
    let recipe = render_recipe(&rule.recipe);
    out.append(recipe.as_str());
    out.append("\n");
    out
}

fn render_rules(rules: &Vec<Rule>) -> (r: String)
    ensures
        r@ == rules_text(rules.deep_view()),
{
    let mut out = String::new();
    let mut i: usize = 0;
    proof {
        assert(rules.deep_view().take(0) =~= Seq::<RuleView>::empty());
    }
    while i < rules.len()
        invariant
            i <= rules.len(),
            out@ == rules_text(rules.deep_view().take(i as int)),
        decreases rules.len() - i,
    {
        proof {
            let before = rules.deep_view().take(i as int);
            let after = rules.deep_view().take(i + 1);
            assert(after.drop_last() =~= before);
            assert(after.last() == rules[i as int]@);
        }
        let text = render_rule(&rules[i]);
        out.append(text.as_str());
        i = i + 1;
    }
    proof {
        assert(rules.deep_view().take(i as int) =~= rules.deep_view());
    }
    out
}

fn render_dependencies(dependencies: &Vec<String>) -> (r: String)
    ensures
        r@ == dependencies_text(dependencies.deep_view()),
{
    let mut out = String::new();
    let mut i: usize = 0;
    proof {
        assert(dependencies.deep_view().take(0) =~= Seq::<Seq<char>>::empty());
    }
    while i < dependencies.len()
        invariant
            i <= dependencies.len(),
            out@ == dependencies_text(dependencies.deep_view().take(i as int)),
        decreases dependencies.len() - i,
    {
        proof {
            let before = dependencies.deep_view().take(i as int);
            let after = dependencies.deep_view().take(i + 1);
            assert(after.drop_last() =~= before);
            assert(after.last() == dependencies[i as int]@);
        }
        out.append(dependencies[i].as_str());
        out.append("\n");
        i = i + 1;
    }
    proof {
        assert(dependencies.deep_view().take(i as int) =~= dependencies.deep_view());
    }
    out
}

/// The text of `plan`, as the build executor reads it.
pub fn render(plan: &BuildPlan) -> (r: String)
    ensures
        r@ == rendered(plan@),
{
    let mut out = render_variables(&plan.variables);
    out.append("\n");
    let rules = render_rules(&plan.rules);
    out.append(rules.as_str());
    let dependencies = render_dependencies(&plan.dependencies);
    out.append(dependencies.as_str());
    out
}

/// A rule with the given target, prerequisites and recipe.
pub fn rule(target: &str, prerequisites: &str, recipe: Vec<String>) -> (r: Rule)
    ensures
        r@ == (RuleView {
            target: target@,
            prerequisites: prerequisites@,
            recipe: recipe.deep_view(),
        }),
{
    Rule { target: target.to_owned(), prerequisites: prerequisites.to_owned(), recipe }
}

} // verus!
