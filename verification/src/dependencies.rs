//! The dependency extractor: for each compiled unit, the query that asks
//! the preprocessor for the headers it depends on, and the dependency lines
//! that the answers make up.
//!
//! Extraction is best effort. A unit whose query could not be run gives no
//! lines, so that the unit is rebuilt only when it changes itself; it does
//! not fail the build. How many units are covered is reported beside the
//! lines.

use vstd::prelude::*;
use vstd::string::StringExecFns;
use crate::command::{invocation, plain_invocation, push_text, Invocation, InvocationView, Outcome, OutcomeView};
use crate::makefile::BuildTarget;
use crate::text::{starts_with, strip_prefix, trim_end, trimmed_end};

verus! {

/// The path of a source file below the source directory; a path that is not
/// below it stands for itself.
pub open spec fn relative_path(source: Seq<char>) -> Seq<char> {
    if starts_with(source, "src/"@) {
        source.subrange("src/"@.len() as int, source.len() as int)
    } else {
        source
    }
}

/// The object directory of a target.
pub open spec fn object_directory(target: BuildTarget) -> Seq<char> {
    "build/"@ + target.name() + "/obj"@
}

/// The binary directory of a target.
pub open spec fn binary_directory(target: BuildTarget) -> Seq<char> {
    "build/"@ + target.name()
}

/// The object file of a source file: the path of the source below the
/// source directory, mirrored below the object directory of the target,
/// with `.o` behind it.
pub open spec fn object_path(target: BuildTarget, source: Seq<char>) -> Seq<char> {
    object_directory(target) + "/"@ + relative_path(source) + ".o"@
}

/// The object files of `sources`, in their order.
pub open spec fn object_paths(target: BuildTarget, sources: Seq<Seq<char>>) -> Seq<Seq<char>>
    decreases sources.len(),
{
    if sources.len() == 0 {
        Seq::<Seq<char>>::empty()
    } else {
        object_paths(target, sources.drop_last()).push(object_path(target, sources.last()))
    }
}

/// The query that asks the preprocessor for the dependency rule of
/// `source`, with the object file of `source` as the rule's target.
pub open spec fn dependency_query(target: BuildTarget, source: Seq<char>) -> InvocationView {
    plain_invocation(
        "clang++"@,
        seq!["-MM"@, "-MT"@, object_path(target, source), "-Iinclude"@, "-Isrc"@, source],
    )
}

/// The dependency queries of `sources`, in their order.
pub open spec fn dependency_queries(target: BuildTarget, sources: Seq<Seq<char>>) -> Seq<
    InvocationView,
>
    decreases sources.len(),
{
    if sources.len() == 0 {
        Seq::<InvocationView>::empty()
    } else {
        dependency_queries(target, sources.drop_last()).push(
            dependency_query(target, sources.last()),
        )
    }
}

/// What the queries that ran wrote, one answer after the other. A query
/// that wrote what is no text gives nothing.
pub open spec fn answers(outcomes: Seq<OutcomeView>) -> Seq<char>
    decreases outcomes.len(),
{
    if outcomes.len() == 0 {
        Seq::<char>::empty()
    } else {
        let head = answers(outcomes.drop_last());
        match outcomes.last() {
            OutcomeView::Finished { output, .. } => head + output,
            OutcomeView::Unreadable { .. } => head,
            OutcomeView::NotStarted => head,
        }
    }
}

/// How many of the queries ran.
pub open spec fn coverage(outcomes: Seq<OutcomeView>) -> nat
    decreases outcomes.len(),
{
    if outcomes.len() == 0 {
        0
    } else {
        let head = coverage(outcomes.drop_last());
        match outcomes.last() {
            OutcomeView::Finished { .. } => head + 1,
            OutcomeView::Unreadable { .. } => head + 1,
            OutcomeView::NotStarted => head,
        }
    }
}

/// The dependency lines that the outcomes make up: the answers, without the
/// white space at their end.
pub open spec fn dependency_lines(outcomes: Seq<OutcomeView>) -> Seq<char> {
    trimmed_end(answers(outcomes))
}

/// The dependency lines of the units of one language.
#[derive(Debug, Clone, PartialEq, Eq)]
pub struct Dependencies {
    /// The lines, ready to stand in a build plan.
    pub lines: String,
    /// How many units had their query run.
    pub covered: usize,
    /// How many units were asked about.
    pub units: usize,
}

/// The binary directory of `target`.
pub fn get_binary_directory(target: BuildTarget) -> (r: String)
    ensures
        r@ == binary_directory(target),
{
    let mut out = "build/".to_owned();
    out.append(target.as_str());
    out
}

/// The object directory of `target`.
pub fn get_object_directory(target: BuildTarget) -> (r: String)
    ensures
        r@ == object_directory(target),
{
    let mut out = get_binary_directory(target);
    out.append("/obj");
    out
}

/// The object file of `source`.
pub fn get_object_path(target: BuildTarget, source: &str) -> (r: String)
    ensures
        r@ == object_path(target, source@),
{
    let mut out = get_object_directory(target);
    out.append("/");
    match strip_prefix(source, "src/") {
        Some(rest) => {
            out.append(rest);
        },
        None => {
            out.append(source);
        },
    }
    out.append(".o");
    out
}

/// The object files of `sources`, in their order.
pub fn get_object_paths(target: BuildTarget, sources: &Vec<String>) -> (r: Vec<String>)
    ensures
        r.deep_view() == object_paths(target, sources.deep_view()),
{
    let mut out: Vec<String> = Vec::new();
    let mut i: usize = 0;
    proof {
        assert(sources.deep_view().take(0) =~= Seq::<Seq<char>>::empty());
        assert(out.deep_view() =~= Seq::<Seq<char>>::empty());
    }
    while i < sources.len()
        invariant
            i <= sources.len(),
            out.deep_view() == object_paths(target, sources.deep_view().take(i as int)),
        decreases sources.len() - i,
    {
        proof {
            let before = sources.deep_view().take(i as int);
            let after = sources.deep_view().take(i + 1);
            assert(after.drop_last() =~= before);
            assert(after.last() == sources[i as int]@);
        }
        let object = get_object_path(target, sources[i].as_str());
        push_text(&mut out, object.as_str());
        i = i + 1;
    }
    proof {
        assert(sources.deep_view().take(i as int) =~= sources.deep_view());
    }
    out
}

/// The query that asks for the dependency rule of `source`.
pub fn dependency_command(target: BuildTarget, source: &str) -> (r: Invocation)
    ensures
        r@ == dependency_query(target, source@),
{
    let object = get_object_path(target, source);
    let mut arguments: Vec<String> = Vec::new();
    push_text(&mut arguments, "-MM");
    push_text(&mut arguments, "-MT");
    push_text(&mut arguments, object.as_str());
    push_text(&mut arguments, "-Iinclude");
    push_text(&mut arguments, "-Isrc");
    push_text(&mut arguments, source);
    assert(arguments.deep_view() =~= seq![
        "-MM"@,
        "-MT"@,
        object_path(target, source@),
        "-Iinclude"@,
        "-Isrc"@,
        source@,
    ]);
    invocation("clang++", arguments)
}

/// The dependency queries of `sources`, in their order.
pub fn dependency_commands(target: BuildTarget, sources: &Vec<String>) -> (r: Vec<Invocation>)
    ensures
        r.deep_view() == dependency_queries(target, sources.deep_view()),
{
    let mut out: Vec<Invocation> = Vec::new();
    let mut i: usize = 0;
    proof {
        assert(sources.deep_view().take(0) =~= Seq::<Seq<char>>::empty());
        assert(out.deep_view() =~= Seq::<InvocationView>::empty());
    }
    while i < sources.len()
        invariant
            i <= sources.len(),
            out.deep_view() == dependency_queries(target, sources.deep_view().take(i as int)),
        decreases sources.len() - i,
    {
        proof {
            let before = sources.deep_view().take(i as int);
            let after = sources.deep_view().take(i + 1);
            assert(after.drop_last() =~= before);
            assert(after.last() == sources[i as int]@);
        }
        let ghost previous = out.deep_view();
        let query = dependency_command(target, sources[i].as_str());
        out.push(query);
        assert(out.deep_view() =~= previous.push(query@));
        i = i + 1;
    }
    proof {
        assert(sources.deep_view().take(i as int) =~= sources.deep_view());
    }
    out
}

/// The dependency lines that the outcomes of the dependency queries make
/// up, and how many of the queries ran.
pub fn get_dependencies_for_project(outcomes: &Vec<Outcome>) -> (r: Dependencies)
    ensures
        r.lines@ == dependency_lines(outcomes.deep_view()),
        r.covered == coverage(outcomes.deep_view()),
        r.units == outcomes.len(),
        r.covered <= r.units,
{
    let mut text = String::new();
    let mut covered: usize = 0;
    let mut i: usize = 0;
    proof {
        assert(outcomes.deep_view().take(0) =~= Seq::<OutcomeView>::empty());
    }
    while i < outcomes.len()
        invariant
            i <= outcomes.len(),
            covered <= i,
            text@ == answers(outcomes.deep_view().take(i as int)),
            covered == coverage(outcomes.deep_view().take(i as int)),
        decreases outcomes.len() - i,
    {
        proof {
            let before = outcomes.deep_view().take(i as int);
            let after = outcomes.deep_view().take(i + 1);
            assert(after.drop_last() =~= before);
            assert(after.last() == outcomes[i as int]@);
        }
        match &outcomes[i] {
            Outcome::Finished { output, .. } => {
                text.append(output.as_str());
                covered = covered + 1;
            },
            Outcome::Unreadable { .. } => {
                covered = covered + 1;
            },
            Outcome::NotStarted => {},
        }
        i = i + 1;
    }
    proof {
        assert(outcomes.deep_view().take(i as int) =~= outcomes.deep_view());
    }
    let lines = trim_end(text.as_str()).to_owned();
    Dependencies { lines, covered, units: outcomes.len() }
}

} // verus!
