//! Resolution of the declared external libraries into compiler and linker
//! flags.
//!
//! A library with manual flags gives them as they stand. A library that is
//! looked up by name asks the package metadata tool twice, once for its
//! compiler flags and once for its linker flags. The caller runs the queries
//! in the order in which [`library_queries`] lists them and hands the
//! outcomes back in that order.

use vstd::prelude::*;
use crate::command::{invocation, plain_invocation, push_text, Invocation, InvocationView, Outcome, OutcomeView};
use crate::error::BargeError;
use crate::flags::{
    compose,
    composed,
    fragment_offset,
    fragment_words,
    lemma_composed_words,
    lemma_fragment_stands,
    lemma_fragments_in_order,
    lemma_words_trimmed_end,
    words,
};
use crate::project::{Library, LibraryView};
use crate::text::{lemma_trimmed_absorbs_end, trim_end, trimmed, trimmed_end};

verus! {

/// The query that asks the package metadata tool about the package `name`;
/// `mode` selects what is asked.
pub open spec fn package_query(name: Seq<char>, mode: Seq<char>) -> InvocationView {
    plain_invocation("pkg-config"@, seq![name, mode])
}

/// The queries for `libraries`, in the order in which their outcomes are
/// expected: for each library that is looked up by name, in declaration
/// order, the query for its compiler flags and then the one for its linker
/// flags.
pub open spec fn queries(libraries: Seq<LibraryView>) -> Seq<InvocationView>
    decreases libraries.len(),
{
    if libraries.len() == 0 {
        Seq::<InvocationView>::empty()
    } else {
        let head = queries(libraries.drop_last());
        match libraries.last() {
            LibraryView::PkgConfig { name } => head.push(package_query(name, "--cflags"@)).push(
                package_query(name, "--libs"@),
            ),
            LibraryView::Manual { .. } => head,
        }
    }
}

/// How many queries belong to the libraries before the one at `index`.
pub open spec fn queries_before(libraries: Seq<LibraryView>, index: int) -> int
    decreases index,
{
    if index <= 0 {
        0
    } else {
        queries_before(libraries, index - 1) + if libraries[index - 1] is PkgConfig {
            2int
        } else {
            0int
        }
    }
}

/// What a query answered: the text that the tool wrote, without the white
/// space that closes it, which is the line end. A query that could not be
/// run, that the tool refused or that wrote what is no text has no answer.
pub open spec fn query_answer(outcome: OutcomeView) -> Option<Seq<char>> {
    match outcome {
        OutcomeView::Finished { success, output } => if success {
            Some(trimmed_end(output))
        } else {
            None
        },
        OutcomeView::Unreadable { .. } => None,
        OutcomeView::NotStarted => None,
    }
}

/// Whether the query at `position` ended with success and wrote what is no
/// text.
pub open spec fn garbled_at(outcomes: Seq<OutcomeView>, position: int) -> bool {
    0 <= position < outcomes.len() && outcomes[position] == (OutcomeView::Unreadable {
        success: true,
    })
}

/// Why the query at `position`, which belongs to the library at `index`, has
/// no answer: an answer that is no text is an encoding failure, and every
/// other case, which is a tool that is not installed, a package that it
/// does not know or an outcome that is missing, fails the resolution of the
/// library.
pub open spec fn query_failure(outcomes: Seq<OutcomeView>, position: int, index: int) -> BargeError {
    if garbled_at(outcomes, position) {
        BargeError::Utf8Error("pkg-config")
    } else {
        BargeError::LibraryResolutionError(index as usize)
    }
}

/// The failure of the library at `index`, which is not resolved: that of
/// the first of its two queries that has no answer.
pub open spec fn resolution_failure(
    libraries: Seq<LibraryView>,
    outcomes: Seq<OutcomeView>,
    index: int,
) -> BargeError {
    let first = queries_before(libraries, index);
    if compile_fragment(libraries, outcomes, index) is None {
        query_failure(outcomes, first, index)
    } else {
        query_failure(outcomes, first + 1, index)
    }
}

/// The answer of the query at `position`; a query whose outcome is missing
/// has none.
pub open spec fn answer_at(outcomes: Seq<OutcomeView>, position: int) -> Option<Seq<char>> {
    if 0 <= position < outcomes.len() {
        query_answer(outcomes[position])
    } else {
        None
    }
}

/// The compiler flags of the library at `index`, if it is resolved.
pub open spec fn compile_fragment(
    libraries: Seq<LibraryView>,
    outcomes: Seq<OutcomeView>,
    index: int,
) -> Option<Seq<char>> {
    match libraries[index] {
        LibraryView::Manual { cflags, .. } => Some(cflags),
        LibraryView::PkgConfig { .. } => answer_at(outcomes, queries_before(libraries, index)),
    }
}

/// The linker flags of the library at `index`, if it is resolved.
pub open spec fn link_fragment(
    libraries: Seq<LibraryView>,
    outcomes: Seq<OutcomeView>,
    index: int,
) -> Option<Seq<char>> {
    match libraries[index] {
        LibraryView::Manual { ldflags, .. } => Some(ldflags),
        LibraryView::PkgConfig { .. } => answer_at(outcomes, queries_before(libraries, index) + 1),
    }
}

/// Whether both queries of the library at `index` were answered, or it
/// needs none.
pub open spec fn resolved(libraries: Seq<LibraryView>, outcomes: Seq<OutcomeView>, index: int) -> bool {
    compile_fragment(libraries, outcomes, index) is Some && link_fragment(
        libraries,
        outcomes,
        index,
    ) is Some
}

/// The first library at or behind `from` that is not resolved, or the
/// number of libraries where all of them are.
pub open spec fn first_unresolved(
    libraries: Seq<LibraryView>,
    outcomes: Seq<OutcomeView>,
    from: int,
) -> int
    decreases libraries.len() - from,
{
    if from >= libraries.len() {
        libraries.len() as int
    } else if !resolved(libraries, outcomes, from) {
        from
    } else {
        first_unresolved(libraries, outcomes, from + 1)
    }
}

/// The compiler flag fragments of all libraries, in declaration order.
pub open spec fn compile_fragments(libraries: Seq<LibraryView>, outcomes: Seq<OutcomeView>) -> Seq<
    Seq<char>,
> {
    Seq::new(libraries.len(), |i: int| compile_fragment(libraries, outcomes, i).unwrap())
}

/// The linker flag fragments of all libraries, in declaration order.
pub open spec fn link_fragments(libraries: Seq<LibraryView>, outcomes: Seq<OutcomeView>) -> Seq<
    Seq<char>,
> {
    Seq::new(libraries.len(), |i: int| link_fragment(libraries, outcomes, i).unwrap())
}

/// The compiler flags and the linker flags of `libraries`, or the failure
/// of the first library that is not resolved.
pub open spec fn library_flags(libraries: Seq<LibraryView>, outcomes: Seq<OutcomeView>) -> Result<
    (Seq<char>, Seq<char>),
    BargeError,
> {
    let failed = first_unresolved(libraries, outcomes, 0);
    if failed < libraries.len() {
        Err(resolution_failure(libraries, outcomes, failed))
    } else {
        Ok(
            (
                composed(compile_fragments(libraries, outcomes)),
                composed(link_fragments(libraries, outcomes)),
            ),
        )
    }
}

/// The libraries of a descriptor, none where the field is absent.
pub open spec fn declared(libraries: Option<Seq<LibraryView>>) -> Seq<LibraryView> {
    match libraries {
        Some(list) => list,
        None => Seq::<LibraryView>::empty(),
    }
}

/// The first unresolved library is in range, is not resolved, and every
/// library between `from` and it is resolved.
pub proof fn lemma_first_unresolved(
    libraries: Seq<LibraryView>,
    outcomes: Seq<OutcomeView>,
    from: int,
)
    requires
        0 <= from <= libraries.len(),
    ensures
        from <= first_unresolved(libraries, outcomes, from) <= libraries.len(),
        first_unresolved(libraries, outcomes, from) < libraries.len() ==> !resolved(
            libraries,
            outcomes,
            first_unresolved(libraries, outcomes, from),
        ),
        forall|i: int|
            from <= i < first_unresolved(libraries, outcomes, from) ==> resolved(
                libraries,
                outcomes,
                i,
            ),
    decreases libraries.len() - from,
{
    if from < libraries.len() && resolved(libraries, outcomes, from) {
        lemma_first_unresolved(libraries, outcomes, from + 1);
    }
}

/// Each library has its queries where `queries_before` counts them: the list
/// of queries is as long as the count over all libraries, and the two queries
/// of a library that is looked up by name stand at its count and behind it.
pub proof fn lemma_queries_placed(libraries: Seq<LibraryView>, index: int)
    requires
        0 <= index < libraries.len(),
    ensures
        queries(libraries).len() == queries_before(libraries, libraries.len() as int),
        0 <= queries_before(libraries, index),
        libraries[index] matches LibraryView::PkgConfig { name } ==> {
            &&& queries_before(libraries, index) + 1 < queries(libraries).len()
            &&& queries(libraries)[queries_before(libraries, index)] == package_query(
                name,
                "--cflags"@,
            )
            &&& queries(libraries)[queries_before(libraries, index) + 1] == package_query(
                name,
                "--libs"@,
            )
        },
    decreases libraries.len(),
{
    let rest = libraries.drop_last();
    lemma_queries_counted(libraries);
    lemma_queries_counted(rest);
    lemma_queries_before_prefix(libraries, rest, index);
    lemma_queries_before_prefix(libraries, rest, rest.len() as int);
    if index < rest.len() {
        lemma_queries_placed(rest, index);
    }
}

proof fn lemma_queries_before_prefix(whole: Seq<LibraryView>, part: Seq<LibraryView>, index: int)
    requires
        0 <= index <= part.len() <= whole.len(),
        forall|j: int| 0 <= j < part.len() ==> part[j] == whole[j],
    ensures
        queries_before(part, index) == queries_before(whole, index),
        0 <= queries_before(whole, index),
    decreases index,
{
    if index > 0 {
        lemma_queries_before_prefix(whole, part, index - 1);
    }
}

proof fn lemma_queries_counted(libraries: Seq<LibraryView>)
    ensures
        queries(libraries).len() == queries_before(libraries, libraries.len() as int),
    decreases libraries.len(),
{
    if libraries.len() > 0 {
        let rest = libraries.drop_last();
        lemma_queries_counted(rest);
        lemma_queries_before_prefix(libraries, rest, rest.len() as int);
    }
}

/// Flag order is declaration order. Where every library is resolved, the
/// compiler flags of a library stand in the composed compiler flags, and its
/// linker flags in the composed linker flags; and of two libraries whose
/// fragments hold more than white space, the one declared first has its
/// fragment end before that of the other begins.
pub proof fn lemma_flags_in_declaration_order(
    libraries: Seq<LibraryView>,
    outcomes: Seq<OutcomeView>,
    first: int,
    second: int,
)
    requires
        0 <= first < second < libraries.len(),
        library_flags(libraries, outcomes) is Ok,
    ensures
        ({
            let text = library_flags(libraries, outcomes).unwrap().0;
            let fragments = compile_fragments(libraries, outcomes);
            let a = trimmed(compile_fragment(libraries, outcomes, first).unwrap());
            let b = trimmed(compile_fragment(libraries, outcomes, second).unwrap());
            let p = fragment_offset(fragments, first);
            let q = fragment_offset(fragments, second);
            a.len() > 0 && b.len() > 0 ==> {
                &&& 0 <= p && p + a.len() < q && q + b.len() <= text.len()
                &&& text.subrange(p, p + a.len()) == a
                &&& text.subrange(q, q + b.len()) == b
            }
        }),
        ({
            let text = library_flags(libraries, outcomes).unwrap().1;
            let fragments = link_fragments(libraries, outcomes);
            let a = trimmed(link_fragment(libraries, outcomes, first).unwrap());
            let b = trimmed(link_fragment(libraries, outcomes, second).unwrap());
            let p = fragment_offset(fragments, first);
            let q = fragment_offset(fragments, second);
            a.len() > 0 && b.len() > 0 ==> {
                &&& 0 <= p && p + a.len() < q && q + b.len() <= text.len()
                &&& text.subrange(p, p + a.len()) == a
                &&& text.subrange(q, q + b.len()) == b
            }
        }),
{
    let compile = compile_fragments(libraries, outcomes);
    let link = link_fragments(libraries, outcomes);
    if trimmed(compile[first]).len() > 0 && trimmed(compile[second]).len() > 0 {
        lemma_fragment_stands(compile, first);
        lemma_fragment_stands(compile, second);
        lemma_fragments_in_order(compile, first, second);
    }
    if trimmed(link[first]).len() > 0 && trimmed(link[second]).len() > 0 {
        lemma_fragment_stands(link, first);
        lemma_fragment_stands(link, second);
        lemma_fragments_in_order(link, first, second);
    }
}

/// Resolution keeps the words of what the libraries give. Where every
/// library is resolved, the words of the compiler flags are the words of
/// the compiler flag fragments of the libraries, in declaration order, and
/// likewise for the linker flags: no word is dropped, added, given twice or
/// moved, and no two run into one. The fragment of a library that is looked
/// up by name holds the words of what its query wrote.
pub proof fn lemma_flags_keep_words(libraries: Seq<LibraryView>, outcomes: Seq<OutcomeView>)
    requires
        library_flags(libraries, outcomes) is Ok,
    ensures
        words(library_flags(libraries, outcomes).unwrap().0) == fragment_words(
            compile_fragments(libraries, outcomes),
        ),
        words(library_flags(libraries, outcomes).unwrap().1) == fragment_words(
            link_fragments(libraries, outcomes),
        ),
        forall|output: Seq<char>|
            words(
                #[trigger] query_answer(OutcomeView::Finished { success: true, output }).unwrap(),
            ) == words(output),
{
    lemma_composed_words(compile_fragments(libraries, outcomes));
    lemma_composed_words(link_fragments(libraries, outcomes));
    assert forall|output: Seq<char>|
        words(#[trigger] query_answer(OutcomeView::Finished { success: true, output }).unwrap())
            == words(output) by {
        lemma_words_trimmed_end(output);
    }
}

/// One library that is looked up by name, whose two queries end with
/// success, gives what the queries wrote, stripped of the white space
/// around it: the answer to the first query as the compiler flags and the
/// answer to the second as the linker flags.
pub proof fn lemma_single_package(name: Seq<char>, compile: Seq<char>, link: Seq<char>)
    ensures
        queries(seq![LibraryView::PkgConfig { name }]) == seq![
            package_query(name, "--cflags"@),
            package_query(name, "--libs"@),
        ],
        library_flags(
            seq![LibraryView::PkgConfig { name }],
            seq![
                OutcomeView::Finished { success: true, output: compile },
                OutcomeView::Finished { success: true, output: link },
            ],
        ) == Ok::<(Seq<char>, Seq<char>), BargeError>((trimmed(compile), trimmed(link))),
{
    let libraries = seq![LibraryView::PkgConfig { name }];
    let outcomes = seq![
        OutcomeView::Finished { success: true, output: compile },
        OutcomeView::Finished { success: true, output: link },
    ];
    assert(libraries.drop_last() =~= Seq::<LibraryView>::empty());
    assert(queries(libraries.drop_last()) =~= Seq::<InvocationView>::empty());
    assert(queries(libraries) =~= seq![
        package_query(name, "--cflags"@),
        package_query(name, "--libs"@),
    ]);
    assert(queries_before(libraries, 0) == 0);
    assert(compile_fragment(libraries, outcomes, 0) == Some(trimmed_end(compile)));
    assert(link_fragment(libraries, outcomes, 0) == Some(trimmed_end(link)));
    assert(resolved(libraries, outcomes, 0));
    assert(first_unresolved(libraries, outcomes, 1) == 1);
    assert(first_unresolved(libraries, outcomes, 0) == 1);
    let c = compile_fragments(libraries, outcomes);
    let l = link_fragments(libraries, outcomes);
    assert(c =~= seq![trimmed_end(compile)]);
    assert(l =~= seq![trimmed_end(link)]);
    lemma_trimmed_absorbs_end(compile);
    lemma_trimmed_absorbs_end(link);
    assert(c.drop_last() =~= Seq::<Seq<char>>::empty());
    assert(l.drop_last() =~= Seq::<Seq<char>>::empty());
    assert(composed(c.drop_last()) =~= Seq::<char>::empty());
    assert(composed(l.drop_last()) =~= Seq::<char>::empty());
    assert(composed(c) =~= trimmed(compile));
    assert(composed(l) =~= trimmed(link));
}

/// The query that asks the package metadata tool about the package `name`.
pub fn pkg_config_command(name: &str, mode: &str) -> (r: Invocation)
    ensures
        r@ == package_query(name@, mode@),
{
    let mut arguments: Vec<String> = Vec::new();
    push_text(&mut arguments, name);
    push_text(&mut arguments, mode);
    assert(arguments.deep_view() =~= seq![name@, mode@]);
    invocation("pkg-config", arguments)
}

/// What a package query answered: what the tool wrote, without the white
/// space that closes it, where the query ended with success.
pub fn call_pkg_config(outcome: &Outcome) -> (r: Option<String>)
    ensures
        r.deep_view() == query_answer(outcome@),
{
    match outcome {
        Outcome::NotStarted => None,
        Outcome::Unreadable { .. } => None,
        Outcome::Finished { success, output } => {
            if *success {
                Some(trim_end(output.as_str()).to_owned())
            } else {
                None
            }
        },
    }
}

/// The answer of the query at `position`, which belongs to the library at
/// `index`, or why it has none.
fn package_answer(outcomes: &Vec<Outcome>, position: usize, index: usize) -> (r: Result<
    String,
    BargeError,
>)
    ensures
        match r {
            Ok(text) => answer_at(outcomes.deep_view(), position as int) == Some(text@),
            Err(e) => answer_at(outcomes.deep_view(), position as int) is None && e
                == query_failure(outcomes.deep_view(), position as int, index as int),
        },
{
    if position >= outcomes.len() {
        return Err(BargeError::LibraryResolutionError(index));
    }
    proof {
        assert(outcomes.deep_view()[position as int] == outcomes[position as int]@);
    }
    match call_pkg_config(&outcomes[position]) {
        Some(text) => Ok(text),
        None => match &outcomes[position] {
            Outcome::Unreadable { success } => {
                if *success {
                    Err(BargeError::Utf8Error("pkg-config"))
                } else {
                    Err(BargeError::LibraryResolutionError(index))
                }
            },
            _ => Err(BargeError::LibraryResolutionError(index)),
        },
    }
}

/// The queries to run for `libraries`, in the order in which
/// [`build_library_flags`] expects their outcomes.
pub fn library_queries(libraries: &Option<Vec<Library>>) -> (r: Vec<Invocation>)
    ensures
        r.deep_view() == queries(declared(libraries.deep_view())),
{
    let mut out: Vec<Invocation> = Vec::new();
    assert(out.deep_view() =~= Seq::<InvocationView>::empty());
    match libraries {
        None => out,
        Some(list) => {
            let mut i: usize = 0;
            proof {
                assert(list.deep_view().take(0) =~= Seq::<LibraryView>::empty());
            }
            while i < list.len()
                invariant
                    i <= list.len(),
                    out.deep_view() == queries(list.deep_view().take(i as int)),
                decreases list.len() - i,
            {
                proof {
                    let before = list.deep_view().take(i as int);
                    let after = list.deep_view().take(i + 1);
                    assert(after.drop_last() =~= before);
                    assert(after.last() == list[i as int]@);
                }
                match &list[i] {
                    Library::PkgConfig { name } => {
                        let ghost before = out.deep_view();
                        let first = pkg_config_command(name.as_str(), "--cflags");
                        let second = pkg_config_command(name.as_str(), "--libs");
                        out.push(first);
                        out.push(second);
                        assert(out.deep_view() =~= before.push(first@).push(second@));
                    },
                    Library::Manual { .. } => {},
                }
                i = i + 1;
            }
            proof {
                assert(list.deep_view().take(i as int) =~= list.deep_view());
            }
            out
        },
    }
}

/// The compiler flags and the linker flags of `libraries`, composed in
/// declaration order from what the libraries give and what the queries
/// answered. `outcomes` holds the outcomes of the queries that
/// [`library_queries`] lists, in that order. The first library with a query
/// that has no answer ends the resolution: with an encoding failure where
/// the query wrote what is no text, and with the failure of the resolution
/// of that library where the query was not run, was refused or is missing
/// from `outcomes`.
pub fn build_library_flags(libraries: &Option<Vec<Library>>, outcomes: &Vec<Outcome>) -> (r: Result<
    (String, String),
    BargeError,
>)
    ensures
        match r {
            Ok(flags) => library_flags(declared(libraries.deep_view()), outcomes.deep_view()) == Ok::<
                (Seq<char>, Seq<char>),
                BargeError,
            >((flags.0@, flags.1@)),
            Err(e) => library_flags(declared(libraries.deep_view()), outcomes.deep_view()) == Err::<
                (Seq<char>, Seq<char>),
                BargeError,
            >(e),
        },
{
    let mut compile: Vec<String> = Vec::new();
    let mut link: Vec<String> = Vec::new();
    let ghost all = declared(libraries.deep_view());
    let ghost answers = outcomes.deep_view();
    proof {
        assert(compile.deep_view() =~= compile_fragments(all, answers).take(0));
        assert(link.deep_view() =~= link_fragments(all, answers).take(0));
    }
    if let Some(list) = libraries {
        let mut i: usize = 0;
        let mut position: usize = 0;
        while i < list.len()
            invariant
                i <= list.len(),
                all == list.deep_view(),
                all == declared(libraries.deep_view()),
                answers == outcomes.deep_view(),
                position == queries_before(all, i as int),
                first_unresolved(all, answers, 0) == first_unresolved(all, answers, i as int),
                compile.deep_view() == compile_fragments(all, answers).take(i as int),
                link.deep_view() == link_fragments(all, answers).take(i as int),
            decreases list.len() - i,
        {
            let ghost compile_before = compile.deep_view();
            let ghost link_before = link.deep_view();
            match &list[i] {
                Library::PkgConfig { .. } => {
                    proof {
                        assert(all[i as int] == list[i as int]@);
                    }
                    let c = match package_answer(outcomes, position, i) {
                        Ok(c) => c,
                        Err(e) => {
                            proof {
                                assert(!resolved(all, answers, i as int));
                                assert(resolution_failure(all, answers, i as int) == e);
                            }
                            return Err(e);
                        },
                    };
                    proof {
                        assert(answer_at(answers, position as int) is Some);
                        assert(position < outcomes.len());
                    }
                    let l = match package_answer(outcomes, position + 1, i) {
                        Ok(l) => l,
                        Err(e) => {
                            proof {
                                assert(!resolved(all, answers, i as int));
                                assert(resolution_failure(all, answers, i as int) == e);
                            }
                            return Err(e);
                        },
                    };
                    proof {
                        assert(answer_at(answers, position + 1) is Some);
                        assert(position + 1 < outcomes.len());
                        assert(compile_fragment(all, answers, i as int) == Some(c@));
                        assert(link_fragment(all, answers, i as int) == Some(l@));
                    }
                    compile.push(c);
                    link.push(l);
                    position = position + 2;
                },
                Library::Manual { cflags, ldflags } => {
                    proof {
                        assert(all[i as int] == list[i as int]@);
                    }
                    compile.push(cflags.clone());
                    link.push(ldflags.clone());
                },
            }
            proof {
                assert(resolved(all, answers, i as int));
                assert(compile.deep_view() =~= compile_before.push(
                    compile_fragment(all, answers, i as int).unwrap(),
                ));
                assert(link.deep_view() =~= link_before.push(
                    link_fragment(all, answers, i as int).unwrap(),
                ));
                assert(compile.deep_view() =~= compile_fragments(all, answers).take(i + 1));
                assert(link.deep_view() =~= link_fragments(all, answers).take(i + 1));
            }
            i = i + 1;
        }
        proof {
            assert(compile_fragments(all, answers).take(i as int) =~= compile_fragments(
                all,
                answers,
            ));
            assert(link_fragments(all, answers).take(i as int) =~= link_fragments(all, answers));
        }
    } else {
        proof {
            assert(compile_fragments(all, answers).take(0) =~= compile_fragments(all, answers));
            assert(link_fragments(all, answers).take(0) =~= link_fragments(all, answers));
        }
    }
    let c = compose(&compile);
    let l = compose(&link);
    Ok((c, l))
}

} // verus!
