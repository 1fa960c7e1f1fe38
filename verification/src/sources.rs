//! Source discovery: which of the files found under the source directory
//! take part in an operation, by what role, and in which order.
//!
//! The caller lists the files; the library selects among them by a fixed
//! table of file extensions and puts them in lexicographic order, so that
//! the result does not depend on the order in which the file system
//! enumerates them.

use vstd::prelude::*;
use vstd::relations::{sorted_by, total_ordering};
use vstd::seq_lib::{group_to_multiset_ensures, lemma_sorted_unique, to_multiset_build};
use vstd::string::StrSliceExecFns;
use crate::command::{invocation, plain_invocation, push_text, Invocation, Outcome, OutcomeView};
use crate::error::BargeError;
use crate::text::{ends_with, has_suffix, split, split_on};

verus! {

/// The language of a compiled unit.
#[derive(Clone, Copy, Debug, PartialEq, Eq, Structural)]
pub enum Language {
    C,
    Cpp,
    Assembly,
    Fortran,
    Cobol,
}

/// The role that a file under the source directory plays in the build.
#[derive(Clone, Copy, Debug, PartialEq, Eq, Structural)]
pub enum SourceRole {
    /// It is compiled into an object file.
    CompiledUnit(Language),
    /// Compiled units depend on it.
    Header,
    /// It is handed to the linker.
    LinkerScript,
}

/// Which files an operation asks for.
#[derive(Clone, Copy, Debug, PartialEq, Eq, Structural)]
pub enum CollectSourceFilesMode {
    /// Every file that has a role.
    All,
    /// The compiled units of every language.
    CompiledOnly,
    /// C and C++ sources and headers.
    CCppSourcesOnly,
    /// Linker scripts.
    LinkerScriptsOnly,
}

/// The role of the file at `path`, by its extension, or `None` where the
/// extension is not in the table.
pub open spec fn role_of(path: Seq<char>) -> Option<SourceRole> {
    if ends_with(path, ".c"@) {
        Some(SourceRole::CompiledUnit(Language::C))
    } else if ends_with(path, ".cpp"@) {
        Some(SourceRole::CompiledUnit(Language::Cpp))
    } else if ends_with(path, ".s"@) {
        Some(SourceRole::CompiledUnit(Language::Assembly))
    } else if ends_with(path, ".f90"@) {
        Some(SourceRole::CompiledUnit(Language::Fortran))
    } else if ends_with(path, ".cob"@) {
        Some(SourceRole::CompiledUnit(Language::Cobol))
    } else if ends_with(path, ".h"@) {
        Some(SourceRole::Header)
    } else if ends_with(path, ".hpp"@) {
        Some(SourceRole::Header)
    } else if ends_with(path, ".ld"@) {
        Some(SourceRole::LinkerScript)
    } else {
        None
    }
}

/// Whether `mode` asks for files of `role`.
pub open spec fn mode_takes(mode: CollectSourceFilesMode, role: Option<SourceRole>) -> bool {
    match mode {
        CollectSourceFilesMode::All => role is Some,
        CollectSourceFilesMode::CompiledOnly => role matches Some(SourceRole::CompiledUnit(_)),
        CollectSourceFilesMode::CCppSourcesOnly => role == Some(
            SourceRole::CompiledUnit(Language::C),
        ) || role == Some(SourceRole::CompiledUnit(Language::Cpp)) || role == Some(
            SourceRole::Header,
        ),
        CollectSourceFilesMode::LinkerScriptsOnly => role == Some(SourceRole::LinkerScript),
    }
}

/// The paths of `listing` that `mode` asks for, in the order of the listing.
pub open spec fn chosen(listing: Seq<Seq<char>>, mode: CollectSourceFilesMode) -> Seq<Seq<char>>
    decreases listing.len(),
{
    if listing.len() == 0 {
        Seq::<Seq<char>>::empty()
    } else {
        let head = chosen(listing.drop_last(), mode);
        if mode_takes(mode, role_of(listing.last())) {
            head.push(listing.last())
        } else {
            head
        }
    }
}

/// The paths of `listing` whose role is that of a compiled unit of
/// `language`, in the order of the listing.
pub open spec fn units_of(listing: Seq<Seq<char>>, language: Language) -> Seq<Seq<char>>
    decreases listing.len(),
{
    if listing.len() == 0 {
        Seq::<Seq<char>>::empty()
    } else {
        let head = units_of(listing.drop_last(), language);
        if role_of(listing.last()) == Some(SourceRole::CompiledUnit(language)) {
            head.push(listing.last())
        } else {
            head
        }
    }
}

/// Whether `a` and `b`, which agree before position `i`, are in
/// lexicographic order.
pub open spec fn precedes_from(a: Seq<char>, b: Seq<char>, i: int) -> bool
    decreases a.len() - i,
{
    if i >= a.len() {
        true
    } else if i >= b.len() {
        false
    } else if a[i] != b[i] {
        a[i] < b[i]
    } else {
        precedes_from(a, b, i + 1)
    }
}

/// Whether `a` comes before `b` in lexicographic order, or equals it.
pub open spec fn precedes(a: Seq<char>, b: Seq<char>) -> bool {
    precedes_from(a, b, 0)
}

/// The lexicographic order on paths, as a relation.
pub open spec fn lexical() -> spec_fn(Seq<char>, Seq<char>) -> bool {
    |a: Seq<char>, b: Seq<char>| precedes(a, b)
}

/// The files of `listing` that `mode` asks for, in lexicographic order.
pub open spec fn discovered(listing: Seq<Seq<char>>, mode: CollectSourceFilesMode) -> Seq<
    Seq<char>,
> {
    chosen(listing, mode).sort_by(lexical())
}

/// The paths that a listing tool wrote, one to a line.
pub open spec fn listed(output: Seq<char>) -> Seq<Seq<char>> {
    nonempty(split(output, '\n'))
}

/// The parts that are not empty, in their order.
pub open spec fn nonempty(parts: Seq<Seq<char>>) -> Seq<Seq<char>>
    decreases parts.len(),
{
    if parts.len() == 0 {
        Seq::<Seq<char>>::empty()
    } else {
        let head = nonempty(parts.drop_last());
        if parts.last().len() > 0 {
            head.push(parts.last())
        } else {
            head
        }
    }
}

proof fn lemma_precedes_reflexive(a: Seq<char>, i: int)
    requires
        0 <= i,
    ensures
        precedes_from(a, a, i),
    decreases a.len() - i,
{
    if i < a.len() {
        lemma_precedes_reflexive(a, i + 1);
    }
}

proof fn lemma_precedes_connected(a: Seq<char>, b: Seq<char>, i: int)
    requires
        0 <= i,
    ensures
        precedes_from(a, b, i) || precedes_from(b, a, i),
    decreases a.len() - i,
{
    if i < a.len() && i < b.len() && a[i] == b[i] {
        lemma_precedes_connected(a, b, i + 1);
    }
}

proof fn lemma_precedes_antisymmetric(a: Seq<char>, b: Seq<char>, i: int)
    requires
        0 <= i <= a.len(),
        i <= b.len(),
        forall|j: int| 0 <= j < i ==> a[j] == b[j],
        precedes_from(a, b, i),
        precedes_from(b, a, i),
    ensures
        a == b,
    decreases a.len() - i,
{
    if i < a.len() {
        lemma_precedes_antisymmetric(a, b, i + 1);
    } else {
        assert(a =~= b);
    }
}

proof fn lemma_precedes_transitive(a: Seq<char>, b: Seq<char>, c: Seq<char>, i: int)
    requires
        0 <= i,
        precedes_from(a, b, i),
        precedes_from(b, c, i),
    ensures
        precedes_from(a, c, i),
    decreases a.len() - i,
{
    if i < a.len() && a[i] == b[i] && b[i] == c[i] {
        lemma_precedes_transitive(a, b, c, i + 1);
    }
}

/// The lexicographic order is a total order.
pub proof fn lemma_lexical_total()
    ensures
        total_ordering(lexical()),
{
    let r = lexical();
    assert forall|x: Seq<char>| #[trigger] r(x, x) by {
        lemma_precedes_reflexive(x, 0);
    }
    assert forall|x: Seq<char>, y: Seq<char>| #[trigger] r(x, y) && #[trigger] r(y, x) implies x
        == y by {
        lemma_precedes_antisymmetric(x, y, 0);
    }
    assert forall|x: Seq<char>, y: Seq<char>, z: Seq<char>| #[trigger]
        r(x, y) && #[trigger] r(y, z) implies r(x, z) by {
        lemma_precedes_transitive(x, y, z, 0);
    }
    assert forall|x: Seq<char>, y: Seq<char>| #[trigger] r(x, y) || #[trigger] r(y, x) by {
        lemma_precedes_connected(x, y, 0);
    }
}

/// How often `path` is chosen is how often it is listed, if `mode` asks for
/// it at all.
proof fn lemma_chosen_count(listing: Seq<Seq<char>>, mode: CollectSourceFilesMode, path: Seq<char>)
    ensures
        chosen(listing, mode).to_multiset().count(path) == if mode_takes(mode, role_of(path)) {
            listing.to_multiset().count(path)
        } else {
            0
        },
    decreases listing.len(),
{
    broadcast use group_to_multiset_ensures;

    if listing.len() == 0 {
        assert(chosen(listing, mode).to_multiset().count(path) == 0);
        assert(listing.to_multiset().count(path) == 0);
    } else {
        let rest = listing.drop_last();
        lemma_chosen_count(rest, mode, path);
        assert(listing =~= rest.push(listing.last()));
        assert(listing.to_multiset() =~= rest.to_multiset().insert(listing.last()));
    }
}

/// Discovery is determined by which files are listed and how often, and not
/// by the order of the listing: two listings of the same files give the same
/// sequence.
pub proof fn lemma_discovery_ignores_order(
    first: Seq<Seq<char>>,
    second: Seq<Seq<char>>,
    mode: CollectSourceFilesMode,
)
    requires
        first.to_multiset() == second.to_multiset(),
    ensures
        discovered(first, mode) == discovered(second, mode),
{
    lemma_lexical_total();
    let a = chosen(first, mode);
    let b = chosen(second, mode);
    assert forall|path: Seq<char>| a.to_multiset().count(path) == b.to_multiset().count(path) by {
        lemma_chosen_count(first, mode, path);
        lemma_chosen_count(second, mode, path);
    }
    assert(a.to_multiset() =~= b.to_multiset());
    a.lemma_sort_by_ensures(lexical());
    b.lemma_sort_by_ensures(lexical());
    lemma_sorted_unique(a.sort_by(lexical()), b.sort_by(lexical()), lexical());
}

/// What is discovered is in lexicographic order and holds the chosen files,
/// each as often as it is listed.
pub proof fn lemma_discovered_sorted(listing: Seq<Seq<char>>, mode: CollectSourceFilesMode)
    ensures
        sorted_by(discovered(listing, mode), lexical()),
        discovered(listing, mode).to_multiset() == chosen(listing, mode).to_multiset(),
{
    lemma_lexical_total();
    chosen(listing, mode).lemma_sort_by_ensures(lexical());
}

/// The characters of `s`, in order.
pub fn characters(s: &str) -> (r: Vec<char>)
    ensures
        r@ == s@,
{
    let mut out: Vec<char> = Vec::new();
    for c in it: s.chars()
        invariant
            it.seq() == s@,
            out@ == s@.subrange(0, it.index() as int),
    {
        let ghost before = out@;
        out.push(c);
        assert(out@ =~= s@.subrange(0, it.index() + 1));
    }
    assert(out@ =~= s@);
    out
}

/// Whether `a` comes before `b` in lexicographic order, or equals it.
pub fn comes_before(a: &str, b: &str) -> (r: bool)
    ensures
        r == precedes(a@, b@),
{
    let x = characters(a);
    let y = characters(b);
    let mut i: usize = 0;
    while i < x.len()
        invariant
            i <= x.len(),
            x@ == a@,
            y@ == b@,
            precedes(a@, b@) == precedes_from(a@, b@, i as int),
        decreases x.len() - i,
    {
        if i >= y.len() {
            return false;
        }
        if x[i] != y[i] {
            return x[i] < y[i];
        }
        i = i + 1;
    }
    true
}

/// The role of the file at `path`.
pub fn classify(path: &str) -> (r: Option<SourceRole>)
    ensures
        r == role_of(path@),
{
    if has_suffix(path, ".c") {
        Some(SourceRole::CompiledUnit(Language::C))
    } else if has_suffix(path, ".cpp") {
        Some(SourceRole::CompiledUnit(Language::Cpp))
    } else if has_suffix(path, ".s") {
        Some(SourceRole::CompiledUnit(Language::Assembly))
    } else if has_suffix(path, ".f90") {
        Some(SourceRole::CompiledUnit(Language::Fortran))
    } else if has_suffix(path, ".cob") {
        Some(SourceRole::CompiledUnit(Language::Cobol))
    } else if has_suffix(path, ".h") {
        Some(SourceRole::Header)
    } else if has_suffix(path, ".hpp") {
        Some(SourceRole::Header)
    } else if has_suffix(path, ".ld") {
        Some(SourceRole::LinkerScript)
    } else {
        None
    }
}

/// Whether `mode` asks for the file at `path`.
pub fn is_chosen(mode: CollectSourceFilesMode, path: &str) -> (r: bool)
    ensures
        r == mode_takes(mode, role_of(path@)),
{
    let role = classify(path);
    match mode {
        CollectSourceFilesMode::All => role.is_some(),
        CollectSourceFilesMode::CompiledOnly => match role {
            Some(SourceRole::CompiledUnit(_)) => true,
            _ => false,
        },
        CollectSourceFilesMode::CCppSourcesOnly => match role {
            Some(SourceRole::CompiledUnit(Language::C)) => true,
            Some(SourceRole::CompiledUnit(Language::Cpp)) => true,
            Some(SourceRole::Header) => true,
            _ => false,
        },
        CollectSourceFilesMode::LinkerScriptsOnly => match role {
            Some(SourceRole::LinkerScript) => true,
            _ => false,
        },
    }
}

/// Puts `item` into `list`, which is in lexicographic order, at its place.
fn insert_sorted(list: &mut Vec<String>, item: String)
    requires
        sorted_by(old(list).deep_view(), lexical()),
    ensures
        sorted_by(final(list).deep_view(), lexical()),
        final(list).deep_view().to_multiset() == old(list).deep_view().to_multiset().insert(item@),
{
    broadcast use group_to_multiset_ensures;

    let ghost before = list.deep_view();
    let mut i: usize = 0;
    while i < list.len() && comes_before(list[i].as_str(), item.as_str())
        invariant
            i <= list.len(),
            list.deep_view() == before,
            forall|j: int| 0 <= j < i ==> precedes(#[trigger] before[j], item@),
        decreases list.len() - i,
    {
        i = i + 1;
    }
    proof {
        lemma_lexical_total();
        let r = lexical();
        if i < list.len() {
            assert(!precedes(before[i as int], item@));
            assert(r(before[i as int], item@) || r(item@, before[i as int]));
            assert forall|k: int| i <= k < before.len() implies precedes(item@, #[trigger] before[k]) by {
                if k > i {
                    assert(r(before[i as int], before[k]));
                }
                assert(r(item@, before[i as int]) && r(before[i as int], before[k]) ==> r(
                    item@,
                    before[k],
                ));
            }
        }
    }
    let ghost text = item@;
    list.insert(i, item);
    proof {
        let after = list.deep_view();
        assert(after =~= before.insert(i as int, text));
        let r = lexical();
        assert forall|p: int, q: int| 0 <= p < q < after.len() implies #[trigger] r(
            after[p],
            after[q],
        ) by {
            if q < i {
                assert(r(before[p], before[q]));
            } else if q == i {
                assert(precedes(before[p], text));
            } else if p < i {
                assert(r(before[p], before[q - 1]));
            } else if p == i {
                assert(precedes(text, before[q - 1]));
            } else {
                assert(r(before[p - 1], before[q - 1]));
            }
        }
    }
}

/// The files of `listing` that `mode` asks for, in lexicographic order.
pub fn collect_source_files(mode: CollectSourceFilesMode, listing: &Vec<String>) -> (r: Vec<String>)
    ensures
        r.deep_view() == discovered(listing.deep_view(), mode),
{
    broadcast use group_to_multiset_ensures;

    let mut out: Vec<String> = Vec::new();
    let mut i: usize = 0;
    proof {
        assert(listing.deep_view().take(0) =~= Seq::<Seq<char>>::empty());
        assert(out.deep_view() =~= Seq::<Seq<char>>::empty());
    }
    while i < listing.len()
        invariant
            i <= listing.len(),
            sorted_by(out.deep_view(), lexical()),
            out.deep_view().to_multiset() == chosen(
                listing.deep_view().take(i as int),
                mode,
            ).to_multiset(),
        decreases listing.len() - i,
    {
        proof {
            let before = listing.deep_view().take(i as int);
            let after = listing.deep_view().take(i + 1);
            assert(after.drop_last() =~= before);
            assert(after.last() == listing[i as int]@);
        }
        if is_chosen(mode, listing[i].as_str()) {
            insert_sorted(&mut out, listing[i].clone());
            proof {
                let before = chosen(listing.deep_view().take(i as int), mode);
                let after = chosen(listing.deep_view().take(i + 1), mode);
                assert(after == before.push(listing[i as int]@));
                to_multiset_build(before, listing[i as int]@);
            }
        }
        i = i + 1;
    }
    proof {
        assert(listing.deep_view().take(i as int) =~= listing.deep_view());
        lemma_discovered_sorted(listing.deep_view(), mode);
        lemma_lexical_total();
        lemma_sorted_unique(out.deep_view(), discovered(listing.deep_view(), mode), lexical());
    }
    out
}

/// A discovered file.
#[derive(Debug, Clone, PartialEq, Eq)]
pub struct SourceFile {
    /// Its path, beginning with the source directory.
    pub path: String,
    /// Its role.
    pub role: SourceRole,
}

/// A discovered file, with its path as a sequence of characters.
pub ghost struct SourceFileView {
    pub path: Seq<char>,
    pub role: SourceRole,
}

impl DeepView for SourceFile {
    type V = SourceFileView;

    open spec fn deep_view(&self) -> SourceFileView {
        SourceFileView { path: self.path@, role: self.role }
    }
}

impl View for SourceFile {
    type V = SourceFileView;

    open spec fn view(&self) -> SourceFileView {
        self.deep_view()
    }
}

/// The files of `listing` that `mode` asks for, in lexicographic order, each
/// with its role.
pub open spec fn discovered_files(listing: Seq<Seq<char>>, mode: CollectSourceFilesMode) -> Seq<
    SourceFileView,
> {
    Seq::new(
        discovered(listing, mode).len(),
        |i: int|
            SourceFileView {
                path: discovered(listing, mode)[i],
                role: role_of(discovered(listing, mode)[i]).unwrap(),
            },
    )
}

/// Every discovered file has a role, and one that `mode` asks for.
pub proof fn lemma_discovered_have_roles(
    listing: Seq<Seq<char>>,
    mode: CollectSourceFilesMode,
    index: int,
)
    requires
        0 <= index < discovered(listing, mode).len(),
    ensures
        role_of(discovered(listing, mode)[index]) is Some,
        mode_takes(mode, role_of(discovered(listing, mode)[index])),
        listing.contains(discovered(listing, mode)[index]),
{
    broadcast use group_to_multiset_ensures;

    let found = discovered(listing, mode);
    let path = found[index];
    lemma_discovered_sorted(listing, mode);
    lemma_chosen_count(listing, mode, path);
    assert(found.contains(path));
    assert(found.to_multiset().count(path) > 0);
    assert(chosen(listing, mode).to_multiset().count(path) > 0);
    assert(listing.to_multiset().count(path) > 0);
}

/// The files among `listing`, the files below the source directory, that
/// `mode` asks for, in lexicographic order, each with its role.
pub fn discover(mode: CollectSourceFilesMode, listing: &Vec<String>) -> (r: Vec<SourceFile>)
    ensures
        r.deep_view() == discovered_files(listing.deep_view(), mode),
{
    let paths = collect_source_files(mode, listing);
    let mut out: Vec<SourceFile> = Vec::new();
    let mut i: usize = 0;
    while i < paths.len()
        invariant
            i <= paths.len(),
            out.len() == i,
            paths.deep_view() == discovered(listing.deep_view(), mode),
            forall|j: int|
                0 <= j < i ==> (#[trigger] out[j])@ == discovered_files(listing.deep_view(), mode)[j],
        decreases paths.len() - i,
    {
        proof {
            lemma_discovered_have_roles(listing.deep_view(), mode, i as int);
            assert(paths.deep_view()[i as int] == paths[i as int]@);
        }
        match classify(paths[i].as_str()) {
            Some(role) => {
                out.push(SourceFile { path: paths[i].clone(), role });
            },
            None => {
                assert(false);
            },
        }
        i = i + 1;
    }
    assert(out.deep_view() =~= discovered_files(listing.deep_view(), mode));
    out
}

/// The compiled units of `language` among `sources`, in their order.
pub fn compiled_units(sources: &Vec<String>, language: Language) -> (r: Vec<String>)
    ensures
        r.deep_view() == units_of(sources.deep_view(), language),
{
    let mut out: Vec<String> = Vec::new();
    let mut i: usize = 0;
    proof {
        assert(sources.deep_view().take(0) =~= Seq::<Seq<char>>::empty());
        assert(out.deep_view() =~= Seq::<Seq<char>>::empty());
    }
    while i < sources.len()
        invariant
            i <= sources.len(),
            out.deep_view() == units_of(sources.deep_view().take(i as int), language),
        decreases sources.len() - i,
    {
        proof {
            let before = sources.deep_view().take(i as int);
            let after = sources.deep_view().take(i + 1);
            assert(after.drop_last() =~= before);
            assert(after.last() == sources[i as int]@);
        }
        let role = classify(sources[i].as_str());
        let takes = match role {
            Some(SourceRole::CompiledUnit(found)) => found == language,
            _ => false,
        };
        if takes {
            push_text(&mut out, sources[i].as_str());
        }
        i = i + 1;
    }
    proof {
        assert(sources.deep_view().take(i as int) =~= sources.deep_view());
    }
    out
}

/// The command that lists every file under the source directory.
pub open spec fn listing_command() -> crate::command::InvocationView {
    plain_invocation("find"@, seq!["src"@, "-type"@, "f"@])
}

/// The command that lists every file under the source directory, one path
/// to a line.
pub fn source_listing_command() -> (r: Invocation)
    ensures
        r@ == listing_command(),
{
    let mut arguments: Vec<String> = Vec::new();
    push_text(&mut arguments, "src");
    push_text(&mut arguments, "-type");
    push_text(&mut arguments, "f");
    assert(arguments.deep_view() =~= seq!["src"@, "-type"@, "f"@]);
    invocation("find", arguments)
}

/// The files that the listing command found, or the failure where the
/// listing tool could not be started or wrote what is no text. A source directory that does not
/// exist is no failure: the tool then ran and listed nothing, and the
/// directory holds no file.
pub open spec fn listing_of(outcome: OutcomeView) -> Result<Seq<Seq<char>>, BargeError> {
    match outcome {
        OutcomeView::NotStarted => Err(BargeError::ToolInvocationError("find")),
        OutcomeView::Unreadable { .. } => Err(BargeError::Utf8Error("find")),
        OutcomeView::Finished { output, .. } => Ok(listed(output)),
    }
}

fn lines_of(output: &str) -> (r: Vec<String>)
    ensures
        r.deep_view() == listed(output@),
{
    let lines = split_on(output, '\n');
    let mut out: Vec<String> = Vec::new();
    let mut i: usize = 0;
    proof {
        assert(lines.deep_view().take(0) =~= Seq::<Seq<char>>::empty());
        assert(out.deep_view() =~= Seq::<Seq<char>>::empty());
    }
    while i < lines.len()
        invariant
            i <= lines.len(),
            out.deep_view() == nonempty(lines.deep_view().take(i as int)),
        decreases lines.len() - i,
    {
        proof {
            let before = lines.deep_view().take(i as int);
            let after = lines.deep_view().take(i + 1);
            assert(after.drop_last() =~= before);
            assert(after.last() == lines[i as int]@);
        }
        if lines[i].as_str().unicode_len() > 0 {
            push_text(&mut out, lines[i].as_str());
        }
        i = i + 1;
    }
    proof {
        assert(lines.deep_view().take(i as int) =~= lines.deep_view());
    }
    out
}

/// The files that the listing command found: the lines that it wrote,
/// whatever its exit status. That the tool could not be started is reported
/// as a failure; that the source directory is missing gives no file.
pub fn parse_listing(outcome: &Outcome) -> (r: Result<Vec<String>, BargeError>)
    ensures
        match r {
            Ok(files) => listing_of(outcome@) == Ok::<Seq<Seq<char>>, BargeError>(
                files.deep_view(),
            ),
            Err(e) => listing_of(outcome@) == Err::<Seq<Seq<char>>, BargeError>(e),
        },
{
    match outcome {
        Outcome::NotStarted => Err(BargeError::ToolInvocationError("find")),
        Outcome::Unreadable { .. } => Err(BargeError::Utf8Error("find")),
        Outcome::Finished { output, .. } => Ok(lines_of(output.as_str())),
    }
}

} // verus!
