//! The flag assembler: the flag strings of each language and of the linker.
//!
//! Every flag string is composed from fragments in a fixed order: the
//! language standard, the warning baseline with the include paths, the flags
//! of the external libraries, the flags of the build target, the flags that
//! the descriptor adds, and the flag for position independent code where
//! the artifact is a library. Flags given later can override flags given
//! earlier, so the order is part of the contract.

use vstd::prelude::*;
use vstd::string::StringExecFns;
use crate::command::{push_text, push_texts};
use crate::flags::{
    compose,
    composed,
    fragments_have,
    has_flag,
    is_word,
    lemma_composed_has,
    lemma_first_fragment_first,
    lemma_fragment_stands,
    lemma_plain_is_word,
    lemma_word_has,
    plain_from,
};
use crate::makefile::BuildTarget;
use crate::project::{Project, ProjectType, ProjectView};
use crate::sources::{compiled_units, units_of, Language};
use crate::text::{is_space, starts_with, trimmed, trimmed_end};

verus! {

/// The warnings that every C and C++ unit is compiled with, and the include
/// paths of the project.
pub open spec fn baseline_tokens() -> Seq<Seq<char>> {
    seq![
        "-Wall"@,
        "-Wextra"@,
        "-Wpedantic"@,
        "-Wshadow"@,
        "-Wconversion"@,
        "-Wdouble-promotion"@,
        "-Wformat=2"@,
        "-Iinclude"@,
        "-Isrc"@,
    ]
}

/// The compiler flags that the build target selects.
pub open spec fn target_compile_tokens(target: BuildTarget) -> Seq<Seq<char>> {
    match target {
        BuildTarget::Debug => seq!["-Og"@, "-g"@, "-fsanitize=undefined"@, "-fsanitize-trap"@],
        BuildTarget::Release => seq!["-DNDEBUG"@, "-O2"@, "-ffast-math"@],
    }
}

/// The linker flags that the build target selects.
pub open spec fn target_link_tokens(target: BuildTarget) -> Seq<Seq<char>> {
    match target {
        BuildTarget::Debug => seq!["-ggdb"@],
        BuildTarget::Release => seq!["-s"@],
    }
}

/// The flag for position independent code, for every artifact but an
/// executable.
pub open spec fn pic_tokens(kind: ProjectType) -> Seq<Seq<char>> {
    if kind == ProjectType::Executable {
        Seq::<Seq<char>>::empty()
    } else {
        seq!["-fPIC"@]
    }
}

/// The flag that selects a language standard.
pub open spec fn standard_flag(standard: Seq<char>) -> Seq<char> {
    "-std="@ + standard
}

/// The fragments of a C or C++ flag string but for the flag for position
/// independent code, in order.
pub open spec fn unit_fragments(
    standard: Seq<char>,
    library: Seq<char>,
    target: BuildTarget,
    custom: Seq<char>,
) -> Seq<Seq<char>> {
    ((seq![standard_flag(standard)] + baseline_tokens()).push(library) + target_compile_tokens(
        target,
    )).push(custom)
}

/// The fragments of the C flag string, in order.
pub open spec fn c_fragments(project: ProjectView, target: BuildTarget, library: Seq<char>) -> Seq<
    Seq<char>,
> {
    unit_fragments(project.resolved_c_standard(), library, target, project.resolved_cflags())
        + pic_tokens(project.project_type)
}

/// The fragments of the C++ flag string, in order.
pub open spec fn cpp_fragments(
    project: ProjectView,
    target: BuildTarget,
    library: Seq<char>,
) -> Seq<Seq<char>> {
    unit_fragments(project.resolved_cpp_standard(), library, target, project.resolved_cxxflags())
        + pic_tokens(project.project_type)
}

/// The fragments of the Fortran flag string, in order.
pub open spec fn fortran_fragments(project: ProjectView) -> Seq<Seq<char>> {
    seq![standard_flag(project.resolved_fortran_standard()), project.resolved_fortranflags()]
}

/// The fragments of the COBOL flag string, in order.
pub open spec fn cobol_fragments(project: ProjectView) -> Seq<Seq<char>> {
    seq![standard_flag(project.resolved_cobol_standard()), project.resolved_cobolflags()]
}

/// The flag that links the Fortran runtime, where a Fortran unit is among
/// the sources.
pub open spec fn fortran_runtime(sources: Seq<Seq<char>>) -> Seq<Seq<char>> {
    if units_of(sources, Language::Fortran).len() > 0 {
        seq!["-lgfortran"@]
    } else {
        Seq::<Seq<char>>::empty()
    }
}

/// For each linker script, the flag that hands it to the linker.
pub open spec fn script_flags(scripts: Seq<Seq<char>>) -> Seq<Seq<char>>
    decreases scripts.len(),
{
    if scripts.len() == 0 {
        Seq::<Seq<char>>::empty()
    } else {
        script_flags(scripts.drop_last()).push("-T "@ + scripts.last())
    }
}

/// The fragments of the linker flag string, in order: the flags of the
/// target, of the libraries and of the descriptor, the Fortran runtime, the
/// COBOL runtime, and the linker scripts.
pub open spec fn linker_fragments(
    project: ProjectView,
    target: BuildTarget,
    library: Seq<char>,
    sources: Seq<Seq<char>>,
    scripts: Seq<Seq<char>>,
    cobol: Seq<char>,
) -> Seq<Seq<char>> {
    (target_link_tokens(target).push(library).push(project.resolved_ldflags()) + fortran_runtime(
        sources,
    )).push(cobol) + script_flags(scripts)
}

/// The flag strings of a build.
#[derive(Debug, Clone, PartialEq, Eq)]
pub struct FlagSet {
    pub c: String,
    pub cpp: String,
    pub fortran: String,
    pub cobol: String,
    pub link: String,
}

/// The flag strings of a build, as sequences of characters.
pub ghost struct FlagSetView {
    pub c: Seq<char>,
    pub cpp: Seq<char>,
    pub fortran: Seq<char>,
    pub cobol: Seq<char>,
    pub link: Seq<char>,
}

impl DeepView for FlagSet {
    type V = FlagSetView;

    open spec fn deep_view(&self) -> FlagSetView {
        FlagSetView {
            c: self.c@,
            cpp: self.cpp@,
            fortran: self.fortran@,
            cobol: self.cobol@,
            link: self.link@,
        }
    }
}

impl View for FlagSet {
    type V = FlagSetView;

    open spec fn view(&self) -> FlagSetView {
        self.deep_view()
    }
}

/// The flag strings of a build of `project` for `target`. `library` holds
/// the compiler flags and the linker flags of the external libraries,
/// `sources` the discovered files, `scripts` the linker scripts among them,
/// and `cobol` what the COBOL runtime asks the linker for.
pub open spec fn assembled(
    project: ProjectView,
    target: BuildTarget,
    library: (Seq<char>, Seq<char>),
    sources: Seq<Seq<char>>,
    scripts: Seq<Seq<char>>,
    cobol: Seq<char>,
) -> FlagSetView {
    FlagSetView {
        c: composed(c_fragments(project, target, library.0)),
        cpp: composed(cpp_fragments(project, target, library.0)),
        fortran: composed(fortran_fragments(project)),
        cobol: composed(cobol_fragments(project)),
        link: composed(linker_fragments(project, target, library.1, sources, scripts, cobol)),
    }
}

fn baseline() -> (r: Vec<String>)
    ensures
        r.deep_view() == baseline_tokens(),
{
    let mut out: Vec<String> = Vec::new();
    push_text(&mut out, "-Wall");
    push_text(&mut out, "-Wextra");
    push_text(&mut out, "-Wpedantic");
    push_text(&mut out, "-Wshadow");
    push_text(&mut out, "-Wconversion");
    push_text(&mut out, "-Wdouble-promotion");
    push_text(&mut out, "-Wformat=2");
    push_text(&mut out, "-Iinclude");
    push_text(&mut out, "-Isrc");
    assert(out.deep_view() =~= baseline_tokens());
    out
}

fn target_compile_flags(target: BuildTarget) -> (r: Vec<String>)
    ensures
        r.deep_view() == target_compile_tokens(target),
{
    let mut out: Vec<String> = Vec::new();
    match target {
        BuildTarget::Debug => {
            push_text(&mut out, "-Og");
            push_text(&mut out, "-g");
            push_text(&mut out, "-fsanitize=undefined");
            push_text(&mut out, "-fsanitize-trap");
        },
        BuildTarget::Release => {
            push_text(&mut out, "-DNDEBUG");
            push_text(&mut out, "-O2");
            push_text(&mut out, "-ffast-math");
        },
    }
    assert(out.deep_view() =~= target_compile_tokens(target));
    out
}

fn target_link_flags(target: BuildTarget) -> (r: Vec<String>)
    ensures
        r.deep_view() == target_link_tokens(target),
{
    let mut out: Vec<String> = Vec::new();
    match target {
        BuildTarget::Debug => {
            push_text(&mut out, "-ggdb");
        },
        BuildTarget::Release => {
            push_text(&mut out, "-s");
        },
    }
    assert(out.deep_view() =~= target_link_tokens(target));
    out
}

fn pic_flags(kind: ProjectType) -> (r: Vec<String>)
    ensures
        r.deep_view() == pic_tokens(kind),
{
    let mut out: Vec<String> = Vec::new();
    match kind {
        ProjectType::Executable => {},
        _ => {
            push_text(&mut out, "-fPIC");
        },
    }
    assert(out.deep_view() =~= pic_tokens(kind));
    out
}

fn standard(name: &str) -> (r: String)
    ensures
        r@ == standard_flag(name@),
{
    let mut out = "-std=".to_owned();
    out.append(name);
    out
}

fn unit_flags(
    standard_name: &str,
    library: &str,
    target: BuildTarget,
    custom: &str,
    kind: ProjectType,
) -> (r: String)
    ensures
        r@ == composed(
            unit_fragments(standard_name@, library@, target, custom@) + pic_tokens(kind),
        ),
{
    let mut fragments: Vec<String> = Vec::new();
    let flag = standard(standard_name);
    push_text(&mut fragments, flag.as_str());
    assert(fragments.deep_view() =~= seq![standard_flag(standard_name@)]);
    let warnings = baseline();
    push_texts(&mut fragments, &warnings);
    push_text(&mut fragments, library);
    let mode = target_compile_flags(target);
    push_texts(&mut fragments, &mode);
    push_text(&mut fragments, custom);
    let pic = pic_flags(kind);
    push_texts(&mut fragments, &pic);
    compose(&fragments)
}

fn pair_flags(standard_name: &str, custom: &str) -> (r: String)
    ensures
        r@ == composed(seq![standard_flag(standard_name@), custom@]),
{
    let mut fragments: Vec<String> = Vec::new();
    let flag = standard(standard_name);
    push_text(&mut fragments, flag.as_str());
    push_text(&mut fragments, custom);
    assert(fragments.deep_view() =~= seq![standard_flag(standard_name@), custom@]);
    compose(&fragments)
}

fn linker_script_flags(scripts: &Vec<String>) -> (r: Vec<String>)
    ensures
        r.deep_view() == script_flags(scripts.deep_view()),
{
    let mut out: Vec<String> = Vec::new();
    let mut i: usize = 0;
    proof {
        assert(scripts.deep_view().take(0) =~= Seq::<Seq<char>>::empty());
        assert(out.deep_view() =~= Seq::<Seq<char>>::empty());
    }
    while i < scripts.len()
        invariant
            i <= scripts.len(),
            out.deep_view() == script_flags(scripts.deep_view().take(i as int)),
        decreases scripts.len() - i,
    {
        proof {
            let before = scripts.deep_view().take(i as int);
            let after = scripts.deep_view().take(i + 1);
            assert(after.drop_last() =~= before);
            assert(after.last() == scripts[i as int]@);
        }
        let mut flag = "-T ".to_owned();
        flag.append(scripts[i].as_str());
        push_text(&mut out, flag.as_str());
        i = i + 1;
    }
    proof {
        assert(scripts.deep_view().take(i as int) =~= scripts.deep_view());
    }
    out
}

/// Assembles the flag strings of a build of `project` for `target`.
pub fn assemble(
    project: &Project,
    target: BuildTarget,
    library: &(String, String),
    sources: &Vec<String>,
    scripts: &Vec<String>,
    cobol: &str,
) -> (r: FlagSet)
    ensures
        r@ == assembled(
            project@,
            target,
            (library.0@, library.1@),
            sources.deep_view(),
            scripts.deep_view(),
            cobol@,
        ),
{
    let kind = project.project_type;
    let c = unit_flags(
        project.get_c_standard(),
        library.0.as_str(),
        target,
        project.get_custom_cflags(),
        kind,
    );
    let cpp = unit_flags(
        project.get_cpp_standard(),
        library.0.as_str(),
        target,
        project.get_custom_cxxflags(),
        kind,
    );
    let fortran = pair_flags(project.get_fortran_standard(), project.get_custom_fortranflags());
    let cobol_flags = pair_flags(project.get_cobol_standard(), project.get_custom_cobolflags());

    let mut fragments = target_link_flags(target);
    push_text(&mut fragments, library.1.as_str());
    push_text(&mut fragments, project.get_custom_ldflags());
    let fortran_units = compiled_units(sources, Language::Fortran);
    if fortran_units.len() > 0 {
        push_text(&mut fragments, "-lgfortran");
        proof {
            assert(fortran_runtime(sources.deep_view()) =~= seq!["-lgfortran"@]);
            assert(fragments.deep_view() =~= target_link_tokens(target).push(library.1@).push(
                project@.resolved_ldflags(),
            ) + fortran_runtime(sources.deep_view()));
        }
    } else {
        proof {
            assert(fragments.deep_view() =~= target_link_tokens(target).push(library.1@).push(
                project@.resolved_ldflags(),
            ) + fortran_runtime(sources.deep_view()));
        }
    }
    push_text(&mut fragments, cobol);
    let script = linker_script_flags(scripts);
    push_texts(&mut fragments, &script);
    let link = compose(&fragments);
    FlagSet { c, cpp, fortran, cobol: cobol_flags, link }
}

/// A text that begins with a character other than white space keeps its
/// beginning when it is stripped, and so is not left out.
proof fn lemma_trimmed_keeps_start(s: Seq<char>)
    requires
        s.len() > 0,
        !is_space(s[0]),
    ensures
        trimmed(s).len() > 0,
        trimmed(s)[0] == s[0],
{
    lemma_trimmed_end_keeps_start(s);
}

proof fn lemma_trimmed_end_keeps_start(s: Seq<char>)
    requires
        s.len() > 0,
        !is_space(s[0]),
    ensures
        trimmed_end(s).len() > 0,
        trimmed_end(s)[0] == s[0],
    decreases s.len(),
{
    if is_space(s.last()) {
        lemma_trimmed_end_keeps_start(s.drop_last());
    }
}

/// A flag that holds no white space is left as it is where fragments are
/// stripped.
proof fn lemma_flag_untouched(s: Seq<char>)
    requires
        s.len() > 0,
        !is_space(s[0]),
        !is_space(s.last()),
    ensures
        trimmed(s) == s,
{
}

/// The flag for position independent code closes the C and the C++ flag
/// string exactly when the artifact is not an executable: for a library both
/// strings are those of an executable with ` -fPIC` behind them, and for an
/// executable the assembler adds no such flag.
pub proof fn lemma_pic_follows_kind(project: ProjectView, target: BuildTarget, library: Seq<char>)
    ensures
        pic_tokens(project.project_type).len() > 0 <==> project.project_type
            != ProjectType::Executable,
        ({
            let plain = composed(
                unit_fragments(
                    project.resolved_c_standard(),
                    library,
                    target,
                    project.resolved_cflags(),
                ),
            );
            composed(c_fragments(project, target, library)) == if project.project_type
                == ProjectType::Executable {
                plain
            } else {
                plain + " "@ + "-fPIC"@
            }
        }),
        ({
            let plain = composed(
                unit_fragments(
                    project.resolved_cpp_standard(),
                    library,
                    target,
                    project.resolved_cxxflags(),
                ),
            );
            composed(cpp_fragments(project, target, library)) == if project.project_type
                == ProjectType::Executable {
                plain
            } else {
                plain + " "@ + "-fPIC"@
            }
        }),
{
    reveal_strlit("-std=");
    assert("-std="@.len() == 5);
    assert(standard_flag(project.resolved_c_standard())[0] == '-');
    assert(standard_flag(project.resolved_cpp_standard())[0] == '-');
    lemma_pic_closes(
        unit_fragments(project.resolved_c_standard(), library, target, project.resolved_cflags()),
        project.project_type,
    );
    lemma_pic_closes(
        unit_fragments(
            project.resolved_cpp_standard(),
            library,
            target,
            project.resolved_cxxflags(),
        ),
        project.project_type,
    );
}

proof fn lemma_pic_closes(fragments: Seq<Seq<char>>, kind: ProjectType)
    requires
        fragments.len() > 0,
        fragments[0].len() > 0,
        !is_space(fragments[0][0]),
    ensures
        composed(fragments + pic_tokens(kind)) == if kind == ProjectType::Executable {
            composed(fragments)
        } else {
            composed(fragments) + " "@ + "-fPIC"@
        },
{
    if kind == ProjectType::Executable {
        assert(fragments + pic_tokens(kind) =~= fragments);
    } else {
        let all = fragments + pic_tokens(kind);
        assert(all.drop_last() =~= fragments);
        assert(all.last() == "-fPIC"@);
        reveal_strlit("-fPIC");
        lemma_flag_untouched("-fPIC"@);
        lemma_trimmed_keeps_start(fragments[0]);
        lemma_fragment_stands(fragments, 0);
    }
}

/// The flag that selects the language standard begins every flag string.
pub proof fn lemma_standard_first(
    project: ProjectView,
    target: BuildTarget,
    library: (Seq<char>, Seq<char>),
    sources: Seq<Seq<char>>,
    scripts: Seq<Seq<char>>,
    cobol: Seq<char>,
)
    ensures
        ({
            let flags = assembled(project, target, library, sources, scripts, cobol);
            &&& starts_with(flags.c, trimmed(standard_flag(project.resolved_c_standard())))
            &&& starts_with(flags.cpp, trimmed(standard_flag(project.resolved_cpp_standard())))
            &&& starts_with(
                flags.fortran,
                trimmed(standard_flag(project.resolved_fortran_standard())),
            )
            &&& starts_with(flags.cobol, trimmed(standard_flag(project.resolved_cobol_standard())))
        }),
        starts_with(trimmed(standard_flag(project.resolved_c_standard())), "-std="@),
        starts_with(trimmed(standard_flag(project.resolved_cpp_standard())), "-std="@),
        starts_with(trimmed(standard_flag(project.resolved_fortran_standard())), "-std="@),
        starts_with(trimmed(standard_flag(project.resolved_cobol_standard())), "-std="@),
{
    lemma_standard_kept(project.resolved_c_standard());
    lemma_standard_kept(project.resolved_cpp_standard());
    lemma_standard_kept(project.resolved_fortran_standard());
    lemma_standard_kept(project.resolved_cobol_standard());
    lemma_first_fragment_first(c_fragments(project, target, library.0));
    lemma_first_fragment_first(cpp_fragments(project, target, library.0));
    lemma_first_fragment_first(fortran_fragments(project));
    lemma_first_fragment_first(cobol_fragments(project));
}

/// Stripping leaves the beginning of the flag that selects a language
/// standard as it is.
proof fn lemma_standard_kept(standard: Seq<char>)
    ensures
        trimmed(standard_flag(standard)).len() >= 5,
        starts_with(trimmed(standard_flag(standard)), "-std="@),
{
    reveal_strlit("-std=");
    let flag = standard_flag(standard);
    assert("-std="@.len() == 5);
    assert(flag[0] == '-' && flag[1] == 's' && flag[2] == 't' && flag[3] == 'd' && flag[4] == '=');
    lemma_trimmed_end_keeps(flag, 5);
    assert(trimmed(flag).subrange(0, 5) =~= "-std="@);
}

/// Stripping the end of a text leaves a beginning without white space as it
/// is.
proof fn lemma_trimmed_end_keeps(s: Seq<char>, length: int)
    requires
        0 < length <= s.len(),
        forall|i: int| 0 <= i < length ==> !is_space(#[trigger] s[i]),
    ensures
        trimmed_end(s).len() >= length,
        forall|i: int| 0 <= i < length ==> trimmed_end(s)[i] == s[i],
    decreases s.len(),
{
    if is_space(s.last()) {
        let rest = s.drop_last();
        assert forall|i: int| 0 <= i < length implies !is_space(#[trigger] rest[i]) by {
            assert(rest[i] == s[i]);
        }
        lemma_trimmed_end_keeps(rest, length);
        assert forall|i: int| 0 <= i < length implies trimmed_end(s)[i] == s[i] by {
            assert(rest[i] == s[i]);
        }
    }
}

/// Whether every one of `tokens` is a word.
pub open spec fn all_words(tokens: Seq<Seq<char>>) -> bool {
    forall|i: int| 0 <= i < tokens.len() ==> is_word(#[trigger] tokens[i])
}

/// Whether `flag` is present in what the descriptor and the libraries give
/// to a C or C++ flag string: the language standard, the flags of the
/// libraries and the custom flags.
pub open spec fn given_have(
    standard: Seq<char>,
    library: Seq<char>,
    custom: Seq<char>,
    flag: Seq<char>,
) -> bool {
    has_flag(standard_flag(standard), flag) || has_flag(library, flag) || has_flag(custom, flag)
}

/// Whether `flag` is present in what the descriptor and the libraries give
/// to the C flag string.
pub open spec fn c_given_have(project: ProjectView, library: Seq<char>, flag: Seq<char>) -> bool {
    given_have(project.resolved_c_standard(), library, project.resolved_cflags(), flag)
}

/// Whether `flag` is present in what the descriptor and the libraries give
/// to the C++ flag string.
pub open spec fn cpp_given_have(project: ProjectView, library: Seq<char>, flag: Seq<char>) -> bool {
    given_have(project.resolved_cpp_standard(), library, project.resolved_cxxflags(), flag)
}

proof fn lemma_joined_have(a: Seq<Seq<char>>, b: Seq<Seq<char>>, flag: Seq<char>)
    ensures
        fragments_have(a + b, flag) == (fragments_have(a, flag) || fragments_have(b, flag)),
{
    let all = a + b;
    if fragments_have(a, flag) {
        let i = choose|i: int| 0 <= i < a.len() && has_flag(#[trigger] a[i], flag);
        assert(all[i] == a[i]);
    }
    if fragments_have(b, flag) {
        let i = choose|i: int| 0 <= i < b.len() && has_flag(#[trigger] b[i], flag);
        assert(all[a.len() + i] == b[i]);
    }
    if fragments_have(all, flag) {
        let i = choose|i: int| 0 <= i < all.len() && has_flag(#[trigger] all[i], flag);
        if i < a.len() {
            assert(a[i] == all[i]);
        } else {
            assert(b[i - a.len()] == all[i]);
        }
    }
}

proof fn lemma_pushed_have(a: Seq<Seq<char>>, x: Seq<char>, flag: Seq<char>)
    ensures
        fragments_have(a.push(x), flag) == (fragments_have(a, flag) || has_flag(x, flag)),
{
    assert(a.push(x) =~= a + seq![x]);
    lemma_joined_have(a, seq![x], flag);
    let one = seq![x];
    if has_flag(x, flag) {
        assert(has_flag(one[0], flag));
    }
}

proof fn lemma_words_have(tokens: Seq<Seq<char>>, flag: Seq<char>)
    requires
        all_words(tokens),
        is_word(flag),
    ensures
        fragments_have(tokens, flag) == tokens.contains(flag),
{
    if fragments_have(tokens, flag) {
        let i = choose|i: int| 0 <= i < tokens.len() && has_flag(#[trigger] tokens[i], flag);
        lemma_word_has(tokens[i], flag);
    }
    if tokens.contains(flag) {
        let i = choose|i: int| 0 <= i < tokens.len() && tokens[i] == flag;
        lemma_word_has(tokens[i], flag);
    }
}

proof fn lemma_literal_word(s: Seq<char>)
    requires
        0 < s.len(),
        plain_from(s, 0),
    ensures
        is_word(s),
{
    lemma_plain_is_word(s, 0);
}

/// The flags that the assembler adds of its own are words.
pub proof fn lemma_own_flags_are_words()
    ensures
        all_words(baseline_tokens()),
        all_words(target_compile_tokens(BuildTarget::Debug)),
        all_words(target_compile_tokens(BuildTarget::Release)),
        all_words(pic_tokens(ProjectType::Executable)),
        all_words(pic_tokens(ProjectType::SharedLibrary)),
        all_words(pic_tokens(ProjectType::StaticLibrary)),
        is_word("-fPIC"@),
        is_word("-Og"@),
        is_word("-g"@),
        is_word("-DNDEBUG"@),
{
    reveal_with_fuel(plain_from, 21);
    reveal_strlit("-Wall");
    reveal_strlit("-Wextra");
    reveal_strlit("-Wpedantic");
    reveal_strlit("-Wshadow");
    reveal_strlit("-Wconversion");
    reveal_strlit("-Wdouble-promotion");
    reveal_strlit("-Wformat=2");
    reveal_strlit("-Iinclude");
    reveal_strlit("-Isrc");
    reveal_strlit("-Og");
    reveal_strlit("-g");
    reveal_strlit("-fsanitize=undefined");
    reveal_strlit("-fsanitize-trap");
    reveal_strlit("-DNDEBUG");
    reveal_strlit("-O2");
    reveal_strlit("-ffast-math");
    reveal_strlit("-fPIC");
    lemma_literal_word("-Wall"@);
    lemma_literal_word("-Wextra"@);
    lemma_literal_word("-Wpedantic"@);
    lemma_literal_word("-Wshadow"@);
    lemma_literal_word("-Wconversion"@);
    lemma_literal_word("-Wdouble-promotion"@);
    lemma_literal_word("-Wformat=2"@);
    lemma_literal_word("-Iinclude"@);
    lemma_literal_word("-Isrc"@);
    lemma_literal_word("-Og"@);
    lemma_literal_word("-g"@);
    lemma_literal_word("-fsanitize=undefined"@);
    lemma_literal_word("-fsanitize-trap"@);
    lemma_literal_word("-DNDEBUG"@);
    lemma_literal_word("-O2"@);
    lemma_literal_word("-ffast-math"@);
    lemma_literal_word("-fPIC"@);
}

/// Which flags are present in a C or C++ flag string: those that the
/// descriptor and the libraries give, the warning baseline, the flags of the
/// build target and the flag for position independent code, and no other.
pub proof fn lemma_unit_flags_present(
    standard: Seq<char>,
    library: Seq<char>,
    target: BuildTarget,
    custom: Seq<char>,
    kind: ProjectType,
    flag: Seq<char>,
)
    requires
        is_word(flag),
    ensures
        has_flag(composed(unit_fragments(standard, library, target, custom) + pic_tokens(kind)), flag)
            == (given_have(standard, library, custom, flag) || baseline_tokens().contains(flag)
            || target_compile_tokens(target).contains(flag) || pic_tokens(kind).contains(flag)),
{
    lemma_own_flags_are_words();
    let first = seq![standard_flag(standard)];
    let second = first + baseline_tokens();
    let third = second.push(library);
    let fourth = third + target_compile_tokens(target);
    let fifth = fourth.push(custom);
    let all = fifth + pic_tokens(kind);
    lemma_composed_has(all, flag);
    lemma_pushed_have(Seq::<Seq<char>>::empty(), standard_flag(standard), flag);
    assert(Seq::<Seq<char>>::empty().push(standard_flag(standard)) =~= first);
    assert(!fragments_have(Seq::<Seq<char>>::empty(), flag));
    lemma_joined_have(first, baseline_tokens(), flag);
    lemma_words_have(baseline_tokens(), flag);
    lemma_pushed_have(second, library, flag);
    lemma_joined_have(third, target_compile_tokens(target), flag);
    lemma_words_have(target_compile_tokens(target), flag);
    lemma_pushed_have(fourth, custom, flag);
    lemma_joined_have(fifth, pic_tokens(kind), flag);
    lemma_words_have(pic_tokens(kind), flag);
}

/// The flag for position independent code is present in the C and in the
/// C++ flag string exactly when the artifact is not an executable, unless
/// the descriptor or a library gives the flag itself.
pub proof fn lemma_pic_present(project: ProjectView, target: BuildTarget, library: Seq<char>)
    ensures
        !c_given_have(project, library, "-fPIC"@) ==> (has_flag(
            composed(c_fragments(project, target, library)),
            "-fPIC"@,
        ) <==> project.project_type != ProjectType::Executable),
        !cpp_given_have(project, library, "-fPIC"@) ==> (has_flag(
            composed(cpp_fragments(project, target, library)),
            "-fPIC"@,
        ) <==> project.project_type != ProjectType::Executable),
{
    lemma_own_flags_are_words();
    lemma_unit_flags_present(
        project.resolved_c_standard(),
        library,
        target,
        project.resolved_cflags(),
        project.project_type,
        "-fPIC"@,
    );
    lemma_unit_flags_present(
        project.resolved_cpp_standard(),
        library,
        target,
        project.resolved_cxxflags(),
        project.project_type,
        "-fPIC"@,
    );
    lemma_own_flags_differ();
    let pic = pic_tokens(project.project_type);
    if project.project_type != ProjectType::Executable {
        assert(pic[0] == "-fPIC"@);
    }
}

/// The debug flags `-Og` and `-g` are present in the C and in the C++ flag
/// string of a debug build, and the release flag `-DNDEBUG` in those of a
/// release build. The flags of the other target are absent, unless the
/// descriptor or a library gives them: `-DNDEBUG` from a debug build, and
/// every flag of the sanitizers, which is every word that begins with
/// `-fsanitize`, from a release build.
pub proof fn lemma_target_flags_present(
    project: ProjectView,
    target: BuildTarget,
    library: Seq<char>,
    sanitizer: Seq<char>,
)
    requires
        is_word(sanitizer),
        starts_with(sanitizer, "-fsanitize"@),
    ensures
        ({
            let c = composed(c_fragments(project, target, library));
            &&& target == BuildTarget::Debug ==> has_flag(c, "-Og"@) && has_flag(c, "-g"@)
            &&& target == BuildTarget::Debug && !c_given_have(project, library, "-DNDEBUG"@)
                ==> !has_flag(c, "-DNDEBUG"@)
            &&& target == BuildTarget::Release ==> has_flag(c, "-DNDEBUG"@)
            &&& target == BuildTarget::Release && !c_given_have(project, library, sanitizer)
                ==> !has_flag(c, sanitizer)
        }),
        ({
            let cpp = composed(cpp_fragments(project, target, library));
            &&& target == BuildTarget::Debug ==> has_flag(cpp, "-Og"@) && has_flag(cpp, "-g"@)
            &&& target == BuildTarget::Debug && !cpp_given_have(project, library, "-DNDEBUG"@)
                ==> !has_flag(cpp, "-DNDEBUG"@)
            &&& target == BuildTarget::Release ==> has_flag(cpp, "-DNDEBUG"@)
            &&& target == BuildTarget::Release && !cpp_given_have(project, library, sanitizer)
                ==> !has_flag(cpp, sanitizer)
        }),
{
    lemma_own_flags_are_words();
    lemma_own_flags_differ();
    lemma_no_sanitizer_of_its_own(sanitizer);
    let c_standard = project.resolved_c_standard();
    let cpp_standard = project.resolved_cpp_standard();
    let cflags = project.resolved_cflags();
    let cxxflags = project.resolved_cxxflags();
    let kind = project.project_type;
    lemma_unit_flags_present(c_standard, library, target, cflags, kind, "-Og"@);
    lemma_unit_flags_present(c_standard, library, target, cflags, kind, "-g"@);
    lemma_unit_flags_present(c_standard, library, target, cflags, kind, "-DNDEBUG"@);
    lemma_unit_flags_present(c_standard, library, target, cflags, kind, sanitizer);
    lemma_unit_flags_present(cpp_standard, library, target, cxxflags, kind, "-Og"@);
    lemma_unit_flags_present(cpp_standard, library, target, cxxflags, kind, "-g"@);
    lemma_unit_flags_present(cpp_standard, library, target, cxxflags, kind, "-DNDEBUG"@);
    lemma_unit_flags_present(cpp_standard, library, target, cxxflags, kind, sanitizer);
    let debug = target_compile_tokens(BuildTarget::Debug);
    let release = target_compile_tokens(BuildTarget::Release);
    assert(debug[0] == "-Og"@);
    assert(debug[1] == "-g"@);
    assert(release[0] == "-DNDEBUG"@);
}

/// The flags that the assembler adds of its own are told apart: neither
/// the warning baseline nor the flags of a build target hold the flag for
/// position independent code, and neither the baseline, the debug flags nor
/// that flag hold `-DNDEBUG`.
proof fn lemma_own_flags_differ()
    ensures
        !baseline_tokens().contains("-fPIC"@),
        !target_compile_tokens(BuildTarget::Debug).contains("-fPIC"@),
        !target_compile_tokens(BuildTarget::Release).contains("-fPIC"@),
        !baseline_tokens().contains("-DNDEBUG"@),
        !target_compile_tokens(BuildTarget::Debug).contains("-DNDEBUG"@),
        !pic_tokens(ProjectType::Executable).contains("-DNDEBUG"@),
        !pic_tokens(ProjectType::SharedLibrary).contains("-DNDEBUG"@),
        !pic_tokens(ProjectType::StaticLibrary).contains("-DNDEBUG"@),
{
    reveal_strlit("-Wall");
    reveal_strlit("-Wextra");
    reveal_strlit("-Wpedantic");
    reveal_strlit("-Wshadow");
    reveal_strlit("-Wconversion");
    reveal_strlit("-Wdouble-promotion");
    reveal_strlit("-Wformat=2");
    reveal_strlit("-Iinclude");
    reveal_strlit("-Isrc");
    reveal_strlit("-Og");
    reveal_strlit("-g");
    reveal_strlit("-fsanitize=undefined");
    reveal_strlit("-fsanitize-trap");
    reveal_strlit("-DNDEBUG");
    reveal_strlit("-O2");
    reveal_strlit("-ffast-math");
    reveal_strlit("-fPIC");
    let pic = "-fPIC"@;
    let ndebug = "-DNDEBUG"@;
    assert(pic.len() == 5 && pic[1] == 'f');
    assert(ndebug.len() == 8 && ndebug[1] == 'D');
    assert("-Wall"@.len() == 5 && "-Wall"@[1] == 'W');
    assert("-Wextra"@.len() == 7);
    assert("-Wpedantic"@.len() == 10);
    assert("-Wshadow"@.len() == 8 && "-Wshadow"@[1] == 'W');
    assert("-Wconversion"@.len() == 12);
    assert("-Wdouble-promotion"@.len() == 18);
    assert("-Wformat=2"@.len() == 10);
    assert("-Iinclude"@.len() == 9);
    assert("-Isrc"@.len() == 5 && "-Isrc"@[1] == 'I');
    assert("-Og"@.len() == 3);
    assert("-g"@.len() == 2);
    assert("-fsanitize=undefined"@.len() == 20);
    assert("-fsanitize-trap"@.len() == 15);
    assert("-O2"@.len() == 3);
    assert("-ffast-math"@.len() == 11);
}

/// None of the flags that the assembler adds to a release build of its own
/// begins with `-fsanitize`.
proof fn lemma_no_sanitizer_of_its_own(sanitizer: Seq<char>)
    requires
        starts_with(sanitizer, "-fsanitize"@),
    ensures
        !baseline_tokens().contains(sanitizer),
        !target_compile_tokens(BuildTarget::Release).contains(sanitizer),
        !pic_tokens(ProjectType::Executable).contains(sanitizer),
        !pic_tokens(ProjectType::SharedLibrary).contains(sanitizer),
        !pic_tokens(ProjectType::StaticLibrary).contains(sanitizer),
{
    reveal_strlit("-Wall");
    reveal_strlit("-Wextra");
    reveal_strlit("-Wpedantic");
    reveal_strlit("-Wshadow");
    reveal_strlit("-Wconversion");
    reveal_strlit("-Wdouble-promotion");
    reveal_strlit("-Wformat=2");
    reveal_strlit("-Iinclude");
    reveal_strlit("-Isrc");
    reveal_strlit("-DNDEBUG");
    reveal_strlit("-O2");
    reveal_strlit("-ffast-math");
    reveal_strlit("-fPIC");
    reveal_strlit("-fsanitize");
    let prefix = "-fsanitize"@;
    assert(prefix.len() == 10 && prefix[1] == 'f' && prefix[2] == 's');
    assert(sanitizer.subrange(0, 10)[1] == sanitizer[1]);
    assert(sanitizer.subrange(0, 10)[2] == sanitizer[2]);
    assert(sanitizer.len() >= 10 && sanitizer[1] == 'f' && sanitizer[2] == 's');
    assert("-Wall"@.len() == 5);
    assert("-Wextra"@.len() == 7);
    assert("-Wpedantic"@[1] == 'W');
    assert("-Wshadow"@.len() == 8);
    assert("-Wconversion"@[1] == 'W');
    assert("-Wdouble-promotion"@[1] == 'W');
    assert("-Wformat=2"@[1] == 'W');
    assert("-Iinclude"@.len() == 9);
    assert("-Isrc"@.len() == 5);
    assert("-DNDEBUG"@.len() == 8);
    assert("-O2"@.len() == 3);
    assert("-ffast-math"@[2] == 'f');
    assert("-fPIC"@.len() == 5);
}

} // verus!
