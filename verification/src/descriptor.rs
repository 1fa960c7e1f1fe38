//! The project descriptor as it is stored: every field as written, or
//! absent. Reading it checks it against the schema; for a descriptor that
//! the library wrote, reading gives back what was written.
//!
//! The stored form holds texts only. Fields that the schema does not know
//! never reach it, so they are ignored. Enumerations are stored as lower
//! case tokens and read case sensitively.

use vstd::prelude::*;
use crate::command::push_texts;
use crate::error::BargeError;
use crate::project::{Library, LibraryView, Project, ProjectType, ProjectView, Toolset};
use crate::text::same_text;

verus! {

/// An external library as it is stored: its kind under the key `type`, and
/// the fields of either kind.
#[derive(Debug, Clone, PartialEq, Eq, Default)]
pub struct RawLibrary {
    pub kind: Option<String>,
    pub name: Option<String>,
    pub cflags: Option<String>,
    pub ldflags: Option<String>,
}

/// An external library as it is stored, as sequences of characters.
pub ghost struct RawLibraryView {
    pub kind: Option<Seq<char>>,
    pub name: Option<Seq<char>>,
    pub cflags: Option<Seq<char>>,
    pub ldflags: Option<Seq<char>>,
}

impl DeepView for RawLibrary {
    type V = RawLibraryView;

    open spec fn deep_view(&self) -> RawLibraryView {
        RawLibraryView {
            kind: self.kind.deep_view(),
            name: self.name.deep_view(),
            cflags: self.cflags.deep_view(),
            ldflags: self.ldflags.deep_view(),
        }
    }
}

impl View for RawLibrary {
    type V = RawLibraryView;

    open spec fn view(&self) -> RawLibraryView {
        self.deep_view()
    }
}

/// The project descriptor as it is stored.
#[derive(Debug, Clone, PartialEq, Eq, Default)]
pub struct RawProject {
    pub name: Option<String>,
    pub authors: Option<Vec<String>>,
    pub description: Option<String>,
    pub project_type: Option<String>,
    pub version: Option<String>,
    pub toolset: Option<String>,
    pub c_standard: Option<String>,
    pub cpp_standard: Option<String>,
    pub fortran_standard: Option<String>,
    pub cobol_standard: Option<String>,
    pub external_libraries: Option<Vec<RawLibrary>>,
    pub custom_cflags: Option<String>,
    pub custom_cxxflags: Option<String>,
    pub custom_fortranflags: Option<String>,
    pub custom_cobolflags: Option<String>,
    pub custom_ldflags: Option<String>,
    pub custom_makeopts: Option<String>,
    pub format_style: Option<String>,
    pub pre_build_steps: Option<Vec<String>>,
    pub post_build_steps: Option<Vec<String>>,
}

/// The project descriptor as it is stored, as sequences of characters.
pub ghost struct RawProjectView {
    pub name: Option<Seq<char>>,
    pub authors: Option<Seq<Seq<char>>>,
    pub description: Option<Seq<char>>,
    pub project_type: Option<Seq<char>>,
    pub version: Option<Seq<char>>,
    pub toolset: Option<Seq<char>>,
    pub c_standard: Option<Seq<char>>,
    pub cpp_standard: Option<Seq<char>>,
    pub fortran_standard: Option<Seq<char>>,
    pub cobol_standard: Option<Seq<char>>,
    pub external_libraries: Option<Seq<RawLibraryView>>,
    pub custom_cflags: Option<Seq<char>>,
    pub custom_cxxflags: Option<Seq<char>>,
    pub custom_fortranflags: Option<Seq<char>>,
    pub custom_cobolflags: Option<Seq<char>>,
    pub custom_ldflags: Option<Seq<char>>,
    pub custom_makeopts: Option<Seq<char>>,
    pub format_style: Option<Seq<char>>,
    pub pre_build_steps: Option<Seq<Seq<char>>>,
    pub post_build_steps: Option<Seq<Seq<char>>>,
}

impl DeepView for RawProject {
    type V = RawProjectView;

    open spec fn deep_view(&self) -> RawProjectView {
        RawProjectView {
            name: self.name.deep_view(),
            authors: self.authors.deep_view(),
            description: self.description.deep_view(),
            project_type: self.project_type.deep_view(),
            version: self.version.deep_view(),
            toolset: self.toolset.deep_view(),
            c_standard: self.c_standard.deep_view(),
            cpp_standard: self.cpp_standard.deep_view(),
            fortran_standard: self.fortran_standard.deep_view(),
            cobol_standard: self.cobol_standard.deep_view(),
            external_libraries: self.external_libraries.deep_view(),
            custom_cflags: self.custom_cflags.deep_view(),
            custom_cxxflags: self.custom_cxxflags.deep_view(),
            custom_fortranflags: self.custom_fortranflags.deep_view(),
            custom_cobolflags: self.custom_cobolflags.deep_view(),
            custom_ldflags: self.custom_ldflags.deep_view(),
            custom_makeopts: self.custom_makeopts.deep_view(),
            format_style: self.format_style.deep_view(),
            pre_build_steps: self.pre_build_steps.deep_view(),
            post_build_steps: self.post_build_steps.deep_view(),
        }
    }
}

impl View for RawProject {
    type V = RawProjectView;

    open spec fn view(&self) -> RawProjectView {
        self.deep_view()
    }
}

/// The token that stands for a toolset.
pub open spec fn toolset_token(toolset: Toolset) -> Seq<char> {
    match toolset {
        Toolset::Gnu => "gnu"@,
        Toolset::Llvm => "llvm"@,
    }
}

/// The toolset that `token` stands for.
pub open spec fn toolset_read(token: Seq<char>) -> Result<Toolset, BargeError> {
    if token == "gnu"@ {
        Ok(Toolset::Gnu)
    } else if token == "llvm"@ {
        Ok(Toolset::Llvm)
    } else {
        Err(BargeError::ConfigError("Unknown toolset in the project file"))
    }
}

/// The token that stands for an artifact kind.
pub open spec fn kind_token(kind: ProjectType) -> Seq<char> {
    match kind {
        ProjectType::Executable => "executable"@,
        ProjectType::SharedLibrary => "shared_library"@,
        ProjectType::StaticLibrary => "static_library"@,
    }
}

/// The artifact kind that `token` stands for.
pub open spec fn kind_read(token: Seq<char>) -> Result<ProjectType, BargeError> {
    if token == "executable"@ {
        Ok(ProjectType::Executable)
    } else if token == "shared_library"@ {
        Ok(ProjectType::SharedLibrary)
    } else if token == "static_library"@ {
        Ok(ProjectType::StaticLibrary)
    } else {
        Err(BargeError::ConfigError("Unknown project type in the project file"))
    }
}

/// The artifact kind that the user names with `token` when a project is
/// made: an executable where no token is given.
pub open spec fn kind_chosen(token: Option<Seq<char>>) -> Result<ProjectType, BargeError> {
    match token {
        None => Ok(ProjectType::Executable),
        Some(text) => if text == "executable"@ {
            Ok(ProjectType::Executable)
        } else if text == "shared-lib"@ || text == "shared-library"@ {
            Ok(ProjectType::SharedLibrary)
        } else if text == "static-lib"@ || text == "static-library"@ {
            Ok(ProjectType::StaticLibrary)
        } else {
            Err(
                BargeError::InvalidValue(
                    "Invalid project type, valid choices are: executable, shared-lib(rary), static-lib(rary)",
                ),
            )
        },
    }
}

/// An external library as it is stored.
pub open spec fn library_stored(library: LibraryView) -> RawLibraryView {
    match library {
        LibraryView::PkgConfig { name } => RawLibraryView {
            kind: Some("pkg_config"@),
            name: Some(name),
            cflags: None,
            ldflags: None,
        },
        LibraryView::Manual { cflags, ldflags } => RawLibraryView {
            kind: Some("manual"@),
            name: None,
            cflags: Some(cflags),
            ldflags: Some(ldflags),
        },
    }
}

/// The external library that `raw` describes, or the failure where its
/// kind is absent or unknown or a field of its kind is absent.
pub open spec fn library_read(raw: RawLibraryView) -> Result<LibraryView, BargeError> {
    match raw.kind {
        None => Err(BargeError::ConfigError("Missing field `type` of an external library")),
        Some(kind) => if kind == "pkg_config"@ {
            match raw.name {
                Some(name) => Ok(LibraryView::PkgConfig { name }),
                None => Err(BargeError::ConfigError("Missing field `name` of an external library")),
            }
        } else if kind == "manual"@ {
            match (raw.cflags, raw.ldflags) {
                (Some(cflags), Some(ldflags)) => Ok(LibraryView::Manual { cflags, ldflags }),
                (None, _) => Err(
                    BargeError::ConfigError("Missing field `cflags` of an external library"),
                ),
                (_, None) => Err(
                    BargeError::ConfigError("Missing field `ldflags` of an external library"),
                ),
            }
        } else {
            Err(BargeError::ConfigError("Unknown type of an external library"))
        },
    }
}

/// The external libraries as they are stored, in order.
pub open spec fn libraries_stored(libraries: Seq<LibraryView>) -> Seq<RawLibraryView> {
    Seq::new(libraries.len(), |i: int| library_stored(libraries[i]))
}

/// The external libraries that `raw` describes, in order, or the failure of
/// the first that cannot be read.
pub open spec fn libraries_read(raw: Seq<RawLibraryView>) -> Result<Seq<LibraryView>, BargeError>
    decreases raw.len(),
{
    if raw.len() == 0 {
        Ok(Seq::<LibraryView>::empty())
    } else {
        match libraries_read(raw.drop_last()) {
            Err(e) => Err(e),
            Ok(head) => match library_read(raw.last()) {
                Err(e) => Err(e),
                Ok(library) => Ok(head.push(library)),
            },
        }
    }
}

/// The descriptor as it is stored: every field that is present as it
/// stands, the enumerations as their tokens, and nothing for a field that
/// is absent.
pub open spec fn stored(project: ProjectView) -> RawProjectView {
    RawProjectView {
        name: Some(project.name),
        authors: Some(project.authors),
        description: Some(project.description),
        project_type: Some(kind_token(project.project_type)),
        version: Some(project.version),
        toolset: match project.toolset {
            Some(toolset) => Some(toolset_token(toolset)),
            None => None,
        },
        c_standard: project.c_standard,
        cpp_standard: project.cpp_standard,
        fortran_standard: project.fortran_standard,
        cobol_standard: project.cobol_standard,
        external_libraries: match project.external_libraries {
            Some(libraries) => Some(libraries_stored(libraries)),
            None => None,
        },
        custom_cflags: project.custom_cflags,
        custom_cxxflags: project.custom_cxxflags,
        custom_fortranflags: project.custom_fortranflags,
        custom_cobolflags: project.custom_cobolflags,
        custom_ldflags: project.custom_ldflags,
        custom_makeopts: project.custom_makeopts,
        format_style: project.format_style,
        pre_build_steps: project.pre_build_steps,
        post_build_steps: project.post_build_steps,
    }
}

/// The toolset of a stored descriptor: absent where the field is absent.
pub open spec fn toolset_field(token: Option<Seq<char>>) -> Result<Option<Toolset>, BargeError> {
    match token {
        None => Ok(None),
        Some(text) => match toolset_read(text) {
            Ok(toolset) => Ok(Some(toolset)),
            Err(e) => Err(e),
        },
    }
}

/// The external libraries of a stored descriptor: absent where the field
/// is absent.
pub open spec fn libraries_field(raw: Option<Seq<RawLibraryView>>) -> Result<
    Option<Seq<LibraryView>>,
    BargeError,
> {
    match raw {
        None => Ok(None),
        Some(list) => match libraries_read(list) {
            Ok(libraries) => Ok(Some(libraries)),
            Err(e) => Err(e),
        },
    }
}

/// The first failure that the schema finds in `raw`, if it finds one. The
/// required fields are looked at in the order in which the descriptor
/// declares them, then the tokens, then the external libraries.
pub open spec fn schema_failure(raw: RawProjectView) -> Option<BargeError> {
    if raw.name is None {
        Some(BargeError::ConfigError("Missing field `name` in the project file"))
    } else if raw.authors is None {
        Some(BargeError::ConfigError("Missing field `authors` in the project file"))
    } else if raw.description is None {
        Some(BargeError::ConfigError("Missing field `description` in the project file"))
    } else if raw.project_type is None {
        Some(BargeError::ConfigError("Missing field `project_type` in the project file"))
    } else if raw.version is None {
        Some(BargeError::ConfigError("Missing field `version` in the project file"))
    } else if kind_read(raw.project_type.unwrap()) is Err {
        Some(kind_read(raw.project_type.unwrap())->Err_0)
    } else if toolset_field(raw.toolset) is Err {
        Some(toolset_field(raw.toolset)->Err_0)
    } else if libraries_field(raw.external_libraries) is Err {
        Some(libraries_field(raw.external_libraries)->Err_0)
    } else {
        None
    }
}

/// The descriptor that `raw` describes, or the first failure that the
/// schema finds in it.
pub open spec fn loaded(raw: RawProjectView) -> Result<ProjectView, BargeError> {
    match schema_failure(raw) {
        Some(e) => Err(e),
        None => Ok(
            ProjectView {
                name: raw.name.unwrap(),
                authors: raw.authors.unwrap(),
                description: raw.description.unwrap(),
                project_type: kind_read(raw.project_type.unwrap()).unwrap(),
                version: raw.version.unwrap(),
                toolset: toolset_field(raw.toolset).unwrap(),
                c_standard: raw.c_standard,
                cpp_standard: raw.cpp_standard,
                fortran_standard: raw.fortran_standard,
                cobol_standard: raw.cobol_standard,
                external_libraries: libraries_field(raw.external_libraries).unwrap(),
                custom_cflags: raw.custom_cflags,
                custom_cxxflags: raw.custom_cxxflags,
                custom_fortranflags: raw.custom_fortranflags,
                custom_cobolflags: raw.custom_cobolflags,
                custom_ldflags: raw.custom_ldflags,
                custom_makeopts: raw.custom_makeopts,
                format_style: raw.format_style,
                pre_build_steps: raw.pre_build_steps,
                post_build_steps: raw.post_build_steps,
            },
        ),
    }
}

proof fn lemma_tokens()
    ensures
        forall|toolset: Toolset| #[trigger]
            toolset_read(toolset_token(toolset)) == Ok::<Toolset, BargeError>(toolset),
        forall|kind: ProjectType| #[trigger]
            kind_read(kind_token(kind)) == Ok::<ProjectType, BargeError>(kind),
        forall|library: LibraryView| #[trigger]
            library_read(library_stored(library)) == Ok::<LibraryView, BargeError>(library),
{
    reveal_strlit("gnu");
    reveal_strlit("llvm");
    reveal_strlit("executable");
    reveal_strlit("shared_library");
    reveal_strlit("static_library");
    reveal_strlit("pkg_config");
    reveal_strlit("manual");
    assert("gnu"@.len() == 3);
    assert("llvm"@.len() == 4);
    assert("executable"@.len() == 10);
    assert("shared_library"@.len() == 14);
    assert("static_library"@.len() == 14);
    assert("shared_library"@[1] == 'h');
    assert("static_library"@[1] == 't');
    assert("pkg_config"@.len() == 10);
    assert("manual"@.len() == 6);
}

proof fn lemma_libraries_round_trip(libraries: Seq<LibraryView>)
    ensures
        libraries_read(libraries_stored(libraries)) == Ok::<Seq<LibraryView>, BargeError>(
            libraries,
        ),
    decreases libraries.len(),
{
    lemma_tokens();
    let raw = libraries_stored(libraries);
    if libraries.len() > 0 {
        lemma_libraries_round_trip(libraries.drop_last());
        assert(raw.drop_last() =~= libraries_stored(libraries.drop_last()));
        assert(raw.last() == library_stored(libraries.last()));
        assert(libraries.drop_last().push(libraries.last()) =~= libraries);
    } else {
        assert(libraries =~= Seq::<LibraryView>::empty());
    }
}

/// Reading what was stored gives the descriptor back, field for field,
/// with every absent field absent again.
pub proof fn lemma_round_trip(project: ProjectView)
    ensures
        loaded(stored(project)) == Ok::<ProjectView, BargeError>(project),
{
    lemma_tokens();
    let raw = stored(project);
    assert(kind_read(raw.project_type.unwrap()) == Ok::<ProjectType, BargeError>(
        project.project_type,
    ));
    match project.toolset {
        Some(toolset) => {
            assert(toolset_read(toolset_token(toolset)) == Ok::<Toolset, BargeError>(toolset));
        },
        None => {},
    }
    match project.external_libraries {
        Some(libraries) => {
            lemma_libraries_round_trip(libraries);
        },
        None => {},
    }
    assert(schema_failure(raw) is None);
}

fn copy_text(field: &Option<String>) -> (r: Option<String>)
    ensures
        r.deep_view() == field.deep_view(),
{
    match field {
        Some(text) => Some(text.clone()),
        None => None,
    }
}

fn copy_texts(field: &Option<Vec<String>>) -> (r: Option<Vec<String>>)
    ensures
        r.deep_view() == field.deep_view(),
{
    match field {
        Some(list) => {
            let mut out: Vec<String> = Vec::new();
            assert(out.deep_view() =~= Seq::<Seq<char>>::empty());
            push_texts(&mut out, list);
            assert(out.deep_view() =~= list.deep_view());
            Some(out)
        },
        None => None,
    }
}

impl Toolset {
    /// The token that stands for the toolset where it is stored.
    pub fn token(&self) -> (r: &'static str)
        ensures
            r@ == toolset_token(*self),
    {
        match self {
            Toolset::Gnu => "gnu",
            Toolset::Llvm => "llvm",
        }
    }

    /// The toolset that `token` stands for.
    pub fn read(token: &str) -> (r: Result<Toolset, BargeError>)
        ensures
            r == toolset_read(token@),
    {
        if same_text(token, "gnu") {
            Ok(Toolset::Gnu)
        } else if same_text(token, "llvm") {
            Ok(Toolset::Llvm)
        } else {
            Err(BargeError::ConfigError("Unknown toolset in the project file"))
        }
    }
}

impl ProjectType {
    /// The token that stands for the artifact kind where it is stored.
    pub fn token(&self) -> (r: &'static str)
        ensures
            r@ == kind_token(*self),
    {
        match self {
            ProjectType::Executable => "executable",
            ProjectType::SharedLibrary => "shared_library",
            ProjectType::StaticLibrary => "static_library",
        }
    }

    /// The artifact kind that `token` stands for.
    pub fn read(token: &str) -> (r: Result<ProjectType, BargeError>)
        ensures
            r == kind_read(token@),
    {
        if same_text(token, "executable") {
            Ok(ProjectType::Executable)
        } else if same_text(token, "shared_library") {
            Ok(ProjectType::SharedLibrary)
        } else if same_text(token, "static_library") {
            Ok(ProjectType::StaticLibrary)
        } else {
            Err(BargeError::ConfigError("Unknown project type in the project file"))
        }
    }

    /// The artifact kind that the user names with `token` when a project
    /// is made.
    pub fn parse(token: Option<&str>) -> (r: Result<ProjectType, BargeError>)
        ensures
            r == kind_chosen(token.deep_view()),
    {
        match token {
            None => Ok(ProjectType::Executable),
            Some(text) => {
                if same_text(text, "executable") {
                    Ok(ProjectType::Executable)
                } else if same_text(text, "shared-lib") || same_text(text, "shared-library") {
                    Ok(ProjectType::SharedLibrary)
                } else if same_text(text, "static-lib") || same_text(text, "static-library") {
                    Ok(ProjectType::StaticLibrary)
                } else {
                    Err(
                        BargeError::InvalidValue(
                            "Invalid project type, valid choices are: executable, shared-lib(rary), static-lib(rary)",
                        ),
                    )
                }
            },
        }
    }
}

impl Library {
    /// The library as it is stored.
    pub fn store(&self) -> (r: RawLibrary)
        ensures
            r@ == library_stored(self@),
    {
        match self {
            Library::PkgConfig { name } => RawLibrary {
                kind: Some("pkg_config".to_owned()),
                name: Some(name.clone()),
                cflags: None,
                ldflags: None,
            },
            Library::Manual { cflags, ldflags } => RawLibrary {
                kind: Some("manual".to_owned()),
                name: None,
                cflags: Some(cflags.clone()),
                ldflags: Some(ldflags.clone()),
            },
        }
    }

    /// The library that `raw` describes.
    pub fn load(raw: &RawLibrary) -> (r: Result<Library, BargeError>)
        ensures
            match r {
                Ok(library) => library_read(raw@) == Ok::<LibraryView, BargeError>(library@),
                Err(e) => library_read(raw@) == Err::<LibraryView, BargeError>(e),
            },
    {
        match &raw.kind {
            None => Err(BargeError::ConfigError("Missing field `type` of an external library")),
            Some(kind) => {
                if same_text(kind.as_str(), "pkg_config") {
                    match &raw.name {
                        Some(name) => Ok(Library::PkgConfig { name: name.clone() }),
                        None => Err(
                            BargeError::ConfigError("Missing field `name` of an external library"),
                        ),
                    }
                } else if same_text(kind.as_str(), "manual") {
                    match (&raw.cflags, &raw.ldflags) {
                        (Some(cflags), Some(ldflags)) => Ok(
                            Library::Manual { cflags: cflags.clone(), ldflags: ldflags.clone() },
                        ),
                        (None, _) => Err(
                            BargeError::ConfigError(
                                "Missing field `cflags` of an external library",
                            ),
                        ),
                        (_, None) => Err(
                            BargeError::ConfigError(
                                "Missing field `ldflags` of an external library",
                            ),
                        ),
                    }
                } else {
                    Err(BargeError::ConfigError("Unknown type of an external library"))
                }
            },
        }
    }
}

fn store_libraries(libraries: &Vec<Library>) -> (r: Vec<RawLibrary>)
    ensures
        r.deep_view() == libraries_stored(libraries.deep_view()),
{
    let mut out: Vec<RawLibrary> = Vec::new();
    let mut i: usize = 0;
    while i < libraries.len()
        invariant
            i <= libraries.len(),
            out.len() == i,
            forall|j: int| 0 <= j < i ==> out[j]@ == library_stored(libraries[j]@),
        decreases libraries.len() - i,
    {
        out.push(libraries[i].store());
        i = i + 1;
    }
    assert(out.deep_view() =~= libraries_stored(libraries.deep_view()));
    out
}

fn load_libraries(raw: &Vec<RawLibrary>) -> (r: Result<Vec<Library>, BargeError>)
    ensures
        match r {
            Ok(libraries) => libraries_read(raw.deep_view()) == Ok::<Seq<LibraryView>, BargeError>(
                libraries.deep_view(),
            ),
            Err(e) => libraries_read(raw.deep_view()) == Err::<Seq<LibraryView>, BargeError>(e),
        },
{
    let mut out: Vec<Library> = Vec::new();
    let mut i: usize = 0;
    proof {
        assert(raw.deep_view().take(0) =~= Seq::<RawLibraryView>::empty());
        assert(out.deep_view() =~= Seq::<LibraryView>::empty());
    }
    while i < raw.len()
        invariant
            i <= raw.len(),
            libraries_read(raw.deep_view().take(i as int)) == Ok::<Seq<LibraryView>, BargeError>(
                out.deep_view(),
            ),
        decreases raw.len() - i,
    {
        proof {
            let before = raw.deep_view().take(i as int);
            let after = raw.deep_view().take(i + 1);
            assert(after.drop_last() =~= before);
            assert(after.last() == raw[i as int]@);
        }
        match Library::load(&raw[i]) {
            Ok(library) => {
                let ghost previous = out.deep_view();
                let ghost view = library@;
                out.push(library);
                assert(out.deep_view() =~= previous.push(view));
            },
            Err(e) => {
                proof {
                    lemma_failure_stays(raw.deep_view(), i + 1);
                }
                return Err(e);
            },
        }
        i = i + 1;
    }
    proof {
        assert(raw.deep_view().take(i as int) =~= raw.deep_view());
    }
    Ok(out)
}

/// A list of libraries whose beginning cannot be read cannot be read, and
/// fails as its beginning does.
proof fn lemma_failure_stays(raw: Seq<RawLibraryView>, length: int)
    requires
        0 <= length <= raw.len(),
        libraries_read(raw.take(length)) is Err,
    ensures
        libraries_read(raw) == libraries_read(raw.take(length)),
    decreases raw.len(),
{
    if length == raw.len() {
        assert(raw.take(length) =~= raw);
    } else {
        let rest = raw.drop_last();
        assert(rest.take(length) =~= raw.take(length));
        lemma_failure_stays(rest, length);
    }
}

/// What reading the descriptor file gave.
#[derive(Debug, Clone, PartialEq, Eq)]
pub enum DescriptorFile {
    /// The file is missing or could not be read.
    Unreadable,
    /// The file was read and is no well-formed descriptor document.
    Malformed,
    /// The file was read, and this is what it holds.
    Read(RawProject),
}

/// What reading the descriptor file gave, as sequences of characters.
pub ghost enum DescriptorFileView {
    Unreadable,
    Malformed,
    Read(RawProjectView),
}

impl DeepView for DescriptorFile {
    type V = DescriptorFileView;

    open spec fn deep_view(&self) -> DescriptorFileView {
        match self {
            DescriptorFile::Unreadable => DescriptorFileView::Unreadable,
            DescriptorFile::Malformed => DescriptorFileView::Malformed,
            DescriptorFile::Read(raw) => DescriptorFileView::Read(raw@),
        }
    }
}

impl View for DescriptorFile {
    type V = DescriptorFileView;

    open spec fn view(&self) -> DescriptorFileView {
        self.deep_view()
    }
}

/// The descriptor that the descriptor file holds. A file that is missing,
/// that cannot be read, that is malformed or that the schema refuses is a
/// configuration error.
pub open spec fn loaded_from(file: DescriptorFileView) -> Result<ProjectView, BargeError> {
    match file {
        DescriptorFileView::Unreadable => Err(
            BargeError::ConfigError("The project file is missing or cannot be read"),
        ),
        DescriptorFileView::Malformed => Err(
            BargeError::ConfigError("The project file is malformed"),
        ),
        DescriptorFileView::Read(raw) => loaded(raw),
    }
}

impl Project {
    /// The descriptor as it is stored.
    pub fn store(&self) -> (r: RawProject)
        ensures
            r@ == stored(self@),
    {
        RawProject {
            name: Some(self.name.clone()),
            authors: Some(copy_list(&self.authors)),
            description: Some(self.description.clone()),
            project_type: Some(self.project_type.token().to_owned()),
            version: Some(self.version.clone()),
            toolset: match &self.toolset {
                Some(toolset) => Some(toolset.token().to_owned()),
                None => None,
            },
            c_standard: copy_text(&self.c_standard),
            cpp_standard: copy_text(&self.cpp_standard),
            fortran_standard: copy_text(&self.fortran_standard),
            cobol_standard: copy_text(&self.cobol_standard),
            external_libraries: match &self.external_libraries {
                Some(libraries) => Some(store_libraries(libraries)),
                None => None,
            },
            custom_cflags: copy_text(&self.custom_cflags),
            custom_cxxflags: copy_text(&self.custom_cxxflags),
            custom_fortranflags: copy_text(&self.custom_fortranflags),
            custom_cobolflags: copy_text(&self.custom_cobolflags),
            custom_ldflags: copy_text(&self.custom_ldflags),
            custom_makeopts: copy_text(&self.custom_makeopts),
            format_style: copy_text(&self.format_style),
            pre_build_steps: copy_texts(&self.pre_build_steps),
            post_build_steps: copy_texts(&self.post_build_steps),
        }
    }

    /// The descriptor that `raw` describes. It is refused with a
    /// configuration error where a required field is absent, where a token
    /// names no value of its enumeration, or where an external library
    /// cannot be read.
    pub fn load(raw: &RawProject) -> (r: Result<Project, BargeError>)
        ensures
            match r {
                Ok(project) => loaded(raw@) == Ok::<ProjectView, BargeError>(project@),
                Err(e) => loaded(raw@) == Err::<ProjectView, BargeError>(e),
            },
    {
        let name = match &raw.name {
            Some(text) => text.clone(),
            None => {
                return Err(BargeError::ConfigError("Missing field `name` in the project file"));
            },
        };
        let authors = match copy_texts(&raw.authors) {
            Some(list) => list,
            None => {
                return Err(BargeError::ConfigError("Missing field `authors` in the project file"));
            },
        };
        let description = match &raw.description {
            Some(text) => text.clone(),
            None => {
                return Err(
                    BargeError::ConfigError("Missing field `description` in the project file"),
                );
            },
        };
        let kind_text = match &raw.project_type {
            Some(text) => text,
            None => {
                return Err(
                    BargeError::ConfigError("Missing field `project_type` in the project file"),
                );
            },
        };
        let version = match &raw.version {
            Some(text) => text.clone(),
            None => {
                return Err(BargeError::ConfigError("Missing field `version` in the project file"));
            },
        };
        let project_type = match ProjectType::read(kind_text.as_str()) {
            Ok(kind) => kind,
            Err(e) => {
                return Err(e);
            },
        };
        let toolset = match &raw.toolset {
            None => None,
            Some(text) => match Toolset::read(text.as_str()) {
                Ok(toolset) => Some(toolset),
                Err(e) => {
                    return Err(e);
                },
            },
        };
        let external_libraries = match &raw.external_libraries {
            None => None,
            Some(list) => match load_libraries(list) {
                Ok(libraries) => Some(libraries),
                Err(e) => {
                    return Err(e);
                },
            },
        };
        Ok(
            Project {
                name,
                authors,
                description,
                project_type,
                version,
                toolset,
                c_standard: copy_text(&raw.c_standard),
                cpp_standard: copy_text(&raw.cpp_standard),
                fortran_standard: copy_text(&raw.fortran_standard),
                cobol_standard: copy_text(&raw.cobol_standard),
                external_libraries,
                custom_cflags: copy_text(&raw.custom_cflags),
                custom_cxxflags: copy_text(&raw.custom_cxxflags),
                custom_fortranflags: copy_text(&raw.custom_fortranflags),
                custom_cobolflags: copy_text(&raw.custom_cobolflags),
                custom_ldflags: copy_text(&raw.custom_ldflags),
                custom_makeopts: copy_text(&raw.custom_makeopts),
                format_style: copy_text(&raw.format_style),
                pre_build_steps: copy_texts(&raw.pre_build_steps),
                post_build_steps: copy_texts(&raw.post_build_steps),
            },
        )
    }
}

impl Project {
    /// The descriptor that the descriptor file holds, or the configuration
    /// error that keeps it from being loaded.
    pub fn load_from(file: &DescriptorFile) -> (r: Result<Project, BargeError>)
        ensures
            match r {
                Ok(project) => loaded_from(file@) == Ok::<ProjectView, BargeError>(project@),
                Err(e) => loaded_from(file@) == Err::<ProjectView, BargeError>(e),
            },
            r matches Err(e) ==> e is ConfigError,
    {
        match file {
            DescriptorFile::Unreadable => Err(
                BargeError::ConfigError("The project file is missing or cannot be read"),
            ),
            DescriptorFile::Malformed => Err(
                BargeError::ConfigError("The project file is malformed"),
            ),
            DescriptorFile::Read(raw) => {
                proof {
                    lemma_load_fails_as_configuration(raw@);
                }
                Project::load(raw)
            },
        }
    }
}

/// Every failure of loading is a configuration error.
pub proof fn lemma_load_fails_as_configuration(raw: RawProjectView)
    ensures
        loaded(raw) matches Err(e) ==> e is ConfigError,
{
    match raw.external_libraries {
        Some(list) => {
            lemma_libraries_fail_as_configuration(list);
        },
        None => {},
    }
}

proof fn lemma_libraries_fail_as_configuration(raw: Seq<RawLibraryView>)
    ensures
        libraries_read(raw) matches Err(e) ==> e is ConfigError,
    decreases raw.len(),
{
    if raw.len() > 0 {
        lemma_libraries_fail_as_configuration(raw.drop_last());
    }
}

fn copy_list(list: &Vec<String>) -> (r: Vec<String>)
    ensures
        r.deep_view() == list.deep_view(),
{
    let mut out: Vec<String> = Vec::new();
    assert(out.deep_view() =~= Seq::<Seq<char>>::empty());
    push_texts(&mut out, list);
    assert(out.deep_view() =~= list.deep_view());
    out
}

} // verus!
