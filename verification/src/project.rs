//! The project descriptor and the values that follow from it alone: defaults,
//! toolchain executables, and the commands of the operations that need no
//! build plan.

use vstd::prelude::*;

verus! {

pub const DEFAULT_C_STANDARD: &'static str = "c11";

pub const DEFAULT_CPP_STANDARD: &'static str = "c++17";

pub const DEFAULT_FORTRAN_STANDARD: &'static str = "f2003";

pub const DEFAULT_COBOL_STANDARD: &'static str = "cobol2014";

pub const DEFAULT_TOOLSET: Toolset = Toolset::Llvm;

pub const DEFAULT_CUSTOM_CFLAGS: &'static str = "";

pub const DEFAULT_CUSTOM_CXXFLAGS: &'static str = "";

pub const DEFAULT_CUSTOM_FORTRANFLAGS: &'static str = "";

pub const DEFAULT_CUSTOM_COBOLFLAGS: &'static str = "";

pub const DEFAULT_CUSTOM_LDFLAGS: &'static str = "";

pub const DEFAULT_FORMAT_STYLE: &'static str = "Google";

/// The family of compiler, linker and debugger executables.
#[derive(Clone, Copy, Debug, PartialEq, Eq, Structural)]
pub enum Toolset {
    Gnu,
    Llvm,
}

/// An external library that the project is compiled and linked against.
#[derive(Debug, Clone, PartialEq, Eq)]
pub enum Library {
    /// Its flags are asked of the package metadata tool, under this name.
    PkgConfig { name: String },
    /// Its flags are given as they are to be passed.
    Manual { cflags: String, ldflags: String },
}

/// An external library, as sequences of characters.
pub ghost enum LibraryView {
    PkgConfig { name: Seq<char> },
    Manual { cflags: Seq<char>, ldflags: Seq<char> },
}

impl DeepView for Library {
    type V = LibraryView;

    open spec fn deep_view(&self) -> LibraryView {
        match self {
            Library::PkgConfig { name } => LibraryView::PkgConfig { name: name@ },
            Library::Manual { cflags, ldflags } => LibraryView::Manual {
                cflags: cflags@,
                ldflags: ldflags@,
            },
        }
    }
}

impl View for Library {
    type V = LibraryView;

    open spec fn view(&self) -> LibraryView {
        self.deep_view()
    }
}

/// What the build produces.
#[derive(Clone, Copy, Debug, PartialEq, Eq, Structural)]
pub enum ProjectType {
    Executable,
    SharedLibrary,
    StaticLibrary,
}

/// The project descriptor: one per project root, read on every invocation
/// and not changed afterwards.
#[derive(Debug, Clone, PartialEq, Eq)]
pub struct Project {
    pub name: String,
    pub authors: Vec<String>,
    pub description: String,
    pub project_type: ProjectType,
    pub version: String,
    pub toolset: Option<Toolset>,
    pub c_standard: Option<String>,
    pub cpp_standard: Option<String>,
    pub fortran_standard: Option<String>,
    pub cobol_standard: Option<String>,
    pub external_libraries: Option<Vec<Library>>,
    pub custom_cflags: Option<String>,
    pub custom_cxxflags: Option<String>,
    pub custom_fortranflags: Option<String>,
    pub custom_cobolflags: Option<String>,
    pub custom_ldflags: Option<String>,
    pub custom_makeopts: Option<String>,
    pub format_style: Option<String>,
    pub pre_build_steps: Option<Vec<String>>,
    pub post_build_steps: Option<Vec<String>>,
}

/// The project descriptor, as sequences of characters.
pub ghost struct ProjectView {
    pub name: Seq<char>,
    pub authors: Seq<Seq<char>>,
    pub description: Seq<char>,
    pub project_type: ProjectType,
    pub version: Seq<char>,
    pub toolset: Option<Toolset>,
    pub c_standard: Option<Seq<char>>,
    pub cpp_standard: Option<Seq<char>>,
    pub fortran_standard: Option<Seq<char>>,
    pub cobol_standard: Option<Seq<char>>,
    pub external_libraries: Option<Seq<LibraryView>>,
    pub custom_cflags: Option<Seq<char>>,
    pub custom_cxxflags: Option<Seq<char>>,
    pub custom_fortranflags: Option<Seq<char>>,
    pub custom_cobolflags: Option<Seq<char>>,
    pub custom_ldflags: Option<Seq<char>>,
    pub custom_makeopts: Option<Seq<char>>,
    pub format_style: Option<Seq<char>>,
    pub pre_build_steps: Option<Seq<Seq<char>>>,
    pub post_build_steps: Option<Seq<Seq<char>>>,
}

impl DeepView for Project {
    type V = ProjectView;

    open spec fn deep_view(&self) -> ProjectView {
        ProjectView {
            name: self.name@,
            authors: self.authors.deep_view(),
            description: self.description@,
            project_type: self.project_type,
            version: self.version@,
            toolset: self.toolset,
            c_standard: self.c_standard.deep_view(),
            cpp_standard: self.cpp_standard.deep_view(),
            fortran_standard: self.fortran_standard.deep_view(),
            cobol_standard: self.cobol_standard.deep_view(),
            external_libraries: self.external_libraries.deep_view(),
            custom_cflags: self.custom_cflags.deep_view(),
            custom_cxxflags: self.custom_cxxflags.deep_view(),
            custom_fortranflags: self.custom_fortranflags.deep_view(),
            custom_cobolflags: self.custom_cobolflags.deep_view(),
            custom_ldflags: self.custom_ldflags.deep_view(),
            custom_makeopts: self.custom_makeopts.deep_view(),
            format_style: self.format_style.deep_view(),
            pre_build_steps: self.pre_build_steps.deep_view(),
            post_build_steps: self.post_build_steps.deep_view(),
        }
    }
}

impl View for Project {
    type V = ProjectView;

    open spec fn view(&self) -> ProjectView {
        self.deep_view()
    }
}

/// The text of `field`, or `default` where the field is absent.
pub open spec fn text_or(field: Option<Seq<char>>, default: Seq<char>) -> Seq<char> {
    match field {
        Some(text) => text,
        None => default,
    }
}

/// The items of `field`, or none where the field is absent.
pub open spec fn items_or_none<T>(field: Option<Seq<T>>) -> Seq<T> {
    match field {
        Some(items) => items,
        None => Seq::<T>::empty(),
    }
}

/// What the fields of a descriptor stand for: each optional field as it is
/// given, and its default where it is absent. Every default is defined
/// here, by the constant that names it, and nowhere else.
impl ProjectView {
    /// The toolset: LLVM unless the descriptor selects another.
    pub open spec fn resolved_toolset(self) -> Toolset {
        match self.toolset {
            Some(toolset) => toolset,
            None => DEFAULT_TOOLSET,
        }
    }

    /// The C standard: `c11` unless the descriptor gives another.
    pub open spec fn resolved_c_standard(self) -> Seq<char> {
        text_or(self.c_standard, DEFAULT_C_STANDARD@)
    }

    /// The C++ standard: `c++17` unless the descriptor gives another.
    pub open spec fn resolved_cpp_standard(self) -> Seq<char> {
        text_or(self.cpp_standard, DEFAULT_CPP_STANDARD@)
    }

    /// The Fortran standard: `f2003` unless the descriptor gives another.
    pub open spec fn resolved_fortran_standard(self) -> Seq<char> {
        text_or(self.fortran_standard, DEFAULT_FORTRAN_STANDARD@)
    }

    /// The COBOL standard: `cobol2014` unless the descriptor gives
    /// another.
    pub open spec fn resolved_cobol_standard(self) -> Seq<char> {
        text_or(self.cobol_standard, DEFAULT_COBOL_STANDARD@)
    }

    /// The flags that the descriptor adds for C units: none unless given.
    pub open spec fn resolved_cflags(self) -> Seq<char> {
        text_or(self.custom_cflags, DEFAULT_CUSTOM_CFLAGS@)
    }

    /// The flags that the descriptor adds for C++ units: none unless
    /// given.
    pub open spec fn resolved_cxxflags(self) -> Seq<char> {
        text_or(self.custom_cxxflags, DEFAULT_CUSTOM_CXXFLAGS@)
    }

    /// The flags that the descriptor adds for Fortran units: none unless
    /// given.
    pub open spec fn resolved_fortranflags(self) -> Seq<char> {
        text_or(self.custom_fortranflags, DEFAULT_CUSTOM_FORTRANFLAGS@)
    }

    /// The flags that the descriptor adds for COBOL units: none unless
    /// given.
    pub open spec fn resolved_cobolflags(self) -> Seq<char> {
        text_or(self.custom_cobolflags, DEFAULT_CUSTOM_COBOLFLAGS@)
    }

    /// The flags that the descriptor adds for the linker: none unless
    /// given.
    pub open spec fn resolved_ldflags(self) -> Seq<char> {
        text_or(self.custom_ldflags, DEFAULT_CUSTOM_LDFLAGS@)
    }

    /// The style that the formatter applies: `Google` unless the
    /// descriptor gives another.
    pub open spec fn resolved_format_style(self) -> Seq<char> {
        text_or(self.format_style, DEFAULT_FORMAT_STYLE@)
    }

    /// The steps before the build: none unless given.
    pub open spec fn pre_steps(self) -> Seq<Seq<char>> {
        items_or_none(self.pre_build_steps)
    }

    /// The steps after the build: none unless given.
    pub open spec fn post_steps(self) -> Seq<Seq<char>> {
        items_or_none(self.post_build_steps)
    }
}

/// The names of the C compiler, the C++ compiler and the Fortran compiler
/// of `toolset`.
pub open spec fn toolset_executables(toolset: Toolset) -> (Seq<char>, Seq<char>, Seq<char>) {
    match toolset {
        Toolset::Gnu => ("gcc"@, "g++"@, "gfortran"@),
        Toolset::Llvm => ("clang"@, "clang++"@, "gfortran"@),
    }
}

/// The name of the debugger of `toolset`.
pub open spec fn toolset_debugger(toolset: Toolset) -> Seq<char> {
    match toolset {
        Toolset::Gnu => "gdb"@,
        Toolset::Llvm => "lldb"@,
    }
}

/// The name of the program that links the objects: the C++ compiler of
/// `toolset`, which drives the linker with the C++ runtime in place.
pub open spec fn toolset_linker(toolset: Toolset) -> Seq<char> {
    toolset_executables(toolset).1
}

/// The text of `field`, or `default` where the field is absent.
pub fn get_field_or_default<'a>(field: &'a Option<String>, default: &'a str) -> (r: &'a str)
    ensures
        r@ == text_or(field.deep_view(), default@),
{
    match field {
        Some(text) => text.as_str(),
        None => default,
    }
}

/// The names of the C compiler, the C++ compiler and the Fortran compiler
/// of `toolset`.
pub fn get_toolset_executables(toolset: &Toolset) -> (r: (&'static str, &'static str, &'static str))
    ensures
        (r.0@, r.1@, r.2@) == toolset_executables(*toolset),
{
    match toolset {
        Toolset::Gnu => ("gcc", "g++", "gfortran"),
        Toolset::Llvm => ("clang", "clang++", "gfortran"),
    }
}

/// The name of the debugger of `toolset`.
pub fn get_debugger(toolset: &Toolset) -> (r: &'static str)
    ensures
        r@ == toolset_debugger(*toolset),
{
    match toolset {
        Toolset::Gnu => "gdb",
        Toolset::Llvm => "lldb",
    }
}

/// The name of the program that links the objects of `toolset`.
pub fn get_linker(toolset: &Toolset) -> (r: &'static str)
    ensures
        r@ == toolset_linker(*toolset),
{
    get_toolset_executables(toolset).1
}

/// The fields of the descriptor as the operations read them: each with
/// its default where the descriptor leaves it out.
impl Project {
    /// The toolset, with its default.
    pub fn get_toolset(&self) -> (r: Toolset)
        ensures
            r == self@.resolved_toolset(),
    {
        match self.toolset {
            Some(toolset) => toolset,
            None => DEFAULT_TOOLSET,
        }
    }

    /// The C standard, with its default.
    pub fn get_c_standard(&self) -> (r: &str)
        ensures
            r@ == self@.resolved_c_standard(),
    {
        get_field_or_default(&self.c_standard, DEFAULT_C_STANDARD)
    }

    /// The C++ standard, with its default.
    pub fn get_cpp_standard(&self) -> (r: &str)
        ensures
            r@ == self@.resolved_cpp_standard(),
    {
        get_field_or_default(&self.cpp_standard, DEFAULT_CPP_STANDARD)
    }

    /// The Fortran standard, with its default.
    pub fn get_fortran_standard(&self) -> (r: &str)
        ensures
            r@ == self@.resolved_fortran_standard(),
    {
        get_field_or_default(&self.fortran_standard, DEFAULT_FORTRAN_STANDARD)
    }

    /// The COBOL standard, with its default.
    pub fn get_cobol_standard(&self) -> (r: &str)
        ensures
            r@ == self@.resolved_cobol_standard(),
    {
        get_field_or_default(&self.cobol_standard, DEFAULT_COBOL_STANDARD)
    }

    /// The flags added for C units, with their default.
    pub fn get_custom_cflags(&self) -> (r: &str)
        ensures
            r@ == self@.resolved_cflags(),
    {
        get_field_or_default(&self.custom_cflags, DEFAULT_CUSTOM_CFLAGS)
    }

    /// The flags added for C++ units, with their default.
    pub fn get_custom_cxxflags(&self) -> (r: &str)
        ensures
            r@ == self@.resolved_cxxflags(),
    {
        get_field_or_default(&self.custom_cxxflags, DEFAULT_CUSTOM_CXXFLAGS)
    }

    /// The flags added for Fortran units, with their default.
    pub fn get_custom_fortranflags(&self) -> (r: &str)
        ensures
            r@ == self@.resolved_fortranflags(),
    {
        get_field_or_default(&self.custom_fortranflags, DEFAULT_CUSTOM_FORTRANFLAGS)
    }

    /// The flags added for COBOL units, with their default.
    pub fn get_custom_cobolflags(&self) -> (r: &str)
        ensures
            r@ == self@.resolved_cobolflags(),
    {
        get_field_or_default(&self.custom_cobolflags, DEFAULT_CUSTOM_COBOLFLAGS)
    }

    /// The flags added for the linker, with their default.
    pub fn get_custom_ldflags(&self) -> (r: &str)
        ensures
            r@ == self@.resolved_ldflags(),
    {
        get_field_or_default(&self.custom_ldflags, DEFAULT_CUSTOM_LDFLAGS)
    }

    /// The style that the formatter applies, with its default.
    pub fn get_format_style(&self) -> (r: &str)
        ensures
            r@ == self@.resolved_format_style(),
    {
        get_field_or_default(&self.format_style, DEFAULT_FORMAT_STYLE)
    }
}

} // verus!
