use barge::descriptor::{DescriptorFile, RawLibrary, RawProject};
use barge::error::BargeError;
use barge::makefile::{parse_build_target, BuildTarget};
use barge::project::{
    get_debugger, get_linker, get_toolset_executables, Library, Project, ProjectType, Toolset,
};

fn texts(items: &[&str]) -> Vec<String> {
    items.iter().map(|s| s.to_string()).collect()
}

fn some(text: &str) -> Option<String> {
    Some(text.to_string())
}

fn full_project() -> Project {
    Project {
        name: "demo".to_string(),
        authors: texts(&["A <a@example.org>", "B <b@example.org>"]),
        description: "A demonstration".to_string(),
        project_type: ProjectType::SharedLibrary,
        version: "1.2.3".to_string(),
        toolset: Some(Toolset::Gnu),
        c_standard: some("c99"),
        cpp_standard: some("c++20"),
        fortran_standard: some("f2008"),
        cobol_standard: some("ibm"),
        external_libraries: Some(vec![
            Library::PkgConfig { name: "zlib".to_string() },
            Library::Manual { cflags: "-Ia".to_string(), ldflags: "-la".to_string() },
        ]),
        custom_cflags: some("-DC"),
        custom_cxxflags: some("-DCXX"),
        custom_fortranflags: some("-ffree-form"),
        custom_cobolflags: some("-free"),
        custom_ldflags: some("-Wl,-z,now"),
        custom_makeopts: some("-j2 -k"),
        format_style: some("LLVM"),
        pre_build_steps: Some(texts(&["tools/gen.py"])),
        post_build_steps: Some(texts(&["tools/pack.sh", "tools/sign.c"])),
    }
}

fn minimal_raw() -> RawProject {
    RawProject {
        name: some("demo"),
        authors: Some(vec![]),
        description: some(""),
        project_type: some("executable"),
        version: some("0.1.0"),
        ..RawProject::default()
    }
}

#[test]
fn toolset_rows() {
    assert_eq!(get_toolset_executables(&Toolset::Llvm), ("clang", "clang++", "gfortran"));
    assert_eq!(get_toolset_executables(&Toolset::Gnu), ("gcc", "g++", "gfortran"));
    assert_eq!(get_debugger(&Toolset::Llvm), "lldb");
    assert_eq!(get_debugger(&Toolset::Gnu), "gdb");
    assert_eq!(get_linker(&Toolset::Llvm), "clang++");
    assert_eq!(get_linker(&Toolset::Gnu), "g++");
}

#[test]
fn default_toolset_is_llvm() {
    let p = Project::new("p", ProjectType::Executable, "a".to_string());
    assert_eq!(p.toolset, None);
    assert_eq!(p.get_toolset(), Toolset::Llvm);
    assert_eq!(full_project().get_toolset(), Toolset::Gnu);
}

#[test]
fn defaults_of_absent_fields() {
    let p = Project::new("p", ProjectType::Executable, "a".to_string());
    assert_eq!(p.get_c_standard(), "c11");
    assert_eq!(p.get_cpp_standard(), "c++17");
    assert_eq!(p.get_fortran_standard(), "f2003");
    assert_eq!(p.get_cobol_standard(), "cobol2014");
    assert_eq!(p.get_custom_cflags(), "");
    assert_eq!(p.get_custom_cxxflags(), "");
    assert_eq!(p.get_custom_fortranflags(), "");
    assert_eq!(p.get_custom_cobolflags(), "");
    assert_eq!(p.get_custom_ldflags(), "");
    assert_eq!(p.get_format_style(), "Google");
    let q = full_project();
    assert_eq!(q.get_c_standard(), "c99");
    assert_eq!(q.get_cpp_standard(), "c++20");
    assert_eq!(q.get_fortran_standard(), "f2008");
    assert_eq!(q.get_cobol_standard(), "ibm");
    assert_eq!(q.get_custom_cflags(), "-DC");
    assert_eq!(q.get_custom_cxxflags(), "-DCXX");
    assert_eq!(q.get_custom_fortranflags(), "-ffree-form");
    assert_eq!(q.get_custom_cobolflags(), "-free");
    assert_eq!(q.get_custom_ldflags(), "-Wl,-z,now");
    assert_eq!(q.get_format_style(), "LLVM");
}

#[test]
fn new_project() {
    let p = Project::new("demo", ProjectType::StaticLibrary, "A <a@example.org>".to_string());
    assert_eq!(p.name, "demo");
    assert_eq!(p.authors, texts(&["A <a@example.org>"]));
    assert_eq!(p.description, "");
    assert_eq!(p.project_type, ProjectType::StaticLibrary);
    assert_eq!(p.version, "0.1.0");
    assert_eq!(p.toolset, None);
    assert_eq!(p.c_standard, None);
    assert_eq!(p.cpp_standard, None);
    assert_eq!(p.fortran_standard, None);
    assert_eq!(p.cobol_standard, None);
    assert_eq!(p.external_libraries, None);
    assert_eq!(p.custom_cflags, None);
    assert_eq!(p.custom_cxxflags, None);
    assert_eq!(p.custom_fortranflags, None);
    assert_eq!(p.custom_cobolflags, None);
    assert_eq!(p.custom_ldflags, None);
    assert_eq!(p.custom_makeopts, None);
    assert_eq!(p.format_style, None);
    assert_eq!(p.pre_build_steps, None);
    assert_eq!(p.post_build_steps, None);
}

#[test]
fn build_target_names() {
    assert_eq!(BuildTarget::try_from("debug"), Ok(BuildTarget::Debug));
    assert_eq!(BuildTarget::try_from("release"), Ok(BuildTarget::Release));
    assert_eq!(BuildTarget::Debug.to_string(), "debug");
    assert_eq!(BuildTarget::Release.to_string(), "release");
    assert_eq!(BuildTarget::Debug.as_str(), "debug");
    assert_eq!(BuildTarget::Release.as_str(), "release");
}

#[test]
fn unknown_build_target_is_an_invalid_value() {
    for token in ["fast", "Debug", "RELEASE", "", "debug ", " release", "deb"] {
        assert_eq!(
            BuildTarget::try_from(token),
            Err(BargeError::InvalidValue("Invalid target specified"))
        );
        assert_eq!(
            parse_build_target(Some(&token.to_string())),
            Err(BargeError::InvalidValue("Invalid target specified"))
        );
    }
}

#[test]
fn absent_build_target_is_debug() {
    assert_eq!(parse_build_target(None), Ok(BuildTarget::Debug));
    assert_eq!(parse_build_target(Some(&"debug".to_string())), Ok(BuildTarget::Debug));
    assert_eq!(parse_build_target(Some(&"release".to_string())), Ok(BuildTarget::Release));
}

#[test]
fn project_type_given_by_the_user() {
    assert_eq!(ProjectType::parse(None), Ok(ProjectType::Executable));
    assert_eq!(ProjectType::parse(Some("executable")), Ok(ProjectType::Executable));
    assert_eq!(ProjectType::parse(Some("shared-lib")), Ok(ProjectType::SharedLibrary));
    assert_eq!(ProjectType::parse(Some("shared-library")), Ok(ProjectType::SharedLibrary));
    assert_eq!(ProjectType::parse(Some("static-lib")), Ok(ProjectType::StaticLibrary));
    assert_eq!(ProjectType::parse(Some("static-library")), Ok(ProjectType::StaticLibrary));
    for token in ["", "binary", "Executable", "shared_library", "static"] {
        assert!(matches!(ProjectType::parse(Some(token)), Err(BargeError::InvalidValue(_))));
    }
}

#[test]
fn stored_tokens() {
    assert_eq!(Toolset::Gnu.token(), "gnu");
    assert_eq!(Toolset::Llvm.token(), "llvm");
    assert_eq!(Toolset::read("gnu"), Ok(Toolset::Gnu));
    assert_eq!(Toolset::read("llvm"), Ok(Toolset::Llvm));
    assert!(matches!(Toolset::read("LLVM"), Err(BargeError::ConfigError(_))));
    assert!(matches!(Toolset::read("msvc"), Err(BargeError::ConfigError(_))));
    assert_eq!(ProjectType::Executable.token(), "executable");
    assert_eq!(ProjectType::SharedLibrary.token(), "shared_library");
    assert_eq!(ProjectType::StaticLibrary.token(), "static_library");
    for kind in [ProjectType::Executable, ProjectType::SharedLibrary, ProjectType::StaticLibrary] {
        assert_eq!(ProjectType::read(kind.token()), Ok(kind));
    }
    assert!(matches!(ProjectType::read("shared-lib"), Err(BargeError::ConfigError(_))));
    assert!(matches!(ProjectType::read("Executable"), Err(BargeError::ConfigError(_))));
}

#[test]
fn round_trip_of_a_full_descriptor() {
    let p = full_project();
    assert_eq!(Project::load(&p.store()), Ok(p));
}

#[test]
fn round_trip_of_a_descriptor_with_absent_fields() {
    let p = Project::new("demo", ProjectType::Executable, "A <a@example.org>".to_string());
    let raw = p.store();
    assert_eq!(raw.toolset, None);
    assert_eq!(raw.c_standard, None);
    assert_eq!(raw.external_libraries, None);
    assert_eq!(raw.custom_makeopts, None);
    assert_eq!(raw.pre_build_steps, None);
    assert_eq!(raw.post_build_steps, None);
    assert_eq!(Project::load(&raw), Ok(p));
}

#[test]
fn round_trip_keeps_empty_lists_apart_from_absent_ones() {
    let mut p = Project::new("demo", ProjectType::Executable, "a".to_string());
    p.external_libraries = Some(vec![]);
    p.pre_build_steps = Some(vec![]);
    p.authors = vec![];
    let back = Project::load(&p.store()).unwrap();
    assert_eq!(back.external_libraries, Some(vec![]));
    assert_eq!(back.pre_build_steps, Some(vec![]));
    assert_eq!(back.post_build_steps, None);
    assert_eq!(back.authors, Vec::<String>::new());
    assert_eq!(back, p);
}

#[test]
fn stored_form_of_a_descriptor() {
    let raw = full_project().store();
    assert_eq!(raw.name, some("demo"));
    assert_eq!(raw.authors, Some(texts(&["A <a@example.org>", "B <b@example.org>"])));
    assert_eq!(raw.description, some("A demonstration"));
    assert_eq!(raw.project_type, some("shared_library"));
    assert_eq!(raw.version, some("1.2.3"));
    assert_eq!(raw.toolset, some("gnu"));
    assert_eq!(
        raw.external_libraries,
        Some(vec![
            RawLibrary { kind: some("pkg_config"), name: some("zlib"), cflags: None, ldflags: None },
            RawLibrary { kind: some("manual"), name: None, cflags: some("-Ia"), ldflags: some("-la") },
        ])
    );
    assert_eq!(raw.custom_makeopts, some("-j2 -k"));
    assert_eq!(raw.post_build_steps, Some(texts(&["tools/pack.sh", "tools/sign.c"])));
}

#[test]
fn minimal_descriptor_loads_with_absent_options() {
    let p = Project::load(&minimal_raw()).unwrap();
    assert_eq!(p.name, "demo");
    assert_eq!(p.project_type, ProjectType::Executable);
    assert_eq!(p.toolset, None);
    assert_eq!(p.external_libraries, None);
    assert_eq!(p.get_toolset(), Toolset::Llvm);
    assert_eq!(p.get_c_standard(), "c11");
}

#[test]
fn required_fields() {
    let mut raw = minimal_raw();
    raw.name = None;
    assert_eq!(
        Project::load(&raw),
        Err(BargeError::ConfigError("Missing field `name` in the project file"))
    );
    let mut raw = minimal_raw();
    raw.authors = None;
    assert_eq!(
        Project::load(&raw),
        Err(BargeError::ConfigError("Missing field `authors` in the project file"))
    );
    let mut raw = minimal_raw();
    raw.description = None;
    assert_eq!(
        Project::load(&raw),
        Err(BargeError::ConfigError("Missing field `description` in the project file"))
    );
    let mut raw = minimal_raw();
    raw.project_type = None;
    assert_eq!(
        Project::load(&raw),
        Err(BargeError::ConfigError("Missing field `project_type` in the project file"))
    );
    let mut raw = minimal_raw();
    raw.version = None;
    assert_eq!(
        Project::load(&raw),
        Err(BargeError::ConfigError("Missing field `version` in the project file"))
    );
    assert_eq!(
        Project::load(&RawProject::default()),
        Err(BargeError::ConfigError("Missing field `name` in the project file"))
    );
}

#[test]
fn a_descriptor_file_that_cannot_be_loaded_is_a_configuration_error() {
    assert_eq!(
        Project::load_from(&DescriptorFile::Unreadable),
        Err(BargeError::ConfigError("The project file is missing or cannot be read"))
    );
    assert_eq!(
        Project::load_from(&DescriptorFile::Malformed),
        Err(BargeError::ConfigError("The project file is malformed"))
    );
    assert_eq!(
        Project::load_from(&DescriptorFile::Read(RawProject::default())),
        Err(BargeError::ConfigError("Missing field `name` in the project file"))
    );
    let p = full_project();
    assert_eq!(Project::load_from(&DescriptorFile::Read(p.store())), Ok(p));
}

#[test]
fn unknown_tokens_are_refused() {
    let mut raw = minimal_raw();
    raw.project_type = some("Executable");
    assert_eq!(
        Project::load(&raw),
        Err(BargeError::ConfigError("Unknown project type in the project file"))
    );
    let mut raw = minimal_raw();
    raw.toolset = some("msvc");
    assert_eq!(
        Project::load(&raw),
        Err(BargeError::ConfigError("Unknown toolset in the project file"))
    );
}

#[test]
fn external_libraries_are_checked() {
    let library = |kind: Option<&str>, name: Option<&str>, cflags: Option<&str>, ldflags: Option<&str>| {
        RawLibrary {
            kind: kind.map(|s| s.to_string()),
            name: name.map(|s| s.to_string()),
            cflags: cflags.map(|s| s.to_string()),
            ldflags: ldflags.map(|s| s.to_string()),
        }
    };
    assert_eq!(
        Library::load(&library(Some("pkg_config"), Some("zlib"), None, None)),
        Ok(Library::PkgConfig { name: "zlib".to_string() })
    );
    assert_eq!(
        Library::load(&library(Some("manual"), Some("ignored"), Some("-I"), Some("-l"))),
        Ok(Library::Manual { cflags: "-I".to_string(), ldflags: "-l".to_string() })
    );
    assert_eq!(
        Library::load(&library(None, Some("zlib"), None, None)),
        Err(BargeError::ConfigError("Missing field `type` of an external library"))
    );
    assert_eq!(
        Library::load(&library(Some("pkg_config"), None, Some("-I"), Some("-l"))),
        Err(BargeError::ConfigError("Missing field `name` of an external library"))
    );
    assert_eq!(
        Library::load(&library(Some("manual"), None, None, Some("-l"))),
        Err(BargeError::ConfigError("Missing field `cflags` of an external library"))
    );
    assert_eq!(
        Library::load(&library(Some("manual"), None, Some("-I"), None)),
        Err(BargeError::ConfigError("Missing field `ldflags` of an external library"))
    );
    assert_eq!(
        Library::load(&library(Some("conan"), Some("zlib"), None, None)),
        Err(BargeError::ConfigError("Unknown type of an external library"))
    );

    let mut raw = minimal_raw();
    raw.external_libraries = Some(vec![
        library(Some("manual"), None, Some("-I"), Some("-l")),
        library(Some("conan"), None, None, None),
        library(None, None, None, None),
    ]);
    assert_eq!(
        Project::load(&raw),
        Err(BargeError::ConfigError("Unknown type of an external library"))
    );
}

#[test]
fn messages() {
    assert_eq!(BargeError::InvalidValue("Invalid target specified").message(), "Invalid target specified");
    assert_eq!(BargeError::ConfigError("Missing").message(), "Missing");
    assert_eq!(BargeError::StepFailed("Custom build step failed").message(), "Custom build step failed");
    assert_eq!(BargeError::BuildFailed.message(), "One or more dependencies failed to build");
    assert_eq!(BargeError::UnsupportedScriptKind.message(), "Invalid file type");
    assert_eq!(
        BargeError::LibraryResolutionError(2).message(),
        "Failed to resolve external library 2"
    );
    assert_eq!(
        BargeError::LibraryResolutionError(10).message(),
        "Failed to resolve external library 10"
    );
    assert_eq!(BargeError::ToolInvocationError("make").message(), "Failed to start make");
    assert_eq!(
        BargeError::Utf8Error("find").message(),
        "Invalid UTF-8 in the output of find"
    );
}
