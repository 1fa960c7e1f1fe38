use barge::assemble::assemble;
use barge::command::Outcome;
use barge::error::BargeError;
use barge::makefile::{render, BuildPlan, BuildTarget, Rule};
use barge::plan::{
    cobol_config_command, generate_analyze_makefile, generate_build_makefile, get_artifact_name,
    get_cobol_ldflags, get_link_command, synthesize, BuildInputs,
};
use barge::project::{Library, Project, ProjectType, Toolset};

fn texts(items: &[&str]) -> Vec<String> {
    items.iter().map(|s| s.to_string()).collect()
}

fn project(name: &str, kind: ProjectType) -> Project {
    Project::new(name, kind, "A. Author <a@example.org>".to_string())
}

fn answered(output: &str) -> Outcome {
    Outcome::Finished { success: true, output: output.to_string() }
}

fn inputs(listing: &[&str]) -> BuildInputs {
    BuildInputs {
        libraries: vec![],
        listing: texts(listing),
        c_dependencies: vec![],
        cpp_dependencies: vec![],
        cobol: Outcome::NotStarted,
        no_color: true,
    }
}

fn variable<'a>(plan: &'a BuildPlan, name: &str) -> &'a str {
    let found: Vec<&(String, String)> = plan.variables.iter().filter(|v| v.0 == name).collect();
    assert_eq!(found.len(), 1);
    found[0].1.as_str()
}

fn rule_for<'a>(plan: &'a BuildPlan, target: &str) -> &'a Rule {
    let found: Vec<&Rule> = plan.rules.iter().filter(|r| r.target == target).collect();
    assert_eq!(found.len(), 1);
    found[0]
}

const BASELINE: &str =
    "-Wall -Wextra -Wpedantic -Wshadow -Wconversion -Wdouble-promotion -Wformat=2 -Iinclude -Isrc";

#[test]
fn artifact_naming() {
    assert_eq!(get_artifact_name(&project("X", ProjectType::StaticLibrary)), "libX.a");
    assert_eq!(get_artifact_name(&project("X", ProjectType::SharedLibrary)), "libX.so");
    assert_eq!(get_artifact_name(&project("X", ProjectType::Executable)), "X");
    assert_eq!(get_artifact_name(&project("lib.so", ProjectType::Executable)), "lib.so");
    assert_eq!(get_artifact_name(&project("", ProjectType::StaticLibrary)), "lib.a");
}

#[test]
fn artifact_name_stands_in_the_plan() {
    for (kind, expected) in [
        (ProjectType::Executable, "tool"),
        (ProjectType::SharedLibrary, "libtool.so"),
        (ProjectType::StaticLibrary, "libtool.a"),
    ] {
        let plan = synthesize(&project("tool", kind), BuildTarget::Release, &inputs(&[])).unwrap();
        assert_eq!(variable(&plan, "NAME"), expected);
    }
}

#[test]
fn link_rule_follows_the_artifact_kind() {
    assert_eq!(get_link_command(ProjectType::Executable), "@$(LD) $(OBJECTS) -o $@ $(LDFLAGS)");
    assert_eq!(
        get_link_command(ProjectType::SharedLibrary),
        "@$(LD) -shared $(OBJECTS) -o $@ $(LDFLAGS)"
    );
    assert_eq!(get_link_command(ProjectType::StaticLibrary), "@ar rcs $@ $(OBJECTS)");
    for kind in [ProjectType::Executable, ProjectType::SharedLibrary, ProjectType::StaticLibrary] {
        let plan = synthesize(&project("tool", kind), BuildTarget::Debug, &inputs(&[])).unwrap();
        let link = rule_for(&plan, "build/$(TARGET)/$(NAME)");
        assert_eq!(link.prerequisites, "$(OBJECTS)");
        assert_eq!(link.recipe.last().unwrap(), get_link_command(kind));
    }
}

#[test]
fn pic_flag_is_present_for_libraries_only() {
    for target in [BuildTarget::Debug, BuildTarget::Release] {
        for kind in [ProjectType::Executable, ProjectType::SharedLibrary, ProjectType::StaticLibrary] {
            let plan = synthesize(&project("p", kind), target, &inputs(&["src/a.c"])).unwrap();
            let expected = kind != ProjectType::Executable;
            for name in ["CFLAGS", "CXXFLAGS"] {
                let flags: Vec<&str> = variable(&plan, name).split(' ').collect();
                assert_eq!(flags.contains(&"-fPIC"), expected);
                assert_eq!(flags.last() == Some(&"-fPIC"), expected);
            }
        }
    }
}

#[test]
fn debug_flags() {
    let plan =
        synthesize(&project("p", ProjectType::Executable), BuildTarget::Debug, &inputs(&[])).unwrap();
    for name in ["CFLAGS", "CXXFLAGS"] {
        let flags: Vec<&str> = variable(&plan, name).split(' ').collect();
        assert!(flags.contains(&"-Og"));
        assert!(flags.contains(&"-g"));
        assert!(flags.contains(&"-fsanitize=undefined"));
        assert!(flags.contains(&"-fsanitize-trap"));
        assert!(!flags.contains(&"-DNDEBUG"));
        assert!(!flags.contains(&"-O2"));
    }
    assert_eq!(variable(&plan, "LDFLAGS"), "-ggdb");
}

#[test]
fn release_flags() {
    let plan =
        synthesize(&project("p", ProjectType::Executable), BuildTarget::Release, &inputs(&[])).unwrap();
    for name in ["CFLAGS", "CXXFLAGS"] {
        let flags: Vec<&str> = variable(&plan, name).split(' ').collect();
        assert!(flags.contains(&"-DNDEBUG"));
        assert!(flags.contains(&"-O2"));
        assert!(flags.contains(&"-ffast-math"));
        assert!(!flags.iter().any(|f| f.starts_with("-fsanitize")));
        assert!(!flags.contains(&"-Og"));
        assert!(!flags.contains(&"-g"));
    }
    assert_eq!(variable(&plan, "LDFLAGS"), "-s");
}

#[test]
fn flags_are_composed_in_the_declared_order() {
    let mut p = project("p", ProjectType::SharedLibrary);
    p.c_standard = Some("c99".to_string());
    p.cpp_standard = Some("c++20".to_string());
    p.fortran_standard = Some("f2008".to_string());
    p.cobol_standard = Some("ibm".to_string());
    p.custom_cflags = Some("-DC".to_string());
    p.custom_cxxflags = Some("-DCXX".to_string());
    p.custom_fortranflags = Some("-ffree-form".to_string());
    p.custom_cobolflags = Some("-free".to_string());
    p.custom_ldflags = Some("-Wl,--as-needed".to_string());
    let library = ("-I/lib".to_string(), "-llib".to_string());
    let sources = texts(&["src/a.c", "src/b.f90", "src/x.ld", "src/y.ld"]);
    let scripts = texts(&["src/x.ld", "src/y.ld"]);
    let flags = assemble(&p, BuildTarget::Release, &library, &sources, &scripts, " -lcob -lm\n");
    assert_eq!(
        flags.c,
        format!("-std=c99 {} -I/lib -DNDEBUG -O2 -ffast-math -DC -fPIC", BASELINE)
    );
    assert_eq!(
        flags.cpp,
        format!("-std=c++20 {} -I/lib -DNDEBUG -O2 -ffast-math -DCXX -fPIC", BASELINE)
    );
    assert_eq!(flags.fortran, "-std=f2008 -ffree-form");
    assert_eq!(flags.cobol, "-std=ibm -free");
    assert_eq!(
        flags.link,
        "-s -llib -Wl,--as-needed -lgfortran -lcob -lm -T src/x.ld -T src/y.ld"
    );
}

#[test]
fn defaults_fill_absent_fields() {
    let p = project("p", ProjectType::Executable);
    let none = (String::new(), String::new());
    let flags = assemble(&p, BuildTarget::Debug, &none, &vec![], &vec![], "");
    assert_eq!(
        flags.c,
        format!("-std=c11 {} -Og -g -fsanitize=undefined -fsanitize-trap", BASELINE)
    );
    assert_eq!(
        flags.cpp,
        format!("-std=c++17 {} -Og -g -fsanitize=undefined -fsanitize-trap", BASELINE)
    );
    assert_eq!(flags.fortran, "-std=f2003");
    assert_eq!(flags.cobol, "-std=cobol2014");
    assert_eq!(flags.link, "-ggdb");
}

#[test]
fn fortran_runtime_is_linked_only_with_fortran_sources() {
    let p = project("p", ProjectType::Executable);
    let with =
        synthesize(&p, BuildTarget::Debug, &inputs(&["src/a.c", "src/solve.f90"])).unwrap();
    let without = synthesize(&p, BuildTarget::Debug, &inputs(&["src/a.c"])).unwrap();
    assert_eq!(variable(&with, "LDFLAGS"), "-ggdb -lgfortran");
    assert_eq!(variable(&without, "LDFLAGS"), "-ggdb");
}

#[test]
fn linker_scripts_are_handed_to_the_linker() {
    let p = project("p", ProjectType::Executable);
    let plan =
        synthesize(&p, BuildTarget::Release, &inputs(&["src/b.ld", "src/a.c", "src/a.ld"])).unwrap();
    assert_eq!(variable(&plan, "LDFLAGS"), "-s -T src/a.ld -T src/b.ld");
    assert_eq!(variable(&plan, "OBJECTS"), "build/release/obj/a.c.o");
}

#[test]
fn cobol_runtime_is_asked_only_with_cobol_sources() {
    let command = cobol_config_command();
    assert_eq!(command.program, "cob-config");
    assert_eq!(command.arguments, texts(&["--libs"]));

    let cobol = texts(&["src/ledger.cob"]);
    let plain = texts(&["src/main.c"]);
    assert_eq!(get_cobol_ldflags(&plain, &Outcome::NotStarted), Ok(String::new()));
    assert_eq!(get_cobol_ldflags(&plain, &answered("-lcob\n")), Ok(String::new()));
    assert_eq!(get_cobol_ldflags(&cobol, &answered("-lcob\n")), Ok("-lcob\n".to_string()));
    assert_eq!(
        get_cobol_ldflags(&cobol, &Outcome::NotStarted),
        Err(BargeError::ToolInvocationError("cob-config"))
    );
    assert_eq!(
        get_cobol_ldflags(&cobol, &Outcome::Unreadable { success: true }),
        Err(BargeError::Utf8Error("cob-config"))
    );
    assert_eq!(get_cobol_ldflags(&plain, &Outcome::Unreadable { success: true }), Ok(String::new()));

    let p = project("p", ProjectType::Executable);
    let mut given = inputs(&["src/ledger.cob"]);
    assert_eq!(
        synthesize(&p, BuildTarget::Debug, &given),
        Err(BargeError::ToolInvocationError("cob-config"))
    );
    given.cobol = answered("-L/usr/lib -lcob -lm\n");
    let plan = synthesize(&p, BuildTarget::Debug, &given).unwrap();
    assert_eq!(variable(&plan, "LDFLAGS"), "-ggdb -L/usr/lib -lcob -lm");
}

#[test]
fn unresolved_library_stops_the_synthesis() {
    let mut p = project("p", ProjectType::Executable);
    p.external_libraries = Some(vec![Library::PkgConfig { name: "nope".to_string() }]);
    let mut given = inputs(&["src/a.c"]);
    given.libraries = vec![
        Outcome::Finished { success: false, output: String::new() },
        Outcome::Finished { success: false, output: String::new() },
    ];
    assert_eq!(
        generate_build_makefile(&p, BuildTarget::Debug, &given),
        Err(BargeError::LibraryResolutionError(0))
    );
}

#[test]
fn toolset_selects_the_executables() {
    let mut p = project("p", ProjectType::Executable);
    let llvm = synthesize(&p, BuildTarget::Debug, &inputs(&[])).unwrap();
    assert_eq!(variable(&llvm, "CC"), "clang");
    assert_eq!(variable(&llvm, "CXX"), "clang++");
    assert_eq!(variable(&llvm, "FC"), "gfortran");
    assert_eq!(variable(&llvm, "LD"), "clang++");
    p.toolset = Some(Toolset::Gnu);
    let gnu = synthesize(&p, BuildTarget::Debug, &inputs(&[])).unwrap();
    assert_eq!(variable(&gnu, "CC"), "gcc");
    assert_eq!(variable(&gnu, "CXX"), "g++");
    assert_eq!(variable(&gnu, "FC"), "gfortran");
    assert_eq!(variable(&gnu, "LD"), "g++");
}

#[test]
fn one_compile_rule_for_each_language() {
    let plan =
        synthesize(&project("p", ProjectType::Executable), BuildTarget::Debug, &inputs(&[])).unwrap();
    for (extension, command) in [
        ("c", "@$(CC) $(CFLAGS) -c $< -o $@"),
        ("cpp", "@$(CXX) $(CXXFLAGS) -c $< -o $@"),
        ("s", "@$(CC) -c $< -o $@"),
        ("f90", "@$(FC) $(FORTRANFLAGS) -c $< -o $@"),
        ("cob", "@cobc -c $(COBOLFLAGS) $< -o $@"),
    ] {
        let rule = rule_for(&plan, &format!("build/$(TARGET)/obj/%.{}.o", extension));
        assert_eq!(rule.prerequisites, format!("src/%.{}", extension));
        assert_eq!(rule.recipe.len(), 3);
        assert_eq!(rule.recipe[2], command);
    }
    assert_eq!(plan.rules.len(), 8);
}

#[test]
fn synthesis_is_deterministic() {
    let mut p = project("p", ProjectType::SharedLibrary);
    p.external_libraries = Some(vec![Library::Manual {
        cflags: "-Ia".to_string(),
        ldflags: "-la".to_string(),
    }]);
    let one = inputs(&["src/b.c", "src/a.cpp", "src/k.ld", "src/a.c"]);
    let other = inputs(&["src/a.c", "src/k.ld", "src/b.c", "src/a.cpp"]);
    let first = generate_build_makefile(&p, BuildTarget::Release, &one).unwrap();
    let again = generate_build_makefile(&p, BuildTarget::Release, &one).unwrap();
    let reordered = generate_build_makefile(&p, BuildTarget::Release, &other).unwrap();
    assert_eq!(first, again);
    assert_eq!(first, reordered);
    assert!(first.contains("OBJECTS=build/release/obj/a.c.o build/release/obj/a.cpp.o build/release/obj/b.c.o\n"));
}

#[test]
fn end_to_end_demo() {
    let mut p = project("demo", ProjectType::Executable);
    p.toolset = Some(Toolset::Llvm);
    let mut given = inputs(&["src/main.c"]);
    given.c_dependencies = vec![answered("build/debug/obj/main.c.o: src/main.c include/demo.h\n")];
    let text = generate_build_makefile(&p, BuildTarget::Debug, &given).unwrap();
    let expected = format!(
        "TARGET=debug\n\
CC=clang\n\
CFLAGS=-std=c11 {baseline} -Og -g -fsanitize=undefined -fsanitize-trap\n\
CXX=clang++\n\
CXXFLAGS=-std=c++17 {baseline} -Og -g -fsanitize=undefined -fsanitize-trap\n\
FC=gfortran\n\
FORTRANFLAGS=-std=f2003\n\
COBOLFLAGS=-std=cobol2014\n\
LD=clang++\n\
LDFLAGS=-ggdb\n\
NAME=demo\n\
OBJECTS=build/debug/obj/main.c.o\n\
GREEN=''\n\
BLUE=''\n\
RESET=''\n\
DIM=''\n\
\n\
.PHONY: all\n\
\n\
all: build/$(TARGET)/$(NAME)\n\
\n\
build/$(TARGET)/$(NAME): $(OBJECTS)\n\
\t@mkdir -p $(dir $@)\n\
\t@echo $(BLUE)Linking$(RESET) $(DIM)$@$(RESET)\n\
\t@$(LD) $(OBJECTS) -o $@ $(LDFLAGS)\n\
\n\
build/$(TARGET)/obj/%.c.o: src/%.c\n\
\t@mkdir -p $(dir $@)\n\
\t@echo $(GREEN)Compiling$(RESET) $(DIM)$<$(RESET)\n\
\t@$(CC) $(CFLAGS) -c $< -o $@\n\
\n\
build/$(TARGET)/obj/%.cpp.o: src/%.cpp\n\
\t@mkdir -p $(dir $@)\n\
\t@echo $(GREEN)Compiling$(RESET) $(DIM)$<$(RESET)\n\
\t@$(CXX) $(CXXFLAGS) -c $< -o $@\n\
\n\
build/$(TARGET)/obj/%.s.o: src/%.s\n\
\t@mkdir -p $(dir $@)\n\
\t@echo $(GREEN)Compiling$(RESET) $(DIM)$<$(RESET)\n\
\t@$(CC) -c $< -o $@\n\
\n\
build/$(TARGET)/obj/%.f90.o: src/%.f90\n\
\t@mkdir -p $(dir $@)\n\
\t@echo $(GREEN)Compiling$(RESET) $(DIM)$<$(RESET)\n\
\t@$(FC) $(FORTRANFLAGS) -c $< -o $@\n\
\n\
build/$(TARGET)/obj/%.cob.o: src/%.cob\n\
\t@mkdir -p $(dir $@)\n\
\t@echo $(GREEN)Compiling$(RESET) $(DIM)$<$(RESET)\n\
\t@cobc -c $(COBOLFLAGS) $< -o $@\n\
\n\
build/debug/obj/main.c.o: src/main.c include/demo.h\n\
\n",
        baseline = BASELINE
    );
    assert_eq!(text, expected);
    assert!(text.contains("-std=c11"));
    assert!(text.contains("NAME=demo\n"));
    assert!(!text.contains("-fPIC"));
}

#[test]
fn colours_are_set_unless_unwanted() {
    let p = project("p", ProjectType::Executable);
    let mut given = inputs(&[]);
    given.no_color = false;
    let plan = synthesize(&p, BuildTarget::Debug, &given).unwrap();
    assert_eq!(variable(&plan, "GREEN"), "`tput setaf 2``tput bold`");
    assert_eq!(variable(&plan, "BLUE"), "`tput setaf 4``tput bold`");
    assert_eq!(variable(&plan, "RESET"), "`tput sgr0`");
    assert_eq!(variable(&plan, "DIM"), "`tput dim`");
    given.no_color = true;
    let plain = synthesize(&p, BuildTarget::Debug, &given).unwrap();
    for name in ["GREEN", "BLUE", "RESET", "DIM"] {
        assert_eq!(variable(&plain, name), "''");
    }
}

#[test]
fn rendering_a_plan() {
    let plan = BuildPlan {
        variables: vec![("A".to_string(), "1".to_string()), ("B".to_string(), "".to_string())],
        rules: vec![
            Rule {
                target: "all".to_string(),
                prerequisites: "a b".to_string(),
                recipe: texts(&["@true", "@false"]),
            },
            Rule { target: "clean".to_string(), prerequisites: "".to_string(), recipe: vec![] },
        ],
        dependencies: texts(&["a.o: a.c a.h", ""]),
    };
    assert_eq!(
        render(&plan),
        "A=1\nB=\n\nall: a b\n\t@true\n\t@false\n\nclean: \n\na.o: a.c a.h\n\n"
    );
    let empty = BuildPlan { variables: vec![], rules: vec![], dependencies: vec![] };
    assert_eq!(render(&empty), "\n");
}

#[test]
fn analysis_makefile() {
    let mut p = project("p", ProjectType::Executable);
    assert_eq!(
        generate_analyze_makefile(&p).unwrap(),
        "\n.PHONY: analyze\n\nanalyze: \n\
\t@for unit in $$(find src -type f -name '*.c'); do clang-tidy $$unit -- -std=c11 -Iinclude -Isrc; done\n\
\t@for unit in $$(find src -type f -name '*.cpp'); do clang-tidy $$unit -- -std=c++17 -Iinclude -Isrc; done\n\
\n"
    );
    p.c_standard = Some("c99".to_string());
    p.cpp_standard = Some("c++20".to_string());
    let text = generate_analyze_makefile(&p).unwrap();
    assert!(text.contains("-- -std=c99 "));
    assert!(text.contains("-- -std=c++20 "));
}
