use barge::command::Outcome;
use barge::error::BargeError;
use barge::sources::{
    classify, collect_source_files, comes_before, compiled_units, discover, is_chosen,
    parse_listing, source_listing_command, CollectSourceFilesMode, Language, SourceFile,
    SourceRole,
};

fn texts(items: &[&str]) -> Vec<String> {
    items.iter().map(|s| s.to_string()).collect()
}

#[test]
fn extension_table() {
    assert_eq!(classify("src/main.c"), Some(SourceRole::CompiledUnit(Language::C)));
    assert_eq!(classify("src/main.cpp"), Some(SourceRole::CompiledUnit(Language::Cpp)));
    assert_eq!(classify("src/boot.s"), Some(SourceRole::CompiledUnit(Language::Assembly)));
    assert_eq!(classify("src/solve.f90"), Some(SourceRole::CompiledUnit(Language::Fortran)));
    assert_eq!(classify("src/ledger.cob"), Some(SourceRole::CompiledUnit(Language::Cobol)));
    assert_eq!(classify("src/main.h"), Some(SourceRole::Header));
    assert_eq!(classify("src/main.hpp"), Some(SourceRole::Header));
    assert_eq!(classify("src/kernel.ld"), Some(SourceRole::LinkerScript));
    assert_eq!(classify("src/notes.txt"), None);
    assert_eq!(classify("src/main.C"), None);
    assert_eq!(classify("src/Makefile"), None);
    assert_eq!(classify("c"), None);
    assert_eq!(classify("src/main.c.orig"), None);
    assert_eq!(classify(""), None);
}

#[test]
fn modes_select_by_role() {
    let all = CollectSourceFilesMode::All;
    let compiled = CollectSourceFilesMode::CompiledOnly;
    let c_cpp = CollectSourceFilesMode::CCppSourcesOnly;
    let scripts = CollectSourceFilesMode::LinkerScriptsOnly;
    for path in ["a.c", "a.cpp"] {
        assert!(is_chosen(all, path));
        assert!(is_chosen(compiled, path));
        assert!(is_chosen(c_cpp, path));
        assert!(!is_chosen(scripts, path));
    }
    for path in ["a.h", "a.hpp"] {
        assert!(is_chosen(all, path));
        assert!(!is_chosen(compiled, path));
        assert!(is_chosen(c_cpp, path));
        assert!(!is_chosen(scripts, path));
    }
    for path in ["a.s", "a.f90", "a.cob"] {
        assert!(is_chosen(all, path));
        assert!(is_chosen(compiled, path));
        assert!(!is_chosen(c_cpp, path));
        assert!(!is_chosen(scripts, path));
    }
    assert!(is_chosen(all, "a.ld"));
    assert!(!is_chosen(compiled, "a.ld"));
    assert!(!is_chosen(c_cpp, "a.ld"));
    assert!(is_chosen(scripts, "a.ld"));
    for mode in [all, compiled, c_cpp, scripts] {
        assert!(!is_chosen(mode, "a.txt"));
    }
}

#[test]
fn compiled_units_of_every_language() {
    let listing = ["src/z.cob", "src/a.h", "src/k.ld", "src/m.s", "src/b.f90", "src/c.cpp", "src/c.c"]
        .iter()
        .map(|s| s.to_string())
        .collect();
    assert_eq!(
        collect_source_files(CollectSourceFilesMode::CompiledOnly, &listing),
        vec!["src/b.f90", "src/c.c", "src/c.cpp", "src/m.s", "src/z.cob"]
    );
}

#[test]
fn lexicographic_order() {
    assert!(comes_before("", ""));
    assert!(comes_before("", "a"));
    assert!(!comes_before("a", ""));
    assert!(comes_before("a", "a"));
    assert!(comes_before("a", "b"));
    assert!(!comes_before("b", "a"));
    assert!(comes_before("src/a.c", "src/a.cpp"));
    assert!(comes_before("src/B.c", "src/a.c"));
    assert!(comes_before("src/a/z.c", "src/b.c"));
}

#[test]
fn lexicographic_order_agrees_with_std() {
    let samples = ["", "a", "ab", "b", "B", "src/a.c", "src/a.cpp", "é", "z", "src/Z.c"];
    for a in samples {
        for b in samples {
            assert_eq!(comes_before(a, b), a <= b);
        }
    }
}

#[test]
fn discovery_is_sorted_and_filtered() {
    let listing = texts(&[
        "src/z.c",
        "src/readme.md",
        "src/a.cpp",
        "src/m.h",
        "src/link.ld",
        "src/b.f90",
        "src/a.c",
    ]);
    assert_eq!(
        collect_source_files(CollectSourceFilesMode::All, &listing),
        texts(&["src/a.c", "src/a.cpp", "src/b.f90", "src/link.ld", "src/m.h", "src/z.c"])
    );
    assert_eq!(
        collect_source_files(CollectSourceFilesMode::CCppSourcesOnly, &listing),
        texts(&["src/a.c", "src/a.cpp", "src/m.h", "src/z.c"])
    );
    assert_eq!(
        collect_source_files(CollectSourceFilesMode::LinkerScriptsOnly, &listing),
        texts(&["src/link.ld"])
    );
}

#[test]
fn discovery_does_not_depend_on_the_order_of_the_listing() {
    let one = texts(&["src/b.c", "src/a.c", "src/c.h", "src/a.c"]);
    let other = texts(&["src/a.c", "src/c.h", "src/a.c", "src/b.c"]);
    let expected = texts(&["src/a.c", "src/a.c", "src/b.c", "src/c.h"]);
    assert_eq!(collect_source_files(CollectSourceFilesMode::All, &one), expected);
    assert_eq!(collect_source_files(CollectSourceFilesMode::All, &other), expected);
}

#[test]
fn missing_source_directory_holds_no_file() {
    assert!(collect_source_files(CollectSourceFilesMode::All, &vec![]).is_empty());
    let failed = Outcome::Finished { success: false, output: String::new() };
    assert_eq!(parse_listing(&failed), Ok(vec![]));
    let empty = Outcome::Finished { success: true, output: String::new() };
    assert_eq!(parse_listing(&empty), Ok(vec![]));
}

#[test]
fn listing_tool_that_cannot_be_started_is_a_failure() {
    assert_eq!(
        parse_listing(&Outcome::NotStarted),
        Err(BargeError::ToolInvocationError("find"))
    );
    assert_eq!(
        parse_listing(&Outcome::Unreadable { success: true }),
        Err(BargeError::Utf8Error("find"))
    );
}

#[test]
fn listing_is_read_line_by_line() {
    let outcome = Outcome::Finished {
        success: true,
        output: "src/main.c\n\nsrc/lib/util.cpp\nsrc/notes.txt\n".to_string(),
    };
    assert_eq!(
        parse_listing(&outcome),
        Ok(texts(&["src/main.c", "src/lib/util.cpp", "src/notes.txt"]))
    );
}

#[test]
fn listing_command() {
    let command = source_listing_command();
    assert_eq!(command.program, "find");
    assert_eq!(command.arguments, texts(&["src", "-type", "f"]));
}

#[test]
fn discovered_files_carry_their_role() {
    let listing = texts(&["src/b.h", "src/a.c", "src/notes.txt", "src/k.ld", "src/z.f90"]);
    let found = discover(CollectSourceFilesMode::All, &listing);
    let expected = vec![
        SourceFile { path: "src/a.c".to_string(), role: SourceRole::CompiledUnit(Language::C) },
        SourceFile { path: "src/b.h".to_string(), role: SourceRole::Header },
        SourceFile { path: "src/k.ld".to_string(), role: SourceRole::LinkerScript },
        SourceFile {
            path: "src/z.f90".to_string(),
            role: SourceRole::CompiledUnit(Language::Fortran),
        },
    ];
    assert_eq!(found, expected);
    assert_eq!(
        discover(CollectSourceFilesMode::LinkerScriptsOnly, &listing),
        vec![SourceFile { path: "src/k.ld".to_string(), role: SourceRole::LinkerScript }]
    );
    assert!(discover(CollectSourceFilesMode::All, &vec![]).is_empty());
}

#[test]
fn units_of_one_language() {
    let sources = texts(&["src/a.c", "src/a.cpp", "src/b.c", "src/c.h", "src/d.f90"]);
    assert_eq!(compiled_units(&sources, Language::C), texts(&["src/a.c", "src/b.c"]));
    assert_eq!(compiled_units(&sources, Language::Cpp), texts(&["src/a.cpp"]));
    assert_eq!(compiled_units(&sources, Language::Fortran), texts(&["src/d.f90"]));
    assert!(compiled_units(&sources, Language::Cobol).is_empty());
    assert!(compiled_units(&sources, Language::Assembly).is_empty());
}
