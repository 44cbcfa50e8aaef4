use sourcelines::lang::detect_language;

#[test]
fn test_detect_language_py() {
    assert_eq!(detect_language("foo.py", None), "python");
}

#[test]
fn test_detect_language_c() {
    assert_eq!(detect_language("foo.c", None), "c");
}

#[test]
fn test_detect_language_shebang() {
    assert_eq!(detect_language("somefile", Some("#!/usr/bin/env python\n")), "python");
}

#[test]
fn shebang_precedes_extension() {
    // A text-extension file whose first line names an interpreter is
    // classified by the shebang, not the extension.
    assert_eq!(detect_language("script.txt", Some("#!/usr/bin/env python\n")), "python");
}

#[test]
fn shebang_probe_order_bash_before_sh() {
    assert_eq!(detect_language("x", Some("#!/bin/bash\n")), "shell");
    assert_eq!(detect_language("x", Some("#!/bin/sh\n")), "shell");
    assert_eq!(detect_language("x", Some("#!/bin/zsh\n")), "shell");
}

#[test]
fn shebang_python_wins_over_later_probes() {
    // "python" is probed before "sh"; a line containing both matches python.
    assert_eq!(detect_language("x", Some("#!/usr/bin/env python # sh\n")), "python");
}

#[test]
fn shebang_requires_hash_bang() {
    // A first line without the "#!" prefix never triggers the probes.
    assert_eq!(detect_language("foo.c", Some("python is mentioned here\n")), "c");
}

#[test]
fn shebang_node_is_javascript() {
    assert_eq!(detect_language("run", Some("#!/usr/bin/env node\n")), "javascript");
}

#[test]
fn extension_table_entries() {
    assert_eq!(detect_language("a.rs", None), "rust");
    assert_eq!(detect_language("a.hpp", None), "cpp");
    assert_eq!(detect_language("a.ts", None), "typescript");
    assert_eq!(detect_language("a.env", None), "shell");
    assert_eq!(detect_language("a.scss", None), "css");
    assert_eq!(detect_language("a.htm", None), "html");
    assert_eq!(detect_language("a.xsd", None), "xml");
    assert_eq!(detect_language("a.pm", None), "perl");
    assert_eq!(detect_language("a.kts", None), "kotlin");
    assert_eq!(detect_language("a.bat", None), "batch");
    assert_eq!(detect_language("a.frm", None), "vb");
    assert_eq!(detect_language("a.sty", None), "tex");
    assert_eq!(detect_language("a.txt", None), "text");
    assert_eq!(detect_language("a.yml", None), "yaml");
    assert_eq!(detect_language("a.ini", None), "config");
}

#[test]
fn unmapped_extension_names_language_verbatim() {
    assert_eq!(detect_language("data.foo", None), "foo");
}

#[test]
fn extension_is_lowercased() {
    assert_eq!(detect_language("A.PY", None), "python");
    assert_eq!(detect_language("B.FOO", None), "foo");
}

#[test]
fn no_extension_is_unknown() {
    assert_eq!(detect_language("Makefile", None), "unknown");
    assert_eq!(detect_language("", None), "unknown");
}

#[test]
fn hidden_file_has_no_extension() {
    assert_eq!(detect_language(".gitignore", None), "unknown");
}

#[test]
fn trailing_dot_is_unknown() {
    assert_eq!(detect_language("file.", None), "unknown");
}

#[test]
fn extension_of_last_path_component() {
    assert_eq!(detect_language("dir.c/readme", None), "unknown");
    assert_eq!(detect_language("src/main.rs", None), "rust");
}

#[test]
fn detection_is_repeatable() {
    // The same path and first line always give the same identifier.
    let first = detect_language("lib.rs", Some("// a comment\n"));
    let second = detect_language("lib.rs", Some("// a comment\n"));
    assert_eq!(first, second);
}
