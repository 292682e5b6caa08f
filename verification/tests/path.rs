use std::path::Path;
use text_editor::path::file_name;

fn file_name_of_std(path: &str) -> Option<&str> {
    Path::new(path).file_name().and_then(|name| name.to_str())
}

#[test]
fn name_of_a_file_in_a_directory() {
    assert_eq!(file_name("/tmp/a.txt"), Some("a.txt"));
    assert_eq!(file_name("tmp/foo.txt"), Some("foo.txt"));
}

#[test]
fn name_of_a_bare_file() {
    assert_eq!(file_name("notes.md"), Some("notes.md"));
}

#[test]
fn trailing_separators_are_passed_over() {
    assert_eq!(file_name("/usr/bin/"), Some("bin"));
    assert_eq!(file_name("/usr/bin///"), Some("bin"));
}

#[test]
fn trailing_dot_segments_are_passed_over() {
    assert_eq!(file_name("foo.txt/."), Some("foo.txt"));
    assert_eq!(file_name("foo.txt/.//"), Some("foo.txt"));
    assert_eq!(file_name("a/b/././"), Some("b"));
}

#[test]
fn parent_segment_is_no_file_name() {
    assert_eq!(file_name("foo.txt/.."), None);
    assert_eq!(file_name(".."), None);
    assert_eq!(file_name("a/../"), None);
    assert_eq!(file_name("a/.././"), None);
}

#[test]
fn paths_that_name_nothing() {
    assert_eq!(file_name(""), None);
    assert_eq!(file_name("/"), None);
    assert_eq!(file_name("//"), None);
    assert_eq!(file_name("."), None);
    assert_eq!(file_name("./"), None);
    assert_eq!(file_name("/."), None);
}

#[test]
fn names_that_begin_with_dots() {
    assert_eq!(file_name("a/.b"), Some(".b"));
    assert_eq!(file_name("..a"), Some("..a"));
    assert_eq!(file_name("a/..."), Some("..."));
    assert_eq!(file_name("a/.b."), Some(".b."));
    assert_eq!(file_name("./a"), Some("a"));
}

#[test]
fn empty_segments_inside_a_path() {
    assert_eq!(file_name("a//b"), Some("b"));
    assert_eq!(file_name("a/./b"), Some("b"));
    assert_eq!(file_name("a/../b"), Some("b"));
}

#[test]
fn names_of_several_bytes_per_character() {
    assert_eq!(
        file_name("/tmp/\u{65e5}\u{672c}\u{8a9e}.txt"),
        Some("\u{65e5}\u{672c}\u{8a9e}.txt")
    );
    assert_eq!(file_name("\u{e9}/\u{e8}/"), Some("\u{e8}"));
}

#[test]
fn backslash_is_no_separator() {
    assert_eq!(file_name("a\\b"), Some("a\\b"));
}

#[test]
fn file_name_agrees_with_std_on_unix_paths() {
    for path in [
        "",
        "/",
        ".",
        "..",
        "./",
        "../",
        "/.",
        "/..",
        "a",
        "a/",
        "a/.",
        "a/..",
        "a/b",
        "a//b//",
        "a/./b/./",
        "/tmp/a.txt",
        "/tmp/.hidden",
        "/tmp/...",
        "/tmp/..x",
        "/tmp/x..",
        "./.",
        "./..",
        ".a",
        "a.",
        "/a/b/c/../.",
        "\u{65e5}/\u{672c}.txt",
    ] {
        assert_eq!(file_name(path), file_name_of_std(path), "path {:?}", path);
    }
}
