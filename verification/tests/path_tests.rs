use file_sharer::error::Error;
use file_sharer::path::{join_path, sanitize_path, Filename};

#[test]
fn sanitize_keeps_plain_names() {
    assert_eq!(sanitize_path("report.pdf").to_string(), "report.pdf");
    assert_eq!(sanitize_path("a/b/c.txt").to_string(), "a/b/c.txt");
}

#[test]
fn sanitize_cannot_climb() {
    let kept = sanitize_path("../../etc/passwd");
    assert_eq!(kept.to_string(), "etc/passwd");
    assert_eq!(kept.len(), 2);
    assert_eq!(join_path("/a/b", &kept.to_string()), "/a/b/etc/passwd");
}

#[test]
fn sanitize_lets_parent_take_the_last_segment() {
    assert_eq!(sanitize_path("a/b/../c").to_string(), "a/c");
    assert_eq!(sanitize_path("a/../../b").to_string(), "b");
    assert_eq!(sanitize_path("a/b/../../../../c/..").to_string(), "");
}

#[test]
fn sanitize_drops_what_names_nothing() {
    assert_eq!(sanitize_path("/abs/x").to_string(), "abs/x");
    assert_eq!(sanitize_path("./x/./y/").to_string(), "x/y");
    assert_eq!(sanitize_path("a//b").to_string(), "a/b");
    assert_eq!(sanitize_path("///").to_string(), "");
}

#[test]
fn sanitize_of_nothing_is_empty() {
    assert!(sanitize_path("").is_empty());
    assert!(sanitize_path("..").is_empty());
    assert!(sanitize_path(".").is_empty());
    assert!(!sanitize_path("...").is_empty());
}

#[test]
fn sanitize_keeps_dots_inside_names() {
    assert_eq!(sanitize_path("..a/.b/c..").to_string(), "..a/.b/c..");
    assert_eq!(sanitize_path("\u{fc}ber/\u{1f600}.txt").to_string(), "\u{fc}ber/\u{1f600}.txt");
}

#[test]
fn filename_takes_one_segment() {
    assert_eq!(Filename::parse("report.pdf").unwrap().display(), "report.pdf");
    assert_eq!(Filename::parse("...").unwrap().display(), "...");
    assert_eq!(Filename::parse(".hidden").unwrap().display(), ".hidden");
}

#[test]
fn filename_refuses_everything_else() {
    for name in ["", ".", "..", "a/b", "/a", "a/", "../a", "./a", "/"] {
        match Filename::parse(name) {
            Err(Error::Malformed) => (),
            other => panic!("{name:?} gave {other:?}"),
        }
    }
}

#[test]
fn join_path_puts_one_separator() {
    assert_eq!(join_path("/data", "shares"), "/data/shares");
    assert_eq!(join_path("/data/", "shares"), "/data/shares");
    assert_eq!(join_path(".", "uploads"), "./uploads");
    assert_eq!(join_path("", "uploads"), "uploads");
    assert_eq!(join_path("/data", ""), "/data/");
}

#[test]
fn join_path_lets_an_absolute_path_stand() {
    assert_eq!(join_path("/data", "/srv/shares"), "/srv/shares");
}
