use pathlib::PathDiv;
use std::path::Path;

fn div(text: &str) -> PathDiv {
    PathDiv::new(Path::new(text))
}

#[test]
fn join_appends_a_relative_path() {
    let root = div("/");
    let home = root.join(Path::new("home")).join(Path::new("user"));
    assert_eq!(home, div("/home/user"));
    assert_eq!(home.to_str(), Some("/home/user"));
    assert_eq!(div("/etc").join(Path::new("passwd")).to_str(), Some("/etc/passwd"));
}

#[test]
fn join_with_an_absolute_path_replaces() {
    let joined = div("/etc").join(Path::new("/bin/sh"));
    assert_eq!(joined, div("/bin/sh"));
    assert_eq!(joined.to_str(), Some("/bin/sh"));
}

#[test]
fn join_with_the_empty_path() {
    assert_eq!(div("a").join(Path::new("")), div("a"));
    assert_eq!(div("").join(Path::new("a")), div("a"));
    assert_eq!(div("").join(Path::new("")), div(""));
}

#[test]
fn join_leaves_the_value_as_it_was() {
    let etc = div("/etc");
    let _ = etc.join(Path::new("passwd"));
    assert_eq!(etc.to_str(), Some("/etc"));
}

#[test]
fn divide_joins() {
    let root = div("/");
    let home = root / Path::new("home") / Path::new("quininer");
    assert_eq!(home.path(), Path::new("/home/quininer"));
    let again = div("/") / Path::new("home") / Path::new("user");
    assert_eq!(again, div("/home/user"));
    assert_eq!(div("/etc") / Path::new("/bin"), div("/etc").join(Path::new("/bin")));
}

#[test]
fn join_in_steps_or_at_once() {
    let cases = [
        ("/", "home", "user"),
        ("a", "b", "c"),
        ("", "b", "c"),
        ("a", "", "c"),
        ("a", "b", ""),
        ("a/", "b/", "c/"),
        ("a", "./b", "../c"),
        ("", "", ""),
    ];
    for (a, b, c) in cases {
        let in_steps = div(a).join(Path::new(b)).join(Path::new(c));
        let tail = div(b).join(Path::new(c));
        let at_once = div(a).join(tail.path());
        assert_eq!(in_steps, at_once, "{a:?} {b:?} {c:?}");
        assert_eq!(in_steps.to_str(), at_once.to_str(), "{a:?} {b:?} {c:?}");
    }
}

#[test]
fn parent_drops_the_last_segment() {
    let home = div("/home/user");
    assert_eq!(home.parent(), div("/home"));
    assert_eq!(home.parent().to_str(), Some("/home"));
    assert_eq!(home.parent().parent(), div("/"));
    assert_eq!(div("a/b/").parent().to_str(), Some("a"));
    assert_eq!(div("./a").parent().to_str(), Some("."));
}

#[test]
fn parent_of_a_single_segment_is_the_path_itself() {
    assert_eq!(div("a").parent(), div("a"));
    assert_eq!(div("..").parent(), div(".."));
    assert_eq!(div(".").parent(), div("."));
    assert_eq!(div("home").parent(), div("home"));
    assert_eq!(div("home").parent().to_str(), Some("home"));
    assert_eq!(div("home/").parent().to_str(), Some("home/"));
    assert_eq!(!div("home"), div("home"));
    assert_ne!(div("home").parent(), div(""));
}

#[test]
fn parent_of_two_relative_segments_is_the_first() {
    assert_eq!(div("a/b").parent(), div("a"));
    assert_eq!(div("a/b").parent().to_str(), Some("a"));
    assert_eq!(div("a/b").parent().parent(), div("a"));
    assert_eq!(div("../a").parent(), div(".."));
}

#[test]
fn parent_is_the_path_itself_up_to_one_segment() {
    for text in ["", "/", "a", ".", "..", "a/b", "/a", "/a/b", "./a", "a/b/c", "a//b/"] {
        let p = div(text);
        let count = p.path().iter().count();
        assert_eq!(p.parent() == p, count <= 1, "{text}");
        assert_eq!(!p.clone() == p, count <= 1, "{text}");
    }
}

#[test]
fn parent_of_the_root_is_the_root() {
    let root = div("/");
    assert_eq!(root.parent(), div("/"));
    assert_eq!(root.parent().to_str(), Some("/"));
    let mut p = div("/");
    for _ in 0..5 {
        p = p.parent();
        assert_eq!(p, div("/"));
    }
}

#[test]
fn parent_of_the_empty_path_is_the_empty_path() {
    assert_eq!(div("").parent(), div(""));
    assert_eq!(div("").parent().to_str(), Some(""));
}

#[test]
fn parent_comes_to_rest() {
    for text in ["/home/user", "a/b/c", "./a", "/", "", "a"] {
        let start = div(text);
        let count = start.path().iter().count();
        let mut p = start.clone();
        for _ in 0..count {
            p = p.parent();
        }
        assert_eq!(p.parent(), p, "{text}");
        assert_eq!(p.parent().to_str(), p.to_str(), "{text}");
    }
}

#[test]
fn parent_leaves_the_value_as_it_was() {
    let home = div("/home/user");
    let _ = home.parent();
    assert_eq!(home.to_str(), Some("/home/user"));
}

#[test]
fn not_takes_the_parent() {
    let home = div("/home/quininer");
    assert_eq!(!home.clone(), div("/home"));
    assert_eq!(!!!home.clone(), div("/"));
    let user = div("/home/user");
    assert_eq!(!user.clone(), div("/home"));
    assert_eq!(!!!user.clone(), div("/"));
    assert_eq!(!!!!user, div("/"));
    assert_eq!(!div(""), div(""));
}
