use photo_archive::fspath::{FsPath, PathPart};
use std::path::Path;

fn texts(p: &FsPath) -> Vec<String> {
    p.parts().iter().map(|q| q.text()).collect()
}

fn std_texts(s: &str) -> Vec<String> {
    Path::new(s).iter().map(|c| c.to_string_lossy().into_owned()).collect()
}

#[test]
fn parse_matches_std_components() {
    for s in [
        "", "/", "a", "/a/b", "a//b", "a/./b", "./a", ".", "..", "../a", "a/..", "a/b/", "//x",
        "/./a", ".hidden/x", "a/.../b", "./", "./.", "a/.",
    ] {
        assert_eq!(texts(&FsPath::parse(s)), std_texts(s), "input {:?}", s);
    }
}

#[test]
fn parse_tells_component_kinds_apart() {
    let p = FsPath::parse("/x/../y");
    let parts = p.parts();
    assert!(matches!(parts[0], PathPart::Root));
    assert!(matches!(&parts[1], PathPart::Normal(n) if n == "x"));
    assert!(matches!(parts[2], PathPart::Parent));
    assert!(matches!(&parts[3], PathPart::Normal(n) if n == "y"));
    assert!(matches!(FsPath::parse("./z").parts()[0], PathPart::Current));
}

#[test]
fn join_matches_std() {
    for (a, b) in [("/srv", "a/b"), ("/srv", "/etc"), ("", "a"), ("/srv", "./a"), ("/srv", ""), ("/srv/", "x"), (".", "x")] {
        let joined = FsPath::parse(a).join(&FsPath::parse(b));
        let std_joined = Path::new(a).join(b);
        assert_eq!(texts(&joined), std_texts(std_joined.to_str().unwrap()), "{:?} {:?}", a, b);
    }
}

#[test]
fn starts_with_matches_std() {
    for (a, b) in [("/srv/a", "/srv"), ("/srv", "/srv"), ("/srvx", "/srv"), ("/srv", "/srv/a"), ("a/b", ""), ("/a", "a")] {
        assert_eq!(FsPath::parse(a).starts_with(&FsPath::parse(b)), Path::new(a).starts_with(b), "{:?} {:?}", a, b);
    }
}

#[test]
fn same_compares_components() {
    assert!(FsPath::parse("/a//b/").same(&FsPath::parse("/a/b")));
    assert!(!FsPath::parse("/a/b").same(&FsPath::parse("/a")));
}

#[test]
fn parent_matches_std() {
    for s in ["/a/b", "/a", "/", "", "a", "a/b/..", "./x"] {
        let mine = FsPath::parse(s).parent().map(|p| texts(&p));
        let theirs = Path::new(s).parent().map(|p| std_texts(p.to_str().unwrap()));
        assert_eq!(mine, theirs, "input {:?}", s);
    }
}

#[test]
fn file_name_matches_std() {
    for s in ["/a/b.txt", "/", "a/..", "x/", ".", "name"] {
        let mine = FsPath::parse(s).file_name();
        let theirs = Path::new(s).file_name().map(|n| n.to_string_lossy().into_owned());
        assert_eq!(mine, theirs, "input {:?}", s);
    }
}

#[test]
fn extension_matches_std() {
    for s in ["a.tar.gz", ".bashrc", "a.", "noext", "/x/movie.mp4", "..x", "dir.d/", "x/.."] {
        let mine = FsPath::parse(s).extension();
        let theirs = Path::new(s).extension().map(|n| n.to_string_lossy().into_owned());
        assert_eq!(mine, theirs, "input {:?}", s);
    }
}

#[test]
fn escapes_and_absolute() {
    assert!(FsPath::parse("/a").escapes());
    assert!(FsPath::parse("a/../b").escapes());
    assert!(!FsPath::parse("a/./b").escapes());
    assert!(FsPath::parse("/a").is_absolute());
    assert!(!FsPath::parse("a").is_absolute());
}
