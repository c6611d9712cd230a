use expand_tilde::expand_remainder;
use expand_tilde::expand_tilde;
use expand_tilde::expand_tilde_owned;
use expand_tilde::expand_tilde_with;
use expand_tilde::home_dir;
use expand_tilde::Error;
use expand_tilde::ExpandTilde;
use expand_tilde::TILDE;
use std::borrow::Cow;
use std::path::Path;
use std::path::PathBuf;

fn home() -> Option<PathBuf> {
    Some(PathBuf::from("/home/user"))
}

#[test]
fn consistent() {
    let path = "~/.config";

    let expanded = expand_tilde(path).unwrap();
    let extended = path.expand_tilde().unwrap();

    assert_eq!(expanded, extended);
}

#[test]
fn tilde_literal_is_one_tilde() {
    assert_eq!(TILDE, "~");
}

#[test]
fn tilde_with_remainder_is_joined_to_home() {
    let expanded = expand_tilde_with("~/.config", home()).unwrap();

    assert_eq!(expanded.to_str(), Some("/home/user/.config"));
    assert!(matches!(expanded, Cow::Owned(_)));
}

#[test]
fn tilde_with_deeper_remainder_is_joined_to_home() {
    let expanded = expand_tilde_with("~/a/b.txt", home()).unwrap();

    assert_eq!(expanded.to_str(), Some("/home/user/a/b.txt"));
}

#[test]
fn bare_tilde_is_home() {
    let expanded = expand_tilde_with("~", home()).unwrap();

    assert_eq!(expanded, Path::new("/home/user"));
    assert!(matches!(expanded, Cow::Owned(_)));
}

#[test]
fn tilde_and_separator_is_home() {
    let expanded = expand_tilde_with("~/", home()).unwrap();

    assert_eq!(expanded, Path::new("/home/user"));
}

#[test]
fn separators_around_the_remainder_are_dropped() {
    let expanded = expand_tilde_with("~//a/./b/", home()).unwrap();

    assert_eq!(expanded.to_str(), Some("/home/user/a/./b"));
}

#[test]
fn partial_segment_is_unchanged() {
    let expanded = expand_tilde_with("~config", home()).unwrap();

    assert_eq!(expanded.to_str(), Some("~config"));
    assert!(matches!(expanded, Cow::Borrowed(_)));
}

#[test]
fn partial_segment_is_unchanged_by_the_platform_home() {
    let expanded = expand_tilde("~config").unwrap();

    assert_eq!(expanded.to_str(), Some("~config"));
    assert!(matches!(expanded, Cow::Borrowed(_)));
}

#[test]
fn tilde_elsewhere_is_unchanged() {
    for path in ["/a/~/b", "a/~", "./~/b", "/~", " ~/b", "a~"] {
        let expanded = expand_tilde_with(path, home()).unwrap();
        assert_eq!(expanded.to_str(), Some(path));
        assert!(matches!(expanded, Cow::Borrowed(_)));

        let expanded = expand_tilde(path).unwrap();
        assert_eq!(expanded.to_str(), Some(path));
        assert!(matches!(expanded, Cow::Borrowed(_)));
    }
}

#[test]
fn empty_path_is_unchanged() {
    let expanded = expand_tilde_with("", home()).unwrap();

    assert_eq!(expanded.to_str(), Some(""));
    assert!(matches!(expanded, Cow::Borrowed(_)));
}

#[test]
fn expanding_again_changes_nothing() {
    let once = expand_tilde_with("~/.config", home()).unwrap().into_owned();
    let twice = expand_tilde_with(&once, None).unwrap();

    assert_eq!(twice.to_str(), Some("/home/user/.config"));
    assert!(matches!(twice, Cow::Borrowed(_)));

    let absolute = "/etc/passwd";
    let expanded = expand_tilde(absolute).unwrap();
    assert_eq!(expanded.to_str(), Some(absolute));
    let again = expand_tilde(expanded.as_ref()).unwrap();
    assert_eq!(again.to_str(), Some(absolute));
}

#[test]
fn empty_home_fails_only_where_expansion_is_needed() {
    let empty = || Some(PathBuf::new());

    assert_eq!(expand_tilde_with("~", empty()), Err(Error::Empty));
    assert_eq!(expand_tilde_with("~/.config", empty()), Err(Error::Empty));

    assert_eq!(
        expand_tilde_with("~config", empty()),
        Ok(Cow::Borrowed(Path::new("~config")))
    );
    assert_eq!(
        expand_tilde_with("/a/~/b", empty()),
        Ok(Cow::Borrowed(Path::new("/a/~/b")))
    );
}

#[test]
fn missing_home_fails_only_where_expansion_is_needed() {
    assert_eq!(expand_tilde_with("~", None), Err(Error::NotFound));
    assert_eq!(expand_tilde_with("~/.config", None), Err(Error::NotFound));

    assert_eq!(
        expand_tilde_with("~config", None),
        Ok(Cow::Borrowed(Path::new("~config")))
    );
    assert_eq!(
        expand_tilde_with("/a/~/b", None),
        Ok(Cow::Borrowed(Path::new("/a/~/b")))
    );
}

#[test]
fn remainder_is_joined_to_home() {
    let expanded = expand_remainder(Path::new(".config"), home()).unwrap();

    assert_eq!(expanded.to_str(), Some("/home/user/.config"));
}

#[test]
fn empty_remainder_is_home() {
    let expanded = expand_remainder(Path::new(""), home()).unwrap();

    assert_eq!(expanded, PathBuf::from("/home/user"));
}

#[test]
fn remainder_fails_as_the_home_does() {
    let rest = Path::new(".config");

    assert_eq!(expand_remainder(rest, None), Err(Error::NotFound));
    assert_eq!(expand_remainder(rest, Some(PathBuf::new())), Err(Error::Empty));
}

#[test]
fn bare_tilde_is_the_platform_home() {
    match (expand_tilde("~"), home_dir()) {
        (Ok(expanded), Ok(home)) => assert_eq!(expanded, home),
        (Err(expanding), Err(resolving)) => assert_eq!(expanding, resolving),
        (expanded, home) => panic!("{:?} does not go with {:?}", expanded, home),
    }
}

#[test]
fn tilde_with_remainder_is_joined_to_the_platform_home() {
    match (expand_tilde("~/.config"), home_dir()) {
        (Ok(expanded), Ok(home)) => assert_eq!(expanded, home.join(".config")),
        (Err(expanding), Err(resolving)) => assert_eq!(expanding, resolving),
        (expanded, home) => panic!("{:?} does not go with {:?}", expanded, home),
    }
}

#[test]
fn owned_expansion_of_each_kind_of_path() {
    assert_eq!(
        expand_tilde_owned("~config"),
        Ok(PathBuf::from("~config"))
    );
    assert_eq!(
        expand_tilde_owned(String::from("/a/~/b")),
        Ok(PathBuf::from("/a/~/b"))
    );
    assert_eq!(
        expand_tilde_owned(PathBuf::from("a/b")),
        Ok(PathBuf::from("a/b"))
    );
    assert_eq!(
        expand_tilde_owned(Path::new("a/b")),
        Ok(PathBuf::from("a/b"))
    );
}

#[test]
fn owned_expansion_is_the_borrowed_one() {
    let borrowed = expand_tilde("~/.config").map(Cow::into_owned);
    let owned = expand_tilde_owned("~/.config");

    assert_eq!(owned, borrowed);
}

#[test]
fn method_and_function_agree_on_each_kind_of_path() {
    let text = "~/.config";
    let string = String::from(text);
    let path = Path::new(text);
    let path_buf = PathBuf::from(text);

    assert_eq!(text.expand_tilde(), expand_tilde(text));
    assert_eq!(string.expand_tilde(), expand_tilde(&string));
    assert_eq!(path.expand_tilde(), expand_tilde(path));
    assert_eq!(path_buf.expand_tilde(), expand_tilde(&path_buf));

    assert_eq!(string.expand_tilde(), text.expand_tilde());
    assert_eq!(path.expand_tilde(), text.expand_tilde());
    assert_eq!(path_buf.expand_tilde(), text.expand_tilde());
}

#[test]
fn method_keeps_a_path_without_tilde() {
    let path = PathBuf::from("/a/~/b");
    let expanded = path.expand_tilde().unwrap();

    assert_eq!(expanded.to_str(), Some("/a/~/b"));
    assert!(matches!(expanded, Cow::Borrowed(_)));
}
