use expand_tilde::classify_home;
use expand_tilde::home_dir;
use expand_tilde::Error;
use std::path::PathBuf;

#[test]
fn no_answer_is_not_found() {
    assert_eq!(classify_home(None), Err(Error::NotFound));
}

#[test]
fn empty_answer_is_empty() {
    assert_eq!(classify_home(Some(PathBuf::new())), Err(Error::Empty));
    assert_eq!(classify_home(Some(PathBuf::from(""))), Err(Error::Empty));
}

#[test]
fn any_other_answer_is_the_home() {
    assert_eq!(
        classify_home(Some(PathBuf::from("/home/user"))),
        Ok(PathBuf::from("/home/user"))
    );
    assert_eq!(classify_home(Some(PathBuf::from("x"))), Ok(PathBuf::from("x")));
}

#[test]
fn platform_home_is_never_empty() {
    match home_dir() {
        Ok(home) => assert!(!home.as_os_str().is_empty()),
        Err(error) => assert!(matches!(error, Error::NotFound | Error::Empty)),
    }
}

#[test]
fn errors_are_told_apart() {
    assert_ne!(Error::NotFound, Error::Empty);
    assert_eq!(format!("{:?}", Error::NotFound), "NotFound");
    assert_eq!(format!("{:?}", Error::Empty), "Empty");
}
