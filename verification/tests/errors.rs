use localdeploy::error::ErrorKind;
use localdeploy::Error;

#[test]
fn message_of_each_failure() {
    assert_eq!(Error::MissingCommand.message(), "Missing command");
    assert_eq!(Error::MissingPath.message(), "Missing path");
    assert_eq!(
        Error::EnvError("environment variable not found".to_owned()).message(),
        "Missing env var: environment variable not found"
    );
    assert_eq!(
        Error::IoError("No such file or directory".to_owned()).message(),
        "io error occured: No such file or directory"
    );
    assert_eq!(
        Error::ProcessError("permission denied".to_owned()).message(),
        "failed to spawn cmd: permission denied"
    );
}

#[test]
fn message_of_git_failure_shows_the_text_of_libgit2() {
    let err = Error::GitError(git2::Error::from_str("remote 'origin' does not exist"));
    assert_eq!(err.message(), "Git Error: remote 'origin' does not exist");
}

#[test]
fn message_with_empty_reason() {
    assert_eq!(Error::EnvError(String::new()).message(), "Missing env var: ");
}

#[test]
fn kind_of_each_failure() {
    assert_eq!(Error::MissingCommand.kind(), ErrorKind::Config);
    assert_eq!(Error::MissingPath.kind(), ErrorKind::Config);
    assert_eq!(Error::GitError(git2::Error::from_str("x")).kind(), ErrorKind::Repo);
    assert_eq!(Error::EnvError("x".to_owned()).kind(), ErrorKind::Environment);
    assert_eq!(Error::IoError("x".to_owned()).kind(), ErrorKind::Environment);
    assert_eq!(Error::ProcessError("x".to_owned()).kind(), ErrorKind::Process);
}

#[test]
fn git_failure_converts_into_git_error() {
    let err: Error = git2::Error::from_str("boom").into();
    assert_eq!(err, Error::GitError(git2::Error::from_str("boom")));
    let err = Error::from(git2::Error::from_str("bang"));
    assert_eq!(err.message(), "Git Error: bang");
}
