use localdeploy::config::{Config, Environment, Options};
use localdeploy::Error;

fn no_options() -> Options {
    Options {
        remote: None,
        branch: None,
        command: None,
        path: None,
        clone_url: None,
        public_key: None,
        private_key: None,
        interval: None,
        username: None,
        use_passphrase: false,
    }
}

fn usual_environment() -> Environment {
    Environment { home: Ok("/home/op".to_owned()), current_dir: Ok("/srv/work".to_owned()) }
}

fn text(s: &str) -> Option<String> {
    Some(s.to_owned())
}

#[test]
fn resolve_fills_in_the_defaults() {
    let options = Options { command: text("npm start"), path: text("/srv/app"), ..no_options() };
    let config = Config::resolve(options, usual_environment()).unwrap();
    assert_eq!(config.remote_name, "origin");
    assert_eq!(config.branch_name, "main");
    assert_eq!(config.command, "npm");
    assert_eq!(config.args, vec!["start".to_owned()]);
    assert_eq!(config.repo_path, "/srv/app");
    assert_eq!(config.clone_url, None);
    assert_eq!(config.public_key_path, "/home/op/.ssh/id_rsa.pub");
    assert_eq!(config.private_key_path, "/home/op/.ssh/id_rsa");
    assert_eq!(config.username, "git");
    assert_eq!(config.passphrase, None);
    assert_eq!(config.interval_seconds, 3600);
}

#[test]
fn resolve_takes_what_is_given() {
    let options = Options {
        remote: text("upstream"),
        branch: text("release"),
        command: text("make serve -j 4"),
        path: text("/srv/app"),
        clone_url: text("git@example.org:team/app.git"),
        public_key: text("/keys/deploy.pub"),
        private_key: text("/keys/deploy"),
        interval: text("30"),
        username: text("deploy"),
        use_passphrase: true,
    };
    let config = Config::resolve(options, usual_environment()).unwrap();
    assert_eq!(config.remote_name, "upstream");
    assert_eq!(config.branch_name, "release");
    assert_eq!(config.command, "make");
    assert_eq!(config.args, vec!["serve".to_owned(), "-j".to_owned(), "4".to_owned()]);
    assert_eq!(config.repo_path, "/srv/app");
    assert_eq!(config.clone_url, text("git@example.org:team/app.git"));
    assert_eq!(config.public_key_path, "/keys/deploy.pub");
    assert_eq!(config.private_key_path, "/keys/deploy");
    assert_eq!(config.username, "deploy");
    assert_eq!(config.passphrase, None);
    assert_eq!(config.interval_seconds, 30);
}

#[test]
fn resolve_without_command_is_missing_command() {
    let options = Options { path: text("/srv/app"), ..no_options() };
    assert_eq!(Config::resolve(options, usual_environment()).err(), Some(Error::MissingCommand));
}

#[test]
fn resolve_with_bare_command_is_missing_command() {
    let options = Options { command: text("true"), path: text("/srv/app"), ..no_options() };
    assert_eq!(Config::resolve(options, usual_environment()).err(), Some(Error::MissingCommand));
}

#[test]
fn resolve_without_path_and_url_is_missing_path() {
    let options = Options { command: text("npm start"), ..no_options() };
    assert_eq!(Config::resolve(options, usual_environment()).err(), Some(Error::MissingPath));
}

#[test]
fn resolve_with_url_and_without_path_clones_into_current_dir() {
    let options = Options {
        command: text("npm start"),
        clone_url: text("git@example.org:team/app.git"),
        ..no_options()
    };
    let config = Config::resolve(options, usual_environment()).unwrap();
    assert_eq!(config.repo_path, "/srv/work");
    assert_eq!(config.clone_url, text("git@example.org:team/app.git"));
}

#[test]
fn resolve_without_path_needs_the_current_dir() {
    let options = Options {
        command: text("npm start"),
        clone_url: text("git@example.org:team/app.git"),
        ..no_options()
    };
    let env = Environment { home: Ok("/home/op".to_owned()), current_dir: Err("gone".to_owned()) };
    assert_eq!(Config::resolve(options, env).err(), Some(Error::IoError("gone".to_owned())));
}

#[test]
fn resolve_with_path_does_not_need_the_current_dir() {
    let options = Options { command: text("npm start"), path: text("/srv/app"), ..no_options() };
    let env = Environment { home: Ok("/home/op".to_owned()), current_dir: Err("gone".to_owned()) };
    assert_eq!(Config::resolve(options, env).unwrap().repo_path, "/srv/app");
}

#[test]
fn resolve_without_key_files_needs_the_home_dir() {
    let env = Environment {
        home: Err("environment variable not found".to_owned()),
        current_dir: Ok("/srv/work".to_owned()),
    };
    let options = Options { command: text("npm start"), path: text("/srv/app"), ..no_options() };
    assert_eq!(
        Config::resolve(options, env).err(),
        Some(Error::EnvError("environment variable not found".to_owned()))
    );
}

#[test]
fn resolve_with_one_key_file_still_needs_the_home_dir() {
    let options = Options {
        command: text("npm start"),
        path: text("/srv/app"),
        public_key: text("/keys/deploy.pub"),
        ..no_options()
    };
    let env = Environment { home: Err("unset".to_owned()), current_dir: Ok("/srv/work".to_owned()) };
    assert_eq!(Config::resolve(options, env).err(), Some(Error::EnvError("unset".to_owned())));
    let options = Options {
        command: text("npm start"),
        path: text("/srv/app"),
        private_key: text("/keys/deploy"),
        ..no_options()
    };
    let env = Environment { home: Err("unset".to_owned()), current_dir: Ok("/srv/work".to_owned()) };
    assert_eq!(Config::resolve(options, env).err(), Some(Error::EnvError("unset".to_owned())));
}

#[test]
fn resolve_with_both_key_files_does_not_need_the_home_dir() {
    let options = Options {
        command: text("npm start"),
        path: text("/srv/app"),
        public_key: text("/keys/deploy.pub"),
        private_key: text("/keys/deploy"),
        ..no_options()
    };
    let env = Environment { home: Err("unset".to_owned()), current_dir: Ok("/srv/work".to_owned()) };
    let config = Config::resolve(options, env).unwrap();
    assert_eq!(config.public_key_path, "/keys/deploy.pub");
    assert_eq!(config.private_key_path, "/keys/deploy");
}

#[test]
fn resolve_reports_the_first_thing_that_is_wrong() {
    let nothing = Environment { home: Err("no home".to_owned()), current_dir: Err("no dir".to_owned()) };
    assert_eq!(Config::resolve(no_options(), nothing).err(), Some(Error::MissingCommand));

    let nothing = Environment { home: Err("no home".to_owned()), current_dir: Err("no dir".to_owned()) };
    let options = Options { command: text("ls"), ..no_options() };
    assert_eq!(Config::resolve(options, nothing).err(), Some(Error::IoError("no dir".to_owned())));

    let no_home = Environment { home: Err("no home".to_owned()), current_dir: Ok("/srv".to_owned()) };
    let options = Options { command: text("ls"), ..no_options() };
    assert_eq!(Config::resolve(options, no_home).err(), Some(Error::EnvError("no home".to_owned())));

    let options = Options { command: text("ls"), ..no_options() };
    assert_eq!(Config::resolve(options, usual_environment()).err(), Some(Error::MissingCommand));
}

#[test]
fn resolve_falls_back_to_the_default_interval() {
    let options = Options {
        command: text("npm start"),
        path: text("/srv/app"),
        interval: text("often"),
        ..no_options()
    };
    assert_eq!(Config::resolve(options, usual_environment()).unwrap().interval_seconds, 3600);
}

#[test]
fn set_passphrase_changes_the_passphrase_only() {
    let options = Options { command: text("npm start"), path: text("/srv/app"), ..no_options() };
    let mut config = Config::resolve(options, usual_environment()).unwrap();
    config.set_passphrase("s3cret".to_owned());
    assert_eq!(config.passphrase, text("s3cret"));
    assert_eq!(config.command, "npm");
    assert_eq!(config.repo_path, "/srv/app");
    assert_eq!(config.username, "git");
}
