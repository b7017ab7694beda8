//! The configuration of the daemon and how it is made from what the command
//! line and the environment give.

use vstd::prelude::*;
use crate::command::{
    arguments_of, command_of, lemma_command_has_program_and_argument, parse_cmd_args, program_of,
};
use crate::error::{Error, ErrorView};
use crate::interval::{interval_of, resolve_interval};
use crate::text::{no_whitespace, views};

verus! {

/// What the command line gave: the text of each option that was given.
pub struct Options {
    /// The remote to fetch from.
    pub remote: Option<String>,
    /// The branch to fetch.
    pub branch: Option<String>,
    /// The command line of the program to run.
    pub command: Option<String>,
    /// The directory of the repository.
    pub path: Option<String>,
    /// The URL to clone the repository from.
    pub clone_url: Option<String>,
    /// The file of the public SSH key.
    pub public_key: Option<String>,
    /// The file of the private SSH key.
    pub private_key: Option<String>,
    /// The pause between two fetches, in seconds.
    pub interval: Option<String>,
    /// The user name for the git transport.
    pub username: Option<String>,
    /// Whether the private key is protected by a passphrase that has to be
    /// asked for.
    pub use_passphrase: bool,
}

/// What the environment of the process offers, read once at startup.
pub struct Environment {
    /// The home directory, or the reason why it is unknown.
    pub home: Result<String, String>,
    /// The current directory, or the reason why it is unknown.
    pub current_dir: Result<String, String>,
}

/// The configuration that the daemon works with.
#[derive(Debug)]
pub struct Config {
    /// The remote to fetch from.
    pub remote_name: String,
    /// The branch to fetch.
    pub branch_name: String,
    /// The program to run after each fetch.
    pub command: String,
    /// The arguments of the program.
    pub args: Vec<String>,
    /// The directory of the repository, in which the program runs.
    pub repo_path: String,
    /// Where to clone the repository from, if it has to be cloned first.
    pub clone_url: Option<String>,
    /// The file of the public SSH key.
    pub public_key_path: String,
    /// The file of the private SSH key.
    pub private_key_path: String,
    /// The user name for the git transport.
    pub username: String,
    /// The passphrase of the private key, once it has been asked for.
    pub passphrase: Option<String>,
    /// The pause between two fetches.
    pub interval_seconds: u64,
}

/// A [`Config`] with its texts as sequences of characters.
pub struct ConfigView {
    pub remote_name: Seq<char>,
    pub branch_name: Seq<char>,
    pub command: Seq<char>,
    pub args: Seq<Seq<char>>,
    pub repo_path: Seq<char>,
    pub clone_url: Option<Seq<char>>,
    pub public_key_path: Seq<char>,
    pub private_key_path: Seq<char>,
    pub username: Seq<char>,
    pub passphrase: Option<Seq<char>>,
    pub interval_seconds: u64,
}

/// The text of an option, if it was given.
pub open spec fn text_of(option: Option<String>) -> Option<Seq<char>> {
    match option {
        Some(text) => Some(text@),
        None => None,
    }
}

/// The text of an option, or `default` where it was not given.
pub open spec fn text_or(option: Option<String>, default: Seq<char>) -> Seq<char> {
    match option {
        Some(text) => text@,
        None => default,
    }
}

impl View for Config {
    type V = ConfigView;

    open spec fn view(&self) -> ConfigView {
        ConfigView {
            remote_name: self.remote_name@,
            branch_name: self.branch_name@,
            command: self.command@,
            args: views(self.args@),
            repo_path: self.repo_path@,
            clone_url: text_of(self.clone_url),
            public_key_path: self.public_key_path@,
            private_key_path: self.private_key_path@,
            username: self.username@,
            passphrase: text_of(self.passphrase),
            interval_seconds: self.interval_seconds,
        }
    }
}

impl ConfigView {
    /// This configuration with `passphrase` as the passphrase of the key.
    pub open spec fn with_passphrase(self, passphrase: Seq<char>) -> ConfigView {
        ConfigView { passphrase: Some(passphrase), ..self }
    }
}

/// The configuration that `options` and `env` give, or the first thing that
/// is wrong with them.
///
/// A command must be given; its line must hold a program and at least one
/// argument. Without a path the repository lies in the current directory,
/// which must then be known, and a clone URL must say where to get it from.
/// A key file that is not named is looked for under `.ssh` in the home
/// directory, which must then be known. No passphrase is set yet.
pub open spec fn resolve(options: Options, env: Environment) -> Result<ConfigView, ErrorView> {
    if options.command is None {
        Err(ErrorView::MissingCommand)
    } else if options.path is None && env.current_dir is Err {
        Err(ErrorView::IoError(env.current_dir->Err_0@))
    } else if (options.public_key is None || options.private_key is None) && env.home is Err {
        Err(ErrorView::EnvError(env.home->Err_0@))
    } else if command_of(options.command->0@) is None {
        Err(ErrorView::MissingCommand)
    } else if options.clone_url is None && options.path is None {
        Err(ErrorView::MissingPath)
    } else {
        Ok(
            ConfigView {
                remote_name: text_or(options.remote, "origin"@),
                branch_name: text_or(options.branch, "main"@),
                command: program_of(options.command->0@),
                args: arguments_of(options.command->0@),
                repo_path: text_or(options.path, env.current_dir->Ok_0@),
                clone_url: text_of(options.clone_url),
                public_key_path: text_or(options.public_key, env.home->Ok_0@ + "/.ssh/id_rsa.pub"@),
                private_key_path: text_or(options.private_key, env.home->Ok_0@ + "/.ssh/id_rsa"@),
                username: text_or(options.username, "git"@),
                passphrase: None,
                interval_seconds: interval_of(text_of(options.interval)),
            },
        )
    }
}

/// A configuration that was made names a program, gives it at least one
/// argument, neither of them with white space in it, has no passphrase yet,
/// and knows the repository by its path or by the URL to clone it from.
pub proof fn lemma_resolved_is_runnable(options: Options, env: Environment)
    ensures
        resolve(options, env) matches Ok(config) ==> {
            &&& config.command.len() > 0
            &&& no_whitespace(config.command)
            &&& config.args.len() >= 1
            &&& forall|i: int| 0 <= i < config.args.len() ==> no_whitespace(#[trigger] config.args[i])
            &&& config.passphrase is None
            &&& config.clone_url is Some || options.path is Some
        },
{
    if options.command is Some {
        lemma_command_has_program_and_argument(options.command->0@);
    }
}

/// The text of `option`, or `default` where there is none.
fn or_default(option: Option<String>, default: &str) -> (text: String)
    ensures
        text@ == text_or(option, default@),
{
    match option {
        Some(text) => text,
        None => String::from_str(default),
    }
}

/// The file that `option` names, or the one called `name` under the home
/// directory; the reason why the home directory is unknown where it is
/// needed and not to be had.
fn key_path(option: Option<String>, home: &Result<String, String>, name: &str) -> (path: Result<
    String,
    Error,
>)
    ensures
        match path {
            Ok(file) => (option is Some || *home is Ok) && file@ == text_or(
                option,
                home->Ok_0@ + name@,
            ),
            Err(err) => option is None && *home is Err && err@ == ErrorView::EnvError(
                home->Err_0@,
            ),
        },
{
    match option {
        Some(file) => Ok(file),
        None => match home {
            Ok(dir) => {
                let mut file = dir.clone();
                file.append(name);
                Ok(file)
            },
            Err(reason) => Err(Error::EnvError(reason.clone())),
        },
    }
}

impl Config {
    /// Makes the configuration from what the command line and the
    /// environment give, or says what is wrong with them.
    pub fn resolve(options: Options, env: Environment) -> (resolved: Result<Config, Error>)
        ensures
            match resolved {
                Ok(config) => resolve(options, env) == Ok::<ConfigView, ErrorView>(config@),
                Err(err) => resolve(options, env) == Err::<ConfigView, ErrorView>(err@),
            },
    {
        let Options {
            remote,
            branch,
            command,
            path,
            clone_url,
            public_key,
            private_key,
            interval,
            username,
            use_passphrase: _,
        } = options;
        let line = match command {
            Some(line) => line,
            None => {
                return Err(Error::MissingCommand);
            },
        };
        let given_path = path.is_some();
        let repo_path = match path {
            Some(dir) => dir,
            None => match &env.current_dir {
                Ok(dir) => dir.clone(),
                Err(reason) => {
                    return Err(Error::IoError(reason.clone()));
                },
            },
        };
        let public_key_path = match key_path(public_key, &env.home, "/.ssh/id_rsa.pub") {
            Ok(file) => file,
            Err(err) => {
                return Err(err);
            },
        };
        let private_key_path = match key_path(private_key, &env.home, "/.ssh/id_rsa") {
            Ok(file) => file,
            Err(err) => {
                return Err(err);
            },
        };
        let interval_seconds = resolve_interval(&interval);
        let (program, args) = match parse_cmd_args(line) {
            Ok(parsed) => parsed,
            Err(err) => {
                return Err(err);
            },
        };
        if clone_url.is_none() && !given_path {
            return Err(Error::MissingPath);
        }
        Ok(
            Config {
                remote_name: or_default(remote, "origin"),
                branch_name: or_default(branch, "main"),
                command: program,
                args,
                repo_path,
                clone_url,
                public_key_path,
                private_key_path,
                username: or_default(username, "git"),
                passphrase: None,
                interval_seconds,
            },
        )
    }

    /// Sets the passphrase of the private key.
    pub fn set_passphrase(&mut self, passphrase: String)
        ensures
            final(self)@ == old(self)@.with_passphrase(passphrase@),
    {
        self.passphrase = Some(passphrase);
    }
}

} // verus!
