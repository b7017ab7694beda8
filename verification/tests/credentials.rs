use localdeploy::config::{Config, Environment, Options};
use localdeploy::credentials::{attempt, CredentialNegotiator, CredentialRequest, Verdict};
use std::cell::RefCell;

fn negotiator() -> CredentialNegotiator {
    CredentialNegotiator {
        username: "git".to_owned(),
        public_key_path: "/home/op/.ssh/id_rsa.pub".to_owned(),
        private_key_path: "/home/op/.ssh/id_rsa".to_owned(),
        passphrase: Some("s3cret".to_owned()),
    }
}

fn key_files_for(username: &str) -> CredentialRequest {
    CredentialRequest::KeyFile {
        username: username.to_owned(),
        public_key: "/home/op/.ssh/id_rsa.pub".to_owned(),
        private_key: "/home/op/.ssh/id_rsa".to_owned(),
        passphrase: Some("s3cret".to_owned()),
    }
}

fn retry_of(verdict: Verdict) -> CredentialRequest {
    match verdict {
        Verdict::Retry(request) => request,
        Verdict::Granted(_) => panic!("granted"),
        Verdict::Denied(failure) => panic!("denied: {}", failure),
    }
}

#[test]
fn first_attempt_asks_the_agent_for_the_user_of_the_url() {
    assert_eq!(
        negotiator().first_attempt(Some("deploy")),
        CredentialRequest::Agent { username: "deploy".to_owned() }
    );
}

#[test]
fn first_attempt_asks_the_agent_for_the_configured_user() {
    assert_eq!(
        negotiator().first_attempt(None),
        CredentialRequest::Agent { username: "git".to_owned() }
    );
}

#[test]
fn failed_agent_leads_to_the_key_files() {
    let n = negotiator();
    let first = n.first_attempt(Some("deploy"));
    let verdict = n.settle(first, Err(git2::Error::from_str("no agent")));
    assert_eq!(retry_of(verdict), key_files_for("deploy"));
}

#[test]
fn failed_agent_leads_to_the_key_files_of_the_configured_user() {
    let n = negotiator();
    let first = n.first_attempt(None);
    let verdict = n.settle(first, Err(git2::Error::from_str("no agent")));
    assert_eq!(retry_of(verdict), key_files_for("git"));
}

#[test]
fn failed_agent_without_passphrase_leads_to_plain_key_files() {
    let n = CredentialNegotiator { passphrase: None, ..negotiator() };
    let verdict = n.settle(n.first_attempt(None), Err(git2::Error::from_str("no agent")));
    assert_eq!(
        retry_of(verdict),
        CredentialRequest::KeyFile {
            username: "git".to_owned(),
            public_key: "/home/op/.ssh/id_rsa.pub".to_owned(),
            private_key: "/home/op/.ssh/id_rsa".to_owned(),
            passphrase: None,
        }
    );
}

#[test]
fn failed_key_files_end_the_negotiation_with_their_failure() {
    let verdict = negotiator().settle(key_files_for("git"), Err(git2::Error::from_str("bad key")));
    match verdict {
        Verdict::Denied(failure) => assert_eq!(failure.message(), "bad key"),
        _ => panic!("not denied"),
    }
}

#[test]
fn a_credential_is_handed_on() {
    let n = negotiator();
    let cred = git2::Cred::username("git").unwrap();
    assert!(matches!(n.settle(n.first_attempt(None), Ok(cred)), Verdict::Granted(_)));
    let cred = git2::Cred::username("git").unwrap();
    assert!(matches!(n.settle(key_files_for("git"), Ok(cred)), Verdict::Granted(_)));
}

#[test]
fn attempt_with_the_agent_makes_an_ssh_credential() {
    let cred = attempt(&CredentialRequest::Agent { username: "git".to_owned() }).unwrap();
    assert_eq!(cred.credtype(), git2::CredentialType::SSH_KEY.bits());
    assert!(cred.has_username());
}

#[test]
fn attempt_with_key_files_makes_an_ssh_credential() {
    let cred = attempt(&key_files_for("git")).unwrap();
    assert_eq!(cred.credtype(), git2::CredentialType::SSH_KEY.bits());
    assert!(cred.has_username());
}

#[test]
fn attempt_for_a_user_with_nul_fails() {
    assert!(attempt(&CredentialRequest::Agent { username: "gi\0t".to_owned() }).is_err());
    assert!(attempt(&key_files_for("gi\0t")).is_err());
}

#[test]
fn negotiate_gives_a_credential() {
    let cred = negotiator().negotiate(Some("deploy")).unwrap();
    assert_eq!(cred.credtype(), git2::CredentialType::SSH_KEY.bits());
    let cred = negotiator().negotiate(None).unwrap();
    assert!(cred.has_username());
}

#[test]
fn negotiate_for_a_user_with_nul_fails() {
    assert!(negotiator().negotiate(Some("de\0ploy")).is_err());
    let n = CredentialNegotiator { username: "\0".to_owned(), ..negotiator() };
    assert!(n.negotiate(None).is_err());
    assert!(n.negotiate(Some("git")).is_ok());
}

#[test]
fn negotiator_of_a_configuration() {
    let options = Options {
        remote: None,
        branch: None,
        command: Some("npm start".to_owned()),
        path: Some("/srv/app".to_owned()),
        clone_url: None,
        public_key: None,
        private_key: Some("/keys/deploy".to_owned()),
        interval: None,
        username: Some("deploy".to_owned()),
        use_passphrase: true,
    };
    let env = Environment { home: Ok("/home/op".to_owned()), current_dir: Ok("/".to_owned()) };
    let mut config = Config::resolve(options, env).unwrap();
    config.set_passphrase("pw".to_owned());
    let n = config.negotiator();
    assert_eq!(n.username, "deploy");
    assert_eq!(n.public_key_path, "/home/op/.ssh/id_rsa.pub");
    assert_eq!(n.private_key_path, "/keys/deploy");
    assert_eq!(n.passphrase, Some("pw".to_owned()));
}

#[test]
fn negotiation_with_a_failing_agent_tries_the_key_files() {
    let asked = RefCell::new(Vec::new());
    let made = negotiator().negotiate_with(Some("deploy"), |request| {
        asked.borrow_mut().push(format!("{:?}", request));
        match request {
            CredentialRequest::Agent { .. } => Err(git2::Error::from_str("no agent")),
            CredentialRequest::KeyFile { .. } => git2::Cred::username("from key files"),
        }
    });
    assert!(made.is_ok());
    assert_eq!(
        asked.into_inner(),
        vec![
            format!("{:?}", CredentialRequest::Agent { username: "deploy".to_owned() }),
            format!("{:?}", key_files_for("deploy")),
        ]
    );
}

#[test]
fn negotiation_fails_with_the_failure_of_the_key_files() {
    let asked = RefCell::new(0);
    let made = negotiator().negotiate_with(None, |request| {
        *asked.borrow_mut() += 1;
        match request {
            CredentialRequest::Agent { .. } => Err(git2::Error::from_str("no agent")),
            CredentialRequest::KeyFile { .. } => Err(git2::Error::from_str("bad passphrase")),
        }
    });
    assert_eq!(made.err().map(|failure| failure.message().to_owned()), Some("bad passphrase".to_owned()));
    assert_eq!(asked.into_inner(), 2);
}

#[test]
fn negotiation_with_a_willing_agent_leaves_the_key_files_alone() {
    let asked = RefCell::new(Vec::new());
    let made = negotiator().negotiate_with(None, |request| {
        asked.borrow_mut().push(format!("{:?}", request));
        git2::Cred::username("from agent")
    });
    assert!(made.is_ok());
    assert_eq!(
        asked.into_inner(),
        vec![format!("{:?}", CredentialRequest::Agent { username: "git".to_owned() })]
    );
}

#[test]
fn every_negotiation_starts_with_the_agent_again() {
    let asked = RefCell::new(Vec::new());
    let n = negotiator();
    for _ in 0..2 {
        let _ = n.negotiate_with(Some("deploy"), |request| {
            asked.borrow_mut().push(matches!(request, CredentialRequest::Agent { .. }));
            Err(git2::Error::from_str("refused"))
        });
    }
    assert_eq!(asked.into_inner(), vec![true, false, true, false]);
}
