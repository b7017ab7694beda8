//! SSH credentials for the git transport: the agent first, the key files
//! second.
//!
//! The transport asks for a credential, possibly several times during one
//! fetch. Each time the negotiator starts afresh: it asks the SSH agent,
//! and only where that fails does it turn to the key files.

use vstd::prelude::*;
use git2::Error as GitFailure;
use std::path::Path;
use crate::config::{text_of, Config};

verus! {

/// `git2::Cred`: a credential of libgit2, which this library only hands on.
#[verifier::external_type_specification]
#[verifier::external_body]
pub struct ExCred(git2::Cred);

/// One way of getting a credential, with all that it is made from.
#[derive(Debug, PartialEq)]
pub enum CredentialRequest {
    /// Let the SSH agent authenticate `username`.
    Agent { username: String },
    /// Authenticate `username` with a pair of key files.
    KeyFile { username: String, public_key: String, private_key: String, passphrase: Option<String> },
}

/// A [`CredentialRequest`] with its texts as sequences of characters.
pub enum RequestView {
    Agent { username: Seq<char> },
    KeyFile {
        username: Seq<char>,
        public_key: Seq<char>,
        private_key: Seq<char>,
        passphrase: Option<Seq<char>>,
    },
}

impl View for CredentialRequest {
    type V = RequestView;

    open spec fn view(&self) -> RequestView {
        match *self {
            CredentialRequest::Agent { username } => RequestView::Agent { username: username@ },
            CredentialRequest::KeyFile {
                username,
                public_key,
                private_key,
                passphrase,
            } => RequestView::KeyFile {
                username: username@,
                public_key: public_key@,
                private_key: private_key@,
                passphrase: text_of(passphrase),
            },
        }
    }
}

impl RequestView {
    /// The user that the request authenticates.
    pub open spec fn username(self) -> Seq<char> {
        match self {
            RequestView::Agent { username } => username,
            RequestView::KeyFile { username, .. } => username,
        }
    }

    /// How many requests can still follow this one.
    pub open spec fn fallbacks(self) -> nat {
        match self {
            RequestView::Agent { .. } => 1,
            RequestView::KeyFile { .. } => 0,
        }
    }
}

/// What follows from one attempt.
pub enum Verdict {
    /// The attempt gave a credential: hand it to the transport.
    Granted(git2::Cred),
    /// The attempt failed and there is another way: try it.
    Retry(CredentialRequest),
    /// The attempt failed and no way is left: the transport gets the failure.
    Denied(GitFailure),
}

/// A [`Verdict`] with the view of its request.
pub enum VerdictView {
    Granted(git2::Cred),
    Retry(RequestView),
    Denied(GitFailure),
}

impl View for Verdict {
    type V = VerdictView;

    open spec fn view(&self) -> VerdictView {
        match *self {
            Verdict::Granted(cred) => VerdictView::Granted(cred),
            Verdict::Retry(request) => VerdictView::Retry(request@),
            Verdict::Denied(failure) => VerdictView::Denied(failure),
        }
    }
}

/// What the negotiator knows: the configured user and key material.
#[derive(Debug)]
pub struct CredentialNegotiator {
    pub username: String,
    pub public_key_path: String,
    pub private_key_path: String,
    pub passphrase: Option<String>,
}

/// A [`CredentialNegotiator`] with its texts as sequences of characters.
pub struct NegotiatorView {
    pub username: Seq<char>,
    pub public_key_path: Seq<char>,
    pub private_key_path: Seq<char>,
    pub passphrase: Option<Seq<char>>,
}

impl View for CredentialNegotiator {
    type V = NegotiatorView;

    open spec fn view(&self) -> NegotiatorView {
        NegotiatorView {
            username: self.username@,
            public_key_path: self.public_key_path@,
            private_key_path: self.private_key_path@,
            passphrase: text_of(self.passphrase),
        }
    }
}

/// The user name that the transport took from the URL of the remote, if any.
pub open spec fn hint_of(from_url: Option<&str>) -> Option<Seq<char>> {
    match from_url {
        Some(name) => Some(name@),
        None => None,
    }
}

/// Whether `outcome` is what `carry_out` can give for a request that reads
/// as `request`.
pub open spec fn comes_of<F>(
    carry_out: F,
    request: RequestView,
    outcome: Result<git2::Cred, GitFailure>,
) -> bool where F: Fn(&CredentialRequest) -> Result<git2::Cred, GitFailure> {
    exists|asked: &CredentialRequest| #[trigger]
        call_ensures(carry_out, (asked,), outcome) && asked@ == request
}

impl NegotiatorView {
    /// Whether `made` is how a negotiation can end where `carry_out` carries
    /// out the requests: with the credential of the agent; or, after the
    /// agent has failed, with what the key files gave.
    pub open spec fn concludes<F>(
        self,
        from_url: Option<Seq<char>>,
        carry_out: F,
        made: Result<git2::Cred, GitFailure>,
    ) -> bool where F: Fn(&CredentialRequest) -> Result<git2::Cred, GitFailure> {
        let agent = self.first_request(from_url);
        let key_files = self.fallback(agent)->0;
        ||| made is Ok && comes_of(carry_out, agent, made)
        ||| (exists|failure: GitFailure| comes_of(carry_out, agent, Err(failure))) && comes_of(
            carry_out,
            key_files,
            made,
        )
    }

    /// The user to authenticate: the one from the URL where there is one,
    /// else the configured one.
    pub open spec fn effective_username(self, from_url: Option<Seq<char>>) -> Seq<char> {
        match from_url {
            Some(name) => name,
            None => self.username,
        }
    }

    /// The first request of a negotiation: the agent.
    pub open spec fn first_request(self, from_url: Option<Seq<char>>) -> RequestView {
        RequestView::Agent { username: self.effective_username(from_url) }
    }

    /// The request that follows a failed one, if there is one: after the
    /// agent come the configured key files, for the same user; after the key
    /// files comes nothing.
    pub open spec fn fallback(self, failed: RequestView) -> Option<RequestView> {
        match failed {
            RequestView::Agent { username } => Some(
                RequestView::KeyFile {
                    username,
                    public_key: self.public_key_path,
                    private_key: self.private_key_path,
                    passphrase: self.passphrase,
                },
            ),
            RequestView::KeyFile { .. } => None,
        }
    }

    /// What follows from the `outcome` of `request`.
    pub open spec fn settle(self, request: RequestView, outcome: Result<git2::Cred, GitFailure>) -> VerdictView {
        match outcome {
            Ok(cred) => VerdictView::Granted(cred),
            Err(failure) => match self.fallback(request) {
                Some(next) => VerdictView::Retry(next),
                None => VerdictView::Denied(failure),
            },
        }
    }
}

/// Calls `git2::Cred::ssh_key_from_agent`, which makes a credential that
/// lets the SSH agent authenticate `username`. libgit2 takes the name as a C
/// string, so git2 refuses one that holds a NUL character. Nothing else is
/// claimed of the result. On its first use git2 starts libgit2, and gives up
/// the whole program where that fails.
#[verifier::external_body]
fn agent_credential(username: &str) -> (made: Result<git2::Cred, GitFailure>)
    ensures
        username@.contains('\0') ==> made is Err,
{
    git2::Cred::ssh_key_from_agent(username)
}

/// Calls `git2::Cred::ssh_key`, which makes a credential from a pair of key
/// files and the passphrase of the private one. The files are not read here:
/// the transport does that when it uses the credential. libgit2 takes the
/// user name as a C string, so git2 refuses one that holds a NUL character.
/// Nothing else is claimed of the result. On its first use git2 starts
/// libgit2, and gives up the whole program where that fails.
#[verifier::external_body]
fn key_file_credential(
    username: &str,
    public_key: &str,
    private_key: &str,
    passphrase: Option<&str>,
) -> (made: Result<git2::Cred, GitFailure>)
    ensures
        username@.contains('\0') ==> made is Err,
{
    git2::Cred::ssh_key(username, Some(Path::new(public_key)), Path::new(private_key), passphrase)
}

/// Carries out one request.
///
/// Whether a credential comes back is for libgit2 to say. A request for a
/// user whose name holds a NUL character always fails.
pub fn attempt(request: &CredentialRequest) -> (made: Result<git2::Cred, GitFailure>)
    ensures
        request@.username().contains('\0') ==> made is Err,
{
    match request {
        CredentialRequest::Agent { username } => agent_credential(username.as_str()),
        CredentialRequest::KeyFile { username, public_key, private_key, passphrase } => {
            let secret: Option<&str> = match passphrase {
                Some(text) => Some(text.as_str()),
                None => None,
            };
            key_file_credential(
                username.as_str(),
                public_key.as_str(),
                private_key.as_str(),
                secret,
            )
        },
    }
}

impl CredentialNegotiator {
    /// The first request of a negotiation.
    pub fn first_attempt(&self, username_from_url: Option<&str>) -> (request: CredentialRequest)
        ensures
            request@ == self@.first_request(hint_of(username_from_url)),
    {
        let username = match username_from_url {
            Some(name) => String::from_str(name),
            None => self.username.clone(),
        };
        CredentialRequest::Agent { username }
    }

    /// Decides what follows from the `outcome` of `request`: a credential is
    /// handed on; a failure of the agent leads to the key files; a failure
    /// of the key files ends the negotiation with that failure.
    pub fn settle(&self, request: CredentialRequest, outcome: Result<git2::Cred, GitFailure>) -> (verdict:
        Verdict)
        ensures
            verdict@ == self@.settle(request@, outcome),
    {
        match outcome {
            Ok(cred) => Verdict::Granted(cred),
            Err(failure) => match request {
                CredentialRequest::Agent { username } => Verdict::Retry(
                    CredentialRequest::KeyFile {
                        username,
                        public_key: self.public_key_path.clone(),
                        private_key: self.private_key_path.clone(),
                        passphrase: self.passphrase.clone(),
                    },
                ),
                CredentialRequest::KeyFile { .. } => Verdict::Denied(failure),
            },
        }
    }

    /// Negotiates with `carry_out` as the way to carry out a request.
    ///
    /// The agent is asked first. What it gives is handed on. Where it
    /// fails, the key files are tried, and what they give, credential or
    /// failure, is the result. So the negotiation fails only after the key
    /// files were tried and have failed, and with their failure.
    pub fn negotiate_with<F>(&self, username_from_url: Option<&str>, carry_out: F) -> (made: Result<
        git2::Cred,
        GitFailure,
    >) where F: Fn(&CredentialRequest) -> Result<git2::Cred, GitFailure>
        requires
            forall|request: &CredentialRequest| call_requires(carry_out, (request,)),
        ensures
            self@.concludes(hint_of(username_from_url), carry_out, made),
    {
        let ghost first = self@.first_request(hint_of(username_from_url));
        let mut request = self.first_attempt(username_from_url);
        loop
            invariant
                forall|request: &CredentialRequest| call_requires(carry_out, (request,)),
                first == self@.first_request(hint_of(username_from_url)),
                request@ == first || (self@.fallback(first) == Some(request@) && exists|
                    failure: GitFailure,
                | comes_of(carry_out, first, Err(failure))),
            decreases request@.fallbacks(),
        {
            let outcome = carry_out(&request);
            let ghost asked = request@;
            let ghost given = outcome;
            assert(comes_of(carry_out, asked, given));
            match self.settle(request, outcome) {
                Verdict::Granted(cred) => {
                    return Ok(cred);
                },
                Verdict::Denied(failure) => {
                    return Err(failure);
                },
                Verdict::Retry(next) => {
                    assert(asked == first);
                    assert(comes_of(carry_out, first, Err(given->Err_0)));
                    request = next;
                },
            }
        }
    }

    /// Gets a credential for the transport: from the agent, or else from the
    /// key files.
    ///
    /// Whether one is to be had is for libgit2 to say. For a user whose name
    /// holds a NUL character the negotiation always fails.
    pub fn negotiate(&self, username_from_url: Option<&str>) -> (made: Result<git2::Cred, GitFailure>)
        ensures
            self@.concludes(hint_of(username_from_url), attempt, made),
            self@.effective_username(hint_of(username_from_url)).contains('\0') ==> made is Err,
    {
        self.negotiate_with(username_from_url, attempt)
    }
}

impl Config {
    /// The negotiator for this configuration.
    pub fn negotiator(&self) -> (negotiator: CredentialNegotiator)
        ensures
            negotiator@ == (NegotiatorView {
                username: self@.username,
                public_key_path: self@.public_key_path,
                private_key_path: self@.private_key_path,
                passphrase: self@.passphrase,
            }),
    {
        CredentialNegotiator {
            username: self.username.clone(),
            public_key_path: self.public_key_path.clone(),
            private_key_path: self.private_key_path.clone(),
            passphrase: self.passphrase.clone(),
        }
    }
}

/// A negotiation that fails has tried the agent, which failed, and then the
/// key files, for the same user and with the configured paths and
/// passphrase; its failure is theirs.
pub proof fn lemma_failure_comes_from_key_files<F>(
    negotiator: NegotiatorView,
    from_url: Option<Seq<char>>,
    carry_out: F,
    made: Result<git2::Cred, GitFailure>,
) where F: Fn(&CredentialRequest) -> Result<git2::Cred, GitFailure>
    requires
        negotiator.concludes(from_url, carry_out, made),
        made is Err,
    ensures
        exists|failure: GitFailure|
            comes_of(
                carry_out,
                RequestView::Agent { username: negotiator.effective_username(from_url) },
                Err(failure),
            ),
        comes_of(
            carry_out,
            RequestView::KeyFile {
                username: negotiator.effective_username(from_url),
                public_key: negotiator.public_key_path,
                private_key: negotiator.private_key_path,
                passphrase: negotiator.passphrase,
            },
            made,
        ),
{
}

/// Where the agent fails, the key files are tried before the negotiation
/// fails: the request that follows a failed first request is for the key
/// files, with the same user and with the configured paths and passphrase;
/// and only the failure of that request ends the negotiation.
pub proof fn lemma_agent_failure_leads_to_key_files(
    negotiator: NegotiatorView,
    from_url: Option<Seq<char>>,
    agent_failure: GitFailure,
    key_failure: GitFailure,
)
    ensures
        negotiator.settle(negotiator.first_request(from_url), Err(agent_failure))
            == VerdictView::Retry(
            RequestView::KeyFile {
                username: negotiator.effective_username(from_url),
                public_key: negotiator.public_key_path,
                private_key: negotiator.private_key_path,
                passphrase: negotiator.passphrase,
            },
        ),
        negotiator.settle(
            negotiator.fallback(negotiator.first_request(from_url))->0,
            Err(key_failure),
        ) == VerdictView::Denied(key_failure),
{
}

} // verus!
