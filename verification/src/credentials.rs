//! Which credential to offer when the remote asks for one during a push.
//!
//! The remote may ask several times during one push. A resolver remembers
//! whether the SSH agent has been offered, so that the next request gets
//! the key file instead of the agent again.
use crate::text::{spec_opt_str, spec_opt_view};
use vstd::prelude::*;
use vstd::string::StringExecFns;

verus! {

/// The kinds of credential that the remote accepts for a request.
#[derive(Clone, Copy, Debug, PartialEq, Eq, Structural)]
pub struct AllowedMethods {
    /// An SSH key, from the agent or from a file.
    pub ssh_key: bool,
    /// A user name and a password in plain text.
    pub user_pass_plaintext: bool,
    /// The credential that the platform offers by default.
    pub default: bool,
}

/// The credential to offer.
#[derive(Clone, Debug)]
pub enum Credential {
    /// A key held by the SSH agent, for `username`.
    SshAgent { username: String },
    /// The private key in the file `private_key`, for `username`.
    SshKeyFile { username: String, private_key: String },
    /// What the credential helper that is configured for `url` gives, with
    /// `hint` as the user name that the address holds, if it holds one.
    Helper { url: String, hint: Option<String> },
    /// The default credential of the platform.
    Default,
}

/// A `Credential` as plain values.
pub enum CredentialView {
    SshAgent { username: Seq<char> },
    SshKeyFile { username: Seq<char>, private_key: Seq<char> },
    Helper { url: Seq<char>, hint: Option<Seq<char>> },
    Default,
}

impl View for Credential {
    type V = CredentialView;

    open spec fn view(&self) -> CredentialView {
        match *self {
            Credential::SshAgent { username } => CredentialView::SshAgent { username: username@ },
            Credential::SshKeyFile { username, private_key } => CredentialView::SshKeyFile {
                username: username@,
                private_key: private_key@,
            },
            Credential::Helper { url, hint } => CredentialView::Helper {
                url: url@,
                hint: spec_opt_view(hint),
            },
            Credential::Default => CredentialView::Default,
        }
    }
}

/// Why no credential can be offered.
#[derive(Clone, Copy, Debug, PartialEq, Eq, Structural)]
pub enum CredentialError {
    /// The key file is wanted and the home directory is not known.
    NoHomeDirectory,
    /// The remote accepts none of the kinds that can be offered.
    NoAuthenticationAvailable,
}

/// The state of a resolver as plain values.
pub struct ResolverView {
    /// Whether the SSH agent has been offered.
    pub tried_agent: bool,
    /// The user name that the credential helper is configured with.
    pub helper_username: Option<Seq<char>>,
}

/// One request of the remote for a credential, with what is known of the
/// surroundings when it comes.
pub struct Request {
    /// The address that is pushed to.
    pub url: Seq<char>,
    /// The user name that the address holds, if it holds one.
    pub username: Option<Seq<char>>,
    /// The kinds of credential that the remote accepts.
    pub allowed: AllowedMethods,
    /// The home directory of the user, if it is known.
    pub home: Option<Seq<char>>,
}

/// The user name for an SSH credential: the one in the address, else the
/// one of the credential helper, else `git`.
pub open spec fn spec_username(resolver: ResolverView, from_url: Option<Seq<char>>) -> Seq<
    char,
> {
    match from_url {
        Some(u) => u,
        None => match resolver.helper_username {
            Some(u) => u,
            None => "git"@,
        },
    }
}

/// The private key file under the home directory `home`.
pub open spec fn spec_key_file(home: Seq<char>) -> Seq<char> {
    home + "/.ssh/id_rsa"@
}

/// The credential that a resolver in the state `resolver` offers for
/// `request`. The first kind that the remote accepts decides: an SSH key,
/// from the agent if the agent has not been offered yet and else from the
/// key file; then the credential helper; then the default credential.
pub open spec fn spec_answer(resolver: ResolverView, request: Request) -> Result<
    CredentialView,
    CredentialError,
> {
    if request.allowed.ssh_key {
        if !resolver.tried_agent {
            Ok(CredentialView::SshAgent { username: spec_username(resolver, request.username) })
        } else {
            match request.home {
                Some(home) => Ok(
                    CredentialView::SshKeyFile {
                        username: spec_username(resolver, request.username),
                        private_key: spec_key_file(home),
                    },
                ),
                None => Err(CredentialError::NoHomeDirectory),
            }
        }
    } else if request.allowed.user_pass_plaintext {
        Ok(CredentialView::Helper { url: request.url, hint: request.username })
    } else if request.allowed.default {
        Ok(CredentialView::Default)
    } else {
        Err(CredentialError::NoAuthenticationAvailable)
    }
}

/// The state of the resolver after `request`: the agent counts as offered
/// from the first request on that accepts an SSH key.
pub open spec fn spec_next(resolver: ResolverView, request: Request) -> ResolverView {
    ResolverView { tried_agent: resolver.tried_agent || request.allowed.ssh_key, ..resolver }
}

/// The state of the resolver after a sequence of requests.
pub open spec fn spec_after(resolver: ResolverView, requests: Seq<Request>) -> ResolverView
    decreases requests.len(),
{
    if requests.len() == 0 {
        resolver
    } else {
        spec_next(spec_after(resolver, requests.drop_last()), requests.last())
    }
}

/// After at least one request that accepts an SSH key the agent counts as
/// offered.
pub proof fn lemma_agent_tried(resolver: ResolverView, requests: Seq<Request>)
    requires
        requests.len() > 0,
        forall|i: int| 0 <= i < requests.len() ==> (#[trigger] requests[i]).allowed.ssh_key,
    ensures
        spec_after(resolver, requests).tried_agent,
{
    assert(requests[requests.len() - 1].allowed.ssh_key);
}

/// Where every request accepts an SSH key and the home directory is known,
/// a fresh resolver offers the agent for the first request and the key file
/// for every later one.
pub proof fn lemma_agent_then_key_file(resolver: ResolverView, requests: Seq<Request>, k: int)
    requires
        !resolver.tried_agent,
        0 <= k < requests.len(),
        forall|i: int| 0 <= i < requests.len() ==> (#[trigger] requests[i]).allowed.ssh_key,
        forall|i: int| 0 <= i < requests.len() ==> (#[trigger] requests[i]).home is Some,
    ensures
        k == 0 ==> spec_answer(spec_after(resolver, requests.take(k)), requests[k]) is Ok
            && spec_answer(spec_after(resolver, requests.take(k)), requests[k])->Ok_0
            is SshAgent,
        k > 0 ==> spec_answer(spec_after(resolver, requests.take(k)), requests[k]) is Ok
            && spec_answer(spec_after(resolver, requests.take(k)), requests[k])->Ok_0
            is SshKeyFile,
{
    let before = requests.take(k);
    assert(requests[k].allowed.ssh_key);
    assert(requests[k].home is Some);
    if k > 0 {
        assert forall|i: int| 0 <= i < before.len() implies (#[trigger] before[i]).allowed.ssh_key by {
            assert(before[i] == requests[i]);
        }
        lemma_agent_tried(resolver, before);
    }
}

/// Chooses the credentials for the requests of one push.
#[derive(Clone, Debug)]
pub struct CredentialResolver {
    tried_agent: bool,
    helper_username: Option<String>,
}

impl View for CredentialResolver {
    type V = ResolverView;

    closed spec fn view(&self) -> ResolverView {
        ResolverView {
            tried_agent: self.tried_agent,
            helper_username: spec_opt_view(self.helper_username),
        }
    }
}

impl CredentialResolver {
    /// A resolver for one push, which has not offered the agent yet.
    /// `helper_username` is the user name that the credential helper is
    /// configured with, if it is configured with one.
    pub fn new(helper_username: Option<&str>) -> (resolver: CredentialResolver)
        ensures
            resolver@ == (ResolverView {
                tried_agent: false,
                helper_username: spec_opt_str(helper_username),
            }),
    {
        CredentialResolver {
            tried_agent: false,
            helper_username: match helper_username {
                Some(u) => Some(String::from_str(u)),
                None => None,
            },
        }
    }

    /// Whether the SSH agent has been offered.
    pub fn tried_agent(&self) -> (tried: bool)
        ensures
            tried == self@.tried_agent,
    {
        self.tried_agent
    }

    /// The user name for an SSH credential.
    fn username(&self, username_from_url: Option<&str>) -> (name: String)
        ensures
            name@ == spec_username(self@, spec_opt_str(username_from_url)),
    {
        match username_from_url {
            Some(u) => String::from_str(u),
            None => match &self.helper_username {
                Some(u) => u.clone(),
                None => String::from_str("git"),
            },
        }
    }

    /// The credential to offer for a request of the remote at `url`.
    ///
    /// `username_from_url` is the user name that the address holds,
    /// `allowed` the kinds of credential that the remote accepts and `home`
    /// the home directory of the user, each as far as it is known. Where an
    /// SSH key is accepted, the first request gets the agent and the later
    /// ones the key file `.ssh/id_rsa` under `home`, which fails with
    /// `NoHomeDirectory` if `home` is not known. Else the credential helper
    /// is offered if a password is accepted, else the default credential if
    /// that is accepted; if nothing is, the request fails with
    /// `NoAuthenticationAvailable`.
    pub fn resolve(
        &mut self,
        url: &str,
        username_from_url: Option<&str>,
        allowed: AllowedMethods,
        home: Option<&str>,
    ) -> (r: Result<Credential, CredentialError>)
        ensures
            final(self)@ == spec_next(
                old(self)@,
                Request {
                    url: url@,
                    username: spec_opt_str(username_from_url),
                    allowed,
                    home: spec_opt_str(home),
                },
            ),
            match spec_answer(
                old(self)@,
                Request {
                    url: url@,
                    username: spec_opt_str(username_from_url),
                    allowed,
                    home: spec_opt_str(home),
                },
            ) {
                Ok(c) => r matches Ok(credential) && credential@ == c,
                Err(e) => r matches Err(error) && error == e,
            },
    {
        if allowed.ssh_key {
            let username = self.username(username_from_url);
            if !self.tried_agent {
                self.tried_agent = true;
                Ok(Credential::SshAgent { username })
            } else {
                match home {
                    Some(home) => {
                        let mut private_key = String::from_str(home);
                        private_key.append("/.ssh/id_rsa");
                        Ok(Credential::SshKeyFile { username, private_key })
                    },
                    None => Err(CredentialError::NoHomeDirectory),
                }
            }
        } else if allowed.user_pass_plaintext {
            Ok(
                Credential::Helper {
                    url: String::from_str(url),
                    hint: match username_from_url {
                        Some(u) => Some(String::from_str(u)),
                        None => None,
                    },
                },
            )
        } else if allowed.default {
            Ok(Credential::Default)
        } else {
            Err(CredentialError::NoAuthenticationAvailable)
        }
    }
}

} // verus!
