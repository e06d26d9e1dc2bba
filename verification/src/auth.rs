//! The credential model and the credential provider chain: an ordered list
//! of providers that is asked, one provider after the other, for a
//! credential of one kind, and the store of what may be kept.

use vstd::prelude::*;
use crate::common::{map_py_err_to_svn_err, ErrorChain, RaisedException};

verus! {

/// The kind of credential that a provider produces.
#[derive(Clone, Copy, Debug, PartialEq, Eq, Structural)]
pub enum CredKind {
    Simple,
    Username,
    SslClientCert,
    SslClientCertPw,
    SslServerTrust,
}

impl CredKind {
    /// The word by which the kind is known outside the engine.
    pub open spec fn name(self) -> Seq<char> {
        match self {
            CredKind::Simple => "svn.simple"@,
            CredKind::Username => "svn.username"@,
            CredKind::SslClientCert => "svn.ssl.client-cert"@,
            CredKind::SslClientCertPw => "svn.ssl.client-passphrase"@,
            CredKind::SslServerTrust => "svn.ssl.server"@,
        }
    }

    pub fn as_str(self) -> (word: &'static str)
        ensures
            word@ == self.name(),
    {
        match self {
            CredKind::Simple => "svn.simple",
            CredKind::Username => "svn.username",
            CredKind::SslClientCert => "svn.ssl.client-cert",
            CredKind::SslClientCertPw => "svn.ssl.client-passphrase",
            CredKind::SslServerTrust => "svn.ssl.server",
        }
    }
}

/// A user name and a password.
#[derive(Debug)]
pub struct SimpleCredentials {
    pub username: String,
    pub password: String,
    pub may_save: bool,
}

/// A client certificate, with the passphrase that opens it where one is
/// needed.
#[derive(Debug)]
pub struct SslClientCertCredentials {
    pub cert_file: String,
    pub passphrase: Option<String>,
    pub may_save: bool,
}

/// The decision to trust a server certificate in spite of the failures
/// whose bits are set.
#[derive(Clone, Copy, Debug, PartialEq, Eq, Structural)]
pub struct SslServerTrust {
    pub accepted_failures: u32,
    pub may_save: bool,
}

/// What is shown of a server certificate before the decision to trust it.
#[derive(Debug)]
pub struct SslServerCertInfo {
    pub hostname: String,
    pub fingerprint: String,
    pub valid_from: String,
    pub valid_until: String,
    pub issuer_dname: String,
    pub ascii_cert: String,
}

/// Authentication material for one attempt.
#[derive(Debug)]
pub enum Credential {
    Simple(SimpleCredentials),
    SslClientCert(SslClientCertCredentials),
    SslServerTrust(SslServerTrust),
}

/// A credential as plain values.
pub enum CredentialView {
    Simple { username: Seq<char>, password: Seq<char>, may_save: bool },
    SslClientCert { cert_file: Seq<char>, passphrase: Option<Seq<char>>, may_save: bool },
    SslServerTrust { accepted_failures: u32, may_save: bool },
}

impl CredentialView {
    /// Whether the session may keep the credential beyond the exchange.
    pub open spec fn may_save(self) -> bool {
        match self {
            CredentialView::Simple { username, password, may_save } => may_save,
            CredentialView::SslClientCert { cert_file, passphrase, may_save } => may_save,
            CredentialView::SslServerTrust { accepted_failures, may_save } => may_save,
        }
    }

    /// Whether the credential has the shape that the kind asks for.
    pub open spec fn fits(self, kind: CredKind) -> bool {
        match self {
            CredentialView::Simple { username, password, may_save } => kind == CredKind::Simple
                || kind == CredKind::Username,
            CredentialView::SslClientCert { cert_file, passphrase, may_save } => kind
                == CredKind::SslClientCert || kind == CredKind::SslClientCertPw,
            CredentialView::SslServerTrust { accepted_failures, may_save } => kind
                == CredKind::SslServerTrust,
        }
    }
}

impl View for SimpleCredentials {
    type V = CredentialView;

    open spec fn view(&self) -> CredentialView {
        CredentialView::Simple {
            username: self.username@,
            password: self.password@,
            may_save: self.may_save,
        }
    }
}

impl View for SslClientCertCredentials {
    type V = CredentialView;

    open spec fn view(&self) -> CredentialView {
        CredentialView::SslClientCert {
            cert_file: self.cert_file@,
            passphrase: match self.passphrase {
                Some(p) => Some(p@),
                None => None,
            },
            may_save: self.may_save,
        }
    }
}

impl View for SslServerTrust {
    type V = CredentialView;

    open spec fn view(&self) -> CredentialView {
        CredentialView::SslServerTrust {
            accepted_failures: self.accepted_failures,
            may_save: self.may_save,
        }
    }
}

impl View for Credential {
    type V = CredentialView;

    open spec fn view(&self) -> CredentialView {
        match self {
            Credential::Simple(c) => c@,
            Credential::SslClientCert(c) => c@,
            Credential::SslServerTrust(c) => c@,
        }
    }
}

impl SimpleCredentials {
    pub fn new(username: String, password: String, may_save: bool) -> (credentials: SimpleCredentials)
        ensures
            credentials.username == username,
            credentials.password == password,
            credentials.may_save == may_save,
    {
        SimpleCredentials { username, password, may_save }
    }

    /// An independent copy that the receiver may keep.
    pub fn dup(&self) -> (copy: SimpleCredentials)
        ensures
            copy@ == self@,
    {
        SimpleCredentials {
            username: self.username.clone(),
            password: self.password.clone(),
            may_save: self.may_save,
        }
    }
}

impl SslClientCertCredentials {
    pub fn new(cert_file: String, passphrase: Option<String>, may_save: bool) -> (credentials:
        SslClientCertCredentials)
        ensures
            credentials.cert_file == cert_file,
            credentials.passphrase == passphrase,
            credentials.may_save == may_save,
    {
        SslClientCertCredentials { cert_file, passphrase, may_save }
    }

    /// An independent copy that the receiver may keep.
    pub fn dup(&self) -> (copy: SslClientCertCredentials)
        ensures
            copy@ == self@,
    {
        SslClientCertCredentials {
            cert_file: self.cert_file.clone(),
            passphrase: match &self.passphrase {
                Some(p) => Some(p.clone()),
                None => None,
            },
            may_save: self.may_save,
        }
    }
}

impl SslServerTrust {
    pub fn new(accepted_failures: u32, may_save: bool) -> (trust: SslServerTrust)
        ensures
            trust.accepted_failures == accepted_failures,
            trust.may_save == may_save,
    {
        SslServerTrust { accepted_failures, may_save }
    }

    /// Whether the decision covers a certificate with these failures:
    /// every failure of the certificate is among those accepted.
    pub open spec fn spec_accepts(self, failures: u32) -> bool {
        failures & !self.accepted_failures == 0
    }

    pub fn accepts(&self, failures: u32) -> (covered: bool)
        ensures
            covered == self.spec_accepts(failures),
    {
        failures & !self.accepted_failures == 0
    }

    /// An independent copy that the receiver may keep.
    pub fn dup(&self) -> (copy: SslServerTrust)
        ensures
            copy == *self,
    {
        SslServerTrust { accepted_failures: self.accepted_failures, may_save: self.may_save }
    }
}

impl SslServerCertInfo {
    /// An independent copy that the receiver may keep.
    pub fn dup(&self) -> (copy: SslServerCertInfo)
        ensures
            copy.hostname@ == self.hostname@,
            copy.fingerprint@ == self.fingerprint@,
            copy.valid_from@ == self.valid_from@,
            copy.valid_until@ == self.valid_until@,
            copy.issuer_dname@ == self.issuer_dname@,
            copy.ascii_cert@ == self.ascii_cert@,
    {
        SslServerCertInfo {
            hostname: self.hostname.clone(),
            fingerprint: self.fingerprint.clone(),
            valid_from: self.valid_from.clone(),
            valid_until: self.valid_until.clone(),
            issuer_dname: self.issuer_dname.clone(),
            ascii_cert: self.ascii_cert.clone(),
        }
    }
}

impl Credential {
    pub fn may_save(&self) -> (allowed: bool)
        ensures
            allowed == self@.may_save(),
    {
        match self {
            Credential::Simple(c) => c.may_save,
            Credential::SslClientCert(c) => c.may_save,
            Credential::SslServerTrust(c) => c.may_save,
        }
    }

    pub fn fits(&self, kind: CredKind) -> (fitting: bool)
        ensures
            fitting == self@.fits(kind),
    {
        match self {
            Credential::Simple(_) => kind == CredKind::Simple || kind == CredKind::Username,
            Credential::SslClientCert(_) => kind == CredKind::SslClientCert || kind
                == CredKind::SslClientCertPw,
            Credential::SslServerTrust(_) => kind == CredKind::SslServerTrust,
        }
    }

    /// An independent copy that the receiver may keep.
    pub fn dup(&self) -> (copy: Credential)
        ensures
            copy@ == self@,
    {
        match self {
            Credential::Simple(c) => Credential::Simple(c.dup()),
            Credential::SslClientCert(c) => Credential::SslClientCert(c.dup()),
            Credential::SslServerTrust(c) => Credential::SslServerTrust(c.dup()),
        }
    }
}

/// One strategy for producing a credential of one kind.
#[derive(Clone, Copy, Debug, PartialEq, Eq, Structural)]
pub struct AuthProvider {
    pub kind: CredKind,
    /// Whether the provider asks the user. One that does not looks its
    /// answer up and is asked once.
    pub interactive: bool,
    /// How often a provider that asks the user may be tried.
    pub retry_limit: usize,
}

impl AuthProvider {
    /// How often the chain may try the provider for one request.
    pub open spec fn attempt_limit(self) -> usize {
        if self.interactive {
            self.retry_limit
        } else {
            1
        }
    }

    /// How often the chain may try the provider for a request of `kind`:
    /// not at all where the provider is of another kind.
    pub open spec fn limit_for(self, kind: CredKind) -> usize {
        if self.kind == kind {
            self.attempt_limit()
        } else {
            0
        }
    }

    pub fn cred_kind(&self) -> (kind: CredKind)
        ensures
            kind == self.kind,
    {
        self.kind
    }

    pub fn limit(&self, kind: CredKind) -> (limit: usize)
        ensures
            limit == self.limit_for(kind),
    {
        if self.kind != kind {
            0
        } else if self.interactive {
            self.retry_limit
        } else {
            1
        }
    }
}

/// The provider that looks a user name and password up.
pub fn get_simple_provider() -> (provider: AuthProvider)
    ensures
        provider == (AuthProvider { kind: CredKind::Simple, interactive: false, retry_limit: 1 }),
{
    AuthProvider { kind: CredKind::Simple, interactive: false, retry_limit: 1 }
}

/// The provider that looks a user name up.
pub fn get_username_provider() -> (provider: AuthProvider)
    ensures
        provider == (AuthProvider { kind: CredKind::Username, interactive: false, retry_limit: 1 }),
{
    AuthProvider { kind: CredKind::Username, interactive: false, retry_limit: 1 }
}

/// The provider that looks a client certificate up.
pub fn get_ssl_client_cert_file_provider() -> (provider: AuthProvider)
    ensures
        provider == (AuthProvider {
            kind: CredKind::SslClientCert,
            interactive: false,
            retry_limit: 1,
        }),
{
    AuthProvider { kind: CredKind::SslClientCert, interactive: false, retry_limit: 1 }
}

/// The provider that looks the passphrase of a client certificate up.
pub fn get_ssl_client_cert_pw_file_provider() -> (provider: AuthProvider)
    ensures
        provider == (AuthProvider {
            kind: CredKind::SslClientCertPw,
            interactive: false,
            retry_limit: 1,
        }),
{
    AuthProvider { kind: CredKind::SslClientCertPw, interactive: false, retry_limit: 1 }
}

/// The provider that looks a decision on a server certificate up.
pub fn get_ssl_server_trust_file_provider() -> (provider: AuthProvider)
    ensures
        provider == (AuthProvider {
            kind: CredKind::SslServerTrust,
            interactive: false,
            retry_limit: 1,
        }),
{
    AuthProvider { kind: CredKind::SslServerTrust, interactive: false, retry_limit: 1 }
}

/// The provider that asks the user for a user name.
pub fn get_username_prompt_provider(retry_limit: usize) -> (provider: AuthProvider)
    ensures
        provider == (AuthProvider { kind: CredKind::Username, interactive: true, retry_limit }),
{
    AuthProvider { kind: CredKind::Username, interactive: true, retry_limit }
}

/// The provider that asks the user for a user name and password.
pub fn get_simple_prompt_provider(retry_limit: usize) -> (provider: AuthProvider)
    ensures
        provider == (AuthProvider { kind: CredKind::Simple, interactive: true, retry_limit }),
{
    AuthProvider { kind: CredKind::Simple, interactive: true, retry_limit }
}

/// The provider that asks the user whether to trust a server certificate.
/// It asks once.
pub fn get_ssl_server_trust_prompt_provider() -> (provider: AuthProvider)
    ensures
        provider == (AuthProvider {
            kind: CredKind::SslServerTrust,
            interactive: true,
            retry_limit: 1,
        }),
{
    AuthProvider { kind: CredKind::SslServerTrust, interactive: true, retry_limit: 1 }
}

/// The provider that asks the user for a client certificate.
pub fn get_ssl_client_cert_prompt_provider(retry_limit: usize) -> (provider: AuthProvider)
    ensures
        provider == (AuthProvider { kind: CredKind::SslClientCert, interactive: true, retry_limit }),
{
    AuthProvider { kind: CredKind::SslClientCert, interactive: true, retry_limit }
}

/// What a provider answered when it was tried.
#[derive(Debug)]
pub enum ProviderResponse {
    Success(Credential),
    /// The provider has no credential this time.
    Retry,
    /// The provider failed, which fails the request.
    Fatal(ErrorChain),
}

/// What the prompt of a provider gave, made an answer of the provider: the
/// credential, or the failure of the prompt caught and made an error chain.
pub fn prompt_response(answer: Result<Credential, RaisedException>) -> (response: ProviderResponse)
    ensures
        match answer {
            Ok(credential) => response matches ProviderResponse::Success(c) && c == credential,
            Err(raised) => response matches ProviderResponse::Fatal(e) && e.links()
                == raised.links(),
        },
{
    match answer {
        Ok(credential) => ProviderResponse::Success(credential),
        Err(raised) => ProviderResponse::Fatal(map_py_err_to_svn_err(raised)),
    }
}

/// The answer of a prompt for a user name and password.
pub fn simple_prompt_response(answer: Result<(String, String, bool), RaisedException>) -> (response:
    ProviderResponse)
    ensures
        match answer {
            Ok((username, password, may_save)) => response matches ProviderResponse::Success(c)
                && c@ == (CredentialView::Simple {
                username: username@,
                password: password@,
                may_save,
            }),
            Err(raised) => response matches ProviderResponse::Fatal(e) && e.links()
                == raised.links(),
        },
{
    match answer {
        Ok((username, password, may_save)) => ProviderResponse::Success(
            Credential::Simple(SimpleCredentials::new(username, password, may_save)),
        ),
        Err(raised) => ProviderResponse::Fatal(map_py_err_to_svn_err(raised)),
    }
}

/// The answer of a prompt for a user name alone. The credential may be
/// kept where the prompt was told so.
pub fn username_prompt_response(answer: Result<String, RaisedException>, may_save: bool) -> (response:
    ProviderResponse)
    ensures
        match answer {
            Ok(username) => response matches ProviderResponse::Success(c) && c@
                == (CredentialView::Simple {
                username: username@,
                password: Seq::<char>::empty(),
                may_save,
            }),
            Err(raised) => response matches ProviderResponse::Fatal(e) && e.links()
                == raised.links(),
        },
{
    match answer {
        Ok(username) => ProviderResponse::Success(
            Credential::Simple(SimpleCredentials::new(username, String::new(), may_save)),
        ),
        Err(raised) => ProviderResponse::Fatal(map_py_err_to_svn_err(raised)),
    }
}

/// The answer of a prompt on a server certificate.
pub fn ssl_server_trust_prompt_response(answer: Result<SslServerTrust, RaisedException>) -> (response:
    ProviderResponse)
    ensures
        match answer {
            Ok(trust) => response matches ProviderResponse::Success(c) && c@ == trust@,
            Err(raised) => response matches ProviderResponse::Fatal(e) && e.links()
                == raised.links(),
        },
{
    match answer {
        Ok(trust) => ProviderResponse::Success(Credential::SslServerTrust(trust.dup())),
        Err(raised) => ProviderResponse::Fatal(map_py_err_to_svn_err(raised)),
    }
}

/// The answer of a prompt for a client certificate.
pub fn ssl_client_cert_prompt_response(
    answer: Result<SslClientCertCredentials, RaisedException>,
) -> (response: ProviderResponse)
    ensures
        match answer {
            Ok(credentials) => response matches ProviderResponse::Success(c) && c@ == credentials@,
            Err(raised) => response matches ProviderResponse::Fatal(e) && e.links()
                == raised.links(),
        },
{
    match answer {
        Ok(credentials) => ProviderResponse::Success(Credential::SslClientCert(credentials.dup())),
        Err(raised) => ProviderResponse::Fatal(map_py_err_to_svn_err(raised)),
    }
}

/// The answer of a prompt that asks whether something may be kept.
pub fn may_save_prompt_response(answer: Result<bool, RaisedException>) -> (response: Result<
    bool,
    ErrorChain,
>)
    ensures
        match answer {
            Ok(allowed) => response == Ok::<bool, ErrorChain>(allowed),
            Err(raised) => response is Err && response.unwrap_err().links() == raised.links(),
        },
{
    match answer {
        Ok(allowed) => Ok(allowed),
        Err(raised) => Err(map_py_err_to_svn_err(raised)),
    }
}

} // verus!
