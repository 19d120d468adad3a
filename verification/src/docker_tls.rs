//! The TLS material authority: a single-use certificate authority, a server
//! certificate bound to the machine's address, and a client certificate.
//!
//! Keys and certificates are made by `rcgen`. What is asked of it for each
//! of the three certificates is a [`CertProfile`], which is decided here.
//! Whether it gives what it is asked for is its own affair; what the library
//! makes of each of its answers is said by the functions that take the
//! answer as an argument.

use crate::address::Ipv4;
use crate::text::{has_prefix, has_suffix, texts};
use vstd::prelude::*;
use vstd::string::*;

verus! {

/// A key pair of `rcgen`.
#[verifier::external_type_specification]
#[verifier::external_body]
pub struct ExKeyPair(rcgen::KeyPair);

/// A certificate of `rcgen`.
#[verifier::external_type_specification]
#[verifier::external_body]
pub struct ExCertificate(rcgen::Certificate);

/// The parameters of a certificate of `rcgen`.
#[verifier::external_type_specification]
#[verifier::external_body]
pub struct ExCertificateParams(rcgen::CertificateParams);

/// An error of `rcgen`.
#[verifier::external_type_specification]
#[verifier::external_body]
pub struct ExError(rcgen::Error);

/// What a certificate is for.
#[derive(Clone, Copy, Debug, PartialEq, Eq, Structural)]
pub enum CertRole {
    /// It signs the two others, without a limit on the chain.
    Authority,
    /// It authenticates the daemon.
    Server,
    /// It authenticates the client.
    Client,
}

/// The purpose to which the key of a certificate may be put.
#[derive(Clone, Copy, Debug, PartialEq, Eq, Structural)]
pub enum KeyPurpose {
    /// Authenticating a server.
    ServerAuth,
    /// Authenticating a client.
    ClientAuth,
}

/// What is asked of a certificate.
pub struct CertProfile {
    pub role: CertRole,
    /// The names and addresses that the certificate is valid for.
    pub subject_alt_names: Vec<String>,
}

/// Why the TLS material could not be made.
#[derive(Clone, Copy, Debug, PartialEq, Eq, Structural)]
pub enum TlsError {
    /// No key pair could be generated.
    KeyGeneration,
    /// The parameters of the certificate were refused.
    Parameters,
    /// The certificate could not be signed.
    Signing,
}

/// The certificate authority of one bring-up, and what was asked of its
/// certificate when it was made.
pub struct DockerCA {
    key_pair: rcgen::KeyPair,
    pub cert: rcgen::Certificate,
    pub profile: CertProfile,
}

/// A certificate with the key pair of its subject, the private key in PEM
/// as it was taken when the key was generated, and what was asked of the
/// certificate when it was made.
pub struct CertifiedKey {
    cert: rcgen::Certificate,
    key_pair: rcgen::KeyPair,
    private_key_pem: String,
    profile: CertProfile,
}

/// A fresh key pair with its private key in PEM.
pub struct GeneratedKey {
    key_pair: rcgen::KeyPair,
    private_key_pem: String,
}

/// The PEM document that `Certificate::pem` of `rcgen` makes of a
/// certificate, with the line ending of the system that the program is
/// built for.
pub uninterp spec fn pem_of(cert: rcgen::Certificate) -> Seq<char>;

/// The PEM document that `KeyPair::serialize_pem` of `rcgen` makes of the
/// private key of a key pair that `rcgen` holds itself.
pub uninterp spec fn key_pem_of(key_pair: rcgen::KeyPair) -> Seq<char>;

/// The parameters of a certificate of `rcgen` once their field `is_ca` says
/// that the certificate may sign others, without a limit on the chain.
pub uninterp spec fn unconstrained_ca(params: rcgen::CertificateParams) -> rcgen::CertificateParams;

/// The parameters of a certificate of `rcgen` once their field
/// `extended_key_usages` holds the one purpose `purpose`.
pub uninterp spec fn with_usage(
    params: rcgen::CertificateParams,
    purpose: KeyPurpose,
) -> rcgen::CertificateParams;

/// Whether `text` is framed as a PEM document of the given label with the
/// given line ending: it begins with the line that opens the document and
/// ends with the line that closes it.
pub open spec fn framed(text: Seq<char>, label: Seq<char>, line_ending: Seq<char>) -> bool {
    has_prefix(text, "-----BEGIN "@ + label + "-----"@ + line_ending) && has_suffix(
        text,
        "-----END "@ + label + "-----"@ + line_ending,
    )
}

/// Whether `text` is framed as a PEM document of the given label, with the
/// line ending of either kind of system.
pub open spec fn is_pem(text: Seq<char>, label: Seq<char>) -> bool {
    framed(text, label, "\n"@) || framed(text, label, "\r\n"@)
}

/// `KeyPair::generate` and `KeyPair::serialize_pem` of `rcgen`: a fresh key
/// pair, left to chance, and its private key as a PEM document of the label
/// `PRIVATE KEY`. The PEM is taken here because `serialize_pem` serves only
/// keys that `rcgen` holds itself, as it does those that it has generated.
#[verifier::external_body]
fn generate_key_pair() -> (generated: Result<GeneratedKey, rcgen::Error>)
    ensures
        generated matches Ok(key) ==> key.private_key_pem@ == key_pem_of(key.key_pair) && is_pem(
            key.private_key_pem@,
            "PRIVATE KEY"@,
        ),
{
    let key_pair = rcgen::KeyPair::generate()?;
    let private_key_pem = key_pair.serialize_pem();
    Ok(GeneratedKey { key_pair, private_key_pem })
}

/// `CertificateParams::new` of `rcgen`: parameters of a certificate that is
/// valid for the given names and addresses.
#[verifier::external_body]
fn new_params(subject_alt_names: Vec<String>) -> (params: Result<
    rcgen::CertificateParams,
    rcgen::Error,
>) {
    rcgen::CertificateParams::new(subject_alt_names)
}

/// Writes the field `is_ca` of `CertificateParams` of `rcgen`: the
/// certificate may sign others, without a limit on the chain.
#[verifier::external_body]
fn with_unconstrained_ca(params: rcgen::CertificateParams) -> (marked: rcgen::CertificateParams)
    ensures
        marked == unconstrained_ca(params),
{
    let mut params = params;
    params.is_ca = rcgen::IsCa::Ca(rcgen::BasicConstraints::Unconstrained);
    params
}

/// Writes the field `extended_key_usages` of `CertificateParams` of
/// `rcgen`: the certificate is for this one purpose.
#[verifier::external_body]
fn with_extended_key_usage(params: rcgen::CertificateParams, purpose: KeyPurpose) -> (marked:
    rcgen::CertificateParams)
    ensures
        marked == with_usage(params, purpose),
{
    let mut params = params;
    params.extended_key_usages = vec![
        match purpose {
            KeyPurpose::ServerAuth => rcgen::ExtendedKeyUsagePurpose::ServerAuth,
            KeyPurpose::ClientAuth => rcgen::ExtendedKeyUsagePurpose::ClientAuth,
        },
    ];
    params
}

/// `CertificateParams::self_signed` of `rcgen`.
#[verifier::external_body]
fn self_signed(params: rcgen::CertificateParams, key_pair: &rcgen::KeyPair) -> (cert: Result<
    rcgen::Certificate,
    rcgen::Error,
>) {
    params.self_signed(key_pair)
}

/// `CertificateParams::signed_by` of `rcgen`.
#[verifier::external_body]
fn signed_by(
    params: rcgen::CertificateParams,
    key_pair: &rcgen::KeyPair,
    issuer: &rcgen::Certificate,
    issuer_key: &rcgen::KeyPair,
) -> (cert: Result<rcgen::Certificate, rcgen::Error>) {
    params.signed_by(key_pair, issuer, issuer_key)
}

/// `Certificate::pem` of `rcgen`: the certificate as a PEM document of the
/// label `CERTIFICATE`.
#[verifier::external_body]
fn certificate_pem(cert: &rcgen::Certificate) -> (pem: String)
    ensures
        pem@ == pem_of(*cert),
        is_pem(pem@, "CERTIFICATE"@),
{
    cert.pem()
}

impl CertRole {
    /// The purpose of the key of a certificate of this role; the authority
    /// has none, as it only signs.
    pub fn key_purpose(&self) -> (purpose: Option<KeyPurpose>)
        ensures
            purpose == match *self {
                CertRole::Authority => None::<KeyPurpose>,
                CertRole::Server => Some(KeyPurpose::ServerAuth),
                CertRole::Client => Some(KeyPurpose::ClientAuth),
            },
    {
        match self {
            CertRole::Authority => None,
            CertRole::Server => Some(KeyPurpose::ServerAuth),
            CertRole::Client => Some(KeyPurpose::ClientAuth),
        }
    }

    /// The parameters of a certificate once they are marked for this role:
    /// the authority may sign without a limit on the chain, the server and
    /// the client have the one purpose of authenticating themselves.
    pub open spec fn marked(self, params: rcgen::CertificateParams) -> rcgen::CertificateParams {
        match self {
            CertRole::Authority => unconstrained_ca(params),
            CertRole::Server => with_usage(params, KeyPurpose::ServerAuth),
            CertRole::Client => with_usage(params, KeyPurpose::ClientAuth),
        }
    }
}

impl GeneratedKey {
    #[verifier::type_invariant]
    spec fn well_formed(self) -> bool {
        self.private_key_pem@ == key_pem_of(self.key_pair) && is_pem(
            self.private_key_pem@,
            "PRIVATE KEY"@,
        )
    }

    /// The key pair.
    pub closed spec fn pair(&self) -> rcgen::KeyPair {
        self.key_pair
    }

    /// Asks `rcgen` for a fresh key pair; whether one comes is its to
    /// decide.
    pub fn generate() -> (key: Result<GeneratedKey, TlsError>)
        ensures
            key is Err ==> key == Err::<GeneratedKey, TlsError>(TlsError::KeyGeneration),
    {
        generated_key(generate_key_pair())
    }

    /// The key pair.
    pub fn key_pair(&self) -> (key_pair: &rcgen::KeyPair)
        ensures
            *key_pair == self.pair(),
    {
        &self.key_pair
    }

    /// The private key, as the PEM document that was taken when the key
    /// was generated.
    pub fn key_pem(&self) -> (pem: String)
        ensures
            pem@ == key_pem_of(self.pair()),
            is_pem(pem@, "PRIVATE KEY"@),
    {
        proof {
            use_type_invariant(self);
        }
        self.private_key_pem.clone()
    }
}

/// Takes the answer to the request for a key pair: the key pair that came,
/// or the error that none could be generated.
pub fn generated_key(generated: Result<GeneratedKey, rcgen::Error>) -> (key: Result<
    GeneratedKey,
    TlsError,
>)
    ensures
        match generated {
            Ok(pair) => key == Ok::<GeneratedKey, TlsError>(pair),
            Err(_) => key == Err::<GeneratedKey, TlsError>(TlsError::KeyGeneration),
        },
{
    match generated {
        Ok(pair) => Ok(pair),
        Err(_) => Err(TlsError::KeyGeneration),
    }
}

/// Takes the answer to the request for parameters and marks the parameters
/// that came for their role; the error is that they were refused.
pub fn marked_params(made: Result<rcgen::CertificateParams, rcgen::Error>, role: CertRole) -> (params:
    Result<rcgen::CertificateParams, TlsError>)
    ensures
        match made {
            Ok(given) => params == Ok::<rcgen::CertificateParams, TlsError>(role.marked(given)),
            Err(_) => params == Err::<rcgen::CertificateParams, TlsError>(TlsError::Parameters),
        },
{
    match made {
        Ok(params) => match role.key_purpose() {
            None => Ok(with_unconstrained_ca(params)),
            Some(purpose) => Ok(with_extended_key_usage(params, purpose)),
        },
        Err(_) => Err(TlsError::Parameters),
    }
}

/// Takes the answer to the request for a signature: the certificate that
/// came, with its key and what was asked of it, or the error that it could
/// not be signed.
pub fn certified(
    signed: Result<rcgen::Certificate, rcgen::Error>,
    key: GeneratedKey,
    profile: CertProfile,
) -> (issued: Result<CertifiedKey, TlsError>)
    ensures
        match signed {
            Ok(cert) => {
                &&& issued is Ok
                &&& issued->Ok_0.certificate() == cert
                &&& issued->Ok_0.pair() == key.pair()
                &&& issued->Ok_0.asked() == profile
            },
            Err(_) => issued == Err::<CertifiedKey, TlsError>(TlsError::Signing),
        },
{
    proof {
        use_type_invariant(&key);
    }
    match signed {
        Ok(cert) => Ok(
            CertifiedKey {
                cert,
                key_pair: key.key_pair,
                private_key_pem: key.private_key_pem,
                profile,
            },
        ),
        Err(_) => Err(TlsError::Signing),
    }
}

/// The parameters of a certificate of the given profile: those that `rcgen`
/// makes for the names of the profile, marked for its role. The one error
/// is that `rcgen` refuses the names.
fn certificate_params(profile: &CertProfile) -> (params: Result<rcgen::CertificateParams, TlsError>)
    ensures
        params is Err ==> params == Err::<rcgen::CertificateParams, TlsError>(
            TlsError::Parameters,
        ),
{
    marked_params(new_params(profile.subject_alt_names.clone()), profile.role)
}

impl CertProfile {
    /// The profile of the authority: it is valid for no name.
    pub fn authority() -> (profile: CertProfile)
        ensures
            profile.role == CertRole::Authority,
            profile.subject_alt_names@.len() == 0,
    {
        CertProfile { role: CertRole::Authority, subject_alt_names: Vec::new() }
    }

    /// The profile of the server: it is valid for the address of the
    /// machine, and for nothing else.
    pub fn server(ip: Ipv4) -> (profile: CertProfile)
        ensures
            profile.role == CertRole::Server,
            texts(profile.subject_alt_names@) == seq![ip.dotted()],
    {
        let mut subject_alt_names: Vec<String> = Vec::new();
        subject_alt_names.push(ip.to_text());
        assert(texts(subject_alt_names@) =~= seq![ip.dotted()]);
        CertProfile { role: CertRole::Server, subject_alt_names }
    }

    /// The profile of the client: it is valid for no name.
    pub fn client() -> (profile: CertProfile)
        ensures
            profile.role == CertRole::Client,
            profile.subject_alt_names@.len() == 0,
    {
        CertProfile { role: CertRole::Client, subject_alt_names: Vec::new() }
    }
}

/// Makes a certificate of the given profile for a fresh key pair, signed by
/// `issuer`.
///
/// Whether a key pair is generated, the parameters are taken and the
/// certificate is signed is decided by `rcgen`, in this order; the first
/// refusal is the error. A certificate that is issued keeps the profile
/// that was asked for.
fn issue(profile: CertProfile, issuer: &DockerCA) -> (issued: Result<CertifiedKey, TlsError>)
    ensures
        issued matches Ok(key) ==> key.asked() == profile && is_pem(
            key_pem_of(key.pair()),
            "PRIVATE KEY"@,
        ),
{
    let key = match GeneratedKey::generate() {
        Ok(key) => key,
        Err(error) => {
            return Err(error);
        },
    };
    let params = match certificate_params(&profile) {
        Ok(params) => params,
        Err(error) => {
            return Err(error);
        },
    };
    let signed = signed_by(params, &key.key_pair, &issuer.cert, &issuer.key_pair);
    let issued = certified(signed, key, profile);
    proof {
        match &issued {
            Ok(made) => {
                use_type_invariant(made);
            },
            Err(_) => {},
        }
    }
    issued
}

impl DockerCA {
    /// What was asked of the authority's certificate when it was made.
    pub closed spec fn asked(&self) -> CertProfile {
        self.profile
    }

    /// The certificate of the authority.
    pub closed spec fn certificate(&self) -> rcgen::Certificate {
        self.cert
    }

    /// Takes the answer to the request for the authority's own signature:
    /// the authority with the certificate that came, or the error that it
    /// could not be signed.
    pub fn authority(
        signed: Result<rcgen::Certificate, rcgen::Error>,
        key: GeneratedKey,
        profile: CertProfile,
    ) -> (ca: Result<DockerCA, TlsError>)
        ensures
            signed is Ok <==> ca is Ok,
            ca matches Ok(made) ==> made.certificate() == signed->Ok_0 && made.asked()
                == profile,
            ca is Err ==> ca == Err::<DockerCA, TlsError>(TlsError::Signing),
    {
        match signed {
            Ok(cert) => Ok(DockerCA { key_pair: key.key_pair, cert, profile }),
            Err(_) => Err(TlsError::Signing),
        }
    }

    /// Makes a fresh authority: a key pair and its self-signed certificate.
    ///
    /// What is asked of `rcgen` is the certificate of an authority that may
    /// sign without a limit on the chain and is valid for no name, signed
    /// with its own fresh key; the authority that is made keeps that
    /// request. Whether it is made is decided by `rcgen`.
    pub fn new() -> (ca: Result<DockerCA, TlsError>)
        ensures
            ca matches Ok(made) ==> made.asked().role == CertRole::Authority
                && made.asked().subject_alt_names@.len() == 0,
    {
        let profile = CertProfile::authority();
        let key = match GeneratedKey::generate() {
            Ok(key) => key,
            Err(error) => {
                return Err(error);
            },
        };
        let params = match certificate_params(&profile) {
            Ok(params) => params,
            Err(error) => {
                return Err(error);
            },
        };
        let signed = self_signed(params, &key.key_pair);
        DockerCA::authority(signed, key, profile)
    }

    /// Makes the certificate of the daemon on the machine at `ip`, signed
    /// by this authority: what is asked for is a server's certificate that
    /// is valid for that address and for nothing else.
    pub fn create_server_cert(&self, ip: Ipv4) -> (issued: Result<CertifiedKey, TlsError>)
        ensures
            issued matches Ok(key) ==> {
                &&& key.asked().role == CertRole::Server
                &&& texts(key.asked().subject_alt_names@) == seq![ip.dotted()]
                &&& is_pem(key_pem_of(key.pair()), "PRIVATE KEY"@)
            },
    {
        issue(CertProfile::server(ip), self)
    }

    /// Makes the certificate of the client, signed by this authority: what
    /// is asked for is a client's certificate that is valid for no name.
    pub fn create_client_cert(&self) -> (issued: Result<CertifiedKey, TlsError>)
        ensures
            issued matches Ok(key) ==> {
                &&& key.asked().role == CertRole::Client
                &&& key.asked().subject_alt_names@.len() == 0
                &&& is_pem(key_pem_of(key.pair()), "PRIVATE KEY"@)
            },
    {
        issue(CertProfile::client(), self)
    }

    /// The certificate of the authority, as a PEM document.
    pub fn cert_pem(&self) -> (pem: String)
        ensures
            pem@ == pem_of(self.certificate()),
            is_pem(pem@, "CERTIFICATE"@),
    {
        certificate_pem(&self.cert)
    }
}

impl CertifiedKey {
    #[verifier::type_invariant]
    spec fn well_formed(self) -> bool {
        self.private_key_pem@ == key_pem_of(self.key_pair) && is_pem(
            self.private_key_pem@,
            "PRIVATE KEY"@,
        )
    }

    /// The certificate.
    pub closed spec fn certificate(&self) -> rcgen::Certificate {
        self.cert
    }

    /// The key pair of the certificate's subject.
    pub closed spec fn pair(&self) -> rcgen::KeyPair {
        self.key_pair
    }

    /// What was asked of the certificate when it was made.
    pub closed spec fn asked(&self) -> CertProfile {
        self.profile
    }

    /// The certificate.
    pub fn cert(&self) -> (cert: &rcgen::Certificate)
        ensures
            *cert == self.certificate(),
    {
        &self.cert
    }

    /// The key pair of the certificate's subject.
    pub fn key_pair(&self) -> (key_pair: &rcgen::KeyPair)
        ensures
            *key_pair == self.pair(),
    {
        &self.key_pair
    }

    /// What was asked of the certificate when it was made.
    pub fn profile(&self) -> (profile: &CertProfile)
        ensures
            *profile == self.asked(),
    {
        &self.profile
    }

    /// The certificate, as a PEM document.
    pub fn cert_pem(&self) -> (pem: String)
        ensures
            pem@ == pem_of(self.certificate()),
            is_pem(pem@, "CERTIFICATE"@),
    {
        certificate_pem(&self.cert)
    }

    /// The private key of the key pair, as the PEM document that was taken
    /// when the key was generated.
    pub fn key_pem(&self) -> (pem: String)
        ensures
            pem@ == key_pem_of(self.pair()),
            is_pem(pem@, "PRIVATE KEY"@),
    {
        proof {
            use_type_invariant(self);
        }
        self.private_key_pem.clone()
    }
}

impl TlsError {
    /// The message of the error.
    pub fn message(&self) -> (message: &'static str)
        ensures
            message@ == match *self {
                TlsError::KeyGeneration => "could not generate a key pair"@,
                TlsError::Parameters => "invalid certificate parameters"@,
                TlsError::Signing => "could not sign the certificate"@,
            },
    {
        match self {
            TlsError::KeyGeneration => "could not generate a key pair",
            TlsError::Parameters => "invalid certificate parameters",
            TlsError::Signing => "could not sign the certificate",
        }
    }
}

} // verus!
