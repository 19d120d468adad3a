//! The Docker context artifact: the files that make a Docker client talk to
//! the remote daemon, and the supervision of a published context.
//!
//! The files are written and removed by the program around this library;
//! which files, where and with what content is decided here.

use crate::address::Ipv4;
use crate::docker_tls::{key_pem_of, pem_of, CertifiedKey, DockerCA};
use crate::text::has_prefix;
use sha2::Digest;
use vstd::prelude::*;
use vstd::string::*;
use vstd::utf8::*;

verus! {

/// The SHA-256 digest of a byte string, as `sha2::Sha256` computes it.
pub uninterp spec fn sha256_of(data: Seq<u8>) -> Seq<u8>;

/// The JSON string literal for a text, as `serde_json::to_string` writes it:
/// the text between double quotes, with the characters escaped that JSON
/// does not take as they are.
pub uninterp spec fn json_quoted(text: Seq<char>) -> Seq<char>;

/// `Sha256::new`, `update` and `finalize` of `sha2`: the digest of `data`,
/// which is made of 32 bytes.
#[verifier::external_body]
fn sha256_digest(data: &[u8]) -> (digest: Vec<u8>)
    ensures
        digest@ == sha256_of(data@),
        digest@.len() == 32,
{
    let mut hasher = sha2::Sha256::new();
    hasher.update(data);
    hasher.finalize().to_vec()
}

/// `hex::encode`: two lower-case hexadecimal digits for each byte.
#[verifier::external_body]
fn hex_encode(bytes: &Vec<u8>) -> (encoded: String)
    ensures
        encoded@ == hex_lower(bytes@),
{
    hex::encode(bytes)
}

/// `serde_json::to_string` of a string slice: its JSON string literal.
#[verifier::external_body]
fn json_string(text: &str) -> (quoted: String)
    ensures
        quoted@ == json_quoted(text@),
{
    serde_json::to_string(text).unwrap_or_default()
}

/// The lower-case hexadecimal digit for a value below 16.
pub open spec fn hex_digit(value: int) -> char {
    if value < 10 {
        ((48 + value) as u8) as char
    } else {
        ((87 + value) as u8) as char
    }
}

/// The lower-case hexadecimal notation of a byte string.
pub open spec fn hex_lower(bytes: Seq<u8>) -> Seq<char> {
    Seq::new(
        2 * bytes.len(),
        |i: int|
            if i % 2 == 0 {
                hex_digit(bytes[i / 2] as int / 16)
            } else {
                hex_digit(bytes[i / 2] as int % 16)
            },
    )
}

/// The SHA-256 digest of `x`, in lower-case hexadecimal notation.
pub fn sha256(x: &[u8]) -> (digest: String)
    ensures
        digest@ == hex_lower(sha256_of(x@)),
        digest@.len() == 64,
{
    let digest = sha256_digest(x);
    hex_encode(&digest)
}

/// The name of a context's directories: the digest of the UTF-8 bytes of
/// the context's name.
pub open spec fn context_hash(name: Seq<char>) -> Seq<char> {
    hex_lower(sha256_of(encode_utf8(name)))
}

/// A file of the artifact.
#[derive(Clone, Copy, Debug, PartialEq, Eq, Structural)]
pub enum ContextFile {
    /// The description of the context and its endpoint.
    Meta,
    /// The certificate of the authority.
    CaCert,
    /// The certificate of the client.
    ClientCert,
    /// The private key of the client.
    ClientKey,
}

/// A published Docker context: its name and its two directories.
pub struct DockerContext {
    name: String,
    meta_dir: String,
    tls_dir: String,
}

/// A context of this name exists already.
pub struct AlreadyExists {
    pub name: String,
}

/// The endpoint of the daemon on the machine at `ip`.
pub open spec fn endpoint_host(ip: Ipv4) -> Seq<char> {
    "tcp://"@ + ip.dotted() + ":2376"@
}

/// The content of `meta.json`: the name of the context, no metadata, and
/// the one endpoint `docker`, with TLS verification on.
pub open spec fn meta_json_text(name: Seq<char>, host: Seq<char>) -> Seq<char> {
    "{\"Name\":"@ + json_quoted(name) + ",\"Metadata\":{},\"Endpoints\":{\"docker\":{\"Host\":"@
        + json_quoted(host) + ",\"SkipTLSVerify\":false}}}"@
}

/// The directory of a context's description below the home directory.
pub open spec fn meta_dir_text(home: Seq<char>, hash: Seq<char>) -> Seq<char> {
    home + "/.docker/contexts/meta/"@ + hash
}

/// The directory of a context's TLS material below the home directory.
pub open spec fn tls_dir_text(home: Seq<char>, hash: Seq<char>) -> Seq<char> {
    home + "/.docker/contexts/tls/"@ + hash
}

/// A file of the artifact, ready to be written.
pub struct ArtifactFile {
    pub file: ContextFile,
    pub path: String,
    pub content: String,
}

impl ContextFile {
    /// What the file holds: the description of the context, the
    /// certificate of the authority, the certificate of the client, or the
    /// private key of the client, each certificate and the key as the PEM
    /// document that `rcgen` makes of it.
    pub open spec fn content_text(
        self,
        meta_json: Seq<char>,
        ca: DockerCA,
        client: CertifiedKey,
    ) -> Seq<char> {
        match self {
            ContextFile::Meta => meta_json,
            ContextFile::CaCert => pem_of(ca.certificate()),
            ContextFile::ClientCert => pem_of(client.certificate()),
            ContextFile::ClientKey => key_pem_of(client.pair()),
        }
    }

    /// Writes out what the file holds.
    pub fn content(self, meta_json: &str, ca: &DockerCA, client: &CertifiedKey) -> (content:
        String)
        ensures
            content@ == self.content_text(meta_json@, *ca, *client),
    {
        match self {
            ContextFile::Meta => meta_json.to_owned(),
            ContextFile::CaCert => ca.cert_pem(),
            ContextFile::ClientCert => client.cert_pem(),
            ContextFile::ClientKey => client.key_pem(),
        }
    }

    /// The four files of the artifact, in the order in which they are
    /// written.
    pub open spec fn every() -> Seq<ContextFile> {
        seq![
            ContextFile::Meta,
            ContextFile::CaCert,
            ContextFile::ClientCert,
            ContextFile::ClientKey,
        ]
    }

    /// Where the file lies, given the two directories of the context.
    pub open spec fn path_text(self, meta_dir: Seq<char>, tls_dir: Seq<char>) -> Seq<char> {
        match self {
            ContextFile::Meta => meta_dir + "/meta.json"@,
            ContextFile::CaCert => tls_dir + "/docker/ca.pem"@,
            ContextFile::ClientCert => tls_dir + "/docker/cert.pem"@,
            ContextFile::ClientKey => tls_dir + "/docker/key.pem"@,
        }
    }
}

/// Writes the address of the daemon's endpoint.
pub fn docker_host(ip: Ipv4) -> (host: String)
    ensures
        host@ == endpoint_host(ip),
{
    let mut host = String::from_str("tcp://");
    host.append(ip.to_text().as_str());
    host.append(":2376");
    host
}

/// Writes the content of `meta.json` for the context `name` on the machine
/// at `ip`.
pub fn meta_json(name: &str, ip: Ipv4) -> (json: String)
    ensures
        json@ == meta_json_text(name@, endpoint_host(ip)),
{
    let host = docker_host(ip);
    let mut json = String::from_str("{\"Name\":");
    json.append(json_string(name).as_str());
    json.append(",\"Metadata\":{},\"Endpoints\":{\"docker\":{\"Host\":");
    json.append(json_string(host.as_str()).as_str());
    json.append(",\"SkipTLSVerify\":false}}}");
    json
}

/// Puts the two directories of a context together from the home directory
/// and the hash of the context's name.
pub fn context_dirs(home: &str, hash: &str) -> (dirs: (String, String))
    ensures
        dirs.0@ == meta_dir_text(home@, hash@),
        dirs.1@ == tls_dir_text(home@, hash@),
{
    let mut meta_dir = String::from_str(home);
    meta_dir.append("/.docker/contexts/meta/");
    meta_dir.append(hash);
    let mut tls_dir = String::from_str(home);
    tls_dir.append("/.docker/contexts/tls/");
    tls_dir.append(hash);
    (meta_dir, tls_dir)
}

impl DockerContext {
    /// The name of the context.
    pub closed spec fn name_text(&self) -> Seq<char> {
        self.name@
    }

    /// The directory of the context's description.
    pub closed spec fn meta_dir(&self) -> Seq<char> {
        self.meta_dir@
    }

    /// The directory of the context's TLS material.
    pub closed spec fn tls_dir(&self) -> Seq<char> {
        self.tls_dir@
    }

    /// Lays out the context `name` below the home directory `home`.
    ///
    /// The directories are named by the SHA-256 digest of the name's UTF-8
    /// bytes, in lower-case hexadecimal notation. A context whose
    /// description directory exists already is not laid out again.
    pub fn new(name: String, home: &str, meta_dir_exists: bool) -> (context: Result<
        DockerContext,
        AlreadyExists,
    >)
        ensures
            meta_dir_exists <==> context is Err,
            context matches Err(e) ==> e.name@ == name@,
            context matches Ok(c) ==> c.name_text() == name@ && c.meta_dir() == meta_dir_text(
                home@,
                context_hash(name@),
            ) && c.tls_dir() == tls_dir_text(home@, context_hash(name@)),
    {
        if meta_dir_exists {
            return Err(AlreadyExists { name });
        }
        let hash = sha256(name.as_str().as_bytes());
        let (meta_dir, tls_dir) = context_dirs(home, hash.as_str());
        Ok(DockerContext { name, meta_dir, tls_dir })
    }

    /// Where the description directory of the context `name` lies: the
    /// directory to look for before the context is laid out.
    pub fn meta_dir_of(name: &str, home: &str) -> (dir: String)
        ensures
            dir@ == meta_dir_text(home@, context_hash(name@)),
    {
        let hash = sha256(name.as_bytes());
        context_dirs(home, hash.as_str()).0
    }

    /// The name of the context.
    pub fn name(&self) -> (name: &str)
        ensures
            name@ == self.name_text(),
    {
        self.name.as_str()
    }

    /// The directories to create before the files are written.
    pub fn directories(&self) -> (dirs: (String, String))
        ensures
            dirs.0@ == self.meta_dir(),
            dirs.1@ == self.tls_dir() + "/docker"@,
    {
        let mut docker = self.tls_dir.clone();
        docker.append("/docker");
        (self.meta_dir.clone(), docker)
    }

    /// Where a file of the artifact lies.
    pub fn path(&self, file: ContextFile) -> (path: String)
        ensures
            path@ == file.path_text(self.meta_dir(), self.tls_dir()),
    {
        match file {
            ContextFile::Meta => {
                let mut path = self.meta_dir.clone();
                path.append("/meta.json");
                path
            },
            ContextFile::CaCert => {
                let mut path = self.tls_dir.clone();
                path.append("/docker/ca.pem");
                path
            },
            ContextFile::ClientCert => {
                let mut path = self.tls_dir.clone();
                path.append("/docker/cert.pem");
                path
            },
            ContextFile::ClientKey => {
                let mut path = self.tls_dir.clone();
                path.append("/docker/key.pem");
                path
            },
        }
    }

    /// The files of the artifact for the machine at `ip`, each with its
    /// path and with what it holds: the description of this context with
    /// its endpoint, the certificate of the authority, and the certificate
    /// and private key of the client.
    pub fn files(&self, ip: Ipv4, ca: &DockerCA, client: &CertifiedKey) -> (files: Vec<
        ArtifactFile,
    >)
        ensures
            files@.len() == 4,
            forall|i: int|
                0 <= i < 4 ==> {
                    let file = ContextFile::every()[i];
                    &&& (#[trigger] files@[i]).file == file
                    &&& files@[i].path@ == file.path_text(self.meta_dir(), self.tls_dir())
                    &&& files@[i].content@ == file.content_text(
                        meta_json_text(self.name_text(), endpoint_host(ip)),
                        *ca,
                        *client,
                    )
                },
    {
        let description = meta_json(self.name.as_str(), ip);
        let mut files: Vec<ArtifactFile> = Vec::new();
        files.push(self.file(ContextFile::Meta, description.as_str(), ca, client));
        files.push(self.file(ContextFile::CaCert, description.as_str(), ca, client));
        files.push(self.file(ContextFile::ClientCert, description.as_str(), ca, client));
        files.push(self.file(ContextFile::ClientKey, description.as_str(), ca, client));
        files
    }

    /// One file of the artifact with its path and what it holds.
    fn file(&self, file: ContextFile, meta_json: &str, ca: &DockerCA, client: &CertifiedKey) -> (made:
        ArtifactFile)
        ensures
            made.file == file,
            made.path@ == file.path_text(self.meta_dir(), self.tls_dir()),
            made.content@ == file.content_text(meta_json@, *ca, *client),
    {
        ArtifactFile { file, path: self.path(file), content: file.content(meta_json, ca, client) }
    }

    /// The directories to remove, with all they hold, when the context ends.
    pub fn teardown(&self) -> (dirs: (String, String))
        ensures
            dirs.0@ == self.meta_dir(),
            dirs.1@ == self.tls_dir(),
    {
        (self.meta_dir.clone(), self.tls_dir.clone())
    }

    /// Polls the two activities of a published context: the result of the
    /// keepalive if it has ended, else that of the daemon if it has ended,
    /// else nothing yet.
    pub fn poll<R>(keepalive: Option<R>, dockerd: Option<R>) -> (ended: Option<R>)
        ensures
            ended == match keepalive {
                Some(result) => Some(result),
                None => dockerd,
            },
    {
        match keepalive {
            Some(result) => Some(result),
            None => dockerd,
        }
    }

    /// The result of a task that ran under the context's supervision, given
    /// which of the two ended first: the task's own result, or an error that
    /// says that the context failed before the task was done.
    pub fn wrap<T>(first: Raced<T>) -> (result: Result<T, String>)
        ensures
            match first {
                Raced::Task(Ok(value)) => result == Ok::<T, String>(value),
                Raced::Task(Err(error)) => result is Err && result->Err_0@ == error@,
                Raced::Context(error) => result is Err && result->Err_0@ == context_failure(
                    error@,
                ),
            },
    {
        match first {
            Raced::Task(result) => result,
            Raced::Context(error) => {
                let mut message = String::from_str(
                    "docker context failed before task could be completed: ",
                );
                message.append(error.as_str());
                Err(message)
            },
        }
    }
}

/// Which of a task and the context that supervises it ended first.
pub enum Raced<T> {
    /// The task ended, with this result.
    Task(Result<T, String>),
    /// One of the context's activities ended, with this error.
    Context(String),
}

/// The error of a task whose context failed first.
pub open spec fn context_failure(error: Seq<char>) -> Seq<char> {
    "docker context failed before task could be completed: "@ + error
}

impl AlreadyExists {
    /// The message of the error.
    pub fn message(&self) -> (message: String)
        ensures
            message@ == "Docker context '"@ + self.name@ + "' already exists"@,
    {
        let mut message = String::from_str("Docker context '");
        message.append(self.name.as_str());
        message.append("' already exists");
        message
    }
}

/// Whether `path` lies in the directory `dir`.
pub open spec fn lies_in(path: Seq<char>, dir: Seq<char>) -> bool {
    has_prefix(path, dir + "/"@) && path.len() > dir.len() + 1
}

/// Every file of the artifact, and the directory made for the TLS files,
/// lies in one of the two directories that are removed when the context
/// ends: once both are removed, nothing of the artifact is left.
pub proof fn lemma_teardown_covers_artifact(context: DockerContext, file: ContextFile)
    ensures
        lies_in(file.path_text(context.meta_dir(), context.tls_dir()), context.meta_dir())
            || lies_in(file.path_text(context.meta_dir(), context.tls_dir()), context.tls_dir()),
        lies_in(context.tls_dir() + "/docker"@, context.tls_dir()),
{
    let meta = context.meta_dir();
    let tls = context.tls_dir();
    reveal_strlit("/");
    reveal_strlit("/meta.json");
    reveal_strlit("/docker/ca.pem");
    reveal_strlit("/docker/cert.pem");
    reveal_strlit("/docker/key.pem");
    reveal_strlit("/docker");
    let path = file.path_text(meta, tls);
    match file {
        ContextFile::Meta => {
            assert(path.take((meta + "/"@).len() as int) =~= meta + "/"@);
        },
        _ => {
            assert(path.take((tls + "/"@).len() as int) =~= tls + "/"@);
        },
    }
    assert((tls + "/docker"@).take((tls + "/"@).len() as int) =~= tls + "/"@);
}

/// The hexadecimal notation of a byte string has two characters for each
/// byte, each of them a digit or a letter from `a` to `f`: no capital
/// letter occurs in the name of a context's directories.
pub proof fn lemma_hex_is_lower_case(bytes: Seq<u8>)
    ensures
        hex_lower(bytes).len() == 2 * bytes.len(),
        forall|i: int|
            0 <= i < 2 * bytes.len() ==> {
                let c = #[trigger] hex_lower(bytes)[i] as u32;
                (48 <= c <= 57) || (97 <= c <= 102)
            },
{
}

} // verus!
