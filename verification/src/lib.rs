//! Ephemeral cloud virtual machines as ready-to-use remote Docker endpoints.
//!
//! This library holds the decisions of the program: the order and the
//! deadlines of the bring-up, what is sent to the machine and what is made of
//! its answers, the files of the Docker context, the choice of the release to
//! install, the protocol between the launcher and the worker of the
//! background mode, and the log. Each function states what it computes in a
//! contract that is checked by the verifier, and the laws that hold between
//! the functions are proved beside them.
//!
//! The library performs no I/O. The program around it starts the machines,
//! keeps the secure session, sleeps, reads the clock and writes the files; it
//! reports what happened and is told what to do next.
//!
//! Other crates are called for what only they can compute: digests, JSON
//! strings, HTML, version requirements, addresses of files, certificates and
//! random tokens. Each such call stands in a small function of its own whose
//! contract says what is taken on trust.

pub mod address;
pub mod arch;
pub mod cli;
pub mod command_ext;
pub mod docker_context;
pub mod docker_releases;
pub mod docker_tls;
pub mod eventually;
pub mod logging;
pub mod readme;
pub mod shutdown;
pub mod ssh;
pub mod steps;
pub mod text;
pub mod vm_providers;
pub mod worker;
