//! The bring-up orchestrator: from a blank virtual machine to a Docker daemon
//! that is reachable under mutual TLS and dies with its owner.
//!
//! [`BringUp`] orders the phases and applies the deadlines. It performs no
//! I/O: its owner carries out each [`Directive`] and reports what happened as
//! an [`Event`] together with the current time. The texts that the phases
//! exchange with the machine (bootstrap script, commands, the one-time token)
//! are computed by the other functions of this module.

use crate::eventually::{eventually, eventually_spec, Eventually, EventuallyResult, Waiter, MINUTE, SECOND};
use crate::text::{
    decimal, is_alphanumeric, join, joined, lemma_trimmed_identity, push_decimal,
    random_alphanumeric, replace, replaced, same_text, string_from_utf8, texts, trim, trimmed,
};
use crate::docker_tls::{key_pem_of, pem_of, CertifiedKey, DockerCA};
use crate::vm_providers::SomeVmProvider;
use vstd::prelude::*;
use vstd::string::*;
use vstd::utf8::*;

verus! {

/// Seconds between two keepalive writes of the local sender.
pub const KEEPALIVE_INTERVAL: u64 = 5;

/// Seconds without a keepalive after which the machine shuts itself down.
pub const KEEPALIVE_TIMEOUT: u64 = 15;

/// Milliseconds allowed to one attempt to open a TCP connection.
pub const CONNECT_TIMEOUT: u64 = 3000;

/// The port of the secure channel.
pub const SSH_PORT: u16 = 22;

/// The port on which the Docker daemon listens.
pub const DOCKERD_PORT: u16 = 2376;

/// Number of characters of the one-time token.
pub const OTP_LENGTH: usize = 20;

/// Number of phases of a bring-up.
pub const PHASE_COUNT: usize = 10;

/// The sender writes well within the time that the machine's watchdog
/// allows: three writes fit into one timeout, and one period is shorter
/// than the timeout.
pub proof fn lemma_keepalive_period_within_timeout()
    ensures
        3 * KEEPALIVE_INTERVAL <= KEEPALIVE_TIMEOUT,
        KEEPALIVE_INTERVAL < KEEPALIVE_TIMEOUT,
{
}

/// The phases of a bring-up, in the order in which they run.
#[derive(Clone, Copy, Debug, PartialEq, Eq, Structural)]
pub enum Phase {
    /// Generate the secrets, render the bootstrap script, launch the machine.
    LaunchVm,
    /// Wait until the machine accepts TCP connections on the SSH port.
    WaitForSsh,
    /// Open the secure session and authenticate as root.
    Authenticate,
    /// Read the one-time token back and compare it.
    ValidateToken,
    /// Start the remote keepalive loop and the local sender.
    StartKeepalive,
    /// Find the machine's architecture, choose a release, install it.
    InstallDockerd,
    /// Generate the TLS material and upload the server's part.
    ProvisionTls,
    /// Start the Docker daemon.
    StartDockerd,
    /// Wait until the daemon accepts TCP connections.
    WaitForDockerd,
    /// Write the Docker context.
    PublishContext,
}

impl Phase {
    /// Position of the phase, counted from 1.
    pub open spec fn number(self) -> nat {
        match self {
            Phase::LaunchVm => 1,
            Phase::WaitForSsh => 2,
            Phase::Authenticate => 3,
            Phase::ValidateToken => 4,
            Phase::StartKeepalive => 5,
            Phase::InstallDockerd => 6,
            Phase::ProvisionTls => 7,
            Phase::StartDockerd => 8,
            Phase::WaitForDockerd => 9,
            Phase::PublishContext => 10,
        }
    }

    /// The phase that runs after this one, if any.
    pub open spec fn following(self) -> Option<Phase> {
        match self {
            Phase::LaunchVm => Some(Phase::WaitForSsh),
            Phase::WaitForSsh => Some(Phase::Authenticate),
            Phase::Authenticate => Some(Phase::ValidateToken),
            Phase::ValidateToken => Some(Phase::StartKeepalive),
            Phase::StartKeepalive => Some(Phase::InstallDockerd),
            Phase::InstallDockerd => Some(Phase::ProvisionTls),
            Phase::ProvisionTls => Some(Phase::StartDockerd),
            Phase::StartDockerd => Some(Phase::WaitForDockerd),
            Phase::WaitForDockerd => Some(Phase::PublishContext),
            Phase::PublishContext => None,
        }
    }

    /// Whether the phase waits for the machine: a temporary failure is then
    /// retried until the deadline. Elsewhere every failure is final.
    pub open spec fn waits(self) -> bool {
        self == Phase::WaitForSsh || self == Phase::Authenticate || self == Phase::WaitForDockerd
    }

    /// Position of the phase, counted from 1.
    pub fn ordinal(&self) -> (n: usize)
        ensures
            n == self.number(),
            1 <= n <= PHASE_COUNT,
    {
        match self {
            Phase::LaunchVm => 1,
            Phase::WaitForSsh => 2,
            Phase::Authenticate => 3,
            Phase::ValidateToken => 4,
            Phase::StartKeepalive => 5,
            Phase::InstallDockerd => 6,
            Phase::ProvisionTls => 7,
            Phase::StartDockerd => 8,
            Phase::WaitForDockerd => 9,
            Phase::PublishContext => 10,
        }
    }

    /// The phase that runs after this one, if any.
    pub fn next(&self) -> (next: Option<Phase>)
        ensures
            next == self.following(),
    {
        match self {
            Phase::LaunchVm => Some(Phase::WaitForSsh),
            Phase::WaitForSsh => Some(Phase::Authenticate),
            Phase::Authenticate => Some(Phase::ValidateToken),
            Phase::ValidateToken => Some(Phase::StartKeepalive),
            Phase::StartKeepalive => Some(Phase::InstallDockerd),
            Phase::InstallDockerd => Some(Phase::ProvisionTls),
            Phase::ProvisionTls => Some(Phase::StartDockerd),
            Phase::StartDockerd => Some(Phase::WaitForDockerd),
            Phase::WaitForDockerd => Some(Phase::PublishContext),
            Phase::PublishContext => None,
        }
    }

    /// Whether a temporary failure of this phase is retried.
    pub fn is_waiting(&self) -> (r: bool)
        ensures
            r == self.waits(),
    {
        match self {
            Phase::WaitForSsh | Phase::Authenticate | Phase::WaitForDockerd => true,
            _ => false,
        }
    }

    /// The line that announces the phase to the user.
    pub fn announcement(&self) -> (line: &'static str)
        ensures
            line@ == match *self {
                Phase::LaunchVm => "Starting an ephemeral instance..."@,
                Phase::WaitForSsh => "Attempting to connect to instance..."@,
                Phase::Authenticate => "Waiting for instance setup to complete..."@,
                Phase::ValidateToken => "Validating OTP..."@,
                Phase::StartKeepalive => "Starting keepalive..."@,
                Phase::InstallDockerd => "Installing dockerd..."@,
                Phase::ProvisionTls => "Setting up docker keys..."@,
                Phase::StartDockerd => "Starting dockerd..."@,
                Phase::WaitForDockerd => "Waiting for dockerd to start..."@,
                Phase::PublishContext => "Creating docker context..."@,
            },
    {
        match self {
            Phase::LaunchVm => "Starting an ephemeral instance...",
            Phase::WaitForSsh => "Attempting to connect to instance...",
            Phase::Authenticate => "Waiting for instance setup to complete...",
            Phase::ValidateToken => "Validating OTP...",
            Phase::StartKeepalive => "Starting keepalive...",
            Phase::InstallDockerd => "Installing dockerd...",
            Phase::ProvisionTls => "Setting up docker keys...",
            Phase::StartDockerd => "Starting dockerd...",
            Phase::WaitForDockerd => "Waiting for dockerd to start...",
            Phase::PublishContext => "Creating docker context...",
        }
    }
}

/// Why a bring-up ended without a Docker context.
#[derive(Clone, Copy, Debug, PartialEq, Eq, Structural)]
pub enum Failure {
    /// The work of a phase failed for good.
    PhaseFailed(Phase),
    /// A waiting phase did not succeed by its deadline.
    DeadlinePassed(Phase),
    /// The keepalive activity ended while the bring-up was under way.
    KeepaliveLost,
}

/// Where a bring-up stands.
#[derive(Clone, Copy, Debug, PartialEq, Eq, Structural)]
pub enum Status {
    /// A phase is under way.
    Running,
    /// Every phase succeeded; the Docker context is published.
    Ready,
    /// The bring-up failed.
    Failed(Failure),
}

/// What happened to the work that the last directive asked for.
#[derive(Clone, Copy, Debug, PartialEq, Eq, Structural)]
pub enum Event {
    /// The work of the phase succeeded.
    Completed,
    /// The attempt failed, and a later one may succeed: a refused or timed
    /// out connection, an authentication that was not granted yet.
    TemporaryFailure,
    /// The work failed for good.
    PermanentFailure,
    /// The keepalive activity ended, which is always an error.
    KeepaliveFailed,
}

/// What the owner of the bring-up does next.
#[derive(Clone, Copy, Debug, PartialEq, Eq, Structural)]
pub enum Directive {
    /// Do the work of `phase` now; this is attempt number `attempt`.
    Perform { phase: Phase, attempt: u64 },
    /// Sleep for `sleep` milliseconds, then do the work of `phase` again.
    SleepThenPerform { phase: Phase, attempt: u64, sleep: u64 },
    /// The bring-up succeeded: hand the Docker context to the supervisor.
    Finish,
    /// The bring-up failed: give up with this reason.
    Abort(Failure),
}

/// A bring-up in progress.
#[derive(Clone, Copy, Debug, PartialEq, Eq, Structural)]
pub struct BringUp {
    /// Whether the bring-up is running, and how it ended otherwise.
    pub status: Status,
    /// The phase under way, or the one in which the bring-up ended.
    pub phase: Phase,
    /// The wait of the phase under way.
    pub waiter: Waiter,
}

impl BringUp {
    /// The bring-up as it begins at time `now`.
    pub open spec fn initial(now: u64) -> BringUp {
        BringUp {
            status: Status::Running,
            phase: Phase::LaunchVm,
            waiter: Waiter { sleep_between: SECOND, total_timeout: MINUTE, started: now, attempt_no: 1 },
        }
    }

    /// The bring-up after it failed for `failure`.
    pub open spec fn failed(self, failure: Failure) -> (BringUp, Directive) {
        (BringUp { status: Status::Failed(failure), ..self }, Directive::Abort(failure))
    }

    /// The bring-up and the next directive after `event`, reported at `now`.
    ///
    /// A finished bring-up stays as it is. While it runs, a completed phase
    /// is followed by the next one, with a fresh deadline, or by readiness
    /// after the last; a temporary failure of a waiting phase goes to the
    /// retrying primitive; every other failure ends the bring-up.
    pub open spec fn after(self, event: Event, now: u64) -> (BringUp, Directive) {
        match self.status {
            Status::Ready => (self, Directive::Finish),
            Status::Failed(failure) => (self, Directive::Abort(failure)),
            Status::Running => match event {
                Event::KeepaliveFailed => self.failed(Failure::KeepaliveLost),
                Event::PermanentFailure => self.failed(Failure::PhaseFailed(self.phase)),
                Event::TemporaryFailure => if self.phase.waits() {
                    let failed_attempt: EventuallyResult<(), ()> = EventuallyResult::TempErr(());
                    match eventually_spec(self.waiter, now, failed_attempt) {
                        (waiter, Eventually::Retry { sleep, attempt_no }) => (
                            BringUp { waiter, ..self },
                            Directive::SleepThenPerform {
                                phase: self.phase,
                                attempt: attempt_no,
                                sleep,
                            },
                        ),
                        (_, Eventually::Finished(_)) => self.failed(
                            Failure::DeadlinePassed(self.phase),
                        ),
                    }
                } else {
                    self.failed(Failure::PhaseFailed(self.phase))
                },
                Event::Completed => match self.phase.following() {
                    Some(phase) => (
                        BringUp {
                            status: Status::Running,
                            phase,
                            waiter: Waiter {
                                sleep_between: SECOND,
                                total_timeout: MINUTE,
                                started: now,
                                attempt_no: 1,
                            },
                        },
                        Directive::Perform { phase, attempt: 1 },
                    ),
                    None => (BringUp { status: Status::Ready, ..self }, Directive::Finish),
                },
            },
        }
    }

    /// Begins a bring-up at time `now`: the first phase is to be performed.
    pub fn begin(now: u64) -> (started: (BringUp, Directive))
        ensures
            started.0 == BringUp::initial(now),
            started.1 == (Directive::Perform { phase: Phase::LaunchVm, attempt: 1 }),
    {
        (
            BringUp {
                status: Status::Running,
                phase: Phase::LaunchVm,
                waiter: Waiter::new(SECOND, MINUTE, now),
            },
            Directive::Perform { phase: Phase::LaunchVm, attempt: 1 },
        )
    }

    /// Takes the outcome of the last directive, reported at time `now`, and
    /// says what to do next.
    pub fn advance(&mut self, event: Event, now: u64) -> (directive: Directive)
        ensures
            (*final(self), directive) == old(self).after(event, now),
    {
        match self.status {
            Status::Ready => Directive::Finish,
            Status::Failed(failure) => Directive::Abort(failure),
            Status::Running => match event {
                Event::KeepaliveFailed => self.fail(Failure::KeepaliveLost),
                Event::PermanentFailure => self.fail(Failure::PhaseFailed(self.phase)),
                Event::TemporaryFailure => {
                    if self.phase.is_waiting() {
                        let failed_attempt: EventuallyResult<(), ()> = EventuallyResult::TempErr(());
                        match eventually(&mut self.waiter, now, failed_attempt) {
                            Eventually::Retry { sleep, attempt_no } => Directive::SleepThenPerform {
                                phase: self.phase,
                                attempt: attempt_no,
                                sleep,
                            },
                            Eventually::Finished(_) => self.fail(
                                Failure::DeadlinePassed(self.phase),
                            ),
                        }
                    } else {
                        self.fail(Failure::PhaseFailed(self.phase))
                    }
                },
                Event::Completed => match self.phase.next() {
                    Some(phase) => {
                        self.phase = phase;
                        self.waiter = Waiter::new(SECOND, MINUTE, now);
                        Directive::Perform { phase, attempt: 1 }
                    },
                    None => {
                        self.status = Status::Ready;
                        Directive::Finish
                    },
                },
            },
        }
    }

    fn fail(&mut self, failure: Failure) -> (directive: Directive)
        ensures
            (*final(self), directive) == old(self).failed(failure),
    {
        self.status = Status::Failed(failure);
        Directive::Abort(failure)
    }
}

/// The phases run strictly one after the other: an event leaves the phase
/// as it is or moves to the one that follows it, and it moves on only when
/// the phase under way has completed.
pub proof fn lemma_phases_run_in_order(state: BringUp, event: Event, now: u64)
    ensures
        ({
            let next = state.after(event, now).0;
            ||| next.phase == state.phase
            ||| (Some(next.phase) == state.phase.following() && event == Event::Completed
                && state.status == Status::Running && next.phase.number() == state.phase.number()
                + 1)
        }),
{
}

/// A bring-up becomes ready only by completing its last phase, the one that
/// publishes the Docker context.
pub proof fn lemma_ready_only_after_publishing(state: BringUp, event: Event, now: u64)
    requires
        state.status != Status::Ready,
        state.after(event, now).0.status == Status::Ready,
    ensures
        state.status == Status::Running,
        state.phase == Phase::PublishContext,
        event == Event::Completed,
        state.after(event, now).1 == Directive::Finish,
{
}

/// A bring-up that has ended stays as it ended, whatever is reported to it.
pub proof fn lemma_end_is_final(state: BringUp, event: Event, now: u64)
    requires
        state.status != Status::Running,
    ensures
        state.after(event, now).0 == state,
        state.after(event, now).1 != (Directive::Perform { phase: state.phase, attempt: 1 }),
{
}

/// While the bring-up runs, the end of the keepalive activity fails it with
/// that reason at once, in whichever phase it is.
pub proof fn lemma_keepalive_failure_is_fatal(state: BringUp, now: u64)
    requires
        state.status == Status::Running,
    ensures
        state.after(Event::KeepaliveFailed, now).1 == Directive::Abort(Failure::KeepaliveLost),
        state.after(Event::KeepaliveFailed, now).0.status == Status::Failed(
            Failure::KeepaliveLost,
        ),
{
}

/// The bring-up that began at time `now`, after the events of `reports`,
/// each with the time at which it was reported.
pub open spec fn bring_up_after(now: u64, reports: Seq<(Event, u64)>) -> BringUp
    decreases reports.len(),
{
    if reports.len() == 0 {
        BringUp::initial(now)
    } else {
        bring_up_after(now, reports.drop_last()).after(reports.last().0, reports.last().1).0
    }
}

/// Number of reports that say that the work of a phase succeeded.
pub open spec fn completions(reports: Seq<(Event, u64)>) -> nat
    decreases reports.len(),
{
    if reports.len() == 0 {
        0
    } else {
        completions(reports.drop_last()) + if reports.last().0 == Event::Completed {
            1nat
        } else {
            0nat
        }
    }
}

/// Whatever is reported to a bring-up and whenever, it is never further
/// than the phases that succeeded allow, and it is ready only when each of
/// its phases has succeeded: no phase is skipped.
pub proof fn lemma_no_phase_is_skipped(now: u64, reports: Seq<(Event, u64)>)
    ensures
        bring_up_after(now, reports).phase.number() <= completions(reports) + 1,
        bring_up_after(now, reports).status == Status::Ready ==> completions(reports)
            >= PHASE_COUNT,
    decreases reports.len(),
{
    if reports.len() > 0 {
        lemma_no_phase_is_skipped(now, reports.drop_last());
        let before = bring_up_after(now, reports.drop_last());
        lemma_phases_run_in_order(before, reports.last().0, reports.last().1);
    }
}

/// A waiting phase is never attempted again after its deadline: a retry is
/// ordered only while its pause ends within a minute of the phase's start,
/// and a temporary failure after that ends the bring-up.
pub proof fn lemma_waiting_is_bounded(state: BringUp, now: u64)
    requires
        state.status == Status::Running,
        state.waiter.sleep_between == SECOND,
        state.waiter.total_timeout == MINUTE,
        now >= state.waiter.started,
    ensures
        match state.after(Event::TemporaryFailure, now).1 {
            Directive::SleepThenPerform { phase, sleep, .. } => phase == state.phase
                && state.phase.waits() && sleep == SECOND && now + sleep <= state.waiter.started
                + MINUTE,
            Directive::Abort(failure) => if state.phase.waits() {
                failure == Failure::DeadlinePassed(state.phase) && now + SECOND
                    > state.waiter.started + MINUTE
            } else {
                failure == Failure::PhaseFailed(state.phase)
            },
            _ => false,
        },
{
}

impl Failure {
    /// What the failure is called in the error that the user sees.
    pub open spec fn text(self) -> Seq<char> {
        match self {
            Failure::DeadlinePassed(Phase::Authenticate) => "Could not auth via SSH in time limit"@,
            Failure::DeadlinePassed(Phase::WaitForSsh) | Failure::DeadlinePassed(
                Phase::WaitForDockerd,
            ) => "could not open tcp stream in the deadline"@,
            Failure::DeadlinePassed(_) => "deadline passed"@,
            Failure::KeepaliveLost => "Keepalive failed while waiting for dockerd to start"@,
            Failure::PhaseFailed(phase) => "bring-up failed in phase "@ + decimal(phase.number()),
        }
    }

    /// What the failure is called in the error that the user sees.
    pub fn message(&self) -> (message: String)
        ensures
            message@ == self.text(),
    {
        match self {
            Failure::DeadlinePassed(Phase::Authenticate) => String::from_str(
                "Could not auth via SSH in time limit",
            ),
            Failure::DeadlinePassed(Phase::WaitForSsh) | Failure::DeadlinePassed(
                Phase::WaitForDockerd,
            ) => String::from_str("could not open tcp stream in the deadline"),
            Failure::DeadlinePassed(_) => String::from_str("deadline passed"),
            Failure::KeepaliveLost => String::from_str(
                "Keepalive failed while waiting for dockerd to start",
            ),
            Failure::PhaseFailed(phase) => {
                let mut message = String::from_str("bring-up failed in phase ");
                push_decimal(&mut message, phase.ordinal() as u64);
                message
            },
        }
    }
}

impl Failure {
    /// The error of a bring-up that was given up, where the error behind
    /// the failure is known.
    pub open spec fn error_text(self, cause: Option<Seq<char>>) -> Seq<char> {
        match (self, cause) {
            (Failure::PhaseFailed(_), Some(text)) => text,
            (Failure::KeepaliveLost, Some(text)) => self.text() + ": "@ + text,
            _ => self.text(),
        }
    }

    /// Words the error of a bring-up that was given up.
    ///
    /// A phase that failed gives its own error where there is one. The loss
    /// of the keepalive is named, with the error of the keepalive after it.
    /// A deadline that passed is named alone: the last attempt's error was
    /// only the reason to try again.
    pub fn error(&self, cause: Option<&str>) -> (message: String)
        ensures
            message@ == self.error_text(
                match cause {
                    Some(text) => Some(text@),
                    None => None,
                },
            ),
    {
        match (self, cause) {
            (Failure::PhaseFailed(_), Some(text)) => text.to_owned(),
            (Failure::KeepaliveLost, Some(text)) => {
                let mut message = self.message();
                message.append(": ");
                message.append(text);
                message
            },
            _ => self.message(),
        }
    }
}

impl Phase {
    /// Whether an attempt of the phase opens the secure session before it
    /// authenticates: the first attempt does, the later ones use the
    /// session that is open.
    pub fn opens_session(&self, attempt: u64) -> (r: bool)
        ensures
            r == (*self == Phase::Authenticate && attempt == 1),
    {
        match self {
            Phase::Authenticate => attempt == 1,
            _ => false,
        }
    }
}

/// The line that authorizes a public key of kind `algorithm` for the
/// machine's root account.
pub open spec fn authorized_key(algorithm: Seq<char>, public_key: Seq<char>) -> Seq<char> {
    algorithm + " "@ + public_key + " fleeting-ephemeral"@
}

/// Writes the `authorized_keys` line of the ephemeral key, from the name of
/// its algorithm and its public part in base64.
pub fn authorized_key_line(algorithm: &str, public_key: &str) -> (line: String)
    ensures
        line@ == authorized_key(algorithm@, public_key@),
{
    let mut line = String::from_str(algorithm);
    line.append(" ");
    line.append(public_key);
    line.append(" fleeting-ephemeral");
    line
}

/// The pattern that finds the invoker's own public keys under `home`.
pub fn user_key_pattern(home: &str) -> (pattern: String)
    ensures
        pattern@ == home@ + "/.ssh/id_*.pub"@,
{
    let mut pattern = String::from_str(home);
    pattern.append("/.ssh/id_*.pub");
    pattern
}

/// The keys to authorize: the ephemeral one, then each of the user's key
/// files without the white space around it.
pub open spec fn key_list(ephemeral: Seq<char>, user_keys: Seq<Seq<char>>) -> Seq<Seq<char>> {
    seq![ephemeral] + Seq::new(user_keys.len(), |i: int| trimmed(user_keys[i]))
}

/// Collects the keys to authorize on the machine: the ephemeral key first,
/// then the contents of the user's key files, trimmed.
pub fn authorized_keys(ephemeral: String, user_keys: &Vec<String>) -> (keys: Vec<String>)
    ensures
        texts(keys@) == key_list(ephemeral@, texts(user_keys@)),
{
    let ghost first = ephemeral@;
    let mut keys: Vec<String> = Vec::new();
    keys.push(ephemeral);
    let mut i: usize = 0;
    while i < user_keys.len()
        invariant
            i <= user_keys.len(),
            texts(keys@) =~= key_list(first, texts(user_keys@).take(i as int)),
        decreases user_keys.len() - i,
    {
        let ghost before = texts(keys@);
        keys.push(trim(user_keys[i].as_str()));
        proof {
            let given = texts(user_keys@);
            assert(given.take(i + 1)[i as int] == user_keys@[i as int]@);
            assert(texts(keys@) =~= before.push(trimmed(user_keys@[i as int]@)));
            assert(key_list(first, given.take(i + 1)) =~= key_list(first, given.take(i as int)).push(
                trimmed(user_keys@[i as int]@),
            ));
        }
        i += 1;
    }
    assert(texts(user_keys@).take(user_keys.len() as int) =~= texts(user_keys@));
    keys
}

/// Whether `token` has the shape of a one-time token: twenty ASCII letters
/// and digits.
pub open spec fn is_token(token: Seq<char>) -> bool {
    token.len() == OTP_LENGTH && forall|i: int|
        0 <= i < token.len() ==> is_alphanumeric(#[trigger] token[i])
}

/// Generates a fresh one-time token.
pub fn generate_otp() -> (otp: String)
    ensures
        is_token(otp@),
{
    random_alphanumeric(OTP_LENGTH)
}

/// The bootstrap script: `template` with the list of authorized keys, the
/// keepalive timeout and the token put in, in this order.
pub open spec fn bootstrap_script(
    template: Seq<char>,
    keys: Seq<Seq<char>>,
    otp: Seq<char>,
) -> Seq<char> {
    let with_keys = replaced(template, "{{authorized_keys}}"@, joined(keys, "\n"@));
    let with_timeout = replaced(
        with_keys,
        "{{keepalive_timeout}}"@,
        decimal(KEEPALIVE_TIMEOUT as nat),
    );
    replaced(with_timeout, "{{otp}}"@, otp)
}

/// Renders the bootstrap script that the machine runs on first boot.
pub fn render_user_data(template: &str, authorized_keys: &Vec<String>, otp: &str) -> (script:
    String)
    ensures
        script@ == bootstrap_script(template@, texts(authorized_keys@), otp@),
{
    let keys = join(authorized_keys, "\n");
    let with_keys = replace(template, "{{authorized_keys}}", keys.as_str());
    let mut timeout = String::new();
    push_decimal(&mut timeout, KEEPALIVE_TIMEOUT);
    assert(Seq::<char>::empty() + decimal(KEEPALIVE_TIMEOUT as nat) =~= decimal(
        KEEPALIVE_TIMEOUT as nat,
    ));
    let with_timeout = replace(with_keys.as_str(), "{{keepalive_timeout}}", timeout.as_str());
    replace(with_timeout.as_str(), "{{otp}}", otp)
}

/// The install script: `template` with the address of the release put in.
pub fn render_install_script(template: &str, tarball_url: &str) -> (script: String)
    ensures
        script@ == replaced(template@, "{{tarball_url}}"@, tarball_url@),
{
    replace(template, "{{tarball_url}}", tarball_url)
}

/// Why a token that was read back from the machine is refused.
pub enum OtpError {
    /// The bytes are not UTF-8.
    NotUtf8,
    /// The machine holds another token than the one that was generated.
    Invalid { expected: String, received: String },
}

/// Whether the bytes read back from the machine are the expected token,
/// white space around them aside.
pub open spec fn otp_accepted(expected: Seq<char>, received: Seq<u8>) -> bool {
    valid_utf8(received) && trimmed(decode_utf8(received)) == expected
}

/// Compares the token read back from the machine with the generated one.
///
/// The machine is the one that was launched exactly if it holds the token
/// that was put into its bootstrap script; any other content is refused.
pub fn validate_otp(expected: &str, received: Vec<u8>) -> (verdict: Result<(), OtpError>)
    ensures
        verdict is Ok <==> otp_accepted(expected@, received@),
        verdict == Err::<(), OtpError>(OtpError::NotUtf8) <==> !valid_utf8(received@),
        verdict matches Err(OtpError::Invalid { expected: e, received: r }) ==> e@ == expected@
            && r@ == trimmed(decode_utf8(received@)),
{
    match string_from_utf8(received) {
        None => Err(OtpError::NotUtf8),
        Some(text) => {
            let got = trim(text.as_str());
            if same_text(got.as_str(), expected) {
                Ok(())
            } else {
                Err(OtpError::Invalid { expected: expected.to_owned(), received: got })
            }
        },
    }
}

impl OtpError {
    /// The message of the error.
    pub open spec fn text(self) -> Seq<char> {
        match self {
            OtpError::NotUtf8 => "invalid otp, not valid utf-8"@,
            OtpError::Invalid { expected, received } => "invalid otp, expected "@ + expected@
                + " got "@ + received@,
        }
    }

    /// The message of the error.
    pub fn message(&self) -> (message: String)
        ensures
            message@ == self.text(),
    {
        match self {
            OtpError::NotUtf8 => String::from_str("invalid otp, not valid utf-8"),
            OtpError::Invalid { expected, received } => {
                let mut message = String::from_str("invalid otp, expected ");
                message.append(expected.as_str());
                message.append(" got ");
                message.append(received.as_str());
                message
            },
        }
    }
}

/// A machine that answers with another token than the generated one is
/// refused: for two different tokens `a` and `b`, the bytes of `b` are not
/// accepted where `a` is expected, and they are refused as a wrong token,
/// not as unreadable bytes.
pub proof fn lemma_other_token_is_refused(a: Seq<char>, b: Seq<char>)
    requires
        is_token(a),
        is_token(b),
        a != b,
    ensures
        valid_utf8(encode_utf8(b)),
        trimmed(decode_utf8(encode_utf8(b))) == b,
        !otp_accepted(a, encode_utf8(b)),
{
    encode_utf8_valid_utf8(b);
    encode_utf8_decode_utf8(b);
    assert(is_alphanumeric(b[0]));
    assert(is_alphanumeric(b[b.len() - 1]));
    lemma_trimmed_identity(b);
}

/// The file on the machine that holds the one-time token.
pub fn otp_path() -> (path: &'static str)
    ensures
        path@ == "/fleeting/otp"@,
{
    "/fleeting/otp"
}

/// The remote loop that touches the keepalive file for each line it reads.
pub fn keepalive_command() -> (command: &'static str)
    ensures
        command@ == "while read; do touch /fleeting/keepalive; done"@,
{
    "while read; do touch /fleeting/keepalive; done"
}

/// The command that prints the machine's architecture.
pub fn arch_command() -> (command: &'static str)
    ensures
        command@ == "uname -m"@,
{
    "uname -m"
}

/// The invocation of the Docker daemon: it listens on every address of the
/// daemon's port and admits only clients with a certificate of the
/// bring-up's authority.
pub fn dockerd_command() -> (command: &'static str)
    ensures
        command@
            == "dockerd -H tcp://0.0.0.0:2376 --tlsverify --tlscacert=/tmp/ca.pem --tlscert=/tmp/server-cert.pem --tlskey=/tmp/server-key.pem"@,
{
    "dockerd -H tcp://0.0.0.0:2376 --tlsverify --tlscacert=/tmp/ca.pem --tlscert=/tmp/server-cert.pem --tlskey=/tmp/server-key.pem"
}

/// The parts of the TLS material that are uploaded to the machine.
#[derive(Clone, Copy, Debug, PartialEq, Eq, Structural)]
pub enum Upload {
    /// The certificate of the authority.
    CaCert,
    /// The certificate of the server.
    ServerCert,
    /// The private key of the server.
    ServerKey,
}

impl Upload {
    /// What is uploaded: the certificate of the authority, the certificate
    /// of the server, or the private key of the server, each as the PEM
    /// document that `rcgen` makes of it.
    pub open spec fn content_text(self, ca: DockerCA, server: CertifiedKey) -> Seq<char> {
        match self {
            Upload::CaCert => pem_of(ca.certificate()),
            Upload::ServerCert => pem_of(server.certificate()),
            Upload::ServerKey => key_pem_of(server.pair()),
        }
    }

    /// Writes out what is uploaded.
    pub fn content(&self, ca: &DockerCA, server: &CertifiedKey) -> (content: String)
        ensures
            content@ == self.content_text(*ca, *server),
    {
        match self {
            Upload::CaCert => ca.cert_pem(),
            Upload::ServerCert => server.cert_pem(),
            Upload::ServerKey => server.key_pem(),
        }
    }

    /// The three parts, in the order in which they are uploaded.
    pub fn every() -> (parts: Vec<Upload>)
        ensures
            parts@ == seq![Upload::CaCert, Upload::ServerCert, Upload::ServerKey],
    {
        let mut parts: Vec<Upload> = Vec::new();
        parts.push(Upload::CaCert);
        parts.push(Upload::ServerCert);
        parts.push(Upload::ServerKey);
        parts
    }

    /// Where the part is stored on the machine.
    pub fn path(&self) -> (path: &'static str)
        ensures
            path@ == match *self {
                Upload::CaCert => "/tmp/ca.pem"@,
                Upload::ServerCert => "/tmp/server-cert.pem"@,
                Upload::ServerKey => "/tmp/server-key.pem"@,
            },
    {
        match self {
            Upload::CaCert => "/tmp/ca.pem",
            Upload::ServerCert => "/tmp/server-cert.pem",
            Upload::ServerKey => "/tmp/server-key.pem",
        }
    }
}

/// The options of the bring-up.
pub struct WorkerConfig {
    /// The provider of the machine.
    pub vm_provider: SomeVmProvider,
    /// Name of the ephemeral docker context; `fleeting-<pid>` without one.
    pub custom_context_name: Option<String>,
    /// Docker version to install on server, e.g. '=1.2.3' or '^1.2.3'.
    pub dockerd_version: String,
    /// Whether the user's own public keys are authorized on the machine.
    pub ssh: bool,
}

impl WorkerConfig {
    /// The selector that admits every version of the daemon.
    pub fn default_dockerd_version() -> (selector: &'static str)
        ensures
            selector@ == "*"@,
    {
        "*"
    }

    /// Begins the bring-up of the machine and its Docker context at time
    /// `now`: the first phase is to be performed.
    pub fn spawn(&self, now: u64) -> (started: (BringUp, Directive))
        ensures
            started.0 == BringUp::initial(now),
            started.1 == (Directive::Perform { phase: Phase::LaunchVm, attempt: 1 }),
    {
        BringUp::begin(now)
    }

    /// Names the Docker context of the process `pid`.
    pub fn context_name(&self, pid: u32) -> (name: String)
        ensures
            name@ == context_name_text(
                match self.custom_context_name {
                    Some(text) => Some(text@),
                    None => None,
                },
                pid,
            ),
    {
        match &self.custom_context_name {
            Some(name) => context_name(Some(name.as_str()), pid),
            None => context_name(None, pid),
        }
    }

    /// Collects the keys to authorize on the machine: the ephemeral key, and
    /// after it the user's own keys where the options ask for them.
    pub fn authorized_keys(&self, ephemeral: String, user_keys: &Vec<String>) -> (keys: Vec<
        String,
    >)
        ensures
            texts(keys@) == if self.ssh {
                key_list(ephemeral@, texts(user_keys@))
            } else {
                seq![ephemeral@]
            },
    {
        if self.ssh {
            authorized_keys(ephemeral, user_keys)
        } else {
            let ghost first = ephemeral@;
            let mut keys: Vec<String> = Vec::new();
            keys.push(ephemeral);
            assert(texts(keys@) =~= seq![first]);
            keys
        }
    }
}

/// The name of the Docker context: the chosen one, or `fleeting-` and the
/// process id.
pub open spec fn context_name_text(custom: Option<Seq<char>>, pid: u32) -> Seq<char> {
    match custom {
        Some(name) => name,
        None => "fleeting-"@ + decimal(pid as nat),
    }
}

/// Names the Docker context of the process `pid`.
pub fn context_name(custom: Option<&str>, pid: u32) -> (name: String)
    ensures
        name@ == context_name_text(
            match custom {
                Some(text) => Some(text@),
                None => None,
            },
            pid,
        ),
{
    match custom {
        Some(name) => name.to_owned(),
        None => {
            let mut name = String::from_str("fleeting-");
            push_decimal(&mut name, pid as u64);
            name
        },
    }
}

/// What the local sender writes into the keepalive channel, once every
/// keepalive interval.
pub fn keepalive_payload() -> (payload: &'static str)
    ensures
        payload@ == "\n"@,
{
    "\n"
}

/// How an attempt to open a TCP connection ended.
#[derive(Clone, Copy, Debug, PartialEq, Eq, Structural)]
pub enum Connect {
    /// The connection is open.
    Open,
    /// The connection was refused or failed otherwise.
    Failed,
    /// The attempt took longer than the time allowed to it.
    TimedOut,
}

/// How an attempt to authenticate ended.
#[derive(Clone, Copy, Debug, PartialEq, Eq, Structural)]
pub enum Auth {
    /// The machine accepted the key.
    Accepted,
    /// The machine refused the key: its setup may still be under way.
    Rejected,
    /// The transport failed.
    TransportError,
}

/// Classifies the end of an attempt to open a TCP connection: an open
/// connection completes the wait, anything else may pass.
pub fn wait_for_tcp_stream(connect: Connect) -> (event: Event)
    ensures
        event == match connect {
            Connect::Open => Event::Completed,
            Connect::Failed | Connect::TimedOut => Event::TemporaryFailure,
        },
{
    match connect {
        Connect::Open => Event::Completed,
        Connect::Failed | Connect::TimedOut => Event::TemporaryFailure,
    }
}

/// Classifies the end of an attempt to authenticate: a refusal may pass,
/// a failure of the transport does not.
pub fn authenticate(auth: Auth) -> (event: Event)
    ensures
        event == match auth {
            Auth::Accepted => Event::Completed,
            Auth::Rejected => Event::TemporaryFailure,
            Auth::TransportError => Event::PermanentFailure,
        },
{
    match auth {
        Auth::Accepted => Event::Completed,
        Auth::Rejected => Event::TemporaryFailure,
        Auth::TransportError => Event::PermanentFailure,
    }
}

/// The user under which the secure channel authenticates.
pub fn ssh_user() -> (user: &'static str)
    ensures
        user@ == "root"@,
{
    "root"
}

/// The host key of the machine is not checked: that the machine is the one
/// that was launched is shown by the one-time token instead.
pub fn check_server_key() -> (accepted: bool)
    ensures
        accepted,
{
    true
}

} // verus!
