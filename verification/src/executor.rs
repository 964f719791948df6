//! Running restic: what is done before, while and after the child process runs,
//! and what its end is reported as.
use crate::config::{lists, variables_of, SecretEnvironmentVariable, SecretRefs};
use crate::outcome::{
    BackupOutcome, RepositoryOutcome, RepositoryOutcomeKind, RetentionOutcome, RetentionOutcomeKind,
};
use crate::output::{classify_stderr, static_chars, stderr_class, ParsedOutput};
use crate::protocol::RepositoryOperationKind;
use crate::status::RepositoryMode;
use crate::text;
use vstd::prelude::*;

verus! {

/// How long a repository operation may run, in milliseconds.
pub const REPOSITORY_OPERATION_TIMEOUT: u64 = 120_000;

/// How long the removal of stale locks may run, in milliseconds.
pub const STALE_LOCK_CLEANUP_TIMEOUT: u64 = 120_000;

/// Stands for one run, wherever it is held: to ask the run to stop, and to see
/// whether somebody did.
#[derive(Debug, Clone, Copy, PartialEq, Eq, Structural)]
pub struct CancellationToken {
    number: usize,
}

/// The requests to stop, which everybody who holds a token shares. A run was
/// asked to stop where `true` stands at the number of its token.
pub struct CancellationRequests {
    requested: Vec<bool>,
}

impl View for CancellationRequests {
    type V = Seq<bool>;

    closed spec fn view(&self) -> Seq<bool> {
        self.requested@
    }
}

impl CancellationRequests {
    pub fn new() -> (requests: CancellationRequests)
        ensures
            requests@ == Seq::<bool>::empty(),
    {
        CancellationRequests { requested: Vec::new() }
    }

    /// A token that nobody holds yet, for a run that nobody has asked to stop.
    pub fn issue(&mut self) -> (token: CancellationToken)
        ensures
            token.number() == old(self)@.len(),
            final(self)@ == after_cancellation_step(old(self)@, CancellationStep::Issue),
            !token.is_requested(final(self)@),
    {
        let number: usize = self.requested.len();
        self.requested.push(false);
        CancellationToken { number }
    }
}

impl CancellationToken {
    pub closed spec fn number(self) -> int {
        self.number as int
    }

    pub open spec fn is_issued(self, requests: Seq<bool>) -> bool {
        0 <= self.number() < requests.len()
    }

    pub open spec fn is_requested(self, requests: Seq<bool>) -> bool {
        self.is_issued(requests) && requests[self.number()]
    }

    /// Asks the run to stop. Nothing takes the request back.
    pub fn cancel(&self, requests: &mut CancellationRequests)
        ensures
            final(requests)@ == after_cancellation_step(
                old(requests)@,
                CancellationStep::Cancel { token: *self },
            ),
            self.is_issued(old(requests)@) ==> self.is_requested(final(requests)@),
    {
        if self.number < requests.requested.len() {
            requests.requested.set(self.number, true);
        }
    }

    pub fn is_cancelled(&self, requests: &CancellationRequests) -> (cancelled: bool)
        ensures
            cancelled == self.is_requested(requests@),
    {
        self.number < requests.requested.len() && requests.requested[self.number]
    }
}

/// What can be done with the requests to stop.
pub ghost enum CancellationStep {
    Issue,
    Cancel { token: CancellationToken },
}

pub open spec fn after_cancellation_step(requests: Seq<bool>, step: CancellationStep) -> Seq<bool> {
    match step {
        CancellationStep::Issue => requests.push(false),
        CancellationStep::Cancel { token } => if token.is_issued(requests) {
            requests.update(token.number(), true)
        } else {
            requests
        },
    }
}

pub open spec fn after_cancellation_steps(
    requests: Seq<bool>,
    steps: Seq<CancellationStep>,
) -> Seq<bool>
    decreases steps.len(),
{
    if steps.len() == 0 {
        requests
    } else {
        after_cancellation_steps(after_cancellation_step(requests, steps[0]), steps.drop_first())
    }
}

/// A request to stop stands for good, whatever is done after it.
pub proof fn a_request_to_stop_is_never_taken_back(
    requests: Seq<bool>,
    steps: Seq<CancellationStep>,
    token: CancellationToken,
)
    requires
        token.is_requested(requests),
    ensures
        token.is_requested(after_cancellation_steps(requests, steps)),
    decreases steps.len(),
{
    if steps.len() > 0 {
        a_request_to_stop_is_never_taken_back(
            after_cancellation_step(requests, steps[0]),
            steps.drop_first(),
            token,
        );
    }
}

/// A request that is made through one copy of a token is seen through every
/// other, from then on.
pub proof fn a_request_to_stop_reaches_every_copy(
    requests: Seq<bool>,
    steps: Seq<CancellationStep>,
    token: CancellationToken,
    copy: CancellationToken,
)
    requires
        copy.number() == token.number(),
        token.is_issued(requests),
        steps.contains(CancellationStep::Cancel { token }),
    ensures
        token.is_requested(after_cancellation_steps(requests, steps)),
        copy.is_requested(after_cancellation_steps(requests, steps)),
    decreases steps.len(),
{
    let cancel = CancellationStep::Cancel { token };
    let next = after_cancellation_step(requests, steps[0]);
    if steps[0] == cancel {
        a_request_to_stop_is_never_taken_back(next, steps.drop_first(), token);
    } else {
        let at = steps.index_of(cancel);
        assert(steps.drop_first()[at - 1] == cancel);
        a_request_to_stop_reaches_every_copy(next, steps.drop_first(), token, copy);
    }
}

/// A run that nobody asked to stop goes on, whatever other runs are asked.
pub proof fn only_a_request_stops_a_run(
    requests: Seq<bool>,
    steps: Seq<CancellationStep>,
    token: CancellationToken,
)
    requires
        token.is_issued(requests),
        !token.is_requested(requests),
        forall|i: int|
            0 <= i < steps.len() && (#[trigger] steps[i]) is Cancel
                ==> steps[i]->token.number() != token.number(),
    ensures
        !token.is_requested(after_cancellation_steps(requests, steps)),
    decreases steps.len(),
{
    if steps.len() > 0 {
        let rest = steps.drop_first();
        assert forall|i: int| 0 <= i < rest.len() && (#[trigger] rest[i]) is Cancel implies rest[i]->token.number()
            != token.number() by {
            assert(rest[i] == steps[i + 1]);
        }
        only_a_request_stops_a_run(after_cancellation_step(requests, steps[0]), rest, token);
    }
}

#[derive(Debug, Clone, Copy, PartialEq, Eq, Structural)]
pub struct SecretResolveError;

/// Where the values behind credential references come from.
pub trait SecretResolver {
    fn resolve(&self, reference: &str) -> Result<String, SecretResolveError>;
}

/// A resolver that knows no credential.
#[derive(Debug, Clone, Copy, PartialEq, Eq, Structural)]
pub struct UnavailableSecretResolver;

impl SecretResolver for UnavailableSecretResolver {
    fn resolve(&self, reference: &str) -> (value: Result<String, SecretResolveError>)
        ensures
            value is Err,
    {
        Err(SecretResolveError)
    }
}

/// Whether the bytes of a credential can stand in an environment variable.
pub open spec fn is_environment_value(bytes: Seq<u8>) -> bool {
    vstd::utf8::valid_utf8(bytes) && !vstd::utf8::decode_utf8(bytes).contains('\0')
}

/// The credential that the store handed out, where it is UTF-8 without a NUL.
pub fn environment_value(stored: Option<Vec<u8>>) -> (value: Result<String, SecretResolveError>)
    ensures
        match stored {
            Some(bytes) => {
                &&& value is Ok == is_environment_value(bytes@)
                &&& value is Ok ==> value->Ok_0@ == vstd::utf8::decode_utf8(bytes@)
            },
            None => value is Err,
        },
{
    let bytes = match stored {
        Some(bytes) => bytes,
        None => return Err(SecretResolveError),
    };
    let value = match text::from_utf8(bytes.as_slice()) {
        Some(value) => value,
        None => return Err(SecretResolveError),
    };
    if text::holds_character(&text::characters(value.as_str()), '\0') {
        return Err(SecretResolveError);
    }
    Ok(value)
}

/// The resolver gave `value` for `reference`.
pub open spec fn resolves<R: SecretResolver>(resolver: &R, reference: Seq<char>, value: String) -> bool {
    exists|text: &str|
        text@ == reference && #[trigger] call_ensures(R::resolve, (resolver, text), Ok(value))
}

/// The resolver gave nothing for `reference`.
pub open spec fn refuses<R: SecretResolver>(
    resolver: &R,
    reference: Seq<char>,
    error: SecretResolveError,
) -> bool {
    exists|text: &str|
        text@ == reference && #[trigger] call_ensures(R::resolve, (resolver, text), Err(error))
}

/// The resolver gave some value for `reference`.
pub open spec fn is_resolved<R: SecretResolver>(resolver: &R, reference: Seq<char>) -> bool {
    exists|value: String| #[trigger] resolves(resolver, reference, value)
}

/// The resolver gave nothing for `refused`, and something for every variable before it.
pub open spec fn is_first_refused<R: SecretResolver>(
    resolver: &R,
    references: Map<SecretEnvironmentVariable, Seq<char>>,
    refused: SecretEnvironmentVariable,
    error: SecretResolveError,
) -> bool {
    &&& references.contains_key(refused)
    &&& refuses(resolver, references[refused], error)
    &&& forall|earlier: SecretEnvironmentVariable| #[trigger]
        references.contains_key(earlier) && earlier.rank() < refused.rank() ==> is_resolved(
            resolver,
            references[earlier],
        )
}

/// Resolves every credential of an invocation in the order of the variables, or
/// none: the first that the resolver does not give ends it.
pub fn resolve_secrets<R: SecretResolver>(resolver: &R, references: &SecretRefs) -> (secrets: Result<
    Vec<(SecretEnvironmentVariable, String)>,
    SecretResolveError,
>)
    ensures
        references@ == Map::<SecretEnvironmentVariable, Seq<char>>::empty() ==> secrets is Ok,
        match secrets {
            Ok(secrets) => {
                &&& lists(variables_of(secrets@), references@)
                &&& forall|i: int|
                    0 <= i < secrets@.len() ==> resolves(
                        resolver,
                        references@[(#[trigger] secrets@[i]).0],
                        secrets@[i].1,
                    )
            },
            Err(error) => exists|refused: SecretEnvironmentVariable| #[trigger]
                is_first_refused(resolver, references@, refused, error),
        },
{
    let entries = references.entries();
    let mut secrets: Vec<(SecretEnvironmentVariable, String)> = Vec::new();
    let mut i: usize = 0;
    while i < entries.len()
        invariant
            i <= entries@.len(),
            lists(variables_of(entries@), references@),
            forall|j: int|
                0 <= j < entries@.len() ==> (#[trigger] entries@[j]).1@
                    == references@[entries@[j].0],
            variables_of(secrets@) == variables_of(entries@).take(i as int),
            forall|j: int|
                0 <= j < secrets@.len() ==> resolves(
                    resolver,
                    references@[(#[trigger] secrets@[j]).0],
                    secrets@[j].1,
                ),
        decreases entries@.len() - i,
    {
        let variable = entries[i].0;
        let reference = entries[i].1.as_str();
        let ghost before = secrets@;
        proof {
            assert(variables_of(entries@)[i as int] == variable);
            assert(variables_of(entries@).contains(variable));
            assert(references@.contains_key(variable));
        }
        match resolver.resolve(reference) {
            Ok(value) => {
                proof {
                    assert(call_ensures(R::resolve, (resolver, reference), Ok(value)));
                    assert(resolves(resolver, references@[variable], value));
                }
                secrets.push((variable, value));
                proof {
                    assert(variables_of(secrets@) =~= variables_of(before).push(variable));
                    assert(variables_of(entries@).take(i + 1) =~= variables_of(entries@).take(
                        i as int,
                    ).push(variable));
                }
            },
            Err(error) => {
                proof {
                    assert(call_ensures(
                        R::resolve,
                        (resolver, reference),
                        Err::<String, SecretResolveError>(error),
                    ));
                    assert(refuses(resolver, references@[variable], error));
                    assert forall|earlier: SecretEnvironmentVariable| #[trigger]
                        references@.contains_key(earlier) && earlier.rank()
                            < variable.rank() implies is_resolved(resolver, references@[earlier]) by {
                        let variables = variables_of(entries@);
                        let at = variables.index_of(earlier);
                        assert(variables[at] == earlier);
                        assert(at < i);
                        assert(variables_of(secrets@).len() == secrets@.len());
                        assert(variables_of(secrets@)[at] == earlier);
                        assert(secrets@[at].0 == earlier);
                        assert(resolves(resolver, references@[secrets@[at].0], secrets@[at].1));
                    }
                    assert(is_first_refused(resolver, references@, variable, error));
                }
                return Err(error);
            },
        }
        i = i + 1;
    }
    proof {
        assert(variables_of(entries@).take(entries@.len() as int) =~= variables_of(entries@));
    }
    Ok(secrets)
}

/// Keeps the machine awake for as long as it lives.
pub trait WakeLockLease {

}

#[derive(Debug, Clone, Copy, PartialEq, Eq, Structural)]
pub struct WakeLockAcquireError;

pub trait WakeLockProvider {
    type Lease: WakeLockLease;

    fn acquire(&self, timeout: u64) -> Result<Self::Lease, WakeLockAcquireError>;
}

/// The wake locks of the operating system.
#[derive(Debug, Clone, Copy, PartialEq, Eq, Structural)]
pub struct SystemWakeLockProvider;

/// A command of restic.
#[derive(Debug, Clone, Copy, PartialEq, Eq, Structural)]
pub enum ResticOperation {
    Backup,
    Probe,
    Initialize,
    Unlock,
    Snapshots,
    Check,
    Forget,
    Prune,
}

impl ResticOperation {
    /// An append-only repository is neither created nor thinned out from here.
    pub open spec fn is_allowed_in(self, mode: RepositoryMode) -> bool {
        mode is AppendOnly ==> !(self is Initialize || self is Forget || self is Prune)
    }

    pub fn allowed_in(&self, mode: RepositoryMode) -> (allowed: bool)
        ensures
            allowed == self.is_allowed_in(mode),
    {
        match mode {
            RepositoryMode::Standard => true,
            RepositoryMode::AppendOnly => match self {
                ResticOperation::Initialize | ResticOperation::Forget | ResticOperation::Prune =>
                    false,
                _ => true,
            },
        }
    }
}

/// The command that an operation on the repository is.
pub fn repository_command(operation: RepositoryOperationKind) -> (command: ResticOperation)
    ensures
        command == (match operation {
            RepositoryOperationKind::Validate => ResticOperation::Probe,
            RepositoryOperationKind::Initialize => ResticOperation::Initialize,
        }),
{
    match operation {
        RepositoryOperationKind::Validate => ResticOperation::Probe,
        RepositoryOperationKind::Initialize => ResticOperation::Initialize,
    }
}

/// How long a stopped child may take to end, in milliseconds.
pub const PROCESS_TERMINATION_GRACE: u64 = 5_000;

/// Why the child process is being stopped.
#[derive(Debug, Clone, Copy, PartialEq, Eq, Structural)]
pub enum TerminationCause {
    Cancelled,
    TimedOut,
    WaitFailed,
}

/// How a run came to its end.
#[derive(Debug, Clone, Copy, PartialEq, Eq, Structural)]
pub enum ProcessEnd {
    CredentialUnavailable,
    WakeLockUnavailable,
    Cancelled,
    IsolationFailed,
    StartFailed,
    OutputUnavailable,
    TerminationFailed,
    TimedOut,
    WaitFailed,
    Exited { status: Option<i32> },
}

/// What has to be done next for a run.
#[derive(Debug, Clone, Copy, PartialEq, Eq, Structural)]
pub enum ProcessStage {
    ResolveSecrets,
    AcquireWakeLock,
    CheckCancellation,
    CreateJob,
    SpawnChild,
    AssignJob,
    ReapChild,
    TakePipes,
    PollChild,
    Terminate { cause: TerminationCause },
    Ended { end: ProcessEnd },
}

/// What a look at the child process found.
#[derive(Debug, Clone, Copy, PartialEq, Eq, Structural)]
pub enum ChildPoll {
    Running,
    Exited { status: Option<i32> },
    Unknown,
}

/// Whether a child that was told to end did so, `elapsed` milliseconds later;
/// `None` while it is still waited for.
pub fn termination_result(poll: ChildPoll, elapsed: u64) -> (ended: Option<bool>)
    ensures
        ended == (match poll {
            ChildPoll::Exited { .. } => Some(true),
            ChildPoll::Running => if elapsed < PROCESS_TERMINATION_GRACE {
                None
            } else {
                Some(false)
            },
            ChildPoll::Unknown => Some(false),
        }),
{
    match poll {
        ChildPoll::Exited { .. } => Some(true),
        ChildPoll::Running => if elapsed < PROCESS_TERMINATION_GRACE {
            None
        } else {
            Some(false)
        },
        ChildPoll::Unknown => Some(false),
    }
}

/// What came of the last step of a run.
#[derive(Debug, Clone, Copy, PartialEq, Eq, Structural)]
pub enum ProcessEvent {
    /// The step was done, or failed.
    Stepped { succeeded: bool },
    /// Whether a cancellation was asked for.
    Cancellation { requested: bool },
    /// A look at the child, with the request to stop and the milliseconds since its start.
    Polled { poll: ChildPoll, cancelled: bool, elapsed: u64 },
}

/// A run of restic from the first credential to the end of the process. A run
/// with a timeout is stopped when the timeout has passed.
#[derive(Debug, Clone, Copy, PartialEq, Eq, Structural)]
pub struct ProcessRun {
    pub timeout: Option<u64>,
    pub stage: ProcessStage,
}

pub open spec fn ends(end: ProcessEnd) -> ProcessStage {
    ProcessStage::Ended { end }
}

pub open spec fn step_or(succeeded: bool, next: ProcessStage, failure: ProcessEnd) -> ProcessStage {
    if succeeded {
        next
    } else {
        ends(failure)
    }
}

pub open spec fn end_after_termination(cause: TerminationCause) -> ProcessEnd {
    match cause {
        TerminationCause::Cancelled => ProcessEnd::Cancelled,
        TerminationCause::TimedOut => ProcessEnd::TimedOut,
        TerminationCause::WaitFailed => ProcessEnd::WaitFailed,
    }
}

impl ProcessRun {
    /// What a look at the running child leads to. A request to stop comes
    /// before the timeout.
    pub open spec fn polled(self, poll: ChildPoll, cancelled: bool, elapsed: u64) -> ProcessStage {
        match poll {
            ChildPoll::Exited { status } => ends(ProcessEnd::Exited { status }),
            ChildPoll::Unknown => ProcessStage::Terminate { cause: TerminationCause::WaitFailed },
            ChildPoll::Running => if cancelled {
                ProcessStage::Terminate { cause: TerminationCause::Cancelled }
            } else if self.timeout is Some && elapsed >= self.timeout->0 {
                ProcessStage::Terminate { cause: TerminationCause::TimedOut }
            } else {
                ProcessStage::PollChild
            },
        }
    }

    /// The stage that follows an event; an event that the stage does not ask
    /// for changes nothing.
    pub open spec fn stage_after(self, event: ProcessEvent) -> ProcessStage {
        match (self.stage, event) {
            (ProcessStage::ResolveSecrets, ProcessEvent::Stepped { succeeded }) => step_or(
                succeeded,
                ProcessStage::AcquireWakeLock,
                ProcessEnd::CredentialUnavailable,
            ),
            (ProcessStage::AcquireWakeLock, ProcessEvent::Stepped { succeeded }) => step_or(
                succeeded,
                ProcessStage::CheckCancellation,
                ProcessEnd::WakeLockUnavailable,
            ),
            (ProcessStage::CheckCancellation, ProcessEvent::Cancellation { requested }) => step_or(
                !requested,
                ProcessStage::CreateJob,
                ProcessEnd::Cancelled,
            ),
            (ProcessStage::CreateJob, ProcessEvent::Stepped { succeeded }) => step_or(
                succeeded,
                ProcessStage::SpawnChild,
                ProcessEnd::IsolationFailed,
            ),
            (ProcessStage::SpawnChild, ProcessEvent::Stepped { succeeded }) => step_or(
                succeeded,
                ProcessStage::AssignJob,
                ProcessEnd::StartFailed,
            ),
            (ProcessStage::AssignJob, ProcessEvent::Stepped { succeeded }) => if succeeded {
                ProcessStage::TakePipes
            } else {
                ProcessStage::ReapChild
            },
            (ProcessStage::ReapChild, ProcessEvent::Stepped { .. }) => ends(
                ProcessEnd::IsolationFailed,
            ),
            (ProcessStage::TakePipes, ProcessEvent::Stepped { succeeded }) => step_or(
                succeeded,
                ProcessStage::PollChild,
                ProcessEnd::OutputUnavailable,
            ),
            (ProcessStage::PollChild, ProcessEvent::Polled { poll, cancelled, elapsed }) =>
                self.polled(poll, cancelled, elapsed),
            (ProcessStage::Terminate { cause }, ProcessEvent::Stepped { succeeded }) => ends(
                if succeeded {
                    end_after_termination(cause)
                } else {
                    ProcessEnd::TerminationFailed
                },
            ),
            _ => self.stage,
        }
    }

    /// Whether a child process may exist.
    pub open spec fn has_child(self) -> bool {
        ||| self.stage is AssignJob
        ||| self.stage is ReapChild
        ||| self.stage is TakePipes
        ||| self.stage is PollChild
        ||| self.stage is Terminate
    }

    pub fn new(timeout: Option<u64>) -> (run: ProcessRun)
        ensures
            run == (ProcessRun { timeout, stage: ProcessStage::ResolveSecrets }),
    {
        ProcessRun { timeout, stage: ProcessStage::ResolveSecrets }
    }

    /// Takes in what came of the last step.
    pub fn advance(&mut self, event: ProcessEvent)
        ensures
            *final(self) == (ProcessRun {
                timeout: old(self).timeout,
                stage: old(self).stage_after(event),
            }),
    {
        let next = match (self.stage, event) {
            (ProcessStage::ResolveSecrets, ProcessEvent::Stepped { succeeded }) => if succeeded {
                ProcessStage::AcquireWakeLock
            } else {
                ProcessStage::Ended { end: ProcessEnd::CredentialUnavailable }
            },
            (ProcessStage::AcquireWakeLock, ProcessEvent::Stepped { succeeded }) => if succeeded {
                ProcessStage::CheckCancellation
            } else {
                ProcessStage::Ended { end: ProcessEnd::WakeLockUnavailable }
            },
            (ProcessStage::CheckCancellation, ProcessEvent::Cancellation { requested }) => if requested {
                ProcessStage::Ended { end: ProcessEnd::Cancelled }
            } else {
                ProcessStage::CreateJob
            },
            (ProcessStage::CreateJob, ProcessEvent::Stepped { succeeded }) => if succeeded {
                ProcessStage::SpawnChild
            } else {
                ProcessStage::Ended { end: ProcessEnd::IsolationFailed }
            },
            (ProcessStage::SpawnChild, ProcessEvent::Stepped { succeeded }) => if succeeded {
                ProcessStage::AssignJob
            } else {
                ProcessStage::Ended { end: ProcessEnd::StartFailed }
            },
            (ProcessStage::AssignJob, ProcessEvent::Stepped { succeeded }) => if succeeded {
                ProcessStage::TakePipes
            } else {
                ProcessStage::ReapChild
            },
            (ProcessStage::ReapChild, ProcessEvent::Stepped { .. }) => ProcessStage::Ended {
                end: ProcessEnd::IsolationFailed,
            },
            (ProcessStage::TakePipes, ProcessEvent::Stepped { succeeded }) => if succeeded {
                ProcessStage::PollChild
            } else {
                ProcessStage::Ended { end: ProcessEnd::OutputUnavailable }
            },
            (ProcessStage::PollChild, ProcessEvent::Polled { poll, cancelled, elapsed }) =>
                match poll {
                ChildPoll::Exited { status } => ProcessStage::Ended {
                    end: ProcessEnd::Exited { status },
                },
                ChildPoll::Unknown => ProcessStage::Terminate {
                    cause: TerminationCause::WaitFailed,
                },
                ChildPoll::Running => {
                    let timed_out = match self.timeout {
                        Some(timeout) => elapsed >= timeout,
                        None => false,
                    };
                    if cancelled {
                        ProcessStage::Terminate { cause: TerminationCause::Cancelled }
                    } else if timed_out {
                        ProcessStage::Terminate { cause: TerminationCause::TimedOut }
                    } else {
                        ProcessStage::PollChild
                    }
                },
            },
            (ProcessStage::Terminate { cause }, ProcessEvent::Stepped { succeeded }) => {
                let end = if succeeded {
                    match cause {
                        TerminationCause::Cancelled => ProcessEnd::Cancelled,
                        TerminationCause::TimedOut => ProcessEnd::TimedOut,
                        TerminationCause::WaitFailed => ProcessEnd::WaitFailed,
                    }
                } else {
                    ProcessEnd::TerminationFailed
                };
                ProcessStage::Ended { end }
            },
            (stage, _) => stage,
        };
        self.stage = next;
    }

    /// Nothing that happens after the end changes the end.
    pub proof fn an_ended_run_stays_ended(self, event: ProcessEvent)
        requires
            self.stage is Ended,
        ensures
            self.stage_after(event) == self.stage,
    {
    }

    /// A run that has a child is never left for an end before the child has
    /// been seen to exit, has been reaped, or has been told to terminate.
    pub proof fn a_child_is_never_abandoned(self, event: ProcessEvent)
        requires
            self.has_child(),
            !(self.stage is TakePipes),
            self.stage_after(event) is Ended,
        ensures
            self.stage is ReapChild || self.stage is Terminate || (event matches
                ProcessEvent::Polled { poll, .. } && poll is Exited),
    {
    }

    /// A child that still runs when its time is over is stopped.
    pub proof fn a_timeout_is_enforced(self, cancelled: bool, elapsed: u64)
        requires
            self.stage is PollChild,
            self.timeout is Some,
            elapsed >= self.timeout->0,
        ensures
            self.stage_after(
                ProcessEvent::Polled { poll: ChildPoll::Running, cancelled, elapsed },
            ) is Terminate,
    {
    }

    /// A run that was asked to stop before its child started never starts one.
    pub proof fn an_early_cancellation_starts_nothing(self)
        requires
            self.stage is CheckCancellation,
        ensures
            self.stage_after(ProcessEvent::Cancellation { requested: true }) == ends(
                ProcessEnd::Cancelled,
            ),
    {
    }
}

/// The code for an end that says nothing of restic itself.
pub open spec fn end_code(end: ProcessEnd) -> Option<Seq<char>> {
    match end {
        ProcessEnd::CredentialUnavailable => Some("credential_unavailable"@),
        ProcessEnd::WakeLockUnavailable => Some("wake_lock_unavailable"@),
        ProcessEnd::IsolationFailed => Some("process_isolation_failed"@),
        ProcessEnd::StartFailed => Some("restic_start_failed"@),
        ProcessEnd::OutputUnavailable => Some("restic_output_unavailable"@),
        ProcessEnd::TerminationFailed => Some("restic_termination_failed"@),
        ProcessEnd::TimedOut => Some("repository_operation_timed_out"@),
        ProcessEnd::WaitFailed => Some("restic_wait_failed"@),
        ProcessEnd::Cancelled | ProcessEnd::Exited { .. } => None,
    }
}

fn code_of_end(end: ProcessEnd) -> (code: Option<&'static str>)
    ensures
        static_chars(code) == end_code(end),
{
    match end {
        ProcessEnd::CredentialUnavailable => Some("credential_unavailable"),
        ProcessEnd::WakeLockUnavailable => Some("wake_lock_unavailable"),
        ProcessEnd::IsolationFailed => Some("process_isolation_failed"),
        ProcessEnd::StartFailed => Some("restic_start_failed"),
        ProcessEnd::OutputUnavailable => Some("restic_output_unavailable"),
        ProcessEnd::TerminationFailed => Some("restic_termination_failed"),
        ProcessEnd::TimedOut => Some("repository_operation_timed_out"),
        ProcessEnd::WaitFailed => Some("restic_wait_failed"),
        ProcessEnd::Cancelled | ProcessEnd::Exited { .. } => None,
    }
}

/// The code for an operation that restic ended with a failure, given what its
/// diagnostics were reduced to. A probe that found no repository has its own
/// exit status; otherwise a classified diagnostic comes first.
pub open spec fn operation_failure(
    operation: ResticOperation,
    status: Option<i32>,
    classified: Option<Seq<char>>,
) -> Seq<char> {
    if operation is Probe && status == Some(10i32) {
        "repository_not_found"@
    } else if classified is Some {
        classified->0
    } else if operation is Probe {
        "repository_validation_failed"@
    } else if operation is Initialize {
        "repository_initialization_failed"@
    } else {
        "repository_operation_failed"@
    }
}

/// `outcome` is what an operation that came to `end` is reported as.
pub open spec fn reports_operation(
    outcome: RepositoryOutcome,
    operation: ResticOperation,
    end: ProcessEnd,
    classified: Option<Seq<char>>,
) -> bool {
    match end {
        ProcessEnd::Cancelled => outcome.kind is Cancelled,
        ProcessEnd::Exited { status } => if status == Some(0i32) {
            outcome.kind is Succeeded
        } else {
            outcome.is_failure(operation_failure(operation, status, classified))
        },
        _ => outcome.is_failure(end_code(end)->0),
    }
}

fn same_status(status: Option<i32>, code: i32) -> (same: bool)
    ensures
        same == (status == Some(code)),
{
    match status {
        Some(status) => status == code,
        None => false,
    }
}

/// Reports an operation, given what its diagnostics were reduced to.
pub fn report_operation(
    operation: ResticOperation,
    end: ProcessEnd,
    classified: Option<&'static str>,
) -> (outcome: RepositoryOutcome)
    ensures
        reports_operation(outcome, operation, end, static_chars(classified)),
{
    match end {
        ProcessEnd::Cancelled => RepositoryOutcome::cancelled(),
        ProcessEnd::Exited { status } => {
            if same_status(status, 0) {
                RepositoryOutcome::succeeded()
            } else if operation == ResticOperation::Probe && same_status(status, 10) {
                RepositoryOutcome::failed("repository_not_found")
            } else {
                match classified {
                    Some(code) => RepositoryOutcome::failed(code),
                    None => match operation {
                        ResticOperation::Probe => RepositoryOutcome::failed(
                            "repository_validation_failed",
                        ),
                        ResticOperation::Initialize => RepositoryOutcome::failed(
                            "repository_initialization_failed",
                        ),
                        _ => RepositoryOutcome::failed("repository_operation_failed"),
                    },
                }
            }
        },
        _ => match code_of_end(end) {
            Some(code) => RepositoryOutcome::failed(code),
            None => RepositoryOutcome::cancelled(),
        },
    }
}

/// Reports an operation on the repository once its process has ended.
pub fn finish_repository_invocation(
    operation: ResticOperation,
    end: ProcessEnd,
    stderr: &[u8],
) -> (outcome: RepositoryOutcome)
    ensures
        reports_operation(outcome, operation, end, stderr_class(stderr@)),
{
    report_operation(operation, end, classify_stderr(stderr))
}

/// An operation for whose configuration there is no command.
pub fn unplanned_operation() -> (outcome: RepositoryOutcome)
    ensures
        outcome.is_failure("invalid_repository_configuration"@),
{
    RepositoryOutcome::failed("invalid_repository_configuration")
}

/// The code for a backup that restic ended with a failure.
pub open spec fn backup_failure(status: Option<i32>, classified: Option<Seq<char>>) -> Seq<char> {
    match status {
        Some(code) => match classified {
            Some(class) => class,
            None => "restic_exit_"@ + text::signed_decimal(code as int),
        },
        None => "restic_terminated"@,
    }
}

/// The warning of a backup that made a snapshot: live files instead of a
/// filesystem snapshot, sources that were not read, and a snapshot of the
/// filesystem left behind, in every combination. Nothing for a clean run.
pub open spec fn backup_warning(partial: bool, fallback: bool, cleanup_failed: bool) -> Option<
    Seq<char>,
> {
    match (partial, fallback, cleanup_failed) {
        (false, true, true) => Some("restic_vss_fallback_and_cleanup_failed"@),
        (false, true, false) => Some("restic_vss_fallback"@),
        (false, false, true) => Some("restic_vss_cleanup_failed"@),
        (false, false, false) => None,
        (true, true, true) => Some("restic_vss_fallback_partial_source_and_cleanup_failed"@),
        (true, true, false) => Some("restic_vss_fallback_and_partial_source"@),
        (true, false, true) => Some("restic_partial_source_and_vss_cleanup_failed"@),
        (true, false, false) => Some("restic_partial_source"@),
    }
}

fn warning_of(partial: bool, fallback: bool, cleanup_failed: bool) -> (code: Option<&'static str>)
    ensures
        static_chars(code) == backup_warning(partial, fallback, cleanup_failed),
{
    if partial {
        if fallback && cleanup_failed {
            Some("restic_vss_fallback_partial_source_and_cleanup_failed")
        } else if fallback {
            Some("restic_vss_fallback_and_partial_source")
        } else if cleanup_failed {
            Some("restic_partial_source_and_vss_cleanup_failed")
        } else {
            Some("restic_partial_source")
        }
    } else if fallback && cleanup_failed {
        Some("restic_vss_fallback_and_cleanup_failed")
    } else if fallback {
        Some("restic_vss_fallback")
    } else if cleanup_failed {
        Some("restic_vss_cleanup_failed")
    } else {
        None
    }
}

/// `outcome` is what a backup that exited with `status` is reported as. A valid
/// summary counts whatever other lines were unreadable.
pub open spec fn reports_backup(
    outcome: BackupOutcome,
    status: Option<i32>,
    output: Result<ParsedOutput, ()>,
    stderr_output: Result<ParsedOutput, ()>,
    classified: Option<Seq<char>>,
    known_vss_fallback: bool,
) -> bool {
    if status == Some(130i32) {
        outcome.is_cancellation()
    } else if output is Err {
        outcome.is_failure("restic_output_invalid"@)
    } else {
        let parsed = output->Ok_0;
        let details = match stderr_output {
            Ok(more) => parsed.failure_details@.merged(more.failure_details@),
            Err(()) => parsed.failure_details@,
        };
        let fallback = parsed.vss_fallback || known_vss_fallback || (stderr_output is Ok
            && stderr_output->Ok_0.vss_fallback);
        let cleanup_failed = parsed.vss_cleanup_failed || (stderr_output is Ok
            && stderr_output->Ok_0.vss_cleanup_failed);
        match parsed.summary {
            None => outcome.is_failure(
                if status == Some(0i32) {
                    if parsed.invalid_message {
                        "restic_output_invalid"@
                    } else {
                        "restic_summary_missing"@
                    }
                } else {
                    backup_failure(status, classified)
                },
            ),
            Some(summary) => if status == Some(0i32) || status == Some(3i32) {
                match backup_warning(status == Some(3i32), fallback, cleanup_failed) {
                    Some(code) => outcome.is_warning(summary, code, details),
                    None => outcome.is_clean(summary),
                }
            } else {
                outcome.is_failure(backup_failure(status, classified))
            },
        }
    }
}

fn failed_backup(status: Option<i32>, classified: Option<&'static str>) -> (outcome: BackupOutcome)
    ensures
        outcome.is_failure(backup_failure(status, static_chars(classified))),
{
    match status {
        Some(code) => match classified {
            Some(class) => BackupOutcome::failed(class),
            None => {
                let digits = text::signed_decimal_text(code);
                let name = text::joined("restic_exit_", digits.as_str());
                BackupOutcome::failed(name.as_str())
            },
        },
        None => BackupOutcome::failed("restic_terminated"),
    }
}

/// Reports a backup, given what its diagnostics were reduced to.
pub fn report_backup(
    status: Option<i32>,
    output: Result<ParsedOutput, ()>,
    stderr_output: Result<ParsedOutput, ()>,
    classified: Option<&'static str>,
    known_vss_fallback: bool,
) -> (outcome: BackupOutcome)
    ensures
        reports_backup(
            outcome,
            status,
            output,
            stderr_output,
            static_chars(classified),
            known_vss_fallback,
        ),
{
    if same_status(status, 130) {
        return BackupOutcome::cancelled();
    }
    let parsed = match output {
        Ok(parsed) => parsed,
        Err(()) => return BackupOutcome::failed("restic_output_invalid"),
    };
    let summary = match parsed.summary {
        Some(summary) => summary,
        None => {
            return if same_status(status, 0) {
                if parsed.invalid_message {
                    BackupOutcome::failed("restic_output_invalid")
                } else {
                    BackupOutcome::failed("restic_summary_missing")
                }
            } else {
                failed_backup(status, classified)
            };
        },
    };
    let mut failure_details = parsed.failure_details;
    let mut vss_fallback = parsed.vss_fallback || known_vss_fallback;
    let mut vss_cleanup_failed = parsed.vss_cleanup_failed;
    if let Ok(more) = stderr_output {
        failure_details.merge(more.failure_details);
        vss_fallback = vss_fallback || more.vss_fallback;
        vss_cleanup_failed = vss_cleanup_failed || more.vss_cleanup_failed;
    }
    let partial = same_status(status, 3);
    if !partial && !same_status(status, 0) {
        return failed_backup(status, classified);
    }
    match warning_of(partial, vss_fallback, vss_cleanup_failed) {
        Some(code) => BackupOutcome::warnings(summary, code, failure_details),
        None => BackupOutcome::succeeded(summary),
    }
}

/// Reports a backup whose process has exited.
pub fn finish_outcome(
    status: Option<i32>,
    output: Result<ParsedOutput, ()>,
    stderr_output: Result<ParsedOutput, ()>,
    stderr: &[u8],
    known_vss_fallback: bool,
) -> (outcome: BackupOutcome)
    ensures
        reports_backup(
            outcome,
            status,
            output,
            stderr_output,
            stderr_class(stderr@),
            known_vss_fallback,
        ),
{
    report_backup(status, output, stderr_output, classify_stderr(stderr), known_vss_fallback)
}

/// `outcome` is what a backup whose run came to `end` is reported as.
pub open spec fn reports_invocation(
    outcome: BackupOutcome,
    end: ProcessEnd,
    output: Result<ParsedOutput, ()>,
    stderr_output: Result<ParsedOutput, ()>,
    classified: Option<Seq<char>>,
    known_vss_fallback: bool,
) -> bool {
    match end {
        ProcessEnd::Cancelled => outcome.is_cancellation(),
        ProcessEnd::Exited { status } => reports_backup(
            outcome,
            status,
            output,
            stderr_output,
            classified,
            known_vss_fallback,
        ),
        _ => outcome.is_failure(end_code(end)->0),
    }
}

/// Reports a backup once its process has ended.
pub fn finish_invocation(
    end: ProcessEnd,
    output: Result<ParsedOutput, ()>,
    stderr_output: Result<ParsedOutput, ()>,
    stderr: &[u8],
    known_vss_fallback: bool,
) -> (outcome: BackupOutcome)
    ensures
        reports_invocation(
            outcome,
            end,
            output,
            stderr_output,
            stderr_class(stderr@),
            known_vss_fallback,
        ),
{
    match end {
        ProcessEnd::Cancelled => BackupOutcome::cancelled(),
        ProcessEnd::Exited { status } => finish_outcome(
            status,
            output,
            stderr_output,
            stderr,
            known_vss_fallback,
        ),
        _ => match code_of_end(end) {
            Some(code) => BackupOutcome::failed(code),
            None => BackupOutcome::cancelled(),
        },
    }
}

/// A backup is a success without warnings only where restic exited cleanly,
/// wrote a summary, read a filesystem snapshot throughout and removed it again.
pub proof fn a_plain_success_has_nothing_to_hide(
    outcome: BackupOutcome,
    status: Option<i32>,
    output: Result<ParsedOutput, ()>,
    stderr_output: Result<ParsedOutput, ()>,
    classified: Option<Seq<char>>,
    known_vss_fallback: bool,
)
    requires
        reports_backup(outcome, status, output, stderr_output, classified, known_vss_fallback),
        outcome.kind is Succeeded,
    ensures
        status == Some(0i32),
        output is Ok,
        output->Ok_0.summary is Some,
        !known_vss_fallback,
        !output->Ok_0.vss_fallback,
        !output->Ok_0.vss_cleanup_failed,
        stderr_output is Ok ==> !stderr_output->Ok_0.vss_fallback
            && !stderr_output->Ok_0.vss_cleanup_failed,
{
}

/// A backup makes a snapshot exactly where restic exited with success or with
/// unread sources after it had written a summary.
pub proof fn a_snapshot_needs_a_summary(
    outcome: BackupOutcome,
    status: Option<i32>,
    output: Result<ParsedOutput, ()>,
    stderr_output: Result<ParsedOutput, ()>,
    classified: Option<Seq<char>>,
    known_vss_fallback: bool,
)
    requires
        reports_backup(outcome, status, output, stderr_output, classified, known_vss_fallback),
    ensures
        outcome.made_a_snapshot() == ((status == Some(0i32) || status == Some(3i32)) && output is Ok
            && output->Ok_0.summary is Some),
{
}

/// What a failed removal of stale locks is called in the report of the backup.
pub open spec fn cleanup_code(code: Seq<char>) -> Seq<char> {
    if code == "repository_operation_timed_out"@ {
        "stale_lock_cleanup_timed_out"@
    } else if code == "repository_operation_failed"@ {
        "stale_lock_cleanup_failed"@
    } else {
        code
    }
}

/// `blocked` is the backup that the removal of stale locks kept from starting;
/// there is none where the locks were removed.
pub open spec fn blocks_backup(blocked: Option<BackupOutcome>, cleanup: RepositoryOutcome) -> bool {
    match cleanup.kind {
        RepositoryOutcomeKind::Succeeded => blocked is None,
        RepositoryOutcomeKind::Cancelled => blocked is Some && blocked->0.is_cancellation(),
        RepositoryOutcomeKind::Failed { code } => blocked is Some && blocked->0.is_failure(
            cleanup_code(code@),
        ),
    }
}

pub fn backup_outcome_for_lock_cleanup(cleanup: &RepositoryOutcome) -> (blocked: Option<
    BackupOutcome,
>)
    ensures
        blocks_backup(blocked, *cleanup),
{
    match &cleanup.kind {
        RepositoryOutcomeKind::Succeeded => None,
        RepositoryOutcomeKind::Cancelled => Some(BackupOutcome::cancelled()),
        RepositoryOutcomeKind::Failed { code } => {
            if text::same_text(code.as_str(), "repository_operation_timed_out") {
                Some(BackupOutcome::failed("stale_lock_cleanup_timed_out"))
            } else if text::same_text(code.as_str(), "repository_operation_failed") {
                Some(BackupOutcome::failed("stale_lock_cleanup_failed"))
            } else {
                Some(BackupOutcome::failed(code.as_str()))
            }
        },
    }
}

/// Why restic is not started for a configuration.
#[derive(Debug, PartialEq, Eq)]
pub enum InvocationError {
    UnsupportedNetworkBackupSource,
    UnsupportedBackupSourceNamespace,
    ProtectedBackupSource,
    Invalid { message: String },
}

pub open spec fn invocation_code(error: InvocationError) -> Seq<char> {
    match error {
        InvocationError::UnsupportedNetworkBackupSource => "network_backup_source_unsupported"@,
        InvocationError::UnsupportedBackupSourceNamespace => "backup_source_namespace_unsupported"@,
        InvocationError::ProtectedBackupSource => "protected_backup_source"@,
        InvocationError::Invalid { .. } => "invalid_configuration"@,
    }
}

pub fn backup_invocation_error_code(error: &InvocationError) -> (code: &'static str)
    ensures
        code@ == invocation_code(*error),
{
    match error {
        InvocationError::UnsupportedNetworkBackupSource => "network_backup_source_unsupported",
        InvocationError::UnsupportedBackupSourceNamespace => "backup_source_namespace_unsupported",
        InvocationError::ProtectedBackupSource => "protected_backup_source",
        InvocationError::Invalid { .. } => "invalid_configuration",
    }
}

/// What has to be done next for a backup. Sources can change while stale locks
/// are removed, so they are checked before and again after.
pub enum BackupStage {
    Plan,
    RemoveStaleLocks,
    PlanAgain,
    Execute,
    Ended { outcome: BackupOutcome },
}

/// What came of the last step of a backup.
pub enum BackupEvent {
    Planned { result: Result<(), InvocationError> },
    CleanedUp { outcome: RepositoryOutcome },
    Executed { backup: BackupOutcome },
}

impl BackupStage {
    /// `self` is the stage that follows `before` upon `event`.
    pub open spec fn follows(self, before: BackupStage, event: BackupEvent) -> bool {
        match (before, event) {
            (BackupStage::Plan, BackupEvent::Planned { result }) => match result {
                Ok(()) => self is RemoveStaleLocks,
                Err(error) => self is Ended && self->outcome.is_failure(invocation_code(error)),
            },
            (BackupStage::RemoveStaleLocks, BackupEvent::CleanedUp { outcome }) =>
                if outcome.kind is Succeeded {
                self is PlanAgain
            } else {
                self is Ended && blocks_backup(Some(self->outcome), outcome)
            },
            (BackupStage::PlanAgain, BackupEvent::Planned { result }) => match result {
                Ok(()) => self is Execute,
                Err(error) => self is Ended && self->outcome.is_failure(invocation_code(error)),
            },
            (BackupStage::Execute, BackupEvent::Executed { backup }) => self
                == (BackupStage::Ended { outcome: backup }),
            _ => self == before,
        }
    }

    /// Takes in what came of the last step.
    pub fn advance(self, event: BackupEvent) -> (next: BackupStage)
        ensures
            next.follows(self, event),
    {
        match (self, event) {
            (BackupStage::Plan, BackupEvent::Planned { result }) => match result {
                Ok(()) => BackupStage::RemoveStaleLocks,
                Err(error) => BackupStage::Ended {
                    outcome: BackupOutcome::failed(backup_invocation_error_code(&error)),
                },
            },
            (BackupStage::RemoveStaleLocks, BackupEvent::CleanedUp { outcome }) =>
                match backup_outcome_for_lock_cleanup(&outcome) {
                Some(outcome) => BackupStage::Ended { outcome },
                None => BackupStage::PlanAgain,
            },
            (BackupStage::PlanAgain, BackupEvent::Planned { result }) => match result {
                Ok(()) => BackupStage::Execute,
                Err(error) => BackupStage::Ended {
                    outcome: BackupOutcome::failed(backup_invocation_error_code(&error)),
                },
            },
            (BackupStage::Execute, BackupEvent::Executed { backup }) => BackupStage::Ended {
                outcome: backup,
            },
            (stage, _) => stage,
        }
    }
}

/// A backup that ends before restic was started on the sources made no snapshot.
pub proof fn nothing_is_backed_up_before_the_checks_pass(
    before: BackupStage,
    event: BackupEvent,
    after: BackupStage,
)
    requires
        after.follows(before, event),
        after is Ended,
        before is Plan || before is RemoveStaleLocks || before is PlanAgain,
    ensures
        !after->outcome.made_a_snapshot(),
{
}

/// Restic is started on the sources only after their second check has passed.
pub proof fn execution_follows_a_second_check(
    before: BackupStage,
    event: BackupEvent,
    after: BackupStage,
)
    requires
        after.follows(before, event),
        after is Execute,
        !(before is Execute),
    ensures
        before is PlanAgain,
        event matches BackupEvent::Planned { result } && result is Ok,
{
}

/// What has to be done next for the retention of snapshots.
pub enum RetentionStage {
    PlanForget,
    Forget,
    PlanPrune,
    Prune,
    Ended { outcome: RetentionOutcome },
}

/// What came of the last step of the retention.
pub enum RetentionEvent {
    Planned { allowed: bool },
    Ran { outcome: RepositoryOutcome },
}

/// The retention of snapshots after a backup: old snapshots are forgotten, and
/// where it is due their data is pruned.
pub struct RetentionRun {
    pub prune_due: bool,
    pub stage: RetentionStage,
}

/// The code for a step of the retention: an unclassified failure is named after the step.
pub open spec fn retention_code(code: Seq<char>, step: Seq<char>) -> Seq<char> {
    if code == "repository_operation_failed"@ {
        step
    } else {
        code
    }
}

pub open spec fn retention_failed(stage: RetentionStage, code: Seq<char>) -> bool {
    stage is Ended && stage->outcome.is_failure(code)
}

/// `self` ends the retention as its failed step did.
pub open spec fn retention_stopped(
    stage: RetentionStage,
    outcome: RepositoryOutcome,
    step: Seq<char>,
) -> bool {
    match outcome.kind {
        RepositoryOutcomeKind::Cancelled => stage is Ended && stage->outcome.kind is Cancelled,
        RepositoryOutcomeKind::Failed { code } => retention_failed(stage, retention_code(code@, step)),
        RepositoryOutcomeKind::Succeeded => false,
    }
}

pub open spec fn retention_done(stage: RetentionStage, pruned: bool) -> bool {
    stage is Ended && stage->outcome.kind == (RetentionOutcomeKind::Succeeded { pruned })
}

fn failed_retention(code: &String, step: &str) -> (outcome: RetentionOutcome)
    ensures
        outcome.is_failure(retention_code(code@, step@)),
{
    if text::same_text(code.as_str(), "repository_operation_failed") {
        RetentionOutcome::failed(step)
    } else {
        RetentionOutcome::failed(code.as_str())
    }
}

impl RetentionRun {
    /// `stage` follows upon `event`.
    pub open spec fn leads_to(self, event: RetentionEvent, stage: RetentionStage) -> bool {
        match (self.stage, event) {
            (RetentionStage::PlanForget, RetentionEvent::Planned { allowed }) => if allowed {
                stage is Forget
            } else {
                retention_failed(stage, "retention_forbidden"@)
            },
            (RetentionStage::Forget, RetentionEvent::Ran { outcome }) =>
                if outcome.kind is Succeeded {
                if self.prune_due {
                    stage is PlanPrune
                } else {
                    retention_done(stage, false)
                }
            } else {
                retention_stopped(stage, outcome, "retention_forget_failed"@)
            },
            (RetentionStage::PlanPrune, RetentionEvent::Planned { allowed }) => if allowed {
                stage is Prune
            } else {
                retention_failed(stage, "retention_forbidden"@)
            },
            (RetentionStage::Prune, RetentionEvent::Ran { outcome }) => if outcome.kind is Succeeded {
                retention_done(stage, true)
            } else {
                retention_stopped(stage, outcome, "retention_prune_failed"@)
            },
            _ => stage == self.stage,
        }
    }

    pub fn new(prune_due: bool) -> (run: RetentionRun)
        ensures
            run.prune_due == prune_due,
            run.stage is PlanForget,
    {
        RetentionRun { prune_due, stage: RetentionStage::PlanForget }
    }

    /// The command that is planned or run at this stage.
    pub fn command(&self) -> (command: Option<ResticOperation>)
        ensures
            command == (match self.stage {
                RetentionStage::PlanForget | RetentionStage::Forget => Some(ResticOperation::Forget),
                RetentionStage::PlanPrune | RetentionStage::Prune => Some(ResticOperation::Prune),
                RetentionStage::Ended { .. } => None,
            }),
    {
        match &self.stage {
            RetentionStage::PlanForget | RetentionStage::Forget => Some(ResticOperation::Forget),
            RetentionStage::PlanPrune | RetentionStage::Prune => Some(ResticOperation::Prune),
            RetentionStage::Ended { .. } => None,
        }
    }

    /// Takes in what came of the last step.
    pub fn advance(self, event: RetentionEvent) -> (next: RetentionRun)
        ensures
            next.prune_due == self.prune_due,
            self.leads_to(event, next.stage),
    {
        let prune_due = self.prune_due;
        let stage = match (self.stage, event) {
            (RetentionStage::PlanForget, RetentionEvent::Planned { allowed }) => if allowed {
                RetentionStage::Forget
            } else {
                RetentionStage::Ended { outcome: RetentionOutcome::failed("retention_forbidden") }
            },
            (RetentionStage::Forget, RetentionEvent::Ran { outcome }) => match &outcome.kind {
                RepositoryOutcomeKind::Succeeded => if prune_due {
                    RetentionStage::PlanPrune
                } else {
                    RetentionStage::Ended { outcome: RetentionOutcome::succeeded(false) }
                },
                RepositoryOutcomeKind::Cancelled => RetentionStage::Ended {
                    outcome: RetentionOutcome::cancelled(),
                },
                RepositoryOutcomeKind::Failed { code } => RetentionStage::Ended {
                    outcome: failed_retention(code, "retention_forget_failed"),
                },
            },
            (RetentionStage::PlanPrune, RetentionEvent::Planned { allowed }) => if allowed {
                RetentionStage::Prune
            } else {
                RetentionStage::Ended { outcome: RetentionOutcome::failed("retention_forbidden") }
            },
            (RetentionStage::Prune, RetentionEvent::Ran { outcome }) => match &outcome.kind {
                RepositoryOutcomeKind::Succeeded => RetentionStage::Ended {
                    outcome: RetentionOutcome::succeeded(true),
                },
                RepositoryOutcomeKind::Cancelled => RetentionStage::Ended {
                    outcome: RetentionOutcome::cancelled(),
                },
                RepositoryOutcomeKind::Failed { code } => RetentionStage::Ended {
                    outcome: failed_retention(code, "retention_prune_failed"),
                },
            },
            (stage, _) => stage,
        };
        RetentionRun { prune_due, stage }
    }
}

/// Data is pruned only where that is due, and only after the old snapshots have
/// been forgotten.
pub proof fn pruning_is_due_and_follows_forgetting(
    run: RetentionRun,
    event: RetentionEvent,
    stage: RetentionStage,
)
    requires
        run.leads_to(event, stage),
        stage is PlanPrune,
        !(run.stage is PlanPrune),
    ensures
        run.prune_due,
        run.stage is Forget,
        event matches RetentionEvent::Ran { outcome } && outcome.kind is Succeeded,
{
}

} // verus!
