//! Installing a driver as a service, and removing it again.
//!
//! The service manager is never called from here. A job is a short
//! conversation: [`next_step`] says which operation to perform, the caller
//! performs it and comes back with the platform's answer, until the job is
//! complete or has failed. Nothing is tried twice.

use crate::driver::WinKernelDriver;
use crate::utils::{hex, hex_text};
use vstd::prelude::*;
use vstd::string::StringExecFns;

verus! {

/// The platform's error code for a service that is registered already.
pub const ERROR_SERVICE_EXISTS: u32 = 1073;

/// The two jobs.
#[derive(Clone, Copy, Debug, PartialEq, Eq, Structural)]
pub enum ServiceJob {
    /// Register the driver as a service and start it.
    Install,
    /// Stop the service if it is not stopped, and delete its registration.
    Uninstall,
}

/// One operation of the service manager.
#[derive(Clone, Copy, Debug, PartialEq, Eq, Structural)]
pub enum ServiceOp {
    /// Connect to the service manager of the local computer, with every
    /// access right.
    Connect,
    /// Register the service that [`WinKernelDriver::service_info`] describes,
    /// with every access right to it.
    Create,
    /// Start the service that was registered.
    Start,
    /// Open the service that is named by the device id, with every access
    /// right to it.
    Open,
    /// Ask for the state of the service that was opened.
    Query,
    /// Stop the service that was opened.
    Stop,
    /// Delete the registration of the service that was opened.
    Delete,
}

/// The state that a service can be in.
#[derive(Clone, Copy, Debug, PartialEq, Eq, Structural)]
pub enum ServiceState {
    Stopped,
    StartPending,
    StopPending,
    Running,
    ContinuePending,
    PausePending,
    Paused,
}

/// The platform's answer to one operation.
#[derive(Clone, Copy, Debug, PartialEq, Eq, Structural)]
pub enum ServiceReply {
    /// It succeeded.
    Done,
    /// It succeeded and gave the state of the service: the answer to
    /// [`ServiceOp::Query`].
    Status(ServiceState),
    /// It failed, with the platform's error code.
    Failed(u32),
}

/// What the caller comes with.
#[derive(Clone, Copy, Debug, PartialEq, Eq, Structural)]
pub enum ServiceEvent {
    /// Nothing yet: the job begins.
    Begin,
    /// The operation that was performed last, and the platform's answer.
    Answered(ServiceOp, ServiceReply),
}

/// How a job failed.
#[derive(Clone, Copy, Debug, PartialEq, Eq, Structural)]
pub enum ServiceError {
    /// The platform refused `op`, with its error code.
    Platform { op: ServiceOp, code: u32 },
    /// The caller came with an operation that the job does not perform, or
    /// with an answer that the operation does not give.
    OutOfSequence { op: ServiceOp },
}

/// What the caller is to do next.
#[derive(Clone, Copy, Debug, PartialEq, Eq, Structural)]
pub enum ServiceStep {
    /// Perform this operation and come back with the answer.
    Perform(ServiceOp),
    /// The job is done.
    Complete,
    /// The job has failed. Nothing more is to be performed.
    Failed(ServiceError),
}

/// The kind of a service.
#[derive(Clone, Copy, Debug, PartialEq, Eq, Structural)]
pub enum ServiceType {
    FileSystemDriver,
    KernelDriver,
    OwnProcess,
    ShareProcess,
}

/// When a service is started.
#[derive(Clone, Copy, Debug, PartialEq, Eq, Structural)]
pub enum ServiceStartType {
    AutoStart,
    OnDemand,
    Disabled,
    SystemStart,
    BootStart,
}

/// How severe it is if a service fails to start.
#[derive(Clone, Copy, Debug, PartialEq, Eq, Structural)]
pub enum ServiceErrorControl {
    Critical,
    Ignore,
    Normal,
    Severe,
}

/// What a service is registered with.
#[derive(Clone, Debug, PartialEq, Eq)]
pub struct ServiceRegistration {
    /// The name of the service.
    pub name: String,
    /// The name that users are shown.
    pub display_name: String,
    pub service_type: ServiceType,
    pub start_type: ServiceStartType,
    pub error_control: ServiceErrorControl,
    /// The path of the file that the service runs.
    pub executable_path: String,
    pub launch_arguments: Vec<String>,
    /// The names of the services that this one depends on.
    pub dependencies: Vec<String>,
    /// The account to run under; `None` for the system's own.
    pub account_name: Option<String>,
    pub account_password: Option<String>,
}

impl ServiceJob {
    /// The operations of this job, in the order in which they are performed
    /// when each of them succeeds. Uninstalling stops the service only if it
    /// was not found stopped.
    pub open spec fn script(self, found_stopped: bool) -> Seq<ServiceOp> {
        match self {
            ServiceJob::Install => seq![ServiceOp::Connect, ServiceOp::Create, ServiceOp::Start],
            ServiceJob::Uninstall => if found_stopped {
                seq![ServiceOp::Connect, ServiceOp::Open, ServiceOp::Query, ServiceOp::Delete]
            } else {
                seq![
                    ServiceOp::Connect,
                    ServiceOp::Open,
                    ServiceOp::Query,
                    ServiceOp::Stop,
                    ServiceOp::Delete,
                ]
            },
        }
    }

    /// Whether this job performs `op` at all.
    pub open spec fn performs(self, op: ServiceOp) -> bool {
        match self {
            ServiceJob::Install => op is Connect || op is Create || op is Start,
            ServiceJob::Uninstall => op is Connect || op is Open || op is Query || op is Stop
                || op is Delete,
        }
    }

    /// What follows `op` when it has succeeded; `state` is the state that a
    /// query reported.
    pub open spec fn after(self, op: ServiceOp, state: Option<ServiceState>) -> ServiceStep {
        match (self, op) {
            (ServiceJob::Install, ServiceOp::Connect) => ServiceStep::Perform(ServiceOp::Create),
            (ServiceJob::Install, ServiceOp::Create) => ServiceStep::Perform(ServiceOp::Start),
            (ServiceJob::Install, ServiceOp::Start) => ServiceStep::Complete,
            (ServiceJob::Uninstall, ServiceOp::Connect) => ServiceStep::Perform(ServiceOp::Open),
            (ServiceJob::Uninstall, ServiceOp::Open) => ServiceStep::Perform(ServiceOp::Query),
            (ServiceJob::Uninstall, ServiceOp::Query) => match state {
                Some(ServiceState::Stopped) => ServiceStep::Perform(ServiceOp::Delete),
                Some(_) => ServiceStep::Perform(ServiceOp::Stop),
                None => ServiceStep::Failed(ServiceError::OutOfSequence { op }),
            },
            (ServiceJob::Uninstall, ServiceOp::Stop) => ServiceStep::Perform(ServiceOp::Delete),
            (ServiceJob::Uninstall, ServiceOp::Delete) => ServiceStep::Complete,
            _ => ServiceStep::Failed(ServiceError::OutOfSequence { op }),
        }
    }

    /// What the caller is to do next in this job.
    ///
    /// A job begins by connecting to the service manager. A failure that the
    /// platform reports ends the job with that operation and code. A state
    /// is the answer to a query and to nothing else, and a query is answered
    /// by nothing else.
    pub open spec fn next(self, event: ServiceEvent) -> ServiceStep {
        match event {
            ServiceEvent::Begin => ServiceStep::Perform(ServiceOp::Connect),
            ServiceEvent::Answered(op, reply) => if !self.performs(op) {
                ServiceStep::Failed(ServiceError::OutOfSequence { op })
            } else {
                match reply {
                    ServiceReply::Failed(code) => ServiceStep::Failed(ServiceError::Platform { op, code }),
                    ServiceReply::Done => self.after(op, None),
                    ServiceReply::Status(state) => if op is Query {
                        self.after(op, Some(state))
                    } else {
                        ServiceStep::Failed(ServiceError::OutOfSequence { op })
                    },
                }
            },
        }
    }
}

impl ServiceOp {
    /// What to tell the user when this operation has failed.
    pub open spec fn failure_text(self) -> Seq<char> {
        match self {
            ServiceOp::Connect => "Unable to connect to service manager"@,
            ServiceOp::Create => "Service error"@,
            ServiceOp::Start => "Failed to start service"@,
            ServiceOp::Open => "Error opening service"@,
            ServiceOp::Query => "Error querying service status"@,
            ServiceOp::Stop => "Error stopping service"@,
            ServiceOp::Delete => "Error deleting service"@,
        }
    }

    /// What to tell the user when this operation has failed.
    pub fn failure(&self) -> (text: String)
        ensures
            text@ == self.failure_text(),
    {
        match self {
            ServiceOp::Connect => String::from_str("Unable to connect to service manager"),
            ServiceOp::Create => String::from_str("Service error"),
            ServiceOp::Start => String::from_str("Failed to start service"),
            ServiceOp::Open => String::from_str("Error opening service"),
            ServiceOp::Query => String::from_str("Error querying service status"),
            ServiceOp::Stop => String::from_str("Error stopping service"),
            ServiceOp::Delete => String::from_str("Error deleting service"),
        }
    }
}

impl ServiceError {
    /// What to tell the user: the operation that failed, and the platform's
    /// error code in hexadecimal where there is one.
    pub open spec fn message_text(self) -> Seq<char> {
        match self {
            ServiceError::Platform { op, code } => op.failure_text() + ": error code "@ + hex_text(
                code as nat,
            ),
            ServiceError::OutOfSequence { op } => op.failure_text() + ": out of sequence"@,
        }
    }

    /// What to tell the user.
    pub fn message(&self) -> (text: String)
        ensures
            text@ == self.message_text(),
    {
        match self {
            ServiceError::Platform { op, code } => op.failure().concat(": error code ").concat(
                hex(*code).as_str(),
            ),
            ServiceError::OutOfSequence { op } => op.failure().concat(": out of sequence"),
        }
    }

    /// Whether registering failed because a service of that name exists.
    /// Installing does not treat this as success; a caller may.
    pub open spec fn is_already_registered(self) -> bool {
        self == (ServiceError::Platform { op: ServiceOp::Create, code: ERROR_SERVICE_EXISTS })
    }

    /// Whether registering failed because a service of that name exists.
    pub fn already_registered(&self) -> (r: bool)
        ensures
            r == self.is_already_registered(),
    {
        match self {
            ServiceError::Platform { op: ServiceOp::Create, code } => *code == ERROR_SERVICE_EXISTS,
            _ => false,
        }
    }
}

/// What the caller is to do next in `job`, given what it comes with.
pub fn next_step(job: ServiceJob, event: ServiceEvent) -> (step: ServiceStep)
    ensures
        step == job.next(event),
{
    let (op, reply) = match event {
        ServiceEvent::Begin => { return ServiceStep::Perform(ServiceOp::Connect); },
        ServiceEvent::Answered(op, reply) => (op, reply),
    };
    let out_of_sequence = ServiceStep::Failed(ServiceError::OutOfSequence { op });
    let next = match (job, op) {
        (ServiceJob::Install, ServiceOp::Connect) => ServiceStep::Perform(ServiceOp::Create),
        (ServiceJob::Install, ServiceOp::Create) => ServiceStep::Perform(ServiceOp::Start),
        (ServiceJob::Install, ServiceOp::Start) => ServiceStep::Complete,
        (ServiceJob::Uninstall, ServiceOp::Connect) => ServiceStep::Perform(ServiceOp::Open),
        (ServiceJob::Uninstall, ServiceOp::Open) => ServiceStep::Perform(ServiceOp::Query),
        (ServiceJob::Uninstall, ServiceOp::Query) => match reply {
            ServiceReply::Status(ServiceState::Stopped) => ServiceStep::Perform(ServiceOp::Delete),
            ServiceReply::Status(_) => ServiceStep::Perform(ServiceOp::Stop),
            ServiceReply::Done => out_of_sequence,
            ServiceReply::Failed(_) => out_of_sequence,
        },
        (ServiceJob::Uninstall, ServiceOp::Stop) => ServiceStep::Perform(ServiceOp::Delete),
        (ServiceJob::Uninstall, ServiceOp::Delete) => ServiceStep::Complete,
        _ => { return out_of_sequence; },
    };
    match reply {
        ServiceReply::Failed(code) => ServiceStep::Failed(ServiceError::Platform { op, code }),
        ServiceReply::Done => next,
        ServiceReply::Status(_) => match op {
            ServiceOp::Query => next,
            _ => out_of_sequence,
        },
    }
}

impl WinKernelDriver {
    /// The registration of the driver as a service: under its device id,
    /// shown with its description, a kernel driver that is started on
    /// demand, with normal error control, running the driver file, with no
    /// launch arguments, no dependencies and no account of its own.
    pub fn service_info(&self) -> (info: ServiceRegistration)
        ensures
            info.name@ == self@.identity,
            info.display_name@ == self@.description,
            info.service_type == ServiceType::KernelDriver,
            info.start_type == ServiceStartType::OnDemand,
            info.error_control == ServiceErrorControl::Normal,
            info.executable_path@ == self@.path,
            info.launch_arguments@.len() == 0,
            info.dependencies@.len() == 0,
            info.account_name is None,
            info.account_password is None,
    {
        ServiceRegistration {
            name: String::from_str(self.device_id()),
            display_name: String::from_str(self.service_description()),
            service_type: ServiceType::KernelDriver,
            start_type: ServiceStartType::OnDemand,
            error_control: ServiceErrorControl::Normal,
            executable_path: String::from_str(self.driver_path()),
            launch_arguments: Vec::new(),
            dependencies: Vec::new(),
            account_name: None,
            account_password: None,
        }
    }

    /// Install the driver service: the next step of it. The job connects to
    /// the service manager, registers the service that
    /// [`WinKernelDriver::service_info`] describes and starts it. A service
    /// that is registered already makes the registration fail: see
    /// [`ServiceError::already_registered`].
    pub fn install(&self, event: ServiceEvent) -> (step: ServiceStep)
        ensures
            step == ServiceJob::Install.next(event),
    {
        next_step(ServiceJob::Install, event)
    }

    /// Uninstall the driver service: the next step of it. The job connects
    /// to the service manager, opens the service by the device id, asks for
    /// its state, stops it unless it is stopped, and deletes the
    /// registration.
    pub fn uninstall(&self, event: ServiceEvent) -> (step: ServiceStep)
        ensures
            step == ServiceJob::Uninstall.next(event),
    {
        next_step(ServiceJob::Uninstall, event)
    }
}

/// A whole job, as it runs against a platform that answers each operation in
/// one fixed way.
pub struct ServiceRun {
    /// The operations that were performed, in order.
    pub performed: Seq<ServiceOp>,
    /// How the job ended.
    pub outcome: Result<(), ServiceError>,
}

/// The rest of a job from `event` on, where the platform answers `op` with
/// `answers(op)`. `limit` bounds the number of operations; seven are enough
/// for every job.
pub open spec fn run_from(
    job: ServiceJob,
    answers: spec_fn(ServiceOp) -> ServiceReply,
    event: ServiceEvent,
    limit: nat,
) -> ServiceRun
    decreases limit,
{
    match job.next(event) {
        ServiceStep::Complete => ServiceRun { performed: Seq::empty(), outcome: Ok(()) },
        ServiceStep::Failed(e) => ServiceRun { performed: Seq::empty(), outcome: Err(e) },
        ServiceStep::Perform(op) => if limit == 0 {
            ServiceRun { performed: Seq::empty(), outcome: Err(ServiceError::OutOfSequence { op }) }
        } else {
            let rest = run_from(job, answers, ServiceEvent::Answered(op, answers(op)), (limit - 1) as nat);
            ServiceRun { performed: seq![op] + rest.performed, outcome: rest.outcome }
        },
    }
}

/// A whole job from its beginning.
pub open spec fn run(job: ServiceJob, answers: spec_fn(ServiceOp) -> ServiceReply) -> ServiceRun {
    run_from(job, answers, ServiceEvent::Begin, 7)
}

/// Whether the platform answers `op` as a job expects of a success: a query
/// with a state, every other operation with `Done`.
pub open spec fn succeeds(answers: spec_fn(ServiceOp) -> ServiceReply, op: ServiceOp) -> bool {
    if op is Query {
        answers(op) is Status
    } else {
        answers(op) is Done
    }
}

/// The error that a job ends with when the platform's answer to `op` is no
/// success.
pub open spec fn failure_of(answers: spec_fn(ServiceOp) -> ServiceReply, op: ServiceOp) -> ServiceError {
    match answers(op) {
        ServiceReply::Failed(code) => ServiceError::Platform { op, code },
        _ => ServiceError::OutOfSequence { op },
    }
}

/// The index of the first operation of `script` that does not succeed, or
/// the length of `script` where all do.
pub open spec fn first_failure(answers: spec_fn(ServiceOp) -> ServiceReply, script: Seq<ServiceOp>) -> nat
    decreases script.len(),
{
    if script.len() == 0 || !succeeds(answers, script.first()) {
        0
    } else {
        1 + first_failure(answers, script.drop_first())
    }
}

/// A job performs the operations of its script in order, up to and with the
/// first that does not succeed, and no other. It is complete if all of them
/// succeed; else it fails with the operation that did not and the
/// platform's code. Installing connects, registers and starts. Uninstalling
/// connects, opens, queries, stops unless the query found the service
/// stopped, and deletes.
pub proof fn lemma_run_follows_script(job: ServiceJob, answers: spec_fn(ServiceOp) -> ServiceReply)
    ensures
        ({
            let found_stopped = answers(ServiceOp::Query) == ServiceReply::Status(ServiceState::Stopped);
            let script = job.script(found_stopped);
            let n = first_failure(answers, script);
            if n == script.len() {
                run(job, answers) == (ServiceRun { performed: script, outcome: Ok(()) })
            } else {
                &&& n < script.len()
                &&& run(job, answers).performed == script.subrange(0, n as int + 1)
                &&& run(job, answers).outcome == Err::<(), ServiceError>(failure_of(answers, script[n as int]))
            }
        }),
{
    reveal_with_fuel(run_from, 8);
    reveal_with_fuel(first_failure, 8);
    let found_stopped = answers(ServiceOp::Query) == ServiceReply::Status(ServiceState::Stopped);
    let script = job.script(found_stopped);
    let n = first_failure(answers, script);
    let s1 = script.drop_first();
    let s2 = s1.drop_first();
    let s3 = s2.drop_first();
    let s4 = s3.drop_first();
    let s5 = s4.drop_first();
    assert(s1.len() == script.len() - 1);
    assert(s2.len() == script.len() - 2);
    assert(s1.first() == script[1]);
    assert(s2.first() == script[2]);
    if script.len() > 3 {
        assert(s3.first() == script[3]);
        assert(s3.len() == script.len() - 3);
    }
    if script.len() > 4 {
        assert(s4.first() == script[4]);
        assert(s4.len() == script.len() - 4);
    }
    let r = run(job, answers);
    if n == script.len() {
        assert(r.performed =~= script);
    } else {
        assert(r.performed =~= script.subrange(0, n as int + 1));
    }
}

/// A failure that the platform reports ends a job at once, with the
/// operation and the code.
pub proof fn lemma_failure_ends_job(job: ServiceJob, op: ServiceOp, code: u32)
    requires
        job.performs(op),
    ensures
        job.next(ServiceEvent::Answered(op, ServiceReply::Failed(code))) == ServiceStep::Failed(
            ServiceError::Platform { op, code },
        ),
{
}

/// No job asks for an operation that it does not perform itself, and an
/// uninstall deletes only after the service was found stopped or was
/// stopped.
pub proof fn lemma_steps_stay_in_job(job: ServiceJob, event: ServiceEvent)
    ensures
        job.next(event) matches ServiceStep::Perform(op) ==> job.performs(op),
        job.next(event) == ServiceStep::Perform(ServiceOp::Delete) ==> (event
            == ServiceEvent::Answered(ServiceOp::Query, ServiceReply::Status(ServiceState::Stopped))
            || event == ServiceEvent::Answered(ServiceOp::Stop, ServiceReply::Done)),
{
}

} // verus!
