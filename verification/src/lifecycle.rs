//! The lifecycle controller: the start, stop and reload operations as
//! decision functions. The caller performs each returned action against
//! the container runtime and feeds the outcome back in as the next
//! event; every decision between two runtime calls is made here.

use vstd::prelude::*;
use vstd::pervasive::unreached;
use crate::errors::Error;
use crate::image::{get_image, image_spec};
use crate::matcher::{get_containers, match_pred, ContainerInfo};
use crate::mounts::{plan_is_for, plan_mounts, MountPlan};
use crate::ports::PortAssignment;

verus! {

/// Everything a start operation decides from: the caller resolves the
/// home directory and the host port up front and threads them in here,
/// so the controller itself touches no environment.
pub struct StartConfig {
    pub enterprise: bool,
    pub version: String,
    pub random_port: bool,
    pub tail_logs: bool,
    pub proxy: Option<String>,
    pub home: String,
    pub ports: PortAssignment,
}

/// The container-creation request handed to the runtime: the resolved
/// image, the mount plan, the port assignment, the host-gateway alias,
/// and the entrypoint override that installs the injected certificate
/// before the product's normal startup script runs.
pub struct CreateRequest {
    pub image: String,
    pub mounts: MountPlan,
    pub ports: PortAssignment,
    pub extra_hosts: Vec<String>,
    pub entrypoint: String,
    pub user: String,
    pub cmd: Vec<String>,
}

/// Where the injected certificate is copied inside the container.
pub open spec fn certificate_target() -> Seq<char> {
    "/usr/local/share/ca-certificates/e2e-proxy.crt"@
}

/// What it means for a creation request to be the one derived from a
/// start configuration.
pub open spec fn request_is_for(r: CreateRequest, config: StartConfig) -> bool {
    &&& r.image@ == image_spec(config.enterprise, config.version@)
    &&& plan_is_for(r.mounts, config.home@, config.enterprise, config.proxy.deep_view())
    &&& r.ports == config.ports
    &&& r.extra_hosts@.len() == 1
    &&& r.extra_hosts@[0]@ == "host.docker.internal:host-gateway"@
    &&& r.entrypoint@.len() == 0
    &&& r.user@ == "root"@
    &&& r.cmd@.len() == 3
    &&& r.cmd@[0]@ == "bash"@
    &&& r.cmd@[1]@ == "-c"@
    &&& r.cmd@[2]@ == "update-ca-certificates ; /run.sh"@
}

/// Builds the creation request for a configuration.
pub fn create_request(config: &StartConfig) -> (r: CreateRequest)
    ensures
        request_is_for(r, *config),
{
    let image = get_image(config.enterprise, config.version.as_str());
    let proxy = match &config.proxy {
        Some(p) => Some(p.as_str()),
        None => None,
    };
    let mounts = plan_mounts(config.home.as_str(), config.enterprise, proxy);
    let mut extra_hosts: Vec<String> = Vec::new();
    extra_hosts.push(String::from_str("host.docker.internal:host-gateway"));
    let mut cmd: Vec<String> = Vec::new();
    cmd.push(String::from_str("bash"));
    cmd.push(String::from_str("-c"));
    cmd.push(String::from_str("update-ca-certificates ; /run.sh"));
    CreateRequest {
        image,
        mounts,
        ports: PortAssignment { host_port: config.ports.host_port },
        extra_hosts,
        entrypoint: String::new(),
        user: String::from_str("root"),
        cmd,
    }
}

/// Which channel of the container's combined output a log chunk came
/// from.
#[derive(Clone, Copy, PartialEq, Eq, Structural)]
pub enum ChunkSource {
    StandardOut,
    StandardError,
    StandardIn,
}

/// One chunk of a container's streamed output.
pub struct LogChunk {
    pub source: ChunkSource,
    pub bytes: Vec<u8>,
}

/// Decides which of the caller's own streams a log chunk is forwarded
/// to, unmodified. A chunk tagged as container input never occurs
/// (containers do not emit input), so the caller must treat one as a
/// fatal invariant violation before ever reaching this decision.
pub fn route_chunk(chunk: LogChunk) -> (r: (bool, Vec<u8>))
    requires
        chunk.source != ChunkSource::StandardIn,
    ensures
        r.0 == (chunk.source is StandardError),
        r.1@ == chunk.bytes@,
{
    match chunk.source {
        ChunkSource::StandardOut => (false, chunk.bytes),
        ChunkSource::StandardError => (true, chunk.bytes),
        ChunkSource::StandardIn => unreached(),
    }
}

/// Where a start operation stands between two runtime calls.
pub enum StartStep {
    Pulling,
    Creating,
    Injecting { container_id: String },
    Launching { container_id: String },
    Tailing { container_id: String },
    Complete,
    Failed { error: Error },
}

/// What the runtime reported back for the last action.
#[allow(inconsistent_fields)]
pub enum StartEvent {
    /// One streamed pull progress message; a per-message error is not
    /// fatal to the pull.
    PullProgress { error: Option<String> },
    /// The pull stream ended.
    PullComplete,
    /// The creation call returned the new container's id, or failed.
    Created { result: Result<String, String> },
    /// The certificate copy into the container finished, or failed.
    CertificateCopied { result: Result<(), String> },
    /// The start call finished, or failed.
    Launched { result: Result<(), String> },
    /// One chunk of the followed log stream arrived.
    LogChunk { chunk: LogChunk },
    /// The followed log stream closed.
    LogsClosed,
}

/// The next runtime call (or local effect) the caller must perform.
pub enum StartAction {
    /// Begin pulling the image, streaming progress.
    PullImage { image: String },
    /// Read the next pull progress message.
    AwaitPull,
    /// Report a non-fatal pull progress error and keep pulling.
    ReportPullError { message: String },
    /// Create the container (not yet started).
    CreateContainer { request: CreateRequest },
    /// Copy the certificate blob into the container at the target path.
    InjectCertificate { container_id: String, target: String },
    /// Report the resolved host port, then start the container.
    LaunchContainer { container_id: String, report_port: u16 },
    /// Attach to the container's combined output with follow semantics.
    TailLogs { container_id: String },
    /// Forward a log chunk to the caller's own output or error stream.
    WriteChunk { to_stderr: bool, bytes: Vec<u8> },
    /// The operation is complete.
    Finish,
    /// The operation failed; surface the error and stop.
    Fail { error: Error },
}

/// Which events can answer which step.
pub open spec fn step_accepts(step: StartStep, event: StartEvent) -> bool {
    match step {
        StartStep::Pulling => event is PullProgress || event is PullComplete,
        StartStep::Creating => event is Created,
        StartStep::Injecting { .. } => event is CertificateCopied,
        StartStep::Launching { .. } => event is Launched,
        StartStep::Tailing { .. } => (event matches StartEvent::LogChunk { chunk }
            && chunk.source != ChunkSource::StandardIn) || event is LogsClosed,
        StartStep::Complete => false,
        StartStep::Failed { .. } => false,
    }
}

/// A step and action pair reporting a fatal runtime operation error.
pub open spec fn runtime_failure(next: StartStep, action: StartAction, m: Seq<char>) -> bool {
    &&& (next matches StartStep::Failed { error: Error::RuntimeOperationError { message } }
        && message@ == m)
    &&& (action matches StartAction::Fail {
        error: Error::RuntimeOperationError { message },
    } && message@ == m)
}

/// A step and action pair reporting a fatal certificate injection error.
pub open spec fn certificate_failure(next: StartStep, action: StartAction, m: Seq<char>) -> bool {
    &&& (next matches StartStep::Failed { error: Error::CertificateInjectionError { message } }
        && message@ == m)
    &&& (action matches StartAction::Fail {
        error: Error::CertificateInjectionError { message },
    } && message@ == m)
}

/// The transition relation of a start operation: pull, then create,
/// then inject the certificate, then launch, then optionally tail logs.
/// Streamed pull errors are reported and skipped; create, copy and
/// launch failures abort the operation, the copy failure before the
/// container was ever started.
pub open spec fn start_transition(
    config: StartConfig,
    step: StartStep,
    event: StartEvent,
    next: StartStep,
    action: StartAction,
) -> bool {
    match (step, event) {
        (StartStep::Pulling, StartEvent::PullProgress { error: None }) => next is Pulling
            && action is AwaitPull,
        (StartStep::Pulling, StartEvent::PullProgress { error: Some(m) }) => next is Pulling && (
        action matches StartAction::ReportPullError { message } && message@ == m@),
        (StartStep::Pulling, StartEvent::PullComplete) => next is Creating && (
        action matches StartAction::CreateContainer { request } && request_is_for(
            request,
            config,
        )),
        (StartStep::Creating, StartEvent::Created { result: Ok(id) }) => (
        next matches StartStep::Injecting { container_id } && container_id@ == id@) && (
        action matches StartAction::InjectCertificate { container_id: c, target } && c@ == id@
            && target@ == certificate_target()),
        (StartStep::Creating, StartEvent::Created { result: Err(m) }) => runtime_failure(
            next,
            action,
            m@,
        ),
        (
            StartStep::Injecting { container_id },
            StartEvent::CertificateCopied { result: Ok(_) },
        ) => (next matches StartStep::Launching { container_id: c } && c@ == container_id@) && (
        action matches StartAction::LaunchContainer { container_id: c, report_port } && c@
            == container_id@ && report_port == config.ports.host_port),
        (
            StartStep::Injecting { container_id },
            StartEvent::CertificateCopied { result: Err(m) },
        ) => certificate_failure(next, action, m@),
        (StartStep::Launching { container_id }, StartEvent::Launched { result: Ok(_) }) => if config.tail_logs {
            (next matches StartStep::Tailing { container_id: c } && c@ == container_id@) && (
            action matches StartAction::TailLogs { container_id: c } && c@ == container_id@)
        } else {
            next is Complete && action is Finish
        },
        (StartStep::Launching { container_id }, StartEvent::Launched { result: Err(m) }) => runtime_failure(
            next,
            action,
            m@,
        ),
        (StartStep::Tailing { container_id }, StartEvent::LogChunk { chunk }) => (
        next matches StartStep::Tailing { container_id: c } && c@ == container_id@) && (
        action matches StartAction::WriteChunk { to_stderr, bytes } && to_stderr == (
        chunk.source is StandardError) && bytes@ == chunk.bytes@),
        (StartStep::Tailing { container_id }, StartEvent::LogsClosed) => next is Complete
            && action is Finish,
        _ => false,
    }
}

/// Begins a start operation: the first action pulls the resolved image.
pub fn start(config: &StartConfig) -> (r: (StartStep, StartAction))
    ensures
        r.0 is Pulling,
        r.1 matches StartAction::PullImage { image } && image@ == image_spec(
            config.enterprise,
            config.version@,
        ),
{
    let image = get_image(config.enterprise, config.version.as_str());
    (StartStep::Pulling, StartAction::PullImage { image })
}

/// Advances a start operation by one runtime event, returning the next
/// step and the action the caller must now perform.
pub fn start_step(config: &StartConfig, step: StartStep, event: StartEvent) -> (r: (
    StartStep,
    StartAction,
))
    requires
        step_accepts(step, event),
    ensures
        start_transition(*config, step, event, r.0, r.1),
{
    match (step, event) {
        (StartStep::Pulling, StartEvent::PullProgress { error: None }) => (
            StartStep::Pulling,
            StartAction::AwaitPull,
        ),
        (StartStep::Pulling, StartEvent::PullProgress { error: Some(m) }) => (
            StartStep::Pulling,
            StartAction::ReportPullError { message: m },
        ),
        (StartStep::Pulling, StartEvent::PullComplete) => (
            StartStep::Creating,
            StartAction::CreateContainer { request: create_request(config) },
        ),
        (StartStep::Creating, StartEvent::Created { result: Ok(id) }) => (
            StartStep::Injecting { container_id: id.clone() },
            StartAction::InjectCertificate {
                container_id: id,
                target: String::from_str("/usr/local/share/ca-certificates/e2e-proxy.crt"),
            },
        ),
        (StartStep::Creating, StartEvent::Created { result: Err(m) }) => {
            let error = Error::RuntimeOperationError { message: m };
            (StartStep::Failed { error: error.clone() }, StartAction::Fail { error })
        },
        (StartStep::Injecting { container_id }, StartEvent::CertificateCopied {
            result: Ok(_),
        }) => (
            StartStep::Launching { container_id: container_id.clone() },
            StartAction::LaunchContainer {
                container_id,
                report_port: config.ports.host_port,
            },
        ),
        (StartStep::Injecting { container_id: _ }, StartEvent::CertificateCopied {
            result: Err(m),
        }) => {
            let error = Error::CertificateInjectionError { message: m };
            (StartStep::Failed { error: error.clone() }, StartAction::Fail { error })
        },
        (StartStep::Launching { container_id }, StartEvent::Launched { result: Ok(_) }) => {
            if config.tail_logs {
                (
                    StartStep::Tailing { container_id: container_id.clone() },
                    StartAction::TailLogs { container_id },
                )
            } else {
                (StartStep::Complete, StartAction::Finish)
            }
        },
        (StartStep::Launching { container_id: _ }, StartEvent::Launched { result: Err(m) }) => {
            let error = Error::RuntimeOperationError { message: m };
            (StartStep::Failed { error: error.clone() }, StartAction::Fail { error })
        },
        (StartStep::Tailing { container_id }, StartEvent::LogChunk { chunk }) => {
            let (to_stderr, bytes) = route_chunk(chunk);
            (
                StartStep::Tailing { container_id },
                StartAction::WriteChunk { to_stderr, bytes },
            )
        },
        (StartStep::Tailing { container_id: _ }, StartEvent::LogsClosed) => (
            StartStep::Complete,
            StartAction::Finish,
        ),
        _ => unreached(),
    }
}

/// Selects the containers a stop operation kills, in the order the
/// runtime reported them. An empty selection means nothing to do: the
/// stop succeeds without touching the runtime.
pub fn stop(enterprise: bool, version: &str, containers: Vec<ContainerInfo>) -> (kills: Vec<
    ContainerInfo,
>)
    ensures
        kills@ == containers@.filter(match_pred(enterprise, version@)),
{
    get_containers(enterprise, version, containers)
}

/// Decides whether a stop goes on after one kill: the first failing
/// kill aborts the remaining ones and surfaces as a runtime operation
/// error.
pub fn kill_outcome(result: Result<(), String>) -> (r: Result<(), Error>)
    ensures
        result is Ok <==> r is Ok,
        result matches Err(m) ==> (r matches Err(e) && e matches Error::RuntimeOperationError {
            message,
        } && message@ == m@),
{
    match result {
        Ok(_) => Ok(()),
        Err(m) => Err(Error::RuntimeOperationError { message: m }),
    }
}

/// One exec-attach request: a command run inside a running container
/// with its output streams attached.
pub struct ExecRequest {
    pub container_id: String,
    pub cmd: Vec<String>,
    pub attach_stdout: bool,
    pub attach_stderr: bool,
}

/// One exec request is the kill-by-name exec for one matched container.
pub open spec fn exec_is_for(e: ExecRequest, c: ContainerInfo) -> bool {
    &&& e.container_id@ == c.id@
    &&& e.cmd@.len() == 2
    &&& e.cmd@[0]@ == "pkill"@
    &&& e.cmd@[1]@ == "datasource"@
    &&& e.attach_stdout
    &&& e.attach_stderr
}

/// What it means for a sequence of exec requests to be the reload plan
/// for a sequence of matched containers: one kill-by-name exec each.
pub open spec fn reload_execs_for(execs: Seq<ExecRequest>, matched: Seq<ContainerInfo>) -> bool {
    &&& execs.len() == matched.len()
    &&& forall|i: int| 0 <= i < matched.len() ==> exec_is_for(#[trigger] execs[i], matched[i])
}

/// Plans a plugin reload: for every container matching any product
/// image, one exec that kills the datasource process by name, so the
/// container's process supervisor respawns it with the freshly copied
/// binaries. With no matching containers the plan is empty and the
/// reload is a no-op success.
pub fn reload_plugins(containers: Vec<ContainerInfo>) -> (execs: Vec<ExecRequest>)
    ensures
        reload_execs_for(execs@, containers@.filter(match_pred(false, ""@))),
{
    let matched = get_containers(false, "", containers);
    let mut execs: Vec<ExecRequest> = Vec::new();
    let mut i: usize = 0;
    while i < matched.len()
        invariant
            i <= matched.len(),
            execs@.len() == i,
            forall|j: int| 0 <= j < i ==> exec_is_for(#[trigger] execs@[j], matched@[j]),
        decreases matched.len() - i,
    {
        let mut cmd: Vec<String> = Vec::new();
        cmd.push(String::from_str("pkill"));
        cmd.push(String::from_str("datasource"));
        execs.push(
            ExecRequest {
                container_id: matched[i].id.clone(),
                cmd,
                attach_stdout: true,
                attach_stderr: true,
            },
        );
        i += 1;
    }
    execs
}

/// Handles one chunk of an exec's drained output stream: content is
/// discarded, a chunk-level error is only reported, and neither ends
/// the drain.
pub fn drain_exec_chunk(result: Result<Vec<u8>, String>) -> (report: Option<String>)
    ensures
        result is Ok ==> report is None,
        result matches Err(m) ==> (report matches Some(r) && r@ == m@),
{
    match result {
        Ok(_) => None,
        Err(m) => Some(m),
    }
}

} // verus!
