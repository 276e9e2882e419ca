//! The deployment pipeline as a state machine. Each step of a deployment is
//! outside work (the database, the file system, git, Docker, Nginx); this
//! module decides, from where a deployment stands and how its last step
//! ended, what to do next. The caller performs each action and reports back.
//!
//! A deployment creates its record, prepares a fresh working directory,
//! clones the branch, records "cloned" with the clone's output, detects the
//! project type and records "detected: <type>". An unknown project is
//! recorded as "unsupported_project_type" and fails. Otherwise the Dockerfile
//! template is written, any old container of the same name is removed, the
//! image is built ("image_built"), the container is started
//! ("container_running"), the reverse proxy is configured, and "deployed" is
//! recorded with the live address. A step that fails ends the deployment.
use crate::project::{dockerfile_kind_of, project_type_name, DockerfileKind, ProjectType};
use crate::requests::DeployRequest;
use crate::site::{deployment_slug, live_url, live_url_text, slug_text};
use vstd::prelude::*;

verus! {

/// Where a deployment stands: the step whose outcome it waits for.
#[derive(Clone, Copy, Debug, PartialEq, Eq, Structural)]
pub enum DeployStage {
    CreatingRecord,
    PreparingWorkspace,
    Cloning,
    RecordingCloned,
    Detecting,
    RecordingDetected,
    RecordingUnsupported,
    WritingDockerfile,
    RemovingOldContainer,
    BuildingImage,
    RecordingImageBuilt,
    StartingContainer,
    RecordingContainerRunning,
    ConfiguringProxy,
    RecordingDeployed,
    Done,
    Failed,
}

/// A deployment in progress.
#[derive(Debug)]
pub struct DeployState {
    pub request: DeployRequest,
    pub stage: DeployStage,
    /// The id of the deployment's record, once created.
    pub deployment_id: i64,
    /// The detected project type, once detected.
    pub project: ProjectType,
    /// The id of the started container, once started.
    pub container_id: String,
    /// The host port of the started container, once started.
    pub host_port: u16,
}

/// How the last action ended.
#[derive(Debug)]
pub enum DeployEvent {
    RecordCreated { deployment_id: i64 },
    WorkspaceReady,
    Cloned { logs: String },
    StatusRecorded,
    Detected { project: ProjectType },
    DockerfileWritten,
    OldContainerRemoved,
    ImageBuilt,
    ContainerStarted { container_id: String, host_port: u16 },
    ProxyConfigured,
    StepFailed { message: String },
}

/// Why a deployment failed.
#[derive(Debug)]
pub enum DeployError {
    /// A step failed with this message.
    StepFailed(String),
    /// The repository holds no project type the platform can build.
    UnsupportedProjectType,
}

/// What a finished deployment produced.
#[derive(Debug)]
pub struct DeploymentResult {
    pub deployment_id: i64,
    pub container_id: String,
    pub port: i32,
    pub live_url: String,
}

/// The next thing to do.
#[derive(Debug)]
pub enum DeployAction {
    /// Insert a pending deployment record.
    CreateRecord { user_id: i64, repo_name: String, branch: String },
    /// Empty (or create) the working directory `deployments/<dir_name>`.
    PrepareWorkspace { dir_name: String },
    /// Clone `branch` of `repo_url` into the working directory.
    CloneRepository { repo_url: String, branch: String, dir_name: String },
    /// Set the record's status, logs and live address.
    RecordStatus { deployment_id: i64, status: String, logs: Option<String>, live_url: Option<String> },
    /// Look at the working directory's files.
    DetectProject { dir_name: String },
    /// Write the Dockerfile template into the working directory.
    WriteDockerfile { dir_name: String, template: DockerfileKind },
    /// Stop and remove a container left by an earlier deployment.
    RemoveOldContainer { container_name: String },
    /// Build the working directory into an image.
    BuildImage { dir_name: String, image_name: String },
    /// Start a container of the image on a host port from the pool.
    RunContainer { image_name: String, container_name: String },
    /// Route `<site_name>.localhost` to the container.
    ConfigureProxy { site_name: String, container_name: String, port: i32 },
    /// The deployment is live.
    Finish(DeploymentResult),
    /// The deployment failed.
    Fail(DeployError),
}

// ---------------------------------------------------------------------------
// The model
// ---------------------------------------------------------------------------

/// A deployment in progress, with its texts as character sequences.
pub struct StateModel {
    pub user_id: i64,
    pub repo_url: Seq<char>,
    pub repo_name: Seq<char>,
    pub branch: Seq<char>,
    pub stage: DeployStage,
    pub deployment_id: i64,
    pub project: ProjectType,
    pub container_id: Seq<char>,
    pub host_port: u16,
}

/// An event, with its texts as character sequences.
pub enum EventModel {
    RecordCreated { deployment_id: i64 },
    WorkspaceReady,
    Cloned { logs: Seq<char> },
    StatusRecorded,
    Detected { project: ProjectType },
    DockerfileWritten,
    OldContainerRemoved,
    ImageBuilt,
    ContainerStarted { container_id: Seq<char>, host_port: u16 },
    ProxyConfigured,
    StepFailed { message: Seq<char> },
}

/// A failure, with its text as a character sequence.
pub enum ErrorModel {
    StepFailed(Seq<char>),
    UnsupportedProjectType,
}

/// An action, with its texts as character sequences.
#[allow(inconsistent_fields)]
pub enum ActionModel {
    CreateRecord { user_id: i64, repo_name: Seq<char>, branch: Seq<char> },
    PrepareWorkspace { dir_name: Seq<char> },
    CloneRepository { repo_url: Seq<char>, branch: Seq<char>, dir_name: Seq<char> },
    RecordStatus {
        deployment_id: i64,
        status: Seq<char>,
        logs: Option<Seq<char>>,
        live_url: Option<Seq<char>>,
    },
    DetectProject { dir_name: Seq<char> },
    WriteDockerfile { dir_name: Seq<char>, template: DockerfileKind },
    RemoveOldContainer { container_name: Seq<char> },
    BuildImage { dir_name: Seq<char>, image_name: Seq<char> },
    RunContainer { image_name: Seq<char>, container_name: Seq<char> },
    ConfigureProxy { site_name: Seq<char>, container_name: Seq<char>, port: int },
    Finish { deployment_id: i64, container_id: Seq<char>, port: int, live_url: Seq<char> },
    Fail(ErrorModel),
}

/// The text of an optional string.
pub open spec fn opt_text(o: Option<String>) -> Option<Seq<char>> {
    match o {
        Some(s) => Some(s@),
        None => None,
    }
}

impl View for DeployState {
    type V = StateModel;

    open spec fn view(&self) -> StateModel {
        StateModel {
            user_id: self.request.user_id,
            repo_url: self.request.repo_url@,
            repo_name: self.request.repo_name@,
            branch: self.request.branch@,
            stage: self.stage,
            deployment_id: self.deployment_id,
            project: self.project,
            container_id: self.container_id@,
            host_port: self.host_port,
        }
    }
}

impl View for DeployEvent {
    type V = EventModel;

    open spec fn view(&self) -> EventModel {
        match self {
            DeployEvent::RecordCreated { deployment_id } => EventModel::RecordCreated {
                deployment_id: *deployment_id,
            },
            DeployEvent::WorkspaceReady => EventModel::WorkspaceReady,
            DeployEvent::Cloned { logs } => EventModel::Cloned { logs: logs@ },
            DeployEvent::StatusRecorded => EventModel::StatusRecorded,
            DeployEvent::Detected { project } => EventModel::Detected { project: *project },
            DeployEvent::DockerfileWritten => EventModel::DockerfileWritten,
            DeployEvent::OldContainerRemoved => EventModel::OldContainerRemoved,
            DeployEvent::ImageBuilt => EventModel::ImageBuilt,
            DeployEvent::ContainerStarted { container_id, host_port } => EventModel::ContainerStarted {
                container_id: container_id@,
                host_port: *host_port,
            },
            DeployEvent::ProxyConfigured => EventModel::ProxyConfigured,
            DeployEvent::StepFailed { message } => EventModel::StepFailed { message: message@ },
        }
    }
}

impl View for DeployError {
    type V = ErrorModel;

    open spec fn view(&self) -> ErrorModel {
        match self {
            DeployError::StepFailed(m) => ErrorModel::StepFailed(m@),
            DeployError::UnsupportedProjectType => ErrorModel::UnsupportedProjectType,
        }
    }
}

impl View for DeployAction {
    type V = ActionModel;

    open spec fn view(&self) -> ActionModel {
        match self {
            DeployAction::CreateRecord { user_id, repo_name, branch } => ActionModel::CreateRecord {
                user_id: *user_id,
                repo_name: repo_name@,
                branch: branch@,
            },
            DeployAction::PrepareWorkspace { dir_name } => ActionModel::PrepareWorkspace {
                dir_name: dir_name@,
            },
            DeployAction::CloneRepository { repo_url, branch, dir_name } => ActionModel::CloneRepository {
                repo_url: repo_url@,
                branch: branch@,
                dir_name: dir_name@,
            },
            DeployAction::RecordStatus { deployment_id, status, logs, live_url } => ActionModel::RecordStatus {
                deployment_id: *deployment_id,
                status: status@,
                logs: opt_text(*logs),
                live_url: opt_text(*live_url),
            },
            DeployAction::DetectProject { dir_name } => ActionModel::DetectProject { dir_name: dir_name@ },
            DeployAction::WriteDockerfile { dir_name, template } => ActionModel::WriteDockerfile {
                dir_name: dir_name@,
                template: *template,
            },
            DeployAction::RemoveOldContainer { container_name } => ActionModel::RemoveOldContainer {
                container_name: container_name@,
            },
            DeployAction::BuildImage { dir_name, image_name } => ActionModel::BuildImage {
                dir_name: dir_name@,
                image_name: image_name@,
            },
            DeployAction::RunContainer { image_name, container_name } => ActionModel::RunContainer {
                image_name: image_name@,
                container_name: container_name@,
            },
            DeployAction::ConfigureProxy { site_name, container_name, port } => ActionModel::ConfigureProxy {
                site_name: site_name@,
                container_name: container_name@,
                port: *port as int,
            },
            DeployAction::Finish(r) => ActionModel::Finish {
                deployment_id: r.deployment_id,
                container_id: r.container_id@,
                port: r.port as int,
                live_url: r.live_url@,
            },
            DeployAction::Fail(e) => ActionModel::Fail(e@),
        }
    }
}

/// The deployment has ended, well or badly.
pub open spec fn is_terminal(stage: DeployStage) -> bool {
    stage == DeployStage::Done || stage == DeployStage::Failed
}

/// The event is an outcome of the step the deployment waits for: a failure of
/// any step that is still running, or the success the step reports.
pub open spec fn accepts(stage: DeployStage, e: EventModel) -> bool {
    match e {
        EventModel::StepFailed { .. } => !is_terminal(stage),
        EventModel::RecordCreated { .. } => stage == DeployStage::CreatingRecord,
        EventModel::WorkspaceReady => stage == DeployStage::PreparingWorkspace,
        EventModel::Cloned { .. } => stage == DeployStage::Cloning,
        EventModel::Detected { .. } => stage == DeployStage::Detecting,
        EventModel::DockerfileWritten => stage == DeployStage::WritingDockerfile,
        EventModel::OldContainerRemoved => stage == DeployStage::RemovingOldContainer,
        EventModel::ImageBuilt => stage == DeployStage::BuildingImage,
        EventModel::ContainerStarted { .. } => stage == DeployStage::StartingContainer,
        EventModel::ProxyConfigured => stage == DeployStage::ConfiguringProxy,
        EventModel::StatusRecorded => stage == DeployStage::RecordingCloned || stage
            == DeployStage::RecordingDetected || stage == DeployStage::RecordingUnsupported || stage
            == DeployStage::RecordingImageBuilt || stage == DeployStage::RecordingContainerRunning
            || stage == DeployStage::RecordingDeployed,
    }
}

/// The name of the deployment's directory, image, container and site.
pub open spec fn slug_of(s: StateModel) -> Seq<char> {
    slug_text(s.repo_name, s.branch)
}

/// A status update with no logs and no address.
pub open spec fn status_only(s: StateModel, status: Seq<char>) -> ActionModel {
    ActionModel::RecordStatus { deployment_id: s.deployment_id, status, logs: None, live_url: None }
}

/// The state a request starts in and its first action.
pub open spec fn start_model(user_id: i64, repo_url: Seq<char>, repo_name: Seq<char>, branch: Seq<char>) -> (StateModel, ActionModel) {
    (
        StateModel {
            user_id,
            repo_url,
            repo_name,
            branch,
            stage: DeployStage::CreatingRecord,
            deployment_id: 0,
            project: ProjectType::Unknown,
            container_id: Seq::empty(),
            host_port: 0,
        },
        ActionModel::CreateRecord { user_id, repo_name, branch },
    )
}

/// The next state and action after `e` (for an event `accepts` admits).
pub open spec fn next_model(s: StateModel, e: EventModel) -> (StateModel, ActionModel) {
    match e {
        EventModel::StepFailed { message } => (
            StateModel { stage: DeployStage::Failed, ..s },
            ActionModel::Fail(ErrorModel::StepFailed(message)),
        ),
        EventModel::RecordCreated { deployment_id } => (
            StateModel { stage: DeployStage::PreparingWorkspace, deployment_id, ..s },
            ActionModel::PrepareWorkspace { dir_name: slug_of(s) },
        ),
        EventModel::WorkspaceReady => (
            StateModel { stage: DeployStage::Cloning, ..s },
            ActionModel::CloneRepository { repo_url: s.repo_url, branch: s.branch, dir_name: slug_of(s) },
        ),
        EventModel::Cloned { logs } => (
            StateModel { stage: DeployStage::RecordingCloned, ..s },
            ActionModel::RecordStatus {
                deployment_id: s.deployment_id,
                status: "cloned"@,
                logs: Some(logs),
                live_url: None,
            },
        ),
        EventModel::Detected { project } => (
            StateModel { stage: DeployStage::RecordingDetected, project, ..s },
            status_only(s, "detected: "@ + project_type_name(project)),
        ),
        EventModel::DockerfileWritten => (
            StateModel { stage: DeployStage::RemovingOldContainer, ..s },
            ActionModel::RemoveOldContainer { container_name: slug_of(s) },
        ),
        EventModel::OldContainerRemoved => (
            StateModel { stage: DeployStage::BuildingImage, ..s },
            ActionModel::BuildImage { dir_name: slug_of(s), image_name: slug_of(s) },
        ),
        EventModel::ImageBuilt => (
            StateModel { stage: DeployStage::RecordingImageBuilt, ..s },
            status_only(s, "image_built"@),
        ),
        EventModel::ContainerStarted { container_id, host_port } => (
            StateModel { stage: DeployStage::RecordingContainerRunning, container_id, host_port, ..s },
            status_only(s, "container_running"@),
        ),
        EventModel::ProxyConfigured => (
            StateModel { stage: DeployStage::RecordingDeployed, ..s },
            ActionModel::RecordStatus {
                deployment_id: s.deployment_id,
                status: "deployed"@,
                logs: None,
                live_url: Some(live_url_text(slug_of(s))),
            },
        ),
        EventModel::StatusRecorded => match s.stage {
            DeployStage::RecordingCloned => (
                StateModel { stage: DeployStage::Detecting, ..s },
                ActionModel::DetectProject { dir_name: slug_of(s) },
            ),
            DeployStage::RecordingDetected => match dockerfile_kind_of(s.project) {
                Some(template) => (
                    StateModel { stage: DeployStage::WritingDockerfile, ..s },
                    ActionModel::WriteDockerfile { dir_name: slug_of(s), template },
                ),
                None => (
                    StateModel { stage: DeployStage::RecordingUnsupported, ..s },
                    status_only(s, "unsupported_project_type"@),
                ),
            },
            DeployStage::RecordingUnsupported => (
                StateModel { stage: DeployStage::Failed, ..s },
                ActionModel::Fail(ErrorModel::UnsupportedProjectType),
            ),
            DeployStage::RecordingImageBuilt => (
                StateModel { stage: DeployStage::StartingContainer, ..s },
                ActionModel::RunContainer { image_name: slug_of(s), container_name: slug_of(s) },
            ),
            DeployStage::RecordingContainerRunning => (
                StateModel { stage: DeployStage::ConfiguringProxy, ..s },
                ActionModel::ConfigureProxy {
                    site_name: slug_of(s),
                    container_name: slug_of(s),
                    port: s.host_port as int,
                },
            ),
            _ => (
                StateModel { stage: DeployStage::Done, ..s },
                ActionModel::Finish {
                    deployment_id: s.deployment_id,
                    container_id: s.container_id,
                    port: s.host_port as int,
                    live_url: live_url_text(slug_of(s)),
                },
            ),
        },
    }
}


// ---------------------------------------------------------------------------
// The machine
// ---------------------------------------------------------------------------

/// The message of a failure.
pub open spec fn deploy_error_text(e: ErrorModel) -> Seq<char> {
    match e {
        ErrorModel::StepFailed(m) => m,
        ErrorModel::UnsupportedProjectType => "Unsupported project type."@,
    }
}

impl DeployError {
    /// The failing step's message, or "Unsupported project type.".
    pub fn message(&self) -> (r: String)
        ensures
            r@ == deploy_error_text(self@),
    {
        match self {
            DeployError::StepFailed(m) => m.clone(),
            DeployError::UnsupportedProjectType => String::from_str("Unsupported project type."),
        }
    }
}

/// Starts a deployment of `request`: its first action creates the record.
pub fn start_deployment(request: DeployRequest) -> (r: (DeployState, DeployAction))
    ensures
        (r.0@, r.1@) == start_model(request.user_id, request.repo_url@, request.repo_name@, request.branch@),
{
    let action = DeployAction::CreateRecord {
        user_id: request.user_id,
        repo_name: request.repo_name.clone(),
        branch: request.branch.clone(),
    };
    let state = DeployState {
        request,
        stage: DeployStage::CreatingRecord,
        deployment_id: 0,
        project: ProjectType::Unknown,
        container_id: String::new(),
        host_port: 0,
    };
    (state, action)
}

impl DeployState {
    /// Whether `event` is an outcome of the step this deployment waits for.
    pub fn accepts(&self, event: &DeployEvent) -> (r: bool)
        ensures
            r == accepts(self.stage, event@),
    {
        let stage = self.stage;
        match event {
            DeployEvent::StepFailed { .. } => !(stage == DeployStage::Done || stage == DeployStage::Failed),
            DeployEvent::RecordCreated { .. } => stage == DeployStage::CreatingRecord,
            DeployEvent::WorkspaceReady => stage == DeployStage::PreparingWorkspace,
            DeployEvent::Cloned { .. } => stage == DeployStage::Cloning,
            DeployEvent::Detected { .. } => stage == DeployStage::Detecting,
            DeployEvent::DockerfileWritten => stage == DeployStage::WritingDockerfile,
            DeployEvent::OldContainerRemoved => stage == DeployStage::RemovingOldContainer,
            DeployEvent::ImageBuilt => stage == DeployStage::BuildingImage,
            DeployEvent::ContainerStarted { .. } => stage == DeployStage::StartingContainer,
            DeployEvent::ProxyConfigured => stage == DeployStage::ConfiguringProxy,
            DeployEvent::StatusRecorded => stage == DeployStage::RecordingCloned || stage
                == DeployStage::RecordingDetected || stage == DeployStage::RecordingUnsupported
                || stage == DeployStage::RecordingImageBuilt || stage
                == DeployStage::RecordingContainerRunning || stage == DeployStage::RecordingDeployed,
        }
    }

    /// The deployment's name: `<repo>-<branch>`.
    pub fn slug(&self) -> (r: String)
        ensures
            r@ == slug_of(self@),
    {
        deployment_slug(self.request.repo_name.as_str(), self.request.branch.as_str())
    }
}

/// Advances a deployment by the outcome of its last action, and says what to do next.
pub fn step(state: DeployState, event: DeployEvent) -> (r: (DeployState, DeployAction))
    requires
        accepts(state.stage, event@),
    ensures
        (r.0@, r.1@) == next_model(state@, event@),
{
    let slug = state.slug();
    match event {
        DeployEvent::StepFailed { message } => (
            DeployState { stage: DeployStage::Failed, ..state },
            DeployAction::Fail(DeployError::StepFailed(message)),
        ),
        DeployEvent::RecordCreated { deployment_id } => (
            DeployState { stage: DeployStage::PreparingWorkspace, deployment_id, ..state },
            DeployAction::PrepareWorkspace { dir_name: slug },
        ),
        DeployEvent::WorkspaceReady => {
            let action = DeployAction::CloneRepository {
                repo_url: state.request.repo_url.clone(),
                branch: state.request.branch.clone(),
                dir_name: slug,
            };
            (DeployState { stage: DeployStage::Cloning, ..state }, action)
        },
        DeployEvent::Cloned { logs } => {
            let action = DeployAction::RecordStatus {
                deployment_id: state.deployment_id,
                status: String::from_str("cloned"),
                logs: Some(logs),
                live_url: None,
            };
            (DeployState { stage: DeployStage::RecordingCloned, ..state }, action)
        },
        DeployEvent::Detected { project } => {
            let mut status = String::from_str("detected: ");
            let name = project.name();
            status.append(name.as_str());
            let action = DeployAction::RecordStatus {
                deployment_id: state.deployment_id,
                status,
                logs: None,
                live_url: None,
            };
            (DeployState { stage: DeployStage::RecordingDetected, project, ..state }, action)
        },
        DeployEvent::DockerfileWritten => (
            DeployState { stage: DeployStage::RemovingOldContainer, ..state },
            DeployAction::RemoveOldContainer { container_name: slug },
        ),
        DeployEvent::OldContainerRemoved => (
            DeployState { stage: DeployStage::BuildingImage, ..state },
            DeployAction::BuildImage { dir_name: slug.clone(), image_name: slug },
        ),
        DeployEvent::ImageBuilt => {
            let action = DeployAction::RecordStatus {
                deployment_id: state.deployment_id,
                status: String::from_str("image_built"),
                logs: None,
                live_url: None,
            };
            (DeployState { stage: DeployStage::RecordingImageBuilt, ..state }, action)
        },
        DeployEvent::ContainerStarted { container_id, host_port } => {
            let action = DeployAction::RecordStatus {
                deployment_id: state.deployment_id,
                status: String::from_str("container_running"),
                logs: None,
                live_url: None,
            };
            (
                DeployState {
                    stage: DeployStage::RecordingContainerRunning,
                    container_id,
                    host_port,
                    ..state
                },
                action,
            )
        },
        DeployEvent::ProxyConfigured => {
            let action = DeployAction::RecordStatus {
                deployment_id: state.deployment_id,
                status: String::from_str("deployed"),
                logs: None,
                live_url: Some(live_url(slug.as_str())),
            };
            (DeployState { stage: DeployStage::RecordingDeployed, ..state }, action)
        },
        DeployEvent::StatusRecorded => {
            match state.stage {
                DeployStage::RecordingCloned => (
                    DeployState { stage: DeployStage::Detecting, ..state },
                    DeployAction::DetectProject { dir_name: slug },
                ),
                DeployStage::RecordingDetected => {
                    match crate::project::dockerfile_for(state.project) {
                        Some(template) => (
                            DeployState { stage: DeployStage::WritingDockerfile, ..state },
                            DeployAction::WriteDockerfile { dir_name: slug, template },
                        ),
                        None => {
                            let action = DeployAction::RecordStatus {
                                deployment_id: state.deployment_id,
                                status: String::from_str("unsupported_project_type"),
                                logs: None,
                                live_url: None,
                            };
                            (DeployState { stage: DeployStage::RecordingUnsupported, ..state }, action)
                        },
                    }
                },
                DeployStage::RecordingUnsupported => (
                    DeployState { stage: DeployStage::Failed, ..state },
                    DeployAction::Fail(DeployError::UnsupportedProjectType),
                ),
                DeployStage::RecordingImageBuilt => (
                    DeployState { stage: DeployStage::StartingContainer, ..state },
                    DeployAction::RunContainer { image_name: slug.clone(), container_name: slug },
                ),
                DeployStage::RecordingContainerRunning => {
                    let port: i32 = state.host_port as i32;
                    (
                        DeployState { stage: DeployStage::ConfiguringProxy, ..state },
                        DeployAction::ConfigureProxy {
                            site_name: slug.clone(),
                            container_name: slug,
                            port,
                        },
                    )
                },
                _ => {
                    let result = DeploymentResult {
                        deployment_id: state.deployment_id,
                        container_id: state.container_id.clone(),
                        port: state.host_port as i32,
                        live_url: live_url(slug.as_str()),
                    };
                    (DeployState { stage: DeployStage::Done, ..state }, DeployAction::Finish(result))
                },
            }
        },
    }
}


// ---------------------------------------------------------------------------
// Laws
// ---------------------------------------------------------------------------

/// Feeds `events` to a deployment in `s`: the state it ends in and the actions
/// it asks for, in order.
pub open spec fn run_model(s: StateModel, events: Seq<EventModel>) -> (StateModel, Seq<ActionModel>)
    decreases events.len(),
{
    if events.len() == 0 {
        (s, Seq::empty())
    } else {
        let (s1, a) = next_model(s, events[0]);
        let (s2, rest) = run_model(s1, events.drop_first());
        (s2, seq![a] + rest)
    }
}

/// Every event of `events` is accepted where it arrives.
pub open spec fn all_accepted(s: StateModel, events: Seq<EventModel>) -> bool
    decreases events.len(),
{
    if events.len() == 0 {
        true
    } else {
        accepts(s.stage, events[0]) && all_accepted(next_model(s, events[0]).0, events.drop_first())
    }
}

/// The outcomes of a deployment in which every step succeeds.
pub open spec fn successful_outcomes(
    deployment_id: i64,
    logs: Seq<char>,
    project: ProjectType,
    container_id: Seq<char>,
    host_port: u16,
) -> Seq<EventModel> {
    seq![
        EventModel::RecordCreated { deployment_id },
        EventModel::WorkspaceReady,
        EventModel::Cloned { logs },
        EventModel::StatusRecorded,
        EventModel::Detected { project },
        EventModel::StatusRecorded,
        EventModel::DockerfileWritten,
        EventModel::OldContainerRemoved,
        EventModel::ImageBuilt,
        EventModel::StatusRecorded,
        EventModel::ContainerStarted { container_id, host_port },
        EventModel::StatusRecorded,
        EventModel::ProxyConfigured,
        EventModel::StatusRecorded,
    ]
}

/// When every step of a deployment of a supported project succeeds, the
/// deployment asks, in this order, to create the record, prepare
/// `deployments/<repo>-<branch>`, clone the branch into it, record "cloned"
/// with the clone's output, detect the project, record "detected: <type>",
/// write the project's Dockerfile, remove the old `<repo>-<branch>` container,
/// build the `<repo>-<branch>` image, record "image_built", run the container,
/// record "container_running", route `<repo>-<branch>.localhost` to it on its
/// port, and record "deployed" with `http://<repo>-<branch>.localhost`; it then
/// finishes with that address, the container and its port.
pub proof fn lemma_successful_deployment(
    user_id: i64,
    repo_url: Seq<char>,
    repo_name: Seq<char>,
    branch: Seq<char>,
    deployment_id: i64,
    logs: Seq<char>,
    project: ProjectType,
    container_id: Seq<char>,
    host_port: u16,
)
    requires
        project != ProjectType::Unknown,
    ensures
        ({
            let (s0, a0) = start_model(user_id, repo_url, repo_name, branch);
            let events = successful_outcomes(deployment_id, logs, project, container_id, host_port);
            let (s_end, actions) = run_model(s0, events);
            let slug = slug_text(repo_name, branch);
            let url = live_url_text(slug);
            let record = |status: Seq<char>|
                ActionModel::RecordStatus { deployment_id, status, logs: None, live_url: None };
            &&& all_accepted(s0, events)
            &&& s_end.stage == DeployStage::Done
            &&& seq![a0] + actions == seq![
                ActionModel::CreateRecord { user_id, repo_name, branch },
                ActionModel::PrepareWorkspace { dir_name: slug },
                ActionModel::CloneRepository { repo_url, branch, dir_name: slug },
                ActionModel::RecordStatus {
                    deployment_id,
                    status: "cloned"@,
                    logs: Some(logs),
                    live_url: None,
                },
                ActionModel::DetectProject { dir_name: slug },
                record("detected: "@ + project_type_name(project)),
                ActionModel::WriteDockerfile {
                    dir_name: slug,
                    template: dockerfile_kind_of(project)->0,
                },
                ActionModel::RemoveOldContainer { container_name: slug },
                ActionModel::BuildImage { dir_name: slug, image_name: slug },
                record("image_built"@),
                ActionModel::RunContainer { image_name: slug, container_name: slug },
                record("container_running"@),
                ActionModel::ConfigureProxy {
                    site_name: slug,
                    container_name: slug,
                    port: host_port as int,
                },
                ActionModel::RecordStatus {
                    deployment_id,
                    status: "deployed"@,
                    logs: None,
                    live_url: Some(url),
                },
                ActionModel::Finish { deployment_id, container_id, port: host_port as int, live_url: url },
            ]
        }),
{
    let (s0, a0) = start_model(user_id, repo_url, repo_name, branch);
    let events = successful_outcomes(deployment_id, logs, project, container_id, host_port);
    reveal_with_fuel(run_model, 15);
    reveal_with_fuel(all_accepted, 15);
    assert(events.drop_first() =~= events.subrange(1, 14));
    let (s_end, actions) = run_model(s0, events);
    assert(actions.len() == 14);
}


/// A deployment of a repository whose type cannot be recognised records
/// "detected: unknown", then "unsupported_project_type", and fails with
/// `UnsupportedProjectType`; it never writes a Dockerfile or touches Docker.
pub proof fn lemma_unsupported_project(
    user_id: i64,
    repo_url: Seq<char>,
    repo_name: Seq<char>,
    branch: Seq<char>,
    deployment_id: i64,
    logs: Seq<char>,
)
    ensures
        ({
            let (s0, a0) = start_model(user_id, repo_url, repo_name, branch);
            let events = seq![
                EventModel::RecordCreated { deployment_id },
                EventModel::WorkspaceReady,
                EventModel::Cloned { logs },
                EventModel::StatusRecorded,
                EventModel::Detected { project: ProjectType::Unknown },
                EventModel::StatusRecorded,
                EventModel::StatusRecorded,
            ];
            let (s_end, actions) = run_model(s0, events);
            let slug = slug_text(repo_name, branch);
            &&& all_accepted(s0, events)
            &&& s_end.stage == DeployStage::Failed
            &&& actions == seq![
                ActionModel::PrepareWorkspace { dir_name: slug },
                ActionModel::CloneRepository { repo_url, branch, dir_name: slug },
                ActionModel::RecordStatus {
                    deployment_id,
                    status: "cloned"@,
                    logs: Some(logs),
                    live_url: None,
                },
                ActionModel::DetectProject { dir_name: slug },
                ActionModel::RecordStatus {
                    deployment_id,
                    status: "detected: "@ + "unknown"@,
                    logs: None,
                    live_url: None,
                },
                ActionModel::RecordStatus {
                    deployment_id,
                    status: "unsupported_project_type"@,
                    logs: None,
                    live_url: None,
                },
                ActionModel::Fail(ErrorModel::UnsupportedProjectType),
            ]
        }),
{
    reveal_with_fuel(run_model, 8);
    reveal_with_fuel(all_accepted, 8);
    let (s0, a0) = start_model(user_id, repo_url, repo_name, branch);
    let (s_end, actions) = run_model(s0, seq![
        EventModel::RecordCreated { deployment_id },
        EventModel::WorkspaceReady,
        EventModel::Cloned { logs },
        EventModel::StatusRecorded,
        EventModel::Detected { project: ProjectType::Unknown },
        EventModel::StatusRecorded,
        EventModel::StatusRecorded,
    ]);
    assert(actions.len() == 7);
}

/// A step that fails ends a running deployment at once: it fails with that
/// step's message, and nothing else changes.
pub proof fn lemma_failure_ends_deployment(s: StateModel, message: Seq<char>)
    requires
        !is_terminal(s.stage),
    ensures
        accepts(s.stage, EventModel::StepFailed { message }),
        next_model(s, EventModel::StepFailed { message }) == (
            StateModel { stage: DeployStage::Failed, ..s },
            ActionModel::Fail(ErrorModel::StepFailed(message)),
        ),
{
}

/// A deployment that is done or has failed takes no further outcome.
pub proof fn lemma_ended_deployment_accepts_nothing(s: StateModel, e: EventModel)
    requires
        is_terminal(s.stage),
    ensures
        !accepts(s.stage, e),
{
}

/// No step changes what was asked for: the user, repository and branch of a
/// deployment stay those of its request.
pub proof fn lemma_request_is_kept(s: StateModel, e: EventModel)
    ensures
        next_model(s, e).0.user_id == s.user_id,
        next_model(s, e).0.repo_url == s.repo_url,
        next_model(s, e).0.repo_name == s.repo_name,
        next_model(s, e).0.branch == s.branch,
{
}

/// A deployment finishes only after "deployed" was recorded, and finishes with
/// the address `http://<repo>-<branch>.localhost` and the container it started.
pub proof fn lemma_finish_reports_live_address(s: StateModel, e: EventModel)
    requires
        accepts(s.stage, e),
        next_model(s, e).1 is Finish,
    ensures
        s.stage == DeployStage::RecordingDeployed,
        next_model(s, e).1 == (ActionModel::Finish {
            deployment_id: s.deployment_id,
            container_id: s.container_id,
            port: s.host_port as int,
            live_url: live_url_text(slug_text(s.repo_name, s.branch)),
        }),
{
}


/// Each success is accepted only in the one stage that waits for it, a status
/// update only while one is being recorded, and a failure in every stage but
/// the two final ones. So no step can be skipped: a deployment reaches its end
/// only through every step in order.
pub proof fn lemma_outcomes_accepted_only_in_their_stage(s: DeployStage, e: EventModel)
    ensures
        e is RecordCreated && accepts(s, e) ==> s == DeployStage::CreatingRecord,
        accepts(s, EventModel::WorkspaceReady) ==> s == DeployStage::PreparingWorkspace,
        e is Cloned && accepts(s, e) ==> s == DeployStage::Cloning,
        e is Detected && accepts(s, e) ==> s == DeployStage::Detecting,
        accepts(s, EventModel::DockerfileWritten) ==> s == DeployStage::WritingDockerfile,
        accepts(s, EventModel::OldContainerRemoved) ==> s == DeployStage::RemovingOldContainer,
        accepts(s, EventModel::ImageBuilt) ==> s == DeployStage::BuildingImage,
        e is ContainerStarted && accepts(s, e) ==> s == DeployStage::StartingContainer,
        accepts(s, EventModel::ProxyConfigured) ==> s == DeployStage::ConfiguringProxy,
        accepts(s, EventModel::StatusRecorded) ==> (s == DeployStage::RecordingCloned || s
            == DeployStage::RecordingDetected || s == DeployStage::RecordingUnsupported || s
            == DeployStage::RecordingImageBuilt || s == DeployStage::RecordingContainerRunning || s
            == DeployStage::RecordingDeployed),
        e is StepFailed ==> (accepts(s, e) <==> (s != DeployStage::Done && s != DeployStage::Failed)),
        s == DeployStage::CreatingRecord ==> (e is RecordCreated ==> accepts(s, e)),
        s == DeployStage::ConfiguringProxy ==> accepts(s, EventModel::ProxyConfigured),
        s == DeployStage::StartingContainer ==> (e is ContainerStarted ==> accepts(s, e)),
{
}

} // verus!
