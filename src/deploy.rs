//! One deployment request, end to end, as a state machine: each step takes what the
//! outside world answered and says what to do next. The caller performs the action
//! (a persistence write, a content-store call, a name-service call, a fan-out) and
//! hands back the outcome as the next event.

use vstd::prelude::*;
use crate::fanout::{NodeDispatch, plan_dispatch, planned};
use crate::naming::{KeyInfo, key_saved};
use crate::records::{App, CreateAppPayload, CreateDeploymentPayload, Deployment, UpdateAppPayload, UpdateDeploymentPayload};
use crate::registry::NodeEntry;
use crate::status::DeploymentStatus;

verus! {

/// A deployment request: an existing application by `id`, or a new one from
/// `team_id` and `name`; and the content to publish.
pub struct AppDeployPayload {
    pub id: Option<String>,
    pub team_id: Option<String>,
    pub name: Option<String>,
    pub content: String,
}

/// How to obtain the application of a request.
pub enum AppLookup {
    /// Read the application with this identifier.
    Existing(String),
    /// Create an application.
    Create(CreateAppPayload),
}

/// Why a deployment request failed before its deployment was advertised.
#[derive(Debug)]
pub enum DeployError {
    /// A new application was asked for without a team.
    MissingTeam,
    /// A new application was asked for without a name.
    MissingName,
    /// The application could not be read or created.
    App(String),
    /// The content store refused or could not be reached.
    Store(String),
    /// The deployment record could not be created or advanced to PUBLISHING; the
    /// request ends there, as the deployment cannot be advertised.
    Persistence(String),
}

/// What the name publication task is handed.
pub struct Publication {
    pub deployment_id: String,
    pub app_id: String,
    /// The naming key to publish under; `None` when none could be had, and the
    /// deployment then ends FAILED.
    pub key_name: Option<String>,
    pub cid: String,
}

/// Where a deployment request stands, with what it has gathered so far.
pub enum DeployState {
    ResolvingApp,
    AddingContent { app: App },
    CreatingDeployment { app: App, cid: String },
    MarkingPublishing { app: App },
    FindingKey { app: App, deployment: Deployment },
    SavingKey { app: App, deployment: Deployment, key_name: String },
    SelectingNodes { app: App, deployment: Deployment },
    Done,
    Aborted,
}

/// The outcome of the last action.
pub enum DeployEvent {
    AppReady(App),
    AppFailed(String),
    ContentAdded(String),
    ContentFailed(String),
    DeploymentWritten(Deployment),
    DeploymentFailed(String),
    KeyReady(KeyInfo),
    KeyFailed(String),
    AppSaved(App),
    AppSaveFailed(String),
    NodesSelected(Vec<NodeEntry>),
    NodesUnavailable(String),
}

/// What to do next.
pub enum DeployAction {
    ResolveApp(AppLookup),
    /// Submit the request's content to the content store.
    AddContent,
    CreateDeployment(CreateDeploymentPayload),
    /// Apply the update to the deployment with this identifier.
    UpdateDeployment(String, UpdateDeploymentPayload),
    /// Find or create the naming key of this name.
    FindOrCreateKey(String),
    /// Apply the update to the application with this identifier.
    UpdateApp(String, UpdateAppPayload),
    /// Start name publication as a detached task, then select the target nodes.
    PublishAndSelect(Publication),
    /// Start the deliveries as detached tasks and answer the request with the deployment.
    Finish(Deployment, Vec<NodeDispatch>),
    /// Answer the request with the error.
    Fail(DeployError),
    /// The event does not belong to this stage; nothing changes.
    Ignore,
}

/// The lookup a request asks for, or why it asks for none.
pub open spec fn lookup_of(p: AppDeployPayload) -> Result<AppLookup, DeployError> {
    match p.id {
        Some(id) => Ok(AppLookup::Existing(id)),
        None => match p.team_id {
            None => Err(DeployError::MissingTeam),
            Some(team_id) => match p.name {
                None => Err(DeployError::MissingName),
                Some(name) => Ok(AppLookup::Create(CreateAppPayload { team_id, name })),
            },
        },
    }
}

/// How to obtain the application of a request: by identifier when one is given;
/// otherwise a new one, which needs a team and a name.
pub fn app_lookup(p: &AppDeployPayload) -> (r: Result<AppLookup, DeployError>)
    ensures
        r == lookup_of(*p),
{
    match &p.id {
        Some(id) => Ok(AppLookup::Existing(id.clone())),
        None => match &p.team_id {
            None => Err(DeployError::MissingTeam),
            Some(team_id) => match &p.name {
                None => Err(DeployError::MissingName),
                Some(name) => Ok(AppLookup::Create(CreateAppPayload { team_id: team_id.clone(), name: name.clone() })),
            },
        },
    }
}

/// The publication task for a deployment of an application.
pub open spec fn publication_of(app: App, deployment: Deployment, key_name: Option<String>) -> Publication {
    Publication { deployment_id: deployment.id, app_id: app.id, key_name, cid: deployment.cid }
}

/// The steps of a deployment request.
pub open spec fn transition(s: DeployState, e: DeployEvent, next: DeployState, a: DeployAction) -> bool {
    match (s, e) {
        (DeployState::ResolvingApp, DeployEvent::AppReady(app)) =>
            next == (DeployState::AddingContent { app }) && a == DeployAction::AddContent,
        (DeployState::ResolvingApp, DeployEvent::AppFailed(m)) =>
            next == DeployState::Aborted && a == DeployAction::Fail(DeployError::App(m)),
        (DeployState::AddingContent { app }, DeployEvent::ContentAdded(cid)) =>
            next == (DeployState::CreatingDeployment { app, cid })
                && a == DeployAction::CreateDeployment(
                    CreateDeploymentPayload { app_id: app.id, cid, status: DeploymentStatus::PENDING },
                ),
        (DeployState::AddingContent { .. }, DeployEvent::ContentFailed(m)) =>
            next == DeployState::Aborted && a == DeployAction::Fail(DeployError::Store(m)),
        (DeployState::CreatingDeployment { app, .. }, DeployEvent::DeploymentWritten(d)) =>
            next == (DeployState::MarkingPublishing { app })
                && a == DeployAction::UpdateDeployment(
                    d.id,
                    UpdateDeploymentPayload { app_id: None, cid: None, status: Some(DeploymentStatus::PUBLISHING) },
                ),
        (DeployState::CreatingDeployment { .. }, DeployEvent::DeploymentFailed(m)) =>
            next == DeployState::Aborted && a == DeployAction::Fail(DeployError::Persistence(m)),
        (DeployState::MarkingPublishing { app }, DeployEvent::DeploymentWritten(d)) =>
            next == (DeployState::FindingKey { app, deployment: d })
                && a == DeployAction::FindOrCreateKey(app.name),
        (DeployState::MarkingPublishing { .. }, DeployEvent::DeploymentFailed(m)) =>
            next == DeployState::Aborted && a == DeployAction::Fail(DeployError::Persistence(m)),
        (DeployState::FindingKey { app, deployment }, DeployEvent::KeyReady(k)) =>
            next == (DeployState::SavingKey { app, deployment, key_name: k.name })
                && a == DeployAction::UpdateApp(
                    app.id,
                    UpdateAppPayload { team_id: None, name: None, key_name: Some(k.name), ipns_name: None },
                ),
        (DeployState::FindingKey { app, deployment }, DeployEvent::KeyFailed(_)) =>
            next == (DeployState::SelectingNodes { app, deployment })
                && a == DeployAction::PublishAndSelect(publication_of(app, deployment, None)),
        (DeployState::SavingKey { app, deployment, key_name }, DeployEvent::AppSaved(saved)) =>
            next == (DeployState::SelectingNodes { app: saved, deployment })
                && a == DeployAction::PublishAndSelect(publication_of(app, deployment, Some(key_name))),
        (DeployState::SavingKey { app, deployment, key_name }, DeployEvent::AppSaveFailed(_)) =>
            next == (DeployState::SelectingNodes { app, deployment })
                && a == DeployAction::PublishAndSelect(publication_of(app, deployment, Some(key_name))),
        (DeployState::SelectingNodes { app, deployment }, DeployEvent::NodesSelected(nodes)) =>
            next == DeployState::Done && match a {
                DeployAction::Finish(d, plan) => d == deployment && planned(nodes@, app.name@, deployment.cid@, deployment.id@, plan@),
                _ => false,
            },
        (DeployState::SelectingNodes { deployment, .. }, DeployEvent::NodesUnavailable(_)) =>
            next == DeployState::Done && match a {
                DeployAction::Finish(d, plan) => d == deployment && plan@.len() == 0,
                _ => false,
            },
        (s0, _) => next == s0 && a == DeployAction::Ignore,
    }
}

impl DeployState {
    /// The first step of a request: the application lookup, or the reason there is none.
    pub fn start(request: &AppDeployPayload) -> (r: (DeployState, DeployAction))
        ensures
            match lookup_of(*request) {
                Ok(l) => r.0 == DeployState::ResolvingApp && r.1 == DeployAction::ResolveApp(l),
                Err(e) => r.0 == DeployState::Aborted && r.1 == DeployAction::Fail(e),
            },
    {
        match app_lookup(request) {
            Ok(l) => (DeployState::ResolvingApp, DeployAction::ResolveApp(l)),
            Err(e) => (DeployState::Aborted, DeployAction::Fail(e)),
        }
    }

    /// Takes the outcome of the last action and returns the next state and action.
    pub fn advance(self, e: DeployEvent) -> (r: (DeployState, DeployAction))
        ensures
            transition(self, e, r.0, r.1),
    {
        match (self, e) {
            (DeployState::ResolvingApp, DeployEvent::AppReady(app)) =>
                (DeployState::AddingContent { app }, DeployAction::AddContent),
            (DeployState::ResolvingApp, DeployEvent::AppFailed(m)) =>
                (DeployState::Aborted, DeployAction::Fail(DeployError::App(m))),
            (DeployState::AddingContent { app }, DeployEvent::ContentAdded(cid)) => {
                let payload = CreateDeploymentPayload {
                    app_id: app.id.clone(),
                    cid: cid.clone(),
                    status: DeploymentStatus::PENDING,
                };
                (DeployState::CreatingDeployment { app, cid }, DeployAction::CreateDeployment(payload))
            },
            (DeployState::AddingContent { .. }, DeployEvent::ContentFailed(m)) =>
                (DeployState::Aborted, DeployAction::Fail(DeployError::Store(m))),
            (DeployState::CreatingDeployment { app, .. }, DeployEvent::DeploymentWritten(d)) => {
                let update = UpdateDeploymentPayload {
                    app_id: None,
                    cid: None,
                    status: Some(DeploymentStatus::PUBLISHING),
                };
                (DeployState::MarkingPublishing { app }, DeployAction::UpdateDeployment(d.id, update))
            },
            (DeployState::CreatingDeployment { .. }, DeployEvent::DeploymentFailed(m)) =>
                (DeployState::Aborted, DeployAction::Fail(DeployError::Persistence(m))),
            (DeployState::MarkingPublishing { app }, DeployEvent::DeploymentWritten(d)) => {
                let name = app.name.clone();
                (DeployState::FindingKey { app, deployment: d }, DeployAction::FindOrCreateKey(name))
            },
            (DeployState::MarkingPublishing { .. }, DeployEvent::DeploymentFailed(m)) =>
                (DeployState::Aborted, DeployAction::Fail(DeployError::Persistence(m))),
            (DeployState::FindingKey { app, deployment }, DeployEvent::KeyReady(k)) => {
                let update = key_saved(&k);
                let app_id = app.id.clone();
                (DeployState::SavingKey { app, deployment, key_name: k.name }, DeployAction::UpdateApp(app_id, update))
            },
            (DeployState::FindingKey { app, deployment }, DeployEvent::KeyFailed(_)) => {
                let publication = Publication {
                    deployment_id: deployment.id.clone(),
                    app_id: app.id.clone(),
                    key_name: None,
                    cid: deployment.cid.clone(),
                };
                (DeployState::SelectingNodes { app, deployment }, DeployAction::PublishAndSelect(publication))
            },
            (DeployState::SavingKey { app, deployment, key_name }, DeployEvent::AppSaved(saved)) => {
                let publication = Publication {
                    deployment_id: deployment.id.clone(),
                    app_id: app.id.clone(),
                    key_name: Some(key_name),
                    cid: deployment.cid.clone(),
                };
                (DeployState::SelectingNodes { app: saved, deployment }, DeployAction::PublishAndSelect(publication))
            },
            (DeployState::SavingKey { app, deployment, key_name }, DeployEvent::AppSaveFailed(_)) => {
                let publication = Publication {
                    deployment_id: deployment.id.clone(),
                    app_id: app.id.clone(),
                    key_name: Some(key_name),
                    cid: deployment.cid.clone(),
                };
                (DeployState::SelectingNodes { app, deployment }, DeployAction::PublishAndSelect(publication))
            },
            (DeployState::SelectingNodes { app, deployment }, DeployEvent::NodesSelected(nodes)) => {
                let plan = plan_dispatch(&nodes, &app.name, &deployment.cid, &deployment.id);
                (DeployState::Done, DeployAction::Finish(deployment, plan))
            },
            (DeployState::SelectingNodes { deployment, .. }, DeployEvent::NodesUnavailable(_)) =>
                (DeployState::Done, DeployAction::Finish(deployment, Vec::new())),
            (s, _) => (s, DeployAction::Ignore),
        }
    }
}

} // verus!
