//! The persisted records that the orchestrator reads and writes, and the partial
//! updates it sends through the persistence port. Identifiers are opaque strings and
//! times are seconds since the epoch.

use vstd::prelude::*;
use crate::status::{DeploymentStatus, PinStatus};

verus! {

/// An application: its owning team, its name, and the naming key and resolved name
/// that publication fills in.
pub struct App {
    pub id: String,
    pub team_id: String,
    pub name: String,
    pub key_name: Option<String>,
    pub ipns_name: Option<String>,
    pub created_at: i64,
    pub updated_at: i64,
}

/// One publication of an application's content.
pub struct Deployment {
    pub id: String,
    pub app_id: String,
    pub cid: String,
    pub status: DeploymentStatus,
    pub created_at: i64,
}

/// The delivery of one deployment to one node.
pub struct DeploymentNode {
    pub id: String,
    pub deployment_id: String,
    pub node_id: String,
    pub status: PinStatus,
    pub created_at: i64,
    pub updated_at: i64,
}

pub struct CreateAppPayload {
    pub team_id: String,
    pub name: String,
}

/// A partial update of an application: only the fields that are `Some` change.
pub struct UpdateAppPayload {
    pub team_id: Option<String>,
    pub name: Option<String>,
    pub key_name: Option<String>,
    pub ipns_name: Option<String>,
}

pub struct CreateDeploymentPayload {
    pub app_id: String,
    pub cid: String,
    pub status: DeploymentStatus,
}

/// A partial update of a deployment: only the fields that are `Some` change.
pub struct UpdateDeploymentPayload {
    pub app_id: Option<String>,
    pub cid: Option<String>,
    pub status: Option<DeploymentStatus>,
}

pub struct CreateDeploymentNodePayload {
    pub deployment_id: String,
    pub node_id: String,
    pub status: PinStatus,
}

/// A partial update of a deployment-node record: only the fields that are `Some` change.
pub struct UpdateDeploymentNodePayload {
    pub deployment_id: Option<String>,
    pub node_id: Option<String>,
    pub status: Option<PinStatus>,
}

/// Why a partial update was refused.
#[derive(Debug, PartialEq, Eq, Structural)]
pub enum UpdateError {
    /// The deployment's status cannot move from the first state to the second.
    DeploymentTransition(DeploymentStatus, DeploymentStatus),
    /// The pin status cannot move from the first state to the second.
    PinTransition(PinStatus, PinStatus),
}

/// The new value when one is given, else the current one.
pub open spec fn or_keep<T>(update: Option<T>, current: T) -> T {
    match update {
        Some(v) => v,
        None => current,
    }
}

/// A copy of the new value when one is given, else of the current one.
fn take_or_keep(update: &Option<String>, current: &String) -> (r: String)
    ensures
        r == or_keep(*update, *current),
{
    match update {
        Some(v) => v.clone(),
        None => current.clone(),
    }
}

/// A field-for-field copy of an optional string.
fn copy_option(v: &Option<String>) -> (r: Option<String>)
    ensures
        r == *v,
{
    match v {
        Some(s) => Some(s.clone()),
        None => None,
    }
}

/// The application after a partial update.
pub open spec fn app_updated(a: App, p: UpdateAppPayload) -> App {
    App {
        team_id: or_keep(p.team_id, a.team_id),
        name: or_keep(p.name, a.name),
        key_name: match p.key_name { Some(k) => Some(k), None => a.key_name },
        ipns_name: match p.ipns_name { Some(n) => Some(n), None => a.ipns_name },
        ..a
    }
}

/// Whether the persistence port accepts the update: a status change must follow the
/// lifecycle.
pub open spec fn deployment_accepts(d: Deployment, p: UpdateDeploymentPayload) -> bool {
    match p.status {
        Some(next) => d.status.allows(next),
        None => true,
    }
}

/// The deployment after a partial update; unchanged when the update is refused.
pub open spec fn deployment_updated(d: Deployment, p: UpdateDeploymentPayload) -> Deployment {
    if deployment_accepts(d, p) {
        Deployment {
            app_id: or_keep(p.app_id, d.app_id),
            cid: or_keep(p.cid, d.cid),
            status: or_keep(p.status, d.status),
            ..d
        }
    } else {
        d
    }
}

/// Whether the persistence port accepts the update: a pin status changes once.
pub open spec fn pin_accepts(n: DeploymentNode, p: UpdateDeploymentNodePayload) -> bool {
    match p.status {
        Some(next) => n.status.allows(next),
        None => true,
    }
}

/// The deployment-node record after a partial update; unchanged when refused.
pub open spec fn pin_updated(n: DeploymentNode, p: UpdateDeploymentNodePayload) -> DeploymentNode {
    if pin_accepts(n, p) {
        DeploymentNode {
            deployment_id: or_keep(p.deployment_id, n.deployment_id),
            node_id: or_keep(p.node_id, n.node_id),
            status: or_keep(p.status, n.status),
            ..n
        }
    } else {
        n
    }
}

impl App {
    /// Applies a partial update: each field given in `p` replaces the stored one.
    pub fn apply(&mut self, p: &UpdateAppPayload)
        ensures
            *final(self) == app_updated(*old(self), *p),
    {
        self.team_id = take_or_keep(&p.team_id, &self.team_id);
        self.name = take_or_keep(&p.name, &self.name);
        if p.key_name.is_some() {
            self.key_name = copy_option(&p.key_name);
        }
        if p.ipns_name.is_some() {
            self.ipns_name = copy_option(&p.ipns_name);
        }
    }
}

impl Deployment {
    /// A field-for-field copy.
    pub fn copied(&self) -> (r: Deployment)
        ensures
            r == *self,
    {
        Deployment {
            id: self.id.clone(),
            app_id: self.app_id.clone(),
            cid: self.cid.clone(),
            status: self.status,
            created_at: self.created_at,
        }
    }

    /// Applies a partial update. A status change that does not follow the lifecycle
    /// is refused and nothing changes.
    pub fn apply(&mut self, p: &UpdateDeploymentPayload) -> (r: Result<(), UpdateError>)
        ensures
            *final(self) == deployment_updated(*old(self), *p),
            r is Ok <==> deployment_accepts(*old(self), *p),
            r is Err ==> r == Err::<(), UpdateError>(
                UpdateError::DeploymentTransition(old(self).status, p.status->Some_0),
            ),
    {
        if let Some(next) = p.status {
            if !self.status.can_become(next) {
                return Err(UpdateError::DeploymentTransition(self.status, next));
            }
        }
        self.app_id = take_or_keep(&p.app_id, &self.app_id);
        self.cid = take_or_keep(&p.cid, &self.cid);
        if let Some(next) = p.status {
            self.status = next;
        }
        Ok(())
    }
}

impl DeploymentNode {
    /// Applies a partial update. The pin status changes once, from PINNING to a
    /// terminal state; any other change of it is refused and nothing changes.
    pub fn apply(&mut self, p: &UpdateDeploymentNodePayload) -> (r: Result<(), UpdateError>)
        ensures
            *final(self) == pin_updated(*old(self), *p),
            r is Ok <==> pin_accepts(*old(self), *p),
            r is Err ==> r == Err::<(), UpdateError>(
                UpdateError::PinTransition(old(self).status, p.status->Some_0),
            ),
    {
        if let Some(next) = p.status {
            if !self.status.can_become(next) {
                return Err(UpdateError::PinTransition(self.status, next));
            }
        }
        self.deployment_id = take_or_keep(&p.deployment_id, &self.deployment_id);
        self.node_id = take_or_keep(&p.node_id, &self.node_id);
        if let Some(next) = p.status {
            self.status = next;
        }
        Ok(())
    }
}

/// The statuses observed on a deployment as a sequence of updates is applied to it,
/// starting with its status before the first.
pub open spec fn observed_statuses(d: Deployment, updates: Seq<UpdateDeploymentPayload>) -> Seq<DeploymentStatus>
    decreases updates.len(),
{
    if updates.len() == 0 {
        seq![d.status]
    } else {
        seq![d.status] + observed_statuses(deployment_updated(d, updates[0]), updates.drop_first())
    }
}

/// The statuses run through the lifecycle in order: a later one is never at an
/// earlier stage, and once a terminal state is seen nothing else is.
pub open spec fn follows_lifecycle(obs: Seq<DeploymentStatus>) -> bool {
    forall|i: int, j: int|
        0 <= i <= j < obs.len() ==> (#[trigger] obs[i]).stage() <= (#[trigger] obs[j]).stage()
            && (obs[i].terminal() ==> obs[j] == obs[i])
}

/// Whatever updates the persistence port is asked to apply, the statuses observed
/// on a deployment form a subsequence of PENDING, PUBLISHING, then DEPLOYED or
/// FAILED: none goes back, and none leaves a terminal state.
pub proof fn lemma_status_monotonic(d: Deployment, updates: Seq<UpdateDeploymentPayload>)
    ensures
        follows_lifecycle(observed_statuses(d, updates)),
        observed_statuses(d, updates).len() == updates.len() + 1,
        observed_statuses(d, updates)[0] == d.status,
    decreases updates.len(),
{
    if updates.len() > 0 {
        let next = deployment_updated(d, updates[0]);
        lemma_status_monotonic(next, updates.drop_first());
        let rest = observed_statuses(next, updates.drop_first());
        let obs = observed_statuses(d, updates);
        assert(obs == seq![d.status] + rest);
        assert(d.status.stage() <= next.status.stage());
        assert(d.status.terminal() ==> next.status == d.status);
        assert forall|i: int, j: int| 0 <= i <= j < obs.len() implies (#[trigger] obs[i]).stage() <= (#[trigger] obs[j]).stage()
            && (obs[i].terminal() ==> obs[j] == obs[i]) by {
            if i == 0 {
                if j > 0 {
                    assert(obs[j] == rest[j - 1]);
                    assert(rest[0] == next.status);
                    assert(rest[0].stage() <= rest[j - 1].stage());
                }
            } else {
                assert(obs[i] == rest[i - 1]);
                assert(obs[j] == rest[j - 1]);
            }
        }
    }
}

} // verus!
