//! The fan-out of a deployment to its target nodes, and what each detached outcome
//! writes back: a node's answer to its own record, name publication to the
//! deployment and its application.

use vstd::prelude::*;
use crate::endpoints::node_deploy_url;
use crate::naming::PublishedName;
use crate::records::{
    CreateDeploymentNodePayload, Deployment, DeploymentNode, UpdateAppPayload,
    UpdateDeploymentNodePayload, UpdateDeploymentPayload, deployment_updated, pin_updated,
};
use crate::registry::{NodeEntry, has_id, ids_unique};
use crate::status::{DeploymentStatus, PinStatus, pin_outcome, publication_outcome, settle_pin};
use crate::text::decimal;

verus! {

/// What a node is asked to pin: the application's name and the content identifier.
pub struct NodeDeployPayload {
    pub name: String,
    pub cid: String,
}

/// The delivery of a deployment to one node: the record to create (PINNING), the
/// address to call, and what to send.
pub struct NodeDispatch {
    pub node_id: String,
    pub url: String,
    pub record: CreateDeploymentNodePayload,
    pub payload: NodeDeployPayload,
}

/// What the end of name publication writes back.
pub struct PublicationUpdates {
    /// The resolved name for the application, when publication succeeded.
    pub app: Option<UpdateAppPayload>,
    /// The deployment's terminal status.
    pub deployment: UpdateDeploymentPayload,
}

/// The selected nodes, each identifier once, in order of first appearance.
pub open spec fn distinct_targets(s: Seq<NodeEntry>) -> Seq<NodeEntry>
    decreases s.len(),
{
    if s.len() == 0 {
        s
    } else {
        let d = distinct_targets(s.drop_last());
        if has_id(d, s.last().id@) {
            d
        } else {
            d.push(s.last())
        }
    }
}

/// `d` delivers the deployment to node `t`.
pub open spec fn dispatch_for(t: NodeEntry, app_name: Seq<char>, cid: Seq<char>, deployment_id: Seq<char>, d: NodeDispatch) -> bool {
    &&& d.node_id@ == t.id@
    &&& d.url@ == "http://"@ + t.info.ip@ + ":"@ + decimal(t.info.port as nat) + "/api/deploy"@
    &&& d.payload.name@ == app_name
    &&& d.payload.cid@ == cid
    &&& d.record.deployment_id@ == deployment_id
    &&& d.record.node_id@ == t.id@
    &&& d.record.status == PinStatus::PINNING
}

/// The fan-out plan: one dispatch per distinct selected node.
pub open spec fn planned(nodes: Seq<NodeEntry>, app_name: Seq<char>, cid: Seq<char>, deployment_id: Seq<char>, r: Seq<NodeDispatch>) -> bool {
    &&& r.len() == distinct_targets(nodes).len()
    &&& forall|i: int| 0 <= i < r.len() ==> dispatch_for(distinct_targets(nodes)[i], app_name, cid, deployment_id, #[trigger] r[i])
}

/// Whether the plan already delivers to `id`.
fn already_planned(plan: &Vec<NodeDispatch>, id: &String) -> (r: bool)
    ensures
        r == exists|k: int| 0 <= k < plan@.len() && #[trigger] plan@[k].node_id@ == id@,
{
    let mut k: usize = 0;
    while k < plan.len()
        invariant
            k <= plan@.len(),
            forall|j: int| 0 <= j < k ==> #[trigger] plan@[j].node_id@ != id@,
        decreases plan@.len() - k,
    {
        if plan[k].node_id == *id {
            return true;
        }
        k = k + 1;
    }
    false
}

/// Plans the fan-out of a deployment: for each selected node, once per identifier,
/// the record to create, the node's deploy address, and the payload.
pub fn plan_dispatch(nodes: &Vec<NodeEntry>, app_name: &String, cid: &String, deployment_id: &String) -> (r: Vec<NodeDispatch>)
    ensures
        planned(nodes@, app_name@, cid@, deployment_id@, r@),
{
    let mut plan: Vec<NodeDispatch> = Vec::new();
    let mut i: usize = 0;
    while i < nodes.len()
        invariant
            i <= nodes@.len(),
            planned(nodes@.subrange(0, i as int), app_name@, cid@, deployment_id@, plan@),
        decreases nodes@.len() - i,
    {
        let ghost pre = nodes@.subrange(0, i as int);
        let ghost post = nodes@.subrange(0, i as int + 1);
        assert(post.drop_last() =~= pre);
        assert(post.last() == nodes@[i as int]);
        let node = &nodes[i];
        let seen = already_planned(&plan, &node.id);
        proof {
            let d = distinct_targets(pre);
            if seen {
                let k = choose|k: int| 0 <= k < plan@.len() && plan@[k].node_id@ == node.id@;
                assert(d[k].id@ == node.id@);
            } else {
                if has_id(d, node.id@) {
                    let k = choose|k: int| 0 <= k < d.len() && d[k].id@ == node.id@;
                    assert(plan@[k].node_id@ == node.id@);
                }
            }
        }
        if !seen {
            let dispatch = NodeDispatch {
                node_id: node.id.clone(),
                url: node_deploy_url(&node.info.ip, node.info.port),
                record: CreateDeploymentNodePayload {
                    deployment_id: deployment_id.clone(),
                    node_id: node.id.clone(),
                    status: PinStatus::PINNING,
                },
                payload: NodeDeployPayload { name: app_name.clone(), cid: cid.clone() },
            };
            plan.push(dispatch);
        }
        i = i + 1;
    }
    assert(nodes@.subrange(0, nodes@.len() as int) =~= nodes@);
    plan
}

/// The update of a node's record from its answer to the deploy call.
pub open spec fn pin_payload(response: Option<u16>) -> UpdateDeploymentNodePayload {
    UpdateDeploymentNodePayload { deployment_id: None, node_id: None, status: Some(pin_outcome(response)) }
}

/// The update of a node's record from its answer: `Some(code)` when the node answered
/// with that HTTP status, `None` when the call failed or timed out.
pub fn pin_update(response: Option<u16>) -> (r: UpdateDeploymentNodePayload)
    ensures
        r == pin_payload(response),
{
    UpdateDeploymentNodePayload { deployment_id: None, node_id: None, status: Some(settle_pin(response)) }
}

/// What the end of name publication writes back, given its outcome.
pub open spec fn publication_payload(outcome: Option<PublishedName>) -> PublicationUpdates {
    match outcome {
        Some(p) => PublicationUpdates {
            app: Some(UpdateAppPayload { team_id: None, name: None, key_name: None, ipns_name: Some(p.name) }),
            deployment: UpdateDeploymentPayload { app_id: None, cid: None, status: Some(DeploymentStatus::DEPLOYED) },
        },
        None => PublicationUpdates {
            app: None,
            deployment: UpdateDeploymentPayload { app_id: None, cid: None, status: Some(DeploymentStatus::FAILED) },
        },
    }
}

/// What the end of name publication writes back: on success the resolved name to the
/// application and DEPLOYED to the deployment; on failure (or when no naming key
/// could be had) FAILED to the deployment alone.
pub fn publication_updates(outcome: Option<PublishedName>) -> (r: PublicationUpdates)
    ensures
        r == publication_payload(outcome),
{
    match outcome {
        Some(p) => PublicationUpdates {
            app: Some(UpdateAppPayload { team_id: None, name: None, key_name: None, ipns_name: Some(p.name) }),
            deployment: UpdateDeploymentPayload { app_id: None, cid: None, status: Some(DeploymentStatus::DEPLOYED) },
        },
        None => PublicationUpdates {
            app: None,
            deployment: UpdateDeploymentPayload { app_id: None, cid: None, status: Some(DeploymentStatus::FAILED) },
        },
    }
}

/// One record per node: the fan-out targets carry distinct identifiers, and every
/// selected node is among them.
pub proof fn lemma_one_record_per_node(nodes: Seq<NodeEntry>)
    ensures
        ids_unique(distinct_targets(nodes)),
        forall|i: int| 0 <= i < nodes.len() ==> has_id(distinct_targets(nodes), #[trigger] nodes[i].id@),
    decreases nodes.len(),
{
    if nodes.len() > 0 {
        let rest = nodes.drop_last();
        lemma_one_record_per_node(rest);
        let d = distinct_targets(rest);
        let last = nodes.last();
        if !has_id(d, last.id@) {
            let e = d.push(last);
            assert forall|a: int, b: int| 0 <= a < e.len() && 0 <= b < e.len() && a != b implies #[trigger] e[a].id@ != #[trigger] e[b].id@ by {
                if a == d.len() {
                    assert(e[b] == d[b]);
                } else if b == d.len() {
                    assert(e[a] == d[a]);
                } else {
                    assert(e[a] == d[a] && e[b] == d[b]);
                }
            }
            assert(e[d.len() as int] == last);
        }
        let r = distinct_targets(nodes);
        assert forall|i: int| 0 <= i < nodes.len() implies has_id(r, #[trigger] nodes[i].id@) by {
            if i < rest.len() {
                assert(nodes[i] == rest[i]);
                let k = choose|k: int| 0 <= k < d.len() && d[k].id@ == rest[i].id@;
                assert(r[k] == d[k]);
            } else if !has_id(d, last.id@) {
                assert(r[d.len() as int] == last);
            }
        }
    }
}

/// Each node's outcome settles its own record and nothing else: whatever the other
/// nodes answered, a record that was PINNING ends PINNED exactly when its node
/// answered with success, and the deployment's terminal status comes from name
/// publication alone.
pub proof fn lemma_fanout_independent(
    d: Deployment,
    records: Seq<DeploymentNode>,
    responses: Seq<Option<u16>>,
    published: Option<PublishedName>,
)
    requires
        d.status == DeploymentStatus::PUBLISHING,
        records.len() == responses.len(),
        forall|i: int| 0 <= i < records.len() ==> #[trigger] records[i].status == PinStatus::PINNING,
    ensures
        forall|i: int| 0 <= i < records.len() ==>
            (#[trigger] pin_updated(records[i], pin_payload(responses[i]))).status == pin_outcome(responses[i]),
        deployment_updated(d, publication_payload(published).deployment).status == publication_outcome(published is Some),
{
}

} // verus!
