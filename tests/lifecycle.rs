use keystone::records::{
    App, Deployment, DeploymentNode, UpdateAppPayload, UpdateDeploymentNodePayload,
    UpdateDeploymentPayload, UpdateError,
};
use keystone::status::{settle_pin, settle_publication, success_status, DeploymentStatus, PinStatus};

fn deployment(status: DeploymentStatus) -> Deployment {
    Deployment {
        id: "d1".to_string(),
        app_id: "a1".to_string(),
        cid: "QmHello".to_string(),
        status,
        created_at: 1000,
    }
}

fn status_update(status: DeploymentStatus) -> UpdateDeploymentPayload {
    UpdateDeploymentPayload { app_id: None, cid: None, status: Some(status) }
}

#[test]
fn deployment_transitions_follow_the_table() {
    assert!(DeploymentStatus::PENDING.can_become(DeploymentStatus::PUBLISHING));
    assert!(DeploymentStatus::PUBLISHING.can_become(DeploymentStatus::DEPLOYED));
    assert!(DeploymentStatus::PUBLISHING.can_become(DeploymentStatus::FAILED));
    assert!(!DeploymentStatus::PENDING.can_become(DeploymentStatus::DEPLOYED));
    assert!(!DeploymentStatus::PUBLISHING.can_become(DeploymentStatus::PENDING));
    assert!(!DeploymentStatus::DEPLOYED.can_become(DeploymentStatus::FAILED));
    assert!(!DeploymentStatus::FAILED.can_become(DeploymentStatus::PUBLISHING));
    assert!(!DeploymentStatus::PENDING.can_become(DeploymentStatus::PENDING));
    assert!(DeploymentStatus::DEPLOYED.is_terminal() && DeploymentStatus::FAILED.is_terminal());
    assert!(!DeploymentStatus::PENDING.is_terminal() && !DeploymentStatus::PUBLISHING.is_terminal());
}

#[test]
fn pin_transitions_happen_once() {
    assert!(PinStatus::PINNING.can_become(PinStatus::PINNED));
    assert!(PinStatus::PINNING.can_become(PinStatus::FAILED));
    assert!(!PinStatus::PINNED.can_become(PinStatus::FAILED));
    assert!(!PinStatus::FAILED.can_become(PinStatus::PINNED));
    assert!(!PinStatus::PINNING.can_become(PinStatus::PINNING));
    assert!(!PinStatus::PINNING.is_terminal());
}

#[test]
fn pin_settles_on_response() {
    assert_eq!(settle_pin(Some(200)), PinStatus::PINNED);
    assert_eq!(settle_pin(Some(299)), PinStatus::PINNED);
    assert_eq!(settle_pin(Some(199)), PinStatus::FAILED);
    assert_eq!(settle_pin(Some(300)), PinStatus::FAILED);
    assert_eq!(settle_pin(Some(500)), PinStatus::FAILED);
    assert_eq!(settle_pin(None), PinStatus::FAILED);
    assert!(success_status(204));
    assert!(!success_status(404));
}

#[test]
fn publication_settles_deployment() {
    assert_eq!(settle_publication(true), DeploymentStatus::DEPLOYED);
    assert_eq!(settle_publication(false), DeploymentStatus::FAILED);
}

#[test]
fn deployment_update_changes_only_given_fields() {
    let mut d = deployment(DeploymentStatus::PENDING);
    let p = UpdateDeploymentPayload { app_id: None, cid: Some("QmOther".to_string()), status: None };
    assert_eq!(d.apply(&p), Ok(()));
    assert_eq!(d.cid, "QmOther");
    assert_eq!(d.app_id, "a1");
    assert_eq!(d.status, DeploymentStatus::PENDING);
}

#[test]
fn deployment_update_refuses_backward_transition() {
    let mut d = deployment(DeploymentStatus::DEPLOYED);
    let p = UpdateDeploymentPayload {
        app_id: Some("a2".to_string()),
        cid: None,
        status: Some(DeploymentStatus::PUBLISHING),
    };
    assert_eq!(
        d.apply(&p),
        Err(UpdateError::DeploymentTransition(DeploymentStatus::DEPLOYED, DeploymentStatus::PUBLISHING))
    );
    assert_eq!(d.app_id, "a1");
    assert_eq!(d.status, DeploymentStatus::DEPLOYED);
}

#[test]
fn deployment_statuses_observed_in_order() {
    let mut d = deployment(DeploymentStatus::PENDING);
    let attempts = [
        DeploymentStatus::DEPLOYED,
        DeploymentStatus::PUBLISHING,
        DeploymentStatus::PENDING,
        DeploymentStatus::FAILED,
        DeploymentStatus::DEPLOYED,
        DeploymentStatus::PUBLISHING,
    ];
    let mut observed = vec![d.status];
    for next in attempts {
        let _ = d.apply(&status_update(next));
        if *observed.last().unwrap() != d.status {
            observed.push(d.status);
        }
    }
    assert_eq!(
        observed,
        vec![DeploymentStatus::PENDING, DeploymentStatus::PUBLISHING, DeploymentStatus::FAILED]
    );
}

#[test]
fn pin_update_applies_once() {
    let mut n = DeploymentNode {
        id: "dn1".to_string(),
        deployment_id: "d1".to_string(),
        node_id: "n1".to_string(),
        status: PinStatus::PINNING,
        created_at: 1000,
        updated_at: 1000,
    };
    let pinned = UpdateDeploymentNodePayload { deployment_id: None, node_id: None, status: Some(PinStatus::PINNED) };
    let failed = UpdateDeploymentNodePayload { deployment_id: None, node_id: None, status: Some(PinStatus::FAILED) };
    assert_eq!(n.apply(&pinned), Ok(()));
    assert_eq!(n.status, PinStatus::PINNED);
    assert_eq!(n.apply(&failed), Err(UpdateError::PinTransition(PinStatus::PINNED, PinStatus::FAILED)));
    assert_eq!(n.status, PinStatus::PINNED);
}

#[test]
fn app_update_sets_given_fields() {
    let mut a = App {
        id: "a1".to_string(),
        team_id: "t1".to_string(),
        name: "demo".to_string(),
        key_name: None,
        ipns_name: None,
        created_at: 1,
        updated_at: 1,
    };
    let p = UpdateAppPayload { team_id: None, name: None, key_name: Some("demo".to_string()), ipns_name: None };
    a.apply(&p);
    assert_eq!(a.key_name, Some("demo".to_string()));
    assert_eq!(a.ipns_name, None);
    assert_eq!(a.name, "demo");
    let q = UpdateAppPayload { team_id: Some("t2".to_string()), name: None, key_name: None, ipns_name: Some("k51".to_string()) };
    a.apply(&q);
    assert_eq!(a.team_id, "t2");
    assert_eq!(a.key_name, Some("demo".to_string()));
    assert_eq!(a.ipns_name, Some("k51".to_string()));
}
