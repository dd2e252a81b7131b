use keystone::endpoints::{add_url, cat_url, cid_from_path, key_gen_url, key_list_url, node_deploy_url, publish_url, resolve_url};
use keystone::records::{UpdateAppPayload, UpdateDeploymentNodePayload, UpdateDeploymentPayload};
use keystone::settings::{DatabaseConfig, RedisSettings, ServerConfig};
use keystone::statement::{update_statement, Bound, Column, Table};
use keystone::status::{DeploymentStatus, PinStatus};
use keystone::text::decimal_text;

fn s(x: &str) -> String {
    x.to_string()
}

#[test]
fn decimal_matches_display() {
    assert_eq!(decimal_text(0), "0");
    assert_eq!(decimal_text(7), "7");
    assert_eq!(decimal_text(10), "10");
    assert_eq!(decimal_text(9000), "9000");
    assert_eq!(decimal_text(u64::MAX), u64::MAX.to_string());
}

#[test]
fn content_store_addresses() {
    let host = s("http://127.0.0.1:5001");
    assert_eq!(add_url(&host), "http://127.0.0.1:5001/api/v0/add");
    assert_eq!(key_list_url(&host), "http://127.0.0.1:5001/api/v0/key/list");
    assert_eq!(key_gen_url(&host, &s("demo")), "http://127.0.0.1:5001/api/v0/key/gen?arg=demo&type=ed25519");
    assert_eq!(
        publish_url(&host, &s("demo"), &s("QmHello")),
        "http://127.0.0.1:5001/api/v0/name/publish?key=demo&arg=/ipfs/QmHello"
    );
    assert_eq!(node_deploy_url(&s("10.0.0.1"), 9000), "http://10.0.0.1:9000/api/deploy");
}

#[test]
fn redis_url_and_client() {
    let r = RedisSettings { host: s("cache"), port: 6379, user: s("default"), password: s("pw") };
    assert_eq!(r.url(), "redis://default:pw@cache:6379");
    assert!(r.create_client().is_ok());
}

fn database(connection: &str) -> DatabaseConfig {
    DatabaseConfig {
        connection: s(connection),
        host: s("db"),
        port: 5432,
        username: s("kc"),
        password: s("pw"),
        database_name: s("keystone"),
        pool_size: 5,
    }
}

#[test]
fn postgres_pool_url() {
    assert_eq!(database("postgres").pool_url().ok().unwrap(), "postgres://kc:pw@db:5432/keystone");
}

#[test]
fn other_database_is_refused() {
    let e = database("mysql").pool_url().err().unwrap();
    assert_eq!(e.message, "Unsupported database connection type: mysql");
}

#[test]
fn listen_address_joins_host_and_port() {
    let c = ServerConfig { port: 8080, host: s("0.0.0.0"), peer_id: s("p"), ipfs_host: s("h"), jwt_secret: s("x") };
    assert_eq!(c.listen_address(), "0.0.0.0:8080");
}

#[test]
fn deployment_status_update_statement() {
    let p = UpdateDeploymentPayload { app_id: None, cid: None, status: Some(DeploymentStatus::PUBLISHING) };
    let cols = p.assignments();
    assert_eq!(cols.len(), 1);
    assert!(matches!(cols[0].column, Column::Status));
    assert!(matches!(cols[0].value, Bound::Deployment(DeploymentStatus::PUBLISHING)));
    assert_eq!(
        update_statement(Table::Deployments, &cols).unwrap(),
        "UPDATE deployments SET status = $1 WHERE id = $2 RETURNING *"
    );
}

#[test]
fn app_update_statement_lists_given_fields() {
    let p = UpdateAppPayload { team_id: None, name: Some(s("demo2")), key_name: None, ipns_name: Some(s("k51")) };
    let cols = p.assignments();
    assert_eq!(cols.len(), 2);
    match &cols[1].value {
        Bound::Text(v) => assert_eq!(v, "k51"),
        _ => panic!("text value expected"),
    }
    assert_eq!(
        update_statement(Table::Apps, &cols).unwrap(),
        "UPDATE apps SET name = $1, ipns_name = $2 WHERE id = $3 RETURNING *"
    );
}

#[test]
fn pin_update_statement() {
    let p = UpdateDeploymentNodePayload { deployment_id: Some(s("d1")), node_id: Some(s("n1")), status: Some(PinStatus::PINNED) };
    let cols = p.assignments();
    assert_eq!(
        update_statement(Table::DeploymentsNodes, &cols).unwrap(),
        "UPDATE deployments_nodes SET deployment_id = $1, node_id = $2, status = $3 WHERE id = $4 RETURNING *"
    );
}

#[test]
fn empty_update_has_no_statement() {
    let p = UpdateDeploymentPayload { app_id: None, cid: None, status: None };
    let cols = p.assignments();
    assert!(cols.is_empty());
    assert!(update_statement(Table::Deployments, &cols).is_none());
}

#[test]
fn name_service_resolution_addresses() {
    let host = s("http://127.0.0.1:5001");
    assert_eq!(resolve_url(&host, &s("k51demo")), "http://127.0.0.1:5001/api/v0/name/resolve?arg=k51demo");
    assert_eq!(cat_url(&host, &s("QmHello")), "http://127.0.0.1:5001/api/v0/cat?arg=QmHello");
}

#[test]
fn content_path_yields_cid() {
    assert_eq!(cid_from_path(&s("/ipfs/QmHello")), Some(s("QmHello")));
    assert_eq!(cid_from_path(&s("/ipfs/")), Some(s("")));
    assert_eq!(cid_from_path(&s("/ipns/k51demo")), None);
    assert_eq!(cid_from_path(&s("/ipf")), None);
    assert_eq!(cid_from_path(&s("")), None);
}
