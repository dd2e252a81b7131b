//! Partial updates as explicit descriptors: the columns a payload sets, in a fixed
//! order, and the parameterised `UPDATE` statement that applies them.

use vstd::prelude::*;
use vstd::string::*;
use crate::records::{UpdateAppPayload, UpdateDeploymentNodePayload, UpdateDeploymentPayload};
use crate::status::{DeploymentStatus, PinStatus};
use crate::text::{decimal, decimal_text};

verus! {

#[derive(Clone, Copy, Debug, PartialEq, Eq, Structural)]
/// The tables the orchestrator updates.
pub enum Table {
    Apps,
    Deployments,
    DeploymentsNodes,
}

#[derive(Clone, Copy, Debug, PartialEq, Eq, Structural)]
/// The columns a partial update can set.
pub enum Column {
    TeamId,
    Name,
    KeyName,
    IpnsName,
    AppId,
    Cid,
    Status,
    DeploymentId,
    NodeId,
}

/// A value to bind to a statement parameter.
pub enum Bound {
    Text(String),
    Deployment(DeploymentStatus),
    Pin(PinStatus),
}

/// One `column = value` of an update.
pub struct Assignment {
    pub column: Column,
    pub value: Bound,
}

pub open spec fn table_name(t: Table) -> Seq<char> {
    match t {
        Table::Apps => "apps"@,
        Table::Deployments => "deployments"@,
        Table::DeploymentsNodes => "deployments_nodes"@,
    }
}

pub open spec fn column_name(c: Column) -> Seq<char> {
    match c {
        Column::TeamId => "team_id"@,
        Column::Name => "name"@,
        Column::KeyName => "key_name"@,
        Column::IpnsName => "ipns_name"@,
        Column::AppId => "app_id"@,
        Column::Cid => "cid"@,
        Column::Status => "status"@,
        Column::DeploymentId => "deployment_id"@,
        Column::NodeId => "node_id"@,
    }
}

impl Table {
    /// The table's name in the database.
    pub fn name(&self) -> (r: &'static str)
        ensures
            r@ == table_name(*self),
    {
        match self {
            Table::Apps => "apps",
            Table::Deployments => "deployments",
            Table::DeploymentsNodes => "deployments_nodes",
        }
    }
}

impl Column {
    /// The column's name in the database.
    pub fn name(&self) -> (r: &'static str)
        ensures
            r@ == column_name(*self),
    {
        match self {
            Column::TeamId => "team_id",
            Column::Name => "name",
            Column::KeyName => "key_name",
            Column::IpnsName => "ipns_name",
            Column::AppId => "app_id",
            Column::Cid => "cid",
            Column::Status => "status",
            Column::DeploymentId => "deployment_id",
            Column::NodeId => "node_id",
        }
    }
}

/// `c = $n` for the `n`-th parameter.
pub open spec fn assignment_text(c: Column, n: nat) -> Seq<char> {
    column_name(c) + " = $"@ + decimal(n)
}

/// The assignments of an `UPDATE`, separated by commas, numbered from `$1`.
pub open spec fn set_list(cols: Seq<Assignment>) -> Seq<char>
    decreases cols.len(),
{
    if cols.len() == 0 {
        Seq::<char>::empty()
    } else if cols.len() == 1 {
        assignment_text(cols[0].column, 1)
    } else {
        set_list(cols.drop_last()) + ", "@ + assignment_text(cols.last().column, cols.len())
    }
}

/// The statement that applies `cols` to the row whose `id` is the last parameter and
/// returns the updated row.
pub open spec fn update_text(t: Table, cols: Seq<Assignment>) -> Seq<char> {
    "UPDATE "@ + table_name(t) + " SET "@ + set_list(cols) + " WHERE id = $"@ + decimal(cols.len() + 1) + " RETURNING *"@
}

/// The parameterised statement of a partial update; `None` when the update sets no
/// column, as there is nothing to write.
pub fn update_statement(t: Table, cols: &Vec<Assignment>) -> (r: Option<String>)
    requires
        cols@.len() < u64::MAX,
    ensures
        cols@.len() == 0 ==> r is None,
        cols@.len() > 0 ==> r is Some && r->Some_0@ == update_text(t, cols@),
{
    if cols.len() == 0 {
        return None;
    }
    let mut list = String::new();
    let mut i: usize = 0;
    while i < cols.len()
        invariant
            i <= cols@.len(),
            cols@.len() < u64::MAX,
            list@ == set_list(cols@.subrange(0, i as int)),
        decreases cols@.len() - i,
    {
        let ghost pre = cols@.subrange(0, i as int);
        let ghost post = cols@.subrange(0, i as int + 1);
        assert(post.drop_last() =~= pre);
        assert(post.last() == cols@[i as int]);
        if i > 0 {
            list.append(", ");
        } else {
            assert(post[0] == cols@[0]);
        }
        list.append(cols[i].column.name());
        list.append(" = $");
        let n = decimal_text(i as u64 + 1);
        list.append(n.as_str());
        i = i + 1;
    }
    assert(cols@.subrange(0, cols@.len() as int) =~= cols@);
    let mut s = String::from_str("UPDATE ");
    s.append(t.name());
    s.append(" SET ");
    s.append(list.as_str());
    s.append(" WHERE id = $");
    let n = decimal_text(cols.len() as u64 + 1);
    s.append(n.as_str());
    s.append(" RETURNING *");
    Some(s)
}

/// The assignment of a text column, when a value is given.
pub open spec fn text_set(c: Column, v: Option<String>) -> Seq<Assignment> {
    match v {
        Some(s) => seq![Assignment { column: c, value: Bound::Text(s) }],
        None => Seq::<Assignment>::empty(),
    }
}

/// Appends the assignment of a text column, when a value is given.
fn push_text(out: &mut Vec<Assignment>, c: Column, v: &Option<String>)
    ensures
        final(out)@ == old(out)@ + text_set(c, *v),
{
    if let Some(s) = v {
        out.push(Assignment { column: c, value: Bound::Text(s.clone()) });
        assert(final(out)@ =~= old(out)@ + text_set(c, *v));
    } else {
        assert(old(out)@ + text_set(c, *v) =~= old(out)@);
    }
}

/// The columns an application update sets, in field order.
pub open spec fn app_assignments(p: UpdateAppPayload) -> Seq<Assignment> {
    text_set(Column::TeamId, p.team_id) + text_set(Column::Name, p.name) + text_set(Column::KeyName, p.key_name)
        + text_set(Column::IpnsName, p.ipns_name)
}

/// The columns a deployment update sets, in field order.
pub open spec fn deployment_assignments(p: UpdateDeploymentPayload) -> Seq<Assignment> {
    text_set(Column::AppId, p.app_id) + text_set(Column::Cid, p.cid) + match p.status {
        Some(s) => seq![Assignment { column: Column::Status, value: Bound::Deployment(s) }],
        None => Seq::<Assignment>::empty(),
    }
}

/// The columns a deployment-node update sets, in field order.
pub open spec fn pin_assignments(p: UpdateDeploymentNodePayload) -> Seq<Assignment> {
    text_set(Column::DeploymentId, p.deployment_id) + text_set(Column::NodeId, p.node_id) + match p.status {
        Some(s) => seq![Assignment { column: Column::Status, value: Bound::Pin(s) }],
        None => Seq::<Assignment>::empty(),
    }
}

impl UpdateAppPayload {
    /// The columns this update sets, in field order.
    pub fn assignments(&self) -> (r: Vec<Assignment>)
        ensures
            r@ == app_assignments(*self),
    {
        let mut out: Vec<Assignment> = Vec::new();
        push_text(&mut out, Column::TeamId, &self.team_id);
        push_text(&mut out, Column::Name, &self.name);
        push_text(&mut out, Column::KeyName, &self.key_name);
        push_text(&mut out, Column::IpnsName, &self.ipns_name);
        assert(out@ =~= app_assignments(*self));
        out
    }
}

impl UpdateDeploymentPayload {
    /// The columns this update sets, in field order.
    pub fn assignments(&self) -> (r: Vec<Assignment>)
        ensures
            r@ == deployment_assignments(*self),
    {
        let mut out: Vec<Assignment> = Vec::new();
        push_text(&mut out, Column::AppId, &self.app_id);
        push_text(&mut out, Column::Cid, &self.cid);
        if let Some(s) = self.status {
            out.push(Assignment { column: Column::Status, value: Bound::Deployment(s) });
        }
        assert(out@ =~= deployment_assignments(*self));
        out
    }
}

impl UpdateDeploymentNodePayload {
    /// The columns this update sets, in field order.
    pub fn assignments(&self) -> (r: Vec<Assignment>)
        ensures
            r@ == pin_assignments(*self),
    {
        let mut out: Vec<Assignment> = Vec::new();
        push_text(&mut out, Column::DeploymentId, &self.deployment_id);
        push_text(&mut out, Column::NodeId, &self.node_id);
        if let Some(s) = self.status {
            out.push(Assignment { column: Column::Status, value: Bound::Pin(s) });
        }
        assert(out@ =~= pin_assignments(*self));
        out
    }
}

} // verus!
