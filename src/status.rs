//! The two lifecycles that the orchestrator drives: a deployment's status and the
//! pin status of each (deployment, node) pair.

use vstd::prelude::*;

verus! {

/// Status of a deployment: PENDING, then PUBLISHING, then DEPLOYED or FAILED.
#[derive(Clone, Copy, Debug, PartialEq, Eq, Structural)]
pub enum DeploymentStatus {
    PENDING,
    PUBLISHING,
    DEPLOYED,
    FAILED,
}

/// Pin status of one node for one deployment: PINNING, then PINNED or FAILED.
#[derive(Clone, Copy, Debug, PartialEq, Eq, Structural)]
pub enum PinStatus {
    PINNING,
    PINNED,
    FAILED,
}

impl DeploymentStatus {
    /// Position in the lifecycle; the two terminal states share the last one.
    pub open spec fn stage(self) -> nat {
        match self {
            DeploymentStatus::PENDING => 0,
            DeploymentStatus::PUBLISHING => 1,
            DeploymentStatus::DEPLOYED => 2,
            DeploymentStatus::FAILED => 2,
        }
    }

    pub open spec fn terminal(self) -> bool {
        self.stage() == 2
    }

    /// The transitions of the lifecycle.
    pub open spec fn allows(self, next: DeploymentStatus) -> bool {
        ||| self == DeploymentStatus::PENDING && next == DeploymentStatus::PUBLISHING
        ||| self == DeploymentStatus::PUBLISHING && next.terminal()
    }

    /// DEPLOYED or FAILED.
    pub fn is_terminal(self) -> (r: bool)
        ensures
            r == self.terminal(),
    {
        match self {
            DeploymentStatus::DEPLOYED | DeploymentStatus::FAILED => true,
            _ => false,
        }
    }

    /// Whether the lifecycle allows a move to `next`.
    pub fn can_become(self, next: DeploymentStatus) -> (r: bool)
        ensures
            r == self.allows(next),
    {
        match (self, next) {
            (DeploymentStatus::PENDING, DeploymentStatus::PUBLISHING) => true,
            (DeploymentStatus::PUBLISHING, DeploymentStatus::DEPLOYED) => true,
            (DeploymentStatus::PUBLISHING, DeploymentStatus::FAILED) => true,
            _ => false,
        }
    }
}

impl PinStatus {
    pub open spec fn terminal(self) -> bool {
        self != PinStatus::PINNING
    }

    /// A pin status changes once, from PINNING to a terminal state.
    pub open spec fn allows(self, next: PinStatus) -> bool {
        self == PinStatus::PINNING && next.terminal()
    }

    /// PINNED or FAILED.
    pub fn is_terminal(self) -> (r: bool)
        ensures
            r == self.terminal(),
    {
        match self {
            PinStatus::PINNING => false,
            _ => true,
        }
    }

    /// Whether the pin lifecycle allows a move to `next`.
    pub fn can_become(self, next: PinStatus) -> (r: bool)
        ensures
            r == self.allows(next),
    {
        match (self, next) {
            (PinStatus::PINNING, PinStatus::PINNED) => true,
            (PinStatus::PINNING, PinStatus::FAILED) => true,
            _ => false,
        }
    }
}

/// The pin status that a node's answer to the deploy call settles on: PINNED for a
/// success (2xx) response, FAILED for any other status or a transport failure.
pub open spec fn pin_outcome(response: Option<u16>) -> PinStatus {
    match response {
        Some(code) => if is_success(code) { PinStatus::PINNED } else { PinStatus::FAILED },
        None => PinStatus::FAILED,
    }
}

/// A success status code: 200 to 299.
pub open spec fn is_success(code: u16) -> bool {
    200 <= code <= 299
}

/// Whether an HTTP status code reports success.
pub fn success_status(code: u16) -> (r: bool)
    ensures
        r == is_success(code),
{
    200 <= code && code <= 299
}

/// Settles the pin status from a node's answer: `Some(code)` when the node answered
/// with that HTTP status, `None` when the call failed or timed out.
pub fn settle_pin(response: Option<u16>) -> (r: PinStatus)
    ensures
        r == pin_outcome(response),
        r.terminal(),
{
    match response {
        Some(code) => if success_status(code) { PinStatus::PINNED } else { PinStatus::FAILED },
        None => PinStatus::FAILED,
    }
}

/// The terminal status that the outcome of name publication settles a deployment on.
pub open spec fn publication_outcome(published: bool) -> DeploymentStatus {
    if published { DeploymentStatus::DEPLOYED } else { DeploymentStatus::FAILED }
}

/// The terminal status of a deployment once name publication has ended.
pub fn settle_publication(published: bool) -> (r: DeploymentStatus)
    ensures
        r == publication_outcome(published),
        r.terminal(),
        DeploymentStatus::PUBLISHING.allows(r),
{
    if published { DeploymentStatus::DEPLOYED } else { DeploymentStatus::FAILED }
}

} // verus!
