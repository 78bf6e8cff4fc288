use vstd::prelude::*;
use vstd::string::*;

verus! {

/// The lifecycle states that the control plane reports for a cluster.
#[derive(Debug, Clone, Copy, PartialEq, Eq, Structural)]
pub enum ClusterStatus {
    Active,
    Creating,
    Deleted,
    Deleting,
    Failed,
    Idle,
    Inactive,
    PendingDelete,
    PendingSetup,
    Updating,
}

/// The status that the control plane names `name`, if any.
pub open spec fn status_named(name: Seq<char>) -> Option<ClusterStatus> {
    if name == "ACTIVE"@ {
        Some(ClusterStatus::Active)
    } else if name == "CREATING"@ {
        Some(ClusterStatus::Creating)
    } else if name == "DELETED"@ {
        Some(ClusterStatus::Deleted)
    } else if name == "DELETING"@ {
        Some(ClusterStatus::Deleting)
    } else if name == "FAILED"@ {
        Some(ClusterStatus::Failed)
    } else if name == "IDLE"@ {
        Some(ClusterStatus::Idle)
    } else if name == "INACTIVE"@ {
        Some(ClusterStatus::Inactive)
    } else if name == "PENDING_DELETE"@ {
        Some(ClusterStatus::PendingDelete)
    } else if name == "PENDING_SETUP"@ {
        Some(ClusterStatus::PendingSetup)
    } else if name == "UPDATING"@ {
        Some(ClusterStatus::Updating)
    } else {
        None
    }
}

impl ClusterStatus {
    pub open spec fn name_spec(self) -> Seq<char> {
        match self {
            ClusterStatus::Active => "ACTIVE"@,
            ClusterStatus::Creating => "CREATING"@,
            ClusterStatus::Deleted => "DELETED"@,
            ClusterStatus::Deleting => "DELETING"@,
            ClusterStatus::Failed => "FAILED"@,
            ClusterStatus::Idle => "IDLE"@,
            ClusterStatus::Inactive => "INACTIVE"@,
            ClusterStatus::PendingDelete => "PENDING_DELETE"@,
            ClusterStatus::PendingSetup => "PENDING_SETUP"@,
            ClusterStatus::Updating => "UPDATING"@,
        }
    }

    /// The control plane's name of this status.
    pub fn name(&self) -> (r: String)
        ensures
            r@ == self.name_spec(),
    {
        match self {
            ClusterStatus::Active => String::from_str("ACTIVE"),
            ClusterStatus::Creating => String::from_str("CREATING"),
            ClusterStatus::Deleted => String::from_str("DELETED"),
            ClusterStatus::Deleting => String::from_str("DELETING"),
            ClusterStatus::Failed => String::from_str("FAILED"),
            ClusterStatus::Idle => String::from_str("IDLE"),
            ClusterStatus::Inactive => String::from_str("INACTIVE"),
            ClusterStatus::PendingDelete => String::from_str("PENDING_DELETE"),
            ClusterStatus::PendingSetup => String::from_str("PENDING_SETUP"),
            ClusterStatus::Updating => String::from_str("UPDATING"),
        }
    }

    /// The status named `name`, or `None` for a name the control plane does
    /// not use.
    pub fn from_name(name: &str) -> (r: Option<ClusterStatus>)
        ensures
            r == status_named(name@),
    {
        let n = name.to_owned();
        if n == "ACTIVE".to_owned() {
            Some(ClusterStatus::Active)
        } else if n == "CREATING".to_owned() {
            Some(ClusterStatus::Creating)
        } else if n == "DELETED".to_owned() {
            Some(ClusterStatus::Deleted)
        } else if n == "DELETING".to_owned() {
            Some(ClusterStatus::Deleting)
        } else if n == "FAILED".to_owned() {
            Some(ClusterStatus::Failed)
        } else if n == "IDLE".to_owned() {
            Some(ClusterStatus::Idle)
        } else if n == "INACTIVE".to_owned() {
            Some(ClusterStatus::Inactive)
        } else if n == "PENDING_DELETE".to_owned() {
            Some(ClusterStatus::PendingDelete)
        } else if n == "PENDING_SETUP".to_owned() {
            Some(ClusterStatus::PendingSetup)
        } else if n == "UPDATING".to_owned() {
            Some(ClusterStatus::Updating)
        } else {
            None
        }
    }
}

/// Naming a status and reading the name back gives the same status.
pub proof fn lemma_status_name_round_trip(s: ClusterStatus)
    ensures
        status_named(s.name_spec()) == Some(s),
{
    reveal_strlit("ACTIVE");
    reveal_strlit("CREATING");
    reveal_strlit("DELETED");
    reveal_strlit("DELETING");
    reveal_strlit("FAILED");
    reveal_strlit("IDLE");
    reveal_strlit("INACTIVE");
    reveal_strlit("PENDING_DELETE");
    reveal_strlit("PENDING_SETUP");
    reveal_strlit("UPDATING");
    let names = seq!["ACTIVE"@, "CREATING"@, "DELETED"@, "DELETING"@, "FAILED"@, "IDLE"@,
        "INACTIVE"@, "PENDING_DELETE"@, "PENDING_SETUP"@, "UPDATING"@];
    assert forall|i: int, j: int| 0 <= i < j < 10 implies names[i] != names[j] by {
        assert(names[i].len() != names[j].len() || names[i][0] != names[j][0]);
    }
    assert(names[0] == "ACTIVE"@ && names[1] == "CREATING"@ && names[2] == "DELETED"@);
    assert(names[3] == "DELETING"@ && names[4] == "FAILED"@ && names[5] == "IDLE"@);
    assert(names[6] == "INACTIVE"@ && names[7] == "PENDING_DELETE"@);
    assert(names[8] == "PENDING_SETUP"@ && names[9] == "UPDATING"@);
}

} // verus!
