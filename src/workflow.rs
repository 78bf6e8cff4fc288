use vstd::prelude::*;
use vstd::string::*;
use crate::error::{DsqlError, ErrorKind};

verus! {

/// The repository that tags every cluster these workflows create.
pub const REPO_TAG: &'static str = "aws-samples/aurora-dsql-samples";

/// A request to create a cluster.
#[derive(Debug)]
pub struct CreateClusterRequest {
    pub tags: Vec<(String, String)>,
    pub deletion_protection_enabled: bool,
    pub witness_region: Option<String>,
    pub peer_arns: Vec<String>,
}

/// A request to change a cluster's settings; `None` leaves a setting alone.
#[derive(Debug)]
pub struct UpdateClusterRequest {
    pub identifier: String,
    pub deletion_protection_enabled: Option<bool>,
    pub witness_region: Option<String>,
    pub peer_arns: Vec<String>,
}

/// A cluster as the control plane identifies it.
#[derive(Debug)]
pub struct ClusterRef {
    pub identifier: String,
    pub arn: String,
}

/// The tags `Name = name` and `Repo = aws-samples/aurora-dsql-samples`.
pub open spec fn tags_spec(tags: Seq<(String, String)>, name: Seq<char>) -> bool {
    &&& tags.len() == 2
    &&& tags[0].0@ == "Name"@
    &&& tags[0].1@ == name
    &&& tags[1].0@ == "Repo"@
    &&& tags[1].1@ == "aws-samples/aurora-dsql-samples"@
}

pub fn cluster_tags(name: &str) -> (r: Vec<(String, String)>)
    ensures
        tags_spec(r@, name@),
{
    let mut tags: Vec<(String, String)> = Vec::new();
    tags.push((String::from_str("Name"), name.to_owned()));
    tags.push((String::from_str("Repo"), REPO_TAG.to_owned()));
    tags
}

/// A one-region cluster, protected from deletion.
pub fn single_region_create_request() -> (r: CreateClusterRequest)
    ensures
        tags_spec(r.tags@, "rust single region cluster"@),
        r.deletion_protection_enabled,
        r.witness_region is None,
        r.peer_arns@.len() == 0,
{
    CreateClusterRequest {
        tags: cluster_tags("rust single region cluster"),
        deletion_protection_enabled: true,
        witness_region: None,
        peer_arns: Vec::new(),
    }
}

/// Turns deletion protection off and changes nothing else.
pub fn disable_deletion_protection(identifier: &str) -> (r: UpdateClusterRequest)
    ensures
        r.identifier@ == identifier@,
        r.deletion_protection_enabled == Some(false),
        r.witness_region is None,
        r.peer_arns@.len() == 0,
{
    UpdateClusterRequest {
        identifier: identifier.to_owned(),
        deletion_protection_enabled: Some(false),
        witness_region: None,
        peer_arns: Vec::new(),
    }
}

/// A peered cluster, protected from deletion, with the given witness region
/// and, if given, one peer.
pub fn multi_region_create_request(witness_region: &str, peer_arn: Option<&str>) -> (r:
    CreateClusterRequest)
    ensures
        tags_spec(r.tags@, "rust multi region cluster"@),
        r.deletion_protection_enabled,
        r.witness_region matches Some(w) && w@ == witness_region@,
        peer_arn is None ==> r.peer_arns@.len() == 0,
        peer_arn matches Some(p) ==> r.peer_arns@.len() == 1 && r.peer_arns@[0]@ == p@,
{
    let mut peer_arns: Vec<String> = Vec::new();
    match peer_arn {
        Some(p) => peer_arns.push(p.to_owned()),
        None => {},
    }
    CreateClusterRequest {
        tags: cluster_tags("rust multi region cluster"),
        deletion_protection_enabled: true,
        witness_region: Some(witness_region.to_owned()),
        peer_arns,
    }
}

/// Where a peered setup of two clusters stands.
#[derive(Debug, Clone, Copy, PartialEq, Eq, Structural)]
pub enum SetupStep {
    CreateFirst,
    CreateSecond,
    LinkFirst,
    AwaitFirst,
    AwaitSecond,
    Complete,
}

/// What the control plane answered to the last action.
#[derive(Debug)]
pub enum SetupEvent {
    Created(ClusterRef),
    Linked,
    BecameActive,
}

/// The next call to make on the control plane.
#[derive(Debug)]
pub enum SetupAction {
    /// Create a cluster in the first region (`on_second` false) or the second.
    Create { on_second: bool, request: CreateClusterRequest },
    /// Make the second cluster a peer of the first.
    Link(UpdateClusterRequest),
    /// Wait until the cluster with this identifier is active.
    AwaitActive { on_second: bool, identifier: String },
    Finished,
}

/// Two clusters in two regions that share a witness region and peer with
/// each other. Only the first can be created without a peer; once the
/// second exists with the first as its peer, the first is linked back, and
/// only then can both become active.
#[derive(Debug)]
pub struct MultiRegionSetup {
    pub witness_region: String,
    pub step: SetupStep,
    pub first: Option<ClusterRef>,
    pub second: Option<ClusterRef>,
    /// The first cluster lists the second as its peer.
    pub first_linked: bool,
    /// The second cluster lists the first as its peer.
    pub second_linked: bool,
    pub first_active: bool,
    pub second_active: bool,
}

impl MultiRegionSetup {
    pub open spec fn wf(self) -> bool {
        match self.step {
            SetupStep::CreateFirst => self.first is None && self.second is None
                && !self.first_linked && !self.second_linked
                && !self.first_active && !self.second_active,
            SetupStep::CreateSecond => self.first is Some && self.second is None
                && !self.first_linked && !self.second_linked
                && !self.first_active && !self.second_active,
            SetupStep::LinkFirst => self.first is Some && self.second is Some
                && !self.first_linked && self.second_linked
                && !self.first_active && !self.second_active,
            SetupStep::AwaitFirst => self.first is Some && self.second is Some
                && self.first_linked && self.second_linked
                && !self.first_active && !self.second_active,
            SetupStep::AwaitSecond => self.first is Some && self.second is Some
                && self.first_linked && self.second_linked
                && self.first_active && !self.second_active,
            SetupStep::Complete => self.first is Some && self.second is Some
                && self.first_linked && self.second_linked
                && self.first_active && self.second_active,
        }
    }

    /// The setup after `event`, or `None` when the event does not answer
    /// the action that the current step asks for.
    pub open spec fn transition(self, event: SetupEvent) -> Option<MultiRegionSetup> {
        match (self.step, event) {
            (SetupStep::CreateFirst, SetupEvent::Created(c)) => Some(
                MultiRegionSetup { step: SetupStep::CreateSecond, first: Some(c), ..self },
            ),
            (SetupStep::CreateSecond, SetupEvent::Created(c)) => Some(
                MultiRegionSetup {
                    step: SetupStep::LinkFirst,
                    second: Some(c),
                    second_linked: true,
                    ..self
                },
            ),
            (SetupStep::LinkFirst, SetupEvent::Linked) => Some(
                MultiRegionSetup { step: SetupStep::AwaitFirst, first_linked: true, ..self },
            ),
            (SetupStep::AwaitFirst, SetupEvent::BecameActive) => Some(
                MultiRegionSetup { step: SetupStep::AwaitSecond, first_active: true, ..self },
            ),
            (SetupStep::AwaitSecond, SetupEvent::BecameActive) => Some(
                MultiRegionSetup { step: SetupStep::Complete, second_active: true, ..self },
            ),
            _ => None,
        }
    }

    /// `a` is the call that the current step asks for.
    pub open spec fn action_fits(self, a: SetupAction) -> bool {
        match self.step {
            SetupStep::CreateFirst => a matches SetupAction::Create { on_second, request } && {
                &&& !on_second
                &&& tags_spec(request.tags@, "rust multi region cluster"@)
                &&& request.deletion_protection_enabled
                &&& request.witness_region matches Some(w) && w@ == self.witness_region@
                &&& request.peer_arns@.len() == 0
            },
            SetupStep::CreateSecond => a matches SetupAction::Create { on_second, request } && {
                &&& on_second
                &&& tags_spec(request.tags@, "rust multi region cluster"@)
                &&& request.deletion_protection_enabled
                &&& request.witness_region matches Some(w) && w@ == self.witness_region@
                &&& request.peer_arns@.len() == 1
                &&& request.peer_arns@[0]@ == self.first->Some_0.arn@
            },
            SetupStep::LinkFirst => a matches SetupAction::Link(u) && {
                &&& u.identifier@ == self.first->Some_0.identifier@
                &&& u.deletion_protection_enabled is None
                &&& u.witness_region matches Some(w) && w@ == self.witness_region@
                &&& u.peer_arns@.len() == 1
                &&& u.peer_arns@[0]@ == self.second->Some_0.arn@
            },
            SetupStep::AwaitFirst => a matches SetupAction::AwaitActive { on_second, identifier }
                && !on_second && identifier@ == self.first->Some_0.identifier@,
            SetupStep::AwaitSecond => a matches SetupAction::AwaitActive { on_second, identifier }
                && on_second && identifier@ == self.second->Some_0.identifier@,
            SetupStep::Complete => a is Finished,
        }
    }

    /// The call that the current step asks for.
    pub fn next_action(&self) -> (r: SetupAction)
        requires
            self.wf(),
        ensures
            self.action_fits(r),
    {
        match self.step {
            SetupStep::CreateFirst => SetupAction::Create {
                on_second: false,
                request: multi_region_create_request(self.witness_region.as_str(), None),
            },
            SetupStep::CreateSecond => {
                let first = self.first.as_ref().unwrap();
                SetupAction::Create {
                    on_second: true,
                    request: multi_region_create_request(
                        self.witness_region.as_str(),
                        Some(first.arn.as_str()),
                    ),
                }
            },
            SetupStep::LinkFirst => {
                let first = self.first.as_ref().unwrap();
                let second = self.second.as_ref().unwrap();
                let mut peer_arns: Vec<String> = Vec::new();
                peer_arns.push(second.arn.clone());
                SetupAction::Link(UpdateClusterRequest {
                    identifier: first.identifier.clone(),
                    deletion_protection_enabled: None,
                    witness_region: Some(self.witness_region.clone()),
                    peer_arns,
                })
            },
            SetupStep::AwaitFirst => SetupAction::AwaitActive {
                on_second: false,
                identifier: self.first.as_ref().unwrap().identifier.clone(),
            },
            SetupStep::AwaitSecond => SetupAction::AwaitActive {
                on_second: true,
                identifier: self.second.as_ref().unwrap().identifier.clone(),
            },
            SetupStep::Complete => SetupAction::Finished,
        }
    }

    pub fn new(witness_region: String) -> (r: MultiRegionSetup)
        ensures
            r.wf(),
            r.step == SetupStep::CreateFirst,
            r.witness_region == witness_region,
    {
        MultiRegionSetup {
            witness_region,
            step: SetupStep::CreateFirst,
            first: None,
            second: None,
            first_linked: false,
            second_linked: false,
            first_active: false,
            second_active: false,
        }
    }

    /// Applies `event`; a control-plane error, with nothing changed, when it
    /// does not answer the current step.
    pub fn on_event(&mut self, event: SetupEvent) -> (r: Result<(), DsqlError>)
        requires
            old(self).wf(),
        ensures
            final(self).wf(),
            r is Ok <==> old(self).transition(event) is Some,
            r is Ok ==> *final(self) == old(self).transition(event)->Some_0,
            r matches Err(e) ==> e.kind == ErrorKind::ControlPlane && *final(self) == *old(self),
    {
        match (self.step, event) {
            (SetupStep::CreateFirst, SetupEvent::Created(c)) => {
                self.first = Some(c);
                self.step = SetupStep::CreateSecond;
                Ok(())
            },
            (SetupStep::CreateSecond, SetupEvent::Created(c)) => {
                self.second = Some(c);
                self.second_linked = true;
                self.step = SetupStep::LinkFirst;
                Ok(())
            },
            (SetupStep::LinkFirst, SetupEvent::Linked) => {
                self.first_linked = true;
                self.step = SetupStep::AwaitFirst;
                Ok(())
            },
            (SetupStep::AwaitFirst, SetupEvent::BecameActive) => {
                self.first_active = true;
                self.step = SetupStep::AwaitSecond;
                Ok(())
            },
            (SetupStep::AwaitSecond, SetupEvent::BecameActive) => {
                self.second_active = true;
                self.step = SetupStep::Complete;
                Ok(())
            },
            _ => Err(DsqlError::new(ErrorKind::ControlPlane, "unexpected answer from the control plane")),
        }
    }
}

/// In every reachable state a cluster of the pair is active only when both
/// peer links are set, and no event makes a cluster active before that.
pub proof fn lemma_active_only_after_links(s: MultiRegionSetup, event: SetupEvent)
    requires
        s.wf(),
    ensures
        (s.first_active || s.second_active) ==> s.first_linked && s.second_linked,
        s.transition(event) matches Some(t) ==> {
            &&& t.wf()
            &&& ((t.first_active && !s.first_active) || (t.second_active && !s.second_active))
                ==> s.first_linked && s.second_linked
        },
{
}

} // verus!
