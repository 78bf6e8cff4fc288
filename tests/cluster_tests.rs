use dsql_examples::cluster::ClusterStatus;
use dsql_examples::error::ErrorKind;
use dsql_examples::waiter::{
    wait_error, Observation, WaitDecision, WaitTarget, Waiter, WAIT_TIMEOUT_SECS,
};
use dsql_examples::workflow::{
    cluster_tags, disable_deletion_protection, multi_region_create_request,
    single_region_create_request, ClusterRef, MultiRegionSetup, SetupAction, SetupEvent, SetupStep,
};

const ALL: [ClusterStatus; 10] = [
    ClusterStatus::Active,
    ClusterStatus::Creating,
    ClusterStatus::Deleted,
    ClusterStatus::Deleting,
    ClusterStatus::Failed,
    ClusterStatus::Idle,
    ClusterStatus::Inactive,
    ClusterStatus::PendingDelete,
    ClusterStatus::PendingSetup,
    ClusterStatus::Updating,
];

#[test]
fn status_names_round_trip() {
    for s in ALL {
        assert_eq!(ClusterStatus::from_name(&s.name()), Some(s));
    }
    assert_eq!(ClusterStatus::Active.name(), "ACTIVE");
    assert_eq!(ClusterStatus::PendingDelete.name(), "PENDING_DELETE");
    assert_eq!(ClusterStatus::from_name("UPDATING"), Some(ClusterStatus::Updating));
    assert_eq!(ClusterStatus::from_name("active"), None);
    assert_eq!(ClusterStatus::from_name(""), None);
}

#[test]
fn waiter_backs_off_until_active() {
    let mut w = Waiter::start(WaitTarget::Active, 0, WAIT_TIMEOUT_SECS);
    assert_eq!(w.deadline, 300);
    let creating = Observation::Status(ClusterStatus::Creating);
    assert_eq!(w.observe(creating, 0), WaitDecision::PollAfter(2));
    assert_eq!(w.observe(creating, 2), WaitDecision::PollAfter(4));
    assert_eq!(w.observe(creating, 6), WaitDecision::PollAfter(8));
    assert_eq!(w.observe(Observation::Status(ClusterStatus::Active), 14), WaitDecision::Reached);
}

#[test]
fn waiter_pause_caps_and_stops_at_deadline() {
    let mut w = Waiter::start(WaitTarget::Active, 0, 300);
    let creating = Observation::Status(ClusterStatus::Creating);
    let mut now: u64 = 0;
    let mut pauses = Vec::new();
    loop {
        match w.observe(creating, now) {
            WaitDecision::PollAfter(d) => {
                assert!(d > 0 && d <= 120 && now + d <= 300);
                pauses.push(d);
                now += d;
            }
            WaitDecision::TimedOut => break,
            other => panic!("unexpected {:?}", other),
        }
    }
    assert_eq!(now, 300);
    assert_eq!(pauses, vec![2, 4, 8, 16, 32, 64, 120, 54]);
    let e = wait_error(WaitDecision::TimedOut).unwrap();
    assert_eq!(e.kind, ErrorKind::ControlPlane);
}

#[test]
fn waiter_failures() {
    let mut w = Waiter::start(WaitTarget::Active, 0, 300);
    assert_eq!(w.observe(Observation::NotFound, 1), WaitDecision::Failed);
    assert_eq!(w.observe(Observation::Error, 1), WaitDecision::Failed);
    assert_eq!(w.observe(Observation::Unrecognized, 1), WaitDecision::PollAfter(2));
    let mut g = Waiter::start(WaitTarget::NotExists, 0, 300);
    assert_eq!(g.observe(Observation::Error, 1), WaitDecision::Failed);
    assert_eq!(wait_error(WaitDecision::Failed).unwrap().kind, ErrorKind::ControlPlane);
    assert!(wait_error(WaitDecision::Reached).is_none());
    assert!(wait_error(WaitDecision::PollAfter(2)).is_none());
}

#[test]
fn waiter_deadline_saturates() {
    let w = Waiter::start(WaitTarget::NotExists, u64::MAX - 10, 300);
    assert_eq!(w.deadline, u64::MAX);
}

#[test]
fn tags_and_requests() {
    let tags = cluster_tags("x");
    assert_eq!(tags, vec![
        ("Name".to_string(), "x".to_string()),
        ("Repo".to_string(), "aws-samples/aurora-dsql-samples".to_string()),
    ]);
    let c = single_region_create_request();
    assert_eq!(c.tags[0].1, "rust single region cluster");
    assert!(c.deletion_protection_enabled);
    assert!(c.witness_region.is_none());
    let m = multi_region_create_request("us-west-2", Some("arn:a"));
    assert_eq!(m.tags[0].1, "rust multi region cluster");
    assert_eq!(m.witness_region.as_deref(), Some("us-west-2"));
    assert_eq!(m.peer_arns, vec!["arn:a".to_string()]);
    let u = disable_deletion_protection("id-1");
    assert_eq!(u.identifier, "id-1");
    assert_eq!(u.deletion_protection_enabled, Some(false));
}

fn await_status(target: WaitTarget, observations: &[Observation]) -> WaitDecision {
    let mut w = Waiter::start(target, 0, WAIT_TIMEOUT_SECS);
    let mut now: u64 = 0;
    for obs in observations {
        match w.observe(*obs, now) {
            WaitDecision::PollAfter(d) => now += d,
            other => return other,
        }
    }
    WaitDecision::TimedOut
}

#[test]
fn single_region_lifecycle_scenario() {
    let create = single_region_create_request();
    assert!(create.deletion_protection_enabled);
    let created = await_status(
        WaitTarget::Active,
        &[
            Observation::Status(ClusterStatus::Creating),
            Observation::Status(ClusterStatus::Creating),
            Observation::Status(ClusterStatus::Active),
        ],
    );
    assert_eq!(created, WaitDecision::Reached);
    let update = disable_deletion_protection("cluster-1");
    assert_eq!(update.identifier, "cluster-1");
    assert_eq!(update.deletion_protection_enabled, Some(false));
    let update_response_status = ClusterStatus::from_name("UPDATING");
    assert_eq!(update_response_status, Some(ClusterStatus::Updating));
    let still_active = await_status(
        WaitTarget::Active,
        &[Observation::Status(ClusterStatus::Updating), Observation::Status(ClusterStatus::Active)],
    );
    assert_eq!(still_active, WaitDecision::Reached);
    let gone = await_status(
        WaitTarget::NotExists,
        &[Observation::Status(ClusterStatus::Deleting), Observation::NotFound],
    );
    assert_eq!(gone, WaitDecision::Reached);
}

fn cluster(id: &str) -> ClusterRef {
    ClusterRef { identifier: id.to_string(), arn: format!("arn:aws:dsql:{}", id) }
}

#[test]
fn multi_region_lifecycle_scenario() {
    let witness_region = "us-west-2";
    let mut setup = MultiRegionSetup::new(witness_region.to_string());

    match setup.next_action() {
        SetupAction::Create { on_second, request } => {
            assert!(!on_second);
            assert_eq!(request.witness_region.as_deref(), Some("us-west-2"));
            assert!(request.peer_arns.is_empty());
        }
        other => panic!("unexpected {:?}", other),
    }
    assert_eq!(setup.on_event(SetupEvent::BecameActive).unwrap_err().kind, ErrorKind::ControlPlane);
    setup.on_event(SetupEvent::Created(cluster("a"))).unwrap();

    match setup.next_action() {
        SetupAction::Create { on_second, request } => {
            assert!(on_second);
            assert_eq!(request.peer_arns, vec!["arn:aws:dsql:a".to_string()]);
        }
        other => panic!("unexpected {:?}", other),
    }
    setup.on_event(SetupEvent::Created(cluster("b"))).unwrap();
    assert!(setup.second_linked && !setup.first_linked);
    assert_eq!(setup.on_event(SetupEvent::BecameActive).unwrap_err().kind, ErrorKind::ControlPlane);
    assert!(!setup.first_active && !setup.second_active);

    match setup.next_action() {
        SetupAction::Link(u) => {
            assert_eq!(u.identifier, "a");
            assert_eq!(u.peer_arns, vec!["arn:aws:dsql:b".to_string()]);
            assert_eq!(u.witness_region.as_deref(), Some("us-west-2"));
        }
        other => panic!("unexpected {:?}", other),
    }
    setup.on_event(SetupEvent::Linked).unwrap();
    assert!(setup.first_linked && setup.second_linked);

    match setup.next_action() {
        SetupAction::AwaitActive { on_second, identifier } => {
            assert!(!on_second);
            assert_eq!(identifier, "a");
        }
        other => panic!("unexpected {:?}", other),
    }
    setup.on_event(SetupEvent::BecameActive).unwrap();
    match setup.next_action() {
        SetupAction::AwaitActive { on_second, identifier } => {
            assert!(on_second);
            assert_eq!(identifier, "b");
        }
        other => panic!("unexpected {:?}", other),
    }
    setup.on_event(SetupEvent::BecameActive).unwrap();
    assert_eq!(setup.step, SetupStep::Complete);
    assert!(matches!(setup.next_action(), SetupAction::Finished));
}
