//! The manager: directory uniqueness, release idempotence, join misses and
//! upstream pulls.

use xlive::manager::{ChannelMessage, JoinResp, Manager, ManagerOutcome};
use xlive::Upstream;

#[test]
fn join_without_publisher_fails() {
    // A player joining an origin that has no publisher is failed; the peer
    // is disconnected with "app_name not found".
    let mut m = Manager::new(true, None, None);
    let out = m.join(&"app1".to_owned());
    assert!(matches!(out, ManagerOutcome::JoinFailed));
}

#[test]
fn create_then_join_is_local() {
    let mut m = Manager::new(true, None, None);
    let out = m.create("app1".to_owned());
    let id = match out {
        ManagerOutcome::Created { channel_id, heartbeat, ref notified_triggers } => {
            assert!(!heartbeat);
            assert!(notified_triggers.is_empty());
            channel_id
        },
        _ => panic!("create should succeed on a free name"),
    };
    let out = m.join(&"app1".to_owned());
    assert!(matches!(out, ManagerOutcome::Joined(JoinResp::Local(i)) if i == id));
}

#[test]
fn create_while_live_is_refused() {
    let mut m = Manager::new(true, None, None);
    assert!(matches!(m.create("app1".to_owned()), ManagerOutcome::Created { .. }));
    // A second publisher for a live channel must not overwrite the first.
    assert!(matches!(m.create("app1".to_owned()), ManagerOutcome::CreateRefused));
    let out = m.join(&"app1".to_owned());
    assert!(matches!(out, ManagerOutcome::Joined(JoinResp::Local(0))));
}

#[test]
fn release_is_idempotent_and_frees_the_name() {
    let mut m = Manager::new(true, None, None);
    assert!(matches!(m.create("app3".to_owned()), ManagerOutcome::Created { .. }));
    assert!(matches!(m.release(&"app3".to_owned()), ManagerOutcome::Released));
    // Releasing again is safe.
    assert!(matches!(m.release(&"app3".to_owned()), ManagerOutcome::Released));
    // A subsequent create succeeds, under a fresh identity.
    match m.create("app3".to_owned()) {
        ManagerOutcome::Created { channel_id, .. } => assert_eq!(channel_id, 1),
        _ => panic!("create after release should succeed"),
    }
}

#[test]
fn publisher_disconnect_cleans_up() {
    // After a Release, a join with no upstream fails at once; with an
    // upstream configured it triggers a fresh pull.
    let mut m = Manager::new(true, None, None);
    assert!(matches!(m.create("app3".to_owned()), ManagerOutcome::Created { .. }));
    m.release(&"app3".to_owned());
    assert!(matches!(m.join(&"app3".to_owned()), ManagerOutcome::JoinFailed));

    let mut m = Manager::new(true, Some(Upstream::Addr("127.0.0.1:9878".to_owned())), None);
    assert!(matches!(m.join(&"app3".to_owned()), ManagerOutcome::PullUpstream));
}

#[test]
fn join_miss_with_upstream_pulls_and_installs() {
    let mut m = Manager::new(true, Some(Upstream::Addr("127.0.0.1:9888".to_owned())), None);
    assert!(matches!(m.join(&"app1".to_owned()), ManagerOutcome::PullUpstream));
    // The adapter dialed the upstream and got Ok; install the channel.
    let installed = m.install_upstream("app1".to_owned());
    assert!(matches!(installed.resp, JoinResp::Origin(0)));
    assert!(installed.notified_triggers.is_empty());
    // A second player joins the same channel locally.
    assert!(matches!(m.join(&"app1".to_owned()), ManagerOutcome::Joined(JoinResp::Local(0))));
}

#[test]
fn install_on_live_name_joins_instead() {
    let mut m = Manager::new(true, Some(Upstream::Addr("a".to_owned())), None);
    m.install_upstream("x".to_owned());
    // A concurrent pull finished first; the second install must not
    // overwrite the live channel.
    let installed = m.install_upstream("x".to_owned());
    assert!(matches!(installed.resp, JoinResp::Local(0)));
    assert!(installed.notified_triggers.is_empty());
}

#[test]
fn origin_create_attaches_heartbeat() {
    let mut m = Manager::new(true, None, Some("127.0.0.1:9336".to_owned()));
    match m.create("app1".to_owned()) {
        ManagerOutcome::Created { heartbeat, .. } => assert!(heartbeat),
        _ => panic!("create should succeed"),
    }
}

#[test]
fn triggers_fire_on_create() {
    let mut m = Manager::new(true, None, None);
    let t0 = match m.register_trigger("create_session".to_owned()) {
        ManagerOutcome::TriggerRegistered(id) => id,
        _ => panic!("trigger registration"),
    };
    match m.register_trigger("other_event".to_owned()) {
        ManagerOutcome::TriggerRegistered(_) => {},
        _ => panic!("trigger registration"),
    }
    let t2 = match m.register_trigger("create_session".to_owned()) {
        ManagerOutcome::TriggerRegistered(id) => id,
        _ => panic!("trigger registration"),
    };
    match m.create("app1".to_owned()) {
        ManagerOutcome::Created { notified_triggers, .. } => {
            assert_eq!(notified_triggers, vec![t0, t2]);
        },
        _ => panic!("create should succeed"),
    }
}

#[test]
fn snapshot_counts_subscribers() {
    let mut m = Manager::new(true, None, None);
    m.create("a".to_owned());
    m.create("b".to_owned());
    m.join(&"b".to_owned());
    m.join(&"b".to_owned());
    let counts = m.snapshot();
    assert_eq!(counts.len(), 2);
    assert!(counts.contains(&("a".to_owned(), 0)));
    assert!(counts.contains(&("b".to_owned(), 2)));
}

#[test]
fn process_message_dispatches() {
    let mut m = Manager::new(true, None, None);
    let out = m.process_message(ChannelMessage::Create("app1".to_owned(), "".to_owned()));
    assert!(matches!(out, ManagerOutcome::Created { .. }));
    let out = m.process_message(ChannelMessage::Join("app1".to_owned()));
    assert!(matches!(out, ManagerOutcome::Joined(JoinResp::Local(0))));
    let out = m.process_message(ChannelMessage::Snapshot);
    match out {
        ManagerOutcome::SnapshotTaken(counts) => assert_eq!(counts, vec![("app1".to_owned(), 1)]),
        _ => panic!("snapshot"),
    }
    let out = m.process_message(ChannelMessage::Release("app1".to_owned()));
    assert!(matches!(out, ManagerOutcome::Released));
    let out = m.process_message(ChannelMessage::Join("app1".to_owned()));
    assert!(matches!(out, ManagerOutcome::JoinFailed));
}
