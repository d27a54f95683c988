use thulani_audio::queue::{PlayQueue, UserError, BASELINE_VOLUME_PERCENT, MAX_VOLUME_PERCENT};
use thulani_audio::request::{PlayArgs, PlaySource};
use thulani_audio::scheduler::TickDecision;

fn remote(name: &str) -> PlayArgs {
    PlayArgs {
        data: PlaySource::Remote {
            locator: format!("http://example.com/{}", name),
        },
        initiator: "alice".to_owned(),
        sender_channel: 7,
        start: None,
        end: None,
    }
}

fn buffer(name: &str) -> PlayArgs {
    PlayArgs {
        data: PlaySource::Buffer {
            bytes: name.as_bytes().to_vec(),
        },
        initiator: "bob".to_owned(),
        sender_channel: 9,
        start: None,
        end: None,
    }
}

#[test]
fn at_most_one_current_over_control_calls() {
    let mut q = PlayQueue::new();
    assert!(!q.currently_playing());

    q.enqueue(remote("a"), false);
    assert!(!q.currently_playing());
    q.enqueue(buffer("b"), true);
    assert!(!q.currently_playing());

    let item = q.pop_next().unwrap();
    q.commit_current(item);
    assert!(q.currently_playing());

    // Committing over a finished item still leaves exactly one.
    let item = q.pop_next().unwrap();
    q.commit_current(item);
    assert!(q.currently_playing());

    assert!(q.skip());
    assert!(!q.currently_playing());
    assert!(!q.skip());

    q.enqueue(remote("c"), false);
    let item = q.pop_next().unwrap();
    q.commit_current(item);
    assert!(q.stop());
    assert!(!q.currently_playing());
    assert!(q.pop_next().is_none());
}

#[test]
fn dispatch_order_priority_first() {
    let mut q = PlayQueue::new();
    // An interleaving of priority and general enqueues.
    q.enqueue(remote("g1"), false);
    q.enqueue(buffer("p1"), true);
    q.enqueue(remote("g2"), false);
    q.enqueue(buffer("p2"), true);

    let order: Vec<PlayArgs> = std::iter::from_fn(|| q.pop_next()).collect();
    assert_eq!(order.len(), 4);
    assert_eq!(order[0], buffer("p1"));
    assert_eq!(order[1], buffer("p2"));
    assert_eq!(order[2], remote("g1"));
    assert_eq!(order[3], remote("g2"));
}

#[test]
fn volume_clamps() {
    let mut q = PlayQueue::new();
    assert_eq!(q.volume_percent(), BASELINE_VOLUME_PERCENT);

    let (vol, clamped) = q.set_volume(-5);
    assert_eq!(vol, 0);
    assert!(!clamped);
    assert_eq!(q.volume_percent(), 0);

    let (vol, clamped) = q.set_volume(301);
    assert_eq!(vol, MAX_VOLUME_PERCENT);
    assert!(clamped);
    assert_eq!(q.volume_percent(), 300);

    let (vol, clamped) = q.set_volume(100);
    assert_eq!(vol, BASELINE_VOLUME_PERCENT);
    assert!(!clamped);
    assert_eq!(q.volume_percent(), 100);
}

#[test]
fn pause_rejected_without_mutation() {
    let q = PlayQueue::new();
    let before = q.clone();

    assert_eq!(q.pause(false), Err(UserError::NothingPlaying));
    assert_eq!(q.pause(true), Err(UserError::NothingPlaying));
    assert_eq!(q.resume(false), Err(UserError::NothingPlaying));
    assert_eq!(q, before);

    let mut q = PlayQueue::new();
    q.enqueue(remote("a"), false);
    let item = q.pop_next().unwrap();
    q.commit_current(item);
    let before = q.clone();

    // The handle reports paused: pausing again is rejected, resuming is fine.
    assert_eq!(q.pause(false), Err(UserError::AlreadyInState));
    assert_eq!(q.resume(false), Ok(()));
    // The handle reports playing: the mirror image.
    assert_eq!(q.pause(true), Ok(()));
    assert_eq!(q.resume(true), Err(UserError::AlreadyInState));
    assert_eq!(q, before);

    assert_eq!(UserError::NothingPlaying.message(), "r u srs");
    assert_eq!(UserError::AlreadyInState.message(), "r u srs");
}

#[test]
fn teardown_leaves_once() {
    let mut q = PlayQueue::new();
    q.enqueue(remote("a"), false);
    let item = q.pop_next().unwrap();
    q.commit_current(item);

    // While the handle is not finished the scheduler just waits.
    assert_eq!(q.tick_decide(false), TickDecision::Wait);

    // The handle finishes: exactly one teardown tick issues the leave.
    let mut leaves = 0;
    for _ in 0..5 {
        match q.tick_decide(true) {
            TickDecision::Teardown => {
                let ok = q.clear_finished(true);
                assert!(ok);
                leaves += 1;
            }
            TickDecision::Idle => {}
            other => panic!("unexpected decision {:?}", other),
        }
    }
    assert_eq!(leaves, 1);
}

#[test]
fn invariant_violation_is_force_recovered() {
    let mut q = PlayQueue::new();
    q.enqueue(remote("a"), false);
    let item = q.pop_next().unwrap();
    q.commit_current(item);

    // The re-check under the write lock contradicts the read phase: the
    // state is force-cleared anyway and the violation is reported.
    assert_eq!(q.tick_decide(true), TickDecision::Teardown);
    let ok = q.clear_finished(false);
    assert!(!ok);
    assert!(!q.currently_playing());
    assert_eq!(q.tick_decide(true), TickDecision::Idle);
}

#[test]
fn scenario_remote_request_full_cycle() {
    let mut q = PlayQueue::new();

    // Idle: nothing to do.
    assert_eq!(q.tick_decide(false), TickDecision::Idle);

    // A remote request with no clip bounds lands on the general queue.
    q.enqueue(remote("song"), false);
    assert_eq!(q.tick_decide(false), TickDecision::Dispatch);

    // The tick resolves, joins and attaches, then records the new current
    // item and applies the stored volume to the fresh handle.
    let item = q.pop_next().unwrap();
    assert!(matches!(item.data, PlaySource::Remote { .. }));
    assert_eq!(item.start, None);
    assert_eq!(item.end, None);
    let vol = q.commit_current(item);
    assert_eq!(vol, BASELINE_VOLUME_PERCENT);
    assert!(q.currently_playing());

    // Still playing: the common cheap path.
    assert_eq!(q.tick_decide(false), TickDecision::Wait);

    // The handle reports finished: the following tick clears the current
    // item and, with both queues empty, leaves the session.
    assert_eq!(q.tick_decide(true), TickDecision::Teardown);
    assert!(q.clear_finished(true));
    assert!(!q.currently_playing());
    assert_eq!(q.tick_decide(false), TickDecision::Idle);
}

#[test]
fn scenario_buffer_preempts_general_backlog() {
    let mut q = PlayQueue::new();

    // A general item is playing and another is queued behind it.
    q.enqueue(remote("first"), false);
    q.enqueue(remote("second"), false);
    let item = q.pop_next().unwrap();
    q.commit_current(item);

    // A raw in-memory buffer request arrives on the priority queue.
    q.enqueue(buffer("clip"), true);

    // When the current item completes, the buffer request is dispatched
    // before any queued general items, via the transcode path.
    assert_eq!(q.tick_decide(true), TickDecision::Dispatch);
    let next = q.pop_next().unwrap();
    match &next.data {
        PlaySource::Buffer { bytes } => assert_eq!(bytes, &b"clip".to_vec()),
        other => panic!("expected the buffer request, got {:?}", other),
    }
    q.commit_current(next);

    // The general backlog follows.
    assert!(q.currently_playing());
    assert_eq!(q.tick_decide(true), TickDecision::Dispatch);
    let after = q.pop_next().unwrap();
    assert_eq!(after, remote("second"));
}

#[test]
fn list_renders_current_then_queues() {
    let mut q = PlayQueue::new();
    assert_eq!(q.list_lines(false), vec!["Nothing is playing you meme"]);

    q.enqueue(remote("now"), false);
    let item = q.pop_next().unwrap();
    q.commit_current(item);
    q.enqueue(buffer("clip"), true);
    q.enqueue(remote("later"), false);

    assert_eq!(
        q.list_lines(true),
        vec![
            "Currently playing  `http://example.com/now` (alice)",
            "meme (bob)",
            "`http://example.com/later` (alice)",
        ]
    );
    assert_eq!(
        q.list_lines(false)[0],
        "Currently paused:  `http://example.com/now` (alice)"
    );
}
