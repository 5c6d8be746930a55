//! The queue of one engine.

use lead_chat::turn::{
    has_pending_user_test_update, queue_items, should_attempt_quota_failover, visible_queued,
    Outgoing, TurnState, BUS_WAKE_PROMPT, MAX_QUEUED,
};

/// A queued (undelivered) user edit of the test cases marks any in-flight
/// lead emit as stale; ordinary queued messages do not.
#[test]
fn pending_user_test_update_detection() {
    let mk = |text: &str| Outgoing {
        text: text.into(),
        images: vec![],
        is_tracked: false,
        origin_tag: None,
        queue_id: None,
        has_attachments: false,
    };
    let mut turn = TurnState::default();
    assert!(!has_pending_user_test_update(&turn));
    turn.queue.push_back(mk("hello lead"));
    assert!(!has_pending_user_test_update(&turn));
    turn.queue
        .push_back(mk("<weft:test_cases_updated>{\"source\":\"user\",\"content\":\"# v\"}</weft:test_cases_updated>"));
    assert!(has_pending_user_test_update(&turn));
}

#[test]
fn queue_machine() {
    let mut t = TurnState::default();
    assert!(t.try_begin_send()); // idle → busy: send through
    assert!(!t.try_begin_send()); // busy: enqueue
    t.queue.push_back(Outgoing {
        text: "second".into(),
        images: vec![],
        is_tracked: true,
        origin_tag: None,
        queue_id: None,
        has_attachments: false,
    });
    let next = t.on_turn_end();
    assert_eq!(next.map(|o| o.text).as_deref(), Some("second"));
    assert!(t.busy); // popped → still busy
    assert!(t.on_turn_end().is_none()); // empty queue → idle
    assert!(!t.busy);
}

#[test]
fn quota_evidence_is_scoped_to_one_turn() {
    let mut turn = TurnState::default();
    assert!(turn.try_begin_send());
    turn.quota_exceeded = true;
    assert!(turn.on_turn_end().is_none());
    assert!(!turn.quota_exceeded);

    assert!(turn.try_begin_send());
    assert!(!turn.quota_exceeded);
}

#[test]
fn quota_failover_requires_an_idle_failed_turn_boundary() {
    assert!(should_attempt_quota_failover("error", true, false));
    assert!(!should_attempt_quota_failover("error", true, true));
    assert!(!should_attempt_quota_failover("complete", true, false));
    assert!(!should_attempt_quota_failover("error", false, false));
}

#[test]
fn bus_read_coalesces_into_one_trailing_turn() {
    let mut t = TurnState::default();
    assert!(t.try_begin_send()); // idle → busy
                                 // Several wakes during the turn collapse into one pending read.
    assert!(!t.request_bus_read());
    assert!(!t.request_bus_read());
    assert!(!t.request_bus_read());
    // Turn-end with an empty queue synthesizes exactly one invisible read.
    let read = t.on_turn_end().expect("a coalesced read turn");
    assert_eq!(read.text, BUS_WAKE_PROMPT);
    assert!(!read.is_tracked); // invisible plumbing, no timeline row
    assert!(t.busy); // the read turn keeps the engine busy
                     // No further pending read → the next turn-end goes idle.
    assert!(t.on_turn_end().is_none());
    assert!(!t.busy);
}

#[test]
fn bus_read_runs_after_messages_queued_before_the_wake() {
    let mut t = TurnState::default();
    assert!(t.try_begin_send()); // busy
    t.queue.push_back(Outgoing {
        text: "earlier".into(),
        images: vec![],
        is_tracked: true,
        origin_tag: None,
        queue_id: None,
        has_attachments: false,
    });
    t.request_bus_read(); // wake lands AFTER "earlier" was queued
                          // "earlier" preceded the wake, so it drains first, then the read.
    assert_eq!(t.on_turn_end().map(|o| o.text).as_deref(), Some("earlier"));
    assert_eq!(
        t.on_turn_end().map(|o| o.text).as_deref(),
        Some(BUS_WAKE_PROMPT)
    );
    assert!(t.on_turn_end().is_none());
}

#[test]
fn bus_read_precedes_messages_queued_after_the_wake() {
    let mut t = TurnState::default();
    assert!(t.try_begin_send()); // busy
    t.request_bus_read(); // wake lands first (queue empty → position 0)
    t.queue.push_back(Outgoing {
        text: "later".into(),
        images: vec![],
        is_tracked: true,
        origin_tag: None,
        queue_id: None,
        has_attachments: false,
    });
    // The wake arrived before "later", so the inbox read comes first — the
    // agent can't answer the newer prompt without seeing the bus message.
    assert_eq!(
        t.on_turn_end().map(|o| o.text).as_deref(),
        Some(BUS_WAKE_PROMPT)
    );
    assert_eq!(t.on_turn_end().map(|o| o.text).as_deref(), Some("later"));
    assert!(t.on_turn_end().is_none());
}

#[test]
fn request_bus_read_on_idle_starts_a_turn() {
    let mut t = TurnState::default();
    assert!(t.request_bus_read()); // idle → caller starts a read turn now
    assert!(t.busy);
    assert!(t.bus_read_pos.is_none()); // consumed by starting the turn, not pending
}

#[test]
fn queue_is_capped_at_max() {
    let mut t = TurnState::default();
    assert!(t.try_begin_send()); // idle → busy
    for i in 0..MAX_QUEUED {
        assert!(!t.try_begin_send()); // busy
        t.queue.push_back(Outgoing {
            text: format!("m{i}"),
            ..Default::default()
        });
    }
    assert_eq!(t.queue.len(), MAX_QUEUED);
}

#[test]
fn queue_items_preserves_order_and_text() {
    let mut t = TurnState::default();
    t.queue.push_back(Outgoing {
        text: "a".into(),
        queue_id: Some(1),
        ..Default::default()
    });
    t.queue.push_back(Outgoing {
        text: "b".into(),
        queue_id: Some(2),
        ..Default::default()
    });
    let items = queue_items(&t);
    assert_eq!(items.len(), 2);
    assert_eq!((items[0].id, items[0].text.as_str()), (1, "a"));
    assert_eq!((items[1].id, items[1].text.as_str()), (2, "b"));
}

#[test]
fn turnstate_remove_edit_reorder() {
    let mut t = TurnState::default();
    for id in [10, 20, 30] {
        t.queue.push_back(Outgoing {
            text: format!("t{id}"),
            queue_id: Some(id),
            ..Default::default()
        });
    }
    assert!(t.edit(20, "edited"));
    assert_eq!(t.queue[1].text, "edited");

    assert!(t.reorder(&[30, 10, 20]));
    let ids: Vec<i32> = t.queue.iter().filter_map(|o| o.queue_id).collect();
    assert_eq!(ids, vec![30, 10, 20]);

    assert!(t.remove(10));
    let ids: Vec<i32> = t.queue.iter().filter_map(|o| o.queue_id).collect();
    assert_eq!(ids, vec![30, 20]);

    // No rearrangement, or an unknown id: refused.
    assert!(!t.reorder(&[30])); // wrong length
    assert!(!t.reorder(&[30, 99])); // same length, unknown id → rejected
    let ids: Vec<i32> = t.queue.iter().filter_map(|o| o.queue_id).collect();
    assert_eq!(ids, vec![30, 20]); // queue untouched
    assert!(!t.remove(999));
    assert!(!t.edit(999, "x"));
}

#[test]
fn reorder_preserves_untracked_items() {
    // Visible T1, an internal untracked delivery, then visible T2.
    let mut t = TurnState::default();
    t.queue.push_back(Outgoing {
        text: "t1".into(),
        queue_id: Some(10),
        ..Default::default()
    });
    t.queue.push_back(Outgoing {
        text: "nudge".into(),
        is_tracked: false,
        queue_id: None,
        ..Default::default()
    });
    t.queue.push_back(Outgoing {
        text: "t2".into(),
        queue_id: Some(20),
        ..Default::default()
    });
    // Reorder the two visible items; the untracked nudge must keep its slot.
    assert!(t.reorder(&[20, 10]));
    let ids: Vec<Option<i32>> = t.queue.iter().map(|o| o.queue_id).collect();
    assert_eq!(ids, vec![Some(20), None, Some(10)]);
    assert_eq!(t.queue.len(), 3, "untracked nudge must not be dropped");
    assert_eq!(t.queue[1].text, "nudge");
}

#[test]
fn remove_keeps_bus_read_position_in_sync() {
    // A, B queued; a bus wake lands (read at index 2); then C queued.
    let mut t = TurnState::default();
    assert!(t.try_begin_send()); // idle → busy
    t.queue.push_back(Outgoing {
        text: "a".into(),
        queue_id: Some(1),
        ..Default::default()
    });
    t.queue.push_back(Outgoing {
        text: "b".into(),
        queue_id: Some(2),
        ..Default::default()
    });
    assert!(!t.request_bus_read()); // busy → coalesced at index 2
    assert_eq!(t.bus_read_pos, Some(2));
    t.queue.push_back(Outgoing {
        text: "c".into(),
        queue_id: Some(3),
        ..Default::default()
    });
    // Deleting A (index 0, before the wake) shifts the wake left so C still
    // delivers AFTER the inbox-read, not ahead of it.
    assert!(t.remove(1));
    assert_eq!(t.bus_read_pos, Some(1));
    // Deleting C (index 1, == wake index, not before) leaves the wake put.
    assert!(t.remove(3));
    assert_eq!(t.bus_read_pos, Some(1));
}

#[test]
fn cap_counts_only_visible_items() {
    let mut t = TurnState::default();
    // 4 visible user sends + 1 hidden plumbing delivery interleaved.
    t.queue.push_back(Outgoing {
        queue_id: Some(1),
        ..Default::default()
    });
    t.queue.push_back(Outgoing {
        queue_id: None,
        is_tracked: false,
        ..Default::default()
    });
    t.queue.push_back(Outgoing {
        queue_id: Some(2),
        ..Default::default()
    });
    t.queue.push_back(Outgoing {
        queue_id: Some(3),
        ..Default::default()
    });
    t.queue.push_back(Outgoing {
        queue_id: Some(4),
        ..Default::default()
    });
    assert_eq!(t.queue.len(), 5);
    assert_eq!(
        visible_queued(&t),
        4,
        "hidden delivery must not eat the cap budget"
    );
}

/// Asking for the rows in the order they had brings the queue back.
#[test]
fn a_reorder_can_be_undone() {
    let mk = |id: Option<i32>, text: &str| Outgoing {
        text: text.into(),
        queue_id: id,
        ..Default::default()
    };
    let mut t = TurnState::default();
    for (id, text) in [(Some(10), "a"), (None, "hidden"), (Some(20), "b"), (Some(30), "c")] {
        t.queue.push_back(mk(id, text));
    }
    let texts = |t: &TurnState| t.queue.iter().map(|o| o.text.clone()).collect::<Vec<_>>();
    let before = texts(&t);
    assert!(t.reorder(&[30, 10, 20]));
    assert_eq!(texts(&t), vec!["c", "hidden", "a", "b"]);
    assert!(t.reorder(&[10, 20, 30]));
    assert_eq!(texts(&t), before);
}

#[test]
fn reorder_refused_while_bus_wake_pending() {
    let mut t = TurnState::default();
    assert!(t.try_begin_send()); // idle → busy
    t.queue.push_back(Outgoing {
        queue_id: Some(1),
        ..Default::default()
    });
    t.queue.push_back(Outgoing {
        queue_id: Some(2),
        ..Default::default()
    });
    assert!(!t.request_bus_read()); // wake coalesced at index 2
    assert!(t.bus_read_pos.is_some());
    // A valid permutation is still refused while the wake is pending, so the
    // wake can't be mis-placed relative to a dragged message.
    assert!(!t.reorder(&[2, 1]));
    let ids: Vec<i32> = t.queue.iter().filter_map(|o| o.queue_id).collect();
    assert_eq!(ids, vec![1, 2], "queue untouched on refusal");
}

/// An Outgoing with files or images exposes has_attachments=true via queue_items.
#[test]
fn queue_items_exposes_has_attachments() {
    let mut turn = TurnState::default();
    turn.busy = true;
    // One attachment-bearing item.
    turn.queue.push_back(Outgoing {
        text: "look at this".into(),
        images: vec![("image/png".into(), "abc".into())],
        is_tracked: true,
        queue_id: Some(1),
        has_attachments: true,
        ..Default::default()
    });
    // One plain text item.
    turn.queue.push_back(Outgoing {
        text: "just text".into(),
        is_tracked: true,
        queue_id: Some(2),
        has_attachments: false,
        ..Default::default()
    });
    let items = queue_items(&turn);
    assert_eq!(items.len(), 2);
    assert!(
        items[0].has_attachments,
        "attachment item must report has_attachments=true"
    );
    assert!(
        !items[1].has_attachments,
        "plain text item must report has_attachments=false"
    );
}
