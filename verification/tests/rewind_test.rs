use peri_tui::rewind::{rewind_request, run_rewind_consumer};
use peri_tui::keys::{KeyCode, KeyPress};
use peri_tui::rewind::{
    change_tone, rewind_consumer_step, rewind_popup_on_key, role_display, truncate_str,
    visible_rows, ChangeTone, ConsumerStep, RewindAction, RewindMessage, RewindOutcome,
    RewindPopupState, RewindPreview, RewindView,
};

#[test]
fn rewind_action_test_rewind_action_variants() {
    let confirm = RewindAction::Confirm { target_message_id: "abc".into(), revert_files: true };
    match confirm {
        RewindAction::Confirm { target_message_id, revert_files } => {
            assert_eq!(target_message_id, "abc");
            assert!(revert_files);
        }
        RewindAction::Cancel => panic!("expected Confirm"),
    }
    let _cancel = RewindAction::Cancel;
}

#[test]
fn rewind_action_test_test_rewind_action_variants() {
    let confirm = RewindAction::Confirm { target_message_id: "abc".into(), revert_files: true };
    match confirm {
        RewindAction::Confirm { target_message_id, revert_files } => {
            assert_eq!(target_message_id, "abc");
            assert!(revert_files);
        }
        RewindAction::Cancel => panic!("expected Confirm"),
    }
    let _cancel = RewindAction::Cancel;
}

#[test]
fn rewind_action_test_confirm_without_session_skipped() {
    let step = rewind_consumer_step(
        Some(RewindAction::Confirm { target_message_id: "msg-1".into(), revert_files: true }),
        false,
    );
    assert!(matches!(step, ConsumerStep::Skip));
    match rewind_consumer_step(
        Some(RewindAction::Confirm { target_message_id: "msg-1".into(), revert_files: false }),
        true,
    ) {
        ConsumerStep::SendRewind { target_message_id, revert_files } => {
            assert_eq!(target_message_id, "msg-1");
            assert!(!revert_files);
        }
        other => panic!("expected SendRewind, got {:?}", other),
    }
    assert!(matches!(rewind_consumer_step(Some(RewindAction::Cancel), true), ConsumerStep::Skip));
    assert!(matches!(rewind_consumer_step(None, true), ConsumerStep::Exit));
}

#[test]
fn test_truncate_str_short() {
    assert_eq!(truncate_str("hello", 10), "hello");
}

#[test]
fn test_truncate_str_exact() {
    assert_eq!(truncate_str("hello", 5), "hello");
}

#[test]
fn test_truncate_str_long() {
    assert_eq!(truncate_str("hello world", 5), "hello…");
}

#[test]
fn test_truncate_str_cjk() {
    assert_eq!(truncate_str("你好世界朋友", 4), "你好世界…");
}

#[test]
fn test_role_display_known() {
    assert_eq!(role_display("user"), "U");
    assert_eq!(role_display("assistant"), "A");
    assert_eq!(role_display("system"), "S");
    assert_eq!(role_display("tool"), "T");
}

#[test]
fn test_role_display_unknown() {
    assert_eq!(role_display("custom"), "?");
    assert_eq!(role_display(""), "?");
}

#[test]
fn test_rewind_view_toggle() {
    assert_ne!(RewindView::Messages, RewindView::Files);
    let v = RewindView::Messages;
    match v {
        RewindView::Messages => {}
        RewindView::Files => panic!("expected Messages"),
    }
}

fn preview() -> RewindPreview {
    RewindPreview {
        messages: vec![
            RewindMessage { id: "m1".into(), role: "user".into(), preview: "hi".into() },
            RewindMessage { id: "m2".into(), role: "assistant".into(), preview: "yo".into() },
        ],
        files: vec![],
    }
}

#[test]
fn rewind_popup_confirms_highlighted_message() {
    let p = preview();
    let mut st = RewindPopupState { view: RewindView::Messages, msg_sel: 0, file_sel: 0 };
    rewind_popup_on_key(&mut st, Some(&p), KeyPress::plain(KeyCode::Down));
    rewind_popup_on_key(&mut st, Some(&p), KeyPress::plain(KeyCode::Down));
    assert_eq!(st.msg_sel, 1);
    match rewind_popup_on_key(&mut st, Some(&p), KeyPress::plain(KeyCode::Enter)) {
        RewindOutcome::Close(Some(RewindAction::Confirm { target_message_id, revert_files })) => {
            assert_eq!(target_message_id, "m2");
            assert!(revert_files);
        }
        other => panic!("unexpected {:?}", other),
    }
    assert!(matches!(rewind_popup_on_key(&mut st, None, KeyPress::plain(KeyCode::Enter)), RewindOutcome::Close(None)));
    rewind_popup_on_key(&mut st, Some(&p), KeyPress::plain(KeyCode::Tab));
    assert_eq!(st.view, RewindView::Files);
    assert!(matches!(rewind_popup_on_key(&mut st, Some(&p), KeyPress::plain(KeyCode::Char('q'))), RewindOutcome::Ignored));
}

#[test]
fn rewind_rows_and_tones() {
    assert_eq!(visible_rows(10, 8), (8, 2));
    assert_eq!(visible_rows(3, 8), (3, 0));
    assert_eq!(change_tone("added"), ChangeTone::Added);
    assert_eq!(change_tone("deleted"), ChangeTone::Deleted);
    assert_eq!(change_tone("modified"), ChangeTone::Modified);
}

#[test]
fn rewind_action_test_test_confirm_without_session_skipped() {
    let step = rewind_consumer_step(
        Some(RewindAction::Confirm { target_message_id: "msg-1".into(), revert_files: true }),
        false,
    );
    assert!(matches!(step, ConsumerStep::Skip));
}

#[test]
fn rewind_action_test_cancel_action_no_rpc() {
    assert!(matches!(rewind_consumer_step(Some(RewindAction::Cancel), true), ConsumerStep::Skip));
    assert!(matches!(rewind_consumer_step(Some(RewindAction::Cancel), false), ConsumerStep::Skip));
}

#[test]
fn rewind_action_test_test_cancel_action_no_rpc() {
    assert!(matches!(rewind_consumer_step(Some(RewindAction::Cancel), true), ConsumerStep::Skip));
}

#[test]
fn rewind_action_test_dropped_tx_exits_loop() {
    assert!(matches!(rewind_consumer_step(None, true), ConsumerStep::Exit));
    assert!(matches!(rewind_consumer_step(None, false), ConsumerStep::Exit));
}

#[test]
fn rewind_action_test_test_dropped_tx_exits_loop() {
    assert!(matches!(rewind_consumer_step(None, true), ConsumerStep::Exit));
}

#[test]
fn rewind_request_values() {
    let r = rewind_request("msg-7", true);
    assert_eq!(r.method, "session/execute-command");
    assert_eq!(r.command, "/rewind");
    assert_eq!(r.target_message_id, "msg-7");
    assert!(r.revert_files);
}

#[test]
fn rewind_stream_handles_messages_in_order() {
    let msgs = vec![
        Some(RewindAction::Confirm { target_message_id: "a".into(), revert_files: false }),
        Some(RewindAction::Cancel),
        Some(RewindAction::Confirm { target_message_id: "b".into(), revert_files: true }),
        None,
        Some(RewindAction::Confirm { target_message_id: "c".into(), revert_files: true }),
    ];
    let mut sent = Vec::new();
    for m in msgs {
        match rewind_consumer_step(m, true) {
            ConsumerStep::Exit => break,
            ConsumerStep::Skip => {}
            ConsumerStep::SendRewind { target_message_id, revert_files } => sent.push((target_message_id, revert_files)),
        }
    }
    assert_eq!(sent, vec![("a".to_string(), false), ("b".to_string(), true)]);
}

#[test]
fn rewind_consumer_runs_in_order_until_close() {
    let msgs = vec![
        Some(RewindAction::Confirm { target_message_id: "m1".into(), revert_files: true }),
        Some(RewindAction::Cancel),
        Some(RewindAction::Confirm { target_message_id: "m2".into(), revert_files: false }),
        Some(RewindAction::Confirm { target_message_id: "m3".into(), revert_files: false }),
        None,
        Some(RewindAction::Confirm { target_message_id: "m4".into(), revert_files: true }),
    ];
    let sessions = vec![true, true, true, false, true, true];
    let sent = run_rewind_consumer(msgs, &sessions);
    assert_eq!(sent.len(), 2);
    assert_eq!(sent[0].target_message_id, "m1");
    assert!(sent[0].revert_files);
    assert_eq!(sent[1].target_message_id, "m2");
    assert!(!sent[1].revert_files);
    assert_eq!(sent[1].command, "/rewind");
    assert_eq!(sent[1].method, "session/execute-command");
}

#[test]
fn rewind_consumer_cancel_only_sends_nothing() {
    let sent = run_rewind_consumer(vec![Some(RewindAction::Cancel), None], &vec![true, true]);
    assert!(sent.is_empty());
}
