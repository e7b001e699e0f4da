use peri_tui::ask_user::{
    ask_user_on_key, build_answers_map, interaction_fingerprint, leave_typing_upwards,
    reset_for_owner_change, AnswerValue, AskUser, AskUserNav, AskUserOutcome, InteractionOwner,
    PendingInteraction, Question, QuestionOption,
};
use peri_tui::keys::{KeyCode, KeyPress};
use peri_tui::textarea::TextAreaState;
use peri_tui::wrap::wrap_text;

fn make_question(id: &str, multi_select: bool, labels: &[&str]) -> Question {
    Question {
        id: id.to_string(),
        header: id.to_string(),
        question: format!("Question {id}"),
        options: labels
            .iter()
            .map(|l| QuestionOption { label: l.to_string(), description: String::new() })
            .collect(),
        multi_select,
    }
}

fn make_ask_user(questions: Vec<Question>) -> AskUser {
    AskUser { questions }
}

fn text(s: &str) -> AnswerValue {
    AnswerValue::Text(s.to_string())
}

fn list(items: &[&str]) -> AnswerValue {
    AnswerValue::List(items.iter().map(|s| s.to_string()).collect())
}

fn entry(k: &str, v: AnswerValue) -> (String, AnswerValue) {
    (k.to_string(), v)
}

fn owner(token: u64) -> InteractionOwner {
    InteractionOwner {
        client_instance_id: 1,
        token,
        session_id: "s1".into(),
        generation: 3,
        prompt_epoch: 5,
    }
}

fn fresh_nav() -> AskUserNav {
    AskUserNav {
        focused: 0,
        answers: vec![],
        focused_option: 0,
        is_typing: false,
        typing: TextAreaState::default(),
        custom_answers: vec![],
        scroll_y: 0,
        fingerprint: vec![],
    }
}

fn key(code: KeyCode) -> KeyPress {
    KeyPress::plain(code)
}

#[test]
fn test_ask_user_same_question_ids_new_owner_resets_answers() {
    let questions = vec![make_question("same", false, &["A", "B"])];
    let a = PendingInteraction {
        owner: owner(7),
        request_id_json: "\"same-wire-id\"".into(),
        payload: AskUser { questions: vec![make_question("same", false, &["A", "B"])] },
    };
    let b = PendingInteraction {
        owner: owner(8),
        request_id_json: "\"same-wire-id\"".into(),
        payload: AskUser { questions },
    };
    let mut typing = TextAreaState::default();
    typing.insert_str("answer owned by A");
    let mut nav = AskUserNav {
        focused: 2,
        answers: vec![vec![1]],
        focused_option: 1,
        is_typing: true,
        typing,
        custom_answers: vec![Some("A custom".into())],
        scroll_y: 9,
        fingerprint: interaction_fingerprint(Some(&a)),
    };
    assert!(reset_for_owner_change(&mut nav, Some(&b), 1));
    assert_eq!(nav.focused, 0);
    assert_eq!(nav.answers, vec![Vec::<usize>::new()]);
    assert_eq!(nav.focused_option, 0);
    assert!(!nav.is_typing);
    assert_eq!(nav.typing.all_text(), "");
    assert_eq!(nav.typing.cursor_byte(), 0);
    assert_eq!(nav.custom_answers, vec![None]);
    assert_eq!(nav.scroll_y, 0);
    assert_eq!(nav.fingerprint, interaction_fingerprint(Some(&b)));
    assert_eq!(
        build_answers_map(Some(&b.payload), &nav.answers, &nav.custom_answers),
        vec![entry("same", text(""))]
    );
}

#[test]
fn reset_for_same_owner_changes_nothing() {
    let a = PendingInteraction {
        owner: owner(7),
        request_id_json: "1".into(),
        payload: make_ask_user(vec![make_question("q", false, &["A"])]),
    };
    let mut nav = fresh_nav();
    nav.fingerprint = interaction_fingerprint(Some(&a));
    nav.answers = vec![vec![0]];
    assert!(!reset_for_owner_change(&mut nav, Some(&a), 1));
    assert_eq!(nav.answers, vec![vec![0usize]]);
}

#[test]
fn interaction_fingerprint_lists_owner_numbers_and_ids() {
    let a = PendingInteraction {
        owner: InteractionOwner {
            client_instance_id: 12,
            token: 1000,
            session_id: "x".into(),
            generation: 0,
            prompt_epoch: 7,
        },
        request_id_json: "1".into(),
        payload: make_ask_user(vec![make_question("q1", false, &[]), make_question("q2", true, &[])]),
    };
    assert_eq!(interaction_fingerprint(Some(&a)), vec!["12", "0", "7", "1000", "q1", "q2"]);
    assert!(interaction_fingerprint(None).is_empty());
}

#[test]
fn test_build_answers_map_single_select_preset() {
    let au = make_ask_user(vec![make_question("q1", false, &["A", "B", "C"])]);
    let answers = vec![vec![1usize]];
    let custom = vec![None];
    let result = build_answers_map(Some(&au), &answers, &custom);
    assert_eq!(result, vec![entry("q1", text("B"))]);
}

#[test]
fn test_build_answers_map_multi_select_preset() {
    let au = make_ask_user(vec![make_question("q1", true, &["A", "B", "C"])]);
    let answers = vec![vec![0usize, 2]];
    let custom = vec![None];
    let result = build_answers_map(Some(&au), &answers, &custom);
    assert_eq!(result, vec![entry("q1", list(&["A", "C"]))]);
}

#[test]
fn test_build_answers_map_custom_text() {
    let au = make_ask_user(vec![make_question("q1", false, &["A", "B"])]);
    let answers = vec![vec![]];
    let custom = vec![Some("my custom answer".to_string())];
    let result = build_answers_map(Some(&au), &answers, &custom);
    assert_eq!(result, vec![entry("q1", text("my custom answer"))]);
}

#[test]
fn test_build_answers_map_custom_overrides_preset() {
    let au = make_ask_user(vec![make_question("q1", false, &["A", "B"])]);
    let answers = vec![vec![0usize]];
    let custom = vec![Some("overridden text".to_string())];
    let result = build_answers_map(Some(&au), &answers, &custom);
    assert_eq!(result, vec![entry("q1", text("overridden text"))]);
}

#[test]
fn test_build_answers_map_empty_custom_not_override() {
    let au = make_ask_user(vec![make_question("q1", false, &["A", "B"])]);
    let answers = vec![vec![1usize]];
    let custom = vec![Some(String::new())];
    let result = build_answers_map(Some(&au), &answers, &custom);
    assert_eq!(result, vec![entry("q1", text(""))]);
}

#[test]
fn test_build_answers_map_mixed_preset_and_custom() {
    let au = make_ask_user(vec![
        make_question("q1", false, &["A", "B"]),
        make_question("q2", true, &["X", "Y", "Z"]),
        make_question("q3", false, &["P", "Q"]),
    ]);
    let answers = vec![vec![], vec![0usize, 1], vec![1usize]];
    let custom = vec![Some("custom answer".to_string()), Some("extra note".to_string()), None];
    let result = build_answers_map(Some(&au), &answers, &custom);
    assert_eq!(
        result,
        vec![
            entry("q1", text("custom answer")),
            entry("q2", list(&["X", "Y", "extra note"])),
            entry("q3", text("Q")),
        ]
    );
}

#[test]
fn test_build_answers_map_multi_select_empty_with_custom() {
    let au = make_ask_user(vec![make_question("q1", true, &["A", "B"])]);
    let answers = vec![vec![]];
    let custom = vec![Some("only me".to_string())];
    let result = build_answers_map(Some(&au), &answers, &custom);
    assert_eq!(result, vec![entry("q1", list(&["only me"]))]);
}

#[test]
fn build_answers_map_repeated_id_keeps_one_entry() {
    let au = make_ask_user(vec![make_question("q", false, &["A"]), make_question("q", false, &["B"])]);
    let result = build_answers_map(Some(&au), &vec![vec![0], vec![0]], &vec![]);
    assert_eq!(result, vec![entry("q", text("B"))]);
    assert!(build_answers_map(None, &vec![], &vec![]).is_empty());
}

#[test]
fn test_wrap_text_short_returns_single_line() {
    assert_eq!(wrap_text("hello", 80), vec!["hello"]);
}

#[test]
fn test_wrap_text_long_splits_at_whitespace() {
    assert_eq!(wrap_text("hello world foo bar", 12), vec!["hello world", "foo", "bar"]);
}

#[test]
fn test_wrap_text_cjk_splits_at_boundary() {
    assert_eq!(wrap_text("你好世界你好世界你好世界", 10), vec!["你好世界你", "好世界你好", "世界"]);
}

#[test]
fn test_wrap_text_empty_returns_single_empty() {
    assert_eq!(wrap_text("", 80), vec![""]);
}

#[test]
fn test_wrap_text_zero_width_returns_original() {
    assert_eq!(wrap_text("hello", 0), vec!["hello"]);
}

#[test]
fn test_textarea_state_insert_and_retrieve() {
    let mut state = TextAreaState::default();
    state.insert_char('h');
    state.insert_char('i');
    assert_eq!(state.text, "hi");
}

#[test]
fn test_textarea_state_backspace_clears() {
    let mut state = TextAreaState::default();
    state.insert_char('x');
    state.backspace();
    assert!(state.text.is_empty());
}

#[test]
fn test_textarea_state_replace_all_no_undo_resets() {
    let mut state = TextAreaState::default();
    state.insert_str("old text");
    state.replace_all_no_undo("new".to_string());
    assert_eq!(state.text, "new");
}

#[test]
fn test_textarea_state_delete_word_backward() {
    let mut state = TextAreaState::default();
    state.insert_str("hello");
    state.cursor = state.text.len();
    state.delete_word_backward();
    assert!(state.text.is_empty());
}

#[test]
fn textarea_cursor_counts_bytes_of_wide_chars() {
    let mut state = TextAreaState::default();
    state.insert_str("你好");
    assert_eq!(state.cursor, 6);
    state.cursor_left();
    assert_eq!(state.cursor, 3);
    state.insert_char('x');
    assert_eq!(state.text, "你x好");
    state.delete_forward();
    assert_eq!(state.text, "你x");
}

#[test]
fn test_question_option_struct_fields() {
    let opt = QuestionOption { label: "test".into(), description: "desc".into() };
    assert_eq!(opt.label, "test");
    assert_eq!(opt.description, "desc");
}

#[test]
fn panel_space_selects_and_enter_submits() {
    let au = make_ask_user(vec![make_question("q1", false, &["A", "B"])]);
    let mut nav = fresh_nav();
    nav.answers = vec![vec![]];
    nav.custom_answers = vec![None];
    // Enter with nothing chosen stays on the question.
    assert!(matches!(ask_user_on_key(&mut nav, Some(&au), key(KeyCode::Enter)), AskUserOutcome::Consumed));
    assert!(matches!(ask_user_on_key(&mut nav, Some(&au), key(KeyCode::Down)), AskUserOutcome::Consumed));
    assert_eq!(nav.focused_option, 1);
    assert!(matches!(ask_user_on_key(&mut nav, Some(&au), key(KeyCode::Char(' '))), AskUserOutcome::Consumed));
    assert_eq!(nav.answers, vec![vec![1usize]]);
    match ask_user_on_key(&mut nav, Some(&au), key(KeyCode::Enter)) {
        AskUserOutcome::Submit(m) => assert_eq!(m, vec![entry("q1", text("B"))]),
        other => panic!("expected Submit, got {:?}", other),
    }
}

#[test]
fn panel_space_twice_on_single_select_clears() {
    let au = make_ask_user(vec![make_question("q1", false, &["A", "B"])]);
    let mut nav = fresh_nav();
    ask_user_on_key(&mut nav, Some(&au), key(KeyCode::Char(' ')));
    assert_eq!(nav.answers, vec![vec![0usize]]);
    ask_user_on_key(&mut nav, Some(&au), key(KeyCode::Char(' ')));
    assert_eq!(nav.answers, vec![Vec::<usize>::new()]);
}

#[test]
fn panel_down_to_custom_row_types_and_commits() {
    let au = make_ask_user(vec![make_question("q1", false, &["A"])]);
    let mut nav = fresh_nav();
    ask_user_on_key(&mut nav, Some(&au), key(KeyCode::Down));
    assert!(nav.is_typing);
    assert!(matches!(ask_user_on_key(&mut nav, Some(&au), key(KeyCode::Char('x'))), AskUserOutcome::EditTyping));
    nav.typing.insert_str("  mine  ");
    ask_user_on_key(&mut nav, Some(&au), key(KeyCode::Enter));
    assert!(!nav.is_typing);
    assert_eq!(nav.custom_answers, vec![Some("mine".to_string())]);
}

#[test]
fn panel_tab_backtab_and_escape() {
    let au = make_ask_user(vec![make_question("q1", false, &["A"]), make_question("q2", false, &["B"])]);
    let mut nav = fresh_nav();
    ask_user_on_key(&mut nav, Some(&au), key(KeyCode::Tab));
    assert_eq!(nav.focused, 1);
    ask_user_on_key(&mut nav, Some(&au), key(KeyCode::BackTab));
    assert_eq!(nav.focused, 0);
    assert!(matches!(ask_user_on_key(&mut nav, Some(&au), key(KeyCode::Esc)), AskUserOutcome::OpenRejectConfirm));
    assert!(matches!(ask_user_on_key(&mut nav, Some(&au), key(KeyCode::Home)), AskUserOutcome::Ignored));
}

#[test]
fn panel_enter_jumps_to_next_unanswered() {
    let au = make_ask_user(vec![
        make_question("q1", false, &["A"]),
        make_question("q2", false, &["B"]),
        make_question("q3", false, &["C"]),
    ]);
    let mut nav = fresh_nav();
    nav.answers = vec![vec![0], vec![0], vec![]];
    ask_user_on_key(&mut nav, Some(&au), key(KeyCode::Enter));
    assert_eq!(nav.focused, 2);
}

#[test]
fn leaving_typing_upwards_lands_on_last_option() {
    let au = make_ask_user(vec![make_question("q1", false, &["A", "B", "C"])]);
    let mut nav = fresh_nav();
    nav.is_typing = true;
    leave_typing_upwards(&mut nav, Some(&au));
    assert!(!nav.is_typing);
    assert_eq!(nav.focused_option, 2);
}
