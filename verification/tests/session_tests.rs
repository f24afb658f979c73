use flashcards::session::{App, Effect, Key, Screen};

fn lines(xs: &[&str]) -> Vec<String> {
    xs.iter().map(|s| s.to_string()).collect()
}

fn open_app(qs: &[&str], ans: &[&str]) -> App {
    let mut app = App::new();
    app.open_topic("math".to_string(), &lines(qs), &lines(ans), false)
        .unwrap();
    app
}

fn type_text(app: &mut App, text: &str) {
    for c in text.chars() {
        app.handle(Key::Char(c));
    }
}

#[test]
fn new_app_starts_on_topic_select() {
    let app = App::new();
    assert_eq!(app.screen, Screen::TopicSelect);
    assert!(app.eng.is_none());
    assert!(app.topics.is_empty());
}

#[test]
fn set_topics_sorts_names() {
    let mut app = App::new();
    app.set_topics(lines(&["cedar", "apple", "birch"]));
    assert_eq!(app.topics, vec!["apple", "birch", "cedar"]);
}

#[test]
fn opening_a_topic_reaches_main_menu() {
    let app = open_app(&["q"], &["a"]);
    assert_eq!(app.screen, Screen::MainMenu);
    assert_eq!(app.current_topic.as_deref(), Some("math"));
    assert!(app.eng.is_some());
}

#[test]
fn open_mismatched_topic_leaves_state_untouched() {
    let mut app = App::new();
    let r = app.open_topic("bad".to_string(), &lines(&["q1", "q2"]), &lines(&["a1"]), false);
    assert!(r.is_err());
    assert_eq!(app.screen, Screen::TopicSelect);
    assert!(app.eng.is_none());
    assert!(app.current_topic.is_none());
}

#[test]
fn creating_a_topic_registers_it_sorted() {
    let mut app = App::new();
    app.set_topics(lines(&["zoo", "ant"]));
    app.handle(Key::Char('c'));
    assert_eq!(app.screen, Screen::TopicCreate);
    type_text(&mut app, "maths");
    let eff = app.handle(Key::Enter);
    match eff {
        Effect::OpenTopic { name, register } => {
            assert_eq!(name, "maths");
            assert!(register);
            app.open_topic(name, &lines(&[]), &lines(&[]), true).unwrap();
        }
        _ => panic!("creating a topic must ask for it to be opened"),
    }
    assert_eq!(app.topics, vec!["ant", "maths", "zoo"]);
    assert_eq!(app.screen, Screen::MainMenu);
}

#[test]
fn empty_topic_name_falls_back_to_selection() {
    let mut app = App::new();
    app.handle(Key::Char('C'));
    let eff = app.handle(Key::Enter);
    assert!(matches!(eff, Effect::Stay));
    assert_eq!(app.screen, Screen::TopicSelect);
}

#[test]
fn blank_topic_name_is_rejected() {
    let mut app = App::new();
    app.set_topics(lines(&["existing"]));
    app.handle(Key::Char('c'));
    type_text(&mut app, " \t ");
    let eff = app.handle(Key::Enter);
    assert!(matches!(eff, Effect::Stay));
    assert_eq!(app.screen, Screen::TopicSelect);
    assert_eq!(app.topics, vec!["existing"]);
    assert!(app.eng.is_none());
    assert!(app.topic_input.is_empty());
}

#[test]
fn opening_a_smaller_topic_clamps_card_selection() {
    let mut app = open_app(&["q1", "q2", "q3"], &["a1", "a2", "a3"]);
    app.handle(Key::Char('e'));
    app.handle(Key::Down);
    app.handle(Key::Down);
    assert_eq!(app.selected_card, 2);
    app.open_topic("tiny".to_string(), &lines(&["only"]), &lines(&["one"]), false)
        .unwrap();
    assert_eq!(app.selected_card, 0);
}

#[test]
fn selecting_a_topic_asks_to_open_it() {
    let mut app = App::new();
    app.set_topics(lines(&["alpha", "beta"]));
    app.handle(Key::Down);
    let eff = app.handle(Key::Enter);
    match eff {
        Effect::OpenTopic { name, register } => {
            assert_eq!(name, "beta");
            assert!(!register);
        }
        _ => panic!("enter on a topic must ask for it to be opened"),
    }
}

#[test]
fn topic_selection_clamps_at_both_ends() {
    let mut app = App::new();
    app.set_topics(lines(&["a", "b"]));
    app.handle(Key::Up);
    assert_eq!(app.selected_topic, 0);
    app.handle(Key::Down);
    app.handle(Key::Down);
    app.handle(Key::Down);
    assert_eq!(app.selected_topic, 1);
}

#[test]
fn full_study_pass_sequential() {
    let mut app = open_app(&["2+2?"], &["4"]);
    app.handle(Key::Char('s'));
    assert_eq!(app.screen, Screen::Mode);
    app.handle(Key::Char('n'));
    assert_eq!(app.screen, Screen::Ask);
    type_text(&mut app, "4");
    app.handle(Key::Enter);
    assert_eq!(app.screen, Screen::Reveal);
    assert_eq!(app.eng.as_ref().unwrap().responses[0].as_deref(), Some("4"));
    app.handle(Key::Char('n'));
    assert_eq!(app.screen, Screen::Done);
    let (num, den) = app.eng.as_ref().unwrap().progress();
    assert_eq!(num as f64 / den as f64, 1.0);
}

#[test]
fn empty_response_is_recorded() {
    let mut app = open_app(&["q"], &["a"]);
    app.handle(Key::Char('s'));
    app.handle(Key::Char('n'));
    app.handle(Key::Enter);
    assert_eq!(app.eng.as_ref().unwrap().responses[0].as_deref(), Some(""));
}

#[test]
fn input_editing_keys_work_in_ask() {
    let mut app = open_app(&["q"], &["a"]);
    app.handle(Key::Char('s'));
    app.handle(Key::Char('n'));
    type_text(&mut app, "ac");
    app.handle(Key::Left);
    app.handle(Key::Char('b'));
    assert_eq!(app.input, vec!['a', 'b', 'c']);
    assert_eq!(app.cursor, 2);
    app.handle(Key::Backspace);
    assert_eq!(app.input, vec!['a', 'c']);
    app.handle(Key::Delete);
    assert_eq!(app.input, vec!['a']);
    app.handle(Key::Right);
    assert_eq!(app.cursor, 1);
}

#[test]
fn confirm_quit_from_review_restores_scroll() {
    // Confirm-quit entered from review, answered "no", returns exactly to
    // review with its scroll offset unchanged.
    let mut app = open_app(&["q"], &["a"]);
    app.handle(Key::Char('s'));
    app.handle(Key::Char('n'));
    app.handle(Key::Ctrl('r'));
    assert_eq!(app.screen, Screen::Review);
    app.handle(Key::Down);
    app.handle(Key::Down);
    assert_eq!(app.review_scroll, 2);
    app.handle(Key::Ctrl('q'));
    assert_eq!(app.screen, Screen::ConfirmQuit);
    let eff = app.handle(Key::Char('n'));
    assert!(matches!(eff, Effect::Stay));
    assert_eq!(app.screen, Screen::Review);
    assert_eq!(app.review_scroll, 2);
    assert!(app.prev_screen.is_none());
}

#[test]
fn confirm_quit_yes_quits() {
    let mut app = App::new();
    app.handle(Key::Ctrl('q'));
    let eff = app.handle(Key::Char('y'));
    assert!(matches!(eff, Effect::Quit));
}

#[test]
fn review_returns_to_ask_or_done() {
    let mut app = open_app(&["q"], &["a"]);
    app.handle(Key::Char('s'));
    app.handle(Key::Char('n'));
    app.handle(Key::Ctrl('r'));
    app.handle(Key::Esc);
    assert_eq!(app.screen, Screen::Ask);
    app.handle(Key::Enter);
    app.handle(Key::Char('n'));
    assert_eq!(app.screen, Screen::Done);
    app.handle(Key::Char('r'));
    assert_eq!(app.screen, Screen::Review);
    app.handle(Key::Esc);
    assert_eq!(app.screen, Screen::Done);
}

#[test]
fn deleting_last_card_clamps_selection() {
    let mut app = open_app(&["only"], &["one"]);
    app.handle(Key::Char('e'));
    assert_eq!(app.screen, Screen::CardList);
    app.handle(Key::Char('d'));
    let e = app.eng.as_ref().unwrap();
    assert!(e.questions.is_empty());
    assert!(e.answers.is_empty());
    assert!(e.order.is_empty());
    assert_eq!(app.selected_card, 0);
}

#[test]
fn card_list_edit_commits_question() {
    let mut app = open_app(&["old q", "other"], &["a1", "a2"]);
    app.handle(Key::Char('e'));
    app.handle(Key::Char('e'));
    assert_eq!(app.screen, Screen::EditQuestion);
    assert_eq!(app.input, "old q".chars().collect::<Vec<char>>());
    for _ in 0.."old q".len() {
        app.handle(Key::Backspace);
    }
    type_text(&mut app, "new q");
    app.handle(Key::Enter);
    assert_eq!(app.screen, Screen::CardList);
    assert_eq!(app.eng.as_ref().unwrap().questions[0], "new q");
    assert_eq!(app.eng.as_ref().unwrap().questions[1], "other");
}

#[test]
fn card_list_new_card_then_edit() {
    let mut app = open_app(&["q"], &["a"]);
    app.handle(Key::Char('e'));
    app.handle(Key::Char('n'));
    assert_eq!(app.screen, Screen::EditQuestion);
    assert_eq!(app.selected_card, 1);
    type_text(&mut app, "added");
    app.handle(Key::Enter);
    let e = app.eng.as_ref().unwrap();
    assert_eq!(e.questions, vec!["q", "added"]);
    assert_eq!(e.answers, vec!["a", ""]);
}

#[test]
fn edit_from_reveal_targets_current_card() {
    let mut app = open_app(&["q1", "q2"], &["a1", "a2"]);
    app.handle(Key::Char('s'));
    app.handle(Key::Char('n'));
    app.handle(Key::Enter);
    app.handle(Key::Char('n'));
    // Now on the second card's question.
    app.handle(Key::Enter);
    assert_eq!(app.screen, Screen::Reveal);
    app.handle(Key::Ctrl('a'));
    assert_eq!(app.screen, Screen::EditAnswer);
    assert_eq!(app.input, "a2".chars().collect::<Vec<char>>());
    type_text(&mut app, "!");
    app.handle(Key::Enter);
    assert_eq!(app.screen, Screen::Reveal);
    assert_eq!(app.eng.as_ref().unwrap().answers[1], "a2!");
}

#[test]
fn escape_discards_edit() {
    let mut app = open_app(&["keep"], &["a"]);
    app.handle(Key::Char('e'));
    app.handle(Key::Char('e'));
    type_text(&mut app, "XXX");
    app.handle(Key::Esc);
    assert_eq!(app.screen, Screen::CardList);
    assert_eq!(app.eng.as_ref().unwrap().questions[0], "keep");
}

#[test]
fn save_key_asks_for_deck_write() {
    let mut app = open_app(&["q"], &["a"]);
    app.handle(Key::Char('e'));
    let eff = app.handle(Key::Char('s'));
    assert!(matches!(eff, Effect::SaveDeck));
    assert_eq!(app.screen, Screen::CardList);
}

#[test]
fn back_from_main_menu_drops_engine() {
    let mut app = open_app(&["q"], &["a"]);
    app.handle(Key::Char('b'));
    assert_eq!(app.screen, Screen::TopicSelect);
    assert!(app.eng.is_none());
    assert!(app.current_topic.is_none());
}

#[test]
fn pointer_event_jumps_to_review() {
    let mut app = open_app(&["q"], &["a"]);
    app.pointer_review();
    assert_eq!(app.screen, Screen::Review);
}

#[test]
fn control_chord_without_meaning_inserts_its_character() {
    let mut app = open_app(&["q"], &["a"]);
    app.handle(Key::Char('s'));
    app.handle(Key::Char('n'));
    app.handle(Key::Ctrl('x'));
    assert_eq!(app.input, vec!['x']);
}

#[test]
fn ctrl_n_advances_from_reveal() {
    let mut app = open_app(&["q1", "q2"], &["a1", "a2"]);
    app.handle(Key::Char('s'));
    app.handle(Key::Char('n'));
    app.handle(Key::Enter);
    assert_eq!(app.screen, Screen::Reveal);
    app.handle(Key::Ctrl('n'));
    assert_eq!(app.screen, Screen::Ask);
    assert_eq!(app.eng.as_ref().unwrap().current, 1);
}

#[test]
fn plain_keys_do_nothing_on_reveal() {
    let mut app = open_app(&["q"], &["a"]);
    app.handle(Key::Char('s'));
    app.handle(Key::Char('n'));
    app.handle(Key::Enter);
    app.handle(Key::Char('r'));
    app.handle(Key::Char('e'));
    app.handle(Key::Char('a'));
    assert_eq!(app.screen, Screen::Reveal);
    assert_eq!(app.eng.as_ref().unwrap().current, 0);
}

#[test]
fn quit_guard_can_be_stacked_and_unwound() {
    let mut app = App::new();
    app.handle(Key::Ctrl('q'));
    assert_eq!(app.screen, Screen::ConfirmQuit);
    assert_eq!(app.prev_screen, Some(Screen::TopicSelect));
    app.handle(Key::Ctrl('q'));
    assert_eq!(app.prev_screen, Some(Screen::ConfirmQuit));
    app.handle(Key::Char('n'));
    assert_eq!(app.screen, Screen::ConfirmQuit);
    assert!(app.prev_screen.is_none());
    app.handle(Key::Char('n'));
    assert_eq!(app.screen, Screen::ConfirmQuit);
}

#[test]
fn topic_create_escape_returns_to_selection() {
    let mut app = App::new();
    app.handle(Key::Char('c'));
    type_text(&mut app, "abc");
    app.handle(Key::Esc);
    assert_eq!(app.screen, Screen::TopicSelect);
}

#[test]
fn topic_name_editing_uses_cursor() {
    let mut app = App::new();
    app.handle(Key::Char('c'));
    type_text(&mut app, "bd");
    app.handle(Key::Left);
    app.handle(Key::Char('c'));
    assert_eq!(app.topic_input, vec!['b', 'c', 'd']);
    let eff = app.handle(Key::Enter);
    match eff {
        Effect::OpenTopic { name, register } => {
            assert_eq!(name, "bcd");
            assert!(register);
        }
        _ => panic!("a typed topic name must be opened"),
    }
    assert!(app.topic_input.is_empty());
}

#[test]
fn mode_screen_ignores_other_keys() {
    let mut app = open_app(&["q"], &["a"]);
    app.handle(Key::Char('s'));
    app.handle(Key::Char('x'));
    app.handle(Key::Enter);
    assert_eq!(app.screen, Screen::Mode);
}

#[test]
fn review_ctrl_b_goes_back() {
    let mut app = open_app(&["q"], &["a"]);
    app.handle(Key::Char('s'));
    app.handle(Key::Char('n'));
    app.handle(Key::Ctrl('r'));
    app.handle(Key::Ctrl('b'));
    assert_eq!(app.screen, Screen::Ask);
}

#[test]
fn random_mode_from_mode_screen() {
    let mut app = open_app(&["a", "b", "c", "d", "e"], &["1", "2", "3", "4", "5"]);
    app.handle(Key::Char('s'));
    app.handle(Key::Char('y'));
    assert_eq!(app.screen, Screen::Ask);
    let e = app.eng.as_ref().unwrap();
    assert!(e.random);
    let mut sorted = e.order.clone();
    sorted.sort();
    assert_eq!(sorted, vec![0, 1, 2, 3, 4]);
}
