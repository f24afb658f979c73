use flashcards::deck::{DeckError, FlashCardEngine};

fn lines(xs: &[&str]) -> Vec<String> {
    xs.iter().map(|s| s.to_string()).collect()
}

#[test]
fn load_normalizes_lines() {
    let e = FlashCardEngine::from_files(
        &lines(&["  a  ", "", "   ", "b", "\tc\t"]),
        &lines(&["1", "2", "3"]),
    )
    .unwrap();
    assert_eq!(e.questions, vec!["a", "b", "c"]);
    assert_eq!(e.answers, vec!["1", "2", "3"]);
    assert_eq!(e.order, vec![0, 1, 2]);
    assert_eq!(e.current, 0);
    assert!(!e.random);
    assert_eq!(e.responses, vec![None, None, None]);
}

#[test]
fn load_mismatch_reports_both_counts() {
    let r = FlashCardEngine::from_files(&lines(&["q1", "q2", "q3"]), &lines(&["a1", "a2"]));
    match r {
        Err(DeckError::Mismatch { questions, answers }) => {
            assert_eq!(questions, 3);
            assert_eq!(answers, 2);
        }
        Ok(_) => panic!("a mismatched deck must not load"),
    }
}

#[test]
fn mismatch_counts_use_normalized_lines() {
    // The blank question line disappears on load, so the counts match.
    let r = FlashCardEngine::from_files(&lines(&["q1", "  ", "q2"]), &lines(&["a1", "a2"]));
    assert!(r.is_ok());
}

#[test]
fn single_card_session() {
    // Deck ["2+2?"] / ["4"], sequential mode.
    let mut e = FlashCardEngine::from_files(&lines(&["2+2?"]), &lines(&["4"])).unwrap();
    e.set_mode(false);
    let (idx, q, a) = e.current_card().unwrap();
    assert_eq!(idx, 0);
    assert_eq!(q, "2+2?");
    assert_eq!(a, "4");
    e.record(0, "4".to_string());
    e.next();
    assert!(e.done());
    let (num, den) = e.progress();
    assert_eq!((num, den), (1, 1));
    assert_eq!(num as f64 / den as f64, 1.0);
}

#[test]
fn sequential_mode_is_identity() {
    let mut e = FlashCardEngine::from_files(
        &lines(&["a", "b", "c", "d"]),
        &lines(&["1", "2", "3", "4"]),
    )
    .unwrap();
    e.set_mode(true);
    e.set_mode(false);
    assert_eq!(e.order, vec![0, 1, 2, 3]);
    assert_eq!(e.current, 0);
}

#[test]
fn random_mode_is_a_permutation() {
    let qs: Vec<String> = (0..12).map(|i| format!("q{i}")).collect();
    let ans: Vec<String> = (0..12).map(|i| format!("a{i}")).collect();
    let mut e = FlashCardEngine::from_files(&qs, &ans).unwrap();
    e.set_mode(true);
    assert_eq!(e.current, 0);
    assert!(e.random);
    let mut sorted = e.order.clone();
    sorted.sort();
    assert_eq!(sorted, (0..12).collect::<Vec<usize>>());
}

#[test]
fn progress_is_monotonic_and_reaches_one() {
    let mut e =
        FlashCardEngine::from_files(&lines(&["a", "b", "c"]), &lines(&["1", "2", "3"])).unwrap();
    e.set_mode(false);
    let mut last = 0.0_f64;
    while !e.done() {
        let (num, den) = e.progress();
        let ratio = num as f64 / den as f64;
        assert!(ratio >= last);
        last = ratio;
        e.next();
    }
    let (num, den) = e.progress();
    assert_eq!(num as f64 / den as f64, 1.0);
}

#[test]
fn empty_deck_progress_divides_cleanly() {
    let e = FlashCardEngine::from_files(&lines(&[]), &lines(&[])).unwrap();
    assert!(e.done());
    let (num, den) = e.progress();
    assert_eq!((num, den), (0, 1));
}

#[test]
fn recording_twice_keeps_latest() {
    let mut e = FlashCardEngine::from_files(&lines(&["a", "b"]), &lines(&["1", "2"])).unwrap();
    e.record(0, "first".to_string());
    e.record(0, "second".to_string());
    assert_eq!(e.responses[0].as_deref(), Some("second"));
    assert_eq!(e.responses[1], None);
    assert_eq!(e.responses.len(), 2);
}

#[test]
fn answered_any_tracks_responses() {
    let mut e = FlashCardEngine::from_files(&lines(&["a"]), &lines(&["1"])).unwrap();
    assert!(!e.answered_any());
    e.record(0, String::new());
    assert!(e.answered_any());
}

#[test]
fn seen_follows_recording() {
    let mut e = FlashCardEngine::from_files(&lines(&["a", "b"]), &lines(&["1", "2"])).unwrap();
    assert!(!e.seen(0));
    assert!(!e.seen(1));
    assert!(!e.seen(7));
    e.record(1, "x".to_string());
    assert!(e.seen(1));
    assert!(!e.seen(0));
}

#[test]
fn structural_edits_keep_lists_parallel() {
    let mut e = FlashCardEngine::from_files(&lines(&["a"]), &lines(&["1"])).unwrap();
    e.add_card();
    assert_eq!(e.questions, vec!["a", ""]);
    assert_eq!(e.answers, vec!["1", ""]);
    assert_eq!(e.order, vec![0, 1]);
    e.delete_card(0);
    assert_eq!(e.questions, vec![""]);
    assert_eq!(e.answers, vec![""]);
    assert_eq!(e.order, vec![0]);
}

#[test]
fn deleting_only_card_empties_deck() {
    let mut e = FlashCardEngine::from_files(&lines(&["q"]), &lines(&["a"])).unwrap();
    e.delete_card(0);
    assert!(e.questions.is_empty());
    assert!(e.answers.is_empty());
    assert!(e.order.is_empty());
    assert_eq!(e.current, 0);
}

#[test]
fn persist_then_load_round_trips() {
    let mut e = FlashCardEngine::from_files(&lines(&["a", "b"]), &lines(&["1", "2"])).unwrap();
    e.set_question_text(1, "brand new".to_string());
    e.set_answer_text(0, "one".to_string());
    e.add_card();
    e.set_question_text(2, "third".to_string());
    e.set_answer_text(2, "3".to_string());
    let (qs, ans) = e.persist_edits();
    let reloaded = FlashCardEngine::from_files(&qs, &ans).unwrap();
    assert_eq!(reloaded.questions, e.questions);
    assert_eq!(reloaded.answers, e.answers);
}

#[test]
fn transcript_lists_cards_in_study_order() {
    let mut e = FlashCardEngine::from_files(&lines(&["q1", "q2"]), &lines(&["a1", "a2"])).unwrap();
    e.set_mode(false);
    e.record(0, "mine".to_string());
    e.next();
    let (name, lines_out) = e.save_session();
    assert!(name.starts_with("flashcard_responses_"));
    assert!(name.ends_with(".txt"));
    let sep = "-".repeat(60);
    let expected: Vec<String> = vec![
        "Q1 (#1)",
        "q1",
        "",
        "Your answer:",
        "mine",
        "",
        "Correct:",
        "a1",
        "",
        sep.as_str(),
        "",
        "Q2 (#2)",
        "q2",
        "",
        "Your answer:",
        "(none)",
        "",
        "Correct:",
        "a2",
        "",
        sep.as_str(),
        "",
    ]
    .into_iter()
    .map(|s| s.to_string())
    .collect();
    assert_eq!(lines_out, expected);
}

#[test]
fn transcript_positions_follow_shuffled_order() {
    let qs: Vec<String> = (1..=11).map(|i| format!("q{i}")).collect();
    let ans: Vec<String> = (1..=11).map(|i| format!("a{i}")).collect();
    let mut e = FlashCardEngine::from_files(&qs, &ans).unwrap();
    e.set_mode(true);
    let (_, lines_out) = e.save_session();
    assert_eq!(lines_out.len(), 11 * 11);
    for (i, &idx) in e.order.iter().enumerate() {
        let head = &lines_out[11 * i];
        assert_eq!(head, &format!("Q{} (#{})", i + 1, idx + 1));
        assert_eq!(lines_out[11 * i + 1], format!("q{}", idx + 1));
        assert_eq!(lines_out[11 * i + 7], format!("a{}", idx + 1));
    }
}
