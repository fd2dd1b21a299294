use wwtm_project::game::{
    score_board, AnswerState, Cue, GameState, Key, Screen, TimerReset, UpdateStart,
};
use wwtm_project::jokers::{draw_fifty_fifty, draw_removal, friend_weights, tally_votes};
use wwtm_project::question_list::QuestionList;
use wwtm_project::random::new_thread_rng;

fn game_with(letters: &[char]) -> GameState {
    let lines: Vec<String> = letters
        .iter()
        .enumerate()
        .map(|(i, c)| format!("q{}/a1/a2/a3/a4/{}", i, c))
        .collect();
    GameState::new(QuestionList::new(lines))
}

fn shown(gs: &GameState) -> [bool; 4] {
    let q = &gs.current_question;
    [q.a1_show, q.a2_show, q.a3_show, q.a4_show]
}

fn answer_right_now(gs: &mut GameState) {
    let c = gs.current_question.correct_answer;
    gs.mark_answer(c);
    gs.begin_ticks(false);
    gs.tick(true, true);
}

#[test]
fn new_game_starts_on_first_question() {
    let gs = game_with(&['a', 'b']);
    assert_eq!(gs.current_question.question, "q0");
    assert_eq!(gs.current_question_index, 0);
    assert_eq!(gs.current_score, 0);
    assert_eq!(gs.saved_score, 0);
    assert_eq!(gs.answer_marked, ' ');
    assert_eq!(gs.answer_state, AnswerState::NotMarked);
    assert!(gs.next_question);
    assert!(!gs.game_over && !gs.has_won && !gs.player_resigned);
    assert!(!gs.fifty_fifty_used && !gs.help_public && !gs.friend_call);
    assert!(gs.questions.has_next());
    assert_eq!(gs.score_board, score_board());
}

#[test]
fn prizes_of_the_board() {
    assert_eq!(
        score_board(),
        vec![0, 50, 100, 200, 300, 500, 750, 1000, 1500, 2000, 2500, 5000, 10000, 25000, 50000, 100000]
    );
}

#[test]
fn friend_weights_follow_confidence() {
    assert_eq!(friend_weights(0, 'a'), [300, 0, 0, 0]);
    assert_eq!(friend_weights(4, 'd'), [0, 0, 0, 300]);
    assert_eq!(friend_weights(5, 'b'), [10, 270, 10, 10]);
    assert_eq!(friend_weights(8, 'c'), [35, 35, 195, 35]);
    assert_eq!(friend_weights(10, 'a'), [150, 50, 50, 50]);
    assert_eq!(friend_weights(11, 'a'), [105, 65, 65, 65]);
    assert_eq!(friend_weights(12, 'b'), [75, 75, 75, 75]);
    assert_eq!(friend_weights(13, 'c'), [85, 85, 45, 85]);
    assert_eq!(friend_weights(14, 'd'), [95, 95, 95, 15]);
    assert_eq!(friend_weights(15, 'c'), [0, 0, 300, 0]);
    assert_eq!(friend_weights(7, 'x'), [1, 1, 1, 1]);
}

#[test]
fn fifty_fifty_takes_wrong_answers_by_draw() {
    let mut gs = game_with(&['a']);
    gs.joker_50_50(1, 2);
    assert_eq!(shown(&gs), [true, false, false, true]);

    let mut gs = game_with(&['b']);
    gs.joker_50_50(2, 1);
    assert_eq!(shown(&gs), [false, true, false, true]);

    let mut gs = game_with(&['c']);
    gs.joker_50_50(1, 2);
    assert_eq!(shown(&gs), [false, false, true, true]);

    let mut gs = game_with(&['d']);
    gs.joker_50_50(2, 1);
    assert_eq!(shown(&gs), [false, false, true, true]);

    let mut gs = game_with(&['x']);
    gs.joker_50_50(1, 2);
    assert_eq!(shown(&gs), [true, true, true, true]);
}

#[test]
fn fifty_fifty_with_random_draws_keeps_right_answer_and_one_wrong() {
    let mut rng = new_thread_rng();
    for letter in ['a', 'b', 'c', 'd'] {
        for _ in 0..10 {
            let mut gs = game_with(&[letter]);
            let (first, second) = draw_fifty_fifty(&mut rng);
            assert!(second == 1 || second == 2);
            assert_ne!(first, second);
            assert!(first == 1 || first == 2);
            gs.use_fifty_fifty(first, second);
            let s = shown(&gs);
            let right = (letter as u8 - b'a') as usize;
            assert!(s[right]);
            assert_eq!(s.iter().filter(|b| **b).count(), 2);
        }
    }
}

#[test]
fn fifty_fifty_is_used_once() {
    let mut gs = game_with(&['a']);
    gs.use_fifty_fifty(1, 2);
    assert!(gs.fifty_fifty_used);
    assert_eq!(shown(&gs), [true, false, false, true]);
    gs.use_fifty_fifty(2, 1);
    assert_eq!(shown(&gs), [true, false, false, true]);
}

#[test]
fn friend_is_sure_on_first_questions() {
    let mut rng = new_thread_rng();
    for letter in ['a', 'b', 'c', 'd'] {
        let gs = game_with(&[letter]);
        for _ in 0..20 {
            assert_eq!(gs.friend_call(&mut rng), letter);
        }
    }
}

#[test]
fn friend_names_a_letter_late_in_the_game() {
    let mut rng = new_thread_rng();
    let mut gs = game_with(&['b'; 15]);
    for _ in 0..14 {
        answer_right_now(&mut gs);
    }
    assert_eq!(gs.current_question_index, 14);
    for _ in 0..50 {
        let c = gs.friend_call(&mut rng);
        assert!(['a', 'b', 'c', 'd'].contains(&c));
    }
}

#[test]
fn audience_is_unanimous_on_first_questions() {
    let mut rng = new_thread_rng();
    assert_eq!(game_with(&['a']).help_public(&mut rng), (99, 0, 0, 0));
    assert_eq!(game_with(&['c']).help_public(&mut rng), (0, 0, 99, 0));
    assert_eq!(game_with(&['x']).help_public(&mut rng).0 <= 99, true);
}

#[test]
fn audience_votes_stay_within_rounds() {
    let mut rng = new_thread_rng();
    let mut gs = game_with(&['d'; 12]);
    for _ in 0..11 {
        answer_right_now(&mut gs);
    }
    let t = gs.help_public(&mut rng);
    assert!(t.0 <= 99 && t.1 <= 99 && t.2 <= 99 && t.3 <= 99);
}

#[test]
fn audience_joker_is_used_once() {
    let mut rng = new_thread_rng();
    let mut gs = game_with(&['b', 'a']);
    gs.use_help_public(&mut rng);
    assert!(gs.help_public);
    assert_eq!(gs.answer_public, (0, 99, 0, 0));
    assert_eq!(gs.help_public_index, 0);
    assert!(gs.public_answer_visible());
    answer_right_now(&mut gs);
    assert!(!gs.public_answer_visible());
    gs.use_help_public(&mut rng);
    assert_eq!(gs.answer_public, (0, 99, 0, 0));
    assert_eq!(gs.help_public_index, 0);
}

#[test]
fn phone_joker_is_used_once() {
    let mut rng = new_thread_rng();
    let mut gs = game_with(&['c', 'a']);
    assert!(!gs.friend_answer_visible());
    gs.use_friend_call(&mut rng);
    assert!(gs.friend_call);
    assert_eq!(gs.answer_friend, 'c');
    assert_eq!(gs.friend_call_index, 0);
    assert!(gs.friend_answer_visible());
    answer_right_now(&mut gs);
    gs.use_friend_call(&mut rng);
    assert_eq!(gs.answer_friend, 'c');
    assert!(!gs.friend_answer_visible());
}

#[test]
fn keys_resign_or_quit() {
    let mut gs = game_with(&['a']);
    assert!(!gs.key_down_event(Key::Other));
    assert!(!gs.player_resigned);
    assert!(gs.key_down_event(Key::Escape));
    assert!(!gs.player_resigned);
    assert!(!gs.key_down_event(Key::R));
    assert!(gs.player_resigned);
}

#[test]
fn resigning_keeps_current_score_and_ends_the_game() {
    let mut gs = game_with(&['a', 'b', 'c', 'd']);
    answer_right_now(&mut gs);
    answer_right_now(&mut gs);
    assert_eq!(gs.current_score, 100);
    assert_eq!(gs.begin_update(), UpdateStart::Continue);
    gs.key_down_event(Key::R);
    assert_eq!(gs.begin_update(), UpdateStart::Resigned);
    assert_eq!(gs.saved_score, 100);
    assert!(gs.game_over);
    assert_eq!(gs.screen(), Screen::GameOver);
    assert_eq!(gs.begin_update(), UpdateStart::Over);
    assert_eq!(gs.saved_score, 100);
}

#[test]
fn long_transition_on_checkpoints() {
    let mut gs = game_with(&['a'; 6]);
    assert!(!gs.begin_ticks(true));
    for _ in 0..4 {
        answer_right_now(&mut gs);
    }
    assert_eq!(gs.current_question_index, 4);
    gs.next_question = true;
    assert!(gs.begin_ticks(true));
    assert!(!gs.next_question);
    assert!(!gs.begin_ticks(false));
}

#[test]
fn tick_without_marked_answer_only_shows_score() {
    let mut gs = game_with(&['a', 'b']);
    let step = gs.tick(true, true);
    assert!(!step.decrement_marked && !step.decrement_transition);
    assert_eq!(step.reset, TimerReset::Keep);
    assert!(step.cues.is_empty());
    assert_eq!(gs.current_question_index, 0);
    assert_eq!(gs.current_score, 0);
}

#[test]
fn tick_before_time_runs_out_only_counts_down() {
    let mut gs = game_with(&['a', 'b']);
    gs.mark_answer('b');
    assert_eq!(gs.answer_state, AnswerState::Marked);
    assert_eq!(gs.marked_slot(), Some(1));
    let step = gs.tick(false, true);
    assert!(step.decrement_marked && !step.decrement_transition);
    assert!(step.cues.is_empty());
    assert_eq!(gs.answer_state, AnswerState::Marked);
    assert!(!gs.game_over);
}

#[test]
fn wrong_answer_ends_the_game_after_transition() {
    let mut gs = game_with(&['a', 'b']);
    gs.mark_answer('c');
    let step = gs.tick(true, false);
    assert!(step.decrement_marked && step.decrement_transition);
    assert_eq!(step.cues, vec![Cue::StopTheme, Cue::PlayWrongAnswer]);
    assert_eq!(gs.answer_state, AnswerState::Wrong);
    assert!(!gs.game_over);
    let step = gs.tick(true, true);
    assert_eq!(step.reset, TimerReset::Keep);
    assert!(gs.game_over);
    assert_eq!(gs.saved_score, 0);
    assert_eq!(gs.screen(), Screen::GameOver);
    assert_eq!(gs.begin_update(), UpdateStart::Over);
}

#[test]
fn right_answer_moves_on_after_transition() {
    let mut gs = game_with(&['a', 'b']);
    gs.mark_answer('a');
    assert!(!gs.begin_ticks(false));
    let step = gs.tick(true, false);
    assert_eq!(step.cues, vec![Cue::PlayRightAnswer]);
    assert_eq!(step.reset, TimerReset::Keep);
    assert_eq!(gs.answer_state, AnswerState::Correct);
    assert_eq!(gs.current_question_index, 0);
    let step = gs.tick(true, true);
    assert_eq!(step.reset, TimerReset::Regular);
    assert_eq!(step.cues, vec![Cue::PlayRightAnswer]);
    assert_eq!(gs.current_question_index, 1);
    assert_eq!(gs.current_question.question, "q1");
    assert_eq!(gs.answer_marked, ' ');
    assert_eq!(gs.marked_slot(), None);
    assert_eq!(gs.answer_state, AnswerState::NotMarked);
    assert_eq!(gs.current_score, 50);
    assert_eq!(gs.saved_score, 0);
    assert_eq!(gs.screen(), Screen::Playing);
}

#[test]
fn fifth_question_saves_five_hundred() {
    let mut gs = game_with(&['c'; 7]);
    for _ in 0..4 {
        answer_right_now(&mut gs);
    }
    assert_eq!(gs.current_score, 300);
    gs.mark_answer('c');
    gs.begin_ticks(false);
    let step = gs.tick(true, false);
    assert_eq!(step.cues, vec![Cue::PauseTheme, Cue::PlaySavedScore]);
    assert_eq!(gs.saved_score, 500);
    let step = gs.tick(true, true);
    assert_eq!(step.reset, TimerReset::Checkpoint);
    assert_eq!(
        step.cues,
        vec![Cue::PauseTheme, Cue::PlaySavedScore, Cue::StopSavedScore, Cue::ResumeTheme]
    );
    assert_eq!(gs.current_question_index, 5);
    assert_eq!(gs.current_score, 500);
    assert_eq!(gs.saved_score, 500);
}

#[test]
fn tenth_question_saves_two_thousand_five_hundred() {
    let mut gs = game_with(&['d'; 11]);
    for _ in 0..9 {
        answer_right_now(&mut gs);
    }
    assert_eq!(gs.saved_score, 500);
    gs.mark_answer('d');
    gs.begin_ticks(false);
    let step = gs.tick(true, true);
    assert_eq!(step.reset, TimerReset::Checkpoint);
    assert_eq!(
        step.cues,
        vec![Cue::PauseTheme, Cue::PlaySavedScore, Cue::PauseSavedScore, Cue::PlayTheme]
    );
    assert_eq!(gs.saved_score, 2500);
    assert_eq!(gs.current_question_index, 10);
    assert_eq!(gs.current_score, 2500);
}

#[test]
fn last_right_answer_wins_the_game() {
    let mut gs = game_with(&['b'; 15]);
    for _ in 0..14 {
        answer_right_now(&mut gs);
    }
    assert_eq!(gs.current_question_index, 14);
    assert_eq!(gs.current_score, 50000);
    gs.mark_answer('b');
    gs.begin_ticks(false);
    let step = gs.tick(true, false);
    assert!(!step.decrement_transition);
    assert_eq!(step.reset, TimerReset::Keep);
    assert_eq!(step.cues, vec![Cue::PlayWin, Cue::StopTheme]);
    assert!(gs.has_won);
    assert_eq!(gs.saved_score, 100000);
    assert_eq!(gs.current_question_index, 15);
    assert_eq!(gs.current_score, 100000);
    assert_eq!(gs.screen(), Screen::Won);
    // the index stays on the board
    gs.tick(true, true);
    assert_eq!(gs.current_question_index, 15);
    assert_eq!(gs.current_score, 100000);
}

#[test]
fn running_out_of_questions_wins_early() {
    let mut gs = game_with(&['a', 'a']);
    answer_right_now(&mut gs);
    assert!(!gs.has_won);
    gs.mark_answer('a');
    gs.begin_ticks(false);
    let step = gs.tick(true, true);
    assert_eq!(step.cues, vec![Cue::PlayRightAnswer, Cue::PlayWin, Cue::StopTheme]);
    assert!(gs.has_won);
    assert_eq!(gs.current_question_index, 2);
    assert_eq!(gs.answer_state, AnswerState::Correct);
}

#[test]
fn a_due_question_comes_at_once_within_the_same_update() {
    let mut gs = game_with(&['a', 'b', 'c']);
    gs.mark_answer('a');
    gs.begin_ticks(false);
    gs.tick(true, true);
    assert_eq!(gs.current_question_index, 1);
    // still in the same update: a question is already due, so the next right
    // answer moves on without waiting for the transition
    gs.mark_answer('b');
    let step = gs.tick(true, false);
    assert_eq!(step.reset, TimerReset::Keep);
    assert_eq!(gs.current_question_index, 2);
    assert_eq!(gs.current_question.question, "q2");
}

#[test]
fn removal_draws_take_both_values() {
    let mut rng = new_thread_rng();
    let mut seen = [false; 3];
    for _ in 0..200 {
        let r = draw_removal(&mut rng);
        assert!(r == 1 || r == 2);
        seen[r as usize] = true;
    }
    assert!(seen[1] && seen[2]);
}

#[test]
fn unsure_friend_names_several_answers() {
    let mut rng = new_thread_rng();
    let mut gs = game_with(&['a'; 15]);
    for _ in 0..14 {
        answer_right_now(&mut gs);
    }
    let mut seen = std::collections::HashSet::new();
    for _ in 0..200 {
        seen.insert(gs.friend_call(&mut rng));
    }
    assert!(seen.len() >= 2);
}

#[test]
fn tally_counts_the_kth_ask_of_each_round_for_letter_k() {
    let mut asks = Vec::new();
    for r in 0..99 {
        if r < 10 {
            asks.extend_from_slice(&['a', 'b', 'c', 'd']);
        } else if r < 30 {
            asks.extend_from_slice(&['b', 'b', 'b', 'b']);
        } else {
            asks.extend_from_slice(&['d', 'a', 'c', 'b']);
        }
    }
    // rounds 0..10 vote for every letter, rounds 10..30 only for b,
    // rounds 30..99 only for c
    assert_eq!(tally_votes(&asks), (10, 30, 79, 10));
    let same = vec!['a'; 396];
    assert_eq!(tally_votes(&same), (99, 0, 0, 0));
}

#[test]
fn fifty_fifty_draws_differ_and_both_orders_occur() {
    let mut rng = new_thread_rng();
    let mut seen = [false; 2];
    for _ in 0..200 {
        let (first, second) = draw_fifty_fifty(&mut rng);
        assert!((first, second) == (1, 2) || (first, second) == (2, 1));
        seen[(first - 1) as usize] = true;
    }
    assert!(seen[0] && seen[1]);
}
