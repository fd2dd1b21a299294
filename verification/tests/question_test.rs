use wwtm_project::question::Question;
use wwtm_project::question_list::{file_index_for_draw, file_selector, QuestionList};

#[test]
fn test_question() {
    let _str = String::from(
    "Кой град е столица на България?/
    София/
    Пловдив/
    Варна/
    Бургас/
    a"
    );

    let question_test = Question::new(_str);
    assert_eq!("Кой град е столица на България?",question_test.question);
    assert_eq!("София",question_test.answer_1);
    assert_eq!("Пловдив",question_test.answer_2);
    assert_eq!("Варна",question_test.answer_3);
    assert_eq!("Бургас",question_test.answer_4);
    assert_eq!('a',question_test.correct_answer);
}

#[test]
fn test_question_list() {
    let lines = vec![
        String::from("Коя година сме сега?/2019/2020/2021/2022/c"),
        String::from("Колко месеца има в годината?/10/11/12/13/c"),
        String::from("Колко дни има седмицата?/5/6/7/8/c"),
    ];
    let mut question_list = QuestionList::new(lines);
    assert_eq!("Коя година сме сега?",question_list.next().unwrap().question);
    assert_eq!("Колко месеца има в годината?",question_list.next().unwrap().question);
}

#[test]
fn question_offers_all_answers_and_keeps_extra_parts_out() {
    let q = Question::new(String::from(" Q? / A1 /A2/ A3/A4 / d / extra / more"));
    assert_eq!(q.question, "Q?");
    assert_eq!(q.answer_1, "A1");
    assert_eq!(q.answer_2, "A2");
    assert_eq!(q.answer_3, "A3");
    assert_eq!(q.answer_4, "A4");
    assert_eq!(q.correct_answer, 'd');
    assert!(q.a1_show && q.a2_show && q.a3_show && q.a4_show);
}

#[test]
fn question_letter_is_first_character_of_sixth_part() {
    let q = Question::new(String::from("q/w/e/r/t/ bcd "));
    assert_eq!(q.correct_answer, 'b');
}

#[test]
fn question_trims_unicode_white_space() {
    let q = Question::new(String::from("\u{3000}\tQ\u{a0}/\r\nA\u{2003}B\u{85}/x/y/z/\u{2028}c"));
    assert_eq!(q.question, "Q");
    assert_eq!(q.answer_1, "A\u{2003}B");
    assert_eq!(q.correct_answer, 'c');
}

#[test]
fn question_keeps_empty_answers() {
    let q = Question::new(String::from("Q//  /x/ /a"));
    assert_eq!(q.answer_1, "");
    assert_eq!(q.answer_2, "");
    assert_eq!(q.answer_4, "");
}

#[test]
fn question_line_check() {
    assert!(Question::is_question_line("q/a/b/c/d/a"));
    assert!(Question::is_question_line("q/a/b/c/d/a/"));
    assert!(!Question::is_question_line("q/a/b/c/d"));
    assert!(!Question::is_question_line("q/a/b/c/d/   "));
    assert!(!Question::is_question_line("q/a/b/c/d/"));
    assert!(!Question::is_question_line(""));
}

#[test]
fn question_clone_is_equal() {
    let q = Question::new(String::from("q/a/b/c/d/b"));
    let r = q.clone();
    assert_eq!(r.question, q.question);
    assert_eq!(r.answer_3, q.answer_3);
    assert_eq!(r.correct_answer, q.correct_answer);
}

#[test]
fn question_list_hands_out_in_order_then_none() {
    let lines = vec![
        String::from("one/a/b/c/d/a"),
        String::from("two/a/b/c/d/b"),
    ];
    let mut list = QuestionList::new(lines);
    assert_eq!(list.question_list().len(), 2);
    assert!(list.has_next());
    assert_eq!(list.next().unwrap().question, "one");
    assert!(list.has_next());
    let second = list.next().unwrap();
    assert_eq!(second.question, "two");
    assert_eq!(second.correct_answer, 'b');
    assert!(!list.has_next());
    assert!(list.next().is_none());
    assert!(list.next().is_none());
    assert_eq!(list.question_list().len(), 2);
}

#[test]
fn empty_question_list_has_nothing() {
    let mut list = QuestionList::new(Vec::new());
    assert!(!list.has_next());
    assert!(list.next().is_none());
}

#[test]
fn file_draws_map_to_files() {
    assert_eq!(file_index_for_draw(1), Some(0));
    assert_eq!(file_index_for_draw(2), Some(1));
    assert_eq!(file_index_for_draw(3), Some(2));
    assert_eq!(file_index_for_draw(0), None);
    assert_eq!(file_index_for_draw(4), None);
}

#[test]
fn file_selector_picks_one_of_three() {
    for _ in 0..50 {
        let k = file_selector().unwrap();
        assert!(k < 3);
    }
}

#[test]
fn clean_parts_joined_with_slashes_read_back() {
    let parts = ["Q?", "one", "two", "three", "four", "c"];
    let q = Question::new(parts.join("/"));
    assert_eq!(q.question, parts[0]);
    assert_eq!(q.answer_1, parts[1]);
    assert_eq!(q.answer_2, parts[2]);
    assert_eq!(q.answer_3, parts[3]);
    assert_eq!(q.answer_4, parts[4]);
    assert_eq!(q.correct_answer, 'c');
    assert!(Question::is_question_line(&parts.join("/")));
}

#[test]
fn file_selector_draws_at_random() {
    let mut seen = [false; 3];
    for _ in 0..300 {
        seen[file_selector().unwrap()] = true;
    }
    assert!(seen.iter().filter(|b| **b).count() >= 2);
}
