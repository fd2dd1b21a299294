//! A quiz question: its text, four answers and the letter of the right one.

use vstd::prelude::*;

use crate::text::{
    chars_of, free_of, join_with, lemma_split_join, separator_positions, split_on, trim,
    trimmed_piece_bounds,
};

verus! {

/// The separator between the parts of a question line.
pub const FIELD_SEPARATOR: char = '/';

/// Part `k` of a question line, trimmed.
pub open spec fn line_field(line: Seq<char>, k: int) -> Seq<char> {
    trim(split_on(line, FIELD_SEPARATOR)[k])
}

/// A question line: at least six parts separated by `/` (question, four
/// answers, the right answer's letter), the sixth one not blank.
pub open spec fn is_question_line(line: Seq<char>) -> bool {
    &&& split_on(line, FIELD_SEPARATOR).len() >= 6
    &&& line_field(line, 5).len() > 0
}

/// A question with four answers and the letter (`a` to `d`) of the right one.
/// The `aN_show` flags tell which answers are still offered: the 50/50 joker
/// clears two of them.
pub struct Question {
    pub question: String,
    pub answer_1: String,
    pub answer_2: String,
    pub answer_3: String,
    pub answer_4: String,
    pub correct_answer: char,
    pub a1_show: bool,
    pub a2_show: bool,
    pub a3_show: bool,
    pub a4_show: bool,
}

/// The characters of `text` in piece `k` of a line, trimmed, as a `String`.
fn line_piece(text: &str, v: &Vec<char>, seps: &Vec<usize>, k: usize) -> (res: String)
    requires
        v@ == text@,
        crate::text::separators_of(v@, FIELD_SEPARATOR, seps@),
        k <= seps.len(),
    ensures
        res@ == line_field(text@, k as int),
{
    let (a, b): (usize, usize) = trimmed_piece_bounds(v, FIELD_SEPARATOR, seps, k);
    String::from_str(text.substring_char(a, b))
}

/// `q` is what `Question::new` makes of `line`.
pub open spec fn reads_as(q: Question, line: Seq<char>) -> bool {
    &&& q.question@ == line_field(line, 0)
    &&& q.answer_1@ == line_field(line, 1)
    &&& q.answer_2@ == line_field(line, 2)
    &&& q.answer_3@ == line_field(line, 3)
    &&& q.answer_4@ == line_field(line, 4)
    &&& q.correct_answer == line_field(line, 5)[0]
    &&& q.a1_show && q.a2_show && q.a3_show && q.a4_show
}

impl Clone for Question {
    fn clone(&self) -> (res: Self)
        ensures
            res == *self,
    {
        Question {
            question: self.question.clone(),
            answer_1: self.answer_1.clone(),
            answer_2: self.answer_2.clone(),
            answer_3: self.answer_3.clone(),
            answer_4: self.answer_4.clone(),
            correct_answer: self.correct_answer,
            a1_show: self.a1_show,
            a2_show: self.a2_show,
            a3_show: self.a3_show,
            a4_show: self.a4_show,
        }
    }
}

impl Question {
    /// Reads a question from a line `question / answer 1 / answer 2 / answer 3 /
    /// answer 4 / letter`; every part is trimmed, the letter is the first
    /// character of the sixth part, and all four answers are offered.
    pub fn new(qustion_info: String) -> (q: Question)
        requires
            is_question_line(qustion_info@),
        ensures
            reads_as(q, qustion_info@),
    {
        let text = qustion_info.as_str();
        let v = chars_of(text);
        let seps = separator_positions(&v, FIELD_SEPARATOR);
        let question = line_piece(text, &v, &seps, 0);
        let answer_1 = line_piece(text, &v, &seps, 1);
        let answer_2 = line_piece(text, &v, &seps, 2);
        let answer_3 = line_piece(text, &v, &seps, 3);
        let answer_4 = line_piece(text, &v, &seps, 4);
        let (a, b): (usize, usize) = trimmed_piece_bounds(&v, FIELD_SEPARATOR, &seps, 5);
        assert(v@.subrange(a as int, b as int)[0] == v@[a as int]);
        Question {
            question,
            answer_1,
            answer_2,
            answer_3,
            answer_4,
            correct_answer: v[a],
            a1_show: true,
            a2_show: true,
            a3_show: true,
            a4_show: true,
        }
    }

    /// Tells whether `line` can be read as a question by `Question::new`.
    pub fn is_question_line(line: &str) -> (ok: bool)
        ensures
            ok == is_question_line(line@),
    {
        let v = chars_of(line);
        let seps = separator_positions(&v, FIELD_SEPARATOR);
        if seps.len() < 5 {
            return false;
        }
        let (a, b): (usize, usize) = trimmed_piece_bounds(&v, FIELD_SEPARATOR, &seps, 5);
        a < b
    }
}

/// A line written from six parts, each free of `/` and already trimmed, the
/// last one not empty, is a question line and reads back as those parts.
pub proof fn lemma_question_line_round_trip(parts: Seq<Seq<char>>)
    requires
        parts.len() == 6,
        forall|i: int|
            0 <= i < 6 ==> free_of(#[trigger] parts[i], FIELD_SEPARATOR) && trim(parts[i])
                == parts[i],
        parts[5].len() > 0,
    ensures
        is_question_line(join_with(parts, FIELD_SEPARATOR)),
        forall|k: int| 0 <= k < 6 ==> #[trigger] line_field(join_with(parts, FIELD_SEPARATOR), k) == parts[k],
{
    lemma_split_join(parts, FIELD_SEPARATOR);
}

} // verus!
