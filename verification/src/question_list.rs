//! The list of questions of one game, handed out one after another.

use vstd::prelude::*;

use crate::question::{is_question_line, reads_as, Question};
use crate::random::{gen_range_u32, new_thread_rng};
use rand::rngs::ThreadRng;

verus! {

/// How many files of questions there are to choose from.
pub const QUESTION_FILE_COUNT: usize = 3;

/// Which file of questions a draw in `1..4` selects: draw `n` selects file
/// `n - 1`; any other draw selects none.
pub open spec fn file_for_draw(draw: u32) -> Option<usize> {
    if 1 <= draw <= 3 {
        Some((draw - 1) as usize)
    } else {
        None
    }
}

/// Every one of the files of questions is selected by exactly one draw in
/// `1..4`, and no draw outside it selects a file.
pub proof fn lemma_every_file_has_a_draw()
    ensures
        forall|k: usize|
            k < QUESTION_FILE_COUNT ==> file_for_draw((k + 1) as u32) == Some(k) && forall|d: u32|
                #[trigger] file_for_draw(d) == Some(k) ==> d == k + 1,
        forall|d: u32| (d < 1 || d >= 4) ==> #[trigger] file_for_draw(d) is None,
{
}

/// The file that a draw selects (see `file_for_draw`).
pub fn file_index_for_draw(draw: u32) -> (res: Option<usize>)
    ensures
        res == file_for_draw(draw),
{
    match draw {
        1 => Some(0),
        2 => Some(1),
        3 => Some(2),
        _ => None,
    }
}

/// Chooses at random which of the files of questions a game uses: a draw in
/// `1..4` from a fresh thread-local generator, mapped by `file_for_draw`.
pub fn file_selector() -> (res: Option<usize>)
    ensures
        res matches Some(k) && k < QUESTION_FILE_COUNT,
{
    let mut rng: ThreadRng = new_thread_rng();
    let random_number: u32 = gen_range_u32(&mut rng, 1, 4);
    file_index_for_draw(random_number)
}

/// The questions of a game, and how many of them were handed out.
pub struct QuestionList {
    question_list: Vec<Question>,
    pos: usize,
}

/// `post` is `pre` after one call of `next` that returned `res`: the next
/// question while one is left, and `None` once all were handed out.
pub open spec fn next_step(pre: QuestionList, post: QuestionList, res: Option<Question>) -> bool {
    &&& post.questions() == pre.questions()
    &&& if pre.position() < pre.questions().len() {
        &&& res == Some(pre.questions()[pre.position() as int])
        &&& post.position() == pre.position() + 1
    } else {
        &&& res is None
        &&& post.position() == pre.position()
    }
}

/// From a list none of whose questions was handed out, successive calls of
/// `next` (the results `results`, the lists between them `lists`) hand out
/// each question once, in order, then `None` for ever; the list of questions
/// never changes and the position never passes its end.
pub proof fn lemma_next_hands_out_in_order(lists: Seq<QuestionList>, results: Seq<Option<Question>>)
    requires
        lists.len() == results.len() + 1,
        lists[0].position() == 0,
        forall|i: int|
            #![trigger results[i]]
            0 <= i < results.len() ==> next_step(lists[i], lists[i + 1], results[i]),
    ensures
        forall|i: int|
            #![trigger lists[i]]
            0 <= i < lists.len() ==> {
                &&& lists[i].questions() == lists[0].questions()
                &&& lists[i].position() == if i < lists[0].questions().len() {
                    i
                } else {
                    lists[0].questions().len() as int
                }
            },
        forall|i: int|
            #![trigger results[i]]
            0 <= i < results.len() ==> results[i] == if i < lists[0].questions().len() {
                Some(lists[0].questions()[i])
            } else {
                None
            },
    decreases results.len(),
{
    if results.len() > 0 {
        let n = results.len() - 1;
        let l2 = lists.drop_last();
        let r2 = results.drop_last();
        assert forall|i: int| #![trigger r2[i]] 0 <= i < r2.len() implies next_step(
            l2[i],
            l2[i + 1],
            r2[i],
        ) by {
            assert(r2[i] == results[i]);
        }
        lemma_next_hands_out_in_order(l2, r2);
        assert(l2[n] == lists[n]);
        assert(next_step(lists[n], lists[n + 1], results[n]));
        assert forall|i: int| #![trigger lists[i]] 0 <= i < lists.len() implies {
            &&& lists[i].questions() == lists[0].questions()
            &&& lists[i].position() == if i < lists[0].questions().len() {
                i
            } else {
                lists[0].questions().len() as int
            }
        } by {
            if i <= n {
                assert(l2[i] == lists[i]);
            }
        }
        assert forall|i: int| #![trigger results[i]] 0 <= i < results.len() implies results[i]
            == if i < lists[0].questions().len() {
            Some(lists[0].questions()[i])
        } else {
            None
        } by {
            if i < n {
                assert(r2[i] == results[i]);
            }
        }
    }
}

impl QuestionList {
    /// How many questions `next` has handed out.
    pub closed spec fn position(&self) -> nat {
        self.pos as nat
    }

    /// The questions of the list, in order.
    pub closed spec fn questions(&self) -> Seq<Question> {
        self.question_list@
    }

    /// Reads one question from each line, in order; none is handed out yet.
    pub fn new(lines: Vec<String>) -> (list: QuestionList)
        requires
            forall|i: int| 0 <= i < lines.len() ==> is_question_line(#[trigger] lines[i]@),
        ensures
            list.questions().len() == lines.len(),
            forall|i: int|
                0 <= i < lines.len() ==> reads_as(#[trigger] list.questions()[i], lines[i]@),
            list.position() == 0,
    {
        let mut question_list: Vec<Question> = Vec::new();
        let n: usize = lines.len();
        let mut i: usize = 0;
        while i < n
            invariant
                n == lines.len(),
                i <= n,
                forall|k: int| 0 <= k < n ==> is_question_line(#[trigger] lines[k]@),
                question_list.len() == i,
                forall|k: int| 0 <= k < i ==> reads_as(#[trigger] question_list[k], lines[k]@),
            decreases n - i,
        {
            let question = Question::new(lines[i].clone());
            question_list.push(question);
            i = i + 1;
        }
        QuestionList { question_list, pos: 0 }
    }

    /// The questions of the list, in order.
    pub fn question_list(&self) -> (v: &Vec<Question>)
        ensures
            v@ == self.questions(),
    {
        &self.question_list
    }

    /// Whether `next` has a question left to hand out.
    pub fn has_next(&self) -> (b: bool)
        ensures
            b == (self.position() < self.questions().len()),
    {
        self.pos < self.question_list.len()
    }

    /// Hands out the next question, a copy of it, or `None` once all were
    /// handed out.
    pub fn next(&mut self) -> (res: Option<Question>)
        ensures
            next_step(*old(self), *final(self), res),
    {
        if self.pos < self.question_list.len() {
            let current = self.question_list[self.pos].clone();
            self.pos = self.pos + 1;
            Some(current)
        } else {
            None
        }
    }
}

} // verus!
