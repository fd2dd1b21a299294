//! The three jokers: 50/50, the audience and the friend on the phone.

use vstd::prelude::*;

use crate::game::GameState;
use crate::question::Question;
use crate::random::{gen_range_u32, weight_sum, AnswerOdds};
use rand::rngs::ThreadRng;

verus! {

/// An answer letter, `a` to `d`.
pub open spec fn is_letter(c: char) -> bool {
    c == 'a' || c == 'b' || c == 'c' || c == 'd'
}

/// The position (0 to 3) of an answer letter.
pub open spec fn slot_of(c: char) -> int {
    if c == 'a' {
        0
    } else if c == 'b' {
        1
    } else if c == 'c' {
        2
    } else {
        3
    }
}

/// Tests `is_letter`.
pub fn is_letter_char(c: char) -> (b: bool)
    ensures
        b == is_letter(c),
{
    c == 'a' || c == 'b' || c == 'c' || c == 'd'
}

/// Whether answer `slot` of `q` is still offered.
pub open spec fn shown(q: Question, slot: int) -> bool {
    if slot == 0 {
        q.a1_show
    } else if slot == 1 {
        q.a2_show
    } else if slot == 2 {
        q.a3_show
    } else {
        q.a4_show
    }
}

/// `q` and `r` have the same text, answers and right answer.
pub open spec fn same_text(q: Question, r: Question) -> bool {
    &&& q.question == r.question
    &&& q.answer_1 == r.answer_1
    &&& q.answer_2 == r.answer_2
    &&& q.answer_3 == r.answer_3
    &&& q.answer_4 == r.answer_4
    &&& q.correct_answer == r.correct_answer
}

/// The answer that the 50/50 joker takes away for a draw `r`: draw 1 takes the
/// first wrong answer, draw 2 the second, any other draw the third.
pub open spec fn removed_slot(correct: char, r: u32) -> int {
    let k: int = if r == 1 {
        0
    } else if r == 2 {
        1
    } else {
        2
    };
    if k < slot_of(correct) {
        k
    } else {
        k + 1
    }
}

/// How sure (in percent) the friend on the phone is of the right answer at
/// question `index`.
pub open spec fn friend_confidence(index: usize) -> u32 {
    if 5 <= index <= 6 {
        90
    } else if 7 <= index <= 8 {
        65
    } else if 9 <= index <= 10 {
        50
    } else if index == 11 {
        35
    } else if index == 12 {
        25
    } else if index == 13 {
        15
    } else if index == 14 {
        5
    } else {
        100
    }
}

/// Relative odds of the friend naming each answer: the right one with the
/// friend's confidence, the others sharing the rest evenly (weights scaled by
/// 300 so they stay whole); equal odds when the right answer is no letter.
pub open spec fn friend_weights_spec(index: usize, correct: char) -> Seq<u32> {
    let p: u32 = friend_confidence(index);
    if is_letter(correct) {
        Seq::new(4, |s: int| if s == slot_of(correct) { (3 * p) as u32 } else { (100 - p) as u32 })
    } else {
        seq![1u32, 1u32, 1u32, 1u32]
    }
}

/// `after` is `before` once the 50/50 joker took away the answers that its
/// draws name; nothing is taken when the right answer is no letter.
pub open spec fn after_fifty_fifty(before: Question, after: Question, first: u32, second: u32) -> bool {
    let c = before.correct_answer;
    &&& same_text(after, before)
    &&& forall|s: int|
        0 <= s < 4 ==> #[trigger] shown(after, s) == (shown(before, s) && !(is_letter(c) && (s
            == removed_slot(c, first) || s == removed_slot(c, second))))
}

/// When the right answer is a letter and all four answers were offered,
/// `after` offers the right answer and exactly one wrong answer.
pub open spec fn leaves_right_and_one_wrong(before: Question, after: Question) -> bool {
    let c = before.correct_answer;
    is_letter(c) && before.a1_show && before.a2_show && before.a3_show && before.a4_show ==> exists|
        w: int,
    |
        #![trigger shown(after, w)]
        0 <= w < 4 && w != slot_of(c) && forall|s: int|
            0 <= s < 4 ==> (#[trigger] shown(after, s) <==> (s == slot_of(c) || s == w))
}

/// What holds of every answer the friend on the phone may give at question
/// `index` whose right answer is `correct`.
pub open spec fn friend_answer_ok(index: usize, correct: char, c: char) -> bool {
    &&& is_letter(c)
    &&& friend_weights_spec(index, correct)[slot_of(c)] > 0
}

/// What holds of every tally the audience may give at question `index` whose
/// right answer is `correct`.
pub open spec fn audience_tally_ok(index: usize, correct: char, t: (u32, u32, u32, u32)) -> bool {
    &&& forall|s: int| 0 <= s < 4 ==> #[trigger] votes(t, s) <= 99
    &&& forall|s: int|
        0 <= s < 4 && friend_weights_spec(index, correct)[s] == 0 ==> #[trigger] votes(t, s) == 0
    &&& friend_confidence(index) == 100 && is_letter(correct) ==> votes(t, slot_of(correct)) == 99
}

/// How many rounds the audience joker asks the friend.
pub const AUDIENCE_ROUNDS: usize = 99;

/// How many times the friend is asked in each round.
pub const ASKS_PER_ROUND: usize = 4;

/// The letter of answer position `k`.
pub open spec fn letter_of_slot(k: int) -> char {
    if k == 0 {
        'a'
    } else if k == 1 {
        'b'
    } else if k == 2 {
        'c'
    } else {
        'd'
    }
}

/// Of the first `rounds` rounds of `asks` (four asks each), the number whose
/// ask `k` named letter `k`.
pub open spec fn round_votes(asks: Seq<char>, k: int, rounds: nat) -> nat
    decreases rounds,
{
    if rounds == 0 {
        0
    } else {
        round_votes(asks, k, (rounds - 1) as nat) + if asks[4 * (rounds - 1) + k]
            == letter_of_slot(k) {
            1nat
        } else {
            0nat
        }
    }
}

/// The tally of 99 rounds of four asks: for each letter, the rounds whose ask
/// at that letter's position named it.
pub open spec fn tally_spec(asks: Seq<char>) -> (u32, u32, u32, u32) {
    (
        round_votes(asks, 0, 99) as u32,
        round_votes(asks, 1, 99) as u32,
        round_votes(asks, 2, 99) as u32,
        round_votes(asks, 3, 99) as u32,
    )
}

/// `asks` are 99 rounds of four answers the friend may give at question
/// `index` whose right answer is `correct`.
pub open spec fn audience_asks_ok(index: usize, correct: char, asks: Seq<char>) -> bool {
    &&& asks.len() == 396
    &&& forall|i: int| 0 <= i < asks.len() ==> friend_answer_ok(index, correct, #[trigger] asks[i])
}

/// `t` is the tally of some 99 rounds of four answers of the friend.
pub open spec fn audience_result(index: usize, correct: char, t: (u32, u32, u32, u32)) -> bool {
    exists|asks: Seq<char>|
        #![trigger tally_spec(asks)]
        audience_asks_ok(index, correct, asks) && t == tally_spec(asks)
}

/// Counts the votes of 99 rounds of four asks, as `tally_spec` says.
pub fn tally_votes(asks: &Vec<char>) -> (t: (u32, u32, u32, u32))
    requires
        asks.len() == 396,
    ensures
        t == tally_spec(asks@),
{
    let mut a_supporters: u32 = 0;
    let mut b_supporters: u32 = 0;
    let mut c_supporters: u32 = 0;
    let mut d_supporters: u32 = 0;
    let mut r: usize = 0;
    while r < AUDIENCE_ROUNDS
        invariant
            asks.len() == 396,
            r <= AUDIENCE_ROUNDS,
            a_supporters == round_votes(asks@, 0, r as nat) && a_supporters <= r,
            b_supporters == round_votes(asks@, 1, r as nat) && b_supporters <= r,
            c_supporters == round_votes(asks@, 2, r as nat) && c_supporters <= r,
            d_supporters == round_votes(asks@, 3, r as nat) && d_supporters <= r,
        decreases AUDIENCE_ROUNDS - r,
    {
        let base: usize = ASKS_PER_ROUND * r;
        if asks[base] == 'a' {
            a_supporters = a_supporters + 1;
        }
        if asks[base + 1] == 'b' {
            b_supporters = b_supporters + 1;
        }
        if asks[base + 2] == 'c' {
            c_supporters = c_supporters + 1;
        }
        if asks[base + 3] == 'd' {
            d_supporters = d_supporters + 1;
        }
        r = r + 1;
    }
    (a_supporters, b_supporters, c_supporters, d_supporters)
}

/// Each count of the first `rounds` rounds is at most `rounds`; a letter whose
/// odds are nil gets none; when the friend is sure, the right answer gets all.
pub proof fn lemma_round_votes(index: usize, correct: char, asks: Seq<char>, k: int, rounds: nat)
    requires
        audience_asks_ok(index, correct, asks),
        0 <= k < 4,
        rounds <= 99,
    ensures
        round_votes(asks, k, rounds) <= rounds,
        friend_weights_spec(index, correct)[k] == 0 ==> round_votes(asks, k, rounds) == 0,
        friend_confidence(index) == 100 && is_letter(correct) && k == slot_of(correct)
            ==> round_votes(asks, k, rounds) == rounds,
    decreases rounds,
{
    if rounds > 0 {
        lemma_round_votes(index, correct, asks, k, (rounds - 1) as nat);
        let c = asks[4 * (rounds - 1) + k];
        assert(friend_answer_ok(index, correct, c));
        if c == letter_of_slot(k) {
            assert(slot_of(c) == k);
        }
        if friend_confidence(index) == 100 && is_letter(correct) && k == slot_of(correct) {
            assert(slot_of(c) == slot_of(correct));
        }
    }
}

/// The audience's tally: at most 99 votes per answer, none for an answer whose
/// odds are nil, and all 99 for the right answer when the friend is sure.
pub proof fn lemma_audience_tally_bounds(index: usize, correct: char, t: (u32, u32, u32, u32))
    requires
        audience_result(index, correct, t),
    ensures
        audience_tally_ok(index, correct, t),
{
    let asks = choose|asks: Seq<char>|
        #![trigger tally_spec(asks)]
        audience_asks_ok(index, correct, asks) && t == tally_spec(asks);
    lemma_round_votes(index, correct, asks, 0, 99);
    lemma_round_votes(index, correct, asks, 1, 99);
    lemma_round_votes(index, correct, asks, 2, 99);
    lemma_round_votes(index, correct, asks, 3, 99);
}

/// The answer at position `s` of a tally of the audience's votes.
pub open spec fn votes(t: (u32, u32, u32, u32), s: int) -> u32 {
    if s == 0 {
        t.0
    } else if s == 1 {
        t.1
    } else if s == 2 {
        t.2
    } else {
        t.3
    }
}

/// The weights of `friend_weights_spec`.
pub fn friend_weights(index: usize, correct: char) -> (w: [u32; 4])
    ensures
        w@ == friend_weights_spec(index, correct),
{
    let p: u32 = if 5 <= index && index <= 6 {
        90
    } else if 7 <= index && index <= 8 {
        65
    } else if 9 <= index && index <= 10 {
        50
    } else if index == 11 {
        35
    } else if index == 12 {
        25
    } else if index == 13 {
        15
    } else if index == 14 {
        5
    } else {
        100
    };
    let right: u32 = 3 * p;
    let other: u32 = 100 - p;
    let w: [u32; 4] = if correct == 'a' {
        [right, other, other, other]
    } else if correct == 'b' {
        [other, right, other, other]
    } else if correct == 'c' {
        [other, other, right, other]
    } else if correct == 'd' {
        [other, other, other, right]
    } else {
        [1, 1, 1, 1]
    };
    assert(w@ =~= friend_weights_spec(index, correct));
    w
}

/// One draw for the 50/50 joker: 1 or 2, at random.
pub fn draw_removal(rng: &mut ThreadRng) -> (r: u32)
    ensures
        1 <= r <= 2,
{
    gen_range_u32(rng, 1, 3)
}

/// How many times the second draw of the 50/50 joker is redrawn at most while
/// it equals the first.
pub const FIFTY_FIFTY_REDRAWS: u32 = 64;

/// The two draws of the 50/50 joker: two different values out of 1 and 2.
/// The second is redrawn while it equals the first; should it still equal it
/// after `FIFTY_FIFTY_REDRAWS` redraws, it takes the one value left, which is
/// where redrawing would end.
pub fn draw_fifty_fifty(rng: &mut ThreadRng) -> (r: (u32, u32))
    ensures
        1 <= r.0 <= 2,
        1 <= r.1 <= 2,
        r.0 != r.1,
{
    let first_removed: u32 = draw_removal(rng);
    let mut second_removed: u32 = draw_removal(rng);
    let mut redraws: u32 = 0;
    while first_removed == second_removed && redraws < FIFTY_FIFTY_REDRAWS
        invariant
            1 <= first_removed <= 2,
            1 <= second_removed <= 2,
            redraws <= FIFTY_FIFTY_REDRAWS,
        decreases FIFTY_FIFTY_REDRAWS - redraws,
    {
        second_removed = draw_removal(rng);
        redraws = redraws + 1;
    }
    if first_removed == second_removed {
        second_removed = 3 - first_removed;
    }
    (first_removed, second_removed)
}

impl GameState {
    /// The 50/50 joker, given its two draws: takes away the wrong answers that
    /// `removed_slot` names for each draw. Nothing happens when the right answer
    /// is no letter.
    pub fn joker_50_50(&mut self, first_removed: u32, second_removed: u32)
        requires
            1 <= first_removed <= 2,
            1 <= second_removed <= 2,
            first_removed != second_removed,
        ensures
            leaves_right_and_one_wrong(old(self).current_question, final(self).current_question),
            after_fifty_fifty(
                old(self).current_question,
                final(self).current_question,
                first_removed,
                second_removed,
            ),
            ({
                let q = final(self).current_question;
                (GameState { current_question: q, ..*old(self) }) == *final(self)
            }),
    {
        let c = self.current_question.correct_answer;
        if is_letter_char(c) {
            self.hide_wrong_answer(c, first_removed);
            self.hide_wrong_answer(c, second_removed);
        }
        proof {
            let before = old(self).current_question;
            let after = self.current_question;
            if is_letter(c) && before.a1_show && before.a2_show && before.a3_show
                && before.a4_show {
                lemma_fifty_fifty_leaves_two_answers(before, after, first_removed, second_removed);
                let w = removed_slot(c, 3);
                assert(0 <= w < 4 && w != slot_of(c));
                assert forall|s: int| 0 <= s < 4 implies (#[trigger] shown(after, s) <==> (s
                    == slot_of(c) || s == w)) by {
                    assert(shown(after, s) <==> s != removed_slot(c, first_removed) && s
                        != removed_slot(c, second_removed));
                }
                assert(shown(after, w));
            }
        }
    }

    /// Takes away the wrong answer that `removed_slot(correct, r)` names.
    fn hide_wrong_answer(&mut self, correct: char, r: u32)
        requires
            is_letter(correct),
        ensures
            same_text(final(self).current_question, old(self).current_question),
            forall|s: int|
                0 <= s < 4 ==> #[trigger] shown(final(self).current_question, s) == (shown(
                    old(self).current_question,
                    s,
                ) && s != removed_slot(correct, r)),
            ({
                let q = final(self).current_question;
                (GameState { current_question: q, ..*old(self) }) == *final(self)
            }),
    {
        let k: usize = if r == 1 {
            0
        } else if r == 2 {
            1
        } else {
            2
        };
        let c: usize = if correct == 'a' {
            0
        } else if correct == 'b' {
            1
        } else if correct == 'c' {
            2
        } else {
            3
        };
        let slot: usize = if k < c {
            k
        } else {
            k + 1
        };
        if slot == 0 {
            self.current_question.a1_show = false;
        } else if slot == 1 {
            self.current_question.a2_show = false;
        } else if slot == 2 {
            self.current_question.a3_show = false;
        } else {
            self.current_question.a4_show = false;
        }
    }

    /// The friend on the phone names an answer: at random, with the odds of
    /// `friend_weights_spec` for the current question, so never an answer
    /// whose odds are nil.
    pub fn friend_call(&self, rng: &mut ThreadRng) -> (c: char)
        ensures
            friend_answer_ok(self.current_question_index, self.current_question.correct_answer, c),
    {
        let weights = friend_weights(self.current_question_index, self.current_question.correct_answer);
        let choices: [char; 4] = ['a', 'b', 'c', 'd'];
        match AnswerOdds::new(weights) {
            Ok(dist) => {
                let i: usize = dist.sample(rng);
                let c = choices[i];
                assert(slot_of(c) == i);
                c
            },
            Err(_) => vstd::pervasive::unreached(),
        }
    }

    /// The audience votes: 99 rounds, each asking the friend (see
    /// `friend_call`) four times; the tally counts, for each letter `k`, the
    /// rounds whose `k`-th ask named letter `k` (see `tally_spec`).
    pub fn help_public(&self, rng: &mut ThreadRng) -> (t: (u32, u32, u32, u32))
        ensures
            audience_result(self.current_question_index, self.current_question.correct_answer, t),
    {
        let mut asks: Vec<char> = Vec::new();
        let mut r: usize = 0;
        while r < AUDIENCE_ROUNDS
            invariant
                r <= AUDIENCE_ROUNDS,
                asks.len() == ASKS_PER_ROUND * r,
                forall|i: int|
                    0 <= i < asks.len() ==> friend_answer_ok(
                        self.current_question_index,
                        self.current_question.correct_answer,
                        #[trigger] asks[i],
                    ),
            decreases AUDIENCE_ROUNDS - r,
        {
            let mut k: usize = 0;
            while k < ASKS_PER_ROUND
                invariant
                    r < AUDIENCE_ROUNDS,
                    k <= ASKS_PER_ROUND,
                    asks.len() == ASKS_PER_ROUND * r + k,
                    forall|i: int|
                        0 <= i < asks.len() ==> friend_answer_ok(
                            self.current_question_index,
                            self.current_question.correct_answer,
                            #[trigger] asks[i],
                        ),
                decreases ASKS_PER_ROUND - k,
            {
                asks.push(self.friend_call(rng));
                k = k + 1;
            }
            r = r + 1;
        }
        let t = tally_votes(&asks);
        assert(audience_asks_ok(
            self.current_question_index,
            self.current_question.correct_answer,
            asks@,
        ));
        t
    }
}

/// The 50/50 joker never takes away the right answer.
pub proof fn lemma_fifty_fifty_keeps_right_answer(
    before: Question,
    after: Question,
    first: u32,
    second: u32,
)
    requires
        after_fifty_fifty(before, after, first, second),
        is_letter(before.correct_answer),
    ensures
        shown(after, slot_of(before.correct_answer)) == shown(before, slot_of(before.correct_answer)),
{
    let c = before.correct_answer;
    assert(shown(after, slot_of(c)) == (shown(before, slot_of(c)) && !(is_letter(c) && (slot_of(c)
        == removed_slot(c, first) || slot_of(c) == removed_slot(c, second)))));
}

/// With two different draws from 1 to 3, the 50/50 joker takes exactly two
/// answers away from a question that offered all four, both wrong: the right
/// answer and one wrong answer stay.
pub proof fn lemma_fifty_fifty_leaves_two_answers(
    before: Question,
    after: Question,
    first: u32,
    second: u32,
)
    requires
        after_fifty_fifty(before, after, first, second),
        is_letter(before.correct_answer),
        before.a1_show && before.a2_show && before.a3_show && before.a4_show,
        1 <= first <= 3,
        1 <= second <= 3,
        first != second,
    ensures
        ({
            let c = before.correct_answer;
            let r1 = removed_slot(c, first);
            let r2 = removed_slot(c, second);
            &&& 0 <= r1 < 4 && 0 <= r2 < 4
            &&& r1 != r2
            &&& r1 != slot_of(c) && r2 != slot_of(c)
            &&& forall|s: int| 0 <= s < 4 ==> (#[trigger] shown(after, s) <==> s != r1 && s != r2)
        }),
{
}

/// On the first five questions (indices 0 to 4) the friend on the phone always
/// names the right answer.
pub proof fn lemma_friend_sure_on_first_questions(index: usize, correct: char, c: char)
    requires
        index <= 4,
        is_letter(correct),
        friend_answer_ok(index, correct, c),
    ensures
        c == correct,
{
}

/// On the first five questions (indices 0 to 4) the audience gives all 99
/// votes to the right answer and none to the others.
pub proof fn lemma_audience_unanimous_on_first_questions(
    index: usize,
    correct: char,
    t: (u32, u32, u32, u32),
)
    requires
        index <= 4,
        is_letter(correct),
        audience_result(index, correct, t),
    ensures
        votes(t, slot_of(correct)) == 99,
        forall|s: int| 0 <= s < 4 && s != slot_of(correct) ==> #[trigger] votes(t, s) == 0,
{
    lemma_audience_tally_bounds(index, correct, t);
    assert forall|s: int| 0 <= s < 4 && s != slot_of(correct) implies #[trigger] votes(t, s)
        == 0 by {
        assert(friend_weights_spec(index, correct)[s] == 0);
    }
}

/// How sure the friend on the phone is, question by question: fully sure on
/// questions 1 to 5 (indices 0 to 4), then 90, 90, 65, 65, 50, 50, 35, 25, 15
/// and 5 percent on indices 5 to 14, and sure again past the board.
pub proof fn lemma_friend_confidence_table(index: usize)
    ensures
        index <= 4 ==> friend_confidence(index) == 100,
        index == 5 || index == 6 ==> friend_confidence(index) == 90,
        index == 7 || index == 8 ==> friend_confidence(index) == 65,
        index == 9 || index == 10 ==> friend_confidence(index) == 50,
        index == 11 ==> friend_confidence(index) == 35,
        index == 12 ==> friend_confidence(index) == 25,
        index == 13 ==> friend_confidence(index) == 15,
        index == 14 ==> friend_confidence(index) == 5,
        index >= 15 ==> friend_confidence(index) == 100,
        1 <= index <= 14 ==> friend_confidence(index) <= friend_confidence((index - 1) as usize),
        0 < friend_confidence(index) <= 100,
{
}

/// The friend's odds: the right answer weighs three times the confidence,
/// each wrong answer what is left of 100; so the right answer is named with
/// exactly the friend's confidence (its weight over a total of 300), it is
/// always possible on the board, and wrong answers are possible exactly when the
/// friend is not sure.
pub proof fn lemma_friend_odds(index: usize, correct: char)
    requires
        is_letter(correct),
    ensures
        friend_weights_spec(index, correct).len() == 4,
        friend_weights_spec(index, correct)[slot_of(correct)] == 3 * friend_confidence(index),
        forall|s: int|
            0 <= s < 4 && s != slot_of(correct) ==> #[trigger] friend_weights_spec(index, correct)[s]
                == 100 - friend_confidence(index),
        weight_sum(friend_weights_spec(index, correct)) == 300,
        friend_weights_spec(index, correct)[slot_of(correct)] > 0,
        index <= 4 ==> friend_weights_spec(index, correct)[slot_of(correct)] == 300,
        index == 9 || index == 10 ==> friend_weights_spec(index, correct)[slot_of(correct)] == 150,
        5 <= index <= 14 ==> forall|s: int|
            0 <= s < 4 ==> #[trigger] friend_weights_spec(index, correct)[s] > 0,
{
    lemma_friend_confidence_table(index);
}

} // verus!
