//! The rules of a game: jokers, marking an answer, and the per-frame steps of
//! the game loop, as a state machine whose actions the caller performs.

use vstd::prelude::*;

use crate::jokers::{audience_result, after_fifty_fifty, leaves_right_and_one_wrong, friend_answer_ok, is_letter, is_letter_char, slot_of};
use crate::question::Question;
use crate::question_list::QuestionList;
use rand::rngs::ThreadRng;

verus! {

/// The highest question index; a won game stays there.
pub const LAST_INDEX: usize = 15;

/// Prize after each number of right answers.
pub open spec fn score_board_spec() -> Seq<u32> {
    seq![0, 50, 100, 200, 300, 500, 750, 1000, 1500, 2000, 2500, 5000, 10000, 25000, 50000, 100000]
}

/// The prizes, as `score_board_spec` lists them.
pub fn score_board() -> (v: Vec<u32>)
    ensures
        v@ == score_board_spec(),
{
    let v: Vec<u32> = vec![0, 50, 100, 200, 300, 500, 750, 1000, 1500, 2000, 2500, 5000, 10000, 25000, 50000, 100000];
    assert(v@ =~= score_board_spec());
    v
}

/// This tick the marked answer's time runs out: a letter is marked and its
/// time was due.
pub open spec fn evaluates(gs: GameState, marked_due: bool) -> bool {
    is_letter(gs.answer_marked) && marked_due
}

/// The marked answer is the right one.
pub open spec fn marked_right(gs: GameState) -> bool {
    gs.current_question.correct_answer == gs.answer_marked
}

/// The saved score after a right answer at question `index`: questions 5, 10
/// and 15 (indices 4, 9, 14) save 500, 2500 and 100000; the others keep `saved`.
pub open spec fn saved_after_right(index: usize, saved: u32) -> u32 {
    if index == 4 {
        500
    } else if index == 9 {
        2500
    } else if index == 14 {
        100000
    } else {
        saved
    }
}

/// This tick moves on to the next question: a right answer was evaluated and
/// either a question was already due, or it is the last one, or its
/// transition ran out.
pub open spec fn advances(gs: GameState, marked_due: bool, transition_due: bool) -> bool {
    &&& evaluates(gs, marked_due)
    &&& marked_right(gs)
    &&& (gs.next_question || gs.current_question_index == 14 || transition_due)
}

/// Every question of the list was handed out.
pub open spec fn out_of_questions(gs: GameState) -> bool {
    gs.questions.position() >= gs.questions.questions().len()
}

/// The sounds of a right answer at question `index`.
pub open spec fn right_answer_cues(index: usize, transition_due: bool) -> Seq<Cue> {
    if index == 4 {
        seq![Cue::PauseTheme, Cue::PlaySavedScore] + if transition_due {
            seq![Cue::StopSavedScore, Cue::ResumeTheme]
        } else {
            Seq::<Cue>::empty()
        }
    } else if index == 9 {
        seq![Cue::PauseTheme, Cue::PlaySavedScore] + if transition_due {
            seq![Cue::PauseSavedScore, Cue::PlayTheme]
        } else {
            Seq::<Cue>::empty()
        }
    } else if index == 14 {
        Seq::<Cue>::empty()
    } else {
        seq![Cue::PlayRightAnswer]
    }
}

/// The sounds of one tick.
pub open spec fn tick_cues(gs: GameState, marked_due: bool, transition_due: bool) -> Seq<Cue> {
    if !evaluates(gs, marked_due) {
        Seq::<Cue>::empty()
    } else if !marked_right(gs) {
        seq![Cue::StopTheme, Cue::PlayWrongAnswer]
    } else if advances(gs, marked_due, transition_due) && out_of_questions(gs) {
        right_answer_cues(gs.current_question_index, transition_due) + seq![
            Cue::PlayWin,
            Cue::StopTheme,
        ]
    } else {
        right_answer_cues(gs.current_question_index, transition_due)
    }
}

/// How the timers are set back after one tick: when the transition after a
/// right answer (but the last) runs out.
pub open spec fn tick_reset(gs: GameState, marked_due: bool, transition_due: bool) -> TimerReset {
    let index: usize = gs.current_question_index;
    if evaluates(gs, marked_due) && marked_right(gs) && index != 14 && transition_due {
        if index == 4 || index == 9 {
            TimerReset::Checkpoint
        } else {
            TimerReset::Regular
        }
    } else {
        TimerReset::Keep
    }
}

/// `post` is `pre` with at most `player_resigned` changed: what a key press
/// does, and (with nothing changed) an update of a finished game or a draw.
pub open spec fn same_but_resigned(pre: GameState, post: GameState) -> bool {
    post == (GameState { player_resigned: post.player_resigned, ..pre })
}

/// Where an answer stands after it was marked.
#[derive(Clone, Copy, Debug, PartialEq, Eq)]
pub enum AnswerState {
    Marked,
    NotMarked,
    Correct,
    Wrong,
}

/// The keys the game reacts to.
#[derive(Clone, Copy, Debug, PartialEq, Eq)]
pub enum Key {
    R,
    Escape,
    Other,
}

/// What an update does first.
#[derive(Clone, Copy, Debug, PartialEq, Eq)]
pub enum UpdateStart {
    /// The game is over: nothing more happens.
    Over,
    /// The player resigned just now: stop the main theme, play the resign sound.
    Resigned,
    /// Go on with the frame.
    Continue,
}

/// A sound action.
#[derive(Clone, Copy, Debug, PartialEq, Eq)]
pub enum Cue {
    PauseTheme,
    ResumeTheme,
    PlayTheme,
    StopTheme,
    PlaySavedScore,
    PauseSavedScore,
    StopSavedScore,
    PlayRightAnswer,
    PlayWrongAnswer,
    PlayWin,
}

/// How the two timers are set back after a right answer.
#[derive(Clone, Copy, Debug, PartialEq, Eq)]
pub enum TimerReset {
    /// Leave them.
    Keep,
    /// After a saved score: the long pause before the next question.
    Checkpoint,
    /// After any other right answer: the short pause.
    Regular,
}

/// What the caller does after one tick of the game loop.
#[derive(Debug, PartialEq, Eq)]
pub struct TickStep {
    /// Take one frame off the time an answer stays marked.
    pub decrement_marked: bool,
    /// Take one frame off the transition time.
    pub decrement_transition: bool,
    /// Set the timers back.
    pub reset: TimerReset,
    /// Sounds to play, in order.
    pub cues: Vec<Cue>,
}

/// What the screen shows.
#[derive(Clone, Copy, Debug, PartialEq, Eq)]
pub enum Screen {
    Won,
    GameOver,
    Playing,
}

/// The state of a game.
pub struct GameState {
    pub fifty_fifty_used: bool,
    pub help_public: bool,
    pub help_public_index: usize,
    pub answer_public: (u32, u32, u32, u32),
    pub friend_call: bool,
    pub friend_call_index: usize,
    pub game_over: bool,
    pub player_resigned: bool,
    pub has_won: bool,
    pub next_question: bool,
    pub current_score: u32,
    pub questions: QuestionList,
    pub answer_state: AnswerState,
    pub answer_marked: char,
    pub answer_friend: char,
    pub current_question: Question,
    pub current_question_index: usize,
    pub saved_score: u32,
    pub score_board: Vec<u32>,
}

impl GameState {
    /// The question index stays within the board, and the board is fixed.
    pub open spec fn wf(&self) -> bool {
        &&& self.current_question_index <= LAST_INDEX
        &&& self.score_board@ == score_board_spec()
    }

    /// A new game, on the first question still to be handed out of `questions`.
    pub fn new(questions: QuestionList) -> (gs: GameState)
        requires
            questions.position() < questions.questions().len(),
        ensures
            gs.wf(),
            gs.current_question == questions.questions()[questions.position() as int],
            gs.questions.questions() == questions.questions(),
            gs.questions.position() == questions.position() + 1,
            !gs.fifty_fifty_used && !gs.help_public && !gs.friend_call,
            gs.help_public_index == 0 && gs.friend_call_index == 0,
            gs.answer_public == (0u32, 0u32, 0u32, 0u32),
            !gs.game_over && !gs.player_resigned && !gs.has_won,
            gs.next_question,
            gs.current_score == 0 && gs.saved_score == 0,
            gs.answer_state == AnswerState::NotMarked,
            gs.answer_marked == ' ' && gs.answer_friend == ' ',
            gs.current_question_index == 0,
    {
        let mut questions = questions;
        let first_question = match questions.next() {
            Some(q) => q,
            None => vstd::pervasive::unreached(),
        };
        GameState {
            fifty_fifty_used: false,
            help_public: false,
            help_public_index: 0,
            answer_public: (0, 0, 0, 0),
            friend_call: false,
            friend_call_index: 0,
            game_over: false,
            player_resigned: false,
            has_won: false,
            next_question: true,
            current_score: 0,
            questions,
            answer_state: AnswerState::NotMarked,
            answer_marked: ' ',
            answer_friend: ' ',
            current_question: first_question,
            current_question_index: 0,
            saved_score: 0,
            score_board: score_board(),
        }
    }
}
impl GameState {
    /// A click on answer `letter` marks it.
    pub fn mark_answer(&mut self, letter: char)
        ensures
            *final(self) == (GameState {
                answer_state: AnswerState::Marked,
                answer_marked: letter,
                ..*old(self)
            }),
    {
        self.answer_state = AnswerState::Marked;
        self.answer_marked = letter;
    }

    /// A click on the 50/50 joker, given its two draws: the first time, the
    /// joker takes two answers away and is used up; afterwards nothing happens.
    pub fn use_fifty_fifty(&mut self, first_removed: u32, second_removed: u32)
        requires
            1 <= first_removed <= 2,
            1 <= second_removed <= 2,
            first_removed != second_removed,
        ensures
            old(self).fifty_fifty_used ==> *final(self) == *old(self),
            !old(self).fifty_fifty_used ==> {
                &&& leaves_right_and_one_wrong(
                    old(self).current_question,
                    final(self).current_question,
                )
                &&& after_fifty_fifty(
                    old(self).current_question,
                    final(self).current_question,
                    first_removed,
                    second_removed,
                )
                &&& *final(self) == (GameState {
                    fifty_fifty_used: true,
                    current_question: final(self).current_question,
                    ..*old(self)
                })
            },
    {
        if !self.fifty_fifty_used {
            self.joker_50_50(first_removed, second_removed);
            self.fifty_fifty_used = true;
        }
    }

    /// A click on the audience joker: the first time, the audience votes (see
    /// `help_public`) on the current question, which is recorded; afterwards
    /// nothing happens.
    pub fn use_help_public(&mut self, rng: &mut ThreadRng)
        ensures
            old(self).help_public ==> *final(self) == *old(self),
            !old(self).help_public ==> {
                &&& audience_result(
                    old(self).current_question_index,
                    old(self).current_question.correct_answer,
                    final(self).answer_public,
                )
                &&& *final(self) == (GameState {
                    help_public: true,
                    answer_public: final(self).answer_public,
                    help_public_index: old(self).current_question_index,
                    ..*old(self)
                })
            },
    {
        if !self.help_public {
            self.help_public = true;
            self.answer_public = self.help_public(rng);
            self.help_public_index = self.current_question_index;
        }
    }

    /// A click on the phone joker: the first time, the friend names an answer
    /// (see `friend_call`) for the current question, which is recorded;
    /// afterwards nothing happens.
    pub fn use_friend_call(&mut self, rng: &mut ThreadRng)
        ensures
            old(self).friend_call ==> *final(self) == *old(self),
            !old(self).friend_call ==> {
                &&& friend_answer_ok(
                    old(self).current_question_index,
                    old(self).current_question.correct_answer,
                    final(self).answer_friend,
                )
                &&& *final(self) == (GameState {
                    friend_call: true,
                    answer_friend: final(self).answer_friend,
                    friend_call_index: old(self).current_question_index,
                    ..*old(self)
                })
            },
    {
        if !self.friend_call {
            self.friend_call = true;
            self.answer_friend = self.friend_call(rng);
            self.friend_call_index = self.current_question_index;
        }
    }

    /// A key press: `R` resigns, `Escape` asks to quit (the result), others do
    /// nothing.
    pub fn key_down_event(&mut self, key: Key) -> (quit: bool)
        ensures
            quit == (key == Key::Escape),
            key == Key::R ==> *final(self) == (GameState { player_resigned: true, ..*old(self) }),
            key != Key::R ==> *final(self) == *old(self),
            same_but_resigned(*old(self), *final(self)),
    {
        match key {
            Key::R => {
                self.player_resigned = true;
                false
            },
            Key::Escape => true,
            Key::Other => false,
        }
    }

    /// The start of an update: a game that is over stays as it is; a player who
    /// resigned keeps the current score and the game ends.
    pub fn begin_update(&mut self) -> (start: UpdateStart)
        ensures
            old(self).game_over ==> start == UpdateStart::Over && *final(self) == *old(self),
            !old(self).game_over && old(self).player_resigned ==> {
                &&& start == UpdateStart::Resigned
                &&& *final(self) == (GameState {
                    saved_score: old(self).current_score,
                    game_over: true,
                    ..*old(self)
                })
            },
            !old(self).game_over && !old(self).player_resigned ==> start == UpdateStart::Continue
                && *final(self) == *old(self),
    {
        if self.game_over {
            return UpdateStart::Over;
        }
        if self.player_resigned {
            self.saved_score = self.current_score;
            self.game_over = true;
            return UpdateStart::Resigned;
        }
        UpdateStart::Continue
    }

    /// Before the ticks of an update: no question is due yet, and questions 5
    /// and 10 (indices 4 and 9) get the long transition (the result) while no
    /// time of their marked answer has run (`marked_full`).
    pub fn begin_ticks(&mut self, marked_full: bool) -> (long_transition: bool)
        ensures
            long_transition == ((old(self).current_question_index == 4
                || old(self).current_question_index == 9) && marked_full),
            *final(self) == (GameState { next_question: false, ..*old(self) }),
    {
        self.next_question = false;
        (self.current_question_index == 4 || self.current_question_index == 9) && marked_full
    }

    /// What the screen shows: the win, the end of the game, or the game.
    pub fn screen(&self) -> (sc: Screen)
        ensures
            sc == (if self.has_won {
                Screen::Won
            } else if self.game_over {
                Screen::GameOver
            } else {
                Screen::Playing
            }),
    {
        if self.has_won {
            Screen::Won
        } else if self.game_over {
            Screen::GameOver
        } else {
            Screen::Playing
        }
    }

    /// The audience's votes are shown on the question they were asked for.
    pub fn public_answer_visible(&self) -> (b: bool)
        ensures
            b == (self.help_public && self.current_question_index == self.help_public_index),
    {
        self.help_public && self.current_question_index == self.help_public_index
    }

    /// The friend's answer is shown on the question it was asked for.
    pub fn friend_answer_visible(&self) -> (b: bool)
        ensures
            b == (self.friend_call && self.current_question_index == self.friend_call_index),
    {
        self.friend_call && self.current_question_index == self.friend_call_index
    }

    /// The position of the marked answer, if a letter is marked.
    pub fn marked_slot(&self) -> (slot: Option<usize>)
        ensures
            is_letter(self.answer_marked) ==> slot == Some(slot_of(self.answer_marked) as usize),
            !is_letter(self.answer_marked) ==> slot is None,
    {
        if self.answer_marked == 'a' {
            Some(0)
        } else if self.answer_marked == 'b' {
            Some(1)
        } else if self.answer_marked == 'c' {
            Some(2)
        } else if self.answer_marked == 'd' {
            Some(3)
        } else {
            None
        }
    }
}

impl GameState {
    /// One tick of the game loop. `marked_due` tells whether the marked
    /// answer's time runs out if this tick takes a frame off it, and
    /// `transition_due` the same of the transition time; the result says which
    /// times to take a frame off, how to set them back, and what to play.
    ///
    /// When a letter is marked and its time runs out: a wrong answer ends the
    /// game once the transition runs out; a right one saves the checkpoint
    /// prize, and once its transition runs out (at once for the last question)
    /// the next question comes, or the game is won when there is none. The
    /// score is then the prize of the question index.
    #[verifier::rlimit(60)]
    #[verifier::spinoff_prover]
    pub fn tick(&mut self, marked_due: bool, transition_due: bool) -> (step: TickStep)
        requires
            old(self).wf(),
        ensures
            final(self).wf(),
            step.decrement_marked == is_letter(old(self).answer_marked),
            step.decrement_transition == (evaluates(*old(self), marked_due) && (!marked_right(
                *old(self),
            ) || old(self).current_question_index != 14)),
            step.reset == tick_reset(*old(self), marked_due, transition_due),
            step.cues@ == tick_cues(*old(self), marked_due, transition_due),
            final(self).game_over == (old(self).game_over || (evaluates(*old(self), marked_due)
                && !marked_right(*old(self)) && transition_due)),
            final(self).saved_score == (if evaluates(*old(self), marked_due) && marked_right(
                *old(self),
            ) {
                saved_after_right(old(self).current_question_index, old(self).saved_score)
            } else {
                old(self).saved_score
            }),
            evaluates(*old(self), marked_due) && marked_right(*old(self))
                && old(self).current_question_index == 4 ==> final(self).saved_score == 500,
            evaluates(*old(self), marked_due) && marked_right(*old(self))
                && old(self).current_question_index == 9 ==> final(self).saved_score == 2500,
            evaluates(*old(self), marked_due) && marked_right(*old(self))
                && old(self).current_question_index == 14 ==> final(self).saved_score == 100000,
            old(self).current_question_index != 4 && old(self).current_question_index != 9
                && old(self).current_question_index != 14 ==> final(self).saved_score == old(self).saved_score,
            final(self).next_question == (old(self).next_question || (evaluates(
                *old(self),
                marked_due,
            ) && marked_right(*old(self)) && (old(self).current_question_index == 14
                || transition_due))),
            final(self).fifty_fifty_used == old(self).fifty_fifty_used,
            final(self).help_public == old(self).help_public,
            final(self).help_public_index == old(self).help_public_index,
            final(self).answer_public == old(self).answer_public,
            final(self).friend_call == old(self).friend_call,
            final(self).friend_call_index == old(self).friend_call_index,
            final(self).answer_friend == old(self).answer_friend,
            final(self).player_resigned == old(self).player_resigned,
            final(self).score_board == old(self).score_board,
            final(self).questions.questions() == old(self).questions.questions(),
            advances(*old(self), marked_due, transition_due) ==> {
                &&& final(self).current_question_index == if old(self).current_question_index
                    < LAST_INDEX {
                    old(self).current_question_index + 1
                } else {
                    old(self).current_question_index as int
                }
                &&& !out_of_questions(*old(self)) ==> {
                    &&& final(self).current_question == old(self).questions.questions()[old(self).questions.position() as int]
                    &&& final(self).questions.position() == old(self).questions.position() + 1
                    &&& final(self).answer_marked == ' '
                    &&& final(self).answer_state == AnswerState::NotMarked
                    &&& final(self).has_won == old(self).has_won
                }
                &&& out_of_questions(*old(self)) ==> {
                    &&& final(self).current_question == old(self).current_question
                    &&& final(self).questions.position() == old(self).questions.position()
                    &&& final(self).answer_marked == old(self).answer_marked
                    &&& final(self).answer_state == if old(self).current_question_index == 14 {
                        old(self).answer_state
                    } else {
                        AnswerState::Correct
                    }
                    &&& final(self).has_won
                }
            },
            !advances(*old(self), marked_due, transition_due) ==> {
                &&& final(self).current_question_index == old(self).current_question_index
                &&& final(self).current_question == old(self).current_question
                &&& final(self).questions == old(self).questions
                &&& final(self).answer_marked == old(self).answer_marked
                &&& final(self).has_won == old(self).has_won
                &&& final(self).answer_state == if !evaluates(*old(self), marked_due) {
                    old(self).answer_state
                } else if !marked_right(*old(self)) {
                    AnswerState::Wrong
                } else if old(self).current_question_index == 14 {
                    old(self).answer_state
                } else {
                    AnswerState::Correct
                }
            },
            final(self).current_score == score_board_spec()[final(self).current_question_index as int],
    {
        let mut step = TickStep {
            decrement_marked: false,
            decrement_transition: false,
            reset: TimerReset::Keep,
            cues: Vec::new(),
        };
        if is_letter_char(self.answer_marked) {
            step.decrement_marked = true;
            if marked_due {
                if self.current_question.correct_answer == self.answer_marked {
                    let index: usize = self.current_question_index;
                    if index == 4 {
                        self.saved_score = 500;
                        step.cues.push(Cue::PauseTheme);
                        step.cues.push(Cue::PlaySavedScore);
                        self.answer_state = AnswerState::Correct;
                        step.decrement_transition = true;
                        if transition_due {
                            step.reset = TimerReset::Checkpoint;
                            self.next_question = true;
                            step.cues.push(Cue::StopSavedScore);
                            step.cues.push(Cue::ResumeTheme);
                        }
                    } else if index == 9 {
                        self.saved_score = 2500;
                        step.cues.push(Cue::PauseTheme);
                        step.cues.push(Cue::PlaySavedScore);
                        self.answer_state = AnswerState::Correct;
                        step.decrement_transition = true;
                        if transition_due {
                            step.reset = TimerReset::Checkpoint;
                            self.next_question = true;
                            step.cues.push(Cue::PauseSavedScore);
                            step.cues.push(Cue::PlayTheme);
                        }
                    } else if index == 14 {
                        self.saved_score = 100000;
                        self.next_question = true;
                    } else {
                        step.cues.push(Cue::PlayRightAnswer);
                        self.answer_state = AnswerState::Correct;
                        step.decrement_transition = true;
                        if transition_due {
                            step.reset = TimerReset::Regular;
                            self.next_question = true;
                        }
                    }
                    if self.next_question {
                        match self.questions.next() {
                            Some(question) => {
                                self.current_question = question;
                                self.answer_marked = ' ';
                                self.answer_state = AnswerState::NotMarked;
                            },
                            None => {
                                self.has_won = true;
                                step.cues.push(Cue::PlayWin);
                                step.cues.push(Cue::StopTheme);
                            },
                        }
                        if self.current_question_index < LAST_INDEX {
                            self.current_question_index = self.current_question_index + 1;
                        }
                    }
                } else {
                    self.answer_state = AnswerState::Wrong;
                    step.cues.push(Cue::StopTheme);
                    step.cues.push(Cue::PlayWrongAnswer);
                    step.decrement_transition = true;
                    if transition_due {
                        self.game_over = true;
                    }
                }
            }
        }
        self.current_score = self.score_board[self.current_question_index];
        assert(step.cues@ =~= tick_cues(*old(self), marked_due, transition_due));
        step
    }
}

/// A finished game stays finished: through any run of updates (which find it
/// over and change nothing), key presses and draws, it stays over and keeps
/// every field but `player_resigned`; in particular the scores and the
/// question index are final.
pub proof fn lemma_finished_game_stays_finished(states: Seq<GameState>)
    requires
        states.len() >= 1,
        states[0].game_over,
        forall|i: int|
            #![trigger states[i]]
            0 <= i < states.len() - 1 ==> same_but_resigned(states[i], states[i + 1]),
    ensures
        forall|i: int|
            #![trigger states[i]]
            0 <= i < states.len() ==> states[i].game_over && same_but_resigned(states[0], states[i]),
    decreases states.len(),
{
    if states.len() > 1 {
        let init = states.drop_last();
        let n = states.len() - 1;
        assert forall|i: int| #![trigger init[i]] 0 <= i < init.len() - 1 implies same_but_resigned(
            init[i],
            init[i + 1],
        ) by {
            assert(init[i] == states[i] && init[i + 1] == states[i + 1]);
        }
        lemma_finished_game_stays_finished(init);
        assert(init[n - 1] == states[n - 1]);
        assert(same_but_resigned(states[n - 1], states[n]));
        assert forall|i: int| #![trigger states[i]] 0 <= i < states.len() implies states[i].game_over
            && same_but_resigned(states[0], states[i]) by {
            if i < n {
                assert(init[i] == states[i]);
            }
        }
    }
}

/// The saved score moves only at the checkpoints: a right answer to question 5,
/// 10 or 15 (indices 4, 9, 14) saves 500, 2500 or 100000; a right answer to any
/// other question keeps the saved score as it was.
pub proof fn lemma_checkpoint_prizes(index: usize, saved: u32)
    ensures
        index == 4 ==> saved_after_right(index, saved) == 500,
        index == 9 ==> saved_after_right(index, saved) == 2500,
        index == 14 ==> saved_after_right(index, saved) == 100000,
        index != 4 && index != 9 && index != 14 ==> saved_after_right(index, saved) == saved,
{
}

/// Through any tick, the saved score changes only when a right answer at a
/// checkpoint (indices 4, 9, 14) is evaluated, and then to 500, 2500 or
/// 100000: the saved score always holds the prize of the last checkpoint
/// passed (or what a resignation kept).
pub proof fn lemma_saved_score_between_checkpoints(
    pre: GameState,
    post: GameState,
    marked_due: bool,
)
    requires
        post.saved_score == (if evaluates(pre, marked_due) && marked_right(pre) {
            saved_after_right(pre.current_question_index, pre.saved_score)
        } else {
            pre.saved_score
        }),
    ensures
        post.saved_score != pre.saved_score ==> {
            &&& evaluates(pre, marked_due) && marked_right(pre)
            &&& (pre.current_question_index == 4 && post.saved_score == 500)
                || (pre.current_question_index == 9 && post.saved_score == 2500)
                || (pre.current_question_index == 14 && post.saved_score == 100000)
        },
{
    lemma_checkpoint_prizes(pre.current_question_index, pre.saved_score);
}

} // verus!
