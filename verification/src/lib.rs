//! Logic of a "Who wants to be a millionaire" quiz: parsing question lines,
//! walking a list of questions, the three jokers and the game's state machine.

pub mod text;
pub mod question;
pub mod random;
pub mod question_list;
pub mod game;
pub mod jokers;
