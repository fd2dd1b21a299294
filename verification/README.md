# wwtm_project

A "Who wants to be a millionaire" quiz. The library (`src/`) holds the game's
logic, verified with Verus; `app/` is the ggez front end that draws the
screen, plays the sounds, reads the question files and runs the game loop.

- `src/text.rs`: splitting a line on a separator and trimming white space,
  with their specifications and the lemma that splitting a joined line gives
  its parts back.
- `src/question.rs`: reading a question from a line `question / a1 / a2 / a3 /
  a4 / letter`.
- `src/question_list.rs`: the questions of a game, handed out in order, and
  the random choice of a question file.
- `src/random.rs`: the calls into `rand`, with the contracts they are trusted
  to meet.
- `src/jokers.rs`: the 50/50, audience and phone jokers.
- `src/game.rs`: the game state and the steps of the game loop; each step
  returns what the front end has to do (timers, sounds).
