# OMACHESS

A chess trainer whose rules are proved. The library in `src/` decides what the application says,
records and asks the engine: which moves a board accepts, when an attempt counts, what a result is
called, which answers of the engine are still wanted, how added puzzles are rated, what a report may
claim. Each of those decisions is a verified function with a contract over plain values.

The application in `app/` is the window around it. It reads files, runs the engine on its own
thread, talks to the store, and draws what the library left in its state. Events go in as plain
values; what is to be done comes out as a list of effects. What is worked out in floating point
stays there too: where things lie on a chart, how a piece is drawn and tinted, and how a statistic
or a rating of the store is rounded before the library is told of it.

- `src/chess.rs`, `src/rules.rs`, `src/board.rs`: squares and pieces, the rules of chess as
  shakmaty knows them, and the board a person clicks.
- `src/trainer.rs`, `src/play_view.rs`, `src/drill_view.rs`, `src/endgame_view.rs`,
  `src/study_view.rs`, `src/progress_view.rs`: the tabs.
- `src/engine_worker.rs`: what is said to the engine, and what is made of its answers.
- `src/announce.rs`, `src/sound.rs`, `src/pieces.rs`, `src/promotion.rs`, `src/style.rs`,
  `src/charts.rs`, `src/figures.rs`, `src/window.rs`: what is said, heard and seen.
- `src/commands.rs`, `src/import.rs`, `src/reports.rs`, `src/selftest.rs`: the command line.
- `src/text.rs`, `src/numbers.rs`, `src/dates.rs`, `src/effect.rs`, `src/exercise.rs`: shared
  parts.

The application also needs the `omachess_core` crate, GTK 4 with libadwaita, and, for sound,
the clips in a `sounds` directory beside the installed piece sets.
