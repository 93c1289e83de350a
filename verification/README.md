# theseeker_game

The rules of *The Seeker*, a 2D action platformer, as a verified library: the player's
locomotion and skill state machines, weapon and skill tuning, inventory and toolbar
layout, console and pop-up behaviour, level and render-pass decisions. The functions in `src/` carry contracts proved by
Verus; laws that relate several functions are public proof functions next to them. Three
small wrappers are trusted rather than proved: `String::push` (`text.rs`), `String::pop`
(`console.rs`) and the language-identifier parse of `unic-langid` (`locale.rs`); each
states in its doc comment what its contract claims of the call it makes.

- `src/` — the library (one module per area of the game).
- `tests/` — tests on concrete values, run against the compiled library.
- `app/` — the game shell: reads input and the world, asks the library, applies the answer.
