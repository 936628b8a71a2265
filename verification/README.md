# rustcord

A Discord bot for Magic: The Gathering: it finds cards named in chat
(`[[lightning bolt | set=m11]]`) or by `/search`, and runs a guessing game
(`/play`, `/guess`, `/give_up`) in which more of a hidden card is shown after
each wrong guess. Easy allows 8 guesses, Medium (the default) 6, Hard 4.

## Layout

- `src/` is the library, verified with Verus. Every public function states
  its result in its contract.
  - `fuzzy`: Jaro-Winkler similarity as an exact fraction, and the choice of
    the best match among candidates.
  - `normalise`: the normal form that names are compared in.
  - `game`: difficulties, the game state, the judgement of a guess and the
    messages of the game.
  - `query`: card queries, the options of the slash commands, and the card
    references found in a message.
  - `embed`, `emoji`, `colours`, `components`: what a card message shows.
  - `locks`: the table of per-channel locks with their holder counts.
  - `card`, `images`, `sql`, `dispatch`, `text`: cards and their identifiers,
    where images are kept, the per-set and per-artist queries, which handler
    an event goes to, and string helpers.
- `app/` is the program around it: the Discord client (serenity), the card
  store (Postgres through sqlx), the cache (Redis), the image files, and the
  RON form in which a game is cached.
- `tests/` holds the tests of the library.

The calls into `regex` and `unicode-normalization` sit behind small trusted
wrappers whose contracts name what they return; everything built on them is
proved.
