# vppmake

Builds a forum "pokemon room" page: pokemon that hatch and grow as the
owner's post count rises, placed in rooms and rendered as BBCode with inline
CSS.

- `src/` is the library, verified with Verus:
  - `model`: pokemon, rooms, species, types, slug maps (kept in an `ahash`
    map) and evolution lines (kept in a `smallvec`);
  - `state`: the growth stage of a pokemon at a post count;
  - `query`: following evolution chains, picking names and types of
    fetched species, gathering them by key, and reading the post count off
    a profile page (with `scraper`);
  - `view`: the BBCode builder, CSS declaration lists, asset addresses,
    units, and rendering of rooms;
  - `text`: text fragments and decimal numbers.
- `app/` is the command line program: it reads the source file, parses it
  with `toml`/`serde`, and fetches species from PokeAPI with `rustemon`.
- `tests/` runs the library on concrete inputs.
