# hex_go

Verified logic of HexGo, a Go variant played on the vertices of a hexagonal
board graph, and of its self-play training pipeline. The library is written
in Verus. Every function in `src/` carries a contract. Verus proves all of
them except three small trusted wrappers: building a `String` from
characters, shuffling with `rand`, and reading a JSON object with
`serde_json`. Their contracts are taken on trust and stated in their doc
comments.

- `src/`: the verified library. It covers:
  - localisation: locale detection, the translation catalogue, placeholder
    substitution;
  - the menu and in-game interface state, and the texts shown during a game;
  - the evaluation and self-play bookkeeping of training, including the
    schedule of batched self-play;
  - checkpoint and data paths, and the steps of a training run.
- `tests/`: tests that run the library with its outside crates linked.
- `app/`: the unverified side. It holds command-line parsing, file and
  environment access, the background worker, sample files, the drivers of a
  training run and of batched self-play, and the floating-point parts of
  layout, reports and move sampling. The drivers are written against
  traits for the search and the neural network; no implementation of
  these is part of this crate, so the app cannot train a model on its own.
