# ludusavi (front-end state, verified)

The state and vocabulary of the graphical front end of a game-save backup tool,
written in Verus.

- `src/shared.rs`: finality, sync direction, privacy and the errors an operation records.
- `src/operation.rs`: the running operation, its model `OperationView`, the
  integrated cloud steps, and the laws that every mutation keeps.
- `src/subject.rs`: screens, undo subjects and their privacy, scroll areas.
- `src/edit.rs`: list edits and the direction of a move.
- `src/game_action.rs`: the actions offered for a game, their icons and button labels.
- `src/tree.rs`: keys of the save-file tree.

`tests/` exercises the compiled library on concrete values.
