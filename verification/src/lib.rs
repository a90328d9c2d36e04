//! State and vocabulary of the graphical front end of a game-save backup tool:
//! the running operation (backup, restore or cloud synchronisation) with its
//! integrated cloud steps, the subjects of edits, undo and scrolling, and the
//! actions offered for a game.

pub mod shared;
pub mod operation;
pub mod subject;
pub mod edit;
pub mod game_action;
pub mod tree;
