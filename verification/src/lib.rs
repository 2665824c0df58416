//! A verified rules engine for a two-player tic-tac-toe match: turn
//! sequencing, move validation, win and tie detection, and terminal-state
//! locking. The hosting environment (storage, authentication, transport)
//! is an external collaborator; the engine itself is a pure transition
//! function over a single game record and performs no I/O.

pub mod errors;
pub mod game;

pub use errors::TicTacToeError;
pub use game::Game;
pub use game::GameModel;
pub use game::GameState;
pub use game::Player;
pub use game::Sign;
pub use game::Tile;
