use vstd::prelude::*;

verus! {

/// Every way starting a game or applying a move can be rejected. Each
/// precondition violation maps to exactly one variant, and a failing call
/// leaves the game record unchanged.
#[derive(Clone, Copy, Debug, PartialEq, Eq, Structural)]
pub enum TicTacToeError {
    /// `start` was called on a record whose turn counter had already advanced.
    GameAlreadyStarted,
    /// A move was attempted after the outcome left `Active`.
    GameAlreadyOver,
    /// A move was attempted by an identity other than the active player's.
    NotPlayersTurn,
    /// The tile's row or column lies outside `[0, 2]`.
    TileOutOfBounds,
    /// The target cell already holds a sign.
    TileAlreadySet,
}

} // verus!
