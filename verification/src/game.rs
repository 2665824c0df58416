use vstd::prelude::*;

use crate::errors::TicTacToeError;

verus! {

/// An opaque, externally issued player identity (for instance a public key
/// or an account handle, reduced to a plain numeric handle). The engine
/// never interprets it; it only compares identities for equality.
#[derive(Clone, Copy, Debug, PartialEq, Eq, Structural)]
pub struct Player {
    pub id: u64,
}

/// A board coordinate supplied by the caller with each move. Valid rows and
/// columns lie in `[0, 2]`; anything else is rejected as out of bounds.
#[derive(Clone, Copy, Debug, PartialEq, Eq, Structural)]
pub struct Tile {
    pub row: u8,
    pub column: u8,
}

/// One of the two marks. The player at index 0 always plays `X`, the player
/// at index 1 always plays `O`; the mapping is fixed for the life of a game.
#[derive(Clone, Copy, Debug, PartialEq, Eq, Structural)]
pub enum Sign {
    X,
    O,
}

/// The match's outcome state: `Active` accepts further moves; `Won` and
/// `Tie` are terminal and never left once reached.
#[derive(Clone, Copy, Debug, PartialEq, Eq, Structural)]
pub enum GameState {
    Active,
    Tie,
    Won { winner: Player },
}

impl Default for GameState {
    /// A game's outcome starts out `Active`.
    fn default() -> (s: GameState)
        ensures
            s == GameState::Active,
    {
        GameState::Active
    }
}

impl Sign {
    /// The sign belonging to a player index: 0 plays `X`, 1 plays `O`.
    /// Any other index names no player and yields nothing.
    pub fn from_usize(n: usize) -> (s: Option<Sign>)
        ensures
            n == 0 ==> s == Some(Sign::X),
            n == 1 ==> s == Some(Sign::O),
            n >= 2 ==> s is None,
    {
        if n == 0 {
            Some(Sign::X)
        } else if n == 1 {
            Some(Sign::O)
        } else {
            None
        }
    }
}

/// The cell index of a tile on the flattened 3x3 board.
pub open spec fn tile_index(t: Tile) -> int {
    t.row * 3 + t.column
}

/// Whether a tile's row and column both lie in `[0, 2]`.
pub open spec fn tile_in_bounds(t: Tile) -> bool {
    t.row <= 2 && t.column <= 2
}

/// The sign the player at the given index plays.
pub open spec fn sign_of_index(i: int) -> Sign {
    if i == 0 {
        Sign::X
    } else {
        Sign::O
    }
}

/// A board with all nine cells unmarked.
pub open spec fn empty_board() -> Seq<Option<Sign>> {
    Seq::new(9, |i: int| None)
}

/// Three cells form a winning line when all three are marked with the same
/// sign.
pub open spec fn line_won(b: Seq<Option<Sign>>, first: int, second: int, third: int) -> bool {
    &&& b[first] is Some
    &&& b[first] == b[second]
    &&& b[first] == b[third]
}

/// Whether any of the eight lines (three rows, three columns, two
/// diagonals) is winning.
pub open spec fn some_line_won(b: Seq<Option<Sign>>) -> bool {
    ||| line_won(b, 0, 1, 2)
    ||| line_won(b, 3, 4, 5)
    ||| line_won(b, 6, 7, 8)
    ||| line_won(b, 0, 3, 6)
    ||| line_won(b, 1, 4, 7)
    ||| line_won(b, 2, 5, 8)
    ||| line_won(b, 0, 4, 8)
    ||| line_won(b, 2, 4, 6)
}

/// Whether every cell of the board is marked.
pub open spec fn board_full(b: Seq<Option<Sign>>) -> bool {
    forall|i: int| 0 <= i < 9 ==> b[i] is Some
}

/// How many of the first `n` cells are marked.
pub open spec fn count_marked(b: Seq<Option<Sign>>, n: int) -> int
    decreases n,
{
    if n <= 0 {
        0
    } else {
        count_marked(b, n - 1) + if b[n - 1] is Some {
            1int
        } else {
            0int
        }
    }
}

/// The number of marked cells among the first `n` lies between 0 and `n`.
pub proof fn lemma_count_marked_bounds(b: Seq<Option<Sign>>, n: int)
    requires
        n >= 0,
    ensures
        0 <= count_marked(b, n) <= n,
    decreases n,
{
    if n > 0 {
        lemma_count_marked_bounds(b, n - 1);
    }
}

/// Marking one unmarked cell raises the marked-cell count by exactly one.
pub proof fn lemma_count_marked_update(b: Seq<Option<Sign>>, i: int, s: Sign, n: int)
    requires
        0 <= i < n <= b.len(),
        b[i] is None,
    ensures
        count_marked(b.update(i, Some(s)), n) == count_marked(b, n) + 1,
    decreases n,
{
    let b2 = b.update(i, Some(s));
    if i == n - 1 {
        lemma_count_marked_agree(b, b2, n - 1);
    } else {
        lemma_count_marked_update(b, i, s, n - 1);
    }
}

/// The marked-cell count over the first `n` cells depends only on those
/// cells.
pub proof fn lemma_count_marked_agree(a: Seq<Option<Sign>>, b: Seq<Option<Sign>>, n: int)
    requires
        forall|k: int| 0 <= k < n ==> a[k] == b[k],
    ensures
        count_marked(a, n) == count_marked(b, n),
    decreases n,
{
    if n > 0 {
        lemma_count_marked_agree(a, b, n - 1);
    }
}

/// An entirely unmarked prefix has a marked-cell count of zero.
pub proof fn lemma_count_marked_empty(b: Seq<Option<Sign>>, n: int)
    requires
        forall|k: int| 0 <= k < n ==> b[k] is None,
    ensures
        count_marked(b, n) == 0,
    decreases n,
{
    if n > 0 {
        lemma_count_marked_empty(b, n - 1);
    }
}

/// The mathematical model of a game record: the two player identities
/// (indexed 0 and 1), the turn counter, the flattened 3x3 board (cell
/// `(r, c)` at index `r * 3 + c`), and the outcome state.
#[verifier::ext_equal]
pub ghost struct GameModel {
    pub players: Seq<Player>,
    pub turn: int,
    pub board: Seq<Option<Sign>>,
    pub state: GameState,
}

impl GameModel {
    /// The model of a freshly allocated, not yet started record: turn 0,
    /// placeholder identities, empty board, outcome `Active`.
    pub open spec fn pristine() -> GameModel {
        GameModel {
            players: seq![Player { id: 0 }, Player { id: 0 }],
            turn: 0,
            board: empty_board(),
            state: GameState::Active,
        }
    }

    /// Well-formedness of a started game record. The turn counter starts at
    /// 1 and advances by 1 after each move that leaves the game active, and
    /// freezes on the concluding move; so while the game is active it is one
    /// more than the number of marked cells, and once the game has concluded
    /// it equals that number.
    pub open spec fn wf(self) -> bool {
        &&& self.players.len() == 2
        &&& self.board.len() == 9
        &&& (self.state is Active ==> self.turn == 1 + count_marked(self.board, 9))
        &&& (!(self.state is Active) ==> self.turn == count_marked(self.board, 9))
    }

    /// The index of the player whose turn it is: play alternates, starting
    /// from index 0 on turn 1.
    pub open spec fn active_index(self) -> int {
        (self.turn - 1) % 2
    }

    /// The identity of the player whose turn it is.
    pub open spec fn active_player(self) -> Player {
        self.players[self.active_index()]
    }

    /// The outcome the detection algorithm assigns to this record: `Won` by
    /// the active (just-moved) player if any line is winning, `Tie` if the
    /// board is full without a winning line, and otherwise the outcome is
    /// left as it stands.
    pub open spec fn detect(self) -> GameState {
        if some_line_won(self.board) {
            GameState::Won { winner: self.active_player() }
        } else if board_full(self.board) {
            GameState::Tie
        } else {
            self.state
        }
    }

    /// The record after the active player successfully marks the given
    /// tile: the cell receives the active player's sign, the outcome is
    /// re-detected, and the turn counter advances only if the game is still
    /// active afterwards.
    pub open spec fn mark(self, t: Tile) -> GameModel {
        let b2 = self.board.update(tile_index(t), Some(sign_of_index(self.active_index())));
        let s2 = if some_line_won(b2) {
            GameState::Won { winner: self.active_player() }
        } else if board_full(b2) {
            GameState::Tie
        } else {
            GameState::Active
        };
        GameModel {
            players: self.players,
            turn: if s2 is Active {
                self.turn + 1
            } else {
                self.turn
            },
            board: b2,
            state: s2,
        }
    }

    /// One move application without the identity check: the validation
    /// cascade over outcome, bounds and cell occupancy, each failure leaving
    /// the record unchanged, and a successful move marking the cell.
    pub open spec fn play_step(self, t: Tile) -> (GameModel, Result<(), TicTacToeError>) {
        if !(self.state is Active) {
            (self, Err(TicTacToeError::GameAlreadyOver))
        } else if !tile_in_bounds(t) {
            (self, Err(TicTacToeError::TileOutOfBounds))
        } else if self.board[tile_index(t)] is Some {
            (self, Err(TicTacToeError::TileAlreadySet))
        } else {
            (self.mark(t), Ok(()))
        }
    }

    /// One full move application: the validation cascade in order —
    /// outcome, acting identity, bounds, cell occupancy — each failure
    /// leaving the record unchanged with its own error.
    pub open spec fn step(self, p: Player, t: Tile) -> (GameModel, Result<(), TicTacToeError>) {
        if !(self.state is Active) {
            (self, Err(TicTacToeError::GameAlreadyOver))
        } else if p != self.active_player() {
            (self, Err(TicTacToeError::NotPlayersTurn))
        } else {
            self.play_step(t)
        }
    }
}

/// A move application never breaks well-formedness of the game record.
pub proof fn lemma_step_preserves_wf(m: GameModel, p: Player, t: Tile)
    requires
        m.wf(),
    ensures
        m.step(p, t).0.wf(),
{
    if m.state is Active && p == m.active_player() {
        lemma_play_step_preserves_wf(m, t);
    }
}

/// A move application without the identity check never breaks
/// well-formedness of the game record.
pub proof fn lemma_play_step_preserves_wf(m: GameModel, t: Tile)
    requires
        m.wf(),
    ensures
        m.play_step(t).0.wf(),
{
    if m.state is Active && tile_in_bounds(t) && m.board[tile_index(t)] is None {
        lemma_count_marked_update(m.board, tile_index(t), sign_of_index(m.active_index()), 9);
    }
}

/// For every valid game, a successful move advances the turn counter by
/// exactly 1 when the game stays active, and leaves it unchanged when the
/// move concludes the game.
pub proof fn lemma_turn_counter(m: GameModel, p: Player, t: Tile)
    requires
        m.wf(),
        m.step(p, t).1 is Ok,
    ensures
        m.step(p, t).0.state is Active ==> m.step(p, t).0.turn == m.turn + 1,
        !(m.step(p, t).0.state is Active) ==> m.step(p, t).0.turn == m.turn,
{
}

/// A move by the active player of an active game onto an already-marked
/// in-bounds cell fails with `TileAlreadySet` and leaves the record — in
/// particular the board — unchanged.
pub proof fn lemma_tile_already_set(m: GameModel, p: Player, t: Tile)
    requires
        m.state is Active,
        p == m.active_player(),
        tile_in_bounds(t),
        m.board[tile_index(t)] is Some,
    ensures
        m.step(p, t).0 == m,
        m.step(p, t).1 == Err::<(), TicTacToeError>(TicTacToeError::TileAlreadySet),
{
}

/// A move by the active player of an active game with a row or column
/// outside `[0, 2]` fails with `TileOutOfBounds` and leaves the record
/// unchanged, whatever the board holds.
pub proof fn lemma_tile_out_of_bounds(m: GameModel, p: Player, t: Tile)
    requires
        m.state is Active,
        p == m.active_player(),
        !tile_in_bounds(t),
    ensures
        m.step(p, t).0 == m,
        m.step(p, t).1 == Err::<(), TicTacToeError>(TicTacToeError::TileOutOfBounds),
{
}

/// Once the outcome is `Won` or `Tie`, any further move — by any identity,
/// on any tile — fails with `GameAlreadyOver` and leaves the record
/// unchanged.
pub proof fn lemma_game_already_over(m: GameModel, p: Player, t: Tile)
    requires
        m.state is Won || m.state is Tie,
    ensures
        m.step(p, t).0 == m,
        m.step(p, t).1 == Err::<(), TicTacToeError>(TicTacToeError::GameAlreadyOver),
{
}

/// A move by anyone but the active player of an active game fails with
/// `NotPlayersTurn` and leaves the record unchanged, regardless of tile
/// validity.
pub proof fn lemma_not_players_turn(m: GameModel, p: Player, t: Tile)
    requires
        m.state is Active,
        p != m.active_player(),
    ensures
        m.step(p, t).0 == m,
        m.step(p, t).1 == Err::<(), TicTacToeError>(TicTacToeError::NotPlayersTurn),
{
}

/// A failing move is idempotent: it leaves the record unchanged, so
/// repeating the identical call any number of times keeps yielding the very
/// same error on the very same record.
pub proof fn lemma_failing_move_idempotent(m: GameModel, p: Player, t: Tile)
    requires
        m.step(p, t).1 is Err,
    ensures
        m.step(p, t).0 == m,
        m.step(p, t).0.step(p, t) == m.step(p, t),
{
}

/// The record's standing invariants, preserved by every move application:
/// the player identities are never mutated, the turn counter is never
/// decremented, a terminal record is never changed at all, a marked cell is
/// never cleared or remarked, and the outcome only ever changes away from
/// `Active`.
pub proof fn lemma_step_invariants(m: GameModel, p: Player, t: Tile)
    requires
        m.wf(),
    ensures
        m.step(p, t).0.players == m.players,
        m.step(p, t).0.turn >= m.turn,
        !(m.state is Active) ==> m.step(p, t).0 == m,
        forall|i: int|
            #![trigger m.board[i]]
            0 <= i < 9 && m.board[i] is Some ==> m.step(p, t).0.board[i] == m.board[i],
        m.step(p, t).0.state != m.state ==> m.state is Active,
{
}

/// The full persisted state of one match: two fixed player identities, the
/// turn counter, the 3x3 board kept row-major in a flat array, and the
/// outcome state.
#[derive(Clone, Copy, Debug, PartialEq, Eq)]
pub struct Game {
    pub players: [Player; 2],
    pub turn: u8,
    pub board: [Option<Sign>; 9],
    pub state: GameState,
}

impl View for Game {
    type V = GameModel;

    open spec fn view(&self) -> GameModel {
        GameModel {
            players: self.players@,
            turn: self.turn as int,
            board: self.board@,
            state: self.state,
        }
    }
}

impl Default for Game {
    /// A freshly allocated record: placeholder identities, turn 0, empty
    /// board, outcome `Active`. It accepts moves only once `start` has set
    /// the turn counter to 1.
    fn default() -> (g: Game)
        ensures
            g@ == GameModel::pristine(),
    {
        let g = Game {
            players: [Player { id: 0 }, Player { id: 0 }],
            turn: 0,
            board: [None; 9],
            state: GameState::Active,
        };
        proof {
            assert(g@.players =~= GameModel::pristine().players);
            assert(g@.board =~= empty_board());
            assert(g@ =~= GameModel::pristine());
        }
        g
    }
}

impl Game {
    /// Whether the game still accepts moves.
    pub fn is_active(&self) -> (r: bool)
        ensures
            r == (self@.state is Active),
    {
        self.state == GameState::Active
    }

    /// Start a freshly allocated record by advancing its turn counter from
    /// 0 to 1. A record already in progress is left unchanged and rejected
    /// with `GameAlreadyStarted`.
    pub fn start(&mut self) -> (r: Result<(), TicTacToeError>)
        ensures
            old(self).turn == 0 ==> r == Ok::<(), TicTacToeError>(())
                && final(self)@ == (GameModel { turn: 1, ..old(self)@ }),
            old(self).turn != 0 ==> r == Err::<(), TicTacToeError>(
                TicTacToeError::GameAlreadyStarted,
            ) && *final(self) == *old(self),
    {
        if self.turn == 0 {
            self.turn = 1;
            Ok(())
        } else {
            Err(TicTacToeError::GameAlreadyStarted)
        }
    }

    /// Record the two player identities, index 0 first. They are fixed for
    /// the life of the game once it is started.
    pub fn set_players(&mut self, players: [Player; 2])
        ensures
            final(self)@ == (GameModel { players: players@, ..old(self)@ }),
    {
        self.players = players;
    }

    /// The index of the player whose turn it is, from the turn counter's
    /// parity.
    fn current_player_index(&self) -> (i: usize)
        requires
            self.turn >= 1,
        ensures
            i == self@.active_index(),
            i < 2,
    {
        ((self.turn - 1) % 2) as usize
    }

    /// The identity of the player whose turn it is.
    pub fn current_player(&self) -> (p: Player)
        requires
            self.turn >= 1,
        ensures
            p == self@.active_player(),
    {
        self.players[self.current_player_index()]
    }

    /// Whether the three given cells form a winning line: all marked, all
    /// with the same sign.
    fn is_winning_trio(&self, first: usize, second: usize, third: usize) -> (r: bool)
        requires
            first < 9,
            second < 9,
            third < 9,
        ensures
            r == line_won(self@.board, first as int, second as int, third as int),
    {
        match (self.board[first], self.board[second], self.board[third]) {
            (Some(a), Some(b), Some(c)) => a == b && a == c,
            _ => false,
        }
    }

    /// Whether every cell of the board is marked.
    fn is_full(&self) -> (r: bool)
        ensures
            r == board_full(self@.board),
    {
        let mut i: usize = 0;
        while i < 9
            invariant
                i <= 9,
                forall|k: int| 0 <= k < i ==> self@.board[k] is Some,
            decreases 9 - i,
        {
            if self.board[i].is_none() {
                return false;
            }
            i = i + 1;
        }
        true
    }

    /// Run outcome detection over the board: a winning line ends the game
    /// in favor of the player whose turn it is (the one who just moved,
    /// since the turn counter has not yet advanced); a full board without a
    /// winning line ends it in a tie; otherwise the outcome is left alone.
    fn update_state(&mut self)
        requires
            old(self).turn >= 1,
        ensures
            final(self)@ == (GameModel { state: old(self)@.detect(), ..old(self)@ }),
    {
        let won = self.is_winning_trio(0, 1, 2) || self.is_winning_trio(3, 4, 5)
            || self.is_winning_trio(6, 7, 8) || self.is_winning_trio(0, 3, 6)
            || self.is_winning_trio(1, 4, 7) || self.is_winning_trio(2, 5, 8)
            || self.is_winning_trio(0, 4, 8) || self.is_winning_trio(2, 4, 6);
        if won {
            let winner = self.current_player();
            self.state = GameState::Won { winner };
        } else if self.is_full() {
            self.state = GameState::Tie;
        }
    }

    /// Apply one move for the player whose turn it is: reject a finished
    /// game, an out-of-bounds tile, or an occupied cell, in that order and
    /// without mutating anything; otherwise mark the cell with the active
    /// player's sign, re-detect the outcome, and advance the turn counter
    /// only if the game is still active.
    pub fn play(&mut self, tile: &Tile) -> (r: Result<(), TicTacToeError>)
        requires
            old(self)@.wf(),
        ensures
            final(self)@ == old(self)@.play_step(*tile).0,
            r == old(self)@.play_step(*tile).1,
            final(self)@.wf(),
    {
        if !self.is_active() {
            return Err(TicTacToeError::GameAlreadyOver);
        }
        if tile.row > 2 || tile.column > 2 {
            return Err(TicTacToeError::TileOutOfBounds);
        }
        let idx: usize = (tile.row as usize) * 3 + (tile.column as usize);
        match self.board[idx] {
            Some(_) => Err(TicTacToeError::TileAlreadySet),
            None => {
                proof {
                    lemma_count_marked_bounds(old(self)@.board, 9);
                }
                let index = self.current_player_index();
                let sign = Sign::from_usize(index).unwrap();
                self.board[idx] = Some(sign);
                proof {
                    lemma_count_marked_update(old(self)@.board, idx as int, sign, 9);
                    lemma_count_marked_bounds(old(self)@.board.update(idx as int, Some(sign)), 9);
                }
                self.update_state();
                if self.is_active() {
                    self.turn = self.turn + 1;
                }
                Ok(())
            },
        }
    }

    /// Apply one move on behalf of a claimed identity: on top of `play`'s
    /// validation, a move by anyone but the active player is rejected with
    /// `NotPlayersTurn` (after the finished-game check, before any tile
    /// check) and mutates nothing.
    pub fn apply_move(&mut self, player: Player, tile: &Tile) -> (r: Result<(), TicTacToeError>)
        requires
            old(self)@.wf(),
        ensures
            final(self)@ == old(self)@.step(player, *tile).0,
            r == old(self)@.step(player, *tile).1,
            final(self)@.wf(),
    {
        if !self.is_active() {
            return Err(TicTacToeError::GameAlreadyOver);
        }
        proof {
            lemma_count_marked_bounds(self@.board, 9);
        }
        if player != self.current_player() {
            return Err(TicTacToeError::NotPlayersTurn);
        }
        self.play(tile)
    }

    /// Create a started game record: the two identities at indices 0 and 1,
    /// turn counter 1, empty board, outcome `Active`.
    pub fn initialize(player_a: Player, player_b: Player) -> (g: Game)
        ensures
            g@ == (GameModel {
                players: seq![player_a, player_b],
                turn: 1,
                board: empty_board(),
                state: GameState::Active,
            }),
            g@.wf(),
    {
        let mut g = Game::default();
        g.set_players([player_a, player_b]);
        let _ = g.start();
        proof {
            assert(g@.players =~= seq![player_a, player_b]);
            lemma_count_marked_empty(g@.board, 9);
            assert(g@ =~= (GameModel {
                players: seq![player_a, player_b],
                turn: 1,
                board: empty_board(),
                state: GameState::Active,
            }));
        }
        g
    }
}

} // verus!
