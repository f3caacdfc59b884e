//! A verified engine for a two-player 3x3 grid game.
//!
//! The [`Board`] tracks the nine cells and whose turn it is, enforces move
//! legality, and detects terminal conditions (a completed line or a full
//! board). Every operation carries a contract over the board's mathematical
//! model, [`BoardModel`].

use vstd::prelude::*;
use vstd::string::StringExecFns;

verus! {

/// A cell address: column and row, each in `[0, 2]`.
#[derive(PartialEq, Eq, Structural, Copy, Clone, Debug)]
pub struct CellIndex(pub u8, pub u8);

/// The outcome of one move attempt.
#[derive(PartialEq, Eq, Structural, Copy, Clone, Debug)]
pub enum TurnResult {
    Continue,
    Draw,
    Winner(Symbol),
    InvalidMove,
}

/// One of the two marks a player places.
#[derive(PartialEq, Eq, Structural, Copy, Clone, Debug)]
pub enum Symbol {
    X,
    O,
}

/// The symbol that moves after `s`.
pub open spec fn other_symbol(s: Symbol) -> Symbol {
    match s {
        Symbol::X => Symbol::O,
        Symbol::O => Symbol::X,
    }
}

/// The mathematical model of a board: nine cells in row-major order
/// (the cell at column `c`, row `r` sits at index `c + 3 * r`) and the
/// player whose turn it is.
#[verifier::ext_equal]
pub ghost struct BoardModel {
    pub cells: Seq<Option<Symbol>>,
    pub player: Symbol,
}

/// The row-major position of the cell at column `col`, row `row`.
pub open spec fn cell_offset(col: int, row: int) -> int {
    col + 3 * row
}

impl BoardModel {
    /// A model is well formed when it has exactly nine cells.
    pub open spec fn wf(self) -> bool {
        self.cells.len() == 9
    }

    /// The occupant of the cell at column `col`, row `row`.
    pub open spec fn cell(self, col: int, row: int) -> Option<Symbol> {
        self.cells[cell_offset(col, row)]
    }

    /// Every cell is occupied.
    pub open spec fn full(self) -> bool {
        forall|i: int| 0 <= i < 9 ==> self.cells[i] is Some
    }

    /// Row `r` is three cells of symbol `s`.
    pub open spec fn row_win(self, r: int, s: Symbol) -> bool {
        &&& self.cell(0, r) == Some(s)
        &&& self.cell(1, r) == Some(s)
        &&& self.cell(2, r) == Some(s)
    }

    /// Column `c` is three cells of symbol `s`.
    pub open spec fn column_win(self, c: int, s: Symbol) -> bool {
        &&& self.cell(c, 0) == Some(s)
        &&& self.cell(c, 1) == Some(s)
        &&& self.cell(c, 2) == Some(s)
    }

    /// The main diagonal is three cells of symbol `s`.
    pub open spec fn main_diagonal_win(self, s: Symbol) -> bool {
        &&& self.cell(0, 0) == Some(s)
        &&& self.cell(1, 1) == Some(s)
        &&& self.cell(2, 2) == Some(s)
    }

    /// The anti-diagonal is three cells of symbol `s`.
    pub open spec fn anti_diagonal_win(self, s: Symbol) -> bool {
        &&& self.cell(2, 0) == Some(s)
        &&& self.cell(1, 1) == Some(s)
        &&& self.cell(0, 2) == Some(s)
    }

    /// Symbol `s` holds one of the eight winning lines:
    /// three rows, three columns, or two diagonals.
    pub open spec fn wins(self, s: Symbol) -> bool {
        ||| self.row_win(0, s)
        ||| self.row_win(1, s)
        ||| self.row_win(2, s)
        ||| self.column_win(0, s)
        ||| self.column_win(1, s)
        ||| self.column_win(2, s)
        ||| self.main_diagonal_win(s)
        ||| self.anti_diagonal_win(s)
    }

    /// The model after the current player marks the cell at
    /// column `col`, row `row`; the turn pointer is left as it was.
    pub open spec fn place(self, col: int, row: int) -> BoardModel {
        BoardModel { cells: self.cells.update(cell_offset(col, row), Some(self.player)), ..self }
    }
}

/// The board: nine cells addressed by (column, row), and the player whose
/// turn it is. Only [`Board::process_turn`] mutates a board, and only when
/// the move it is given is legal.
pub struct Board {
    cells: [Option<Symbol>; 9],
    current_player: Symbol,
}

impl View for Board {
    type V = BoardModel;

    closed spec fn view(&self) -> BoardModel {
        BoardModel { cells: self.cells@, player: self.current_player }
    }
}

impl Board {
    /// A fresh board: all nine cells empty, `initial_player` to move.
    pub fn new(initial_player: Symbol) -> (board: Board)
        ensures
            board@.wf(),
            board@.player == initial_player,
            forall|i: int| 0 <= i < 9 ==> board@.cells[i] is None,
    {
        Board { cells: [None, None, None, None, None, None, None, None, None], current_player: initial_player }
    }

    /// The symbol whose turn it is.
    pub fn current_player(&self) -> (player: Symbol)
        ensures
            player == self@.player,
    {
        self.current_player
    }

    /// The occupant of the cell at `index`.
    pub fn get(&self, index: CellIndex) -> (cell: Option<Symbol>)
        requires
            index.0 < 3,
            index.1 < 3,
        ensures
            cell == self@.cell(index.0 as int, index.1 as int),
    {
        let offset: usize = index.0 as usize + 3 * index.1 as usize;
        self.cells[offset]
    }

    fn set(&mut self, index: CellIndex, symbol: Symbol)
        requires
            index.0 < 3,
            index.1 < 3,
        ensures
            final(self)@.cells == old(self)@.cells.update(cell_offset(index.0 as int, index.1 as int), Some(symbol)),
            final(self)@.player == old(self)@.player,
    {
        let offset: usize = index.0 as usize + 3 * index.1 as usize;
        self.cells[offset] = Some(symbol);
    }

    /// Attempt to place the current player's symbol at `index`.
    ///
    /// A move into an occupied cell is rejected: the result is
    /// `InvalidMove` and nothing changes, the turn pointer included.
    /// An accepted move marks exactly the chosen cell; the full board
    /// is then examined, wins before draws. A completed line ends the
    /// game with `Winner` of the symbol holding it, a full board with
    /// `Draw` — in both cases the turn pointer stays put. Otherwise the
    /// turn passes to the other player and the result is `Continue`.
    pub fn process_turn(&mut self, index: CellIndex) -> (result: TurnResult)
        requires
            index.0 < 3,
            index.1 < 3,
        ensures
            old(self)@.cell(index.0 as int, index.1 as int) is Some ==> {
                &&& result == TurnResult::InvalidMove
                &&& final(self)@ == old(self)@
            },
            old(self)@.cell(index.0 as int, index.1 as int) is None ==> {
                let placed = old(self)@.place(index.0 as int, index.1 as int);
                &&& final(self)@.cells == placed.cells
                &&& (result matches TurnResult::Winner(w) ==> placed.wins(w))
                &&& (result is Winner <==> placed.wins(Symbol::X) || placed.wins(Symbol::O))
                &&& (forall|s: Symbol| placed.wins(s) && !placed.wins(other_symbol(s))
                        ==> result == TurnResult::Winner(s))
                &&& (result == TurnResult::Draw <==>
                        !placed.wins(Symbol::X) && !placed.wins(Symbol::O) && placed.full())
                &&& (result == TurnResult::Continue <==>
                        !placed.wins(Symbol::X) && !placed.wins(Symbol::O) && !placed.full())
            },
            forall|i: int| 0 <= i < 9 && old(self)@.cells[i] is Some
                ==> final(self)@.cells[i] == old(self)@.cells[i],
            result == TurnResult::Continue ==> final(self)@.player == other_symbol(old(self)@.player),
            result != TurnResult::Continue ==> final(self)@.player == old(self)@.player,
    {
        let successful_move = self.try_player_move(index);

        if !successful_move {
            return TurnResult::InvalidMove;
        }

        if let Some(win_line) = self.check_for_win() {
            return TurnResult::Winner(win_line);
        }

        if self.check_for_draw() {
            return TurnResult::Draw;
        }

        self.next_player_turn();
        TurnResult::Continue
    }

    fn try_player_move(&mut self, index: CellIndex) -> (success: bool)
        requires
            index.0 < 3,
            index.1 < 3,
        ensures
            success == (old(self)@.cell(index.0 as int, index.1 as int) is None),
            success ==> final(self)@ == old(self)@.place(index.0 as int, index.1 as int),
            !success ==> final(self)@ == old(self)@,
    {
        match self.get(index) {
            None => {
                self.set(index, self.current_player);
                true
            },
            Some(_) => false,
        }
    }

    fn next_player_turn(&mut self)
        ensures
            final(self)@.player == other_symbol(old(self)@.player),
            final(self)@.cells == old(self)@.cells,
    {
        match self.current_player {
            Symbol::X => self.current_player = Symbol::O,
            Symbol::O => self.current_player = Symbol::X,
        }
    }

    fn check_for_draw(&self) -> (draw: bool)
        ensures
            draw == self@.full(),
    {
        let mut i: usize = 0;
        while i < 9
            invariant
                i <= 9,
                forall|j: int| 0 <= j < i ==> self@.cells[j] is Some,
            decreases 9 - i,
        {
            if self.cells[i].is_none() {
                return false;
            }
            i = i + 1;
        }
        true
    }

    fn select(x: u8, y: u8, selector: bool) -> (chosen: u8)
        ensures
            chosen == if selector { x } else { y },
    {
        if selector {
            x
        } else {
            y
        }
    }

    fn select_index(a: u8, b: u8, is_rows: bool) -> (index: CellIndex)
        ensures
            index == if is_rows { CellIndex(a, b) } else { CellIndex(b, a) },
    {
        let x = Self::select(a, b, is_rows);
        let y = Self::select(b, a, is_rows);

        CellIndex(x, y)
    }

    fn check_win_line(&self, is_rows: bool) -> (winner: Option<Symbol>)
        ensures
            winner matches Some(s) ==> exists|i: int| 0 <= i < 3 && line_win(self@, is_rows, i, s),
            winner is None ==> forall|i: int, s: Symbol| 0 <= i < 3 ==> !line_win(self@, is_rows, i, s),
    {
        let mut i: u8 = 0;
        while i < 3
            invariant
                i <= 3,
                forall|j: int, s: Symbol| 0 <= j < i ==> !line_win(self@, is_rows, j, s),
            decreases 3 - i,
        {
            let a = self.get(Self::select_index(0, i, is_rows));
            let b = self.get(Self::select_index(1, i, is_rows));
            let c = self.get(Self::select_index(2, i, is_rows));

            if let (Some(sa), Some(sb), Some(sc)) = (a, b, c) {
                if sa == sb && sb == sc {
                    proof {
                        assert(line_win(self@, is_rows, i as int, sa));
                    }
                    return Some(sa);
                }
            }
            i = i + 1;
        }

        None
    }

    fn check_rows(&self) -> (winner: Option<Symbol>)
        ensures
            winner matches Some(s) ==> exists|i: int| 0 <= i < 3 && self@.row_win(i, s),
            winner is None ==> forall|i: int, s: Symbol| 0 <= i < 3 ==> !self@.row_win(i, s),
    {
        let winner = self.check_win_line(true);
        proof {
            if winner is None {
                assert forall|i: int, s: Symbol| 0 <= i < 3 implies !self@.row_win(i, s) by {
                    assert(!line_win(self@, true, i, s));
                }
            }
        }
        winner
    }

    fn check_columns(&self) -> (winner: Option<Symbol>)
        ensures
            winner matches Some(s) ==> exists|i: int| 0 <= i < 3 && self@.column_win(i, s),
            winner is None ==> forall|i: int, s: Symbol| 0 <= i < 3 ==> !self@.column_win(i, s),
    {
        let winner = self.check_win_line(false);
        proof {
            if winner is None {
                assert forall|i: int, s: Symbol| 0 <= i < 3 implies !self@.column_win(i, s) by {
                    assert(!line_win(self@, false, i, s));
                }
            }
        }
        winner
    }

    fn check_diagonals(&self) -> (winner: Option<Symbol>)
        ensures
            winner matches Some(s) ==> self@.main_diagonal_win(s) || self@.anti_diagonal_win(s),
            winner is None ==> forall|s: Symbol| !self@.main_diagonal_win(s) && !self@.anti_diagonal_win(s),
    {
        let center = self.get(CellIndex(1, 1));

        if let Some(center_symbol) = center {
            let top_left = self.get(CellIndex(0, 0));
            let top_right = self.get(CellIndex(2, 0));

            let bottom_left = self.get(CellIndex(0, 2));
            let bottom_right = self.get(CellIndex(2, 2));

            let main_diagonal = (matches!(top_left, Some(s) if s == center_symbol))
                && (matches!(bottom_right, Some(s) if s == center_symbol));
            let anti_diagonal = (matches!(bottom_left, Some(s) if s == center_symbol))
                && (matches!(top_right, Some(s) if s == center_symbol));

            if main_diagonal || anti_diagonal {
                return Some(center_symbol);
            }
        }

        None
    }

    fn get_symbol(symbol: Option<Symbol>) -> (c: char)
        ensures
            c == spec_symbol_char(symbol),
    {
        match symbol {
            None => ' ',
            Some(Symbol::X) => 'X',
            Some(Symbol::O) => 'O',
        }
    }

    fn symbol_text(symbol: Option<Symbol>) -> (text: &'static str)
        ensures
            text@ == seq![spec_symbol_char(symbol)],
    {
        let c = Self::get_symbol(symbol);
        if c == 'X' {
            proof {
                reveal_strlit("X");
                assert("X"@ =~= seq!['X']);
            }
            "X"
        } else if c == 'O' {
            proof {
                reveal_strlit("O");
                assert("O"@ =~= seq!['O']);
            }
            "O"
        } else {
            proof {
                reveal_strlit(" ");
                assert(" "@ =~= seq![' ']);
            }
            " "
        }
    }

    fn row_label(row_index: u8) -> (text: &'static str)
        requires
            row_index < 3,
        ensures
            text@ == seq![spec_digit_char(row_index as int)],
    {
        if row_index == 0 {
            proof {
                reveal_strlit("0");
                assert("0"@ =~= seq!['0']);
            }
            "0"
        } else if row_index == 1 {
            proof {
                reveal_strlit("1");
                assert("1"@ =~= seq!['1']);
            }
            "1"
        } else {
            proof {
                reveal_strlit("2");
                assert("2"@ =~= seq!['2']);
            }
            "2"
        }
    }

    fn write_row(&self, output: &mut String, row_index: u8)
        requires
            row_index < 3,
        ensures
            final(output)@ == old(output)@ + spec_row_text(self@, row_index as int),
    {
        let row_str = Self::row_label(row_index);

        output.append(row_str);
        output.append("|");

        output.append(Self::symbol_text(self.get(CellIndex(0, row_index))));
        output.append("|");
        output.append(Self::symbol_text(self.get(CellIndex(1, row_index))));
        output.append("|");
        output.append(Self::symbol_text(self.get(CellIndex(2, row_index))));
        output.append("|");

        output.append(row_str);
        output.append("\n");

        proof {
            reveal_strlit("|");
            reveal_strlit("\n");
            assert(output@ =~= old(output)@ + spec_row_text(self@, row_index as int));
        }
    }

    /// Render the board as a fixed-format grid. The text is a pure
    /// function of the board's state: equal states render equally.
    pub fn as_text(&self) -> (text: String)
        ensures
            text@ == spec_render(self@),
    {
        let mut output = String::from_str("-|0|1|2|-\n");
        self.write_row(&mut output, 0);
        self.write_row(&mut output, 1);
        self.write_row(&mut output, 2);
        output.append("-|0|1|2|-\n");
        proof {
            assert(output@ =~= spec_render(self@));
        }
        output
    }

    fn check_for_win(&self) -> (winner: Option<Symbol>)
        ensures
            winner matches Some(s) ==> self@.wins(s),
            winner is None ==> forall|s: Symbol| !self@.wins(s),
    {
        if let Some(row) = self.check_rows() {
            return Some(row);
        } else if let Some(column) = self.check_columns() {
            return Some(column);
        } else if let Some(diagonal) = self.check_diagonals() {
            return Some(diagonal);
        }
        None
    }
}

/// Line `i` of the family that `is_rows` selects — row `i` when true,
/// column `i` when false — is three cells of symbol `s` in model `bm`.
pub open spec fn line_win(bm: BoardModel, is_rows: bool, i: int, s: Symbol) -> bool {
    if is_rows {
        bm.row_win(i, s)
    } else {
        bm.column_win(i, s)
    }
}

/// A move into an empty cell can only create a winning line for the player
/// who made it: if `s` had no line before the placement and has one after,
/// then `s` is the mover. Together with the contract of
/// [`Board::process_turn`], this pins the symbol that `Winner` carries
/// whenever the opponent holds no line already.
pub proof fn lemma_new_win_is_by_the_mover(bm: BoardModel, col: int, row: int, s: Symbol)
    requires
        bm.wf(),
        0 <= col < 3,
        0 <= row < 3,
        bm.cell(col, row) is None,
        !bm.wins(s),
        bm.place(col, row).wins(s),
    ensures
        s == bm.player,
{
}

/// The character that renders one cell: the symbol's letter, or a blank
/// for an empty cell.
pub open spec fn spec_symbol_char(symbol: Option<Symbol>) -> char {
    match symbol {
        None => ' ',
        Some(Symbol::X) => 'X',
        Some(Symbol::O) => 'O',
    }
}

/// The digit that labels row `r`.
pub open spec fn spec_digit_char(r: int) -> char {
    if r == 0 {
        '0'
    } else if r == 1 {
        '1'
    } else {
        '2'
    }
}

/// One rendered row: its index, the three cells separated by bars,
/// the index again, and a line break.
pub open spec fn spec_row_text(bm: BoardModel, r: int) -> Seq<char> {
    seq![
        spec_digit_char(r),
        '|',
        spec_symbol_char(bm.cell(0, r)),
        '|',
        spec_symbol_char(bm.cell(1, r)),
        '|',
        spec_symbol_char(bm.cell(2, r)),
        '|',
        spec_digit_char(r),
        '\n',
    ]
}

/// The decorative line that frames the grid, labelling the columns.
pub open spec fn spec_frame_line() -> Seq<char> {
    "-|0|1|2|-\n"@
}

/// The full rendering of a board: the frame, the three rows, the frame.
/// A pure function of the model — identical states render identically.
pub open spec fn spec_render(bm: BoardModel) -> Seq<char> {
    spec_frame_line() + spec_row_text(bm, 0) + spec_row_text(bm, 1) + spec_row_text(bm, 2)
        + spec_frame_line()
}

} // verus!
