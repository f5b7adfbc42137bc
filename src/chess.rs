use vstd::prelude::*;

use std::str::FromStr;
use vstd::utf8::is_ascii_chars;

verus! {

/// A position of the rules engine, opaque here.
#[verifier::external_type_specification]
#[verifier::external_body]
pub struct ExBoard(::chess::Board);

/// A square of the board, opaque here.
#[verifier::external_type_specification]
#[verifier::external_body]
pub struct ExSquare(::chess::Square);

/// A move as the rules engine takes it, opaque here.
#[verifier::external_type_specification]
#[verifier::external_body]
pub struct ExChessMove(::chess::ChessMove);

/// What the position is after an accepted move.
#[derive(Clone, Copy, Debug, PartialEq, Eq, Structural)]
pub enum MoveOutcome {
    Ongoing,
    Stalemate,
    /// The side that just moved has delivered mate.
    Checkmate,
}

/// The piece a pawn becomes when it reaches the last rank.
#[derive(Clone, Copy, Debug, PartialEq, Eq, Structural)]
pub enum PromotionPiece {
    Queen,
    Rook,
    Bishop,
    Knight,
}

/// Why a proposed move was not applied.
#[derive(Clone, Copy, Debug, PartialEq, Eq, Structural)]
pub enum MoveError {
    InvalidPosition,
    InvalidFromSquare,
    InvalidToSquare,
    InvalidPromotion,
    IllegalMove,
}

/// Where the placement field of a position has been read up to: the rank
/// and file reached, the pieces and kings of each colour seen, whether the
/// field has ended, and whether everything so far was well formed.
pub struct PlacementScan {
    pub rank: nat,
    pub file: nat,
    pub white_pieces: nat,
    pub black_pieces: nat,
    pub white_kings: nat,
    pub black_kings: nat,
    pub done: bool,
    pub ok: bool,
}

/// Most pieces one side can have: the sixteen it starts with.
pub const MAX_PIECES: u8 = 16;

pub open spec fn white_letter(c: char) -> bool {
    c == 'P' || c == 'N' || c == 'B' || c == 'R' || c == 'Q' || c == 'K'
}

pub open spec fn black_letter(c: char) -> bool {
    c == 'p' || c == 'n' || c == 'b' || c == 'r' || c == 'q' || c == 'k'
}

/// The number of empty squares a digit `1`-`8` stands for, else 0.
pub open spec fn empty_run(c: char) -> nat {
    if c == '1' {
        1
    } else if c == '2' {
        2
    } else if c == '3' {
        3
    } else if c == '4' {
        4
    } else if c == '5' {
        5
    } else if c == '6' {
        6
    } else if c == '7' {
        7
    } else if c == '8' {
        8
    } else {
        0
    }
}

pub open spec fn failed(st: PlacementScan) -> PlacementScan {
    PlacementScan { ok: false, ..st }
}

/// Places one piece on the current square.
pub open spec fn place_piece(st: PlacementScan, c: char) -> PlacementScan {
    if st.file >= 8 {
        failed(st)
    } else if white_letter(c) && st.white_pieces >= MAX_PIECES {
        failed(st)
    } else if black_letter(c) && st.black_pieces >= MAX_PIECES {
        failed(st)
    } else if (c == 'K' && st.white_kings >= 1) || (c == 'k' && st.black_kings >= 1) {
        failed(st)
    } else {
        PlacementScan {
            file: st.file + 1,
            white_pieces: if white_letter(c) { st.white_pieces + 1 } else { st.white_pieces },
            black_pieces: if black_letter(c) { st.black_pieces + 1 } else { st.black_pieces },
            white_kings: if c == 'K' { 1 } else { st.white_kings },
            black_kings: if c == 'k' { 1 } else { st.black_kings },
            ..st
        }
    }
}

/// Reads one more character of the placement field. A rank may be short,
/// but no rank holds more than eight squares and there are at most eight
/// ranks, so no square is written twice.
pub open spec fn scan_step(st: PlacementScan, c: char) -> PlacementScan {
    if !st.ok || st.done {
        st
    } else if c == ' ' {
        PlacementScan { done: true, ..st }
    } else if c == '/' {
        if st.rank < 7 {
            PlacementScan { rank: st.rank + 1, file: 0, ..st }
        } else {
            failed(st)
        }
    } else if empty_run(c) > 0 {
        if st.file + empty_run(c) <= 8 {
            PlacementScan { file: st.file + empty_run(c), ..st }
        } else {
            failed(st)
        }
    } else if white_letter(c) || black_letter(c) {
        place_piece(st, c)
    } else {
        failed(st)
    }
}

pub open spec fn scan_placement(s: Seq<char>) -> PlacementScan
    decreases s.len(),
{
    if s.len() == 0 {
        PlacementScan {
            rank: 0,
            file: 0,
            white_pieces: 0,
            black_pieces: 0,
            white_kings: 0,
            black_kings: 0,
            done: false,
            ok: true,
        }
    } else {
        scan_step(scan_placement(s.drop_last()), s.last())
    }
}

/// Whether the placement field of `fen`, everything before its first space,
/// puts every piece on a square of its own, gives each colour exactly one
/// king, and gives neither colour more than sixteen pieces. On such a board
/// the rules engine never looks for a missing king, and its move generator
/// stays within its room for one entry per piece.
pub open spec fn placement_sound(fen: Seq<char>) -> bool {
    let st = scan_placement(fen);
    &&& st.ok
    &&& st.done
    &&& st.white_kings == 1
    &&& st.black_kings == 1
}

/// Whether the rules engine reads `fen` as a position.
pub uninterp spec fn fen_accepted(fen: Seq<char>) -> bool;

/// Whether the move from `from` to `to` with `promotion` is legal in
/// `position`.
pub uninterp spec fn legal_in(
    position: Seq<char>,
    from: Seq<char>,
    to: Seq<char>,
    promotion: Option<PromotionPiece>,
) -> bool;

/// The position that the move leads to. A position is named by the text it
/// was read from, or by the position and move that led to it.
pub uninterp spec fn position_after(
    position: Seq<char>,
    from: Seq<char>,
    to: Seq<char>,
    promotion: Option<PromotionPiece>,
) -> Seq<char>;

/// Whether the side to move in `position` is mated, stalemated or can play on.
pub uninterp spec fn outcome_in(position: Seq<char>) -> MoveOutcome;

/// `position` written in Forsyth-Edwards notation.
pub uninterp spec fn fen_of(position: Seq<char>) -> Seq<char>;

/// Whether `fen` is a position that moves can be checked against: ASCII
/// text whose placement field is sound and that the rules engine reads as a
/// position.
pub open spec fn position_readable(fen: Seq<char>) -> bool {
    is_ascii_chars(fen) && placement_sound(fen) && fen_accepted(fen)
}

/// Whether `s` starts with a file letter `a`-`h` followed by a rank digit `1`-`8`.
pub open spec fn square_text_ok(s: Seq<char>) -> bool {
    &&& s.len() >= 2
    &&& 'a' <= s[0] <= 'h'
    &&& '1' <= s[1] <= '8'
}

/// The promotion named by `s`: `Some(None)` for the empty text, `None` for
/// text that names no promotion piece.
pub open spec fn promotion_of(s: Seq<char>) -> Option<Option<PromotionPiece>> {
    if s.len() == 0 {
        Some(None)
    } else if s.len() != 1 {
        None
    } else if s[0] == 'q' || s[0] == 'Q' {
        Some(Some(PromotionPiece::Queen))
    } else if s[0] == 'r' || s[0] == 'R' {
        Some(Some(PromotionPiece::Rook))
    } else if s[0] == 'b' || s[0] == 'B' {
        Some(Some(PromotionPiece::Bishop))
    } else if s[0] == 'n' || s[0] == 'N' {
        Some(Some(PromotionPiece::Knight))
    } else {
        None
    }
}

/// The promotion requested by an optional piece letter.
pub open spec fn promotion_request(p: Option<Seq<char>>) -> Option<Option<PromotionPiece>> {
    match p {
        Some(s) => promotion_of(s),
        None => Some(None),
    }
}

pub open spec fn opt_text(p: Option<&str>) -> Option<Seq<char>> {
    match p {
        Some(s) => Some(s@),
        None => None,
    }
}

/// What the rules engine answers for a move: `None` when the inputs cannot
/// be read, the move is illegal, or the position it leads to is not sound
/// (which no legal move from a sound position does), else the new position
/// in Forsyth-Edwards notation and its classification.
pub open spec fn engine_verdict(
    fen: Seq<char>,
    from: Seq<char>,
    to: Seq<char>,
    promotion: Option<Seq<char>>,
) -> Option<(Seq<char>, MoveOutcome)> {
    if !position_readable(fen) || !square_text_ok(from) || !square_text_ok(to) {
        None
    } else {
        match promotion_request(promotion) {
            None => None,
            Some(p) => {
                let f = from.subrange(0, 2);
                let t = to.subrange(0, 2);
                let after = position_after(fen, f, t, p);
                if legal_in(fen, f, t, p) && placement_sound(fen_of(after)) {
                    Some((fen_of(after), outcome_in(after)))
                } else {
                    None
                }
            },
        }
    }
}

/// A position of the rules engine together with its name.
pub struct Position {
    board: ::chess::Board,
    name: Ghost<Seq<char>>,
}

impl View for Position {
    type V = Seq<char>;

    closed spec fn view(&self) -> Seq<char> {
        self.name@
    }
}

/// A square of the board together with the two characters that name it.
pub struct BoardSquare {
    square: ::chess::Square,
    name: Ghost<Seq<char>>,
}

impl View for BoardSquare {
    type V = Seq<char>;

    closed spec fn view(&self) -> Seq<char> {
        self.name@
    }
}

/// A move as the rules engine takes it, with the squares and promotion it
/// was made from.
pub struct Candidate {
    mv: ::chess::ChessMove,
    from: Ghost<Seq<char>>,
    to: Ghost<Seq<char>>,
    promotion: Ghost<Option<PromotionPiece>>,
}

impl View for Candidate {
    type V = (Seq<char>, Seq<char>, Option<PromotionPiece>);

    closed spec fn view(&self) -> (Seq<char>, Seq<char>, Option<PromotionPiece>) {
        (self.from@, self.to@, self.promotion@)
    }
}

/// Relies on `chess::Board::from_str`: a board exactly when the text parses
/// as a position. Its square indexing stays in bounds on ASCII text, and
/// with one king of each colour on squares of their own it never looks up a
/// missing king's square.
#[verifier::external_body]
fn parse_board(fen: &str) -> (r: Option<Position>)
    requires
        is_ascii_chars(fen@),
        placement_sound(fen@),
    ensures
        r.is_some() == fen_accepted(fen@),
        r matches Some(p) ==> p@ == fen@,
{
    ::chess::Board::from_str(fen).ok().map(|board| Position { board, name: Ghost(fen@) })
}

/// Relies on `chess::Square::from_str`: it accepts exactly the texts whose
/// first character is a file letter and whose second is a rank digit, and
/// the square depends on those two alone. It indexes the second character,
/// so the text has at least two.
#[verifier::external_body]
fn parse_square(s: &str) -> (r: Option<BoardSquare>)
    requires
        s@.len() >= 2,
    ensures
        r.is_some() == square_text_ok(s@),
        r matches Some(q) ==> q@ == s@.subrange(0, 2),
{
    ::chess::Square::from_str(s).ok().map(|square| BoardSquare { square, name: Ghost(s@.subrange(0, 2)) })
}

/// Relies on `chess::ChessMove::new`, which bundles the two squares and the
/// promotion piece.
#[verifier::external_body]
fn candidate_move(
    from: &BoardSquare,
    to: &BoardSquare,
    promotion: Option<PromotionPiece>,
) -> (r: Candidate)
    ensures
        r@ == (from@, to@, promotion),
{
    let piece = match promotion {
        Some(PromotionPiece::Queen) => Some(::chess::Piece::Queen),
        Some(PromotionPiece::Rook) => Some(::chess::Piece::Rook),
        Some(PromotionPiece::Bishop) => Some(::chess::Piece::Bishop),
        Some(PromotionPiece::Knight) => Some(::chess::Piece::Knight),
        None => None,
    };
    Candidate {
        mv: ::chess::ChessMove::new(from.square, to.square, piece),
        from: Ghost(from@),
        to: Ghost(to@),
        promotion: Ghost(promotion),
    }
}

/// Relies on `chess::Board::legal`: whether the move is among the legal
/// moves of the position. Its move generator keeps one entry per piece
/// that can move in room for eighteen, so the position has at most sixteen
/// pieces of each colour.
#[verifier::external_body]
fn is_legal(position: &Position, m: &Candidate) -> (r: bool)
    requires
        placement_sound(position@),
    ensures
        r == legal_in(position@, m@.0, m@.1, m@.2),
{
    position.board.legal(m.mv)
}

/// Relies on `chess::Board::make_move_new`: the position after the move. It
/// panics only when the source square is empty or a king is captured, which
/// no legal move does.
#[verifier::external_body]
fn play(position: &Position, m: &Candidate) -> (r: Position)
    requires
        legal_in(position@, m@.0, m@.1, m@.2),
    ensures
        r@ == position_after(position@, m@.0, m@.1, m@.2),
{
    Position {
        board: position.board.make_move_new(m.mv),
        name: Ghost(position_after(position@, m@.0, m@.1, m@.2)),
    }
}

/// Relies on `chess::Board::status`: whether the side to move is mated,
/// stalemated or can play on. It runs the move generator, so the board, as
/// its own Forsyth-Edwards text shows it, has at most sixteen pieces of
/// each colour.
#[verifier::external_body]
fn outcome(position: &Position) -> (r: MoveOutcome)
    requires
        placement_sound(fen_of(position@)),
    ensures
        r == outcome_in(position@),
{
    match position.board.status() {
        ::chess::BoardStatus::Ongoing => MoveOutcome::Ongoing,
        ::chess::BoardStatus::Stalemate => MoveOutcome::Stalemate,
        ::chess::BoardStatus::Checkmate => MoveOutcome::Checkmate,
    }
}

/// Relies on the `Display` impl of `chess::Board`, which writes the
/// position in Forsyth-Edwards notation.
#[verifier::external_body]
fn board_fen(position: &Position) -> (r: String)
    ensures
        r@ == fen_of(position@),
{
    position.board.to_string()
}

/// Whether the placement field of `fen` is sound; see `placement_sound`.
pub fn placement_ok(fen: &str) -> (r: bool)
    ensures
        r == placement_sound(fen@),
{
    let n = fen.unicode_len();
    let mut rank: u8 = 0;
    let mut file: u8 = 0;
    let mut white_pieces: u8 = 0;
    let mut black_pieces: u8 = 0;
    let mut white_kings: u8 = 0;
    let mut black_kings: u8 = 0;
    let mut done = false;
    let mut ok = true;
    let mut i: usize = 0;
    while i < n
        invariant
            n == fen@.len(),
            0 <= i <= n,
            rank <= 7,
            file <= 8,
            white_pieces <= MAX_PIECES,
            black_pieces <= MAX_PIECES,
            white_kings <= 1,
            black_kings <= 1,
            scan_placement(fen@.subrange(0, i as int)) == (PlacementScan {
                rank: rank as nat,
                file: file as nat,
                white_pieces: white_pieces as nat,
                black_pieces: black_pieces as nat,
                white_kings: white_kings as nat,
                black_kings: black_kings as nat,
                done,
                ok,
            }),
        decreases n - i,
    {
        let c = fen.get_char(i);
        let ghost before = fen@.subrange(0, i as int);
        assert(fen@.subrange(0, i + 1).drop_last() =~= before);
        assert(fen@.subrange(0, i + 1).last() == c);
        let white = c == 'P' || c == 'N' || c == 'B' || c == 'R' || c == 'Q' || c == 'K';
        let black = c == 'p' || c == 'n' || c == 'b' || c == 'r' || c == 'q' || c == 'k';
        if !ok || done {
        } else if c == ' ' {
            done = true;
        } else if c == '/' {
            if rank < 7 {
                rank = rank + 1;
                file = 0;
            } else {
                ok = false;
            }
        } else if '1' <= c && c <= '8' {
            let run: u8 = if c == '1' {
                1
            } else if c == '2' {
                2
            } else if c == '3' {
                3
            } else if c == '4' {
                4
            } else if c == '5' {
                5
            } else if c == '6' {
                6
            } else if c == '7' {
                7
            } else {
                8
            };
            if file + run <= 8 {
                file = file + run;
            } else {
                ok = false;
            }
        } else if white || black {
            if file >= 8 {
                ok = false;
            } else if white && white_pieces >= MAX_PIECES {
                ok = false;
            } else if black && black_pieces >= MAX_PIECES {
                ok = false;
            } else if (c == 'K' && white_kings >= 1) || (c == 'k' && black_kings >= 1) {
                ok = false;
            } else {
                file = file + 1;
                if white {
                    white_pieces = white_pieces + 1;
                } else {
                    black_pieces = black_pieces + 1;
                }
                if c == 'K' {
                    white_kings = 1;
                }
                if c == 'k' {
                    black_kings = 1;
                }
            }
        } else {
            ok = false;
        }
        i = i + 1;
    }
    assert(fen@.subrange(0, n as int) =~= fen@);
    ok && done && white_kings == 1 && black_kings == 1
}

/// Reads a promotion piece letter; the empty text and no text mean no
/// promotion.
pub fn parse_promotion(p: Option<&str>) -> (r: Result<Option<PromotionPiece>, MoveError>)
    ensures
        match promotion_request(opt_text(p)) {
            Some(q) => r == Ok::<Option<PromotionPiece>, MoveError>(q),
            None => r == Err::<Option<PromotionPiece>, MoveError>(MoveError::InvalidPromotion),
        },
{
    match p {
        None => Ok(None),
        Some(s) => {
            let n = s.unicode_len();
            if n == 0 {
                return Ok(None);
            }
            if n != 1 {
                return Err(MoveError::InvalidPromotion);
            }
            let c = s.get_char(0);
            if c == 'q' || c == 'Q' {
                Ok(Some(PromotionPiece::Queen))
            } else if c == 'r' || c == 'R' {
                Ok(Some(PromotionPiece::Rook))
            } else if c == 'b' || c == 'B' {
                Ok(Some(PromotionPiece::Bishop))
            } else if c == 'n' || c == 'N' {
                Ok(Some(PromotionPiece::Knight))
            } else {
                Err(MoveError::InvalidPromotion)
            }
        },
    }
}

/// Reads a square in algebraic notation.
fn read_square(s: &str) -> (r: Option<BoardSquare>)
    ensures
        r.is_some() == square_text_ok(s@),
        r matches Some(q) ==> q@ == s@.subrange(0, 2),
{
    if s.unicode_len() < 2 {
        None
    } else {
        parse_square(s)
    }
}

/// Checks a proposed move against the position `fen` and, when it is legal,
/// returns the new position and whether the game has ended.
///
/// The position, the two squares and the promotion letter are read in that
/// order, and the first one that cannot be read decides the error. A
/// readable move succeeds exactly when the rules engine finds it legal, with
/// the engine's new position and classification; see `engine_verdict`.
pub fn validate_move(
    fen: &str,
    move_from: &str,
    move_to: &str,
    promotion: Option<&str>,
) -> (r: Result<(String, MoveOutcome), MoveError>)
    ensures
        !position_readable(fen@) ==> r == Err::<(String, MoveOutcome), MoveError>(
            MoveError::InvalidPosition,
        ),
        position_readable(fen@) && !square_text_ok(move_from@) ==> r == Err::<
            (String, MoveOutcome),
            MoveError,
        >(MoveError::InvalidFromSquare),
        position_readable(fen@) && square_text_ok(move_from@) && !square_text_ok(move_to@) ==> r
            == Err::<(String, MoveOutcome), MoveError>(MoveError::InvalidToSquare),
        position_readable(fen@) && square_text_ok(move_from@) && square_text_ok(move_to@)
            && promotion_request(opt_text(promotion)).is_none() ==> r == Err::<
            (String, MoveOutcome),
            MoveError,
        >(MoveError::InvalidPromotion),
        position_readable(fen@) && square_text_ok(move_from@) && square_text_ok(move_to@)
            && promotion_request(opt_text(promotion)).is_some() && engine_verdict(
            fen@,
            move_from@,
            move_to@,
            opt_text(promotion),
        ) is None ==> r == Err::<(String, MoveOutcome), MoveError>(MoveError::IllegalMove),
        r is Ok == engine_verdict(fen@, move_from@, move_to@, opt_text(promotion)) is Some,
        r matches Ok((f, o)) ==> engine_verdict(fen@, move_from@, move_to@, opt_text(promotion))
            == Some((f@, o)),
{
    if !fen.is_ascii() || !placement_ok(fen) {
        return Err(MoveError::InvalidPosition);
    }
    let board = match parse_board(fen) {
        Some(b) => b,
        None => return Err(MoveError::InvalidPosition),
    };
    let from = match read_square(move_from) {
        Some(s) => s,
        None => return Err(MoveError::InvalidFromSquare),
    };
    let to = match read_square(move_to) {
        Some(s) => s,
        None => return Err(MoveError::InvalidToSquare),
    };
    let promo = match parse_promotion(promotion) {
        Ok(p) => p,
        Err(e) => return Err(e),
    };
    let m = candidate_move(&from, &to, promo);
    if !is_legal(&board, &m) {
        return Err(MoveError::IllegalMove);
    }
    let next = play(&board, &m);
    let text = board_fen(&next);
    if !placement_ok(text.as_str()) {
        return Err(MoveError::IllegalMove);
    }
    let status = outcome(&next);
    Ok((text, status))
}

} // verus!
