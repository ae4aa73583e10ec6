//! The mailbox board: 64 optional pieces with the game state a FEN
//! record carries, parsed from and written back to FEN, and rendered
//! for a terminal.

use vstd::prelude::*;
use vstd::string::StringExecFns;
use crate::types::{Color, Piece, PieceType, Square, spec_piece_of_symbol};
use crate::text::{push_char, push_str_chars, chars_of};

verus! {

/// Why a FEN string was rejected.
#[derive(Copy, Clone, Debug, PartialEq, Eq, Structural)]
pub enum FenError {
    UnknownPartCount,
    UnknownRankCount,
    UnknownPieceSymbol,
    TooManyFilesForRank,
    UnknownTurnSymbol,
    UnknownCastlingSymbol,
    UnknownEnPassantSquareSymbol,
    NoNumberForHalfMoveClock,
    NoNumberForFullMoveNumber,
}

impl FenError {
    /// A short description, the same for every variant.
    pub fn message(&self) -> (r: String)
        ensures
            r@ == "Error during FEN parsing"@,
    {
        String::from_str("Error during FEN parsing")
    }
}

/// The state a FEN record carries beside the piece placement.
#[derive(Clone, Debug)]
pub struct BoardState {
    pub castling_rights: String,
    pub en_passent_square: Option<Square>,
}

impl BoardState {
    /// The state of a fresh board: full castling rights, no en passant
    /// square.
    pub fn empty() -> (r: BoardState)
        ensures
            r.castling_rights@ == "KQkq"@,
            r.en_passent_square is None,
    {
        BoardState { castling_rights: String::from_str("KQkq"), en_passent_square: None }
    }
}

/// A chess board held as a mailbox: one optional piece per square,
/// indexed file-first from a1.
#[derive(Debug)]
pub struct MailboxBoard {
    pub turn: Color,
    pub half_move_clock: u16,
    pub full_move_number: u16,
    pub mailbox: Vec<Option<Piece>>,
    pub state: BoardState,
}

impl MailboxBoard {
    /// A board is well formed when it has exactly 64 squares.
    pub open spec fn wf(self) -> bool {
        self.mailbox@.len() == 64
    }

    /// The piece on the square with the given index.
    pub open spec fn piece_at(self, idx: int) -> Option<Piece> {
        self.mailbox@[idx]
    }

    /// An empty board: no pieces, White to move, clocks at their start.
    pub fn empty() -> (r: MailboxBoard)
        ensures
            r.wf(),
            forall|i: int| 0 <= i < 64 ==> r.mailbox@[i] is None,
            r.turn == Color::White,
            r.half_move_clock == 0,
            r.full_move_number == 1,
            r.state.castling_rights@ == "KQkq"@,
            r.state.en_passent_square is None,
    {
        let mut mailbox: Vec<Option<Piece>> = Vec::new();
        let mut i: usize = 0;
        while i < 64
            invariant
                0 <= i <= 64,
                mailbox@.len() == i,
                forall|j: int| 0 <= j < i ==> mailbox@[j] is None,
            decreases 64 - i,
        {
            mailbox.push(None);
            i = i + 1;
        }
        MailboxBoard {
            turn: Color::White,
            half_move_clock: 0,
            full_move_number: 1,
            mailbox,
            state: BoardState::empty(),
        }
    }

    /// Put a piece on a square, replacing whatever stood there.
    pub fn place_piece(&mut self, piece: Piece, square: Square)
        requires
            old(self).wf(),
        ensures
            final(self).wf(),
            final(self).mailbox@ == old(self).mailbox@.update(
                square.spec_index(),
                Some(piece),
            ),
            final(self).turn == old(self).turn,
            final(self).half_move_clock == old(self).half_move_clock,
            final(self).full_move_number == old(self).full_move_number,
            final(self).state == old(self).state,
    {
        let idx = square.index() as usize;
        self.mailbox.set(idx, Some(piece));
    }

    /// Take the piece off a square that holds one.
    pub fn remove_piece(&mut self, square: Square) -> (r: Piece)
        requires
            old(self).wf(),
            old(self).piece_at(square.spec_index()) is Some,
        ensures
            final(self).wf(),
            Some(r) == old(self).piece_at(square.spec_index()),
            final(self).mailbox@ == old(self).mailbox@.update(
                square.spec_index(),
                None::<Piece>,
            ),
            final(self).turn == old(self).turn,
            final(self).half_move_clock == old(self).half_move_clock,
            final(self).full_move_number == old(self).full_move_number,
            final(self).state == old(self).state,
    {
        let idx = square.index() as usize;
        let piece = match self.mailbox[idx] {
            Some(p) => p,
            None => {
                proof {
                    assert(false);
                }
                Piece { piece_type: crate::types::PieceType::Pawn, color: Color::White }
            },
        };
        self.mailbox.set(idx, None);
        piece
    }

    /// The piece on a square, if any.
    pub fn get_piece(&self, square: &Square) -> (r: Option<Piece>)
        requires
            self.wf(),
        ensures
            r == self.piece_at(square.spec_index()),
    {
        let idx = square.index() as usize;
        self.mailbox[idx]
    }
}


/// The views of a list of character vectors.
pub open spec fn views_of(ts: Seq<Vec<char>>) -> Seq<Seq<char>> {
    ts.map_values(|t: Vec<char>| t@)
}

/// The whitespace that separates the fields of a FEN record.
pub open spec fn spec_is_ws(c: char) -> bool {
    c == ' ' || c == '\t' || c == '\n' || c == '\r'
}

/// The maximal runs of non-whitespace characters of a string, in order.
pub open spec fn spec_tokens(s: Seq<char>) -> Seq<Seq<char>>
    decreases s.len(),
{
    if s.len() == 0 {
        Seq::empty()
    } else {
        let rest = spec_tokens(s.drop_last());
        let c = s.last();
        if spec_is_ws(c) {
            rest
        } else if s.len() == 1 || spec_is_ws(s[s.len() - 2]) {
            rest.push(seq![c])
        } else {
            rest.update(rest.len() - 1, rest.last().push(c))
        }
    }
}

/// The fields of a string split at every '/', kept in order with empty
/// fields preserved.
pub open spec fn spec_split_slash(s: Seq<char>) -> Seq<Seq<char>>
    decreases s.len(),
{
    if s.len() == 0 {
        seq![Seq::<char>::empty()]
    } else {
        let rest = spec_split_slash(s.drop_last());
        let c = s.last();
        if c == '/' {
            rest.push(Seq::empty())
        } else {
            rest.update(rest.len() - 1, rest.last().push(c))
        }
    }
}

/// The value of a decimal digit.
pub open spec fn spec_digit_val(c: char) -> Option<int> {
    if c == '0' { Some(0int) }
    else if c == '1' { Some(1int) }
    else if c == '2' { Some(2int) }
    else if c == '3' { Some(3int) }
    else if c == '4' { Some(4int) }
    else if c == '5' { Some(5int) }
    else if c == '6' { Some(6int) }
    else if c == '7' { Some(7int) }
    else if c == '8' { Some(8int) }
    else if c == '9' { Some(9int) }
    else { None }
}

/// The value of a string of decimal digits, as far as it fits a 16-bit
/// clock; the empty string counts as zero here.
pub open spec fn spec_digits_val(s: Seq<char>) -> Option<int>
    decreases s.len(),
{
    if s.len() == 0 {
        Some(0int)
    } else {
        match spec_digits_val(s.drop_last()) {
            Some(v) => match spec_digit_val(s.last()) {
                Some(d) => if v * 10 + d <= 65535 {
                    Some(v * 10 + d)
                } else {
                    None
                },
                None => None,
            },
            None => None,
        }
    }
}

/// A clock field: a non-empty string of digits whose value fits 16 bits.
pub open spec fn spec_parse_clock(s: Seq<char>) -> Option<int> {
    if s.len() == 0 {
        None
    } else {
        spec_digits_val(s)
    }
}

/// One rank of the placement field applied to the squares: piece
/// symbols place pieces file by file, digits 1 to 8 skip files, and
/// anything else, or a file beyond the board, is an error.
pub open spec fn spec_apply_rank(
    sqs: Seq<Option<Piece>>,
    chars: Seq<char>,
    rankno: int,
    file: int,
) -> Result<Seq<Option<Piece>>, FenError>
    decreases chars.len(),
{
    if chars.len() == 0 {
        Ok(sqs)
    } else {
        let c = chars[0];
        if file > 8 {
            Err(FenError::TooManyFilesForRank)
        } else {
            match spec_piece_of_symbol(c) {
                Some(tc) => {
                    if file >= 8 {
                        Err(FenError::TooManyFilesForRank)
                    } else {
                        spec_apply_rank(
                            sqs.update(
                                file + 8 * rankno,
                                Some(Piece { piece_type: tc.0, color: tc.1 }),
                            ),
                            chars.drop_first(),
                            rankno,
                            file + 1,
                        )
                    }
                },
                None => match spec_digit_val(c) {
                    Some(d) => if 1 <= d <= 8 {
                        spec_apply_rank(sqs, chars.drop_first(), rankno, file + d)
                    } else {
                        Err(FenError::UnknownPieceSymbol)
                    },
                    None => Err(FenError::UnknownPieceSymbol),
                },
            }
        }
    }
}

/// The eight ranks of the placement field applied from the top rank
/// down.
pub open spec fn spec_place_ranks(
    sqs: Seq<Option<Piece>>,
    ranks: Seq<Seq<char>>,
    i: int,
) -> Result<Seq<Option<Piece>>, FenError>
    decreases ranks.len() - i,
{
    if i < 0 || i >= ranks.len() {
        Ok(sqs)
    } else {
        match spec_apply_rank(sqs, ranks[i], 7 - i, 0) {
            Ok(s2) => spec_place_ranks(s2, ranks, i + 1),
            Err(e) => Err(e),
        }
    }
}

/// What a FEN record denotes: a placement, the side to move and the two
/// clocks.  Only the castling field `KQkq` and the empty en passant
/// field `-` are accepted.
pub struct FenFields {
    pub squares: Seq<Option<Piece>>,
    pub turn: Color,
    pub half_move_clock: int,
    pub full_move_number: int,
}

pub open spec fn spec_parse_fen(s: Seq<char>) -> Result<FenFields, FenError> {
    let parts = spec_tokens(s);
    if parts.len() != 6 {
        Err(FenError::UnknownPartCount)
    } else {
        let ranks = spec_split_slash(parts[0]);
        if ranks.len() != 8 {
            Err(FenError::UnknownRankCount)
        } else {
            match spec_place_ranks(Seq::new(64, |i: int| None::<Piece>), ranks, 0) {
                Err(e) => Err(e),
                Ok(sqs) => {
                    if !(parts[1] == seq!['w'] || parts[1] == seq!['b']) {
                        Err(FenError::UnknownTurnSymbol)
                    } else if parts[2] != seq!['K', 'Q', 'k', 'q'] {
                        Err(FenError::UnknownCastlingSymbol)
                    } else if parts[3] != seq!['-'] {
                        Err(FenError::UnknownEnPassantSquareSymbol)
                    } else {
                        match spec_parse_clock(parts[4]) {
                            None => Err(FenError::NoNumberForHalfMoveClock),
                            Some(h) => match spec_parse_clock(parts[5]) {
                                None => Err(FenError::NoNumberForFullMoveNumber),
                                Some(f) => Ok(
                                    FenFields {
                                        squares: sqs,
                                        turn: if parts[1] == seq!['w'] {
                                            Color::White
                                        } else {
                                            Color::Black
                                        },
                                        half_move_clock: h,
                                        full_move_number: f,
                                    },
                                ),
                            },
                        }
                    }
                },
            }
        }
    }
}

fn is_ws(c: char) -> (r: bool)
    ensures
        r == spec_is_ws(c),
{
    c == ' ' || c == '\t' || c == '\n' || c == '\r'
}

fn digit_val(c: char) -> (r: Option<u8>)
    ensures
        match spec_digit_val(c) {
            Some(d) => r matches Some(x) && x as int == d,
            None => r is None,
        },
{
    match c {
        '0' => Some(0),
        '1' => Some(1),
        '2' => Some(2),
        '3' => Some(3),
        '4' => Some(4),
        '5' => Some(5),
        '6' => Some(6),
        '7' => Some(7),
        '8' => Some(8),
        '9' => Some(9),
        _ => None,
    }
}

fn split_tokens(v: &Vec<char>) -> (r: Vec<Vec<char>>)
    ensures
        views_of(r@) == spec_tokens(v@),
{
    let mut toks: Vec<Vec<char>> = Vec::new();
    let mut i: usize = 0;
    while i < v.len()
        invariant
            0 <= i <= v@.len(),
            views_of(toks@) == spec_tokens(v@.take(i as int)),
            (i > 0 && !spec_is_ws(v@[i as int - 1])) ==> toks@.len() >= 1,
        decreases v@.len() - i,
    {
        let c = v[i];
        proof {
            assert(v@.take(i + 1 as int).drop_last() =~= v@.take(i as int));
            assert(v@.take(i + 1 as int).last() == v@[i as int]);
        }
        if is_ws(c) {
        } else if i == 0 || is_ws(v[i - 1]) {
            let mut t: Vec<char> = Vec::new();
            t.push(c);
            toks.push(t);
            proof {
                assert(views_of(toks@) =~= spec_tokens(v@.take(i as int)).push(seq![c]));
            }
        } else {
            let t_old = match toks.pop() {
                Some(t) => t,
                None => {
                    proof {
                        assert(false);
                    }
                    Vec::new()
                },
            };
            let mut t = t_old;
            t.push(c);
            toks.push(t);
            proof {
                let prev = spec_tokens(v@.take(i as int));
                assert(views_of(toks@) =~= prev.update(prev.len() - 1, prev.last().push(c)));
            }
        }
        i = i + 1;
    }
    proof {
        assert(v@.take(v@.len() as int) =~= v@);
    }
    toks
}

fn split_slash_chars(v: &Vec<char>) -> (r: Vec<Vec<char>>)
    ensures
        views_of(r@) == spec_split_slash(v@),
        r@.len() >= 1,
{
    let mut toks: Vec<Vec<char>> = Vec::new();
    toks.push(Vec::new());
    proof {
        assert(views_of(toks@) =~= spec_split_slash(v@.take(0)));
    }
    let mut i: usize = 0;
    while i < v.len()
        invariant
            0 <= i <= v@.len(),
            toks@.len() >= 1,
            views_of(toks@) == spec_split_slash(v@.take(i as int)),
        decreases v@.len() - i,
    {
        let c = v[i];
        proof {
            assert(v@.take(i + 1 as int).drop_last() =~= v@.take(i as int));
            assert(v@.take(i + 1 as int).last() == v@[i as int]);
        }
        if c == '/' {
            toks.push(Vec::new());
            proof {
                assert(views_of(toks@) =~= spec_split_slash(v@.take(i as int)).push(
                    Seq::<char>::empty(),
                ));
            }
        } else {
            let t_old = match toks.pop() {
                Some(t) => t,
                None => {
                    proof {
                        assert(false);
                    }
                    Vec::new()
                },
            };
            let mut t = t_old;
            t.push(c);
            toks.push(t);
            proof {
                let prev = spec_split_slash(v@.take(i as int));
                assert(views_of(toks@) =~= prev.update(prev.len() - 1, prev.last().push(c)));
            }
        }
        i = i + 1;
    }
    proof {
        assert(v@.take(v@.len() as int) =~= v@);
    }
    toks
}

fn parse_clock(v: &Vec<char>) -> (r: Option<u16>)
    ensures
        match spec_parse_clock(v@) {
            Some(n) => r matches Some(x) && x as int == n,
            None => r is None,
        },
{
    if v.len() == 0 {
        return None;
    }
    let mut acc: u16 = 0;
    let mut ok = true;
    let mut i: usize = 0;
    while i < v.len()
        invariant
            0 <= i <= v@.len(),
            ok ==> spec_digits_val(v@.take(i as int)) == Some(acc as int),
            !ok ==> spec_digits_val(v@.take(i as int)) is None,
        decreases v@.len() - i,
    {
        let c = v[i];
        proof {
            assert(v@.take(i + 1 as int).drop_last() =~= v@.take(i as int));
            assert(v@.take(i + 1 as int).last() == v@[i as int]);
        }
        if ok {
            match digit_val(c) {
                Some(d) => {
                    let nv: u32 = acc as u32 * 10 + d as u32;
                    if nv > 65535 {
                        ok = false;
                    } else {
                        acc = nv as u16;
                    }
                },
                None => {
                    ok = false;
                },
            }
        }
        i = i + 1;
    }
    proof {
        assert(v@.take(v@.len() as int) =~= v@);
    }
    if ok {
        Some(acc)
    } else {
        None
    }
}

fn apply_rank(sqs: &mut Vec<Option<Piece>>, chars: &Vec<char>, rankno: u8) -> (r: Result<
    (),
    FenError,
>)
    requires
        old(sqs)@.len() == 64,
        rankno < 8,
    ensures
        final(sqs)@.len() == 64,
        match spec_apply_rank(old(sqs)@, chars@, rankno as int, 0) {
            Ok(s2) => r is Ok && final(sqs)@ == s2,
            Err(e) => r matches Err(e2) && e2 == e,
        },
{
    let mut i: usize = 0;
    let mut file: u8 = 0;
    proof {
        assert(chars@.skip(0) =~= chars@);
    }
    while i < chars.len()
        invariant
            0 <= i <= chars@.len(),
            sqs@.len() == 64,
            rankno < 8,
            file <= 16,
            spec_apply_rank(old(sqs)@, chars@, rankno as int, 0) == spec_apply_rank(
                sqs@,
                chars@.skip(i as int),
                rankno as int,
                file as int,
            ),
        decreases chars@.len() - i,
    {
        let c = chars[i];
        proof {
            assert(chars@.skip(i as int)[0] == chars@[i as int]);
            assert(chars@.skip(i as int).drop_first() =~= chars@.skip(i + 1 as int));
        }
        if file > 8 {
            return Err(FenError::TooManyFilesForRank);
        }
        match Piece::from_symbol(c) {
            Some(piece) => {
                if file >= 8 {
                    return Err(FenError::TooManyFilesForRank);
                }
                let idx = (file + 8 * rankno) as usize;
                sqs.set(idx, Some(piece));
                file = file + 1;
            },
            None => {
                match digit_val(c) {
                    Some(d) => {
                        if 1 <= d && d <= 8 {
                            file = file + d;
                        } else {
                            return Err(FenError::UnknownPieceSymbol);
                        }
                    },
                    None => {
                        return Err(FenError::UnknownPieceSymbol);
                    },
                }
            },
        }
        i = i + 1;
    }
    Ok(())
}

impl MailboxBoard {
    /// Parse a FEN record into a board.  The record's six fields are
    /// read exactly as `spec_parse_fen` says, and each kind of flaw
    /// answers its own error.
    pub fn new(fen: &str) -> (r: Result<MailboxBoard, FenError>)
        ensures
            match spec_parse_fen(fen@) {
                Ok(m) => {
                    &&& r matches Ok(b)
                    &&& r matches Ok(b) ==> {
                        &&& b.wf()
                        &&& b.mailbox@ == m.squares
                        &&& b.turn == m.turn
                        &&& b.half_move_clock as int == m.half_move_clock
                        &&& b.full_move_number as int == m.full_move_number
                        &&& b.state.castling_rights@ == "KQkq"@
                        &&& b.state.en_passent_square is None
                    }
                },
                Err(e) => r matches Err(e2) && e2 == e,
            },
    {
        let chars = chars_of(fen);
        let parts = split_tokens(&chars);
        if parts.len() != 6 {
            return Err(FenError::UnknownPartCount);
        }
        let ranks = split_slash_chars(&parts[0]);
        proof {
            assert(views_of(parts@)[0] == parts@[0]@);
        }
        if ranks.len() != 8 {
            return Err(FenError::UnknownRankCount);
        }
        let empty_board = MailboxBoard::empty();
        let mut sqs = empty_board.mailbox;
        proof {
            assert(sqs@ =~= Seq::new(64, |i: int| None::<Piece>));
        }
        let mut k: usize = 0;
        while k < 8
            invariant
                0 <= k <= 8,
                parts@.len() == 6,
                views_of(parts@) == spec_tokens(fen@),
                ranks@.len() == 8,
                views_of(ranks@) == spec_split_slash(parts@[0]@),
                sqs@.len() == 64,
                spec_place_ranks(
                    Seq::new(64, |i: int| None::<Piece>),
                    views_of(ranks@),
                    0,
                ) == spec_place_ranks(sqs@, views_of(ranks@), k as int),
            decreases 8 - k,
        {
            let rankno = 7 - k as u8;
            proof {
                assert(views_of(ranks@)[k as int] == ranks@[k as int]@);
            }
            let ghost pre_sqs = sqs@;
            match apply_rank(&mut sqs, &ranks[k], rankno) {
                Ok(()) => {},
                Err(e) => {
                    proof {
                        assert(views_of(parts@)[0] == parts@[0]@);
                        assert(spec_place_ranks(pre_sqs, views_of(ranks@), k as int)
                            == Err::<Seq<Option<Piece>>, FenError>(e));
                        assert(spec_place_ranks(
                            Seq::new(64, |i: int| None::<Piece>),
                            views_of(ranks@),
                            0,
                        ) == Err::<Seq<Option<Piece>>, FenError>(e));
                    }
                    return Err(e);
                },
            }
            k = k + 1;
        }
        let p1 = &parts[1];
        proof {
            assert(views_of(parts@)[1] == parts@[1]@);
            assert(views_of(parts@)[2] == parts@[2]@);
            assert(views_of(parts@)[3] == parts@[3]@);
            assert(views_of(parts@)[4] == parts@[4]@);
            assert(views_of(parts@)[5] == parts@[5]@);
        }
        let turn = if p1.len() == 1 && p1[0] == 'w' {
            proof {
                assert(parts@[1]@ =~= seq!['w']);
            }
            Color::White
        } else if p1.len() == 1 && p1[0] == 'b' {
            proof {
                assert(parts@[1]@ =~= seq!['b']);
            }
            Color::Black
        } else {
            proof {
                assert(parts@[1]@ != seq!['w'] && parts@[1]@ != seq!['b']);
            }
            return Err(FenError::UnknownTurnSymbol);
        };
        let p2 = &parts[2];
        if !(p2.len() == 4 && p2[0] == 'K' && p2[1] == 'Q' && p2[2] == 'k' && p2[3] == 'q') {
            proof {
                assert(parts@[2]@ != seq!['K', 'Q', 'k', 'q']);
            }
            return Err(FenError::UnknownCastlingSymbol);
        }
        proof {
            assert(parts@[2]@ =~= seq!['K', 'Q', 'k', 'q']);
        }
        let p3 = &parts[3];
        if !(p3.len() == 1 && p3[0] == '-') {
            proof {
                assert(parts@[3]@ != seq!['-']);
            }
            return Err(FenError::UnknownEnPassantSquareSymbol);
        }
        proof {
            assert(parts@[3]@ =~= seq!['-']);
        }
        let half_move_clock = match parse_clock(&parts[4]) {
            Some(x) => x,
            None => {
                return Err(FenError::NoNumberForHalfMoveClock);
            },
        };
        let full_move_number = match parse_clock(&parts[5]) {
            Some(x) => x,
            None => {
                return Err(FenError::NoNumberForFullMoveNumber);
            },
        };
        Ok(
            MailboxBoard {
                turn,
                half_move_clock,
                full_move_number,
                mailbox: sqs,
                state: BoardState::empty(),
            },
        )
    }
}


/// The digit character of a value in 0..=9.
pub open spec fn spec_digit_char(d: int) -> char {
    if d == 0 { '0' }
    else if d == 1 { '1' }
    else if d == 2 { '2' }
    else if d == 3 { '3' }
    else if d == 4 { '4' }
    else if d == 5 { '5' }
    else if d == 6 { '6' }
    else if d == 7 { '7' }
    else if d == 8 { '8' }
    else { '9' }
}

fn digit_char(d: u8) -> (r: char)
    requires
        d <= 9,
    ensures
        r == spec_digit_char(d as int),
{
    match d {
        0 => '0',
        1 => '1',
        2 => '2',
        3 => '3',
        4 => '4',
        5 => '5',
        6 => '6',
        7 => '7',
        8 => '8',
        _ => '9',
    }
}

/// The decimal digits of a non-negative value, most significant first.
pub open spec fn spec_digits_of(n: int) -> Seq<char>
    decreases n,
{
    if n < 0 {
        Seq::empty()
    } else if n < 10 {
        seq![spec_digit_char(n)]
    } else {
        spec_digits_of(n / 10).push(spec_digit_char(n % 10))
    }
}

fn push_digits_u16(out: &mut String, n: u16)
    ensures
        final(out)@ == old(out)@ + spec_digits_of(n as int),
    decreases n,
{
    if n < 10 {
        push_char(out, digit_char(n as u8));
    } else {
        push_digits_u16(out, n / 10);
        push_char(out, digit_char((n % 10) as u8));
    }
}

/// One rank of the placement field of a FEN record: pieces as their
/// symbols, runs of empty squares as their length, reading the files
/// from the given one on with a pending run of empty squares.
pub open spec fn spec_fen_rank(
    sqs: Seq<Option<Piece>>,
    rankno: int,
    file: int,
    pending: int,
) -> Seq<char>
    decreases 8 - file,
{
    if file >= 8 {
        if pending > 0 {
            seq![spec_digit_char(pending)]
        } else {
            Seq::empty()
        }
    } else {
        match sqs[file + 8 * rankno] {
            Some(p) => (if pending > 0 {
                seq![spec_digit_char(pending)]
            } else {
                Seq::empty()
            }) + seq![p.spec_symbol()] + spec_fen_rank(sqs, rankno, file + 1, 0),
            None => spec_fen_rank(sqs, rankno, file + 1, pending + 1),
        }
    }
}

/// The placement field from the given rank down to rank 0, the ranks
/// separated by '/'.
pub open spec fn spec_fen_ranks(sqs: Seq<Option<Piece>>, rankno: int) -> Seq<char>
    decreases rankno + 1,
{
    if rankno < 0 {
        Seq::empty()
    } else if rankno == 0 {
        spec_fen_rank(sqs, 0, 0, 0)
    } else {
        spec_fen_rank(sqs, rankno, 0, 0) + seq!['/'] + spec_fen_ranks(sqs, rankno - 1)
    }
}

/// The FEN record of a board: placement, side to move, castling rights,
/// en passant marker and the two clocks, separated by single spaces.
pub open spec fn spec_to_fen(b: MailboxBoard) -> Seq<char> {
    spec_fen_ranks(b.mailbox@, 7) + seq![' '] + seq![
        if b.turn == Color::White {
            'w'
        } else {
            'b'
        },
    ] + seq![' '] + b.state.castling_rights@ + seq![' '] + seq![
        if b.state.en_passent_square is Some {
            'x'
        } else {
            '-'
        },
    ] + seq![' '] + spec_digits_of(b.half_move_clock as int) + seq![' '] + spec_digits_of(
        b.full_move_number as int,
    )
}

impl MailboxBoard {
    /// Write the board back out as a FEN record.
    pub fn to_fen(&self) -> (r: String)
        requires
            self.wf(),
        ensures
            r@ == spec_to_fen(*self),
    {
        let mut fen = String::new();
        let mut k: usize = 0;
        while k < 8
            invariant
                self.wf(),
                0 <= k <= 8,
                fen@ + spec_fen_ranks(self.mailbox@, 7 - k as int) == spec_fen_ranks(
                    self.mailbox@,
                    7,
                ),
            decreases 8 - k,
        {
            let rank: u8 = 7 - k as u8;
            let ghost rank_start = fen@;
            let mut file: u8 = 0;
            let mut pending: u8 = 0;
            while file < 8
                invariant
                    self.wf(),
                    rank == 7 - k,
                    k < 8,
                    0 <= file <= 8,
                    pending <= file,
                    fen@ + spec_fen_rank(self.mailbox@, rank as int, file as int, pending as int)
                        == rank_start + spec_fen_rank(self.mailbox@, rank as int, 0, 0),
                decreases 8 - file,
            {
                let square = Square::from_coords(file, rank);
                match self.get_piece(&square) {
                    Some(piece) => {
                        if pending > 0 {
                            push_char(&mut fen, digit_char(pending));
                            pending = 0;
                        }
                        push_char(&mut fen, piece.symbol());
                    },
                    None => {
                        pending = pending + 1;
                    },
                }
                file = file + 1;
            }
            if pending > 0 {
                push_char(&mut fen, digit_char(pending));
            }
            proof {
                assert(fen@ =~= rank_start + spec_fen_rank(self.mailbox@, rank as int, 0, 0));
            }
            if rank > 0 {
                push_char(&mut fen, '/');
            }
            proof {
                assert(fen@ + spec_fen_ranks(self.mailbox@, 7 - (k + 1 as int)) =~= rank_start
                    + spec_fen_ranks(self.mailbox@, 7 - k as int));
            }
            k = k + 1;
        }
        push_char(&mut fen, ' ');
        push_char(
            &mut fen,
            match self.turn {
                Color::White => 'w',
                Color::Black => 'b',
            },
        );
        push_char(&mut fen, ' ');
        push_str_chars(&mut fen, self.state.castling_rights.as_str());
        push_char(&mut fen, ' ');
        push_char(
            &mut fen,
            match self.state.en_passent_square {
                Some(_) => 'x',
                None => '-',
            },
        );
        push_char(&mut fen, ' ');
        push_digits_u16(&mut fen, self.half_move_clock);
        push_char(&mut fen, ' ');
        push_digits_u16(&mut fen, self.full_move_number);
        fen
    }
}

/// The terminal colouring of a square's background.
pub open spec fn spec_bg(file: int, rank: int) -> Seq<char> {
    if (file + rank) % 2 == 0 {
        "\x1b[48;5;236m"@
    } else {
        "\x1b[48;5;239m"@
    }
}

fn bg_str(file: u8, rank: u8) -> (r: &'static str)
    requires
        file < 8,
        rank < 8,
    ensures
        r@ == spec_bg(file as int, rank as int),
{
    if (file + rank) % 2 == 0 {
        "\x1b[48;5;236m"
    } else {
        "\x1b[48;5;239m"
    }
}

/// The coloured glyph a square's content is drawn as.
pub open spec fn spec_icon(cell: Option<Piece>) -> Seq<char> {
    match cell {
        Some(p) => match p.color {
            Color::White => match p.piece_type {
                PieceType::Pawn => "\x1b[38;5;231m\u{2659}"@,
                PieceType::Knight => "\x1b[38;5;231m\u{2658}"@,
                PieceType::Bishop => "\x1b[38;5;231m\u{2657}"@,
                PieceType::Rook => "\x1b[38;5;231m\u{2656}"@,
                PieceType::Queen => "\x1b[38;5;231m\u{2655}"@,
                PieceType::King => "\x1b[38;5;231m\u{2654}"@,
            },
            Color::Black => match p.piece_type {
                PieceType::Pawn => "\x1b[38;5;232m\u{2659}"@,
                PieceType::Knight => "\x1b[38;5;232m\u{2658}"@,
                PieceType::Bishop => "\x1b[38;5;232m\u{2657}"@,
                PieceType::Rook => "\x1b[38;5;232m\u{2656}"@,
                PieceType::Queen => "\x1b[38;5;232m\u{2655}"@,
                PieceType::King => "\x1b[38;5;232m\u{2654}"@,
            },
        },
        None => " "@,
    }
}

fn icon_str(cell: Option<Piece>) -> (r: &'static str)
    ensures
        r@ == spec_icon(cell),
{
    match cell {
        Some(p) => match p.color {
            Color::White => match p.piece_type {
                PieceType::Pawn => "\x1b[38;5;231m\u{2659}",
                PieceType::Knight => "\x1b[38;5;231m\u{2658}",
                PieceType::Bishop => "\x1b[38;5;231m\u{2657}",
                PieceType::Rook => "\x1b[38;5;231m\u{2656}",
                PieceType::Queen => "\x1b[38;5;231m\u{2655}",
                PieceType::King => "\x1b[38;5;231m\u{2654}",
            },
            Color::Black => match p.piece_type {
                PieceType::Pawn => "\x1b[38;5;232m\u{2659}",
                PieceType::Knight => "\x1b[38;5;232m\u{2658}",
                PieceType::Bishop => "\x1b[38;5;232m\u{2657}",
                PieceType::Rook => "\x1b[38;5;232m\u{2656}",
                PieceType::Queen => "\x1b[38;5;232m\u{2655}",
                PieceType::King => "\x1b[38;5;232m\u{2654}",
            },
        },
        None => " ",
    }
}

/// The cells of one drawn rank, from the given file rightward: each a
/// coloured background, the glyph between spaces, and a colour reset.
pub open spec fn spec_render_cells(sqs: Seq<Option<Piece>>, rank: int, file: int) -> Seq<char>
    decreases 8 - file,
{
    if file >= 8 {
        Seq::empty()
    } else {
        spec_bg(file, rank) + seq![' '] + spec_icon(sqs[file + 8 * rank]) + seq![' ']
            + "\x1b[0m"@ + spec_render_cells(sqs, rank, file + 1)
    }
}

/// The drawn ranks from the given one down to rank 0, each led by its
/// rank digit and ended by a newline.
pub open spec fn spec_render_ranks(sqs: Seq<Option<Piece>>, rank: int) -> Seq<char>
    decreases rank + 1,
{
    if rank < 0 {
        Seq::empty()
    } else {
        seq![spec_digit_char(rank + 1)] + spec_render_cells(sqs, rank, 0) + seq!['\n']
            + spec_render_ranks(sqs, rank - 1)
    }
}

/// The whole drawn board: a file header, then the ranks from the top
/// down.
pub open spec fn spec_render(b: MailboxBoard) -> Seq<char> {
    "  a  b  c  d  e  f  g  h\n"@ + spec_render_ranks(b.mailbox@, 7)
}

impl MailboxBoard {
    /// Draw the board for a terminal, White's home rank at the bottom.
    pub fn console_render(&self) -> (r: String)
        requires
            self.wf(),
        ensures
            r@ == spec_render(*self),
    {
        let mut out = String::new();
        push_str_chars(&mut out, "  a  b  c  d  e  f  g  h\n");
        let mut k: usize = 0;
        while k < 8
            invariant
                self.wf(),
                0 <= k <= 8,
                out@ + spec_render_ranks(self.mailbox@, 7 - k as int) == "  a  b  c  d  e  f  g  h\n"@
                    + spec_render_ranks(self.mailbox@, 7),
            decreases 8 - k,
        {
            let rank: u8 = 7 - k as u8;
            let ghost rank_start = out@;
            push_char(&mut out, digit_char(rank + 1));
            let ghost cells_start = out@;
            let mut file: u8 = 0;
            while file < 8
                invariant
                    self.wf(),
                    rank == 7 - k,
                    k < 8,
                    0 <= file <= 8,
                    out@ + spec_render_cells(self.mailbox@, rank as int, file as int)
                        == cells_start + spec_render_cells(self.mailbox@, rank as int, 0),
                decreases 8 - file,
            {
                let square = Square::from_coords(file, rank);
                let cell = self.get_piece(&square);
                push_str_chars(&mut out, bg_str(file, rank));
                push_char(&mut out, ' ');
                push_str_chars(&mut out, icon_str(cell));
                push_char(&mut out, ' ');
                push_str_chars(&mut out, "\x1b[0m");
                file = file + 1;
            }
            proof {
                assert(out@ =~= cells_start + spec_render_cells(self.mailbox@, rank as int, 0));
            }
            push_char(&mut out, '\n');
            proof {
                assert(out@ + spec_render_ranks(self.mailbox@, 7 - (k + 1 as int)) =~= rank_start
                    + spec_render_ranks(self.mailbox@, 7 - k as int));
            }
            k = k + 1;
        }
        out
    }
}

} // verus!
