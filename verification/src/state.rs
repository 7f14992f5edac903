use vstd::prelude::*;

verus! {

use crate::bitboard::Bitboard;
use crate::bitboard::spec_render;
use crate::bitboard::WHITE_PAWNS;
use crate::bitboard::BLACK_PAWNS;
use crate::bitboard::WHITE_ROOKS;
use crate::bitboard::BLACK_ROOKS;
use crate::bitboard::WHITE_KNIGHTS;
use crate::bitboard::BLACK_KNIGHTS;
use crate::bitboard::WHITE_BISHOPS;
use crate::bitboard::BLACK_BISHOPS;
use crate::bitboard::WHITE_QUEEN;
use crate::bitboard::BLACK_QUEEN;
use crate::bitboard::WHITE_KING;
use crate::bitboard::BLACK_KING;

/// A position snapshot: twelve occupancy boards in a fixed slot order
/// (white pawns, black pawns, white rooks, black rooks, white knights,
/// black knights, white bishops, black bishops, white queen, black queen,
/// white king, black king) and a side-to-move flag.
pub struct GameState {
    pub board: [Bitboard; 12],
    pub turn_white: bool,
}

/// The rendering of a run of boards, one line each: two spaces, the
/// board's own rendering, then a newline.
pub open spec fn spec_board_lines(boards: Seq<Bitboard>) -> Seq<char>
    decreases boards.len(),
{
    if boards.len() == 0 {
        Seq::empty()
    } else {
        spec_board_lines(boards.drop_last()) + "  "@ + spec_render(boards.last().data) + "\n"@
    }
}

/// The heading of a rendered position: the side to move, then "Board:".
pub open spec fn spec_header(g: GameState) -> Seq<char> {
    (if g.turn_white {
        "Turn: White\n"@
    } else {
        "Turn: Black\n"@
    }) + "Board:\n"@
}

/// The full rendering of a position: the heading followed by the twelve
/// board lines in slot order.
pub open spec fn spec_state_render(g: GameState) -> Seq<char> {
    spec_header(g) + spec_board_lines(g.board@)
}

impl GameState {
    /// A blank position: twelve empty boards, white to move.
    pub fn new() -> (r: Self)
        ensures
            r.turn_white,
            forall|i: int| 0 <= i < 12 ==> r.board@[i].data == 0,
    {
        Self {
            board: [
                Bitboard::new(),
                Bitboard::new(),
                Bitboard::new(),
                Bitboard::new(),
                Bitboard::new(),
                Bitboard::new(),
                Bitboard::new(),
                Bitboard::new(),
                Bitboard::new(),
                Bitboard::new(),
                Bitboard::new(),
                Bitboard::new(),
            ],
            turn_white: true,
        }
    }

    /// The standard starting position: each slot seeded with its piece
    /// type's starting pattern, white to move.
    pub fn new_game() -> (r: Self)
        ensures
            r.turn_white,
            r.board@[0].data == WHITE_PAWNS,
            r.board@[1].data == BLACK_PAWNS,
            r.board@[2].data == WHITE_ROOKS,
            r.board@[3].data == BLACK_ROOKS,
            r.board@[4].data == WHITE_KNIGHTS,
            r.board@[5].data == BLACK_KNIGHTS,
            r.board@[6].data == WHITE_BISHOPS,
            r.board@[7].data == BLACK_BISHOPS,
            r.board@[8].data == WHITE_QUEEN,
            r.board@[9].data == BLACK_QUEEN,
            r.board@[10].data == WHITE_KING,
            r.board@[11].data == BLACK_KING,
    {
        let board = [
            Bitboard::from(WHITE_PAWNS),
            Bitboard::from(BLACK_PAWNS),
            Bitboard::from(WHITE_ROOKS),
            Bitboard::from(BLACK_ROOKS),
            Bitboard::from(WHITE_KNIGHTS),
            Bitboard::from(BLACK_KNIGHTS),
            Bitboard::from(WHITE_BISHOPS),
            Bitboard::from(BLACK_BISHOPS),
            Bitboard::from(WHITE_QUEEN),
            Bitboard::from(BLACK_QUEEN),
            Bitboard::from(WHITE_KING),
            Bitboard::from(BLACK_KING),
        ];
        Self { board, turn_white: true }
    }

    /// Renders the position: the side to move, "Board:", then each of the
    /// twelve boards on its own line, indented by two spaces.
    pub fn render(&self) -> (r: String)
        ensures
            r@ == spec_state_render(*self),
    {
        let mut s: String;
        if self.turn_white {
            s = "Turn: White\n".to_owned();
        } else {
            s = "Turn: Black\n".to_owned();
        }
        s.append("Board:\n");
        proof {
            assert(self.board@.take(0) =~= Seq::<Bitboard>::empty());
        }
        let mut i: usize = 0;
        while i < 12
            invariant
                i <= 12,
                s@ == spec_header(*self) + spec_board_lines(self.board@.take(i as int)),
            decreases 12 - i,
        {
            s.append("  ");
            let b = self.board[i];
            let line = b.render();
            s.append(line.as_str());
            s.append("\n");
            proof {
                let pre = self.board@.take(i as int);
                let cur = self.board@.take(i as int + 1);
                assert(cur.drop_last() =~= pre);
                assert(cur.last() == self.board@[i as int]);
                assert(s@ =~= spec_header(*self) + spec_board_lines(cur));
            }
            i = i + 1;
        }
        proof {
            assert(self.board@.take(12) =~= self.board@);
        }
        s
    }
}

/// Every run of board lines is 74 characters per board: two of indent,
/// 71 of rendering and one newline.
proof fn lemma_board_lines_len(boards: Seq<Bitboard>)
    ensures
        spec_board_lines(boards).len() == 74 * boards.len(),
    decreases boards.len(),
{
    reveal_strlit("  ");
    reveal_strlit("\n");
    if boards.len() > 0 {
        lemma_board_lines_len(boards.drop_last());
    }
}

/// Within a run of board lines, board `k`'s own rendering stands intact
/// at its fixed offset.
proof fn lemma_board_lines_at(boards: Seq<Bitboard>, k: int)
    requires
        0 <= k < boards.len(),
    ensures
        spec_board_lines(boards).subrange(74 * k + 2, 74 * k + 73) == spec_render(
            boards[k].data,
        ),
    decreases boards.len(),
{
    reveal_strlit("  ");
    reveal_strlit("\n");
    lemma_board_lines_len(boards.drop_last());
    if k == boards.len() - 1 {
        assert(spec_board_lines(boards).subrange(74 * k + 2, 74 * k + 73) =~= spec_render(
            boards[k].data,
        ));
    } else {
        lemma_board_lines_at(boards.drop_last(), k);
        assert(boards.drop_last()[k] == boards[k]);
        assert(spec_board_lines(boards).subrange(74 * k + 2, 74 * k + 73) =~= spec_board_lines(
            boards.drop_last(),
        ).subrange(74 * k + 2, 74 * k + 73));
    }
}

/// A rendered position contains, at a fixed offset and in slot order, the
/// exact rendering of each of its twelve boards.
pub proof fn lemma_render_contains_boards(g: GameState, k: int)
    requires
        0 <= k < 12,
    ensures
        spec_state_render(g).len() == 19 + 74 * 12,
        spec_state_render(g).subrange(19 + 74 * k + 2, 19 + 74 * k + 73) == spec_render(
            g.board@[k].data,
        ),
{
    reveal_strlit("Turn: White\n");
    reveal_strlit("Turn: Black\n");
    reveal_strlit("Board:\n");
    lemma_board_lines_len(g.board@);
    lemma_board_lines_at(g.board@, k);
    assert(spec_header(g).len() == 19);
    assert(spec_state_render(g).subrange(19 + 74 * k + 2, 19 + 74 * k + 73) =~= spec_board_lines(
        g.board@,
    ).subrange(74 * k + 2, 74 * k + 73));
}

} // verus!
