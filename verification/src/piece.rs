use vstd::prelude::*;

verus! {

/// The twelve piece/colour combinations.
#[derive(Debug, Clone, Copy)]
pub enum Piece {
    WhitePawn,
    WhiteRook,
    WhiteKnight,
    WhiteBishop,
    WhiteQueen,
    WhiteKing,
    BlackPawn,
    BlackRook,
    BlackKnight,
    BlackBishop,
    BlackQueen,
    BlackKing,
}

/// The notation letter of a piece: pawns have none, and colour never
/// affects the letter.
pub open spec fn spec_label(p: Piece) -> Seq<char> {
    match p {
        Piece::WhitePawn | Piece::BlackPawn => Seq::empty(),
        Piece::WhiteRook | Piece::BlackRook => seq!['R'],
        Piece::WhiteKnight | Piece::BlackKnight => seq!['N'],
        Piece::WhiteBishop | Piece::BlackBishop => seq!['B'],
        Piece::WhiteQueen | Piece::BlackQueen => seq!['Q'],
        Piece::WhiteKing | Piece::BlackKing => seq!['K'],
    }
}

impl Piece {
    /// The single-letter label used in move notation (empty for pawns).
    pub fn render(&self) -> (r: String)
        ensures
            r@ == spec_label(*self),
    {
        let mut s = String::new();
        match self {
            Piece::WhitePawn | Piece::BlackPawn => (),
            Piece::WhiteRook | Piece::BlackRook => s.push('R'),
            Piece::WhiteKnight | Piece::BlackKnight => s.push('N'),
            Piece::WhiteBishop | Piece::BlackBishop => s.push('B'),
            Piece::WhiteQueen | Piece::BlackQueen => s.push('Q'),
            Piece::WhiteKing | Piece::BlackKing => s.push('K'),
        }
        proof {
            assert(s@ =~= spec_label(*self));
        }
        s
    }
}

/// Every variant renders to its documented letter, the same for both
/// colours: pawns to nothing, rooks to R, knights to N, bishops to B,
/// queens to Q and kings to K.
pub proof fn lemma_piece_labels()
    ensures
        spec_label(Piece::WhitePawn) =~= Seq::<char>::empty(),
        spec_label(Piece::BlackPawn) =~= Seq::<char>::empty(),
        spec_label(Piece::WhiteRook) =~= seq!['R'],
        spec_label(Piece::BlackRook) =~= seq!['R'],
        spec_label(Piece::WhiteKnight) =~= seq!['N'],
        spec_label(Piece::BlackKnight) =~= seq!['N'],
        spec_label(Piece::WhiteBishop) =~= seq!['B'],
        spec_label(Piece::BlackBishop) =~= seq!['B'],
        spec_label(Piece::WhiteQueen) =~= seq!['Q'],
        spec_label(Piece::BlackQueen) =~= seq!['Q'],
        spec_label(Piece::WhiteKing) =~= seq!['K'],
        spec_label(Piece::BlackKing) =~= seq!['K'],
{
}

} // verus!
