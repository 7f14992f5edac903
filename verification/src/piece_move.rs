use vstd::prelude::*;

verus! {

use crate::piece::Piece;
use crate::piece::spec_label;

/// One half-move: origin and destination squares (indices 0 to 63), an
/// optional promotion piece, and independent flags. The flags are not
/// mutually validated; the renderer applies a fixed precedence instead.
pub struct Move {
    pub from: u8,
    pub to: u8,
    pub promotion: Option<Piece>,
    pub capture: bool,
    pub en_passant: bool,
    pub kingside_castle: bool,
    pub queenside_castle: bool,
    pub check: bool,
    pub checkmate: bool,
    pub stalemate: bool,
    pub draw: bool,
}

/// The algebraic name of a square: file letter A to H from the low three
/// bits, then rank digit 1 to 8 from the high bits.
pub open spec fn spec_square_name(sq: u8) -> Seq<char>
    recommends
        sq < 64,
{
    seq![((65 + sq % 8) as u8) as char, ((49 + sq / 8) as u8) as char]
}

/// The notation body of a move, before any check or checkmate suffix.
/// Precedence: kingside castle, queenside castle, en passant, promotion
/// (with or without capture), capture, quiet move.
pub open spec fn spec_body(m: Move) -> Seq<char> {
    if m.kingside_castle {
        "O-O"@
    } else if m.queenside_castle {
        "O-O-O"@
    } else if m.en_passant {
        spec_square_name(m.from) + "x"@ + spec_square_name(m.to) + " e.p."@
    } else {
        match m.promotion {
            Some(p) => if m.capture {
                spec_square_name(m.from) + "x"@ + spec_square_name(m.to) + "="@ + spec_label(p)
            } else {
                spec_square_name(m.from) + spec_square_name(m.to) + "="@ + spec_label(p)
            },
            None => if m.capture {
                spec_square_name(m.from) + "x"@ + spec_square_name(m.to)
            } else {
                spec_square_name(m.from) + spec_square_name(m.to)
            },
        }
    }
}

/// The suffix of a move: `#` for checkmate (checked first), else `+` for
/// check, else nothing. Stalemate and draw never affect notation.
pub open spec fn spec_suffix(m: Move) -> Seq<char> {
    if m.checkmate {
        "#"@
    } else if m.check {
        "+"@
    } else {
        Seq::empty()
    }
}

/// The full notation of a move: its body followed by its suffix.
pub open spec fn spec_notation(m: Move) -> Seq<char> {
    spec_body(m) + spec_suffix(m)
}

impl Default for Move {
    /// A quiet move from square 0 to square 0 with no flags set.
    fn default() -> (r: Self)
        ensures
            r.from == 0,
            r.to == 0,
            r.promotion is None,
            !r.capture,
            !r.en_passant,
            !r.kingside_castle,
            !r.queenside_castle,
            !r.check,
            !r.checkmate,
            !r.stalemate,
            !r.draw,
    {
        Move {
            from: 0,
            to: 0,
            promotion: None,
            capture: false,
            en_passant: false,
            kingside_castle: false,
            queenside_castle: false,
            check: false,
            checkmate: false,
            stalemate: false,
            draw: false,
        }
    }
}

impl Move {
    /// A quiet move between the given squares: no promotion, every flag
    /// clear.
    pub fn new(from: u8, to: u8) -> (r: Move)
        ensures
            r.from == from,
            r.to == to,
            r.promotion is None,
            !r.capture,
            !r.en_passant,
            !r.kingside_castle,
            !r.queenside_castle,
            !r.check,
            !r.checkmate,
            !r.stalemate,
            !r.draw,
    {
        let mut m = Move::default();
        m.from = from;
        m.to = to;
        m
    }

    /// A move with every field given explicitly.
    pub fn new_all_fields(
        from: u8,
        to: u8,
        promotion: Option<Piece>,
        capture: bool,
        en_passant: bool,
        kingside_castle: bool,
        queenside_castle: bool,
        check: bool,
        checkmate: bool,
        stalemate: bool,
        draw: bool,
    ) -> (r: Move)
        ensures
            r.from == from,
            r.to == to,
            r.promotion == promotion,
            r.capture == capture,
            r.en_passant == en_passant,
            r.kingside_castle == kingside_castle,
            r.queenside_castle == queenside_castle,
            r.check == check,
            r.checkmate == checkmate,
            r.stalemate == stalemate,
            r.draw == draw,
    {
        Move {
            from,
            to,
            promotion,
            capture,
            en_passant,
            kingside_castle,
            queenside_castle,
            check,
            checkmate,
            stalemate,
            draw,
        }
    }

    /// The algebraic name of the origin square, e.g. index 8 is "A2".
    pub fn square_from(&self) -> (r: String)
        requires
            self.from < 64,
        ensures
            r@ == spec_square_name(self.from),
    {
        square_name(self.from)
    }

    /// The algebraic name of the destination square.
    pub fn square_to(&self) -> (r: String)
        requires
            self.to < 64,
        ensures
            r@ == spec_square_name(self.to),
    {
        square_name(self.to)
    }

    /// Renders the move in algebraic-style notation, following the fixed
    /// flag precedence and appending the check or checkmate suffix.
    pub fn render(&self) -> (r: String)
        requires
            self.from < 64,
            self.to < 64,
        ensures
            r@ == spec_notation(*self),
    {
        let mut s: String;
        if self.kingside_castle {
            s = "O-O".to_owned();
        } else if self.queenside_castle {
            s = "O-O-O".to_owned();
        } else if self.en_passant {
            s = self.square_from();
            s.append("x");
            let t = self.square_to();
            s.append(t.as_str());
            s.append(" e.p.");
        } else {
            s = self.square_from();
            if self.capture {
                s.append("x");
            }
            let t = self.square_to();
            s.append(t.as_str());
            match &self.promotion {
                Some(p) => {
                    s.append("=");
                    let label = p.render();
                    s.append(label.as_str());
                },
                None => (),
            }
        }
        if self.checkmate {
            s.append("#");
        } else if self.check {
            s.append("+");
        }
        proof {
            assert(s@ =~= spec_notation(*self));
        }
        s
    }
}

/// The algebraic name of a square index below 64.
fn square_name(sq: u8) -> (r: String)
    requires
        sq < 64,
    ensures
        r@ == spec_square_name(sq),
{
    let mut s = String::new();
    let letter: u8 = 65 + sq % 8;
    s.push(letter as char);
    let digit: u8 = 49 + sq / 8;
    s.push(digit as char);
    proof {
        assert(s@ =~= spec_square_name(sq));
    }
    s
}

} // verus!
