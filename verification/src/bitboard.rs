use vstd::prelude::*;

verus! {

// Starting-position occupancy patterns, one per piece type and colour.
pub const WHITE_PAWNS: u64 = 65280;
pub const BLACK_PAWNS: u64 = 71776119061217280;
pub const WHITE_KNIGHTS: u64 = 66;
pub const BLACK_KNIGHTS: u64 = 4755801206503243776;
pub const WHITE_BISHOPS: u64 = 36;
pub const BLACK_BISHOPS: u64 = 2594073385365405696;
pub const WHITE_ROOKS: u64 = 129;
pub const BLACK_ROOKS: u64 = 9295429630892703744;
pub const WHITE_QUEEN: u64 = 8;
pub const BLACK_QUEEN: u64 = 576460752303423488;
pub const WHITE_KING: u64 = 16;
pub const BLACK_KING: u64 = 1152921504606846976;

/// A 64-bit occupancy mask, one bit per board square. Bit `i` maps to
/// file `i % 8` (0 = A .. 7 = H) and rank `i / 8` (0 = rank 1 .. 7 = rank 8),
/// so bit 0 is A1 and bit 63 is H8.
#[derive(Debug, Clone, Copy)]
pub struct Bitboard {
    pub data: u64,
}

/// Whether square `bit % 64` is occupied in `data`. Indices are taken
/// modulo 64, so every index is defined.
pub open spec fn spec_bit(data: u64, bit: u8) -> bool {
    data & (1u64 << ((bit % 64) as u64)) != 0
}

/// `data` with square `bit % 64` set.
pub open spec fn spec_set(data: u64, bit: u8) -> u64 {
    data | (1u64 << ((bit % 64) as u64))
}

/// `data` with square `bit % 64` cleared.
pub open spec fn spec_clear(data: u64, bit: u8) -> u64 {
    data & !(1u64 << ((bit % 64) as u64))
}

/// `data` moved up one full rank; the top rank is lost.
pub open spec fn spec_shift_up(data: u64) -> u64 {
    data << 8
}

/// `data` moved down one full rank; the bottom rank is lost.
pub open spec fn spec_shift_down(data: u64) -> u64 {
    data >> 8
}

/// The character at position `p` of a rendered board: positions 8, 17, ...
/// 62 are single spaces; every other position is the binary digit of one
/// square, most significant byte first and most significant bit of each
/// byte first.
pub open spec fn spec_render_char(data: u64, p: int) -> char {
    if p % 9 == 8 {
        ' '
    } else {
        if (data >> ((63 - ((p / 9) * 8 + p % 9)) as u64)) & 1 == 1 {
            '1'
        } else {
            '0'
        }
    }
}

/// The textual rendering of a board: eight groups of 8 binary digits,
/// zero-padded, separated by single spaces, rank 8 first — 71 characters
/// in all.
pub open spec fn spec_render(data: u64) -> Seq<char> {
    Seq::new(71, |p: int| spec_render_char(data, p))
}

impl Bitboard {
    /// An empty board: all 64 bits clear.
    pub fn new() -> (r: Self)
        ensures
            r.data == 0,
    {
        Self { data: 0 }
    }

    /// A board wrapping the given pattern verbatim.
    pub fn from(data: u64) -> (r: Self)
        ensures
            r.data == data,
    {
        Self { data }
    }

    /// Sets bit `bit % 64` in place. The index is masked modulo 64, so an
    /// out-of-range index wraps around instead of overflowing the shift.
    pub fn set_bit(&mut self, bit: u8)
        ensures
            final(self).data == spec_set(old(self).data, bit),
    {
        self.data = self.data | (1u64 << ((bit % 64) as u64));
    }

    /// Whether bit `bit % 64` is set. The index is masked modulo 64.
    pub fn get_bit(&self, bit: u8) -> (r: bool)
        ensures
            r == spec_bit(self.data, bit),
    {
        (self.data & (1u64 << ((bit % 64) as u64))) != 0
    }

    /// Clears bit `bit % 64` in place. The index is masked modulo 64.
    pub fn clear_bit(&mut self, bit: u8)
        ensures
            final(self).data == spec_clear(old(self).data, bit),
    {
        self.data = self.data & !(1u64 << ((bit % 64) as u64));
    }

    /// Shifts every occupied square up one rank; bits shifted past the
    /// top of the board are silently lost.
    pub fn shift_up(&mut self)
        ensures
            final(self).data == spec_shift_up(old(self).data),
    {
        self.data = self.data << 8;
    }

    /// Shifts every occupied square down one rank; bits shifted past the
    /// bottom of the board are silently lost.
    pub fn shift_down(&mut self)
        ensures
            final(self).data == spec_shift_down(old(self).data),
    {
        self.data = self.data >> 8;
    }

    /// Renders the board as eight space-separated groups of 8 binary
    /// digits, most significant byte first.
    pub fn render(&self) -> (r: String)
        ensures
            r@ == spec_render(self.data),
    {
        let mut s = String::new();
        let mut g: usize = 0;
        while g < 8
            invariant
                g <= 8,
                s@.len() == if g == 8 {
                    71int
                } else {
                    9 * g as int
                },
                forall|p: int| 0 <= p < s@.len() ==> s@[p] == spec_render_char(self.data, p),
            decreases 8 - g,
        {
            let mut k: usize = 0;
            while k < 8
                invariant
                    g < 8,
                    k <= 8,
                    s@.len() == 9 * g as int + k as int,
                    forall|p: int| 0 <= p < s@.len() ==> s@[p] == spec_render_char(self.data, p),
                decreases 8 - k,
            {
                let sh: u64 = (63 - (g * 8 + k)) as u64;
                let c: char = if (self.data >> sh) & 1 == 1 {
                    '1'
                } else {
                    '0'
                };
                proof {
                    let p = 9 * g as int + k as int;
                    assert(p % 9 == k as int && p / 9 == g as int);
                    assert(c == spec_render_char(self.data, p));
                }
                s.push(c);
                k = k + 1;
            }
            if g < 7 {
                proof {
                    let p = 9 * g as int + 8;
                    assert(p % 9 == 8);
                }
                s.push(' ');
            }
            g = g + 1;
        }
        proof {
            assert(s@ =~= spec_render(self.data));
        }
        s
    }
}

/// On an empty board every square reads as unoccupied; setting a square
/// makes exactly that square read occupied and leaves every other square
/// unchanged; clearing it afterwards makes it read unoccupied again and
/// still leaves every other square unchanged.
pub proof fn lemma_set_get_clear(data: u64, bit: u8)
    requires
        bit < 64,
    ensures
        !spec_bit(0, bit),
        spec_bit(spec_set(data, bit), bit),
        forall|j: u8| j < 64 && j != bit ==> spec_bit(spec_set(data, bit), j) == spec_bit(data, j),
        !spec_bit(spec_clear(spec_set(data, bit), bit), bit),
        forall|j: u8|
            j < 64 && j != bit ==> spec_bit(spec_clear(spec_set(data, bit), bit), j) == spec_bit(
                data,
                j,
            ),
{
    assert(!spec_bit(0, bit)) by (bit_vector);
    assert(spec_bit(spec_set(data, bit), bit)) by (bit_vector)
        requires
            bit < 64,
    ;
    assert forall|j: u8| j < 64 && j != bit implies spec_bit(spec_set(data, bit), j) == spec_bit(
        data,
        j,
    ) by {
        assert(spec_bit(spec_set(data, bit), j) == spec_bit(data, j)) by (bit_vector)
            requires
                bit < 64,
                j < 64,
                j != bit,
        ;
    }
    assert(!spec_bit(spec_clear(spec_set(data, bit), bit), bit)) by (bit_vector)
        requires
            bit < 64,
    ;
    assert forall|j: u8| j < 64 && j != bit implies spec_bit(
        spec_clear(spec_set(data, bit), bit),
        j,
    ) == spec_bit(data, j) by {
        assert(spec_bit(spec_clear(spec_set(data, bit), bit), j) == spec_bit(data, j))
            by (bit_vector)
            requires
                bit < 64,
                j < 64,
                j != bit,
        ;
    }
}

/// Shifting a board up one rank and back down restores it exactly,
/// provided no square on the top rank (bits 56 to 63) is occupied.
pub proof fn lemma_shift_round_trip(data: u64)
    requires
        forall|i: u8| 56 <= i < 64 ==> !spec_bit(data, i),
    ensures
        spec_shift_down(spec_shift_up(data)) == data,
{
    assert(!spec_bit(data, 56));
    assert(!spec_bit(data, 57));
    assert(!spec_bit(data, 58));
    assert(!spec_bit(data, 59));
    assert(!spec_bit(data, 60));
    assert(!spec_bit(data, 61));
    assert(!spec_bit(data, 62));
    assert(!spec_bit(data, 63));
    assert(spec_shift_down(spec_shift_up(data)) == data) by (bit_vector)
        requires
            !spec_bit(data, 56),
            !spec_bit(data, 57),
            !spec_bit(data, 58),
            !spec_bit(data, 59),
            !spec_bit(data, 60),
            !spec_bit(data, 61),
            !spec_bit(data, 62),
            !spec_bit(data, 63),
    ;
}

/// A square on the top rank is dropped by a shift up: clearing it first
/// makes no difference to the result.
pub proof fn lemma_shift_up_drops_top_rank(data: u64)
    ensures
        forall|bit: u8|
            56 <= bit < 64 ==> spec_shift_up(spec_clear(data, bit)) == spec_shift_up(data),
{
    assert forall|bit: u8| 56 <= bit < 64 implies spec_shift_up(spec_clear(data, bit))
        == spec_shift_up(data) by {
        assert(spec_shift_up(spec_clear(data, bit)) == spec_shift_up(data)) by (bit_vector)
            requires
                56 <= bit < 64,
        ;
    }
}

/// How each square moves under a shift up: everything rises by one rank
/// and the new bottom rank is empty.
pub proof fn lemma_shift_up_bits(data: u64, i: u8)
    requires
        i < 64,
    ensures
        i >= 8 ==> spec_bit(spec_shift_up(data), i) == spec_bit(data, (i - 8) as u8),
        i < 8 ==> !spec_bit(spec_shift_up(data), i),
{
    assert((i >= 8 ==> spec_bit(spec_shift_up(data), i) == spec_bit(data, (i - 8) as u8)) && (i < 8
        ==> !spec_bit(spec_shift_up(data), i))) by (bit_vector)
        requires
            i < 64,
    ;
}

/// How each square moves under a shift down: everything falls by one rank
/// and the new top rank is empty.
pub proof fn lemma_shift_down_bits(data: u64, i: u8)
    requires
        i < 64,
    ensures
        i < 56 ==> spec_bit(spec_shift_down(data), i) == spec_bit(data, (i + 8) as u8),
        i >= 56 ==> !spec_bit(spec_shift_down(data), i),
{
    assert((i < 56 ==> spec_bit(spec_shift_down(data), i) == spec_bit(data, (i + 8) as u8)) && (i
        >= 56 ==> !spec_bit(spec_shift_down(data), i))) by (bit_vector)
        requires
            i < 64,
    ;
}

} // verus!
