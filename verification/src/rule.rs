//! The rule table: an immutable mapping from colour index to turn direction,
//! derived once from a sequence of turn symbols.

use vstd::prelude::*;

use crate::facing::Direction;

verus! {

/// The ASCII letter `L`, the symbol for a left turn.
pub const LEFT_SYMBOL: u8 = 76;

/// The ASCII letter `R`, the symbol for a right turn.
pub const RIGHT_SYMBOL: u8 = 82;

/// A sequence of turn symbols is valid when it is non-empty and made of the
/// letters `L` and `R` alone.
pub open spec fn valid_rule_symbols(s: Seq<u8>) -> bool {
    &&& s.len() >= 1
    &&& forall|i: int| 0 <= i < s.len() ==> (s[i] == LEFT_SYMBOL || s[i] == RIGHT_SYMBOL)
}

/// The turn that a single symbol stands for.
pub open spec fn direction_of_symbol(c: u8) -> Direction {
    if c == LEFT_SYMBOL {
        Direction::Left
    } else {
        Direction::Right
    }
}

/// An ordered sequence of turns, one per colour index. Its length fixes the
/// number of colours; it is never resized after construction.
pub struct RuleTable {
    pub turns: Vec<Direction>,
}

impl View for RuleTable {
    type V = Seq<Direction>;

    open spec fn view(&self) -> Seq<Direction> {
        self.turns@
    }
}

impl RuleTable {
    /// A rule table holding the given turns.
    pub fn new(turns: Vec<Direction>) -> (r: RuleTable)
        requires
            turns@.len() >= 1,
        ensures
            r@ == turns@,
    {
        RuleTable { turns }
    }

    /// The number of colours the rule cycles through.
    pub fn len(&self) -> (n: usize)
        ensures
            n == self@.len(),
    {
        self.turns.len()
    }

    /// The turn associated with a colour index.
    pub fn lookup(&self, clr_idx: usize) -> (d: Direction)
        requires
            clr_idx < self@.len(),
        ensures
            d == self@[clr_idx as int],
    {
        self.turns[clr_idx]
    }
}

/// Build a rule table from a sequence of turn symbols, `L` for a left turn
/// and `R` for a right turn. Returns `None` exactly when the sequence is
/// empty or holds any other symbol.
pub fn parse_rule(symbols: &Vec<u8>) -> (r: Option<RuleTable>)
    ensures
        r is Some <==> valid_rule_symbols(symbols@),
        r matches Some(t) ==> {
            &&& t@.len() == symbols@.len()
            &&& forall|i: int|
                0 <= i < symbols@.len() ==> t@[i] == direction_of_symbol(symbols@[i])
        },
{
    if symbols.len() == 0 {
        return None;
    }
    let mut turns: Vec<Direction> = Vec::new();
    let mut i: usize = 0;
    while i < symbols.len()
        invariant
            i <= symbols@.len(),
            turns@.len() == i,
            forall|j: int| 0 <= j < i ==> (symbols@[j] == LEFT_SYMBOL || symbols@[j] == RIGHT_SYMBOL),
            forall|j: int| 0 <= j < i ==> turns@[j] == direction_of_symbol(symbols@[j]),
        decreases symbols@.len() - i,
    {
        let c = symbols[i];
        if c == LEFT_SYMBOL {
            turns.push(Direction::Left);
        } else if c == RIGHT_SYMBOL {
            turns.push(Direction::Right);
        } else {
            return None;
        }
        i = i + 1;
    }
    Some(RuleTable::new(turns))
}

} // verus!
