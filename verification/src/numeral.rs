//! Numbers written as sums of the boolean `!![]`.

use vstd::prelude::*;
use vstd::string::*;
use crate::alphabet::{core_symbols, drawn_from, group_symbols, lemma_drawn_from_empty};

verus! {

/// `count` copies of `!![]` joined by `+`; nothing for a count of zero.
pub open spec fn sum_of_ones(count: nat) -> Seq<char>
    decreases count,
{
    if count == 0 {
        Seq::empty()
    } else if count == 1 {
        "!![]"@
    } else {
        sum_of_ones((count - 1) as nat) + "+!![]"@
    }
}

/// The expression for the number `n`: `+[]` for zero, a bare `!![]` for one,
/// and a parenthesised sum of `n` ones above that.
pub open spec fn number_text(n: nat) -> Seq<char> {
    if n == 0 {
        "+[]"@
    } else if n == 1 {
        "!![]"@
    } else {
        "("@ + sum_of_ones(n) + ")"@
    }
}

/// The expression for `n` where it stands between index brackets: as
/// `number_text`, but one is written `+!![]` so that it is a number there.
pub open spec fn index_text(n: nat) -> Seq<char> {
    if n == 1 {
        "+!![]"@
    } else {
        number_text(n)
    }
}

/// The pieces that numerals are made of are written in core symbols.
proof fn lemma_numeral_pieces()
    ensures
        drawn_from("+[]"@, core_symbols()),
        drawn_from("!![]"@, core_symbols()),
        drawn_from("+!![]"@, core_symbols()),
        drawn_from("("@, core_symbols()),
        drawn_from(")"@, core_symbols()),
{
    reveal(drawn_from);
    reveal_strlit("+[]");
    reveal_strlit("!![]");
    reveal_strlit("+!![]");
    reveal_strlit("(");
    reveal_strlit(")");
}

/// A sum of ones is written in core symbols.
pub proof fn lemma_sum_of_ones_core(count: nat)
    ensures
        drawn_from(sum_of_ones(count), core_symbols()),
    decreases count,
{
    broadcast use group_symbols;

    lemma_numeral_pieces();
    lemma_drawn_from_empty(core_symbols());
    if count >= 2 {
        lemma_sum_of_ones_core((count - 1) as nat);
    }
}

/// Numbers and indices are written in core symbols.
pub proof fn lemma_number_core(n: nat)
    ensures
        drawn_from(number_text(n), core_symbols()),
        drawn_from(index_text(n), core_symbols()),
{
    broadcast use group_symbols;

    lemma_numeral_pieces();
    lemma_sum_of_ones_core(n);
}

} // verus!
