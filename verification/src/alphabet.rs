//! The symbols an emitted expression is written in.

use vstd::prelude::*;

verus! {

/// The six symbols of the target notation.
pub open spec fn core_symbols() -> Set<char> {
    set!['[', ']', '(', ')', '+', '!']
}

/// Every symbol an emitted expression can hold: the six core symbols and the
/// two braces of the empty object literal, which no core symbol can stand in
/// for.
pub open spec fn emitted_symbols() -> Set<char> {
    set!['[', ']', '(', ')', '+', '!', '{', '}']
}

/// Every character of `text` belongs to `symbols`.
#[verifier::opaque]
pub open spec fn drawn_from(text: Seq<char>, symbols: Set<char>) -> bool {
    forall|i: int| 0 <= i < text.len() ==> symbols.contains(#[trigger] text[i])
}

/// A concatenation is drawn from a set exactly when both halves are.
pub broadcast proof fn lemma_drawn_from_concat(a: Seq<char>, b: Seq<char>, symbols: Set<char>)
    ensures
        #[trigger] drawn_from(a + b, symbols) <==> drawn_from(a, symbols) && drawn_from(
            b,
            symbols,
        ),
{
    reveal(drawn_from);
    if drawn_from(a + b, symbols) {
        assert forall|i: int| 0 <= i < a.len() implies symbols.contains(#[trigger] a[i]) by {
            assert((a + b)[i] == a[i]);
        }
        assert forall|i: int| 0 <= i < b.len() implies symbols.contains(#[trigger] b[i]) by {
            assert((a + b)[a.len() + i] == b[i]);
        }
    }
    if drawn_from(a, symbols) && drawn_from(b, symbols) {
        assert forall|i: int| 0 <= i < (a + b).len() implies symbols.contains(
            #[trigger] (a + b)[i],
        ) by {
            if i < a.len() {
                assert((a + b)[i] == a[i]);
            } else {
                assert((a + b)[i] == b[i - a.len()]);
            }
        }
    }
}

/// Whatever is drawn from the core symbols is drawn from the emitted ones.
pub broadcast proof fn lemma_core_is_emitted(text: Seq<char>)
    ensures
        #[trigger] drawn_from(text, core_symbols()) ==> drawn_from(text, emitted_symbols()),
{
    reveal(drawn_from);
    if drawn_from(text, core_symbols()) {
        assert forall|i: int| 0 <= i < text.len() implies emitted_symbols().contains(
            #[trigger] text[i],
        ) by {
            assert(core_symbols().contains(text[i]));
        }
    }
}

/// The empty text is drawn from any set.
pub proof fn lemma_drawn_from_empty(symbols: Set<char>)
    ensures
        drawn_from(Seq::<char>::empty(), symbols),
{
    reveal(drawn_from);
}

pub broadcast group group_symbols {
    lemma_drawn_from_concat,
    lemma_core_is_emitted,
}

} // verus!
