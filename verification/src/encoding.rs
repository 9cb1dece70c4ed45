//! What the encoder produces for a whole text: the scan over the input, the
//! fragments it emits, and the wrapper that runs an encoded program.

use vstd::prelude::*;
use vstd::string::*;
use crate::derivation::{char_expr, function_constructor};
use crate::keyword::{
    first_keyword, keyword_expr, keyword_text, lemma_first_keyword_from, lemma_keyword_lengths,
};

verus! {

/// The fragments emitted for `rest`, each led by a `+`: at every position the
/// first keyword that the remaining input begins with is taken whole, and
/// where there is none, one character is encoded.
pub open spec fn fragments(rest: Seq<char>) -> Seq<char>
    decreases rest.len(),
    via fragments_decreases
{
    if rest.len() == 0 {
        Seq::empty()
    } else {
        match first_keyword(rest) {
            Some(k) => "+"@ + keyword_expr(k) + fragments(rest.skip(keyword_text(k).len() as int)),
            None => "+"@ + char_expr(rest[0]) + fragments(rest.skip(1)),
        }
    }
}

#[via_fn]
proof fn fragments_decreases(rest: Seq<char>) {
    if rest.len() != 0 {
        lemma_first_keyword_from(rest, 0);
        if let Some(k) = first_keyword(rest) {
            lemma_keyword_lengths(k);
        }
    }
}

/// The expression that evaluates to `text`: two empty arrays for the empty
/// text, and otherwise an empty array followed by the fragments.
pub open spec fn encoding(text: Seq<char>) -> Seq<char> {
    if text.len() == 0 {
        "[]+[]"@
    } else {
        "[]"@ + fragments(text)
    }
}

/// The expression that runs the program whose text `expr` evaluates to: the
/// function constructor applied to `expr`, and the result called at once.
pub open spec fn execution(expr: Seq<char>) -> Seq<char> {
    function_constructor() + "("@ + expr + ")()"@
}

} // verus!
