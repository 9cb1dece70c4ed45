//! Which symbols the emitted expressions are written in.
//!
//! Every expression is written in the eight emitted symbols: the six core
//! symbols and the braces of the object seed. An expression is written in the
//! core symbols alone exactly when nothing in it goes through the object
//! seed.

use vstd::prelude::*;
use vstd::string::*;
use crate::alphabet::{
    core_symbols, drawn_from, emitted_symbols, group_symbols, lemma_drawn_from_empty,
};
use crate::derivation::{
    builtin_expr, char_expr, constructor_word, derivation, digit_expr, escape_byte, escape_expr,
    escape_function, escape_program, filter_word, from_builtin, from_radix36,
    function_constructor, hex_digit_expr, italics_word, percent_expr, period_expr,
    return_prefix, seed_letter, slash_expr, tostring_word, unescape_function, unescape_program,
    Builtin, Derivation,
};
use crate::encoding::{encoding, execution, fragments};
use crate::keyword::{
    char_terms, first_keyword, infinity_word, keyword_expr, keyword_rule, keyword_text,
    lemma_first_keyword_from, lemma_keyword_lengths, spelled_word, Generator, KeywordRule,
    KEYWORD_COUNT,
};
use crate::numeral::lemma_number_core;
use crate::seed::{at_index, seed_expr};

verus! {

/// A character whose expression stays within the core symbols: a decimal
/// digit, or a letter read out of a seed other than the object seed.
pub open spec fn is_plain(c: char) -> bool {
    match derivation(c) {
        Derivation::Seed(seed, _) => !(seed is Object),
        Derivation::Digit(_) => true,
        _ => false,
    }
}

/// Every character of `text` is plain.
pub open spec fn all_plain(text: Seq<char>) -> bool {
    forall|i: int| 0 <= i < text.len() ==> is_plain(#[trigger] text[i])
}

/// The fixed pieces that expressions are assembled from: all are written in
/// core symbols but the object seed.
proof fn lemma_pieces()
    ensures
        drawn_from("["@, core_symbols()),
        drawn_from("]"@, core_symbols()),
        drawn_from("("@, core_symbols()),
        drawn_from(")"@, core_symbols()),
        drawn_from("+"@, core_symbols()),
        drawn_from("([]+"@, core_symbols()),
        drawn_from("[]["@, core_symbols()),
        drawn_from("]["@, core_symbols()),
        drawn_from("(([]+[])["@, core_symbols()),
        drawn_from("((+[])["@, core_symbols()),
        drawn_from("([]["@, core_symbols()),
        drawn_from("((!![])["@, core_symbols()),
        drawn_from("]+[])"@, core_symbols()),
        drawn_from("+[])"@, core_symbols()),
        drawn_from("(("@, core_symbols()),
        drawn_from(")["@, core_symbols()),
        drawn_from("]("@, core_symbols()),
        drawn_from(")[+[]])"@, core_symbols()),
        drawn_from("([]+[]+"@, core_symbols()),
        drawn_from("]()+[])"@, core_symbols()),
        drawn_from(")()+[])"@, core_symbols()),
        drawn_from(")()"@, core_symbols()),
        drawn_from(")+[])[+[]]"@, core_symbols()),
        drawn_from("(+("@, core_symbols()),
        drawn_from(")+[])"@, core_symbols()),
        drawn_from("([]"@, core_symbols()),
        drawn_from("[]"@, core_symbols()),
        drawn_from("[]+[]"@, core_symbols()),
        drawn_from("(![]+[])"@, core_symbols()),
        drawn_from("(!![]+[])"@, core_symbols()),
        drawn_from("([][[]]+[])"@, core_symbols()),
        drawn_from("(+[![]]+[])"@, core_symbols()),
        drawn_from("([]+{})"@, emitted_symbols()),
        !drawn_from("([]+{})"@, core_symbols()),
{
    assert(drawn_from("["@, core_symbols())) by {
        reveal(drawn_from);
        reveal_strlit("[");
    }
    assert(drawn_from("]"@, core_symbols())) by {
        reveal(drawn_from);
        reveal_strlit("]");
    }
    assert(drawn_from("("@, core_symbols())) by {
        reveal(drawn_from);
        reveal_strlit("(");
    }
    assert(drawn_from(")"@, core_symbols())) by {
        reveal(drawn_from);
        reveal_strlit(")");
    }
    assert(drawn_from("+"@, core_symbols())) by {
        reveal(drawn_from);
        reveal_strlit("+");
    }
    assert(drawn_from("([]+"@, core_symbols())) by {
        reveal(drawn_from);
        reveal_strlit("([]+");
    }
    assert(drawn_from("[]["@, core_symbols())) by {
        reveal(drawn_from);
        reveal_strlit("[][");
    }
    assert(drawn_from("]["@, core_symbols())) by {
        reveal(drawn_from);
        reveal_strlit("][");
    }
    assert(drawn_from("(([]+[])["@, core_symbols())) by {
        reveal(drawn_from);
        reveal_strlit("(([]+[])[");
    }
    assert(drawn_from("((+[])["@, core_symbols())) by {
        reveal(drawn_from);
        reveal_strlit("((+[])[");
    }
    assert(drawn_from("([]["@, core_symbols())) by {
        reveal(drawn_from);
        reveal_strlit("([][");
    }
    assert(drawn_from("((!![])["@, core_symbols())) by {
        reveal(drawn_from);
        reveal_strlit("((!![])[");
    }
    assert(drawn_from("]+[])"@, core_symbols())) by {
        reveal(drawn_from);
        reveal_strlit("]+[])");
    }
    assert(drawn_from("+[])"@, core_symbols())) by {
        reveal(drawn_from);
        reveal_strlit("+[])");
    }
    assert(drawn_from("(("@, core_symbols())) by {
        reveal(drawn_from);
        reveal_strlit("((");
    }
    assert(drawn_from(")["@, core_symbols())) by {
        reveal(drawn_from);
        reveal_strlit(")[");
    }
    assert(drawn_from("]("@, core_symbols())) by {
        reveal(drawn_from);
        reveal_strlit("](");
    }
    assert(drawn_from(")[+[]])"@, core_symbols())) by {
        reveal(drawn_from);
        reveal_strlit(")[+[]])");
    }
    assert(drawn_from("([]+[]+"@, core_symbols())) by {
        reveal(drawn_from);
        reveal_strlit("([]+[]+");
    }
    assert(drawn_from("]()+[])"@, core_symbols())) by {
        reveal(drawn_from);
        reveal_strlit("]()+[])");
    }
    assert(drawn_from(")()+[])"@, core_symbols())) by {
        reveal(drawn_from);
        reveal_strlit(")()+[])");
    }
    assert(drawn_from(")()"@, core_symbols())) by {
        reveal(drawn_from);
        reveal_strlit(")()");
    }
    assert(drawn_from(")+[])[+[]]"@, core_symbols())) by {
        reveal(drawn_from);
        reveal_strlit(")+[])[+[]]");
    }
    assert(drawn_from("(+("@, core_symbols())) by {
        reveal(drawn_from);
        reveal_strlit("(+(");
    }
    assert(drawn_from(")+[])"@, core_symbols())) by {
        reveal(drawn_from);
        reveal_strlit(")+[])");
    }
    assert(drawn_from("([]"@, core_symbols())) by {
        reveal(drawn_from);
        reveal_strlit("([]");
    }
    assert(drawn_from("[]"@, core_symbols())) by {
        reveal(drawn_from);
        reveal_strlit("[]");
    }
    assert(drawn_from("[]+[]"@, core_symbols())) by {
        reveal(drawn_from);
        reveal_strlit("[]+[]");
    }
    assert(drawn_from("(![]+[])"@, core_symbols())) by {
        reveal(drawn_from);
        reveal_strlit("(![]+[])");
    }
    assert(drawn_from("(!![]+[])"@, core_symbols())) by {
        reveal(drawn_from);
        reveal_strlit("(!![]+[])");
    }
    assert(drawn_from("([][[]]+[])"@, core_symbols())) by {
        reveal(drawn_from);
        reveal_strlit("([][[]]+[])");
    }
    assert(drawn_from("(+[![]]+[])"@, core_symbols())) by {
        reveal(drawn_from);
        reveal_strlit("(+[![]]+[])");
    }
    assert(drawn_from("([]+{})"@, emitted_symbols()) && !drawn_from("([]+{})"@, core_symbols())) by {
        reveal(drawn_from);
        reveal_strlit("([]+{})");
        assert(!core_symbols().contains("([]+{})"@[4]));
    }
}

/// An index in brackets leaves an expression within the symbols it is written
/// in.
proof fn lemma_at_index(source: Seq<char>, index: nat)
    ensures
        drawn_from(at_index(source, index), core_symbols()) <==> drawn_from(source, core_symbols()),
        drawn_from(at_index(source, index), emitted_symbols()) <==> drawn_from(
            source,
            emitted_symbols(),
        ),
{
    broadcast use group_symbols;

    lemma_pieces();
    lemma_number_core(index);
}

/// A seed letter is written in emitted symbols, and in core symbols exactly
/// when it is plain.
proof fn lemma_seed_letter(c: char)
    requires
        derivation(c) is Seed,
    ensures
        drawn_from(seed_letter(c), emitted_symbols()),
        drawn_from(seed_letter(c), core_symbols()) <==> is_plain(c),
{
    broadcast use group_symbols;

    lemma_pieces();
    lemma_at_index(seed_expr(derivation(c)->Seed_0), derivation(c)->Seed_1);
}

/// The spelled words behind the constructors are written in emitted symbols.
/// The word `filter` is written in core symbols; the word `constructor`, two
/// letters of which come from the object seed, is not, and so neither is the
/// path to the function constructor.
proof fn lemma_constructor_words()
    ensures
        drawn_from(constructor_word(), emitted_symbols()),
        drawn_from(filter_word(), core_symbols()),
        drawn_from(function_constructor(), emitted_symbols()),
        !drawn_from(constructor_word(), core_symbols()),
        !drawn_from(function_constructor(), core_symbols()),
{
    broadcast use group_symbols;

    reveal(constructor_word);
    reveal(filter_word);
    reveal(function_constructor);
    lemma_pieces();
    lemma_seed_letter('c');
    lemma_seed_letter('o');
    lemma_seed_letter('n');
    lemma_seed_letter('s');
    lemma_seed_letter('t');
    lemma_seed_letter('r');
    lemma_seed_letter('u');
    lemma_seed_letter('f');
    lemma_seed_letter('i');
    lemma_seed_letter('l');
    lemma_seed_letter('e');
}

/// A character of a constructor's source text is written in emitted symbols,
/// and never in core symbols alone.
proof fn lemma_from_builtin(builtin: Builtin, index: nat)
    ensures
        drawn_from(from_builtin(builtin, index), emitted_symbols()),
        !drawn_from(from_builtin(builtin, index), core_symbols()),
{
    broadcast use group_symbols;

    reveal(builtin_expr);
    lemma_pieces();
    lemma_constructor_words();
    lemma_at_index(builtin_expr(builtin), index);
}

/// The word `toString` and the base-36 digits reached through it are written
/// in emitted symbols, and never in core symbols alone.
proof fn lemma_from_radix36(value: nat)
    ensures
        drawn_from(tostring_word(), emitted_symbols()),
        !drawn_from(tostring_word(), core_symbols()),
        drawn_from(from_radix36(value), emitted_symbols()),
        !drawn_from(from_radix36(value), core_symbols()),
{
    broadcast use group_symbols;

    reveal(tostring_word);
    reveal(from_radix36);
    lemma_pieces();
    lemma_seed_letter('t');
    lemma_seed_letter('o');
    lemma_seed_letter('r');
    lemma_seed_letter('i');
    lemma_seed_letter('n');
    lemma_from_builtin(Builtin::StringType, 9);
    lemma_from_builtin(Builtin::StringType, 14);
    lemma_number_core(value);
    lemma_number_core(36);
}

/// A decimal digit is written in core symbols.
proof fn lemma_digit_expr(value: nat)
    ensures
        drawn_from(digit_expr(value), core_symbols()),
        drawn_from(digit_expr(value), emitted_symbols()),
{
    broadcast use group_symbols;

    lemma_pieces();
    lemma_number_core(value);
}

/// The opening `return ` of a run-time program is written in emitted symbols.
proof fn lemma_return_prefix()
    ensures
        drawn_from(return_prefix(), emitted_symbols()),
{
    broadcast use group_symbols;

    reveal(return_prefix);
    lemma_pieces();
    lemma_seed_letter('r');
    lemma_seed_letter('e');
    lemma_seed_letter('t');
    lemma_seed_letter('u');
    lemma_seed_letter('n');
    lemma_seed_letter(' ');
}

/// The period is written in emitted symbols, and not in core symbols alone.
proof fn lemma_period_expr()
    ensures
        drawn_from(period_expr(), emitted_symbols()),
        !drawn_from(period_expr(), core_symbols()),
{
    broadcast use group_symbols;

    reveal(italics_word);
    reveal(slash_expr);
    reveal(period_expr);
    lemma_pieces();
    lemma_seed_letter('i');
    lemma_seed_letter('t');
    lemma_seed_letter('a');
    lemma_seed_letter('l');
    lemma_seed_letter('c');
    lemma_seed_letter('s');
    lemma_return_prefix();
    lemma_constructor_words();
    lemma_number_core(1);
    lemma_number_core(2);
    lemma_number_core(4);
}

/// A hexadecimal digit is written in emitted symbols.
proof fn lemma_hex_digit_expr(value: nat)
    requires
        value < 16,
    ensures
        drawn_from(hex_digit_expr(value), emitted_symbols()),
{
    if value < 10 {
        lemma_digit_expr(value);
    } else {
        lemma_seed_letter('a');
        lemma_seed_letter('b');
        lemma_seed_letter('c');
        lemma_seed_letter('d');
        lemma_seed_letter('e');
        lemma_seed_letter('f');
    }
}

/// An escape is written in emitted symbols, and never in core symbols alone.
proof fn lemma_escape_expr(c: char)
    ensures
        drawn_from(escape_expr(c), emitted_symbols()),
        !drawn_from(escape_expr(c), core_symbols()),
{
    broadcast use group_symbols;

    reveal(unescape_program);
    reveal(escape_program);
    reveal(unescape_function);
    reveal(escape_function);
    reveal(percent_expr);
    reveal(escape_expr);
    lemma_pieces();
    lemma_return_prefix();
    lemma_constructor_words();
    lemma_from_radix36(25);
    lemma_seed_letter('u');
    lemma_seed_letter('n');
    lemma_seed_letter('e');
    lemma_seed_letter('s');
    lemma_seed_letter('c');
    lemma_seed_letter('a');
    lemma_seed_letter('[');
    lemma_hex_digit_expr(escape_byte(c) / 16);
    lemma_hex_digit_expr(escape_byte(c) % 16);
}

/// The expression of a character is written in emitted symbols, and in core
/// symbols exactly when the character is plain.
pub proof fn lemma_char_expr_symbols(c: char)
    ensures
        drawn_from(char_expr(c), emitted_symbols()),
        drawn_from(char_expr(c), core_symbols()) <==> is_plain(c),
{
    match derivation(c) {
        Derivation::Seed(seed, index) => {
            lemma_seed_letter(c);
        },
        Derivation::Constructor(builtin, index) => {
            lemma_from_builtin(builtin, index);
        },
        Derivation::Radix36(value) => {
            lemma_from_radix36(value);
        },
        Derivation::Digit(value) => {
            lemma_digit_expr(value);
        },
        Derivation::Period => {
            lemma_period_expr();
        },
        Derivation::Escape => {
            lemma_escape_expr(c);
        },
    }
}

/// The terms of a spelled word are written in emitted symbols, and in core
/// symbols exactly when every character of the word is plain.
proof fn lemma_char_terms(word: Seq<char>)
    ensures
        drawn_from(char_terms(word), emitted_symbols()),
        drawn_from(char_terms(word), core_symbols()) <==> all_plain(word),
    decreases word.len(),
{
    broadcast use group_symbols;

    lemma_pieces();
    if word.len() == 0 {
        lemma_drawn_from_empty(core_symbols());
    } else {
        let front = word.drop_last();
        lemma_char_terms(front);
        lemma_char_expr_symbols(word.last());
        if all_plain(word) {
            assert forall|i: int| 0 <= i < front.len() implies is_plain(#[trigger] front[i]) by {
                assert(front[i] == word[i]);
            }
            assert(is_plain(word[word.len() - 1]));
        }
        if all_plain(front) && is_plain(word.last()) {
            assert forall|i: int| 0 <= i < word.len() implies is_plain(#[trigger] word[i]) by {
                if i < front.len() {
                    assert(front[i] == word[i]);
                }
            }
        }
    }
}

/// A spelled word is written in emitted symbols, and in core symbols exactly
/// when every character of the word is plain.
pub proof fn lemma_spelled_word_symbols(word: Seq<char>)
    ensures
        drawn_from(spelled_word(word), emitted_symbols()),
        drawn_from(spelled_word(word), core_symbols()) <==> all_plain(word),
{
    broadcast use group_symbols;

    lemma_pieces();
    lemma_char_terms(word);
}

/// Which of the keywords with an expression of their own are made of plain
/// characters: the four seed texts are, two of the generated words are not.
proof fn lemma_plain_keywords()
    ensures
        all_plain("undefined"@),
        all_plain("false"@),
        all_plain("true"@),
        all_plain("NaN"@),
        !all_plain("constructor"@),
        !all_plain("toString"@),
{
    assert(all_plain("undefined"@)) by {
        reveal_strlit("undefined");
    }
    assert(all_plain("false"@)) by {
        reveal_strlit("false");
    }
    assert(all_plain("true"@)) by {
        reveal_strlit("true");
    }
    assert(all_plain("NaN"@)) by {
        reveal_strlit("NaN");
    }
    assert(!all_plain("constructor"@)) by {
        reveal_strlit("constructor");
        assert(!is_plain("constructor"@[0]));
    }
    assert(!all_plain("toString"@)) by {
        reveal_strlit("toString");
        assert(!is_plain("toString"@[1]));
    }
}

/// A keyword whose expression stays within the core symbols: the word
/// `Infinity`, which is read off a number, and every keyword made of plain
/// characters.
pub open spec fn is_plain_keyword(k: int) -> bool {
    keyword_rule(k) matches KeywordRule::Generated(Generator::Infinity) || all_plain(
        keyword_text(k),
    )
}

/// The scan over `rest` meets nothing but plain keywords and plain
/// characters.
pub open spec fn scans_plain(rest: Seq<char>) -> bool
    decreases rest.len(),
    via scans_plain_decreases
{
    if rest.len() == 0 {
        true
    } else {
        match first_keyword(rest) {
            Some(k) => is_plain_keyword(k) && scans_plain(rest.skip(keyword_text(k).len() as int)),
            None => is_plain(rest[0]) && scans_plain(rest.skip(1)),
        }
    }
}

#[via_fn]
proof fn scans_plain_decreases(rest: Seq<char>) {
    if rest.len() != 0 {
        lemma_first_keyword_from(rest, 0);
        if let Some(k) = first_keyword(rest) {
            lemma_keyword_lengths(k);
        }
    }
}

/// The expression of a keyword is written in emitted symbols, and in core
/// symbols exactly when the keyword is plain.
pub proof fn lemma_keyword_expr_symbols(k: int)
    requires
        0 <= k < KEYWORD_COUNT,
    ensures
        drawn_from(keyword_expr(k), emitted_symbols()),
        drawn_from(keyword_expr(k), core_symbols()) <==> is_plain_keyword(k),
{
    broadcast use group_symbols;

    lemma_pieces();
    lemma_plain_keywords();
    match keyword_rule(k) {
        KeywordRule::Seed(seed) => {},
        KeywordRule::Generated(generator) => {
            match generator {
                Generator::Constructor => {
                    lemma_constructor_words();
                },
                Generator::Function => {
                    lemma_spelled_word_symbols("function"@);
                },
                Generator::ToString => {
                    lemma_from_radix36(0);
                },
                Generator::Infinity => {
                    reveal(infinity_word);
                    lemma_digit_expr(0);
                    lemma_digit_expr(1);
                    lemma_seed_letter('e');
                },
                Generator::Return => {
                    lemma_spelled_word_symbols("return"@);
                },
            }
        },
        KeywordRule::Spelled => {
            lemma_spelled_word_symbols(keyword_text(k));
        },
    }
}

/// The fragments of a text are written in emitted symbols, and in core
/// symbols exactly when the scan over the text meets nothing but plain
/// keywords and plain characters.
proof fn lemma_fragments(rest: Seq<char>)
    ensures
        drawn_from(fragments(rest), emitted_symbols()),
        drawn_from(fragments(rest), core_symbols()) <==> scans_plain(rest),
    decreases rest.len(),
{
    broadcast use group_symbols;

    lemma_pieces();
    if rest.len() == 0 {
        lemma_drawn_from_empty(core_symbols());
    } else {
        lemma_first_keyword_from(rest, 0);
        match first_keyword(rest) {
            Some(k) => {
                lemma_keyword_lengths(k);
                lemma_keyword_expr_symbols(k);
                lemma_fragments(rest.skip(keyword_text(k).len() as int));
            },
            None => {
                lemma_char_expr_symbols(rest[0]);
                lemma_fragments(rest.skip(1));
            },
        }
    }
}

/// A text of plain characters is scanned plain: whatever keyword the scan
/// takes is made of characters of the text.
pub proof fn lemma_plain_text_scans_plain(rest: Seq<char>)
    requires
        all_plain(rest),
    ensures
        scans_plain(rest),
    decreases rest.len(),
{
    if rest.len() != 0 {
        lemma_first_keyword_from(rest, 0);
        let taken: int = match first_keyword(rest) {
            Some(k) => keyword_text(k).len() as int,
            None => 1,
        };
        if let Some(k) = first_keyword(rest) {
            lemma_keyword_lengths(k);
            assert forall|i: int| 0 <= i < keyword_text(k).len() implies is_plain(
                #[trigger] keyword_text(k)[i],
            ) by {
                assert(rest[i] == keyword_text(k)[i]);
            }
        }
        let tail = rest.skip(taken);
        assert forall|i: int| 0 <= i < tail.len() implies is_plain(#[trigger] tail[i]) by {
            assert(tail[i] == rest[taken + i]);
        }
        lemma_plain_text_scans_plain(tail);
    }
}

/// Every encoding, bare or wrapped for execution, is written in the eight
/// emitted symbols.
pub proof fn lemma_encoding_emitted(text: Seq<char>)
    ensures
        drawn_from(encoding(text), emitted_symbols()),
        drawn_from(execution(encoding(text)), emitted_symbols()),
{
    broadcast use group_symbols;

    lemma_pieces();
    lemma_fragments(text);
    lemma_constructor_words();
}

/// An encoding is written in the six core symbols alone exactly when the
/// scan over the text meets nothing but plain keywords and plain characters,
/// as it does in every text of plain characters.
pub proof fn lemma_encoding_core(text: Seq<char>)
    ensures
        drawn_from(encoding(text), core_symbols()) <==> scans_plain(text),
        all_plain(text) ==> drawn_from(encoding(text), core_symbols()),
{
    broadcast use group_symbols;

    lemma_pieces();
    lemma_fragments(text);
    if all_plain(text) {
        lemma_plain_text_scans_plain(text);
    }
}

/// The execution wrapper keeps an expression within the emitted symbols, and
/// is itself never written in core symbols alone: the path to the function
/// constructor goes through the object seed.
pub proof fn lemma_execution_symbols(expr: Seq<char>)
    ensures
        drawn_from(execution(expr), emitted_symbols()) <==> drawn_from(expr, emitted_symbols()),
        !drawn_from(execution(expr), core_symbols()),
{
    broadcast use group_symbols;

    lemma_pieces();
    lemma_constructor_words();
}

} // verus!
