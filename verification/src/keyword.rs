//! The keyword table: whole words that are encoded in one piece.
//!
//! The table is scanned from the top and the first entry that the remaining
//! input begins with is taken, so its order matters: a keyword that begins
//! another one has to stand below it.

use vstd::prelude::*;
use vstd::string::*;
use crate::derivation::{char_expr, constructor_word, digit_expr, seed_letter, tostring_word};
use crate::seed::{seed_expr, seed_text, SeedSource};

verus! {

/// The number of entries in the keyword table.
pub const KEYWORD_COUNT: usize = 49;

/// A keyword with an expression of its own, built by a dedicated generator.
#[derive(Clone, Copy, PartialEq, Eq, Debug)]
pub enum Generator {
    /// The word `constructor`.
    Constructor,
    /// The word `function`.
    Function,
    /// The word `toString`.
    ToString,
    /// The word `Infinity`.
    Infinity,
    /// The word `return`.
    Return,
}

/// How the expression for a keyword is produced.
pub enum GenStrategy {
    /// A fixed expression.
    Simple(&'static str),
    /// The result of a generator.
    Func(Generator),
    /// The given word, spelled character by character.
    Chars(&'static str),
}

/// The rule by which a table entry is encoded.
pub enum KeywordRule {
    /// The keyword is the text of a seed, and is encoded as that seed.
    Seed(SeedSource),
    /// The keyword has a generator of its own.
    Generated(Generator),
    /// The keyword is spelled character by character.
    Spelled,
}

/// The text of the table entry at `k`.
pub open spec fn keyword_text(k: int) -> Seq<char> {
    if k == 0 {
        "constructor"@
    } else if k == 1 {
        "instanceof"@
    } else if k == 2 {
        "undefined"@
    } else if k == 3 {
        "arguments"@
    } else if k == 4 {
        "function"@
    } else if k == 5 {
        "toString"@
    } else if k == 6 {
        "Infinity"@
    } else if k == 7 {
        "continue"@
    } else if k == 8 {
        "debugger"@
    } else if k == 9 {
        "default"@
    } else if k == 10 {
        "extends"@
    } else if k == 11 {
        "finally"@
    } else if k == 12 {
        "return"@
    } else if k == 13 {
        "switch"@
    } else if k == 14 {
        "typeof"@
    } else if k == 15 {
        "delete"@
    } else if k == 16 {
        "import"@
    } else if k == 17 {
        "export"@
    } else if k == 18 {
        "object"@
    } else if k == 19 {
        "false"@
    } else if k == 20 {
        "const"@
    } else if k == 21 {
        "class"@
    } else if k == 22 {
        "break"@
    } else if k == 23 {
        "catch"@
    } else if k == 24 {
        "throw"@
    } else if k == 25 {
        "while"@
    } else if k == 26 {
        "super"@
    } else if k == 27 {
        "yield"@
    } else if k == 28 {
        "async"@
    } else if k == 29 {
        "await"@
    } else if k == 30 {
        "true"@
    } else if k == 31 {
        "null"@
    } else if k == 32 {
        "this"@
    } else if k == 33 {
        "else"@
    } else if k == 34 {
        "case"@
    } else if k == 35 {
        "void"@
    } else if k == 36 {
        "with"@
    } else if k == 37 {
        "enum"@
    } else if k == 38 {
        "from"@
    } else if k == 39 {
        "NaN"@
    } else if k == 40 {
        "new"@
    } else if k == 41 {
        "var"@
    } else if k == 42 {
        "let"@
    } else if k == 43 {
        "for"@
    } else if k == 44 {
        "try"@
    } else if k == 45 {
        "if"@
    } else if k == 46 {
        "in"@
    } else if k == 47 {
        "do"@
    } else if k == 48 {
        "of"@
    } else {
        Seq::empty()
    }
}

/// The rule of the table entry at `k`.
pub open spec fn keyword_rule(k: int) -> KeywordRule {
    if k == 0 {
        KeywordRule::Generated(Generator::Constructor)
    } else if k == 1 {
        KeywordRule::Spelled
    } else if k == 2 {
        KeywordRule::Seed(SeedSource::Undefined)
    } else if k == 3 {
        KeywordRule::Spelled
    } else if k == 4 {
        KeywordRule::Generated(Generator::Function)
    } else if k == 5 {
        KeywordRule::Generated(Generator::ToString)
    } else if k == 6 {
        KeywordRule::Generated(Generator::Infinity)
    } else if k == 7 {
        KeywordRule::Spelled
    } else if k == 8 {
        KeywordRule::Spelled
    } else if k == 9 {
        KeywordRule::Spelled
    } else if k == 10 {
        KeywordRule::Spelled
    } else if k == 11 {
        KeywordRule::Spelled
    } else if k == 12 {
        KeywordRule::Generated(Generator::Return)
    } else if k == 13 {
        KeywordRule::Spelled
    } else if k == 14 {
        KeywordRule::Spelled
    } else if k == 15 {
        KeywordRule::Spelled
    } else if k == 16 {
        KeywordRule::Spelled
    } else if k == 17 {
        KeywordRule::Spelled
    } else if k == 18 {
        KeywordRule::Spelled
    } else if k == 19 {
        KeywordRule::Seed(SeedSource::False)
    } else if k == 20 {
        KeywordRule::Spelled
    } else if k == 21 {
        KeywordRule::Spelled
    } else if k == 22 {
        KeywordRule::Spelled
    } else if k == 23 {
        KeywordRule::Spelled
    } else if k == 24 {
        KeywordRule::Spelled
    } else if k == 25 {
        KeywordRule::Spelled
    } else if k == 26 {
        KeywordRule::Spelled
    } else if k == 27 {
        KeywordRule::Spelled
    } else if k == 28 {
        KeywordRule::Spelled
    } else if k == 29 {
        KeywordRule::Spelled
    } else if k == 30 {
        KeywordRule::Seed(SeedSource::True)
    } else if k == 31 {
        KeywordRule::Spelled
    } else if k == 32 {
        KeywordRule::Spelled
    } else if k == 33 {
        KeywordRule::Spelled
    } else if k == 34 {
        KeywordRule::Spelled
    } else if k == 35 {
        KeywordRule::Spelled
    } else if k == 36 {
        KeywordRule::Spelled
    } else if k == 37 {
        KeywordRule::Spelled
    } else if k == 38 {
        KeywordRule::Spelled
    } else if k == 39 {
        KeywordRule::Seed(SeedSource::NaN)
    } else if k == 40 {
        KeywordRule::Spelled
    } else if k == 41 {
        KeywordRule::Spelled
    } else if k == 42 {
        KeywordRule::Spelled
    } else if k == 43 {
        KeywordRule::Spelled
    } else if k == 44 {
        KeywordRule::Spelled
    } else if k == 45 {
        KeywordRule::Spelled
    } else if k == 46 {
        KeywordRule::Spelled
    } else if k == 47 {
        KeywordRule::Spelled
    } else if k == 48 {
        KeywordRule::Spelled
    } else {
        KeywordRule::Spelled
    }
}

/// The length of the table entry at `k`.
pub open spec fn keyword_length(k: int) -> nat {
    if k < 1 {
        11
    } else if k < 2 {
        10
    } else if k < 4 {
        9
    } else if k < 9 {
        8
    } else if k < 12 {
        7
    } else if k < 19 {
        6
    } else if k < 30 {
        5
    } else if k < 39 {
        4
    } else if k < 45 {
        3
    } else {
        2
    }
}

/// `+` and the expression of each character of `word`, in order.
pub open spec fn char_terms(word: Seq<char>) -> Seq<char>
    decreases word.len(),
{
    if word.len() == 0 {
        Seq::empty()
    } else {
        char_terms(word.drop_last()) + "+"@ + char_expr(word.last())
    }
}

/// The expression for a word spelled character by character: an empty array
/// plus the expression of each character, in parentheses.
pub open spec fn spelled_word(word: Seq<char>) -> Seq<char> {
    "([]"@ + char_terms(word) + ")"@
}

/// The expression for the word `Infinity`: the digits and the letter of the
/// text `1e1000` joined, converted to a number, which is too large to be
/// anything but infinite, and coerced back to text.
#[verifier::opaque]
pub open spec fn infinity_word() -> Seq<char> {
    "(+("@ + digit_expr(1) + "+"@ + seed_letter('e') + "+"@ + digit_expr(1) + "+"@ + digit_expr(0)
        + "+"@ + digit_expr(0) + "+"@ + digit_expr(0) + ")+[])"@
}

/// The word that a generator stands for.
pub open spec fn generator_text(generator: Generator) -> Seq<char> {
    match generator {
        Generator::Constructor => "constructor"@,
        Generator::Function => "function"@,
        Generator::ToString => "toString"@,
        Generator::Infinity => "Infinity"@,
        Generator::Return => "return"@,
    }
}

/// The expression that a generator produces.
pub open spec fn generator_expr(generator: Generator) -> Seq<char> {
    match generator {
        Generator::Constructor => constructor_word(),
        Generator::Function => spelled_word("function"@),
        Generator::ToString => tostring_word(),
        Generator::Infinity => infinity_word(),
        Generator::Return => spelled_word("return"@),
    }
}

/// The expression of the table entry at `k`.
pub open spec fn keyword_expr(k: int) -> Seq<char> {
    match keyword_rule(k) {
        KeywordRule::Seed(seed) => seed_expr(seed),
        KeywordRule::Generated(generator) => generator_expr(generator),
        KeywordRule::Spelled => spelled_word(keyword_text(k)),
    }
}

/// The expression that an entry's strategy produces.
pub open spec fn strategy_expr(strategy: GenStrategy) -> Seq<char> {
    match strategy {
        GenStrategy::Simple(text) => text@,
        GenStrategy::Func(generator) => generator_expr(generator),
        GenStrategy::Chars(word) => spelled_word(word@),
    }
}

/// `text` begins with `word`.
pub open spec fn starts_with(text: Seq<char>, word: Seq<char>) -> bool {
    &&& word.len() <= text.len()
    &&& forall|j: int| 0 <= j < word.len() ==> #[trigger] text[j] == word[j]
}

/// The first table entry at or after `from` that `rest` begins with.
pub open spec fn first_keyword_from(rest: Seq<char>, from: int) -> Option<int>
    decreases KEYWORD_COUNT - from,
{
    if from < 0 || from >= KEYWORD_COUNT {
        None
    } else if starts_with(rest, keyword_text(from)) {
        Some(from)
    } else {
        first_keyword_from(rest, from + 1)
    }
}

/// The table entry that the scan takes for `rest`: the first one that `rest`
/// begins with.
pub open spec fn first_keyword(rest: Seq<char>) -> Option<int> {
    first_keyword_from(rest, 0)
}

/// `strategy` carries out `rule` for the keyword `text`: a seed entry holds
/// the seed's expression, a generated entry names its generator, and a
/// spelled entry holds the keyword itself.
pub open spec fn carries_out(strategy: GenStrategy, rule: KeywordRule, text: Seq<char>) -> bool {
    match rule {
        KeywordRule::Seed(seed) => strategy matches GenStrategy::Simple(expr) && expr@
            == seed_expr(seed),
        KeywordRule::Generated(generator) => strategy matches GenStrategy::Func(named) && named
            == generator,
        KeywordRule::Spelled => strategy matches GenStrategy::Chars(word) && word@ == text,
    }
}

/// The table entry at `k`: its text and its strategy.
pub fn keyword_at(k: usize) -> (entry: (&'static str, GenStrategy))
    requires
        k < KEYWORD_COUNT,
    ensures
        entry.0@ == keyword_text(k as int),
        carries_out(entry.1, keyword_rule(k as int), keyword_text(k as int)),
        strategy_expr(entry.1) == keyword_expr(k as int),
{
    match k {
        0 => ("constructor", GenStrategy::Func(Generator::Constructor)),
        1 => ("instanceof", GenStrategy::Chars("instanceof")),
        2 => ("undefined", GenStrategy::Simple("([][[]]+[])")),
        3 => ("arguments", GenStrategy::Chars("arguments")),
        4 => ("function", GenStrategy::Func(Generator::Function)),
        5 => ("toString", GenStrategy::Func(Generator::ToString)),
        6 => ("Infinity", GenStrategy::Func(Generator::Infinity)),
        7 => ("continue", GenStrategy::Chars("continue")),
        8 => ("debugger", GenStrategy::Chars("debugger")),
        9 => ("default", GenStrategy::Chars("default")),
        10 => ("extends", GenStrategy::Chars("extends")),
        11 => ("finally", GenStrategy::Chars("finally")),
        12 => ("return", GenStrategy::Func(Generator::Return)),
        13 => ("switch", GenStrategy::Chars("switch")),
        14 => ("typeof", GenStrategy::Chars("typeof")),
        15 => ("delete", GenStrategy::Chars("delete")),
        16 => ("import", GenStrategy::Chars("import")),
        17 => ("export", GenStrategy::Chars("export")),
        18 => ("object", GenStrategy::Chars("object")),
        19 => ("false", GenStrategy::Simple("(![]+[])")),
        20 => ("const", GenStrategy::Chars("const")),
        21 => ("class", GenStrategy::Chars("class")),
        22 => ("break", GenStrategy::Chars("break")),
        23 => ("catch", GenStrategy::Chars("catch")),
        24 => ("throw", GenStrategy::Chars("throw")),
        25 => ("while", GenStrategy::Chars("while")),
        26 => ("super", GenStrategy::Chars("super")),
        27 => ("yield", GenStrategy::Chars("yield")),
        28 => ("async", GenStrategy::Chars("async")),
        29 => ("await", GenStrategy::Chars("await")),
        30 => ("true", GenStrategy::Simple("(!![]+[])")),
        31 => ("null", GenStrategy::Chars("null")),
        32 => ("this", GenStrategy::Chars("this")),
        33 => ("else", GenStrategy::Chars("else")),
        34 => ("case", GenStrategy::Chars("case")),
        35 => ("void", GenStrategy::Chars("void")),
        36 => ("with", GenStrategy::Chars("with")),
        37 => ("enum", GenStrategy::Chars("enum")),
        38 => ("from", GenStrategy::Chars("from")),
        39 => ("NaN", GenStrategy::Simple("(+[![]]+[])")),
        40 => ("new", GenStrategy::Chars("new")),
        41 => ("var", GenStrategy::Chars("var")),
        42 => ("let", GenStrategy::Chars("let")),
        43 => ("for", GenStrategy::Chars("for")),
        44 => ("try", GenStrategy::Chars("try")),
        45 => ("if", GenStrategy::Chars("if")),
        46 => ("in", GenStrategy::Chars("in")),
        47 => ("do", GenStrategy::Chars("do")),
        _ => ("of", GenStrategy::Chars("of")),
    }
}

/// What the scan needs of the texts of two table entries: each has the length
/// that `keyword_length` gives it, and if one begins with the other, they are
/// `in` and `instanceof`, or `const` and `constructor`.
proof fn lemma_table_texts(inner: int, outer: int)
    requires
        0 <= inner < KEYWORD_COUNT,
        0 <= outer < KEYWORD_COUNT,
    ensures
        keyword_text(inner).len() == keyword_length(inner),
        keyword_text(outer).len() == keyword_length(outer),
        inner != outer && starts_with(keyword_text(outer), keyword_text(inner)) ==> (keyword_text(
            inner,
        ) == "in"@ && keyword_text(outer) == "instanceof"@) || (keyword_text(inner) == "const"@
            && keyword_text(outer) == "constructor"@),
{
    reveal_strlit("constructor");
    reveal_strlit("instanceof");
    reveal_strlit("undefined");
    reveal_strlit("arguments");
    reveal_strlit("function");
    reveal_strlit("toString");
    reveal_strlit("Infinity");
    reveal_strlit("continue");
    reveal_strlit("debugger");
    reveal_strlit("default");
    reveal_strlit("extends");
    reveal_strlit("finally");
    reveal_strlit("return");
    reveal_strlit("switch");
    reveal_strlit("typeof");
    reveal_strlit("delete");
    reveal_strlit("import");
    reveal_strlit("export");
    reveal_strlit("object");
    reveal_strlit("false");
    reveal_strlit("const");
    reveal_strlit("class");
    reveal_strlit("break");
    reveal_strlit("catch");
    reveal_strlit("throw");
    reveal_strlit("while");
    reveal_strlit("super");
    reveal_strlit("yield");
    reveal_strlit("async");
    reveal_strlit("await");
    reveal_strlit("true");
    reveal_strlit("null");
    reveal_strlit("this");
    reveal_strlit("else");
    reveal_strlit("case");
    reveal_strlit("void");
    reveal_strlit("with");
    reveal_strlit("enum");
    reveal_strlit("from");
    reveal_strlit("NaN");
    reveal_strlit("new");
    reveal_strlit("var");
    reveal_strlit("let");
    reveal_strlit("for");
    reveal_strlit("try");
    reveal_strlit("if");
    reveal_strlit("in");
    reveal_strlit("do");
    reveal_strlit("of");
    let a = keyword_text(inner);
    let b = keyword_text(outer);
    if inner != outer && starts_with(b, a) {
        assert(a[0] == b[0]);
        assert(a[1] == b[1]);
        assert(a.len() > 2 ==> a[2] == b[2]);
        assert(a.len() > 3 ==> a[3] == b[3]);
    }
}

/// Every table entry has the length that `keyword_length` gives it.
pub proof fn lemma_keyword_lengths(k: int)
    requires
        0 <= k < KEYWORD_COUNT,
    ensures
        keyword_text(k).len() == keyword_length(k),
        2 <= keyword_length(k) <= 11,
{
    lemma_table_texts(k, k);
}

/// What `first_keyword_from` finds: an entry in range that `rest` begins with
/// and that no entry between `from` and it matches, or nothing if no entry
/// from `from` on matches.
pub proof fn lemma_first_keyword_from(rest: Seq<char>, from: int)
    requires
        0 <= from,
    ensures
        match first_keyword_from(rest, from) {
            Some(k) => {
                &&& from <= k < KEYWORD_COUNT
                &&& starts_with(rest, keyword_text(k))
                &&& forall|j: int| from <= j < k ==> !starts_with(rest, #[trigger] keyword_text(j))
            },
            None => forall|j: int|
                from <= j < KEYWORD_COUNT ==> !starts_with(rest, #[trigger] keyword_text(j)),
        },
    decreases KEYWORD_COUNT - from,
{
    if from < KEYWORD_COUNT && !starts_with(rest, keyword_text(from)) {
        lemma_first_keyword_from(rest, from + 1);
    }
}

/// Every entry with an expression of its own is encoded as its own text: a
/// seed entry is the text of its seed, and a generated entry is the word of
/// its generator.
pub proof fn lemma_keyword_rule_sound(k: int)
    requires
        0 <= k < KEYWORD_COUNT,
    ensures
        match keyword_rule(k) {
            KeywordRule::Seed(seed) => keyword_text(k) == seed_text(seed),
            KeywordRule::Generated(generator) => keyword_text(k) == generator_text(generator),
            KeywordRule::Spelled => true,
        },
{
}

/// `short` is a beginning of `long`, and shorter than it.
pub open spec fn proper_prefix(short: Seq<char>, long: Seq<char>) -> bool {
    short.len() < long.len() && starts_with(long, short)
}

/// The table is ordered by length: no entry is longer than one above it.
pub proof fn lemma_longest_first(upper: int, lower: int)
    requires
        0 <= upper <= lower < KEYWORD_COUNT,
    ensures
        keyword_text(upper).len() >= keyword_text(lower).len(),
{
    lemma_keyword_lengths(upper);
    lemma_keyword_lengths(lower);
}

/// A keyword that begins a longer keyword stands below it in the table, so
/// the scan reaches the longer one first.
pub proof fn lemma_prefix_stands_below(short: int, long: int)
    requires
        0 <= short < KEYWORD_COUNT,
        0 <= long < KEYWORD_COUNT,
        proper_prefix(keyword_text(short), keyword_text(long)),
    ensures
        long < short,
{
    if short <= long {
        lemma_longest_first(short, long);
    }
}

/// The scan is longest-first: where the input begins with a keyword, the scan
/// takes a keyword that is that one or begins with it, and so is at least as
/// long. No keyword is cut down to one of its beginnings.
pub proof fn lemma_first_keyword_is_longest(rest: Seq<char>, candidate: int)
    requires
        0 <= candidate < KEYWORD_COUNT,
        starts_with(rest, keyword_text(candidate)),
    ensures
        first_keyword(rest) is Some,
        first_keyword(rest)->0 <= candidate,
        starts_with(keyword_text(first_keyword(rest)->0), keyword_text(candidate)),
{
    lemma_first_keyword_from(rest, 0);
    let taken = first_keyword(rest)->0;
    lemma_longest_first(taken, candidate);
    assert forall|j: int| 0 <= j < keyword_text(candidate).len() implies #[trigger] keyword_text(
        taken,
    )[j] == keyword_text(candidate)[j] by {
        assert(rest[j] == keyword_text(taken)[j]);
        assert(rest[j] == keyword_text(candidate)[j]);
    }
}

/// The only entries that begin with another entry are `instanceof`, which
/// begins with `in`, and `constructor`, which begins with `const`.
proof fn lemma_prefix_pairs(inner: int, outer: int)
    requires
        0 <= inner < KEYWORD_COUNT,
        0 <= outer < KEYWORD_COUNT,
        inner != outer,
        starts_with(keyword_text(outer), keyword_text(inner)),
    ensures
        (keyword_text(inner) == "in"@ && keyword_text(outer) == "instanceof"@) || (keyword_text(
            inner,
        ) == "const"@ && keyword_text(outer) == "constructor"@),
{
    lemma_table_texts(inner, outer);
}

/// Where the input begins with a keyword that has a shorter keyword as its
/// own beginning, the scan takes the longer keyword.
pub proof fn lemma_longer_keyword_taken(rest: Seq<char>, short: int, long: int)
    requires
        0 <= short < KEYWORD_COUNT,
        0 <= long < KEYWORD_COUNT,
        proper_prefix(keyword_text(short), keyword_text(long)),
        starts_with(rest, keyword_text(long)),
    ensures
        first_keyword(rest) == Some(long),
{
    lemma_first_keyword_is_longest(rest, long);
    let taken = first_keyword(rest)->0;
    lemma_first_keyword_from(rest, 0);
    if taken != long {
        lemma_prefix_pairs(long, taken);
        lemma_prefix_pairs(short, long);
        reveal_strlit("in");
        reveal_strlit("const");
        reveal_strlit("instanceof");
        reveal_strlit("constructor");
    }
}

} // verus!
