//! How each character is derived: the table of derivations, the expressions
//! they are written as, and the proof that every table entry points at the
//! character it stands for.

use vstd::prelude::*;
use crate::numeral::{index_text, number_text};
use crate::seed::{at_index, from_seed, seed_text, SeedSource};

verus! {

/// A constructor function of the target runtime whose printed source text
/// supplies further characters.
pub enum Builtin {
    /// The constructor of strings.
    StringType,
    /// The constructor of numbers.
    NumberType,
    /// The constructor of arrays.
    ArrayType,
    /// The constructor of booleans.
    BooleanType,
    /// The constructor of functions.
    FunctionType,
}

/// The way one character is produced.
pub enum Derivation {
    /// Read out of a seed's text at an index.
    Seed(SeedSource, nat),
    /// Read out of a constructor's printed source text at an index.
    Constructor(Builtin, nat),
    /// The single digit of a number below 36 written in base 36.
    Radix36(nat),
    /// A decimal digit, as the text of its own value.
    Digit(nat),
    /// The period, read out of the text of a fraction computed at run time.
    Period,
    /// No rule of its own: decoded at run time from a percent escape.
    Escape,
}

/// The derivation table.
pub open spec fn derivation(c: char) -> Derivation {
    if c == 'a' {
        Derivation::Seed(SeedSource::False, 1)
    } else if c == 'b' {
        Derivation::Seed(SeedSource::Object, 2)
    } else if c == 'c' {
        Derivation::Seed(SeedSource::Object, 5)
    } else if c == 'd' {
        Derivation::Seed(SeedSource::Undefined, 2)
    } else if c == 'e' {
        Derivation::Seed(SeedSource::True, 3)
    } else if c == 'f' {
        Derivation::Seed(SeedSource::False, 0)
    } else if c == 'g' {
        Derivation::Constructor(Builtin::StringType, 14)
    } else if c == 'h' {
        Derivation::Radix36(17)
    } else if c == 'i' {
        Derivation::Seed(SeedSource::Undefined, 5)
    } else if c == 'j' {
        Derivation::Seed(SeedSource::Object, 3)
    } else if c == 'k' {
        Derivation::Radix36(20)
    } else if c == 'l' {
        Derivation::Seed(SeedSource::False, 2)
    } else if c == 'm' {
        Derivation::Constructor(Builtin::NumberType, 11)
    } else if c == 'n' {
        Derivation::Seed(SeedSource::Undefined, 1)
    } else if c == 'o' {
        Derivation::Seed(SeedSource::Object, 1)
    } else if c == 'p' {
        Derivation::Radix36(25)
    } else if c == 'q' {
        Derivation::Radix36(26)
    } else if c == 'r' {
        Derivation::Seed(SeedSource::True, 1)
    } else if c == 's' {
        Derivation::Seed(SeedSource::False, 3)
    } else if c == 't' {
        Derivation::Seed(SeedSource::True, 0)
    } else if c == 'u' {
        Derivation::Seed(SeedSource::Undefined, 0)
    } else if c == 'v' {
        Derivation::Radix36(31)
    } else if c == 'w' {
        Derivation::Radix36(32)
    } else if c == 'x' {
        Derivation::Radix36(33)
    } else if c == 'y' {
        Derivation::Constructor(Builtin::ArrayType, 13)
    } else if c == 'z' {
        Derivation::Radix36(35)
    } else if c == 'A' {
        Derivation::Constructor(Builtin::ArrayType, 9)
    } else if c == 'B' {
        Derivation::Constructor(Builtin::BooleanType, 9)
    } else if c == 'F' {
        Derivation::Constructor(Builtin::FunctionType, 9)
    } else if c == 'N' {
        Derivation::Seed(SeedSource::NaN, 0)
    } else if c == 'O' {
        Derivation::Seed(SeedSource::Object, 8)
    } else if c == 'S' {
        Derivation::Constructor(Builtin::StringType, 9)
    } else if '0' <= c <= '9' {
        Derivation::Digit((c as int - '0' as int) as nat)
    } else if c == ' ' {
        Derivation::Seed(SeedSource::Object, 7)
    } else if c == '[' {
        Derivation::Seed(SeedSource::Object, 0)
    } else if c == ']' {
        Derivation::Seed(SeedSource::Object, 14)
    } else if c == '(' {
        Derivation::Constructor(Builtin::FunctionType, 17)
    } else if c == ')' {
        Derivation::Constructor(Builtin::FunctionType, 18)
    } else if c == '{' {
        Derivation::Constructor(Builtin::FunctionType, 20)
    } else if c == '.' {
        Derivation::Period
    } else {
        Derivation::Escape
    }
}

/// The source text that the target runtime prints for a constructor.
pub open spec fn builtin_source(builtin: Builtin) -> Seq<char> {
    match builtin {
        Builtin::StringType => "function String() { [native code] }"@,
        Builtin::NumberType => "function Number() { [native code] }"@,
        Builtin::ArrayType => "function Array() { [native code] }"@,
        Builtin::BooleanType => "function Boolean() { [native code] }"@,
        Builtin::FunctionType => "function Function() { [native code] }"@,
    }
}

/// The digit that stands for `value` in base 36: `0` to `9`, then `a` to `z`.
pub open spec fn radix36_digit(value: nat) -> char {
    if value < 10 {
        ('0' as int + value) as char
    } else {
        ('a' as int + value - 10) as char
    }
}

/// The character that a derivation produces in the target runtime, if the
/// derivation is well formed.
pub open spec fn derivation_yields(d: Derivation, c: char) -> bool {
    match d {
        Derivation::Seed(seed, index) => index < seed_text(seed).len() && seed_text(seed)[index as int] == c,
        Derivation::Constructor(builtin, index) => index < builtin_source(builtin).len()
            && builtin_source(builtin)[index as int] == c,
        Derivation::Radix36(value) => 10 <= value < 36 && radix36_digit(value) == c,
        Derivation::Digit(value) => value < 10 && radix36_digit(value) == c,
        Derivation::Period => c == '.',
        Derivation::Escape => true,
    }
}

/// The expression for a character that a seed holds.
pub open spec fn seed_letter(c: char) -> Seq<char>
    recommends
        derivation(c) is Seed,
{
    match derivation(c) {
        Derivation::Seed(seed, index) => from_seed(seed, index),
        _ => Seq::empty(),
    }
}

/// The word `constructor`, spelled from seed letters: the name of the property
/// through which every value reaches the function that made it.
#[verifier::opaque]
pub open spec fn constructor_word() -> Seq<char> {
    "([]+"@ + seed_letter('c') + "+"@ + seed_letter('o') + "+"@ + seed_letter('n') + "+"@
        + seed_letter('s') + "+"@ + seed_letter('t') + "+"@ + seed_letter('r') + "+"@
        + seed_letter('u') + "+"@ + seed_letter('c') + "+"@ + seed_letter('t') + "+"@
        + seed_letter('o') + "+"@ + seed_letter('r') + ")"@
}

/// The word `filter`, spelled from seed letters: the name of an array method.
#[verifier::opaque]
pub open spec fn filter_word() -> Seq<char> {
    "([]+"@ + seed_letter('f') + "+"@ + seed_letter('i') + "+"@ + seed_letter('l') + "+"@
        + seed_letter('t') + "+"@ + seed_letter('e') + "+"@ + seed_letter('r') + ")"@
}

/// The expression that reaches the function constructor: the constructor of
/// an array's `filter` method.
#[verifier::opaque]
pub open spec fn function_constructor() -> Seq<char> {
    "[]["@ + filter_word() + "]["@ + constructor_word() + "]"@
}

/// The expression that evaluates to the printed source text of a constructor.
#[verifier::opaque]
pub open spec fn builtin_expr(builtin: Builtin) -> Seq<char> {
    match builtin {
        Builtin::StringType => "(([]+[])["@ + constructor_word() + "]+[])"@,
        Builtin::NumberType => "((+[])["@ + constructor_word() + "]+[])"@,
        Builtin::ArrayType => "([]["@ + constructor_word() + "]+[])"@,
        Builtin::BooleanType => "((!![])["@ + constructor_word() + "]+[])"@,
        Builtin::FunctionType => "("@ + function_constructor() + "+[])"@,
    }
}

/// The expression for the character at `index` of a constructor's source text.
pub open spec fn from_builtin(builtin: Builtin, index: nat) -> Seq<char> {
    at_index(builtin_expr(builtin), index)
}

/// The expression for a character that a constructor's source text holds.
pub open spec fn builtin_letter(c: char) -> Seq<char>
    recommends
        derivation(c) is Constructor,
{
    match derivation(c) {
        Derivation::Constructor(builtin, index) => from_builtin(builtin, index),
        _ => Seq::empty(),
    }
}

/// The word `toString`, the name of the method that writes a number in a
/// given base.
#[verifier::opaque]
pub open spec fn tostring_word() -> Seq<char> {
    "([]+"@ + seed_letter('t') + "+"@ + seed_letter('o') + "+"@ + builtin_letter('S') + "+"@
        + seed_letter('t') + "+"@ + seed_letter('r') + "+"@ + seed_letter('i') + "+"@
        + seed_letter('n') + "+"@ + builtin_letter('g') + ")"@
}

/// The expression for the base-36 digit of `value`: the first character of
/// `value` written in base 36.
#[verifier::opaque]
pub open spec fn from_radix36(value: nat) -> Seq<char> {
    "(("@ + index_text(value) + ")["@ + tostring_word() + "]("@ + number_text(36) + ")[+[]])"@
}

/// The expression for a character that is a base-36 digit above nine.
pub open spec fn radix_letter(c: char) -> Seq<char>
    recommends
        derivation(c) is Radix36,
{
    match derivation(c) {
        Derivation::Radix36(value) => from_radix36(value),
        _ => Seq::empty(),
    }
}

/// The expression for a decimal digit: its value, coerced to text.
pub open spec fn digit_expr(value: nat) -> Seq<char> {
    "("@ + index_text(value) + "+[])"@
}

/// The program text `return `, spelled without its enclosing parentheses; the
/// programs handed to the function constructor all begin with it.
#[verifier::opaque]
pub open spec fn return_prefix() -> Seq<char> {
    "([]+"@ + seed_letter('r') + "+"@ + seed_letter('e') + "+"@ + seed_letter('t') + "+"@
        + seed_letter('u') + "+"@ + seed_letter('r') + "+"@ + seed_letter('n') + "+"@
        + seed_letter(' ')
}

/// The word `italics`, the name of a string method whose result holds a slash.
#[verifier::opaque]
pub open spec fn italics_word() -> Seq<char> {
    "([]+[]+"@ + seed_letter('i') + "+"@ + seed_letter('t') + "+"@ + seed_letter('a') + "+"@
        + seed_letter('l') + "+"@ + seed_letter('i') + "+"@ + seed_letter('c') + "+"@
        + seed_letter('s') + ")"@
}

/// The expression for the slash: the fifth character of an empty string set
/// in italics.
#[verifier::opaque]
pub open spec fn slash_expr() -> Seq<char> {
    at_index("(([]+[])["@ + italics_word() + "]()+[])"@, 4)
}

/// The expression for the period: the second character of the text of the
/// fraction that the program `return 1/2` computes.
#[verifier::opaque]
pub open spec fn period_expr() -> Seq<char> {
    at_index(
        "("@ + function_constructor() + "("@ + (return_prefix() + "+"@ + number_text(1) + "+"@
            + slash_expr() + "+"@ + number_text(2) + ")"@) + ")()+[])"@,
        1,
    )
}

/// The program `return unescape`, spelled from seed letters and one base-36
/// digit.
#[verifier::opaque]
pub open spec fn unescape_program() -> Seq<char> {
    return_prefix() + "+"@ + seed_letter('u') + "+"@ + seed_letter('n') + "+"@ + seed_letter(
        'e',
    ) + "+"@ + seed_letter('s') + "+"@ + seed_letter('c') + "+"@ + seed_letter('a') + "+"@
        + radix_letter('p') + "+"@ + seed_letter('e') + ")"@
}

/// The program `return escape`, spelled likewise.
#[verifier::opaque]
pub open spec fn escape_program() -> Seq<char> {
    return_prefix() + "+"@ + seed_letter('e') + "+"@ + seed_letter('s') + "+"@ + seed_letter(
        'c',
    ) + "+"@ + seed_letter('a') + "+"@ + radix_letter('p') + "+"@ + seed_letter('e') + ")"@
}

/// The expression that evaluates to the runtime's percent-decoding function:
/// the function constructor applied to the program that returns it, called.
#[verifier::opaque]
pub open spec fn unescape_function() -> Seq<char> {
    function_constructor() + "("@ + unescape_program() + ")()"@
}

/// The expression that evaluates to the runtime's percent-encoding function.
#[verifier::opaque]
pub open spec fn escape_function() -> Seq<char> {
    function_constructor() + "("@ + escape_program() + ")()"@
}

/// The expression for the percent sign: the first character of the escape of
/// an opening bracket.
#[verifier::opaque]
pub open spec fn percent_expr() -> Seq<char> {
    "("@ + escape_function() + "("@ + seed_letter('[') + ")+[])[+[]]"@
}

/// The byte that the escape of `c` names: the low eight bits of its code point.
pub open spec fn escape_byte(c: char) -> nat {
    (c as nat) % 256
}

/// The lowercase hexadecimal digit for a value below sixteen.
pub open spec fn hex_digit(value: nat) -> char
    recommends
        value < 16,
{
    radix36_digit(value)
}

/// The expression for a lowercase hexadecimal digit: a decimal digit, or one
/// of the seed letters `a` to `f`.
pub open spec fn hex_digit_expr(value: nat) -> Seq<char>
    recommends
        value < 16,
{
    if value < 10 {
        digit_expr(value)
    } else {
        seed_letter(hex_digit(value))
    }
}

/// The expression for a character without a rule of its own: the percent
/// sign and the two hexadecimal digits of its byte, handed to the
/// percent-decoding function.
#[verifier::opaque]
pub open spec fn escape_expr(c: char) -> Seq<char> {
    unescape_function() + "("@ + (percent_expr() + "+"@ + hex_digit_expr(escape_byte(c) / 16)
        + "+"@ + hex_digit_expr(escape_byte(c) % 16)) + ")"@
}

/// The expression for any character.
pub open spec fn char_expr(c: char) -> Seq<char> {
    match derivation(c) {
        Derivation::Seed(seed, index) => from_seed(seed, index),
        Derivation::Constructor(builtin, index) => from_builtin(builtin, index),
        Derivation::Radix36(value) => from_radix36(value),
        Derivation::Digit(value) => digit_expr(value),
        Derivation::Period => period_expr(),
        Derivation::Escape => escape_expr(c),
    }
}

/// `acc`, followed by `+` and the expression of each character of `word`
/// from position `from` on.
pub open spec fn spell_onto(acc: Seq<char>, word: Seq<char>, from: nat) -> Seq<char>
    decreases word.len() - from,
{
    if from >= word.len() {
        acc
    } else {
        spell_onto(acc + "+"@ + char_expr(word[from as int]), word, from + 1)
    }
}

/// `opening`, followed by the expressions of the characters of `word`,
/// joined by `+`.
pub open spec fn spelling(opening: Seq<char>, word: Seq<char>) -> Seq<char>
    recommends
        word.len() > 0,
{
    spell_onto(opening + char_expr(word[0]), word, 1)
}

/// The value of a lowercase hexadecimal digit.
pub open spec fn hex_value(digit: char) -> nat {
    if '0' <= digit <= '9' {
        (digit as int - '0' as int) as nat
    } else {
        (digit as int - 'a' as int + 10) as nat
    }
}

/// Every entry of the derivation table points at its own character: the
/// seed's text, or the constructor's source text, holds the character at the
/// index that the entry gives, and a base-36 entry gives the value whose
/// digit the character is.
pub proof fn lemma_derivation_sound(c: char)
    ensures
        derivation_yields(derivation(c), c),
{
    reveal_strlit("false");
    reveal_strlit("true");
    reveal_strlit("undefined");
    reveal_strlit("NaN");
    reveal_strlit("[object Object]");
    reveal_strlit("function String() { [native code] }");
    reveal_strlit("function Number() { [native code] }");
    reveal_strlit("function Array() { [native code] }");
    reveal_strlit("function Boolean() { [native code] }");
    reveal_strlit("function Function() { [native code] }");
}

/// `constructor_word` spells `constructor` with the expressions of its characters.
proof fn lemma_constructor_word_spelled()
    ensures
        constructor_word() == spelling("([]+"@, "constructor"@) + ")"@,
{
    reveal(constructor_word);
    reveal_strlit("constructor");
    reveal_with_fuel(spell_onto, 12);
}

/// `filter_word` spells `filter` with the expressions of its characters.
proof fn lemma_filter_word_spelled()
    ensures
        filter_word() == spelling("([]+"@, "filter"@) + ")"@,
{
    reveal(filter_word);
    reveal_strlit("filter");
    reveal_with_fuel(spell_onto, 7);
}

/// `tostring_word` spells `toString` with the expressions of its characters.
proof fn lemma_tostring_word_spelled()
    ensures
        tostring_word() == spelling("([]+"@, "toString"@) + ")"@,
{
    reveal(tostring_word);
    reveal_strlit("toString");
    reveal_with_fuel(spell_onto, 9);
}

/// `italics_word` spells `italics` with the expressions of its characters.
proof fn lemma_italics_word_spelled()
    ensures
        italics_word() == spelling("([]+[]+"@, "italics"@) + ")"@,
{
    reveal(italics_word);
    reveal_strlit("italics");
    reveal_with_fuel(spell_onto, 8);
}

/// `return_prefix` spells `return ` with the expressions of its characters.
proof fn lemma_return_prefix_spelled()
    ensures
        return_prefix() == spelling("([]+"@, "return "@),
{
    reveal(return_prefix);
    reveal_strlit("return ");
    reveal_with_fuel(spell_onto, 8);
}

/// `unescape_program` spells `return unescape` with the expressions of its characters.
proof fn lemma_unescape_program_spelled()
    ensures
        unescape_program() == spelling("([]+"@, "return unescape"@) + ")"@,
{
    reveal(return_prefix);
    reveal(unescape_program);
    reveal_strlit("return unescape");
    reveal_with_fuel(spell_onto, 16);
}

/// `escape_program` spells `return escape` with the expressions of its characters.
proof fn lemma_escape_program_spelled()
    ensures
        escape_program() == spelling("([]+"@, "return escape"@) + ")"@,
{
    reveal(return_prefix);
    reveal(escape_program);
    reveal_strlit("return escape");
    reveal_with_fuel(spell_onto, 14);
}

/// The words that the encoder spells for its own use are spelled with the
/// same expressions that it emits for their characters.
pub proof fn lemma_words_spelled()
    ensures
        constructor_word() == spelling("([]+"@, "constructor"@) + ")"@,
        filter_word() == spelling("([]+"@, "filter"@) + ")"@,
        tostring_word() == spelling("([]+"@, "toString"@) + ")"@,
        italics_word() == spelling("([]+[]+"@, "italics"@) + ")"@,
        return_prefix() == spelling("([]+"@, "return "@),
        unescape_program() == spelling("([]+"@, "return unescape"@) + ")"@,
        escape_program() == spelling("([]+"@, "return escape"@) + ")"@,
{
    lemma_constructor_word_spelled();
    lemma_filter_word_spelled();
    lemma_tostring_word_spelled();
    lemma_italics_word_spelled();
    lemma_return_prefix_spelled();
    lemma_unescape_program_spelled();
    lemma_escape_program_spelled();
}

/// The two hexadecimal digits that an escape is written with name the low
/// byte of the character, which for a character below U+0100 is the
/// character's own code point.
pub proof fn lemma_escape_names_byte(c: char)
    ensures
        escape_byte(c) / 16 < 16,
        escape_byte(c) % 16 < 16,
        hex_value(hex_digit(escape_byte(c) / 16)) * 16 + hex_value(hex_digit(escape_byte(c) % 16))
            == escape_byte(c),
        (c as nat) < 256 ==> escape_byte(c) == c as nat,
{
}

} // verus!
