//! The encoder: each operation builds the text that the model prescribes.

use vstd::prelude::*;
use vstd::string::*;
use crate::alphabet::{core_symbols, drawn_from, emitted_symbols};
use crate::closure::{
    lemma_encoding_core, lemma_encoding_emitted, lemma_execution_symbols, scans_plain,
};
use crate::derivation::{
    builtin_expr, char_expr, constructor_word, derivation, digit_expr, escape_expr,
    escape_function, escape_program, filter_word, from_builtin, from_radix36,
    function_constructor, hex_digit, hex_digit_expr, italics_word, percent_expr, period_expr,
    return_prefix, slash_expr, tostring_word, unescape_function, unescape_program, Builtin,
};
use crate::encoding::{encoding, execution, fragments};
use crate::keyword::{
    char_terms, first_keyword, first_keyword_from, infinity_word, keyword_at,
    lemma_first_keyword_from, lemma_keyword_lengths, spelled_word, starts_with, strategy_expr,
    GenStrategy, Generator, KEYWORD_COUNT,
};
use crate::numeral::{index_text, number_text, sum_of_ones};
use crate::seed::{at_index, from_seed, SeedSource};

verus! {

/// The encoder. It holds no state: every operation is a function of its
/// arguments.
pub struct Encoder;

/// Appends `+` and `term`: one more term of a sum.
fn push_term(text: &mut String, term: &str)
    ensures
        final(text)@ == old(text)@ + "+"@ + term@,
{
    text.append("+");
    text.append(term);
}

/// Appends `[`, the index as a numeral, and `]`.
fn push_index(text: &mut String, index: u32)
    ensures
        final(text)@ == at_index(old(text)@, index as nat),
{
    let numeral = Encoder::encode_index(index);
    text.append("[");
    text.append(numeral.as_str());
    text.append("]");
}

/// The lowercase hexadecimal digit for `value`.
fn hex_digit_char(value: u8) -> (digit: char)
    requires
        value < 16,
    ensures
        digit == hex_digit(value as nat),
{
    match value {
        0 => '0',
        1 => '1',
        2 => '2',
        3 => '3',
        4 => '4',
        5 => '5',
        6 => '6',
        7 => '7',
        8 => '8',
        9 => '9',
        10 => 'a',
        11 => 'b',
        12 => 'c',
        13 => 'd',
        14 => 'e',
        _ => 'f',
    }
}

/// A hexadecimal digit is encoded by a rule of its own, never by an escape.
proof fn lemma_hex_digit_derived(value: nat)
    requires
        value < 16,
    ensures
        !(derivation(hex_digit(value)) is Escape),
        char_expr(hex_digit(value)) == hex_digit_expr(value),
{
}

/// The characters of `text`, one by one.
pub(crate) fn chars_of(text: &str) -> (chars: Vec<char>)
    ensures
        chars@ == text@,
{
    let mut chars: Vec<char> = Vec::new();
    for c in it: text.chars()
        invariant
            it.seq() == text@,
            chars@ == text@.take(it.index() as int),
    {
        chars.push(c);
    }
    chars
}

/// Whether the characters from `at` on begin with `key`.
fn begins_with(chars: &Vec<char>, at: usize, key: &str) -> (found: bool)
    requires
        at <= chars@.len(),
    ensures
        found == starts_with(chars@.skip(at as int), key@),
{
    let ghost rest = chars@.skip(at as int);
    let mut pos: usize = at;
    for c in it: key.chars()
        invariant
            it.seq() == key@,
            rest == chars@.skip(at as int),
            at <= chars@.len(),
            pos == at + it.index(),
            pos <= chars@.len(),
            forall|j: int| 0 <= j < it.index() ==> #[trigger] rest[j] == key@[j],
    {
        if pos >= chars.len() {
            return false;
        }
        if chars[pos] != c {
            assert(rest[it.index() as int] != key@[it.index() as int]);
            return false;
        }
        pos = pos + 1;
    }
    true
}

/// The first table entry that the characters from `at` on begin with.
fn scan_keywords(chars: &Vec<char>, at: usize) -> (found: Option<usize>)
    requires
        at <= chars@.len(),
    ensures
        match found {
            Some(k) => first_keyword(chars@.skip(at as int)) == Some(k as int),
            None => first_keyword(chars@.skip(at as int)) is None,
        },
{
    let ghost rest = chars@.skip(at as int);
    let mut k: usize = 0;
    while k < KEYWORD_COUNT
        invariant
            k <= KEYWORD_COUNT,
            at <= chars@.len(),
            rest == chars@.skip(at as int),
            first_keyword(rest) == first_keyword_from(rest, k as int),
        decreases KEYWORD_COUNT - k,
    {
        let entry = keyword_at(k);
        if begins_with(chars, at, entry.0) {
            return Some(k);
        }
        k = k + 1;
    }
    None
}

impl Encoder {
    /// Encodes `input` as an expression that evaluates to it. The expression
    /// is written in the emitted symbols, and in the core symbols alone
    /// exactly when the scan over `input` meets nothing but plain keywords
    /// and plain characters.
    pub fn encode_string(input: &str) -> (res: String)
        ensures
            res@ == encoding(input@),
            drawn_from(res@, emitted_symbols()),
            drawn_from(res@, core_symbols()) <==> scans_plain(input@),
    {
        proof {
            lemma_encoding_emitted(input@);
            lemma_encoding_core(input@);
        }
        if input.is_empty() {
            return "[]+[]".to_owned();
        }
        let chars = chars_of(input);
        let mut res = "[]".to_owned();
        let mut i: usize = 0;
        assert(chars@.skip(0) =~= chars@);
        while i < chars.len()
            invariant
                i <= chars@.len(),
                res@ + fragments(chars@.skip(i as int)) == "[]"@ + fragments(chars@),
            decreases chars@.len() - i,
        {
            let ghost before = res@;
            let ghost rest = chars@.skip(i as int);
            proof {
                lemma_first_keyword_from(rest, 0);
            }
            match scan_keywords(&chars, i) {
                Some(k) => {
                    let entry = keyword_at(k);
                    let code = Self::generate(&entry.1);
                    let consumed = entry.0.unicode_len();
                    res.append("+");
                    res.append(code.as_str());
                    proof {
                        lemma_keyword_lengths(k as int);
                        assert(rest.skip(consumed as int) =~= chars@.skip(i + consumed));
                        assert(res@ + fragments(rest.skip(consumed as int)) =~= before + fragments(
                            rest,
                        ));
                    }
                    i = i + consumed;
                },
                None => {
                    let code = Self::encode_char(chars[i]);
                    res.append("+");
                    res.append(code.as_str());
                    proof {
                        assert(rest.skip(1) =~= chars@.skip(i + 1));
                        assert(res@ + fragments(rest.skip(1)) =~= before + fragments(rest));
                    }
                    i = i + 1;
                },
            }
        }
        assert(chars@.skip(i as int) =~= Seq::<char>::empty());
        assert(res@ + Seq::<char>::empty() =~= res@);
        res
    }

    /// Turns an expression for a program's text into one that runs the
    /// program. The result is written in the emitted symbols if the
    /// expression is.
    pub fn wrap_execution(jsfuck_string_expr: &str) -> (res: String)
        ensures
            res@ == execution(jsfuck_string_expr@),
            drawn_from(res@, emitted_symbols()) <==> drawn_from(
                jsfuck_string_expr@,
                emitted_symbols(),
            ),
    {
        proof {
            lemma_execution_symbols(jsfuck_string_expr@);
        }
        let mut res = Self::get_function_constructor();
        res.append("(");
        res.append(jsfuck_string_expr);
        res.append(")()");
        res
    }

    /// The expression that an entry's strategy produces.
    fn generate(strategy: &GenStrategy) -> (res: String)
        ensures
            res@ == strategy_expr(*strategy),
    {
        match strategy {
            GenStrategy::Simple(text) => (*text).to_owned(),
            GenStrategy::Func(generator) => match generator {
                Generator::Constructor => Self::get_constructor_string(),
                Generator::Function => Self::get_word_function(),
                Generator::ToString => Self::get_tostring_string(),
                Generator::Infinity => Self::get_word_infinity(),
                Generator::Return => Self::get_word_return(),
            },
            GenStrategy::Chars(word) => Self::word_from_chars(word),
        }
    }

    /// The word `function`, spelled character by character.
    pub fn get_word_function() -> (res: String)
        ensures
            res@ == spelled_word("function"@),
    {
        Self::word_from_chars("function")
    }

    /// The word `return`, spelled character by character.
    pub fn get_word_return() -> (res: String)
        ensures
            res@ == spelled_word("return"@),
    {
        Self::word_from_chars("return")
    }

    /// The expression for the word `Infinity`: the text `1e1000`, read as a
    /// number and written out again.
    pub fn get_word_infinity() -> (res: String)
        ensures
            res@ == infinity_word(),
    {
        proof {
            reveal(infinity_word);
        }
        let one = Self::digit(1);
        let e = Self::char_from_true(3);
        let zero = Self::digit(0);
        let mut res = "(+(".to_owned();
        res.append(one.as_str());
        push_term(&mut res, e.as_str());
        push_term(&mut res, one.as_str());
        push_term(&mut res, zero.as_str());
        push_term(&mut res, zero.as_str());
        push_term(&mut res, zero.as_str());
        res.append(")+[])");
        res
    }

    /// A number below ten as the text of its digit.
    fn digit(value: u32) -> (res: String)
        ensures
            res@ == digit_expr(value as nat),
    {
        let mut res = "(".to_owned();
        res.append(Self::encode_index(value).as_str());
        res.append("+[])");
        res
    }

    /// Spells `word` character by character.
    pub fn word_from_chars(word: &str) -> (res: String)
        ensures
            res@ == spelled_word(word@),
    {
        let mut res = "([]".to_owned();
        for c in it: word.chars()
            invariant
                it.seq() == word@,
                res@ == "([]"@ + char_terms(word@.take(it.index() as int)),
        {
            let ghost before = word@.take(it.index() as int);
            let ghost now = word@.take(it.index() + 1);
            let code = Self::encode_char(c);
            res.append("+");
            res.append(code.as_str());
            proof {
                assert(now.drop_last() =~= before);
                assert(now.last() == c);
                assert(res@ =~= "([]"@ + char_terms(now));
            }
        }
        assert(word@.take(word@.len() as int) =~= word@);
        res.append(")");
        res
    }
    /// The expression that reaches the function constructor.
    pub fn get_function_constructor() -> (res: String)
        ensures
            res@ == function_constructor(),
    {
        proof {
            reveal(function_constructor);
        }
        let str_filter = Self::get_filter_string();
        let str_constructor = Self::get_constructor_string();
        let mut res = "[][".to_owned();
        res.append(str_filter.as_str());
        res.append("][");
        res.append(str_constructor.as_str());
        res.append("]");
        res
    }

    /// The word `constructor`, spelled from seed letters.
    pub fn get_constructor_string() -> (res: String)
        ensures
            res@ == constructor_word(),
    {
        proof {
            reveal(constructor_word);
        }
        let c = Self::char_from_object(5);
        let o = Self::char_from_object(1);
        let n = Self::char_from_undefined(1);
        let s = Self::char_from_false(3);
        let t = Self::char_from_true(0);
        let r = Self::char_from_true(1);
        let u = Self::char_from_undefined(0);
        let mut res = "([]+".to_owned();
        res.append(c.as_str());
        push_term(&mut res, o.as_str());
        push_term(&mut res, n.as_str());
        push_term(&mut res, s.as_str());
        push_term(&mut res, t.as_str());
        push_term(&mut res, r.as_str());
        push_term(&mut res, u.as_str());
        push_term(&mut res, c.as_str());
        push_term(&mut res, t.as_str());
        push_term(&mut res, o.as_str());
        push_term(&mut res, r.as_str());
        res.append(")");
        res
    }

    /// The word `filter`, spelled from seed letters.
    pub fn get_filter_string() -> (res: String)
        ensures
            res@ == filter_word(),
    {
        proof {
            reveal(filter_word);
        }
        let f = Self::char_from_false(0);
        let i = Self::char_from_undefined(5);
        let l = Self::char_from_false(2);
        let t = Self::char_from_true(0);
        let e = Self::char_from_true(3);
        let r = Self::char_from_true(1);
        let mut res = "([]+".to_owned();
        res.append(f.as_str());
        push_term(&mut res, i.as_str());
        push_term(&mut res, l.as_str());
        push_term(&mut res, t.as_str());
        push_term(&mut res, e.as_str());
        push_term(&mut res, r.as_str());
        res.append(")");
        res
    }

    /// The word `toString`, spelled from seed letters and two letters of the
    /// string constructor's source text.
    pub fn get_tostring_string() -> (res: String)
        ensures
            res@ == tostring_word(),
    {
        proof {
            reveal(tostring_word);
        }
        let t = Self::char_from_true(0);
        let o = Self::char_from_object(1);
        let big_s = Self::char_from_string_constructor(9);
        let r = Self::char_from_true(1);
        let i = Self::char_from_undefined(5);
        let n = Self::char_from_undefined(1);
        let g = Self::char_from_string_constructor(14);
        let mut res = "([]+".to_owned();
        res.append(t.as_str());
        push_term(&mut res, o.as_str());
        push_term(&mut res, big_s.as_str());
        push_term(&mut res, t.as_str());
        push_term(&mut res, r.as_str());
        push_term(&mut res, i.as_str());
        push_term(&mut res, n.as_str());
        push_term(&mut res, g.as_str());
        res.append(")");
        res
    }

    /// Writes `n` as an index: `+!![]` for one, the number otherwise.
    pub fn encode_index(n: u32) -> (res: String)
        ensures
            res@ == index_text(n as nat),
    {
        if n == 1 {
            return "+!![]".to_owned();
        }
        Self::encode_number(n)
    }

    /// Writes `n` as `+[]`, `!![]`, or a parenthesised sum of `n` ones.
    pub fn encode_number(n: u32) -> (res: String)
        ensures
            res@ == number_text(n as nat),
    {
        if n == 0 {
            return "+[]".to_owned();
        }
        if n == 1 {
            return "!![]".to_owned();
        }
        let mut res = "(".to_owned();
        res.append("!![]");
        let mut written: u32 = 1;
        while written < n
            invariant
                1 <= written <= n,
                res@ == "("@ + sum_of_ones(written as nat),
            decreases n - written,
        {
            res.append("+!![]");
            written = written + 1;
        }
        res.append(")");
        res
    }

    /// The character at `idx` of the text `false`.
    pub fn char_from_false(idx: u32) -> (res: String)
        ensures
            res@ == from_seed(SeedSource::False, idx as nat),
    {
        let mut res = "(![]+[])".to_owned();
        push_index(&mut res, idx);
        res
    }

    /// The character at `idx` of the text `true`.
    pub fn char_from_true(idx: u32) -> (res: String)
        ensures
            res@ == from_seed(SeedSource::True, idx as nat),
    {
        let mut res = "(!![]+[])".to_owned();
        push_index(&mut res, idx);
        res
    }

    /// The character at `idx` of the text `undefined`.
    pub fn char_from_undefined(idx: u32) -> (res: String)
        ensures
            res@ == from_seed(SeedSource::Undefined, idx as nat),
    {
        let mut res = "([][[]]+[])".to_owned();
        push_index(&mut res, idx);
        res
    }

    /// The character at `idx` of the text `NaN`.
    pub fn char_from_nan(idx: u32) -> (res: String)
        ensures
            res@ == from_seed(SeedSource::NaN, idx as nat),
    {
        let mut res = "(+[![]]+[])".to_owned();
        push_index(&mut res, idx);
        res
    }

    /// The character at `idx` of the text `[object Object]`.
    pub fn char_from_object(idx: u32) -> (res: String)
        ensures
            res@ == from_seed(SeedSource::Object, idx as nat),
    {
        let mut res = "([]+{})".to_owned();
        push_index(&mut res, idx);
        res
    }

    /// The character at `idx` of the string constructor's source text.
    pub fn char_from_string_constructor(idx: u32) -> (res: String)
        ensures
            res@ == from_builtin(Builtin::StringType, idx as nat),
    {
        proof {
            reveal(builtin_expr);
        }
        let constr = Self::get_constructor_string();
        let mut res = "(([]+[])[".to_owned();
        res.append(constr.as_str());
        res.append("]+[])");
        push_index(&mut res, idx);
        res
    }

    /// The character at `idx` of the number constructor's source text.
    pub fn char_from_number_constructor(idx: u32) -> (res: String)
        ensures
            res@ == from_builtin(Builtin::NumberType, idx as nat),
    {
        proof {
            reveal(builtin_expr);
        }
        let constr = Self::get_constructor_string();
        let mut res = "((+[])[".to_owned();
        res.append(constr.as_str());
        res.append("]+[])");
        push_index(&mut res, idx);
        res
    }

    /// The character at `idx` of the array constructor's source text.
    pub fn char_from_array_constructor(idx: u32) -> (res: String)
        ensures
            res@ == from_builtin(Builtin::ArrayType, idx as nat),
    {
        proof {
            reveal(builtin_expr);
        }
        let constr = Self::get_constructor_string();
        let mut res = "([][".to_owned();
        res.append(constr.as_str());
        res.append("]+[])");
        push_index(&mut res, idx);
        res
    }

    /// The character at `idx` of the boolean constructor's source text.
    pub fn char_from_boolean_constructor(idx: u32) -> (res: String)
        ensures
            res@ == from_builtin(Builtin::BooleanType, idx as nat),
    {
        proof {
            reveal(builtin_expr);
        }
        let constr = Self::get_constructor_string();
        let mut res = "((!![])[".to_owned();
        res.append(constr.as_str());
        res.append("]+[])");
        push_index(&mut res, idx);
        res
    }

    /// The first character of `val` written in base 36.
    pub fn char_from_radix36(val: u32) -> (res: String)
        ensures
            res@ == from_radix36(val as nat),
    {
        proof {
            reveal(from_radix36);
        }
        let to_string_str = Self::get_tostring_string();
        let num_expr = if val == 1 {
            "+!![]".to_owned()
        } else {
            Self::encode_number(val)
        };
        let radix = Self::encode_number(36);
        let mut res = "((".to_owned();
        res.append(num_expr.as_str());
        res.append(")[");
        res.append(to_string_str.as_str());
        res.append("](");
        res.append(radix.as_str());
        res.append(")[+[]])");
        res
    }
    /// The character at `idx` of the function constructor's source text.
    fn char_from_function_constructor(idx: u32) -> (res: String)
        ensures
            res@ == from_builtin(Builtin::FunctionType, idx as nat),
    {
        proof {
            reveal(builtin_expr);
        }
        let func = Self::get_function_constructor();
        let mut res = "(".to_owned();
        res.append(func.as_str());
        res.append("+[])");
        push_index(&mut res, idx);
        res
    }

    /// The period, read out of the text of a fraction.
    fn char_from_fraction() -> (res: String)
        ensures
            res@ == period_expr(),
    {
        proof {
            reveal(italics_word);
            reveal(slash_expr);
            reveal(return_prefix);
            reveal(period_expr);
        }
        let i = Self::char_from_undefined(5);
        let t = Self::char_from_true(0);
        let a = Self::char_from_false(1);
        let l = Self::char_from_false(2);
        let c = Self::char_from_object(5);
        let s = Self::char_from_false(3);
        let mut italics = "([]+[]+".to_owned();
        italics.append(i.as_str());
        push_term(&mut italics, t.as_str());
        push_term(&mut italics, a.as_str());
        push_term(&mut italics, l.as_str());
        push_term(&mut italics, i.as_str());
        push_term(&mut italics, c.as_str());
        push_term(&mut italics, s.as_str());
        italics.append(")");
        let mut get_slash = "(([]+[])[".to_owned();
        get_slash.append(italics.as_str());
        get_slash.append("]()+[])");
        push_index(&mut get_slash, 4);
        let mut code_str = Self::return_program();
        push_term(&mut code_str, Self::encode_number(1).as_str());
        push_term(&mut code_str, get_slash.as_str());
        push_term(&mut code_str, Self::encode_number(2).as_str());
        code_str.append(")");
        let mut res = "(".to_owned();
        res.append(Self::get_function_constructor().as_str());
        res.append("(");
        res.append(code_str.as_str());
        res.append(")()+[])");
        push_index(&mut res, 1);
        res
    }

    /// The opening of a program handed to the function constructor: the text
    /// `return `, spelled from seed letters.
    fn return_program() -> (res: String)
        ensures
            res@ == return_prefix(),
    {
        proof {
            reveal(return_prefix);
        }
        let r = Self::char_from_true(1);
        let e = Self::char_from_true(3);
        let t = Self::char_from_true(0);
        let u = Self::char_from_undefined(0);
        let n = Self::char_from_undefined(1);
        let space = Self::char_from_object(7);
        let mut res = "([]+".to_owned();
        res.append(r.as_str());
        push_term(&mut res, e.as_str());
        push_term(&mut res, t.as_str());
        push_term(&mut res, u.as_str());
        push_term(&mut res, r.as_str());
        push_term(&mut res, n.as_str());
        push_term(&mut res, space.as_str());
        res
    }

    /// Encodes one character.
    pub fn encode_char(c: char) -> (res: String)
        ensures
            res@ == char_expr(c),
        decreases
            (if derivation(c) is Escape {
                2nat
            } else {
                0nat
            }),
    {
        match c {
            'a' => Self::char_from_false(1),
            'b' => Self::char_from_object(2),
            'c' => Self::char_from_object(5),
            'd' => Self::char_from_undefined(2),
            'e' => Self::char_from_true(3),
            'f' => Self::char_from_false(0),
            'g' => Self::char_from_string_constructor(14),
            'h' => Self::char_from_radix36(17),
            'i' => Self::char_from_undefined(5),
            'j' => Self::char_from_object(3),
            'k' => Self::char_from_radix36(20),
            'l' => Self::char_from_false(2),
            'm' => Self::char_from_number_constructor(11),
            'n' => Self::char_from_undefined(1),
            'o' => Self::char_from_object(1),
            'p' => Self::char_from_radix36(25),
            'q' => Self::char_from_radix36(26),
            'r' => Self::char_from_true(1),
            's' => Self::char_from_false(3),
            't' => Self::char_from_true(0),
            'u' => Self::char_from_undefined(0),
            'v' => Self::char_from_radix36(31),
            'w' => Self::char_from_radix36(32),
            'x' => Self::char_from_radix36(33),
            'y' => Self::char_from_array_constructor(13),
            'z' => Self::char_from_radix36(35),
            'A' => Self::char_from_array_constructor(9),
            'B' => Self::char_from_boolean_constructor(9),
            'F' => Self::char_from_function_constructor(9),
            'N' => Self::char_from_nan(0),
            'O' => Self::char_from_object(8),
            'S' => Self::char_from_string_constructor(9),
            '0'..='9' => Self::digit(c as u32 - '0' as u32),
            ' ' => Self::char_from_object(7),
            '[' => Self::char_from_object(0),
            ']' => Self::char_from_object(14),
            '(' => Self::char_from_function_constructor(17),
            ')' => Self::char_from_function_constructor(18),
            '{' => Self::char_from_function_constructor(20),
            '.' => Self::char_from_fraction(),
            _ => Self::char_from_unescape(c),
        }
    }

    /// Encodes a character as the percent escape of its low byte, decoded at
    /// run time.
    pub fn char_from_unescape(c: char) -> (res: String)
        ensures
            res@ == escape_expr(c),
        decreases 1nat,
    {
        proof {
            reveal(unescape_program);
            reveal(escape_program);
            reveal(unescape_function);
            reveal(escape_function);
            reveal(percent_expr);
            reveal(escape_expr);
        }
        let u = Self::char_from_undefined(0);
        let n = Self::char_from_undefined(1);
        let e = Self::char_from_true(3);
        let s = Self::char_from_false(3);
        let c_letter = Self::char_from_object(5);
        let a = Self::char_from_false(1);
        let p = Self::char_from_radix36(25);

        let mut unescape_code = Self::return_program();
        push_term(&mut unescape_code, u.as_str());
        push_term(&mut unescape_code, n.as_str());
        push_term(&mut unescape_code, e.as_str());
        push_term(&mut unescape_code, s.as_str());
        push_term(&mut unescape_code, c_letter.as_str());
        push_term(&mut unescape_code, a.as_str());
        push_term(&mut unescape_code, p.as_str());
        push_term(&mut unescape_code, e.as_str());
        unescape_code.append(")");
        let mut unescape_func = Self::get_function_constructor();
        unescape_func.append("(");
        unescape_func.append(unescape_code.as_str());
        unescape_func.append(")()");

        let mut escape_code = Self::return_program();
        push_term(&mut escape_code, e.as_str());
        push_term(&mut escape_code, s.as_str());
        push_term(&mut escape_code, c_letter.as_str());
        push_term(&mut escape_code, a.as_str());
        push_term(&mut escape_code, p.as_str());
        push_term(&mut escape_code, e.as_str());
        escape_code.append(")");
        let mut escape_func = Self::get_function_constructor();
        escape_func.append("(");
        escape_func.append(escape_code.as_str());
        escape_func.append(")()");

        let mut percent = "(".to_owned();
        percent.append(escape_func.as_str());
        percent.append("(");
        percent.append(Self::char_from_object(0).as_str());
        percent.append(")+[])[+[]]");

        let byte: u32 = c as u32 % 256;
        let high: u8 = (byte / 16) as u8;
        let low: u8 = (byte % 16) as u8;
        proof {
            lemma_hex_digit_derived(high as nat);
            lemma_hex_digit_derived(low as nat);
        }
        let mut hex_parts = percent;
        hex_parts.append("+");
        hex_parts.append(Self::encode_char(hex_digit_char(high)).as_str());
        hex_parts.append("+");
        hex_parts.append(Self::encode_char(hex_digit_char(low)).as_str());

        let mut res = unescape_func;
        res.append("(");
        res.append(hex_parts.as_str());
        res.append(")");
        res
    }
}

/// `res` is a result of the generator function that stands behind
/// `generator`.
pub open spec fn generated_by(generator: Generator, res: String) -> bool {
    match generator {
        Generator::Constructor => call_ensures(Encoder::get_constructor_string, (), res),
        Generator::Function => call_ensures(Encoder::get_word_function, (), res),
        Generator::ToString => call_ensures(Encoder::get_tostring_string, (), res),
        Generator::Infinity => call_ensures(Encoder::get_word_infinity, (), res),
        Generator::Return => call_ensures(Encoder::get_word_return, (), res),
    }
}

/// A keyword generator gives the same text every time it is called.
pub proof fn lemma_generator_repeatable(generator: Generator, first: String, second: String)
    requires
        generated_by(generator, first),
        generated_by(generator, second),
    ensures
        first@ == second@,
{
}

/// Encoding a character gives the same text every time.
pub proof fn lemma_encode_char_repeatable(c: char, first: String, second: String)
    requires
        call_ensures(Encoder::encode_char, (c,), first),
        call_ensures(Encoder::encode_char, (c,), second),
    ensures
        first@ == second@,
{
}

/// Spelling a word gives the same text every time.
pub proof fn lemma_word_from_chars_repeatable(word: &str, first: String, second: String)
    requires
        call_ensures(Encoder::word_from_chars, (word,), first),
        call_ensures(Encoder::word_from_chars, (word,), second),
    ensures
        first@ == second@,
{
}

/// Encoding a text gives the same text every time.
pub proof fn lemma_encode_string_repeatable(input: &str, first: String, second: String)
    requires
        call_ensures(Encoder::encode_string, (input,), first),
        call_ensures(Encoder::encode_string, (input,), second),
    ensures
        first@ == second@,
{
}

/// Wrapping an expression for execution gives the same text every time.
pub proof fn lemma_wrap_execution_repeatable(expr: &str, first: String, second: String)
    requires
        call_ensures(Encoder::wrap_execution, (expr,), first),
        call_ensures(Encoder::wrap_execution, (expr,), second),
    ensures
        first@ == second@,
{
}

} // verus!
