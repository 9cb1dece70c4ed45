use jsfuck_encoder::keyword::{keyword_at, GenStrategy, Generator, KEYWORD_COUNT};
use jsfuck_encoder::Encoder;

const KEYWORDS: [&str; 49] = [
        "constructor", "instanceof", "undefined", "arguments", "function", "toString",
        "Infinity", "continue", "debugger", "default", "extends", "finally", "return",
        "switch", "typeof", "delete", "import", "export", "object", "false", "const",
        "class", "break", "catch", "throw", "while", "super", "yield", "async", "await",
        "true", "null", "this", "else", "case", "void", "with", "enum", "from", "NaN",
        "new", "var", "let", "for", "try", "if", "in", "do", "of",
];

fn is_proper_prefix(short: &str, long: &str) -> bool {
    short.len() < long.len() && long.starts_with(short)
}

#[test]
fn table_holds_the_keywords_in_order() {
    assert_eq!(KEYWORD_COUNT, 49);
    for (k, expected) in KEYWORDS.iter().enumerate() {
        let (text, _) = keyword_at(k);
        assert_eq!(text, *expected);
    }
}

#[test]
fn table_is_ordered_longest_first() {
    for k in 1..KEYWORD_COUNT {
        assert!(keyword_at(k - 1).0.len() >= keyword_at(k).0.len());
    }
    assert_eq!(keyword_at(0).0.len(), 11);
    assert_eq!(keyword_at(KEYWORD_COUNT - 1).0.len(), 2);
}

#[test]
fn a_keyword_that_begins_another_stands_below_it() {
    let mut pairs = Vec::new();
    for short in 0..KEYWORD_COUNT {
        for long in 0..KEYWORD_COUNT {
            if is_proper_prefix(keyword_at(short).0, keyword_at(long).0) {
                assert!(long < short);
                pairs.push((keyword_at(short).0, keyword_at(long).0));
            }
        }
    }
    assert_eq!(pairs, vec![("const", "constructor"), ("in", "instanceof")]);
}

#[test]
fn no_keyword_stands_twice() {
    for i in 0..KEYWORD_COUNT {
        for j in 0..i {
            assert_ne!(keyword_at(i).0, keyword_at(j).0);
        }
    }
}

#[test]
fn strategies_of_the_table() {
    for k in 0..KEYWORD_COUNT {
        let (text, strategy) = keyword_at(k);
        match strategy {
            GenStrategy::Simple(expr) => {
                let expected = match text {
                    "undefined" => "([][[]]+[])",
                    "false" => "(![]+[])",
                    "true" => "(!![]+[])",
                    "NaN" => "(+[![]]+[])",
                    other => panic!("{} has no fixed expression", other),
                };
                assert_eq!(expr, expected);
            }
            GenStrategy::Func(generator) => {
                let expected = match text {
                    "constructor" => Generator::Constructor,
                    "function" => Generator::Function,
                    "toString" => Generator::ToString,
                    "Infinity" => Generator::Infinity,
                    "return" => Generator::Return,
                    other => panic!("{} has no generator", other),
                };
                assert_eq!(generator, expected);
            }
            GenStrategy::Chars(word) => assert_eq!(word, text),
        }
    }
}

#[test]
fn every_keyword_is_encoded_by_its_strategy() {
    for k in 0..KEYWORD_COUNT {
        let (text, strategy) = keyword_at(k);
        let expr = match strategy {
            GenStrategy::Simple(expr) => expr.to_string(),
            GenStrategy::Func(Generator::Constructor) => Encoder::get_constructor_string(),
            GenStrategy::Func(Generator::Function) => Encoder::get_word_function(),
            GenStrategy::Func(Generator::ToString) => Encoder::get_tostring_string(),
            GenStrategy::Func(Generator::Infinity) => Encoder::get_word_infinity(),
            GenStrategy::Func(Generator::Return) => Encoder::get_word_return(),
            GenStrategy::Chars(word) => Encoder::word_from_chars(word),
        };
        assert_eq!(Encoder::encode_string(text), format!("[]+{}", expr));
    }
}

#[test]
fn instanceof_is_not_cut_down_to_in() {
    let text = Encoder::encode_string("instanceof");
    assert_eq!(text, format!("[]+{}", Encoder::word_from_chars("instanceof")));
    assert!(!text.starts_with(&format!("[]+{}+", Encoder::word_from_chars("in"))));
    assert_eq!(
        text,
        "[]+([]+([][[]]+[])[(!![]+!![]+!![]+!![]+!![])]+([][[]]+[])[+!![]]+(![]+[])[(!![]+!![]+!\
        ![])]+(!![]+[])[+[]]+(![]+[])[+!![]]+([][[]]+[])[+!![]]+([]+{})[(!![]+!![]+!![]+!![]+!!\
        [])]+(!![]+[])[(!![]+!![]+!![])]+([]+{})[+!![]]+(![]+[])[+[]])"
    );
}

#[test]
fn constructor_is_not_cut_down_to_const() {
    let text = Encoder::encode_string("constructor");
    assert_eq!(text, format!("[]+{}", Encoder::get_constructor_string()));
    assert_ne!(
        text,
        format!("[]+{}+{}", Encoder::word_from_chars("const"), Encoder::word_from_chars("ructor"))
    );
}

#[test]
fn the_shorter_keyword_is_taken_where_the_longer_does_not_fit() {
    assert_eq!(
        Encoder::encode_string("const"),
        format!("[]+{}", Encoder::word_from_chars("const"))
    );
    assert_eq!(
        Encoder::encode_string("instance"),
        format!(
            "[]+{}+{}+{}+{}+{}+{}+{}",
            Encoder::word_from_chars("in"),
            Encoder::encode_char('s'),
            Encoder::encode_char('t'),
            Encoder::encode_char('a'),
            Encoder::encode_char('n'),
            Encoder::encode_char('c'),
            Encoder::encode_char('e')
        )
    );
    assert_eq!(Encoder::encode_string("in"), "[]+([]+([][[]]+[])[(!![]+!![]+!![]+!![]+!![])]+([][[]]+[])[+!![]])");
}

#[test]
fn keywords_are_matched_with_their_case() {
    assert_eq!(
        Encoder::encode_string("nan"),
        format!(
            "[]+{}+{}+{}",
            Encoder::encode_char('n'),
            Encoder::encode_char('a'),
            Encoder::encode_char('n')
        )
    );
    assert_eq!(Encoder::encode_string("NaN"), "[]+(+[![]]+[])");
    assert_ne!(
        Encoder::encode_string("tostring"),
        format!("[]+{}", Encoder::get_tostring_string())
    );
}

#[test]
fn word_function_is_spelled() {
    assert_eq!(Encoder::get_word_function(), Encoder::word_from_chars("function"));
    assert_eq!(
        Encoder::get_word_function(),
        "([]+(![]+[])[+[]]+([][[]]+[])[+[]]+([][[]]+[])[+!![]]+([]+{})[(!![]+!![]+!![]+!![]+!![]\
        )]+(!![]+[])[+[]]+([][[]]+[])[(!![]+!![]+!![]+!![]+!![])]+([]+{})[+!![]]+([][[]]+[])[+!\
        ![]])"
    );
}

#[test]
fn word_return_is_spelled() {
    assert_eq!(Encoder::get_word_return(), Encoder::word_from_chars("return"));
    assert_eq!(
        Encoder::get_word_return(),
        "([]+(!![]+[])[+!![]]+(!![]+[])[(!![]+!![]+!![])]+(!![]+[])[+[]]+([][[]]+[])[+[]]+(!![]+\
        [])[+!![]]+([][[]]+[])[+!![]])"
    );
}

#[test]
fn word_infinity_has_its_own_expression() {
    assert_eq!(
        Encoder::get_word_infinity(),
        "(+((+!![]+[])+(!![]+[])[(!![]+!![]+!![])]+(+!![]+[])+(+[]+[])+(+[]+[])+(+[]+[]))+[])"
    );
    assert_eq!(
        Encoder::get_word_infinity(),
        format!(
            "(+({}+{}+{}+{}+{}+{})+[])",
            Encoder::encode_char('1'),
            Encoder::encode_char('e'),
            Encoder::encode_char('1'),
            Encoder::encode_char('0'),
            Encoder::encode_char('0'),
            Encoder::encode_char('0')
        )
    );
    assert_ne!(Encoder::get_word_infinity(), Encoder::word_from_chars("Infinity"));
}

#[test]
fn spelling_a_word_joins_its_characters() {
    assert_eq!(Encoder::word_from_chars(""), "([])");
    assert_eq!(Encoder::word_from_chars("a"), "([]+(![]+[])[+!![]])");
    assert_eq!(
        Encoder::word_from_chars("let"),
        format!(
            "([]+{}+{}+{})",
            Encoder::encode_char('l'),
            Encoder::encode_char('e'),
            Encoder::encode_char('t')
        )
    );
    assert_eq!(Encoder::word_from_chars("let"), "([]+(![]+[])[(!![]+!![])]+(!![]+[])[(!![]+!![]+!![])]+(!![]+[])[+[]])");
}

#[test]
fn spelling_a_word_does_not_look_for_keywords() {
    assert_eq!(
        Encoder::word_from_chars("true"),
        format!(
            "([]+{}+{}+{}+{})",
            Encoder::encode_char('t'),
            Encoder::encode_char('r'),
            Encoder::encode_char('u'),
            Encoder::encode_char('e')
        )
    );
}

#[test]
fn generators_give_the_same_text_every_time() {
    assert_eq!(Encoder::get_constructor_string(), Encoder::get_constructor_string());
    assert_eq!(Encoder::get_word_function(), Encoder::get_word_function());
    assert_eq!(Encoder::get_word_return(), Encoder::get_word_return());
    assert_eq!(Encoder::get_tostring_string(), Encoder::get_tostring_string());
    assert_eq!(Encoder::get_word_infinity(), Encoder::get_word_infinity());
    assert_eq!(Encoder::word_from_chars("while"), Encoder::word_from_chars("while"));
}
