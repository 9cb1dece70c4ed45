use jsfuck_encoder::Encoder;

#[test]
fn seed_character_a() {
    assert_eq!(Encoder::encode_char('a'), "(![]+[])[+!![]]");
}

#[test]
fn seed_character_b() {
    assert_eq!(Encoder::encode_char('b'), "([]+{})[(!![]+!![])]");
}

#[test]
fn seed_character_e() {
    assert_eq!(Encoder::encode_char('e'), "(!![]+[])[(!![]+!![]+!![])]");
}

#[test]
fn seed_character_capital_n() {
    assert_eq!(Encoder::encode_char('N'), "(+[![]]+[])[+[]]");
}

#[test]
fn seed_character_capital_o() {
    assert_eq!(Encoder::encode_char('O'), "([]+{})[(!![]+!![]+!![]+!![]+!![]+!![]+!![]+!![])]");
}

#[test]
fn seed_character_space() {
    assert_eq!(Encoder::encode_char(' '), "([]+{})[(!![]+!![]+!![]+!![]+!![]+!![]+!![])]");
}

#[test]
fn seed_character_opening_bracket() {
    assert_eq!(Encoder::encode_char('['), "([]+{})[+[]]");
}

#[test]
fn seed_character_closing_bracket() {
    assert_eq!(Encoder::encode_char(']'), "([]+{})[(!![]+!![]+!![]+!![]+!![]+!![]+!![]+!![]+!![]+!![]+!![]+!![]+!![]+!![])]");
}

#[test]
fn constructor_character_g() {
    assert_eq!(
        Encoder::encode_char('g'),
        "(([]+[])[([]+([]+{})[(!![]+!![]+!![]+!![]+!![])]+([]+{})[+!![]]+([][[]]+[])[+!![]]+(![]\
        +[])[(!![]+!![]+!![])]+(!![]+[])[+[]]+(!![]+[])[+!![]]+([][[]]+[])[+[]]+([]+{})[(!![]+!\
        ![]+!![]+!![]+!![])]+(!![]+[])[+[]]+([]+{})[+!![]]+(!![]+[])[+!![]])]+[])[(!![]+!![]+!!\
        []+!![]+!![]+!![]+!![]+!![]+!![]+!![]+!![]+!![]+!![]+!![])]"
    );
}

#[test]
fn constructor_character_m() {
    assert_eq!(
        Encoder::encode_char('m'),
        "((+[])[([]+([]+{})[(!![]+!![]+!![]+!![]+!![])]+([]+{})[+!![]]+([][[]]+[])[+!![]]+(![]+[\
        ])[(!![]+!![]+!![])]+(!![]+[])[+[]]+(!![]+[])[+!![]]+([][[]]+[])[+[]]+([]+{})[(!![]+!![\
        ]+!![]+!![]+!![])]+(!![]+[])[+[]]+([]+{})[+!![]]+(!![]+[])[+!![]])]+[])[(!![]+!![]+!![]\
        +!![]+!![]+!![]+!![]+!![]+!![]+!![]+!![])]"
    );
}

#[test]
fn constructor_character_y() {
    assert_eq!(
        Encoder::encode_char('y'),
        "([][([]+([]+{})[(!![]+!![]+!![]+!![]+!![])]+([]+{})[+!![]]+([][[]]+[])[+!![]]+(![]+[])[\
        (!![]+!![]+!![])]+(!![]+[])[+[]]+(!![]+[])[+!![]]+([][[]]+[])[+[]]+([]+{})[(!![]+!![]+!\
        ![]+!![]+!![])]+(!![]+[])[+[]]+([]+{})[+!![]]+(!![]+[])[+!![]])]+[])[(!![]+!![]+!![]+!!\
        []+!![]+!![]+!![]+!![]+!![]+!![]+!![]+!![]+!![])]"
    );
}

#[test]
fn constructor_character_capital_a() {
    assert_eq!(
        Encoder::encode_char('A'),
        "([][([]+([]+{})[(!![]+!![]+!![]+!![]+!![])]+([]+{})[+!![]]+([][[]]+[])[+!![]]+(![]+[])[\
        (!![]+!![]+!![])]+(!![]+[])[+[]]+(!![]+[])[+!![]]+([][[]]+[])[+[]]+([]+{})[(!![]+!![]+!\
        ![]+!![]+!![])]+(!![]+[])[+[]]+([]+{})[+!![]]+(!![]+[])[+!![]])]+[])[(!![]+!![]+!![]+!!\
        []+!![]+!![]+!![]+!![]+!![])]"
    );
}

#[test]
fn constructor_character_capital_b() {
    assert_eq!(
        Encoder::encode_char('B'),
        "((!![])[([]+([]+{})[(!![]+!![]+!![]+!![]+!![])]+([]+{})[+!![]]+([][[]]+[])[+!![]]+(![]+\
        [])[(!![]+!![]+!![])]+(!![]+[])[+[]]+(!![]+[])[+!![]]+([][[]]+[])[+[]]+([]+{})[(!![]+!!\
        []+!![]+!![]+!![])]+(!![]+[])[+[]]+([]+{})[+!![]]+(!![]+[])[+!![]])]+[])[(!![]+!![]+!![\
        ]+!![]+!![]+!![]+!![]+!![]+!![])]"
    );
}

#[test]
fn constructor_character_capital_s() {
    assert_eq!(
        Encoder::encode_char('S'),
        "(([]+[])[([]+([]+{})[(!![]+!![]+!![]+!![]+!![])]+([]+{})[+!![]]+([][[]]+[])[+!![]]+(![]\
        +[])[(!![]+!![]+!![])]+(!![]+[])[+[]]+(!![]+[])[+!![]]+([][[]]+[])[+[]]+([]+{})[(!![]+!\
        ![]+!![]+!![]+!![])]+(!![]+[])[+[]]+([]+{})[+!![]]+(!![]+[])[+!![]])]+[])[(!![]+!![]+!!\
        []+!![]+!![]+!![]+!![]+!![]+!![])]"
    );
}

#[test]
fn function_source_character_capital_f() {
    assert_eq!(
        Encoder::encode_char('F'),
        "([][([]+(![]+[])[+[]]+([][[]]+[])[(!![]+!![]+!![]+!![]+!![])]+(![]+[])[(!![]+!![])]+(!!\
        []+[])[+[]]+(!![]+[])[(!![]+!![]+!![])]+(!![]+[])[+!![]])][([]+([]+{})[(!![]+!![]+!![]+\
        !![]+!![])]+([]+{})[+!![]]+([][[]]+[])[+!![]]+(![]+[])[(!![]+!![]+!![])]+(!![]+[])[+[]]\
        +(!![]+[])[+!![]]+([][[]]+[])[+[]]+([]+{})[(!![]+!![]+!![]+!![]+!![])]+(!![]+[])[+[]]+(\
        []+{})[+!![]]+(!![]+[])[+!![]])]+[])[(!![]+!![]+!![]+!![]+!![]+!![]+!![]+!![]+!![])]"
    );
}

#[test]
fn function_source_character_opening_parenthesis() {
    assert_eq!(
        Encoder::encode_char('('),
        "([][([]+(![]+[])[+[]]+([][[]]+[])[(!![]+!![]+!![]+!![]+!![])]+(![]+[])[(!![]+!![])]+(!!\
        []+[])[+[]]+(!![]+[])[(!![]+!![]+!![])]+(!![]+[])[+!![]])][([]+([]+{})[(!![]+!![]+!![]+\
        !![]+!![])]+([]+{})[+!![]]+([][[]]+[])[+!![]]+(![]+[])[(!![]+!![]+!![])]+(!![]+[])[+[]]\
        +(!![]+[])[+!![]]+([][[]]+[])[+[]]+([]+{})[(!![]+!![]+!![]+!![]+!![])]+(!![]+[])[+[]]+(\
        []+{})[+!![]]+(!![]+[])[+!![]])]+[])[(!![]+!![]+!![]+!![]+!![]+!![]+!![]+!![]+!![]+!![]\
        +!![]+!![]+!![]+!![]+!![]+!![]+!![])]"
    );
}

#[test]
fn function_source_character_closing_parenthesis() {
    assert_eq!(
        Encoder::encode_char(')'),
        "([][([]+(![]+[])[+[]]+([][[]]+[])[(!![]+!![]+!![]+!![]+!![])]+(![]+[])[(!![]+!![])]+(!!\
        []+[])[+[]]+(!![]+[])[(!![]+!![]+!![])]+(!![]+[])[+!![]])][([]+([]+{})[(!![]+!![]+!![]+\
        !![]+!![])]+([]+{})[+!![]]+([][[]]+[])[+!![]]+(![]+[])[(!![]+!![]+!![])]+(!![]+[])[+[]]\
        +(!![]+[])[+!![]]+([][[]]+[])[+[]]+([]+{})[(!![]+!![]+!![]+!![]+!![])]+(!![]+[])[+[]]+(\
        []+{})[+!![]]+(!![]+[])[+!![]])]+[])[(!![]+!![]+!![]+!![]+!![]+!![]+!![]+!![]+!![]+!![]\
        +!![]+!![]+!![]+!![]+!![]+!![]+!![]+!![])]"
    );
}

#[test]
fn function_source_character_opening_brace() {
    assert_eq!(
        Encoder::encode_char('{'),
        "([][([]+(![]+[])[+[]]+([][[]]+[])[(!![]+!![]+!![]+!![]+!![])]+(![]+[])[(!![]+!![])]+(!!\
        []+[])[+[]]+(!![]+[])[(!![]+!![]+!![])]+(!![]+[])[+!![]])][([]+([]+{})[(!![]+!![]+!![]+\
        !![]+!![])]+([]+{})[+!![]]+([][[]]+[])[+!![]]+(![]+[])[(!![]+!![]+!![])]+(!![]+[])[+[]]\
        +(!![]+[])[+!![]]+([][[]]+[])[+[]]+([]+{})[(!![]+!![]+!![]+!![]+!![])]+(!![]+[])[+[]]+(\
        []+{})[+!![]]+(!![]+[])[+!![]])]+[])[(!![]+!![]+!![]+!![]+!![]+!![]+!![]+!![]+!![]+!![]\
        +!![]+!![]+!![]+!![]+!![]+!![]+!![]+!![]+!![]+!![])]"
    );
}

#[test]
fn base_thirty_six_characters() {
    let values = [('h', 17), ('k', 20), ('p', 25), ('q', 26), ('v', 31), ('w', 32), ('x', 33), ('z', 35)];
    for (c, value) in values {
        assert_eq!(Encoder::encode_char(c), Encoder::char_from_radix36(value));
    }
    assert_eq!(Encoder::encode_char('h').len(), 1022);
    assert_eq!(Encoder::encode_char('z').len(), 1112);
}

#[test]
fn decimal_digits() {
    assert_eq!(Encoder::encode_char('0'), "(+[]+[])");
    assert_eq!(Encoder::encode_char('1'), "(+!![]+[])");
    assert_eq!(Encoder::encode_char('2'), "((!![]+!![])+[])");
    assert_eq!(Encoder::encode_char('9'), format!("({}+[])", Encoder::encode_number(9)));
}

#[test]
fn period_is_read_out_of_a_fraction() {
    assert_eq!(
        Encoder::encode_char('.'),
        "([][([]+(![]+[])[+[]]+([][[]]+[])[(!![]+!![]+!![]+!![]+!![])]+(![]+[])[(!![]+!![])]+(!!\
        []+[])[+[]]+(!![]+[])[(!![]+!![]+!![])]+(!![]+[])[+!![]])][([]+([]+{})[(!![]+!![]+!![]+\
        !![]+!![])]+([]+{})[+!![]]+([][[]]+[])[+!![]]+(![]+[])[(!![]+!![]+!![])]+(!![]+[])[+[]]\
        +(!![]+[])[+!![]]+([][[]]+[])[+[]]+([]+{})[(!![]+!![]+!![]+!![]+!![])]+(!![]+[])[+[]]+(\
        []+{})[+!![]]+(!![]+[])[+!![]])](([]+(!![]+[])[+!![]]+(!![]+[])[(!![]+!![]+!![])]+(!![]\
        +[])[+[]]+([][[]]+[])[+[]]+(!![]+[])[+!![]]+([][[]]+[])[+!![]]+([]+{})[(!![]+!![]+!![]+\
        !![]+!![]+!![]+!![])]+!![]+(([]+[])[([]+[]+([][[]]+[])[(!![]+!![]+!![]+!![]+!![])]+(!![\
        ]+[])[+[]]+(![]+[])[+!![]]+(![]+[])[(!![]+!![])]+([][[]]+[])[(!![]+!![]+!![]+!![]+!![])\
        ]+([]+{})[(!![]+!![]+!![]+!![]+!![])]+(![]+[])[(!![]+!![]+!![])])]()+[])[(!![]+!![]+!![\
        ]+!![])]+(!![]+!![])))()+[])[+!![]]"
    );
}

#[test]
fn every_seed_letter_matches_its_seed() {
    let cases = [
        ('a', Encoder::char_from_false(1)),
        ('b', Encoder::char_from_object(2)),
        ('c', Encoder::char_from_object(5)),
        ('d', Encoder::char_from_undefined(2)),
        ('e', Encoder::char_from_true(3)),
        ('f', Encoder::char_from_false(0)),
        ('i', Encoder::char_from_undefined(5)),
        ('j', Encoder::char_from_object(3)),
        ('l', Encoder::char_from_false(2)),
        ('n', Encoder::char_from_undefined(1)),
        ('o', Encoder::char_from_object(1)),
        ('r', Encoder::char_from_true(1)),
        ('s', Encoder::char_from_false(3)),
        ('t', Encoder::char_from_true(0)),
        ('u', Encoder::char_from_undefined(0)),
        ('N', Encoder::char_from_nan(0)),
        ('O', Encoder::char_from_object(8)),
        (' ', Encoder::char_from_object(7)),
        ('[', Encoder::char_from_object(0)),
        (']', Encoder::char_from_object(14)),
    ];
    for (c, expected) in cases {
        assert_eq!(Encoder::encode_char(c), expected);
    }
}

#[test]
fn seed_indices_point_at_their_characters() {
    let seeds = [
        ("(![]+[])", "false"),
        ("(!![]+[])", "true"),
        ("([][[]]+[])", "undefined"),
        ("(+[![]]+[])", "NaN"),
        ("([]+{})", "[object Object]"),
    ];
    for c in "abcdefijlnorstuNO []".chars() {
        let text = Encoder::encode_char(c);
        let (seed, word) = seeds.iter().find(|(seed, _)| text.starts_with(seed)).unwrap();
        let index = &text[seed.len() + 1..text.len() - 1];
        let position = (0..20).find(|n| Encoder::encode_index(*n) == index).unwrap();
        assert_eq!(word.chars().nth(position as usize), Some(c));
    }
}

#[test]
fn escape_of_an_exclamation_mark() {
    let text = Encoder::char_from_unescape('!');
    assert_eq!(Encoder::encode_char('!'), text);
    assert_eq!(
        text,
        "[][([]+(![]+[])[+[]]+([][[]]+[])[(!![]+!![]+!![]+!![]+!![])]+(![]+[])[(!![]+!![])]+(!![\
        ]+[])[+[]]+(!![]+[])[(!![]+!![]+!![])]+(!![]+[])[+!![]])][([]+([]+{})[(!![]+!![]+!![]+!\
        ![]+!![])]+([]+{})[+!![]]+([][[]]+[])[+!![]]+(![]+[])[(!![]+!![]+!![])]+(!![]+[])[+[]]+\
        (!![]+[])[+!![]]+([][[]]+[])[+[]]+([]+{})[(!![]+!![]+!![]+!![]+!![])]+(!![]+[])[+[]]+([\
        ]+{})[+!![]]+(!![]+[])[+!![]])](([]+(!![]+[])[+!![]]+(!![]+[])[(!![]+!![]+!![])]+(!![]+\
        [])[+[]]+([][[]]+[])[+[]]+(!![]+[])[+!![]]+([][[]]+[])[+!![]]+([]+{})[(!![]+!![]+!![]+!\
        ![]+!![]+!![]+!![])]+([][[]]+[])[+[]]+([][[]]+[])[+!![]]+(!![]+[])[(!![]+!![]+!![])]+(!\
        []+[])[(!![]+!![]+!![])]+([]+{})[(!![]+!![]+!![]+!![]+!![])]+(![]+[])[+!![]]+(((!![]+!!\
        []+!![]+!![]+!![]+!![]+!![]+!![]+!![]+!![]+!![]+!![]+!![]+!![]+!![]+!![]+!![]+!![]+!![]\
        +!![]+!![]+!![]+!![]+!![]+!![]))[([]+(!![]+[])[+[]]+([]+{})[+!![]]+(([]+[])[([]+([]+{})\
        [(!![]+!![]+!![]+!![]+!![])]+([]+{})[+!![]]+([][[]]+[])[+!![]]+(![]+[])[(!![]+!![]+!![]\
        )]+(!![]+[])[+[]]+(!![]+[])[+!![]]+([][[]]+[])[+[]]+([]+{})[(!![]+!![]+!![]+!![]+!![])]\
        +(!![]+[])[+[]]+([]+{})[+!![]]+(!![]+[])[+!![]])]+[])[(!![]+!![]+!![]+!![]+!![]+!![]+!!\
        []+!![]+!![])]+(!![]+[])[+[]]+(!![]+[])[+!![]]+([][[]]+[])[(!![]+!![]+!![]+!![]+!![])]+\
        ([][[]]+[])[+!![]]+(([]+[])[([]+([]+{})[(!![]+!![]+!![]+!![]+!![])]+([]+{})[+!![]]+([][\
        []]+[])[+!![]]+(![]+[])[(!![]+!![]+!![])]+(!![]+[])[+[]]+(!![]+[])[+!![]]+([][[]]+[])[+\
        []]+([]+{})[(!![]+!![]+!![]+!![]+!![])]+(!![]+[])[+[]]+([]+{})[+!![]]+(!![]+[])[+!![]])\
        ]+[])[(!![]+!![]+!![]+!![]+!![]+!![]+!![]+!![]+!![]+!![]+!![]+!![]+!![]+!![])])]((!![]+\
        !![]+!![]+!![]+!![]+!![]+!![]+!![]+!![]+!![]+!![]+!![]+!![]+!![]+!![]+!![]+!![]+!![]+!!\
        []+!![]+!![]+!![]+!![]+!![]+!![]+!![]+!![]+!![]+!![]+!![]+!![]+!![]+!![]+!![]+!![]+!![]\
        ))[+[]])+(!![]+[])[(!![]+!![]+!![])]))()(([][([]+(![]+[])[+[]]+([][[]]+[])[(!![]+!![]+!\
        ![]+!![]+!![])]+(![]+[])[(!![]+!![])]+(!![]+[])[+[]]+(!![]+[])[(!![]+!![]+!![])]+(!![]+\
        [])[+!![]])][([]+([]+{})[(!![]+!![]+!![]+!![]+!![])]+([]+{})[+!![]]+([][[]]+[])[+!![]]+\
        (![]+[])[(!![]+!![]+!![])]+(!![]+[])[+[]]+(!![]+[])[+!![]]+([][[]]+[])[+[]]+([]+{})[(!!\
        []+!![]+!![]+!![]+!![])]+(!![]+[])[+[]]+([]+{})[+!![]]+(!![]+[])[+!![]])](([]+(!![]+[])\
        [+!![]]+(!![]+[])[(!![]+!![]+!![])]+(!![]+[])[+[]]+([][[]]+[])[+[]]+(!![]+[])[+!![]]+([\
        ][[]]+[])[+!![]]+([]+{})[(!![]+!![]+!![]+!![]+!![]+!![]+!![])]+(!![]+[])[(!![]+!![]+!![\
        ])]+(![]+[])[(!![]+!![]+!![])]+([]+{})[(!![]+!![]+!![]+!![]+!![])]+(![]+[])[+!![]]+(((!\
        ![]+!![]+!![]+!![]+!![]+!![]+!![]+!![]+!![]+!![]+!![]+!![]+!![]+!![]+!![]+!![]+!![]+!![\
        ]+!![]+!![]+!![]+!![]+!![]+!![]+!![]))[([]+(!![]+[])[+[]]+([]+{})[+!![]]+(([]+[])[([]+(\
        []+{})[(!![]+!![]+!![]+!![]+!![])]+([]+{})[+!![]]+([][[]]+[])[+!![]]+(![]+[])[(!![]+!![\
        ]+!![])]+(!![]+[])[+[]]+(!![]+[])[+!![]]+([][[]]+[])[+[]]+([]+{})[(!![]+!![]+!![]+!![]+\
        !![])]+(!![]+[])[+[]]+([]+{})[+!![]]+(!![]+[])[+!![]])]+[])[(!![]+!![]+!![]+!![]+!![]+!\
        ![]+!![]+!![]+!![])]+(!![]+[])[+[]]+(!![]+[])[+!![]]+([][[]]+[])[(!![]+!![]+!![]+!![]+!\
        ![])]+([][[]]+[])[+!![]]+(([]+[])[([]+([]+{})[(!![]+!![]+!![]+!![]+!![])]+([]+{})[+!![]\
        ]+([][[]]+[])[+!![]]+(![]+[])[(!![]+!![]+!![])]+(!![]+[])[+[]]+(!![]+[])[+!![]]+([][[]]\
        +[])[+[]]+([]+{})[(!![]+!![]+!![]+!![]+!![])]+(!![]+[])[+[]]+([]+{})[+!![]]+(!![]+[])[+\
        !![]])]+[])[(!![]+!![]+!![]+!![]+!![]+!![]+!![]+!![]+!![]+!![]+!![]+!![]+!![]+!![])])](\
        (!![]+!![]+!![]+!![]+!![]+!![]+!![]+!![]+!![]+!![]+!![]+!![]+!![]+!![]+!![]+!![]+!![]+!\
        ![]+!![]+!![]+!![]+!![]+!![]+!![]+!![]+!![]+!![]+!![]+!![]+!![]+!![]+!![]+!![]+!![]+!![\
        ]+!![]))[+[]])+(!![]+[])[(!![]+!![]+!![])]))()(([]+{})[+[]])+[])[+[]]+((!![]+!![])+[])+\
        (+!![]+[]))"
    );
}

#[test]
fn escape_ends_with_the_two_hex_digits() {
    let two = Encoder::encode_char('2');
    let one = Encoder::encode_char('1');
    assert!(Encoder::char_from_unescape('!').ends_with(&format!("+{}+{})", two, one)));
    let five = Encoder::encode_char('5');
    let a = Encoder::encode_char('a');
    assert!(Encoder::char_from_unescape('Z').ends_with(&format!("+{}+{})", five, a)));
    let zero = Encoder::encode_char('0');
    assert!(Encoder::char_from_unescape('\n').ends_with(&format!("+{}+{})", zero, a)));
    let f = Encoder::encode_char('f');
    assert!(Encoder::char_from_unescape('\u{ff}').ends_with(&format!("+{}+{})", f, f)));
}

#[test]
fn escape_of_a_latin_letter_with_an_accent() {
    let text = Encoder::encode_char('\u{e9}');
    let e = Encoder::encode_char('e');
    let nine = Encoder::encode_char('9');
    assert!(text.ends_with(&format!("+{}+{})", e, nine)));
    assert_eq!(text.len(), 3630);
    assert_eq!(text, Encoder::char_from_unescape('\u{e9}'));
}

#[test]
fn escape_keeps_only_the_low_byte() {
    assert_eq!(Encoder::char_from_unescape('\u{121}'), Encoder::char_from_unescape('!'));
    assert_eq!(Encoder::encode_char('\u{1f600}'), Encoder::char_from_unescape('\u{0}'));
    assert_ne!(Encoder::encode_char('\u{e9}'), Encoder::encode_char('\u{e8}'));
}

#[test]
fn escape_of_a_character_with_a_rule_of_its_own() {
    let text = Encoder::char_from_unescape('a');
    let six = Encoder::encode_char('6');
    let one = Encoder::encode_char('1');
    assert!(text.ends_with(&format!("+{}+{})", six, one)));
    assert_ne!(text, Encoder::encode_char('a'));
}

#[test]
fn escape_is_built_from_the_two_run_time_functions() {
    let function = Encoder::get_function_constructor();
    let text = Encoder::char_from_unescape('#');
    assert!(text.starts_with(&format!("{}(([]+", function)));
    assert_eq!(text.matches(function.as_str()).count(), 2);
    assert_eq!(text.matches(Encoder::char_from_radix36(25).as_str()).count(), 2);
}

#[test]
fn uppercase_letters_without_a_rule_are_escaped() {
    for c in "CDEGHIJKLMPQRTUVWXYZ".chars() {
        assert_eq!(Encoder::encode_char(c), Encoder::char_from_unescape(c));
    }
}

#[test]
fn encoding_a_character_twice_gives_the_same_text() {
    for c in "az09AF.!(){}[] \u{e9}\u{4e2d}".chars() {
        assert_eq!(Encoder::encode_char(c), Encoder::encode_char(c));
    }
}
