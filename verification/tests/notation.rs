use darkness::notation::{is_readable, read, Reading, Span, MAX_DIGITS, MAX_NESTING};

fn shown(reading: &Reading) -> String {
    format!("{:?}", reading)
}

#[test]
fn reads_a_whole_number() {
    assert_eq!(shown(&read("42")), "Form(Integer(42))");
}

#[test]
fn reads_a_negative_number() {
    assert_eq!(shown(&read("-3")), "Form(Integer(-3))");
}

#[test]
fn reads_a_number_with_a_plus_sign() {
    assert_eq!(shown(&read("+7")), "Form(Integer(7))");
}

#[test]
fn reads_a_real_as_its_bit_pattern() {
    let expected = format!("Form(Real({}))", 1.5f64.to_bits());
    assert_eq!(shown(&read("1.5")), expected);
    let negative = format!("Form(Real({}))", (-0.25f64).to_bits());
    assert_eq!(shown(&read("-0.25")), negative);
}

#[test]
fn reads_a_keyword_without_its_colon() {
    assert_eq!(shown(&read(":vertices")), "Form(Keyword(\"vertices\"))");
}

#[test]
fn reads_a_vector_in_the_order_written() {
    assert_eq!(
        shown(&read("[3 1 :a 2]")),
        "Form(Vector([Integer(3), Integer(1), Keyword(\"a\"), Integer(2)]))"
    );
}

#[test]
fn reads_a_map_in_key_order() {
    assert_eq!(
        shown(&read("{:b 2 :a 1}")),
        "Form(Mapping([(Keyword(\"a\"), Integer(1)), (Keyword(\"b\"), Integer(2))]))"
    );
}

#[test]
fn reads_nested_vectors() {
    assert_eq!(
        shown(&read("[[1] [2 3] []]")),
        "Form(Vector([Vector([Integer(1)]), Vector([Integer(2), Integer(3)]), Vector([])]))"
    );
}

#[test]
fn symbols_booleans_and_nil_are_other() {
    assert_eq!(shown(&read("[true nil abc - ]")), "Form(Vector([Other, Other, Other, Other]))");
}

#[test]
fn reads_only_the_first_form() {
    assert_eq!(shown(&read("1 2 3")), "Form(Integer(1))");
}

#[test]
fn commas_and_line_ends_separate_forms() {
    assert_eq!(
        shown(&read(" [1,2\r\n3\t4] ")),
        "Form(Vector([Integer(1), Integer(2), Integer(3), Integer(4)]))"
    );
}

#[test]
fn blank_text_holds_nothing() {
    assert!(matches!(read(""), Reading::Nothing));
    assert!(matches!(read(" \n\t, "), Reading::Nothing));
}

#[test]
fn an_unclosed_vector_is_malformed() {
    match read("[1 2") {
        Reading::Malformed(span) => assert_eq!(span, Span { lo: 0, hi: 4 }),
        other => panic!("unexpected: {:?}", other),
    }
}

#[test]
fn a_map_with_a_key_and_no_value_is_malformed() {
    match read("{:a}") {
        Reading::Malformed(span) => assert_eq!(span, Span { lo: 0, hi: 4 }),
        other => panic!("unexpected: {:?}", other),
    }
}

#[test]
fn characters_outside_the_alphabet_are_unreadable() {
    for text in ["\"text\"", "(1 2)", "; note", "#{1}", "\\a", "1 @", "caf\u{e9}", "[1 2]\u{0}"] {
        assert!(!is_readable(text), "{:?}", text);
        assert!(matches!(read(text), Reading::Unreadable), "{:?}", text);
    }
}

#[test]
fn misplaced_brackets_are_unreadable() {
    for text in ["]", "}", "[1}", "{:a 1]", "[1]]", "[[1] }"] {
        assert!(!is_readable(text), "{:?}", text);
        assert!(matches!(read(text), Reading::Unreadable), "{:?}", text);
    }
}

#[test]
fn a_sign_before_a_bracket_or_a_comma_is_unreadable() {
    for text in ["[-]", "[+]", "-,", "-\r", "{:a -}", "+[", "-{"] {
        assert!(!is_readable(text), "{:?}", text);
        assert!(matches!(read(text), Reading::Unreadable), "{:?}", text);
    }
}

#[test]
fn a_sign_may_end_the_text_or_stand_before_a_blank() {
    for text in ["-", "+", "[- 1]", "[+\n1]", "[-\t1]", "-a", "-.5", "+-"] {
        assert!(is_readable(text), "{:?}", text);
        assert!(!matches!(read(text), Reading::Unreadable), "{:?}", text);
    }
}

#[test]
fn digit_runs_are_bounded() {
    assert_eq!(MAX_DIGITS, 18);
    let longest = "123456789012345678";
    assert!(is_readable(longest));
    assert_eq!(shown(&read(longest)), "Form(Integer(123456789012345678))");
    assert_eq!(shown(&read("-999999999999999999")), "Form(Integer(-999999999999999999))");
    let too_long = "1234567890123456789";
    assert!(!is_readable(too_long));
    assert!(matches!(read(too_long), Reading::Unreadable));
    assert!(is_readable("123456789012345678.123456789012345678"));
    assert!(is_readable("123456789012345678 123456789012345678"));
}

#[test]
fn nesting_is_bounded() {
    assert_eq!(MAX_NESTING, 32);
    let deepest = format!("{}{}", "[".repeat(32), "]".repeat(32));
    assert!(is_readable(&deepest));
    assert!(matches!(read(&deepest), Reading::Form(_)));
    let too_deep = format!("{}{}", "[".repeat(33), "]".repeat(33));
    assert!(!is_readable(&too_deep));
    let many_in_a_row = "[] ".repeat(100);
    assert!(is_readable(&many_in_a_row));
}

#[test]
fn open_brackets_at_the_end_are_readable_and_malformed() {
    assert!(is_readable("{:a [1 2"));
    assert!(matches!(read("{:a [1 2"), Reading::Malformed(_)));
}

#[test]
fn every_short_text_that_passes_the_screen_is_read() {
    let alphabet = ['1', '-', '+', '.', 'a', ':', ' ', ',', '\r', '[', ']', '{', '}'];
    let mut texts: Vec<String> = vec![String::new()];
    let mut from = 0;
    for _ in 0..5 {
        let until = texts.len();
        for i in from..until {
            for c in alphabet {
                let mut longer = texts[i].clone();
                longer.push(c);
                texts.push(longer);
            }
        }
        from = until;
    }
    let mut passed = 0usize;
    for text in &texts {
        let outcome = read(text);
        assert_eq!(is_readable(text), !matches!(outcome, Reading::Unreadable), "{:?}", text);
        if is_readable(text) {
            passed += 1;
        }
    }
    assert_eq!(texts.len(), 1 + 13 + 169 + 2197 + 28561 + 371293);
    assert!(passed > 100000);
}

#[test]
fn every_short_text_of_names_and_numbers_that_passes_the_screen_is_read() {
    let alphabet = [
        '0', '9', 'e', 'Z', '_', '.', ':', '+', '-', '\n', '\t', ' ', ',', '\r', '[', ']', '{',
        '}',
    ];
    let mut texts: Vec<String> = vec![String::new()];
    let mut from = 0;
    for _ in 0..4 {
        let until = texts.len();
        for i in from..until {
            for c in alphabet {
                let mut longer = texts[i].clone();
                longer.push(c);
                texts.push(longer);
            }
        }
        from = until;
    }
    assert_eq!(texts.len(), 1 + 18 + 324 + 5832 + 104976);
    for text in &texts {
        let outcome = read(text);
        assert_eq!(is_readable(text), !matches!(outcome, Reading::Unreadable), "{:?}", text);
    }
}

#[test]
fn long_nested_texts_that_pass_the_screen_are_read() {
    let tokens = [
        "1", "-2", "+3", "4.5", "-.5", ".", "..", "-", "+", "a", "-a", "+b", ":k", ":", "true",
        "nil", "1e5", "123456789012345678", "-123456789012345678", "0.000000000000000001", "_",
        "a:b", "1.", "-1.", "+1.", ":a-b", "x.y",
    ];
    let blanks = [" ", "\n", "\t", ",", "\r\n", " , "];
    let mut state: u64 = 0x2545_f491_4f6c_dd1d;
    let mut next = |bound: usize| {
        state ^= state << 13;
        state ^= state >> 7;
        state ^= state << 17;
        (state % bound as u64) as usize
    };
    let mut read_some = 0;
    for _ in 0..4000 {
        let mut text = String::new();
        let mut open: Vec<char> = Vec::new();
        for _ in 0..next(60) {
            match next(6) {
                0 if open.len() < 32 => {
                    let bracket = if next(2) == 0 { '[' } else { '{' };
                    open.push(bracket);
                    text.push(bracket);
                }
                1 => {
                    if let Some(bracket) = open.pop() {
                        text.push(if bracket == '[' { ']' } else { '}' });
                    }
                }
                2 | 3 => text.push_str(blanks[next(blanks.len())]),
                _ => {
                    text.push_str(tokens[next(tokens.len())]);
                    text.push_str(blanks[next(blanks.len())]);
                }
            }
        }
        let outcome = read(&text);
        assert_eq!(is_readable(&text), !matches!(outcome, Reading::Unreadable), "{:?}", text);
        if matches!(outcome, Reading::Form(_) | Reading::Malformed(_)) {
            read_some += 1;
        }
    }
    assert!(read_some > 2000);
}
