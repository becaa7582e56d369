use lilac::text::{ascii_uppercase, chars_of, decimal, join, pad_left, push_decimal, replace, to_upper};

#[test]
fn decimal_writes_numbers() {
    assert_eq!(decimal(0), "0");
    assert_eq!(decimal(7), "7");
    assert_eq!(decimal(10), "10");
    assert_eq!(decimal(1234567890), "1234567890");
    assert_eq!(decimal(u128::MAX), "340282366920938463463374607431768211455");
    let mut out = String::from("n=");
    push_decimal(&mut out, 405);
    assert_eq!(out, "n=405");
}

#[test]
fn pad_left_fills_to_the_width() {
    assert_eq!(pad_left("7", 2, '0'), "07");
    assert_eq!(pad_left("42", 2, '0'), "42");
    assert_eq!(pad_left("123", 2, '0'), "123");
    assert_eq!(pad_left("", 3, ' '), "   ");
    assert_eq!(pad_left("é", 3, '*'), "**é");
    assert_eq!(pad_left("abc", 0, '*'), "abc");
}

#[test]
fn join_puts_the_separator_between() {
    let parts = |v: &[&str]| v.iter().map(|s| s.to_string()).collect::<Vec<String>>();
    assert_eq!(join(&parts(&[]), ", "), "");
    assert_eq!(join(&parts(&["a"]), ", "), "a");
    assert_eq!(join(&parts(&["a", "b", "c"]), ", "), "a, b, c");
    assert_eq!(join(&parts(&["", ""]), "-"), "-");
}

#[test]
fn replace_puts_in_every_match_from_the_left() {
    assert_eq!(replace("%F.%E", "%F", "song"), "song.%E");
    assert_eq!(replace("a%Fb%F", "%F", ""), "ab");
    assert_eq!(replace("aaa", "aa", "b"), "ba");
    assert_eq!(replace("abc", "x", "y"), "abc");
    assert_eq!(replace("", "x", "y"), "");
    assert_eq!(replace("%%F", "%F", "%F"), "%%F");
    assert_eq!(replace("héllo wörld", "ö", "oe"), "héllo woerld");
    assert_eq!(replace("abc", "abcd", "x"), "abc");
    assert_eq!(replace("abc", "abc", "x"), "x");
}

#[test]
fn replace_agrees_with_std_on_patterns_that_are_not_empty() {
    let texts = ["", "%", "%F", "x%F%F%E", "aaaa", "abababa", "%T by %A on %a"];
    let froms = ["%F", "%", "aa", "aba", "a", "%T"];
    let tos = ["", "Z", "%F", "aa"];
    for t in texts {
        for f in froms {
            for to in tos {
                assert_eq!(replace(t, f, to), t.replace(f, to));
            }
        }
    }
}

#[test]
fn replace_leaves_text_alone_for_an_empty_pattern() {
    assert_eq!(replace("abc", "", "x"), "abc");
}

#[test]
fn uppercase_touches_english_letters_only() {
    assert_eq!(ascii_uppercase("title"), "TITLE");
    assert_eq!(ascii_uppercase("TrackNumber"), "TRACKNUMBER");
    assert_eq!(ascii_uppercase("a-z_0 9{`"), "A-Z_0 9{`");
    assert_eq!(ascii_uppercase("straße é"), "STRAßE é");
    assert_eq!(to_upper('a'), 'A');
    assert_eq!(to_upper('z'), 'Z');
    assert_eq!(to_upper('A'), 'A');
    assert_eq!(to_upper('`'), '`');
    assert_eq!(to_upper('{'), '{');
    for c in ["abcXYZ", "ünïcode", ""] {
        assert_eq!(ascii_uppercase(c), c.to_ascii_uppercase());
    }
}

#[test]
fn chars_of_gives_the_characters() {
    assert_eq!(chars_of("héé"), vec!['h', 'é', 'é']);
    assert_eq!(chars_of(""), Vec::<char>::new());
}
