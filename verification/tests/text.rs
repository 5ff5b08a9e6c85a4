use mail_fetch::text::{chars_of, find_in, matches_at, split_spans, str_eq, to_decimal, Span};

fn chars(text: &str) -> Vec<char> {
    text.chars().collect()
}

fn pieces(text: &str, pattern: &str) -> Vec<String> {
    let text = chars(text);
    split_spans(&text, &chars(pattern))
        .iter()
        .map(|span: &Span| text[span.start..span.end].iter().collect())
        .collect()
}

#[test]
fn characters_are_taken_in_order() {
    assert_eq!(chars_of("a✓b"), vec!['a', '✓', 'b']);
    assert_eq!(chars_of(""), Vec::<char>::new());
}

#[test]
fn strings_are_compared_by_their_characters() {
    assert!(str_eq("", ""));
    assert!(str_eq("Date", "Date"));
    assert!(!str_eq("Date", "date"));
    assert!(!str_eq("Date", "Dat"));
    assert!(!str_eq("Dat", "Date"));
    assert!(str_eq("déjà", "déjà"));
    assert!(!str_eq("déjà", "deja"));
}

#[test]
fn pattern_is_found_where_it_first_stands() {
    let text = chars("abcabc");
    assert_eq!(find_in(&text, &chars("bc"), 0), Some(1));
    assert_eq!(find_in(&text, &chars("bc"), 1), Some(1));
    assert_eq!(find_in(&text, &chars("bc"), 2), Some(4));
    assert_eq!(find_in(&text, &chars("bc"), 5), None);
    assert_eq!(find_in(&text, &chars("bc"), 100), None);
    assert_eq!(find_in(&text, &chars("abcabcd"), 0), None);
    assert_eq!(find_in(&text, &chars(""), 0), Some(0));
    assert_eq!(find_in(&text, &chars(""), 6), Some(6));
    assert_eq!(find_in(&text, &chars(""), 7), None);
    assert_eq!(find_in(&chars("aab"), &chars("ab"), 0), Some(1));
    assert!(matches_at(&text, &chars("abc"), 3));
    assert!(!matches_at(&text, &chars("abc"), 4));
    assert!(!matches_at(&text, &chars("abc"), 2));
    assert!(matches_at(&text, &chars(""), 6));
    assert!(!matches_at(&text, &chars(""), 7));
}

#[test]
fn text_is_cut_at_each_occurrence() {
    assert_eq!(pieces("a--b--c", "--"), vec!["a", "b", "c"]);
    assert_eq!(pieces("--a--", "--"), vec!["", "a", ""]);
    assert_eq!(pieces("abc", "--"), vec!["abc"]);
    assert_eq!(pieces("", "--"), vec![""]);
    assert_eq!(pieces("--", "--"), vec!["", ""]);
    assert_eq!(pieces("aaa", "aa"), vec!["", "a"]);
    assert_eq!(pieces("a---b", "--"), vec!["a", "-b"]);
    assert_eq!(pieces("abc", ""), vec!["abc"]);
    assert_eq!(pieces("x\r\n\r\ny", "\r\n"), vec!["x", "", "y"]);
}

#[test]
fn cutting_agrees_with_the_standard_library() {
    let texts = ["", "a", "ab", "aXbXc", "XX", "aXXb", "XaX", "XYXY", "aXYbXYc", "XYXaXY", "aaaa"];
    let patterns = ["X", "XY", "a", "aa", "b"];
    for text in texts {
        for pattern in patterns {
            let expected: Vec<String> = text.split(pattern).map(|piece| piece.to_string()).collect();
            assert_eq!(pieces(text, pattern), expected);
        }
    }
}

#[test]
fn numbers_are_written_in_decimal() {
    assert_eq!(to_decimal(0), "0");
    assert_eq!(to_decimal(7), "7");
    assert_eq!(to_decimal(10), "10");
    assert_eq!(to_decimal(500), "500");
    assert_eq!(to_decimal(1234567890), "1234567890");
    assert_eq!(to_decimal(u32::MAX), "4294967295");
}

#[test]
fn pieces_joined_around_the_pattern_give_the_text_back() {
    let texts = ["", "a", "aXbXc", "XX", "aXXb", "XaX", "XYXY", "aXYbXYc", "aaaa", "déjà✓vu✓"];
    let patterns = ["X", "XY", "a", "aa", "✓", ""];
    for text in texts {
        for pattern in patterns {
            let parts = pieces(text, pattern);
            assert!(!parts.is_empty());
            assert_eq!(parts.join(pattern), text);
            if !pattern.is_empty() {
                for part in &parts {
                    assert!(!part.contains(pattern));
                }
            }
        }
    }
}

#[test]
fn cutting_gives_back_the_pieces_that_were_joined() {
    let joined = ["", "\r\nfirst\r\n", "\r\nsecond {x}\r\n", "--"].join("--marker");
    assert_eq!(
        pieces(&joined, "--marker"),
        vec!["", "\r\nfirst\r\n", "\r\nsecond {x}\r\n", "--"]
    );
}

#[test]
fn text_is_cut_by_characters_not_bytes() {
    assert_eq!(pieces("é✓é", "✓"), vec!["é", "é"]);
    let text = chars("é✓é");
    assert_eq!(find_in(&text, &chars("✓"), 0), Some(1));
    assert_eq!(find_in(&text, &chars("é"), 1), Some(2));
}
