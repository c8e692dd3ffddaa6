use zed_apex::strings::{byte_len, first_piece, join, join3, split_once};
use zed_apex::text::find;

#[test]
fn find_gives_the_first_occurrence() {
    assert_eq!(find(b"a : b : c", b" : "), Some(1));
    assert_eq!(find(b" : ", b" : "), Some(0));
    assert_eq!(find(b"ab : ", b" : "), Some(2));
    assert_eq!(find(b"aaab", b"aab"), Some(1));
}

#[test]
fn find_gives_none_without_an_occurrence() {
    assert_eq!(find(b"a :b: c", b" : "), None);
    assert_eq!(find(b" :", b" : "), None);
    assert_eq!(find(b"", b"("), None);
    assert_eq!(find(b"ab", b"abc"), None);
}

#[test]
fn find_of_an_empty_pattern_is_the_start() {
    assert_eq!(find(b"abc", b""), Some(0));
    assert_eq!(find(b"", b""), Some(0));
}

#[test]
fn split_once_parts_at_the_first_occurrence() {
    assert_eq!(split_once("a : b : c", " : "), Some(("a", "b : c")));
    assert_eq!(split_once(" : ", " : "), Some(("", "")));
    assert_eq!(split_once("name - space", " - "), Some(("name", "space")));
    assert_eq!(split_once("abc", ""), Some(("", "abc")));
}

#[test]
fn split_once_gives_none_without_an_occurrence() {
    assert_eq!(split_once("a: b", " : "), None);
    assert_eq!(split_once("", " : "), None);
}

#[test]
fn split_once_agrees_with_the_standard_library() {
    let texts = [
        "foo(x: Integer) : String",
        "foo(x : Integer) : String",
        "Account - Schema",
        " : ",
        " :  : ",
        "",
        "gr\u{fc}\u{df}e : \u{c4}rger",
        "\u{4e2d}\u{6587} - \u{1f600}(",
        "a\u{20ac}(b",
    ];
    let patterns = [" : ", " - ", "(", "\u{fc}", "\u{20ac}", "\u{1f600}", "\u{df}e", ""];
    for text in texts {
        for pattern in patterns {
            assert_eq!(split_once(text, pattern), text.split_once(pattern));
            assert_eq!(Some(first_piece(text, pattern)), text.split(pattern).next());
        }
    }
}

#[test]
fn first_piece_stops_at_the_pattern() {
    assert_eq!(first_piece("foo(x: Integer)", "("), "foo");
    assert_eq!(first_piece("foo((x)", "("), "foo");
    assert_eq!(first_piece("(x)", "("), "");
}

#[test]
fn first_piece_without_an_occurrence_is_the_text() {
    assert_eq!(first_piece("foo", "("), "foo");
    assert_eq!(first_piece("", "("), "");
}

#[test]
fn byte_len_counts_bytes() {
    assert_eq!(byte_len(""), 0);
    assert_eq!(byte_len("foo"), 3);
    assert_eq!(byte_len("gr\u{fc}\u{df}e"), 7);
    assert_eq!(byte_len("\u{1f600}"), 4);
}

#[test]
fn join_keeps_the_order() {
    assert_eq!(join("new ", "Account()"), "new Account()");
    assert_eq!(join("", ""), "");
    assert_eq!(join3("String", " ", "foo()"), "String foo()");
    assert_eq!(join3(" (", "Schema", ")"), " (Schema)");
}

#[test]
fn split_once_agrees_with_the_standard_library_on_short_texts() {
    let alphabet = [" ", ":", "-", "(", "a", "\u{e9}", "\u{20ac}"];
    let patterns = [" : ", " - ", "(", ":", "a ", "\u{e9}", "\u{20ac}(", ""];
    let mut texts = vec![String::new()];
    let mut start = 0;
    for _ in 0..5 {
        let end = texts.len();
        for index in start..end {
            for letter in alphabet {
                let mut longer = texts[index].clone();
                longer.push_str(letter);
                texts.push(longer);
            }
        }
        start = end;
    }
    assert_eq!(texts.len(), 1 + 7 + 49 + 343 + 2401 + 16807);
    for text in &texts {
        for pattern in patterns {
            assert_eq!(split_once(text, pattern), text.split_once(pattern));
            assert_eq!(find(text.as_bytes(), pattern.as_bytes()), text.find(pattern));
        }
    }
}
