use frapi::states::main_page::generics::{clone_headers, CountedText, Header};
use frapi::text::{
    chars_of, contains, contains_lowercase, count_rows, find_char, matches_at, parse_usize,
    usize_to_string,
};

fn chars(text: &str) -> Vec<char> {
    text.chars().collect()
}

#[test]
fn chars_of_gives_every_character() {
    assert_eq!(chars_of(""), Vec::<char>::new());
    assert_eq!(chars_of("a\u{e9}\u{1F600}z"), vec!['a', '\u{e9}', '\u{1F600}', 'z']);
}

#[test]
fn rows_are_one_more_than_line_feeds() {
    assert_eq!(count_rows(""), 1);
    assert_eq!(count_rows("one line"), 1);
    assert_eq!(count_rows("a\nb"), 2);
    assert_eq!(count_rows("\n\n"), 3);
    assert_eq!(count_rows("a\r\nb\n"), 3);
}

#[test]
fn counted_text_counts_when_set() {
    let mut text = CountedText::default();
    assert_eq!(text.message, "");
    assert_eq!(text.rows, 0);
    text.set("{\n  \"a\": 1\n}".to_string());
    assert_eq!(text.message, "{\n  \"a\": 1\n}");
    assert_eq!(text.rows, 3);
    text.message = "x".to_string();
    assert_eq!(text.rows, 3);
    text.update_rows();
    assert_eq!(text.rows, 1);
}

#[test]
fn header_default_is_empty_and_headers_are_copied() {
    let header = Header::default();
    assert_eq!(header.key, "");
    assert_eq!(header.value, "");
    let headers = vec![
        Header { key: "a".to_string(), value: "1".to_string() },
        Header { key: "b".to_string(), value: "2".to_string() },
    ];
    let copy = clone_headers(&headers);
    assert_eq!(copy.len(), 2);
    assert_eq!(copy[0].key, "a");
    assert_eq!(copy[1].value, "2");
}

#[test]
fn find_char_gives_the_first_or_the_end() {
    let text = chars("a=b=c");
    assert_eq!(find_char(&text, '=', 0, 5), 1);
    assert_eq!(find_char(&text, '=', 2, 5), 3);
    assert_eq!(find_char(&text, '=', 4, 5), 5);
    assert_eq!(find_char(&text, '=', 0, 1), 1);
    assert_eq!(find_char(&text, '?', 0, 5), 5);
    assert_eq!(find_char(&text, '=', 3, 3), 3);
}

#[test]
fn matches_at_compares_in_place() {
    let text = chars("hello world");
    assert!(matches_at(&text, &chars("hello"), 0));
    assert!(matches_at(&text, &chars("world"), 6));
    assert!(!matches_at(&text, &chars("world"), 5));
    assert!(!matches_at(&text, &chars("world"), 7));
    assert!(matches_at(&text, &chars(""), 11));
    assert!(!matches_at(&text, &chars(""), 12));
    assert!(!matches_at(&text, &chars("hello world!"), 0));
}

#[test]
fn contains_finds_a_needle_anywhere() {
    assert!(contains(&chars("hello world"), &chars("lo w")));
    assert!(contains(&chars("hello world"), &chars("hello world")));
    assert!(contains(&chars("hello world"), &chars("d")));
    assert!(contains(&chars("hello world"), &chars("")));
    assert!(contains(&chars(""), &chars("")));
    assert!(!contains(&chars("hello world"), &chars("worlds")));
    assert!(!contains(&chars("aab"), &chars("aba")));
    assert!(!contains(&chars(""), &chars("a")));
}

#[test]
fn filter_ignores_the_case_of_the_text() {
    assert!(contains_lowercase("New REQUEST", &chars("request")));
    assert!(contains_lowercase("\u{c4}pfel", &chars("\u{e4}pf")));
    assert!(!contains_lowercase("New Request", &chars("Request")));
}

#[test]
fn numbers_are_written_in_decimal() {
    assert_eq!(usize_to_string(0), "0");
    assert_eq!(usize_to_string(7), "7");
    assert_eq!(usize_to_string(10), "10");
    assert_eq!(usize_to_string(5000), "5000");
    assert_eq!(usize_to_string(1234567890), "1234567890");
    assert_eq!(usize_to_string(usize::MAX), usize::MAX.to_string());
}

#[test]
fn numbers_are_read_as_the_standard_library_reads_them() {
    let cases = [
        "0", "9", "42", "+7", "007", "", "+", "-1", "12a", " 1", "1 ", "++1", "1+",
        "18446744073709551615", "18446744073709551616", "99999999999999999999999",
        "\u{661}\u{662}", "1_000", "0x10",
    ];
    for text in cases.iter() {
        assert_eq!(parse_usize(text), text.parse::<usize>().ok(), "reading {:?}", text);
    }
    assert_eq!(parse_usize("42"), Some(42));
    assert_eq!(parse_usize("+7"), Some(7));
    assert_eq!(parse_usize("12a"), None);
    assert_eq!(parse_usize(&usize::MAX.to_string()), Some(usize::MAX));
}

#[test]
fn icons_are_single_signs() {
    assert_eq!(frapi::ui::icons::Icon::go(), "\u{23F5}");
    assert_eq!(frapi::ui::icons::Icon::triangle_right(), "\u{25B6}");
    assert_eq!(frapi::ui::icons::Icon::triangle_bottom(), "\u{25BC}");
    assert_eq!(frapi::ui::icons::Icon::delete(), "\u{2716}");
    assert_eq!(frapi::ui::icons::Icon::list(), "\u{2630}");
}
