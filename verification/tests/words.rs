use arx::command_types::{Category, Paint, SearchQuery, Status};
use arx::errors::Error;
use arx::text::{decimal, parse_usize, short_title, trim};

#[test]
fn category_parse_ignores_case() {
    assert_eq!("book".parse::<Category>().unwrap(), Category::Book);
    assert_eq!(Category::parse("BOOK").unwrap(), Category::Book);
    assert_eq!(Category::parse("Article").unwrap(), Category::Article);
    assert_eq!(Category::parse("topic").unwrap(), Category::Topic);
    assert_eq!(Category::parse("pRoJeCt").unwrap(), Category::Project);
    assert_eq!(Category::parse("tool").unwrap(), Category::Tool);
    assert_eq!(Category::parse("COURSE").unwrap(), Category::Course);
    assert_eq!(Category::parse("other").unwrap(), Category::Other);
}

#[test]
fn category_parse_returns_the_text_it_refused() {
    for text in ["", "books", " book", "Novel"] {
        match Category::parse(text) {
            Err(Error::CategoryParseError(refused)) => assert_eq!(refused, text),
            other => panic!("unexpected: {:?}", other),
        }
    }
}

#[test]
fn category_from_name_is_exact() {
    assert_eq!(Category::from_name("book"), Some(Category::Book));
    assert_eq!(Category::from_name("Book"), None);
    assert_eq!(Category::from_name("other"), Some(Category::Other));
    assert_eq!(Category::from_name(""), None);
}

#[test]
fn category_names_and_colors() {
    let all = [
        (Category::Book, "book", Paint::Green),
        (Category::Article, "article", Paint::Magenta),
        (Category::Topic, "topic", Paint::Blue),
        (Category::Project, "project", Paint::Red),
        (Category::Tool, "tool", Paint::AnsiValue(5)),
        (Category::Course, "course", Paint::Yellow),
        (Category::Other, "other", Paint::White),
    ];
    for (category, name, paint) in all {
        assert_eq!(category.name(), name);
        assert_eq!(category.color(), paint);
        assert_eq!(Category::from_name(name), Some(category));
    }
    assert_eq!(Category::default(), Category::Other);
}

#[test]
fn status_labels() {
    assert_eq!(Status::Unset.label(), "━━");
    assert_eq!(Status::Pending.label(), "pending");
    assert_eq!(Status::Done.label(), "DONE");
    assert_eq!(Status::default(), Status::Unset);
}

#[test]
fn search_query_reads_numbers_as_ids() {
    assert!(matches!(SearchQuery::parse("42"), SearchQuery::Id(42)));
    assert!(matches!(SearchQuery::parse("0"), SearchQuery::Id(0)));
    assert!(matches!(SearchQuery::parse("007"), SearchQuery::Id(7)));
    assert!(matches!(SearchQuery::parse("+7"), SearchQuery::Id(7)));
    assert!(matches!("123".parse::<SearchQuery>(), Ok(SearchQuery::Id(123))));
    let max = usize::MAX.to_string();
    assert!(matches!(SearchQuery::parse(&max), SearchQuery::Id(usize::MAX)));
}

#[test]
fn search_query_reads_other_text_as_query() {
    for text in ["", "+", "-1", "1 ", " 1", "12a", "my query", "99999999999999999999999999", "1_000", "١٢"] {
        match SearchQuery::parse(text) {
            SearchQuery::Query(query) => assert_eq!(query, text),
            other => panic!("unexpected: {:?}", other),
        }
    }
}

#[test]
fn decimal_writes_numbers() {
    assert_eq!(decimal(0), "0");
    assert_eq!(decimal(7), "7");
    assert_eq!(decimal(10), "10");
    assert_eq!(decimal(1234567890), "1234567890");
    assert_eq!(decimal(usize::MAX), usize::MAX.to_string());
}

#[test]
fn short_title_keeps_short_titles() {
    assert_eq!(short_title(""), "");
    assert_eq!(short_title("short"), "short");
    assert_eq!(short_title("abcdefghijklmnopqrstuvwx"), "abcdefghijklmnopqrstuvwx");
}

#[test]
fn short_title_cuts_long_titles() {
    assert_eq!(short_title("abcdefghijklmnopqrstuvwxy"), "abcdefghijklmnopqrstu...");
    assert_eq!(
        short_title("The C Programming Language, second edition"),
        "The C Programming Lan..."
    );
    assert_eq!(short_title("ääääääääääääääääääääääääää"), "äääääääääääääääääääää...");
}

#[test]
fn error_messages() {
    let text = |s: &str| s.to_string();
    assert_eq!(Error::IDNotFound(12).message(), "Bookmark with ID 12 not found");
    assert_eq!(Error::NoUrl(0).message(), "Bookmark with ID 0 has no URL");
    assert_eq!(Error::NoProjectDirs.message(), "Project directories not found");
    assert_eq!(Error::PageNotFound(4).message(), "Page 4 not found");
    assert_eq!(
        Error::NoEditSpecified.message(),
        "Edit command requires at least one argument"
    );
    assert_eq!(Error::ClipboardNotFound(text("x")).message(), "Clipboard not found: x");
    assert_eq!(
        Error::ClipboardCopyError(text("x")).message(),
        "Could not copy to clipboard: x"
    );
    assert_eq!(Error::CategoryParseError(text("novel")).message(), "Invalid category: novel");
    assert_eq!(Error::ParseError(text("eof")).message(), "JSON parse error: eof");
    assert_eq!(Error::TomlParseError(text("eof")).message(), "Toml parse error: eof");
    assert_eq!(
        Error::TomlSerializeError(text("x")).message(),
        "Internal error when serializing metadata: x"
    );
    assert_eq!(Error::Io(text("denied")).message(), "I/O error: denied");
    assert_eq!(Error::NoConfigArgs.message(), "No config args provided");
    assert_eq!(Error::ZeroPagination.message(), "Can't paginate by 0");
    assert_eq!(Error::QueryNotFound(text("rust")).message(), "No bookmark matches: rust");
}

#[test]
fn an_id_in_decimal_names_that_id() {
    for id in [0usize, 1, 9, 10, 99, 100, 12345, usize::MAX] {
        match SearchQuery::parse(&decimal(id)) {
            SearchQuery::Id(found) => assert_eq!(found, id),
            other => panic!("unexpected: {:?}", other),
        }
    }
}

#[test]
fn search_query_clone_is_equal() {
    let query = SearchQuery::Query(String::from("rust book"));
    match query.clone() {
        SearchQuery::Query(text) => assert_eq!(text, "rust book"),
        other => panic!("unexpected: {:?}", other),
    }
    assert!(matches!(SearchQuery::Id(4).clone(), SearchQuery::Id(4)));
}

#[test]
fn parse_usize_reads_decimal_numerals() {
    assert_eq!(parse_usize("0"), Some(0));
    assert_eq!(parse_usize("42"), Some(42));
    assert_eq!(parse_usize("+42"), Some(42));
    assert_eq!(parse_usize("0042"), Some(42));
    assert_eq!(parse_usize(&usize::MAX.to_string()), Some(usize::MAX));
    let mut padded = String::from("+000000000000000000000000000000");
    padded.push_str(&usize::MAX.to_string());
    assert_eq!(parse_usize(&padded), Some(usize::MAX));
}

#[test]
fn parse_usize_refuses_what_is_no_numeral() {
    let mut above = usize::MAX.to_string();
    let last = above.pop().unwrap();
    above.push(char::from_digit(last.to_digit(10).unwrap() + 1, 10).unwrap_or('9'));
    if last == '9' {
        above.push('0');
    }
    let texts = [
        "", "+", "-", "-1", "++1", "+-1", "1+", " 1", "1 ", "1.0", "1e3", "0x10", "1_000", "a",
        "12a", "١٢", "１２", "1é", "é1", "99999999999999999999999999999999999999999",
        above.as_str(),
    ];
    for text in texts {
        assert_eq!(parse_usize(text), None, "{:?}", text);
        assert_eq!(parse_usize(text), text.parse::<usize>().ok(), "{:?}", text);
    }
    for text in ["0", "7", "+7", "007", "18446744073709551615", "4294967295", "4294967296"] {
        assert_eq!(parse_usize(text), text.parse::<usize>().ok(), "{:?}", text);
    }
}

#[test]
fn trim_takes_white_space_from_both_ends() {
    assert_eq!(trim(""), "");
    assert_eq!(trim("   "), "");
    assert_eq!(trim("y"), "y");
    assert_eq!(trim("y\n"), "y");
    assert_eq!(trim("  Y \r\n"), "Y");
    assert_eq!(trim("\t a b \u{a0}\u{3000}"), "a b");
    assert_eq!(trim("\u{200b}x\u{200b}"), "\u{200b}x\u{200b}");
    assert_eq!(trim(" é "), "é");
}

#[test]
fn trim_agrees_with_the_standard_library_on_every_character() {
    let mut white = 0;
    for code in 0..=0x10ffffu32 {
        if let Some(c) = char::from_u32(code) {
            let text = format!("{}{}a {} b{}", c, c, c, c);
            assert_eq!(trim(&text), text.trim(), "{:?}", c);
            if trim(&c.to_string()).is_empty() {
                white += 1;
            }
        }
    }
    assert_eq!(white, 25);
}
