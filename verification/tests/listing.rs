use arx::command_types::{AddArgs, Category, ListArgs, ListFields, Paint, Status};
use arx::config::Config;
use arx::data::BookmarkStore;
use arx::errors::Error;
use arx::listing::{
    columns, paginate, Alignment, CellSpec, Detail, ListOutcome, Listing, PageWindow, Row, URL_MARK,
};

fn entry(title: &str) -> AddArgs {
    AddArgs {
        title: title.to_string(),
        url: None,
        category: None,
        tags: None,
        notes: None,
        status: None,
        hidden: false,
    }
}

fn args() -> ListArgs {
    ListArgs { category: None, tag: None, page: None, all: false, fields: None }
}

fn config(page_by: Option<usize>) -> Config {
    Config { save_location: String::from("/tmp/bookmarks.json"), table_style: None, page_by }
}

fn numbered(count: usize) -> BookmarkStore {
    let mut store = BookmarkStore::default();
    for k in 0..count {
        store.add(entry(&format!("bookmark {}", k)));
    }
    store
}

fn page(outcome: Result<ListOutcome, Error>) -> Listing {
    match outcome {
        Ok(ListOutcome::Page(listing)) => listing,
        other => panic!("no page: {:?}", other),
    }
}

fn titles(store: &BookmarkStore) -> Vec<String> {
    store.bookmarks.iter().map(|b| b.title.clone()).collect()
}

fn mixed() -> BookmarkStore {
    let mut store = BookmarkStore::default();
    let mut a = entry("A");
    a.url = Some(String::from("https://a.example"));
    store.add(a);
    let mut b = entry("B");
    b.hidden = true;
    b.status = Some(Status::Done);
    store.add(b);
    store
}

#[test]
fn urls_view_without_all_shows_only_the_visible_bookmark_with_url() {
    let mut store = mixed();
    let mut list = args();
    list.fields = Some(ListFields::Urls);
    let listing = page(store.list(list, &config(None)));
    assert_eq!(listing.rows.len(), 1);
    assert_eq!(listing.rows[0].title, "A");
    assert_eq!(listing.rows[0].id, 1);
    match &listing.rows[0].detail {
        Detail::Url(url) => assert_eq!(url.as_deref(), Some("https://a.example")),
        other => panic!("wrong detail: {:?}", other),
    }
    assert_eq!((listing.page, listing.total_pages), (1, 1));
}

#[test]
fn pagination_of_25_bookmarks_by_10() {
    let mut store = numbered(25);
    let mut list = args();
    list.page = Some(3);
    let outcome = store.list(list, &config(Some(10))).unwrap();
    assert_eq!(outcome.notice(), "Showing page 3 out of 3 (specify with -p <num>)");
    let listing = page(Ok(outcome));
    assert_eq!(listing.rows.len(), 5);
    assert_eq!(listing.total_pages, 3);
    assert_eq!(listing.page, 3);
    assert_eq!(listing.rows[0].title, "bookmark 20");
    assert_eq!(listing.rows[4].title, "bookmark 24");

    let mut store = numbered(25);
    let mut list = args();
    list.page = Some(4);
    assert!(matches!(store.list(list, &config(Some(10))), Err(Error::PageNotFound(4))));
}

#[test]
fn page_two_holds_the_second_ten() {
    let mut store = numbered(25);
    let mut list = args();
    list.page = Some(2);
    let listing = page(store.list(list, &config(None)));
    assert_eq!(listing.rows.len(), 10);
    assert_eq!(listing.rows[0].title, "bookmark 10");
    assert_eq!(listing.rows[9].title, "bookmark 19");
    assert_eq!((listing.page, listing.total_pages), (2, 3));
}

#[test]
fn page_zero_and_no_page_are_page_one() {
    for asked in [None, Some(0), Some(1)] {
        let mut store = numbered(12);
        let mut list = args();
        list.page = asked;
        let listing = page(store.list(list, &config(Some(5))));
        assert_eq!(listing.page, 1);
        assert_eq!(listing.total_pages, 3);
        assert_eq!(listing.rows.len(), 5);
        assert_eq!(listing.rows[0].title, "bookmark 0");
    }
}

#[test]
fn paginate_gives_exact_windows() {
    assert_eq!(
        paginate(25, Some(3), 10).unwrap(),
        PageWindow { page: 3, start: 20, end: 25, total_pages: 3 }
    );
    assert_eq!(
        paginate(20, Some(2), 10).unwrap(),
        PageWindow { page: 2, start: 10, end: 20, total_pages: 2 }
    );
    assert_eq!(
        paginate(1, None, 10).unwrap(),
        PageWindow { page: 1, start: 0, end: 1, total_pages: 1 }
    );
    assert_eq!(
        paginate(7, Some(0), 1).unwrap(),
        PageWindow { page: 1, start: 0, end: 1, total_pages: 7 }
    );
    assert_eq!(
        paginate(usize::MAX, Some(1), usize::MAX).unwrap(),
        PageWindow { page: 1, start: 0, end: usize::MAX, total_pages: 1 }
    );
    assert_eq!(
        paginate(usize::MAX, Some(2), usize::MAX - 1).unwrap(),
        PageWindow { page: 2, start: usize::MAX - 1, end: usize::MAX, total_pages: 2 }
    );
}

#[test]
fn paginate_refuses_pages_behind_the_end() {
    assert!(matches!(paginate(20, Some(3), 10), Err(Error::PageNotFound(3))));
    assert!(matches!(paginate(0, None, 10), Err(Error::PageNotFound(1))));
    assert!(matches!(paginate(0, Some(0), 0), Err(Error::PageNotFound(1))));
    assert!(matches!(paginate(5, Some(usize::MAX), usize::MAX), Err(Error::PageNotFound(usize::MAX))));
}

#[test]
fn paginate_by_zero_holds_nothing() {
    assert_eq!(
        paginate(5, Some(9), 0).unwrap(),
        PageWindow { page: 9, start: 0, end: 0, total_pages: 0 }
    );
    let mut store = numbered(3);
    let outcome = store.list(args(), &config(Some(0))).unwrap();
    assert!(matches!(outcome, ListOutcome::NothingFound));
    assert_eq!(outcome.notice(), "No bookmarks found.");
}

#[test]
fn list_of_empty_store_says_so() {
    let mut store = BookmarkStore::default();
    let mut list = args();
    list.page = Some(7);
    list.category = Some(String::from("no such category"));
    let outcome = store.list(list, &config(None)).unwrap();
    assert!(matches!(outcome, ListOutcome::Empty));
}

#[test]
fn list_where_nothing_passes_has_no_page() {
    let mut store = numbered(3);
    let mut list = args();
    list.tag = Some(String::from("none"));
    assert!(matches!(store.list(list, &config(None)), Err(Error::PageNotFound(1))));
    assert_eq!(titles(&store), vec!["bookmark 0", "bookmark 1", "bookmark 2"]);
    assert_eq!(store.next_id, 4);
}

#[test]
fn list_with_unknown_category_fails_with_its_name() {
    let mut store = mixed();
    let mut list = args();
    list.fields = Some(ListFields::Urls);
    list.category = Some(String::from("Novel"));
    match store.list(list, &config(None)) {
        Err(Error::CategoryParseError(name)) => assert_eq!(name, "Novel"),
        other => panic!("unexpected: {:?}", other),
    }
    assert_eq!(titles(&store), vec!["A", "B"]);
    assert_eq!(store.next_id, 3);
}

#[test]
fn filter_by_category_in_any_case() {
    let mut store = BookmarkStore::default();
    let mut book = entry("book");
    book.category = Some(Category::Book);
    store.add(book);
    store.add(entry("other"));
    let mut tool = entry("tool");
    tool.category = Some(Category::Tool);
    store.add(tool);

    let mut list = args();
    list.category = Some(String::from("BoOk"));
    store.filter_args(&mut list).unwrap();
    assert_eq!(titles(&store), vec!["book"]);
    assert_eq!(list.category.as_deref(), Some("BoOk"));
    assert_eq!(store.next_id, 4);
}

#[test]
fn filter_by_the_last_category() {
    let mut store = BookmarkStore::default();
    let mut book = entry("book");
    book.category = Some(Category::Book);
    store.add(book);
    store.add(entry("plain"));
    let mut list = args();
    list.category = Some(String::from("other"));
    store.filter_args(&mut list).unwrap();
    assert_eq!(titles(&store), vec!["plain"]);
}

#[test]
fn filter_by_tag_is_exact() {
    let mut store = BookmarkStore::default();
    let mut a = entry("a");
    a.tags = Some(vec![String::from("rust"), String::from("lang")]);
    store.add(a);
    let mut b = entry("b");
    b.tags = Some(vec![String::from("Rust")]);
    store.add(b);
    let mut c = entry("c");
    c.tags = Some(vec![]);
    store.add(c);
    store.add(entry("d"));
    let mut e = entry("e");
    e.tags = Some(vec![String::from("lang"), String::from("rust")]);
    store.add(e);

    let mut list = args();
    list.tag = Some(String::from("rust"));
    store.filter_args(&mut list).unwrap();
    assert_eq!(titles(&store), vec!["a", "e"]);
}

#[test]
fn filter_hides_done_and_hidden_by_default() {
    let mut store = BookmarkStore::default();
    store.add(entry("plain"));
    let mut done = entry("done");
    done.status = Some(Status::Done);
    store.add(done);
    let mut hidden = entry("hidden");
    hidden.hidden = true;
    store.add(hidden);
    let mut pending = entry("pending");
    pending.status = Some(Status::Pending);
    store.add(pending);
    let mut both = entry("both");
    both.status = Some(Status::Done);
    both.hidden = true;
    store.add(both);

    let mut list = args();
    store.filter_args(&mut list).unwrap();
    assert_eq!(titles(&store), vec!["plain", "pending"]);
}

#[test]
fn filter_with_all_keeps_everything() {
    let mut store = mixed();
    let mut list = args();
    list.all = true;
    store.filter_args(&mut list).unwrap();
    assert_eq!(titles(&store), vec!["A", "B"]);
}

#[test]
fn hidden_view_shows_hidden_bookmarks_that_are_not_done() {
    let mut store = BookmarkStore::default();
    store.add(entry("plain"));
    let mut hidden = entry("hidden");
    hidden.hidden = true;
    store.add(hidden);
    let mut both = entry("both");
    both.status = Some(Status::Done);
    both.hidden = true;
    store.add(both);

    let mut list = args();
    list.fields = Some(ListFields::Hidden);
    store.filter_args(&mut list).unwrap();
    assert_eq!(titles(&store), vec!["hidden"]);

    let mut store = mixed();
    let mut list = args();
    list.fields = Some(ListFields::Hidden);
    list.all = true;
    store.filter_args(&mut list).unwrap();
    assert_eq!(titles(&store), vec!["B"]);
}

#[test]
fn notes_view_shows_bookmarks_with_notes() {
    let mut store = BookmarkStore::default();
    store.add(entry("plain"));
    let mut noted = entry("noted");
    noted.notes = Some(String::from("read soon"));
    noted.status = Some(Status::Pending);
    store.add(noted);

    let mut list = args();
    list.fields = Some(ListFields::Notes);
    let listing = page(store.list(list, &config(None)));
    assert_eq!(listing.rows.len(), 1);
    assert_eq!(listing.rows[0].title, "noted");
    assert!(listing.rows[0].pending);
    match &listing.rows[0].detail {
        Detail::Notes(notes) => assert_eq!(notes.as_deref(), Some("read soon")),
        other => panic!("wrong detail: {:?}", other),
    }
}

#[test]
fn summary_rows_hold_category_and_status() {
    let mut store = BookmarkStore::default();
    let mut book = entry("book");
    book.category = Some(Category::Book);
    book.status = Some(Status::Pending);
    book.url = Some(String::from("https://book.example"));
    store.add(book);
    store.add(entry("plain"));

    let listing = page(store.list(args(), &config(None)));
    assert_eq!(listing.rows.len(), 2);
    assert!(listing.rows[0].pending);
    assert!(!listing.rows[1].pending);
    match &listing.rows[0].detail {
        Detail::Summary { category, status } => {
            assert_eq!((*category, *status), (Category::Book, Status::Pending))
        }
        other => panic!("wrong detail: {:?}", other),
    }
    match &listing.rows[1].detail {
        Detail::Summary { category, status } => {
            assert_eq!((*category, *status), (Category::Other, Status::Unset))
        }
        other => panic!("wrong detail: {:?}", other),
    }
}

#[test]
fn columns_of_each_view() {
    let described = |fields| -> Vec<(&'static str, u16, Option<Alignment>)> {
        columns(fields).iter().map(|c| (c.header, c.width, c.alignment)).collect()
    };
    assert_eq!(
        described(Some(ListFields::Urls)),
        vec![
            ("ID", 5, None),
            ("name", 65, Some(Alignment::Left)),
            ("url", 6, Some(Alignment::Center)),
        ]
    );
    assert_eq!(
        described(Some(ListFields::Notes)),
        vec![
            ("ID", 5, None),
            ("name", 21, Some(Alignment::Center)),
            ("notes", 50, Some(Alignment::Center)),
        ]
    );
    for fields in [None, Some(ListFields::Hidden)] {
        assert_eq!(
            described(fields),
            vec![
                ("ID", 5, None),
                ("name", 50, Some(Alignment::Left)),
                ("category", 10, Some(Alignment::Center)),
                ("status", 10, Some(Alignment::Center)),
            ]
        );
    }
}

fn shown(cells: Vec<CellSpec>) -> Vec<(String, Option<Paint>, bool, bool, Option<Alignment>)> {
    cells.into_iter().map(|c| (c.text, c.paint, c.bold, c.italic, c.alignment)).collect()
}

#[test]
fn cells_of_a_summary_row() {
    let row = Row {
        id: 12,
        title: String::from("Rust Book"),
        pending: true,
        detail: Detail::Summary { category: Category::Tool, status: Status::Pending },
    };
    assert_eq!(
        shown(row.cells()),
        vec![
            (String::from("12"), None, false, false, None),
            (String::from("Rust Book"), Some(Paint::White), true, false, Some(Alignment::Left)),
            (String::from("tool"), Some(Paint::AnsiValue(5)), false, false, None),
            (String::from("pending"), None, false, true, None),
        ]
    );
    let row = Row {
        id: 0,
        title: String::from("t"),
        pending: false,
        detail: Detail::Summary { category: Category::Book, status: Status::Done },
    };
    assert_eq!(
        shown(row.cells()),
        vec![
            (String::from("0"), None, false, false, None),
            (String::from("t"), None, false, false, Some(Alignment::Left)),
            (String::from("book"), Some(Paint::Green), false, false, None),
            (String::from("DONE"), Some(Paint::Green), false, false, None),
        ]
    );
    let row = Row {
        id: 3,
        title: String::from("t"),
        pending: false,
        detail: Detail::Summary { category: Category::Other, status: Status::Unset },
    };
    assert_eq!(
        shown(row.cells())[2..],
        vec![
            (String::from("other"), Some(Paint::White), false, false, None),
            (String::from("━━"), None, false, false, None),
        ]
    );
}

#[test]
fn cells_of_url_and_notes_rows() {
    assert_eq!(URL_MARK, "[XX]");
    let with = |detail| Row { id: 1, title: String::from("t"), pending: false, detail };
    assert_eq!(
        shown(with(Detail::Url(Some(String::from("https://x.example")))).cells())[2..],
        vec![(String::from("[XX]"), Some(Paint::DarkBlue), false, false, None)]
    );
    assert_eq!(
        shown(with(Detail::Url(None)).cells())[2..],
        vec![(String::from("━━"), Some(Paint::DarkBlue), false, false, None)]
    );
    assert_eq!(
        shown(with(Detail::Notes(Some(String::from("soon")))).cells())[2..],
        vec![(String::from("soon"), None, false, false, Some(Alignment::Left))]
    );
    assert_eq!(
        shown(with(Detail::Notes(None)).cells())[2..],
        vec![(String::from("-"), None, false, false, Some(Alignment::Left))]
    );
}

#[test]
fn headings_are_yellow_and_bold() {
    let headings: Vec<_> = columns(Some(ListFields::Urls)).iter().map(|c| c.heading()).collect();
    assert_eq!(
        shown(headings),
        vec![
            (String::from("ID"), Some(Paint::Yellow), true, false, None),
            (String::from("name"), Some(Paint::Yellow), true, false, None),
            (String::from("url"), Some(Paint::Yellow), true, false, None),
        ]
    );
}

fn assorted() -> BookmarkStore {
    let mut store = BookmarkStore::default();
    let categories = [Category::Book, Category::Tool, Category::Other];
    let statuses = [Status::Unset, Status::Pending, Status::Done];
    let mut k = 0;
    for category in categories {
        for status in statuses {
            for hidden in [false, true] {
                for with_url in [false, true] {
                    for with_tag in [false, true] {
                        let mut args = entry(&format!("bookmark {}", k));
                        args.category = Some(category);
                        args.status = Some(status);
                        args.hidden = hidden;
                        args.url = if with_url { Some(String::from("https://x.example")) } else { None };
                        args.tags = if with_tag { Some(vec![String::from("t")]) } else { None };
                        args.notes = if k % 3 == 0 { Some(String::from("n")) } else { None };
                        store.add(args);
                        k += 1;
                    }
                }
            }
        }
    }
    store
}

#[test]
fn a_listing_is_its_four_steps_in_order() {
    for fields in [None, Some(ListFields::Urls), Some(ListFields::Notes), Some(ListFields::Hidden)] {
        for category in [None, Some("tool")] {
            for tag in [None, Some("t")] {
                for all in [false, true] {
                    let mut at_once = assorted();
                    let mut list = ListArgs {
                        category: category.map(String::from),
                        tag: tag.map(String::from),
                        page: None,
                        all,
                        fields,
                    };
                    at_once.filter_args(&mut list).unwrap();

                    let mut stepwise = assorted();
                    let mut step = ListArgs { category: None, tag: None, page: None, all: true, fields };
                    stepwise.filter_args(&mut step).unwrap();
                    let mut step = ListArgs {
                        category: category.map(String::from),
                        tag: None,
                        page: None,
                        all: true,
                        fields: None,
                    };
                    stepwise.filter_args(&mut step).unwrap();
                    let mut step = ListArgs {
                        category: None,
                        tag: tag.map(String::from),
                        page: None,
                        all: true,
                        fields: None,
                    };
                    stepwise.filter_args(&mut step).unwrap();
                    let mut step = ListArgs { category: None, tag: None, page: None, all, fields };
                    stepwise.filter_args(&mut step).unwrap();

                    assert_eq!(titles(&at_once), titles(&stepwise));
                }
            }
        }
    }
}

#[test]
fn a_page_is_found_up_to_the_number_of_pages() {
    for (len, size) in [(25usize, 10usize), (20, 10), (1, 1), (7, 3), (3, 7)] {
        let total = paginate(len, None, size).unwrap().total_pages;
        assert_eq!(total, (len + size - 1) / size);
        for page in 1..=total + 2 {
            match paginate(len, Some(page), size) {
                Ok(window) => {
                    assert!(page <= total);
                    assert_eq!(window.start, (page - 1) * size);
                    assert_eq!(window.end, std::cmp::min(page * size, len));
                }
                Err(Error::PageNotFound(missing)) => {
                    assert!(page > total);
                    assert_eq!(missing, page);
                }
                Err(other) => panic!("unexpected: {:?}", other),
            }
        }
    }
}

fn snapshot(store: &BookmarkStore) -> String {
    format!("{:?}", store)
}

#[test]
fn a_listing_leaves_the_store_as_it_was() {
    for fields in [None, Some(ListFields::Urls), Some(ListFields::Notes), Some(ListFields::Hidden)] {
        for category in [None, Some("tool"), Some("magazine")] {
            for tag in [None, Some("t"), Some("no such tag")] {
                for page in [None, Some(2), Some(99)] {
                    for size in [None, Some(0), Some(3)] {
                        let mut store = assorted();
                        let before = snapshot(&store);
                        let list = ListArgs {
                            category: category.map(String::from),
                            tag: tag.map(String::from),
                            page,
                            all: false,
                            fields,
                        };
                        let _ = store.list(list, &config(size));
                        assert_eq!(snapshot(&store), before);
                    }
                }
            }
        }
    }
}

#[test]
fn a_listing_for_a_tag_that_nothing_carries_loses_nothing() {
    let mut store = BookmarkStore::default();
    store.add(entry("untagged"));
    let mut list = args();
    list.tag = Some(String::from("rust"));
    assert!(matches!(store.list(list, &config(None)), Err(Error::PageNotFound(1))));
    assert_eq!(titles(&store), vec!["untagged"]);
    assert_eq!(store.next_id, 2);
}

#[test]
fn a_listing_shows_the_rows_that_pass_in_their_order() {
    let mut store = assorted();
    let mut list = args();
    list.tag = Some(String::from("t"));
    list.category = Some(String::from("Tool"));
    list.fields = Some(ListFields::Urls);
    let listing = page(store.list(list, &config(Some(2))));
    let mut expected = assorted();
    let mut same = args();
    same.tag = Some(String::from("t"));
    same.category = Some(String::from("Tool"));
    same.fields = Some(ListFields::Urls);
    expected.filter_args(&mut same).unwrap();
    let shown: Vec<(usize, String)> = listing.rows.iter().map(|r| (r.id, r.title.clone())).collect();
    let wanted: Vec<(usize, String)> =
        expected.bookmarks.iter().take(2).map(|b| (b.id, b.title.clone())).collect();
    assert_eq!(shown, wanted);
    assert_eq!(listing.total_pages, (expected.bookmarks.len() + 1) / 2);
    assert!(expected.bookmarks.len() >= 2);
}

#[test]
fn filter_with_unknown_category_leaves_the_store_as_it_was() {
    let mut store = mixed();
    let before = snapshot(&store);
    let mut list = args();
    list.fields = Some(ListFields::Urls);
    list.category = Some(String::from("magazine"));
    match store.filter_args(&mut list) {
        Err(Error::CategoryParseError(name)) => assert_eq!(name, "magazine"),
        other => panic!("unexpected: {:?}", other),
    }
    assert_eq!(snapshot(&store), before);
    assert_eq!(titles(&store), vec!["A", "B"]);
    assert_eq!(store.next_id, 3);
}
