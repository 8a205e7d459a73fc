//! Listings: which bookmarks a listing shows, how they fall into pages, and
//! what each row of a page holds.

use vstd::prelude::*;
use crate::command_types::{Category, ListArgs, ListFields, Paint, Status};
use crate::config::Config;
use crate::data::{models, text_of, texts, Bookmark, BookmarkModel, BookmarkStore};
use crate::errors::{fails_with, Error, ErrorModel};
use crate::text::{decimal, lowercased, numeral};

verus! {

/// The page size of a configuration that names none.
pub const DEFAULT_PAGE_SIZE: usize = 10;

/// Whether a bookmark has what the view is about: a URL for the view of
/// URLs, notes for the view of notes, the hidden mark for the view of hidden
/// bookmarks. The summary view asks for nothing.
pub open spec fn has_field(bookmark: BookmarkModel, fields: Option<ListFields>) -> bool {
    match fields {
        Some(ListFields::Urls) => bookmark.url is Some,
        Some(ListFields::Notes) => bookmark.notes is Some,
        Some(ListFields::Hidden) => bookmark.hidden,
        None => true,
    }
}

/// Whether a listing shows a bookmark. It has what the view is about; it is
/// of the category asked for, if one is; it carries the tag asked for, if
/// one is; and unless everything is asked for, it is not done, and it is not
/// hidden except in the view of hidden bookmarks.
pub open spec fn passes(
    bookmark: BookmarkModel,
    fields: Option<ListFields>,
    category: Option<Category>,
    tag: Option<Seq<char>>,
    all: bool,
) -> bool {
    &&& has_field(bookmark, fields)
    &&& (category matches Some(c) ==> bookmark.category == c)
    &&& (tag matches Some(t) ==> bookmark.tags matches Some(list) && list.contains(t))
    &&& (!all ==> bookmark.status != Status::Done && (bookmark.hidden ==> fields == Some(
        ListFields::Hidden,
    )))
}

/// [`passes`] as a predicate on bookmarks.
pub open spec fn listed(
    fields: Option<ListFields>,
    category: Option<Category>,
    tag: Option<Seq<char>>,
    all: bool,
) -> spec_fn(BookmarkModel) -> bool {
    |bookmark: BookmarkModel| passes(bookmark, fields, category, tag, all)
}

/// The category that a listing asks for: none where no name is given, the
/// category of the name where it is one, and else the failure that returns
/// the name.
pub open spec fn category_choice(name: Option<String>) -> Result<Option<Category>, ErrorModel> {
    match name {
        None => Ok(None),
        Some(text) => match Category::named(lowercased(text@)) {
            Some(category) => Ok(Some(category)),
            None => Err(ErrorModel::CategoryParseError(text@)),
        },
    }
}

/// A sequence with one more element is filtered by filtering what came
/// before and then deciding on the new element.
pub proof fn lemma_filter_push<A>(s: Seq<A>, x: A, pred: spec_fn(A) -> bool)
    ensures
        s.push(x).filter(pred) == if pred(x) {
            s.filter(pred).push(x)
        } else {
            s.filter(pred)
        },
{
    reveal(Seq::filter);
    assert(s.push(x).drop_last() =~= s);
}

/// The first step of a listing: the bookmarks that have what the view is
/// about.
pub open spec fn in_view(fields: Option<ListFields>) -> spec_fn(BookmarkModel) -> bool {
    |bookmark: BookmarkModel| has_field(bookmark, fields)
}

/// The second step of a listing: the bookmarks of the category asked for.
pub open spec fn of_category(category: Option<Category>) -> spec_fn(BookmarkModel) -> bool {
    |bookmark: BookmarkModel| category matches Some(c) ==> bookmark.category == c
}

/// The third step of a listing: the bookmarks that carry the tag asked for.
pub open spec fn tagged(tag: Option<Seq<char>>) -> spec_fn(BookmarkModel) -> bool {
    |bookmark: BookmarkModel|
        tag matches Some(t) ==> bookmark.tags matches Some(list) && list.contains(t)
}

/// The last step of a listing: unless everything is asked for, the
/// bookmarks that are not done, and that are not hidden except in the view
/// of hidden bookmarks.
pub open spec fn visible(all: bool, fields: Option<ListFields>) -> spec_fn(BookmarkModel) -> bool {
    |bookmark: BookmarkModel|
        !all ==> bookmark.status != Status::Done && (bookmark.hidden ==> fields == Some(
            ListFields::Hidden,
        ))
}

/// Filtering twice is filtering once by both predicates.
pub proof fn lemma_filter_twice<A>(
    s: Seq<A>,
    first: spec_fn(A) -> bool,
    second: spec_fn(A) -> bool,
    both: spec_fn(A) -> bool,
)
    requires
        forall|x: A| #[trigger] both(x) == (first(x) && second(x)),
    ensures
        s.filter(first).filter(second) == s.filter(both),
    decreases s.len(),
{
    reveal(Seq::filter);
    if s.len() > 0 {
        let rest = s.drop_last();
        lemma_filter_twice(rest, first, second, both);
        if first(s.last()) {
            lemma_filter_push(rest.filter(first), s.last(), second);
        }
    }
}

/// What a listing shows is what is left after its four steps, each of
/// which narrows what the step before left: the view, the category, the
/// tag, and what is visible.
pub proof fn lemma_filters_compose(
    bookmarks: Seq<BookmarkModel>,
    fields: Option<ListFields>,
    category: Option<Category>,
    tag: Option<Seq<char>>,
    all: bool,
)
    ensures
        bookmarks.filter(listed(fields, category, tag, all)) == bookmarks.filter(
            in_view(fields),
        ).filter(of_category(category)).filter(tagged(tag)).filter(visible(all, fields)),
{
    let two = |bookmark: BookmarkModel|
        in_view(fields)(bookmark) && of_category(category)(bookmark);
    let three = |bookmark: BookmarkModel| two(bookmark) && tagged(tag)(bookmark);
    lemma_filter_twice(bookmarks, in_view(fields), of_category(category), two);
    lemma_filter_twice(bookmarks, two, tagged(tag), three);
    lemma_filter_twice(bookmarks, three, visible(all, fields), listed(fields, category, tag, all));
}

fn carries(tags: &Vec<String>, tag: &String) -> (found: bool)
    ensures
        found == texts(tags@).contains(tag@),
{
    let mut k: usize = 0;
    while k < tags.len()
        invariant
            k <= tags.len(),
            forall|j: int| 0 <= j < k ==> texts(tags@)[j] != tag@,
        decreases tags.len() - k,
    {
        if tags[k] == *tag {
            assert(texts(tags@)[k as int] == tag@);
            return true;
        }
        k += 1;
    }
    false
}

fn shown(
    bookmark: &Bookmark,
    fields: Option<ListFields>,
    category: Option<Category>,
    tag: &Option<String>,
    all: bool,
) -> (yes: bool)
    ensures
        yes == passes(bookmark@, fields, category, text_of(*tag), all),
{
    let in_view = match fields {
        Some(ListFields::Urls) => bookmark.url.is_some(),
        Some(ListFields::Notes) => bookmark.notes.is_some(),
        Some(ListFields::Hidden) => bookmark.hidden,
        None => true,
    };
    let in_category = match category {
        Some(c) => bookmark.category == c,
        None => true,
    };
    let tagged = match tag {
        Some(t) => match &bookmark.tags {
            Some(list) => carries(list, t),
            None => false,
        },
        None => true,
    };
    let hidden_view = match fields {
        Some(ListFields::Hidden) => true,
        _ => false,
    };
    let visible = all || (bookmark.status != Status::Done && (!bookmark.hidden || hidden_view));
    in_view && in_category && tagged && visible
}

fn retain(
    items: Vec<Bookmark>,
    fields: Option<ListFields>,
    category: Option<Category>,
    tag: &Option<String>,
    all: bool,
) -> (kept: Vec<Bookmark>)
    ensures
        models(kept@) == models(items@).filter(listed(fields, category, text_of(*tag), all)),
{
    let ghost pred = listed(fields, category, text_of(*tag), all);
    let mut kept: Vec<Bookmark> = Vec::new();
    for item in it: items
        invariant
            it.seq() == items@,
            pred == listed(fields, category, text_of(*tag), all),
            models(kept@) == models(items@.take(it.index() as int)).filter(pred),
    {
        proof {
            let k = it.index() as int;
            assert(models(items@.take(k + 1)) =~= models(items@.take(k)).push(items@[k]@));
            lemma_filter_push(models(items@.take(k)), items@[k]@, pred);
        }
        if shown(&item, fields, category, tag, all) {
            kept.push(item);
        }
    }
    assert(items@.take(items@.len() as int) =~= items@);
    kept
}

/// The bookmarks at some positions of a collection, in the order of the
/// positions.
pub open spec fn picked(bookmarks: Seq<BookmarkModel>, positions: Seq<usize>) -> Seq<
    BookmarkModel,
> {
    Seq::new(positions.len(), |i: int| bookmarks[positions[i] as int])
}

fn shown_positions(
    items: &Vec<Bookmark>,
    fields: Option<ListFields>,
    category: Option<Category>,
    tag: &Option<String>,
    all: bool,
) -> (positions: Vec<usize>)
    ensures
        forall|i: int| 0 <= i < positions.len() ==> (#[trigger] positions[i]) < items.len(),
        picked(models(items@), positions@) == models(items@).filter(
            listed(fields, category, text_of(*tag), all),
        ),
{
    let ghost pred = listed(fields, category, text_of(*tag), all);
    let ghost all_items = models(items@);
    let mut positions: Vec<usize> = Vec::new();
    let mut k: usize = 0;
    while k < items.len()
        invariant
            k <= items.len(),
            pred == listed(fields, category, text_of(*tag), all),
            all_items == models(items@),
            forall|i: int| 0 <= i < positions.len() ==> (#[trigger] positions[i]) < k,
            picked(all_items, positions@) == all_items.take(k as int).filter(pred),
        decreases items.len() - k,
    {
        proof {
            assert(all_items.take(k + 1) =~= all_items.take(k as int).push(all_items[k as int]));
            lemma_filter_push(all_items.take(k as int), all_items[k as int], pred);
        }
        if shown(&items[k], fields, category, tag, all) {
            positions.push(k);
        }
        k += 1;
    }
    assert(all_items.take(k as int) =~= all_items);
    positions
}

impl BookmarkStore {
    /// Narrows the collection to what a listing shows (see [`passes`]). The
    /// next id stays. Where the category's name is not one, the call fails
    /// with that name, and the collection is as it was.
    pub fn filter_args(&mut self, args: &mut ListArgs) -> (outcome: Result<(), Error>)
        ensures
            *final(args) == *old(args),
            final(self).next_id == old(self).next_id,
            match category_choice(old(args).category) {
                Ok(category) => outcome is Ok
                    && final(self)@.bookmarks == old(self)@.bookmarks.filter(
                    listed(old(args).fields, category, text_of(old(args).tag), old(args).all),
                ),
                Err(error) => fails_with(outcome, error) && *final(self) == *old(self),
            },
    {
        let category = match &args.category {
            Some(name) => match Category::parse(name.as_str()) {
                Ok(category) => Some(category),
                Err(error) => {
                    return Err(error);
                },
            },
            None => None,
        };
        let mut items: Vec<Bookmark> = Vec::new();
        std::mem::swap(&mut self.bookmarks, &mut items);
        self.bookmarks = retain(items, args.fields, category, &args.tag, args.all);
        Ok(())
    }
}

/// The page that is meant by a page argument: pages count from 1, and both
/// no argument and page 0 mean page 1.
pub open spec fn page_number(page: Option<usize>) -> int {
    match page {
        Some(p) => if p == 0 {
            1
        } else {
            p as int
        },
        None => 1,
    }
}

/// The position at which page `page` starts, in pages of `size`.
pub open spec fn page_start(page: int, size: int) -> int {
    (page - 1) * size
}

/// The position before which page `page` ends, in a listing of `len`
/// bookmarks and pages of `size`.
pub open spec fn page_end(page: int, size: int, len: int) -> int {
    if page * size < len {
        page * size
    } else {
        len
    }
}

/// How many pages of `size` a listing of `len` bookmarks fills: `len / size`,
/// rounded up. Pages of size 0 hold nothing, and there are none of them.
pub open spec fn total_pages(len: int, size: int) -> int {
    if size > 0 {
        (len + size - 1) / size
    } else {
        0
    }
}

/// The number of pages is the least number of pages that hold every
/// bookmark.
pub proof fn lemma_total_pages_is_least(len: int, size: int)
    requires
        0 <= len,
        0 < size,
    ensures
        total_pages(len, size) * size >= len,
        (total_pages(len, size) - 1) * size < len || len == 0,
        len == 0 ==> total_pages(len, size) == 0,
{
    let t = total_pages(len, size);
    let x = len + size - 1;
    vstd::arithmetic::div_mod::lemma_fundamental_div_mod(x, size);
    vstd::arithmetic::div_mod::lemma_mod_pos_bound(x, size);
    assert((t - 1) * size == t * size - size) by (nonlinear_arith);
    if len == 0 {
        vstd::arithmetic::div_mod::lemma_fundamental_div_mod_converse(x, size, 0, size - 1);
    }
}

/// With pages that hold something, a page is found just when its number is
/// at most the number of pages.
pub proof fn lemma_page_found_within_total(len: int, size: int, page: int)
    requires
        0 <= len,
        0 < size,
        1 <= page,
    ensures
        page_start(page, size) < len <==> page <= total_pages(len, size),
{
    let total = total_pages(len, size);
    lemma_total_pages_is_least(len, size);
    if page <= total {
        assert((page - 1) * size <= (total - 1) * size) by (nonlinear_arith)
            requires
                page <= total,
                0 < size,
        ;
    } else {
        assert((page - 1) * size >= total * size) by (nonlinear_arith)
            requires
                page > total,
                0 < size,
        ;
    }
}

/// One page of a listing: its number, the positions `start..end` of its
/// bookmarks in the listing, and the number of pages.
#[derive(Debug, Clone, Copy, PartialEq, Eq, Structural)]
pub struct PageWindow {
    pub page: usize,
    pub start: usize,
    pub end: usize,
    pub total_pages: usize,
}

/// Cuts page `page` out of a listing of `len` bookmarks, in pages of `size`.
/// A page that starts at or behind the end of the listing is not found; so
/// no page of an empty listing is.
pub fn paginate(len: usize, page: Option<usize>, size: usize) -> (outcome: Result<
    PageWindow,
    Error,
>)
    ensures
        page_start(page_number(page), size as int) >= len ==> fails_with(
            outcome,
            ErrorModel::PageNotFound(page_number(page) as usize),
        ),
        page_start(page_number(page), size as int) < len ==> outcome == Ok::<PageWindow, Error>(
            PageWindow {
                page: page_number(page) as usize,
                start: page_start(page_number(page), size as int) as usize,
                end: page_end(page_number(page), size as int, len as int) as usize,
                total_pages: total_pages(len as int, size as int) as usize,
            },
        ),
        outcome matches Ok(window) ==> window.start <= window.end <= len && window.end
            - window.start <= size && (size > 0 ==> window.start < window.end),
{
    let number: usize = match page {
        Some(p) => if p == 0 {
            1
        } else {
            p
        },
        None => 1,
    };
    let start: usize = match (number - 1).checked_mul(size) {
        Some(start) => start,
        None => {
            return Err(Error::PageNotFound(number));
        },
    };
    if len <= start {
        return Err(Error::PageNotFound(number));
    }
    assert(number * size == (number - 1) * size + size) by (nonlinear_arith);
    let end: usize = if len - start < size {
        len
    } else {
        start + size
    };
    let total: usize = if size == 0 {
        0
    } else {
        let whole: usize = len / size;
        let rest: usize = len % size;
        proof {
            let x = len + size - 1;
            vstd::arithmetic::div_mod::lemma_fundamental_div_mod(len as int, size as int);
            assert((whole + 1) * size == whole * size + size) by (nonlinear_arith);
            assert(whole * size >= whole) by (nonlinear_arith)
                requires
                    size >= 1,
            ;
            if rest == 0 {
                vstd::arithmetic::div_mod::lemma_fundamental_div_mod_converse(
                    x,
                    size as int,
                    whole as int,
                    size - 1,
                );
            } else {
                vstd::arithmetic::div_mod::lemma_fundamental_div_mod_converse(
                    x,
                    size as int,
                    whole + 1,
                    rest - 1,
                );
            }
        }
        if rest == 0 {
            whole
        } else {
            whole + 1
        }
    };
    Ok(PageWindow { page: number, start, end, total_pages: total })
}

/// What a row shows besides the id and the title.
#[derive(Debug)]
pub enum Detail {
    /// The URL, in the view of URLs.
    Url(Option<String>),
    /// The notes, in the view of notes.
    Notes(Option<String>),
    /// The category and the status, in the other views.
    Summary { category: Category, status: Status },
}

/// A [`Detail`] with its text as a sequence of characters.
pub enum DetailModel {
    Url(Option<Seq<char>>),
    Notes(Option<Seq<char>>),
    Summary { category: Category, status: Status },
}

impl View for Detail {
    type V = DetailModel;

    open spec fn view(&self) -> DetailModel {
        match *self {
            Detail::Url(url) => DetailModel::Url(text_of(url)),
            Detail::Notes(notes) => DetailModel::Notes(text_of(notes)),
            Detail::Summary { category, status } => DetailModel::Summary { category, status },
        }
    }
}

/// One row of a listing.
#[derive(Debug)]
pub struct Row {
    pub id: usize,
    pub title: String,
    /// Whether the bookmark is pending, which a listing sets off.
    pub pending: bool,
    pub detail: Detail,
}

/// A [`Row`] with its texts as sequences of characters.
pub struct RowModel {
    pub id: usize,
    pub title: Seq<char>,
    pub pending: bool,
    pub detail: DetailModel,
}

impl View for Row {
    type V = RowModel;

    open spec fn view(&self) -> RowModel {
        RowModel { id: self.id, title: self.title@, pending: self.pending, detail: self.detail@ }
    }
}

/// The row of a bookmark in a view: the id, the title, and the fields that
/// the view is about.
pub open spec fn row_of(bookmark: BookmarkModel, fields: Option<ListFields>) -> RowModel {
    RowModel {
        id: bookmark.id,
        title: bookmark.title,
        pending: bookmark.status == Status::Pending,
        detail: match fields {
            Some(ListFields::Urls) => DetailModel::Url(bookmark.url),
            Some(ListFields::Notes) => DetailModel::Notes(bookmark.notes),
            _ => DetailModel::Summary { category: bookmark.category, status: bookmark.status },
        },
    }
}

/// The rows of some bookmarks, in their order.
pub open spec fn rows_of(bookmarks: Seq<BookmarkModel>, fields: Option<ListFields>) -> Seq<
    RowModel,
> {
    Seq::new(bookmarks.len(), |i: int| row_of(bookmarks[i], fields))
}

/// The text that stands in a table for a URL, until the table is drawn and
/// the link takes its place.
pub const URL_MARK: &'static str = "[XX]";

/// One cell of a table: its text, and how it is shown where the table's own
/// way is not meant.
#[derive(Debug)]
pub struct CellSpec {
    pub text: String,
    pub paint: Option<Paint>,
    pub bold: bool,
    pub italic: bool,
    pub alignment: Option<Alignment>,
}

/// A [`CellSpec`] with its text as a sequence of characters.
pub struct CellModel {
    pub text: Seq<char>,
    pub paint: Option<Paint>,
    pub bold: bool,
    pub italic: bool,
    pub alignment: Option<Alignment>,
}

impl View for CellSpec {
    type V = CellModel;

    open spec fn view(&self) -> CellModel {
        CellModel {
            text: self.text@,
            paint: self.paint,
            bold: self.bold,
            italic: self.italic,
            alignment: self.alignment,
        }
    }
}

impl CellModel {
    /// A cell that is shown in the table's own way.
    pub open spec fn plain(text: Seq<char>) -> CellModel {
        CellModel { text, paint: None, bold: false, italic: false, alignment: None }
    }
}

impl DetailModel {
    /// The cells of a row behind the id and the title. A URL is a dark blue
    /// [`URL_MARK`], and a dark blue line where there is none; notes are set
    /// to the left, and a hyphen where there are none; a category is in its
    /// colour, and a status is green when done and italic when pending.
    pub open spec fn cells(self) -> Seq<CellModel> {
        match self {
            DetailModel::Url(url) => seq![
                CellModel {
                    text: if url is Some {
                        URL_MARK@
                    } else {
                        "━━"@
                    },
                    paint: Some(Paint::DarkBlue),
                    ..CellModel::plain(Seq::empty())
                },
            ],
            DetailModel::Notes(notes) => seq![
                CellModel {
                    text: match notes {
                        Some(text) => text,
                        None => "-"@,
                    },
                    alignment: Some(Alignment::Left),
                    ..CellModel::plain(Seq::empty())
                },
            ],
            DetailModel::Summary { category, status } => seq![
                CellModel {
                    paint: Some(category.color_of()),
                    ..CellModel::plain(category.name_text())
                },
                CellModel {
                    paint: if status == Status::Done {
                        Some(Paint::Green)
                    } else {
                        None
                    },
                    italic: status == Status::Pending,
                    ..CellModel::plain(status.label_text())
                },
            ],
        }
    }
}

impl RowModel {
    /// The cells of a row: the id in decimal; the title, set to the left,
    /// and white and bold where the bookmark is pending; and the cells of
    /// the detail.
    pub open spec fn cells(self) -> Seq<CellModel> {
        seq![
            CellModel::plain(numeral(self.id as nat)),
            CellModel {
                paint: if self.pending {
                    Some(Paint::White)
                } else {
                    None
                },
                bold: self.pending,
                alignment: Some(Alignment::Left),
                ..CellModel::plain(self.title)
            },
        ] + self.detail.cells()
    }
}

impl ColumnModel {
    /// The cell that heads the column: its heading, yellow and bold.
    pub open spec fn heading(self) -> CellModel {
        CellModel { paint: Some(Paint::Yellow), bold: true, ..CellModel::plain(self.header) }
    }
}

impl Column {
    /// The cell that heads the column: its heading, yellow and bold.
    pub fn heading(&self) -> (cell: CellSpec)
        ensures
            cell@ == self@.heading(),
    {
        CellSpec {
            text: self.header.to_owned(),
            paint: Some(Paint::Yellow),
            bold: true,
            italic: false,
            alignment: None,
        }
    }
}

/// The picture of each cell of a list, in the list's order.
pub open spec fn cell_models(cells: Seq<CellSpec>) -> Seq<CellModel> {
    Seq::new(cells.len(), |i: int| cells[i]@)
}

impl Row {
    /// The cells of the row, from left to right (see [`RowModel::cells`]).
    pub fn cells(&self) -> (cells: Vec<CellSpec>)
        ensures
            cell_models(cells@) == self@.cells(),
    {
        let mut cells: Vec<CellSpec> = Vec::new();
        cells.push(
            CellSpec {
                text: decimal(self.id),
                paint: None,
                bold: false,
                italic: false,
                alignment: None,
            },
        );
        cells.push(
            CellSpec {
                text: self.title.clone(),
                paint: if self.pending {
                    Some(Paint::White)
                } else {
                    None
                },
                bold: self.pending,
                italic: false,
                alignment: Some(Alignment::Left),
            },
        );
        match &self.detail {
            Detail::Url(url) => {
                cells.push(
                    CellSpec {
                        text: if url.is_some() {
                            URL_MARK.to_owned()
                        } else {
                            "━━".to_owned()
                        },
                        paint: Some(Paint::DarkBlue),
                        bold: false,
                        italic: false,
                        alignment: None,
                    },
                );
            },
            Detail::Notes(notes) => {
                cells.push(
                    CellSpec {
                        text: match notes {
                            Some(text) => text.clone(),
                            None => "-".to_owned(),
                        },
                        paint: None,
                        bold: false,
                        italic: false,
                        alignment: Some(Alignment::Left),
                    },
                );
            },
            Detail::Summary { category, status } => {
                cells.push(
                    CellSpec {
                        text: category.name().to_owned(),
                        paint: Some(category.color()),
                        bold: false,
                        italic: false,
                        alignment: None,
                    },
                );
                cells.push(
                    CellSpec {
                        text: status.label().to_owned(),
                        paint: if *status == Status::Done {
                            Some(Paint::Green)
                        } else {
                            None
                        },
                        bold: false,
                        italic: *status == Status::Pending,
                        alignment: None,
                    },
                );
            },
        }
        cells
    }
}

/// One page of a listing.
#[derive(Debug)]
pub struct Listing {
    pub rows: Vec<Row>,
    /// The number of this page, counted from 1.
    pub page: usize,
    pub total_pages: usize,
}

/// A [`Listing`] with its rows as a sequence.
pub struct ListingModel {
    pub rows: Seq<RowModel>,
    pub page: usize,
    pub total_pages: usize,
}

impl View for Listing {
    type V = ListingModel;

    open spec fn view(&self) -> ListingModel {
        ListingModel {
            rows: Seq::new(self.rows@.len(), |i: int| self.rows@[i]@),
            page: self.page,
            total_pages: self.total_pages,
        }
    }
}

/// What a listing comes to.
#[derive(Debug)]
pub enum ListOutcome {
    /// The store holds no bookmark at all.
    Empty,
    /// The page holds no row.
    NothingFound,
    /// The rows of the page.
    Page(Listing),
}

/// A [`ListOutcome`] with its page as a [`ListingModel`].
pub enum ListOutcomeModel {
    Empty,
    NothingFound,
    Page(ListingModel),
}

impl View for ListOutcome {
    type V = ListOutcomeModel;

    open spec fn view(&self) -> ListOutcomeModel {
        match *self {
            ListOutcome::Empty => ListOutcomeModel::Empty,
            ListOutcome::NothingFound => ListOutcomeModel::NothingFound,
            ListOutcome::Page(listing) => ListOutcomeModel::Page(listing@),
        }
    }
}

impl ListOutcomeModel {
    /// The line that a listing ends with: for a page, which page of how
    /// many it is; else, why there is nothing to show.
    pub open spec fn notice(self) -> Seq<char> {
        match self {
            ListOutcomeModel::Empty => "You have no bookmarks yet..."@,
            ListOutcomeModel::NothingFound => "No bookmarks found."@,
            ListOutcomeModel::Page(listing) => "Showing page "@ + numeral(listing.page as nat)
                + " out of "@ + numeral(listing.total_pages as nat)
                + " (specify with -p <num>)"@,
        }
    }
}

impl ListOutcome {
    /// The line that a listing ends with (see [`ListOutcomeModel::notice`]).
    pub fn notice(&self) -> (line: String)
        ensures
            line@ == self@.notice(),
    {
        match self {
            ListOutcome::Empty => "You have no bookmarks yet...".to_owned(),
            ListOutcome::NothingFound => "No bookmarks found.".to_owned(),
            ListOutcome::Page(listing) => {
                let mut line = "Showing page ".to_owned();
                line.append(decimal(listing.page).as_str());
                line.append(" out of ");
                line.append(decimal(listing.total_pages).as_str());
                line.append(" (specify with -p <num>)");
                line
            },
        }
    }
}

/// How the text of a column is set.
#[derive(Debug, Clone, Copy, PartialEq, Eq, Structural)]
pub enum Alignment {
    Left,
    Center,
}

/// One column of the table of a listing: its heading, its width in
/// characters, and how its text is set, where the table's own way is not
/// meant.
#[derive(Debug, Clone, Copy)]
pub struct Column {
    pub header: &'static str,
    pub width: u16,
    pub alignment: Option<Alignment>,
}

/// A [`Column`] with its heading as a sequence of characters.
pub struct ColumnModel {
    pub header: Seq<char>,
    pub width: u16,
    pub alignment: Option<Alignment>,
}

impl View for Column {
    type V = ColumnModel;

    open spec fn view(&self) -> ColumnModel {
        ColumnModel { header: self.header@, width: self.width, alignment: self.alignment }
    }
}

/// The columns of a view: the id, the name, and what the view is about.
/// The name is set to the left, but in the middle in the view of notes;
/// every column behind it is set in the middle.
pub open spec fn columns_of(fields: Option<ListFields>) -> Seq<ColumnModel> {
    let id = ColumnModel { header: "ID"@, width: 5, alignment: None };
    match fields {
        Some(ListFields::Urls) => seq![
            id,
            ColumnModel { header: "name"@, width: 65, alignment: Some(Alignment::Left) },
            ColumnModel { header: "url"@, width: 6, alignment: Some(Alignment::Center) },
        ],
        Some(ListFields::Notes) => seq![
            id,
            ColumnModel { header: "name"@, width: 21, alignment: Some(Alignment::Center) },
            ColumnModel { header: "notes"@, width: 50, alignment: Some(Alignment::Center) },
        ],
        _ => seq![
            id,
            ColumnModel { header: "name"@, width: 50, alignment: Some(Alignment::Left) },
            ColumnModel { header: "category"@, width: 10, alignment: Some(Alignment::Center) },
            ColumnModel { header: "status"@, width: 10, alignment: Some(Alignment::Center) },
        ],
    }
}

/// The columns of the table of a view (see [`columns_of`]).
pub fn columns(fields: Option<ListFields>) -> (columns: Vec<Column>)
    ensures
        Seq::new(columns@.len(), |i: int| columns@[i]@) == columns_of(fields),
{
    let mut columns: Vec<Column> = Vec::new();
    columns.push(Column { header: "ID", width: 5, alignment: None });
    match fields {
        Some(ListFields::Urls) => {
            columns.push(Column { header: "name", width: 65, alignment: Some(Alignment::Left) });
            columns.push(Column { header: "url", width: 6, alignment: Some(Alignment::Center) });
        },
        Some(ListFields::Notes) => {
            columns.push(
                Column { header: "name", width: 21, alignment: Some(Alignment::Center) },
            );
            columns.push(
                Column { header: "notes", width: 50, alignment: Some(Alignment::Center) },
            );
        },
        _ => {
            columns.push(Column { header: "name", width: 50, alignment: Some(Alignment::Left) });
            columns.push(
                Column { header: "category", width: 10, alignment: Some(Alignment::Center) },
            );
            columns.push(
                Column { header: "status", width: 10, alignment: Some(Alignment::Center) },
            );
        },
    }
    columns
}

/// The page size that a configuration asks for.
pub open spec fn page_size(page_by: Option<usize>) -> usize {
    match page_by {
        Some(size) => size,
        None => DEFAULT_PAGE_SIZE,
    }
}

/// Page `page` of the bookmarks that a listing shows: the rows at the
/// positions from [`page_start`] up to [`page_end`], with the number of the
/// page and the number of pages. A page that starts at or behind the end is
/// not found. With pages of size 0 a page that is found holds nothing.
pub open spec fn page_of(
    shown: Seq<BookmarkModel>,
    fields: Option<ListFields>,
    page: Option<usize>,
    size: usize,
) -> Result<ListOutcomeModel, ErrorModel> {
    let number = page_number(page);
    let start = page_start(number, size as int);
    let end = page_end(number, size as int, shown.len() as int);
    if start >= shown.len() {
        Err(ErrorModel::PageNotFound(number as usize))
    } else if size == 0 {
        Ok(ListOutcomeModel::NothingFound)
    } else {
        Ok(
            ListOutcomeModel::Page(
                ListingModel {
                    rows: rows_of(shown.subrange(start, end), fields),
                    page: number as usize,
                    total_pages: total_pages(shown.len() as int, size as int) as usize,
                },
            ),
        )
    }
}

fn copy_of(text: &Option<String>) -> (copy: Option<String>)
    ensures
        text_of(copy) == text_of(*text),
{
    match text {
        Some(t) => Some(t.clone()),
        None => None,
    }
}

fn row(bookmark: &Bookmark, fields: Option<ListFields>) -> (row: Row)
    ensures
        row@ == row_of(bookmark@, fields),
{
    let detail = match fields {
        Some(ListFields::Urls) => Detail::Url(copy_of(&bookmark.url)),
        Some(ListFields::Notes) => Detail::Notes(copy_of(&bookmark.notes)),
        _ => Detail::Summary { category: bookmark.category, status: bookmark.status },
    };
    Row {
        id: bookmark.id,
        title: bookmark.title.clone(),
        pending: bookmark.status == Status::Pending,
        detail,
    }
}

impl BookmarkStore {
    /// Lists the bookmarks: returns the rows of the page asked for, out of
    /// the bookmarks that the listing shows (see [`passes`] and
    /// [`page_of`]). The store is as it was, whatever comes of the listing.
    ///
    /// A store without bookmarks gives [`ListOutcome::Empty`] whatever is
    /// asked for. A category name that is none fails with that name. The
    /// page size is the configured one, or [`DEFAULT_PAGE_SIZE`].
    pub fn list(&mut self, args: ListArgs, config: &Config) -> (outcome: Result<
        ListOutcome,
        Error,
    >)
        ensures
            *final(self) == *old(self),
            old(self).bookmarks.len() == 0 ==> outcome matches Ok(ListOutcome::Empty),
            old(self).bookmarks.len() > 0 ==> match category_choice(args.category) {
                Err(error) => fails_with(outcome, error),
                Ok(category) => match page_of(
                    old(self)@.bookmarks.filter(
                        listed(args.fields, category, text_of(args.tag), args.all),
                    ),
                    args.fields,
                    args.page,
                    page_size(config.page_by),
                ) {
                    Ok(expected) => outcome matches Ok(found) && found@ == expected,
                    Err(error) => fails_with(outcome, error),
                },
            },
    {
        if self.bookmarks.len() == 0 {
            return Ok(ListOutcome::Empty);
        }
        let category = match &args.category {
            Some(name) => match Category::parse(name.as_str()) {
                Ok(category) => Some(category),
                Err(error) => {
                    return Err(error);
                },
            },
            None => None,
        };
        let positions = shown_positions(
            &self.bookmarks,
            args.fields,
            category,
            &args.tag,
            args.all,
        );
        let size: usize = match config.page_by {
            Some(size) => size,
            None => DEFAULT_PAGE_SIZE,
        };
        let window = match paginate(positions.len(), args.page, size) {
            Ok(window) => window,
            Err(error) => {
                return Err(error);
            },
        };
        if size == 0 {
            return Ok(ListOutcome::NothingFound);
        }
        let ghost shown = picked(self@.bookmarks, positions@);
        let mut rows: Vec<Row> = Vec::new();
        let mut k: usize = window.start;
        while k < window.end
            invariant
                window.start <= k <= window.end <= positions.len(),
                forall|i: int|
                    0 <= i < positions.len() ==> (#[trigger] positions[i]) < self.bookmarks.len(),
                shown == picked(self@.bookmarks, positions@),
                rows.len() == k - window.start,
                forall|j: int|
                    0 <= j < rows.len() ==> (#[trigger] rows[j])@ == row_of(
                        shown[window.start + j],
                        args.fields,
                    ),
            decreases window.end - k,
        {
            rows.push(row(&self.bookmarks[positions[k]], args.fields));
            k += 1;
        }
        let listing = Listing { rows, page: window.page, total_pages: window.total_pages };
        assert(listing@.rows =~= rows_of(
            shown.subrange(window.start as int, window.end as int),
            args.fields,
        ));
        Ok(ListOutcome::Page(listing))
    }
}

} // verus!
