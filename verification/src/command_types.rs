//! The values that a command takes: the closed sets of categories, states
//! and views, the two ways to name a bookmark, and the arguments of each
//! command.

use vstd::prelude::*;
use crate::errors::{fails_with, Error, ErrorModel};
use crate::text::{decimal_usize, lemma_numeral_value, lowercase, lowercased, numeral, parse_usize};

verus! {

/// How far the reader has come with a bookmark.
#[derive(Debug, Clone, Copy, PartialEq, Eq, Structural)]
pub enum Status {
    /// Nothing was said of it.
    Unset,
    Pending,
    Done,
}

impl Default for Status {
    fn default() -> (status: Status)
        ensures
            status == Status::Unset,
    {
        Status::Unset
    }
}

impl Status {
    /// The text that a listing shows for the status.
    pub open spec fn label_text(self) -> Seq<char> {
        match self {
            Status::Unset => "━━"@,
            Status::Pending => "pending"@,
            Status::Done => "DONE"@,
        }
    }

    /// The text that a listing shows for the status.
    pub fn label(&self) -> (text: &'static str)
        ensures
            text@ == self.label_text(),
    {
        match self {
            Status::Unset => "━━",
            Status::Pending => "pending",
            Status::Done => "DONE",
        }
    }
}

/// The colours of a listing.
#[derive(Debug, Clone, Copy, PartialEq, Eq, Structural)]
pub enum Paint {
    Green,
    Magenta,
    Blue,
    DarkBlue,
    Red,
    /// A colour of the terminal's palette of 256, by its number.
    AnsiValue(u8),
    Yellow,
    White,
}

/// What kind of thing a bookmark points to.
#[derive(Debug, Clone, Copy, PartialEq, Eq, Structural)]
pub enum Category {
    Book,
    Article,
    Topic,
    Project,
    Tool,
    Course,
    Other,
}

impl Default for Category {
    fn default() -> (category: Category)
        ensures
            category == Category::Other,
    {
        Category::Other
    }
}

impl Category {
    /// The name of the category, in lower case.
    pub open spec fn name_text(self) -> Seq<char> {
        match self {
            Category::Book => "book"@,
            Category::Article => "article"@,
            Category::Topic => "topic"@,
            Category::Project => "project"@,
            Category::Tool => "tool"@,
            Category::Course => "course"@,
            Category::Other => "other"@,
        }
    }

    /// The category that a lower-case name stands for, if it is the name of
    /// one.
    pub open spec fn named(name: Seq<char>) -> Option<Category> {
        if name == Category::Book.name_text() {
            Some(Category::Book)
        } else if name == Category::Article.name_text() {
            Some(Category::Article)
        } else if name == Category::Topic.name_text() {
            Some(Category::Topic)
        } else if name == Category::Project.name_text() {
            Some(Category::Project)
        } else if name == Category::Tool.name_text() {
            Some(Category::Tool)
        } else if name == Category::Course.name_text() {
            Some(Category::Course)
        } else if name == Category::Other.name_text() {
            Some(Category::Other)
        } else {
            None
        }
    }

    /// The name of the category, in lower case.
    pub fn name(&self) -> (text: &'static str)
        ensures
            text@ == self.name_text(),
    {
        match self {
            Category::Book => "book",
            Category::Article => "article",
            Category::Topic => "topic",
            Category::Project => "project",
            Category::Tool => "tool",
            Category::Course => "course",
            Category::Other => "other",
        }
    }

    /// The colour in which a listing shows the category.
    pub open spec fn color_of(self) -> Paint {
        match self {
            Category::Book => Paint::Green,
            Category::Article => Paint::Magenta,
            Category::Topic => Paint::Blue,
            Category::Project => Paint::Red,
            Category::Tool => Paint::AnsiValue(5),
            Category::Course => Paint::Yellow,
            Category::Other => Paint::White,
        }
    }

    /// The colour in which a listing shows the category.
    pub fn color(&self) -> (paint: Paint)
        ensures
            paint == self.color_of(),
    {
        match self {
            Category::Book => Paint::Green,
            Category::Article => Paint::Magenta,
            Category::Topic => Paint::Blue,
            Category::Project => Paint::Red,
            Category::Tool => Paint::AnsiValue(5),
            Category::Course => Paint::Yellow,
            Category::Other => Paint::White,
        }
    }

    /// The category with the lower-case name `name`.
    pub fn from_name(name: &str) -> (found: Option<Category>)
        ensures
            found == Category::named(name@),
    {
        let name = name.to_owned();
        if name == Category::Book.name().to_owned() {
            Some(Category::Book)
        } else if name == Category::Article.name().to_owned() {
            Some(Category::Article)
        } else if name == Category::Topic.name().to_owned() {
            Some(Category::Topic)
        } else if name == Category::Project.name().to_owned() {
            Some(Category::Project)
        } else if name == Category::Tool.name().to_owned() {
            Some(Category::Tool)
        } else if name == Category::Course.name().to_owned() {
            Some(Category::Course)
        } else if name == Category::Other.name().to_owned() {
            Some(Category::Other)
        } else {
            None
        }
    }

    /// Reads a category from its name, in any mix of upper and lower case.
    /// A text that names none is returned in the error.
    pub fn parse(text: &str) -> (outcome: Result<Category, Error>)
        ensures
            match Category::named(lowercased(text@)) {
                Some(category) => outcome == Ok::<Category, Error>(category),
                None => fails_with(outcome, ErrorModel::CategoryParseError(text@)),
            },
    {
        let lower = lowercase(text);
        match Category::from_name(lower.as_str()) {
            Some(category) => Ok(category),
            None => Err(Error::CategoryParseError(text.to_owned())),
        }
    }
}

impl std::str::FromStr for Category {
    type Err = Error;

    fn from_str(text: &str) -> (outcome: Result<Category, Error>)
        ensures
            match Category::named(lowercased(text@)) {
                Some(category) => outcome == Ok::<Category, Error>(category),
                None => fails_with(outcome, ErrorModel::CategoryParseError(text@)),
            },
    {
        Category::parse(text)
    }
}

/// The views of a listing that show one field in place of the summary.
#[derive(Debug, Clone, Copy, PartialEq, Eq, Structural)]
pub enum ListFields {
    Urls,
    Notes,
    Hidden,
}

/// The styles in which a table can be drawn.
#[derive(Debug, Clone, Copy, PartialEq, Eq, Structural)]
pub enum TableStyle {
    AsciiFull,
    AsciiFullCondensed,
    AsciiNoBorders,
    AsciiBordersOnly,
    AsciiBordersOnlyCondensed,
    AsciiHorizontalOnly,
    AsciiMarkdown,
    Utf8Full,
    Utf8FullCondensed,
    Utf8NoBorders,
    Utf8BordersOnly,
    Utf8HorizontalOnly,
    Nothing,
}

/// The two ways to name a bookmark: by its id, or by a text that its title
/// resembles.
#[derive(Debug)]
pub enum SearchQuery {
    Id(usize),
    Query(String),
}

/// A [`SearchQuery`] with its text as a sequence of characters.
pub enum SearchQueryModel {
    Id(usize),
    Query(Seq<char>),
}

impl View for SearchQuery {
    type V = SearchQueryModel;

    open spec fn view(&self) -> SearchQueryModel {
        match *self {
            SearchQuery::Id(id) => SearchQueryModel::Id(id),
            SearchQuery::Query(text) => SearchQueryModel::Query(text@),
        }
    }
}

impl Clone for SearchQuery {
    fn clone(&self) -> (copy: SearchQuery)
        ensures
            copy@ == self@,
    {
        match self {
            SearchQuery::Id(id) => SearchQuery::Id(*id),
            SearchQuery::Query(text) => SearchQuery::Query(text.clone()),
        }
    }
}

impl SearchQuery {
    /// What a text names: the id that it writes in decimal, or else the
    /// text itself as a query.
    pub open spec fn parsed(text: Seq<char>) -> SearchQueryModel {
        match decimal_usize(text) {
            Some(id) => SearchQueryModel::Id(id),
            None => SearchQueryModel::Query(text),
        }
    }

    /// Reads an argument that names a bookmark. A decimal number is an id;
    /// any other text is a query.
    pub fn parse(text: &str) -> (query: SearchQuery)
        ensures
            query@ == SearchQuery::parsed(text@),
    {
        match parse_usize(text) {
            Some(id) => SearchQuery::Id(id),
            None => SearchQuery::Query(text.to_owned()),
        }
    }
}

/// The decimal numeral of an id names that id: what a message shows as an
/// id can be given back as an argument.
pub proof fn lemma_numeral_names_id(id: usize)
    ensures
        SearchQuery::parsed(numeral(id as nat)) == SearchQueryModel::Id(id),
{
    lemma_numeral_value(id as nat);
}

impl std::str::FromStr for SearchQuery {
    type Err = String;

    fn from_str(text: &str) -> (outcome: Result<SearchQuery, String>)
        ensures
            outcome matches Ok(query) && query@ == SearchQuery::parsed(text@),
    {
        Ok(SearchQuery::parse(text))
    }
}

/// What a new bookmark is made of.
#[derive(Debug)]
pub struct AddArgs {
    pub title: String,
    pub url: Option<String>,
    pub category: Option<Category>,
    pub tags: Option<Vec<String>>,
    pub notes: Option<String>,
    pub status: Option<Status>,
    pub hidden: bool,
}

/// What a listing shows.
#[derive(Debug)]
pub struct ListArgs {
    /// Only the bookmarks of the category with this name.
    pub category: Option<String>,
    /// Only the bookmarks that carry this tag.
    pub tag: Option<String>,
    /// The page to show, counted from 1.
    pub page: Option<usize>,
    /// Also the bookmarks that are done or hidden.
    pub all: bool,
    /// The view.
    pub fields: Option<ListFields>,
}

/// The bookmarks to remove.
#[derive(Debug)]
pub struct RemoveArgs {
    pub list: Vec<SearchQuery>,
}

/// The bookmark to change, and the new value of each field to change.
#[derive(Debug)]
pub struct EditArgs {
    pub query: SearchQuery,
    pub title: Option<String>,
    pub url: Option<String>,
    pub notes: Option<String>,
    pub category: Option<Category>,
    pub status: Option<Status>,
    pub hidden: Option<bool>,
    pub tags: Option<Vec<String>>,
}

/// The bookmark to mark as done.
#[derive(Debug)]
pub struct DoneArgs {
    pub query: SearchQuery,
}

/// The bookmark whose URL is to be opened.
#[derive(Debug)]
pub struct OpenArgs {
    pub query: SearchQuery,
}

/// The bookmark whose URL is to be copied.
#[derive(Debug)]
pub struct CopyUrlArgs {
    pub query: SearchQuery,
}

/// The settings to change.
#[derive(Debug)]
pub struct ConfigArgs {
    /// Where the collection is to be kept from now on.
    pub save_location: Option<String>,
    pub table_style: Option<TableStyle>,
    /// How many bookmarks a page of a listing holds.
    pub page_by: Option<usize>,
}

impl ConfigArgs {
    /// Refuses a change that names nothing to change.
    pub fn validate(&self) -> (outcome: Result<(), Error>)
        ensures
            self.save_location is None && self.table_style is None && self.page_by is None
                ==> fails_with(outcome, ErrorModel::NoConfigArgs),
            self.save_location is Some || self.table_style is Some || self.page_by is Some
                ==> outcome is Ok,
    {
        if self.save_location.is_none() && self.table_style.is_none() && self.page_by.is_none() {
            return Err(Error::NoConfigArgs);
        }
        Ok(())
    }
}

} // verus!
