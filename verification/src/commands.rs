//! The commands on the store: finding the bookmark that a command names,
//! and adding, changing, marking and removing bookmarks.

use vstd::prelude::*;
use crate::command_types::{
    AddArgs,
    Category,
    ConfigArgs,
    CopyUrlArgs,
    DoneArgs,
    EditArgs,
    OpenArgs,
    RemoveArgs,
    SearchQuery,
    SearchQueryModel,
    Status,
};
use crate::config::{
    config_change,
    ends_with,
    follows,
    join_path,
    lemma_file_names,
    Config,
    ConfigArgsModel,
    Relocation,
    DATA_FILE,
};
use crate::data::{
    text_of,
    texts_of,
    Bookmark,
    BookmarkModel,
    BookmarkStore,
    StoreModel,
    Timestamp,
};
use crate::errors::{fails_with, Error, ErrorModel};
use crate::text::{
    decimal,
    lowercase,
    lowercased,
    numeral,
    short_title,
    short_title_text,
    trim,
    trimmed,
};
use crate::utils::{best_title, fuzz};

verus! {

/// Reads the clock: takes the moment from std's `SystemTime::now`, has
/// chrono make a `DateTime<Utc>` of it (its `From<SystemTime>`, which also
/// takes a clock that stands before 1970), and takes the result apart with
/// `DateTime::timestamp` and `DateTime::timestamp_subsec_nanos`. Nothing is
/// claimed of the moment that comes back.
#[verifier::external_body]
fn now() -> (moment: Timestamp) {
    let now = chrono::DateTime::<chrono::Utc>::from(std::time::SystemTime::now());
    Timestamp { secs: now.timestamp(), nanos: now.timestamp_subsec_nanos() }
}

/// Whether position `i` holds the first bookmark with the id `id`.
pub open spec fn is_first_with_id(bookmarks: Seq<BookmarkModel>, id: usize, i: int) -> bool {
    &&& 0 <= i < bookmarks.len()
    &&& bookmarks[i].id == id
    &&& forall|j: int| 0 <= j < i ==> (#[trigger] bookmarks[j]).id != id
}

/// The position of the first bookmark with the id `id`, or `None` where no
/// bookmark has it.
pub open spec fn position_of_id(bookmarks: Seq<BookmarkModel>, id: usize) -> Option<int> {
    if exists|i: int| is_first_with_id(bookmarks, id, i) {
        Some(choose|i: int| is_first_with_id(bookmarks, id, i))
    } else {
        None
    }
}

/// The position of the bookmark that a query names: for an id, the first
/// bookmark with that id; for a text, the bookmark whose title matches it
/// best. Where there is none, the failure says what was looked for.
pub open spec fn resolved(bookmarks: Seq<BookmarkModel>, query: SearchQueryModel) -> Result<
    int,
    ErrorModel,
> {
    match query {
        SearchQueryModel::Id(id) => match position_of_id(bookmarks, id) {
            Some(position) => Ok(position),
            None => Err(ErrorModel::IDNotFound(id)),
        },
        SearchQueryModel::Query(text) => match best_title(text, bookmarks) {
            Some(position) => Ok(position),
            None => Err(ErrorModel::QueryNotFound(text)),
        },
    }
}

/// Looking a bookmark up by an id that some bookmark has finds a bookmark
/// with that id; looking one up by an id that none has fails with that id.
pub proof fn lemma_resolve_id(bookmarks: Seq<BookmarkModel>, id: usize)
    ensures
        (exists|i: int| 0 <= i < bookmarks.len() && (#[trigger] bookmarks[i]).id == id) ==> (
        resolved(bookmarks, SearchQueryModel::Id(id)) matches Ok(p) && 0 <= p < bookmarks.len()
            && bookmarks[p].id == id),
        (forall|i: int| 0 <= i < bookmarks.len() ==> (#[trigger] bookmarks[i]).id != id)
            ==> resolved(bookmarks, SearchQueryModel::Id(id)) == Err::<int, ErrorModel>(
            ErrorModel::IDNotFound(id),
        ),
{
    if exists|i: int| 0 <= i < bookmarks.len() && (#[trigger] bookmarks[i]).id == id {
        let some = choose|i: int| 0 <= i < bookmarks.len() && (#[trigger] bookmarks[i]).id == id;
        lemma_first_with_id_exists(bookmarks, id, some);
    }
}

/// Where position `i` holds the id, some position at or before it is the
/// first to hold it.
proof fn lemma_first_with_id_exists(bookmarks: Seq<BookmarkModel>, id: usize, i: int)
    requires
        0 <= i < bookmarks.len(),
        bookmarks[i].id == id,
    ensures
        exists|f: int| is_first_with_id(bookmarks, id, f),
    decreases i,
{
    if exists|j: int| 0 <= j < i && (#[trigger] bookmarks[j]).id == id {
        let j = choose|j: int| 0 <= j < i && (#[trigger] bookmarks[j]).id == id;
        lemma_first_with_id_exists(bookmarks, id, j);
    } else {
        assert(is_first_with_id(bookmarks, id, i));
    }
}

/// The bookmark that `add` makes of its arguments: a category that is not
/// given is `Other`, a status that is not given is unset.
pub open spec fn entry_of(args: AddArgs, id: usize, created_at: Timestamp) -> BookmarkModel {
    BookmarkModel {
        id,
        title: args.title@,
        category: match args.category {
            Some(category) => category,
            None => Category::Other,
        },
        url: text_of(args.url),
        tags: texts_of(args.tags),
        notes: text_of(args.notes),
        status: match args.status {
            Some(status) => status,
            None => Status::Unset,
        },
        hidden: args.hidden,
        created_at,
    }
}

/// The bookmarks with their positions as ids.
pub open spec fn renumbered(bookmarks: Seq<BookmarkModel>) -> Seq<BookmarkModel> {
    Seq::new(bookmarks.len(), |i: int| BookmarkModel { id: i as usize, ..bookmarks[i] })
}

/// Whether an edit names a field to change.
pub open spec fn names_a_field(args: EditArgs) -> bool {
    ||| args.category is Some
    ||| args.hidden is Some
    ||| args.notes is Some
    ||| args.status is Some
    ||| args.tags is Some
    ||| args.title is Some
    ||| args.url is Some
}

/// A bookmark after an edit: of the fields that the edit names, the first
/// one in the order category, hidden, notes, status, tags, title, URL has
/// its new value, and every other field is as it was.
pub open spec fn edited(bookmark: BookmarkModel, args: EditArgs) -> BookmarkModel {
    if let Some(category) = args.category {
        BookmarkModel { category, ..bookmark }
    } else if let Some(hidden) = args.hidden {
        BookmarkModel { hidden, ..bookmark }
    } else if let Some(notes) = args.notes {
        BookmarkModel { notes: Some(notes@), ..bookmark }
    } else if let Some(status) = args.status {
        BookmarkModel { status, ..bookmark }
    } else if args.tags is Some {
        BookmarkModel { tags: texts_of(args.tags), ..bookmark }
    } else if let Some(title) = args.title {
        BookmarkModel { title: title@, ..bookmark }
    } else if let Some(url) = args.url {
        BookmarkModel { url: Some(url@), ..bookmark }
    } else {
        bookmark
    }
}

/// An edit that names a title and a URL and nothing before them changes the
/// title, and leaves the URL as it was.
pub proof fn lemma_edit_title_before_url(bookmark: BookmarkModel, args: EditArgs)
    requires
        args.category is None,
        args.hidden is None,
        args.notes is None,
        args.status is None,
        args.tags is None,
        args.title is Some,
        args.url is Some,
    ensures
        edited(bookmark, args) == (BookmarkModel { title: args.title->0@, ..bookmark }),
        edited(bookmark, args).url == bookmark.url,
{
}

/// The URL of the bookmark that a query names. Where the bookmark has none,
/// the failure gives the bookmark's id.
pub open spec fn url_of(bookmarks: Seq<BookmarkModel>, query: SearchQueryModel) -> Result<
    Seq<char>,
    ErrorModel,
> {
    match resolved(bookmarks, query) {
        Ok(position) => match bookmarks[position].url {
            Some(url) => Ok(url),
            None => Err(ErrorModel::NoUrl(bookmarks[position].id)),
        },
        Err(error) => Err(error),
    }
}

/// How far the removal of some bookmarks has come: the bookmarks to remove,
/// how many of them were dealt with, and the position of the bookmark whose
/// removal waits for the user's consent, if one does.
#[derive(Debug)]
pub struct Removal {
    pub targets: Vec<SearchQuery>,
    pub handled: usize,
    pub awaiting: Option<usize>,
}

/// A [`Removal`] with its queries as [`SearchQueryModel`]s.
pub struct RemovalModel {
    pub targets: Seq<SearchQueryModel>,
    pub handled: usize,
    pub awaiting: Option<usize>,
}

/// The picture of each query of a list, in the list's order.
pub open spec fn queries(list: Seq<SearchQuery>) -> Seq<SearchQueryModel> {
    Seq::new(list.len(), |i: int| list[i]@)
}

impl View for Removal {
    type V = RemovalModel;

    open spec fn view(&self) -> RemovalModel {
        RemovalModel {
            targets: queries(self.targets@),
            handled: self.handled,
            awaiting: self.awaiting,
        }
    }
}

impl Removal {
    /// The removal of the bookmarks that `args` names, before its first
    /// step.
    pub fn new(args: RemoveArgs) -> (removal: Removal)
        ensures
            removal@ == (RemovalModel {
                targets: queries(args.list@),
                handled: 0,
                awaiting: None,
            }),
    {
        Removal { targets: args.list, handled: 0, awaiting: None }
    }
}

/// What the caller of a step of a removal is to do next.
#[derive(Debug)]
pub enum RemoveAction {
    /// Report that the bookmark at `position`, with this title, is gone.
    Removed { position: usize, title: String },
    /// Ask whether the bookmark at `position`, with this title, is to go,
    /// and hand the answer to the next step.
    Confirm { position: usize, title: String },
    /// Nothing: every bookmark was dealt with, and the ids are in order.
    Finished,
}

/// A [`RemoveAction`] with its title as a sequence of characters.
pub enum RemoveActionModel {
    Removed { position: usize, title: Seq<char> },
    Confirm { position: usize, title: Seq<char> },
    Finished,
}

impl View for RemoveAction {
    type V = RemoveActionModel;

    open spec fn view(&self) -> RemoveActionModel {
        match *self {
            RemoveAction::Removed { position, title } => RemoveActionModel::Removed {
                position,
                title: title@,
            },
            RemoveAction::Confirm { position, title } => RemoveActionModel::Confirm {
                position,
                title: title@,
            },
            RemoveAction::Finished => RemoveActionModel::Finished,
        }
    }
}

impl RemoveActionModel {
    /// What the user is told or asked: that the bookmark is gone, with its
    /// position and title; or whether the bookmark with this title is to
    /// go. A finished removal says nothing.
    pub open spec fn message(self) -> Option<Seq<char>> {
        match self {
            RemoveActionModel::Removed { position, title } => Some(
                "Successfully removed #"@ + numeral(position as nat) + " - "@ + title,
            ),
            RemoveActionModel::Confirm { position, title } => Some(
                "Confirm removing '"@ + title + "' from your bookmarks [y/n] "@,
            ),
            RemoveActionModel::Finished => None,
        }
    }
}

impl RemoveAction {
    /// What the user is told or asked (see [`RemoveActionModel::message`]).
    pub fn message(&self) -> (text: Option<String>)
        ensures
            text_of(text) == self@.message(),
    {
        match self {
            RemoveAction::Removed { position, title } => {
                let mut text = "Successfully removed #".to_owned();
                text.append(decimal(*position).as_str());
                text.append(" - ");
                text.append(title.as_str());
                Some(text)
            },
            RemoveAction::Confirm { position: _, title } => {
                let mut text = "Confirm removing '".to_owned();
                text.append(title.as_str());
                text.append("' from your bookmarks [y/n] ");
                Some(text)
            },
            RemoveAction::Finished => None,
        }
    }
}

/// The sentence that reports a new bookmark, with its id.
pub open spec fn added_text(id: usize) -> Seq<char> {
    "Bookmark with ID #"@ + numeral(id as nat) + " successfully added!"@
}

/// The sentence that reports a new bookmark, with its id.
pub fn added_message(id: usize) -> (text: String)
    ensures
        text@ == added_text(id),
{
    let mut text = "Bookmark with ID #".to_owned();
    text.append(decimal(id).as_str());
    text.append(" successfully added!");
    text
}

/// Whether a reply to a question consents: it is `y` or `Y`, with any white
/// space around it.
pub open spec fn consents(reply: Seq<char>) -> bool {
    lowercased(trimmed(reply)) == seq!['y']
}

/// Whether `answer` is the one letter `y`.
pub fn is_yes(answer: &str) -> (yes: bool)
    ensures
        yes == (answer@ == seq!['y']),
{
    proof {
        reveal_strlit("y");
    }
    assert("y"@ =~= seq!['y']);
    answer.to_owned() == "y".to_owned()
}

/// Whether the user's reply to a question consents (see [`consents`]).
pub fn is_affirmative(reply: &str) -> (yes: bool)
    ensures
        yes == consents(reply@),
{
    let answer = lowercase(trim(reply));
    is_yes(answer.as_str())
}

/// The bookmarks after the user's answer on the bookmark that waited for
/// it: without that bookmark where the user consented, and as they were
/// where the user did not, or where none waited.
pub open spec fn settled(bookmarks: Seq<BookmarkModel>, awaiting: Option<usize>, confirmed: bool)
    -> Seq<BookmarkModel> {
    match awaiting {
        Some(position) => if confirmed && position < bookmarks.len() {
            bookmarks.remove(position as int)
        } else {
            bookmarks
        },
        None => bookmarks,
    }
}

/// The store, the removal and the outcome after one step of a removal.
pub struct RemoveStep {
    pub store: StoreModel,
    pub progress: RemovalModel,
    pub outcome: Result<RemoveActionModel, ErrorModel>,
}

/// One step of a removal. First the user's answer is applied to the
/// bookmark that waited for it (see [`settled`]). Then the next query is
/// dealt with: a bookmark named by its id is removed at once; one named by
/// a text waits for the user's consent; a query that names no bookmark
/// fails. When no query is left, the ids are made the positions, and the
/// removal is finished.
pub open spec fn remove_step(store: StoreModel, progress: RemovalModel, confirmed: bool)
    -> RemoveStep {
    let bookmarks = settled(store.bookmarks, progress.awaiting, confirmed);
    if progress.handled >= progress.targets.len() {
        RemoveStep {
            store: StoreModel {
                next_id: bookmarks.len() as usize,
                bookmarks: renumbered(bookmarks),
            },
            progress: RemovalModel { awaiting: None, ..progress },
            outcome: Ok(RemoveActionModel::Finished),
        }
    } else {
        let query = progress.targets[progress.handled as int];
        let handled = (progress.handled + 1) as usize;
        match resolved(bookmarks, query) {
            Err(error) => RemoveStep {
                store: StoreModel { bookmarks, ..store },
                progress: RemovalModel { handled, awaiting: None, ..progress },
                outcome: Err(error),
            },
            Ok(position) => {
                let title = short_title_text(bookmarks[position].title);
                match query {
                    SearchQueryModel::Id(_) => RemoveStep {
                        store: StoreModel { bookmarks: bookmarks.remove(position), ..store },
                        progress: RemovalModel { handled, awaiting: None, ..progress },
                        outcome: Ok(
                            RemoveActionModel::Removed { position: position as usize, title },
                        ),
                    },
                    SearchQueryModel::Query(_) => RemoveStep {
                        store: StoreModel { bookmarks, ..store },
                        progress: RemovalModel {
                            handled,
                            awaiting: Some(position as usize),
                            ..progress
                        },
                        outcome: Ok(
                            RemoveActionModel::Confirm { position: position as usize, title },
                        ),
                    },
                }
            },
        }
    }
}

/// Renumbered bookmarks have their positions as ids.
pub proof fn lemma_renumbered_is_normalized(bookmarks: Seq<BookmarkModel>)
    requires
        bookmarks.len() <= usize::MAX,
    ensures
        (StoreModel {
            next_id: bookmarks.len() as usize,
            bookmarks: renumbered(bookmarks),
        }).normalized(),
{
}

/// Whatever the store held before: when a removal is finished, each
/// bookmark's id is its position, and the next id is the number of
/// bookmarks.
pub proof fn lemma_finished_removal_is_normalized(
    store: StoreModel,
    progress: RemovalModel,
    confirmed: bool,
)
    requires
        store.bookmarks.len() <= usize::MAX,
        remove_step(store, progress, confirmed).outcome == Ok::<RemoveActionModel, ErrorModel>(
            RemoveActionModel::Finished,
        ),
    ensures
        remove_step(store, progress, confirmed).store.normalized(),
{
}

/// A bookmark added to a store whose ids are the positions gets its
/// position as id, so that the ids still are the positions.
pub proof fn lemma_add_keeps_normalized(store: StoreModel, args: AddArgs, created_at: Timestamp)
    requires
        store.normalized(),
        store.next_id < usize::MAX,
    ensures
        (StoreModel {
            next_id: (store.next_id + 1) as usize,
            bookmarks: store.bookmarks.push(entry_of(args, store.next_id, created_at)),
        }).normalized(),
{
}

impl BookmarkStore {
    /// The position of the first bookmark with the id `id`.
    pub fn position(&self, id: usize) -> (found: Option<usize>)
        ensures
            match found {
                Some(i) => i < self.bookmarks.len() && position_of_id(self@.bookmarks, id) == Some(
                    i as int,
                ),
                None => position_of_id(self@.bookmarks, id) == None::<int>,
            },
    {
        let ghost bookmarks = self@.bookmarks;
        let mut k: usize = 0;
        while k < self.bookmarks.len()
            invariant
                k <= self.bookmarks.len(),
                bookmarks == self@.bookmarks,
                forall|j: int| 0 <= j < k ==> (#[trigger] bookmarks[j]).id != id,
            decreases self.bookmarks.len() - k,
        {
            if self.bookmarks[k].id == id {
                assert(is_first_with_id(bookmarks, id, k as int));
                return Some(k);
            }
            k += 1;
        }
        None
    }

    /// Finds the bookmark that a query names, and returns its position (see
    /// [`resolved`]). Nothing is changed. An id that some bookmark has finds
    /// a bookmark with that id, and an id that none has fails with that id.
    pub fn resolve(&self, query: &SearchQuery) -> (outcome: Result<usize, Error>)
        ensures
            match resolved(self@.bookmarks, query@) {
                Ok(position) => outcome == Ok::<usize, Error>(position as usize) && 0 <= position
                    < self.bookmarks.len(),
                Err(error) => fails_with(outcome, error),
            },
            query@ matches SearchQueryModel::Id(id) ==> match outcome {
                Ok(position) => position < self.bookmarks.len()
                    && self@.bookmarks[position as int].id == id,
                Err(error) => error@ == ErrorModel::IDNotFound(id) && forall|i: int|
                    0 <= i < self.bookmarks.len() ==> (#[trigger] self@.bookmarks[i]).id != id,
            },
    {
        proof {
            if let SearchQueryModel::Id(id) = query@ {
                lemma_resolve_id(self@.bookmarks, id);
            }
        }
        match query {
            SearchQuery::Id(id) => match self.position(*id) {
                Some(position) => Ok(position),
                None => Err(Error::IDNotFound(*id)),
            },
            SearchQuery::Query(text) => match fuzz(text.as_str(), &self.bookmarks) {
                Some(position) => Ok(position),
                None => Err(Error::QueryNotFound(text.clone())),
            },
        }
    }

    /// Appends a bookmark made of `args` and of the moment `created_at`,
    /// gives it the next id, and returns that id.
    pub fn add_at(&mut self, args: AddArgs, created_at: Timestamp) -> (id: usize)
        requires
            old(self).next_id < usize::MAX,
        ensures
            id == old(self).next_id,
            final(self)@ == (StoreModel {
                next_id: (old(self).next_id + 1) as usize,
                bookmarks: old(self)@.bookmarks.push(entry_of(args, id, created_at)),
            }),
    {
        let id = self.next_id;
        let bookmark = Bookmark {
            id,
            title: args.title,
            url: args.url,
            category: match args.category {
                Some(category) => category,
                None => Category::Other,
            },
            tags: args.tags,
            notes: args.notes,
            status: match args.status {
                Some(status) => status,
                None => Status::Unset,
            },
            hidden: args.hidden,
            created_at,
        };
        self.bookmarks.push(bookmark);
        self.next_id = id + 1;
        assert(self@.bookmarks =~= old(self)@.bookmarks.push(entry_of(args, id, created_at)));
        id
    }

    /// Appends a bookmark made of `args` and of the present moment, gives it
    /// the next id, and returns that id.
    pub fn add(&mut self, args: AddArgs) -> (id: usize)
        requires
            old(self).next_id < usize::MAX,
        ensures
            id == old(self).next_id,
            final(self)@.bookmarks.len() == old(self)@.bookmarks.len() + 1,
            final(self)@ == (StoreModel {
                next_id: (old(self).next_id + 1) as usize,
                bookmarks: old(self)@.bookmarks.push(
                    entry_of(args, id, final(self)@.bookmarks.last().created_at),
                ),
            }),
    {
        let created_at = now();
        self.add_at(args, created_at)
    }

    /// Makes the ids the positions: the bookmark at position `i` gets the id
    /// `i`, and the next id is the number of bookmarks.
    pub fn normalize(&mut self)
        ensures
            final(self)@ == (StoreModel {
                next_id: old(self)@.bookmarks.len() as usize,
                bookmarks: renumbered(old(self)@.bookmarks),
            }),
            final(self)@.normalized(),
    {
        let count: usize = self.bookmarks.len();
        let ghost before = self.bookmarks@;
        let mut id: usize = 0;
        while id < count
            invariant
                id <= count,
                self.bookmarks.len() == count,
                before.len() == count,
                forall|j: int|
                    0 <= j < id ==> (#[trigger] self.bookmarks@[j])@ == (BookmarkModel {
                        id: j as usize,
                        ..before[j]@
                    }),
                forall|j: int| id <= j < count ==> (#[trigger] self.bookmarks@[j]) == before[j],
            decreases count - id,
        {
            if self.bookmarks[id].id != id {
                self.bookmarks[id].id = id;
            }
            id += 1;
        }
        self.next_id = count;
        assert(self@.bookmarks =~= renumbered(old(self)@.bookmarks));
    }

    /// Changes one field of the bookmark that `args.query` names (see
    /// [`edited`]). An edit that names no field fails before anything is
    /// looked up.
    pub fn edit(&mut self, args: EditArgs) -> (outcome: Result<(), Error>)
        ensures
            final(self).next_id == old(self).next_id,
            !names_a_field(args) ==> fails_with(outcome, ErrorModel::NoEditSpecified)
                && final(self)@ == old(self)@,
            names_a_field(args) ==> match resolved(old(self)@.bookmarks, args.query@) {
                Ok(position) => outcome is Ok
                    && final(self)@.bookmarks == old(self)@.bookmarks.update(
                    position,
                    edited(old(self)@.bookmarks[position], args),
                ),
                Err(error) => fails_with(outcome, error) && final(self)@ == old(self)@,
            },
    {
        if args.category.is_none() && args.hidden.is_none() && args.notes.is_none()
            && args.status.is_none() && args.tags.is_none() && args.title.is_none()
            && args.url.is_none() {
            return Err(Error::NoEditSpecified);
        }
        let position = match self.resolve(&args.query) {
            Ok(position) => position,
            Err(error) => {
                return Err(error);
            },
        };
        if let Some(category) = args.category {
            self.bookmarks[position].category = category;
        } else if let Some(hidden) = args.hidden {
            self.bookmarks[position].hidden = hidden;
        } else if let Some(notes) = args.notes {
            self.bookmarks[position].notes = Some(notes);
        } else if let Some(status) = args.status {
            self.bookmarks[position].status = status;
        } else if let Some(tags) = args.tags {
            self.bookmarks[position].tags = Some(tags);
        } else if let Some(title) = args.title {
            self.bookmarks[position].title = title;
        } else if let Some(url) = args.url {
            self.bookmarks[position].url = Some(url);
        }
        Ok(())
    }

    /// Marks the bookmark that `args.query` names as done.
    pub fn done(&mut self, args: DoneArgs) -> (outcome: Result<(), Error>)
        ensures
            final(self).next_id == old(self).next_id,
            match resolved(old(self)@.bookmarks, args.query@) {
                Ok(position) => outcome is Ok
                    && final(self)@.bookmarks == old(self)@.bookmarks.update(
                    position,
                    BookmarkModel { status: Status::Done, ..old(self)@.bookmarks[position] },
                ),
                Err(error) => fails_with(outcome, error) && final(self)@ == old(self)@,
            },
    {
        let position = match self.resolve(&args.query) {
            Ok(position) => position,
            Err(error) => {
                return Err(error);
            },
        };
        self.bookmarks[position].status = Status::Done;
        Ok(())
    }

    fn url(&self, query: &SearchQuery) -> (outcome: Result<String, Error>)
        ensures
            match url_of(self@.bookmarks, query@) {
                Ok(url) => outcome matches Ok(found) && found@ == url,
                Err(error) => fails_with(outcome, error),
            },
    {
        let position = match self.resolve(query) {
            Ok(position) => position,
            Err(error) => {
                return Err(error);
            },
        };
        match &self.bookmarks[position].url {
            Some(url) => Ok(url.clone()),
            None => Err(Error::NoUrl(self.bookmarks[position].id)),
        }
    }

    /// The URL to open: that of the bookmark that `args.query` names (see
    /// [`url_of`]).
    pub fn open(&self, args: OpenArgs) -> (outcome: Result<String, Error>)
        ensures
            match url_of(self@.bookmarks, args.query@) {
                Ok(url) => outcome matches Ok(found) && found@ == url,
                Err(error) => fails_with(outcome, error),
            },
    {
        self.url(&args.query)
    }

    /// The URL to copy: that of the bookmark that `args.query` names (see
    /// [`url_of`]).
    pub fn copy_url(&self, args: CopyUrlArgs) -> (outcome: Result<String, Error>)
        ensures
            match url_of(self@.bookmarks, args.query@) {
                Ok(url) => outcome matches Ok(found) && found@ == url,
                Err(error) => fails_with(outcome, error),
            },
    {
        self.url(&args.query)
    }

    /// One step of a removal (see [`remove_step`]). `confirmed` is the
    /// user's answer to the question that the step before asked for; it
    /// counts for nothing where none was asked for. The caller does what the
    /// action says and calls again, until the removal is finished or fails.
    pub fn remove(&mut self, progress: &mut Removal, confirmed: bool) -> (outcome: Result<
        RemoveAction,
        Error,
    >)
        ensures
            final(self)@ == remove_step(old(self)@, old(progress)@, confirmed).store,
            final(progress)@ == remove_step(old(self)@, old(progress)@, confirmed).progress,
            match remove_step(old(self)@, old(progress)@, confirmed).outcome {
                Ok(action) => outcome matches Ok(found) && found@ == action,
                Err(error) => fails_with(outcome, error),
            },
            outcome matches Ok(RemoveAction::Finished) ==> final(self)@.normalized(),
    {
        let ghost start = old(self)@.bookmarks;
        let ghost bookmarks = settled(start, old(progress).awaiting, confirmed);
        if let Some(position) = progress.awaiting {
            if confirmed && position < self.bookmarks.len() {
                let _ = self.bookmarks.remove(position);
            }
        }
        assert(self@.bookmarks =~= bookmarks);
        progress.awaiting = None;
        if progress.handled >= progress.targets.len() {
            self.normalize();
            return Ok(RemoveAction::Finished);
        }
        let position = match self.resolve(&progress.targets[progress.handled]) {
            Ok(position) => position,
            Err(error) => {
                progress.handled = progress.handled + 1;
                return Err(error);
            },
        };
        let title = short_title(self.bookmarks[position].title.as_str());
        let by_id = match &progress.targets[progress.handled] {
            SearchQuery::Id(_) => true,
            SearchQuery::Query(_) => false,
        };
        progress.handled = progress.handled + 1;
        if by_id {
            let _ = self.bookmarks.remove(position);
            assert(self@.bookmarks =~= bookmarks.remove(position as int));
            Ok(RemoveAction::Removed { position, title })
        } else {
            progress.awaiting = Some(position);
            Ok(RemoveAction::Confirm { position, title })
        }
    }

    /// Changes the settings that `args` names (see [`config_change`]), and
    /// returns the move of the collection's file that the caller is to make
    /// before the new configuration is kept. `location_is_dir` says whether
    /// `args.save_location` is a directory: the collection then goes to the
    /// file [`DATA_FILE`] in it, and else to `args.save_location` itself.
    pub fn config(&self, args: ConfigArgs, config: &mut Config, location_is_dir: bool) -> (outcome:
        Result<Option<Relocation>, Error>)
        ensures
            args.save_location is None || !location_is_dir ==> follows(
                config_change(old(config)@, args@),
                old(config)@,
                final(config)@,
                outcome,
            ),
            args.save_location is Some && location_is_dir ==> {
                &&& args.page_by == Some(0usize) ==> fails_with(
                    outcome,
                    ErrorModel::ZeroPagination,
                ) && final(config)@ == old(config)@
                &&& args.page_by != Some(0usize) ==> (outcome matches Ok(Some(relocation))
                    && ends_with(relocation@.to, DATA_FILE@) && follows(
                    config_change(
                        old(config)@,
                        ConfigArgsModel { save_location: Some(relocation@.to), ..args@ },
                    ),
                    old(config)@,
                    final(config)@,
                    outcome,
                ))
            },
    {
        proof {
            lemma_file_names();
        }
        let ConfigArgs { save_location, table_style, page_by } = args;
        let save_location = match save_location {
            Some(path) => if location_is_dir {
                Some(join_path(path.as_str(), DATA_FILE))
            } else {
                Some(path)
            },
            None => None,
        };
        config.update(ConfigArgs { save_location, table_style, page_by })
    }
}

} // verus!
