//! The configuration: where the collection is kept, and how a listing looks.

use vstd::prelude::*;
use crate::command_types::{ConfigArgs, TableStyle};
use crate::data::text_of;
use crate::errors::{fails_with, Error, ErrorModel};

verus! {

/// The settings of the program.
#[derive(Debug)]
pub struct Config {
    /// The file that holds the collection.
    pub save_location: String,
    /// The style of the table of a listing; the store only carries it.
    pub table_style: Option<TableStyle>,
    /// How many bookmarks a page of a listing holds.
    pub page_by: Option<usize>,
}

/// A [`Config`] with its path as a sequence of characters.
pub struct ConfigModel {
    pub save_location: Seq<char>,
    pub table_style: Option<TableStyle>,
    pub page_by: Option<usize>,
}

impl View for Config {
    type V = ConfigModel;

    open spec fn view(&self) -> ConfigModel {
        ConfigModel {
            save_location: self.save_location@,
            table_style: self.table_style,
            page_by: self.page_by,
        }
    }
}

impl Config {
    /// The style in which tables are drawn: the configured one, or
    /// [`TableStyle::Utf8Full`] where none is configured.
    pub fn style(&self) -> (style: TableStyle)
        ensures
            style == match self.table_style {
                Some(chosen) => chosen,
                None => TableStyle::Utf8Full,
            },
    {
        match self.table_style {
            Some(chosen) => chosen,
            None => TableStyle::Utf8Full,
        }
    }
}

impl Default for Config {
    fn default() -> (config: Config)
        ensures
            config@ == (ConfigModel {
                save_location: Seq::empty(),
                table_style: None,
                page_by: None,
            }),
    {
        Config { save_location: String::new(), table_style: None, page_by: None }
    }
}

/// The name of the file that holds the collection, in the directory that
/// the platform or the user names for it.
pub const DATA_FILE: &'static str = "bookmarks.json";

/// The name of the file that holds the configuration.
pub const CONFIG_FILE: &'static str = "config.toml";

/// Asks the platform where this program keeps its data and its
/// configuration: calls `directories::ProjectDirs::from`, and reads the
/// result with `ProjectDirs::data_dir` and `ProjectDirs::config_dir`. A
/// directory comes back as `None` where its path is no text. Nothing is
/// claimed of the answer, which depends on the machine and on the user's
/// settings.
#[verifier::external_body]
fn project_dirs(qualifier: &str, organization: &str, application: &str) -> (found: Option<
    (Option<String>, Option<String>),
>) {
    match directories::ProjectDirs::from(qualifier, organization, application) {
        Some(dirs) => Some(
            (
                dirs.data_dir().to_str().map(String::from),
                dirs.config_dir().to_str().map(String::from),
            ),
        ),
        None => None,
    }
}

/// Whether `text` ends with `end`.
pub open spec fn ends_with(text: Seq<char>, end: Seq<char>) -> bool {
    text.len() >= end.len() && text.subrange(text.len() - end.len(), text.len() as int) == end
}

/// Whether `name` is the name of a file and nothing more: it is not empty,
/// it is neither `.` nor `..`, and it holds none of `/`, `\` and `:`, with
/// which a platform parts directories and drives.
pub open spec fn is_file_name(name: Seq<char>) -> bool {
    &&& name.len() > 0
    &&& name != seq!['.']
    &&& name != seq!['.', '.']
    &&& forall|i: int|
        0 <= i < name.len() ==> (#[trigger] name[i]) != '/' && name[i] != '\\' && name[i] != ':'
}

/// The two files of the program have names that are file names.
pub proof fn lemma_file_names()
    ensures
        is_file_name(DATA_FILE@),
        is_file_name(CONFIG_FILE@),
{
    reveal_strlit("bookmarks.json");
    reveal_strlit("config.toml");
}

/// The path of the entry `name` of `directory`: calls the standard
/// library's `Path::join`. Not proved: that the path of a file's name
/// joined to a directory ends with that name. How the path begins is
/// written as the platform writes paths, and nothing is claimed of it.
#[verifier::external_body]
pub(crate) fn join_path(directory: &str, name: &str) -> (path: String)
    requires
        is_file_name(name@),
    ensures
        ends_with(path@, name@),
{
    std::path::Path::new(directory).join(name).to_string_lossy().into_owned()
}

/// Where the platform has this program keep its files, if it says so.
#[derive(Debug)]
pub struct DefaultDirs {
    /// The file that holds the collection.
    pub save_location: String,
    /// The file that holds the configuration.
    pub config_path: String,
    /// Whether the platform named no directories.
    pub error: bool,
}

impl Default for DefaultDirs {
    fn default() -> (dirs: DefaultDirs)
        ensures
            !dirs.error,
            dirs.save_location@ == Seq::<char>::empty(),
            dirs.config_path@ == Seq::<char>::empty(),
    {
        DefaultDirs { save_location: String::new(), config_path: String::new(), error: false }
    }
}

impl DefaultDirs {
    /// The directories of a platform that names these two files.
    pub fn within(save_location: String, config_path: String) -> (dirs: DefaultDirs)
        ensures
            !dirs.error,
            dirs.save_location == save_location,
            dirs.config_path == config_path,
    {
        DefaultDirs { save_location, config_path, error: false }
    }

    /// The directories of a platform that names none.
    pub fn unknown() -> (dirs: DefaultDirs)
        ensures
            dirs.error,
            dirs.save_location@ == Seq::<char>::empty(),
            dirs.config_path@ == Seq::<char>::empty(),
    {
        DefaultDirs { save_location: String::new(), config_path: String::new(), error: true }
    }

    /// Asks the platform for the directories of this program, and names the
    /// two files in them: [`DATA_FILE`] in the directory for data, and
    /// [`CONFIG_FILE`] in the directory for configuration. Where the
    /// platform names none, or one whose path is no text, there are no
    /// directories, and the paths are empty.
    pub fn locate() -> (dirs: DefaultDirs)
        ensures
            dirs.error ==> dirs.save_location@ == Seq::<char>::empty() && dirs.config_path@
                == Seq::<char>::empty(),
            !dirs.error ==> ends_with(dirs.save_location@, DATA_FILE@) && ends_with(
                dirs.config_path@,
                CONFIG_FILE@,
            ),
    {
        proof {
            lemma_file_names();
        }
        let (data, config) = match project_dirs("dev", "offblck", "arx") {
            Some(found) => found,
            None => (None, None),
        };
        let save_location = match data {
            Some(directory) => Some(join_path(directory.as_str(), DATA_FILE)),
            None => None,
        };
        let config_path = match config {
            Some(directory) => Some(join_path(directory.as_str(), CONFIG_FILE)),
            None => None,
        };
        DefaultDirs::of_files(save_location, config_path)
    }

    /// The directories that the platform's answer comes to, where
    /// `save_location` and `config_path` are the two files in the
    /// directories that it named: these files where it named both, and no
    /// directories, with empty paths, where one of them is missing.
    pub fn of_files(save_location: Option<String>, config_path: Option<String>) -> (dirs:
        DefaultDirs)
        ensures
            match (save_location, config_path) {
                (Some(data), Some(config)) => !dirs.error && dirs.save_location == data
                    && dirs.config_path == config,
                _ => dirs.error && dirs.save_location@ == Seq::<char>::empty()
                    && dirs.config_path@ == Seq::<char>::empty(),
            },
    {
        match (save_location, config_path) {
            (Some(data), Some(config)) => DefaultDirs::within(data, config),
            _ => DefaultDirs::unknown(),
        }
    }
}

/// The place of the collection where the configuration names none.
pub fn default_save_location(dirs: &DefaultDirs) -> (path: String)
    ensures
        path@ == dirs.save_location@,
{
    dirs.save_location.clone()
}

/// What the configuration file holds. Each of its entries may be absent.
#[derive(Debug)]
pub struct StoredConfig {
    pub save_location: Option<String>,
    pub table_style: Option<TableStyle>,
    pub page_by: Option<usize>,
}

/// The configuration that `stored` and the platform's directories give:
/// what the file holds, with the platform's place for the collection where
/// the file names none; and without a file, that place and nothing else.
pub open spec fn loaded(dirs: DefaultDirs, stored: Option<StoredConfig>) -> ConfigModel {
    match stored {
        Some(file) => ConfigModel {
            save_location: match file.save_location {
                Some(path) => path@,
                None => dirs.save_location@,
            },
            table_style: file.table_style,
            page_by: file.page_by,
        },
        None => ConfigModel {
            save_location: dirs.save_location@,
            table_style: None,
            page_by: None,
        },
    }
}

/// The configuration to work with (see [`loaded`]). `stored` is what the
/// configuration file holds, or `None` where there is no such file. Without
/// directories from the platform there is no configuration.
pub fn load_config(dirs: &DefaultDirs, stored: Option<StoredConfig>) -> (outcome: Result<
    Config,
    Error,
>)
    ensures
        dirs.error ==> fails_with(outcome, ErrorModel::NoProjectDirs),
        !dirs.error ==> (outcome matches Ok(config) && config@ == loaded(*dirs, stored)),
{
    if dirs.error {
        return Err(Error::NoProjectDirs);
    }
    match stored {
        Some(file) => Ok(
            Config {
                save_location: match file.save_location {
                    Some(path) => path,
                    None => default_save_location(dirs),
                },
                table_style: file.table_style,
                page_by: file.page_by,
            },
        ),
        None => Ok(
            Config { save_location: default_save_location(dirs), table_style: None, page_by: None },
        ),
    }
}

/// [`ConfigArgs`] with its path as a sequence of characters.
pub struct ConfigArgsModel {
    pub save_location: Option<Seq<char>>,
    pub table_style: Option<TableStyle>,
    pub page_by: Option<usize>,
}

impl View for ConfigArgs {
    type V = ConfigArgsModel;

    open spec fn view(&self) -> ConfigArgsModel {
        ConfigArgsModel {
            save_location: text_of(self.save_location),
            table_style: self.table_style,
            page_by: self.page_by,
        }
    }
}

/// The move of the file that holds the collection.
#[derive(Debug)]
pub struct Relocation {
    pub from: String,
    pub to: String,
}

/// A [`Relocation`] with its paths as sequences of characters.
pub struct RelocationModel {
    pub from: Seq<char>,
    pub to: Seq<char>,
}

impl View for Relocation {
    type V = RelocationModel;

    open spec fn view(&self) -> RelocationModel {
        RelocationModel { from: self.from@, to: self.to@ }
    }
}

/// A changed configuration, and the move of the collection's file that the
/// change asks for.
pub struct ConfigChange {
    pub config: ConfigModel,
    pub relocation: Option<RelocationModel>,
}

/// What a change of the configuration comes to. A change that names
/// nothing fails, and so does a page size of 0. Else each setting that the
/// change names has its new value, and where it names a place for the
/// collection, the file moves there from its old place.
pub open spec fn config_change(config: ConfigModel, args: ConfigArgsModel) -> Result<
    ConfigChange,
    ErrorModel,
> {
    if args.save_location is None && args.table_style is None && args.page_by is None {
        Err(ErrorModel::NoConfigArgs)
    } else if args.page_by == Some(0usize) {
        Err(ErrorModel::ZeroPagination)
    } else {
        Ok(
            ConfigChange {
                config: ConfigModel {
                    save_location: match args.save_location {
                        Some(path) => path,
                        None => config.save_location,
                    },
                    table_style: match args.table_style {
                        Some(style) => Some(style),
                        None => config.table_style,
                    },
                    page_by: match args.page_by {
                        Some(size) => Some(size),
                        None => config.page_by,
                    },
                },
                relocation: match args.save_location {
                    Some(path) => Some(RelocationModel { from: config.save_location, to: path }),
                    None => None,
                },
            },
        )
    }
}

/// A change that names a place for the collection, and no page size of 0,
/// asks for the move of the file from the old place to the new one and keeps
/// the new place; and a configuration file that names a place has the
/// collection read from there.
pub proof fn lemma_new_place_is_kept(
    config: ConfigModel,
    args: ConfigArgsModel,
    dirs: DefaultDirs,
    stored: StoredConfig,
)
    requires
        args.save_location is Some,
        args.page_by != Some(0usize),
        text_of(stored.save_location) == args.save_location,
    ensures
        config_change(config, args) matches Ok(change) && change.config.save_location
            == args.save_location->0 && change.relocation == Some(
            RelocationModel { from: config.save_location, to: args.save_location->0 },
        ),
        loaded(dirs, Some(stored)).save_location == args.save_location->0,
{
}

/// Whether `outcome` and the new configuration are what `change` says. A
/// change that fails leaves the configuration as it was.
pub open spec fn follows(
    change: Result<ConfigChange, ErrorModel>,
    before: ConfigModel,
    after: ConfigModel,
    outcome: Result<Option<Relocation>, Error>,
) -> bool {
    match change {
        Ok(changed) => {
            &&& after == changed.config
            &&& outcome matches Ok(relocation)
            &&& match changed.relocation {
                Some(expected) => relocation matches Some(found) && found@ == expected,
                None => relocation is None,
            }
        },
        Err(error) => fails_with(outcome, error) && after == before,
    }
}

impl Config {
    /// Changes the settings that `args` names, where `args.save_location`
    /// is the file that is to hold the collection from now on (see
    /// [`config_change`]). Returns the move of the file that the caller is
    /// to make before the new configuration is kept.
    pub fn update(&mut self, args: ConfigArgs) -> (outcome: Result<Option<Relocation>, Error>)
        ensures
            follows(config_change(old(self)@, args@), old(self)@, final(self)@, outcome),
    {
        match args.validate() {
            Ok(()) => {},
            Err(error) => {
                return Err(error);
            },
        }
        if let Some(size) = args.page_by {
            if size == 0 {
                return Err(Error::ZeroPagination);
            }
            self.page_by = Some(size);
        }
        if let Some(style) = args.table_style {
            self.table_style = Some(style);
        }
        match args.save_location {
            Some(path) => {
                let mut from = path.clone();
                std::mem::swap(&mut self.save_location, &mut from);
                Ok(Some(Relocation { from, to: path }))
            },
            None => Ok(None),
        }
    }
}

} // verus!
