use arx::command_types::{ConfigArgs, TableStyle};
use arx::config::{
    default_save_location, load_config, Config, DefaultDirs, StoredConfig, CONFIG_FILE, DATA_FILE,
};
use arx::data::BookmarkStore;
use arx::errors::Error;

fn current() -> Config {
    Config {
        save_location: String::from("/data/bookmarks.json"),
        table_style: Some(TableStyle::Utf8Full),
        page_by: Some(10),
    }
}

fn nothing() -> ConfigArgs {
    ConfigArgs { save_location: None, table_style: None, page_by: None }
}

#[test]
fn validate_wants_one_setting() {
    assert!(matches!(nothing().validate(), Err(Error::NoConfigArgs)));
    let mut args = nothing();
    args.page_by = Some(0);
    assert!(args.validate().is_ok());
    let mut args = nothing();
    args.table_style = Some(TableStyle::Nothing);
    assert!(args.validate().is_ok());
    let mut args = nothing();
    args.save_location = Some(String::from("/x"));
    assert!(args.validate().is_ok());
}

#[test]
fn config_without_settings_fails() {
    let store = BookmarkStore::default();
    let mut config = current();
    assert!(matches!(store.config(nothing(), &mut config, false), Err(Error::NoConfigArgs)));
    assert!(matches!(config.update(nothing()), Err(Error::NoConfigArgs)));
    assert_eq!(config.page_by, Some(10));
}

#[test]
fn config_refuses_page_size_zero() {
    let store = BookmarkStore::default();
    let mut config = current();
    let args = ConfigArgs {
        save_location: Some(String::from("/elsewhere/b.json")),
        table_style: Some(TableStyle::AsciiFull),
        page_by: Some(0),
    };
    assert!(matches!(store.config(args, &mut config, false), Err(Error::ZeroPagination)));
    assert_eq!(config.save_location, "/data/bookmarks.json");
    assert_eq!(config.table_style, Some(TableStyle::Utf8Full));
    assert_eq!(config.page_by, Some(10));
}

#[test]
fn config_changes_what_is_named() {
    let store = BookmarkStore::default();
    let mut config = current();
    let mut args = nothing();
    args.page_by = Some(25);
    let moved = store.config(args, &mut config, false).unwrap();
    assert!(moved.is_none());
    assert_eq!(config.page_by, Some(25));
    assert_eq!(config.table_style, Some(TableStyle::Utf8Full));
    assert_eq!(config.save_location, "/data/bookmarks.json");

    let mut args = nothing();
    args.table_style = Some(TableStyle::AsciiMarkdown);
    let moved = store.config(args, &mut config, true).unwrap();
    assert!(moved.is_none());
    assert_eq!(config.table_style, Some(TableStyle::AsciiMarkdown));
    assert_eq!(config.page_by, Some(25));
}

#[test]
fn config_moves_the_collection_to_a_file() {
    let store = BookmarkStore::default();
    let mut config = current();
    let mut args = nothing();
    args.save_location = Some(String::from("/elsewhere/mine.json"));
    let moved = store.config(args, &mut config, false).unwrap().unwrap();
    assert_eq!(moved.from, "/data/bookmarks.json");
    assert_eq!(moved.to, "/elsewhere/mine.json");
    assert_eq!(config.save_location, "/elsewhere/mine.json");
}

#[test]
fn config_moves_the_collection_into_a_directory() {
    let store = BookmarkStore::default();
    let mut config = current();
    let mut args = nothing();
    args.save_location = Some(String::from("/elsewhere"));
    args.page_by = Some(3);
    let moved = store.config(args, &mut config, true).unwrap().unwrap();
    let expected = std::path::Path::new("/elsewhere").join("bookmarks.json");
    assert_eq!(moved.from, "/data/bookmarks.json");
    assert_eq!(std::path::Path::new(&moved.to), expected.as_path());
    assert_eq!(config.save_location, moved.to);
    assert_eq!(config.page_by, Some(3));
    assert!(moved.to.ends_with("bookmarks.json"));
    assert!(moved.to.len() > "bookmarks.json".len());
    assert_ne!(moved.to, "/elsewhere");
}

#[test]
fn the_two_files_have_their_names() {
    assert_eq!(DATA_FILE, "bookmarks.json");
    assert_eq!(CONFIG_FILE, "config.toml");
}

#[test]
fn load_config_without_directories_fails() {
    let dirs = DefaultDirs::unknown();
    assert!(dirs.error);
    assert!(matches!(load_config(&dirs, None), Err(Error::NoProjectDirs)));
    let stored = StoredConfig { save_location: None, table_style: None, page_by: Some(4) };
    assert!(matches!(load_config(&dirs, Some(stored)), Err(Error::NoProjectDirs)));
}

#[test]
fn load_config_without_file_uses_the_default_place() {
    let dirs = DefaultDirs::within(String::from("/d/bookmarks.json"), String::from("/c/config.toml"));
    assert!(!dirs.error);
    assert_eq!(default_save_location(&dirs), "/d/bookmarks.json");
    let config = load_config(&dirs, None).unwrap();
    assert_eq!(config.save_location, "/d/bookmarks.json");
    assert_eq!(config.table_style, None);
    assert_eq!(config.page_by, None);
}

#[test]
fn load_config_takes_what_the_file_holds() {
    let dirs = DefaultDirs::within(String::from("/d/bookmarks.json"), String::from("/c/config.toml"));
    let stored = StoredConfig {
        save_location: Some(String::from("/mine.json")),
        table_style: Some(TableStyle::Nothing),
        page_by: Some(4),
    };
    let config = load_config(&dirs, Some(stored)).unwrap();
    assert_eq!(config.save_location, "/mine.json");
    assert_eq!(config.table_style, Some(TableStyle::Nothing));
    assert_eq!(config.page_by, Some(4));

    let stored = StoredConfig { save_location: None, table_style: None, page_by: Some(4) };
    let config = load_config(&dirs, Some(stored)).unwrap();
    assert_eq!(config.save_location, "/d/bookmarks.json");
    assert_eq!(config.page_by, Some(4));
}

#[test]
fn located_directories_name_the_two_files() {
    let dirs = DefaultDirs::locate();
    if dirs.error {
        assert_eq!(dirs.save_location, "");
        assert_eq!(dirs.config_path, "");
    } else {
        assert!(dirs.save_location.ends_with("bookmarks.json"));
        assert!(dirs.config_path.ends_with("config.toml"));
        assert!(dirs.save_location.len() > "bookmarks.json".len());
    }
}

#[test]
fn default_values() {
    let dirs = DefaultDirs::default();
    assert!(!dirs.error);
    assert_eq!(dirs.save_location, "");
    let config = Config::default();
    assert_eq!(config.save_location, "");
    assert_eq!(config.table_style, None);
    assert_eq!(config.page_by, None);
}

#[test]
fn table_style_defaults_to_utf8_full() {
    assert_eq!(Config::default().style(), TableStyle::Utf8Full);
    assert_eq!(current().style(), TableStyle::Utf8Full);
    let mut config = current();
    config.table_style = Some(TableStyle::AsciiNoBorders);
    assert_eq!(config.style(), TableStyle::AsciiNoBorders);
}

#[test]
fn directories_need_both_files() {
    let both = DefaultDirs::of_files(
        Some(String::from("/d/bookmarks.json")),
        Some(String::from("/c/config.toml")),
    );
    assert!(!both.error);
    assert_eq!(both.save_location, "/d/bookmarks.json");
    assert_eq!(both.config_path, "/c/config.toml");

    let cases = [
        (Some(String::from("/d/bookmarks.json")), None),
        (None, Some(String::from("/c/config.toml"))),
        (None, None),
    ];
    for (save_location, config_path) in cases {
        let dirs = DefaultDirs::of_files(save_location, config_path);
        assert!(dirs.error);
        assert_eq!(dirs.save_location, "");
        assert_eq!(dirs.config_path, "");
    }
}
