//! The settings record and where it is kept.

use crate::document::{
    entries_view, field_at, fields_of, lookup, parse_document, parsed_fields,
    quote_runs_are_short, quote_runs_stay_short, render, rendered, renders_safely, Entries, Field,
    FieldView, Fields, Scalar, ScalarView, QUOTE_RUN_LIMIT,
};
use vstd::prelude::*;

verus! {

/// Key of the window width in the settings file.
pub const WINDOW_WIDTH_KEY: &'static str = "window_width";

/// Key of the window height in the settings file.
pub const WINDOW_HEIGHT_KEY: &'static str = "window_height";

/// Key of the selected folder in the settings file.
pub const SELECTED_FOLDER_KEY: &'static str = "selected_folder";

/// Folder of this application below the user's configuration directory.
pub const APP_DIR: &'static str = "okay-you-very-pro";

/// Name of the settings file in [`APP_DIR`].
pub const CONFIG_FILE: &'static str = "config.toml";

/// Directory that stands in where the user has no configuration directory.
pub const FALLBACK_DIR: &'static str = ".";

/// Subdirectory of the selected folder that holds the replays.
pub const REPLAYS_DIR: &'static str = "replays";

/// Width of the window before any resize was recorded.
pub const DEFAULT_WINDOW_WIDTH: u32 = 1200;

/// Height of the window before any resize was recorded.
pub const DEFAULT_WINDOW_HEIGHT: u32 = 800;

/// The persisted settings: last known window size and the folder the user chose.
#[derive(Debug, PartialEq, Eq)]
pub struct Config {
    pub window_width: u32,
    pub window_height: u32,
    pub selected_folder: Option<String>,
}

/// A [`Config`] as a mathematical value.
pub struct ConfigView {
    pub window_width: u32,
    pub window_height: u32,
    pub selected_folder: Option<Seq<char>>,
}

impl View for Config {
    type V = ConfigView;

    open spec fn view(&self) -> ConfigView {
        ConfigView {
            window_width: self.window_width,
            window_height: self.window_height,
            selected_folder: match self.selected_folder {
                Some(folder) => Some(folder@),
                None => None,
            },
        }
    }
}

impl ConfigView {
    /// The parts of the replay directory's path: the selected folder, then
    /// [`REPLAYS_DIR`]. Without a folder it is the empty path.
    pub open spec fn replay_path(self) -> Seq<Seq<char>> {
        match self.selected_folder {
            Some(folder) => seq![folder, REPLAYS_DIR@],
            None => Seq::empty(),
        }
    }

    /// Whether the record can be written: its folder's name, if it has one,
    /// holds no run of quote characters that is too long for the writer.
    pub open spec fn writable(self) -> bool {
        self.selected_folder matches Some(folder) ==> quote_runs_are_short(folder)
    }

    /// Both window dimensions are positive, as they are in every record that
    /// a resize has written.
    pub open spec fn positive(self) -> bool {
        self.window_width > 0 && self.window_height > 0
    }

    /// The record that is used where none was stored: 1200 by 800, no folder.
    pub open spec fn initial() -> ConfigView {
        ConfigView {
            window_width: DEFAULT_WINDOW_WIDTH,
            window_height: DEFAULT_WINDOW_HEIGHT,
            selected_folder: None,
        }
    }
}

impl Default for Config {
    fn default() -> (config: Config)
        ensures
            config@ == ConfigView::initial(),
    {
        Config {
            window_width: DEFAULT_WINDOW_WIDTH,
            window_height: DEFAULT_WINDOW_HEIGHT,
            selected_folder: None,
        }
    }
}

impl Clone for Config {
    fn clone(&self) -> (copy: Config)
        ensures
            copy@ == self@,
    {
        Config {
            window_width: self.window_width,
            window_height: self.window_height,
            selected_folder: match &self.selected_folder {
                Some(folder) => Some(folder.clone()),
                None => None,
            },
        }
    }
}

/// A path given by its parts, each by its view. The parts are pushed in
/// order onto an empty path, so no parts make the empty path.
pub open spec fn path_view(parts: Seq<String>) -> Seq<Seq<char>> {
    parts.map_values(|part: String| part@)
}

/// The parts of the application's own directory: the given configuration
/// directory, or [`FALLBACK_DIR`] where there is none, then [`APP_DIR`].
pub open spec fn app_dir_spec(config_dir: Option<Seq<char>>) -> Seq<Seq<char>> {
    let base = match config_dir {
        Some(dir) => dir,
        None => FALLBACK_DIR@,
    };
    seq![base, APP_DIR@]
}

/// The parts of the settings file's path: the application's directory, then
/// [`CONFIG_FILE`].
pub open spec fn config_path_spec(config_dir: Option<Seq<char>>) -> Seq<Seq<char>> {
    app_dir_spec(config_dir).push(CONFIG_FILE@)
}

/// The directory that holds the settings file and the logs, below
/// `config_dir`, which is the user's configuration directory as the
/// platform names it.
pub fn app_dir(config_dir: Option<String>) -> (path: Vec<String>)
    ensures
        path_view(path@) == app_dir_spec(
            match config_dir {
                Some(dir) => Some(dir@),
                None => None,
            },
        ),
{
    let base = match config_dir {
        Some(dir) => dir,
        None => FALLBACK_DIR.to_owned(),
    };
    let mut path: Vec<String> = Vec::new();
    path.push(base);
    path.push(APP_DIR.to_owned());
    assert(path_view(path@) =~= seq![base@, APP_DIR@]);
    path
}

/// Where the settings file is kept: [`CONFIG_FILE`] in the application's
/// directory below `config_dir`.
pub fn config_path(config_dir: Option<String>) -> (path: Vec<String>)
    ensures
        path_view(path@) == config_path_spec(
            match config_dir {
                Some(dir) => Some(dir@),
                None => None,
            },
        ),
{
    let mut path = app_dir(config_dir);
    let ghost dir = path_view(path@);
    path.push(CONFIG_FILE.to_owned());
    assert(path_view(path@) =~= dir.push(CONFIG_FILE@));
    path
}

/// How a load ended.
#[derive(Debug, PartialEq, Eq)]
pub enum LoadOutcome {
    /// The file was there and held a record.
    Loaded(Config),
    /// There was no file to read: the defaults apply.
    Defaulted,
    /// The file was there but held no record: the defaults apply.
    DefaultedDueToError,
}

/// A [`LoadOutcome`] as a mathematical value.
pub enum LoadOutcomeView {
    Loaded(ConfigView),
    Defaulted,
    DefaultedDueToError,
}

impl View for LoadOutcome {
    type V = LoadOutcomeView;

    open spec fn view(&self) -> LoadOutcomeView {
        match self {
            LoadOutcome::Loaded(config) => LoadOutcomeView::Loaded(config@),
            LoadOutcome::Defaulted => LoadOutcomeView::Defaulted,
            LoadOutcome::DefaultedDueToError => LoadOutcomeView::DefaultedDueToError,
        }
    }
}

impl LoadOutcomeView {
    /// The record to go on with: the loaded one, or the defaults.
    pub open spec fn config(self) -> ConfigView {
        match self {
            LoadOutcomeView::Loaded(config) => config,
            _ => ConfigView::initial(),
        }
    }
}

impl LoadOutcome {
    /// The record to go on with: the loaded one, or the defaults.
    pub fn into_config(self) -> (config: Config)
        ensures
            config@ == self@.config(),
    {
        match self {
            LoadOutcome::Loaded(config) => config,
            _ => Config::default(),
        }
    }
}

/// The window dimension that a field stands for: an integer that fits `u32`.
pub open spec fn dimension_of(field: FieldView) -> Option<u32> {
    match field {
        FieldView::Scalar(ScalarView::Integer(number)) => if 0 <= number <= u32::MAX {
            Some(number as u32)
        } else {
            None
        },
        _ => None,
    }
}

/// The folder that a field stands for: none where the key is absent, the
/// string where it holds one. A value of another kind stands for no folder
/// setting at all, which the outer `None` says.
pub open spec fn folder_of(field: FieldView) -> Option<Option<Seq<char>>> {
    match field {
        FieldView::Absent => Some(None),
        FieldView::Scalar(ScalarView::Text(text)) => Some(Some(text)),
        _ => None,
    }
}

/// The record that three fields stand for, where they fit the schema: both
/// dimensions present and integers within `u32`, the folder a string or absent.
pub open spec fn config_of_fields(width: FieldView, height: FieldView, folder: FieldView) -> Option<
    ConfigView,
> {
    match (dimension_of(width), dimension_of(height), folder_of(folder)) {
        (Some(window_width), Some(window_height), Some(selected_folder)) => Some(
            ConfigView { window_width, window_height, selected_folder },
        ),
        _ => None,
    }
}

/// The record that a document's table stands for, where it fits the schema.
pub open spec fn config_in(fields: Fields) -> Option<ConfigView> {
    config_of_fields(
        field_at(fields, WINDOW_WIDTH_KEY@),
        field_at(fields, WINDOW_HEIGHT_KEY@),
        field_at(fields, SELECTED_FOLDER_KEY@),
    )
}

/// The entries that are written for a record: width, height, and the folder
/// where one is selected, in this order.
pub open spec fn entries_of(config: ConfigView) -> Entries {
    let dimensions = seq![
        (WINDOW_WIDTH_KEY@, ScalarView::Integer(config.window_width as i64)),
        (WINDOW_HEIGHT_KEY@, ScalarView::Integer(config.window_height as i64)),
    ];
    match config.selected_folder {
        Some(folder) => dimensions.push((SELECTED_FOLDER_KEY@, ScalarView::Text(folder))),
        None => dimensions,
    }
}

/// How a load ends on the contents of the settings file, `None` standing for
/// a file that is missing or cannot be read.
pub open spec fn load_spec(contents: Option<Seq<char>>) -> LoadOutcomeView {
    match contents {
        None => LoadOutcomeView::Defaulted,
        Some(text) => match parsed_fields(text) {
            None => LoadOutcomeView::DefaultedDueToError,
            Some(fields) => match config_in(fields) {
                Some(config) => LoadOutcomeView::Loaded(config),
                None => LoadOutcomeView::DefaultedDueToError,
            },
        },
    }
}

/// The text that a save hands out for a record: the rendered entries, where
/// the record can be written, its entries render and the text loads as the
/// record again. `None` otherwise, and nothing is written then.
pub open spec fn save_spec(config: ConfigView) -> Option<Seq<char>> {
    if !config.writable() {
        None
    } else {
        match rendered(entries_of(config)) {
            Some(text) => if load_spec(Some(text)) == LoadOutcomeView::Loaded(config) {
                Some(text)
            } else {
                None
            },
            None => None,
        }
    }
}

/// The window dimension that a field stands for.
fn dimension(field: Field) -> (value: Option<u32>)
    ensures
        value == dimension_of(field@),
{
    match field {
        Field::Scalar(Scalar::Integer(number)) => {
            if 0 <= number && number <= 0xffff_ffff {
                Some(number as u32)
            } else {
                None
            }
        },
        _ => None,
    }
}

impl Config {
    /// Builds the record from what a document holds under the three keys.
    /// `None` where the fields do not fit the schema.
    pub fn from_fields(width: Field, height: Field, folder: Field) -> (config: Option<Config>)
        ensures
            match config {
                Some(read) => config_of_fields(width@, height@, folder@) == Some(read@),
                None => config_of_fields(width@, height@, folder@) is None,
            },
    {
        let selected_folder = match folder {
            Field::Absent => None,
            Field::Scalar(Scalar::Text(text)) => Some(text),
            _ => { return None; },
        };
        match (dimension(width), dimension(height)) {
            (Some(window_width), Some(window_height)) => Some(
                Config { window_width, window_height, selected_folder },
            ),
            _ => None,
        }
    }

    /// Reads the record from the contents of the settings file. The caller
    /// passes `None` where the file is missing or cannot be read. Whatever the
    /// contents, a record to go on with comes back: see
    /// [`LoadOutcome::into_config`].
    pub fn load(contents: Option<&str>) -> (outcome: LoadOutcome)
        ensures
            outcome@ == load_spec(
                match contents {
                    Some(text) => Some(text@),
                    None => None,
                },
            ),
    {
        let text = match contents {
            Some(text) => text,
            None => { return LoadOutcome::Defaulted; },
        };
        let document = match parse_document(text) {
            Some(document) => document,
            None => { return LoadOutcome::DefaultedDueToError; },
        };
        let width = lookup(&document, WINDOW_WIDTH_KEY);
        let height = lookup(&document, WINDOW_HEIGHT_KEY);
        let folder = lookup(&document, SELECTED_FOLDER_KEY);
        match Config::from_fields(width, height, folder) {
            Some(config) => LoadOutcome::Loaded(config),
            None => LoadOutcome::DefaultedDueToError,
        }
    }

    /// Renders the record as the text of the settings file. The caller writes
    /// it over the file; on `None` there is nothing to write. A record whose
    /// folder's name holds too long a run of quote characters is not
    /// rendered. The text is read back before it is handed out, so what is
    /// written always loads as this record.
    pub fn save(&self) -> (text: Option<String>)
        ensures
            match text {
                Some(written) => save_spec(self@) == Some(written@),
                None => save_spec(self@) is None,
            },
            text matches Some(written) ==> load_spec(Some(written@)) == LoadOutcomeView::Loaded(
                self@,
            ),
            !self@.writable() ==> text is None,
    {
        let writable = match &self.selected_folder {
            Some(folder) => quote_runs_stay_short(folder.as_str()),
            None => true,
        };
        if !writable {
            return None;
        }
        let entries = self.entries();
        proof {
            lemma_writable_renders_safely(self@);
        }
        let written = match render(&entries) {
            Some(written) => written,
            None => { return None; },
        };
        match Config::load(Some(written.as_str())) {
            LoadOutcome::Loaded(read) => {
                if read.holds_the_same(self) {
                    Some(written)
                } else {
                    None
                }
            },
            _ => None,
        }
    }

    /// Whether two records hold the same values.
    fn holds_the_same(&self, other: &Config) -> (same: bool)
        ensures
            same == (self@ == other@),
    {
        let same_folder = match (&self.selected_folder, &other.selected_folder) {
            (Some(mine), Some(theirs)) => *mine == *theirs,
            (None, None) => true,
            _ => false,
        };
        self.window_width == other.window_width && self.window_height == other.window_height
            && same_folder
    }

    /// The replay directory below the selected folder, as the parts of its
    /// path. Nothing is said of whether it exists.
    pub fn replay_path(&self) -> (path: Vec<String>)
        ensures
            path_view(path@) == self@.replay_path(),
    {
        let mut path: Vec<String> = Vec::new();
        match &self.selected_folder {
            Some(folder) => {
                path.push(folder.clone());
                path.push(REPLAYS_DIR.to_owned());
            },
            None => {},
        }
        assert(path_view(path@) =~= self@.replay_path());
        path
    }

    /// The keys and values that are written for this record, in file order.
    pub fn entries(&self) -> (entries: Vec<(String, Scalar)>)
        ensures
            entries_view(entries@) == entries_of(self@),
    {
        let mut entries: Vec<(String, Scalar)> = Vec::new();
        entries.push((WINDOW_WIDTH_KEY.to_owned(), Scalar::Integer(self.window_width as i64)));
        entries.push((WINDOW_HEIGHT_KEY.to_owned(), Scalar::Integer(self.window_height as i64)));
        match &self.selected_folder {
            Some(folder) => {
                entries.push((SELECTED_FOLDER_KEY.to_owned(), Scalar::Text(folder.clone())));
            },
            None => {},
        }
        assert(entries_view(entries@) =~= entries_of(self@));
        entries
    }
}

/// The three keys of the settings file differ from one another.
pub proof fn lemma_keys_differ()
    ensures
        WINDOW_WIDTH_KEY@ != WINDOW_HEIGHT_KEY@,
        WINDOW_WIDTH_KEY@ != SELECTED_FOLDER_KEY@,
        WINDOW_HEIGHT_KEY@ != SELECTED_FOLDER_KEY@,
{
    reveal_strlit("window_width");
    reveal_strlit("window_height");
    reveal_strlit("selected_folder");
    assert(WINDOW_WIDTH_KEY@.len() == 12);
    assert(WINDOW_HEIGHT_KEY@.len() == 13);
    assert(SELECTED_FOLDER_KEY@.len() == 15);
}

/// A table that holds the entries written for a record, and no others,
/// stands for that record: nothing of a record is lost between it and its
/// entries.
pub proof fn lemma_entries_stand_for_record(config: ConfigView)
    ensures
        config_in(fields_of(entries_of(config))) == Some(config),
{
    lemma_keys_differ();
    reveal_with_fuel(fields_of, 4);
    let entries = entries_of(config);
    let width = (WINDOW_WIDTH_KEY@, ScalarView::Integer(config.window_width as i64));
    let height = (WINDOW_HEIGHT_KEY@, ScalarView::Integer(config.window_height as i64));
    match config.selected_folder {
        Some(folder) => {
            assert(entries.drop_last() =~= seq![width, height]);
            assert(entries.drop_last().drop_last() =~= seq![width]);
            assert(entries.drop_last().drop_last().drop_last() =~= Seq::empty());
        },
        None => {
            assert(entries.drop_last() =~= seq![width]);
            assert(entries.drop_last().drop_last() =~= Seq::empty());
        },
    }
}

/// The entries of a record that can be written can all be handed to the
/// writer.
pub proof fn lemma_writable_renders_safely(config: ConfigView)
    requires
        config.writable(),
    ensures
        renders_safely(entries_of(config)),
{
    let entries = entries_of(config);
    assert forall|at: int| 0 <= at < entries.len() implies (#[trigger] entries[at].1 matches ScalarView::Text(
        text,
    ) ==> quote_runs_are_short(text)) by {
        if at == 2 {
            assert(entries[at].1 == ScalarView::Text(config.selected_folder->0));
        }
    }
}

/// A load never fails: on a missing file and on a text that is no TOML
/// document it ends with the defaults, and it says which of the two it was.
pub proof fn lemma_load_falls_back(contents: Option<Seq<char>>)
    ensures
        contents is None ==> load_spec(contents) == LoadOutcomeView::Defaulted,
        contents matches Some(text) && parsed_fields(text) is None ==> load_spec(contents)
            == LoadOutcomeView::DefaultedDueToError,
        !(load_spec(contents) is Loaded) ==> load_spec(contents).config() == ConfigView::initial(),
{
}

/// What the settings file holds after a save, given what it held before: the
/// text that the save handed out, once it is written over the file, or the
/// old contents where the save handed out nothing.
pub open spec fn file_after_save(before: Option<Seq<char>>, config: ConfigView) -> Option<
    Seq<char>,
> {
    match save_spec(config) {
        Some(text) => Some(text),
        None => before,
    }
}

/// A load after a save gives the record that was saved: whatever text a
/// save hands out loads as that record, so the file holds it once the text is
/// written. Where a save hands out nothing, the file is as it was.
pub proof fn lemma_load_after_save(before: Option<Seq<char>>, config: ConfigView)
    ensures
        save_spec(config) matches Some(text) ==> load_spec(Some(text)) == LoadOutcomeView::Loaded(
            config,
        ),
        save_spec(config) is Some ==> load_spec(file_after_save(before, config))
            == LoadOutcomeView::Loaded(config),
        save_spec(config) is None ==> file_after_save(before, config) == before,
{
}

/// A save of a record that can be written hands out the rendered text
/// wherever the `toml` crate reads that text back as the table of the
/// entries that were written: nothing else of the record stands in the way.
pub proof fn lemma_save_needs_only_a_faithful_text(config: ConfigView)
    requires
        config.writable(),
    ensures
        rendered(entries_of(config)) matches Some(text) ==> (parsed_fields(text) == Some(
            fields_of(entries_of(config)),
        ) ==> save_spec(config) == Some(text)),
{
    lemma_entries_stand_for_record(config);
}

/// A record can be written where it has no folder, and where its folder's
/// name is shorter than the run of quote characters that the writer cannot
/// take.
pub proof fn lemma_short_folder_names_are_writable(config: ConfigView)
    requires
        config.selected_folder matches Some(folder) ==> folder.len() < QUOTE_RUN_LIMIT,
    ensures
        config.writable(),
{
}

/// Saving the same record a second time leaves the file as the first save
/// left it, so a load after either save ends the same way.
pub proof fn lemma_save_twice_is_save_once(before: Option<Seq<char>>, config: ConfigView)
    ensures
        file_after_save(file_after_save(before, config), config) == file_after_save(
            before,
            config,
        ),
        load_spec(file_after_save(file_after_save(before, config), config)) == load_spec(
            file_after_save(before, config),
        ),
{
}

} // verus!
