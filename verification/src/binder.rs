//! The binder of settings and view: the settings in memory, the flag derived
//! from them, and what each message does to both.

use crate::config::{load_spec, save_spec, Config, ConfigView, LoadOutcomeView};
use vstd::prelude::*;
use vstd::string::StringExecFns;

verus! {

/// Page that the home button opens.
pub const GITHUB_URL: &'static str = "https://github.com/B-2U/OkayYouVeryPro";

/// Start of a player's profile page; the player's name follows.
pub const PLAYER_URL_PREFIX: &'static str = "https://example.com/player/";

/// What the window and its widgets report.
#[derive(Debug, PartialEq, Eq)]
pub enum Message {
    /// The window has a new size: width, then height.
    WindowResized(u32, u32),
    /// The home button was pressed.
    OpenGithub,
    /// The folder button was pressed.
    OpenFolderDialog,
    /// The folder dialog ended with a choice; `exists` says whether that
    /// folder is on disk now. A dialog that was dismissed sends nothing.
    FolderPicked { folder: String, exists: bool },
    /// A player's name was pressed.
    PlayerNameClicked(String),
    /// Any other event.
    Nothing,
}

/// A [`Message`] as a mathematical value.
pub enum MessageView {
    WindowResized(u32, u32),
    OpenGithub,
    OpenFolderDialog,
    FolderPicked { folder: Seq<char>, exists: bool },
    PlayerNameClicked(Seq<char>),
    Nothing,
}

impl MessageView {
    /// Whether the message has the settings persisted: a resize to a
    /// positive width and height, and a picked folder.
    pub open spec fn persists(self) -> bool {
        match self {
            MessageView::WindowResized(width, height) => width > 0 && height > 0,
            MessageView::FolderPicked { .. } => true,
            _ => false,
        }
    }
}

impl View for Message {
    type V = MessageView;

    open spec fn view(&self) -> MessageView {
        match self {
            Message::WindowResized(width, height) => MessageView::WindowResized(*width, *height),
            Message::OpenGithub => MessageView::OpenGithub,
            Message::OpenFolderDialog => MessageView::OpenFolderDialog,
            Message::FolderPicked { folder, exists } => MessageView::FolderPicked {
                folder: folder@,
                exists: *exists,
            },
            Message::PlayerNameClicked(name) => MessageView::PlayerNameClicked(name@),
            Message::Nothing => MessageView::Nothing,
        }
    }
}

impl Clone for Message {
    fn clone(&self) -> (copy: Message)
        ensures
            copy@ == self@,
    {
        match self {
            Message::WindowResized(width, height) => Message::WindowResized(*width, *height),
            Message::OpenGithub => Message::OpenGithub,
            Message::OpenFolderDialog => Message::OpenFolderDialog,
            Message::FolderPicked { folder, exists } => Message::FolderPicked {
                folder: folder.clone(),
                exists: *exists,
            },
            Message::PlayerNameClicked(name) => Message::PlayerNameClicked(name.clone()),
            Message::Nothing => Message::Nothing,
        }
    }
}

/// What the program has to do after a message was handled.
#[derive(Debug, PartialEq, Eq)]
pub enum Action {
    /// Nothing.
    Nothing,
    /// Write this text over the settings file.
    WriteConfig(String),
    /// Open this address in the browser.
    OpenUrl(String),
    /// Show the folder dialog, and send [`Message::FolderPicked`] on a choice.
    PickFolder,
    /// Report that the settings could not be rendered. The settings in
    /// memory stand; nothing is written.
    ReportUnsaved,
}

/// An [`Action`] as a mathematical value.
pub enum ActionView {
    Nothing,
    WriteConfig(Seq<char>),
    OpenUrl(Seq<char>),
    PickFolder,
    ReportUnsaved,
}

impl View for Action {
    type V = ActionView;

    open spec fn view(&self) -> ActionView {
        match self {
            Action::Nothing => ActionView::Nothing,
            Action::WriteConfig(text) => ActionView::WriteConfig(text@),
            Action::OpenUrl(url) => ActionView::OpenUrl(url@),
            Action::PickFolder => ActionView::PickFolder,
            Action::ReportUnsaved => ActionView::ReportUnsaved,
        }
    }
}

impl ActionView {
    /// The action that follows a save: write the text, if there is one.
    pub open spec fn after_save(saved: Option<Seq<char>>) -> ActionView {
        match saved {
            Some(text) => ActionView::WriteConfig(text),
            None => ActionView::Nothing,
        }
    }

    /// The action that follows a save of changed settings: write the text,
    /// or report that there is none.
    pub open spec fn after_changed_save(saved: Option<Seq<char>>) -> ActionView {
        if saved is Some {
            ActionView::after_save(saved)
        } else {
            ActionView::ReportUnsaved
        }
    }
}

impl Action {
    /// The action that follows a save: write the text, if there is one.
    pub fn after_save(saved: Option<String>) -> (action: Action)
        ensures
            action@ == ActionView::after_save(
                match saved {
                    Some(text) => Some(text@),
                    None => None,
                },
            ),
    {
        match saved {
            Some(text) => Action::WriteConfig(text),
            None => Action::Nothing,
        }
    }

    /// The action that follows a save of changed settings: write the text,
    /// or report that there is none.
    pub fn after_changed_save(saved: Option<String>) -> (action: Action)
        ensures
            action@ == ActionView::after_changed_save(
                match saved {
                    Some(text) => Some(text@),
                    None => None,
                },
            ),
    {
        if saved.is_some() {
            Action::after_save(saved)
        } else {
            Action::ReportUnsaved
        }
    }
}

/// The settings in memory, with the flag that says whether the selected
/// folder was on disk when it was last looked for.
#[derive(Debug, PartialEq, Eq)]
pub struct Binder {
    pub config: Config,
    pub folder_exists: bool,
}

/// A [`Binder`] as a mathematical value.
pub struct BinderView {
    pub config: ConfigView,
    pub folder_exists: bool,
}

impl View for Binder {
    type V = BinderView;

    open spec fn view(&self) -> BinderView {
        BinderView { config: self.config@, folder_exists: self.folder_exists }
    }
}

impl BinderView {
    /// The flag is set only where a folder is selected.
    pub open spec fn well_formed(self) -> bool {
        self.folder_exists ==> self.config.selected_folder is Some
    }

    /// The state at start, from the loaded record and from whether its
    /// folder was found on disk.
    pub open spec fn start(config: ConfigView, folder_found: bool) -> BinderView {
        BinderView {
            config,
            folder_exists: config.selected_folder is Some && folder_found,
        }
    }

    /// The state after a message.
    pub open spec fn next(self, message: MessageView) -> BinderView {
        match message {
            MessageView::WindowResized(width, height) => if width > 0 && height > 0 {
                BinderView {
                    config: ConfigView {
                        window_width: width,
                        window_height: height,
                        selected_folder: self.config.selected_folder,
                    },
                    folder_exists: self.folder_exists,
                }
            } else {
                self
            },
            MessageView::FolderPicked { folder, exists } => BinderView {
                config: ConfigView {
                    window_width: self.config.window_width,
                    window_height: self.config.window_height,
                    selected_folder: Some(folder),
                },
                folder_exists: exists,
            },
            _ => self,
        }
    }

    /// What the program has to do after a message: persist the record that
    /// the message changed, or report that it cannot be, open a page, or
    /// show the dialog.
    pub open spec fn action(self, message: MessageView) -> ActionView {
        match message {
            MessageView::WindowResized(width, height) => if width > 0 && height > 0 {
                ActionView::after_changed_save(save_spec(self.next(message).config))
            } else {
                ActionView::Nothing
            },
            MessageView::OpenGithub => ActionView::OpenUrl(GITHUB_URL@),
            MessageView::OpenFolderDialog => ActionView::PickFolder,
            MessageView::FolderPicked { .. } => ActionView::after_changed_save(
                save_spec(self.next(message).config),
            ),
            MessageView::PlayerNameClicked(name) => ActionView::OpenUrl(PLAYER_URL_PREFIX@ + name),
            MessageView::Nothing => ActionView::Nothing,
        }
    }
}

impl Binder {
    /// The state at start. `folder_found` says whether the selected folder
    /// is on disk; without a selected folder the flag is off whatever it says.
    pub fn new(config: Config, folder_found: bool) -> (state: Binder)
        ensures
            state@ == BinderView::start(config@, folder_found),
            state@.well_formed(),
    {
        let folder_exists = config.selected_folder.is_some() && folder_found;
        Binder { config, folder_exists }
    }

    /// Handles one message: brings the state up to date and says what the
    /// program has to do. A resize to no width or no height changes nothing
    /// and asks for nothing.
    pub fn update(&mut self, message: Message) -> (action: Action)
        ensures
            final(self)@ == old(self)@.next(message@),
            action@ == old(self)@.action(message@),
            message matches Message::WindowResized(width, height) && (width == 0 || height == 0)
                ==> final(self)@ == old(self)@ && action@ == ActionView::Nothing,
            old(self)@.well_formed() ==> final(self)@.well_formed(),
    {
        match message {
            Message::WindowResized(width, height) => {
                if width > 0 && height > 0 {
                    self.config.window_width = width;
                    self.config.window_height = height;
                    Action::after_changed_save(self.config.save())
                } else {
                    Action::Nothing
                }
            },
            Message::OpenGithub => Action::OpenUrl(GITHUB_URL.to_owned()),
            Message::OpenFolderDialog => Action::PickFolder,
            Message::FolderPicked { folder, exists } => {
                self.config.selected_folder = Some(folder);
                self.folder_exists = exists;
                Action::after_changed_save(self.config.save())
            },
            Message::PlayerNameClicked(name) => Action::OpenUrl(
                PLAYER_URL_PREFIX.to_owned().concat(name.as_str()),
            ),
            Message::Nothing => Action::Nothing,
        }
    }
}

/// A resize to no width or to no height leaves the state as it was and asks
/// for nothing: the settings are neither changed nor persisted.
pub proof fn lemma_empty_resize_is_dropped(state: BinderView, width: u32, height: u32)
    requires
        width == 0 || height == 0,
    ensures
        state.next(MessageView::WindowResized(width, height)) == state,
        state.action(MessageView::WindowResized(width, height)) == ActionView::Nothing,
{
}

/// A resize to a positive width and height is taken over into the settings
/// and persisted at once, and the folder and its flag stay as they were.
pub proof fn lemma_resize_is_recorded(state: BinderView, width: u32, height: u32)
    requires
        width > 0,
        height > 0,
    ensures
        ({
            let after = state.next(MessageView::WindowResized(width, height));
            &&& after.config.window_width == width
            &&& after.config.window_height == height
            &&& after.config.selected_folder == state.config.selected_folder
            &&& after.folder_exists == state.folder_exists
            &&& state.action(MessageView::WindowResized(width, height))
                == ActionView::after_changed_save(save_spec(after.config))
        }),
{
}

/// After a folder was picked the settings hold it, the flag says what was
/// found for it, the window size is untouched, and the record is persisted
/// at once.
pub proof fn lemma_pick_sets_folder_and_flag(state: BinderView, folder: Seq<char>, exists: bool)
    ensures
        ({
            let picked = MessageView::FolderPicked { folder, exists };
            let after = state.next(picked);
            &&& after.config.selected_folder == Some(folder)
            &&& after.folder_exists == exists
            &&& after.config.window_width == state.config.window_width
            &&& after.config.window_height == state.config.window_height
            &&& state.action(picked) == ActionView::after_changed_save(save_spec(after.config))
        }),
{
}

/// Whatever text a message has written loads as the settings that the state
/// holds after that message.
pub proof fn lemma_written_text_loads_as_state(state: BinderView, message: MessageView)
    ensures
        state.action(message) matches ActionView::WriteConfig(text) ==> load_spec(Some(text))
            == LoadOutcomeView::Loaded(state.next(message).config),
{
}

/// No message breaks the state: the flag stays off while no folder is
/// selected, and window dimensions that were positive stay positive.
pub proof fn lemma_update_keeps_state_sound(state: BinderView, message: MessageView)
    ensures
        state.well_formed() ==> state.next(message).well_formed(),
        state.config.positive() ==> state.next(message).config.positive(),
{
}

/// Only a positive resize and a picked folder change the settings, and
/// only they have anything written or reported as unsaved.
pub proof fn lemma_other_messages_keep_settings(state: BinderView, message: MessageView)
    requires
        !message.persists(),
    ensures
        state.next(message) == state,
        !(state.action(message) is WriteConfig),
        !(state.action(message) is ReportUnsaved),
{
}

/// After a positive resize and after a picked folder the settings are
/// written or reported as unsaved, never passed over in silence: they are
/// reported exactly where the save hands out no text, which it does for
/// every record that cannot be written.
pub proof fn lemma_changed_settings_are_written_or_reported(
    state: BinderView,
    message: MessageView,
)
    requires
        message.persists(),
    ensures
        state.action(message) is WriteConfig || state.action(message) is ReportUnsaved,
        state.action(message) is ReportUnsaved <==> save_spec(state.next(message).config) is None,
        !state.next(message).config.writable() ==> state.action(message) is ReportUnsaved,
{
}

} // verus!
