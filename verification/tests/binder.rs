use okay_you_very_pro::config::{Config, LoadOutcome};
use okay_you_very_pro::binder::{Action, Binder, Message, GITHUB_URL, PLAYER_URL_PREFIX};

fn state(width: u32, height: u32, folder: Option<&str>, folder_exists: bool) -> Binder {
    Binder {
        config: Config {
            window_width: width,
            window_height: height,
            selected_folder: folder.map(|f| f.to_string()),
        },
        folder_exists,
    }
}

fn written(action: Action) -> Config {
    match action {
        Action::WriteConfig(text) => match Config::load(Some(text.as_str())) {
            LoadOutcome::Loaded(config) => config,
            other => panic!("the written text does not load: {other:?}"),
        },
        other => panic!("nothing was written: {other:?}"),
    }
}

#[test]
fn start_takes_the_flag_from_the_probe() {
    let config = Config {
        window_width: 1200,
        window_height: 800,
        selected_folder: Some("/tmp/exists".to_string()),
    };
    assert_eq!(Binder::new(config.clone(), true), state(1200, 800, Some("/tmp/exists"), true));
    assert_eq!(Binder::new(config, false), state(1200, 800, Some("/tmp/exists"), false));
}

#[test]
fn start_without_folder_has_the_flag_off() {
    assert_eq!(Binder::new(Config::default(), true), state(1200, 800, None, false));
    assert_eq!(Binder::new(Config::default(), false), state(1200, 800, None, false));
}

#[test]
fn resize_to_no_width_or_height_changes_nothing() {
    for (width, height) in [(0, 0), (0, 600), (800, 0), (0, u32::MAX), (u32::MAX, 0)] {
        let mut view = state(1200, 800, Some("/tmp/exists"), true);
        let action = view.update(Message::WindowResized(width, height));
        assert_eq!(action, Action::Nothing);
        assert_eq!(view, state(1200, 800, Some("/tmp/exists"), true));
    }
}

#[test]
fn resize_is_recorded_and_persisted() {
    let mut view = state(1200, 800, Some("/tmp/exists"), true);
    let action = view.update(Message::WindowResized(1024, 768));
    assert_eq!(view, state(1024, 768, Some("/tmp/exists"), true));
    assert_eq!(
        action,
        Action::WriteConfig(
            "window_width = 1024\nwindow_height = 768\nselected_folder = \"/tmp/exists\"\n"
                .to_string()
        )
    );
}

#[test]
fn resize_to_one_by_one_is_recorded() {
    let mut view = state(1200, 800, None, false);
    let action = view.update(Message::WindowResized(1, 1));
    assert_eq!(view, state(1, 1, None, false));
    assert_eq!(written(action), view.config);
}

#[test]
fn resize_to_the_largest_size_is_recorded() {
    let mut view = state(1200, 800, None, false);
    let action = view.update(Message::WindowResized(u32::MAX, u32::MAX));
    assert_eq!(view, state(u32::MAX, u32::MAX, None, false));
    assert_eq!(written(action), view.config);
}

#[test]
fn picked_folder_is_recorded_with_its_flag() {
    let mut view = state(1200, 800, None, false);
    let action = view.update(Message::FolderPicked {
        folder: "/tmp/exists".to_string(),
        exists: true,
    });
    assert_eq!(view, state(1200, 800, Some("/tmp/exists"), true));
    assert_eq!(
        action,
        Action::WriteConfig(
            "window_width = 1200\nwindow_height = 800\nselected_folder = \"/tmp/exists\"\n"
                .to_string()
        )
    );
}

#[test]
fn picking_a_missing_folder_turns_the_flag_off() {
    let mut view = state(1024, 768, Some("/tmp/exists"), true);
    let action = view.update(Message::FolderPicked {
        folder: "/tmp/gone".to_string(),
        exists: false,
    });
    assert_eq!(view, state(1024, 768, Some("/tmp/gone"), false));
    assert_eq!(written(action), view.config);
}

#[test]
fn folder_button_asks_for_the_dialog() {
    let mut view = state(1200, 800, Some("/tmp/exists"), true);
    assert_eq!(view.update(Message::OpenFolderDialog), Action::PickFolder);
    assert_eq!(view, state(1200, 800, Some("/tmp/exists"), true));
}

#[test]
fn home_button_opens_the_project_page() {
    let mut view = state(1200, 800, None, false);
    assert_eq!(
        view.update(Message::OpenGithub),
        Action::OpenUrl("https://github.com/B-2U/OkayYouVeryPro".to_string())
    );
    assert_eq!(view, state(1200, 800, None, false));
    assert_eq!(GITHUB_URL, "https://github.com/B-2U/OkayYouVeryPro");
}

#[test]
fn player_name_opens_the_profile() {
    let mut view = state(1200, 800, None, false);
    assert_eq!(
        view.update(Message::PlayerNameClicked("Alpha".to_string())),
        Action::OpenUrl("https://example.com/player/Alpha".to_string())
    );
    assert_eq!(
        view.update(Message::PlayerNameClicked(String::new())),
        Action::OpenUrl("https://example.com/player/".to_string())
    );
    assert_eq!(view, state(1200, 800, None, false));
    assert_eq!(PLAYER_URL_PREFIX, "https://example.com/player/");
}

#[test]
fn picking_a_folder_that_cannot_be_written_is_reported() {
    for quote in ["'", "\""] {
        let folder = quote.repeat(256);
        let mut view = state(1200, 800, None, false);
        let action = view.update(Message::FolderPicked { folder: folder.clone(), exists: true });
        assert_eq!(action, Action::ReportUnsaved);
        assert_eq!(view, state(1200, 800, Some(folder.as_str()), true));
    }
}

#[test]
fn resize_with_a_folder_that_cannot_be_written_is_reported() {
    let folder = "'".repeat(256);
    let mut view = state(1200, 800, Some(folder.as_str()), false);
    assert_eq!(view.update(Message::WindowResized(1024, 768)), Action::ReportUnsaved);
    assert_eq!(view, state(1024, 768, Some(folder.as_str()), false));
    assert_eq!(view.update(Message::WindowResized(0, 768)), Action::Nothing);
    assert_eq!(view, state(1024, 768, Some(folder.as_str()), false));
}

#[test]
fn after_changed_save_writes_the_text_or_reports() {
    assert_eq!(
        Action::after_changed_save(Some("window_width = 1\n".to_string())),
        Action::WriteConfig("window_width = 1\n".to_string())
    );
    assert_eq!(Action::after_changed_save(None), Action::ReportUnsaved);
}

#[test]
fn clone_keeps_the_message() {
    for message in [
        Message::WindowResized(1024, 768),
        Message::OpenGithub,
        Message::OpenFolderDialog,
        Message::FolderPicked { folder: "/tmp/exists".to_string(), exists: true },
        Message::PlayerNameClicked("Alpha".to_string()),
        Message::Nothing,
    ] {
        assert_eq!(message.clone(), message);
    }
}

#[test]
fn other_events_do_nothing() {
    let mut view = state(1200, 800, Some("/tmp/exists"), false);
    assert_eq!(view.update(Message::Nothing), Action::Nothing);
    assert_eq!(view, state(1200, 800, Some("/tmp/exists"), false));
}

#[test]
fn after_save_writes_the_text_if_there_is_one() {
    assert_eq!(
        Action::after_save(Some("window_width = 1\n".to_string())),
        Action::WriteConfig("window_width = 1\n".to_string())
    );
    assert_eq!(Action::after_save(None), Action::Nothing);
}

#[test]
fn a_session_of_messages_keeps_the_last_values() {
    let mut view = Binder::new(Config::load(None).into_config(), false);
    assert_eq!(written(view.update(Message::WindowResized(1280, 720))), view.config);
    assert_eq!(view.update(Message::WindowResized(0, 720)), Action::Nothing);
    assert_eq!(view.update(Message::OpenFolderDialog), Action::PickFolder);
    let action = view.update(Message::FolderPicked { folder: "/data".to_string(), exists: true });
    let stored = written(action);
    assert_eq!(stored, view.config);
    assert_eq!(view, state(1280, 720, Some("/data"), true));
    let next = Binder::new(stored, false);
    assert_eq!(next, state(1280, 720, Some("/data"), false));
}
