use okay_you_very_pro::style::{Accent, Icon, IconButton, Swatch};

#[test]
fn folder_button_is_positive_where_the_folder_exists() {
    let button = IconButton::new(Icon::Folder, true);
    assert_eq!(button, IconButton { icon: Icon::Folder, background: Accent::Positive });
    assert_eq!(button.active(), Swatch::Green);
    assert_eq!(button.hovered(), Swatch::LightGreen);
    assert_eq!(button.pressed(), Swatch::DarkGreen);
}

#[test]
fn folder_button_is_negative_where_the_folder_is_missing() {
    let button = IconButton::new(Icon::Folder, false);
    assert_eq!(button, IconButton { icon: Icon::Folder, background: Accent::Negative });
    assert_eq!(button.active(), Swatch::Red);
    assert_eq!(button.hovered(), Swatch::LightRed);
    assert_eq!(button.pressed(), Swatch::DarkRed);
}

#[test]
fn home_button_is_neutral_whatever_the_flag() {
    for folder_exists in [true, false] {
        let button = IconButton::new(Icon::Home, folder_exists);
        assert_eq!(button, IconButton { icon: Icon::Home, background: Accent::Neutral });
        assert_eq!(button.active(), Swatch::TopBar);
        assert_eq!(button.hovered(), Swatch::TopBar);
        assert_eq!(button.pressed(), Swatch::TopBar);
    }
}
