//! Which colour of the theme an icon button takes, from what it shows and
//! from how the pointer meets it.

use vstd::prelude::*;

verus! {

/// The icons of the top bar.
#[derive(Debug, Clone, Copy, PartialEq, Eq, Structural)]
pub enum Icon {
    Home,
    Folder,
}

/// What an icon button's background says.
#[derive(Debug, Clone, Copy, PartialEq, Eq, Structural)]
pub enum Accent {
    /// Nothing: the button blends into the top bar.
    Neutral,
    /// The selected folder is there.
    Positive,
    /// No folder is selected, or the selected one is gone.
    Negative,
}

/// The colours of the theme that an icon button can take.
#[derive(Debug, Clone, Copy, PartialEq, Eq, Structural)]
pub enum Swatch {
    TopBar,
    Green,
    LightGreen,
    DarkGreen,
    Red,
    LightRed,
    DarkRed,
}

/// The accent of an icon: the folder icon shows whether the folder exists,
/// every other icon is neutral.
pub open spec fn accent_of(icon: Icon, folder_exists: bool) -> Accent {
    match icon {
        Icon::Folder => if folder_exists {
            Accent::Positive
        } else {
            Accent::Negative
        },
        Icon::Home => Accent::Neutral,
    }
}

/// The style of one icon button.
#[derive(Debug, Clone, Copy, PartialEq, Eq, Structural)]
pub struct IconButton {
    pub icon: Icon,
    pub background: Accent,
}

impl IconButton {
    /// The button for `icon`, given the binder's folder flag.
    pub fn new(icon: Icon, folder_exists: bool) -> (button: IconButton)
        ensures
            button.icon == icon,
            button.background == accent_of(icon, folder_exists),
    {
        let background = match icon {
            Icon::Folder => {
                if folder_exists {
                    Accent::Positive
                } else {
                    Accent::Negative
                }
            },
            Icon::Home => Accent::Neutral,
        };
        IconButton { icon, background }
    }

    /// The background while the pointer is elsewhere.
    pub open spec fn active_spec(self) -> Swatch {
        match self.background {
            Accent::Positive => Swatch::Green,
            Accent::Negative => Swatch::Red,
            Accent::Neutral => Swatch::TopBar,
        }
    }

    /// The background under the pointer: a lighter shade of the accent.
    pub open spec fn hovered_spec(self) -> Swatch {
        match self.background {
            Accent::Positive => Swatch::LightGreen,
            Accent::Negative => Swatch::LightRed,
            Accent::Neutral => Swatch::TopBar,
        }
    }

    /// The background while pressed: a darker shade of the accent.
    pub open spec fn pressed_spec(self) -> Swatch {
        match self.background {
            Accent::Positive => Swatch::DarkGreen,
            Accent::Negative => Swatch::DarkRed,
            Accent::Neutral => Swatch::TopBar,
        }
    }

    /// The background while the pointer is elsewhere.
    pub fn active(&self) -> (swatch: Swatch)
        ensures
            swatch == self.active_spec(),
    {
        match self.background {
            Accent::Positive => Swatch::Green,
            Accent::Negative => Swatch::Red,
            Accent::Neutral => Swatch::TopBar,
        }
    }

    /// The background under the pointer.
    pub fn hovered(&self) -> (swatch: Swatch)
        ensures
            swatch == self.hovered_spec(),
    {
        match self.background {
            Accent::Positive => Swatch::LightGreen,
            Accent::Negative => Swatch::LightRed,
            Accent::Neutral => Swatch::TopBar,
        }
    }

    /// The background while pressed.
    pub fn pressed(&self) -> (swatch: Swatch)
        ensures
            swatch == self.pressed_spec(),
    {
        match self.background {
            Accent::Positive => Swatch::DarkGreen,
            Accent::Negative => Swatch::DarkRed,
            Accent::Neutral => Swatch::TopBar,
        }
    }
}

} // verus!
