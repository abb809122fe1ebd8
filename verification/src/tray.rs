//! The tray surface: the icon, its tooltip and its menu, and the mapping
//! of raw tray events to intents.

use crate::controller::Intent;
use crate::text::same_text;
use vstd::prelude::*;

verus! {

/// An entry of the tray menu that can be activated.
#[derive(Clone, Copy, Debug, PartialEq, Eq, Structural)]
pub enum TrayMenuItemId {
    ShowHide,
    Quit,
}

/// One row of the tray menu.
#[derive(Clone, Copy, Debug, PartialEq, Eq, Structural)]
pub enum MenuEntry {
    Item(TrayMenuItemId),
    Separator,
}

/// A mouse button.
#[derive(Clone, Copy, Debug, PartialEq, Eq, Structural)]
pub enum MouseButton {
    Left,
    Right,
    Middle,
}

/// The phase of a click.
#[derive(Clone, Copy, Debug, PartialEq, Eq, Structural)]
pub enum MouseButtonState {
    Up,
    Down,
}

/// What the pointer did on the tray icon.
#[derive(Clone, Copy, Debug, PartialEq, Eq, Structural)]
pub enum TrayEvent {
    Click { button: MouseButton, state: MouseButtonState },
    DoubleClick { button: MouseButton },
    Enter,
    Move,
    Leave,
}

/// Where the tray icon's image comes from.
#[derive(Clone, Copy, Debug, PartialEq, Eq, Structural)]
pub enum IconSource {
    /// The file at the icon path.
    File,
    /// The copy inside the executable.
    Embedded,
}

/// The tray has no image: neither source gave one.
#[derive(Clone, Copy, Debug, PartialEq, Eq, Structural)]
pub struct NoIcon;

impl TrayMenuItemId {
    /// The identifier under which the toolkit reports the item.
    pub open spec fn id_text(self) -> Seq<char> {
        match self {
            TrayMenuItemId::ShowHide => "show_hide"@,
            TrayMenuItemId::Quit => "quit"@,
        }
    }

    /// The label that the user reads.
    pub open spec fn label_text(self) -> Seq<char> {
        match self {
            TrayMenuItemId::ShowHide => "Show / Hide"@,
            TrayMenuItemId::Quit => "Quit"@,
        }
    }

    /// The intent that activating the item stands for.
    pub open spec fn intent_of(self) -> Intent {
        match self {
            TrayMenuItemId::ShowHide => Intent::ToggleRequested,
            TrayMenuItemId::Quit => Intent::QuitRequested,
        }
    }

    /// The identifier under which the toolkit reports the item.
    pub fn id(self) -> (text: &'static str)
        ensures
            text@ == self.id_text(),
    {
        match self {
            TrayMenuItemId::ShowHide => "show_hide",
            TrayMenuItemId::Quit => "quit",
        }
    }

    /// The label that the user reads.
    pub fn label(self) -> (text: &'static str)
        ensures
            text@ == self.label_text(),
    {
        match self {
            TrayMenuItemId::ShowHide => "Show / Hide",
            TrayMenuItemId::Quit => "Quit",
        }
    }

    /// The item with the identifier `id`, if there is one.
    pub fn from_id(id: &str) -> (item: Option<TrayMenuItemId>)
        ensures
            item == item_with_id(id@),
    {
        if same_text(id, "show_hide") {
            Some(TrayMenuItemId::ShowHide)
        } else if same_text(id, "quit") {
            Some(TrayMenuItemId::Quit)
        } else {
            None
        }
    }

    /// The intent that activating the item stands for.
    pub fn intent(self) -> (intent: Intent)
        ensures
            intent == self.intent_of(),
    {
        match self {
            TrayMenuItemId::ShowHide => Intent::ToggleRequested,
            TrayMenuItemId::Quit => Intent::QuitRequested,
        }
    }
}

/// The item that an identifier names.
pub open spec fn item_with_id(id: Seq<char>) -> Option<TrayMenuItemId> {
    if id == "show_hide"@ {
        Some(TrayMenuItemId::ShowHide)
    } else if id == "quit"@ {
        Some(TrayMenuItemId::Quit)
    } else {
        None
    }
}

/// The intent behind the activation of the menu item named `id`.
pub open spec fn menu_intent_of(id: Seq<char>) -> Option<Intent> {
    match item_with_id(id) {
        Some(item) => Some(item.intent_of()),
        None => None,
    }
}

/// The intent behind a pointer event on the tray icon: releasing the left
/// button toggles, and nothing else means anything.
pub open spec fn tray_intent_of(event: TrayEvent) -> Option<Intent> {
    if event == (TrayEvent::Click { button: MouseButton::Left, state: MouseButtonState::Up }) {
        Some(Intent::ToggleRequested)
    } else {
        None
    }
}

/// The rows of the tray menu, top to bottom.
pub open spec fn menu_rows() -> Seq<MenuEntry> {
    seq![
        MenuEntry::Item(TrayMenuItemId::ShowHide),
        MenuEntry::Separator,
        MenuEntry::Item(TrayMenuItemId::Quit),
    ]
}

/// The image to use, given which of the two sources could be loaded: the file
/// where it loaded, else the embedded copy, and none where that failed too.
pub open spec fn icon_choice(file_loaded: bool, embedded_loaded: bool) -> Result<
    IconSource,
    NoIcon,
> {
    if file_loaded {
        Ok(IconSource::File)
    } else if embedded_loaded {
        Ok(IconSource::Embedded)
    } else {
        Err(NoIcon)
    }
}

/// The tooltip of the tray icon.
pub fn tooltip() -> (text: &'static str)
    ensures
        text@ == "Close Chat"@,
{
    "Close Chat"
}

/// Where the icon file is looked for, relative to the working directory.
pub fn icon_path() -> (path: &'static str)
    ensures
        path@ == "icons/32x32.png"@,
{
    "icons/32x32.png"
}

/// The rows of the tray menu, top to bottom.
pub fn tray_menu() -> (rows: Vec<MenuEntry>)
    ensures
        rows@ == menu_rows(),
{
    let mut rows: Vec<MenuEntry> = Vec::new();
    rows.push(MenuEntry::Item(TrayMenuItemId::ShowHide));
    rows.push(MenuEntry::Separator);
    rows.push(MenuEntry::Item(TrayMenuItemId::Quit));
    proof {
        assert(rows@ =~= menu_rows());
    }
    rows
}

/// Picks the tray icon's image once both sources have been tried. Without
/// either the tray cannot be built, and startup fails.
pub fn choose_icon(file_loaded: bool, embedded_loaded: bool) -> (choice: Result<
    IconSource,
    NoIcon,
>)
    ensures
        choice == icon_choice(file_loaded, embedded_loaded),
{
    if file_loaded {
        Ok(IconSource::File)
    } else if embedded_loaded {
        Ok(IconSource::Embedded)
    } else {
        Err(NoIcon)
    }
}

/// The intent behind the activation of the menu item named `id`, if any.
pub fn menu_intent(id: &str) -> (intent: Option<Intent>)
    ensures
        intent == menu_intent_of(id@),
        id@ == "show_hide"@ ==> intent == Some(Intent::ToggleRequested),
        id@ == "quit"@ ==> intent == Some(Intent::QuitRequested),
        id@ != "show_hide"@ && id@ != "quit"@ ==> intent is None,
{
    proof {
        ids_differ();
    }
    match TrayMenuItemId::from_id(id) {
        Some(item) => Some(item.intent()),
        None => None,
    }
}

/// The intent behind a pointer event on the tray icon. Only the release of the left
/// button toggles the window: a press, another button, a double click or a
/// movement is ignored.
pub fn tray_intent(event: TrayEvent) -> (intent: Option<Intent>)
    ensures
        intent == tray_intent_of(event),
        intent is Some <==> event == (TrayEvent::Click {
            button: MouseButton::Left,
            state: MouseButtonState::Up,
        }),
        intent is Some ==> intent == Some(Intent::ToggleRequested),
{
    match event {
        TrayEvent::Click { button: MouseButton::Left, state: MouseButtonState::Up } => Some(
            Intent::ToggleRequested,
        ),
        _ => None,
    }
}

/// The two identifiers are different texts.
pub proof fn ids_differ()
    ensures
        "show_hide"@ != "quit"@,
{
    reveal_strlit("show_hide");
    reveal_strlit("quit");
    assert("show_hide"@.len() != "quit"@.len());
}

/// Each item is found again by its identifier, so no two items share one.
pub proof fn id_names_its_item(item: TrayMenuItemId)
    ensures
        item_with_id(item.id_text()) == Some(item),
{
    ids_differ();
}

} // verus!
