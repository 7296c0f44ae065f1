//! The closed vocabulary of the orchestrator: the events it consumes and the
//! commands it hands to its collaborators.

use crate::config::{Config, ConfigView};
use crate::geometry::Rect;
use vstd::prelude::*;

verus! {

/// Which part of a label an edit prompt changes.
#[derive(Clone, Copy, Debug, PartialEq, Eq, Structural)]
pub enum EditField {
    Title,
    Description,
}

/// The global hotkeys.
#[derive(Clone, Copy, Debug, PartialEq, Eq, Structural)]
pub enum HotkeyId {
    EditTitle,
    EditDescription,
    ToggleOverlay,
}

/// Which of the global hotkeys are registered with the platform.
#[derive(Clone, Copy, Debug, PartialEq, Eq, Structural)]
pub struct Registered {
    pub edit_title: bool,
    pub edit_description: bool,
    pub toggle_overlay: bool,
}

impl Registered {
    /// The registered identifiers as a set.
    pub open spec fn ids(self) -> Set<HotkeyId> {
        Set::new(
            |h: HotkeyId|
                match h {
                    HotkeyId::EditTitle => self.edit_title,
                    HotkeyId::EditDescription => self.edit_description,
                    HotkeyId::ToggleOverlay => self.toggle_overlay,
                },
        )
    }

    pub open spec fn nothing() -> Registered {
        Registered { edit_title: false, edit_description: false, toggle_overlay: false }
    }

    pub open spec fn everything() -> Registered {
        Registered { edit_title: true, edit_description: true, toggle_overlay: true }
    }

    /// No hotkey is registered.
    pub fn none() -> (r: Registered)
        ensures
            r == Self::nothing(),
            r.ids() == Set::<HotkeyId>::empty(),
    {
        let r = Registered { edit_title: false, edit_description: false, toggle_overlay: false };
        assert(r.ids() =~= Set::<HotkeyId>::empty());
        r
    }

    /// Whether the hotkey is registered.
    pub fn contains(self, hotkey: HotkeyId) -> (r: bool)
        ensures
            r == self.ids().contains(hotkey),
    {
        match hotkey {
            HotkeyId::EditTitle => self.edit_title,
            HotkeyId::EditDescription => self.edit_description,
            HotkeyId::ToggleOverlay => self.toggle_overlay,
        }
    }

    /// Whether all three hotkeys are registered.
    pub fn is_complete(self) -> (r: bool)
        ensures
            r == (self == Self::everything()),
    {
        self.edit_title && self.edit_description && self.toggle_overlay
    }
}

/// The entries of the tray menu.
#[derive(Clone, Copy, Debug, PartialEq, Eq, Structural)]
pub enum MenuCommand {
    EditTitle,
    EditDescription,
    ToggleOverlay,
    RevealConfigFile,
    Exit,
}

/// The two timers of the main window.
#[derive(Clone, Copy, Debug, PartialEq, Eq, Structural)]
pub enum TimerKind {
    /// Polls the active desktop.
    DesktopPoll,
    /// Polls the foreground window.
    FullscreenPoll,
}

/// What a session notification reports.
#[derive(Clone, Copy, Debug, PartialEq, Eq, Structural)]
pub enum SessionChange {
    Locked,
    Unlocked,
}

pub const TIMER_DESKTOP_POLL: usize = 1;

pub const TIMER_FULLSCREEN_POLL: usize = 2;

/// Period of the desktop poll, in milliseconds.
pub const DESKTOP_POLL_MS: u32 = 250;

/// Period of the fullscreen poll, in milliseconds.
pub const FULLSCREEN_POLL_MS: u32 = 1000;

/// Session notification code of a lock.
pub const SESSION_LOCK: u32 = 7;

/// Session notification code of an unlock.
pub const SESSION_UNLOCK: u32 = 8;

impl TimerKind {
    /// The timer with the given identifier; `None` for a timer of somebody
    /// else.
    pub fn from_id(id: usize) -> (r: Option<TimerKind>)
        ensures
            r == (if id == TIMER_DESKTOP_POLL {
                Some(TimerKind::DesktopPoll)
            } else if id == TIMER_FULLSCREEN_POLL {
                Some(TimerKind::FullscreenPoll)
            } else {
                None
            }),
    {
        if id == TIMER_DESKTOP_POLL {
            Some(TimerKind::DesktopPoll)
        } else if id == TIMER_FULLSCREEN_POLL {
            Some(TimerKind::FullscreenPoll)
        } else {
            None
        }
    }
}

impl SessionChange {
    /// What a session notification code reports; `None` for the codes that
    /// change nothing about the overlay.
    pub fn from_code(code: u32) -> (r: Option<SessionChange>)
        ensures
            r == (if code == SESSION_LOCK {
                Some(SessionChange::Locked)
            } else if code == SESSION_UNLOCK {
                Some(SessionChange::Unlocked)
            } else {
                None
            }),
    {
        if code == SESSION_LOCK {
            Some(SessionChange::Locked)
        } else if code == SESSION_UNLOCK {
            Some(SessionChange::Unlocked)
        } else {
            None
        }
    }
}

pub const HK_EDIT_TITLE: i32 = 1;

pub const HK_EDIT_DESC: i32 = 2;

pub const HK_TOGGLE: i32 = 3;

pub const CMD_EDIT_TITLE: u16 = 1001;

pub const CMD_EDIT_DESC: u16 = 1002;

pub const CMD_TOGGLE: u16 = 1003;

pub const CMD_OPEN_CONFIG: u16 = 1004;

pub const CMD_EXIT: u16 = 1005;

impl HotkeyId {
    /// The identifier under which the hotkey is registered.
    pub open spec fn code(self) -> i32 {
        match self {
            HotkeyId::EditTitle => HK_EDIT_TITLE,
            HotkeyId::EditDescription => HK_EDIT_DESC,
            HotkeyId::ToggleOverlay => HK_TOGGLE,
        }
    }

    pub fn id(self) -> (r: i32)
        ensures
            r == self.code(),
    {
        match self {
            HotkeyId::EditTitle => HK_EDIT_TITLE,
            HotkeyId::EditDescription => HK_EDIT_DESC,
            HotkeyId::ToggleOverlay => HK_TOGGLE,
        }
    }

    /// The hotkey registered under `id`; `None` for an identifier that this
    /// application never registered.
    pub fn from_id(id: i32) -> (r: Option<HotkeyId>)
        ensures
            match r {
                Some(h) => h.code() == id,
                None => forall|h: HotkeyId| h.code() != id,
            },
    {
        if id == HK_EDIT_TITLE {
            Some(HotkeyId::EditTitle)
        } else if id == HK_EDIT_DESC {
            Some(HotkeyId::EditDescription)
        } else if id == HK_TOGGLE {
            Some(HotkeyId::ToggleOverlay)
        } else {
            None
        }
    }
}

impl MenuCommand {
    /// The command code that the menu entry carries.
    pub open spec fn code(self) -> u16 {
        match self {
            MenuCommand::EditTitle => CMD_EDIT_TITLE,
            MenuCommand::EditDescription => CMD_EDIT_DESC,
            MenuCommand::ToggleOverlay => CMD_TOGGLE,
            MenuCommand::RevealConfigFile => CMD_OPEN_CONFIG,
            MenuCommand::Exit => CMD_EXIT,
        }
    }

    pub fn id(self) -> (r: u16)
        ensures
            r == self.code(),
    {
        match self {
            MenuCommand::EditTitle => CMD_EDIT_TITLE,
            MenuCommand::EditDescription => CMD_EDIT_DESC,
            MenuCommand::ToggleOverlay => CMD_TOGGLE,
            MenuCommand::RevealConfigFile => CMD_OPEN_CONFIG,
            MenuCommand::Exit => CMD_EXIT,
        }
    }

    /// The menu entry with the given code; `None` for a code of another menu.
    pub fn from_code(code: u16) -> (r: Option<MenuCommand>)
        ensures
            match r {
                Some(c) => c.code() == code,
                None => forall|c: MenuCommand| c.code() != code,
            },
    {
        if code == CMD_EDIT_TITLE {
            Some(MenuCommand::EditTitle)
        } else if code == CMD_EDIT_DESC {
            Some(MenuCommand::EditDescription)
        } else if code == CMD_TOGGLE {
            Some(MenuCommand::ToggleOverlay)
        } else if code == CMD_OPEN_CONFIG {
            Some(MenuCommand::RevealConfigFile)
        } else if code == CMD_EXIT {
            Some(MenuCommand::Exit)
        } else {
            None
        }
    }
}

/// Different hotkeys are registered under different identifiers, and
/// different menu entries carry different codes.
pub proof fn lemma_codes_are_injective(a: HotkeyId, b: HotkeyId, c: MenuCommand, d: MenuCommand)
    ensures
        a.code() == b.code() ==> a == b,
        c.code() == d.code() ==> c == d,
{
}

/// The memory of the desktop poll: the identifier it saw last. The poll
/// reports a desktop only when it differs from that.
#[derive(Debug)]
pub struct DesktopPoller {
    last: String,
}

impl DesktopPoller {
    /// The identifier that the poll saw last.
    pub closed spec fn last_seen(&self) -> Seq<char> {
        self.last@
    }

    pub fn new(current: String) -> (r: Self)
        ensures
            r.last_seen() == current@,
    {
        DesktopPoller { last: current }
    }

    /// Takes what the platform reports as the active desktop. The answer is
    /// the event to post, where the desktop is another than the one seen
    /// last, and `None` where it is the same.
    pub fn observe(&mut self, id: String) -> (r: Option<Event>)
        ensures
            final(self).last_seen() == id@,
            id@ == old(self).last_seen() ==> r is None,
            id@ != old(self).last_seen() ==> r is Some && r->0@ == EventView::DesktopChanged(id@),
    {
        if id == self.last {
            None
        } else {
            self.last = id.clone();
            Some(Event::DesktopChanged(id))
        }
    }
}

/// What the orchestrator asks of its collaborators. A command carries no
/// data: the collaborator reads what it needs from the orchestrator.
#[derive(Clone, Copy, Debug, PartialEq, Eq, Structural)]
pub enum Command {
    /// Draw the overlay's text anew.
    Render,
    /// Hide the overlay window.
    Hide,
    /// Show the overlay window and put it back on top of the others.
    ShowTopmost,
    /// Release every global hotkey.
    UnregisterHotkeys,
    /// Register the configured chords, and report back how it went.
    RegisterHotkeys,
    /// Tell the user that two chords collide.
    NotifyDuplicateHotkeys,
    /// Tell the user that a chord could not be registered.
    NotifyHotkeyFailure,
    /// Open the edit prompt for the current desktop.
    PromptEdit(EditField),
    /// Write the configuration to disk, atomically.
    SaveConfig,
    /// Read the configuration from disk and report what was found.
    ReloadConfig,
    /// Show the configuration file to the user.
    RevealConfigFile,
    /// Subscribe to the platform's desktop-switch notifications.
    StartDesktopEvents,
    /// Start polling the active desktop.
    StartDesktopPoll,
    /// Start polling the foreground window.
    StartFullscreenPoll,
    /// Start watching the configuration file.
    StartFileWatch,
    /// Subscribe to session lock and unlock notifications.
    SubscribeSession,
    /// Stop the background watchers and wait for them.
    StopWatchers,
    /// Give up the session subscription.
    UnsubscribeSession,
    /// Release the window and end the event loop.
    ReleaseWindow,
}

/// One event of the orchestrator's queue. Where outside work is needed to know
/// what happened, its result comes with the event.
#[derive(Debug)]
pub enum Event {
    /// The platform reports this desktop as the active one.
    DesktopChanged(String),
    /// The configuration file changed on disk.
    ConfigFileChanged,
    /// The configuration was read again: the document, or `None` where the
    /// file could not be read or parsed.
    ConfigLoaded(Option<Config>),
    /// Registration of the chords was tried; these are the ones that the
    /// platform accepted.
    HotkeysRegistered(Registered),
    HotkeyPressed(HotkeyId),
    TrayOrMenuCommand(MenuCommand),
    /// A double click on the tray icon.
    TrayDoubleClick,
    /// The user confirmed an edit prompt that was opened for desktop `key`.
    EditConfirmed { key: String, field: EditField, text: String },
    SessionLocked,
    /// The session was unlocked; the flag is the live high-contrast state.
    SessionUnlocked { high_contrast: bool },
    /// A system setting changed; the flag is the live high-contrast state.
    SettingsChanged { high_contrast: bool },
    /// The fullscreen poll fired. `foreground` holds the bounds of the
    /// foreground window, unless there is none or it is the overlay itself.
    FullscreenPollTick { foreground: Option<Rect>, work_area: Rect },
    /// The main window is being destroyed.
    Shutdown,
}

pub enum EventView {
    DesktopChanged(Seq<char>),
    ConfigFileChanged,
    ConfigLoaded(Option<ConfigView>),
    HotkeysRegistered(Registered),
    HotkeyPressed(HotkeyId),
    TrayOrMenuCommand(MenuCommand),
    TrayDoubleClick,
    EditConfirmed { key: Seq<char>, field: EditField, text: Seq<char> },
    SessionLocked,
    SessionUnlocked { high_contrast: bool },
    SettingsChanged { high_contrast: bool },
    FullscreenPollTick { foreground: Option<Rect>, work_area: Rect },
    Shutdown,
}

impl View for Event {
    type V = EventView;

    open spec fn view(&self) -> EventView {
        match self {
            Event::DesktopChanged(id) => EventView::DesktopChanged(id@),
            Event::ConfigFileChanged => EventView::ConfigFileChanged,
            Event::ConfigLoaded(Some(c)) => EventView::ConfigLoaded(Some(c@)),
            Event::ConfigLoaded(None) => EventView::ConfigLoaded(None),
            Event::HotkeysRegistered(which) => EventView::HotkeysRegistered(*which),
            Event::HotkeyPressed(h) => EventView::HotkeyPressed(*h),
            Event::TrayOrMenuCommand(c) => EventView::TrayOrMenuCommand(*c),
            Event::TrayDoubleClick => EventView::TrayDoubleClick,
            Event::EditConfirmed { key, field, text } => EventView::EditConfirmed {
                key: key@,
                field: *field,
                text: text@,
            },
            Event::SessionLocked => EventView::SessionLocked,
            Event::SessionUnlocked { high_contrast } => EventView::SessionUnlocked {
                high_contrast: *high_contrast,
            },
            Event::SettingsChanged { high_contrast } => EventView::SettingsChanged {
                high_contrast: *high_contrast,
            },
            Event::FullscreenPollTick { foreground, work_area } => EventView::FullscreenPollTick {
                foreground: *foreground,
                work_area: *work_area,
            },
            Event::Shutdown => EventView::Shutdown,
        }
    }
}

impl Event {
    /// A document that comes with an event keeps its invariant.
    pub open spec fn wf(&self) -> bool {
        match self {
            Event::ConfigLoaded(Some(c)) => c.wf(),
            _ => true,
        }
    }
}

} // verus!
