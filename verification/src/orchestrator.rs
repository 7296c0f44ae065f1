//! The orchestrator: the one owner of the application state. It consumes one
//! event at a time and answers with the commands that its collaborators
//! carry out.

use crate::config::{duplicate_chords, Config, ConfigView, Paths};
use crate::events::{
    Command, EditField, Event, EventView, HotkeyId, MenuCommand, Registered,
};
use crate::geometry::{fills, is_foreground_fullscreen};
use crate::labels::{DesktopLabel, LabelView, Labels};
use crate::text::{blank, is_blank};
use crate::visibility::{
    change_between, should_show, visibility_change, visible, VisibilityChange,
};
use vstd::prelude::*;
use vstd::string::*;

verus! {

/// The application state as plain values.
pub struct StateView {
    pub config: ConfigView,
    pub current_desktop_id: Seq<char>,
    pub user_visible: bool,
    pub hidden_by_accessibility: bool,
    pub hidden_by_fullscreen: bool,
    /// Whether the overlay window is on screen.
    pub shown: bool,
    /// The title and description that the overlay displays.
    pub displayed: LabelView,
    /// The global hotkeys that are registered with the platform.
    pub registered_hotkeys: Registered,
    /// False once shutdown has begun.
    pub running: bool,
}

/// A transition's outcome: the next state and the commands to carry out, in
/// order.
pub struct Step {
    pub state: StateView,
    pub commands: Seq<Command>,
}

/// The title shown for a desktop whose own title is blank.
pub open spec fn default_title() -> Seq<char> {
    seq!['D', 'e', 's', 'k', 't', 'o', 'p']
}

/// What the overlay displays for desktop `id` under `config`: the desktop's
/// label, with the default title in place of a blank one; the default title
/// and an empty description where the desktop has no label.
pub open spec fn overlay_label(config: ConfigView, id: Seq<char>) -> LabelView {
    let label = Labels::label_or_empty(config.desktops, id);
    LabelView {
        title: if blank(label.title) {
            default_title()
        } else {
            label.title
        },
        description: label.description,
    }
}

/// The text of the overlay's one line.
pub open spec fn line_of(label: LabelView) -> Seq<char> {
    label.title + seq![':'] + label.description
}

/// The configuration with one field of one desktop's label replaced. A
/// desktop without a label gets one whose other field is empty.
pub open spec fn with_edit(
    config: ConfigView,
    key: Seq<char>,
    field: EditField,
    text: Seq<char>,
) -> ConfigView {
    let label = Labels::label_or_empty(config.desktops, key);
    let edited = match field {
        EditField::Title => LabelView { title: text, ..label },
        EditField::Description => LabelView { description: text, ..label },
    };
    ConfigView { desktops: config.desktops.insert(key, edited), ..config }
}

/// The three hide reasons are the single source of truth for the window's
/// visibility, the overlay displays the label of the current desktop, and no
/// hotkey stays registered once the orchestrator has stopped.
pub open spec fn consistent(s: StateView) -> bool {
    &&& s.shown == visible(s.user_visible, s.hidden_by_accessibility, s.hidden_by_fullscreen)
    &&& s.displayed == overlay_label(s.config, s.current_desktop_id)
    &&& !s.running ==> s.registered_hotkeys == Registered::nothing()
}

/// The window commands that take the overlay from `before` to `after`.
pub open spec fn window_commands(before: bool, after: bool) -> Seq<Command> {
    match change_between(before, after) {
        VisibilityChange::Unchanged => Seq::empty(),
        VisibilityChange::Hide => seq![Command::Hide],
        VisibilityChange::ShowTopmost => seq![Command::ShowTopmost],
    }
}

/// Nothing happens.
pub open spec fn idle(s: StateView) -> Step {
    Step { state: s, commands: Seq::empty() }
}

/// The hide reasons take new values and the window follows the policy.
pub open spec fn with_reasons(
    s: StateView,
    user_visible: bool,
    hidden_by_accessibility: bool,
    hidden_by_fullscreen: bool,
) -> Step {
    let show = visible(user_visible, hidden_by_accessibility, hidden_by_fullscreen);
    Step {
        state: StateView {
            user_visible,
            hidden_by_accessibility,
            hidden_by_fullscreen,
            shown: show,
            ..s
        },
        commands: window_commands(s.shown, show),
    }
}

pub open spec fn toggled(s: StateView) -> Step {
    with_reasons(s, !s.user_visible, s.hidden_by_accessibility, s.hidden_by_fullscreen)
}

pub open spec fn prompted(s: StateView, field: EditField) -> Step {
    Step { state: s, commands: seq![Command::PromptEdit(field)] }
}

/// Hotkeys go first, then the watchers, then the session subscription, and
/// the window last.
pub open spec fn stopped(s: StateView) -> Step {
    Step {
        state: StateView { running: false, registered_hotkeys: Registered::nothing(), ..s },
        commands: seq![
            Command::UnregisterHotkeys,
            Command::StopWatchers,
            Command::UnsubscribeSession,
            Command::ReleaseWindow,
        ],
    }
}

/// A new document replaces the old one wholesale, and the hotkeys are
/// released before its chords are registered.
pub open spec fn reloaded(s: StateView, config: ConfigView) -> Step {
    Step {
        state: StateView {
            config,
            displayed: overlay_label(config, s.current_desktop_id),
            registered_hotkeys: Registered::nothing(),
            ..s
        },
        commands: seq![Command::UnregisterHotkeys, Command::RegisterHotkeys, Command::Render],
    }
}

pub open spec fn switched(s: StateView, id: Seq<char>) -> Step {
    if id == s.current_desktop_id {
        idle(s)
    } else {
        Step {
            state: StateView {
                current_desktop_id: id,
                displayed: overlay_label(s.config, id),
                ..s
            },
            commands: seq![Command::Render],
        }
    }
}

pub open spec fn edited(s: StateView, key: Seq<char>, field: EditField, text: Seq<char>) -> Step {
    let config = with_edit(s.config, key, field, text);
    Step {
        state: StateView {
            config,
            displayed: overlay_label(config, s.current_desktop_id),
            ..s
        },
        commands: seq![Command::SaveConfig, Command::Render],
    }
}

/// The platform has answered a registration: the accepted hotkeys are
/// recorded, and the user is told where one was refused.
pub open spec fn registered(s: StateView, which: Registered) -> Step {
    Step {
        state: StateView { registered_hotkeys: which, ..s },
        commands: if which == Registered::everything() {
            Seq::empty()
        } else {
            seq![Command::NotifyHotkeyFailure]
        },
    }
}

/// A hotkey fired.
pub open spec fn pressed(s: StateView, hotkey: HotkeyId) -> Step {
    match hotkey {
        HotkeyId::EditTitle => prompted(s, EditField::Title),
        HotkeyId::EditDescription => prompted(s, EditField::Description),
        HotkeyId::ToggleOverlay => toggled(s),
    }
}

/// An entry of the tray menu was chosen.
pub open spec fn chosen(s: StateView, command: MenuCommand) -> Step {
    match command {
        MenuCommand::EditTitle => prompted(s, EditField::Title),
        MenuCommand::EditDescription => prompted(s, EditField::Description),
        MenuCommand::ToggleOverlay => toggled(s),
        MenuCommand::RevealConfigFile => Step {
            state: s,
            commands: seq![Command::RevealConfigFile],
        },
        MenuCommand::Exit => stopped(s),
    }
}

/// The user asked for the overlay by a double click on the tray icon.
pub open spec fn restored(s: StateView) -> Step {
    with_reasons(s, true, s.hidden_by_accessibility, s.hidden_by_fullscreen)
}

/// Session lock hides unconditionally; unlock and a settings change hide
/// exactly while high contrast is on.
pub open spec fn accessibility_changed(s: StateView, hidden: bool) -> Step {
    with_reasons(s, s.user_visible, hidden, s.hidden_by_fullscreen)
}

pub open spec fn fullscreen_changed(s: StateView, hidden: bool) -> Step {
    with_reasons(s, s.user_visible, s.hidden_by_accessibility, hidden)
}

/// The transition function. Once shutdown has begun every event is ignored.
pub open spec fn next(s: StateView, e: EventView) -> Step {
    if !s.running {
        idle(s)
    } else {
        match e {
            EventView::DesktopChanged(id) => switched(s, id),
            EventView::ConfigFileChanged => Step {
                state: s,
                commands: seq![Command::ReloadConfig],
            },
            EventView::ConfigLoaded(Some(config)) => reloaded(s, config),
            EventView::ConfigLoaded(None) => idle(s),
            EventView::HotkeysRegistered(which) => registered(s, which),
            EventView::HotkeyPressed(hotkey) => pressed(s, hotkey),
            EventView::TrayOrMenuCommand(command) => chosen(s, command),
            EventView::TrayDoubleClick => restored(s),
            EventView::EditConfirmed { key, field, text } => edited(s, key, field, text),
            EventView::SessionLocked => accessibility_changed(s, true),
            EventView::SessionUnlocked { high_contrast } => accessibility_changed(s, high_contrast),
            EventView::SettingsChanged { high_contrast } => accessibility_changed(s, high_contrast),
            EventView::FullscreenPollTick { foreground, work_area } => fullscreen_changed(
                s,
                fills(foreground, work_area),
            ),
            EventView::Shutdown => stopped(s),
        }
    }
}

/// The state right after startup on desktop `id`.
pub open spec fn initial_state(config: ConfigView, id: Seq<char>, high_contrast: bool) -> StateView {
    StateView {
        config,
        current_desktop_id: id,
        user_visible: true,
        hidden_by_accessibility: high_contrast,
        hidden_by_fullscreen: false,
        shown: visible(true, high_contrast, false),
        displayed: overlay_label(config, id),
        registered_hotkeys: Registered::nothing(),
        running: true,
    }
}

/// The commands of startup: a warning where two chords collide, then the
/// hotkeys, both ways of learning of a desktop switch, the first rendering,
/// the fullscreen poll, the session subscription, the window's first
/// visibility and the file watch.
pub open spec fn startup_commands(config: ConfigView, high_contrast: bool) -> Seq<Command> {
    let warning = if duplicate_chords(config.hotkeys) {
        seq![Command::NotifyDuplicateHotkeys]
    } else {
        Seq::empty()
    };
    warning + seq![
        Command::RegisterHotkeys,
        Command::StartDesktopEvents,
        Command::StartDesktopPoll,
        Command::Render,
        Command::StartFullscreenPoll,
        Command::SubscribeSession,
        if visible(true, high_contrast, false) {
            Command::ShowTopmost
        } else {
            Command::Hide
        },
        Command::StartFileWatch,
    ]
}

/// What an edit prompt is opened with: a snapshot taken before the prompt
/// runs, so that nothing of the state is held while it is open.
#[derive(Debug)]
pub struct EditPrompt {
    /// The desktop whose label is edited.
    pub key: String,
    pub field: EditField,
    pub caption: String,
    pub hint: String,
    /// The text that the prompt starts with.
    pub initial: String,
}

pub open spec fn caption_of(field: EditField) -> Seq<char> {
    match field {
        EditField::Title => "Edit Desktop Title"@,
        EditField::Description => "Edit Desktop Description"@,
    }
}

pub open spec fn hint_of(field: EditField) -> Seq<char> {
    match field {
        EditField::Title => "Change the title"@,
        EditField::Description => "Change the description"@,
    }
}

pub open spec fn field_of(label: LabelView, field: EditField) -> Seq<char> {
    match field {
        EditField::Title => label.title,
        EditField::Description => label.description,
    }
}

/// The label that the overlay displays for desktop `id`.
pub fn label_for(config: &Config, id: &String) -> (r: DesktopLabel)
    requires
        config.wf(),
    ensures
        r@ == overlay_label(config@, id@),
{
    let label = config.desktops.get_or_default(id);
    if is_blank(label.title.as_str()) {
        proof {
            reveal_strlit("Desktop");
        }
        let title = String::from_str("Desktop");
        assert(title@ =~= default_title());
        DesktopLabel { title, description: label.description }
    } else {
        label
    }
}

/// The single owner of the application state.
#[derive(Debug)]
pub struct Orchestrator {
    config: Config,
    config_paths: Paths,
    current_desktop_id: String,
    user_visible: bool,
    hidden_by_accessibility: bool,
    hidden_by_fullscreen: bool,
    shown: bool,
    displayed: DesktopLabel,
    registered_hotkeys: Registered,
    running: bool,
}

impl View for Orchestrator {
    type V = StateView;

    closed spec fn view(&self) -> StateView {
        StateView {
            config: self.config@,
            current_desktop_id: self.current_desktop_id@,
            user_visible: self.user_visible,
            hidden_by_accessibility: self.hidden_by_accessibility,
            hidden_by_fullscreen: self.hidden_by_fullscreen,
            shown: self.shown,
            displayed: self.displayed@,
            registered_hotkeys: self.registered_hotkeys,
            running: self.running,
        }
    }
}

impl Orchestrator {
    /// The state's invariants hold and the label store keeps its own.
    pub closed spec fn wf(&self) -> bool {
        self.config.wf() && consistent(self@)
    }

    /// The file-system locations, set once at startup.
    pub closed spec fn paths(&self) -> Paths {
        self.config_paths
    }

    /// In a well-formed orchestrator the state is consistent.
    pub proof fn lemma_wf_is_consistent(&self)
        requires
            self.wf(),
        ensures
            consistent(self@),
    {
    }

    /// Startup. The caller has loaded the configuration, asked the platform
    /// for the active desktop and for the high-contrast setting, and carries
    /// out the commands in order.
    pub fn start(config: Config, config_paths: Paths, desktop_id: String, high_contrast: bool) -> (r:
        (Orchestrator, Vec<Command>))
        requires
            config.wf(),
        ensures
            r.0.wf(),
            r.0.paths() == config_paths,
            r.0@ == initial_state(config@, desktop_id@, high_contrast),
            r.1@ == startup_commands(config@, high_contrast),
    {
        let mut commands: Vec<Command> = Vec::new();
        if config.hotkeys.has_duplicates() {
            commands.push(Command::NotifyDuplicateHotkeys);
        }
        let show = should_show(true, high_contrast, false);
        commands.push(Command::RegisterHotkeys);
        commands.push(Command::StartDesktopEvents);
        commands.push(Command::StartDesktopPoll);
        commands.push(Command::Render);
        commands.push(Command::StartFullscreenPoll);
        commands.push(Command::SubscribeSession);
        commands.push(
            if show {
                Command::ShowTopmost
            } else {
                Command::Hide
            },
        );
        commands.push(Command::StartFileWatch);
        assert(commands@ =~= startup_commands(config@, high_contrast));
        let displayed = label_for(&config, &desktop_id);
        let state = Orchestrator {
            config,
            config_paths,
            current_desktop_id: desktop_id,
            user_visible: true,
            hidden_by_accessibility: high_contrast,
            hidden_by_fullscreen: false,
            shown: show,
            displayed,
            registered_hotkeys: Registered::none(),
            running: true,
        };
        (state, commands)
    }

    fn set_reasons(
        &mut self,
        user_visible: bool,
        hidden_by_accessibility: bool,
        hidden_by_fullscreen: bool,
    ) -> (commands: Vec<Command>)
        requires
            old(self).wf(),
        ensures
            final(self).wf(),
            final(self).paths() == old(self).paths(),
            final(self)@ == with_reasons(
                old(self)@,
                user_visible,
                hidden_by_accessibility,
                hidden_by_fullscreen,
            ).state,
            commands@ == with_reasons(
                old(self)@,
                user_visible,
                hidden_by_accessibility,
                hidden_by_fullscreen,
            ).commands,
    {
        let show = should_show(user_visible, hidden_by_accessibility, hidden_by_fullscreen);
        let change = visibility_change(self.shown, show);
        self.user_visible = user_visible;
        self.hidden_by_accessibility = hidden_by_accessibility;
        self.hidden_by_fullscreen = hidden_by_fullscreen;
        self.shown = show;
        let mut commands: Vec<Command> = Vec::new();
        match change {
            VisibilityChange::Unchanged => {},
            VisibilityChange::Hide => {
                commands.push(Command::Hide);
            },
            VisibilityChange::ShowTopmost => {
                commands.push(Command::ShowTopmost);
            },
        }
        assert(commands@ =~= window_commands(old(self).shown, show));
        commands
    }

    fn toggle(&mut self) -> (commands: Vec<Command>)
        requires
            old(self).wf(),
        ensures
            final(self).wf(),
            final(self).paths() == old(self).paths(),
            final(self)@ == toggled(old(self)@).state,
            commands@ == toggled(old(self)@).commands,
    {
        let user_visible = !self.user_visible;
        let hidden_by_accessibility = self.hidden_by_accessibility;
        let hidden_by_fullscreen = self.hidden_by_fullscreen;
        self.set_reasons(user_visible, hidden_by_accessibility, hidden_by_fullscreen)
    }

    fn record_registration(&mut self, which: Registered) -> (commands: Vec<Command>)
        requires
            old(self).wf(),
            old(self)@.running,
        ensures
            final(self).wf(),
            final(self).paths() == old(self).paths(),
            final(self)@ == registered(old(self)@, which).state,
            commands@ == registered(old(self)@, which).commands,
    {
        self.registered_hotkeys = which;
        if which.is_complete() {
            Vec::new()
        } else {
            Self::single(Command::NotifyHotkeyFailure)
        }
    }

    fn restore(&mut self) -> (commands: Vec<Command>)
        requires
            old(self).wf(),
        ensures
            final(self).wf(),
            final(self).paths() == old(self).paths(),
            final(self)@ == restored(old(self)@).state,
            commands@ == restored(old(self)@).commands,
    {
        let hidden_by_accessibility = self.hidden_by_accessibility;
        let hidden_by_fullscreen = self.hidden_by_fullscreen;
        self.set_reasons(true, hidden_by_accessibility, hidden_by_fullscreen)
    }

    fn set_accessibility(&mut self, hidden: bool) -> (commands: Vec<Command>)
        requires
            old(self).wf(),
        ensures
            final(self).wf(),
            final(self).paths() == old(self).paths(),
            final(self)@ == accessibility_changed(old(self)@, hidden).state,
            commands@ == accessibility_changed(old(self)@, hidden).commands,
    {
        let user_visible = self.user_visible;
        let hidden_by_fullscreen = self.hidden_by_fullscreen;
        self.set_reasons(user_visible, hidden, hidden_by_fullscreen)
    }

    fn set_fullscreen(&mut self, hidden: bool) -> (commands: Vec<Command>)
        requires
            old(self).wf(),
        ensures
            final(self).wf(),
            final(self).paths() == old(self).paths(),
            final(self)@ == fullscreen_changed(old(self)@, hidden).state,
            commands@ == fullscreen_changed(old(self)@, hidden).commands,
    {
        let user_visible = self.user_visible;
        let hidden_by_accessibility = self.hidden_by_accessibility;
        self.set_reasons(user_visible, hidden_by_accessibility, hidden)
    }

    fn press(&mut self, hotkey: HotkeyId) -> (commands: Vec<Command>)
        requires
            old(self).wf(),
        ensures
            final(self).wf(),
            final(self).paths() == old(self).paths(),
            final(self)@ == pressed(old(self)@, hotkey).state,
            commands@ == pressed(old(self)@, hotkey).commands,
    {
        match hotkey {
            HotkeyId::EditTitle => Self::single(Command::PromptEdit(EditField::Title)),
            HotkeyId::EditDescription => Self::single(Command::PromptEdit(EditField::Description)),
            HotkeyId::ToggleOverlay => self.toggle(),
        }
    }

    fn choose_entry(&mut self, command: MenuCommand) -> (commands: Vec<Command>)
        requires
            old(self).wf(),
        ensures
            final(self).wf(),
            final(self).paths() == old(self).paths(),
            final(self)@ == chosen(old(self)@, command).state,
            commands@ == chosen(old(self)@, command).commands,
    {
        match command {
            MenuCommand::EditTitle => Self::single(Command::PromptEdit(EditField::Title)),
            MenuCommand::EditDescription => Self::single(
                Command::PromptEdit(EditField::Description),
            ),
            MenuCommand::ToggleOverlay => self.toggle(),
            MenuCommand::RevealConfigFile => Self::single(Command::RevealConfigFile),
            MenuCommand::Exit => self.stop(),
        }
    }

    fn stop(&mut self) -> (commands: Vec<Command>)
        requires
            old(self).wf(),
        ensures
            final(self).wf(),
            final(self).paths() == old(self).paths(),
            final(self)@ == stopped(old(self)@).state,
            commands@ == stopped(old(self)@).commands,
    {
        self.running = false;
        self.registered_hotkeys = Registered::none();
        let mut commands: Vec<Command> = Vec::new();
        commands.push(Command::UnregisterHotkeys);
        commands.push(Command::StopWatchers);
        commands.push(Command::UnsubscribeSession);
        commands.push(Command::ReleaseWindow);
        assert(commands@ =~= stopped(old(self)@).commands);
        commands
    }

    fn switch_desktop(&mut self, id: String) -> (commands: Vec<Command>)
        requires
            old(self).wf(),
        ensures
            final(self).wf(),
            final(self).paths() == old(self).paths(),
            final(self)@ == switched(old(self)@, id@).state,
            commands@ == switched(old(self)@, id@).commands,
    {
        let mut commands: Vec<Command> = Vec::new();
        if id != self.current_desktop_id {
            self.displayed = label_for(&self.config, &id);
            self.current_desktop_id = id;
            commands.push(Command::Render);
            assert(commands@ =~= seq![Command::Render]);
        }
        commands
    }

    fn replace_config(&mut self, config: Config) -> (commands: Vec<Command>)
        requires
            old(self).wf(),
            config.wf(),
        ensures
            final(self).wf(),
            final(self).paths() == old(self).paths(),
            final(self)@ == reloaded(old(self)@, config@).state,
            commands@ == reloaded(old(self)@, config@).commands,
    {
        self.displayed = label_for(&config, &self.current_desktop_id);
        self.config = config;
        self.registered_hotkeys = Registered::none();
        let mut commands: Vec<Command> = Vec::new();
        commands.push(Command::UnregisterHotkeys);
        commands.push(Command::RegisterHotkeys);
        commands.push(Command::Render);
        assert(commands@ =~= reloaded(old(self)@, config@).commands);
        commands
    }

    fn apply_edit(&mut self, key: String, field: EditField, text: String) -> (commands: Vec<
        Command,
    >)
        requires
            old(self).wf(),
        ensures
            final(self).wf(),
            final(self).paths() == old(self).paths(),
            final(self)@ == edited(old(self)@, key@, field, text@).state,
            commands@ == edited(old(self)@, key@, field, text@).commands,
    {
        let mut label = self.config.desktops.get_or_default(&key);
        match field {
            EditField::Title => {
                label.title = text;
            },
            EditField::Description => {
                label.description = text;
            },
        }
        self.config.desktops.insert(key, label);
        self.displayed = label_for(&self.config, &self.current_desktop_id);
        let mut commands: Vec<Command> = Vec::new();
        commands.push(Command::SaveConfig);
        commands.push(Command::Render);
        assert(commands@ =~= seq![Command::SaveConfig, Command::Render]);
        assert(self.config@ == with_edit(old(self).config@, key@, field, text@));
        commands
    }

    fn single(command: Command) -> (commands: Vec<Command>)
        ensures
            commands@ == seq![command],
    {
        let mut commands: Vec<Command> = Vec::new();
        commands.push(command);
        assert(commands@ =~= seq![command]);
        commands
    }

    /// Consumes one event: moves the state on and returns the commands to
    /// carry out, in order.
    pub fn step(&mut self, event: Event) -> (commands: Vec<Command>)
        requires
            old(self).wf(),
            event.wf(),
        ensures
            final(self).wf(),
            final(self).paths() == old(self).paths(),
            final(self)@ == next(old(self)@, event@).state,
            commands@ == next(old(self)@, event@).commands,
    {
        if !self.running {
            return Vec::new();
        }
        match event {
            Event::DesktopChanged(id) => self.switch_desktop(id),
            Event::ConfigFileChanged => Self::single(Command::ReloadConfig),
            Event::ConfigLoaded(Some(config)) => self.replace_config(config),
            Event::ConfigLoaded(None) => Vec::new(),
            Event::HotkeysRegistered(which) => self.record_registration(which),
            Event::HotkeyPressed(hotkey) => self.press(hotkey),
            Event::TrayOrMenuCommand(command) => self.choose_entry(command),
            Event::TrayDoubleClick => self.restore(),
            Event::EditConfirmed { key, field, text } => self.apply_edit(key, field, text),
            Event::SessionLocked => self.set_accessibility(true),
            Event::SessionUnlocked { high_contrast } => self.set_accessibility(high_contrast),
            Event::SettingsChanged { high_contrast } => self.set_accessibility(high_contrast),
            Event::FullscreenPollTick { foreground, work_area } => {
                let hidden = is_foreground_fullscreen(foreground, work_area);
                self.set_fullscreen(hidden)
            },
            Event::Shutdown => self.stop(),
        }
    }

    /// The snapshot that an edit prompt for the current desktop starts from.
    pub fn edit_prompt(&self, field: EditField) -> (r: EditPrompt)
        requires
            self.wf(),
        ensures
            r.key@ == self@.current_desktop_id,
            r.field == field,
            r.caption@ == caption_of(field),
            r.hint@ == hint_of(field),
            r.initial@ == field_of(
                Labels::label_or_empty(self@.config.desktops, self@.current_desktop_id),
                field,
            ),
    {
        let label = self.config.desktops.get_or_default(&self.current_desktop_id);
        let key = self.current_desktop_id.clone();
        match field {
            EditField::Title => EditPrompt {
                key,
                field,
                caption: String::from_str("Edit Desktop Title"),
                hint: String::from_str("Change the title"),
                initial: label.title,
            },
            EditField::Description => EditPrompt {
                key,
                field,
                caption: String::from_str("Edit Desktop Description"),
                hint: String::from_str("Change the description"),
                initial: label.description,
            },
        }
    }

    /// The overlay's line: title, a colon, description.
    pub fn overlay_line(&self) -> (r: String)
        ensures
            r@ == line_of(self@.displayed),
    {
        proof {
            reveal_strlit(":");
        }
        let mut line = self.displayed.title.clone();
        line.append(":");
        line.append(self.displayed.description.as_str());
        assert(line@ =~= line_of(self@.displayed));
        line
    }

    /// The hint shown beside the label.
    pub fn overlay_hints(&self) -> (r: String)
        ensures
            r@ == "(Ctrl+Alt+T, Ctrl+Alt+D)"@,
    {
        String::from_str("(Ctrl+Alt+T, Ctrl+Alt+D)")
    }

    /// The overlay's margin, in pixels.
    pub fn overlay_margin(&self) -> (r: i32)
        ensures
            r == self@.config.appearance.margin_px,
    {
        self.config.appearance.margin_px
    }

    pub fn config(&self) -> (r: &Config)
        ensures
            r@ == self@.config,
            self.wf() ==> r.wf(),
    {
        &self.config
    }

    pub fn config_paths(&self) -> (r: &Paths)
        ensures
            *r == self.paths(),
    {
        &self.config_paths
    }

    pub fn current_desktop_id(&self) -> (r: &String)
        ensures
            r@ == self@.current_desktop_id,
    {
        &self.current_desktop_id
    }

    pub fn displayed(&self) -> (r: &DesktopLabel)
        ensures
            r@ == self@.displayed,
    {
        &self.displayed
    }

    pub fn user_visible(&self) -> (r: bool)
        ensures
            r == self@.user_visible,
    {
        self.user_visible
    }

    pub fn hidden_by_accessibility(&self) -> (r: bool)
        ensures
            r == self@.hidden_by_accessibility,
    {
        self.hidden_by_accessibility
    }

    pub fn hidden_by_fullscreen(&self) -> (r: bool)
        ensures
            r == self@.hidden_by_fullscreen,
    {
        self.hidden_by_fullscreen
    }

    /// Whether the overlay window is on screen.
    pub fn is_shown(&self) -> (r: bool)
        ensures
            r == self@.shown,
            self.wf() ==> r == visible(
                self@.user_visible,
                self@.hidden_by_accessibility,
                self@.hidden_by_fullscreen,
            ),
    {
        self.shown
    }

    /// The global hotkeys that are registered right now.
    pub fn registered_hotkeys(&self) -> (r: Registered)
        ensures
            r == self@.registered_hotkeys,
    {
        self.registered_hotkeys
    }

    pub fn is_running(&self) -> (r: bool)
        ensures
            r == self@.running,
    {
        self.running
    }
}

} // verus!
