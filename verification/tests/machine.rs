use mddskmgr::config::{Config, KeyChord, Paths};
use mddskmgr::events::{
    Command, DesktopPoller, EditField, Event, HotkeyId, MenuCommand, Registered, SessionChange,
    TimerKind, CMD_EXIT, CMD_TOGGLE, DESKTOP_POLL_MS, FULLSCREEN_POLL_MS, HK_EDIT_DESC,
    HK_EDIT_TITLE, HK_TOGGLE,
};
use mddskmgr::geometry::Rect;
use mddskmgr::hotkeys::{modifiers, virtual_key};
use mddskmgr::labels::DesktopLabel;
use mddskmgr::orchestrator::Orchestrator;
use std::path::PathBuf;

fn paths() -> Paths {
    Paths {
        cfg_file: PathBuf::from("cfg").join("labels.json"),
        cfg_dir: PathBuf::from("cfg"),
        log_dir: PathBuf::from("logs"),
    }
}

const ALL_HOTKEYS: Registered =
    Registered { edit_title: true, edit_description: true, toggle_overlay: true };

fn started(cfg: Config, desktop: &str) -> Orchestrator {
    let mut app = Orchestrator::start(cfg, paths(), desktop.to_string(), false).0;
    assert!(app.step(Event::HotkeysRegistered(ALL_HOTKEYS)).is_empty());
    app
}

fn labelled() -> Config {
    let mut cfg = Config::default();
    cfg.desktops.insert(
        "one".to_string(),
        DesktopLabel { title: "Work".to_string(), description: "mail".to_string() },
    );
    cfg.desktops.insert(
        "two".to_string(),
        DesktopLabel { title: "  ".to_string(), description: "music".to_string() },
    );
    cfg
}

fn renders(commands: &[Command]) -> usize {
    commands.iter().filter(|c| **c == Command::Render).count()
}

#[test]
fn start_runtime_no_panic() {
    let cfg = Config::default();
    let (app, commands) = Orchestrator::start(cfg, paths(), "default".into(), false);
    assert!(app.is_running());
    assert!(app.user_visible());
    assert!(!app.hidden_by_accessibility());
    assert!(!app.hidden_by_fullscreen());
    assert_eq!(app.current_desktop_id(), "default");
    assert!(commands.contains(&Command::StartFullscreenPoll));
    assert!(commands.contains(&Command::SubscribeSession));
    assert!(commands.contains(&Command::StartFileWatch));
}

#[test]
fn window_smoke_create() {
    let cfg = Config::default();
    let (mut app, _) = Orchestrator::start(cfg, paths(), "default".into(), false);
    let mut processed = 0u32;
    while processed < 10 {
        let work_area = Rect { left: 0, top: 0, right: 100, bottom: 100 };
        let _ = app.step(Event::FullscreenPollTick { foreground: None, work_area });
        processed += 1;
    }
    assert!(app.is_running());
    let commands = app.step(Event::Shutdown);
    assert_eq!(commands.last(), Some(&Command::ReleaseWindow));
    assert!(!app.is_running());
}

#[test]
fn startup_with_defaults() {
    let (app, commands) =
        Orchestrator::start(Config::default(), paths(), "desk-1".to_string(), false);
    assert_eq!(
        commands,
        vec![
            Command::RegisterHotkeys,
            Command::StartDesktopEvents,
            Command::StartDesktopPoll,
            Command::Render,
            Command::StartFullscreenPoll,
            Command::SubscribeSession,
            Command::ShowTopmost,
            Command::StartFileWatch,
        ]
    );
    assert!(!app.config().hotkeys.has_duplicates());
    assert_eq!(app.displayed().title, "Desktop");
    assert_eq!(app.displayed().description, "");
    assert_eq!(app.overlay_line(), "Desktop:");
    assert_eq!(app.overlay_hints(), "(Ctrl+Alt+T, Ctrl+Alt+D)");
    assert_eq!(app.overlay_margin(), 8);
    assert!(app.is_shown());
    assert_eq!(app.registered_hotkeys(), Registered::none());
    assert_eq!(app.config_paths().cfg_dir, PathBuf::from("cfg"));
}

#[test]
fn startup_under_high_contrast_hides() {
    let (app, commands) =
        Orchestrator::start(Config::default(), paths(), "desk-1".to_string(), true);
    assert!(app.hidden_by_accessibility());
    assert!(!app.is_shown());
    assert!(commands.contains(&Command::Hide));
    assert!(!commands.contains(&Command::ShowTopmost));
}

#[test]
fn startup_warns_of_colliding_chords() {
    let mut cfg = Config::default();
    cfg.hotkeys.toggle_overlay =
        KeyChord { ctrl: true, alt: true, shift: false, key: "t".to_string() };
    let (_, commands) = Orchestrator::start(cfg, paths(), "desk-1".to_string(), false);
    assert_eq!(commands[0], Command::NotifyDuplicateHotkeys);
    assert_eq!(commands[1], Command::RegisterHotkeys);
    assert_eq!(commands.len(), 9);
}

#[test]
fn desktop_change_renders_the_new_label() {
    let mut app = started(labelled(), "zero");
    assert_eq!(app.overlay_line(), "Desktop:");
    assert_eq!(app.step(Event::DesktopChanged("one".to_string())), vec![Command::Render]);
    assert_eq!(app.current_desktop_id(), "one");
    assert_eq!(app.overlay_line(), "Work:mail");
    assert_eq!(app.step(Event::DesktopChanged("two".to_string())), vec![Command::Render]);
    assert_eq!(app.overlay_line(), "Desktop:music");
    assert!(app.user_visible() && app.is_shown());
}

#[test]
fn same_desktop_twice_renders_once() {
    let mut app = started(labelled(), "zero");
    let first = app.step(Event::DesktopChanged("one".to_string()));
    let second = app.step(Event::DesktopChanged("one".to_string()));
    assert_eq!(renders(&first) + renders(&second), 1);
    assert!(second.is_empty());
    assert_eq!(app.current_desktop_id(), "one");
    assert_eq!(app.overlay_line(), "Work:mail");
}

#[test]
fn notifier_and_poll_report_the_same_switch() {
    let mut app = started(labelled(), "one");
    let from_notifier = app.step(Event::DesktopChanged("two".to_string()));
    let from_poll = app.step(Event::DesktopChanged("two".to_string()));
    assert_eq!(from_notifier, vec![Command::Render]);
    assert_eq!(from_poll, Vec::<Command>::new());
}

#[test]
fn file_change_asks_for_a_reload() {
    let mut app = started(labelled(), "one");
    assert_eq!(app.step(Event::ConfigFileChanged), vec![Command::ReloadConfig]);
    assert_eq!(app.overlay_line(), "Work:mail");
}

#[test]
fn invalid_file_changes_nothing() {
    let mut app = started(labelled(), "one");
    let commands = app.step(Event::ConfigLoaded(None));
    assert!(commands.is_empty());
    assert_eq!(app.overlay_line(), "Work:mail");
    assert_eq!(app.config().desktops.len(), 2);
    assert_eq!(app.registered_hotkeys(), ALL_HOTKEYS);
}

#[test]
fn valid_file_replaces_the_document() {
    let mut app = started(labelled(), "one");
    let mut next = Config::default();
    next.appearance.margin_px = 20;
    next.desktops.insert(
        "one".to_string(),
        DesktopLabel { title: "Play".to_string(), description: "".to_string() },
    );
    let commands = app.step(Event::ConfigLoaded(Some(next)));
    assert_eq!(
        commands,
        vec![Command::UnregisterHotkeys, Command::RegisterHotkeys, Command::Render]
    );
    assert_eq!(app.overlay_line(), "Play:");
    assert_eq!(app.overlay_margin(), 20);
    assert_eq!(app.config().desktops.len(), 1);
    assert_eq!(app.registered_hotkeys(), Registered::none());
    assert!(app.step(Event::HotkeysRegistered(ALL_HOTKEYS)).is_empty());
    assert_eq!(app.registered_hotkeys(), ALL_HOTKEYS);
}

#[test]
fn failed_registration_is_reported() {
    let mut app = started(Config::default(), "one");
    assert!(app.registered_hotkeys().contains(HotkeyId::ToggleOverlay));
    let partly = Registered { edit_title: true, edit_description: false, toggle_overlay: true };
    assert_eq!(app.step(Event::HotkeysRegistered(partly)), vec![Command::NotifyHotkeyFailure]);
    assert_eq!(app.registered_hotkeys(), partly);
    assert!(app.registered_hotkeys().contains(HotkeyId::EditTitle));
    assert!(!app.registered_hotkeys().contains(HotkeyId::EditDescription));
    assert!(!partly.is_complete());
    assert!(ALL_HOTKEYS.is_complete());
    assert_eq!(
        app.step(Event::HotkeysRegistered(Registered::none())),
        vec![Command::NotifyHotkeyFailure]
    );
}

#[test]
fn toggle_hides_and_shows() {
    let mut app = started(Config::default(), "one");
    assert_eq!(app.step(Event::HotkeyPressed(HotkeyId::ToggleOverlay)), vec![Command::Hide]);
    assert!(!app.user_visible());
    assert!(!app.is_shown());
    assert_eq!(
        app.step(Event::TrayOrMenuCommand(MenuCommand::ToggleOverlay)),
        vec![Command::ShowTopmost]
    );
    assert!(app.user_visible());
    assert!(app.is_shown());
}

#[test]
fn lock_and_unlock_keep_the_user_choice() {
    let mut app = started(Config::default(), "one");
    assert_eq!(app.step(Event::HotkeyPressed(HotkeyId::ToggleOverlay)), vec![Command::Hide]);
    assert!(app.step(Event::SessionLocked).is_empty());
    assert!(app.hidden_by_accessibility());
    assert!(app.step(Event::SessionUnlocked { high_contrast: false }).is_empty());
    assert!(!app.hidden_by_accessibility());
    assert!(!app.user_visible());
    assert!(!app.is_shown());
}

#[test]
fn lock_hides_and_unlock_shows() {
    let mut app = started(Config::default(), "one");
    assert_eq!(app.step(Event::SessionLocked), vec![Command::Hide]);
    assert_eq!(app.step(Event::SessionLocked), Vec::<Command>::new());
    assert!(app.step(Event::SessionUnlocked { high_contrast: true }).is_empty());
    assert!(!app.is_shown());
    assert_eq!(
        app.step(Event::SettingsChanged { high_contrast: false }),
        vec![Command::ShowTopmost]
    );
    assert!(app.is_shown());
}

#[test]
fn fullscreen_window_hides_the_overlay() {
    let mut app = started(Config::default(), "one");
    let work_area = Rect { left: 0, top: 0, right: 1920, bottom: 1040 };
    let full = Rect { left: 1, top: 0, right: 1919, bottom: 1042 };
    let small = Rect { left: 10, top: 10, right: 500, bottom: 500 };
    assert_eq!(
        app.step(Event::FullscreenPollTick { foreground: Some(full), work_area }),
        vec![Command::Hide]
    );
    assert!(app.hidden_by_fullscreen());
    assert!(app.step(Event::FullscreenPollTick { foreground: Some(full), work_area }).is_empty());
    assert_eq!(
        app.step(Event::FullscreenPollTick { foreground: Some(small), work_area }),
        vec![Command::ShowTopmost]
    );
    assert!(!app.hidden_by_fullscreen());
    assert!(app.step(Event::FullscreenPollTick { foreground: None, work_area }).is_empty());
}

#[test]
fn double_click_restores_the_overlay() {
    let mut app = started(Config::default(), "one");
    assert!(app.step(Event::TrayDoubleClick).is_empty());
    let _ = app.step(Event::HotkeyPressed(HotkeyId::ToggleOverlay));
    assert_eq!(app.step(Event::TrayDoubleClick), vec![Command::ShowTopmost]);
    assert!(app.user_visible());
}

#[test]
fn edit_prompt_starts_from_the_current_label() {
    let mut app = started(labelled(), "one");
    assert_eq!(
        app.step(Event::HotkeyPressed(HotkeyId::EditTitle)),
        vec![Command::PromptEdit(EditField::Title)]
    );
    let prompt = app.edit_prompt(EditField::Title);
    assert_eq!(prompt.key, "one");
    assert_eq!(prompt.field, EditField::Title);
    assert_eq!(prompt.caption, "Edit Desktop Title");
    assert_eq!(prompt.hint, "Change the title");
    assert_eq!(prompt.initial, "Work");
    assert_eq!(
        app.step(Event::TrayOrMenuCommand(MenuCommand::EditDescription)),
        vec![Command::PromptEdit(EditField::Description)]
    );
    let prompt = app.edit_prompt(EditField::Description);
    assert_eq!(prompt.caption, "Edit Desktop Description");
    assert_eq!(prompt.hint, "Change the description");
    assert_eq!(prompt.initial, "mail");
    let _ = app.step(Event::DesktopChanged("nine".to_string()));
    assert_eq!(app.edit_prompt(EditField::Title).initial, "");
}

#[test]
fn confirmed_edit_is_merged_saved_and_rendered() {
    let mut app = started(labelled(), "one");
    let commands = app.step(Event::EditConfirmed {
        key: "one".to_string(),
        field: EditField::Description,
        text: "code".to_string(),
    });
    assert_eq!(commands, vec![Command::SaveConfig, Command::Render]);
    assert_eq!(app.overlay_line(), "Work:code");
    let commands = app.step(Event::EditConfirmed {
        key: "new".to_string(),
        field: EditField::Title,
        text: "Fresh".to_string(),
    });
    assert_eq!(commands, vec![Command::SaveConfig, Command::Render]);
    assert_eq!(app.overlay_line(), "Work:code");
    assert_eq!(app.config().desktops.len(), 3);
    let fresh = app.config().desktops.get(&"new".to_string()).unwrap();
    assert_eq!(fresh.title, "Fresh");
    assert_eq!(fresh.description, "");
}

#[test]
fn edit_confirmed_after_a_desktop_switch_goes_to_its_own_desktop() {
    let mut app = started(labelled(), "one");
    let prompt = app.edit_prompt(EditField::Title);
    let _ = app.step(Event::DesktopChanged("two".to_string()));
    let _ = app.step(Event::EditConfirmed {
        key: prompt.key,
        field: prompt.field,
        text: "Office".to_string(),
    });
    assert_eq!(app.current_desktop_id(), "two");
    assert_eq!(app.overlay_line(), "Desktop:music");
    assert_eq!(app.config().desktops.get(&"one".to_string()).unwrap().title, "Office");
}

#[test]
fn reveal_changes_nothing() {
    let mut app = started(labelled(), "one");
    assert_eq!(
        app.step(Event::TrayOrMenuCommand(MenuCommand::RevealConfigFile)),
        vec![Command::RevealConfigFile]
    );
    assert!(app.is_shown());
    assert_eq!(app.overlay_line(), "Work:mail");
}

#[test]
fn shutdown_releases_in_order_and_ignores_what_follows() {
    for event in [Event::Shutdown, Event::TrayOrMenuCommand(MenuCommand::Exit)] {
        let mut app = started(labelled(), "one");
        assert_eq!(
            app.step(event),
            vec![
                Command::UnregisterHotkeys,
                Command::StopWatchers,
                Command::UnsubscribeSession,
                Command::ReleaseWindow,
            ]
        );
        assert!(!app.is_running());
        assert_eq!(app.registered_hotkeys(), Registered::none());
        assert!(app.step(Event::HotkeysRegistered(ALL_HOTKEYS)).is_empty());
        assert_eq!(app.registered_hotkeys(), Registered::none());
        assert!(app.step(Event::DesktopChanged("two".to_string())).is_empty());
        assert!(app.step(Event::HotkeyPressed(HotkeyId::ToggleOverlay)).is_empty());
        assert!(app.step(Event::Shutdown).is_empty());
        assert_eq!(app.current_desktop_id(), "one");
    }
}

#[test]
fn identifiers_translate_both_ways() {
    assert_eq!(HotkeyId::from_id(HK_EDIT_TITLE), Some(HotkeyId::EditTitle));
    assert_eq!(HotkeyId::from_id(HK_EDIT_DESC), Some(HotkeyId::EditDescription));
    assert_eq!(HotkeyId::from_id(HK_TOGGLE), Some(HotkeyId::ToggleOverlay));
    assert_eq!(HotkeyId::from_id(0), None);
    assert_eq!(HotkeyId::from_id(-1), None);
    for h in [HotkeyId::EditTitle, HotkeyId::EditDescription, HotkeyId::ToggleOverlay] {
        assert_eq!(HotkeyId::from_id(h.id()), Some(h));
    }
    assert_eq!(MenuCommand::from_code(CMD_TOGGLE), Some(MenuCommand::ToggleOverlay));
    assert_eq!(MenuCommand::from_code(CMD_EXIT), Some(MenuCommand::Exit));
    assert_eq!(MenuCommand::from_code(0), None);
    for c in [
        MenuCommand::EditTitle,
        MenuCommand::EditDescription,
        MenuCommand::ToggleOverlay,
        MenuCommand::RevealConfigFile,
        MenuCommand::Exit,
    ] {
        assert_eq!(MenuCommand::from_code(c.id()), Some(c));
    }
}

#[test]
fn platform_codes_translate() {
    assert_eq!(TimerKind::from_id(1), Some(TimerKind::DesktopPoll));
    assert_eq!(TimerKind::from_id(2), Some(TimerKind::FullscreenPoll));
    assert_eq!(TimerKind::from_id(0), None);
    assert_eq!(TimerKind::from_id(3), None);
    assert_eq!(SessionChange::from_code(0x7), Some(SessionChange::Locked));
    assert_eq!(SessionChange::from_code(0x8), Some(SessionChange::Unlocked));
    assert_eq!(SessionChange::from_code(0x1), None);
    assert_eq!(DESKTOP_POLL_MS, 250);
    assert_eq!(FULLSCREEN_POLL_MS, 1000);
}

#[test]
fn chords_translate_to_platform_values() {
    let chord = |ctrl, alt, shift, key: &str| KeyChord { ctrl, alt, shift, key: key.to_string() };
    assert_eq!(modifiers(&chord(true, true, false, "T")), 3);
    assert_eq!(modifiers(&chord(false, false, true, "T")), 4);
    assert_eq!(modifiers(&chord(true, true, true, "T")), 7);
    assert_eq!(modifiers(&chord(false, false, false, "T")), 0);
    assert_eq!(virtual_key("T"), Some(0x54));
    assert_eq!(virtual_key("t"), Some(0x54));
    assert_eq!(virtual_key("0"), Some(0x30));
    assert_eq!(virtual_key("9"), Some(0x39));
    assert_eq!(virtual_key("F1"), Some(0x70));
    assert_eq!(virtual_key("f9"), Some(0x78));
    assert_eq!(virtual_key("F10"), Some(0x79));
    assert_eq!(virtual_key("F12"), Some(0x7B));
    assert_eq!(virtual_key("F13"), None);
    assert_eq!(virtual_key("F0"), None);
    assert_eq!(virtual_key(""), None);
    assert_eq!(virtual_key("TT"), None);
    assert_eq!(virtual_key("-"), None);
    assert_eq!(virtual_key("\u{e9}"), None);
    assert_eq!(virtual_key("F123"), None);
}

#[test]
fn poll_reports_a_desktop_only_when_it_changes() {
    let mut poller = DesktopPoller::new("one".to_string());
    assert!(poller.observe("one".to_string()).is_none());
    let event = poller.observe("two".to_string());
    assert!(matches!(event, Some(Event::DesktopChanged(ref id)) if id == "two"));
    assert!(poller.observe("two".to_string()).is_none());
    assert!(poller.observe("one".to_string()).is_some());
}
