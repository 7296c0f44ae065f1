//! What holds of every transition of the orchestrator.

use crate::config::ConfigView;
use crate::events::{Command, EventView, Registered};
use crate::orchestrator::{
    consistent, idle, initial_state, next, startup_commands, StateView,
};
use crate::visibility::visible;
use vstd::prelude::*;

verus! {

/// Startup leaves a consistent state: the window's visibility is what the
/// policy says, and the overlay displays the label of the startup desktop.
pub proof fn lemma_startup_is_consistent(config: ConfigView, id: Seq<char>, high_contrast: bool)
    ensures
        consistent(initial_state(config, id, high_contrast)),
        initial_state(config, id, high_contrast).shown == !high_contrast,
        initial_state(config, id, high_contrast).registered_hotkeys == Registered::nothing(),
        startup_commands(config, high_contrast).contains(Command::Render),
        startup_commands(config, high_contrast).contains(Command::RegisterHotkeys),
        !startup_commands(config, high_contrast).contains(Command::UnregisterHotkeys),
{
    let c = startup_commands(config, high_contrast);
    let n = c.len();
    assert(c[n - 8] == Command::RegisterHotkeys);
    assert(c[n - 5] == Command::Render);
}

/// No event breaks the state's invariants: after every transition the
/// window's visibility is the policy's answer on the three hide reasons, the
/// overlay displays the label of the current desktop, and no hotkey is
/// registered once the orchestrator has stopped.
pub proof fn lemma_next_keeps_consistency(s: StateView, e: EventView)
    requires
        consistent(s),
    ensures
        consistent(next(s, e).state),
{
}

/// The window is hidden or shown only on an edge of the policy's answer: a
/// hide command is issued exactly when the overlay goes from shown to hidden,
/// a show-on-top command exactly when it goes from hidden to shown.
pub proof fn lemma_window_follows_policy(s: StateView, e: EventView)
    requires
        consistent(s),
    ensures
        next(s, e).commands.contains(Command::Hide) <==> s.shown && !next(s, e).state.shown,
        next(s, e).commands.contains(Command::ShowTopmost) <==> !s.shown && next(
            s,
            e,
        ).state.shown,
        next(s, e).state.shown == visible(
            next(s, e).state.user_visible,
            next(s, e).state.hidden_by_accessibility,
            next(s, e).state.hidden_by_fullscreen,
        ),
{
    let n = next(s, e);
    if s.shown && !n.state.shown {
        assert(n.commands[0] == Command::Hide);
    }
    if !s.shown && n.state.shown {
        assert(n.commands[0] == Command::ShowTopmost);
    }
}

/// The same desktop reported twice in a row is rendered once: the second
/// event changes nothing and issues no command.
pub proof fn lemma_desktop_change_is_idempotent(s: StateView, id: Seq<char>)
    ensures
        next(next(s, EventView::DesktopChanged(id)).state, EventView::DesktopChanged(id)) == idle(
            next(s, EventView::DesktopChanged(id)).state,
        ),
        s.running && id != s.current_desktop_id ==> next(s, EventView::DesktopChanged(id)).commands
            == seq![Command::Render],
        !(s.running && id != s.current_desktop_id) ==> next(s, EventView::DesktopChanged(id))
            == idle(s),
{
}

/// A desktop change moves the current desktop and the displayed label and
/// nothing else; no other event moves the current desktop.
pub proof fn lemma_desktop_moves_only_on_change(s: StateView, e: EventView)
    ensures
        e is DesktopChanged ==> next(s, e).state == (StateView {
            current_desktop_id: next(s, e).state.current_desktop_id,
            displayed: next(s, e).state.displayed,
            ..s
        }),
        !(e is DesktopChanged) ==> next(s, e).state.current_desktop_id == s.current_desktop_id,
{
}

/// A reload that found no valid document keeps the configuration, the
/// displayed label and the hotkey registrations as they are.
pub proof fn lemma_failed_reload_changes_nothing(s: StateView)
    ensures
        next(s, EventView::ConfigLoaded(None)) == idle(s),
{
}

/// Hotkeys are never registered on top of live registrations: wherever a
/// transition registers them, it has released them just before, and the
/// state holds none as registered until the platform answers.
pub proof fn lemma_registration_follows_release(s: StateView, e: EventView, i: int)
    requires
        0 <= i < next(s, e).commands.len(),
        next(s, e).commands[i] == Command::RegisterHotkeys,
    ensures
        i > 0,
        next(s, e).commands[i - 1] == Command::UnregisterHotkeys,
        next(s, e).state.registered_hotkeys == Registered::nothing(),
{
    let n = next(s, e);
    if s.running {
        match e {
            EventView::ConfigLoaded(Some(config)) => {
                assert(n.commands[0] == Command::UnregisterHotkeys);
                assert(n.commands[1] == Command::RegisterHotkeys);
                assert(n.commands[2] == Command::Render);
            },
            EventView::Shutdown => {
                lemma_shutdown_order(s);
                assert(n.commands[1] == Command::StopWatchers);
                assert(n.commands[2] == Command::UnsubscribeSession);
            },
            EventView::TrayOrMenuCommand(command) => {
                assert(n.commands.len() == 1 || n.commands.len() == 4 || n.commands.len() == 0);
                assert(n.commands[0] != Command::RegisterHotkeys);
                if n.commands.len() == 4 {
                    assert(n.commands[1] == Command::StopWatchers);
                    assert(n.commands[2] == Command::UnsubscribeSession);
                    assert(n.commands[3] == Command::ReleaseWindow);
                }
            },
            EventView::EditConfirmed { key, field, text } => {
                assert(n.commands[0] == Command::SaveConfig);
                assert(n.commands[1] == Command::Render);
            },
            _ => {
                assert(n.commands.len() <= 1);
                assert(n.commands[0] != Command::RegisterHotkeys);
            },
        }
    }
}

/// Whenever a transition releases the hotkeys, none is held as registered
/// after it; and a set of registrations is recorded only on the platform's
/// answer to a registration.
pub proof fn lemma_release_clears_registrations(s: StateView, e: EventView)
    ensures
        next(s, e).commands.contains(Command::UnregisterHotkeys) ==> next(
            s,
            e,
        ).state.registered_hotkeys == Registered::nothing(),
        next(s, e).state.registered_hotkeys != s.registered_hotkeys ==> (e
            is HotkeysRegistered || next(s, e).commands.contains(Command::UnregisterHotkeys)),
{
    let n = next(s, e);
    if n.state.registered_hotkeys != s.registered_hotkeys && !(e is HotkeysRegistered) {
        assert(n.commands[0] == Command::UnregisterHotkeys);
    }
}

/// Once shutdown has begun nothing moves any more.
pub proof fn lemma_stopped_ignores_events(s: StateView, e: EventView)
    requires
        !s.running,
    ensures
        next(s, e) == idle(s),
{
}

/// Shutdown releases the hotkeys first and the window last, and stops the
/// watchers before the window goes.
pub proof fn lemma_shutdown_order(s: StateView)
    requires
        s.running,
    ensures
        next(s, EventView::Shutdown).commands.first() == Command::UnregisterHotkeys,
        next(s, EventView::Shutdown).commands.last() == Command::ReleaseWindow,
        next(s, EventView::Shutdown).commands.index_of(Command::StopWatchers) < next(
            s,
            EventView::Shutdown,
        ).commands.index_of(Command::ReleaseWindow),
        !next(s, EventView::Shutdown).state.running,
        next(s, EventView::Shutdown).state.registered_hotkeys == Registered::nothing(),
{
    let c = next(s, EventView::Shutdown).commands;
    assert(c[1] == Command::StopWatchers);
    assert(c[3] == Command::ReleaseWindow);
    let a = c.index_of(Command::StopWatchers);
    let b = c.index_of(Command::ReleaseWindow);
    assert(0 <= a < c.len() && c[a] == Command::StopWatchers);
    assert(0 <= b < c.len() && c[b] == Command::ReleaseWindow);
}

} // verus!
