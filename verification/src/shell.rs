//! The application context and its event logic.

use vstd::prelude::*;

use crate::window::WindowState;

verus! {

/// An advisory request that the host should perform on the main window.
///
/// Every one of these is best-effort at the host: a failure to honour it is
/// swallowed by design, so the logic never depends on an outcome report.
#[derive(Clone, Copy, Debug, PartialEq, Eq, Structural)]
pub enum HostAction {
    /// Make the main window visible.
    ShowWindow,
    /// Give the main window input focus.
    FocusWindow,
    /// Deliver the "log-call" notification to the window's content layer.
    EmitLogCall,
    /// Make the main window invisible without destroying it.
    HideWindow,
}

/// Everything the shell knows about the running application: the main
/// window, if it currently exists, and whether the global shortcut was
/// successfully registered at startup.
#[derive(Clone, Copy, Debug, PartialEq, Eq, Structural)]
pub struct AppContext {
    /// The main window; `None` when it was never created or was destroyed.
    pub window: Option<WindowState>,
    /// Whether the process-wide shortcut registration succeeded.
    pub shortcut_registered: bool,
}

impl AppContext {
    /// The context is well-formed when its window, if present, is.
    pub open spec fn wf(self) -> bool {
        self.window matches Some(w) ==> w.wf()
    }

    /// Builds the context at startup. The registrar's verdict is taken as a
    /// plain flag: a refused registration (the combination is already claimed
    /// by another process) is not fatal, so this constructor is total and the
    /// rest of the application starts either way.
    pub fn startup(window: Option<WindowState>, shortcut_registered: bool) -> (ctx: AppContext)
        ensures
            ctx == (AppContext { window, shortcut_registered }),
            (window matches Some(w) && w.wf()) || window is None ==> ctx.wf(),
    {
        AppContext { window, shortcut_registered }
    }

    /// The state after the shortcut callback has run: the window, when it
    /// exists, ends up shown and focused with its content untouched; when it
    /// does not exist, nothing changes.
    pub open spec fn hotkey_transition(self) -> AppContext {
        match self.window {
            Some(w) => AppContext { window: Some(w.revealed()), ..self },
            None => self,
        }
    }

    /// The requests the shortcut callback hands to the host: show, focus and
    /// notify when the window exists, nothing when it does not.
    pub open spec fn hotkey_actions(self) -> Seq<HostAction> {
        if self.window is Some {
            seq![HostAction::ShowWindow, HostAction::FocusWindow, HostAction::EmitLogCall]
        } else {
            Seq::empty()
        }
    }

    /// The state after a physical press of the key combination: the OS only
    /// delivers the press to the callback while the registration holds.
    pub open spec fn press_transition(self) -> AppContext {
        if self.shortcut_registered {
            self.hotkey_transition()
        } else {
            self
        }
    }

    /// The requests a physical press produces.
    pub open spec fn press_actions(self) -> Seq<HostAction> {
        if self.shortcut_registered {
            self.hotkey_actions()
        } else {
            Seq::empty()
        }
    }

    /// The state after the hide command has run: the window, when it exists,
    /// ends up hidden but alive, content untouched; when it does not exist,
    /// nothing changes.
    pub open spec fn hide_transition(self) -> AppContext {
        match self.window {
            Some(w) => AppContext { window: Some(w.hidden()), ..self },
            None => self,
        }
    }

    /// The requests the hide command hands to the host.
    pub open spec fn hide_actions(self) -> Seq<HostAction> {
        if self.window is Some {
            seq![HostAction::HideWindow]
        } else {
            Seq::empty()
        }
    }

    /// The shortcut callback. Looks up the main window; when it is absent the
    /// call is a silent no-op, otherwise the window is marked shown and
    /// focused and the host is asked to show it, focus it and deliver the
    /// "log-call" notification. Never fails, whatever the state.
    pub fn on_hotkey(&mut self) -> (actions: Vec<HostAction>)
        ensures
            *final(self) == old(self).hotkey_transition(),
            actions@ == old(self).hotkey_actions(),
            old(self).wf() ==> final(self).wf(),
    {
        let mut actions: Vec<HostAction> = Vec::new();
        match self.window {
            Some(mut w) => {
                w.show_and_focus();
                self.window = Some(w);
                actions.push(HostAction::ShowWindow);
                actions.push(HostAction::FocusWindow);
                actions.push(HostAction::EmitLogCall);
                proof {
                    assert(actions@ =~= old(self).hotkey_actions());
                }
            },
            None => {
                proof {
                    assert(actions@ =~= old(self).hotkey_actions());
                }
            },
        }
        actions
    }

    /// A physical press of the registered key combination. While the
    /// registration failed at startup, the OS never invokes the callback and
    /// the press changes nothing; otherwise this is the callback itself.
    pub fn press_hotkey(&mut self) -> (actions: Vec<HostAction>)
        ensures
            *final(self) == old(self).press_transition(),
            actions@ == old(self).press_actions(),
            old(self).wf() ==> final(self).wf(),
    {
        if self.shortcut_registered {
            self.on_hotkey()
        } else {
            let actions: Vec<HostAction> = Vec::new();
            proof {
                assert(actions@ =~= old(self).press_actions());
            }
            actions
        }
    }

    /// The hide command, invocable from the window's content layer. The
    /// window is hidden, never destroyed or closed, so its content survives
    /// for the next reveal. Never fails, whatever the state.
    pub fn close_window(&mut self) -> (actions: Vec<HostAction>)
        ensures
            *final(self) == old(self).hide_transition(),
            actions@ == old(self).hide_actions(),
            old(self).wf() ==> final(self).wf(),
    {
        let mut actions: Vec<HostAction> = Vec::new();
        match self.window {
            Some(mut w) => {
                w.conceal();
                self.window = Some(w);
                actions.push(HostAction::HideWindow);
                proof {
                    assert(actions@ =~= old(self).hide_actions());
                }
            },
            None => {
                proof {
                    assert(actions@ =~= old(self).hide_actions());
                }
            },
        }
        actions
    }
}

/// Pressing the shortcut while the window exists — hidden or not — always
/// leaves it visible and focused, with its content untouched, and always asks
/// the host to deliver the "log-call" notification to the content layer.
pub proof fn lemma_press_reveals_and_notifies(ctx: AppContext)
    requires
        ctx.shortcut_registered,
        ctx.window is Some,
    ensures
        ctx.press_transition().window matches Some(w) && w.visible && w.focused && w.content
            == ctx.window->0.content,
        ctx.press_actions().contains(HostAction::EmitLogCall),
{
    assert(ctx.press_actions()[2] == HostAction::EmitLogCall);
}

/// Pressing the shortcut is idempotent: a second press in succession changes
/// neither the state nor the requests made of the host, so repeated presses
/// are harmless.
pub proof fn lemma_press_idempotent(ctx: AppContext)
    ensures
        ctx.press_transition().press_transition() == ctx.press_transition(),
        ctx.press_transition().press_actions() == ctx.press_actions(),
{
}

/// Hiding and then pressing the shortcut restores exactly the window that a
/// bare press would have produced: the hide destroys nothing, and the content
/// token survives the round trip unchanged.
pub proof fn lemma_hide_then_press_restores(ctx: AppContext)
    requires
        ctx.shortcut_registered,
    ensures
        ctx.hide_transition().press_transition() == ctx.press_transition(),
        ctx.hide_transition().window is Some <==> ctx.window is Some,
{
}

/// While the main window does not exist, a press changes nothing and asks
/// nothing of the host.
pub proof fn lemma_press_without_window_is_noop(ctx: AppContext)
    requires
        ctx.window is None,
    ensures
        ctx.press_transition() == ctx,
        ctx.press_actions() =~= Seq::<HostAction>::empty(),
{
}

/// While the shortcut registration failed at startup, the rest of the
/// application is untouched: a press changes nothing and asks nothing of the
/// host, and the hide command still behaves exactly as it does with the
/// registration in place.
pub proof fn lemma_unregistered_press_is_noop(ctx: AppContext)
    requires
        !ctx.shortcut_registered,
    ensures
        ctx.press_transition() == ctx,
        ctx.press_actions() =~= Seq::<HostAction>::empty(),
        ctx.window matches Some(w) ==> ctx.hide_transition().window == Some(w.hidden()),
{
}

/// Invoking the hide command on an already hidden window changes nothing:
/// in a well-formed context a hidden window holds no focus, so there is
/// nothing left to take away.
pub proof fn lemma_hide_hidden_is_noop(ctx: AppContext)
    requires
        ctx.wf(),
        ctx.window matches Some(w) && !w.visible,
    ensures
        ctx.hide_transition() == ctx,
{
}

/// Every transition preserves well-formedness: no event can leave the window
/// focused but invisible.
pub proof fn lemma_transitions_preserve_wf(ctx: AppContext)
    requires
        ctx.wf(),
    ensures
        ctx.press_transition().wf(),
        ctx.hotkey_transition().wf(),
        ctx.hide_transition().wf(),
{
}

/// The name of the notification the shortcut callback emits to the window's
/// content layer.
pub fn log_call_event_name() -> (s: &'static str)
    ensures
        s@ == "log-call"@,
{
    "log-call"
}

} // verus!
