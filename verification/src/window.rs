//! Model of the single named main window.

use vstd::prelude::*;

verus! {

/// The observable state of the main window, as the host reports it.
///
/// The window's content is not modelled in detail: `content` is an opaque
/// revision token that stands for everything the content layer holds.
/// Revealing or hiding the window must leave it untouched; only destroying
/// the window (dropping the whole `WindowState`) loses it.
#[derive(Clone, Copy, Debug, PartialEq, Eq, Structural)]
pub struct WindowState {
    /// Whether the window is currently shown on screen.
    pub visible: bool,
    /// Whether the window currently has input focus.
    pub focused: bool,
    /// Opaque token for the content layer's state.
    pub content: u64,
}

impl WindowState {
    /// A window can only hold input focus while it is shown.
    pub open spec fn wf(self) -> bool {
        self.focused ==> self.visible
    }

    /// The same window after it has been shown and given input focus.
    pub open spec fn revealed(self) -> WindowState {
        WindowState { visible: true, focused: true, content: self.content }
    }

    /// The same window after it has been hidden (and therefore unfocused).
    pub open spec fn hidden(self) -> WindowState {
        WindowState { visible: false, focused: false, content: self.content }
    }

    /// Creates a window in a well-formed state: freshly created windows do
    /// not hold input focus until the host grants it.
    pub fn new(visible: bool, content: u64) -> (w: WindowState)
        ensures
            w == (WindowState { visible, focused: false, content }),
            w.wf(),
    {
        WindowState { visible, focused: false, content }
    }

    /// Shows the window and gives it input focus, keeping its content.
    pub fn show_and_focus(&mut self)
        ensures
            *final(self) == old(self).revealed(),
            final(self).wf(),
    {
        self.visible = true;
        self.focused = true;
    }

    /// Hides the window, keeping its content so that a later reveal restores
    /// it unchanged. A hidden window cannot keep input focus.
    pub fn conceal(&mut self)
        ensures
            *final(self) == old(self).hidden(),
            final(self).wf(),
    {
        self.visible = false;
        self.focused = false;
    }
}

/// Revealing a window never changes its content, and revealing twice is the
/// same as revealing once.
pub proof fn lemma_reveal_preserves_content(w: WindowState)
    ensures
        w.revealed().content == w.content,
        w.revealed().revealed() == w.revealed(),
{
}

/// Hiding a window never changes its content, so a hide followed by a reveal
/// restores exactly the window that was visible before, content intact.
pub proof fn lemma_hide_then_reveal_restores(w: WindowState)
    ensures
        w.hidden().content == w.content,
        w.hidden().revealed() == w.revealed(),
{
}

} // verus!
