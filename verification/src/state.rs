use vstd::prelude::*;
use crate::input::{Input, Key};

verus! {

/// A size in physical pixels.
#[derive(PartialEq, Eq, Structural, Clone, Copy, Debug)]
pub struct Size {
    pub width: u32,
    pub height: u32,
}

impl Size {
    /// Both sides are at least one pixel.
    pub open spec fn is_positive(self) -> bool {
        self.width > 0 && self.height > 0
    }
}

/// What the window has to be told after a change of state.
#[derive(PartialEq, Eq, Structural, Clone, Copy, Debug)]
pub enum WindowCommand {
    /// Switch to exclusive fullscreen in the best video mode of the monitor.
    EnterFullscreen,
    /// Leave fullscreen.
    LeaveFullscreen,
    /// Confine (or else lock) the cursor to the window and hide it.
    GrabCursor,
    /// Free the cursor and show it again.
    ReleaseCursor,
    /// Reconfigure the surface, depth buffer and camera for this size.
    Reconfigure(Size),
    /// Report a failed frame and carry on.
    ReportRenderError,
}

/// The abstract state of the game window.
pub struct StateView {
    pub input: Input,
    pub size: Size,
    pub fullscreen: bool,
    pub focused: bool,
}

impl StateView {
    /// The cursor is captured only in fullscreen.
    pub open spec fn wf(self) -> bool {
        self.focused ==> self.fullscreen
    }

    /// Capturing or releasing the cursor: the new state and the command for
    /// the window.
    pub open spec fn after_focus(self, to: bool) -> (StateView, WindowCommand) {
        (
            StateView { focused: to, ..self },
            if to {
                WindowCommand::GrabCursor
            } else {
                WindowCommand::ReleaseCursor
            },
        )
    }

    /// Entering or leaving fullscreen: entering also captures the cursor,
    /// leaving releases it if it was captured.
    pub open spec fn after_fullscreen(self, to: bool) -> (StateView, Seq<WindowCommand>) {
        if to {
            (
                StateView { fullscreen: true, focused: true, ..self },
                seq![WindowCommand::EnterFullscreen, WindowCommand::GrabCursor],
            )
        } else {
            (
                StateView { fullscreen: false, focused: false, ..self },
                if self.focused {
                    seq![WindowCommand::LeaveFullscreen, WindowCommand::ReleaseCursor]
                } else {
                    seq![WindowCommand::LeaveFullscreen]
                },
            )
        }
    }

    /// The size a reconfiguration uses: the new one, or else the current one.
    pub open spec fn resolve_size(self, new_size: Option<Size>) -> Size {
        match new_size {
            Some(s) => s,
            None => self.size,
        }
    }
}

/// The game window's state: the held movement keys, the window size, and
/// whether the window is fullscreen and has captured the cursor.
pub struct State {
    input: Input,
    size: Size,
    fullscreen: bool,
    focused: bool,
}

impl View for State {
    type V = StateView;

    closed spec fn view(&self) -> StateView {
        StateView {
            input: self.input,
            size: self.size,
            fullscreen: self.fullscreen,
            focused: self.focused,
        }
    }
}

impl State {
    /// The cursor is captured only in fullscreen, in every state.
    #[verifier::type_invariant]
    pub open spec fn inv(self) -> bool {
        self@.wf()
    }

    /// A windowed state of the given size and held keys, with the cursor
    /// free.
    pub fn new(size: Size, input: Input) -> (res: State)
        ensures
            res@ == (StateView { input, size, fullscreen: false, focused: false }),
            res@.wf(),
    {
        State { input, size, fullscreen: false, focused: false }
    }

    /// Captures (`to`) or releases the cursor. Capturing needs fullscreen,
    /// and `to` must differ from the current focus.
    pub fn set_focus(&mut self, to: bool) -> (cmd: WindowCommand)
        requires
            (!old(self)@.fullscreen && !to) || old(self)@.fullscreen,
            to != old(self)@.focused,
        ensures
            (final(self)@, cmd) == old(self)@.after_focus(to),
            final(self)@.wf(),
    {
        proof {
            use_type_invariant(&*self);
        }
        self.focused = to;
        if to {
            WindowCommand::GrabCursor
        } else {
            WindowCommand::ReleaseCursor
        }
    }

    /// Whether the cursor is captured.
    pub fn is_focused(&self) -> (res: bool)
        ensures
            res == self@.focused,
    {
        self.focused
    }

    /// Enters (`to`) or leaves fullscreen; `to` must differ from the current
    /// mode. Entering captures the cursor, leaving releases it.
    pub fn set_fullscreen(&mut self, to: bool) -> (cmds: Vec<WindowCommand>)
        requires
            to != old(self)@.fullscreen,
        ensures
            (final(self)@, cmds@) == old(self)@.after_fullscreen(to),
            final(self)@.wf(),
    {
        proof {
            use_type_invariant(&*self);
        }
        let mut cmds: Vec<WindowCommand> = Vec::new();
        if to {
            self.fullscreen = true;
            cmds.push(WindowCommand::EnterFullscreen);
            let c = self.set_focus(true);
            cmds.push(c);
        } else {
            cmds.push(WindowCommand::LeaveFullscreen);
            if self.focused {
                // the cursor is freed before fullscreen ends, so that it is
                // never captured in a window
                let c = self.set_focus(false);
                cmds.push(c);
            }
            self.fullscreen = false;
        }
        cmds
    }

    /// Whether the window is fullscreen.
    pub fn is_fullscreen(&self) -> (res: bool)
        ensures
            res == self@.fullscreen,
    {
        self.fullscreen
    }

    /// Takes the new size, or keeps the current one when there is none, and
    /// returns it for the surface, depth buffer and camera. The size must be
    /// at least one pixel each way.
    pub fn reconfigure(&mut self, new_size: Option<Size>) -> (res: Size)
        requires
            old(self)@.resolve_size(new_size).is_positive(),
        ensures
            res == old(self)@.resolve_size(new_size),
            final(self)@ == (StateView { size: res, ..old(self)@ }),
    {
        proof {
            use_type_invariant(&*self);
        }
        let s = match new_size {
            Some(s) => s,
            None => self.size,
        };
        self.size = s;
        s
    }

    /// Records a key event in the held movement keys.
    pub fn process_key(&mut self, key: Key, pressed: bool)
        ensures
            final(self)@ == (StateView { input: old(self)@.input.after_key(key, pressed), ..old(self)@ }),
    {
        proof {
            use_type_invariant(&*self);
        }
        let mut input = self.input;
        input.process_key(key, pressed);
        self.input = input;
    }

    /// The current window size.
    pub fn size(&self) -> (res: Size)
        ensures
            res == self@.size,
    {
        self.size
    }

    /// The held movement keys.
    pub fn input(&self) -> (res: Input)
        ensures
            res == self@.input,
    {
        self.input
    }
}

/// Leaving fullscreen undoes entering it: from a windowed state, entering
/// and then leaving fullscreen gives back the same state.
pub proof fn fullscreen_round_trip(s: StateView)
    requires
        s.wf(),
        !s.fullscreen,
    ensures
        s.after_fullscreen(true).0.after_fullscreen(false).0 == s,
        s.after_fullscreen(true).1 + s.after_fullscreen(true).0.after_fullscreen(false).1 == seq![
            WindowCommand::EnterFullscreen,
            WindowCommand::GrabCursor,
            WindowCommand::LeaveFullscreen,
            WindowCommand::ReleaseCursor,
        ],
{
}

/// Releasing the cursor undoes capturing it: in fullscreen with the cursor
/// free, capturing and then releasing gives back the same state.
pub proof fn focus_round_trip(s: StateView)
    requires
        s.fullscreen,
        !s.focused,
    ensures
        s.after_focus(true).0.after_focus(false).0 == s,
{
}

/// Entering or leaving fullscreen keeps the cursor captured exactly in
/// fullscreen.
pub proof fn fullscreen_sets_capture(s: StateView, to: bool)
    ensures
        s.after_fullscreen(to).0.fullscreen == to,
        s.after_fullscreen(to).0.focused == to,
        s.after_fullscreen(to).0.wf(),
{
}

/// A reconfiguration takes the new size when there is one and keeps the
/// current size otherwise.
pub proof fn reconfigure_size(s: StateView, new_size: Size)
    ensures
        s.resolve_size(Some(new_size)) == new_size,
        s.resolve_size(None) == s.size,
{
}

/// Capturing the cursor asks the window to grab it and releasing asks it to
/// let go; only the capture changes.
pub proof fn focus_effect(s: StateView, to: bool)
    ensures
        to ==> s.after_focus(to) == (StateView { focused: true, ..s }, WindowCommand::GrabCursor),
        !to ==> s.after_focus(to) == (StateView { focused: false, ..s }, WindowCommand::ReleaseCursor),
{
}

} // verus!
