use vstd::prelude::*;
use crate::input::{Key, key_direction};
use crate::state::{Size, State, StateView, WindowCommand};

verus! {

/// A mouse button.
#[derive(PartialEq, Eq, Structural, Clone, Copy, Debug)]
pub enum MouseButton {
    Left,
    Right,
    Middle,
    Other(u16),
}

/// The window events the game reacts to; all others are `Other`.
#[derive(PartialEq, Eq, Structural, Clone, Copy, Debug)]
pub enum WindowEvent {
    /// A mouse button went down (`pressed`) or up.
    MouseInput { button: MouseButton, pressed: bool },
    /// The cursor left the window.
    CursorLeft,
    /// The user asked to close the window.
    CloseRequested,
    /// The window was resized.
    Resized(Size),
    /// The scale factor changed, giving the window this new inner size.
    ScaleFactorChanged(Size),
    /// A key went down (`pressed`) or up; `key` is `None` when the key has no
    /// virtual key code.
    KeyboardInput { key: Option<Key>, pressed: bool },
    Other,
}

/// How the event loop goes on.
#[derive(PartialEq, Eq, Structural, Clone, Copy, Debug)]
pub enum Flow {
    /// Keep running, polling for events.
    Poll,
    /// Stop the event loop.
    Exit,
    /// Stop the event loop with this exit code.
    ExitWithCode(i32),
}

/// The answer to an event: how the loop goes on, and what the window has to
/// be told, in order.
pub struct Response {
    pub flow: Flow,
    pub commands: Vec<WindowCommand>,
}

/// Why the surface could not give a frame.
#[derive(PartialEq, Eq, Structural, Clone, Copy, Debug)]
pub enum SurfaceError {
    Timeout,
    Outdated,
    Lost,
    OutOfMemory,
}

/// Events that the game accepts: a resize must leave at least one pixel each
/// way.
pub open spec fn event_allowed(event: WindowEvent) -> bool {
    match event {
        WindowEvent::Resized(s) => s.is_positive(),
        WindowEvent::ScaleFactorChanged(s) => s.is_positive(),
        _ => true,
    }
}

/// No change and nothing to tell the window.
pub open spec fn unchanged(s: StateView) -> (Flow, StateView, Seq<WindowCommand>) {
    (Flow::Poll, s, seq![])
}

/// What a window event does:
/// - a left click enters fullscreen (capturing the cursor), or, in
///   fullscreen, captures the cursor if it is free;
/// - the cursor leaving the window releases it if it was captured;
/// - a close request stops the loop;
/// - a resize or scale change reconfigures for the new size;
/// - Escape, pressed, toggles fullscreen;
/// - any other key event goes to the movement keys while the cursor is
///   captured, and is ignored otherwise.
pub open spec fn on_event(s: StateView, event: WindowEvent) -> (Flow, StateView, Seq<WindowCommand>) {
    match event {
        WindowEvent::MouseInput { button, pressed } => {
            if button == MouseButton::Left && pressed {
                if !s.fullscreen {
                    let (t, cmds) = s.after_fullscreen(true);
                    (Flow::Poll, t, cmds)
                } else if !s.focused {
                    let (t, cmd) = s.after_focus(true);
                    (Flow::Poll, t, seq![cmd])
                } else {
                    unchanged(s)
                }
            } else {
                unchanged(s)
            }
        },
        WindowEvent::CursorLeft => {
            if s.focused {
                let (t, cmd) = s.after_focus(false);
                (Flow::Poll, t, seq![cmd])
            } else {
                unchanged(s)
            }
        },
        WindowEvent::CloseRequested => (Flow::Exit, s, seq![]),
        WindowEvent::Resized(size) => (
            Flow::Poll,
            StateView { size, ..s },
            seq![WindowCommand::Reconfigure(size)],
        ),
        WindowEvent::ScaleFactorChanged(size) => (
            Flow::Poll,
            StateView { size, ..s },
            seq![WindowCommand::Reconfigure(size)],
        ),
        WindowEvent::KeyboardInput { key, pressed } => {
            match key {
                Some(k) => {
                    if k == Key::Escape && pressed {
                        let (t, cmds) = s.after_fullscreen(!s.fullscreen);
                        (Flow::Poll, t, cmds)
                    } else if s.focused {
                        (Flow::Poll, StateView { input: s.input.after_key(k, pressed), ..s }, seq![])
                    } else {
                        unchanged(s)
                    }
                },
                None => unchanged(s),
            }
        },
        WindowEvent::Other => unchanged(s),
    }
}

/// What a failed frame does: a lost or outdated surface is reconfigured at
/// the current size, running out of memory stops the loop with exit code 1,
/// and a timeout is reported.
pub open spec fn on_render_error(s: StateView, err: SurfaceError) -> (Flow, StateView, Seq<WindowCommand>) {
    match err {
        SurfaceError::Lost => (Flow::Poll, s, seq![WindowCommand::Reconfigure(s.size)]),
        SurfaceError::Outdated => (Flow::Poll, s, seq![WindowCommand::Reconfigure(s.size)]),
        SurfaceError::OutOfMemory => (Flow::ExitWithCode(1), s, seq![]),
        SurfaceError::Timeout => (Flow::Poll, s, seq![WindowCommand::ReportRenderError]),
    }
}

/// Reacts to a window event: updates the state and says how the loop goes
/// on and what the window has to be told.
pub fn handle_window_event(state: &mut State, event: WindowEvent) -> (res: Response)
    requires
        event_allowed(event),
    ensures
        (res.flow, final(state)@, res.commands@) == on_event(old(state)@, event),
        final(state)@.wf(),
        event matches WindowEvent::MouseInput { pressed, .. } && !pressed ==> res.flow == Flow::Poll
            && final(state)@ == old(state)@ && res.commands@.len() == 0,
        match event {
            WindowEvent::KeyboardInput { key: Some(k), pressed } => old(state)@.focused && !(k
                == Key::Escape && pressed) ==> res.flow == Flow::Poll && res.commands@.len() == 0
                && final(state)@ == (StateView {
                input: old(state)@.input.after_key(k, pressed),
                ..old(state)@
            }),
            _ => true,
        },
{
    proof {
        use_type_invariant(&*state);
    }
    let mut commands: Vec<WindowCommand> = Vec::new();
    match event {
        WindowEvent::MouseInput { button, pressed } => {
            if button == MouseButton::Left && pressed {
                if !state.is_fullscreen() {
                    commands = state.set_fullscreen(true);
                } else if !state.is_focused() {
                    let c = state.set_focus(true);
                    commands.push(c);
                }
            }
        },
        WindowEvent::CursorLeft => {
            if state.is_focused() {
                let c = state.set_focus(false);
                commands.push(c);
            }
        },
        WindowEvent::CloseRequested => {
            return Response { flow: Flow::Exit, commands };
        },
        WindowEvent::Resized(size) => {
            let s = state.reconfigure(Some(size));
            commands.push(WindowCommand::Reconfigure(s));
        },
        WindowEvent::ScaleFactorChanged(size) => {
            let s = state.reconfigure(Some(size));
            commands.push(WindowCommand::Reconfigure(s));
        },
        WindowEvent::KeyboardInput { key, pressed } => {
            match key {
                Some(k) => {
                    if k == Key::Escape && pressed {
                        let to = !state.is_fullscreen();
                        commands = state.set_fullscreen(to);
                    } else if state.is_focused() {
                        state.process_key(k, pressed);
                    }
                },
                None => {},
            }
        },
        WindowEvent::Other => {},
    }
    Response { flow: Flow::Poll, commands }
}

/// Reacts to a frame that the surface could not give. A lost or outdated
/// surface is reconfigured at the current size, which must then be at least
/// one pixel each way.
pub fn handle_render_error(state: &mut State, err: SurfaceError) -> (res: Response)
    requires
        (err == SurfaceError::Lost || err == SurfaceError::Outdated) ==> old(state)@.size.is_positive(),
    ensures
        (res.flow, final(state)@, res.commands@) == on_render_error(old(state)@, err),
        final(state)@ == old(state)@,
        (err == SurfaceError::Lost || err == SurfaceError::Outdated) ==> res.flow == Flow::Poll
            && res.commands@ == seq![WindowCommand::Reconfigure(old(state)@.size)],
        err == SurfaceError::OutOfMemory ==> res.flow == Flow::ExitWithCode(1) && res.commands@.len()
            == 0,
        err == SurfaceError::Timeout ==> res.flow == Flow::Poll && res.commands@ == seq![
            WindowCommand::ReportRenderError,
        ],
{
    let mut commands: Vec<WindowCommand> = Vec::new();
    match err {
        SurfaceError::Lost | SurfaceError::Outdated => {
            let s = state.reconfigure(None);
            commands.push(WindowCommand::Reconfigure(s));
            Response { flow: Flow::Poll, commands }
        },
        SurfaceError::OutOfMemory => Response { flow: Flow::ExitWithCode(1), commands },
        SurfaceError::Timeout => {
            commands.push(WindowCommand::ReportRenderError);
            Response { flow: Flow::Poll, commands }
        },
    }
}

/// Every accepted event keeps the cursor captured only in fullscreen.
pub proof fn event_keeps_capture_in_fullscreen(s: StateView, event: WindowEvent)
    requires
        s.wf(),
        event_allowed(event),
    ensures
        on_event(s, event).1.wf(),
{
}

/// Only a close request stops the event loop, and no event gives an exit
/// code.
pub proof fn only_close_request_exits(s: StateView, event: WindowEvent)
    ensures
        (on_event(s, event).0 == Flow::Exit) <==> event == WindowEvent::CloseRequested,
        on_event(s, event).0 is Poll || on_event(s, event).0 is Exit,
{
}

/// A left click always leaves the window fullscreen with the cursor
/// captured.
pub proof fn left_click_captures_cursor(s: StateView)
    requires
        s.wf(),
    ensures
        ({
            let t = on_event(s, WindowEvent::MouseInput { button: MouseButton::Left, pressed: true }).1;
            t.fullscreen && t.focused
        }),
{
}

/// Pressing Escape toggles fullscreen.
pub proof fn escape_toggles_fullscreen(s: StateView)
    ensures
        on_event(s, WindowEvent::KeyboardInput { key: Some(Key::Escape), pressed: true }).1.fullscreen
            == !s.fullscreen,
{
}

/// Pressing Escape twice in windowed mode goes back to the same windowed
/// state: the first press enters fullscreen, the second leaves it.
pub proof fn escape_twice_restores_windowed(s: StateView)
    requires
        s.wf(),
        !s.fullscreen,
    ensures
        ({
            let esc = WindowEvent::KeyboardInput { key: Some(Key::Escape), pressed: true };
            on_event(on_event(s, esc).1, esc).1 == s
        }),
{
}

/// The cursor leaving the window always frees it, and nothing else changes
/// but the capture.
pub proof fn cursor_leaving_frees(s: StateView)
    ensures
        !on_event(s, WindowEvent::CursorLeft).1.focused,
        on_event(s, WindowEvent::CursorLeft).1 == (StateView { focused: false, ..s }),
{
}

/// While the cursor is free, key events other than pressing Escape change
/// nothing and tell the window nothing.
pub proof fn free_cursor_ignores_keys(s: StateView, key: Option<Key>, pressed: bool)
    requires
        !s.focused,
        !(key == Some(Key::Escape) && pressed),
    ensures
        on_event(s, WindowEvent::KeyboardInput { key, pressed }) == (
            Flow::Poll,
            s,
            Seq::<WindowCommand>::empty(),
        ),
{
}

/// A resize or scale change makes the new size the current one and asks for
/// a reconfiguration at it, leaving the rest as it was.
pub proof fn resize_takes_new_size(s: StateView, size: Size)
    ensures
        on_event(s, WindowEvent::Resized(size)) == (
            Flow::Poll,
            StateView { size, ..s },
            seq![WindowCommand::Reconfigure(size)],
        ),
        on_event(s, WindowEvent::ScaleFactorChanged(size)) == on_event(s, WindowEvent::Resized(size)),
{
}

/// A failed frame never changes the state, and only running out of memory
/// stops the loop.
pub proof fn render_error_keeps_state(s: StateView, err: SurfaceError)
    ensures
        on_render_error(s, err).1 == s,
        (on_render_error(s, err).0 == Flow::ExitWithCode(1)) <==> err == SurfaceError::OutOfMemory,
        on_render_error(s, err).0 is Poll || err == SurfaceError::OutOfMemory,
{
}

/// Releasing any mouse button changes nothing and tells the window nothing:
/// only a press acts.
pub proof fn button_release_does_nothing(s: StateView, button: MouseButton)
    ensures
        on_event(s, WindowEvent::MouseInput { button, pressed: false }) == (
            Flow::Poll,
            s,
            Seq::<WindowCommand>::empty(),
        ),
{
}

/// Pressing any button but the left one changes nothing and tells the window
/// nothing.
pub proof fn other_button_press_does_nothing(s: StateView, button: MouseButton)
    requires
        button != MouseButton::Left,
    ensures
        on_event(s, WindowEvent::MouseInput { button, pressed: true }) == (
            Flow::Poll,
            s,
            Seq::<WindowCommand>::empty(),
        ),
{
}

/// A left press in a window enters fullscreen and captures the cursor; in
/// fullscreen with the cursor free it captures the cursor; with the cursor
/// captured it does nothing. Nothing else changes.
pub proof fn left_press_effect(s: StateView)
    requires
        s.wf(),
    ensures
        ({
            let r = on_event(s, WindowEvent::MouseInput { button: MouseButton::Left, pressed: true });
            &&& !s.fullscreen ==> r == (
                Flow::Poll,
                StateView { fullscreen: true, focused: true, ..s },
                seq![WindowCommand::EnterFullscreen, WindowCommand::GrabCursor],
            )
            &&& s.fullscreen && !s.focused ==> r == (
                Flow::Poll,
                StateView { focused: true, ..s },
                seq![WindowCommand::GrabCursor],
            )
            &&& s.focused ==> r == (Flow::Poll, s, Seq::<WindowCommand>::empty())
        }),
{
}

/// While the cursor is captured, a key event other than an Escape press only
/// records the key in the held movement keys: capture, fullscreen and size
/// stay, nothing is told to the window, and a key that drives no direction
/// changes nothing at all.
pub proof fn captured_keys_only_steer(s: StateView, key: Key, pressed: bool)
    requires
        s.focused,
        !(key == Key::Escape && pressed),
    ensures
        ({
            let r = on_event(s, WindowEvent::KeyboardInput { key: Some(key), pressed });
            &&& r == (
                Flow::Poll,
                StateView { input: s.input.after_key(key, pressed), ..s },
                Seq::<WindowCommand>::empty(),
            )
            &&& r.1.focused && r.1.fullscreen == s.fullscreen && r.1.size == s.size
            &&& key_direction(key) is None ==> r == (Flow::Poll, s, Seq::<WindowCommand>::empty())
        }),
{
}

/// An Escape press leaves fullscreen (releasing a captured cursor) or enters
/// it (capturing the cursor), and changes nothing else.
pub proof fn escape_press_effect(s: StateView)
    requires
        s.wf(),
    ensures
        ({
            let r = on_event(s, WindowEvent::KeyboardInput { key: Some(Key::Escape), pressed: true });
            &&& !s.fullscreen ==> r == (
                Flow::Poll,
                StateView { fullscreen: true, focused: true, ..s },
                seq![WindowCommand::EnterFullscreen, WindowCommand::GrabCursor],
            )
            &&& s.fullscreen && s.focused ==> r == (
                Flow::Poll,
                StateView { fullscreen: false, focused: false, ..s },
                seq![WindowCommand::LeaveFullscreen, WindowCommand::ReleaseCursor],
            )
            &&& s.fullscreen && !s.focused ==> r == (
                Flow::Poll,
                StateView { fullscreen: false, ..s },
                seq![WindowCommand::LeaveFullscreen],
            )
        }),
{
}

/// A failed frame: a lost or outdated surface is reconfigured at exactly the
/// current size, running out of memory exits with code 1 and tells the window
/// nothing, a timeout is reported; the state never changes.
pub proof fn render_error_effect(s: StateView, err: SurfaceError)
    ensures
        (err == SurfaceError::Lost || err == SurfaceError::Outdated) ==> on_render_error(s, err) == (
            Flow::Poll,
            s,
            seq![WindowCommand::Reconfigure(s.size)],
        ),
        err == SurfaceError::OutOfMemory ==> on_render_error(s, err) == (
            Flow::ExitWithCode(1),
            s,
            Seq::<WindowCommand>::empty(),
        ),
        err == SurfaceError::Timeout ==> on_render_error(s, err) == (
            Flow::Poll,
            s,
            seq![WindowCommand::ReportRenderError],
        ),
{
}

/// A close request stops the loop and changes nothing else; an event the game
/// does not react to changes nothing and tells the window nothing.
pub proof fn close_and_other_events(s: StateView)
    ensures
        on_event(s, WindowEvent::CloseRequested) == (Flow::Exit, s, Seq::<WindowCommand>::empty()),
        on_event(s, WindowEvent::Other) == (Flow::Poll, s, Seq::<WindowCommand>::empty()),
        on_event(s, WindowEvent::KeyboardInput { key: None, pressed: true }) == (
            Flow::Poll,
            s,
            Seq::<WindowCommand>::empty(),
        ),
        on_event(s, WindowEvent::KeyboardInput { key: None, pressed: false }) == (
            Flow::Poll,
            s,
            Seq::<WindowCommand>::empty(),
        ),
{
}

} // verus!
