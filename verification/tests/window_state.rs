use game::event::{handle_render_error, handle_window_event, Flow, MouseButton, SurfaceError, WindowEvent};
use game::input::{Input, Key};
use game::state::{Size, State, WindowCommand};

fn size(width: u32, height: u32) -> Size {
    Size { width, height }
}

fn left_click() -> WindowEvent {
    WindowEvent::MouseInput { button: MouseButton::Left, pressed: true }
}

fn key(k: Key, pressed: bool) -> WindowEvent {
    WindowEvent::KeyboardInput { key: Some(k), pressed }
}

#[test]
fn new_state_keeps_given_keys() {
    let mut keys = Input::new();
    keys.process_key(Key::K, true);
    let s = State::new(size(800, 600), keys);
    assert_eq!(s.input(), keys);
    assert_eq!(s.input().axes(), (-1, 0, 0));
}

#[test]
fn new_state_is_windowed_and_free() {
    let s = State::new(size(800, 600), Input::new());
    assert!(!s.is_fullscreen());
    assert!(!s.is_focused());
    assert_eq!(s.size(), size(800, 600));
    assert_eq!(s.input().axes(), (0, 0, 0));
}

#[test]
fn set_fullscreen_enters_and_captures() {
    let mut s = State::new(size(800, 600), Input::new());
    let cmds = s.set_fullscreen(true);
    assert_eq!(cmds, vec![WindowCommand::EnterFullscreen, WindowCommand::GrabCursor]);
    assert!(s.is_fullscreen() && s.is_focused());
    let cmds = s.set_fullscreen(false);
    assert_eq!(cmds, vec![WindowCommand::LeaveFullscreen, WindowCommand::ReleaseCursor]);
    assert!(!s.is_fullscreen() && !s.is_focused());
}

#[test]
fn leaving_fullscreen_without_capture_only_leaves() {
    let mut s = State::new(size(800, 600), Input::new());
    s.set_fullscreen(true);
    assert_eq!(s.set_focus(false), WindowCommand::ReleaseCursor);
    assert_eq!(s.set_fullscreen(false), vec![WindowCommand::LeaveFullscreen]);
    assert!(!s.is_focused());
}

#[test]
fn set_focus_captures_in_fullscreen() {
    let mut s = State::new(size(800, 600), Input::new());
    s.set_fullscreen(true);
    s.set_focus(false);
    assert_eq!(s.set_focus(true), WindowCommand::GrabCursor);
    assert!(s.is_focused());
}

#[test]
fn reconfigure_takes_new_size_or_keeps_old() {
    let mut s = State::new(size(800, 600), Input::new());
    assert_eq!(s.reconfigure(Some(size(1024, 768))), size(1024, 768));
    assert_eq!(s.size(), size(1024, 768));
    assert_eq!(s.reconfigure(None), size(1024, 768));
    assert_eq!(s.size(), size(1024, 768));
}

#[test]
fn left_click_enters_fullscreen() {
    let mut s = State::new(size(800, 600), Input::new());
    let r = handle_window_event(&mut s, left_click());
    assert_eq!(r.flow, Flow::Poll);
    assert_eq!(r.commands, vec![WindowCommand::EnterFullscreen, WindowCommand::GrabCursor]);
    assert!(s.is_fullscreen() && s.is_focused());
    // a second click changes nothing
    let r = handle_window_event(&mut s, left_click());
    assert!(r.commands.is_empty());
    assert!(s.is_fullscreen() && s.is_focused());
}

#[test]
fn left_click_recaptures_after_cursor_left() {
    let mut s = State::new(size(800, 600), Input::new());
    handle_window_event(&mut s, left_click());
    let r = handle_window_event(&mut s, WindowEvent::CursorLeft);
    assert_eq!(r.commands, vec![WindowCommand::ReleaseCursor]);
    assert!(s.is_fullscreen() && !s.is_focused());
    let r = handle_window_event(&mut s, WindowEvent::CursorLeft);
    assert!(r.commands.is_empty());
    let r = handle_window_event(&mut s, left_click());
    assert_eq!(r.commands, vec![WindowCommand::GrabCursor]);
    assert!(s.is_focused());
}

#[test]
fn other_clicks_and_releases_do_nothing() {
    let mut s = State::new(size(800, 600), Input::new());
    for ev in [
        WindowEvent::MouseInput { button: MouseButton::Right, pressed: true },
        WindowEvent::MouseInput { button: MouseButton::Middle, pressed: true },
        WindowEvent::MouseInput { button: MouseButton::Other(7), pressed: true },
        WindowEvent::MouseInput { button: MouseButton::Left, pressed: false },
        WindowEvent::Other,
    ] {
        let r = handle_window_event(&mut s, ev);
        assert_eq!(r.flow, Flow::Poll);
        assert!(r.commands.is_empty());
        assert!(!s.is_fullscreen() && !s.is_focused());
    }
}

#[test]
fn close_request_exits() {
    let mut s = State::new(size(800, 600), Input::new());
    let r = handle_window_event(&mut s, WindowEvent::CloseRequested);
    assert_eq!(r.flow, Flow::Exit);
    assert!(r.commands.is_empty());
}

#[test]
fn resize_and_scale_change_reconfigure() {
    let mut s = State::new(size(800, 600), Input::new());
    let r = handle_window_event(&mut s, WindowEvent::Resized(size(1280, 720)));
    assert_eq!(r.commands, vec![WindowCommand::Reconfigure(size(1280, 720))]);
    assert_eq!(s.size(), size(1280, 720));
    let r = handle_window_event(&mut s, WindowEvent::ScaleFactorChanged(size(2560, 1440)));
    assert_eq!(r.commands, vec![WindowCommand::Reconfigure(size(2560, 1440))]);
    assert_eq!(s.size(), size(2560, 1440));
}

#[test]
fn escape_toggles_fullscreen() {
    let mut s = State::new(size(800, 600), Input::new());
    let r = handle_window_event(&mut s, key(Key::Escape, true));
    assert_eq!(r.commands, vec![WindowCommand::EnterFullscreen, WindowCommand::GrabCursor]);
    assert!(s.is_fullscreen() && s.is_focused());
    let r = handle_window_event(&mut s, key(Key::Escape, false));
    assert!(r.commands.is_empty());
    let r = handle_window_event(&mut s, key(Key::Escape, true));
    assert_eq!(r.commands, vec![WindowCommand::LeaveFullscreen, WindowCommand::ReleaseCursor]);
    assert!(!s.is_fullscreen() && !s.is_focused());
}

#[test]
fn keys_steer_only_while_captured() {
    let mut s = State::new(size(800, 600), Input::new());
    handle_window_event(&mut s, key(Key::I, true));
    assert_eq!(s.input().axes(), (0, 0, 0));
    handle_window_event(&mut s, left_click());
    handle_window_event(&mut s, key(Key::I, true));
    handle_window_event(&mut s, key(Key::Space, true));
    assert_eq!(s.input().axes(), (1, 0, 1));
    handle_window_event(&mut s, key(Key::I, false));
    assert_eq!(s.input().axes(), (0, 0, 1));
    let r = handle_window_event(&mut s, WindowEvent::KeyboardInput { key: None, pressed: true });
    assert!(r.commands.is_empty());
    assert_eq!(s.input().axes(), (0, 0, 1));
}

#[test]
fn render_errors() {
    let mut s = State::new(size(640, 480), Input::new());
    let r = handle_render_error(&mut s, SurfaceError::Lost);
    assert_eq!((r.flow, r.commands), (Flow::Poll, vec![WindowCommand::Reconfigure(size(640, 480))]));
    let r = handle_render_error(&mut s, SurfaceError::Outdated);
    assert_eq!((r.flow, r.commands), (Flow::Poll, vec![WindowCommand::Reconfigure(size(640, 480))]));
    let r = handle_render_error(&mut s, SurfaceError::OutOfMemory);
    assert_eq!((r.flow, r.commands), (Flow::ExitWithCode(1), vec![]));
    let r = handle_render_error(&mut s, SurfaceError::Timeout);
    assert_eq!((r.flow, r.commands), (Flow::Poll, vec![WindowCommand::ReportRenderError]));
    assert_eq!(s.size(), size(640, 480));
}

#[test]
fn fullscreen_round_trip_restores_state() {
    let mut s = State::new(size(800, 600), Input::new());
    s.process_key(Key::L, true);
    let before = (s.is_fullscreen(), s.is_focused(), s.size(), s.input());
    let mut cmds = s.set_fullscreen(true);
    cmds.extend(s.set_fullscreen(false));
    assert_eq!((s.is_fullscreen(), s.is_focused(), s.size(), s.input()), before);
    assert_eq!(
        cmds,
        vec![
            WindowCommand::EnterFullscreen,
            WindowCommand::GrabCursor,
            WindowCommand::LeaveFullscreen,
            WindowCommand::ReleaseCursor
        ]
    );
}

#[test]
fn focus_round_trip_restores_state() {
    let mut s = State::new(size(800, 600), Input::new());
    s.set_fullscreen(true);
    s.set_focus(false);
    s.set_focus(true);
    s.set_focus(false);
    assert!(s.is_fullscreen() && !s.is_focused());
}
