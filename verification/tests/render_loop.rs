use vk_bootstrap::glfw_handler::{
    has_cancel, Frame, FrameAction, GLFWHandler, GLHandler, Key, KeyAction, LoopState, LoopStatus,
    WindowEvent,
};

const ESCAPE_PRESS: WindowEvent = WindowEvent::Key { key: Key::Escape, action: KeyAction::Press };

fn quiet() -> Frame {
    Frame { should_close: false, events: Vec::new() }
}

fn running(close_requested: bool) -> LoopStatus {
    LoopStatus { state: LoopState::Running, close_requested }
}

#[test]
fn new_window_handler_runs() {
    let handler = GLFWHandler::new(300, 300, "test");
    assert_eq!(handler.status(), running(false));
    assert_eq!(handler.width(), 300);
    assert_eq!(handler.height(), 300);
    assert_eq!(handler.window_title(), "test");
}

#[test]
fn only_a_press_of_escape_cancels() {
    assert!(!has_cancel(&Vec::new()));
    assert!(has_cancel(&vec![ESCAPE_PRESS]));
    assert!(has_cancel(&vec![WindowEvent::Other, ESCAPE_PRESS, WindowEvent::Other]));
    assert!(!has_cancel(&vec![
        WindowEvent::Key { key: Key::Escape, action: KeyAction::Release },
        WindowEvent::Key { key: Key::Escape, action: KeyAction::Repeat },
        WindowEvent::Key { key: Key::Other, action: KeyAction::Press },
        WindowEvent::Other,
    ]));
}

#[test]
fn open_window_presents_a_frame() {
    let mut handler = GLFWHandler::new(1, 1, "");
    assert_eq!(handler.begin_frame(false), FrameAction::Present);
    assert_eq!(handler.status(), running(false));
    assert!(!handler.on_events(&vec![WindowEvent::Other]));
    assert_eq!(handler.status(), running(false));
    assert_eq!(handler.begin_frame(false), FrameAction::Present);
}

#[test]
fn close_flag_stops_the_loop() {
    let mut handler = GLFWHandler::new(300, 300, "test");
    assert_eq!(handler.begin_frame(true), FrameAction::Stop);
    assert_eq!(handler.status(), LoopStatus { state: LoopState::Closing, close_requested: false });
    assert_eq!(handler.begin_frame(false), FrameAction::Stop);
    assert!(!handler.on_events(&vec![ESCAPE_PRESS]));
    assert_eq!(handler.status(), LoopStatus { state: LoopState::Closing, close_requested: false });
}

#[test]
fn escape_asks_to_close_and_the_next_turn_stops() {
    let mut handler = GLFWHandler::new(300, 300, "test");
    assert_eq!(handler.begin_frame(false), FrameAction::Present);
    assert!(handler.on_events(&vec![WindowEvent::Other, ESCAPE_PRESS]));
    assert_eq!(handler.status(), running(true));
    assert_eq!(handler.begin_frame(false), FrameAction::Stop);
    assert_eq!(handler.status(), LoopStatus { state: LoopState::Closing, close_requested: true });
}

#[test]
fn clear_closes_a_stopped_loop_only() {
    let mut handler = GLFWHandler::new(300, 300, "test");
    handler.clear();
    assert_eq!(handler.status(), running(false));
    handler.begin_frame(true);
    handler.clear();
    assert_eq!(handler.status(), LoopStatus { state: LoopState::Closed, close_requested: false });
    handler.clear();
    assert_eq!(handler.status(), LoopStatus { state: LoopState::Closed, close_requested: false });
    assert_eq!(handler.begin_frame(false), FrameAction::Stop);
    assert_eq!(handler.status(), LoopStatus { state: LoopState::Closed, close_requested: false });
    assert_eq!(handler.width(), 300);
    assert_eq!(handler.window_title(), "test");
}

#[test]
fn run_presents_until_the_close_flag() {
    let mut handler = GLFWHandler::new(300, 300, "test");
    let frames = vec![
        quiet(),
        quiet(),
        Frame { should_close: false, events: vec![WindowEvent::Other] },
        Frame { should_close: true, events: vec![WindowEvent::Other] },
        quiet(),
        quiet(),
    ];
    assert_eq!(handler.run(&frames), 3);
    assert_eq!(handler.status(), LoopStatus { state: LoopState::Closing, close_requested: false });
    assert_eq!(handler.run(&frames), 0);
}

#[test]
fn run_presents_the_frame_of_the_escape_and_no_more() {
    let mut handler = GLFWHandler::new(300, 300, "test");
    let frames = vec![
        quiet(),
        Frame { should_close: false, events: vec![ESCAPE_PRESS] },
        quiet(),
        quiet(),
    ];
    assert_eq!(handler.run(&frames), 2);
    assert_eq!(handler.status(), LoopStatus { state: LoopState::Closing, close_requested: true });
}

#[test]
fn run_over_quiet_frames_keeps_running() {
    let mut handler = GLFWHandler::new(300, 300, "test");
    assert_eq!(handler.run(&Vec::new()), 0);
    assert_eq!(handler.run(&vec![quiet(), quiet()]), 2);
    assert_eq!(handler.status(), running(false));
    assert_eq!(handler.run(&vec![Frame { should_close: false, events: vec![ESCAPE_PRESS] }]), 1);
    assert_eq!(handler.status(), running(true));
    assert_eq!(handler.run(&vec![quiet(), quiet()]), 0);
    assert_eq!(handler.status(), LoopStatus { state: LoopState::Closing, close_requested: true });
    handler.clear();
    assert_eq!(handler.status().state, LoopState::Closed);
}
