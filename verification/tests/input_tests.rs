use agent::config::InputConfig;
use agent::error::AgentError;
use agent::input::{
    get_virtual_key_code, windows_keyboard_input, windows_mouse_input, windows_wheel_input,
    InputManager, KeyInput, MouseInput,
};
use agent::types::{
    InputEvent, KeyboardAction, KeyboardEvent, Modifiers, MouseAction, MouseEvent, TouchAction,
    TouchEvent, WheelEvent,
};

fn mouse(action: MouseAction) -> MouseEvent {
    MouseEvent {
        action,
        button: 1,
        x: (100.0f32 / 1920.0 * 65535.0) as i32,
        y: (200.0f32 / 1080.0 * 65535.0) as i32,
        delta_x: 10,
        delta_y: 20,
        modifiers: Modifiers::default(),
    }
}

fn key(action: KeyboardAction, name: &str) -> KeyboardEvent {
    KeyboardEvent {
        action,
        key: name.to_string(),
        key_code: 65,
        code: "KeyA".to_string(),
        modifiers: Modifiers::default(),
        repeat: false,
    }
}

fn wheel(delta_y: i32) -> WheelEvent {
    WheelEvent { delta_x: 0, delta_y, delta_z: 0, delta_mode: 0, x: 0, y: 0, modifiers: Modifiers::default() }
}

fn touch() -> TouchEvent {
    TouchEvent { action: TouchAction::TouchStart, touches: vec![], changed_touches: vec![] }
}

fn input_text<T: std::fmt::Debug>(r: Result<T, AgentError>) -> String {
    match r {
        Err(AgentError::Input(text)) => text,
        other => panic!("unexpected {:?}", other),
    }
}

#[test]
fn test_input_manager_creation() {
    let config = InputConfig::default();
    let manager = InputManager::new(config);
    assert!(manager.is_ok());
}

#[test]
fn test_mouse_event_injection() {
    let config = InputConfig::default();
    let manager = InputManager::new(config).unwrap();

    let mouse_event = mouse(MouseAction::MouseMove);

    let result = manager.inject_mouse_event(mouse_event);
    assert!(result.is_ok());
}

#[test]
fn test_keyboard_event_injection() {
    let config = InputConfig::default();
    let manager = InputManager::new(config).unwrap();

    let keyboard_event = key(KeyboardAction::KeyDown, "a");

    let result = manager.inject_keyboard_event(keyboard_event);
    assert!(result.is_ok());
}

#[test]
fn disabled_inputs_are_turned_away() {
    let mut config = InputConfig::default();
    config.enable_mouse = false;
    config.enable_keyboard = false;
    config.enable_touch = false;
    let manager = InputManager::new(config).unwrap();
    assert_eq!(input_text(manager.inject_mouse_event(mouse(MouseAction::Click))), "Mouse input is disabled");
    assert_eq!(input_text(manager.inject_wheel_event(wheel(120))), "Mouse input is disabled");
    assert_eq!(
        input_text(manager.inject_keyboard_event(key(KeyboardAction::KeyUp, "a"))),
        "Keyboard input is disabled"
    );
    assert_eq!(input_text(manager.inject_touch_event(touch())), "Touch input is disabled");
    let manager = InputManager::new(InputConfig::default()).unwrap();
    assert!(manager.inject_touch_event(touch()).is_ok());
    assert_eq!(manager.inject_wheel_event(wheel(-240)).unwrap().delta_y, -240);
}

#[test]
fn processing_runs_between_start_and_stop() {
    let mut manager = InputManager::new(InputConfig::default()).unwrap();
    assert!(manager.process_event(InputEvent::Wheel(wheel(1))).is_none());
    manager.start().unwrap();
    assert!(manager.is_enabled());
    assert!(matches!(
        manager.process_event(InputEvent::Mouse(mouse(MouseAction::MouseDown))),
        Some(Ok(InputEvent::Mouse(_)))
    ));
    assert!(matches!(manager.process_event(InputEvent::Touch(touch())), Some(Ok(InputEvent::Touch(_)))));
    manager.stop().unwrap();
    assert!(manager.process_event(InputEvent::Keyboard(key(KeyboardAction::KeyDown, "a"))).is_none());
    let mut config = InputConfig::default();
    config.enable_keyboard = false;
    let mut manager = InputManager::new(config).unwrap();
    manager.start().unwrap();
    assert!(matches!(
        manager.process_event(InputEvent::Keyboard(key(KeyboardAction::KeyDown, "a"))),
        Some(Err(AgentError::Input(_)))
    ));
}

#[test]
fn virtual_key_codes() {
    assert_eq!(get_virtual_key_code("a").unwrap(), 0x41);
    assert_eq!(get_virtual_key_code("Z").unwrap(), 0x5A);
    assert_eq!(get_virtual_key_code("m").unwrap(), 0x4D);
    assert_eq!(get_virtual_key_code("Enter").unwrap(), 0x0D);
    assert_eq!(get_virtual_key_code("SPACE").unwrap(), 0x20);
    assert_eq!(get_virtual_key_code("backspace").unwrap(), 0x08);
    assert_eq!(get_virtual_key_code("tab").unwrap(), 0x09);
    assert_eq!(get_virtual_key_code("escape").unwrap(), 0x1B);
    assert_eq!(get_virtual_key_code("shift").unwrap(), 0x10);
    assert_eq!(get_virtual_key_code("ctrl").unwrap(), 0x11);
    assert_eq!(get_virtual_key_code("alt").unwrap(), 0x12);
    assert_eq!(input_text(get_virtual_key_code("F13")), "Unknown key: F13");
    assert_eq!(input_text(get_virtual_key_code("")), "Unknown key: ");
}

#[test]
fn synthesized_mouse_inputs() {
    let event = mouse(MouseAction::MouseDown);
    assert_eq!(
        windows_mouse_input(&event).unwrap(),
        MouseInput { dx: event.x, dy: event.y, mouse_data: 0, flags: 0x0002 }
    );
    assert_eq!(windows_mouse_input(&mouse(MouseAction::MouseUp)).unwrap().flags, 0x0004);
    assert_eq!(windows_mouse_input(&mouse(MouseAction::MouseMove)).unwrap().flags, 0x0001);
    for action in [MouseAction::Click, MouseAction::DoubleClick, MouseAction::ContextMenu] {
        assert_eq!(input_text(windows_mouse_input(&mouse(action))), "Unsupported mouse action");
    }
    assert_eq!(
        windows_wheel_input(&wheel(360)),
        MouseInput { dx: 0, dy: 0, mouse_data: 360, flags: 0x0800 }
    );
}

#[test]
fn synthesized_keyboard_inputs() {
    assert_eq!(
        windows_keyboard_input(&key(KeyboardAction::KeyDown, "A")).unwrap(),
        KeyInput { virtual_key: 0x41, flags: 0 }
    );
    assert_eq!(
        windows_keyboard_input(&key(KeyboardAction::KeyUp, "enter")).unwrap(),
        KeyInput { virtual_key: 0x0D, flags: 0x0002 }
    );
    assert_eq!(
        input_text(windows_keyboard_input(&key(KeyboardAction::KeyPress, "a"))),
        "Unsupported keyboard action"
    );
    assert_eq!(input_text(windows_keyboard_input(&key(KeyboardAction::KeyDown, "hyper"))), "Unknown key: hyper");
}
