//! Input injection: which events the configuration lets through, and
//! what each event means for the platform's input queue. The caller owns
//! the platform call and carries out what these functions decide.

use vstd::prelude::*;
use vstd::string::*;
use crate::config::InputConfig;
use crate::error::{AgentError, AgentResult, ErrorKind};
use crate::text::{join2, lowercase_of, same_text, to_lowercase};
use crate::types::{InputEvent, KeyboardAction, KeyboardEvent, MouseAction, MouseEvent, TouchEvent, WheelEvent};

verus! {

/// Flag of a synthesized pointer movement.
pub const MOUSEEVENTF_MOVE: u32 = 0x0001;

/// Flag of a synthesized press of the left button.
pub const MOUSEEVENTF_LEFTDOWN: u32 = 0x0002;

/// Flag of a synthesized release of the left button.
pub const MOUSEEVENTF_LEFTUP: u32 = 0x0004;

/// Flag of a synthesized wheel turn.
pub const MOUSEEVENTF_WHEEL: u32 = 0x0800;

/// Flag of a synthesized key press.
pub const KEYEVENTF_NONE: u32 = 0x0000;

/// Flag of a synthesized key release.
pub const KEYEVENTF_KEYUP: u32 = 0x0002;

/// One synthesized pointer input.
#[derive(Debug, Clone, Copy, PartialEq, Eq, Structural)]
pub struct MouseInput {
    pub dx: i32,
    pub dy: i32,
    pub mouse_data: i32,
    pub flags: u32,
}

/// One synthesized keyboard input.
#[derive(Debug, Clone, Copy, PartialEq, Eq, Structural)]
pub struct KeyInput {
    pub virtual_key: u16,
    pub flags: u32,
}

/// The virtual key code for a key's lower-case name, if it has one.
pub open spec fn key_code_of(lower: Seq<char>) -> Option<u16> {
    if lower == "a"@ {
        Some(0x41)
    } else if lower == "b"@ {
        Some(0x42)
    } else if lower == "c"@ {
        Some(0x43)
    } else if lower == "d"@ {
        Some(0x44)
    } else if lower == "e"@ {
        Some(0x45)
    } else if lower == "f"@ {
        Some(0x46)
    } else if lower == "g"@ {
        Some(0x47)
    } else if lower == "h"@ {
        Some(0x48)
    } else if lower == "i"@ {
        Some(0x49)
    } else if lower == "j"@ {
        Some(0x4A)
    } else if lower == "k"@ {
        Some(0x4B)
    } else if lower == "l"@ {
        Some(0x4C)
    } else if lower == "m"@ {
        Some(0x4D)
    } else if lower == "n"@ {
        Some(0x4E)
    } else if lower == "o"@ {
        Some(0x4F)
    } else if lower == "p"@ {
        Some(0x50)
    } else if lower == "q"@ {
        Some(0x51)
    } else if lower == "r"@ {
        Some(0x52)
    } else if lower == "s"@ {
        Some(0x53)
    } else if lower == "t"@ {
        Some(0x54)
    } else if lower == "u"@ {
        Some(0x55)
    } else if lower == "v"@ {
        Some(0x56)
    } else if lower == "w"@ {
        Some(0x57)
    } else if lower == "x"@ {
        Some(0x58)
    } else if lower == "y"@ {
        Some(0x59)
    } else if lower == "z"@ {
        Some(0x5A)
    } else if lower == "enter"@ {
        Some(0x0D)
    } else if lower == "space"@ {
        Some(0x20)
    } else if lower == "backspace"@ {
        Some(0x08)
    } else if lower == "tab"@ {
        Some(0x09)
    } else if lower == "escape"@ {
        Some(0x1B)
    } else if lower == "shift"@ {
        Some(0x10)
    } else if lower == "ctrl"@ {
        Some(0x11)
    } else if lower == "alt"@ {
        Some(0x12)
    } else {
        None
    }
}

/// The virtual key code for a key's lower-case name, if it has one.
pub fn lookup_key_code(lower: &str) -> (r: Option<u16>)
    ensures
        r == key_code_of(lower@),
{
    if same_text(lower, "a") {
        Some(0x41)
    } else if same_text(lower, "b") {
        Some(0x42)
    } else if same_text(lower, "c") {
        Some(0x43)
    } else if same_text(lower, "d") {
        Some(0x44)
    } else if same_text(lower, "e") {
        Some(0x45)
    } else if same_text(lower, "f") {
        Some(0x46)
    } else if same_text(lower, "g") {
        Some(0x47)
    } else if same_text(lower, "h") {
        Some(0x48)
    } else if same_text(lower, "i") {
        Some(0x49)
    } else if same_text(lower, "j") {
        Some(0x4A)
    } else if same_text(lower, "k") {
        Some(0x4B)
    } else if same_text(lower, "l") {
        Some(0x4C)
    } else if same_text(lower, "m") {
        Some(0x4D)
    } else if same_text(lower, "n") {
        Some(0x4E)
    } else if same_text(lower, "o") {
        Some(0x4F)
    } else if same_text(lower, "p") {
        Some(0x50)
    } else if same_text(lower, "q") {
        Some(0x51)
    } else if same_text(lower, "r") {
        Some(0x52)
    } else if same_text(lower, "s") {
        Some(0x53)
    } else if same_text(lower, "t") {
        Some(0x54)
    } else if same_text(lower, "u") {
        Some(0x55)
    } else if same_text(lower, "v") {
        Some(0x56)
    } else if same_text(lower, "w") {
        Some(0x57)
    } else if same_text(lower, "x") {
        Some(0x58)
    } else if same_text(lower, "y") {
        Some(0x59)
    } else if same_text(lower, "z") {
        Some(0x5A)
    } else if same_text(lower, "enter") {
        Some(0x0D)
    } else if same_text(lower, "space") {
        Some(0x20)
    } else if same_text(lower, "backspace") {
        Some(0x08)
    } else if same_text(lower, "tab") {
        Some(0x09)
    } else if same_text(lower, "escape") {
        Some(0x1B)
    } else if same_text(lower, "shift") {
        Some(0x10)
    } else if same_text(lower, "ctrl") {
        Some(0x11)
    } else if same_text(lower, "alt") {
        Some(0x12)
    } else {
        None
    }
}

/// What looking a key up gives, when `lower` is the lower-case form of
/// its name `key`.
pub open spec fn key_lookup(key: Seq<char>, lower: Seq<char>, r: AgentResult<u16>) -> bool {
    match key_code_of(lower) {
        Some(code) => r == Ok::<u16, AgentError>(code),
        None => r is Err && r->Err_0.kind() == ErrorKind::Input && r->Err_0.text() == "Unknown key: "@
            + key,
    }
}

/// The virtual key code for a key's name, ignoring letter case. An
/// unknown key gives an input error that quotes the name.
pub fn get_virtual_key_code(key: &str) -> (r: AgentResult<u16>)
    ensures
        key_lookup(key@, lowercase_of(key@), r),
{
    let lower = to_lowercase(key);
    match lookup_key_code(lower.as_str()) {
        Some(code) => Ok(code),
        None => Err(AgentError::Input(join2("Unknown key: ", key))),
    }
}

/// The pointer input for a mouse event: press, release and movement are
/// synthesized at the event's position; other actions have no input.
pub open spec fn mouse_input_of(event: MouseEvent) -> Option<MouseInput> {
    match event.action {
        MouseAction::MouseDown => Some(
            MouseInput { dx: event.x, dy: event.y, mouse_data: 0, flags: MOUSEEVENTF_LEFTDOWN },
        ),
        MouseAction::MouseUp => Some(
            MouseInput { dx: event.x, dy: event.y, mouse_data: 0, flags: MOUSEEVENTF_LEFTUP },
        ),
        MouseAction::MouseMove => Some(
            MouseInput { dx: event.x, dy: event.y, mouse_data: 0, flags: MOUSEEVENTF_MOVE },
        ),
        _ => None,
    }
}

/// The pointer input that a mouse event is synthesized as.
pub fn windows_mouse_input(event: &MouseEvent) -> (r: AgentResult<MouseInput>)
    ensures
        match mouse_input_of(*event) {
            Some(input) => r == Ok::<MouseInput, AgentError>(input),
            None => r is Err && r->Err_0.kind() == ErrorKind::Input && r->Err_0.text()
                == "Unsupported mouse action"@,
        },
{
    match event.action {
        MouseAction::MouseDown => Ok(
            MouseInput { dx: event.x, dy: event.y, mouse_data: 0, flags: MOUSEEVENTF_LEFTDOWN },
        ),
        MouseAction::MouseUp => Ok(
            MouseInput { dx: event.x, dy: event.y, mouse_data: 0, flags: MOUSEEVENTF_LEFTUP },
        ),
        MouseAction::MouseMove => Ok(
            MouseInput { dx: event.x, dy: event.y, mouse_data: 0, flags: MOUSEEVENTF_MOVE },
        ),
        _ => Err(AgentError::Input(String::from_str("Unsupported mouse action"))),
    }
}

/// The pointer input that a wheel event is synthesized as: a vertical
/// wheel turn by the event's vertical delta.
pub fn windows_wheel_input(event: &WheelEvent) -> (r: MouseInput)
    ensures
        r == (MouseInput { dx: 0, dy: 0, mouse_data: event.delta_y, flags: MOUSEEVENTF_WHEEL }),
{
    MouseInput { dx: 0, dy: 0, mouse_data: event.delta_y, flags: MOUSEEVENTF_WHEEL }
}

/// The flags for a keyboard action, if the action can be synthesized.
pub open spec fn key_flags_of(action: KeyboardAction) -> Option<u32> {
    match action {
        KeyboardAction::KeyDown => Some(KEYEVENTF_NONE),
        KeyboardAction::KeyUp => Some(KEYEVENTF_KEYUP),
        KeyboardAction::KeyPress => None,
    }
}

/// What synthesizing a keyboard event gives, when `lower` is the
/// lower-case form of the key's name. The key is looked up first.
pub open spec fn key_input_outcome(event: KeyboardEvent, lower: Seq<char>, r: AgentResult<KeyInput>) -> bool {
    match key_code_of(lower) {
        None => r is Err && r->Err_0.kind() == ErrorKind::Input && r->Err_0.text() == "Unknown key: "@
            + event.key@,
        Some(code) => match key_flags_of(event.action) {
            Some(flags) => r == Ok::<KeyInput, AgentError>(KeyInput { virtual_key: code, flags }),
            None => r is Err && r->Err_0.kind() == ErrorKind::Input && r->Err_0.text()
                == "Unsupported keyboard action"@,
        },
    }
}

/// The keyboard input that a keyboard event is synthesized as.
pub fn windows_keyboard_input(event: &KeyboardEvent) -> (r: AgentResult<KeyInput>)
    ensures
        key_input_outcome(*event, lowercase_of(event.key@), r),
{
    match get_virtual_key_code(event.key.as_str()) {
        Ok(code) => match event.action {
            KeyboardAction::KeyDown => Ok(KeyInput { virtual_key: code, flags: KEYEVENTF_NONE }),
            KeyboardAction::KeyUp => Ok(KeyInput { virtual_key: code, flags: KEYEVENTF_KEYUP }),
            KeyboardAction::KeyPress => Err(
                AgentError::Input(String::from_str("Unsupported keyboard action")),
            ),
        },
        Err(e) => Err(e),
    }
}

/// The kinds of input event.
#[derive(Debug, Clone, Copy, PartialEq, Eq, Structural)]
pub enum InputKind {
    Mouse,
    Keyboard,
    Touch,
    Wheel,
}

/// Why an event of a kind is turned away under a configuration, if it
/// is. Wheel events go with the mouse.
pub open spec fn input_fault(config: InputConfig, kind: InputKind) -> Option<Seq<char>> {
    match kind {
        InputKind::Mouse | InputKind::Wheel => if config.enable_mouse {
            None
        } else {
            Some("Mouse input is disabled"@)
        },
        InputKind::Keyboard => if config.enable_keyboard {
            None
        } else {
            Some("Keyboard input is disabled"@)
        },
        InputKind::Touch => if config.enable_touch {
            None
        } else {
            Some("Touch input is disabled"@)
        },
    }
}

/// The kind of an input event.
pub open spec fn kind_of(event: InputEvent) -> InputKind {
    match event {
        InputEvent::Mouse(_) => InputKind::Mouse,
        InputEvent::Keyboard(_) => InputKind::Keyboard,
        InputEvent::Touch(_) => InputKind::Touch,
        InputEvent::Wheel(_) => InputKind::Wheel,
    }
}

/// What a gate answers: success, or an input error with the fault.
pub open spec fn gate_outcome<T>(fault: Option<Seq<char>>, r: AgentResult<T>) -> bool {
    match fault {
        None => r is Ok,
        Some(why) => r is Err && r->Err_0.kind() == ErrorKind::Input && r->Err_0.text() == why,
    }
}

/// The input injection manager.
pub struct InputManager {
    config: InputConfig,
    is_enabled: bool,
    has_input_sender: bool,
}

impl InputManager {
    /// The configuration in force.
    pub closed spec fn config(&self) -> InputConfig {
        self.config
    }

    /// Whether input processing runs.
    pub closed spec fn enabled(&self) -> bool {
        self.is_enabled
    }

    /// Whether a sender for input events is attached.
    pub closed spec fn has_sender(&self) -> bool {
        self.has_input_sender
    }

    /// A manager whose processing does not run yet.
    pub fn new(config: InputConfig) -> (r: AgentResult<Self>)
        ensures
            r is Ok,
            r->Ok_0.config() == config,
            !r->Ok_0.enabled(),
            !r->Ok_0.has_sender(),
    {
        Ok(InputManager { config, is_enabled: false, has_input_sender: false })
    }

    /// Starts input processing; the processing has its own sender.
    pub fn start(&mut self) -> (r: AgentResult<()>)
        ensures
            r is Ok,
            final(self).enabled(),
            final(self).has_sender(),
            final(self).config() == old(self).config(),
    {
        self.has_input_sender = true;
        self.is_enabled = true;
        Ok(())
    }

    /// Stops input processing.
    pub fn stop(&mut self) -> (r: AgentResult<()>)
        ensures
            r is Ok,
            !final(self).enabled(),
            final(self).has_sender() == old(self).has_sender(),
            final(self).config() == old(self).config(),
    {
        self.is_enabled = false;
        Ok(())
    }

    /// Notes whether a sender for input events is attached.
    pub fn set_input_sender(&mut self, attached: bool)
        ensures
            final(self).has_sender() == attached,
            final(self).enabled() == old(self).enabled(),
            final(self).config() == old(self).config(),
    {
        self.has_input_sender = attached;
    }

    /// Whether input processing runs.
    pub fn is_enabled(&self) -> (r: bool)
        ensures
            r == self.enabled(),
    {
        self.is_enabled
    }

    /// Lets a mouse event through if mouse input is enabled.
    pub fn inject_mouse_event(&self, event: MouseEvent) -> (r: AgentResult<MouseEvent>)
        ensures
            gate_outcome(input_fault(self.config(), InputKind::Mouse), r),
            r matches Ok(passed) ==> passed == event,
    {
        if !self.config.enable_mouse {
            return Err(AgentError::Input(String::from_str("Mouse input is disabled")));
        }
        Ok(event)
    }

    /// Lets a keyboard event through if keyboard input is enabled.
    pub fn inject_keyboard_event(&self, event: KeyboardEvent) -> (r: AgentResult<KeyboardEvent>)
        ensures
            gate_outcome(input_fault(self.config(), InputKind::Keyboard), r),
            r matches Ok(passed) ==> passed == event,
    {
        if !self.config.enable_keyboard {
            return Err(AgentError::Input(String::from_str("Keyboard input is disabled")));
        }
        Ok(event)
    }

    /// Lets a touch event through if touch input is enabled.
    pub fn inject_touch_event(&self, event: TouchEvent) -> (r: AgentResult<TouchEvent>)
        ensures
            gate_outcome(input_fault(self.config(), InputKind::Touch), r),
            r matches Ok(passed) ==> passed == event,
    {
        if !self.config.enable_touch {
            return Err(AgentError::Input(String::from_str("Touch input is disabled")));
        }
        Ok(event)
    }

    /// Lets a wheel event through if mouse input is enabled.
    pub fn inject_wheel_event(&self, event: WheelEvent) -> (r: AgentResult<WheelEvent>)
        ensures
            gate_outcome(input_fault(self.config(), InputKind::Wheel), r),
            r matches Ok(passed) ==> passed == event,
    {
        if !self.config.enable_mouse {
            return Err(AgentError::Input(String::from_str("Mouse input is disabled")));
        }
        Ok(event)
    }

    /// Takes one event off the input queue: while processing runs, the
    /// event is let through if its kind is enabled; once processing has
    /// stopped, nothing is let through.
    pub fn process_event(&self, event: InputEvent) -> (r: Option<AgentResult<InputEvent>>)
        ensures
            !self.enabled() ==> r is None,
            self.enabled() ==> r is Some && gate_outcome(
                input_fault(self.config(), kind_of(event)),
                r->Some_0,
            ) && (r->Some_0 matches Ok(passed) ==> passed == event),
    {
        if !self.is_enabled {
            return None;
        }
        let gated = match event {
            InputEvent::Mouse(e) => match self.inject_mouse_event(e) {
                Ok(e) => Ok(InputEvent::Mouse(e)),
                Err(e) => Err(e),
            },
            InputEvent::Keyboard(e) => match self.inject_keyboard_event(e) {
                Ok(e) => Ok(InputEvent::Keyboard(e)),
                Err(e) => Err(e),
            },
            InputEvent::Touch(e) => match self.inject_touch_event(e) {
                Ok(e) => Ok(InputEvent::Touch(e)),
                Err(e) => Err(e),
            },
            InputEvent::Wheel(e) => match self.inject_wheel_event(e) {
                Ok(e) => Ok(InputEvent::Wheel(e)),
                Err(e) => Err(e),
            },
        };
        Some(gated)
    }
}

} // verus!
