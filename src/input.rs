use vstd::prelude::*;

verus! {

/// Window message: the client area changed size.
pub const WM_SIZE: u32 = 0x0005;
/// Window message: the client area must be repainted.
pub const WM_PAINT: u32 = 0x000F;
/// Window message: a key was pressed.
pub const WM_KEYDOWN: u32 = 0x0100;
/// Window message: a key was released.
pub const WM_KEYUP: u32 = 0x0101;
/// Window message: a character was typed.
pub const WM_CHAR: u32 = 0x0102;
/// Window message: a key was pressed while ALT was held, or F10.
pub const WM_SYSKEYDOWN: u32 = 0x0104;
/// Window message: a key was released while ALT was held, or F10.
pub const WM_SYSKEYUP: u32 = 0x0105;
/// Window message: the mouse moved.
pub const WM_MOUSEMOVE: u32 = 0x0200;
/// Window message: the left mouse button was pressed.
pub const WM_LBUTTONDOWN: u32 = 0x0201;
/// Window message: the left mouse button was released.
pub const WM_LBUTTONUP: u32 = 0x0202;
/// Window message: the right mouse button was pressed.
pub const WM_RBUTTONDOWN: u32 = 0x0204;
/// Window message: the right mouse button was released.
pub const WM_RBUTTONUP: u32 = 0x0205;
/// Window message: the middle mouse button was pressed.
pub const WM_MBUTTONDOWN: u32 = 0x0207;
/// Window message: the middle mouse button was released.
pub const WM_MBUTTONUP: u32 = 0x0208;
/// Window message: the mouse wheel turned.
pub const WM_MOUSEWHEEL: u32 = 0x020A;

/// Virtual key: backspace.
pub const VK_BACK: u32 = 0x08;
/// Virtual key: tab.
pub const VK_TAB: u32 = 0x09;
/// Virtual key: enter.
pub const VK_RETURN: u32 = 0x0D;
/// Virtual key: either shift key.
pub const VK_SHIFT: u32 = 0x10;
/// Virtual key: either control key.
pub const VK_CONTROL: u32 = 0x11;
/// Virtual key: page up.
pub const VK_PRIOR: u32 = 0x21;
/// Virtual key: page down.
pub const VK_NEXT: u32 = 0x22;
/// Virtual key: end.
pub const VK_END: u32 = 0x23;
/// Virtual key: home.
pub const VK_HOME: u32 = 0x24;
/// Virtual key: left arrow.
pub const VK_LEFT: u32 = 0x25;
/// Virtual key: right arrow.
pub const VK_RIGHT: u32 = 0x27;
/// Virtual key: delete.
pub const VK_DELETE: u32 = 0x2E;
/// Virtual key: left shift.
pub const VK_LSHIFT: u32 = 0xA0;
/// Virtual key: right shift.
pub const VK_RSHIFT: u32 = 0xA1;

/// Virtual key: the letter C (letter keys share their upper-case ASCII code).
pub const KEY_C: u8 = 0x43;
/// Virtual key: the letter R.
pub const KEY_R: u8 = 0x52;
/// Virtual key: the letter V.
pub const KEY_V: u8 = 0x56;
/// Virtual key: the letter X.
pub const KEY_X: u8 = 0x58;
/// Virtual key: the letter Z.
pub const KEY_Z: u8 = 0x5A;

/// The GUI library's keys that this backend reports.
#[derive(Clone, Copy, Debug, PartialEq, Eq, Structural)]
pub enum Key {
    Shift,
    Del,
    Enter,
    Tab,
    Backspace,
    Copy,
    Cut,
    Paste,
    Left,
    Right,
    TextStart,
    TextEnd,
    TextUndo,
    TextRedo,
    TextWordLeft,
    TextWordRight,
    ScrollStart,
    ScrollEnd,
    ScrollDown,
    ScrollUp,
}

/// The mouse buttons that this backend reports.
#[derive(Clone, Copy, Debug, PartialEq, Eq, Structural)]
pub enum MouseButton {
    Left,
    Middle,
    Right,
}

/// One input call to make on the GUI context.
#[derive(Clone, Copy, Debug, PartialEq, Eq, Structural)]
pub enum InputEvent {
    /// A key went down or up.
    Key { key: Key, down: bool },
    /// A mouse button went down or up at a point of the client area.
    Button { button: MouseButton, x: i32, y: i32, down: bool },
    /// The mouse is now at a point of the client area.
    Motion { x: i32, y: i32 },
    /// The wheel turned; `wheel` is the high word of the message's `wparam`
    /// read as a signed value (positive away from the user),
    /// in units of which one notch (`WHEEL_DELTA`) is 120.
    Scroll { wheel: i16 },
    /// A character was typed.
    Unicode { c: char },
}

/// What the window itself must do for a message.
#[derive(Clone, Copy, Debug, PartialEq, Eq, Structural)]
pub enum WindowAction {
    Nothing,
    /// Replace the back buffer by one of the new size.
    Resize { width: u16, height: u16 },
    /// Copy the back buffer to the window between `BeginPaint` and `EndPaint`.
    Paint,
    /// Capture the mouse for the window.
    CaptureMouse,
    /// Release the mouse capture.
    ReleaseMouse,
}

/// The size of the drawing surface, in pixels.
#[derive(Clone, Copy, Debug, PartialEq, Eq, Structural)]
pub struct FrameSize {
    pub width: u16,
    pub height: u16,
}

/// The translation of one window message.
#[derive(Debug)]
pub struct MessageOutcome {
    /// Input calls to make on the GUI context, in order.
    pub events: Vec<InputEvent>,
    /// What the window must do.
    pub action: WindowAction,
    /// Whether the message was consumed.
    pub handled: bool,
}

/// The low word of a message parameter, read as an unsigned 16-bit value
/// (two's complement for a negative `lparam`).
pub open spec fn low_word(v: int) -> int {
    v % 0x1_0000
}

/// Bits 16 to 31 of a message parameter, read as an unsigned 16-bit value.
pub open spec fn high_word(v: int) -> int {
    (v / 0x1_0000) % 0x1_0000
}

/// A 16-bit word read as a two's complement signed value.
pub open spec fn signed_word(w: int) -> int {
    if w >= 0x8000 {
        w - 0x1_0000
    } else {
        w
    }
}

/// The virtual-key code in a key message's `wparam`: its low 32 bits.
pub open spec fn key_code(wparam: int) -> int {
    wparam % 0x1_0000_0000
}

/// The low byte of a key message's `wparam`, compared against letters.
pub open spec fn key_letter(wparam: int) -> int {
    wparam % 0x100
}

/// A key message reports a press when bit 31 of `lparam` (the transition
/// state) is clear.
pub open spec fn key_pressed(lparam: int) -> bool {
    (lparam / 0x8000_0000) % 2 == 0
}

/// `GetKeyState` reports a key as held when the high-order bit of its result
/// is set.
pub open spec fn control_held(state: i16) -> bool {
    state < 0
}

/// A Unicode scalar value: a code point outside the surrogate range.
pub open spec fn is_scalar(c: int) -> bool {
    0 <= c <= 0x10FFFF && !(0xD800 <= c <= 0xDFFF)
}

pub open spec fn is_key_message(msg: u32) -> bool {
    msg == WM_KEYDOWN || msg == WM_KEYUP || msg == WM_SYSKEYDOWN || msg == WM_SYSKEYUP
}

/// The GUI keys that a key message stands for; empty when the key means
/// nothing to the GUI.
pub open spec fn keys_for(wparam: int, ctrl: bool) -> Seq<Key> {
    let code = key_code(wparam);
    let letter = key_letter(wparam);
    if code == VK_SHIFT || code == VK_LSHIFT || code == VK_RSHIFT {
        seq![Key::Shift]
    } else if code == VK_DELETE {
        seq![Key::Del]
    } else if code == VK_RETURN {
        seq![Key::Enter]
    } else if code == VK_TAB {
        seq![Key::Tab]
    } else if code == VK_LEFT {
        if ctrl { seq![Key::TextWordLeft] } else { seq![Key::Left] }
    } else if code == VK_RIGHT {
        if ctrl { seq![Key::TextWordRight] } else { seq![Key::Right] }
    } else if code == VK_BACK {
        seq![Key::Backspace]
    } else if code == VK_HOME {
        seq![Key::TextStart, Key::ScrollStart]
    } else if code == VK_END {
        seq![Key::TextEnd, Key::ScrollEnd]
    } else if code == VK_NEXT {
        seq![Key::ScrollDown]
    } else if code == VK_PRIOR {
        seq![Key::ScrollUp]
    } else if !ctrl {
        seq![]
    } else if letter == KEY_C {
        seq![Key::Copy]
    } else if letter == KEY_V {
        seq![Key::Paste]
    } else if letter == KEY_X {
        seq![Key::Cut]
    } else if letter == KEY_Z {
        seq![Key::TextUndo]
    } else if letter == KEY_R {
        seq![Key::TextRedo]
    } else {
        seq![]
    }
}

/// Each key of `keys`, reported as going down or up.
pub open spec fn key_events(keys: Seq<Key>, down: bool) -> Seq<InputEvent> {
    keys.map_values(|k: Key| InputEvent::Key { key: k, down: down })
}

/// The mouse button of a button message, and whether it went down.
pub open spec fn button_of(msg: u32) -> Option<(MouseButton, bool)> {
    if msg == WM_LBUTTONDOWN {
        Some((MouseButton::Left, true))
    } else if msg == WM_LBUTTONUP {
        Some((MouseButton::Left, false))
    } else if msg == WM_RBUTTONDOWN {
        Some((MouseButton::Right, true))
    } else if msg == WM_RBUTTONUP {
        Some((MouseButton::Right, false))
    } else if msg == WM_MBUTTONDOWN {
        Some((MouseButton::Middle, true))
    } else if msg == WM_MBUTTONUP {
        Some((MouseButton::Middle, false))
    } else {
        None
    }
}

/// The input calls that a message stands for.
pub open spec fn message_events(msg: u32, wparam: usize, lparam: isize, control_state: i16) -> Seq<
    InputEvent,
> {
    let x = low_word(lparam as int) as i32;
    let y = high_word(lparam as int) as i32;
    if is_key_message(msg) {
        key_events(keys_for(wparam as int, control_held(control_state)), key_pressed(lparam as int))
    } else if msg == WM_CHAR {
        if wparam >= 32 && is_scalar(key_code(wparam as int)) {
            seq![InputEvent::Unicode { c: key_code(wparam as int) as char }]
        } else {
            seq![]
        }
    } else if button_of(msg) is Some {
        let (button, down) = button_of(msg)->0;
        seq![InputEvent::Button { button: button, x: x, y: y, down: down }]
    } else if msg == WM_MOUSEWHEEL {
        seq![InputEvent::Scroll { wheel: signed_word(high_word(wparam as int)) as i16 }]
    } else if msg == WM_MOUSEMOVE {
        seq![InputEvent::Motion { x: x, y: y }]
    } else {
        seq![]
    }
}

/// What the window must do for a message, given the current surface size.
pub open spec fn message_action(size: FrameSize, msg: u32, lparam: isize) -> WindowAction {
    let w = low_word(lparam as int);
    let h = high_word(lparam as int);
    if msg == WM_SIZE {
        if w != size.width || h != size.height {
            WindowAction::Resize { width: w as u16, height: h as u16 }
        } else {
            WindowAction::Nothing
        }
    } else if msg == WM_PAINT {
        WindowAction::Paint
    } else if button_of(msg) is Some {
        let (_, down) = button_of(msg)->0;
        if down {
            WindowAction::CaptureMouse
        } else {
            WindowAction::ReleaseMouse
        }
    } else {
        WindowAction::Nothing
    }
}

/// The parameter's bits as an unsigned 64-bit value.
fn param_bits(lparam: isize) -> (r: u64)
    ensures
        r as int == (lparam as int) % 0x1_0000_0000_0000_0000,
{
    let l = lparam as i64;
    if l >= 0 {
        l as u64
    } else {
        let shifted = (l + 1) + i64::MAX;
        (shifted as u64) + 0x8000_0000_0000_0000u64
    }
}

/// Relies on `char::from_u32`: `Some` exactly for a Unicode scalar value.
#[verifier::external_body]
fn char_from_code(code: u32) -> (r: Option<char>)
    ensures
        r == (if is_scalar(code as int) {
            Some(code as char)
        } else {
            None
        }),
{
    char::from_u32(code)
}

/// Reading words and bits of a parameter from its 64-bit pattern gives the
/// same values as reading them from the parameter itself.
proof fn lemma_param_words(l: int, b: int)
    requires
        b == l % 0x1_0000_0000_0000_0000,
    ensures
        low_word(b) == low_word(l),
        high_word(b) == high_word(l),
        key_pressed(b) == key_pressed(l),
{
    let q = l / 0x1_0000_0000_0000_0000;
    assert(l == q * 0x1_0000_0000_0000_0000 + b);
    assert(b % 0x1_0000 == l % 0x1_0000) by (nonlinear_arith)
        requires
            l == q * 0x1_0000_0000_0000_0000 + b,
    ;
    assert(b / 0x1_0000 == l / 0x1_0000 - q * 0x1_0000_0000_0000) by (nonlinear_arith)
        requires
            l == q * 0x1_0000_0000_0000_0000 + b,
    ;
    assert((b / 0x1_0000) % 0x1_0000 == (l / 0x1_0000) % 0x1_0000) by (nonlinear_arith)
        requires
            b / 0x1_0000 == l / 0x1_0000 - q * 0x1_0000_0000_0000,
    ;
    assert(b / 0x8000_0000 == l / 0x8000_0000 - q * 0x2_0000_0000) by (nonlinear_arith)
        requires
            l == q * 0x1_0000_0000_0000_0000 + b,
    ;
    assert((b / 0x8000_0000) % 2 == (l / 0x8000_0000) % 2) by (nonlinear_arith)
        requires
            b / 0x8000_0000 == l / 0x8000_0000 - q * 0x2_0000_0000,
    ;
}

/// The GUI keys for a key message's `wparam`, given whether control is held.
pub fn translate_key(wparam: usize, ctrl: bool) -> (r: Vec<Key>)
    ensures
        r@ == keys_for(wparam as int, ctrl),
{
    let bits = wparam as u64;
    let code = (bits % 0x1_0000_0000) as u32;
    let letter = (bits % 0x100) as u8;
    if code == VK_SHIFT || code == VK_LSHIFT || code == VK_RSHIFT {
        vec![Key::Shift]
    } else if code == VK_DELETE {
        vec![Key::Del]
    } else if code == VK_RETURN {
        vec![Key::Enter]
    } else if code == VK_TAB {
        vec![Key::Tab]
    } else if code == VK_LEFT {
        if ctrl { vec![Key::TextWordLeft] } else { vec![Key::Left] }
    } else if code == VK_RIGHT {
        if ctrl { vec![Key::TextWordRight] } else { vec![Key::Right] }
    } else if code == VK_BACK {
        vec![Key::Backspace]
    } else if code == VK_HOME {
        vec![Key::TextStart, Key::ScrollStart]
    } else if code == VK_END {
        vec![Key::TextEnd, Key::ScrollEnd]
    } else if code == VK_NEXT {
        vec![Key::ScrollDown]
    } else if code == VK_PRIOR {
        vec![Key::ScrollUp]
    } else if !ctrl {
        Vec::new()
    } else if letter == KEY_C {
        vec![Key::Copy]
    } else if letter == KEY_V {
        vec![Key::Paste]
    } else if letter == KEY_X {
        vec![Key::Cut]
    } else if letter == KEY_Z {
        vec![Key::TextUndo]
    } else if letter == KEY_R {
        vec![Key::TextRedo]
    } else {
        Vec::new()
    }
}

/// Whether a message is consumed: a repaint always is, any other message
/// exactly when it produced input.
pub open spec fn message_handled(msg: u32, wparam: usize, lparam: isize, control_state: i16) -> bool {
    msg == WM_PAINT || message_events(msg, wparam, lparam, control_state).len() > 0
}

/// Translates one window message into input calls for the GUI context and
/// an action for the window. `size` is the current surface size and
/// `control_state` what `GetKeyState(VK_CONTROL)` returns. A typed UTF-16
/// unit that is not a Unicode scalar value (half of a surrogate pair) gives
/// no event.
pub fn translate_message(
    size: FrameSize,
    msg: u32,
    wparam: usize,
    lparam: isize,
    control_state: i16,
) -> (r: MessageOutcome)
    ensures
        r.events@ == message_events(msg, wparam, lparam, control_state),
        r.action == message_action(size, msg, lparam),
        r.handled == message_handled(msg, wparam, lparam, control_state),
{
    let bits = param_bits(lparam);
    proof {
        lemma_param_words(lparam as int, bits as int);
    }
    let low = (bits % 0x1_0000) as u16;
    let high = ((bits / 0x1_0000) % 0x1_0000) as u16;
    let x = low as i32;
    let y = high as i32;
    let mut events: Vec<InputEvent> = Vec::new();
    let mut action = WindowAction::Nothing;
    if msg == WM_SIZE {
        if low != size.width || high != size.height {
            action = WindowAction::Resize { width: low, height: high };
        }
    } else if msg == WM_PAINT {
        action = WindowAction::Paint;
    } else if msg == WM_KEYDOWN || msg == WM_KEYUP || msg == WM_SYSKEYDOWN || msg == WM_SYSKEYUP {
        let down = (bits / 0x8000_0000) % 2 == 0;
        let ctrl = control_state < 0;
        let keys = translate_key(wparam, ctrl);
        let mut i: usize = 0;
        while i < keys.len()
            invariant
                i <= keys@.len(),
                events@ == key_events(keys@.subrange(0, i as int), down),
            decreases keys@.len() - i,
        {
            events.push(InputEvent::Key { key: keys[i], down: down });
            proof {
                assert(keys@.subrange(0, i + 1) == keys@.subrange(0, i as int).push(keys@[i as int]));
            }
            i = i + 1;
        }
        proof {
            assert(keys@.subrange(0, keys@.len() as int) == keys@);
        }
    } else if msg == WM_CHAR {
        if wparam >= 32 {
            let code = ((wparam as u64) % 0x1_0000_0000) as u32;
            match char_from_code(code) {
                Some(c) => events.push(InputEvent::Unicode { c: c }),
                None => {},
            }
        }
    } else if msg == WM_LBUTTONDOWN || msg == WM_RBUTTONDOWN || msg == WM_MBUTTONDOWN {
        let button = if msg == WM_LBUTTONDOWN {
            MouseButton::Left
        } else if msg == WM_RBUTTONDOWN {
            MouseButton::Right
        } else {
            MouseButton::Middle
        };
        events.push(InputEvent::Button { button: button, x: x, y: y, down: true });
        action = WindowAction::CaptureMouse;
    } else if msg == WM_LBUTTONUP || msg == WM_RBUTTONUP || msg == WM_MBUTTONUP {
        let button = if msg == WM_LBUTTONUP {
            MouseButton::Left
        } else if msg == WM_RBUTTONUP {
            MouseButton::Right
        } else {
            MouseButton::Middle
        };
        events.push(InputEvent::Button { button: button, x: x, y: y, down: false });
        action = WindowAction::ReleaseMouse;
    } else if msg == WM_MOUSEWHEEL {
        let word = (((wparam as u64) / 0x1_0000) % 0x1_0000) as i32;
        let wheel = if word >= 0x8000 {
            (word - 0x1_0000) as i16
        } else {
            word as i16
        };
        events.push(InputEvent::Scroll { wheel: wheel });
    } else if msg == WM_MOUSEMOVE {
        events.push(InputEvent::Motion { x: x, y: y });
    }
    let handled = msg == WM_PAINT || events.len() > 0;
    MessageOutcome { events: events, action: action, handled: handled }
}

} // verus!
