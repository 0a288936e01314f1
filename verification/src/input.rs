//! Keyboard events and their translation into the byte sequences that a
//! terminal program expects on its input.

use vstd::prelude::*;

verus! {

/// The key of a keyboard event.
#[derive(Clone, Copy, Debug, PartialEq, Eq, Structural)]
pub enum KeyCode {
    Backspace,
    Enter,
    Left,
    Right,
    Up,
    Down,
    Home,
    End,
    PageUp,
    PageDown,
    Tab,
    BackTab,
    Delete,
    Insert,
    /// A function key, `F(1)` for F1.
    F(u8),
    /// A character key.
    Char(char),
    Null,
    Esc,
    CapsLock,
    ScrollLock,
    NumLock,
    PrintScreen,
    Pause,
    Menu,
    KeypadBegin,
    /// Any key that has no variant of its own.
    Other,
}

/// The modifier keys held during a keyboard event, one bit each.
#[derive(Clone, Copy, Debug, PartialEq, Eq, Structural)]
pub struct KeyModifiers {
    pub bits: u8,
}

/// The bit of the Shift key.
pub const SHIFT_BIT: u8 = 0x01;

/// The bit of the Control key.
pub const CONTROL_BIT: u8 = 0x02;

/// The bit of the Alt key.
pub const ALT_BIT: u8 = 0x04;

impl KeyModifiers {
    /// No modifier at all.
    pub fn none() -> (m: KeyModifiers)
        ensures
            m.bits == 0,
    {
        KeyModifiers { bits: 0 }
    }

    /// Shift alone.
    pub fn shift() -> (m: KeyModifiers)
        ensures
            m.bits == SHIFT_BIT,
    {
        KeyModifiers { bits: SHIFT_BIT }
    }

    /// Control alone.
    pub fn control() -> (m: KeyModifiers)
        ensures
            m.bits == CONTROL_BIT,
    {
        KeyModifiers { bits: CONTROL_BIT }
    }

    /// Alt alone.
    pub fn alt() -> (m: KeyModifiers)
        ensures
            m.bits == ALT_BIT,
    {
        KeyModifiers { bits: ALT_BIT }
    }

    /// The modifiers whose bits are `bits`.
    pub fn from_bits(bits: u8) -> (m: KeyModifiers)
        ensures
            m.bits == bits,
    {
        KeyModifiers { bits }
    }

    /// Whether every modifier of `other` is among these.
    pub open spec fn spec_contains(self, other: KeyModifiers) -> bool {
        self.bits & other.bits == other.bits
    }

    /// Whether every modifier of `other` is among these.
    #[verifier::when_used_as_spec(spec_contains)]
    pub fn contains(self, other: KeyModifiers) -> (b: bool)
        ensures
            b == self.spec_contains(other),
    {
        self.bits & other.bits == other.bits
    }

    /// Whether Control is held, alone or with others.
    pub open spec fn has_control(self) -> bool {
        self.bits & CONTROL_BIT == CONTROL_BIT
    }

    /// Whether Control is held and nothing else.
    pub open spec fn is_control_only(self) -> bool {
        self.bits == CONTROL_BIT
    }
}

/// A key press: the key and the modifiers held with it.
#[derive(Clone, Copy, Debug, PartialEq, Eq, Structural)]
pub struct KeyEvent {
    pub code: KeyCode,
    pub modifiers: KeyModifiers,
}

impl KeyEvent {
    /// The press of the key `code` with `modifiers` held.
    pub fn new(code: KeyCode, modifiers: KeyModifiers) -> (k: KeyEvent)
        ensures
            k.code == code,
            k.modifiers == modifiers,
    {
        KeyEvent { code, modifiers }
    }
}

/// What the input device delivered within one polling interval.
#[derive(Clone, Copy, Debug, PartialEq, Eq, Structural)]
pub enum InputEvent {
    /// A key was pressed.
    Key(KeyEvent),
    /// The window changed to the given width and height.
    Resize(u16, u16),
    /// Nothing arrived.
    Idle,
}

/// The escape byte that opens every multi-byte key sequence.
pub const ESC: u8 = 0x1B;

/// The bytes of function key `n`: SS3 `P`..`S` for F1 to F4, CSI `15~` to
/// `24~` for F5 to F12 (there is no 16 and no 22), nothing for any other.
pub open spec fn function_key_bytes(n: u8) -> Seq<u8> {
    if n == 1 {
        seq![ESC, 0x4Fu8, 0x50u8]
    } else if n == 2 {
        seq![ESC, 0x4Fu8, 0x51u8]
    } else if n == 3 {
        seq![ESC, 0x4Fu8, 0x52u8]
    } else if n == 4 {
        seq![ESC, 0x4Fu8, 0x53u8]
    } else if n == 5 {
        seq![ESC, 0x5Bu8, 0x31u8, 0x35u8, 0x7Eu8]
    } else if n == 6 {
        seq![ESC, 0x5Bu8, 0x31u8, 0x37u8, 0x7Eu8]
    } else if n == 7 {
        seq![ESC, 0x5Bu8, 0x31u8, 0x38u8, 0x7Eu8]
    } else if n == 8 {
        seq![ESC, 0x5Bu8, 0x31u8, 0x39u8, 0x7Eu8]
    } else if n == 9 {
        seq![ESC, 0x5Bu8, 0x32u8, 0x30u8, 0x7Eu8]
    } else if n == 10 {
        seq![ESC, 0x5Bu8, 0x32u8, 0x31u8, 0x7Eu8]
    } else if n == 11 {
        seq![ESC, 0x5Bu8, 0x32u8, 0x33u8, 0x7Eu8]
    } else if n == 12 {
        seq![ESC, 0x5Bu8, 0x32u8, 0x34u8, 0x7Eu8]
    } else {
        Seq::<u8>::empty()
    }
}

/// Whether `c` is one of the 52 ASCII letters.
pub open spec fn is_ascii_letter(c: char) -> bool {
    ('a' <= c && c <= 'z') || ('A' <= c && c <= 'Z')
}

/// The control byte of an ASCII letter: 1 for `a` and `A`, up to 26 for `z`
/// and `Z`.
pub open spec fn control_byte(c: char) -> u8
    recommends
        is_ascii_letter(c),
{
    if 'a' <= c && c <= 'z' {
        (c as int - 'a' as int + 1) as u8
    } else {
        (c as int - 'A' as int + 1) as u8
    }
}

/// The low eight bits of the code point of `c`: for an ASCII character, its
/// byte.
pub open spec fn char_byte(c: char) -> u8 {
    (c as int % 256) as u8
}

/// The bytes sent for a character key. With Control held, a letter gives
/// its control byte and any other character is ignored; without Control the
/// character gives its byte.
pub open spec fn char_key_bytes(c: char, modifiers: KeyModifiers) -> Seq<u8> {
    if modifiers.has_control() {
        if is_ascii_letter(c) {
            seq![control_byte(c)]
        } else {
            Seq::<u8>::empty()
        }
    } else {
        seq![char_byte(c)]
    }
}

/// The translation table: the bytes that a terminal program expects for a
/// key press. A key outside the table gives the empty sequence.
pub open spec fn key_bytes(key: KeyEvent) -> Seq<u8> {
    match key.code {
        KeyCode::Char(c) => char_key_bytes(c, key.modifiers),
        KeyCode::Enter => seq![0x0Du8],
        KeyCode::Tab => seq![0x09u8],
        KeyCode::Backspace => seq![0x7Fu8],
        KeyCode::Esc => seq![ESC],
        KeyCode::Up => seq![ESC, 0x5Bu8, 0x41u8],
        KeyCode::Down => seq![ESC, 0x5Bu8, 0x42u8],
        KeyCode::Right => seq![ESC, 0x5Bu8, 0x43u8],
        KeyCode::Left => seq![ESC, 0x5Bu8, 0x44u8],
        KeyCode::Home => seq![ESC, 0x5Bu8, 0x48u8],
        KeyCode::End => seq![ESC, 0x5Bu8, 0x46u8],
        KeyCode::PageUp => seq![ESC, 0x5Bu8, 0x35u8, 0x7Eu8],
        KeyCode::PageDown => seq![ESC, 0x5Bu8, 0x36u8, 0x7Eu8],
        KeyCode::Delete => seq![ESC, 0x5Bu8, 0x33u8, 0x7Eu8],
        KeyCode::Insert => seq![ESC, 0x5Bu8, 0x32u8, 0x7Eu8],
        KeyCode::F(n) => function_key_bytes(n),
        _ => Seq::<u8>::empty(),
    }
}

/// The lowercase form of an ASCII letter; any other character is left as
/// it is.
pub open spec fn ascii_lowercase(c: char) -> char {
    if 'A' <= c && c <= 'Z' {
        (c as int + 32) as char
    } else {
        c
    }
}

/// Control with a letter sends one byte: the place of the letter in the
/// alphabet, which is the ASCII value of its lowercase form less that of
/// `a`, plus one. Whether the letter is typed in upper or lower case, and
/// which other modifiers are held, makes no difference.
pub proof fn lemma_control_letter(c: char, modifiers: KeyModifiers)
    requires
        is_ascii_letter(c),
        modifiers.has_control(),
    ensures
        key_bytes(KeyEvent { code: KeyCode::Char(c), modifiers }) == seq![
            (ascii_lowercase(c) as int - 'a' as int + 1) as u8,
        ],
        1 <= ascii_lowercase(c) as int - 'a' as int + 1 <= 26,
        key_bytes(KeyEvent { code: KeyCode::Char(c), modifiers }) == key_bytes(
            KeyEvent { code: KeyCode::Char(ascii_lowercase(c)), modifiers },
        ),
{
}

/// A key that the table does not list sends nothing: a function key
/// beyond F12, a character that is no letter with Control, and every key
/// that is neither a character nor one of the named keys.
pub proof fn lemma_unlisted_keys_send_nothing(key: KeyEvent)
    requires
        match key.code {
            KeyCode::F(n) => n == 0 || n > 12,
            KeyCode::Char(c) => key.modifiers.has_control() && !is_ascii_letter(c),
            KeyCode::BackTab
            | KeyCode::Null
            | KeyCode::CapsLock
            | KeyCode::ScrollLock
            | KeyCode::NumLock
            | KeyCode::PrintScreen
            | KeyCode::Pause
            | KeyCode::Menu
            | KeyCode::KeypadBegin
            | KeyCode::Other => true,
            _ => false,
        },
    ensures
        key_bytes(key).len() == 0,
{
}

/// Keeps the last key that was pressed and translates key presses.
#[derive(Clone, Copy, Debug)]
pub struct InputHandler {
    last_key: Option<KeyEvent>,
}

impl InputHandler {
    /// The last key press that `poll_event` has seen, if any.
    pub closed spec fn last_key(&self) -> Option<KeyEvent> {
        self.last_key
    }

    /// A handler that has seen no key yet.
    pub fn new() -> (h: InputHandler)
        ensures
            h.last_key() is None,
    {
        InputHandler { last_key: None }
    }

    /// Takes what the input device delivered within the polling interval,
    /// `None` when the interval ran out, and returns the event to handle.
    /// A key press is remembered as the last key.
    pub fn poll_event(&mut self, delivered: Option<InputEvent>) -> (event: InputEvent)
        ensures
            event == match delivered {
                Some(e) => e,
                None => InputEvent::Idle,
            },
            final(self).last_key() == match delivered {
                Some(InputEvent::Key(k)) => Some(k),
                _ => old(self).last_key(),
            },
    {
        match delivered {
            Some(InputEvent::Key(k)) => {
                self.last_key = Some(k);
                InputEvent::Key(k)
            },
            Some(e) => e,
            None => InputEvent::Idle,
        }
    }

    /// Whether the last key press was the key `code`.
    pub fn is_key_pressed(&self, code: KeyCode) -> (b: bool)
        ensures
            b == (self.last_key() matches Some(k) && k.code == code),
    {
        match self.last_key {
            Some(k) => k.code == code,
            None => false,
        }
    }

    /// Whether the last key press was the key `code` with exactly the
    /// modifiers `modifiers`.
    pub fn is_key_with_modifier(&self, code: KeyCode, modifiers: KeyModifiers) -> (b: bool)
        ensures
            b == (self.last_key() matches Some(k) && k.code == code && k.modifiers == modifiers),
    {
        match self.last_key {
            Some(k) => k.code == code && k.modifiers == modifiers,
            None => false,
        }
    }

    /// Translates a key press into the bytes to write to the child.
    pub fn process_key_input(&self, key: KeyEvent) -> (bytes: Vec<u8>)
        ensures
            bytes@ == key_bytes(key),
    {
        translate_key(key)
    }
}

/// The bytes of function key `n`.
fn function_key(n: u8) -> (bytes: Vec<u8>)
    ensures
        bytes@ == function_key_bytes(n),
{
    let bytes = if n == 1 {
        vec![ESC, 0x4Fu8, 0x50u8]
    } else if n == 2 {
        vec![ESC, 0x4Fu8, 0x51u8]
    } else if n == 3 {
        vec![ESC, 0x4Fu8, 0x52u8]
    } else if n == 4 {
        vec![ESC, 0x4Fu8, 0x53u8]
    } else if n == 5 {
        vec![ESC, 0x5Bu8, 0x31u8, 0x35u8, 0x7Eu8]
    } else if n == 6 {
        vec![ESC, 0x5Bu8, 0x31u8, 0x37u8, 0x7Eu8]
    } else if n == 7 {
        vec![ESC, 0x5Bu8, 0x31u8, 0x38u8, 0x7Eu8]
    } else if n == 8 {
        vec![ESC, 0x5Bu8, 0x31u8, 0x39u8, 0x7Eu8]
    } else if n == 9 {
        vec![ESC, 0x5Bu8, 0x32u8, 0x30u8, 0x7Eu8]
    } else if n == 10 {
        vec![ESC, 0x5Bu8, 0x32u8, 0x31u8, 0x7Eu8]
    } else if n == 11 {
        vec![ESC, 0x5Bu8, 0x32u8, 0x33u8, 0x7Eu8]
    } else if n == 12 {
        vec![ESC, 0x5Bu8, 0x32u8, 0x34u8, 0x7Eu8]
    } else {
        Vec::new()
    };
    bytes
}

/// The bytes of a character key.
fn char_key(c: char, modifiers: KeyModifiers) -> (bytes: Vec<u8>)
    ensures
        bytes@ == char_key_bytes(c, modifiers),
{
    let code: u32 = c as u32;
    if modifiers.bits & CONTROL_BIT == CONTROL_BIT {
        if 'a' <= c && c <= 'z' {
            let b: u8 = (code - 0x61 + 1) as u8;
            vec![b]
        } else if 'A' <= c && c <= 'Z' {
            let b: u8 = (code - 0x41 + 1) as u8;
            vec![b]
        } else {
            Vec::new()
        }
    } else {
        let b: u8 = (code % 256) as u8;
        vec![b]
    }
}

/// Translates a key press by the table `key_bytes`.
pub fn translate_key(key: KeyEvent) -> (bytes: Vec<u8>)
    ensures
        bytes@ == key_bytes(key),
{
    match key.code {
        KeyCode::Char(c) => char_key(c, key.modifiers),
        KeyCode::Enter => vec![0x0Du8],
        KeyCode::Tab => vec![0x09u8],
        KeyCode::Backspace => vec![0x7Fu8],
        KeyCode::Esc => vec![ESC],
        KeyCode::Up => vec![ESC, 0x5Bu8, 0x41u8],
        KeyCode::Down => vec![ESC, 0x5Bu8, 0x42u8],
        KeyCode::Right => vec![ESC, 0x5Bu8, 0x43u8],
        KeyCode::Left => vec![ESC, 0x5Bu8, 0x44u8],
        KeyCode::Home => vec![ESC, 0x5Bu8, 0x48u8],
        KeyCode::End => vec![ESC, 0x5Bu8, 0x46u8],
        KeyCode::PageUp => vec![ESC, 0x5Bu8, 0x35u8, 0x7Eu8],
        KeyCode::PageDown => vec![ESC, 0x5Bu8, 0x36u8, 0x7Eu8],
        KeyCode::Delete => vec![ESC, 0x5Bu8, 0x33u8, 0x7Eu8],
        KeyCode::Insert => vec![ESC, 0x5Bu8, 0x32u8, 0x7Eu8],
        KeyCode::F(n) => function_key(n),
        _ => Vec::new(),
    }
}

} // verus!
