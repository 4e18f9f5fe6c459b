//! The input events that windows receive, and how raw keyboard and pointer
//! data resolve to them.

use vstd::prelude::*;
use crate::geometry::{ScrollDelta, SurfacePoint};

verus! {

/// Offset between an evdev scancode and the keycode the keymap knows it by.
pub const MIN_KEYCODE: u32 = 8;

/// Button code of the left mouse button.
pub const BTN_LEFT: u32 = 0x110;

/// Button code of the right mouse button.
pub const BTN_RIGHT: u32 = 0x111;

/// Button code of the middle mouse button.
pub const BTN_MIDDLE: u32 = 0x112;

/// The modifier keys in effect.
#[derive(Clone, Copy, Debug, PartialEq, Eq, Structural)]
pub struct Modifiers {
    pub control: bool,
    pub alt: bool,
    pub shift: bool,
    pub command: bool,
}

/// The modifier and layout masks a keyboard's state was last updated with.
#[derive(Clone, Copy, Debug, PartialEq, Eq, Structural)]
pub struct ModifierMasks {
    pub depressed: u32,
    pub latched: u32,
    pub locked: u32,
    pub group: u32,
}

/// A mouse button.
#[derive(Clone, Copy, Debug, PartialEq, Eq, Structural)]
pub enum MouseButton {
    Left,
    Right,
    Middle,
}

/// The phase of a scroll gesture.
#[derive(Clone, Copy, Debug, PartialEq, Eq, Structural)]
pub enum TouchPhase {
    Started,
    Moved,
    Ended,
}

/// A key with the modifiers held and the text it would type.
#[derive(Clone, Debug, PartialEq, Eq)]
pub struct Keystroke {
    pub modifiers: Modifiers,
    /// Lower-case symbolic name of the key.
    pub key: String,
    /// Text for the input method, absent for control characters.
    pub ime_key: Option<String>,
}

/// A [`Keystroke`] with its strings as sequences of characters.
pub struct KeystrokeView {
    pub modifiers: Modifiers,
    pub key: Seq<char>,
    pub ime_key: Option<Seq<char>>,
}

/// An input event as a window's input callback receives it.
#[derive(Clone, Debug, PartialEq, Eq)]
pub enum PlatformInput {
    KeyDown { keystroke: Keystroke, is_held: bool },
    KeyUp { keystroke: Keystroke },
    MouseDown { button: MouseButton, position: SurfacePoint, modifiers: Modifiers, click_count: usize },
    MouseUp { button: MouseButton, position: SurfacePoint, modifiers: Modifiers, click_count: usize },
    MouseMove { position: SurfacePoint, pressed_button: Option<MouseButton>, modifiers: Modifiers },
    ScrollWheel { position: SurfacePoint, delta: ScrollDelta, modifiers: Modifiers, touch_phase: TouchPhase },
}

/// A [`PlatformInput`] with its strings as sequences of characters.
pub enum InputView {
    KeyDown { keystroke: KeystrokeView, is_held: bool },
    KeyUp { keystroke: KeystrokeView },
    MouseDown { button: MouseButton, position: SurfacePoint, modifiers: Modifiers, click_count: usize },
    MouseUp { button: MouseButton, position: SurfacePoint, modifiers: Modifiers, click_count: usize },
    MouseMove { position: SurfacePoint, pressed_button: Option<MouseButton>, modifiers: Modifiers },
    ScrollWheel { position: SurfacePoint, delta: ScrollDelta, modifiers: Modifiers, touch_phase: TouchPhase },
}

/// The characters of an optional string.
pub open spec fn text_view(text: Option<String>) -> Option<Seq<char>> {
    match text {
        Some(s) => Some(s@),
        None => None,
    }
}

impl View for Keystroke {
    type V = KeystrokeView;

    open spec fn view(&self) -> KeystrokeView {
        KeystrokeView { modifiers: self.modifiers, key: self.key@, ime_key: text_view(self.ime_key) }
    }
}

impl View for PlatformInput {
    type V = InputView;

    open spec fn view(&self) -> InputView {
        match *self {
            PlatformInput::KeyDown { keystroke, is_held } => InputView::KeyDown {
                keystroke: keystroke@,
                is_held,
            },
            PlatformInput::KeyUp { keystroke } => InputView::KeyUp { keystroke: keystroke@ },
            PlatformInput::MouseDown { button, position, modifiers, click_count } => InputView::MouseDown {
                button,
                position,
                modifiers,
                click_count,
            },
            PlatformInput::MouseUp { button, position, modifiers, click_count } => InputView::MouseUp {
                button,
                position,
                modifiers,
                click_count,
            },
            PlatformInput::MouseMove { position, pressed_button, modifiers } => InputView::MouseMove {
                position,
                pressed_button,
                modifiers,
            },
            PlatformInput::ScrollWheel { position, delta, modifiers, touch_phase } => InputView::ScrollWheel {
                position,
                delta,
                modifiers,
                touch_phase,
            },
        }
    }
}

/// No modifier held.
pub open spec fn no_modifiers() -> Modifiers {
    Modifiers { control: false, alt: false, shift: false, command: false }
}

/// The masks of a keyboard that has had no modifier update.
pub open spec fn no_masks() -> ModifierMasks {
    ModifierMasks { depressed: 0, latched: 0, locked: 0, group: 0 }
}

impl ModifierMasks {
    /// The masks of a keyboard that has had no modifier update.
    pub fn none() -> (m: ModifierMasks)
        ensures
            m == no_masks(),
    {
        ModifierMasks { depressed: 0, latched: 0, locked: 0, group: 0 }
    }
}

impl Modifiers {
    /// No modifier held.
    pub fn none() -> (m: Modifiers)
        ensures
            m == no_modifiers(),
    {
        Modifiers { control: false, alt: false, shift: false, command: false }
    }
}

/// Whether a button code names one of the three buttons this backend knows.
pub open spec fn is_known_button(button: u32) -> bool {
    button == BTN_LEFT || button == BTN_RIGHT || button == BTN_MIDDLE
}

/// The button a known button code names.
pub open spec fn button_of(button: u32) -> MouseButton {
    if button == BTN_LEFT {
        MouseButton::Left
    } else if button == BTN_RIGHT {
        MouseButton::Right
    } else {
        MouseButton::Middle
    }
}

/// Tells whether `linux_button_to_gpui` accepts the code.
pub fn known_button(button: u32) -> (known: bool)
    ensures
        known == is_known_button(button),
{
    button == BTN_LEFT || button == BTN_RIGHT || button == BTN_MIDDLE
}

/// Maps an evdev button code to the button it names.
pub fn linux_button_to_gpui(button: u32) -> (b: MouseButton)
    requires
        is_known_button(button),
    ensures
        b == button_of(button),
{
    if button == BTN_LEFT {
        MouseButton::Left
    } else if button == BTN_RIGHT {
        MouseButton::Right
    } else {
        MouseButton::Middle
    }
}

/// The keycode of an evdev scancode, where one exists.
pub open spec fn keycode_of(scancode: u32) -> Option<u32> {
    if scancode + MIN_KEYCODE <= u32::MAX {
        Some((scancode + MIN_KEYCODE) as u32)
    } else {
        None
    }
}

/// Converts an evdev scancode to the keycode under which the keymap is
/// asked for the key's symbol and text. The topmost scancodes have none.
pub fn keycode_from_scancode(scancode: u32) -> (keycode: Option<u32>)
    ensures
        keycode == keycode_of(scancode),
{
    scancode.checked_add(MIN_KEYCODE)
}

/// Whether a key whose code point is `utf32` carries text for the input
/// method: control characters and DEL carry none; code point 0, a key
/// without text, is not counted among the control characters.
pub open spec fn carries_ime_text(utf32: u32) -> bool {
    utf32 == 0 || (utf32 >= 32 && utf32 != 127)
}

/// The lower-case form of a string, as `str::to_lowercase` computes it.
pub uninterp spec fn lowercase_of(s: Seq<char>) -> Seq<char>;

/// `str::to_lowercase`: the result is the lower-case equivalent of the
/// argument, which depends on the argument's characters alone.
#[verifier::external_body]
fn to_lowercase(s: &str) -> (lower: String)
    ensures
        lower@ == lowercase_of(s@),
{
    s.to_lowercase()
}

impl Keystroke {
    /// Builds a keystroke from a key's lower-case name, its code point and
    /// its text.
    pub fn from_parts(modifiers: Modifiers, key: String, utf32: u32, utf8: String) -> (k: Keystroke)
        ensures
            k.modifiers == modifiers,
            k.key == key,
            k.ime_key == (if carries_ime_text(utf32) {
                Some(utf8)
            } else {
                None
            }),
    {
        let ime_key = if utf32 == 0 || (utf32 >= 32 && utf32 != 127) {
            Some(utf8)
        } else {
            None
        };
        Keystroke { modifiers, key, ime_key }
    }

    /// Resolves what the keymap says of a key (the name of its symbol, its
    /// code point and its text) to a keystroke: the name in lower case, the
    /// text only where the key carries text for the input method.
    pub fn resolve(modifiers: Modifiers, sym_name: &str, utf32: u32, utf8: String) -> (k: Keystroke)
        ensures
            k@ == resolved_keystroke(modifiers, sym_name@, utf32, utf8@),
    {
        Keystroke::from_parts(modifiers, to_lowercase(sym_name), utf32, utf8)
    }
}

/// What `Keystroke::resolve` returns.
pub open spec fn resolved_keystroke(
    modifiers: Modifiers,
    sym_name: Seq<char>,
    utf32: u32,
    utf8: Seq<char>,
) -> KeystrokeView {
    KeystrokeView {
        modifiers,
        key: lowercase_of(sym_name),
        ime_key: if carries_ime_text(utf32) {
            Some(utf8)
        } else {
            None
        },
    }
}

} // verus!
