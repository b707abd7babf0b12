//! Keyboard, mouse and wheel events as X-Plane reports them to a window.
use crate::geometry::{Point2D, ScreenPoint};
use vstd::prelude::*;

verus! {

/// The keys that egui knows, as egui declares them.
#[verifier::external_type_specification]
#[verifier::external_body]
pub struct ExEguiKey(egui::Key);

/// The key that `egui::Key::from_name` finds for a name, if any.
pub uninterp spec fn egui_key_from_name(name: Seq<char>) -> Option<egui::Key>;

/// Calls `egui::Key::from_name`, egui's table from key names to keys.
/// Claimed: the result is the one that `egui_key_from_name` names for the characters of
/// `name`; the table itself is left unsaid.
#[verifier::external_body]
fn key_from_name(name: &str) -> (k: Option<egui::Key>)
    ensures
        k == egui_key_from_name(name@),
{
    egui::Key::from_name(name)
}

/// Builds `egui::Key::Enter`.
/// Claimed: it is the key that `egui::Key::from_name` finds for the name "Enter", as
/// egui's table lists it.
#[verifier::external_body]
fn enter_key() -> (k: egui::Key)
    ensures
        egui_key_from_name("Enter"@) == Some(k),
{
    egui::Key::Enter
}

/// `s` with every occurrence of the non-empty `from` replaced by `to`, matching from the
/// left and never inside a part already replaced.
pub open spec fn replace_all(s: Seq<char>, from: Seq<char>, to: Seq<char>) -> Seq<char>
    decreases s.len(),
{
    if from.len() == 0 || s.len() < from.len() {
        s
    } else if s.subrange(0, from.len() as int) == from {
        to + replace_all(s.subrange(from.len() as int, s.len() as int), from, to)
    } else {
        seq![s[0]] + replace_all(s.drop_first(), from, to)
    }
}

/// Calls std's `str::replace`.
/// Claimed: as its documentation says, the result is `s` with all matches of `from`
/// replaced by `to`, taken from the left without overlapping.
#[verifier::external_body]
fn str_replace(s: &str, from: &str, to: &str) -> (r: String)
    requires
        from@.len() > 0,
    ensures
        r@ == replace_all(s@, from@, to@),
{
    s.replace(from, to)
}

/// The modifier and direction flags of a key event.
#[derive(Debug, Clone, Copy, PartialEq, Eq, Hash, Structural)]
pub struct KeyFlags {
    pub bits: u32,
}

/// All flags X-Plane defines: shift, option/alt, control, down and up.
pub const KEY_FLAGS_ALL: u32 = 31;

impl KeyFlags {
    /// The bit of this flag.
    pub const SHIFT: u32 = 1;

    /// The bit of this flag.
    pub const OPTION_ALT: u32 = 2;

    /// The bit of this flag.
    pub const CONTROL: u32 = 4;

    /// The bit of this flag.
    pub const DOWN: u32 = 8;

    /// The bit of this flag.
    pub const UP: u32 = 16;

    /// The flags of `bits`, with every bit that X-Plane does not define dropped.
    pub fn from_bits_truncate(bits: u32) -> (f: KeyFlags)
        ensures
            f.bits == bits & KEY_FLAGS_ALL,
    {
        KeyFlags { bits: bits & KEY_FLAGS_ALL }
    }

    pub fn bits(&self) -> (b: u32)
        ensures
            b == self.bits,
    {
        self.bits
    }

    /// Whether every flag of `other` is set in `self`.
    pub fn contains(&self, other: KeyFlags) -> (b: bool)
        ensures
            b == (self.bits & other.bits == other.bits),
    {
        self.bits & other.bits == other.bits
    }

    pub fn shift(self) -> (b: bool)
        ensures
            b == (self.bits & 1 == 1),
    {
        self.bits & Self::SHIFT == Self::SHIFT
    }

    pub fn option_alt(self) -> (b: bool)
        ensures
            b == (self.bits & 2 == 2),
    {
        self.bits & Self::OPTION_ALT == Self::OPTION_ALT
    }

    pub fn control(self) -> (b: bool)
        ensures
            b == (self.bits & 4 == 4),
    {
        self.bits & Self::CONTROL == Self::CONTROL
    }

    pub fn down(self) -> (b: bool)
        ensures
            b == (self.bits & 8 == 8),
    {
        self.bits & Self::DOWN == Self::DOWN
    }

    pub fn up(self) -> (b: bool)
        ensures
            b == (self.bits & 16 == 16),
    {
        self.bits & Self::UP == Self::UP
    }
}

/// Truncating to X-Plane's flags keeps exactly the flags that were set: each of them reads
/// the same before and after, and nothing outside them survives.
pub proof fn lemma_truncate_keeps_flags(bits: u32)
    ensures
        (bits & KEY_FLAGS_ALL) & 1 == bits & 1,
        (bits & KEY_FLAGS_ALL) & 2 == bits & 2,
        (bits & KEY_FLAGS_ALL) & 4 == bits & 4,
        (bits & KEY_FLAGS_ALL) & 8 == bits & 8,
        (bits & KEY_FLAGS_ALL) & 16 == bits & 16,
        (bits & KEY_FLAGS_ALL) <= KEY_FLAGS_ALL,
        (bits & KEY_FLAGS_ALL) & KEY_FLAGS_ALL == bits & KEY_FLAGS_ALL,
{
    assert((bits & 31) & 1 == bits & 1) by (bit_vector);
    assert((bits & 31) & 2 == bits & 2) by (bit_vector);
    assert((bits & 31) & 4 == bits & 4) by (bit_vector);
    assert((bits & 31) & 8 == bits & 8) by (bit_vector);
    assert((bits & 31) & 16 == bits & 16) by (bit_vector);
    assert((bits & 31) <= 31) by (bit_vector);
    assert((bits & 31) & 31 == bits & 31) by (bit_vector);
}

/// An event associated with a key press.
#[derive(Debug)]
pub struct KeyEvent {
    /// Text
    pub basic_char: Option<char>,
    /// Key
    pub key: Option<egui::Key>,
    /// Flags
    pub flags: KeyFlags,
}

/// The virtual keys whose key code does not stand for the character it would spell in ASCII.
pub open spec fn ascii_is_wrong(vkey: u8) -> bool {
    vkey == 13 || vkey == 9 || vkey == 8 || (28 <= vkey <= 31) || vkey == 46 || (0x08 <= vkey
        <= 0x0D) || vkey == 0x1B || (0x20 <= vkey <= 0x2F) || (0x70 <= vkey <= 0x87)
}

/// The ASCII characters that have a visible glyph: everything from `!` to `~`.
pub open spec fn is_ascii_graphic(c: u8) -> bool {
    0x21 <= c <= 0x7E
}

/// X-Plane's virtual key code of the numeric keypad's enter key.
pub const VK_NUMPAD_ENTER: u8 = 188;

/// The key event for the character byte `key`, the XPLM flags `flags` and the virtual key
/// `vkey`, where `named_key` is the key that egui finds for the description of `vkey`:
/// - the keypad enter key is always egui's enter key, with no text;
/// - a visible ASCII character whose virtual key spells it correctly carries that character
///   as text, together with `named_key`;
/// - anything else carries `named_key` alone.
pub open spec fn key_event_matches(
    e: KeyEvent,
    key: i8,
    flags: i32,
    vkey: i8,
    named_key: Option<egui::Key>,
) -> bool {
    &&& e.flags.bits == (flags as u32) & KEY_FLAGS_ALL
    &&& if vkey as u8 == VK_NUMPAD_ENTER {
        e.basic_char == None::<char> && e.key is Some && e.key == egui_key_from_name("Enter"@)
    } else if !ascii_is_wrong(vkey as u8) && is_ascii_graphic(key as u8) {
        e.basic_char == Some((key as u8) as char) && e.key == named_key
    } else {
        e.basic_char == None::<char> && e.key == named_key
    }
}

impl KeyEvent {
    /// Decodes an XPLM key callback once the key that egui finds for the virtual key's
    /// description is known (see `key_event_matches`).
    pub fn decode(key: i8, flags: i32, vkey: i8, named_key: Option<egui::Key>) -> (e: KeyEvent)
        ensures
            key_event_matches(e, key, flags, vkey, named_key),
    {
        let key = key as u8;
        let vkey = vkey as u8;
        let flags = KeyFlags::from_bits_truncate(flags as u32);
        let ascii_is_wrong = vkey == 13 || vkey == 9 || vkey == 8 || (28 <= vkey && vkey <= 31)
            || vkey == 46 || (0x08 <= vkey && vkey <= 0x0D) || vkey == 0x1B || (0x20 <= vkey
            && vkey <= 0x2F) || (0x70 <= vkey && vkey <= 0x87);
        if vkey == VK_NUMPAD_ENTER {
            KeyEvent { basic_char: None, key: Some(enter_key()), flags }
        } else if !ascii_is_wrong && 0x21 <= key && key <= 0x7E {
            KeyEvent { basic_char: Some(key as char), key: named_key, flags }
        } else {
            KeyEvent { basic_char: None, key: named_key, flags }
        }
    }

    /// Creates a key event from what an XPLM key callback reports: the character byte `key`,
    /// the flags and the virtual key `vkey`, with `description`, X-Plane's description of the
    /// virtual key when it has one that is valid UTF-8.
    ///
    /// Without a description the event carries no text and no key. Otherwise the description,
    /// with "Numpad-" written as "Numpad", is looked up in egui's key names and the event is
    /// decoded as `decode` says.
    pub fn from_xplm(key: i8, flags: i32, vkey: i8, description: Option<&str>) -> (e: KeyEvent)
        ensures
            description is None ==> e.basic_char == None::<char> && e.key == None::<egui::Key>
                && e.flags.bits == (flags as u32) & KEY_FLAGS_ALL,
            description matches Some(d) ==> key_event_matches(
                e,
                key,
                flags,
                vkey,
                egui_key_from_name(replace_all(d@, "Numpad-"@, "Numpad"@)),
            ),
    {
        match description {
            None => KeyEvent {
                basic_char: None,
                key: None,
                flags: KeyFlags::from_bits_truncate(flags as u32),
            },
            Some(d) => {
                proof {
                    reveal_strlit("Numpad-");
                }
                let desc = str_replace(d, "Numpad-", "Numpad");
                let named_key = key_from_name(desc.as_str());
                KeyEvent::decode(key, flags, vkey, named_key)
            },
        }
    }
}

/// A character that a key event carries as text is always a visible ASCII character.
pub proof fn lemma_key_text_is_visible_ascii(
    e: KeyEvent,
    key: i8,
    flags: i32,
    vkey: i8,
    named_key: Option<egui::Key>,
)
    requires
        key_event_matches(e, key, flags, vkey, named_key),
    ensures
        e.basic_char matches Some(c) ==> 0x21 <= c as u32 <= 0x7E && c == (key as u8) as char,
        e.basic_char is Some ==> vkey as u8 != VK_NUMPAD_ENTER && !ascii_is_wrong(vkey as u8),
{
}

/// A visible ASCII character (`!` to `~`) is typed as text whenever its virtual key spells
/// it: for every virtual key other than the keypad enter key and the keys whose code does
/// not stand for their character (8 to 13, 27, 28 to 31, 0x20 to 0x2F and 0x70 to 0x87),
/// the event carries the character byte as text.
pub proof fn lemma_visible_ascii_is_typed(
    e: KeyEvent,
    key: i8,
    flags: i32,
    vkey: i8,
    named_key: Option<egui::Key>,
)
    requires
        key_event_matches(e, key, flags, vkey, named_key),
        0x21 <= key as u8 <= 0x7E,
        vkey as u8 != 188,
        !(8 <= vkey as u8 <= 13),
        vkey as u8 != 27,
        !(28 <= vkey as u8 <= 31),
        !(0x20 <= vkey as u8 <= 0x2F),
        !(0x70 <= vkey as u8 <= 0x87),
    ensures
        e.basic_char == Some((key as u8) as char),
        e.key == named_key,
{
}

/// The keys whose character byte is not the character they stand for never type text,
/// whatever byte X-Plane reports with them: the navigation and editing keys with virtual
/// keys 0x20 to 0x2F (space, page up and down, end, home, the arrows, select, print,
/// execute, snapshot, insert, delete, help), the control keys 8 to 13 and 27, the keys 28
/// to 31, the function keys 0x70 to 0x87, and the keypad enter key.
pub proof fn lemma_navigation_keys_type_nothing(
    e: KeyEvent,
    key: i8,
    flags: i32,
    vkey: i8,
    named_key: Option<egui::Key>,
)
    requires
        key_event_matches(e, key, flags, vkey, named_key),
        (0x20 <= vkey as u8 <= 0x2F) || (8 <= vkey as u8 <= 13) || vkey as u8 == 27 || (28
            <= vkey as u8 <= 31) || (0x70 <= vkey as u8 <= 0x87) || vkey as u8 == 188,
    ensures
        e.basic_char is None,
        vkey as u8 != 188 ==> e.key == named_key,
{
}

/// Only visible ASCII characters are ever typed: a character byte outside `!` to `~` never
/// becomes text.
pub proof fn lemma_invisible_bytes_type_nothing(
    e: KeyEvent,
    key: i8,
    flags: i32,
    vkey: i8,
    named_key: Option<egui::Key>,
)
    requires
        key_event_matches(e, key, flags, vkey, named_key),
        !(0x21 <= key as u8 <= 0x7E),
    ensures
        e.basic_char is None,
{
}

/// Actions that the mouse/cursor can perform.
#[derive(Debug, Clone, Copy, PartialEq, Eq, Structural)]
pub enum MouseAction {
    /// The user pressed the mouse button down
    Down,
    /// The user moved the mouse with the mouse button down
    Drag,
    /// The user released the mouse button
    Up,
}

/// The `XPLMMouseStatus` codes: down, drag and up.
pub open spec fn mouse_action_from_status(status: i32) -> Option<MouseAction> {
    if status == 1 {
        Some(MouseAction::Down)
    } else if status == 2 {
        Some(MouseAction::Drag)
    } else if status == 3 {
        Some(MouseAction::Up)
    } else {
        None
    }
}

impl MouseAction {
    /// Decodes an `XPLMMouseStatus`; any code that X-Plane does not define decodes to `None`.
    pub fn from_xplm(status: i32) -> (a: Option<MouseAction>)
        ensures
            a == mouse_action_from_status(status),
    {
        if status == 1 {
            Some(MouseAction::Down)
        } else if status == 2 {
            Some(MouseAction::Drag)
        } else if status == 3 {
            Some(MouseAction::Up)
        } else {
            None
        }
    }
}

/// A mouse event.
#[derive(Debug, Clone, Copy, PartialEq, Eq)]
pub struct MouseEvent {
    /// The position of the mouse, in global window coordinates
    pub position: ScreenPoint,
    /// The action of the mouse
    pub action: MouseAction,
}

impl MouseEvent {
    /// Creates a new event.
    pub fn new(position: ScreenPoint, action: MouseAction) -> (e: Self)
        ensures
            e.position == position,
            e.action == action,
    {
        MouseEvent { position, action }
    }

    /// Returns the position of the mouse, in global coordinates relative to the X-Plane
    /// main window.
    pub fn position(&self) -> (p: ScreenPoint)
        ensures
            p == self.position,
    {
        self.position
    }

    /// Returns the action that the user performed with the mouse.
    pub fn action(&self) -> (a: MouseAction)
        ensures
            a == self.action,
    {
        self.action
    }

    /// The event that an XPLM mouse callback reports at `(x, y)` with `status`, or `None`
    /// when the status is not one that X-Plane defines.
    pub fn from_xplm(x: i32, y: i32, status: i32) -> (e: Option<MouseEvent>)
        ensures
            match mouse_action_from_status(status) {
                Some(a) => e == Some(
                    MouseEvent { position: Point2D { x, y, unit: core::marker::PhantomData }, action: a },
                ),
                None => e == None::<MouseEvent>,
            },
    {
        match MouseAction::from_xplm(status) {
            Some(action) => Some(MouseEvent::new(Point2D::new(x, y), action)),
            None => None,
        }
    }
}

/// A scroll event.
#[derive(Debug, Clone, Copy, PartialEq, Eq)]
pub struct ScrollEvent {
    /// The position of the mouse, in global window coordinates
    pub position: ScreenPoint,
    /// The amount of scroll in the X direction
    pub scroll_x: i32,
    /// The amount of scroll in the Y direction
    pub scroll_y: i32,
}

impl ScrollEvent {
    /// Creates a new event.
    pub fn new(position: ScreenPoint, scroll_x: i32, scroll_y: i32) -> (e: Self)
        ensures
            e.position == position,
            e.scroll_x == scroll_x,
            e.scroll_y == scroll_y,
    {
        ScrollEvent { position, scroll_x, scroll_y }
    }

    /// Returns the position of the mouse, in global coordinates relative to the X-Plane
    /// main window.
    pub fn position(&self) -> (p: ScreenPoint)
        ensures
            p == self.position,
    {
        self.position
    }

    /// Returns the amount of scroll in the X direction.
    pub fn scroll_x(&self) -> (v: i32)
        ensures
            v == self.scroll_x,
    {
        self.scroll_x
    }

    /// Returns the amount of scroll in the Y direction.
    pub fn scroll_y(&self) -> (v: i32)
        ensures
            v == self.scroll_y,
    {
        self.scroll_y
    }

    /// The event that an XPLM mouse-wheel callback reports at `(x, y)`: wheel 1 is the
    /// horizontal wheel, any other wheel scrolls vertically, by `clicks`.
    pub fn from_xplm(x: i32, y: i32, wheel: i32, clicks: i32) -> (e: ScrollEvent)
        ensures
            e.position == (Point2D::<crate::geometry::XPScreenSpace> {
                x,
                y,
                unit: core::marker::PhantomData,
            }),
            wheel == 1 ==> e.scroll_x == clicks && e.scroll_y == 0,
            wheel != 1 ==> e.scroll_x == 0 && e.scroll_y == clicks,
    {
        let position = Point2D::new(x, y);
        if wheel == 1 {
            ScrollEvent::new(position, clicks, 0)
        } else {
            ScrollEvent::new(position, 0, clicks)
        }
    }
}

/// What a mouse, right-click or wheel callback returns to X-Plane when the delegate says
/// whether the event should propagate: 1 consumes the event, 0 lets it through.
pub fn event_callback_result(propagate: bool) -> (r: i32)
    ensures
        r == if propagate {
            0i32
        } else {
            1i32
        },
{
    if propagate {
        0
    } else {
        1
    }
}

} // verus!
