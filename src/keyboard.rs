use vstd::prelude::*;

use crate::layout::{Layer, Layout, Side};

verus! {

pub const KEY_BACKSPACE: u16 = 14;
pub const KEY_LEFTCTRL: u16 = 29;
pub const KEY_A: u16 = 30;
pub const KEY_LEFTSHIFT: u16 = 42;
pub const KEY_RIGHTSHIFT: u16 = 54;
pub const KEY_LEFTALT: u16 = 56;
pub const KEY_CAPSLOCK: u16 = 58;
pub const KEY_NUMLOCK: u16 = 69;
pub const KEY_SCROLLLOCK: u16 = 70;
pub const KEY_RIGHTCTRL: u16 = 97;
pub const KEY_RIGHTALT: u16 = 100;
pub const KEY_UP: u16 = 103;
pub const KEY_LEFT: u16 = 105;
pub const KEY_RIGHT: u16 = 106;
pub const KEY_DOWN: u16 = 108;
pub const KEY_LEFTMETA: u16 = 125;
pub const KEY_RIGHTMETA: u16 = 126;

/// How a tap on a key behaves.
#[derive(Debug, Clone, Copy, PartialEq, Eq, Structural)]
pub enum KeyType {
    /// A modifier: each tap toggles it.
    Mod,
    /// A lock: each tap toggles it.
    Lock,
    /// Any other key: a tap presses and releases it.
    Normal,
}

pub open spec fn is_mod_key(code: u16) -> bool {
    code == KEY_LEFTCTRL || code == KEY_RIGHTCTRL || code == KEY_LEFTMETA || code == KEY_RIGHTMETA
        || code == KEY_LEFTSHIFT || code == KEY_RIGHTSHIFT || code == KEY_LEFTALT || code
        == KEY_RIGHTALT
}

pub open spec fn is_lock_key(code: u16) -> bool {
    code == KEY_CAPSLOCK || code == KEY_NUMLOCK || code == KEY_SCROLLLOCK
}

/// The type of the key with a scan code.
pub open spec fn key_type_of(code: u16) -> KeyType {
    if is_mod_key(code) {
        KeyType::Mod
    } else if is_lock_key(code) {
        KeyType::Lock
    } else {
        KeyType::Normal
    }
}

impl From<u16> for KeyType {
    fn from(code: u16) -> (r: KeyType)
        ensures
            r == key_type_of(code),
    {
        if code == KEY_LEFTCTRL || code == KEY_RIGHTCTRL || code == KEY_LEFTMETA || code
            == KEY_RIGHTMETA || code == KEY_LEFTSHIFT || code == KEY_RIGHTSHIFT || code
            == KEY_LEFTALT || code == KEY_RIGHTALT {
            KeyType::Mod
        } else if code == KEY_CAPSLOCK || code == KEY_NUMLOCK || code == KEY_SCROLLLOCK {
            KeyType::Lock
        } else {
            KeyType::Normal
        }
    }
}

impl vstd::std_specs::convert::FromSpecImpl<u16> for KeyType {
    open spec fn obeys_from_spec() -> bool {
        true
    }

    open spec fn from_spec(code: u16) -> KeyType {
        key_type_of(code)
    }
}

/// The bit of the protocol's modifier mask that a modifier key sets; 0 for
/// any other key. Control and Meta share a bit.
pub open spec fn mod_bit(code: u16) -> u32 {
    if code == KEY_LEFTCTRL || code == KEY_RIGHTCTRL {
        4
    } else if code == KEY_LEFTMETA || code == KEY_RIGHTMETA {
        4
    } else if code == KEY_LEFTSHIFT || code == KEY_RIGHTSHIFT {
        1
    } else if code == KEY_LEFTALT || code == KEY_RIGHTALT {
        8
    } else {
        0
    }
}

/// The bit of the protocol's lock mask that a lock key sets; 0 for any
/// other key.
pub open spec fn lock_bit(code: u16) -> u32 {
    if code == KEY_CAPSLOCK {
        2
    } else if code == KEY_NUMLOCK {
        256
    } else if code == KEY_SCROLLLOCK {
        32768
    } else {
        0
    }
}

/// A request to the keyboard state.
#[derive(Debug, Clone, Copy, PartialEq, Eq, Structural)]
pub enum KeyMessage {
    ButtonPress(u16),
    ButtonRelease(u16),
    ModPress(u16),
    ModRelease(u16),
    LockPress(u16),
    LockRelease(u16),
    /// Make a layer the active one of its side.
    Layer(Side, usize),
    /// Show the pointer layer, the last one on the left, or go back to
    /// the default layer.
    MouseLayer(bool),
}

/// What must be forwarded to the virtual-keyboard protocol.
#[derive(Debug, Clone, Copy, PartialEq, Eq, Structural)]
pub enum KeyRequest {
    /// A key changed state.
    Key { code: u16, pressed: bool },
    /// The whole modifier and lock state, after a change.
    Modifiers { depressed: u32, locked: u32 },
}

/// The emulated keyboard: its layout, the active layer of each side, and
/// the modifier and lock masks.
#[derive(Debug)]
pub struct Keyboard {
    pub layout: Layout,
    /// Active layer of the left and of the right side.
    pub layer: (usize, usize),
    pub modifiers: u32,
    pub locks: u32,
}

/// The layer index of a side.
pub open spec fn active_on(k: Keyboard, side: Side) -> usize {
    match side {
        Side::Left => k.layer.0,
        Side::Right => k.layer.1,
    }
}

/// The number of layers of a side.
pub open spec fn side_len(layout: Layout, side: Side) -> nat {
    match side {
        Side::Left => layout.left@.len(),
        Side::Right => layout.right@.len(),
    }
}

/// A message that the keyboard can take in its state: a layer switch
/// must name a layer of its side.
pub open spec fn message_in_range(k: Keyboard, msg: KeyMessage) -> bool {
    match msg {
        KeyMessage::Layer(side, i) => i < side_len(k.layout, side),
        _ => true,
    }
}

/// The keyboard after a message.
pub open spec fn handle_spec(k: Keyboard, msg: KeyMessage) -> Keyboard {
    match msg {
        KeyMessage::ModPress(c) => Keyboard { modifiers: k.modifiers | mod_bit(c), ..k },
        KeyMessage::ModRelease(c) => Keyboard { modifiers: k.modifiers & !mod_bit(c), ..k },
        KeyMessage::LockPress(c) => Keyboard { locks: k.locks | lock_bit(c), ..k },
        KeyMessage::LockRelease(c) => Keyboard { locks: k.locks & !lock_bit(c), ..k },
        KeyMessage::Layer(Side::Left, i) => Keyboard { layer: (i, k.layer.1), ..k },
        KeyMessage::Layer(Side::Right, i) => Keyboard { layer: (k.layer.0, i), ..k },
        KeyMessage::MouseLayer(true) => Keyboard {
            layer: ((k.layout.left@.len() - 1) as usize, k.layer.1),
            ..k
        },
        KeyMessage::MouseLayer(false) => Keyboard { layer: (0, k.layer.1), ..k },
        _ => k,
    }
}

/// What a message forwards to the protocol, given the state after it:
/// key changes verbatim, and the full masks after any modifier or lock
/// change, whether or not the mask changed.
pub open spec fn request_spec(after: Keyboard, msg: KeyMessage) -> Option<KeyRequest> {
    match msg {
        KeyMessage::ButtonPress(c) => Some(KeyRequest::Key { code: c, pressed: true }),
        KeyMessage::ButtonRelease(c) => Some(KeyRequest::Key { code: c, pressed: false }),
        KeyMessage::Layer(_, _) => None,
        KeyMessage::MouseLayer(_) => None,
        _ => Some(KeyRequest::Modifiers { depressed: after.modifiers, locked: after.locks }),
    }
}

impl Keyboard {
    /// The layout is usable and each side's active layer is one of its
    /// layers.
    pub open spec fn well_formed(&self) -> bool {
        &&& self.layout.well_formed()
        &&& self.layer.0 < self.layout.left@.len()
        &&& self.layer.1 < self.layout.right@.len()
    }

    /// A keyboard on the default layers with no modifier or lock set.
    pub fn new(layout: Layout) -> (r: Keyboard)
        requires
            layout.well_formed(),
        ensures
            r.well_formed(),
            r.layout == layout,
            r.layer == (0usize, 0usize),
            r.modifiers == 0,
            r.locks == 0,
    {
        Keyboard { layout, layer: (0, 0), modifiers: 0, locks: 0 }
    }

    /// Applies a message and says what to forward to the protocol.
    pub fn handle(&mut self, msg: KeyMessage) -> (r: Option<KeyRequest>)
        requires
            old(self).well_formed(),
            message_in_range(*old(self), msg),
        ensures
            final(self).well_formed(),
            *final(self) == handle_spec(*old(self), msg),
            r == request_spec(*final(self), msg),
    {
        match msg {
            KeyMessage::ButtonPress(code) => Some(Self::press_key(code)),
            KeyMessage::ButtonRelease(code) => Some(Self::release_key(code)),
            KeyMessage::ModPress(code) => Some(self.append_mod(code)),
            KeyMessage::ModRelease(code) => Some(self.remove_mod(code)),
            KeyMessage::LockPress(code) => Some(self.append_lock(code)),
            KeyMessage::LockRelease(code) => Some(self.remove_lock(code)),
            KeyMessage::MouseLayer(enable) => {
                // The pointer layer is the last one on the left.
                if enable {
                    self.layer.0 = self.layout.left.len() - 1;
                } else {
                    self.layer.0 = 0;
                }
                None
            },
            KeyMessage::Layer(side, idx) => {
                match side {
                    Side::Left => self.layer.0 = idx,
                    Side::Right => self.layer.1 = idx,
                }
                None
            },
        }
    }

    fn press_key(code: u16) -> (r: KeyRequest)
        ensures
            r == (KeyRequest::Key { code, pressed: true }),
    {
        KeyRequest::Key { code, pressed: true }
    }

    fn release_key(code: u16) -> (r: KeyRequest)
        ensures
            r == (KeyRequest::Key { code, pressed: false }),
    {
        KeyRequest::Key { code, pressed: false }
    }

    fn append_mod(&mut self, code: u16) -> (r: KeyRequest)
        ensures
            *final(self) == (Keyboard { modifiers: old(self).modifiers | mod_bit(code), ..*old(self) }),
            r == (KeyRequest::Modifiers { depressed: final(self).modifiers, locked: final(self).locks }),
    {
        let bit = Self::map_mod_key(code);
        self.modifiers = self.modifiers | bit;
        self.update_state()
    }

    fn remove_mod(&mut self, code: u16) -> (r: KeyRequest)
        ensures
            *final(self) == (Keyboard { modifiers: old(self).modifiers & !mod_bit(code), ..*old(self) }),
            r == (KeyRequest::Modifiers { depressed: final(self).modifiers, locked: final(self).locks }),
    {
        let bit = Self::map_mod_key(code);
        self.modifiers = self.modifiers & !bit;
        self.update_state()
    }

    fn append_lock(&mut self, code: u16) -> (r: KeyRequest)
        ensures
            *final(self) == (Keyboard { locks: old(self).locks | lock_bit(code), ..*old(self) }),
            r == (KeyRequest::Modifiers { depressed: final(self).modifiers, locked: final(self).locks }),
    {
        let bit = Self::map_lock_key(code);
        self.locks = self.locks | bit;
        self.update_state()
    }

    fn remove_lock(&mut self, code: u16) -> (r: KeyRequest)
        ensures
            *final(self) == (Keyboard { locks: old(self).locks & !lock_bit(code), ..*old(self) }),
            r == (KeyRequest::Modifiers { depressed: final(self).modifiers, locked: final(self).locks }),
    {
        let bit = Self::map_lock_key(code);
        self.locks = self.locks & !bit;
        self.update_state()
    }

    /// The full modifier and lock state, as the protocol takes it.
    fn update_state(&self) -> (r: KeyRequest)
        ensures
            r == (KeyRequest::Modifiers { depressed: self.modifiers, locked: self.locks }),
    {
        KeyRequest::Modifiers { depressed: self.modifiers, locked: self.locks }
    }

    fn map_mod_key(code: u16) -> (r: u32)
        ensures
            r == mod_bit(code),
    {
        if code == KEY_LEFTCTRL || code == KEY_RIGHTCTRL {
            4
        } else if code == KEY_LEFTMETA || code == KEY_RIGHTMETA {
            4
        } else if code == KEY_LEFTSHIFT || code == KEY_RIGHTSHIFT {
            1
        } else if code == KEY_LEFTALT || code == KEY_RIGHTALT {
            8
        } else {
            0
        }
    }

    fn map_lock_key(code: u16) -> (r: u32)
        ensures
            r == lock_bit(code),
    {
        if code == KEY_CAPSLOCK {
            2
        } else if code == KEY_NUMLOCK {
            256
        } else if code == KEY_SCROLLLOCK {
            32768
        } else {
            0
        }
    }

    /// The keyboard can take the message: a layer switch names a layer of
    /// its side.
    pub fn accepts(&self, msg: KeyMessage) -> (r: bool)
        ensures
            r == message_in_range(*self, msg),
    {
        match msg {
            KeyMessage::Layer(Side::Left, i) => i < self.layout.left.len(),
            KeyMessage::Layer(Side::Right, i) => i < self.layout.right.len(),
            _ => true,
        }
    }

    /// The active layer of each side.
    pub fn active_layers(&self) -> (r: (&Layer, &Layer))
        requires
            self.well_formed(),
        ensures
            *r.0 == self.layout.left@[self.layer.0 as int],
            *r.1 == self.layout.right@[self.layer.1 as int],
    {
        (&self.layout.left[self.layer.0], &self.layout.right[self.layer.1])
    }

    /// The layers of the left side.
    pub fn left_layers(&self) -> (r: &Vec<Layer>)
        ensures
            r@ == self.layout.left@,
    {
        &self.layout.left
    }

    /// The layers of the right side.
    pub fn right_layers(&self) -> (r: &Vec<Layer>)
        ensures
            r@ == self.layout.right@,
    {
        &self.layout.right
    }
}


proof fn lemma_set_then_clear(m: u32, b: u32)
    requires
        m & b == 0,
    ensures
        (m | b) & !b == m,
        m & !b == m,
        (m | b) | b == m | b,
{
    assert((m | b) & !b == m) by (bit_vector)
        requires
            m & b == 0,
    ;
    assert(m & !b == m) by (bit_vector)
        requires
            m & b == 0,
    ;
    assert((m | b) | b == m | b) by (bit_vector);
}

/// Pressing a modifier that is not set and releasing it again leaves the
/// keyboard as it was; releasing a modifier that is not set changes
/// nothing; pressing it twice is pressing it once.
pub proof fn lemma_modifier_round_trip(k: Keyboard, code: u16)
    requires
        k.modifiers & mod_bit(code) == 0,
    ensures
        handle_spec(handle_spec(k, KeyMessage::ModPress(code)), KeyMessage::ModRelease(code)) == k,
        handle_spec(k, KeyMessage::ModRelease(code)) == k,
        handle_spec(handle_spec(k, KeyMessage::ModPress(code)), KeyMessage::ModPress(code))
            == handle_spec(k, KeyMessage::ModPress(code)),
{
    lemma_set_then_clear(k.modifiers, mod_bit(code));
}

/// Pressing a lock that is not set and releasing it again leaves the
/// keyboard as it was; releasing a lock that is not set changes nothing;
/// pressing it twice is pressing it once.
pub proof fn lemma_lock_round_trip(k: Keyboard, code: u16)
    requires
        k.locks & lock_bit(code) == 0,
    ensures
        handle_spec(handle_spec(k, KeyMessage::LockPress(code)), KeyMessage::LockRelease(code))
            == k,
        handle_spec(k, KeyMessage::LockRelease(code)) == k,
        handle_spec(handle_spec(k, KeyMessage::LockPress(code)), KeyMessage::LockPress(code))
            == handle_spec(k, KeyMessage::LockPress(code)),
{
    lemma_set_then_clear(k.locks, lock_bit(code));
}

} // verus!
