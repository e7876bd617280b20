use vstd::prelude::*;

use crate::gesture::Direction;
use crate::pointer::PointerButton;

verus! {

/// One half of the keyboard.
#[derive(Debug, Clone, Copy, PartialEq, Eq, Structural)]
pub enum Side {
    Left,
    Right,
}

/// A modifier that a key can be wrapped in.
#[derive(Debug, Clone, Copy, PartialEq, Eq, Structural)]
pub enum Modifier {
    Alt,
    Ctrl,
    Shift,
    Meta,
}

/// The scan code emitted for a modifier.
pub open spec fn modifier_code(m: Modifier) -> u16 {
    match m {
        Modifier::Alt => 56,
        Modifier::Ctrl => 29,
        Modifier::Shift => 42,
        Modifier::Meta => 125,
    }
}

impl Modifier {
    /// The scan code of the left-hand key of this modifier.
    pub fn code(&self) -> (r: u16)
        ensures
            r == modifier_code(*self),
    {
        match self {
            Modifier::Alt => 56,
            Modifier::Ctrl => 29,
            Modifier::Shift => 42,
            Modifier::Meta => 125,
        }
    }
}


/// An external command: a program, its arguments and the label shown on
/// the key.
#[derive(Debug, Clone)]
pub struct Command {
    pub cmd: String,
    pub args: Vec<String>,
    pub label: String,
}

/// The action bound to one swipe direction of a key.
///
/// Layer switches hold until release; arrows, scrolling, selection and
/// deletion repeat while dragging; everything else fires once.
#[derive(Debug, Clone)]
pub enum SwipeAction {
    /// Fire another key.
    Key(u16),
    /// Fire another key wrapped in modifiers.
    ModKey(u16, Vec<Modifier>),
    /// Switch a side to a layer while the swipe is held.
    Layer(Side, usize),
    /// Fire the swiped key itself wrapped in one modifier.
    Modified(Modifier),
    /// Move the cursor in the swipe direction.
    Arrow,
    /// Scroll in the swipe direction.
    Scroll,
    /// Select text in the swipe direction.
    Select,
    /// Select text in the swipe direction and delete it on release.
    Delete,
    /// Run an external command.
    Command(Command),
    /// Hide the keyboard once the interaction ends.
    HideKeyboard,
}

/// A key that emulates a physical key, with optional swipe actions.
#[derive(Debug, Clone)]
pub struct BasicKey {
    /// Scan code of the key.
    pub key: u16,
    /// Modifiers held while the key is tapped.
    pub modifiers: Vec<Modifier>,
    pub up: Option<SwipeAction>,
    pub right: Option<SwipeAction>,
    pub left: Option<SwipeAction>,
    pub down: Option<SwipeAction>,
    /// Display weight relative to a plain key; absent means 1.
    pub width: Option<u8>,
    /// Glyph shown instead of the key's default one.
    pub label: Option<String>,
}

/// One key of a layer.
#[derive(Debug, Clone)]
pub enum KeyDef {
    /// A basic key, with optional swipe actions.
    Basic(BasicKey),
    /// Execute an external command.
    Command(Command),
    /// Send a pointer button.
    PointerButton(PointerButton),
    /// A trackpad area that moves the pointer.
    Pointer,
}

/// One selectable grid of keys: rows from top to bottom, keys from left
/// to right.
#[derive(Debug, Clone)]
pub struct Layer {
    pub layout: Vec<Vec<KeyDef>>,
}

/// Two halves, each a list of layers; layer 0 of each side is the default.
#[derive(Debug, Clone)]
pub struct Layout {
    pub left: Vec<Layer>,
    pub right: Vec<Layer>,
}

/// Why a layout cannot be used.
#[derive(Debug, Clone, Copy, PartialEq, Eq, Structural)]
pub enum LayoutError {
    /// A side has no layer.
    EmptySide(Side),
    /// A swipe action switches to a layer that its side does not have.
    LayerOutOfRange,
}

/// The action bound to a swipe direction of a key.
pub open spec fn dir_action_of(k: BasicKey, dir: Direction) -> Option<SwipeAction> {
    match dir {
        Direction::Up => k.up,
        Direction::Right => k.right,
        Direction::Left => k.left,
        Direction::Down => k.down,
    }
}

/// A swipe action targets a layer that exists, given the number of layers
/// on each side.
pub open spec fn action_in_range(a: Option<SwipeAction>, n_left: nat, n_right: nat) -> bool {
    match a {
        Some(SwipeAction::Layer(Side::Left, i)) => i < n_left,
        Some(SwipeAction::Layer(Side::Right, i)) => i < n_right,
        _ => true,
    }
}

/// Every swipe action of a key targets a layer that exists.
pub open spec fn key_in_range(k: KeyDef, n_left: nat, n_right: nat) -> bool {
    match k {
        KeyDef::Basic(b) => {
            &&& action_in_range(b.up, n_left, n_right)
            &&& action_in_range(b.right, n_left, n_right)
            &&& action_in_range(b.left, n_left, n_right)
            &&& action_in_range(b.down, n_left, n_right)
        },
        _ => true,
    }
}

/// Every key of a row targets layers that exist.
pub open spec fn row_in_range(row: Seq<KeyDef>, n_left: nat, n_right: nat) -> bool {
    forall|j: int| 0 <= j < row.len() ==> #[trigger] key_in_range(row[j], n_left, n_right)
}

/// Every key of a layer targets layers that exist.
pub open spec fn layer_in_range(l: Layer, n_left: nat, n_right: nat) -> bool {
    forall|i: int| 0 <= i < l.layout@.len() ==> #[trigger] row_in_range(l.layout@[i]@, n_left, n_right)
}

/// Every layer of a side targets layers that exist.
pub open spec fn side_in_range(side: Seq<Layer>, n_left: nat, n_right: nat) -> bool {
    forall|i: int| 0 <= i < side.len() ==> #[trigger] layer_in_range(side[i], n_left, n_right)
}

impl Default for BasicKey {
    fn default() -> (r: BasicKey)
        ensures
            r.key == 30,
            r.modifiers@.len() == 0,
            r.up is None,
            r.right is None,
            r.left is None,
            r.down is None,
            r.width is None,
            r.label is None,
    {
        BasicKey {
            key: 30,
            modifiers: Vec::new(),
            up: None,
            right: None,
            left: None,
            down: None,
            width: None,
            label: None,
        }
    }
}

impl KeyDef {
    /// A basic key for a scan code, with no modifiers, swipe actions,
    /// width or label of its own.
    pub fn basic(code: u16) -> (r: KeyDef)
        ensures
            r matches KeyDef::Basic(b) && b.key == code && b.modifiers@.len() == 0 && b.up is None
                && b.right is None && b.left is None && b.down is None && b.width is None
                && b.label is None,
    {
        let mut b = BasicKey::default();
        b.key = code;
        KeyDef::Basic(b)
    }
}

impl Layer {
    /// The rows, top to bottom.
    pub fn rows(&self) -> (r: &Vec<Vec<KeyDef>>)
        ensures
            r@ == self.layout@,
    {
        &self.layout
    }
}

impl BasicKey {
    /// The glyph shown on the key: its label, or else `fallback`, the
    /// glyph that the system keymap gives its scan code.
    pub fn glyph(&self, fallback: String) -> (r: String)
        ensures
            r@ == (match self.label {
                Some(l) => l@,
                None => fallback@,
            }),
    {
        match &self.label {
            Some(l) => l.clone(),
            None => fallback,
        }
    }

    /// The display weight of the key; 1 unless the layout says otherwise.
    pub fn width(&self) -> (r: u8)
        ensures
            r == (match self.width {
                Some(w) => w,
                None => 1u8,
            }),
    {
        match self.width {
            Some(w) => w,
            None => 1,
        }
    }

    /// The action bound to a swipe direction, if any.
    pub fn dir_action(&self, dir: Direction) -> (r: &Option<SwipeAction>)
        ensures
            *r == dir_action_of(*self, dir),
    {
        match dir {
            Direction::Up => &self.up,
            Direction::Right => &self.right,
            Direction::Left => &self.left,
            Direction::Down => &self.down,
        }
    }
}

impl Layout {
    /// Both sides have a layer, and every layer switch names a layer that
    /// exists.
    pub open spec fn well_formed(&self) -> bool {
        &&& self.left@.len() >= 1
        &&& self.right@.len() >= 1
        &&& side_in_range(self.left@, self.left@.len(), self.right@.len())
        &&& side_in_range(self.right@, self.left@.len(), self.right@.len())
    }

    /// Checks the layout before it is used: each side needs a layer, and
    /// each layer switch must name a layer of its side.
    pub fn validate(&self) -> (r: Result<(), LayoutError>)
        ensures
            r is Ok <==> self.well_formed(),
            r == Err::<(), LayoutError>(LayoutError::EmptySide(Side::Left)) <==> self.left@.len() == 0,
            r == Err::<(), LayoutError>(LayoutError::EmptySide(Side::Right)) <==> (
                self.left@.len() > 0 && self.right@.len() == 0),
    {
        if self.left.len() == 0 {
            return Err(LayoutError::EmptySide(Side::Left));
        }
        if self.right.len() == 0 {
            return Err(LayoutError::EmptySide(Side::Right));
        }
        let n_left = self.left.len();
        let n_right = self.right.len();
        if side_valid(&self.left, n_left, n_right) && side_valid(&self.right, n_left, n_right) {
            Ok(())
        } else {
            Err(LayoutError::LayerOutOfRange)
        }
    }
}

fn action_valid(a: &Option<SwipeAction>, n_left: usize, n_right: usize) -> (r: bool)
    ensures
        r == action_in_range(*a, n_left as nat, n_right as nat),
{
    match a {
        Some(SwipeAction::Layer(Side::Left, i)) => *i < n_left,
        Some(SwipeAction::Layer(Side::Right, i)) => *i < n_right,
        _ => true,
    }
}

fn key_valid(k: &KeyDef, n_left: usize, n_right: usize) -> (r: bool)
    ensures
        r == key_in_range(*k, n_left as nat, n_right as nat),
{
    match k {
        KeyDef::Basic(b) => {
            action_valid(&b.up, n_left, n_right) && action_valid(&b.right, n_left, n_right)
                && action_valid(&b.left, n_left, n_right) && action_valid(&b.down, n_left, n_right)
        },
        _ => true,
    }
}

fn layer_valid(l: &Layer, n_left: usize, n_right: usize) -> (r: bool)
    ensures
        r == layer_in_range(*l, n_left as nat, n_right as nat),
{
    let mut i: usize = 0;
    while i < l.layout.len()
        invariant
            i <= l.layout@.len(),
            forall|p: int| 0 <= p < i ==> #[trigger] row_in_range(l.layout@[p]@, n_left as nat, n_right as nat),
        decreases l.layout@.len() - i,
    {
        let row = &l.layout[i];
        let mut j: usize = 0;
        while j < row.len()
            invariant
                i < l.layout@.len(),
                row == l.layout@[i as int],
                j <= row@.len(),
                forall|q: int| 0 <= q < j ==> #[trigger] key_in_range(row@[q], n_left as nat, n_right as nat),
            decreases row@.len() - j,
        {
            if !key_valid(&row[j], n_left, n_right) {
                assert(!row_in_range(l.layout@[i as int]@, n_left as nat, n_right as nat));
                return false;
            }
            j += 1;
        }
        i += 1;
    }
    true
}

fn side_valid(side: &Vec<Layer>, n_left: usize, n_right: usize) -> (r: bool)
    ensures
        r == side_in_range(side@, n_left as nat, n_right as nat),
{
    let mut i: usize = 0;
    while i < side.len()
        invariant
            i <= side@.len(),
            forall|p: int| 0 <= p < i ==> #[trigger] layer_in_range(side@[p], n_left as nat, n_right as nat),
        decreases side@.len() - i,
    {
        if !layer_valid(&side[i], n_left, n_right) {
            return false;
        }
        i += 1;
    }
    true
}

} // verus!
