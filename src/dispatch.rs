use vstd::prelude::*;

use crate::gesture::{Direction, GestureEvent};
use crate::keyboard::{
    handle_spec, key_type_of, KeyMessage, KeyType, Keyboard, KEY_BACKSPACE, KEY_DOWN,
    KEY_LEFT, KEY_RIGHT, KEY_UP,
};
use crate::layout::{
    dir_action_of, modifier_code, BasicKey, Command, KeyDef, Modifier, SwipeAction,
};
use crate::pointer::{scaled_motion, scaled_motion_of, PointerMessage};

verus! {

/// A message from a key to the rest of the application.
#[derive(Debug, Clone, PartialEq, Eq)]
pub enum UIMessage {
    /// Pass a message to the keyboard.
    Keyboard(KeyMessage),
    /// Pass a message to the pointer.
    Pointer(PointerMessage),
    /// Run a command with arguments, without waiting for it.
    Command(String, Vec<String>),
    /// Show the active layers again.
    UpdateLayout,
    /// Hide the keyboard.
    HideKeyboard,
    /// Show the keyboard.
    ShowKeyboard,
    /// Quit the application.
    Quit,
}

impl From<KeyMessage> for UIMessage {
    fn from(m: KeyMessage) -> (r: UIMessage)
        ensures
            r == UIMessage::Keyboard(m),
    {
        UIMessage::Keyboard(m)
    }
}

impl vstd::std_specs::convert::FromSpecImpl<KeyMessage> for UIMessage {
    open spec fn obeys_from_spec() -> bool {
        true
    }

    open spec fn from_spec(m: KeyMessage) -> UIMessage {
        UIMessage::Keyboard(m)
    }
}

impl From<PointerMessage> for UIMessage {
    fn from(m: PointerMessage) -> (r: UIMessage)
        ensures
            r == UIMessage::Pointer(m),
    {
        UIMessage::Pointer(m)
    }
}

impl vstd::std_specs::convert::FromSpecImpl<PointerMessage> for UIMessage {
    open spec fn obeys_from_spec() -> bool {
        true
    }

    open spec fn from_spec(m: PointerMessage) -> UIMessage {
        UIMessage::Pointer(m)
    }
}

/// A message, with its strings as character sequences.
pub enum MessageView {
    Keyboard(KeyMessage),
    Pointer(PointerMessage),
    Command(Seq<char>, Seq<Seq<char>>),
    UpdateLayout,
    HideKeyboard,
    ShowKeyboard,
    Quit,
}

/// The characters of each string.
pub open spec fn strings_view(v: Seq<String>) -> Seq<Seq<char>> {
    v.map_values(|s: String| s@)
}

impl View for UIMessage {
    type V = MessageView;

    open spec fn view(&self) -> MessageView {
        match self {
            UIMessage::Keyboard(m) => MessageView::Keyboard(*m),
            UIMessage::Pointer(m) => MessageView::Pointer(*m),
            UIMessage::Command(c, a) => MessageView::Command(c@, strings_view(a@)),
            UIMessage::UpdateLayout => MessageView::UpdateLayout,
            UIMessage::HideKeyboard => MessageView::HideKeyboard,
            UIMessage::ShowKeyboard => MessageView::ShowKeyboard,
            UIMessage::Quit => MessageView::Quit,
        }
    }
}

/// The view of each message.
pub open spec fn messages_view(v: Seq<UIMessage>) -> Seq<MessageView> {
    v.map_values(|m: UIMessage| m@)
}

pub open spec fn kb(m: KeyMessage) -> MessageView {
    MessageView::Keyboard(m)
}

/// Press and release a key.
pub open spec fn key_seq(code: u16) -> Seq<MessageView> {
    seq![kb(KeyMessage::ButtonPress(code)), kb(KeyMessage::ButtonRelease(code))]
}

/// Press and release a key with one modifier held around it.
pub open spec fn mod_key_seq(modifier: u16, code: u16) -> Seq<MessageView> {
    seq![kb(KeyMessage::ModPress(modifier))] + key_seq(code) + seq![
        kb(KeyMessage::ModRelease(modifier)),
    ]
}

/// Press each modifier, in order.
pub open spec fn mod_presses(mods: Seq<u16>) -> Seq<MessageView> {
    mods.map_values(|c: u16| kb(KeyMessage::ModPress(c)))
}

/// Release each modifier, in order.
pub open spec fn mod_releases(mods: Seq<u16>) -> Seq<MessageView> {
    mods.map_values(|c: u16| kb(KeyMessage::ModRelease(c)))
}

/// Press and release a key with modifiers held around it.
pub open spec fn mods_key_seq(mods: Seq<u16>, code: u16) -> Seq<MessageView> {
    mod_presses(mods) + key_seq(code) + mod_releases(mods)
}

/// The scan codes of modifiers.
pub open spec fn modifier_codes(mods: Seq<Modifier>) -> Seq<u16> {
    mods.map_values(|m: Modifier| modifier_code(m))
}

/// The arrow key of a direction.
pub open spec fn arrow_code(dir: Direction) -> u16 {
    match dir {
        Direction::Up => KEY_UP,
        Direction::Right => KEY_RIGHT,
        Direction::Left => KEY_LEFT,
        Direction::Down => KEY_DOWN,
    }
}

/// The scroll request of a direction.
pub open spec fn scroll_of(dir: Direction) -> PointerMessage {
    match dir {
        Direction::Up => PointerMessage::ScrollUp,
        Direction::Right => PointerMessage::ScrollRight,
        Direction::Left => PointerMessage::ScrollLeft,
        Direction::Down => PointerMessage::ScrollDown,
    }
}

proof fn lemma_push_view(v: Seq<UIMessage>, m: UIMessage)
    ensures
        messages_view(v.push(m)) == messages_view(v).push(m@),
{
    assert(messages_view(v.push(m)) =~= messages_view(v).push(m@));
}

/// Sends one message.
fn send(out: &mut Vec<UIMessage>, m: UIMessage)
    ensures
        messages_view(final(out)@) == messages_view(old(out)@).push(m@),
{
    proof {
        lemma_push_view(old(out)@, m);
    }
    out.push(m);
}

/// Sends a key press and release.
pub fn send_key(key: u16, out: &mut Vec<UIMessage>)
    ensures
        messages_view(final(out)@) == messages_view(old(out)@) + key_seq(key),
{
    send(out, UIMessage::Keyboard(KeyMessage::ButtonPress(key)));
    send(out, UIMessage::Keyboard(KeyMessage::ButtonRelease(key)));
    assert(messages_view(out@) =~= messages_view(old(out)@) + key_seq(key));
}

/// Sends a key press and release with one modifier held around it.
pub fn send_mod_key(modifier: u16, key: u16, out: &mut Vec<UIMessage>)
    ensures
        messages_view(final(out)@) == messages_view(old(out)@) + mod_key_seq(modifier, key),
{
    send(out, UIMessage::Keyboard(KeyMessage::ModPress(modifier)));
    send(out, UIMessage::Keyboard(KeyMessage::ButtonPress(key)));
    send(out, UIMessage::Keyboard(KeyMessage::ButtonRelease(key)));
    send(out, UIMessage::Keyboard(KeyMessage::ModRelease(modifier)));
    assert(messages_view(out@) =~= messages_view(old(out)@) + mod_key_seq(modifier, key));
}

/// Presses each modifier, in order.
fn send_mod_presses(modifiers: &Vec<u16>, out: &mut Vec<UIMessage>)
    ensures
        messages_view(final(out)@) == messages_view(old(out)@) + mod_presses(modifiers@),
{
    let mut i: usize = 0;
    while i < modifiers.len()
        invariant
            i <= modifiers@.len(),
            messages_view(out@) == messages_view(old(out)@) + mod_presses(modifiers@.take(i as int)),
        decreases modifiers@.len() - i,
    {
        send(out, UIMessage::Keyboard(KeyMessage::ModPress(modifiers[i])));
        assert(modifiers@.take(i + 1) =~= modifiers@.take(i as int).push(modifiers@[i as int]));
        assert(mod_presses(modifiers@.take(i + 1)) =~= mod_presses(modifiers@.take(i as int)).push(
            kb(KeyMessage::ModPress(modifiers@[i as int])),
        ));
        assert(messages_view(out@) =~= messages_view(old(out)@) + mod_presses(
            modifiers@.take(i + 1),
        ));
        i += 1;
    }
    assert(modifiers@.take(i as int) =~= modifiers@);
}

/// Releases each modifier, in order.
fn send_mod_releases(modifiers: &Vec<u16>, out: &mut Vec<UIMessage>)
    ensures
        messages_view(final(out)@) == messages_view(old(out)@) + mod_releases(modifiers@),
{
    let mut i: usize = 0;
    while i < modifiers.len()
        invariant
            i <= modifiers@.len(),
            messages_view(out@) == messages_view(old(out)@) + mod_releases(
                modifiers@.take(i as int),
            ),
        decreases modifiers@.len() - i,
    {
        send(out, UIMessage::Keyboard(KeyMessage::ModRelease(modifiers[i])));
        assert(modifiers@.take(i + 1) =~= modifiers@.take(i as int).push(modifiers@[i as int]));
        assert(mod_releases(modifiers@.take(i + 1)) =~= mod_releases(
            modifiers@.take(i as int),
        ).push(kb(KeyMessage::ModRelease(modifiers@[i as int]))));
        assert(messages_view(out@) =~= messages_view(old(out)@) + mod_releases(
            modifiers@.take(i + 1),
        ));
        i += 1;
    }
    assert(modifiers@.take(i as int) =~= modifiers@);
}

/// Sends a key press and release with modifiers held around it.
pub fn send_mods_key(modifiers: &Vec<u16>, key: u16, out: &mut Vec<UIMessage>)
    ensures
        messages_view(final(out)@) == messages_view(old(out)@) + mods_key_seq(modifiers@, key),
{
    send_mod_presses(modifiers, out);
    send_key(key, out);
    send_mod_releases(modifiers, out);
    assert(messages_view(out@) =~= messages_view(old(out)@) + mods_key_seq(modifiers@, key));
}

/// The scan codes of modifiers.
fn codes_of(mods: &Vec<Modifier>) -> (r: Vec<u16>)
    ensures
        r@ == modifier_codes(mods@),
{
    let mut r: Vec<u16> = Vec::new();
    let mut i: usize = 0;
    while i < mods.len()
        invariant
            i <= mods@.len(),
            r@ == modifier_codes(mods@.take(i as int)),
        decreases mods@.len() - i,
    {
        r.push(mods[i].code());
        assert(mods@.take(i + 1) =~= mods@.take(i as int).push(mods@[i as int]));
        assert(r@ =~= modifier_codes(mods@.take(i + 1)));
        i += 1;
    }
    assert(mods@.take(i as int) =~= mods@);
    r
}

/// The arrow key of a direction.
pub fn arrow_key(dir: Direction) -> (r: u16)
    ensures
        r == arrow_code(dir),
{
    match dir {
        Direction::Up => KEY_UP,
        Direction::Right => KEY_RIGHT,
        Direction::Left => KEY_LEFT,
        Direction::Down => KEY_DOWN,
    }
}

/// Copies a list of strings.
fn copy_strings(v: &Vec<String>) -> (r: Vec<String>)
    ensures
        strings_view(r@) == strings_view(v@),
{
    let mut r: Vec<String> = Vec::new();
    let mut i: usize = 0;
    while i < v.len()
        invariant
            i <= v@.len(),
            strings_view(r@) == strings_view(v@.take(i as int)),
        decreases v@.len() - i,
    {
        let ghost before = r@;
        r.push(v[i].clone());
        assert(v@.take(i + 1) =~= v@.take(i as int).push(v@[i as int]));
        assert(strings_view(r@) =~= strings_view(before).push(v@[i as int]@));
        assert(strings_view(r@) =~= strings_view(v@.take(i + 1)));
        i += 1;
    }
    assert(v@.take(i as int) =~= v@);
    r
}

/// The message that runs a command.
fn command_message(c: &Command) -> (r: UIMessage)
    ensures
        r@ == MessageView::Command(c.cmd@, strings_view(c.args@)),
{
    UIMessage::Command(c.cmd.clone(), copy_strings(&c.args))
}


/// What a swipe action sends when the swipe is claimed, for the key it
/// is bound to and the direction of the swipe.
pub open spec fn press_spec(key: BasicKey, action: SwipeAction, dir: Direction) -> Seq<MessageView> {
    match action {
        SwipeAction::Key(k) => key_seq(k),
        SwipeAction::ModKey(k, mods) => mods_key_seq(modifier_codes(mods@), k),
        SwipeAction::Modified(m) => mod_key_seq(modifier_code(m), key.key),
        SwipeAction::Layer(side, i) => seq![
            kb(KeyMessage::Layer(side, i)),
            MessageView::UpdateLayout,
        ],
        SwipeAction::Arrow => key_seq(arrow_code(dir)),
        SwipeAction::Select => mod_key_seq(modifier_code(Modifier::Shift), arrow_code(dir)),
        SwipeAction::Delete => mod_key_seq(modifier_code(Modifier::Shift), arrow_code(dir)),
        SwipeAction::Scroll => seq![MessageView::Pointer(scroll_of(dir))],
        SwipeAction::Command(c) => seq![MessageView::Command(c.cmd@, strings_view(c.args@))],
        SwipeAction::HideKeyboard => seq![],
    }
}

/// The actions that fire again while a swipe is dragged on.
pub open spec fn repeats(action: SwipeAction) -> bool {
    match action {
        SwipeAction::Key(_)
        | SwipeAction::ModKey(_, _)
        | SwipeAction::Scroll
        | SwipeAction::Delete
        | SwipeAction::Select
        | SwipeAction::Arrow => true,
        _ => false,
    }
}

/// What a swipe action sends when a claimed swipe fires again.
pub open spec fn repeat_spec(key: BasicKey, action: SwipeAction, dir: Direction) -> Seq<MessageView> {
    if repeats(action) {
        press_spec(key, action, dir)
    } else {
        seq![]
    }
}

/// What a swipe action sends when the interaction ends.
pub open spec fn release_spec(action: SwipeAction) -> Seq<MessageView> {
    match action {
        SwipeAction::Layer(side, _) => seq![
            kb(KeyMessage::Layer(side, 0)),
            MessageView::UpdateLayout,
        ],
        SwipeAction::Delete => key_seq(KEY_BACKSPACE),
        SwipeAction::HideKeyboard => seq![MessageView::HideKeyboard],
        _ => seq![],
    }
}

/// The scroll request of a direction.
pub fn scroll_message(dir: Direction) -> (r: PointerMessage)
    ensures
        r == scroll_of(dir),
{
    match dir {
        Direction::Up => PointerMessage::ScrollUp,
        Direction::Right => PointerMessage::ScrollRight,
        Direction::Left => PointerMessage::ScrollLeft,
        Direction::Down => PointerMessage::ScrollDown,
    }
}

/// Sends what a swipe action does when the swipe is claimed.
pub fn handle_swipe_action_press(
    key_def: &BasicKey,
    action: &SwipeAction,
    dir: Direction,
    out: &mut Vec<UIMessage>,
)
    ensures
        messages_view(final(out)@) == messages_view(old(out)@) + press_spec(*key_def, *action, dir),
{
    let scan_code = key_def.key;
    match action {
        SwipeAction::Key(key) => {
            send_key(*key, out);
        },
        SwipeAction::ModKey(key, modifiers) => {
            let modifiers = codes_of(modifiers);
            send_mods_key(&modifiers, *key, out);
        },
        SwipeAction::Modified(modifier) => {
            send_mod_key(modifier.code(), scan_code, out);
        },
        SwipeAction::Layer(side, idx) => {
            send(out, UIMessage::Keyboard(KeyMessage::Layer(*side, *idx)));
            send(out, UIMessage::UpdateLayout);
            assert(messages_view(out@) =~= messages_view(old(out)@) + press_spec(
                *key_def,
                *action,
                dir,
            ));
        },
        SwipeAction::Arrow => {
            send_key(arrow_key(dir), out);
        },
        SwipeAction::Select => {
            send_mod_key(Modifier::Shift.code(), arrow_key(dir), out);
        },
        SwipeAction::Delete => {
            send_mod_key(Modifier::Shift.code(), arrow_key(dir), out);
        },
        SwipeAction::Scroll => {
            send(out, UIMessage::Pointer(scroll_message(dir)));
            assert(messages_view(out@) =~= messages_view(old(out)@) + press_spec(
                *key_def,
                *action,
                dir,
            ));
        },
        SwipeAction::Command(c) => {
            send(out, command_message(c));
            assert(messages_view(out@) =~= messages_view(old(out)@) + press_spec(
                *key_def,
                *action,
                dir,
            ));
        },
        SwipeAction::HideKeyboard => {
            // Hiding waits for the release: were the keyboard hidden now,
            // the release of this interaction would never be handled.
            assert(messages_view(out@) =~= messages_view(old(out)@) + press_spec(
                *key_def,
                *action,
                dir,
            ));
        },
    }
}

/// Sends what a swipe action does when a claimed swipe fires again: keys,
/// arrows, scrolling, selection and deletion fire as on the first swipe,
/// the rest do nothing.
pub fn handle_swipe_action_repeat(
    key_def: &BasicKey,
    action: &SwipeAction,
    dir: Direction,
    out: &mut Vec<UIMessage>,
)
    ensures
        messages_view(final(out)@) == messages_view(old(out)@) + repeat_spec(*key_def, *action, dir),
{
    match action {
        SwipeAction::Key(_)
        | SwipeAction::ModKey(_, _)
        | SwipeAction::Scroll
        | SwipeAction::Delete
        | SwipeAction::Select
        | SwipeAction::Arrow => handle_swipe_action_press(key_def, action, dir, out),
        _ => {
            assert(messages_view(out@) =~= messages_view(old(out)@) + repeat_spec(
                *key_def,
                *action,
                dir,
            ));
        },
    }
}

/// Sends what a swipe action does when the interaction ends: a layer
/// switch goes back to the default layer, a deletion deletes what it
/// selected, and hiding hides.
pub fn handle_swipe_action_release(action: &SwipeAction, out: &mut Vec<UIMessage>)
    ensures
        messages_view(final(out)@) == messages_view(old(out)@) + release_spec(*action),
{
    match action {
        SwipeAction::Layer(side, _) => {
            send(out, UIMessage::Keyboard(KeyMessage::Layer(*side, 0)));
            send(out, UIMessage::UpdateLayout);
        },
        SwipeAction::Delete => {
            send_key(KEY_BACKSPACE, out);
        },
        SwipeAction::HideKeyboard => {
            send(out, UIMessage::HideKeyboard);
        },
        _ => {},
    }
    assert(messages_view(out@) =~= messages_view(old(out)@) + release_spec(*action));
}


/// What a tap on a plain key sends: its modifiers, then the key.
pub open spec fn tap_spec(k: BasicKey) -> Seq<MessageView> {
    mod_presses(modifier_codes(k.modifiers@)) + seq![kb(KeyMessage::ButtonPress(k.key))]
}

/// What the end of a tap or hold on a plain key sends: the key, then its
/// modifiers.
pub open spec fn plain_release_spec(k: BasicKey) -> Seq<MessageView> {
    seq![kb(KeyMessage::ButtonRelease(k.key))] + mod_releases(modifier_codes(k.modifiers@))
}

/// What the end of an interaction sends for a swipe claimed in `dir`.
pub open spec fn swipe_release_spec(k: BasicKey, dir: Direction) -> Seq<MessageView> {
    match dir_action_of(k, dir) {
        Some(a) => release_spec(a),
        None => seq![],
    }
}

/// What the end of an interaction sends for a claimed swipe: the release
/// of the action of its direction, or nothing when it resolved to no
/// direction.
pub open spec fn claimed_release_spec(k: BasicKey, dir: Option<Direction>) -> Seq<MessageView> {
    match dir {
        Some(d) => swipe_release_spec(k, d),
        None => seq![],
    }
}

/// Whether the current interaction on a key was claimed as a swipe.
#[derive(Debug, Clone, Copy, PartialEq, Eq, Structural)]
pub enum SwipeClaim {
    /// No swipe was claimed: the interaction is a tap or a hold so far.
    NotClaimed,
    /// A swipe was claimed, in this direction if one resolved.
    Claimed(Option<Direction>),
}

/// Handles one classified event on a key: the handler afterwards, and
/// what it sends.
/// Whatever the key, the end of an interaction clears the swipe claim.
pub open spec fn key_event_spec(h: KeyHandler, e: GestureEvent) -> (KeyHandler, Seq<MessageView>) {
    let (h1, sent) = key_event_inner_spec(h, e);
    if e is Released {
        (KeyHandler { claim: SwipeClaim::NotClaimed, ..h1 }, sent)
    } else {
        (h1, sent)
    }
}

/// Handles one classified event on a key, before the claim is cleared.
pub open spec fn key_event_inner_spec(h: KeyHandler, e: GestureEvent) -> (KeyHandler, Seq<MessageView>) {
    match h.key {
        KeyDef::Basic(k) => match key_type_of(k.key) {
            KeyType::Normal => {
                let (claim, sent) = basic_event_spec(h.claim, k, e);
                (KeyHandler { claim, ..h }, sent)
            },
            KeyType::Mod => toggle_spec(
                h,
                e,
                kb(KeyMessage::ModPress(k.key)),
                kb(KeyMessage::ModRelease(k.key)),
            ),
            KeyType::Lock => toggle_spec(
                h,
                e,
                kb(KeyMessage::LockPress(k.key)),
                kb(KeyMessage::LockRelease(k.key)),
            ),
        },
        KeyDef::Command(c) => match e {
            GestureEvent::Released => (h, seq![MessageView::Command(c.cmd@, strings_view(c.args@))]),
            _ => (h, seq![]),
        },
        KeyDef::PointerButton(b) => match e {
            GestureEvent::TapPressed => (h, seq![MessageView::Pointer(PointerMessage::Press(b))]),
            GestureEvent::Released => (h, seq![MessageView::Pointer(PointerMessage::Release(b))]),
            _ => (h, seq![]),
        },
        KeyDef::Pointer => match e {
            GestureEvent::FreeMove { dx, dy, x, y } => (
                h,
                seq![
                    MessageView::Pointer(
                        PointerMessage::Move(
                            scaled_motion_of(dx as int, x as int),
                            scaled_motion_of(dy as int, y as int),
                        ),
                    ),
                    kb(KeyMessage::MouseLayer(true)),
                    MessageView::UpdateLayout,
                ],
            ),
            GestureEvent::Released => (
                h,
                seq![kb(KeyMessage::MouseLayer(false)), MessageView::UpdateLayout],
            ),
            _ => (h, seq![]),
        },
    }
}

/// A plain key: taps press it with its modifiers; the first swipe claims
/// the interaction and runs the action of its direction, if any; a
/// repeated swipe runs the repeat of the action of its own direction and
/// leaves the claim as it is; the end of the interaction runs exactly one
/// of the plain release and the claimed swipe's release. Gives the claim
/// afterwards, and what is sent.
pub open spec fn basic_event_spec(claim: SwipeClaim, k: BasicKey, e: GestureEvent) -> (
    SwipeClaim,
    Seq<MessageView>,
) {
    match e {
        GestureEvent::TapPressed => (claim, tap_spec(k)),
        GestureEvent::SwipePressed(d) => (
            SwipeClaim::Claimed(Some(d)),
            match dir_action_of(k, d) {
                Some(a) => press_spec(k, a, d),
                None => seq![],
            },
        ),
        GestureEvent::SwipeRepeated(d) => (
            claim,
            match dir_action_of(k, d) {
                Some(a) => repeat_spec(k, a, d),
                None => seq![],
            },
        ),
        GestureEvent::Released => (
            SwipeClaim::NotClaimed,
            match claim {
                SwipeClaim::NotClaimed => plain_release_spec(k),
                SwipeClaim::Claimed(dir) => claimed_release_spec(k, dir),
            },
        ),
        GestureEvent::FreeMove { .. } => (claim, seq![]),
    }
}

/// A modifier or lock key: each tap toggles it.
pub open spec fn toggle_spec(h: KeyHandler, e: GestureEvent, on: MessageView, off: MessageView) -> (
    KeyHandler,
    Seq<MessageView>,
) {
    match e {
        GestureEvent::TapPressed => if h.active {
            (KeyHandler { active: false, ..h }, seq![off])
        } else {
            (KeyHandler { active: true, ..h }, seq![on])
        },
        _ => (h, seq![]),
    }
}

/// Turns the classified events of interactions on one key into messages.
#[derive(Debug)]
pub struct KeyHandler {
    pub key: KeyDef,
    /// Whether, and in which direction, the current interaction was
    /// claimed as a swipe.
    pub claim: SwipeClaim,
    /// A modifier or lock key is toggled on.
    pub active: bool,
}

impl KeyHandler {
    /// A handler for a key, with no swipe claimed and nothing toggled.
    pub open spec fn new_spec(key: KeyDef) -> KeyHandler {
        KeyHandler { key, claim: SwipeClaim::NotClaimed, active: false }
    }

    /// A handler for a key, with no swipe claimed and nothing toggled.
    pub fn new(key: KeyDef) -> (r: KeyHandler)
        ensures
            r == KeyHandler::new_spec(key),
    {
        KeyHandler { key, claim: SwipeClaim::NotClaimed, active: false }
    }

    /// The handler once the interaction was claimed as a swipe; a claim
    /// already made stands.
    pub open spec fn claim_spec(self) -> KeyHandler {
        match self.claim {
            SwipeClaim::NotClaimed => KeyHandler { claim: SwipeClaim::Claimed(None), ..self },
            _ => self,
        }
    }

    /// The interaction was claimed as a swipe, before or without a
    /// direction: its end then runs no plain release.
    pub fn claim_swipe(&mut self)
        ensures
            *final(self) == old(self).claim_spec(),
    {
        if let SwipeClaim::NotClaimed = self.claim {
            self.claim = SwipeClaim::Claimed(None);
        }
    }

    /// Handles one classified event and returns what to send, in order.
    pub fn handle(&mut self, e: GestureEvent) -> (r: Vec<UIMessage>)
        ensures
            (*final(self), messages_view(r@)) == key_event_spec(*old(self), e),
    {
        let mut out: Vec<UIMessage> = Vec::new();
        assert(messages_view(out@) =~= seq![]);
        match &self.key {
            KeyDef::Basic(k) => {
                match KeyType::from(k.key) {
                    KeyType::Normal => basic_event(k, &mut self.claim, e, &mut out),
                    KeyType::Mod => {
                        if let GestureEvent::TapPressed = e {
                            self.active = !self.active;
                            if self.active {
                                send(&mut out, UIMessage::Keyboard(KeyMessage::ModPress(k.key)));
                            } else {
                                send(&mut out, UIMessage::Keyboard(KeyMessage::ModRelease(k.key)));
                            }
                        }
                    },
                    KeyType::Lock => {
                        if let GestureEvent::TapPressed = e {
                            self.active = !self.active;
                            if self.active {
                                send(&mut out, UIMessage::Keyboard(KeyMessage::LockPress(k.key)));
                            } else {
                                send(
                                    &mut out,
                                    UIMessage::Keyboard(KeyMessage::LockRelease(k.key)),
                                );
                            }
                        }
                    },
                }
            },
            KeyDef::Command(c) => {
                if let GestureEvent::Released = e {
                    send(&mut out, command_message(c));
                }
            },
            KeyDef::PointerButton(b) => {
                match e {
                    GestureEvent::TapPressed => {
                        send(&mut out, UIMessage::Pointer(PointerMessage::Press(*b)));
                    },
                    GestureEvent::Released => {
                        send(&mut out, UIMessage::Pointer(PointerMessage::Release(*b)));
                    },
                    _ => {},
                }
            },
            KeyDef::Pointer => {
                match e {
                    GestureEvent::FreeMove { dx, dy, x, y } => {
                        let mx = scaled_motion(dx, x);
                        let my = scaled_motion(dy, y);
                        send(&mut out, UIMessage::Pointer(PointerMessage::Move(mx, my)));
                        send(&mut out, UIMessage::Keyboard(KeyMessage::MouseLayer(true)));
                        send(&mut out, UIMessage::UpdateLayout);
                    },
                    GestureEvent::Released => {
                        send(&mut out, UIMessage::Keyboard(KeyMessage::MouseLayer(false)));
                        send(&mut out, UIMessage::UpdateLayout);
                    },
                    _ => {},
                }
            },
        }
        if let GestureEvent::Released = e {
            self.claim = SwipeClaim::NotClaimed;
        }
        proof {
            let (_, sent) = key_event_spec(*old(self), e);
            assert(messages_view(out@) =~= sent);
        }
        out
    }
}

/// Handles one classified event on a plain key.
fn basic_event(k: &BasicKey, claim: &mut SwipeClaim, e: GestureEvent, out: &mut Vec<UIMessage>)
    ensures
        ({
            let (c, sent) = basic_event_spec(*old(claim), *k, e);
            &&& *final(claim) == c
            &&& messages_view(final(out)@) == messages_view(old(out)@) + sent
        }),
{
    match e {
        GestureEvent::TapPressed => {
            let modifiers = codes_of(&k.modifiers);
            send_mod_presses(&modifiers, out);
            send(out, UIMessage::Keyboard(KeyMessage::ButtonPress(k.key)));
            assert(messages_view(out@) =~= messages_view(old(out)@) + tap_spec(*k));
        },
        GestureEvent::SwipePressed(dir) => {
            *claim = SwipeClaim::Claimed(Some(dir));
            if let Some(action) = k.dir_action(dir) {
                handle_swipe_action_press(k, action, dir, out);
            } else {
                assert(messages_view(out@) =~= messages_view(old(out)@) + seq![]);
            }
        },
        GestureEvent::SwipeRepeated(dir) => {
            if let Some(action) = k.dir_action(dir) {
                handle_swipe_action_repeat(k, action, dir, out);
            } else {
                assert(messages_view(out@) =~= messages_view(old(out)@) + seq![]);
            }
        },
        GestureEvent::Released => {
            match *claim {
                SwipeClaim::Claimed(Some(dir)) => {
                    if let Some(action) = k.dir_action(dir) {
                        handle_swipe_action_release(action, out);
                    } else {
                        assert(messages_view(out@) =~= messages_view(old(out)@) + seq![]);
                    }
                },
                SwipeClaim::Claimed(None) => {
                    assert(messages_view(out@) =~= messages_view(old(out)@) + seq![]);
                },
                SwipeClaim::NotClaimed => {
                    send(out, UIMessage::Keyboard(KeyMessage::ButtonRelease(k.key)));
                    let modifiers = codes_of(&k.modifiers);
                    send_mod_releases(&modifiers, out);
                    assert(messages_view(out@) =~= messages_view(old(out)@) + plain_release_spec(
                        *k,
                    ));
                },
            }
            *claim = SwipeClaim::NotClaimed;
        },
        GestureEvent::FreeMove { .. } => {
            assert(messages_view(out@) =~= messages_view(old(out)@) + seq![]);
        },
    }
}

/// The keyboard after the keyboard messages among `msgs`, in order.
pub open spec fn apply_messages(k: Keyboard, msgs: Seq<MessageView>) -> Keyboard
    decreases msgs.len(),
{
    if msgs.len() == 0 {
        k
    } else {
        let k1 = match msgs[0] {
            MessageView::Keyboard(m) => handle_spec(k, m),
            _ => k,
        };
        apply_messages(k1, msgs.subrange(1, msgs.len() as int))
    }
}

/// The end of an interaction on a plain key runs exactly one release:
/// the plain one (key, then modifiers) when no swipe was claimed, else
/// the release of the claimed swipe's action, which always differs from
/// the plain one.
pub proof fn lemma_release_paths_exclusive(h: KeyHandler, k: BasicKey)
    requires
        h.key == KeyDef::Basic(k),
        key_type_of(k.key) == KeyType::Normal,
    ensures
        ({
            let (h1, sent) = key_event_spec(h, GestureEvent::Released);
            &&& h1.claim == SwipeClaim::NotClaimed
            &&& match h.claim {
                SwipeClaim::NotClaimed => sent == plain_release_spec(k),
                SwipeClaim::Claimed(d) => sent == claimed_release_spec(k, d) && sent
                    != plain_release_spec(k),
            }
        }),
{
    let plain = plain_release_spec(k);
    assert(plain[0] == kb(KeyMessage::ButtonRelease(k.key)));
    if let SwipeClaim::Claimed(d) = h.claim {
        let sent = claimed_release_spec(k, d);
        if sent.len() > 0 {
            assert(sent[0] != plain[0]);
        }
    }
}

} // verus!
