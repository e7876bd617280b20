use kway::control::KeyControl;
use kway::dispatch::{
    handle_swipe_action_press, handle_swipe_action_release, handle_swipe_action_repeat,
    send_key, send_mod_key, send_mods_key, KeyHandler, SwipeClaim, UIMessage,
};
use kway::gesture::{Direction, GestureConfig, GestureEvent, Recognizer};
use kway::keyboard::{KeyMessage, Keyboard};
use kway::layout::{BasicKey, Command, KeyDef, Layer, Layout, Modifier, Side, SwipeAction};
use kway::pointer::{PointerButton, PointerMessage};

fn kb(m: KeyMessage) -> UIMessage {
    UIMessage::Keyboard(m)
}

fn basic(code: u16) -> BasicKey {
    let mut b = BasicKey::default();
    b.key = code;
    b
}

fn press(key: &BasicKey, action: SwipeAction, dir: Direction) -> Vec<UIMessage> {
    let mut out = Vec::new();
    handle_swipe_action_press(key, &action, dir, &mut out);
    out
}

fn repeat(key: &BasicKey, action: SwipeAction, dir: Direction) -> Vec<UIMessage> {
    let mut out = Vec::new();
    handle_swipe_action_repeat(key, &action, dir, &mut out);
    out
}

fn release(action: SwipeAction) -> Vec<UIMessage> {
    let mut out = Vec::new();
    handle_swipe_action_release(&action, &mut out);
    out
}

fn shift_arrow(arrow: u16) -> Vec<UIMessage> {
    vec![
        kb(KeyMessage::ModPress(42)),
        kb(KeyMessage::ButtonPress(arrow)),
        kb(KeyMessage::ButtonRelease(arrow)),
        kb(KeyMessage::ModRelease(42)),
    ]
}

fn apply(k: &mut Keyboard, msgs: &[UIMessage]) {
    for m in msgs {
        if let UIMessage::Keyboard(m) = m {
            assert!(k.accepts(*m));
            k.handle(*m);
        }
    }
}

fn one_key_layout(key: BasicKey, n_left: usize) -> Layout {
    let mut left = vec![Layer { layout: vec![vec![KeyDef::Basic(key)]] }];
    for _ in 1..n_left {
        left.push(Layer { layout: vec![vec![KeyDef::basic(31)]] });
    }
    Layout { left, right: vec![Layer { layout: vec![vec![KeyDef::basic(32)]] }] }
}

#[test]
fn modifier_codes() {
    assert_eq!(Modifier::Alt.code(), 56);
    assert_eq!(Modifier::Ctrl.code(), 29);
    assert_eq!(Modifier::Shift.code(), 42);
    assert_eq!(Modifier::Meta.code(), 125);
}

#[test]
fn send_helpers() {
    let mut out = Vec::new();
    send_key(30, &mut out);
    assert_eq!(out, vec![kb(KeyMessage::ButtonPress(30)), kb(KeyMessage::ButtonRelease(30))]);
    let mut out = Vec::new();
    send_mod_key(42, 103, &mut out);
    assert_eq!(out, shift_arrow(103));
    let mut out = vec![UIMessage::UpdateLayout];
    send_mods_key(&vec![29, 56], 20, &mut out);
    assert_eq!(
        out,
        vec![
            UIMessage::UpdateLayout,
            kb(KeyMessage::ModPress(29)),
            kb(KeyMessage::ModPress(56)),
            kb(KeyMessage::ButtonPress(20)),
            kb(KeyMessage::ButtonRelease(20)),
            kb(KeyMessage::ModRelease(29)),
            kb(KeyMessage::ModRelease(56)),
        ]
    );
}

#[test]
fn swipe_key_and_mod_key() {
    let k = basic(30);
    let fired = vec![kb(KeyMessage::ButtonPress(14)), kb(KeyMessage::ButtonRelease(14))];
    assert_eq!(press(&k, SwipeAction::Key(14), Direction::Up), fired);
    assert_eq!(repeat(&k, SwipeAction::Key(14), Direction::Up), fired);
    assert_eq!(release(SwipeAction::Key(14)), vec![]);
    let shortcut = vec![
        kb(KeyMessage::ModPress(29)),
        kb(KeyMessage::ModPress(42)),
        kb(KeyMessage::ButtonPress(47)),
        kb(KeyMessage::ButtonRelease(47)),
        kb(KeyMessage::ModRelease(29)),
        kb(KeyMessage::ModRelease(42)),
    ];
    let mod_key = SwipeAction::ModKey(47, vec![Modifier::Ctrl, Modifier::Shift]);
    assert_eq!(press(&k, mod_key.clone(), Direction::Down), shortcut);
    assert_eq!(repeat(&k, mod_key.clone(), Direction::Down), shortcut);
    assert_eq!(release(mod_key), vec![]);
}

#[test]
fn swipe_modified_wraps_origin_key() {
    let k = basic(30);
    assert_eq!(
        press(&k, SwipeAction::Modified(Modifier::Alt), Direction::Left),
        vec![
            kb(KeyMessage::ModPress(56)),
            kb(KeyMessage::ButtonPress(30)),
            kb(KeyMessage::ButtonRelease(30)),
            kb(KeyMessage::ModRelease(56)),
        ]
    );
    assert_eq!(repeat(&k, SwipeAction::Modified(Modifier::Alt), Direction::Left), vec![]);
    assert_eq!(release(SwipeAction::Modified(Modifier::Alt)), vec![]);
}

#[test]
fn swipe_layer_switches_and_returns() {
    let k = basic(30);
    assert_eq!(
        press(&k, SwipeAction::Layer(Side::Right, 3), Direction::Up),
        vec![kb(KeyMessage::Layer(Side::Right, 3)), UIMessage::UpdateLayout]
    );
    assert_eq!(repeat(&k, SwipeAction::Layer(Side::Right, 3), Direction::Up), vec![]);
    assert_eq!(
        release(SwipeAction::Layer(Side::Right, 3)),
        vec![kb(KeyMessage::Layer(Side::Right, 0)), UIMessage::UpdateLayout]
    );
}

#[test]
fn swipe_arrows_follow_direction() {
    let k = basic(30);
    for (dir, code) in [
        (Direction::Up, 103),
        (Direction::Right, 106),
        (Direction::Left, 105),
        (Direction::Down, 108),
    ] {
        let fired = vec![kb(KeyMessage::ButtonPress(code)), kb(KeyMessage::ButtonRelease(code))];
        assert_eq!(press(&k, SwipeAction::Arrow, dir), fired);
        assert_eq!(repeat(&k, SwipeAction::Arrow, dir), fired);
    }
    assert_eq!(release(SwipeAction::Arrow), vec![]);
}

#[test]
fn swipe_select_and_delete() {
    let k = basic(30);
    assert_eq!(press(&k, SwipeAction::Select, Direction::Left), shift_arrow(105));
    assert_eq!(repeat(&k, SwipeAction::Select, Direction::Right), shift_arrow(106));
    assert_eq!(release(SwipeAction::Select), vec![]);
    assert_eq!(press(&k, SwipeAction::Delete, Direction::Left), shift_arrow(105));
    assert_eq!(repeat(&k, SwipeAction::Delete, Direction::Left), shift_arrow(105));
    assert_eq!(
        release(SwipeAction::Delete),
        vec![kb(KeyMessage::ButtonPress(14)), kb(KeyMessage::ButtonRelease(14))]
    );
}

#[test]
fn swipe_scroll_follows_direction() {
    let k = basic(30);
    for (dir, msg) in [
        (Direction::Up, PointerMessage::ScrollUp),
        (Direction::Right, PointerMessage::ScrollRight),
        (Direction::Left, PointerMessage::ScrollLeft),
        (Direction::Down, PointerMessage::ScrollDown),
    ] {
        assert_eq!(press(&k, SwipeAction::Scroll, dir), vec![UIMessage::Pointer(msg)]);
        assert_eq!(repeat(&k, SwipeAction::Scroll, dir), vec![UIMessage::Pointer(msg)]);
    }
    assert_eq!(release(SwipeAction::Scroll), vec![]);
}

#[test]
fn swipe_command_and_hide() {
    let k = basic(30);
    let c = Command {
        cmd: "notify-send".to_string(),
        args: vec!["hello".to_string(), "world".to_string()],
        label: "N".to_string(),
    };
    assert_eq!(
        press(&k, SwipeAction::Command(c.clone()), Direction::Up),
        vec![UIMessage::Command(
            "notify-send".to_string(),
            vec!["hello".to_string(), "world".to_string()]
        )]
    );
    assert_eq!(repeat(&k, SwipeAction::Command(c.clone()), Direction::Up), vec![]);
    assert_eq!(release(SwipeAction::Command(c)), vec![]);
    assert_eq!(press(&k, SwipeAction::HideKeyboard, Direction::Down), vec![]);
    assert_eq!(release(SwipeAction::HideKeyboard), vec![UIMessage::HideKeyboard]);
}

#[test]
fn tap_presses_modifiers_then_key() {
    let mut k = basic(30);
    k.modifiers = vec![Modifier::Ctrl, Modifier::Alt];
    let mut h = KeyHandler::new(KeyDef::Basic(k));
    assert_eq!(
        h.handle(GestureEvent::TapPressed),
        vec![
            kb(KeyMessage::ModPress(29)),
            kb(KeyMessage::ModPress(56)),
            kb(KeyMessage::ButtonPress(30)),
        ]
    );
    assert_eq!(
        h.handle(GestureEvent::Released),
        vec![
            kb(KeyMessage::ButtonRelease(30)),
            kb(KeyMessage::ModRelease(29)),
            kb(KeyMessage::ModRelease(56)),
        ]
    );
}

#[test]
fn swipe_without_action_is_silent() {
    let mut h = KeyHandler::new(KeyDef::basic(30));
    assert_eq!(h.handle(GestureEvent::SwipePressed(Direction::Up)), vec![]);
    assert_eq!(h.handle(GestureEvent::SwipeRepeated(Direction::Up)), vec![]);
    assert_eq!(h.claim, SwipeClaim::Claimed(Some(Direction::Up)));
    assert_eq!(h.handle(GestureEvent::Released), vec![]);
    assert_eq!(h.claim, SwipeClaim::NotClaimed);
}

#[test]
fn swipe_without_direction_sends_no_release() {
    let mut k = basic(30);
    k.modifiers = vec![Modifier::Ctrl];
    let mut control = KeyControl::new(KeyDef::Basic(k), GestureConfig::new());
    control.begin();
    assert_eq!(control.moved(5, 5), vec![]);
    assert_eq!(control.handler.claim, SwipeClaim::Claimed(None));
    assert_eq!(control.end(), vec![]);
    control.begin();
    assert_eq!(
        control.end(),
        vec![
            kb(KeyMessage::ModPress(29)),
            kb(KeyMessage::ButtonPress(30)),
            kb(KeyMessage::ButtonRelease(30)),
            kb(KeyMessage::ModRelease(29)),
        ]
    );
}

#[test]
fn claim_swipe_keeps_a_direction_already_claimed() {
    let mut h = KeyHandler::new(KeyDef::basic(30));
    h.claim_swipe();
    assert_eq!(h.claim, SwipeClaim::Claimed(None));
    h.handle(GestureEvent::SwipePressed(Direction::Left));
    h.claim_swipe();
    assert_eq!(h.claim, SwipeClaim::Claimed(Some(Direction::Left)));
}

#[test]
fn repeat_in_another_direction_keeps_the_claim() {
    let mut k = basic(30);
    k.up = Some(SwipeAction::Layer(Side::Left, 2));
    k.right = Some(SwipeAction::Arrow);
    let layout = one_key_layout(k.clone(), 3);
    let mut board = Keyboard::new(layout);
    let mut h = KeyHandler::new(KeyDef::Basic(k));
    apply(&mut board, &h.handle(GestureEvent::SwipePressed(Direction::Up)));
    assert_eq!(board.layer, (2, 0));
    let sent = h.handle(GestureEvent::SwipeRepeated(Direction::Right));
    assert_eq!(sent, vec![kb(KeyMessage::ButtonPress(106)), kb(KeyMessage::ButtonRelease(106))]);
    apply(&mut board, &sent);
    assert_eq!(h.claim, SwipeClaim::Claimed(Some(Direction::Up)));
    apply(&mut board, &h.handle(GestureEvent::Released));
    assert_eq!(board.layer, (0, 0));
}

#[test]
fn release_runs_swipe_path_only() {
    let mut k = basic(30);
    k.left = Some(SwipeAction::Delete);
    let mut h = KeyHandler::new(KeyDef::Basic(k));
    h.handle(GestureEvent::SwipePressed(Direction::Left));
    assert_eq!(h.claim, SwipeClaim::Claimed(Some(Direction::Left)));
    assert_eq!(
        h.handle(GestureEvent::Released),
        vec![kb(KeyMessage::ButtonPress(14)), kb(KeyMessage::ButtonRelease(14))]
    );
    assert_eq!(h.claim, SwipeClaim::NotClaimed);
    assert_eq!(h.handle(GestureEvent::TapPressed), vec![kb(KeyMessage::ButtonPress(30))]);
    assert_eq!(h.handle(GestureEvent::Released), vec![kb(KeyMessage::ButtonRelease(30))]);
}

#[test]
fn layer_swipe_is_undone_on_release() {
    let mut k = basic(30);
    k.up = Some(SwipeAction::Layer(Side::Left, 2));
    let layout = one_key_layout(k.clone(), 3);
    assert_eq!(layout.validate(), Ok(()));
    let mut board = Keyboard::new(layout);
    let mut control = KeyControl::new(KeyDef::Basic(k), GestureConfig::new());
    control.begin();
    let sent = control.moved(0, -10);
    apply(&mut board, &sent);
    assert_eq!(board.layer, (2, 0));
    let sent = control.end();
    apply(&mut board, &sent);
    assert_eq!(board.layer, (0, 0));
}

#[test]
fn modifier_key_toggles() {
    let mut h = KeyHandler::new(KeyDef::basic(42));
    assert_eq!(h.handle(GestureEvent::TapPressed), vec![kb(KeyMessage::ModPress(42))]);
    assert_eq!(h.handle(GestureEvent::Released), vec![]);
    assert!(h.active);
    assert_eq!(h.handle(GestureEvent::TapPressed), vec![kb(KeyMessage::ModRelease(42))]);
    assert!(!h.active);
    assert_eq!(h.handle(GestureEvent::SwipePressed(Direction::Up)), vec![]);
}

#[test]
fn lock_key_toggles() {
    let mut h = KeyHandler::new(KeyDef::basic(58));
    assert_eq!(h.handle(GestureEvent::TapPressed), vec![kb(KeyMessage::LockPress(58))]);
    assert_eq!(h.handle(GestureEvent::TapPressed), vec![kb(KeyMessage::LockRelease(58))]);
}

#[test]
fn command_key_runs_on_release() {
    let c = Command { cmd: "foot".to_string(), args: vec![], label: "T".to_string() };
    let mut h = KeyHandler::new(KeyDef::Command(c));
    assert_eq!(h.handle(GestureEvent::TapPressed), vec![]);
    assert_eq!(
        h.handle(GestureEvent::Released),
        vec![UIMessage::Command("foot".to_string(), vec![])]
    );
}

#[test]
fn pointer_button_key() {
    let mut h = KeyHandler::new(KeyDef::PointerButton(PointerButton::Right));
    assert_eq!(
        h.handle(GestureEvent::TapPressed),
        vec![UIMessage::Pointer(PointerMessage::Press(PointerButton::Right))]
    );
    assert_eq!(
        h.handle(GestureEvent::Released),
        vec![UIMessage::Pointer(PointerMessage::Release(PointerButton::Right))]
    );
}

#[test]
fn pointer_key_moves_and_shows_pointer_layer() {
    let mut h = KeyHandler::new(KeyDef::Pointer);
    assert_eq!(
        h.handle(GestureEvent::FreeMove { dx: 3, dy: -1, x: 10, y: 8 }),
        vec![
            UIMessage::Pointer(PointerMessage::Move(13, -4)),
            kb(KeyMessage::MouseLayer(true)),
            UIMessage::UpdateLayout,
        ]
    );
    assert_eq!(h.handle(GestureEvent::TapPressed), vec![]);
    assert_eq!(
        h.handle(GestureEvent::Released),
        vec![kb(KeyMessage::MouseLayer(false)), UIMessage::UpdateLayout]
    );
}

#[test]
fn held_key_taps_and_releases() {
    let mut k = basic(30);
    k.label = Some("A".to_string());
    k.up = Some(SwipeAction::Modified(Modifier::Shift));
    let mut r = Recognizer::new(GestureConfig::new());
    let token = r.begin();
    assert_eq!(r.hold_elapsed(token), Some(GestureEvent::TapPressed));
    assert_eq!(r.end(), vec![GestureEvent::Released]);

    let mut control = KeyControl::new(KeyDef::Basic(k), GestureConfig::new());
    let token = control.begin();
    let sent = control.hold_elapsed(token);
    assert_eq!(sent, vec![kb(KeyMessage::ButtonPress(30))]);
    let sent = control.end();
    assert_eq!(sent, vec![kb(KeyMessage::ButtonRelease(30))]);
}

#[test]
fn swipe_up_fires_shifted_key() {
    let mut k = basic(30);
    k.label = Some("A".to_string());
    k.up = Some(SwipeAction::Modified(Modifier::Shift));
    let mut r = Recognizer::new(GestureConfig::new());
    r.begin();
    assert_eq!(
        r.moved(0, -10),
        vec![
            GestureEvent::FreeMove { dx: 0, dy: 10, x: 0, y: -10 },
            GestureEvent::SwipePressed(Direction::Up),
        ]
    );
    assert_eq!(r.end(), vec![GestureEvent::Released]);

    let mut control = KeyControl::new(KeyDef::Basic(k), GestureConfig::new());
    control.begin();
    let sent = control.moved(0, -10);
    assert_eq!(
        sent,
        vec![
            kb(KeyMessage::ModPress(42)),
            kb(KeyMessage::ButtonPress(30)),
            kb(KeyMessage::ButtonRelease(30)),
            kb(KeyMessage::ModRelease(42)),
        ]
    );
    assert_eq!(control.end(), vec![]);
}

#[test]
fn ui_message_from_conversions() {
    assert_eq!(UIMessage::from(KeyMessage::ButtonPress(3)), kb(KeyMessage::ButtonPress(3)));
    assert_eq!(
        UIMessage::from(PointerMessage::ScrollUp),
        UIMessage::Pointer(PointerMessage::ScrollUp)
    );
}
