use kway::keyboard::{KeyMessage, KeyRequest, KeyType, Keyboard};
use kway::layout::{KeyDef, Layer, Layout, LayoutError, Side, SwipeAction};

fn layer_of(codes: &[u16]) -> Layer {
    Layer { layout: vec![codes.iter().map(|c| KeyDef::basic(*c)).collect()] }
}

fn layout(n_left: usize, n_right: usize) -> Layout {
    Layout {
        left: (0..n_left).map(|i| layer_of(&[30 + i as u16])).collect(),
        right: (0..n_right).map(|i| layer_of(&[40 + i as u16])).collect(),
    }
}

fn keyboard(n_left: usize, n_right: usize) -> Keyboard {
    let layout = layout(n_left, n_right);
    assert_eq!(layout.validate(), Ok(()));
    Keyboard::new(layout)
}

#[test]
fn key_types() {
    for code in [29, 97, 125, 126, 42, 54, 56, 100] {
        assert_eq!(KeyType::from(code), KeyType::Mod);
    }
    for code in [58, 69, 70] {
        assert_eq!(KeyType::from(code), KeyType::Lock);
    }
    for code in [0, 1, 14, 30, 103] {
        assert_eq!(KeyType::from(code), KeyType::Normal);
    }
}

#[test]
fn new_keyboard_is_on_default_layers() {
    let k = keyboard(2, 3);
    assert_eq!(k.layer, (0, 0));
    assert_eq!(k.modifiers, 0);
    assert_eq!(k.locks, 0);
    assert_eq!(k.left_layers().len(), 2);
    assert_eq!(k.right_layers().len(), 3);
}

#[test]
fn key_presses_are_forwarded_verbatim() {
    let mut k = keyboard(1, 1);
    assert_eq!(
        k.handle(KeyMessage::ButtonPress(30)),
        Some(KeyRequest::Key { code: 30, pressed: true })
    );
    assert_eq!(
        k.handle(KeyMessage::ButtonRelease(30)),
        Some(KeyRequest::Key { code: 30, pressed: false })
    );
    assert_eq!(k.modifiers, 0);
}

#[test]
fn modifier_bits() {
    for (code, bit) in [(29, 4), (97, 4), (125, 4), (126, 4), (42, 1), (54, 1), (56, 8), (100, 8), (30, 0)] {
        let mut k = keyboard(1, 1);
        assert_eq!(
            k.handle(KeyMessage::ModPress(code)),
            Some(KeyRequest::Modifiers { depressed: bit, locked: 0 })
        );
        assert_eq!(k.modifiers, bit);
    }
}

#[test]
fn lock_bits() {
    for (code, bit) in [(58, 2), (69, 256), (70, 32768), (42, 0)] {
        let mut k = keyboard(1, 1);
        assert_eq!(
            k.handle(KeyMessage::LockPress(code)),
            Some(KeyRequest::Modifiers { depressed: 0, locked: bit })
        );
        assert_eq!(k.locks, bit);
    }
}

#[test]
fn modifier_press_release_restores_mask() {
    let mut k = keyboard(1, 1);
    k.handle(KeyMessage::ModPress(56));
    let before = k.modifiers;
    k.handle(KeyMessage::ModPress(42));
    assert_eq!(k.modifiers, 9);
    k.handle(KeyMessage::ModRelease(42));
    assert_eq!(k.modifiers, before);
}

#[test]
fn releasing_unset_modifier_changes_nothing_but_is_forwarded() {
    let mut k = keyboard(1, 1);
    k.handle(KeyMessage::ModPress(56));
    assert_eq!(
        k.handle(KeyMessage::ModRelease(42)),
        Some(KeyRequest::Modifiers { depressed: 8, locked: 0 })
    );
    assert_eq!(k.modifiers, 8);
}

#[test]
fn adding_a_set_modifier_is_a_no_op_on_the_mask() {
    let mut k = keyboard(1, 1);
    k.handle(KeyMessage::ModPress(42));
    assert_eq!(
        k.handle(KeyMessage::ModPress(54)),
        Some(KeyRequest::Modifiers { depressed: 1, locked: 0 })
    );
    assert_eq!(k.modifiers, 1);
}

#[test]
fn control_and_meta_share_a_bit() {
    let mut k = keyboard(1, 1);
    k.handle(KeyMessage::ModPress(29));
    k.handle(KeyMessage::ModPress(125));
    assert_eq!(k.modifiers, 4);
    k.handle(KeyMessage::ModRelease(125));
    assert_eq!(k.modifiers, 0);
}

#[test]
fn lock_press_release_restores_mask() {
    let mut k = keyboard(1, 1);
    k.handle(KeyMessage::LockPress(69));
    k.handle(KeyMessage::LockPress(58));
    assert_eq!(k.locks, 258);
    assert_eq!(
        k.handle(KeyMessage::LockRelease(58)),
        Some(KeyRequest::Modifiers { depressed: 0, locked: 256 })
    );
    k.handle(KeyMessage::LockRelease(70));
    assert_eq!(k.locks, 256);
}

#[test]
fn layer_switches() {
    let mut k = keyboard(3, 2);
    assert_eq!(k.handle(KeyMessage::Layer(Side::Left, 2)), None);
    assert_eq!(k.layer, (2, 0));
    assert_eq!(k.handle(KeyMessage::Layer(Side::Right, 1)), None);
    assert_eq!(k.layer, (2, 1));
    let (left, right) = k.active_layers();
    assert_eq!(left.rows()[0].len(), 1);
    assert!(matches!(&left.rows()[0][0], KeyDef::Basic(b) if b.key == 32));
    assert!(matches!(&right.rows()[0][0], KeyDef::Basic(b) if b.key == 41));
}

#[test]
fn mouse_layer_is_the_last_left_layer() {
    let mut k = keyboard(4, 1);
    k.handle(KeyMessage::MouseLayer(true));
    assert_eq!(k.layer, (3, 0));
    k.handle(KeyMessage::MouseLayer(false));
    assert_eq!(k.layer, (0, 0));
}

#[test]
fn accepts_only_existing_layers() {
    let k = keyboard(2, 1);
    assert!(k.accepts(KeyMessage::Layer(Side::Left, 1)));
    assert!(!k.accepts(KeyMessage::Layer(Side::Left, 2)));
    assert!(!k.accepts(KeyMessage::Layer(Side::Right, 1)));
    assert!(k.accepts(KeyMessage::ButtonPress(30)));
}

#[test]
fn validate_rejects_empty_sides() {
    assert_eq!(layout(0, 1).validate(), Err(LayoutError::EmptySide(Side::Left)));
    assert_eq!(layout(0, 0).validate(), Err(LayoutError::EmptySide(Side::Left)));
    assert_eq!(layout(1, 0).validate(), Err(LayoutError::EmptySide(Side::Right)));
}

#[test]
fn validate_rejects_layer_out_of_range() {
    let mut l = layout(2, 1);
    if let KeyDef::Basic(b) = &mut l.right[0].layout[0][0] {
        b.up = Some(SwipeAction::Layer(Side::Left, 1));
    }
    assert_eq!(l.validate(), Ok(()));
    if let KeyDef::Basic(b) = &mut l.left[1].layout[0][0] {
        b.down = Some(SwipeAction::Layer(Side::Right, 1));
    }
    assert_eq!(l.validate(), Err(LayoutError::LayerOutOfRange));
}
