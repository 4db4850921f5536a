use term_editor::editor::input::{
    InputEvent, KeyCode, KeyEvent, KeyEventKind, KeyModifiers, ALT, CONTROL, HYPER, META,
    QUIT_KEY, QUIT_MODIFIERS, SHIFT, SUPER,
};

fn key(code: KeyCode, bits: u8) -> InputEvent {
    key_of_kind(code, bits, KeyEventKind::Press)
}

fn key_of_kind(code: KeyCode, bits: u8, kind: KeyEventKind) -> InputEvent {
    InputEvent::Key(KeyEvent {
        code,
        modifiers: KeyModifiers { bits },
        kind,
        state: 0,
    })
}

#[test]
fn quit_binding_is_control_q() {
    assert_eq!(QUIT_KEY, 'q');
    assert_eq!(QUIT_MODIFIERS, CONTROL);
}

#[test]
fn modifier_bits_are_distinct() {
    let bits = [SHIFT, CONTROL, ALT, SUPER, HYPER, META];
    for (i, a) in bits.iter().enumerate() {
        assert_eq!(a.count_ones(), 1);
        for b in &bits[i + 1..] {
            assert_ne!(a, b);
        }
    }
}

#[test]
fn control_q_quits() {
    assert!(key(KeyCode::Char('q'), CONTROL).is_quit());
}

#[test]
fn plain_q_does_not_quit() {
    assert!(!key(KeyCode::Char('q'), 0).is_quit());
}

#[test]
fn control_shift_q_does_not_quit() {
    assert!(!key(KeyCode::Char('q'), CONTROL | SHIFT).is_quit());
}

#[test]
fn control_with_any_other_modifier_does_not_quit() {
    for other in [SHIFT, ALT, SUPER, HYPER, META, 0x40, 0x80] {
        assert!(!key(KeyCode::Char('q'), CONTROL | other).is_quit());
        assert!(!key(KeyCode::Char('q'), other).is_quit());
    }
}

#[test]
fn control_with_another_key_does_not_quit() {
    assert!(!key(KeyCode::Char('a'), CONTROL).is_quit());
    assert!(!key(KeyCode::Char('Q'), CONTROL).is_quit());
    assert!(!key(KeyCode::Other, CONTROL).is_quit());
}

#[test]
fn every_kind_of_control_q_quits() {
    for kind in [
        KeyEventKind::Press,
        KeyEventKind::Repeat,
        KeyEventKind::Release,
    ] {
        assert!(key_of_kind(KeyCode::Char('q'), CONTROL, kind).is_quit());
    }
}

#[test]
fn keyboard_state_is_not_looked_at() {
    for state in [0u8, 1, 2, 4, 255] {
        let event = InputEvent::Key(KeyEvent {
            code: KeyCode::Char('q'),
            modifiers: KeyModifiers { bits: CONTROL },
            kind: KeyEventKind::Press,
            state,
        });
        assert!(event.is_quit());
    }
}

#[test]
fn other_events_do_not_quit() {
    assert!(!InputEvent::Other.is_quit());
}
