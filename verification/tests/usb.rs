use hardware_password_manager::usb::{
    button_step, key_for_char, password_reports, ButtonAction, text_reports, KeyReport, KeyStroke, MyDeviceHandler,
    MODIFIER_ALTGR, MODIFIER_NONE, MODIFIER_SHIFT,
};

fn plain(keycode: u8) -> KeyStroke {
    KeyStroke { modifier: MODIFIER_NONE, keycode }
}

fn shifted(keycode: u8) -> KeyStroke {
    KeyStroke { modifier: MODIFIER_SHIFT, keycode }
}

fn altgr(keycode: u8) -> KeyStroke {
    KeyStroke { modifier: MODIFIER_ALTGR, keycode }
}

#[test]
fn letters_follow_the_german_layout() {
    assert_eq!(key_for_char('a'), Some(plain(0x04)));
    assert_eq!(key_for_char('x'), Some(plain(0x1B)));
    assert_eq!(key_for_char('y'), Some(plain(0x1D)));
    assert_eq!(key_for_char('z'), Some(plain(0x1C)));
    assert_eq!(key_for_char('A'), Some(shifted(0x04)));
    assert_eq!(key_for_char('Y'), Some(shifted(0x1D)));
    assert_eq!(key_for_char('Z'), Some(shifted(0x1C)));
}

#[test]
fn digits_and_symbols() {
    assert_eq!(key_for_char('1'), Some(plain(0x1E)));
    assert_eq!(key_for_char('9'), Some(plain(0x26)));
    assert_eq!(key_for_char('0'), Some(plain(0x27)));
    assert_eq!(key_for_char('!'), Some(shifted(0x1E)));
    assert_eq!(key_for_char('§'), Some(shifted(0x20)));
    assert_eq!(key_for_char('?'), Some(shifted(0x2D)));
    assert_eq!(key_for_char('ß'), Some(plain(0x2D)));
    assert_eq!(key_for_char('\\'), Some(altgr(0x2D)));
    assert_eq!(key_for_char('@'), Some(altgr(0x14)));
    assert_eq!(key_for_char('€'), Some(altgr(0x08)));
    assert_eq!(key_for_char('<'), Some(plain(0x64)));
    assert_eq!(key_for_char('>'), Some(shifted(0x64)));
    assert_eq!(key_for_char('|'), Some(altgr(0x64)));
    assert_eq!(key_for_char('ä'), Some(plain(0x34)));
    assert_eq!(key_for_char('Ü'), Some(shifted(0x2F)));
    assert_eq!(key_for_char(' '), Some(plain(0x2C)));
    assert_eq!(key_for_char('\n'), Some(plain(0x28)));
    assert_eq!(key_for_char('\t'), Some(plain(0x2B)));
    assert_eq!(key_for_char('\''), Some(shifted(0x31)));
    assert_eq!(key_for_char('"'), Some(shifted(0x1F)));
}

#[test]
fn untypable_characters() {
    assert_eq!(key_for_char('é'), None);
    assert_eq!(key_for_char('^'), None);
    assert_eq!(key_for_char('`'), None);
    assert_eq!(key_for_char('\r'), None);
}

#[test]
fn device_handler_tracks_configuration() {
    let mut h = MyDeviceHandler::new();
    assert!(!h.is_configured());
    h.configured(true);
    assert!(h.is_configured());
    h.addressed(5);
    assert!(!h.is_configured());
    h.configured(true);
    h.reset();
    assert!(!h.is_configured());
    h.configured(true);
    h.enabled(true);
    assert!(!h.is_configured());
    h.configured(true);
    h.configured(false);
    assert!(!h.is_configured());
}

#[test]
fn text_is_pressed_and_released_in_order() {
    let (reports, untypable) = text_reports("Hi @");
    assert_eq!(
        reports,
        vec![
            KeyReport::Press(shifted(0x0B)),
            KeyReport::Release,
            KeyReport::Press(plain(0x0C)),
            KeyReport::Release,
            KeyReport::Press(plain(0x2C)),
            KeyReport::Release,
            KeyReport::Press(altgr(0x14)),
            KeyReport::Release,
        ]
    );
    assert!(!untypable);
}

#[test]
fn typing_stops_at_first_untypable_character() {
    let (reports, untypable) = text_reports("ab\u{e9}cd");
    assert_eq!(
        reports,
        vec![
            KeyReport::Press(plain(0x04)),
            KeyReport::Release,
            KeyReport::Press(plain(0x05)),
            KeyReport::Release,
        ]
    );
    assert!(untypable);
    let (empty, none) = text_reports("");
    assert!(empty.is_empty());
    assert!(!none);
}

#[test]
fn entering_a_password_ends_with_enter() {
    let (reports, untypable) = password_reports("yz");
    assert_eq!(
        reports,
        vec![
            KeyReport::Press(plain(0x1D)),
            KeyReport::Release,
            KeyReport::Press(plain(0x1C)),
            KeyReport::Release,
            KeyReport::Press(plain(0x28)),
            KeyReport::Release,
        ]
    );
    assert!(!untypable);
}

#[test]
fn untypable_password_gets_no_enter() {
    let (reports, untypable) = password_reports("a^b");
    assert_eq!(reports, vec![KeyReport::Press(plain(0x04)), KeyReport::Release]);
    assert!(untypable);
}

#[test]
fn configured_only_after_last_configure() {
    let mut h = MyDeviceHandler::new();
    h.reset();
    h.addressed(3);
    h.configured(true);
    h.enabled(true);
    assert!(!h.is_configured());
    h.configured(true);
    assert!(h.is_configured());
}

#[test]
fn button_types_password_only_when_low() {
    assert_eq!(button_step(true), ButtonAction::TypePassword);
    assert_eq!(button_step(false), ButtonAction::Ignore);
}
