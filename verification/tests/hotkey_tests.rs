use whisper_freeflow::hotkey::{
    classify_token, handle_event, parse, EventOutcome, HotkeyError, HotkeyEvent, Key, KeyEvent,
    ListenerState, Token,
};

fn chars(s: &str) -> Vec<char> {
    s.chars().collect()
}

#[test]
fn parse_default_hotkey() {
    let d = parse("shift+space").unwrap();
    assert_eq!(d.modifiers, vec![Key::ShiftLeft]);
    assert_eq!(d.key, Key::Space);
}

#[test]
fn parse_readme_examples() {
    let d = parse("ctrl+alt+d").unwrap();
    assert_eq!(d.modifiers, vec![Key::ControlLeft, Key::Alt]);
    assert_eq!(d.key, Key::KeyD);

    let d = parse("right_alt+space").unwrap();
    assert_eq!(d.modifiers, vec![Key::AltGr]);
    assert_eq!(d.key, Key::Space);

    let d = parse("f9").unwrap();
    assert!(d.modifiers.is_empty());
    assert_eq!(d.key, Key::F9);
}

#[test]
fn parse_is_case_insensitive_and_trims() {
    let d = parse("  Shift +  SPACE ").unwrap();
    assert_eq!(d.modifiers, vec![Key::ShiftLeft]);
    assert_eq!(d.key, Key::Space);

    let d = parse("CMD+Win+7").unwrap();
    assert_eq!(d.modifiers, vec![Key::MetaLeft]);
    assert_eq!(d.key, Key::Num7);
}

#[test]
fn parse_right_hand_modifiers() {
    let d = parse("rshift+rctrl+ralt+x").unwrap();
    assert_eq!(d.modifiers, vec![Key::ShiftRight, Key::ControlRight, Key::AltGr]);
    assert_eq!(d.key, Key::KeyX);
}

#[test]
fn parse_right_hand_meta() {
    let d = parse("rcmd+space").unwrap();
    assert_eq!(d.modifiers, vec![Key::MetaRight]);
    assert_eq!(d.key, Key::Space);
    let d = parse("right_win+space").unwrap();
    assert_eq!(d.modifiers, vec![Key::MetaRight]);
    let d = parse("right_super+f9").unwrap();
    assert_eq!(d.modifiers, vec![Key::MetaRight]);
    assert_eq!(d.key, Key::F9);
    let d = parse("RMeta+Right_Cmd+rwin+rsuper+z").unwrap();
    assert_eq!(d.modifiers, vec![Key::MetaRight]);
    assert_eq!(d.key, Key::KeyZ);
}

#[test]
fn parse_case_and_spacing_do_not_matter() {
    for s in ["Shift + SPACE", "SHIFT+space", "  shift+ Space\t", "sHiFt +sPaCe"] {
        let d = parse(s).unwrap();
        assert_eq!(d.modifiers, vec![Key::ShiftLeft], "{s}");
        assert_eq!(d.key, Key::Space, "{s}");
    }
}

#[test]
fn parse_folds_case_of_non_ascii_tokens_too() {
    assert_eq!(
        parse("SHIFT+Élan").unwrap_err(),
        HotkeyError::UnknownKeyName("élan".to_string())
    );
    assert_eq!(parse("shift+élan").unwrap_err(), parse("Shift + ÉLAN").unwrap_err());
}

#[test]
fn parse_repeated_modifier_counts_once() {
    let d = parse("shift+lshift+left_shift+a").unwrap();
    assert_eq!(d.modifiers, vec![Key::ShiftLeft]);
    assert_eq!(d.key, Key::KeyA);
}

#[test]
fn parse_later_key_wins() {
    let d = parse("a+b").unwrap();
    assert_eq!(d.key, Key::KeyB);
}

#[test]
fn parse_modifiers_only_is_refused() {
    assert_eq!(
        parse("ctrl+shift").unwrap_err(),
        HotkeyError::MissingKey("ctrl+shift".to_string())
    );
}

#[test]
fn parse_unsupported_single_char() {
    assert_eq!(
        parse("shift+;").unwrap_err(),
        HotkeyError::UnsupportedKey(";".to_string())
    );
}

#[test]
fn parse_unknown_name() {
    assert_eq!(
        parse("shift+banana").unwrap_err(),
        HotkeyError::UnknownKeyName("banana".to_string())
    );
    // a non-ASCII character is more than one byte long: an unknown name
    assert_eq!(
        parse("é").unwrap_err(),
        HotkeyError::UnknownKeyName("é".to_string())
    );
}

#[test]
fn parse_empty_piece_is_unknown_name() {
    assert_eq!(
        parse("shift+").unwrap_err(),
        HotkeyError::UnknownKeyName(String::new())
    );
    assert_eq!(parse("").unwrap_err(), HotkeyError::UnknownKeyName(String::new()));
}

#[test]
fn parse_reports_first_bad_token() {
    assert_eq!(
        parse("foo+;").unwrap_err(),
        HotkeyError::UnknownKeyName("foo".to_string())
    );
}

#[test]
fn classify_named_keys() {
    assert_eq!(classify_token(&chars("enter")), Ok(Token::Main(Key::Return)));
    assert_eq!(classify_token(&chars("return")), Ok(Token::Main(Key::Return)));
    assert_eq!(classify_token(&chars("esc")), Ok(Token::Main(Key::Escape)));
    assert_eq!(classify_token(&chars("page_down")), Ok(Token::Main(Key::PageDown)));
    assert_eq!(classify_token(&chars("f12")), Ok(Token::Main(Key::F12)));
    assert_eq!(classify_token(&chars("altgr")), Ok(Token::Modifier(Key::AltGr)));
    assert_eq!(classify_token(&chars("control")), Ok(Token::Modifier(Key::ControlLeft)));
    assert_eq!(classify_token(&chars("Q")), Ok(Token::Main(Key::KeyQ)));
    assert_eq!(classify_token(&chars("0")), Ok(Token::Main(Key::Num0)));
    assert_eq!(
        classify_token(&chars("f13")),
        Err(HotkeyError::UnknownKeyName("f13".to_string()))
    );
}

fn run(events: &[KeyEvent], hotkey: &str) -> Vec<EventOutcome> {
    let hk = parse(hotkey).unwrap();
    let mut st = ListenerState::new();
    events.iter().map(|e| handle_event(*e, &hk, &mut st)).collect()
}

#[test]
fn press_and_release_hotkey() {
    let out = run(
        &[
            KeyEvent::Press(Key::ShiftLeft),
            KeyEvent::Press(Key::Space),
            KeyEvent::Press(Key::Space), // key repeat
            KeyEvent::Release(Key::Space),
            KeyEvent::Release(Key::ShiftLeft),
        ],
        "shift+space",
    );
    assert_eq!(out[0], EventOutcome { suppress: false, emit: None });
    assert_eq!(out[1], EventOutcome { suppress: true, emit: Some(HotkeyEvent::Pressed) });
    assert_eq!(out[2], EventOutcome { suppress: true, emit: None });
    assert_eq!(out[3], EventOutcome { suppress: true, emit: Some(HotkeyEvent::Released) });
    assert_eq!(out[4], EventOutcome { suppress: false, emit: None });
}

#[test]
fn releasing_modifier_releases_hotkey() {
    let out = run(
        &[
            KeyEvent::Press(Key::ShiftLeft),
            KeyEvent::Press(Key::Space),
            KeyEvent::Release(Key::ShiftLeft),
            KeyEvent::Release(Key::Space),
        ],
        "shift+space",
    );
    assert_eq!(out[2], EventOutcome { suppress: false, emit: Some(HotkeyEvent::Released) });
    // the space release is not suppressed any more: the hotkey was no longer engaged
    assert_eq!(out[3], EventOutcome { suppress: false, emit: None });
}

#[test]
fn space_without_modifier_passes_through() {
    let out = run(
        &[KeyEvent::Press(Key::Space), KeyEvent::Release(Key::Space), KeyEvent::Other],
        "shift+space",
    );
    for o in out {
        assert_eq!(o, EventOutcome { suppress: false, emit: None });
    }
}

#[test]
fn main_key_first_then_modifier_engages() {
    let out = run(
        &[KeyEvent::Press(Key::Space), KeyEvent::Press(Key::ShiftLeft)],
        "shift+space",
    );
    assert_eq!(out[0], EventOutcome { suppress: false, emit: None });
    // engaged by the modifier's press, which itself passes through
    assert_eq!(out[1], EventOutcome { suppress: false, emit: Some(HotkeyEvent::Pressed) });
}

#[test]
fn reports_alternate_over_a_long_sequence() {
    let mut evs = Vec::new();
    for _ in 0..5 {
        evs.push(KeyEvent::Press(Key::ControlLeft));
        evs.push(KeyEvent::Press(Key::KeyD));
        evs.push(KeyEvent::Press(Key::KeyD));
        evs.push(KeyEvent::Release(Key::KeyD));
        evs.push(KeyEvent::Release(Key::ControlLeft));
        evs.push(KeyEvent::Press(Key::Other));
    }
    let out = run(&evs, "ctrl+d");
    let reports: Vec<HotkeyEvent> = out.iter().filter_map(|o| o.emit).collect();
    assert_eq!(reports.len(), 10);
    for (i, r) in reports.iter().enumerate() {
        let expected = if i % 2 == 0 { HotkeyEvent::Pressed } else { HotkeyEvent::Released };
        assert_eq!(*r, expected);
    }
}

#[test]
fn single_key_hotkey() {
    let out = run(&[KeyEvent::Press(Key::F9), KeyEvent::Release(Key::F9)], "f9");
    assert_eq!(out[0], EventOutcome { suppress: true, emit: Some(HotkeyEvent::Pressed) });
    assert_eq!(out[1], EventOutcome { suppress: true, emit: Some(HotkeyEvent::Released) });
}

#[test]
fn listener_state_starts_idle() {
    let st = ListenerState::new();
    assert!(!st.active());
}
