use std::path::PathBuf;
use whisper_freeflow::autostart::{sync, AutostartAction, APP_NAME};
use whisper_freeflow::config::{default_language, locate, AppEntry, Config, ConfigError};
use whisper_freeflow::overlay::{
    overlay_origin, poll_overlay, rgba_to_bgra, wide, OverlayState, PollDecision,
};
use whisper_freeflow::recorder::{choose_input_device, usable_device_names, DeviceChoice};
use whisper_freeflow::text::{chars_equal_str, chars_of, is_whitespace_char, trim_chars};
use whisper_freeflow::transcriber::{
    assemble_text, download_progress, model_filename, model_url, pins_language,
};
use whisper_freeflow::tray::{
    mic_checks, model_catalog, model_checks, radio_checks, ControlEvent, MenuClick, TrayMenu,
};

#[test]
fn config_defaults_match_readme() {
    let c = Config::default();
    assert_eq!(c.hotkey, "shift+space");
    assert_eq!(c.whisper_model, "base.en-q5_1");
    assert_eq!(c.whisper_device, "cpu");
    assert_eq!(c.language, "en");
    assert!(c.autostart);
    assert_eq!(c.input_device, None);
    assert_eq!(default_language(), "en");
}

#[test]
fn data_paths_nest_under_app_dir() {
    let d = PathBuf::from("/home/u/.local/share");
    let app = locate(Some(d.clone()), AppEntry::AppDir).unwrap();
    assert_eq!(app.base, d);
    assert_eq!(app.segments, vec!["WhisperFreeFlow"]);
    let models = locate(Some(d.clone()), AppEntry::ModelsDir).unwrap();
    assert_eq!(models.base, d);
    assert_eq!(models.segments, vec!["WhisperFreeFlow", "models"]);
    let config = locate(Some(d.clone()), AppEntry::ConfigFile).unwrap();
    assert_eq!(config.base, d);
    assert_eq!(config.segments, vec!["WhisperFreeFlow", "config.json"]);
    assert_eq!(locate(None, AppEntry::ModelsDir).unwrap_err(), ConfigError::NoDataDir);
}

#[test]
fn autostart_decisions() {
    assert_eq!(sync(true, Some(false)), AutostartAction::Enable);
    // enabling always rewrites the entry, so a moved executable is picked up
    assert_eq!(sync(true, Some(true)), AutostartAction::Enable);
    assert_eq!(sync(true, None), AutostartAction::Enable);
    assert_eq!(sync(false, Some(true)), AutostartAction::Disable);
    assert_eq!(sync(false, Some(false)), AutostartAction::Keep);
    // an entry that could not be read counts as not registered
    assert_eq!(sync(false, None), AutostartAction::Keep);
    assert_eq!(APP_NAME, "Whisper FreeFlow");
}

#[test]
fn model_file_and_url() {
    assert_eq!(model_filename("base.en"), "ggml-base.en.bin");
    assert_eq!(model_filename("base.en-q5_1"), "ggml-base.en-q5_1.bin");
    assert_eq!(
        model_url("ggml-tiny.en.bin"),
        "https://huggingface.co/ggerganov/whisper.cpp/resolve/main/ggml-tiny.en.bin"
    );
}

#[test]
fn language_pinning() {
    assert!(pins_language("en"));
    assert!(pins_language("fr"));
    assert!(!pins_language("auto"));
    assert!(!pins_language(""));
    assert!(pins_language("Auto"));
}

#[test]
fn transcript_is_joined_and_trimmed() {
    let segs = vec![" Hello".to_string(), " world.".to_string(), "\n".to_string()];
    assert_eq!(assemble_text(&segs), "Hello world.");
    assert_eq!(assemble_text(&vec![]), "");
    assert_eq!(assemble_text(&vec!["  \t ".to_string()]), "");
    assert_eq!(assemble_text(&vec!["\u{3000}日本\u{a0}".to_string()]), "日本");
}

#[test]
fn download_progress_steps() {
    assert_eq!(download_progress(10, 0, 0), None);
    assert_eq!(download_progress(4, 100, 0), None);
    assert_eq!(download_progress(5, 100, 0), Some(5));
    assert_eq!(download_progress(9, 100, 5), None);
    assert_eq!(download_progress(12, 100, 5), Some(12));
    assert_eq!(download_progress(100, 100, 95), Some(100));
    assert_eq!(download_progress(150 * 1024 * 1024, 150 * 1024 * 1024, 95), Some(100));
}

#[test]
fn device_choice() {
    let names = vec![Some("Built-in".to_string()), None, Some("USB Mic".to_string()), Some("USB Mic".to_string())];
    assert_eq!(choose_input_device(&None, &names), DeviceChoice::SystemDefault);
    assert_eq!(choose_input_device(&Some("USB Mic".to_string()), &names), DeviceChoice::Named(2));
    assert_eq!(choose_input_device(&Some("Headset".to_string()), &names), DeviceChoice::Missing);
}

#[test]
fn unreadable_device_names_are_skipped() {
    let names = vec![Some("A".to_string()), None, Some("B".to_string())];
    assert_eq!(usable_device_names(names), vec!["A".to_string(), "B".to_string()]);
    assert!(usable_device_names(vec![None]).is_empty());
}

#[test]
fn overlay_poll_decisions() {
    assert_eq!(
        poll_overlay(OverlayState::Idle, false, OverlayState::Recording),
        PollDecision { changed: true, snap_to_bars: false, target_dots: Some(false), show: Some(true) }
    );
    assert_eq!(
        poll_overlay(OverlayState::Recording, true, OverlayState::Processing),
        PollDecision { changed: true, snap_to_bars: false, target_dots: Some(true), show: None }
    );
    assert_eq!(
        poll_overlay(OverlayState::Processing, true, OverlayState::Idle),
        PollDecision { changed: true, snap_to_bars: true, target_dots: Some(false), show: Some(false) }
    );
    assert_eq!(
        poll_overlay(OverlayState::NoMic, true, OverlayState::NoMic),
        PollDecision { changed: false, snap_to_bars: false, target_dots: None, show: None }
    );
}

#[test]
fn premultiplied_rgba_is_reordered_to_bgra() {
    // half-transparent red as a tiny-skia pixmap stores it (premultiplied)
    let rgba = [128u8, 0, 0, 128, 10, 20, 30, 255, 0, 0, 0, 0];
    let mut bgra = vec![7u8; 16];
    rgba_to_bgra(&rgba, &mut bgra, 3);
    assert_eq!(&bgra[0..4], &[0, 0, 128, 128]);
    assert_eq!(&bgra[4..8], &[30, 20, 10, 255]);
    assert_eq!(&bgra[8..12], &[0, 0, 0, 0]);
    assert_eq!(&bgra[12..16], &[7, 7, 7, 7]);
}

#[test]
fn wide_strings_are_nul_terminated_utf16() {
    assert_eq!(wide("Hi"), vec![0x48, 0x69, 0]);
    assert_eq!(wide(""), vec![0]);
    assert_eq!(wide("é😀"), vec![0xE9, 0xD83D, 0xDE00, 0]);
    let s = "Whisper FreeFlow — ok";
    let mut expected: Vec<u16> = s.encode_utf16().collect();
    expected.push(0);
    assert_eq!(wide(s), expected);
}

#[test]
fn overlay_position() {
    // 1920x1040 work area above a 40px taskbar: centred, 16px above it
    assert_eq!(overlay_origin(0, 1920, 1040), (890, 980));
    assert_eq!(overlay_origin(1920, 3840, 1080), (1920 + 890, 1020));
    // narrower than the pill: rounds towards zero like Rust's `/`
    assert_eq!(overlay_origin(0, 101, 100), (-19, 40));
}

#[test]
fn model_menu_rows() {
    let cat = model_catalog();
    let names: Vec<String> = cat.iter().map(|c| c.name.clone()).collect();
    assert_eq!(names, vec!["tiny.en", "base.en", "base.en-q5_1", "small.en", "medium.en"]);
    assert_eq!(cat[0].label, "Tiny.en — fastest (~75 MB)");
    assert_eq!(cat[4].label, "Medium.en — best, slowest (~1.5 GB)");
    let (checks, found) = model_checks("base.en-q5_1", &names);
    assert_eq!(checks, vec![false, false, true, false, false]);
    assert!(found);
    let (checks, found) = model_checks("large-v3", &names);
    assert_eq!(checks, vec![false; 5]);
    assert!(!found);
}

#[test]
fn mic_menu_rows() {
    let devs = vec!["Built-in".to_string(), "USB Mic".to_string()];
    let r = mic_checks(&None, &devs);
    assert_eq!(r.checks, vec![true, false, false]);
    assert!(r.saved_found);
    let r = mic_checks(&Some("USB Mic".to_string()), &devs);
    assert_eq!(r.checks, vec![false, false, true]);
    assert!(r.saved_found);
    let r = mic_checks(&Some("Headset".to_string()), &devs);
    assert_eq!(r.checks, vec![true, false, false]);
    assert!(!r.saved_found);
}

fn menu() -> TrayMenu {
    TrayMenu {
        quit_id: "q".to_string(),
        cancel_id: "c".to_string(),
        autostart_id: "a".to_string(),
        mic_ids: vec!["m0".to_string(), "m1".to_string()],
        mic_names: vec![None, Some("USB Mic".to_string())],
        model_ids: vec!["t".to_string(), "b".to_string()],
        model_names: vec!["tiny.en".to_string(), "base.en".to_string()],
    }
}

#[test]
fn menu_clicks_route() {
    let m = menu();
    assert_eq!(m.route_click(&"q".to_string()), MenuClick::Quit);
    assert_eq!(m.route_click(&"c".to_string()), MenuClick::Cancel);
    assert_eq!(m.route_click(&"a".to_string()), MenuClick::Autostart);
    assert_eq!(m.route_click(&"m1".to_string()), MenuClick::Mic(1));
    assert_eq!(m.route_click(&"b".to_string()), MenuClick::Model(1));
    assert_eq!(m.route_click(&"version".to_string()), MenuClick::Unknown);
}

#[test]
fn menu_clicks_send_controls() {
    let m = menu();
    assert_eq!(m.click_control(MenuClick::Cancel), Some(ControlEvent::CancelTranscription));
    assert_eq!(m.click_control(MenuClick::Mic(0)), Some(ControlEvent::SetInputDevice(None)));
    assert_eq!(
        m.click_control(MenuClick::Mic(1)),
        Some(ControlEvent::SetInputDevice(Some("USB Mic".to_string())))
    );
    assert_eq!(
        m.click_control(MenuClick::Model(0)),
        Some(ControlEvent::SwitchModel("tiny.en".to_string()))
    );
    assert_eq!(m.click_control(MenuClick::Quit), None);
    assert_eq!(m.click_control(MenuClick::Autostart), None);
    assert_eq!(m.click_control(MenuClick::Unknown), None);
}

#[test]
fn radio_ticks_only_the_picked_row() {
    let ids = vec!["x".to_string(), "y".to_string(), "z".to_string()];
    assert_eq!(radio_checks(&ids, 1), vec![false, true, false]);
    assert_eq!(radio_checks(&ids, 0), vec![true, false, false]);
}

#[test]
fn text_helpers() {
    assert_eq!(trim_chars(&chars_of("  a b \n")), vec!['a', ' ', 'b']);
    assert_eq!(trim_chars(&chars_of("\u{2003}\u{2028}")), Vec::<char>::new());
    assert!(chars_equal_str(&chars_of("space"), "space"));
    assert!(!chars_equal_str(&chars_of("spac"), "space"));
    assert!(is_whitespace_char('\u{85}'));
    assert!(!is_whitespace_char('\u{200b}'));
    for c in ['\t', '\n', ' ', '\u{a0}', '\u{1680}', '\u{2000}', '\u{205f}', '\u{3000}', 'x', '\u{200b}', '\u{feff}'] {
        assert_eq!(is_whitespace_char(c), c.is_whitespace());
    }
}

#[test]
fn whitespace_matches_std_for_every_char() {
    for u in 0..=0x10FFFFu32 {
        if let Some(c) = char::from_u32(u) {
            assert_eq!(is_whitespace_char(c), c.is_whitespace(), "U+{u:04X}");
        }
    }
}

#[test]
fn trim_matches_std() {
    let samples = [
        "", " ", "a", " a ", "\t\nshift \r\n", "\u{3000}x\u{3000}y\u{2029}", "\u{200b}z\u{200b}",
        "  +  ", "é ", "\u{85}\u{a0}",
    ];
    for s in samples {
        let got: String = trim_chars(&chars_of(s)).into_iter().collect();
        assert_eq!(got, s.trim(), "{s:?}");
    }
}
