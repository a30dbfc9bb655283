//! Hotkey strings (`mod+mod+...+key`) and the press/release state machine
//! that turns raw key events into hotkey presses and releases.

use vstd::prelude::*;
use crate::text::{chars_equal_str, chars_of, string_from_chars, trim_chars, trim_spec};
use vstd::string::*;

verus! {

/// A keyboard key as the listener sees it. `Other` stands for every key that
/// no hotkey string can name; such keys never take part in a hotkey.
#[derive(Debug, Clone, Copy, PartialEq, Eq, Structural)]
pub enum Key {
    ShiftLeft,
    ShiftRight,
    ControlLeft,
    ControlRight,
    Alt,
    AltGr,
    MetaLeft,
    MetaRight,
    Space,
    Tab,
    Return,
    Escape,
    Backspace,
    CapsLock,
    ScrollLock,
    Pause,
    Insert,
    Delete,
    Home,
    End,
    PageUp,
    PageDown,
    F1,
    F2,
    F3,
    F4,
    F5,
    F6,
    F7,
    F8,
    F9,
    F10,
    F11,
    F12,
    KeyA,
    KeyB,
    KeyC,
    KeyD,
    KeyE,
    KeyF,
    KeyG,
    KeyH,
    KeyI,
    KeyJ,
    KeyK,
    KeyL,
    KeyM,
    KeyN,
    KeyO,
    KeyP,
    KeyQ,
    KeyR,
    KeyS,
    KeyT,
    KeyU,
    KeyV,
    KeyW,
    KeyX,
    KeyY,
    KeyZ,
    Num0,
    Num1,
    Num2,
    Num3,
    Num4,
    Num5,
    Num6,
    Num7,
    Num8,
    Num9,
    Other,
}

/// The modifier a (trimmed, lower-cased) hotkey token names, if any.
pub open spec fn modifier_named(t: Seq<char>) -> Option<Key> {
    if t == "shift"@ || t == "lshift"@ || t == "left_shift"@ {
        Some(Key::ShiftLeft)
    } else if t == "rshift"@ || t == "right_shift"@ {
        Some(Key::ShiftRight)
    } else if t == "ctrl"@ || t == "control"@ || t == "lctrl"@ || t == "left_ctrl"@ {
        Some(Key::ControlLeft)
    } else if t == "rctrl"@ || t == "right_ctrl"@ {
        Some(Key::ControlRight)
    } else if t == "alt"@ {
        Some(Key::Alt)
    } else if t == "ralt"@ || t == "right_alt"@ || t == "altgr"@ {
        Some(Key::AltGr)
    } else if t == "cmd"@ || t == "win"@ || t == "super"@ || t == "meta"@ {
        Some(Key::MetaLeft)
    } else if t == "rcmd"@ || t == "right_cmd"@ || t == "rwin"@ || t == "right_win"@ || t
        == "rsuper"@ || t == "right_super"@ || t == "rmeta"@ || t == "right_meta"@ {
        Some(Key::MetaRight)
    } else {
        None
    }
}

/// The non-modifier key a multi-letter key name stands for, if any.
pub open spec fn key_named(t: Seq<char>) -> Option<Key> {
    if t == "space"@ {
        Some(Key::Space)
    } else if t == "tab"@ {
        Some(Key::Tab)
    } else if t == "enter"@ || t == "return"@ {
        Some(Key::Return)
    } else if t == "escape"@ || t == "esc"@ {
        Some(Key::Escape)
    } else if t == "backspace"@ {
        Some(Key::Backspace)
    } else if t == "capslock"@ || t == "caps_lock"@ {
        Some(Key::CapsLock)
    } else if t == "scrolllock"@ || t == "scroll_lock"@ {
        Some(Key::ScrollLock)
    } else if t == "pause"@ {
        Some(Key::Pause)
    } else if t == "insert"@ {
        Some(Key::Insert)
    } else if t == "delete"@ || t == "del"@ {
        Some(Key::Delete)
    } else if t == "home"@ {
        Some(Key::Home)
    } else if t == "end"@ {
        Some(Key::End)
    } else if t == "pageup"@ || t == "page_up"@ {
        Some(Key::PageUp)
    } else if t == "pagedown"@ || t == "page_down"@ {
        Some(Key::PageDown)
    } else if t == "f1"@ {
        Some(Key::F1)
    } else if t == "f2"@ {
        Some(Key::F2)
    } else if t == "f3"@ {
        Some(Key::F3)
    } else if t == "f4"@ {
        Some(Key::F4)
    } else if t == "f5"@ {
        Some(Key::F5)
    } else if t == "f6"@ {
        Some(Key::F6)
    } else if t == "f7"@ {
        Some(Key::F7)
    } else if t == "f8"@ {
        Some(Key::F8)
    } else if t == "f9"@ {
        Some(Key::F9)
    } else if t == "f10"@ {
        Some(Key::F10)
    } else if t == "f11"@ {
        Some(Key::F11)
    } else if t == "f12"@ {
        Some(Key::F12)
    } else {
        None
    }
}

/// The ASCII upper-case form of `c` (`char::to_ascii_uppercase`).
pub open spec fn ascii_upper(c: char) -> char {
    if 'a' <= c <= 'z' {
        ((c as u32) - 32) as char
    } else {
        c
    }
}

/// The letter or digit key that an upper-cased ASCII character names.
pub open spec fn key_for_char(c: char) -> Option<Key> {
    match c {
        'A' => Some(Key::KeyA),
        'B' => Some(Key::KeyB),
        'C' => Some(Key::KeyC),
        'D' => Some(Key::KeyD),
        'E' => Some(Key::KeyE),
        'F' => Some(Key::KeyF),
        'G' => Some(Key::KeyG),
        'H' => Some(Key::KeyH),
        'I' => Some(Key::KeyI),
        'J' => Some(Key::KeyJ),
        'K' => Some(Key::KeyK),
        'L' => Some(Key::KeyL),
        'M' => Some(Key::KeyM),
        'N' => Some(Key::KeyN),
        'O' => Some(Key::KeyO),
        'P' => Some(Key::KeyP),
        'Q' => Some(Key::KeyQ),
        'R' => Some(Key::KeyR),
        'S' => Some(Key::KeyS),
        'T' => Some(Key::KeyT),
        'U' => Some(Key::KeyU),
        'V' => Some(Key::KeyV),
        'W' => Some(Key::KeyW),
        'X' => Some(Key::KeyX),
        'Y' => Some(Key::KeyY),
        'Z' => Some(Key::KeyZ),
        '0' => Some(Key::Num0),
        '1' => Some(Key::Num1),
        '2' => Some(Key::Num2),
        '3' => Some(Key::Num3),
        '4' => Some(Key::Num4),
        '5' => Some(Key::Num5),
        '6' => Some(Key::Num6),
        '7' => Some(Key::Num7),
        '8' => Some(Key::Num8),
        '9' => Some(Key::Num9),
        _ => None,
    }
}

/// A name that is one byte long in UTF-8: a single ASCII character.
pub open spec fn is_single_byte(t: Seq<char>) -> bool {
    t.len() == 1 && (t[0] as u32) < 128
}

/// Why a hotkey string was refused.
#[derive(Debug, PartialEq, Eq)]
pub enum HotkeyError {
    /// The string names only modifiers; it holds the whole hotkey string.
    MissingKey(String),
    /// A one-character key that is neither a letter nor a digit.
    UnsupportedKey(String),
    /// A key name that is not known.
    UnknownKeyName(String),
}

/// What a `HotkeyError` says, over character sequences.
pub enum HotkeyErrorView {
    MissingKey(Seq<char>),
    UnsupportedKey(Seq<char>),
    UnknownKeyName(Seq<char>),
}

impl View for HotkeyError {
    type V = HotkeyErrorView;

    open spec fn view(&self) -> HotkeyErrorView {
        match self {
            HotkeyError::MissingKey(s) => HotkeyErrorView::MissingKey(s@),
            HotkeyError::UnsupportedKey(s) => HotkeyErrorView::UnsupportedKey(s@),
            HotkeyError::UnknownKeyName(s) => HotkeyErrorView::UnknownKeyName(s@),
        }
    }
}

/// The main key a (trimmed, lower-cased) non-modifier token names, or the
/// error that refuses it.
pub open spec fn main_key_spec(t: Seq<char>) -> Result<Key, HotkeyErrorView> {
    match key_named(t) {
        Some(k) => Ok(k),
        None => if is_single_byte(t) {
            match key_for_char(ascii_upper(t[0])) {
                Some(k) => Ok(k),
                None => Err(HotkeyErrorView::UnsupportedKey(t)),
            }
        } else {
            Err(HotkeyErrorView::UnknownKeyName(t))
        },
    }
}

fn char_key(c: char) -> (k: Option<Key>)
    ensures
        k == key_for_char(ascii_upper(c)),
{
    match c {
        'A' | 'a' => Some(Key::KeyA),
        'B' | 'b' => Some(Key::KeyB),
        'C' | 'c' => Some(Key::KeyC),
        'D' | 'd' => Some(Key::KeyD),
        'E' | 'e' => Some(Key::KeyE),
        'F' | 'f' => Some(Key::KeyF),
        'G' | 'g' => Some(Key::KeyG),
        'H' | 'h' => Some(Key::KeyH),
        'I' | 'i' => Some(Key::KeyI),
        'J' | 'j' => Some(Key::KeyJ),
        'K' | 'k' => Some(Key::KeyK),
        'L' | 'l' => Some(Key::KeyL),
        'M' | 'm' => Some(Key::KeyM),
        'N' | 'n' => Some(Key::KeyN),
        'O' | 'o' => Some(Key::KeyO),
        'P' | 'p' => Some(Key::KeyP),
        'Q' | 'q' => Some(Key::KeyQ),
        'R' | 'r' => Some(Key::KeyR),
        'S' | 's' => Some(Key::KeyS),
        'T' | 't' => Some(Key::KeyT),
        'U' | 'u' => Some(Key::KeyU),
        'V' | 'v' => Some(Key::KeyV),
        'W' | 'w' => Some(Key::KeyW),
        'X' | 'x' => Some(Key::KeyX),
        'Y' | 'y' => Some(Key::KeyY),
        'Z' | 'z' => Some(Key::KeyZ),
        '0' => Some(Key::Num0),
        '1' => Some(Key::Num1),
        '2' => Some(Key::Num2),
        '3' => Some(Key::Num3),
        '4' => Some(Key::Num4),
        '5' => Some(Key::Num5),
        '6' => Some(Key::Num6),
        '7' => Some(Key::Num7),
        '8' => Some(Key::Num8),
        '9' => Some(Key::Num9),
        _ => None,
    }
}

fn modifier_of(t: &Vec<char>) -> (k: Option<Key>)
    ensures
        k == modifier_named(t@),
{
    if chars_equal_str(t, "shift") || chars_equal_str(t, "lshift") || chars_equal_str(t, "left_shift") {
        Some(Key::ShiftLeft)
    } else if chars_equal_str(t, "rshift") || chars_equal_str(t, "right_shift") {
        Some(Key::ShiftRight)
    } else if chars_equal_str(t, "ctrl") || chars_equal_str(t, "control") || chars_equal_str(t, "lctrl") || chars_equal_str(t, "left_ctrl") {
        Some(Key::ControlLeft)
    } else if chars_equal_str(t, "rctrl") || chars_equal_str(t, "right_ctrl") {
        Some(Key::ControlRight)
    } else if chars_equal_str(t, "alt") {
        Some(Key::Alt)
    } else if chars_equal_str(t, "ralt") || chars_equal_str(t, "right_alt") || chars_equal_str(t, "altgr") {
        Some(Key::AltGr)
    } else if chars_equal_str(t, "cmd") || chars_equal_str(t, "win") || chars_equal_str(t, "super") || chars_equal_str(t, "meta") {
        Some(Key::MetaLeft)
    } else if chars_equal_str(t, "rcmd") || chars_equal_str(t, "right_cmd") || chars_equal_str(t, "rwin")
        || chars_equal_str(t, "right_win") || chars_equal_str(t, "rsuper") || chars_equal_str(
        t,
        "right_super",
    ) || chars_equal_str(t, "rmeta") || chars_equal_str(t, "right_meta") {
        Some(Key::MetaRight)
    } else {
        None
    }
}

fn named_key_of(t: &Vec<char>) -> (k: Option<Key>)
    ensures
        k == key_named(t@),
{
    if chars_equal_str(t, "space") {
        Some(Key::Space)
    } else if chars_equal_str(t, "tab") {
        Some(Key::Tab)
    } else if chars_equal_str(t, "enter") || chars_equal_str(t, "return") {
        Some(Key::Return)
    } else if chars_equal_str(t, "escape") || chars_equal_str(t, "esc") {
        Some(Key::Escape)
    } else if chars_equal_str(t, "backspace") {
        Some(Key::Backspace)
    } else if chars_equal_str(t, "capslock") || chars_equal_str(t, "caps_lock") {
        Some(Key::CapsLock)
    } else if chars_equal_str(t, "scrolllock") || chars_equal_str(t, "scroll_lock") {
        Some(Key::ScrollLock)
    } else if chars_equal_str(t, "pause") {
        Some(Key::Pause)
    } else if chars_equal_str(t, "insert") {
        Some(Key::Insert)
    } else if chars_equal_str(t, "delete") || chars_equal_str(t, "del") {
        Some(Key::Delete)
    } else if chars_equal_str(t, "home") {
        Some(Key::Home)
    } else if chars_equal_str(t, "end") {
        Some(Key::End)
    } else if chars_equal_str(t, "pageup") || chars_equal_str(t, "page_up") {
        Some(Key::PageUp)
    } else if chars_equal_str(t, "pagedown") || chars_equal_str(t, "page_down") {
        Some(Key::PageDown)
    } else if chars_equal_str(t, "f1") {
        Some(Key::F1)
    } else if chars_equal_str(t, "f2") {
        Some(Key::F2)
    } else if chars_equal_str(t, "f3") {
        Some(Key::F3)
    } else if chars_equal_str(t, "f4") {
        Some(Key::F4)
    } else if chars_equal_str(t, "f5") {
        Some(Key::F5)
    } else if chars_equal_str(t, "f6") {
        Some(Key::F6)
    } else if chars_equal_str(t, "f7") {
        Some(Key::F7)
    } else if chars_equal_str(t, "f8") {
        Some(Key::F8)
    } else if chars_equal_str(t, "f9") {
        Some(Key::F9)
    } else if chars_equal_str(t, "f10") {
        Some(Key::F10)
    } else if chars_equal_str(t, "f11") {
        Some(Key::F11)
    } else if chars_equal_str(t, "f12") {
        Some(Key::F12)
    } else {
        None
    }
}


/// What a hotkey token contributes: a modifier, or the main key.
#[derive(Debug, Clone, Copy, PartialEq, Eq, Structural)]
pub enum Token {
    Modifier(Key),
    Main(Key),
}

/// The meaning of a trimmed, lower-cased hotkey token.
pub open spec fn token_spec(t: Seq<char>) -> Result<Token, HotkeyErrorView> {
    match modifier_named(t) {
        Some(m) => Ok(Token::Modifier(m)),
        None => match main_key_spec(t) {
            Ok(k) => Ok(Token::Main(k)),
            Err(e) => Err(e),
        },
    }
}

/// Classifies one trimmed, lower-cased hotkey token: a modifier name, a key
/// name, a single letter or digit, or an error.
pub fn classify_token(t: &Vec<char>) -> (r: Result<Token, HotkeyError>)
    ensures
        match (r, token_spec(t@)) {
            (Ok(a), Ok(b)) => a == b,
            (Err(a), Err(b)) => a@ == b,
            _ => false,
        },
{
    if let Some(m) = modifier_of(t) {
        return Ok(Token::Modifier(m));
    }
    if let Some(k) = named_key_of(t) {
        return Ok(Token::Main(k));
    }
    if t.len() == 1 && (t[0] as u32) < 128 {
        match char_key(t[0]) {
            Some(k) => Ok(Token::Main(k)),
            None => Err(HotkeyError::UnsupportedKey(string_from_chars(t))),
        }
    } else {
        Err(HotkeyError::UnknownKeyName(string_from_chars(t)))
    }
}

/// Name for what std's `str::to_lowercase` returns on a string of the given
/// characters (the Unicode `Lowercase` mapping, context rules included).
pub uninterp spec fn lowercase_of(s: Seq<char>) -> Seq<char>;

/// The ASCII lower-case form of `c` (`char::to_ascii_lowercase`).
pub open spec fn ascii_lower(c: char) -> char {
    if 'A' <= c <= 'Z' {
        ((c as u32) + 32) as char
    } else {
        c
    }
}

/// Every character of `s` is ASCII.
pub open spec fn all_ascii(s: Seq<char>) -> bool {
    forall|i: int| 0 <= i < s.len() ==> (#[trigger] s[i] as u32) < 128
}

/// `s` with its ASCII upper-case letters made lower-case.
pub open spec fn ascii_lowercase(s: Seq<char>) -> Seq<char> {
    s.map_values(|c: char| ascii_lower(c))
}

/// Calls std's `str::to_lowercase` on the characters of `v`. The contract
/// claims that the result is a function of those characters, and what std
/// documents of its case mapping: it goes character by character, with upper-
/// and lower-case ASCII letters mapped alike (so folding the ASCII letters
/// first changes nothing), and on ASCII text it is ASCII case folding, one
/// character for one.
#[verifier::external_body]
fn lowercase_chars(v: &Vec<char>) -> (r: Vec<char>)
    ensures
        r@ == lowercase_of(v@),
        r@ == lowercase_of(ascii_lowercase(v@)),
        all_ascii(v@) ==> r@ == ascii_lowercase(v@),
{
    let s: String = v.iter().collect();
    s.to_lowercase().chars().collect()
}

/// ASCII case folding keeps text ASCII, and keeps other text non-ASCII.
proof fn lemma_ascii_fold_keeps_asciiness(t: Seq<char>)
    ensures
        all_ascii(ascii_lowercase(t)) == all_ascii(t),
{
    if all_ascii(t) {
        assert forall|i: int| 0 <= i < ascii_lowercase(t).len() implies (
        #[trigger] ascii_lowercase(t)[i] as u32) < 128 by {
            assert((t[i] as u32) < 128);
        }
    } else {
        let i = choose|i: int| 0 <= i < t.len() && !((#[trigger] t[i] as u32) < 128);
        assert(ascii_lowercase(t)[i] == t[i]);
    }
}

/// A raw token as the parser compares it: trimmed, then lower-cased. Its
/// ASCII letters are folded first, which changes nothing of the result;
/// ASCII text needs nothing more.
pub open spec fn normalize_token(raw: Seq<char>) -> Seq<char> {
    let f = ascii_lowercase(trim_spec(raw));
    if all_ascii(f) {
        f
    } else {
        lowercase_of(f)
    }
}

/// Lower-casing a trimmed token gives its normal form.
fn normalize_chars(raw: &Vec<char>) -> (r: Vec<char>)
    ensures
        r@ == normalize_token(raw@),
{
    let t = trim_chars(raw);
    let r = lowercase_chars(&t);
    proof {
        lemma_ascii_fold_keeps_asciiness(t@);
        if all_ascii(t@) {
            let f = ascii_lowercase(t@);
            assert(r@ == f);
        }
    }
    r
}

/// The pieces of `s` between occurrences of `sep`, as `str::split` yields
/// them: always at least one piece, empty pieces included.
pub open spec fn split_on(s: Seq<char>, sep: char) -> Seq<Seq<char>>
    decreases s.len(),
{
    if s.len() == 0 {
        seq![Seq::empty()]
    } else {
        let rest = split_on(s.drop_last(), sep);
        if s.last() == sep {
            rest.push(Seq::empty())
        } else {
            rest.update(rest.len() - 1, rest.last().push(s.last()))
        }
    }
}

proof fn lemma_split_nonempty(s: Seq<char>, sep: char)
    ensures
        split_on(s, sep).len() >= 1,
    decreases s.len(),
{
    if s.len() > 0 {
        lemma_split_nonempty(s.drop_last(), sep);
    }
}

/// The set of keys in a sequence.
pub open spec fn key_set(s: Seq<Key>) -> Set<Key> {
    Set::new(|k: Key| s.contains(k))
}

/// Modifiers and main key gathered from the raw tokens, left to right, or
/// the first token's error. A later main key replaces an earlier one.
pub open spec fn fold_tokens(toks: Seq<Seq<char>>) -> Result<(Set<Key>, Option<Key>), HotkeyErrorView>
    decreases toks.len(),
{
    if toks.len() == 0 {
        Ok((Set::empty(), None))
    } else {
        match fold_tokens(toks.drop_last()) {
            Err(e) => Err(e),
            Ok((m, k)) => match token_spec(normalize_token(toks.last())) {
                Err(e) => Err(e),
                Ok(Token::Modifier(x)) => Ok((m.insert(x), k)),
                Ok(Token::Main(x)) => Ok((m, Some(x))),
            },
        }
    }
}

/// What a hotkey string means: its modifier set and main key, or why it is
/// refused.
pub open spec fn parse_spec(s: Seq<char>) -> Result<(Set<Key>, Key), HotkeyErrorView> {
    match fold_tokens(split_on(s, '+')) {
        Err(e) => Err(e),
        Ok((m, None)) => Err(HotkeyErrorView::MissingKey(s)),
        Ok((m, Some(k))) => Ok((m, k)),
    }
}

/// A parsed hotkey: every modifier must be held together with `key`.
#[derive(Debug, PartialEq, Eq)]
pub struct HotkeyDef {
    pub modifiers: Vec<Key>,
    pub key: Key,
}

impl HotkeyDef {
    pub open spec fn modifier_set(&self) -> Set<Key> {
        key_set(self.modifiers@)
    }
}

fn contains_key(v: &Vec<Key>, k: Key) -> (b: bool)
    ensures
        b == v@.contains(k),
{
    let mut i: usize = 0;
    while i < v.len()
        invariant
            i <= v.len(),
            forall|j: int| 0 <= j < i ==> v@[j] != k,
        decreases v.len() - i,
    {
        if v[i] == k {
            return true;
        }
        i = i + 1;
    }
    false
}

/// Adds `t` to the modifiers gathered so far, or records it as the main key.
fn absorb(t: Token, mods: &mut Vec<Key>, key: &mut Option<Key>)
    requires
        old(mods)@.no_duplicates(),
    ensures
        final(mods)@.no_duplicates(),
        match t {
            Token::Modifier(x) => key_set(final(mods)@) == key_set(old(mods)@).insert(x)
                && *final(key) == *old(key),
            Token::Main(x) => final(mods)@ == old(mods)@ && *final(key) == Some(x),
        },
{
    match t {
        Token::Modifier(x) => {
            if !contains_key(mods, x) {
                mods.push(x);
                proof {
                    assert forall|k: Key| #[trigger] mods@.contains(k) == (old(mods)@.contains(k) || k == x) by {
                        if mods@.contains(k) {
                            let j = choose|j: int| 0 <= j < mods@.len() && mods@[j] == k;
                            if j < old(mods)@.len() {
                                assert(old(mods)@[j] == k);
                            }
                        }
                        if old(mods)@.contains(k) {
                            let j = choose|j: int| 0 <= j < old(mods)@.len() && old(mods)@[j] == k;
                            assert(mods@[j] == k);
                        }
                        assert(mods@[mods@.len() - 1] == x);
                    }
                }
            }
            assert(key_set(mods@) =~= key_set(old(mods)@).insert(x));
        },
        Token::Main(x) => {
            *key = Some(x);
        },
    }
}


proof fn lemma_split_prefix(s: Seq<char>, sep: char, i: int, j: int)
    requires
        0 <= i <= j <= s.len(),
    ensures
        split_on(s.take(i), sep).len() <= split_on(s.take(j), sep).len(),
        split_on(s.take(j), sep).subrange(0, split_on(s.take(i), sep).len() - 1)
            == split_on(s.take(i), sep).drop_last(),
    decreases j - i,
{
    lemma_split_nonempty(s.take(i), sep);
    if j > i {
        lemma_split_prefix(s, sep, i, j - 1);
        assert(s.take(j).drop_last() =~= s.take(j - 1));
        lemma_split_nonempty(s.take(j - 1), sep);
        let a = split_on(s.take(j - 1), sep);
        let b = split_on(s.take(j), sep);
        let l = split_on(s.take(i), sep).len() - 1;
        assert(b.subrange(0, l) =~= a.subrange(0, l));
    }
}

proof fn lemma_fold_error_prefix(p: Seq<Seq<char>>, t: Seq<Seq<char>>)
    requires
        fold_tokens(p) is Err,
        p.len() <= t.len(),
        t.subrange(0, p.len() as int) == p,
    ensures
        fold_tokens(t) == fold_tokens(p),
    decreases t.len() - p.len(),
{
    if t.len() > p.len() {
        let u = t.drop_last();
        assert(u.subrange(0, p.len() as int) =~= t.subrange(0, p.len() as int));
        lemma_fold_error_prefix(p, u);
    } else {
        assert(t =~= p);
    }
}

/// Parses `mod+mod+...+key`. Each `+`-separated token is trimmed and
/// lower-cased; modifiers may repeat, a later main key replaces an earlier
/// one, and the string must name a main key.
pub fn parse(s: &str) -> (r: Result<HotkeyDef, HotkeyError>)
    ensures
        match (r, parse_spec(s@)) {
            (Ok(d), Ok((m, k))) => d.modifier_set() == m && d.key == k
                && d.modifiers@.no_duplicates(),
            (Err(a), Err(b)) => a@ == b,
            _ => false,
        },
{
    let chars = chars_of(s);
    let n = chars.len();
    let mut mods: Vec<Key> = Vec::new();
    let mut key: Option<Key> = None;
    let mut cur: Vec<char> = Vec::new();
    let ghost mut done: Seq<Seq<char>> = Seq::empty();
    let mut i: usize = 0;
    assert(key_set(mods@) =~= Set::<Key>::empty());
    while i < n
        invariant
            n == chars.len(),
            chars@ == s@,
            i <= n,
            split_on(chars@.take(i as int), '+') == done.push(cur@),
            fold_tokens(done) == Ok::<(Set<Key>, Option<Key>), HotkeyErrorView>((key_set(mods@), key)),
            mods@.no_duplicates(),
        decreases n - i,
    {
        let c = chars[i];
        assert(chars@.take(i + 1).drop_last() =~= chars@.take(i as int));
        if c == '+' {
            let norm = normalize_chars(&cur);
            match classify_token(&norm) {
                Err(e) => {
                    proof {
                        assert(done.push(cur@).drop_last() =~= done);
                        assert(split_on(chars@.take(i + 1), '+') == done.push(cur@).push(Seq::empty()));
                        lemma_split_prefix(chars@, '+', i + 1, n as int);
                        assert(chars@.take(n as int) =~= s@);
                        assert(done.push(cur@).push(Seq::<char>::empty()).drop_last() =~= done.push(cur@));
                        lemma_fold_error_prefix(done.push(cur@), split_on(s@, '+'));
                    }
                    return Err(e);
                },
                Ok(t) => {
                    absorb(t, &mut mods, &mut key);
                },
            }
            proof {
                assert(done.push(cur@).drop_last() =~= done);
                done = done.push(cur@);
            }
            cur = Vec::new();
        } else {
            cur.push(c);
        }
        i = i + 1;
    }
    assert(chars@.take(n as int) =~= s@);
    let norm = normalize_chars(&cur);
    proof {
        assert(done.push(cur@).drop_last() =~= done);
    }
    match classify_token(&norm) {
        Err(e) => {
            return Err(e);
        },
        Ok(t) => {
            absorb(t, &mut mods, &mut key);
        },
    }
    match key {
        Some(k) => Ok(HotkeyDef { modifiers: mods, key: k }),
        None => Err(HotkeyError::MissingKey(String::from_str(s))),
    }
}


/// What the listener reports to the worker.
#[derive(Debug, Clone, Copy, PartialEq, Eq, Structural)]
pub enum HotkeyEvent {
    Pressed,
    Released,
}

/// A raw keyboard event, as the global hook delivers it.
#[derive(Debug, Clone, Copy, PartialEq, Eq, Structural)]
pub enum KeyEvent {
    Press(Key),
    Release(Key),
    /// Mouse movement, wheel, buttons: never part of a hotkey.
    Other,
}

/// The keys held right now, and whether the hotkey is engaged.
pub struct ListenerState {
    held: Vec<Key>,
    active: bool,
}

/// What the listener decided about one raw event.
#[derive(Debug, Clone, Copy, PartialEq, Eq, Structural)]
pub struct EventOutcome {
    /// The event is swallowed instead of reaching the focused application.
    pub suppress: bool,
    /// The hotkey event to report, if the event engaged or released it.
    pub emit: Option<HotkeyEvent>,
}

/// The hotkey is satisfied: its main key and all its modifiers are held.
pub open spec fn combo_spec(mods: Set<Key>, main: Key, held: Set<Key>) -> bool {
    held.contains(main) && mods.subset_of(held)
}

/// One step of the listener over (held set, engaged flag):
/// the next held set and flag, whether to suppress, and what to report.
pub open spec fn listener_step(
    mods: Set<Key>,
    main: Key,
    held: Set<Key>,
    active: bool,
    ev: KeyEvent,
) -> (Set<Key>, bool, bool, Option<HotkeyEvent>) {
    match ev {
        KeyEvent::Press(k) => {
            let h = held.insert(k);
            let engage = !active && combo_spec(mods, main, h);
            let a = active || engage;
            (h, a, a && k == main, if engage { Some(HotkeyEvent::Pressed) } else { None })
        },
        KeyEvent::Release(k) => {
            let h = held.remove(k);
            let release = active && (k == main || mods.contains(k));
            (
                h,
                active && !release,
                active && k == main,
                if release { Some(HotkeyEvent::Released) } else { None },
            )
        },
        KeyEvent::Other => (held, active, false, None),
    }
}

impl ListenerState {
    pub closed spec fn wf(&self) -> bool {
        self.held@.no_duplicates()
    }

    pub closed spec fn held_set(&self) -> Set<Key> {
        key_set(self.held@)
    }

    pub closed spec fn is_active(&self) -> bool {
        self.active
    }

    /// Nothing held, hotkey not engaged.
    pub fn new() -> (s: Self)
        ensures
            s.wf(),
            s.held_set() == Set::<Key>::empty(),
            !s.is_active(),
    {
        let s = ListenerState { held: Vec::new(), active: false };
        assert(key_set(s.held@) =~= Set::<Key>::empty());
        s
    }

    pub fn active(&self) -> (b: bool)
        ensures
            b == self.is_active(),
    {
        self.active
    }

    fn hold(&mut self, k: Key)
        requires
            old(self).wf(),
        ensures
            final(self).wf(),
            final(self).held_set() == old(self).held_set().insert(k),
            final(self).active == old(self).active,
    {
        let mut held = Vec::new();
        std::mem::swap(&mut held, &mut self.held);
        let mut key: Option<Key> = None;
        absorb(Token::Modifier(k), &mut held, &mut key);
        self.held = held;
    }

    fn release(&mut self, k: Key)
        requires
            old(self).wf(),
        ensures
            final(self).wf(),
            final(self).held_set() == old(self).held_set().remove(k),
            final(self).active == old(self).active,
    {
        let n = self.held.len();
        let mut i: usize = 0;
        while i < n
            invariant
                n == self.held.len(),
                self == old(self),
                self.held@.no_duplicates(),
                i <= n,
                forall|j: int| 0 <= j < i ==> self.held@[j] != k,
            decreases n - i,
        {
            if self.held[i] == k {
                let ghost before = self.held@;
                self.held.remove(i);
                proof {
                    assert(self.held@ == before.remove(i as int));
                    assert(before[i as int] == k);
                    assert forall|x: Key| #[trigger] self.held@.contains(x) == (before.contains(x) && x != k) by {
                        if self.held@.contains(x) {
                            let j = choose|j: int| 0 <= j < self.held@.len() && self.held@[j] == x;
                            if j < i {
                                assert(before[j] == x);
                            } else {
                                assert(before[j + 1] == x);
                            }
                            assert(x != k);
                        }
                        if before.contains(x) && x != k {
                            let j = choose|j: int| 0 <= j < before.len() && before[j] == x;
                            if j < i {
                                assert(self.held@[j] == x);
                            } else {
                                assert(j != i);
                                assert(self.held@[j - 1] == x);
                            }
                        }
                    }
                    assert(key_set(self.held@) =~= key_set(before).remove(k));
                    assert forall|a: int, b: int| 0 <= a < b < self.held@.len() implies self.held@[a] != self.held@[b] by {
                        let a2 = if a < i { a } else { a + 1 };
                        let b2 = if b < i { b } else { b + 1 };
                        assert(self.held@[a] == before[a2]);
                        assert(self.held@[b] == before[b2]);
                    }
                }
                return;
            }
            i = i + 1;
        }
        assert(key_set(self.held@) =~= key_set(old(self).held@).remove(k));
    }
}

/// The hotkey is satisfied by the keys held: main key and every modifier.
pub fn combo_satisfied(hk: &HotkeyDef, held: &Vec<Key>) -> (b: bool)
    ensures
        b == combo_spec(hk.modifier_set(), hk.key, key_set(held@)),
{
    if !contains_key(held, hk.key) {
        return false;
    }
    let mut i: usize = 0;
    while i < hk.modifiers.len()
        invariant
            i <= hk.modifiers.len(),
            forall|j: int| 0 <= j < i ==> held@.contains(#[trigger] hk.modifiers@[j]),
        decreases hk.modifiers.len() - i,
    {
        if !contains_key(held, hk.modifiers[i]) {
            assert(hk.modifier_set().contains(hk.modifiers@[i as int]));
            return false;
        }
        i = i + 1;
    }
    assert forall|m: Key| hk.modifier_set().contains(m) implies key_set(held@).contains(m) by {
        let j = choose|j: int| 0 <= j < hk.modifiers@.len() && hk.modifiers@[j] == m;
    }
    true
}

/// Feeds one raw event through the listener. A press that completes the
/// hotkey engages it and reports `Pressed`; releasing the main key or a
/// modifier while engaged reports `Released`. The main key's press is
/// swallowed while the hotkey is engaged, and so is the release that pairs
/// with it; modifiers always pass through.
pub fn handle_event(event: KeyEvent, hotkey: &HotkeyDef, state: &mut ListenerState) -> (r: EventOutcome)
    requires
        old(state).wf(),
    ensures
        final(state).wf(),
        (final(state).held_set(), final(state).is_active(), r.suppress, r.emit) == listener_step(
            hotkey.modifier_set(),
            hotkey.key,
            old(state).held_set(),
            old(state).is_active(),
            event,
        ),
        r.suppress ==> event == KeyEvent::Press(hotkey.key) || event == KeyEvent::Release(hotkey.key),
        r.emit == Some(HotkeyEvent::Pressed) <==> !old(state).is_active() && final(state).is_active(),
        r.emit == Some(HotkeyEvent::Released) <==> old(state).is_active()
            && !final(state).is_active(),
        r.emit is None <==> final(state).is_active() == old(state).is_active(),
        forall|k: Key|
            event == KeyEvent::Release(k) && k != hotkey.key && !hotkey.modifier_set().contains(k)
                ==> final(state).is_active() == old(state).is_active() && r.emit is None
                && !r.suppress,
{
    proof {
        law_report_iff_flag_flips(
            hotkey.modifier_set(),
            hotkey.key,
            old(state).held_set(),
            old(state).is_active(),
            event,
        );
    }
    match event {
        KeyEvent::Press(k) => {
            state.hold(k);
            let mut emit = None;
            if !state.active && combo_satisfied(hotkey, &state.held) {
                state.active = true;
                emit = Some(HotkeyEvent::Pressed);
            }
            EventOutcome { suppress: state.active && k == hotkey.key, emit }
        },
        KeyEvent::Release(k) => {
            state.release(k);
            let was_active = state.active;
            let is_main = k == hotkey.key;
            let is_mod = contains_key(&hotkey.modifiers, k);
            let mut emit = None;
            if state.active && (is_main || is_mod) {
                state.active = false;
                emit = Some(HotkeyEvent::Released);
            }
            EventOutcome { suppress: was_active && is_main, emit }
        },
        KeyEvent::Other => EventOutcome { suppress: false, emit: None },
    }
}


/// The keys that hotkey strings name as modifiers.
pub open spec fn is_modifier_key(k: Key) -> bool {
    k == Key::ShiftLeft || k == Key::ShiftRight || k == Key::ControlLeft || k
        == Key::ControlRight || k == Key::Alt || k == Key::AltGr || k == Key::MetaLeft || k
        == Key::MetaRight
}

proof fn lemma_token_kinds(t: Seq<char>)
    ensures
        token_spec(t) matches Ok(Token::Modifier(m)) ==> is_modifier_key(m),
        token_spec(t) matches Ok(Token::Main(k)) ==> !is_modifier_key(k) && k != Key::Other,
{
}

proof fn lemma_fold_kinds(toks: Seq<Seq<char>>)
    ensures
        fold_tokens(toks) matches Ok((m, k)) ==> (forall|x: Key| m.contains(x) ==> is_modifier_key(x))
            && (k matches Some(kk) ==> !is_modifier_key(kk) && kk != Key::Other),
    decreases toks.len(),
{
    if toks.len() > 0 {
        lemma_fold_kinds(toks.drop_last());
        lemma_token_kinds(normalize_token(toks.last()));
    }
}

/// A parsed hotkey's main key is never one of its modifiers, nor a key that
/// hotkey strings cannot name; its modifiers are all modifier keys.
pub proof fn law_parsed_keys_are_distinct(s: Seq<char>)
    ensures
        parse_spec(s) matches Ok((m, k)) ==> !m.contains(k) && !is_modifier_key(k) && k != Key::Other
            && forall|x: Key| m.contains(x) ==> is_modifier_key(x),
{
    lemma_fold_kinds(split_on(s, '+'));
}

/// The listener reports exactly when the engaged flag flips: `Pressed` when
/// it goes up, `Released` when it goes down, nothing otherwise.
pub proof fn law_report_iff_flag_flips(
    mods: Set<Key>,
    main: Key,
    held: Set<Key>,
    active: bool,
    ev: KeyEvent,
)
    ensures
        ({
            let (h, a, sup, emit) = listener_step(mods, main, held, active, ev);
            &&& (emit == Some(HotkeyEvent::Pressed) <==> (!active && a))
            &&& (emit == Some(HotkeyEvent::Released) <==> (active && !a))
            &&& (emit is None <==> a == active)
        }),
{
}

/// Only the main key's own press or release is ever swallowed; with a parsed
/// hotkey, modifier keys and every other key always pass through.
pub proof fn law_only_main_key_suppressed(
    s: Seq<char>,
    held: Set<Key>,
    active: bool,
    ev: KeyEvent,
)
    requires
        parse_spec(s) is Ok,
    ensures
        ({
            let (m, main) = parse_spec(s)->Ok_0;
            let (h, a, sup, emit) = listener_step(m, main, held, active, ev);
            sup ==> (ev == KeyEvent::Press(main) || ev == KeyEvent::Release(main))
        }),
        ({
            let (m, main) = parse_spec(s)->Ok_0;
            forall|k: Key|
                m.contains(k) ==> !listener_step(m, main, held, active, KeyEvent::Press(k)).2
                    && !listener_step(m, main, held, active, KeyEvent::Release(k)).2
        }),
{
    law_parsed_keys_are_distinct(s);
}

/// Releasing a key that is neither the main key nor one of the modifiers
/// changes nothing but the held set: an engaged hotkey stays engaged, nothing
/// is reported and the release passes through.
pub proof fn law_unrelated_release_keeps_hotkey(
    mods: Set<Key>,
    main: Key,
    held: Set<Key>,
    active: bool,
    k: Key,
)
    requires
        k != main,
        !mods.contains(k),
    ensures
        listener_step(mods, main, held, active, KeyEvent::Release(k)) == (
            held.remove(k),
            active,
            false,
            None::<HotkeyEvent>,
        ),
{
}

/// While the hotkey is engaged, releasing its main key or any of its
/// modifiers disengages it and reports `Released`; only the main key's
/// release is swallowed.
pub proof fn law_hotkey_release_disengages(
    mods: Set<Key>,
    main: Key,
    held: Set<Key>,
    k: Key,
)
    requires
        k == main || mods.contains(k),
    ensures
        listener_step(mods, main, held, true, KeyEvent::Release(k)) == (
            held.remove(k),
            false,
            k == main,
            Some(HotkeyEvent::Released),
        ),
{
}

/// A press engages a disengaged hotkey, reporting `Pressed`, exactly when
/// the main key and every modifier are then held; while engaged, further
/// presses report nothing and only the main key's press is swallowed.
pub proof fn law_press_engages_on_full_combo(
    mods: Set<Key>,
    main: Key,
    held: Set<Key>,
    active: bool,
    k: Key,
)
    ensures
        ({
            let now_held = held.insert(k);
            let full = now_held.contains(main) && (forall|m: Key| #[trigger] mods.contains(m) ==> now_held.contains(m));
            listener_step(mods, main, held, active, KeyEvent::Press(k)) == if active {
                (now_held, true, k == main, None::<HotkeyEvent>)
            } else if full {
                (now_held, true, k == main, Some(HotkeyEvent::Pressed))
            } else {
                (now_held, false, false, None::<HotkeyEvent>)
            }
        }),
{
}

/// The listener run over a sequence of raw events: final held set and flag,
/// and the hotkey events reported, in order.
pub open spec fn listener_run(
    mods: Set<Key>,
    main: Key,
    held: Set<Key>,
    active: bool,
    evs: Seq<KeyEvent>,
) -> (Set<Key>, bool, Seq<HotkeyEvent>)
    decreases evs.len(),
{
    if evs.len() == 0 {
        (held, active, Seq::empty())
    } else {
        let (h0, a0, out0) = listener_run(mods, main, held, active, evs.drop_last());
        let (h1, a1, sup, emit) = listener_step(mods, main, h0, a0, evs.last());
        (h1, a1, match emit {
            Some(e) => out0.push(e),
            None => out0,
        })
    }
}

/// From a disengaged start, reports alternate `Pressed`, `Released`,
/// `Pressed`, ...: never two presses without a release between them. The
/// hotkey is engaged at the end exactly when the last report was `Pressed`.
pub proof fn law_reports_alternate(
    mods: Set<Key>,
    main: Key,
    held: Set<Key>,
    evs: Seq<KeyEvent>,
)
    ensures
        ({
            let (h, a, out) = listener_run(mods, main, held, false, evs);
            &&& forall|i: int|
                0 <= i < out.len() ==> #[trigger] out[i] == (if i % 2 == 0 {
                    HotkeyEvent::Pressed
                } else {
                    HotkeyEvent::Released
                })
            &&& a == (out.len() % 2 == 1)
        }),
    decreases evs.len(),
{
    if evs.len() > 0 {
        law_reports_alternate(mods, main, held, evs.drop_last());
        let (h0, a0, out0) = listener_run(mods, main, held, false, evs.drop_last());
        law_report_iff_flag_flips(mods, main, h0, a0, evs.last());
    }
}


proof fn lemma_fold_same_tokens(a: Seq<Seq<char>>, b: Seq<Seq<char>>)
    requires
        a.len() == b.len(),
        forall|i: int| 0 <= i < a.len() ==> normalize_token(a[i]) == normalize_token(b[i]),
    ensures
        fold_tokens(a) == fold_tokens(b),
    decreases a.len(),
{
    if a.len() > 0 {
        lemma_fold_same_tokens(a.drop_last(), b.drop_last());
        assert(normalize_token(a.last()) == normalize_token(b[b.len() - 1]));
    }
}

/// A hotkey string means what its `+`-separated tokens mean once trimmed and
/// lower-cased: two strings whose tokens agree that way are accepted alike,
/// with the same modifiers and main key, and refused alike otherwise (a
/// refusal for a missing main key quotes each string as written).
pub proof fn law_parse_sees_only_normalized_tokens(s1: Seq<char>, s2: Seq<char>)
    requires
        split_on(s1, '+').len() == split_on(s2, '+').len(),
        forall|i: int|
            0 <= i < split_on(s1, '+').len() ==> normalize_token(#[trigger] split_on(s1, '+')[i])
                == normalize_token(split_on(s2, '+')[i]),
    ensures
        parse_spec(s1) is Ok <==> parse_spec(s2) is Ok,
        parse_spec(s1) is Ok ==> parse_spec(s1) == parse_spec(s2),
{
    lemma_fold_same_tokens(split_on(s1, '+'), split_on(s2, '+'));
}


/// Hotkeys are case-insensitive and ignore spacing around tokens: two
/// strings with the same number of `+`-separated tokens, whose tokens agree
/// once trimmed and their ASCII letters folded to one case, are accepted
/// alike with the same modifiers and main key, and refused alike otherwise.
pub proof fn law_parse_ignores_ascii_case_and_spacing(s1: Seq<char>, s2: Seq<char>)
    requires
        split_on(s1, '+').len() == split_on(s2, '+').len(),
        forall|i: int|
            0 <= i < split_on(s1, '+').len() ==> ascii_lowercase(
                trim_spec(#[trigger] split_on(s1, '+')[i]),
            ) == ascii_lowercase(trim_spec(split_on(s2, '+')[i])),
    ensures
        parse_spec(s1) is Ok <==> parse_spec(s2) is Ok,
        parse_spec(s1) is Ok ==> parse_spec(s1) == parse_spec(s2),
{
    assert forall|i: int| 0 <= i < split_on(s1, '+').len() implies normalize_token(
        #[trigger] split_on(s1, '+')[i],
    ) == normalize_token(split_on(s2, '+')[i]) by {}
    law_parse_sees_only_normalized_tokens(s1, s2);
}

} // verus!

verus! {

/// The key names a hotkey string may use, each with the key it names.
pub open spec fn key_name_table() -> Seq<(Seq<char>, Key)> {
    seq![
        ("space"@, Key::Space),
        ("tab"@, Key::Tab),
        ("enter"@, Key::Return),
        ("return"@, Key::Return),
        ("escape"@, Key::Escape),
        ("esc"@, Key::Escape),
        ("backspace"@, Key::Backspace),
        ("capslock"@, Key::CapsLock),
        ("caps_lock"@, Key::CapsLock),
        ("scrolllock"@, Key::ScrollLock),
        ("scroll_lock"@, Key::ScrollLock),
        ("pause"@, Key::Pause),
        ("insert"@, Key::Insert),
        ("delete"@, Key::Delete),
        ("del"@, Key::Delete),
        ("home"@, Key::Home),
        ("end"@, Key::End),
        ("pageup"@, Key::PageUp),
        ("page_up"@, Key::PageUp),
        ("pagedown"@, Key::PageDown),
        ("page_down"@, Key::PageDown),
        ("f1"@, Key::F1),
        ("f2"@, Key::F2),
        ("f3"@, Key::F3),
        ("f4"@, Key::F4),
        ("f5"@, Key::F5),
        ("f6"@, Key::F6),
        ("f7"@, Key::F7),
        ("f8"@, Key::F8),
        ("f9"@, Key::F9),
        ("f10"@, Key::F10),
        ("f11"@, Key::F11),
        ("f12"@, Key::F12),
    ]
}

/// The modifier names a hotkey string may use (with the `r`/`right_` and
/// `l`/`left_` forms), each with the modifier it names.
pub open spec fn modifier_name_table() -> Seq<(Seq<char>, Key)> {
    seq![
        ("shift"@, Key::ShiftLeft),
        ("lshift"@, Key::ShiftLeft),
        ("left_shift"@, Key::ShiftLeft),
        ("rshift"@, Key::ShiftRight),
        ("right_shift"@, Key::ShiftRight),
        ("ctrl"@, Key::ControlLeft),
        ("control"@, Key::ControlLeft),
        ("lctrl"@, Key::ControlLeft),
        ("left_ctrl"@, Key::ControlLeft),
        ("rctrl"@, Key::ControlRight),
        ("right_ctrl"@, Key::ControlRight),
        ("alt"@, Key::Alt),
        ("ralt"@, Key::AltGr),
        ("right_alt"@, Key::AltGr),
        ("altgr"@, Key::AltGr),
        ("cmd"@, Key::MetaLeft),
        ("win"@, Key::MetaLeft),
        ("super"@, Key::MetaLeft),
        ("meta"@, Key::MetaLeft),
        ("rcmd"@, Key::MetaRight),
        ("right_cmd"@, Key::MetaRight),
        ("rwin"@, Key::MetaRight),
        ("right_win"@, Key::MetaRight),
        ("rsuper"@, Key::MetaRight),
        ("right_super"@, Key::MetaRight),
        ("rmeta"@, Key::MetaRight),
        ("right_meta"@, Key::MetaRight),
    ]
}

/// The letters and digits, each with the key it names.
pub open spec fn char_key_table() -> Seq<(char, Key)> {
    seq![
        ('a', Key::KeyA),
        ('b', Key::KeyB),
        ('c', Key::KeyC),
        ('d', Key::KeyD),
        ('e', Key::KeyE),
        ('f', Key::KeyF),
        ('g', Key::KeyG),
        ('h', Key::KeyH),
        ('i', Key::KeyI),
        ('j', Key::KeyJ),
        ('k', Key::KeyK),
        ('l', Key::KeyL),
        ('m', Key::KeyM),
        ('n', Key::KeyN),
        ('o', Key::KeyO),
        ('p', Key::KeyP),
        ('q', Key::KeyQ),
        ('r', Key::KeyR),
        ('s', Key::KeyS),
        ('t', Key::KeyT),
        ('u', Key::KeyU),
        ('v', Key::KeyV),
        ('w', Key::KeyW),
        ('x', Key::KeyX),
        ('y', Key::KeyY),
        ('z', Key::KeyZ),
        ('0', Key::Num0),
        ('1', Key::Num1),
        ('2', Key::Num2),
        ('3', Key::Num3),
        ('4', Key::Num4),
        ('5', Key::Num5),
        ('6', Key::Num6),
        ('7', Key::Num7),
        ('8', Key::Num8),
        ('9', Key::Num9),
    ]
}

/// How each key and modifier name is spelled, letter by letter.
proof fn lemma_name_spellings()
    ensures
        "alt"@.len() == 3,
        "alt"@[0] == 'a',
        "alt"@[1] == 'l',
        "alt"@[2] == 't',
        "altgr"@.len() == 5,
        "altgr"@[0] == 'a',
        "altgr"@[1] == 'l',
        "altgr"@[2] == 't',
        "altgr"@[3] == 'g',
        "altgr"@[4] == 'r',
        "backspace"@.len() == 9,
        "backspace"@[0] == 'b',
        "backspace"@[1] == 'a',
        "backspace"@[2] == 'c',
        "backspace"@[3] == 'k',
        "backspace"@[4] == 's',
        "backspace"@[5] == 'p',
        "backspace"@[6] == 'a',
        "backspace"@[7] == 'c',
        "backspace"@[8] == 'e',
        "caps_lock"@.len() == 9,
        "caps_lock"@[0] == 'c',
        "caps_lock"@[1] == 'a',
        "caps_lock"@[2] == 'p',
        "caps_lock"@[3] == 's',
        "caps_lock"@[4] == '_',
        "caps_lock"@[5] == 'l',
        "caps_lock"@[6] == 'o',
        "caps_lock"@[7] == 'c',
        "caps_lock"@[8] == 'k',
        "capslock"@.len() == 8,
        "capslock"@[0] == 'c',
        "capslock"@[1] == 'a',
        "capslock"@[2] == 'p',
        "capslock"@[3] == 's',
        "capslock"@[4] == 'l',
        "capslock"@[5] == 'o',
        "capslock"@[6] == 'c',
        "capslock"@[7] == 'k',
        "cmd"@.len() == 3,
        "cmd"@[0] == 'c',
        "cmd"@[1] == 'm',
        "cmd"@[2] == 'd',
        "control"@.len() == 7,
        "control"@[0] == 'c',
        "control"@[1] == 'o',
        "control"@[2] == 'n',
        "control"@[3] == 't',
        "control"@[4] == 'r',
        "control"@[5] == 'o',
        "control"@[6] == 'l',
        "ctrl"@.len() == 4,
        "ctrl"@[0] == 'c',
        "ctrl"@[1] == 't',
        "ctrl"@[2] == 'r',
        "ctrl"@[3] == 'l',
        "del"@.len() == 3,
        "del"@[0] == 'd',
        "del"@[1] == 'e',
        "del"@[2] == 'l',
        "delete"@.len() == 6,
        "delete"@[0] == 'd',
        "delete"@[1] == 'e',
        "delete"@[2] == 'l',
        "delete"@[3] == 'e',
        "delete"@[4] == 't',
        "delete"@[5] == 'e',
        "end"@.len() == 3,
        "end"@[0] == 'e',
        "end"@[1] == 'n',
        "end"@[2] == 'd',
        "enter"@.len() == 5,
        "enter"@[0] == 'e',
        "enter"@[1] == 'n',
        "enter"@[2] == 't',
        "enter"@[3] == 'e',
        "enter"@[4] == 'r',
        "esc"@.len() == 3,
        "esc"@[0] == 'e',
        "esc"@[1] == 's',
        "esc"@[2] == 'c',
        "escape"@.len() == 6,
        "escape"@[0] == 'e',
        "escape"@[1] == 's',
        "escape"@[2] == 'c',
        "escape"@[3] == 'a',
        "escape"@[4] == 'p',
        "escape"@[5] == 'e',
        "f1"@.len() == 2,
        "f1"@[0] == 'f',
        "f1"@[1] == '1',
        "f10"@.len() == 3,
        "f10"@[0] == 'f',
        "f10"@[1] == '1',
        "f10"@[2] == '0',
        "f11"@.len() == 3,
        "f11"@[0] == 'f',
        "f11"@[1] == '1',
        "f11"@[2] == '1',
        "f12"@.len() == 3,
        "f12"@[0] == 'f',
        "f12"@[1] == '1',
        "f12"@[2] == '2',
        "f2"@.len() == 2,
        "f2"@[0] == 'f',
        "f2"@[1] == '2',
        "f3"@.len() == 2,
        "f3"@[0] == 'f',
        "f3"@[1] == '3',
        "f4"@.len() == 2,
        "f4"@[0] == 'f',
        "f4"@[1] == '4',
        "f5"@.len() == 2,
        "f5"@[0] == 'f',
        "f5"@[1] == '5',
        "f6"@.len() == 2,
        "f6"@[0] == 'f',
        "f6"@[1] == '6',
        "f7"@.len() == 2,
        "f7"@[0] == 'f',
        "f7"@[1] == '7',
        "f8"@.len() == 2,
        "f8"@[0] == 'f',
        "f8"@[1] == '8',
        "f9"@.len() == 2,
        "f9"@[0] == 'f',
        "f9"@[1] == '9',
        "home"@.len() == 4,
        "home"@[0] == 'h',
        "home"@[1] == 'o',
        "home"@[2] == 'm',
        "home"@[3] == 'e',
        "insert"@.len() == 6,
        "insert"@[0] == 'i',
        "insert"@[1] == 'n',
        "insert"@[2] == 's',
        "insert"@[3] == 'e',
        "insert"@[4] == 'r',
        "insert"@[5] == 't',
        "lctrl"@.len() == 5,
        "lctrl"@[0] == 'l',
        "lctrl"@[1] == 'c',
        "lctrl"@[2] == 't',
        "lctrl"@[3] == 'r',
        "lctrl"@[4] == 'l',
        "left_ctrl"@.len() == 9,
        "left_ctrl"@[0] == 'l',
        "left_ctrl"@[1] == 'e',
        "left_ctrl"@[2] == 'f',
        "left_ctrl"@[3] == 't',
        "left_ctrl"@[4] == '_',
        "left_ctrl"@[5] == 'c',
        "left_ctrl"@[6] == 't',
        "left_ctrl"@[7] == 'r',
        "left_ctrl"@[8] == 'l',
        "left_shift"@.len() == 10,
        "left_shift"@[0] == 'l',
        "left_shift"@[1] == 'e',
        "left_shift"@[2] == 'f',
        "left_shift"@[3] == 't',
        "left_shift"@[4] == '_',
        "left_shift"@[5] == 's',
        "left_shift"@[6] == 'h',
        "left_shift"@[7] == 'i',
        "left_shift"@[8] == 'f',
        "left_shift"@[9] == 't',
        "lshift"@.len() == 6,
        "lshift"@[0] == 'l',
        "lshift"@[1] == 's',
        "lshift"@[2] == 'h',
        "lshift"@[3] == 'i',
        "lshift"@[4] == 'f',
        "lshift"@[5] == 't',
        "meta"@.len() == 4,
        "meta"@[0] == 'm',
        "meta"@[1] == 'e',
        "meta"@[2] == 't',
        "meta"@[3] == 'a',
        "page_down"@.len() == 9,
        "page_down"@[0] == 'p',
        "page_down"@[1] == 'a',
        "page_down"@[2] == 'g',
        "page_down"@[3] == 'e',
        "page_down"@[4] == '_',
        "page_down"@[5] == 'd',
        "page_down"@[6] == 'o',
        "page_down"@[7] == 'w',
        "page_down"@[8] == 'n',
        "page_up"@.len() == 7,
        "page_up"@[0] == 'p',
        "page_up"@[1] == 'a',
        "page_up"@[2] == 'g',
        "page_up"@[3] == 'e',
        "page_up"@[4] == '_',
        "page_up"@[5] == 'u',
        "page_up"@[6] == 'p',
        "pagedown"@.len() == 8,
        "pagedown"@[0] == 'p',
        "pagedown"@[1] == 'a',
        "pagedown"@[2] == 'g',
        "pagedown"@[3] == 'e',
        "pagedown"@[4] == 'd',
        "pagedown"@[5] == 'o',
        "pagedown"@[6] == 'w',
        "pagedown"@[7] == 'n',
        "pageup"@.len() == 6,
        "pageup"@[0] == 'p',
        "pageup"@[1] == 'a',
        "pageup"@[2] == 'g',
        "pageup"@[3] == 'e',
        "pageup"@[4] == 'u',
        "pageup"@[5] == 'p',
        "pause"@.len() == 5,
        "pause"@[0] == 'p',
        "pause"@[1] == 'a',
        "pause"@[2] == 'u',
        "pause"@[3] == 's',
        "pause"@[4] == 'e',
        "ralt"@.len() == 4,
        "ralt"@[0] == 'r',
        "ralt"@[1] == 'a',
        "ralt"@[2] == 'l',
        "ralt"@[3] == 't',
        "rcmd"@.len() == 4,
        "rcmd"@[0] == 'r',
        "rcmd"@[1] == 'c',
        "rcmd"@[2] == 'm',
        "rcmd"@[3] == 'd',
        "rctrl"@.len() == 5,
        "rctrl"@[0] == 'r',
        "rctrl"@[1] == 'c',
        "rctrl"@[2] == 't',
        "rctrl"@[3] == 'r',
        "rctrl"@[4] == 'l',
        "return"@.len() == 6,
        "return"@[0] == 'r',
        "return"@[1] == 'e',
        "return"@[2] == 't',
        "return"@[3] == 'u',
        "return"@[4] == 'r',
        "return"@[5] == 'n',
        "right_alt"@.len() == 9,
        "right_alt"@[0] == 'r',
        "right_alt"@[1] == 'i',
        "right_alt"@[2] == 'g',
        "right_alt"@[3] == 'h',
        "right_alt"@[4] == 't',
        "right_alt"@[5] == '_',
        "right_alt"@[6] == 'a',
        "right_alt"@[7] == 'l',
        "right_alt"@[8] == 't',
        "right_cmd"@.len() == 9,
        "right_cmd"@[0] == 'r',
        "right_cmd"@[1] == 'i',
        "right_cmd"@[2] == 'g',
        "right_cmd"@[3] == 'h',
        "right_cmd"@[4] == 't',
        "right_cmd"@[5] == '_',
        "right_cmd"@[6] == 'c',
        "right_cmd"@[7] == 'm',
        "right_cmd"@[8] == 'd',
        "right_ctrl"@.len() == 10,
        "right_ctrl"@[0] == 'r',
        "right_ctrl"@[1] == 'i',
        "right_ctrl"@[2] == 'g',
        "right_ctrl"@[3] == 'h',
        "right_ctrl"@[4] == 't',
        "right_ctrl"@[5] == '_',
        "right_ctrl"@[6] == 'c',
        "right_ctrl"@[7] == 't',
        "right_ctrl"@[8] == 'r',
        "right_ctrl"@[9] == 'l',
        "right_meta"@.len() == 10,
        "right_meta"@[0] == 'r',
        "right_meta"@[1] == 'i',
        "right_meta"@[2] == 'g',
        "right_meta"@[3] == 'h',
        "right_meta"@[4] == 't',
        "right_meta"@[5] == '_',
        "right_meta"@[6] == 'm',
        "right_meta"@[7] == 'e',
        "right_meta"@[8] == 't',
        "right_meta"@[9] == 'a',
        "right_shift"@.len() == 11,
        "right_shift"@[0] == 'r',
        "right_shift"@[1] == 'i',
        "right_shift"@[2] == 'g',
        "right_shift"@[3] == 'h',
        "right_shift"@[4] == 't',
        "right_shift"@[5] == '_',
        "right_shift"@[6] == 's',
        "right_shift"@[7] == 'h',
        "right_shift"@[8] == 'i',
        "right_shift"@[9] == 'f',
        "right_shift"@[10] == 't',
        "right_super"@.len() == 11,
        "right_super"@[0] == 'r',
        "right_super"@[1] == 'i',
        "right_super"@[2] == 'g',
        "right_super"@[3] == 'h',
        "right_super"@[4] == 't',
        "right_super"@[5] == '_',
        "right_super"@[6] == 's',
        "right_super"@[7] == 'u',
        "right_super"@[8] == 'p',
        "right_super"@[9] == 'e',
        "right_super"@[10] == 'r',
        "right_win"@.len() == 9,
        "right_win"@[0] == 'r',
        "right_win"@[1] == 'i',
        "right_win"@[2] == 'g',
        "right_win"@[3] == 'h',
        "right_win"@[4] == 't',
        "right_win"@[5] == '_',
        "right_win"@[6] == 'w',
        "right_win"@[7] == 'i',
        "right_win"@[8] == 'n',
        "rmeta"@.len() == 5,
        "rmeta"@[0] == 'r',
        "rmeta"@[1] == 'm',
        "rmeta"@[2] == 'e',
        "rmeta"@[3] == 't',
        "rmeta"@[4] == 'a',
        "rshift"@.len() == 6,
        "rshift"@[0] == 'r',
        "rshift"@[1] == 's',
        "rshift"@[2] == 'h',
        "rshift"@[3] == 'i',
        "rshift"@[4] == 'f',
        "rshift"@[5] == 't',
        "rsuper"@.len() == 6,
        "rsuper"@[0] == 'r',
        "rsuper"@[1] == 's',
        "rsuper"@[2] == 'u',
        "rsuper"@[3] == 'p',
        "rsuper"@[4] == 'e',
        "rsuper"@[5] == 'r',
        "rwin"@.len() == 4,
        "rwin"@[0] == 'r',
        "rwin"@[1] == 'w',
        "rwin"@[2] == 'i',
        "rwin"@[3] == 'n',
        "scroll_lock"@.len() == 11,
        "scroll_lock"@[0] == 's',
        "scroll_lock"@[1] == 'c',
        "scroll_lock"@[2] == 'r',
        "scroll_lock"@[3] == 'o',
        "scroll_lock"@[4] == 'l',
        "scroll_lock"@[5] == 'l',
        "scroll_lock"@[6] == '_',
        "scroll_lock"@[7] == 'l',
        "scroll_lock"@[8] == 'o',
        "scroll_lock"@[9] == 'c',
        "scroll_lock"@[10] == 'k',
        "scrolllock"@.len() == 10,
        "scrolllock"@[0] == 's',
        "scrolllock"@[1] == 'c',
        "scrolllock"@[2] == 'r',
        "scrolllock"@[3] == 'o',
        "scrolllock"@[4] == 'l',
        "scrolllock"@[5] == 'l',
        "scrolllock"@[6] == 'l',
        "scrolllock"@[7] == 'o',
        "scrolllock"@[8] == 'c',
        "scrolllock"@[9] == 'k',
        "shift"@.len() == 5,
        "shift"@[0] == 's',
        "shift"@[1] == 'h',
        "shift"@[2] == 'i',
        "shift"@[3] == 'f',
        "shift"@[4] == 't',
        "space"@.len() == 5,
        "space"@[0] == 's',
        "space"@[1] == 'p',
        "space"@[2] == 'a',
        "space"@[3] == 'c',
        "space"@[4] == 'e',
        "super"@.len() == 5,
        "super"@[0] == 's',
        "super"@[1] == 'u',
        "super"@[2] == 'p',
        "super"@[3] == 'e',
        "super"@[4] == 'r',
        "tab"@.len() == 3,
        "tab"@[0] == 't',
        "tab"@[1] == 'a',
        "tab"@[2] == 'b',
        "win"@.len() == 3,
        "win"@[0] == 'w',
        "win"@[1] == 'i',
        "win"@[2] == 'n',
{
    reveal_strlit("alt");
    reveal_strlit("altgr");
    reveal_strlit("backspace");
    reveal_strlit("caps_lock");
    reveal_strlit("capslock");
    reveal_strlit("cmd");
    reveal_strlit("control");
    reveal_strlit("ctrl");
    reveal_strlit("del");
    reveal_strlit("delete");
    reveal_strlit("end");
    reveal_strlit("enter");
    reveal_strlit("esc");
    reveal_strlit("escape");
    reveal_strlit("f1");
    reveal_strlit("f10");
    reveal_strlit("f11");
    reveal_strlit("f12");
    reveal_strlit("f2");
    reveal_strlit("f3");
    reveal_strlit("f4");
    reveal_strlit("f5");
    reveal_strlit("f6");
    reveal_strlit("f7");
    reveal_strlit("f8");
    reveal_strlit("f9");
    reveal_strlit("home");
    reveal_strlit("insert");
    reveal_strlit("lctrl");
    reveal_strlit("left_ctrl");
    reveal_strlit("left_shift");
    reveal_strlit("lshift");
    reveal_strlit("meta");
    reveal_strlit("page_down");
    reveal_strlit("page_up");
    reveal_strlit("pagedown");
    reveal_strlit("pageup");
    reveal_strlit("pause");
    reveal_strlit("ralt");
    reveal_strlit("rcmd");
    reveal_strlit("rctrl");
    reveal_strlit("return");
    reveal_strlit("right_alt");
    reveal_strlit("right_cmd");
    reveal_strlit("right_ctrl");
    reveal_strlit("right_meta");
    reveal_strlit("right_shift");
    reveal_strlit("right_super");
    reveal_strlit("right_win");
    reveal_strlit("rmeta");
    reveal_strlit("rshift");
    reveal_strlit("rsuper");
    reveal_strlit("rwin");
    reveal_strlit("scroll_lock");
    reveal_strlit("scrolllock");
    reveal_strlit("shift");
    reveal_strlit("space");
    reveal_strlit("super");
    reveal_strlit("tab");
    reveal_strlit("win");
}

/// Every key name is read as the key of that name.
pub proof fn law_key_names_name_their_keys(i: int)
    requires
        0 <= i < key_name_table().len(),
    ensures
        token_spec(key_name_table()[i].0) == Ok::<Token, HotkeyErrorView>(
            Token::Main(key_name_table()[i].1),
        ),
{
    lemma_name_spellings();
}

/// Every modifier name is read as the modifier of that name.
pub proof fn law_modifier_names_name_their_modifiers(i: int)
    requires
        0 <= i < modifier_name_table().len(),
    ensures
        token_spec(modifier_name_table()[i].0) == Ok::<Token, HotkeyErrorView>(
            Token::Modifier(modifier_name_table()[i].1),
        ),
{
    lemma_name_spellings();
}

/// A letter or a digit, in either case, is read as the key of that letter or
/// digit.
pub proof fn law_letters_and_digits_name_their_keys(i: int)
    requires
        0 <= i < char_key_table().len(),
    ensures
        token_spec(seq![char_key_table()[i].0]) == Ok::<Token, HotkeyErrorView>(
            Token::Main(char_key_table()[i].1),
        ),
        token_spec(seq![ascii_upper(char_key_table()[i].0)]) == Ok::<Token, HotkeyErrorView>(
            Token::Main(char_key_table()[i].1),
        ),
{
    lemma_name_spellings();
}

proof fn lemma_fold_keeps_modifiers(toks: Seq<Seq<char>>, j: int, x: Key)
    requires
        0 <= j < toks.len(),
        fold_tokens(toks) is Ok,
        token_spec(normalize_token(toks[j])) == Ok::<Token, HotkeyErrorView>(Token::Modifier(x)),
    ensures
        fold_tokens(toks)->Ok_0.0.contains(x),
    decreases toks.len(),
{
    if j < toks.len() - 1 {
        assert(toks.drop_last()[j] == toks[j]);
        lemma_fold_keeps_modifiers(toks.drop_last(), j, x);
    }
}

/// A hotkey whose last `+`-separated token is, once trimmed and lower-cased,
/// a key name has the key of that name as its main key: it is
/// accepted exactly when the tokens before it are, and then with the
/// modifiers they name.
pub proof fn law_last_key_name_is_the_main_key(s: Seq<char>, i: int)
    requires
        0 <= i < key_name_table().len(),
        normalize_token(split_on(s, '+').last()) == key_name_table()[i].0,
    ensures
        parse_spec(s) is Ok <==> fold_tokens(split_on(s, '+').drop_last()) is Ok,
        parse_spec(s) is Ok ==> parse_spec(s)->Ok_0.1 == key_name_table()[i].1,
        parse_spec(s) is Ok ==> parse_spec(s)->Ok_0.0 == fold_tokens(
            split_on(s, '+').drop_last(),
        )->Ok_0.0,
{
    lemma_split_nonempty(s, '+');
    law_key_names_name_their_keys(i);
}

/// A hotkey whose last `+`-separated token is, once trimmed, a single letter
/// or digit in either case has the key of that letter or digit as its main
/// key: it is accepted exactly when the tokens before it are.
pub proof fn law_last_letter_is_the_main_key(s: Seq<char>, i: int)
    requires
        0 <= i < char_key_table().len(),
        trim_spec(split_on(s, '+').last()) == seq![char_key_table()[i].0] || trim_spec(
            split_on(s, '+').last(),
        ) == seq![ascii_upper(char_key_table()[i].0)],
    ensures
        parse_spec(s) is Ok <==> fold_tokens(split_on(s, '+').drop_last()) is Ok,
        parse_spec(s) is Ok ==> parse_spec(s)->Ok_0.1 == char_key_table()[i].1,
{
    lemma_split_nonempty(s, '+');
    law_letters_and_digits_name_their_keys(i);
    let t = trim_spec(split_on(s, '+').last());
    assert(all_ascii(t));
    assert(ascii_lowercase(t) =~= seq![char_key_table()[i].0]);
}

/// Every modifier that a token of an accepted hotkey names, in any case and
/// spacing, is one of the modifiers that must be held.
pub proof fn law_named_modifiers_are_required(s: Seq<char>, j: int, i: int)
    requires
        0 <= j < split_on(s, '+').len(),
        0 <= i < modifier_name_table().len(),
        normalize_token(split_on(s, '+')[j]) == modifier_name_table()[i].0,
        parse_spec(s) is Ok,
    ensures
        parse_spec(s)->Ok_0.0.contains(modifier_name_table()[i].1),
{
    law_modifier_names_name_their_modifiers(i);
    lemma_fold_keeps_modifiers(split_on(s, '+'), j, modifier_name_table()[i].1);
}

/// A token that is no modifier or key name is refused: quoted as
/// an unsupported key when it is a single ASCII character other than a
/// letter or digit, and as an unknown key name when it is longer, empty or
/// not ASCII.
pub proof fn law_unknown_tokens_are_refused(t: Seq<char>)
    requires
        forall|i: int| 0 <= i < modifier_name_table().len() ==> #[trigger] modifier_name_table()[i].0 != t,
        forall|i: int| 0 <= i < key_name_table().len() ==> #[trigger] key_name_table()[i].0 != t,
        forall|i: int|
            0 <= i < char_key_table().len() ==> seq![#[trigger] char_key_table()[i].0] != t
                && seq![ascii_upper(char_key_table()[i].0)] != t,
    ensures
        token_spec(t) == if is_single_byte(t) {
            Err::<Token, HotkeyErrorView>(HotkeyErrorView::UnsupportedKey(t))
        } else {
            Err::<Token, HotkeyErrorView>(HotkeyErrorView::UnknownKeyName(t))
        },
{
    lemma_name_spellings();
    assert(modifier_name_table()[0].0 != t);
    assert(modifier_name_table()[1].0 != t);
    assert(modifier_name_table()[2].0 != t);
    assert(modifier_name_table()[3].0 != t);
    assert(modifier_name_table()[4].0 != t);
    assert(modifier_name_table()[5].0 != t);
    assert(modifier_name_table()[6].0 != t);
    assert(modifier_name_table()[7].0 != t);
    assert(modifier_name_table()[8].0 != t);
    assert(modifier_name_table()[9].0 != t);
    assert(modifier_name_table()[10].0 != t);
    assert(modifier_name_table()[11].0 != t);
    assert(modifier_name_table()[12].0 != t);
    assert(modifier_name_table()[13].0 != t);
    assert(modifier_name_table()[14].0 != t);
    assert(modifier_name_table()[15].0 != t);
    assert(modifier_name_table()[16].0 != t);
    assert(modifier_name_table()[17].0 != t);
    assert(modifier_name_table()[18].0 != t);
    assert(modifier_name_table()[19].0 != t);
    assert(modifier_name_table()[20].0 != t);
    assert(modifier_name_table()[21].0 != t);
    assert(modifier_name_table()[22].0 != t);
    assert(modifier_name_table()[23].0 != t);
    assert(modifier_name_table()[24].0 != t);
    assert(modifier_name_table()[25].0 != t);
    assert(modifier_name_table()[26].0 != t);
    assert(key_name_table()[0].0 != t);
    assert(key_name_table()[1].0 != t);
    assert(key_name_table()[2].0 != t);
    assert(key_name_table()[3].0 != t);
    assert(key_name_table()[4].0 != t);
    assert(key_name_table()[5].0 != t);
    assert(key_name_table()[6].0 != t);
    assert(key_name_table()[7].0 != t);
    assert(key_name_table()[8].0 != t);
    assert(key_name_table()[9].0 != t);
    assert(key_name_table()[10].0 != t);
    assert(key_name_table()[11].0 != t);
    assert(key_name_table()[12].0 != t);
    assert(key_name_table()[13].0 != t);
    assert(key_name_table()[14].0 != t);
    assert(key_name_table()[15].0 != t);
    assert(key_name_table()[16].0 != t);
    assert(key_name_table()[17].0 != t);
    assert(key_name_table()[18].0 != t);
    assert(key_name_table()[19].0 != t);
    assert(key_name_table()[20].0 != t);
    assert(key_name_table()[21].0 != t);
    assert(key_name_table()[22].0 != t);
    assert(key_name_table()[23].0 != t);
    assert(key_name_table()[24].0 != t);
    assert(key_name_table()[25].0 != t);
    assert(key_name_table()[26].0 != t);
    assert(key_name_table()[27].0 != t);
    assert(key_name_table()[28].0 != t);
    assert(key_name_table()[29].0 != t);
    assert(key_name_table()[30].0 != t);
    assert(key_name_table()[31].0 != t);
    assert(key_name_table()[32].0 != t);
    if is_single_byte(t) {
        assert(t =~= seq![t[0]]);
        assert(seq![char_key_table()[0].0] != t && seq![ascii_upper(char_key_table()[0].0)] != t);
        assert(seq![char_key_table()[1].0] != t && seq![ascii_upper(char_key_table()[1].0)] != t);
        assert(seq![char_key_table()[2].0] != t && seq![ascii_upper(char_key_table()[2].0)] != t);
        assert(seq![char_key_table()[3].0] != t && seq![ascii_upper(char_key_table()[3].0)] != t);
        assert(seq![char_key_table()[4].0] != t && seq![ascii_upper(char_key_table()[4].0)] != t);
        assert(seq![char_key_table()[5].0] != t && seq![ascii_upper(char_key_table()[5].0)] != t);
        assert(seq![char_key_table()[6].0] != t && seq![ascii_upper(char_key_table()[6].0)] != t);
        assert(seq![char_key_table()[7].0] != t && seq![ascii_upper(char_key_table()[7].0)] != t);
        assert(seq![char_key_table()[8].0] != t && seq![ascii_upper(char_key_table()[8].0)] != t);
        assert(seq![char_key_table()[9].0] != t && seq![ascii_upper(char_key_table()[9].0)] != t);
        assert(seq![char_key_table()[10].0] != t && seq![ascii_upper(char_key_table()[10].0)] != t);
        assert(seq![char_key_table()[11].0] != t && seq![ascii_upper(char_key_table()[11].0)] != t);
        assert(seq![char_key_table()[12].0] != t && seq![ascii_upper(char_key_table()[12].0)] != t);
        assert(seq![char_key_table()[13].0] != t && seq![ascii_upper(char_key_table()[13].0)] != t);
        assert(seq![char_key_table()[14].0] != t && seq![ascii_upper(char_key_table()[14].0)] != t);
        assert(seq![char_key_table()[15].0] != t && seq![ascii_upper(char_key_table()[15].0)] != t);
        assert(seq![char_key_table()[16].0] != t && seq![ascii_upper(char_key_table()[16].0)] != t);
        assert(seq![char_key_table()[17].0] != t && seq![ascii_upper(char_key_table()[17].0)] != t);
        assert(seq![char_key_table()[18].0] != t && seq![ascii_upper(char_key_table()[18].0)] != t);
        assert(seq![char_key_table()[19].0] != t && seq![ascii_upper(char_key_table()[19].0)] != t);
        assert(seq![char_key_table()[20].0] != t && seq![ascii_upper(char_key_table()[20].0)] != t);
        assert(seq![char_key_table()[21].0] != t && seq![ascii_upper(char_key_table()[21].0)] != t);
        assert(seq![char_key_table()[22].0] != t && seq![ascii_upper(char_key_table()[22].0)] != t);
        assert(seq![char_key_table()[23].0] != t && seq![ascii_upper(char_key_table()[23].0)] != t);
        assert(seq![char_key_table()[24].0] != t && seq![ascii_upper(char_key_table()[24].0)] != t);
        assert(seq![char_key_table()[25].0] != t && seq![ascii_upper(char_key_table()[25].0)] != t);
        assert(seq![char_key_table()[26].0] != t && seq![ascii_upper(char_key_table()[26].0)] != t);
        assert(seq![char_key_table()[27].0] != t && seq![ascii_upper(char_key_table()[27].0)] != t);
        assert(seq![char_key_table()[28].0] != t && seq![ascii_upper(char_key_table()[28].0)] != t);
        assert(seq![char_key_table()[29].0] != t && seq![ascii_upper(char_key_table()[29].0)] != t);
        assert(seq![char_key_table()[30].0] != t && seq![ascii_upper(char_key_table()[30].0)] != t);
        assert(seq![char_key_table()[31].0] != t && seq![ascii_upper(char_key_table()[31].0)] != t);
        assert(seq![char_key_table()[32].0] != t && seq![ascii_upper(char_key_table()[32].0)] != t);
        assert(seq![char_key_table()[33].0] != t && seq![ascii_upper(char_key_table()[33].0)] != t);
        assert(seq![char_key_table()[34].0] != t && seq![ascii_upper(char_key_table()[34].0)] != t);
        assert(seq![char_key_table()[35].0] != t && seq![ascii_upper(char_key_table()[35].0)] != t);
    }
}

} // verus!
