use free_mode::dialog::{mask_key, FreeModeDialogState, FreeModeField};

#[test]
fn defaults_hidden() {
    let s = FreeModeDialogState::new();
    assert!(!s.visible);
    assert_eq!(s.active_field, FreeModeField::ZenKey);
}

#[test]
fn open_starts_on_zen_when_empty() {
    let mut s = FreeModeDialogState::new();
    s.open(None, None);
    assert!(s.visible);
    assert_eq!(s.active_field, FreeModeField::ZenKey);
}

#[test]
fn open_skips_to_openrouter_when_zen_present() {
    let mut s = FreeModeDialogState::new();
    s.open(Some("zen-key".into()), None);
    assert_eq!(s.active_field, FreeModeField::OpenRouterKey);
}

#[test]
fn switch_field_toggles() {
    let mut s = FreeModeDialogState::new();
    s.open(None, None);
    assert_eq!(s.active_field, FreeModeField::ZenKey);
    s.switch_field();
    assert_eq!(s.active_field, FreeModeField::OpenRouterKey);
    s.switch_field();
    assert_eq!(s.active_field, FreeModeField::ZenKey);
}

#[test]
fn insert_char_writes_to_active_field() {
    let mut s = FreeModeDialogState::new();
    s.open(None, None);
    s.insert_char('a');
    s.insert_char('b');
    assert_eq!(s.zen_key, "ab");
    s.switch_field();
    s.insert_char('x');
    assert_eq!(s.openrouter_key, "x");
    assert_eq!(s.zen_key, "ab");
}

#[test]
fn backspace_removes_last_from_active_field() {
    let mut s = FreeModeDialogState::new();
    s.open(None, None);
    s.insert_char('a');
    s.insert_char('b');
    s.backspace();
    assert_eq!(s.zen_key, "a");
}

#[test]
fn can_submit_requires_at_least_one_key() {
    let mut s = FreeModeDialogState::new();
    s.open(None, None);
    assert!(!s.can_submit());
    s.insert_char('k');
    assert!(s.can_submit());
}

#[test]
fn take_values_returns_trimmed_pair_and_closes() {
    let mut s = FreeModeDialogState::new();
    s.open(None, None);
    s.insert_char(' ');
    s.insert_char('a');
    s.insert_char(' ');
    s.switch_field();
    s.insert_char('b');
    let (zen, or) = s.take_values();
    assert_eq!(zen, "a");
    assert_eq!(or, "b");
    assert!(!s.visible);
}

#[test]
fn mask_key_hides_all_but_last_four() {
    assert_eq!(mask_key(""), "paste your API key here...");
    assert_eq!(mask_key("abc"), "abc");
    assert_eq!(mask_key("abcdefgh"), "\u{2022}\u{2022}\u{2022}\u{2022}efgh");
}

#[test]
fn default_matches_new() {
    let d = FreeModeDialogState::default();
    assert!(!d.visible);
    assert_eq!(d.zen_key, "");
    assert_eq!(d.openrouter_key, "");
    assert_eq!(d.active_field, FreeModeField::ZenKey);
}

#[test]
fn open_prefills_both_keys() {
    let mut s = FreeModeDialogState::new();
    s.open(Some("zk".into()), Some("ork".into()));
    assert!(s.visible);
    assert_eq!(s.zen_key, "zk");
    assert_eq!(s.openrouter_key, "ork");
    assert_eq!(s.active_field, FreeModeField::OpenRouterKey);
}

#[test]
fn open_with_empty_existing_zen_key_focuses_zen() {
    let mut s = FreeModeDialogState::new();
    s.open(Some(String::new()), Some("ork".into()));
    assert_eq!(s.active_field, FreeModeField::ZenKey);
}

#[test]
fn close_forgets_keys() {
    let mut s = FreeModeDialogState::new();
    s.open(Some("zk".into()), Some("ork".into()));
    s.close();
    assert!(!s.visible);
    assert_eq!(s.zen_key, "");
    assert_eq!(s.openrouter_key, "");
    assert_eq!(s.active_field, FreeModeField::ZenKey);
}

#[test]
fn backspace_on_empty_field_is_harmless() {
    let mut s = FreeModeDialogState::new();
    s.open(None, Some("ab".into()));
    s.backspace();
    assert_eq!(s.zen_key, "");
    assert_eq!(s.openrouter_key, "ab");
}

#[test]
fn backspace_only_touches_active_field() {
    let mut s = FreeModeDialogState::new();
    s.open(Some("zk".into()), Some("ab".into()));
    s.backspace();
    assert_eq!(s.zen_key, "zk");
    assert_eq!(s.openrouter_key, "a");
}

#[test]
fn backspace_undoes_insert_on_concrete_state() {
    let mut s = FreeModeDialogState::new();
    s.open(Some("zk".into()), Some("ab".into()));
    s.insert_char('\u{e9}');
    s.backspace();
    assert_eq!(s.zen_key, "zk");
    assert_eq!(s.openrouter_key, "ab");
    assert_eq!(s.active_field, FreeModeField::OpenRouterKey);
    assert!(s.visible);
}

#[test]
fn whitespace_only_keys_cannot_submit() {
    let mut s = FreeModeDialogState::new();
    s.open(Some(" \t".into()), Some("\u{3000}\n".into()));
    assert!(!s.can_submit());
    s.insert_char('x');
    assert!(s.can_submit());
}

#[test]
fn openrouter_key_alone_can_submit() {
    let mut s = FreeModeDialogState::new();
    s.open(None, Some("  k ".into()));
    assert!(s.can_submit());
    let (zen, or) = s.take_values();
    assert_eq!(zen, "");
    assert_eq!(or, "k");
}

#[test]
fn take_values_trims_unicode_white_space_and_keeps_inner() {
    let mut s = FreeModeDialogState::new();
    s.open(Some("\u{a0}\u{2003} a b \u{2028}".into()), Some("\r\nkey\u{85}".into()));
    let (zen, or) = s.take_values();
    assert_eq!(zen, "a b");
    assert_eq!(or, "key");
    assert_eq!(s.zen_key, "");
    assert_eq!(s.openrouter_key, "");
    assert_eq!(s.active_field, FreeModeField::ZenKey);
}

#[test]
fn take_values_does_not_trim_other_characters() {
    let mut s = FreeModeDialogState::new();
    s.open(Some("\u{200b}k\u{200b}".into()), None);
    let (zen, _) = s.take_values();
    assert_eq!(zen, "\u{200b}k\u{200b}");
}

#[test]
fn mask_key_boundaries() {
    assert_eq!(mask_key("abcd"), "abcd");
    assert_eq!(mask_key("abcde"), "\u{2022}bcde");
    assert_eq!(mask_key("\u{e9}\u{e8}\u{ea}\u{eb}\u{ec}\u{ed}"), "\u{2022}\u{2022}\u{ea}\u{eb}\u{ec}\u{ed}");
    assert_eq!(mask_key(" "), " ");
}
