use oxikcde::command::{initial_switch_to_comic, CommandToApp, OpenInBrowser};
use oxikcde::keys::{
    handle_char_keypress, handle_key_event, parse_key_code, parse_key_event, parse_keybindings,
    parse_modifiers, KeyCode, KeyEvent, KeyModifiers, KeybindingError,
};
use oxikcde::navigation::SwitchToComic;

const NO_MODIFIERS: KeyModifiers = KeyModifiers { control: false, shift: false, alt: false };

#[test]
fn parse_key_code_reads_named_keys() {
    for (name, code) in [
        ("minus", KeyCode::Char('-')),
        ("backspace", KeyCode::Backspace),
        ("space", KeyCode::Char(' ')),
        ("ret", KeyCode::Enter),
        ("left", KeyCode::Left),
        ("right", KeyCode::Right),
        ("up", KeyCode::Up),
        ("down", KeyCode::Down),
        ("home", KeyCode::Home),
        ("end", KeyCode::End),
        ("pageup", KeyCode::PageUp),
        ("pagedown", KeyCode::PageDown),
        ("tab", KeyCode::Tab),
        ("del", KeyCode::Delete),
        ("ins", KeyCode::Insert),
        ("null", KeyCode::Null),
        ("esc", KeyCode::Esc),
    ] {
        assert_eq!(parse_key_code(name), Ok(code), "{:?}", name);
    }
}

#[test]
fn parse_key_code_reads_single_characters() {
    for c in ['a', 'Z', '0', '?', ' ', '-', '\u{7f}', '\t'] {
        assert_eq!(parse_key_code(&c.to_string()), Ok(KeyCode::Char(c)));
    }
}

#[test]
fn parse_key_code_refuses_other_names() {
    for name in ["", "ab", "Esc", "ESC", "enter", "é", "€", "f1", "\u{80}", "minus "] {
        assert_eq!(
            parse_key_code(name),
            Err(KeybindingError::InvalidKey(name.to_string())),
            "{:?}",
            name
        );
    }
}

#[test]
fn parse_key_event_reads_modifiers_and_key() {
    assert_eq!(
        parse_key_event("q"),
        Ok(KeyEvent { code: KeyCode::Char('q'), modifiers: NO_MODIFIERS })
    );
    assert_eq!(
        parse_key_event("-"),
        Ok(KeyEvent { code: KeyCode::Char('-'), modifiers: NO_MODIFIERS })
    );
    assert_eq!(
        parse_key_event("C-q"),
        Ok(KeyEvent {
            code: KeyCode::Char('q'),
            modifiers: KeyModifiers { control: true, shift: false, alt: false },
        })
    );
    assert_eq!(
        parse_key_event("A-S-C-left"),
        Ok(KeyEvent {
            code: KeyCode::Left,
            modifiers: KeyModifiers { control: true, shift: true, alt: true },
        })
    );
    assert_eq!(
        parse_key_event("S-minus"),
        Ok(KeyEvent {
            code: KeyCode::Char('-'),
            modifiers: KeyModifiers { control: false, shift: true, alt: false },
        })
    );
}

#[test]
fn parse_key_event_passes_over_unknown_modifiers() {
    assert_eq!(
        parse_key_event("X-c-q"),
        Ok(KeyEvent { code: KeyCode::Char('q'), modifiers: NO_MODIFIERS })
    );
    assert_eq!(
        parse_key_event("-q"),
        Ok(KeyEvent { code: KeyCode::Char('q'), modifiers: NO_MODIFIERS })
    );
    // the name of the key is no modifier
    assert_eq!(
        parse_key_event("C"),
        Ok(KeyEvent { code: KeyCode::Char('C'), modifiers: NO_MODIFIERS })
    );
    assert_eq!(
        parse_key_event("C-C"),
        Ok(KeyEvent {
            code: KeyCode::Char('C'),
            modifiers: KeyModifiers { control: true, shift: false, alt: false },
        })
    );
}

#[test]
fn parse_key_event_refuses_missing_or_unknown_key() {
    assert_eq!(parse_key_event(""), Err(KeybindingError::InvalidKey(String::new())));
    assert_eq!(parse_key_event("C-"), Err(KeybindingError::InvalidKey(String::new())));
    assert_eq!(parse_key_event("--"), Err(KeybindingError::InvalidKey(String::new())));
    assert_eq!(
        parse_key_event("C-enter"),
        Err(KeybindingError::InvalidKey("enter".to_string()))
    );
}

#[test]
fn parse_modifiers_reads_all_but_the_last_name() {
    let names = |list: &[&str]| list.iter().map(|name| name.to_string()).collect::<Vec<String>>();
    assert_eq!(parse_modifiers(&names(&["q"])), NO_MODIFIERS);
    assert_eq!(parse_modifiers(&names(&["C"])), NO_MODIFIERS);
    assert_eq!(
        parse_modifiers(&names(&["C", "q"])),
        KeyModifiers { control: true, shift: false, alt: false }
    );
    assert_eq!(
        parse_modifiers(&names(&["S", "A", "S"])),
        KeyModifiers { control: false, shift: true, alt: true }
    );
    assert_eq!(
        parse_modifiers(&names(&["A", "C", "S", "x"])),
        KeyModifiers { control: true, shift: true, alt: true }
    );
}

#[test]
fn keybinding_error_messages() {
    assert_eq!(KeybindingError::InvalidKey("foo".to_string()).message(), "Invalid key foo");
    assert_eq!(
        KeybindingError::InvalidKeybinding("C-foo".to_string()).message(),
        "Failed to parse keybinding C-foo"
    );
    assert_eq!(
        KeybindingError::InvalidAction("jump".to_string()).message(),
        "Failed to parse action jump"
    );
}

#[test]
fn command_parse_reads_plain_commands() {
    assert_eq!(CommandToApp::parse("quit"), Some(CommandToApp::Quit));
    assert_eq!(CommandToApp::parse("toggle_processing"), Some(CommandToApp::ToggleProcessing));
    assert_eq!(CommandToApp::parse("toggle_bookmark"), Some(CommandToApp::ToggleBookmark));
    assert_eq!(CommandToApp::parse("handle_resize"), Some(CommandToApp::HandleResize));
    assert_eq!(CommandToApp::parse("none"), Some(CommandToApp::Nothing));
    assert_eq!(CommandToApp::parse("  quit  now "), Some(CommandToApp::Quit));
    assert_eq!(CommandToApp::parse_plain("quit"), Some(CommandToApp::Quit));
    assert_eq!(CommandToApp::parse_plain(" quit"), None);
}

#[test]
fn command_parse_reads_navigation() {
    for (word, switch_to_comic) in [
        ("next", SwitchToComic::Next),
        ("previous", SwitchToComic::Previous),
        ("latest", SwitchToComic::Latest),
        ("first", SwitchToComic::First),
        ("random", SwitchToComic::Random),
        ("bookmarked", SwitchToComic::Bookmarked),
        ("specific", SwitchToComic::Specific(0)),
        ("last_seen", SwitchToComic::LastSeen),
    ] {
        assert_eq!(SwitchToComic::parse(word), Some(switch_to_comic));
        assert_eq!(
            CommandToApp::parse(&format!("switch_to_comic {}", word)),
            Some(CommandToApp::SwitchToComic(switch_to_comic))
        );
        assert_eq!(
            CommandToApp::parse(&format!("\tswitch_to_comic \n {} 12", word)),
            Some(CommandToApp::SwitchToComic(switch_to_comic))
        );
    }
}

#[test]
fn command_parse_reads_pages() {
    assert_eq!(
        CommandToApp::parse("open_in_browser comic"),
        Some(CommandToApp::OpenInBrowser(OpenInBrowser::Comic))
    );
    assert_eq!(
        CommandToApp::parse("open_in_browser explanation"),
        Some(CommandToApp::OpenInBrowser(OpenInBrowser::Explanation))
    );
    assert_eq!(OpenInBrowser::parse("comic"), Some(OpenInBrowser::Comic));
    assert_eq!(OpenInBrowser::parse("Comic"), None);
}

#[test]
fn command_parse_refuses_other_texts() {
    for text in [
        "",
        "   ",
        "Quit",
        "switch_to_comic",
        "switch_to_comic 12",
        "switch_to_comic last-seen",
        "switch_to_comic Next",
        "open_in_browser",
        "open_in_browser next",
        "next",
        "comic",
        "quit_now",
        "nothing",
    ] {
        assert_eq!(CommandToApp::parse(text), None, "{:?}", text);
    }
}

#[test]
fn command_from_words_reads_the_first_two_words() {
    let words = |list: &[&str]| list.iter().map(|word| word.to_string()).collect::<Vec<String>>();
    assert_eq!(CommandToApp::from_words(&words(&[])), None);
    assert_eq!(CommandToApp::from_words(&words(&["quit"])), Some(CommandToApp::Quit));
    assert_eq!(
        CommandToApp::from_words(&words(&["switch_to_comic", "random", "x"])),
        Some(CommandToApp::SwitchToComic(SwitchToComic::Random))
    );
    assert_eq!(CommandToApp::from_words(&words(&["switch_to_comic"])), None);
    assert_eq!(CommandToApp::from_words(&words(&["open_in_browser", "quit"])), None);
}

#[test]
fn initial_comic_setting() {
    for (word, switch_to_comic) in [
        ("latest", SwitchToComic::Latest),
        ("first", SwitchToComic::First),
        ("random", SwitchToComic::Random),
        ("bookmarked", SwitchToComic::Bookmarked),
        ("last-seen", SwitchToComic::LastSeen),
    ] {
        assert_eq!(SwitchToComic::parse_initial(word), Some(switch_to_comic));
    }
    for word in ["", "next", "previous", "specific", "last_seen", "Latest", "latest "] {
        assert_eq!(SwitchToComic::parse_initial(word), None, "{:?}", word);
    }
}

#[test]
fn initial_switch_prefers_number_then_choice_then_default() {
    assert_eq!(
        initial_switch_to_comic(SwitchToComic::Latest, Some(614), Some(SwitchToComic::First)),
        SwitchToComic::Specific(614)
    );
    assert_eq!(
        initial_switch_to_comic(SwitchToComic::Latest, Some(0), None),
        SwitchToComic::Specific(0)
    );
    assert_eq!(
        initial_switch_to_comic(SwitchToComic::Latest, None, Some(SwitchToComic::First)),
        SwitchToComic::First
    );
    assert_eq!(
        initial_switch_to_comic(SwitchToComic::LastSeen, None, None),
        SwitchToComic::LastSeen
    );
}

fn pairs(list: &[(&str, &str)]) -> Vec<(String, String)> {
    list.iter().map(|(key, command)| (key.to_string(), command.to_string())).collect()
}

#[test]
fn parse_keybindings_reads_pairs_in_order() {
    assert_eq!(parse_keybindings(&Vec::new()), Ok(Vec::new()));
    assert_eq!(
        parse_keybindings(&pairs(&[
            ("q", "quit"),
            ("C-right", "switch_to_comic latest"),
            ("-", "toggle_bookmark"),
            ("q", "none"),
        ])),
        Ok(vec![
            (KeyEvent { code: KeyCode::Char('q'), modifiers: NO_MODIFIERS }, CommandToApp::Quit),
            (
                KeyEvent {
                    code: KeyCode::Right,
                    modifiers: KeyModifiers { control: true, shift: false, alt: false },
                },
                CommandToApp::SwitchToComic(SwitchToComic::Latest),
            ),
            (
                KeyEvent { code: KeyCode::Char('-'), modifiers: NO_MODIFIERS },
                CommandToApp::ToggleBookmark,
            ),
            (KeyEvent { code: KeyCode::Char('q'), modifiers: NO_MODIFIERS }, CommandToApp::Nothing),
        ])
    );
}

#[test]
fn parse_keybindings_reports_the_first_pair_that_fails() {
    assert_eq!(
        parse_keybindings(&pairs(&[("q", "quit"), ("C-enter", "quit"), ("x", "jump")])),
        Err(KeybindingError::InvalidKeybinding("C-enter".to_string()))
    );
    assert_eq!(
        parse_keybindings(&pairs(&[("q", "quit"), ("x", "jump"), ("C-enter", "quit")])),
        Err(KeybindingError::InvalidAction("jump".to_string()))
    );
    assert_eq!(
        parse_keybindings(&pairs(&[("enter", "jump")])),
        Err(KeybindingError::InvalidKeybinding("enter".to_string()))
    );
}

#[test]
fn default_commands_of_characters() {
    assert_eq!(handle_char_keypress('q'), Some(CommandToApp::Quit));
    assert_eq!(
        handle_char_keypress('p'),
        Some(CommandToApp::SwitchToComic(SwitchToComic::Previous))
    );
    assert_eq!(handle_char_keypress('n'), Some(CommandToApp::SwitchToComic(SwitchToComic::Next)));
    assert_eq!(handle_char_keypress('f'), Some(CommandToApp::SwitchToComic(SwitchToComic::First)));
    assert_eq!(
        handle_char_keypress('l'),
        Some(CommandToApp::SwitchToComic(SwitchToComic::Latest))
    );
    assert_eq!(handle_char_keypress('i'), Some(CommandToApp::ToggleProcessing));
    for c in ['Q', 'x', ' ', '1', 'é'] {
        assert_eq!(handle_char_keypress(c), None);
    }
}

#[test]
fn default_commands_of_keys() {
    assert_eq!(
        handle_key_event(KeyCode::Left),
        Some(CommandToApp::SwitchToComic(SwitchToComic::Previous))
    );
    assert_eq!(
        handle_key_event(KeyCode::Right),
        Some(CommandToApp::SwitchToComic(SwitchToComic::Next))
    );
    assert_eq!(
        handle_key_event(KeyCode::Home),
        Some(CommandToApp::SwitchToComic(SwitchToComic::First))
    );
    assert_eq!(
        handle_key_event(KeyCode::End),
        Some(CommandToApp::SwitchToComic(SwitchToComic::Latest))
    );
    assert_eq!(handle_key_event(KeyCode::Esc), Some(CommandToApp::Quit));
    assert_eq!(handle_key_event(KeyCode::Char('q')), Some(CommandToApp::Quit));
    assert_eq!(handle_key_event(KeyCode::Char('x')), None);
    for code in [
        KeyCode::Backspace,
        KeyCode::Enter,
        KeyCode::Up,
        KeyCode::Down,
        KeyCode::PageUp,
        KeyCode::PageDown,
        KeyCode::Tab,
        KeyCode::BackTab,
        KeyCode::Delete,
        KeyCode::Insert,
        KeyCode::F(1),
        KeyCode::Null,
        KeyCode::CapsLock,
        KeyCode::ScrollLock,
        KeyCode::NumLock,
        KeyCode::PrintScreen,
        KeyCode::Pause,
        KeyCode::Menu,
        KeyCode::KeypadBegin,
        KeyCode::Media,
        KeyCode::Modifier,
    ] {
        assert_eq!(handle_key_event(code), None);
    }
}
