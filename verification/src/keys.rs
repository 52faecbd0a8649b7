//! Keys and key bindings: the names of keys in the configuration, and the commands
//! that keys stand for without one.

use crate::command::{command_of, CommandToApp};
use crate::navigation::SwitchToComic;
use crate::text::{contains_text, names_contain, same_text, split, split_text, texts, words};
use vstd::prelude::*;
use vstd::string::StringExecFns;

verus! {

/// A key of the keyboard.
#[derive(Debug, Clone, Copy, PartialEq, Eq, Hash)]
pub enum KeyCode {
    Backspace,
    Enter,
    Left,
    Right,
    Up,
    Down,
    Home,
    End,
    PageUp,
    PageDown,
    Tab,
    BackTab,
    Delete,
    Insert,
    F(u8),
    Char(char),
    Null,
    Esc,
    CapsLock,
    ScrollLock,
    NumLock,
    PrintScreen,
    Pause,
    Menu,
    KeypadBegin,
    Media,
    Modifier,
}

/// The modifier keys that are held with a key.
#[derive(Debug, Clone, Copy, PartialEq, Eq, Hash)]
pub struct KeyModifiers {
    pub control: bool,
    pub shift: bool,
    pub alt: bool,
}

/// A key with the modifier keys that are held with it.
#[derive(Debug, Clone, Copy, PartialEq, Eq, Hash)]
pub struct KeyEvent {
    pub code: KeyCode,
    pub modifiers: KeyModifiers,
}

/// A key binding of the configuration that cannot be read.
#[derive(Debug, Clone, PartialEq, Eq)]
pub enum KeybindingError {
    /// No key has this name.
    InvalidKey(String),
    /// The key of this binding cannot be read.
    InvalidKeybinding(String),
    /// No command is written like this.
    InvalidAction(String),
}

/// What a [`KeybindingError`] holds, as plain values.
pub enum KeybindingErrorView {
    InvalidKey(Seq<char>),
    InvalidKeybinding(Seq<char>),
    InvalidAction(Seq<char>),
}

impl View for KeybindingError {
    type V = KeybindingErrorView;

    open spec fn view(&self) -> KeybindingErrorView {
        match self {
            KeybindingError::InvalidKey(text) => KeybindingErrorView::InvalidKey(text@),
            KeybindingError::InvalidKeybinding(text) => KeybindingErrorView::InvalidKeybinding(
                text@,
            ),
            KeybindingError::InvalidAction(text) => KeybindingErrorView::InvalidAction(text@),
        }
    }
}

impl KeybindingErrorView {
    /// The text of [`KeybindingError::message`].
    pub open spec fn text(self) -> Seq<char> {
        match self {
            KeybindingErrorView::InvalidKey(text) => "Invalid key "@ + text,
            KeybindingErrorView::InvalidKeybinding(text) => "Failed to parse keybinding "@ + text,
            KeybindingErrorView::InvalidAction(text) => "Failed to parse action "@ + text,
        }
    }
}

impl KeybindingError {
    /// The line that reports the error.
    pub fn message(&self) -> (message: String)
        ensures
            message@ == self@.text(),
    {
        match self {
            KeybindingError::InvalidKey(text) => {
                "Invalid key ".to_owned().concat(text.as_str())
            },
            KeybindingError::InvalidKeybinding(text) => {
                "Failed to parse keybinding ".to_owned().concat(text.as_str())
            },
            KeybindingError::InvalidAction(text) => {
                "Failed to parse action ".to_owned().concat(text.as_str())
            },
        }
    }
}

/// The view of the error, or the value.
pub open spec fn error_view<T>(result: Result<T, KeybindingError>) -> Result<
    T,
    KeybindingErrorView,
> {
    match result {
        Ok(value) => Ok(value),
        Err(error) => Err(error@),
    }
}

/// Whether a character is written as a single byte.
pub open spec fn is_single_byte(c: char) -> bool {
    (c as u32) < 0x80
}

/// The key that a name stands for. A key with a name of its own is written by
/// that name; any other key is written as its character, which must be a single
/// byte.
pub open spec fn key_code(name: Seq<char>) -> Option<KeyCode> {
    if name == "minus"@ {
        Some(KeyCode::Char('-'))
    } else if name == "backspace"@ {
        Some(KeyCode::Backspace)
    } else if name == "space"@ {
        Some(KeyCode::Char(' '))
    } else if name == "ret"@ {
        Some(KeyCode::Enter)
    } else if name == "left"@ {
        Some(KeyCode::Left)
    } else if name == "right"@ {
        Some(KeyCode::Right)
    } else if name == "up"@ {
        Some(KeyCode::Up)
    } else if name == "down"@ {
        Some(KeyCode::Down)
    } else if name == "home"@ {
        Some(KeyCode::Home)
    } else if name == "end"@ {
        Some(KeyCode::End)
    } else if name == "pageup"@ {
        Some(KeyCode::PageUp)
    } else if name == "pagedown"@ {
        Some(KeyCode::PageDown)
    } else if name == "tab"@ {
        Some(KeyCode::Tab)
    } else if name == "del"@ {
        Some(KeyCode::Delete)
    } else if name == "ins"@ {
        Some(KeyCode::Insert)
    } else if name == "null"@ {
        Some(KeyCode::Null)
    } else if name == "esc"@ {
        Some(KeyCode::Esc)
    } else if name.len() == 1 && is_single_byte(name[0]) {
        Some(KeyCode::Char(name[0]))
    } else {
        None
    }
}

/// The modifier keys that a list of names asks for: `C` for control, `S` for shift
/// and `A` for alt. Other names ask for nothing.
pub open spec fn modifiers_of(names: Seq<Seq<char>>) -> KeyModifiers {
    KeyModifiers {
        control: names_contain(names, "C"@),
        shift: names_contain(names, "S"@),
        alt: names_contain(names, "A"@),
    }
}

/// The key that a key binding is written for: the text `-` is the minus key; in
/// any other text the names of modifier keys come first, each followed by `-`, and
/// the name of the key comes last. The error holds the name that is no key.
pub open spec fn key_event(text: Seq<char>) -> Result<KeyEvent, KeybindingErrorView> {
    if text == "-"@ {
        Ok(
            KeyEvent {
                code: KeyCode::Char('-'),
                modifiers: KeyModifiers { control: false, shift: false, alt: false },
            },
        )
    } else {
        let names = split(text, '-');
        match key_code(names.last()) {
            Some(code) => Ok(KeyEvent { code, modifiers: modifiers_of(names.drop_last()) }),
            None => Err(KeybindingErrorView::InvalidKey(names.last())),
        }
    }
}

/// Reads the name of a key.
pub fn parse_key_code(string: &str) -> (code: Result<KeyCode, KeybindingError>)
    ensures
        error_view(code) == match key_code(string@) {
            Some(code) => Ok::<KeyCode, KeybindingErrorView>(code),
            None => Err(KeybindingErrorView::InvalidKey(string@)),
        },
{
    if same_text(string, "minus") {
        Ok(KeyCode::Char('-'))
    } else if same_text(string, "backspace") {
        Ok(KeyCode::Backspace)
    } else if same_text(string, "space") {
        Ok(KeyCode::Char(' '))
    } else if same_text(string, "ret") {
        Ok(KeyCode::Enter)
    } else if same_text(string, "left") {
        Ok(KeyCode::Left)
    } else if same_text(string, "right") {
        Ok(KeyCode::Right)
    } else if same_text(string, "up") {
        Ok(KeyCode::Up)
    } else if same_text(string, "down") {
        Ok(KeyCode::Down)
    } else if same_text(string, "home") {
        Ok(KeyCode::Home)
    } else if same_text(string, "end") {
        Ok(KeyCode::End)
    } else if same_text(string, "pageup") {
        Ok(KeyCode::PageUp)
    } else if same_text(string, "pagedown") {
        Ok(KeyCode::PageDown)
    } else if same_text(string, "tab") {
        Ok(KeyCode::Tab)
    } else if same_text(string, "del") {
        Ok(KeyCode::Delete)
    } else if same_text(string, "ins") {
        Ok(KeyCode::Insert)
    } else if same_text(string, "null") {
        Ok(KeyCode::Null)
    } else if same_text(string, "esc") {
        Ok(KeyCode::Esc)
    } else {
        if string.unicode_len() == 1 {
            let c = string.get_char(0);
            if (c as u32) < 0x80 {
                return Ok(KeyCode::Char(c));
            }
        }
        Err(KeybindingError::InvalidKey(string.to_owned()))
    }
}

/// The modifier keys that the names before the last of a list ask for.
pub fn parse_modifiers(split: &Vec<String>) -> (modifiers: KeyModifiers)
    requires
        split@.len() >= 1,
    ensures
        modifiers == modifiers_of(texts(split@).drop_last()),
{
    let count = split.len() - 1;
    proof {
        assert(texts(split@).drop_last() =~= texts(split@).subrange(0, count as int));
    }
    KeyModifiers {
        control: contains_text(split, 0, count, "C"),
        shift: contains_text(split, 0, count, "S"),
        alt: contains_text(split, 0, count, "A"),
    }
}

/// Reads the key of a key binding.
pub fn parse_key_event(string: &str) -> (event: Result<KeyEvent, KeybindingError>)
    ensures
        error_view(event) == key_event(string@),
{
    if same_text(string, "-") {
        return Ok(
            KeyEvent {
                code: KeyCode::Char('-'),
                modifiers: KeyModifiers { control: false, shift: false, alt: false },
            },
        );
    }
    let split = split_text(string, '-');
    let last = split.len() - 1;
    proof {
        assert(texts(split@).last() == split@[last as int]@);
    }
    match parse_key_code(split[last].as_str()) {
        Ok(code) => Ok(KeyEvent { code, modifiers: parse_modifiers(&split) }),
        Err(error) => Err(error),
    }
}

/// The command that a key stands for where no key binding is configured.
pub open spec fn default_command(code: KeyCode) -> Option<CommandToApp> {
    match code {
        KeyCode::Left => Some(CommandToApp::SwitchToComic(SwitchToComic::Previous)),
        KeyCode::Right => Some(CommandToApp::SwitchToComic(SwitchToComic::Next)),
        KeyCode::Home => Some(CommandToApp::SwitchToComic(SwitchToComic::First)),
        KeyCode::End => Some(CommandToApp::SwitchToComic(SwitchToComic::Latest)),
        KeyCode::Esc => Some(CommandToApp::Quit),
        KeyCode::Char(c) => default_char_command(c),
        _ => None,
    }
}

/// The command that a character stands for where no key binding is configured.
pub open spec fn default_char_command(c: char) -> Option<CommandToApp> {
    if c == 'q' {
        Some(CommandToApp::Quit)
    } else if c == 'p' {
        Some(CommandToApp::SwitchToComic(SwitchToComic::Previous))
    } else if c == 'n' {
        Some(CommandToApp::SwitchToComic(SwitchToComic::Next))
    } else if c == 'f' {
        Some(CommandToApp::SwitchToComic(SwitchToComic::First))
    } else if c == 'l' {
        Some(CommandToApp::SwitchToComic(SwitchToComic::Latest))
    } else if c == 'i' {
        Some(CommandToApp::ToggleProcessing)
    } else {
        None
    }
}

/// The command that a key stands for where no key binding is configured.
pub fn handle_key_event(code: KeyCode) -> (command: Option<CommandToApp>)
    ensures
        command == default_command(code),
{
    match code {
        KeyCode::Left => Some(CommandToApp::SwitchToComic(SwitchToComic::Previous)),
        KeyCode::Right => Some(CommandToApp::SwitchToComic(SwitchToComic::Next)),
        KeyCode::Home => Some(CommandToApp::SwitchToComic(SwitchToComic::First)),
        KeyCode::End => Some(CommandToApp::SwitchToComic(SwitchToComic::Latest)),
        KeyCode::Esc => Some(CommandToApp::Quit),
        KeyCode::Char(c) => handle_char_keypress(c),
        _ => None,
    }
}

/// The command that a character stands for where no key binding is configured.
pub fn handle_char_keypress(char: char) -> (command: Option<CommandToApp>)
    ensures
        command == default_char_command(char),
{
    if char == 'q' {
        Some(CommandToApp::Quit)
    } else if char == 'p' {
        Some(CommandToApp::SwitchToComic(SwitchToComic::Previous))
    } else if char == 'n' {
        Some(CommandToApp::SwitchToComic(SwitchToComic::Next))
    } else if char == 'f' {
        Some(CommandToApp::SwitchToComic(SwitchToComic::First))
    } else if char == 'l' {
        Some(CommandToApp::SwitchToComic(SwitchToComic::Latest))
    } else if char == 'i' {
        Some(CommandToApp::ToggleProcessing)
    } else {
        None
    }
}

/// The texts of a list of pairs of strings.
pub open spec fn pair_texts(list: Seq<(String, String)>) -> Seq<(Seq<char>, Seq<char>)> {
    Seq::new(list.len(), |i: int| (list[i].0@, list[i].1@))
}

/// The key bindings that a list of pairs stands for, each pair the text of a key
/// and the text of a command, in the order of the list. The error is that of the
/// first pair that cannot be read, and in that pair of the key before the command.
pub open spec fn keybindings(raw: Seq<(Seq<char>, Seq<char>)>) -> Result<
    Seq<(KeyEvent, CommandToApp)>,
    KeybindingErrorView,
>
    decreases raw.len(),
{
    if raw.len() == 0 {
        Ok(Seq::empty())
    } else {
        match keybindings(raw.drop_last()) {
            Ok(bindings) => match key_event(raw.last().0) {
                Ok(event) => match command_of(words(raw.last().1)) {
                    Some(command) => Ok(bindings.push((event, command))),
                    None => Err(KeybindingErrorView::InvalidAction(raw.last().1)),
                },
                Err(_) => Err(KeybindingErrorView::InvalidKeybinding(raw.last().0)),
            },
            Err(error) => Err(error),
        }
    }
}

/// The view of the list of key bindings, or of the error.
pub open spec fn keybindings_view(
    result: Result<Vec<(KeyEvent, CommandToApp)>, KeybindingError>,
) -> Result<Seq<(KeyEvent, CommandToApp)>, KeybindingErrorView> {
    match result {
        Ok(bindings) => Ok(bindings@),
        Err(error) => Err(error@),
    }
}

/// Reads the key bindings of the configuration.
pub fn parse_keybindings(raw: &Vec<(String, String)>) -> (bindings: Result<
    Vec<(KeyEvent, CommandToApp)>,
    KeybindingError,
>)
    ensures
        keybindings_view(bindings) == keybindings(pair_texts(raw@)),
{
    let mut bindings: Vec<(KeyEvent, CommandToApp)> = Vec::new();
    let mut i: usize = 0;
    while i < raw.len()
        invariant
            i <= raw@.len(),
            keybindings(pair_texts(raw@).take(i as int)) == Ok::<
                Seq<(KeyEvent, CommandToApp)>,
                KeybindingErrorView,
            >(bindings@),
        decreases raw@.len() - i,
    {
        proof {
            let after = pair_texts(raw@).take(i + 1);
            assert(after.drop_last() =~= pair_texts(raw@).take(i as int));
            assert(after.last() == (raw@[i as int].0@, raw@[i as int].1@));
        }
        let event = match parse_key_event(raw[i].0.as_str()) {
            Ok(event) => event,
            Err(_) => {
                proof {
                    lemma_keybindings_error_stays(pair_texts(raw@), i + 1);
                }
                return Err(KeybindingError::InvalidKeybinding(raw[i].0.clone()));
            },
        };
        let command = match CommandToApp::parse(raw[i].1.as_str()) {
            Some(command) => command,
            None => {
                proof {
                    lemma_keybindings_error_stays(pair_texts(raw@), i + 1);
                }
                return Err(KeybindingError::InvalidAction(raw[i].1.clone()));
            },
        };
        bindings.push((event, command));
        i = i + 1;
    }
    proof {
        assert(pair_texts(raw@).take(raw@.len() as int) =~= pair_texts(raw@));
    }
    Ok(bindings)
}

/// Once the first pairs of a list cannot be read, the error stays the same however
/// the list goes on.
proof fn lemma_keybindings_error_stays(raw: Seq<(Seq<char>, Seq<char>)>, count: int)
    requires
        0 <= count <= raw.len(),
        keybindings(raw.take(count)) is Err,
    ensures
        keybindings(raw) == keybindings(raw.take(count)),
    decreases raw.len() - count,
{
    if count < raw.len() {
        assert(raw.take(count + 1).drop_last() =~= raw.take(count));
        lemma_keybindings_error_stays(raw, count + 1);
    } else {
        assert(raw.take(count) =~= raw);
    }
}

} // verus!
