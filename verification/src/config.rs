//! The configuration.

pub mod style;
pub mod terminal;

use crate::command::{initial_comic_word, CommandToApp};
use crate::config::style::{styling_of, StylingConfig, StylingConfigRaw};
use crate::config::terminal::{terminal_of, TerminalConfig, TerminalConfigRaw};
use crate::keys::{
    keybindings, pair_texts, parse_keybindings, KeyEvent, KeybindingError, KeybindingErrorView,
};
use crate::navigation::SwitchToComic;
use vstd::prelude::*;
use vstd::string::StringExecFns;

verus! {

/// The configuration as it is written.
#[derive(Debug, Clone, PartialEq, Eq)]
pub struct ConfigRaw {
    pub keep_colors: bool,
    pub initial_comic: String,
    pub url: String,
    pub explanation_url: String,
    pub styling: StylingConfigRaw,
    /// The key bindings, each the text of a key and the text of its command.
    pub keybindings: Vec<(String, String)>,
    pub terminal: TerminalConfigRaw,
}

/// The configuration.
#[derive(Debug, Clone, PartialEq, Eq)]
pub struct Config {
    pub keep_colors: bool,
    pub initial_comic: SwitchToComic,
    pub url: String,
    pub explanation_url: String,
    /// The key bindings in the order of the configuration. Of two bindings of one
    /// key the later one holds.
    pub keybindings: Vec<(KeyEvent, CommandToApp)>,
    pub styling: StylingConfig,
    pub terminal: TerminalConfig,
}

/// A setting of the configuration that cannot be read.
#[derive(Debug, Clone, PartialEq, Eq)]
pub enum ConfigError {
    /// The foreground colour is neither `query` nor a colour; the text is what the
    /// configuration holds.
    ForegroundColor(String),
    /// The background colour is neither `query` nor a colour; the text is what the
    /// configuration holds.
    BackgroundColor(String),
    /// The style of the title cannot be read; the text is what the configuration
    /// holds.
    TitleStyle(String),
    /// The style of the alt text cannot be read.
    AltTextStyle(String),
    /// The style of the date cannot be read.
    DateStyle(String),
    /// The style of messages cannot be read.
    MessagesStyle(String),
    /// The style of errors cannot be read.
    ErrorsStyle(String),
    /// The setting for the first comic of a session names none; the text is what
    /// the configuration holds.
    InitialComic(String),
    /// A key binding cannot be read.
    Keybinding(KeybindingError),
}

/// What a [`ConfigError`] holds, as plain values.
pub enum ConfigErrorView {
    ForegroundColor(Seq<char>),
    BackgroundColor(Seq<char>),
    TitleStyle(Seq<char>),
    AltTextStyle(Seq<char>),
    DateStyle(Seq<char>),
    MessagesStyle(Seq<char>),
    ErrorsStyle(Seq<char>),
    InitialComic(Seq<char>),
    Keybinding(KeybindingErrorView),
}

impl View for ConfigError {
    type V = ConfigErrorView;

    open spec fn view(&self) -> ConfigErrorView {
        match self {
            ConfigError::ForegroundColor(text) => ConfigErrorView::ForegroundColor(text@),
            ConfigError::BackgroundColor(text) => ConfigErrorView::BackgroundColor(text@),
            ConfigError::TitleStyle(text) => ConfigErrorView::TitleStyle(text@),
            ConfigError::AltTextStyle(text) => ConfigErrorView::AltTextStyle(text@),
            ConfigError::DateStyle(text) => ConfigErrorView::DateStyle(text@),
            ConfigError::MessagesStyle(text) => ConfigErrorView::MessagesStyle(text@),
            ConfigError::ErrorsStyle(text) => ConfigErrorView::ErrorsStyle(text@),
            ConfigError::InitialComic(text) => ConfigErrorView::InitialComic(text@),
            ConfigError::Keybinding(error) => ConfigErrorView::Keybinding(error@),
        }
    }
}

impl ConfigErrorView {
    /// The text of [`ConfigError::message`].
    pub open spec fn text(self) -> Seq<char> {
        match self {
            ConfigErrorView::ForegroundColor(text) =>
                "Failed to determine foreground color with config option "@ + text,
            ConfigErrorView::BackgroundColor(text) =>
                "Failed to determine background color with config option "@ + text,
            ConfigErrorView::TitleStyle(text) =>
                "Failed to determine title_style with config option "@ + text,
            ConfigErrorView::AltTextStyle(text) =>
                "Failed to determine alt_text_style with config option "@ + text,
            ConfigErrorView::DateStyle(text) =>
                "Failed to determine date_style with config option "@ + text,
            ConfigErrorView::MessagesStyle(text) =>
                "Failed to determine messages_style with config option "@ + text,
            ConfigErrorView::ErrorsStyle(text) =>
                "Failed to determine errors_style with config option "@ + text,
            ConfigErrorView::InitialComic(text) =>
                "Failed to parse initial_comic config option: invalid variant: "@ + text,
            ConfigErrorView::Keybinding(error) => error.text(),
        }
    }
}

impl ConfigError {
    /// The line that reports the error.
    pub fn message(&self) -> (message: String)
        ensures
            message@ == self@.text(),
    {
        match self {
            ConfigError::ForegroundColor(text) => {
                "Failed to determine foreground color with config option ".to_owned().concat(
                    text.as_str(),
                )
            },
            ConfigError::BackgroundColor(text) => {
                "Failed to determine background color with config option ".to_owned().concat(
                    text.as_str(),
                )
            },
            ConfigError::TitleStyle(text) => {
                "Failed to determine title_style with config option ".to_owned().concat(
                    text.as_str(),
                )
            },
            ConfigError::AltTextStyle(text) => {
                "Failed to determine alt_text_style with config option ".to_owned().concat(
                    text.as_str(),
                )
            },
            ConfigError::DateStyle(text) => {
                "Failed to determine date_style with config option ".to_owned().concat(
                    text.as_str(),
                )
            },
            ConfigError::MessagesStyle(text) => {
                "Failed to determine messages_style with config option ".to_owned().concat(
                    text.as_str(),
                )
            },
            ConfigError::ErrorsStyle(text) => {
                "Failed to determine errors_style with config option ".to_owned().concat(
                    text.as_str(),
                )
            },
            ConfigError::InitialComic(text) => {
                "Failed to parse initial_comic config option: invalid variant: ".to_owned().concat(
                    text.as_str(),
                )
            },
            ConfigError::Keybinding(error) => error.message(),
        }
    }
}

/// The view of the error, or the value.
pub open spec fn error_view<T>(result: Result<T, ConfigError>) -> Result<T, ConfigErrorView> {
    match result {
        Ok(value) => Ok(value),
        Err(error) => Err(error@),
    }
}

/// The first setting of a configuration that cannot be read, if there is one: the
/// first comic, the key bindings, the styles, the colours of the terminal, in
/// this order.
pub open spec fn config_error(raw: ConfigRaw) -> Option<ConfigErrorView> {
    if initial_comic_word(raw.initial_comic@) is None {
        Some(ConfigErrorView::InitialComic(raw.initial_comic@))
    } else if keybindings(pair_texts(raw.keybindings@)) is Err {
        Some(ConfigErrorView::Keybinding(keybindings(pair_texts(raw.keybindings@))->Err_0))
    } else if styling_of(raw.styling) is Err {
        Some(styling_of(raw.styling)->Err_0)
    } else if terminal_of(raw.terminal) is Err {
        Some(terminal_of(raw.terminal)->Err_0)
    } else {
        None
    }
}

impl Config {
    /// Reads the configuration. Where several settings cannot be read, the error
    /// is that of the first of them.
    pub fn new(raw: ConfigRaw) -> (config: Result<Config, ConfigError>)
        ensures
            match config {
                Ok(config) => {
                    &&& config_error(raw) is None
                    &&& config.keep_colors == raw.keep_colors
                    &&& Some(config.initial_comic) == initial_comic_word(raw.initial_comic@)
                    &&& config.url@ == raw.url@
                    &&& config.explanation_url@ == raw.explanation_url@
                    &&& Ok::<Seq<(KeyEvent, CommandToApp)>, KeybindingErrorView>(
                        config.keybindings@,
                    ) == keybindings(pair_texts(raw.keybindings@))
                    &&& Ok::<StylingConfig, ConfigErrorView>(config.styling) == styling_of(
                        raw.styling,
                    )
                    &&& Ok::<TerminalConfig, ConfigErrorView>(config.terminal) == terminal_of(
                        raw.terminal,
                    )
                },
                Err(error) => config_error(raw) == Some(error@),
            },
    {
        let initial_comic = match SwitchToComic::parse_initial(raw.initial_comic.as_str()) {
            Some(initial_comic) => initial_comic,
            None => {
                return Err(ConfigError::InitialComic(raw.initial_comic));
            },
        };
        let keybindings = match parse_keybindings(&raw.keybindings) {
            Ok(keybindings) => keybindings,
            Err(error) => {
                return Err(ConfigError::Keybinding(error));
            },
        };
        let styling = match StylingConfig::from_raw(raw.styling) {
            Ok(styling) => styling,
            Err(error) => {
                return Err(error);
            },
        };
        let terminal = match TerminalConfig::from_raw(raw.terminal) {
            Ok(terminal) => terminal,
            Err(error) => {
                return Err(error);
            },
        };
        Ok(
            Config {
                keep_colors: raw.keep_colors,
                initial_comic,
                url: raw.url,
                explanation_url: raw.explanation_url,
                keybindings,
                styling,
                terminal,
            },
        )
    }
}

} // verus!
