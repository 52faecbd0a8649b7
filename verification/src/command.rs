//! The commands of the user, and the words that stand for them in the
//! configuration.

use crate::navigation::SwitchToComic;
use crate::text::{same_text, split_words, texts, words};
use vstd::prelude::*;

verus! {

/// The page that is opened in the web browser.
#[derive(Debug, Clone, Copy, PartialEq, Eq)]
pub enum OpenInBrowser {
    Comic,
    Explanation,
}

/// A command of the user.
#[derive(Debug, Clone, Copy, PartialEq, Eq)]
pub enum CommandToApp {
    Quit,
    SwitchToComic(SwitchToComic),
    ToggleProcessing,
    ToggleBookmark,
    OpenInBrowser(OpenInBrowser),
    HandleResize,
    Nothing,
}

/// The navigation that a word of a key binding stands for. The word `specific`
/// carries no number and stands for the number 0.
pub open spec fn navigation_word(word: Seq<char>) -> Option<SwitchToComic> {
    if word == "next"@ {
        Some(SwitchToComic::Next)
    } else if word == "previous"@ {
        Some(SwitchToComic::Previous)
    } else if word == "latest"@ {
        Some(SwitchToComic::Latest)
    } else if word == "first"@ {
        Some(SwitchToComic::First)
    } else if word == "random"@ {
        Some(SwitchToComic::Random)
    } else if word == "bookmarked"@ {
        Some(SwitchToComic::Bookmarked)
    } else if word == "specific"@ {
        Some(SwitchToComic::Specific(0))
    } else if word == "last_seen"@ {
        Some(SwitchToComic::LastSeen)
    } else {
        None
    }
}

/// The comic that the setting for the first comic of a session stands for.
pub open spec fn initial_comic_word(word: Seq<char>) -> Option<SwitchToComic> {
    if word == "latest"@ {
        Some(SwitchToComic::Latest)
    } else if word == "first"@ {
        Some(SwitchToComic::First)
    } else if word == "random"@ {
        Some(SwitchToComic::Random)
    } else if word == "bookmarked"@ {
        Some(SwitchToComic::Bookmarked)
    } else if word == "last-seen"@ {
        Some(SwitchToComic::LastSeen)
    } else {
        None
    }
}

/// The page that a word of a key binding stands for.
pub open spec fn page_word(word: Seq<char>) -> Option<OpenInBrowser> {
    if word == "comic"@ {
        Some(OpenInBrowser::Comic)
    } else if word == "explanation"@ {
        Some(OpenInBrowser::Explanation)
    } else {
        None
    }
}

/// The command without an argument that a word stands for.
pub open spec fn plain_command_word(word: Seq<char>) -> Option<CommandToApp> {
    if word == "quit"@ {
        Some(CommandToApp::Quit)
    } else if word == "toggle_processing"@ {
        Some(CommandToApp::ToggleProcessing)
    } else if word == "toggle_bookmark"@ {
        Some(CommandToApp::ToggleBookmark)
    } else if word == "handle_resize"@ {
        Some(CommandToApp::HandleResize)
    } else if word == "none"@ {
        Some(CommandToApp::Nothing)
    } else {
        None
    }
}

/// The command that the words of a key binding stand for. The first word names
/// the command. `switch_to_comic` and `open_in_browser` take the second word as
/// their argument. Words after those are not read.
pub open spec fn command_of(words: Seq<Seq<char>>) -> Option<CommandToApp> {
    if words.len() == 0 {
        None
    } else if words[0] == "switch_to_comic"@ {
        if words.len() >= 2 {
            match navigation_word(words[1]) {
                Some(switch_to_comic) => Some(CommandToApp::SwitchToComic(switch_to_comic)),
                None => None,
            }
        } else {
            None
        }
    } else if words[0] == "open_in_browser"@ {
        if words.len() >= 2 {
            match page_word(words[1]) {
                Some(open_in_browser) => Some(CommandToApp::OpenInBrowser(open_in_browser)),
                None => None,
            }
        } else {
            None
        }
    } else {
        plain_command_word(words[0])
    }
}

impl SwitchToComic {
    /// Reads the navigation of a key binding.
    pub fn parse(word: &str) -> (switch_to_comic: Option<SwitchToComic>)
        ensures
            switch_to_comic == navigation_word(word@),
    {
        if same_text(word, "next") {
            Some(SwitchToComic::Next)
        } else if same_text(word, "previous") {
            Some(SwitchToComic::Previous)
        } else if same_text(word, "latest") {
            Some(SwitchToComic::Latest)
        } else if same_text(word, "first") {
            Some(SwitchToComic::First)
        } else if same_text(word, "random") {
            Some(SwitchToComic::Random)
        } else if same_text(word, "bookmarked") {
            Some(SwitchToComic::Bookmarked)
        } else if same_text(word, "specific") {
            Some(SwitchToComic::Specific(0))
        } else if same_text(word, "last_seen") {
            Some(SwitchToComic::LastSeen)
        } else {
            None
        }
    }

    /// Reads the setting for the first comic of a session.
    pub fn parse_initial(word: &str) -> (switch_to_comic: Option<SwitchToComic>)
        ensures
            switch_to_comic == initial_comic_word(word@),
    {
        if same_text(word, "latest") {
            Some(SwitchToComic::Latest)
        } else if same_text(word, "first") {
            Some(SwitchToComic::First)
        } else if same_text(word, "random") {
            Some(SwitchToComic::Random)
        } else if same_text(word, "bookmarked") {
            Some(SwitchToComic::Bookmarked)
        } else if same_text(word, "last-seen") {
            Some(SwitchToComic::LastSeen)
        } else {
            None
        }
    }
}

impl OpenInBrowser {
    /// Reads the page of a key binding.
    pub fn parse(word: &str) -> (open_in_browser: Option<OpenInBrowser>)
        ensures
            open_in_browser == page_word(word@),
    {
        if same_text(word, "comic") {
            Some(OpenInBrowser::Comic)
        } else if same_text(word, "explanation") {
            Some(OpenInBrowser::Explanation)
        } else {
            None
        }
    }
}

impl CommandToApp {
    /// Reads a command without an argument.
    pub fn parse_plain(word: &str) -> (command: Option<CommandToApp>)
        ensures
            command == plain_command_word(word@),
    {
        if same_text(word, "quit") {
            Some(CommandToApp::Quit)
        } else if same_text(word, "toggle_processing") {
            Some(CommandToApp::ToggleProcessing)
        } else if same_text(word, "toggle_bookmark") {
            Some(CommandToApp::ToggleBookmark)
        } else if same_text(word, "handle_resize") {
            Some(CommandToApp::HandleResize)
        } else if same_text(word, "none") {
            Some(CommandToApp::Nothing)
        } else {
            None
        }
    }

    /// The command that the words of a key binding stand for.
    pub fn from_words(words: &Vec<String>) -> (command: Option<CommandToApp>)
        ensures
            command == command_of(texts(words@)),
    {
        if words.len() == 0 {
            return None;
        }
        let first = words[0].as_str();
        if same_text(first, "switch_to_comic") {
            if words.len() >= 2 {
                match SwitchToComic::parse(words[1].as_str()) {
                    Some(switch_to_comic) => Some(CommandToApp::SwitchToComic(switch_to_comic)),
                    None => None,
                }
            } else {
                None
            }
        } else if same_text(first, "open_in_browser") {
            if words.len() >= 2 {
                match OpenInBrowser::parse(words[1].as_str()) {
                    Some(open_in_browser) => Some(CommandToApp::OpenInBrowser(open_in_browser)),
                    None => None,
                }
            } else {
                None
            }
        } else {
            CommandToApp::parse_plain(first)
        }
    }

    /// Reads the command of a key binding: the name of the command and, after
    /// white space, its argument where it takes one.
    pub fn parse(string: &str) -> (command: Option<CommandToApp>)
        ensures
            command == command_of(words(string@)),
    {
        let words = split_words(string);
        CommandToApp::from_words(&words)
    }
}

/// The navigation that a session starts with: to the number given on the command
/// line, else to the comic chosen there, else to the comic of the configuration.
pub fn initial_switch_to_comic(
    default: SwitchToComic,
    number: Option<u16>,
    initial_comic: Option<SwitchToComic>,
) -> (switch_to_comic: SwitchToComic)
    ensures
        switch_to_comic == match number {
            Some(number) => SwitchToComic::Specific(number),
            None => match initial_comic {
                Some(initial_comic) => initial_comic,
                None => default,
            },
        },
{
    match number {
        Some(number) => SwitchToComic::Specific(number),
        None => match initial_comic {
            Some(initial_comic) => initial_comic,
            None => default,
        },
    }
}

} // verus!
