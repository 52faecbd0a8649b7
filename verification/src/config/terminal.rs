//! The colours of the terminal: the settings that name them, and the query that
//! asks the terminal for them.

use crate::config::{error_view, ConfigError, ConfigErrorView};
use crate::recolor::Rgb;
use crate::text::{decimal, push_char, push_decimal, same_text};
use vstd::prelude::*;
use vstd::string::StringSliceAdditionalSpecFns;

verus! {

/// The colour settings as they are written in the configuration.
#[derive(Debug, Clone, PartialEq, Eq)]
pub struct TerminalConfigRaw {
    pub foreground_color: String,
    pub background_color: String,
}

/// The colours that the artwork is mapped onto. `None` stands for the colour that
/// the terminal reports.
#[derive(Debug, Clone, Copy, PartialEq, Eq)]
pub struct TerminalConfig {
    pub foreground_color: Option<Rgb>,
    pub background_color: Option<Rgb>,
}

/// The selector of the terminal's foreground colour in a query.
pub const FOREGROUND_COLOR: u8 = 10;

/// The selector of the terminal's background colour in a query.
pub const BACKGROUND_COLOR: u8 = 11;

/// The time that the terminal is given to answer a query, in milliseconds.
pub const DELAY_MS: u64 = 20;

/// The colour that a text in hexadecimal notation stands for, as red, green and
/// blue, and `None` for a text that is no such notation.
pub uninterp spec fn hex_color(text: Seq<char>) -> Option<(u8, u8, u8)>;

/// `colors_transform::Rgb::from_hex_str`, and `colors_transform::Color::as_tuple`
/// of the colour it gives: the red, green and blue that the text stands for in
/// hexadecimal notation, each a whole number from 0 to 255, or `None` where the
/// text is refused.
#[verifier::external_body]
fn parse_image_rgb(text: &str) -> (color: Option<Rgb>)
    ensures
        color == color_of(hex_color(text@)),
{
    match colors_transform::Rgb::from_hex_str(text) {
        Ok(rgb) => {
            let (red, green, blue) = colors_transform::Color::as_tuple(&rgb);
            Some(Rgb { red: red as u8, green: green as u8, blue: blue as u8 })
        },
        Err(_) => None,
    }
}

/// The colour of three channels, if there is one.
pub open spec fn color_of(channels: Option<(u8, u8, u8)>) -> Option<Rgb> {
    match channels {
        Some((red, green, blue)) => Some(Rgb { red, green, blue }),
        None => None,
    }
}

/// What a colour setting asks for, where `parsed` is the colour that the text
/// stands for in hexadecimal notation. The word `query` asks for the colour of the
/// terminal, which is `Some(None)`; any other text must be a colour.
pub open spec fn color_setting(text: Seq<char>, parsed: Option<Rgb>) -> Option<Option<Rgb>> {
    if text == "query"@ {
        Some(None)
    } else {
        match parsed {
            Some(color) => Some(Some(color)),
            None => None,
        }
    }
}

/// The terminal's colours for the two settings as they were read, or the error for
/// the first of them that could not be read.
pub open spec fn terminal_config(
    raw_foreground: Seq<char>,
    foreground: Option<Option<Rgb>>,
    raw_background: Seq<char>,
    background: Option<Option<Rgb>>,
) -> Result<TerminalConfig, ConfigErrorView> {
    match foreground {
        Some(foreground_color) => match background {
            Some(background_color) => Ok(TerminalConfig { foreground_color, background_color }),
            None => Err(ConfigErrorView::BackgroundColor(raw_background)),
        },
        None => Err(ConfigErrorView::ForegroundColor(raw_foreground)),
    }
}

/// The colours of the terminal that the settings of a configuration stand for.
pub open spec fn terminal_of(raw: TerminalConfigRaw) -> Result<TerminalConfig, ConfigErrorView> {
    terminal_config(
        raw.foreground_color@,
        color_setting(raw.foreground_color@, color_of(hex_color(raw.foreground_color@))),
        raw.background_color@,
        color_setting(raw.background_color@, color_of(hex_color(raw.background_color@))),
    )
}

/// Reads a colour setting: `Some(None)` for the word `query`, the colour for a
/// colour in hexadecimal notation, and `None` for any other text.
pub fn parse_color(string: &str) -> (color: Option<Option<Rgb>>)
    ensures
        color == color_setting(string@, color_of(hex_color(string@))),
{
    if same_text(string, "query") {
        Some(None)
    } else {
        match parse_image_rgb(string) {
            Some(color) => Some(Some(color)),
            None => None,
        }
    }
}

impl TerminalConfig {
    /// The terminal's colours for the two settings as they were read by
    /// [`parse_color`].
    pub fn from_colors(
        raw: TerminalConfigRaw,
        foreground: Option<Option<Rgb>>,
        background: Option<Option<Rgb>>,
    ) -> (config: Result<TerminalConfig, ConfigError>)
        ensures
            error_view(config) == terminal_config(
                raw.foreground_color@,
                foreground,
                raw.background_color@,
                background,
            ),
    {
        match foreground {
            Some(foreground_color) => match background {
                Some(background_color) => Ok(TerminalConfig { foreground_color, background_color }),
                None => Err(ConfigError::BackgroundColor(raw.background_color)),
            },
            None => Err(ConfigError::ForegroundColor(raw.foreground_color)),
        }
    }

    /// Reads the colour settings of the configuration.
    pub fn from_raw(raw: TerminalConfigRaw) -> (config: Result<TerminalConfig, ConfigError>)
        ensures
            error_view(config) == terminal_of(raw),
    {
        let foreground = parse_color(raw.foreground_color.as_str());
        let background = parse_color(raw.background_color.as_str());
        TerminalConfig::from_colors(raw, foreground, background)
    }
}

/// The query that asks the terminal for one of its colours: the escape character
/// and `]`, the selector in decimal digits, `;?`, and the escape character and a
/// backslash.
pub open spec fn color_query(code: u8) -> Seq<char> {
    seq!['\u{1b}', ']'] + decimal(code as nat) + seq![';', '?', '\u{1b}', '\\']
}

/// The query that asks the terminal for one of its colours.
pub fn osc_query(code: u8) -> (query: String)
    ensures
        query@ == color_query(code),
{
    let mut query = String::new();
    push_char(&mut query, '\u{1b}');
    push_char(&mut query, ']');
    push_decimal(&mut query, code as u16);
    push_char(&mut query, ';');
    push_char(&mut query, '?');
    push_char(&mut query, '\u{1b}');
    push_char(&mut query, '\\');
    proof {
        assert(query@ =~= color_query(code));
    }
    query
}

/// The two hexadecimal digits that lead each of the three channels in the
/// terminal's answer to a colour query: the bytes at the places 8 and 9, 13 and
/// 14, 18 and 19, as characters. `None` where the answer is shorter than that or
/// one of the six bytes is no character of its own.
pub open spec fn answered_digits(answer: Seq<u8>) -> Option<Seq<char>> {
    if answer.len() >= 20 && answer[8] < 0x80 && answer[9] < 0x80 && answer[13] < 0x80
        && answer[14] < 0x80 && answer[18] < 0x80 && answer[19] < 0x80 {
        Some(
            seq![
                answer[8] as char,
                answer[9] as char,
                answer[13] as char,
                answer[14] as char,
                answer[18] as char,
                answer[19] as char,
            ],
        )
    } else {
        None
    }
}

/// The digits of the terminal's answer to a colour query that the colour is read
/// from.
pub fn answer_digits(response: &str) -> (digits: Option<String>)
    ensures
        match answered_digits(response.spec_bytes()) {
            Some(text) => digits matches Some(digits) && digits@ == text,
            None => digits is None,
        },
{
    let bytes = response.as_bytes();
    if bytes.len() < 20 {
        return None;
    }
    if bytes[8] >= 0x80 || bytes[9] >= 0x80 || bytes[13] >= 0x80 || bytes[14] >= 0x80 || bytes[18]
        >= 0x80 || bytes[19] >= 0x80 {
        return None;
    }
    let mut digits = String::new();
    push_char(&mut digits, bytes[8] as char);
    push_char(&mut digits, bytes[9] as char);
    push_char(&mut digits, bytes[13] as char);
    push_char(&mut digits, bytes[14] as char);
    push_char(&mut digits, bytes[18] as char);
    push_char(&mut digits, bytes[19] as char);
    proof {
        assert(digits@ =~= answered_digits(response.spec_bytes())->0);
    }
    Some(digits)
}

/// The colour in the terminal's answer to a colour query, or `None` for an answer
/// that holds none.
pub fn osc_color(response: &str) -> (color: Option<Rgb>)
    ensures
        color == match answered_digits(response.spec_bytes()) {
            Some(digits) => color_of(hex_color(digits)),
            None => None,
        },
{
    match answer_digits(response) {
        Some(digits) => parse_image_rgb(digits.as_str()),
        None => None,
    }
}

} // verus!
