//! The styles of the texts on screen, as the configuration names them.

use crate::config::{error_view, ConfigError, ConfigErrorView};
use crate::text::{contains_text, names_contain, split_words, texts, words};
use vstd::prelude::*;

verus! {

/// `ratatui::style::Color`, a colour that the terminal can show. Nothing is known
/// of one but the text that names it.
#[verifier::external_type_specification]
#[verifier::external_body]
pub struct ExTerminalColor(ratatui::style::Color);

/// The colour of the terminal that a text names, and `None` for a text that names
/// none.
pub uninterp spec fn named_color(text: Seq<char>) -> Option<ratatui::style::Color>;

/// `from_str` of `ratatui::style::Color`: the colour that the text names, by its
/// name, its index or its hexadecimal notation, or `None` where the text is
/// refused.
#[verifier::external_body]
fn parse_color_name(text: &str) -> (color: Option<ratatui::style::Color>)
    ensures
        color == named_color(text@),
{
    match <ratatui::style::Color as std::str::FromStr>::from_str(text) {
        Ok(color) => Some(color),
        Err(_) => None,
    }
}

/// The ways in which a text is set off.
#[derive(Debug, Clone, Copy, PartialEq, Eq)]
pub struct StyleModifiers {
    pub bold: bool,
    pub italic: bool,
    pub underlined: bool,
    pub slow_blink: bool,
    pub rapid_blink: bool,
    pub reversed: bool,
    pub hidden: bool,
    pub crossed_out: bool,
}

/// The style of a text on screen: its colour and the ways in which it is set off.
#[derive(Debug, Clone, Copy, PartialEq, Eq)]
pub struct Style {
    pub color: ratatui::style::Color,
    pub modifiers: StyleModifiers,
}

/// Why a style cannot be read.
#[derive(Debug, Clone, Copy, PartialEq, Eq)]
pub enum StyleError {
    /// The setting is empty.
    ExpectedColor,
    /// The first word of the setting names no colour.
    InvalidColor,
}

/// The styles as they are written in the configuration.
#[derive(Debug, Clone, PartialEq, Eq)]
pub struct StylingConfigRaw {
    pub title_style: String,
    pub alt_text_style: String,
    pub date_style: String,
    pub errors_style: String,
    pub messages_style: String,
}

/// The styles of the texts on screen.
#[derive(Debug, Clone, Copy, PartialEq, Eq)]
pub struct StylingConfig {
    pub title_style: Style,
    pub alt_text_style: Style,
    pub date_style: Style,
    pub errors_style: Style,
    pub messages_style: Style,
}

/// The ways of setting off a text that a list of words asks for. Words that name
/// none are passed over.
pub open spec fn style_modifiers(names: Seq<Seq<char>>) -> StyleModifiers {
    StyleModifiers {
        bold: names_contain(names, "bold"@),
        italic: names_contain(names, "italic"@),
        underlined: names_contain(names, "underlined"@),
        slow_blink: names_contain(names, "slow_blink"@),
        rapid_blink: names_contain(names, "rapid_blink"@),
        reversed: names_contain(names, "reversed"@),
        hidden: names_contain(names, "hidden"@),
        crossed_out: names_contain(names, "crossed_out"@),
    }
}

/// The style that the words of a setting stand for, where `color` is the colour
/// that the first word names: the first word is the colour, and the words after it
/// say how the text is set off.
pub open spec fn style_of(words: Seq<Seq<char>>, color: Option<ratatui::style::Color>) -> Result<
    Style,
    StyleError,
> {
    if words.len() == 0 {
        Err(StyleError::ExpectedColor)
    } else {
        match color {
            Some(color) => Ok(Style { color, modifiers: style_modifiers(words.skip(1)) }),
            None => Err(StyleError::InvalidColor),
        }
    }
}

/// The style that a setting stands for.
pub open spec fn parsed_style(text: Seq<char>) -> Result<Style, StyleError> {
    let words = words(text);
    style_of(
        words,
        if words.len() > 0 {
            named_color(words[0])
        } else {
            None
        },
    )
}

/// The styles for the five settings as they were read, or the error for the first
/// of them that could not be read: title, alt text, date, messages, errors.
pub open spec fn styling_config(
    raw: StylingConfigRaw,
    title_style: Result<Style, StyleError>,
    alt_text_style: Result<Style, StyleError>,
    date_style: Result<Style, StyleError>,
    messages_style: Result<Style, StyleError>,
    errors_style: Result<Style, StyleError>,
) -> Result<StylingConfig, ConfigErrorView> {
    if title_style is Err {
        Err(ConfigErrorView::TitleStyle(raw.title_style@))
    } else if alt_text_style is Err {
        Err(ConfigErrorView::AltTextStyle(raw.alt_text_style@))
    } else if date_style is Err {
        Err(ConfigErrorView::DateStyle(raw.date_style@))
    } else if messages_style is Err {
        Err(ConfigErrorView::MessagesStyle(raw.messages_style@))
    } else if errors_style is Err {
        Err(ConfigErrorView::ErrorsStyle(raw.errors_style@))
    } else {
        Ok(
            StylingConfig {
                title_style: title_style->Ok_0,
                alt_text_style: alt_text_style->Ok_0,
                date_style: date_style->Ok_0,
                errors_style: errors_style->Ok_0,
                messages_style: messages_style->Ok_0,
            },
        )
    }
}

/// The styles that the settings of a configuration stand for.
pub open spec fn styling_of(raw: StylingConfigRaw) -> Result<StylingConfig, ConfigErrorView> {
    styling_config(
        raw,
        parsed_style(raw.title_style@),
        parsed_style(raw.alt_text_style@),
        parsed_style(raw.date_style@),
        parsed_style(raw.messages_style@),
        parsed_style(raw.errors_style@),
    )
}

/// The style that the words of a setting stand for, where `color` is the colour
/// that the first word names.
pub fn style_from_words(words: &Vec<String>, color: Option<ratatui::style::Color>) -> (style:
    Result<Style, StyleError>)
    ensures
        style == style_of(texts(words@), color),
{
    if words.len() == 0 {
        return Err(StyleError::ExpectedColor);
    }
    match color {
        Some(color) => {
            let count = words.len();
            proof {
                assert(texts(words@).skip(1) =~= texts(words@).subrange(1, count as int));
            }
            Ok(
                Style {
                    color,
                    modifiers: StyleModifiers {
                        bold: contains_text(words, 1, count, "bold"),
                        italic: contains_text(words, 1, count, "italic"),
                        underlined: contains_text(words, 1, count, "underlined"),
                        slow_blink: contains_text(words, 1, count, "slow_blink"),
                        rapid_blink: contains_text(words, 1, count, "rapid_blink"),
                        reversed: contains_text(words, 1, count, "reversed"),
                        hidden: contains_text(words, 1, count, "hidden"),
                        crossed_out: contains_text(words, 1, count, "crossed_out"),
                    },
                },
            )
        },
        None => Err(StyleError::InvalidColor),
    }
}

/// Reads the style of a text: a colour, and after it the ways in which the text is
/// set off, with white space between the words.
pub fn parse_style(string: &str) -> (style: Result<Style, StyleError>)
    ensures
        style == parsed_style(string@),
{
    let words = split_words(string);
    if words.len() == 0 {
        return Err(StyleError::ExpectedColor);
    }
    let color = parse_color_name(words[0].as_str());
    style_from_words(&words, color)
}

impl StylingConfig {
    /// The styles for the five settings as they were read by [`parse_style`].
    pub fn from_styles(
        raw: StylingConfigRaw,
        title_style: Result<Style, StyleError>,
        alt_text_style: Result<Style, StyleError>,
        date_style: Result<Style, StyleError>,
        messages_style: Result<Style, StyleError>,
        errors_style: Result<Style, StyleError>,
    ) -> (config: Result<StylingConfig, ConfigError>)
        ensures
            error_view(config) == styling_config(
                raw,
                title_style,
                alt_text_style,
                date_style,
                messages_style,
                errors_style,
            ),
    {
        let title_style = match title_style {
            Ok(style) => style,
            Err(_) => {
                return Err(ConfigError::TitleStyle(raw.title_style));
            },
        };
        let alt_text_style = match alt_text_style {
            Ok(style) => style,
            Err(_) => {
                return Err(ConfigError::AltTextStyle(raw.alt_text_style));
            },
        };
        let date_style = match date_style {
            Ok(style) => style,
            Err(_) => {
                return Err(ConfigError::DateStyle(raw.date_style));
            },
        };
        let messages_style = match messages_style {
            Ok(style) => style,
            Err(_) => {
                return Err(ConfigError::MessagesStyle(raw.messages_style));
            },
        };
        let errors_style = match errors_style {
            Ok(style) => style,
            Err(_) => {
                return Err(ConfigError::ErrorsStyle(raw.errors_style));
            },
        };
        Ok(StylingConfig { title_style, alt_text_style, date_style, errors_style, messages_style })
    }

    /// Reads the styles of the configuration.
    pub fn from_raw(raw: StylingConfigRaw) -> (config: Result<StylingConfig, ConfigError>)
        ensures
            error_view(config) == styling_of(raw),
    {
        let title_style = parse_style(raw.title_style.as_str());
        let alt_text_style = parse_style(raw.alt_text_style.as_str());
        let date_style = parse_style(raw.date_style.as_str());
        let messages_style = parse_style(raw.messages_style.as_str());
        let errors_style = parse_style(raw.errors_style.as_str());
        StylingConfig::from_styles(
            raw,
            title_style,
            alt_text_style,
            date_style,
            messages_style,
            errors_style,
        )
    }
}

} // verus!
