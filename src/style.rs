use colored::{Color, ColoredString, Colorize};
use vstd::prelude::*;

verus! {

/// A terminal colour used by the listing.
#[derive(Clone, Copy, Debug, PartialEq, Eq, Structural)]
pub enum Hue {
    White,
    Red,
    Blue,
    Cyan,
    Yellow,
    Black,
}

pub open spec fn hue_name(h: Hue) -> Seq<char> {
    match h {
        Hue::White => "white"@,
        Hue::Red => "red"@,
        Hue::Blue => "blue"@,
        Hue::Cyan => "cyan"@,
        Hue::Yellow => "yellow"@,
        Hue::Black => "black"@,
    }
}

impl Hue {
    /// The colour's name as the terminal styling library spells it.
    pub fn name(&self) -> (r: &'static str)
        ensures
            r@ == hue_name(*self),
    {
        match self {
            Hue::White => "white",
            Hue::Red => "red",
            Hue::Blue => "blue",
            Hue::Cyan => "cyan",
            Hue::Yellow => "yellow",
            Hue::Black => "black",
        }
    }
}

/// How one field of a line is shown on a terminal.
#[derive(Clone, Copy, Debug, PartialEq, Eq, Structural)]
pub struct Style {
    pub fg: Option<Hue>,
    pub bg: Option<Hue>,
    pub bold: bool,
}

/// The terminal sequence that ends a styled run of text.
pub open spec fn reset_code() -> Seq<char> {
    seq!['\x1B', '[', '0', 'm']
}

/// Text with no escape character in it.
pub open spec fn no_escape(s: Seq<char>) -> bool {
    forall|i: int| 0 <= i < s.len() ==> s[i] != '\x1B'
}

/// What a styled rendering of `text` may be: the text itself (when styling is
/// switched off for the process) or the text after a select-graphic-rendition
/// sequence `ESC [ codes m` and followed by the reset sequence.
pub open spec fn painted(text: Seq<char>, r: Seq<char>) -> bool {
    r == text || exists|codes: Seq<char>|
        r == seq!['\x1B', '['] + codes + seq!['m'] + text + reset_code()
}

fn hue_option_name(h: Option<Hue>) -> (r: Option<&'static str>)
    ensures
        r.is_none() == h.is_none(),
        h.is_some() ==> r.unwrap()@ == hue_name(h.unwrap()),
{
    match h {
        Some(c) => Some(c.name()),
        None => None,
    }
}

/// Relies on colored's `Color::from` (colour names) and the `Display` of
/// `ColoredString`: with no colour set the text comes out as it is; otherwise,
/// for text without escapes, either as it is (styling off) or after the
/// `ESC [ codes m` that `compute_style` builds and before the reset sequence.
#[verifier::external_body]
fn paint(text: &str, fg: Option<&str>, bg: Option<&str>) -> (r: String)
    ensures
        fg.is_none() && bg.is_none() ==> r@ == text@,
        no_escape(text@) ==> painted(text@, r@),
{
    let mut s = ColoredString::from(text);
    s.fgcolor = fg.map(Color::from);
    s.bgcolor = bg.map(Color::from);
    s.to_string()
}

/// Relies on colored's `Color::from`, `Colorize::bold` and the `Display` of
/// `ColoredString`: for text without escapes, the text as it is (styling off)
/// or after the `ESC [ codes m` that `compute_style` builds and before the
/// reset sequence.
#[verifier::external_body]
fn paint_bold(text: &str, fg: Option<&str>, bg: Option<&str>) -> (r: String)
    ensures
        no_escape(text@) ==> painted(text@, r@),
{
    let mut s = ColoredString::from(text);
    s.fgcolor = fg.map(Color::from);
    s.bgcolor = bg.map(Color::from);
    s.bold().to_string()
}

/// Shows `text` in `style` when `color` is set, and as it is otherwise.
pub fn styled(text: &str, style: Style, color: bool) -> (r: String)
    ensures
        !color ==> r@ == text@,
        color && style.fg.is_none() && style.bg.is_none() && !style.bold ==> r@ == text@,
        no_escape(text@) ==> painted(text@, r@),
{
    if !color {
        text.to_owned()
    } else if style.bold {
        paint_bold(text, hue_option_name(style.fg), hue_option_name(style.bg))
    } else {
        paint(text, hue_option_name(style.fg), hue_option_name(style.bg))
    }
}

} // verus!
